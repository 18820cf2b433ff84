//! Numbers as text.
use vstd::prelude::*;

verus! {

/// The character of a digit, upper case above 9.
pub open spec fn digit_char(d: int) -> char {
    if d < 10 {
        ('0' as int + d) as char
    } else {
        ('A' as int + d - 10) as char
    }
}

/// Dividing by a base makes a number at most half as large.
pub proof fn lemma_quotient(value: int, base: int)
    requires
        base >= 2,
        value >= base,
    ensures
        0 < value / base <= value / 2,
{
    vstd::arithmetic::div_mod::lemma_div_is_ordered_by_denominator(value, 2, base);
    vstd::arithmetic::div_mod::lemma_div_non_zero(value, base);
}

/// A number in a base from 2 to 16, without leading zeros.
pub open spec fn digits(value: int, base: int) -> Seq<char>
    decreases value,
{
    if value < base || base < 2 {
        seq![digit_char(value)]
    } else {
        proof {
            lemma_quotient(value, base);
        }
        digits(value / base, base).push(digit_char(value % base))
    }
}

/// A number in a base from 2 to 16, filled up with leading zeros to `width`.
pub open spec fn padded_digits(value: int, base: int, width: int) -> Seq<char> {
    let d = digits(value, base);
    if d.len() < width {
        Seq::new((width - d.len()) as nat, |i: int| '0') + d
    } else {
        d
    }
}

fn digit_str(d: u32) -> (r: &'static str)
    requires
        d < 16,
    ensures
        r@ == seq![digit_char(d as int)],
{
    proof {
        reveal_strlit("0");
        reveal_strlit("1");
        reveal_strlit("2");
        reveal_strlit("3");
        reveal_strlit("4");
        reveal_strlit("5");
        reveal_strlit("6");
        reveal_strlit("7");
        reveal_strlit("8");
        reveal_strlit("9");
        reveal_strlit("A");
        reveal_strlit("B");
        reveal_strlit("C");
        reveal_strlit("D");
        reveal_strlit("E");
        reveal_strlit("F");
    }
    match d {
        0 => "0",
        1 => "1",
        2 => "2",
        3 => "3",
        4 => "4",
        5 => "5",
        6 => "6",
        7 => "7",
        8 => "8",
        9 => "9",
        10 => "A",
        11 => "B",
        12 => "C",
        13 => "D",
        14 => "E",
        _ => "F",
    }
}

/// Appends a number without leading zeros.
pub fn append_number(out: &mut String, value: u32, base: u32)
    requires
        2 <= base <= 16,
    ensures
        final(out)@ == old(out)@ + digits(value as int, base as int),
    decreases value,
{
    if value >= base {
        proof {
            lemma_quotient(value as int, base as int);
        }
        append_number(out, value / base, base);
    } else {
        proof {
            vstd::arithmetic::div_mod::lemma_small_mod(value as nat, base as nat);
        }
    }
    out.append(digit_str(value % base));
}

fn digit_count(value: u32, base: u32) -> (n: usize)
    requires
        2 <= base <= 16,
    ensures
        n == digits(value as int, base as int).len(),
        n <= 1 + value / 2,
    decreases value,
{
    if value < base {
        1
    } else {
        proof {
            lemma_quotient(value as int, base as int);
        }
        digit_count(value / base, base) + 1
    }
}

/// Appends a number, filled up with leading zeros to `width`.
pub fn append_padded_number(out: &mut String, value: u32, base: u32, width: usize)
    requires
        2 <= base <= 16,
    ensures
        final(out)@ == old(out)@ + padded_digits(value as int, base as int, width as int),
{
    let n: usize = digit_count(value, base);
    let ghost before = out@;
    let ghost zeros = Seq::new(
        if n < width {
            (width - n) as nat
        } else {
            0
        },
        |i: int| '0',
    );
    let mut i: usize = n;
    while i < width
        invariant
            n <= i,
            i <= width || i == n,
            n < width ==> zeros.len() == width - n,
            forall|j: int| 0 <= j < zeros.len() ==> zeros[j] == '0',
            out@ == before + zeros.take(i - n),
        decreases width - i,
    {
        proof {
            reveal_strlit("0");
        }
        out.append("0");
        i = i + 1;
    }
    append_number(out, value, base);
}

/// The value of a digit; -1 for a character that is none.
pub open spec fn digit_value(c: char) -> int {
    if '0' <= c <= '9' {
        c as int - '0' as int
    } else if 'A' <= c <= 'F' {
        c as int - 'A' as int + 10
    } else {
        -1
    }
}

/// The number that a text stands for in a base.
pub open spec fn value_of(text: Seq<char>, base: int) -> int
    decreases text.len(),
{
    if text.len() == 0 {
        0
    } else {
        value_of(text.drop_last(), base) * base + digit_value(text.last())
    }
}

/// A number is written with digits of the base that stand for it, the most significant
/// first, and without a leading zero unless it is zero itself.
pub proof fn law_digits(value: int, base: int)
    requires
        2 <= base <= 16,
        value >= 0,
    ensures
        value_of(digits(value, base), base) == value,
        digits(value, base).len() > 0,
        forall|i: int|
            0 <= i < digits(value, base).len() ==> 0 <= digit_value(
                #[trigger] digits(value, base)[i],
            ) < base,
        value > 0 ==> digits(value, base)[0] != '0',
        value == 0 ==> digits(value, base) == seq!['0'],
    decreases value,
{
    let text = digits(value, base);
    if value < base {
        assert(text.drop_last() == Seq::<char>::empty());
        assert(value_of(text.drop_last(), base) == 0);
        assert(0 * base == 0) by (nonlinear_arith);
    } else {
        lemma_quotient(value, base);
        law_digits(value / base, base);
        let head = digits(value / base, base);
        assert(text.drop_last() == head);
        vstd::arithmetic::div_mod::lemma_fundamental_div_mod(value, base);
        vstd::arithmetic::mul::lemma_mul_is_commutative(base, value / base);
        vstd::arithmetic::div_mod::lemma_mod_bound(value, base);
        assert(text[0] == head[0]);
        assert forall|i: int| 0 <= i < text.len() implies 0 <= digit_value(#[trigger] text[i])
            < base by {
            if i < head.len() {
                assert(text[i] == head[i]);
            }
        }
    }
}

/// A padded number is the number, with as many zeros before it as it takes to reach
/// the width.
pub proof fn law_padded_digits(value: int, base: int, width: int)
    requires
        2 <= base <= 16,
        value >= 0,
    ensures
        ({
            let plain = digits(value, base);
            let padded = padded_digits(value, base, width);
            let zeros = padded.len() - plain.len();
            &&& padded.len() == if plain.len() < width {
                width
            } else {
                plain.len() as int
            }
            &&& padded.skip(zeros) == plain
            &&& forall|i: int| 0 <= i < zeros ==> #[trigger] padded[i] == '0'
        }),
{
    let plain = digits(value, base);
    let padded = padded_digits(value, base, width);
    assert(padded.skip(padded.len() - plain.len()) == plain);
}

} // verus!
