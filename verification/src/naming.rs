//! The file names of rendered frames.
use vstd::prelude::*;

verus! {

/// The character of a decimal digit.
pub open spec fn digit_char(d: nat) -> char {
    if d == 0 {
        '0'
    } else if d == 1 {
        '1'
    } else if d == 2 {
        '2'
    } else if d == 3 {
        '3'
    } else if d == 4 {
        '4'
    } else if d == 5 {
        '5'
    } else if d == 6 {
        '6'
    } else if d == 7 {
        '7'
    } else if d == 8 {
        '8'
    } else {
        '9'
    }
}

/// The decimal digits of a natural number, most significant first, without
/// leading zeros.
pub open spec fn decimal_digits(n: nat) -> Seq<char>
    decreases n,
{
    if n < 10 {
        seq![digit_char(n)]
    } else {
        decimal_digits(n / 10).push(digit_char(n % 10))
    }
}

/// The decimal form of an integer, with a leading `-` when it is negative.
pub open spec fn decimal(n: int) -> Seq<char> {
    if n < 0 {
        seq!['-'] + decimal_digits((-n) as nat)
    } else {
        decimal_digits(n as nat)
    }
}

/// The number that a string of decimal digits reads as, most significant
/// digit first.
pub open spec fn decimal_value(s: Seq<char>) -> int
    decreases s.len(),
{
    if s.len() == 0 {
        0
    } else {
        decimal_value(s.drop_last()) * 10 + (s.last() as int - '0' as int)
    }
}

/// Each digit is written as its ASCII character: the character whose code is
/// the code of `'0'` plus the digit.
pub proof fn digit_chars_are_ascii_digits(d: nat)
    requires
        d < 10,
    ensures
        digit_char(d) as int == '0' as int + d,
        '0' <= digit_char(d) <= '9',
{
}

/// The decimal digits of `n` are ASCII digits, start with a non-zero digit
/// unless `n` is zero, and read back as `n`.
pub proof fn decimal_digits_read_back(n: nat)
    ensures
        decimal_value(decimal_digits(n)) == n,
        decimal_digits(n).len() >= 1,
        forall|i: int|
            0 <= i < decimal_digits(n).len() ==> '0' <= #[trigger] decimal_digits(n)[i] <= '9',
        n > 0 ==> decimal_digits(n)[0] != '0',
    decreases n,
{
    digit_chars_are_ascii_digits(n % 10);
    if n >= 10 {
        decimal_digits_read_back(n / 10);
        let s = decimal_digits(n);
        assert(s.drop_last() =~= decimal_digits(n / 10));
        assert(s.last() == digit_char(n % 10));
        assert(s[0] == decimal_digits(n / 10)[0]);
        assert(decimal_value(s) == decimal_value(s.drop_last()) * 10 + (s.last() as int - '0' as int));
        assert((n / 10) * 10 + n % 10 == n);
    } else {
        let s = decimal_digits(n);
        assert(s.drop_last() =~= Seq::<char>::empty());
        assert(decimal_value(s) == decimal_value(s.drop_last()) * 10 + (s.last() as int - '0' as int));
    }
}

/// The decimal form of an integer is a `-` sign for negative numbers followed
/// by digits that read back as its magnitude, with no leading zero.
pub proof fn decimal_reads_back(n: int)
    ensures
        n < 0 ==> decimal(n)[0] == '-' && decimal_value(decimal(n).drop_first()) == -n,
        n >= 0 ==> decimal_value(decimal(n)) == n,
        n < 0 ==> decimal(n).drop_first() == decimal_digits((-n) as nat),
        n != 0 ==> decimal(n)[if n < 0 { 1int } else { 0int }] != '0',
        forall|i: int|
            (if n < 0 { 1int } else { 0int }) <= i < decimal(n).len() ==> '0' <= #[trigger] decimal(
                n,
            )[i] <= '9',
{
    if n < 0 {
        decimal_digits_read_back((-n) as nat);
        assert(decimal(n).drop_first() =~= decimal_digits((-n) as nat));
    } else {
        decimal_digits_read_back(n as nat);
    }
}

/// Appends the character of the digit `d`.
fn push_digit(s: &mut String, d: u64)
    requires
        d < 10,
    ensures
        final(s)@ == old(s)@.push(digit_char(d as nat)),
{
    proof {
        reveal_strlit("0");
        reveal_strlit("1");
        reveal_strlit("2");
        reveal_strlit("3");
        reveal_strlit("4");
        reveal_strlit("5");
        reveal_strlit("6");
        reveal_strlit("7");
        reveal_strlit("8");
        reveal_strlit("9");
    }
    if d == 0 {
        s.append("0");
    } else if d == 1 {
        s.append("1");
    } else if d == 2 {
        s.append("2");
    } else if d == 3 {
        s.append("3");
    } else if d == 4 {
        s.append("4");
    } else if d == 5 {
        s.append("5");
    } else if d == 6 {
        s.append("6");
    } else if d == 7 {
        s.append("7");
    } else if d == 8 {
        s.append("8");
    } else {
        s.append("9");
    }
}

/// Appends the decimal digits of `n`.
fn push_decimal_digits(s: &mut String, n: u64)
    ensures
        final(s)@ == old(s)@ + decimal_digits(n as nat),
    decreases n,
{
    if n >= 10 {
        push_decimal_digits(s, n / 10);
    }
    push_digit(s, n % 10);
    assert(n >= 10 ==> decimal_digits(n as nat) == decimal_digits((n / 10) as nat).push(
        digit_char((n % 10) as nat),
    ));
}

/// The file name of frame number `frame` of an animation whose frame
/// numbering starts at `frame_start`: the decimal number `frame + frame_start`
/// followed by `.png`. The sum must fit in an `i32`.
pub fn frame_file_name(frame: i32, frame_start: i32) -> (name: String)
    requires
        i32::MIN <= frame + frame_start <= i32::MAX,
    ensures
        name@ == decimal(frame + frame_start) + ".png"@,
{
    let n: i32 = frame + frame_start;
    let mut name = String::new();
    let magnitude: u64 = if n < 0 {
        proof {
            reveal_strlit("-");
        }
        name.append("-");
        (0i64 - n as i64) as u64
    } else {
        n as u64
    };
    push_decimal_digits(&mut name, magnitude);
    name.append(".png");
    name
}

} // verus!
