use vstd::prelude::*;
use vstd::string::StringExecFns;
use crate::text::push_char;

verus! {

/// The decimal digit character for d in 0..=9.
pub open spec fn spec_digit_char(d: int) -> char {
    if d == 0 {
        '0'
    } else if d == 1 {
        '1'
    } else if d == 2 {
        '2'
    } else if d == 3 {
        '3'
    } else if d == 4 {
        '4'
    } else if d == 5 {
        '5'
    } else if d == 6 {
        '6'
    } else if d == 7 {
        '7'
    } else if d == 8 {
        '8'
    } else {
        '9'
    }
}

/// The decimal digits of n >= 0, most significant first, with no leading
/// zeros (a single "0" for n = 0).
pub open spec fn spec_decimal(n: int) -> Seq<char>
    decreases n,
{
    if n < 10 {
        seq![spec_digit_char(n)]
    } else {
        spec_decimal(n / 10) + seq![spec_digit_char(n % 10)]
    }
}

/// The entry for position i >= 1: "Fizz" and "Buzz" concatenated for the
/// multiples of 3 and of 5 that i is, or the decimal digits of i when it is
/// a multiple of neither.
pub open spec fn spec_fizz_entry(i: int) -> Seq<char> {
    if i % 3 == 0 && i % 5 == 0 {
        "FizzBuzz"@
    } else if i % 3 == 0 {
        "Fizz"@
    } else if i % 5 == 0 {
        "Buzz"@
    } else {
        spec_decimal(i)
    }
}

/// The entries for positions 1..=n joined with "," and no trailing comma.
pub open spec fn spec_fizz_buzz(n: int) -> Seq<char>
    decreases n,
{
    if n <= 1 {
        spec_fizz_entry(1)
    } else {
        spec_fizz_buzz(n - 1) + ","@ + spec_fizz_entry(n)
    }
}

fn digit_char(d: usize) -> (c: char)
    requires
        d <= 9,
    ensures
        c == spec_digit_char(d as int),
{
    match d {
        0 => '0',
        1 => '1',
        2 => '2',
        3 => '3',
        4 => '4',
        5 => '5',
        6 => '6',
        7 => '7',
        8 => '8',
        _ => '9',
    }
}

fn decimal_string(n: usize) -> (r: String)
    ensures
        r@ == spec_decimal(n as int),
    decreases n,
{
    if n < 10 {
        let mut s = String::new();
        push_char(&mut s, digit_char(n));
        proof {
            assert(s@ =~= spec_decimal(n as int));
        }
        s
    } else {
        let mut s = decimal_string(n / 10);
        push_char(&mut s, digit_char(n % 10));
        s
    }
}

fn fizz_entry(i: usize) -> (r: String)
    requires
        1 <= i,
    ensures
        r@ == spec_fizz_entry(i as int),
{
    if i % 3 == 0 && i % 5 == 0 {
        String::from_str("FizzBuzz")
    } else if i % 3 == 0 {
        String::from_str("Fizz")
    } else if i % 5 == 0 {
        String::from_str("Buzz")
    } else {
        decimal_string(i)
    }
}

/// The FizzBuzz line for positions 1..=value, comma-joined: "FizzBuzz" at
/// multiples of 15, "Fizz" at other multiples of 3, "Buzz" at other
/// multiples of 5, and the decimal digits everywhere else.
pub fn fizz_buzz(value: usize) -> (r: String)
    requires
        1 <= value,
    ensures
        r@ == spec_fizz_buzz(value as int),
{
    let mut out = fizz_entry(1);
    let mut i: usize = 1;
    while i < value
        invariant
            1 <= i <= value,
            out@ == spec_fizz_buzz(i as int),
        decreases value - i,
    {
        i = i + 1;
        out.append(",");
        let entry = fizz_entry(i);
        out.append(entry.as_str());
    }
    out
}

} // verus!
