use vstd::prelude::*;
use vstd::string::StrSliceExecFns;
use vstd::string::StringExecFns;
use vstd::arithmetic::div_mod::lemma_multiply_divide_lt;
use crate::text::capitalize;
use crate::text::spec_capitalize;

verus! {

/// The word for a units digit 1..=9.
pub open spec fn spec_unit_word(d: int) -> Seq<char> {
    if d == 1 {
        "one"@
    } else if d == 2 {
        "two"@
    } else if d == 3 {
        "three"@
    } else if d == 4 {
        "four"@
    } else if d == 5 {
        "five"@
    } else if d == 6 {
        "six"@
    } else if d == 7 {
        "seven"@
    } else if d == 8 {
        "eight"@
    } else {
        "nine"@
    }
}

/// The word for a tens digit 1..=9.
pub open spec fn spec_ten_word(t: int) -> Seq<char> {
    if t == 1 {
        "ten"@
    } else if t == 2 {
        "twenty"@
    } else if t == 3 {
        "thirty"@
    } else if t == 4 {
        "forty"@
    } else if t == 5 {
        "fifty"@
    } else if t == 6 {
        "sixty"@
    } else if t == 7 {
        "seventy"@
    } else if t == 8 {
        "eighty"@
    } else {
        "ninety"@
    }
}

/// The special combined word for 11..=19, which do not follow the
/// tens-hyphen-units format.
pub open spec fn spec_teen_word(x: int) -> Seq<char> {
    if x == 11 {
        "eleven"@
    } else if x == 12 {
        "twelve"@
    } else if x == 13 {
        "thirteen"@
    } else if x == 14 {
        "fourteen"@
    } else if x == 15 {
        "fifteen"@
    } else if x == 16 {
        "sixteen"@
    } else if x == 17 {
        "seventeen"@
    } else if x == 18 {
        "eighteen"@
    } else {
        "nineteen"@
    }
}

/// The magnitude suffix for a power-of-1000 index 1..=4.
pub open spec fn spec_magnitude_word(m: int) -> Seq<char> {
    if m == 1 {
        "thousand"@
    } else if m == 2 {
        "million"@
    } else if m == 3 {
        "billion"@
    } else {
        "trillion"@
    }
}

/// The tens-and-units phrase for x in 1..=99: a teen word where x is
/// 11..=19, otherwise the tens word and units word joined by a hyphen,
/// or whichever of the two is present.
pub open spec fn spec_sub_hundred_words(x: int) -> Seq<char> {
    if 11 <= x && x <= 19 {
        spec_teen_word(x)
    } else {
        let t = x / 10;
        let u = x % 10;
        if t > 0 && u > 0 {
            spec_ten_word(t) + "-"@ + spec_unit_word(u)
        } else if t > 0 {
            spec_ten_word(t)
        } else {
            spec_unit_word(u)
        }
    }
}

/// The words for one 3-digit group g in 1..=999 at magnitude index
/// mag in 0..=4: the hundreds part joined to the tens-and-units part with
/// "-hundred and ", then the magnitude suffix after a space.
pub open spec fn spec_group_words(g: int, mag: int) -> Seq<char> {
    let core = if g >= 100 {
        if g % 100 == 0 {
            spec_unit_word(g / 100) + "-hundred"@
        } else {
            spec_unit_word(g / 100) + "-hundred and "@ + spec_sub_hundred_words(g % 100)
        }
    } else {
        spec_sub_hundred_words(g)
    };
    if mag == 0 {
        core
    } else {
        core + " "@ + spec_magnitude_word(mag)
    }
}

/// 1000 raised to the power k.
pub open spec fn pow1000(k: nat) -> nat
    decreases k,
{
    if k == 0 {
        1
    } else {
        1000 * pow1000((k - 1) as nat)
    }
}

/// The comma-joined spelling of n * 1000^mag for n >= 1: the spelling of the
/// higher groups first, then each nonzero 3-digit group of n,
/// most-significant-first; zero groups produce no term.
pub open spec fn spec_name_from(n: int, mag: int) -> Seq<char>
    decreases n,
{
    if n < 1000 {
        spec_group_words(n, mag)
    } else {
        let rest = spec_name_from(n / 1000, mag + 1);
        if n % 1000 == 0 {
            rest
        } else {
            rest + ", "@ + spec_group_words(n % 1000, mag)
        }
    }
}

/// The English spelling of n in 0..=999_999_999_999_999.
pub open spec fn spec_english_number(n: int) -> Seq<char> {
    if n == 0 {
        "zero"@
    } else {
        spec_name_from(n, 0)
    }
}

fn unit_word(d: usize) -> (r: &'static str)
    requires
        1 <= d <= 9,
    ensures
        r@ == spec_unit_word(d as int),
{
    match d {
        1 => "one",
        2 => "two",
        3 => "three",
        4 => "four",
        5 => "five",
        6 => "six",
        7 => "seven",
        8 => "eight",
        _ => "nine",
    }
}

fn ten_word(t: usize) -> (r: &'static str)
    requires
        1 <= t <= 9,
    ensures
        r@ == spec_ten_word(t as int),
{
    match t {
        1 => "ten",
        2 => "twenty",
        3 => "thirty",
        4 => "forty",
        5 => "fifty",
        6 => "sixty",
        7 => "seventy",
        8 => "eighty",
        _ => "ninety",
    }
}

fn teen_word(x: usize) -> (r: &'static str)
    requires
        11 <= x <= 19,
    ensures
        r@ == spec_teen_word(x as int),
{
    match x {
        11 => "eleven",
        12 => "twelve",
        13 => "thirteen",
        14 => "fourteen",
        15 => "fifteen",
        16 => "sixteen",
        17 => "seventeen",
        18 => "eighteen",
        _ => "nineteen",
    }
}

fn magnitude_word(m: usize) -> (r: &'static str)
    requires
        1 <= m <= 4,
    ensures
        r@ == spec_magnitude_word(m as int),
{
    match m {
        1 => "thousand",
        2 => "million",
        3 => "billion",
        _ => "trillion",
    }
}

fn sub_hundred_words(x: usize) -> (r: String)
    requires
        1 <= x <= 99,
    ensures
        r@ == spec_sub_hundred_words(x as int),
{
    if 11 <= x && x <= 19 {
        String::from_str(teen_word(x))
    } else {
        let t = x / 10;
        let u = x % 10;
        if t > 0 && u > 0 {
            String::from_str(ten_word(t)).concat("-").concat(unit_word(u))
        } else if t > 0 {
            String::from_str(ten_word(t))
        } else {
            String::from_str(unit_word(u))
        }
    }
}

/// English words for one 3-digit group `n` in 1..=999, followed by the
/// magnitude suffix for power-of-1000 index `thousand` (0 = units group,
/// 1 = thousand, ..., 4 = trillion).
pub fn under_1000(n: usize, thousand: usize) -> (r: String)
    requires
        1 <= n <= 999,
        thousand <= 4,
    ensures
        r@ == spec_group_words(n as int, thousand as int),
{
    let core: String = if n >= 100 {
        let h = unit_word(n / 100);
        if n % 100 == 0 {
            String::from_str(h).concat("-hundred")
        } else {
            String::from_str(h).concat("-hundred and ").concat(sub_hundred_words(n % 100).as_str())
        }
    } else {
        sub_hundred_words(n)
    };
    if thousand == 0 {
        core
    } else {
        core.concat(" ").concat(magnitude_word(thousand))
    }
}

fn name_from(n: usize, thousand: usize) -> (r: String)
    requires
        1 <= n,
        thousand <= 4,
        n < pow1000((5 - thousand) as nat),
    ensures
        r@ == spec_name_from(n as int, thousand as int),
    decreases n,
{
    if n < 1000 {
        under_1000(n, thousand)
    } else {
        proof {
            reveal_with_fuel(pow1000, 2);
            assert(pow1000(1) == 1000);
            assert(thousand <= 3);
            assert(pow1000((5 - thousand) as nat) == 1000 * pow1000((4 - thousand) as nat));
            lemma_multiply_divide_lt(n as int, 1000, pow1000((4 - thousand) as nat) as int);
        }
        let sub = n % 1000;
        let rest = name_from(n / 1000, thousand + 1);
        if sub != 0 {
            rest.concat(", ").concat(under_1000(sub, thousand).as_str())
        } else {
            rest
        }
    }
}

/// The English spelling of `n`: nonzero 3-digit groups rendered
/// most-significant-first and joined with ", "; 0 is spelled "zero".
pub fn english_number(n: usize) -> (r: String)
    requires
        n <= 999_999_999_999_999,
    ensures
        r@ == spec_english_number(n as int),
{
    if n == 0 {
        String::from_str("zero")
    } else {
        proof {
            reveal_with_fuel(pow1000, 6);
        }
        name_from(n, 0)
    }
}

/// One verse of the song at current count i >= 1: the capitalized spelling
/// of i twice, then the spelling of i - 1 ("no" when i - 1 is zero), in the
/// fixed eight-line template.
pub open spec fn spec_verse(i: int) -> Seq<char> {
    let current = spec_capitalize(spec_english_number(i));
    let next = if i == 1 {
        "no"@
    } else {
        spec_english_number(i - 1)
    };
    current + " green bottles\nHanging on the wall\n"@ + current
        + " green bottles\nHanging on the wall\nAnd if one green bottle\nShould accidentally fall\nThere'll be "@
        + next + " green bottles\nHanging on the wall"@
}

/// The verses for counts n down to 1, separated by blank lines; empty when
/// n is 0.
pub open spec fn spec_song(n: int) -> Seq<char>
    decreases n,
{
    if n <= 0 {
        Seq::empty()
    } else if n == 1 {
        spec_verse(1)
    } else {
        spec_verse(n) + "\n\n"@ + spec_song(n - 1)
    }
}

fn verse(i: usize) -> (r: String)
    requires
        1 <= i <= 999_999_999_999_999,
    ensures
        r@ == spec_verse(i as int),
{
    let current = capitalize(english_number(i).as_str());
    let next: String = if i == 1 {
        String::from_str("no")
    } else {
        english_number(i - 1)
    };
    current.clone()
        .concat(" green bottles\nHanging on the wall\n")
        .concat(current.as_str())
        .concat(" green bottles\nHanging on the wall\nAnd if one green bottle\nShould accidentally fall\nThere'll be ")
        .concat(next.as_str())
        .concat(" green bottles\nHanging on the wall")
}

/// No character of `s` is a comma.
pub open spec fn comma_free(s: Seq<char>) -> bool {
    forall|i: int| 0 <= i < s.len() ==> s[i] != ','
}

/// A rendered name is well formed when it is nonempty, neither starts nor
/// ends with a comma, and every comma is immediately followed by a space.
pub open spec fn well_formed_name(s: Seq<char>) -> bool {
    &&& s.len() > 0
    &&& s[0] != ','
    &&& s[s.len() - 1] != ','
    &&& forall|i: int| 0 <= i < s.len() && #[trigger] s[i] == ',' ==> i + 1 < s.len() && s[i + 1]
        == ' '
}

proof fn lemma_comma_free_concat(a: Seq<char>, b: Seq<char>)
    requires
        comma_free(a),
        comma_free(b),
    ensures
        comma_free(a + b),
{
    assert forall|i: int| 0 <= i < (a + b).len() implies (a + b)[i] != ',' by {
        if i < a.len() {
            assert((a + b)[i] == a[i]);
        } else {
            assert((a + b)[i] == b[i - a.len()]);
        }
    }
}

proof fn lemma_unit_word_comma_free(d: int)
    ensures
        spec_unit_word(d).len() > 0,
        comma_free(spec_unit_word(d)),
{
    reveal_strlit("one");
    reveal_strlit("two");
    reveal_strlit("three");
    reveal_strlit("four");
    reveal_strlit("five");
    reveal_strlit("six");
    reveal_strlit("seven");
    reveal_strlit("eight");
    reveal_strlit("nine");
}

proof fn lemma_ten_word_comma_free(t: int)
    ensures
        spec_ten_word(t).len() > 0,
        comma_free(spec_ten_word(t)),
{
    reveal_strlit("ten");
    reveal_strlit("twenty");
    reveal_strlit("thirty");
    reveal_strlit("forty");
    reveal_strlit("fifty");
    reveal_strlit("sixty");
    reveal_strlit("seventy");
    reveal_strlit("eighty");
    reveal_strlit("ninety");
}

proof fn lemma_teen_word_comma_free(x: int)
    ensures
        spec_teen_word(x).len() > 0,
        comma_free(spec_teen_word(x)),
{
    reveal_strlit("eleven");
    reveal_strlit("twelve");
    reveal_strlit("thirteen");
    reveal_strlit("fourteen");
    reveal_strlit("fifteen");
    reveal_strlit("sixteen");
    reveal_strlit("seventeen");
    reveal_strlit("eighteen");
    reveal_strlit("nineteen");
}

proof fn lemma_magnitude_word_comma_free(m: int)
    ensures
        spec_magnitude_word(m).len() > 0,
        comma_free(spec_magnitude_word(m)),
{
    reveal_strlit("thousand");
    reveal_strlit("million");
    reveal_strlit("billion");
    reveal_strlit("trillion");
}

proof fn lemma_sub_hundred_words_comma_free(x: int)
    requires
        1 <= x <= 99,
    ensures
        spec_sub_hundred_words(x).len() > 0,
        comma_free(spec_sub_hundred_words(x)),
{
    if 11 <= x <= 19 {
        lemma_teen_word_comma_free(x);
    } else {
        let t = x / 10;
        let u = x % 10;
        lemma_ten_word_comma_free(t);
        lemma_unit_word_comma_free(u);
        reveal_strlit("-");
        if t > 0 && u > 0 {
            lemma_comma_free_concat(spec_ten_word(t), "-"@);
            lemma_comma_free_concat(spec_ten_word(t) + "-"@, spec_unit_word(u));
        }
    }
}

proof fn lemma_group_words_comma_free(g: int, mag: int)
    requires
        1 <= g <= 999,
        0 <= mag <= 4,
    ensures
        spec_group_words(g, mag).len() > 0,
        comma_free(spec_group_words(g, mag)),
{
    reveal_strlit("-hundred");
    reveal_strlit("-hundred and ");
    reveal_strlit(" ");
    let core = if g >= 100 {
        if g % 100 == 0 {
            spec_unit_word(g / 100) + "-hundred"@
        } else {
            spec_unit_word(g / 100) + "-hundred and "@ + spec_sub_hundred_words(g % 100)
        }
    } else {
        spec_sub_hundred_words(g)
    };
    if g >= 100 {
        lemma_unit_word_comma_free(g / 100);
        if g % 100 == 0 {
            lemma_comma_free_concat(spec_unit_word(g / 100), "-hundred"@);
        } else {
            lemma_sub_hundred_words_comma_free(g % 100);
            lemma_comma_free_concat(spec_unit_word(g / 100), "-hundred and "@);
            lemma_comma_free_concat(
                spec_unit_word(g / 100) + "-hundred and "@,
                spec_sub_hundred_words(g % 100),
            );
        }
    } else {
        lemma_sub_hundred_words_comma_free(g);
    }
    if mag != 0 {
        lemma_magnitude_word_comma_free(mag);
        lemma_comma_free_concat(core, " "@);
        lemma_comma_free_concat(core + " "@, spec_magnitude_word(mag));
    }
}

proof fn lemma_name_from_well_formed(n: int, mag: int)
    requires
        1 <= n,
        0 <= mag <= 4,
        n < pow1000((5 - mag) as nat),
    ensures
        well_formed_name(spec_name_from(n, mag)),
    decreases n,
{
    if n < 1000 {
        lemma_group_words_comma_free(n, mag);
    } else {
        reveal_with_fuel(pow1000, 2);
        assert(pow1000((5 - mag) as nat) == 1000 * pow1000((4 - mag) as nat));
        lemma_multiply_divide_lt(n, 1000, pow1000((4 - mag) as nat) as int);
        lemma_name_from_well_formed(n / 1000, mag + 1);
        if n % 1000 != 0 {
            lemma_group_words_comma_free(n % 1000, mag);
            reveal_strlit(", ");
            let rest = spec_name_from(n / 1000, mag + 1);
            let g = spec_group_words(n % 1000, mag);
            let s = rest + ", "@ + g;
            assert(s[0] == rest[0]);
            assert(s[s.len() - 1] == g[g.len() - 1]);
            assert forall|i: int| 0 <= i < s.len() && #[trigger] s[i] == ',' implies i + 1 < s.len()
                && s[i + 1] == ' ' by {
                let r_len = rest.len() as int;
                if i < r_len {
                    assert(s[i] == rest[i]);
                    assert(i + 1 < r_len);
                    assert(s[i + 1] == rest[i + 1]);
                } else if i == r_len {
                    assert(s[i + 1] == ", "@[1]);
                } else if i == r_len + 1 {
                    assert(s[i] == ", "@[1]);
                } else {
                    assert(s[i] == g[i - r_len - 2]);
                }
            }
        }
    }
}

/// Law: for every n in the supported range, the English name is nonempty,
/// neither starts nor ends with a comma, and never holds two commas in a
/// row.
pub proof fn lemma_english_number_no_stray_commas(n: int)
    requires
        1 <= n <= 999_999_999_999_999,
    ensures
        spec_english_number(n).len() > 0,
        spec_english_number(n)[0] != ',',
        spec_english_number(n)[spec_english_number(n).len() - 1] != ',',
        forall|i: int|
            0 <= i < spec_english_number(n).len() - 1 ==> !(#[trigger] spec_english_number(n)[i]
                == ',' && spec_english_number(n)[i + 1] == ','),
{
    reveal_with_fuel(pow1000, 6);
    lemma_name_from_well_formed(n, 0);
}

/// The counting song from `n` green bottles down to one.
pub fn sing_bottles(n: usize) -> (r: String)
    requires
        n <= 999_999_999_999_999,
    ensures
        r@ == spec_song(n as int),
    decreases n,
{
    if n == 0 {
        String::new()
    } else if n == 1 {
        verse(1)
    } else {
        verse(n).concat("\n\n").concat(sing_bottles(n - 1).as_str())
    }
}

} // verus!

