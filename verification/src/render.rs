use vstd::prelude::*;
use vstd::string::StringExecFns;

verus! {

/// The decimal digit character for `d` (0 to 9).
pub open spec fn spec_digit_char(d: int) -> char {
    if d == 0 {
        '0'
    } else if d == 1 {
        '1'
    } else if d == 2 {
        '2'
    } else if d == 3 {
        '3'
    } else if d == 4 {
        '4'
    } else if d == 5 {
        '5'
    } else if d == 6 {
        '6'
    } else if d == 7 {
        '7'
    } else if d == 8 {
        '8'
    } else {
        '9'
    }
}

/// The decimal digit string of a non-negative number, most significant digit
/// first, with no leading zeros except for the number 0 itself.
pub open spec fn spec_decimal_digits(n: int) -> Seq<char>
    decreases n,
{
    if n <= 9 {
        seq![spec_digit_char(n)]
    } else {
        spec_decimal_digits(n / 10).push(spec_digit_char(n % 10))
    }
}

/// How many characters `spec_decimal_digits` produces.
pub open spec fn spec_decimal_len(n: int) -> int
    decreases n,
{
    if n <= 9 {
        1
    } else {
        spec_decimal_len(n / 10) + 1
    }
}

/// `k` zero characters (none when `k <= 0`).
pub open spec fn spec_zeros(k: int) -> Seq<char>
    decreases k,
{
    if k <= 0 {
        Seq::empty()
    } else {
        spec_zeros(k - 1).push('0')
    }
}

/// The digits of a non-negative number left-padded with zeros to `width`
/// characters; numbers with `width` or more digits are not padded.
pub open spec fn spec_padded_decimal(n: int, width: int) -> Seq<char> {
    spec_zeros(width - spec_decimal_len(n)) + spec_decimal_digits(n)
}

/// A signed number rendered with a minus sign and zero-padded to `width`
/// characters in all, the sign included, as in common zero-pad formatting.
pub open spec fn spec_signed_padded_decimal(n: int, width: int) -> Seq<char> {
    if n < 0 {
        seq!['-'] + spec_padded_decimal(-n, width - 1)
    } else {
        spec_padded_decimal(n, width)
    }
}

proof fn lemma_decimal_len(n: int)
    requires
        n >= 0,
    ensures
        spec_decimal_digits(n).len() == spec_decimal_len(n),
        spec_decimal_len(n) >= 1,
    decreases n,
{
    if n > 9 {
        lemma_decimal_len(n / 10);
    }
}

proof fn lemma_decimal_len_cases(n: int)
    requires
        n >= 0,
    ensures
        n <= 9 ==> spec_decimal_len(n) == 1,
        10 <= n <= 99 ==> spec_decimal_len(n) == 2,
        100 <= n <= 999 ==> spec_decimal_len(n) == 3,
        n >= 1000 ==> spec_decimal_len(n) >= 4,
    decreases n,
{
    if n >= 10 {
        lemma_decimal_len_cases(n / 10);
    }
}

/// A one-character string holding the decimal digit `d`.
fn digit_string(d: u64) -> (r: String)
    requires
        d <= 9,
    ensures
        r@ == seq![spec_digit_char(d as int)],
{
    proof {
        reveal_strlit("0");
        reveal_strlit("1");
        reveal_strlit("2");
        reveal_strlit("3");
        reveal_strlit("4");
        reveal_strlit("5");
        reveal_strlit("6");
        reveal_strlit("7");
        reveal_strlit("8");
        reveal_strlit("9");
    }
    let r = if d == 0 {
        String::from_str("0")
    } else if d == 1 {
        String::from_str("1")
    } else if d == 2 {
        String::from_str("2")
    } else if d == 3 {
        String::from_str("3")
    } else if d == 4 {
        String::from_str("4")
    } else if d == 5 {
        String::from_str("5")
    } else if d == 6 {
        String::from_str("6")
    } else if d == 7 {
        String::from_str("7")
    } else if d == 8 {
        String::from_str("8")
    } else {
        String::from_str("9")
    };
    proof {
        assert(r@ =~= seq![spec_digit_char(d as int)]);
    }
    r
}

/// Render a non-negative number in decimal.
pub fn u64_to_string(n: u64) -> (r: String)
    ensures
        r@ == spec_decimal_digits(n as int),
    decreases n,
{
    if n <= 9 {
        digit_string(n)
    } else {
        let mut s = u64_to_string(n / 10);
        let d = digit_string(n % 10);
        s.append(d.as_str());
        proof {
            assert(s@ =~= spec_decimal_digits(n as int));
        }
        s
    }
}

/// The decimal rendering of a signed number: a minus sign and the digits of
/// the magnitude when negative, the digits alone otherwise.
pub open spec fn spec_signed_decimal(n: int) -> Seq<char> {
    if n < 0 {
        seq!['-'] + spec_decimal_digits(-n)
    } else {
        spec_decimal_digits(n)
    }
}

/// Render a signed number in decimal, with a leading minus sign when
/// negative.
pub fn i64_to_string(n: i64) -> (r: String)
    ensures
        r@ == spec_signed_decimal(n as int),
{
    proof {
        reveal_strlit("-");
    }
    if n >= 0 {
        u64_to_string(n as u64)
    } else {
        let mag: u64 = if n == i64::MIN {
            9_223_372_036_854_775_808u64
        } else {
            (-n) as u64
        };
        let mut s = String::from_str("-");
        proof {
            assert(s@ =~= seq!['-']);
        }
        let d = u64_to_string(mag);
        s.append(d.as_str());
        s
    }
}

/// Render a non-negative number in decimal, left-padded with zeros to at
/// least `width` characters.
fn u64_to_padded_string(n: u64, width: usize) -> (r: String)
    requires
        width <= 4,
    ensures
        r@ == spec_padded_decimal(n as int, width as int),
{
    proof {
        reveal_strlit("0");
        lemma_decimal_len(n as int);
        lemma_decimal_len_cases(n as int);
    }
    let ndigits: usize = if n <= 9 {
        1
    } else if n <= 99 {
        2
    } else if n <= 999 {
        3
    } else {
        4
    };
    let pad_count: usize = if width > ndigits {
        width - ndigits
    } else {
        0
    };
    proof {
        assert(spec_zeros(pad_count as int) =~= spec_zeros(
            width as int - spec_decimal_len(n as int),
        ));
    }
    let mut r = String::new();
    let mut i: usize = 0;
    while i < pad_count
        invariant
            i <= pad_count,
            r@ =~= spec_zeros(i as int),
        decreases pad_count - i,
    {
        r.append("0");
        i = i + 1;
        proof {
            reveal_strlit("0");
            assert(r@ =~= spec_zeros(i as int));
        }
    }
    let d = u64_to_string(n);
    r.append(d.as_str());
    proof {
        assert(r@ =~= spec_padded_decimal(n as int, width as int));
    }
    r
}

/// Render a signed number zero-padded to `width` characters in all, the
/// minus sign counting toward the width.
fn i64_to_signed_padded_string(n: i64, width: usize) -> (r: String)
    requires
        1 <= width <= 4,
    ensures
        r@ == spec_signed_padded_decimal(n as int, width as int),
{
    proof {
        reveal_strlit("-");
    }
    if n >= 0 {
        u64_to_padded_string(n as u64, width)
    } else {
        let mag: u64 = if n == i64::MIN {
            9_223_372_036_854_775_808u64
        } else {
            (-n) as u64
        };
        let mut s = String::from_str("-");
        proof {
            assert(s@ =~= seq!['-']);
        }
        let d = u64_to_padded_string(mag, width - 1);
        s.append(d.as_str());
        s
    }
}

/// The civil date rendered as "YYYY-MM-DD": the year zero-padded to four
/// characters, month and day to two.
pub open spec fn spec_date_string(year: int, month: int, day: int) -> Seq<char> {
    spec_signed_padded_decimal(year, 4) + seq!['-'] + spec_padded_decimal(month, 2) + seq!['-']
        + spec_padded_decimal(day, 2)
}

/// Render civil date fields as a zero-padded calendar string "YYYY-MM-DD".
pub fn date_string(year: i32, month: u32, day: u32) -> (r: String)
    ensures
        r@ == spec_date_string(year as int, month as int, day as int),
{
    proof {
        reveal_strlit("-");
    }
    let mut s = i64_to_signed_padded_string(year as i64, 4);
    s.append("-");
    let m = u64_to_padded_string(month as u64, 2);
    s.append(m.as_str());
    s.append("-");
    let d = u64_to_padded_string(day as u64, 2);
    s.append(d.as_str());
    proof {
        assert(s@ =~= spec_date_string(year as int, month as int, day as int));
    }
    s
}

} // verus!
