//! Text building blocks for status messages: decimal rendering of latency and
//! status-code numbers, and the substring test that drives the colour
//! classification of a status line.
use vstd::prelude::*;

verus! {

/// The character for a single decimal digit `d < 10`.
pub open spec fn digit_char(d: nat) -> char {
    if d == 0 {
        '0'
    } else if d == 1 {
        '1'
    } else if d == 2 {
        '2'
    } else if d == 3 {
        '3'
    } else if d == 4 {
        '4'
    } else if d == 5 {
        '5'
    } else if d == 6 {
        '6'
    } else if d == 7 {
        '7'
    } else if d == 8 {
        '8'
    } else {
        '9'
    }
}

/// The usual decimal rendering of `n`, most significant digit first, with no
/// leading zeros (except for `n == 0`, rendered as `"0"`).
pub open spec fn decimal_digits(n: nat) -> Seq<char>
    decreases n,
{
    if n < 10 {
        seq![digit_char(n)]
    } else {
        decimal_digits(n / 10).push(digit_char(n % 10))
    }
}

/// `pat` occurs contiguously somewhere inside `s` (every string contains the
/// empty string).
pub open spec fn contains_seq(s: Seq<char>, pat: Seq<char>) -> bool {
    exists|i: int| 0 <= i <= s.len() - pat.len() && #[trigger] s.subrange(i, i + pat.len()) == pat
}

/// The character `c` does not occur in `s` at or after position `k`.
pub open spec fn no_char_from(s: Seq<char>, c: char, k: int) -> bool
    decreases s.len() - k,
{
    if k < 0 || k >= s.len() {
        true
    } else {
        s[k] != c && no_char_from(s, c, k + 1)
    }
}

/// Unrolls `no_char_from` into a statement about every position.
pub proof fn lemma_no_char_from(s: Seq<char>, c: char, k: int)
    requires
        0 <= k,
        no_char_from(s, c, k),
    ensures
        forall|j: int| k <= j < s.len() ==> s[j] != c,
    decreases s.len() - k,
{
    if k < s.len() {
        lemma_no_char_from(s, c, k + 1);
    }
}

/// A pattern whose first character never occurs in `s` is not a substring of
/// `s`.
pub proof fn lemma_absent_head_blocks_match(s: Seq<char>, pat: Seq<char>)
    requires
        pat.len() > 0,
        forall|j: int| 0 <= j < s.len() ==> s[j] != pat[0],
    ensures
        !contains_seq(s, pat),
{
    assert forall|i: int| 0 <= i <= s.len() - pat.len() implies #[trigger] s.subrange(
        i,
        i + pat.len(),
    ) != pat by {
        assert(s.subrange(i, i + pat.len())[0] == s[i]);
    }
}

/// One of the ten digit characters.
pub open spec fn is_digit_char(c: char) -> bool {
    ||| c == '0'
    ||| c == '1'
    ||| c == '2'
    ||| c == '3'
    ||| c == '4'
    ||| c == '5'
    ||| c == '6'
    ||| c == '7'
    ||| c == '8'
    ||| c == '9'
}

/// Every character of a decimal rendering is a digit character.
pub proof fn lemma_decimal_digits_are_digits(n: nat)
    ensures
        forall|j: int|
            0 <= j < decimal_digits(n).len() ==> is_digit_char(#[trigger] decimal_digits(n)[j]),
    decreases n,
{
    if n < 10 {
        assert(is_digit_char(decimal_digits(n)[0]));
    } else {
        lemma_decimal_digits_are_digits(n / 10);
        let prev = decimal_digits(n / 10);
        assert forall|j: int|
            0 <= j < decimal_digits(n).len() implies is_digit_char(
            #[trigger] decimal_digits(n)[j],
        ) by {
            if j < prev.len() {
                assert(decimal_digits(n)[j] == prev[j]);
            } else {
                assert(decimal_digits(n)[j] == digit_char(n % 10));
            }
        }
    }
}

/// Render one decimal digit as a string slice.
fn digit_str(d: u64) -> (s: &'static str)
    requires
        d < 10,
    ensures
        s@ == seq![digit_char(d as nat)],
{
    proof {
        reveal_strlit("0");
        reveal_strlit("1");
        reveal_strlit("2");
        reveal_strlit("3");
        reveal_strlit("4");
        reveal_strlit("5");
        reveal_strlit("6");
        reveal_strlit("7");
        reveal_strlit("8");
        reveal_strlit("9");
    }
    let s: &'static str = if d == 0 {
        "0"
    } else if d == 1 {
        "1"
    } else if d == 2 {
        "2"
    } else if d == 3 {
        "3"
    } else if d == 4 {
        "4"
    } else if d == 5 {
        "5"
    } else if d == 6 {
        "6"
    } else if d == 7 {
        "7"
    } else if d == 8 {
        "8"
    } else {
        "9"
    };
    proof {
        assert(s@ =~= seq![digit_char(d as nat)]);
    }
    s
}

/// Render `n` in decimal, as `decimal_digits` describes.
pub fn u64_to_string(n: u64) -> (s: String)
    ensures
        s@ == decimal_digits(n as nat),
    decreases n,
{
    let d = digit_str(n % 10);
    if n < 10 {
        String::from_str(d)
    } else {
        let mut s = u64_to_string(n / 10);
        s.append(d);
        proof {
            assert(s@ =~= decimal_digits(n as nat));
        }
        s
    }
}

/// Whether `pat` occurs as a contiguous substring of `s`; a character-level
/// search with no assumption about either string.
pub fn contains_substring(s: &str, pat: &str) -> (r: bool)
    ensures
        r == contains_seq(s@, pat@),
{
    let n = s.unicode_len();
    let m = pat.unicode_len();
    if m > n {
        return false;
    }
    if m == 0 {
        proof {
            assert(s@.subrange(0, 0 + pat@.len() as int) =~= pat@);
        }
        return true;
    }
    let mut i: usize = 0;
    while i <= n - m
        invariant
            1 <= m <= n,
            n == s@.len(),
            m == pat@.len(),
            i <= n - m + 1,
            forall|k: int| 0 <= k < i ==> #[trigger] s@.subrange(k, k + m) != pat@,
        decreases n - m - i + 1,
    {
        let mut j: usize = 0;
        let mut matches = true;
        while j < m
            invariant
                m <= n,
                n == s@.len(),
                m == pat@.len(),
                i <= n - m,
                j <= m,
                matches ==> forall|k: int| 0 <= k < j ==> s@[i + k] == pat@[k],
                !matches ==> s@.subrange(i as int, i + m) != pat@,
            decreases m - j,
        {
            if matches {
                let sc = s.get_char(i + j);
                let pc = pat.get_char(j);
                if sc != pc {
                    proof {
                        assert(s@.subrange(i as int, i + m)[j as int] == s@[i + j]);
                    }
                    matches = false;
                }
            }
            j = j + 1;
        }
        if matches {
            proof {
                assert(s@.subrange(i as int, i + m) =~= pat@);
            }
            return true;
        }
        i = i + 1;
    }
    false
}

} // verus!
