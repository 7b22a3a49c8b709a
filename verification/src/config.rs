//! The settings of a JWT service: the signing algorithm, the token lifetime
//! and the secret, each derived from the raw text of a setting (an
//! environment variable in a deployment), with the package's defaults.

use vstd::prelude::*;
use vstd::string::*;
use crate::text::text_eq;
use crate::json::{hex_digit, int_text, nat_text};

verus! {

/// The HMAC algorithms a service signs and checks tokens with.
#[derive(Clone, Copy, Debug, PartialEq, Eq, Structural)]
pub enum JwtAlgorithm {
    HS256,
    HS384,
    HS512,
}

impl JwtAlgorithm {
    /// The algorithm's name as it stands in a token header.
    pub open spec fn spec_name(self) -> Seq<char> {
        match self {
            JwtAlgorithm::HS256 => "HS256"@,
            JwtAlgorithm::HS384 => "HS384"@,
            JwtAlgorithm::HS512 => "HS512"@,
        }
    }

    /// The algorithm's name as it stands in a token header.
    pub fn name(&self) -> (r: &'static str)
        ensures
            r@ == self.spec_name(),
    {
        match self {
            JwtAlgorithm::HS256 => "HS256",
            JwtAlgorithm::HS384 => "HS384",
            JwtAlgorithm::HS512 => "HS512",
        }
    }
}

/// The algorithm that a setting selects: `HS384` and `HS512` by their exact
/// names, `HS256` for any other text and for an absent setting.
pub open spec fn spec_algorithm_from_setting(setting: Option<Seq<char>>) -> JwtAlgorithm {
    match setting {
        Some(s) => if s == "HS384"@ {
            JwtAlgorithm::HS384
        } else if s == "HS512"@ {
            JwtAlgorithm::HS512
        } else {
            JwtAlgorithm::HS256
        },
        None => JwtAlgorithm::HS256,
    }
}

/// The view of an optional string slice.
pub open spec fn opt_view(setting: Option<&str>) -> Option<Seq<char>> {
    match setting {
        Some(s) => Some(s@),
        None => None,
    }
}

/// Selects the signing algorithm from the raw algorithm setting.
pub fn algorithm_from_setting(setting: Option<&str>) -> (alg: JwtAlgorithm)
    ensures
        alg == spec_algorithm_from_setting(opt_view(setting)),
{
    match setting {
        Some(s) => {
            if text_eq(s, "HS384") {
                JwtAlgorithm::HS384
            } else if text_eq(s, "HS512") {
                JwtAlgorithm::HS512
            } else {
                JwtAlgorithm::HS256
            }
        },
        None => JwtAlgorithm::HS256,
    }
}

/// Configuring the algorithm by the name it carries in token headers
/// selects that algorithm.
pub proof fn lemma_algorithm_selected_by_its_name(alg: JwtAlgorithm)
    ensures
        spec_algorithm_from_setting(Some(alg.spec_name())) == alg,
{
    reveal_strlit("HS256");
    reveal_strlit("HS384");
    reveal_strlit("HS512");
    assert("HS256"@[4] != "HS384"@[4]);
    assert("HS256"@[3] != "HS512"@[3]);
}

/// The decimal digits of a natural number are digits, and denote it.
pub proof fn lemma_nat_text_denotes(n: nat)
    ensures
        nat_text(n).len() > 0,
        all_digits(nat_text(n)),
        digits_value(nat_text(n)) == n,
    decreases n,
{
    if n < 10 {
        assert(nat_text(n) =~= seq![hex_digit(n as int)]);
        assert(seq![hex_digit(n as int)].drop_last() =~= Seq::<char>::empty());
        assert(digit_value(hex_digit(n as int)) == n);
        assert(digits_value(Seq::<char>::empty()) == 0);
        assert(digits_value(nat_text(n)) == digits_value(nat_text(n).drop_last()) * 10 + digit_value(
            nat_text(n).last(),
        ));
    } else {
        lemma_nat_text_denotes(n / 10);
        let t = nat_text(n);
        assert(t.drop_last() =~= nat_text(n / 10));
        assert(digit_value(hex_digit((n % 10) as int)) == n % 10);
        assert(t.last() == hex_digit((n % 10) as int));
        assert(digits_value(t) == digits_value(t.drop_last()) * 10 + digit_value(t.last()));
        assert forall|i: int| 0 <= i < t.len() implies is_digit(#[trigger] t[i]) by {
            if i < t.len() - 1 {
                assert(t[i] == nat_text(n / 10)[i]);
            }
        }
    }
}

/// Parsing the decimal text of an `i64` gives it back; so a lifetime
/// setting holding the decimal text of `n` selects a lifetime of `n`
/// minutes.
pub proof fn lemma_ttl_setting_round_trip(n: i64)
    ensures
        spec_parse_i64(int_text(n as int)) == Some(n),
        spec_ttl_from_setting(Some(int_text(n as int))) == n,
{
    if n < 0 {
        let m: nat = (-n) as nat;
        lemma_nat_text_denotes(m);
        let s = int_text(n as int);
        assert(s.skip(1) =~= nat_text(m));
        assert(s[0] == '-');
    } else {
        let m: nat = n as nat;
        lemma_nat_text_denotes(m);
        let s = int_text(n as int);
        assert(is_digit(s[0]));
    }
}

// ---------------------------------------------------------------------------
// Decimal integers
// ---------------------------------------------------------------------------

/// Whether `c` is an ASCII decimal digit.
pub open spec fn is_digit(c: char) -> bool {
    '0' <= c && c <= '9'
}

/// The value of a decimal digit.
pub open spec fn digit_value(c: char) -> int {
    c as int - '0' as int
}

/// Whether every character of `s` is a decimal digit.
pub open spec fn all_digits(s: Seq<char>) -> bool {
    forall|i: int| 0 <= i < s.len() ==> is_digit(#[trigger] s[i])
}

/// The value of a string of decimal digits, most significant first.
pub open spec fn digits_value(s: Seq<char>) -> int
    decreases s.len(),
{
    if s.len() == 0 {
        0
    } else {
        digits_value(s.drop_last()) * 10 + digit_value(s.last())
    }
}

/// The integer that decimal text denotes: an optional `+` or `-` sign
/// followed by at least one decimal digit, and nothing else.
pub open spec fn decimal_value(s: Seq<char>) -> Option<int> {
    if s.len() > 0 && (s[0] == '+' || s[0] == '-') {
        let d = s.skip(1);
        if d.len() > 0 && all_digits(d) {
            if s[0] == '-' {
                Some(-digits_value(d))
            } else {
                Some(digits_value(d))
            }
        } else {
            None
        }
    } else if s.len() > 0 && all_digits(s) {
        Some(digits_value(s))
    } else {
        None
    }
}

/// What parsing text as an `i64` gives: the value of the decimal text when
/// there is one and it lies in the range of `i64`.
pub open spec fn spec_parse_i64(s: Seq<char>) -> Option<i64> {
    match decimal_value(s) {
        Some(v) => if i64::MIN <= v <= i64::MAX {
            Some(v as i64)
        } else {
            None
        },
        None => None,
    }
}

/// A longer run of digits never has a smaller value than its prefix.
pub proof fn lemma_digits_value_prefix_monotone(s: Seq<char>, i: int, j: int)
    requires
        0 <= i <= j <= s.len(),
        all_digits(s),
    ensures
        0 <= digits_value(s.take(i)) <= digits_value(s.take(j)),
    decreases j - i,
{
    if i == j {
        lemma_digits_value_nonneg(s.take(i));
    } else {
        lemma_digits_value_prefix_monotone(s, i, j - 1);
        assert(s.take(j).drop_last() =~= s.take(j - 1));
        assert(is_digit(s[j - 1]));
    }
}

/// The value of a run of digits is never negative.
pub proof fn lemma_digits_value_nonneg(s: Seq<char>)
    requires
        all_digits(s),
    ensures
        digits_value(s) >= 0,
    decreases s.len(),
{
    if s.len() > 0 {
        assert(is_digit(s[s.len() - 1]));
        assert forall|i: int| 0 <= i < s.drop_last().len() implies is_digit(
            #[trigger] s.drop_last()[i],
        ) by {
            assert(is_digit(s[i]));
        }
        lemma_digits_value_nonneg(s.drop_last());
    }
}

/// Parses the digits `s[start..]`, giving their value when it is at most
/// `2^63`, and `None` when it is larger or a character is not a digit.
fn parse_magnitude(s: &str, start: usize) -> (r: Option<u64>)
    requires
        start <= s@.len(),
    ensures
        match r {
            Some(m) => all_digits(s@.skip(start as int)) && m == digits_value(s@.skip(start as int))
                && m <= 0x8000_0000_0000_0000,
            None => !all_digits(s@.skip(start as int)) || digits_value(s@.skip(start as int))
                > 0x8000_0000_0000_0000,
        },
{
    let n: usize = s.unicode_len();
    let ghost d = s@.skip(start as int);
    let mut acc: u64 = 0;
    let mut i: usize = start;
    while i < n
        invariant
            n == s@.len(),
            start <= i <= n,
            d == s@.skip(start as int),
            all_digits(d.take(i - start)),
            acc == digits_value(d.take(i - start)),
            acc <= 0x8000_0000_0000_0000,
        decreases n - i,
    {
        let c = s.get_char(i);
        assert(d[i - start] == c);
        if !('0' <= c && c <= '9') {
            return None;
        }
        let v: u64 = (c as u32 - '0' as u32) as u64;
        assert(d.take(i - start + 1).drop_last() =~= d.take(i - start));
        if acc > 0x0CCC_CCCC_CCCC_CCCC || acc * 10 + v > 0x8000_0000_0000_0000 {
            proof {
                assert(all_digits(d.take(i - start + 1)));
                if all_digits(d) {
                    lemma_digits_value_prefix_monotone(d, i - start + 1, d.len() as int);
                    assert(d.take(d.len() as int) =~= d);
                }
            }
            return None;
        }
        acc = acc * 10 + v;
        i += 1;
    }
    assert(d.take(i - start) =~= d);
    Some(acc)
}

/// Parses text as an `i64`: an optional `+` or `-` sign and then decimal
/// digits, with no other characters, in the range of `i64`.
pub fn parse_i64(s: &str) -> (r: Option<i64>)
    ensures
        r == spec_parse_i64(s@),
{
    let n: usize = s.unicode_len();
    if n == 0 {
        return None;
    }
    let first = s.get_char(0);
    if first == '+' || first == '-' {
        if n == 1 {
            return None;
        }
        match parse_magnitude(s, 1) {
            Some(m) => {
                if first == '-' {
                    if m == 0x8000_0000_0000_0000 {
                        Some(i64::MIN)
                    } else {
                        Some(-(m as i64))
                    }
                } else if m > 0x7FFF_FFFF_FFFF_FFFF {
                    None
                } else {
                    Some(m as i64)
                }
            },
            None => {
                proof {
                    if all_digits(s@.skip(1)) {
                        lemma_digits_value_nonneg(s@.skip(1));
                    }
                }
                None
            },
        }
    } else {
        assert(s@.skip(0) =~= s@);
        match parse_magnitude(s, 0) {
            Some(m) => {
                if m > 0x7FFF_FFFF_FFFF_FFFF {
                    None
                } else {
                    Some(m as i64)
                }
            },
            None => None,
        }
    }
}

/// The token lifetime, in minutes, used when the setting is absent or not an
/// integer.
pub const DEFAULT_TTL_MINUTES: i64 = 60;

/// The lifetime that a setting selects: the integer it holds, or
/// `DEFAULT_TTL_MINUTES` when it is absent or does not parse.
pub open spec fn spec_ttl_from_setting(setting: Option<Seq<char>>) -> i64 {
    match setting {
        Some(s) => match spec_parse_i64(s) {
            Some(v) => v,
            None => DEFAULT_TTL_MINUTES,
        },
        None => DEFAULT_TTL_MINUTES,
    }
}

/// Selects the token lifetime in minutes from the raw lifetime setting.
pub fn ttl_from_setting(setting: Option<&str>) -> (ttl: i64)
    ensures
        ttl == spec_ttl_from_setting(opt_view(setting)),
{
    match setting {
        Some(s) => match parse_i64(s) {
            Some(v) => v,
            None => DEFAULT_TTL_MINUTES,
        },
        None => DEFAULT_TTL_MINUTES,
    }
}

/// The secret a service signs with when no secret is configured.
pub open spec fn default_secret() -> Seq<char> {
    "secret_rustbasic_key_1234567890"@
}

/// The secret that a setting selects: the setting's text, or the default
/// secret when it is absent.
pub open spec fn spec_secret_from_setting(setting: Option<Seq<char>>) -> Seq<char> {
    match setting {
        Some(s) => s,
        None => default_secret(),
    }
}

/// A configured secret is used as it stands: the secret a setting with text
/// `s` selects is `s` itself, whatever its length or content; only an absent
/// setting gives the default secret.
pub proof fn lemma_configured_secret_is_used_unchanged(s: Seq<char>)
    ensures
        spec_secret_from_setting(Some(s)) == s,
        spec_secret_from_setting(None) == default_secret(),
{
}

/// The view of an optional owned string.
pub open spec fn opt_string_view(setting: Option<String>) -> Option<Seq<char>> {
    match setting {
        Some(s) => Some(s@),
        None => None,
    }
}

/// Selects the signing secret from the raw secret setting.
pub fn secret_from_setting(setting: Option<String>) -> (secret: String)
    ensures
        secret@ == spec_secret_from_setting(opt_string_view(setting)),
        setting matches Some(text) ==> secret@ == text@,
{
    match setting {
        Some(s) => s,
        None => String::from_str("secret_rustbasic_key_1234567890"),
    }
}

} // verus!
