//! Format validation for member profile fields.
//!
//! Emails, mobile numbers and dates of birth are byte strings; each has a
//! spec-level predicate saying exactly which strings are well formed, and an
//! executable validator proved to accept exactly those strings.

use vstd::prelude::*;

use crate::types::Error;

verus! {

/// ASCII code of `0`.
pub const DIGIT_0: u8 = 48;

/// ASCII code of `9`.
pub const DIGIT_9: u8 = 57;

/// ASCII code of `A`.
pub const UPPER_A: u8 = 65;

/// ASCII code of `Z`.
pub const UPPER_Z: u8 = 90;

/// ASCII code of `a`.
pub const LOWER_A: u8 = 97;

/// ASCII code of `z`.
pub const LOWER_Z: u8 = 122;

/// ASCII code of `.`.
pub const DOT: u8 = 46;

/// ASCII code of `-`.
pub const HYPHEN: u8 = 45;

/// ASCII code of `_`.
pub const UNDERSCORE: u8 = 95;

/// ASCII code of `+`.
pub const PLUS: u8 = 43;

/// ASCII code of `@`.
pub const AT: u8 = 64;

/// An ASCII decimal digit.
pub open spec fn is_digit(c: u8) -> bool {
    DIGIT_0 <= c <= DIGIT_9
}

/// An ASCII letter or digit.
pub open spec fn is_alphanumeric(c: u8) -> bool {
    (DIGIT_0 <= c <= DIGIT_9) || (UPPER_A <= c <= UPPER_Z) || (LOWER_A <= c <= LOWER_Z)
}

/// Characters allowed in the local part of an email address.
pub open spec fn is_local_char(c: u8) -> bool {
    is_alphanumeric(c) || c == DOT || c == UNDERSCORE || c == HYPHEN || c == PLUS
}

/// Characters allowed in the domain part of an email address.
pub open spec fn is_domain_char(c: u8) -> bool {
    is_alphanumeric(c) || c == DOT || c == HYPHEN
}

/// A well-formed local part: 1 to 64 characters from the local charset,
/// with no leading, trailing or doubled dot.
pub open spec fn valid_local(l: Seq<u8>) -> bool {
    &&& 1 <= l.len() <= 64
    &&& l[0] != DOT
    &&& l[l.len() - 1] != DOT
    &&& forall|i: int| 0 <= i < l.len() - 1 ==> !(#[trigger] l[i] == DOT && l[i + 1] == DOT)
    &&& forall|i: int| 0 <= i < l.len() ==> is_local_char(#[trigger] l[i])
}

/// A well-formed domain part: 1 to 253 characters from the domain charset,
/// containing at least one dot, with no leading or trailing dot or hyphen.
pub open spec fn valid_domain(d: Seq<u8>) -> bool {
    &&& 1 <= d.len() <= 253
    &&& exists|i: int| 0 <= i < d.len() && #[trigger] d[i] == DOT
    &&& d[0] != DOT
    &&& d[d.len() - 1] != DOT
    &&& d[0] != HYPHEN
    &&& d[d.len() - 1] != HYPHEN
    &&& forall|i: int| 0 <= i < d.len() ==> is_domain_char(#[trigger] d[i])
}

/// Position `k` carries the string's only `@`.
pub open spec fn email_split_at(s: Seq<u8>, k: int) -> bool {
    &&& 0 <= k < s.len()
    &&& s[k] == AT
    &&& forall|j: int| 0 <= j < s.len() && j != k ==> #[trigger] s[j] != AT
}

/// The string splits at its only `@` into a well-formed local part and a
/// well-formed domain part.
pub open spec fn valid_email_at(s: Seq<u8>, k: int) -> bool {
    &&& email_split_at(s, k)
    &&& valid_local(s.subrange(0, k))
    &&& valid_domain(s.subrange(k + 1, s.len() as int))
}

/// A well-formed email: exactly one `@`, splitting the string into a
/// well-formed local part and a well-formed domain part.
pub open spec fn valid_email(s: Seq<u8>) -> bool {
    exists|k: int| #[trigger] valid_email_at(s, k)
}

/// A string without an `@` is not a well-formed email.
proof fn lemma_no_at_no_email(s: Seq<u8>)
    requires
        forall|j: int| 0 <= j < s.len() ==> #[trigger] s[j] != AT,
    ensures
        !valid_email(s),
{
    assert forall|k: int| !valid_email_at(s, k) by {
        if 0 <= k < s.len() {
            assert(s[k] != AT);
        }
    }
}

/// A string with two `@`s is not a well-formed email.
proof fn lemma_two_ats_no_email(s: Seq<u8>, p1: int, p2: int)
    requires
        0 <= p1 < p2 < s.len(),
        s[p1] == AT,
        s[p2] == AT,
    ensures
        !valid_email(s),
{
    assert forall|k: int| !valid_email_at(s, k) by {
        if valid_email_at(s, k) {
            if k == p1 {
                assert(s[p2] != AT);
            } else {
                assert(s[p1] != AT);
            }
        }
    }
}

/// With a single `@` at `p`, well-formedness is well-formedness at `p`.
proof fn lemma_email_split_unique(s: Seq<u8>, p: int)
    requires
        0 <= p < s.len(),
        s[p] == AT,
        forall|j: int| 0 <= j < s.len() && j != p ==> #[trigger] s[j] != AT,
    ensures
        valid_email(s) == valid_email_at(s, p),
{
    if valid_email(s) {
        let k = choose|k: int| valid_email_at(s, k);
        assert(s[k] == AT);
        assert(k == p);
    }
    if valid_email_at(s, p) {
        assert(valid_email(s));
    }
}

/// Every character of the string is an ASCII digit.
pub open spec fn all_digits(s: Seq<u8>) -> bool {
    forall|i: int| 0 <= i < s.len() ==> is_digit(#[trigger] s[i])
}

/// The digit portion of a mobile number: the string with a leading `+`
/// stripped, if there is one.
pub open spec fn mobile_digits(s: Seq<u8>) -> Seq<u8> {
    if s.len() > 0 && s[0] == PLUS {
        s.subrange(1, s.len() as int)
    } else {
        s
    }
}

/// A well-formed mobile number: an optional leading `+`, then 7 to 15
/// ASCII digits and nothing else.
pub open spec fn valid_mobile(s: Seq<u8>) -> bool {
    &&& 7 <= mobile_digits(s).len() <= 15
    &&& all_digits(mobile_digits(s))
}

/// The year encoded by a date string's first four digits.
pub open spec fn date_year(s: Seq<u8>) -> int {
    (s[0] - DIGIT_0) * 1000 + (s[1] - DIGIT_0) * 100 + (s[2] - DIGIT_0) * 10 + (s[3] - DIGIT_0)
}

/// The month encoded by a date string's fifth and sixth digits.
pub open spec fn date_month(s: Seq<u8>) -> int {
    (s[5] - DIGIT_0) * 10 + (s[6] - DIGIT_0)
}

/// The day encoded by a date string's last two digits.
pub open spec fn date_day(s: Seq<u8>) -> int {
    (s[8] - DIGIT_0) * 10 + (s[9] - DIGIT_0)
}

/// A well-formed date of birth: exactly `YYYY-MM-DD`, with the year in
/// 1900 to 2100, the month in 1 to 12 and the day in 1 to 31.
pub open spec fn valid_date(s: Seq<u8>) -> bool {
    &&& s.len() == 10
    &&& s[4] == HYPHEN
    &&& s[7] == HYPHEN
    &&& forall|i: int|
        (0 <= i < 4 || 5 <= i < 7 || 8 <= i < 10) ==> is_digit(#[trigger] s[i])
    &&& 1900 <= date_year(s) <= 2100
    &&& 1 <= date_month(s) <= 12
    &&& 1 <= date_day(s) <= 31
}

/// Decides membership in the local-part charset.
fn check_local_char(c: u8) -> (b: bool)
    ensures
        b == is_local_char(c),
{
    (c >= DIGIT_0 && c <= DIGIT_9) || (c >= UPPER_A && c <= UPPER_Z) || (c >= LOWER_A && c
        <= LOWER_Z) || c == DOT || c == UNDERSCORE || c == HYPHEN || c == PLUS
}

/// Decides membership in the domain-part charset.
fn check_domain_char(c: u8) -> (b: bool)
    ensures
        b == is_domain_char(c),
{
    (c >= DIGIT_0 && c <= DIGIT_9) || (c >= UPPER_A && c <= UPPER_Z) || (c >= LOWER_A && c
        <= LOWER_Z) || c == DOT || c == HYPHEN
}

/// Checks that an email address is well formed.
#[verifier::loop_isolation(false)]
pub fn validate_email(email: &Vec<u8>) -> (r: Result<(), Error>)
    ensures
        r is Ok <==> valid_email(email@),
        r is Err ==> r == Err::<(), Error>(Error::InvalidEmailFormat),
{
    let n = email.len();
    let mut at_pos: usize = 0;
    let mut seen_at = false;
    let mut i: usize = 0;
    while i < n
        invariant
            i <= n,
            n == email@.len(),
            seen_at ==> at_pos < i && email@[at_pos as int] == AT,
            seen_at ==> forall|j: int| 0 <= j < i && j != at_pos ==> #[trigger] email@[j] != AT,
            !seen_at ==> forall|j: int| 0 <= j < i ==> #[trigger] email@[j] != AT,
        decreases n - i,
    {
        if email[i] == AT {
            if seen_at {
                proof {
                    lemma_two_ats_no_email(email@, at_pos as int, i as int);
                }
                return Err(Error::InvalidEmailFormat);
            }
            at_pos = i;
            seen_at = true;
        }
        i += 1;
    }
    if !seen_at {
        proof {
            lemma_no_at_no_email(email@);
        }
        return Err(Error::InvalidEmailFormat);
    }
    let p = at_pos;
    proof {
        lemma_email_split_unique(email@, p as int);
    }
    let ghost local = email@.subrange(0, p as int);
    let ghost domain = email@.subrange(p as int + 1, n as int);
    proof {
        assert(forall|t: int| 0 <= t < local.len() ==> #[trigger] local[t] == email@[t]);
        assert(forall|t: int| 0 <= t < domain.len() ==> #[trigger] domain[t] == email@[t + p + 1]);
    }
    // Local part: length, dots at the ends, doubled dots, charset.
    if p < 1 || p > 64 {
        return Err(Error::InvalidEmailFormat);
    }
    if email[0] == DOT || email[p - 1] == DOT {
        return Err(Error::InvalidEmailFormat);
    }
    let mut j: usize = 0;
    while j < p
        invariant
            j <= p < n,
            n == email@.len(),
            forall|t: int| 0 <= t < j ==> is_local_char(#[trigger] email@[t]),
            forall|t: int| 1 <= t < j ==> !(email@[t - 1] == DOT && #[trigger] email@[t] == DOT),
        decreases p - j,
    {
        let c = email[j];
        if !check_local_char(c) {
            proof {
                assert(local[j as int] == email@[j as int]);
            }
            return Err(Error::InvalidEmailFormat);
        }
        if j >= 1 && c == DOT && email[j - 1] == DOT {
            proof {
                assert(local[j as int - 1] == email@[j as int - 1]);
                assert(local[j as int] == email@[j as int]);
            }
            return Err(Error::InvalidEmailFormat);
        }
        j += 1;
    }
    proof {
        assert(valid_local(local));
    }
    // Domain part: length, ends, at least one dot, charset.
    let dlen = n - p - 1;
    if dlen < 1 || dlen > 253 {
        return Err(Error::InvalidEmailFormat);
    }
    if email[p + 1] == DOT || email[n - 1] == DOT || email[p + 1] == HYPHEN || email[n - 1]
        == HYPHEN {
        proof {
            assert(domain[0] == email@[p as int + 1]);
            assert(domain[domain.len() - 1] == email@[n as int - 1]);
        }
        return Err(Error::InvalidEmailFormat);
    }
    let mut has_dot = false;
    let mut k: usize = p + 1;
    while k < n
        invariant
            p + 1 <= k <= n,
            p < n,
            n == email@.len(),
            forall|t: int| p + 1 <= t < k ==> is_domain_char(#[trigger] email@[t]),
            has_dot ==> exists|t: int| p + 1 <= t < k && #[trigger] email@[t] == DOT,
            !has_dot ==> forall|t: int| p + 1 <= t < k ==> #[trigger] email@[t] != DOT,
        decreases n - k,
    {
        let c = email[k];
        if !check_domain_char(c) {
            proof {
                assert(domain[k - p - 1] == email@[k as int]);
            }
            return Err(Error::InvalidEmailFormat);
        }
        if c == DOT {
            has_dot = true;
        }
        k += 1;
    }
    if !has_dot {
        proof {
            assert(forall|t: int|
                0 <= t < domain.len() ==> #[trigger] domain[t] != DOT);
        }
        return Err(Error::InvalidEmailFormat);
    }
    proof {
        let t = choose|t: int| p + 1 <= t < n && #[trigger] email@[t] == DOT;
        assert(domain[t - p - 1] == DOT);
        assert(valid_domain(domain));
        assert(valid_email_at(email@, p as int));
    }
    Ok(())
}

/// Checks that a date of birth is well formed (`YYYY-MM-DD`).
#[verifier::loop_isolation(false)]
pub fn validate_date(date: &Vec<u8>) -> (r: Result<(), Error>)
    ensures
        r is Ok <==> valid_date(date@),
        r is Err ==> r == Err::<(), Error>(Error::InvalidDateFormat),
{
    if date.len() != 10 {
        return Err(Error::InvalidDateFormat);
    }
    if date[4] != HYPHEN || date[7] != HYPHEN {
        return Err(Error::InvalidDateFormat);
    }
    let mut i: usize = 0;
    while i < 10
        invariant
            i <= 10,
            date@.len() == 10,
            forall|t: int| 0 <= t < i && t != 4 && t != 7 ==> is_digit(#[trigger] date@[t]),
        decreases 10 - i,
    {
        if i != 4 && i != 7 {
            if date[i] < DIGIT_0 || date[i] > DIGIT_9 {
                return Err(Error::InvalidDateFormat);
            }
        }
        i += 1;
    }
    let year: u32 = (date[0] - DIGIT_0) as u32 * 1000 + (date[1] - DIGIT_0) as u32 * 100 + (
    date[2] - DIGIT_0) as u32 * 10 + (date[3] - DIGIT_0) as u32;
    let month: u32 = (date[5] - DIGIT_0) as u32 * 10 + (date[6] - DIGIT_0) as u32;
    let day: u32 = (date[8] - DIGIT_0) as u32 * 10 + (date[9] - DIGIT_0) as u32;
    if year < 1900 || year > 2100 {
        return Err(Error::InvalidDateFormat);
    }
    if month < 1 || month > 12 {
        return Err(Error::InvalidDateFormat);
    }
    if day < 1 || day > 31 {
        return Err(Error::InvalidDateFormat);
    }
    Ok(())
}

/// Checks that a mobile number is well formed.
#[verifier::loop_isolation(false)]
pub fn validate_mobile(mobile: &Vec<u8>) -> (r: Result<(), Error>)
    ensures
        r is Ok <==> valid_mobile(mobile@),
        r is Err ==> r == Err::<(), Error>(Error::InvalidMobileFormat),
{
    let n = mobile.len();
    let start: usize = if n > 0 && mobile[0] == PLUS {
        1
    } else {
        0
    };
    if n - start < 7 || n - start > 15 {
        return Err(Error::InvalidMobileFormat);
    }
    let mut i: usize = start;
    while i < n
        invariant
            start <= i <= n,
            n == mobile@.len(),
            start == 0 || start == 1,
            start == 1 <==> (n > 0 && mobile@[0] == PLUS),
            7 <= n - start <= 15,
            forall|j: int| start <= j < i ==> is_digit(#[trigger] mobile@[j]),
        decreases n - i,
    {
        if mobile[i] < DIGIT_0 || mobile[i] > DIGIT_9 {
            proof {
                let digits = mobile_digits(mobile@);
                assert(digits[i - start] == mobile@[i as int]);
            }
            return Err(Error::InvalidMobileFormat);
        }
        i += 1;
    }
    proof {
        let digits = mobile_digits(mobile@);
        assert(forall|j: int|
            0 <= j < digits.len() ==> #[trigger] digits[j] == mobile@[j + start]);
    }
    Ok(())
}

} // verus!
