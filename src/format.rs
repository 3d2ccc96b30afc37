//! The textual layout of an encoded credential: the published bcrypt form
//! `$2<v>$<cost>$<salt><digest>`, sixty ASCII characters in all.
use vstd::prelude::*;

verus! {

/// Smallest work factor that bcrypt accepts.
pub const MIN_WORK_FACTOR: u32 = 4;

/// Largest work factor that bcrypt accepts.
pub const MAX_WORK_FACTOR: u32 = 31;

/// Length of an encoded credential, in characters.
pub const CREDENTIAL_LEN: usize = 60;

pub open spec fn valid_work_factor(work_factor: int) -> bool {
    MIN_WORK_FACTOR <= work_factor <= MAX_WORK_FACTOR
}

/// The revision letter after the `2` of the algorithm tag: `2a`, `2b`, `2x`, `2y`.
pub open spec fn is_revision_char(c: char) -> bool {
    c == 'a' || c == 'b' || c == 'x' || c == 'y'
}

pub open spec fn is_digit_char(c: char) -> bool {
    '0' <= c && c <= '9'
}

pub open spec fn digit_value(c: char) -> int {
    c as int - '0' as int
}

/// A character of bcrypt's base-64 alphabet `./A-Za-z0-9`.
pub open spec fn is_encoding_char(c: char) -> bool {
    c == '.' || c == '/' || ('A' <= c && c <= 'Z') || ('a' <= c && c <= 'z') || ('0' <= c
        && c <= '9')
}

/// The work factor written in the two cost digits of a credential.
pub open spec fn cost_of(c: Seq<char>) -> int {
    10 * digit_value(c[4]) + digit_value(c[5])
}

/// `c` is a credential in the published bcrypt layout: `$`, the tag `2a`, `2b`,
/// `2x` or `2y`, `$`, a two-digit work factor within bcrypt's bounds, `$`, and
/// 53 characters of the base-64 alphabet (22 of salt, 31 of digest).
pub open spec fn well_formed(c: Seq<char>) -> bool {
    &&& c.len() == CREDENTIAL_LEN
    &&& c[0] == '$'
    &&& c[1] == '2'
    &&& is_revision_char(c[2])
    &&& c[3] == '$'
    &&& is_digit_char(c[4])
    &&& is_digit_char(c[5])
    &&& valid_work_factor(cost_of(c))
    &&& c[6] == '$'
    &&& forall|i: int| 7 <= i < CREDENTIAL_LEN ==> is_encoding_char(#[trigger] c[i])
}

fn is_encoding(c: char) -> (r: bool)
    ensures
        r == is_encoding_char(c),
{
    c == '.' || c == '/' || ('A' <= c && c <= 'Z') || ('a' <= c && c <= 'z') || ('0' <= c && c
        <= '9')
}

fn is_digit(c: char) -> (r: bool)
    ensures
        r == is_digit_char(c),
{
    '0' <= c && c <= '9'
}

/// Decides whether `credential` has the published bcrypt layout.
pub fn is_well_formed(credential: &str) -> (r: bool)
    ensures
        r == well_formed(credential@),
{
    if credential.unicode_len() != CREDENTIAL_LEN {
        return false;
    }
    let c0 = credential.get_char(0);
    let c1 = credential.get_char(1);
    let c2 = credential.get_char(2);
    let c3 = credential.get_char(3);
    let c4 = credential.get_char(4);
    let c5 = credential.get_char(5);
    let c6 = credential.get_char(6);
    if !(c0 == '$' && c1 == '2' && (c2 == 'a' || c2 == 'b' || c2 == 'x' || c2 == 'y') && c3
        == '$' && c6 == '$' && is_digit(c4) && is_digit(c5)) {
        return false;
    }
    let cost: u32 = 10 * ((c4 as u32) - ('0' as u32)) + ((c5 as u32) - ('0' as u32));
    if cost < MIN_WORK_FACTOR || cost > MAX_WORK_FACTOR {
        return false;
    }
    let mut i: usize = 7;
    while i < CREDENTIAL_LEN
        invariant
            7 <= i <= CREDENTIAL_LEN,
            credential@.len() == CREDENTIAL_LEN,
            forall|j: int| 7 <= j < i ==> is_encoding_char(#[trigger] credential@[j]),
        decreases CREDENTIAL_LEN - i,
    {
        if !is_encoding(credential.get_char(i)) {
            return false;
        }
        i = i + 1;
    }
    true
}

} // verus!
