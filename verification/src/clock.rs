//! The current time and fresh identifiers, from `chrono` and `uuid`.

use vstd::prelude::*;

verus! {

/// `c` is a lowercase hexadecimal digit.
pub open spec fn is_lower_hex(c: char) -> bool {
    ('0' <= c && c <= '9') || ('a' <= c && c <= 'f')
}

/// `s` is the hyphenated text of a random (version 4, RFC 4122 variant)
/// UUID: 36 characters, hyphens at 8, 13, 18 and 23, lowercase hex digits
/// elsewhere, version digit `4` and variant digit `8`, `9`, `a` or `b`.
pub open spec fn is_v4_uuid_text(s: Seq<char>) -> bool {
    &&& s.len() == 36
    &&& forall|i: int|
        0 <= i < 36 ==> if i == 8 || i == 13 || i == 18 || i == 23 {
            s[i] == '-'
        } else {
            is_lower_hex(#[trigger] s[i])
        }
    &&& s[14] == '4'
    &&& (s[19] == '8' || s[19] == '9' || s[19] == 'a' || s[19] == 'b')
}

/// `uuid::Uuid::new_v4().to_string()`: a random UUID in its hyphenated
/// lowercase form. Which UUID comes out is chance; its form is what
/// `Uuid`'s `Display` (the hyphenated lowercase formatter) writes for the
/// version and variant bits that `new_v4` sets.
#[verifier::external_body]
pub(crate) fn new_uuid_text() -> (r: String)
    ensures
        is_v4_uuid_text(r@),
{
    uuid::Uuid::new_v4().to_string()
}

/// `chrono::Utc::now().timestamp_millis()`: milliseconds since the Unix
/// epoch. The value is the time of the call. On native targets `Utc::now`
/// takes the system time as a duration since the epoch (it panics for a
/// clock before 1970), so the value is never negative.
#[verifier::external_body]
pub(crate) fn now_millis() -> (r: i64)
    ensures
        r >= 0,
{
    chrono::Utc::now().timestamp_millis()
}

/// A reading of the clock, in milliseconds since the Unix epoch. Only
/// `read_clock` makes one, so a value stated to be some reading's value was
/// read from the clock.
pub struct ClockReading {
    millis: i64,
}

impl ClockReading {
    /// The time read, in milliseconds since the epoch.
    pub closed spec fn spec_millis(&self) -> i64 {
        self.millis
    }

    /// The time read, in milliseconds since the epoch.
    pub fn millis(&self) -> (r: i64)
        ensures
            r == self.spec_millis(),
    {
        self.millis
    }
}

/// Read the clock: the time of the call, never before the epoch.
pub fn read_clock() -> (t: ClockReading)
    ensures
        t.spec_millis() >= 0,
{
    ClockReading { millis: now_millis() }
}

/// A random identifier drawn from the UUID generator. Only `fresh_id` and
/// `fresh_id_after` make one, so a text stated to be some draw's text was
/// drawn. A draw also carries its place in the series it was drawn in: the
/// first of a series is draw 0, and each later draw comes one after the
/// draw before it, so two draws of one series with different places are
/// two separate draws.
pub struct FreshId {
    text: String,
    place: Ghost<nat>,
}

impl FreshId {
    /// The identifier's text.
    pub closed spec fn spec_text(&self) -> Seq<char> {
        self.text@
    }

    /// The identifier's place in the series it was drawn in.
    pub closed spec fn spec_place(&self) -> nat {
        self.place@
    }

    /// The identifier's text, as an owned string.
    pub fn into_text(self) -> (r: String)
        ensures
            r@ == self.spec_text(),
    {
        self.text
    }
}

/// Draw a fresh random identifier, the first of a series.
pub fn fresh_id() -> (r: FreshId)
    ensures
        is_v4_uuid_text(r.spec_text()),
        r.spec_place() == 0,
{
    FreshId { text: new_uuid_text(), place: Ghost(0) }
}

/// Draw a fresh random identifier, the one after `prev` in its series.
pub fn fresh_id_after(prev: &FreshId) -> (r: FreshId)
    ensures
        is_v4_uuid_text(r.spec_text()),
        r.spec_place() == prev.spec_place() + 1,
{
    FreshId { text: new_uuid_text(), place: Ghost((prev.place@ + 1) as nat) }
}

/// `a` and `b` are two separate draws of one series.
pub open spec fn separate_draws(a: FreshId, b: FreshId) -> bool {
    a.spec_place() != b.spec_place()
}

} // verus!
