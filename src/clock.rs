use vstd::prelude::*;

verus! {

/// A point in time, in microseconds since the Unix epoch (UTC).
#[derive(Debug, Clone, Copy, PartialEq, Eq, Structural)]
pub struct Timestamp {
    pub micros: i64,
}

/// The RFC 3339 text that chrono writes for an instant, if chrono can
/// represent it.
pub uninterp spec fn rfc3339_of(micros: i64) -> Option<Seq<char>>;

/// Relies on `chrono::DateTime::from_timestamp_micros`, which gives `None`
/// outside chrono's range, and `DateTime::to_rfc3339`: the text depends on
/// the instant alone.
#[verifier::external_body]
fn format_rfc3339(micros: i64) -> (r: Option<String>)
    ensures
        match r {
            Some(s) => rfc3339_of(micros) == Some(s@),
            None => rfc3339_of(micros) is None,
        },
{
    chrono::DateTime::from_timestamp_micros(micros).map(|d| d.to_rfc3339())
}

impl Timestamp {
    pub fn from_micros(micros: i64) -> (r: Timestamp)
        ensures
            r.micros == micros,
    {
        Timestamp { micros }
    }

    /// The instant as RFC 3339 text in UTC; none outside the range of
    /// dates that can be written.
    pub fn to_rfc3339(&self) -> (r: Option<String>)
        ensures
            match r {
                Some(s) => rfc3339_of(self.micros) == Some(s@),
                None => rfc3339_of(self.micros) is None,
            },
    {
        format_rfc3339(self.micros)
    }
}

} // verus!
