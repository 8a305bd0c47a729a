//! One position fix, as the encoder consumes it.

use vstd::prelude::*;

verus! {

/// The characters of an optional text.
pub open spec fn optional_text(text: Option<String>) -> Option<Seq<char>> {
    match text {
        Some(t) => Some(t@),
        None => None,
    }
}

/// A sample with its texts as character sequences.
pub struct SampleView {
    pub latitude: Seq<char>,
    pub longitude: Seq<char>,
    pub heading: Option<Seq<char>>,
    pub speed: Option<Seq<char>>,
    pub timestamp: int,
}

/// A position and, where known, the velocity that goes with it.
///
/// Every number is held as the decimal text that goes on the wire: the
/// crate moves these numbers into documents and never computes with them.
/// Latitude, longitude and heading are in degrees; the timestamp is the
/// capture instant in whole seconds since 1970-01-01T00:00:00Z.
#[derive(Clone, Debug, PartialEq, Eq)]
pub struct PositionSample {
    pub latitude: String,
    pub longitude: String,
    pub heading: Option<String>,
    pub speed: Option<String>,
    pub timestamp: i64,
}

impl View for PositionSample {
    type V = SampleView;

    open spec fn view(&self) -> SampleView {
        SampleView {
            latitude: self.latitude@,
            longitude: self.longitude@,
            heading: optional_text(self.heading),
            speed: optional_text(self.speed),
            timestamp: self.timestamp as int,
        }
    }
}

} // verus!
