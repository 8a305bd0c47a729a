//! The live feed: what the bridge makes of the records of a positioning
//! daemon.
//!
//! Decoding a line is the caller's part. The feed is handed what came of
//! it, a record or the news that the line could not be decoded, and says
//! whether a position is to be sent, nothing is to be done, or the bridge
//! has to stop.

use crate::sample::PositionSample;
use vstd::prelude::*;

verus! {

/// A time-position-velocity report. Any part of it may be missing. The
/// numbers are decimal texts; `time` is in whole seconds since
/// 1970-01-01T00:00:00Z; `track` is the course over ground in degrees.
#[derive(Debug, PartialEq, Eq)]
pub struct VelocityReport {
    pub time: Option<i64>,
    pub latitude: Option<String>,
    pub longitude: Option<String>,
    pub track: Option<String>,
    pub speed: Option<String>,
}

/// The kinds of record that the daemon sends, each with what the bridge
/// reads of it.
#[derive(Debug, PartialEq, Eq)]
pub enum DaemonRecord {
    VersionInfo { protocol_major: u32 },
    DeviceList,
    WatchAck,
    DeviceInfo,
    TimePositionVelocity(VelocityReport),
    SkyView,
    PulsePerSecond,
    GpsTimingStats,
}

/// What came of decoding one line.
#[derive(Debug, PartialEq, Eq)]
pub enum Decoded {
    /// The line is no record.
    Malformed,
    Record(DaemonRecord),
}

/// The daemon speaks a protocol older than the bridge supports.
#[derive(Clone, Copy, Debug, PartialEq, Eq)]
pub struct ProtocolMismatch {
    pub found: u32,
    pub minimum: u32,
}

/// Why a line gave no sample although nothing is wrong with the feed.
#[derive(Clone, Copy, Debug, PartialEq, Eq)]
pub enum Diagnostic {
    UndecodableLine,
    PositionMissing,
}

/// What the feed makes of one line.
#[derive(Debug, PartialEq, Eq)]
pub enum FeedStep {
    /// A position to send.
    Sample(PositionSample),
    /// A record that carries no position.
    Nothing,
    /// A line that was dropped; the feed goes on.
    Dropped(Diagnostic),
    /// The feed has stopped for good.
    Fatal(ProtocolMismatch),
}

/// The state of the feed: whether a supported protocol version has been
/// seen, the oldest major version that is supported, and, once the daemon
/// has announced an older one, that mismatch.
#[derive(Clone, Copy, Debug, PartialEq, Eq)]
pub struct LiveFeed {
    pub negotiated: bool,
    pub minimum_protocol_major: u32,
    pub failure: Option<ProtocolMismatch>,
}

/// A line's outcome together with the instant at which the line arrived.
pub type Arrival = (Decoded, i64);

impl LiveFeed {
    /// The sample that a report with both coordinates gives: its track
    /// becomes the heading, and a report without a time is stamped with
    /// the instant of its arrival.
    pub open spec fn sample_of(
        report: VelocityReport,
        latitude: String,
        longitude: String,
        received_at: i64,
    ) -> PositionSample {
        PositionSample {
            latitude,
            longitude,
            heading: report.track,
            speed: report.speed,
            timestamp: match report.time {
                Some(time) => time,
                None => received_at,
            },
        }
    }

    /// What the feed in state `self` makes of `input`.
    pub open spec fn reaction(self, input: Decoded, received_at: i64) -> FeedStep {
        match self.failure {
            Some(mismatch) => FeedStep::Fatal(mismatch),
            None => match input {
                Decoded::Malformed => FeedStep::Dropped(Diagnostic::UndecodableLine),
                Decoded::Record(DaemonRecord::VersionInfo { protocol_major }) => {
                    if protocol_major < self.minimum_protocol_major {
                        FeedStep::Fatal(
                            ProtocolMismatch {
                                found: protocol_major,
                                minimum: self.minimum_protocol_major,
                            },
                        )
                    } else {
                        FeedStep::Nothing
                    }
                },
                Decoded::Record(DaemonRecord::TimePositionVelocity(report)) => {
                    match (report.latitude, report.longitude) {
                        (Some(latitude), Some(longitude)) => FeedStep::Sample(
                            Self::sample_of(report, latitude, longitude, received_at),
                        ),
                        _ => FeedStep::Dropped(Diagnostic::PositionMissing),
                    }
                },
                Decoded::Record(_) => FeedStep::Nothing,
            },
        }
    }

    /// The state in which `input` leaves the feed. Only a version record
    /// changes it, and nothing changes a feed that has stopped.
    pub open spec fn successor(self, input: Decoded) -> LiveFeed {
        match (self.failure, input) {
            (None, Decoded::Record(DaemonRecord::VersionInfo { protocol_major })) => {
                if protocol_major < self.minimum_protocol_major {
                    LiveFeed {
                        failure: Some(
                            ProtocolMismatch {
                                found: protocol_major,
                                minimum: self.minimum_protocol_major,
                            },
                        ),
                        ..self
                    }
                } else {
                    LiveFeed { negotiated: true, ..self }
                }
            },
            _ => self,
        }
    }

    /// A feed that has seen no record yet and supports the major versions
    /// from `minimum_protocol_major` on.
    pub fn new(minimum_protocol_major: u32) -> (feed: LiveFeed)
        ensures
            feed == (LiveFeed { negotiated: false, minimum_protocol_major, failure: None }),
    {
        LiveFeed { negotiated: false, minimum_protocol_major, failure: None }
    }

    /// Takes what came of decoding one line, which arrived at
    /// `received_at`, and says what is to be done about it.
    pub fn accept(&mut self, input: Decoded, received_at: i64) -> (step: FeedStep)
        ensures
            step == old(self).reaction(input, received_at),
            *final(self) == old(self).successor(input),
    {
        if let Some(mismatch) = self.failure {
            return FeedStep::Fatal(mismatch);
        }
        match input {
            Decoded::Malformed => FeedStep::Dropped(Diagnostic::UndecodableLine),
            Decoded::Record(DaemonRecord::VersionInfo { protocol_major }) => {
                if protocol_major < self.minimum_protocol_major {
                    let mismatch = ProtocolMismatch {
                        found: protocol_major,
                        minimum: self.minimum_protocol_major,
                    };
                    self.failure = Some(mismatch);
                    FeedStep::Fatal(mismatch)
                } else {
                    self.negotiated = true;
                    FeedStep::Nothing
                }
            },
            Decoded::Record(DaemonRecord::TimePositionVelocity(report)) => {
                let VelocityReport { time, latitude, longitude, track, speed } = report;
                match (latitude, longitude) {
                    (Some(latitude), Some(longitude)) => {
                        let timestamp = match time {
                            Some(time) => time,
                            None => received_at,
                        };
                        FeedStep::Sample(
                            PositionSample {
                                latitude,
                                longitude,
                                heading: track,
                                speed,
                                timestamp,
                            },
                        )
                    },
                    _ => FeedStep::Dropped(Diagnostic::PositionMissing),
                }
            },
            Decoded::Record(_) => FeedStep::Nothing,
        }
    }
}

/// The samples that a feed in state `feed` gives for the lines `arrivals`,
/// taken in order.
pub open spec fn samples_of(feed: LiveFeed, arrivals: Seq<Arrival>) -> Seq<PositionSample>
    decreases arrivals.len(),
{
    if arrivals.len() == 0 {
        Seq::empty()
    } else {
        let (input, received_at) = arrivals[0];
        let later = samples_of(feed.successor(input), arrivals.drop_first());
        match feed.reaction(input, received_at) {
            FeedStep::Sample(sample) => seq![sample] + later,
            _ => later,
        }
    }
}

/// The state in which the lines `arrivals`, taken in order, leave a feed
/// that was in state `feed`.
pub open spec fn state_after(feed: LiveFeed, arrivals: Seq<Arrival>) -> LiveFeed
    decreases arrivals.len(),
{
    if arrivals.len() == 0 {
        feed
    } else {
        state_after(feed.successor(arrivals[0].0), arrivals.drop_first())
    }
}

impl LiveFeed {
    /// Takes the lines `arrivals` in order and hands back the samples
    /// that they give. Whether the feed has stopped on the way is to be
    /// read from its `failure` afterwards.
    pub fn accept_all(&mut self, arrivals: Vec<Arrival>) -> (samples: Vec<PositionSample>)
        ensures
            samples@ == samples_of(*old(self), arrivals@),
            *final(self) == state_after(*old(self), arrivals@),
    {
        let ghost entered = *self;
        let mut samples: Vec<PositionSample> = Vec::new();
        assert(arrivals@.skip(0) == arrivals@);
        for arrival in iter: arrivals
            invariant
                iter.seq() == arrivals@,
                samples_of(entered, arrivals@) == samples@ + samples_of(
                    *self,
                    arrivals@.skip(iter.index() as int),
                ),
                state_after(entered, arrivals@) == state_after(
                    *self,
                    arrivals@.skip(iter.index() as int),
                ),
        {
            let ghost before = samples@;
            let ghost rest = arrivals@.skip(iter.index() as int);
            assert(rest.len() > 0 && rest[0] == arrival);
            assert(rest.drop_first() == arrivals@.skip(iter.index() + 1));
            let (input, received_at) = arrival;
            match self.accept(input, received_at) {
                FeedStep::Sample(sample) => {
                    samples.push(sample);
                    assert(before + (seq![sample] + samples_of(*self, rest.drop_first()))
                        == before.push(sample) + samples_of(*self, rest.drop_first()));
                },
                _ => {},
            }
        }
        assert(arrivals@.skip(arrivals@.len() as int) == Seq::<Arrival>::empty());
        assert(samples@ + Seq::<PositionSample>::empty() == samples@);
        samples
    }
}

/// A version record with the major version `protocol_major`.
pub open spec fn version_record(protocol_major: u32) -> Decoded {
    Decoded::Record(DaemonRecord::VersionInfo { protocol_major })
}

/// A feed that has stopped gives no sample, whatever it is fed.
pub proof fn stopped_feed_is_silent(feed: LiveFeed, arrivals: Seq<Arrival>)
    requires
        feed.failure is Some,
    ensures
        samples_of(feed, arrivals) == Seq::<PositionSample>::empty(),
    decreases arrivals.len(),
{
    if arrivals.len() > 0 {
        stopped_feed_is_silent(feed.successor(arrivals[0].0), arrivals.drop_first());
    }
}

/// The version gate, closed: a version record below the minimum makes a
/// running feed signal the mismatch and stop, so that neither this line
/// nor any later one gives a sample.
pub proof fn old_version_stops_feed(
    feed: LiveFeed,
    protocol_major: u32,
    received_at: i64,
    later: Seq<Arrival>,
)
    requires
        feed.failure is None,
        protocol_major < feed.minimum_protocol_major,
    ensures
        feed.reaction(version_record(protocol_major), received_at) == FeedStep::Fatal(
            ProtocolMismatch { found: protocol_major, minimum: feed.minimum_protocol_major },
        ),
        feed.successor(version_record(protocol_major)).failure is Some,
        samples_of(feed, seq![(version_record(protocol_major), received_at)] + later)
            == Seq::<PositionSample>::empty(),
{
    let arrivals = seq![(version_record(protocol_major), received_at)] + later;
    assert(arrivals.drop_first() == later);
    stopped_feed_is_silent(feed.successor(version_record(protocol_major)), later);
}

/// The version gate, open: a version record at or above the minimum is no
/// failure. The feed is negotiated and goes on as if the line had not
/// been there.
pub proof fn supported_version_passes(
    feed: LiveFeed,
    protocol_major: u32,
    received_at: i64,
    later: Seq<Arrival>,
)
    requires
        feed.failure is None,
        protocol_major >= feed.minimum_protocol_major,
    ensures
        feed.reaction(version_record(protocol_major), received_at) == FeedStep::Nothing,
        feed.successor(version_record(protocol_major)) == (LiveFeed { negotiated: true, ..feed }),
        samples_of(feed, seq![(version_record(protocol_major), received_at)] + later)
            == samples_of(LiveFeed { negotiated: true, ..feed }, later),
{
    let arrivals = seq![(version_record(protocol_major), received_at)] + later;
    assert(arrivals.drop_first() == later);
}

/// A line that cannot be decoded gives no sample and leaves the feed as it
/// was: the lines after it give what they would have given without it.
pub proof fn malformed_line_is_skipped(feed: LiveFeed, received_at: i64, later: Seq<Arrival>)
    ensures
        !(feed.reaction(Decoded::Malformed, received_at) is Sample),
        feed.failure is None ==> feed.reaction(Decoded::Malformed, received_at)
            == FeedStep::Dropped(Diagnostic::UndecodableLine),
        feed.successor(Decoded::Malformed) == feed,
        samples_of(feed, seq![(Decoded::Malformed, received_at)] + later) == samples_of(
            feed,
            later,
        ),
{
    let arrivals = seq![(Decoded::Malformed, received_at)] + later;
    assert(arrivals.drop_first() == later);
}

/// A report gives a sample exactly where the feed is running and the
/// report holds both coordinates, and no report changes the feed.
pub proof fn report_gives_sample_iff_complete(
    feed: LiveFeed,
    report: VelocityReport,
    received_at: i64,
)
    ensures
        feed.reaction(
            Decoded::Record(DaemonRecord::TimePositionVelocity(report)),
            received_at,
        ) is Sample <==> feed.failure is None && report.latitude is Some
            && report.longitude is Some,
        feed.successor(Decoded::Record(DaemonRecord::TimePositionVelocity(report))) == feed,
{
}

/// Malformed-line resilience: a line that cannot be decoded, followed by a
/// report with both coordinates, gives exactly one sample, that of the
/// report.
pub proof fn malformed_then_report_gives_one_sample(
    feed: LiveFeed,
    report: VelocityReport,
    malformed_at: i64,
    report_at: i64,
)
    requires
        feed.failure is None,
        report.latitude is Some,
        report.longitude is Some,
    ensures
        samples_of(
            feed,
            seq![
                (Decoded::Malformed, malformed_at),
                (Decoded::Record(DaemonRecord::TimePositionVelocity(report)), report_at),
            ],
        ) == seq![
            LiveFeed::sample_of(
                report,
                report.latitude->Some_0,
                report.longitude->Some_0,
                report_at,
            ),
        ],
{
    let line = (Decoded::Record(DaemonRecord::TimePositionVelocity(report)), report_at);
    let later = seq![line];
    malformed_line_is_skipped(feed, malformed_at, later);
    assert(seq![(Decoded::Malformed, malformed_at)] + later == seq![
        (Decoded::Malformed, malformed_at),
        line,
    ]);
    assert(later.drop_first() == Seq::<Arrival>::empty());
    assert(samples_of(feed, later.drop_first()) == Seq::<PositionSample>::empty());
    let sample = LiveFeed::sample_of(
        report,
        report.latitude->Some_0,
        report.longitude->Some_0,
        report_at,
    );
    assert(seq![sample] + Seq::<PositionSample>::empty() == seq![sample]);
}

} // verus!
