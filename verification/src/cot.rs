//! The three Cursor-on-Target event documents.
//!
//! Field order, attribute names and white space are part of the wire
//! contract: consumers parse these documents by position.

use crate::sample::{optional_text, PositionSample, SampleView};
use crate::timestamp::{utc_text, wire_text, TimeWindow};
use vstd::prelude::*;

verus! {

/// Which event a position is reported as.
#[derive(Clone, Debug, PartialEq, Eq)]
pub enum CotEventKind {
    /// The track of a friendly unit, measured by the unit itself.
    FriendlyTrack,
    /// A detection of an unknown unit.
    UnknownDetection,
    /// A picture of an unknown unit: a JPEG, already encoded in base64.
    UnknownImageAttachment { payload: String },
}

/// The texts that fill the gaps of a document.
pub struct EventFields {
    pub uid: Seq<char>,
    pub start: Seq<char>,
    pub time: Seq<char>,
    pub stale: Seq<char>,
    pub latitude: Seq<char>,
    pub longitude: Seq<char>,
    pub heading: Option<Seq<char>>,
    pub speed: Option<Seq<char>>,
}

/// The fields of a document for `sample`, with the window's three instants
/// already written out.
pub open spec fn event_fields(
    sample: SampleView,
    start: Seq<char>,
    time: Seq<char>,
    stale: Seq<char>,
    uid: Seq<char>,
) -> EventFields {
    EventFields {
        uid,
        start,
        time,
        stale,
        latitude: sample.latitude,
        longitude: sample.longitude,
        heading: sample.heading,
        speed: sample.speed,
    }
}

/// A heading or a speed as it is written: an unknown one is written as
/// `zero`.
pub open spec fn known_or(text: Option<Seq<char>>, zero: Seq<char>) -> Seq<char> {
    match text {
        Some(t) => t,
        None => zero,
    }
}

/// The document of a friendly track. An unknown heading is written `0`, an
/// unknown speed `0.0000`: this document carries speeds with four decimals.
pub open spec fn friendly_track_document(f: EventFields) -> Seq<char> {
    "<?xml version=\"1.0\" encoding=\"UTF-8\" standalone=\"yes\"?>\n<event\n  how=\"m-s\"\n  stale=\""@
        + f.stale + "\" start=\""@ + f.start + "\" time=\""@ + f.time
        + "\"\ntype=\"a-f-S-X\"\nuid=\""@ + f.uid
        + "\"\nversion=\"2.0\">\n<detail>\n<track course=\""@ + known_or(f.heading, "0"@)
        + "\" heading=\""@ + known_or(f.heading, "0"@) + "\" speed=\""@ + known_or(
        f.speed,
        "0.0000"@,
    )
        + "\" />\n<status battery=\"59\" health=\"good\" />\n<goal lat=\"37.3264235\" lon=\"-75.29052422\"/>\n<camera hfov=\"120\" rel_az=\"0\"/>\n<_flow-tags_ Ss_X3_ASV_h53.status=\""@
        + f.time + "\"/>\n</detail>\n<point ce=\"5\" hae=\"0.0\" lat=\""@ + f.latitude
        + "\" le=\"0.5\" lon=\""@ + f.longitude + "\" />\n</event>\n"@
}

/// What the two documents of an unknown unit share: the event element's
/// opening tag with `how` in it, the point, and the flow tag.
pub open spec fn unknown_unit_opening(how: Seq<char>, f: EventFields) -> Seq<char> {
    "<?xml version=\"1.0\" encoding=\"UTF-8\" standalone=\"yes\"?>\n<event how=\""@ + how
        + "\" stale=\""@ + f.stale + "\" start=\""@ + f.start + "\" time=\""@ + f.time
        + "\" type=\"a-u-S\" uid=\""@ + f.uid + "\" version=\"2.0\">\n<point ce=\"500\" lat=\""@
        + f.latitude + "\" lon=\""@ + f.longitude
        + "\" hae=\"0.0\" le=\"100\"/>\n<detail>\n<_flow-tags_ Ss_X3_ASV_h53.ais=\""@ + f.time
        + "\"/>\n"@
}

/// The document of a detection. An unknown heading or speed is written `0`.
pub open spec fn detection_document(f: EventFields) -> Seq<char> {
    unknown_unit_opening("m-d-a"@, f) + "<track course=\""@ + known_or(f.heading, "0"@)
        + "\" speed=\""@ + known_or(f.speed, "0"@) + "\" />\n</detail></event>"@
}

/// The document of an image attachment around `payload`.
pub open spec fn image_document(f: EventFields, payload: Seq<char>) -> Seq<char> {
    unknown_unit_opening("b-d-i"@, f) + "<image mime=\"image/jpeg\" type=\"VIS\">"@ + payload
        + "</image></detail></event>"@
}

/// The document of an event of `kind` with the fields `f`.
pub open spec fn document(kind: CotEventKind, f: EventFields) -> Seq<char> {
    match kind {
        CotEventKind::FriendlyTrack => friendly_track_document(f),
        CotEventKind::UnknownDetection => detection_document(f),
        CotEventKind::UnknownImageAttachment { payload } => image_document(f, payload@),
    }
}

impl CotEventKind {
    /// How many decimals the speed of a document of this kind carries:
    /// four in a friendly track; in the others the shortest text that
    /// reads back as the same number, which is `None` here.
    pub fn speed_decimals(&self) -> (decimals: Option<u8>)
        ensures
            decimals == (if *self is FriendlyTrack {
                Some(4u8)
            } else {
                None
            }),
    {
        match self {
            CotEventKind::FriendlyTrack => Some(4),
            _ => None,
        }
    }
}

fn append_known_or(doc: &mut String, text: &Option<String>, zero: &str)
    ensures
        final(doc)@ == old(doc)@ + known_or(optional_text(*text), zero@),
{
    match text {
        Some(t) => doc.append(t.as_str()),
        None => doc.append(zero),
    }
}

fn render_friendly_track(
    sample: &PositionSample,
    start: &str,
    time: &str,
    stale: &str,
    identity: &str,
) -> (doc: String)
    ensures
        doc@ == friendly_track_document(event_fields(sample@, start@, time@, stale@, identity@)),
{
    let mut doc = String::from_str(
        "<?xml version=\"1.0\" encoding=\"UTF-8\" standalone=\"yes\"?>\n<event\n  how=\"m-s\"\n  stale=\"",
    );
    doc.append(stale);
    doc.append("\" start=\"");
    doc.append(start);
    doc.append("\" time=\"");
    doc.append(time);
    doc.append("\"\ntype=\"a-f-S-X\"\nuid=\"");
    doc.append(identity);
    doc.append("\"\nversion=\"2.0\">\n<detail>\n<track course=\"");
    append_known_or(&mut doc, &sample.heading, "0");
    doc.append("\" heading=\"");
    append_known_or(&mut doc, &sample.heading, "0");
    doc.append("\" speed=\"");
    append_known_or(&mut doc, &sample.speed, "0.0000");
    doc.append(
        "\" />\n<status battery=\"59\" health=\"good\" />\n<goal lat=\"37.3264235\" lon=\"-75.29052422\"/>\n<camera hfov=\"120\" rel_az=\"0\"/>\n<_flow-tags_ Ss_X3_ASV_h53.status=\"",
    );
    doc.append(time);
    doc.append("\"/>\n</detail>\n<point ce=\"5\" hae=\"0.0\" lat=\"");
    doc.append(sample.latitude.as_str());
    doc.append("\" le=\"0.5\" lon=\"");
    doc.append(sample.longitude.as_str());
    doc.append("\" />\n</event>\n");
    doc
}

fn render_unknown_unit_opening(
    how: &str,
    sample: &PositionSample,
    start: &str,
    time: &str,
    stale: &str,
    identity: &str,
) -> (doc: String)
    ensures
        doc@ == unknown_unit_opening(
            how@,
            event_fields(sample@, start@, time@, stale@, identity@),
        ),
{
    let mut doc = String::from_str(
        "<?xml version=\"1.0\" encoding=\"UTF-8\" standalone=\"yes\"?>\n<event how=\"",
    );
    doc.append(how);
    doc.append("\" stale=\"");
    doc.append(stale);
    doc.append("\" start=\"");
    doc.append(start);
    doc.append("\" time=\"");
    doc.append(time);
    doc.append("\" type=\"a-u-S\" uid=\"");
    doc.append(identity);
    doc.append("\" version=\"2.0\">\n<point ce=\"500\" lat=\"");
    doc.append(sample.latitude.as_str());
    doc.append("\" lon=\"");
    doc.append(sample.longitude.as_str());
    doc.append("\" hae=\"0.0\" le=\"100\"/>\n<detail>\n<_flow-tags_ Ss_X3_ASV_h53.ais=\"");
    doc.append(time);
    doc.append("\"/>\n");
    doc
}

/// Writes the document of an event of `kind` for `sample`, given the three
/// instants of its window as they go on the wire. `identity` becomes the
/// event's uid as it stands.
pub fn render(
    kind: &CotEventKind,
    sample: &PositionSample,
    start: &str,
    time: &str,
    stale: &str,
    identity: &str,
) -> (doc: String)
    ensures
        doc@ == document(*kind, event_fields(sample@, start@, time@, stale@, identity@)),
{
    match kind {
        CotEventKind::FriendlyTrack => render_friendly_track(sample, start, time, stale, identity),
        CotEventKind::UnknownDetection => {
            let mut doc = render_unknown_unit_opening(
                "m-d-a",
                sample,
                start,
                time,
                stale,
                identity,
            );
            doc.append("<track course=\"");
            append_known_or(&mut doc, &sample.heading, "0");
            doc.append("\" speed=\"");
            append_known_or(&mut doc, &sample.speed, "0");
            doc.append("\" />\n</detail></event>");
            doc
        },
        CotEventKind::UnknownImageAttachment { payload } => {
            let mut doc = render_unknown_unit_opening(
                "b-d-i",
                sample,
                start,
                time,
                stale,
                identity,
            );
            doc.append("<image mime=\"image/jpeg\" type=\"VIS\">");
            doc.append(payload.as_str());
            doc.append("</image></detail></event>");
            doc
        },
    }
}

/// Writes the document of an event of `kind` for `sample`, valid over
/// `window`: the window's instants are written as `YYYY-MM-DDTHH:MM:SSZ`.
/// `identity` becomes the event's uid as it stands.
pub fn encode(
    kind: &CotEventKind,
    sample: &PositionSample,
    window: &TimeWindow,
    identity: &str,
) -> (doc: String)
    ensures
        doc@ == document(
            *kind,
            event_fields(
                sample@,
                utc_text(window@.start),
                utc_text(window@.time),
                utc_text(window@.stale),
                identity@,
            ),
        ),
{
    let start = wire_text(window.start());
    let time = wire_text(window.time());
    let stale = wire_text(window.stale());
    render(kind, sample, start.as_str(), time.as_str(), stale.as_str(), identity)
}

} // verus!
