//! Queue messages and the object notifications that their payloads spell out.
//!
//! A payload is four lines of text, in this order, each ended by a line feed (the last
//! line feed may be missing):
//!
//! ```text
//! bucketId=<bucket name>
//! objectId=<object key>
//! objectGeneration=<decimal number>
//! eventType=<OBJECT_FINALIZE | OBJECT_DELETE | OBJECT_METADATA_UPDATE | OBJECT_OVERWRITE>
//! ```
//!
//! Anything else is malformed.

use crate::framing::{byte_views, copy_range, frames_of, split_frames, FramingConfig};
use vstd::prelude::*;
use vstd::string::StringSliceAdditionalSpecFns;

verus! {

/// What happened to the object that a notification speaks of.
#[derive(Clone, Copy, Debug, PartialEq, Eq, Structural)]
pub enum EventKind {
    ObjectFinalize,
    ObjectDelete,
    ObjectMetadataUpdate,
    ObjectOverwrite,
}

impl EventKind {
    /// Only a finished write, new or overwriting, leaves content worth fetching.
    pub open spec fn fetch_worthy(self) -> bool {
        self == EventKind::ObjectFinalize || self == EventKind::ObjectOverwrite
    }

    /// Whether a notification of this kind calls for a fetch of the object.
    pub fn triggers_fetch(&self) -> (worthy: bool)
        ensures
            worthy == self.fetch_worthy(),
    {
        match self {
            EventKind::ObjectFinalize => true,
            EventKind::ObjectOverwrite => true,
            EventKind::ObjectDelete => false,
            EventKind::ObjectMetadataUpdate => false,
        }
    }
}

/// A message as the queue delivered it.
#[derive(Clone, Debug, PartialEq, Eq)]
pub struct QueueMessage {
    /// The raw payload.
    pub payload: Vec<u8>,
    /// The token by which the queue takes an acknowledgment for this delivery.
    pub ack_handle: String,
    /// How many times the queue has delivered this message, this delivery included.
    pub delivery_attempt: u32,
}

/// A change of one object in the object store.
#[derive(Clone, Debug, PartialEq, Eq)]
pub struct GcsObjectNotification {
    pub bucket: Vec<u8>,
    pub key: Vec<u8>,
    /// The version of the object that the notification is about.
    pub generation: u64,
    pub kind: EventKind,
}

/// A notification as a mathematical value.
pub struct NotificationView {
    pub bucket: Seq<u8>,
    pub key: Seq<u8>,
    pub generation: u64,
    pub kind: EventKind,
}

impl View for GcsObjectNotification {
    type V = NotificationView;

    open spec fn view(&self) -> NotificationView {
        NotificationView {
            bucket: self.bucket@,
            key: self.key@,
            generation: self.generation,
            kind: self.kind,
        }
    }
}

/// The payload of a message spelled no notification.
#[derive(Clone, Copy, Debug, PartialEq, Eq, Structural)]
pub struct MalformedNotification;

/// The value of a line that starts with `name`: what follows the name.
pub open spec fn field(line: Seq<u8>, name: Seq<u8>) -> Option<Seq<u8>> {
    if name.is_prefix_of(line) {
        Some(line.skip(name.len() as int))
    } else {
        None
    }
}

pub open spec fn is_digit(b: u8) -> bool {
    48 <= b <= 57
}

/// The number that a string of decimal digits denotes.
pub open spec fn decimal_value(digits: Seq<u8>) -> nat
    decreases digits.len(),
{
    if digits.len() == 0 {
        0
    } else {
        decimal_value(digits.drop_last()) * 10 + (digits.last() - 48) as nat
    }
}

/// The generation that a text denotes: one or more decimal digits whose number fits in 64 bits.
pub open spec fn generation_of(text: Seq<u8>) -> Option<u64> {
    if text.len() > 0 && (forall|i: int| 0 <= i < text.len() ==> is_digit(#[trigger] text[i]))
        && decimal_value(text) <= u64::MAX {
        Some(decimal_value(text) as u64)
    } else {
        None
    }
}

/// The event kind that a name denotes.
pub open spec fn kind_of_name(name: Seq<u8>) -> Option<EventKind> {
    if name == "OBJECT_FINALIZE".spec_bytes() {
        Some(EventKind::ObjectFinalize)
    } else if name == "OBJECT_DELETE".spec_bytes() {
        Some(EventKind::ObjectDelete)
    } else if name == "OBJECT_METADATA_UPDATE".spec_bytes() {
        Some(EventKind::ObjectMetadataUpdate)
    } else if name == "OBJECT_OVERWRITE".spec_bytes() {
        Some(EventKind::ObjectOverwrite)
    } else {
        None
    }
}

/// The notification that four lines spell, if they spell one: each line carries its field
/// name, bucket and key are not empty, the generation is a number and the kind is known.
pub open spec fn notification_of_lines(lines: Seq<Seq<u8>>) -> Option<NotificationView> {
    if lines.len() != 4 {
        None
    } else {
        match (
            field(lines[0], "bucketId=".spec_bytes()),
            field(lines[1], "objectId=".spec_bytes()),
            field(lines[2], "objectGeneration=".spec_bytes()),
            field(lines[3], "eventType=".spec_bytes()),
        ) {
            (Some(bucket), Some(key), Some(generation), Some(kind)) => {
                if bucket.len() > 0 && key.len() > 0 {
                    match (generation_of(generation), kind_of_name(kind)) {
                        (Some(generation), Some(kind)) => Some(
                            NotificationView { bucket, key, generation, kind },
                        ),
                        _ => None,
                    }
                } else {
                    None
                }
            },
            _ => None,
        }
    }
}

/// The notification that a payload spells, or `None` for a malformed payload.
pub open spec fn notification_of(payload: Seq<u8>) -> Option<NotificationView> {
    notification_of_lines(frames_of(payload, FramingConfig::NewlineDelimited))
}

/// A number is at least as large as the number that its leading digits denote.
proof fn lemma_decimal_prefix(digits: Seq<u8>, n: int)
    requires
        0 <= n <= digits.len(),
    ensures
        decimal_value(digits.take(n)) <= decimal_value(digits),
    decreases digits.len(),
{
    if n == digits.len() {
        assert(digits.take(n) =~= digits);
    } else {
        lemma_decimal_prefix(digits.drop_last(), n);
        assert(digits.drop_last().take(n) =~= digits.take(n));
    }
}

/// Whether `line` starts with `name`.
fn starts_with(line: &Vec<u8>, name: &[u8]) -> (yes: bool)
    ensures
        yes == name@.is_prefix_of(line@),
{
    if name.len() > line.len() {
        return false;
    }
    let mut i: usize = 0;
    while i < name.len()
        invariant
            i <= name.len() <= line.len(),
            forall|k: int| 0 <= k < i ==> name@[k] == line@[k],
        decreases name.len() - i,
    {
        if name[i] != line[i] {
            assert(line@.subrange(0, name@.len() as int)[i as int] == line@[i as int]);
            return false;
        }
        i = i + 1;
    }
    assert(name@ =~= line@.subrange(0, name@.len() as int));
    true
}

/// The value of a line that starts with `name`.
fn field_value(line: &Vec<u8>, name: &str) -> (value: Option<Vec<u8>>)
    ensures
        match value {
            Some(v) => field(line@, name.spec_bytes()) == Some(v@),
            None => field(line@, name.spec_bytes()) is None,
        },
{
    let name_bytes = name.as_bytes();
    if starts_with(line, name_bytes) {
        let v = copy_range(line, name_bytes.len(), line.len());
        assert(v@ =~= line@.skip(name_bytes@.len() as int));
        Some(v)
    } else {
        None
    }
}

/// Whether `text` is exactly the name.
fn is_name(text: &Vec<u8>, name: &str) -> (yes: bool)
    ensures
        yes == (text@ == name.spec_bytes()),
{
    let name_bytes = name.as_bytes();
    let yes = text.len() == name_bytes.len() && starts_with(text, name_bytes);
    proof {
        if yes {
            assert(text@ =~= text@.subrange(0, text@.len() as int));
        }
        if text@ == name_bytes@ {
            assert(text@ =~= text@.subrange(0, text@.len() as int));
        }
    }
    yes
}

/// Reads an event kind from its name.
pub fn parse_event_kind(name: &Vec<u8>) -> (kind: Option<EventKind>)
    ensures
        kind == kind_of_name(name@),
{
    if is_name(name, "OBJECT_FINALIZE") {
        Some(EventKind::ObjectFinalize)
    } else if is_name(name, "OBJECT_DELETE") {
        Some(EventKind::ObjectDelete)
    } else if is_name(name, "OBJECT_METADATA_UPDATE") {
        Some(EventKind::ObjectMetadataUpdate)
    } else if is_name(name, "OBJECT_OVERWRITE") {
        Some(EventKind::ObjectOverwrite)
    } else {
        None
    }
}

/// Reads a generation from its decimal digits.
pub fn parse_generation(text: &Vec<u8>) -> (generation: Option<u64>)
    ensures
        generation == generation_of(text@),
{
    if text.len() == 0 {
        return None;
    }
    let mut acc: u64 = 0;
    let mut i: usize = 0;
    assert(text@.take(0).len() == 0);
    while i < text.len()
        invariant
            i <= text.len(),
            forall|k: int| 0 <= k < i ==> is_digit(#[trigger] text@[k]),
            acc == decimal_value(text@.take(i as int)),
        decreases text.len() - i,
    {
        let b = text[i];
        if b < 48 || b > 57 {
            return None;
        }
        let digit: u64 = (b - 48) as u64;
        proof {
            assert(text@.take(i + 1).drop_last() =~= text@.take(i as int));
            assert(text@.take(i + 1).last() == b);
            lemma_decimal_prefix(text@, i + 1);
        }
        match acc.checked_mul(10) {
            None => {
                return None;
            },
            Some(shifted) => match shifted.checked_add(digit) {
                None => {
                    return None;
                },
                Some(next) => {
                    acc = next;
                },
            },
        }
        i = i + 1;
    }
    assert(text@.take(text@.len() as int) =~= text@);
    Some(acc)
}

/// Reads the notification that a payload spells.
pub fn parse_notification(payload: &Vec<u8>) -> (parsed: Result<
    GcsObjectNotification,
    MalformedNotification,
>)
    ensures
        match parsed {
            Ok(n) => notification_of(payload@) == Some(n@),
            Err(_) => notification_of(payload@) is None,
        },
{
    let lines = split_frames(payload, FramingConfig::NewlineDelimited);
    assert(byte_views(lines@).len() == lines@.len());
    if lines.len() != 4 {
        return Err(MalformedNotification);
    }
    assert(byte_views(lines@)[0] == lines@[0]@);
    assert(byte_views(lines@)[1] == lines@[1]@);
    assert(byte_views(lines@)[2] == lines@[2]@);
    assert(byte_views(lines@)[3] == lines@[3]@);
    let bucket = match field_value(&lines[0], "bucketId=") {
        Some(v) => v,
        None => {
            return Err(MalformedNotification);
        },
    };
    let key = match field_value(&lines[1], "objectId=") {
        Some(v) => v,
        None => {
            return Err(MalformedNotification);
        },
    };
    let generation_text = match field_value(&lines[2], "objectGeneration=") {
        Some(v) => v,
        None => {
            return Err(MalformedNotification);
        },
    };
    let kind_name = match field_value(&lines[3], "eventType=") {
        Some(v) => v,
        None => {
            return Err(MalformedNotification);
        },
    };
    if bucket.len() == 0 || key.len() == 0 {
        return Err(MalformedNotification);
    }
    let generation = match parse_generation(&generation_text) {
        Some(g) => g,
        None => {
            return Err(MalformedNotification);
        },
    };
    let kind = match parse_event_kind(&kind_name) {
        Some(k) => k,
        None => {
            return Err(MalformedNotification);
        },
    };
    Ok(GcsObjectNotification { bucket, key, generation, kind })
}

impl GcsObjectNotification {
    /// A copy of the notification.
    pub fn duplicate(&self) -> (copy: Self)
        ensures
            copy@ == self@,
    {
        let bucket = self.bucket.clone();
        let key = self.key.clone();
        assert(bucket@ =~= self.bucket@);
        assert(key@ =~= self.key@);
        GcsObjectNotification { bucket, key, generation: self.generation, kind: self.kind }
    }
}

} // verus!
