//! Events that the driver emits, and the layout in which they arrive.
//!
//! An event is one buffer: a header with the event's id and size, a second
//! header that depends on the id and holds the length of a string, and the
//! string itself as packed UTF-16. Integers are little-endian; fields of
//! pointer width take a machine word.
use crate::text::{append_decimal, decimal_text};
use crate::wire::{
    append_le, append_units, buffer_to_units, bytes_units, get_le, le_bytes, le_value,
    lemma_le_bytes_len, lemma_le_bytes_widen, lemma_le_value_of_bytes, lemma_pow256_values,
    lemma_units_round_trip, signed32, to_signed32, to_unsigned32, units_bytes,
    unsigned32, word, word_size,
};
use vstd::prelude::*;
use vstd::slice::slice_subrange;

verus! {

/// Identifies the kind of an event. The high bit of its code marks an error.
#[derive(Clone, Copy, Debug, PartialEq, Eq, Structural)]
pub enum EventId {
    StartSplittingProcess,
    StopSplittingProcess,
    ErrorStartSplittingProcess,
    ErrorStopSplittingProcess,
    ErrorMessage,
}

/// An event code that names no event.
#[derive(Clone, Copy, Debug, PartialEq, Eq, Structural)]
pub struct UnknownEventId(pub u32);

impl UnknownEventId {
    /// The text that describes the error to a reader.
    pub open spec fn spec_message(self) -> Seq<char> {
        "Unknown event id: "@ + decimal_text(self.0 as nat)
    }

    /// The text that describes the error to a reader.
    pub fn message(&self) -> (text: String)
        ensures
            text@ == self.spec_message(),
    {
        let mut text: String = "Unknown event id: ".to_string();
        append_decimal(&mut text, self.0 as u64);
        text
    }
}

impl EventId {
    /// The number by which the driver names the event.
    pub open spec fn spec_code(self) -> u32 {
        match self {
            EventId::StartSplittingProcess => 0,
            EventId::StopSplittingProcess => 1,
            EventId::ErrorStartSplittingProcess => 0x8000_0001,
            EventId::ErrorStopSplittingProcess => 0x8000_0002,
            EventId::ErrorMessage => 0x8000_0003,
        }
    }

    /// The event that a number names.
    pub open spec fn from_code(code: u32) -> Result<EventId, UnknownEventId> {
        if code == 0 {
            Ok(EventId::StartSplittingProcess)
        } else if code == 1 {
            Ok(EventId::StopSplittingProcess)
        } else if code == 0x8000_0001 {
            Ok(EventId::ErrorStartSplittingProcess)
        } else if code == 0x8000_0002 {
            Ok(EventId::ErrorStopSplittingProcess)
        } else if code == 0x8000_0003 {
            Ok(EventId::ErrorMessage)
        } else {
            Err(UnknownEventId(code))
        }
    }

    /// Whether the event reports a failure: the high bit of its code is set.
    pub open spec fn spec_is_error(self) -> bool {
        self.spec_code() >= 0x8000_0000
    }

    /// The number by which the driver names the event.
    #[verifier::when_used_as_spec(spec_code)]
    pub fn code(self) -> (code: u32)
        ensures
            code == self.spec_code(),
            EventId::from_code(code) == Ok::<EventId, UnknownEventId>(self),
    {
        match self {
            EventId::StartSplittingProcess => 0,
            EventId::StopSplittingProcess => 1,
            EventId::ErrorStartSplittingProcess => 0x8000_0001,
            EventId::ErrorStopSplittingProcess => 0x8000_0002,
            EventId::ErrorMessage => 0x8000_0003,
        }
    }

    /// Whether the event reports a failure.
    #[verifier::when_used_as_spec(spec_is_error)]
    pub fn is_error(self) -> (error: bool)
        ensures
            error == self.spec_is_error(),
    {
        self.code() >= 0x8000_0000
    }
}

impl TryFrom<u32> for EventId {
    type Error = UnknownEventId;

    fn try_from(event: u32) -> (decoded: Result<Self, Self::Error>) {
        if event == 0 {
            Ok(EventId::StartSplittingProcess)
        } else if event == 1 {
            Ok(EventId::StopSplittingProcess)
        } else if event == 0x8000_0001 {
            Ok(EventId::ErrorStartSplittingProcess)
        } else if event == 0x8000_0002 {
            Ok(EventId::ErrorStopSplittingProcess)
        } else if event == 0x8000_0003 {
            Ok(EventId::ErrorMessage)
        } else {
            Err(UnknownEventId(event))
        }
    }
}

impl vstd::std_specs::convert::TryFromSpecImpl<u32> for EventId {
    open spec fn obeys_try_from_spec() -> bool {
        true
    }

    open spec fn try_from_spec(event: u32) -> Result<Self, Self::Error> {
        EventId::from_code(event)
    }
}

/// The process was split because its parent is.
pub const BY_INHERITANCE: u32 = 1;

/// The process was split because the configuration names its image.
pub const BY_CONFIG: u32 = 2;

/// The process is arriving.
pub const PROCESS_ARRIVING: u32 = 4;

/// The process is departing.
pub const PROCESS_DEPARTING: u32 = 8;

/// Every bit that has a meaning in a splitting change reason.
pub const ALL_REASONS: u32 = 15;

/// Why the driver started or stopped splitting a process: a set of flags.
#[derive(Clone, Copy, Debug, PartialEq, Eq, Structural)]
pub struct SplittingChangeReason {
    pub bits: u32,
}

impl SplittingChangeReason {
    /// Whether `bits` holds no bit without a meaning.
    pub open spec fn known(bits: u32) -> bool {
        bits <= ALL_REASONS
    }

    /// `bits` without the bits that have no meaning.
    pub open spec fn truncated(bits: u32) -> u32 {
        bits % 16
    }

    /// The set of flags in `bits`, if each of its bits has a meaning.
    pub fn from_bits(bits: u32) -> (reason: Option<SplittingChangeReason>)
        ensures
            reason == if Self::known(bits) {
                Some(SplittingChangeReason { bits })
            } else {
                None
            },
    {
        assert((bits & !15u32 == 0) == (bits <= 15)) by (bit_vector);
        if bits & !ALL_REASONS == 0 {
            Some(SplittingChangeReason { bits })
        } else {
            None
        }
    }

    /// The set of flags in `bits`, unknown bits dropped.
    pub fn from_bits_truncate(bits: u32) -> (reason: SplittingChangeReason)
        ensures
            reason.bits == Self::truncated(bits),
            Self::known(reason.bits),
            Self::known(bits) ==> reason.bits == bits,
    {
        assert(bits & 15u32 == bits % 16) by (bit_vector);
        SplittingChangeReason { bits: bits & ALL_REASONS }
    }

    /// The flags as a number.
    pub fn bits(self) -> (bits: u32)
        ensures
            bits == self.bits,
    {
        self.bits
    }

    /// Whether every flag of `other` is set in `self`.
    pub fn contains(self, other: SplittingChangeReason) -> (all: bool)
        ensures
            all == (self.bits & other.bits == other.bits),
    {
        self.bits & other.bits == other.bits
    }
}

/// What an event says.
#[derive(Clone, Debug, PartialEq, Eq)]
pub enum EventBody {
    /// The driver started or stopped splitting a process.
    SplittingEvent { process_id: usize, reason: SplittingChangeReason, image: Vec<u16> },
    /// The driver failed to start or stop splitting a process.
    SplittingError { process_id: usize, image: Vec<u16> },
    /// The driver reports an error of its own.
    ErrorMessage { status: i32, message: Vec<u16> },
}

/// An event body as a mathematical value.
pub enum EventBodyView {
    SplittingEvent { process_id: usize, reason: SplittingChangeReason, image: Seq<u16> },
    SplittingError { process_id: usize, image: Seq<u16> },
    ErrorMessage { status: i32, message: Seq<u16> },
}

impl View for EventBody {
    type V = EventBodyView;

    open spec fn view(&self) -> EventBodyView {
        match self {
            EventBody::SplittingEvent { process_id, reason, image } => EventBodyView::SplittingEvent {
                process_id: *process_id,
                reason: *reason,
                image: image@,
            },
            EventBody::SplittingError { process_id, image } => EventBodyView::SplittingError {
                process_id: *process_id,
                image: image@,
            },
            EventBody::ErrorMessage { status, message } => EventBodyView::ErrorMessage {
                status: *status,
                message: message@,
            },
        }
    }
}

/// Length of the header that every event starts with: the id, padded to a
/// word, and the size.
pub open spec fn event_header_len() -> nat {
    2 * word()
}

/// What the part of an event behind the first header says, for an event of
/// the given id. `None` where the second header or the string is cut short.
pub open spec fn decode_body(id: EventId, payload: Seq<u8>) -> Option<EventBodyView> {
    let w = word() as int;
    match id {
        EventId::StartSplittingProcess | EventId::StopSplittingProcess => {
            if payload.len() < w + 6 {
                None
            } else {
                let length = le_value(payload.subrange(w + 4, w + 6)) as int;
                if payload.len() < w + 6 + length {
                    None
                } else {
                    Some(
                        EventBodyView::SplittingEvent {
                            process_id: le_value(payload.subrange(0, w)) as usize,
                            reason: SplittingChangeReason {
                                bits: SplittingChangeReason::truncated(
                                    le_value(payload.subrange(w, w + 4)) as u32,
                                ),
                            },
                            image: bytes_units(payload.subrange(w + 6, w + 6 + length)),
                        },
                    )
                }
            }
        },
        EventId::ErrorStartSplittingProcess | EventId::ErrorStopSplittingProcess => {
            if payload.len() < w + 2 {
                None
            } else {
                let length = le_value(payload.subrange(w, w + 2)) as int;
                if payload.len() < w + 2 + length {
                    None
                } else {
                    Some(
                        EventBodyView::SplittingError {
                            process_id: le_value(payload.subrange(0, w)) as usize,
                            image: bytes_units(payload.subrange(w + 2, w + 2 + length)),
                        },
                    )
                }
            }
        },
        EventId::ErrorMessage => {
            if payload.len() < 6 {
                None
            } else {
                let length = le_value(payload.subrange(4, 6)) as int;
                if payload.len() < 6 + length {
                    None
                } else {
                    Some(
                        EventBodyView::ErrorMessage {
                            status: signed32(le_value(payload.subrange(0, 4))),
                            message: bytes_units(payload.subrange(6, 6 + length)),
                        },
                    )
                }
            }
        },
    }
}

/// What an event buffer says. `None` where the id is unknown, or where a
/// header or the string is cut short. Bytes behind the string are ignored.
pub open spec fn decode_event(buffer: Seq<u8>) -> Option<(EventId, EventBodyView)> {
    if buffer.len() < 4 {
        None
    } else {
        match EventId::from_code(le_value(buffer.subrange(0, 4)) as u32) {
            Err(_) => None,
            Ok(id) => {
                if buffer.len() < event_header_len() {
                    None
                } else {
                    match decode_body(id, buffer.skip(event_header_len() as int)) {
                        None => None,
                        Some(body) => Some((id, body)),
                    }
                }
            },
        }
    }
}

/// The mathematical value of a parsed event.
pub open spec fn event_view(event: Option<(EventId, EventBody)>) -> Option<
    (EventId, EventBodyView),
> {
    match event {
        None => None,
        Some((id, body)) => Some((id, body@)),
    }
}

/// The bits without a meaning in the reason of a splitting event, which are
/// dropped when the event is read. Zero for a buffer that holds no such
/// event.
pub open spec fn dropped_reason_bits(buffer: Seq<u8>) -> u32 {
    let w = word() as int;
    match decode_event(buffer) {
        Some((_, EventBodyView::SplittingEvent { .. })) => {
            let raw = le_value(buffer.skip(event_header_len() as int).subrange(w, w + 4)) as u32;
            (raw - SplittingChangeReason::truncated(raw)) as u32
        },
        _ => 0,
    }
}

/// Parses an event returned by the driver.
pub fn parse_event_buffer(buffer: &[u8]) -> (event: Option<(EventId, EventBody)>)
    ensures
        event_view(event) == decode_event(buffer@),
{
    read_event(buffer).0
}

/// Parses an event returned by the driver, and says which bits of its
/// reason had no meaning and were dropped.
pub fn read_event(buffer: &[u8]) -> (read: (Option<(EventId, EventBody)>, u32))
    ensures
        event_view(read.0) == decode_event(buffer@),
        read.1 == dropped_reason_bits(buffer@),
{
    let w: usize = word_size();
    if buffer.len() < 4 {
        return (None, 0);
    }
    proof {
        lemma_pow256_values();
    }
    let raw_id: u32 = get_le(buffer, 0, 4) as u32;
    let id: EventId = match EventId::try_from(raw_id) {
        Ok(id) => id,
        Err(_) => {
            return (None, 0);
        },
    };
    if buffer.len() < 2 * w {
        return (None, 0);
    }
    let payload: &[u8] = slice_subrange(buffer, 2 * w, buffer.len());
    proof {
        assert(payload@ =~= buffer@.skip(event_header_len() as int));
    }
    let size: usize = payload.len();
    match id {
        EventId::StartSplittingProcess | EventId::StopSplittingProcess => {
            if size < w + 6 {
                return (None, 0);
            }
            let length: usize = get_le(payload, w + 4, 2) as usize;
            if size - (w + 6) < length {
                return (None, 0);
            }
            let process_id: usize = get_le(payload, 0, w) as usize;
            let raw_reason: u32 = get_le(payload, w, 4) as u32;
            let reason = SplittingChangeReason::from_bits_truncate(raw_reason);
            let image: Vec<u16> = buffer_to_units(slice_subrange(payload, w + 6, w + 6 + length));
            (
                Some((id, EventBody::SplittingEvent { process_id, reason, image })),
                raw_reason - reason.bits,
            )
        },
        EventId::ErrorStartSplittingProcess | EventId::ErrorStopSplittingProcess => {
            if size < w + 2 {
                return (None, 0);
            }
            let length: usize = get_le(payload, w, 2) as usize;
            if size - (w + 2) < length {
                return (None, 0);
            }
            let process_id: usize = get_le(payload, 0, w) as usize;
            let image: Vec<u16> = buffer_to_units(slice_subrange(payload, w + 2, w + 2 + length));
            (Some((id, EventBody::SplittingError { process_id, image })), 0)
        },
        EventId::ErrorMessage => {
            if size < 6 {
                return (None, 0);
            }
            let length: usize = get_le(payload, 4, 2) as usize;
            if size - 6 < length {
                return (None, 0);
            }
            let status: i32 = to_signed32(get_le(payload, 0, 4) as u32);
            let message: Vec<u16> = buffer_to_units(slice_subrange(payload, 6, 6 + length));
            (Some((id, EventBody::ErrorMessage { status, message })), 0)
        },
    }
}

/// Whether an event can be laid out: the body is of the id's kind, its
/// string's length in bytes fits sixteen bits, and its reason holds known
/// flags only.
pub open spec fn valid_event(id: EventId, body: EventBodyView) -> bool {
    match body {
        EventBodyView::SplittingEvent { reason, image, .. } => {
            &&& id == EventId::StartSplittingProcess || id == EventId::StopSplittingProcess
            &&& SplittingChangeReason::known(reason.bits)
            &&& 2 * image.len() <= u16::MAX
        },
        EventBodyView::SplittingError { image, .. } => {
            &&& id == EventId::ErrorStartSplittingProcess || id
                == EventId::ErrorStopSplittingProcess
            &&& 2 * image.len() <= u16::MAX
        },
        EventBodyView::ErrorMessage { message, .. } => {
            &&& id == EventId::ErrorMessage
            &&& 2 * message.len() <= u16::MAX
        },
    }
}

/// The bytes of an event's second header and string.
pub open spec fn encode_body(body: EventBodyView) -> Seq<u8> {
    match body {
        EventBodyView::SplittingEvent { process_id, reason, image } => le_bytes(
            process_id as nat,
            word(),
        ) + le_bytes(reason.bits as nat, 4) + le_bytes(2 * image.len(), 2) + units_bytes(image),
        EventBodyView::SplittingError { process_id, image } => le_bytes(process_id as nat, word())
            + le_bytes(2 * image.len(), 2) + units_bytes(image),
        EventBodyView::ErrorMessage { status, message } => le_bytes(unsigned32(status), 4)
            + le_bytes(2 * message.len(), 2) + units_bytes(message),
    }
}

/// The bytes of an event: the id in a word, the size of what follows in a
/// word, then the body.
pub open spec fn encode_event(id: EventId, body: EventBodyView) -> Seq<u8> {
    le_bytes(id.spec_code() as nat, word()) + le_bytes(encode_body(body).len(), word())
        + encode_body(body)
}

/// Lays an event out as the driver does.
pub fn serialize_event(id: EventId, body: &EventBody) -> (buffer: Vec<u8>)
    requires
        valid_event(id, body@),
    ensures
        buffer@ == encode_event(id, body@),
{
    let w: usize = word_size();
    let mut tail: Vec<u8> = Vec::new();
    match body {
        EventBody::SplittingEvent { process_id, reason, image } => {
            append_le(&mut tail, *process_id as u128, w);
            append_le(&mut tail, reason.bits as u128, 4);
            append_le(&mut tail, (2 * image.len()) as u128, 2);
            append_units(&mut tail, image.as_slice());
        },
        EventBody::SplittingError { process_id, image } => {
            append_le(&mut tail, *process_id as u128, w);
            append_le(&mut tail, (2 * image.len()) as u128, 2);
            append_units(&mut tail, image.as_slice());
        },
        EventBody::ErrorMessage { status, message } => {
            append_le(&mut tail, to_unsigned32(*status) as u128, 4);
            append_le(&mut tail, (2 * message.len()) as u128, 2);
            append_units(&mut tail, message.as_slice());
        },
    }
    proof {
        assert(tail@ =~= encode_body(body@));
    }
    let mut buffer: Vec<u8> = Vec::new();
    append_le(&mut buffer, id.code() as u128, w);
    append_le(&mut buffer, tail.len() as u128, w);
    let mut rest: Vec<u8> = tail;
    buffer.append(&mut rest);
    proof {
        assert(buffer@ =~= encode_event(id, body@));
    }
    buffer
}

/// Reading an event back from its layout gives the event: decoding undoes
/// encoding for every event that can be laid out.
pub proof fn lemma_event_round_trip(id: EventId, body: EventBodyView)
    requires
        valid_event(id, body),
    ensures
        decode_event(encode_event(id, body)) == Some((id, body)),
{
    let w = word();
    let code = id.spec_code() as nat;
    let tail = encode_body(body);
    let head = le_bytes(code, w) + le_bytes(tail.len(), w);
    let all = encode_event(id, body);
    lemma_pow256_values();
    lemma_le_bytes_len(code, w);
    lemma_le_bytes_len(tail.len(), w);
    lemma_le_bytes_len(code, 4);
    lemma_le_bytes_widen(code, 4, (w - 4) as nat);
    lemma_le_value_of_bytes(code, 4);
    assert(all.subrange(0, 4) =~= le_bytes(code, 4));
    assert(all.skip(event_header_len() as int) =~= tail);
    lemma_body_round_trip(id, body);
}

/// The second header and the string, read back, give the body.
pub proof fn lemma_body_round_trip(id: EventId, body: EventBodyView)
    requires
        valid_event(id, body),
    ensures
        decode_body(id, encode_body(body)) == Some(body),
{
    match body {
        EventBodyView::SplittingEvent { process_id, reason, image } => {
            lemma_splitting_event_round_trip(id, process_id, reason, image);
        },
        EventBodyView::SplittingError { process_id, image } => {
            lemma_splitting_error_round_trip(id, process_id, image);
        },
        EventBodyView::ErrorMessage { status, message } => {
            lemma_error_message_round_trip(status, message);
        },
    }
}

proof fn lemma_splitting_event_round_trip(
    id: EventId,
    process_id: usize,
    reason: SplittingChangeReason,
    image: Seq<u16>,
)
    requires
        id == EventId::StartSplittingProcess || id == EventId::StopSplittingProcess,
        SplittingChangeReason::known(reason.bits),
        2 * image.len() <= u16::MAX,
    ensures
        decode_body(id, encode_body(EventBodyView::SplittingEvent { process_id, reason, image }))
            == Some(EventBodyView::SplittingEvent { process_id, reason, image }),
{
    let w = word();
    let wi = w as int;
    let text = units_bytes(image);
    let size = text.len() as int;
    let tail = encode_body(EventBodyView::SplittingEvent { process_id, reason, image });
    lemma_pow256_values();
    lemma_le_bytes_len(process_id as nat, w);
    lemma_le_bytes_len(reason.bits as nat, 4);
    lemma_le_bytes_len(text.len(), 2);
    lemma_le_value_of_bytes(process_id as nat, w);
    lemma_le_value_of_bytes(reason.bits as nat, 4);
    lemma_le_value_of_bytes(text.len(), 2);
    lemma_units_round_trip(image);
    assert(tail.len() == wi + 6 + size);
    assert(tail.subrange(0, wi) =~= le_bytes(process_id as nat, w));
    assert(tail.subrange(wi, wi + 4) =~= le_bytes(reason.bits as nat, 4));
    assert(tail.subrange(wi + 4, wi + 6) =~= le_bytes(text.len(), 2));
    assert(tail.subrange(wi + 6, wi + 6 + size) =~= text);
}

proof fn lemma_splitting_error_round_trip(id: EventId, process_id: usize, image: Seq<u16>)
    requires
        id == EventId::ErrorStartSplittingProcess || id == EventId::ErrorStopSplittingProcess,
        2 * image.len() <= u16::MAX,
    ensures
        decode_body(id, encode_body(EventBodyView::SplittingError { process_id, image })) == Some(
            EventBodyView::SplittingError { process_id, image },
        ),
{
    let w = word();
    let wi = w as int;
    let text = units_bytes(image);
    let size = text.len() as int;
    let tail = encode_body(EventBodyView::SplittingError { process_id, image });
    lemma_pow256_values();
    lemma_le_bytes_len(process_id as nat, w);
    lemma_le_bytes_len(text.len(), 2);
    lemma_le_value_of_bytes(process_id as nat, w);
    lemma_le_value_of_bytes(text.len(), 2);
    lemma_units_round_trip(image);
    assert(tail.len() == wi + 2 + size);
    assert(tail.subrange(0, wi) =~= le_bytes(process_id as nat, w));
    assert(tail.subrange(wi, wi + 2) =~= le_bytes(text.len(), 2));
    assert(tail.subrange(wi + 2, wi + 2 + size) =~= text);
}

proof fn lemma_error_message_round_trip(status: i32, message: Seq<u16>)
    requires
        2 * message.len() <= u16::MAX,
    ensures
        decode_body(
            EventId::ErrorMessage,
            encode_body(EventBodyView::ErrorMessage { status, message }),
        ) == Some(EventBodyView::ErrorMessage { status, message }),
{
    let text = units_bytes(message);
    let size = text.len() as int;
    let raw = unsigned32(status);
    let tail = encode_body(EventBodyView::ErrorMessage { status, message });
    lemma_pow256_values();
    lemma_le_bytes_len(raw, 4);
    lemma_le_bytes_len(text.len(), 2);
    lemma_le_value_of_bytes(raw, 4);
    lemma_le_value_of_bytes(text.len(), 2);
    lemma_units_round_trip(message);
    assert(tail.len() == 6 + size);
    assert(tail.subrange(0, 4) =~= le_bytes(raw, 4));
    assert(tail.subrange(4, 6) =~= le_bytes(text.len(), 2));
    assert(tail.subrange(6, 6 + size) =~= text);
}

} // verus!
