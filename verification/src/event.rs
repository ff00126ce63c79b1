//! KMES events: emit (producer) and drain (consumer).
//!
//! KMES is Peios's sole event path. The kernel stamps each event with trusted
//! metadata and writes it into a per-CPU ring buffer. Each payload is a single
//! MessagePack value (see [`crate::msgpack`]).
//!
//! An [`Event`]'s header is held by value; its `event_type` and `payload` borrow
//! the ring mapping and are valid only until the next read.
use crate::error::{Error, Result, EINVAL};
use crate::util::text;
use vstd::prelude::*;

verus! {

/// The kernel's classification of an event's origin.
#[derive(Debug, Clone, Copy, PartialEq, Eq, Hash, Structural)]
pub enum OriginClass {
    /// Emitted from userspace (the only class a producer can stamp).
    Userspace,
    /// Emitted by KMES itself.
    Kmes,
    /// Emitted by KACS.
    Kacs,
    /// Emitted by LCS.
    Lcs,
    /// Any other class, by raw discriminant.
    Other(u8),
}

impl OriginClass {
    /// The class that a raw discriminant stands for.
    pub open spec fn of_code(v: u8) -> OriginClass {
        if v == 0 {
            OriginClass::Userspace
        } else if v == 1 {
            OriginClass::Kmes
        } else if v == 2 {
            OriginClass::Kacs
        } else if v == 3 {
            OriginClass::Lcs
        } else {
            OriginClass::Other(v)
        }
    }

    /// The class that a raw discriminant stands for.
    pub fn from_raw(v: u8) -> (class: OriginClass)
        ensures
            class == OriginClass::of_code(v),
    {
        match v {
            0 => OriginClass::Userspace,
            1 => OriginClass::Kmes,
            2 => OriginClass::Kacs,
            3 => OriginClass::Lcs,
            other => OriginClass::Other(other),
        }
    }
}

/// No discriminant is lost: different ones are different classes.
pub proof fn law_origin_class_is_injective(a: u8, b: u8)
    ensures
        OriginClass::of_code(a) == OriginClass::of_code(b) <==> a == b,
{
}

// ---- emitting ---------------------------------------------------------------

/// One entry of a batch: a borrowed event kind and payload.
#[derive(Debug, Clone, Copy)]
pub struct EmitEntry<'a> {
    /// Length-counted UTF-8 event kind (e.g. `"my.app.login"`); not NUL-terminated.
    pub event_type: &'a str,
    /// The payload: one well-formed MessagePack value.
    pub payload: &'a [u8],
}

/// The arguments of emitting one event.
#[derive(Debug, Clone, Copy)]
pub struct EmitRequest<'a> {
    /// The bytes of the event kind.
    pub event_type: &'a [u8],
    /// The length argument of the event kind: its length, cut to 16 bits.
    pub event_type_len: u16,
    /// The payload.
    pub payload: &'a [u8],
    /// The length argument of the payload: its length, cut to 32 bits.
    pub payload_len: u32,
}

impl<'a> EmitRequest<'a> {
    /// Whether these are the arguments for `event_type` and `payload`.
    pub open spec fn is_for(self, event_type: &str, payload: &[u8]) -> bool {
        &&& self.event_type@ == vstd::utf8::encode_utf8(event_type@)
        &&& self.event_type_len == self.event_type@.len() as u16
        &&& self.payload == payload
        &&& self.payload_len == payload@.len() as u32
    }
}

/// The arguments of emitting a single event.
pub fn emit<'a>(event_type: &'a str, payload: &'a [u8]) -> (q: EmitRequest<'a>)
    ensures
        q.is_for(event_type, payload),
{
    let kind = event_type.as_bytes();
    EmitRequest {
        event_type: kind,
        event_type_len: kind.len() as u16,
        payload,
        payload_len: payload.len() as u32,
    }
}

/// The arguments of emitting several events in one call, in order.
pub fn emit_batch<'a>(entries: &[EmitEntry<'a>]) -> (qs: Vec<EmitRequest<'a>>)
    ensures
        qs@.len() == entries@.len(),
        forall|i: int|
            0 <= i < qs@.len() ==> (#[trigger] qs@[i]).is_for(
                entries@[i].event_type,
                entries@[i].payload,
            ),
{
    let mut qs: Vec<EmitRequest<'a>> = Vec::new();
    let mut i: usize = 0;
    while i < entries.len()
        invariant
            i <= entries@.len(),
            qs@.len() == i,
            forall|j: int|
                0 <= j < i ==> (#[trigger] qs@[j]).is_for(
                    entries@[j].event_type,
                    entries@[j].payload,
                ),
        decreases entries@.len() - i,
    {
        let entry = entries[i];
        qs.push(emit(entry.event_type, entry.payload));
        i = i + 1;
    }
    qs
}

/// The failure of a batch: the error of the first entry that failed, and how
/// many entries before it were emitted.
#[derive(Debug, Clone, Copy, PartialEq, Eq, Structural)]
pub struct BatchError {
    /// The error of the first entry that failed.
    pub error: Error,
    /// The number of entries emitted before it.
    pub emitted: usize,
}

/// What the reply to a batch means: how many events were emitted, and where that
/// is not all of them also the errno of the first that failed. The count is
/// reported either way.
pub fn emitted(ret: i32, errno: i32, count: u32) -> (r: core::result::Result<usize, BatchError>)
    ensures
        r == (if ret == 0 {
            Ok::<usize, BatchError>(count as usize)
        } else {
            Err::<usize, BatchError>(
                BatchError { error: Error { errno }, emitted: count as usize },
            )
        }),
{
    if ret == 0 {
        Ok(count as usize)
    } else {
        Err(BatchError { error: Error { errno }, emitted: count as usize })
    }
}

// ---- draining ---------------------------------------------------------------

/// The fixed-size part of an event, as the kernel stamped it.
#[derive(Debug, Clone, Copy)]
pub struct EventHeader {
    /// Nanoseconds since the Unix epoch (`CLOCK_REALTIME`).
    pub timestamp: u64,
    /// Per-CPU, per-boot monotonic sequence (a gap signals lost events).
    pub sequence: u64,
    /// The id of the CPU that stamped the event.
    pub cpu_id: u16,
    /// The discriminant of the event's origin.
    pub origin_class: u8,
    /// The effective token's identity GUID.
    pub effective_token_guid: [u8; 16],
    /// The true (real) token's identity GUID.
    pub true_token_guid: [u8; 16],
    /// The originating process's identity GUID.
    pub process_guid: [u8; 16],
}

/// An all-zero header, to be filled by a read.
pub fn zeroed_event() -> (h: EventHeader)
    ensures
        h.timestamp == 0,
        h.sequence == 0,
        h.cpu_id == 0,
        h.origin_class == 0,
        forall|i: int| 0 <= i < 16 ==> #[trigger] h.effective_token_guid@[i] == 0,
        forall|i: int| 0 <= i < 16 ==> #[trigger] h.true_token_guid@[i] == 0,
        forall|i: int| 0 <= i < 16 ==> #[trigger] h.process_guid@[i] == 0,
{
    EventHeader {
        timestamp: 0,
        sequence: 0,
        cpu_id: 0,
        origin_class: 0,
        effective_token_guid: [0u8; 16],
        true_token_guid: [0u8; 16],
        process_guid: [0u8; 16],
    }
}

/// A parsed event.
#[derive(Debug, Clone, Copy)]
pub struct Event<'a> {
    /// Nanoseconds since the Unix epoch (`CLOCK_REALTIME`).
    pub timestamp: u64,
    /// Per-CPU, per-boot monotonic sequence (a gap signals lost events).
    pub sequence: u64,
    /// The id of the CPU that stamped the event.
    pub cpu_id: u16,
    /// The classification of the event's origin.
    pub origin_class: OriginClass,
    /// The effective token's identity GUID.
    pub effective_token_guid: [u8; 16],
    /// The true (real) token's identity GUID.
    pub true_token_guid: [u8; 16],
    /// The originating process's identity GUID.
    pub process_guid: [u8; 16],
    /// The event kind, borrowing the ring mapping.
    pub event_type: &'a str,
    /// The MessagePack payload bytes, borrowing the ring mapping.
    pub payload: &'a [u8],
}

impl<'a> Event<'a> {
    /// Whether this is the event with the given header, kind and payload.
    pub open spec fn is_from(self, h: EventHeader, event_type: Seq<u8>, payload: Seq<u8>) -> bool {
        &&& self.timestamp == h.timestamp
        &&& self.sequence == h.sequence
        &&& self.cpu_id == h.cpu_id
        &&& self.origin_class == OriginClass::of_code(h.origin_class)
        &&& self.effective_token_guid == h.effective_token_guid
        &&& self.true_token_guid == h.true_token_guid
        &&& self.process_guid == h.process_guid
        &&& vstd::utf8::encode_utf8(self.event_type@) == event_type
        &&& self.payload@ == payload
    }

    /// The event with the given header, kind and payload. A kind that is no
    /// UTF-8 is `EINVAL`; the payload is handed on unread.
    pub fn from_raw(h: &EventHeader, event_type: &'a [u8], payload: &'a [u8]) -> (r: Result<
        Event<'a>,
    >)
        ensures
            match r {
                Ok(e) => vstd::utf8::valid_utf8(event_type@) && e.is_from(
                    *h,
                    event_type@,
                    payload@,
                )
                    && e.timestamp == h.timestamp
                    && e.sequence == h.sequence
                    && e.cpu_id == h.cpu_id
                    && e.effective_token_guid == h.effective_token_guid
                    && e.true_token_guid == h.true_token_guid
                    && e.process_guid == h.process_guid
                    && e.payload@ == payload@,
                Err(e) => !vstd::utf8::valid_utf8(event_type@) && e.errno == EINVAL,
            },
    {
        let kind = match text(event_type) {
            Ok(s) => s,
            Err(e) => return Err(e),
        };
        Ok(
            Event {
                timestamp: h.timestamp,
                sequence: h.sequence,
                cpu_id: h.cpu_id,
                origin_class: OriginClass::from_raw(h.origin_class),
                effective_token_guid: h.effective_token_guid,
                true_token_guid: h.true_token_guid,
                process_guid: h.process_guid,
                event_type: kind,
                payload,
            },
        )
    }
}

/// What the reply to a read of the next event means: `1` is an event, `0` is
/// none available right now, anything else a failure.
pub fn next_event<'a>(
    ret: i32,
    errno: i32,
    h: &EventHeader,
    event_type: &'a [u8],
    payload: &'a [u8],
) -> (r: Result<Option<Event<'a>>>)
    ensures
        match r {
            Ok(Some(e)) => ret == 1 && vstd::utf8::valid_utf8(event_type@) && e.is_from(
                *h,
                event_type@,
                payload@,
            )
                && e.timestamp == h.timestamp
                && e.sequence == h.sequence
                && e.cpu_id == h.cpu_id
                && e.effective_token_guid == h.effective_token_guid
                && e.true_token_guid == h.true_token_guid
                && e.process_guid == h.process_guid
                && e.payload@ == payload@,
            Ok(None) => ret == 0,
            Err(e) => if ret == 1 {
                !vstd::utf8::valid_utf8(event_type@) && e.errno == EINVAL
            } else {
                ret != 0 && e.errno == errno
            },
        },
{
    if ret == 1 {
        match Event::from_raw(h, event_type, payload) {
            Ok(e) => Ok(Some(e)),
            Err(e) => Err(e),
        }
    } else if ret == 0 {
        Ok(None)
    } else {
        Err(Error { errno })
    }
}

/// What the reply to a wait means: `1` is to drain now, `0` a timeout or an
/// interruption, anything else a failure.
pub fn waited(ret: i32, errno: i32) -> (r: Result<bool>)
    ensures
        r == (if ret == 1 {
            Ok::<bool, Error>(true)
        } else if ret == 0 {
            Ok::<bool, Error>(false)
        } else {
            Err::<bool, Error>(Error { errno })
        }),
{
    if ret == 1 {
        Ok(true)
    } else if ret == 0 {
        Ok(false)
    } else {
        Err(Error { errno })
    }
}

/// What the reply to a read at a position means: the event and its size, by
/// which to advance, or a failure.
pub fn event_at<'a>(
    n: isize,
    errno: i32,
    h: &EventHeader,
    event_type: &'a [u8],
    payload: &'a [u8],
) -> (r: Result<(Event<'a>, usize)>)
    ensures
        match r {
            Ok((e, size)) => n >= 0 && size == n && vstd::utf8::valid_utf8(event_type@)
                && e.is_from(*h, event_type@, payload@)
                && e.timestamp == h.timestamp
                && e.sequence == h.sequence
                && e.cpu_id == h.cpu_id
                && e.effective_token_guid == h.effective_token_guid
                && e.true_token_guid == h.true_token_guid
                && e.process_guid == h.process_guid
                && e.payload@ == payload@,
            Err(e) => if n < 0 {
                e.errno == errno
            } else {
                !vstd::utf8::valid_utf8(event_type@) && e.errno == EINVAL
            },
        },
{
    if n < 0 {
        return Err(Error { errno });
    }
    match Event::from_raw(h, event_type, payload) {
        Ok(e) => Ok((e, n as usize)),
        Err(e) => Err(e),
    }
}

/// The discriminants of the named classes, in their order from `0`; any other is
/// kept as it is.
pub proof fn law_origin_classes_by_number(v: u8)
    ensures
        OriginClass::of_code(v) == OriginClass::Userspace <==> v == 0,
        OriginClass::of_code(v) == OriginClass::Kmes <==> v == 1,
        OriginClass::of_code(v) == OriginClass::Kacs <==> v == 2,
        OriginClass::of_code(v) == OriginClass::Lcs <==> v == 3,
        OriginClass::of_code(v) == OriginClass::Other(v) <==> v > 3,
{
}

/// Emitting passes the kind's bytes and the payload as they are, each with its own
/// length, which is exact as long as it fits its argument.
pub proof fn law_emit_request_by_name(q: EmitRequest<'_>, event_type: &str, payload: &[u8])
    requires
        q.is_for(event_type, payload),
    ensures
        q.event_type@ == vstd::utf8::encode_utf8(event_type@),
        q.event_type_len == q.event_type@.len() as u16,
        q.event_type@.len() <= u16::MAX ==> q.event_type_len == q.event_type@.len(),
        q.payload@ == payload@,
        q.payload_len == payload@.len() as u32,
        payload@.len() <= u32::MAX ==> q.payload_len == payload@.len(),
{
}

/// An event holds every field of its header, unchanged and under the same name, its
/// origin as the class of the discriminant, its kind as text and its payload as it
/// is.
pub proof fn law_event_by_name(e: Event<'_>, h: EventHeader, event_type: Seq<u8>, payload: Seq<u8>)
    requires
        e.is_from(h, event_type, payload),
    ensures
        e.timestamp == h.timestamp,
        e.sequence == h.sequence,
        e.cpu_id == h.cpu_id,
        e.origin_class == OriginClass::of_code(h.origin_class),
        e.effective_token_guid == h.effective_token_guid,
        e.true_token_guid == h.true_token_guid,
        e.process_guid == h.process_guid,
        vstd::utf8::encode_utf8(e.event_type@) == event_type,
        e.payload@ == payload,
{
}

/// Headers are told apart by their events: two whose events agree agree in every
/// field.
pub proof fn law_event_keeps_header(
    a: Event<'_>,
    b: Event<'_>,
    g: EventHeader,
    h: EventHeader,
    event_type: Seq<u8>,
    payload: Seq<u8>,
)
    requires
        a.is_from(g, event_type, payload),
        b.is_from(h, event_type, payload),
        a.timestamp == b.timestamp,
        a.sequence == b.sequence,
        a.cpu_id == b.cpu_id,
        a.origin_class == b.origin_class,
        a.effective_token_guid == b.effective_token_guid,
        a.true_token_guid == b.true_token_guid,
        a.process_guid == b.process_guid,
    ensures
        g == h,
{
    law_origin_class_is_injective(g.origin_class, h.origin_class);
}

} // verus!
