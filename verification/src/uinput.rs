//! Virtual device construction and event emission.
//!
//! A virtual input device is driven through the kernel's control
//! interface in three stages: capability declarations, finalization
//! (setup then create), and event emission.  The kernel calls
//! themselves are environment effects; this module is the verified
//! core behind them.  It decides which declarations are issued and in
//! what order, validates and lays out the setup record, and serializes
//! event batches together with the mandatory synchronization marker
//! into the exact wire bytes the kernel expects.

use vstd::prelude::*;
use crate::attribute_set::{AttributeSet, iter_codes, bit_index_set};
use crate::constants::{EventType, Key, RelativeAxisType, EV_SYNCHRONIZATION, EV_KEY, EV_RELATIVE};

verus! {

/// The kernel's fixed maximum device-name length, terminator included.
pub const UINPUT_MAX_NAME_SIZE: usize = 80;

/// The USB bus type, used by the default identification record.
pub const BUS_USB: u16 = 0x03;

/// A device identification record: bus type, vendor id, product id and
/// version, each a 16-bit field.
#[derive(Clone, Copy, PartialEq, Eq, Structural, Debug, Hash)]
pub struct InputId {
    pub bustype: u16,
    pub vendor: u16,
    pub product: u16,
    pub version: u16,
}

/// The fixed sample identification used when the caller never supplies
/// one.
pub open spec fn spec_default_id() -> InputId {
    InputId { bustype: BUS_USB, vendor: 0x1234, product: 0x5678, version: 0x111 }
}

/// The identification record a builder falls back to.
pub fn default_id() -> (r: InputId)
    ensures
        r == spec_default_id(),
{
    InputId { bustype: BUS_USB, vendor: 0x1234, product: 0x5678, version: 0x111 }
}

/// One fixed-layout input event record: timestamp (seconds and
/// microseconds), event category, code and signed value.
#[derive(Clone, Copy, PartialEq, Eq, Structural, Debug, Hash)]
pub struct InputEvent {
    pub time_sec: i64,
    pub time_usec: i64,
    pub event_type: u16,
    pub code: u16,
    pub value: i32,
}

impl InputEvent {
    /// A fresh event with a zero timestamp; the kernel stamps events
    /// itself on delivery.
    pub fn new(type_: EventType, code: u16, value: i32) -> (r: InputEvent)
        ensures
            r == (InputEvent { time_sec: 0, time_usec: 0, event_type: type_.0, code, value }),
    {
        InputEvent { time_sec: 0, time_usec: 0, event_type: type_.0, code, value }
    }
}

/// The synchronization record that ends every emitted batch:
/// category `SYNCHRONIZATION`, code 0, value 0.
pub open spec fn spec_sync_event() -> InputEvent {
    InputEvent { time_sec: 0, time_usec: 0, event_type: EV_SYNCHRONIZATION, code: 0, value: 0 }
}

/// The unsigned 64-bit two's-complement image of a signed value.
pub open spec fn twos_complement_u64(v: i64) -> u64 {
    if v >= 0 {
        v as u64
    } else {
        (v + 0x1_0000_0000_0000_0000) as u64
    }
}

/// The unsigned 32-bit two's-complement image of a signed value.
pub open spec fn twos_complement_u32(v: i32) -> u32 {
    if v >= 0 {
        v as u32
    } else {
        (v + 0x1_0000_0000) as u32
    }
}

/// The two little-endian bytes of a 16-bit field.
pub open spec fn u16_le_bytes(x: u16) -> Seq<u8> {
    seq![(x & 0xff) as u8, ((x >> 8) & 0xff) as u8]
}

/// The four little-endian bytes of a 32-bit field.
pub open spec fn u32_le_bytes(x: u32) -> Seq<u8> {
    seq![
        (x & 0xff) as u8,
        ((x >> 8) & 0xff) as u8,
        ((x >> 16) & 0xff) as u8,
        ((x >> 24) & 0xff) as u8,
    ]
}

/// The eight little-endian bytes of a 64-bit field.
pub open spec fn u64_le_bytes(x: u64) -> Seq<u8> {
    seq![
        (x & 0xff) as u8,
        ((x >> 8) & 0xff) as u8,
        ((x >> 16) & 0xff) as u8,
        ((x >> 24) & 0xff) as u8,
        ((x >> 32) & 0xff) as u8,
        ((x >> 40) & 0xff) as u8,
        ((x >> 48) & 0xff) as u8,
        ((x >> 56) & 0xff) as u8,
    ]
}

/// The 24 wire bytes of one event record, field order and widths exact:
/// 8-byte seconds, 8-byte microseconds, 16-bit category, 16-bit code,
/// signed 32-bit value, all little-endian.
pub open spec fn event_bytes(e: InputEvent) -> Seq<u8> {
    u64_le_bytes(twos_complement_u64(e.time_sec)) + u64_le_bytes(twos_complement_u64(e.time_usec))
        + u16_le_bytes(e.event_type) + u16_le_bytes(e.code) + u32_le_bytes(
        twos_complement_u32(e.value),
    )
}

/// The contiguous wire bytes of a batch of event records.
pub open spec fn events_bytes(es: Seq<InputEvent>) -> Seq<u8>
    decreases es.len(),
{
    if es.len() == 0 {
        Seq::empty()
    } else {
        event_bytes(es[0]) + events_bytes(es.skip(1))
    }
}

/// One event record occupies exactly 24 wire bytes.
pub proof fn lemma_event_bytes_len(e: InputEvent)
    ensures
        event_bytes(e).len() == 24,
{
}

/// The 16-bit value a little-endian byte pair encodes.
pub open spec fn u16_from_le(b0: u8, b1: u8) -> u16 {
    (b0 + b1 * 0x100) as u16
}

/// The 32-bit value four little-endian bytes encode.
pub open spec fn u32_from_le(b0: u8, b1: u8, b2: u8, b3: u8) -> u32 {
    (b0 + b1 * 0x100 + b2 * 0x1_0000 + b3 * 0x100_0000) as u32
}

/// The 64-bit value eight little-endian bytes encode.
pub open spec fn u64_from_le(b: Seq<u8>) -> u64 {
    (b[0] + b[1] * 0x100 + b[2] * 0x1_0000 + b[3] * 0x100_0000 + b[4] * 0x1_0000_0000 + b[5]
        * 0x100_0000_0000 + b[6] * 0x1_0000_0000_0000 + b[7] * 0x100_0000_0000_0000) as u64
}

/// The signed value whose unsigned two's-complement image is given.
pub open spec fn signed_of_u64(u: u64) -> i64 {
    if u < 0x8000_0000_0000_0000 {
        u as i64
    } else {
        (u - 0x1_0000_0000_0000_0000) as i64
    }
}

/// The signed value whose unsigned two's-complement image is given.
pub open spec fn signed_of_u32(u: u32) -> i32 {
    if u < 0x8000_0000 {
        u as i32
    } else {
        (u - 0x1_0000_0000) as i32
    }
}

/// The event record 24 wire bytes decode to.
pub open spec fn decode_event(b: Seq<u8>) -> InputEvent {
    InputEvent {
        time_sec: signed_of_u64(u64_from_le(b.subrange(0, 8))),
        time_usec: signed_of_u64(u64_from_le(b.subrange(8, 16))),
        event_type: u16_from_le(b[16], b[17]),
        code: u16_from_le(b[18], b[19]),
        value: signed_of_u32(u32_from_le(b[20], b[21], b[22], b[23])),
    }
}

proof fn lemma_u64_le_round_trip(x: u64)
    ensures
        u64_from_le(u64_le_bytes(x)) == x,
{
    assert((((x & 0xff) as u8) + (((x >> 8) & 0xff) as u8) * 0x100 + (((x >> 16) & 0xff) as u8)
        * 0x1_0000 + (((x >> 24) & 0xff) as u8) * 0x100_0000 + (((x >> 32) & 0xff) as u8)
        * 0x1_0000_0000 + (((x >> 40) & 0xff) as u8) * 0x100_0000_0000 + (((x >> 48)
        & 0xff) as u8) * 0x1_0000_0000_0000 + (((x >> 56) & 0xff) as u8)
        * 0x100_0000_0000_0000) as u64 == x) by (bit_vector);
}

proof fn lemma_u16_le_round_trip(x: u16)
    ensures
        u16_from_le(u16_le_bytes(x)[0], u16_le_bytes(x)[1]) == x,
{
    assert((((x & 0xff) as u8) + (((x >> 8) & 0xff) as u8) * 0x100) as u16 == x) by (bit_vector);
}

proof fn lemma_u32_le_round_trip(x: u32)
    ensures
        u32_from_le(
            u32_le_bytes(x)[0],
            u32_le_bytes(x)[1],
            u32_le_bytes(x)[2],
            u32_le_bytes(x)[3],
        ) == x,
{
    assert((((x & 0xff) as u8) + (((x >> 8) & 0xff) as u8) * 0x100 + (((x >> 16) & 0xff) as u8)
        * 0x1_0000 + (((x >> 24) & 0xff) as u8) * 0x100_0000) as u32 == x) by (bit_vector);
}

/// Serialization loses nothing: decoding a record's wire bytes yields
/// the record, so equal wire records come from equal events and the
/// layout is exact bit for bit.
pub proof fn lemma_event_bytes_lossless(e: InputEvent)
    ensures
        decode_event(event_bytes(e)) == e,
{
    let b = event_bytes(e);
    assert(b.subrange(0, 8) =~= u64_le_bytes(twos_complement_u64(e.time_sec)));
    assert(b.subrange(8, 16) =~= u64_le_bytes(twos_complement_u64(e.time_usec)));
    lemma_u64_le_round_trip(twos_complement_u64(e.time_sec));
    lemma_u64_le_round_trip(twos_complement_u64(e.time_usec));
    lemma_u16_le_round_trip(e.event_type);
    lemma_u16_le_round_trip(e.code);
    lemma_u32_le_round_trip(twos_complement_u32(e.value));
    assert(b[16] == u16_le_bytes(e.event_type)[0] && b[17] == u16_le_bytes(e.event_type)[1]);
    assert(b[18] == u16_le_bytes(e.code)[0] && b[19] == u16_le_bytes(e.code)[1]);
    assert(b[20] == u32_le_bytes(twos_complement_u32(e.value))[0] && b[21] == u32_le_bytes(
        twos_complement_u32(e.value),
    )[1] && b[22] == u32_le_bytes(twos_complement_u32(e.value))[2] && b[23] == u32_le_bytes(
        twos_complement_u32(e.value),
    )[3]);
}

/// A batch of `n` records occupies exactly `24 * n` wire bytes.
pub proof fn lemma_events_bytes_len(es: Seq<InputEvent>)
    ensures
        events_bytes(es).len() == 24 * es.len(),
    decreases es.len(),
{
    if es.len() > 0 {
        lemma_events_bytes_len(es.skip(1));
    }
}

/// Appending a record to a batch appends its 24 bytes to the wire.
pub proof fn lemma_events_bytes_push(es: Seq<InputEvent>, e: InputEvent)
    ensures
        events_bytes(es.push(e)) == events_bytes(es) + event_bytes(e),
    decreases es.len(),
{
    if es.len() == 0 {
        assert(es.push(e).skip(1) =~= Seq::<InputEvent>::empty());
        assert(es.push(e)[0] == e);
        assert(events_bytes(es.push(e).skip(1)) == Seq::<u8>::empty());
        assert(events_bytes(es.push(e)) =~= event_bytes(e));
        assert(events_bytes(es) + event_bytes(e) =~= event_bytes(e));
    } else {
        lemma_events_bytes_push(es.skip(1), e);
        assert(es.push(e).skip(1) =~= es.skip(1).push(e));
        assert(es.push(e)[0] == es[0]);
        assert(events_bytes(es.push(e)) =~= events_bytes(es) + event_bytes(e));
    }
}

/// Record `k` of a batch stands at wire offset `24 * k`.
pub proof fn lemma_events_bytes_record_at(es: Seq<InputEvent>, k: int)
    requires
        0 <= k < es.len(),
    ensures
        events_bytes(es).subrange(24 * k, 24 * k + 24) == event_bytes(es[k]),
    decreases k,
{
    lemma_events_bytes_len(es);
    lemma_events_bytes_len(es.skip(1));
    if k == 0 {
        assert(events_bytes(es).subrange(0, 24) =~= event_bytes(es[0]));
    } else {
        lemma_events_bytes_record_at(es.skip(1), k - 1);
        assert(events_bytes(es).subrange(24 * k, 24 * k + 24) =~= events_bytes(es.skip(1)).subrange(
            24 * (k - 1),
            24 * (k - 1) + 24,
        ));
        assert(es.skip(1)[k - 1] == es[k]);
    }
}

fn twos_u64(v: i64) -> (r: u64)
    ensures
        r == twos_complement_u64(v),
{
    if v >= 0 {
        v as u64
    } else {
        let m: u64 = (-(v + 1)) as u64;
        u64::MAX - m
    }
}

fn twos_u32(v: i32) -> (r: u32)
    ensures
        r == twos_complement_u32(v),
{
    if v >= 0 {
        v as u32
    } else {
        let m: u32 = (-(v + 1)) as u32;
        u32::MAX - m
    }
}

fn push_u16_le(out: &mut Vec<u8>, x: u16)
    ensures
        final(out)@ == old(out)@ + u16_le_bytes(x),
{
    proof {
        assert((x & 0xff) < 256 && ((x >> 8) & 0xff) < 256) by (bit_vector);
    }
    out.push((x & 0xff) as u8);
    out.push(((x >> 8) & 0xff) as u8);
    proof {
        assert(final(out)@ =~= old(out)@ + u16_le_bytes(x));
    }
}

fn push_u32_le(out: &mut Vec<u8>, x: u32)
    ensures
        final(out)@ == old(out)@ + u32_le_bytes(x),
{
    proof {
        assert((x & 0xff) < 256 && ((x >> 8) & 0xff) < 256 && ((x >> 16) & 0xff) < 256 && ((x >> 24)
            & 0xff) < 256) by (bit_vector);
    }
    out.push((x & 0xff) as u8);
    out.push(((x >> 8) & 0xff) as u8);
    out.push(((x >> 16) & 0xff) as u8);
    out.push(((x >> 24) & 0xff) as u8);
    proof {
        assert(final(out)@ =~= old(out)@ + u32_le_bytes(x));
    }
}

fn push_u64_le(out: &mut Vec<u8>, x: u64)
    ensures
        final(out)@ == old(out)@ + u64_le_bytes(x),
{
    proof {
        assert((x & 0xff) < 256 && ((x >> 8) & 0xff) < 256 && ((x >> 16) & 0xff) < 256 && ((x >> 24)
            & 0xff) < 256 && ((x >> 32) & 0xff) < 256 && ((x >> 40) & 0xff) < 256 && ((x >> 48)
            & 0xff) < 256 && ((x >> 56) & 0xff) < 256) by (bit_vector);
    }
    out.push((x & 0xff) as u8);
    out.push(((x >> 8) & 0xff) as u8);
    out.push(((x >> 16) & 0xff) as u8);
    out.push(((x >> 24) & 0xff) as u8);
    out.push(((x >> 32) & 0xff) as u8);
    out.push(((x >> 40) & 0xff) as u8);
    out.push(((x >> 48) & 0xff) as u8);
    out.push(((x >> 56) & 0xff) as u8);
    proof {
        assert(final(out)@ =~= old(out)@ + u64_le_bytes(x));
    }
}

/// Append the 24 wire bytes of one event record.
pub fn push_event_bytes(out: &mut Vec<u8>, e: &InputEvent)
    ensures
        final(out)@ == old(out)@ + event_bytes(*e),
{
    let sec = twos_u64(e.time_sec);
    let usec = twos_u64(e.time_usec);
    let val = twos_u32(e.value);
    push_u64_le(out, sec);
    push_u64_le(out, usec);
    push_u16_le(out, e.event_type);
    push_u16_le(out, e.code);
    push_u32_le(out, val);
    proof {
        assert(final(out)@ =~= old(out)@ + event_bytes(*e));
    }
}

/// Serialize a batch of event records into one contiguous byte stream.
pub fn events_to_bytes(events: &[InputEvent]) -> (r: Vec<u8>)
    ensures
        r@ == events_bytes(events@),
{
    let mut out: Vec<u8> = Vec::new();
    let mut i: usize = 0;
    while i < events.len()
        invariant
            i <= events@.len(),
            out@ == events_bytes(events@.take(i as int)),
        decreases events@.len() - i,
    {
        let e = events[i];
        push_event_bytes(&mut out, &e);
        proof {
            assert(events@.take(i + 1 as int) =~= events@.take(i as int).push(events@[i as int]));
            lemma_events_bytes_push(events@.take(i as int), events@[i as int]);
        }
        i = i + 1;
    }
    proof {
        assert(events@.take(events@.len() as int) =~= events@);
    }
    out
}

/// One kernel call of the capability-declaration stage: declare an
/// event category, a key code, or a relative-axis code.
#[derive(Clone, Copy, PartialEq, Eq, Structural, Debug, Hash)]
pub enum Declaration {
    EventCategory(u16),
    KeyCode(u16),
    RelativeAxisCode(u16),
}

/// A builder-stage failure.  Environment failures of the kernel calls
/// themselves are surfaced by whoever performs them.
#[derive(Clone, Copy, PartialEq, Eq, Structural, Debug, Hash)]
pub enum BuilderError {
    /// The builder was already consumed by a finalize or an abort.
    AlreadyConsumed,
    /// The name plus its terminator does not fit the kernel's fixed
    /// name buffer; a programming error, detectable before any kernel
    /// call.
    NameTooLong,
}

/// The declarations issued for a key-capability set: the KEY category,
/// unconditionally, then one declaration per code present, in ascending
/// index order.
pub open spec fn key_declarations_spec(buf: Seq<u8>) -> Seq<Declaration> {
    seq![Declaration::EventCategory(EV_KEY)] + iter_codes::<Key>(buf).map_values(
        |k: Key| Declaration::KeyCode(k.0),
    )
}

/// The declarations issued for a relative-axis capability set, under
/// the same category-then-codes protocol.
pub open spec fn relative_axis_declarations_spec(buf: Seq<u8>) -> Seq<Declaration> {
    seq![Declaration::EventCategory(EV_RELATIVE)] + iter_codes::<RelativeAxisType>(
        buf,
    ).map_values(|a: RelativeAxisType| Declaration::RelativeAxisCode(a.0))
}

/// The name as it lies in the setup record: the caller's bytes,
/// then zero padding up to the kernel's fixed buffer size, so the
/// terminator is guaranteed by construction.
pub open spec fn padded_name(name: Seq<u8>) -> Seq<u8> {
    name + Seq::new((UINPUT_MAX_NAME_SIZE - name.len()) as nat, |i: int| 0u8)
}

/// The kernel setup record: identification block, zero-padded name
/// buffer, and a force-feedback-effects count fixed at zero.
#[derive(Clone, Debug)]
pub struct DeviceSetup {
    pub id: InputId,
    pub name: Vec<u8>,
    pub ff_effects_max: u32,
}

/// A staged, single-use configuration object for a virtual device.
///
/// The builder holds the device name and the optional identification
/// record; capability declarations are handed out as [`Declaration`]
/// plans and pushed straight to the kernel by the caller, not retained
/// as builder state.  Once consumed — by a finalize, successful or not,
/// or by an abort after a failed declaration — every further operation
/// is rejected: the builder-to-device transition is one-way.
pub struct VirtualDeviceBuilder {
    name: Vec<u8>,
    id: Option<InputId>,
    consumed: bool,
}

impl VirtualDeviceBuilder {
    /// The device name the builder holds.
    pub closed spec fn spec_name(&self) -> Seq<u8> {
        self.name@
    }

    /// The identification record the builder holds, if one was set.
    pub closed spec fn spec_id(&self) -> Option<InputId> {
        self.id
    }

    /// Whether the builder was consumed by a finalize or an abort.
    pub closed spec fn is_consumed(&self) -> bool {
        self.consumed
    }

    /// A fresh builder: empty name, no identification, not consumed.
    pub fn new() -> (r: Self)
        ensures
            !r.is_consumed(),
            r.spec_name() == Seq::<u8>::empty(),
            r.spec_id() is None,
    {
        VirtualDeviceBuilder { name: Vec::new(), id: None, consumed: false }
    }

    /// Store the device name.  No validation happens here; the length
    /// is checked at finalization.
    pub fn name(self, name: &[u8]) -> (r: Self)
        ensures
            r.spec_name() == name@,
            r.spec_id() == self.spec_id(),
            r.is_consumed() == self.is_consumed(),
    {
        VirtualDeviceBuilder {
            name: vstd::slice::slice_to_vec(name),
            id: self.id,
            consumed: self.consumed,
        }
    }

    /// Override the identification record.
    pub fn input_id(self, id: InputId) -> (r: Self)
        ensures
            r.spec_id() == Some(id),
            r.spec_name() == self.spec_name(),
            r.is_consumed() == self.is_consumed(),
    {
        VirtualDeviceBuilder { name: self.name, id: Some(id), consumed: self.consumed }
    }

    /// The declarations for a key-capability set: first the KEY
    /// category, then one per code present.  A consumed builder
    /// declares nothing.
    ///
    /// A single failed declaration aborts the whole chain: the caller
    /// performs the calls in order and, on the first failure, calls
    /// [`Self::abort`] and surfaces the error.
    pub fn with_keys(&self, keys: &AttributeSet<'_, Key>) -> (r: Result<
        Vec<Declaration>,
        BuilderError,
    >)
        requires
            keys@.len() * 8 <= usize::MAX,
        ensures
            self.is_consumed() ==> r == Err::<Vec<Declaration>, BuilderError>(
                BuilderError::AlreadyConsumed,
            ),
            !self.is_consumed() ==> (r matches Ok(ds) && ds@ == key_declarations_spec(keys@)),
    {
        if self.consumed {
            return Err(BuilderError::AlreadyConsumed);
        }
        let mut out: Vec<Declaration> = Vec::new();
        out.push(Declaration::EventCategory(EV_KEY));
        let codes = keys.iter();
        let ghost spec_codes = iter_codes::<Key>(keys@);
        let mut i: usize = 0;
        while i < codes.len()
            invariant
                i <= codes@.len(),
                codes@ == spec_codes,
                out@.len() == 1 + i,
                out@[0] == Declaration::EventCategory(EV_KEY),
                forall|j: int| 0 <= j < i ==> out@[j + 1] == Declaration::KeyCode(spec_codes[j].0),
            decreases codes@.len() - i,
        {
            out.push(Declaration::KeyCode(codes[i].0));
            i = i + 1;
        }
        proof {
            assert(out@ =~= key_declarations_spec(keys@));
        }
        Ok(out)
    }

    /// The declarations for a relative-axis capability set, under the
    /// same two-step protocol as [`Self::with_keys`].
    pub fn with_relative_axes(&self, axes: &AttributeSet<'_, RelativeAxisType>) -> (r: Result<
        Vec<Declaration>,
        BuilderError,
    >)
        requires
            axes@.len() * 8 <= usize::MAX,
        ensures
            self.is_consumed() ==> r == Err::<Vec<Declaration>, BuilderError>(
                BuilderError::AlreadyConsumed,
            ),
            !self.is_consumed() ==> (r matches Ok(ds) && ds@ == relative_axis_declarations_spec(
                axes@,
            )),
    {
        if self.consumed {
            return Err(BuilderError::AlreadyConsumed);
        }
        let mut out: Vec<Declaration> = Vec::new();
        out.push(Declaration::EventCategory(EV_RELATIVE));
        let codes = axes.iter();
        let ghost spec_codes = iter_codes::<RelativeAxisType>(axes@);
        let mut i: usize = 0;
        while i < codes.len()
            invariant
                i <= codes@.len(),
                codes@ == spec_codes,
                out@.len() == 1 + i,
                out@[0] == Declaration::EventCategory(EV_RELATIVE),
                forall|j: int|
                    0 <= j < i ==> out@[j + 1] == Declaration::RelativeAxisCode(spec_codes[j].0),
            decreases codes@.len() - i,
        {
            out.push(Declaration::RelativeAxisCode(codes[i].0));
            i = i + 1;
        }
        proof {
            assert(out@ =~= relative_axis_declarations_spec(axes@));
        }
        Ok(out)
    }

    /// Abort the chain after a failed declaration: the builder is
    /// consumed and every further operation is rejected.
    pub fn abort(&mut self)
        ensures
            final(self).is_consumed(),
            final(self).spec_name() == old(self).spec_name(),
            final(self).spec_id() == old(self).spec_id(),
    {
        self.consumed = true;
    }

    /// Finalize the builder into a live-device value.
    ///
    /// Succeeds iff the builder is fresh and the name plus its
    /// terminator fits strictly inside the kernel's fixed name buffer;
    /// the name check is made before any kernel call would be issued.
    /// The builder is consumed either way and a second finalize is
    /// rejected.
    pub fn build(&mut self) -> (r: Result<VirtualDevice, BuilderError>)
        ensures
            final(self).is_consumed(),
            old(self).is_consumed() ==> r == Err::<VirtualDevice, BuilderError>(
                BuilderError::AlreadyConsumed,
            ),
            !old(self).is_consumed() && old(self).spec_name().len() + 1 >= UINPUT_MAX_NAME_SIZE
                ==> r == Err::<VirtualDevice, BuilderError>(BuilderError::NameTooLong),
            !old(self).is_consumed() && old(self).spec_name().len() + 1 < UINPUT_MAX_NAME_SIZE ==> (
            r matches Ok(d) && d.spec_setup().id == (match old(self).spec_id() {
                Some(id) => id,
                None => spec_default_id(),
            }) && d.spec_setup().name@ == padded_name(old(self).spec_name())
                && d.spec_setup().ff_effects_max == 0),
    {
        if self.consumed {
            return Err(BuilderError::AlreadyConsumed);
        }
        self.consumed = true;
        if self.name.len() >= UINPUT_MAX_NAME_SIZE - 1 {
            return Err(BuilderError::NameTooLong);
        }
        let ghost nm = self.name@;
        let mut buf: Vec<u8> = Vec::new();
        let mut i: usize = 0;
        while i < self.name.len()
            invariant
                i <= nm.len(),
                self.name@ == nm,
                buf@ == nm.take(i as int),
            decreases nm.len() - i,
        {
            buf.push(self.name[i]);
            proof {
                assert(buf@ =~= nm.take(i + 1 as int));
            }
            i = i + 1;
        }
        proof {
            assert(buf@ =~= nm);
        }
        while buf.len() < UINPUT_MAX_NAME_SIZE
            invariant
                nm.len() <= buf@.len() <= UINPUT_MAX_NAME_SIZE,
                nm.len() + 1 < UINPUT_MAX_NAME_SIZE,
                buf@ == nm + Seq::new((buf@.len() - nm.len()) as nat, |j: int| 0u8),
            decreases UINPUT_MAX_NAME_SIZE - buf@.len(),
        {
            buf.push(0u8);
            proof {
                assert(buf@ =~= nm + Seq::new((buf@.len() - nm.len()) as nat, |j: int| 0u8));
            }
        }
        proof {
            assert(buf@ =~= padded_name(nm));
        }
        let id = match self.id {
            Some(id) => id,
            None => default_id(),
        };
        Ok(VirtualDevice { setup: DeviceSetup { id, name: buf, ff_effects_max: 0 } })
    }
}

/// The byte streams of one emission: the caller's batch as a single
/// contiguous write, then the synchronization record as a separate
/// write.  The batch write comes first; if it fails, the
/// synchronization write must not be attempted.
pub struct EmitPlan {
    pub batch: Vec<u8>,
    pub sync: Vec<u8>,
}

/// A finalized virtual device: its identity is frozen; no further
/// declarations are possible.  Releasing the kernel handle that was
/// finalized with this record destroys the device.
#[derive(Debug)]
pub struct VirtualDevice {
    setup: DeviceSetup,
}

impl VirtualDevice {
    /// The setup record the device was finalized with.
    pub closed spec fn spec_setup(&self) -> DeviceSetup {
        self.setup
    }

    /// The setup record the device was finalized with.
    pub fn setup_record(&self) -> (r: &DeviceSetup)
        ensures
            r == self.spec_setup(),
    {
        &self.setup
    }

    /// The wire bytes of one emission: the caller's events as one
    /// contiguous record stream, then exactly one synchronization
    /// record — category SYNCHRONIZATION, code 0, value 0 — which
    /// callers never supply themselves.  Without that marker the
    /// kernel surfaces none of the batch to readers.
    pub fn emit(&self, messages: &[InputEvent]) -> (r: EmitPlan)
        ensures
            r.batch@ == events_bytes(messages@),
            r.sync@ == event_bytes(spec_sync_event()),
            r.batch@ + r.sync@ == events_bytes(messages@.push(spec_sync_event())),
    {
        let batch = events_to_bytes(messages);
        let syn = InputEvent::new(EventType::synchronization(), 0, 0);
        let mut sync: Vec<u8> = Vec::new();
        push_event_bytes(&mut sync, &syn);
        proof {
            assert(sync@ =~= event_bytes(spec_sync_event()));
            lemma_events_bytes_push(messages@, spec_sync_event());
        }
        EmitPlan { batch, sync }
    }
}

/// An emitted batch of `n` events puts exactly `n + 1` records on the
/// wire: the caller's events, in order, then one synchronization
/// record.
pub proof fn lemma_emit_wire(es: Seq<InputEvent>)
    ensures
        events_bytes(es.push(spec_sync_event())).len() == 24 * (es.len() + 1),
        forall|k: int|
            0 <= k < es.len() ==> events_bytes(es.push(spec_sync_event())).subrange(
                24 * k,
                24 * k + 24,
            ) == event_bytes(es[k]),
        events_bytes(es.push(spec_sync_event())).subrange(
            24 * es.len() as int,
            24 * es.len() as int + 24,
        ) == event_bytes(spec_sync_event()),
{
    let wire = es.push(spec_sync_event());
    lemma_events_bytes_len(wire);
    assert forall|k: int| 0 <= k < es.len() implies events_bytes(wire).subrange(
        24 * k,
        24 * k + 24,
    ) == event_bytes(es[k]) by {
        lemma_events_bytes_record_at(wire, k);
    }
    lemma_events_bytes_record_at(wire, es.len() as int);
}

/// Declaring an empty capability set still declares the event category
/// — the category declaration is unconditional — and declares no codes.
pub proof fn lemma_empty_set_still_declares_category(buf: Seq<u8>)
    requires
        forall|i: int| !bit_index_set(buf, i),
    ensures
        key_declarations_spec(buf) == seq![Declaration::EventCategory(EV_KEY)],
        relative_axis_declarations_spec(buf) == seq![Declaration::EventCategory(EV_RELATIVE)],
{
    lemma_no_set_bits_no_indices(buf, buf.len() as int * 8);
    assert(key_declarations_spec(buf) =~= seq![Declaration::EventCategory(EV_KEY)]);
    assert(relative_axis_declarations_spec(buf) =~= seq![Declaration::EventCategory(EV_RELATIVE)]);
}

proof fn lemma_no_set_bits_no_indices(buf: Seq<u8>, n: int)
    requires
        forall|i: int| !bit_index_set(buf, i),
    ensures
        crate::attribute_set::set_indices_up_to(buf, n).len() == 0,
    decreases n,
{
    if n > 0 {
        lemma_no_set_bits_no_indices(buf, n - 1);
    }
}

} // verus!
