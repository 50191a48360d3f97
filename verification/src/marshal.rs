//! Conversion between typed parameter values and the untyped slot of the
//! host. Floating-point numbers are held by their bit patterns, so a value
//! crosses the boundary bit for bit.

use vstd::prelude::*;
use crate::error::Violation;
use crate::kinds::ParamType;

verus! {

/// The bit pattern of one half as a 64-bit floating-point number.
pub const HALF_BITS: u64 = 0x3FE0_0000_0000_0000;

/// The bit pattern of one as a 64-bit floating-point number.
pub const ONE_BITS: u64 = 0x3FF0_0000_0000_0000;

/// The bit pattern of zero as a 64-bit floating-point number.
pub const ZERO_BITS: u64 = 0;

/// The bit pattern of positive infinity as a 64-bit floating-point number.
pub const INFINITY_BITS: u64 = 0x7FF0_0000_0000_0000;

/// A typed parameter value.
#[derive(Clone, Debug, PartialEq, Eq)]
pub enum ParamValue {
    Bool(bool),
    /// The bits of a 64-bit floating-point number.
    Double(u64),
    /// The bits of three 32-bit floating-point channels.
    Color { r: u32, g: u32, b: u32 },
    /// The bits of two 64-bit floating-point coordinates.
    Position { x: u64, y: u64 },
    /// The bytes of a text, without a terminator.
    String(Vec<u8>),
}

/// What a `ParamValue` is in contracts.
pub enum ParamValueView {
    Bool(bool),
    Double(u64),
    Color { r: u32, g: u32, b: u32 },
    Position { x: u64, y: u64 },
    String(Seq<u8>),
}

impl View for ParamValue {
    type V = ParamValueView;

    open spec fn view(&self) -> ParamValueView {
        match *self {
            ParamValue::Bool(b) => ParamValueView::Bool(b),
            ParamValue::Double(d) => ParamValueView::Double(d),
            ParamValue::Color { r, g, b } => ParamValueView::Color { r, g, b },
            ParamValue::Position { x, y } => ParamValueView::Position { x, y },
            ParamValue::String(s) => ParamValueView::String(s@),
        }
    }
}

impl ParamValueView {
    /// The kind of this value.
    pub open spec fn kind(self) -> ParamType {
        match self {
            ParamValueView::Bool(_) => ParamType::Bool,
            ParamValueView::Double(_) => ParamType::Double,
            ParamValueView::Color { .. } => ParamType::Color,
            ParamValueView::Position { .. } => ParamType::Position,
            ParamValueView::String(_) => ParamType::String,
        }
    }

    /// A text holds no zero byte; every other value is well formed.
    pub open spec fn wf(self) -> bool {
        self matches ParamValueView::String(s) ==> !s.contains(0u8)
    }
}

/// What the host's slot for one parameter holds, by its layout.
#[derive(Clone, Debug, PartialEq, Eq)]
pub enum RawSlot {
    /// One 64-bit floating-point number: the layout of a boolean and of a double.
    Scalar(u64),
    /// Three 32-bit floating-point numbers.
    Color { r: u32, g: u32, b: u32 },
    /// Two 64-bit floating-point numbers.
    Position { x: u64, y: u64 },
    /// The bytes that the slot's pointer leads to.
    String(Vec<u8>),
}

/// What a `RawSlot` is in contracts.
pub enum RawSlotView {
    Scalar(u64),
    Color { r: u32, g: u32, b: u32 },
    Position { x: u64, y: u64 },
    String(Seq<u8>),
}

impl View for RawSlot {
    type V = RawSlotView;

    open spec fn view(&self) -> RawSlotView {
        match *self {
            RawSlot::Scalar(d) => RawSlotView::Scalar(d),
            RawSlot::Color { r, g, b } => RawSlotView::Color { r, g, b },
            RawSlot::Position { x, y } => RawSlotView::Position { x, y },
            RawSlot::String(s) => RawSlotView::String(s@),
        }
    }
}

/// Whether the 64-bit floating-point number with these bits is at least one
/// half. The numbers from one half up to infinity are those whose bits, read
/// as an integer, lie between the bits of the two; a negative number has the
/// top bit set, and what lies above infinity is no number.
pub open spec fn at_least_half(bits: u64) -> bool {
    HALF_BITS <= bits <= INFINITY_BITS
}

/// The bits that a boolean is written as: one for true, zero for false.
pub open spec fn bool_bits(b: bool) -> u64 {
    if b { ONE_BITS } else { ZERO_BITS }
}

/// `n` is the place of the first zero byte of `bytes`.
pub open spec fn first_nul_at(bytes: Seq<u8>, n: int) -> bool {
    &&& 0 <= n < bytes.len()
    &&& bytes[n] == 0u8
    &&& forall|i: int| 0 <= i < n ==> bytes[i] != 0u8
}

/// The text that zero-terminated bytes hold: what stands before the first
/// zero byte. `None` where there is no zero byte.
pub open spec fn c_text(bytes: Seq<u8>) -> Option<Seq<u8>> {
    if exists|n: int| first_nul_at(bytes, n) {
        Some(bytes.take(choose|n: int| first_nul_at(bytes, n)))
    } else {
        None
    }
}

/// Whether bytes are a text as the host reads one: they end with a zero
/// byte and hold no other.
pub open spec fn is_host_text(bytes: Seq<u8>) -> bool {
    bytes.len() > 0 && first_nul_at(bytes, bytes.len() - 1)
}

/// What a slot holds when it is read as a parameter of the given kind.
pub open spec fn decode_spec(kind: ParamType, slot: RawSlotView) -> Result<ParamValueView, Violation> {
    match (kind, slot) {
        (ParamType::Bool, RawSlotView::Scalar(bits)) => Ok(ParamValueView::Bool(at_least_half(bits))),
        (ParamType::Double, RawSlotView::Scalar(bits)) => Ok(ParamValueView::Double(bits)),
        (ParamType::Color, RawSlotView::Color { r, g, b }) => Ok(ParamValueView::Color { r, g, b }),
        (ParamType::Position, RawSlotView::Position { x, y }) => Ok(ParamValueView::Position { x, y }),
        (ParamType::String, RawSlotView::String(bytes)) => match c_text(bytes) {
            Some(text) => Ok(ParamValueView::String(text)),
            None => Err(Violation::Unterminated),
        },
        _ => Err(Violation::SlotLayout),
    }
}

/// What a slot holds after a value was written to it.
pub open spec fn encode_spec(value: ParamValueView) -> RawSlotView {
    match value {
        ParamValueView::Bool(b) => RawSlotView::Scalar(bool_bits(b)),
        ParamValueView::Double(bits) => RawSlotView::Scalar(bits),
        ParamValueView::Color { r, g, b } => RawSlotView::Color { r, g, b },
        ParamValueView::Position { x, y } => RawSlotView::Position { x, y },
        ParamValueView::String(text) => RawSlotView::String(text.push(0u8)),
    }
}

/// There is at most one first zero byte.
pub proof fn first_nul_unique(bytes: Seq<u8>, n: int, m: int)
    requires
        first_nul_at(bytes, n),
        first_nul_at(bytes, m),
    ensures
        n == m,
{
    if n < m {
        assert(bytes[n] != 0u8);
    } else if m < n {
        assert(bytes[m] != 0u8);
    }
}

/// Where the first zero byte stands at `n`, the text is what stands before it.
pub proof fn c_text_at(bytes: Seq<u8>, n: int)
    requires
        first_nul_at(bytes, n),
    ensures
        c_text(bytes) == Some(bytes.take(n)),
{
    let m = choose|m: int| first_nul_at(bytes, m);
    first_nul_unique(bytes, n, m);
}

/// Bytes without a zero byte hold no text.
pub proof fn c_text_none(bytes: Seq<u8>)
    requires
        !bytes.contains(0u8),
    ensures
        c_text(bytes).is_none(),
{
    if exists|n: int| first_nul_at(bytes, n) {
        let n = choose|n: int| first_nul_at(bytes, n);
        assert(bytes.contains(bytes[n]));
    }
}

impl ParamValue {
    /// The kind of this value.
    pub fn kind(&self) -> (kind: ParamType)
        ensures
            kind == self@.kind(),
    {
        match self {
            ParamValue::Bool(_) => ParamType::Bool,
            ParamValue::Double(_) => ParamType::Double,
            ParamValue::Color { .. } => ParamType::Color,
            ParamValue::Position { .. } => ParamType::Position,
            ParamValue::String(_) => ParamType::String,
        }
    }
}

/// Whether a parameter that is declared as `declared` may be read or written
/// as one of kind `actual`: only where the two are one kind.
pub fn kind_matches(declared: ParamType, actual: ParamType) -> (same: bool)
    ensures
        same == (declared == actual),
{
    declared == actual
}

/// Reads a boolean from the bits of a 64-bit floating-point number: true
/// where the number is at least one half.
pub fn decode_bool(bits: u64) -> (b: bool)
    ensures
        b == at_least_half(bits),
{
    HALF_BITS <= bits && bits <= INFINITY_BITS
}

/// The bits of the number that a boolean is written as.
pub fn encode_bool(b: bool) -> (bits: u64)
    ensures
        bits == bool_bits(b),
        at_least_half(bits) == b,
{
    if b { ONE_BITS } else { ZERO_BITS }
}

/// Copies the text out of zero-terminated bytes.
pub fn decode_text(bytes: &Vec<u8>) -> (text: Option<Vec<u8>>)
    ensures
        match text {
            Some(t) => c_text(bytes@) == Some(t@),
            None => c_text(bytes@).is_none(),
        },
{
    let mut text: Vec<u8> = Vec::new();
    let mut i: usize = 0;
    while i < bytes.len()
        invariant
            i <= bytes.len(),
            text@ == bytes@.take(i as int),
            forall|j: int| 0 <= j < i ==> bytes@[j] != 0u8,
        decreases bytes.len() - i,
    {
        let byte = bytes[i];
        if byte == 0 {
            proof {
                c_text_at(bytes@, i as int);
            }
            return Some(text);
        }
        text.push(byte);
        assert(text@ == bytes@.take(i + 1));
        i = i + 1;
    }
    proof {
        assert(!bytes@.contains(0u8));
        c_text_none(bytes@);
    }
    None
}

/// Whether bytes are a text as the host reads one.
pub fn check_host_text(bytes: &[u8]) -> (fits: bool)
    ensures
        fits == is_host_text(bytes@),
{
    let len = bytes.len();
    if len == 0 {
        return false;
    }
    let mut i: usize = 0;
    while i < len - 1
        invariant
            len == bytes@.len(),
            len > 0,
            i <= len - 1,
            forall|j: int| 0 <= j < i ==> bytes@[j] != 0u8,
        decreases len - 1 - i,
    {
        if bytes[i] == 0 {
            return false;
        }
        i = i + 1;
    }
    bytes[len - 1] == 0
}

/// The bytes that a text is written as: its own, then a zero byte.
pub fn encode_text(text: &Vec<u8>) -> (bytes: Vec<u8>)
    ensures
        bytes@ == text@.push(0u8),
{
    let mut bytes = text.clone();
    bytes.push(0);
    bytes
}

/// Reads the slot as a parameter of the given kind.
pub fn decode(kind: ParamType, slot: &RawSlot) -> (value: Result<ParamValue, Violation>)
    ensures
        match value {
            Ok(v) => decode_spec(kind, slot@) == Ok::<ParamValueView, Violation>(v@),
            Err(e) => decode_spec(kind, slot@) == Err::<ParamValueView, Violation>(e),
        },
{
    match (kind, slot) {
        (ParamType::Bool, RawSlot::Scalar(bits)) => Ok(ParamValue::Bool(decode_bool(*bits))),
        (ParamType::Double, RawSlot::Scalar(bits)) => Ok(ParamValue::Double(*bits)),
        (ParamType::Color, RawSlot::Color { r, g, b }) => Ok(ParamValue::Color { r: *r, g: *g, b: *b }),
        (ParamType::Position, RawSlot::Position { x, y }) => Ok(ParamValue::Position { x: *x, y: *y }),
        (ParamType::String, RawSlot::String(bytes)) => match decode_text(bytes) {
            Some(text) => Ok(ParamValue::String(text)),
            None => Err(Violation::Unterminated),
        },
        _ => Err(Violation::SlotLayout),
    }
}

/// Writes the value to the slot, whatever the slot held.
pub fn encode(value: &ParamValue, slot: &mut RawSlot)
    ensures
        final(slot)@ == encode_spec(value@),
{
    *slot = match value {
        ParamValue::Bool(b) => RawSlot::Scalar(encode_bool(*b)),
        ParamValue::Double(bits) => RawSlot::Scalar(*bits),
        ParamValue::Color { r, g, b } => RawSlot::Color { r: *r, g: *g, b: *b },
        ParamValue::Position { x, y } => RawSlot::Position { x: *x, y: *y },
        ParamValue::String(text) => RawSlot::String(encode_text(text)),
    };
}

/// What is read from a slot is well formed and of the kind that was asked for.
pub proof fn decode_gives_kind(kind: ParamType, slot: RawSlotView)
    ensures
        decode_spec(kind, slot) matches Ok(value) ==> value.kind() == kind && value.wf(),
{
    if let RawSlotView::String(bytes) = slot {
        if exists|n: int| first_nul_at(bytes, n) {
            let n = choose|n: int| first_nul_at(bytes, n);
            let text = bytes.take(n);
            if text.contains(0u8) {
                let i = choose|i: int| 0 <= i < text.len() && text[i] == 0u8;
                assert(bytes[i] == 0u8);
            }
        }
    }
}

/// A value that was written to a slot is read back from it as it was: a
/// boolean as itself, numbers bit for bit, a text byte for byte.
pub proof fn decode_encode_round_trip(value: ParamValueView)
    requires
        value.wf(),
    ensures
        decode_spec(value.kind(), encode_spec(value)) == Ok::<ParamValueView, Violation>(value),
{
    match value {
        ParamValueView::String(text) => {
            let bytes = text.push(0u8);
            assert forall|i: int| 0 <= i < text.len() implies bytes[i] != 0u8 by {
                assert(text.contains(text[i]));
            }
            assert(first_nul_at(bytes, text.len() as int));
            c_text_at(bytes, text.len() as int);
            assert(bytes.take(text.len() as int) == text);
        },
        _ => {},
    }
}

/// What the host reads back after it wrote a slot is what its slot held:
/// the value that a slot decodes to is the value that the slot written from
/// it decodes to.
pub proof fn encode_keeps_what_was_decoded(kind: ParamType, slot: RawSlotView)
    requires
        decode_spec(kind, slot) is Ok,
    ensures
        decode_spec(kind, encode_spec(decode_spec(kind, slot)->Ok_0)) == decode_spec(kind, slot),
{
    decode_gives_kind(kind, slot);
    decode_encode_round_trip(decode_spec(kind, slot)->Ok_0);
}

/// What a text is written as is a text as the host reads one, and a text
/// as the host reads one holds all its bytes but the last.
pub proof fn host_text_is_terminated_text(bytes: Seq<u8>, text: Seq<u8>)
    ensures
        !text.contains(0u8) ==> is_host_text(text.push(0u8)),
        is_host_text(bytes) ==> c_text(bytes) == Some(bytes.drop_last()),
{
    if !text.contains(0u8) {
        let written = text.push(0u8);
        assert forall|i: int| 0 <= i < text.len() implies written[i] != 0u8 by {
            assert(text.contains(text[i]));
        }
    }
    if is_host_text(bytes) {
        c_text_at(bytes, bytes.len() - 1);
        assert(bytes.take(bytes.len() - 1) == bytes.drop_last());
    }
}

} // verus!
