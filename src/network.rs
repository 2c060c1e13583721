//! Decoding of raw accelerator output: bytes to typed tensors, tensors to
//! detections and poses, and the selection step of non-maximum suppression.
use crate::float_bits::{
    float_ge, is_float_of_nat, is_nan_bits, order_key, saturating_trunc, FloatBits,
};
use crate::text::str_equals;
use vstd::prelude::*;

verus! {

/// Element types that an output buffer may hold.
#[derive(Clone, Copy, Debug, PartialEq, Eq, Structural)]
pub enum DataType {
    Uint8,
    Float32,
    Uint16,
}

/// The network kinds whose output the library decodes.
#[derive(Clone, Copy, Debug, PartialEq, Eq, Structural)]
pub enum NetworkType {
    /// Object detection.
    YoloDetection,
    /// Pose estimation.
    YoloPose,
}

/// An output layer's name, raw data and element type.
#[derive(Clone, Debug)]
pub struct LayerOutput {
    pub name: String,
    pub data: Vec<u8>,
    pub data_type: DataType,
    /// The shape, as text (for instance "NHWC").
    pub shape: String,
    pub attributes: Option<String>,
}

/// The element type that a driver type name stands for.
pub open spec fn data_type_named(name: Seq<char>) -> Option<DataType> {
    if name == "UINT8"@ {
        Some(DataType::Uint8)
    } else if name == "FLOAT32"@ {
        Some(DataType::Float32)
    } else if name == "UINT16"@ {
        Some(DataType::Uint16)
    } else {
        None
    }
}

impl DataType {
    /// The element type that the driver calls `name`, if any.
    pub fn from_name(name: &str) -> (r: Option<DataType>)
        ensures
            r == data_type_named(name@),
    {
        if str_equals(name, "UINT8") {
            Some(DataType::Uint8)
        } else if str_equals(name, "FLOAT32") {
            Some(DataType::Float32)
        } else if str_equals(name, "UINT16") {
            Some(DataType::Uint16)
        } else {
            None
        }
    }
}

/// Why a buffer could not be turned into a tensor.
#[derive(Clone, Copy, Debug, PartialEq, Eq, Structural)]
pub enum DecodeError {
    /// The byte length is not a multiple of the element width.
    LengthMismatch,
    /// The pair of element types is not one that converts.
    UnsupportedConversion,
}

/// A typed tensor.
pub enum ConvertedData {
    Float32(Vec<FloatBits>),
    Uint16(Vec<u16>),
    Uint8(Vec<u8>),
}

/// The contents of a typed tensor.
pub enum ConvertedView {
    Float32(Seq<FloatBits>),
    Uint16(Seq<u16>),
    Uint8(Seq<u8>),
}

impl View for ConvertedData {
    type V = ConvertedView;

    open spec fn view(&self) -> ConvertedView {
        match self {
            ConvertedData::Float32(v) => ConvertedView::Float32(v@),
            ConvertedData::Uint16(v) => ConvertedView::Uint16(v@),
            ConvertedData::Uint8(v) => ConvertedView::Uint8(v@),
        }
    }
}

impl ConvertedData {
    /// The elements of a single-precision tensor.
    pub fn into_f32(self) -> (r: Vec<FloatBits>)
        requires
            self is Float32,
        ensures
            self@ == ConvertedView::Float32(r@),
    {
        match self {
            ConvertedData::Float32(data) => data,
            _ => Vec::new(),
        }
    }

    /// The elements of a 16-bit tensor.
    pub fn into_u16(self) -> (r: Vec<u16>)
        requires
            self is Uint16,
        ensures
            self@ == ConvertedView::Uint16(r@),
    {
        match self {
            ConvertedData::Uint16(data) => data,
            _ => Vec::new(),
        }
    }

    /// The elements of an 8-bit tensor.
    pub fn into_u8(self) -> (r: Vec<u8>)
        requires
            self is Uint8,
        ensures
            self@ == ConvertedView::Uint8(r@),
    {
        match self {
            ConvertedData::Uint8(data) => data,
            _ => Vec::new(),
        }
    }
}

/// The little-endian 32-bit word at byte `i`.
pub open spec fn le_u32_at(b: Seq<u8>, i: int) -> u32 {
    (b[i] + 0x100 * b[i + 1] + 0x10000 * b[i + 2] + 0x1000000 * b[i + 3]) as u32
}

/// The little-endian 16-bit word at byte `i`.
pub open spec fn le_u16_at(b: Seq<u8>, i: int) -> u16 {
    (b[i] + 0x100 * b[i + 1]) as u16
}

/// The buffer read as consecutive little-endian single-precision values.
pub open spec fn f32_words(b: Seq<u8>) -> Seq<FloatBits> {
    Seq::new(b.len() / 4, |k: int| FloatBits { bits: le_u32_at(b, 4 * k) })
}

/// The buffer read as consecutive little-endian 16-bit values.
pub open spec fn u16_words(b: Seq<u8>) -> Seq<u16> {
    Seq::new(b.len() / 2, |k: int| le_u16_at(b, 2 * k))
}

/// The four bytes of `w`, least significant first.
pub open spec fn le_bytes_u32(w: u32) -> Seq<u8> {
    seq![(w % 0x100) as u8, (w / 0x100 % 0x100) as u8, (w / 0x10000 % 0x100) as u8, (w / 0x1000000) as u8]
}

/// The two bytes of `w`, least significant first.
pub open spec fn le_bytes_u16(w: u16) -> Seq<u8> {
    seq![(w % 0x100) as u8, (w / 0x100) as u8]
}

/// Single-precision values written back as little-endian bytes.
pub open spec fn f32_bytes(ws: Seq<FloatBits>) -> Seq<u8>
    decreases ws.len(),
{
    if ws.len() == 0 {
        seq![]
    } else {
        f32_bytes(ws.drop_last()) + le_bytes_u32(ws.last().bits)
    }
}

/// 16-bit values written back as little-endian bytes.
pub open spec fn u16_bytes(ws: Seq<u16>) -> Seq<u8>
    decreases ws.len(),
{
    if ws.len() == 0 {
        seq![]
    } else {
        u16_bytes(ws.drop_last()) + le_bytes_u16(ws.last())
    }
}

proof fn lemma_le_u32_bytes(b0: u8, b1: u8, b2: u8, b3: u8)
    ensures
        le_bytes_u32((b0 + 0x100 * b1 + 0x10000 * b2 + 0x1000000 * b3) as u32) == seq![b0, b1, b2, b3],
{
    let w: u32 = (b0 + 0x100 * b1 + 0x10000 * b2 + 0x1000000 * b3) as u32;
    let (c0, c1, c2, c3) = (b0 as u32, b1 as u32, b2 as u32, b3 as u32);
    assert(w == c0 + 0x100 * c1 + 0x10000 * c2 + 0x1000000 * c3);
    assert(w % 0x100 == c0 && w / 0x100 % 0x100 == c1 && w / 0x10000 % 0x100 == c2 && w
        / 0x1000000 == c3) by (bit_vector)
        requires
            c0 < 0x100,
            c1 < 0x100,
            c2 < 0x100,
            c3 < 0x100,
            w == c0 + 0x100 * c1 + 0x10000 * c2 + 0x1000000 * c3,
    ;
    assert(le_bytes_u32(w) =~= seq![b0, b1, b2, b3]);
}

proof fn lemma_le_u16_bytes(b0: u8, b1: u8)
    ensures
        le_bytes_u16((b0 + 0x100 * b1) as u16) == seq![b0, b1],
{
    let w: u16 = (b0 + 0x100 * b1) as u16;
    let (c0, c1) = (b0 as u16, b1 as u16);
    assert(w % 0x100 == c0 && w / 0x100 == c1) by (bit_vector)
        requires
            c0 < 0x100,
            c1 < 0x100,
            w == c0 + 0x100 * c1,
    ;
    assert(le_bytes_u16(w) =~= seq![b0, b1]);
}

/// Reading a buffer whose length is a multiple of 4 as little-endian
/// single-precision words and writing the words back gives the buffer.
pub proof fn lemma_f32_words_round_trip(b: Seq<u8>)
    requires
        b.len() % 4 == 0,
    ensures
        f32_bytes(f32_words(b)) == b,
    decreases b.len(),
{
    if b.len() > 0 {
        let n = b.len() as int;
        let front = b.subrange(0, n - 4);
        lemma_f32_words_round_trip(front);
        assert(f32_words(b).drop_last() =~= f32_words(front));
        lemma_le_u32_bytes(b[n - 4], b[n - 3], b[n - 2], b[n - 1]);
        assert(f32_words(b).last().bits == le_u32_at(b, n - 4));
        assert(front + seq![b[n - 4], b[n - 3], b[n - 2], b[n - 1]] =~= b);
    } else {
        assert(b =~= seq![]);
    }
}

/// Reading a buffer of even length as little-endian 16-bit words and
/// writing the words back gives the buffer.
pub proof fn lemma_u16_words_round_trip(b: Seq<u8>)
    requires
        b.len() % 2 == 0,
    ensures
        u16_bytes(u16_words(b)) == b,
    decreases b.len(),
{
    if b.len() > 0 {
        let n = b.len() as int;
        let front = b.subrange(0, n - 2);
        lemma_u16_words_round_trip(front);
        assert(u16_words(b).drop_last() =~= u16_words(front));
        lemma_le_u16_bytes(b[n - 2], b[n - 1]);
        assert(front + seq![b[n - 2], b[n - 1]] =~= b);
    } else {
        assert(b =~= seq![]);
    }
}

/// Reads little-endian single-precision values; fails when the length is not
/// a multiple of 4.
pub fn parse_f32(data: &[u8]) -> (r: Result<Vec<FloatBits>, DecodeError>)
    ensures
        data@.len() % 4 != 0 <==> r is Err,
        r is Err ==> r == Err::<Vec<FloatBits>, DecodeError>(DecodeError::LengthMismatch),
        r is Ok ==> r->Ok_0@ == f32_words(data@),
{
    if data.len() % 4 != 0 {
        return Err(DecodeError::LengthMismatch);
    }
    let n = data.len() / 4;
    assert(data@.len() <= usize::MAX);
    let mut out: Vec<FloatBits> = Vec::with_capacity(n);
    let mut k: usize = 0;
    while k < n
        invariant
            n == data@.len() / 4,
            4 * n <= data@.len() <= usize::MAX,
            k <= n,
            out@ =~= f32_words(data@).take(k as int),
        decreases n - k,
    {
        let i = 4 * k;
        let w: u32 = data[i] as u32 + 0x100u32 * (data[i + 1] as u32) + 0x10000u32 * (data[i + 2] as u32)
            + 0x1000000u32 * (data[i + 3] as u32);
        out.push(FloatBits { bits: w });
        k = k + 1;
    }
    Ok(out)
}

/// Reads little-endian 16-bit values; fails when the length is odd.
pub fn parse_u16(data: &[u8]) -> (r: Result<Vec<u16>, DecodeError>)
    ensures
        data@.len() % 2 != 0 <==> r is Err,
        r is Err ==> r == Err::<Vec<u16>, DecodeError>(DecodeError::LengthMismatch),
        r is Ok ==> r->Ok_0@ == u16_words(data@),
{
    if data.len() % 2 != 0 {
        return Err(DecodeError::LengthMismatch);
    }
    let n = data.len() / 2;
    assert(data@.len() <= usize::MAX);
    let mut out: Vec<u16> = Vec::with_capacity(n);
    let mut k: usize = 0;
    while k < n
        invariant
            n == data@.len() / 2,
            2 * n <= data@.len() <= usize::MAX,
            k <= n,
            out@ =~= u16_words(data@).take(k as int),
        decreases n - k,
    {
        let i = 2 * k;
        let w: u16 = data[i] as u16 + 0x100u16 * (data[i + 1] as u16);
        out.push(w);
        k = k + 1;
    }
    Ok(out)
}

/// What converting `data`, read as `input`, to `desired` gives: the
/// supported pairs are the six between distinct types; single precision
/// truncates to integers as `as` does, integers widen exactly, and 16-bit
/// values narrow to their low byte.
pub open spec fn conversion_holds(
    data: Seq<u8>,
    input: DataType,
    desired: DataType,
    r: Result<ConvertedView, DecodeError>,
) -> bool {
    match (input, desired) {
        (DataType::Float32, DataType::Uint16) => if data.len() % 4 != 0 {
            r == Err::<ConvertedView, DecodeError>(DecodeError::LengthMismatch)
        } else {
            let w = f32_words(data);
            r == Ok::<ConvertedView, DecodeError>(
                ConvertedView::Uint16(
                    Seq::new(w.len(), |k: int| saturating_trunc(w[k].bits, 0xffff) as u16),
                ),
            )
        },
        (DataType::Float32, DataType::Uint8) => if data.len() % 4 != 0 {
            r == Err::<ConvertedView, DecodeError>(DecodeError::LengthMismatch)
        } else {
            let w = f32_words(data);
            r == Ok::<ConvertedView, DecodeError>(
                ConvertedView::Uint8(
                    Seq::new(w.len(), |k: int| saturating_trunc(w[k].bits, 0xff) as u8),
                ),
            )
        },
        (DataType::Uint16, DataType::Float32) => if data.len() % 2 != 0 {
            r == Err::<ConvertedView, DecodeError>(DecodeError::LengthMismatch)
        } else {
            let w = u16_words(data);
            &&& r is Ok
            &&& r->Ok_0 is Float32
            &&& r->Ok_0->Float32_0.len() == w.len()
            &&& forall|k: int|
                0 <= k < w.len() ==> is_float_of_nat(#[trigger] r->Ok_0->Float32_0[k].bits, w[k] as nat)
        },
        (DataType::Uint16, DataType::Uint8) => if data.len() % 2 != 0 {
            r == Err::<ConvertedView, DecodeError>(DecodeError::LengthMismatch)
        } else {
            let w = u16_words(data);
            r == Ok::<ConvertedView, DecodeError>(
                ConvertedView::Uint8(Seq::new(w.len(), |k: int| (w[k] % 0x100) as u8)),
            )
        },
        (DataType::Uint8, DataType::Float32) => {
            &&& r is Ok
            &&& r->Ok_0 is Float32
            &&& r->Ok_0->Float32_0.len() == data.len()
            &&& forall|k: int|
                0 <= k < data.len() ==> is_float_of_nat(#[trigger] r->Ok_0->Float32_0[k].bits, data[k] as nat)
        },
        (DataType::Uint8, DataType::Uint16) => r == Ok::<ConvertedView, DecodeError>(
            ConvertedView::Uint16(Seq::new(data.len(), |k: int| data[k] as u16)),
        ),
        _ => r == Err::<ConvertedView, DecodeError>(DecodeError::UnsupportedConversion),
    }
}

/// The view of a conversion result.
pub open spec fn converted_view(r: Result<ConvertedData, DecodeError>) -> Result<ConvertedView, DecodeError> {
    match r {
        Ok(c) => Ok(c@),
        Err(e) => Err(e),
    }
}

fn floats_to_u16(w: &Vec<FloatBits>) -> (r: Vec<u16>)
    ensures
        r@ == Seq::new(w@.len(), |k: int| saturating_trunc(w@[k].bits, 0xffff) as u16),
{
    let mut out: Vec<u16> = Vec::with_capacity(w.len());
    let mut k: usize = 0;
    while k < w.len()
        invariant
            k <= w@.len(),
            out@ =~= Seq::new(k as nat, |j: int| saturating_trunc(w@[j].bits, 0xffff) as u16),
        decreases w@.len() - k,
    {
        out.push(w[k].to_u16());
        k = k + 1;
    }
    out
}

fn floats_to_u8(w: &Vec<FloatBits>) -> (r: Vec<u8>)
    ensures
        r@ == Seq::new(w@.len(), |k: int| saturating_trunc(w@[k].bits, 0xff) as u8),
{
    let mut out: Vec<u8> = Vec::with_capacity(w.len());
    let mut k: usize = 0;
    while k < w.len()
        invariant
            k <= w@.len(),
            out@ =~= Seq::new(k as nat, |j: int| saturating_trunc(w@[j].bits, 0xff) as u8),
        decreases w@.len() - k,
    {
        out.push(w[k].to_u8());
        k = k + 1;
    }
    out
}

fn u16s_to_floats(w: &Vec<u16>) -> (r: Vec<FloatBits>)
    ensures
        r@.len() == w@.len(),
        forall|k: int| 0 <= k < w@.len() ==> is_float_of_nat(#[trigger] r@[k].bits, w@[k] as nat),
{
    let mut out: Vec<FloatBits> = Vec::with_capacity(w.len());
    let mut k: usize = 0;
    while k < w.len()
        invariant
            k <= w@.len(),
            out@.len() == k,
            forall|j: int| 0 <= j < k ==> is_float_of_nat(#[trigger] out@[j].bits, w@[j] as nat),
        decreases w@.len() - k,
    {
        out.push(FloatBits::from_u16(w[k]));
        k = k + 1;
    }
    out
}

fn u16s_to_u8(w: &Vec<u16>) -> (r: Vec<u8>)
    ensures
        r@ == Seq::new(w@.len(), |k: int| (w@[k] % 0x100) as u8),
{
    let mut out: Vec<u8> = Vec::with_capacity(w.len());
    let mut k: usize = 0;
    while k < w.len()
        invariant
            k <= w@.len(),
            out@ =~= Seq::new(k as nat, |j: int| (w@[j] % 0x100) as u8),
        decreases w@.len() - k,
    {
        out.push((w[k] % 0x100) as u8);
        k = k + 1;
    }
    out
}

fn bytes_to_floats(data: &[u8]) -> (r: Vec<FloatBits>)
    ensures
        r@.len() == data@.len(),
        forall|k: int| 0 <= k < data@.len() ==> is_float_of_nat(#[trigger] r@[k].bits, data@[k] as nat),
{
    let mut out: Vec<FloatBits> = Vec::with_capacity(data.len());
    let mut k: usize = 0;
    while k < data.len()
        invariant
            k <= data@.len(),
            out@.len() == k,
            forall|j: int| 0 <= j < k ==> is_float_of_nat(#[trigger] out@[j].bits, data@[j] as nat),
        decreases data@.len() - k,
    {
        out.push(FloatBits::from_u8(data[k]));
        k = k + 1;
    }
    out
}

fn bytes_to_u16(data: &[u8]) -> (r: Vec<u16>)
    ensures
        r@ == Seq::new(data@.len(), |k: int| data@[k] as u16),
{
    let mut out: Vec<u16> = Vec::with_capacity(data.len());
    let mut k: usize = 0;
    while k < data.len()
        invariant
            k <= data@.len(),
            out@ =~= Seq::new(k as nat, |j: int| data@[j] as u16),
        decreases data@.len() - k,
    {
        out.push(data[k] as u16);
        k = k + 1;
    }
    out
}

/// Converts a raw buffer holding `input` elements to a tensor of `desired`
/// elements.
pub fn convert_data(data: &[u8], input: DataType, desired: DataType) -> (r: Result<
    ConvertedData,
    DecodeError,
>)
    ensures
        conversion_holds(data@, input, desired, converted_view(r)),
{
    match (input, desired) {
        (DataType::Float32, DataType::Uint16) => match parse_f32(data) {
            Ok(w) => Ok(ConvertedData::Uint16(floats_to_u16(&w))),
            Err(e) => Err(e),
        },
        (DataType::Float32, DataType::Uint8) => match parse_f32(data) {
            Ok(w) => Ok(ConvertedData::Uint8(floats_to_u8(&w))),
            Err(e) => Err(e),
        },
        (DataType::Uint16, DataType::Float32) => match parse_u16(data) {
            Ok(w) => Ok(ConvertedData::Float32(u16s_to_floats(&w))),
            Err(e) => Err(e),
        },
        (DataType::Uint16, DataType::Uint8) => match parse_u16(data) {
            Ok(w) => Ok(ConvertedData::Uint8(u16s_to_u8(&w))),
            Err(e) => Err(e),
        },
        (DataType::Uint8, DataType::Float32) => Ok(ConvertedData::Float32(bytes_to_floats(data))),
        (DataType::Uint8, DataType::Uint16) => Ok(ConvertedData::Uint16(bytes_to_u16(data))),
        _ => Err(DecodeError::UnsupportedConversion),
    }
}

/// One detected box.
#[derive(Clone, Copy, Debug, PartialEq)]
pub struct Detection {
    /// The class the box belongs to.
    pub class_id: u32,
    /// The confidence score.
    pub confidence: FloatBits,
    /// The box as (x_min, y_min, x_max, y_max).
    pub bbox: (FloatBits, FloatBits, FloatBits, FloatBits),
}

/// Settings of a detection network's output.
#[derive(Clone, Copy, Debug, PartialEq, Eq, Structural)]
pub struct YoloDetection {
    /// Number of classes in the output, in order.
    pub num_classes: usize,
    /// Most boxes taken from one class.
    pub max_bboxes_per_class: usize,
    /// Least confidence of a box that is kept.
    pub threshold: FloatBits,
}

/// Conditions that decoding reports and goes on past.
#[derive(Clone, Copy, Debug, PartialEq, Eq, Structural)]
pub enum DecodeWarning {
    /// A class declared more boxes than the cap; only the cap was read.
    BoxCountTruncated { class_id: usize, declared: usize, max: usize },
    /// The buffer ended inside a box of this class.
    IncompleteBox { class_id: usize },
}

/// The box whose five values start at `off`.
pub open spec fn detection_at(data: Seq<FloatBits>, class_id: u32, off: int) -> Detection {
    Detection {
        class_id,
        confidence: data[off + 4],
        bbox: (data[off], data[off + 1], data[off + 2], data[off + 3]),
    }
}

/// Up to `left` boxes read from `off`: the ones that meet `thr`, the offset
/// after the last box read, and whether the buffer ended before a box.
pub open spec fn class_boxes(
    data: Seq<FloatBits>,
    class_id: u32,
    off: nat,
    left: nat,
    thr: FloatBits,
) -> (Seq<Detection>, nat, bool)
    decreases left,
{
    if left == 0 {
        (seq![], off, false)
    } else if off + 5 > data.len() {
        (seq![], off, true)
    } else {
        let d = detection_at(data, class_id, off as int);
        let rest = class_boxes(data, class_id, off + 5, (left - 1) as nat, thr);
        (if float_ge(d.confidence, thr) {
            seq![d] + rest.0
        } else {
            rest.0
        }, rest.1, rest.2)
    }
}

/// The box count of a class as declared in the buffer (`value as usize`).
pub open spec fn declared_count(v: FloatBits) -> nat {
    saturating_trunc(v.bits, usize::MAX as nat)
}

/// The warnings of one class.
pub open spec fn class_warnings(cls: nat, declared: nat, max: nat, short: bool) -> Seq<DecodeWarning> {
    (if declared > max {
        seq![DecodeWarning::BoxCountTruncated { class_id: cls as usize, declared: declared as usize, max: max as usize }]
    } else {
        seq![]
    }) + (if short {
        seq![DecodeWarning::IncompleteBox { class_id: cls as usize }]
    } else {
        seq![]
    })
}

/// Classes `cls ..` read from `off`: each is a count followed by that many
/// boxes of five values, the count capped at `max`; decoding stops at the
/// end of the buffer. Gives the kept boxes and the warnings.
///
/// When a count is over the cap, only the capped number of boxes is read and
/// the next class starts right after them: the boxes past the cap are taken
/// to be absent from the buffer, not skipped.
pub open spec fn decode_classes(
    data: Seq<FloatBits>,
    num_classes: nat,
    max: nat,
    thr: FloatBits,
    cls: nat,
    off: nat,
) -> (Seq<Detection>, Seq<DecodeWarning>)
    decreases num_classes - cls,
{
    if cls >= num_classes || off >= data.len() {
        (seq![], seq![])
    } else {
        let declared = declared_count(data[off as int]);
        let count = if declared > max {
            max
        } else {
            declared
        };
        let b = class_boxes(data, cls as u32, off + 1, count, thr);
        let rest = decode_classes(data, num_classes, max, thr, cls + 1, b.1);
        (b.0 + rest.0, class_warnings(cls, declared, max, b.2) + rest.1)
    }
}

/// Reads up to `count` boxes of `class_id` from `off`, appending those that
/// meet `thr` to `dets`; gives the offset after the last box read and
/// whether the buffer ended before a box.
fn read_boxes(
    data: &[FloatBits],
    class_id: u32,
    off: usize,
    count: usize,
    thr: FloatBits,
    dets: &mut Vec<Detection>,
) -> (r: (usize, bool))
    requires
        off <= data@.len(),
    ensures
        final(dets)@ == old(dets)@ + class_boxes(data@, class_id, off as nat, count as nat, thr).0,
        r.0 == class_boxes(data@, class_id, off as nat, count as nat, thr).1,
        r.1 == class_boxes(data@, class_id, off as nat, count as nat, thr).2,
        r.0 <= data@.len(),
{
    let ghost b = class_boxes(data@, class_id, off as nat, count as nat, thr);
    let ghost base = dets@;
    let mut off = off;
    let mut k: usize = 0;
    let mut short = false;
    while k < count && !short
        invariant
            off <= data@.len(),
            k <= count,
            dets@ + (if short {
                seq![]
            } else {
                class_boxes(data@, class_id, off as nat, (count - k) as nat, thr).0
            }) == base + b.0,
            (if short {
                off as nat
            } else {
                class_boxes(data@, class_id, off as nat, (count - k) as nat, thr).1
            }) == b.1,
            (if short {
                true
            } else {
                class_boxes(data@, class_id, off as nat, (count - k) as nat, thr).2
            }) == b.2,
        decreases count - k + (if short {
            0int
        } else {
            1int
        }),
    {
        if data.len() - off < 5 {
            short = true;
            assert(dets@ + seq![] =~= dets@);
        } else {
            let d = Detection {
                class_id,
                confidence: data[off + 4],
                bbox: (data[off], data[off + 1], data[off + 2], data[off + 3]),
            };
            let ghost rest = class_boxes(data@, class_id, (off + 5) as nat, (count - k - 1) as nat, thr);
            if d.confidence.ge(thr) {
                assert(dets@.push(d) + rest.0 =~= dets@ + (seq![d] + rest.0));
                dets.push(d);
            }
            off = off + 5;
            k = k + 1;
        }
    }
    proof {
        assert(dets@ + seq![] =~= dets@);
    }
    (off, short)
}

impl YoloDetection {
    /// What this configuration decodes from `data`.
    pub open spec fn decoded(&self, data: Seq<FloatBits>) -> (Seq<Detection>, Seq<DecodeWarning>) {
        decode_classes(
            data,
            self.num_classes as nat,
            self.max_bboxes_per_class as nat,
            self.threshold,
            0,
            0,
        )
    }

    /// Decodes per-class boxes, with the warnings met on the way.
    pub fn decode(&self, data: &[FloatBits]) -> (r: (Vec<Detection>, Vec<DecodeWarning>))
        ensures
            r.0@ == self.decoded(data@).0,
            r.1@ == self.decoded(data@).1,
    {
        let mut dets: Vec<Detection> = Vec::new();
        let mut warns: Vec<DecodeWarning> = Vec::new();
        let mut off: usize = 0;
        let mut cls: usize = 0;
        let ghost total = self.decoded(data@);
        let ghost n = self.num_classes as nat;
        let ghost m = self.max_bboxes_per_class as nat;
        let thr = self.threshold;
        while cls < self.num_classes && off < data.len()
            invariant
                off <= data@.len(),
                cls <= self.num_classes,
                thr == self.threshold,
                n == self.num_classes,
                m == self.max_bboxes_per_class,
                total == self.decoded(data@),
                dets@ + decode_classes(data@, n, m, thr, cls as nat, off as nat).0 == total.0,
                warns@ + decode_classes(data@, n, m, thr, cls as nat, off as nat).1 == total.1,
            decreases self.num_classes - cls,
        {
            let ghost start = off as nat;
            let ghost base_d = dets@;
            let ghost base_w = warns@;
            let declared = data[off].to_usize();
            let count = if declared > self.max_bboxes_per_class {
                self.max_bboxes_per_class
            } else {
                declared
            };
            let ghost b = class_boxes(data@, cls as u32, start + 1, count as nat, thr);
            if declared > self.max_bboxes_per_class {
                warns.push(
                    DecodeWarning::BoxCountTruncated {
                        class_id: cls,
                        declared,
                        max: self.max_bboxes_per_class,
                    },
                );
            }
            let (end, short) = read_boxes(data, cls as u32, off + 1, count, thr, &mut dets);
            off = end;
            if short {
                warns.push(DecodeWarning::IncompleteBox { class_id: cls });
            }
            proof {
                let rest = decode_classes(data@, n, m, thr, (cls + 1) as nat, off as nat);
                assert(dets@ =~= base_d + b.0);
                assert(warns@ =~= base_w + class_warnings(cls as nat, declared as nat, m, b.2));
                assert(base_d + (b.0 + rest.0) =~= dets@ + rest.0);
                assert(base_w + (class_warnings(cls as nat, declared as nat, m, b.2) + rest.1)
                    =~= warns@ + rest.1);
            }
            cls = cls + 1;
        }
        proof {
            assert(dets@ + seq![] =~= dets@);
            assert(warns@ + seq![] =~= warns@);
        }
        (dets, warns)
    }

}

/// Settings of a pose network's output.
#[derive(Clone, Copy, Debug, PartialEq, Eq, Structural)]
pub struct YoloPose {
    /// Keypoints in one pose record.
    pub num_keypoints: usize,
    /// Least confidence of a kept box, and of a keypoint that makes a
    /// record a pose.
    pub threshold: FloatBits,
    /// Most boxes read.
    pub max_bboxes_per_class: usize,
}

/// One pose.
#[derive(Clone, Debug, PartialEq)]
pub struct Pose {
    /// The (x, y) of each keypoint, in record order.
    pub keypoints: Vec<(FloatBits, FloatBits)>,
    /// The confidence given to the pose.
    pub confidence: FloatBits,
}

/// The contents of a pose.
pub struct PoseView {
    pub keypoints: Seq<(FloatBits, FloatBits)>,
    pub confidence: FloatBits,
}

impl View for Pose {
    type V = PoseView;

    open spec fn view(&self) -> PoseView {
        PoseView { keypoints: self.keypoints@, confidence: self.confidence }
    }
}

/// The boxes and poses of one pose-network output.
#[derive(Clone, Debug, PartialEq)]
pub struct DetectionAndPose {
    pub detections: Vec<Detection>,
    pub poses: Vec<Pose>,
}

/// The (x, y) of the keypoints of the record at `off`.
pub open spec fn keypoints_at(data: Seq<FloatBits>, off: int, nk: nat) -> Seq<(FloatBits, FloatBits)> {
    Seq::new(nk, |i: int| (data[off + 3 * i], data[off + 3 * i + 1]))
}

/// Keypoint `i` of the record at `off` meets `thr`.
pub open spec fn keypoint_meets(data: Seq<FloatBits>, off: int, i: int, thr: FloatBits) -> bool {
    float_ge(data[off + 3 * i + 2], thr)
}

/// The records of `nk` (x, y, confidence) triples from `off` to the last
/// whole record; a record is a pose when one of its keypoints meets `thr`,
/// and the pose's confidence is `thr`.
pub open spec fn pose_records(data: Seq<FloatBits>, off: nat, nk: nat, thr: FloatBits) -> Seq<PoseView>
    decreases data.len() - off,
{
    if nk == 0 || off + 3 * nk > data.len() {
        seq![]
    } else {
        let rest = pose_records(data, off + 3 * nk, nk, thr);
        if exists|i: int| 0 <= i < nk && #[trigger] keypoint_meets(data, off as int, i, thr) {
            seq![PoseView { keypoints: keypoints_at(data, off as int, nk), confidence: thr }] + rest
        } else {
            rest
        }
    }
}

/// The views of a sequence of poses.
pub open spec fn pose_views(p: Seq<Pose>) -> Seq<PoseView> {
    p.map_values(|q: Pose| q@)
}

impl YoloPose {
    /// The boxes read: a leading count capped at `max_bboxes_per_class`, then
    /// that many boxes of class 0; with the offset after them.
    pub open spec fn decoded_boxes(&self, data: Seq<FloatBits>) -> (Seq<Detection>, nat, bool) {
        if data.len() == 0 {
            (seq![], 0, false)
        } else {
            let declared = declared_count(data[0]);
            let count = if declared > self.max_bboxes_per_class {
                self.max_bboxes_per_class as nat
            } else {
                declared
            };
            class_boxes(data, 0, 1, count, self.threshold)
        }
    }

    /// The poses read after the boxes.
    pub open spec fn decoded_poses(&self, data: Seq<FloatBits>) -> Seq<PoseView> {
        pose_records(data, self.decoded_boxes(data).1, self.num_keypoints as nat, self.threshold)
    }

}

/// The ordering key of a detection's confidence.
pub open spec fn confidence_key(d: Detection) -> int {
    order_key(d.confidence.bits)
}

/// No confidence is NaN, so all of them compare.
pub open spec fn confidences_ordered(s: Seq<Detection>) -> bool {
    forall|i: int| 0 <= i < s.len() ==> !is_nan_bits(#[trigger] s[i].confidence.bits)
}

/// Confidence does not increase along `s`.
pub open spec fn sorted_by_confidence(s: Seq<Detection>) -> bool {
    forall|i: int, j: int|
        0 <= i < j < s.len() ==> confidence_key(#[trigger] s[i]) >= confidence_key(#[trigger] s[j])
}

/// Sorts by descending confidence, keeping the same boxes.
pub fn sort_by_confidence(detections: &mut Vec<Detection>)
    requires
        confidences_ordered(old(detections)@),
    ensures
        final(detections)@.to_multiset() == old(detections)@.to_multiset(),
        sorted_by_confidence(final(detections)@),
        confidences_ordered(final(detections)@),
{
    broadcast use vstd::seq_lib::group_to_multiset_ensures;

    let mut out: Vec<Detection> = Vec::new();
    let mut k: usize = 0;
    while k < detections.len()
        invariant
            k <= detections@.len(),
            confidences_ordered(detections@),
            out@.to_multiset() == detections@.take(k as int).to_multiset(),
            sorted_by_confidence(out@),
            confidences_ordered(out@),
        decreases detections@.len() - k,
    {
        let d = detections[k];
        let mut p: usize = 0;
        while p < out.len() && out[p].confidence.ge(d.confidence)
            invariant
                p <= out@.len(),
                !is_nan_bits(d.confidence.bits),
                confidences_ordered(out@),
                forall|i: int| 0 <= i < p ==> confidence_key(#[trigger] out@[i]) >= confidence_key(d),
            decreases out@.len() - p,
        {
            p = p + 1;
        }
        proof {
            if p < out@.len() {
                assert(confidence_key(out@[p as int]) < confidence_key(d));
            }
            vstd::seq_lib::to_multiset_insert(out@, p as int, d);
            vstd::seq_lib::to_multiset_build(detections@.take(k as int), d);
            assert(detections@.take(k as int).push(d) =~= detections@.take(k + 1));
        }
        let ghost before = out@;
        out.insert(p, d);
        assert(out@ == before.insert(p as int, d));
        k = k + 1;
    }
    proof {
        assert(detections@.take(detections@.len() as int) =~= detections@);
    }
    *detections = out;
}

/// The rows of an overlap matrix as sequences.
pub open spec fn matrix_view(m: Seq<Vec<bool>>) -> Seq<Seq<bool>> {
    m.map_values(|row: Vec<bool>| row@)
}

/// `ov` is an `n` by `n` matrix.
pub open spec fn is_square(ov: Seq<Seq<bool>>, n: nat) -> bool {
    ov.len() == n && forall|i: int| 0 <= i < n ==> (#[trigger] ov[i]).len() == n
}

/// Which of the first `n` boxes survive suppression: a box survives when
/// no surviving box before it overlaps it (`ov[i][j]`: box `i` suppresses
/// box `j`).
pub open spec fn survivors(ov: Seq<Seq<bool>>, n: nat) -> Seq<bool>
    decreases n,
{
    if n == 0 {
        seq![]
    } else {
        let prev = survivors(ov, (n - 1) as nat);
        prev.push(!exists|i: int| 0 <= i < n - 1 && prev[i] && #[trigger] ov[i][n - 1])
    }
}

/// The boxes of `d` whose flag in `keep` is set, in order.
pub open spec fn kept(d: Seq<Detection>, keep: Seq<bool>) -> Seq<Detection>
    decreases d.len(),
{
    if d.len() == 0 || keep.len() == 0 {
        seq![]
    } else {
        let front = kept(d.drop_last(), keep.drop_last());
        if keep.last() {
            front.push(d.last())
        } else {
            front
        }
    }
}

proof fn lemma_survivors_len(ov: Seq<Seq<bool>>, n: nat)
    ensures
        survivors(ov, n).len() == n,
    decreases n,
{
    if n > 0 {
        lemma_survivors_len(ov, (n - 1) as nat);
    }
}

proof fn lemma_survivors_prefix(ov: Seq<Seq<bool>>, m: nat, n: nat)
    requires
        m <= n,
    ensures
        forall|t: int| 0 <= t < m ==> survivors(ov, n)[t] == #[trigger] survivors(ov, m)[t],
    decreases n,
{
    lemma_survivors_len(ov, m);
    if m < n {
        lemma_survivors_prefix(ov, m, (n - 1) as nat);
        lemma_survivors_len(ov, (n - 1) as nat);
    }
}

/// Keeps, in order, the boxes that no kept earlier box overlaps; `overlaps`
/// tells for each pair whether the first suppresses the second.
pub fn suppress_overlapping(detections: &Vec<Detection>, overlaps: &Vec<Vec<bool>>) -> (r: Vec<
    Detection,
>)
    requires
        is_square(matrix_view(overlaps@), detections@.len()),
    ensures
        r@ == kept(detections@, survivors(matrix_view(overlaps@), detections@.len())),
{
    let ghost ov = matrix_view(overlaps@);
    let n = detections.len();
    let mut keep: Vec<bool> = Vec::new();
    let mut out: Vec<Detection> = Vec::new();
    let mut j: usize = 0;
    while j < n
        invariant
            n == detections@.len(),
            j <= n,
            ov == matrix_view(overlaps@),
            is_square(ov, n as nat),
            keep@ == survivors(ov, j as nat),
            out@ == kept(detections@.take(j as int), keep@),
        decreases n - j,
    {
        proof {
            lemma_survivors_len(ov, j as nat);
        }
        let mut ok = true;
        let mut i: usize = 0;
        while i < j
            invariant
                i <= j,
                j < n,
                ov == matrix_view(overlaps@),
                is_square(ov, n as nat),
                keep@.len() == j,
                ok == !exists|t: int| 0 <= t < i && keep@[t] && #[trigger] ov[t][j as int],
            decreases j - i,
        {
            assert(overlaps@[i as int]@ == ov[i as int]);
            if keep[i] && overlaps[i][j] {
                ok = false;
            }
            i = i + 1;
        }
        let ghost old_keep = keep@;
        let ghost old_out = out@;
        keep.push(ok);
        if ok {
            out.push(detections[j]);
        }
        proof {
            assert(keep@.drop_last() =~= old_keep);
            assert(detections@.take(j + 1).drop_last() =~= detections@.take(j as int));
        }
        j = j + 1;
    }
    proof {
        assert(detections@.take(n as int) =~= detections@);
    }
    out
}

proof fn lemma_kept_contained(d: Seq<Detection>, keep: Seq<bool>)
    ensures
        forall|x: Detection| #[trigger] kept(d, keep).contains(x) ==> d.contains(x),
    decreases d.len(),
{
    if d.len() > 0 && keep.len() > 0 {
        lemma_kept_contained(d.drop_last(), keep.drop_last());
        assert forall|x: Detection| kept(d, keep).contains(x) implies d.contains(x) by {
            let front = kept(d.drop_last(), keep.drop_last());
            if front.contains(x) {
                assert(d.drop_last().contains(x));
                let i = choose|i: int| 0 <= i < d.drop_last().len() && d.drop_last()[i] == x;
                assert(d[i] == x);
            } else {
                assert(x == d.last());
                assert(d[d.len() - 1] == x);
            }
        }
    }
}

proof fn lemma_kept_sorted(d: Seq<Detection>, keep: Seq<bool>)
    requires
        sorted_by_confidence(d),
    ensures
        sorted_by_confidence(kept(d, keep)),
    decreases d.len(),
{
    if d.len() > 0 && keep.len() > 0 {
        let front = kept(d.drop_last(), keep.drop_last());
        assert(sorted_by_confidence(d.drop_last()));
        lemma_kept_sorted(d.drop_last(), keep.drop_last());
        lemma_kept_contained(d.drop_last(), keep.drop_last());
        if keep.last() {
            let out = front.push(d.last());
            assert forall|i: int, j: int| 0 <= i < j < out.len() implies confidence_key(
                #[trigger] out[i],
            ) >= confidence_key(#[trigger] out[j]) by {
                if j == out.len() - 1 {
                    assert(out[i] == front[i]);
                    assert(front.contains(out[i]));
                    assert(d.drop_last().contains(out[i]));
                    let t = choose|t: int| 0 <= t < d.drop_last().len() && d.drop_last()[t] == out[i];
                    assert(d[t] == out[i]);
                } else {
                    assert(out[i] == front[i] && out[j] == front[j]);
                }
            }
        }
    }
}

/// Greedy suppression over boxes sorted by descending confidence gives boxes
/// of the input, still in descending confidence; no kept box is overlapped
/// by a kept box before it; and each box left out is overlapped by a kept
/// box before it.
pub proof fn lemma_suppression_laws(input: Seq<Detection>, sorted: Seq<Detection>, ov: Seq<Seq<bool>>)
    requires
        sorted.to_multiset() == input.to_multiset(),
        sorted_by_confidence(sorted),
        is_square(ov, sorted.len()),
    ensures
        ({
            let keep = survivors(ov, sorted.len());
            let out = kept(sorted, keep);
            &&& forall|x: Detection| out.contains(x) ==> input.contains(x)
            &&& sorted_by_confidence(out)
            &&& forall|i: int, j: int|
                0 <= i < j < sorted.len() && keep[i] && keep[j] ==> !ov[i][j]
            &&& forall|j: int|
                0 <= j < sorted.len() && !keep[j] ==> exists|i: int|
                    0 <= i < j && keep[i] && #[trigger] ov[i][j]
        }),
{
    broadcast use vstd::seq_lib::group_to_multiset_ensures;

    let n = sorted.len();
    let keep = survivors(ov, n);
    lemma_kept_contained(sorted, keep);
    lemma_kept_sorted(sorted, keep);
    lemma_survivors_len(ov, n);
    assert forall|x: Detection| kept(sorted, keep).contains(x) implies input.contains(x) by {
        assert(sorted.to_multiset().count(x) > 0);
    }
    assert forall|i: int, j: int| 0 <= i < j < n && keep[i] && keep[j] implies !ov[i][j] by {
        lemma_survivors_prefix(ov, (j + 1) as nat, n);
        lemma_survivors_prefix(ov, j as nat, (j + 1) as nat);
        lemma_survivors_prefix(ov, j as nat, n);
        lemma_survivors_len(ov, (j + 1) as nat);
        lemma_survivors_len(ov, j as nat);
        assert(survivors(ov, (j + 1) as nat)[j]);
        assert(survivors(ov, j as nat)[i]);
        if ov[i][j] {
            assert(0 <= i < j && survivors(ov, j as nat)[i] && ov[i][j]);
        }
    }
    assert forall|j: int| 0 <= j < n && !keep[j] implies exists|i: int|
        0 <= i < j && keep[i] && #[trigger] ov[i][j] by {
        lemma_survivors_prefix(ov, (j + 1) as nat, n);
        lemma_survivors_prefix(ov, j as nat, n);
        lemma_survivors_len(ov, j as nat);
        lemma_survivors_len(ov, (j + 1) as nat);
        assert(!survivors(ov, (j + 1) as nat)[j]);
        let i = choose|i: int| 0 <= i < j && survivors(ov, j as nat)[i] && #[trigger] ov[i][j];
        assert(keep[i]);
    }
}

/// When no box overlaps a later one, suppression keeps every box.
pub proof fn lemma_no_overlap_keeps_all(d: Seq<Detection>, ov: Seq<Seq<bool>>)
    requires
        is_square(ov, d.len()),
        forall|i: int, j: int| 0 <= i < j < d.len() ==> !ov[i][j],
    ensures
        kept(d, survivors(ov, d.len())) == d,
    decreases d.len(),
{
    if d.len() > 0 {
        let n = d.len();
        lemma_survivors_len(ov, n);
        lemma_all_survive(ov, n);
        lemma_all_survive(ov, (n - 1) as nat);
        lemma_survivors_len(ov, (n - 1) as nat);
        lemma_kept_all(d, survivors(ov, n));
    }
}

proof fn lemma_all_survive(ov: Seq<Seq<bool>>, n: nat)
    requires
        forall|i: int, j: int| 0 <= i < j < n ==> !ov[i][j],
    ensures
        forall|t: int| 0 <= t < n ==> #[trigger] survivors(ov, n)[t],
    decreases n,
{
    if n > 0 {
        lemma_all_survive(ov, (n - 1) as nat);
        lemma_survivors_len(ov, (n - 1) as nat);
    }
}

proof fn lemma_kept_all(d: Seq<Detection>, keep: Seq<bool>)
    requires
        keep.len() == d.len(),
        forall|t: int| 0 <= t < keep.len() ==> #[trigger] keep[t],
    ensures
        kept(d, keep) == d,
    decreases d.len(),
{
    if d.len() > 0 {
        lemma_kept_all(d.drop_last(), keep.drop_last());
        assert(d.drop_last().push(d.last()) =~= d);
    } else {
        assert(d =~= seq![]);
    }
}

/// A network whose single-precision output decodes into results.
pub trait Network {
    /// One decoded result.
    type Output;

    /// `out` is what this network decodes from `data`.
    spec fn parses_to(&self, data: Seq<FloatBits>, out: Seq<Self::Output>) -> bool;

    /// Decodes single-precision output; decoding always gives a result.
    fn parse_output_f32(&self, data: &[FloatBits]) -> (r: Option<Vec<Self::Output>>)
        ensures
            r is Some,
            self.parses_to(data@, r->Some_0@),
    ;
}

impl Network for YoloDetection {
    type Output = Detection;

    open spec fn parses_to(&self, data: Seq<FloatBits>, out: Seq<Detection>) -> bool {
        out == self.decoded(data).0
    }

    /// Decodes per-class boxes; the warnings of `decode` are dropped.
    fn parse_output_f32(&self, data: &[FloatBits]) -> (r: Option<Vec<Detection>>) {
        let (dets, _warnings) = self.decode(data);
        Some(dets)
    }
}

impl Network for YoloPose {
    type Output = DetectionAndPose;

    open spec fn parses_to(&self, data: Seq<FloatBits>, out: Seq<DetectionAndPose>) -> bool {
        &&& out.len() == 1
        &&& out[0].detections@ == self.decoded_boxes(data).0
        &&& pose_views(out[0].poses@) == self.decoded_poses(data)
    }

    /// Decodes the boxes and then the pose records of single-precision
    /// output. An empty buffer has neither; a configuration without keypoints
    /// reads no poses.
    fn parse_output_f32(&self, data: &[FloatBits]) -> (r: Option<Vec<DetectionAndPose>>) {
        let thr = self.threshold;
        let mut detections: Vec<Detection> = Vec::new();
        let mut off: usize = 0;
        if data.len() > 0 {
            let declared = data[0].to_usize();
            let count = if declared > self.max_bboxes_per_class {
                self.max_bboxes_per_class
            } else {
                declared
            };
            let (end, _short) = read_boxes(data, 0, 1, count, thr, &mut detections);
            off = end;
            assert(detections@ =~= self.decoded_boxes(data@).0);
        }
        let nk = self.num_keypoints;
        let ghost total = self.decoded_poses(data@);
        let mut poses: Vec<Pose> = Vec::new();
        if nk > 0 && nk <= data.len() / 3 {
            let rec = nk * 3;
            while data.len() - off >= rec
                invariant
                    off <= data@.len(),
                    nk > 0,
                    rec == 3 * nk,
                    rec <= data@.len(),
                    thr == self.threshold,
                    nk == self.num_keypoints,
                    total == self.decoded_poses(data@),
                    pose_views(poses@) + pose_records(data@, off as nat, nk as nat, thr) == total,
                decreases data@.len() - off,
            {
                assert(data@.len() <= usize::MAX);
                let mut keypoints: Vec<(FloatBits, FloatBits)> = Vec::new();
                let mut valid = false;
                let mut i: usize = 0;
                while i < nk
                    invariant
                        i <= nk,
                        rec == 3 * nk,
                        off + rec <= data@.len() <= usize::MAX,
                        keypoints@ =~= keypoints_at(data@, off as int, i as nat),
                        valid == exists|j: int| 0 <= j < i && #[trigger] keypoint_meets(data@, off as int, j, thr),
                    decreases nk - i,
                {
                    let x = data[off + 3 * i];
                    let y = data[off + 3 * i + 1];
                    let c = data[off + 3 * i + 2];
                    if c.ge(thr) {
                        assert(keypoint_meets(data@, off as int, i as int, thr));
                        valid = true;
                    }
                    keypoints.push((x, y));
                    i = i + 1;
                }
                let ghost rest = pose_records(data@, (off + rec) as nat, nk as nat, thr);
                if valid {
                    let p = Pose { keypoints, confidence: thr };
                    proof {
                        assert(pose_views(poses@.push(p)) =~= pose_views(poses@).push(p@));
                        assert(pose_views(poses@).push(p@) + rest =~= pose_views(poses@) + (seq![p@] + rest));
                    }
                    poses.push(p);
                }
                off = off + rec;
            }
        }
        proof {
            assert(pose_views(poses@) + seq![] =~= pose_views(poses@));
        }
        let mut out: Vec<DetectionAndPose> = Vec::new();
        out.push(DetectionAndPose { detections, poses });
        Some(out)
    }
}

/// `w` is what a buffer of `input` elements holds, as single-precision
/// values.
pub open spec fn float32_view_holds(data: Seq<u8>, input: DataType, w: Seq<FloatBits>) -> bool {
    match input {
        DataType::Float32 => w == f32_words(data),
        DataType::Uint16 => {
            let v = u16_words(data);
            &&& w.len() == v.len()
            &&& forall|k: int| 0 <= k < v.len() ==> is_float_of_nat(#[trigger] w[k].bits, v[k] as nat)
        },
        DataType::Uint8 => {
            &&& w.len() == data.len()
            &&& forall|k: int| 0 <= k < data.len() ==> is_float_of_nat(#[trigger] w[k].bits, data[k] as nat)
        },
    }
}

/// The byte length fits the element width of `input`.
pub open spec fn length_fits(data: Seq<u8>, input: DataType) -> bool {
    match input {
        DataType::Float32 => data.len() % 4 == 0,
        DataType::Uint16 => data.len() % 2 == 0,
        DataType::Uint8 => true,
    }
}

/// Reads a raw buffer of `input` elements as single-precision values.
pub fn to_float32(data: &[u8], input: DataType) -> (r: Result<Vec<FloatBits>, DecodeError>)
    ensures
        length_fits(data@, input) <==> r is Ok,
        r is Ok ==> float32_view_holds(data@, input, r->Ok_0@),
        r is Err ==> r->Err_0 == DecodeError::LengthMismatch,
{
    match input {
        DataType::Float32 => parse_f32(data),
        DataType::Uint16 => match parse_u16(data) {
            Ok(w) => Ok(u16s_to_floats(&w)),
            Err(e) => Err(e),
        },
        DataType::Uint8 => Ok(bytes_to_floats(data)),
    }
}

impl YoloDetection {
    /// Decodes a raw output buffer of `input` elements.
    pub fn decode_output(&self, data: &[u8], input: DataType) -> (r: Result<Vec<Detection>, DecodeError>)
        ensures
            length_fits(data@, input) <==> r is Ok,
            r is Err ==> r->Err_0 == DecodeError::LengthMismatch,
            r is Ok ==> exists|w: Seq<FloatBits>|
                float32_view_holds(data@, input, w) && r->Ok_0@ == #[trigger] self.decoded(w).0,
    {
        match to_float32(data, input) {
            Ok(w) => {
                let (dets, _warnings) = self.decode(w.as_slice());
                assert(float32_view_holds(data@, input, w@) && dets@ == self.decoded(w@).0);
                Ok(dets)
            },
            Err(e) => Err(e),
        }
    }
}

impl YoloPose {
    /// Decodes a raw output buffer of `input` elements.
    pub fn decode_output(&self, data: &[u8], input: DataType) -> (r: Result<Vec<DetectionAndPose>, DecodeError>)
        ensures
            length_fits(data@, input) <==> r is Ok,
            r is Err ==> r->Err_0 == DecodeError::LengthMismatch,
            r is Ok ==> r->Ok_0@.len() == 1 && exists|w: Seq<FloatBits>|
                float32_view_holds(data@, input, w) && r->Ok_0@[0].detections@
                    == #[trigger] self.decoded_boxes(w).0 && pose_views(r->Ok_0@[0].poses@)
                    == self.decoded_poses(w),
    {
        match to_float32(data, input) {
            Ok(w) => {
                let out = self.parse_output_f32(w.as_slice());
                match out {
                    Some(v) => Ok(v),
                    None => Ok(Vec::new()),
                }
            },
            Err(e) => Err(e),
        }
    }
}

} // verus!
