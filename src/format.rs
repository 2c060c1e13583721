//! Element formats of tensors: element type, memory order and flags.
use crate::text::{digits, push_digits};
use vstd::prelude::*;
use vstd::string::StringExecFns;

verus! {

/// The element type of a format.
#[derive(Clone, Copy, Debug, PartialEq, Eq, Hash, Structural)]
pub enum HailoFormatType {
    Float32,
    Uint8,
    Int8,
    Float16,
    /// A raw type code that has no name here.
    Other(u32),
}

/// The memory order of a format.
#[derive(Clone, Copy, Debug, PartialEq, Eq, Hash, Structural)]
pub enum HailoFormatOrder {
    NHWC,
    NCHW,
    HailoNmsOnChip,
    HailoNmsHost,
    /// A raw order code that has no name here.
    Other(u32),
}

/// A tensor format.
#[derive(Clone, Copy, Debug, PartialEq, Eq, Structural)]
pub struct HailoFormat {
    pub format_type: HailoFormatType,
    pub format_order: HailoFormatOrder,
    /// Additional flags of the format.
    pub flags: u32,
}

/// The name of an element type.
pub open spec fn type_text(t: HailoFormatType) -> Seq<char> {
    match t {
        HailoFormatType::Float32 => "Float32"@,
        HailoFormatType::Uint8 => "Uint8"@,
        HailoFormatType::Int8 => "Int8"@,
        HailoFormatType::Float16 => "Float16"@,
        HailoFormatType::Other(v) => "Other("@ + digits(v as nat, 10) + ")"@,
    }
}

/// The name of a memory order.
pub open spec fn order_text(o: HailoFormatOrder) -> Seq<char> {
    match o {
        HailoFormatOrder::NHWC => "NHWC"@,
        HailoFormatOrder::NCHW => "NCHW"@,
        HailoFormatOrder::HailoNmsOnChip => "HailoNmsOnChip"@,
        HailoFormatOrder::HailoNmsHost => "HailoNmsHost"@,
        HailoFormatOrder::Other(v) => "Other("@ + digits(v as nat, 10) + ")"@,
    }
}

/// "Type: <type>, Order: <order>, Flags: 0x<flags in upper-case hex>".
pub open spec fn format_text(f: HailoFormat) -> Seq<char> {
    "Type: "@ + type_text(f.format_type) + ", Order: "@ + order_text(f.format_order) + ", Flags: 0x"@
        + digits(f.flags as nat, 16)
}

fn push_other(s: &mut String, v: u32)
    ensures
        final(s)@ == old(s)@ + "Other("@ + digits(v as nat, 10) + ")"@,
{
    s.append("Other(");
    push_digits(s, v, 10);
    s.append(")");
}

fn push_type(s: &mut String, t: HailoFormatType)
    ensures
        final(s)@ == old(s)@ + type_text(t),
{
    match t {
        HailoFormatType::Float32 => s.append("Float32"),
        HailoFormatType::Uint8 => s.append("Uint8"),
        HailoFormatType::Int8 => s.append("Int8"),
        HailoFormatType::Float16 => s.append("Float16"),
        HailoFormatType::Other(v) => {
            push_other(s, v);
            assert(final(s)@ =~= old(s)@ + type_text(t));
        },
    }
}

fn push_order(s: &mut String, o: HailoFormatOrder)
    ensures
        final(s)@ == old(s)@ + order_text(o),
{
    match o {
        HailoFormatOrder::NHWC => s.append("NHWC"),
        HailoFormatOrder::NCHW => s.append("NCHW"),
        HailoFormatOrder::HailoNmsOnChip => s.append("HailoNmsOnChip"),
        HailoFormatOrder::HailoNmsHost => s.append("HailoNmsHost"),
        HailoFormatOrder::Other(v) => {
            push_other(s, v);
            assert(final(s)@ =~= old(s)@ + order_text(o));
        },
    }
}

impl HailoFormat {
    /// A format of the given type, order and flags.
    pub fn new(format_type: HailoFormatType, format_order: HailoFormatOrder, flags: u32) -> (r: Self)
        ensures
            r.format_type == format_type,
            r.format_order == format_order,
            r.flags == flags,
    {
        HailoFormat { format_type, format_order, flags }
    }

    /// The element type with raw code `raw_type`.
    pub fn from_raw_type(raw_type: u32) -> (r: HailoFormatType)
        ensures
            raw_type == 0 ==> r == HailoFormatType::Float32,
            raw_type == 1 ==> r == HailoFormatType::Uint8,
            raw_type == 2 ==> r == HailoFormatType::Int8,
            raw_type == 3 ==> r == HailoFormatType::Float16,
            raw_type > 3 ==> r == HailoFormatType::Other(raw_type),
    {
        match raw_type {
            0 => HailoFormatType::Float32,
            1 => HailoFormatType::Uint8,
            2 => HailoFormatType::Int8,
            3 => HailoFormatType::Float16,
            other => HailoFormatType::Other(other),
        }
    }

    /// The memory order with raw code `raw_order`.
    pub fn from_raw_order(raw_order: u32) -> (r: HailoFormatOrder)
        ensures
            raw_order == 0 ==> r == HailoFormatOrder::NHWC,
            raw_order == 1 ==> r == HailoFormatOrder::NCHW,
            raw_order == 2 ==> r == HailoFormatOrder::HailoNmsOnChip,
            raw_order == 3 ==> r == HailoFormatOrder::HailoNmsHost,
            raw_order > 3 ==> r == HailoFormatOrder::Other(raw_order),
    {
        match raw_order {
            0 => HailoFormatOrder::NHWC,
            1 => HailoFormatOrder::NCHW,
            2 => HailoFormatOrder::HailoNmsOnChip,
            3 => HailoFormatOrder::HailoNmsHost,
            other => HailoFormatOrder::Other(other),
        }
    }

    /// A readable description of the format.
    pub fn description(&self) -> (r: String)
        ensures
            r@ == format_text(*self),
    {
        let mut s = String::from_str("Type: ");
        push_type(&mut s, self.format_type);
        s.append(", Order: ");
        push_order(&mut s, self.format_order);
        s.append(", Flags: 0x");
        push_digits(&mut s, self.flags, 16);
        s
    }
}

} // verus!
