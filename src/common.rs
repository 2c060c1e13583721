//! Errors shared by the metadata model, and alignment arithmetic.
use crate::text::{digits, push_digits};
use vstd::prelude::*;
use vstd::string::StringExecFns;

verus! {

/// The batch size that selects the device default.
pub const HAILO_DEFAULT_BATCH_SIZE: u32 = 0;

/// Errors of the metadata model.
#[derive(Clone, Debug, PartialEq)]
pub enum HailoError {
    InvalidOperation(String),
    ParsingError(String),
    IoError(String),
    UnsupportedVersion(u32),
    MissingData(String),
}

/// A result whose error is a `HailoError`.
pub type HailoResult<T> = Result<T, HailoError>;

/// The text of an error: its kind, a colon, and its detail.
pub open spec fn error_message(e: HailoError) -> Seq<char> {
    match e {
        HailoError::InvalidOperation(m) => "Invalid operation: "@ + m@,
        HailoError::ParsingError(m) => "Parsing error: "@ + m@,
        HailoError::IoError(m) => "I/O error: "@ + m@,
        HailoError::UnsupportedVersion(v) => "Unsupported version: "@ + digits(v as nat, 10),
        HailoError::MissingData(m) => "Missing data: "@ + m@,
    }
}

impl HailoError {
    /// The text of the error.
    pub fn to_string(&self) -> (r: String)
        ensures
            r@ == error_message(*self),
    {
        match self {
            HailoError::InvalidOperation(m) => {
                let mut s = String::from_str("Invalid operation: ");
                s.append(m.as_str());
                s
            },
            HailoError::ParsingError(m) => {
                let mut s = String::from_str("Parsing error: ");
                s.append(m.as_str());
                s
            },
            HailoError::IoError(m) => {
                let mut s = String::from_str("I/O error: ");
                s.append(m.as_str());
                s
            },
            HailoError::UnsupportedVersion(v) => {
                let mut s = String::from_str("Unsupported version: ");
                push_digits(&mut s, *v, 10);
                s
            },
            HailoError::MissingData(m) => {
                let mut s = String::from_str("Missing data: ");
                s.append(m.as_str());
                s
            },
        }
    }
}

/// Rounds `x` up to a multiple of `alignment`; an alignment of 0 leaves `x`
/// as it is.
pub fn align_up(x: u32, alignment: u32) -> (r: u32)
    requires
        alignment == 0 || x + alignment - 1 <= u32::MAX,
    ensures
        alignment == 0 ==> r == x,
        alignment != 0 ==> r == (x + alignment - 1) / (alignment as int) * alignment,
        alignment != 0 ==> r % alignment == 0 && x <= r < x + alignment,
{
    if alignment == 0 {
        x
    } else {
        let q = (x + (alignment - 1)) / alignment;
        proof {
            let a = alignment as int;
            let s = (x + alignment - 1) as int;
            vstd::arithmetic::div_mod::lemma_fundamental_div_mod(s, a);
            vstd::arithmetic::div_mod::lemma_mod_bound(s, a);
            vstd::arithmetic::div_mod::lemma_mod_multiples_basic(q as int, a);
            vstd::arithmetic::mul::lemma_mul_is_commutative(q as int, a);
        }
        q * alignment
    }
}

/// Whether `x` is a multiple of `alignment`; everything is aligned to 0.
pub fn is_aligned(x: u32, alignment: u32) -> (r: bool)
    ensures
        r == (alignment == 0 || x % alignment == 0),
{
    if alignment == 0 {
        true
    } else {
        x % alignment == 0
    }
}

} // verus!
