//! The bytes of a compiled network file, kept as they are.
use vstd::prelude::*;

verus! {

/// The contents of a compiled network file.
#[derive(Debug)]
pub struct HefData {
    raw_data: Vec<u8>,
}

impl View for HefData {
    type V = Seq<u8>;

    closed spec fn view(&self) -> Seq<u8> {
        self.raw_data@
    }
}

impl HefData {
    /// Takes the bytes of a file; the container format is not read.
    pub fn parse(data: Vec<u8>) -> (r: Self)
        ensures
            r@ == data@,
    {
        HefData { raw_data: data }
    }

    /// The bytes.
    pub fn raw_data(&self) -> (r: &Vec<u8>)
        ensures
            r@ == self@,
    {
        &self.raw_data
    }
}

} // verus!
