//! Where the configuration words of a context lie and how they are cut
//! into bursts.
use crate::common::HailoError;
use std::collections::HashMap;
use vstd::prelude::*;
use vstd::string::StringExecFns;

verus! {

/// The replay data of one configuration stream.
#[derive(Clone, Debug)]
pub struct ConfigBufferInfo {
    /// Sizes of the successive bursts, in bytes.
    pub bursts_sizes: Vec<u32>,
    /// Offset from the start of the configuration data of the compiled
    /// network.
    pub offset_from_hef_base: u64,
}

/// Configuration buffers by configuration stream index.
pub type ConfigBufferInfoMap = HashMap<u8, ConfigBufferInfo>;

/// The sum of the burst sizes.
pub open spec fn bursts_total(s: Seq<u32>) -> nat
    decreases s.len(),
{
    if s.len() == 0 {
        0
    } else {
        bursts_total(s.drop_last()) + s.last() as nat
    }
}

proof fn lemma_bursts_total_prefix(s: Seq<u32>, k: int)
    requires
        0 <= k <= s.len(),
    ensures
        bursts_total(s.take(k)) <= bursts_total(s),
    decreases s.len(),
{
    if k < s.len() {
        lemma_bursts_total_prefix(s.drop_last(), k);
        assert(s.drop_last().take(k) =~= s.take(k));
    } else {
        assert(s.take(k) =~= s);
    }
}

impl ConfigBufferInfo {
    /// Buffer information from its parts; nothing is checked.
    pub fn new(bursts_sizes: Vec<u32>, offset_from_hef_base: u64) -> (r: Self)
        ensures
            r.bursts_sizes@ == bursts_sizes@,
            r.offset_from_hef_base == offset_from_hef_base,
    {
        ConfigBufferInfo { bursts_sizes, offset_from_hef_base }
    }

    /// Buffer information whose bursts must add up to `stream_length`, the
    /// declared length of the configuration stream: fewer bytes are missing
    /// data, more are a parsing error.
    pub fn from_bursts(bursts_sizes: Vec<u32>, offset_from_hef_base: u64, stream_length: u64) -> (r:
        Result<Self, HailoError>)
        ensures
            bursts_total(bursts_sizes@) == stream_length <==> r is Ok,
            r is Ok ==> r->Ok_0.bursts_sizes@ == bursts_sizes@ && r->Ok_0.offset_from_hef_base
                == offset_from_hef_base,
            bursts_total(bursts_sizes@) < stream_length ==> r is Err && r->Err_0 is MissingData,
            bursts_total(bursts_sizes@) > stream_length ==> r is Err && r->Err_0 is ParsingError,
    {
        let mut sum: u64 = 0;
        let mut i: usize = 0;
        while i < bursts_sizes.len()
            invariant
                i <= bursts_sizes@.len(),
                sum == bursts_total(bursts_sizes@.take(i as int)),
                sum <= stream_length,
            decreases bursts_sizes@.len() - i,
        {
            let b = bursts_sizes[i];
            proof {
                assert(bursts_sizes@.take(i + 1).drop_last() =~= bursts_sizes@.take(i as int));
            }
            if b as u64 > stream_length - sum {
                proof {
                    lemma_bursts_total_prefix(bursts_sizes@, i + 1);
                }
                return Err(HailoError::ParsingError(String::from_str("bursts exceed the configuration stream")));
            }
            sum = sum + b as u64;
            i = i + 1;
        }
        proof {
            assert(bursts_sizes@.take(bursts_sizes@.len() as int) =~= bursts_sizes@);
        }
        if sum < stream_length {
            return Err(HailoError::MissingData(String::from_str("bursts fall short of the configuration stream")));
        }
        Ok(ConfigBufferInfo { bursts_sizes, offset_from_hef_base })
    }
}

} // verus!
