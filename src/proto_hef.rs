//! The records of a compiled network file: header, extensions and network
//! groups.
use crate::core_op::CoreOpMetadata;
use crate::features::SupportedFeatures;
use crate::text::str_equals;
use vstd::prelude::*;

verus! {

/// The header of a compiled network file.
#[derive(Clone, Copy, Debug, PartialEq, Eq, Structural)]
pub struct ProtoHefHeader {
    pub version: u32,
    pub proto_size: u32,
    pub checksum: u64,
    pub supported_features: SupportedFeatures,
}

/// An extension that the file uses.
#[derive(Clone, Debug)]
pub struct ProtoHefExtension {
    pub name: String,
    pub version: u32,
}

/// An extension that the file may use.
#[derive(Clone, Debug)]
pub struct ProtoHefOptionalExtension {
    pub name: String,
    pub is_enabled: bool,
}

/// A named group of networks.
#[derive(Debug)]
pub struct ProtoHefNetworkGroup {
    pub name: String,
    pub core_ops: Vec<CoreOpMetadata>,
    pub extensions: Vec<ProtoHefExtension>,
    pub optional_extensions: Vec<ProtoHefOptionalExtension>,
}

/// A whole compiled network file.
#[derive(Debug)]
pub struct ProtoHef {
    pub header: ProtoHefHeader,
    pub network_groups: Vec<ProtoHefNetworkGroup>,
}

impl ProtoHef {
    /// A file from its header and network groups.
    pub fn new(header: ProtoHefHeader, network_groups: Vec<ProtoHefNetworkGroup>) -> (r: Self)
        ensures
            r.header == header,
            r.network_groups == network_groups,
    {
        ProtoHef { header, network_groups }
    }

    /// The first network group named `name`.
    pub fn get_network_group(&self, name: &str) -> (r: Option<&ProtoHefNetworkGroup>)
        ensures
            r is None <==> forall|i: int|
                0 <= i < self.network_groups@.len() ==> (#[trigger] self.network_groups@[i]).name@ != name@,
            r is Some ==> exists|i: int|
                0 <= i < self.network_groups@.len() && *r->Some_0 == #[trigger] self.network_groups@[i]
                    && self.network_groups@[i].name@ == name@ && forall|j: int|
                    0 <= j < i ==> (#[trigger] self.network_groups@[j]).name@ != name@,
    {
        let mut i: usize = 0;
        while i < self.network_groups.len()
            invariant
                i <= self.network_groups@.len(),
                forall|j: int| 0 <= j < i ==> (#[trigger] self.network_groups@[j]).name@ != name@,
            decreases self.network_groups@.len() - i,
        {
            if str_equals(self.network_groups[i].name.as_str(), name) {
                return Some(&self.network_groups[i]);
            }
            i = i + 1;
        }
        None
    }

    /// The names of the network groups, in order.
    pub fn list_network_groups(&self) -> (r: Vec<String>)
        ensures
            r@.len() == self.network_groups@.len(),
            forall|i: int| 0 <= i < r@.len() ==> (#[trigger] r@[i])@ == self.network_groups@[i].name@,
    {
        let mut out: Vec<String> = Vec::new();
        let mut i: usize = 0;
        while i < self.network_groups.len()
            invariant
                i <= self.network_groups@.len(),
                out@.len() == i,
                forall|j: int| 0 <= j < i ==> (#[trigger] out@[j])@ == self.network_groups@[j].name@,
            decreases self.network_groups@.len() - i,
        {
            out.push(self.network_groups[i].name.clone());
            i = i + 1;
        }
        out
    }
}

} // verus!
