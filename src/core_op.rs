//! The execution plan of one network: a preliminary context run once, then
//! the dynamic contexts replayed in order.
use crate::context::{transfer_sum, ContextMetadata};
use crate::features::SupportedFeatures;
use crate::layer::{
    describes_stream, describes_vstream, lemma_transfer_size_law, stream_sources, LayerInfo,
    LayerUtils,
};
use crate::stream_info::{StreamInfo, VStreamInfo};
use vstd::prelude::*;

verus! {

/// The engine that serves a configuration channel.
#[derive(Clone, Copy, Debug, PartialEq, Eq, Structural)]
pub struct ConfigChannelInfo {
    pub engine_index: u8,
}

/// The execution plan of one network.
#[derive(Debug)]
pub struct CoreOpMetadata {
    pub core_op_name: String,
    /// Run once, before any dynamic context.
    pub preliminary_context: ContextMetadata,
    /// Replayed in this order.
    pub dynamic_contexts: Vec<ContextMetadata>,
    pub config_channels_info: Vec<ConfigChannelInfo>,
    pub supported_features: SupportedFeatures,
    pub sorted_network_names: Vec<String>,
    pub can_fast_batch_switch: bool,
}

/// The layers that give the streams of `s`, in order: the planes of each
/// multi-planar layer, else the layer.
pub open spec fn all_stream_sources(s: Seq<LayerInfo>) -> Seq<LayerInfo>
    decreases s.len(),
{
    if s.len() == 0 {
        seq![]
    } else {
        all_stream_sources(s.drop_last()) + stream_sources(s.last())
    }
}

impl CoreOpMetadata {
    /// The boundary inputs followed by the boundary outputs of the
    /// preliminary context.
    pub open spec fn all_layers(&self) -> Seq<LayerInfo> {
        self.preliminary_context@.boundary_input_layers + self.preliminary_context@.boundary_output_layers
    }

    /// A plan from its parts.
    pub fn new(
        core_op_name: String,
        preliminary_context: ContextMetadata,
        dynamic_contexts: Vec<ContextMetadata>,
        config_channels_info: Vec<ConfigChannelInfo>,
        supported_features: SupportedFeatures,
        sorted_network_names: Vec<String>,
        can_fast_batch_switch: bool,
    ) -> (r: Self)
        ensures
            r.core_op_name == core_op_name,
            r.preliminary_context == preliminary_context,
            r.dynamic_contexts == dynamic_contexts,
            r.config_channels_info == config_channels_info,
            r.supported_features == supported_features,
            r.sorted_network_names == sorted_network_names,
            r.can_fast_batch_switch == can_fast_batch_switch,
    {
        CoreOpMetadata {
            core_op_name,
            preliminary_context,
            dynamic_contexts,
            config_channels_info,
            supported_features,
            sorted_network_names,
            can_fast_batch_switch,
        }
    }

    /// The boundary inputs of the preliminary context.
    pub fn get_input_layer_infos(&self) -> (r: &Vec<LayerInfo>)
        ensures
            r@ == self.preliminary_context@.boundary_input_layers,
    {
        self.preliminary_context.get_boundary_input_layers()
    }

    /// The boundary outputs of the preliminary context.
    pub fn get_output_layer_infos(&self) -> (r: &Vec<LayerInfo>)
        ensures
            r@ == self.preliminary_context@.boundary_output_layers,
    {
        self.preliminary_context.get_boundary_output_layers()
    }

    /// The boundary inputs and then the boundary outputs of the
    /// preliminary context; stream indexing relies on this order.
    pub fn get_all_layer_infos(&self) -> (r: Vec<&LayerInfo>)
        ensures
            r@.len() == self.all_layers().len(),
            forall|i: int| 0 <= i < r@.len() ==> *(#[trigger] r@[i]) == self.all_layers()[i],
    {
        let inputs = self.get_input_layer_infos();
        let outputs = self.get_output_layer_infos();
        let mut out: Vec<&LayerInfo> = Vec::new();
        let mut i: usize = 0;
        while i < inputs.len()
            invariant
                i <= inputs@.len(),
                out@.len() == i,
                forall|j: int| 0 <= j < i ==> *(#[trigger] out@[j]) == inputs@[j],
            decreases inputs@.len() - i,
        {
            out.push(&inputs[i]);
            i = i + 1;
        }
        let mut k: usize = 0;
        while k < outputs.len()
            invariant
                k <= outputs@.len(),
                out@.len() == inputs@.len() + k,
                forall|j: int| 0 <= j < inputs@.len() ==> *(#[trigger] out@[j]) == inputs@[j],
                forall|j: int| 0 <= j < k ==> *(#[trigger] out@[inputs@.len() + j]) == outputs@[j],
            decreases outputs@.len() - k,
        {
            out.push(&outputs[k]);
            k = k + 1;
        }
        proof {
            assert forall|i: int| 0 <= i < out@.len() implies *(#[trigger] out@[i]) == self.all_layers()[i] by {
                if i >= inputs@.len() {
                    assert(out@[inputs@.len() + (i - inputs@.len())] == out@[i]);
                }
            }
        }
        out
    }

    /// The hardware streams of all layers, in layer order.
    pub fn get_stream_infos(&self) -> (r: Vec<StreamInfo>)
        ensures
            r@.len() == all_stream_sources(self.all_layers()).len(),
            forall|i: int|
                0 <= i < r@.len() ==> describes_stream(#[trigger] r@[i], all_stream_sources(self.all_layers())[i]),
    {
        let layers = self.get_all_layer_infos();
        let ghost all = self.all_layers();
        assert(layers@.map_values(|l: &LayerInfo| *l) =~= all);
        let mut out: Vec<StreamInfo> = Vec::new();
        let mut i: usize = 0;
        while i < layers.len()
            invariant
                i <= layers@.len(),
                layers@.len() == all.len(),
                forall|j: int| 0 <= j < layers@.len() ==> *(#[trigger] layers@[j]) == all[j],
                out@.len() == all_stream_sources(all.take(i as int)).len(),
                forall|j: int|
                    0 <= j < out@.len() ==> describes_stream(#[trigger] out@[j], all_stream_sources(all.take(i as int))[j]),
            decreases layers@.len() - i,
        {
            let mut more = LayerUtils::to_stream_infos(layers[i]);
            let ghost before = out@;
            let ghost added = more@;
            proof {
                assert(all.take(i + 1).drop_last() =~= all.take(i as int));
                assert(all.take(i + 1).last() == all[i as int]);
            }
            out.append(&mut more);
            proof {
                let src = all_stream_sources(all.take(i + 1));
                assert(src == all_stream_sources(all.take(i as int)) + stream_sources(all[i as int]));
                assert forall|j: int| 0 <= j < out@.len() implies describes_stream(#[trigger] out@[j], src[j]) by {
                    if j >= before.len() {
                        assert(out@[j] == added[j - before.len()]);
                    } else {
                        assert(out@[j] == before[j]);
                    }
                }
            }
            i = i + 1;
        }
        proof {
            assert(all.take(layers@.len() as int) =~= all);
        }
        out
    }

    /// The virtual streams of all layers, one per layer, in layer order.
    pub fn get_vstream_infos(&self) -> (r: Vec<VStreamInfo>)
        ensures
            r@.len() == self.all_layers().len(),
            forall|i: int| 0 <= i < r@.len() ==> describes_vstream(#[trigger] r@[i], self.all_layers()[i]),
    {
        let layers = self.get_all_layer_infos();
        let mut out: Vec<VStreamInfo> = Vec::new();
        let mut i: usize = 0;
        while i < layers.len()
            invariant
                i <= layers@.len(),
                layers@.len() == self.all_layers().len(),
                forall|j: int| 0 <= j < layers@.len() ==> *(#[trigger] layers@[j]) == self.all_layers()[j],
                out@.len() == i,
                forall|j: int| 0 <= j < i ==> describes_vstream(#[trigger] out@[j], self.all_layers()[j]),
            decreases layers@.len() - i,
        {
            out.push(layers[i].to_vstream_info());
            i = i + 1;
        }
        out
    }

    /// The number of dynamic contexts; the preliminary one is not counted.
    pub fn get_contexts_count(&self) -> (r: usize)
        ensures
            r == self.dynamic_contexts@.len(),
    {
        self.dynamic_contexts.len()
    }

    /// The transfer sizes of all layers added up, skipping layers that have
    /// none.
    pub fn get_total_transfer_size(&self) -> (r: u64)
        requires
            transfer_sum(self.all_layers()) <= u64::MAX,
        ensures
            r == transfer_sum(self.all_layers()),
    {
        let layers = self.get_all_layer_infos();
        let ghost all = self.all_layers();
        let mut sum: u64 = 0;
        let mut i: usize = 0;
        while i < layers.len()
            invariant
                i <= layers@.len(),
                layers@.len() == all.len(),
                forall|j: int| 0 <= j < layers@.len() ==> *(#[trigger] layers@[j]) == all[j],
                sum == transfer_sum(all.take(i as int)),
                transfer_sum(all) <= u64::MAX,
            decreases layers@.len() - i,
        {
            proof {
                assert(all.take(i + 1).drop_last() =~= all.take(i as int));
                crate::context::lemma_transfer_sum_prefix(all, i + 1);
                lemma_transfer_size_law(all[i as int]);
            }
            match layers[i].get_transfer_size() {
                Ok(n) => {
                    sum = sum + n;
                },
                Err(_) => {},
            }
            i = i + 1;
        }
        proof {
            assert(all.take(layers@.len() as int) =~= all);
        }
        sum
    }
}

} // verus!
