//! One reconfiguration stage of the device: its ordered actions, its
//! configuration buffers and its layers sorted by kind and direction.
use crate::actions::{action_type, ContextSwitchActionType, ContextSwitchConfigAction};
use crate::config_buffer::ConfigBufferInfo;
use crate::layer::{transfer_or_zero, Direction, LayerInfo, LayerUtils, lemma_transfer_size_law};
use std::collections::HashMap;
use vstd::prelude::*;

verus! {

/// The metadata of one context.
#[derive(Debug)]
pub struct ContextMetadata {
    actions: Vec<ContextSwitchConfigAction>,
    config_buffers_info: HashMap<u8, ConfigBufferInfo>,
    const_input_layer_found: bool,
    boundary_input_layers: Vec<LayerInfo>,
    boundary_output_layers: Vec<LayerInfo>,
    inter_context_input_layers: Vec<LayerInfo>,
    inter_context_output_layers: Vec<LayerInfo>,
    ddr_input_layers: Vec<LayerInfo>,
    ddr_output_layers: Vec<LayerInfo>,
    cache_input_layers: Vec<LayerInfo>,
    cache_output_layers: Vec<LayerInfo>,
}

/// The contents of a context.
pub struct ContextView {
    pub actions: Seq<ContextSwitchConfigAction>,
    pub config_buffers_info: Map<u8, ConfigBufferInfo>,
    pub const_input_layer_found: bool,
    pub boundary_input_layers: Seq<LayerInfo>,
    pub boundary_output_layers: Seq<LayerInfo>,
    pub inter_context_input_layers: Seq<LayerInfo>,
    pub inter_context_output_layers: Seq<LayerInfo>,
    pub ddr_input_layers: Seq<LayerInfo>,
    pub ddr_output_layers: Seq<LayerInfo>,
    pub cache_input_layers: Seq<LayerInfo>,
    pub cache_output_layers: Seq<LayerInfo>,
}

impl View for ContextMetadata {
    type V = ContextView;

    closed spec fn view(&self) -> ContextView {
        ContextView {
            actions: self.actions@,
            config_buffers_info: self.config_buffers_info@,
            const_input_layer_found: self.const_input_layer_found,
            boundary_input_layers: self.boundary_input_layers@,
            boundary_output_layers: self.boundary_output_layers@,
            inter_context_input_layers: self.inter_context_input_layers@,
            inter_context_output_layers: self.inter_context_output_layers@,
            ddr_input_layers: self.ddr_input_layers@,
            ddr_output_layers: self.ddr_output_layers@,
            cache_input_layers: self.cache_input_layers@,
            cache_output_layers: self.cache_output_layers@,
        }
    }
}

/// The sum of the transfer sizes of `s`, a layer that has none counting 0.
pub open spec fn transfer_sum(s: Seq<LayerInfo>) -> nat
    decreases s.len(),
{
    if s.len() == 0 {
        0
    } else {
        transfer_sum(s.drop_last()) + transfer_or_zero(s.last())
    }
}

/// What flows into a context: the transfer sizes of its boundary,
/// inter-context, DDR and cache inputs.
pub open spec fn ingress_total(c: ContextView) -> nat {
    transfer_sum(c.boundary_input_layers) + transfer_sum(c.inter_context_input_layers)
        + transfer_sum(c.ddr_input_layers) + transfer_sum(c.cache_input_layers)
}

/// `c` is `old` with `l` added to the input list or the output list picked
/// by its direction; everything else is unchanged.
pub open spec fn routed(
    old_inputs: Seq<LayerInfo>,
    old_outputs: Seq<LayerInfo>,
    new_inputs: Seq<LayerInfo>,
    new_outputs: Seq<LayerInfo>,
    l: LayerInfo,
) -> bool {
    match l.direction {
        Direction::Input => new_inputs == old_inputs.push(l) && new_outputs == old_outputs,
        Direction::Output => new_outputs == old_outputs.push(l) && new_inputs == old_inputs,
    }
}

/// The actions of `actions` whose kind is in `kinds`, in their order.
pub open spec fn actions_of_type(
    actions: Seq<ContextSwitchConfigAction>,
    kinds: Seq<ContextSwitchActionType>,
) -> Seq<ContextSwitchConfigAction> {
    actions.filter(|a: ContextSwitchConfigAction| kinds.contains(action_type(a)))
}

/// Sums the transfer sizes of `s` onto `acc`.
fn add_transfer_sizes(s: &Vec<LayerInfo>, acc: u64) -> (r: u64)
    requires
        acc + transfer_sum(s@) <= u64::MAX,
    ensures
        r == acc + transfer_sum(s@),
{
    let mut sum = acc;
    let mut i: usize = 0;
    while i < s.len()
        invariant
            i <= s@.len(),
            sum == acc + transfer_sum(s@.take(i as int)),
            acc + transfer_sum(s@) <= u64::MAX,
        decreases s@.len() - i,
    {
        proof {
            assert(s@.take(i + 1).drop_last() =~= s@.take(i as int));
            lemma_transfer_sum_prefix(s@, i + 1);
            lemma_transfer_size_law(s@[i as int]);
        }
        let n = match LayerUtils::calculate_transfer_size(&s[i]) {
            Some(n) => n,
            None => 0,
        };
        sum = sum + n;
        i = i + 1;
    }
    proof {
        assert(s@.take(s@.len() as int) =~= s@);
    }
    sum
}

/// A prefix sums to no more than the whole.
pub proof fn lemma_transfer_sum_prefix(s: Seq<LayerInfo>, k: int)
    requires
        0 <= k <= s.len(),
    ensures
        transfer_sum(s.take(k)) <= transfer_sum(s),
    decreases s.len(),
{
    if k < s.len() {
        lemma_transfer_sum_prefix(s.drop_last(), k);
        assert(s.drop_last().take(k) =~= s.take(k));
    } else {
        assert(s.take(k) =~= s);
    }
}

impl ContextMetadata {
    /// A context with the given actions and buffers and no layers yet.
    pub fn new(
        actions: Vec<ContextSwitchConfigAction>,
        config_buffers_info: HashMap<u8, ConfigBufferInfo>,
        const_input_layer_found: bool,
    ) -> (r: Self)
        ensures
            r@.actions == actions@,
            r@.config_buffers_info == config_buffers_info@,
            r@.const_input_layer_found == const_input_layer_found,
            r@.boundary_input_layers.len() == 0,
            r@.boundary_output_layers.len() == 0,
            r@.inter_context_input_layers.len() == 0,
            r@.inter_context_output_layers.len() == 0,
            r@.ddr_input_layers.len() == 0,
            r@.ddr_output_layers.len() == 0,
            r@.cache_input_layers.len() == 0,
            r@.cache_output_layers.len() == 0,
    {
        ContextMetadata {
            actions,
            config_buffers_info,
            const_input_layer_found,
            boundary_input_layers: Vec::new(),
            boundary_output_layers: Vec::new(),
            inter_context_input_layers: Vec::new(),
            inter_context_output_layers: Vec::new(),
            ddr_input_layers: Vec::new(),
            ddr_output_layers: Vec::new(),
            cache_input_layers: Vec::new(),
            cache_output_layers: Vec::new(),
        }
    }

    /// The actions, in replay order.
    pub fn get_actions(&self) -> (r: &Vec<ContextSwitchConfigAction>)
        ensures
            r@ == self@.actions,
    {
        &self.actions
    }

    /// The actions whose kind is one of `action_types`, in replay order.
    pub fn get_actions_of_type(&self, action_types: &[ContextSwitchActionType]) -> (r: Vec<
        ContextSwitchConfigAction,
    >)
        ensures
            r@ == actions_of_type(self@.actions, action_types@),
    {
        broadcast use vstd::seq_lib::group_filter_ensures;

        let ghost pred = |a: ContextSwitchConfigAction| action_types@.contains(action_type(a));
        let mut out: Vec<ContextSwitchConfigAction> = Vec::new();
        let mut i: usize = 0;
        while i < self.actions.len()
            invariant
                i <= self.actions@.len(),
                pred == (|a: ContextSwitchConfigAction| action_types@.contains(action_type(a))),
                out@ == self.actions@.take(i as int).filter(pred),
            decreases self.actions@.len() - i,
        {
            let a = self.actions[i];
            let t = a.get_type();
            let mut found = false;
            let mut k: usize = 0;
            while k < action_types.len()
                invariant
                    k <= action_types@.len(),
                    found == exists|j: int| 0 <= j < k && action_types@[j] == t,
                decreases action_types@.len() - k,
            {
                if action_types[k] == t {
                    found = true;
                }
                k = k + 1;
            }
            proof {
                assert(self.actions@.take(i + 1) =~= self.actions@.take(i as int).push(a));
                self.actions@.take(i as int).lemma_filter_push(a, pred);
            }
            if found {
                out.push(a);
            }
            i = i + 1;
        }
        proof {
            assert(self.actions@.take(self.actions@.len() as int) =~= self.actions@);
        }
        out
    }

    /// The configuration buffers by stream index.
    pub fn get_config_buffers_info(&self) -> (r: &HashMap<u8, ConfigBufferInfo>)
        ensures
            r@ == self@.config_buffers_info,
    {
        &self.config_buffers_info
    }

    /// Adds a boundary layer to the inputs or the outputs, by its direction.
    pub fn add_boundary_layer(&mut self, layer_info: LayerInfo)
        ensures
            routed(
                old(self)@.boundary_input_layers,
                old(self)@.boundary_output_layers,
                final(self)@.boundary_input_layers,
                final(self)@.boundary_output_layers,
                layer_info,
            ),
            final(self)@ == (ContextView {
                boundary_input_layers: final(self)@.boundary_input_layers,
                boundary_output_layers: final(self)@.boundary_output_layers,
                ..old(self)@
            }),
    {
        match layer_info.direction {
            Direction::Input => self.boundary_input_layers.push(layer_info),
            Direction::Output => self.boundary_output_layers.push(layer_info),
        }
    }

    /// Adds an inter-context layer to the inputs or the outputs, by its
    /// direction.
    pub fn add_inter_context_layer(&mut self, layer_info: LayerInfo)
        ensures
            routed(
                old(self)@.inter_context_input_layers,
                old(self)@.inter_context_output_layers,
                final(self)@.inter_context_input_layers,
                final(self)@.inter_context_output_layers,
                layer_info,
            ),
            final(self)@ == (ContextView {
                inter_context_input_layers: final(self)@.inter_context_input_layers,
                inter_context_output_layers: final(self)@.inter_context_output_layers,
                ..old(self)@
            }),
    {
        match layer_info.direction {
            Direction::Input => self.inter_context_input_layers.push(layer_info),
            Direction::Output => self.inter_context_output_layers.push(layer_info),
        }
    }

    /// Adds a DDR layer to the inputs or the outputs, by its direction.
    pub fn add_ddr_layer(&mut self, layer_info: LayerInfo)
        ensures
            routed(
                old(self)@.ddr_input_layers,
                old(self)@.ddr_output_layers,
                final(self)@.ddr_input_layers,
                final(self)@.ddr_output_layers,
                layer_info,
            ),
            final(self)@ == (ContextView {
                ddr_input_layers: final(self)@.ddr_input_layers,
                ddr_output_layers: final(self)@.ddr_output_layers,
                ..old(self)@
            }),
    {
        match layer_info.direction {
            Direction::Input => self.ddr_input_layers.push(layer_info),
            Direction::Output => self.ddr_output_layers.push(layer_info),
        }
    }

    /// Adds a cache layer to the inputs or the outputs, by its direction.
    pub fn add_cache_layer(&mut self, layer_info: LayerInfo)
        ensures
            routed(
                old(self)@.cache_input_layers,
                old(self)@.cache_output_layers,
                final(self)@.cache_input_layers,
                final(self)@.cache_output_layers,
                layer_info,
            ),
            final(self)@ == (ContextView {
                cache_input_layers: final(self)@.cache_input_layers,
                cache_output_layers: final(self)@.cache_output_layers,
                ..old(self)@
            }),
    {
        match layer_info.direction {
            Direction::Input => self.cache_input_layers.push(layer_info),
            Direction::Output => self.cache_output_layers.push(layer_info),
        }
    }

    /// The boundary inputs, in the order added.
    pub fn get_boundary_input_layers(&self) -> (r: &Vec<LayerInfo>)
        ensures
            r@ == self@.boundary_input_layers,
    {
        &self.boundary_input_layers
    }

    /// The boundary outputs, in the order added.
    pub fn get_boundary_output_layers(&self) -> (r: &Vec<LayerInfo>)
        ensures
            r@ == self@.boundary_output_layers,
    {
        &self.boundary_output_layers
    }

    /// The inter-context inputs, in the order added.
    pub fn get_inter_context_input_layers(&self) -> (r: &Vec<LayerInfo>)
        ensures
            r@ == self@.inter_context_input_layers,
    {
        &self.inter_context_input_layers
    }

    /// The inter-context outputs, in the order added.
    pub fn get_inter_context_output_layers(&self) -> (r: &Vec<LayerInfo>)
        ensures
            r@ == self@.inter_context_output_layers,
    {
        &self.inter_context_output_layers
    }

    /// The DDR inputs, in the order added.
    pub fn get_ddr_input_layers(&self) -> (r: &Vec<LayerInfo>)
        ensures
            r@ == self@.ddr_input_layers,
    {
        &self.ddr_input_layers
    }

    /// The DDR outputs, in the order added.
    pub fn get_ddr_output_layers(&self) -> (r: &Vec<LayerInfo>)
        ensures
            r@ == self@.ddr_output_layers,
    {
        &self.ddr_output_layers
    }

    /// The cache inputs, in the order added.
    pub fn get_cache_input_layers(&self) -> (r: &Vec<LayerInfo>)
        ensures
            r@ == self@.cache_input_layers,
    {
        &self.cache_input_layers
    }

    /// The cache outputs, in the order added.
    pub fn get_cache_output_layers(&self) -> (r: &Vec<LayerInfo>)
        ensures
            r@ == self@.cache_output_layers,
    {
        &self.cache_output_layers
    }

    /// The bytes that flow into the context in one frame: the transfer sizes
    /// of all its inputs, a layer without one counting 0.
    pub fn get_context_transfer_size(&self) -> (r: u64)
        requires
            ingress_total(self@) <= u64::MAX,
        ensures
            r == ingress_total(self@),
    {
        let s = add_transfer_sizes(&self.boundary_input_layers, 0);
        let s = add_transfer_sizes(&self.inter_context_input_layers, s);
        let s = add_transfer_sizes(&self.ddr_input_layers, s);
        add_transfer_sizes(&self.cache_input_layers, s)
    }

    /// Whether the context has an input that is constant rather than fed at
    /// run time.
    pub fn const_input_layer_found(&self) -> (r: bool)
        ensures
            r == self@.const_input_layer_found,
    {
        self.const_input_layer_found
    }
}

} // verus!
