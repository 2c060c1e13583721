//! Capability flags of a compiled network or of a device.
use crate::text::str_equals;
use vstd::prelude::*;

verus! {

/// The features that a compiled network uses or a device supports.
#[derive(Clone, Copy, Debug, PartialEq, Eq, Structural)]
pub struct SupportedFeatures {
    pub padded_ddr_buffers: bool,
    pub multi_network_support: bool,
    pub multi_context: bool,
    pub preliminary_run_asap: bool,
    pub hailo_net_flow: bool,
    pub dual_direction_stream_index: bool,
    pub nms_burst_mode: bool,
    pub output_scale_by_feature: bool,
    pub periph_calculation_in_hailort: bool,
    pub core_hw_padding_config_in_dfc: bool,
    pub batch_register_config: bool,
}

/// No feature is set.
pub open spec fn no_features(f: SupportedFeatures) -> bool {
    &&& !f.padded_ddr_buffers
    &&& !f.multi_network_support
    &&& !f.multi_context
    &&& !f.preliminary_run_asap
    &&& !f.hailo_net_flow
    &&& !f.dual_direction_stream_index
    &&& !f.nms_burst_mode
    &&& !f.output_scale_by_feature
    &&& !f.periph_calculation_in_hailort
    &&& !f.core_hw_padding_config_in_dfc
    &&& !f.batch_register_config
}

/// The flag named `name`, or `None` when no flag has that name.
pub open spec fn feature_flag(f: SupportedFeatures, name: Seq<char>) -> Option<bool> {
    if name == "padded_ddr_buffers"@ {
        Some(f.padded_ddr_buffers)
    } else if name == "multi_network_support"@ {
        Some(f.multi_network_support)
    } else if name == "multi_context"@ {
        Some(f.multi_context)
    } else if name == "preliminary_run_asap"@ {
        Some(f.preliminary_run_asap)
    } else if name == "hailo_net_flow"@ {
        Some(f.hailo_net_flow)
    } else if name == "dual_direction_stream_index"@ {
        Some(f.dual_direction_stream_index)
    } else if name == "nms_burst_mode"@ {
        Some(f.nms_burst_mode)
    } else if name == "output_scale_by_feature"@ {
        Some(f.output_scale_by_feature)
    } else if name == "periph_calculation_in_hailort"@ {
        Some(f.periph_calculation_in_hailort)
    } else if name == "core_hw_padding_config_in_dfc"@ {
        Some(f.core_hw_padding_config_in_dfc)
    } else if name == "batch_register_config"@ {
        Some(f.batch_register_config)
    } else {
        None
    }
}

impl Default for SupportedFeatures {
    /// All features unset.
    fn default() -> (r: Self)
        ensures
            no_features(r),
    {
        SupportedFeatures {
            padded_ddr_buffers: false,
            multi_network_support: false,
            multi_context: false,
            preliminary_run_asap: false,
            hailo_net_flow: false,
            dual_direction_stream_index: false,
            nms_burst_mode: false,
            output_scale_by_feature: false,
            periph_calculation_in_hailort: false,
            core_hw_padding_config_in_dfc: false,
            batch_register_config: false,
        }
    }
}

impl SupportedFeatures {
    /// All features unset.
    pub fn new() -> (r: Self)
        ensures
            no_features(r),
    {
        SupportedFeatures::default()
    }

    /// The flag named `feature_name`; `None` when there is no such flag,
    /// which is not the same as an unset one.
    pub fn is_supported(&self, feature_name: &str) -> (r: Option<bool>)
        ensures
            r == feature_flag(*self, feature_name@),
    {
        if str_equals(feature_name, "padded_ddr_buffers") {
            Some(self.padded_ddr_buffers)
        } else if str_equals(feature_name, "multi_network_support") {
            Some(self.multi_network_support)
        } else if str_equals(feature_name, "multi_context") {
            Some(self.multi_context)
        } else if str_equals(feature_name, "preliminary_run_asap") {
            Some(self.preliminary_run_asap)
        } else if str_equals(feature_name, "hailo_net_flow") {
            Some(self.hailo_net_flow)
        } else if str_equals(feature_name, "dual_direction_stream_index") {
            Some(self.dual_direction_stream_index)
        } else if str_equals(feature_name, "nms_burst_mode") {
            Some(self.nms_burst_mode)
        } else if str_equals(feature_name, "output_scale_by_feature") {
            Some(self.output_scale_by_feature)
        } else if str_equals(feature_name, "periph_calculation_in_hailort") {
            Some(self.periph_calculation_in_hailort)
        } else if str_equals(feature_name, "core_hw_padding_config_in_dfc") {
            Some(self.core_hw_padding_config_in_dfc)
        } else if str_equals(feature_name, "batch_register_config") {
            Some(self.batch_register_config)
        } else {
            None
        }
    }
}

} // verus!
