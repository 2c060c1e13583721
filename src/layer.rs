//! Data endpoints of a network and the streams derived from them.
use crate::channel::NNStreamConfig;
use crate::common::HailoError;
use crate::format::HailoFormat;
use crate::stream_info::{NmsShape, QuantInfo, Shape, StreamDirection, StreamInfo, VStreamInfo};
use crate::text::str_equals;
use vstd::prelude::*;
use vstd::string::StringExecFns;

verus! {

/// Where a layer's data comes from or goes to.
#[derive(Clone, Copy, Debug, PartialEq, Eq, Structural)]
pub enum LayerType {
    NotSet,
    /// Host memory.
    Boundary,
    /// Another context.
    InterContext,
    /// Buffering in device memory.
    Ddr,
    /// Configuration data.
    Cfg,
    /// A persistent cache.
    Cache,
}

/// Whether a layer is an input or an output of its context.
#[derive(Clone, Copy, Debug, PartialEq, Eq, Structural)]
pub enum Direction {
    Input,
    Output,
}

/// The buffer a layer uses.
#[derive(Clone, Copy, Debug, PartialEq, Eq, Structural)]
pub struct BufferIndices {
    pub index: u32,
    pub cluster_index: u32,
}

/// The endpoint that a layer is linked to across a context boundary.
#[derive(Clone, Copy, Debug, PartialEq, Eq, Structural)]
pub struct ConnectedContextInfo {
    pub context_index: u16,
    pub dma_engine_index: u8,
    pub stream_index: u8,
}

/// Buffering of a layer in device memory.
#[derive(Clone, Copy, Debug, PartialEq, Eq, Structural)]
pub struct DdrInfo {
    pub total_buffers_per_frame: u16,
    pub min_buffered_rows: u16,
}

/// One data endpoint of a network.
#[derive(Debug)]
pub struct LayerInfo {
    pub layer_type: LayerType,
    pub direction: Direction,
    pub stream_index: u8,
    pub dma_engine_index: u8,
    pub name: String,
    pub network_name: String,
    pub network_index: u8,
    pub nn_stream_config: NNStreamConfig,
    pub max_shmifo_size: u32,
    pub context_index: u16,
    pub pad_index: Option<u32>,
    pub shape: Shape,
    pub hw_shape: Shape,
    pub hw_data_bytes: u32,
    pub format: HailoFormat,
    pub quant_info: QuantInfo,
    /// One quantization per defused group.
    pub quant_infos: Vec<QuantInfo>,
    pub nms_info: Option<NmsShape>,
    pub is_mux: bool,
    /// The layers that a derived or muxed layer is made from.
    pub predecessor: Vec<LayerInfo>,
    pub height_gcd: u32,
    pub height_ratios: Vec<u32>,
    pub is_multi_planar: bool,
    /// The planes of a multi-planar layer, in order.
    pub planes: Vec<LayerInfo>,
    pub plane_index: u8,
    pub is_defused_nms: bool,
    pub fused_nms_layer: Vec<LayerInfo>,
    pub buffer_indices: BufferIndices,
    pub connected_context_info: Option<ConnectedContextInfo>,
    pub ddr_info: DdrInfo,
    pub cache_id: u32,
}

/// Layer types that move data, and so have a transfer size.
pub open spec fn is_transferable(t: LayerType) -> bool {
    t == LayerType::Boundary || t == LayerType::InterContext || t == LayerType::Ddr
}

/// Bytes per buffer times buffers per frame.
pub open spec fn periph_product(c: NNStreamConfig) -> nat {
    c.periph_bytes_per_buffer as nat * c.periph_buffers_per_frame as nat
}

/// The transfer size of a layer, 0 for a layer type that has none.
pub open spec fn transfer_or_zero(l: LayerInfo) -> nat {
    if is_transferable(l.layer_type) {
        periph_product(l.nn_stream_config)
    } else {
        0
    }
}

/// The stream direction of a layer direction.
pub open spec fn stream_direction(d: Direction) -> StreamDirection {
    match d {
        Direction::Input => StreamDirection::HostToDevice,
        Direction::Output => StreamDirection::DeviceToHost,
    }
}

/// The layers that give one stream each: the planes of a multi-planar
/// layer, else the layer itself.
pub open spec fn stream_sources(l: LayerInfo) -> Seq<LayerInfo> {
    if l.is_multi_planar {
        l.planes@
    } else {
        seq![l]
    }
}

/// `s` describes the stream of layer `l`.
pub open spec fn describes_stream(s: StreamInfo, l: LayerInfo) -> bool {
    &&& s.name@ == l.name@
    &&& s.direction == stream_direction(l.direction)
    &&& s.hw_frame_size == transfer_or_zero(l)
    &&& s.hw_shape == l.hw_shape
    &&& s.shape == l.shape
    &&& s.format == l.format
    &&& s.quant_info == l.quant_info
    &&& s.is_mux == l.is_mux
}

/// `v` describes the virtual stream of layer `l`.
pub open spec fn describes_vstream(v: VStreamInfo, l: LayerInfo) -> bool {
    &&& v.name@ == l.name@
    &&& v.network_name@ == l.network_name@
    &&& v.direction == stream_direction(l.direction)
    &&& v.shape == l.shape
    &&& v.format == l.format
    &&& v.quant_info == l.quant_info
    &&& v.nms_shape == l.nms_info
}

fn periph_size(c: NNStreamConfig) -> (r: u64)
    ensures
        r == periph_product(c),
{
    proof {
        vstd::arithmetic::mul::lemma_mul_upper_bound(
            c.periph_bytes_per_buffer as int,
            u32::MAX as int,
            c.periph_buffers_per_frame as int,
            u32::MAX as int,
        );
    }
    c.periph_bytes_per_buffer as u64 * c.periph_buffers_per_frame as u64
}

impl LayerInfo {
    /// The bytes that one frame moves through this layer; an error for a
    /// layer type that moves no data.
    pub fn get_transfer_size(&self) -> (r: Result<u64, HailoError>)
        ensures
            is_transferable(self.layer_type) ==> r == Ok::<u64, HailoError>(
                periph_product(self.nn_stream_config) as u64,
            ),
            !is_transferable(self.layer_type) ==> r is Err && r->Err_0 is InvalidOperation,
    {
        match self.layer_type {
            LayerType::Boundary | LayerType::InterContext | LayerType::Ddr => Ok(
                periph_size(self.nn_stream_config),
            ),
            _ => Err(
                HailoError::InvalidOperation(
                    String::from_str("Unsupported layer type for transfer size"),
                ),
            ),
        }
    }

    /// The stream of this layer alone, planes aside.
    pub fn create_stream_info(&self) -> (r: StreamInfo)
        ensures
            describes_stream(r, *self),
    {
        proof {
            lemma_transfer_size_law(*self);
        }
        let hw_frame_size = match LayerUtils::calculate_transfer_size(self) {
            Some(n) => n,
            None => 0,
        };
        StreamInfo {
            name: self.name.clone(),
            direction: match self.direction {
                Direction::Input => StreamDirection::HostToDevice,
                Direction::Output => StreamDirection::DeviceToHost,
            },
            hw_frame_size,
            hw_shape: self.hw_shape,
            shape: self.shape,
            format: self.format,
            quant_info: self.quant_info,
            is_mux: self.is_mux,
        }
    }

    /// The streams of this layer: one per plane of a multi-planar layer,
    /// else one.
    pub fn to_stream_infos(&self) -> (r: Vec<StreamInfo>)
        ensures
            r@.len() == stream_sources(*self).len(),
            forall|i: int| 0 <= i < r@.len() ==> describes_stream(#[trigger] r@[i], stream_sources(*self)[i]),
    {
        LayerUtils::to_stream_infos(self)
    }

    /// The virtual stream of this layer.
    pub fn to_vstream_info(&self) -> (r: VStreamInfo)
        ensures
            describes_vstream(r, *self),
    {
        VStreamInfo {
            name: self.name.clone(),
            network_name: self.network_name.clone(),
            direction: match self.direction {
                Direction::Input => StreamDirection::HostToDevice,
                Direction::Output => StreamDirection::DeviceToHost,
            },
            shape: self.shape,
            format: self.format,
            quant_info: self.quant_info,
            nms_shape: self.nms_info,
        }
    }
}

/// Functions over layers and streams.
pub struct LayerUtils;

impl LayerUtils {
    /// The streams of a layer: one per plane of a multi-planar layer, else
    /// one.
    pub fn to_stream_infos(layer_info: &LayerInfo) -> (r: Vec<StreamInfo>)
        ensures
            r@.len() == stream_sources(*layer_info).len(),
            forall|i: int|
                0 <= i < r@.len() ==> describes_stream(#[trigger] r@[i], stream_sources(*layer_info)[i]),
    {
        let mut out: Vec<StreamInfo> = Vec::new();
        if layer_info.is_multi_planar {
            let mut i: usize = 0;
            while i < layer_info.planes.len()
                invariant
                    layer_info.is_multi_planar,
                    i <= layer_info.planes@.len(),
                    out@.len() == i,
                    forall|j: int| 0 <= j < i ==> describes_stream(#[trigger] out@[j], layer_info.planes@[j]),
                decreases layer_info.planes@.len() - i,
            {
                out.push(layer_info.planes[i].create_stream_info());
                i = i + 1;
            }
        } else {
            out.push(layer_info.create_stream_info());
        }
        out
    }

    /// Whether one of `vec` is named `name`.
    pub fn stream_info_exists(vec: &[StreamInfo], name: &str) -> (r: bool)
        ensures
            r == exists|i: int| 0 <= i < vec@.len() && (#[trigger] vec@[i]).name@ == name@,
    {
        let mut i: usize = 0;
        while i < vec.len()
            invariant
                i <= vec@.len(),
                forall|j: int| 0 <= j < i ==> (#[trigger] vec@[j]).name@ != name@,
            decreases vec@.len() - i,
        {
            if str_equals(vec[i].name.as_str(), name) {
                return true;
            }
            i = i + 1;
        }
        false
    }

    /// The transfer size of a layer, `None` for a layer type that moves no
    /// data.
    pub fn calculate_transfer_size(layer_info: &LayerInfo) -> (r: Option<u64>)
        ensures
            is_transferable(layer_info.layer_type) ==> r == Some(
                periph_product(layer_info.nn_stream_config) as u64,
            ),
            !is_transferable(layer_info.layer_type) ==> r is None,
    {
        match layer_info.layer_type {
            LayerType::Boundary | LayerType::Ddr | LayerType::InterContext => Some(
                periph_size(layer_info.nn_stream_config),
            ),
            _ => None,
        }
    }
}

/// The transfer size is the peripheral product exactly for the layer types
/// that move data, and the two ways of asking agree.
pub proof fn lemma_transfer_size_law(l: LayerInfo)
    ensures
        is_transferable(l.layer_type) ==> transfer_or_zero(l) == periph_product(l.nn_stream_config)
            && periph_product(l.nn_stream_config) <= u64::MAX,
        !is_transferable(l.layer_type) ==> transfer_or_zero(l) == 0,
        is_transferable(l.layer_type) <==> (l.layer_type is Boundary || l.layer_type is InterContext
            || l.layer_type is Ddr),
{
    vstd::arithmetic::mul::lemma_mul_upper_bound(
        l.nn_stream_config.periph_bytes_per_buffer as int,
        u32::MAX as int,
        l.nn_stream_config.periph_buffers_per_frame as int,
        u32::MAX as int,
    );
}

} // verus!
