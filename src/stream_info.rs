//! Descriptions of hardware streams and of virtual streams.
use crate::float_bits::FloatBits;
use crate::format::HailoFormat;
use vstd::prelude::*;

verus! {

/// The direction of a stream, seen from the host.
#[derive(Clone, Copy, Debug, PartialEq, Eq, Structural)]
pub enum StreamDirection {
    HostToDevice,
    DeviceToHost,
}

/// A 3-D image shape.
#[derive(Clone, Copy, Debug, PartialEq, Eq, Structural)]
pub struct Shape {
    pub height: u32,
    pub width: u32,
    pub features: u32,
}

/// The geometry of an NMS output.
#[derive(Clone, Copy, Debug, PartialEq, Eq, Structural)]
pub struct NmsShape {
    pub max_bboxes_per_class: u32,
    pub number_of_classes: u32,
}

/// Quantization of a tensor: real value = scale * (q - zero_point).
#[derive(Clone, Copy, Debug, PartialEq, Eq, Structural)]
pub struct QuantInfo {
    pub scale: FloatBits,
    pub zero_point: i32,
}

/// A hardware stream.
#[derive(Clone, Debug)]
pub struct StreamInfo {
    pub name: String,
    pub direction: StreamDirection,
    /// Bytes that one frame takes on the hardware.
    pub hw_frame_size: u64,
    pub hw_shape: Shape,
    pub shape: Shape,
    pub format: HailoFormat,
    pub quant_info: QuantInfo,
    pub is_mux: bool,
}

/// A virtual stream: one logical input or output tensor.
#[derive(Clone, Debug)]
pub struct VStreamInfo {
    pub name: String,
    pub network_name: String,
    pub direction: StreamDirection,
    pub shape: Shape,
    pub format: HailoFormat,
    pub quant_info: QuantInfo,
    pub nms_shape: Option<NmsShape>,
}

impl Shape {
    /// A shape of the given height, width and features.
    pub fn new(height: u32, width: u32, features: u32) -> (r: Self)
        ensures
            r.height == height,
            r.width == width,
            r.features == features,
    {
        Shape { height, width, features }
    }
}

impl NmsShape {
    /// An NMS geometry.
    pub fn new(max_bboxes_per_class: u32, number_of_classes: u32) -> (r: Self)
        ensures
            r.max_bboxes_per_class == max_bboxes_per_class,
            r.number_of_classes == number_of_classes,
    {
        NmsShape { max_bboxes_per_class, number_of_classes }
    }
}

impl QuantInfo {
    /// A quantization of the given scale and zero point.
    pub fn new(scale: FloatBits, zero_point: i32) -> (r: Self)
        ensures
            r.scale == scale,
            r.zero_point == zero_point,
    {
        QuantInfo { scale, zero_point }
    }
}

impl StreamInfo {
    /// A stream description from its parts.
    pub fn new(
        name: String,
        direction: StreamDirection,
        hw_frame_size: u64,
        hw_shape: Shape,
        shape: Shape,
        format: HailoFormat,
        quant_info: QuantInfo,
        is_mux: bool,
    ) -> (r: Self)
        ensures
            r.name == name,
            r.direction == direction,
            r.hw_frame_size == hw_frame_size,
            r.hw_shape == hw_shape,
            r.shape == shape,
            r.format == format,
            r.quant_info == quant_info,
            r.is_mux == is_mux,
    {
        StreamInfo { name, direction, hw_frame_size, hw_shape, shape, format, quant_info, is_mux }
    }
}

impl VStreamInfo {
    /// A virtual stream description from its parts.
    pub fn new(
        name: String,
        network_name: String,
        direction: StreamDirection,
        shape: Shape,
        format: HailoFormat,
        quant_info: QuantInfo,
        nms_shape: Option<NmsShape>,
    ) -> (r: Self)
        ensures
            r.name == name,
            r.network_name == network_name,
            r.direction == direction,
            r.shape == shape,
            r.format == format,
            r.quant_info == quant_info,
            r.nms_shape == nms_shape,
    {
        VStreamInfo { name, network_name, direction, shape, format, quant_info, nms_shape }
    }
}

} // verus!
