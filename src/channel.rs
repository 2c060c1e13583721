//! Stream and channel configuration of the DMA engines.
use vstd::prelude::*;

verus! {

/// How a stream is cut into peripheral buffers.
#[derive(Clone, Copy, Debug, PartialEq, Eq, Structural)]
pub struct NNStreamConfig {
    /// Bytes in one peripheral buffer.
    pub periph_bytes_per_buffer: u32,
    /// Peripheral buffers in one frame.
    pub periph_buffers_per_frame: u32,
}

/// The kind of a host buffer.
#[derive(Clone, Copy, Debug, PartialEq, Eq, Structural)]
pub enum HostBufferType {
    /// A buffer used for data transfer.
    Data,
    /// A buffer used for control communication.
    Control,
}

/// A host buffer of the control protocol.
#[derive(Clone, Copy, Debug, PartialEq, Eq, Structural)]
pub struct HostBufferInfo {
    pub buffer_type: HostBufferType,
    /// Descriptors in one buffer.
    pub descriptors_per_buffer: u32,
}

/// The configuration of one channel.
#[derive(Clone, Copy, Debug, PartialEq, Eq, Structural)]
pub struct ChannelConfig {
    pub channel_id: u8,
    pub stream_index: u8,
    pub nn_stream_config: Option<NNStreamConfig>,
    pub host_buffer_info: Option<HostBufferInfo>,
    /// Credits that the channel starts with, if any.
    pub initial_credits: Option<u32>,
}

impl ChannelConfig {
    /// A channel configuration from its parts.
    pub fn new(
        channel_id: u8,
        stream_index: u8,
        nn_stream_config: Option<NNStreamConfig>,
        host_buffer_info: Option<HostBufferInfo>,
        initial_credits: Option<u32>,
    ) -> (r: Self)
        ensures
            r.channel_id == channel_id,
            r.stream_index == stream_index,
            r.nn_stream_config == nn_stream_config,
            r.host_buffer_info == host_buffer_info,
            r.initial_credits == initial_credits,
    {
        ChannelConfig { channel_id, stream_index, nn_stream_config, host_buffer_info, initial_credits }
    }
}

/// A VDMA channel.
#[derive(Clone, Copy, Debug, PartialEq, Eq, Hash, Structural)]
pub struct VdmaChannel {
    pub channel_id: u8,
    pub stream_index: u8,
    /// The channel serves a dummy stream.
    pub is_dummy_stream: bool,
}

impl VdmaChannel {
    /// A channel from its parts.
    pub fn new(channel_id: u8, stream_index: u8, is_dummy_stream: bool) -> (r: Self)
        ensures
            r.channel_id == channel_id,
            r.stream_index == stream_index,
            r.is_dummy_stream == is_dummy_stream,
    {
        VdmaChannel { channel_id, stream_index, is_dummy_stream }
    }

    /// Whether the channel serves a dummy stream.
    pub fn is_dummy(&self) -> (r: bool)
        ensures
            r == self.is_dummy_stream,
    {
        self.is_dummy_stream
    }
}

} // verus!
