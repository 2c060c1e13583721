use hailors::actions::{ContextSwitchActionType, ContextSwitchConfigAction, NoneAction};
use hailors::bytes_reader::SeekableBytesReader;
use hailors::channel::{ChannelConfig, HostBufferInfo, HostBufferType, NNStreamConfig, VdmaChannel};
use hailors::common::{align_up, is_aligned, HailoError};
use hailors::config_buffer::{ConfigBufferInfo, ConfigBufferInfoMap};
use hailors::context::ContextMetadata;
use hailors::core_op::{ConfigChannelInfo, CoreOpMetadata};
use hailors::features::SupportedFeatures;
use hailors::float_bits::FloatBits;
use hailors::format::{HailoFormat, HailoFormatOrder, HailoFormatType};
use hailors::hef_data::HefData;
use hailors::layer::{
    BufferIndices, DdrInfo, Direction, LayerInfo, LayerType, LayerUtils,
};
use hailors::proto_hef::{ProtoHef, ProtoHefHeader, ProtoHefNetworkGroup};
use hailors::status::HailoStatus;
use hailors::stream_info::{NmsShape, QuantInfo, Shape, StreamDirection};
use std::collections::HashMap;

fn layer(name: &str, layer_type: LayerType, direction: Direction, bytes: u32, buffers: u32) -> LayerInfo {
    LayerInfo {
        layer_type,
        direction,
        stream_index: 0,
        dma_engine_index: 0,
        name: name.to_string(),
        network_name: "net".to_string(),
        network_index: 0,
        nn_stream_config: NNStreamConfig { periph_bytes_per_buffer: bytes, periph_buffers_per_frame: buffers },
        max_shmifo_size: 0,
        context_index: 0,
        pad_index: None,
        shape: Shape::new(4, 4, 3),
        hw_shape: Shape::new(4, 4, 4),
        hw_data_bytes: 1,
        format: HailoFormat::new(HailoFormatType::Uint8, HailoFormatOrder::NHWC, 0),
        quant_info: QuantInfo::new(FloatBits::from_bits(1.0f32.to_bits()), 0),
        quant_infos: Vec::new(),
        nms_info: None,
        is_mux: false,
        predecessor: Vec::new(),
        height_gcd: 0,
        height_ratios: Vec::new(),
        is_multi_planar: false,
        planes: Vec::new(),
        plane_index: 0,
        is_defused_nms: false,
        fused_nms_layer: Vec::new(),
        buffer_indices: BufferIndices { index: 0, cluster_index: 0 },
        connected_context_info: None,
        ddr_info: DdrInfo { total_buffers_per_frame: 0, min_buffered_rows: 0 },
        cache_id: 0,
    }
}

#[test]
fn test_config_buffer_info_creation() {
    let bursts_sizes = vec![64, 128, 256];
    let offset = 1024;

    let config_buffer_info = ConfigBufferInfo::new(bursts_sizes.clone(), offset);

    assert_eq!(config_buffer_info.bursts_sizes, bursts_sizes);
    assert_eq!(config_buffer_info.offset_from_hef_base, offset);
}

#[test]
fn test_config_buffer_info_map() {
    let mut config_map: ConfigBufferInfoMap = HashMap::new();

    config_map.insert(0, ConfigBufferInfo::new(vec![64, 128], 1024));
    config_map.insert(1, ConfigBufferInfo::new(vec![256, 512], 2048));

    assert_eq!(config_map.len(), 2);
    assert!(config_map.contains_key(&0));
    assert!(config_map.contains_key(&1));
}

#[test]
fn test_align_up() {
    assert_eq!(align_up(13, 4), 16);
    assert_eq!(align_up(16, 4), 16);
    assert_eq!(align_up(0, 4), 0);
    assert_eq!(align_up(7, 0), 7);
}

#[test]
fn test_is_aligned() {
    assert!(is_aligned(16, 4));
    assert!(!is_aligned(13, 4));
    assert!(is_aligned(7, 0));
}

#[test]
fn test_hailo_error_display() {
    let err = HailoError::InvalidOperation("Operation not allowed".to_string());
    assert_eq!(err.to_string(), "Invalid operation: Operation not allowed");
}

#[test]
fn test_hailo_format_creation() {
    let format = HailoFormat::new(HailoFormatType::Float32, HailoFormatOrder::NHWC, 0x0);
    assert_eq!(format.format_type, HailoFormatType::Float32);
    assert_eq!(format.format_order, HailoFormatOrder::NHWC);
    assert_eq!(format.flags, 0x0);
}

#[test]
fn test_hailo_format_from_raw() {
    let format_type = HailoFormat::from_raw_type(1);
    assert_eq!(format_type, HailoFormatType::Uint8);

    let format_order = HailoFormat::from_raw_order(2);
    assert_eq!(format_order, HailoFormatOrder::HailoNmsOnChip);
}

#[test]
fn test_channel_config_creation() {
    let nn_config = NNStreamConfig {
        periph_bytes_per_buffer: 512,
        periph_buffers_per_frame: 4,
    };

    let host_info = HostBufferInfo {
        buffer_type: HostBufferType::Data,
        descriptors_per_buffer: 256,
    };

    let config = ChannelConfig::new(1, 2, Some(nn_config.clone()), Some(host_info.clone()), Some(1024));

    assert_eq!(config.channel_id, 1);
    assert_eq!(config.stream_index, 2);
    assert_eq!(config.nn_stream_config, Some(nn_config));
    assert_eq!(config.host_buffer_info, Some(host_info));
    assert_eq!(config.initial_credits, Some(1024));
}

#[test]
fn test_default_supported_features() {
    let features = SupportedFeatures::new();
    assert!(!features.padded_ddr_buffers);
    assert!(!features.multi_network_support);
    assert!(!features.multi_context);
    assert!(!features.preliminary_run_asap);
    assert!(!features.hailo_net_flow);
    assert!(!features.dual_direction_stream_index);
    assert!(!features.nms_burst_mode);
    assert!(!features.output_scale_by_feature);
    assert!(!features.periph_calculation_in_hailort);
    assert!(!features.core_hw_padding_config_in_dfc);
    assert!(!features.batch_register_config);
}

#[test]
fn test_feature_check() {
    let mut features = SupportedFeatures::new();
    features.multi_context = true;

    assert_eq!(features.is_supported("multi_context"), Some(true));
    assert_eq!(features.is_supported("hailo_net_flow"), Some(false));
    assert_eq!(features.is_supported("non_existent_feature"), None);
}

#[test]
fn test_create_vdma_channel() {
    let channel = VdmaChannel::new(1, 2, false);
    assert_eq!(channel.channel_id, 1);
    assert_eq!(channel.stream_index, 2);
    assert!(!channel.is_dummy());
}

#[test]
fn test_dummy_channel() {
    let channel = VdmaChannel::new(3, 4, true);
    assert!(channel.is_dummy());
}

#[test]
fn align_up_rounds_to_next_multiple() {
    assert_eq!(align_up(17, 8), 24);
    assert_eq!(align_up(u32::MAX - 3, 4), u32::MAX - 3);
    assert_eq!(align_up(1, 1), 1);
}

#[test]
fn error_texts_of_every_kind() {
    assert_eq!(HailoError::ParsingError("bad".to_string()).to_string(), "Parsing error: bad");
    assert_eq!(HailoError::IoError("eof".to_string()).to_string(), "I/O error: eof");
    assert_eq!(HailoError::UnsupportedVersion(42).to_string(), "Unsupported version: 42");
    assert_eq!(HailoError::UnsupportedVersion(0).to_string(), "Unsupported version: 0");
    assert_eq!(HailoError::MissingData("x".to_string()).to_string(), "Missing data: x");
}

#[test]
fn status_codes_read_back() {
    assert_eq!(HailoStatus::from_i32(0), HailoStatus::Success);
    assert_eq!(HailoStatus::from_i32(61), HailoStatus::NotFound);
    assert_eq!(HailoStatus::from_i32(79), HailoStatus::Unsupported);
    assert_eq!(HailoStatus::from_i32(11), HailoStatus::InternalFailure);
    assert_eq!(HailoStatus::from_i32(-5), HailoStatus::InternalFailure);
    for code in -2..100 {
        let s = HailoStatus::from_i32(code);
        if s != HailoStatus::InternalFailure {
            assert_eq!(s.code(), code);
        }
    }
    assert_eq!(HailoStatus::Timeout.message(), "Timeout");
    assert_eq!(HailoStatus::OutOfHostMemory.message(), "Out of Host Memory");
}

#[test]
fn format_description_matches_debug_text() {
    let cases = [
        HailoFormat::new(HailoFormatType::Float32, HailoFormatOrder::NHWC, 0x1F),
        HailoFormat::new(HailoFormatType::Other(7), HailoFormatOrder::Other(1234), 0),
        HailoFormat::new(HailoFormatType::Int8, HailoFormatOrder::HailoNmsHost, 0xDEADBEEF),
    ];
    for f in cases.iter() {
        let expected = format!("Type: {:?}, Order: {:?}, Flags: {:#X}", f.format_type, f.format_order, f.flags);
        assert_eq!(f.description(), expected);
    }
    assert_eq!(cases[0].description(), "Type: Float32, Order: NHWC, Flags: 0x1F");
    assert_eq!(HailoFormat::from_raw_type(9), HailoFormatType::Other(9));
    assert_eq!(HailoFormat::from_raw_order(3), HailoFormatOrder::HailoNmsHost);
}

#[test]
fn every_feature_name_is_known() {
    let mut f = SupportedFeatures::default();
    f.batch_register_config = true;
    f.padded_ddr_buffers = true;
    assert_eq!(f.is_supported("batch_register_config"), Some(true));
    assert_eq!(f.is_supported("padded_ddr_buffers"), Some(true));
    assert_eq!(f.is_supported("nms_burst_mode"), Some(false));
    assert_eq!(f.is_supported(""), None);
    assert_eq!(f.is_supported("multi_context "), None);
}

#[test]
fn transfer_size_is_periph_product_for_data_layers() {
    for t in [LayerType::Boundary, LayerType::InterContext, LayerType::Ddr] {
        let l = layer("a", t, Direction::Input, 512, 4);
        assert_eq!(l.get_transfer_size(), Ok(2048));
        assert_eq!(LayerUtils::calculate_transfer_size(&l), Some(2048));
    }
    let big = layer("big", LayerType::Boundary, Direction::Input, u32::MAX, u32::MAX);
    assert_eq!(big.get_transfer_size(), Ok(u32::MAX as u64 * u32::MAX as u64));
    for t in [LayerType::Cfg, LayerType::Cache, LayerType::NotSet] {
        let l = layer("b", t, Direction::Input, 512, 4);
        assert!(matches!(l.get_transfer_size(), Err(HailoError::InvalidOperation(_))));
        assert_eq!(LayerUtils::calculate_transfer_size(&l), None);
    }
}

#[test]
fn stream_infos_follow_planes() {
    let mut l = layer("rgb", LayerType::Boundary, Direction::Input, 16, 3);
    assert_eq!(l.to_stream_infos().len(), 1);
    assert_eq!(l.to_stream_infos()[0].name, "rgb");
    assert_eq!(l.to_stream_infos()[0].hw_frame_size, 48);
    assert_eq!(l.to_stream_infos()[0].direction, StreamDirection::HostToDevice);
    l.is_multi_planar = true;
    l.planes.push(layer("y", LayerType::Boundary, Direction::Input, 8, 2));
    l.planes.push(layer("uv", LayerType::Boundary, Direction::Input, 4, 2));
    let s = LayerUtils::to_stream_infos(&l);
    assert_eq!(s.len(), 2);
    assert_eq!(s[0].name, "y");
    assert_eq!(s[1].name, "uv");
    assert_eq!(s[1].hw_frame_size, 8);
    assert!(LayerUtils::stream_info_exists(&s, "uv"));
    assert!(!LayerUtils::stream_info_exists(&s, "rgb"));
    let mut out = layer("o", LayerType::Cfg, Direction::Output, 8, 2);
    out.nms_info = Some(NmsShape::new(100, 80));
    let v = out.to_vstream_info();
    assert_eq!(v.direction, StreamDirection::DeviceToHost);
    assert_eq!(v.network_name, "net");
    assert_eq!(out.create_stream_info().hw_frame_size, 0);
}

#[test]
fn context_routes_layers_by_direction() {
    let mut c = ContextMetadata::new(Vec::new(), HashMap::new(), true);
    c.add_boundary_layer(layer("in0", LayerType::Boundary, Direction::Input, 10, 2));
    c.add_boundary_layer(layer("out0", LayerType::Boundary, Direction::Output, 10, 2));
    c.add_inter_context_layer(layer("ic_in", LayerType::InterContext, Direction::Input, 5, 1));
    c.add_ddr_layer(layer("ddr_out", LayerType::Ddr, Direction::Output, 5, 1));
    c.add_ddr_layer(layer("ddr_in", LayerType::Ddr, Direction::Input, 3, 3));
    c.add_cache_layer(layer("cache_in", LayerType::Cache, Direction::Input, 100, 100));
    c.add_cache_layer(layer("cache_out", LayerType::Cache, Direction::Output, 1, 1));
    assert_eq!(c.get_boundary_input_layers().len(), 1);
    assert_eq!(c.get_boundary_output_layers()[0].name, "out0");
    assert_eq!(c.get_inter_context_input_layers()[0].name, "ic_in");
    assert!(c.get_inter_context_output_layers().is_empty());
    assert_eq!(c.get_ddr_input_layers()[0].name, "ddr_in");
    assert_eq!(c.get_ddr_output_layers()[0].name, "ddr_out");
    assert_eq!(c.get_cache_input_layers()[0].name, "cache_in");
    assert_eq!(c.get_cache_output_layers()[0].name, "cache_out");
    // 20 + 5 + 9, the cache input counting 0.
    assert_eq!(c.get_context_transfer_size(), 34);
    assert!(c.const_input_layer_found());
    assert!(c.get_config_buffers_info().is_empty());
}

#[test]
fn actions_of_type_keep_replay_order() {
    let actions = vec![
        ContextSwitchConfigAction::WriteDataCcw { config_stream_index: 0, total_ccw_bursts: 2 },
        ContextSwitchConfigAction::ActivateConfigChannel { config_stream_index: 1, channel_index: 3 },
        ContextSwitchConfigAction::NoOp,
        ContextSwitchConfigAction::WriteDataCcw { config_stream_index: 1, total_ccw_bursts: 5 },
        ContextSwitchConfigAction::DeactivateConfigChannel { config_stream_index: 1, channel_index: 3 },
    ];
    let c = ContextMetadata::new(actions.clone(), HashMap::new(), false);
    assert_eq!(c.get_actions(), &actions);
    let picked = c.get_actions_of_type(&[ContextSwitchActionType::DeactivateConfigChannel, ContextSwitchActionType::WriteDataCcw]);
    assert_eq!(picked, vec![actions[0], actions[3], actions[4]]);
    assert!(c.get_actions_of_type(&[]).is_empty());
}

#[test]
fn action_serialization() {
    assert_eq!(ContextSwitchConfigAction::NoOp.serialize(), Ok(vec![]));
    assert_eq!(
        ContextSwitchConfigAction::ActivateConfigChannel { config_stream_index: 2, channel_index: 7 }.serialize(),
        Ok(vec![1, 2, 7])
    );
    assert_eq!(
        ContextSwitchConfigAction::WriteDataCcw { config_stream_index: 1, total_ccw_bursts: 0x1234 }.serialize(),
        Ok(vec![3, 1, 0x34, 0x12])
    );
    assert_eq!(ContextSwitchConfigAction::NoOp.get_type(), ContextSwitchActionType::NoOp);
    assert!(!ContextSwitchConfigAction::NoOp.supports_repeated_block());
    let n = NoneAction;
    assert_eq!(n.get_type(), ContextSwitchActionType::NoOp);
    assert_eq!(n.serialize(), Ok(vec![]));
    assert!(!n.supports_repeated_block());
    assert_eq!(n.to_action(), ContextSwitchConfigAction::NoOp);
}

#[test]
fn bursts_must_add_up_to_stream_length() {
    let ok = ConfigBufferInfo::from_bursts(vec![64, 128], 4096, 192).unwrap();
    assert_eq!(ok.bursts_sizes, vec![64, 128]);
    assert_eq!(ok.offset_from_hef_base, 4096);
    assert!(matches!(ConfigBufferInfo::from_bursts(vec![64, 128], 0, 200), Err(HailoError::MissingData(_))));
    assert!(matches!(ConfigBufferInfo::from_bursts(vec![64, 128], 0, 100), Err(HailoError::ParsingError(_))));
    assert!(ConfigBufferInfo::from_bursts(vec![], 0, 0).is_ok());
    assert!(matches!(
        ConfigBufferInfo::from_bursts(vec![u32::MAX, u32::MAX], 0, u32::MAX as u64),
        Err(HailoError::ParsingError(_))
    ));
}

#[test]
fn core_op_layers_and_streams() {
    let mut pre = ContextMetadata::new(Vec::new(), HashMap::new(), false);
    pre.add_boundary_layer(layer("out0", LayerType::Boundary, Direction::Output, 10, 10));
    pre.add_boundary_layer(layer("in0", LayerType::Boundary, Direction::Input, 4, 4));
    let mut planar = layer("in1", LayerType::Boundary, Direction::Input, 2, 2);
    planar.is_multi_planar = true;
    planar.planes.push(layer("in1_y", LayerType::Boundary, Direction::Input, 1, 1));
    planar.planes.push(layer("in1_uv", LayerType::Boundary, Direction::Input, 1, 2));
    pre.add_boundary_layer(planar);
    pre.add_boundary_layer(layer("cfg", LayerType::Cfg, Direction::Output, 9, 9));
    let dynamic = vec![
        ContextMetadata::new(Vec::new(), HashMap::new(), false),
        ContextMetadata::new(Vec::new(), HashMap::new(), false),
    ];
    let op = CoreOpMetadata::new(
        "op".to_string(),
        pre,
        dynamic,
        vec![ConfigChannelInfo { engine_index: 0 }],
        SupportedFeatures::new(),
        vec!["net".to_string()],
        false,
    );
    assert_eq!(op.get_contexts_count(), 2);
    let names: Vec<&str> = op.get_all_layer_infos().iter().map(|l| l.name.as_str()).collect();
    assert_eq!(names, vec!["in0", "in1", "out0", "cfg"]);
    assert_eq!(op.get_input_layer_infos().len(), 2);
    assert_eq!(op.get_output_layer_infos().len(), 2);
    let streams: Vec<String> = op.get_stream_infos().into_iter().map(|s| s.name).collect();
    assert_eq!(streams, vec!["in0", "in1_y", "in1_uv", "out0", "cfg"]);
    assert_eq!(op.get_vstream_infos().len(), 4);
    // 16 + 4 + 100, the configuration layer skipped.
    assert_eq!(op.get_total_transfer_size(), 120);
}

#[test]
fn reader_reads_little_endian() {
    let data = vec![1, 2, 3, 4, 5, 6, 7, 8];
    let mut reader = SeekableBytesReader::new(data);
    assert_eq!(reader.read_u8().unwrap(), 1);
    assert_eq!(reader.read_u32().unwrap(), 0x05040302);
    assert_eq!(reader.current_position().unwrap(), 5);
    assert_eq!(reader.seek_to(0).unwrap(), 0);
    assert_eq!(reader.read_u64().unwrap(), 0x0807060504030201);
    reader.seek_to(4).unwrap();
    assert!(matches!(reader.read_u64(), Err(HailoError::IoError(_))));
    assert_eq!(reader.current_position().unwrap(), 4);
    assert_eq!(reader.read_bytes(3).unwrap(), vec![5, 6, 7]);
    assert!(reader.read_bytes(2).is_err());
    assert_eq!(reader.read_bytes(1).unwrap(), vec![8]);
    reader.seek_to(100).unwrap();
    assert!(reader.read_u8().is_err());
    assert_eq!(reader.read_bytes(0).unwrap_or_default().len(), 0);
}

#[test]
fn hef_data_keeps_bytes_and_groups_are_found_by_name() {
    let h = HefData::parse(vec![9, 8, 7]);
    assert_eq!(h.raw_data(), &vec![9, 8, 7]);
    let header = ProtoHefHeader { version: 1, proto_size: 3, checksum: 0, supported_features: SupportedFeatures::new() };
    let group = |name: &str| ProtoHefNetworkGroup {
        name: name.to_string(),
        core_ops: Vec::new(),
        extensions: Vec::new(),
        optional_extensions: Vec::new(),
    };
    let hef = ProtoHef::new(header, vec![group("a"), group("b")]);
    assert_eq!(hef.list_network_groups(), vec!["a".to_string(), "b".to_string()]);
    assert_eq!(hef.get_network_group("b").unwrap().name, "b");
    assert!(hef.get_network_group("c").is_none());
}
