use hailors::float_bits::FloatBits;
use hailors::network::{
    convert_data, parse_f32, parse_u16, sort_by_confidence, suppress_overlapping, to_float32,
    ConvertedData, DataType, DecodeError, DecodeWarning, Detection, Network, YoloDetection, YoloPose,
};

fn fb(x: f32) -> FloatBits {
    FloatBits::from_bits(x.to_bits())
}

fn floats(xs: &[f32]) -> Vec<FloatBits> {
    xs.iter().map(|&x| fb(x)).collect()
}

fn value(b: FloatBits) -> f32 {
    f32::from_bits(b.to_bits())
}

fn le_bytes(xs: &[f32]) -> Vec<u8> {
    xs.iter().flat_map(|x| x.to_le_bytes()).collect()
}

fn det(conf: f32, b: (f32, f32, f32, f32)) -> Detection {
    Detection { class_id: 0, confidence: fb(conf), bbox: (fb(b.0), fb(b.1), fb(b.2), fb(b.3)) }
}

fn iou(a: (f32, f32, f32, f32), b: (f32, f32, f32, f32)) -> f32 {
    let w = (a.2.min(b.2) - a.0.max(b.0)).max(0.0);
    let h = (a.3.min(b.3) - a.1.max(b.1)).max(0.0);
    let inter = w * h;
    inter / ((a.2 - a.0) * (a.3 - a.1) + (b.2 - b.0) * (b.3 - b.1) - inter)
}

fn overlaps(d: &[Detection], threshold: f32) -> Vec<Vec<bool>> {
    let bx = |x: &Detection| (value(x.bbox.0), value(x.bbox.1), value(x.bbox.2), value(x.bbox.3));
    d.iter().map(|a| d.iter().map(|b| iou(bx(a), bx(b)) > threshold).collect()).collect()
}

fn nms(d: &mut Vec<Detection>, threshold: f32) -> Vec<Detection> {
    sort_by_confidence(d);
    let m = overlaps(d, threshold);
    suppress_overlapping(d, &m)
}

#[test]
fn float_casts_match_rust_casts() {
    let samples = [
        0.0f32, -0.0, 0.4, 0.999, 1.0, 1.5, 2.0, 2.7, 5.0, 255.0, 255.9, 256.0, 65535.0, 65535.5,
        65536.0, 1e9, 1.8e19, 1e30, -1.0, -0.5, -1e30, f32::INFINITY, f32::NEG_INFINITY, f32::NAN,
        f32::MIN_POSITIVE, 1e-40, 8388607.5, 16777216.0, f32::MAX,
    ];
    for &x in samples.iter() {
        let b = fb(x);
        assert_eq!(b.to_usize(), x as usize, "{}", x);
        assert_eq!(b.to_u16(), x as u16, "{}", x);
        assert_eq!(b.to_u8(), x as u8, "{}", x);
        assert_eq!(b.is_nan(), x.is_nan());
        for &y in samples.iter() {
            assert_eq!(b.ge(fb(y)), x >= y, "{} >= {}", x, y);
            assert_eq!(b.gt(fb(y)), x > y, "{} > {}", x, y);
        }
    }
}

#[test]
fn integers_convert_exactly() {
    for v in 0..=u16::MAX {
        assert_eq!(FloatBits::from_u16(v).to_bits(), (v as f32).to_bits());
    }
    for v in 0..=u8::MAX {
        assert_eq!(FloatBits::from_u8(v).to_bits(), (v as f32).to_bits());
    }
}

#[test]
fn parse_f32_reads_little_endian_words() {
    let xs = [1.5f32, -2.0, 0.1, f32::INFINITY];
    let bytes = le_bytes(&xs);
    let words = parse_f32(&bytes).unwrap();
    assert_eq!(words, floats(&xs));
    let back: Vec<u8> = words.iter().flat_map(|w| w.to_bits().to_le_bytes()).collect();
    assert_eq!(back, bytes);
    assert_eq!(parse_f32(&bytes[..5]), Err(DecodeError::LengthMismatch));
    assert_eq!(parse_f32(&[]), Ok(vec![]));
}

#[test]
fn parse_u16_reads_little_endian_words() {
    assert_eq!(parse_u16(&[0x34, 0x12, 0xff, 0x00]), Ok(vec![0x1234, 0x00ff]));
    assert_eq!(parse_u16(&[1, 2, 3]), Err(DecodeError::LengthMismatch));
}

#[test]
fn conversions_between_element_types() {
    let bytes = le_bytes(&[1.9, 70000.0, -3.0, 300.0]);
    match convert_data(&bytes, DataType::Float32, DataType::Uint16).unwrap() {
        ConvertedData::Uint16(v) => assert_eq!(v, vec![1, 65535, 0, 300]),
        _ => panic!("wrong variant"),
    }
    match convert_data(&bytes, DataType::Float32, DataType::Uint8).unwrap() {
        ConvertedData::Uint8(v) => assert_eq!(v, vec![1, 255, 0, 255]),
        _ => panic!("wrong variant"),
    }
    let f = convert_data(&[0x01, 0x02, 0xff, 0xff], DataType::Uint16, DataType::Float32).unwrap().into_f32();
    assert_eq!(f, floats(&[513.0, 65535.0]));
    let n = convert_data(&[0x01, 0x02, 0xff, 0xff], DataType::Uint16, DataType::Uint8).unwrap().into_u8();
    assert_eq!(n, vec![0x01, 0xff]);
    let g = convert_data(&[7, 200], DataType::Uint8, DataType::Float32).unwrap().into_f32();
    assert_eq!(g, floats(&[7.0, 200.0]));
    let w = convert_data(&[7, 200], DataType::Uint8, DataType::Uint16).unwrap().into_u16();
    assert_eq!(w, vec![7, 200]);
    assert!(matches!(convert_data(&bytes, DataType::Float32, DataType::Float32), Err(DecodeError::UnsupportedConversion)));
    assert!(matches!(convert_data(&[1], DataType::Uint8, DataType::Uint8), Err(DecodeError::UnsupportedConversion)));
    assert!(matches!(convert_data(&[1, 2, 3], DataType::Float32, DataType::Uint8), Err(DecodeError::LengthMismatch)));
    assert!(matches!(convert_data(&[1, 2, 3], DataType::Uint16, DataType::Float32), Err(DecodeError::LengthMismatch)));
    assert_eq!(to_float32(&[3], DataType::Uint8), Ok(floats(&[3.0])));
    assert_eq!(to_float32(&[0, 0, 0x80, 0x3f], DataType::Float32), Ok(floats(&[1.0])));
    assert_eq!(DataType::from_name("UINT16"), Some(DataType::Uint16));
    assert_eq!(DataType::from_name("INT8"), None);
}

#[test]
fn two_boxes_above_threshold() {
    let net = YoloDetection { num_classes: 1, max_bboxes_per_class: 10, threshold: fb(0.5) };
    let data = floats(&[2.0, 10.0, 10.0, 20.0, 20.0, 0.9, 5.0, 5.0, 8.0, 8.0, 0.95]);
    let dets = net.parse_output_f32(&data).unwrap();
    assert_eq!(dets.len(), 2);
    assert_eq!(dets[0].class_id, 0);
    assert_eq!(dets[1].class_id, 0);
    assert_eq!(dets[0].confidence, fb(0.9));
    assert_eq!(dets[1].confidence, fb(0.95));
    assert_eq!(dets[0].bbox, (fb(10.0), fb(10.0), fb(20.0), fb(20.0)));
    let bytes = le_bytes(&[2.0, 10.0, 10.0, 20.0, 20.0, 0.9, 5.0, 5.0, 8.0, 8.0, 0.95]);
    assert_eq!(net.decode_output(&bytes, DataType::Float32).unwrap(), dets);
}

#[test]
fn threshold_above_all_boxes() {
    let net = YoloDetection { num_classes: 1, max_bboxes_per_class: 10, threshold: fb(0.96) };
    let data = floats(&[2.0, 10.0, 10.0, 20.0, 20.0, 0.9, 5.0, 5.0, 8.0, 8.0, 0.95]);
    assert_eq!(net.parse_output_f32(&data).unwrap().len(), 0);
}

#[test]
fn box_count_over_cap_is_truncated_with_warning() {
    let net = YoloDetection { num_classes: 1, max_bboxes_per_class: 2, threshold: fb(0.5) };
    let mut xs = vec![5.0f32];
    for k in 0..5 {
        xs.extend_from_slice(&[k as f32, 0.0, 1.0, 1.0, 0.8]);
    }
    let (dets, warnings) = net.decode(&floats(&xs));
    assert_eq!(dets.len(), 2);
    assert_eq!(dets[1].bbox.0, fb(1.0));
    assert_eq!(warnings, vec![DecodeWarning::BoxCountTruncated { class_id: 0, declared: 5, max: 2 }]);
}

#[test]
fn classes_in_order_and_short_buffer() {
    let net = YoloDetection { num_classes: 3, max_bboxes_per_class: 10, threshold: fb(0.5) };
    let xs = [1.0f32, 0.0, 0.0, 1.0, 1.0, 0.7, 2.0, 1.0, 1.0, 2.0, 2.0, 0.6, 3.0, 3.0];
    let (dets, warnings) = net.decode(&floats(&xs));
    assert_eq!(dets.len(), 2);
    assert_eq!(dets[0].class_id, 0);
    assert_eq!(dets[1].class_id, 1);
    // Class 1 runs out inside its second box; class 2 then reads the rest,
    // 3.0, as its count and runs out as well.
    assert_eq!(
        warnings,
        vec![DecodeWarning::IncompleteBox { class_id: 1 }, DecodeWarning::IncompleteBox { class_id: 2 }]
    );
    assert_eq!(net.decode(&[]).0.len(), 0);
    assert_eq!(net.decode_output(&[1, 2, 3], DataType::Float32), Err(DecodeError::LengthMismatch));
}

#[test]
fn pose_records_with_a_keypoint_over_threshold() {
    let net = YoloPose { num_keypoints: 2, threshold: fb(0.5), max_bboxes_per_class: 10 };
    let xs = [
        1.0f32, 0.0, 0.0, 4.0, 4.0, 0.7, // one box
        1.0, 2.0, 0.9, 3.0, 4.0, 0.1, // a pose
        5.0, 6.0, 0.2, 7.0, 8.0, 0.3, // not a pose
        9.0, 9.0, // a partial record
    ];
    let out = net.parse_output_f32(&floats(&xs)).unwrap();
    assert_eq!(out.len(), 1);
    assert_eq!(out[0].detections.len(), 1);
    assert_eq!(out[0].detections[0].confidence, fb(0.7));
    assert_eq!(out[0].poses.len(), 1);
    assert_eq!(out[0].poses[0].keypoints, vec![(fb(1.0), fb(2.0)), (fb(3.0), fb(4.0))]);
    assert_eq!(out[0].poses[0].confidence, fb(0.5));
    let empty = net.parse_output_f32(&[]).unwrap();
    assert!(empty[0].detections.is_empty() && empty[0].poses.is_empty());
    let none = YoloPose { num_keypoints: 0, threshold: fb(0.5), max_bboxes_per_class: 10 };
    assert!(none.parse_output_f32(&floats(&xs)).unwrap()[0].poses.is_empty());
    let bytes = le_bytes(&xs);
    assert_eq!(net.decode_output(&bytes, DataType::Float32).unwrap(), out);
}

#[test]
fn overlapping_lower_box_is_suppressed() {
    let mut d = vec![det(0.8, (1.0, 1.0, 9.0, 9.0)), det(0.9, (0.0, 0.0, 10.0, 10.0))];
    let kept = nms(&mut d, 0.3);
    assert_eq!(kept.len(), 1);
    assert_eq!(kept[0].confidence, fb(0.9));
    assert_eq!(d[0].confidence, fb(0.9));
}

#[test]
fn identical_boxes_survive_threshold_one() {
    let b = (0.0, 0.0, 4.0, 4.0);
    let mut d = vec![det(0.7, b), det(0.9, b), det(0.8, (1.0, 1.0, 3.0, 3.0))];
    assert_eq!(iou(b, b), 1.0);
    let kept = nms(&mut d, 1.0);
    assert_eq!(kept.len(), 3);
}

#[test]
fn suppression_output_is_sorted_subset_without_overlaps() {
    let input = vec![
        det(0.3, (0.0, 0.0, 10.0, 10.0)),
        det(0.9, (1.0, 1.0, 11.0, 11.0)),
        det(0.5, (50.0, 50.0, 60.0, 60.0)),
        det(0.7, (0.0, 0.0, 10.0, 9.0)),
        det(0.6, (52.0, 52.0, 61.0, 61.0)),
        det(0.7, (100.0, 100.0, 101.0, 101.0)),
    ];
    let mut d = input.clone();
    let kept = nms(&mut d, 0.4);
    for w in kept.windows(2) {
        assert!(value(w[0].confidence) >= value(w[1].confidence));
    }
    for k in kept.iter() {
        assert!(input.contains(k));
    }
    let m = overlaps(&kept, 0.4);
    for i in 0..kept.len() {
        for j in (i + 1)..kept.len() {
            assert!(!m[i][j]);
        }
    }
    assert_eq!(kept.len(), 3);
    assert_eq!(d.len(), input.len());
}

#[test]
fn sort_is_stable_for_equal_confidence() {
    let mut d = vec![det(0.5, (0.0, 0.0, 1.0, 1.0)), det(0.9, (0.0, 0.0, 2.0, 2.0)), det(0.5, (0.0, 0.0, 3.0, 3.0))];
    sort_by_confidence(&mut d);
    assert_eq!(d[0].bbox.2, fb(2.0));
    assert_eq!(d[1].bbox.2, fb(1.0));
    assert_eq!(d[2].bbox.2, fb(3.0));
    let mut e: Vec<Detection> = Vec::new();
    sort_by_confidence(&mut e);
    assert!(suppress_overlapping(&e, &Vec::new()).is_empty());
}
