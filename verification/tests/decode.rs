use airpods_battery::decode::{
    battery_level, decode_advertisement, high_nibble, is_candidate, is_flipped, is_single_unit,
    low_nibble, model_id, model_name, parse_airpods_data, ADVERTISEMENT_LENGTH, APPLE_COMPANY_ID,
};
use airpods_battery::status::AirPodsStatus;

/// A 27-byte buffer with the given model bytes, flip byte, pod-battery byte
/// and case/charging byte; every other byte is zero.
fn buffer(model_high: u8, model_low: u8, flip: u8, pods: u8, case_charge: u8) -> Vec<u8> {
    let mut data = vec![0u8; ADVERTISEMENT_LENGTH];
    data[3] = model_high;
    data[4] = model_low;
    data[5] = flip;
    data[6] = pods;
    data[7] = case_charge;
    data
}

#[test]
fn battery_level_linear_range() {
    for n in 0u8..=9 {
        assert_eq!(battery_level(n), Some(n * 10 + 5));
    }
}

#[test]
fn battery_level_full() {
    assert_eq!(battery_level(10), Some(100));
}

#[test]
fn battery_level_absent_codes() {
    for n in 11u8..=15 {
        assert_eq!(battery_level(n), None);
    }
}

#[test]
fn nibbles_cover_whole_byte_domain() {
    for b in 0u8..=255 {
        assert_eq!(high_nibble(b), b >> 4);
        assert_eq!(low_nibble(b), b & 0x0f);
    }
}

#[test]
fn model_id_is_big_endian() {
    assert_eq!(model_id(0x0e, 0x20), 0x0e20);
    assert_eq!(model_id(0x00, 0x00), 0x0000);
    assert_eq!(model_id(0xff, 0xff), 0xffff);
}

#[test]
fn model_name_table() {
    assert_eq!(model_name(0x0220), "AirPods 1");
    assert_eq!(model_name(0x0F20), "AirPods 2");
    assert_eq!(model_name(0x1320), "AirPods 3");
    assert_eq!(model_name(0x1920), "AirPods 4");
    assert_eq!(model_name(0x0E20), "AirPods Pro");
    assert_eq!(model_name(0x1420), "AirPods Pro 2");
    assert_eq!(model_name(0x2420), "AirPods Pro 2");
    assert_eq!(model_name(0x2720), "AirPods Pro 3");
    assert_eq!(model_name(0x0A20), "AirPods Max");
    assert_eq!(model_name(0x1F20), "AirPods Max");
}

#[test]
fn model_name_falls_back_to_generic() {
    assert_eq!(model_name(0x0000), "AirPods");
    assert_eq!(model_name(0x0B20), "AirPods");
    assert_eq!(model_name(0xABCD), "AirPods");
}

#[test]
fn topology_reads_low_nibble_only() {
    assert!(is_single_unit(0x0a));
    assert!(is_single_unit(0x1a));
    assert!(is_single_unit(0xfa));
    assert!(!is_single_unit(0x0e));
    assert!(!is_single_unit(0x02));
    assert!(!is_single_unit(0xa0));
}

#[test]
fn flip_bit_clear_means_flipped() {
    assert!(is_flipped(0x00));
    assert!(is_flipped(0xfd));
    assert!(!is_flipped(0x02));
    assert!(!is_flipped(0xff));
}

#[test]
fn admission_filter() {
    let good = vec![0u8; 27];
    let short = vec![0u8; 26];
    let long = vec![0u8; 28];
    assert!(is_candidate(APPLE_COMPANY_ID, &good));
    assert!(!is_candidate(APPLE_COMPANY_ID, &short));
    assert!(!is_candidate(APPLE_COMPANY_ID, &long));
    assert!(!is_candidate(0x0059, &good));
    assert!(!is_candidate(0x0000, &good));
}

#[test]
fn foreign_company_id_yields_nothing() {
    // A buffer that would decode fine under the vendor id.
    let data = buffer(0x0e, 0x20, 0x02, 0x8a, 0x3f);
    assert!(decode_advertisement(0x0059, &data).is_none());
    assert!(decode_advertisement(APPLE_COMPANY_ID, &data).is_some());
}

#[test]
fn wrong_length_yields_nothing() {
    let short = vec![0u8; 26];
    let long = vec![0u8; 28];
    let empty: Vec<u8> = vec![];
    assert!(parse_airpods_data(&short).is_none());
    assert!(parse_airpods_data(&long).is_none());
    assert!(parse_airpods_data(&empty).is_none());
    assert!(decode_advertisement(APPLE_COMPANY_ID, &short).is_none());
}

#[test]
fn pro_pair_unflipped_with_disconnected_case() {
    // Flip bit set => not flipped; pods byte 0x8a: high nibble 8 is the left
    // pod, low nibble 10 the right; case/charging byte 0x3f: charging nibble
    // 3, case nibble 15 (disconnected).
    let data = buffer(0x0e, 0x20, 0x02, 0x8a, 0x3f);
    match parse_airpods_data(&data) {
        Some(AirPodsStatus::InEar { model, status }) => {
            assert_eq!(model, "AirPods Pro");
            assert_eq!(status.left, Some(85));
            assert_eq!(status.right, Some(100));
            assert_eq!(status.case, None);
            assert!(status.charging_left);
            assert!(status.charging_right);
            assert!(!status.charging_case);
        }
        other => panic!("expected a dual-unit status, got {:?}", other),
    }
}

#[test]
fn max_single_unit_charging() {
    // Over-ear topology nibble, battery nibble 7 => 75%, charging bit set.
    let data = buffer(0x0a, 0x20, 0x02, 0x07, 0x10);
    match parse_airpods_data(&data) {
        Some(AirPodsStatus::Max { model, status }) => {
            assert_eq!(model, "AirPods Max");
            assert_eq!(status.battery, 75);
            assert!(status.charging);
        }
        other => panic!("expected a single-unit status, got {:?}", other),
    }
}

#[test]
fn max_disconnected_battery_fails_whole_decode() {
    // Single-unit topology with the disconnected sentinel in its one battery
    // channel: no partial status may surface.
    let data = buffer(0x0a, 0x20, 0x02, 0x0f, 0x10);
    assert!(parse_airpods_data(&data).is_none());
}

#[test]
fn max_undefined_battery_code_fails_whole_decode() {
    for raw in 11u8..=14 {
        let data = buffer(0x0a, 0x20, 0x02, raw, 0x10);
        assert!(parse_airpods_data(&data).is_none());
    }
}

#[test]
fn flip_swaps_pods_and_charging_flags() {
    // Identical buffers except for the flip byte: left/right batteries and
    // charging flags must come out exchanged.
    let flipped = buffer(0x0e, 0x20, 0x00, 0x3a, 0x1f);
    let unflipped = buffer(0x0e, 0x20, 0x02, 0x3a, 0x1f);
    match (parse_airpods_data(&flipped), parse_airpods_data(&unflipped)) {
        (
            Some(AirPodsStatus::InEar { status: a, .. }),
            Some(AirPodsStatus::InEar { status: b, .. }),
        ) => {
            assert_eq!(a.left, b.right);
            assert_eq!(a.right, b.left);
            assert_eq!(a.charging_left, b.charging_right);
            assert_eq!(a.charging_right, b.charging_left);
            assert_eq!(a.case, b.case);
            assert_eq!(a.charging_case, b.charging_case);
            // And concretely: nibble 10 on one side, 3 on the other, and the
            // single set charging bit (0x01) lands on the right when flipped.
            assert_eq!(a.left, Some(100));
            assert_eq!(a.right, Some(35));
            assert!(!a.charging_left);
            assert!(a.charging_right);
        }
        other => panic!("expected two dual-unit statuses, got {:?}", other),
    }
}

#[test]
fn unknown_model_keeps_topology_and_generic_name() {
    // An identifier absent from the table, with a dual-unit topology nibble:
    // the decode degrades to the generic name, never to a failure.
    let data = buffer(0x0b, 0x20, 0x02, 0x55, 0x00);
    match parse_airpods_data(&data) {
        Some(AirPodsStatus::InEar { model, status }) => {
            assert_eq!(model, "AirPods");
            assert_eq!(status.left, Some(55));
            assert_eq!(status.right, Some(55));
            assert_eq!(status.case, Some(5));
            assert!(!status.charging_left);
            assert!(!status.charging_right);
            assert!(!status.charging_case);
        }
        other => panic!("expected a dual-unit status, got {:?}", other),
    }
}

#[test]
fn single_unit_topology_never_yields_dual_status() {
    // Whatever the rest of the buffer holds, a 0x0a topology nibble yields a
    // single-unit status or nothing.
    for pods in [0x00u8, 0x57, 0x8a, 0xff] {
        let data = buffer(0x1a, 0x20, 0x02, pods, 0x3f);
        match parse_airpods_data(&data) {
            Some(AirPodsStatus::InEar { .. }) => {
                panic!("dual-unit status from a single-unit topology nibble")
            }
            Some(AirPodsStatus::Max { .. }) | None => {}
        }
    }
}

#[test]
fn model_accessor_matches_variant_payload() {
    let data = buffer(0x13, 0x20, 0x02, 0x55, 0x00);
    let status = parse_airpods_data(&data).expect("a dual-unit status");
    assert_eq!(status.model(), "AirPods 3");
}
