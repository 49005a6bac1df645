use amdgpu_info::pp_table::{HEADER_SIZE, SIZE_11_0_0};
use amdgpu_info::{smu_13_0_7_powerplay_table, AsicName, ChipClass, FamilyName, VramType};
use amdgpu_info::{
    amdgpu_sw_info, atom_common_table_header, find_device_name, lookup_device_name,
    marketing_name_or_table, parse_amdgpu_ids, smu_11_0_7_powerplay_table, smu_11_0_powerplay_table,
    smu_13_0_0_powerplay_table, trim_dpm_clk, PPTable, DEFAULT_DEVICE_NAME,
};

fn navi10_table() -> smu_11_0_powerplay_table {
    smu_11_0_powerplay_table {
        header: atom_common_table_header { structuresize: 0x0A2C, format_revision: 12, content_revision: 0 },
        table_revision: 1,
        table_size: 0x01B5,
        golden_pp_id: 0x1234_5678,
        golden_revision: 0x9ABC_DEF0,
        format_id: 0x80,
        platform_caps: 0x0000_0F1D,
        thermal_controller_type: 0x1C,
        small_power_limit1: 0,
        small_power_limit2: 0,
        boost_power_limit: 0,
        od_turbo_power_limit: 0,
        od_power_save_power_limit: 0,
        software_shutdown_temp: 0x0064,
    }
}

#[test]
fn pptable_shorter_than_header_is_invalid() {
    assert_eq!(PPTable::from_bytes(&[12, 0, 12]), PPTable::Invalid);
    assert_eq!(PPTable::from_bytes(&[]), PPTable::Invalid);
    assert_eq!(HEADER_SIZE, 4);
}

#[test]
fn pptable_round_trip_revision_12() {
    let t = navi10_table();
    let bytes = t.to_bytes();
    assert_eq!(bytes.len(), SIZE_11_0_0);
    assert_eq!(&bytes[0..4], &[0x2C, 0x0A, 12, 0]);
    assert_eq!(PPTable::from_bytes(&bytes), PPTable::V11_0_0(t));
    let mut longer = bytes.clone();
    longer.extend_from_slice(&[0xAA; 100]);
    assert_eq!(PPTable::from_bytes(&longer), PPTable::V11_0_0(t));
}

#[test]
fn pptable_known_revision_too_short_is_invalid() {
    let bytes = navi10_table().to_bytes();
    assert_eq!(PPTable::from_bytes(&bytes[0..10]), PPTable::Invalid);
    assert_eq!(PPTable::from_bytes(&bytes[0..SIZE_11_0_0 - 1]), PPTable::Invalid);
}

#[test]
fn pptable_unknown_revision_keeps_header() {
    let bytes = [0x34, 0x12, 255, 7, 1, 2, 3];
    assert_eq!(
        PPTable::from_bytes(&bytes),
        PPTable::Unknown(atom_common_table_header { structuresize: 0x1234, format_revision: 255, content_revision: 7 })
    );
    assert_eq!(
        PPTable::from_bytes(&[0, 0, 255, 0]),
        PPTable::Unknown(atom_common_table_header { structuresize: 0, format_revision: 255, content_revision: 0 })
    );
}

#[test]
fn pptable_revisions_15_18_and_20() {
    let t7 = smu_11_0_7_powerplay_table {
        header: atom_common_table_header { structuresize: 0x0C00, format_revision: 18, content_revision: 0 },
        table_revision: 2,
        table_size: 0x0200,
        golden_pp_id: 7,
        golden_revision: 8,
        format_id: 0x80,
        platform_caps: 1,
        thermal_controller_type: 2,
        small_power_limit1: 150,
        small_power_limit2: 160,
        boost_power_limit: 170,
        software_shutdown_temp: 118,
    };
    assert_eq!(PPTable::from_bytes(&t7.to_bytes()), PPTable::V11_0_7(t7));
    let mut t15 = t7;
    t15.header.format_revision = 15;
    assert_eq!(PPTable::from_bytes(&t15.to_bytes()), PPTable::V11_0_7(t15));
    let t20 = smu_13_0_0_powerplay_table {
        header: atom_common_table_header { structuresize: 0x0E00, format_revision: 20, content_revision: 0 },
        table_revision: 2,
        padding: 0,
        table_size: 0x0300,
        golden_pp_id: 0xDEAD_BEEF,
        golden_revision: 3,
        format_id: 0x90,
        platform_caps: 0xFFFF_FFFF,
        thermal_controller_type: 4,
        small_power_limit1: 0xFFFF,
        small_power_limit2: 1,
        boost_power_limit: 2,
        software_shutdown_temp: 115,
    };
    let bytes = t20.to_bytes();
    assert_eq!(bytes.len(), 31);
    assert_eq!(&bytes[8..12], &[0xEF, 0xBE, 0xAD, 0xDE]);
    assert_eq!(PPTable::from_bytes(&bytes), PPTable::V13_0_0(t20));
}

#[test]
fn device_name_from_table() {
    assert_eq!(parse_amdgpu_ids(0x744C, 0xC8), "AMD Radeon RX 7900 XTX");
    assert_eq!(parse_amdgpu_ids(0x744C, 0xCC), "AMD Radeon RX 7900 XT");
    assert_eq!(parse_amdgpu_ids(0x731F, 0xC1), "AMD Radeon RX 5700 XT");
}

#[test]
fn device_name_missing_gives_default() {
    let name = parse_amdgpu_ids(0xFFFF, 0x00);
    assert_eq!(name, DEFAULT_DEVICE_NAME);
    assert!(!name.is_empty());
    assert_eq!(parse_amdgpu_ids(0x744C, 0x00), "AMD Radeon Graphics");
}

#[test]
fn device_name_lookup_in_given_text() {
    let text = "# comment,\tFF,\tnot an entry\n\n1.0.0\nABCD,\t01,\tFirst Card  \nabcd,\t02,\tSecond,\textra\n00ff,\t1,\tLast";
    assert_eq!(lookup_device_name(text, 0xABCD, 0x01), Some("First Card".to_string()));
    assert_eq!(lookup_device_name(text, 0xABCD, 0x02), Some("Second".to_string()));
    assert_eq!(lookup_device_name(text, 0xFF, 0x1), Some("Last".to_string()));
    assert_eq!(lookup_device_name(text, 0xABCD, 0x03), None);
    assert_eq!(lookup_device_name("", 0, 0), None);
    assert_eq!(lookup_device_name("1234,\t00", 0x1234, 0), None);
    assert_eq!(lookup_device_name("100000000,\t00,\tToo Wide", 0, 0), None);
}

#[test]
fn device_name_range_in_bytes() {
    let text = b"1002,\t00,\tCard\n";
    assert_eq!(find_device_name(text, 0x1002, 0), Some((10, 14)));
    assert_eq!(find_device_name(text, 0x1002, 1), None);
}

#[test]
fn dpm_clock_from_level_line() {
    assert_eq!(trim_dpm_clk("0: 214Mhz *\n"), Some(214));
    assert_eq!(trim_dpm_clk("1: 2500Mhz \n"), Some(2500));
    assert_eq!(trim_dpm_clk("2: 96MhzMhz"), Some(96));
    assert_eq!(trim_dpm_clk("0: 100Mhz 200Mhz"), Some(200));
    assert_eq!(trim_dpm_clk("0: +5Mhz"), Some(5));
}

#[test]
fn dpm_clock_absent_or_malformed() {
    assert_eq!(trim_dpm_clk("0: 214MHz\n"), None);
    assert_eq!(trim_dpm_clk(""), None);
    assert_eq!(trim_dpm_clk("0: Mhz"), None);
    assert_eq!(trim_dpm_clk("0: 1x2Mhz"), None);
    assert_eq!(trim_dpm_clk("0: 99999999999999999999Mhz"), None);
}

#[test]
fn sw_info_ids() {
    assert_eq!(amdgpu_sw_info::address32_hi.id(), 0);
}

#[test]
fn record_13_0_7_round_trip() {
    let t = smu_13_0_7_powerplay_table {
        header: atom_common_table_header { structuresize: 0x0E10, format_revision: 20, content_revision: 1 },
        table_revision: 2,
        padding: 0,
        table_size: 0x0310,
        golden_pp_id: 1,
        golden_revision: 2,
        format_id: 0x91,
        platform_caps: 0x10,
        thermal_controller_type: 5,
        small_power_limit1: 10,
        small_power_limit2: 20,
        boost_power_limit: 30,
        software_shutdown_temp: 110,
    };
    let bytes = t.to_bytes();
    assert_eq!(bytes.len(), 31);
    assert_eq!(smu_13_0_7_powerplay_table::from_bytes(&bytes), t);
}

#[test]
fn header_bytes_are_little_endian() {
    let h = atom_common_table_header { structuresize: 0xBEEF, format_revision: 15, content_revision: 3 };
    assert_eq!(h.to_bytes(), vec![0xEF, 0xBE, 15, 3]);
    assert_eq!(atom_common_table_header::from_bytes(&[0xEF, 0xBE, 15, 3, 9]), h);
}

#[test]
fn display_names() {
    assert_eq!(FamilyName::NV.to_str(), "NV");
    assert_eq!(FamilyName::Unknown.to_str(), "Unknown");
    assert_eq!(AsicName::NAVI21.to_str(), "NAVI21");
    assert_eq!(ChipClass::GFX10_3.to_str(), "GFX10_3");
    assert_eq!(VramType::Gddr6.to_str(), "GDDR6");
    assert_eq!(VramType::Unknown.to_str(), "Unknown");
}

#[test]
fn device_name_lookup_with_bare_tabs() {
    let text = "# device_id\trevision_id\tname\n1002\tC1\tPlain Card\t\n73bf,\tc1,\tComma Card\n";
    assert_eq!(lookup_device_name(text, 0x1002, 0xC1), Some("Plain Card".to_string()));
    assert_eq!(lookup_device_name(text, 0x73BF, 0xC1), Some("Comma Card".to_string()));
    assert_eq!(lookup_device_name(text, 0x1002, 0xC2), None);
}

#[test]
fn marketing_name_falls_back_to_table() {
    assert_eq!(marketing_name_or_table("Radeon Pro", 0x744C, 0xC8), "Radeon Pro");
    assert_eq!(marketing_name_or_table("", 0x744C, 0xC8), "AMD Radeon RX 7900 XTX");
    assert_eq!(marketing_name_or_table("", 0x1, 0x2), DEFAULT_DEVICE_NAME);
}
