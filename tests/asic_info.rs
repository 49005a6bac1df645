use amdgpu_info::gpu_info::{amdgpu_gpu_info, count_ones, drm_amdgpu_info_device, rop_count};
use amdgpu_info::{AsicName, ChipClass, FamilyName, VramType, GPU_INFO};

fn device(family: u32, external_rev: u32) -> drm_amdgpu_info_device {
    drm_amdgpu_info_device {
        device_id: 0x73BF,
        chip_rev: 0,
        external_rev,
        pci_rev: 0xC1,
        family,
        num_shader_engines: 4,
        num_shader_arrays_per_engine: 2,
        max_engine_clock: 2_250_000,
        max_memory_clock: 1_000_000,
        cu_active_number: 80,
        num_rb_pipes: 4,
        ids_flags: 0,
        vram_type: 9,
        vram_bit_width: 256,
        num_tcc_blocks: 16,
        tcc_disabled_mask: 0,
    }
}

fn helper_info(family: u32, external_rev: u32) -> amdgpu_gpu_info {
    amdgpu_gpu_info {
        asic_id: 0x73BF,
        chip_rev: 0,
        chip_external_rev: external_rev,
        family_id: family,
        ids_flags: 0,
        max_engine_clk: 2_250_000,
        max_memory_clk: 1_000_000,
        num_shader_engines: 4,
        num_shader_arrays_per_engine: 2,
        rb_pipes: 4,
        enabled_rb_pipes_mask: 0xF,
        vram_type: 9,
        vram_bit_width: 256,
        pci_rev_id: 0xC1,
        cu_active_number: 80,
    }
}

#[test]
fn family_ids_map_to_families() {
    assert_eq!(FamilyName::from_id(110), FamilyName::SI);
    assert_eq!(FamilyName::from_id(143), FamilyName::NV);
    assert_eq!(FamilyName::from_id(145), FamilyName::GC_11_0_0);
    assert_eq!(FamilyName::from_id(151), FamilyName::GC_10_3_7);
    assert_eq!(FamilyName::from_id(0), FamilyName::Unknown);
    assert_eq!(FamilyName::from_id(u32::MAX), FamilyName::Unknown);
}

#[test]
fn every_family_id_up_to_a_thousand_resolves() {
    let mut known = 0;
    for id in 0..1000u32 {
        if FamilyName::from_id(id) != FamilyName::Unknown {
            known += 1;
        }
    }
    assert_eq!(known, 14);
}

#[test]
fn revisions_are_family_local() {
    assert_eq!(FamilyName::NV.asic_name(0x28), AsicName::NAVI21);
    assert_eq!(FamilyName::AI.asic_name(0x28), AsicName::VEGA20);
    assert_eq!(FamilyName::SI.asic_name(0x28), AsicName::VERDE);
    assert_eq!(FamilyName::GC_11_0_0.asic_name(0x10), AsicName::GFX1102);
    assert_eq!(FamilyName::NV.asic_name(0x50), AsicName::Unknown);
    assert_eq!(FamilyName::Unknown.asic_name(0x01), AsicName::Unknown);
}

#[test]
fn range_bounds_are_inclusive() {
    assert_eq!(FamilyName::NV.asic_name(0x09), AsicName::NAVI10);
    assert_eq!(FamilyName::NV.asic_name(0x0A), AsicName::NAVI12);
    assert_eq!(FamilyName::NV.asic_name(0x4F), AsicName::NAVI24);
    assert_eq!(FamilyName::NV.asic_name(0x00), AsicName::Unknown);
}

#[test]
fn chip_class_follows_asic() {
    assert_eq!(AsicName::TAHITI.chip_class(), ChipClass::GFX6);
    assert_eq!(AsicName::POLARIS10.chip_class(), ChipClass::GFX8);
    assert_eq!(AsicName::NAVI10.chip_class(), ChipClass::GFX10);
    assert_eq!(AsicName::NAVI21.chip_class(), ChipClass::GFX10_3);
    assert_eq!(AsicName::GFX1100.chip_class(), ChipClass::GFX11);
    assert_eq!(AsicName::Unknown.chip_class(), ChipClass::Unknown);
    let info = device(143, 0x28);
    assert_eq!(info.get_chip_class(), info.get_chip_class());
    assert_eq!(info.get_chip_class(), info.get_asic_name().chip_class());
}

#[test]
fn cu_group_doubles_from_gfx10() {
    assert_eq!(ChipClass::GFX9.cu_group(), 1);
    assert_eq!(ChipClass::GFX10.cu_group(), 2);
    assert_eq!(ChipClass::GFX11.cu_group(), 2);
    assert_eq!(ChipClass::Unknown.cu_group(), 1);
}

#[test]
fn vram_codes_map_to_types() {
    assert_eq!(VramType::from_code(9), VramType::Gddr6);
    assert_eq!(VramType::from_code(6), VramType::Hbm);
    assert_eq!(VramType::from_code(12), VramType::Lpddr5);
    assert_eq!(VramType::from_code(0), VramType::Unknown);
    assert_eq!(VramType::from_code(99), VramType::Unknown);
}

#[test]
fn peak_bandwidth_of_gddr6() {
    assert_eq!(VramType::Gddr6.peak_bw(1_000_000, 256), 512_000);
    assert_eq!(VramType::Hbm.peak_bw(1_000_000, 4096), 1_024_000);
    let info = device(143, 0x28);
    assert_eq!(info.peak_memory_bw(), 512_000);
    assert_eq!(info.peak_memory_bw_gb(), 512);
}

#[test]
fn peak_bandwidth_zero_clock_and_unknown_type() {
    assert_eq!(VramType::Gddr6.peak_bw(0, 256), 0);
    assert_eq!(VramType::Gddr5.peak_bw(0, u32::MAX), 0);
    assert_eq!(VramType::Unknown.peak_bw(1_000_000, 256), 0);
    assert_eq!(VramType::Gddr6.peak_bw(u64::MAX, u32::MAX), u64::MAX);
}

#[test]
fn rop_count_per_backend() {
    assert_eq!(rop_count(4, false), 16);
    assert_eq!(rop_count(4, true), 32);
    assert_eq!(device(143, 0x28).calc_rop_count(), 32);
    assert_eq!(device(143, 0x01).calc_rop_count(), 16);
    assert_eq!(rop_count(u32::MAX, true), u32::MAX as u64 * 8);
}

#[test]
fn peak_gflops_truncates() {
    assert_eq!(device(143, 0x28).peak_gflops(), 23040);
    let mut info = device(143, 0x28);
    info.max_engine_clock = 1_999;
    info.cu_active_number = 10;
    assert_eq!(info.peak_gflops(), 1);
    info.max_engine_clock = 1_099_511_627_776_000;
    info.cu_active_number = 1;
    assert_eq!(info.peak_gflops(), 3_298_534_883);
    info.max_engine_clock = 33_554_432_000_000;
    assert_eq!(info.peak_gflops(), 0);
}

#[test]
fn cu_per_shader_array_even_and_uneven() {
    let info = device(143, 0x28);
    assert_eq!(info.get_max_good_cu_per_sa(), Some(10));
    assert_eq!(info.get_min_good_cu_per_sa(), Some(10));
    let mut cut = device(143, 0x28);
    cut.cu_active_number = 72;
    assert_eq!(cut.get_max_good_cu_per_sa(), Some(10));
    assert_eq!(cut.get_min_good_cu_per_sa(), Some(8));
    let mut old = device(130, 0x50);
    old.cu_active_number = 36;
    old.num_shader_arrays_per_engine = 1;
    assert_eq!(old.get_max_good_cu_per_sa(), Some(9));
    assert_eq!(old.get_min_good_cu_per_sa(), Some(9));
}

#[test]
fn cu_per_shader_array_without_shader_arrays() {
    let mut info = device(143, 0x28);
    info.num_shader_engines = 0;
    assert_eq!(info.get_max_good_cu_per_sa(), None);
    assert_eq!(info.get_min_good_cu_per_sa(), None);
}

#[test]
fn apu_flag() {
    let mut info = device(146, 0x01);
    assert!(!info.is_apu());
    info.ids_flags = 0x1;
    assert!(info.is_apu());
    info.ids_flags = 0x2;
    assert!(!info.is_apu());
}

#[test]
fn l2_cache_subtracts_disabled_blocks() {
    let mut info = device(143, 0x01);
    info.tcc_disabled_mask = 0b0011;
    assert_eq!(info.get_max_tcc_blocks(), 16);
    assert_eq!(info.get_actual_num_tcc_blocks(), 14);
    assert_eq!(info.calc_l2_cache_size(), 14 * 256 * 1024);
}

#[test]
fn l3_cache_by_channel() {
    let info = device(143, 0x28);
    assert_eq!(info.calc_l3_cache_size_mb(), 128);
    let mut cut = device(143, 0x28);
    cut.tcc_disabled_mask = 0xF0;
    assert_eq!(cut.calc_l3_cache_size_mb(), 96);
    assert_eq!(device(143, 0x01).calc_l3_cache_size_mb(), 0);
}

#[test]
fn disable_mask_wider_than_blocks() {
    let mut info = device(143, 0x01);
    info.num_tcc_blocks = 2;
    info.tcc_disabled_mask = 0b111;
    assert_eq!(info.get_actual_num_tcc_blocks(), 0);
    assert_eq!(info.calc_l2_cache_size(), 0);
}

#[test]
fn counts_set_bits() {
    assert_eq!(count_ones(0), 0);
    assert_eq!(count_ones(0b1011), 3);
    assert_eq!(count_ones(u64::MAX), 64);
}

#[test]
fn l1_and_gl1_sizes() {
    assert_eq!(device(143, 0x28).get_l1_cache_size(), 16 * 1024);
    assert_eq!(device(143, 0x28).get_gl1_cache_size(), 128 * 1024);
    assert_eq!(device(145, 0x01).get_l1_cache_size(), 32 * 1024);
    assert_eq!(device(145, 0x01).get_gl1_cache_size(), 256 * 1024);
    assert_eq!(device(141, 0x01).get_gl1_cache_size(), 0);
}

#[test]
fn both_raw_shapes_agree() {
    let a = device(143, 0x28);
    let b = helper_info(143, 0x28);
    assert_eq!(a.get_family_name(), b.get_family_name());
    assert_eq!(a.get_asic_name(), b.get_asic_name());
    assert_eq!(a.get_chip_class(), b.get_chip_class());
    assert_eq!(a.get_vram_type(), b.get_vram_type());
    assert_eq!(a.peak_memory_bw(), b.peak_memory_bw());
    assert_eq!(a.calc_rop_count(), b.calc_rop_count());
    assert_eq!(a.peak_gflops(), b.peak_gflops());
    assert_eq!(a.get_max_good_cu_per_sa(), b.get_max_good_cu_per_sa());
    assert_eq!(a.get_min_good_cu_per_sa(), b.get_min_good_cu_per_sa());
    assert_eq!(b.device_id(), 0x73BF);
    assert_eq!(b.pci_rev_id(), 0xC1);
}

#[test]
fn conversions_from_raw_codes() {
    assert_eq!(VramType::from(9u32), VramType::Gddr6);
    assert_eq!(VramType::from(1000u32), VramType::Unknown);
    assert_eq!(FamilyName::from(143u32), FamilyName::NV);
    assert_eq!(FamilyName::from(7u32), FamilyName::Unknown);
}

#[test]
fn same_revision_in_every_family() {
    let families = [110u32, 120, 125, 130, 135, 141, 142, 143, 144, 145, 146, 148, 149, 151, 0];
    for family in families {
        let info = device(family, 0x01);
        let asic = info.get_asic_name();
        assert_eq!(asic == AsicName::Unknown, info.get_chip_class() == ChipClass::Unknown);
    }
}

#[test]
fn device_name_through_raw_info() {
    let mut info = device(145, 0x01);
    info.device_id = 0x744C;
    info.pci_rev = 0xC8;
    assert_eq!(info.parse_amdgpu_ids(), "AMD Radeon RX 7900 XTX");
    info.pci_rev = 0x00;
    assert_eq!(info.parse_amdgpu_ids(), amdgpu_info::DEFAULT_DEVICE_NAME);
    let helper = helper_info(143, 0x28);
    assert_eq!(helper.parse_amdgpu_ids(), amdgpu_info::parse_amdgpu_ids(0x73BF, 0xC1));
}
