//! Identification and capability derivation for AMD GPUs from the integers that
//! the amdgpu kernel driver reports, and decoding of power-play table blobs.
pub mod asic;
pub mod dpm;
pub mod family;
pub mod gpu_info;
pub mod ids;
pub mod pp_table;
pub mod query;
pub mod vram;

pub use asic::{AsicName, ChipClass};
pub use dpm::trim_dpm_clk;
pub use family::{AsicRule, FamilyName};
pub use gpu_info::{
    amdgpu_gpu_info, count_ones, drm_amdgpu_info_device, rop_count, RawAsicInfo,
    AMDGPU_IDS_FLAGS_FUSION, GPU_INFO,
};
pub use ids::{
    find_device_name, lookup_device_name, marketing_name_or_table, parse_amdgpu_ids, AMDGPU_IDS,
    DEFAULT_DEVICE_NAME,
};
pub use pp_table::{
    atom_common_table_header, smu_11_0_7_powerplay_table, smu_11_0_powerplay_table,
    smu_13_0_0_powerplay_table, smu_13_0_7_powerplay_table, PPTable,
};
pub use query::{amdgpu_sw_info, GRBM_STATUS2_OFFSET, GRBM_STATUS_OFFSET};
pub use vram::VramType;
