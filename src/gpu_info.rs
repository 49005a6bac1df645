//! The quantities derived from the raw ASIC information that the driver reports.
use vstd::prelude::*;
use crate::asic::{
    AsicName, ChipClass, class_of, cu_group_of, gl1_size_of, l1_size_of, l2_per_block_of,
    l3_mb_per_channel_of, rbplus_of,
};
use crate::family::{FamilyName, asic_of, family_of};
use crate::ids::{AMDGPU_IDS, DEFAULT_DEVICE_NAME, lookup_from};
use vstd::string::StringSliceAdditionalSpecFns;
use vstd::utf8::encode_utf8;
use crate::vram::{VramType, peak_bw_of, vram_type_of};

verus! {

/// Bit of `ids_flags` that marks an APU (a GPU fused with the CPU).
pub const AMDGPU_IDS_FLAGS_FUSION: u64 = 0x1;

/// The raw fields that both query results carry, under one set of names.
#[derive(Clone, Copy, Debug, PartialEq, Eq, Structural)]
pub struct RawAsicInfo {
    pub family_id: u32,
    pub chip_external_rev: u32,
    pub device_id: u32,
    pub pci_rev_id: u32,
    pub vram_type: u32,
    pub vram_bit_width: u32,
    /// kHz
    pub max_memory_clock: u64,
    /// kHz
    pub max_engine_clock: u64,
    pub ids_flags: u64,
    pub rb_pipes: u32,
    pub cu_active_number: u32,
    pub max_se: u32,
    pub max_sa_per_se: u32,
}

/// The chip that raw information describes.
pub open spec fn raw_asic(r: RawAsicInfo) -> AsicName {
    asic_of(family_of(r.family_id), r.chip_external_rev)
}

/// ROPs of `rb_pipes` render backends, eight each with ROP+ and four without.
pub open spec fn rop_count_of(rb_pipes: nat, rop_plus: bool) -> nat {
    rb_pipes * (if rop_plus { 8nat } else { 4nat })
}

/// Exact peak single-precision throughput in GFLOPS, each division truncating.
pub open spec fn gflops_exact(cu: nat, engine_clock: nat) -> nat {
    cu * 64 * 2 * (engine_clock / 1000) / 1000
}

/// `gflops_exact` cut to its low 32 bits, as a conversion to `u32` keeps them.
pub open spec fn gflops_of(cu: nat, engine_clock: nat) -> nat {
    gflops_exact(cu, engine_clock) % 0x1_0000_0000
}

/// Shader arrays of the whole chip.
pub open spec fn total_sa_of(r: RawAsicInfo) -> nat {
    r.max_se as nat * r.max_sa_per_se as nat
}

/// Compute units per enable group of the chip.
pub open spec fn raw_cu_group(r: RawAsicInfo) -> nat {
    cu_group_of(class_of(raw_asic(r)))
}

/// Compute units of the fullest shader array: active compute units spread
/// over all shader arrays in whole groups, rounded up.
pub open spec fn max_cu_per_sa_of(r: RawAsicInfo) -> nat
    recommends
        total_sa_of(r) > 0,
{
    let d = total_sa_of(r) * raw_cu_group(r);
    ((r.cu_active_number as nat + d - 1) as nat / d) * raw_cu_group(r)
}

/// Compute units of the emptiest shader array: active compute units spread
/// over all shader arrays in whole groups, rounded down.
pub open spec fn min_cu_per_sa_of(r: RawAsicInfo) -> nat
    recommends
        total_sa_of(r) > 0,
{
    let d = total_sa_of(r) * raw_cu_group(r);
    (r.cu_active_number as nat / d) * raw_cu_group(r)
}

/// Shader engines times shader arrays per engine.
fn shader_array_count(se: u32, sa_per_se: u32) -> (r: u64)
    ensures
        r == se as nat * sa_per_se as nat,
{
    assert(se as nat * sa_per_se as nat <= 0xffff_ffffu64 * 0xffff_ffffu64) by (nonlinear_arith)
        requires
            se <= 0xffff_ffffu32,
            sa_per_se <= 0xffff_ffffu32,
    ;
    se as u64 * sa_per_se as u64
}

/// ROPs of `rb_pipes` render backends, with or without ROP+.
pub fn rop_count(rb_pipes: u32, rop_plus: bool) -> (r: u64)
    ensures
        r == rop_count_of(rb_pipes as nat, rop_plus),
{
    let per_rb: u64 = if rop_plus { 8 } else { 4 };
    rb_pipes as u64 * per_rb
}

/// Raw ASIC information, whichever query produced it, and what follows from it.
#[allow(non_camel_case_types)]
pub trait GPU_INFO {
    /// The raw fields of this value.
    spec fn raw_info(&self) -> RawAsicInfo;

    fn family_id(&self) -> (r: u32)
        ensures
            r == self.raw_info().family_id;

    fn chip_external_rev(&self) -> (r: u32)
        ensures
            r == self.raw_info().chip_external_rev;

    fn device_id(&self) -> (r: u32)
        ensures
            r == self.raw_info().device_id;

    fn pci_rev_id(&self) -> (r: u32)
        ensures
            r == self.raw_info().pci_rev_id;

    fn vram_type(&self) -> (r: u32)
        ensures
            r == self.raw_info().vram_type;

    /// The driver reports the width of one memory channel for LPDDR5 as 64 bits.
    fn vram_bit_width(&self) -> (r: u32)
        ensures
            r == self.raw_info().vram_bit_width;

    /// kHz
    fn max_memory_clock(&self) -> (r: u64)
        ensures
            r == self.raw_info().max_memory_clock;

    /// kHz
    fn max_engine_clock(&self) -> (r: u64)
        ensures
            r == self.raw_info().max_engine_clock;

    fn ids_flags(&self) -> (r: u64)
        ensures
            r == self.raw_info().ids_flags;

    fn rb_pipes(&self) -> (r: u32)
        ensures
            r == self.raw_info().rb_pipes;

    fn cu_active_number(&self) -> (r: u32)
        ensures
            r == self.raw_info().cu_active_number;

    fn max_se(&self) -> (r: u32)
        ensures
            r == self.raw_info().max_se;

    fn max_sa_per_se(&self) -> (r: u32)
        ensures
            r == self.raw_info().max_sa_per_se;

    /// The family that the family id names.
    fn get_family_name(&self) -> (r: FamilyName)
        ensures
            r == family_of(self.raw_info().family_id),
    {
        FamilyName::from_id(self.family_id())
    }

    /// The chip, from the family and the external revision.
    fn get_asic_name(&self) -> (r: AsicName)
        ensures
            r == raw_asic(self.raw_info()),
    {
        self.get_family_name().asic_name(self.chip_external_rev())
    }

    /// The generation of the chip.
    fn get_chip_class(&self) -> (r: ChipClass)
        ensures
            r == class_of(raw_asic(self.raw_info())),
    {
        self.get_asic_name().chip_class()
    }

    /// The memory technology that the type code names.
    fn get_vram_type(&self) -> (r: VramType)
        ensures
            r == vram_type_of(self.raw_info().vram_type),
    {
        VramType::from_code(self.vram_type())
    }

    /// Whether the fusion flag is set: the GPU is part of an APU.
    fn is_apu(&self) -> (r: bool)
        ensures
            r == (self.raw_info().ids_flags & AMDGPU_IDS_FLAGS_FUSION != 0),
    {
        (self.ids_flags() & AMDGPU_IDS_FLAGS_FUSION) != 0
    }

    /// Peak memory bandwidth in MB/s.
    fn peak_memory_bw(&self) -> (r: u64)
        ensures
            r == peak_bw_of(
                vram_type_of(self.raw_info().vram_type),
                self.raw_info().max_memory_clock as nat,
                self.raw_info().vram_bit_width as nat,
            ),
    {
        let vram_type = self.get_vram_type();
        vram_type.peak_bw(self.max_memory_clock(), self.vram_bit_width())
    }

    /// Peak memory bandwidth in GB/s, rounded down.
    fn peak_memory_bw_gb(&self) -> (r: u64)
        ensures
            r == peak_bw_of(
                vram_type_of(self.raw_info().vram_type),
                self.raw_info().max_memory_clock as nat,
                self.raw_info().vram_bit_width as nat,
            ) / 1000,
    {
        self.peak_memory_bw() / 1000
    }

    /// ROPs of the chip: eight per render backend where the chip has ROP+, else four.
    fn calc_rop_count(&self) -> (r: u64)
        ensures
            r == rop_count_of(self.raw_info().rb_pipes as nat, rbplus_of(raw_asic(self.raw_info()))),
    {
        rop_count(self.rb_pipes(), self.get_asic_name().rbplus_allowed())
    }

    /// Peak throughput in GFLOPS: 64 lanes per compute unit, two operations
    /// per fused multiply-add, at the engine clock (truncated to MHz), the
    /// product truncated to GFLOPS; only its low 32 bits are kept.
    fn peak_gflops(&self) -> (r: u32)
        ensures
            r == gflops_of(self.raw_info().cu_active_number as nat, self.raw_info().max_engine_clock as nat),
    {
        let cu = self.cu_active_number();
        let clk = self.max_engine_clock() / 1000;
        let lanes: u128 = cu as u128 * 64 * 2;
        assert(lanes * clk <= 0xffff_ffffu128 * 128 * 0xffff_ffff_ffff_ffffu128) by (nonlinear_arith)
            requires
                lanes == cu * 128,
                cu <= 0xffff_ffffu32,
                clk <= 0xffff_ffff_ffff_ffffu64,
        {
            assert(lanes <= 0xffff_ffffu128 * 128);
        }
        let v: u128 = lanes * clk as u128 / 1000;
        (v % 0x1_0000_0000) as u32
    }

    /// The marketing name of the device from the built-in device-id table, or
    /// the default name where the table does not list it.
    fn parse_amdgpu_ids(&self) -> (r: String)
        ensures
            match lookup_from(AMDGPU_IDS.spec_bytes(), 0, self.raw_info().device_id, self.raw_info().pci_rev_id) {
                Some((a, b)) => encode_utf8(r@) == AMDGPU_IDS.spec_bytes().subrange(a, b),
                None => r@ == DEFAULT_DEVICE_NAME@ && r@.len() > 0,
            },
    {
        crate::ids::parse_amdgpu_ids(self.device_id(), self.pci_rev_id())
    }

    /// Compute units of the fullest shader array, or `None` where the chip
    /// reports no shader array.
    fn get_max_good_cu_per_sa(&self) -> (r: Option<u64>)
        ensures
            total_sa_of(self.raw_info()) == 0 <==> r is None,
            r matches Some(v) ==> v == max_cu_per_sa_of(self.raw_info()),
    {
        let cu_group = self.get_chip_class().cu_group() as u64;
        let sa = shader_array_count(self.max_se(), self.max_sa_per_se());
        if sa == 0 {
            return None;
        }
        let n = self.cu_active_number() as u64;
        let d: u128 = sa as u128 * cu_group as u128;
        assert(1 <= d <= 2 * 0xffff_ffff_ffff_ffffu128) by (nonlinear_arith)
            requires
                d == sa * cu_group,
                1 <= sa <= 0xffff_ffff_ffff_ffffu64,
                1 <= cu_group <= 2,
        ;
        let q: u128 = (n as u128 + d - 1) / d;
        assert(q <= n as int) by (nonlinear_arith)
            requires
                q == (n as int + d - 1) / (d as int),
                d >= 1,
        {
            if n >= 1 {
                assert(n as int + d - 1 < (n as int + 1) * d);
            }
        }
        assert(q * cu_group <= 2 * 0xffff_ffffu128) by (nonlinear_arith)
            requires
                q <= n,
                n <= 0xffff_ffffu64,
                cu_group <= 2,
        ;
        Some(q as u64 * cu_group)
    }

    /// Compute units of the emptiest shader array, or `None` where the chip
    /// reports no shader array.
    fn get_min_good_cu_per_sa(&self) -> (r: Option<u32>)
        ensures
            total_sa_of(self.raw_info()) == 0 <==> r is None,
            r matches Some(v) ==> v == min_cu_per_sa_of(self.raw_info()),
    {
        let cu_group = self.get_chip_class().cu_group() as u64;
        let sa = shader_array_count(self.max_se(), self.max_sa_per_se());
        if sa == 0 {
            return None;
        }
        let n = self.cu_active_number();
        let d: u128 = sa as u128 * cu_group as u128;
        assert(cu_group <= d <= 2 * 0xffff_ffff_ffff_ffffu128) by (nonlinear_arith)
            requires
                d == sa * cu_group,
                1 <= sa <= 0xffff_ffff_ffff_ffffu64,
                1 <= cu_group <= 2,
        ;
        let q: u128 = n as u128 / d;
        assert(q * cu_group <= n as int) by (nonlinear_arith)
            requires
                q == (n as int) / (d as int),
                d == sa * cu_group,
                sa >= 1,
                cu_group >= 1,
        {
            assert(q * d <= n as int);
            assert(q * cu_group <= q * d);
        }
        Some((q * cu_group as u128) as u32)
    }

    /// Bytes of L1 cache per compute unit.
    fn get_l1_cache_size(&self) -> (r: u32)
        ensures
            r == l1_size_of(raw_asic(self.raw_info())),
    {
        self.get_asic_name().l1_cache_size()
    }

    /// Bytes of graphics L1 cache per shader array.
    fn get_gl1_cache_size(&self) -> (r: u32)
        ensures
            r == gl1_size_of(raw_asic(self.raw_info())),
    {
        self.get_asic_name().gl1_cache_size()
    }
}


/// A chip is known exactly when its generation is known: every known chip
/// belongs to one known generation, and only the unknown chip to none.
pub proof fn lemma_asic_class_consistent(f: FamilyName, rev: u32)
    ensures
        (asic_of(f, rev) == AsicName::Unknown) <==> (class_of(asic_of(f, rev)) == ChipClass::Unknown),
{
}

/// Two values with the same raw fields name the same chip and generation.
pub proof fn lemma_identity_depends_on_raw_fields(a: RawAsicInfo, b: RawAsicInfo)
    requires
        a.family_id == b.family_id,
        a.chip_external_rev == b.chip_external_rev,
    ensures
        raw_asic(a) == raw_asic(b),
        class_of(raw_asic(a)) == class_of(raw_asic(b)),
{
}

/// The fullest shader array never holds fewer compute units than the
/// emptiest, and the two hold as many when the active compute units fill the
/// shader arrays in whole groups.
pub proof fn lemma_cu_per_sa_order(r: RawAsicInfo)
    requires
        total_sa_of(r) > 0,
    ensures
        max_cu_per_sa_of(r) >= min_cu_per_sa_of(r),
        r.cu_active_number as nat % (total_sa_of(r) * raw_cu_group(r)) == 0 ==> max_cu_per_sa_of(r)
            == min_cu_per_sa_of(r),
{
    let g = raw_cu_group(r);
    let d = total_sa_of(r) * g;
    let n = r.cu_active_number as nat;
    assert(g >= 1);
    assert(d >= 1) by (nonlinear_arith)
        requires
            d == total_sa_of(r) * g,
            total_sa_of(r) >= 1,
            g >= 1,
    ;
    assert((n + d - 1) as nat / d >= n / d) by (nonlinear_arith)
        requires
            d >= 1,
    {
        vstd::arithmetic::div_mod::lemma_div_is_ordered(n as int, (n + d - 1) as int, d as int);
    }
    vstd::arithmetic::mul::lemma_mul_inequality((n / d) as int, ((n + d - 1) as nat / d) as int, g as int);
    if n % d == 0 {
        assert((n + d - 1) as nat / d == n / d) by (nonlinear_arith)
            requires
                d >= 1,
                n % d == 0,
        {
            vstd::arithmetic::div_mod::lemma_fundamental_div_mod(n as int, d as int);
            let q = n / d;
            assert(n == q * d);
            vstd::arithmetic::div_mod::lemma_fundamental_div_mod_converse(
                (n + d - 1) as int,
                d as int,
                q as int,
                (d - 1) as int,
            );
        }
    }
}

/// Set bits of `x`.
pub open spec fn popcount(x: u64) -> nat
    decreases x,
{
    if x == 0 { 0 } else { (x % 2) as nat + popcount(x / 2) }
}

proof fn lemma_popcount_le(x: u64)
    ensures
        popcount(x) <= x,
    decreases x,
{
    if x != 0 {
        lemma_popcount_le(x / 2);
    }
}

/// Number of set bits of `x`.
pub fn count_ones(x: u64) -> (r: u64)
    ensures
        r == popcount(x),
{
    let mut v = x;
    let mut c: u64 = 0;
    proof { lemma_popcount_le(x); }
    while v != 0
        invariant
            c + popcount(v) == popcount(x),
            popcount(x) <= x,
        decreases v,
    {
        c = c + v % 2;
        v = v / 2;
    }
    c
}

/// TCC blocks left active once those of the disable mask are taken away;
/// zero where the mask disables as many blocks as there are, or more.
pub open spec fn active_tcc_of(num_tcc_blocks: u32, disabled_mask: u64) -> nat {
    if popcount(disabled_mask) >= num_tcc_blocks { 0 } else {
        (num_tcc_blocks - popcount(disabled_mask)) as nat
    }
}

/// ASIC information as the user-space helper library reports it.
#[allow(non_camel_case_types)]
#[derive(Clone, Copy, Debug, PartialEq, Eq, Structural)]
pub struct amdgpu_gpu_info {
    pub asic_id: u32,
    pub chip_rev: u32,
    pub chip_external_rev: u32,
    pub family_id: u32,
    pub ids_flags: u64,
    /// kHz
    pub max_engine_clk: u64,
    /// kHz
    pub max_memory_clk: u64,
    pub num_shader_engines: u32,
    pub num_shader_arrays_per_engine: u32,
    pub rb_pipes: u32,
    pub enabled_rb_pipes_mask: u32,
    pub vram_type: u32,
    pub vram_bit_width: u32,
    pub pci_rev_id: u32,
    pub cu_active_number: u32,
}

/// ASIC information as the kernel's device-info query reports it.
#[allow(non_camel_case_types)]
#[derive(Clone, Copy, Debug, PartialEq, Eq, Structural)]
pub struct drm_amdgpu_info_device {
    pub device_id: u32,
    pub chip_rev: u32,
    pub external_rev: u32,
    pub pci_rev: u32,
    pub family: u32,
    pub num_shader_engines: u32,
    pub num_shader_arrays_per_engine: u32,
    /// kHz
    pub max_engine_clock: u64,
    /// kHz
    pub max_memory_clock: u64,
    pub cu_active_number: u32,
    pub num_rb_pipes: u32,
    pub ids_flags: u64,
    pub vram_type: u32,
    pub vram_bit_width: u32,
    pub num_tcc_blocks: u32,
    pub tcc_disabled_mask: u64,
}

impl GPU_INFO for amdgpu_gpu_info {
    open spec fn raw_info(&self) -> RawAsicInfo {
        RawAsicInfo {
            family_id: self.family_id,
            chip_external_rev: self.chip_external_rev,
            device_id: self.asic_id,
            pci_rev_id: self.pci_rev_id,
            vram_type: self.vram_type,
            vram_bit_width: self.vram_bit_width,
            max_memory_clock: self.max_memory_clk,
            max_engine_clock: self.max_engine_clk,
            ids_flags: self.ids_flags,
            rb_pipes: self.rb_pipes,
            cu_active_number: self.cu_active_number,
            max_se: self.num_shader_engines,
            max_sa_per_se: self.num_shader_arrays_per_engine,
        }
    }

    fn family_id(&self) -> (r: u32) {
        self.family_id
    }

    fn chip_external_rev(&self) -> (r: u32) {
        self.chip_external_rev
    }

    fn device_id(&self) -> (r: u32) {
        self.asic_id
    }

    fn pci_rev_id(&self) -> (r: u32) {
        self.pci_rev_id
    }

    fn vram_type(&self) -> (r: u32) {
        self.vram_type
    }

    fn vram_bit_width(&self) -> (r: u32) {
        self.vram_bit_width
    }

    fn max_memory_clock(&self) -> (r: u64) {
        self.max_memory_clk
    }

    fn max_engine_clock(&self) -> (r: u64) {
        self.max_engine_clk
    }

    fn ids_flags(&self) -> (r: u64) {
        self.ids_flags
    }

    fn rb_pipes(&self) -> (r: u32) {
        self.rb_pipes
    }

    fn cu_active_number(&self) -> (r: u32) {
        self.cu_active_number
    }

    fn max_se(&self) -> (r: u32) {
        self.num_shader_engines
    }

    fn max_sa_per_se(&self) -> (r: u32) {
        self.num_shader_arrays_per_engine
    }
}

impl GPU_INFO for drm_amdgpu_info_device {
    open spec fn raw_info(&self) -> RawAsicInfo {
        RawAsicInfo {
            family_id: self.family,
            chip_external_rev: self.external_rev,
            device_id: self.device_id,
            pci_rev_id: self.pci_rev,
            vram_type: self.vram_type,
            vram_bit_width: self.vram_bit_width,
            max_memory_clock: self.max_memory_clock,
            max_engine_clock: self.max_engine_clock,
            ids_flags: self.ids_flags,
            rb_pipes: self.num_rb_pipes,
            cu_active_number: self.cu_active_number,
            max_se: self.num_shader_engines,
            max_sa_per_se: self.num_shader_arrays_per_engine,
        }
    }

    fn family_id(&self) -> (r: u32) {
        self.family
    }

    fn chip_external_rev(&self) -> (r: u32) {
        self.external_rev
    }

    fn device_id(&self) -> (r: u32) {
        self.device_id
    }

    fn pci_rev_id(&self) -> (r: u32) {
        self.pci_rev
    }

    fn vram_type(&self) -> (r: u32) {
        self.vram_type
    }

    fn vram_bit_width(&self) -> (r: u32) {
        self.vram_bit_width
    }

    fn max_memory_clock(&self) -> (r: u64) {
        self.max_memory_clock
    }

    fn max_engine_clock(&self) -> (r: u64) {
        self.max_engine_clock
    }

    fn ids_flags(&self) -> (r: u64) {
        self.ids_flags
    }

    fn rb_pipes(&self) -> (r: u32) {
        self.num_rb_pipes
    }

    fn cu_active_number(&self) -> (r: u32) {
        self.cu_active_number
    }

    fn max_se(&self) -> (r: u32) {
        self.num_shader_engines
    }

    fn max_sa_per_se(&self) -> (r: u32) {
        self.num_shader_arrays_per_engine
    }
}

impl drm_amdgpu_info_device {
    /// TCC blocks of the chip, disabled ones included.
    pub fn get_max_tcc_blocks(&self) -> (r: u32)
        ensures
            r == self.num_tcc_blocks,
    {
        self.num_tcc_blocks
    }

    /// Active TCC blocks, which are the memory channels: the blocks less the
    /// set bits of the disable mask.
    pub fn get_actual_num_tcc_blocks(&self) -> (r: u32)
        ensures
            r == active_tcc_of(self.num_tcc_blocks, self.tcc_disabled_mask),
    {
        let disabled = count_ones(self.tcc_disabled_mask);
        if disabled >= self.num_tcc_blocks as u64 {
            0
        } else {
            self.num_tcc_blocks - disabled as u32
        }
    }

    /// Bytes of L2 cache: active TCC blocks times the chip's L2 bytes per block.
    pub fn calc_l2_cache_size(&self) -> (r: u64)
        ensures
            r == active_tcc_of(self.num_tcc_blocks, self.tcc_disabled_mask)
                * l2_per_block_of(raw_asic(self.raw_info())),
    {
        let per_block = self.get_asic_name().l2_cache_size_per_block();
        let active = self.get_actual_num_tcc_blocks();
        assert(active as nat * per_block as nat <= 0xffff_ffffu64 * 0xffff_ffffu64) by (nonlinear_arith)
            requires
                active <= 0xffff_ffffu32,
                per_block <= 0xffff_ffffu32,
        ;
        active as u64 * per_block as u64
    }

    /// Megabytes of L3 cache: active TCC blocks times the chip's L3 megabytes
    /// per memory channel.
    pub fn calc_l3_cache_size_mb(&self) -> (r: u64)
        ensures
            r == active_tcc_of(self.num_tcc_blocks, self.tcc_disabled_mask)
                * l3_mb_per_channel_of(raw_asic(self.raw_info())),
    {
        let per_channel = self.get_asic_name().l3_cache_size_mb_per_channel();
        let active = self.get_actual_num_tcc_blocks();
        assert(active as nat * per_channel as nat <= 0xffff_ffffu64 * 0xffff_ffffu64) by (nonlinear_arith)
            requires
                active <= 0xffff_ffffu32,
                per_channel <= 0xffff_ffffu32,
        ;
        active as u64 * per_channel as u64
    }
}

} // verus!
