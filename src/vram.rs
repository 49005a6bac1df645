//! Video memory technologies and the peak bandwidth they give.
use vstd::prelude::*;

verus! {

/// Memory technology of the VRAM, as the driver's type code names it.
#[derive(Clone, Copy, Debug, PartialEq, Eq, Structural)]
pub enum VramType {
    Unknown,
    Gddr1,
    Ddr2,
    Gddr3,
    Gddr4,
    Gddr5,
    Hbm,
    Ddr3,
    Ddr4,
    Gddr6,
    Ddr5,
    Lpddr4,
    Lpddr5,
}

/// The memory technology that a raw driver type code stands for.
pub open spec fn vram_type_of(code: u32) -> VramType {
    match code {
        1 => VramType::Gddr1,
        2 => VramType::Ddr2,
        3 => VramType::Gddr3,
        4 => VramType::Gddr4,
        5 => VramType::Gddr5,
        6 => VramType::Hbm,
        7 => VramType::Ddr3,
        8 => VramType::Ddr4,
        9 => VramType::Gddr6,
        10 => VramType::Ddr5,
        11 => VramType::Lpddr4,
        12 => VramType::Lpddr5,
        _ => VramType::Unknown,
    }
}

/// Memory operations per memory clock for each technology; zero where the
/// technology is unknown or too old to be rated.
pub open spec fn ops_per_clock_of(t: VramType) -> nat {
    match t {
        VramType::Ddr2 | VramType::Ddr3 | VramType::Ddr4 | VramType::Lpddr4 | VramType::Hbm => 2,
        VramType::Ddr5 | VramType::Lpddr5 | VramType::Gddr5 => 4,
        VramType::Gddr6 => 16,
        _ => 0,
    }
}

/// Exact peak bandwidth in MB/s for a memory clock in kHz and a bus width in bits.
pub open spec fn peak_bw_exact(t: VramType, memory_clock: nat, bit_width: nat) -> nat {
    ops_per_clock_of(t) * memory_clock * bit_width / 8 / 1000
}

/// `peak_bw_exact`, held to the range of a `u64`.
pub open spec fn peak_bw_of(t: VramType, memory_clock: nat, bit_width: nat) -> nat {
    let v = peak_bw_exact(t, memory_clock, bit_width);
    if v > u64::MAX { u64::MAX as nat } else { v }
}

impl VramType {
    /// Looks a raw type code up; codes that name no technology give `Unknown`.
    pub fn from_code(code: u32) -> (r: VramType)
        ensures
            r == vram_type_of(code),
    {
        match code {
            1 => VramType::Gddr1,
            2 => VramType::Ddr2,
            3 => VramType::Gddr3,
            4 => VramType::Gddr4,
            5 => VramType::Gddr5,
            6 => VramType::Hbm,
            7 => VramType::Ddr3,
            8 => VramType::Ddr4,
            9 => VramType::Gddr6,
            10 => VramType::Ddr5,
            11 => VramType::Lpddr4,
            12 => VramType::Lpddr5,
            _ => VramType::Unknown,
        }
    }

    /// Memory operations per memory clock.
    pub fn ops_per_clock(&self) -> (r: u64)
        ensures
            r == ops_per_clock_of(*self),
            r <= 16,
    {
        match self {
            VramType::Ddr2 | VramType::Ddr3 | VramType::Ddr4 | VramType::Lpddr4 | VramType::Hbm => 2,
            VramType::Ddr5 | VramType::Lpddr5 | VramType::Gddr5 => 4,
            VramType::Gddr6 => 16,
            _ => 0,
        }
    }

    /// Peak bandwidth in MB/s for a memory clock in kHz and a bus width in
    /// bits; a value past `u64::MAX` saturates.
    pub fn peak_bw(&self, memory_clock: u64, vram_bit_width: u32) -> (r: u64)
        ensures
            r == peak_bw_of(*self, memory_clock as nat, vram_bit_width as nat),
            memory_clock == 0 ==> r == 0,
            *self == VramType::Unknown ==> r == 0,
    {
        let m = self.ops_per_clock();
        let mc: u128 = (m as u128) * (memory_clock as u128);
        assert((mc as int) * (vram_bit_width as int) <= 16 * 0xffff_ffff_ffff_ffffu128 * 0xffff_ffffu128)
            by (nonlinear_arith)
            requires
                mc == m * memory_clock,
                m <= 16,
                memory_clock <= 0xffff_ffff_ffff_ffffu64,
                vram_bit_width <= 0xffff_ffffu32,
        {
            assert(m * memory_clock <= 16 * 0xffff_ffff_ffff_ffffu128);
        }
        let p: u128 = mc * (vram_bit_width as u128);
        assert(m == 0 || memory_clock == 0 ==> p == 0) by (nonlinear_arith)
            requires
                mc == m * memory_clock,
                p == mc * vram_bit_width,
        ;
        let v: u128 = p / 8 / 1000;
        if v > u64::MAX as u128 {
            u64::MAX
        } else {
            v as u64
        }
    }
}

/// Display name of a memory technology.
pub open spec fn vram_display(v: VramType) -> Seq<char> {
    match v {
        VramType::Unknown => "Unknown"@,
        VramType::Gddr1 => "GDDR1"@,
        VramType::Ddr2 => "DDR2"@,
        VramType::Gddr3 => "GDDR3"@,
        VramType::Gddr4 => "GDDR4"@,
        VramType::Gddr5 => "GDDR5"@,
        VramType::Hbm => "HBM"@,
        VramType::Ddr3 => "DDR3"@,
        VramType::Ddr4 => "DDR4"@,
        VramType::Gddr6 => "GDDR6"@,
        VramType::Ddr5 => "DDR5"@,
        VramType::Lpddr4 => "LPDDR4"@,
        VramType::Lpddr5 => "LPDDR5"@,
    }
}

impl VramType {
    /// Display name of a memory technology.
    pub fn to_str(&self) -> (r: &'static str)
        ensures
            r@ == vram_display(*self),
    {
        match self {
            VramType::Unknown => "Unknown",
            VramType::Gddr1 => "GDDR1",
            VramType::Ddr2 => "DDR2",
            VramType::Gddr3 => "GDDR3",
            VramType::Gddr4 => "GDDR4",
            VramType::Gddr5 => "GDDR5",
            VramType::Hbm => "HBM",
            VramType::Ddr3 => "DDR3",
            VramType::Ddr4 => "DDR4",
            VramType::Gddr6 => "GDDR6",
            VramType::Ddr5 => "DDR5",
            VramType::Lpddr4 => "LPDDR4",
            VramType::Lpddr5 => "LPDDR5",
        }
    }
}

impl From<u32> for VramType {
    fn from(v: u32) -> (r: VramType)
        ensures
            r == vram_type_of(v),
    {
        VramType::from_code(v)
    }
}

impl vstd::std_specs::convert::FromSpecImpl<u32> for VramType {
    open spec fn obeys_from_spec() -> bool {
        true
    }

    open spec fn from_spec(v: u32) -> VramType {
        vram_type_of(v)
    }
}

} // verus!
