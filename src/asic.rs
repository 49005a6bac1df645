//! Specific chips, their architecture generations, and the per-chip constants.
use vstd::prelude::*;

verus! {

/// A specific chip design.
#[allow(non_camel_case_types)]
#[derive(Clone, Copy, Debug, PartialEq, Eq, Structural)]
pub enum AsicName {
    Unknown,
    TAHITI,
    PITCAIRN,
    VERDE,
    OLAND,
    HAINAN,
    BONAIRE,
    KAVERI,
    KABINI,
    HAWAII,
    ICELAND,
    TONGA,
    CARRIZO,
    FIJI,
    STONEY,
    POLARIS10,
    POLARIS11,
    POLARIS12,
    VEGAM,
    VEGA10,
    RAVEN,
    VEGA12,
    VEGA20,
    RAVEN2,
    RENOIR,
    MI100,
    MI200,
    GFX940,
    NAVI10,
    NAVI12,
    NAVI14,
    NAVI21,
    NAVI22,
    NAVI23,
    VANGOGH,
    NAVI24,
    REMBRANDT,
    GFX1036,
    GFX1037,
    GFX1100,
    GFX1101,
    GFX1102,
    GFX1103_R1,
    GFX1103_R2,
}

/// Architecture generation of a chip, from older to newer.
#[allow(non_camel_case_types)]
#[derive(Clone, Copy, Debug, PartialEq, Eq, Structural)]
pub enum ChipClass {
    Unknown,
    GFX6,
    GFX7,
    GFX8,
    GFX9,
    GFX10,
    GFX10_3,
    GFX11,
}

/// Position of a generation in the order older to newer; `Unknown` comes first.
pub open spec fn class_rank(c: ChipClass) -> nat {
    match c {
        ChipClass::Unknown => 0,
        ChipClass::GFX6 => 1,
        ChipClass::GFX7 => 2,
        ChipClass::GFX8 => 3,
        ChipClass::GFX9 => 4,
        ChipClass::GFX10 => 5,
        ChipClass::GFX10_3 => 6,
        ChipClass::GFX11 => 7,
    }
}

/// The generation that a chip belongs to.
pub open spec fn class_of(a: AsicName) -> ChipClass {
    match a {
        AsicName::TAHITI | AsicName::PITCAIRN | AsicName::VERDE | AsicName::OLAND
        | AsicName::HAINAN => ChipClass::GFX6,
        AsicName::BONAIRE | AsicName::KAVERI | AsicName::KABINI | AsicName::HAWAII => ChipClass::GFX7,
        AsicName::ICELAND | AsicName::TONGA | AsicName::CARRIZO | AsicName::FIJI | AsicName::STONEY
        | AsicName::POLARIS10 | AsicName::POLARIS11 | AsicName::POLARIS12
        | AsicName::VEGAM => ChipClass::GFX8,
        AsicName::VEGA10 | AsicName::RAVEN | AsicName::VEGA12 | AsicName::VEGA20 | AsicName::RAVEN2
        | AsicName::RENOIR | AsicName::MI100 | AsicName::MI200 | AsicName::GFX940 => ChipClass::GFX9,
        AsicName::NAVI10 | AsicName::NAVI12 | AsicName::NAVI14 => ChipClass::GFX10,
        AsicName::NAVI21 | AsicName::NAVI22 | AsicName::NAVI23 | AsicName::VANGOGH | AsicName::NAVI24
        | AsicName::REMBRANDT | AsicName::GFX1036 | AsicName::GFX1037 => ChipClass::GFX10_3,
        AsicName::GFX1100 | AsicName::GFX1101 | AsicName::GFX1102 | AsicName::GFX1103_R1
        | AsicName::GFX1103_R2 => ChipClass::GFX11,
        AsicName::Unknown => ChipClass::Unknown,
    }
}

/// Compute units that are enabled or disabled together: two from GFX10 on.
pub open spec fn cu_group_of(c: ChipClass) -> nat {
    if class_rank(c) >= class_rank(ChipClass::GFX10) { 2 } else { 1 }
}

/// Whether a chip has eight ROPs per render backend rather than four.
pub open spec fn rbplus_of(a: AsicName) -> bool {
    ||| a == AsicName::STONEY
    ||| a == AsicName::VEGA12
    ||| a == AsicName::RAVEN
    ||| a == AsicName::RAVEN2
    ||| a == AsicName::RENOIR
    ||| class_rank(class_of(a)) >= class_rank(ChipClass::GFX10_3)
}

/// Bytes of L1 (vector) cache per compute unit.
pub open spec fn l1_size_of(a: AsicName) -> nat {
    if class_of(a) == ChipClass::GFX11 { 32 * 1024 } else { 16 * 1024 }
}

/// Bytes of graphics L1 cache per shader array; none before GFX10.
pub open spec fn gl1_size_of(a: AsicName) -> nat {
    match class_of(a) {
        ChipClass::GFX11 => 256 * 1024,
        ChipClass::GFX10 | ChipClass::GFX10_3 => 128 * 1024,
        _ => 0,
    }
}

/// Bytes of L2 cache per TCC block.
pub open spec fn l2_per_block_of(a: AsicName) -> nat {
    match a {
        AsicName::TAHITI | AsicName::PITCAIRN | AsicName::OLAND | AsicName::HAWAII | AsicName::KABINI
        | AsicName::TONGA | AsicName::STONEY | AsicName::RAVEN2 => 64 * 1024,
        AsicName::VERDE | AsicName::HAINAN | AsicName::BONAIRE | AsicName::KAVERI | AsicName::ICELAND
        | AsicName::CARRIZO | AsicName::FIJI | AsicName::POLARIS12 | AsicName::VEGAM => 128 * 1024,
        AsicName::REMBRANDT | AsicName::GFX1103_R1 => 512 * 1024,
        _ => 256 * 1024,
    }
}

/// Megabytes of L3 (Infinity) cache per memory channel; none on chips without it.
pub open spec fn l3_mb_per_channel_of(a: AsicName) -> nat {
    match a {
        AsicName::NAVI21 | AsicName::NAVI22 => 8,
        AsicName::NAVI23 | AsicName::NAVI24 | AsicName::GFX1100 | AsicName::GFX1101
        | AsicName::GFX1102 => 4,
        _ => 0,
    }
}

impl ChipClass {
    /// Position in the order older to newer.
    pub fn rank(&self) -> (r: u8)
        ensures
            r == class_rank(*self),
    {
        match self {
            ChipClass::Unknown => 0,
            ChipClass::GFX6 => 1,
            ChipClass::GFX7 => 2,
            ChipClass::GFX8 => 3,
            ChipClass::GFX9 => 4,
            ChipClass::GFX10 => 5,
            ChipClass::GFX10_3 => 6,
            ChipClass::GFX11 => 7,
        }
    }

    /// Compute units per enable group.
    pub fn cu_group(&self) -> (r: u8)
        ensures
            r == cu_group_of(*self),
            r == 1 || r == 2,
    {
        if self.rank() >= 5 { 2 } else { 1 }
    }
}

impl AsicName {
    /// The generation of this chip; `Unknown` for an unknown chip.
    pub fn chip_class(&self) -> (r: ChipClass)
        ensures
            r == class_of(*self),
    {
        match self {
            AsicName::TAHITI | AsicName::PITCAIRN | AsicName::VERDE | AsicName::OLAND
            | AsicName::HAINAN => ChipClass::GFX6,
            AsicName::BONAIRE | AsicName::KAVERI | AsicName::KABINI
            | AsicName::HAWAII => ChipClass::GFX7,
            AsicName::ICELAND | AsicName::TONGA | AsicName::CARRIZO | AsicName::FIJI
            | AsicName::STONEY | AsicName::POLARIS10 | AsicName::POLARIS11 | AsicName::POLARIS12
            | AsicName::VEGAM => ChipClass::GFX8,
            AsicName::VEGA10 | AsicName::RAVEN | AsicName::VEGA12 | AsicName::VEGA20
            | AsicName::RAVEN2 | AsicName::RENOIR | AsicName::MI100 | AsicName::MI200
            | AsicName::GFX940 => ChipClass::GFX9,
            AsicName::NAVI10 | AsicName::NAVI12 | AsicName::NAVI14 => ChipClass::GFX10,
            AsicName::NAVI21 | AsicName::NAVI22 | AsicName::NAVI23 | AsicName::VANGOGH
            | AsicName::NAVI24 | AsicName::REMBRANDT | AsicName::GFX1036
            | AsicName::GFX1037 => ChipClass::GFX10_3,
            AsicName::GFX1100 | AsicName::GFX1101 | AsicName::GFX1102 | AsicName::GFX1103_R1
            | AsicName::GFX1103_R2 => ChipClass::GFX11,
            AsicName::Unknown => ChipClass::Unknown,
        }
    }

    /// Whether the render backends carry eight ROPs each.
    pub fn rbplus_allowed(&self) -> (r: bool)
        ensures
            r == rbplus_of(*self),
    {
        match self {
            AsicName::STONEY | AsicName::VEGA12 | AsicName::RAVEN | AsicName::RAVEN2
            | AsicName::RENOIR => true,
            _ => self.chip_class().rank() >= 6,
        }
    }

    /// Bytes of L1 cache per compute unit.
    pub fn l1_cache_size(&self) -> (r: u32)
        ensures
            r == l1_size_of(*self),
    {
        match self.chip_class() {
            ChipClass::GFX11 => 32 * 1024,
            _ => 16 * 1024,
        }
    }

    /// Bytes of graphics L1 cache per shader array.
    pub fn gl1_cache_size(&self) -> (r: u32)
        ensures
            r == gl1_size_of(*self),
    {
        match self.chip_class() {
            ChipClass::GFX11 => 256 * 1024,
            ChipClass::GFX10 | ChipClass::GFX10_3 => 128 * 1024,
            _ => 0,
        }
    }

    /// Bytes of L2 cache per TCC block.
    pub fn l2_cache_size_per_block(&self) -> (r: u32)
        ensures
            r == l2_per_block_of(*self),
    {
        match self {
            AsicName::TAHITI | AsicName::PITCAIRN | AsicName::OLAND | AsicName::HAWAII
            | AsicName::KABINI | AsicName::TONGA | AsicName::STONEY | AsicName::RAVEN2 => 64 * 1024,
            AsicName::VERDE | AsicName::HAINAN | AsicName::BONAIRE | AsicName::KAVERI
            | AsicName::ICELAND | AsicName::CARRIZO | AsicName::FIJI | AsicName::POLARIS12
            | AsicName::VEGAM => 128 * 1024,
            AsicName::REMBRANDT | AsicName::GFX1103_R1 => 512 * 1024,
            _ => 256 * 1024,
        }
    }

    /// Megabytes of L3 cache per memory channel.
    pub fn l3_cache_size_mb_per_channel(&self) -> (r: u32)
        ensures
            r == l3_mb_per_channel_of(*self),
    {
        match self {
            AsicName::NAVI21 | AsicName::NAVI22 => 8,
            AsicName::NAVI23 | AsicName::NAVI24 | AsicName::GFX1100 | AsicName::GFX1101
            | AsicName::GFX1102 => 4,
            _ => 0,
        }
    }
}

/// Display name of a chip.
pub open spec fn asic_display(v: AsicName) -> Seq<char> {
    match v {
        AsicName::Unknown => "Unknown"@,
        AsicName::TAHITI => "TAHITI"@,
        AsicName::PITCAIRN => "PITCAIRN"@,
        AsicName::VERDE => "VERDE"@,
        AsicName::OLAND => "OLAND"@,
        AsicName::HAINAN => "HAINAN"@,
        AsicName::BONAIRE => "BONAIRE"@,
        AsicName::KAVERI => "KAVERI"@,
        AsicName::KABINI => "KABINI"@,
        AsicName::HAWAII => "HAWAII"@,
        AsicName::ICELAND => "ICELAND"@,
        AsicName::TONGA => "TONGA"@,
        AsicName::CARRIZO => "CARRIZO"@,
        AsicName::FIJI => "FIJI"@,
        AsicName::STONEY => "STONEY"@,
        AsicName::POLARIS10 => "POLARIS10"@,
        AsicName::POLARIS11 => "POLARIS11"@,
        AsicName::POLARIS12 => "POLARIS12"@,
        AsicName::VEGAM => "VEGAM"@,
        AsicName::VEGA10 => "VEGA10"@,
        AsicName::RAVEN => "RAVEN"@,
        AsicName::VEGA12 => "VEGA12"@,
        AsicName::VEGA20 => "VEGA20"@,
        AsicName::RAVEN2 => "RAVEN2"@,
        AsicName::RENOIR => "RENOIR"@,
        AsicName::MI100 => "MI100"@,
        AsicName::MI200 => "MI200"@,
        AsicName::GFX940 => "GFX940"@,
        AsicName::NAVI10 => "NAVI10"@,
        AsicName::NAVI12 => "NAVI12"@,
        AsicName::NAVI14 => "NAVI14"@,
        AsicName::NAVI21 => "NAVI21"@,
        AsicName::NAVI22 => "NAVI22"@,
        AsicName::NAVI23 => "NAVI23"@,
        AsicName::VANGOGH => "VANGOGH"@,
        AsicName::NAVI24 => "NAVI24"@,
        AsicName::REMBRANDT => "REMBRANDT"@,
        AsicName::GFX1036 => "GFX1036"@,
        AsicName::GFX1037 => "GFX1037"@,
        AsicName::GFX1100 => "GFX1100"@,
        AsicName::GFX1101 => "GFX1101"@,
        AsicName::GFX1102 => "GFX1102"@,
        AsicName::GFX1103_R1 => "GFX1103_R1"@,
        AsicName::GFX1103_R2 => "GFX1103_R2"@,
    }
}

impl AsicName {
    /// Display name of a chip.
    pub fn to_str(&self) -> (r: &'static str)
        ensures
            r@ == asic_display(*self),
    {
        match self {
            AsicName::Unknown => "Unknown",
            AsicName::TAHITI => "TAHITI",
            AsicName::PITCAIRN => "PITCAIRN",
            AsicName::VERDE => "VERDE",
            AsicName::OLAND => "OLAND",
            AsicName::HAINAN => "HAINAN",
            AsicName::BONAIRE => "BONAIRE",
            AsicName::KAVERI => "KAVERI",
            AsicName::KABINI => "KABINI",
            AsicName::HAWAII => "HAWAII",
            AsicName::ICELAND => "ICELAND",
            AsicName::TONGA => "TONGA",
            AsicName::CARRIZO => "CARRIZO",
            AsicName::FIJI => "FIJI",
            AsicName::STONEY => "STONEY",
            AsicName::POLARIS10 => "POLARIS10",
            AsicName::POLARIS11 => "POLARIS11",
            AsicName::POLARIS12 => "POLARIS12",
            AsicName::VEGAM => "VEGAM",
            AsicName::VEGA10 => "VEGA10",
            AsicName::RAVEN => "RAVEN",
            AsicName::VEGA12 => "VEGA12",
            AsicName::VEGA20 => "VEGA20",
            AsicName::RAVEN2 => "RAVEN2",
            AsicName::RENOIR => "RENOIR",
            AsicName::MI100 => "MI100",
            AsicName::MI200 => "MI200",
            AsicName::GFX940 => "GFX940",
            AsicName::NAVI10 => "NAVI10",
            AsicName::NAVI12 => "NAVI12",
            AsicName::NAVI14 => "NAVI14",
            AsicName::NAVI21 => "NAVI21",
            AsicName::NAVI22 => "NAVI22",
            AsicName::NAVI23 => "NAVI23",
            AsicName::VANGOGH => "VANGOGH",
            AsicName::NAVI24 => "NAVI24",
            AsicName::REMBRANDT => "REMBRANDT",
            AsicName::GFX1036 => "GFX1036",
            AsicName::GFX1037 => "GFX1037",
            AsicName::GFX1100 => "GFX1100",
            AsicName::GFX1101 => "GFX1101",
            AsicName::GFX1102 => "GFX1102",
            AsicName::GFX1103_R1 => "GFX1103_R1",
            AsicName::GFX1103_R2 => "GFX1103_R2",
        }
    }
}

/// Display name of a generation.
pub open spec fn class_display(v: ChipClass) -> Seq<char> {
    match v {
        ChipClass::Unknown => "Unknown"@,
        ChipClass::GFX6 => "GFX6"@,
        ChipClass::GFX7 => "GFX7"@,
        ChipClass::GFX8 => "GFX8"@,
        ChipClass::GFX9 => "GFX9"@,
        ChipClass::GFX10 => "GFX10"@,
        ChipClass::GFX10_3 => "GFX10_3"@,
        ChipClass::GFX11 => "GFX11"@,
    }
}

impl ChipClass {
    /// Display name of a generation.
    pub fn to_str(&self) -> (r: &'static str)
        ensures
            r@ == class_display(*self),
    {
        match self {
            ChipClass::Unknown => "Unknown",
            ChipClass::GFX6 => "GFX6",
            ChipClass::GFX7 => "GFX7",
            ChipClass::GFX8 => "GFX8",
            ChipClass::GFX9 => "GFX9",
            ChipClass::GFX10 => "GFX10",
            ChipClass::GFX10_3 => "GFX10_3",
            ChipClass::GFX11 => "GFX11",
        }
    }
}

} // verus!
