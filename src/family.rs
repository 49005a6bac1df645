//! GPU families, as the driver's family id names them, and the revision
//! ranges that tell the chips of a family apart.
use vstd::prelude::*;
use crate::asic::AsicName;

verus! {

/// A GPU family; `Unknown` for a family id that names none.
#[allow(non_camel_case_types)]
#[derive(Clone, Copy, Debug, PartialEq, Eq, Structural)]
pub enum FamilyName {
    Unknown,
    SI,
    CI,
    KV,
    VI,
    CZ,
    AI,
    RV,
    NV,
    VGH,
    GC_11_0_0,
    YC,
    GC_11_0_1,
    GC_10_3_6,
    GC_10_3_7,
}

/// One rule of a family: chips whose external revision lies in
/// `min_rev..=max_rev` are `asic`.
#[derive(Clone, Copy, Debug, PartialEq, Eq, Structural)]
pub struct AsicRule {
    pub min_rev: u32,
    pub max_rev: u32,
    pub asic: AsicName,
}

/// The family that a driver family id stands for.
pub open spec fn family_of(id: u32) -> FamilyName {
    match id {
        110 => FamilyName::SI,
        120 => FamilyName::CI,
        125 => FamilyName::KV,
        130 => FamilyName::VI,
        135 => FamilyName::CZ,
        141 => FamilyName::AI,
        142 => FamilyName::RV,
        143 => FamilyName::NV,
        144 => FamilyName::VGH,
        145 => FamilyName::GC_11_0_0,
        146 => FamilyName::YC,
        148 => FamilyName::GC_11_0_1,
        149 => FamilyName::GC_10_3_6,
        151 => FamilyName::GC_10_3_7,
        _ => FamilyName::Unknown,
    }
}

/// The revision rules of a family, in the order in which they are tried.
pub open spec fn rules_of(f: FamilyName) -> Seq<AsicRule> {
    match f {
        FamilyName::SI => seq![
            AsicRule { min_rev: 0x00, max_rev: 0x13, asic: AsicName::TAHITI },
            AsicRule { min_rev: 0x14, max_rev: 0x27, asic: AsicName::PITCAIRN },
            AsicRule { min_rev: 0x28, max_rev: 0x3B, asic: AsicName::VERDE },
            AsicRule { min_rev: 0x3C, max_rev: 0x45, asic: AsicName::OLAND },
            AsicRule { min_rev: 0x46, max_rev: 0xFE, asic: AsicName::HAINAN },
        ],
        FamilyName::CI => seq![
            AsicRule { min_rev: 0x14, max_rev: 0x27, asic: AsicName::BONAIRE },
            AsicRule { min_rev: 0x28, max_rev: 0xFE, asic: AsicName::HAWAII },
        ],
        FamilyName::KV => seq![
            AsicRule { min_rev: 0x01, max_rev: 0x40, asic: AsicName::KAVERI },
            AsicRule { min_rev: 0x41, max_rev: 0x80, asic: AsicName::KAVERI },
            AsicRule { min_rev: 0x81, max_rev: 0xA0, asic: AsicName::KABINI },
            AsicRule { min_rev: 0xA1, max_rev: 0xFE, asic: AsicName::KABINI },
        ],
        FamilyName::VI => seq![
            AsicRule { min_rev: 0x01, max_rev: 0x13, asic: AsicName::ICELAND },
            AsicRule { min_rev: 0x14, max_rev: 0x27, asic: AsicName::TONGA },
            AsicRule { min_rev: 0x3C, max_rev: 0x4F, asic: AsicName::FIJI },
            AsicRule { min_rev: 0x50, max_rev: 0x59, asic: AsicName::POLARIS10 },
            AsicRule { min_rev: 0x5A, max_rev: 0x63, asic: AsicName::POLARIS11 },
            AsicRule { min_rev: 0x64, max_rev: 0x6D, asic: AsicName::POLARIS12 },
            AsicRule { min_rev: 0x6E, max_rev: 0xFE, asic: AsicName::VEGAM },
        ],
        FamilyName::CZ => seq![
            AsicRule { min_rev: 0x01, max_rev: 0x60, asic: AsicName::CARRIZO },
            AsicRule { min_rev: 0x61, max_rev: 0xFE, asic: AsicName::STONEY },
        ],
        FamilyName::AI => seq![
            AsicRule { min_rev: 0x01, max_rev: 0x13, asic: AsicName::VEGA10 },
            AsicRule { min_rev: 0x14, max_rev: 0x27, asic: AsicName::VEGA12 },
            AsicRule { min_rev: 0x28, max_rev: 0x31, asic: AsicName::VEGA20 },
            AsicRule { min_rev: 0x32, max_rev: 0x3B, asic: AsicName::MI100 },
            AsicRule { min_rev: 0x3C, max_rev: 0x45, asic: AsicName::MI200 },
            AsicRule { min_rev: 0x46, max_rev: 0xFE, asic: AsicName::GFX940 },
        ],
        FamilyName::RV => seq![
            AsicRule { min_rev: 0x01, max_rev: 0x80, asic: AsicName::RAVEN },
            AsicRule { min_rev: 0x81, max_rev: 0x90, asic: AsicName::RAVEN2 },
            AsicRule { min_rev: 0x91, max_rev: 0xFE, asic: AsicName::RENOIR },
        ],
        FamilyName::NV => seq![
            AsicRule { min_rev: 0x01, max_rev: 0x09, asic: AsicName::NAVI10 },
            AsicRule { min_rev: 0x0A, max_rev: 0x13, asic: AsicName::NAVI12 },
            AsicRule { min_rev: 0x14, max_rev: 0x27, asic: AsicName::NAVI14 },
            AsicRule { min_rev: 0x28, max_rev: 0x31, asic: AsicName::NAVI21 },
            AsicRule { min_rev: 0x32, max_rev: 0x3B, asic: AsicName::NAVI22 },
            AsicRule { min_rev: 0x3C, max_rev: 0x45, asic: AsicName::NAVI23 },
            AsicRule { min_rev: 0x46, max_rev: 0x4F, asic: AsicName::NAVI24 },
        ],
        FamilyName::VGH => seq![
            AsicRule { min_rev: 0x01, max_rev: 0xFE, asic: AsicName::VANGOGH },
        ],
        FamilyName::GC_11_0_0 => seq![
            AsicRule { min_rev: 0x01, max_rev: 0x0F, asic: AsicName::GFX1100 },
            AsicRule { min_rev: 0x10, max_rev: 0x1F, asic: AsicName::GFX1102 },
            AsicRule { min_rev: 0x20, max_rev: 0x2F, asic: AsicName::GFX1101 },
        ],
        FamilyName::YC => seq![
            AsicRule { min_rev: 0x01, max_rev: 0xFE, asic: AsicName::REMBRANDT },
        ],
        FamilyName::GC_11_0_1 => seq![
            AsicRule { min_rev: 0x01, max_rev: 0x7F, asic: AsicName::GFX1103_R1 },
            AsicRule { min_rev: 0x80, max_rev: 0xBF, asic: AsicName::GFX1103_R2 },
        ],
        FamilyName::GC_10_3_6 => seq![
            AsicRule { min_rev: 0x01, max_rev: 0xFE, asic: AsicName::GFX1036 },
        ],
        FamilyName::GC_10_3_7 => seq![
            AsicRule { min_rev: 0x01, max_rev: 0xFE, asic: AsicName::GFX1037 },
        ],
        FamilyName::Unknown => seq![],
    }
}

/// The chip named by the first rule whose range holds `rev`; `Unknown` when none does.
pub open spec fn first_match(rules: Seq<AsicRule>, rev: u32) -> AsicName
    decreases rules.len(),
{
    if rules.len() == 0 {
        AsicName::Unknown
    } else if rules[0].min_rev <= rev <= rules[0].max_rev {
        rules[0].asic
    } else {
        first_match(rules.drop_first(), rev)
    }
}

/// The chip of a family with a given external revision.
pub open spec fn asic_of(f: FamilyName, rev: u32) -> AsicName {
    first_match(rules_of(f), rev)
}

impl FamilyName {
    /// Looks a driver family id up; ids that name no family give `Unknown`.
    pub fn from_id(id: u32) -> (r: FamilyName)
        ensures
            r == family_of(id),
    {
        match id {
            110 => FamilyName::SI,
            120 => FamilyName::CI,
            125 => FamilyName::KV,
            130 => FamilyName::VI,
            135 => FamilyName::CZ,
            141 => FamilyName::AI,
            142 => FamilyName::RV,
            143 => FamilyName::NV,
            144 => FamilyName::VGH,
            145 => FamilyName::GC_11_0_0,
            146 => FamilyName::YC,
            148 => FamilyName::GC_11_0_1,
            149 => FamilyName::GC_10_3_6,
            151 => FamilyName::GC_10_3_7,
            _ => FamilyName::Unknown,
        }
    }

    /// The revision rules of this family, in the order in which they are tried.
    pub fn asic_rules(&self) -> (r: Vec<AsicRule>)
        ensures
            r@ == rules_of(*self),
    {
        match self {
            FamilyName::SI => vec![
                AsicRule { min_rev: 0x00, max_rev: 0x13, asic: AsicName::TAHITI },
                AsicRule { min_rev: 0x14, max_rev: 0x27, asic: AsicName::PITCAIRN },
                AsicRule { min_rev: 0x28, max_rev: 0x3B, asic: AsicName::VERDE },
                AsicRule { min_rev: 0x3C, max_rev: 0x45, asic: AsicName::OLAND },
                AsicRule { min_rev: 0x46, max_rev: 0xFE, asic: AsicName::HAINAN },
            ],
            FamilyName::CI => vec![
                AsicRule { min_rev: 0x14, max_rev: 0x27, asic: AsicName::BONAIRE },
                AsicRule { min_rev: 0x28, max_rev: 0xFE, asic: AsicName::HAWAII },
            ],
            FamilyName::KV => vec![
                AsicRule { min_rev: 0x01, max_rev: 0x40, asic: AsicName::KAVERI },
                AsicRule { min_rev: 0x41, max_rev: 0x80, asic: AsicName::KAVERI },
                AsicRule { min_rev: 0x81, max_rev: 0xA0, asic: AsicName::KABINI },
                AsicRule { min_rev: 0xA1, max_rev: 0xFE, asic: AsicName::KABINI },
            ],
            FamilyName::VI => vec![
                AsicRule { min_rev: 0x01, max_rev: 0x13, asic: AsicName::ICELAND },
                AsicRule { min_rev: 0x14, max_rev: 0x27, asic: AsicName::TONGA },
                AsicRule { min_rev: 0x3C, max_rev: 0x4F, asic: AsicName::FIJI },
                AsicRule { min_rev: 0x50, max_rev: 0x59, asic: AsicName::POLARIS10 },
                AsicRule { min_rev: 0x5A, max_rev: 0x63, asic: AsicName::POLARIS11 },
                AsicRule { min_rev: 0x64, max_rev: 0x6D, asic: AsicName::POLARIS12 },
                AsicRule { min_rev: 0x6E, max_rev: 0xFE, asic: AsicName::VEGAM },
            ],
            FamilyName::CZ => vec![
                AsicRule { min_rev: 0x01, max_rev: 0x60, asic: AsicName::CARRIZO },
                AsicRule { min_rev: 0x61, max_rev: 0xFE, asic: AsicName::STONEY },
            ],
            FamilyName::AI => vec![
                AsicRule { min_rev: 0x01, max_rev: 0x13, asic: AsicName::VEGA10 },
                AsicRule { min_rev: 0x14, max_rev: 0x27, asic: AsicName::VEGA12 },
                AsicRule { min_rev: 0x28, max_rev: 0x31, asic: AsicName::VEGA20 },
                AsicRule { min_rev: 0x32, max_rev: 0x3B, asic: AsicName::MI100 },
                AsicRule { min_rev: 0x3C, max_rev: 0x45, asic: AsicName::MI200 },
                AsicRule { min_rev: 0x46, max_rev: 0xFE, asic: AsicName::GFX940 },
            ],
            FamilyName::RV => vec![
                AsicRule { min_rev: 0x01, max_rev: 0x80, asic: AsicName::RAVEN },
                AsicRule { min_rev: 0x81, max_rev: 0x90, asic: AsicName::RAVEN2 },
                AsicRule { min_rev: 0x91, max_rev: 0xFE, asic: AsicName::RENOIR },
            ],
            FamilyName::NV => vec![
                AsicRule { min_rev: 0x01, max_rev: 0x09, asic: AsicName::NAVI10 },
                AsicRule { min_rev: 0x0A, max_rev: 0x13, asic: AsicName::NAVI12 },
                AsicRule { min_rev: 0x14, max_rev: 0x27, asic: AsicName::NAVI14 },
                AsicRule { min_rev: 0x28, max_rev: 0x31, asic: AsicName::NAVI21 },
                AsicRule { min_rev: 0x32, max_rev: 0x3B, asic: AsicName::NAVI22 },
                AsicRule { min_rev: 0x3C, max_rev: 0x45, asic: AsicName::NAVI23 },
                AsicRule { min_rev: 0x46, max_rev: 0x4F, asic: AsicName::NAVI24 },
            ],
            FamilyName::VGH => vec![
                AsicRule { min_rev: 0x01, max_rev: 0xFE, asic: AsicName::VANGOGH },
            ],
            FamilyName::GC_11_0_0 => vec![
                AsicRule { min_rev: 0x01, max_rev: 0x0F, asic: AsicName::GFX1100 },
                AsicRule { min_rev: 0x10, max_rev: 0x1F, asic: AsicName::GFX1102 },
                AsicRule { min_rev: 0x20, max_rev: 0x2F, asic: AsicName::GFX1101 },
            ],
            FamilyName::YC => vec![
                AsicRule { min_rev: 0x01, max_rev: 0xFE, asic: AsicName::REMBRANDT },
            ],
            FamilyName::GC_11_0_1 => vec![
                AsicRule { min_rev: 0x01, max_rev: 0x7F, asic: AsicName::GFX1103_R1 },
                AsicRule { min_rev: 0x80, max_rev: 0xBF, asic: AsicName::GFX1103_R2 },
            ],
            FamilyName::GC_10_3_6 => vec![
                AsicRule { min_rev: 0x01, max_rev: 0xFE, asic: AsicName::GFX1036 },
            ],
            FamilyName::GC_10_3_7 => vec![
                AsicRule { min_rev: 0x01, max_rev: 0xFE, asic: AsicName::GFX1037 },
            ],
            FamilyName::Unknown => Vec::new(),
        }
    }

    /// The chip of this family with external revision `rev`: the first rule
    /// whose inclusive range holds `rev` names it; `Unknown` when none does.
    pub fn asic_name(&self, rev: u32) -> (r: AsicName)
        ensures
            r == asic_of(*self, rev),
    {
        let rules = self.asic_rules();
        let mut i: usize = 0;
        assert(rules@.subrange(0, rules@.len() as int) =~= rules@);
        while i < rules.len()
            invariant
                i <= rules@.len(),
                rules@ == rules_of(*self),
                first_match(rules@.subrange(i as int, rules@.len() as int), rev) == asic_of(*self, rev),
            decreases rules@.len() - i,
        {
            let rule = rules[i];
            proof {
                let rest = rules@.subrange(i as int, rules@.len() as int);
                assert(rest.drop_first() =~= rules@.subrange(i + 1, rules@.len() as int));
            }
            if rule.min_rev <= rev && rev <= rule.max_rev {
                return rule.asic;
            }
            i = i + 1;
        }
        AsicName::Unknown
    }
}

/// Display name of a family.
pub open spec fn family_display(v: FamilyName) -> Seq<char> {
    match v {
        FamilyName::Unknown => "Unknown"@,
        FamilyName::SI => "SI"@,
        FamilyName::CI => "CI"@,
        FamilyName::KV => "KV"@,
        FamilyName::VI => "VI"@,
        FamilyName::CZ => "CZ"@,
        FamilyName::AI => "AI"@,
        FamilyName::RV => "RV"@,
        FamilyName::NV => "NV"@,
        FamilyName::VGH => "VGH"@,
        FamilyName::GC_11_0_0 => "GC_11_0_0"@,
        FamilyName::YC => "YC"@,
        FamilyName::GC_11_0_1 => "GC_11_0_1"@,
        FamilyName::GC_10_3_6 => "GC_10_3_6"@,
        FamilyName::GC_10_3_7 => "GC_10_3_7"@,
    }
}

impl FamilyName {
    /// Display name of a family.
    pub fn to_str(&self) -> (r: &'static str)
        ensures
            r@ == family_display(*self),
    {
        match self {
            FamilyName::Unknown => "Unknown",
            FamilyName::SI => "SI",
            FamilyName::CI => "CI",
            FamilyName::KV => "KV",
            FamilyName::VI => "VI",
            FamilyName::CZ => "CZ",
            FamilyName::AI => "AI",
            FamilyName::RV => "RV",
            FamilyName::NV => "NV",
            FamilyName::VGH => "VGH",
            FamilyName::GC_11_0_0 => "GC_11_0_0",
            FamilyName::YC => "YC",
            FamilyName::GC_11_0_1 => "GC_11_0_1",
            FamilyName::GC_10_3_6 => "GC_10_3_6",
            FamilyName::GC_10_3_7 => "GC_10_3_7",
        }
    }
}

impl From<u32> for FamilyName {
    fn from(v: u32) -> (r: FamilyName)
        ensures
            r == family_of(v),
    {
        FamilyName::from_id(v)
    }
}

impl vstd::std_specs::convert::FromSpecImpl<u32> for FamilyName {
    open spec fn obeys_from_spec() -> bool {
        true
    }

    open spec fn from_spec(v: u32) -> FamilyName {
        family_of(v)
    }
}

} // verus!
