//! The words for stars, planets and what they are made of.

use vstd::prelude::*;

verus! {

/// What the asteroids of a belt or a ring are made of.
#[derive(Debug, Clone, Copy, PartialEq, Eq, PartialOrd, Ord, Hash, Structural)]
pub enum AsteroidType {
    Icy,
    Rocky,
    MetalRich,
    Metallic,
}

impl AsteroidType {
    /// The number of variants.
    pub const VARIANTS: usize = 4;

    /// The place of the variant in the list of the variants, from zero.
    pub open spec fn index(self) -> nat {
        match self {
            AsteroidType::Icy => 0,
            AsteroidType::Rocky => 1,
            AsteroidType::MetalRich => 2,
            AsteroidType::Metallic => 3,
        }
    }

    /// The name of the variant as the dumps write it.
    pub open spec fn name_text(self) -> Seq<char> {
        match self {
            AsteroidType::Icy => "Icy"@,
            AsteroidType::Rocky => "Rocky"@,
            AsteroidType::MetalRich => "Metal Rich"@,
            AsteroidType::Metallic => "Metallic"@,
        }
    }

    /// The name of the variant as the dumps write it.
    pub fn name(self) -> (r: &'static str)
        ensures
            r@ == self.name_text(),
    {
        match self {
            AsteroidType::Icy => "Icy",
            AsteroidType::Rocky => "Rocky",
            AsteroidType::MetalRich => "Metal Rich",
            AsteroidType::Metallic => "Metallic",
        }
    }

    /// All variants, each once, each at the place that `index` gives it.
    pub fn iter() -> (r: Vec<AsteroidType>)
        ensures
            r@.len() == AsteroidType::VARIANTS,
            forall|v: AsteroidType| #[trigger] r@[v.index() as int] == v,
    {
        vec![
            AsteroidType::Icy, AsteroidType::Rocky, AsteroidType::MetalRich,
            AsteroidType::Metallic,
        ]
    }
}

/// A gas that an atmosphere can hold.
#[derive(Debug, Clone, Copy, PartialEq, Eq, PartialOrd, Ord, Hash, Structural)]
pub enum AtmosphereCompositionKey {
    Ammonia,
    Argon,
    CarbonDioxide,
    Helium,
    Hydrogen,
    Iron,
    Methane,
    Neon,
    Nitrogen,
    Oxygen,
    Silicates,
    SulphurDioxide,
    Water,
}

impl AtmosphereCompositionKey {
    /// The number of variants.
    pub const VARIANTS: usize = 13;

    /// The place of the variant in the list of the variants, from zero.
    pub open spec fn index(self) -> nat {
        match self {
            AtmosphereCompositionKey::Ammonia => 0,
            AtmosphereCompositionKey::Argon => 1,
            AtmosphereCompositionKey::CarbonDioxide => 2,
            AtmosphereCompositionKey::Helium => 3,
            AtmosphereCompositionKey::Hydrogen => 4,
            AtmosphereCompositionKey::Iron => 5,
            AtmosphereCompositionKey::Methane => 6,
            AtmosphereCompositionKey::Neon => 7,
            AtmosphereCompositionKey::Nitrogen => 8,
            AtmosphereCompositionKey::Oxygen => 9,
            AtmosphereCompositionKey::Silicates => 10,
            AtmosphereCompositionKey::SulphurDioxide => 11,
            AtmosphereCompositionKey::Water => 12,
        }
    }

    /// The name of the variant as the dumps write it.
    pub open spec fn name_text(self) -> Seq<char> {
        match self {
            AtmosphereCompositionKey::Ammonia => "Ammonia"@,
            AtmosphereCompositionKey::Argon => "Argon"@,
            AtmosphereCompositionKey::CarbonDioxide => "Carbon dioxide"@,
            AtmosphereCompositionKey::Helium => "Helium"@,
            AtmosphereCompositionKey::Hydrogen => "Hydrogen"@,
            AtmosphereCompositionKey::Iron => "Iron"@,
            AtmosphereCompositionKey::Methane => "Methane"@,
            AtmosphereCompositionKey::Neon => "Neon"@,
            AtmosphereCompositionKey::Nitrogen => "Nitrogen"@,
            AtmosphereCompositionKey::Oxygen => "Oxygen"@,
            AtmosphereCompositionKey::Silicates => "Silicates"@,
            AtmosphereCompositionKey::SulphurDioxide => "Sulphur dioxide"@,
            AtmosphereCompositionKey::Water => "Water"@,
        }
    }

    /// The name of the variant as the dumps write it.
    pub fn name(self) -> (r: &'static str)
        ensures
            r@ == self.name_text(),
    {
        match self {
            AtmosphereCompositionKey::Ammonia => "Ammonia",
            AtmosphereCompositionKey::Argon => "Argon",
            AtmosphereCompositionKey::CarbonDioxide => "Carbon dioxide",
            AtmosphereCompositionKey::Helium => "Helium",
            AtmosphereCompositionKey::Hydrogen => "Hydrogen",
            AtmosphereCompositionKey::Iron => "Iron",
            AtmosphereCompositionKey::Methane => "Methane",
            AtmosphereCompositionKey::Neon => "Neon",
            AtmosphereCompositionKey::Nitrogen => "Nitrogen",
            AtmosphereCompositionKey::Oxygen => "Oxygen",
            AtmosphereCompositionKey::Silicates => "Silicates",
            AtmosphereCompositionKey::SulphurDioxide => "Sulphur dioxide",
            AtmosphereCompositionKey::Water => "Water",
        }
    }

    /// All variants, each once, each at the place that `index` gives it.
    pub fn iter() -> (r: Vec<AtmosphereCompositionKey>)
        ensures
            r@.len() == AtmosphereCompositionKey::VARIANTS,
            forall|v: AtmosphereCompositionKey| #[trigger] r@[v.index() as int] == v,
    {
        vec![
            AtmosphereCompositionKey::Ammonia, AtmosphereCompositionKey::Argon,
            AtmosphereCompositionKey::CarbonDioxide, AtmosphereCompositionKey::Helium,
            AtmosphereCompositionKey::Hydrogen, AtmosphereCompositionKey::Iron,
            AtmosphereCompositionKey::Methane, AtmosphereCompositionKey::Neon,
            AtmosphereCompositionKey::Nitrogen, AtmosphereCompositionKey::Oxygen,
            AtmosphereCompositionKey::Silicates, AtmosphereCompositionKey::SulphurDioxide,
            AtmosphereCompositionKey::Water,
        ]
    }
}

/// The kind of atmosphere of a planet.
#[derive(Debug, Clone, Copy, PartialEq, Eq, PartialOrd, Ord, Hash, Structural)]
pub enum AtmosphereType {
    Ammonia,
    AmmoniaAndOxygen,
    AmmoniaRich,
    Argon,
    ArgonRich,
    CarbonDioxide,
    CarbonDioxideRich,
    Helium,
    MetallicVapour,
    Methane,
    MethaneRich,
    Neon,
    NeonRich,
    Nitrogen,
    NoAtmosphere,
    Oxygen,
    SilicateVapour,
    SuitableForWaterBasedLife,
    SulphurDioxide,
    Water,
    WaterRich,
    HotArgon,
    HotArgonRich,
    HotCarbonDioxide,
    HotCarbonDioxideRich,
    HotMetallicVapour,
    HotSilicateVapour,
    HotSulphurDioxide,
    HotWater,
    HotWaterRich,
    HotThickAmmonia,
    HotThickAmmoniaRich,
    HotThickArgon,
    HotThickArgonRich,
    HotThickCarbonDioxide,
    HotThickCarbonDioxideRich,
    HotThickMetallicVapour,
    HotThickMethane,
    HotThickMethaneRich,
    HotThickNitrogen,
    HotThickNoAtmosphere,
    HotThickSilicateVapour,
    HotThickSulphurDioxide,
    HotThickWater,
    HotThickWaterRich,
    HotThinCarbonDioxide,
    HotThinMetallicVapour,
    HotThinSilicateVapour,
    HotThinSulphurDioxide,
    ThickAmmonia,
    ThickAmmoniaAndOxygen,
    ThickAmmoniaRich,
    ThickArgon,
    ThickArgonRich,
    ThickCarbonDioxide,
    ThickCarbonDioxideRich,
    ThickHelium,
    ThickMethane,
    ThickMethaneRich,
    ThickNitrogen,
    ThickNoAtmosphere,
    ThickSuitableForWaterBasedLife,
    ThickSulphurDioxide,
    ThickWater,
    ThickWaterRich,
    ThinAmmonia,
    ThinAmmoniaAndOxygen,
    ThinAmmoniaRich,
    ThinArgon,
    ThinArgonRich,
    ThinCarbonDioxide,
    ThinCarbonDioxideRich,
    ThinHelium,
    ThinMethane,
    ThinMethaneRich,
    ThinNeon,
    ThinNeonRich,
    ThinNitrogen,
    ThinNoAtmosphere,
    ThinOxygen,
    ThinSulphurDioxide,
    ThinWater,
    ThinWaterRich,
}

impl AtmosphereType {
    /// The number of variants.
    pub const VARIANTS: usize = 83;

    /// The place of the variant in the list of the variants, from zero.
    pub open spec fn index(self) -> nat {
        match self {
            AtmosphereType::Ammonia => 0,
            AtmosphereType::AmmoniaAndOxygen => 1,
            AtmosphereType::AmmoniaRich => 2,
            AtmosphereType::Argon => 3,
            AtmosphereType::ArgonRich => 4,
            AtmosphereType::CarbonDioxide => 5,
            AtmosphereType::CarbonDioxideRich => 6,
            AtmosphereType::Helium => 7,
            AtmosphereType::MetallicVapour => 8,
            AtmosphereType::Methane => 9,
            AtmosphereType::MethaneRich => 10,
            AtmosphereType::Neon => 11,
            AtmosphereType::NeonRich => 12,
            AtmosphereType::Nitrogen => 13,
            AtmosphereType::NoAtmosphere => 14,
            AtmosphereType::Oxygen => 15,
            AtmosphereType::SilicateVapour => 16,
            AtmosphereType::SuitableForWaterBasedLife => 17,
            AtmosphereType::SulphurDioxide => 18,
            AtmosphereType::Water => 19,
            AtmosphereType::WaterRich => 20,
            AtmosphereType::HotArgon => 21,
            AtmosphereType::HotArgonRich => 22,
            AtmosphereType::HotCarbonDioxide => 23,
            AtmosphereType::HotCarbonDioxideRich => 24,
            AtmosphereType::HotMetallicVapour => 25,
            AtmosphereType::HotSilicateVapour => 26,
            AtmosphereType::HotSulphurDioxide => 27,
            AtmosphereType::HotWater => 28,
            AtmosphereType::HotWaterRich => 29,
            AtmosphereType::HotThickAmmonia => 30,
            AtmosphereType::HotThickAmmoniaRich => 31,
            AtmosphereType::HotThickArgon => 32,
            AtmosphereType::HotThickArgonRich => 33,
            AtmosphereType::HotThickCarbonDioxide => 34,
            AtmosphereType::HotThickCarbonDioxideRich => 35,
            AtmosphereType::HotThickMetallicVapour => 36,
            AtmosphereType::HotThickMethane => 37,
            AtmosphereType::HotThickMethaneRich => 38,
            AtmosphereType::HotThickNitrogen => 39,
            AtmosphereType::HotThickNoAtmosphere => 40,
            AtmosphereType::HotThickSilicateVapour => 41,
            AtmosphereType::HotThickSulphurDioxide => 42,
            AtmosphereType::HotThickWater => 43,
            AtmosphereType::HotThickWaterRich => 44,
            AtmosphereType::HotThinCarbonDioxide => 45,
            AtmosphereType::HotThinMetallicVapour => 46,
            AtmosphereType::HotThinSilicateVapour => 47,
            AtmosphereType::HotThinSulphurDioxide => 48,
            AtmosphereType::ThickAmmonia => 49,
            AtmosphereType::ThickAmmoniaAndOxygen => 50,
            AtmosphereType::ThickAmmoniaRich => 51,
            AtmosphereType::ThickArgon => 52,
            AtmosphereType::ThickArgonRich => 53,
            AtmosphereType::ThickCarbonDioxide => 54,
            AtmosphereType::ThickCarbonDioxideRich => 55,
            AtmosphereType::ThickHelium => 56,
            AtmosphereType::ThickMethane => 57,
            AtmosphereType::ThickMethaneRich => 58,
            AtmosphereType::ThickNitrogen => 59,
            AtmosphereType::ThickNoAtmosphere => 60,
            AtmosphereType::ThickSuitableForWaterBasedLife => 61,
            AtmosphereType::ThickSulphurDioxide => 62,
            AtmosphereType::ThickWater => 63,
            AtmosphereType::ThickWaterRich => 64,
            AtmosphereType::ThinAmmonia => 65,
            AtmosphereType::ThinAmmoniaAndOxygen => 66,
            AtmosphereType::ThinAmmoniaRich => 67,
            AtmosphereType::ThinArgon => 68,
            AtmosphereType::ThinArgonRich => 69,
            AtmosphereType::ThinCarbonDioxide => 70,
            AtmosphereType::ThinCarbonDioxideRich => 71,
            AtmosphereType::ThinHelium => 72,
            AtmosphereType::ThinMethane => 73,
            AtmosphereType::ThinMethaneRich => 74,
            AtmosphereType::ThinNeon => 75,
            AtmosphereType::ThinNeonRich => 76,
            AtmosphereType::ThinNitrogen => 77,
            AtmosphereType::ThinNoAtmosphere => 78,
            AtmosphereType::ThinOxygen => 79,
            AtmosphereType::ThinSulphurDioxide => 80,
            AtmosphereType::ThinWater => 81,
            AtmosphereType::ThinWaterRich => 82,
        }
    }

    /// The name of the variant as the dumps write it.
    pub open spec fn name_text(self) -> Seq<char> {
        match self {
            AtmosphereType::Ammonia => "Ammonia"@,
            AtmosphereType::AmmoniaAndOxygen => "Ammonia and Oxygen"@,
            AtmosphereType::AmmoniaRich => "Ammonia-rich"@,
            AtmosphereType::Argon => "Argon"@,
            AtmosphereType::ArgonRich => "Argon-rich"@,
            AtmosphereType::CarbonDioxide => "Carbon dioxide"@,
            AtmosphereType::CarbonDioxideRich => "Carbon dioxide-rich"@,
            AtmosphereType::Helium => "Helium"@,
            AtmosphereType::MetallicVapour => "Metallic vapour"@,
            AtmosphereType::Methane => "Methane"@,
            AtmosphereType::MethaneRich => "Methane-rich"@,
            AtmosphereType::Neon => "Neon"@,
            AtmosphereType::NeonRich => "Neon-rich"@,
            AtmosphereType::Nitrogen => "Nitrogen"@,
            AtmosphereType::NoAtmosphere => "No atmosphere"@,
            AtmosphereType::Oxygen => "Oxygen"@,
            AtmosphereType::SilicateVapour => "Silicate vapour"@,
            AtmosphereType::SuitableForWaterBasedLife => "Suitable for water-based life"@,
            AtmosphereType::SulphurDioxide => "Sulphur dioxide"@,
            AtmosphereType::Water => "Water"@,
            AtmosphereType::WaterRich => "Water-rich"@,
            AtmosphereType::HotArgon => "Hot Argon"@,
            AtmosphereType::HotArgonRich => "Hot Argon-rich"@,
            AtmosphereType::HotCarbonDioxide => "Hot Carbon dioxide"@,
            AtmosphereType::HotCarbonDioxideRich => "Hot Carbon dioxide-rich"@,
            AtmosphereType::HotMetallicVapour => "Hot Metallic vapour"@,
            AtmosphereType::HotSilicateVapour => "Hot Silicate vapour"@,
            AtmosphereType::HotSulphurDioxide => "Hot Sulphur dioxide"@,
            AtmosphereType::HotWater => "Hot Water"@,
            AtmosphereType::HotWaterRich => "Hot Water-rich"@,
            AtmosphereType::HotThickAmmonia => "Hot thick Ammonia"@,
            AtmosphereType::HotThickAmmoniaRich => "Hot thick Ammonia-rich"@,
            AtmosphereType::HotThickArgon => "Hot thick Argon"@,
            AtmosphereType::HotThickArgonRich => "Hot thick Argon-rich"@,
            AtmosphereType::HotThickCarbonDioxide => "Hot thick Carbon dioxide"@,
            AtmosphereType::HotThickCarbonDioxideRich => "Hot thick Carbon dioxide-rich"@,
            AtmosphereType::HotThickMetallicVapour => "Hot thick Metallic vapour"@,
            AtmosphereType::HotThickMethane => "Hot thick Methane"@,
            AtmosphereType::HotThickMethaneRich => "Hot thick Methane-rich"@,
            AtmosphereType::HotThickNitrogen => "Hot thick Nitrogen"@,
            AtmosphereType::HotThickNoAtmosphere => "Hot thick No atmosphere"@,
            AtmosphereType::HotThickSilicateVapour => "Hot thick Silicate vapour"@,
            AtmosphereType::HotThickSulphurDioxide => "Hot thick Sulphur dioxide"@,
            AtmosphereType::HotThickWater => "Hot thick Water"@,
            AtmosphereType::HotThickWaterRich => "Hot thick Water-rich"@,
            AtmosphereType::HotThinCarbonDioxide => "Hot thin Carbon dioxide"@,
            AtmosphereType::HotThinMetallicVapour => "Hot thin Metallic vapour"@,
            AtmosphereType::HotThinSilicateVapour => "Hot thin Silicate vapour"@,
            AtmosphereType::HotThinSulphurDioxide => "Hot thin Sulphur dioxide"@,
            AtmosphereType::ThickAmmonia => "Thick Ammonia"@,
            AtmosphereType::ThickAmmoniaAndOxygen => "Thick Ammonia and Oxygen"@,
            AtmosphereType::ThickAmmoniaRich => "Thick Ammonia-rich"@,
            AtmosphereType::ThickArgon => "Thick Argon"@,
            AtmosphereType::ThickArgonRich => "Thick Argon-rich"@,
            AtmosphereType::ThickCarbonDioxide => "Thick Carbon dioxide"@,
            AtmosphereType::ThickCarbonDioxideRich => "Thick Carbon dioxide-rich"@,
            AtmosphereType::ThickHelium => "Thick Helium"@,
            AtmosphereType::ThickMethane => "Thick Methane"@,
            AtmosphereType::ThickMethaneRich => "Thick Methane-rich"@,
            AtmosphereType::ThickNitrogen => "Thick Nitrogen"@,
            AtmosphereType::ThickNoAtmosphere => "Thick No atmosphere"@,
            AtmosphereType::ThickSuitableForWaterBasedLife => "Thick Suitable for water-based life"@,
            AtmosphereType::ThickSulphurDioxide => "Thick Sulphur dioxide"@,
            AtmosphereType::ThickWater => "Thick Water"@,
            AtmosphereType::ThickWaterRich => "Thick Water-rich"@,
            AtmosphereType::ThinAmmonia => "Thin Ammonia"@,
            AtmosphereType::ThinAmmoniaAndOxygen => "Thin Ammonia and Oxygen"@,
            AtmosphereType::ThinAmmoniaRich => "Thin Ammonia-rich"@,
            AtmosphereType::ThinArgon => "Thin Argon"@,
            AtmosphereType::ThinArgonRich => "Thin Argon-rich"@,
            AtmosphereType::ThinCarbonDioxide => "Thin Carbon dioxide"@,
            AtmosphereType::ThinCarbonDioxideRich => "Thin Carbon dioxide-rich"@,
            AtmosphereType::ThinHelium => "Thin Helium"@,
            AtmosphereType::ThinMethane => "Thin Methane"@,
            AtmosphereType::ThinMethaneRich => "Thin Methane-rich"@,
            AtmosphereType::ThinNeon => "Thin Neon"@,
            AtmosphereType::ThinNeonRich => "Thin Neon-rich"@,
            AtmosphereType::ThinNitrogen => "Thin Nitrogen"@,
            AtmosphereType::ThinNoAtmosphere => "Thin No atmosphere"@,
            AtmosphereType::ThinOxygen => "Thin Oxygen"@,
            AtmosphereType::ThinSulphurDioxide => "Thin Sulphur dioxide"@,
            AtmosphereType::ThinWater => "Thin Water"@,
            AtmosphereType::ThinWaterRich => "Thin Water-rich"@,
        }
    }

    /// The name of the variant as the dumps write it.
    pub fn name(self) -> (r: &'static str)
        ensures
            r@ == self.name_text(),
    {
        match self {
            AtmosphereType::Ammonia => "Ammonia",
            AtmosphereType::AmmoniaAndOxygen => "Ammonia and Oxygen",
            AtmosphereType::AmmoniaRich => "Ammonia-rich",
            AtmosphereType::Argon => "Argon",
            AtmosphereType::ArgonRich => "Argon-rich",
            AtmosphereType::CarbonDioxide => "Carbon dioxide",
            AtmosphereType::CarbonDioxideRich => "Carbon dioxide-rich",
            AtmosphereType::Helium => "Helium",
            AtmosphereType::MetallicVapour => "Metallic vapour",
            AtmosphereType::Methane => "Methane",
            AtmosphereType::MethaneRich => "Methane-rich",
            AtmosphereType::Neon => "Neon",
            AtmosphereType::NeonRich => "Neon-rich",
            AtmosphereType::Nitrogen => "Nitrogen",
            AtmosphereType::NoAtmosphere => "No atmosphere",
            AtmosphereType::Oxygen => "Oxygen",
            AtmosphereType::SilicateVapour => "Silicate vapour",
            AtmosphereType::SuitableForWaterBasedLife => "Suitable for water-based life",
            AtmosphereType::SulphurDioxide => "Sulphur dioxide",
            AtmosphereType::Water => "Water",
            AtmosphereType::WaterRich => "Water-rich",
            AtmosphereType::HotArgon => "Hot Argon",
            AtmosphereType::HotArgonRich => "Hot Argon-rich",
            AtmosphereType::HotCarbonDioxide => "Hot Carbon dioxide",
            AtmosphereType::HotCarbonDioxideRich => "Hot Carbon dioxide-rich",
            AtmosphereType::HotMetallicVapour => "Hot Metallic vapour",
            AtmosphereType::HotSilicateVapour => "Hot Silicate vapour",
            AtmosphereType::HotSulphurDioxide => "Hot Sulphur dioxide",
            AtmosphereType::HotWater => "Hot Water",
            AtmosphereType::HotWaterRich => "Hot Water-rich",
            AtmosphereType::HotThickAmmonia => "Hot thick Ammonia",
            AtmosphereType::HotThickAmmoniaRich => "Hot thick Ammonia-rich",
            AtmosphereType::HotThickArgon => "Hot thick Argon",
            AtmosphereType::HotThickArgonRich => "Hot thick Argon-rich",
            AtmosphereType::HotThickCarbonDioxide => "Hot thick Carbon dioxide",
            AtmosphereType::HotThickCarbonDioxideRich => "Hot thick Carbon dioxide-rich",
            AtmosphereType::HotThickMetallicVapour => "Hot thick Metallic vapour",
            AtmosphereType::HotThickMethane => "Hot thick Methane",
            AtmosphereType::HotThickMethaneRich => "Hot thick Methane-rich",
            AtmosphereType::HotThickNitrogen => "Hot thick Nitrogen",
            AtmosphereType::HotThickNoAtmosphere => "Hot thick No atmosphere",
            AtmosphereType::HotThickSilicateVapour => "Hot thick Silicate vapour",
            AtmosphereType::HotThickSulphurDioxide => "Hot thick Sulphur dioxide",
            AtmosphereType::HotThickWater => "Hot thick Water",
            AtmosphereType::HotThickWaterRich => "Hot thick Water-rich",
            AtmosphereType::HotThinCarbonDioxide => "Hot thin Carbon dioxide",
            AtmosphereType::HotThinMetallicVapour => "Hot thin Metallic vapour",
            AtmosphereType::HotThinSilicateVapour => "Hot thin Silicate vapour",
            AtmosphereType::HotThinSulphurDioxide => "Hot thin Sulphur dioxide",
            AtmosphereType::ThickAmmonia => "Thick Ammonia",
            AtmosphereType::ThickAmmoniaAndOxygen => "Thick Ammonia and Oxygen",
            AtmosphereType::ThickAmmoniaRich => "Thick Ammonia-rich",
            AtmosphereType::ThickArgon => "Thick Argon",
            AtmosphereType::ThickArgonRich => "Thick Argon-rich",
            AtmosphereType::ThickCarbonDioxide => "Thick Carbon dioxide",
            AtmosphereType::ThickCarbonDioxideRich => "Thick Carbon dioxide-rich",
            AtmosphereType::ThickHelium => "Thick Helium",
            AtmosphereType::ThickMethane => "Thick Methane",
            AtmosphereType::ThickMethaneRich => "Thick Methane-rich",
            AtmosphereType::ThickNitrogen => "Thick Nitrogen",
            AtmosphereType::ThickNoAtmosphere => "Thick No atmosphere",
            AtmosphereType::ThickSuitableForWaterBasedLife => "Thick Suitable for water-based life",
            AtmosphereType::ThickSulphurDioxide => "Thick Sulphur dioxide",
            AtmosphereType::ThickWater => "Thick Water",
            AtmosphereType::ThickWaterRich => "Thick Water-rich",
            AtmosphereType::ThinAmmonia => "Thin Ammonia",
            AtmosphereType::ThinAmmoniaAndOxygen => "Thin Ammonia and Oxygen",
            AtmosphereType::ThinAmmoniaRich => "Thin Ammonia-rich",
            AtmosphereType::ThinArgon => "Thin Argon",
            AtmosphereType::ThinArgonRich => "Thin Argon-rich",
            AtmosphereType::ThinCarbonDioxide => "Thin Carbon dioxide",
            AtmosphereType::ThinCarbonDioxideRich => "Thin Carbon dioxide-rich",
            AtmosphereType::ThinHelium => "Thin Helium",
            AtmosphereType::ThinMethane => "Thin Methane",
            AtmosphereType::ThinMethaneRich => "Thin Methane-rich",
            AtmosphereType::ThinNeon => "Thin Neon",
            AtmosphereType::ThinNeonRich => "Thin Neon-rich",
            AtmosphereType::ThinNitrogen => "Thin Nitrogen",
            AtmosphereType::ThinNoAtmosphere => "Thin No atmosphere",
            AtmosphereType::ThinOxygen => "Thin Oxygen",
            AtmosphereType::ThinSulphurDioxide => "Thin Sulphur dioxide",
            AtmosphereType::ThinWater => "Thin Water",
            AtmosphereType::ThinWaterRich => "Thin Water-rich",
        }
    }

    /// All variants, each once, each at the place that `index` gives it.
    pub fn iter() -> (r: Vec<AtmosphereType>)
        ensures
            r@.len() == AtmosphereType::VARIANTS,
            forall|v: AtmosphereType| #[trigger] r@[v.index() as int] == v,
    {
        vec![
            AtmosphereType::Ammonia, AtmosphereType::AmmoniaAndOxygen,
            AtmosphereType::AmmoniaRich, AtmosphereType::Argon, AtmosphereType::ArgonRich,
            AtmosphereType::CarbonDioxide, AtmosphereType::CarbonDioxideRich,
            AtmosphereType::Helium, AtmosphereType::MetallicVapour, AtmosphereType::Methane,
            AtmosphereType::MethaneRich, AtmosphereType::Neon, AtmosphereType::NeonRich,
            AtmosphereType::Nitrogen, AtmosphereType::NoAtmosphere, AtmosphereType::Oxygen,
            AtmosphereType::SilicateVapour, AtmosphereType::SuitableForWaterBasedLife,
            AtmosphereType::SulphurDioxide, AtmosphereType::Water, AtmosphereType::WaterRich,
            AtmosphereType::HotArgon, AtmosphereType::HotArgonRich,
            AtmosphereType::HotCarbonDioxide, AtmosphereType::HotCarbonDioxideRich,
            AtmosphereType::HotMetallicVapour, AtmosphereType::HotSilicateVapour,
            AtmosphereType::HotSulphurDioxide, AtmosphereType::HotWater,
            AtmosphereType::HotWaterRich, AtmosphereType::HotThickAmmonia,
            AtmosphereType::HotThickAmmoniaRich, AtmosphereType::HotThickArgon,
            AtmosphereType::HotThickArgonRich, AtmosphereType::HotThickCarbonDioxide,
            AtmosphereType::HotThickCarbonDioxideRich, AtmosphereType::HotThickMetallicVapour,
            AtmosphereType::HotThickMethane, AtmosphereType::HotThickMethaneRich,
            AtmosphereType::HotThickNitrogen, AtmosphereType::HotThickNoAtmosphere,
            AtmosphereType::HotThickSilicateVapour, AtmosphereType::HotThickSulphurDioxide,
            AtmosphereType::HotThickWater, AtmosphereType::HotThickWaterRich,
            AtmosphereType::HotThinCarbonDioxide, AtmosphereType::HotThinMetallicVapour,
            AtmosphereType::HotThinSilicateVapour, AtmosphereType::HotThinSulphurDioxide,
            AtmosphereType::ThickAmmonia, AtmosphereType::ThickAmmoniaAndOxygen,
            AtmosphereType::ThickAmmoniaRich, AtmosphereType::ThickArgon,
            AtmosphereType::ThickArgonRich, AtmosphereType::ThickCarbonDioxide,
            AtmosphereType::ThickCarbonDioxideRich, AtmosphereType::ThickHelium,
            AtmosphereType::ThickMethane, AtmosphereType::ThickMethaneRich,
            AtmosphereType::ThickNitrogen, AtmosphereType::ThickNoAtmosphere,
            AtmosphereType::ThickSuitableForWaterBasedLife,
            AtmosphereType::ThickSulphurDioxide, AtmosphereType::ThickWater,
            AtmosphereType::ThickWaterRich, AtmosphereType::ThinAmmonia,
            AtmosphereType::ThinAmmoniaAndOxygen, AtmosphereType::ThinAmmoniaRich,
            AtmosphereType::ThinArgon, AtmosphereType::ThinArgonRich,
            AtmosphereType::ThinCarbonDioxide, AtmosphereType::ThinCarbonDioxideRich,
            AtmosphereType::ThinHelium, AtmosphereType::ThinMethane,
            AtmosphereType::ThinMethaneRich, AtmosphereType::ThinNeon,
            AtmosphereType::ThinNeonRich, AtmosphereType::ThinNitrogen,
            AtmosphereType::ThinNoAtmosphere, AtmosphereType::ThinOxygen,
            AtmosphereType::ThinSulphurDioxide, AtmosphereType::ThinWater,
            AtmosphereType::ThinWaterRich,
        ]
    }
}

/// The luminosity class of a star.
#[derive(Debug, Clone, Copy, PartialEq, Eq, PartialOrd, Ord, Hash, Structural)]
pub enum Luminosity {
    VII,
    VI,
    Vz,
    Vb,
    Vab,
    Va,
    V,
    IVb,
    IVab,
    IVa,
    IV,
    IIIb,
    IIIab,
    IIIa,
    III,
    IIb,
    IIab,
    IIa,
    II,
    Ib,
    Iab,
    Ia0,
    Ia,
    I,
    O,
}

impl Luminosity {
    /// The number of variants.
    pub const VARIANTS: usize = 25;

    /// The place of the variant in the list of the variants, from zero.
    pub open spec fn index(self) -> nat {
        match self {
            Luminosity::VII => 0,
            Luminosity::VI => 1,
            Luminosity::Vz => 2,
            Luminosity::Vb => 3,
            Luminosity::Vab => 4,
            Luminosity::Va => 5,
            Luminosity::V => 6,
            Luminosity::IVb => 7,
            Luminosity::IVab => 8,
            Luminosity::IVa => 9,
            Luminosity::IV => 10,
            Luminosity::IIIb => 11,
            Luminosity::IIIab => 12,
            Luminosity::IIIa => 13,
            Luminosity::III => 14,
            Luminosity::IIb => 15,
            Luminosity::IIab => 16,
            Luminosity::IIa => 17,
            Luminosity::II => 18,
            Luminosity::Ib => 19,
            Luminosity::Iab => 20,
            Luminosity::Ia0 => 21,
            Luminosity::Ia => 22,
            Luminosity::I => 23,
            Luminosity::O => 24,
        }
    }

    /// The name of the variant as the dumps write it.
    pub open spec fn name_text(self) -> Seq<char> {
        match self {
            Luminosity::VII => "VII"@,
            Luminosity::VI => "VI"@,
            Luminosity::Vz => "Vz"@,
            Luminosity::Vb => "Vb"@,
            Luminosity::Vab => "Vab"@,
            Luminosity::Va => "Va"@,
            Luminosity::V => "V"@,
            Luminosity::IVb => "IVb"@,
            Luminosity::IVab => "IVab"@,
            Luminosity::IVa => "IVa"@,
            Luminosity::IV => "IV"@,
            Luminosity::IIIb => "IIIb"@,
            Luminosity::IIIab => "IIIab"@,
            Luminosity::IIIa => "IIIa"@,
            Luminosity::III => "III"@,
            Luminosity::IIb => "IIb"@,
            Luminosity::IIab => "IIab"@,
            Luminosity::IIa => "IIa"@,
            Luminosity::II => "II"@,
            Luminosity::Ib => "Ib"@,
            Luminosity::Iab => "Iab"@,
            Luminosity::Ia0 => "Ia0"@,
            Luminosity::Ia => "Ia"@,
            Luminosity::I => "I"@,
            Luminosity::O => "O"@,
        }
    }

    /// The name of the variant as the dumps write it.
    pub fn name(self) -> (r: &'static str)
        ensures
            r@ == self.name_text(),
    {
        match self {
            Luminosity::VII => "VII",
            Luminosity::VI => "VI",
            Luminosity::Vz => "Vz",
            Luminosity::Vb => "Vb",
            Luminosity::Vab => "Vab",
            Luminosity::Va => "Va",
            Luminosity::V => "V",
            Luminosity::IVb => "IVb",
            Luminosity::IVab => "IVab",
            Luminosity::IVa => "IVa",
            Luminosity::IV => "IV",
            Luminosity::IIIb => "IIIb",
            Luminosity::IIIab => "IIIab",
            Luminosity::IIIa => "IIIa",
            Luminosity::III => "III",
            Luminosity::IIb => "IIb",
            Luminosity::IIab => "IIab",
            Luminosity::IIa => "IIa",
            Luminosity::II => "II",
            Luminosity::Ib => "Ib",
            Luminosity::Iab => "Iab",
            Luminosity::Ia0 => "Ia0",
            Luminosity::Ia => "Ia",
            Luminosity::I => "I",
            Luminosity::O => "O",
        }
    }

    /// All variants, each once, each at the place that `index` gives it.
    pub fn iter() -> (r: Vec<Luminosity>)
        ensures
            r@.len() == Luminosity::VARIANTS,
            forall|v: Luminosity| #[trigger] r@[v.index() as int] == v,
    {
        vec![
            Luminosity::VII, Luminosity::VI, Luminosity::Vz, Luminosity::Vb, Luminosity::Vab,
            Luminosity::Va, Luminosity::V, Luminosity::IVb, Luminosity::IVab, Luminosity::IVa,
            Luminosity::IV, Luminosity::IIIb, Luminosity::IIIab, Luminosity::IIIa,
            Luminosity::III, Luminosity::IIb, Luminosity::IIab, Luminosity::IIa,
            Luminosity::II, Luminosity::Ib, Luminosity::Iab, Luminosity::Ia0, Luminosity::Ia,
            Luminosity::I, Luminosity::O,
        ]
    }
}

/// A raw material that the surface of a planet can hold.
#[derive(Debug, Clone, Copy, PartialEq, Eq, PartialOrd, Ord, Hash, Structural)]
pub enum MaterialsKey {
    Antimony,
    Arsenic,
    Cadmium,
    Carbon,
    Chromium,
    Germanium,
    Iron,
    Manganese,
    Mercury,
    Molybdenum,
    Nickel,
    Niobium,
    Phosphorus,
    Polonium,
    Ruthenium,
    Selenium,
    Sulphur,
    Technetium,
    Tellurium,
    Tin,
    Tungsten,
    Vanadium,
    Yttrium,
    Zinc,
    Zirconium,
}

impl MaterialsKey {
    /// The number of variants.
    pub const VARIANTS: usize = 25;

    /// The place of the variant in the list of the variants, from zero.
    pub open spec fn index(self) -> nat {
        match self {
            MaterialsKey::Antimony => 0,
            MaterialsKey::Arsenic => 1,
            MaterialsKey::Cadmium => 2,
            MaterialsKey::Carbon => 3,
            MaterialsKey::Chromium => 4,
            MaterialsKey::Germanium => 5,
            MaterialsKey::Iron => 6,
            MaterialsKey::Manganese => 7,
            MaterialsKey::Mercury => 8,
            MaterialsKey::Molybdenum => 9,
            MaterialsKey::Nickel => 10,
            MaterialsKey::Niobium => 11,
            MaterialsKey::Phosphorus => 12,
            MaterialsKey::Polonium => 13,
            MaterialsKey::Ruthenium => 14,
            MaterialsKey::Selenium => 15,
            MaterialsKey::Sulphur => 16,
            MaterialsKey::Technetium => 17,
            MaterialsKey::Tellurium => 18,
            MaterialsKey::Tin => 19,
            MaterialsKey::Tungsten => 20,
            MaterialsKey::Vanadium => 21,
            MaterialsKey::Yttrium => 22,
            MaterialsKey::Zinc => 23,
            MaterialsKey::Zirconium => 24,
        }
    }

    /// The name of the variant as the dumps write it.
    pub open spec fn name_text(self) -> Seq<char> {
        match self {
            MaterialsKey::Antimony => "Antimony"@,
            MaterialsKey::Arsenic => "Arsenic"@,
            MaterialsKey::Cadmium => "Cadmium"@,
            MaterialsKey::Carbon => "Carbon"@,
            MaterialsKey::Chromium => "Chromium"@,
            MaterialsKey::Germanium => "Germanium"@,
            MaterialsKey::Iron => "Iron"@,
            MaterialsKey::Manganese => "Manganese"@,
            MaterialsKey::Mercury => "Mercury"@,
            MaterialsKey::Molybdenum => "Molybdenum"@,
            MaterialsKey::Nickel => "Nickel"@,
            MaterialsKey::Niobium => "Niobium"@,
            MaterialsKey::Phosphorus => "Phosphorus"@,
            MaterialsKey::Polonium => "Polonium"@,
            MaterialsKey::Ruthenium => "Ruthenium"@,
            MaterialsKey::Selenium => "Selenium"@,
            MaterialsKey::Sulphur => "Sulphur"@,
            MaterialsKey::Technetium => "Technetium"@,
            MaterialsKey::Tellurium => "Tellurium"@,
            MaterialsKey::Tin => "Tin"@,
            MaterialsKey::Tungsten => "Tungsten"@,
            MaterialsKey::Vanadium => "Vanadium"@,
            MaterialsKey::Yttrium => "Yttrium"@,
            MaterialsKey::Zinc => "Zinc"@,
            MaterialsKey::Zirconium => "Zirconium"@,
        }
    }

    /// The name of the variant as the dumps write it.
    pub fn name(self) -> (r: &'static str)
        ensures
            r@ == self.name_text(),
    {
        match self {
            MaterialsKey::Antimony => "Antimony",
            MaterialsKey::Arsenic => "Arsenic",
            MaterialsKey::Cadmium => "Cadmium",
            MaterialsKey::Carbon => "Carbon",
            MaterialsKey::Chromium => "Chromium",
            MaterialsKey::Germanium => "Germanium",
            MaterialsKey::Iron => "Iron",
            MaterialsKey::Manganese => "Manganese",
            MaterialsKey::Mercury => "Mercury",
            MaterialsKey::Molybdenum => "Molybdenum",
            MaterialsKey::Nickel => "Nickel",
            MaterialsKey::Niobium => "Niobium",
            MaterialsKey::Phosphorus => "Phosphorus",
            MaterialsKey::Polonium => "Polonium",
            MaterialsKey::Ruthenium => "Ruthenium",
            MaterialsKey::Selenium => "Selenium",
            MaterialsKey::Sulphur => "Sulphur",
            MaterialsKey::Technetium => "Technetium",
            MaterialsKey::Tellurium => "Tellurium",
            MaterialsKey::Tin => "Tin",
            MaterialsKey::Tungsten => "Tungsten",
            MaterialsKey::Vanadium => "Vanadium",
            MaterialsKey::Yttrium => "Yttrium",
            MaterialsKey::Zinc => "Zinc",
            MaterialsKey::Zirconium => "Zirconium",
        }
    }

    /// All variants, each once, each at the place that `index` gives it.
    pub fn iter() -> (r: Vec<MaterialsKey>)
        ensures
            r@.len() == MaterialsKey::VARIANTS,
            forall|v: MaterialsKey| #[trigger] r@[v.index() as int] == v,
    {
        vec![
            MaterialsKey::Antimony, MaterialsKey::Arsenic, MaterialsKey::Cadmium,
            MaterialsKey::Carbon, MaterialsKey::Chromium, MaterialsKey::Germanium,
            MaterialsKey::Iron, MaterialsKey::Manganese, MaterialsKey::Mercury,
            MaterialsKey::Molybdenum, MaterialsKey::Nickel, MaterialsKey::Niobium,
            MaterialsKey::Phosphorus, MaterialsKey::Polonium, MaterialsKey::Ruthenium,
            MaterialsKey::Selenium, MaterialsKey::Sulphur, MaterialsKey::Technetium,
            MaterialsKey::Tellurium, MaterialsKey::Tin, MaterialsKey::Tungsten,
            MaterialsKey::Vanadium, MaterialsKey::Yttrium, MaterialsKey::Zinc,
            MaterialsKey::Zirconium,
        ]
    }
}

/// The kind of a planet.
#[derive(Debug, Clone, Copy, PartialEq, Eq, PartialOrd, Ord, Hash, Structural)]
pub enum PlanetSubType {
    ClassIGasGiant,
    ClassIiGasGiant,
    ClassIiiGasGiant,
    ClassIvGasGiant,
    ClassVGasGiant,
    GasGiantWithAmmoniaBasedLife,
    GasGiantWithWaterBasedLife,
    HeliumGasGiant,
    HeliumRichGasGiant,
    WaterGiant,
    AmmoniaWorld,
    EarthLikeWorld,
    HighMetalContentWorld,
    IcyBody,
    MetalRichBody,
    RockyIceWorld,
    RockyBody,
    WaterWorld,
}

impl PlanetSubType {
    /// The number of variants.
    pub const VARIANTS: usize = 18;

    /// The place of the variant in the list of the variants, from zero.
    pub open spec fn index(self) -> nat {
        match self {
            PlanetSubType::ClassIGasGiant => 0,
            PlanetSubType::ClassIiGasGiant => 1,
            PlanetSubType::ClassIiiGasGiant => 2,
            PlanetSubType::ClassIvGasGiant => 3,
            PlanetSubType::ClassVGasGiant => 4,
            PlanetSubType::GasGiantWithAmmoniaBasedLife => 5,
            PlanetSubType::GasGiantWithWaterBasedLife => 6,
            PlanetSubType::HeliumGasGiant => 7,
            PlanetSubType::HeliumRichGasGiant => 8,
            PlanetSubType::WaterGiant => 9,
            PlanetSubType::AmmoniaWorld => 10,
            PlanetSubType::EarthLikeWorld => 11,
            PlanetSubType::HighMetalContentWorld => 12,
            PlanetSubType::IcyBody => 13,
            PlanetSubType::MetalRichBody => 14,
            PlanetSubType::RockyIceWorld => 15,
            PlanetSubType::RockyBody => 16,
            PlanetSubType::WaterWorld => 17,
        }
    }

    /// The name of the variant as the dumps write it.
    pub open spec fn name_text(self) -> Seq<char> {
        match self {
            PlanetSubType::ClassIGasGiant => "Class I gas giant"@,
            PlanetSubType::ClassIiGasGiant => "Class II gas giant"@,
            PlanetSubType::ClassIiiGasGiant => "Class III gas giant"@,
            PlanetSubType::ClassIvGasGiant => "Class IV gas giant"@,
            PlanetSubType::ClassVGasGiant => "Class V gas giant"@,
            PlanetSubType::GasGiantWithAmmoniaBasedLife => "Gas giant with ammonia-based life"@,
            PlanetSubType::GasGiantWithWaterBasedLife => "Gas giant with water-based life"@,
            PlanetSubType::HeliumGasGiant => "Helium gas giant"@,
            PlanetSubType::HeliumRichGasGiant => "Helium-rich gas giant"@,
            PlanetSubType::WaterGiant => "Water giant"@,
            PlanetSubType::AmmoniaWorld => "Ammonia world"@,
            PlanetSubType::EarthLikeWorld => "Earth-like world"@,
            PlanetSubType::HighMetalContentWorld => "High metal content world"@,
            PlanetSubType::IcyBody => "Icy body"@,
            PlanetSubType::MetalRichBody => "Metal-rich body"@,
            PlanetSubType::RockyIceWorld => "Rocky Ice world"@,
            PlanetSubType::RockyBody => "Rocky body"@,
            PlanetSubType::WaterWorld => "Water world"@,
        }
    }

    /// The name of the variant as the dumps write it.
    pub fn name(self) -> (r: &'static str)
        ensures
            r@ == self.name_text(),
    {
        match self {
            PlanetSubType::ClassIGasGiant => "Class I gas giant",
            PlanetSubType::ClassIiGasGiant => "Class II gas giant",
            PlanetSubType::ClassIiiGasGiant => "Class III gas giant",
            PlanetSubType::ClassIvGasGiant => "Class IV gas giant",
            PlanetSubType::ClassVGasGiant => "Class V gas giant",
            PlanetSubType::GasGiantWithAmmoniaBasedLife => "Gas giant with ammonia-based life",
            PlanetSubType::GasGiantWithWaterBasedLife => "Gas giant with water-based life",
            PlanetSubType::HeliumGasGiant => "Helium gas giant",
            PlanetSubType::HeliumRichGasGiant => "Helium-rich gas giant",
            PlanetSubType::WaterGiant => "Water giant",
            PlanetSubType::AmmoniaWorld => "Ammonia world",
            PlanetSubType::EarthLikeWorld => "Earth-like world",
            PlanetSubType::HighMetalContentWorld => "High metal content world",
            PlanetSubType::IcyBody => "Icy body",
            PlanetSubType::MetalRichBody => "Metal-rich body",
            PlanetSubType::RockyIceWorld => "Rocky Ice world",
            PlanetSubType::RockyBody => "Rocky body",
            PlanetSubType::WaterWorld => "Water world",
        }
    }

    /// All variants, each once, each at the place that `index` gives it.
    pub fn iter() -> (r: Vec<PlanetSubType>)
        ensures
            r@.len() == PlanetSubType::VARIANTS,
            forall|v: PlanetSubType| #[trigger] r@[v.index() as int] == v,
    {
        vec![
            PlanetSubType::ClassIGasGiant, PlanetSubType::ClassIiGasGiant,
            PlanetSubType::ClassIiiGasGiant, PlanetSubType::ClassIvGasGiant,
            PlanetSubType::ClassVGasGiant, PlanetSubType::GasGiantWithAmmoniaBasedLife,
            PlanetSubType::GasGiantWithWaterBasedLife, PlanetSubType::HeliumGasGiant,
            PlanetSubType::HeliumRichGasGiant, PlanetSubType::WaterGiant,
            PlanetSubType::AmmoniaWorld, PlanetSubType::EarthLikeWorld,
            PlanetSubType::HighMetalContentWorld, PlanetSubType::IcyBody,
            PlanetSubType::MetalRichBody, PlanetSubType::RockyIceWorld,
            PlanetSubType::RockyBody, PlanetSubType::WaterWorld,
        ]
    }

    /// The short word for the kind of planet.
    pub open spec fn short_text(self) -> Seq<char> {
        match self {
            PlanetSubType::ClassIGasGiant => "C1GG"@,
            PlanetSubType::ClassIiGasGiant => "C2GG"@,
            PlanetSubType::ClassIiiGasGiant => "C3GG"@,
            PlanetSubType::ClassIvGasGiant => "C4GG"@,
            PlanetSubType::ClassVGasGiant => "C5GG"@,
            PlanetSubType::GasGiantWithAmmoniaBasedLife => "GGwABL"@,
            PlanetSubType::GasGiantWithWaterBasedLife => "GGwWBL"@,
            PlanetSubType::HeliumGasGiant => "HGG"@,
            PlanetSubType::HeliumRichGasGiant => "HRGG"@,
            PlanetSubType::WaterGiant => "WG"@,
            PlanetSubType::AmmoniaWorld => "AW"@,
            PlanetSubType::EarthLikeWorld => "ELW"@,
            PlanetSubType::HighMetalContentWorld => "HMC"@,
            PlanetSubType::IcyBody => "I"@,
            PlanetSubType::MetalRichBody => "MR"@,
            PlanetSubType::RockyIceWorld => "RI"@,
            PlanetSubType::RockyBody => "R"@,
            PlanetSubType::WaterWorld => "WW"@,
        }
    }

    /// The short word for the kind of planet.
    pub fn short(self) -> (r: &'static str)
        ensures
            r@ == self.short_text(),
    {
        match self {
            PlanetSubType::ClassIGasGiant => "C1GG",
            PlanetSubType::ClassIiGasGiant => "C2GG",
            PlanetSubType::ClassIiiGasGiant => "C3GG",
            PlanetSubType::ClassIvGasGiant => "C4GG",
            PlanetSubType::ClassVGasGiant => "C5GG",
            PlanetSubType::GasGiantWithAmmoniaBasedLife => "GGwABL",
            PlanetSubType::GasGiantWithWaterBasedLife => "GGwWBL",
            PlanetSubType::HeliumGasGiant => "HGG",
            PlanetSubType::HeliumRichGasGiant => "HRGG",
            PlanetSubType::WaterGiant => "WG",
            PlanetSubType::AmmoniaWorld => "AW",
            PlanetSubType::EarthLikeWorld => "ELW",
            PlanetSubType::HighMetalContentWorld => "HMC",
            PlanetSubType::IcyBody => "I",
            PlanetSubType::MetalRichBody => "MR",
            PlanetSubType::RockyIceWorld => "RI",
            PlanetSubType::RockyBody => "R",
            PlanetSubType::WaterWorld => "WW",
        }
    }
}

/// How much is left to mine in the rings of a body.
#[derive(Debug, Clone, Copy, PartialEq, Eq, PartialOrd, Ord, Hash, Structural)]
pub enum ReserveLevel {
    Depleted,
    Low,
    Common,
    Major,
    Pristine,
}

impl ReserveLevel {
    /// The number of variants.
    pub const VARIANTS: usize = 5;

    /// The place of the variant in the list of the variants, from zero.
    pub open spec fn index(self) -> nat {
        match self {
            ReserveLevel::Depleted => 0,
            ReserveLevel::Low => 1,
            ReserveLevel::Common => 2,
            ReserveLevel::Major => 3,
            ReserveLevel::Pristine => 4,
        }
    }

    /// The name of the variant as the dumps write it.
    pub open spec fn name_text(self) -> Seq<char> {
        match self {
            ReserveLevel::Depleted => "Depleted"@,
            ReserveLevel::Low => "Low"@,
            ReserveLevel::Common => "Common"@,
            ReserveLevel::Major => "Major"@,
            ReserveLevel::Pristine => "Pristine"@,
        }
    }

    /// The name of the variant as the dumps write it.
    pub fn name(self) -> (r: &'static str)
        ensures
            r@ == self.name_text(),
    {
        match self {
            ReserveLevel::Depleted => "Depleted",
            ReserveLevel::Low => "Low",
            ReserveLevel::Common => "Common",
            ReserveLevel::Major => "Major",
            ReserveLevel::Pristine => "Pristine",
        }
    }

    /// All variants, each once, each at the place that `index` gives it.
    pub fn iter() -> (r: Vec<ReserveLevel>)
        ensures
            r@.len() == ReserveLevel::VARIANTS,
            forall|v: ReserveLevel| #[trigger] r@[v.index() as int] == v,
    {
        vec![
            ReserveLevel::Depleted, ReserveLevel::Low, ReserveLevel::Common,
            ReserveLevel::Major, ReserveLevel::Pristine,
        ]
    }
}

/// A family of kinds of stars.
#[derive(Debug, Clone, Copy, PartialEq, Eq, PartialOrd, Ord, Hash, Structural)]
pub enum StarClass {
    OTypeStars,
    BTypeStars,
    ATypeStars,
    FTypeStars,
    GTypeStars,
    KTypeStars,
    MTypeStars,
    LTypeStars,
    TTypeStars,
    YTypeStars,
    ProtoStars,
    CarbonStars,
    WolfRayetStars,
    WhiteDwarfStars,
    NonSequenceStars,
}

impl StarClass {
    /// The number of variants.
    pub const VARIANTS: usize = 15;

    /// The place of the variant in the list of the variants, from zero.
    pub open spec fn index(self) -> nat {
        match self {
            StarClass::OTypeStars => 0,
            StarClass::BTypeStars => 1,
            StarClass::ATypeStars => 2,
            StarClass::FTypeStars => 3,
            StarClass::GTypeStars => 4,
            StarClass::KTypeStars => 5,
            StarClass::MTypeStars => 6,
            StarClass::LTypeStars => 7,
            StarClass::TTypeStars => 8,
            StarClass::YTypeStars => 9,
            StarClass::ProtoStars => 10,
            StarClass::CarbonStars => 11,
            StarClass::WolfRayetStars => 12,
            StarClass::WhiteDwarfStars => 13,
            StarClass::NonSequenceStars => 14,
        }
    }

    /// The name of the variant as the dumps write it.
    pub open spec fn name_text(self) -> Seq<char> {
        match self {
            StarClass::OTypeStars => "OTypeStars"@,
            StarClass::BTypeStars => "BTypeStars"@,
            StarClass::ATypeStars => "ATypeStars"@,
            StarClass::FTypeStars => "FTypeStars"@,
            StarClass::GTypeStars => "GTypeStars"@,
            StarClass::KTypeStars => "KTypeStars"@,
            StarClass::MTypeStars => "MTypeStars"@,
            StarClass::LTypeStars => "LTypeStars"@,
            StarClass::TTypeStars => "TTypeStars"@,
            StarClass::YTypeStars => "YTypeStars"@,
            StarClass::ProtoStars => "ProtoStars"@,
            StarClass::CarbonStars => "CarbonStars"@,
            StarClass::WolfRayetStars => "WolfRayetStars"@,
            StarClass::WhiteDwarfStars => "WhiteDwarfStars"@,
            StarClass::NonSequenceStars => "NonSequenceStars"@,
        }
    }

    /// The name of the variant as the dumps write it.
    pub fn name(self) -> (r: &'static str)
        ensures
            r@ == self.name_text(),
    {
        match self {
            StarClass::OTypeStars => "OTypeStars",
            StarClass::BTypeStars => "BTypeStars",
            StarClass::ATypeStars => "ATypeStars",
            StarClass::FTypeStars => "FTypeStars",
            StarClass::GTypeStars => "GTypeStars",
            StarClass::KTypeStars => "KTypeStars",
            StarClass::MTypeStars => "MTypeStars",
            StarClass::LTypeStars => "LTypeStars",
            StarClass::TTypeStars => "TTypeStars",
            StarClass::YTypeStars => "YTypeStars",
            StarClass::ProtoStars => "ProtoStars",
            StarClass::CarbonStars => "CarbonStars",
            StarClass::WolfRayetStars => "WolfRayetStars",
            StarClass::WhiteDwarfStars => "WhiteDwarfStars",
            StarClass::NonSequenceStars => "NonSequenceStars",
        }
    }

    /// All variants, each once, each at the place that `index` gives it.
    pub fn iter() -> (r: Vec<StarClass>)
        ensures
            r@.len() == StarClass::VARIANTS,
            forall|v: StarClass| #[trigger] r@[v.index() as int] == v,
    {
        vec![
            StarClass::OTypeStars, StarClass::BTypeStars, StarClass::ATypeStars,
            StarClass::FTypeStars, StarClass::GTypeStars, StarClass::KTypeStars,
            StarClass::MTypeStars, StarClass::LTypeStars, StarClass::TTypeStars,
            StarClass::YTypeStars, StarClass::ProtoStars, StarClass::CarbonStars,
            StarClass::WolfRayetStars, StarClass::WhiteDwarfStars, StarClass::NonSequenceStars,
        ]
    }

    /// The letters that stand for the family.
    pub open spec fn short_text(self) -> Seq<char> {
        match self {
            StarClass::OTypeStars => "O"@,
            StarClass::BTypeStars => "B"@,
            StarClass::ATypeStars => "A"@,
            StarClass::FTypeStars => "F"@,
            StarClass::GTypeStars => "G"@,
            StarClass::KTypeStars => "K"@,
            StarClass::MTypeStars => "M"@,
            StarClass::LTypeStars => "L"@,
            StarClass::TTypeStars => "T"@,
            StarClass::YTypeStars => "Y"@,
            StarClass::ProtoStars => "P"@,
            StarClass::CarbonStars => "C"@,
            StarClass::WolfRayetStars => "W"@,
            StarClass::WhiteDwarfStars => "WD"@,
            StarClass::NonSequenceStars => "NS"@,
        }
    }

    /// The letters that stand for the family.
    pub fn short(self) -> (r: &'static str)
        ensures
            r@ == self.short_text(),
    {
        match self {
            StarClass::OTypeStars => "O",
            StarClass::BTypeStars => "B",
            StarClass::ATypeStars => "A",
            StarClass::FTypeStars => "F",
            StarClass::GTypeStars => "G",
            StarClass::KTypeStars => "K",
            StarClass::MTypeStars => "M",
            StarClass::LTypeStars => "L",
            StarClass::TTypeStars => "T",
            StarClass::YTypeStars => "Y",
            StarClass::ProtoStars => "P",
            StarClass::CarbonStars => "C",
            StarClass::WolfRayetStars => "W",
            StarClass::WhiteDwarfStars => "WD",
            StarClass::NonSequenceStars => "NS",
        }
    }

    /// The family written out.
    pub open spec fn title_text(self) -> Seq<char> {
        match self {
            StarClass::OTypeStars => "O-Type Stars"@,
            StarClass::BTypeStars => "B-Type Stars"@,
            StarClass::ATypeStars => "A-Type Stars"@,
            StarClass::FTypeStars => "F-Type Stars"@,
            StarClass::GTypeStars => "G-Type Stars"@,
            StarClass::KTypeStars => "K-Type Stars"@,
            StarClass::MTypeStars => "M-Type Stars"@,
            StarClass::LTypeStars => "L-Type Stars"@,
            StarClass::TTypeStars => "T-Type Stars"@,
            StarClass::YTypeStars => "Y-Type Stars"@,
            StarClass::ProtoStars => "Proto Stars"@,
            StarClass::CarbonStars => "Carbon Stars"@,
            StarClass::WolfRayetStars => "Wolf-Rayet Stars"@,
            StarClass::WhiteDwarfStars => "White Dwarf Stars"@,
            StarClass::NonSequenceStars => "Non Sequence Stars"@,
        }
    }

    /// The family written out.
    pub fn title(self) -> (r: &'static str)
        ensures
            r@ == self.title_text(),
    {
        match self {
            StarClass::OTypeStars => "O-Type Stars",
            StarClass::BTypeStars => "B-Type Stars",
            StarClass::ATypeStars => "A-Type Stars",
            StarClass::FTypeStars => "F-Type Stars",
            StarClass::GTypeStars => "G-Type Stars",
            StarClass::KTypeStars => "K-Type Stars",
            StarClass::MTypeStars => "M-Type Stars",
            StarClass::LTypeStars => "L-Type Stars",
            StarClass::TTypeStars => "T-Type Stars",
            StarClass::YTypeStars => "Y-Type Stars",
            StarClass::ProtoStars => "Proto Stars",
            StarClass::CarbonStars => "Carbon Stars",
            StarClass::WolfRayetStars => "Wolf-Rayet Stars",
            StarClass::WhiteDwarfStars => "White Dwarf Stars",
            StarClass::NonSequenceStars => "Non Sequence Stars",
        }
    }
}

/// The spectral class of a star, with its subclass.
#[derive(Debug, Clone, Copy, PartialEq, Eq, PartialOrd, Ord, Hash, Structural)]
pub enum SpectralClass {
    O,
    O0,
    O1,
    O2,
    O3,
    O4,
    O5,
    O6,
    O7,
    O8,
    O9,
    B,
    B0,
    B1,
    B2,
    B3,
    B4,
    B5,
    B6,
    B7,
    B8,
    B9,
    A,
    A0,
    A1,
    A2,
    A3,
    A4,
    A5,
    A6,
    A7,
    A8,
    A9,
    F,
    F0,
    F1,
    F2,
    F3,
    F4,
    F5,
    F6,
    F7,
    F8,
    F9,
    G,
    G0,
    G1,
    G2,
    G3,
    G4,
    G5,
    G6,
    G7,
    G8,
    G9,
    K,
    K0,
    K1,
    K2,
    K3,
    K4,
    K5,
    K6,
    K7,
    K8,
    K9,
    M,
    M0,
    M1,
    M2,
    M3,
    M4,
    M5,
    M6,
    M7,
    M8,
    M9,
    L,
    L0,
    L1,
    L2,
    L3,
    L4,
    L5,
    L6,
    L7,
    L8,
    L9,
    T,
    T0,
    T1,
    T2,
    T3,
    T4,
    T5,
    T6,
    T7,
    T8,
    T9,
    Y0,
    Y1,
    Y2,
    Y3,
    Y4,
    Y5,
    Y6,
    Y7,
    Y8,
    AeBe0,
    AeBe1,
    AeBe2,
    AeBe3,
    AeBe4,
    AeBe5,
    AeBe6,
    AeBe7,
    AeBe8,
    AeBe9,
    TTS0,
    TTS1,
    TTS2,
    TTS3,
    TTS4,
    TTS5,
    TTS6,
    TTS7,
    TTS8,
    TTS9,
}

impl SpectralClass {
    /// The number of variants.
    pub const VARIANTS: usize = 128;

    /// The place of the variant in the list of the variants, from zero.
    pub open spec fn index(self) -> nat {
        match self {
            SpectralClass::O => 0,
            SpectralClass::O0 => 1,
            SpectralClass::O1 => 2,
            SpectralClass::O2 => 3,
            SpectralClass::O3 => 4,
            SpectralClass::O4 => 5,
            SpectralClass::O5 => 6,
            SpectralClass::O6 => 7,
            SpectralClass::O7 => 8,
            SpectralClass::O8 => 9,
            SpectralClass::O9 => 10,
            SpectralClass::B => 11,
            SpectralClass::B0 => 12,
            SpectralClass::B1 => 13,
            SpectralClass::B2 => 14,
            SpectralClass::B3 => 15,
            SpectralClass::B4 => 16,
            SpectralClass::B5 => 17,
            SpectralClass::B6 => 18,
            SpectralClass::B7 => 19,
            SpectralClass::B8 => 20,
            SpectralClass::B9 => 21,
            SpectralClass::A => 22,
            SpectralClass::A0 => 23,
            SpectralClass::A1 => 24,
            SpectralClass::A2 => 25,
            SpectralClass::A3 => 26,
            SpectralClass::A4 => 27,
            SpectralClass::A5 => 28,
            SpectralClass::A6 => 29,
            SpectralClass::A7 => 30,
            SpectralClass::A8 => 31,
            SpectralClass::A9 => 32,
            SpectralClass::F => 33,
            SpectralClass::F0 => 34,
            SpectralClass::F1 => 35,
            SpectralClass::F2 => 36,
            SpectralClass::F3 => 37,
            SpectralClass::F4 => 38,
            SpectralClass::F5 => 39,
            SpectralClass::F6 => 40,
            SpectralClass::F7 => 41,
            SpectralClass::F8 => 42,
            SpectralClass::F9 => 43,
            SpectralClass::G => 44,
            SpectralClass::G0 => 45,
            SpectralClass::G1 => 46,
            SpectralClass::G2 => 47,
            SpectralClass::G3 => 48,
            SpectralClass::G4 => 49,
            SpectralClass::G5 => 50,
            SpectralClass::G6 => 51,
            SpectralClass::G7 => 52,
            SpectralClass::G8 => 53,
            SpectralClass::G9 => 54,
            SpectralClass::K => 55,
            SpectralClass::K0 => 56,
            SpectralClass::K1 => 57,
            SpectralClass::K2 => 58,
            SpectralClass::K3 => 59,
            SpectralClass::K4 => 60,
            SpectralClass::K5 => 61,
            SpectralClass::K6 => 62,
            SpectralClass::K7 => 63,
            SpectralClass::K8 => 64,
            SpectralClass::K9 => 65,
            SpectralClass::M => 66,
            SpectralClass::M0 => 67,
            SpectralClass::M1 => 68,
            SpectralClass::M2 => 69,
            SpectralClass::M3 => 70,
            SpectralClass::M4 => 71,
            SpectralClass::M5 => 72,
            SpectralClass::M6 => 73,
            SpectralClass::M7 => 74,
            SpectralClass::M8 => 75,
            SpectralClass::M9 => 76,
            SpectralClass::L => 77,
            SpectralClass::L0 => 78,
            SpectralClass::L1 => 79,
            SpectralClass::L2 => 80,
            SpectralClass::L3 => 81,
            SpectralClass::L4 => 82,
            SpectralClass::L5 => 83,
            SpectralClass::L6 => 84,
            SpectralClass::L7 => 85,
            SpectralClass::L8 => 86,
            SpectralClass::L9 => 87,
            SpectralClass::T => 88,
            SpectralClass::T0 => 89,
            SpectralClass::T1 => 90,
            SpectralClass::T2 => 91,
            SpectralClass::T3 => 92,
            SpectralClass::T4 => 93,
            SpectralClass::T5 => 94,
            SpectralClass::T6 => 95,
            SpectralClass::T7 => 96,
            SpectralClass::T8 => 97,
            SpectralClass::T9 => 98,
            SpectralClass::Y0 => 99,
            SpectralClass::Y1 => 100,
            SpectralClass::Y2 => 101,
            SpectralClass::Y3 => 102,
            SpectralClass::Y4 => 103,
            SpectralClass::Y5 => 104,
            SpectralClass::Y6 => 105,
            SpectralClass::Y7 => 106,
            SpectralClass::Y8 => 107,
            SpectralClass::AeBe0 => 108,
            SpectralClass::AeBe1 => 109,
            SpectralClass::AeBe2 => 110,
            SpectralClass::AeBe3 => 111,
            SpectralClass::AeBe4 => 112,
            SpectralClass::AeBe5 => 113,
            SpectralClass::AeBe6 => 114,
            SpectralClass::AeBe7 => 115,
            SpectralClass::AeBe8 => 116,
            SpectralClass::AeBe9 => 117,
            SpectralClass::TTS0 => 118,
            SpectralClass::TTS1 => 119,
            SpectralClass::TTS2 => 120,
            SpectralClass::TTS3 => 121,
            SpectralClass::TTS4 => 122,
            SpectralClass::TTS5 => 123,
            SpectralClass::TTS6 => 124,
            SpectralClass::TTS7 => 125,
            SpectralClass::TTS8 => 126,
            SpectralClass::TTS9 => 127,
        }
    }

    /// The name of the variant as the dumps write it.
    pub open spec fn name_text(self) -> Seq<char> {
        match self {
            SpectralClass::O => "O"@,
            SpectralClass::O0 => "O0"@,
            SpectralClass::O1 => "O1"@,
            SpectralClass::O2 => "O2"@,
            SpectralClass::O3 => "O3"@,
            SpectralClass::O4 => "O4"@,
            SpectralClass::O5 => "O5"@,
            SpectralClass::O6 => "O6"@,
            SpectralClass::O7 => "O7"@,
            SpectralClass::O8 => "O8"@,
            SpectralClass::O9 => "O9"@,
            SpectralClass::B => "B"@,
            SpectralClass::B0 => "B0"@,
            SpectralClass::B1 => "B1"@,
            SpectralClass::B2 => "B2"@,
            SpectralClass::B3 => "B3"@,
            SpectralClass::B4 => "B4"@,
            SpectralClass::B5 => "B5"@,
            SpectralClass::B6 => "B6"@,
            SpectralClass::B7 => "B7"@,
            SpectralClass::B8 => "B8"@,
            SpectralClass::B9 => "B9"@,
            SpectralClass::A => "A"@,
            SpectralClass::A0 => "A0"@,
            SpectralClass::A1 => "A1"@,
            SpectralClass::A2 => "A2"@,
            SpectralClass::A3 => "A3"@,
            SpectralClass::A4 => "A4"@,
            SpectralClass::A5 => "A5"@,
            SpectralClass::A6 => "A6"@,
            SpectralClass::A7 => "A7"@,
            SpectralClass::A8 => "A8"@,
            SpectralClass::A9 => "A9"@,
            SpectralClass::F => "F"@,
            SpectralClass::F0 => "F0"@,
            SpectralClass::F1 => "F1"@,
            SpectralClass::F2 => "F2"@,
            SpectralClass::F3 => "F3"@,
            SpectralClass::F4 => "F4"@,
            SpectralClass::F5 => "F5"@,
            SpectralClass::F6 => "F6"@,
            SpectralClass::F7 => "F7"@,
            SpectralClass::F8 => "F8"@,
            SpectralClass::F9 => "F9"@,
            SpectralClass::G => "G"@,
            SpectralClass::G0 => "G0"@,
            SpectralClass::G1 => "G1"@,
            SpectralClass::G2 => "G2"@,
            SpectralClass::G3 => "G3"@,
            SpectralClass::G4 => "G4"@,
            SpectralClass::G5 => "G5"@,
            SpectralClass::G6 => "G6"@,
            SpectralClass::G7 => "G7"@,
            SpectralClass::G8 => "G8"@,
            SpectralClass::G9 => "G9"@,
            SpectralClass::K => "K"@,
            SpectralClass::K0 => "K0"@,
            SpectralClass::K1 => "K1"@,
            SpectralClass::K2 => "K2"@,
            SpectralClass::K3 => "K3"@,
            SpectralClass::K4 => "K4"@,
            SpectralClass::K5 => "K5"@,
            SpectralClass::K6 => "K6"@,
            SpectralClass::K7 => "K7"@,
            SpectralClass::K8 => "K8"@,
            SpectralClass::K9 => "K9"@,
            SpectralClass::M => "M"@,
            SpectralClass::M0 => "M0"@,
            SpectralClass::M1 => "M1"@,
            SpectralClass::M2 => "M2"@,
            SpectralClass::M3 => "M3"@,
            SpectralClass::M4 => "M4"@,
            SpectralClass::M5 => "M5"@,
            SpectralClass::M6 => "M6"@,
            SpectralClass::M7 => "M7"@,
            SpectralClass::M8 => "M8"@,
            SpectralClass::M9 => "M9"@,
            SpectralClass::L => "L"@,
            SpectralClass::L0 => "L0"@,
            SpectralClass::L1 => "L1"@,
            SpectralClass::L2 => "L2"@,
            SpectralClass::L3 => "L3"@,
            SpectralClass::L4 => "L4"@,
            SpectralClass::L5 => "L5"@,
            SpectralClass::L6 => "L6"@,
            SpectralClass::L7 => "L7"@,
            SpectralClass::L8 => "L8"@,
            SpectralClass::L9 => "L9"@,
            SpectralClass::T => "T"@,
            SpectralClass::T0 => "T0"@,
            SpectralClass::T1 => "T1"@,
            SpectralClass::T2 => "T2"@,
            SpectralClass::T3 => "T3"@,
            SpectralClass::T4 => "T4"@,
            SpectralClass::T5 => "T5"@,
            SpectralClass::T6 => "T6"@,
            SpectralClass::T7 => "T7"@,
            SpectralClass::T8 => "T8"@,
            SpectralClass::T9 => "T9"@,
            SpectralClass::Y0 => "Y0"@,
            SpectralClass::Y1 => "Y1"@,
            SpectralClass::Y2 => "Y2"@,
            SpectralClass::Y3 => "Y3"@,
            SpectralClass::Y4 => "Y4"@,
            SpectralClass::Y5 => "Y5"@,
            SpectralClass::Y6 => "Y6"@,
            SpectralClass::Y7 => "Y7"@,
            SpectralClass::Y8 => "Y8"@,
            SpectralClass::AeBe0 => "AeBe0"@,
            SpectralClass::AeBe1 => "AeBe1"@,
            SpectralClass::AeBe2 => "AeBe2"@,
            SpectralClass::AeBe3 => "AeBe3"@,
            SpectralClass::AeBe4 => "AeBe4"@,
            SpectralClass::AeBe5 => "AeBe5"@,
            SpectralClass::AeBe6 => "AeBe6"@,
            SpectralClass::AeBe7 => "AeBe7"@,
            SpectralClass::AeBe8 => "AeBe8"@,
            SpectralClass::AeBe9 => "AeBe9"@,
            SpectralClass::TTS0 => "TTS0"@,
            SpectralClass::TTS1 => "TTS1"@,
            SpectralClass::TTS2 => "TTS2"@,
            SpectralClass::TTS3 => "TTS3"@,
            SpectralClass::TTS4 => "TTS4"@,
            SpectralClass::TTS5 => "TTS5"@,
            SpectralClass::TTS6 => "TTS6"@,
            SpectralClass::TTS7 => "TTS7"@,
            SpectralClass::TTS8 => "TTS8"@,
            SpectralClass::TTS9 => "TTS9"@,
        }
    }

    /// The name of the variant as the dumps write it.
    pub fn name(self) -> (r: &'static str)
        ensures
            r@ == self.name_text(),
    {
        match self {
            SpectralClass::O => "O",
            SpectralClass::O0 => "O0",
            SpectralClass::O1 => "O1",
            SpectralClass::O2 => "O2",
            SpectralClass::O3 => "O3",
            SpectralClass::O4 => "O4",
            SpectralClass::O5 => "O5",
            SpectralClass::O6 => "O6",
            SpectralClass::O7 => "O7",
            SpectralClass::O8 => "O8",
            SpectralClass::O9 => "O9",
            SpectralClass::B => "B",
            SpectralClass::B0 => "B0",
            SpectralClass::B1 => "B1",
            SpectralClass::B2 => "B2",
            SpectralClass::B3 => "B3",
            SpectralClass::B4 => "B4",
            SpectralClass::B5 => "B5",
            SpectralClass::B6 => "B6",
            SpectralClass::B7 => "B7",
            SpectralClass::B8 => "B8",
            SpectralClass::B9 => "B9",
            SpectralClass::A => "A",
            SpectralClass::A0 => "A0",
            SpectralClass::A1 => "A1",
            SpectralClass::A2 => "A2",
            SpectralClass::A3 => "A3",
            SpectralClass::A4 => "A4",
            SpectralClass::A5 => "A5",
            SpectralClass::A6 => "A6",
            SpectralClass::A7 => "A7",
            SpectralClass::A8 => "A8",
            SpectralClass::A9 => "A9",
            SpectralClass::F => "F",
            SpectralClass::F0 => "F0",
            SpectralClass::F1 => "F1",
            SpectralClass::F2 => "F2",
            SpectralClass::F3 => "F3",
            SpectralClass::F4 => "F4",
            SpectralClass::F5 => "F5",
            SpectralClass::F6 => "F6",
            SpectralClass::F7 => "F7",
            SpectralClass::F8 => "F8",
            SpectralClass::F9 => "F9",
            SpectralClass::G => "G",
            SpectralClass::G0 => "G0",
            SpectralClass::G1 => "G1",
            SpectralClass::G2 => "G2",
            SpectralClass::G3 => "G3",
            SpectralClass::G4 => "G4",
            SpectralClass::G5 => "G5",
            SpectralClass::G6 => "G6",
            SpectralClass::G7 => "G7",
            SpectralClass::G8 => "G8",
            SpectralClass::G9 => "G9",
            SpectralClass::K => "K",
            SpectralClass::K0 => "K0",
            SpectralClass::K1 => "K1",
            SpectralClass::K2 => "K2",
            SpectralClass::K3 => "K3",
            SpectralClass::K4 => "K4",
            SpectralClass::K5 => "K5",
            SpectralClass::K6 => "K6",
            SpectralClass::K7 => "K7",
            SpectralClass::K8 => "K8",
            SpectralClass::K9 => "K9",
            SpectralClass::M => "M",
            SpectralClass::M0 => "M0",
            SpectralClass::M1 => "M1",
            SpectralClass::M2 => "M2",
            SpectralClass::M3 => "M3",
            SpectralClass::M4 => "M4",
            SpectralClass::M5 => "M5",
            SpectralClass::M6 => "M6",
            SpectralClass::M7 => "M7",
            SpectralClass::M8 => "M8",
            SpectralClass::M9 => "M9",
            SpectralClass::L => "L",
            SpectralClass::L0 => "L0",
            SpectralClass::L1 => "L1",
            SpectralClass::L2 => "L2",
            SpectralClass::L3 => "L3",
            SpectralClass::L4 => "L4",
            SpectralClass::L5 => "L5",
            SpectralClass::L6 => "L6",
            SpectralClass::L7 => "L7",
            SpectralClass::L8 => "L8",
            SpectralClass::L9 => "L9",
            SpectralClass::T => "T",
            SpectralClass::T0 => "T0",
            SpectralClass::T1 => "T1",
            SpectralClass::T2 => "T2",
            SpectralClass::T3 => "T3",
            SpectralClass::T4 => "T4",
            SpectralClass::T5 => "T5",
            SpectralClass::T6 => "T6",
            SpectralClass::T7 => "T7",
            SpectralClass::T8 => "T8",
            SpectralClass::T9 => "T9",
            SpectralClass::Y0 => "Y0",
            SpectralClass::Y1 => "Y1",
            SpectralClass::Y2 => "Y2",
            SpectralClass::Y3 => "Y3",
            SpectralClass::Y4 => "Y4",
            SpectralClass::Y5 => "Y5",
            SpectralClass::Y6 => "Y6",
            SpectralClass::Y7 => "Y7",
            SpectralClass::Y8 => "Y8",
            SpectralClass::AeBe0 => "AeBe0",
            SpectralClass::AeBe1 => "AeBe1",
            SpectralClass::AeBe2 => "AeBe2",
            SpectralClass::AeBe3 => "AeBe3",
            SpectralClass::AeBe4 => "AeBe4",
            SpectralClass::AeBe5 => "AeBe5",
            SpectralClass::AeBe6 => "AeBe6",
            SpectralClass::AeBe7 => "AeBe7",
            SpectralClass::AeBe8 => "AeBe8",
            SpectralClass::AeBe9 => "AeBe9",
            SpectralClass::TTS0 => "TTS0",
            SpectralClass::TTS1 => "TTS1",
            SpectralClass::TTS2 => "TTS2",
            SpectralClass::TTS3 => "TTS3",
            SpectralClass::TTS4 => "TTS4",
            SpectralClass::TTS5 => "TTS5",
            SpectralClass::TTS6 => "TTS6",
            SpectralClass::TTS7 => "TTS7",
            SpectralClass::TTS8 => "TTS8",
            SpectralClass::TTS9 => "TTS9",
        }
    }

    /// All variants, each once, each at the place that `index` gives it.
    pub fn iter() -> (r: Vec<SpectralClass>)
        ensures
            r@.len() == SpectralClass::VARIANTS,
            forall|v: SpectralClass| #[trigger] r@[v.index() as int] == v,
    {
        vec![
            SpectralClass::O, SpectralClass::O0, SpectralClass::O1, SpectralClass::O2,
            SpectralClass::O3, SpectralClass::O4, SpectralClass::O5, SpectralClass::O6,
            SpectralClass::O7, SpectralClass::O8, SpectralClass::O9, SpectralClass::B,
            SpectralClass::B0, SpectralClass::B1, SpectralClass::B2, SpectralClass::B3,
            SpectralClass::B4, SpectralClass::B5, SpectralClass::B6, SpectralClass::B7,
            SpectralClass::B8, SpectralClass::B9, SpectralClass::A, SpectralClass::A0,
            SpectralClass::A1, SpectralClass::A2, SpectralClass::A3, SpectralClass::A4,
            SpectralClass::A5, SpectralClass::A6, SpectralClass::A7, SpectralClass::A8,
            SpectralClass::A9, SpectralClass::F, SpectralClass::F0, SpectralClass::F1,
            SpectralClass::F2, SpectralClass::F3, SpectralClass::F4, SpectralClass::F5,
            SpectralClass::F6, SpectralClass::F7, SpectralClass::F8, SpectralClass::F9,
            SpectralClass::G, SpectralClass::G0, SpectralClass::G1, SpectralClass::G2,
            SpectralClass::G3, SpectralClass::G4, SpectralClass::G5, SpectralClass::G6,
            SpectralClass::G7, SpectralClass::G8, SpectralClass::G9, SpectralClass::K,
            SpectralClass::K0, SpectralClass::K1, SpectralClass::K2, SpectralClass::K3,
            SpectralClass::K4, SpectralClass::K5, SpectralClass::K6, SpectralClass::K7,
            SpectralClass::K8, SpectralClass::K9, SpectralClass::M, SpectralClass::M0,
            SpectralClass::M1, SpectralClass::M2, SpectralClass::M3, SpectralClass::M4,
            SpectralClass::M5, SpectralClass::M6, SpectralClass::M7, SpectralClass::M8,
            SpectralClass::M9, SpectralClass::L, SpectralClass::L0, SpectralClass::L1,
            SpectralClass::L2, SpectralClass::L3, SpectralClass::L4, SpectralClass::L5,
            SpectralClass::L6, SpectralClass::L7, SpectralClass::L8, SpectralClass::L9,
            SpectralClass::T, SpectralClass::T0, SpectralClass::T1, SpectralClass::T2,
            SpectralClass::T3, SpectralClass::T4, SpectralClass::T5, SpectralClass::T6,
            SpectralClass::T7, SpectralClass::T8, SpectralClass::T9, SpectralClass::Y0,
            SpectralClass::Y1, SpectralClass::Y2, SpectralClass::Y3, SpectralClass::Y4,
            SpectralClass::Y5, SpectralClass::Y6, SpectralClass::Y7, SpectralClass::Y8,
            SpectralClass::AeBe0, SpectralClass::AeBe1, SpectralClass::AeBe2,
            SpectralClass::AeBe3, SpectralClass::AeBe4, SpectralClass::AeBe5,
            SpectralClass::AeBe6, SpectralClass::AeBe7, SpectralClass::AeBe8,
            SpectralClass::AeBe9, SpectralClass::TTS0, SpectralClass::TTS1,
            SpectralClass::TTS2, SpectralClass::TTS3, SpectralClass::TTS4, SpectralClass::TTS5,
            SpectralClass::TTS6, SpectralClass::TTS7, SpectralClass::TTS8, SpectralClass::TTS9,
        ]
    }
}

/// The kind of a star.
#[derive(Debug, Clone, Copy, PartialEq, Eq, PartialOrd, Ord, Hash, Structural)]
pub enum StarSubType {
    OBlueWhiteStar,
    BBlueWhiteStar,
    ABlueWhiteStar,
    FWhiteStar,
    GWhiteYellowStar,
    KYellowOrangeStar,
    MRedDwarfStar,
    KYellowOrangeGiantStar,
    MRedGiantStar,
    BBlueWhiteSuperGiantStar,
    ABlueWhiteSuperGiantStar,
    FWhiteSuperGiantStar,
    GWhiteYellowSuperGiantStar,
    MRedSuperGiantStar,
    LBrownDwarfStar,
    TBrownDwarfStar,
    YBrownDwarfStar,
    HerbigAeBeStar,
    TTauriStar,
    CStar,
    CJStar,
    CNStar,
    MSTypeStar,
    STypeStar,
    WolfRayetStar,
    WolfRayetCStar,
    WolfRayetNStar,
    WolfRayetNCStar,
    WolfRayetOStar,
    WhiteDwarfDStar,
    WhiteDwarfDAStar,
    WhiteDwarfDABStar,
    WhiteDwarfDAVStar,
    WhiteDwarfDAZStar,
    WhiteDwarfDBStar,
    WhiteDwarfDBVStar,
    WhiteDwarfDBZStar,
    WhiteDwarfDCStar,
    WhiteDwarfDCVStar,
    WhiteDwarfDQStar,
    NeutronStar,
    BlackHole,
    SupermassiveBlackHole,
}

impl StarSubType {
    /// The number of variants.
    pub const VARIANTS: usize = 43;

    /// The place of the variant in the list of the variants, from zero.
    pub open spec fn index(self) -> nat {
        match self {
            StarSubType::OBlueWhiteStar => 0,
            StarSubType::BBlueWhiteStar => 1,
            StarSubType::ABlueWhiteStar => 2,
            StarSubType::FWhiteStar => 3,
            StarSubType::GWhiteYellowStar => 4,
            StarSubType::KYellowOrangeStar => 5,
            StarSubType::MRedDwarfStar => 6,
            StarSubType::KYellowOrangeGiantStar => 7,
            StarSubType::MRedGiantStar => 8,
            StarSubType::BBlueWhiteSuperGiantStar => 9,
            StarSubType::ABlueWhiteSuperGiantStar => 10,
            StarSubType::FWhiteSuperGiantStar => 11,
            StarSubType::GWhiteYellowSuperGiantStar => 12,
            StarSubType::MRedSuperGiantStar => 13,
            StarSubType::LBrownDwarfStar => 14,
            StarSubType::TBrownDwarfStar => 15,
            StarSubType::YBrownDwarfStar => 16,
            StarSubType::HerbigAeBeStar => 17,
            StarSubType::TTauriStar => 18,
            StarSubType::CStar => 19,
            StarSubType::CJStar => 20,
            StarSubType::CNStar => 21,
            StarSubType::MSTypeStar => 22,
            StarSubType::STypeStar => 23,
            StarSubType::WolfRayetStar => 24,
            StarSubType::WolfRayetCStar => 25,
            StarSubType::WolfRayetNStar => 26,
            StarSubType::WolfRayetNCStar => 27,
            StarSubType::WolfRayetOStar => 28,
            StarSubType::WhiteDwarfDStar => 29,
            StarSubType::WhiteDwarfDAStar => 30,
            StarSubType::WhiteDwarfDABStar => 31,
            StarSubType::WhiteDwarfDAVStar => 32,
            StarSubType::WhiteDwarfDAZStar => 33,
            StarSubType::WhiteDwarfDBStar => 34,
            StarSubType::WhiteDwarfDBVStar => 35,
            StarSubType::WhiteDwarfDBZStar => 36,
            StarSubType::WhiteDwarfDCStar => 37,
            StarSubType::WhiteDwarfDCVStar => 38,
            StarSubType::WhiteDwarfDQStar => 39,
            StarSubType::NeutronStar => 40,
            StarSubType::BlackHole => 41,
            StarSubType::SupermassiveBlackHole => 42,
        }
    }

    /// The name of the variant as the dumps write it.
    pub open spec fn name_text(self) -> Seq<char> {
        match self {
            StarSubType::OBlueWhiteStar => "O (Blue-White) Star"@,
            StarSubType::BBlueWhiteStar => "B (Blue-White) Star"@,
            StarSubType::ABlueWhiteStar => "A (Blue-White) Star"@,
            StarSubType::FWhiteStar => "F (White) Star"@,
            StarSubType::GWhiteYellowStar => "G (White-Yellow) Star"@,
            StarSubType::KYellowOrangeStar => "K (Yellow-Orange) Star"@,
            StarSubType::MRedDwarfStar => "M (Red dwarf) Star"@,
            StarSubType::KYellowOrangeGiantStar => "K (Yellow-Orange giant) Star"@,
            StarSubType::MRedGiantStar => "M (Red giant) Star"@,
            StarSubType::BBlueWhiteSuperGiantStar => "B (Blue-White super giant) Star"@,
            StarSubType::ABlueWhiteSuperGiantStar => "A (Blue-White super giant) Star"@,
            StarSubType::FWhiteSuperGiantStar => "F (White super giant) Star"@,
            StarSubType::GWhiteYellowSuperGiantStar => "G (White-Yellow super giant) Star"@,
            StarSubType::MRedSuperGiantStar => "M (Red super giant) Star"@,
            StarSubType::LBrownDwarfStar => "L (Brown dwarf) Star"@,
            StarSubType::TBrownDwarfStar => "T (Brown dwarf) Star"@,
            StarSubType::YBrownDwarfStar => "Y (Brown dwarf) Star"@,
            StarSubType::HerbigAeBeStar => "Herbig Ae/Be Star"@,
            StarSubType::TTauriStar => "T Tauri Star"@,
            StarSubType::CStar => "C Star"@,
            StarSubType::CJStar => "CJ Star"@,
            StarSubType::CNStar => "CN Star"@,
            StarSubType::MSTypeStar => "MS-type Star"@,
            StarSubType::STypeStar => "S-type Star"@,
            StarSubType::WolfRayetStar => "Wolf-Rayet Star"@,
            StarSubType::WolfRayetCStar => "Wolf-Rayet C Star"@,
            StarSubType::WolfRayetNStar => "Wolf-Rayet N Star"@,
            StarSubType::WolfRayetNCStar => "Wolf-Rayet NC Star"@,
            StarSubType::WolfRayetOStar => "Wolf-Rayet O Star"@,
            StarSubType::WhiteDwarfDStar => "White Dwarf (D) Star"@,
            StarSubType::WhiteDwarfDAStar => "White Dwarf (DA) Star"@,
            StarSubType::WhiteDwarfDABStar => "White Dwarf (DAB) Star"@,
            StarSubType::WhiteDwarfDAVStar => "White Dwarf (DAV) Star"@,
            StarSubType::WhiteDwarfDAZStar => "White Dwarf (DAZ) Star"@,
            StarSubType::WhiteDwarfDBStar => "White Dwarf (DB) Star"@,
            StarSubType::WhiteDwarfDBVStar => "White Dwarf (DBV) Star"@,
            StarSubType::WhiteDwarfDBZStar => "White Dwarf (DBZ) Star"@,
            StarSubType::WhiteDwarfDCStar => "White Dwarf (DC) Star"@,
            StarSubType::WhiteDwarfDCVStar => "White Dwarf (DCV) Star"@,
            StarSubType::WhiteDwarfDQStar => "White Dwarf (DQ) Star"@,
            StarSubType::NeutronStar => "Neutron Star"@,
            StarSubType::BlackHole => "Black Hole"@,
            StarSubType::SupermassiveBlackHole => "Supermassive Black Hole"@,
        }
    }

    /// The name of the variant as the dumps write it.
    pub fn name(self) -> (r: &'static str)
        ensures
            r@ == self.name_text(),
    {
        match self {
            StarSubType::OBlueWhiteStar => "O (Blue-White) Star",
            StarSubType::BBlueWhiteStar => "B (Blue-White) Star",
            StarSubType::ABlueWhiteStar => "A (Blue-White) Star",
            StarSubType::FWhiteStar => "F (White) Star",
            StarSubType::GWhiteYellowStar => "G (White-Yellow) Star",
            StarSubType::KYellowOrangeStar => "K (Yellow-Orange) Star",
            StarSubType::MRedDwarfStar => "M (Red dwarf) Star",
            StarSubType::KYellowOrangeGiantStar => "K (Yellow-Orange giant) Star",
            StarSubType::MRedGiantStar => "M (Red giant) Star",
            StarSubType::BBlueWhiteSuperGiantStar => "B (Blue-White super giant) Star",
            StarSubType::ABlueWhiteSuperGiantStar => "A (Blue-White super giant) Star",
            StarSubType::FWhiteSuperGiantStar => "F (White super giant) Star",
            StarSubType::GWhiteYellowSuperGiantStar => "G (White-Yellow super giant) Star",
            StarSubType::MRedSuperGiantStar => "M (Red super giant) Star",
            StarSubType::LBrownDwarfStar => "L (Brown dwarf) Star",
            StarSubType::TBrownDwarfStar => "T (Brown dwarf) Star",
            StarSubType::YBrownDwarfStar => "Y (Brown dwarf) Star",
            StarSubType::HerbigAeBeStar => "Herbig Ae/Be Star",
            StarSubType::TTauriStar => "T Tauri Star",
            StarSubType::CStar => "C Star",
            StarSubType::CJStar => "CJ Star",
            StarSubType::CNStar => "CN Star",
            StarSubType::MSTypeStar => "MS-type Star",
            StarSubType::STypeStar => "S-type Star",
            StarSubType::WolfRayetStar => "Wolf-Rayet Star",
            StarSubType::WolfRayetCStar => "Wolf-Rayet C Star",
            StarSubType::WolfRayetNStar => "Wolf-Rayet N Star",
            StarSubType::WolfRayetNCStar => "Wolf-Rayet NC Star",
            StarSubType::WolfRayetOStar => "Wolf-Rayet O Star",
            StarSubType::WhiteDwarfDStar => "White Dwarf (D) Star",
            StarSubType::WhiteDwarfDAStar => "White Dwarf (DA) Star",
            StarSubType::WhiteDwarfDABStar => "White Dwarf (DAB) Star",
            StarSubType::WhiteDwarfDAVStar => "White Dwarf (DAV) Star",
            StarSubType::WhiteDwarfDAZStar => "White Dwarf (DAZ) Star",
            StarSubType::WhiteDwarfDBStar => "White Dwarf (DB) Star",
            StarSubType::WhiteDwarfDBVStar => "White Dwarf (DBV) Star",
            StarSubType::WhiteDwarfDBZStar => "White Dwarf (DBZ) Star",
            StarSubType::WhiteDwarfDCStar => "White Dwarf (DC) Star",
            StarSubType::WhiteDwarfDCVStar => "White Dwarf (DCV) Star",
            StarSubType::WhiteDwarfDQStar => "White Dwarf (DQ) Star",
            StarSubType::NeutronStar => "Neutron Star",
            StarSubType::BlackHole => "Black Hole",
            StarSubType::SupermassiveBlackHole => "Supermassive Black Hole",
        }
    }

    /// All variants, each once, each at the place that `index` gives it.
    pub fn iter() -> (r: Vec<StarSubType>)
        ensures
            r@.len() == StarSubType::VARIANTS,
            forall|v: StarSubType| #[trigger] r@[v.index() as int] == v,
    {
        vec![
            StarSubType::OBlueWhiteStar, StarSubType::BBlueWhiteStar,
            StarSubType::ABlueWhiteStar, StarSubType::FWhiteStar,
            StarSubType::GWhiteYellowStar, StarSubType::KYellowOrangeStar,
            StarSubType::MRedDwarfStar, StarSubType::KYellowOrangeGiantStar,
            StarSubType::MRedGiantStar, StarSubType::BBlueWhiteSuperGiantStar,
            StarSubType::ABlueWhiteSuperGiantStar, StarSubType::FWhiteSuperGiantStar,
            StarSubType::GWhiteYellowSuperGiantStar, StarSubType::MRedSuperGiantStar,
            StarSubType::LBrownDwarfStar, StarSubType::TBrownDwarfStar,
            StarSubType::YBrownDwarfStar, StarSubType::HerbigAeBeStar, StarSubType::TTauriStar,
            StarSubType::CStar, StarSubType::CJStar, StarSubType::CNStar,
            StarSubType::MSTypeStar, StarSubType::STypeStar, StarSubType::WolfRayetStar,
            StarSubType::WolfRayetCStar, StarSubType::WolfRayetNStar,
            StarSubType::WolfRayetNCStar, StarSubType::WolfRayetOStar,
            StarSubType::WhiteDwarfDStar, StarSubType::WhiteDwarfDAStar,
            StarSubType::WhiteDwarfDABStar, StarSubType::WhiteDwarfDAVStar,
            StarSubType::WhiteDwarfDAZStar, StarSubType::WhiteDwarfDBStar,
            StarSubType::WhiteDwarfDBVStar, StarSubType::WhiteDwarfDBZStar,
            StarSubType::WhiteDwarfDCStar, StarSubType::WhiteDwarfDCVStar,
            StarSubType::WhiteDwarfDQStar, StarSubType::NeutronStar, StarSubType::BlackHole,
            StarSubType::SupermassiveBlackHole,
        ]
    }

    /// The letters that stand for the kind of star.
    pub open spec fn short_text(self) -> Seq<char> {
        match self {
            StarSubType::OBlueWhiteStar => "O"@,
            StarSubType::BBlueWhiteStar => "B"@,
            StarSubType::ABlueWhiteStar => "A"@,
            StarSubType::FWhiteStar => "F"@,
            StarSubType::GWhiteYellowStar => "G"@,
            StarSubType::KYellowOrangeStar => "K"@,
            StarSubType::MRedDwarfStar => "M"@,
            StarSubType::KYellowOrangeGiantStar => "Kg"@,
            StarSubType::MRedGiantStar => "Mg"@,
            StarSubType::BBlueWhiteSuperGiantStar => "Bsg"@,
            StarSubType::ABlueWhiteSuperGiantStar => "Asg"@,
            StarSubType::FWhiteSuperGiantStar => "Fsg"@,
            StarSubType::GWhiteYellowSuperGiantStar => "Gsg"@,
            StarSubType::MRedSuperGiantStar => "Msg"@,
            StarSubType::LBrownDwarfStar => "L"@,
            StarSubType::TBrownDwarfStar => "T"@,
            StarSubType::YBrownDwarfStar => "Y"@,
            StarSubType::HerbigAeBeStar => "HeBe"@,
            StarSubType::TTauriStar => "TTS"@,
            StarSubType::CStar => "C"@,
            StarSubType::CJStar => "CJ"@,
            StarSubType::CNStar => "CN"@,
            StarSubType::MSTypeStar => "MS"@,
            StarSubType::STypeStar => "S"@,
            StarSubType::WolfRayetStar => "W"@,
            StarSubType::WolfRayetCStar => "WC"@,
            StarSubType::WolfRayetNStar => "WN"@,
            StarSubType::WolfRayetNCStar => "WNC"@,
            StarSubType::WolfRayetOStar => "WO"@,
            StarSubType::WhiteDwarfDStar => "D"@,
            StarSubType::WhiteDwarfDAStar => "Da"@,
            StarSubType::WhiteDwarfDABStar => "Dab"@,
            StarSubType::WhiteDwarfDAVStar => "Dv"@,
            StarSubType::WhiteDwarfDAZStar => "Daz"@,
            StarSubType::WhiteDwarfDBStar => "Db"@,
            StarSubType::WhiteDwarfDBVStar => "Dbv"@,
            StarSubType::WhiteDwarfDBZStar => "Dbz"@,
            StarSubType::WhiteDwarfDCStar => "Dc"@,
            StarSubType::WhiteDwarfDCVStar => "Dcv"@,
            StarSubType::WhiteDwarfDQStar => "Dq"@,
            StarSubType::NeutronStar => "N"@,
            StarSubType::BlackHole => "BH"@,
            StarSubType::SupermassiveBlackHole => "sBH"@,
        }
    }

    /// The letters that stand for the kind of star.
    pub fn short(self) -> (r: &'static str)
        ensures
            r@ == self.short_text(),
    {
        match self {
            StarSubType::OBlueWhiteStar => "O",
            StarSubType::BBlueWhiteStar => "B",
            StarSubType::ABlueWhiteStar => "A",
            StarSubType::FWhiteStar => "F",
            StarSubType::GWhiteYellowStar => "G",
            StarSubType::KYellowOrangeStar => "K",
            StarSubType::MRedDwarfStar => "M",
            StarSubType::KYellowOrangeGiantStar => "Kg",
            StarSubType::MRedGiantStar => "Mg",
            StarSubType::BBlueWhiteSuperGiantStar => "Bsg",
            StarSubType::ABlueWhiteSuperGiantStar => "Asg",
            StarSubType::FWhiteSuperGiantStar => "Fsg",
            StarSubType::GWhiteYellowSuperGiantStar => "Gsg",
            StarSubType::MRedSuperGiantStar => "Msg",
            StarSubType::LBrownDwarfStar => "L",
            StarSubType::TBrownDwarfStar => "T",
            StarSubType::YBrownDwarfStar => "Y",
            StarSubType::HerbigAeBeStar => "HeBe",
            StarSubType::TTauriStar => "TTS",
            StarSubType::CStar => "C",
            StarSubType::CJStar => "CJ",
            StarSubType::CNStar => "CN",
            StarSubType::MSTypeStar => "MS",
            StarSubType::STypeStar => "S",
            StarSubType::WolfRayetStar => "W",
            StarSubType::WolfRayetCStar => "WC",
            StarSubType::WolfRayetNStar => "WN",
            StarSubType::WolfRayetNCStar => "WNC",
            StarSubType::WolfRayetOStar => "WO",
            StarSubType::WhiteDwarfDStar => "D",
            StarSubType::WhiteDwarfDAStar => "Da",
            StarSubType::WhiteDwarfDABStar => "Dab",
            StarSubType::WhiteDwarfDAVStar => "Dv",
            StarSubType::WhiteDwarfDAZStar => "Daz",
            StarSubType::WhiteDwarfDBStar => "Db",
            StarSubType::WhiteDwarfDBVStar => "Dbv",
            StarSubType::WhiteDwarfDBZStar => "Dbz",
            StarSubType::WhiteDwarfDCStar => "Dc",
            StarSubType::WhiteDwarfDCVStar => "Dcv",
            StarSubType::WhiteDwarfDQStar => "Dq",
            StarSubType::NeutronStar => "N",
            StarSubType::BlackHole => "BH",
            StarSubType::SupermassiveBlackHole => "sBH",
        }
    }

    /// The family that the kind of star belongs to.
    pub open spec fn star_class(self) -> StarClass {
        match self {
            StarSubType::OBlueWhiteStar => StarClass::OTypeStars,
            StarSubType::BBlueWhiteSuperGiantStar => StarClass::BTypeStars,
            StarSubType::BBlueWhiteStar => StarClass::BTypeStars,
            StarSubType::ABlueWhiteSuperGiantStar => StarClass::ATypeStars,
            StarSubType::ABlueWhiteStar => StarClass::ATypeStars,
            StarSubType::FWhiteSuperGiantStar => StarClass::FTypeStars,
            StarSubType::FWhiteStar => StarClass::FTypeStars,
            StarSubType::GWhiteYellowSuperGiantStar => StarClass::GTypeStars,
            StarSubType::GWhiteYellowStar => StarClass::GTypeStars,
            StarSubType::KYellowOrangeGiantStar => StarClass::KTypeStars,
            StarSubType::KYellowOrangeStar => StarClass::KTypeStars,
            StarSubType::MRedDwarfStar => StarClass::MTypeStars,
            StarSubType::MRedGiantStar => StarClass::MTypeStars,
            StarSubType::MRedSuperGiantStar => StarClass::MTypeStars,
            StarSubType::LBrownDwarfStar => StarClass::LTypeStars,
            StarSubType::TBrownDwarfStar => StarClass::TTypeStars,
            StarSubType::YBrownDwarfStar => StarClass::YTypeStars,
            StarSubType::HerbigAeBeStar => StarClass::ProtoStars,
            StarSubType::TTauriStar => StarClass::ProtoStars,
            StarSubType::CStar => StarClass::CarbonStars,
            StarSubType::CJStar => StarClass::CarbonStars,
            StarSubType::CNStar => StarClass::CarbonStars,
            StarSubType::MSTypeStar => StarClass::CarbonStars,
            StarSubType::STypeStar => StarClass::CarbonStars,
            StarSubType::WolfRayetStar => StarClass::WolfRayetStars,
            StarSubType::WolfRayetCStar => StarClass::WolfRayetStars,
            StarSubType::WolfRayetNStar => StarClass::WolfRayetStars,
            StarSubType::WolfRayetNCStar => StarClass::WolfRayetStars,
            StarSubType::WolfRayetOStar => StarClass::WolfRayetStars,
            StarSubType::WhiteDwarfDStar => StarClass::WhiteDwarfStars,
            StarSubType::WhiteDwarfDAStar => StarClass::WhiteDwarfStars,
            StarSubType::WhiteDwarfDABStar => StarClass::WhiteDwarfStars,
            StarSubType::WhiteDwarfDAVStar => StarClass::WhiteDwarfStars,
            StarSubType::WhiteDwarfDAZStar => StarClass::WhiteDwarfStars,
            StarSubType::WhiteDwarfDBStar => StarClass::WhiteDwarfStars,
            StarSubType::WhiteDwarfDBVStar => StarClass::WhiteDwarfStars,
            StarSubType::WhiteDwarfDBZStar => StarClass::WhiteDwarfStars,
            StarSubType::WhiteDwarfDCStar => StarClass::WhiteDwarfStars,
            StarSubType::WhiteDwarfDCVStar => StarClass::WhiteDwarfStars,
            StarSubType::WhiteDwarfDQStar => StarClass::WhiteDwarfStars,
            StarSubType::NeutronStar => StarClass::NonSequenceStars,
            StarSubType::BlackHole => StarClass::NonSequenceStars,
            StarSubType::SupermassiveBlackHole => StarClass::NonSequenceStars,
        }
    }

    /// The family that the kind of star belongs to.
    pub fn filter_star_class(self) -> (r: StarClass)
        ensures
            r == self.star_class(),
    {
        match self {
            StarSubType::OBlueWhiteStar => StarClass::OTypeStars,
            StarSubType::BBlueWhiteSuperGiantStar => StarClass::BTypeStars,
            StarSubType::BBlueWhiteStar => StarClass::BTypeStars,
            StarSubType::ABlueWhiteSuperGiantStar => StarClass::ATypeStars,
            StarSubType::ABlueWhiteStar => StarClass::ATypeStars,
            StarSubType::FWhiteSuperGiantStar => StarClass::FTypeStars,
            StarSubType::FWhiteStar => StarClass::FTypeStars,
            StarSubType::GWhiteYellowSuperGiantStar => StarClass::GTypeStars,
            StarSubType::GWhiteYellowStar => StarClass::GTypeStars,
            StarSubType::KYellowOrangeGiantStar => StarClass::KTypeStars,
            StarSubType::KYellowOrangeStar => StarClass::KTypeStars,
            StarSubType::MRedDwarfStar => StarClass::MTypeStars,
            StarSubType::MRedGiantStar => StarClass::MTypeStars,
            StarSubType::MRedSuperGiantStar => StarClass::MTypeStars,
            StarSubType::LBrownDwarfStar => StarClass::LTypeStars,
            StarSubType::TBrownDwarfStar => StarClass::TTypeStars,
            StarSubType::YBrownDwarfStar => StarClass::YTypeStars,
            StarSubType::HerbigAeBeStar => StarClass::ProtoStars,
            StarSubType::TTauriStar => StarClass::ProtoStars,
            StarSubType::CStar => StarClass::CarbonStars,
            StarSubType::CJStar => StarClass::CarbonStars,
            StarSubType::CNStar => StarClass::CarbonStars,
            StarSubType::MSTypeStar => StarClass::CarbonStars,
            StarSubType::STypeStar => StarClass::CarbonStars,
            StarSubType::WolfRayetStar => StarClass::WolfRayetStars,
            StarSubType::WolfRayetCStar => StarClass::WolfRayetStars,
            StarSubType::WolfRayetNStar => StarClass::WolfRayetStars,
            StarSubType::WolfRayetNCStar => StarClass::WolfRayetStars,
            StarSubType::WolfRayetOStar => StarClass::WolfRayetStars,
            StarSubType::WhiteDwarfDStar => StarClass::WhiteDwarfStars,
            StarSubType::WhiteDwarfDAStar => StarClass::WhiteDwarfStars,
            StarSubType::WhiteDwarfDABStar => StarClass::WhiteDwarfStars,
            StarSubType::WhiteDwarfDAVStar => StarClass::WhiteDwarfStars,
            StarSubType::WhiteDwarfDAZStar => StarClass::WhiteDwarfStars,
            StarSubType::WhiteDwarfDBStar => StarClass::WhiteDwarfStars,
            StarSubType::WhiteDwarfDBVStar => StarClass::WhiteDwarfStars,
            StarSubType::WhiteDwarfDBZStar => StarClass::WhiteDwarfStars,
            StarSubType::WhiteDwarfDCStar => StarClass::WhiteDwarfStars,
            StarSubType::WhiteDwarfDCVStar => StarClass::WhiteDwarfStars,
            StarSubType::WhiteDwarfDQStar => StarClass::WhiteDwarfStars,
            StarSubType::NeutronStar => StarClass::NonSequenceStars,
            StarSubType::BlackHole => StarClass::NonSequenceStars,
            StarSubType::SupermassiveBlackHole => StarClass::NonSequenceStars,
        }
    }
}

/// How far the terraforming of a planet has come.
#[derive(Debug, Clone, Copy, PartialEq, Eq, PartialOrd, Ord, Hash, Structural)]
pub enum TerraformingState {
    CandidateForTerraforming,
    NotTerraformable,
    Terraformed,
    Terraforming,
}

impl TerraformingState {
    /// The number of variants.
    pub const VARIANTS: usize = 4;

    /// The place of the variant in the list of the variants, from zero.
    pub open spec fn index(self) -> nat {
        match self {
            TerraformingState::CandidateForTerraforming => 0,
            TerraformingState::NotTerraformable => 1,
            TerraformingState::Terraformed => 2,
            TerraformingState::Terraforming => 3,
        }
    }

    /// The name of the variant as the dumps write it.
    pub open spec fn name_text(self) -> Seq<char> {
        match self {
            TerraformingState::CandidateForTerraforming => "Candidate for terraforming"@,
            TerraformingState::NotTerraformable => "Not terraformable"@,
            TerraformingState::Terraformed => "Terraformed"@,
            TerraformingState::Terraforming => "Terraforming"@,
        }
    }

    /// The name of the variant as the dumps write it.
    pub fn name(self) -> (r: &'static str)
        ensures
            r@ == self.name_text(),
    {
        match self {
            TerraformingState::CandidateForTerraforming => "Candidate for terraforming",
            TerraformingState::NotTerraformable => "Not terraformable",
            TerraformingState::Terraformed => "Terraformed",
            TerraformingState::Terraforming => "Terraforming",
        }
    }

    /// All variants, each once, each at the place that `index` gives it.
    pub fn iter() -> (r: Vec<TerraformingState>)
        ensures
            r@.len() == TerraformingState::VARIANTS,
            forall|v: TerraformingState| #[trigger] r@[v.index() as int] == v,
    {
        vec![
            TerraformingState::CandidateForTerraforming, TerraformingState::NotTerraformable,
            TerraformingState::Terraformed, TerraformingState::Terraforming,
        ]
    }
}

/// The kind of volcanism of a planet.
#[derive(Debug, Clone, Copy, PartialEq, Eq, PartialOrd, Ord, Hash, Structural)]
pub enum VolcanismType {
    AmmoniaMagma,
    CarbonDioxideGeysers,
    MajorCarbonDioxideGeysers,
    MajorMetallicMagma,
    MajorRockyMagma,
    MajorSilicateVapourGeysers,
    MajorWaterGeysers,
    MajorWaterMagma,
    MetallicMagma,
    MethaneMagma,
    MinorAmmoniaMagma,
    MinorCarbonDioxideGeysers,
    MinorMetallicMagma,
    MinorMethaneMagma,
    MinorNitrogenMagma,
    MinorRockyMagma,
    MinorSilicateVapourGeysers,
    MinorWaterGeysers,
    MinorWaterMagma,
    NitrogenMagma,
    NoVolcanism,
    RockyMagma,
    SilicateVapourGeysers,
    WaterGeysers,
    WaterMagma,
}

impl VolcanismType {
    /// The number of variants.
    pub const VARIANTS: usize = 25;

    /// The place of the variant in the list of the variants, from zero.
    pub open spec fn index(self) -> nat {
        match self {
            VolcanismType::AmmoniaMagma => 0,
            VolcanismType::CarbonDioxideGeysers => 1,
            VolcanismType::MajorCarbonDioxideGeysers => 2,
            VolcanismType::MajorMetallicMagma => 3,
            VolcanismType::MajorRockyMagma => 4,
            VolcanismType::MajorSilicateVapourGeysers => 5,
            VolcanismType::MajorWaterGeysers => 6,
            VolcanismType::MajorWaterMagma => 7,
            VolcanismType::MetallicMagma => 8,
            VolcanismType::MethaneMagma => 9,
            VolcanismType::MinorAmmoniaMagma => 10,
            VolcanismType::MinorCarbonDioxideGeysers => 11,
            VolcanismType::MinorMetallicMagma => 12,
            VolcanismType::MinorMethaneMagma => 13,
            VolcanismType::MinorNitrogenMagma => 14,
            VolcanismType::MinorRockyMagma => 15,
            VolcanismType::MinorSilicateVapourGeysers => 16,
            VolcanismType::MinorWaterGeysers => 17,
            VolcanismType::MinorWaterMagma => 18,
            VolcanismType::NitrogenMagma => 19,
            VolcanismType::NoVolcanism => 20,
            VolcanismType::RockyMagma => 21,
            VolcanismType::SilicateVapourGeysers => 22,
            VolcanismType::WaterGeysers => 23,
            VolcanismType::WaterMagma => 24,
        }
    }

    /// The name of the variant as the dumps write it.
    pub open spec fn name_text(self) -> Seq<char> {
        match self {
            VolcanismType::AmmoniaMagma => "Ammonia Magma"@,
            VolcanismType::CarbonDioxideGeysers => "Carbon Dioxide Geysers"@,
            VolcanismType::MajorCarbonDioxideGeysers => "Major Carbon Dioxide Geysers"@,
            VolcanismType::MajorMetallicMagma => "Major Metallic Magma"@,
            VolcanismType::MajorRockyMagma => "Major Rocky Magma"@,
            VolcanismType::MajorSilicateVapourGeysers => "Major Silicate Vapour Geysers"@,
            VolcanismType::MajorWaterGeysers => "Major Water Geysers"@,
            VolcanismType::MajorWaterMagma => "Major Water Magma"@,
            VolcanismType::MetallicMagma => "Metallic Magma"@,
            VolcanismType::MethaneMagma => "Methane Magma"@,
            VolcanismType::MinorAmmoniaMagma => "Minor Ammonia Magma"@,
            VolcanismType::MinorCarbonDioxideGeysers => "Minor Carbon Dioxide Geysers"@,
            VolcanismType::MinorMetallicMagma => "Minor Metallic Magma"@,
            VolcanismType::MinorMethaneMagma => "Minor Methane Magma"@,
            VolcanismType::MinorNitrogenMagma => "Minor Nitrogen Magma"@,
            VolcanismType::MinorRockyMagma => "Minor Rocky Magma"@,
            VolcanismType::MinorSilicateVapourGeysers => "Minor Silicate Vapour Geysers"@,
            VolcanismType::MinorWaterGeysers => "Minor Water Geysers"@,
            VolcanismType::MinorWaterMagma => "Minor Water Magma"@,
            VolcanismType::NitrogenMagma => "Nitrogen Magma"@,
            VolcanismType::NoVolcanism => "No volcanism"@,
            VolcanismType::RockyMagma => "Rocky Magma"@,
            VolcanismType::SilicateVapourGeysers => "Silicate Vapour Geysers"@,
            VolcanismType::WaterGeysers => "Water Geysers"@,
            VolcanismType::WaterMagma => "Water Magma"@,
        }
    }

    /// The name of the variant as the dumps write it.
    pub fn name(self) -> (r: &'static str)
        ensures
            r@ == self.name_text(),
    {
        match self {
            VolcanismType::AmmoniaMagma => "Ammonia Magma",
            VolcanismType::CarbonDioxideGeysers => "Carbon Dioxide Geysers",
            VolcanismType::MajorCarbonDioxideGeysers => "Major Carbon Dioxide Geysers",
            VolcanismType::MajorMetallicMagma => "Major Metallic Magma",
            VolcanismType::MajorRockyMagma => "Major Rocky Magma",
            VolcanismType::MajorSilicateVapourGeysers => "Major Silicate Vapour Geysers",
            VolcanismType::MajorWaterGeysers => "Major Water Geysers",
            VolcanismType::MajorWaterMagma => "Major Water Magma",
            VolcanismType::MetallicMagma => "Metallic Magma",
            VolcanismType::MethaneMagma => "Methane Magma",
            VolcanismType::MinorAmmoniaMagma => "Minor Ammonia Magma",
            VolcanismType::MinorCarbonDioxideGeysers => "Minor Carbon Dioxide Geysers",
            VolcanismType::MinorMetallicMagma => "Minor Metallic Magma",
            VolcanismType::MinorMethaneMagma => "Minor Methane Magma",
            VolcanismType::MinorNitrogenMagma => "Minor Nitrogen Magma",
            VolcanismType::MinorRockyMagma => "Minor Rocky Magma",
            VolcanismType::MinorSilicateVapourGeysers => "Minor Silicate Vapour Geysers",
            VolcanismType::MinorWaterGeysers => "Minor Water Geysers",
            VolcanismType::MinorWaterMagma => "Minor Water Magma",
            VolcanismType::NitrogenMagma => "Nitrogen Magma",
            VolcanismType::NoVolcanism => "No volcanism",
            VolcanismType::RockyMagma => "Rocky Magma",
            VolcanismType::SilicateVapourGeysers => "Silicate Vapour Geysers",
            VolcanismType::WaterGeysers => "Water Geysers",
            VolcanismType::WaterMagma => "Water Magma",
        }
    }

    /// All variants, each once, each at the place that `index` gives it.
    pub fn iter() -> (r: Vec<VolcanismType>)
        ensures
            r@.len() == VolcanismType::VARIANTS,
            forall|v: VolcanismType| #[trigger] r@[v.index() as int] == v,
    {
        vec![
            VolcanismType::AmmoniaMagma, VolcanismType::CarbonDioxideGeysers,
            VolcanismType::MajorCarbonDioxideGeysers, VolcanismType::MajorMetallicMagma,
            VolcanismType::MajorRockyMagma, VolcanismType::MajorSilicateVapourGeysers,
            VolcanismType::MajorWaterGeysers, VolcanismType::MajorWaterMagma,
            VolcanismType::MetallicMagma, VolcanismType::MethaneMagma,
            VolcanismType::MinorAmmoniaMagma, VolcanismType::MinorCarbonDioxideGeysers,
            VolcanismType::MinorMetallicMagma, VolcanismType::MinorMethaneMagma,
            VolcanismType::MinorNitrogenMagma, VolcanismType::MinorRockyMagma,
            VolcanismType::MinorSilicateVapourGeysers, VolcanismType::MinorWaterGeysers,
            VolcanismType::MinorWaterMagma, VolcanismType::NitrogenMagma,
            VolcanismType::NoVolcanism, VolcanismType::RockyMagma,
            VolcanismType::SilicateVapourGeysers, VolcanismType::WaterGeysers,
            VolcanismType::WaterMagma,
        ]
    }
}

/// A body that another one orbits, by its number in the system.
#[derive(Debug, Clone, Copy, PartialEq, Eq, PartialOrd, Ord, Hash, Structural)]
pub enum Parent {
    /// A point that is no body: the centre of mass of several.
    Null(u64),
    /// A planet.
    Planet(u64),
    /// A star.
    Star(u64),
}

} // verus!
