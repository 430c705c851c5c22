//! The words of powerplay.

use vstd::prelude::*;

verus! {

/// A power of the galaxy.
#[derive(Debug, Clone, Copy, PartialEq, Eq, PartialOrd, Ord, Hash, Structural)]
pub enum Power {
    ALavignyDuval,
    AislingDuval,
    ArchonDelaine,
    DentonPatreus,
    EdmundMahon,
    FeliciaWinters,
    LiYongRui,
    PranavAntal,
    YuriGrom,
    ZacharyHudson,
    ZeminaTorval,
}

impl Power {
    /// The number of variants.
    pub const VARIANTS: usize = 11;

    /// The place of the variant in the list of the variants, from zero.
    pub open spec fn index(self) -> nat {
        match self {
            Power::ALavignyDuval => 0,
            Power::AislingDuval => 1,
            Power::ArchonDelaine => 2,
            Power::DentonPatreus => 3,
            Power::EdmundMahon => 4,
            Power::FeliciaWinters => 5,
            Power::LiYongRui => 6,
            Power::PranavAntal => 7,
            Power::YuriGrom => 8,
            Power::ZacharyHudson => 9,
            Power::ZeminaTorval => 10,
        }
    }

    /// The name of the variant as the dumps write it.
    pub open spec fn name_text(self) -> Seq<char> {
        match self {
            Power::ALavignyDuval => "A. Lavigny-Duval"@,
            Power::AislingDuval => "Aisling Duval"@,
            Power::ArchonDelaine => "Archon Delaine"@,
            Power::DentonPatreus => "Denton Patreus"@,
            Power::EdmundMahon => "Edmund Mahon"@,
            Power::FeliciaWinters => "Felicia Winters"@,
            Power::LiYongRui => "Li Yong-Rui"@,
            Power::PranavAntal => "Pranav Antal"@,
            Power::YuriGrom => "Yuri Grom"@,
            Power::ZacharyHudson => "Zachary Hudson"@,
            Power::ZeminaTorval => "Zemina Torval"@,
        }
    }

    /// The name of the variant as the dumps write it.
    pub fn name(self) -> (r: &'static str)
        ensures
            r@ == self.name_text(),
    {
        match self {
            Power::ALavignyDuval => "A. Lavigny-Duval",
            Power::AislingDuval => "Aisling Duval",
            Power::ArchonDelaine => "Archon Delaine",
            Power::DentonPatreus => "Denton Patreus",
            Power::EdmundMahon => "Edmund Mahon",
            Power::FeliciaWinters => "Felicia Winters",
            Power::LiYongRui => "Li Yong-Rui",
            Power::PranavAntal => "Pranav Antal",
            Power::YuriGrom => "Yuri Grom",
            Power::ZacharyHudson => "Zachary Hudson",
            Power::ZeminaTorval => "Zemina Torval",
        }
    }

    /// All variants, each once, each at the place that `index` gives it.
    pub fn iter() -> (r: Vec<Power>)
        ensures
            r@.len() == Power::VARIANTS,
            forall|v: Power| #[trigger] r@[v.index() as int] == v,
    {
        vec![
            Power::ALavignyDuval, Power::AislingDuval, Power::ArchonDelaine,
            Power::DentonPatreus, Power::EdmundMahon, Power::FeliciaWinters, Power::LiYongRui,
            Power::PranavAntal, Power::YuriGrom, Power::ZacharyHudson, Power::ZeminaTorval,
        ]
    }
}

/// What a power is to a system.
#[derive(Debug, Clone, Copy, PartialEq, Eq, PartialOrd, Ord, Hash, Structural)]
pub enum PowerState {
    Contested,
    Controlled,
    Exploited,
    HomeSystem,
    InPrepareRadius,
    Prepared,
    Turmoil,
}

impl PowerState {
    /// The number of variants.
    pub const VARIANTS: usize = 7;

    /// The place of the variant in the list of the variants, from zero.
    pub open spec fn index(self) -> nat {
        match self {
            PowerState::Contested => 0,
            PowerState::Controlled => 1,
            PowerState::Exploited => 2,
            PowerState::HomeSystem => 3,
            PowerState::InPrepareRadius => 4,
            PowerState::Prepared => 5,
            PowerState::Turmoil => 6,
        }
    }

    /// The name of the variant as the dumps write it.
    pub open spec fn name_text(self) -> Seq<char> {
        match self {
            PowerState::Contested => "Contested"@,
            PowerState::Controlled => "Controlled"@,
            PowerState::Exploited => "Exploited"@,
            PowerState::HomeSystem => "HomeSystem"@,
            PowerState::InPrepareRadius => "InPrepareRadius"@,
            PowerState::Prepared => "Prepared"@,
            PowerState::Turmoil => "Turmoil"@,
        }
    }

    /// The name of the variant as the dumps write it.
    pub fn name(self) -> (r: &'static str)
        ensures
            r@ == self.name_text(),
    {
        match self {
            PowerState::Contested => "Contested",
            PowerState::Controlled => "Controlled",
            PowerState::Exploited => "Exploited",
            PowerState::HomeSystem => "HomeSystem",
            PowerState::InPrepareRadius => "InPrepareRadius",
            PowerState::Prepared => "Prepared",
            PowerState::Turmoil => "Turmoil",
        }
    }

    /// All variants, each once, each at the place that `index` gives it.
    pub fn iter() -> (r: Vec<PowerState>)
        ensures
            r@.len() == PowerState::VARIANTS,
            forall|v: PowerState| #[trigger] r@[v.index() as int] == v,
    {
        vec![
            PowerState::Contested, PowerState::Controlled, PowerState::Exploited,
            PowerState::HomeSystem, PowerState::InPrepareRadius, PowerState::Prepared,
            PowerState::Turmoil,
        ]
    }
}

} // verus!
