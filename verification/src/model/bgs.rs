//! The words of the background simulation: factions, their states and what they stand for.

use vstd::prelude::*;

verus! {

/// The superpower that a system, a station or a faction sides with.
#[derive(Debug, Clone, Copy, PartialEq, Eq, PartialOrd, Ord, Hash, Structural)]
pub enum Allegiance {
    Alliance,
    Empire,
    Federation,
    Independent,
    PilotsFederation,
    Thargoid,
}

impl Allegiance {
    /// The number of variants.
    pub const VARIANTS: usize = 6;

    /// The place of the variant in the list of the variants, from zero.
    pub open spec fn index(self) -> nat {
        match self {
            Allegiance::Alliance => 0,
            Allegiance::Empire => 1,
            Allegiance::Federation => 2,
            Allegiance::Independent => 3,
            Allegiance::PilotsFederation => 4,
            Allegiance::Thargoid => 5,
        }
    }

    /// The name of the variant as the dumps write it.
    pub open spec fn name_text(self) -> Seq<char> {
        match self {
            Allegiance::Alliance => "Alliance"@,
            Allegiance::Empire => "Empire"@,
            Allegiance::Federation => "Federation"@,
            Allegiance::Independent => "Independent"@,
            Allegiance::PilotsFederation => "Pilots Federation"@,
            Allegiance::Thargoid => "Thargoid"@,
        }
    }

    /// The name of the variant as the dumps write it.
    pub fn name(self) -> (r: &'static str)
        ensures
            r@ == self.name_text(),
    {
        match self {
            Allegiance::Alliance => "Alliance",
            Allegiance::Empire => "Empire",
            Allegiance::Federation => "Federation",
            Allegiance::Independent => "Independent",
            Allegiance::PilotsFederation => "Pilots Federation",
            Allegiance::Thargoid => "Thargoid",
        }
    }

    /// All variants, each once, each at the place that `index` gives it.
    pub fn iter() -> (r: Vec<Allegiance>)
        ensures
            r@.len() == Allegiance::VARIANTS,
            forall|v: Allegiance| #[trigger] r@[v.index() as int] == v,
    {
        vec![
            Allegiance::Alliance, Allegiance::Empire, Allegiance::Federation,
            Allegiance::Independent, Allegiance::PilotsFederation, Allegiance::Thargoid,
        ]
    }
}

/// The kind of economy of a station or a system.
#[derive(Debug, Clone, Copy, PartialEq, Eq, PartialOrd, Ord, Hash, Structural)]
pub enum Economy {
    Nothing,
    Agriculture,
    Colony,
    Damaged,
    Extraction,
    FleetCarrier,
    HighTech,
    Industrial,
    Military,
    Prison,
    Refinery,
    Repair,
    Rescue,
    Service,
    Terraforming,
    Tourism,
    Engineer,
}

impl Economy {
    /// The number of variants.
    pub const VARIANTS: usize = 17;

    /// The place of the variant in the list of the variants, from zero.
    pub open spec fn index(self) -> nat {
        match self {
            Economy::Nothing => 0,
            Economy::Agriculture => 1,
            Economy::Colony => 2,
            Economy::Damaged => 3,
            Economy::Extraction => 4,
            Economy::FleetCarrier => 5,
            Economy::HighTech => 6,
            Economy::Industrial => 7,
            Economy::Military => 8,
            Economy::Prison => 9,
            Economy::Refinery => 10,
            Economy::Repair => 11,
            Economy::Rescue => 12,
            Economy::Service => 13,
            Economy::Terraforming => 14,
            Economy::Tourism => 15,
            Economy::Engineer => 16,
        }
    }

    /// The name of the variant as the dumps write it.
    pub open spec fn name_text(self) -> Seq<char> {
        match self {
            Economy::Nothing => "None"@,
            Economy::Agriculture => "Agriculture"@,
            Economy::Colony => "Colony"@,
            Economy::Damaged => "Damaged"@,
            Economy::Extraction => "Extraction"@,
            Economy::FleetCarrier => "Fleet Carrier"@,
            Economy::HighTech => "High Tech"@,
            Economy::Industrial => "Industrial"@,
            Economy::Military => "Military"@,
            Economy::Prison => "Prison"@,
            Economy::Refinery => "Refinery"@,
            Economy::Repair => "Repair"@,
            Economy::Rescue => "Rescue"@,
            Economy::Service => "Service"@,
            Economy::Terraforming => "Terraforming"@,
            Economy::Tourism => "Tourism"@,
            Economy::Engineer => "Engineer"@,
        }
    }

    /// The name of the variant as the dumps write it.
    pub fn name(self) -> (r: &'static str)
        ensures
            r@ == self.name_text(),
    {
        match self {
            Economy::Nothing => "None",
            Economy::Agriculture => "Agriculture",
            Economy::Colony => "Colony",
            Economy::Damaged => "Damaged",
            Economy::Extraction => "Extraction",
            Economy::FleetCarrier => "Fleet Carrier",
            Economy::HighTech => "High Tech",
            Economy::Industrial => "Industrial",
            Economy::Military => "Military",
            Economy::Prison => "Prison",
            Economy::Refinery => "Refinery",
            Economy::Repair => "Repair",
            Economy::Rescue => "Rescue",
            Economy::Service => "Service",
            Economy::Terraforming => "Terraforming",
            Economy::Tourism => "Tourism",
            Economy::Engineer => "Engineer",
        }
    }

    /// All variants, each once, each at the place that `index` gives it.
    pub fn iter() -> (r: Vec<Economy>)
        ensures
            r@.len() == Economy::VARIANTS,
            forall|v: Economy| #[trigger] r@[v.index() as int] == v,
    {
        vec![
            Economy::Nothing, Economy::Agriculture, Economy::Colony, Economy::Damaged,
            Economy::Extraction, Economy::FleetCarrier, Economy::HighTech, Economy::Industrial,
            Economy::Military, Economy::Prison, Economy::Refinery, Economy::Repair,
            Economy::Rescue, Economy::Service, Economy::Terraforming, Economy::Tourism,
            Economy::Engineer,
        ]
    }
}

/// The form of government of a faction.
#[derive(Debug, Clone, Copy, PartialEq, Eq, PartialOrd, Ord, Hash, Structural)]
pub enum Government {
    Nothing,
    Anarchy,
    Communism,
    Confederacy,
    Cooperative,
    Corporate,
    Democracy,
    Dictatorship,
    Feudal,
    Patronage,
    Prison,
    PrisonColony,
    Theocracy,
    WorkshopEngineer,
    FleetCarrier,
}

impl Government {
    /// The number of variants.
    pub const VARIANTS: usize = 15;

    /// The place of the variant in the list of the variants, from zero.
    pub open spec fn index(self) -> nat {
        match self {
            Government::Nothing => 0,
            Government::Anarchy => 1,
            Government::Communism => 2,
            Government::Confederacy => 3,
            Government::Cooperative => 4,
            Government::Corporate => 5,
            Government::Democracy => 6,
            Government::Dictatorship => 7,
            Government::Feudal => 8,
            Government::Patronage => 9,
            Government::Prison => 10,
            Government::PrisonColony => 11,
            Government::Theocracy => 12,
            Government::WorkshopEngineer => 13,
            Government::FleetCarrier => 14,
        }
    }

    /// The name of the variant as the dumps write it.
    pub open spec fn name_text(self) -> Seq<char> {
        match self {
            Government::Nothing => "None"@,
            Government::Anarchy => "Anarchy"@,
            Government::Communism => "Communism"@,
            Government::Confederacy => "Confederacy"@,
            Government::Cooperative => "Cooperative"@,
            Government::Corporate => "Corporate"@,
            Government::Democracy => "Democracy"@,
            Government::Dictatorship => "Dictatorship"@,
            Government::Feudal => "Feudal"@,
            Government::Patronage => "Patronage"@,
            Government::Prison => "Prison"@,
            Government::PrisonColony => "Prison colony"@,
            Government::Theocracy => "Theocracy"@,
            Government::WorkshopEngineer => "Workshop (Engineer)"@,
            Government::FleetCarrier => "Fleet Carrier"@,
        }
    }

    /// The name of the variant as the dumps write it.
    pub fn name(self) -> (r: &'static str)
        ensures
            r@ == self.name_text(),
    {
        match self {
            Government::Nothing => "None",
            Government::Anarchy => "Anarchy",
            Government::Communism => "Communism",
            Government::Confederacy => "Confederacy",
            Government::Cooperative => "Cooperative",
            Government::Corporate => "Corporate",
            Government::Democracy => "Democracy",
            Government::Dictatorship => "Dictatorship",
            Government::Feudal => "Feudal",
            Government::Patronage => "Patronage",
            Government::Prison => "Prison",
            Government::PrisonColony => "Prison colony",
            Government::Theocracy => "Theocracy",
            Government::WorkshopEngineer => "Workshop (Engineer)",
            Government::FleetCarrier => "Fleet Carrier",
        }
    }

    /// All variants, each once, each at the place that `index` gives it.
    pub fn iter() -> (r: Vec<Government>)
        ensures
            r@.len() == Government::VARIANTS,
            forall|v: Government| #[trigger] r@[v.index() as int] == v,
    {
        vec![
            Government::Nothing, Government::Anarchy, Government::Communism,
            Government::Confederacy, Government::Cooperative, Government::Corporate,
            Government::Democracy, Government::Dictatorship, Government::Feudal,
            Government::Patronage, Government::Prison, Government::PrisonColony,
            Government::Theocracy, Government::WorkshopEngineer, Government::FleetCarrier,
        ]
    }
}

/// How content the people of a faction are.
#[derive(Debug, Clone, Copy, PartialEq, Eq, PartialOrd, Ord, Hash, Structural)]
pub enum Happiness {
    Despondent,
    Unhappy,
    Discontented,
    Nothing,
    Happy,
    Elated,
}

impl Happiness {
    /// The number of variants.
    pub const VARIANTS: usize = 6;

    /// The place of the variant in the list of the variants, from zero.
    pub open spec fn index(self) -> nat {
        match self {
            Happiness::Despondent => 0,
            Happiness::Unhappy => 1,
            Happiness::Discontented => 2,
            Happiness::Nothing => 3,
            Happiness::Happy => 4,
            Happiness::Elated => 5,
        }
    }

    /// The name of the variant as the dumps write it.
    pub open spec fn name_text(self) -> Seq<char> {
        match self {
            Happiness::Despondent => "Despondent"@,
            Happiness::Unhappy => "Unhappy"@,
            Happiness::Discontented => "Discontented"@,
            Happiness::Nothing => "None"@,
            Happiness::Happy => "Happy"@,
            Happiness::Elated => "Elated"@,
        }
    }

    /// The name of the variant as the dumps write it.
    pub fn name(self) -> (r: &'static str)
        ensures
            r@ == self.name_text(),
    {
        match self {
            Happiness::Despondent => "Despondent",
            Happiness::Unhappy => "Unhappy",
            Happiness::Discontented => "Discontented",
            Happiness::Nothing => "None",
            Happiness::Happy => "Happy",
            Happiness::Elated => "Elated",
        }
    }

    /// All variants, each once, each at the place that `index` gives it.
    pub fn iter() -> (r: Vec<Happiness>)
        ensures
            r@.len() == Happiness::VARIANTS,
            forall|v: Happiness| #[trigger] r@[v.index() as int] == v,
    {
        vec![
            Happiness::Despondent, Happiness::Unhappy, Happiness::Discontented,
            Happiness::Nothing, Happiness::Happy, Happiness::Elated,
        ]
    }
}

/// The level of security of a system.
#[derive(Debug, Clone, Copy, PartialEq, Eq, PartialOrd, Ord, Hash, Structural)]
pub enum Security {
    Anarchy,
    Low,
    Medium,
    High,
}

impl Security {
    /// The number of variants.
    pub const VARIANTS: usize = 4;

    /// The place of the variant in the list of the variants, from zero.
    pub open spec fn index(self) -> nat {
        match self {
            Security::Anarchy => 0,
            Security::Low => 1,
            Security::Medium => 2,
            Security::High => 3,
        }
    }

    /// The name of the variant as the dumps write it.
    pub open spec fn name_text(self) -> Seq<char> {
        match self {
            Security::Anarchy => "Anarchy"@,
            Security::Low => "Low"@,
            Security::Medium => "Medium"@,
            Security::High => "High"@,
        }
    }

    /// The name of the variant as the dumps write it.
    pub fn name(self) -> (r: &'static str)
        ensures
            r@ == self.name_text(),
    {
        match self {
            Security::Anarchy => "Anarchy",
            Security::Low => "Low",
            Security::Medium => "Medium",
            Security::High => "High",
        }
    }

    /// All variants, each once, each at the place that `index` gives it.
    pub fn iter() -> (r: Vec<Security>)
        ensures
            r@.len() == Security::VARIANTS,
            forall|v: Security| #[trigger] r@[v.index() as int] == v,
    {
        vec![
            Security::Anarchy, Security::Low, Security::Medium, Security::High,
        ]
    }
}

/// A state that a faction is in, was in or is about to be in.
#[derive(Debug, Clone, Copy, PartialEq, Eq, PartialOrd, Ord, Hash, Structural)]
pub enum State {
    Blight,
    Boom,
    Bust,
    CivilLiberty,
    CivilUnrest,
    CivilWar,
    Drought,
    Election,
    Expansion,
    Famine,
    InfrastructureFailure,
    Investment,
    Lockdown,
    NaturalDisaster,
    Nothing,
    Outbreak,
    PirateAttack,
    PublicHoliday,
    Retreat,
    TerroristAttack,
    War,
}

impl State {
    /// The number of variants.
    pub const VARIANTS: usize = 21;

    /// The place of the variant in the list of the variants, from zero.
    pub open spec fn index(self) -> nat {
        match self {
            State::Blight => 0,
            State::Boom => 1,
            State::Bust => 2,
            State::CivilLiberty => 3,
            State::CivilUnrest => 4,
            State::CivilWar => 5,
            State::Drought => 6,
            State::Election => 7,
            State::Expansion => 8,
            State::Famine => 9,
            State::InfrastructureFailure => 10,
            State::Investment => 11,
            State::Lockdown => 12,
            State::NaturalDisaster => 13,
            State::Nothing => 14,
            State::Outbreak => 15,
            State::PirateAttack => 16,
            State::PublicHoliday => 17,
            State::Retreat => 18,
            State::TerroristAttack => 19,
            State::War => 20,
        }
    }

    /// The name of the variant as the dumps write it.
    pub open spec fn name_text(self) -> Seq<char> {
        match self {
            State::Blight => "Blight"@,
            State::Boom => "Boom"@,
            State::Bust => "Bust"@,
            State::CivilLiberty => "Civil liberty"@,
            State::CivilUnrest => "Civil unrest"@,
            State::CivilWar => "Civil war"@,
            State::Drought => "Drought"@,
            State::Election => "Election"@,
            State::Expansion => "Expansion"@,
            State::Famine => "Famine"@,
            State::InfrastructureFailure => "Infrastructure Failure"@,
            State::Investment => "Investment"@,
            State::Lockdown => "Lockdown"@,
            State::NaturalDisaster => "Natural Disaster"@,
            State::Nothing => "None"@,
            State::Outbreak => "Outbreak"@,
            State::PirateAttack => "Pirate attack"@,
            State::PublicHoliday => "Public Holiday"@,
            State::Retreat => "Retreat"@,
            State::TerroristAttack => "Terrorist Attack"@,
            State::War => "War"@,
        }
    }

    /// The name of the variant as the dumps write it.
    pub fn name(self) -> (r: &'static str)
        ensures
            r@ == self.name_text(),
    {
        match self {
            State::Blight => "Blight",
            State::Boom => "Boom",
            State::Bust => "Bust",
            State::CivilLiberty => "Civil liberty",
            State::CivilUnrest => "Civil unrest",
            State::CivilWar => "Civil war",
            State::Drought => "Drought",
            State::Election => "Election",
            State::Expansion => "Expansion",
            State::Famine => "Famine",
            State::InfrastructureFailure => "Infrastructure Failure",
            State::Investment => "Investment",
            State::Lockdown => "Lockdown",
            State::NaturalDisaster => "Natural Disaster",
            State::Nothing => "None",
            State::Outbreak => "Outbreak",
            State::PirateAttack => "Pirate attack",
            State::PublicHoliday => "Public Holiday",
            State::Retreat => "Retreat",
            State::TerroristAttack => "Terrorist Attack",
            State::War => "War",
        }
    }

    /// All variants, each once, each at the place that `index` gives it.
    pub fn iter() -> (r: Vec<State>)
        ensures
            r@.len() == State::VARIANTS,
            forall|v: State| #[trigger] r@[v.index() as int] == v,
    {
        vec![
            State::Blight, State::Boom, State::Bust, State::CivilLiberty, State::CivilUnrest,
            State::CivilWar, State::Drought, State::Election, State::Expansion, State::Famine,
            State::InfrastructureFailure, State::Investment, State::Lockdown,
            State::NaturalDisaster, State::Nothing, State::Outbreak, State::PirateAttack,
            State::PublicHoliday, State::Retreat, State::TerroristAttack, State::War,
        ]
    }
}

/// A state that a faction is in.
#[derive(Debug, Clone, Copy, PartialEq, Eq, Hash)]
pub struct ActiveState {
    /// The state.
    pub state: State,
}

/// A state that a faction is about to be in.
#[derive(Debug, Clone, Copy, PartialEq, Eq, Hash)]
pub struct PendingState {
    /// The state.
    pub state: State,
    /// How fast it comes.
    pub trend: u8,
}

/// A state that a faction leaves behind.
#[derive(Debug, Clone, Copy, PartialEq, Eq, Hash)]
pub struct RecoveringState {
    /// The state.
    pub state: State,
    /// How fast it goes.
    pub trend: u8,
}

/// The faction that controls a system or a station.
#[derive(Debug, PartialEq, Eq, Hash)]
pub struct ControllingFaction {
    /// The number of the faction.
    pub id: Option<u64>,
    /// The superpower that it sides with.
    pub allegiance: Option<Allegiance>,
    /// Its form of government.
    pub government: Option<Government>,
    /// Whether players run it.
    pub is_player: Option<bool>,
    /// Its name.
    pub name: Option<String>,
}

} // verus!
