//! The words for stations and what they trade.

use vstd::prelude::*;

verus! {

/// A service that a station offers besides market, outfitting and shipyard.
#[derive(Debug, Clone, Copy, PartialEq, Eq, PartialOrd, Ord, Hash, Structural)]
pub enum OtherService {
    BlackMarket,
    Contacts,
    CrewLounge,
    InterstellarFactorsContact,
    MaterialTrader,
    Missions,
    Refuel,
    Repair,
    Restock,
    SearchAndRescue,
    TechnologyBroker,
    Tuning,
    UniversalCartographics,
    ApexInterstellarTransport,
    FrontlineSolutions,
    PioneerSupplies,
    VistaGenomics,
}

impl OtherService {
    /// The number of variants.
    pub const VARIANTS: usize = 17;

    /// The place of the variant in the list of the variants, from zero.
    pub open spec fn index(self) -> nat {
        match self {
            OtherService::BlackMarket => 0,
            OtherService::Contacts => 1,
            OtherService::CrewLounge => 2,
            OtherService::InterstellarFactorsContact => 3,
            OtherService::MaterialTrader => 4,
            OtherService::Missions => 5,
            OtherService::Refuel => 6,
            OtherService::Repair => 7,
            OtherService::Restock => 8,
            OtherService::SearchAndRescue => 9,
            OtherService::TechnologyBroker => 10,
            OtherService::Tuning => 11,
            OtherService::UniversalCartographics => 12,
            OtherService::ApexInterstellarTransport => 13,
            OtherService::FrontlineSolutions => 14,
            OtherService::PioneerSupplies => 15,
            OtherService::VistaGenomics => 16,
        }
    }

    /// The name of the variant as the dumps write it.
    pub open spec fn name_text(self) -> Seq<char> {
        match self {
            OtherService::BlackMarket => "Black Market"@,
            OtherService::Contacts => "Contacts"@,
            OtherService::CrewLounge => "Crew Lounge"@,
            OtherService::InterstellarFactorsContact => "Interstellar Factors Contact"@,
            OtherService::MaterialTrader => "Material Trader"@,
            OtherService::Missions => "Missions"@,
            OtherService::Refuel => "Refuel"@,
            OtherService::Repair => "Repair"@,
            OtherService::Restock => "Restock"@,
            OtherService::SearchAndRescue => "Search and Rescue"@,
            OtherService::TechnologyBroker => "Technology Broker"@,
            OtherService::Tuning => "Tuning"@,
            OtherService::UniversalCartographics => "Universal Cartographics"@,
            OtherService::ApexInterstellarTransport => "Apex Interstellar Transport"@,
            OtherService::FrontlineSolutions => "Frontline Solutions"@,
            OtherService::PioneerSupplies => "Pioneer Supplies"@,
            OtherService::VistaGenomics => "Vista Genomics"@,
        }
    }

    /// The name of the variant as the dumps write it.
    pub fn name(self) -> (r: &'static str)
        ensures
            r@ == self.name_text(),
    {
        match self {
            OtherService::BlackMarket => "Black Market",
            OtherService::Contacts => "Contacts",
            OtherService::CrewLounge => "Crew Lounge",
            OtherService::InterstellarFactorsContact => "Interstellar Factors Contact",
            OtherService::MaterialTrader => "Material Trader",
            OtherService::Missions => "Missions",
            OtherService::Refuel => "Refuel",
            OtherService::Repair => "Repair",
            OtherService::Restock => "Restock",
            OtherService::SearchAndRescue => "Search and Rescue",
            OtherService::TechnologyBroker => "Technology Broker",
            OtherService::Tuning => "Tuning",
            OtherService::UniversalCartographics => "Universal Cartographics",
            OtherService::ApexInterstellarTransport => "Apex Interstellar Transport",
            OtherService::FrontlineSolutions => "Frontline Solutions",
            OtherService::PioneerSupplies => "Pioneer Supplies",
            OtherService::VistaGenomics => "Vista Genomics",
        }
    }

    /// All variants, each once, each at the place that `index` gives it.
    pub fn iter() -> (r: Vec<OtherService>)
        ensures
            r@.len() == OtherService::VARIANTS,
            forall|v: OtherService| #[trigger] r@[v.index() as int] == v,
    {
        vec![
            OtherService::BlackMarket, OtherService::Contacts, OtherService::CrewLounge,
            OtherService::InterstellarFactorsContact, OtherService::MaterialTrader,
            OtherService::Missions, OtherService::Refuel, OtherService::Repair,
            OtherService::Restock, OtherService::SearchAndRescue,
            OtherService::TechnologyBroker, OtherService::Tuning,
            OtherService::UniversalCartographics, OtherService::ApexInterstellarTransport,
            OtherService::FrontlineSolutions, OtherService::PioneerSupplies,
            OtherService::VistaGenomics,
        ]
    }
}

/// The kind of a station.
#[derive(Debug, Clone, Copy, PartialEq, Eq, PartialOrd, Ord, Hash, Structural)]
pub enum StationType {
    OcellusStarport,
    OrbisStarport,
    CoriolisStarport,
    AsteroidBase,
    MegaShip,
    Outpost,
    PlanetaryPort,
    PlanetaryOutpost,
    OdysseySettlement,
    FleetCarrier,
}

impl StationType {
    /// The number of variants.
    pub const VARIANTS: usize = 10;

    /// The place of the variant in the list of the variants, from zero.
    pub open spec fn index(self) -> nat {
        match self {
            StationType::OcellusStarport => 0,
            StationType::OrbisStarport => 1,
            StationType::CoriolisStarport => 2,
            StationType::AsteroidBase => 3,
            StationType::MegaShip => 4,
            StationType::Outpost => 5,
            StationType::PlanetaryPort => 6,
            StationType::PlanetaryOutpost => 7,
            StationType::OdysseySettlement => 8,
            StationType::FleetCarrier => 9,
        }
    }

    /// The name of the variant as the dumps write it.
    pub open spec fn name_text(self) -> Seq<char> {
        match self {
            StationType::OcellusStarport => "Ocellus Starport"@,
            StationType::OrbisStarport => "Orbis Starport"@,
            StationType::CoriolisStarport => "Coriolis Starport"@,
            StationType::AsteroidBase => "Asteroid base"@,
            StationType::MegaShip => "Mega ship"@,
            StationType::Outpost => "Outpost"@,
            StationType::PlanetaryPort => "Planetary Port"@,
            StationType::PlanetaryOutpost => "Planetary Outpost"@,
            StationType::OdysseySettlement => "Odyssey Settlement"@,
            StationType::FleetCarrier => "Fleet Carrier"@,
        }
    }

    /// The name of the variant as the dumps write it.
    pub fn name(self) -> (r: &'static str)
        ensures
            r@ == self.name_text(),
    {
        match self {
            StationType::OcellusStarport => "Ocellus Starport",
            StationType::OrbisStarport => "Orbis Starport",
            StationType::CoriolisStarport => "Coriolis Starport",
            StationType::AsteroidBase => "Asteroid base",
            StationType::MegaShip => "Mega ship",
            StationType::Outpost => "Outpost",
            StationType::PlanetaryPort => "Planetary Port",
            StationType::PlanetaryOutpost => "Planetary Outpost",
            StationType::OdysseySettlement => "Odyssey Settlement",
            StationType::FleetCarrier => "Fleet Carrier",
        }
    }

    /// All variants, each once, each at the place that `index` gives it.
    pub fn iter() -> (r: Vec<StationType>)
        ensures
            r@.len() == StationType::VARIANTS,
            forall|v: StationType| #[trigger] r@[v.index() as int] == v,
    {
        vec![
            StationType::OcellusStarport, StationType::OrbisStarport,
            StationType::CoriolisStarport, StationType::AsteroidBase, StationType::MegaShip,
            StationType::Outpost, StationType::PlanetaryPort, StationType::PlanetaryOutpost,
            StationType::OdysseySettlement, StationType::FleetCarrier,
        ]
    }
}

/// A commodity on the market of a station.
#[derive(Debug, PartialEq, Eq, Hash)]
pub struct Commodity {
    /// The key of the commodity, where the dump has one.
    pub id: Option<String>,
    /// Its name.
    pub name: String,
    /// The price at which the station sells it.
    pub buy_price: u64,
    /// How much of it the station asks for.
    pub demand: u64,
    /// The price at which the station buys it.
    pub sell_price: u64,
    /// How much of it the station has.
    pub stock: u64,
    /// The bracket of that stock.
    pub stock_bracket: u64,
}

/// A module that a station sells.
#[derive(Debug, PartialEq, Eq, Hash)]
pub struct Outfitting {
    /// The key of the module.
    pub id: String,
    /// Its name.
    pub name: String,
}

/// A ship that a station sells.
#[derive(Debug, PartialEq, Eq, Hash)]
pub struct Ship {
    /// The number of the ship.
    pub id: u64,
    /// Its name.
    pub name: String,
}

} // verus!
