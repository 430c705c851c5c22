use edsm_dumps_model::model::bgs::{
    ActiveState, Allegiance, ControllingFaction, Economy, Government, Happiness, PendingState,
    RecoveringState, Security, State,
};
use edsm_dumps_model::model::body::{
    AsteroidType, AtmosphereCompositionKey, AtmosphereType, Luminosity, MaterialsKey, Parent,
    PlanetSubType, ReserveLevel, SpectralClass, StarClass, StarSubType, TerraformingState,
    VolcanismType,
};
use edsm_dumps_model::model::filter::{find, pre_filter};
use edsm_dumps_model::model::powerplay::{Power, PowerState};
use edsm_dumps_model::model::station::{Commodity, OtherService, Outfitting, Ship, StationType};

#[test]
fn atmosphere_composition_key_check_variants_count() {
    let mut max = 0;
    let n = AtmosphereCompositionKey::VARIANTS;
    for v in AtmosphereCompositionKey::iter() {
        let x = v as usize;
        assert!(
            x < n,
            "type index ({}) should be smaller than variants count ({})",
            x,
            n
        );
        max = max.max(x);
    }
    assert_eq!(n, max + 1);
}

#[test]
fn atmosphere_type_check_variants_count() {
    let mut max = 0;
    let n = AtmosphereType::VARIANTS;
    for v in AtmosphereType::iter() {
        let x = v as usize;
        assert!(
            x < n,
            "type index ({}) should be smaller than variants count ({})",
            x,
            n
        );
        max = max.max(x);
    }
    assert_eq!(n, max + 1);
}

#[test]
fn luminosity_check_variants_count() {
    let mut max = 0;
    let n = Luminosity::VARIANTS;
    for v in Luminosity::iter() {
        let x = v as usize;
        assert!(
            x < n,
            "type index ({}) should be smaller than variants count ({})",
            x,
            n
        );
        max = max.max(x);
    }
    assert_eq!(n, max + 1);
}

#[test]
fn materials_key_check_variants_count() {
    let mut max = 0;
    let n = MaterialsKey::VARIANTS;
    for v in MaterialsKey::iter() {
        let x = v as usize;
        assert!(
            x < n,
            "type index ({}) should be smaller than variants count ({})",
            x,
            n
        );
        max = max.max(x);
    }
    assert_eq!(n, max + 1);
}

#[test]
fn planet_sub_type_check_variants_count() {
    let mut max = 0;
    let n = PlanetSubType::VARIANTS;
    for v in PlanetSubType::iter() {
        let x = v as usize;
        assert!(
            x < n,
            "type index ({}) should be smaller than variants count ({})",
            x,
            n
        );
        max = max.max(x);
    }
    assert_eq!(n, max + 1);
}

#[test]
fn reserve_level_check_variants_count() {
    let mut max = 0;
    let n = ReserveLevel::VARIANTS;
    for v in ReserveLevel::iter() {
        let x = v as usize;
        assert!(
            x < n,
            "type index ({}) should be smaller than variants count ({})",
            x,
            n
        );
        max = max.max(x);
    }
    assert_eq!(n, max + 1);
}

#[test]
fn star_class_check_variants_count() {
    let mut max = 0;
    let n = StarClass::VARIANTS;
    for v in StarClass::iter() {
        let x = v as usize;
        assert!(
            x < n,
            "type index ({}) should be smaller than variants count ({})",
            x,
            n
        );
        max = max.max(x);
    }
    assert_eq!(n, max + 1);
}

#[test]
fn spectral_class_check_variants_count() {
    let mut max = 0;
    let n = SpectralClass::VARIANTS;
    for v in SpectralClass::iter() {
        let x = v as usize;
        assert!(
            x < n,
            "type index ({}) should be smaller than variants count ({})",
            x,
            n
        );
        max = max.max(x);
    }
    assert_eq!(n, max + 1);
}

#[test]
fn star_sub_type_check_variants_count() {
    let mut max = 0;
    let n = StarSubType::VARIANTS;
    for v in StarSubType::iter() {
        let x = v as usize;
        assert!(
            x < n,
            "type index ({}) should be smaller than variants count ({})",
            x,
            n
        );
        max = max.max(x);
    }
    assert_eq!(n, max + 1);
}

#[test]
fn terraforming_state_check_variants_count() {
    let mut max = 0;
    let n = TerraformingState::VARIANTS;
    for v in TerraformingState::iter() {
        let x = v as usize;
        assert!(
            x < n,
            "type index ({}) should be smaller than variants count ({})",
            x,
            n
        );
        max = max.max(x);
    }
    assert_eq!(n, max + 1);
}

#[test]
fn volcanism_type_check_variants_count() {
    let mut max = 0;
    let n = VolcanismType::VARIANTS;
    for v in VolcanismType::iter() {
        let x = v as usize;
        assert!(
            x < n,
            "type index ({}) should be smaller than variants count ({})",
            x,
            n
        );
        max = max.max(x);
    }
    assert_eq!(n, max + 1);
}

#[test]
fn iter_lists_each_variant_once_in_order() {
    let all = StarClass::iter();
    assert_eq!(all.len(), 15);
    for (i, v) in all.iter().enumerate() {
        assert_eq!(*v as usize, i);
    }
    assert_eq!(Allegiance::iter().len(), Allegiance::VARIANTS);
    assert_eq!(Economy::iter().len(), 17);
    assert_eq!(Government::iter().len(), 15);
    assert_eq!(Happiness::iter().len(), 6);
    assert_eq!(Security::iter().len(), 4);
    assert_eq!(State::iter().len(), 21);
    assert_eq!(AsteroidType::iter().len(), 4);
    assert_eq!(Power::iter().len(), 11);
    assert_eq!(PowerState::iter().len(), 7);
    assert_eq!(OtherService::iter().len(), 17);
    assert_eq!(StationType::iter().len(), StationType::VARIANTS);
    for (i, v) in SpectralClass::iter().into_iter().enumerate() {
        assert_eq!(v as usize, i);
    }
}

#[test]
fn names_are_those_of_the_dumps() {
    assert_eq!(Allegiance::PilotsFederation.name(), "Pilots Federation");
    assert_eq!(Allegiance::Empire.name(), "Empire");
    assert_eq!(Economy::Nothing.name(), "None");
    assert_eq!(Economy::HighTech.name(), "High Tech");
    assert_eq!(Government::WorkshopEngineer.name(), "Workshop (Engineer)");
    assert_eq!(Happiness::Nothing.name(), "None");
    assert_eq!(State::CivilLiberty.name(), "Civil liberty");
    assert_eq!(State::Nothing.name(), "None");
    assert_eq!(Security::Anarchy.name(), "Anarchy");
    assert_eq!(AsteroidType::MetalRich.name(), "Metal Rich");
    assert_eq!(AtmosphereCompositionKey::CarbonDioxide.name(), "Carbon dioxide");
    assert_eq!(Power::ALavignyDuval.name(), "A. Lavigny-Duval");
    assert_eq!(PowerState::HomeSystem.name(), "HomeSystem");
    assert_eq!(OtherService::SearchAndRescue.name(), "Search and Rescue");
    assert_eq!(StationType::MegaShip.name(), "Mega ship");
    assert_eq!(PlanetSubType::WaterWorld.name(), "Water world");
}

#[test]
fn names_differ_within_an_enum() {
    let mut seen = std::collections::BTreeSet::new();
    for v in AtmosphereType::iter() {
        assert!(seen.insert(v.name()), "{} twice", v.name());
    }
    let mut seen = std::collections::BTreeSet::new();
    for v in SpectralClass::iter() {
        assert!(seen.insert(v.name()), "{} twice", v.name());
    }
    let mut seen = std::collections::BTreeSet::new();
    for v in StarSubType::iter() {
        assert!(seen.insert(v.name()), "{} twice", v.name());
    }
}

#[test]
fn short_words_of_planets_and_stars() {
    assert_eq!(PlanetSubType::ClassIGasGiant.short(), "C1GG");
    assert_eq!(PlanetSubType::EarthLikeWorld.short(), "ELW");
    assert_eq!(PlanetSubType::WaterWorld.short(), "WW");
    assert_eq!(StarClass::OTypeStars.short(), "O");
    assert_eq!(StarClass::WhiteDwarfStars.short(), "WD");
    assert_eq!(StarClass::NonSequenceStars.short(), "NS");
    assert_eq!(StarSubType::MRedSuperGiantStar.short(), "Msg");
    assert_eq!(StarSubType::WhiteDwarfDAVStar.short(), "Dv");
    assert_eq!(StarSubType::SupermassiveBlackHole.short(), "sBH");
}

#[test]
fn star_class_is_written_out() {
    assert_eq!(StarClass::OTypeStars.title(), "O-Type Stars");
    assert_eq!(StarClass::WolfRayetStars.title(), "Wolf-Rayet Stars");
    assert_eq!(StarClass::NonSequenceStars.title(), "Non Sequence Stars");
}

#[test]
fn every_star_belongs_to_a_family() {
    assert_eq!(StarSubType::OBlueWhiteStar.filter_star_class(), StarClass::OTypeStars);
    assert_eq!(StarSubType::BBlueWhiteSuperGiantStar.filter_star_class(), StarClass::BTypeStars);
    assert_eq!(StarSubType::MRedGiantStar.filter_star_class(), StarClass::MTypeStars);
    assert_eq!(StarSubType::TTauriStar.filter_star_class(), StarClass::ProtoStars);
    assert_eq!(StarSubType::MSTypeStar.filter_star_class(), StarClass::CarbonStars);
    assert_eq!(StarSubType::WolfRayetNCStar.filter_star_class(), StarClass::WolfRayetStars);
    assert_eq!(StarSubType::WhiteDwarfDQStar.filter_star_class(), StarClass::WhiteDwarfStars);
    assert_eq!(StarSubType::BlackHole.filter_star_class(), StarClass::NonSequenceStars);
    let mut families = std::collections::BTreeSet::new();
    for v in StarSubType::iter() {
        families.insert(v.filter_star_class());
    }
    assert_eq!(families.len(), StarClass::VARIANTS);
}

#[test]
fn records_of_the_vocabulary_hold_their_fields() {
    let active = ActiveState { state: State::Boom };
    assert_eq!(active.clone(), active);
    let pending = PendingState { state: State::War, trend: 1 };
    let recovering = RecoveringState { state: State::War, trend: 1 };
    assert_eq!(pending.state, recovering.state);
    let faction = ControllingFaction {
        id: Some(7),
        allegiance: Some(Allegiance::Independent),
        government: Some(Government::Democracy),
        is_player: Some(false),
        name: Some("Crew".to_string()),
    };
    assert_eq!(faction.name.as_deref(), Some("Crew"));
    assert_eq!(faction.government, Some(Government::Democracy));
    let ship = Ship { id: 1, name: "Sidewinder".to_string() };
    let module = Outfitting { id: "m1".to_string(), name: "Laser".to_string() };
    let goods = Commodity {
        id: None,
        name: "Gold".to_string(),
        buy_price: 1,
        demand: 2,
        sell_price: 3,
        stock: 4,
        stock_bracket: 5,
    };
    assert_eq!(ship.name, "Sidewinder");
    assert_eq!(module.id, "m1");
    assert_eq!(goods.sell_price, 3);
    assert!(Parent::Null(1) < Parent::Planet(0));
    assert_eq!(Luminosity::iter().len(), MaterialsKey::iter().len());
    assert_eq!(ReserveLevel::iter().len(), 5);
    assert_eq!(TerraformingState::iter().len(), 4);
    assert_eq!(VolcanismType::iter().len(), 25);
}

#[test]
fn a_body_of_unknown_kind_gets_its_type_quoted() {
    assert_eq!(
        pre_filter(br#"{"id":1,"type":null,"name":"x"}"#),
        br#"{"id":1,"type":"null","name":"x"}"#.to_vec()
    );
    assert_eq!(
        pre_filter(br#"{"type":null,"rings":[{"type":null}]}"#),
        br#"{"type":"null","rings":[{"type":null}]}"#.to_vec()
    );
    assert_eq!(
        pre_filter(br#"{"rings":[{"type":null}],"type":"Star"}"#),
        br#"{"rings":[{"type":null}],"type":"Star"}"#.to_vec()
    );
    assert_eq!(
        pre_filter(br#"{"a":{"type":null}}"#),
        br#"{"a":{"type":null}}"#.to_vec()
    );
    assert_eq!(
        pre_filter(br#"{"id":1,"type":"Planet"}"#),
        br#"{"id":1,"type":"Planet"}"#.to_vec()
    );
    assert_eq!(pre_filter(br#""type":null"#), br#""type":"null""#.to_vec());
    assert_eq!(pre_filter(b""), Vec::<u8>::new());
    assert_eq!(find(b"abcabc", b"bc"), Some(1));
    assert_eq!(find(b"abcabc", b"abcabc"), Some(0));
    assert_eq!(find(b"abcabc", b"abcabcd"), None);
    assert_eq!(find(b"abcabc", b"cb"), None);
    assert_eq!(find(b"", b""), Some(0));
    assert_eq!(find(b"ab", b""), Some(0));
    assert_eq!(find(b"aab", b"ab"), Some(1));
}
