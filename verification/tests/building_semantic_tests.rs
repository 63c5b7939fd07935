use arnis::element_processing::building_semantic::{
    classify, normalize_brand, normalize_lowercase_brand, BuildingSubtype,
};
use arnis::osm_parser::{ProcessedNode, ProcessedWay, Tags};

fn way_with_tags(pairs: &[(&str, &str)]) -> ProcessedWay {
    let mut tags = Tags::new();
    for (k, v) in pairs {
        tags.insert((*k).to_string(), (*v).to_string());
    }
    ProcessedWay {
        id: 1,
        nodes: vec![ProcessedNode {
            id: 1,
            tags: Tags::new(),
            x: 0,
            z: 0,
        }],
        tags,
    }
}

#[test]
fn fuel_station_overrides_building_service() {
    let w = way_with_tags(&[
        ("building", "service"),
        ("amenity", "fuel"),
        ("brand", "Лукойл"),
    ]);
    let s = classify(&w);
    assert_eq!(s.subtype, BuildingSubtype::GasStation);
    assert_eq!(s.brand_key.as_deref(), Some("lukoil"));
}

#[test]
fn supermarket_brand_promotes_to_hypermarket() {
    let w = way_with_tags(&[("shop", "supermarket"), ("brand", "Ашан")]);
    let s = classify(&w);
    assert_eq!(s.subtype, BuildingSubtype::Hypermarket);
}

#[test]
fn pyaterochka_stays_supermarket() {
    let w = way_with_tags(&[("shop", "supermarket"), ("brand", "Пятёрочка")]);
    let s = classify(&w);
    assert_eq!(s.subtype, BuildingSubtype::Supermarket);
    assert_eq!(s.brand_key.as_deref(), Some("pyaterochka"));
}

#[test]
fn kindergarten_school_university() {
    for (val, expected) in [
        ("kindergarten", BuildingSubtype::Kindergarten),
        ("school", BuildingSubtype::School),
        ("university", BuildingSubtype::University),
    ] {
        let w = way_with_tags(&[("amenity", val)]);
        assert_eq!(classify(&w).subtype, expected);
    }
}

#[test]
fn subway_entrance_classified_as_metro() {
    let w = way_with_tags(&[("railway", "subway_entrance"), ("name", "Котельники")]);
    let s = classify(&w);
    assert_eq!(s.subtype, BuildingSubtype::MetroEntrance);
}

#[test]
fn place_of_worship_dispatches_on_religion() {
    for (relig, expected) in [
        ("muslim", BuildingSubtype::Mosque),
        ("jewish", BuildingSubtype::Synagogue),
        ("buddhist", BuildingSubtype::Temple),
        ("christian", BuildingSubtype::Church),
    ] {
        let w = way_with_tags(&[("amenity", "place_of_worship"), ("religion", relig)]);
        assert_eq!(classify(&w).subtype, expected);
    }
}

#[test]
fn yes_building_is_unknown_low_confidence() {
    let w = way_with_tags(&[("building", "yes")]);
    let s = classify(&w);
    assert_eq!(s.subtype, BuildingSubtype::Unknown);
    // Confidence is kept in percent.
    assert!((s.confidence as f32) / 100.0 < 0.5);
}

#[test]
fn unknown_is_the_twenty_percent_fallback() {
    let s = classify(&way_with_tags(&[("building", "something_else")]));
    assert_eq!(s.subtype, BuildingSubtype::Unknown);
    assert_eq!(s.confidence, 20);
    assert_eq!(
        s.detected_from.primary_tag,
        Some(("building".to_string(), "yes".to_string()))
    );
    // An unrecognised building value is not `yes`: no clue is recorded.
    assert!(s.detected_from.context_clues.is_empty());
}

#[test]
fn brand_normalisation() {
    assert_eq!(normalize_brand("Пятёрочка"), "pyaterochka");
    assert_eq!(normalize_brand("Магнит"), "magnit");
    assert_eq!(normalize_brand("Красное и Белое"), "krasnoe_i_beloe");
    assert_eq!(normalize_brand("Burger King"), "burger_king");
    assert_eq!(normalize_brand("KFC"), "kfc");
    assert_eq!(normalize_brand("Вкусно — и точка"), "vkusno_i_tochka");
}

#[test]
fn brand_separators_collapse() {
    assert_eq!(normalize_brand("Красное & Белое"), "krasnoe_beloe");
    assert_eq!(normalize_brand("Красное&Белое"), "krasnoe_beloe");
    assert_eq!(normalize_brand("K&B"), "krasnoe_beloe");
    assert_eq!(normalize_brand("k & b"), "krasnoe_beloe");
    assert_eq!(normalize_brand("krasnoe_beloe"), "krasnoe_beloe");
    assert_eq!(normalize_brand("K&B&C"), "k_b_c");
    assert_eq!(normalize_brand("  --McDonald's!! "), "mcdonald_s");
    assert_eq!(normalize_brand("Объект"), "obekt");
    assert_eq!(normalize_brand(""), "");
    assert_eq!(normalize_brand("!!!"), "");
}

#[test]
fn lowercase_brand_keeps_capitals_it_is_given() {
    // The lowercasing step is the caller's; this function keeps ASCII
    // capitals as they are.
    assert_eq!(normalize_lowercase_brand("KFC"), "KFC");
    assert_eq!(normalize_lowercase_brand("kfc"), "kfc");
    assert_eq!(normalize_lowercase_brand("пицца хат"), "pitstsa_hat");
}

#[test]
fn brand_key_is_stable() {
    for raw in ["Пятёрочка", "Burger King", "Вкусно — и точка", "a__b", "_x_"] {
        let key = normalize_brand(raw);
        assert_eq!(normalize_brand(&key), key);
    }
}

#[test]
fn confidence_and_primary_tag() {
    let s = classify(&way_with_tags(&[("amenity", "fuel")]));
    assert_eq!(s.confidence, 100);
    assert_eq!(
        s.detected_from.primary_tag,
        Some(("amenity".to_string(), "fuel".to_string()))
    );
    let s = classify(&way_with_tags(&[("building", "garage")]));
    assert_eq!(s.subtype, BuildingSubtype::CarService);
    assert_eq!(s.confidence, 60);
    assert_eq!(
        s.detected_from.primary_tag,
        Some(("building".to_string(), "garage".to_string()))
    );
}

#[test]
fn building_yes_clue_and_detected_fields() {
    let s = classify(&way_with_tags(&[
        ("building", "yes"),
        ("name", "Дом"),
        ("operator", "Городские сети"),
    ]));
    assert_eq!(s.subtype, BuildingSubtype::Unknown);
    assert_eq!(s.detected_from.context_clues, vec!["building=yes".to_string()]);
    assert_eq!(s.detected_from.name.as_deref(), Some("Дом"));
    assert_eq!(s.detected_from.brand.as_deref(), Some("Городские сети"));
    assert_eq!(s.detected_from.operator.as_deref(), Some("Городские сети"));
    assert_eq!(s.brand_key.as_deref(), Some("gorodskie_seti"));
    // No building tag at all counts as building=yes.
    let s = classify(&way_with_tags(&[]));
    assert_eq!(s.subtype, BuildingSubtype::Unknown);
    assert_eq!(s.detected_from.context_clues.len(), 1);
}

#[test]
fn historic_before_unknown() {
    let s = classify(&way_with_tags(&[("historic", "memorial")]));
    assert_eq!(s.subtype, BuildingSubtype::HistoricBuilding);
    assert_eq!(s.confidence, 85);
    assert_eq!(
        s.detected_from.primary_tag,
        Some(("historic".to_string(), "memorial".to_string()))
    );
    assert_eq!(s.detected_from.context_clues.len(), 1);
}

#[test]
fn stations_and_transport() {
    let sub = |pairs: &[(&str, &str)]| classify(&way_with_tags(pairs)).subtype;
    assert_eq!(sub(&[("railway", "station"), ("station", "subway")]), BuildingSubtype::MetroStation);
    assert_eq!(sub(&[("railway", "station"), ("tram", "yes")]), BuildingSubtype::TramStation);
    assert_eq!(sub(&[("railway", "station")]), BuildingSubtype::RailwayStation);
    assert_eq!(
        sub(&[("amenity", "parking"), ("parking", "multi-storey")]),
        BuildingSubtype::ParkingGarage
    );
    // Surface parking is not a garage; it falls through to building=.
    assert_eq!(sub(&[("amenity", "parking"), ("building", "yes")]), BuildingSubtype::Unknown);
    assert_eq!(sub(&[("aeroway", "terminal")]), BuildingSubtype::AirportTerminal);
    assert_eq!(sub(&[("public_transport", "station")]), BuildingSubtype::TransportHub);
}

#[test]
fn brands_pick_food_chains() {
    let sub = |pairs: &[(&str, &str)]| classify(&way_with_tags(pairs)).subtype;
    assert_eq!(sub(&[("amenity", "fast_food"), ("brand", "Burger King")]), BuildingSubtype::BurgerRestaurant);
    assert_eq!(sub(&[("amenity", "restaurant"), ("brand", "Papa John's")]), BuildingSubtype::PizzaRestaurant);
    assert_eq!(sub(&[("amenity", "cafe"), ("operator", "Starbucks")]), BuildingSubtype::CoffeeShop);
    assert_eq!(sub(&[("amenity", "cafe")]), BuildingSubtype::Cafe);
    assert_eq!(sub(&[("amenity", "fast_food")]), BuildingSubtype::FastFood);
}

#[test]
fn later_steps_and_building_values() {
    let sub = |pairs: &[(&str, &str)]| classify(&way_with_tags(pairs)).subtype;
    assert_eq!(sub(&[("tourism", "hotel"), ("building", "house")]), BuildingSubtype::Hotel);
    assert_eq!(sub(&[("office", "company")]), BuildingSubtype::Office);
    assert_eq!(sub(&[("shop", "shoes")]), BuildingSubtype::ClothingStore);
    assert_eq!(sub(&[("shop", "books")]), BuildingSubtype::RetailStore);
    assert_eq!(sub(&[("amenity", "vending_machine")]), BuildingSubtype::PickupPoint);
    assert_eq!(sub(&[("healthcare", "laboratory")]), BuildingSubtype::MedicalCenter);
    assert_eq!(sub(&[("power", "substation")]), BuildingSubtype::PowerFacility);
    assert_eq!(sub(&[("industrial", "oil")]), BuildingSubtype::IndustrialBuilding);
    assert_eq!(sub(&[("building", "cathedral")]), BuildingSubtype::Church);
    assert_eq!(sub(&[("building:part", "apartments")]), BuildingSubtype::Apartments);
    assert_eq!(sub(&[("building", "kindergarten")]), BuildingSubtype::Kindergarten);
    assert_eq!(sub(&[("building", "supermarket")]), BuildingSubtype::Supermarket);
    assert_eq!(sub(&[("building", "retail")]), BuildingSubtype::RetailStore);
    assert_eq!(
        sub(&[("amenity", "place_of_worship"), ("religion", "christian"), ("denomination", "monastic")]),
        BuildingSubtype::Monastery
    );
}

#[test]
fn coarse_categories() {
    assert_eq!(BuildingSubtype::Cottage.coarse_category_str(), "House");
    assert_eq!(BuildingSubtype::Pharmacy.coarse_category_str(), "Commercial");
    assert_eq!(BuildingSubtype::GasStation.coarse_category_str(), "Office");
    assert_eq!(BuildingSubtype::Depot.coarse_category_str(), "Warehouse");
    assert_eq!(BuildingSubtype::Greenhouse.coarse_category_str(), "Greenhouse");
    assert_eq!(BuildingSubtype::UnknownIndustrial.coarse_category_str(), "Industrial");
    assert_eq!(BuildingSubtype::UnknownCommercial.coarse_category_str(), "Commercial");
    assert_eq!(BuildingSubtype::Unknown.coarse_category_str(), "Default");
    assert_eq!(BuildingSubtype::Monastery.coarse_category_str(), "Religious");
    assert_eq!(BuildingSubtype::HistoricBuilding.coarse_category_str(), "Historic");
}

#[test]
fn tags_replace_values() {
    let mut tags = Tags::new();
    tags.insert("amenity".to_string(), "cafe".to_string());
    tags.insert("amenity".to_string(), "fuel".to_string());
    assert_eq!(tags.get("amenity").map(|s| s.as_str()), Some("fuel"));
    assert!(tags.contains_key("amenity"));
    assert!(!tags.contains_key("shop"));
    assert_eq!(tags.get("shop"), None);
}
