//! Automatic semantic classification for OSM building / amenity / shop /
//! station objects.
//!
//! A [`BuildingSubtype`] is a functional kind of building derived from OSM
//! semantic tags (`amenity=fuel` on a `building=service` way is a gas
//! station, not a generic shed). [`classify`] maps a way's tags, name,
//! brand and operator to one subtype through a chain of checks in priority
//! order; it is deterministic and purely tag-driven.
use vstd::prelude::*;
use crate::osm_parser::{tag, ProcessedWay, Tags};
use crate::text::{
    is_ascii_capital, lowercase, no_ascii_capitals, str_eq, str_option_view, string_from_chars,
    to_lowercase,
};

verus! {

/// Functional sub-category of a building, derived from OSM semantic tags
/// rather than just the raw `building=` value. Each variant is a kind of
/// place that should look a specific way in the rendered world; renderers
/// without subtype-specific code use [`BuildingSubtype::coarse_category_str`].
#[derive(Debug, Clone, Copy, PartialEq, Eq, Hash, Structural)]
pub enum BuildingSubtype {
    // ---------- Residential ----------
    DetachedHouse,
    SemiDetachedHouse,
    Townhouse,
    Cottage,
    RuralHouse,
    Apartments,
    ResidentialBlock,
    Dormitory,
    Hostel,
    MixedUseResidential,

    // ---------- Education ----------
    Kindergarten,
    School,
    College,
    University,
    TrainingCenter,
    Library,

    // ---------- Healthcare ----------
    Hospital,
    Clinic,
    Polyclinic,
    MedicalCenter,
    Pharmacy,
    DentalClinic,
    VeterinaryClinic,

    // ---------- Retail ----------
    ConvenienceStore,
    Minimarket,
    Supermarket,
    Hypermarket,
    ShoppingMall,
    RetailStore,
    LiquorStore,
    PharmacyStore,
    Bakery,
    Butcher,
    Greengrocer,
    ElectronicsStore,
    HardwareStore,
    FurnitureStore,
    ClothingStore,
    BeautyStore,
    HouseholdStore,
    DiscountStore,
    PickupPoint,
    MarketHall,
    Kiosk,

    // ---------- Food service ----------
    Cafe,
    CoffeeShop,
    Restaurant,
    FastFood,
    BurgerRestaurant,
    PizzaRestaurant,
    Canteen,
    FoodCourt,
    BakeryCafe,

    // ---------- Office / civic ----------
    Office,
    BusinessCenter,
    Bank,
    PostOffice,
    GovernmentOffice,
    MunicipalBuilding,
    PoliceStation,
    FireStation,
    Courthouse,
    SocialServiceCenter,

    // ---------- Transport ----------
    GasStation,
    CarWash,
    CarService,
    Dealership,
    ParkingGarage,
    BusStation,
    BusTerminal,
    RailwayStation,
    RailwayHalt,
    MetroStation,
    MetroEntrance,
    TramStation,
    TransportHub,
    AirportTerminal,

    // ---------- Industrial ----------
    Warehouse,
    IndustrialBuilding,
    Factory,
    Workshop,
    Depot,
    LogisticsCenter,
    UtilityBuilding,
    PowerFacility,
    WaterTreatment,
    TransformerStation,

    // ---------- Sport / culture ----------
    SportsHall,
    Stadium,
    SwimmingPool,
    FitnessCenter,
    Cinema,
    Theater,
    Museum,
    ExhibitionHall,
    CulturalCenter,
    YouthCenter,

    // ---------- Religious ----------
    Church,
    Chapel,
    Mosque,
    Synagogue,
    Temple,
    Monastery,

    // ---------- Hospitality ----------
    Hotel,
    Motel,
    GuestHouse,
    ResortBuilding,

    // ---------- Agricultural ----------
    Barn,
    FarmBuilding,
    Stable,
    Greenhouse,
    StorageShed,

    // ---------- Special ----------
    PublicToilet,
    Pavilion,
    ServiceBuilding,
    AbandonedBuilding,
    HistoricBuilding,
    MonumentSupportBuilding,
    UnknownPublic,
    UnknownCommercial,
    UnknownIndustrial,
    Unknown,
}


/// Coarse renderer category of a subtype.
pub open spec fn coarse_category(s: BuildingSubtype) -> Seq<char> {
    match s {
        BuildingSubtype::DetachedHouse
        | BuildingSubtype::SemiDetachedHouse
        | BuildingSubtype::Townhouse
        | BuildingSubtype::Cottage
        | BuildingSubtype::RuralHouse => "House"@,
        BuildingSubtype::Apartments
        | BuildingSubtype::ResidentialBlock
        | BuildingSubtype::Dormitory
        | BuildingSubtype::Hostel
        | BuildingSubtype::MixedUseResidential => "Residential"@,
        BuildingSubtype::Kindergarten
        | BuildingSubtype::School
        | BuildingSubtype::College
        | BuildingSubtype::University
        | BuildingSubtype::TrainingCenter
        | BuildingSubtype::Library => "School"@,
        BuildingSubtype::Hospital
        | BuildingSubtype::Clinic
        | BuildingSubtype::Polyclinic
        | BuildingSubtype::MedicalCenter
        | BuildingSubtype::DentalClinic
        | BuildingSubtype::VeterinaryClinic => "Hospital"@,
        BuildingSubtype::ConvenienceStore
        | BuildingSubtype::Minimarket
        | BuildingSubtype::Supermarket
        | BuildingSubtype::Hypermarket
        | BuildingSubtype::ShoppingMall
        | BuildingSubtype::RetailStore
        | BuildingSubtype::LiquorStore
        | BuildingSubtype::Pharmacy
        | BuildingSubtype::PharmacyStore
        | BuildingSubtype::Bakery
        | BuildingSubtype::Butcher
        | BuildingSubtype::Greengrocer
        | BuildingSubtype::ElectronicsStore
        | BuildingSubtype::HardwareStore
        | BuildingSubtype::FurnitureStore
        | BuildingSubtype::ClothingStore
        | BuildingSubtype::BeautyStore
        | BuildingSubtype::HouseholdStore
        | BuildingSubtype::DiscountStore
        | BuildingSubtype::PickupPoint
        | BuildingSubtype::MarketHall
        | BuildingSubtype::Cafe
        | BuildingSubtype::CoffeeShop
        | BuildingSubtype::Restaurant
        | BuildingSubtype::FastFood
        | BuildingSubtype::BurgerRestaurant
        | BuildingSubtype::PizzaRestaurant
        | BuildingSubtype::Canteen
        | BuildingSubtype::FoodCourt
        | BuildingSubtype::BakeryCafe
        | BuildingSubtype::Kiosk => "Commercial"@,
        BuildingSubtype::Office
        | BuildingSubtype::BusinessCenter
        | BuildingSubtype::Bank
        | BuildingSubtype::PostOffice
        | BuildingSubtype::GovernmentOffice
        | BuildingSubtype::MunicipalBuilding
        | BuildingSubtype::PoliceStation
        | BuildingSubtype::FireStation
        | BuildingSubtype::Courthouse
        | BuildingSubtype::SocialServiceCenter => "Office"@,
        BuildingSubtype::Hotel
        | BuildingSubtype::Motel
        | BuildingSubtype::GuestHouse
        | BuildingSubtype::ResortBuilding => "Hotel"@,
        BuildingSubtype::GasStation
        | BuildingSubtype::CarWash
        | BuildingSubtype::CarService
        | BuildingSubtype::Dealership
        | BuildingSubtype::ParkingGarage
        | BuildingSubtype::BusStation
        | BuildingSubtype::BusTerminal
        | BuildingSubtype::RailwayStation
        | BuildingSubtype::RailwayHalt
        | BuildingSubtype::MetroStation
        | BuildingSubtype::MetroEntrance
        | BuildingSubtype::TramStation
        | BuildingSubtype::TransportHub
        | BuildingSubtype::AirportTerminal => "Office"@,
        BuildingSubtype::IndustrialBuilding
        | BuildingSubtype::Factory
        | BuildingSubtype::Workshop
        | BuildingSubtype::UtilityBuilding
        | BuildingSubtype::PowerFacility
        | BuildingSubtype::WaterTreatment
        | BuildingSubtype::TransformerStation
        | BuildingSubtype::UnknownIndustrial => "Industrial"@,
        BuildingSubtype::Warehouse
        | BuildingSubtype::Depot
        | BuildingSubtype::LogisticsCenter => "Warehouse"@,
        BuildingSubtype::SportsHall
        | BuildingSubtype::Stadium
        | BuildingSubtype::SwimmingPool
        | BuildingSubtype::FitnessCenter
        | BuildingSubtype::Cinema
        | BuildingSubtype::Theater
        | BuildingSubtype::Museum
        | BuildingSubtype::ExhibitionHall
        | BuildingSubtype::CulturalCenter
        | BuildingSubtype::YouthCenter => "Office"@,
        BuildingSubtype::Church
        | BuildingSubtype::Chapel
        | BuildingSubtype::Mosque
        | BuildingSubtype::Synagogue
        | BuildingSubtype::Temple
        | BuildingSubtype::Monastery => "Religious"@,
        BuildingSubtype::Barn
        | BuildingSubtype::FarmBuilding
        | BuildingSubtype::Stable
        | BuildingSubtype::StorageShed => "Farm"@,
        BuildingSubtype::Greenhouse => "Greenhouse"@,
        BuildingSubtype::PublicToilet
        | BuildingSubtype::Pavilion
        | BuildingSubtype::ServiceBuilding
        | BuildingSubtype::UnknownPublic => "Default"@,
        BuildingSubtype::AbandonedBuilding
        | BuildingSubtype::HistoricBuilding
        | BuildingSubtype::MonumentSupportBuilding => "Historic"@,
        BuildingSubtype::UnknownCommercial => "Commercial"@,
        BuildingSubtype::Unknown => "Default"@,
    }
}

impl BuildingSubtype {
    /// Best-fit coarse category for this subtype. The strings match the
    /// variants of the renderer's coarse building category.
    pub fn coarse_category_str(&self) -> (r: &'static str)
        ensures
            r@ == coarse_category(*self),
    {
        match self {
            BuildingSubtype::DetachedHouse
            | BuildingSubtype::SemiDetachedHouse
            | BuildingSubtype::Townhouse
            | BuildingSubtype::Cottage
            | BuildingSubtype::RuralHouse => "House",
            BuildingSubtype::Apartments
            | BuildingSubtype::ResidentialBlock
            | BuildingSubtype::Dormitory
            | BuildingSubtype::Hostel
            | BuildingSubtype::MixedUseResidential => "Residential",
            BuildingSubtype::Kindergarten
            | BuildingSubtype::School
            | BuildingSubtype::College
            | BuildingSubtype::University
            | BuildingSubtype::TrainingCenter
            | BuildingSubtype::Library => "School",
            BuildingSubtype::Hospital
            | BuildingSubtype::Clinic
            | BuildingSubtype::Polyclinic
            | BuildingSubtype::MedicalCenter
            | BuildingSubtype::DentalClinic
            | BuildingSubtype::VeterinaryClinic => "Hospital",
            BuildingSubtype::ConvenienceStore
            | BuildingSubtype::Minimarket
            | BuildingSubtype::Supermarket
            | BuildingSubtype::Hypermarket
            | BuildingSubtype::ShoppingMall
            | BuildingSubtype::RetailStore
            | BuildingSubtype::LiquorStore
            | BuildingSubtype::Pharmacy
            | BuildingSubtype::PharmacyStore
            | BuildingSubtype::Bakery
            | BuildingSubtype::Butcher
            | BuildingSubtype::Greengrocer
            | BuildingSubtype::ElectronicsStore
            | BuildingSubtype::HardwareStore
            | BuildingSubtype::FurnitureStore
            | BuildingSubtype::ClothingStore
            | BuildingSubtype::BeautyStore
            | BuildingSubtype::HouseholdStore
            | BuildingSubtype::DiscountStore
            | BuildingSubtype::PickupPoint
            | BuildingSubtype::MarketHall
            | BuildingSubtype::Cafe
            | BuildingSubtype::CoffeeShop
            | BuildingSubtype::Restaurant
            | BuildingSubtype::FastFood
            | BuildingSubtype::BurgerRestaurant
            | BuildingSubtype::PizzaRestaurant
            | BuildingSubtype::Canteen
            | BuildingSubtype::FoodCourt
            | BuildingSubtype::BakeryCafe
            | BuildingSubtype::Kiosk => "Commercial",
            BuildingSubtype::Office
            | BuildingSubtype::BusinessCenter
            | BuildingSubtype::Bank
            | BuildingSubtype::PostOffice
            | BuildingSubtype::GovernmentOffice
            | BuildingSubtype::MunicipalBuilding
            | BuildingSubtype::PoliceStation
            | BuildingSubtype::FireStation
            | BuildingSubtype::Courthouse
            | BuildingSubtype::SocialServiceCenter => "Office",
            BuildingSubtype::Hotel
            | BuildingSubtype::Motel
            | BuildingSubtype::GuestHouse
            | BuildingSubtype::ResortBuilding => "Hotel",
            BuildingSubtype::GasStation
            | BuildingSubtype::CarWash
            | BuildingSubtype::CarService
            | BuildingSubtype::Dealership
            | BuildingSubtype::ParkingGarage
            | BuildingSubtype::BusStation
            | BuildingSubtype::BusTerminal
            | BuildingSubtype::RailwayStation
            | BuildingSubtype::RailwayHalt
            | BuildingSubtype::MetroStation
            | BuildingSubtype::MetroEntrance
            | BuildingSubtype::TramStation
            | BuildingSubtype::TransportHub
            | BuildingSubtype::AirportTerminal => "Office",
            BuildingSubtype::IndustrialBuilding
            | BuildingSubtype::Factory
            | BuildingSubtype::Workshop
            | BuildingSubtype::UtilityBuilding
            | BuildingSubtype::PowerFacility
            | BuildingSubtype::WaterTreatment
            | BuildingSubtype::TransformerStation
            | BuildingSubtype::UnknownIndustrial => "Industrial",
            BuildingSubtype::Warehouse
            | BuildingSubtype::Depot
            | BuildingSubtype::LogisticsCenter => "Warehouse",
            BuildingSubtype::SportsHall
            | BuildingSubtype::Stadium
            | BuildingSubtype::SwimmingPool
            | BuildingSubtype::FitnessCenter
            | BuildingSubtype::Cinema
            | BuildingSubtype::Theater
            | BuildingSubtype::Museum
            | BuildingSubtype::ExhibitionHall
            | BuildingSubtype::CulturalCenter
            | BuildingSubtype::YouthCenter => "Office",
            BuildingSubtype::Church
            | BuildingSubtype::Chapel
            | BuildingSubtype::Mosque
            | BuildingSubtype::Synagogue
            | BuildingSubtype::Temple
            | BuildingSubtype::Monastery => "Religious",
            BuildingSubtype::Barn
            | BuildingSubtype::FarmBuilding
            | BuildingSubtype::Stable
            | BuildingSubtype::StorageShed => "Farm",
            BuildingSubtype::Greenhouse => "Greenhouse",
            BuildingSubtype::PublicToilet
            | BuildingSubtype::Pavilion
            | BuildingSubtype::ServiceBuilding
            | BuildingSubtype::UnknownPublic => "Default",
            BuildingSubtype::AbandonedBuilding
            | BuildingSubtype::HistoricBuilding
            | BuildingSubtype::MonumentSupportBuilding => "Historic",
            BuildingSubtype::UnknownCommercial => "Commercial",
            BuildingSubtype::Unknown => "Default",
        }
    }
}

/// Where raw values that drove the classification came from.
#[derive(Debug, Clone)]
pub struct DetectedFrom {
    pub primary_tag: Option<(String, String)>,
    pub name: Option<String>,
    pub brand: Option<String>,
    pub operator: Option<String>,
    pub context_clues: Vec<String>,
}

impl Default for DetectedFrom {
    fn default() -> (d: DetectedFrom)
        ensures
            d.primary_tag is None,
            d.name is None,
            d.brand is None,
            d.operator is None,
            d.context_clues@.len() == 0,
    {
        DetectedFrom {
            primary_tag: None,
            name: None,
            brand: None,
            operator: None,
            context_clues: Vec::new(),
        }
    }
}

/// Result of automatic semantic classification of an OSM way.
#[derive(Debug, Clone)]
pub struct BuildingSemantic {
    pub subtype: BuildingSubtype,
    /// How strongly the inputs agreed on the chosen subtype, in percent:
    /// 100 is unambiguous (`amenity=fuel` is a gas station), 50 and below
    /// is inferred from weak signals.
    pub confidence: u8,
    /// Normalised brand identifier (see [`normalize_brand`]), when the way
    /// has a `brand` or `operator` tag.
    pub brand_key: Option<String>,
    /// Raw values that drove the classification.
    pub detected_from: DetectedFrom,
}

/// A subtype, the `(key, value)` tag that decided it, and the confidence in
/// percent.
pub type Classification = (BuildingSubtype, (Seq<char>, Seq<char>), u8);

/// [`Classification`] with executable strings.
pub type Verdict = (BuildingSubtype, (String, String), u8);

/// A classification decided by the tag `key=value`.
pub open spec fn classified(sub: BuildingSubtype, key: Seq<char>, value: Seq<char>, confidence: u8) -> Option<
    Classification,
> {
    Some((sub, (key, value), confidence))
}

/// The characters of a verdict's strings.
pub open spec fn classification_view(c: Verdict) -> Classification {
    (c.0, (c.1.0@, c.1.1@), c.2)
}

/// `classification_view` lifted to options.
pub open spec fn classification_option_view(r: Option<Verdict>) -> Option<Classification> {
    match r {
        Some(c) => Some(classification_view(c)),
        None => None,
    }
}

/// The characters of an optional string.
pub open spec fn string_option_view(o: Option<String>) -> Option<Seq<char>> {
    match o {
        Some(s) => Some(s@),
        None => None,
    }
}

/// The characters of each string.
pub open spec fn string_views(v: Seq<String>) -> Seq<Seq<char>> {
    v.map_values(|s: String| s@)
}

/// `a` when it holds a classification, `b` otherwise.
pub open spec fn either(a: Option<Classification>, b: Option<Classification>) -> Option<
    Classification,
> {
    if a is Some {
        a
    } else {
        b
    }
}

/// The `building=` value, else the `building:part=` value, else `yes`.
pub open spec fn building_type(t: Map<Seq<char>, Seq<char>>) -> Seq<char> {
    match tag(t, "building"@) {
        Some(b) => b,
        None => match tag(t, "building:part"@) {
            Some(b) => b,
            None => "yes"@,
        },
    }
}

/// Steps 1 to 8 of the classification: the first step whose tags decide.
pub open spec fn tagged_class(t: Map<Seq<char>, Seq<char>>, brand: Option<Seq<char>>) -> Option<
    Classification,
> {
    let found = transport_class(t);
    let found = either(found, civic_class(t, brand));
    let found = either(found, leisure_class(t));
    let found = either(found, retail_class(t, brand));
    let found = either(found, healthcare_class(t));
    let found = either(found, industrial_class(t));
    either(found, building_value_class(building_type(t)))
}

/// The classification of a way with tags `t` and brand key `brand`: the
/// first step whose tags decide, then `historic=*`, then an unknown
/// building with low confidence.
pub open spec fn classify_tags(t: Map<Seq<char>, Seq<char>>, brand: Option<Seq<char>>) -> Classification {
    match tagged_class(t, brand) {
        Some(c) => c,
        None => match tag(t, "historic"@) {
            Some(h) => (BuildingSubtype::HistoricBuilding, ("historic"@, h), 85),
            None => (BuildingSubtype::Unknown, ("building"@, "yes"@), 20),
        },
    }
}

/// Classification records the clue `building=yes`: no step decided and the
/// building value is `yes` (or missing).
pub open spec fn notes_building_yes(t: Map<Seq<char>, Seq<char>>, brand: Option<Seq<char>>) -> bool {
    tagged_class(t, brand) is None && building_type(t) == "yes"@
}

/// The raw brand of a way: its `brand` tag, else its `operator` tag.
pub open spec fn brand_source(t: Map<Seq<char>, Seq<char>>) -> Option<Seq<char>> {
    match tag(t, "brand"@) {
        Some(b) => Some(b),
        None => tag(t, "operator"@),
    }
}

/// The brand key of a way, when it has a brand or an operator.
pub open spec fn way_brand_key(t: Map<Seq<char>, Seq<char>>) -> Option<Seq<char>> {
    match brand_source(t) {
        Some(b) => Some(brand_key(lowercase(b))),
        None => None,
    }
}

/// `s` is what [`classify`] gives for a way with tags `t`.
pub open spec fn is_semantic_of(s: BuildingSemantic, t: Map<Seq<char>, Seq<char>>) -> bool {
    let c = classify_tags(t, way_brand_key(t));
    &&& s.subtype == c.0
    &&& s.confidence == c.2
    &&& string_option_view(s.brand_key) == way_brand_key(t)
    &&& s.detected_from.primary_tag matches Some(p) && p.0@ == c.1.0 && p.1@ == c.1.1
    &&& string_option_view(s.detected_from.name) == tag(t, "name"@)
    &&& string_option_view(s.detected_from.brand) == brand_source(t)
    &&& string_option_view(s.detected_from.operator) == tag(t, "operator"@)
    &&& string_views(s.detected_from.context_clues@) == (if notes_building_yes(t, way_brand_key(t)) {
        seq!["building=yes"@]
    } else {
        Seq::empty()
    })
}

/// A verdict decided by the tag `key=value`.
fn classified_as(sub: BuildingSubtype, key: &str, value: &str, confidence: u8) -> (r: Option<Verdict>)
    ensures
        classification_option_view(r) == classified(sub, key@, value@, confidence),
{
    Some((sub, (String::from_str(key), String::from_str(value)), confidence))
}

/// The tag `key` is present with value `value`.
fn tag_is(tags: &Tags, key: &str, value: &str) -> (r: bool)
    ensures
        r == (tag(tags@, key@) == Some(value@)),
{
    match tags.get(key) {
        Some(v) => str_eq(v.as_str(), value),
        None => false,
    }
}

/// `building_type` on executable tags.
fn building_type_of(tags: &Tags) -> (r: &str)
    ensures
        r@ == building_type(tags@),
{
    match tags.get("building") {
        Some(b) => b.as_str(),
        None => match tags.get("building:part") {
            Some(b) => b.as_str(),
            None => "yes",
        },
    }
}

/// A copy of an optional string.
fn cloned(o: Option<&String>) -> (r: Option<String>)
    ensures
        string_option_view(r) == (match o {
            Some(s) => Some(s@),
            None => None::<Seq<char>>,
        }),
{
    match o {
        Some(s) => Some(s.clone()),
        None => None,
    }
}

/// Classify an OSM way into a [`BuildingSubtype`] using its tags and its
/// normalised brand or operator.
///
/// Decision order, highest priority first: explicit transport tags (which
/// trump `building=`); civic, health, education and food `amenity=*`;
/// tourism, leisure and office; shops; `healthcare=*`; industrial and utility
/// tags; the `building=` value; `historic=*`; and finally `Unknown`.
pub fn classify(way: &ProcessedWay) -> (s: BuildingSemantic)
    ensures
        is_semantic_of(s, way.tags@),
{
    let tags = &way.tags;
    let brand_raw: Option<String> = match tags.get("brand") {
        Some(b) => Some(b.clone()),
        None => cloned(tags.get("operator")),
    };
    let brand_key: Option<String> = match &brand_raw {
        Some(b) => Some(normalize_brand(b.as_str())),
        None => None,
    };
    let name = cloned(tags.get("name"));
    let operator = cloned(tags.get("operator"));
    let mut detected = DetectedFrom {
        primary_tag: None,
        name,
        brand: brand_raw.clone(),
        operator,
        context_clues: Vec::new(),
    };
    let brand_key_str: Option<&str> = match &brand_key {
        Some(k) => Some(k.as_str()),
        None => None,
    };
    proof {
        assert(str_option_view(brand_key_str) == way_brand_key(tags@));
        assert(string_views(detected.context_clues@) =~= Seq::<Seq<char>>::empty());
    }
    if let Some((sub, primary, conf)) = classify_inner(tags, brand_key_str, &mut detected) {
        detected.primary_tag = Some(primary);
        BuildingSemantic { subtype: sub, confidence: conf, brand_key, detected_from: detected }
    } else {
        BuildingSemantic {
            subtype: BuildingSubtype::Unknown,
            confidence: 0,
            brand_key,
            detected_from: detected,
        }
    }
}

/// The classification of `tags` for the brand key `brand_key`, recording
/// the clue `building=yes` in `detected` when no tag decides and the
/// building value is `yes`. Always returns `Some`.
pub fn classify_inner(tags: &Tags, brand_key: Option<&str>, detected: &mut DetectedFrom) -> (r: Option<
    Verdict,
>)
    ensures
        r matches Some(c) && classification_view(c) == classify_tags(
            tags@,
            str_option_view(brand_key),
        ),
        final(detected).primary_tag == old(detected).primary_tag,
        final(detected).name == old(detected).name,
        final(detected).brand == old(detected).brand,
        final(detected).operator == old(detected).operator,
        string_views(final(detected).context_clues@) == (if notes_building_yes(
            tags@,
            str_option_view(brand_key),
        ) {
            string_views(old(detected).context_clues@).push("building=yes"@)
        } else {
            string_views(old(detected).context_clues@)
        }),
{
    if let Some(c) = transport_classification(tags) {
        return Some(c);
    }
    if let Some(c) = civic_classification(tags, brand_key) {
        return Some(c);
    }
    if let Some(c) = leisure_classification(tags) {
        return Some(c);
    }
    if let Some(c) = retail_classification(tags, brand_key) {
        return Some(c);
    }
    if let Some(c) = healthcare_classification(tags) {
        return Some(c);
    }
    if let Some(c) = industrial_classification(tags) {
        return Some(c);
    }
    let building = building_type_of(tags);
    if let Some(c) = building_value_classification(building) {
        return Some(c);
    }
    if str_eq(building, "yes") {
        let clue = String::from_str("building=yes");
        detected.context_clues.push(clue);
        proof {
            assert(string_views(detected.context_clues@) =~= string_views(
                old(detected).context_clues@,
            ).push("building=yes"@));
        }
    }
    if let Some(h) = tags.get("historic") {
        return classified_as(BuildingSubtype::HistoricBuilding, "historic", h.as_str(), 85);
    }
    classified_as(BuildingSubtype::Unknown, "building", "yes", 20)
}

/// Brand keys of chains that run hypermarkets.
pub open spec fn hypermarket_chain(brand: Option<Seq<char>>) -> bool {
    match brand {
        Some(b) => b == "auchan"@ || b == "ashan"@ || b == "lenta"@ || b == "okay"@ || b == "okei"@
            || b == "metro"@ || b == "selgros"@ || b == "globus"@ || b == "carrefour"@ || b
            == "tesco"@ || b == "walmart"@ || b == "costco"@,
        None => false,
    }
}

/// Brand keys of burger chains.
pub open spec fn burger_chain(brand: Option<Seq<char>>) -> bool {
    match brand {
        Some(b) => b == "burger_king"@ || b == "kfc"@ || b == "rostic_s"@ || b == "rostics"@ || b
            == "vkusno_i_tochka"@ || b == "mcdonald_s"@ || b == "mcdonalds"@ || b == "wendys"@
            || b == "wendy_s"@,
        None => false,
    }
}

/// Brand keys of pizza chains.
pub open spec fn pizza_chain(brand: Option<Seq<char>>) -> bool {
    match brand {
        Some(b) => b == "dodo_pizza"@ || b == "papa_john_s"@ || b == "papa_johns"@ || b
            == "domino_s_pizza"@ || b == "dominos_pizza"@ || b == "pizza_hut"@,
        None => false,
    }
}

/// Brand keys of coffee chains.
pub open spec fn coffee_chain(brand: Option<Seq<char>>) -> bool {
    match brand {
        Some(b) => b == "starbucks"@ || b == "stars_coffee"@ || b == "coffix"@ || b
            == "shokoladnitsa"@ || b == "kofeinya"@ || b == "cofix"@ || b == "tim_hortons"@ || b
            == "costa_coffee"@,
        None => false,
    }
}

/// Brand families used to tell `shop=supermarket` apart from hypermarkets
/// (OSM tagging is inconsistent here, so known brand size promotes).
fn brand_is_hypermarket(brand: Option<&str>) -> (r: bool)
    ensures
        r == hypermarket_chain(str_option_view(brand)),
{
    match brand {
        Some(b) => str_eq(b, "auchan") || str_eq(b, "ashan") || str_eq(b, "lenta") || str_eq(
            b,
            "okay",
        ) || str_eq(b, "okei") || str_eq(b, "metro") || str_eq(b, "selgros") || str_eq(
            b,
            "globus",
        ) || str_eq(b, "carrefour") || str_eq(b, "tesco") || str_eq(b, "walmart") || str_eq(
            b,
            "costco",
        ),
        None => false,
    }
}

/// Burger chains, which turn a restaurant or fast food place into a burger
/// restaurant.
fn brand_is_burger_chain(brand: Option<&str>) -> (r: bool)
    ensures
        r == burger_chain(str_option_view(brand)),
{
    match brand {
        Some(b) => str_eq(b, "burger_king") || str_eq(b, "kfc") || str_eq(b, "rostic_s") || str_eq(
            b,
            "rostics",
        ) || str_eq(b, "vkusno_i_tochka") || str_eq(b, "mcdonald_s") || str_eq(b, "mcdonalds")
            || str_eq(b, "wendys") || str_eq(b, "wendy_s"),
        None => false,
    }
}

/// Pizza chains, which turn a restaurant or fast food place into a pizza
/// restaurant.
fn brand_is_pizza_chain(brand: Option<&str>) -> (r: bool)
    ensures
        r == pizza_chain(str_option_view(brand)),
{
    match brand {
        Some(b) => str_eq(b, "dodo_pizza") || str_eq(b, "papa_john_s") || str_eq(b, "papa_johns")
            || str_eq(b, "domino_s_pizza") || str_eq(b, "dominos_pizza") || str_eq(b, "pizza_hut"),
        None => false,
    }
}

/// Coffee chains, which turn a cafe into a coffee shop.
fn brand_is_coffee_chain(brand: Option<&str>) -> (r: bool)
    ensures
        r == coffee_chain(str_option_view(brand)),
{
    match brand {
        Some(b) => str_eq(b, "starbucks") || str_eq(b, "stars_coffee") || str_eq(b, "coffix")
            || str_eq(b, "shokoladnitsa") || str_eq(b, "kofeinya") || str_eq(b, "cofix") || str_eq(
            b,
            "tim_hortons",
        ) || str_eq(b, "costa_coffee"),
        None => false,
    }
}

/// Step 1: explicit transport infrastructure, which overrides `building=`.
pub open spec fn transport_class(t: Map<Seq<char>, Seq<char>>) -> Option<Classification> {
    let by_amenity = match tag(t, "amenity"@) {
        Some(v) => {
            if v == "fuel"@ {
                classified(BuildingSubtype::GasStation, "amenity"@, v, 100)
            } else if v == "car_wash"@ {
                classified(BuildingSubtype::CarWash, "amenity"@, v, 100)
            } else if (v == "parking"@ || v == "parking_entrance"@) && (tag(t, "parking"@) == Some(
                "multi-storey"@,
            ) || tag(t, "building"@) == Some("parking"@)) {
                classified(BuildingSubtype::ParkingGarage, "amenity"@, v, 90)
            } else if v == "bus_station"@ {
                classified(BuildingSubtype::BusStation, "amenity"@, v, 100)
            } else {
                None
            }
        },
        None => None,
    };
    let by_railway = match tag(t, "railway"@) {
        Some(v) => {
            if v == "station"@ {
                if tag(t, "station"@) == Some("subway"@) || tag(t, "subway"@) == Some("yes"@) {
                    classified(BuildingSubtype::MetroStation, "railway"@, v, 100)
                } else if tag(t, "tram"@) == Some("yes"@) || tag(t, "station"@) == Some("tram"@) {
                    classified(BuildingSubtype::TramStation, "railway"@, v, 100)
                } else {
                    classified(BuildingSubtype::RailwayStation, "railway"@, v, 100)
                }
            } else if v == "halt"@ {
                classified(BuildingSubtype::RailwayHalt, "railway"@, v, 100)
            } else if v == "subway_entrance"@ {
                classified(BuildingSubtype::MetroEntrance, "railway"@, v, 100)
            } else if v == "tram_stop"@ {
                classified(BuildingSubtype::TramStation, "railway"@, v, 85)
            } else {
                None
            }
        },
        None => None,
    };
    if by_amenity is Some {
        by_amenity
    } else if by_railway is Some {
        by_railway
    } else if tag(t, "aeroway"@) == Some("terminal"@) {
        classified(BuildingSubtype::AirportTerminal, "aeroway"@, "terminal"@, 100)
    } else if tag(t, "public_transport"@) == Some("station"@) {
        classified(BuildingSubtype::TransportHub, "public_transport"@, "station"@, 85)
    } else {
        None
    }
}

/// Step 2: civic, health, education, worship, culture and food `amenity=*` values; brands pick chains.
pub open spec fn civic_class(t: Map<Seq<char>, Seq<char>>, brand: Option<Seq<char>>) -> Option<
    Classification,
> {
    let by_amenity = match tag(t, "amenity"@) {
        Some(v) => {
            if v == "hospital"@ {
                classified(BuildingSubtype::Hospital, "amenity"@, v, 100)
            } else if v == "clinic"@ {
                classified(BuildingSubtype::Clinic, "amenity"@, v, 100)
            } else if v == "doctors"@ {
                classified(BuildingSubtype::MedicalCenter, "amenity"@, v, 90)
            } else if v == "dentist"@ {
                classified(BuildingSubtype::DentalClinic, "amenity"@, v, 100)
            } else if v == "veterinary"@ {
                classified(BuildingSubtype::VeterinaryClinic, "amenity"@, v, 100)
            } else if v == "pharmacy"@ {
                classified(BuildingSubtype::Pharmacy, "amenity"@, v, 100)
            } else if v == "school"@ {
                classified(BuildingSubtype::School, "amenity"@, v, 100)
            } else if v == "kindergarten"@ || v == "childcare"@ {
                classified(BuildingSubtype::Kindergarten, "amenity"@, v, 100)
            } else if v == "college"@ {
                classified(BuildingSubtype::College, "amenity"@, v, 100)
            } else if v == "university"@ {
                classified(BuildingSubtype::University, "amenity"@, v, 100)
            } else if v == "library"@ {
                classified(BuildingSubtype::Library, "amenity"@, v, 100)
            } else if v == "training"@ || v == "driving_school"@ || v == "language_school"@ || v
                == "music_school"@ {
                classified(BuildingSubtype::TrainingCenter, "amenity"@, v, 85)
            } else if v == "police"@ {
                classified(BuildingSubtype::PoliceStation, "amenity"@, v, 100)
            } else if v == "fire_station"@ {
                classified(BuildingSubtype::FireStation, "amenity"@, v, 100)
            } else if v == "courthouse"@ {
                classified(BuildingSubtype::Courthouse, "amenity"@, v, 100)
            } else if v == "townhall"@ {
                classified(BuildingSubtype::MunicipalBuilding, "amenity"@, v, 100)
            } else if v == "post_office"@ {
                classified(BuildingSubtype::PostOffice, "amenity"@, v, 100)
            } else if v == "bank"@ || v == "bureau_de_change"@ {
                classified(BuildingSubtype::Bank, "amenity"@, v, 100)
            } else if v == "social_facility"@ || v == "social_centre"@ {
                classified(BuildingSubtype::SocialServiceCenter, "amenity"@, v, 85)
            } else if v == "place_of_worship"@ {
                {
                    let religion = match tag(t, "religion"@) {
                        Some(r) => r,
                        None => ""@,
                    };
                    let denomination = match tag(t, "denomination"@) {
                        Some(d) => d,
                        None => ""@,
                    };
                    if religion == "muslim"@ {
                        classified(BuildingSubtype::Mosque, "amenity"@, v, 100)
                    } else if religion == "jewish"@ {
                        classified(BuildingSubtype::Synagogue, "amenity"@, v, 100)
                    } else if religion == "buddhist"@ || religion == "hindu"@ || religion
                        == "shinto"@ || religion == "taoist"@ {
                        classified(BuildingSubtype::Temple, "amenity"@, v, 100)
                    } else if religion == "christian"@ && denomination == "monastic"@ {
                        classified(BuildingSubtype::Monastery, "amenity"@, v, 90)
                    } else if religion == "christian"@ {
                        classified(BuildingSubtype::Church, "amenity"@, v, 100)
                    } else {
                        classified(BuildingSubtype::Church, "amenity"@, v, 60)
                    }
                }
            } else if v == "cinema"@ {
                classified(BuildingSubtype::Cinema, "amenity"@, v, 100)
            } else if v == "theatre"@ {
                classified(BuildingSubtype::Theater, "amenity"@, v, 100)
            } else if v == "arts_centre"@ || v == "community_centre"@ {
                classified(BuildingSubtype::CulturalCenter, "amenity"@, v, 90)
            } else if v == "exhibition_centre"@ {
                classified(BuildingSubtype::ExhibitionHall, "amenity"@, v, 100)
            } else if v == "toilets"@ {
                classified(BuildingSubtype::PublicToilet, "amenity"@, v, 100)
            } else if v == "cafe"@ {
                if coffee_chain(brand) {
                    classified(BuildingSubtype::CoffeeShop, "amenity"@, v, 95)
                } else {
                    classified(BuildingSubtype::Cafe, "amenity"@, v, 95)
                }
            } else if v == "restaurant"@ {
                if burger_chain(brand) {
                    classified(BuildingSubtype::BurgerRestaurant, "amenity"@, v, 100)
                } else if pizza_chain(brand) {
                    classified(BuildingSubtype::PizzaRestaurant, "amenity"@, v, 100)
                } else {
                    classified(BuildingSubtype::Restaurant, "amenity"@, v, 95)
                }
            } else if v == "fast_food"@ {
                if burger_chain(brand) {
                    classified(BuildingSubtype::BurgerRestaurant, "amenity"@, v, 100)
                } else if pizza_chain(brand) {
                    classified(BuildingSubtype::PizzaRestaurant, "amenity"@, v, 100)
                } else {
                    classified(BuildingSubtype::FastFood, "amenity"@, v, 100)
                }
            } else if v == "food_court"@ {
                classified(BuildingSubtype::FoodCourt, "amenity"@, v, 100)
            } else if v == "bar"@ || v == "pub"@ {
                classified(BuildingSubtype::Restaurant, "amenity"@, v, 70)
            } else {
                None
            }
        },
        None => None,
    };
    by_amenity
}

/// Step 3: tourism, leisure and office tags.
pub open spec fn leisure_class(t: Map<Seq<char>, Seq<char>>) -> Option<Classification> {
    let by_tourism = match tag(t, "tourism"@) {
        Some(v) => {
            if v == "hotel"@ {
                classified(BuildingSubtype::Hotel, "tourism"@, v, 100)
            } else if v == "motel"@ {
                classified(BuildingSubtype::Motel, "tourism"@, v, 100)
            } else if v == "guest_house"@ {
                classified(BuildingSubtype::GuestHouse, "tourism"@, v, 100)
            } else if v == "hostel"@ {
                classified(BuildingSubtype::Hostel, "tourism"@, v, 100)
            } else if v == "museum"@ {
                classified(BuildingSubtype::Museum, "tourism"@, v, 100)
            } else {
                None
            }
        },
        None => None,
    };
    let by_leisure = match tag(t, "leisure"@) {
        Some(v) => {
            if v == "sports_centre"@ || v == "sports_hall"@ {
                classified(BuildingSubtype::SportsHall, "leisure"@, v, 100)
            } else if v == "stadium"@ {
                classified(BuildingSubtype::Stadium, "leisure"@, v, 100)
            } else if v == "swimming_pool"@ {
                classified(BuildingSubtype::SwimmingPool, "leisure"@, v, 95)
            } else if v == "fitness_centre"@ {
                classified(BuildingSubtype::FitnessCenter, "leisure"@, v, 100)
            } else {
                None
            }
        },
        None => None,
    };
    if by_tourism is Some {
        by_tourism
    } else if by_leisure is Some {
        by_leisure
    } else if t.contains_key("office"@) {
        classified(BuildingSubtype::Office, "office"@, "*"@, 90)
    } else {
        None
    }
}

/// Step 6: industrial and utility tags.
pub open spec fn industrial_class(t: Map<Seq<char>, Seq<char>>) -> Option<Classification> {
    let by_man_made = match tag(t, "man_made"@) {
        Some(v) => {
            if v == "works"@ {
                classified(BuildingSubtype::Factory, "man_made"@, v, 90)
            } else if v == "wastewater_plant"@ || v == "water_works"@ {
                classified(BuildingSubtype::WaterTreatment, "man_made"@, v, 100)
            } else if v == "transformer_station"@ {
                classified(BuildingSubtype::TransformerStation, "man_made"@, v, 100)
            } else {
                None
            }
        },
        None => None,
    };
    let by_industrial = match tag(t, "industrial"@) {
        Some(v) => {
            if v == "factory"@ {
                classified(BuildingSubtype::Factory, "industrial"@, v, 95)
            } else if v == "warehouse"@ {
                classified(BuildingSubtype::Warehouse, "industrial"@, v, 95)
            } else if v == "depot"@ {
                classified(BuildingSubtype::Depot, "industrial"@, v, 95)
            } else {
                classified(BuildingSubtype::IndustrialBuilding, "industrial"@, v, 85)
            }
        },
        None => None,
    };
    if by_man_made is Some {
        by_man_made
    } else if tag(t, "power"@) == Some("substation"@) || tag(t, "power"@) == Some("plant"@) {
        classified(BuildingSubtype::PowerFacility, "power"@, "*"@, 100)
    } else {
        by_industrial
    }
}

/// Steps 7 and 8: the `building=*` (or `building:part=*`) value: places of worship first,
/// then residential, industrial, agricultural, civic and other kinds.
pub open spec fn building_value_class(v: Seq<char>) -> Option<Classification> {
    if v == "church"@ || v == "cathedral"@ {
        classified(BuildingSubtype::Church, "building"@, v, 100)
    } else if v == "chapel"@ {
        classified(BuildingSubtype::Chapel, "building"@, v, 100)
    } else if v == "mosque"@ {
        classified(BuildingSubtype::Mosque, "building"@, v, 100)
    } else if v == "synagogue"@ {
        classified(BuildingSubtype::Synagogue, "building"@, v, 100)
    } else if v == "temple"@ {
        classified(BuildingSubtype::Temple, "building"@, v, 100)
    } else if v == "monastery"@ {
        classified(BuildingSubtype::Monastery, "building"@, v, 100)
    } else if v == "house"@ {
        classified(BuildingSubtype::DetachedHouse, "building"@, "house"@, 95)
    } else if v == "detached"@ {
        classified(BuildingSubtype::DetachedHouse, "building"@, "detached"@, 100)
    } else if v == "semidetached_house"@ {
        classified(BuildingSubtype::SemiDetachedHouse, "building"@, v, 100)
    } else if v == "terrace"@ {
        classified(BuildingSubtype::Townhouse, "building"@, "terrace"@, 100)
    } else if v == "bungalow"@ || v == "cottage"@ {
        classified(BuildingSubtype::Cottage, "building"@, v, 100)
    } else if v == "cabin"@ || v == "hut"@ || v == "static_caravan"@ {
        classified(BuildingSubtype::RuralHouse, "building"@, v, 85)
    } else if v == "apartments"@ {
        classified(BuildingSubtype::Apartments, "building"@, "apartments"@, 100)
    } else if v == "residential"@ {
        classified(BuildingSubtype::ResidentialBlock, "building"@, "residential"@, 95)
    } else if v == "dormitory"@ {
        classified(BuildingSubtype::Dormitory, "building"@, "dormitory"@, 100)
    } else if v == "hostel"@ {
        classified(BuildingSubtype::Hostel, "building"@, "hostel"@, 100)
    } else if v == "industrial"@ || v == "manufacture"@ {
        classified(BuildingSubtype::IndustrialBuilding, "building"@, v, 95)
    } else if v == "factory"@ {
        classified(BuildingSubtype::Factory, "building"@, "factory"@, 100)
    } else if v == "warehouse"@ {
        classified(BuildingSubtype::Warehouse, "building"@, "warehouse"@, 100)
    } else if v == "hangar"@ {
        classified(BuildingSubtype::Depot, "building"@, "hangar"@, 85)
    } else if v == "barn"@ {
        classified(BuildingSubtype::Barn, "building"@, "barn"@, 100)
    } else if v == "stable"@ || v == "cowshed"@ || v == "sty"@ || v == "sheepfold"@ {
        classified(BuildingSubtype::Stable, "building"@, v, 95)
    } else if v == "farm"@ || v == "farm_auxiliary"@ {
        classified(BuildingSubtype::FarmBuilding, "building"@, v, 95)
    } else if v == "greenhouse"@ || v == "glasshouse"@ {
        classified(BuildingSubtype::Greenhouse, "building"@, v, 100)
    } else if v == "shed"@ {
        classified(BuildingSubtype::StorageShed, "building"@, "shed"@, 85)
    } else if v == "garage"@ || v == "garages"@ || v == "carport"@ {
        classified(BuildingSubtype::CarService, "building"@, v, 60)
    } else if v == "school"@ || v == "kindergarten"@ {
        if v == "kindergarten"@ {
            classified(BuildingSubtype::Kindergarten, "building"@, v, 100)
        } else {
            classified(BuildingSubtype::School, "building"@, v, 100)
        }
    } else if v == "college"@ {
        classified(BuildingSubtype::College, "building"@, "college"@, 100)
    } else if v == "university"@ {
        classified(BuildingSubtype::University, "building"@, "university"@, 100)
    } else if v == "hospital"@ {
        classified(BuildingSubtype::Hospital, "building"@, "hospital"@, 100)
    } else if v == "hotel"@ {
        classified(BuildingSubtype::Hotel, "building"@, "hotel"@, 100)
    } else if v == "motel"@ {
        classified(BuildingSubtype::Motel, "building"@, "motel"@, 100)
    } else if v == "office"@ {
        classified(BuildingSubtype::Office, "building"@, "office"@, 100)
    } else if v == "commercial"@ || v == "retail"@ || v == "supermarket"@ || v == "shop"@ {
        if v == "supermarket"@ {
            classified(BuildingSubtype::Supermarket, "building"@, v, 80)
        } else {
            classified(BuildingSubtype::RetailStore, "building"@, v, 80)
        }
    } else if v == "kiosk"@ {
        classified(BuildingSubtype::Kiosk, "building"@, "kiosk"@, 100)
    } else if v == "transportation"@ || v == "train_station"@ {
        classified(BuildingSubtype::RailwayStation, "building"@, v, 90)
    } else if v == "service"@ {
        classified(BuildingSubtype::ServiceBuilding, "building"@, "service"@, 60)
    } else if v == "construction"@ || v == "ruins"@ {
        classified(BuildingSubtype::AbandonedBuilding, "building"@, v, 90)
    } else if v == "castle"@ || v == "fort"@ || v == "bunker"@ {
        classified(BuildingSubtype::HistoricBuilding, "building"@, v, 100)
    } else if v == "tower"@ || v == "clock_tower"@ || v == "transformer_tower"@ {
        classified(BuildingSubtype::MonumentSupportBuilding, "building"@, v, 90)
    } else if v == "public"@ || v == "civic"@ || v == "government"@ {
        classified(BuildingSubtype::GovernmentOffice, "building"@, v, 85)
    } else {
        None
    }
}

/// Step 1 of the classification on executable tags.
fn transport_classification(tags: &Tags) -> (r: Option<Verdict>)
    ensures
        classification_option_view(r) == transport_class(tags@),
{
    if let Some(value) = tags.get("amenity") {
        let v = value.as_str();
        if str_eq(v, "fuel") {
            return classified_as(BuildingSubtype::GasStation, "amenity", v, 100);
        }
        if str_eq(v, "car_wash") {
            return classified_as(BuildingSubtype::CarWash, "amenity", v, 100);
        }
        if (str_eq(v, "parking") || str_eq(v, "parking_entrance")) && (tag_is(
            tags,
            "parking",
            "multi-storey",
        ) || tag_is(tags, "building", "parking")) {
            return classified_as(BuildingSubtype::ParkingGarage, "amenity", v, 90);
        }
        if str_eq(v, "bus_station") {
            return classified_as(BuildingSubtype::BusStation, "amenity", v, 100);
        }
    }
    if let Some(value) = tags.get("railway") {
        let v = value.as_str();
        if str_eq(v, "station") {
            let is_subway = tag_is(tags, "station", "subway") || tag_is(tags, "subway", "yes");
            let is_tram = tag_is(tags, "tram", "yes") || tag_is(tags, "station", "tram");
            if is_subway {
                return classified_as(BuildingSubtype::MetroStation, "railway", v, 100);
            }
            if is_tram {
                return classified_as(BuildingSubtype::TramStation, "railway", v, 100);
            }
            return classified_as(BuildingSubtype::RailwayStation, "railway", v, 100);
        }
        if str_eq(v, "halt") {
            return classified_as(BuildingSubtype::RailwayHalt, "railway", v, 100);
        }
        if str_eq(v, "subway_entrance") {
            return classified_as(BuildingSubtype::MetroEntrance, "railway", v, 100);
        }
        if str_eq(v, "tram_stop") {
            return classified_as(BuildingSubtype::TramStation, "railway", v, 85);
        }
    }
    if tag_is(tags, "aeroway", "terminal") {
        return classified_as(BuildingSubtype::AirportTerminal, "aeroway", "terminal", 100);
    }
    if tag_is(tags, "public_transport", "station") {
        return classified_as(BuildingSubtype::TransportHub, "public_transport", "station", 85);
    }
    None
}

/// Step 2 of the classification on executable tags.
fn civic_classification(tags: &Tags, brand_key: Option<&str>) -> (r: Option<Verdict>)
    ensures
        classification_option_view(r) == civic_class(tags@, str_option_view(brand_key)),
{
    if let Some(value) = tags.get("amenity") {
        let v = value.as_str();
        if str_eq(v, "hospital") {
            return classified_as(BuildingSubtype::Hospital, "amenity", v, 100);
        }
        if str_eq(v, "clinic") {
            return classified_as(BuildingSubtype::Clinic, "amenity", v, 100);
        }
        if str_eq(v, "doctors") {
            return classified_as(BuildingSubtype::MedicalCenter, "amenity", v, 90);
        }
        if str_eq(v, "dentist") {
            return classified_as(BuildingSubtype::DentalClinic, "amenity", v, 100);
        }
        if str_eq(v, "veterinary") {
            return classified_as(BuildingSubtype::VeterinaryClinic, "amenity", v, 100);
        }
        if str_eq(v, "pharmacy") {
            return classified_as(BuildingSubtype::Pharmacy, "amenity", v, 100);
        }
        if str_eq(v, "school") {
            return classified_as(BuildingSubtype::School, "amenity", v, 100);
        }
        if str_eq(v, "kindergarten") || str_eq(v, "childcare") {
            return classified_as(BuildingSubtype::Kindergarten, "amenity", v, 100);
        }
        if str_eq(v, "college") {
            return classified_as(BuildingSubtype::College, "amenity", v, 100);
        }
        if str_eq(v, "university") {
            return classified_as(BuildingSubtype::University, "amenity", v, 100);
        }
        if str_eq(v, "library") {
            return classified_as(BuildingSubtype::Library, "amenity", v, 100);
        }
        if str_eq(v, "training") || str_eq(v, "driving_school") || str_eq(v, "language_school")
            || str_eq(v, "music_school") {
            return classified_as(BuildingSubtype::TrainingCenter, "amenity", v, 85);
        }
        if str_eq(v, "police") {
            return classified_as(BuildingSubtype::PoliceStation, "amenity", v, 100);
        }
        if str_eq(v, "fire_station") {
            return classified_as(BuildingSubtype::FireStation, "amenity", v, 100);
        }
        if str_eq(v, "courthouse") {
            return classified_as(BuildingSubtype::Courthouse, "amenity", v, 100);
        }
        if str_eq(v, "townhall") {
            return classified_as(BuildingSubtype::MunicipalBuilding, "amenity", v, 100);
        }
        if str_eq(v, "post_office") {
            return classified_as(BuildingSubtype::PostOffice, "amenity", v, 100);
        }
        if str_eq(v, "bank") || str_eq(v, "bureau_de_change") {
            return classified_as(BuildingSubtype::Bank, "amenity", v, 100);
        }
        if str_eq(v, "social_facility") || str_eq(v, "social_centre") {
            return classified_as(BuildingSubtype::SocialServiceCenter, "amenity", v, 85);
        }
        if str_eq(v, "place_of_worship") {
            let religion: &str = match tags.get("religion") {
                Some(r) => r.as_str(),
                None => "",
            };
            let denomination: &str = match tags.get("denomination") {
                Some(d) => d.as_str(),
                None => "",
            };
            if str_eq(religion, "muslim") {
                return classified_as(BuildingSubtype::Mosque, "amenity", v, 100);
            }
            if str_eq(religion, "jewish") {
                return classified_as(BuildingSubtype::Synagogue, "amenity", v, 100);
            }
            if str_eq(religion, "buddhist") || str_eq(religion, "hindu") || str_eq(religion, "shinto")
                || str_eq(religion, "taoist") {
                return classified_as(BuildingSubtype::Temple, "amenity", v, 100);
            }
            if str_eq(religion, "christian") && str_eq(denomination, "monastic") {
                return classified_as(BuildingSubtype::Monastery, "amenity", v, 90);
            }
            if str_eq(religion, "christian") {
                return classified_as(BuildingSubtype::Church, "amenity", v, 100);
            }
            return classified_as(BuildingSubtype::Church, "amenity", v, 60);
        }
        if str_eq(v, "cinema") {
            return classified_as(BuildingSubtype::Cinema, "amenity", v, 100);
        }
        if str_eq(v, "theatre") {
            return classified_as(BuildingSubtype::Theater, "amenity", v, 100);
        }
        if str_eq(v, "arts_centre") || str_eq(v, "community_centre") {
            return classified_as(BuildingSubtype::CulturalCenter, "amenity", v, 90);
        }
        if str_eq(v, "exhibition_centre") {
            return classified_as(BuildingSubtype::ExhibitionHall, "amenity", v, 100);
        }
        if str_eq(v, "toilets") {
            return classified_as(BuildingSubtype::PublicToilet, "amenity", v, 100);
        }
        if str_eq(v, "cafe") {
            if brand_is_coffee_chain(brand_key) {
                return classified_as(BuildingSubtype::CoffeeShop, "amenity", v, 95);
            }
            return classified_as(BuildingSubtype::Cafe, "amenity", v, 95);
        }
        if str_eq(v, "restaurant") {
            if brand_is_burger_chain(brand_key) {
                return classified_as(BuildingSubtype::BurgerRestaurant, "amenity", v, 100);
            }
            if brand_is_pizza_chain(brand_key) {
                return classified_as(BuildingSubtype::PizzaRestaurant, "amenity", v, 100);
            }
            return classified_as(BuildingSubtype::Restaurant, "amenity", v, 95);
        }
        if str_eq(v, "fast_food") {
            if brand_is_burger_chain(brand_key) {
                return classified_as(BuildingSubtype::BurgerRestaurant, "amenity", v, 100);
            }
            if brand_is_pizza_chain(brand_key) {
                return classified_as(BuildingSubtype::PizzaRestaurant, "amenity", v, 100);
            }
            return classified_as(BuildingSubtype::FastFood, "amenity", v, 100);
        }
        if str_eq(v, "food_court") {
            return classified_as(BuildingSubtype::FoodCourt, "amenity", v, 100);
        }
        if str_eq(v, "bar") || str_eq(v, "pub") {
            return classified_as(BuildingSubtype::Restaurant, "amenity", v, 70);
        }
    }
    None
}

/// Step 3 of the classification on executable tags.
fn leisure_classification(tags: &Tags) -> (r: Option<Verdict>)
    ensures
        classification_option_view(r) == leisure_class(tags@),
{
    if let Some(value) = tags.get("tourism") {
        let v = value.as_str();
        if str_eq(v, "hotel") {
            return classified_as(BuildingSubtype::Hotel, "tourism", v, 100);
        }
        if str_eq(v, "motel") {
            return classified_as(BuildingSubtype::Motel, "tourism", v, 100);
        }
        if str_eq(v, "guest_house") {
            return classified_as(BuildingSubtype::GuestHouse, "tourism", v, 100);
        }
        if str_eq(v, "hostel") {
            return classified_as(BuildingSubtype::Hostel, "tourism", v, 100);
        }
        if str_eq(v, "museum") {
            return classified_as(BuildingSubtype::Museum, "tourism", v, 100);
        }
    }
    if let Some(value) = tags.get("leisure") {
        let v = value.as_str();
        if str_eq(v, "sports_centre") || str_eq(v, "sports_hall") {
            return classified_as(BuildingSubtype::SportsHall, "leisure", v, 100);
        }
        if str_eq(v, "stadium") {
            return classified_as(BuildingSubtype::Stadium, "leisure", v, 100);
        }
        if str_eq(v, "swimming_pool") {
            return classified_as(BuildingSubtype::SwimmingPool, "leisure", v, 95);
        }
        if str_eq(v, "fitness_centre") {
            return classified_as(BuildingSubtype::FitnessCenter, "leisure", v, 100);
        }
    }
    if tags.contains_key("office") {
        return classified_as(BuildingSubtype::Office, "office", "*", 90);
    }
    None
}

/// Step 6 of the classification on executable tags.
fn industrial_classification(tags: &Tags) -> (r: Option<Verdict>)
    ensures
        classification_option_view(r) == industrial_class(tags@),
{
    if let Some(value) = tags.get("man_made") {
        let v = value.as_str();
        if str_eq(v, "works") {
            return classified_as(BuildingSubtype::Factory, "man_made", v, 90);
        }
        if str_eq(v, "wastewater_plant") || str_eq(v, "water_works") {
            return classified_as(BuildingSubtype::WaterTreatment, "man_made", v, 100);
        }
        if str_eq(v, "transformer_station") {
            return classified_as(BuildingSubtype::TransformerStation, "man_made", v, 100);
        }
    }
    if tag_is(tags, "power", "substation") || tag_is(tags, "power", "plant") {
        return classified_as(BuildingSubtype::PowerFacility, "power", "*", 100);
    }
    if let Some(value) = tags.get("industrial") {
        let v = value.as_str();
        if str_eq(v, "factory") {
            return classified_as(BuildingSubtype::Factory, "industrial", v, 95);
        }
        if str_eq(v, "warehouse") {
            return classified_as(BuildingSubtype::Warehouse, "industrial", v, 95);
        }
        if str_eq(v, "depot") {
            return classified_as(BuildingSubtype::Depot, "industrial", v, 95);
        }
        {
            return classified_as(BuildingSubtype::IndustrialBuilding, "industrial", v, 85);
        }
    }
    None
}

/// Steps 7 and 8 of the classification on an executable building value.
fn building_value_classification(v: &str) -> (r: Option<Verdict>)
    ensures
        classification_option_view(r) == building_value_class(v@),
{
    if str_eq(v, "church") || str_eq(v, "cathedral") {
        return classified_as(BuildingSubtype::Church, "building", v, 100);
    }
    if str_eq(v, "chapel") {
        return classified_as(BuildingSubtype::Chapel, "building", v, 100);
    }
    if str_eq(v, "mosque") {
        return classified_as(BuildingSubtype::Mosque, "building", v, 100);
    }
    if str_eq(v, "synagogue") {
        return classified_as(BuildingSubtype::Synagogue, "building", v, 100);
    }
    if str_eq(v, "temple") {
        return classified_as(BuildingSubtype::Temple, "building", v, 100);
    }
    if str_eq(v, "monastery") {
        return classified_as(BuildingSubtype::Monastery, "building", v, 100);
    }
    if str_eq(v, "house") {
        return classified_as(BuildingSubtype::DetachedHouse, "building", "house", 95);
    }
    if str_eq(v, "detached") {
        return classified_as(BuildingSubtype::DetachedHouse, "building", "detached", 100);
    }
    if str_eq(v, "semidetached_house") {
        return classified_as(BuildingSubtype::SemiDetachedHouse, "building", v, 100);
    }
    if str_eq(v, "terrace") {
        return classified_as(BuildingSubtype::Townhouse, "building", "terrace", 100);
    }
    if str_eq(v, "bungalow") || str_eq(v, "cottage") {
        return classified_as(BuildingSubtype::Cottage, "building", v, 100);
    }
    if str_eq(v, "cabin") || str_eq(v, "hut") || str_eq(v, "static_caravan") {
        return classified_as(BuildingSubtype::RuralHouse, "building", v, 85);
    }
    if str_eq(v, "apartments") {
        return classified_as(BuildingSubtype::Apartments, "building", "apartments", 100);
    }
    if str_eq(v, "residential") {
        return classified_as(BuildingSubtype::ResidentialBlock, "building", "residential", 95);
    }
    if str_eq(v, "dormitory") {
        return classified_as(BuildingSubtype::Dormitory, "building", "dormitory", 100);
    }
    if str_eq(v, "hostel") {
        return classified_as(BuildingSubtype::Hostel, "building", "hostel", 100);
    }
    if str_eq(v, "industrial") || str_eq(v, "manufacture") {
        return classified_as(BuildingSubtype::IndustrialBuilding, "building", v, 95);
    }
    if str_eq(v, "factory") {
        return classified_as(BuildingSubtype::Factory, "building", "factory", 100);
    }
    if str_eq(v, "warehouse") {
        return classified_as(BuildingSubtype::Warehouse, "building", "warehouse", 100);
    }
    if str_eq(v, "hangar") {
        return classified_as(BuildingSubtype::Depot, "building", "hangar", 85);
    }
    if str_eq(v, "barn") {
        return classified_as(BuildingSubtype::Barn, "building", "barn", 100);
    }
    if str_eq(v, "stable") || str_eq(v, "cowshed") || str_eq(v, "sty") || str_eq(v, "sheepfold") {
        return classified_as(BuildingSubtype::Stable, "building", v, 95);
    }
    if str_eq(v, "farm") || str_eq(v, "farm_auxiliary") {
        return classified_as(BuildingSubtype::FarmBuilding, "building", v, 95);
    }
    if str_eq(v, "greenhouse") || str_eq(v, "glasshouse") {
        return classified_as(BuildingSubtype::Greenhouse, "building", v, 100);
    }
    if str_eq(v, "shed") {
        return classified_as(BuildingSubtype::StorageShed, "building", "shed", 85);
    }
    if str_eq(v, "garage") || str_eq(v, "garages") || str_eq(v, "carport") {
        return classified_as(BuildingSubtype::CarService, "building", v, 60);
    }
    if str_eq(v, "school") || str_eq(v, "kindergarten") {
        let s = if str_eq(v, "kindergarten") {
            BuildingSubtype::Kindergarten
        } else {
            BuildingSubtype::School
        };
        return classified_as(s, "building", v, 100);
    }
    if str_eq(v, "college") {
        return classified_as(BuildingSubtype::College, "building", "college", 100);
    }
    if str_eq(v, "university") {
        return classified_as(BuildingSubtype::University, "building", "university", 100);
    }
    if str_eq(v, "hospital") {
        return classified_as(BuildingSubtype::Hospital, "building", "hospital", 100);
    }
    if str_eq(v, "hotel") {
        return classified_as(BuildingSubtype::Hotel, "building", "hotel", 100);
    }
    if str_eq(v, "motel") {
        return classified_as(BuildingSubtype::Motel, "building", "motel", 100);
    }
    if str_eq(v, "office") {
        return classified_as(BuildingSubtype::Office, "building", "office", 100);
    }
    if str_eq(v, "commercial") || str_eq(v, "retail") || str_eq(v, "supermarket") || str_eq(v, "shop") {
        let s = if str_eq(v, "supermarket") {
            BuildingSubtype::Supermarket
        } else {
            BuildingSubtype::RetailStore
        };
        return classified_as(s, "building", v, 80);
    }
    if str_eq(v, "kiosk") {
        return classified_as(BuildingSubtype::Kiosk, "building", "kiosk", 100);
    }
    if str_eq(v, "transportation") || str_eq(v, "train_station") {
        return classified_as(BuildingSubtype::RailwayStation, "building", v, 90);
    }
    if str_eq(v, "service") {
        return classified_as(BuildingSubtype::ServiceBuilding, "building", "service", 60);
    }
    if str_eq(v, "construction") || str_eq(v, "ruins") {
        return classified_as(BuildingSubtype::AbandonedBuilding, "building", v, 90);
    }
    if str_eq(v, "castle") || str_eq(v, "fort") || str_eq(v, "bunker") {
        return classified_as(BuildingSubtype::HistoricBuilding, "building", v, 100);
    }
    if str_eq(v, "tower") || str_eq(v, "clock_tower") || str_eq(v, "transformer_tower") {
        return classified_as(BuildingSubtype::MonumentSupportBuilding, "building", v, 90);
    }
    if str_eq(v, "public") || str_eq(v, "civic") || str_eq(v, "government") {
        return classified_as(BuildingSubtype::GovernmentOffice, "building", v, 85);
    }
    None
}

/// The subtype of a `shop=*` value; `supermarket` becomes a hypermarket for
/// brands known to run hypermarkets.
pub open spec fn shop_subtype(v: Seq<char>, brand: Option<Seq<char>>) -> BuildingSubtype {
    if v == "supermarket"@ {
        if hypermarket_chain(brand) {
            BuildingSubtype::Hypermarket
        } else {
            BuildingSubtype::Supermarket
        }
    } else if v == "convenience"@ {
        BuildingSubtype::ConvenienceStore
    } else if v == "mall"@ || v == "department_store"@ {
        BuildingSubtype::ShoppingMall
    } else if v == "kiosk"@ {
        BuildingSubtype::Kiosk
    } else if v == "alcohol"@ || v == "wine"@ || v == "beverages"@ {
        BuildingSubtype::LiquorStore
    } else if v == "bakery"@ {
        BuildingSubtype::Bakery
    } else if v == "butcher"@ {
        BuildingSubtype::Butcher
    } else if v == "greengrocer"@ {
        BuildingSubtype::Greengrocer
    } else if v == "electronics"@ || v == "computer"@ || v == "mobile_phone"@ {
        BuildingSubtype::ElectronicsStore
    } else if v == "hardware"@ || v == "doityourself"@ || v == "trade"@ {
        BuildingSubtype::HardwareStore
    } else if v == "furniture"@ {
        BuildingSubtype::FurnitureStore
    } else if v == "clothes"@ || v == "fashion"@ || v == "shoes"@ {
        BuildingSubtype::ClothingStore
    } else if v == "cosmetics"@ || v == "perfumery"@ || v == "beauty"@ {
        BuildingSubtype::BeautyStore
    } else if v == "household"@ || v == "houseware"@ || v == "variety_store"@ {
        BuildingSubtype::HouseholdStore
    } else if v == "discount"@ {
        BuildingSubtype::DiscountStore
    } else if v == "general"@ || v == "yes"@ {
        BuildingSubtype::RetailStore
    } else if v == "marketplace"@ || v == "market"@ {
        BuildingSubtype::MarketHall
    } else {
        BuildingSubtype::RetailStore
    }
}

/// `shop_subtype` on executable values.
fn shop_subtype_of(v: &str, brand_key: Option<&str>) -> (s: BuildingSubtype)
    ensures
        s == shop_subtype(v@, str_option_view(brand_key)),
{
    if str_eq(v, "supermarket") {
        if brand_is_hypermarket(brand_key) {
            BuildingSubtype::Hypermarket
        } else {
            BuildingSubtype::Supermarket
        }
    } else if str_eq(v, "convenience") {
        BuildingSubtype::ConvenienceStore
    } else if str_eq(v, "mall") || str_eq(v, "department_store") {
        BuildingSubtype::ShoppingMall
    } else if str_eq(v, "kiosk") {
        BuildingSubtype::Kiosk
    } else if str_eq(v, "alcohol") || str_eq(v, "wine") || str_eq(v, "beverages") {
        BuildingSubtype::LiquorStore
    } else if str_eq(v, "bakery") {
        BuildingSubtype::Bakery
    } else if str_eq(v, "butcher") {
        BuildingSubtype::Butcher
    } else if str_eq(v, "greengrocer") {
        BuildingSubtype::Greengrocer
    } else if str_eq(v, "electronics") || str_eq(v, "computer") || str_eq(v, "mobile_phone") {
        BuildingSubtype::ElectronicsStore
    } else if str_eq(v, "hardware") || str_eq(v, "doityourself") || str_eq(v, "trade") {
        BuildingSubtype::HardwareStore
    } else if str_eq(v, "furniture") {
        BuildingSubtype::FurnitureStore
    } else if str_eq(v, "clothes") || str_eq(v, "fashion") || str_eq(v, "shoes") {
        BuildingSubtype::ClothingStore
    } else if str_eq(v, "cosmetics") || str_eq(v, "perfumery") || str_eq(v, "beauty") {
        BuildingSubtype::BeautyStore
    } else if str_eq(v, "household") || str_eq(v, "houseware") || str_eq(v, "variety_store") {
        BuildingSubtype::HouseholdStore
    } else if str_eq(v, "discount") {
        BuildingSubtype::DiscountStore
    } else if str_eq(v, "general") || str_eq(v, "yes") {
        BuildingSubtype::RetailStore
    } else if str_eq(v, "marketplace") || str_eq(v, "market") {
        BuildingSubtype::MarketHall
    } else {
        BuildingSubtype::RetailStore
    }
}

/// Step 4: shops, marketplaces and pickup points.
pub open spec fn retail_class(t: Map<Seq<char>, Seq<char>>, brand: Option<Seq<char>>) -> Option<
    Classification,
> {
    match tag(t, "shop"@) {
        Some(v) => classified(shop_subtype(v, brand), "shop"@, v, 95),
        None => if tag(t, "amenity"@) == Some("marketplace"@) {
            classified(BuildingSubtype::MarketHall, "amenity"@, "marketplace"@, 95)
        } else if tag(t, "amenity"@) == Some("vending_machine"@) || tag(t, "amenity"@) == Some(
            "parcel_locker"@,
        ) {
            classified(BuildingSubtype::PickupPoint, "amenity"@, "parcel_locker"@, 90)
        } else {
            None
        },
    }
}

/// Step 4 of the classification on executable tags.
fn retail_classification(tags: &Tags, brand_key: Option<&str>) -> (r: Option<Verdict>)
    ensures
        classification_option_view(r) == retail_class(tags@, str_option_view(brand_key)),
{
    if let Some(value) = tags.get("shop") {
        let v = value.as_str();
        return classified_as(shop_subtype_of(v, brand_key), "shop", v, 95);
    }
    if tag_is(tags, "amenity", "marketplace") {
        return classified_as(BuildingSubtype::MarketHall, "amenity", "marketplace", 95);
    }
    if tag_is(tags, "amenity", "vending_machine") || tag_is(tags, "amenity", "parcel_locker") {
        return classified_as(BuildingSubtype::PickupPoint, "amenity", "parcel_locker", 90);
    }
    None
}

/// The subtype of a `healthcare=*` value.
pub open spec fn healthcare_subtype(v: Seq<char>) -> BuildingSubtype {
    if v == "hospital"@ {
        BuildingSubtype::Hospital
    } else if v == "clinic"@ {
        BuildingSubtype::Clinic
    } else if v == "pharmacy"@ {
        BuildingSubtype::Pharmacy
    } else if v == "dentist"@ {
        BuildingSubtype::DentalClinic
    } else if v == "veterinary"@ {
        BuildingSubtype::VeterinaryClinic
    } else {
        BuildingSubtype::MedicalCenter
    }
}

/// Step 5: the healthcare wing, tagged through `healthcare=*`.
pub open spec fn healthcare_class(t: Map<Seq<char>, Seq<char>>) -> Option<Classification> {
    match tag(t, "healthcare"@) {
        Some(v) => classified(healthcare_subtype(v), "healthcare"@, v, 95),
        None => None,
    }
}

/// Step 5 of the classification on executable tags.
fn healthcare_classification(tags: &Tags) -> (r: Option<Verdict>)
    ensures
        classification_option_view(r) == healthcare_class(tags@),
{
    if let Some(value) = tags.get("healthcare") {
        let v = value.as_str();
        let sub = if str_eq(v, "hospital") {
            BuildingSubtype::Hospital
        } else if str_eq(v, "clinic") {
            BuildingSubtype::Clinic
        } else if str_eq(v, "pharmacy") {
            BuildingSubtype::Pharmacy
        } else if str_eq(v, "dentist") {
            BuildingSubtype::DentalClinic
        } else if str_eq(v, "veterinary") {
            BuildingSubtype::VeterinaryClinic
        } else {
            BuildingSubtype::MedicalCenter
        };
        return classified_as(sub, "healthcare", v, 95);
    }
    None
}

/// Explicit transport tags decide over the `building=` value: a way tagged
/// `amenity=fuel` is a gas station whatever else it carries.
pub proof fn lemma_fuel_overrides_building(t: Map<Seq<char>, Seq<char>>, brand: Option<Seq<char>>)
    requires
        tag(t, "amenity"@) == Some("fuel"@),
    ensures
        classify_tags(t, brand) == (BuildingSubtype::GasStation, ("amenity"@, "fuel"@), 100u8),
{
}

/// Confidence is a percentage, and a way is left `Unknown` only by the last
/// resort, with low confidence (20) and `building=yes` as its primary tag.
pub proof fn lemma_confidence_bounds(t: Map<Seq<char>, Seq<char>>, brand: Option<Seq<char>>)
    ensures
        classify_tags(t, brand).2 <= 100,
        classify_tags(t, brand).0 == BuildingSubtype::Unknown ==> classify_tags(t, brand).2 == 20
            && classify_tags(t, brand).1 == ("building"@, "yes"@),
{
}

/// Every subtype maps to one of the renderer's coarse categories.
pub proof fn lemma_coarse_categories(s: BuildingSubtype)
    ensures
        ({
            let c = coarse_category(s);
            c == "House"@ || c == "Residential"@ || c == "School"@ || c == "Hospital"@ || c
                == "Commercial"@ || c == "Office"@ || c == "Hotel"@ || c == "Industrial"@ || c
                == "Warehouse"@ || c == "Religious"@ || c == "Farm"@ || c == "Greenhouse"@ || c
                == "Default"@ || c == "Historic"@
        }),
{
}

/// Which subtypes fall into each coarse category: the five kinds of house
/// are `House`; apartments, residential blocks, dormitories, hostels and
/// mixed-use residential buildings are `Residential`; and so on for every
/// category, each subtype in exactly one.
pub proof fn lemma_coarse_category_members(s: BuildingSubtype)
    ensures
        coarse_category(s) == "House"@ <==> (s is DetachedHouse || s is SemiDetachedHouse || s is Townhouse || s is Cottage || s is RuralHouse),
        coarse_category(s) == "Residential"@ <==> (s is Apartments || s is ResidentialBlock || s is Dormitory || s is Hostel || s is MixedUseResidential),
        coarse_category(s) == "School"@ <==> (s is Kindergarten || s is School || s is College || s is University || s is TrainingCenter || s is Library),
        coarse_category(s) == "Hospital"@ <==> (s is Hospital || s is Clinic || s is Polyclinic || s is MedicalCenter || s is DentalClinic || s is VeterinaryClinic),
        coarse_category(s) == "Commercial"@ <==> (s is ConvenienceStore || s is Minimarket || s is Supermarket || s is Hypermarket || s is ShoppingMall || s is RetailStore || s is LiquorStore || s is Pharmacy || s is PharmacyStore || s is Bakery || s is Butcher || s is Greengrocer || s is ElectronicsStore || s is HardwareStore || s is FurnitureStore || s is ClothingStore || s is BeautyStore || s is HouseholdStore || s is DiscountStore || s is PickupPoint || s is MarketHall || s is Cafe || s is CoffeeShop || s is Restaurant || s is FastFood || s is BurgerRestaurant || s is PizzaRestaurant || s is Canteen || s is FoodCourt || s is BakeryCafe || s is Kiosk || s is UnknownCommercial),
        coarse_category(s) == "Office"@ <==> (s is Office || s is BusinessCenter || s is Bank || s is PostOffice || s is GovernmentOffice || s is MunicipalBuilding || s is PoliceStation || s is FireStation || s is Courthouse || s is SocialServiceCenter || s is GasStation || s is CarWash || s is CarService || s is Dealership || s is ParkingGarage || s is BusStation || s is BusTerminal || s is RailwayStation || s is RailwayHalt || s is MetroStation || s is MetroEntrance || s is TramStation || s is TransportHub || s is AirportTerminal || s is SportsHall || s is Stadium || s is SwimmingPool || s is FitnessCenter || s is Cinema || s is Theater || s is Museum || s is ExhibitionHall || s is CulturalCenter || s is YouthCenter),
        coarse_category(s) == "Hotel"@ <==> (s is Hotel || s is Motel || s is GuestHouse || s is ResortBuilding),
        coarse_category(s) == "Industrial"@ <==> (s is IndustrialBuilding || s is Factory || s is Workshop || s is UtilityBuilding || s is PowerFacility || s is WaterTreatment || s is TransformerStation || s is UnknownIndustrial),
        coarse_category(s) == "Warehouse"@ <==> (s is Warehouse || s is Depot || s is LogisticsCenter),
        coarse_category(s) == "Religious"@ <==> (s is Church || s is Chapel || s is Mosque || s is Synagogue || s is Temple || s is Monastery),
        coarse_category(s) == "Farm"@ <==> (s is Barn || s is FarmBuilding || s is Stable || s is StorageShed),
        coarse_category(s) == "Greenhouse"@ <==> (s is Greenhouse),
        coarse_category(s) == "Default"@ <==> (s is PublicToilet || s is Pavilion || s is ServiceBuilding || s is UnknownPublic || s is Unknown),
        coarse_category(s) == "Historic"@ <==> (s is AbandonedBuilding || s is HistoricBuilding || s is MonumentSupportBuilding),
{
    reveal_strlit("House");
    reveal_strlit("Residential");
    reveal_strlit("School");
    reveal_strlit("Hospital");
    reveal_strlit("Commercial");
    reveal_strlit("Office");
    reveal_strlit("Hotel");
    reveal_strlit("Industrial");
    reveal_strlit("Warehouse");
    reveal_strlit("Religious");
    reveal_strlit("Farm");
    reveal_strlit("Greenhouse");
    reveal_strlit("Default");
    reveal_strlit("Historic");
    assert("House"@.len() == 5 && "House"@[0] == 'H');
    assert("Residential"@.len() == 11 && "Residential"@[0] == 'R');
    assert("School"@.len() == 6 && "School"@[0] == 'S');
    assert("Hospital"@.len() == 8 && "Hospital"@[0] == 'H');
    assert("Commercial"@.len() == 10 && "Commercial"@[0] == 'C');
    assert("Office"@.len() == 6 && "Office"@[0] == 'O');
    assert("Hotel"@.len() == 5 && "Hotel"@[0] == 'H');
    assert("Industrial"@.len() == 10 && "Industrial"@[0] == 'I');
    assert("Warehouse"@.len() == 9 && "Warehouse"@[0] == 'W');
    assert("Religious"@.len() == 9 && "Religious"@[0] == 'R');
    assert("Farm"@.len() == 4 && "Farm"@[0] == 'F');
    assert("Greenhouse"@.len() == 10 && "Greenhouse"@[0] == 'G');
    assert("Default"@.len() == 7 && "Default"@[0] == 'D');
    assert("Historic"@.len() == 8 && "Historic"@[0] == 'H');
    assert("House"@[2] == 'u' && "Hotel"@[2] == 't');
    assert("Hospital"@[1] == 'o' && "Historic"@[1] == 'i');
}

/// Latin spelling of a lowercase Cyrillic letter used in Russian brand
/// names; `None` for every other character.
pub open spec fn cyrillic_to_latin(c: char) -> Option<Seq<char>> {
    if c == 'а' {
        Some("a"@)
    } else if c == 'б' {
        Some("b"@)
    } else if c == 'в' {
        Some("v"@)
    } else if c == 'г' {
        Some("g"@)
    } else if c == 'д' {
        Some("d"@)
    } else if c == 'е' || c == 'ё' {
        Some("e"@)
    } else if c == 'ж' {
        Some("zh"@)
    } else if c == 'з' {
        Some("z"@)
    } else if c == 'и' || c == 'й' {
        Some("i"@)
    } else if c == 'к' {
        Some("k"@)
    } else if c == 'л' {
        Some("l"@)
    } else if c == 'м' {
        Some("m"@)
    } else if c == 'н' {
        Some("n"@)
    } else if c == 'о' {
        Some("o"@)
    } else if c == 'п' {
        Some("p"@)
    } else if c == 'р' {
        Some("r"@)
    } else if c == 'с' {
        Some("s"@)
    } else if c == 'т' {
        Some("t"@)
    } else if c == 'у' {
        Some("u"@)
    } else if c == 'ф' {
        Some("f"@)
    } else if c == 'х' {
        Some("h"@)
    } else if c == 'ц' {
        Some("ts"@)
    } else if c == 'ч' {
        Some("ch"@)
    } else if c == 'ш' {
        Some("sh"@)
    } else if c == 'щ' {
        Some("sch"@)
    } else if c == 'ъ' || c == 'ь' {
        Some(""@)
    } else if c == 'ы' {
        Some("y"@)
    } else if c == 'э' {
        Some("e"@)
    } else if c == 'ю' {
        Some("yu"@)
    } else if c == 'я' {
        Some("ya"@)
    } else {
        None
    }
}

/// `cyrillic_to_latin` on executable values.
fn transliterate(c: char) -> (r: Option<&'static str>)
    ensures
        str_option_view(r) == cyrillic_to_latin(c),
{
    if c == 'а' {
        Some("a")
    } else if c == 'б' {
        Some("b")
    } else if c == 'в' {
        Some("v")
    } else if c == 'г' {
        Some("g")
    } else if c == 'д' {
        Some("d")
    } else if c == 'е' || c == 'ё' {
        Some("e")
    } else if c == 'ж' {
        Some("zh")
    } else if c == 'з' {
        Some("z")
    } else if c == 'и' || c == 'й' {
        Some("i")
    } else if c == 'к' {
        Some("k")
    } else if c == 'л' {
        Some("l")
    } else if c == 'м' {
        Some("m")
    } else if c == 'н' {
        Some("n")
    } else if c == 'о' {
        Some("o")
    } else if c == 'п' {
        Some("p")
    } else if c == 'р' {
        Some("r")
    } else if c == 'с' {
        Some("s")
    } else if c == 'т' {
        Some("t")
    } else if c == 'у' {
        Some("u")
    } else if c == 'ф' {
        Some("f")
    } else if c == 'х' {
        Some("h")
    } else if c == 'ц' {
        Some("ts")
    } else if c == 'ч' {
        Some("ch")
    } else if c == 'ш' {
        Some("sh")
    } else if c == 'щ' {
        Some("sch")
    } else if c == 'ъ' || c == 'ь' {
        Some("")
    } else if c == 'ы' {
        Some("y")
    } else if c == 'э' {
        Some("e")
    } else if c == 'ю' {
        Some("yu")
    } else if c == 'я' {
        Some("ya")
    } else {
        None
    }
}

/// `c` is an ASCII letter or digit, as `char::is_ascii_alphanumeric` says.
pub open spec fn ascii_alphanumeric(c: char) -> bool {
    ('0' <= c && c <= '9') || ('a' <= c && c <= 'z') || ('A' <= c && c <= 'Z')
}

/// `ascii_alphanumeric` on executable values.
fn is_ascii_alphanumeric(c: char) -> (r: bool)
    ensures
        r == ascii_alphanumeric(c),
{
    ('0' <= c && c <= '9') || ('a' <= c && c <= 'z') || ('A' <= c && c <= 'Z')
}

/// The key built so far from the characters `s`, and whether it ends with a
/// separator written for a run of other characters. Cyrillic letters are
/// spelled in Latin, ASCII letters and digits are kept, and every run of
/// other characters becomes one `_` (none at the start).
pub open spec fn brand_fold(s: Seq<char>) -> (Seq<char>, bool)
    decreases s.len(),
{
    if s.len() == 0 {
        (Seq::empty(), false)
    } else {
        let before = brand_fold(s.drop_last());
        let out = before.0;
        let prev_underscore = before.1;
        let c = s.last();
        match cyrillic_to_latin(c) {
            Some(latin) => (out + latin, if latin.len() > 0 {
                false
            } else {
                prev_underscore
            }),
            None => if ascii_alphanumeric(c) {
                (out.push(c), false)
            } else if !prev_underscore && out.len() > 0 {
                (out.push('_'), true)
            } else {
                (out, prev_underscore)
            },
        }
    }
}

/// `s` without its trailing underscores.
pub open spec fn without_trailing_underscores(s: Seq<char>) -> Seq<char>
    decreases s.len(),
{
    if s.len() > 0 && s.last() == '_' {
        without_trailing_underscores(s.drop_last())
    } else {
        s
    }
}

/// The folded form of an already lowercased brand or operator string:
/// Cyrillic letters spelled in Latin, every run of other characters one
/// `_`, with no `_` at either end.
pub open spec fn folded_key(lower: Seq<char>) -> Seq<char> {
    without_trailing_underscores(brand_fold(lower).0)
}

/// Brand keys that stand for another brand's key: "K&B" is the short name
/// of Красное & Белое.
pub open spec fn brand_alias(k: Seq<char>) -> Seq<char> {
    if k == "k_b"@ {
        "krasnoe_beloe"@
    } else {
        k
    }
}

/// The brand key of an already lowercased brand or operator string.
pub open spec fn brand_key(lower: Seq<char>) -> Seq<char> {
    brand_alias(folded_key(lower))
}

/// Normalise brand / operator strings to a stable lookup key.
///
/// Lowercases, spells the common Cyrillic letters of Russian retail brand
/// names in Latin, and turns every run of other characters into one `_`:
/// "Красное & Белое", "Красное&Белое" and the short form "K&B" all give
/// `krasnoe_beloe`, while "Красное и Белое" keeps its middle word and gives
/// `krasnoe_i_beloe`.
pub fn normalize_brand(raw: &str) -> (key: String)
    ensures
        key@ == brand_key(lowercase(raw@)),
        is_brand_key(key@),
        no_ascii_capitals(key@),
{
    let lower = to_lowercase(raw);
    proof {
        lemma_brand_key_is_stable(lower@);
        lemma_brand_key_keeps_case(lower@);
    }
    normalize_lowercase_brand(lower.as_str())
}

/// The brand key of a string that is already lowercase.
pub fn normalize_lowercase_brand(lower: &str) -> (key: String)
    ensures
        key@ == brand_key(lower@),
{
    let mut out: Vec<char> = Vec::new();
    let mut prev_underscore = false;
    for ch in it: lower.chars()
        invariant
            it.seq() == lower@,
            (out@, prev_underscore) == brand_fold(lower@.take(it.index())),
    {
        proof {
            assert(lower@.take(it.index() + 1).drop_last() =~= lower@.take(it.index()));
        }
        match transliterate(ch) {
            Some(latin) => {
                let ghost out_before = out@;
                let ghost prev_before = prev_underscore;
                for c in jt: latin.chars()
                    invariant
                        jt.seq() == latin@,
                        out@ == out_before + latin@.take(jt.index()),
                        prev_underscore == (if jt.index() > 0 {
                            false
                        } else {
                            prev_before
                        }),
                {
                    proof {
                        assert(latin@.take(jt.index() + 1) =~= latin@.take(jt.index()).push(c));
                    }
                    out.push(c);
                    prev_underscore = false;
                }
                proof {
                    assert(latin@.take(latin@.len() as int) =~= latin@);
                }
            },
            None => {
                if is_ascii_alphanumeric(ch) {
                    out.push(ch);
                    prev_underscore = false;
                } else if !prev_underscore && out.len() > 0 {
                    out.push('_');
                    prev_underscore = true;
                }
            },
        }
    }
    proof {
        assert(lower@.take(lower@.len() as int) =~= lower@);
    }
    while out.len() > 0 && out[out.len() - 1] == '_'
        invariant
            without_trailing_underscores(out@) == folded_key(lower@),
        decreases out.len(),
    {
        out.pop();
    }
    proof {
        reveal_strlit("k_b");
        reveal_strlit("krasnoe_beloe");
    }
    if out.len() == 3 && out[0] == 'k' && out[1] == '_' && out[2] == 'b' {
        assert(out@ =~= "k_b"@);
        String::from_str("krasnoe_beloe")
    } else {
        string_from_chars(out)
    }
}

/// A character a brand key may hold.
pub open spec fn key_char(c: char) -> bool {
    ascii_alphanumeric(c) || c == '_'
}

/// `k` is made of ASCII letters, digits and underscores, where every
/// underscore sits between two other characters.
pub open spec fn is_brand_key(k: Seq<char>) -> bool {
    &&& forall|i: int| 0 <= i < k.len() ==> key_char(#[trigger] k[i])
    &&& k.len() > 0 ==> k[0] != '_' && k.last() != '_'
    &&& forall|i: int| 0 <= i < k.len() - 1 ==> #[trigger] k[i] != '_' || k[i + 1] != '_'
}

/// A key under construction: key characters, no leading underscore and no
/// two underscores in a row.
spec fn partial_key(k: Seq<char>) -> bool {
    &&& forall|i: int| 0 <= i < k.len() ==> key_char(#[trigger] k[i])
    &&& k.len() > 0 ==> k[0] != '_'
    &&& forall|i: int| 0 <= i < k.len() - 1 ==> #[trigger] k[i] != '_' || k[i + 1] != '_'
}

/// Latin spellings are made of lowercase ASCII letters.
proof fn lemma_latin_letters(c: char)
    ensures
        cyrillic_to_latin(c) matches Some(latin) ==> forall|i: int|
            0 <= i < latin.len() ==> 'a' <= #[trigger] latin[i] && latin[i] <= 'z',
{
    reveal_strlit("");
    reveal_strlit("a");
    reveal_strlit("b");
    reveal_strlit("ch");
    reveal_strlit("d");
    reveal_strlit("e");
    reveal_strlit("f");
    reveal_strlit("g");
    reveal_strlit("h");
    reveal_strlit("i");
    reveal_strlit("k");
    reveal_strlit("l");
    reveal_strlit("m");
    reveal_strlit("n");
    reveal_strlit("o");
    reveal_strlit("p");
    reveal_strlit("r");
    reveal_strlit("s");
    reveal_strlit("sch");
    reveal_strlit("sh");
    reveal_strlit("t");
    reveal_strlit("ts");
    reveal_strlit("u");
    reveal_strlit("v");
    reveal_strlit("y");
    reveal_strlit("ya");
    reveal_strlit("yu");
    reveal_strlit("z");
    reveal_strlit("zh");
}

/// While folding, the key built so far is a partial key, and the separator
/// flag says whether it ends with an underscore.
proof fn lemma_brand_fold_shape(s: Seq<char>)
    ensures
        partial_key(brand_fold(s).0),
        brand_fold(s).1 == (brand_fold(s).0.len() > 0 && brand_fold(s).0.last() == '_'),
    decreases s.len(),
{
    if s.len() > 0 {
        lemma_brand_fold_shape(s.drop_last());
        let out = brand_fold(s.drop_last()).0;
        let c = s.last();
        lemma_latin_letters(c);
        if let Some(latin) = cyrillic_to_latin(c) {
            let k = out + latin;
            assert forall|i: int| 0 <= i < k.len() implies key_char(#[trigger] k[i]) by {
                if i >= out.len() {
                    assert(k[i] == latin[i - out.len()]);
                }
            }
            assert forall|i: int| 0 <= i < k.len() - 1 implies #[trigger] k[i] != '_' || k[i + 1]
                != '_' by {
                if i + 1 >= out.len() {
                    assert(k[i + 1] == latin[i + 1 - out.len()]);
                }
            }
        } else {
            let k = brand_fold(s).0;
            assert forall|i: int| 0 <= i < k.len() - 1 implies #[trigger] k[i] != '_' || k[i + 1]
                != '_' by {
                if i + 1 < out.len() {
                    assert(k[i] == out[i] && k[i + 1] == out[i + 1]);
                }
            }
        }
    }
}

/// Dropping trailing underscores from a partial key gives a brand key.
proof fn lemma_trimmed_key(k: Seq<char>)
    requires
        partial_key(k),
    ensures
        is_brand_key(without_trailing_underscores(k)),
    decreases k.len(),
{
    if k.len() > 0 && k.last() == '_' {
        let d = k.drop_last();
        assert(partial_key(d)) by {
            assert forall|i: int| 0 <= i < d.len() - 1 implies #[trigger] d[i] != '_' || d[i + 1]
                != '_' by {
                assert(k[i] != '_' || k[i + 1] != '_');
            }
        }
        lemma_trimmed_key(d);
    }
}

/// Folding a partial key gives it back unchanged.
proof fn lemma_fold_partial_key(k: Seq<char>)
    requires
        partial_key(k),
    ensures
        brand_fold(k) == (k, k.len() > 0 && k.last() == '_'),
    decreases k.len(),
{
    if k.len() > 0 {
        let d = k.drop_last();
        assert(partial_key(d)) by {
            assert forall|i: int| 0 <= i < d.len() - 1 implies #[trigger] d[i] != '_' || d[i + 1]
                != '_' by {
                assert(k[i] != '_' || k[i + 1] != '_');
            }
        }
        lemma_fold_partial_key(d);
        assert(key_char(k[k.len() - 1]));
        if k.len() >= 2 {
            assert(k[k.len() - 2] != '_' || k[k.len() - 1] != '_');
        }
        assert(d.push(k.last()) =~= k);
    }
}

/// A small ASCII letter `a`..=`z` or a decimal digit `0`..=`9`.
pub open spec fn plain_char(c: char) -> bool {
    ('a' <= c && c <= 'z') || ('0' <= c && c <= '9')
}

/// Every character of `w` is a small ASCII letter or a decimal digit.
pub open spec fn plain_word(w: Seq<char>) -> bool {
    forall|i: int| 0 <= i < w.len() ==> plain_char(#[trigger] w[i])
}

/// Folding past a run of small letters and digits appends the run to the
/// key unchanged.
proof fn lemma_fold_appends_plain(p: Seq<char>, w: Seq<char>)
    requires
        plain_word(w),
    ensures
        brand_fold(p + w) == (brand_fold(p).0 + w, if w.len() > 0 {
            false
        } else {
            brand_fold(p).1
        }),
    decreases w.len(),
{
    if w.len() == 0 {
        assert(p + w =~= p);
        assert(brand_fold(p).0 + w =~= brand_fold(p).0);
    } else {
        let d = w.drop_last();
        assert(plain_word(d)) by {
            assert forall|i: int| 0 <= i < d.len() implies plain_char(#[trigger] d[i]) by {
                assert(d[i] == w[i]);
            }
        }
        lemma_fold_appends_plain(p, d);
        assert((p + w).drop_last() =~= p + d);
        assert((p + w).last() == w.last());
        assert(plain_char(w[w.len() - 1]));
        assert(brand_fold(p).0 + d + seq![w.last()] =~= brand_fold(p).0 + w);
    }
}

/// A key made of small letters and digits ends in neither `_` nor is the
/// alias `k_b`, so it is its own brand key.
proof fn lemma_plain_key_is_final(k: Seq<char>)
    requires
        plain_word(k) || (k.len() > 0 && plain_char(k.last()) && k != "k_b"@),
    ensures
        brand_alias(without_trailing_underscores(k)) == k,
{
    reveal_strlit("k_b");
    if k.len() > 0 {
        assert(plain_char(k[k.len() - 1]));
    }
    if k == "k_b"@ {
        assert(k[1] == '_');
        assert(!plain_char(k[1]));
    }
}

/// Small ASCII letters and digits are kept, in order: a brand or operator
/// name made only of them is its own key.
pub proof fn lemma_plain_words_are_kept(w: Seq<char>)
    requires
        plain_word(w),
    ensures
        brand_key(w) == w,
{
    lemma_fold_appends_plain(Seq::empty(), w);
    assert(Seq::<char>::empty() + w =~= w);
    lemma_plain_key_is_final(w);
}

/// After a word of small letters and digits, a Cyrillic letter appends its
/// Latin spelling to the key.
proof fn lemma_cyrillic_step(w: Seq<char>, c: char)
    requires
        plain_word(w),
        cyrillic_to_latin(c) is Some,
    ensures
        brand_key(w.push(c)) == w + cyrillic_to_latin(c)->0,
{
    let latin = cyrillic_to_latin(c)->0;
    lemma_fold_appends_plain(Seq::empty(), w);
    assert(Seq::<char>::empty() + w =~= w);
    assert(w.push(c).drop_last() =~= w);
    lemma_latin_letters(c);
    let k = w + latin;
    assert(plain_word(k)) by {
        assert forall|i: int| 0 <= i < k.len() implies plain_char(#[trigger] k[i]) by {
            if i >= w.len() {
                assert(k[i] == latin[i - w.len()]);
            }
        }
    }
    lemma_plain_key_is_final(k);
}

/// After a word of small letters and digits, a lowercase Cyrillic letter
/// contributes its Latin spelling: `а` → `a`, `ё` → `e`, `ж` → `zh`,
/// `ц` → `ts`, `щ` → `sch`, `ю` → `yu`, `я` → `ya` and so on, while the
/// hard and soft signs `ъ` and `ь` contribute nothing.
pub proof fn lemma_cyrillic_spelling(w: Seq<char>)
    requires
        plain_word(w),
    ensures
        brand_key(w.push('а')) == w + "a"@,
        brand_key(w.push('б')) == w + "b"@,
        brand_key(w.push('в')) == w + "v"@,
        brand_key(w.push('г')) == w + "g"@,
        brand_key(w.push('д')) == w + "d"@,
        brand_key(w.push('е')) == w + "e"@,
        brand_key(w.push('ё')) == w + "e"@,
        brand_key(w.push('ж')) == w + "zh"@,
        brand_key(w.push('з')) == w + "z"@,
        brand_key(w.push('и')) == w + "i"@,
        brand_key(w.push('й')) == w + "i"@,
        brand_key(w.push('к')) == w + "k"@,
        brand_key(w.push('л')) == w + "l"@,
        brand_key(w.push('м')) == w + "m"@,
        brand_key(w.push('н')) == w + "n"@,
        brand_key(w.push('о')) == w + "o"@,
        brand_key(w.push('п')) == w + "p"@,
        brand_key(w.push('р')) == w + "r"@,
        brand_key(w.push('с')) == w + "s"@,
        brand_key(w.push('т')) == w + "t"@,
        brand_key(w.push('у')) == w + "u"@,
        brand_key(w.push('ф')) == w + "f"@,
        brand_key(w.push('х')) == w + "h"@,
        brand_key(w.push('ц')) == w + "ts"@,
        brand_key(w.push('ч')) == w + "ch"@,
        brand_key(w.push('ш')) == w + "sh"@,
        brand_key(w.push('щ')) == w + "sch"@,
        brand_key(w.push('ъ')) == w,
        brand_key(w.push('ь')) == w,
        brand_key(w.push('ы')) == w + "y"@,
        brand_key(w.push('э')) == w + "e"@,
        brand_key(w.push('ю')) == w + "yu"@,
        brand_key(w.push('я')) == w + "ya"@,
{
    lemma_cyrillic_step(w, 'а');
    lemma_cyrillic_step(w, 'б');
    lemma_cyrillic_step(w, 'в');
    lemma_cyrillic_step(w, 'г');
    lemma_cyrillic_step(w, 'д');
    lemma_cyrillic_step(w, 'е');
    lemma_cyrillic_step(w, 'ё');
    lemma_cyrillic_step(w, 'ж');
    lemma_cyrillic_step(w, 'з');
    lemma_cyrillic_step(w, 'и');
    lemma_cyrillic_step(w, 'й');
    lemma_cyrillic_step(w, 'к');
    lemma_cyrillic_step(w, 'л');
    lemma_cyrillic_step(w, 'м');
    lemma_cyrillic_step(w, 'н');
    lemma_cyrillic_step(w, 'о');
    lemma_cyrillic_step(w, 'п');
    lemma_cyrillic_step(w, 'р');
    lemma_cyrillic_step(w, 'с');
    lemma_cyrillic_step(w, 'т');
    lemma_cyrillic_step(w, 'у');
    lemma_cyrillic_step(w, 'ф');
    lemma_cyrillic_step(w, 'х');
    lemma_cyrillic_step(w, 'ц');
    lemma_cyrillic_step(w, 'ч');
    lemma_cyrillic_step(w, 'ш');
    lemma_cyrillic_step(w, 'щ');
    lemma_cyrillic_step(w, 'ъ');
    lemma_cyrillic_step(w, 'ь');
    lemma_cyrillic_step(w, 'ы');
    lemma_cyrillic_step(w, 'э');
    lemma_cyrillic_step(w, 'ю');
    lemma_cyrillic_step(w, 'я');
    reveal_strlit("");
    assert(w + ""@ =~= w);
}

/// Two words of small letters and digits joined by any ASCII character that
/// is neither a letter nor a digit give the two words joined by `_`: the
/// key of "7-eleven" is `7_eleven`. (The short form `k_b` of Красное & Белое
/// is the one exception.)
pub proof fn lemma_separator_becomes_underscore(a: Seq<char>, sep: char, b: Seq<char>)
    requires
        plain_word(a),
        plain_word(b),
        a.len() > 0,
        b.len() > 0,
        (sep as int) < 128,
        !plain_char(sep),
        !('A' <= sep && sep <= 'Z'),
        !(a == seq!['k'] && b == seq!['b']),
    ensures
        brand_key(a + seq![sep] + b) == a + seq!['_'] + b,
{
    lemma_fold_appends_plain(Seq::empty(), a);
    assert(Seq::<char>::empty() + a =~= a);
    let p = a.push(sep);
    assert(p.drop_last() =~= a);
    assert(brand_fold(p) == (a.push('_'), true));
    lemma_fold_appends_plain(p, b);
    assert(p + b =~= a + seq![sep] + b);
    assert(a.push('_') + b =~= a + seq!['_'] + b);
    let k = a + seq!['_'] + b;
    assert(k.last() == b.last());
    assert(plain_char(b[b.len() - 1]));
    if k == "k_b"@ {
        reveal_strlit("k_b");
        assert(a.len() == 1 && b.len() == 1);
        assert(k[0] == 'k' && k[2] == 'b');
        assert(a =~= seq!['k']);
        assert(b =~= seq!['b']);
    }
    lemma_plain_key_is_final(k);
}

/// A brand key consists of ASCII letters, digits and single underscores
/// between them, and normalising a key again leaves it unchanged.
pub proof fn lemma_brand_key_is_stable(lower: Seq<char>)
    ensures
        is_brand_key(brand_key(lower)),
        brand_key(brand_key(lower)) == brand_key(lower),
{
    lemma_brand_fold_shape(lower);
    lemma_trimmed_key(brand_fold(lower).0);
    let f = folded_key(lower);
    let k = brand_key(lower);
    reveal_strlit("k_b");
    reveal_strlit("krasnoe_beloe");
    assert(partial_key(k));
    lemma_fold_partial_key(k);
    assert(folded_key(k) == k);
}


/// Normalising adds no ASCII capital letter: the key of a string without
/// capitals has none either.
pub proof fn lemma_brand_key_keeps_case(lower: Seq<char>)
    requires
        no_ascii_capitals(lower),
    ensures
        no_ascii_capitals(brand_key(lower)),
{
    lemma_brand_fold_keeps_case(lower);
    lemma_trim_keeps_chars(brand_fold(lower).0);
    reveal_strlit("krasnoe_beloe");
}

/// Folding a string without ASCII capitals builds a key without them.
proof fn lemma_brand_fold_keeps_case(s: Seq<char>)
    requires
        no_ascii_capitals(s),
    ensures
        no_ascii_capitals(brand_fold(s).0),
    decreases s.len(),
{
    if s.len() > 0 {
        let d = s.drop_last();
        assert(no_ascii_capitals(d)) by {
            assert forall|i: int| 0 <= i < d.len() implies !is_ascii_capital(#[trigger] d[i]) by {
                assert(d[i] == s[i]);
            }
        }
        lemma_brand_fold_keeps_case(d);
        let out = brand_fold(d).0;
        let c = s.last();
        assert(!is_ascii_capital(s[s.len() - 1]));
        lemma_latin_letters(c);
        let k = brand_fold(s).0;
        assert forall|i: int| 0 <= i < k.len() implies !is_ascii_capital(#[trigger] k[i]) by {
            if i < out.len() {
                assert(k[i] == out[i]);
            } else if let Some(latin) = cyrillic_to_latin(c) {
                assert(k[i] == latin[i - out.len()]);
            }
        }
    }
}

/// Dropping trailing underscores keeps a prefix of the string.
proof fn lemma_trim_keeps_chars(k: Seq<char>)
    requires
        no_ascii_capitals(k),
    ensures
        no_ascii_capitals(without_trailing_underscores(k)),
    decreases k.len(),
{
    if k.len() > 0 && k.last() == '_' {
        let d = k.drop_last();
        assert(no_ascii_capitals(d)) by {
            assert forall|i: int| 0 <= i < d.len() implies !is_ascii_capital(#[trigger] d[i]) by {
                assert(d[i] == k[i]);
            }
        }
        lemma_trim_keeps_chars(d);
    }
}

} // verus!
