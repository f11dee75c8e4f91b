//! Building interiors: the neighbourhood, type and landmark of a building
//! from its tags, and the plan of its interior floor by floor.

use vstd::prelude::*;
use crate::data_processing::div_toward_zero;
use vstd::arithmetic::div_mod::{lemma_fundamental_div_mod, lemma_fundamental_div_mod_converse};
use crate::highways::{lower_tag, tag_i32_or_zero, tag_or_empty};
use crate::osm_parser::ProcessedWay;
use crate::tags::Tags;
use crate::text::{is_substring, spec_to_lowercase, str_eq, string_contains, to_lowercase};

verus! {

/// Height of one storey, in blocks (2.60 m at the vertical scale of 1.15, rounded).
pub const FLOOR_HEIGHT_BLOCKS: i32 = 3;

/// Neighbourhood of a building.
#[derive(Clone, Copy, PartialEq, Eq, Structural, Debug)]
pub enum Bairro {
    SQS,
    SQN,
    AguasClaras,
    Guara,
    Samambaia,
    Comercial,
    Condominio,
    Outro,
}

/// Use of a building.
#[derive(Clone, Copy, PartialEq, Eq, Structural, Debug)]
pub enum Tipologia {
    Residencial,
    Escola,
    Hospital,
    Corporativo,
    Comercial,
    Religioso,
    MetroSubterraneo,
    MetroElevado,
    Generico,
}

/// Landmark buildings with interiors of their own.
#[derive(Clone, Copy, PartialEq, Eq, Structural, Debug)]
pub enum EdificioBrasilia {
    CongressoNacional,
    PalacioPlanalto,
    STF,
    Itamaraty,
    HospitalBase,
    SedeBancaria,
    Shopping,
    CatedralMetropolitana,
    Nenhum,
}

/// The neighbourhood from the lowercase `addr:suburb`.
pub open spec fn spec_bairro(suburb: Seq<char>) -> Bairro {
    if is_substring("sqs"@, suburb) {
        Bairro::SQS
    } else if is_substring("sqn"@, suburb) {
        Bairro::SQN
    } else if is_substring("aguas claras"@, suburb) {
        Bairro::AguasClaras
    } else if is_substring("guará"@, suburb) || is_substring("guara"@, suburb) {
        Bairro::Guara
    } else if is_substring("samambaia"@, suburb) {
        Bairro::Samambaia
    } else if is_substring("comercial"@, suburb) || is_substring("setor de autarquias"@, suburb) {
        Bairro::Comercial
    } else if is_substring("condom"@, suburb) {
        Bairro::Condominio
    } else {
        Bairro::Outro
    }
}

/// The neighbourhood of a building.
pub fn detect_bairro(element: &ProcessedWay) -> (b: Bairro)
    ensures
        b == spec_bairro(lower_tag(element.tags@, "addr:suburb"@)),
{
    let suburb = match element.tags.get("addr:suburb") {
        Some(v) => to_lowercase(v.as_str()),
        None => String::new(),
    };
    if string_contains(&suburb, "sqs") {
        Bairro::SQS
    } else if string_contains(&suburb, "sqn") {
        Bairro::SQN
    } else if string_contains(&suburb, "aguas claras") {
        Bairro::AguasClaras
    } else if string_contains(&suburb, "guará") || string_contains(&suburb, "guara") {
        Bairro::Guara
    } else if string_contains(&suburb, "samambaia") {
        Bairro::Samambaia
    } else if string_contains(&suburb, "comercial") || string_contains(
        &suburb,
        "setor de autarquias",
    ) {
        Bairro::Comercial
    } else if string_contains(&suburb, "condom") {
        Bairro::Condominio
    } else {
        Bairro::Outro
    }
}

/// The use of a building: metro stations first (underground when so located
/// or on a negative layer), then by `amenity`, then by `building`.
pub open spec fn spec_tipologia(tags: Map<Seq<char>, Seq<char>>) -> Tipologia {
    let amenity = tag_or_empty(tags, "amenity"@);
    let building = tag_or_empty(tags, "building"@);
    let railway = tag_or_empty(tags, "railway"@);
    let station = tag_or_empty(tags, "station"@);
    let location = tag_or_empty(tags, "location"@);
    let layer = tag_i32_or_zero(tags, "layer"@);
    let underground = location == "underground"@ || layer < 0;
    let is_metro = station == "subway"@ || (tags.contains_key("subway"@) && tags["subway"@]
        == "yes"@) || (railway == "station"@ && underground);
    if is_metro {
        if underground {
            Tipologia::MetroSubterraneo
        } else {
            Tipologia::MetroElevado
        }
    } else if amenity == "school"@ || amenity == "university"@ || amenity == "college"@ || amenity
        == "kindergarten"@ {
        Tipologia::Escola
    } else if amenity == "hospital"@ || amenity == "clinic"@ || amenity == "doctors"@ {
        Tipologia::Hospital
    } else if amenity == "bank"@ || amenity == "police"@ || amenity == "courthouse"@ || amenity
        == "townhall"@ {
        Tipologia::Corporativo
    } else if amenity == "place_of_worship"@ {
        Tipologia::Religioso
    } else if building == "school"@ || building == "university"@ {
        Tipologia::Escola
    } else if building == "hospital"@ || building == "clinic"@ {
        Tipologia::Hospital
    } else if building == "office"@ || building == "government"@ {
        Tipologia::Corporativo
    } else if building == "retail"@ || building == "commercial"@ || building == "supermarket"@ {
        Tipologia::Comercial
    } else if building == "residential"@ || building == "apartments"@ || building == "house"@
        || building == "detached"@ || building == "terrace"@ {
        Tipologia::Residencial
    } else if building == "church"@ || building == "cathedral"@ || building == "chapel"@
        || building == "temple"@ || building == "mosque"@ {
        Tipologia::Religioso
    } else {
        Tipologia::Generico
    }
}

/// The value of tag `key` (empty where missing) equals `value`.
fn tag_eq(tags: &Tags, key: &str, value: &str) -> (b: bool)
    ensures
        b == (tag_or_empty(tags@, key@) == value@),
{
    match tags.get(key) {
        Some(v) => str_eq(v.as_str(), value),
        None => {
            assert(value@.len() == 0 ==> value@ =~= Seq::<char>::empty());
            value.unicode_len() == 0
        },
    }
}

/// The use of a building.
pub fn detect_tipologia(element: &ProcessedWay) -> (t: Tipologia)
    ensures
        t == spec_tipologia(element.tags@),
{
    let tags = &element.tags;
    let layer: i32 = match tags.get("layer") {
        Some(v) => match crate::text::parse_i32(v.as_str()) {
            Some(n) => n,
            None => 0,
        },
        None => 0,
    };
    let underground = tag_eq(tags, "location", "underground") || layer < 0;
    let is_metro = tag_eq(tags, "station", "subway") || tags.has_value("subway", "yes") || (tag_eq(
        tags,
        "railway",
        "station",
    ) && underground);
    if is_metro {
        if underground {
            return Tipologia::MetroSubterraneo;
        } else {
            return Tipologia::MetroElevado;
        }
    }
    if tag_eq(tags, "amenity", "school") || tag_eq(tags, "amenity", "university") || tag_eq(
        tags,
        "amenity",
        "college",
    ) || tag_eq(tags, "amenity", "kindergarten") {
        return Tipologia::Escola;
    }
    if tag_eq(tags, "amenity", "hospital") || tag_eq(tags, "amenity", "clinic") || tag_eq(
        tags,
        "amenity",
        "doctors",
    ) {
        return Tipologia::Hospital;
    }
    if tag_eq(tags, "amenity", "bank") || tag_eq(tags, "amenity", "police") || tag_eq(
        tags,
        "amenity",
        "courthouse",
    ) || tag_eq(tags, "amenity", "townhall") {
        return Tipologia::Corporativo;
    }
    if tag_eq(tags, "amenity", "place_of_worship") {
        return Tipologia::Religioso;
    }
    if tag_eq(tags, "building", "school") || tag_eq(tags, "building", "university") {
        Tipologia::Escola
    } else if tag_eq(tags, "building", "hospital") || tag_eq(tags, "building", "clinic") {
        Tipologia::Hospital
    } else if tag_eq(tags, "building", "office") || tag_eq(tags, "building", "government") {
        Tipologia::Corporativo
    } else if tag_eq(tags, "building", "retail") || tag_eq(tags, "building", "commercial")
        || tag_eq(tags, "building", "supermarket") {
        Tipologia::Comercial
    } else if tag_eq(tags, "building", "residential") || tag_eq(tags, "building", "apartments")
        || tag_eq(tags, "building", "house") || tag_eq(tags, "building", "detached") || tag_eq(
        tags,
        "building",
        "terrace",
    ) {
        Tipologia::Residencial
    } else if tag_eq(tags, "building", "church") || tag_eq(tags, "building", "cathedral")
        || tag_eq(tags, "building", "chapel") || tag_eq(tags, "building", "temple") || tag_eq(
        tags,
        "building",
        "mosque",
    ) {
        Tipologia::Religioso
    } else {
        Tipologia::Generico
    }
}

/// The lowercase name a landmark is recognised by: `name`, else
/// `building:name`, else `operator`, else empty.
pub open spec fn spec_landmark_name(tags: Map<Seq<char>, Seq<char>>) -> Seq<char> {
    if tags.contains_key("name"@) {
        spec_to_lowercase(tags["name"@])
    } else if tags.contains_key("building:name"@) {
        spec_to_lowercase(tags["building:name"@])
    } else if tags.contains_key("operator"@) {
        spec_to_lowercase(tags["operator"@])
    } else {
        Seq::empty()
    }
}

/// The landmark a lowercase name designates.
pub open spec fn spec_edificio(name: Seq<char>) -> EdificioBrasilia {
    if is_substring("congresso nacional"@, name) || is_substring("câmara dos deputados"@, name)
        || is_substring("senado federal"@, name) {
        EdificioBrasilia::CongressoNacional
    } else if is_substring("palácio do planalto"@, name) || is_substring(
        "palacio do planalto"@,
        name,
    ) {
        EdificioBrasilia::PalacioPlanalto
    } else if is_substring("supremo tribunal federal"@, name) || is_substring("stf"@, name) {
        EdificioBrasilia::STF
    } else if is_substring("itamaraty"@, name) || is_substring("relações exteriores"@, name) {
        EdificioBrasilia::Itamaraty
    } else if is_substring("hospital de base"@, name) || is_substring("santa lúcia"@, name)
        || is_substring("santa lucia"@, name) {
        EdificioBrasilia::HospitalBase
    } else if is_substring("banco do brasil"@, name) || is_substring("caixa econômica"@, name)
        || is_substring("banco central"@, name) || is_substring("brb"@, name) {
        EdificioBrasilia::SedeBancaria
    } else if is_substring("shopping"@, name) || is_substring("conjunto nacional"@, name) {
        EdificioBrasilia::Shopping
    } else if is_substring("catedral metropolitana"@, name) {
        EdificioBrasilia::CatedralMetropolitana
    } else {
        EdificioBrasilia::Nenhum
    }
}

/// The landmark a building is, if any.
pub fn detect_edificio_especifico(element: &ProcessedWay) -> (e: EdificioBrasilia)
    ensures
        e == spec_edificio(spec_landmark_name(element.tags@)),
{
    let tags = &element.tags;
    let name = match tags.get("name") {
        Some(v) => to_lowercase(v.as_str()),
        None => match tags.get("building:name") {
            Some(v) => to_lowercase(v.as_str()),
            None => match tags.get("operator") {
                Some(v) => to_lowercase(v.as_str()),
                None => String::new(),
            },
        },
    };
    if string_contains(&name, "congresso nacional") || string_contains(
        &name,
        "câmara dos deputados",
    ) || string_contains(&name, "senado federal") {
        EdificioBrasilia::CongressoNacional
    } else if string_contains(&name, "palácio do planalto") || string_contains(
        &name,
        "palacio do planalto",
    ) {
        EdificioBrasilia::PalacioPlanalto
    } else if string_contains(&name, "supremo tribunal federal") || string_contains(&name, "stf") {
        EdificioBrasilia::STF
    } else if string_contains(&name, "itamaraty") || string_contains(&name, "relações exteriores") {
        EdificioBrasilia::Itamaraty
    } else if string_contains(&name, "hospital de base") || string_contains(&name, "santa lúcia")
        || string_contains(&name, "santa lucia") {
        EdificioBrasilia::HospitalBase
    } else if string_contains(&name, "banco do brasil") || string_contains(&name, "caixa econômica")
        || string_contains(&name, "banco central") || string_contains(&name, "brb") {
        EdificioBrasilia::SedeBancaria
    } else if string_contains(&name, "shopping") || string_contains(&name, "conjunto nacional") {
        EdificioBrasilia::Shopping
    } else if string_contains(&name, "catedral metropolitana") {
        EdificioBrasilia::CatedralMetropolitana
    } else {
        EdificioBrasilia::Nenhum
    }
}


/// The rooms laid out on one storey.
#[derive(Clone, Copy, PartialEq, Eq, Structural, Debug)]
pub enum RoomLayout {
    MonumentalAtrium,
    Shopping,
    HospitalBase,
    BancoSede,
    School,
    GenericHospital,
    Office,
    Residential,
    NoRooms,
}

/// The plan of one storey: its floor and ceiling heights, whether a slab is
/// laid (all but the ground floor; with an opening for the core and atrium),
/// the rooms, a corridor and an elevator core.
#[derive(Clone, Copy, PartialEq, Eq, Structural, Debug)]
pub struct FloorPlan {
    pub floor_y: i32,
    pub ceiling: i32,
    pub slab: bool,
    pub has_core: bool,
    pub is_atrium: bool,
    pub rooms: RoomLayout,
    pub corridor: bool,
    pub elevator: bool,
}

/// The interior of a building.
pub enum InteriorPlan {
    /// An underground station dug below the building's base `ground_y`: its
    /// floor slab at `platform_y - 1` (fifteen blocks down), the platforms at
    /// `platform_y` (fourteen down), the mezzanine at `mezzanine_y` (seven
    /// down), and its roof slab at `ground_y`; every block of the station lies
    /// between `platform_y - 1` and `ground_y`, both included.
    MetroUnderground { ground_y: i32, platform_y: i32, mezzanine_y: i32 },
    /// A station raised on a viaduct, its platforms at `platform_y`, eight
    /// blocks above the building's base.
    MetroElevated { platform_y: i32 },
    /// A single nave from just above the first floor to the roof.
    Church { floor_y: i32, ceiling: i32, cathedral: bool },
    /// Nothing: a place of worship without floors.
    NoInterior,
    Storeys(Vec<FloorPlan>),
}

/// The ceiling of storey `i`: the next floor, or the roof for the top one,
/// raised to a full storey where it would be lower than one storey less a block.
pub open spec fn spec_ceiling(floors: Seq<i32>, i: int, roof: int) -> int {
    let c = if i < floors.len() - 1 { floors[i + 1] as int } else { roof };
    if c - floors[i] < FLOOR_HEIGHT_BLOCKS - 1 {
        floors[i] + FLOOR_HEIGHT_BLOCKS
    } else {
        c
    }
}

/// Rooms, corridor and elevator of storey `i` (rooms, corridor, elevator).
pub open spec fn spec_storey_fit_out(
    i: int,
    height: int,
    has_core: bool,
    e: EdificioBrasilia,
    b: Bairro,
    t: Tipologia,
) -> (RoomLayout, bool, bool) {
    match e {
        EdificioBrasilia::CongressoNacional | EdificioBrasilia::STF
        | EdificioBrasilia::PalacioPlanalto | EdificioBrasilia::Itamaraty => (
            RoomLayout::MonumentalAtrium,
            false,
            has_core,
        ),
        EdificioBrasilia::Shopping => (RoomLayout::Shopping, false, has_core),
        EdificioBrasilia::HospitalBase => (RoomLayout::HospitalBase, false, has_core),
        EdificioBrasilia::SedeBancaria => (RoomLayout::BancoSede, false, has_core),
        EdificioBrasilia::CatedralMetropolitana => (RoomLayout::NoRooms, false, false),
        EdificioBrasilia::Nenhum => match t {
            Tipologia::Escola => (RoomLayout::School, true, has_core),
            Tipologia::Hospital => (RoomLayout::GenericHospital, true, has_core),
            Tipologia::Corporativo => (RoomLayout::Office, true, has_core),
            Tipologia::MetroSubterraneo | Tipologia::MetroElevado | Tipologia::Religioso => (
                RoomLayout::NoRooms,
                false,
                false,
            ),
            _ => match b {
                Bairro::SQS => if i == 0 {
                    (RoomLayout::NoRooms, false, false)
                } else {
                    (RoomLayout::NoRooms, true, has_core)
                },
                Bairro::SQN => if i == 0 && has_core {
                    (RoomLayout::NoRooms, false, true)
                } else {
                    (RoomLayout::NoRooms, true, has_core)
                },
                Bairro::Comercial | Bairro::AguasClaras => (RoomLayout::NoRooms, true, has_core),
                Bairro::Guara | Bairro::Samambaia | Bairro::Condominio => if height <= 12 && t
                    == Tipologia::Residencial {
                    (RoomLayout::Residential, false, false)
                } else {
                    (RoomLayout::NoRooms, true, has_core)
                },
                Bairro::Outro => (RoomLayout::NoRooms, has_core, has_core),
            },
        },
    }
}

/// The plan of storey `i` of a building with floors at `floors`, its roof
/// `height` blocks above `start_y`.
pub open spec fn spec_floor_plan(
    floors: Seq<i32>,
    i: int,
    start_y: int,
    height: int,
    e: EdificioBrasilia,
    b: Bairro,
    t: Tipologia,
) -> FloorPlan {
    let vertical = t == Tipologia::Hospital || t == Tipologia::Corporativo || t
        == Tipologia::Comercial;
    let has_core = floors.len() > 2 || (height > 12 && vertical);
    let fit = spec_storey_fit_out(i, height, has_core, e, b, t);
    FloorPlan {
        floor_y: floors[i],
        ceiling: spec_ceiling(floors, i, start_y + height) as i32,
        slab: i > 0,
        has_core,
        is_atrium: e == EdificioBrasilia::CongressoNacional || e == EdificioBrasilia::STF || e
            == EdificioBrasilia::PalacioPlanalto || e == EdificioBrasilia::Itamaraty || e
            == EdificioBrasilia::Shopping,
        rooms: fit.0,
        corridor: fit.1,
        elevator: fit.2,
    }
}

fn storey_fit_out(
    i: usize,
    height: i32,
    has_core: bool,
    e: EdificioBrasilia,
    b: Bairro,
    t: Tipologia,
) -> (r: (RoomLayout, bool, bool))
    ensures
        r == spec_storey_fit_out(i as int, height as int, has_core, e, b, t),
{
    match e {
        EdificioBrasilia::CongressoNacional | EdificioBrasilia::STF
        | EdificioBrasilia::PalacioPlanalto | EdificioBrasilia::Itamaraty => (
            RoomLayout::MonumentalAtrium,
            false,
            has_core,
        ),
        EdificioBrasilia::Shopping => (RoomLayout::Shopping, false, has_core),
        EdificioBrasilia::HospitalBase => (RoomLayout::HospitalBase, false, has_core),
        EdificioBrasilia::SedeBancaria => (RoomLayout::BancoSede, false, has_core),
        EdificioBrasilia::CatedralMetropolitana => (RoomLayout::NoRooms, false, false),
        EdificioBrasilia::Nenhum => match t {
            Tipologia::Escola => (RoomLayout::School, true, has_core),
            Tipologia::Hospital => (RoomLayout::GenericHospital, true, has_core),
            Tipologia::Corporativo => (RoomLayout::Office, true, has_core),
            Tipologia::MetroSubterraneo | Tipologia::MetroElevado | Tipologia::Religioso => (
                RoomLayout::NoRooms,
                false,
                false,
            ),
            _ => match b {
                Bairro::SQS => if i == 0 {
                    (RoomLayout::NoRooms, false, false)
                } else {
                    (RoomLayout::NoRooms, true, has_core)
                },
                Bairro::SQN => if i == 0 && has_core {
                    (RoomLayout::NoRooms, false, true)
                } else {
                    (RoomLayout::NoRooms, true, has_core)
                },
                Bairro::Comercial | Bairro::AguasClaras => (RoomLayout::NoRooms, true, has_core),
                Bairro::Guara | Bairro::Samambaia | Bairro::Condominio => if height <= 12 && t
                    == Tipologia::Residencial {
                    (RoomLayout::Residential, false, false)
                } else {
                    (RoomLayout::NoRooms, true, has_core)
                },
                Bairro::Outro => (RoomLayout::NoRooms, has_core, has_core),
            },
        },
    }
}

/// The interior of a building with floors at `floors` and its roof `height`
/// blocks above `start_y`: metro stations and places of worship have plans
/// of their own; other buildings are planned storey by storey.
pub fn generate_building_interior(
    start_y: i32,
    height: i32,
    floors: &[i32],
    element: &ProcessedWay,
) -> (plan: InteriorPlan)
    requires
        i32::MIN <= start_y + height <= i32::MAX,
        forall|k: int| 0 <= k < floors@.len() ==> floors@[k] + FLOOR_HEIGHT_BLOCKS <= i32::MAX,
        spec_tipologia(element.tags@) == Tipologia::MetroSubterraneo ==> start_y >= i32::MIN + 15,
        spec_tipologia(element.tags@) == Tipologia::MetroElevado ==> start_y <= i32::MAX - 8,
    ensures
        spec_tipologia(element.tags@) == Tipologia::MetroSubterraneo ==> plan == (
        InteriorPlan::MetroUnderground {
            ground_y: start_y,
            platform_y: (start_y - 14) as i32,
            mezzanine_y: (start_y - 7) as i32,
        }),
        spec_tipologia(element.tags@) == Tipologia::MetroElevado ==> plan == (
        InteriorPlan::MetroElevated { platform_y: (start_y + 8) as i32 }),
        spec_tipologia(element.tags@) == Tipologia::Religioso ==> (if floors@.len() == 0 {
            plan is NoInterior
        } else {
            plan == (InteriorPlan::Church {
                floor_y: (floors@[0] + 1) as i32,
                ceiling: (start_y + height) as i32,
                cathedral: spec_edificio(spec_landmark_name(element.tags@))
                    == EdificioBrasilia::CatedralMetropolitana,
            })
        }),
        spec_tipologia(element.tags@) != Tipologia::MetroSubterraneo && spec_tipologia(
            element.tags@,
        ) != Tipologia::MetroElevado && spec_tipologia(element.tags@) != Tipologia::Religioso
            ==> (plan matches InteriorPlan::Storeys(v) && v@.len() == floors@.len() && forall|
            k: int,
        |
            0 <= k < v@.len() ==> #[trigger] v@[k] == spec_floor_plan(
                floors@,
                k,
                start_y as int,
                height as int,
                spec_edificio(spec_landmark_name(element.tags@)),
                spec_bairro(lower_tag(element.tags@, "addr:suburb"@)),
                spec_tipologia(element.tags@),
            )),
{
    let edificio = detect_edificio_especifico(element);
    let bairro = detect_bairro(element);
    let tipologia = detect_tipologia(element);
    let total_floors = floors.len();

    if tipologia == Tipologia::MetroSubterraneo {
        return InteriorPlan::MetroUnderground {
            ground_y: start_y,
            platform_y: start_y - 14,
            mezzanine_y: start_y - 7,
        };
    }
    if tipologia == Tipologia::MetroElevado {
        return InteriorPlan::MetroElevated { platform_y: start_y + 8 };
    }
    if tipologia == Tipologia::Religioso {
        if total_floors == 0 {
            return InteriorPlan::NoInterior;
        }
        return InteriorPlan::Church {
            floor_y: floors[0] + 1,
            ceiling: start_y + height,
            cathedral: edificio == EdificioBrasilia::CatedralMetropolitana,
        };
    }
    let vertical = tipologia == Tipologia::Hospital || tipologia == Tipologia::Corporativo
        || tipologia == Tipologia::Comercial;
    let has_core = total_floors > 2 || (height > 12 && vertical);
    let is_atrium = edificio == EdificioBrasilia::CongressoNacional || edificio
        == EdificioBrasilia::STF || edificio == EdificioBrasilia::PalacioPlanalto || edificio
        == EdificioBrasilia::Itamaraty || edificio == EdificioBrasilia::Shopping;
    let roof = start_y + height;
    let mut plans: Vec<FloorPlan> = Vec::new();
    let mut i: usize = 0;
    while i < total_floors
        invariant
            total_floors == floors@.len(),
            0 <= i <= total_floors,
            roof == start_y + height,
            forall|k: int| 0 <= k < floors@.len() ==> floors@[k] + FLOOR_HEIGHT_BLOCKS <= i32::MAX,
            has_core == (floors@.len() > 2 || (height > 12 && (tipologia == Tipologia::Hospital
                || tipologia == Tipologia::Corporativo || tipologia == Tipologia::Comercial))),
            is_atrium == (edificio == EdificioBrasilia::CongressoNacional || edificio
                == EdificioBrasilia::STF || edificio == EdificioBrasilia::PalacioPlanalto
                || edificio == EdificioBrasilia::Itamaraty || edificio
                == EdificioBrasilia::Shopping),
            plans@.len() == i,
            forall|k: int|
                0 <= k < i ==> #[trigger] plans@[k] == spec_floor_plan(
                    floors@,
                    k,
                    start_y as int,
                    height as int,
                    edificio,
                    bairro,
                    tipologia,
                ),
        decreases total_floors - i,
    {
        let floor_y = floors[i];
        let mut ceiling: i32 = if i < total_floors - 1 {
            floors[i + 1]
        } else {
            roof
        };
        if (ceiling as i64) - (floor_y as i64) < (FLOOR_HEIGHT_BLOCKS - 1) as i64 {
            ceiling = floor_y + FLOOR_HEIGHT_BLOCKS;
        }
        let fit = storey_fit_out(i, height, has_core, edificio, bairro, tipologia);
        plans.push(
            FloorPlan {
                floor_y,
                ceiling,
                slab: i > 0,
                has_core,
                is_atrium,
                rooms: fit.0,
                corridor: fit.1,
                elevator: fit.2,
            },
        );
        i = i + 1;
    }
    InteriorPlan::Storeys(plans)
}

// ---------------------------------------------------------------------------
// Churches
// ---------------------------------------------------------------------------

/// The blocks of a church's interior.
#[derive(Clone, Copy, PartialEq, Eq, Structural, Debug)]
pub enum ChurchBlock {
    Air,
    SmoothQuartz,
    SmoothStoneSlab,
    QuartzBlock,
    WhiteConcrete,
    OakDoor,
    RedCarpet,
    OakStairs,
    GoldBlock,
}

/// The block a nave leaves at a cell, in coordinates along the nave (`a`,
/// from the entrance at `min_a` to the altar end at `max_a`) and across it
/// (`c`, centre `cc`), at height `h`; `None` where it leaves the cell as it
/// was. Later parts of the layout cover earlier ones: the gold block on the
/// altar, the altar step, the pews (every other row), pillars (every fourth
/// row) and the red carpet of the aisle, the sacristy door and wall, the
/// doorway and wall of the narthex, and the cleared interior.
pub open spec fn nave_block(
    a: int,
    c: int,
    h: int,
    min_a: int,
    max_a: int,
    min_c: int,
    max_c: int,
    cc: int,
    y: int,
    ceiling: int,
) -> Option<ChurchBlock> {
    let narthex = min_a + 4;
    let altar = max_a - 6;
    let inner_c = min_c + 1 <= c < max_c - 1;
    let inner_a = min_a + 1 <= a < max_a - 1;
    let in_nave = narthex + 1 <= a < altar;
    if h == y + 1 && a == altar && c == cc {
        Some(ChurchBlock::GoldBlock)
    } else if h == y && a == altar && min_c + 2 <= c < max_c - 2 {
        Some(ChurchBlock::SmoothQuartz)
    } else if in_nave && (a - min_a) % 2 == 0 && h == y && ((min_c + 4 <= c < cc - 1) || (cc + 1
        <= c < max_c - 4)) {
        Some(ChurchBlock::OakStairs)
    } else if in_nave && (a - min_a) % 4 == 0 && (c == min_c + 3 || c == max_c - 3) && y <= h
        < ceiling {
        Some(ChurchBlock::SmoothQuartz)
    } else if in_nave && h == y && (c == cc || c == cc - 1) {
        Some(ChurchBlock::RedCarpet)
    } else if h == y + 1 && a == altar + 2 && c == min_c + 3 {
        Some(ChurchBlock::OakDoor)
    } else if a == altar + 2 && inner_c && y <= h < ceiling - 2 {
        Some(ChurchBlock::WhiteConcrete)
    } else if a == narthex && (c == cc || c == cc - 1) && (h == y || h == y + 1) {
        Some(ChurchBlock::Air)
    } else if a == narthex && inner_c && y <= h < ceiling - 2 {
        Some(ChurchBlock::WhiteConcrete)
    } else if inner_a && inner_c && y <= h < ceiling {
        Some(ChurchBlock::Air)
    } else {
        None
    }
}

/// The block a cathedral's round altar leaves at a cell: three quartz blocks
/// over the centre, a disc of smooth quartz (radius 3) ringed by slabs
/// (radius 4) on the floor, and the cleared interior.
pub open spec fn cathedral_block(
    x: int,
    z: int,
    h: int,
    min_x: int,
    max_x: int,
    min_z: int,
    max_z: int,
    cx: int,
    cz: int,
    y: int,
    ceiling: int,
) -> Option<ChurchBlock> {
    let dx = x - cx;
    let dz = z - cz;
    if h == y + 1 && z == cz && -1 <= dx <= 1 {
        Some(ChurchBlock::QuartzBlock)
    } else if h == y && -3 <= dx <= 3 && -3 <= dz <= 3 && dx * dx + dz * dz <= 9 {
        Some(ChurchBlock::SmoothQuartz)
    } else if h == y && -3 <= dx <= 3 && -3 <= dz <= 3 && dx * dx + dz * dz <= 16 {
        Some(ChurchBlock::SmoothStoneSlab)
    } else if min_x + 1 <= x < max_x - 1 && min_z + 1 <= z < max_z - 1 && y <= h < ceiling {
        Some(ChurchBlock::Air)
    } else {
        None
    }
}

/// The block the interior of a church over `min_x ..= max_x` by `min_z ..=
/// max_z`, from floor `y` up to `ceiling`, leaves at `(x, h, z)`: nothing in
/// buildings narrower than seven blocks either way; a round altar for the
/// cathedral; else a nave along the longer side (along z when the building
/// is deeper than wide).
pub open spec fn spec_church_block(
    min_x: int,
    max_x: int,
    min_z: int,
    max_z: int,
    y: int,
    ceiling: int,
    is_catedral: bool,
    x: int,
    h: int,
    z: int,
) -> Option<ChurchBlock> {
    let cx = div_toward_zero(min_x + max_x, 2);
    let cz = div_toward_zero(min_z + max_z, 2);
    if max_x - min_x < 7 || max_z - min_z < 7 {
        None
    } else if is_catedral {
        cathedral_block(x, z, h, min_x, max_x, min_z, max_z, cx, cz, y, ceiling)
    } else if max_z - min_z > max_x - min_x {
        nave_block(z, x, h, min_z, max_z, min_x, max_x, cx, y, ceiling)
    } else {
        nave_block(x, z, h, min_x, max_x, min_z, max_z, cz, y, ceiling)
    }
}

fn nave_block_exec(
    a: i64,
    c: i64,
    h: i64,
    min_a: i64,
    max_a: i64,
    min_c: i64,
    max_c: i64,
    cc: i64,
    y: i64,
    ceiling: i64,
) -> (r: Option<ChurchBlock>)
    requires
        -0x1_0000_0000 <= a <= 0x1_0000_0000,
        -0x1_0000_0000 <= c <= 0x1_0000_0000,
        -0x1_0000_0000 <= h <= 0x1_0000_0000,
        -0x1_0000_0000 <= min_a <= 0x1_0000_0000,
        -0x1_0000_0000 <= max_a <= 0x1_0000_0000,
        -0x1_0000_0000 <= min_c <= 0x1_0000_0000,
        -0x1_0000_0000 <= max_c <= 0x1_0000_0000,
        -0x1_0000_0000 <= cc <= 0x1_0000_0000,
        -0x1_0000_0000 <= y <= 0x1_0000_0000,
        -0x1_0000_0000 <= ceiling <= 0x1_0000_0000,
        min_a <= a,
    ensures
        r == nave_block(
            a as int,
            c as int,
            h as int,
            min_a as int,
            max_a as int,
            min_c as int,
            max_c as int,
            cc as int,
            y as int,
            ceiling as int,
        ),
{
    let narthex = min_a + 4;
    let altar = max_a - 6;
    let inner_c = min_c + 1 <= c && c < max_c - 1;
    let inner_a = min_a + 1 <= a && a < max_a - 1;
    let in_nave = narthex + 1 <= a && a < altar;
    if h == y + 1 && a == altar && c == cc {
        Some(ChurchBlock::GoldBlock)
    } else if h == y && a == altar && min_c + 2 <= c && c < max_c - 2 {
        Some(ChurchBlock::SmoothQuartz)
    } else if in_nave && (a - min_a) % 2 == 0 && h == y && ((min_c + 4 <= c && c < cc - 1) || (cc
        + 1 <= c && c < max_c - 4)) {
        Some(ChurchBlock::OakStairs)
    } else if in_nave && (a - min_a) % 4 == 0 && (c == min_c + 3 || c == max_c - 3) && y <= h && h
        < ceiling {
        Some(ChurchBlock::SmoothQuartz)
    } else if in_nave && h == y && (c == cc || c == cc - 1) {
        Some(ChurchBlock::RedCarpet)
    } else if h == y + 1 && a == altar + 2 && c == min_c + 3 {
        Some(ChurchBlock::OakDoor)
    } else if a == altar + 2 && inner_c && y <= h && h < ceiling - 2 {
        Some(ChurchBlock::WhiteConcrete)
    } else if a == narthex && (c == cc || c == cc - 1) && (h == y || h == y + 1) {
        Some(ChurchBlock::Air)
    } else if a == narthex && inner_c && y <= h && h < ceiling - 2 {
        Some(ChurchBlock::WhiteConcrete)
    } else if inner_a && inner_c && y <= h && h < ceiling {
        Some(ChurchBlock::Air)
    } else {
        None
    }
}

/// The block the interior of a church leaves at `(x, h, z)`, or `None`
/// where the cell is left as it was.
pub fn church_block_at(
    min_x: i32,
    max_x: i32,
    min_z: i32,
    max_z: i32,
    y: i32,
    ceiling: i32,
    is_catedral: bool,
    x: i32,
    h: i32,
    z: i32,
) -> (r: Option<ChurchBlock>)
    requires
        i32::MIN <= min_x + max_x <= i32::MAX,
        i32::MIN <= min_z + max_z <= i32::MAX,
    ensures
        r == spec_church_block(
            min_x as int,
            max_x as int,
            min_z as int,
            max_z as int,
            y as int,
            ceiling as int,
            is_catedral,
            x as int,
            h as int,
            z as int,
        ),
{
    let cx: i32 = (min_x + max_x) / 2;
    let cz: i32 = (min_z + max_z) / 2;
    let wide: i64 = max_x as i64 - min_x as i64;
    let deep: i64 = max_z as i64 - min_z as i64;
    if wide < 7 || deep < 7 {
        return None;
    }
    if is_catedral {
        let dx: i64 = x as i64 - cx as i64;
        let dz: i64 = z as i64 - cz as i64;
        let (x, z, h, y, ceiling) = (x as i64, z as i64, h as i64, y as i64, ceiling as i64);
        if h == y + 1 && z == cz as i64 && -1 <= dx && dx <= 1 {
            return Some(ChurchBlock::QuartzBlock);
        }
        if h == y && -3 <= dx && dx <= 3 && -3 <= dz && dz <= 3 {
            assert(0 <= dx * dx <= 9 && 0 <= dz * dz <= 9) by (nonlinear_arith)
                requires
                    -3 <= dx <= 3,
                    -3 <= dz <= 3,
            ;
            let d2 = dx * dx + dz * dz;
            if d2 <= 9 {
                return Some(ChurchBlock::SmoothQuartz);
            } else if d2 <= 16 {
                return Some(ChurchBlock::SmoothStoneSlab);
            }
        }
        if min_x as i64 + 1 <= x && x < max_x as i64 - 1 && min_z as i64 + 1 <= z && z < max_z
            as i64 - 1 && y <= h && h < ceiling {
            return Some(ChurchBlock::Air);
        }
        return None;
    }
    if deep > wide {
        if (z as i64) < (min_z as i64) {
            proof {
                assert(nave_block(z as int, x as int, h as int, min_z as int, max_z as int, min_x as int, max_x as int, cx as int, y as int, ceiling as int) is None);
            }
            return None;
        }
        nave_block_exec(
            z as i64,
            x as i64,
            h as i64,
            min_z as i64,
            max_z as i64,
            min_x as i64,
            max_x as i64,
            cx as i64,
            y as i64,
            ceiling as i64,
        )
    } else {
        if (x as i64) < (min_x as i64) {
            proof {
                assert(nave_block(x as int, z as int, h as int, min_x as int, max_x as int, min_z as int, max_z as int, cz as int, y as int, ceiling as int) is None);
            }
            return None;
        }
        nave_block_exec(
            x as i64,
            z as i64,
            h as i64,
            min_x as i64,
            max_x as i64,
            min_z as i64,
            max_z as i64,
            cz as i64,
            y as i64,
            ceiling as i64,
        )
    }
}

// ---------------------------------------------------------------------------
// Flats
// ---------------------------------------------------------------------------

/// The blocks of a flat's interior.
#[derive(Clone, Copy, PartialEq, Eq, Structural, Debug)]
pub enum ResidentialBlock {
    SmoothQuartz,
    WhiteConcrete,
    Air,
    OakDoor,
    PolishedAndesite,
    Furnace,
    GlassPane,
    StoneStairs,
    StoneBricks,
    SmoothStoneSlab,
}

/// The block the storey of a flat over `min_x ..= max_x` by `min_z ..= max_z`,
/// from floor `y` up to `ceiling`, leaves at `(x, h, z)`; `None` where it
/// leaves the cell as it was. Nothing in flats whose inner width or depth
/// (two blocks less than the outer) is under 4.5 m (6 blocks at 1.33 blocks a
/// metre). Otherwise, later parts of the layout cover earlier ones: the
/// stairs to the next storey (two flights and a landing in a cleared well,
/// in flats deeper than 8 m of buildings with more than one storey and
/// storeys at least 4 blocks high), the glazed balcony (Guará and Samambaia),
/// the kitchen (walled in those two, with its own door, where deeper than
/// 7 m; a counter elsewhere), the rooms (one bedroom and bath in flats
/// narrower than 6 m, two rooms up to 9 m, three rooms and a suite beyond),
/// and the suspended ceiling two blocks below the next floor.
pub open spec fn spec_residential_block(
    min_x: int,
    max_x: int,
    min_z: int,
    max_z: int,
    y: int,
    ceiling: int,
    guara: bool,
    many_floors: bool,
    x: int,
    h: int,
    z: int,
) -> Option<ResidentialBlock> {
    let li = (max_x - min_x) - 2;
    let p = (max_z - min_z) - 2;
    let mz = min_z + div_toward_zero(p, 2);
    let mx = min_x + div_toward_zero(li, 2);
    let forro = ceiling - 2;
    let varanda_z = if li < p { min_z } else { max_z - 1 };
    let terco = div_toward_zero(li, 3);
    let suite_x = min_x + terco * 2 + 1;
    let narrow = li <= 7;
    let medium = !narrow && li <= 11;
    let wide = !narrow && !medium;
    let suite_bound = if wide { max_z - 4 } else { max_z };
    let kz = min_z + 1;
    let kx = max_x - 5;
    let alt = ceiling - y;
    let ex = min_x + 2;
    let ez = min_z + 2;
    let pat = y + div_toward_zero(alt, 2);
    let room = many_floors && alt >= 4 && p >= 11 && ex + 3 < max_x && ez + 5 < max_z;
    let d1 = pat - y;
    let d2 = ceiling - pat;
    let i4 = ez + d1 - 1 - z;
    let t4 = room && 0 <= i4 && i4 < d2 && z >= min_z;
    let i2 = z - ez;
    let t2 = room && 0 <= i2 && i2 < d1 && z < max_z;
    let landing = room && ez + d1 + 1 < max_z;
    let inner_x = min_x + 1 <= x && x < max_x - 1;
    let inner_z = min_z + 1 <= z && z < max_z - 1;
    let wall_h = y <= h && h < forro;
    let kitchen = guara && p >= 10;
    if li <= 5 || p <= 5 {
        None
    } else if t4 && x == ex + 1 && h == pat + i4 {
        Some(ResidentialBlock::StoneStairs)
    } else if t4 && x == ex + 1 && y <= h && h < pat + i4 {
        Some(ResidentialBlock::StoneBricks)
    } else if t4 && x == ex && h == pat + i4 + 1 {
        Some(ResidentialBlock::GlassPane)
    } else if landing && x == ex + 2 && h == pat + 1 && z == ez + d1 {
        Some(ResidentialBlock::GlassPane)
    } else if landing && ex <= x && x <= ex + 1 && h == pat && ez + d1 <= z && z <= ez + d1 + 1 {
        Some(ResidentialBlock::SmoothStoneSlab)
    } else if t2 && (x == ex || x == ex + 1) && y <= h && h < y + i2 {
        Some(ResidentialBlock::StoneBricks)
    } else if t2 && x == ex + 2 && h == y + i2 + 1 {
        Some(ResidentialBlock::GlassPane)
    } else if t2 && (x == ex || x == ex + 1) && h == y + i2 {
        Some(ResidentialBlock::StoneStairs)
    } else if room && ex <= x && x <= ex + 2 && ez <= z && z <= ez + 5 && forro <= h && h <= ceiling + 1 {
        Some(ResidentialBlock::Air)
    } else if guara && inner_x && z == varanda_z && (h == y + 1 || h == y + 2) {
        Some(ResidentialBlock::Air)
    } else if guara && inner_x && z == varanda_z && h == y {
        Some(ResidentialBlock::GlassPane)
    } else if kitchen && x == max_x - 2 && h == y + 1 && z == kz + 2 {
        Some(ResidentialBlock::Furnace)
    } else if kitchen && x == max_x - 2 && h == y + 1 && z == kz + 1 {
        Some(ResidentialBlock::PolishedAndesite)
    } else if kitchen && x == kx + 1 && h == y + 1 && z == kz + 2 {
        Some(ResidentialBlock::OakDoor)
    } else if kitchen && kx <= x && x <= kx + 4 && kz <= z && z <= kz + 4 && z < suite_bound && wall_h && (x == kx || z == kz + 4) {
        Some(ResidentialBlock::WhiteConcrete)
    } else if !guara && x == max_x - 2 && h == y + 1 && z == kz + 1 {
        Some(ResidentialBlock::Furnace)
    } else if !guara && x == kx && h == y + 1 && kz + 1 <= z && z <= kz + 3 {
        Some(ResidentialBlock::SmoothQuartz)
    } else if narrow && x == min_x + 5 && h == y + 1 && z == mz + 1 {
        Some(ResidentialBlock::OakDoor)
    } else if narrow && min_x + 4 <= x && x <= min_x + 5 && mz <= z && z <= mz + 2 && wall_h {
        if x == min_x + 5 || z == mz + 2 || z == mz {
            Some(ResidentialBlock::WhiteConcrete)
        } else {
            Some(ResidentialBlock::Air)
        }
    } else if narrow && x == min_x + 4 && h == y + 1 && (z == min_z + 3 || z == max_z - 3) {
        Some(ResidentialBlock::OakDoor)
    } else if narrow && x == min_x + 3 && inner_z && wall_h {
        Some(ResidentialBlock::WhiteConcrete)
    } else if medium && x == mx + 1 && h == y + 1 && z == mz + 2 {
        Some(ResidentialBlock::OakDoor)
    } else if medium && x == mx && mz <= z && z < max_z - 1 && wall_h {
        Some(ResidentialBlock::WhiteConcrete)
    } else if medium && x == min_x + 5 && h == y + 1 && z == min_z + 2 {
        Some(ResidentialBlock::OakDoor)
    } else if medium && min_x + 3 <= x && x <= min_x + 5 && min_z <= z && z <= min_z + 3 && wall_h && (x == min_x + 3 || x == min_x + 5 || z == min_z + 3) {
        Some(ResidentialBlock::WhiteConcrete)
    } else if medium && (x == mx || x == mx - 1) && z == mz && (h == y + 1 || h == y + 2) {
        Some(ResidentialBlock::Air)
    } else if medium && inner_x && z == mz && wall_h {
        Some(ResidentialBlock::WhiteConcrete)
    } else if wide && x == suite_x && h == y + 1 && z == max_z - 2 {
        Some(ResidentialBlock::OakDoor)
    } else if wide && suite_x <= x && x <= suite_x + 3 && max_z - 4 <= z && z <= max_z - 1 && wall_h && (x == suite_x || x == suite_x + 3 || z == max_z - 1 || z == max_z - 4) {
        Some(ResidentialBlock::WhiteConcrete)
    } else if wide && mx - 1 <= x && x <= mx + 1 && z == mz && (h == y + 1 || h == y + 2) {
        Some(ResidentialBlock::Air)
    } else if wide && inner_x && z == mz && wall_h {
        Some(ResidentialBlock::WhiteConcrete)
    } else if wide && x == min_x + terco * 2 + 1 && h == y + 1 && z == mz + 1 {
        Some(ResidentialBlock::OakDoor)
    } else if wide && x == min_x + terco * 2 && mz <= z && z < max_z - 1 && wall_h {
        Some(ResidentialBlock::WhiteConcrete)
    } else if wide && x == min_x + terco + 1 && h == y + 1 && z == mz + 1 {
        Some(ResidentialBlock::OakDoor)
    } else if wide && x == min_x + terco && mz <= z && z < max_z - 1 && wall_h {
        Some(ResidentialBlock::WhiteConcrete)
    } else if forro > y + 2 && inner_x && inner_z && h == forro {
        Some(ResidentialBlock::SmoothQuartz)
    } else {
        None
    }
}

#[verifier::spinoff_prover]
#[verifier::rlimit(100)]
fn residential_block_exec(
    min_x: i64,
    max_x: i64,
    min_z: i64,
    max_z: i64,
    y: i64,
    ceiling: i64,
    guara: bool,
    many_floors: bool,
    x: i64,
    h: i64,
    z: i64,
) -> (r: Option<ResidentialBlock>)
    requires
        -0x1_0000_0000 <= min_x <= 0x1_0000_0000,
        -0x1_0000_0000 <= max_x <= 0x1_0000_0000,
        -0x1_0000_0000 <= min_z <= 0x1_0000_0000,
        -0x1_0000_0000 <= max_z <= 0x1_0000_0000,
        -0x1_0000_0000 <= y <= 0x1_0000_0000,
        -0x1_0000_0000 <= ceiling <= 0x1_0000_0000,
        -0x1_0000_0000 <= x <= 0x1_0000_0000,
        -0x1_0000_0000 <= h <= 0x1_0000_0000,
        -0x1_0000_0000 <= z <= 0x1_0000_0000,
    ensures
        r == spec_residential_block(
            min_x as int,
            max_x as int,
            min_z as int,
            max_z as int,
            y as int,
            ceiling as int,
            guara,
            many_floors,
            x as int,
            h as int,
            z as int,
        ),
{
    let li = (max_x - min_x) - 2;
    let p = (max_z - min_z) - 2;
    let mz = min_z + (p) / 2;
    let mx = min_x + (li) / 2;
    let forro = ceiling - 2;
    let varanda_z = if li < p { min_z } else { max_z - 1 };
    let terco = (li) / 3;
    let suite_x = min_x + terco * 2 + 1;
    let narrow = li <= 7;
    let medium = !narrow && li <= 11;
    let wide = !narrow && !medium;
    let suite_bound = if wide { max_z - 4 } else { max_z };
    let kz = min_z + 1;
    let kx = max_x - 5;
    let alt = ceiling - y;
    let ex = min_x + 2;
    let ez = min_z + 2;
    let pat = y + (alt) / 2;
    let room = many_floors && alt >= 4 && p >= 11 && ex + 3 < max_x && ez + 5 < max_z;
    let d1 = pat - y;
    let d2 = ceiling - pat;
    let i4 = ez + d1 - 1 - z;
    let t4 = room && 0 <= i4 && i4 < d2 && z >= min_z;
    let i2 = z - ez;
    let t2 = room && 0 <= i2 && i2 < d1 && z < max_z;
    let landing = room && ez + d1 + 1 < max_z;
    let inner_x = min_x + 1 <= x && x < max_x - 1;
    let inner_z = min_z + 1 <= z && z < max_z - 1;
    let wall_h = y <= h && h < forro;
    let kitchen = guara && p >= 10;
    if li <= 5 || p <= 5 {
        None
    } else if t4 && x == ex + 1 && h == pat + i4 {
        Some(ResidentialBlock::StoneStairs)
    } else if t4 && x == ex + 1 && y <= h && h < pat + i4 {
        Some(ResidentialBlock::StoneBricks)
    } else if t4 && x == ex && h == pat + i4 + 1 {
        Some(ResidentialBlock::GlassPane)
    } else if landing && x == ex + 2 && h == pat + 1 && z == ez + d1 {
        Some(ResidentialBlock::GlassPane)
    } else if landing && ex <= x && x <= ex + 1 && h == pat && ez + d1 <= z && z <= ez + d1 + 1 {
        Some(ResidentialBlock::SmoothStoneSlab)
    } else if t2 && (x == ex || x == ex + 1) && y <= h && h < y + i2 {
        Some(ResidentialBlock::StoneBricks)
    } else if t2 && x == ex + 2 && h == y + i2 + 1 {
        Some(ResidentialBlock::GlassPane)
    } else if t2 && (x == ex || x == ex + 1) && h == y + i2 {
        Some(ResidentialBlock::StoneStairs)
    } else if room && ex <= x && x <= ex + 2 && ez <= z && z <= ez + 5 && forro <= h && h <= ceiling + 1 {
        Some(ResidentialBlock::Air)
    } else if guara && inner_x && z == varanda_z && (h == y + 1 || h == y + 2) {
        Some(ResidentialBlock::Air)
    } else if guara && inner_x && z == varanda_z && h == y {
        Some(ResidentialBlock::GlassPane)
    } else if kitchen && x == max_x - 2 && h == y + 1 && z == kz + 2 {
        Some(ResidentialBlock::Furnace)
    } else if kitchen && x == max_x - 2 && h == y + 1 && z == kz + 1 {
        Some(ResidentialBlock::PolishedAndesite)
    } else if kitchen && x == kx + 1 && h == y + 1 && z == kz + 2 {
        Some(ResidentialBlock::OakDoor)
    } else if kitchen && kx <= x && x <= kx + 4 && kz <= z && z <= kz + 4 && z < suite_bound && wall_h && (x == kx || z == kz + 4) {
        Some(ResidentialBlock::WhiteConcrete)
    } else if !guara && x == max_x - 2 && h == y + 1 && z == kz + 1 {
        Some(ResidentialBlock::Furnace)
    } else if !guara && x == kx && h == y + 1 && kz + 1 <= z && z <= kz + 3 {
        Some(ResidentialBlock::SmoothQuartz)
    } else if narrow && x == min_x + 5 && h == y + 1 && z == mz + 1 {
        Some(ResidentialBlock::OakDoor)
    } else if narrow && min_x + 4 <= x && x <= min_x + 5 && mz <= z && z <= mz + 2 && wall_h {
        if x == min_x + 5 || z == mz + 2 || z == mz {
            Some(ResidentialBlock::WhiteConcrete)
        } else {
            Some(ResidentialBlock::Air)
        }
    } else if narrow && x == min_x + 4 && h == y + 1 && (z == min_z + 3 || z == max_z - 3) {
        Some(ResidentialBlock::OakDoor)
    } else if narrow && x == min_x + 3 && inner_z && wall_h {
        Some(ResidentialBlock::WhiteConcrete)
    } else if medium && x == mx + 1 && h == y + 1 && z == mz + 2 {
        Some(ResidentialBlock::OakDoor)
    } else if medium && x == mx && mz <= z && z < max_z - 1 && wall_h {
        Some(ResidentialBlock::WhiteConcrete)
    } else if medium && x == min_x + 5 && h == y + 1 && z == min_z + 2 {
        Some(ResidentialBlock::OakDoor)
    } else if medium && min_x + 3 <= x && x <= min_x + 5 && min_z <= z && z <= min_z + 3 && wall_h && (x == min_x + 3 || x == min_x + 5 || z == min_z + 3) {
        Some(ResidentialBlock::WhiteConcrete)
    } else if medium && (x == mx || x == mx - 1) && z == mz && (h == y + 1 || h == y + 2) {
        Some(ResidentialBlock::Air)
    } else if medium && inner_x && z == mz && wall_h {
        Some(ResidentialBlock::WhiteConcrete)
    } else if wide && x == suite_x && h == y + 1 && z == max_z - 2 {
        Some(ResidentialBlock::OakDoor)
    } else if wide && suite_x <= x && x <= suite_x + 3 && max_z - 4 <= z && z <= max_z - 1 && wall_h && (x == suite_x || x == suite_x + 3 || z == max_z - 1 || z == max_z - 4) {
        Some(ResidentialBlock::WhiteConcrete)
    } else if wide && mx - 1 <= x && x <= mx + 1 && z == mz && (h == y + 1 || h == y + 2) {
        Some(ResidentialBlock::Air)
    } else if wide && inner_x && z == mz && wall_h {
        Some(ResidentialBlock::WhiteConcrete)
    } else if wide && x == min_x + terco * 2 + 1 && h == y + 1 && z == mz + 1 {
        Some(ResidentialBlock::OakDoor)
    } else if wide && x == min_x + terco * 2 && mz <= z && z < max_z - 1 && wall_h {
        Some(ResidentialBlock::WhiteConcrete)
    } else if wide && x == min_x + terco + 1 && h == y + 1 && z == mz + 1 {
        Some(ResidentialBlock::OakDoor)
    } else if wide && x == min_x + terco && mz <= z && z < max_z - 1 && wall_h {
        Some(ResidentialBlock::WhiteConcrete)
    } else if forro > y + 2 && inner_x && inner_z && h == forro {
        Some(ResidentialBlock::SmoothQuartz)
    } else {
        None
    }
}

/// The block the storey of a flat in district `bairro`, in a building of
/// `total_floors` storeys, leaves at `(x, h, z)`, or `None` where the cell is
/// left as it was.
pub fn residential_block_at(
    min_x: i32,
    max_x: i32,
    min_z: i32,
    max_z: i32,
    y: i32,
    ceiling: i32,
    bairro: Bairro,
    total_floors: usize,
    x: i32,
    h: i32,
    z: i32,
) -> (r: Option<ResidentialBlock>)
    ensures
        r == spec_residential_block(
            min_x as int,
            max_x as int,
            min_z as int,
            max_z as int,
            y as int,
            ceiling as int,
            bairro == Bairro::Guara || bairro == Bairro::Samambaia,
            total_floors > 1,
            x as int,
            h as int,
            z as int,
        ),
{
    residential_block_exec(
        min_x as i64,
        max_x as i64,
        min_z as i64,
        max_z as i64,
        y as i64,
        ceiling as i64,
        bairro == Bairro::Guara || bairro == Bairro::Samambaia,
        total_floors > 1,
        x as i64,
        h as i64,
        z as i64,
    )
}

// ---------------------------------------------------------------------------
// Underground metro stations
// ---------------------------------------------------------------------------

/// The blocks of an underground metro station.
#[derive(Clone, Copy, PartialEq, Eq, Structural, Debug)]
pub enum MetroBlock {
    SmoothStone,
    Air,
    PolishedAndesite,
    StoneStairs,
    PolishedDiorite,
    YellowConcrete,
    Gravel,
}

/// The block an underground station dug below `g` leaves at a cell, in
/// coordinates along the tracks (`a`, centre `ca`) and across them (`c`,
/// centre `cc`), at height `h`; `None` where the cell is left as it was.
/// The box is shelled in smooth stone (floor at `g - 15`, roof at `g`, walls
/// between) and hollowed; the mezzanine at `g - 7` is paved in andesite but
/// for a well over the tracks (seven wide, seventeen long); two flights of
/// stairs at the ends of the well, four either side of the centre line, go
/// down from the mezzanine to the platforms at `g - 14`, covering what was
/// laid before them; the platforms are diorite with a yellow tactile edge,
/// the track pit gravel; pillars of smooth stone every eight blocks stand on
/// the platform edges; and tunnels six high open at both ends.
pub open spec fn metro_block(
    a: int,
    c: int,
    h: int,
    min_a: int,
    max_a: int,
    min_c: int,
    max_c: int,
    ca: int,
    cc: int,
    g: int,
) -> Option<MetroBlock> {
    let plat = g - 14;
    let mez = g - 7;
    let in_box = min_a <= a && a <= max_a && min_c <= c && c <= max_c;
    let iter_a = min_a + 1 <= a && a < max_a - 1;
    let iter_c = min_c + 1 <= c && c < max_c - 1;
    let own = iter_a && iter_c;
    let near_c3 = c - cc <= 3 && cc - c <= 3;
    let stair_row = iter_c && (c == cc - 4 || c == cc + 4);
    let inside_target = min_a < a && a < max_a && min_c < c && c < max_c;
    let left = ca - 8;
    let right = ca + 8;
    let left_src = min_a + 1 <= left && left < max_a - 1;
    let right_src = min_a + 1 <= right && right < max_a - 1;
    let sl = a - left;
    let sr = right - a;
    let from_left = stair_row && left_src && inside_target && 1 <= sl && sl <= 7;
    let from_right = stair_row && right_src && inside_target && 1 <= sr && sr <= 7;
    let own_src = own && stair_row && (a == left || a == right);
    let pit = near_c3;
    let hole = near_c3 && a - ca <= 8 && ca - a <= 8;
    let pillar = own && (a - min_a) % 8 == 0 && (c == cc - 4 || c == cc + 4);
    if (a == min_a || a == max_a) && near_c3 && plat <= h && h <= plat + 5 {
        Some(MetroBlock::Air)
    } else if from_right && h == mez - sr {
        Some(MetroBlock::StoneStairs)
    } else if from_right && (h == mez - sr + 1 || h == mez - sr + 2) {
        Some(MetroBlock::Air)
    } else if pillar && plat <= h && h <= g {
        Some(MetroBlock::SmoothStone)
    } else if own && h == plat && !pit && (c == cc - 4 || c == cc + 4) {
        Some(MetroBlock::YellowConcrete)
    } else if own && h == plat && !pit {
        Some(MetroBlock::PolishedDiorite)
    } else if own && h == plat - 1 && pit {
        Some(MetroBlock::Gravel)
    } else if own_src && h == mez {
        Some(MetroBlock::StoneStairs)
    } else if own_src && (h == mez + 1 || h == mez + 2) {
        Some(MetroBlock::Air)
    } else if own && h == mez && !hole {
        Some(MetroBlock::PolishedAndesite)
    } else if from_left && h == mez - sl {
        Some(MetroBlock::StoneStairs)
    } else if from_left && (h == mez - sl + 1 || h == mez - sl + 2) {
        Some(MetroBlock::Air)
    } else if own && plat <= h && h < g {
        Some(MetroBlock::Air)
    } else if in_box && (h == g || h == plat - 1) {
        Some(MetroBlock::SmoothStone)
    } else if in_box && (a == min_a || a == max_a || c == min_c || c == max_c) && plat <= h && h < g {
        Some(MetroBlock::SmoothStone)
    } else {
        None
    }
}

fn metro_block_exec(
    a: i64,
    c: i64,
    h: i64,
    min_a: i64,
    max_a: i64,
    min_c: i64,
    max_c: i64,
    ca: i64,
    cc: i64,
    g: i64,
) -> (r: Option<MetroBlock>)
    requires
        -0x1_0000_0000 <= a <= 0x1_0000_0000,
        -0x1_0000_0000 <= c <= 0x1_0000_0000,
        -0x1_0000_0000 <= h <= 0x1_0000_0000,
        -0x1_0000_0000 <= min_a <= 0x1_0000_0000,
        -0x1_0000_0000 <= max_a <= 0x1_0000_0000,
        -0x1_0000_0000 <= min_c <= 0x1_0000_0000,
        -0x1_0000_0000 <= max_c <= 0x1_0000_0000,
        -0x1_0000_0000 <= ca <= 0x1_0000_0000,
        -0x1_0000_0000 <= cc <= 0x1_0000_0000,
        -0x1_0000_0000 <= g <= 0x1_0000_0000,
    ensures
        r == metro_block(
            a as int,
            c as int,
            h as int,
            min_a as int,
            max_a as int,
            min_c as int,
            max_c as int,
            ca as int,
            cc as int,
            g as int,
        ),
{
    let plat = g - 14;
    let mez = g - 7;
    let in_box = min_a <= a && a <= max_a && min_c <= c && c <= max_c;
    let iter_a = min_a + 1 <= a && a < max_a - 1;
    let iter_c = min_c + 1 <= c && c < max_c - 1;
    let own = iter_a && iter_c;
    let near_c3 = c - cc <= 3 && cc - c <= 3;
    let stair_row = iter_c && (c == cc - 4 || c == cc + 4);
    let inside_target = min_a < a && a < max_a && min_c < c && c < max_c;
    let left = ca - 8;
    let right = ca + 8;
    let left_src = min_a + 1 <= left && left < max_a - 1;
    let right_src = min_a + 1 <= right && right < max_a - 1;
    let sl = a - left;
    let sr = right - a;
    let from_left = stair_row && left_src && inside_target && 1 <= sl && sl <= 7;
    let from_right = stair_row && right_src && inside_target && 1 <= sr && sr <= 7;
    let own_src = own && stair_row && (a == left || a == right);
    let pit = near_c3;
    let hole = near_c3 && a - ca <= 8 && ca - a <= 8;
    let pillar = own && (a - min_a) % 8 == 0 && (c == cc - 4 || c == cc + 4);
    if (a == min_a || a == max_a) && near_c3 && plat <= h && h <= plat + 5 {
        Some(MetroBlock::Air)
    } else if from_right && h == mez - sr {
        Some(MetroBlock::StoneStairs)
    } else if from_right && (h == mez - sr + 1 || h == mez - sr + 2) {
        Some(MetroBlock::Air)
    } else if pillar && plat <= h && h <= g {
        Some(MetroBlock::SmoothStone)
    } else if own && h == plat && !pit && (c == cc - 4 || c == cc + 4) {
        Some(MetroBlock::YellowConcrete)
    } else if own && h == plat && !pit {
        Some(MetroBlock::PolishedDiorite)
    } else if own && h == plat - 1 && pit {
        Some(MetroBlock::Gravel)
    } else if own_src && h == mez {
        Some(MetroBlock::StoneStairs)
    } else if own_src && (h == mez + 1 || h == mez + 2) {
        Some(MetroBlock::Air)
    } else if own && h == mez && !hole {
        Some(MetroBlock::PolishedAndesite)
    } else if from_left && h == mez - sl {
        Some(MetroBlock::StoneStairs)
    } else if from_left && (h == mez - sl + 1 || h == mez - sl + 2) {
        Some(MetroBlock::Air)
    } else if own && plat <= h && h < g {
        Some(MetroBlock::Air)
    } else if in_box && (h == g || h == plat - 1) {
        Some(MetroBlock::SmoothStone)
    } else if in_box && (a == min_a || a == max_a || c == min_c || c == max_c) && plat <= h && h < g {
        Some(MetroBlock::SmoothStone)
    } else {
        None
    }
}

/// The block an underground station under a building over `min_x ..=
/// max_x` by `min_z ..= max_z`, whose base is at `ground_y`, leaves at
/// `(x, h, z)`: its tracks run along the longer side (along x when the
/// building is wider than deep).
pub open spec fn spec_metro_underground_block(
    min_x: int,
    max_x: int,
    min_z: int,
    max_z: int,
    ground_y: int,
    x: int,
    h: int,
    z: int,
) -> Option<MetroBlock> {
    let cx = div_toward_zero(min_x + max_x, 2);
    let cz = div_toward_zero(min_z + max_z, 2);
    if max_x - min_x > max_z - min_z {
        metro_block(x, z, h, min_x, max_x, min_z, max_z, cx, cz, ground_y)
    } else {
        metro_block(z, x, h, min_z, max_z, min_x, max_x, cz, cx, ground_y)
    }
}

/// The block an underground station leaves at `(x, h, z)`, or `None` where
/// the cell is left as it was.
pub fn metro_underground_block_at(
    min_x: i32,
    max_x: i32,
    min_z: i32,
    max_z: i32,
    ground_y: i32,
    x: i32,
    h: i32,
    z: i32,
) -> (r: Option<MetroBlock>)
    requires
        i32::MIN <= min_x + max_x <= i32::MAX,
        i32::MIN <= min_z + max_z <= i32::MAX,
    ensures
        r == spec_metro_underground_block(
            min_x as int,
            max_x as int,
            min_z as int,
            max_z as int,
            ground_y as int,
            x as int,
            h as int,
            z as int,
        ),
        r is Some ==> ground_y - 15 <= h <= ground_y,
{
    let cx: i32 = (min_x + max_x) / 2;
    let cz: i32 = (min_z + max_z) / 2;
    if (max_x as i64 - min_x as i64) > (max_z as i64 - min_z as i64) {
        metro_block_exec(
            x as i64,
            z as i64,
            h as i64,
            min_x as i64,
            max_x as i64,
            min_z as i64,
            max_z as i64,
            cx as i64,
            cz as i64,
            ground_y as i64,
        )
    } else {
        metro_block_exec(
            z as i64,
            x as i64,
            h as i64,
            min_z as i64,
            max_z as i64,
            min_x as i64,
            max_x as i64,
            cz as i64,
            cx as i64,
            ground_y as i64,
        )
    }
}

// ---------------------------------------------------------------------------
// Fit-out of storeys
// ---------------------------------------------------------------------------

/// The blocks of storey fit-outs: slabs, partitions, cores, corridors and
/// elevated stations.
#[derive(Clone, Copy, PartialEq, Eq, Structural, Debug)]
pub enum FitOutBlock {
    SmoothStone,
    PolishedAndesite,
    Gravel,
    PolishedDiorite,
    YellowConcrete,
    IronBlock,
    Glass,
    GlassPane,
    LightGrayTerracotta,
    Air,
    StoneBricks,
    IronDoor,
    SmoothQuartz,
    WhiteConcrete,
}

fn is_even(v: i64) -> (b: bool)
    ensures
        b == (v % 2 == 0),
{
    if v >= 0 {
        v % 2 == 0
    } else {
        let w: i64 = if v == i64::MIN { 0 } else { -v };
        assert((v % 2 == 0) == (w % 2 == 0)) by (nonlinear_arith)
            requires
                v < 0,
                w == (if v == i64::MIN { 0 } else { -v }),
        ;
        w % 2 == 0
    }
}

/// The block an elevated station over a building of `min_x ..= max_x` by
/// `min_z ..= max_z` with its base at `g` leaves at `(x, h, z)`: pillars of
/// smooth stone every ten blocks up to the deck at `g + 7`, the deck paved in
/// andesite with a gravel track bed seven wide along the longer side, the
/// platforms of diorite at `g + 8` with yellow tactile edges, and a roof of
/// iron and glass in a chequer at `g + 14`.
pub open spec fn spec_elevated_block(
    min_x: int,
    max_x: int,
    min_z: int,
    max_z: int,
    g: int,
    x: int,
    h: int,
    z: int,
) -> Option<FitOutBlock> {
    let plat = g + 8;
    let cx = div_toward_zero(min_x + max_x, 2);
    let cz = div_toward_zero(min_z + max_z, 2);
    let along_x = max_x - min_x > max_z - min_z;
    let inside = min_x < x < max_x && min_z < z < max_z;
    let pit = if along_x { cz - 3 <= z <= cz + 3 } else { cx - 3 <= x <= cx + 3 };
    let tactile = if along_x { z == cz - 4 || z == cz + 4 } else { x == cx - 4 || x == cx + 4 };
    let pillar = min_x <= x <= max_x && min_z <= z <= max_z && (x - min_x) % 10 == 0 && (z - min_z)
        % 10 == 0;
    if inside && h == plat + 6 {
        if (x + z) % 2 == 0 { Some(FitOutBlock::IronBlock) } else { Some(FitOutBlock::Glass) }
    } else if inside && !pit && h == plat {
        if tactile { Some(FitOutBlock::YellowConcrete) } else { Some(FitOutBlock::PolishedDiorite) }
    } else if inside && h == plat - 1 {
        if pit { Some(FitOutBlock::Gravel) } else { Some(FitOutBlock::PolishedAndesite) }
    } else if pillar && g <= h < plat {
        Some(FitOutBlock::SmoothStone)
    } else {
        None
    }
}

/// The block an elevated station leaves at `(x, h, z)`.
pub fn elevated_block_at(min_x: i32, max_x: i32, min_z: i32, max_z: i32, ground_y: i32, x: i32, h: i32, z: i32) -> (r: Option<FitOutBlock>)
    requires
        i32::MIN <= min_x + max_x <= i32::MAX,
        i32::MIN <= min_z + max_z <= i32::MAX,
    ensures
        r == spec_elevated_block(min_x as int, max_x as int, min_z as int, max_z as int, ground_y as int, x as int, h as int, z as int),
{
    let (min_x, max_x, min_z, max_z, g, x, h, z) = (min_x as i64, max_x as i64, min_z as i64, max_z as i64, ground_y as i64, x as i64, h as i64, z as i64);
    let plat = g + 8;
    let cx = (min_x + max_x) / 2;
    let cz = (min_z + max_z) / 2;
    let along_x = max_x - min_x > max_z - min_z;
    let inside = min_x < x && x < max_x && min_z < z && z < max_z;
    let pit = if along_x { cz - 3 <= z && z <= cz + 3 } else { cx - 3 <= x && x <= cx + 3 };
    let tactile = if along_x { z == cz - 4 || z == cz + 4 } else { x == cx - 4 || x == cx + 4 };
    let pillar = min_x <= x && x <= max_x && min_z <= z && z <= max_z && (x - min_x) % 10 == 0
        && (z - min_z) % 10 == 0;
    if inside && h == plat + 6 {
        if is_even(x + z) { Some(FitOutBlock::IronBlock) } else { Some(FitOutBlock::Glass) }
    } else if inside && !pit && h == plat {
        if tactile { Some(FitOutBlock::YellowConcrete) } else { Some(FitOutBlock::PolishedDiorite) }
    } else if inside && h == plat - 1 {
        if pit { Some(FitOutBlock::Gravel) } else { Some(FitOutBlock::PolishedAndesite) }
    } else if pillar && g <= h && h < plat {
        Some(FitOutBlock::SmoothStone)
    } else {
        None
    }
}

/// The partitions of an open-plan office storey: every five blocks (4 m),
/// on the side of the building below its middle row, from floor `y` up to
/// `ceiling`, glazed at the third block.
pub open spec fn spec_office_block(min_x: int, max_x: int, min_z: int, max_z: int, y: int, ceiling: int, x: int, h: int, z: int) -> Option<FitOutBlock> {
    let center_z = div_toward_zero(min_z + max_z, 2);
    if min_x + 1 <= x < max_x - 1 && (x - min_x) % 5 == 0 && min_z + 1 <= z < center_z - 1 && y <= h < ceiling {
        if h == y + 2 { Some(FitOutBlock::GlassPane) } else { Some(FitOutBlock::LightGrayTerracotta) }
    } else {
        None
    }
}

/// The block an office storey's partitions leave at `(x, h, z)`.
pub fn office_block_at(min_x: i32, max_x: i32, min_z: i32, max_z: i32, y: i32, ceiling: i32, x: i32, h: i32, z: i32) -> (r: Option<FitOutBlock>)
    requires
        i32::MIN <= min_z + max_z <= i32::MAX,
    ensures
        r == spec_office_block(min_x as int, max_x as int, min_z as int, max_z as int, y as int, ceiling as int, x as int, h as int, z as int),
{
    let (min_x, max_x, min_z, max_z, y, ceiling, x, h, z) = (min_x as i64, max_x as i64, min_z as i64, max_z as i64, y as i64, ceiling as i64, x as i64, h as i64, z as i64);
    let center_z = (min_z + max_z) / 2;
    if min_x + 1 <= x && x < max_x - 1 && (x - min_x) % 5 == 0 && min_z + 1 <= z && z < center_z - 1 && y <= h && h < ceiling {
        if h == y + 2 { Some(FitOutBlock::GlassPane) } else { Some(FitOutBlock::LightGrayTerracotta) }
    } else {
        None
    }
}

/// The elevator core of a storey, in buildings at least 6.5 m (9 blocks)
/// wide and deep: a stone-brick shaft around the centre, one car wider in
/// hospitals and corporate towers, with iron doors on its near side and a
/// stone-brick back wall.
pub open spec fn spec_core_block(min_x: int, max_x: int, min_z: int, max_z: int, floor_y: int, ceiling: int, wide: bool, x: int, h: int, z: int) -> Option<FitOutBlock> {
    let cx = div_toward_zero(min_x + max_x, 2);
    let cz = div_toward_zero(min_z + max_z, 2);
    let core_x_max = if wide { cx + 3 } else { cx + 2 };
    let in_core = cx - 1 <= x <= core_x_max && cz - 1 <= z <= cz + 2 && floor_y <= h < ceiling;
    let air = ((x == cx || x == cx + 1 || (x == cx + 2 && wide)) && (z == cz || z == cz + 1)) || (z == cz + 2 && (x == cx || x == cx + 1));
    if max_x - min_x < 9 || max_z - min_z < 9 {
        None
    } else if z == cz + 3 && (x == cx || x == cx + 1) && floor_y <= h < ceiling {
        Some(FitOutBlock::StoneBricks)
    } else if h == floor_y + 1 && z == cz - 1 && (x == cx || x == cx + 1 || (wide && x == cx + 2)) {
        Some(FitOutBlock::IronDoor)
    } else if in_core {
        if air { Some(FitOutBlock::Air) } else { Some(FitOutBlock::StoneBricks) }
    } else {
        None
    }
}

/// The block a storey's elevator core leaves at `(x, h, z)`.
pub fn core_block_at(min_x: i32, max_x: i32, min_z: i32, max_z: i32, floor_y: i32, ceiling: i32, tipologia: Tipologia, x: i32, h: i32, z: i32) -> (r: Option<FitOutBlock>)
    requires
        i32::MIN <= min_x + max_x <= i32::MAX,
        i32::MIN <= min_z + max_z <= i32::MAX,
    ensures
        r == spec_core_block(min_x as int, max_x as int, min_z as int, max_z as int, floor_y as int, ceiling as int, tipologia == Tipologia::Hospital || tipologia == Tipologia::Corporativo, x as int, h as int, z as int),
{
    let wide = tipologia == Tipologia::Hospital || tipologia == Tipologia::Corporativo;
    let (min_x, max_x, min_z, max_z, floor_y, ceiling, x, h, z) = (min_x as i64, max_x as i64, min_z as i64, max_z as i64, floor_y as i64, ceiling as i64, x as i64, h as i64, z as i64);
    let cx = (min_x + max_x) / 2;
    let cz = (min_z + max_z) / 2;
    let core_x_max = if wide { cx + 3 } else { cx + 2 };
    let in_core = cx - 1 <= x && x <= core_x_max && cz - 1 <= z && z <= cz + 2 && floor_y <= h && h < ceiling;
    let air = ((x == cx || x == cx + 1 || (x == cx + 2 && wide)) && (z == cz || z == cz + 1)) || (z == cz + 2 && (x == cx || x == cx + 1));
    if max_x - min_x < 9 || max_z - min_z < 9 {
        None
    } else if z == cz + 3 && (x == cx || x == cx + 1) && floor_y <= h && h < ceiling {
        Some(FitOutBlock::StoneBricks)
    } else if h == floor_y + 1 && z == cz - 1 && (x == cx || x == cx + 1 || (wide && x == cx + 2)) {
        Some(FitOutBlock::IronDoor)
    } else if in_core {
        if air { Some(FitOutBlock::Air) } else { Some(FitOutBlock::StoneBricks) }
    } else {
        None
    }
}

/// The rows a storey's corridor is cleared over, `(first, last)`, around the
/// middle row: five in hospitals and schools, four in corporate towers,
/// three in commercial districts, else two.
pub open spec fn spec_corridor_rows(center: int, t: Tipologia, b: Bairro) -> (int, int) {
    if t == Tipologia::Hospital || t == Tipologia::Escola {
        (center - 2, center + 2)
    } else if t == Tipologia::Corporativo {
        (center - 1, center + 2)
    } else if b == Bairro::Comercial {
        (center - 1, center + 1)
    } else {
        (center, center + 1)
    }
}

/// The corridor of a storey deeper than four blocks: cleared across the
/// building, walled on both sides (smooth quartz in hospitals, white
/// concrete elsewhere) in buildings at least 6 m (8 blocks) wide.
pub open spec fn spec_corridor_block(min_x: int, max_x: int, min_z: int, max_z: int, floor_y: int, ceiling: int, t: Tipologia, b: Bairro, x: int, h: int, z: int) -> Option<FitOutBlock> {
    let rows = spec_corridor_rows(div_toward_zero(min_z + max_z, 2), t, b);
    let walls = max_x - min_x >= 8;
    let cell = min_x + 1 <= x < max_x - 1 && floor_y <= h < ceiling;
    if max_z - min_z < 5 || !cell {
        None
    } else if rows.0 <= z <= rows.1 {
        Some(FitOutBlock::Air)
    } else if walls && (z == rows.1 + 1 || z == rows.0 - 1) {
        if t == Tipologia::Hospital { Some(FitOutBlock::SmoothQuartz) } else { Some(FitOutBlock::WhiteConcrete) }
    } else {
        None
    }
}

/// The block a storey's corridor leaves at `(x, h, z)`.
pub fn corridor_block_at(min_x: i32, max_x: i32, min_z: i32, max_z: i32, floor_y: i32, ceiling: i32, t: Tipologia, b: Bairro, x: i32, h: i32, z: i32) -> (r: Option<FitOutBlock>)
    requires
        i32::MIN <= min_z + max_z <= i32::MAX,
    ensures
        r == spec_corridor_block(min_x as int, max_x as int, min_z as int, max_z as int, floor_y as int, ceiling as int, t, b, x as int, h as int, z as int),
{
    let (min_x, max_x, min_z, max_z, floor_y, ceiling, x, h, z) = (min_x as i64, max_x as i64, min_z as i64, max_z as i64, floor_y as i64, ceiling as i64, x as i64, h as i64, z as i64);
    let center = (min_z + max_z) / 2;
    let (first, last): (i64, i64) = if t == Tipologia::Hospital || t == Tipologia::Escola {
        (center - 2, center + 2)
    } else if t == Tipologia::Corporativo {
        (center - 1, center + 2)
    } else if b == Bairro::Comercial {
        (center - 1, center + 1)
    } else {
        (center, center + 1)
    };
    let walls = max_x - min_x >= 8;
    let cell = min_x + 1 <= x && x < max_x - 1 && floor_y <= h && h < ceiling;
    if max_z - min_z < 5 || !cell {
        None
    } else if first <= z && z <= last {
        Some(FitOutBlock::Air)
    } else if walls && (z == last + 1 || z == first - 1) {
        if t == Tipologia::Hospital { Some(FitOutBlock::SmoothQuartz) } else { Some(FitOutBlock::WhiteConcrete) }
    } else {
        None
    }
}

/// The floor slab laid at `y` between storeys of a building at least three
/// blocks each way: andesite with smooth-stone beams every seven blocks (5 m)
/// both ways, leaving open the elevator shaft (with a core) and, in atrium
/// buildings, a well over the middle 36 % of each side where it is more than
/// two blocks across.
pub open spec fn spec_slab_block(min_x: int, max_x: int, min_z: int, max_z: int, y: int, has_core: bool, is_atrium: bool, x: int, h: int, z: int) -> Option<FitOutBlock> {
    let l = max_x - min_x;
    let p = max_z - min_z;
    let cx = div_toward_zero(min_x + max_x, 2);
    let cz = div_toward_zero(min_z + max_z, 2);
    let vx0 = min_x + (32 * l) / 100;
    let vx1 = max_x - (32 * l) / 100;
    let vz0 = min_z + (32 * p) / 100;
    let vz1 = max_z - (32 * p) / 100;
    let void = is_atrium && vx1 - vx0 > 2 && vz1 - vz0 > 2;
    if l < 3 || p < 3 || h != y || !(min_x + 1 <= x < max_x - 1) || !(min_z + 1 <= z < max_z - 1) {
        None
    } else if has_core && cx - 1 <= x <= cx + 2 && cz - 1 <= z <= cz + 2 {
        None
    } else if void && vx0 <= x <= vx1 && vz0 <= z <= vz1 {
        None
    } else if (x - min_x) % 7 == 0 || (z - min_z) % 7 == 0 {
        Some(FitOutBlock::SmoothStone)
    } else {
        Some(FitOutBlock::PolishedAndesite)
    }
}

/// The block a floor slab leaves at `(x, h, z)`.
pub fn slab_block_at(min_x: i32, max_x: i32, min_z: i32, max_z: i32, y: i32, has_core: bool, is_atrium: bool, x: i32, h: i32, z: i32) -> (r: Option<FitOutBlock>)
    requires
        i32::MIN <= min_x + max_x <= i32::MAX,
        i32::MIN <= min_z + max_z <= i32::MAX,
    ensures
        r == spec_slab_block(min_x as int, max_x as int, min_z as int, max_z as int, y as int, has_core, is_atrium, x as int, h as int, z as int),
{
    let (min_x, max_x, min_z, max_z, y, x, h, z) = (min_x as i64, max_x as i64, min_z as i64, max_z as i64, y as i64, x as i64, h as i64, z as i64);
    let l = max_x - min_x;
    let p = max_z - min_z;
    if l < 3 || p < 3 || h != y || !(min_x + 1 <= x && x < max_x - 1) || !(min_z + 1 <= z && z < max_z - 1) {
        return None;
    }
    let cx = (min_x + max_x) / 2;
    let cz = (min_z + max_z) / 2;
    let vx0 = min_x + (32 * l) / 100;
    let vx1 = max_x - (32 * l) / 100;
    let vz0 = min_z + (32 * p) / 100;
    let vz1 = max_z - (32 * p) / 100;
    let void = is_atrium && vx1 - vx0 > 2 && vz1 - vz0 > 2;
    if has_core && cx - 1 <= x && x <= cx + 2 && cz - 1 <= z && z <= cz + 2 {
        None
    } else if void && vx0 <= x && x <= vx1 && vz0 <= z && z <= vz1 {
        None
    } else if (x - min_x) % 7 == 0 || (z - min_z) % 7 == 0 {
        Some(FitOutBlock::SmoothStone)
    } else {
        Some(FitOutBlock::PolishedAndesite)
    }
}

pub(crate) fn divisible(v: i64, k: i64) -> (b: bool)
    requires
        0 < k < 0x1_0000,
        -0x1_0000_0000_0000 <= v <= 0x1_0000_0000_0000,
    ensures
        b == (v % k == 0),
{
    if v >= 0 {
        v % k == 0
    } else {
        let w: i64 = -v;
        proof {
            lemma_fundamental_div_mod(v as int, k as int);
            lemma_fundamental_div_mod(w as int, k as int);
            if w % k == 0 {
                assert(v == k * (-(w / k)) + 0) by (nonlinear_arith)
                    requires
                        w == k * (w / k) + w % k,
                        w % k == 0,
                        v == -w,
                ;
                lemma_fundamental_div_mod_converse(v as int, k as int, -(w / k), 0);
            }
            if v % k == 0 {
                assert(w == k * (-(v / k)) + 0) by (nonlinear_arith)
                    requires
                        v == k * (v / k) + v % k,
                        v % k == 0,
                        w == -v,
                ;
                lemma_fundamental_div_mod_converse(w as int, k as int, -(v / k), 0);
            }
        }
        w % k == 0
    }
}

/// A wall of hospital rooms stands at column `x`: every eight blocks (6 m)
/// inside the building, but not through the elevator core.
pub open spec fn hospital_wall_column(min_x: int, max_x: int, cx: int, has_core: bool, x: int) -> bool {
    min_x + 1 <= x < max_x - 1 && (x - min_x) % 8 == 0 && !(has_core && cx - 1 <= x <= cx + 3)
}

/// The ground storey of a hospital: a corridor seven rows wide along the
/// middle, with a smooth-quartz sill on each side, rooms walled every eight
/// blocks on both sides with double iron doors onto the corridor, and a
/// reception counter at the core (cleared again where the corridor passes).
pub open spec fn spec_hospital_base_block(min_x: int, max_x: int, min_z: int, max_z: int, y: int, ceiling: int, has_core: bool, x: int, h: int, z: int) -> Option<FitOutBlock> {
    let cz = div_toward_zero(min_z + max_z, 2);
    let cx = div_toward_zero(min_x + max_x, 2);
    let inner_x = min_x + 1 <= x < max_x - 1;
    if h == y + 1 && (z == cz - 4 || z == cz + 4) && (hospital_wall_column(min_x, max_x, cx, has_core, x + 1) || hospital_wall_column(min_x, max_x, cx, has_core, x + 2)) {
        Some(FitOutBlock::IronDoor)
    } else if inner_x && (z == cz - 4 || z == cz + 4) && h == y {
        Some(FitOutBlock::SmoothQuartz)
    } else if inner_x && cz - 3 <= z <= cz + 3 && y <= h < ceiling {
        Some(FitOutBlock::Air)
    } else if hospital_wall_column(min_x, max_x, cx, has_core, x) && y <= h < ceiling && ((min_z + 1 <= z < cz - 4) || (cz + 5 <= z < max_z - 1)) {
        Some(FitOutBlock::WhiteConcrete)
    } else if x == cx - 4 && h == y && cz - 1 <= z <= cz + 1 {
        Some(FitOutBlock::SmoothQuartz)
    } else {
        None
    }
}

fn hospital_wall_column_exec(min_x: i64, max_x: i64, cx: i64, has_core: bool, x: i64) -> (b: bool)
    requires
        -0x1_0000_0000 <= cx <= 0x1_0000_0000,
        -0x1_0000_0000 <= min_x <= 0x1_0000_0000,
        -0x1_0000_0000 <= max_x <= 0x1_0000_0000,
        -0x1_0000_0000 <= x <= 0x1_0000_0000,
    ensures
        b == hospital_wall_column(min_x as int, max_x as int, cx as int, has_core, x as int),
{
    min_x + 1 <= x && x < max_x - 1 && (x - min_x) % 8 == 0 && !(has_core && cx - 1 <= x && x <= cx + 3)
}

/// The block a hospital's ground storey leaves at `(x, h, z)`.
pub fn hospital_base_block_at(min_x: i32, max_x: i32, min_z: i32, max_z: i32, y: i32, ceiling: i32, has_core: bool, x: i32, h: i32, z: i32) -> (r: Option<FitOutBlock>)
    requires
        i32::MIN <= min_x + max_x <= i32::MAX,
        i32::MIN <= min_z + max_z <= i32::MAX,
    ensures
        r == spec_hospital_base_block(min_x as int, max_x as int, min_z as int, max_z as int, y as int, ceiling as int, has_core, x as int, h as int, z as int),
{
    let (min_x, max_x, min_z, max_z, y, ceiling, x, h, z) = (min_x as i64, max_x as i64, min_z as i64, max_z as i64, y as i64, ceiling as i64, x as i64, h as i64, z as i64);
    let cz = (min_z + max_z) / 2;
    let cx = (min_x + max_x) / 2;
    let inner_x = min_x + 1 <= x && x < max_x - 1;
    if h == y + 1 && (z == cz - 4 || z == cz + 4) && (hospital_wall_column_exec(min_x, max_x, cx, has_core, x + 1) || hospital_wall_column_exec(min_x, max_x, cx, has_core, x + 2)) {
        Some(FitOutBlock::IronDoor)
    } else if inner_x && (z == cz - 4 || z == cz + 4) && h == y {
        Some(FitOutBlock::SmoothQuartz)
    } else if inner_x && cz - 3 <= z && z <= cz + 3 && y <= h && h < ceiling {
        Some(FitOutBlock::Air)
    } else if hospital_wall_column_exec(min_x, max_x, cx, has_core, x) && y <= h && h < ceiling && ((min_z + 1 <= z && z < cz - 4) || (cz + 5 <= z && z < max_z - 1)) {
        Some(FitOutBlock::WhiteConcrete)
    } else if x == cx - 4 && h == y && cz - 1 <= z && z <= cz + 1 {
        Some(FitOutBlock::SmoothQuartz)
    } else {
        None
    }
}

/// The upper storeys of a hospital: wards walled every five blocks (4 m)
/// on both sides of a corridor five rows wide, each with an iron door onto
/// it.
pub open spec fn spec_ward_block(min_x: int, max_x: int, min_z: int, max_z: int, y: int, ceiling: int, x: int, h: int, z: int) -> Option<FitOutBlock> {
    let cz = div_toward_zero(min_z + max_z, 2);
    let wall = |c: int| min_x + 1 <= c < max_x - 1 && (c - min_x) % 5 == 0;
    if h == y + 1 && (z == cz - 3 || z == cz + 3) && wall(x + 1) {
        Some(FitOutBlock::IronDoor)
    } else if wall(x) && y <= h < ceiling && ((min_z + 1 <= z < cz - 2) || (cz + 3 <= z < max_z - 1)) {
        Some(FitOutBlock::WhiteConcrete)
    } else {
        None
    }
}

/// The block a hospital's upper storey leaves at `(x, h, z)`.
pub fn ward_block_at(min_x: i32, max_x: i32, min_z: i32, max_z: i32, y: i32, ceiling: i32, x: i32, h: i32, z: i32) -> (r: Option<FitOutBlock>)
    requires
        i32::MIN <= min_z + max_z <= i32::MAX,
    ensures
        r == spec_ward_block(min_x as int, max_x as int, min_z as int, max_z as int, y as int, ceiling as int, x as int, h as int, z as int),
{
    let (min_x, max_x, min_z, max_z, y, ceiling, x, h, z) = (min_x as i64, max_x as i64, min_z as i64, max_z as i64, y as i64, ceiling as i64, x as i64, h as i64, z as i64);
    let cz = (min_z + max_z) / 2;
    let door_wall = min_x + 1 <= x + 1 && x + 1 < max_x - 1 && (x + 1 - min_x) % 5 == 0;
    let wall = min_x + 1 <= x && x < max_x - 1 && (x - min_x) % 5 == 0;
    if h == y + 1 && (z == cz - 3 || z == cz + 3) && door_wall {
        Some(FitOutBlock::IronDoor)
    } else if wall && y <= h && h < ceiling && ((min_z + 1 <= z && z < cz - 2) || (cz + 3 <= z && z < max_z - 1)) {
        Some(FitOutBlock::WhiteConcrete)
    } else {
        None
    }
}

/// The storeys of a bank's headquarters: partitions across the whole depth
/// every eight blocks (6 m), glazed at the third block.
pub open spec fn spec_bank_block(min_x: int, max_x: int, min_z: int, max_z: int, y: int, ceiling: int, x: int, h: int, z: int) -> Option<FitOutBlock> {
    if min_x + 1 <= x < max_x - 1 && (x - min_x) % 8 == 0 && min_z + 1 <= z < max_z - 1 && y <= h < ceiling {
        if h == y + 2 { Some(FitOutBlock::GlassPane) } else { Some(FitOutBlock::LightGrayTerracotta) }
    } else {
        None
    }
}

/// The block a bank headquarters' storey leaves at `(x, h, z)`.
pub fn bank_block_at(min_x: i32, max_x: i32, min_z: i32, max_z: i32, y: i32, ceiling: i32, x: i32, h: i32, z: i32) -> (r: Option<FitOutBlock>)
    ensures
        r == spec_bank_block(min_x as int, max_x as int, min_z as int, max_z as int, y as int, ceiling as int, x as int, h as int, z as int),
{
    let (min_x, max_x, min_z, max_z, y, ceiling, x, h, z) = (min_x as i64, max_x as i64, min_z as i64, max_z as i64, y as i64, ceiling as i64, x as i64, h as i64, z as i64);
    if min_x + 1 <= x && x < max_x - 1 && (x - min_x) % 8 == 0 && min_z + 1 <= z && z < max_z - 1 && y <= h && h < ceiling {
        if h == y + 2 { Some(FitOutBlock::GlassPane) } else { Some(FitOutBlock::LightGrayTerracotta) }
    } else {
        None
    }
}

/// The atrium of a monumental storey: a well over the middle 36 % of each
/// side (32 % kept on each border, rounded toward zero), cleared from the
/// floor to the ceiling where it is at least two blocks across, bordered by
/// glass panes at knee height with a smooth-quartz column wherever `x + z` is
/// a multiple of six; the elevator core is left alone.
pub open spec fn spec_atrium_block(min_x: int, max_x: int, min_z: int, max_z: int, y: int, ceiling: int, has_core: bool, x: int, h: int, z: int) -> Option<FitOutBlock> {
    let l = max_x - min_x;
    let p = max_z - min_z;
    let cx = div_toward_zero(min_x + max_x, 2);
    let cz = div_toward_zero(min_z + max_z, 2);
    let vx0 = min_x + div_toward_zero(32 * l, 100);
    let vx1 = max_x - div_toward_zero(32 * l, 100);
    let vz0 = min_z + div_toward_zero(32 * p, 100);
    let vz1 = max_z - div_toward_zero(32 * p, 100);
    let in_void = vx0 <= x <= vx1 && vz0 <= z <= vz1;
    let edge = ((x == vx0 - 1 || x == vx1 + 1) && vz0 - 1 <= z <= vz1 + 1) || ((z == vz0 - 1 || z == vz1 + 1) && vx0 - 1 <= x <= vx1 + 1);
    if vx1 - vx0 < 2 || vz1 - vz0 < 2 || !(min_x + 1 <= x < max_x - 1) || !(min_z + 1 <= z < max_z - 1) {
        None
    } else if has_core && cx - 1 <= x <= cx + 2 && cz - 1 <= z <= cz + 2 {
        None
    } else if in_void {
        if y <= h < ceiling { Some(FitOutBlock::Air) } else { None }
    } else if edge && (x + z) % 6 == 0 && y <= h < ceiling {
        Some(FitOutBlock::SmoothQuartz)
    } else if edge && h == y + 1 {
        Some(FitOutBlock::GlassPane)
    } else {
        None
    }
}

pub(crate) fn trunc_div_exec(a: i64, d: i64) -> (r: i64)
    requires
        0 < d < 0x1_0000,
        -0x1_0000_0000_0000 <= a <= 0x1_0000_0000_0000,
    ensures
        r == div_toward_zero(a as int, d as int),
{
    if a >= 0 {
        a / d
    } else {
        -((-a) / d)
    }
}

/// The block a monumental storey's atrium leaves at `(x, h, z)`.
pub fn atrium_block_at(min_x: i32, max_x: i32, min_z: i32, max_z: i32, y: i32, ceiling: i32, has_core: bool, x: i32, h: i32, z: i32) -> (r: Option<FitOutBlock>)
    requires
        i32::MIN <= min_x + max_x <= i32::MAX,
        i32::MIN <= min_z + max_z <= i32::MAX,
    ensures
        r == spec_atrium_block(min_x as int, max_x as int, min_z as int, max_z as int, y as int, ceiling as int, has_core, x as int, h as int, z as int),
{
    let (min_x, max_x, min_z, max_z, y, ceiling, x, h, z) = (min_x as i64, max_x as i64, min_z as i64, max_z as i64, y as i64, ceiling as i64, x as i64, h as i64, z as i64);
    let l = max_x - min_x;
    let p = max_z - min_z;
    let cx = (min_x + max_x) / 2;
    let cz = (min_z + max_z) / 2;
    let vx0 = min_x + trunc_div_exec(32 * l, 100);
    let vx1 = max_x - trunc_div_exec(32 * l, 100);
    let vz0 = min_z + trunc_div_exec(32 * p, 100);
    let vz1 = max_z - trunc_div_exec(32 * p, 100);
    let in_void = vx0 <= x && x <= vx1 && vz0 <= z && z <= vz1;
    let edge = ((x == vx0 - 1 || x == vx1 + 1) && vz0 - 1 <= z && z <= vz1 + 1) || ((z == vz0 - 1 || z == vz1 + 1) && vx0 - 1 <= x && x <= vx1 + 1);
    if vx1 - vx0 < 2 || vz1 - vz0 < 2 || !(min_x + 1 <= x && x < max_x - 1) || !(min_z + 1 <= z && z < max_z - 1) {
        None
    } else if has_core && cx - 1 <= x && x <= cx + 2 && cz - 1 <= z && z <= cz + 2 {
        None
    } else if in_void {
        if y <= h && h < ceiling { Some(FitOutBlock::Air) } else { None }
    } else if edge && divisible(x + z, 6) && y <= h && h < ceiling {
        Some(FitOutBlock::SmoothQuartz)
    } else if edge && h == y + 1 {
        Some(FitOutBlock::GlassPane)
    } else {
        None
    }
}

/// A shopping centre's storey: the atrium, with a diorite floor on storeys
/// above the building's base, and a gallery front of glass (white concrete
/// wherever `x + z` is a multiple of eight) around the middle 70 % of each
/// side (15 % kept on each border, rounded toward zero).
pub open spec fn spec_shopping_block(min_x: int, max_x: int, min_z: int, max_z: int, y: int, ceiling: int, has_core: bool, start_y: int, x: int, h: int, z: int) -> Option<FitOutBlock> {
    let l = max_x - min_x;
    let p = max_z - min_z;
    let gx0 = min_x + div_toward_zero(15 * l, 100);
    let gx1 = max_x - div_toward_zero(15 * l, 100);
    let gz0 = min_z + div_toward_zero(15 * p, 100);
    let gz1 = max_z - div_toward_zero(15 * p, 100);
    let inner = min_x + 1 <= x < max_x - 1 && min_z + 1 <= z < max_z - 1;
    let edge = ((x == gx0 || x == gx1) && gz0 <= z <= gz1) || ((z == gz0 || z == gz1) && gx0 <= x <= gx1);
    if inner && edge && y <= h < ceiling {
        if (x + z) % 8 == 0 { Some(FitOutBlock::WhiteConcrete) } else { Some(FitOutBlock::Glass) }
    } else if inner && y > start_y && h == y - 1 {
        Some(FitOutBlock::PolishedDiorite)
    } else {
        spec_atrium_block(min_x, max_x, min_z, max_z, y, ceiling, has_core, x, h, z)
    }
}

/// The block a shopping centre's storey leaves at `(x, h, z)`.
pub fn shopping_block_at(min_x: i32, max_x: i32, min_z: i32, max_z: i32, y: i32, ceiling: i32, has_core: bool, start_y: i32, x: i32, h: i32, z: i32) -> (r: Option<FitOutBlock>)
    requires
        i32::MIN <= min_x + max_x <= i32::MAX,
        i32::MIN <= min_z + max_z <= i32::MAX,
    ensures
        r == spec_shopping_block(min_x as int, max_x as int, min_z as int, max_z as int, y as int, ceiling as int, has_core, start_y as int, x as int, h as int, z as int),
{
    let (lx, hx, lz, hz, yy, cc, xx, hh, zz, sy) = (min_x as i64, max_x as i64, min_z as i64, max_z as i64, y as i64, ceiling as i64, x as i64, h as i64, z as i64, start_y as i64);
    let l = hx - lx;
    let p = hz - lz;
    let gx0 = lx + trunc_div_exec(15 * l, 100);
    let gx1 = hx - trunc_div_exec(15 * l, 100);
    let gz0 = lz + trunc_div_exec(15 * p, 100);
    let gz1 = hz - trunc_div_exec(15 * p, 100);
    let inner = lx + 1 <= xx && xx < hx - 1 && lz + 1 <= zz && zz < hz - 1;
    let edge = ((xx == gx0 || xx == gx1) && gz0 <= zz && zz <= gz1) || ((zz == gz0 || zz == gz1) && gx0 <= xx && xx <= gx1);
    if inner && edge && yy <= hh && hh < cc {
        if divisible(xx + zz, 8) { Some(FitOutBlock::WhiteConcrete) } else { Some(FitOutBlock::Glass) }
    } else if inner && yy > sy && hh == yy - 1 {
        Some(FitOutBlock::PolishedDiorite)
    } else {
        atrium_block_at(min_x, max_x, min_z, max_z, y, ceiling, has_core, x, h, z)
    }
}

/// The storeys of a school, at least two classrooms (18 blocks) wide:
/// classrooms walled every nine blocks (7 m) on both sides of a corridor
/// five rows wide, each with an iron door onto it.
pub open spec fn spec_school_block(min_x: int, max_x: int, min_z: int, max_z: int, y: int, ceiling: int, x: int, h: int, z: int) -> Option<FitOutBlock> {
    let cz = div_toward_zero(min_z + max_z, 2);
    let wall = |c: int| min_x + 1 <= c < max_x - 1 && (c - min_x) % 9 == 0;
    if max_x - min_x < 18 {
        None
    } else if h == y + 1 && (z == cz - 3 || z == cz + 3) && wall(x + 1) {
        Some(FitOutBlock::IronDoor)
    } else if wall(x) && y <= h < ceiling && ((min_z + 1 <= z < cz - 2) || (cz + 3 <= z < max_z - 1)) {
        Some(FitOutBlock::WhiteConcrete)
    } else {
        None
    }
}

/// The block a school storey leaves at `(x, h, z)`.
pub fn school_block_at(min_x: i32, max_x: i32, min_z: i32, max_z: i32, y: i32, ceiling: i32, x: i32, h: i32, z: i32) -> (r: Option<FitOutBlock>)
    requires
        i32::MIN <= min_z + max_z <= i32::MAX,
    ensures
        r == spec_school_block(min_x as int, max_x as int, min_z as int, max_z as int, y as int, ceiling as int, x as int, h as int, z as int),
{
    let (min_x, max_x, min_z, max_z, y, ceiling, x, h, z) = (min_x as i64, max_x as i64, min_z as i64, max_z as i64, y as i64, ceiling as i64, x as i64, h as i64, z as i64);
    let cz = (min_z + max_z) / 2;
    let door_wall = min_x + 1 <= x + 1 && x + 1 < max_x - 1 && (x + 1 - min_x) % 9 == 0;
    let wall = min_x + 1 <= x && x < max_x - 1 && (x - min_x) % 9 == 0;
    if max_x - min_x < 18 {
        None
    } else if h == y + 1 && (z == cz - 3 || z == cz + 3) && door_wall {
        Some(FitOutBlock::IronDoor)
    } else if wall && y <= h && h < ceiling && ((min_z + 1 <= z && z < cz - 2) || (cz + 3 <= z && z < max_z - 1)) {
        Some(FitOutBlock::WhiteConcrete)
    } else {
        None
    }
}

/// A building that no amenity, metro station or railway tag classifies is
/// classified by its `building` tag: schools and universities as schools,
/// hospitals and clinics as hospitals, offices and government buildings
/// as corporate, shops as commercial, homes as residential, and places of
/// worship as religious.
#[verifier::spinoff_prover]
#[verifier::rlimit(100)]
pub proof fn lemma_building_tag_decides_use(tags: Map<Seq<char>, Seq<char>>)
    requires
        !tags.contains_key("amenity"@),
        !tags.contains_key("station"@),
        !tags.contains_key("subway"@),
        !tags.contains_key("railway"@),
    ensures
        ({
            let b = if tags.contains_key("building"@) { tags["building"@] } else { Seq::empty() };
            let t = spec_tipologia(tags);
            &&& (b == "school"@ || b == "university"@) ==> t == Tipologia::Escola
            &&& (b == "hospital"@ || b == "clinic"@) ==> t == Tipologia::Hospital
            &&& (b == "office"@ || b == "government"@) ==> t == Tipologia::Corporativo
            &&& (b == "retail"@ || b == "commercial"@ || b == "supermarket"@) ==> t == Tipologia::Comercial
            &&& (b == "residential"@ || b == "apartments"@ || b == "house"@ || b == "detached"@ || b == "terrace"@) ==> t == Tipologia::Residencial
            &&& (b == "church"@ || b == "cathedral"@ || b == "chapel"@ || b == "temple"@ || b == "mosque"@) ==> t == Tipologia::Religioso
        }),
{
    reveal_strlit("school");
    reveal_strlit("university");
    reveal_strlit("hospital");
    reveal_strlit("clinic");
    reveal_strlit("subway");
    reveal_strlit("station");
    reveal_strlit("doctors");
    reveal_strlit("bank");
    reveal_strlit("police");
    reveal_strlit("courthouse");
    reveal_strlit("townhall");
    reveal_strlit("place_of_worship");
    reveal_strlit("college");
    reveal_strlit("kindergarten");
    assert(tag_or_empty(tags, "station"@) =~= Seq::<char>::empty());
    assert(tag_or_empty(tags, "railway"@) =~= Seq::<char>::empty());
    assert(tag_or_empty(tags, "amenity"@) =~= Seq::<char>::empty());
    assert(Seq::<char>::empty() != "school"@) by { assert("school"@.len() != 0); }
    assert(Seq::<char>::empty() != "university"@) by { assert("university"@.len() != 0); }
    assert(Seq::<char>::empty() != "college"@) by { assert("college"@.len() != 0); }
    assert(Seq::<char>::empty() != "kindergarten"@) by { assert("kindergarten"@.len() != 0); }
    assert(Seq::<char>::empty() != "hospital"@) by { assert("hospital"@.len() != 0); }
    assert(Seq::<char>::empty() != "clinic"@) by { assert("clinic"@.len() != 0); }
    assert(Seq::<char>::empty() != "doctors"@) by { assert("doctors"@.len() != 0); }
    assert(Seq::<char>::empty() != "bank"@) by { assert("bank"@.len() != 0); }
    assert(Seq::<char>::empty() != "police"@) by { assert("police"@.len() != 0); }
    assert(Seq::<char>::empty() != "courthouse"@) by { assert("courthouse"@.len() != 0); }
    assert(Seq::<char>::empty() != "townhall"@) by { assert("townhall"@.len() != 0); }
    assert(Seq::<char>::empty() != "place_of_worship"@) by { assert("place_of_worship"@.len() != 0); }
    assert(Seq::<char>::empty() != "subway"@) by { assert("subway"@.len() != 0); }
    assert(Seq::<char>::empty() != "station"@) by { assert("station"@.len() != 0); }
    reveal_strlit("subway");
    reveal_strlit("station");
    reveal_strlit("school");
    reveal_strlit("university");
    reveal_strlit("college");
    reveal_strlit("kindergarten");
    reveal_strlit("hospital");
    reveal_strlit("clinic");
    reveal_strlit("doctors");
    reveal_strlit("bank");
    reveal_strlit("police");
    reveal_strlit("courthouse");
    reveal_strlit("townhall");
    reveal_strlit("place_of_worship");
    reveal_strlit("office");
    reveal_strlit("government");
    reveal_strlit("retail");
    reveal_strlit("commercial");
    reveal_strlit("supermarket");
    reveal_strlit("residential");
    reveal_strlit("apartments");
    reveal_strlit("house");
    reveal_strlit("detached");
    reveal_strlit("terrace");
    reveal_strlit("chapel");
    reveal_strlit("church");
    reveal_strlit("cathedral");
    reveal_strlit("chapel");
    reveal_strlit("temple");
    reveal_strlit("mosque");
    reveal_strlit("temple");
    assert("school"@[0] != "clinic"@[0]);
    assert("school"@[0] != "office"@[0]);
    assert("school"@[0] != "retail"@[0]);
    assert("school"@[0] != "church"@[0]);
    assert("school"@[0] != "chapel"@[0]);
    assert("school"@[0] != "temple"@[0]);
    assert("school"@[0] != "mosque"@[0]);
    assert("university"@[0] != "government"@[0]);
    assert("university"@[0] != "commercial"@[0]);
    assert("university"@[0] != "apartments"@[0]);
    assert("hospital"@[0] != "detached"@[0]);
    assert("clinic"@[0] != "school"@[0]);
    assert("clinic"@[0] != "office"@[0]);
    assert("clinic"@[0] != "retail"@[0]);
    assert("clinic"@[1] != "church"@[1]);
    assert("clinic"@[1] != "chapel"@[1]);
    assert("clinic"@[0] != "temple"@[0]);
    assert("clinic"@[0] != "mosque"@[0]);
    assert("office"@[0] != "school"@[0]);
    assert("office"@[0] != "clinic"@[0]);
    assert("office"@[0] != "retail"@[0]);
    assert("office"@[0] != "church"@[0]);
    assert("office"@[0] != "chapel"@[0]);
    assert("office"@[0] != "temple"@[0]);
    assert("office"@[0] != "mosque"@[0]);
    assert("government"@[0] != "university"@[0]);
    assert("government"@[0] != "commercial"@[0]);
    assert("government"@[0] != "apartments"@[0]);
    assert("retail"@[0] != "school"@[0]);
    assert("retail"@[0] != "clinic"@[0]);
    assert("retail"@[0] != "office"@[0]);
    assert("retail"@[0] != "church"@[0]);
    assert("retail"@[0] != "chapel"@[0]);
    assert("retail"@[0] != "temple"@[0]);
    assert("retail"@[0] != "mosque"@[0]);
    assert("commercial"@[0] != "university"@[0]);
    assert("commercial"@[0] != "government"@[0]);
    assert("commercial"@[0] != "apartments"@[0]);
    assert("supermarket"@[0] != "residential"@[0]);
    assert("residential"@[0] != "supermarket"@[0]);
    assert("apartments"@[0] != "university"@[0]);
    assert("apartments"@[0] != "government"@[0]);
    assert("apartments"@[0] != "commercial"@[0]);
    assert("detached"@[0] != "hospital"@[0]);
    assert("church"@[0] != "school"@[0]);
    assert("church"@[1] != "clinic"@[1]);
    assert("church"@[0] != "office"@[0]);
    assert("church"@[0] != "retail"@[0]);
    assert("church"@[2] != "chapel"@[2]);
    assert("church"@[0] != "temple"@[0]);
    assert("church"@[0] != "mosque"@[0]);
    assert("chapel"@[0] != "school"@[0]);
    assert("chapel"@[1] != "clinic"@[1]);
    assert("chapel"@[0] != "office"@[0]);
    assert("chapel"@[0] != "retail"@[0]);
    assert("chapel"@[2] != "church"@[2]);
    assert("chapel"@[0] != "temple"@[0]);
    assert("chapel"@[0] != "mosque"@[0]);
    assert("temple"@[0] != "school"@[0]);
    assert("temple"@[0] != "clinic"@[0]);
    assert("temple"@[0] != "office"@[0]);
    assert("temple"@[0] != "retail"@[0]);
    assert("temple"@[0] != "church"@[0]);
    assert("temple"@[0] != "chapel"@[0]);
    assert("temple"@[0] != "mosque"@[0]);
    assert("mosque"@[0] != "school"@[0]);
    assert("mosque"@[0] != "clinic"@[0]);
    assert("mosque"@[0] != "office"@[0]);
    assert("mosque"@[0] != "retail"@[0]);
    assert("mosque"@[0] != "church"@[0]);
    assert("mosque"@[0] != "chapel"@[0]);
    assert("mosque"@[0] != "temple"@[0]);
    let b = if tags.contains_key("building"@) { tags["building"@] } else { Seq::<char>::empty() };
    if b == "school"@ {
    }
    if b == "university"@ {
        assert(b != "school"@) by { assert("university"@.len() != "school"@.len() || "university"@ != "school"@); }
    }
    if b == "hospital"@ {
        assert(b != "school"@) by { assert("hospital"@.len() != "school"@.len() || "hospital"@ != "school"@); }
        assert(b != "university"@) by { assert("hospital"@.len() != "university"@.len() || "hospital"@ != "university"@); }
    }
    if b == "clinic"@ {
        assert(b != "school"@) by { assert("clinic"@.len() != "school"@.len() || "clinic"@ != "school"@); }
        assert(b != "university"@) by { assert("clinic"@.len() != "university"@.len() || "clinic"@ != "university"@); }
        assert(b != "hospital"@) by { assert("clinic"@.len() != "hospital"@.len() || "clinic"@ != "hospital"@); }
    }
    if b == "office"@ {
        assert(b != "school"@) by { assert("office"@.len() != "school"@.len() || "office"@ != "school"@); }
        assert(b != "university"@) by { assert("office"@.len() != "university"@.len() || "office"@ != "university"@); }
        assert(b != "hospital"@) by { assert("office"@.len() != "hospital"@.len() || "office"@ != "hospital"@); }
        assert(b != "clinic"@) by { assert("office"@.len() != "clinic"@.len() || "office"@ != "clinic"@); }
    }
    if b == "government"@ {
        assert(b != "school"@) by { assert("government"@.len() != "school"@.len() || "government"@ != "school"@); }
        assert(b != "university"@) by { assert("government"@.len() != "university"@.len() || "government"@ != "university"@); }
        assert(b != "hospital"@) by { assert("government"@.len() != "hospital"@.len() || "government"@ != "hospital"@); }
        assert(b != "clinic"@) by { assert("government"@.len() != "clinic"@.len() || "government"@ != "clinic"@); }
        assert(b != "office"@) by { assert("government"@.len() != "office"@.len() || "government"@ != "office"@); }
    }
    if b == "retail"@ {
        assert(b != "school"@) by { assert("retail"@.len() != "school"@.len() || "retail"@ != "school"@); }
        assert(b != "university"@) by { assert("retail"@.len() != "university"@.len() || "retail"@ != "university"@); }
        assert(b != "hospital"@) by { assert("retail"@.len() != "hospital"@.len() || "retail"@ != "hospital"@); }
        assert(b != "clinic"@) by { assert("retail"@.len() != "clinic"@.len() || "retail"@ != "clinic"@); }
        assert(b != "office"@) by { assert("retail"@.len() != "office"@.len() || "retail"@ != "office"@); }
        assert(b != "government"@) by { assert("retail"@.len() != "government"@.len() || "retail"@ != "government"@); }
    }
    if b == "commercial"@ {
        assert(b != "school"@) by { assert("commercial"@.len() != "school"@.len() || "commercial"@ != "school"@); }
        assert(b != "university"@) by { assert("commercial"@.len() != "university"@.len() || "commercial"@ != "university"@); }
        assert(b != "hospital"@) by { assert("commercial"@.len() != "hospital"@.len() || "commercial"@ != "hospital"@); }
        assert(b != "clinic"@) by { assert("commercial"@.len() != "clinic"@.len() || "commercial"@ != "clinic"@); }
        assert(b != "office"@) by { assert("commercial"@.len() != "office"@.len() || "commercial"@ != "office"@); }
        assert(b != "government"@) by { assert("commercial"@.len() != "government"@.len() || "commercial"@ != "government"@); }
        assert(b != "retail"@) by { assert("commercial"@.len() != "retail"@.len() || "commercial"@ != "retail"@); }
    }
    if b == "supermarket"@ {
        assert(b != "school"@) by { assert("supermarket"@.len() != "school"@.len() || "supermarket"@ != "school"@); }
        assert(b != "university"@) by { assert("supermarket"@.len() != "university"@.len() || "supermarket"@ != "university"@); }
        assert(b != "hospital"@) by { assert("supermarket"@.len() != "hospital"@.len() || "supermarket"@ != "hospital"@); }
        assert(b != "clinic"@) by { assert("supermarket"@.len() != "clinic"@.len() || "supermarket"@ != "clinic"@); }
        assert(b != "office"@) by { assert("supermarket"@.len() != "office"@.len() || "supermarket"@ != "office"@); }
        assert(b != "government"@) by { assert("supermarket"@.len() != "government"@.len() || "supermarket"@ != "government"@); }
        assert(b != "retail"@) by { assert("supermarket"@.len() != "retail"@.len() || "supermarket"@ != "retail"@); }
        assert(b != "commercial"@) by { assert("supermarket"@.len() != "commercial"@.len() || "supermarket"@ != "commercial"@); }
    }
    if b == "residential"@ {
        assert(b != "school"@) by { assert("residential"@.len() != "school"@.len() || "residential"@ != "school"@); }
        assert(b != "university"@) by { assert("residential"@.len() != "university"@.len() || "residential"@ != "university"@); }
        assert(b != "hospital"@) by { assert("residential"@.len() != "hospital"@.len() || "residential"@ != "hospital"@); }
        assert(b != "clinic"@) by { assert("residential"@.len() != "clinic"@.len() || "residential"@ != "clinic"@); }
        assert(b != "office"@) by { assert("residential"@.len() != "office"@.len() || "residential"@ != "office"@); }
        assert(b != "government"@) by { assert("residential"@.len() != "government"@.len() || "residential"@ != "government"@); }
        assert(b != "retail"@) by { assert("residential"@.len() != "retail"@.len() || "residential"@ != "retail"@); }
        assert(b != "commercial"@) by { assert("residential"@.len() != "commercial"@.len() || "residential"@ != "commercial"@); }
        assert(b != "supermarket"@) by { assert("residential"@.len() != "supermarket"@.len() || "residential"@ != "supermarket"@); }
    }
    if b == "apartments"@ {
        assert(b != "school"@) by { assert("apartments"@.len() != "school"@.len() || "apartments"@ != "school"@); }
        assert(b != "university"@) by { assert("apartments"@.len() != "university"@.len() || "apartments"@ != "university"@); }
        assert(b != "hospital"@) by { assert("apartments"@.len() != "hospital"@.len() || "apartments"@ != "hospital"@); }
        assert(b != "clinic"@) by { assert("apartments"@.len() != "clinic"@.len() || "apartments"@ != "clinic"@); }
        assert(b != "office"@) by { assert("apartments"@.len() != "office"@.len() || "apartments"@ != "office"@); }
        assert(b != "government"@) by { assert("apartments"@.len() != "government"@.len() || "apartments"@ != "government"@); }
        assert(b != "retail"@) by { assert("apartments"@.len() != "retail"@.len() || "apartments"@ != "retail"@); }
        assert(b != "commercial"@) by { assert("apartments"@.len() != "commercial"@.len() || "apartments"@ != "commercial"@); }
        assert(b != "supermarket"@) by { assert("apartments"@.len() != "supermarket"@.len() || "apartments"@ != "supermarket"@); }
        assert(b != "residential"@) by { assert("apartments"@.len() != "residential"@.len() || "apartments"@ != "residential"@); }
    }
    if b == "house"@ {
        assert(b != "school"@) by { assert("house"@.len() != "school"@.len() || "house"@ != "school"@); }
        assert(b != "university"@) by { assert("house"@.len() != "university"@.len() || "house"@ != "university"@); }
        assert(b != "hospital"@) by { assert("house"@.len() != "hospital"@.len() || "house"@ != "hospital"@); }
        assert(b != "clinic"@) by { assert("house"@.len() != "clinic"@.len() || "house"@ != "clinic"@); }
        assert(b != "office"@) by { assert("house"@.len() != "office"@.len() || "house"@ != "office"@); }
        assert(b != "government"@) by { assert("house"@.len() != "government"@.len() || "house"@ != "government"@); }
        assert(b != "retail"@) by { assert("house"@.len() != "retail"@.len() || "house"@ != "retail"@); }
        assert(b != "commercial"@) by { assert("house"@.len() != "commercial"@.len() || "house"@ != "commercial"@); }
        assert(b != "supermarket"@) by { assert("house"@.len() != "supermarket"@.len() || "house"@ != "supermarket"@); }
        assert(b != "residential"@) by { assert("house"@.len() != "residential"@.len() || "house"@ != "residential"@); }
        assert(b != "apartments"@) by { assert("house"@.len() != "apartments"@.len() || "house"@ != "apartments"@); }
    }
    if b == "detached"@ {
        assert(b != "school"@) by { assert("detached"@.len() != "school"@.len() || "detached"@ != "school"@); }
        assert(b != "university"@) by { assert("detached"@.len() != "university"@.len() || "detached"@ != "university"@); }
        assert(b != "hospital"@) by { assert("detached"@.len() != "hospital"@.len() || "detached"@ != "hospital"@); }
        assert(b != "clinic"@) by { assert("detached"@.len() != "clinic"@.len() || "detached"@ != "clinic"@); }
        assert(b != "office"@) by { assert("detached"@.len() != "office"@.len() || "detached"@ != "office"@); }
        assert(b != "government"@) by { assert("detached"@.len() != "government"@.len() || "detached"@ != "government"@); }
        assert(b != "retail"@) by { assert("detached"@.len() != "retail"@.len() || "detached"@ != "retail"@); }
        assert(b != "commercial"@) by { assert("detached"@.len() != "commercial"@.len() || "detached"@ != "commercial"@); }
        assert(b != "supermarket"@) by { assert("detached"@.len() != "supermarket"@.len() || "detached"@ != "supermarket"@); }
        assert(b != "residential"@) by { assert("detached"@.len() != "residential"@.len() || "detached"@ != "residential"@); }
        assert(b != "apartments"@) by { assert("detached"@.len() != "apartments"@.len() || "detached"@ != "apartments"@); }
        assert(b != "house"@) by { assert("detached"@.len() != "house"@.len() || "detached"@ != "house"@); }
    }
    if b == "terrace"@ {
        assert(b != "school"@) by { assert("terrace"@.len() != "school"@.len() || "terrace"@ != "school"@); }
        assert(b != "university"@) by { assert("terrace"@.len() != "university"@.len() || "terrace"@ != "university"@); }
        assert(b != "hospital"@) by { assert("terrace"@.len() != "hospital"@.len() || "terrace"@ != "hospital"@); }
        assert(b != "clinic"@) by { assert("terrace"@.len() != "clinic"@.len() || "terrace"@ != "clinic"@); }
        assert(b != "office"@) by { assert("terrace"@.len() != "office"@.len() || "terrace"@ != "office"@); }
        assert(b != "government"@) by { assert("terrace"@.len() != "government"@.len() || "terrace"@ != "government"@); }
        assert(b != "retail"@) by { assert("terrace"@.len() != "retail"@.len() || "terrace"@ != "retail"@); }
        assert(b != "commercial"@) by { assert("terrace"@.len() != "commercial"@.len() || "terrace"@ != "commercial"@); }
        assert(b != "supermarket"@) by { assert("terrace"@.len() != "supermarket"@.len() || "terrace"@ != "supermarket"@); }
        assert(b != "residential"@) by { assert("terrace"@.len() != "residential"@.len() || "terrace"@ != "residential"@); }
        assert(b != "apartments"@) by { assert("terrace"@.len() != "apartments"@.len() || "terrace"@ != "apartments"@); }
        assert(b != "house"@) by { assert("terrace"@.len() != "house"@.len() || "terrace"@ != "house"@); }
        assert(b != "detached"@) by { assert("terrace"@.len() != "detached"@.len() || "terrace"@ != "detached"@); }
    }
    if b == "church"@ {
        assert(b != "school"@) by { assert("church"@.len() != "school"@.len() || "church"@ != "school"@); }
        assert(b != "university"@) by { assert("church"@.len() != "university"@.len() || "church"@ != "university"@); }
        assert(b != "hospital"@) by { assert("church"@.len() != "hospital"@.len() || "church"@ != "hospital"@); }
        assert(b != "clinic"@) by { assert("church"@.len() != "clinic"@.len() || "church"@ != "clinic"@); }
        assert(b != "office"@) by { assert("church"@.len() != "office"@.len() || "church"@ != "office"@); }
        assert(b != "government"@) by { assert("church"@.len() != "government"@.len() || "church"@ != "government"@); }
        assert(b != "retail"@) by { assert("church"@.len() != "retail"@.len() || "church"@ != "retail"@); }
        assert(b != "commercial"@) by { assert("church"@.len() != "commercial"@.len() || "church"@ != "commercial"@); }
        assert(b != "supermarket"@) by { assert("church"@.len() != "supermarket"@.len() || "church"@ != "supermarket"@); }
        assert(b != "residential"@) by { assert("church"@.len() != "residential"@.len() || "church"@ != "residential"@); }
        assert(b != "apartments"@) by { assert("church"@.len() != "apartments"@.len() || "church"@ != "apartments"@); }
        assert(b != "house"@) by { assert("church"@.len() != "house"@.len() || "church"@ != "house"@); }
        assert(b != "detached"@) by { assert("church"@.len() != "detached"@.len() || "church"@ != "detached"@); }
        assert(b != "terrace"@) by { assert("church"@.len() != "terrace"@.len() || "church"@ != "terrace"@); }
    }
    if b == "cathedral"@ {
        assert(b != "school"@) by { assert("cathedral"@.len() != "school"@.len() || "cathedral"@ != "school"@); }
        assert(b != "university"@) by { assert("cathedral"@.len() != "university"@.len() || "cathedral"@ != "university"@); }
        assert(b != "hospital"@) by { assert("cathedral"@.len() != "hospital"@.len() || "cathedral"@ != "hospital"@); }
        assert(b != "clinic"@) by { assert("cathedral"@.len() != "clinic"@.len() || "cathedral"@ != "clinic"@); }
        assert(b != "office"@) by { assert("cathedral"@.len() != "office"@.len() || "cathedral"@ != "office"@); }
        assert(b != "government"@) by { assert("cathedral"@.len() != "government"@.len() || "cathedral"@ != "government"@); }
        assert(b != "retail"@) by { assert("cathedral"@.len() != "retail"@.len() || "cathedral"@ != "retail"@); }
        assert(b != "commercial"@) by { assert("cathedral"@.len() != "commercial"@.len() || "cathedral"@ != "commercial"@); }
        assert(b != "supermarket"@) by { assert("cathedral"@.len() != "supermarket"@.len() || "cathedral"@ != "supermarket"@); }
        assert(b != "residential"@) by { assert("cathedral"@.len() != "residential"@.len() || "cathedral"@ != "residential"@); }
        assert(b != "apartments"@) by { assert("cathedral"@.len() != "apartments"@.len() || "cathedral"@ != "apartments"@); }
        assert(b != "house"@) by { assert("cathedral"@.len() != "house"@.len() || "cathedral"@ != "house"@); }
        assert(b != "detached"@) by { assert("cathedral"@.len() != "detached"@.len() || "cathedral"@ != "detached"@); }
        assert(b != "terrace"@) by { assert("cathedral"@.len() != "terrace"@.len() || "cathedral"@ != "terrace"@); }
        assert(b != "church"@) by { assert("cathedral"@.len() != "church"@.len() || "cathedral"@ != "church"@); }
    }
    if b == "chapel"@ {
        assert(b != "school"@) by { assert("chapel"@.len() != "school"@.len() || "chapel"@ != "school"@); }
        assert(b != "university"@) by { assert("chapel"@.len() != "university"@.len() || "chapel"@ != "university"@); }
        assert(b != "hospital"@) by { assert("chapel"@.len() != "hospital"@.len() || "chapel"@ != "hospital"@); }
        assert(b != "clinic"@) by { assert("chapel"@.len() != "clinic"@.len() || "chapel"@ != "clinic"@); }
        assert(b != "office"@) by { assert("chapel"@.len() != "office"@.len() || "chapel"@ != "office"@); }
        assert(b != "government"@) by { assert("chapel"@.len() != "government"@.len() || "chapel"@ != "government"@); }
        assert(b != "retail"@) by { assert("chapel"@.len() != "retail"@.len() || "chapel"@ != "retail"@); }
        assert(b != "commercial"@) by { assert("chapel"@.len() != "commercial"@.len() || "chapel"@ != "commercial"@); }
        assert(b != "supermarket"@) by { assert("chapel"@.len() != "supermarket"@.len() || "chapel"@ != "supermarket"@); }
        assert(b != "residential"@) by { assert("chapel"@.len() != "residential"@.len() || "chapel"@ != "residential"@); }
        assert(b != "apartments"@) by { assert("chapel"@.len() != "apartments"@.len() || "chapel"@ != "apartments"@); }
        assert(b != "house"@) by { assert("chapel"@.len() != "house"@.len() || "chapel"@ != "house"@); }
        assert(b != "detached"@) by { assert("chapel"@.len() != "detached"@.len() || "chapel"@ != "detached"@); }
        assert(b != "terrace"@) by { assert("chapel"@.len() != "terrace"@.len() || "chapel"@ != "terrace"@); }
        assert(b != "church"@) by { assert("chapel"@.len() != "church"@.len() || "chapel"@ != "church"@); }
        assert(b != "cathedral"@) by { assert("chapel"@.len() != "cathedral"@.len() || "chapel"@ != "cathedral"@); }
    }
    if b == "temple"@ {
        assert(b != "school"@) by { assert("temple"@.len() != "school"@.len() || "temple"@ != "school"@); }
        assert(b != "university"@) by { assert("temple"@.len() != "university"@.len() || "temple"@ != "university"@); }
        assert(b != "hospital"@) by { assert("temple"@.len() != "hospital"@.len() || "temple"@ != "hospital"@); }
        assert(b != "clinic"@) by { assert("temple"@.len() != "clinic"@.len() || "temple"@ != "clinic"@); }
        assert(b != "office"@) by { assert("temple"@.len() != "office"@.len() || "temple"@ != "office"@); }
        assert(b != "government"@) by { assert("temple"@.len() != "government"@.len() || "temple"@ != "government"@); }
        assert(b != "retail"@) by { assert("temple"@.len() != "retail"@.len() || "temple"@ != "retail"@); }
        assert(b != "commercial"@) by { assert("temple"@.len() != "commercial"@.len() || "temple"@ != "commercial"@); }
        assert(b != "supermarket"@) by { assert("temple"@.len() != "supermarket"@.len() || "temple"@ != "supermarket"@); }
        assert(b != "residential"@) by { assert("temple"@.len() != "residential"@.len() || "temple"@ != "residential"@); }
        assert(b != "apartments"@) by { assert("temple"@.len() != "apartments"@.len() || "temple"@ != "apartments"@); }
        assert(b != "house"@) by { assert("temple"@.len() != "house"@.len() || "temple"@ != "house"@); }
        assert(b != "detached"@) by { assert("temple"@.len() != "detached"@.len() || "temple"@ != "detached"@); }
        assert(b != "terrace"@) by { assert("temple"@.len() != "terrace"@.len() || "temple"@ != "terrace"@); }
        assert(b != "church"@) by { assert("temple"@.len() != "church"@.len() || "temple"@ != "church"@); }
        assert(b != "cathedral"@) by { assert("temple"@.len() != "cathedral"@.len() || "temple"@ != "cathedral"@); }
        assert(b != "chapel"@) by { assert("temple"@.len() != "chapel"@.len() || "temple"@ != "chapel"@); }
    }
    if b == "mosque"@ {
        assert(b != "school"@) by { assert("mosque"@.len() != "school"@.len() || "mosque"@ != "school"@); }
        assert(b != "university"@) by { assert("mosque"@.len() != "university"@.len() || "mosque"@ != "university"@); }
        assert(b != "hospital"@) by { assert("mosque"@.len() != "hospital"@.len() || "mosque"@ != "hospital"@); }
        assert(b != "clinic"@) by { assert("mosque"@.len() != "clinic"@.len() || "mosque"@ != "clinic"@); }
        assert(b != "office"@) by { assert("mosque"@.len() != "office"@.len() || "mosque"@ != "office"@); }
        assert(b != "government"@) by { assert("mosque"@.len() != "government"@.len() || "mosque"@ != "government"@); }
        assert(b != "retail"@) by { assert("mosque"@.len() != "retail"@.len() || "mosque"@ != "retail"@); }
        assert(b != "commercial"@) by { assert("mosque"@.len() != "commercial"@.len() || "mosque"@ != "commercial"@); }
        assert(b != "supermarket"@) by { assert("mosque"@.len() != "supermarket"@.len() || "mosque"@ != "supermarket"@); }
        assert(b != "residential"@) by { assert("mosque"@.len() != "residential"@.len() || "mosque"@ != "residential"@); }
        assert(b != "apartments"@) by { assert("mosque"@.len() != "apartments"@.len() || "mosque"@ != "apartments"@); }
        assert(b != "house"@) by { assert("mosque"@.len() != "house"@.len() || "mosque"@ != "house"@); }
        assert(b != "detached"@) by { assert("mosque"@.len() != "detached"@.len() || "mosque"@ != "detached"@); }
        assert(b != "terrace"@) by { assert("mosque"@.len() != "terrace"@.len() || "mosque"@ != "terrace"@); }
        assert(b != "church"@) by { assert("mosque"@.len() != "church"@.len() || "mosque"@ != "church"@); }
        assert(b != "cathedral"@) by { assert("mosque"@.len() != "cathedral"@.len() || "mosque"@ != "cathedral"@); }
        assert(b != "chapel"@) by { assert("mosque"@.len() != "chapel"@.len() || "mosque"@ != "chapel"@); }
        assert(b != "temple"@) by { assert("mosque"@.len() != "temple"@.len() || "mosque"@ != "temple"@); }
    }
}

/// A building with a school, university, college or kindergarten amenity
/// that is no metro station is a school; a hospital, clinic or doctors'
/// amenity makes it a hospital.
#[verifier::spinoff_prover]
#[verifier::rlimit(100)]
pub proof fn lemma_amenity_decides_use(tags: Map<Seq<char>, Seq<char>>)
    requires
        !tags.contains_key("station"@),
        !tags.contains_key("subway"@),
        !tags.contains_key("railway"@),
        tags.contains_key("amenity"@),
    ensures
        ({
            let a = tags["amenity"@];
            let t = spec_tipologia(tags);
            &&& (a == "school"@ || a == "university"@ || a == "college"@ || a == "kindergarten"@) ==> t == Tipologia::Escola
            &&& (a == "hospital"@ || a == "clinic"@ || a == "doctors"@) ==> t == Tipologia::Hospital
        }),
{
    reveal_strlit("station");
    reveal_strlit("subway");
    assert(tag_or_empty(tags, "station"@) =~= Seq::<char>::empty());
    assert(tag_or_empty(tags, "railway"@) =~= Seq::<char>::empty());
    assert(Seq::<char>::empty() != "subway"@) by { assert("subway"@.len() != 0); }
    assert(Seq::<char>::empty() != "station"@) by { assert("station"@.len() != 0); }
    reveal_strlit("subway");
    reveal_strlit("station");
    reveal_strlit("school");
    reveal_strlit("university");
    reveal_strlit("college");
    reveal_strlit("kindergarten");
    reveal_strlit("hospital");
    reveal_strlit("clinic");
    reveal_strlit("doctors");
    assert("school"@[0] != "clinic"@[0]);
    assert("college"@[0] != "doctors"@[0]);
    assert("clinic"@[0] != "school"@[0]);
    assert("doctors"@[0] != "college"@[0]);
    let a = tags["amenity"@];
    if a == "school"@ {
    }
    if a == "university"@ {
        assert(a != "school"@) by { assert("university"@.len() != "school"@.len() || "university"@ != "school"@); }
    }
    if a == "college"@ {
        assert(a != "school"@) by { assert("college"@.len() != "school"@.len() || "college"@ != "school"@); }
        assert(a != "university"@) by { assert("college"@.len() != "university"@.len() || "college"@ != "university"@); }
    }
    if a == "kindergarten"@ {
        assert(a != "school"@) by { assert("kindergarten"@.len() != "school"@.len() || "kindergarten"@ != "school"@); }
        assert(a != "university"@) by { assert("kindergarten"@.len() != "university"@.len() || "kindergarten"@ != "university"@); }
        assert(a != "college"@) by { assert("kindergarten"@.len() != "college"@.len() || "kindergarten"@ != "college"@); }
    }
    if a == "hospital"@ {
        assert(a != "school"@) by { assert("hospital"@.len() != "school"@.len() || "hospital"@ != "school"@); }
        assert(a != "university"@) by { assert("hospital"@.len() != "university"@.len() || "hospital"@ != "university"@); }
        assert(a != "college"@) by { assert("hospital"@.len() != "college"@.len() || "hospital"@ != "college"@); }
        assert(a != "kindergarten"@) by { assert("hospital"@.len() != "kindergarten"@.len() || "hospital"@ != "kindergarten"@); }
    }
    if a == "clinic"@ {
        assert(a != "school"@) by { assert("clinic"@.len() != "school"@.len() || "clinic"@ != "school"@); }
        assert(a != "university"@) by { assert("clinic"@.len() != "university"@.len() || "clinic"@ != "university"@); }
        assert(a != "college"@) by { assert("clinic"@.len() != "college"@.len() || "clinic"@ != "college"@); }
        assert(a != "kindergarten"@) by { assert("clinic"@.len() != "kindergarten"@.len() || "clinic"@ != "kindergarten"@); }
        assert(a != "hospital"@) by { assert("clinic"@.len() != "hospital"@.len() || "clinic"@ != "hospital"@); }
    }
    if a == "doctors"@ {
        assert(a != "school"@) by { assert("doctors"@.len() != "school"@.len() || "doctors"@ != "school"@); }
        assert(a != "university"@) by { assert("doctors"@.len() != "university"@.len() || "doctors"@ != "university"@); }
        assert(a != "college"@) by { assert("doctors"@.len() != "college"@.len() || "doctors"@ != "college"@); }
        assert(a != "kindergarten"@) by { assert("doctors"@.len() != "kindergarten"@.len() || "doctors"@ != "kindergarten"@); }
        assert(a != "hospital"@) by { assert("doctors"@.len() != "hospital"@.len() || "doctors"@ != "hospital"@); }
        assert(a != "clinic"@) by { assert("doctors"@.len() != "clinic"@.len() || "doctors"@ != "clinic"@); }
    }
}

} // verus!
