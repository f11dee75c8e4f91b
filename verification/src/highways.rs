//! The decisions of the highway processor: how a road is classified from its
//! tags, the profile (surface, width, markings) each class is painted with,
//! its layer, and which way ends join roads of the same layer.

use vstd::prelude::*;
use crate::coord_map::CoordMap;
use crate::osm_parser::{ProcessedElement, ProcessedNode, ProcessedWay};
use crate::tags::Tags;
use crate::text::{is_substring, parse_i32, spec_parse_i32, spec_to_lowercase, spec_to_uppercase,
    str_eq, string_contains, to_lowercase, to_uppercase};

verus! {

/// Height in blocks of one road layer.
pub const LAYER_HEIGHT_STEP: i32 = 5;

/// Road classes of the Federal District road network.
pub enum DFRoadType {
    /// DF-002, carriageways split by a median.
    Eixao,
    /// Commercial avenue with herringbone parking.
    W3,
    /// Wide residential avenues.
    L2L4,
    /// The Monumental Axis.
    Monumental,
    /// Expressways (EPIA, EPTG, Estrutural).
    ExpressaDF,
    /// Any other primary or trunk road.
    Arterial,
    /// Any other secondary road.
    Coletora,
    /// Links and returns.
    Tesourinha,
    /// Roundabouts.
    Rotatoria,
    /// Local roads of the superblocks.
    ViaSuperquadra,
    /// Wide commercial avenues of the satellite towns.
    ViaComercialSatelite,
    /// Local roads of the satellite towns.
    ViaGuara,
    /// Any other local road.
    ViaLocal,
    /// Any other `highway` value, kept as it is.
    Generic(String),
}

/// The class of a road without the payload of `Generic`.
#[derive(Clone, Copy, PartialEq, Eq, Structural, Debug)]
pub enum RoadClass {
    Eixao,
    W3,
    L2L4,
    Monumental,
    ExpressaDF,
    Arterial,
    Coletora,
    Tesourinha,
    Rotatoria,
    ViaSuperquadra,
    ViaComercialSatelite,
    ViaGuara,
    ViaLocal,
    Generic,
}

impl DFRoadType {
    pub open spec fn class(&self) -> RoadClass {
        match self {
            DFRoadType::Eixao => RoadClass::Eixao,
            DFRoadType::W3 => RoadClass::W3,
            DFRoadType::L2L4 => RoadClass::L2L4,
            DFRoadType::Monumental => RoadClass::Monumental,
            DFRoadType::ExpressaDF => RoadClass::ExpressaDF,
            DFRoadType::Arterial => RoadClass::Arterial,
            DFRoadType::Coletora => RoadClass::Coletora,
            DFRoadType::Tesourinha => RoadClass::Tesourinha,
            DFRoadType::Rotatoria => RoadClass::Rotatoria,
            DFRoadType::ViaSuperquadra => RoadClass::ViaSuperquadra,
            DFRoadType::ViaComercialSatelite => RoadClass::ViaComercialSatelite,
            DFRoadType::ViaGuara => RoadClass::ViaGuara,
            DFRoadType::ViaLocal => RoadClass::ViaLocal,
            DFRoadType::Generic(_) => RoadClass::Generic,
        }
    }

    /// The road's class.
    pub fn road_class(&self) -> (c: RoadClass)
        ensures
            c == self.class(),
    {
        match self {
            DFRoadType::Eixao => RoadClass::Eixao,
            DFRoadType::W3 => RoadClass::W3,
            DFRoadType::L2L4 => RoadClass::L2L4,
            DFRoadType::Monumental => RoadClass::Monumental,
            DFRoadType::ExpressaDF => RoadClass::ExpressaDF,
            DFRoadType::Arterial => RoadClass::Arterial,
            DFRoadType::Coletora => RoadClass::Coletora,
            DFRoadType::Tesourinha => RoadClass::Tesourinha,
            DFRoadType::Rotatoria => RoadClass::Rotatoria,
            DFRoadType::ViaSuperquadra => RoadClass::ViaSuperquadra,
            DFRoadType::ViaComercialSatelite => RoadClass::ViaComercialSatelite,
            DFRoadType::ViaGuara => RoadClass::ViaGuara,
            DFRoadType::ViaLocal => RoadClass::ViaLocal,
            DFRoadType::Generic(_) => RoadClass::Generic,
        }
    }
}

/// The value of tag `key`, or the empty string.
pub open spec fn tag_or_empty(tags: Map<Seq<char>, Seq<char>>, key: Seq<char>) -> Seq<char> {
    if tags.contains_key(key) {
        tags[key]
    } else {
        Seq::empty()
    }
}

/// The lowercase value of tag `key`, or the empty string.
pub open spec fn lower_tag(tags: Map<Seq<char>, Seq<char>>, key: Seq<char>) -> Seq<char> {
    if tags.contains_key(key) {
        spec_to_lowercase(tags[key])
    } else {
        Seq::empty()
    }
}

/// The uppercase value of tag `key`, or the empty string.
pub open spec fn upper_tag(tags: Map<Seq<char>, Seq<char>>, key: Seq<char>) -> Seq<char> {
    if tags.contains_key(key) {
        spec_to_uppercase(tags[key])
    } else {
        Seq::empty()
    }
}

/// Whether a local road lies in the Plano Piloto, from its lowercase name,
/// suburb and `is_in`.
pub open spec fn in_plano_piloto(name: Seq<char>, suburb: Seq<char>, is_in: Seq<char>) -> bool {
    ||| is_substring("sqs"@, name)
    ||| is_substring("sqn"@, name)
    ||| is_substring("asa sul"@, suburb)
    ||| is_substring("asa norte"@, suburb)
    ||| is_substring("plano piloto"@, is_in)
}

/// Whether a local road lies in a satellite town.
pub open spec fn in_satellite_town(
    name: Seq<char>,
    suburb: Seq<char>,
    place: Seq<char>,
    is_in: Seq<char>,
) -> bool {
    ||| is_substring("guará"@, name)
    ||| is_substring("guara"@, suburb)
    ||| is_substring("guará"@, place)
    ||| is_substring("ceilândia"@, suburb)
    ||| is_substring("taguatinga"@, suburb)
    ||| is_substring("guará"@, is_in)
}

/// Whether a satellite-town road is one of its commercial avenues.
pub open spec fn is_satellite_commercial(name: Seq<char>) -> bool {
    ||| is_substring("comercial"@, name)
    ||| is_substring("hélio prates"@, name)
    ||| is_substring("central"@, name)
    ||| is_substring("samdu"@, name)
    ||| is_substring("sandu"@, name)
}

/// The class of a road from its tags and its `highway` value. Names, suburb,
/// `is_in` and `place` are compared in lowercase, `ref` in uppercase; the
/// first rule that applies decides.
pub open spec fn spec_df_road_class(tags: Map<Seq<char>, Seq<char>>, base: Seq<char>) -> RoadClass {
    let name = lower_tag(tags, "name"@);
    let ref_tag = upper_tag(tags, "ref"@);
    let junction = tag_or_empty(tags, "junction"@);
    let suburb = lower_tag(tags, "addr:suburb"@);
    let is_in = lower_tag(tags, "is_in"@);
    let place = lower_tag(tags, "place"@);
    if junction == "roundabout"@ {
        RoadClass::Rotatoria
    } else if is_substring("link"@, base) {
        RoadClass::Tesourinha
    } else if is_substring("DF-002"@, ref_tag) || is_substring("eixo rodoviário"@, name)
        || is_substring("eixão"@, name) {
        RoadClass::Eixao
    } else if is_substring("eixo monumental"@, name) || is_substring("via s1"@, name)
        || is_substring("via n1"@, name) || is_substring("esplanada"@, name) {
        RoadClass::Monumental
    } else if is_substring("w3 sul"@, name) || is_substring("w3 norte"@, name) {
        RoadClass::W3
    } else if is_substring("l2"@, name) || is_substring("l4"@, name) {
        RoadClass::L2L4
    } else if is_substring("DF-003"@, ref_tag) || is_substring("DF-085"@, ref_tag)
        || is_substring("DF-095"@, ref_tag) || is_substring("epia"@, name) || is_substring(
        "eptg"@,
        name,
    ) || is_substring("estrutural"@, name) {
        RoadClass::ExpressaDF
    } else if base == "primary"@ || base == "trunk"@ {
        RoadClass::Arterial
    } else if base == "secondary"@ {
        RoadClass::Coletora
    } else if base == "residential"@ || base == "living_street"@ || base == "tertiary"@ {
        if in_plano_piloto(name, suburb, is_in) {
            RoadClass::ViaSuperquadra
        } else if in_satellite_town(name, suburb, place, is_in) {
            if is_satellite_commercial(name) {
                RoadClass::ViaComercialSatelite
            } else {
                RoadClass::ViaGuara
            }
        } else {
            RoadClass::ViaLocal
        }
    } else {
        RoadClass::Generic
    }
}

/// The lowercase value of tag `key`, or the empty string.
fn lower_tag_exec(tags: &Tags, key: &str) -> (r: String)
    ensures
        r@ == lower_tag(tags@, key@),
{
    match tags.get(key) {
        Some(v) => to_lowercase(v.as_str()),
        None => String::new(),
    }
}

/// The uppercase value of tag `key`, or the empty string.
fn upper_tag_exec(tags: &Tags, key: &str) -> (r: String)
    ensures
        r@ == upper_tag(tags@, key@),
{
    match tags.get(key) {
        Some(v) => to_uppercase(v.as_str()),
        None => String::new(),
    }
}

/// Classifies a road of the Federal District from its tags and its `highway`
/// value.
pub fn detect_df_road(way: &ProcessedWay, base_highway: &str) -> (r: DFRoadType)
    ensures
        r.class() == spec_df_road_class(way.tags@, base_highway@),
        r matches DFRoadType::Generic(t) ==> t@ == base_highway@,
{
    let tags = &way.tags;
    let name = lower_tag_exec(tags, "name");
    let ref_tag = upper_tag_exec(tags, "ref");
    let junction_is_roundabout = tags.has_value("junction", "roundabout");
    let suburb = lower_tag_exec(tags, "addr:suburb");
    let is_in = lower_tag_exec(tags, "is_in");
    let place = lower_tag_exec(tags, "place");
    proof {
        reveal_strlit("roundabout");
        assert("roundabout"@.len() == 10);
    }
    assert(junction_is_roundabout == (tag_or_empty(tags@, "junction"@) == "roundabout"@));

    if junction_is_roundabout {
        return DFRoadType::Rotatoria;
    }
    if crate::text::contains_str(base_highway, "link") {
        return DFRoadType::Tesourinha;
    }
    if string_contains(&ref_tag, "DF-002") || string_contains(&name, "eixo rodoviário")
        || string_contains(&name, "eixão") {
        return DFRoadType::Eixao;
    }
    if string_contains(&name, "eixo monumental") || string_contains(&name, "via s1")
        || string_contains(&name, "via n1") || string_contains(&name, "esplanada") {
        return DFRoadType::Monumental;
    }
    if string_contains(&name, "w3 sul") || string_contains(&name, "w3 norte") {
        return DFRoadType::W3;
    }
    if string_contains(&name, "l2") || string_contains(&name, "l4") {
        return DFRoadType::L2L4;
    }
    if string_contains(&ref_tag, "DF-003") || string_contains(&ref_tag, "DF-085")
        || string_contains(&ref_tag, "DF-095") || string_contains(&name, "epia")
        || string_contains(&name, "eptg") || string_contains(&name, "estrutural") {
        return DFRoadType::ExpressaDF;
    }
    if str_eq(base_highway, "primary") || str_eq(base_highway, "trunk") {
        return DFRoadType::Arterial;
    }
    if str_eq(base_highway, "secondary") {
        return DFRoadType::Coletora;
    }
    if str_eq(base_highway, "residential") || str_eq(base_highway, "living_street") || str_eq(
        base_highway,
        "tertiary",
    ) {
        let in_plano_piloto = string_contains(&name, "sqs") || string_contains(&name, "sqn")
            || string_contains(&suburb, "asa sul") || string_contains(&suburb, "asa norte")
            || string_contains(&is_in, "plano piloto");
        let in_satelite = string_contains(&name, "guará") || string_contains(&suburb, "guara")
            || string_contains(&place, "guará") || string_contains(&suburb, "ceilândia")
            || string_contains(&suburb, "taguatinga") || string_contains(&is_in, "guará");
        if in_plano_piloto {
            return DFRoadType::ViaSuperquadra;
        } else if in_satelite {
            if string_contains(&name, "comercial") || string_contains(&name, "hélio prates")
                || string_contains(&name, "central") || string_contains(&name, "samdu")
                || string_contains(&name, "sandu") {
                return DFRoadType::ViaComercialSatelite;
            }
            return DFRoadType::ViaGuara;
        }
        return DFRoadType::ViaLocal;
    }
    DFRoadType::Generic(base_highway.to_owned())
}


/// The blocks roads and paved areas are made of.
#[derive(Clone, Copy, PartialEq, Eq, Structural, Debug)]
pub enum SurfaceBlock {
    GrayConcrete,
    BlackConcrete,
    LightGrayConcrete,
    PolishedBasalt,
    GrayTerracotta,
    PolishedAndesite,
    CoarseDirt,
    DirtPath,
    Dirt,
    Sand,
    Gravel,
    GrassBlock,
    StoneStairs,
    StoneBricks,
    Brick,
    OakPlanks,
}

/// How a road is painted: its surface, the half-width of the carriageway,
/// the verge around it, and its markings.
#[derive(Clone, Copy, PartialEq, Eq, Structural, Debug)]
pub struct RoadProfile {
    pub block_type: SurfaceBlock,
    pub block_range: i32,
    pub grass_buffer: i32,
    pub parking_lane: bool,
    pub add_stripe: bool,
    pub add_outline: bool,
    pub physical_median_radius: i32,
    pub is_detached_sidewalk: bool,
}

/// The profile every road starts from: a two-block grey road, no markings.
pub open spec fn base_profile() -> RoadProfile {
    RoadProfile {
        block_type: SurfaceBlock::GrayConcrete,
        block_range: 2,
        grass_buffer: 0,
        parking_lane: false,
        add_stripe: false,
        add_outline: false,
        physical_median_radius: 0,
        is_detached_sidewalk: false,
    }
}

/// The profile of a road class; a generic road goes by its `highway` value
/// and, for roads, by its `lanes` tag.
pub open spec fn spec_road_profile(
    class: RoadClass,
    highway: Seq<char>,
    lanes: Option<Seq<char>>,
) -> RoadProfile {
    let b = base_profile();
    match class {
        RoadClass::Eixao => RoadProfile {
            block_type: SurfaceBlock::BlackConcrete,
            block_range: 18,
            add_stripe: true,
            grass_buffer: 8,
            physical_median_radius: 6,
            is_detached_sidewalk: true,
            ..b
        },
        RoadClass::Monumental => RoadProfile {
            block_type: SurfaceBlock::BlackConcrete,
            block_range: 26,
            add_stripe: true,
            grass_buffer: 12,
            physical_median_radius: 10,
            is_detached_sidewalk: true,
            ..b
        },
        RoadClass::ExpressaDF => RoadProfile {
            block_type: SurfaceBlock::BlackConcrete,
            block_range: 12,
            add_stripe: true,
            grass_buffer: 5,
            physical_median_radius: 1,
            ..b
        },
        RoadClass::L2L4 | RoadClass::Arterial => RoadProfile {
            block_type: SurfaceBlock::BlackConcrete,
            block_range: 9,
            add_stripe: true,
            grass_buffer: 5,
            physical_median_radius: 1,
            is_detached_sidewalk: true,
            ..b
        },
        RoadClass::W3 => RoadProfile {
            block_type: SurfaceBlock::PolishedBasalt,
            block_range: 8,
            parking_lane: true,
            add_stripe: true,
            grass_buffer: 2,
            ..b
        },
        RoadClass::ViaComercialSatelite => RoadProfile {
            block_type: SurfaceBlock::GrayConcrete,
            block_range: 7,
            parking_lane: true,
            add_stripe: true,
            grass_buffer: 0,
            is_detached_sidewalk: false,
            ..b
        },
        RoadClass::Coletora => RoadProfile {
            block_type: SurfaceBlock::GrayConcrete,
            block_range: 6,
            add_stripe: true,
            grass_buffer: 2,
            ..b
        },
        RoadClass::Tesourinha => RoadProfile {
            block_type: SurfaceBlock::BlackConcrete,
            block_range: 4,
            add_stripe: false,
            grass_buffer: 2,
            add_outline: true,
            ..b
        },
        RoadClass::Rotatoria => RoadProfile {
            block_type: SurfaceBlock::BlackConcrete,
            block_range: 6,
            add_stripe: true,
            grass_buffer: 2,
            add_outline: true,
            ..b
        },
        RoadClass::ViaSuperquadra => RoadProfile {
            block_type: SurfaceBlock::GrayTerracotta,
            block_range: 4,
            parking_lane: true,
            grass_buffer: 5,
            is_detached_sidewalk: true,
            ..b
        },
        RoadClass::ViaGuara | RoadClass::ViaLocal => RoadProfile {
            block_type: SurfaceBlock::GrayConcrete,
            block_range: 3,
            parking_lane: true,
            grass_buffer: 0,
            is_detached_sidewalk: false,
            ..b
        },
        RoadClass::Generic => {
            if highway == "footway"@ || highway == "pedestrian"@ {
                RoadProfile { block_type: SurfaceBlock::PolishedAndesite, block_range: 1, ..b }
            } else if highway == "path"@ {
                RoadProfile { block_type: SurfaceBlock::CoarseDirt, block_range: 1, ..b }
            } else if highway == "track"@ {
                RoadProfile { block_type: SurfaceBlock::DirtPath, block_range: 1, ..b }
            } else if highway == "escape"@ {
                RoadProfile { block_type: SurfaceBlock::Sand, block_range: 1, ..b }
            } else if highway == "steps"@ {
                RoadProfile { block_type: SurfaceBlock::StoneStairs, block_range: 1, ..b }
            } else {
                match lanes {
                    Some(l) => if l == "2"@ {
                        RoadProfile { block_range: 3, add_stripe: true, add_outline: true, ..b }
                    } else if l != "1"@ {
                        RoadProfile { block_range: 4, add_stripe: true, add_outline: true, ..b }
                    } else {
                        b
                    },
                    None => b,
                }
            }
        },
    }
}

/// The profile a road is painted with, from its class and, for a generic
/// road, its `highway` value and `lanes` tag.
pub fn road_profile(road: &DFRoadType, tags: &Tags) -> (p: RoadProfile)
    ensures
        p == spec_road_profile(
            road.class(),
            match road {
                DFRoadType::Generic(t) => t@,
                _ => Seq::<char>::empty(),
            },
            if tags@.contains_key("lanes"@) {
                Some(tags@["lanes"@])
            } else {
                None::<Seq<char>>
            },
        ),
{
    let b = RoadProfile {
        block_type: SurfaceBlock::GrayConcrete,
        block_range: 2,
        grass_buffer: 0,
        parking_lane: false,
        add_stripe: false,
        add_outline: false,
        physical_median_radius: 0,
        is_detached_sidewalk: false,
    };
    match road {
        DFRoadType::Eixao => RoadProfile {
            block_type: SurfaceBlock::BlackConcrete,
            block_range: 18,
            add_stripe: true,
            grass_buffer: 8,
            physical_median_radius: 6,
            is_detached_sidewalk: true,
            ..b
        },
        DFRoadType::Monumental => RoadProfile {
            block_type: SurfaceBlock::BlackConcrete,
            block_range: 26,
            add_stripe: true,
            grass_buffer: 12,
            physical_median_radius: 10,
            is_detached_sidewalk: true,
            ..b
        },
        DFRoadType::ExpressaDF => RoadProfile {
            block_type: SurfaceBlock::BlackConcrete,
            block_range: 12,
            add_stripe: true,
            grass_buffer: 5,
            physical_median_radius: 1,
            ..b
        },
        DFRoadType::L2L4 | DFRoadType::Arterial => RoadProfile {
            block_type: SurfaceBlock::BlackConcrete,
            block_range: 9,
            add_stripe: true,
            grass_buffer: 5,
            physical_median_radius: 1,
            is_detached_sidewalk: true,
            ..b
        },
        DFRoadType::W3 => RoadProfile {
            block_type: SurfaceBlock::PolishedBasalt,
            block_range: 8,
            parking_lane: true,
            add_stripe: true,
            grass_buffer: 2,
            ..b
        },
        DFRoadType::ViaComercialSatelite => RoadProfile {
            block_type: SurfaceBlock::GrayConcrete,
            block_range: 7,
            parking_lane: true,
            add_stripe: true,
            grass_buffer: 0,
            is_detached_sidewalk: false,
            ..b
        },
        DFRoadType::Coletora => RoadProfile {
            block_type: SurfaceBlock::GrayConcrete,
            block_range: 6,
            add_stripe: true,
            grass_buffer: 2,
            ..b
        },
        DFRoadType::Tesourinha => RoadProfile {
            block_type: SurfaceBlock::BlackConcrete,
            block_range: 4,
            add_stripe: false,
            grass_buffer: 2,
            add_outline: true,
            ..b
        },
        DFRoadType::Rotatoria => RoadProfile {
            block_type: SurfaceBlock::BlackConcrete,
            block_range: 6,
            add_stripe: true,
            grass_buffer: 2,
            add_outline: true,
            ..b
        },
        DFRoadType::ViaSuperquadra => RoadProfile {
            block_type: SurfaceBlock::GrayTerracotta,
            block_range: 4,
            parking_lane: true,
            grass_buffer: 5,
            is_detached_sidewalk: true,
            ..b
        },
        DFRoadType::ViaGuara | DFRoadType::ViaLocal => RoadProfile {
            block_type: SurfaceBlock::GrayConcrete,
            block_range: 3,
            parking_lane: true,
            grass_buffer: 0,
            is_detached_sidewalk: false,
            ..b
        },
        DFRoadType::Generic(t) => {
            let t = t.as_str();
            if str_eq(t, "footway") || str_eq(t, "pedestrian") {
                RoadProfile { block_type: SurfaceBlock::PolishedAndesite, block_range: 1, ..b }
            } else if str_eq(t, "path") {
                RoadProfile { block_type: SurfaceBlock::CoarseDirt, block_range: 1, ..b }
            } else if str_eq(t, "track") {
                RoadProfile { block_type: SurfaceBlock::DirtPath, block_range: 1, ..b }
            } else if str_eq(t, "escape") {
                RoadProfile { block_type: SurfaceBlock::Sand, block_range: 1, ..b }
            } else if str_eq(t, "steps") {
                RoadProfile { block_type: SurfaceBlock::StoneStairs, block_range: 1, ..b }
            } else {
                match tags.get("lanes") {
                    Some(l) => if str_eq(l.as_str(), "2") {
                        RoadProfile { block_range: 3, add_stripe: true, add_outline: true, ..b }
                    } else if !str_eq(l.as_str(), "1") {
                        RoadProfile { block_range: 4, add_stripe: true, add_outline: true, ..b }
                    } else {
                        b
                    },
                    None => b,
                }
            }
        },
    }
}

/// The surface of a paved area (`area=yes`) from its `surface` tag.
pub open spec fn spec_area_surface(surface: Option<Seq<char>>) -> SurfaceBlock {
    match surface {
        None => SurfaceBlock::GrayConcrete,
        Some(s) => if s == "paving_stones"@ || s == "sett"@ {
            SurfaceBlock::StoneBricks
        } else if s == "bricks"@ {
            SurfaceBlock::Brick
        } else if s == "wood"@ {
            SurfaceBlock::OakPlanks
        } else if s == "asphalt"@ {
            SurfaceBlock::BlackConcrete
        } else if s == "gravel"@ || s == "fine_gravel"@ {
            SurfaceBlock::Gravel
        } else if s == "grass"@ {
            SurfaceBlock::GrassBlock
        } else if s == "dirt"@ || s == "ground"@ || s == "earth"@ {
            SurfaceBlock::Dirt
        } else if s == "sand"@ {
            SurfaceBlock::Sand
        } else if s == "concrete"@ {
            SurfaceBlock::LightGrayConcrete
        } else {
            SurfaceBlock::GrayConcrete
        },
    }
}

/// The block a paved highway area is filled with.
pub fn area_surface(tags: &Tags) -> (b: SurfaceBlock)
    ensures
        b == spec_area_surface(
            if tags@.contains_key("surface"@) {
                Some(tags@["surface"@])
            } else {
                None::<Seq<char>>
            },
        ),
{
    match tags.get("surface") {
        None => SurfaceBlock::GrayConcrete,
        Some(v) => {
            let s = v.as_str();
            if str_eq(s, "paving_stones") || str_eq(s, "sett") {
                SurfaceBlock::StoneBricks
            } else if str_eq(s, "bricks") {
                SurfaceBlock::Brick
            } else if str_eq(s, "wood") {
                SurfaceBlock::OakPlanks
            } else if str_eq(s, "asphalt") {
                SurfaceBlock::BlackConcrete
            } else if str_eq(s, "gravel") || str_eq(s, "fine_gravel") {
                SurfaceBlock::Gravel
            } else if str_eq(s, "grass") {
                SurfaceBlock::GrassBlock
            } else if str_eq(s, "dirt") || str_eq(s, "ground") || str_eq(s, "earth") {
                SurfaceBlock::Dirt
            } else if str_eq(s, "sand") {
                SurfaceBlock::Sand
            } else if str_eq(s, "concrete") {
                SurfaceBlock::LightGrayConcrete
            } else {
                SurfaceBlock::GrayConcrete
            }
        },
    }
}


/// The integer value of tag `key`, or 0 where the tag is missing or does not
/// parse.
pub open spec fn tag_i32_or_zero(tags: Map<Seq<char>, Seq<char>>, key: Seq<char>) -> int {
    if tags.contains_key(key) {
        match spec_parse_i32(tags[key]) {
            Some(v) => v,
            None => 0,
        }
    } else {
        0
    }
}

/// The `layer` of a way, negative layers counting as ground level.
pub open spec fn spec_way_layer(tags: Map<Seq<char>, Seq<char>>) -> int {
    let l = tag_i32_or_zero(tags, "layer"@);
    if l < 0 {
        0
    } else {
        l
    }
}

pub(crate) fn tag_i32_or_zero_exec(tags: &Tags, key: &str) -> (r: i32)
    ensures
        r == tag_i32_or_zero(tags@, key@),
{
    match tags.get(key) {
        Some(v) => match parse_i32(v.as_str()) {
            Some(n) => n,
            None => 0,
        },
        None => 0,
    }
}

/// The layer of a way: its `layer` tag, with negative or unreadable values
/// counting as 0.
pub fn way_layer(tags: &Tags) -> (l: i32)
    ensures
        l == spec_way_layer(tags@),
        l >= 0,
{
    let l = tag_i32_or_zero_exec(tags, "layer");
    if l < 0 {
        0
    } else {
        l
    }
}

/// Whether a highway is indoors (`indoor=yes`).
pub open spec fn spec_is_indoor(tags: Map<Seq<char>, Seq<char>>) -> bool {
    tags.contains_key("indoor"@) && tags["indoor"@] == "yes"@
}

/// Whether a highway is a bridge: not indoors, with a `bridge` tag other than `no`.
pub open spec fn spec_is_bridge(tags: Map<Seq<char>, Seq<char>>) -> bool {
    !spec_is_indoor(tags) && tags.contains_key("bridge"@) && tags["bridge"@] != "no"@
}

/// The layer a highway is drawn on: 0 indoors, else its way layer.
pub open spec fn spec_highway_layer(tags: Map<Seq<char>, Seq<char>>) -> int {
    if spec_is_indoor(tags) {
        0
    } else {
        spec_way_layer(tags)
    }
}

/// Where a highway is drawn and how it is carried.
#[derive(Clone, Copy, PartialEq, Eq, Structural, Debug)]
pub struct HighwayPlacement {
    pub is_indoor: bool,
    pub is_bridge: bool,
    pub layer: i32,
    /// A `level` below ground: such highways are not drawn.
    pub below_ground: bool,
}

/// Indoor and bridge flags, the layer, and whether the highway lies on a
/// level below ground.
pub fn highway_placement(tags: &Tags) -> (p: HighwayPlacement)
    ensures
        p.is_indoor == spec_is_indoor(tags@),
        p.is_bridge == spec_is_bridge(tags@),
        p.layer == spec_highway_layer(tags@),
        p.below_ground == (tags@.contains_key("level"@) && tag_i32_or_zero(tags@, "level"@) < 0),
{
    let is_indoor = tags.has_value("indoor", "yes");
    let is_bridge = !is_indoor && match tags.get("bridge") {
        Some(v) => !str_eq(v.as_str(), "no"),
        None => false,
    };
    let layer = if is_indoor {
        0
    } else {
        way_layer(tags)
    };
    let below_ground = tags.contains_key("level") && tag_i32_or_zero_exec(tags, "level") < 0;
    HighwayPlacement { is_indoor, is_bridge, layer, below_ground }
}

/// The elevation of a highway's deck above the ground: five blocks a layer.
pub fn layer_base_elevation(layer: i32) -> (e: i32)
    requires
        i32::MIN <= layer * LAYER_HEIGHT_STEP <= i32::MAX,
    ensures
        e == layer * LAYER_HEIGHT_STEP,
{
    layer * LAYER_HEIGHT_STEP
}

// ---------------------------------------------------------------------------
// Connectivity of highway ends.
// ---------------------------------------------------------------------------

/// The layers of the highways that start or end at each block.
pub type HighwayConnectivityMap = CoordMap<Vec<i32>>;

/// `m` with `l` appended to the list of `k`.
pub open spec fn push_layer(m: Map<(i32, i32), Seq<i32>>, k: (i32, i32), l: i32) -> Map<
    (i32, i32),
    Seq<i32>,
> {
    m.insert(
        k,
        (if m.contains_key(k) {
            m[k]
        } else {
            Seq::empty()
        }).push(l),
    )
}

/// The connectivity of a list of elements: for each highway way with nodes,
/// in order, its layer is recorded at its first and at its last node.
pub open spec fn spec_connectivity(elems: Seq<ProcessedElement>) -> Map<(i32, i32), Seq<i32>>
    decreases elems.len(),
{
    if elems.len() == 0 {
        Map::empty()
    } else {
        let m = spec_connectivity(elems.drop_last());
        match elems.last() {
            ProcessedElement::Way(w) => if w.tags@.contains_key("highway"@) && w.nodes@.len() > 0 {
                let l = spec_way_layer(w.tags@) as i32;
                let first = w.nodes@[0];
                let last = w.nodes@[w.nodes@.len() - 1];
                push_layer(push_layer(m, (first.x, first.z), l), (last.x, last.z), l)
            } else {
                m
            },
            _ => m,
        }
    }
}

/// The lists of a connectivity map, by their contents.
pub open spec fn connectivity_view(m: Map<(i32, i32), Vec<i32>>) -> Map<(i32, i32), Seq<i32>> {
    m.map_values(|v: Vec<i32>| v@)
}

fn push_layer_exec(map: &mut HighwayConnectivityMap, k: (i32, i32), l: i32)
    ensures
        connectivity_view(final(map)@) == push_layer(connectivity_view(old(map)@), k, l),
{
    map.push_value(k, l);
    assert(connectivity_view(map@) =~= push_layer(connectivity_view(old(map)@), k, l));
}

/// Records, for every highway way, its layer at its first and last node.
pub fn build_highway_connectivity_map(elements: &[ProcessedElement]) -> (m: HighwayConnectivityMap)
    ensures
        connectivity_view(m@) == spec_connectivity(elements@),
{
    let mut map: HighwayConnectivityMap = CoordMap::new();
    assert(connectivity_view(map@) =~= spec_connectivity(elements@.take(0)));
    let mut i: usize = 0;
    while i < elements.len()
        invariant
            0 <= i <= elements@.len(),
            connectivity_view(map@) == spec_connectivity(elements@.take(i as int)),
        decreases elements@.len() - i,
    {
        assert(elements@.take(i + 1).drop_last() =~= elements@.take(i as int));
        assert(elements@.take(i + 1).last() == elements@[i as int]);
        match &elements[i] {
            ProcessedElement::Way(way) => {
                if way.tags.contains_key("highway") && way.nodes.len() > 0 {
                    let layer = way_layer(&way.tags);
                    let first = &way.nodes[0];
                    let last = &way.nodes[way.nodes.len() - 1];
                    push_layer_exec(&mut map, (first.x, first.z), layer);
                    push_layer_exec(&mut map, (last.x, last.z), layer);
                }
            },
            _ => {},
        }
        i = i + 1;
    }
    assert(elements@.take(elements@.len() as int) =~= elements@);
    map
}

/// Number of times `v` occurs in `s`.
pub open spec fn count_of(s: Seq<i32>, v: i32) -> nat
    decreases s.len(),
{
    if s.len() == 0 {
        0
    } else {
        count_of(s.drop_last(), v) + if s.last() == v {
            1nat
        } else {
            0nat
        }
    }
}

/// Whether a highway on layer `layer` ramps at the node at `k`: only raised
/// highways ramp, and not where another highway of the same layer meets it.
pub open spec fn spec_needs_slope(m: Map<(i32, i32), Seq<i32>>, k: (i32, i32), layer: i32) -> bool {
    if m.dom().len() == 0 || !m.contains_key(k) || count_of(m[k], layer) <= 1 {
        layer != 0
    } else {
        false
    }
}

/// Whether a highway on layer `current_layer` needs a ramp at `node`.
pub fn should_add_slope_at_node(
    node: &ProcessedNode,
    current_layer: i32,
    highway_connectivity: &HighwayConnectivityMap,
) -> (b: bool)
    ensures
        b == spec_needs_slope(connectivity_view(highway_connectivity@), (node.x, node.z), current_layer),
{
    let ghost m = connectivity_view(highway_connectivity@);
    assert(m.dom() =~= highway_connectivity@.dom());
    if highway_connectivity.len() == 0 {
        return current_layer != 0;
    }
    match highway_connectivity.get_ref((node.x, node.z)) {
        Some(layers) => {
            let mut count: usize = 0;
            let mut i: usize = 0;
            while i < layers.len()
                invariant
                    0 <= i <= layers@.len(),
                    count == count_of(layers@.take(i as int), current_layer),
                    count <= i,
                decreases layers@.len() - i,
            {
                assert(layers@.take(i + 1).drop_last() =~= layers@.take(i as int));
                if layers[i] == current_layer {
                    count = count + 1;
                }
                i = i + 1;
            }
            assert(layers@.take(layers@.len() as int) =~= layers@);
            if count <= 1 {
                current_layer != 0
            } else {
                false
            }
        },
        None => current_layer != 0,
    }
}


// ---------------------------------------------------------------------------
// Elevated roads and bridges.
// ---------------------------------------------------------------------------

/// Dip of the terrain below the higher end, in blocks, that makes a bridge
/// span a valley.
pub const VALLEY_BRIDGE_THRESHOLD: i32 = 5;

/// The step between the inner nodes of a bridge whose ground is sampled:
/// `(n - 1) / 2` for three or more inner nodes, else 1.
pub open spec fn spec_bridge_sample_step(n: int) -> int {
    let count = if n < 3 { n } else { 3 };
    let step = if count > 1 { (n - 1) / (count - 1) } else { 1 };
    if step < 1 { 1 } else { step }
}

/// The inner nodes of a bridge whose ground is sampled: every
/// `spec_bridge_sample_step(n)`-th of the `n` inner nodes, from the first.
pub fn bridge_sample_indices(n: usize) -> (v: Vec<usize>)
    ensures
        forall|j: int| 0 <= j < v@.len() ==> v@[j] as int == j * spec_bridge_sample_step(n as int),
        v@.len() * spec_bridge_sample_step(n as int) >= n,
        v@.len() == 0 || (v@.len() - 1) * spec_bridge_sample_step(n as int) < n,
{
    let count: usize = if n < 3 {
        n
    } else {
        3
    };
    let step0: usize = if count > 1 {
        (n - 1) / (count - 1)
    } else {
        1
    };
    let step: usize = if step0 < 1 {
        1
    } else {
        step0
    };
    assert(step as int == spec_bridge_sample_step(n as int));
    let mut v: Vec<usize> = Vec::new();
    let mut idx: usize = 0;
    while idx < n
        invariant
            step >= 1,
            step as int == spec_bridge_sample_step(n as int),
            idx as int == v@.len() * step,
            idx <= n,
            forall|j: int| 0 <= j < v@.len() ==> v@[j] as int == j * step,
            v@.len() == 0 || (v@.len() - 1) * step < n,
        decreases n - idx,
    {
        let ghost k = v@.len();
        v.push(idx);
        assert((k + 1) * step == k * step + step) by (nonlinear_arith);
        if n - idx <= step {
            return v;
        }
        idx = idx + step;
    }
    v
}

/// The deck height of a bridge over a valley: the higher of its ends, when
/// the lowest ground seen (ends and sampled inner nodes) lies more than
/// `VALLEY_BRIDGE_THRESHOLD` blocks below it; `None` for a bridge on level
/// ground.
pub open spec fn spec_valley_deck(start_y: i32, end_y: i32, samples: Seq<i32>) -> Option<i32> {
    let top = if start_y >= end_y { start_y } else { end_y };
    let ends_min = if start_y <= end_y { start_y } else { end_y };
    let low = if samples.len() == 0 { ends_min as int } else { min_of(samples, ends_min as int) };
    if low < top - VALLEY_BRIDGE_THRESHOLD {
        Some(top)
    } else {
        None
    }
}

/// The least of `acc` and the values of `s`.
pub open spec fn min_of(s: Seq<i32>, acc: int) -> int
    decreases s.len(),
{
    if s.len() == 0 {
        acc
    } else {
        let m = min_of(s.drop_last(), acc);
        if s.last() < m {
            s.last() as int
        } else {
            m
        }
    }
}

/// Whether a bridge spans a valley, and at which height its deck runs.
pub fn valley_bridge_deck(start_y: i32, end_y: i32, samples: &Vec<i32>) -> (r: Option<i32>)
    ensures
        r == spec_valley_deck(start_y, end_y, samples@),
{
    let top = if start_y >= end_y {
        start_y
    } else {
        end_y
    };
    let ends_min = if start_y <= end_y {
        start_y
    } else {
        end_y
    };
    let mut low: i32 = ends_min;
    let mut i: usize = 0;
    while i < samples.len()
        invariant
            0 <= i <= samples@.len(),
            low as int == min_of(samples@.take(i as int), ends_min as int),
        decreases samples@.len() - i,
    {
        assert(samples@.take(i + 1).drop_last() =~= samples@.take(i as int));
        if samples[i] < low {
            low = samples[i];
        }
        i = i + 1;
    }
    assert(samples@.take(samples@.len() as int) =~= samples@);
    if (low as i64) < (top as i64) - (VALLEY_BRIDGE_THRESHOLD as i64) {
        Some(top)
    } else {
        None
    }
}

/// How an elevated road is drawn: its elevation and whether each end ramps.
/// A short raised road that ramps at both ends (a way of at most 35 blocks)
/// is drawn at ground level instead.
pub open spec fn spec_effective_elevation(
    base_elevation: i32,
    needs_start_slope: bool,
    needs_end_slope: bool,
    layer: i32,
    way_length: int,
) -> (i32, bool, bool) {
    if needs_start_slope && needs_end_slope && layer > 0 && way_length <= 35 {
        (0, false, false)
    } else {
        (base_elevation, needs_start_slope, needs_end_slope)
    }
}

/// The elevation and ramps an elevated road is drawn with.
pub fn effective_elevation(
    base_elevation: i32,
    needs_start_slope: bool,
    needs_end_slope: bool,
    layer: i32,
    way_length: usize,
) -> (r: (i32, bool, bool))
    ensures
        r == spec_effective_elevation(
            base_elevation,
            needs_start_slope,
            needs_end_slope,
            layer,
            way_length as int,
        ),
{
    if needs_start_slope && needs_end_slope && layer > 0 && way_length <= 35 {
        (0, false, false)
    } else {
        (base_elevation, needs_start_slope, needs_end_slope)
    }
}

// ---------------------------------------------------------------------------
// The cross-section of a road.
// ---------------------------------------------------------------------------

/// What the brush paints at one offset across a road.
#[derive(Clone, Copy, PartialEq, Eq, Structural, Debug)]
pub enum CrossSection {
    /// The central median: a New Jersey barrier on expressways, else grass.
    Median(SurfaceBlock),
    /// The carriageway; `true` where a white parking line goes.
    Carriageway(SurfaceBlock, bool),
    /// Kerb, sidewalk or verge.
    Verge,
    /// Nothing on a bridge or a raised road beyond the carriageway.
    Nothing,
}

/// What lies at `dist` blocks from the centre of a road with profile `p`, at
/// `distance` blocks along it.
pub open spec fn spec_cross_section(
    p: RoadProfile,
    class: RoadClass,
    dist: int,
    distance: int,
    is_bridge: bool,
    effective_elevation: i32,
) -> CrossSection {
    if dist <= p.physical_median_radius && !is_bridge && effective_elevation == 0 {
        CrossSection::Median(
            if class == RoadClass::ExpressaDF {
                SurfaceBlock::PolishedAndesite
            } else {
                SurfaceBlock::GrassBlock
            },
        )
    } else if dist > p.physical_median_radius && dist <= p.block_range {
        CrossSection::Carriageway(
            p.block_type,
            p.parking_lane && dist >= p.block_range - 2 && distance % 4 == 0,
        )
    } else if !is_bridge && effective_elevation == 0 {
        CrossSection::Verge
    } else {
        CrossSection::Nothing
    }
}

/// The cross-section of a road at `dist` blocks from its centre and
/// `distance` blocks along it. A median is reported with the block that
/// stands for it (`PolishedAndesite` for a barrier wall).
pub fn cross_section(
    p: &RoadProfile,
    class: RoadClass,
    dist: i32,
    distance: u64,
    is_bridge: bool,
    effective_elevation: i32,
) -> (c: CrossSection)
    requires
        p.block_range >= i32::MIN + 2,
    ensures
        c == spec_cross_section(*p, class, dist as int, distance as int, is_bridge, effective_elevation),
{
    if dist <= p.physical_median_radius && !is_bridge && effective_elevation == 0 {
        CrossSection::Median(
            if class == RoadClass::ExpressaDF {
                SurfaceBlock::PolishedAndesite
            } else {
                SurfaceBlock::GrassBlock
            },
        )
    } else if dist > p.physical_median_radius && dist <= p.block_range {
        CrossSection::Carriageway(
            p.block_type,
            p.parking_lane && dist >= p.block_range - 2 && distance % 4 == 0,
        )
    } else if !is_bridge && effective_elevation == 0 {
        CrossSection::Verge
    } else {
        CrossSection::Nothing
    }
}

/// Offset of the centre line of each carriageway of a road with a median;
/// roads without a median have one line in the middle.
pub fn stripe_offset(p: &RoadProfile) -> (o: i32)
    requires
        0 <= p.physical_median_radius <= p.block_range,
    ensures
        o == (if p.physical_median_radius > 0 {
            p.physical_median_radius + (p.block_range - p.physical_median_radius) / 2
        } else {
            0
        }),
{
    if p.physical_median_radius > 0 {
        p.physical_median_radius + (p.block_range - p.physical_median_radius) / 2
    } else {
        0
    }
}

// ---------------------------------------------------------------------------
// Street furniture
// ---------------------------------------------------------------------------

/// The furniture a highway node is drawn as.
#[derive(Clone, Copy, PartialEq, Eq, Structural, Debug)]
pub enum StreetFurniture {
    StreetLamp,
    TrafficSignals,
    BusStop,
}

/// The furniture of a highway element: only nodes carry it; a
/// `street_lamp`, a `crossing` with `crossing=traffic_signals`, or a
/// `bus_stop`.
pub open spec fn spec_street_furniture(is_node: bool, t: Map<Seq<char>, Seq<char>>) -> Option<StreetFurniture> {
    if !is_node || !t.contains_key("highway"@) {
        None
    } else if t["highway"@] == "street_lamp"@ {
        Some(StreetFurniture::StreetLamp)
    } else if t["highway"@] == "crossing"@ && t.contains_key("crossing"@) && t["crossing"@]
        == "traffic_signals"@ {
        Some(StreetFurniture::TrafficSignals)
    } else if t["highway"@] == "bus_stop"@ {
        Some(StreetFurniture::BusStop)
    } else {
        None
    }
}

/// The furniture an element is drawn as, if any.
pub fn street_furniture(element: &ProcessedElement) -> (r: Option<StreetFurniture>)
    ensures
        r == spec_street_furniture(element is Node, element.spec_tags()),
{
    let is_node = match element {
        ProcessedElement::Node(_) => true,
        _ => false,
    };
    let t = element.tags();
    if !is_node {
        return None;
    }
    match t.get("highway") {
        None => None,
        Some(h) => {
            let h = h.as_str();
            if str_eq(h, "street_lamp") {
                Some(StreetFurniture::StreetLamp)
            } else if str_eq(h, "crossing") && t.has_value("crossing", "traffic_signals") {
                Some(StreetFurniture::TrafficSignals)
            } else if str_eq(h, "bus_stop") {
                Some(StreetFurniture::BusStop)
            } else {
                None
            }
        },
    }
}

/// The blocks of street furniture.
#[derive(Clone, Copy, PartialEq, Eq, Structural, Debug)]
pub enum FurnitureBlock {
    PolishedAndesite,
    IronBars,
    Glowstone,
    AndesiteWall,
    GreenWool,
    YellowWool,
    RedWool,
    SmoothStoneSlab,
    GrayStainedGlass,
}

/// The block a piece of furniture on the ground at `(x, g, z)` leaves at
/// offset `(dx, dy, dz)`:
/// - a street lamp: an andesite foot, a post of iron bars from two to seven
///   up, a glowstone lamp at eight;
/// - traffic signals: a post of andesite wall four high under green, yellow
///   and red wool;
/// - a bus stop: two posts of iron bars three high two blocks apart along x,
///   a roof of smooth stone slabs over both at four, and a pane of gray glass
///   between the posts under the roof.
pub open spec fn spec_furniture_block(kind: StreetFurniture, dx: int, dy: int, dz: int) -> Option<FurnitureBlock> {
    let centre = dx == 0 && dz == 0;
    match kind {
        StreetFurniture::StreetLamp => if centre && dy == 1 {
            Some(FurnitureBlock::PolishedAndesite)
        } else if centre && 2 <= dy <= 7 {
            Some(FurnitureBlock::IronBars)
        } else if centre && dy == 8 {
            Some(FurnitureBlock::Glowstone)
        } else {
            None
        },
        StreetFurniture::TrafficSignals => if centre && 1 <= dy <= 4 {
            Some(FurnitureBlock::AndesiteWall)
        } else if centre && dy == 5 {
            Some(FurnitureBlock::GreenWool)
        } else if centre && dy == 6 {
            Some(FurnitureBlock::YellowWool)
        } else if centre && dy == 7 {
            Some(FurnitureBlock::RedWool)
        } else {
            None
        },
        StreetFurniture::BusStop => if dz == 0 && 0 <= dx <= 2 && dy == 4 {
            Some(FurnitureBlock::SmoothStoneSlab)
        } else if dz == 0 && dx == 1 && dy == 3 {
            Some(FurnitureBlock::GrayStainedGlass)
        } else if dz == 0 && (dx == 0 || dx == 2) && 1 <= dy <= 3 {
            Some(FurnitureBlock::IronBars)
        } else {
            None
        },
    }
}

/// The block a piece of furniture leaves at offset `(dx, dy, dz)`.
pub fn furniture_block_at(kind: StreetFurniture, dx: i32, dy: i32, dz: i32) -> (r: Option<FurnitureBlock>)
    ensures
        r == spec_furniture_block(kind, dx as int, dy as int, dz as int),
{
    let centre = dx == 0 && dz == 0;
    match kind {
        StreetFurniture::StreetLamp => if centre && dy == 1 {
            Some(FurnitureBlock::PolishedAndesite)
        } else if centre && 2 <= dy && dy <= 7 {
            Some(FurnitureBlock::IronBars)
        } else if centre && dy == 8 {
            Some(FurnitureBlock::Glowstone)
        } else {
            None
        },
        StreetFurniture::TrafficSignals => if centre && 1 <= dy && dy <= 4 {
            Some(FurnitureBlock::AndesiteWall)
        } else if centre && dy == 5 {
            Some(FurnitureBlock::GreenWool)
        } else if centre && dy == 6 {
            Some(FurnitureBlock::YellowWool)
        } else if centre && dy == 7 {
            Some(FurnitureBlock::RedWool)
        } else {
            None
        },
        StreetFurniture::BusStop => if dz == 0 && 0 <= dx && dx <= 2 && dy == 4 {
            Some(FurnitureBlock::SmoothStoneSlab)
        } else if dz == 0 && dx == 1 && dy == 3 {
            Some(FurnitureBlock::GrayStainedGlass)
        } else if dz == 0 && (dx == 0 || dx == 2) && 1 <= dy && dy <= 3 {
            Some(FurnitureBlock::IronBars)
        } else {
            None
        },
    }
}

// ---------------------------------------------------------------------------
// Sidings and aeroways
// ---------------------------------------------------------------------------

/// The segments of a way: each node with the next, in order.
pub open spec fn spec_way_segments(way: &ProcessedWay) -> Seq<((i32, i32), (i32, i32))> {
    let n = way.nodes@.len();
    if n < 2 {
        Seq::empty()
    } else {
        Seq::new(
            (n - 1) as nat,
            |i: int| ((way.nodes@[i].x, way.nodes@[i].z), (way.nodes@[i + 1].x, way.nodes@[i + 1].z)),
        )
    }
}

fn way_segments(way: &ProcessedWay) -> (v: Vec<((i32, i32), (i32, i32))>)
    ensures
        v@ == spec_way_segments(way),
{
    let mut v: Vec<((i32, i32), (i32, i32))> = Vec::new();
    if way.nodes.len() < 2 {
        return v;
    }
    let mut i: usize = 1;
    while i < way.nodes.len()
        invariant
            1 <= i <= way.nodes@.len(),
            way.nodes@.len() >= 2,
            v@.len() == i - 1,
            forall|k: int|
                0 <= k < i - 1 ==> #[trigger] v@[k] == ((way.nodes@[k].x, way.nodes@[k].z), (
                way.nodes@[k + 1].x, way.nodes@[k + 1].z)),
        decreases way.nodes@.len() - i,
    {
        let a = &way.nodes[i - 1];
        let b = &way.nodes[i];
        v.push(((a.x, a.z), (b.x, b.z)));
        i += 1;
    }
    assert(v@ =~= spec_way_segments(way));
    v
}

/// The segments a siding is laid along: between each node of the way and
/// the next. At each point of a segment's line a stone brick slab goes one
/// above the ground, except where the ground is a road marking
/// (`siding_slab_at`).
pub fn generate_siding(way: &ProcessedWay) -> (v: Vec<((i32, i32), (i32, i32))>)
    ensures
        v@ == spec_way_segments(way),
{
    way_segments(way)
}

/// Whether a siding lays its slab over a point whose ground is or is not a
/// black or white road marking: only where it is not.
pub fn siding_slab_at(ground_is_marking: bool) -> (b: bool)
    ensures
        b == !ground_is_marking,
{
    !ground_is_marking
}

/// The segments an aeroway is paved along: between each node of the way
/// and the next. Around each point of a segment's line the ground is paved
/// in light gray concrete over a square of the way's half-width
/// (`aeroway_paves`).
pub fn generate_aeroway(way: &ProcessedWay) -> (v: Vec<((i32, i32), (i32, i32))>)
    ensures
        v@ == spec_way_segments(way),
{
    way_segments(way)
}

/// Whether the aeroway point `(px, pz)` with half-width `half_width` paves
/// the column `(x, z)`: within `half_width` of the point along both axes.
pub fn aeroway_paves(px: i32, pz: i32, half_width: i32, x: i32, z: i32) -> (b: bool)
    ensures
        b == (px - half_width <= x <= px + half_width && pz - half_width <= z <= pz + half_width),
{
    let (px, pz, w, x, z) = (px as i64, pz as i64, half_width as i64, x as i64, z as i64);
    px - w <= x && x <= px + w && pz - w <= z && z <= pz + w
}

/// Paths for walking are paved by what they are for: footways and
/// pedestrian streets in polished andesite, one block wide, unlike the
/// coarse dirt of a path or the dirt path of a track; no lane count
/// changes this.
pub proof fn lemma_generic_surfaces(highway: Seq<char>, lanes: Option<Seq<char>>)
    ensures
        (highway == "footway"@ || highway == "pedestrian"@) ==> spec_road_profile(RoadClass::Generic, highway, lanes).block_type == SurfaceBlock::PolishedAndesite
            && spec_road_profile(RoadClass::Generic, highway, lanes).block_range == 1,
        highway == "path"@ ==> spec_road_profile(RoadClass::Generic, highway, lanes).block_type == SurfaceBlock::CoarseDirt
            && spec_road_profile(RoadClass::Generic, highway, lanes).block_range == 1,
        highway == "track"@ ==> spec_road_profile(RoadClass::Generic, highway, lanes).block_type == SurfaceBlock::DirtPath,
        highway == "steps"@ ==> spec_road_profile(RoadClass::Generic, highway, lanes).block_type == SurfaceBlock::StoneStairs,
{
    reveal_strlit("footway");
    reveal_strlit("pedestrian");
    reveal_strlit("path");
    reveal_strlit("track");
    reveal_strlit("escape");
    reveal_strlit("steps");
    assert("track"@[0] != "steps"@[0]);
    assert("steps"@[0] != "track"@[0]);
    if highway == "footway"@ {
    }
    if highway == "pedestrian"@ {
        assert(highway != "footway"@) by { assert("pedestrian"@.len() != "footway"@.len() || "pedestrian"@ != "footway"@); }
    }
    if highway == "path"@ {
        assert(highway != "footway"@) by { assert("path"@.len() != "footway"@.len() || "path"@ != "footway"@); }
        assert(highway != "pedestrian"@) by { assert("path"@.len() != "pedestrian"@.len() || "path"@ != "pedestrian"@); }
    }
    if highway == "track"@ {
        assert(highway != "footway"@) by { assert("track"@.len() != "footway"@.len() || "track"@ != "footway"@); }
        assert(highway != "pedestrian"@) by { assert("track"@.len() != "pedestrian"@.len() || "track"@ != "pedestrian"@); }
        assert(highway != "path"@) by { assert("track"@.len() != "path"@.len() || "track"@ != "path"@); }
    }
    if highway == "escape"@ {
        assert(highway != "footway"@) by { assert("escape"@.len() != "footway"@.len() || "escape"@ != "footway"@); }
        assert(highway != "pedestrian"@) by { assert("escape"@.len() != "pedestrian"@.len() || "escape"@ != "pedestrian"@); }
        assert(highway != "path"@) by { assert("escape"@.len() != "path"@.len() || "escape"@ != "path"@); }
        assert(highway != "track"@) by { assert("escape"@.len() != "track"@.len() || "escape"@ != "track"@); }
    }
    if highway == "steps"@ {
        assert(highway != "footway"@) by { assert("steps"@.len() != "footway"@.len() || "steps"@ != "footway"@); }
        assert(highway != "pedestrian"@) by { assert("steps"@.len() != "pedestrian"@.len() || "steps"@ != "pedestrian"@); }
        assert(highway != "path"@) by { assert("steps"@.len() != "path"@.len() || "steps"@ != "path"@); }
        assert(highway != "track"@) by { assert("steps"@.len() != "track"@.len() || "steps"@ != "track"@); }
        assert(highway != "escape"@) by { assert("steps"@.len() != "escape"@.len() || "steps"@ != "escape"@); }
    }
}

} // verus!
