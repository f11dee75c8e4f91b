//! The landmarks of Brasília drawn by hand-made models: which one a building
//! is, from its name, kind and source.

use vstd::prelude::*;
use crate::buildings_interior::{divisible, trunc_div_exec};
use crate::data_processing::div_toward_zero;
use crate::highways::tag_or_empty;
use crate::osm_parser::ProcessedWay;
use crate::text::{is_substring, spec_to_lowercase, str_eq, string_contains, to_lowercase};

verus! {

/// The landmarks with models of their own.
#[derive(Clone, Copy, PartialEq, Eq, Structural, Debug)]
pub enum Landmark {
    Congresso,
    PalacioPlanalto,
    Stf,
    PalacioAlvorada,
    Itamaraty,
    PalacioJustica,
    Ministerio,
    Catedral,
    MuseuNacional,
    TeatroNacional,
    TorreTv,
    MemorialJk,
    Rodoviaria,
    EstadioNacional,
    PavilhaoParqueCidade,
    SedeBb,
    SedeCef,
    SedeBc,
    SedeBrb,
    ConjuntoNacional,
    HotelNacional,
    Igrejinha,
    EstacaoGuara,
    EstacaoAguasClaras,
}

/// The lowercase name a landmark is recognised by: `name`, else
/// `building:name`, else empty.
pub open spec fn spec_landmark_name(t: Map<Seq<char>, Seq<char>>) -> Seq<char> {
    if t.contains_key("name"@) {
        spec_to_lowercase(t["name"@])
    } else if t.contains_key("building:name"@) {
        spec_to_lowercase(t["building:name"@])
    } else {
        Seq::empty()
    }
}

/// Buildings that come from surveyed 3D models are left to those models.
pub open spec fn spec_surveyed(t: Map<Seq<char>, Seq<char>>) -> bool {
    let s = tag_or_empty(t, "source"@);
    s == "GDF_CityGML_3D"@ || s == "GDF_Mesh_Voxel"@ || s == "Photogrammetry_Mesh"@
}

/// Stations: `building=train_station`, `railway=station` or `station=subway`.
pub open spec fn spec_is_station(t: Map<Seq<char>, Seq<char>>) -> bool {
    tag_or_empty(t, "building"@) == "train_station"@ || tag_or_empty(t, "railway"@) == "station"@
        || tag_or_empty(t, "station"@) == "subway"@
}

/// The landmark a lowercase name designates; the first rule that applies decides.
pub open spec fn spec_landmark(n: Seq<char>, station: bool) -> Option<Landmark> {
    let c = |s: Seq<char>| is_substring(s, n);
    if c("congresso nacional"@) || c("câmara dos deputados"@) || c("senado federal"@) {
        Some(Landmark::Congresso)
    } else if c("palácio do planalto"@) || c("palacio do planalto"@) {
        Some(Landmark::PalacioPlanalto)
    } else if c("supremo tribunal federal"@) || c("stf"@) {
        Some(Landmark::Stf)
    } else if c("alvorada"@) {
        Some(Landmark::PalacioAlvorada)
    } else if c("itamaraty"@) || c("palácio dos arcos"@) {
        Some(Landmark::Itamaraty)
    } else if c("justiça"@) && c("palácio"@) {
        Some(Landmark::PalacioJustica)
    } else if c("ministério da"@) || c("ministerio da"@) || c("ministério do"@) || c(
        "ministerio do"@,
    ) {
        Some(Landmark::Ministerio)
    } else if c("catedral metropolitana"@) {
        Some(Landmark::Catedral)
    } else if c("museu nacional"@) && c("república"@) {
        Some(Landmark::MuseuNacional)
    } else if c("teatro nacional"@) || c("cláudio santoro"@) {
        Some(Landmark::TeatroNacional)
    } else if c("torre de tv"@) && !c("digital"@) {
        Some(Landmark::TorreTv)
    } else if c("memorial jk"@) || c("juscelino kubitschek"@) {
        Some(Landmark::MemorialJk)
    } else if c("rodoviária do plano piloto"@) || c("rodoviaria do plano piloto"@) {
        Some(Landmark::Rodoviaria)
    } else if c("estádio nacional"@) || c("mané garrincha"@) || c("mane garrincha"@) {
        Some(Landmark::EstadioNacional)
    } else if c("parque da cidade"@) && c("pavil"@) {
        Some(Landmark::PavilhaoParqueCidade)
    } else if c("banco do brasil"@) && c("sede"@) {
        Some(Landmark::SedeBb)
    } else if (c("caixa econômica"@) || c("caixa economica"@)) && c("matriz"@) {
        Some(Landmark::SedeCef)
    } else if c("banco central do brasil"@) || c("bc"@) || c("bacen"@) {
        Some(Landmark::SedeBc)
    } else if (c("banco de brasília"@) || c("brb"@)) && c("sede"@) {
        Some(Landmark::SedeBrb)
    } else if c("conjunto nacional"@) {
        Some(Landmark::ConjuntoNacional)
    } else if c("hotel nacional"@) {
        Some(Landmark::HotelNacional)
    } else if c("igrejinha"@) || (c("nossa senhora de fátima"@) && c("igreja"@)) {
        Some(Landmark::Igrejinha)
    } else if station && (c("guará"@) || c("guara"@)) {
        Some(Landmark::EstacaoGuara)
    } else if station && (c("águas claras"@) || c("aguas claras"@)) {
        Some(Landmark::EstacaoAguasClaras)
    } else {
        None
    }
}

fn tag_eq(t: &crate::tags::Tags, key: &str, value: &str) -> (b: bool)
    ensures
        b == (tag_or_empty(t@, key@) == value@),
{
    match t.get(key) {
        Some(v) => str_eq(v.as_str(), value),
        None => {
            assert(value@.len() == 0 ==> value@ =~= Seq::<char>::empty());
            value.unicode_len() == 0
        },
    }
}

/// The landmark a building is drawn as, if any: `None` hands it back to the
/// ordinary building generator.
pub fn generate_unique_landmark(element: &ProcessedWay) -> (l: Option<Landmark>)
    ensures
        l == (if spec_surveyed(element.tags@) {
            None
        } else {
            spec_landmark(spec_landmark_name(element.tags@), spec_is_station(element.tags@))
        }),
{
    let t = &element.tags;
    if tag_eq(t, "source", "GDF_CityGML_3D") || tag_eq(t, "source", "GDF_Mesh_Voxel") || tag_eq(
        t,
        "source",
        "Photogrammetry_Mesh",
    ) {
        return None;
    }
    let name = match t.get("name") {
        Some(v) => to_lowercase(v.as_str()),
        None => match t.get("building:name") {
            Some(v) => to_lowercase(v.as_str()),
            None => String::new(),
        },
    };
    let station = tag_eq(t, "building", "train_station") || tag_eq(t, "railway", "station")
        || tag_eq(t, "station", "subway");
    let n = &name;
    if string_contains(n, "congresso nacional") || string_contains(n, "câmara dos deputados")
        || string_contains(n, "senado federal") {
        Some(Landmark::Congresso)
    } else if string_contains(n, "palácio do planalto") || string_contains(n, "palacio do planalto") {
        Some(Landmark::PalacioPlanalto)
    } else if string_contains(n, "supremo tribunal federal") || string_contains(n, "stf") {
        Some(Landmark::Stf)
    } else if string_contains(n, "alvorada") {
        Some(Landmark::PalacioAlvorada)
    } else if string_contains(n, "itamaraty") || string_contains(n, "palácio dos arcos") {
        Some(Landmark::Itamaraty)
    } else if string_contains(n, "justiça") && string_contains(n, "palácio") {
        Some(Landmark::PalacioJustica)
    } else if string_contains(n, "ministério da") || string_contains(n, "ministerio da")
        || string_contains(n, "ministério do") || string_contains(n, "ministerio do") {
        Some(Landmark::Ministerio)
    } else if string_contains(n, "catedral metropolitana") {
        Some(Landmark::Catedral)
    } else if string_contains(n, "museu nacional") && string_contains(n, "república") {
        Some(Landmark::MuseuNacional)
    } else if string_contains(n, "teatro nacional") || string_contains(n, "cláudio santoro") {
        Some(Landmark::TeatroNacional)
    } else if string_contains(n, "torre de tv") && !string_contains(n, "digital") {
        Some(Landmark::TorreTv)
    } else if string_contains(n, "memorial jk") || string_contains(n, "juscelino kubitschek") {
        Some(Landmark::MemorialJk)
    } else if string_contains(n, "rodoviária do plano piloto") || string_contains(
        n,
        "rodoviaria do plano piloto",
    ) {
        Some(Landmark::Rodoviaria)
    } else if string_contains(n, "estádio nacional") || string_contains(n, "mané garrincha")
        || string_contains(n, "mane garrincha") {
        Some(Landmark::EstadioNacional)
    } else if string_contains(n, "parque da cidade") && string_contains(n, "pavil") {
        Some(Landmark::PavilhaoParqueCidade)
    } else if string_contains(n, "banco do brasil") && string_contains(n, "sede") {
        Some(Landmark::SedeBb)
    } else if (string_contains(n, "caixa econômica") || string_contains(n, "caixa economica"))
        && string_contains(n, "matriz") {
        Some(Landmark::SedeCef)
    } else if string_contains(n, "banco central do brasil") || string_contains(n, "bc")
        || string_contains(n, "bacen") {
        Some(Landmark::SedeBc)
    } else if (string_contains(n, "banco de brasília") || string_contains(n, "brb"))
        && string_contains(n, "sede") {
        Some(Landmark::SedeBrb)
    } else if string_contains(n, "conjunto nacional") {
        Some(Landmark::ConjuntoNacional)
    } else if string_contains(n, "hotel nacional") {
        Some(Landmark::HotelNacional)
    } else if string_contains(n, "igrejinha") || (string_contains(n, "nossa senhora de fátima")
        && string_contains(n, "igreja")) {
        Some(Landmark::Igrejinha)
    } else if station && (string_contains(n, "guará") || string_contains(n, "guara")) {
        Some(Landmark::EstacaoGuara)
    } else if station && (string_contains(n, "águas claras") || string_contains(n, "aguas claras")) {
        Some(Landmark::EstacaoAguasClaras)
    } else {
        None
    }
}

// ---------------------------------------------------------------------------
// Landmarks built on their bounding box
// ---------------------------------------------------------------------------
//
// These landmarks fill the box `min_x ..= max_x` by `min_z ..= max_z` (the
// landmark's outline widened about its centre `(cx, cz)`) from the ground
// `g` up to `g + height`; the cell functions give the block each leaves at
// `(x, y, z)`.

/// The blocks of the landmarks built on their bounding box.
#[derive(Clone, Copy, PartialEq, Eq, Structural, Debug)]
pub enum LandmarkBlock {
    SmoothQuartz,
    BlackStainedGlass,
    PolishedAndesite,
    TintedGlass,
    Glass,
    PolishedDiorite,
    Water,
    SmoothStone,
    WhiteConcrete,
    GrayConcrete,
    PolishedDeepslate,
    StoneBricks,
    RedConcrete,
    GlassPane,
    YellowTerracotta,
    YellowConcrete,
    IronBlock,
    IronBars,
    GrassBlock,
    WhiteStainedGlass,
}

/// The height of a landmark built on its bounding box, in blocks (its
/// height in metres at the vertical scale); none for the other landmarks.
pub open spec fn spec_box_landmark_height(l: Landmark) -> Option<i32> {
    match l {
        Landmark::PalacioPlanalto => Some(23),
        Landmark::Stf => Some(17),
        Landmark::PalacioAlvorada => Some(13),
        Landmark::Itamaraty => Some(27),
        Landmark::PalacioJustica => Some(25),
        Landmark::SedeBb => Some(92),
        Landmark::SedeCef => Some(86),
        Landmark::SedeBc => Some(74),
        Landmark::ConjuntoNacional => Some(28),
        Landmark::HotelNacional => Some(57),
        Landmark::Rodoviaria => Some(17),
        _ => None,
    }
}

/// The height of a landmark built on its bounding box.
pub fn box_landmark_height(l: Landmark) -> (h: Option<i32>)
    ensures
        h == spec_box_landmark_height(l),
{
    match l {
        Landmark::PalacioPlanalto => Some(23),
        Landmark::Stf => Some(17),
        Landmark::PalacioAlvorada => Some(13),
        Landmark::Itamaraty => Some(27),
        Landmark::PalacioJustica => Some(25),
        Landmark::SedeBb => Some(92),
        Landmark::SedeCef => Some(86),
        Landmark::SedeBc => Some(74),
        Landmark::ConjuntoNacional => Some(28),
        Landmark::HotelNacional => Some(57),
        Landmark::Rodoviaria => Some(17),
        _ => None,
    }
}

/// The remainder of `a` by `m` with the sign of `a`, as `%` on integers
/// computes it.
pub open spec fn rem_toward_zero(a: int, m: int) -> int {
    a - m * div_toward_zero(a, m)
}

/// The block a landmark built on its bounding box leaves at `(x, y, z)`:
/// - the Planalto and the STF: quartz slabs at `g + 1` and on top, quartz
///   pillars every sixth (fifth) block of the edge along the diagonals, an
///   inner curtain of glass three blocks in, and floors of andesite every
///   fourth (fifth) level inside it;
/// - the Alvorada: a quartz roof, pillars every eighth block of the edge,
///   a glass curtain two blocks in and a diorite floor inside it;
/// - the Itamaraty: a reflecting pool at `g + 1`, a roof and pillars (every
///   sixth) of smooth stone, a black glass curtain four blocks in;
/// - the Palace of Justice: white slabs at the ground and on top, walls of
///   tinted glass with white pillars every eighth block, and cascades of
///   water on the south face below `g + 10`;
/// - the Banco do Brasil: a cross ten blocks wide through the centre, glazed
///   black on the edge, with andesite floors every fourth level;
/// - the Caixa: walls of tinted glass with gray bands where the diagonal
///   index leaves a remainder below two by eight;
/// - the Banco Central: walls of polished deepslate above `g + 10`, stone
///   brick pillars every fourth block below;
/// - the Conjunto Nacional: white walls above `g + 5`, with a red band at
///   `height - 2` on every fifth x, andesite pillars every sixth block below;
/// - the Hotel Nacional: walls of glass panes, yellow terracotta on every
///   third diagonal and every fourth level;
/// - the bus station: smooth stone slabs at `g + 1` and on top, andesite
///   pillars on every fifteenth diagonal, and yellow marks on every fourth x
///   at `g + 2`.
pub open spec fn spec_box_landmark_block(
    l: Landmark,
    min_x: int,
    max_x: int,
    min_z: int,
    max_z: int,
    cx: int,
    cz: int,
    g: int,
    x: int,
    y: int,
    z: int,
) -> Option<LandmarkBlock> {
    let edge = x == min_x || x == max_x || z == min_z || z == max_z;
    let d = x + z;
    let inside = |k: int| min_x + k < x < max_x - k && min_z + k < z < max_z - k;
    let ring = |k: int| x == min_x + k || x == max_x - k || z == min_z + k || z == max_z - k;
    match spec_box_landmark_height(l) {
        None => None,
        Some(h) => if !(g <= y <= g + h && min_x <= x <= max_x && min_z <= z <= max_z) {
            None
        } else {
            match l {
                Landmark::PalacioPlanalto => if y == g + 1 || y == g + h {
                    Some(LandmarkBlock::SmoothQuartz)
                } else if edge && d % 6 == 0 {
                    Some(LandmarkBlock::SmoothQuartz)
                } else if !edge && inside(2) {
                    if ring(3) {
                        Some(LandmarkBlock::BlackStainedGlass)
                    } else if y % 4 == 0 {
                        Some(LandmarkBlock::PolishedAndesite)
                    } else {
                        None
                    }
                } else {
                    None
                },
                Landmark::Stf => if y == g + 1 || y == g + h {
                    Some(LandmarkBlock::SmoothQuartz)
                } else if edge && d % 5 == 0 {
                    Some(LandmarkBlock::SmoothQuartz)
                } else if !edge && inside(2) {
                    if ring(3) {
                        Some(LandmarkBlock::TintedGlass)
                    } else if y % 5 == 0 {
                        Some(LandmarkBlock::PolishedAndesite)
                    } else {
                        None
                    }
                } else {
                    None
                },
                Landmark::PalacioAlvorada => if y == g + h {
                    Some(LandmarkBlock::SmoothQuartz)
                } else if edge && d % 8 == 0 {
                    Some(LandmarkBlock::SmoothQuartz)
                } else if !edge && inside(1) {
                    if ring(2) {
                        Some(LandmarkBlock::Glass)
                    } else if y == g + 1 {
                        Some(LandmarkBlock::PolishedDiorite)
                    } else {
                        None
                    }
                } else {
                    None
                },
                Landmark::Itamaraty => if y == g + 1 {
                    Some(LandmarkBlock::Water)
                } else if y == g + h {
                    Some(LandmarkBlock::SmoothStone)
                } else if edge && d % 6 == 0 {
                    Some(LandmarkBlock::SmoothStone)
                } else if !edge && inside(3) && ring(4) {
                    Some(LandmarkBlock::BlackStainedGlass)
                } else {
                    None
                },
                Landmark::PalacioJustica => if y == g || y == g + h {
                    Some(LandmarkBlock::WhiteConcrete)
                } else if edge {
                    if d % 8 == 0 {
                        Some(LandmarkBlock::WhiteConcrete)
                    } else if y < g + 10 && z == max_z {
                        Some(LandmarkBlock::Water)
                    } else {
                        Some(LandmarkBlock::TintedGlass)
                    }
                } else {
                    None
                },
                Landmark::SedeBb => if -5 < x - cx < 5 || -5 < z - cz < 5 {
                    if edge {
                        Some(LandmarkBlock::BlackStainedGlass)
                    } else if y % 4 == 0 {
                        Some(LandmarkBlock::PolishedAndesite)
                    } else {
                        None
                    }
                } else {
                    None
                },
                Landmark::SedeCef => if edge {
                    if rem_toward_zero(d, 8) < 2 {
                        Some(LandmarkBlock::GrayConcrete)
                    } else {
                        Some(LandmarkBlock::TintedGlass)
                    }
                } else {
                    None
                },
                Landmark::SedeBc => if edge {
                    if y > g + 10 {
                        Some(LandmarkBlock::PolishedDeepslate)
                    } else if d % 4 == 0 {
                        Some(LandmarkBlock::StoneBricks)
                    } else {
                        None
                    }
                } else {
                    None
                },
                Landmark::ConjuntoNacional => if edge {
                    if y > g + 5 {
                        if y == g + h - 2 && x % 5 == 0 {
                            Some(LandmarkBlock::RedConcrete)
                        } else {
                            Some(LandmarkBlock::WhiteConcrete)
                        }
                    } else if d % 6 == 0 {
                        Some(LandmarkBlock::PolishedAndesite)
                    } else {
                        None
                    }
                } else {
                    None
                },
                Landmark::Rodoviaria => if y == g + 1 || y == g + h {
                    Some(LandmarkBlock::SmoothStone)
                } else if d % 15 == 0 {
                    Some(LandmarkBlock::PolishedAndesite)
                } else if y == g + 2 && x % 4 == 0 {
                    Some(LandmarkBlock::YellowConcrete)
                } else {
                    None
                },
                _ => if edge {
                    if d % 3 != 0 && y % 4 != 0 {
                        Some(LandmarkBlock::GlassPane)
                    } else {
                        Some(LandmarkBlock::YellowTerracotta)
                    }
                } else {
                    None
                },
            }
        },
    }
}

/// The block a landmark built on its bounding box leaves at `(x, y, z)`.
pub fn box_landmark_block_at(
    l: Landmark,
    min_x: i32,
    max_x: i32,
    min_z: i32,
    max_z: i32,
    cx: i32,
    cz: i32,
    g: i32,
    x: i32,
    y: i32,
    z: i32,
) -> (r: Option<LandmarkBlock>)
    ensures
        r == spec_box_landmark_block(
            l,
            min_x as int,
            max_x as int,
            min_z as int,
            max_z as int,
            cx as int,
            cz as int,
            g as int,
            x as int,
            y as int,
            z as int,
        ),
{
    let h = match box_landmark_height(l) {
        None => {
            return None;
        },
        Some(h) => h as i64,
    };
    let (min_x, max_x, min_z, max_z) = (min_x as i64, max_x as i64, min_z as i64, max_z as i64);
    let (cx, cz, g, x, y, z) = (cx as i64, cz as i64, g as i64, x as i64, y as i64, z as i64);
    if !(g <= y && y <= g + h && min_x <= x && x <= max_x && min_z <= z && z <= max_z) {
        return None;
    }
    let edge = x == min_x || x == max_x || z == min_z || z == max_z;
    let d = x + z;
    let in2 = min_x + 2 < x && x < max_x - 2 && min_z + 2 < z && z < max_z - 2;
    let ring3 = x == min_x + 3 || x == max_x - 3 || z == min_z + 3 || z == max_z - 3;
    match l {
        Landmark::PalacioPlanalto => if y == g + 1 || y == g + h {
            Some(LandmarkBlock::SmoothQuartz)
        } else if edge && divisible(d, 6) {
            Some(LandmarkBlock::SmoothQuartz)
        } else if !edge && in2 {
            if ring3 {
                Some(LandmarkBlock::BlackStainedGlass)
            } else if divisible(y, 4) {
                Some(LandmarkBlock::PolishedAndesite)
            } else {
                None
            }
        } else {
            None
        },
        Landmark::Stf => if y == g + 1 || y == g + h {
            Some(LandmarkBlock::SmoothQuartz)
        } else if edge && divisible(d, 5) {
            Some(LandmarkBlock::SmoothQuartz)
        } else if !edge && in2 {
            if ring3 {
                Some(LandmarkBlock::TintedGlass)
            } else if divisible(y, 5) {
                Some(LandmarkBlock::PolishedAndesite)
            } else {
                None
            }
        } else {
            None
        },
        Landmark::PalacioAlvorada => if y == g + h {
            Some(LandmarkBlock::SmoothQuartz)
        } else if edge && divisible(d, 8) {
            Some(LandmarkBlock::SmoothQuartz)
        } else if !edge && (min_x + 1 < x && x < max_x - 1 && min_z + 1 < z && z < max_z - 1) {
            if x == min_x + 2 || x == max_x - 2 || z == min_z + 2 || z == max_z - 2 {
                Some(LandmarkBlock::Glass)
            } else if y == g + 1 {
                Some(LandmarkBlock::PolishedDiorite)
            } else {
                None
            }
        } else {
            None
        },
        Landmark::Itamaraty => if y == g + 1 {
            Some(LandmarkBlock::Water)
        } else if y == g + h {
            Some(LandmarkBlock::SmoothStone)
        } else if edge && divisible(d, 6) {
            Some(LandmarkBlock::SmoothStone)
        } else if !edge && (min_x + 3 < x && x < max_x - 3 && min_z + 3 < z && z < max_z - 3) && (x
            == min_x + 4 || x == max_x - 4 || z == min_z + 4 || z == max_z - 4) {
            Some(LandmarkBlock::BlackStainedGlass)
        } else {
            None
        },
        Landmark::PalacioJustica => if y == g || y == g + h {
            Some(LandmarkBlock::WhiteConcrete)
        } else if edge {
            if divisible(d, 8) {
                Some(LandmarkBlock::WhiteConcrete)
            } else if y < g + 10 && z == max_z {
                Some(LandmarkBlock::Water)
            } else {
                Some(LandmarkBlock::TintedGlass)
            }
        } else {
            None
        },
        Landmark::SedeBb => if (-5 < x - cx && x - cx < 5) || (-5 < z - cz && z - cz < 5) {
            if edge {
                Some(LandmarkBlock::BlackStainedGlass)
            } else if divisible(y, 4) {
                Some(LandmarkBlock::PolishedAndesite)
            } else {
                None
            }
        } else {
            None
        },
        Landmark::SedeCef => if edge {
            let q = trunc_div_exec(d, 8);
            if d - 8 * q < 2 {
                Some(LandmarkBlock::GrayConcrete)
            } else {
                Some(LandmarkBlock::TintedGlass)
            }
        } else {
            None
        },
        Landmark::SedeBc => if edge {
            if y > g + 10 {
                Some(LandmarkBlock::PolishedDeepslate)
            } else if divisible(d, 4) {
                Some(LandmarkBlock::StoneBricks)
            } else {
                None
            }
        } else {
            None
        },
        Landmark::ConjuntoNacional => if edge {
            if y > g + 5 {
                if y == g + h - 2 && divisible(x, 5) {
                    Some(LandmarkBlock::RedConcrete)
                } else {
                    Some(LandmarkBlock::WhiteConcrete)
                }
            } else if divisible(d, 6) {
                Some(LandmarkBlock::PolishedAndesite)
            } else {
                None
            }
        } else {
            None
        },
        Landmark::Rodoviaria => if y == g + 1 || y == g + h {
            Some(LandmarkBlock::SmoothStone)
        } else if divisible(d, 15) {
            Some(LandmarkBlock::PolishedAndesite)
        } else if y == g + 2 && divisible(x, 4) {
            Some(LandmarkBlock::YellowConcrete)
        } else {
            None
        },
        _ => if edge {
            if !divisible(d, 3) && !divisible(y, 4) {
                Some(LandmarkBlock::GlassPane)
            } else {
                Some(LandmarkBlock::YellowTerracotta)
            }
        } else {
            None
        },
    }
}

/// The TV tower at offset `(dx, dy, dz)` from its centre at the ground: a
/// lattice of four legs on the diamond `|dx| + |dz| = 26 - dy / 8`, iron
/// blocks every third level and iron bars between, up to where the diamond
/// closes; a deck of smooth stone 39 by 39 at 86 (75 m) with glass panes
/// round its edge on the two levels above it.
pub open spec fn spec_torre_tv_block(dx: int, dy: int, dz: int) -> Option<LandmarkBlock> {
    let r = 26 - dy / 8;
    let adx = if dx < 0 { -dx } else { dx };
    let adz = if dz < 0 { -dz } else { dz };
    let on_deck = -19 <= dx <= 19 && -19 <= dz <= 19;
    if dy == 86 && on_deck {
        Some(LandmarkBlock::SmoothStone)
    } else if (dy == 87 || dy == 88) && on_deck && (adx == 19 || adz == 19) {
        Some(LandmarkBlock::GlassPane)
    } else if 0 <= dy && r >= 1 && adx + adz == r {
        if dy % 3 == 0 { Some(LandmarkBlock::IronBlock) } else { Some(LandmarkBlock::IronBars) }
    } else {
        None
    }
}

/// The block the TV tower leaves at offset `(dx, dy, dz)` from its centre.
pub fn torre_tv_block_at(dx: i32, dy: i32, dz: i32) -> (r: Option<LandmarkBlock>)
    ensures
        r == spec_torre_tv_block(dx as int, dy as int, dz as int),
{
    let (dx, dy, dz) = (dx as i64, dy as i64, dz as i64);
    let adx = if dx < 0 { -dx } else { dx };
    let adz = if dz < 0 { -dz } else { dz };
    let on_deck = -19 <= dx && dx <= 19 && -19 <= dz && dz <= 19;
    if dy == 86 && on_deck {
        Some(LandmarkBlock::SmoothStone)
    } else if (dy == 87 || dy == 88) && on_deck && (adx == 19 || adz == 19) {
        Some(LandmarkBlock::GlassPane)
    } else if 0 <= dy && 26 - dy / 8 >= 1 && adx + adz == 26 - dy / 8 {
        if dy % 3 == 0 { Some(LandmarkBlock::IronBlock) } else { Some(LandmarkBlock::IronBars) }
    } else {
        None
    }
}

/// The JK Memorial at offset `(dx, dy, dz)` from its centre at the ground:
/// a plaza 107 by 21 (white concrete under quartz), a white shaft five by
/// five up to 32 (28 m), and the sickle of quartz thirteen by five, two
/// blocks thick, on top of it.
pub open spec fn spec_memorial_jk_block(dx: int, dy: int, dz: int) -> Option<LandmarkBlock> {
    if -53 <= dx <= 53 && -10 <= dz <= 10 && dy == 1 {
        Some(LandmarkBlock::WhiteConcrete)
    } else if -53 <= dx <= 53 && -10 <= dz <= 10 && dy == 2 {
        Some(LandmarkBlock::SmoothQuartz)
    } else if -2 <= dx <= 2 && -2 <= dz <= 2 && 3 <= dy <= 32 {
        Some(LandmarkBlock::WhiteConcrete)
    } else if -6 <= dx <= 6 && -2 <= dz <= 2 && (dy == 33 || dy == 34) {
        Some(LandmarkBlock::SmoothQuartz)
    } else {
        None
    }
}

/// The block the JK Memorial leaves at offset `(dx, dy, dz)` from its
/// centre.
pub fn memorial_jk_block_at(dx: i32, dy: i32, dz: i32) -> (r: Option<LandmarkBlock>)
    ensures
        r == spec_memorial_jk_block(dx as int, dy as int, dz as int),
{
    if -53 <= dx && dx <= 53 && -10 <= dz && dz <= 10 && dy == 1 {
        Some(LandmarkBlock::WhiteConcrete)
    } else if -53 <= dx && dx <= 53 && -10 <= dz && dz <= 10 && dy == 2 {
        Some(LandmarkBlock::SmoothQuartz)
    } else if -2 <= dx && dx <= 2 && -2 <= dz && dz <= 2 && 3 <= dy && dy <= 32 {
        Some(LandmarkBlock::WhiteConcrete)
    } else if -6 <= dx && dx <= 6 && -2 <= dz && dz <= 2 && (dy == 33 || dy == 34) {
        Some(LandmarkBlock::SmoothQuartz)
    } else {
        None
    }
}

/// `s` is the integer square root of `n`: the largest integer whose square
/// is at most `n`.
pub open spec fn is_isqrt(n: int, s: int) -> bool {
    0 <= s && s * s <= n < (s + 1) * (s + 1)
}

/// The integer square root of a non-negative `n`.
pub open spec fn spec_isqrt(n: int) -> int {
    choose|s: int| is_isqrt(n, s)
}

proof fn lemma_isqrt_unique(n: int, s: int, t: int)
    requires
        is_isqrt(n, s),
        is_isqrt(n, t),
    ensures
        s == t,
{
    if s < t {
        assert((s + 1) * (s + 1) <= t * t) by (nonlinear_arith)
            requires
                0 <= s,
                s + 1 <= t,
        ;
    } else if t < s {
        assert((t + 1) * (t + 1) <= s * s) by (nonlinear_arith)
            requires
                0 <= t,
                t + 1 <= s,
        ;
    }
}

fn isqrt(n: i128) -> (s: i128)
    requires
        0 <= n <= 0x1_0000_0000_0000_0000_0000,
    ensures
        is_isqrt(n as int, s as int),
        s as int == spec_isqrt(n as int),
{
    let mut lo: i128 = 0;
    let mut hi: i128 = 0x1_0000_0000_0001;
    assert(hi * hi > n) by (nonlinear_arith)
        requires
            hi == 0x1_0000_0000_0001,
            n <= 0x1_0000_0000_0000_0000_0000,
    ;
    while hi - lo > 1
        invariant
            0 <= lo < hi <= 0x1_0000_0000_0001,
            lo * lo <= n,
            n < hi * hi,
        decreases hi - lo,
    {
        let mid = lo + (hi - lo) / 2;
        assert(0 <= mid * mid <= 0x1_0000_0000_0001 * 0x1_0000_0000_0001) by (nonlinear_arith)
            requires
                0 <= mid <= 0x1_0000_0000_0001,
        ;
        if mid * mid <= n {
            lo = mid;
        } else {
            hi = mid;
        }
    }
    proof {
        assert(is_isqrt(n as int, lo as int));
        let c = spec_isqrt(n as int);
        assert(is_isqrt(n as int, c));
        lemma_isqrt_unique(n as int, lo as int, c);
    }
    lo
}

/// The national stadium of `radius` about its centre at the ground, at
/// offset `(dx, dy, dz)`, by the distance `d` of the column from the centre
/// (the integer square root of `dx² + dz²`): quartz columns on the rim on
/// every fourth diagonal, up to the height 57 (50 m); between five and 25
/// blocks inside the rim, a red seat at height `(radius - 5 - d) / 2`;
/// further in, the grass of the pitch at 1; and at the top, a ring of white
/// glass up to 20 blocks inside the rim, over the columns that are not
/// seats.
pub open spec fn spec_stadium_block(radius: int, cx: int, cz: int, dx: int, dy: int, dz: int) -> Option<LandmarkBlock> {
    let h: int = 57;
    let d = spec_isqrt(dx * dx + dz * dz);
    if !(0 <= dy <= h && -radius <= dx <= radius && -radius <= dz <= radius) {
        None
    } else if d == radius && (cx + dx + cz + dz) % 4 == 0 {
        Some(LandmarkBlock::SmoothQuartz)
    } else if radius - 25 < d < radius - 5 {
        if dy == (radius - 5 - d) / 2 {
            Some(LandmarkBlock::RedConcrete)
        } else {
            None
        }
    } else if d <= radius - 25 && dy == 1 {
        Some(LandmarkBlock::GrassBlock)
    } else if dy == h && radius - 20 <= d <= radius {
        Some(LandmarkBlock::WhiteStainedGlass)
    } else {
        None
    }
}

/// The block the national stadium of `radius` centred on `(cx, cz)` leaves
/// at offset `(dx, dy, dz)` from its centre at the ground.
pub fn stadium_block_at(radius: i32, cx: i32, cz: i32, dx: i32, dy: i32, dz: i32) -> (r: Option<LandmarkBlock>)
    ensures
        r == spec_stadium_block(radius as int, cx as int, cz as int, dx as int, dy as int, dz as int),
{
    let (rad, x, y, z) = (radius as i128, dx as i128, dy as i128, dz as i128);
    if !(0 <= y && y <= 57 && -rad <= x && x <= rad && -rad <= z && z <= rad) {
        return None;
    }
    assert(0 <= x * x <= 0x4000_0000_0000_0000 && 0 <= z * z <= 0x4000_0000_0000_0000) by (nonlinear_arith)
        requires
            -0x8000_0000 <= x <= 0x8000_0000,
            -0x8000_0000 <= z <= 0x8000_0000,
    ;
    let d = isqrt(x * x + z * z);
    let sum = cx as i128 + cz as i128 + x + z;
    let on_diagonal = if sum >= 0 { sum % 4 == 0 } else { (-sum) % 4 == 0 };
    assert(on_diagonal == (sum % 4 == 0)) by (nonlinear_arith)
        requires
            on_diagonal == (if sum >= 0 { sum % 4 == 0 } else { (-sum) % 4 == 0 }),
    ;
    if d == rad && on_diagonal {
        Some(LandmarkBlock::SmoothQuartz)
    } else if rad - 25 < d && d < rad - 5 {
        if y == (rad - 5 - d) / 2 {
            Some(LandmarkBlock::RedConcrete)
        } else {
            None
        }
    } else if d <= rad - 25 && y == 1 {
        Some(LandmarkBlock::GrassBlock)
    } else if y == 57 && rad - 20 <= d && d <= rad {
        Some(LandmarkBlock::WhiteStainedGlass)
    } else {
        None
    }
}

} // verus!
