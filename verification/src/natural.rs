//! Natural features: the ground that covers a natural area, the species of
//! a tree standing on its own, the Cerrado biome of a spot, and how the
//! members of a natural relation are used.

use vstd::prelude::*;
use rand::seq::IndexedRandom;
use rand_xoshiro::Xoshiro256PlusPlus;
use crate::deterministic_rng::{element_rng, spec_state_seed, xoshiro_seeded, PincelRng};
use crate::osm_parser::{ProcessedMember, ProcessedMemberRole, ProcessedRelation};
use crate::tags::Tags;
use crate::text::{is_substring, str_eq, string_contains};
use crate::tree::{abs_int, TreeType};

verus! {

// ---------------------------------------------------------------------------
// Ground of natural areas
// ---------------------------------------------------------------------------

/// The ground blocks of natural areas.
#[derive(Clone, Copy, PartialEq, Eq, Structural, Debug)]
pub enum NaturalBlock {
    GrassBlock,
    Sand,
    Water,
    Stone,
    Andesite,
    PackedIce,
    Mud,
}

/// The ground of a `natural` value; vegetation and anything unlisted is
/// grass.
pub open spec fn spec_natural_block(n: Seq<char>) -> NaturalBlock {
    if n == "sand"@ || n == "dune"@ || n == "beach"@ || n == "shoal"@ {
        NaturalBlock::Sand
    } else if n == "water"@ || n == "reef"@ {
        NaturalBlock::Water
    } else if n == "bare_rock"@ || n == "ridge"@ || n == "cliff"@ {
        NaturalBlock::Stone
    } else if n == "blockfield"@ || n == "mountain_range"@ || n == "saddle"@ {
        NaturalBlock::Andesite
    } else if n == "glacier"@ {
        NaturalBlock::PackedIce
    } else if n == "mud"@ || n == "wetland"@ {
        NaturalBlock::Mud
    } else {
        NaturalBlock::GrassBlock
    }
}

/// The ground of a natural area with the given `natural` value.
pub fn natural_block(n: &str) -> (b: NaturalBlock)
    ensures
        b == spec_natural_block(n@),
{
    if str_eq(n, "sand") || str_eq(n, "dune") || str_eq(n, "beach") || str_eq(n, "shoal") {
        NaturalBlock::Sand
    } else if str_eq(n, "water") || str_eq(n, "reef") {
        NaturalBlock::Water
    } else if str_eq(n, "bare_rock") || str_eq(n, "ridge") || str_eq(n, "cliff") {
        NaturalBlock::Stone
    } else if str_eq(n, "blockfield") || str_eq(n, "mountain_range") || str_eq(n, "saddle") {
        NaturalBlock::Andesite
    } else if str_eq(n, "glacier") {
        NaturalBlock::PackedIce
    } else if str_eq(n, "mud") || str_eq(n, "wetland") {
        NaturalBlock::Mud
    } else {
        NaturalBlock::GrassBlock
    }
}

/// Whether plants are put on a ground: not on open water nor on ice.
pub fn is_decorated(b: NaturalBlock) -> (r: bool)
    ensures
        r == (b != NaturalBlock::Water && b != NaturalBlock::PackedIce),
{
    !matches!(b, NaturalBlock::Water | NaturalBlock::PackedIce)
}

// ---------------------------------------------------------------------------
// Trees standing on their own
// ---------------------------------------------------------------------------

/// The species a lone tree may be drawn as: from its `species` tag (an ipê
/// for "Ipê" or "Handroanthus", a copaíba for "Copaíba", acacia when neither
/// matches), or sucupira and ipê when it has none.
pub open spec fn spec_tree_candidates(t: Map<Seq<char>, Seq<char>>) -> Seq<TreeType> {
    if t.contains_key("species"@) {
        let s = t["species"@];
        let a: Seq<TreeType> = if is_substring("Ipê"@, s) || is_substring("Handroanthus"@, s) {
            seq![TreeType::IpeAmarelo]
        } else {
            Seq::empty()
        };
        let b = if is_substring("Copaíba"@, s) {
            a.push(TreeType::Copaiba)
        } else {
            a
        };
        if b.len() == 0 {
            seq![TreeType::Acacia]
        } else {
            b
        }
    } else {
        seq![TreeType::Sucupira, TreeType::IpeAmarelo]
    }
}

/// The species a lone tree with these tags may be drawn as; never empty.
pub fn tree_candidates(tags: &Tags) -> (v: Vec<TreeType>)
    ensures
        v@ == spec_tree_candidates(tags@),
        v@.len() > 0,
{
    let mut v: Vec<TreeType> = Vec::new();
    match tags.get("species") {
        Some(s) => {
            if string_contains(s, "Ipê") || string_contains(s, "Handroanthus") {
                v.push(TreeType::IpeAmarelo);
            }
            if string_contains(s, "Copaíba") {
                v.push(TreeType::Copaiba);
            }
            if v.len() == 0 {
                v.push(TreeType::Acacia);
            }
        },
        None => {
            v.push(TreeType::Sucupira);
            v.push(TreeType::IpeAmarelo);
        },
    }
    assert(v@ =~= spec_tree_candidates(tags@));
    v
}

/// The index that `IndexedRandom::choose` picks in a slice of `len`
/// elements, from a generator state.
pub uninterp spec fn xoshiro_choice_index(state: Xoshiro256PlusPlus, len: usize) -> usize;

/// `IndexedRandom::choose` on a slice of species: `None` for an empty
/// slice; otherwise the element at the index that the crate's source draws
/// with `random_range(..len)`, in range and a function of the generator
/// state and the length (named `xoshiro_choice_index`). How far the
/// generator advances is left unsaid.
#[verifier::external_body]
fn choose_tree(rng: &mut PincelRng, v: &[TreeType]) -> (r: Option<TreeType>)
    ensures
        v@.len() == 0 ==> r is None,
        v@.len() > 0 ==> (xoshiro_choice_index(old(rng).0, v@.len() as usize) < v@.len() && r
            == Some(v@[xoshiro_choice_index(old(rng).0, v@.len() as usize) as int])),
{
    v.choose(&mut rng.0).copied()
}

/// The species drawn for a choice: the chosen one, acacia when none was.
pub fn tree_or_acacia(choice: Option<TreeType>) -> (t: TreeType)
    ensures
        t == (match choice {
            Some(c) => c,
            None => TreeType::Acacia,
        }),
{
    match choice {
        Some(c) => c,
        None => TreeType::Acacia,
    }
}

/// The species of a lone tree: one of its candidates, picked by the
/// generator of its element.
pub open spec fn spec_natural_tree(element_id: u64, t: Map<Seq<char>, Seq<char>>) -> TreeType {
    let c = spec_tree_candidates(t);
    c[xoshiro_choice_index(xoshiro_seeded(spec_state_seed(element_id)), c.len() as usize) as int]
}

/// The species a lone tree (`natural=tree`) is drawn as.
pub fn natural_tree(element_id: u64, tags: &Tags) -> (t: TreeType)
    ensures
        t == spec_natural_tree(element_id, tags@),
        spec_tree_candidates(tags@).contains(t),
{
    let candidates = tree_candidates(tags);
    let mut rng = element_rng(element_id);
    let choice = choose_tree(&mut rng, candidates.as_slice());
    tree_or_acacia(choice)
}

// ---------------------------------------------------------------------------
// Cerrado biome
// ---------------------------------------------------------------------------

/// The three kinds of Cerrado ground cover.
#[derive(Clone, Copy, PartialEq, Eq, Structural, Debug)]
pub enum CerradoBiome {
    /// Gallery forest along water.
    MataGaleria,
    /// Rocky grassland on steep ground.
    CampoRupestre,
    /// Typical, flat Cerrado.
    CerradoStrictoSensu,
}

/// The squared length of the ground gradient measured between the levels
/// four blocks north, south, east and west of a spot.
pub open spec fn spec_slope_squared(north: int, south: int, east: int, west: int) -> int {
    let sz = abs_int(north - south);
    let sx = abs_int(east - west);
    sx * sx + sz * sz
}

/// The biome of a spot: gallery forest where water was found nearby;
/// otherwise rocky grassland where the gradient is longer than 3.5 blocks
/// (its squared length above 12.25), else typical Cerrado.
pub open spec fn spec_cerrado_biome(
    has_water: bool,
    north: int,
    south: int,
    east: int,
    west: int,
) -> CerradoBiome {
    if has_water {
        CerradoBiome::MataGaleria
    } else if 4 * spec_slope_squared(north, south, east, west) > 49 {
        CerradoBiome::CampoRupestre
    } else {
        CerradoBiome::CerradoStrictoSensu
    }
}

/// The six spots looked at for water around `(x, z)`: eight blocks away
/// along each axis, and four blocks away on one diagonal both ways.
pub fn water_probes(x: i32, z: i32) -> (v: Vec<(i32, i32)>)
    requires
        i32::MIN + 8 <= x <= i32::MAX - 8,
        i32::MIN + 8 <= z <= i32::MAX - 8,
    ensures
        v@ == seq![
            ((x + 8) as i32, z),
            ((x - 8) as i32, z),
            (x, (z + 8) as i32),
            (x, (z - 8) as i32),
            ((x + 4) as i32, (z + 4) as i32),
            ((x - 4) as i32, (z - 4) as i32),
        ],
{
    let v: Vec<(i32, i32)> = vec![(x + 8, z), (x - 8, z), (x, z + 8), (x, z - 8), (x + 4, z + 4), (x - 4, z - 4)];
    v
}

/// The Cerrado biome of a spot from whether water lies near it and from
/// the ground levels four blocks to its north, south, east and west (read
/// only where there is no water).
pub fn cerrado_biome(has_water: bool, north: i32, south: i32, east: i32, west: i32) -> (b:
    CerradoBiome)
    requires
        !has_water ==> i32::MIN < north - south <= i32::MAX,
        !has_water ==> i32::MIN < east - west <= i32::MAX,
        !has_water ==> spec_slope_squared(north as int, south as int, east as int, west as int)
            <= i32::MAX,
    ensures
        b == spec_cerrado_biome(has_water, north as int, south as int, east as int, west as int),
{
    if has_water {
        return CerradoBiome::MataGaleria;
    }
    let dz: i32 = north - south;
    let dx: i32 = east - west;
    let sz: i32 = if dz < 0 {
        -dz
    } else {
        dz
    };
    let sx: i32 = if dx < 0 {
        -dx
    } else {
        dx
    };
    proof {
        assert(sx * sx >= 0 && sz * sz >= 0) by (nonlinear_arith);
        assert(sx * sx + sz * sz == spec_slope_squared(
            north as int,
            south as int,
            east as int,
            west as int,
        ));
    }
    let total: i32 = sx * sx + sz * sz;
    if total > 12 {
        CerradoBiome::CampoRupestre
    } else {
        CerradoBiome::CerradoStrictoSensu
    }
}

// ---------------------------------------------------------------------------
// Natural relations
// ---------------------------------------------------------------------------

/// The positions, in order, of the members of `m` with role `role`.
pub open spec fn role_positions(m: Seq<ProcessedMember>, role: ProcessedMemberRole) -> Seq<usize>
    decreases m.len(),
{
    if m.len() == 0 {
        Seq::empty()
    } else {
        let rest = role_positions(m.drop_last(), role);
        if m.last().role == role {
            rest.push((m.len() - 1) as usize)
        } else {
            rest
        }
    }
}

/// How a natural relation is drawn: the areas of its inner members are
/// left bare, and each outer member is drawn as a natural area carrying the
/// relation's tags.
pub struct NaturalRelationPlan {
    /// Positions of the inner members.
    pub holes: Vec<usize>,
    /// Positions of the outer members.
    pub areas: Vec<usize>,
}

fn positions_with_role(members: &Vec<ProcessedMember>, role: ProcessedMemberRole) -> (v: Vec<
    usize,
>)
    ensures
        v@ == role_positions(members@, role),
{
    let mut v: Vec<usize> = Vec::new();
    let mut i: usize = 0;
    while i < members.len()
        invariant
            0 <= i <= members@.len(),
            v@ == role_positions(members@.subrange(0, i as int), role),
        decreases members@.len() - i,
    {
        assert(members@.subrange(0, i + 1).drop_last() =~= members@.subrange(0, i as int));
        if members[i].role == role {
            v.push(i);
        }
        i = i + 1;
    }
    assert(members@.subrange(0, members@.len() as int) =~= members@);
    v
}

/// The plan for a relation, or `None` where it carries no `natural` tag.
pub fn natural_relation_plan(rel: &ProcessedRelation) -> (r: Option<NaturalRelationPlan>)
    ensures
        r is None <==> !rel.tags@.contains_key("natural"@),
        r matches Some(p) ==> p.holes@ == role_positions(rel.members@, ProcessedMemberRole::Inner)
            && p.areas@ == role_positions(rel.members@, ProcessedMemberRole::Outer),
{
    if !rel.tags.contains_key("natural") {
        return None;
    }
    let holes = positions_with_role(&rel.members, ProcessedMemberRole::Inner);
    let areas = positions_with_role(&rel.members, ProcessedMemberRole::Outer);
    Some(NaturalRelationPlan { holes, areas })
}

} // verus!
