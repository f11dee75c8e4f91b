//! Normalised OpenStreetMap elements in Minecraft coordinates, and the
//! decisions made while normalising them.

use vstd::prelude::*;
use rustc_hash::FxBuildHasher;
use std::collections::HashMap;
use std::sync::Arc;
use crate::coordinate_system::{XZBBox, XZPoint};
use crate::tags::Tags;
use crate::text::str_eq;

verus! {

/// A node with its tags, at Minecraft coordinates.
pub struct ProcessedNode {
    pub id: u64,
    pub tags: Tags,
    pub x: i32,
    pub z: i32,
}

impl ProcessedNode {
    /// The node's position.
    pub fn xz(&self) -> (p: XZPoint)
        ensures
            p.x == self.x,
            p.z == self.z,
    {
        XZPoint { x: self.x, z: self.z }
    }

    /// A copy of the node.
    pub fn duplicate(&self) -> (n: ProcessedNode)
        ensures
            node_view(n) == node_view(*self),
    {
        ProcessedNode { id: self.id, tags: self.tags.duplicate(), x: self.x, z: self.z }
    }
}

/// What a node carries: its id, tags and position.
pub open spec fn node_view(n: ProcessedNode) -> (u64, Map<Seq<char>, Seq<char>>, i32, i32) {
    (n.id, n.tags@, n.x, n.z)
}

/// A way: an ordered list of nodes with tags.
pub struct ProcessedWay {
    pub id: u64,
    pub nodes: Vec<ProcessedNode>,
    pub tags: Tags,
}

/// The role of a way inside a relation.
#[derive(Clone, Copy, Debug, PartialEq, Eq, Structural)]
pub enum ProcessedMemberRole {
    Outer,
    Inner,
    Part,
}

/// A way that belongs to a relation, with its role.
pub struct ProcessedMember {
    pub role: ProcessedMemberRole,
    pub way: Arc<ProcessedWay>,
}

/// A relation: tagged members.
pub struct ProcessedRelation {
    pub id: u64,
    pub tags: Tags,
    pub members: Vec<ProcessedMember>,
}

/// Any processed element.
pub enum ProcessedElement {
    Node(ProcessedNode),
    Way(Arc<ProcessedWay>),
    Relation(Arc<ProcessedRelation>),
}

impl ProcessedElement {
    pub open spec fn spec_tags(&self) -> Map<Seq<char>, Seq<char>> {
        match self {
            ProcessedElement::Node(n) => n.tags@,
            ProcessedElement::Way(w) => w.tags@,
            ProcessedElement::Relation(r) => r.tags@,
        }
    }

    pub open spec fn spec_id(&self) -> u64 {
        match self {
            ProcessedElement::Node(n) => n.id,
            ProcessedElement::Way(w) => w.id,
            ProcessedElement::Relation(r) => r.id,
        }
    }

    /// The element's tags.
    pub fn tags(&self) -> (t: &Tags)
        ensures
            t@ == self.spec_tags(),
    {
        match self {
            ProcessedElement::Node(n) => &n.tags,
            ProcessedElement::Way(w) => &w.tags,
            ProcessedElement::Relation(r) => &r.tags,
        }
    }

    /// The element's id.
    pub fn id(&self) -> (id: u64)
        ensures
            id == self.spec_id(),
    {
        match self {
            ProcessedElement::Node(n) => n.id,
            ProcessedElement::Way(w) => w.id,
            ProcessedElement::Relation(r) => r.id,
        }
    }

    /// `"node"`, `"way"` or `"relation"`.
    pub fn kind(&self) -> (k: &'static str)
        ensures
            k@ == (match self {
                ProcessedElement::Node(_) => "node"@,
                ProcessedElement::Way(_) => "way"@,
                ProcessedElement::Relation(_) => "relation"@,
            }),
    {
        match self {
            ProcessedElement::Node(_) => "node",
            ProcessedElement::Way(_) => "way",
            ProcessedElement::Relation(_) => "relation",
        }
    }

    /// The element's own nodes: the node itself, a way's nodes in order, or
    /// none for a relation.
    pub fn nodes(&self) -> (r: Vec<&ProcessedNode>)
        ensures
            match self {
                ProcessedElement::Node(n) => r@.len() == 1 && *r@[0] == *n,
                ProcessedElement::Way(w) => r@.len() == w.nodes@.len() && forall|i: int|
                    0 <= i < r@.len() ==> *(#[trigger] r@[i]) == w.nodes@[i],
                ProcessedElement::Relation(_) => r@.len() == 0,
            },
    {
        let mut r: Vec<&ProcessedNode> = Vec::new();
        match self {
            ProcessedElement::Node(n) => {
                r.push(n);
            },
            ProcessedElement::Way(w) => {
                let mut i: usize = 0;
                while i < w.nodes.len()
                    invariant
                        0 <= i <= w.nodes@.len(),
                        r@.len() == i,
                        forall|k: int| 0 <= k < i ==> *(#[trigger] r@[k]) == w.nodes@[k],
                    decreases w.nodes@.len() - i,
                {
                    r.push(&w.nodes[i]);
                    i = i + 1;
                }
            },
            ProcessedElement::Relation(_) => {},
        }
        r
    }
}

/// The index of the first priority key among the tags, or the number of
/// priority keys when none is present.
pub open spec fn spec_priority(tags: Map<Seq<char>, Seq<char>>) -> int {
    if tags.contains_key("entrance"@) {
        0
    } else if tags.contains_key("building"@) {
        1
    } else if tags.contains_key("highway"@) {
        2
    } else if tags.contains_key("waterway"@) {
        3
    } else if tags.contains_key("water"@) {
        4
    } else if tags.contains_key("barrier"@) {
        5
    } else {
        6
    }
}

/// The processing priority of an element: the position of the first of
/// `entrance`, `building`, `highway`, `waterway`, `water`, `barrier` that is
/// among its tags, or 6 when none is.
pub fn get_priority(element: &ProcessedElement) -> (p: usize)
    ensures
        p == spec_priority(element.spec_tags()),
{
    let tags = element.tags();
    if tags.contains_key("entrance") {
        0
    } else if tags.contains_key("building") {
        1
    } else if tags.contains_key("highway") {
        2
    } else if tags.contains_key("waterway") {
        3
    } else if tags.contains_key("water") {
        4
    } else if tags.contains_key("barrier") {
        5
    } else {
        6
    }
}

/// Tags that make an element a water body: a `water` key, `natural` of
/// `water` or `bay`, or `waterway=dock`.
pub open spec fn spec_is_water(tags: Map<Seq<char>, Seq<char>>) -> bool {
    ||| tags.contains_key("water"@)
    ||| (tags.contains_key("natural"@) && (tags["natural"@] == "water"@ || tags["natural"@]
        == "bay"@))
    ||| (tags.contains_key("waterway"@) && tags["waterway"@] == "dock"@)
}

/// Whether the tags describe a water body handled by the water-area generator.
pub fn is_water_element(tags: &Tags) -> (b: bool)
    ensures
        b == spec_is_water(tags@),
{
    if tags.contains_key("water") {
        return true;
    }
    if tags.has_value("natural", "water") || tags.has_value("natural", "bay") {
        return true;
    }
    if tags.has_value("waterway", "dock") {
        return true;
    }
    false
}


/// A member of a raw relation: the member's type (`node`, `way`,
/// `relation`), its id and its role.
#[derive(Clone, Debug)]
pub struct OsmMember {
    pub member_type: String,
    pub member_ref: u64,
    pub role: String,
}

/// The characters with the Unicode property White_Space, which
/// `char::is_whitespace` (and so `str::trim`) removes: tab to carriage
/// return, space, next line, no-break space, ogham space mark, the spaces
/// from en quad to hair space, line and paragraph separators, narrow
/// no-break space, medium mathematical space and ideographic space.
pub open spec fn is_white_space(c: char) -> bool {
    ||| '\t' <= c <= '\r'
    ||| c == ' '
    ||| c == '\u{85}'
    ||| c == '\u{A0}'
    ||| c == '\u{1680}'
    ||| '\u{2000}' <= c <= '\u{200A}'
    ||| c == '\u{2028}'
    ||| c == '\u{2029}'
    ||| c == '\u{202F}'
    ||| c == '\u{205F}'
    ||| c == '\u{3000}'
}

/// The first position from `i` on that does not hold white space.
pub open spec fn trim_start_index(s: Seq<char>, i: int) -> int
    decreases s.len() - i,
{
    if 0 <= i < s.len() && is_white_space(s[i]) {
        trim_start_index(s, i + 1)
    } else {
        i
    }
}

/// The end, at most `j` and at least `lo`, after which only white space
/// follows.
pub open spec fn trim_end_index(s: Seq<char>, lo: int, j: int) -> int
    decreases j - lo,
{
    if lo < j && j <= s.len() && is_white_space(s[j - 1]) {
        trim_end_index(s, lo, j - 1)
    } else {
        j
    }
}

/// A string with leading and trailing white space removed (`str::trim`).
pub open spec fn spec_trim(s: Seq<char>) -> Seq<char> {
    let a = trim_start_index(s, 0);
    s.subrange(a, trim_end_index(s, a, s.len() as int))
}

fn is_white_space_exec(c: char) -> (b: bool)
    ensures
        b == is_white_space(c),
{
    ('\t' <= c && c <= '\r') || c == ' ' || c == '\u{85}' || c == '\u{A0}' || c == '\u{1680}'
        || ('\u{2000}' <= c && c <= '\u{200A}') || c == '\u{2028}' || c == '\u{2029}' || c
        == '\u{202F}' || c == '\u{205F}' || c == '\u{3000}'
}

/// The bounds, in characters, of `s` without its leading and trailing white
/// space.
fn trim_bounds(s: &str) -> (r: (usize, usize))
    ensures
        r.0 == trim_start_index(s@, 0),
        r.1 == trim_end_index(s@, r.0 as int, s@.len() as int),
        0 <= r.0 <= r.1 <= s@.len(),
{
    let n = s.unicode_len();
    let mut a: usize = 0;
    while a < n && is_white_space_exec(s.get_char(a))
        invariant
            n == s@.len(),
            0 <= a <= n,
            trim_start_index(s@, a as int) == trim_start_index(s@, 0),
        decreases n - a,
    {
        a = a + 1;
    }
    let mut b: usize = n;
    while b > a && is_white_space_exec(s.get_char(b - 1))
        invariant
            n == s@.len(),
            0 <= a <= b <= n,
            trim_end_index(s@, a as int, b as int) == trim_end_index(s@, a as int, n as int),
        decreases b - a,
    {
        b = b - 1;
    }
    (a, b)
}

/// The ASCII lowercase of a character; other characters are kept.
pub open spec fn ascii_lower(c: char) -> char {
    if 'A' <= c <= 'Z' {
        ((c as u32) + 32) as char
    } else {
        c
    }
}

/// Whether two strings are equal ignoring ASCII case (`str::eq_ignore_ascii_case`).
pub open spec fn spec_eq_ignore_ascii_case(a: Seq<char>, b: Seq<char>) -> bool {
    a.len() == b.len() && forall|i: int| 0 <= i < a.len() ==> ascii_lower(#[trigger] a[i]) == ascii_lower(b[i])
}

fn ascii_lower_exec(c: char) -> (r: char)
    ensures
        r == ascii_lower(c),
{
    if 'A' <= c && c <= 'Z' {
        let u: u8 = (c as u32) as u8 + 32;
        u as char
    } else {
        c
    }
}

/// Whether the characters `lo .. hi` of `a` equal `b` ignoring ASCII case.
fn range_eq_ignore_ascii_case(a: &str, lo: usize, hi: usize, b: &str) -> (r: bool)
    requires
        lo <= hi <= a@.len(),
    ensures
        r == spec_eq_ignore_ascii_case(a@.subrange(lo as int, hi as int), b@),
{
    let n = hi - lo;
    if n != b.unicode_len() {
        return false;
    }
    let ghost sub = a@.subrange(lo as int, hi as int);
    let mut i: usize = 0;
    while i < n
        invariant
            n == hi - lo,
            hi <= a@.len(),
            sub == a@.subrange(lo as int, hi as int),
            n == b@.len(),
            0 <= i <= n,
            forall|k: int| 0 <= k < i ==> ascii_lower(#[trigger] sub[k]) == ascii_lower(b@[k]),
        decreases n - i,
    {
        if ascii_lower_exec(a.get_char(lo + i)) != ascii_lower_exec(b.get_char(i)) {
            assert(sub[i as int] == a@[lo + i]);
            return false;
        }
        assert(sub[i as int] == a@[lo + i]);
        i = i + 1;
    }
    true
}

/// The role a member takes in a relation of type `relation_type`: outer
/// (`outer`, `outline`), inner, or part (building relations only), compared
/// on the trimmed role ignoring ASCII case; any other role counts as outer
/// in building relations and drops the member elsewhere. Only ways are
/// members.
pub open spec fn spec_member_role(
    member_type: Seq<char>,
    role: Seq<char>,
    relation_is_building_type: bool,
    is_building_relation: bool,
) -> Option<ProcessedMemberRole> {
    let r = spec_trim(role);
    if member_type != "way"@ {
        None
    } else if spec_eq_ignore_ascii_case(r, "outer"@) || spec_eq_ignore_ascii_case(r, "outline"@) {
        Some(ProcessedMemberRole::Outer)
    } else if spec_eq_ignore_ascii_case(r, "inner"@) {
        Some(ProcessedMemberRole::Inner)
    } else if spec_eq_ignore_ascii_case(r, "part"@) {
        if relation_is_building_type {
            Some(ProcessedMemberRole::Part)
        } else {
            None
        }
    } else if is_building_relation {
        Some(ProcessedMemberRole::Outer)
    } else {
        None
    }
}

/// The role a raw member takes in a relation, if it is kept.
pub fn member_role(
    member: &OsmMember,
    relation_is_building_type: bool,
    is_building_relation: bool,
) -> (r: Option<ProcessedMemberRole>)
    ensures
        r == spec_member_role(
            member.member_type@,
            member.role@,
            relation_is_building_type,
            is_building_relation,
        ),
{
    if !str_eq(member.member_type.as_str(), "way") {
        return None;
    }
    let role = member.role.as_str();
    let (lo, hi) = trim_bounds(role);
    if range_eq_ignore_ascii_case(role, lo, hi, "outer") || range_eq_ignore_ascii_case(
        role,
        lo,
        hi,
        "outline",
    ) {
        Some(ProcessedMemberRole::Outer)
    } else if range_eq_ignore_ascii_case(role, lo, hi, "inner") {
        Some(ProcessedMemberRole::Inner)
    } else if range_eq_ignore_ascii_case(role, lo, hi, "part") {
        if relation_is_building_type {
            Some(ProcessedMemberRole::Part)
        } else {
            None
        }
    } else if is_building_relation {
        Some(ProcessedMemberRole::Outer)
    } else {
        None
    }
}

/// How a raw relation is read.
#[derive(Clone, Copy, PartialEq, Eq, Structural, Debug)]
pub struct RelationKind {
    /// `type=building`.
    pub building_type: bool,
    /// A building relation: `type=building`, or a `building` or
    /// `building:part` tag.
    pub building: bool,
    /// Member ways are kept whole (water bodies and building multipolygons
    /// merge their rings first); else they are clipped to the box.
    pub keep_unclipped: bool,
}

/// How a relation is read: only multipolygons and building relations are.
pub open spec fn spec_relation_kind(t: Map<Seq<char>, Seq<char>>) -> Option<RelationKind> {
    let ty = if t.contains_key("type"@) { Some(t["type"@]) } else { None };
    let multi = ty == Some("multipolygon"@);
    let bt = ty == Some("building"@);
    if !multi && !bt {
        None
    } else {
        let has_building = t.contains_key("building"@) || t.contains_key("building:part"@);
        Some(RelationKind {
            building_type: bt,
            building: bt || has_building,
            keep_unclipped: spec_is_water(t) || (has_building && multi),
        })
    }
}

/// How a raw relation with these tags is read, if at all.
pub fn relation_kind(tags: &Tags) -> (k: Option<RelationKind>)
    ensures
        k == spec_relation_kind(tags@),
{
    let multi = tags.has_value("type", "multipolygon");
    let bt = tags.has_value("type", "building");
    if !multi && !bt {
        return None;
    }
    let has_building = tags.contains_key("building") || tags.contains_key("building:part");
    Some(RelationKind {
        building_type: bt,
        building: bt || has_building,
        keep_unclipped: is_water_element(tags) || (has_building && multi),
    })
}

// ---------------------------------------------------------------------------
// Reading nodes and ways
// ---------------------------------------------------------------------------

/// How far beyond the box, in blocks on every side, nodes are still kept,
/// so that ways crossing the border keep their shape.
pub const PARSE_MARGIN: i32 = 2000;

/// Nodes by id, hashed with `rustc_hash` (`FxHashMap`).
pub type NodeIndex = HashMap<u64, ProcessedNode, FxBuildHasher>;

/// `HashMap::insert` on an Fx-hashed map of nodes: `k` now maps to `v`.
/// The claim rests on `FxHasher` hashing deterministically.
#[verifier::external_body]
fn node_index_insert(m: &mut NodeIndex, k: u64, v: ProcessedNode)
    ensures
        final(m)@ == old(m)@.insert(k, v),
{
    m.insert(k, v);
}

/// `HashMap::get` on an Fx-hashed map of nodes: the node stored under `k`,
/// if any. The claim rests on `FxHasher` hashing deterministically.
#[verifier::external_body]
fn node_index_get(m: &NodeIndex, k: u64) -> (r: Option<&ProcessedNode>)
    ensures
        match r {
            Some(v) => m@.contains_key(k) && m@[k] == *v,
            None => !m@.contains_key(k),
        },
{
    m.get(&k)
}

/// Within the box grown by `PARSE_MARGIN` on every side.
pub open spec fn near_box(b: XZBBox, x: int, z: int) -> bool {
    &&& b.spec_min_x() - PARSE_MARGIN <= x <= b.spec_max_x() + PARSE_MARGIN
    &&& b.spec_min_z() - PARSE_MARGIN <= z <= b.spec_max_z() + PARSE_MARGIN
}

/// The nodes kept to build ways from: those near the box, by id, a later
/// node replacing an earlier one with the same id.
pub open spec fn spec_node_index(s: Seq<ProcessedNode>, b: XZBBox) -> Map<
    u64,
    (u64, Map<Seq<char>, Seq<char>>, i32, i32),
>
    decreases s.len(),
{
    if s.len() == 0 {
        Map::empty()
    } else {
        let m = spec_node_index(s.drop_last(), b);
        let n = s.last();
        if near_box(b, n.x as int, n.z as int) {
            m.insert(n.id, node_view(n))
        } else {
            m
        }
    }
}

/// The nodes drawn on their own: the tagged ones inside the box, in order.
pub open spec fn spec_node_elements(s: Seq<ProcessedNode>, b: XZBBox) -> Seq<
    (u64, Map<Seq<char>, Seq<char>>, i32, i32),
>
    decreases s.len(),
{
    if s.len() == 0 {
        Seq::empty()
    } else {
        let r = spec_node_elements(s.drop_last(), b);
        let n = s.last();
        if n.tags@.len() > 0 && b.spec_contains(XZPoint { x: n.x, z: n.z }) {
            r.push(node_view(n))
        } else {
            r
        }
    }
}

/// The views of the nodes held by an index.
pub open spec fn index_view(m: Map<u64, ProcessedNode>) -> Map<
    u64,
    (u64, Map<Seq<char>, Seq<char>>, i32, i32),
> {
    m.map_values(|n: ProcessedNode| node_view(n))
}

/// The first pass over the nodes of the data, given in Minecraft
/// coordinates: the index of the nodes kept near the box, and the nodes
/// drawn on their own.
pub fn node_pass(nodes: &Vec<ProcessedNode>, xzbbox: &XZBBox) -> (r: (NodeIndex, Vec<ProcessedElement>))
    requires
        i32::MIN <= xzbbox.spec_min_x() - PARSE_MARGIN,
        xzbbox.spec_max_x() + PARSE_MARGIN <= i32::MAX,
        i32::MIN <= xzbbox.spec_min_z() - PARSE_MARGIN,
        xzbbox.spec_max_z() + PARSE_MARGIN <= i32::MAX,
    ensures
        index_view(r.0@) == spec_node_index(nodes@, *xzbbox),
        r.1@.len() == spec_node_elements(nodes@, *xzbbox).len(),
        forall|i: int|
            0 <= i < r.1@.len() ==> ((#[trigger] r.1@[i]) matches ProcessedElement::Node(n)
                && node_view(n) == spec_node_elements(nodes@, *xzbbox)[i]),
{
    let expanded = XZBBox::explicit(
        xzbbox.min_x() - PARSE_MARGIN,
        xzbbox.max_x() + PARSE_MARGIN,
        xzbbox.min_z() - PARSE_MARGIN,
        xzbbox.max_z() + PARSE_MARGIN,
    );
    let mut index: NodeIndex = HashMap::default();
    let mut elements: Vec<ProcessedElement> = Vec::new();
    let mut i: usize = 0;
    proof {
        assert(index_view(index@) =~= spec_node_index(nodes@.subrange(0, 0), *xzbbox));
    }
    while i < nodes.len()
        invariant
            0 <= i <= nodes@.len(),
            expanded.spec_min_x() == xzbbox.spec_min_x() - PARSE_MARGIN,
            expanded.spec_max_x() == xzbbox.spec_max_x() + PARSE_MARGIN,
            expanded.spec_min_z() == xzbbox.spec_min_z() - PARSE_MARGIN,
            expanded.spec_max_z() == xzbbox.spec_max_z() + PARSE_MARGIN,
            index_view(index@) == spec_node_index(nodes@.subrange(0, i as int), *xzbbox),
            elements@.len() == spec_node_elements(nodes@.subrange(0, i as int), *xzbbox).len(),
            forall|k: int|
                0 <= k < elements@.len() ==> ((#[trigger] elements@[k]) matches ProcessedElement::Node(
                    n,
                ) && node_view(n) == spec_node_elements(nodes@.subrange(0, i as int), *xzbbox)[k]),
        decreases nodes@.len() - i,
    {
        let ghost prefix = nodes@.subrange(0, i as int);
        let ghost next = nodes@.subrange(0, i + 1);
        proof {
            assert(next.drop_last() =~= prefix);
            assert(next.last() == nodes@[i as int]);
        }
        let node = &nodes[i];
        let p = XZPoint { x: node.x, z: node.z };
        if expanded.contains(&p) {
            let kept = node.duplicate();
            let ghost before = index@;
            node_index_insert(&mut index, node.id, kept);
            proof {
                assert(index_view(index@) =~= index_view(before).insert(node.id, node_view(*node)));
            }
            if !node.tags.is_empty() && xzbbox.contains(&p) {
                let ghost old_elements = elements@;
                elements.push(ProcessedElement::Node(node.duplicate()));
                proof {
                    assert forall|k: int| 0 <= k < elements@.len() implies ((
                    #[trigger] elements@[k]) matches ProcessedElement::Node(n) && node_view(n)
                        == spec_node_elements(next, *xzbbox)[k]) by {
                        if k < old_elements.len() {
                            assert(elements@[k] == old_elements[k]);
                        }
                    }
                }
            }
        }
        i = i + 1;
    }
    proof {
        assert(nodes@.subrange(0, nodes@.len() as int) =~= nodes@);
    }
    (index, elements)
}

/// The nodes of a way, in order: those of its node ids that the index
/// holds; ids it does not hold are skipped.
pub open spec fn spec_way_nodes(
    ids: Seq<u64>,
    m: Map<u64, (u64, Map<Seq<char>, Seq<char>>, i32, i32)>,
) -> Seq<(u64, Map<Seq<char>, Seq<char>>, i32, i32)>
    decreases ids.len(),
{
    if ids.len() == 0 {
        Seq::empty()
    } else {
        let r = spec_way_nodes(ids.drop_last(), m);
        if m.contains_key(ids.last()) {
            r.push(m[ids.last()])
        } else {
            r
        }
    }
}

/// The nodes of a way with these node ids, looked up in the index.
pub fn way_nodes(ids: &Vec<u64>, index: &NodeIndex) -> (v: Vec<ProcessedNode>)
    ensures
        v@.len() == spec_way_nodes(ids@, index_view(index@)).len(),
        forall|k: int|
            0 <= k < v@.len() ==> node_view(#[trigger] v@[k]) == spec_way_nodes(
                ids@,
                index_view(index@),
            )[k],
{
    let mut v: Vec<ProcessedNode> = Vec::new();
    let mut i: usize = 0;
    while i < ids.len()
        invariant
            0 <= i <= ids@.len(),
            v@.len() == spec_way_nodes(ids@.subrange(0, i as int), index_view(index@)).len(),
            forall|k: int|
                0 <= k < v@.len() ==> node_view(#[trigger] v@[k]) == spec_way_nodes(
                    ids@.subrange(0, i as int),
                    index_view(index@),
                )[k],
        decreases ids@.len() - i,
    {
        let ghost next = ids@.subrange(0, i + 1);
        proof {
            assert(next.drop_last() =~= ids@.subrange(0, i as int));
        }
        match node_index_get(index, ids[i]) {
            Some(n) => {
                let ghost old_v = v@;
                v.push(n.duplicate());
                proof {
                    assert forall|k: int| 0 <= k < v@.len() implies node_view(#[trigger] v@[k])
                        == spec_way_nodes(next, index_view(index@))[k] by {
                        if k < old_v.len() {
                            assert(v@[k] == old_v[k]);
                        }
                    }
                }
            },
            None => {},
        }
        i = i + 1;
    }
    proof {
        assert(ids@.subrange(0, ids@.len() as int) =~= ids@);
    }
    v
}

/// What a way carries: its id, its nodes and its tags.
pub open spec fn way_view(w: ProcessedWay) -> (
    u64,
    Seq<(u64, Map<Seq<char>, Seq<char>>, i32, i32)>,
    Map<Seq<char>, Seq<char>>,
) {
    (w.id, w.nodes@.map_values(|n: ProcessedNode| node_view(n)), w.tags@)
}

/// Ways by id, hashed with `rustc_hash` (`FxHashMap`).
pub type WayIndex = HashMap<u64, Arc<ProcessedWay>, FxBuildHasher>;

/// `HashMap::insert` on an Fx-hashed map of ways: `k` now maps to `v`.
/// The claim rests on `FxHasher` hashing deterministically.
#[verifier::external_body]
fn way_index_insert(m: &mut WayIndex, k: u64, v: Arc<ProcessedWay>)
    ensures
        final(m)@ == old(m)@.insert(k, v),
{
    m.insert(k, v);
}

/// `HashMap::contains_key` on an Fx-hashed map of ways.
/// The claim rests on `FxHasher` hashing deterministically.
#[verifier::external_body]
fn way_index_contains(m: &WayIndex, k: u64) -> (r: bool)
    ensures
        r == m@.contains_key(k),
{
    m.contains_key(&k)
}

/// A way as read from the data: its id, the ids of its nodes, its tags.
pub struct RawWay {
    pub id: u64,
    pub node_ids: Vec<u64>,
    pub tags: Tags,
}

/// The views of the ways held by an index.
pub open spec fn way_index_view(m: Map<u64, Arc<ProcessedWay>>) -> Map<
    u64,
    (u64, Seq<(u64, Map<Seq<char>, Seq<char>>, i32, i32)>, Map<Seq<char>, Seq<char>>),
> {
    m.map_values(|w: Arc<ProcessedWay>| way_view(*w))
}

/// The whole ways of the data by id, each with the nodes the node index
/// holds; a later way replaces an earlier one with the same id.
pub open spec fn spec_way_index(
    s: Seq<RawWay>,
    nodes: Map<u64, (u64, Map<Seq<char>, Seq<char>>, i32, i32)>,
) -> Map<u64, (u64, Seq<(u64, Map<Seq<char>, Seq<char>>, i32, i32)>, Map<Seq<char>, Seq<char>>)>
    decreases s.len(),
{
    if s.len() == 0 {
        Map::empty()
    } else {
        let w = s.last();
        spec_way_index(s.drop_last(), nodes).insert(
            w.id,
            (w.id, spec_way_nodes(w.node_ids@, nodes), w.tags@),
        )
    }
}

/// The second pass over the data, up to clipping: every way with the nodes
/// that were kept, by id, for relations to draw on.
pub fn way_pass(ways: &Vec<RawWay>, index: &NodeIndex) -> (m: WayIndex)
    ensures
        way_index_view(m@) == spec_way_index(ways@, index_view(index@)),
{
    let mut m: WayIndex = HashMap::default();
    let mut i: usize = 0;
    proof {
        assert(way_index_view(m@) =~= spec_way_index(ways@.subrange(0, 0), index_view(index@)));
    }
    while i < ways.len()
        invariant
            0 <= i <= ways@.len(),
            way_index_view(m@) == spec_way_index(ways@.subrange(0, i as int), index_view(index@)),
        decreases ways@.len() - i,
    {
        let ghost next = ways@.subrange(0, i + 1);
        proof {
            assert(next.drop_last() =~= ways@.subrange(0, i as int));
        }
        let w = &ways[i];
        let nodes = way_nodes(&w.node_ids, index);
        let way = ProcessedWay { id: w.id, nodes, tags: w.tags.duplicate() };
        proof {
            assert(way_view(way).1 =~= spec_way_nodes(w.node_ids@, index_view(index@)));
        }
        let ghost before = m@;
        way_index_insert(&mut m, w.id, Arc::new(way));
        proof {
            assert(way_index_view(m@) =~= way_index_view(before).insert(w.id, way_view(way)));
        }
        i = i + 1;
    }
    proof {
        assert(ways@.subrange(0, ways@.len() as int) =~= ways@);
    }
    m
}

/// The members of a relation that are kept, with their roles, before
/// clipping: those whose role is kept and whose way is known.
pub open spec fn spec_relation_members(
    members: Seq<OsmMember>,
    kind: RelationKind,
    known: Set<u64>,
) -> Seq<(ProcessedMemberRole, u64)>
    decreases members.len(),
{
    if members.len() == 0 {
        Seq::empty()
    } else {
        let r = spec_relation_members(members.drop_last(), kind, known);
        let m = members.last();
        match spec_member_role(m.member_type@, m.role@, kind.building_type, kind.building) {
            Some(role) => if known.contains(m.member_ref) {
                r.push((role, m.member_ref))
            } else {
                r
            },
            None => r,
        }
    }
}

/// How a raw relation is read, with its kept members (role and way id),
/// or `None` for relations that are neither multipolygons nor buildings.
pub fn relation_members(tags: &Tags, members: &Vec<OsmMember>, ways: &WayIndex) -> (r: Option<
    (RelationKind, Vec<(ProcessedMemberRole, u64)>),
>)
    ensures
        r is None <==> spec_relation_kind(tags@) is None,
        r matches Some((k, v)) ==> spec_relation_kind(tags@) == Some(k) && v@
            == spec_relation_members(members@, k, ways@.dom()),
{
    let kind = match relation_kind(tags) {
        Some(k) => k,
        None => return None,
    };
    let mut v: Vec<(ProcessedMemberRole, u64)> = Vec::new();
    let mut i: usize = 0;
    while i < members.len()
        invariant
            0 <= i <= members@.len(),
            v@ == spec_relation_members(members@.subrange(0, i as int), kind, ways@.dom()),
        decreases members@.len() - i,
    {
        let ghost next = members@.subrange(0, i + 1);
        proof {
            assert(next.drop_last() =~= members@.subrange(0, i as int));
        }
        let m = &members[i];
        match member_role(m, kind.building_type, kind.building) {
            Some(role) => {
                if way_index_contains(ways, m.member_ref) {
                    v.push((role, m.member_ref));
                }
            },
            None => {},
        }
        i = i + 1;
    }
    proof {
        assert(members@.subrange(0, members@.len() as int) =~= members@);
    }
    Some((kind, v))
}

} // verus!
