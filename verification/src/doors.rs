//! Doors carved into existing walls: the door's material from its tags, the
//! span of the opening, the hinge of each leaf and the access ramp.

use vstd::prelude::*;
use crate::highways::{lower_tag, tag_or_empty};
use crate::tags::Tags;
use crate::text::{is_substring, str_eq, string_contains, to_lowercase};

verus! {

/// The direction a door faces.
#[derive(Clone, Copy, PartialEq, Eq, Structural, Debug)]
pub enum DoorFacing {
    North,
    South,
    East,
    West,
}

impl DoorFacing {
    /// The block-state name of the direction.
    pub fn as_str(&self) -> (s: &'static str)
        ensures
            s@ == (match self {
                DoorFacing::North => "north"@,
                DoorFacing::South => "south"@,
                DoorFacing::East => "east"@,
                DoorFacing::West => "west"@,
            }),
    {
        match self {
            DoorFacing::North => "north",
            DoorFacing::South => "south",
            DoorFacing::East => "east",
            DoorFacing::West => "west",
        }
    }

    /// The direction across the opening, along which its width extends.
    pub fn width_axis(&self) -> (v: (i32, i32))
        ensures
            v == (match self {
                DoorFacing::North | DoorFacing::South => (1i32, 0i32),
                DoorFacing::East | DoorFacing::West => (0i32, 1i32),
            }),
    {
        match self {
            DoorFacing::North | DoorFacing::South => (1, 0),
            DoorFacing::East | DoorFacing::West => (0, 1),
        }
    }

    /// The direction out of the door, where its ramp goes.
    pub fn outward(&self) -> (v: (i32, i32))
        ensures
            v == (match self {
                DoorFacing::North => (0i32, -1i32),
                DoorFacing::South => (0i32, 1i32),
                DoorFacing::East => (1i32, 0i32),
                DoorFacing::West => (-1i32, 0i32),
            }),
    {
        match self {
            DoorFacing::North => (0, -1),
            DoorFacing::South => (0, 1),
            DoorFacing::East => (1, 0),
            DoorFacing::West => (-1, 0),
        }
    }
}

/// The door blocks a door can be made of.
#[derive(Clone, Copy, PartialEq, Eq, Structural, Debug)]
pub enum DoorBlock {
    Spruce,
    Iron,
    DarkOak,
    Oak,
}

/// What fills a door opening.
#[derive(Clone, Copy, PartialEq, Eq, Structural, Debug)]
pub enum DoorStyle {
    /// A gate: iron bars on every other block.
    Gate,
    /// A glass door: free passage with glass above.
    GlassPane,
    /// A two-block door of this kind.
    Door(DoorBlock),
}

/// Words in a lowercase name that mark a monumental entrance.
pub open spec fn spec_royal_name(name: Seq<char>) -> bool {
    ||| is_substring("palácio"@, name)
    ||| is_substring("ministério"@, name)
    ||| is_substring("catedral"@, name)
    ||| is_substring("teatro"@, name)
    ||| is_substring("monumento"@, name)
    ||| is_substring("supremo"@, name)
    ||| is_substring("tribunal"@, name)
}

/// Whether the element's name suggests a monumental entrance.
pub fn name_contains_royal(tags: &Tags) -> (b: bool)
    ensures
        b == spec_royal_name(lower_tag(tags@, "name"@)),
{
    let name = match tags.get("name") {
        Some(v) => to_lowercase(v.as_str()),
        None => String::new(),
    };
    string_contains(&name, "palácio") || string_contains(&name, "ministério") || string_contains(
        &name,
        "catedral",
    ) || string_contains(&name, "teatro") || string_contains(&name, "monumento")
        || string_contains(&name, "supremo") || string_contains(&name, "tribunal")
}

/// The door's style from its `door`, `entrance`, `barrier`, `material` (wood
/// where missing) and name; the first rule that applies decides.
pub open spec fn spec_door_style(tags: Map<Seq<char>, Seq<char>>) -> DoorStyle {
    let door = tag_or_empty(tags, "door"@);
    let entrance = tag_or_empty(tags, "entrance"@);
    let barrier = tag_or_empty(tags, "barrier"@);
    let material = if tags.contains_key("material"@) { tags["material"@] } else { "wood"@ };
    if barrier == "gate"@ || entrance == "gate"@ {
        DoorStyle::Gate
    } else if material == "glass"@ || door == "glass"@ || door == "sliding"@ || door
        == "revolving"@ {
        DoorStyle::GlassPane
    } else if material == "iron"@ || material == "metal"@ || entrance == "service"@ || entrance
        == "garage"@ {
        DoorStyle::Door(DoorBlock::Iron)
    } else if entrance == "main"@ || door == "double"@ || spec_royal_name(lower_tag(tags, "name"@)) {
        DoorStyle::Door(DoorBlock::DarkOak)
    } else if material == "wood"@ || door == "wood"@ {
        DoorStyle::Door(DoorBlock::Oak)
    } else {
        DoorStyle::Door(DoorBlock::Spruce)
    }
}

fn tag_is(tags: &Tags, key: &str, value: &str) -> (b: bool)
    ensures
        b == (tag_or_empty(tags@, key@) == value@),
        value@.len() > 0 ==> (b == (tags@.contains_key(key@) && tags@[key@] == value@)),
{
    match tags.get(key) {
        Some(v) => str_eq(v.as_str(), value),
        None => {
            assert(value@.len() == 0 ==> value@ =~= Seq::<char>::empty());
            value.unicode_len() == 0
        },
    }
}

fn material_is(tags: &Tags, value: &str) -> (b: bool)
    ensures
        b == ((if tags@.contains_key("material"@) { tags@["material"@] } else { "wood"@ }) == value@),
{
    match tags.get("material") {
        Some(v) => str_eq(v.as_str(), value),
        None => str_eq("wood", value),
    }
}

/// The style of a door from its tags.
pub fn door_style(tags: &Tags) -> (s: DoorStyle)
    ensures
        s == spec_door_style(tags@),
{
    if tag_is(tags, "barrier", "gate") || tag_is(tags, "entrance", "gate") {
        DoorStyle::Gate
    } else if material_is(tags, "glass") || tag_is(tags, "door", "glass") || tag_is(
        tags,
        "door",
        "sliding",
    ) || tag_is(tags, "door", "revolving") {
        DoorStyle::GlassPane
    } else if material_is(tags, "iron") || material_is(tags, "metal") || tag_is(
        tags,
        "entrance",
        "service",
    ) || tag_is(tags, "entrance", "garage") {
        DoorStyle::Door(DoorBlock::Iron)
    } else if tag_is(tags, "entrance", "main") || tag_is(tags, "door", "double")
        || name_contains_royal(tags) {
        DoorStyle::Door(DoorBlock::DarkOak)
    } else if material_is(tags, "wood") || tag_is(tags, "door", "wood") {
        DoorStyle::Door(DoorBlock::Oak)
    } else {
        DoorStyle::Door(DoorBlock::Spruce)
    }
}

/// The offsets across an opening of `width` blocks: from `-(width / 2)`
/// (rounded down) to `width - width / 2 - 1`, so that the opening is exactly
/// `width` blocks wide for any positive width; the last offset is never
/// below 0.
pub open spec fn spec_opening_span(width: int) -> (int, int) {
    let half = width / 2;
    let end = width - half - 1;
    (-half, if end < 0 { 0 } else { end })
}

/// The first and last offset across an opening of `width` blocks.
pub fn opening_span(width: i32) -> (r: (i32, i32))
    requires
        width > i32::MIN,
    ensures
        r.0 == spec_opening_span(width as int).0,
        r.1 == spec_opening_span(width as int).1,
        width >= 1 ==> r.1 - r.0 + 1 == width,
{
    let half: i32 = if width >= 0 {
        width / 2
    } else {
        -((-(width + 1)) / 2) - 1
    };
    assert(half == width / 2) by (nonlinear_arith)
        requires
            width > i32::MIN,
            half == (if width >= 0 { width / 2 } else { -((-(width + 1)) / 2) - 1 }),
    ;
    let end: i32 = width - half - 1;
    (-half, if end < 0 {
        0
    } else {
        end
    })
}

/// What a door opening leaves in one of its blocks.
#[derive(Clone, Copy, PartialEq, Eq, Structural, Debug)]
pub enum DoorCell {
    Air,
    CyanGlass,
    IronBars,
    GlassPane,
    DoorLower(DoorBlock),
    DoorUpper(DoorBlock),
}

/// The block an opening of `width` by `height` leaves at offset `w` across
/// it and `h` blocks above its base (`None` outside the opening): the
/// opening is cleared up to `height`; a glass door leaves free passage
/// under cyan glass from the third block up; a gate has iron bars on every
/// other block; a door stands in the lowest two blocks (the upper half where
/// the opening is at least two high), under a transom of iron bars for iron
/// doors and of glass panes for others.
pub open spec fn spec_door_cell(style: DoorStyle, width: int, height: int, w: int, h: int) -> Option<
    DoorCell,
> {
    let span = spec_opening_span(width);
    if w < span.0 || w > span.1 {
        None
    } else {
        match style {
            DoorStyle::GlassPane => if 3 <= h <= height {
                Some(DoorCell::CyanGlass)
            } else if 1 <= h <= height {
                Some(DoorCell::Air)
            } else {
                None
            },
            DoorStyle::Gate => if 1 <= h <= height {
                if h % 2 == 0 {
                    Some(DoorCell::IronBars)
                } else {
                    Some(DoorCell::Air)
                }
            } else {
                None
            },
            DoorStyle::Door(k) => if 3 <= h <= height {
                if k == DoorBlock::Iron {
                    Some(DoorCell::IronBars)
                } else {
                    Some(DoorCell::GlassPane)
                }
            } else if h == 2 && height >= 2 {
                Some(DoorCell::DoorUpper(k))
            } else if h == 1 {
                Some(DoorCell::DoorLower(k))
            } else if 1 <= h <= height {
                Some(DoorCell::Air)
            } else {
                None
            },
        }
    }
}

/// The block a door opening leaves at offset `w` across it, `h` blocks
/// above its base.
pub fn door_cell(style: DoorStyle, width: i32, height: i32, w: i32, h: i32) -> (r: Option<DoorCell>)
    requires
        width > i32::MIN,
    ensures
        r == spec_door_cell(style, width as int, height as int, w as int, h as int),
{
    let (lo, hi) = opening_span(width);
    if w < lo || w > hi {
        return None;
    }
    match style {
        DoorStyle::GlassPane => if 3 <= h && h <= height {
            Some(DoorCell::CyanGlass)
        } else if 1 <= h && h <= height {
            Some(DoorCell::Air)
        } else {
            None
        },
        DoorStyle::Gate => if 1 <= h && h <= height {
            if h % 2 == 0 {
                Some(DoorCell::IronBars)
            } else {
                Some(DoorCell::Air)
            }
        } else {
            None
        },
        DoorStyle::Door(k) => if 3 <= h && h <= height {
            if k == DoorBlock::Iron {
                Some(DoorCell::IronBars)
            } else {
                Some(DoorCell::GlassPane)
            }
        } else if h == 2 && height >= 2 {
            Some(DoorCell::DoorUpper(k))
        } else if h == 1 {
            Some(DoorCell::DoorLower(k))
        } else if 1 <= h && h <= height {
            Some(DoorCell::Air)
        } else {
            None
        },
    }
}

/// The hinge of the leaf at offset `w`: left on the left half, else right.
pub fn hinge_side(w: i32) -> (s: &'static str)
    ensures
        s@ == (if w < 0 { "left"@ } else { "right"@ }),
{
    if w < 0 {
        "left"
    } else {
        "right"
    }
}

/// What goes in front of a main entrance.
#[derive(Clone, Copy, PartialEq, Eq, Structural, Debug)]
pub enum RampAction {
    /// A slab on the ground, one block below the door.
    Slab,
    /// Tactile paving replacing the ground at the door's level.
    Paving,
    Nothing,
}

/// The ramp in front of a door: only main entrances with glass or iron doors
/// get one, a slab for a one-block step, paving at the same level.
pub open spec fn spec_ramp_action(
    main_entrance: bool,
    style: DoorStyle,
    y_base: int,
    ground_y: int,
) -> RampAction {
    if main_entrance && (style == DoorStyle::GlassPane || style == DoorStyle::Door(DoorBlock::Iron)) {
        if y_base == ground_y + 1 {
            RampAction::Slab
        } else if y_base == ground_y {
            RampAction::Paving
        } else {
            RampAction::Nothing
        }
    } else {
        RampAction::Nothing
    }
}

/// The ramp in front of a door of `style` at `y_base`, the ground there
/// being at `ground_y`.
pub fn ramp_action(tags: &Tags, style: DoorStyle, y_base: i32, ground_y: i32) -> (r: RampAction)
    ensures
        r == spec_ramp_action(
            tag_or_empty(tags@, "entrance"@) == "main"@,
            style,
            y_base as int,
            ground_y as int,
        ),
{
    let main_entrance = tag_is(tags, "entrance", "main");
    if main_entrance && (style == DoorStyle::GlassPane || style == DoorStyle::Door(DoorBlock::Iron)) {
        if y_base as i64 == ground_y as i64 + 1 {
            RampAction::Slab
        } else if y_base == ground_y {
            RampAction::Paving
        } else {
            RampAction::Nothing
        }
    } else {
        RampAction::Nothing
    }
}

} // verus!
