use pincel::doors::{door_cell, DoorBlock, DoorCell, DoorStyle};
use std::collections::HashMap;

// An opening drawn column by column, each write covering earlier ones.
fn drawn(style: DoorStyle, width: i32, height: i32) -> HashMap<(i32, i32), DoorCell> {
    let mut m = HashMap::new();
    let half_w = (width as f32 / 2.0).floor() as i32;
    let end_offset = width - half_w - 1;
    for w in -half_w..=end_offset.max(0) {
        for h in 1..=height {
            m.insert((w, h), DoorCell::Air);
        }
        match style {
            DoorStyle::GlassPane => {
                for h in 3..=height {
                    m.insert((w, h), DoorCell::CyanGlass);
                }
            }
            DoorStyle::Gate => {
                for h in 1..=height {
                    m.insert((w, h), if h % 2 == 0 { DoorCell::IronBars } else { DoorCell::Air });
                }
            }
            DoorStyle::Door(k) => {
                let max_h = height.min(2);
                m.insert((w, 1), DoorCell::DoorLower(k));
                if max_h == 2 {
                    m.insert((w, 2), DoorCell::DoorUpper(k));
                }
                if height > 2 {
                    for h in 3..=height {
                        m.insert((w, h), if k == DoorBlock::Iron { DoorCell::IronBars } else { DoorCell::GlassPane });
                    }
                }
            }
        }
    }
    m
}

#[test]
fn door_openings_match_their_drawing() {
    let styles = [
        DoorStyle::Gate,
        DoorStyle::GlassPane,
        DoorStyle::Door(DoorBlock::Iron),
        DoorStyle::Door(DoorBlock::Oak),
        DoorStyle::Door(DoorBlock::DarkOak),
    ];
    for style in styles {
        for width in 1..=6 {
            for height in 1..=6 {
                let m = drawn(style, width, height);
                for w in -5..=5 {
                    for h in -1..=8 {
                        assert_eq!(door_cell(style, width, height, w, h), m.get(&(w, h)).copied(), "{style:?} {width}x{height} at ({w}, {h})");
                    }
                }
                // Exactly `width` columns are opened.
                let cols: std::collections::HashSet<i32> = m.keys().map(|k| k.0).collect();
                assert_eq!(cols.len(), width as usize);
            }
        }
    }
}
