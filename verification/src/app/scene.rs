//! What a screen shows, as a list of things to draw in order.

use crate::ssd1677::area::Area;
use crate::ssd1677::framebuffer::on_screen;
use crate::ssd1677::FrameBuffer;
use vstd::prelude::*;

verus! {

/// Gray levels.
pub const BLACK: u8 = 0;

pub const DARK: u8 = 1;

pub const LIGHT: u8 = 2;

pub const WHITE: u8 = 3;

/// Fonts of the screens.
#[derive(Debug, Clone, Copy, PartialEq, Eq, Structural)]
pub enum Font {
    /// 42 px, for names.
    Big,
    /// 22 px.
    Mid,
    /// 14 px.
    Small,
    /// 16 px with kana and kanji.
    Japanese,
    /// The same at twice the size; positions are in half-size coordinates.
    JapaneseDouble,
    /// Fixed width, 10x20.
    Fixed20,
    /// Fixed width, 9x15.
    Fixed15,
}

/// One thing to draw.
#[derive(Debug, PartialEq, Eq)]
pub enum Item {
    /// The whole screen in one level.
    Clear(u8),
    Fill { area: Area, level: u8 },
    Frame { area: Area, level: u8, width: u32 },
    Circle { x: i32, y: i32, diameter: u32, level: u8 },
    Triangle { a: (i32, i32), b: (i32, i32), c: (i32, i32), level: u8 },
    /// Text on a baseline, centered on `x` or starting there.
    Text { text: String, x: i32, y: i32, font: Font, level: u8, centered: bool },
}

/// One thing to draw, mathematically.
pub enum ItemModel {
    Clear(u8),
    Fill { area: Area, level: u8 },
    Frame { area: Area, level: u8, width: u32 },
    Circle { x: i32, y: i32, diameter: u32, level: u8 },
    Triangle { a: (i32, i32), b: (i32, i32), c: (i32, i32), level: u8 },
    Text { text: Seq<char>, x: i32, y: i32, font: Font, level: u8, centered: bool },
}

impl View for Item {
    type V = ItemModel;

    open spec fn view(&self) -> ItemModel {
        match *self {
            Item::Clear(level) => ItemModel::Clear(level),
            Item::Fill { area, level } => ItemModel::Fill { area, level },
            Item::Frame { area, level, width } => ItemModel::Frame { area, level, width },
            Item::Circle { x, y, diameter, level } => ItemModel::Circle { x, y, diameter, level },
            Item::Triangle { a, b, c, level } => ItemModel::Triangle { a, b, c, level },
            Item::Text { text, x, y, font, level, centered } => ItemModel::Text {
                text: text@,
                x,
                y,
                font,
                level,
                centered,
            },
        }
    }
}

/// A list of things to draw, mathematically.
pub open spec fn scene(items: Seq<Item>) -> Seq<ItemModel> {
    Seq::new(items.len(), |i: int| items[i]@)
}

/// Centered text.
pub open spec fn centered(text: Seq<char>, x: i32, y: i32, font: Font, level: u8) -> ItemModel {
    ItemModel::Text { text, x, y, font, level, centered: true }
}

/// Text that starts at a point.
pub open spec fn at(text: Seq<char>, x: i32, y: i32, font: Font, level: u8) -> ItemModel {
    ItemModel::Text { text, x, y, font, level, centered: false }
}

pub open spec fn area(x: i32, y: i32, w: u32, h: u32) -> Area {
    Area { x, y, w, h }
}

// ----------------------------------------------------------------------
// painting
// ----------------------------------------------------------------------

/// A pixel that a font or a shape covers.
#[derive(Debug, Clone, Copy, PartialEq, Eq)]
pub struct Dot {
    pub x: i32,
    pub y: i32,
}

/// The ink covers the pixel.
pub open spec fn inked(ink: Seq<Dot>, x: int, y: int) -> bool {
    exists|i: int| 0 <= i < ink.len() && (#[trigger] ink[i]).x == x && ink[i].y == y
}

impl ItemModel {
    pub open spec fn level(self) -> u8 {
        match self {
            ItemModel::Clear(level) => level,
            ItemModel::Fill { level, .. } => level,
            ItemModel::Frame { level, .. } => level,
            ItemModel::Circle { level, .. } => level,
            ItemModel::Triangle { level, .. } => level,
            ItemModel::Text { level, .. } => level,
        }
    }

    /// Every pixel of the ink stands for a block of two by two.
    pub open spec fn doubled(self) -> bool {
        self matches ItemModel::Text { font, .. } && font == Font::JapaneseDouble
    }

    /// The pixels that the item covers: all, those of its rectangle, or those
    /// of the ink that its font or shape gives.
    pub open spec fn covers(self, ink: Seq<Dot>, px: int, py: int) -> bool {
        match self {
            ItemModel::Clear(_) => true,
            ItemModel::Fill { area, .. } => area.covers(px, py),
            _ => if self.doubled() {
                inked(ink, px / 2, py / 2)
            } else {
                inked(ink, px, py)
            },
        }
    }

    /// Rectangle and ink have representable coordinates on the screen.
    pub open spec fn paintable(self, ink: Seq<Dot>) -> bool {
        &&& self matches ItemModel::Fill { area, .. } ==> area.representable()
        &&& self.doubled() ==> forall|i: int|
            0 <= i < ink.len() ==> i32::MIN <= (#[trigger] ink[i]).x * 2 < i32::MAX && i32::MIN
                <= ink[i].y * 2 < i32::MAX
    }
}

/// The level of a pixel once a scene was painted on it; `ink[i]` is the ink of
/// item `i`.
pub open spec fn shown(
    scene: Seq<ItemModel>,
    ink: Seq<Seq<Dot>>,
    before: u8,
    px: int,
    py: int,
) -> u8
    decreases scene.len(),
{
    if scene.len() == 0 {
        before
    } else if scene.last().covers(ink[scene.len() - 1], px, py) {
        scene.last().level() & 3
    } else {
        shown(scene.drop_last(), ink, before, px, py)
    }
}

/// One framebuffer is the other with a scene painted on it.
pub open spec fn painted(
    before: FrameBuffer,
    scene: Seq<ItemModel>,
    ink: Seq<Seq<Dot>>,
    after: FrameBuffer,
) -> bool {
    &&& after.orientation == before.orientation
    &&& forall|px: int, py: int|
        on_screen(px, py) ==> #[trigger] after.level(px, py) == shown(
            scene,
            ink,
            before.level(px, py),
            px,
            py,
        )
}

/// Nothing painted changes nothing.
pub proof fn an_empty_scene_shows_nothing(fb: FrameBuffer)
    ensures
        painted(fb, Seq::empty(), Seq::empty(), fb),
{
}

/// Painting one more item paints the longer scene.
pub proof fn scenes_are_painted_item_by_item(
    before: FrameBuffer,
    scene: Seq<ItemModel>,
    ink: Seq<Seq<Dot>>,
    between: FrameBuffer,
    item: ItemModel,
    more: Seq<Dot>,
    after: FrameBuffer,
)
    requires
        scene.len() == ink.len(),
        painted(before, scene, ink, between),
        painted(between, seq![item], seq![more], after),
    ensures
        painted(before, scene.push(item), ink.push(more), after),
{
    assert forall|px: int, py: int| on_screen(px, py) implies #[trigger] after.level(px, py)
        == shown(scene.push(item), ink.push(more), before.level(px, py), px, py) by {
        let low = before.level(px, py);
        assert(scene.push(item).drop_last() =~= scene);
        shorter_scenes_need_less_ink(scene, ink, more, low, px, py);
        assert(between.level(px, py) == shown(scene, ink, low, px, py));
        assert(seq![item].drop_last() =~= Seq::<ItemModel>::empty());
        reveal_with_fuel(shown, 2);
    }
}

proof fn shorter_scenes_need_less_ink(
    scene: Seq<ItemModel>,
    ink: Seq<Seq<Dot>>,
    more: Seq<Dot>,
    before: u8,
    px: int,
    py: int,
)
    requires
        scene.len() <= ink.len(),
    ensures
        shown(scene, ink.push(more), before, px, py) == shown(scene, ink, before, px, py),
    decreases scene.len(),
{
    if scene.len() > 0 {
        shorter_scenes_need_less_ink(scene.drop_last(), ink, more, before, px, py);
    }
}

/// The ink of an item may come in parts.
pub proof fn ink_comes_in_parts(
    before: FrameBuffer,
    item: ItemModel,
    some: Seq<Dot>,
    between: FrameBuffer,
    more: Seq<Dot>,
    after: FrameBuffer,
)
    requires
        painted(before, seq![item], seq![some], between),
        painted(between, seq![item], seq![more], after),
    ensures
        painted(before, seq![item], seq![some + more], after),
{
    let all = some + more;
    assert forall|x: int, y: int| #[trigger]
        inked(all, x, y) <==> inked(some, x, y) || inked(more, x, y) by {
        if inked(some, x, y) {
            let i = choose|i: int| 0 <= i < some.len() && (#[trigger] some[i]).x == x && some[i].y
                == y;
            assert(all[i] == some[i]);
        }
        if inked(more, x, y) {
            let i = choose|i: int| 0 <= i < more.len() && (#[trigger] more[i]).x == x && more[i].y
                == y;
            assert(all[some.len() + i] == more[i]);
        }
        if inked(all, x, y) {
            let i = choose|i: int| 0 <= i < all.len() && (#[trigger] all[i]).x == x && all[i].y
                == y;
            if i < some.len() {
                assert(some[i] == all[i]);
            } else {
                assert(more[i - some.len()] == all[i]);
            }
        }
    }
    reveal_with_fuel(shown, 2);
    assert(seq![item].drop_last() =~= Seq::<ItemModel>::empty());
    assert forall|px: int, py: int| on_screen(px, py) implies #[trigger] after.level(px, py)
        == shown(seq![item], seq![all], before.level(px, py), px, py) by {
        assert(between.level(px, py) == shown(
            seq![item],
            seq![some],
            before.level(px, py),
            px,
            py,
        ));
        assert(inked(all, px, py) <==> inked(some, px, py) || inked(more, px, py));
        assert(inked(all, px / 2, py / 2) <==> inked(some, px / 2, py / 2) || inked(
            more,
            px / 2,
            py / 2,
        ));
    }
}

proof fn a_cleared_pixel_is_fixed(
    scene: Seq<ItemModel>,
    ink: Seq<Seq<Dot>>,
    before1: u8,
    before2: u8,
    px: int,
    py: int,
)
    requires
        scene.len() > 0,
        scene[0] is Clear,
    ensures
        shown(scene, ink, before1, px, py) == shown(scene, ink, before2, px, py),
    decreases scene.len(),
{
    if scene.len() > 1 {
        a_cleared_pixel_is_fixed(scene.drop_last(), ink, before1, before2, px, py);
    }
}

/// A scene that begins by clearing the screen shows nothing of what was there
/// before: painted on any two framebuffers of one orientation it gives the same
/// planes.
pub proof fn a_cleared_scene_hides_the_past(
    before1: FrameBuffer,
    before2: FrameBuffer,
    scene: Seq<ItemModel>,
    ink: Seq<Seq<Dot>>,
    after1: FrameBuffer,
    after2: FrameBuffer,
)
    requires
        before1.orientation == before2.orientation,
        scene.len() > 0,
        scene[0] is Clear,
        painted(before1, scene, ink, after1),
        painted(before2, scene, ink, after2),
    ensures
        after1.lsb@ == after2.lsb@,
        after1.msb@ == after2.msb@,
        after1.orientation == before1.orientation,
        after2.orientation == before2.orientation,
{
    assert forall|px: int, py: int| on_screen(px, py) implies #[trigger] after1.level(px, py)
        == after2.level(px, py) by {
        a_cleared_pixel_is_fixed(
            scene,
            ink,
            before1.level(px, py),
            before2.level(px, py),
            px,
            py,
        );
    }
    crate::ssd1677::framebuffer::equal_levels_make_equal_planes(after1, after2);
}

/// Paint one item, or a part of it: ink beyond what is given is not touched.
pub fn paint(fb: &mut FrameBuffer, item: &Item, ink: &[Dot])
    requires
        item@.paintable(ink@),
    ensures
        painted(*old(fb), seq![item@], seq![ink@], *final(fb)),
{
    proof {
        reveal_with_fuel(shown, 2);
        assert(seq![item@].drop_last() =~= Seq::<ItemModel>::empty());
    }
    match item {
        Item::Clear(level) => fb.clear(*level),
        Item::Fill { area, level } => fb.fill_solid(*area, *level),
        Item::Frame { level, .. } => paint_ink(fb, ink, *level),
        Item::Circle { level, .. } => paint_ink(fb, ink, *level),
        Item::Triangle { level, .. } => paint_ink(fb, ink, *level),
        Item::Text { font, level, .. } => if *font == Font::JapaneseDouble {
            paint_blocks(fb, ink, *level)
        } else {
            paint_ink(fb, ink, *level)
        },
    }
}

fn paint_ink(fb: &mut FrameBuffer, ink: &[Dot], level: u8)
    ensures
        final(fb).orientation == old(fb).orientation,
        forall|px: int, py: int|
            on_screen(px, py) ==> #[trigger] final(fb).level(px, py) == if inked(ink@, px, py) {
                level & 3
            } else {
                old(fb).level(px, py)
            },
{
    let mut i: usize = 0;
    while i < ink.len()
        invariant
            i <= ink@.len(),
            fb.orientation == old(fb).orientation,
            forall|px: int, py: int|
                on_screen(px, py) ==> #[trigger] fb.level(px, py) == if inked(
                    ink@.take(i as int),
                    px,
                    py,
                ) {
                    level & 3
                } else {
                    old(fb).level(px, py)
                },
        decreases ink@.len() - i,
    {
        proof {
            one_dot_more(ink@, i as int);
        }
        fb.set_pixel(ink[i].x, ink[i].y, level);
        i += 1;
    }
    assert(ink@.take(i as int) =~= ink@);
}

fn paint_blocks(fb: &mut FrameBuffer, ink: &[Dot], level: u8)
    requires
        forall|i: int|
            0 <= i < ink@.len() ==> i32::MIN <= (#[trigger] ink@[i]).x * 2 < i32::MAX && i32::MIN
                <= ink@[i].y * 2 < i32::MAX,
    ensures
        final(fb).orientation == old(fb).orientation,
        forall|px: int, py: int|
            on_screen(px, py) ==> #[trigger] final(fb).level(px, py) == if inked(
                ink@,
                px / 2,
                py / 2,
            ) {
                level & 3
            } else {
                old(fb).level(px, py)
            },
{
    let mut i: usize = 0;
    while i < ink.len()
        invariant
            i <= ink@.len(),
            forall|i: int|
                0 <= i < ink@.len() ==> i32::MIN <= (#[trigger] ink@[i]).x * 2 < i32::MAX
                    && i32::MIN <= ink@[i].y * 2 < i32::MAX,
            fb.orientation == old(fb).orientation,
            forall|px: int, py: int|
                on_screen(px, py) ==> #[trigger] fb.level(px, py) == if inked(
                    ink@.take(i as int),
                    px / 2,
                    py / 2,
                ) {
                    level & 3
                } else {
                    old(fb).level(px, py)
                },
        decreases ink@.len() - i,
    {
        proof {
            one_dot_more(ink@, i as int);
        }
        fb.set_block(ink[i].x, ink[i].y, level);
        i += 1;
    }
    assert(ink@.take(i as int) =~= ink@);
}

proof fn one_dot_more(ink: Seq<Dot>, n: int)
    requires
        0 <= n < ink.len(),
    ensures
        forall|x: int, y: int| #[trigger]
            inked(ink.take(n + 1), x, y) <==> inked(ink.take(n), x, y) || (ink[n].x == x
                && ink[n].y == y),
{
    assert forall|x: int, y: int| #[trigger]
        inked(ink.take(n + 1), x, y) <==> inked(ink.take(n), x, y) || (ink[n].x == x && ink[n].y
            == y) by {
        let short = ink.take(n);
        let long = ink.take(n + 1);
        if inked(short, x, y) {
            let i = choose|i: int| 0 <= i < short.len() && (#[trigger] short[i]).x == x
                && short[i].y == y;
            assert(long[i] == short[i]);
        }
        if ink[n].x == x && ink[n].y == y {
            assert(long[n] == ink[n]);
        }
        if inked(long, x, y) {
            let i = choose|i: int| 0 <= i < long.len() && (#[trigger] long[i]).x == x && long[i].y
                == y;
            if i < n {
                assert(short[i] == long[i]);
            }
        }
    }
}

// ----------------------------------------------------------------------
// lists
// ----------------------------------------------------------------------

/// Add one thing.
pub fn add_item(items: &mut Vec<Item>, item: Item)
    ensures
        scene(final(items)@) == scene(old(items)@).push(item@),
{
    items.push(item);
    assert(scene(items@) =~= scene(old(items)@).push(item@));
}

/// Add centered text.
pub fn add_centered(items: &mut Vec<Item>, text: &str, x: i32, y: i32, font: Font, level: u8)
    ensures
        scene(final(items)@) == scene(old(items)@).push(centered(text@, x, y, font, level)),
{
    let text = text.to_owned();
    add_item(items, Item::Text { text, x, y, font, level, centered: true });
}

/// Add text that starts at a point.
pub fn add_at(items: &mut Vec<Item>, text: &str, x: i32, y: i32, font: Font, level: u8)
    ensures
        scene(final(items)@) == scene(old(items)@).push(at(text@, x, y, font, level)),
{
    let text = text.to_owned();
    add_item(items, Item::Text { text, x, y, font, level, centered: false });
}

/// What a painted item leaves on a pixel: its level, if it is the whole screen,
/// a rectangle around the pixel, or ink on it, in blocks of two by two for the
/// doubled font; else the pixel stays.
pub proof fn painted_pixels_have_their_level(
    before: FrameBuffer,
    item: ItemModel,
    ink: Seq<Dot>,
    after: FrameBuffer,
    px: int,
    py: int,
)
    requires
        painted(before, seq![item], seq![ink], after),
        0 <= px < 480,
        0 <= py < 800,
    ensures
        after.orientation == before.orientation,
        ({
            let now = after.level(px, py);
            let was = before.level(px, py);
            let dot = exists|i: int|
                0 <= i < ink.len() && (#[trigger] ink[i]).x == px && ink[i].y == py;
            let block = exists|i: int|
                0 <= i < ink.len() && 2 * (#[trigger] ink[i]).x <= px <= 2 * ink[i].x + 1 && 2
                    * ink[i].y <= py <= 2 * ink[i].y + 1;
            match item {
                ItemModel::Clear(level) => now == level & 3,
                ItemModel::Fill { area, level } => {
                    let inside = area.x <= px < area.x + area.w && area.y <= py < area.y + area.h;
                    now == if inside {
                        level & 3
                    } else {
                        was
                    }
                },
                ItemModel::Frame { level, .. } => now == if dot {
                    level & 3
                } else {
                    was
                },
                ItemModel::Circle { level, .. } => now == if dot {
                    level & 3
                } else {
                    was
                },
                ItemModel::Triangle { level, .. } => now == if dot {
                    level & 3
                } else {
                    was
                },
                ItemModel::Text { font, level, .. } => now == if (if font == Font::JapaneseDouble {
                    block
                } else {
                    dot
                }) {
                    level & 3
                } else {
                    was
                },
            }
        }),
{
    reveal_with_fuel(shown, 2);
    assert(seq![item].drop_last() =~= Seq::<ItemModel>::empty());
    let half = inked(ink, px / 2, py / 2);
    let block = exists|i: int|
        0 <= i < ink.len() && 2 * (#[trigger] ink[i]).x <= px <= 2 * ink[i].x + 1 && 2 * ink[i].y
            <= py <= 2 * ink[i].y + 1;
    if half {
        let i = choose|i: int|
            0 <= i < ink.len() && (#[trigger] ink[i]).x == px / 2 && ink[i].y == py / 2;
        assert(2 * ink[i].x <= px <= 2 * ink[i].x + 1);
    }
    if block {
        let i = choose|i: int|
            0 <= i < ink.len() && 2 * (#[trigger] ink[i]).x <= px <= 2 * ink[i].x + 1 && 2
                * ink[i].y <= py <= 2 * ink[i].y + 1;
        assert(ink[i].x == px / 2 && ink[i].y == py / 2);
    }
    assert(after.level(px, py) == shown(seq![item], seq![ink], before.level(px, py), px, py));
}

/// A scene lists the items as they stand, each with its own place, size, level
/// and text.
pub proof fn scenes_are_their_items(items: Seq<Item>, i: int)
    requires
        0 <= i < items.len(),
    ensures
        scene(items).len() == items.len(),
        items[i] matches Item::Clear(level) ==> scene(items)[i] == ItemModel::Clear(level),
        items[i] matches Item::Fill { area, level } ==> scene(items)[i] == (ItemModel::Fill {
            area,
            level,
        }),
        items[i] matches Item::Frame { area, level, width } ==> scene(items)[i]
            == (ItemModel::Frame { area, level, width }),
        items[i] matches Item::Circle { x, y, diameter, level } ==> scene(items)[i]
            == (ItemModel::Circle { x, y, diameter, level }),
        items[i] matches Item::Triangle { a, b, c, level } ==> scene(items)[i]
            == (ItemModel::Triangle { a, b, c, level }),
        items[i] matches Item::Text { text, x, y, font, level, centered } ==> scene(items)[i]
            == (ItemModel::Text { text: text@, x, y, font, level, centered }),
{
}

} // verus!
