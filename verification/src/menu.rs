//! Menu navigation: a selected index with circular wraparound, and the
//! base menu widget that composes a wave title, description lines and
//! selectable entries around it.

use crate::text_fx::Blit;
use crate::text_fx::Font;
use crate::text_fx::SelectableText;
use crate::text_fx::StaticText;
use crate::text_fx::WaveText;
use vstd::prelude::*;

verus! {

/// One classified input event, as the menu layer consumes it: the window
/// close request, or one of the handful of keys the menus react to.
#[derive(Clone, Copy, Debug, PartialEq, Eq, Structural)]
pub enum MenuEvent {
    Quit,
    Up,
    Down,
    Confirm,
    Left,
    Right,
    Escape,
}

/// Pure selection-index state over a fixed number of menu entries.
#[derive(Debug)]
pub struct MenuItem {
    pub num_of_items: usize,
    pub selected: usize,
}

/// Circular decrement over `count` items: moving up from the first entry
/// wraps to the last.
pub open spec fn up_index(i: nat, count: nat) -> nat
    recommends
        count >= 1,
        i < count,
{
    if i == 0 {
        (count - 1) as nat
    } else {
        (i - 1) as nat
    }
}

/// Circular increment over `count` items: moving down from the last entry
/// wraps to the first.
pub open spec fn down_index(i: nat, count: nat) -> nat
    recommends
        count >= 1,
        i < count,
{
    crate::cycle::cyclic_next(i, count)
}

/// Selection wraparound: starting from any selected index, moving down
/// once per entry returns the selection to where it started.
pub proof fn lemma_down_full_cycle(i: nat, count: nat)
    requires
        count >= 1,
        i < count,
    ensures
        crate::cycle::cyclic_iter(i, count, count) == i,
{
    crate::cycle::lemma_cyclic_full_cycle(i, count);
}

impl MenuItem {
    /// Well formed: at least one entry, and the selection points at one.
    pub open spec fn wf(&self) -> bool {
        &&& self.num_of_items >= 1
        &&& self.selected < self.num_of_items
    }

    pub fn new(num_of_items: usize) -> (r: MenuItem)
        requires
            num_of_items >= 1,
        ensures
            r.wf(),
            r.num_of_items == num_of_items,
            r.selected == 0,
    {
        MenuItem { num_of_items, selected: 0 }
    }

    /// Move the selection one entry up, wrapping from the first entry to
    /// the last.
    pub fn up(&mut self)
        requires
            old(self).wf(),
        ensures
            final(self).wf(),
            final(self).num_of_items == old(self).num_of_items,
            final(self).selected == up_index(
                old(self).selected as nat,
                old(self).num_of_items as nat,
            ),
    {
        if self.selected == 0 {
            self.selected = self.num_of_items - 1;
        } else {
            self.selected = self.selected - 1;
        }
    }

    /// Move the selection one entry down, wrapping from the last entry to
    /// the first.
    pub fn down(&mut self)
        requires
            old(self).wf(),
        ensures
            final(self).wf(),
            final(self).num_of_items == old(self).num_of_items,
            final(self).selected == down_index(
                old(self).selected as nat,
                old(self).num_of_items as nat,
            ),
    {
        if self.selected == self.num_of_items - 1 {
            self.selected = 0;
        } else {
            self.selected = self.selected + 1;
        }
    }
}

/// Breathing range of the entry markers, in pixels.
pub const MARKER_MAX_OFFSET: u32 = 30;

/// Phase advance of the title wave per update tick, in degrees.
pub const TITLE_SPEED: u32 = 6;

/// Phase shift of the title wave between neighbouring glyphs, in degrees.
pub const TITLE_SHIFT: u32 = 29;

/// Headroom bound on layout coordinates.  Positions this far from the
/// origin keep every centering, marker and cursor computation free of
/// 64-bit overflow while lying far beyond any drawable position.
pub const COORD_LIMIT: i64 = 0x0100_0000_0000_0000;

/// Is `x` within the layout headroom?
pub open spec fn coord_ok(x: int) -> bool {
    -COORD_LIMIT <= x <= COORD_LIMIT
}

/// Is `x` within a few widget widths of the layout headroom?  Positions
/// that started inside the headroom stay within this bound after being
/// centered or shifted, and still leave marker and cursor arithmetic far
/// from overflow.
pub open spec fn coord_roomy(x: int) -> bool {
    -4 * (COORD_LIMIT as int) <= x <= 4 * (COORD_LIMIT as int)
}

/// The widest bounding box among a list of labels.
pub open spec fn max_label_width(s: Seq<StaticText>) -> int
    decreases s.len(),
{
    if s.len() == 0 {
        0
    } else {
        let rest = max_label_width(s.drop_last());
        if s.last().width >= rest {
            s.last().width as int
        } else {
            rest
        }
    }
}

/// The blits of a list of labels, drawn first to last.
pub open spec fn labels_blits(s: Seq<StaticText>) -> Seq<Blit>
    decreases s.len(),
{
    if s.len() == 0 {
        Seq::empty()
    } else {
        s.first().blits_at(s.first().x as int, s.first().y as int) + labels_blits(
            s.drop_first(),
        )
    }
}

/// Drawing one more label appends its blits.
proof fn lemma_labels_blits_push(s: Seq<StaticText>, e: StaticText)
    ensures
        labels_blits(s.push(e)) == labels_blits(s) + e.blits_at(e.x as int, e.y as int),
    decreases s.len(),
{
    reveal_with_fuel(labels_blits, 3);
    if s.len() == 0 {
        assert(s.push(e).drop_first() =~= Seq::<StaticText>::empty());
        assert(labels_blits(s.push(e)) =~= labels_blits(s) + e.blits_at(
            e.x as int,
            e.y as int,
        ));
    } else {
        lemma_labels_blits_push(s.drop_first(), e);
        assert(s.push(e).drop_first() =~= s.drop_first().push(e));
        assert(labels_blits(s.push(e)) =~= labels_blits(s) + e.blits_at(
            e.x as int,
            e.y as int,
        ));
    }
}

/// The blits of a list of selectable entries, drawn first to last.
pub open spec fn entries_blits(s: Seq<SelectableText>) -> Seq<Blit>
    decreases s.len(),
{
    if s.len() == 0 {
        Seq::empty()
    } else {
        s.first().blits() + entries_blits(s.drop_first())
    }
}

/// Drawing one more entry appends its blits.
proof fn lemma_entries_blits_push(s: Seq<SelectableText>, e: SelectableText)
    ensures
        entries_blits(s.push(e)) == entries_blits(s) + e.blits(),
    decreases s.len(),
{
    reveal_with_fuel(entries_blits, 3);
    if s.len() == 0 {
        assert(s.push(e).drop_first() =~= Seq::<SelectableText>::empty());
        assert(entries_blits(s.push(e)) =~= entries_blits(s) + e.blits());
    } else {
        lemma_entries_blits_push(s.drop_first(), e);
        assert(s.push(e).drop_first() =~= s.drop_first().push(e));
        assert(entries_blits(s.push(e)) =~= entries_blits(s) + e.blits());
    }
}

/// Two lists of labels with the same widths have the same widest line.
proof fn lemma_max_label_width_congruent(s1: Seq<StaticText>, s2: Seq<StaticText>)
    requires
        s1.len() == s2.len(),
        forall|i: int| 0 <= i < s1.len() ==> (#[trigger] s1[i]).width == s2[i].width,
    ensures
        max_label_width(s1) == max_label_width(s2),
    decreases s1.len(),
{
    if s1.len() > 0 {
        assert(s1.drop_last().len() == s2.drop_last().len());
        assert(forall|i: int|
            0 <= i < s1.drop_last().len() ==> (#[trigger] s1.drop_last()[i]).width
                == s2.drop_last()[i].width);
        lemma_max_label_width_congruent(s1.drop_last(), s2.drop_last());
    }
}

/// A whole menu screen: a wave title, an optional block of description
/// lines, and a column of selectable entries driven by one [`MenuItem`].
pub struct BaseMenu {
    /// Horizontal anchor: the center line of the screen layout.
    pub x: i64,
    /// Where the description block starts vertically.
    pub text_y: i64,
    /// Vertical distance between neighbouring lines.
    pub step: u32,
    pub menu_item: MenuItem,
    pub title: WaveText,
    pub text: Vec<StaticText>,
    pub menu: Vec<SelectableText>,
}

impl BaseMenu {
    /// Well formed: the parts are well formed, the selection state covers
    /// exactly the entries, and at all times exactly one entry is active,
    /// namely the selected one.
    pub open spec fn wf(&self) -> bool {
        &&& self.menu_item.wf()
        &&& self.menu@.len() == self.menu_item.num_of_items
        &&& self.title.wf()
        &&& forall|i: int| 0 <= i < self.text@.len() ==> (#[trigger] self.text@[i]).wf()
        &&& forall|i: int| 0 <= i < self.menu@.len() ==> (#[trigger] self.menu@[i]).wf()
        &&& forall|i: int|
            0 <= i < self.menu@.len() ==> ((#[trigger] self.menu@[i]).active <==> i
                == self.menu_item.selected)
    }

    /// Coordinates from which this menu can be laid out and drawn without
    /// overflow: every widget position within the layout headroom.
    pub open spec fn coords_ok(&self) -> bool {
        &&& coord_ok(self.x as int)
        &&& coord_ok(self.text_y as int)
        &&& coord_ok(self.title.base.x as int)
        &&& coord_ok(self.title.base.y as int)
        &&& forall|i: int|
            0 <= i < self.text@.len() ==> coord_ok(
                (#[trigger] self.text@[i]).x as int,
            ) && coord_ok(self.text@[i].y as int)
        &&& forall|i: int|
            0 <= i < self.menu@.len() ==> coord_ok(
                (#[trigger] self.menu@[i]).base.x as int,
            ) && coord_ok(self.menu@[i].base.y as int) && coord_ok(
                self.menu@[i].left_marker.x as int,
            ) && coord_ok(self.menu@[i].right_marker.x as int)
    }

    /// The font fits this menu: every label this menu owns keeps its
    /// bounding box within `u32` under cells of this width.
    pub open spec fn font_fits(&self, f: Font) -> bool {
        &&& (f.width as int) * self.title.base.text@.len() <= u32::MAX
        &&& (f.width as int) * 2 <= u32::MAX
        &&& forall|i: int|
            0 <= i < self.text@.len() ==> (f.width as int) * (
            #[trigger] self.text@[i]).text@.len() <= u32::MAX
        &&& forall|i: int|
            0 <= i < self.menu@.len() ==> (f.width as int) * (
            #[trigger] self.menu@[i]).base.text@.len() <= u32::MAX
    }

    /// The blits of the whole screen: title first, then the description
    /// lines, then the entries.
    pub open spec fn blits(&self) -> Seq<Blit> {
        self.title.blits() + labels_blits(self.text@) + entries_blits(self.menu@)
    }

    /// Lay out a new menu screen: the title at `(x, y)`, the description
    /// block two steps below it, and the entries one further step below
    /// the description block, one step apart.  The first entry starts
    /// active.
    pub fn new(
        x: i64,
        y: i64,
        step: u32,
        title: String,
        text: Vec<String>,
        menu: Vec<String>,
    ) -> (r: BaseMenu)
        requires
            menu@.len() >= 1,
            coord_ok(x as int),
            coord_ok(y as int),
            coord_ok(y + (step as int) * (text@.len() + menu@.len() + 3)),
        ensures
            r.wf(),
            r.x == x,
            r.step == step,
            r.text_y == y + 2 * (step as int),
            r.menu_item.num_of_items == menu@.len(),
            r.menu_item.selected == 0,
            r.title.base.x == x,
            r.title.base.y == y,
            r.title.base.text == title,
            r.title.base.font is None,
            r.title.amplitude == step / 2,
            r.title.speed == TITLE_SPEED,
            r.title.shift == TITLE_SHIFT,
            r.title.active,
            r.text@.len() == text@.len(),
            forall|i: int|
                0 <= i < text@.len() ==> {
                    let l = #[trigger] r.text@[i];
                    &&& l.text == text@[i]
                    &&& l.x == x
                    &&& l.y == y + 2 * (step as int) + i * (step as int)
                    &&& l.font is None
                    &&& l.width == 0
                },
            r.menu@.len() == menu@.len(),
            forall|i: int|
                0 <= i < menu@.len() ==> {
                    let e = #[trigger] r.menu@[i];
                    &&& e.base.text == menu@[i]
                    &&& e.base.x == x
                    &&& e.base.y == y + (3 + text@.len()) * (step as int) + i * (
                    step as int)
                    &&& e.base.font is None
                    &&& e.left_marker.font is None
                    &&& e.right_marker.font is None
                    &&& e.offset == 0
                    &&& e.max_offset == MARKER_MAX_OFFSET
                    &&& (e.active <==> i == 0)
                },
            r.coords_ok(),
    {
        let mut y2: i64 = y;
        let wave_title = WaveText::new(x, y2, step / 2, TITLE_SPEED, TITLE_SHIFT, title);
        proof {
            let s = step as int;
            let t = text@.len() as int;
            let m = menu@.len() as int;
            assert(s * (t + m + 3) == 2 * s + t * s + s + m * s && t * s >= 0 && m * s
                >= 0 && s * (t + m + 3) >= 0 && (3 + t) * s == 2 * s + t * s + s)
                by (nonlinear_arith)
                requires
                    s >= 0,
                    t >= 0,
                    m >= 0,
            ;
        }
        y2 = y2 + 2 * (step as i64);
        let text_y: i64 = y2;
        let text_labels = BaseMenu::create_text(x, &mut y2, step, text);
        y2 = y2 + (step as i64);
        let menu_entries = BaseMenu::create_menu(x, &mut y2, step, menu);
        let menu_item = MenuItem::new(menu_entries.len());
        proof {
            let s = step as int;
            let t = text@.len() as int;
            let m = menu@.len() as int;
            assert forall|i: int| 0 <= i < t implies 0 <= 2 * s + #[trigger] (i * s)
                <= s * (t + m + 3) by {
                assert(0 <= 2 * s + i * s <= s * (t + m + 3)) by (nonlinear_arith)
                    requires
                        s >= 0,
                        0 <= i < t,
                        m >= 0,
                ;
            }
            assert forall|i: int| 0 <= i < m implies 0 <= (3 + t) * s + #[trigger] (i
                * s) <= s * (t + m + 3) by {
                assert(0 <= (3 + t) * s + i * s <= s * (t + m + 3)) by (nonlinear_arith)
                    requires
                        s >= 0,
                        0 <= i < m,
                        t >= 0,
                ;
            }
        }
        BaseMenu {
            x,
            text_y,
            step,
            menu_item,
            title: wave_title,
            text: text_labels,
            menu: menu_entries,
        }
    }

    /// Build the description labels, one per line, `step` apart starting
    /// at `*y2`, advancing `*y2` past the block.
    pub fn create_text(x: i64, y2: &mut i64, step: u32, text: Vec<String>) -> (r: Vec<
        StaticText,
    >)
        requires
            *old(y2) + text@.len() * (step as int) <= i64::MAX,
            *old(y2) >= i64::MIN,
        ensures
            *final(y2) == *old(y2) + text@.len() * (step as int),
            r@.len() == text@.len(),
            forall|i: int|
                0 <= i < text@.len() ==> {
                    let l = #[trigger] r@[i];
                    &&& l.wf()
                    &&& l.text == text@[i]
                    &&& l.x == x
                    &&& l.y == *old(y2) + i * (step as int)
                    &&& l.font is None
                    &&& l.width == 0
                },
    {
        let mut result: Vec<StaticText> = Vec::new();
        let n = text.len();
        let mut i: usize = 0;
        while i < n
            invariant
                n == text@.len(),
                0 <= i <= n,
                *old(y2) + n * (step as int) <= i64::MAX,
                *old(y2) >= i64::MIN,
                *y2 == *old(y2) + i * (step as int),
                result@.len() == i,
                forall|j: int|
                    0 <= j < i ==> {
                        let l = #[trigger] result@[j];
                        &&& l.wf()
                        &&& l.text == text@[j]
                        &&& l.x == x
                        &&& l.y == *old(y2) + j * (step as int)
                        &&& l.font is None
                        &&& l.width == 0
                    },
            decreases n - i,
        {
            proof {
                assert((i + 1) * (step as int) <= n * (step as int) && i * (step as int)
                    >= 0 && (i + 1) * (step as int) == i * (step as int) + step)
                    by (nonlinear_arith)
                    requires
                        0 <= i < n,
                        step >= 0,
                ;
            }
            let item = StaticText::new(x, *y2, text[i].clone());
            result.push(item);
            *y2 = *y2 + (step as i64);
            i = i + 1;
        }
        result
    }

    /// Build the selectable entries, one per line, `step` apart starting
    /// at `*y2`, advancing `*y2` past the block; the first entry starts
    /// active.
    pub fn create_menu(x: i64, y2: &mut i64, step: u32, menu: Vec<String>) -> (r: Vec<
        SelectableText,
    >)
        requires
            *old(y2) + menu@.len() * (step as int) <= i64::MAX,
            *old(y2) >= i64::MIN,
        ensures
            *final(y2) == *old(y2) + menu@.len() * (step as int),
            r@.len() == menu@.len(),
            forall|i: int|
                0 <= i < menu@.len() ==> {
                    let e = #[trigger] r@[i];
                    &&& e.wf()
                    &&& e.base.text == menu@[i]
                    &&& e.base.x == x
                    &&& e.base.y == *old(y2) + i * (step as int)
                    &&& e.base.font is None
                    &&& e.base.width == 0
                    &&& e.left_marker.font is None
                    &&& e.right_marker.font is None
                    &&& e.left_marker.x == 0
                    &&& e.right_marker.x == 0
                    &&& e.offset == 0
                    &&& e.max_offset == MARKER_MAX_OFFSET
                    &&& (e.active <==> i == 0)
                },
    {
        let mut result: Vec<SelectableText> = Vec::new();
        let n = menu.len();
        let mut i: usize = 0;
        while i < n
            invariant
                n == menu@.len(),
                0 <= i <= n,
                *old(y2) + n * (step as int) <= i64::MAX,
                *old(y2) >= i64::MIN,
                *y2 == *old(y2) + i * (step as int),
                result@.len() == i,
                forall|j: int|
                    0 <= j < i ==> {
                        let e = #[trigger] result@[j];
                        &&& e.wf()
                        &&& e.base.text == menu@[j]
                        &&& e.base.x == x
                        &&& e.base.y == *old(y2) + j * (step as int)
                        &&& e.base.font is None
                        &&& e.base.width == 0
                        &&& e.left_marker.font is None
                        &&& e.right_marker.font is None
                        &&& e.left_marker.x == 0
                        &&& e.right_marker.x == 0
                        &&& e.offset == 0
                        &&& e.max_offset == MARKER_MAX_OFFSET
                        &&& (e.active <==> j == 0)
                    },
            decreases n - i,
        {
            proof {
                assert((i + 1) * (step as int) <= n * (step as int) && i * (step as int)
                    >= 0 && (i + 1) * (step as int) == i * (step as int) + step)
                    by (nonlinear_arith)
                    requires
                        0 <= i < n,
                        step >= 0,
                ;
            }
            let mut entry = SelectableText::new(x, *y2, MARKER_MAX_OFFSET, menu[i].clone());
            if i == 0 {
                entry.set_active(true);
            }
            result.push(entry);
            *y2 = *y2 + (step as i64);
            i = i + 1;
        }
        result
    }

    /// React to one event: `Up` and `Down` move the selection with
    /// wraparound and hand the active marker from the old entry to the
    /// new one in the same step, so that exactly one entry is active at
    /// every moment; every other event is ignored here.
    pub fn process(&mut self, event: &MenuEvent)
        requires
            old(self).wf(),
        ensures
            final(self).wf(),
            *final(self) == (BaseMenu {
                menu_item: final(self).menu_item,
                menu: final(self).menu,
                ..*old(self)
            }),
            final(self).menu_item.num_of_items == old(self).menu_item.num_of_items,
            final(self).menu_item.selected as nat == match event {
                MenuEvent::Up => up_index(
                    old(self).menu_item.selected as nat,
                    old(self).menu_item.num_of_items as nat,
                ),
                MenuEvent::Down => down_index(
                    old(self).menu_item.selected as nat,
                    old(self).menu_item.num_of_items as nat,
                ),
                _ => old(self).menu_item.selected as nat,
            },
            final(self).menu@.len() == old(self).menu@.len(),
            forall|i: int|
                0 <= i < old(self).menu@.len() ==> #[trigger] final(self).menu@[i]
                    == (SelectableText {
                    active: i == final(self).menu_item.selected,
                    ..old(self).menu@[i]
                }),
            !(event is Up) && !(event is Down) ==> *final(self) == *old(self),
    {
        match event {
            MenuEvent::Up => {
                let old_sel = self.menu_item.selected;
                self.menu_item.up();
                let new_sel = self.menu_item.selected;
                if old_sel != new_sel {
                    self.menu[old_sel].set_active(false);
                    self.menu[new_sel].set_active(true);
                }
                proof {
                    Self::lemma_entry_identity(old(self).menu@, self.menu@, old_sel as int, new_sel as int);
                }
            },
            MenuEvent::Down => {
                let old_sel = self.menu_item.selected;
                self.menu_item.down();
                let new_sel = self.menu_item.selected;
                if old_sel != new_sel {
                    self.menu[old_sel].set_active(false);
                    self.menu[new_sel].set_active(true);
                }
                proof {
                    Self::lemma_entry_identity(old(self).menu@, self.menu@, old_sel as int, new_sel as int);
                }
            },
            _ => {
                proof {
                    Self::lemma_entry_identity(
                        old(self).menu@,
                        self.menu@,
                        old(self).menu_item.selected as int,
                        old(self).menu_item.selected as int,
                    );
                }
            },
        }
    }

    /// Rebuilding an entry from all its own fields gives the entry
    /// itself, so a menu whose selection did not move is described by the
    /// same clause as one whose selection did.
    proof fn lemma_entry_identity(
        before: Seq<SelectableText>,
        after: Seq<SelectableText>,
        old_sel: int,
        new_sel: int,
    )
        requires
            before.len() == after.len(),
            0 <= old_sel < before.len(),
            0 <= new_sel < before.len(),
            forall|i: int|
                0 <= i < before.len() ==> ((#[trigger] before[i]).active <==> i
                    == old_sel),
            old_sel != new_sel ==> after == before.update(
                old_sel,
                SelectableText { active: false, ..before[old_sel] },
            ).update(new_sel, SelectableText { active: true, ..before[new_sel] }),
            old_sel == new_sel ==> after == before,
        ensures
            forall|i: int|
                0 <= i < before.len() ==> #[trigger] after[i] == (SelectableText {
                    active: i == new_sel,
                    ..before[i]
                }),
            forall|i: int|
                0 <= i < after.len() ==> ((#[trigger] after[i]).active <==> i
                    == new_sel),
    {
        assert forall|i: int| 0 <= i < before.len() implies #[trigger] after[i]
            == (SelectableText { active: i == new_sel, ..before[i] }) by {
            if old_sel == new_sel {
                assert(after[i] == before[i]);
                assert(before[i].active <==> i == new_sel);
            }
        }
    }

    /// One animation tick, as [`BaseMenu::update`] performs it: the
    /// title wave advances one step, the active entry's breathing marker
    /// advances one step, and nothing else moves.
    pub open spec fn update_spec(pre: BaseMenu, post: BaseMenu) -> bool {
        &&& post == (BaseMenu { title: post.title, menu: post.menu, ..pre })
        &&& post.title == (WaveText { phase: post.title.phase, ..pre.title })
        &&& post.title.phase as int == if pre.title.active {
            crate::text_fx::next_phase(pre.title.phase as int, pre.title.speed as int)
        } else {
            pre.title.phase as int
        }
        &&& 0 <= post.title.phase < crate::trig::FULL_TURN
        &&& post.menu@ == pre.menu@.update(
            pre.menu_item.selected as int,
            SelectableText {
                offset: (crate::cycle::cyclic_next(
                    pre.menu@[pre.menu_item.selected as int].offset as nat,
                    pre.menu@[pre.menu_item.selected as int].max_offset as nat,
                )) as u32,
                ..pre.menu@[pre.menu_item.selected as int]
            },
        )
    }

    /// Advance the animations by one tick: the title wave, and the
    /// breathing marker of the active entry.  Inactive entries are not
    /// updated, a deliberate policy: their markers are invisible, and a
    /// frozen offset lets a reactivated entry resume its cycle where it
    /// stopped.
    pub fn update(&mut self)
        requires
            old(self).wf(),
        ensures
            final(self).wf(),
            Self::update_spec(*old(self), *final(self)),
    {
        self.title.update();
        let sel = self.menu_item.selected;
        self.menu[sel].update();
        proof {
            assert(old(self).menu@[sel as int].active);
            assert(self.menu@ =~= old(self).menu@.update(
                sel as int,
                SelectableText {
                    offset: (crate::cycle::cyclic_next(
                        old(self).menu@[sel as int].offset as nat,
                        old(self).menu@[sel as int].max_offset as nat,
                    )) as u32,
                    ..old(self).menu@[sel as int]
                },
            ));
        }
    }

    /// Append the blits of the whole screen: title, then description
    /// lines, then entries.
    pub fn draw(&self, out: &mut Vec<Blit>)
        requires
            self.wf(),
            self.coords_ok(),
        ensures
            final(out)@ == old(out)@ + self.blits(),
    {
        self.title.draw(out);
        let ghost after_title = out@;
        let n = self.text.len();
        let mut i: usize = 0;
        proof {
            assert(self.text@.take(0) =~= Seq::<StaticText>::empty());
            assert(out@ =~= after_title + labels_blits(self.text@.take(0)));
        }
        while i < n
            invariant
                self.wf(),
                self.coords_ok(),
                n == self.text@.len(),
                0 <= i <= n,
                out@ == after_title + labels_blits(self.text@.take(i as int)),
            decreases n - i,
        {
            proof {
                lemma_labels_blits_push(self.text@.take(i as int), self.text@[i as int]);
                assert(self.text@.take(i + 1) =~= self.text@.take(i as int).push(
                    self.text@[i as int],
                ));
            }
            self.text[i].draw(out);
            i = i + 1;
        }
        proof {
            assert(self.text@.take(n as int) =~= self.text@);
        }
        let ghost after_text = out@;
        let m = self.menu.len();
        let mut j: usize = 0;
        proof {
            assert(self.menu@.take(0) =~= Seq::<SelectableText>::empty());
            assert(out@ =~= after_text + entries_blits(self.menu@.take(0)));
        }
        while j < m
            invariant
                self.wf(),
                self.coords_ok(),
                m == self.menu@.len(),
                0 <= j <= m,
                out@ == after_text + entries_blits(self.menu@.take(j as int)),
            decreases m - j,
        {
            proof {
                lemma_entries_blits_push(self.menu@.take(j as int), self.menu@[j as int]);
                assert(self.menu@.take(j + 1) =~= self.menu@.take(j as int).push(
                    self.menu@[j as int],
                ));
            }
            self.menu[j].draw(out);
            j = j + 1;
        }
        proof {
            assert(self.menu@.take(m as int) =~= self.menu@);
            assert(out@ =~= old(out)@ + self.blits());
        }
    }

    pub fn get_selected(&self) -> (r: usize)
        ensures
            r == self.menu_item.selected,
    {
        self.menu_item.selected
    }

    /// The single-active invariant: in every well-formed menu exactly
    /// one entry is active, and it is the entry at the selected index.
    /// Since well-formedness is preserved by every operation, this holds
    /// after any sequence of events.
    pub proof fn lemma_single_active(&self)
        requires
            self.wf(),
        ensures
            self.menu@[self.menu_item.selected as int].active,
            forall|i: int, j: int|
                (0 <= i < self.menu@.len() && 0 <= j < self.menu@.len() && (
                #[trigger] self.menu@[i]).active && (#[trigger] self.menu@[j]).active)
                    ==> i == j,
    {
    }

    /// An entry after the shared font was attached: font, bounding box
    /// and marker resting positions re-derived, the entry re-centered on
    /// its previous position, everything else untouched.
    pub open spec fn entry_with_font(e0: SelectableText, e1: SelectableText, f: Font) -> bool {
        let nw = (f.width as int) * e0.base.text@.len();
        &&& e1.wf()
        &&& e1.markers_synced()
        &&& e1.base.text == e0.base.text
        &&& e1.base.y == e0.base.y
        &&& e1.base.font == Some(f)
        &&& e1.base.width as int == nw
        &&& e1.base.height == f.height
        &&& e1.base.x as int == e0.base.x - nw / 2
        &&& e1.active == e0.active
        &&& e1.offset == e0.offset
        &&& e1.max_offset == e0.max_offset
    }

    /// Attach the shared font everywhere: the title is re-centered, the
    /// description block is re-aligned to its widest line, and every
    /// entry is re-centered with its markers re-derived.
    pub fn set_font(&mut self, font: &Font)
        requires
            old(self).wf(),
            font.wf(),
            old(self).coords_ok(),
            old(self).font_fits(*font),
        ensures
            final(self).wf(),
            *final(self) == (BaseMenu {
                title: final(self).title,
                text: final(self).text,
                menu: final(self).menu,
                ..*old(self)
            }),
            final(self).title == (WaveText {
                base: final(self).title.base,
                ..old(self).title
            }),
            final(self).title.base == (StaticText {
                x: final(self).title.base.x,
                width: final(self).title.base.width,
                height: font.height,
                font: Some(*font),
                ..old(self).title.base
            }),
            final(self).title.base.width as int == (font.width as int)
                * old(self).title.base.text@.len(),
            final(self).title.base.x as int == old(self).title.base.x - (
            font.width as int) * old(self).title.base.text@.len() / 2,
            final(self).text@.len() == old(self).text@.len(),
            forall|i: int|
                0 <= i < old(self).text@.len() ==> #[trigger] final(self).text@[i]
                    == (StaticText {
                    x: final(self).text@[i].x,
                    width: final(self).text@[i].width,
                    height: font.height,
                    font: Some(*font),
                    ..old(self).text@[i]
                }),
            forall|i: int|
                0 <= i < old(self).text@.len()
                    ==> (#[trigger] final(self).text@[i]).width as int == (
                font.width as int) * old(self).text@[i].text@.len(),
            forall|i: int|
                0 <= i < old(self).text@.len()
                    ==> (#[trigger] final(self).text@[i]).x as int == old(self).x
                    - max_label_width(final(self).text@) / 2,
            final(self).menu@.len() == old(self).menu@.len(),
            forall|i: int|
                0 <= i < old(self).menu@.len() ==> Self::entry_with_font(
                    old(self).menu@[i],
                    #[trigger] final(self).menu@[i],
                    *font,
                ),
    {
        self.title.set_font(font);
        self.title.center();
        let ghost title_snapshot = self.title;
        let n = self.text.len();
        let mut i: usize = 0;
        while i < n
            invariant
                n == self.text@.len(),
                n == old(self).text@.len(),
                0 <= i <= n,
                font.wf(),
                self.x == old(self).x,
                self.text_y == old(self).text_y,
                self.step == old(self).step,
                self.menu_item == old(self).menu_item,
                self.title == title_snapshot,
                self.menu == old(self).menu,
                forall|j: int|
                    0 <= j < n ==> (font.width as int) * (#[trigger] old(
                        self,
                    ).text@[j]).text@.len() <= u32::MAX,
                forall|j: int|
                    i <= j < n ==> #[trigger] self.text@[j] == old(self).text@[j],
                forall|j: int|
                    0 <= j < n ==> (#[trigger] old(self).text@[j]).wf(),
                forall|j: int|
                    0 <= j < i ==> #[trigger] self.text@[j] == (StaticText {
                        width: self.text@[j].width,
                        height: font.height,
                        font: Some(*font),
                        ..old(self).text@[j]
                    }),
                forall|j: int|
                    0 <= j < i ==> (#[trigger] self.text@[j]).width as int == (
                    font.width as int) * old(self).text@[j].text@.len(),
                forall|j: int| 0 <= j < i ==> (#[trigger] self.text@[j]).wf(),
            decreases n - i,
        {
            self.text[i].set_font(font);
            i = i + 1;
        }
        let ghost pre_align = self.text@;
        self.align_text();
        proof {
            lemma_max_label_width_congruent(pre_align, self.text@);
        }
        let ghost text_snapshot = self.text;
        let m = self.menu.len();
        let mut j: usize = 0;
        while j < m
            invariant
                m == self.menu@.len(),
                m == old(self).menu@.len(),
                0 <= j <= m,
                font.wf(),
                self.x == old(self).x,
                self.text_y == old(self).text_y,
                self.step == old(self).step,
                self.menu_item == old(self).menu_item,
                self.title == title_snapshot,
                self.text == text_snapshot,
                forall|k: int|
                    0 <= k < m ==> (font.width as int) * (#[trigger] old(
                        self,
                    ).menu@[k]).base.text@.len() <= u32::MAX,
                (font.width as int) * 2 <= u32::MAX,
                forall|k: int|
                    0 <= k < m ==> coord_ok(
                        (#[trigger] old(self).menu@[k]).base.x as int,
                    ),
                forall|k: int|
                    j <= k < m ==> #[trigger] self.menu@[k] == old(self).menu@[k],
                forall|k: int|
                    0 <= k < m ==> (#[trigger] old(self).menu@[k]).wf(),
                forall|k: int|
                    0 <= k < j ==> Self::entry_with_font(
                        old(self).menu@[k],
                        #[trigger] self.menu@[k],
                        *font,
                    ),
            decreases m - j,
        {
            self.menu[j].set_font(font);
            self.menu[j].center();
            j = j + 1;
        }
    }

    /// Horizontally center the description block as one unit: every line
    /// is moved to the `x` where the widest line would be centered on the
    /// menu's anchor.
    fn align_text(&mut self)
        requires
            coord_ok(old(self).x as int),
        ensures
            *final(self) == (BaseMenu { text: final(self).text, ..*old(self) }),
            final(self).text@.len() == old(self).text@.len(),
            forall|i: int|
                0 <= i < old(self).text@.len() ==> #[trigger] final(self).text@[i]
                    == (StaticText {
                    x: ((old(self).x - max_label_width(old(self).text@) / 2)) as i64,
                    ..old(self).text@[i]
                }),
            forall|i: int|
                0 <= i < old(self).text@.len()
                    ==> (#[trigger] final(self).text@[i]).x as int == old(self).x
                    - max_label_width(old(self).text@) / 2,
    {
        let n = self.text.len();
        if n == 0 {
            return ;
        }
        let mut widest: u32 = 0;
        let mut i: usize = 0;
        proof {
            assert(self.text@.take(0) =~= Seq::<StaticText>::empty());
        }
        while i < n
            invariant
                n == self.text@.len(),
                0 <= i <= n,
                *self == *old(self),
                widest as int == max_label_width(self.text@.take(i as int)),
            decreases n - i,
        {
            proof {
                assert(self.text@.take(i + 1).drop_last() =~= self.text@.take(i as int));
                assert(self.text@.take(i + 1).last() == self.text@[i as int]);
            }
            let w = self.text[i].get_width();
            if w > widest {
                widest = w;
            }
            i = i + 1;
        }
        proof {
            assert(self.text@.take(n as int) =~= self.text@);
        }
        let new_x: i64 = self.x - ((widest / 2) as i64);
        let mut j: usize = 0;
        while j < n
            invariant
                n == self.text@.len(),
                n == old(self).text@.len(),
                0 <= j <= n,
                self.x == old(self).x,
                self.text_y == old(self).text_y,
                self.step == old(self).step,
                self.menu_item == old(self).menu_item,
                self.title == old(self).title,
                self.menu == old(self).menu,
                new_x as int == old(self).x - max_label_width(old(self).text@) / 2,
                forall|k: int|
                    j <= k < n ==> #[trigger] self.text@[k] == old(self).text@[k],
                forall|k: int|
                    0 <= k < j ==> #[trigger] self.text@[k] == (StaticText {
                        x: new_x,
                        ..old(self).text@[k]
                    }),
            decreases n - j,
        {
            self.text[j].set_x(new_x);
            j = j + 1;
        }
    }

    /// Replace the text of the entry at `index`, recomputing its bounding
    /// box and marker resting positions.  Used by the option screens to
    /// refresh a value readout.
    pub fn change_menu(&mut self, index: usize, new_text: String)
        requires
            old(self).wf(),
            index < old(self).menu@.len(),
            coord_roomy(old(self).menu@[index as int].base.x as int),
            match old(self).menu@[index as int].base.font {
                Some(f) => (f.width as int) * new_text@.len() <= u32::MAX,
                None => true,
            },
        ensures
            final(self).wf(),
            *final(self) == (BaseMenu { menu: final(self).menu, ..*old(self) }),
            final(self).menu@.len() == old(self).menu@.len(),
            forall|i: int|
                0 <= i < old(self).menu@.len() && i != index
                    ==> #[trigger] final(self).menu@[i] == old(self).menu@[i],
            ({
                let e0 = old(self).menu@[index as int];
                let e1 = final(self).menu@[index as int];
                &&& e1.wf()
                &&& e1.markers_synced()
                &&& e1.base.text == new_text
                &&& e1.base.width as int == match e0.base.font {
                    Some(f) => (f.width as int) * new_text@.len(),
                    None => 0,
                }
                &&& e1 == (SelectableText {
                    base: e1.base,
                    left_marker: e1.left_marker,
                    right_marker: e1.right_marker,
                    ..e0
                })
                &&& e1.base == (StaticText { width: e1.base.width, text: new_text, ..e0.base })
                &&& e1.left_marker == (StaticText { x: e1.left_marker.x, ..e0.left_marker })
                &&& e1.right_marker == (StaticText { x: e1.right_marker.x, ..e0.right_marker })
            }),
    {
        self.menu[index].set_text(new_text);
    }

    /// Replace the description block with new lines, laid out from
    /// `text_y` one step apart, set in the shared font when one is
    /// attached, and re-aligned to the widest line.
    pub fn set_text(&mut self, text: Vec<String>)
        requires
            old(self).wf(),
            coord_ok(old(self).x as int),
            coord_ok(old(self).text_y as int),
            coord_ok(old(self).text_y + (old(self).step as int) * text@.len()),
            match old(self).title.base.font {
                Some(f) => forall|i: int|
                    0 <= i < text@.len() ==> (f.width as int) * (#[trigger] text@[i])@.len()
                        <= u32::MAX,
                None => true,
            },
        ensures
            final(self).wf(),
            *final(self) == (BaseMenu { text: final(self).text, ..*old(self) }),
            final(self).text@.len() == text@.len(),
            forall|i: int|
                0 <= i < text@.len() ==> {
                    let l = #[trigger] final(self).text@[i];
                    &&& l.wf()
                    &&& l.text == text@[i]
                    &&& l.y == old(self).text_y + i * (old(self).step as int)
                    &&& l.font == old(self).title.base.font
                    &&& l.width as int == match old(self).title.base.font {
                        Some(f) => (f.width as int) * text@[i]@.len(),
                        None => 0,
                    }
                    &&& l.x as int == old(self).x - max_label_width(final(self).text@)
                        / 2
                },
    {
        let mut y2: i64 = self.text_y;
        proof {
            let s = self.step as int;
            let t = text@.len() as int;
            assert(s * t >= 0) by (nonlinear_arith)
                requires
                    s >= 0,
                    t >= 0,
            ;
        }
        let labels = BaseMenu::create_text(self.x, &mut y2, self.step, text);
        self.text = labels;
        let font_opt: Option<Font> = self.title.base.font;
        if let Some(f) = font_opt {
            let n = self.text.len();
            let mut i: usize = 0;
            while i < n
                invariant
                    n == self.text@.len(),
                    n == text@.len(),
                    0 <= i <= n,
                    f.wf(),
                    self.x == old(self).x,
                    self.text_y == old(self).text_y,
                    self.step == old(self).step,
                    self.menu_item == old(self).menu_item,
                    self.title == old(self).title,
                    self.menu == old(self).menu,
                    forall|j: int|
                        0 <= j < n ==> (f.width as int) * (#[trigger] text@[j])@.len()
                            <= u32::MAX,
                    forall|j: int|
                        i <= j < n ==> {
                            let l = #[trigger] self.text@[j];
                            &&& l.wf()
                            &&& l.text == text@[j]
                            &&& l.x == old(self).x
                            &&& l.y == old(self).text_y + j * (old(self).step as int)
                            &&& l.font is None
                            &&& l.width == 0
                        },
                    forall|j: int|
                        0 <= j < i ==> {
                            let l = #[trigger] self.text@[j];
                            &&& l.wf()
                            &&& l.text == text@[j]
                            &&& l.x == old(self).x
                            &&& l.y == old(self).text_y + j * (old(self).step as int)
                            &&& l.font == Some(f)
                            &&& l.width as int == (f.width as int) * text@[j]@.len()
                        },
                decreases n - i,
            {
                self.text[i].set_font(&f);
                i = i + 1;
            }
        }
        let ghost pre_align = self.text@;
        self.align_text();
        proof {
            lemma_max_label_width_congruent(pre_align, self.text@);
        }
    }
}

} // verus!
