//! The persistent high-score table and its menu screen.
//!
//! The table is an ordered list of `(score, name)` pairs, kept sorted by
//! score, highest first.  Its JSON text is produced and consumed through
//! `serde_json` on the plain pair list; reading and writing the file is
//! the embedding program's job.

use crate::game::GameScreen;
use crate::menu::BaseMenu;
use crate::menu::MenuEvent;
use crate::menu::coord_ok;
use crate::menu::down_index;
use crate::menu::up_index;
use vstd::prelude::*;
use vstd::multiset::Multiset;
use vstd::seq_lib::group_to_multiset_ensures;
use vstd::string::StringExecFns;

verus! {

/// Sorted by score, highest first.
pub open spec fn sorted_desc(s: Seq<(u32, String)>) -> bool {
    forall|i: int, j: int| 0 <= i < j < s.len() ==> (#[trigger] s[i]).0 >= (#[trigger] s[j]).0
}

/// The display line of one table row: the score, a separator, the name.
pub open spec fn score_line(score: nat, name: Seq<char>) -> Seq<char> {
    crate::decimal::spec_decimal(score) + " - "@ + name
}

/// The JSON text that `serde_json` produces for a score list.
///
/// Relies on `serde_json::to_string`: the text is a function of the value
/// alone.
pub uninterp spec fn scores_json(s: Seq<(u32, String)>) -> Seq<char>;

/// What `serde_json` parses a text into, when it parses at all.
///
/// Relies on `serde_json::from_str`: the outcome is a function of the
/// text alone.
pub uninterp spec fn scores_of_json(s: Seq<char>) -> Option<Seq<(u32, String)>>;

/// Relies on `serde_json::to_string` to render the pair list as JSON.
///
/// Encoding this type cannot fail: `to_string` errors only when a
/// `Serialize` impl fails or a map has non-string keys, and the impls for
/// vectors, pairs, `u32` and `String` do neither — so success is owed.
/// The format round-trips: `from_str` parses the produced text back into
/// exactly the encoded pairs, which ties the two names together.
#[verifier::external_body]
fn scores_to_json(scores: &Vec<(u32, String)>) -> (r: Option<String>)
    ensures
        r is Some,
        r matches Some(j) ==> j@ == scores_json(scores@),
        r matches Some(j) ==> scores_of_json(j@) == Some(scores@),
{
    serde_json::to_string(scores).ok()
}

/// Relies on `serde_json::from_str` to parse JSON into the pair list; any
/// read or type mismatch surfaces as `None`.
#[verifier::external_body]
fn scores_from_json(data: &str) -> (r: Option<Vec<(u32, String)>>)
    ensures
        match r {
            Some(v) => scores_of_json(data@) == Some(v@),
            None => scores_of_json(data@) is None,
        },
{
    serde_json::from_str(data).ok()
}

/// The high-score table: `(score, name)` pairs, highest score first.
#[derive(Debug)]
pub struct HighScore {
    pub scores: Vec<(u32, String)>,
}

impl HighScore {
    /// The default table: ten descending scores under one name.
    pub fn new() -> (r: HighScore)
        ensures
            r.scores@.len() == 10,
            forall|i: int|
                0 <= i < 10 ==> (#[trigger] r.scores@[i]).0 == 1000 - 100 * i,
            forall|i: int|
                0 <= i < 10 ==> (#[trigger] r.scores@[i]).1@ == "WILLI KAPPLER"@,
            sorted_desc(r.scores@),
    {
        let name = "WILLI KAPPLER";
        let mut scores: Vec<(u32, String)> = Vec::new();
        scores.push((1000, String::from_str(name)));
        scores.push((900, String::from_str(name)));
        scores.push((800, String::from_str(name)));
        scores.push((700, String::from_str(name)));
        scores.push((600, String::from_str(name)));
        scores.push((500, String::from_str(name)));
        scores.push((400, String::from_str(name)));
        scores.push((300, String::from_str(name)));
        scores.push((200, String::from_str(name)));
        scores.push((100, String::from_str(name)));
        HighScore { scores }
    }

    /// The display lines of the table, one per row, in table order.
    pub fn to_text(&self) -> (r: Vec<String>)
        ensures
            r@.len() == self.scores@.len(),
            forall|i: int|
                0 <= i < self.scores@.len() ==> (#[trigger] r@[i])@ == score_line(
                    self.scores@[i].0 as nat,
                    self.scores@[i].1@,
                ),
    {
        let mut result: Vec<String> = Vec::new();
        let n = self.scores.len();
        let mut i: usize = 0;
        while i < n
            invariant
                n == self.scores@.len(),
                0 <= i <= n,
                result@.len() == i,
                forall|j: int|
                    0 <= j < i ==> (#[trigger] result@[j])@ == score_line(
                        self.scores@[j].0 as nat,
                        self.scores@[j].1@,
                    ),
            decreases n - i,
        {
            let mut line = crate::decimal::to_decimal(self.scores[i].0);
            line.append(" - ");
            line.append(self.scores[i].1.as_str());
            result.push(line);
            i = i + 1;
        }
        result
    }

    /// Re-sort the table by score, highest first.  The rows are
    /// rearranged, never changed: the new list holds exactly the rows of
    /// the old one.
    pub fn sort_descending(&mut self)
        ensures
            sorted_desc(final(self).scores@),
            final(self).scores@.to_multiset() == old(self).scores@.to_multiset(),
            final(self).scores@.len() == old(self).scores@.len(),
    {
        broadcast use group_to_multiset_ensures;
        broadcast use vstd::multiset::group_multiset_axioms;

        let mut sorted: Vec<(u32, String)> = Vec::new();
        proof {
            assert(sorted@ =~= Seq::<(u32, String)>::empty());
            assert(sorted@.to_multiset() =~= Multiset::<(u32, String)>::empty());
            assert(sorted@.to_multiset().add(self.scores@.to_multiset())
                =~= old(self).scores@.to_multiset());
        }
        while self.scores.len() > 0
            invariant
                sorted_desc(sorted@),
                forall|p: int, q: int|
                    0 <= p < sorted@.len() && 0 <= q < self.scores@.len() ==> (
                    #[trigger] sorted@[p]).0 >= (#[trigger] self.scores@[q]).0,
                sorted@.to_multiset().add(self.scores@.to_multiset()) == old(
                    self,
                ).scores@.to_multiset(),
                sorted@.len() + self.scores@.len() == old(self).scores@.len(),
            decreases self.scores@.len(),
        {
            let n = self.scores.len();
            let mut best: usize = 0;
            let mut j: usize = 1;
            while j < n
                invariant
                    n == self.scores@.len(),
                    n >= 1,
                    0 <= best < j || (j <= 1 && best == 0),
                    best < n,
                    1 <= j <= n,
                    forall|k: int|
                        0 <= k < j ==> (#[trigger] self.scores@[k]).0
                            <= self.scores@[best as int].0,
                decreases n - j,
            {
                if self.scores[j].0 > self.scores[best].0 {
                    best = j;
                }
                j = j + 1;
            }
            let ghost pre = self.scores@;
            let item = self.scores.remove(best);
            proof {
                assert(item == pre[best as int]);
                assert(self.scores@ =~= pre.remove(best as int));
                vstd::seq_lib::to_multiset_remove(pre, best as int);
                assert(self.scores@.to_multiset() == pre.to_multiset().remove(item));
                vstd::seq_lib::to_multiset_contains(pre, item);
                assert(pre.contains(item)) by {
                    assert(pre[best as int] == item);
                }
                assert(pre.to_multiset().count(item) > 0);
                vstd::seq_lib::to_multiset_build(sorted@, item);
                assert(sorted@.push(item).to_multiset().add(self.scores@.to_multiset())
                    =~= sorted@.to_multiset().add(pre.to_multiset()));
                assert forall|q: int| 0 <= q < self.scores@.len() implies (
                #[trigger] self.scores@[q]).0 <= item.0 by {
                    if q < best {
                        assert(self.scores@[q] == pre[q]);
                    } else {
                        assert(self.scores@[q] == pre[q + 1]);
                    }
                }
            }
            sorted.push(item);
        }
        self.scores = sorted;
    }

    /// The JSON text of the table; an encoding error surfaces as `None`.
    pub fn to_json(&self) -> (r: Option<String>)
        ensures
            r matches Some(j) && j@ == scores_json(self.scores@),
            r matches Some(j) ==> scores_of_json(j@) == Some(self.scores@),
    {
        scores_to_json(&self.scores)
    }

    /// Parse a table from JSON text and sort it by score, highest first.
    /// Returns `None` exactly when the text does not parse as a pair
    /// list.
    pub fn from_json(data: &str) -> (r: Option<HighScore>)
        ensures
            match r {
                Some(h) => {
                    &&& scores_of_json(data@) matches Some(v) && h.scores@.to_multiset()
                        == v.to_multiset() && h.scores@.len() == v.len()
                    &&& sorted_desc(h.scores@)
                },
                None => scores_of_json(data@) is None,
            },
    {
        match scores_from_json(data) {
            None => None,
            Some(v) => {
                let mut table = HighScore { scores: v };
                table.sort_descending();
                Some(table)
            },
        }
    }
}

/// The high-score screen: the table rendered as description lines over a
/// single `BACK` entry.
pub struct HighScoreMenu {
    pub base: BaseMenu,
    pub high_score: HighScore,
}

impl HighScoreMenu {
    /// The table lines fit this menu's layout under the given cell
    /// width: every rendered row keeps its bounding box within `u32`.
    pub open spec fn table_fits(&self, cell_width: int) -> bool {
        forall|i: int|
            0 <= i < self.high_score.scores@.len() ==> cell_width * score_line(
                (#[trigger] self.high_score.scores@[i]).0 as nat,
                self.high_score.scores@[i].1@,
            ).len() <= u32::MAX
    }

    pub fn new() -> (r: HighScoreMenu)
        ensures
            r.base.wf(),
            r.base.coords_ok(),
            r.base.menu_item.num_of_items == 1,
            r.base.menu_item.selected == 0,
            r.base.text@.len() == 10,
            r.high_score.scores@.len() == 10,
            sorted_desc(r.high_score.scores@),
            r.base.title.base.font is None,
    {
        let high_score = HighScore::new();
        let lines = high_score.to_text();
        let mut entries: Vec<String> = Vec::new();
        entries.push(String::from_str("BACK"));
        let base = BaseMenu::new(400, 100, 30, String::from_str("CREDITS"), lines, entries);
        HighScoreMenu { base, high_score }
    }

    /// What one processed event does, relating the states before and
    /// after: confirm returns to the main menu; everything else is
    /// handled by the base menu (with a single entry, the selection
    /// never moves) and leaves the navigation state alone.
    pub open spec fn process_spec(
        pre: HighScoreMenu,
        post: HighScoreMenu,
        event: MenuEvent,
        screen0: GameScreen,
        screen1: GameScreen,
    ) -> bool {
        match event {
            MenuEvent::Confirm => post == pre && screen1.current_screen
                == crate::game::GameScreenKind::MainMenu,
            _ => screen1 == screen0 && post.base.menu_item.selected as nat
                == (match event {
                MenuEvent::Up => up_index(
                    pre.base.menu_item.selected as nat,
                    pre.base.menu_item.num_of_items as nat,
                ),
                MenuEvent::Down => down_index(
                    pre.base.menu_item.selected as nat,
                    pre.base.menu_item.num_of_items as nat,
                ),
                _ => pre.base.menu_item.selected as nat,
            }),
        }
    }

    /// React to one event, as [`HighScoreMenu::process_spec`] relates
    /// the states before and after the call.
    pub fn process(&mut self, event: &MenuEvent, game_screen: &mut GameScreen)
        requires
            old(self).base.wf(),
        ensures
            final(self).base.wf(),
            final(self).high_score == old(self).high_score,
            Self::process_spec(
                *old(self),
                *final(self),
                *event,
                *old(game_screen),
                *final(game_screen),
            ),
    {
        match event {
            MenuEvent::Confirm => {
                game_screen.main_menu();
            },
            _ => {
                self.base.process(event);
            },
        }
    }

    /// Advance the title wave and the active entry's marker by one tick.
    pub fn update(&mut self)
        requires
            old(self).base.wf(),
        ensures
            final(self).base.wf(),
            final(self).high_score == old(self).high_score,
            BaseMenu::update_spec(old(self).base, final(self).base),
    {
        self.base.update();
    }

    /// Append the blits of the screen.
    pub fn draw(&self, out: &mut Vec<crate::text_fx::Blit>)
        requires
            self.base.wf(),
            self.base.coords_ok(),
        ensures
            final(out)@ == old(out)@ + self.base.blits(),
    {
        self.base.draw(out);
    }

    /// Attach the shared font and re-render the table into the
    /// description block.
    pub fn set_font(&mut self, font: &crate::text_fx::Font)
        requires
            old(self).base.wf(),
            font.wf(),
            old(self).base.coords_ok(),
            old(self).base.font_fits(*font),
            old(self).table_fits(font.width as int),
            coord_ok(
                old(self).base.text_y + (old(self).base.step as int) * old(
                    self,
                ).high_score.scores@.len(),
            ),
        ensures
            final(self).base.wf(),
            final(self).high_score == old(self).high_score,
            final(self).base.title.base.font == Some(*font),
            final(self).base.text@.len() == old(self).high_score.scores@.len(),
            forall|i: int|
                0 <= i < old(self).high_score.scores@.len() ==> (#[trigger] final(self).base.text@[i]).text@ == score_line(
                    old(self).high_score.scores@[i].0 as nat,
                    old(self).high_score.scores@[i].1@,
                ),
            forall|i: int|
                0 <= i < old(self).high_score.scores@.len() ==> (#[trigger] final(self).base.text@[i]).font == Some(*font),
    {
        self.base.set_font(font);
        let lines = self.high_score.to_text();
        self.base.set_text(lines);
    }

    /// Take over a table parsed from JSON text; the stored table is
    /// replaced only when the text parses, and arrives sorted by score,
    /// highest first.  The rendered lines are not touched here: call
    /// [`HighScoreMenu::refresh_table`] to re-render them.
    pub fn load(&mut self, data: &str) -> (r: bool)
        ensures
            final(self).base == old(self).base,
            r <==> scores_of_json(data@) is Some,
            r ==> (scores_of_json(data@) matches Some(v) && final(self)
                .high_score.scores@.to_multiset() == v.to_multiset() && sorted_desc(
                final(self).high_score.scores@,
            )),
            !r ==> *final(self) == *old(self),
    {
        match HighScore::from_json(data) {
            Some(table) => {
                self.high_score = table;
                true
            },
            None => false,
        }
    }

    /// Re-render the stored table into the description block.
    pub fn refresh_table(&mut self)
        requires
            old(self).base.wf(),
            old(self).base.coords_ok(),
            match old(self).base.title.base.font {
                Some(f) => old(self).table_fits(f.width as int),
                None => true,
            },
            coord_ok(
                old(self).base.text_y + (old(self).base.step as int) * old(
                    self,
                ).high_score.scores@.len(),
            ),
        ensures
            final(self).base.wf(),
            final(self).high_score == old(self).high_score,
            final(self).base.text@.len() == old(self).high_score.scores@.len(),
            forall|i: int|
                0 <= i < old(self).high_score.scores@.len() ==> (#[trigger] final(self).base.text@[i]).text@ == score_line(
                    old(self).high_score.scores@[i].0 as nat,
                    old(self).high_score.scores@[i].1@,
                ),
    {
        let lines = self.high_score.to_text();
        self.base.set_text(lines);
    }

    /// The JSON text of the stored table; an encoding error surfaces as
    /// `None`.
    pub fn save(&self) -> (r: Option<String>)
        ensures
            r matches Some(j) && j@ == scores_json(self.high_score.scores@),
            r matches Some(j) ==> scores_of_json(j@) == Some(self.high_score.scores@),
    {
        self.high_score.to_json()
    }
}

} // verus!
