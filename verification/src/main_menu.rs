//! The main menu screen: the top-level entry list plus a frame counter.

use crate::game::GameScreen;
use crate::game::GameScreenKind;
use crate::menu::BaseMenu;
use crate::menu::MenuEvent;
use crate::menu::coord_ok;
use crate::menu::down_index;
use crate::menu::up_index;
use crate::text_fx::Blit;
use crate::text_fx::Font;
use crate::text_fx::StaticText;
use vstd::prelude::*;
use vstd::string::StringExecFns;

verus! {

/// The frame counter readout for `n` frames per second.
pub open spec fn fps_label(n: nat) -> Seq<char> {
    "FPS: "@ + crate::decimal::spec_decimal(n)
}

/// The main menu: seven entries dispatching to the other screens, and a
/// frame counter in the corner.
pub struct MainMenu {
    pub base: BaseMenu,
    pub fps: StaticText,
}

impl MainMenu {
    /// Well formed: the base menu is well formed and holds exactly the
    /// seven top-level entries.
    pub open spec fn wf(&self) -> bool {
        &&& self.base.wf()
        &&& self.base.menu_item.num_of_items == 7
        &&& self.fps.wf()
    }

    pub fn new() -> (r: MainMenu)
        ensures
            r.wf(),
            r.base.coords_ok(),
            r.base.menu_item.selected == 0,
            r.base.title.base.text@ == "MAIN MENU"@,
            r.base.text@.len() == 0,
            r.base.menu@[0].base.text@ == "START"@,
            r.base.menu@[1].base.text@ == "AUDIO OPTIONS"@,
            r.base.menu@[2].base.text@ == "GFX OPTIONS"@,
            r.base.menu@[3].base.text@ == "CONTROLS"@,
            r.base.menu@[4].base.text@ == "HIGH SCORE"@,
            r.base.menu@[5].base.text@ == "CREDITS"@,
            r.base.menu@[6].base.text@ == "EXIT"@,
            r.fps.text@ == "FPS"@,
            r.fps.font is None,
            coord_ok(r.fps.x as int),
            coord_ok(r.fps.y as int),
    {
        let mut entries: Vec<String> = Vec::new();
        entries.push(String::from_str("START"));
        entries.push(String::from_str("AUDIO OPTIONS"));
        entries.push(String::from_str("GFX OPTIONS"));
        entries.push(String::from_str("CONTROLS"));
        entries.push(String::from_str("HIGH SCORE"));
        entries.push(String::from_str("CREDITS"));
        entries.push(String::from_str("EXIT"));
        let base = BaseMenu::new(
            400,
            100,
            30,
            String::from_str("MAIN MENU"),
            Vec::new(),
            entries,
        );
        let fps = StaticText::new(0, 575, String::from_str("FPS"));
        MainMenu { base, fps }
    }

    /// What one processed event does, relating the states before and
    /// after: confirm dispatches on the selected entry — the first six
    /// request the matching screen transition, the last (`EXIT`) raises
    /// the quit flag and leaves the navigation state alone — up and down
    /// move the selection, and any other event changes nothing.
    pub open spec fn process_spec(
        pre: MainMenu,
        post: MainMenu,
        event: MenuEvent,
        quit0: bool,
        quit1: bool,
        screen0: GameScreen,
        screen1: GameScreen,
    ) -> bool {
        match event {
            MenuEvent::Confirm => {
                let sel = pre.base.menu_item.selected as int;
                &&& post == pre
                &&& (sel == 0 ==> screen1.current_screen == GameScreenKind::PlayGame)
                &&& (sel == 1 ==> screen1.current_screen == GameScreenKind::AudioMenu)
                &&& (sel == 2 ==> screen1.current_screen == GameScreenKind::GFXMenu)
                &&& (sel == 3 ==> screen1.current_screen
                    == GameScreenKind::ControlsMenu)
                &&& (sel == 4 ==> screen1.current_screen
                    == GameScreenKind::HighScoreMenu)
                &&& (sel == 5 ==> screen1.current_screen == GameScreenKind::CreditMenu)
                &&& (sel == 6 ==> screen1 == screen0)
                &&& quit1 == (if sel == 6 {
                    true
                } else {
                    quit0
                })
            },
            MenuEvent::Up => {
                &&& quit1 == quit0
                &&& screen1 == screen0
                &&& post.base.menu_item.selected as nat == up_index(
                    pre.base.menu_item.selected as nat,
                    7,
                )
            },
            MenuEvent::Down => {
                &&& quit1 == quit0
                &&& screen1 == screen0
                &&& post.base.menu_item.selected as nat == down_index(
                    pre.base.menu_item.selected as nat,
                    7,
                )
            },
            _ => {
                &&& post == pre
                &&& quit1 == quit0
                &&& screen1 == screen0
            },
        }
    }

    /// React to one event, as [`MainMenu::process_spec`] relates the
    /// states before and after the call.
    pub fn process(&mut self, event: &MenuEvent, quit: &mut bool, game_screen: &mut GameScreen)
        requires
            old(self).wf(),
        ensures
            final(self).wf(),
            final(self).fps == old(self).fps,
            Self::process_spec(
                *old(self),
                *final(self),
                *event,
                *old(quit),
                *final(quit),
                *old(game_screen),
                *final(game_screen),
            ),
    {
        match event {
            MenuEvent::Confirm => {
                match self.base.get_selected() {
                    0 => {
                        game_screen.start_game();
                    },
                    1 => {
                        game_screen.audio_options();
                    },
                    2 => {
                        game_screen.gfx_options();
                    },
                    3 => {
                        game_screen.controls();
                    },
                    4 => {
                        game_screen.high_score();
                    },
                    5 => {
                        game_screen.credit();
                    },
                    6 => {
                        *quit = true;
                    },
                    _ => {
                        // The selection is always below the entry count.
                    },
                }
            },
            _ => {
                self.base.process(event);
            },
        }
    }

    /// One tick of the main menu: the base menu advances one animation
    /// step and the frame counter shows the given rate.
    pub open spec fn update_spec(pre: MainMenu, post: MainMenu, fps: u32) -> bool {
        &&& BaseMenu::update_spec(pre.base, post.base)
        &&& post.fps.text@ == fps_label(fps as nat)
        &&& post.fps.x == pre.fps.x
        &&& post.fps.y == pre.fps.y
        &&& post.fps.font == pre.fps.font
    }

    /// Advance the animations and refresh the frame counter readout.
    pub fn update(&mut self, fps: u32)
        requires
            old(self).wf(),
            match old(self).fps.font {
                Some(f) => (f.width as int) * 16 <= u32::MAX,
                None => true,
            },
        ensures
            final(self).wf(),
            Self::update_spec(*old(self), *final(self), fps),
    {
        self.base.update();
        let mut label = String::from_str("FPS: ");
        let digits = crate::decimal::to_decimal(fps);
        label.append(digits.as_str());
        proof {
            reveal_strlit("FPS: ");
            reveal_with_fuel(crate::decimal::pow10, 11);
            assert(crate::decimal::pow10(10) > u32::MAX);
            crate::decimal::lemma_decimal_len_bound(fps as nat, 10);
            if old(self).fps.font is Some {
                let f = old(self).fps.font->Some_0;
                assert((f.width as int) * label@.len() <= (f.width as int) * 16)
                    by (nonlinear_arith)
                    requires
                        label@.len() <= 16,
                        f.width >= 0,
                ;
            }
        }
        self.fps.set_text(label);
    }

    /// Append the blits of the screen: the menu, then the frame counter.
    pub fn draw(&self, out: &mut Vec<Blit>)
        requires
            self.wf(),
            self.base.coords_ok(),
            coord_ok(self.fps.x as int),
        ensures
            final(out)@ == old(out)@ + self.base.blits() + self.fps.blits_at(
                self.fps.x as int,
                self.fps.y as int,
            ),
    {
        self.base.draw(out);
        self.fps.draw(out);
    }

    /// Attach the shared font to the menu and the frame counter.
    pub fn set_font(&mut self, font: &Font)
        requires
            old(self).wf(),
            font.wf(),
            old(self).base.coords_ok(),
            old(self).base.font_fits(*font),
            (font.width as int) * old(self).fps.text@.len() <= u32::MAX,
        ensures
            final(self).wf(),
            final(self).base.title.base.font == Some(*font),
            final(self).fps.font == Some(*font),
            final(self).fps.text == old(self).fps.text,
            forall|i: int|
                0 <= i < old(self).base.menu@.len() ==> (#[trigger] final(self).base.menu@[i]).base.font == Some(*font),
    {
        self.base.set_font(font);
        self.fps.set_font(font);
    }
}

} // verus!
