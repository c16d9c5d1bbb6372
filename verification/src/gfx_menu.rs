//! The graphics options screen: fullscreen toggle and resolution preset,
//! plus a back entry.

use crate::game::GameScreen;
use crate::game::GameScreenKind;
use crate::menu::BaseMenu;
use crate::menu::MenuEvent;
use crate::menu::down_index;
use crate::menu::up_index;
use crate::settings::GameSettings;
use crate::settings::clamped;
use crate::settings::spec_resolution_text;
use vstd::prelude::*;
use vstd::string::StringExecFns;

verus! {

/// The fullscreen readout.
pub open spec fn fullscreen_label(on: bool) -> Seq<char> {
    if on {
        "FULLSCREEN: "@ + "ON"@
    } else {
        "FULLSCREEN: "@ + "OFF"@
    }
}

/// The resolution readout.
pub open spec fn resolution_label(r: int) -> Seq<char> {
    "RESOLUTION: "@ + spec_resolution_text(r)
}

/// The graphics options screen.
pub struct GFXMenu {
    pub base: BaseMenu,
}

impl GFXMenu {
    /// Well formed: the base menu is well formed and holds exactly the
    /// three graphics entries.
    pub open spec fn wf(&self) -> bool {
        &&& self.base.wf()
        &&& self.base.menu_item.num_of_items == 3
    }

    /// The two value entries can take a refreshed readout: their
    /// positions are within the layout headroom and their font leaves
    /// room for the longest readout.
    pub open spec fn labels_ready(&self) -> bool {
        &&& crate::menu::coord_roomy(self.base.menu@[0].base.x as int)
        &&& crate::menu::coord_roomy(self.base.menu@[1].base.x as int)
        &&& match self.base.menu@[0].base.font {
            Some(f) => (f.width as int) * 32 <= u32::MAX,
            None => true,
        }
        &&& match self.base.menu@[1].base.font {
            Some(f) => (f.width as int) * 32 <= u32::MAX,
            None => true,
        }
    }

    /// Both value readouts re-rendered from `s`; everything else of the
    /// menu untouched.
    pub open spec fn labels_refreshed(pre: GFXMenu, post: GFXMenu, s: GameSettings) -> bool {
        &&& post.base == (BaseMenu { menu: post.base.menu, ..pre.base })
        &&& post.base.menu@.len() == pre.base.menu@.len()
        &&& post.base.menu@[0].base.text@ == fullscreen_label(s.fullscreen)
        &&& post.base.menu@[1].base.text@ == resolution_label(s.resolution as int)
        &&& forall|i: int|
            2 <= i < pre.base.menu@.len() ==> #[trigger] post.base.menu@[i]
                == pre.base.menu@[i]
        &&& forall|i: int|
            0 <= i < pre.base.menu@.len() ==> (#[trigger] post.base.menu@[i]).active
                == pre.base.menu@[i].active
        &&& post.base.menu@[0].base.font == pre.base.menu@[0].base.font
        &&& post.base.menu@[0].base.x == pre.base.menu@[0].base.x
        &&& post.base.menu@[0].base.y == pre.base.menu@[0].base.y
        &&& post.base.menu@[1].base.font == pre.base.menu@[1].base.font
        &&& post.base.menu@[1].base.x == pre.base.menu@[1].base.x
        &&& post.base.menu@[1].base.y == pre.base.menu@[1].base.y
    }

    pub fn new() -> (r: GFXMenu)
        ensures
            r.wf(),
            r.base.coords_ok(),
            r.base.menu_item.selected == 0,
            r.base.title.base.text@ == "GFX OPTIONS"@,
            r.base.text@.len() == 0,
            r.base.menu@[0].base.text@ == "FULLSCREEN:"@,
            r.base.menu@[1].base.text@ == "RESOLUTION:"@,
            r.base.menu@[2].base.text@ == "BACK"@,
            r.labels_ready(),
    {
        let mut entries: Vec<String> = Vec::new();
        entries.push(String::from_str("FULLSCREEN:"));
        entries.push(String::from_str("RESOLUTION:"));
        entries.push(String::from_str("BACK"));
        let base = BaseMenu::new(
            400,
            100,
            30,
            String::from_str("GFX OPTIONS"),
            Vec::new(),
            entries,
        );
        GFXMenu { base }
    }

    /// What one processed event does, relating the states before and
    /// after: confirm, left or right on the fullscreen entry toggles
    /// fullscreen and re-renders the readouts; confirm on `BACK` returns
    /// to the main menu; left and right on the resolution entry step the
    /// preset down or up, saturating at the ends, and re-render only when
    /// the preset actually changed; up and down move the selection;
    /// everything else changes nothing.
    pub open spec fn process_spec(
        pre: GFXMenu,
        post: GFXMenu,
        event: MenuEvent,
        screen0: GameScreen,
        screen1: GameScreen,
        g0: GameSettings,
        g1: GameSettings,
    ) -> bool {
        match event {
            MenuEvent::Confirm => {
                let sel = pre.base.menu_item.selected as int;
                &&& (sel == 0 ==> g1 == (GameSettings {
                    fullscreen: !g0.fullscreen,
                    ..g0
                }) && Self::labels_refreshed(pre, post, g1)
                    && screen1 == screen0)
                &&& (sel == 1 ==> post == pre && g1
                    == g0 && screen1 == screen0)
                &&& (sel == 2 ==> post == pre && g1
                    == g0 && screen1.current_screen
                    == GameScreenKind::MainMenu)
            },
            MenuEvent::Left => {
                let sel = pre.base.menu_item.selected as int;
                let s0 = g0;
                &&& screen1 == screen0
                &&& (sel == 0 ==> g1 == (GameSettings {
                    fullscreen: !s0.fullscreen,
                    ..s0
                }) && Self::labels_refreshed(pre, post, g1))
                &&& (sel == 1 ==> {
                    let nv = clamped(s0.resolution - 1, 0, 3);
                    &&& g1 == (GameSettings {
                        resolution: nv as i16,
                        ..s0
                    })
                    &&& (nv != s0.resolution ==> Self::labels_refreshed(
                        pre,
                        post,
                        g1,
                    ))
                    &&& (nv == s0.resolution ==> post == pre)
                })
                &&& (sel == 2 ==> post == pre && g1
                    == g0)
            },
            MenuEvent::Right => {
                let sel = pre.base.menu_item.selected as int;
                let s0 = g0;
                &&& screen1 == screen0
                &&& (sel == 0 ==> g1 == (GameSettings {
                    fullscreen: !s0.fullscreen,
                    ..s0
                }) && Self::labels_refreshed(pre, post, g1))
                &&& (sel == 1 ==> {
                    let nv = clamped(s0.resolution + 1, 0, 3);
                    &&& g1 == (GameSettings {
                        resolution: nv as i16,
                        ..s0
                    })
                    &&& (nv != s0.resolution ==> Self::labels_refreshed(
                        pre,
                        post,
                        g1,
                    ))
                    &&& (nv == s0.resolution ==> post == pre)
                })
                &&& (sel == 2 ==> post == pre && g1
                    == g0)
            },
            MenuEvent::Up => {
                &&& g1 == g0
                &&& screen1 == screen0
                &&& post.base.menu_item.selected as nat == up_index(
                    pre.base.menu_item.selected as nat,
                    3,
                )
            },
            MenuEvent::Down => {
                &&& g1 == g0
                &&& screen1 == screen0
                &&& post.base.menu_item.selected as nat == down_index(
                    pre.base.menu_item.selected as nat,
                    3,
                )
            },
            _ => {
                &&& post == pre
                &&& g1 == g0
                &&& screen1 == screen0
            },
            }
    }

    /// React to one event, as [`GFXMenu::process_spec`] relates the
    /// states before and after the call.
    pub fn process(
        &mut self,
        event: &MenuEvent,
        game_screen: &mut GameScreen,
        settings: &mut GameSettings,
    )
        requires
            old(self).wf(),
            old(settings).wf(),
            old(self).labels_ready(),
        ensures
            final(self).wf(),
            final(settings).wf(),
            final(self).labels_ready(),
            Self::process_spec(
            *old(self),
            *final(self),
            *event,
            *old(game_screen),
            *final(game_screen),
            *old(settings),
            *final(settings),
            ),
    {
        match event {
            MenuEvent::Confirm => {
            match self.base.get_selected() {
                0 => {
                    settings.toggle_fullscreen();
                    self.update_settings(settings);
                },
                2 => {
                    game_screen.main_menu();
                },
                _ => {},
            }
            },
            MenuEvent::Left => {
            match self.base.get_selected() {
                0 => {
                    settings.toggle_fullscreen();
                    self.update_settings(settings);
                },
                1 => {
                    let old_res = settings.get_resolution();
                    settings.dec_resolution();
                    let new_res = settings.get_resolution();
                    if old_res != new_res {
                        self.update_settings(settings);
                    }
                },
                _ => {},
            }
            },
            MenuEvent::Right => {
            match self.base.get_selected() {
                0 => {
                    settings.toggle_fullscreen();
                    self.update_settings(settings);
                },
                1 => {
                    let old_res = settings.get_resolution();
                    settings.inc_resolution();
                    let new_res = settings.get_resolution();
                    if old_res != new_res {
                        self.update_settings(settings);
                    }
                },
                _ => {},
            }
            },
            _ => {
            self.base.process(event);
            },
        }
    }

    /// Advance the title wave and the active entry's marker by one tick.
    pub fn update(&mut self)
        requires
            old(self).wf(),
        ensures
            final(self).wf(),
            old(self).labels_ready() ==> final(self).labels_ready(),
            BaseMenu::update_spec(old(self).base, final(self).base),
    {
        self.base.update();
    }

    /// Append the blits of the screen.
    pub fn draw(&self, out: &mut Vec<crate::text_fx::Blit>)
        requires
            self.wf(),
            self.base.coords_ok(),
        ensures
            final(out)@ == old(out)@ + self.base.blits(),
    {
        self.base.draw(out);
    }

    /// Attach the shared font.
    pub fn set_font(&mut self, font: &crate::text_fx::Font)
        requires
            old(self).wf(),
            font.wf(),
            old(self).base.coords_ok(),
            old(self).base.font_fits(*font),
            (font.width as int) * 32 <= u32::MAX,
        ensures
            final(self).wf(),
            final(self).base.title.base.font == Some(*font),
            final(self).labels_ready(),
    {
        self.base.set_font(font);
    }

    /// Re-render both readouts from the current settings.
    pub fn update_settings(&mut self, settings: &GameSettings)
        requires
            old(self).wf(),
            settings.wf(),
            old(self).labels_ready(),
        ensures
            final(self).wf(),
            final(self).labels_ready(),
            Self::labels_refreshed(*old(self), *final(self), *settings),
    {
        proof {
            reveal_strlit("FULLSCREEN: ");
            reveal_strlit("ON");
            reveal_strlit("OFF");
            reveal_strlit("RESOLUTION: ");
            reveal_strlit("800x600");
            reveal_strlit("1024x768");
            reveal_strlit("1280x1024");
            reveal_strlit("1980x1280");
        }
        let mut l0 = String::from_str("FULLSCREEN: ");
        if settings.get_fullscreen() {
            l0.append("ON");
        } else {
            l0.append("OFF");
        }
        let mut l1 = String::from_str("RESOLUTION: ");
        let res_text = settings.resolution_to_text();
        l1.append(res_text.as_str());
        proof {
            if old(self).base.menu@[0].base.font is Some {
                let f = old(self).base.menu@[0].base.font->Some_0;
                assert((f.width as int) * l0@.len() <= (f.width as int) * 32)
                    by (nonlinear_arith)
                    requires
                        l0@.len() <= 32,
                        f.width >= 0,
                ;
            }
            if old(self).base.menu@[1].base.font is Some {
                let f = old(self).base.menu@[1].base.font->Some_0;
                assert((f.width as int) * l1@.len() <= (f.width as int) * 32)
                    by (nonlinear_arith)
                    requires
                        l1@.len() <= 32,
                        f.width >= 0,
                ;
            }
        }
        self.base.change_menu(0, l0);
        self.base.change_menu(1, l1);
    }
}

} // verus!
