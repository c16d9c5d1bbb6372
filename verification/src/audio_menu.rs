//! The audio options screen: sound and music volume, adjusted in steps
//! of five with saturation, plus a back entry.

use crate::game::GameScreen;
use crate::game::GameScreenKind;
use crate::menu::BaseMenu;
use crate::menu::MenuEvent;
use crate::menu::down_index;
use crate::menu::up_index;
use crate::settings::GameSettings;
use crate::settings::clamped;
use vstd::prelude::*;
use vstd::string::StringExecFns;

verus! {

/// The sound volume readout.
pub open spec fn sfx_label(vol: nat) -> Seq<char> {
    "SFX VOLUME: "@ + crate::decimal::spec_decimal(vol)
}

/// The music volume readout.
pub open spec fn music_label(vol: nat) -> Seq<char> {
    "MUSIC VOLUME: "@ + crate::decimal::spec_decimal(vol)
}

/// The audio options screen.
pub struct AudioMenu {
    pub base: BaseMenu,
}

impl AudioMenu {
    /// Well formed: the base menu is well formed and holds exactly the
    /// three audio entries.
    pub open spec fn wf(&self) -> bool {
        &&& self.base.wf()
        &&& self.base.menu_item.num_of_items == 3
    }

    /// The two value entries can take a refreshed readout: their
    /// positions are within the layout headroom and their font leaves
    /// room for the longest readout.
    pub open spec fn labels_ready(&self) -> bool {
        &&& crate::menu::coord_roomy(self.base.menu@[0].base.x as int)
        &&& crate::menu::coord_roomy(self.base.menu@[1].base.x as int)
        &&& match self.base.menu@[0].base.font {
            Some(f) => (f.width as int) * 32 <= u32::MAX,
            None => true,
        }
        &&& match self.base.menu@[1].base.font {
            Some(f) => (f.width as int) * 32 <= u32::MAX,
            None => true,
        }
    }

    /// Both value readouts re-rendered from `s`; everything else of the
    /// menu untouched.
    pub open spec fn labels_refreshed(pre: AudioMenu, post: AudioMenu, s: GameSettings) -> bool {
        &&& post.base == (BaseMenu { menu: post.base.menu, ..pre.base })
        &&& post.base.menu@.len() == pre.base.menu@.len()
        &&& post.base.menu@[0].base.text@ == sfx_label(s.sound_volume as nat)
        &&& post.base.menu@[1].base.text@ == music_label(s.music_volume as nat)
        &&& forall|i: int|
            2 <= i < pre.base.menu@.len() ==> #[trigger] post.base.menu@[i]
                == pre.base.menu@[i]
        &&& forall|i: int|
            0 <= i < pre.base.menu@.len() ==> (#[trigger] post.base.menu@[i]).active
                == pre.base.menu@[i].active
        &&& post.base.menu@[0].base.font == pre.base.menu@[0].base.font
        &&& post.base.menu@[0].base.x == pre.base.menu@[0].base.x
        &&& post.base.menu@[0].base.y == pre.base.menu@[0].base.y
        &&& post.base.menu@[1].base.font == pre.base.menu@[1].base.font
        &&& post.base.menu@[1].base.x == pre.base.menu@[1].base.x
        &&& post.base.menu@[1].base.y == pre.base.menu@[1].base.y
    }

    pub fn new() -> (r: AudioMenu)
        ensures
            r.wf(),
            r.base.coords_ok(),
            r.base.menu_item.selected == 0,
            r.base.title.base.text@ == "AUDIO OPTIONS"@,
            r.base.text@.len() == 0,
            r.base.menu@[0].base.text@ == "SFX VOLUME:"@,
            r.base.menu@[1].base.text@ == "MUSIC VOLUME:"@,
            r.base.menu@[2].base.text@ == "BACK"@,
            r.labels_ready(),
    {
        let mut entries: Vec<String> = Vec::new();
        entries.push(String::from_str("SFX VOLUME:"));
        entries.push(String::from_str("MUSIC VOLUME:"));
        entries.push(String::from_str("BACK"));
        let base = BaseMenu::new(
            400,
            100,
            30,
            String::from_str("AUDIO OPTIONS"),
            Vec::new(),
            entries,
        );
        AudioMenu { base }
    }

    /// What one processed event does, relating the states before and
    /// after: confirm on `BACK` returns to the main menu; left and right
    /// on a volume entry step that volume down or up by five, saturating
    /// at the range ends, and re-render the readouts only when the value
    /// actually changed; up and down move the selection; everything else
    /// changes nothing.
    pub open spec fn process_spec(
        pre: AudioMenu,
        post: AudioMenu,
        event: MenuEvent,
        screen0: GameScreen,
        screen1: GameScreen,
        g0: GameSettings,
        g1: GameSettings,
    ) -> bool {
        match event {
            MenuEvent::Confirm => {
                let sel = pre.base.menu_item.selected as int;
                &&& post == pre
                &&& g1 == g0
                &&& (sel == 2 ==> screen1.current_screen
                    == GameScreenKind::MainMenu)
                &&& (sel != 2 ==> screen1 == screen0)
            },
            MenuEvent::Left => {
                let sel = pre.base.menu_item.selected as int;
                let s0 = g0;
                &&& screen1 == screen0
                &&& (sel == 0 ==> {
                    let nv = clamped(s0.sound_volume - 5, 0, 255);
                    &&& g1 == (GameSettings {
                        sound_volume: nv as i16,
                        ..s0
                    })
                    &&& (nv != s0.sound_volume ==> Self::labels_refreshed(
                        pre,
                        post,
                        g1,
                    ))
                    &&& (nv == s0.sound_volume ==> post == pre)
                })
                &&& (sel == 1 ==> {
                    let nv = clamped(s0.music_volume - 5, 0, 255);
                    &&& g1 == (GameSettings {
                        music_volume: nv as i16,
                        ..s0
                    })
                    &&& (nv != s0.music_volume ==> Self::labels_refreshed(
                        pre,
                        post,
                        g1,
                    ))
                    &&& (nv == s0.music_volume ==> post == pre)
                })
                &&& (sel == 2 ==> post == pre && g1
                    == g0)
            },
            MenuEvent::Right => {
                let sel = pre.base.menu_item.selected as int;
                let s0 = g0;
                &&& screen1 == screen0
                &&& (sel == 0 ==> {
                    let nv = clamped(s0.sound_volume + 5, 0, 255);
                    &&& g1 == (GameSettings {
                        sound_volume: nv as i16,
                        ..s0
                    })
                    &&& (nv != s0.sound_volume ==> Self::labels_refreshed(
                        pre,
                        post,
                        g1,
                    ))
                    &&& (nv == s0.sound_volume ==> post == pre)
                })
                &&& (sel == 1 ==> {
                    let nv = clamped(s0.music_volume + 5, 0, 255);
                    &&& g1 == (GameSettings {
                        music_volume: nv as i16,
                        ..s0
                    })
                    &&& (nv != s0.music_volume ==> Self::labels_refreshed(
                        pre,
                        post,
                        g1,
                    ))
                    &&& (nv == s0.music_volume ==> post == pre)
                })
                &&& (sel == 2 ==> post == pre && g1
                    == g0)
            },
            MenuEvent::Up => {
                &&& g1 == g0
                &&& screen1 == screen0
                &&& post.base.menu_item.selected as nat == up_index(
                    pre.base.menu_item.selected as nat,
                    3,
                )
            },
            MenuEvent::Down => {
                &&& g1 == g0
                &&& screen1 == screen0
                &&& post.base.menu_item.selected as nat == down_index(
                    pre.base.menu_item.selected as nat,
                    3,
                )
            },
            _ => {
                &&& post == pre
                &&& g1 == g0
                &&& screen1 == screen0
            },
        }
    }

    /// React to one event, as [`AudioMenu::process_spec`] relates the
    /// states before and after the call.
    pub fn process(
        &mut self,
        event: &MenuEvent,
        game_screen: &mut GameScreen,
        settings: &mut GameSettings,
    )
        requires
            old(self).wf(),
            old(settings).wf(),
            old(self).labels_ready(),
        ensures
            final(self).wf(),
            final(settings).wf(),
            final(self).labels_ready(),
            Self::process_spec(
                *old(self),
                *final(self),
                *event,
                *old(game_screen),
                *final(game_screen),
                *old(settings),
                *final(settings),
            ),
    {
        match event {
            MenuEvent::Confirm => {
                match self.base.get_selected() {
                    2 => {
                        game_screen.main_menu();
                    },
                    _ => {},
                }
            },
            MenuEvent::Left => {
                match self.base.get_selected() {
                    0 => {
                        let old_vol = settings.get_sound_vol();
                        settings.dec_sound_vol();
                        let new_vol = settings.get_sound_vol();
                        if old_vol != new_vol {
                            self.update_settings(settings);
                        }
                    },
                    1 => {
                        let old_vol = settings.get_music_vol();
                        settings.dec_music_vol();
                        let new_vol = settings.get_music_vol();
                        if old_vol != new_vol {
                            self.update_settings(settings);
                        }
                    },
                    _ => {},
                }
            },
            MenuEvent::Right => {
                match self.base.get_selected() {
                    0 => {
                        let old_vol = settings.get_sound_vol();
                        settings.inc_sound_vol();
                        let new_vol = settings.get_sound_vol();
                        if old_vol != new_vol {
                            self.update_settings(settings);
                        }
                    },
                    1 => {
                        let old_vol = settings.get_music_vol();
                        settings.inc_music_vol();
                        let new_vol = settings.get_music_vol();
                        if old_vol != new_vol {
                            self.update_settings(settings);
                        }
                    },
                    _ => {},
                }
            },
            _ => {
                self.base.process(event);
            },
        }
    }

    /// Advance the title wave and the active entry's marker by one tick.
    pub fn update(&mut self)
        requires
            old(self).wf(),
        ensures
            final(self).wf(),
            old(self).labels_ready() ==> final(self).labels_ready(),
            BaseMenu::update_spec(old(self).base, final(self).base),
    {
        self.base.update();
    }

    /// Append the blits of the screen.
    pub fn draw(&self, out: &mut Vec<crate::text_fx::Blit>)
        requires
            self.wf(),
            self.base.coords_ok(),
        ensures
            final(out)@ == old(out)@ + self.base.blits(),
    {
        self.base.draw(out);
    }

    /// Attach the shared font.
    pub fn set_font(&mut self, font: &crate::text_fx::Font)
        requires
            old(self).wf(),
            font.wf(),
            old(self).base.coords_ok(),
            old(self).base.font_fits(*font),
            (font.width as int) * 32 <= u32::MAX,
        ensures
            final(self).wf(),
            final(self).base.title.base.font == Some(*font),
            final(self).labels_ready(),
    {
        self.base.set_font(font);
    }

    /// Re-render both volume readouts from the current settings.
    pub fn update_settings(&mut self, settings: &GameSettings)
        requires
            old(self).wf(),
            settings.wf(),
            old(self).labels_ready(),
        ensures
            final(self).wf(),
            final(self).labels_ready(),
            Self::labels_refreshed(*old(self), *final(self), *settings),
    {
        proof {
            reveal_strlit("SFX VOLUME: ");
            reveal_strlit("MUSIC VOLUME: ");
            reveal_with_fuel(crate::decimal::pow10, 4);
            crate::decimal::lemma_decimal_len_bound(settings.sound_volume as nat, 3);
            crate::decimal::lemma_decimal_len_bound(settings.music_volume as nat, 3);
        }
        let mut l0 = String::from_str("SFX VOLUME: ");
        l0.append(crate::decimal::to_decimal(settings.get_sound_vol() as u32).as_str());
        let mut l1 = String::from_str("MUSIC VOLUME: ");
        l1.append(crate::decimal::to_decimal(settings.get_music_vol() as u32).as_str());
        proof {
            if old(self).base.menu@[0].base.font is Some {
                let f = old(self).base.menu@[0].base.font->Some_0;
                assert((f.width as int) * l0@.len() <= (f.width as int) * 32)
                    by (nonlinear_arith)
                    requires
                        l0@.len() <= 32,
                        f.width >= 0,
                ;
            }
            if old(self).base.menu@[1].base.font is Some {
                let f = old(self).base.menu@[1].base.font->Some_0;
                assert((f.width as int) * l1@.len() <= (f.width as int) * 32)
                    by (nonlinear_arith)
                    requires
                        l1@.len() <= 32,
                        f.width >= 0,
                ;
            }
        }
        self.base.change_menu(0, l0);
        self.base.change_menu(1, l1);
    }
}

} // verus!
