//! Navigation state: which screen is currently active.
//!
//! The one `GameScreen` value is owned by the top-level game object and
//! mutated only through the named transition methods below, so the legal
//! transitions stay auditable in one place.

use vstd::prelude::*;

verus! {

/// The screens the game can show.
#[derive(Clone, Copy, Debug, PartialEq, Eq, Structural)]
pub enum GameScreenKind {
    MainMenu,
    AudioMenu,
    GFXMenu,
    ControlsMenu,
    HighScoreMenu,
    CreditMenu,
    PlayGame,
}

/// The single current-screen selector consumed by the dispatch loop.
#[derive(Debug)]
pub struct GameScreen {
    pub current_screen: GameScreenKind,
}

impl GameScreen {
    /// The game starts on the main menu.
    pub fn new() -> (r: GameScreen)
        ensures
            r.current_screen == GameScreenKind::MainMenu,
    {
        GameScreen { current_screen: GameScreenKind::MainMenu }
    }

    pub fn main_menu(&mut self)
        ensures
            final(self).current_screen == GameScreenKind::MainMenu,
    {
        self.current_screen = GameScreenKind::MainMenu;
    }

    pub fn audio_options(&mut self)
        ensures
            final(self).current_screen == GameScreenKind::AudioMenu,
    {
        self.current_screen = GameScreenKind::AudioMenu;
    }

    pub fn gfx_options(&mut self)
        ensures
            final(self).current_screen == GameScreenKind::GFXMenu,
    {
        self.current_screen = GameScreenKind::GFXMenu;
    }

    pub fn controls(&mut self)
        ensures
            final(self).current_screen == GameScreenKind::ControlsMenu,
    {
        self.current_screen = GameScreenKind::ControlsMenu;
    }

    pub fn high_score(&mut self)
        ensures
            final(self).current_screen == GameScreenKind::HighScoreMenu,
    {
        self.current_screen = GameScreenKind::HighScoreMenu;
    }

    pub fn credit(&mut self)
        ensures
            final(self).current_screen == GameScreenKind::CreditMenu,
    {
        self.current_screen = GameScreenKind::CreditMenu;
    }

    pub fn start_game(&mut self)
        ensures
            final(self).current_screen == GameScreenKind::PlayGame,
    {
        self.current_screen = GameScreenKind::PlayGame;
    }
}

/// The whole menu layer of the game: the navigation state, the settings,
/// the high-score table and the five screens, with one dispatcher for
/// events, ticks and drawing.
///
/// The embedding program owns the window, the canvas, the event pump and
/// the clock; each frame it classifies the pending events, calls
/// [`Game::process`] and [`Game::update`], and performs the blits that
/// [`Game::draw`] computed.
pub struct Game {
    pub quit: bool,
    pub screen: GameScreen,
    pub settings: crate::settings::GameSettings,
    pub main_menu: crate::main_menu::MainMenu,
    pub audio_menu: crate::audio_menu::AudioMenu,
    pub gfx_menu: crate::gfx_menu::GFXMenu,
    pub high_score_menu: crate::high_score::HighScoreMenu,
    pub credit_menu: crate::credit_menu::CreditMenu,
}

/// The screen shown after one event is dispatched: confirm moves from a
/// menu entry to the screen it names (or back), and the screens that do
/// not exist yet fall back to the main menu.
pub open spec fn next_screen(g: Game, event: crate::menu::MenuEvent) -> GameScreenKind {
    match g.screen.current_screen {
        GameScreenKind::MainMenu => if event is Confirm {
            let sel = g.main_menu.base.menu_item.selected as int;
            if sel == 0 {
                GameScreenKind::PlayGame
            } else if sel == 1 {
                GameScreenKind::AudioMenu
            } else if sel == 2 {
                GameScreenKind::GFXMenu
            } else if sel == 3 {
                GameScreenKind::ControlsMenu
            } else if sel == 4 {
                GameScreenKind::HighScoreMenu
            } else if sel == 5 {
                GameScreenKind::CreditMenu
            } else {
                GameScreenKind::MainMenu
            }
        } else {
            GameScreenKind::MainMenu
        },
        GameScreenKind::AudioMenu => if event is Confirm
            && g.audio_menu.base.menu_item.selected == 2 {
            GameScreenKind::MainMenu
        } else {
            GameScreenKind::AudioMenu
        },
        GameScreenKind::GFXMenu => if event is Confirm && g.gfx_menu.base.menu_item.selected
            == 2 {
            GameScreenKind::MainMenu
        } else {
            GameScreenKind::GFXMenu
        },
        GameScreenKind::HighScoreMenu => if event is Confirm {
            GameScreenKind::MainMenu
        } else {
            GameScreenKind::HighScoreMenu
        },
        GameScreenKind::CreditMenu => if event is Confirm {
            GameScreenKind::MainMenu
        } else {
            GameScreenKind::CreditMenu
        },
        GameScreenKind::ControlsMenu => GameScreenKind::MainMenu,
        GameScreenKind::PlayGame => GameScreenKind::MainMenu,
    }
}

/// The quit flag after one event is dispatched: raised by the window
/// close request or by confirming the main menu's `EXIT` entry, never
/// lowered.
pub open spec fn next_quit(g: Game, event: crate::menu::MenuEvent) -> bool {
    if event is Quit {
        true
    } else if g.screen.current_screen is MainMenu && event is Confirm
        && g.main_menu.base.menu_item.selected == 6 {
        true
    } else {
        g.quit
    }
}

impl Game {
    /// Well formed: every part is well formed, and the two option
    /// screens are ready to refresh their readouts.
    pub open spec fn wf(&self) -> bool {
        &&& self.settings.wf()
        &&& self.main_menu.wf()
        &&& self.audio_menu.wf()
        &&& self.gfx_menu.wf()
        &&& self.high_score_menu.base.wf()
        &&& self.credit_menu.wf()
        &&& self.audio_menu.labels_ready()
        &&& self.gfx_menu.labels_ready()
    }

    pub fn new() -> (r: Game)
        ensures
            r.wf(),
            !r.quit,
            r.screen.current_screen == GameScreenKind::MainMenu,
            r.settings == (crate::settings::GameSettings {
                start_level: 0,
                sound_volume: 200,
                music_volume: 200,
                fullscreen: false,
                resolution: 0,
            }),
            r.main_menu.base.menu_item.selected == 0,
            r.audio_menu.base.menu_item.selected == 0,
            r.gfx_menu.base.menu_item.selected == 0,
            r.high_score_menu.base.menu_item.selected == 0,
            r.credit_menu.base.menu_item.selected == 0,
            r.high_score_menu.high_score.scores@.len() == 10,
    {
        Game {
            quit: false,
            screen: GameScreen::new(),
            settings: crate::settings::GameSettings::new(),
            main_menu: crate::main_menu::MainMenu::new(),
            audio_menu: crate::audio_menu::AudioMenu::new(),
            gfx_menu: crate::gfx_menu::GFXMenu::new(),
            high_score_menu: crate::high_score::HighScoreMenu::new(),
            credit_menu: crate::credit_menu::CreditMenu::new(),
        }
    }

    /// Dispatch one event to the active screen.  The window close
    /// request raises the quit flag directly; everything else goes to
    /// the screen named by the navigation state, which may request a
    /// transition, mutate the settings or raise the quit flag itself.
    pub fn process(&mut self, event: &crate::menu::MenuEvent)
        requires
            old(self).wf(),
        ensures
            final(self).wf(),
            final(self).quit == next_quit(*old(self), *event),
            !(event is Quit) ==> final(self).screen.current_screen == next_screen(
                *old(self),
                *event,
            ),
            event is Quit ==> *final(self) == (Game { quit: true, ..*old(self) }),
            !(event is Quit) ==> match old(self).screen.current_screen {
                GameScreenKind::MainMenu => {
                    &&& crate::main_menu::MainMenu::process_spec(
                        old(self).main_menu,
                        final(self).main_menu,
                        *event,
                        old(self).quit,
                        final(self).quit,
                        old(self).screen,
                        final(self).screen,
                    )
                    &&& final(self).audio_menu == old(self).audio_menu
                    &&& final(self).gfx_menu == old(self).gfx_menu
                    &&& final(self).high_score_menu == old(self).high_score_menu
                    &&& final(self).credit_menu == old(self).credit_menu
                    &&& final(self).settings == old(self).settings
                },
                GameScreenKind::AudioMenu => {
                    &&& crate::audio_menu::AudioMenu::process_spec(
                        old(self).audio_menu,
                        final(self).audio_menu,
                        *event,
                        old(self).screen,
                        final(self).screen,
                        old(self).settings,
                        final(self).settings,
                    )
                    &&& final(self).main_menu == old(self).main_menu
                    &&& final(self).gfx_menu == old(self).gfx_menu
                    &&& final(self).high_score_menu == old(self).high_score_menu
                    &&& final(self).credit_menu == old(self).credit_menu
                    &&& final(self).quit == old(self).quit
                },
                GameScreenKind::GFXMenu => {
                    &&& crate::gfx_menu::GFXMenu::process_spec(
                        old(self).gfx_menu,
                        final(self).gfx_menu,
                        *event,
                        old(self).screen,
                        final(self).screen,
                        old(self).settings,
                        final(self).settings,
                    )
                    &&& final(self).main_menu == old(self).main_menu
                    &&& final(self).audio_menu == old(self).audio_menu
                    &&& final(self).high_score_menu == old(self).high_score_menu
                    &&& final(self).credit_menu == old(self).credit_menu
                    &&& final(self).quit == old(self).quit
                },
                GameScreenKind::HighScoreMenu => {
                    &&& crate::high_score::HighScoreMenu::process_spec(
                        old(self).high_score_menu,
                        final(self).high_score_menu,
                        *event,
                        old(self).screen,
                        final(self).screen,
                    )
                    &&& final(self).main_menu == old(self).main_menu
                    &&& final(self).audio_menu == old(self).audio_menu
                    &&& final(self).gfx_menu == old(self).gfx_menu
                    &&& final(self).credit_menu == old(self).credit_menu
                    &&& final(self).settings == old(self).settings
                    &&& final(self).quit == old(self).quit
                },
                GameScreenKind::CreditMenu => {
                    &&& crate::credit_menu::CreditMenu::process_spec(
                        old(self).credit_menu,
                        final(self).credit_menu,
                        *event,
                        old(self).screen,
                        final(self).screen,
                    )
                    &&& final(self).main_menu == old(self).main_menu
                    &&& final(self).audio_menu == old(self).audio_menu
                    &&& final(self).gfx_menu == old(self).gfx_menu
                    &&& final(self).high_score_menu == old(self).high_score_menu
                    &&& final(self).settings == old(self).settings
                    &&& final(self).quit == old(self).quit
                },
                _ => {
                    &&& final(self).main_menu == old(self).main_menu
                    &&& final(self).audio_menu == old(self).audio_menu
                    &&& final(self).gfx_menu == old(self).gfx_menu
                    &&& final(self).high_score_menu == old(self).high_score_menu
                    &&& final(self).credit_menu == old(self).credit_menu
                    &&& final(self).settings == old(self).settings
                    &&& final(self).quit == old(self).quit
                },
            },
            final(self).high_score_menu.high_score == old(
                self,
            ).high_score_menu.high_score,
    {
        match event {
            crate::menu::MenuEvent::Quit => {
                self.quit = true;
            },
            _ => {
                match self.screen.current_screen {
                    GameScreenKind::MainMenu => {
                        let mut quit = self.quit;
                        self.main_menu.process(event, &mut quit, &mut self.screen);
                        self.quit = quit;
                    },
                    GameScreenKind::AudioMenu => {
                        self.audio_menu.process(event, &mut self.screen, &mut self.settings);
                    },
                    GameScreenKind::GFXMenu => {
                        self.gfx_menu.process(event, &mut self.screen, &mut self.settings);
                    },
                    GameScreenKind::HighScoreMenu => {
                        self.high_score_menu.process(event, &mut self.screen);
                    },
                    GameScreenKind::CreditMenu => {
                        self.credit_menu.process(event, &mut self.screen);
                    },
                    _ => {
                        // Not implemented yet: fall back to the main menu.
                        self.screen.current_screen = GameScreenKind::MainMenu;
                    },
                }
            },
        }
    }

    /// Advance the active screen's animations by one tick; the main menu
    /// also refreshes its frame counter from `fps`.
    pub fn update(&mut self, fps: u32)
        requires
            old(self).wf(),
            match old(self).main_menu.fps.font {
                Some(f) => (f.width as int) * 16 <= u32::MAX,
                None => true,
            },
        ensures
            final(self).wf(),
            final(self).quit == old(self).quit,
            final(self).settings == old(self).settings,
            final(self).screen.current_screen == (if old(self).screen.current_screen
                is ControlsMenu || old(self).screen.current_screen is PlayGame {
                GameScreenKind::MainMenu
            } else {
                old(self).screen.current_screen
            }),
            final(self).high_score_menu.high_score == old(
                self,
            ).high_score_menu.high_score,
            !(old(self).screen.current_screen is MainMenu) ==> final(self).main_menu
                == old(self).main_menu,
            !(old(self).screen.current_screen is AudioMenu) ==> final(self).audio_menu
                == old(self).audio_menu,
            !(old(self).screen.current_screen is GFXMenu) ==> final(self).gfx_menu
                == old(self).gfx_menu,
            !(old(self).screen.current_screen is HighScoreMenu)
                ==> final(self).high_score_menu == old(self).high_score_menu,
            !(old(self).screen.current_screen is CreditMenu)
                ==> final(self).credit_menu == old(self).credit_menu,
            match old(self).screen.current_screen {
                GameScreenKind::MainMenu => crate::main_menu::MainMenu::update_spec(
                    old(self).main_menu,
                    final(self).main_menu,
                    fps,
                ),
                GameScreenKind::AudioMenu => crate::menu::BaseMenu::update_spec(
                    old(self).audio_menu.base,
                    final(self).audio_menu.base,
                ),
                GameScreenKind::GFXMenu => crate::menu::BaseMenu::update_spec(
                    old(self).gfx_menu.base,
                    final(self).gfx_menu.base,
                ),
                GameScreenKind::HighScoreMenu => crate::menu::BaseMenu::update_spec(
                    old(self).high_score_menu.base,
                    final(self).high_score_menu.base,
                ),
                GameScreenKind::CreditMenu => crate::menu::BaseMenu::update_spec(
                    old(self).credit_menu.base,
                    final(self).credit_menu.base,
                ),
                _ => final(self).main_menu == old(self).main_menu,
            },
    {
        match self.screen.current_screen {
            GameScreenKind::MainMenu => {
                self.main_menu.update(fps);
            },
            GameScreenKind::AudioMenu => {
                self.audio_menu.update();
            },
            GameScreenKind::GFXMenu => {
                self.gfx_menu.update();
            },
            GameScreenKind::HighScoreMenu => {
                self.high_score_menu.update();
            },
            GameScreenKind::CreditMenu => {
                self.credit_menu.update();
            },
            _ => {
                // Not implemented yet: fall back to the main menu.
                self.screen.current_screen = GameScreenKind::MainMenu;
            },
        }
    }

    /// Append the blits of the active screen.  A screen that does not
    /// exist yet draws nothing and falls back to the main menu.
    pub fn draw(&mut self, out: &mut Vec<crate::text_fx::Blit>)
        requires
            old(self).wf(),
            old(self).main_menu.base.coords_ok(),
            crate::menu::coord_ok(old(self).main_menu.fps.x as int),
            old(self).audio_menu.base.coords_ok(),
            old(self).gfx_menu.base.coords_ok(),
            old(self).high_score_menu.base.coords_ok(),
            old(self).credit_menu.base.coords_ok(),
        ensures
            final(self).wf(),
            *final(self) == (Game { screen: final(self).screen, ..*old(self) }),
            final(self).screen.current_screen == (if old(self).screen.current_screen
                is ControlsMenu || old(self).screen.current_screen is PlayGame {
                GameScreenKind::MainMenu
            } else {
                old(self).screen.current_screen
            }),
            final(out)@ == old(out)@ + (match old(self).screen.current_screen {
                GameScreenKind::MainMenu => old(self).main_menu.base.blits() + old(
                    self,
                ).main_menu.fps.blits_at(
                    old(self).main_menu.fps.x as int,
                    old(self).main_menu.fps.y as int,
                ),
                GameScreenKind::AudioMenu => old(self).audio_menu.base.blits(),
                GameScreenKind::GFXMenu => old(self).gfx_menu.base.blits(),
                GameScreenKind::HighScoreMenu => old(self).high_score_menu.base.blits(),
                GameScreenKind::CreditMenu => old(self).credit_menu.base.blits(),
                _ => Seq::empty(),
            }),
    {
        match self.screen.current_screen {
            GameScreenKind::MainMenu => {
                self.main_menu.draw(out);
            },
            GameScreenKind::AudioMenu => {
                self.audio_menu.draw(out);
            },
            GameScreenKind::GFXMenu => {
                self.gfx_menu.draw(out);
            },
            GameScreenKind::HighScoreMenu => {
                self.high_score_menu.draw(out);
            },
            GameScreenKind::CreditMenu => {
                self.credit_menu.draw(out);
            },
            _ => {
                // Not implemented yet: fall back to the main menu.
                self.screen.current_screen = GameScreenKind::MainMenu;
                proof {
                    assert(out@ =~= old(out)@ + Seq::<crate::text_fx::Blit>::empty());
                }
            },
        }
    }

    /// Attach the loaded font to every screen.
    pub fn set_font(&mut self, font: &crate::text_fx::Font)
        requires
            old(self).wf(),
            font.wf(),
            (font.width as int) * 32 <= u32::MAX,
            old(self).main_menu.base.coords_ok(),
            old(self).main_menu.base.font_fits(*font),
            (font.width as int) * old(self).main_menu.fps.text@.len() <= u32::MAX,
            old(self).audio_menu.base.coords_ok(),
            old(self).audio_menu.base.font_fits(*font),
            old(self).gfx_menu.base.coords_ok(),
            old(self).gfx_menu.base.font_fits(*font),
            old(self).high_score_menu.base.coords_ok(),
            old(self).high_score_menu.base.font_fits(*font),
            old(self).high_score_menu.table_fits(font.width as int),
            crate::menu::coord_ok(
                old(self).high_score_menu.base.text_y + (old(
                    self,
                ).high_score_menu.base.step as int) * old(
                    self,
                ).high_score_menu.high_score.scores@.len(),
            ),
            old(self).credit_menu.base.coords_ok(),
            old(self).credit_menu.base.font_fits(*font),
        ensures
            final(self).wf(),
            final(self).quit == old(self).quit,
            final(self).screen == old(self).screen,
            final(self).settings == old(self).settings,
            final(self).main_menu.base.title.base.font == Some(*font),
            final(self).audio_menu.base.title.base.font == Some(*font),
            final(self).gfx_menu.base.title.base.font == Some(*font),
            final(self).high_score_menu.base.title.base.font == Some(*font),
            final(self).credit_menu.base.title.base.font == Some(*font),
            final(self).high_score_menu.high_score == old(
                self,
            ).high_score_menu.high_score,
    {
        self.main_menu.set_font(font);
        self.audio_menu.set_font(font);
        self.gfx_menu.set_font(font);
        self.high_score_menu.set_font(font);
        self.credit_menu.set_font(font);
    }

    /// Re-render the option screens' readouts from the current settings,
    /// as after loading stored settings.
    pub fn sync_settings_labels(&mut self)
        requires
            old(self).wf(),
        ensures
            final(self).wf(),
            final(self).quit == old(self).quit,
            final(self).screen == old(self).screen,
            final(self).settings == old(self).settings,
            crate::audio_menu::AudioMenu::labels_refreshed(
                old(self).audio_menu,
                final(self).audio_menu,
                old(self).settings,
            ),
            crate::gfx_menu::GFXMenu::labels_refreshed(
                old(self).gfx_menu,
                final(self).gfx_menu,
                old(self).settings,
            ),
    {
        self.audio_menu.update_settings(&self.settings);
        self.gfx_menu.update_settings(&self.settings);
    }
}

} // verus!
