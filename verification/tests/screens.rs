//! Screen controllers, navigation and the high-score round trip.

use mini_magnets::audio_menu::AudioMenu;
use mini_magnets::credit_menu::CreditMenu;
use mini_magnets::game::Game;
use mini_magnets::game::GameScreen;
use mini_magnets::game::GameScreenKind;
use mini_magnets::gfx_menu::GFXMenu;
use mini_magnets::high_score::HighScore;
use mini_magnets::high_score::HighScoreMenu;
use mini_magnets::main_menu::MainMenu;
use mini_magnets::menu::MenuEvent;
use mini_magnets::settings::GameSettings;
use mini_magnets::text_fx::Font;

fn font_8x8() -> Font {
    Font::new(0, 24, 24, 192, 192).expect("atlas should be accepted")
}

#[test]
fn volume_adjustment_updates_value_and_readout() {
    let mut audio = AudioMenu::new();
    let mut screen = GameScreen::new();
    let mut settings = GameSettings::new();
    audio.set_font(&font_8x8());
    assert_eq!(settings.get_sound_vol(), 200);

    // One press of Right on the sound entry: 200 -> 205 and a fresh readout.
    audio.process(&MenuEvent::Right, &mut screen, &mut settings);
    assert_eq!(settings.get_sound_vol(), 205);
    assert_eq!(audio.base.menu[0].base.text, "SFX VOLUME: 205");

    // From 253 the step saturates at 255.
    settings.sound_volume = 253;
    audio.process(&MenuEvent::Right, &mut screen, &mut settings);
    assert_eq!(settings.get_sound_vol(), 255);
    assert_eq!(audio.base.menu[0].base.text, "SFX VOLUME: 255");

    // Further presses change nothing, and the readout is not rebuilt.
    let before = audio.base.menu[0].base.text.clone();
    audio.process(&MenuEvent::Right, &mut screen, &mut settings);
    assert_eq!(settings.get_sound_vol(), 255);
    assert_eq!(audio.base.menu[0].base.text, before);
}

#[test]
fn volume_lowering_saturates_at_zero() {
    let mut audio = AudioMenu::new();
    let mut screen = GameScreen::new();
    let mut settings = GameSettings::new();
    audio.set_font(&font_8x8());
    audio.process(&MenuEvent::Down, &mut screen, &mut settings); // music entry
    settings.music_volume = 2;
    audio.process(&MenuEvent::Left, &mut screen, &mut settings);
    assert_eq!(settings.get_music_vol(), 0);
    assert_eq!(audio.base.menu[1].base.text, "MUSIC VOLUME: 0");
    audio.process(&MenuEvent::Left, &mut screen, &mut settings);
    assert_eq!(settings.get_music_vol(), 0);
}

#[test]
fn audio_back_returns_to_the_main_menu() {
    let mut audio = AudioMenu::new();
    let mut screen = GameScreen::new();
    screen.audio_options();
    let mut settings = GameSettings::new();
    audio.process(&MenuEvent::Up, &mut screen, &mut settings); // wraps to BACK
    assert_eq!(audio.base.menu_item.selected, 2);
    audio.process(&MenuEvent::Confirm, &mut screen, &mut settings);
    assert_eq!(screen.current_screen, GameScreenKind::MainMenu);
}

#[test]
fn main_menu_confirm_opens_the_selected_screen() {
    let mut main = MainMenu::new();
    let mut quit = false;
    let mut screen = GameScreen::new();
    main.process(&MenuEvent::Down, &mut quit, &mut screen);
    assert_eq!(main.base.menu_item.selected, 1); // AUDIO OPTIONS
    main.process(&MenuEvent::Confirm, &mut quit, &mut screen);
    assert_eq!(screen.current_screen, GameScreenKind::AudioMenu);
    assert!(!quit);
}

#[test]
fn main_menu_exit_raises_quit_and_keeps_the_screen() {
    let mut main = MainMenu::new();
    let mut quit = false;
    let mut screen = GameScreen::new();
    main.process(&MenuEvent::Up, &mut quit, &mut screen); // wraps to EXIT
    assert_eq!(main.base.menu_item.selected, 6);
    main.process(&MenuEvent::Confirm, &mut quit, &mut screen);
    assert!(quit);
    assert_eq!(screen.current_screen, GameScreenKind::MainMenu);
}

#[test]
fn gfx_confirm_toggles_fullscreen_and_rewrites_the_readout() {
    let mut gfx = GFXMenu::new();
    let mut screen = GameScreen::new();
    let mut settings = GameSettings::new();
    gfx.set_font(&font_8x8());
    gfx.process(&MenuEvent::Confirm, &mut screen, &mut settings);
    assert!(settings.get_fullscreen());
    assert_eq!(gfx.base.menu[0].base.text, "FULLSCREEN: ON");
    gfx.process(&MenuEvent::Left, &mut screen, &mut settings);
    assert!(!settings.get_fullscreen());
    assert_eq!(gfx.base.menu[0].base.text, "FULLSCREEN: OFF");
}

#[test]
fn gfx_resolution_steps_and_readout() {
    let mut gfx = GFXMenu::new();
    let mut screen = GameScreen::new();
    let mut settings = GameSettings::new();
    gfx.set_font(&font_8x8());
    gfx.process(&MenuEvent::Down, &mut screen, &mut settings); // resolution entry
    gfx.process(&MenuEvent::Right, &mut screen, &mut settings);
    assert_eq!(settings.get_resolution(), 1);
    assert_eq!(gfx.base.menu[1].base.text, "RESOLUTION: 1024x768");
    // At the bottom of the range a further step changes nothing.
    gfx.process(&MenuEvent::Left, &mut screen, &mut settings);
    assert_eq!(settings.get_resolution(), 0);
    let before = gfx.base.menu[1].base.text.clone();
    gfx.process(&MenuEvent::Left, &mut screen, &mut settings);
    assert_eq!(settings.get_resolution(), 0);
    assert_eq!(gfx.base.menu[1].base.text, before);
}

#[test]
fn credit_confirm_returns_to_the_main_menu() {
    let mut credits = CreditMenu::new();
    let mut screen = GameScreen::new();
    screen.credit();
    credits.process(&MenuEvent::Confirm, &mut screen);
    assert_eq!(screen.current_screen, GameScreenKind::MainMenu);
}

#[test]
fn default_high_score_table() {
    let table = HighScore::new();
    assert_eq!(table.scores.len(), 10);
    assert_eq!(table.scores[0], (1000, String::from("WILLI KAPPLER")));
    assert_eq!(table.scores[9], (100, String::from("WILLI KAPPLER")));
}

#[test]
fn high_score_round_trip_sorts_descending() {
    let pairs: Vec<(u32, String)> = vec![
        (300, String::from("CAROL")),
        (900, String::from("ALICE")),
        (100, String::from("DAVE")),
        (1000, String::from("ERIN")),
        (500, String::from("BOB")),
        (700, String::from("FRANK")),
        (200, String::from("GRACE")),
        (800, String::from("HEIDI")),
        (400, String::from("IVAN")),
        (600, String::from("JUDY")),
    ];
    let table = HighScore { scores: pairs };
    let json = table.to_json().expect("encoding should succeed");
    let reloaded = HighScore::from_json(&json).expect("round trip should parse");
    let expected: Vec<(u32, String)> = vec![
        (1000, String::from("ERIN")),
        (900, String::from("ALICE")),
        (800, String::from("HEIDI")),
        (700, String::from("FRANK")),
        (600, String::from("JUDY")),
        (500, String::from("BOB")),
        (400, String::from("IVAN")),
        (300, String::from("CAROL")),
        (200, String::from("GRACE")),
        (100, String::from("DAVE")),
    ];
    assert_eq!(reloaded.scores, expected);
}

#[test]
fn malformed_json_is_rejected() {
    assert!(HighScore::from_json("not json at all").is_none());
    assert!(HighScore::from_json("{\"scores\": 3}").is_none());
    let mut menu = HighScoreMenu::new();
    assert!(!menu.load("still not json"));
    assert_eq!(menu.high_score.scores.len(), 10);
}

#[test]
fn high_score_menu_load_and_refresh() {
    let mut menu = HighScoreMenu::new();
    menu.set_font(&font_8x8());
    let table = HighScore {
        scores: vec![(5, String::from("LOW")), (42, String::from("HIGH"))],
    };
    let json = table.to_json().expect("encoding should succeed");
    assert!(menu.load(&json));
    menu.refresh_table();
    assert_eq!(menu.base.text.len(), 2);
    assert_eq!(menu.base.text[0].text, "42 - HIGH");
    assert_eq!(menu.base.text[1].text, "5 - LOW");
}

#[test]
fn high_score_back_returns_to_the_main_menu() {
    let mut menu = HighScoreMenu::new();
    let mut screen = GameScreen::new();
    screen.high_score();
    menu.process(&MenuEvent::Confirm, &mut screen);
    assert_eq!(screen.current_screen, GameScreenKind::MainMenu);
}

#[test]
fn game_quit_event_raises_the_flag() {
    let mut game = Game::new();
    assert!(!game.quit);
    game.process(&MenuEvent::Quit);
    assert!(game.quit);
}

#[test]
fn game_dispatches_to_the_active_screen() {
    let mut game = Game::new();
    game.set_font(&font_8x8());
    // Navigate into the audio options.
    game.process(&MenuEvent::Down);
    game.process(&MenuEvent::Confirm);
    assert_eq!(game.screen.current_screen, GameScreenKind::AudioMenu);
    // A Right press now adjusts the sound volume.
    game.process(&MenuEvent::Right);
    assert_eq!(game.settings.get_sound_vol(), 205);
    // Back out to the main menu.
    game.process(&MenuEvent::Up);
    game.process(&MenuEvent::Confirm);
    assert_eq!(game.screen.current_screen, GameScreenKind::MainMenu);
}

#[test]
fn game_update_and_draw_cover_the_active_screen() {
    let mut game = Game::new();
    game.set_font(&font_8x8());
    game.sync_settings_labels();
    assert_eq!(game.audio_menu.base.menu[0].base.text, "SFX VOLUME: 200");
    assert_eq!(game.gfx_menu.base.menu[1].base.text, "RESOLUTION: 800x600");
    game.update(60);
    assert_eq!(game.main_menu.fps.text, "FPS: 60");
    let mut out = Vec::new();
    game.draw(&mut out);
    assert!(!out.is_empty());
}

#[test]
fn unfinished_screens_fall_back_to_the_main_menu() {
    let mut game = Game::new();
    game.process(&MenuEvent::Confirm); // START: PlayGame is not implemented
    assert_eq!(game.screen.current_screen, GameScreenKind::PlayGame);
    game.process(&MenuEvent::Escape);
    assert_eq!(game.screen.current_screen, GameScreenKind::MainMenu);
}
