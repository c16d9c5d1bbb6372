//! Selection state, base menu navigation and the small value helpers.

use mini_magnets::decimal::to_decimal;
use mini_magnets::menu::BaseMenu;
use mini_magnets::menu::MenuEvent;
use mini_magnets::menu::MenuItem;
use mini_magnets::settings::GameSettings;
use mini_magnets::settings::limit_range;
use mini_magnets::text_fx::Font;

fn font_8x8() -> Font {
    Font::new(0, 24, 24, 192, 192).expect("atlas should be accepted")
}

fn three_entry_menu() -> BaseMenu {
    BaseMenu::new(
        400,
        100,
        30,
        String::from("TITLE"),
        vec![String::from("LINE ONE"), String::from("LONGEST LINE HERE")],
        vec![String::from("A"), String::from("B"), String::from("C")],
    )
}

#[test]
fn down_cycles_back_after_one_full_turn() {
    let mut item = MenuItem::new(5);
    item.down();
    item.down();
    assert_eq!(item.selected, 2);
    let start = item.selected;
    for _ in 0..5 {
        item.down();
    }
    assert_eq!(item.selected, start);
}

#[test]
fn up_from_the_first_entry_wraps_to_the_last() {
    let mut item = MenuItem::new(5);
    item.up();
    assert_eq!(item.selected, 4);
    item.down();
    assert_eq!(item.selected, 0);
}

#[test]
fn single_entry_menu_never_moves() {
    let mut item = MenuItem::new(1);
    item.up();
    assert_eq!(item.selected, 0);
    item.down();
    assert_eq!(item.selected, 0);
}

fn assert_single_active(menu: &BaseMenu) {
    let mut active_count = 0;
    for (i, entry) in menu.menu.iter().enumerate() {
        if entry.active {
            active_count += 1;
            assert_eq!(i, menu.menu_item.selected);
        }
    }
    assert_eq!(active_count, 1);
}

#[test]
fn exactly_one_entry_is_active_after_any_navigation() {
    let mut menu = three_entry_menu();
    assert_single_active(&menu);
    let script = [
        MenuEvent::Down,
        MenuEvent::Down,
        MenuEvent::Down,
        MenuEvent::Up,
        MenuEvent::Up,
        MenuEvent::Up,
        MenuEvent::Up,
        MenuEvent::Down,
    ];
    let mut expected: usize = 0;
    for event in script.iter() {
        menu.process(event);
        expected = match event {
            MenuEvent::Down => (expected + 1) % 3,
            MenuEvent::Up => (expected + 2) % 3,
            _ => expected,
        };
        assert_eq!(menu.menu_item.selected, expected);
        assert_single_active(&menu);
    }
}

#[test]
fn other_events_do_not_move_the_selection() {
    let mut menu = three_entry_menu();
    menu.process(&MenuEvent::Down);
    assert_eq!(menu.menu_item.selected, 1);
    menu.process(&MenuEvent::Confirm);
    menu.process(&MenuEvent::Left);
    menu.process(&MenuEvent::Right);
    menu.process(&MenuEvent::Escape);
    menu.process(&MenuEvent::Quit);
    assert_eq!(menu.menu_item.selected, 1);
    assert_single_active(&menu);
}

#[test]
fn layout_stacks_title_text_and_entries() {
    let menu = three_entry_menu();
    assert_eq!(menu.title.base.y, 100);
    // The description block starts two steps below the title.
    assert_eq!(menu.text[0].y, 160);
    assert_eq!(menu.text[1].y, 190);
    // The entries start one further step below the description block.
    assert_eq!(menu.menu[0].base.y, 250);
    assert_eq!(menu.menu[1].base.y, 280);
    assert_eq!(menu.menu[2].base.y, 310);
}

#[test]
fn set_font_centers_and_aligns() {
    let mut menu = three_entry_menu();
    let font = font_8x8();
    menu.set_font(&font);
    // The title is centered on its anchor.
    assert_eq!(menu.title.base.x, 400 - (5 * 24) / 2);
    // The description block is aligned to the widest line, centered on
    // the anchor: the widest line has 17 characters.
    let block_x = 400 - (17 * 24) / 2;
    assert_eq!(menu.text[0].x, block_x);
    assert_eq!(menu.text[1].x, block_x);
    // Single-character entries are centered on the anchor.
    assert_eq!(menu.menu[0].base.x, 400 - 24 / 2);
    assert_single_active(&menu);
}

#[test]
fn change_menu_rewrites_one_entry() {
    let mut menu = three_entry_menu();
    let font = font_8x8();
    menu.set_font(&font);
    menu.change_menu(1, String::from("NEW TEXT"));
    assert_eq!(menu.menu[1].base.text, "NEW TEXT");
    assert_eq!(menu.menu[1].base.width, 8 * 24);
    assert_eq!(menu.menu[0].base.text, "A");
    assert_eq!(menu.menu[2].base.text, "C");
    assert_single_active(&menu);
}

#[test]
fn update_advances_only_the_active_entry() {
    // Policy: inactive entries keep their marker offset frozen, so a
    // reactivated entry resumes its breathing cycle where it stopped.
    let mut menu = three_entry_menu();
    menu.update();
    menu.update();
    assert_eq!(menu.menu[0].offset, 2);
    assert_eq!(menu.menu[1].offset, 0);
    assert_eq!(menu.menu[2].offset, 0);
    menu.process(&MenuEvent::Down);
    menu.update();
    assert_eq!(menu.menu[0].offset, 2); // frozen while inactive
    assert_eq!(menu.menu[1].offset, 1);
}

#[test]
fn update_advances_the_title_wave() {
    let mut menu = three_entry_menu();
    assert_eq!(menu.title.phase, 0);
    menu.update();
    assert_eq!(menu.title.phase, mini_magnets::menu::TITLE_SPEED);
    for _ in 0..1000 {
        menu.update();
        assert!(menu.title.phase < 360);
    }
}

#[test]
fn decimal_rendering() {
    assert_eq!(to_decimal(0), "0");
    assert_eq!(to_decimal(7), "7");
    assert_eq!(to_decimal(10), "10");
    assert_eq!(to_decimal(205), "205");
    assert_eq!(to_decimal(4294967295), "4294967295");
}

#[test]
fn limit_range_clamps_both_ends() {
    let mut v: i16 = -3;
    limit_range(&mut v, 0, 255);
    assert_eq!(v, 0);
    let mut v: i16 = 300;
    limit_range(&mut v, 0, 255);
    assert_eq!(v, 255);
    let mut v: i16 = 100;
    limit_range(&mut v, 0, 255);
    assert_eq!(v, 100);
}

#[test]
fn settings_defaults() {
    let s = GameSettings::new();
    assert_eq!(s.start_level, 0);
    assert_eq!(s.sound_volume, 200);
    assert_eq!(s.music_volume, 200);
    assert!(!s.fullscreen);
    assert_eq!(s.resolution, 0);
}

#[test]
fn volumes_saturate_at_the_range_ends() {
    let mut s = GameSettings::new();
    s.sound_volume = 253;
    s.inc_sound_vol();
    assert_eq!(s.get_sound_vol(), 255);
    s.inc_sound_vol();
    assert_eq!(s.get_sound_vol(), 255);
    s.music_volume = 2;
    s.dec_music_vol();
    assert_eq!(s.get_music_vol(), 0);
    s.dec_music_vol();
    assert_eq!(s.get_music_vol(), 0);
}

#[test]
fn resolution_steps_and_names() {
    let mut s = GameSettings::new();
    assert_eq!(s.resolution_to_text(), "800x600");
    s.inc_resolution();
    assert_eq!(s.resolution_to_text(), "1024x768");
    s.inc_resolution();
    assert_eq!(s.resolution_to_text(), "1280x1024");
    s.inc_resolution();
    assert_eq!(s.resolution_to_text(), "1980x1280");
    s.inc_resolution();
    assert_eq!(s.get_resolution(), 3);
    s.dec_resolution();
    s.dec_resolution();
    s.dec_resolution();
    s.dec_resolution();
    assert_eq!(s.get_resolution(), 0);
}

#[test]
fn sanitize_fixes_out_of_range_fields() {
    let mut s = GameSettings::new();
    s.sound_volume = -50;
    s.music_volume = 999;
    s.resolution = 12;
    s.sanitize();
    assert_eq!(s.sound_volume, 0);
    assert_eq!(s.music_volume, 255);
    assert_eq!(s.resolution, 3);
}

#[test]
fn toggle_fullscreen_flips() {
    let mut s = GameSettings::new();
    s.toggle_fullscreen();
    assert!(s.get_fullscreen());
    s.toggle_fullscreen();
    assert!(!s.get_fullscreen());
}
