//! Wave and selectable text animation behaviour.

use mini_magnets::text_fx::Blit;
use mini_magnets::text_fx::Font;
use mini_magnets::text_fx::SelectableText;
use mini_magnets::text_fx::WaveHText;
use mini_magnets::text_fx::WaveText;
use mini_magnets::trig::sine_mille;

fn font_8x8() -> Font {
    Font::new(0, 24, 24, 192, 192).expect("atlas should be accepted")
}

#[test]
fn sine_is_exact_at_the_reference_angles() {
    assert_eq!(sine_mille(0), 0);
    assert_eq!(sine_mille(30), 500);
    assert_eq!(sine_mille(90), 1000);
    assert_eq!(sine_mille(150), 500);
    assert_eq!(sine_mille(180), 0);
    assert_eq!(sine_mille(210), -500);
    assert_eq!(sine_mille(270), -1000);
    assert_eq!(sine_mille(330), -500);
    for d in 0..360 {
        let s = sine_mille(d);
        assert!(-1000 <= s && s <= 1000);
    }
}

#[test]
fn phase_stays_inside_one_turn() {
    let mut wave = WaveText::new(0, 0, 10, 100, 29, String::from("TITLE"));
    for _ in 0..1000 {
        wave.update();
        assert!(wave.phase < 360);
    }
    // The wrap subtracts one turn, preserving the position inside it:
    // from 300, a step of 100 lands on 40.
    let mut wave = WaveText::new(0, 0, 10, 100, 29, String::from("TITLE"));
    wave.phase = 300;
    wave.update();
    assert_eq!(wave.phase, 40);
}

#[test]
fn inactive_wave_does_not_advance() {
    let mut wave = WaveText::new(0, 0, 10, 100, 29, String::from("TITLE"));
    wave.set_active(false);
    wave.update();
    assert_eq!(wave.phase, 0);
}

#[test]
fn wave_displaces_vertically_by_the_sine() {
    let font = font_8x8();
    let mut wave = WaveText::new(100, 200, 10, 6, 0, String::from("AB"));
    wave.set_font(&font);
    wave.phase = 90; // peak of the sine: displacement = full amplitude
    let mut out: Vec<Blit> = Vec::new();
    wave.draw(&mut out);
    assert_eq!(out.len(), 2);
    assert_eq!(out[0].dst_y, 210);
    assert_eq!(out[1].dst_y, 210); // shift 0: both glyphs share the phase
    assert_eq!(out[0].dst_x, 100);
    assert_eq!(out[1].dst_x, 124);

    wave.phase = 270; // trough: displacement = -amplitude
    out.clear();
    wave.draw(&mut out);
    assert_eq!(out[0].dst_y, 190);
}

#[test]
fn inactive_wave_draws_at_the_base_position() {
    let font = font_8x8();
    let mut wave = WaveText::new(100, 200, 10, 6, 29, String::from("AB"));
    wave.set_font(&font);
    wave.phase = 90;
    wave.set_active(false);
    let mut out: Vec<Blit> = Vec::new();
    wave.draw(&mut out);
    assert_eq!(out[0].dst_y, 200);
    assert_eq!(out[1].dst_y, 200);
}

#[test]
fn horizontal_wave_displaces_horizontally() {
    let font = font_8x8();
    let mut wave = WaveHText::new(100, 200, 10, 6, 0, String::from("AB"));
    wave.set_font(&font);
    wave.base.phase = 90;
    let mut out: Vec<Blit> = Vec::new();
    wave.draw(&mut out);
    assert_eq!(out[0].dst_x, 110);
    assert_eq!(out[1].dst_x, 134);
    assert_eq!(out[0].dst_y, 200);
    assert_eq!(out[1].dst_y, 200);
}

#[test]
fn marker_offset_is_a_sawtooth() {
    let mut entry = SelectableText::new(100, 50, 3, String::from("ITEM"));
    entry.set_active(true);
    entry.update();
    assert_eq!(entry.offset, 1);
    entry.update();
    assert_eq!(entry.offset, 2);
    entry.update();
    assert_eq!(entry.offset, 0); // wraps after max_offset ticks
}

#[test]
fn inactive_marker_offset_is_frozen() {
    let mut entry = SelectableText::new(100, 50, 3, String::from("ITEM"));
    entry.set_active(true);
    entry.update();
    assert_eq!(entry.offset, 1);
    entry.set_active(false);
    entry.update();
    entry.update();
    assert_eq!(entry.offset, 1); // frozen, not reset
    entry.set_active(true);
    entry.update();
    assert_eq!(entry.offset, 2); // resumes mid-cycle
}

#[test]
fn markers_rest_outside_the_label() {
    let font = font_8x8();
    let mut entry = SelectableText::new(300, 50, 30, String::from("ITEM"));
    entry.set_font(&font);
    // Left marker: label x minus the marker width minus the gap.
    assert_eq!(entry.left_marker.x, 300 - 2 * 24 - 30);
    // Right marker: label x plus the label width plus the gap.
    assert_eq!(entry.right_marker.x, 300 + 4 * 24 + 30);
    entry.set_x(500);
    assert_eq!(entry.left_marker.x, 500 - 2 * 24 - 30);
    assert_eq!(entry.right_marker.x, 500 + 4 * 24 + 30);
}

#[test]
fn active_markers_are_drawn_displaced_outward() {
    let font = font_8x8();
    let mut entry = SelectableText::new(300, 50, 30, String::from("ITEM"));
    entry.set_font(&font);
    entry.set_active(true);
    entry.update(); // offset 1
    let mut out: Vec<Blit> = Vec::new();
    entry.draw(&mut out);
    // 4 label glyphs, then 2 left marker glyphs, then 2 right marker glyphs.
    assert_eq!(out.len(), 8);
    assert_eq!(out[4].dst_x, (300 - 2 * 24 - 30) - 1);
    assert_eq!(out[6].dst_x, (300 + 4 * 24 + 30) + 1);
}

#[test]
fn inactive_entry_draws_no_markers() {
    let font = font_8x8();
    let mut entry = SelectableText::new(300, 50, 30, String::from("ITEM"));
    entry.set_font(&font);
    let mut out: Vec<Blit> = Vec::new();
    entry.draw(&mut out);
    assert_eq!(out.len(), 4);
}
