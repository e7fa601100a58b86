// Tests of the event dispatcher: edge detection, the intercepted
// buttons, the coordinate and pressure pipeline, the multimedia zone,
// touch transitions and the capability sets.

use tablet_driver::DeviceDispatcher;
use tablet_driver::EventKind;
use tablet_driver::RawDataReader;
use tablet_driver::SyntheticEvent;
use tablet_driver::pipeline::mouse_transform;
use tablet_driver::pipeline::normalize_pressure_mode;
use tablet_driver::pipeline::smooth_value;

const KEY_TAB: u16 = 15;
const KEY_LEFTCTRL: u16 = 29;
const KEY_KPMINUS: u16 = 74;
const BTN_TOUCH: u16 = 330;
const BTN_STYLUS: u16 = 331;

fn report(x: u16, y: u16, pressure: u16, pen: u8, tablet_mask: u16) -> RawDataReader {
    let mut r = RawDataReader::new();
    r.data[1] = (x >> 8) as u8;
    r.data[2] = x as u8;
    r.data[3] = (y >> 8) as u8;
    r.data[4] = y as u8;
    r.data[5] = (pressure >> 8) as u8;
    r.data[6] = pressure as u8;
    r.data[9] = pen;
    r.data[12] = (tablet_mask >> 8) as u8;
    r.data[11] = tablet_mask as u8;
    r
}

fn key(code: u16, value: i32) -> SyntheticEvent {
    SyntheticEvent { kind: EventKind::Key, code, value }
}

fn abs(code: u16, value: i32) -> SyntheticEvent {
    SyntheticEvent { kind: EventKind::Absolute, code, value }
}

fn syn() -> SyntheticEvent {
    SyntheticEvent { kind: EventKind::Synchronization, code: 0, value: 0 }
}

#[test]
fn initial_state_matches_defaults() {
    let d = DeviceDispatcher::new();
    assert_eq!(d.tablet_last_raw_pressed_buttons, 0xffff);
    assert_eq!(d.pen_last_raw_pressed_button, 0);
    assert!(!d.was_touching);
    assert!(d.is_mouse_mode);
    assert_eq!(d.last_x, 2048);
    assert_eq!(d.last_y, 2048);
    assert_eq!(d.last_valid_x, 2048);
    assert_eq!(d.mouse_area_scale_permille, 300);
    let e: DeviceDispatcher = Default::default();
    assert_eq!(e.mouse_area_scale_permille, 300);
    assert_eq!(e.tablet_last_raw_pressed_buttons, 0xffff);
}

#[test]
fn first_dispatch_nothing_pressed_emits_axes_only() {
    let mut d = DeviceDispatcher::new();
    let r = report(2048, 2048, 2000, 0, 0xffff);
    let cycle = d.dispatch(&r);
    assert!(cycle.keyboard.is_empty());
    // Smoothing leaves the midpoint in place; the default mouse window
    // magnifies (2048 - 1024) by 3 and recenters, clamped to 4096.
    assert_eq!(cycle.pen, vec![abs(0, 4096), abs(1, 2048), abs(24, 0)]);
    assert!(!d.was_touching);
}

#[test]
fn press_hold_release_of_one_button() {
    let mut d = DeviceDispatcher::new();
    // Clearing bit 0 presses button 0 (Tab); nothing else fires.
    let pressed = d.dispatch(&report(2048, 2048, 2000, 0, 0xfffe));
    assert_eq!(pressed.keyboard, vec![key(KEY_TAB, 1), syn()]);
    // The same mask again reads HOLD, not a second PRESSED.
    let held = d.dispatch(&report(2048, 2048, 2000, 0, 0xfffe));
    assert_eq!(held.keyboard, vec![key(KEY_TAB, 2), syn()]);
    // Raising the bit releases the button.
    let released = d.dispatch(&report(2048, 2048, 2000, 0, 0xffff));
    assert_eq!(released.keyboard, vec![key(KEY_TAB, 0), syn()]);
    // And nothing pressed stays silent.
    let idle = d.dispatch(&report(2048, 2048, 2000, 0, 0xffff));
    assert!(idle.keyboard.is_empty());
}

#[test]
fn two_key_binding_emits_both_keys_then_syn() {
    let mut d = DeviceDispatcher::new();
    // Button 7 carries Ctrl and NumpadMinus together.
    let cycle = d.dispatch(&report(2048, 2048, 2000, 0, 0xff7f));
    assert_eq!(cycle.keyboard, vec![key(KEY_LEFTCTRL, 1), key(KEY_KPMINUS, 1), syn()]);
}

#[test]
fn pen_button_press_hold_release() {
    let mut d = DeviceDispatcher::new();
    // From the zero seed to the idle sentinel: no edge.
    let idle = d.dispatch(&report(2048, 2048, 2000, 2, 0xffff));
    assert_eq!(idle.pen.len(), 3);
    // Sentinel to code 4: the first stylus button is pressed.
    let pressed = d.dispatch(&report(2048, 2048, 2000, 4, 0xffff));
    assert_eq!(pressed.pen[0], key(BTN_STYLUS, 1));
    assert_eq!(pressed.pen.len(), 4);
    // Repeating the code holds it.
    let held = d.dispatch(&report(2048, 2048, 2000, 4, 0xffff));
    assert_eq!(held.pen[0], key(BTN_STYLUS, 2));
    // Back to the sentinel: released.
    let released = d.dispatch(&report(2048, 2048, 2000, 2, 0xffff));
    assert_eq!(released.pen[0], key(BTN_STYLUS, 0));
}

#[test]
fn area_scale_stays_in_bounds_under_many_presses() {
    let mut d = DeviceDispatcher::new();
    // Sixty press/release pairs of the shrink button (position 6).
    for _ in 0..60 {
        d.dispatch(&report(2048, 2048, 2000, 0, 0xffbf));
        assert!((100..=400).contains(&d.mouse_area_scale_permille));
        d.dispatch(&report(2048, 2048, 2000, 0, 0xffff));
        assert!((100..=400).contains(&d.mouse_area_scale_permille));
    }
    assert_eq!(d.mouse_area_scale_permille, 100);
    // Sixty press/release pairs of the grow button (position 13).
    for _ in 0..60 {
        d.dispatch(&report(2048, 2048, 2000, 0, 0xdfff));
        assert!((100..=400).contains(&d.mouse_area_scale_permille));
        d.dispatch(&report(2048, 2048, 2000, 0, 0xffff));
        assert!((100..=400).contains(&d.mouse_area_scale_permille));
    }
    assert_eq!(d.mouse_area_scale_permille, 400);
}

#[test]
fn shrink_sequence_follows_four_fifths_steps() {
    let mut d = DeviceDispatcher::new();
    let mut seen: Vec<u16> = Vec::new();
    for _ in 0..6 {
        d.dispatch(&report(2048, 2048, 2000, 0, 0xffbf));
        seen.push(d.mouse_area_scale_permille);
        d.dispatch(&report(2048, 2048, 2000, 0, 0xffff));
    }
    assert_eq!(seen, vec![240, 192, 153, 122, 100, 100]);
    // A shrink press emits nothing to the keyboard.
    let cycle = d.dispatch(&report(2048, 2048, 2000, 0, 0xffbf));
    assert!(cycle.keyboard.is_empty());
}

#[test]
fn mode_toggle_switches_to_tablet_transform() {
    let mut d = DeviceDispatcher::new();
    // Pressing position 12 toggles the mode and emits no key.
    let toggle = d.dispatch(&report(2048, 2048, 2000, 0, 0xefff));
    assert!(toggle.keyboard.is_empty());
    assert!(!d.is_mouse_mode);
    d.dispatch(&report(2048, 2048, 2000, 0, 0xffff));
    // Tablet mode smooths three-to-one, passes X through and clamps Y.
    let cycle = d.dispatch(&report(4000, 5000, 2000, 0, 0xffff));
    let sx = (2048 * 3 + 4000) / 4;
    let sy = (2048 * 3 + 5000) / 4;
    assert_eq!(cycle.pen, vec![abs(0, sx), abs(1, sy), abs(24, 0)]);
    // A far sample clamps Y to 4095; the history keeps the unclamped value.
    let clamped = d.dispatch(&report(4000, 12000, 2000, 0, 0xffff));
    let sx2 = (sx * 3 + 4000) / 4;
    assert_eq!(clamped.pen, vec![abs(0, sx2), abs(1, 4095), abs(24, 0)]);
    assert_eq!(d.last_y, (sy * 3 + 12000) / 4);
    // Toggling again returns to mouse mode.
    d.dispatch(&report(2048, 2048, 2000, 0, 0xefff));
    assert!(d.is_mouse_mode);
}

#[test]
fn multimedia_zone_freezes_x_and_zeroes_y() {
    let mut d = DeviceDispatcher::new();
    // An ordinary cycle captures its raw X as the frozen value.
    d.dispatch(&report(1000, 2000, 2000, 0, 0xffff));
    assert_eq!(d.last_valid_x, 1000);
    // Three zone cycles with varying raw X all report the frozen X and Y zero.
    for (k, x) in [(0u16, 500u16), (1, 1500), (2, 2500)] {
        let cycle = d.dispatch(&report(x, 61000 + k, 2000, 0, 0xffff));
        assert_eq!(cycle.pen, vec![abs(0, 1000), abs(1, 0), abs(24, 0)]);
        assert_eq!(d.last_valid_x, 1000);
    }
    // Leaving the zone resumes sampling.
    d.dispatch(&report(3000, 2000, 2000, 0, 0xffff));
    assert_eq!(d.last_valid_x, 3000);
}

#[test]
fn pressure_normalization_thresholds_and_scales() {
    // Mouse mode: threshold 800, scale 2.
    assert_eq!(normalize_pressure_mode(1300, 800, 2), 0);
    assert_eq!(normalize_pressure_mode(1100, 800, 2), 1800);
    // Tablet mode: threshold 510, scale 3.
    assert_eq!(normalize_pressure_mode(1600, 510, 3), 0);
    assert_eq!(normalize_pressure_mode(1400, 510, 3), 1800);
}

#[test]
fn touch_fires_only_on_transitions() {
    let mut d = DeviceDispatcher::new();
    // Contact begins: normalized pressure rises above zero.
    let pressed = d.dispatch(&report(2048, 2048, 1100, 0, 0xffff));
    assert_eq!(pressed.pen.len(), 4);
    assert_eq!(pressed.pen[2], abs(24, 1800));
    assert_eq!(pressed.pen[3], key(BTN_TOUCH, 1));
    assert!(d.was_touching);
    // Sustained contact emits no further touch event.
    let sustained = d.dispatch(&report(2048, 2048, 1100, 0, 0xffff));
    assert_eq!(sustained.pen.len(), 3);
    // Contact ends: the release fires once.
    let released = d.dispatch(&report(2048, 2048, 1300, 0, 0xffff));
    assert_eq!(released.pen.len(), 4);
    assert_eq!(released.pen[3], key(BTN_TOUCH, 0));
    assert!(!d.was_touching);
    // And stays silent while absent.
    let idle = d.dispatch(&report(2048, 2048, 1300, 0, 0xffff));
    assert_eq!(idle.pen.len(), 3);
}

#[test]
fn mouse_transform_magnification_depends_on_scale() {
    // Default scale 0.3: window width 1228, factor 3.
    assert_eq!(mouse_transform(1099, 1024, 300), (1099 - 1024) * 3 + 2048);
    // Minimum scale 0.1: window width 409, factor 10.
    assert_eq!(mouse_transform(1099, 1024, 100), (1099 - 1024) * 10 + 2048);
    // Far samples clamp to the output range.
    assert_eq!(mouse_transform(65535, 1024, 300), 4096);
    assert_eq!(mouse_transform(0, 2048, 300), 0);
}

#[test]
fn smoothing_weights_by_mode() {
    assert_eq!(smooth_value(2048, 1000, true), (2048 + 1000) / 2);
    assert_eq!(smooth_value(2048, 1000, false), (2048 * 3 + 1000) / 4);
}

#[test]
fn emit_tablet_key_event_single_button() {
    let mut d = DeviceDispatcher::new();
    let events = d.emit_tablet_key_event(0, 0xfffe);
    assert_eq!(events, vec![key(KEY_TAB, 1), syn()]);
    // An unrelated button sees no edge in the same mask.
    let none = d.emit_tablet_key_event(1, 0xfffe);
    assert!(none.is_empty());
}

#[test]
fn syn_marks_both_endpoints() {
    let d = DeviceDispatcher::new();
    let cycle = d.syn();
    assert_eq!(cycle.pen, vec![syn()]);
    assert_eq!(cycle.keyboard, vec![syn()]);
}

#[test]
fn capability_sets_cover_the_maps() {
    let d = DeviceDispatcher::new();
    assert_eq!(
        d.keyboard_capability_keys(),
        vec![15, 57, 56, 29, 104, 109, 29, 74, 29, 78, 1]
    );
    assert_eq!(d.pen_capability_keys(), vec![331, 332, 320, 272, 273, 330]);
    let axes = DeviceDispatcher::pen_abs_axes();
    assert_eq!(axes.len(), 3);
    assert_eq!((axes[0].code, axes[0].max), (0, 4096));
    assert_eq!((axes[1].code, axes[1].max), (1, 4096));
    assert_eq!((axes[2].code, axes[2].max), (24, 8191));
}
