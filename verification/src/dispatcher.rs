//! The event dispatcher: owns the session state, consumes one decoded
//! report per cycle and produces the synthetic events for the two virtual
//! endpoints, the pen and the keyboard.

use vstd::prelude::*;

use crate::buttons::ButtonKeyMap;
use crate::buttons::flat_keys;
use crate::buttons::spec_flat_keys;
use crate::buttons::ButtonRole;
use crate::buttons::ButtonState;
use crate::buttons::map_lookup;
use crate::buttons::pen_edge;
use crate::buttons::push_key_events;
use crate::buttons::role_of;
use crate::buttons::spec_map_lookup;
use crate::buttons::spec_pen_key_events;
use crate::buttons::spec_tablet_button_events;
use crate::buttons::spec_tablet_edge;
use crate::buttons::tablet_edge;
use crate::events::ABS_PRESSURE;
use crate::events::ABS_X;
use crate::events::ABS_Y;
use crate::events::BTN_LEFT;
use crate::events::BTN_RIGHT;
use crate::events::BTN_STYLUS;
use crate::events::BTN_STYLUS2;
use crate::events::BTN_TOOL_PEN;
use crate::events::BTN_TOUCH;
use crate::events::EventKind;
use crate::events::KEY_ESC;
use crate::events::KEY_KPMINUS;
use crate::events::KEY_KPPLUS;
use crate::events::KEY_LEFTALT;
use crate::events::KEY_LEFTCTRL;
use crate::events::KEY_PAGEDOWN;
use crate::events::KEY_PAGEUP;
use crate::events::KEY_SPACE;
use crate::events::KEY_TAB;
use crate::events::SyntheticEvent;
use crate::events::spec_abs_event;
use crate::events::spec_key_event;
use crate::events::spec_syn_event;
use crate::events::syn_event;
use crate::pipeline::MOUSE_CENTER_X;
use crate::pipeline::MOUSE_CENTER_Y;
use crate::pipeline::OUTPUT_RANGE;
use crate::pipeline::RAW_MAX;
use crate::pipeline::SCALE_DEFAULT_PERMILLE;
use crate::pipeline::SCALE_MAX_PERMILLE;
use crate::pipeline::SCALE_MIN_PERMILLE;
use crate::pipeline::clamp_i32;
use crate::pipeline::grow_scale;
use crate::pipeline::mouse_transform;
use crate::pipeline::pressure_out;
use crate::pipeline::shrink_scale;
use crate::pipeline::smooth_value;
use crate::pipeline::spec_clamp;
use crate::pipeline::spec_grow_scale;
use crate::pipeline::spec_mouse_transform;
use crate::pipeline::spec_pressure_out;
use crate::pipeline::spec_shrink_scale;
use crate::pipeline::spec_smooth;
use crate::report::RawDataReader;
use crate::report::spec_pen_buttons;
use crate::report::spec_pressure;
use crate::report::spec_tablet_buttons;
use crate::report::spec_x_axis;
use crate::report::spec_y_axis;

verus! {

/// The Y value at and above which a report lies in the reserved
/// multimedia zone: the device signals its side control strip with
/// out-of-range Y samples.
pub const MULTIMEDIA_Y_MIN: i32 = 61000;

/// The coordinate-space midpoint that seeds the smoothing history.
pub const COORDINATE_MIDPOINT: i32 = 2048;

/// The events one dispatch cycle produces, one list per virtual
/// endpoint, each in emission order.
pub struct CycleEvents {
    pub pen: Vec<SyntheticEvent>,
    pub keyboard: Vec<SyntheticEvent>,
}

/// The event dispatcher's session state: the previous cycle's raw button
/// encodings, the derived touch state, the interaction mode, the
/// smoothing history, and the two button maps configured at startup.
pub struct DeviceDispatcher {
    pub tablet_last_raw_pressed_buttons: u16,
    pub pen_last_raw_pressed_button: u8,
    pub tablet_button_id_to_key_code_map: ButtonKeyMap,
    pub pen_button_id_to_key_code_map: ButtonKeyMap,
    pub was_touching: bool,
    pub is_mouse_mode: bool,
    pub last_x: i32,
    pub last_y: i32,
    pub last_valid_x: i32,
    pub mouse_area_scale_permille: u16,
}

/// The key codes the default tablet-button map assigns to each position.
/// Positions 6, 12 and 13 are intercepted by the dispatcher and carry no
/// keys; positions 10 and 11 do not exist on the device.
pub open spec fn spec_default_tablet_keys(i: u8) -> Option<Seq<u16>> {
    if i == 0 {
        Some(seq![KEY_TAB])
    } else if i == 1 {
        Some(seq![KEY_SPACE])
    } else if i == 2 {
        Some(seq![KEY_LEFTALT])
    } else if i == 3 {
        Some(seq![KEY_LEFTCTRL])
    } else if i == 4 {
        Some(seq![KEY_PAGEUP])
    } else if i == 5 {
        Some(seq![KEY_PAGEDOWN])
    } else if i == 7 {
        Some(seq![KEY_LEFTCTRL, KEY_KPMINUS])
    } else if i == 8 {
        Some(seq![KEY_LEFTCTRL, KEY_KPPLUS])
    } else if i == 9 {
        Some(seq![KEY_ESC])
    } else {
        None
    }
}

/// The key codes the default pen-button map assigns to each raw code.
pub open spec fn spec_default_pen_keys(i: u8) -> Option<Seq<u16>> {
    if i == 4 {
        Some(seq![BTN_STYLUS])
    } else if i == 6 {
        Some(seq![BTN_STYLUS2])
    } else {
        None
    }
}

/// The freshly constructed dispatcher state: every button reads "not
/// pressed" (the all-ones active-low mask and the zero pen code), no
/// contact, mouse mode, the smoothing history at the coordinate-space
/// midpoint, the default area scale, and the default button maps.
pub open spec fn spec_initial(r: DeviceDispatcher) -> bool {
    &&& r.tablet_last_raw_pressed_buttons == 0xffff
    &&& r.pen_last_raw_pressed_button == 0
    &&& !r.was_touching
    &&& r.is_mouse_mode
    &&& r.last_x == COORDINATE_MIDPOINT
    &&& r.last_y == COORDINATE_MIDPOINT
    &&& r.last_valid_x == COORDINATE_MIDPOINT
    &&& r.mouse_area_scale_permille == SCALE_DEFAULT_PERMILLE
    &&& forall|i: u8|
        spec_map_lookup(r.tablet_button_id_to_key_code_map@, i) == spec_default_tablet_keys(i)
    &&& forall|i: u8|
        spec_map_lookup(r.pen_button_id_to_key_code_map@, i) == spec_default_pen_keys(i)
}

/// Whether a report lies in the reserved multimedia zone.
pub open spec fn spec_is_multimedia(data: Seq<u8>) -> bool {
    spec_y_axis(data) >= MULTIMEDIA_Y_MIN
}

/// The last X sampled outside the multimedia zone, after this cycle: the
/// current raw X on an ordinary cycle, the frozen value inside the zone.
pub open spec fn spec_frozen_x(s: DeviceDispatcher, data: Seq<u8>) -> int {
    if spec_is_multimedia(data) {
        s.last_valid_x as int
    } else {
        spec_x_axis(data) as int
    }
}

/// The smoothed X of this cycle, against the history under the current
/// mode's weights.
pub open spec fn spec_smoothed_x(s: DeviceDispatcher, data: Seq<u8>) -> int {
    spec_smooth(s.last_x as int, spec_x_axis(data) as int, s.is_mouse_mode)
}

/// The smoothed Y of this cycle.
pub open spec fn spec_smoothed_y(s: DeviceDispatcher, data: Seq<u8>) -> int {
    spec_smooth(s.last_y as int, spec_y_axis(data) as int, s.is_mouse_mode)
}

/// The X position the pen endpoint reports this cycle: frozen inside the
/// multimedia zone, otherwise the smoothed X through the mode's spatial
/// transform.
pub open spec fn spec_pen_x_out(s: DeviceDispatcher, data: Seq<u8>) -> int {
    if spec_is_multimedia(data) {
        s.last_valid_x as int
    } else if s.is_mouse_mode {
        spec_mouse_transform(
            spec_smoothed_x(s, data),
            MOUSE_CENTER_X as int,
            s.mouse_area_scale_permille as int,
        )
    } else {
        spec_smoothed_x(s, data)
    }
}

/// The Y position the pen endpoint reports this cycle: forced to zero
/// inside the multimedia zone, otherwise the smoothed Y through the
/// mode's spatial transform.
pub open spec fn spec_pen_y_out(s: DeviceDispatcher, data: Seq<u8>) -> int {
    if spec_is_multimedia(data) {
        0
    } else if s.is_mouse_mode {
        spec_mouse_transform(
            spec_smoothed_y(s, data),
            MOUSE_CENTER_Y as int,
            s.mouse_area_scale_permille as int,
        )
    } else {
        spec_clamp(spec_smoothed_y(s, data), 0, 4095)
    }
}

/// The normalized pressure the pen endpoint reports this cycle.
pub open spec fn spec_pen_pressure_out(s: DeviceDispatcher, data: Seq<u8>) -> int {
    spec_pressure_out(s.is_mouse_mode, spec_pressure(data) as int)
}

/// The pointer-contact events of one cycle: a single contact key event
/// exactly on a touch transition, nothing on sustained contact or
/// sustained absence.
pub open spec fn spec_touch_events(was_touching: bool, is_touching: bool) -> Seq<SyntheticEvent> {
    if !was_touching && is_touching {
        seq![spec_key_event(BTN_TOUCH, 1)]
    } else if was_touching && !is_touching {
        seq![spec_key_event(BTN_TOUCH, 0)]
    } else {
        seq![]
    }
}

/// Everything the pen endpoint receives on one dispatch cycle, in order:
/// the pen-button key events, the three absolute-axis events, and the
/// touch-transition event if any.
pub open spec fn spec_pen_cycle_events(s: DeviceDispatcher, data: Seq<u8>) -> Seq<SyntheticEvent> {
    spec_pen_key_events(
        s.pen_button_id_to_key_code_map@,
        s.pen_last_raw_pressed_button,
        spec_pen_buttons(data),
    ) + seq![
        spec_abs_event(ABS_X, spec_pen_x_out(s, data)),
        spec_abs_event(ABS_Y, spec_pen_y_out(s, data)),
        spec_abs_event(ABS_PRESSURE, spec_pen_pressure_out(s, data)),
    ] + spec_touch_events(s.was_touching, spec_pen_pressure_out(s, data) > 0)
}

/// The identifiers of the tablet buttons, in dispatch order: positions 0
/// through 13, skipping the nonexistent 10 and 11.
pub open spec fn spec_tablet_ids() -> Seq<u8> {
    seq![0u8, 1u8, 2u8, 3u8, 4u8, 5u8, 6u8, 7u8, 8u8, 9u8, 12u8, 13u8]
}

/// The keyboard events of one dispatch cycle: what the first `n` tablet
/// buttons contribute, concatenated in dispatch order.
pub open spec fn spec_tablet_events_prefix(
    map: Seq<(u8, Vec<u16>)>,
    last_flags: u16,
    flags: u16,
    n: int,
) -> Seq<SyntheticEvent>
    decreases n,
{
    if n <= 0 {
        seq![]
    } else {
        spec_tablet_events_prefix(map, last_flags, flags, n - 1) + spec_tablet_button_events(
            map,
            last_flags,
            flags,
            spec_tablet_ids()[n - 1],
        )
    }
}

/// The keyboard events of one dispatch cycle: what all tablet buttons
/// contribute, concatenated in dispatch order.
pub open spec fn spec_tablet_events(
    map: Seq<(u8, Vec<u16>)>,
    last_flags: u16,
    flags: u16,
) -> Seq<SyntheticEvent> {
    spec_tablet_events_prefix(map, last_flags, flags, spec_tablet_ids().len() as int)
}

/// What one button's cycle does to the area scale: the shrink or grow
/// button, freshly pressed, applies its step; anything else leaves it.
pub open spec fn spec_scale_after_button(s: int, last_flags: u16, flags: u16, i: u8) -> int {
    if spec_tablet_edge(last_flags, flags, i) == Some(ButtonState::Pressed) {
        if i == 6 {
            spec_shrink_scale(s)
        } else if i == 13 {
            spec_grow_scale(s)
        } else {
            s
        }
    } else {
        s
    }
}

/// What one button's cycle does to the interaction mode: the toggle
/// button, freshly pressed, flips it.
pub open spec fn spec_mode_after_button(m: bool, last_flags: u16, flags: u16, i: u8) -> bool {
    if i == 12 && spec_tablet_edge(last_flags, flags, i) == Some(ButtonState::Pressed) {
        !m
    } else {
        m
    }
}

/// The area scale after the first `n` tablet buttons of a cycle: the
/// shrink button sits at position 6 of the dispatch order, the grow
/// button at position 11, and shrink is applied first.
pub open spec fn spec_scale_prefix(s: int, last_flags: u16, flags: u16, n: int) -> int {
    let s1 = if n > 6 && spec_tablet_edge(last_flags, flags, 6) == Some(ButtonState::Pressed) {
        spec_shrink_scale(s)
    } else {
        s
    };
    if n > 11 && spec_tablet_edge(last_flags, flags, 13) == Some(ButtonState::Pressed) {
        spec_grow_scale(s1)
    } else {
        s1
    }
}

/// The area scale after a whole tablet-button cycle.
pub open spec fn spec_scale_after(s: int, last_flags: u16, flags: u16) -> int {
    spec_scale_prefix(s, last_flags, flags, spec_tablet_ids().len() as int)
}

/// The interaction mode after the first `n` tablet buttons of a cycle:
/// the toggle button sits at position 10 of the dispatch order.
pub open spec fn spec_mode_prefix(m: bool, last_flags: u16, flags: u16, n: int) -> bool {
    if n > 10 && spec_tablet_edge(last_flags, flags, 12) == Some(ButtonState::Pressed) {
        !m
    } else {
        m
    }
}

/// The interaction mode after a whole tablet-button cycle.
pub open spec fn spec_mode_after(m: bool, last_flags: u16, flags: u16) -> bool {
    spec_mode_prefix(m, last_flags, flags, spec_tablet_ids().len() as int)
}

/// Builds a one-key map entry value.
fn single_key(code: u16) -> (r: Vec<u16>)
    ensures
        r@ =~= seq![code],
{
    let mut v: Vec<u16> = Vec::new();
    v.push(code);
    v
}

/// Builds a two-key map entry value.
fn double_key(code1: u16, code2: u16) -> (r: Vec<u16>)
    ensures
        r@ =~= seq![code1, code2],
{
    let mut v: Vec<u16> = Vec::new();
    v.push(code1);
    v.push(code2);
    v
}

/// Looking a key up in a map extended at the back: an existing entry
/// shadows the new one, otherwise the new entry answers.
proof fn lemma_map_lookup_push(entries: Seq<(u8, Vec<u16>)>, e: (u8, Vec<u16>), id: u8)
    ensures
        spec_map_lookup(entries.push(e), id) == (if spec_map_lookup(entries, id) is Some {
            spec_map_lookup(entries, id)
        } else if e.0 == id {
            Some(e.1@)
        } else {
            None
        }),
    decreases entries.len(),
{
    if entries.len() == 0 {
        assert(entries.push(e)[0] == e);
        assert(entries.push(e).drop_first() =~= Seq::<(u8, Vec<u16>)>::empty());
        assert(spec_map_lookup(Seq::<(u8, Vec<u16>)>::empty(), id) is None);
        assert(spec_map_lookup(entries, id) is None);
        assert(spec_map_lookup(entries.push(e), id) == (if e.0 == id {
            Some(e.1@)
        } else {
            Option::<Seq<u16>>::None
        }));
    } else {
        assert(entries.push(e)[0] == entries[0]);
        assert(entries.push(e).drop_first() =~= entries.drop_first().push(e));
        lemma_map_lookup_push(entries.drop_first(), e, id);
        assert(spec_map_lookup(entries.push(e), id) == (if entries[0].0 == id {
            Some(entries[0].1@)
        } else {
            spec_map_lookup(entries.drop_first().push(e), id)
        }));
    }
}

/// Adds one entry at the back of a button map; an already-mapped
/// identifier keeps its earlier entry.
fn map_insert(m: &mut ButtonKeyMap, id: u8, keys: Vec<u16>)
    ensures
        forall|j: u8|
            spec_map_lookup(final(m)@, j) == (if spec_map_lookup(old(m)@, j) is Some {
                spec_map_lookup(old(m)@, j)
            } else if j == id {
                Some(keys@)
            } else {
                None
            }),
{
    let ghost okeys: Seq<u16> = keys@;
    let ghost oseq = m@;
    m.push((id, keys));
    proof {
        let e = m@.last();
        assert(m@ =~= oseq.push(e));
        assert(e.0 == id && e.1@ == okeys);
        assert forall|j: u8|
            spec_map_lookup(m@, j) == (if spec_map_lookup(oseq, j) is Some {
                spec_map_lookup(oseq, j)
            } else if j == id {
                Some(okeys)
            } else {
                None
            }) by {
            lemma_map_lookup_push(oseq, e, j);
        }
    }
}

/// Builds the default tablet-button map.
fn default_tablet_map() -> (m: ButtonKeyMap)
    ensures
        forall|i: u8| spec_map_lookup(m@, i) == spec_default_tablet_keys(i),
{
    let mut m: ButtonKeyMap = Vec::new();
    map_insert(&mut m, 0, single_key(KEY_TAB));
    map_insert(&mut m, 1, single_key(KEY_SPACE));
    map_insert(&mut m, 2, single_key(KEY_LEFTALT));
    map_insert(&mut m, 3, single_key(KEY_LEFTCTRL));
    map_insert(&mut m, 4, single_key(KEY_PAGEUP));
    map_insert(&mut m, 5, single_key(KEY_PAGEDOWN));
    map_insert(&mut m, 7, double_key(KEY_LEFTCTRL, KEY_KPMINUS));
    map_insert(&mut m, 8, double_key(KEY_LEFTCTRL, KEY_KPPLUS));
    map_insert(&mut m, 9, single_key(KEY_ESC));
    m
}

/// Builds the default pen-button map.
fn default_pen_map() -> (m: ButtonKeyMap)
    ensures
        forall|i: u8| spec_map_lookup(m@, i) == spec_default_pen_keys(i),
{
    let mut m: ButtonKeyMap = Vec::new();
    map_insert(&mut m, 4, single_key(BTN_STYLUS));
    map_insert(&mut m, 6, single_key(BTN_STYLUS2));
    m
}

impl DeviceDispatcher {
    /// The dispatcher's invariant: the area scale stays inside its
    /// clamped range, and the smoothing history and frozen X stay inside
    /// the raw sample range.
    pub open spec fn wf(self) -> bool {
        &&& SCALE_MIN_PERMILLE <= self.mouse_area_scale_permille <= SCALE_MAX_PERMILLE
        &&& 0 <= self.last_x <= RAW_MAX
        &&& 0 <= self.last_y <= RAW_MAX
        &&& 0 <= self.last_valid_x <= RAW_MAX
    }

    /// Creates a dispatcher in the initial session state, with the
    /// default button maps.
    pub fn new() -> (r: Self)
        ensures
            r.wf(),
            spec_initial(r),
    {
        DeviceDispatcher {
            tablet_last_raw_pressed_buttons: 0xffff,
            pen_last_raw_pressed_button: 0,
            tablet_button_id_to_key_code_map: default_tablet_map(),
            pen_button_id_to_key_code_map: default_pen_map(),
            was_touching: false,
            is_mouse_mode: true,
            last_x: COORDINATE_MIDPOINT,
            last_y: COORDINATE_MIDPOINT,
            last_valid_x: COORDINATE_MIDPOINT,
            mouse_area_scale_permille: SCALE_DEFAULT_PERMILLE,
        }
    }

    /// The synchronization marker for both endpoints, closing one
    /// dispatch cycle.
    pub fn syn(&self) -> (r: CycleEvents)
        ensures
            r.pen@ =~= seq![spec_syn_event()],
            r.keyboard@ =~= seq![spec_syn_event()],
    {
        let mut pen: Vec<SyntheticEvent> = Vec::new();
        let mut keyboard: Vec<SyntheticEvent> = Vec::new();
        keyboard.push(syn_event());
        pen.push(syn_event());
        CycleEvents { pen, keyboard }
    }

    /// Smooths the raw coordinates against the history and updates the
    /// history to the result.
    pub fn smooth_coordinates(&mut self, x: i32, y: i32) -> (r: (i32, i32))
        requires
            old(self).wf(),
            0 <= x <= RAW_MAX,
            0 <= y <= RAW_MAX,
        ensures
            final(self).wf(),
            r.0 == spec_smooth(old(self).last_x as int, x as int, old(self).is_mouse_mode),
            r.1 == spec_smooth(old(self).last_y as int, y as int, old(self).is_mouse_mode),
            *final(self) == (DeviceDispatcher { last_x: r.0, last_y: r.1, ..*old(self) }),
    {
        let smoothed_x = smooth_value(self.last_x, x, self.is_mouse_mode);
        let smoothed_y = smooth_value(self.last_y, y, self.is_mouse_mode);
        self.last_x = smoothed_x;
        self.last_y = smoothed_y;
        (smoothed_x, smoothed_y)
    }

    /// The keyboard events and state effect of one tablet button on one
    /// cycle: edge detection against the previous bitmask, the three
    /// intercepted positions acting on the dispatcher itself, and every
    /// other position emitting its mapped keys followed by a
    /// synchronization marker.
    pub fn emit_tablet_key_event(&mut self, i: u8, raw_button_as_flags: u16) -> (events: Vec<
        SyntheticEvent,
    >)
        requires
            old(self).wf(),
            i < 14,
        ensures
            final(self).wf(),
            events@ =~= spec_tablet_button_events(
                old(self).tablet_button_id_to_key_code_map@,
                old(self).tablet_last_raw_pressed_buttons,
                raw_button_as_flags,
                i,
            ),
            final(self).mouse_area_scale_permille as int == spec_scale_after_button(
                old(self).mouse_area_scale_permille as int,
                old(self).tablet_last_raw_pressed_buttons,
                raw_button_as_flags,
                i,
            ),
            final(self).is_mouse_mode == spec_mode_after_button(
                old(self).is_mouse_mode,
                old(self).tablet_last_raw_pressed_buttons,
                raw_button_as_flags,
                i,
            ),
            *final(self) == (DeviceDispatcher {
                mouse_area_scale_permille: final(self).mouse_area_scale_permille,
                is_mouse_mode: final(self).is_mouse_mode,
                ..*old(self)
            }),
    {
        let mut events: Vec<SyntheticEvent> = Vec::new();
        if let Some(state) = tablet_edge(
            self.tablet_last_raw_pressed_buttons,
            raw_button_as_flags,
            i,
        ) {
            match role_of(i) {
                ButtonRole::AreaShrink => {
                    if let ButtonState::Pressed = state {
                        self.mouse_area_scale_permille = shrink_scale(
                            self.mouse_area_scale_permille,
                        );
                    }
                },
                ButtonRole::AreaGrow => {
                    if let ButtonState::Pressed = state {
                        self.mouse_area_scale_permille = grow_scale(self.mouse_area_scale_permille);
                    }
                },
                ButtonRole::ModeToggle => {
                    if let ButtonState::Pressed = state {
                        self.is_mouse_mode = !self.is_mouse_mode;
                    }
                },
                ButtonRole::Ordinary => {
                    if let Some(keys) = map_lookup(&self.tablet_button_id_to_key_code_map, i) {
                        push_key_events(&mut events, keys, state);
                        events.push(syn_event());
                    }
                },
            }
        }
        events
    }

    /// The identifiers of the tablet buttons, in dispatch order.
    fn tablet_ids() -> (r: Vec<u8>)
        ensures
            r@ =~= spec_tablet_ids(),
    {
        let mut v: Vec<u8> = Vec::new();
        v.push(0);
        v.push(1);
        v.push(2);
        v.push(3);
        v.push(4);
        v.push(5);
        v.push(6);
        v.push(7);
        v.push(8);
        v.push(9);
        v.push(12);
        v.push(13);
        v
    }

    /// Runs edge detection over every tablet button against the current
    /// bitmask: applies the intercepted buttons' effects to the
    /// dispatcher and collects the keyboard events of the rest.
    pub fn binary_flags_to_tablet_key_events(&mut self, raw_button_as_flags: u16) -> (events: Vec<
        SyntheticEvent,
    >)
        requires
            old(self).wf(),
        ensures
            final(self).wf(),
            events@ =~= spec_tablet_events(
                old(self).tablet_button_id_to_key_code_map@,
                old(self).tablet_last_raw_pressed_buttons,
                raw_button_as_flags,
            ),
            final(self).mouse_area_scale_permille as int == spec_scale_after(
                old(self).mouse_area_scale_permille as int,
                old(self).tablet_last_raw_pressed_buttons,
                raw_button_as_flags,
            ),
            final(self).is_mouse_mode == spec_mode_after(
                old(self).is_mouse_mode,
                old(self).tablet_last_raw_pressed_buttons,
                raw_button_as_flags,
            ),
            *final(self) == (DeviceDispatcher {
                mouse_area_scale_permille: final(self).mouse_area_scale_permille,
                is_mouse_mode: final(self).is_mouse_mode,
                ..*old(self)
            }),
    {
        let ghost map0 = self.tablet_button_id_to_key_code_map@;
        let ghost last0 = self.tablet_last_raw_pressed_buttons;
        let ghost scale0 = self.mouse_area_scale_permille as int;
        let ghost mode0 = self.is_mouse_mode;
        let ids = Self::tablet_ids();
        let mut events: Vec<SyntheticEvent> = Vec::new();
        let mut idx: usize = 0;
        while idx < 12
            invariant
                idx <= 12,
                ids@ =~= spec_tablet_ids(),
                self.wf(),
                self.tablet_button_id_to_key_code_map@ == map0,
                self.tablet_last_raw_pressed_buttons == last0,
                events@ =~= spec_tablet_events_prefix(
                    map0,
                    last0,
                    raw_button_as_flags,
                    idx as int,
                ),
                self.mouse_area_scale_permille as int == spec_scale_prefix(
                    scale0,
                    last0,
                    raw_button_as_flags,
                    idx as int,
                ),
                self.is_mouse_mode == spec_mode_prefix(
                    mode0,
                    last0,
                    raw_button_as_flags,
                    idx as int,
                ),
                *self == (DeviceDispatcher {
                    mouse_area_scale_permille: self.mouse_area_scale_permille,
                    is_mouse_mode: self.is_mouse_mode,
                    ..*old(self)
                }),
            decreases 12 - idx,
        {
            let i = ids[idx];
            assert(i < 14);
            let mut evs = self.emit_tablet_key_event(i, raw_button_as_flags);
            events.append(&mut evs);
            idx = idx + 1;
        }
        events
    }

    /// Decodes the tablet-button bitmask of a report, dispatches every
    /// button against it, and records it for the next cycle's edge
    /// detection.
    pub fn emit_tablet_events(&mut self, raw_data: &RawDataReader) -> (events: Vec<SyntheticEvent>)
        requires
            old(self).wf(),
            raw_data.wf(),
        ensures
            final(self).wf(),
            events@ =~= spec_tablet_events(
                old(self).tablet_button_id_to_key_code_map@,
                old(self).tablet_last_raw_pressed_buttons,
                spec_tablet_buttons(raw_data.data@),
            ),
            final(self).tablet_last_raw_pressed_buttons == spec_tablet_buttons(raw_data.data@),
            final(self).mouse_area_scale_permille as int == spec_scale_after(
                old(self).mouse_area_scale_permille as int,
                old(self).tablet_last_raw_pressed_buttons,
                spec_tablet_buttons(raw_data.data@),
            ),
            final(self).is_mouse_mode == spec_mode_after(
                old(self).is_mouse_mode,
                old(self).tablet_last_raw_pressed_buttons,
                spec_tablet_buttons(raw_data.data@),
            ),
            *final(self) == (DeviceDispatcher {
                tablet_last_raw_pressed_buttons: final(self).tablet_last_raw_pressed_buttons,
                mouse_area_scale_permille: final(self).mouse_area_scale_permille,
                is_mouse_mode: final(self).is_mouse_mode,
                ..*old(self)
            }),
    {
        let raw_button_as_binary_flags = raw_data.tablet_buttons_as_binary_flags();
        let events = self.binary_flags_to_tablet_key_events(raw_button_as_binary_flags);
        self.tablet_last_raw_pressed_buttons = raw_button_as_binary_flags;
        events
    }

    /// The pen-endpoint key events of the pen-button code this cycle:
    /// edge detection against the previous code, then the mapped keys of
    /// the identified button.
    pub fn raw_pen_buttons_to_pen_key_events(&self, pen_button: u8) -> (events: Vec<
        SyntheticEvent,
    >)
        ensures
            events@ =~= spec_pen_key_events(
                self.pen_button_id_to_key_code_map@,
                self.pen_last_raw_pressed_button,
                pen_button,
            ),
    {
        let mut events: Vec<SyntheticEvent> = Vec::new();
        if let Some((state, id)) = pen_edge(self.pen_last_raw_pressed_button, pen_button) {
            if let Some(keys) = map_lookup(&self.pen_button_id_to_key_code_map, id) {
                push_key_events(&mut events, keys, state);
            }
        }
        events
    }

    /// The three absolute-axis events of one cycle: the mode- and
    /// zone-dependent spatial transform of the smoothed coordinates, and
    /// the normalized pressure, passed through unconditionally.
    pub fn raw_pen_abs_to_pen_abs_events(
        &self,
        x_axis: i32,
        y_axis: i32,
        pressure: i32,
        is_multimedia_area: bool,
    ) -> (events: Vec<SyntheticEvent>)
        requires
            self.wf(),
            0 <= x_axis <= RAW_MAX,
            0 <= y_axis <= RAW_MAX,
        ensures
            events@ =~= seq![
                spec_abs_event(
                    ABS_X,
                    if is_multimedia_area {
                        self.last_valid_x as int
                    } else if self.is_mouse_mode {
                        spec_mouse_transform(
                            x_axis as int,
                            MOUSE_CENTER_X as int,
                            self.mouse_area_scale_permille as int,
                        )
                    } else {
                        x_axis as int
                    },
                ),
                spec_abs_event(
                    ABS_Y,
                    if is_multimedia_area {
                        0
                    } else if self.is_mouse_mode {
                        spec_mouse_transform(
                            y_axis as int,
                            MOUSE_CENTER_Y as int,
                            self.mouse_area_scale_permille as int,
                        )
                    } else {
                        spec_clamp(y_axis as int, 0, 4095)
                    },
                ),
                spec_abs_event(ABS_PRESSURE, pressure as int),
            ],
    {
        let (x, y): (i32, i32) = if is_multimedia_area {
            (self.last_valid_x, 0)
        } else if self.is_mouse_mode {
            let scaled_x = mouse_transform(x_axis, MOUSE_CENTER_X, self.mouse_area_scale_permille);
            let scaled_y = mouse_transform(y_axis, MOUSE_CENTER_Y, self.mouse_area_scale_permille);
            (scaled_x, scaled_y)
        } else {
            (x_axis, clamp_i32(y_axis, 0, 4095))
        };
        let mut events: Vec<SyntheticEvent> = Vec::new();
        events.push(SyntheticEvent { kind: EventKind::Absolute, code: ABS_X, value: x });
        events.push(SyntheticEvent { kind: EventKind::Absolute, code: ABS_Y, value: y });
        events.push(SyntheticEvent { kind: EventKind::Absolute, code: ABS_PRESSURE, value: pressure });
        events
    }

    /// Touch detection: derives the contact state from the normalized
    /// pressure, emits a contact key event exactly on a transition, and
    /// records the state for the next cycle.
    pub fn pen_emit_touch(&mut self, raw_data: &RawDataReader) -> (events: Vec<SyntheticEvent>)
        requires
            old(self).wf(),
            raw_data.wf(),
        ensures
            final(self).wf(),
            events@ =~= spec_touch_events(
                old(self).was_touching,
                spec_pen_pressure_out(*old(self), raw_data.data@) > 0,
            ),
            final(self).was_touching == (spec_pen_pressure_out(*old(self), raw_data.data@) > 0),
            *final(self) == (DeviceDispatcher {
                was_touching: final(self).was_touching,
                ..*old(self)
            }),
    {
        let normalized_pressure = pressure_out(self.is_mouse_mode, raw_data.pressure());
        let is_touching = normalized_pressure > 0;
        let mut events: Vec<SyntheticEvent> = Vec::new();
        match (self.was_touching, is_touching) {
            (false, true) => {
                events.push(SyntheticEvent { kind: EventKind::Key, code: BTN_TOUCH, value: 1 });
            },
            (true, false) => {
                events.push(SyntheticEvent { kind: EventKind::Key, code: BTN_TOUCH, value: 0 });
            },
            _ => {},
        }
        self.was_touching = is_touching;
        events
    }

    /// The whole pen side of one dispatch cycle: captures the frozen X
    /// outside the multimedia zone, runs pen-button edge detection,
    /// normalizes pressure, smooths and transforms the coordinates, and
    /// derives the touch transition.
    pub fn emit_pen_events(&mut self, raw_data: &RawDataReader) -> (events: Vec<SyntheticEvent>)
        requires
            old(self).wf(),
            raw_data.wf(),
        ensures
            final(self).wf(),
            events@ =~= spec_pen_cycle_events(*old(self), raw_data.data@),
            final(self).last_valid_x as int == spec_frozen_x(*old(self), raw_data.data@),
            final(self).pen_last_raw_pressed_button == spec_pen_buttons(raw_data.data@),
            final(self).was_touching == (spec_pen_pressure_out(*old(self), raw_data.data@) > 0),
            final(self).last_x as int == (if spec_is_multimedia(raw_data.data@) {
                old(self).last_x as int
            } else {
                spec_smoothed_x(*old(self), raw_data.data@)
            }),
            final(self).last_y as int == (if spec_is_multimedia(raw_data.data@) {
                old(self).last_y as int
            } else {
                spec_smoothed_y(*old(self), raw_data.data@)
            }),
            *final(self) == (DeviceDispatcher {
                last_valid_x: final(self).last_valid_x,
                pen_last_raw_pressed_button: final(self).pen_last_raw_pressed_button,
                was_touching: final(self).was_touching,
                last_x: final(self).last_x,
                last_y: final(self).last_y,
                ..*old(self)
            }),
    {
        let y_raw = raw_data.y_axis();
        let is_multimedia_area = y_raw >= MULTIMEDIA_Y_MIN;
        if !is_multimedia_area {
            self.last_valid_x = raw_data.x_axis();
        }
        let raw_pen_buttons = raw_data.pen_buttons();
        let mut events = self.raw_pen_buttons_to_pen_key_events(raw_pen_buttons);
        self.pen_last_raw_pressed_button = raw_pen_buttons;

        let normalized_pressure = pressure_out(self.is_mouse_mode, raw_data.pressure());

        let (smoothed_x, smoothed_y) = if is_multimedia_area {
            (self.last_valid_x, 0)
        } else {
            self.smooth_coordinates(raw_data.x_axis(), raw_data.y_axis())
        };

        let mut abs_events = self.raw_pen_abs_to_pen_abs_events(
            smoothed_x,
            smoothed_y,
            normalized_pressure,
            is_multimedia_area,
        );
        events.append(&mut abs_events);

        let mut touch_events = self.pen_emit_touch(raw_data);
        events.append(&mut touch_events);
        events
    }

    /// One dispatch cycle: consumes one decoded report and produces the
    /// events for both endpoints — the pen side first (button keys, axes,
    /// touch), then the keyboard side (tablet-button keys), updating the
    /// whole session state.
    pub fn dispatch(&mut self, raw_data: &RawDataReader) -> (r: CycleEvents)
        requires
            old(self).wf(),
            raw_data.wf(),
        ensures
            final(self).wf(),
            r.pen@ =~= spec_pen_cycle_events(*old(self), raw_data.data@),
            r.keyboard@ =~= spec_tablet_events(
                old(self).tablet_button_id_to_key_code_map@,
                old(self).tablet_last_raw_pressed_buttons,
                spec_tablet_buttons(raw_data.data@),
            ),
            final(self).last_valid_x as int == spec_frozen_x(*old(self), raw_data.data@),
            final(self).pen_last_raw_pressed_button == spec_pen_buttons(raw_data.data@),
            final(self).was_touching == (spec_pen_pressure_out(*old(self), raw_data.data@) > 0),
            final(self).last_x as int == (if spec_is_multimedia(raw_data.data@) {
                old(self).last_x as int
            } else {
                spec_smoothed_x(*old(self), raw_data.data@)
            }),
            final(self).last_y as int == (if spec_is_multimedia(raw_data.data@) {
                old(self).last_y as int
            } else {
                spec_smoothed_y(*old(self), raw_data.data@)
            }),
            final(self).tablet_last_raw_pressed_buttons == spec_tablet_buttons(raw_data.data@),
            final(self).mouse_area_scale_permille as int == spec_scale_after(
                old(self).mouse_area_scale_permille as int,
                old(self).tablet_last_raw_pressed_buttons,
                spec_tablet_buttons(raw_data.data@),
            ),
            final(self).is_mouse_mode == spec_mode_after(
                old(self).is_mouse_mode,
                old(self).tablet_last_raw_pressed_buttons,
                spec_tablet_buttons(raw_data.data@),
            ),
            final(self).tablet_button_id_to_key_code_map == old(
                self,
            ).tablet_button_id_to_key_code_map,
            final(self).pen_button_id_to_key_code_map == old(self).pen_button_id_to_key_code_map,
    {
        let pen = self.emit_pen_events(raw_data);
        let keyboard = self.emit_tablet_events(raw_data);
        CycleEvents { pen, keyboard }
    }
}

/// One absolute axis a virtual pen endpoint declares: its code, range
/// and resolution.
#[derive(Clone, Copy, Debug, PartialEq, Eq, Structural)]
pub struct AbsAxisCap {
    pub code: u16,
    pub min: i32,
    pub max: i32,
    pub resolution: i32,
}

impl DeviceDispatcher {
    /// The key capability set of the virtual keyboard endpoint: every
    /// key the tablet-button map can emit.
    pub fn keyboard_capability_keys(&self) -> (r: Vec<u16>)
        ensures
            r@ =~= spec_flat_keys(self.tablet_button_id_to_key_code_map@),
    {
        flat_keys(&self.tablet_button_id_to_key_code_map)
    }

    /// The key capability set of the virtual pen endpoint: every key the
    /// pen-button map can emit, then the fixed pen-present indicator and
    /// the primary and secondary pointer buttons, then pointer contact.
    pub fn pen_capability_keys(&self) -> (r: Vec<u16>)
        ensures
            r@ =~= spec_flat_keys(self.pen_button_id_to_key_code_map@) + seq![
                BTN_TOOL_PEN,
                BTN_LEFT,
                BTN_RIGHT,
                BTN_TOUCH,
            ],
    {
        let mut r = flat_keys(&self.pen_button_id_to_key_code_map);
        r.push(BTN_TOOL_PEN);
        r.push(BTN_LEFT);
        r.push(BTN_RIGHT);
        r.push(BTN_TOUCH);
        r
    }

    /// The absolute axes of the virtual pen endpoint: X and Y over the
    /// output coordinate range and the pressure axis, all at step one.
    pub fn pen_abs_axes() -> (r: Vec<AbsAxisCap>)
        ensures
            r@ =~= seq![
                (AbsAxisCap { code: ABS_X, min: 0, max: OUTPUT_RANGE, resolution: 1 }),
                (AbsAxisCap { code: ABS_Y, min: 0, max: OUTPUT_RANGE, resolution: 1 }),
                (AbsAxisCap { code: ABS_PRESSURE, min: 0, max: 8191, resolution: 1 }),
            ],
    {
        let mut r: Vec<AbsAxisCap> = Vec::new();
        r.push(AbsAxisCap { code: ABS_X, min: 0, max: OUTPUT_RANGE, resolution: 1 });
        r.push(AbsAxisCap { code: ABS_Y, min: 0, max: OUTPUT_RANGE, resolution: 1 });
        r.push(AbsAxisCap { code: ABS_PRESSURE, min: 0, max: 8191, resolution: 1 });
        r
    }
}

impl Default for DeviceDispatcher {
    /// The default dispatcher is the initial session state.
    fn default() -> (r: Self)
        ensures
            r.wf(),
            spec_initial(r),
    {
        Self::new()
    }
}

} // verus!
