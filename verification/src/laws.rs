//! The driver's cross-cutting laws, each proved once and for all inputs:
//! edge-detection exactness, the area-scale bounds, the multimedia-zone
//! freeze and the touch-transition discipline.

use vstd::prelude::*;

use crate::buttons::ButtonRole;
use crate::buttons::ButtonState;
use crate::buttons::spec_bit_pressed;
use crate::buttons::spec_role;
use crate::buttons::spec_tablet_button_events;
use crate::buttons::spec_tablet_edge;
use crate::dispatcher::DeviceDispatcher;
use crate::dispatcher::spec_frozen_x;
use crate::dispatcher::spec_tablet_events;
use crate::dispatcher::spec_tablet_events_prefix;
use crate::dispatcher::spec_is_multimedia;
use crate::dispatcher::spec_pen_x_out;
use crate::dispatcher::spec_pen_y_out;
use crate::dispatcher::spec_scale_after;
use crate::dispatcher::spec_touch_events;
use crate::events::BTN_TOUCH;
use crate::events::SyntheticEvent;
use crate::events::spec_key_event;
use crate::pipeline::SCALE_MAX_PERMILLE;
use crate::pipeline::SCALE_MIN_PERMILLE;
use crate::report::REPORT_LEN;

verus! {

/// Feeding the all-ones mask ("nothing pressed") and then the mask with
/// bit `i` cleared reads PRESSED for button `i` and nothing for every
/// other button.
pub proof fn lemma_single_clear_presses_one_button(i: u8, j: u8)
    requires
        i < 14,
        j < 14,
    ensures
        spec_tablet_edge(0xffff, !(1u16 << i), i) == Some(ButtonState::Pressed),
        i != j ==> spec_tablet_edge(0xffff, !(1u16 << i), j) is None,
{
    assert(0xffffu16 & (1u16 << i) != 0) by (bit_vector)
        requires
            i < 14,
    ;
    assert(0xffffu16 & (1u16 << j) != 0) by (bit_vector)
        requires
            j < 14,
    ;
    assert((!(1u16 << i)) & (1u16 << i) == 0) by (bit_vector)
        requires
            i < 14,
    ;
    assert(i != j ==> ((!(1u16 << i)) & (1u16 << j)) != 0) by (bit_vector)
        requires
            i < 14 && j < 14,
    ;
}

/// Feeding the same mask on two consecutive cycles reads HOLD, never a
/// second PRESSED, for every button the mask holds down.
pub proof fn lemma_repeated_mask_is_hold(flags: u16, i: u8)
    requires
        spec_bit_pressed(flags, i),
    ensures
        spec_tablet_edge(flags, flags, i) == Some(ButtonState::Hold),
{
}

/// An intercepted button position — area shrink, area grow or the mode
/// toggle — never contributes a keyboard event, whatever edge it sees.
pub proof fn lemma_intercepted_buttons_are_silent(
    map: Seq<(u8, Vec<u16>)>,
    last_flags: u16,
    flags: u16,
    i: u8,
)
    requires
        spec_role(i) != ButtonRole::Ordinary,
    ensures
        spec_tablet_button_events(map, last_flags, flags, i) =~= Seq::<SyntheticEvent>::empty(),
{
}

/// A whole dispatch cycle from the all-ones mask to the mask with bit
/// `i` cleared puts exactly button `i`'s events on the keyboard: every
/// other button contributes nothing.
#[verifier::rlimit(50)]
pub proof fn lemma_single_clear_isolates_one_button(map: Seq<(u8, Vec<u16>)>, i: u8)
    requires
        i < 14,
        i != 10,
        i != 11,
    ensures
        spec_tablet_events(map, 0xffff, !(1u16 << i)) =~= spec_tablet_button_events(
            map,
            0xffff,
            !(1u16 << i),
            i,
        ),
{
    let flags = !(1u16 << i);
    let bi = spec_tablet_button_events(map, 0xffff, flags, i);
    let e = Seq::<SyntheticEvent>::empty();
    assert forall|j: u8| j < 14 && j != i implies #[trigger] spec_tablet_button_events(
        map,
        0xffff,
        flags,
        j,
    ) == e by {
        lemma_single_clear_presses_one_button(i, j);
        assert(spec_tablet_button_events(map, 0xffff, flags, j) =~= e);
    }
    assert(e + e =~= e);
    assert(e + bi =~= bi);
    assert(bi + e =~= bi);
    reveal_with_fuel(spec_tablet_events_prefix, 13);
    assert(i == 0 || i == 1 || i == 2 || i == 3 || i == 4 || i == 5 || i == 6 || i == 7 || i == 8
        || i == 9 || i == 12 || i == 13);
    assert(spec_tablet_events_prefix(map, 0xffff, flags, 12) == bi);
}

/// The area scale never leaves its clamped range, whatever combination
/// of shrink and grow presses one cycle carries.
pub proof fn lemma_scale_stays_in_range(s: int, last_flags: u16, flags: u16)
    requires
        SCALE_MIN_PERMILLE <= s <= SCALE_MAX_PERMILLE,
    ensures
        SCALE_MIN_PERMILLE <= spec_scale_after(s, last_flags, flags) <= SCALE_MAX_PERMILLE,
{
}

/// Inside the multimedia zone the pen reports the frozen X — the last X
/// sampled outside the zone — and a Y of zero, and the frozen X itself
/// does not move, however the raw X varies.
pub proof fn lemma_multimedia_zone_freezes_x(s: DeviceDispatcher, data: Seq<u8>)
    requires
        data.len() == REPORT_LEN,
        spec_is_multimedia(data),
    ensures
        spec_pen_x_out(s, data) == s.last_valid_x as int,
        spec_pen_y_out(s, data) == 0,
        spec_frozen_x(s, data) == s.last_valid_x as int,
{
}

/// The pointer-contact event fires exactly on touch transitions: a press
/// exactly when contact begins, a release exactly when it ends, and
/// nothing while contact is sustained or absent.
pub proof fn lemma_touch_fires_exactly_on_transitions(was_touching: bool, is_touching: bool)
    ensures
        (spec_touch_events(was_touching, is_touching) =~= seq![spec_key_event(BTN_TOUCH, 1)])
            <==> (!was_touching && is_touching),
        (spec_touch_events(was_touching, is_touching) =~= seq![spec_key_event(BTN_TOUCH, 0)])
            <==> (was_touching && !is_touching),
        (spec_touch_events(was_touching, is_touching) =~= Seq::<SyntheticEvent>::empty()) <==> (
        was_touching == is_touching),
{
    let press = seq![spec_key_event(BTN_TOUCH, 1)];
    let release = seq![spec_key_event(BTN_TOUCH, 0)];
    assert(press[0].value == 1);
    assert(release[0].value == 0);
    assert(press[0] != release[0]);
    assert(press.len() == 1 && release.len() == 1);
}

} // verus!
