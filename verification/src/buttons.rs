//! Button edge detection and key-map lookup: the press/release/hold state
//! machine over active-low bitmasks, the pen-button code comparison, and
//! the mapping from button identifiers to emitted key codes.

use vstd::prelude::*;

use crate::events::EventKind;
use crate::events::SyntheticEvent;
use crate::events::spec_key_event;
use crate::events::spec_syn_event;

verus! {

/// The emitted state of a button on one cycle: just pressed, just
/// released, or held down since the previous cycle.
#[derive(Clone, Copy, Debug, PartialEq, Eq, Structural)]
pub enum ButtonState {
    Pressed,
    Released,
    Hold,
}

/// The event value carried by a key event at each button state.
pub open spec fn spec_state_value(s: ButtonState) -> i32 {
    match s {
        ButtonState::Pressed => 1,
        ButtonState::Released => 0,
        ButtonState::Hold => 2,
    }
}

/// Returns the event value carried by a key event at state `s`.
pub fn state_value(s: ButtonState) -> (r: i32)
    ensures
        r == spec_state_value(s),
{
    match s {
        ButtonState::Pressed => 1,
        ButtonState::Released => 0,
        ButtonState::Hold => 2,
    }
}

/// The edge-detection state table: comparing the previous and current
/// pressed state of one button yields the state to emit, or nothing when
/// the button stays unpressed.
pub open spec fn spec_edge(was_pressed: bool, is_pressed: bool) -> Option<ButtonState> {
    match (was_pressed, is_pressed) {
        (false, true) => Some(ButtonState::Pressed),
        (true, false) => Some(ButtonState::Released),
        (true, true) => Some(ButtonState::Hold),
        (false, false) => None,
    }
}

/// Whether bit `i` of an active-low bitmask reads "pressed" (bit value 0).
pub open spec fn spec_bit_pressed(flags: u16, i: u8) -> bool {
    flags & (1u16 << i) == 0
}

/// The edge-detection outcome for tablet button `i`, comparing the
/// previous cycle's bitmask against the current one.
pub open spec fn spec_tablet_edge(last_flags: u16, flags: u16, i: u8) -> Option<ButtonState> {
    spec_edge(spec_bit_pressed(last_flags, i), spec_bit_pressed(flags, i))
}

/// Returns the edge-detection outcome for tablet button `i`.
pub fn tablet_edge(last_flags: u16, flags: u16, i: u8) -> (r: Option<ButtonState>)
    requires
        i < 14,
    ensures
        r == spec_tablet_edge(last_flags, flags, i),
{
    let mask: u16 = 1u16 << i;
    let is_pressed = (flags & mask) == 0;
    let was_pressed = (last_flags & mask) == 0;
    match (was_pressed, is_pressed) {
        (false, true) => Some(ButtonState::Pressed),
        (true, false) => Some(ButtonState::Released),
        (true, true) => Some(ButtonState::Hold),
        (false, false) => None,
    }
}

/// The pen-button field holds a literal code, not a bitmask: code 2 is the
/// "no button" sentinel, codes 4 and 6 are actionable. A press is a step
/// from the sentinel to an actionable code, a release the reverse step,
/// and a hold any repeated non-sentinel code. The identified button is
/// returned with the state.
pub open spec fn spec_pen_edge(last_code: u8, code: u8) -> Option<(ButtonState, u8)> {
    if last_code == 2 && (code == 6 || code == 4) {
        Some((ButtonState::Pressed, code))
    } else if (last_code == 6 || last_code == 4) && code == 2 {
        Some((ButtonState::Released, last_code))
    } else if last_code != 2 && last_code == code {
        Some((ButtonState::Hold, last_code))
    } else {
        None
    }
}

/// Returns the edge-detection outcome for the pen-button code.
pub fn pen_edge(last_code: u8, code: u8) -> (r: Option<(ButtonState, u8)>)
    ensures
        r == spec_pen_edge(last_code, code),
{
    if last_code == 2 && (code == 6 || code == 4) {
        Some((ButtonState::Pressed, code))
    } else if (last_code == 6 || last_code == 4) && code == 2 {
        Some((ButtonState::Released, last_code))
    } else if last_code != 2 && last_code == code {
        Some((ButtonState::Hold, last_code))
    } else {
        None
    }
}

/// What a tablet button position does: most emit their mapped keys, and
/// three are intercepted by the dispatcher itself — shrinking or growing
/// the mouse-emulation area, or toggling the interaction mode. Intercepted
/// positions never reach the virtual keyboard.
#[derive(Clone, Copy, Debug, PartialEq, Eq, Structural)]
pub enum ButtonRole {
    Ordinary,
    AreaShrink,
    AreaGrow,
    ModeToggle,
}

/// The role of tablet button position `i`.
pub open spec fn spec_role(i: u8) -> ButtonRole {
    if i == 6 {
        ButtonRole::AreaShrink
    } else if i == 13 {
        ButtonRole::AreaGrow
    } else if i == 12 {
        ButtonRole::ModeToggle
    } else {
        ButtonRole::Ordinary
    }
}

/// Returns the role of tablet button position `i`.
pub fn role_of(i: u8) -> (r: ButtonRole)
    ensures
        r == spec_role(i),
{
    if i == 6 {
        ButtonRole::AreaShrink
    } else if i == 13 {
        ButtonRole::AreaGrow
    } else if i == 12 {
        ButtonRole::ModeToggle
    } else {
        ButtonRole::Ordinary
    }
}

/// A button map: from a button identifier to the key codes emitted
/// together for that button, as an association list with unique
/// identifiers. Configured at startup, immutable thereafter.
pub type ButtonKeyMap = Vec<(u8, Vec<u16>)>;

/// The key codes a button map assigns to identifier `id`: the entry of
/// the first matching pair, if any.
pub open spec fn spec_map_lookup(entries: Seq<(u8, Vec<u16>)>, id: u8) -> Option<Seq<u16>>
    decreases entries.len(),
{
    if entries.len() == 0 {
        None
    } else if entries[0].0 == id {
        Some(entries[0].1@)
    } else {
        spec_map_lookup(entries.drop_first(), id)
    }
}

/// Looks `id` up in a button map.
pub fn map_lookup<'a>(entries: &'a ButtonKeyMap, id: u8) -> (r: Option<&'a Vec<u16>>)
    ensures
        match r {
            Some(keys) => spec_map_lookup(entries@, id) == Some(keys@),
            None => spec_map_lookup(entries@, id) is None,
        },
{
    let n = entries.len();
    let mut i: usize = 0;
    assert(entries@.skip(0) =~= entries@);
    while i < n
        invariant
            i <= n,
            n == entries@.len(),
            spec_map_lookup(entries@, id) == spec_map_lookup(entries@.skip(i as int), id),
        decreases n - i,
    {
        if entries[i].0 == id {
            assert(entries@.skip(i as int)[0] == entries@[i as int]);
            return Some(&entries[i].1);
        }
        assert(entries@.skip(i as int).drop_first() =~= entries@.skip(i as int + 1));
        i = i + 1;
    }
    assert(entries@.skip(n as int).len() == 0);
    None
}

/// The key events emitted for the key codes `keys` at button state `st`,
/// one per code, in map order.
pub open spec fn spec_key_events(keys: Seq<u16>, st: ButtonState) -> Seq<SyntheticEvent> {
    keys.map_values(|code: u16| spec_key_event(code, spec_state_value(st)))
}

/// Appends to `out` one key event per code in `keys`, at state `st`.
pub fn push_key_events(out: &mut Vec<SyntheticEvent>, keys: &Vec<u16>, st: ButtonState)
    ensures
        final(out)@ =~= old(out)@ + spec_key_events(keys@, st),
{
    let value = state_value(st);
    let n = keys.len();
    let mut i: usize = 0;
    while i < n
        invariant
            i <= n,
            n == keys@.len(),
            value == spec_state_value(st),
            out@ =~= old(out)@ + spec_key_events(keys@.take(i as int), st),
        decreases n - i,
    {
        out.push(SyntheticEvent { kind: EventKind::Key, code: keys[i], value });
        assert(keys@.take(i as int + 1) =~= keys@.take(i as int).push(keys@[i as int]));
        assert(spec_key_events(keys@.take(i as int + 1), st)
            =~= spec_key_events(keys@.take(i as int), st).push(
                spec_key_event(keys@[i as int], spec_state_value(st))));
        i = i + 1;
    }
    assert(keys@.take(n as int) =~= keys@);
}

/// Every key code a button map mentions, in map order: the capability
/// set a virtual endpoint must declare to emit the map's keys.
pub open spec fn spec_flat_keys(entries: Seq<(u8, Vec<u16>)>) -> Seq<u16>
    decreases entries.len(),
{
    if entries.len() == 0 {
        seq![]
    } else {
        entries[0].1@ + spec_flat_keys(entries.drop_first())
    }
}

/// Collects every key code a button map mentions, in map order.
pub fn flat_keys(entries: &ButtonKeyMap) -> (r: Vec<u16>)
    ensures
        r@ =~= spec_flat_keys(entries@),
{
    let mut r: Vec<u16> = Vec::new();
    let n = entries.len();
    let mut i: usize = 0;
    assert(entries@.skip(0) =~= entries@);
    while i < n
        invariant
            i <= n,
            n == entries@.len(),
            spec_flat_keys(entries@) =~= r@ + spec_flat_keys(entries@.skip(i as int)),
        decreases n - i,
    {
        assert(entries@.skip(i as int)[0] == entries@[i as int]);
        assert(entries@.skip(i as int).drop_first() =~= entries@.skip(i as int + 1));
        let keys = &entries[i].1;
        let m = keys.len();
        let mut j: usize = 0;
        while j < m
            invariant
                j <= m,
                m == keys@.len(),
                i < n,
                n == entries@.len(),
                keys@ == entries@[i as int].1@,
                spec_flat_keys(entries@) =~= r@ + keys@.skip(j as int) + spec_flat_keys(
                    entries@.skip(i as int + 1),
                ),
            decreases m - j,
        {
            r.push(keys[j]);
            assert(keys@.skip(j as int).drop_first() =~= keys@.skip(j as int + 1));
            assert(keys@.skip(j as int)[0] == keys@[j as int]);
            j = j + 1;
        }
        assert(keys@.skip(m as int) =~= Seq::<u16>::empty());
        i = i + 1;
    }
    assert(entries@.skip(n as int) =~= Seq::<(u8, Vec<u16>)>::empty());
    r
}

/// The keyboard events one tablet button position contributes on one
/// cycle: nothing without an edge-detection outcome, nothing for an
/// intercepted position, and otherwise one key event per mapped code
/// followed by a synchronization marker — provided the map has an entry.
pub open spec fn spec_tablet_button_events(
    map: Seq<(u8, Vec<u16>)>,
    last_flags: u16,
    flags: u16,
    i: u8,
) -> Seq<SyntheticEvent> {
    match spec_tablet_edge(last_flags, flags, i) {
        None => seq![],
        Some(st) => {
            if spec_role(i) != ButtonRole::Ordinary {
                seq![]
            } else {
                match spec_map_lookup(map, i) {
                    None => seq![],
                    Some(keys) => spec_key_events(keys, st) + seq![spec_syn_event()],
                }
            }
        },
    }
}

/// The pen-endpoint key events the pen-button code contributes on one
/// cycle: one key event per code mapped to the identified button, at the
/// edge-detected state.
pub open spec fn spec_pen_key_events(
    map: Seq<(u8, Vec<u16>)>,
    last_code: u8,
    code: u8,
) -> Seq<SyntheticEvent> {
    match spec_pen_edge(last_code, code) {
        None => seq![],
        Some((st, id)) => match spec_map_lookup(map, id) {
            None => seq![],
            Some(keys) => spec_key_events(keys, st),
        },
    }
}

} // verus!
