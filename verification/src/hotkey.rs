//! The toggle binding and what a batch of hotkey events does to visibility.

use vstd::prelude::*;
use global_hotkey::hotkey::HotKey;
use crate::providers::{chord_token, new_chord, ChordKey};

verus! {

/// The registered toggle chord, known by the identity token that the hotkey
/// facility puts on each of its events.
#[derive(Clone, Copy, Debug, PartialEq, Eq, Structural)]
pub struct HotkeyBinding {
    pub id: u32,
}

/// Whether the toggle chord holds the Alt modifier.
pub const TOGGLE_WITH_ALT: bool = true;

/// The key of the toggle chord.
pub open spec fn toggle_key() -> ChordKey {
    ChordKey::KeyT
}

/// The token of the toggle chord, Alt+T.
pub open spec fn toggle_token() -> u32 {
    chord_token(TOGGLE_WITH_ALT, toggle_key())
}

/// Makes the toggle chord, Alt+T, and the binding that stands for it.
pub fn toggle_chord() -> (chord: (HotKey, HotkeyBinding))
    ensures
        chord.1.id == toggle_token(),
{
    let (hotkey, id): (HotKey, u32) = new_chord(TOGGLE_WITH_ALT, ChordKey::KeyT);
    (hotkey, HotkeyBinding { id })
}

/// How many of `events` carry the token `id`.
pub open spec fn matching_events(events: Seq<u32>, id: u32) -> nat
    decreases events.len(),
{
    if events.len() == 0 {
        0
    } else {
        matching_events(events.drop_last(), id) + if events.last() == id {
            1nat
        } else {
            0nat
        }
    }
}

/// Visibility after `events`: each event with the token `id` flips it once,
/// every other event leaves it alone.
pub open spec fn visibility_after(visible: bool, events: Seq<u32>, id: u32) -> bool {
    if matching_events(events, id) % 2 == 0 {
        visible
    } else {
        !visible
    }
}

/// Applies a batch of drained events to the visibility flag.
pub fn apply_hotkey_events(
    visible: bool,
    events: &Vec<u32>,
    binding: &HotkeyBinding,
) -> (after: bool)
    ensures
        after == visibility_after(visible, events@, binding.id),
{
    let mut current: bool = visible;
    let mut i: usize = 0;
    while i < events.len()
        invariant
            i <= events.len(),
            current == visibility_after(visible, events@.take(i as int), binding.id),
        decreases events.len() - i,
    {
        proof {
            assert(events@.take(i + 1).drop_last() == events@.take(i as int));
        }
        if events[i] == binding.id {
            current = !current;
        }
        i = i + 1;
    }
    proof {
        assert(events@.take(i as int) == events@);
    }
    current
}

/// One more event at the end of a batch flips the outcome if it carries the
/// token, and changes nothing otherwise.
pub proof fn lemma_event_appended(visible: bool, events: Seq<u32>, event: u32, id: u32)
    ensures
        visibility_after(visible, events.push(event), id) == if event == id {
            !visibility_after(visible, events, id)
        } else {
            visibility_after(visible, events, id)
        },
{
    assert(events.push(event).drop_last() == events);
}

/// One matching event flips the visibility; a second one flips it back.
pub proof fn lemma_toggle_and_back(visible: bool, id: u32)
    ensures
        visibility_after(visible, seq![id], id) == !visible,
        visibility_after(visible, seq![id, id], id) == visible,
        visibility_after(visible, Seq::<u32>::empty(), id) == visible,
{
    let one: Seq<u32> = seq![id];
    let two: Seq<u32> = seq![id, id];
    assert(one.drop_last() == Seq::<u32>::empty());
    assert(two.drop_last() == one);
    assert(matching_events(Seq::<u32>::empty(), id) == 0);
    assert(matching_events(one, id) == 1);
    assert(matching_events(two, id) == 2);
}

/// Events that do not carry the token never change the visibility.
pub proof fn lemma_noise_ignored(visible: bool, events: Seq<u32>, id: u32)
    requires
        forall|i: int| 0 <= i < events.len() ==> events[i] != id,
    ensures
        matching_events(events, id) == 0,
        visibility_after(visible, events, id) == visible,
    decreases events.len(),
{
    if events.len() > 0 {
        lemma_noise_ignored(visible, events.drop_last(), id);
    }
}

/// Applying two batches one after the other is applying their concatenation.
pub proof fn lemma_batches_compose(visible: bool, first: Seq<u32>, second: Seq<u32>, id: u32)
    ensures
        matching_events(first + second, id) == matching_events(first, id) + matching_events(
            second,
            id,
        ),
        visibility_after(visibility_after(visible, first, id), second, id) == visibility_after(
            visible,
            first + second,
            id,
        ),
    decreases second.len(),
{
    if second.len() == 0 {
        assert(first + second == first);
    } else {
        assert((first + second).drop_last() == first + second.drop_last());
        lemma_batches_compose(visible, first, second.drop_last(), id);
    }
}

} // verus!
