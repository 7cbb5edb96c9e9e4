//! One frame of the game: the pending events go to the player in order
//! until a quit event, which ends the game at once; otherwise the player
//! moves one step and the frame is drawn.

use vstd::prelude::*;
use crate::player::{Direction, Event, Player, after_input, after_update, pressed_arrow, PLAYER_SPEED};

verus! {

/// What the game does after a frame's events.
#[derive(Clone, Copy, Debug, PartialEq, Eq, Structural)]
pub enum Flow {
    /// Draw the frame and go on with the next.
    Continue,
    /// Stop without drawing.
    Quit,
}

/// The player after handling `evs` in order.
pub open spec fn apply_events(p: Player, evs: Seq<Event>) -> Player
    decreases evs.len(),
{
    if evs.len() == 0 {
        p
    } else {
        after_input(apply_events(p, evs.drop_last()), evs.last())
    }
}

/// Some event of `evs` is a quit event.
pub open spec fn has_quit(evs: Seq<Event>) -> bool {
    exists|i: int| 0 <= i < evs.len() && evs[i] is Quit
}

/// The heading of the last first press of an arrow key in `evs`, if any.
pub open spec fn last_pressed(evs: Seq<Event>) -> Option<Direction>
    decreases evs.len(),
{
    if evs.len() == 0 {
        None
    } else if pressed_arrow(evs.last()) is Some {
        pressed_arrow(evs.last())
    } else {
        last_pressed(evs.drop_last())
    }
}

/// Runs one frame: hands the events to the player in order and, at the
/// first quit event, returns `Quit` at once, leaving the later events
/// unhandled and the player unmoved. Without a quit event the player then
/// moves one step and the result is `Continue`.
pub fn run_frame(player: &mut Player, events: &Vec<Event>) -> (r: Flow)
    requires
        old(player).wf(),
    ensures
        final(player).wf(),
        r == Flow::Quit <==> has_quit(events@),
        r == Flow::Continue ==> *final(player) == after_update(apply_events(*old(player), events@)),
        r == Flow::Quit ==> exists|q: int|
            0 <= q < events@.len() && events@[q] is Quit && !has_quit(events@.take(q))
                && *final(player) == apply_events(*old(player), events@.take(q)),
{
    let ghost start = *player;
    let mut i: usize = 0;
    while i < events.len()
        invariant
            0 <= i <= events@.len(),
            player.wf(),
            start == *old(player),
            !has_quit(events@.take(i as int)),
            *player == apply_events(start, events@.take(i as int)),
        decreases events@.len() - i,
    {
        let event = events[i];
        if let Event::Quit = event {
            proof {
                assert(events@[i as int] is Quit);
                assert(has_quit(events@));
            }
            return Flow::Quit;
        }
        proof {
            assert(events@.take(i + 1).drop_last() =~= events@.take(i as int));
            assert(events@.take(i + 1).last() == event);
            assert forall|j: int| 0 <= j < i + 1 implies !(#[trigger] events@.take(i + 1)[j] is Quit) by {
                if j < i {
                    assert(events@.take(i + 1)[j] == events@.take(i as int)[j]);
                }
            }
        }
        player.input(&event);
        i += 1;
    }
    assert(events@.take(i as int) =~= events@);
    player.update();
    Flow::Continue
}

/// After any run of key presses (first or repeated, arrow or not), the
/// player faces the way of the last first press of an arrow key and moves
/// at `PLAYER_SPEED`; a run without such a press changes nothing.
pub proof fn lemma_presses_set_heading(p: Player, evs: Seq<Event>)
    requires
        forall|i: int| 0 <= i < evs.len() ==> evs[i] is KeyDown,
    ensures
        last_pressed(evs) is Some ==> apply_events(p, evs).direction == last_pressed(evs)->Some_0
            && apply_events(p, evs).speed == PLAYER_SPEED,
        last_pressed(evs) is None ==> apply_events(p, evs) == p,
    decreases evs.len(),
{
    if evs.len() > 0 {
        let prefix = evs.drop_last();
        assert forall|i: int| 0 <= i < prefix.len() implies prefix[i] is KeyDown by {
            assert(prefix[i] == evs[i]);
        }
        lemma_presses_set_heading(p, prefix);
        assert(evs.last() is KeyDown);
    }
}

} // verus!
