//! Whole runs of a connection: what holds of the actions handed out over any
//! sequence of events.

use crate::session::{next, terminal, ActionView, EventView, PhaseView};
use crate::wire::SOCKS_VERSION;
use vstd::prelude::*;

verus! {

/// The actions handed out, in order, when `events` are reported one by one to
/// a connection that stands in `phase`.
pub open spec fn run_actions(phase: PhaseView, events: Seq<EventView>) -> Seq<ActionView>
    decreases events.len(),
{
    if events.len() == 0 {
        Seq::empty()
    } else {
        seq![next(phase, events[0]).1] + run_actions(
            next(phase, events[0]).0,
            events.drop_first(),
        )
    }
}

/// Whether the connection is past the point at which a reply frame can be
/// sent: the frame is on its way, the relay runs, or the connection has ended.
pub open spec fn past_reply(phase: PhaseView) -> bool {
    phase is Replying || phase is Relaying || terminal(phase)
}

/// Whether the action puts bytes on the wire to the client.
pub open spec fn writes_to_client(action: ActionView) -> bool {
    action is SendMethod || action is SendReply
}

/// A run hands out one action for each event.
pub proof fn run_has_one_action_per_event(phase: PhaseView, events: Seq<EventView>)
    ensures
        run_actions(phase, events).len() == events.len(),
    decreases events.len(),
{
    if events.len() > 0 {
        run_has_one_action_per_event(next(phase, events[0]).0, events.drop_first());
    }
}

/// Once a connection is past its reply, no run sends another reply frame.
pub proof fn no_reply_once_past(phase: PhaseView, events: Seq<EventView>, i: int)
    requires
        past_reply(phase),
        0 <= i < events.len(),
    ensures
        !(run_actions(phase, events)[i] is SendReply),
    decreases events.len(),
{
    let after = next(phase, events[0]).0;
    let rest = events.drop_first();
    run_has_one_action_per_event(after, rest);
    if i > 0 {
        no_reply_once_past(after, rest, i - 1);
        assert(run_actions(phase, events)[i] == run_actions(after, rest)[i - 1]);
    }
}

/// Whatever is reported to a connection, and from whichever phase, it is sent
/// at most one reply frame.
pub proof fn at_most_one_reply(phase: PhaseView, events: Seq<EventView>, i: int, j: int)
    requires
        0 <= i < j < events.len(),
    ensures
        !(run_actions(phase, events)[i] is SendReply && run_actions(phase, events)[j]
            is SendReply),
    decreases events.len(),
{
    let after = next(phase, events[0]).0;
    let rest = events.drop_first();
    run_has_one_action_per_event(after, rest);
    assert(run_actions(phase, events)[j] == run_actions(after, rest)[j - 1]);
    if i == 0 {
        if run_actions(phase, events)[0] is SendReply {
            no_reply_once_past(after, rest, j - 1);
        }
    } else {
        assert(run_actions(phase, events)[i] == run_actions(after, rest)[i - 1]);
        at_most_one_reply(after, rest, i - 1, j - 1);
    }
}

/// A connection that has ended, or was turned away, never reads, writes or
/// connects again: every further action is an abort.
pub proof fn ended_connection_stays_silent(phase: PhaseView, events: Seq<EventView>, i: int)
    requires
        terminal(phase),
        0 <= i < events.len(),
    ensures
        run_actions(phase, events)[i] == ActionView::Abort,
    decreases events.len(),
{
    let after = next(phase, events[0]).0;
    let rest = events.drop_first();
    run_has_one_action_per_event(after, rest);
    if i > 0 {
        ended_connection_stays_silent(after, rest, i - 1);
        assert(run_actions(phase, events)[i] == run_actions(after, rest)[i - 1]);
    }
}

/// A greeting or a request header with a wrong version ends the connection
/// for good: in the whole run that follows, no reply frame and no method
/// reply is written to the client.
pub proof fn wrong_version_is_never_answered(
    phase: PhaseView,
    message: Seq<u8>,
    events: Seq<EventView>,
    i: int,
)
    requires
        phase == PhaseView::Greeting && message.len() == 2 || phase == PhaseView::Request
            && message.len() == 4,
        message[0] != SOCKS_VERSION,
        events.len() > 0,
        events[0] == EventView::Bytes(message),
        0 <= i < events.len(),
    ensures
        !writes_to_client(run_actions(phase, events)[i]),
{
    let after = next(phase, events[0]).0;
    let rest = events.drop_first();
    run_has_one_action_per_event(after, rest);
    assert(after == PhaseView::Closed);
    if i > 0 {
        ended_connection_stays_silent(after, rest, i - 1);
        assert(run_actions(phase, events)[i] == run_actions(after, rest)[i - 1]);
    }
}

} // verus!
