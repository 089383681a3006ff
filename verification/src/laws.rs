//! What holds of the control loop, step by step and over whole runs.
//!
//! Every statement here is about [`State::step`], the function that
//! [`crate::control::Local::step`] computes, and is proved from its definition.

use vstd::prelude::*;
use crate::control::{Action, Event, State};
use crate::pin::PinLevel;
use crate::serial::Message;

verus! {

impl State {
    /// The event that reports a write, as sent or as dropped.
    pub open spec fn report(sent: bool) -> Event {
        if sent {
            Event::LineSent
        } else {
            Event::LineDropped
        }
    }

    /// The state after one whole invocation of the handler: the timer
    /// expires, and the write is reported as sent or as dropped.
    pub open spec fn invoked(self, sent: bool) -> State {
        self.step(Event::TimerExpired).0.step(State::report(sent)).0
    }

    /// The state after as many invocations of the handler, one after the
    /// other, as `outcomes` is long. `outcomes[k]` says whether the write of
    /// invocation `k + 1` was sent.
    pub open spec fn invoked_each(self, outcomes: Seq<bool>) -> State
        decreases outcomes.len(),
    {
        if outcomes.len() == 0 {
            self
        } else {
            self.invoked_each(outcomes.drop_last()).invoked(outcomes.last())
        }
    }

    /// The state after a run: the events taken one after the other.
    pub open spec fn run(self, events: Seq<Event>) -> State
        decreases events.len(),
    {
        if events.len() == 0 {
            self
        } else {
            self.run(events.drop_last()).step(events.last()).0
        }
    }

    /// The actions that a run asks for, one for each event, in order.
    pub open spec fn actions(self, events: Seq<Event>) -> Seq<Action>
        decreases events.len(),
    {
        if events.len() == 0 {
            Seq::empty()
        } else {
            self.actions(events.drop_last()).push(
                self.run(events.drop_last()).step(events.last()).1,
            )
        }
    }
}

/// The level that a line which started low has after `count` toggles: high
/// after an odd number, low after an even number.
pub open spec fn level_after(count: nat) -> PinLevel {
    if count % 2 == 1 {
        PinLevel::High
    } else {
        PinLevel::Low
    }
}

/// How many of the actions ask for a status line.
pub open spec fn emits(actions: Seq<Action>) -> nat
    decreases actions.len(),
{
    if actions.len() == 0 {
        0
    } else {
        emits(actions.drop_last()) + if actions.last() is Emit { 1nat } else { 0nat }
    }
}

/// How many of the actions ask for the timer to be acknowledged.
pub open spec fn acknowledges(actions: Seq<Action>) -> nat
    decreases actions.len(),
{
    if actions.len() == 0 {
        0
    } else {
        acknowledges(actions.drop_last()) + if actions.last() is Acknowledge { 1nat } else { 0nat }
    }
}

/// Initialization leaves a well-formed state, outside the handler.
pub proof fn lemma_initial_wf()
    ensures
        State::initial().wf(),
        !State::initial().in_handler(),
{
}

/// A step keeps a well-formed state well-formed.
pub proof fn lemma_step_keeps_wf(s: State, event: Event)
    requires
        s.wf(),
    ensures
        s.step(event).0.wf(),
{
}

/// Start outside the handler with the output line low. After any number of
/// consecutive invocations of the handler, whatever became of each write, the
/// line is high if that number is odd and low if it is even, and the handler
/// has returned.
pub proof fn lemma_toggle_parity(s: State, outcomes: Seq<bool>)
    requires
        s.wf(),
        !s.in_handler(),
        s.led == PinLevel::Low,
    ensures
        s.invoked_each(outcomes).led == level_after(outcomes.len()),
        s.invoked_each(outcomes).wf(),
        !s.invoked_each(outcomes).in_handler(),
    decreases outcomes.len(),
{
    if outcomes.len() > 0 {
        lemma_toggle_parity(s, outcomes.drop_last());
    }
}

/// A full cycle takes two periods. From a well-formed state outside the
/// handler, two consecutive invocations bring every peripheral back to the
/// state it was in, the level of the output line included.
pub proof fn lemma_two_invocations_restore(s: State, first: bool, second: bool)
    requires
        s.wf(),
        !s.in_handler(),
    ensures
        s.invoked(first).led == s.led.toggled(),
        s.invoked(first).invoked(second) == s,
{
}

/// The status lines alternate. Start outside the handler with the output
/// line low. The invocation that follows `outcomes.len()` earlier ones asks
/// for `Tick` if it is the first, third, fifth, ..., and for `Tock` if it is
/// the second, fourth, sixth, ....
pub proof fn lemma_lines_alternate(s: State, outcomes: Seq<bool>)
    requires
        s.wf(),
        !s.in_handler(),
        s.led == PinLevel::Low,
    ensures
        s.invoked_each(outcomes).step(Event::TimerExpired).1 == (Action::Emit {
            level: level_after(outcomes.len() + 1),
            line: if outcomes.len() % 2 == 0 {
                Message::Tick
            } else {
                Message::Tock
            },
        }),
{
    lemma_toggle_parity(s, outcomes);
}

/// The status line and the output line never disagree. Whenever a step asks
/// for a status line, the level it asks for is the toggled one, which is the
/// level that the output line has after the step, and the line is `Tick` if
/// and only if that level is high, `Tock` if and only if it is low.
pub proof fn lemma_line_names_level(s: State, event: Event)
    ensures
        s.step(event).1 matches Action::Emit { level, line } ==> {
            &&& level == s.led.toggled()
            &&& level == s.step(event).0.led
            &&& line == Message::for_level(level)
            &&& line == Message::Tick <==> level == PinLevel::High
            &&& line == Message::Tock <==> level == PinLevel::Low
        },
{
}

/// When the handler returns, the timer's pending flag is down, and the state
/// is the same whether the status line was sent or dropped.
pub proof fn lemma_return_clears_pending(s: State, sent: bool)
    requires
        s.in_handler(),
    ensures
        !s.step(State::report(sent)).0.timer.pending,
        !s.step(State::report(sent)).0.in_handler(),
        s.step(State::report(sent)).1 == Action::Acknowledge,
        s.step(Event::LineSent) == s.step(Event::LineDropped),
{
}

/// From a well-formed state outside the handler, an expiry enters the
/// handler and raises the pending flag, and the invocation ends with the flag
/// down and the output line toggled, whatever became of the write.
pub proof fn lemma_invocation_clears_pending(s: State, sent: bool)
    requires
        s.wf(),
        !s.in_handler(),
    ensures
        s.step(Event::TimerExpired).0.in_handler(),
        s.step(Event::TimerExpired).0.timer.pending,
        !s.invoked(sent).timer.pending,
        !s.invoked(sent).in_handler(),
        s.invoked(sent).led == s.led.toggled(),
{
}

/// While the handler runs, no event enters it again: no step asks for a
/// status line, the output line keeps its level, and the line in flight stays
/// as it is until the write is reported.
pub proof fn lemma_no_reentry(s: State, event: Event)
    requires
        s.in_handler(),
    ensures
        !(s.step(event).1 is Emit),
        s.step(event).0.led == s.led,
        s.step(event).0.uart.in_flight == s.uart.in_flight || !s.step(event).0.in_handler(),
        event == Event::TimerExpired || event == Event::IdleCycle ==> s.step(event).0.uart == s.uart,
{
}

/// The idle activity changes nothing, the timer's pending flag included, and
/// asks for nothing.
pub proof fn lemma_idle_is_inert(s: State)
    ensures
        s.step(Event::IdleCycle) == (s, Action::Nothing),
{
}

/// A run in two parts is the run of the first part, then the run of the
/// second part from where the first one ended.
pub proof fn lemma_run_split(s: State, first: Seq<Event>, second: Seq<Event>)
    ensures
        s.run(first + second) == s.run(first).run(second),
    decreases second.len(),
{
    if second.len() == 0 {
        assert(first + second =~= first);
    } else {
        assert((first + second).drop_last() =~= first + second.drop_last());
        lemma_run_split(s, first, second.drop_last());
    }
}

/// A run keeps a well-formed state well-formed.
pub proof fn lemma_run_keeps_wf(s: State, events: Seq<Event>)
    requires
        s.wf(),
    ensures
        s.run(events).wf(),
        s.actions(events).len() == events.len(),
    decreases events.len(),
{
    if events.len() > 0 {
        lemma_run_keeps_wf(s, events.drop_last());
    }
}

/// An idle cycle at any place in a run makes no difference to the state that
/// the run ends in.
pub proof fn lemma_idle_cycle_leaves_run(s: State, before: Seq<Event>, after: Seq<Event>)
    ensures
        s.run(before + seq![Event::IdleCycle] + after) == s.run(before + after),
{
    let idle = seq![Event::IdleCycle];
    lemma_run_split(s, before + idle, after);
    lemma_run_split(s, before, idle);
    lemma_run_split(s, before, after);
    assert(idle.drop_last() =~= Seq::<Event>::empty());
    assert(s.run(before).run(idle) == s.run(before).run(idle.drop_last()).step(idle.last()).0);
}

/// From a state with the output line low, after any run of events the line
/// is high if the run asked for an odd number of status lines, and low if it
/// asked for an even number: the line changes level once for each status
/// line, and never otherwise.
pub proof fn lemma_level_counts_lines(s: State, events: Seq<Event>)
    requires
        s.led == PinLevel::Low,
    ensures
        s.run(events).led == level_after(emits(s.actions(events))),
    decreases events.len(),
{
    if events.len() > 0 {
        lemma_level_counts_lines(s, events.drop_last());
        assert(s.actions(events).drop_last() =~= s.actions(events.drop_last()));
    }
}

/// Invocations do not overlap. From a well-formed state outside the handler,
/// at any point of any run the handler has been entered as often as it has
/// returned, or once more, and that once more exactly while it is running:
/// an invocation begins only after every earlier one has returned. The
/// timer's flag is up exactly while the handler runs.
pub proof fn lemma_invocations_do_not_overlap(s: State, events: Seq<Event>)
    requires
        s.wf(),
        !s.in_handler(),
    ensures
        emits(s.actions(events)) == acknowledges(s.actions(events)) + if s.run(events).in_handler() {
            1nat
        } else {
            0nat
        },
        s.run(events).timer.pending == s.run(events).in_handler(),
    decreases events.len(),
{
    if events.len() > 0 {
        lemma_invocations_do_not_overlap(s, events.drop_last());
        lemma_run_keeps_wf(s, events.drop_last());
        assert(s.actions(events).drop_last() =~= s.actions(events.drop_last()));
    }
}

} // verus!
