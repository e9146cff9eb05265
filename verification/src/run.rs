//! Whole discovery runs: the state that a sequence of events leads to, and
//! the actions asked for on the way.

use vstd::prelude::*;
use vstd::string::*;

use crate::device::Device;
use crate::discovery::{
    action_of, next_state, outcome, rest, result_view, start_state, ActionView, Discovery,
    DiscoveryView, Event, EventView,
};

verus! {

/// The state that a run in `state` reaches on `events`, taken in order.
pub open spec fn run(state: DiscoveryView, events: Seq<EventView>) -> DiscoveryView
    decreases events.len(),
{
    if events.len() == 0 {
        state
    } else {
        run(next_state(state, events[0]), events.drop_first())
    }
}

/// The actions that a run in `state` asks for while `events` are reported to
/// it: the one it asks for before each event, and the one after the last.
pub open spec fn asked(state: DiscoveryView, events: Seq<EventView>) -> Seq<ActionView>
    decreases events.len(),
{
    if events.len() == 0 {
        seq![action_of(state)]
    } else {
        seq![action_of(state)] + asked(next_state(state, events[0]), events.drop_first())
    }
}

/// The result of a discovery run to which the network reported `events`, in
/// this order; `None` where the run is not over after the last of them.
pub fn discover_devices(timeout: Option<u32>, events: &[Event]) -> (result: Option<
    Result<Vec<Device>, String>,
>)
    ensures
        result_view(result) == outcome(run(start_state(timeout), events.deep_view())),
{
    let mut state = Discovery::start(timeout);
    let mut i: usize = 0;
    assert(rest(events.deep_view(), 0) =~= events.deep_view());
    while i < events.len()
        invariant
            i <= events.len(),
            run(state@, rest(events.deep_view(), i as nat)) == run(
                start_state(timeout),
                events.deep_view(),
            ),
        decreases events.len() - i,
    {
        let ghost all = events.deep_view();
        assert(rest(all, i as nat)[0] == events[i as int]@);
        assert(rest(all, i as nat).drop_first() =~= rest(all, (i + 1) as nat));
        state = state.step(&events[i]);
        i += 1;
    }
    state.into_result()
}

/// A run over two stretches of events is the run over the second from where
/// the first one led.
pub proof fn lemma_run_concat(state: DiscoveryView, first: Seq<EventView>, second: Seq<EventView>)
    ensures
        run(state, first + second) == run(run(state, first), second),
    decreases first.len(),
{
    if first.len() == 0 {
        assert(first + second =~= second);
    } else {
        assert((first + second)[0] == first[0]);
        assert((first + second).drop_first() =~= first.drop_first() + second);
        lemma_run_concat(next_state(state, first[0]), first.drop_first(), second);
    }
}

/// A run that is over stays as it is, whatever is reported to it.
pub proof fn lemma_run_is_over(state: DiscoveryView, events: Seq<EventView>)
    requires
        outcome(state) is Some,
    ensures
        run(state, events) == state,
    decreases events.len(),
{
    if events.len() > 0 {
        lemma_run_is_over(state, events.drop_first());
    }
}

/// A run asks for one action more than events are reported to it.
pub proof fn lemma_asked_len(state: DiscoveryView, events: Seq<EventView>)
    ensures
        asked(state, events).len() == events.len() + 1,
    decreases events.len(),
{
    if events.len() > 0 {
        lemma_asked_len(next_state(state, events[0]), events.drop_first());
    }
}

/// The actions over two stretches of events: those of the first stretch
/// but its last, which is the first of the second stretch.
pub proof fn lemma_asked_concat(state: DiscoveryView, first: Seq<EventView>, second: Seq<EventView>)
    ensures
        asked(state, first + second) == asked(state, first).drop_last() + asked(
            run(state, first),
            second,
        ),
    decreases first.len(),
{
    if first.len() == 0 {
        assert(first + second =~= second);
        assert(asked(state, first).drop_last() + asked(state, second) =~= asked(state, second));
    } else {
        let next = next_state(state, first[0]);
        assert((first + second)[0] == first[0]);
        assert((first + second).drop_first() =~= first.drop_first() + second);
        lemma_asked_concat(next, first.drop_first(), second);
        lemma_asked_len(next, first.drop_first());
        assert(asked(state, first + second) =~= asked(state, first).drop_last() + asked(
            run(state, first),
            second,
        ));
    }
}

} // verus!
