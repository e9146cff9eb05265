//! What a discovery run gathers: the hosts it queries and the devices it
//! ends with, stated of every run and proved from the steps of the state
//! machine.

use vstd::prelude::*;

use crate::device::{DeviceView, SonyResultView};
use crate::discovery::{
    action_of, answer_devices, next_query, outcome, start_state, ActionView, DiscoveryView,
    EventView,
};
use crate::location::location_host;
use crate::protocol::{request_to, resolved_timeout, search_for, REQUEST_TIMEOUT_SECS};
use crate::run::{asked, lemma_asked_concat, lemma_run_concat, lemma_run_is_over, run};

verus! {

/// The hosts that the locations name, in the order of the locations; a
/// location that names none is left out.
pub open spec fn hosts_of(locations: Seq<Seq<char>>) -> Seq<Seq<char>>
    decreases locations.len(),
{
    if locations.len() == 0 {
        Seq::empty()
    } else {
        match location_host(locations[0]) {
            Some(host) => seq![host] + hosts_of(locations.drop_first()),
            None => hosts_of(locations.drop_first()),
        }
    }
}

/// The devices of a run that queried `hosts` in this order and got
/// `answers`, the first answer from the first host: those of the first host,
/// then those of the second, and so on.
pub open spec fn gathered(hosts: Seq<Seq<char>>, answers: Seq<Option<Seq<SonyResultView>>>) -> Seq<
    DeviceView,
>
    decreases hosts.len(),
{
    if hosts.len() == 0 || answers.len() == 0 {
        Seq::empty()
    } else {
        answer_devices(hosts[0], answers[0]) + gathered(hosts.drop_first(), answers.drop_first())
    }
}

/// The number of entries in the answers of the queries that succeeded.
pub open spec fn entries_in(answers: Seq<Option<Seq<SonyResultView>>>) -> nat
    decreases answers.len(),
{
    if answers.len() == 0 {
        0
    } else {
        let first: nat = match answers[0] {
            Some(entries) => entries.len(),
            None => 0,
        };
        first + entries_in(answers.drop_first())
    }
}

/// One advertisement event for each location.
pub open spec fn advertisements(locations: Seq<Seq<char>>) -> Seq<EventView> {
    Seq::new(locations.len(), |i: int| EventView::Advertisement(locations[i]))
}

/// One answer event for each answer.
pub open spec fn answer_events(answers: Seq<Option<Seq<SonyResultView>>>) -> Seq<EventView> {
    Seq::new(answers.len(), |i: int| EventView::Answer(answers[i]))
}

/// Whether `event` ends the collection of advertisements.
pub open spec fn closes_collection(event: EventView) -> bool {
    event is Malformed || event is SearchEnded
}

/// The events of a run whose search started: the advertisements with
/// `locations` arrive, `closing` ends the collection, and the queries are
/// answered by `answers`.
pub open spec fn script(
    locations: Seq<Seq<char>>,
    closing: EventView,
    answers: Seq<Option<Seq<SonyResultView>>>,
) -> Seq<EventView> {
    seq![EventView::SearchStarted] + advertisements(locations) + seq![closing] + answer_events(
        answers,
    )
}

/// `count` times the wait for an advertisement.
pub open spec fn waits(count: nat) -> Seq<ActionView> {
    Seq::new(count, |i: int| ActionView::AwaitAdvertisement)
}

/// One metadata query for each host, in the order of the hosts.
pub open spec fn queries(hosts: Seq<Seq<char>>) -> Seq<ActionView> {
    Seq::new(hosts.len(), |i: int| ActionView::Query(request_to(hosts[i])))
}

/// The seconds within which an action is over at the latest. The waits for
/// advertisements fall into the duration of the search and are counted with
/// it; taking the result takes no time.
pub open spec fn time_limit(action: ActionView) -> nat {
    match action {
        ActionView::Search(request) => request.timeout_secs as nat,
        ActionView::Query(request) => request.timeout_secs as nat,
        ActionView::AwaitAdvertisement => 0,
        ActionView::Finish => 0,
    }
}

/// The time limits of `actions`, added up.
pub open spec fn time_limits(actions: Seq<ActionView>) -> nat
    decreases actions.len(),
{
    if actions.len() == 0 {
        0
    } else {
        time_limit(actions[0]) + time_limits(actions.drop_first())
    }
}

/// No more hosts are queried than advertisements were collected.
pub proof fn lemma_hosts_bound(locations: Seq<Seq<char>>)
    ensures
        hosts_of(locations).len() <= locations.len(),
    decreases locations.len(),
{
    if locations.len() > 0 {
        lemma_hosts_bound(locations.drop_first());
    }
}

/// The hosts of two stretches of locations are those of the first, then
/// those of the second.
pub proof fn lemma_hosts_concat(first: Seq<Seq<char>>, second: Seq<Seq<char>>)
    ensures
        hosts_of(first + second) == hosts_of(first) + hosts_of(second),
    decreases first.len(),
{
    if first.len() == 0 {
        assert(first + second =~= second);
        assert(hosts_of(first) + hosts_of(second) =~= hosts_of(second));
    } else {
        assert((first + second)[0] == first[0]);
        assert((first + second).drop_first() =~= first.drop_first() + second);
        lemma_hosts_concat(first.drop_first(), second);
        assert(hosts_of(first + second) =~= hosts_of(first) + hosts_of(second));
    }
}

/// The devices of two stretches of queries are those of the first, then
/// those of the second.
pub proof fn lemma_gathered_concat(
    hosts: Seq<Seq<char>>,
    answers: Seq<Option<Seq<SonyResultView>>>,
    more_hosts: Seq<Seq<char>>,
    more_answers: Seq<Option<Seq<SonyResultView>>>,
)
    requires
        hosts.len() == answers.len(),
    ensures
        gathered(hosts + more_hosts, answers + more_answers) == gathered(hosts, answers) + gathered(
            more_hosts,
            more_answers,
        ),
    decreases hosts.len(),
{
    if hosts.len() == 0 {
        assert(hosts + more_hosts =~= more_hosts);
        assert(answers + more_answers =~= more_answers);
        assert(gathered(hosts, answers) + gathered(more_hosts, more_answers) =~= gathered(
            more_hosts,
            more_answers,
        ));
    } else {
        assert((hosts + more_hosts)[0] == hosts[0]);
        assert((answers + more_answers)[0] == answers[0]);
        assert((hosts + more_hosts).drop_first() =~= hosts.drop_first() + more_hosts);
        assert((answers + more_answers).drop_first() =~= answers.drop_first() + more_answers);
        lemma_gathered_concat(hosts.drop_first(), answers.drop_first(), more_hosts, more_answers);
        assert(gathered(hosts + more_hosts, answers + more_answers) =~= gathered(hosts, answers)
            + gathered(more_hosts, more_answers));
    }
}

/// A run finds one device for each entry of each answer: entries that
/// agree, from one host or from several advertisements of one host, stay
/// apart.
pub proof fn lemma_one_device_per_entry(
    hosts: Seq<Seq<char>>,
    answers: Seq<Option<Seq<SonyResultView>>>,
)
    requires
        hosts.len() == answers.len(),
    ensures
        gathered(hosts, answers).len() == entries_in(answers),
    decreases hosts.len(),
{
    if hosts.len() > 0 {
        lemma_one_device_per_entry(hosts.drop_first(), answers.drop_first());
    }
}

/// While a run collects, each advertisement adds its location behind those
/// that came before.
pub proof fn lemma_run_collects(have: Seq<Seq<char>>, locations: Seq<Seq<char>>)
    ensures
        run(DiscoveryView::Collecting { locations: have }, advertisements(locations))
            == (DiscoveryView::Collecting { locations: have + locations }),
    decreases locations.len(),
{
    let events = advertisements(locations);
    if locations.len() == 0 {
        assert(have + locations =~= have);
    } else {
        assert(events[0] == EventView::Advertisement(locations[0]));
        assert(events.drop_first() =~= advertisements(locations.drop_first()));
        lemma_run_collects(have.push(locations[0]), locations.drop_first());
        assert(have.push(locations[0]) + locations.drop_first() =~= have + locations);
    }
}

/// Once the collection is closed, the run queries the hosts of the
/// remaining locations in order, takes one answer for each, and finishes
/// with the devices it had and those that the answers add.
pub proof fn lemma_run_queries(
    remaining: Seq<Seq<char>>,
    devices: Seq<DeviceView>,
    answers: Seq<Option<Seq<SonyResultView>>>,
)
    requires
        answers.len() == hosts_of(remaining).len(),
    ensures
        run(next_query(remaining, devices), answer_events(answers)) == (DiscoveryView::Finished {
            devices: devices + gathered(hosts_of(remaining), answers),
        }),
    decreases remaining.len(),
{
    let events = answer_events(answers);
    if remaining.len() == 0 {
        assert(devices + gathered(hosts_of(remaining), answers) =~= devices);
    } else {
        let later = remaining.drop_first();
        match location_host(remaining[0]) {
            None => {
                lemma_run_queries(later, devices, answers);
            },
            Some(host) => {
                let hosts = hosts_of(remaining);
                assert(hosts[0] == host);
                assert(hosts.drop_first() =~= hosts_of(later));
                let added = answer_devices(host, answers[0]);
                assert(events[0] == EventView::Answer(answers[0]));
                assert(events.drop_first() =~= answer_events(answers.drop_first()));
                lemma_run_queries(later, devices + added, answers.drop_first());
                assert((devices + added) + gathered(hosts_of(later), answers.drop_first())
                    =~= devices + gathered(hosts, answers));
            },
        }
    }
}

/// A run whose search started, that collected the advertisements with
/// `locations` and got one answer for each host that they name, finishes
/// with the devices of those answers, in the order of the hosts: nothing
/// else is added, and nothing is left out or merged.
pub proof fn lemma_run_gathers(
    timeout: Option<u32>,
    locations: Seq<Seq<char>>,
    closing: EventView,
    answers: Seq<Option<Seq<SonyResultView>>>,
)
    requires
        closes_collection(closing),
        answers.len() == hosts_of(locations).len(),
    ensures
        run(start_state(timeout), script(locations, closing, answers)) == (DiscoveryView::Finished {
            devices: gathered(hosts_of(locations), answers),
        }),
        outcome(run(start_state(timeout), script(locations, closing, answers))) == Some(
            Ok::<Seq<DeviceView>, Seq<char>>(gathered(hosts_of(locations), answers)),
        ),
{
    let started = seq![EventView::SearchStarted];
    let collecting = DiscoveryView::Collecting { locations: Seq::<Seq<char>>::empty() };
    let collected = DiscoveryView::Collecting { locations };
    let none = Seq::<DeviceView>::empty();
    assert(run(start_state(timeout), started) == collecting) by {
        assert(started.drop_first() =~= Seq::<EventView>::empty());
        assert(run(collecting, started.drop_first()) == collecting);
    }
    assert(run(collecting, advertisements(locations)) == collected) by {
        lemma_run_collects(Seq::empty(), locations);
        assert(Seq::<Seq<char>>::empty() + locations =~= locations);
    }
    assert(run(collected, seq![closing]) == next_query(locations, none)) by {
        assert(seq![closing].drop_first() =~= Seq::<EventView>::empty());
        assert(run(next_query(locations, none), seq![closing].drop_first()) == next_query(
            locations,
            none,
        ));
    }
    lemma_run_queries(locations, none, answers);
    assert(none + gathered(hosts_of(locations), answers) =~= gathered(hosts_of(locations), answers));
    lemma_run_concat(start_state(timeout), started, advertisements(locations));
    lemma_run_concat(start_state(timeout), started + advertisements(locations), seq![closing]);
    lemma_run_concat(
        start_state(timeout),
        started + advertisements(locations) + seq![closing],
        answer_events(answers),
    );
}

/// A run whose search started and brought no advertisement finishes with an
/// empty list of devices.
pub proof fn lemma_no_advertisements(timeout: Option<u32>, closing: EventView)
    requires
        closes_collection(closing),
    ensures
        run(start_state(timeout), seq![EventView::SearchStarted, closing]) == (
        DiscoveryView::Finished { devices: Seq::empty() }),
        outcome(run(start_state(timeout), seq![EventView::SearchStarted, closing])) == Some(
            Ok::<Seq<DeviceView>, Seq<char>>(Seq::empty()),
        ),
{
    let none = Seq::<Seq<char>>::empty();
    let unanswered = Seq::<Option<Seq<SonyResultView>>>::empty();
    lemma_run_gathers(timeout, none, closing, unanswered);
    assert(script(none, closing, unanswered) =~= seq![EventView::SearchStarted, closing]);
}

/// A run whose search could not be started has failed, whatever is reported
/// to it afterwards: its result is the one error message, never a list of
/// devices.
pub proof fn lemma_failed_search_is_final(timeout: Option<u32>, later: Seq<EventView>)
    ensures
        run(start_state(timeout), seq![EventView::SearchFailed] + later) == DiscoveryView::Failed,
        outcome(run(start_state(timeout), seq![EventView::SearchFailed] + later)) == Some(
            Err::<Seq<DeviceView>, Seq<char>>("Failed to start SSDP search"@),
        ),
{
    let failed = seq![EventView::SearchFailed];
    assert(run(start_state(timeout), failed) == DiscoveryView::Failed) by {
        assert(failed.drop_first() =~= Seq::<EventView>::empty());
        assert(run(DiscoveryView::Failed, failed.drop_first()) == DiscoveryView::Failed);
    }
    lemma_run_concat(start_state(timeout), failed, later);
    lemma_run_is_over(DiscoveryView::Failed, later);
}

/// The state that handles the remaining locations is never a collecting one.
pub proof fn lemma_next_query_collects_no_more(remaining: Seq<Seq<char>>, devices: Seq<DeviceView>)
    ensures
        !(next_query(remaining, devices) is Collecting),
    decreases remaining.len(),
{
    if remaining.len() > 0 {
        lemma_next_query_collects_no_more(remaining.drop_first(), devices);
    }
}

/// Where the collection is closed, advertisements are no longer taken in.
pub proof fn lemma_late_advertisements_are_dropped(state: DiscoveryView, late: Seq<Seq<char>>)
    requires
        !(state is Collecting),
    ensures
        run(state, advertisements(late)) == state,
    decreases late.len(),
{
    let events = advertisements(late);
    if late.len() > 0 {
        assert(events[0] == EventView::Advertisement(late[0]));
        assert(events.drop_first() =~= advertisements(late.drop_first()));
        lemma_late_advertisements_are_dropped(state, late.drop_first());
    }
}

/// The collection stops at the first event that closes it: advertisements
/// that arrive after it change nothing in the run.
pub proof fn lemma_collection_stops(
    timeout: Option<u32>,
    locations: Seq<Seq<char>>,
    closing: EventView,
    late: Seq<Seq<char>>,
    answers: Seq<Option<Seq<SonyResultView>>>,
)
    requires
        closes_collection(closing),
    ensures
        run(
            start_state(timeout),
            seq![EventView::SearchStarted] + advertisements(locations) + seq![closing]
                + advertisements(late) + answer_events(answers),
        ) == run(start_state(timeout), script(locations, closing, answers)),
{
    let start = start_state(timeout);
    let opening = seq![EventView::SearchStarted] + advertisements(locations) + seq![closing];
    let closed = run(start, opening);
    assert(closed == next_query(locations, Seq::empty())) by {
        let started = seq![EventView::SearchStarted];
        let collecting = DiscoveryView::Collecting { locations: Seq::<Seq<char>>::empty() };
        let collected = DiscoveryView::Collecting { locations };
        assert(started.drop_first() =~= Seq::<EventView>::empty());
        assert(run(collecting, started.drop_first()) == collecting);
        lemma_run_collects(Seq::empty(), locations);
        assert(Seq::<Seq<char>>::empty() + locations =~= locations);
        assert(seq![closing].drop_first() =~= Seq::<EventView>::empty());
        assert(run(next_query(locations, Seq::empty()), seq![closing].drop_first())
            == next_query(locations, Seq::empty()));
        lemma_run_concat(start, started, advertisements(locations));
        lemma_run_concat(start, started + advertisements(locations), seq![closing]);
    }
    lemma_next_query_collects_no_more(locations, Seq::empty());
    lemma_late_advertisements_are_dropped(closed, late);
    lemma_run_concat(start, opening, advertisements(late));
    lemma_run_concat(start, opening + advertisements(late), answer_events(answers));
    lemma_run_concat(start, opening, answer_events(answers));
}

/// An advertisement whose location is not a URL adds no device and raises
/// no error: the run ends as it does without that advertisement.
pub proof fn lemma_unreadable_location_adds_nothing(
    timeout: Option<u32>,
    before: Seq<Seq<char>>,
    location: Seq<char>,
    after: Seq<Seq<char>>,
    closing: EventView,
    answers: Seq<Option<Seq<SonyResultView>>>,
)
    requires
        closes_collection(closing),
        location_host(location) is None,
        answers.len() == hosts_of(before + after).len(),
    ensures
        run(start_state(timeout), script(before + seq![location] + after, closing, answers)) == run(
            start_state(timeout),
            script(before + after, closing, answers),
        ),
        outcome(
            run(start_state(timeout), script(before + seq![location] + after, closing, answers)),
        ) == Some(Ok::<Seq<DeviceView>, Seq<char>>(gathered(hosts_of(before + after), answers))),
{
    let single = seq![location];
    assert(hosts_of(single) =~= Seq::<Seq<char>>::empty()) by {
        reveal_with_fuel(hosts_of, 2);
    }
    lemma_hosts_concat(before, single);
    lemma_hosts_concat(before + single, after);
    lemma_hosts_concat(before, after);
    assert(hosts_of(before + single + after) =~= hosts_of(before + after));
    lemma_run_gathers(timeout, before + single + after, closing, answers);
    lemma_run_gathers(timeout, before + after, closing, answers);
}

/// A host whose query failed adds no device, and the hosts after it are
/// still queried: the run ends as it does without that host's
/// advertisement and without the failed query.
pub proof fn lemma_failed_query_adds_nothing(
    timeout: Option<u32>,
    before: Seq<Seq<char>>,
    location: Seq<char>,
    after: Seq<Seq<char>>,
    closing: EventView,
    earlier: Seq<Option<Seq<SonyResultView>>>,
    later: Seq<Option<Seq<SonyResultView>>>,
)
    requires
        closes_collection(closing),
        location_host(location) is Some,
        earlier.len() == hosts_of(before).len(),
        later.len() == hosts_of(after).len(),
    ensures
        run(
            start_state(timeout),
            script(before + seq![location] + after, closing, earlier + seq![None] + later),
        ) == run(start_state(timeout), script(before + after, closing, earlier + later)),
        outcome(
            run(
                start_state(timeout),
                script(before + seq![location] + after, closing, earlier + seq![None] + later),
            ),
        ) == Some(
            Ok::<Seq<DeviceView>, Seq<char>>(
                gathered(hosts_of(before), earlier) + gathered(hosts_of(after), later),
            ),
        ),
{
    let single = seq![location];
    let host = location_host(location)->0;
    let failed = seq![None::<Seq<SonyResultView>>];
    assert(hosts_of(single) =~= seq![host]) by {
        reveal_with_fuel(hosts_of, 2);
    }
    assert(gathered(seq![host], failed) =~= Seq::<DeviceView>::empty()) by {
        reveal_with_fuel(gathered, 2);
    }
    lemma_hosts_concat(before, single);
    lemma_hosts_concat(before + single, after);
    lemma_hosts_concat(before, after);
    lemma_gathered_concat(hosts_of(before), earlier, seq![host], failed);
    lemma_gathered_concat(hosts_of(before) + seq![host], earlier + failed, hosts_of(after), later);
    lemma_gathered_concat(hosts_of(before), earlier, hosts_of(after), later);
    assert(gathered(hosts_of(before + single + after), earlier + failed + later) =~= gathered(
        hosts_of(before + after),
        earlier + later,
    ));
    lemma_run_gathers(timeout, before + single + after, closing, earlier + failed + later);
    lemma_run_gathers(timeout, before + after, closing, earlier + later);
}

/// While a run collects, it waits for an advertisement before each event
/// and after the last.
pub proof fn lemma_asked_collecting(have: Seq<Seq<char>>, locations: Seq<Seq<char>>)
    ensures
        asked(DiscoveryView::Collecting { locations: have }, advertisements(locations)) == waits(
            locations.len() + 1,
        ),
    decreases locations.len(),
{
    let events = advertisements(locations);
    let state = DiscoveryView::Collecting { locations: have };
    if locations.len() == 0 {
        assert(asked(state, events) =~= waits(1));
    } else {
        assert(events[0] == EventView::Advertisement(locations[0]));
        assert(events.drop_first() =~= advertisements(locations.drop_first()));
        lemma_asked_collecting(have.push(locations[0]), locations.drop_first());
        assert(asked(state, events) =~= waits(locations.len() + 1));
    }
}

/// Once the collection is closed, a run asks for one query for each host
/// of the remaining locations, in order, and then for nothing more.
pub proof fn lemma_asked_queries(
    remaining: Seq<Seq<char>>,
    devices: Seq<DeviceView>,
    answers: Seq<Option<Seq<SonyResultView>>>,
)
    requires
        answers.len() == hosts_of(remaining).len(),
    ensures
        asked(next_query(remaining, devices), answer_events(answers)) == queries(
            hosts_of(remaining),
        ) + seq![ActionView::Finish],
    decreases remaining.len(),
{
    let events = answer_events(answers);
    let state = next_query(remaining, devices);
    if remaining.len() == 0 {
        assert(asked(state, events) =~= queries(hosts_of(remaining)) + seq![ActionView::Finish]);
    } else {
        let later = remaining.drop_first();
        match location_host(remaining[0]) {
            None => {
                lemma_asked_queries(later, devices, answers);
            },
            Some(host) => {
                let hosts = hosts_of(remaining);
                assert(hosts[0] == host);
                assert(hosts.drop_first() =~= hosts_of(later));
                assert(events[0] == EventView::Answer(answers[0]));
                assert(events.drop_first() =~= answer_events(answers.drop_first()));
                lemma_asked_queries(
                    later,
                    devices + answer_devices(host, answers[0]),
                    answers.drop_first(),
                );
                assert(asked(state, events) =~= queries(hosts) + seq![ActionView::Finish]);
            },
        }
    }
}

/// What a run asks of the network: one search with the resolved duration,
/// a wait before each advertisement and before the event that closes the
/// collection, one query for each host that the collected locations name,
/// in their order, and then nothing more.
pub proof fn lemma_run_asks(
    timeout: Option<u32>,
    locations: Seq<Seq<char>>,
    closing: EventView,
    answers: Seq<Option<Seq<SonyResultView>>>,
)
    requires
        closes_collection(closing),
        answers.len() == hosts_of(locations).len(),
    ensures
        asked(start_state(timeout), script(locations, closing, answers)) == seq![
            ActionView::Search(search_for(resolved_timeout(timeout))),
        ] + waits(locations.len() + 1) + queries(hosts_of(locations)) + seq![ActionView::Finish],
{
    let start = start_state(timeout);
    let search = seq![ActionView::Search(search_for(resolved_timeout(timeout)))];
    let started = seq![EventView::SearchStarted];
    let adverts = advertisements(locations);
    let closed = seq![closing];
    let collecting = DiscoveryView::Collecting { locations: Seq::<Seq<char>>::empty() };
    let collected = DiscoveryView::Collecting { locations };
    let querying = next_query(locations, Seq::<DeviceView>::empty());
    let hosts = hosts_of(locations);

    assert(started.drop_first() =~= Seq::<EventView>::empty());
    assert(run(collecting, started.drop_first()) == collecting);
    assert(asked(start, started) =~= search + waits(1)) by {
        assert(asked(collecting, started.drop_first()) =~= waits(1));
    }
    assert(run(start, started) == collecting);

    lemma_run_collects(Seq::empty(), locations);
    assert(Seq::<Seq<char>>::empty() + locations =~= locations);
    lemma_run_concat(start, started, adverts);
    assert(run(start, started + adverts) == collected);
    lemma_asked_collecting(Seq::empty(), locations);
    lemma_asked_concat(start, started, adverts);
    assert(asked(start, started + adverts) =~= search + waits(locations.len() + 1));

    assert(closed.drop_first() =~= Seq::<EventView>::empty());
    assert(run(querying, closed.drop_first()) == querying);
    assert(run(collected, closed) == querying);
    assert(asked(collected, closed) =~= seq![
        ActionView::AwaitAdvertisement,
        action_of(querying),
    ]) by {
        assert(asked(querying, closed.drop_first()) =~= seq![action_of(querying)]);
    }
    lemma_run_concat(start, started + adverts, closed);
    lemma_asked_concat(start, started + adverts, closed);
    assert(asked(start, started + adverts + closed) =~= search + waits(locations.len() + 1) + seq![
        action_of(querying),
    ]);

    lemma_asked_queries(locations, Seq::empty(), answers);
    lemma_asked_concat(start, started + adverts + closed, answer_events(answers));
    assert(asked(start, script(locations, closing, answers)) =~= search + waits(locations.len() + 1)
        + queries(hosts) + seq![ActionView::Finish]);
}

/// The time limits of two stretches of actions add up.
pub proof fn lemma_time_limits_concat(first: Seq<ActionView>, second: Seq<ActionView>)
    ensures
        time_limits(first + second) == time_limits(first) + time_limits(second),
    decreases first.len(),
{
    if first.len() == 0 {
        assert(first + second =~= second);
    } else {
        assert((first + second)[0] == first[0]);
        assert((first + second).drop_first() =~= first.drop_first() + second);
        lemma_time_limits_concat(first.drop_first(), second);
    }
}

/// Waits add nothing to the time limits.
pub proof fn lemma_time_limits_of_waits(count: nat)
    ensures
        time_limits(waits(count)) == 0,
    decreases count,
{
    if count > 0 {
        assert(waits(count).drop_first() =~= waits((count - 1) as nat));
        lemma_time_limits_of_waits((count - 1) as nat);
    }
}

/// Each query adds the fixed time after which it is given up.
pub proof fn lemma_time_limits_of_queries(hosts: Seq<Seq<char>>)
    ensures
        time_limits(queries(hosts)) == REQUEST_TIMEOUT_SECS * hosts.len(),
    decreases hosts.len(),
{
    if hosts.len() > 0 {
        assert(queries(hosts).drop_first() =~= queries(hosts.drop_first()));
        lemma_time_limits_of_queries(hosts.drop_first());
    }
}

/// The time limits of all that a run asks of the network add up to the
/// duration of the search and the fixed time of one query for each host
/// queried, of which there are no more than advertisements collected.
pub proof fn lemma_run_time_limit(
    timeout: Option<u32>,
    locations: Seq<Seq<char>>,
    closing: EventView,
    answers: Seq<Option<Seq<SonyResultView>>>,
)
    requires
        closes_collection(closing),
        answers.len() == hosts_of(locations).len(),
    ensures
        time_limits(asked(start_state(timeout), script(locations, closing, answers)))
            == resolved_timeout(timeout) + REQUEST_TIMEOUT_SECS * hosts_of(locations).len(),
        time_limits(asked(start_state(timeout), script(locations, closing, answers)))
            <= resolved_timeout(timeout) + REQUEST_TIMEOUT_SECS * locations.len(),
{
    let search = seq![ActionView::Search(search_for(resolved_timeout(timeout)))];
    let waiting = waits(locations.len() + 1);
    let querying = queries(hosts_of(locations));
    let finish = seq![ActionView::Finish];
    lemma_run_asks(timeout, locations, closing, answers);
    lemma_time_limits_concat(search + waiting + querying, finish);
    lemma_time_limits_concat(search + waiting, querying);
    lemma_time_limits_concat(search, waiting);
    lemma_time_limits_of_waits(locations.len() + 1);
    lemma_time_limits_of_queries(hosts_of(locations));
    assert(time_limits(search) == resolved_timeout(timeout)) by {
        reveal_with_fuel(time_limits, 2);
    }
    assert(time_limits(finish) == 0) by {
        reveal_with_fuel(time_limits, 2);
    }
    lemma_hosts_bound(locations);
}

} // verus!
