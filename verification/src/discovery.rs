//! One discovery run as a state machine.
//!
//! The run alternates between network work and decisions. The decisions are
//! here: a [`Discovery`] says which [`Action`] the caller performs next, the
//! caller reports what came of it as an [`Event`], and [`Discovery::step`]
//! gives the state that follows. An event that the state does not wait for
//! leaves the state as it is.

use vstd::prelude::*;
use vstd::string::*;

use crate::device::{devices_from_response, devices_of, Device, DeviceView, SonyResponse, SonyResultView};
use crate::location::{host_of_location, location_host};
use crate::protocol::{
    metadata_request, request_to, resolve_timeout, resolved_timeout, search_for, search_request,
    MetadataRequest, MetadataRequestView, SearchRequest, SearchRequestView, SEARCH_START_ERROR,
};

verus! {

/// What the network reported to a discovery run.
#[derive(Debug, PartialEq, Eq)]
pub enum Event {
    /// The search could not be started.
    SearchFailed,
    /// The search was sent; advertisements may follow.
    SearchStarted,
    /// An advertisement arrived, with this location.
    Advertisement(String),
    /// A response arrived that is no advertisement.
    Malformed,
    /// The wait for advertisements is over.
    SearchEnded,
    /// The outcome of the last metadata query: the host's response, or
    /// `None` where the query failed or the response could not be read.
    Answer(Option<SonyResponse>),
}

/// An [`Event`] over sequences of characters.
pub enum EventView {
    SearchFailed,
    SearchStarted,
    Advertisement(Seq<char>),
    Malformed,
    SearchEnded,
    Answer(Option<Seq<SonyResultView>>),
}

impl View for Event {
    type V = EventView;

    open spec fn view(&self) -> EventView {
        match *self {
            Event::SearchFailed => EventView::SearchFailed,
            Event::SearchStarted => EventView::SearchStarted,
            Event::Advertisement(location) => EventView::Advertisement(location@),
            Event::Malformed => EventView::Malformed,
            Event::SearchEnded => EventView::SearchEnded,
            Event::Answer(answer) => EventView::Answer(answer.deep_view()),
        }
    }
}

impl DeepView for Event {
    type V = EventView;

    open spec fn deep_view(&self) -> EventView {
        self@
    }
}

/// What the caller of a discovery run does next.
#[derive(Debug, PartialEq, Eq)]
pub enum Action {
    /// Send this search.
    Search(SearchRequest),
    /// Wait for the next response to the search.
    AwaitAdvertisement,
    /// Send this metadata query.
    Query(MetadataRequest),
    /// Nothing is left to do: take the result.
    Finish,
}

/// An [`Action`] over sequences of characters.
pub enum ActionView {
    Search(SearchRequestView),
    AwaitAdvertisement,
    Query(MetadataRequestView),
    Finish,
}

impl View for Action {
    type V = ActionView;

    open spec fn view(&self) -> ActionView {
        match *self {
            Action::Search(request) => ActionView::Search(request@),
            Action::AwaitAdvertisement => ActionView::AwaitAdvertisement,
            Action::Query(request) => ActionView::Query(request@),
            Action::Finish => ActionView::Finish,
        }
    }
}

/// The state of a discovery run.
#[derive(Debug, PartialEq, Eq)]
pub enum Discovery {
    /// The search is being sent.
    Searching { timeout_secs: u64 },
    /// Advertisements are being collected; `locations` holds those that
    /// arrived, in the order of arrival.
    Collecting { locations: Vec<String> },
    /// The metadata of `host` is being queried. The locations from index
    /// `next` on are still to be handled; `devices` holds what the hosts
    /// before this one reported.
    Querying { host: String, locations: Vec<String>, next: usize, devices: Vec<Device> },
    /// The run is over and found these devices.
    Finished { devices: Vec<Device> },
    /// The run is over: the search could not be started.
    Failed,
}

/// A [`Discovery`] over sequences: of a run that is querying, the locations
/// still to be handled are kept, not those already handled.
pub enum DiscoveryView {
    Searching { timeout_secs: u64 },
    Collecting { locations: Seq<Seq<char>> },
    Querying { host: Seq<char>, remaining: Seq<Seq<char>>, devices: Seq<DeviceView> },
    Finished { devices: Seq<DeviceView> },
    Failed,
}

/// The items of `items` from index `from` on; none where `from` is past the end.
pub open spec fn rest<A>(items: Seq<A>, from: nat) -> Seq<A> {
    if from <= items.len() {
        items.subrange(from as int, items.len() as int)
    } else {
        Seq::empty()
    }
}

impl View for Discovery {
    type V = DiscoveryView;

    open spec fn view(&self) -> DiscoveryView {
        match *self {
            Discovery::Searching { timeout_secs } => DiscoveryView::Searching { timeout_secs },
            Discovery::Collecting { locations } => DiscoveryView::Collecting {
                locations: locations.deep_view(),
            },
            Discovery::Querying { host, locations, next, devices } => DiscoveryView::Querying {
                host: host@,
                remaining: rest(locations.deep_view(), next as nat),
                devices: devices.deep_view(),
            },
            Discovery::Finished { devices } => DiscoveryView::Finished { devices: devices.deep_view() },
            Discovery::Failed => DiscoveryView::Failed,
        }
    }
}

/// The devices that an answer adds for `host`: those of its entries, or
/// none where the query failed.
pub open spec fn answer_devices(host: Seq<char>, answer: Option<Seq<SonyResultView>>) -> Seq<
    DeviceView,
> {
    match answer {
        Some(entries) => devices_of(host, entries),
        None => Seq::empty(),
    }
}

/// The state in which the locations `remaining` are still to be handled and
/// `devices` are found: the first location that names a host is queried,
/// those before it are passed over, and with none left the run is finished.
pub open spec fn next_query(remaining: Seq<Seq<char>>, devices: Seq<DeviceView>) -> DiscoveryView
    decreases remaining.len(),
{
    if remaining.len() == 0 {
        DiscoveryView::Finished { devices }
    } else {
        match location_host(remaining[0]) {
            Some(host) => DiscoveryView::Querying { host, remaining: remaining.drop_first(), devices },
            None => next_query(remaining.drop_first(), devices),
        }
    }
}

/// The state that follows `state` on `event`.
pub open spec fn next_state(state: DiscoveryView, event: EventView) -> DiscoveryView {
    match (state, event) {
        (DiscoveryView::Searching { .. }, EventView::SearchFailed) => DiscoveryView::Failed,
        (DiscoveryView::Searching { .. }, EventView::SearchStarted) => DiscoveryView::Collecting {
            locations: Seq::empty(),
        },
        (DiscoveryView::Collecting { locations }, EventView::Advertisement(location)) => {
            DiscoveryView::Collecting { locations: locations.push(location) }
        },
        (DiscoveryView::Collecting { locations }, EventView::Malformed) => next_query(
            locations,
            Seq::empty(),
        ),
        (DiscoveryView::Collecting { locations }, EventView::SearchEnded) => next_query(
            locations,
            Seq::empty(),
        ),
        (DiscoveryView::Querying { host, remaining, devices }, EventView::Answer(answer)) => {
            next_query(remaining, devices + answer_devices(host, answer))
        },
        _ => state,
    }
}

/// The action that `state` asks of the caller.
pub open spec fn action_of(state: DiscoveryView) -> ActionView {
    match state {
        DiscoveryView::Searching { timeout_secs } => ActionView::Search(search_for(timeout_secs)),
        DiscoveryView::Collecting { .. } => ActionView::AwaitAdvertisement,
        DiscoveryView::Querying { host, .. } => ActionView::Query(request_to(host)),
        DiscoveryView::Finished { .. } => ActionView::Finish,
        DiscoveryView::Failed => ActionView::Finish,
    }
}

/// The result of a run in `state`: none while the run goes on.
pub open spec fn outcome(state: DiscoveryView) -> Option<Result<Seq<DeviceView>, Seq<char>>> {
    match state {
        DiscoveryView::Finished { devices } => Some(Ok(devices)),
        DiscoveryView::Failed => Some(Err(SEARCH_START_ERROR@)),
        _ => None,
    }
}

/// A result over sequences.
pub open spec fn result_view(result: Option<Result<Vec<Device>, String>>) -> Option<
    Result<Seq<DeviceView>, Seq<char>>,
> {
    match result {
        Some(Ok(devices)) => Some(Ok(devices.deep_view())),
        Some(Err(message)) => Some(Err(message@)),
        None => None,
    }
}

/// The state of a run that has not sent its search yet.
pub open spec fn start_state(timeout: Option<u32>) -> DiscoveryView {
    DiscoveryView::Searching { timeout_secs: resolved_timeout(timeout) }
}

/// Passes over the locations from `from` on that name no host, up to the
/// first that names one.
fn begin_queries(locations: Vec<String>, from: usize, devices: Vec<Device>) -> (next: Discovery)
    ensures
        next@ == next_query(rest(locations.deep_view(), from as nat), devices.deep_view()),
{
    let mut i: usize = from;
    while i < locations.len()
        invariant
            from <= i,
            next_query(rest(locations.deep_view(), i as nat), devices.deep_view()) == next_query(
                rest(locations.deep_view(), from as nat),
                devices.deep_view(),
            ),
        decreases locations.len() - i,
    {
        let ghost all = locations.deep_view();
        assert(rest(all, i as nat)[0] == locations[i as int]@);
        assert(rest(all, i as nat).drop_first() =~= rest(all, (i + 1) as nat));
        match host_of_location(locations[i].as_str()) {
            Some(host) => {
                return Discovery::Querying { host, locations, next: i + 1, devices };
            },
            None => {
                i += 1;
            },
        }
    }
    Discovery::Finished { devices }
}

impl Discovery {
    /// A run that has not sent its search yet.
    pub fn start(timeout: Option<u32>) -> (state: Discovery)
        ensures
            state@ == start_state(timeout),
    {
        Discovery::Searching { timeout_secs: resolve_timeout(timeout) }
    }

    /// What the caller does next.
    pub fn action(&self) -> (action: Action)
        ensures
            action@ == action_of(self@),
    {
        match self {
            Discovery::Searching { timeout_secs } => Action::Search(search_request(*timeout_secs)),
            Discovery::Collecting { .. } => Action::AwaitAdvertisement,
            Discovery::Querying { host, .. } => Action::Query(metadata_request(host.as_str())),
            Discovery::Finished { .. } => Action::Finish,
            Discovery::Failed => Action::Finish,
        }
    }

    /// The state that follows on `event`.
    pub fn step(self, event: &Event) -> (next: Discovery)
        ensures
            next@ == next_state(self@, event@),
    {
        match self {
            Discovery::Searching { timeout_secs } => match event {
                Event::SearchFailed => Discovery::Failed,
                Event::SearchStarted => {
                    let locations: Vec<String> = Vec::new();
                    assert(locations.deep_view() =~= Seq::<Seq<char>>::empty());
                    Discovery::Collecting { locations }
                },
                _ => Discovery::Searching { timeout_secs },
            },
            Discovery::Collecting { locations } => match event {
                Event::Advertisement(location) => {
                    let mut locations = locations;
                    let ghost before = locations.deep_view();
                    locations.push(location.clone());
                    assert(locations.deep_view() =~= before.push(location@));
                    Discovery::Collecting { locations }
                },
                Event::Malformed | Event::SearchEnded => {
                    let devices: Vec<Device> = Vec::new();
                    assert(devices.deep_view() =~= Seq::<DeviceView>::empty());
                    assert(rest(locations.deep_view(), 0) =~= locations.deep_view());
                    begin_queries(locations, 0, devices)
                },
                _ => Discovery::Collecting { locations },
            },
            Discovery::Querying { host, locations, next, devices } => match event {
                Event::Answer(answer) => {
                    let mut devices = devices;
                    let ghost before = devices.deep_view();
                    match answer {
                        Some(response) => {
                            let mut found = devices_from_response(host.as_str(), response);
                            devices.append(&mut found);
                        },
                        None => {},
                    }
                    assert(devices.deep_view() =~= before + answer_devices(host@, answer.deep_view()));
                    begin_queries(locations, next, devices)
                },
                _ => Discovery::Querying { host, locations, next, devices },
            },
            Discovery::Finished { devices } => Discovery::Finished { devices },
            Discovery::Failed => Discovery::Failed,
        }
    }

    /// The result of the run, once it is over.
    pub fn into_result(self) -> (result: Option<Result<Vec<Device>, String>>)
        ensures
            result_view(result) == outcome(self@),
    {
        match self {
            Discovery::Finished { devices } => Some(Ok(devices)),
            Discovery::Failed => Some(Err(String::from_str(SEARCH_START_ERROR))),
            _ => None,
        }
    }
}

} // verus!
