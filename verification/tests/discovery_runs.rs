use camera_discovery::{discover_devices, Device, Event, SonyResponse, SonyResult};

fn entry(model: &str, category: &str, product: &str) -> SonyResult {
    SonyResult {
        model_name: model.to_string(),
        product_category: category.to_string(),
        product_name: product.to_string(),
    }
}

fn advertisement(location: &str) -> Event {
    Event::Advertisement(location.to_string())
}

fn answer(entries: Vec<SonyResult>) -> Event {
    Event::Answer(Some(SonyResponse { result: entries }))
}

fn alpha() -> SonyResult {
    entry("ILCE-7", "Camera", "Alpha")
}

fn alpha_at(host: &str) -> Device {
    Device {
        id: format!("{}-ILCE-7", host),
        display_name: "Alpha ILCE-7".to_string(),
        product: "Camera".to_string(),
        model: "ILCE-7".to_string(),
        hostname: host.to_string(),
    }
}

#[test]
fn search_that_cannot_start_gives_the_error() {
    let events = vec![Event::SearchFailed];
    assert_eq!(
        discover_devices(None, &events),
        Some(Err("Failed to start SSDP search".to_string()))
    );
}

#[test]
fn search_that_cannot_start_never_gives_devices() {
    let events = vec![
        Event::SearchFailed,
        Event::SearchStarted,
        advertisement("http://10.0.0.5/dd.xml"),
        Event::SearchEnded,
        answer(vec![alpha()]),
    ];
    assert_eq!(
        discover_devices(Some(10), &events),
        Some(Err("Failed to start SSDP search".to_string()))
    );
}

#[test]
fn no_advertisement_gives_an_empty_list() {
    let events = vec![Event::SearchStarted, Event::SearchEnded];
    assert_eq!(discover_devices(None, &events), Some(Ok(vec![])));
    assert_eq!(discover_devices(Some(0), &events), Some(Ok(vec![])));
}

#[test]
fn one_advertisement_with_one_entry_gives_one_device() {
    let events = vec![
        Event::SearchStarted,
        advertisement("http://10.0.0.5:64321/scalarwebapi_dd.xml"),
        Event::SearchEnded,
        answer(vec![alpha()]),
    ];
    let devices = discover_devices(None, &events).unwrap().unwrap();
    assert_eq!(devices.len(), 1);
    assert_eq!(devices[0].id, "10.0.0.5-ILCE-7");
    assert_eq!(devices[0].display_name, "Alpha ILCE-7");
    assert_eq!(devices[0].product, "Camera");
    assert_eq!(devices[0].model, "ILCE-7");
    assert_eq!(devices[0].hostname, "10.0.0.5");
}

#[test]
fn unreadable_location_gives_no_device_and_no_error() {
    let events = vec![Event::SearchStarted, advertisement("not a url"), Event::SearchEnded];
    assert_eq!(discover_devices(None, &events), Some(Ok(vec![])));
}

#[test]
fn unreadable_location_between_hosts_changes_nothing_else() {
    let with = vec![
        Event::SearchStarted,
        advertisement("http://10.0.0.5/dd.xml"),
        advertisement("not a url"),
        advertisement("http://10.0.0.6/dd.xml"),
        Event::SearchEnded,
        answer(vec![alpha()]),
        answer(vec![alpha()]),
    ];
    let without = vec![
        Event::SearchStarted,
        advertisement("http://10.0.0.5/dd.xml"),
        advertisement("http://10.0.0.6/dd.xml"),
        Event::SearchEnded,
        answer(vec![alpha()]),
        answer(vec![alpha()]),
    ];
    let expected = Some(Ok(vec![alpha_at("10.0.0.5"), alpha_at("10.0.0.6")]));
    assert_eq!(discover_devices(None, &with), expected);
    assert_eq!(discover_devices(None, &without), expected);
}

#[test]
fn failed_query_gives_no_device_and_the_next_host_is_queried() {
    let events = vec![
        Event::SearchStarted,
        advertisement("http://10.0.0.5/dd.xml"),
        advertisement("http://10.0.0.6/dd.xml"),
        Event::SearchEnded,
        Event::Answer(None),
        answer(vec![alpha()]),
    ];
    assert_eq!(discover_devices(None, &events), Some(Ok(vec![alpha_at("10.0.0.6")])));
}

#[test]
fn failed_queries_alone_give_an_empty_list() {
    let events = vec![
        Event::SearchStarted,
        advertisement("http://10.0.0.5/dd.xml"),
        advertisement("http://10.0.0.6/dd.xml"),
        Event::SearchEnded,
        Event::Answer(None),
        Event::Answer(None),
    ];
    assert_eq!(discover_devices(None, &events), Some(Ok(vec![])));
}

#[test]
fn equal_entries_of_one_host_are_not_merged() {
    let events = vec![
        Event::SearchStarted,
        advertisement("http://10.0.0.5/dd.xml"),
        Event::SearchEnded,
        answer(vec![alpha(), alpha()]),
    ];
    let devices = discover_devices(None, &events).unwrap().unwrap();
    assert_eq!(devices.len(), 2);
    assert_eq!(devices[0].id, "10.0.0.5-ILCE-7");
    assert_eq!(devices[1].id, "10.0.0.5-ILCE-7");
}

#[test]
fn two_advertisements_of_one_host_are_not_merged() {
    let events = vec![
        Event::SearchStarted,
        advertisement("http://10.0.0.5:1111/dd.xml"),
        advertisement("http://10.0.0.5:2222/dd.xml"),
        Event::SearchEnded,
        answer(vec![alpha()]),
        answer(vec![alpha()]),
    ];
    assert_eq!(
        discover_devices(None, &events),
        Some(Ok(vec![alpha_at("10.0.0.5"), alpha_at("10.0.0.5")]))
    );
}

#[test]
fn two_advertisements_of_one_host_with_two_equal_entries_each() {
    let events = vec![
        Event::SearchStarted,
        advertisement("http://10.0.0.5/dd.xml"),
        advertisement("http://10.0.0.5/dd.xml"),
        Event::SearchEnded,
        answer(vec![alpha(), alpha()]),
        answer(vec![alpha(), alpha()]),
    ];
    let devices = discover_devices(None, &events).unwrap().unwrap();
    assert_eq!(devices.len(), 4);
    for device in &devices {
        assert_eq!(device.id, "10.0.0.5-ILCE-7");
    }
}

#[test]
fn devices_come_in_the_order_of_hosts_and_entries() {
    let events = vec![
        Event::SearchStarted,
        advertisement("http://10.0.0.9/dd.xml"),
        advertisement("http://10.0.0.2/dd.xml"),
        Event::SearchEnded,
        answer(vec![entry("B", "Camera", "X"), entry("A", "Camera", "X")]),
        answer(vec![entry("C", "Camera", "X")]),
    ];
    let devices = discover_devices(None, &events).unwrap().unwrap();
    let ids: Vec<&str> = devices.iter().map(|device| device.id.as_str()).collect();
    assert_eq!(ids, vec!["10.0.0.9-B", "10.0.0.9-A", "10.0.0.2-C"]);
}

#[test]
fn collection_stops_at_the_first_malformed_response() {
    let events = vec![
        Event::SearchStarted,
        advertisement("http://10.0.0.5/dd.xml"),
        Event::Malformed,
        advertisement("http://10.0.0.6/dd.xml"),
        Event::SearchEnded,
        answer(vec![alpha()]),
    ];
    assert_eq!(discover_devices(None, &events), Some(Ok(vec![alpha_at("10.0.0.5")])));
}

#[test]
fn malformed_first_response_gives_an_empty_list() {
    let events = vec![
        Event::SearchStarted,
        Event::Malformed,
        advertisement("http://10.0.0.6/dd.xml"),
    ];
    assert_eq!(discover_devices(None, &events), Some(Ok(vec![])));
}

#[test]
fn run_that_is_not_over_has_no_result() {
    assert_eq!(discover_devices(None, &vec![]), None);
    assert_eq!(discover_devices(None, &vec![Event::SearchStarted]), None);
    let waiting = vec![
        Event::SearchStarted,
        advertisement("http://10.0.0.5/dd.xml"),
        Event::SearchEnded,
    ];
    assert_eq!(discover_devices(None, &waiting), None);
}
