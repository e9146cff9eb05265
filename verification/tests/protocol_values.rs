use camera_discovery::protocol::{
    metadata_request, metadata_url, resolve_timeout, search_request, MetadataRequest,
    SearchRequest, API_PATH, DEFAULT_TIMEOUT_SECS, MAX_IDLE_PER_HOST, REQUEST_TIMEOUT_SECS, RPC_ID,
    RPC_METHOD, RPC_VERSION, SEARCH_RETRIES, SEARCH_START_ERROR, SERVICE_DOMAIN, SERVICE_TYPE,
    SERVICE_VERSION,
};

#[test]
fn timeout_defaults_to_five_seconds() {
    assert_eq!(resolve_timeout(None), 5);
}

#[test]
fn timeout_of_the_caller_is_kept() {
    assert_eq!(resolve_timeout(Some(12)), 12);
    assert_eq!(resolve_timeout(Some(0)), 0);
    assert_eq!(resolve_timeout(Some(u32::MAX)), 4_294_967_295);
}

#[test]
fn metadata_url_names_the_vendor_path_on_the_host() {
    assert_eq!(metadata_url("10.0.0.5"), "http://10.0.0.5/sony/system");
    assert_eq!(metadata_url("camera.local"), "http://camera.local/sony/system");
}

#[test]
fn metadata_url_of_the_empty_host() {
    assert_eq!(metadata_url(""), "http:///sony/system");
}

#[test]
fn search_values_are_those_of_the_vendor_service() {
    assert_eq!(SERVICE_DOMAIN, "schemas-sony-com");
    assert_eq!(SERVICE_TYPE, "ScalarWebAPI");
    assert_eq!(SERVICE_VERSION, 1);
    assert_eq!(SEARCH_RETRIES, 2);
    assert_eq!(DEFAULT_TIMEOUT_SECS, 5);
}

#[test]
fn query_values_are_those_of_the_vendor_api() {
    assert_eq!(API_PATH, "/sony/system");
    assert_eq!(RPC_METHOD, "getInterfaceInformation");
    assert_eq!(RPC_ID, 33);
    assert_eq!(RPC_VERSION, "1.0");
    assert_eq!(REQUEST_TIMEOUT_SECS, 5);
    assert_eq!(MAX_IDLE_PER_HOST, 10);
}

#[test]
fn error_message_is_exact() {
    assert_eq!(SEARCH_START_ERROR, "Failed to start SSDP search");
}

#[test]
fn search_request_names_the_vendor_service_and_two_retries() {
    assert_eq!(
        search_request(7),
        SearchRequest {
            domain: "schemas-sony-com",
            service: "ScalarWebAPI",
            version: 1,
            timeout_secs: 7,
            retries: 2,
        }
    );
    assert_eq!(search_request(0).timeout_secs, 0);
    assert_eq!(search_request(u64::MAX).timeout_secs, u64::MAX);
}

#[test]
fn metadata_request_is_the_fixed_call_to_the_host() {
    assert_eq!(
        metadata_request("10.0.0.5"),
        MetadataRequest {
            url: "http://10.0.0.5/sony/system".to_string(),
            method: "getInterfaceInformation",
            id: 33,
            params: vec![],
            version: "1.0",
            timeout_secs: 5,
        }
    );
}
