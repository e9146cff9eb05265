//! The fixed values of the vendor protocol, and the requests built from them.

use vstd::prelude::*;
use vstd::string::*;

verus! {

/// Domain of the service that the search asks for.
pub const SERVICE_DOMAIN: &'static str = "schemas-sony-com";

/// Type of the service that the search asks for.
pub const SERVICE_TYPE: &'static str = "ScalarWebAPI";

/// Version of the service that the search asks for.
pub const SERVICE_VERSION: u32 = 1;

/// Retransmissions that a search asks for.
pub const SEARCH_RETRIES: usize = 2;

/// Seconds a search waits for advertisements when the caller names no duration.
pub const DEFAULT_TIMEOUT_SECS: u32 = 5;

/// Seconds after which one metadata query is given up.
pub const REQUEST_TIMEOUT_SECS: u64 = 5;

/// Idle connections kept for one host.
pub const MAX_IDLE_PER_HOST: usize = 10;

/// Path of the metadata API on a device.
pub const API_PATH: &'static str = "/sony/system";

/// Method that a metadata query calls.
pub const RPC_METHOD: &'static str = "getInterfaceInformation";

/// Request id of a metadata query.
pub const RPC_ID: u32 = 33;

/// Protocol version of a metadata query.
pub const RPC_VERSION: &'static str = "1.0";

/// The one error a discovery can end with.
pub const SEARCH_START_ERROR: &'static str = "Failed to start SSDP search";

/// The search duration in seconds: the caller's, or the default.
pub open spec fn resolved_timeout(timeout: Option<u32>) -> u64 {
    match timeout {
        Some(secs) => secs as u64,
        None => DEFAULT_TIMEOUT_SECS as u64,
    }
}

/// The search duration in seconds: the caller's, or the default.
pub fn resolve_timeout(timeout: Option<u32>) -> (secs: u64)
    ensures
        secs == resolved_timeout(timeout),
{
    match timeout {
        Some(secs) => secs as u64,
        None => DEFAULT_TIMEOUT_SECS as u64,
    }
}

/// A search for the vendor's service: what to search for, how long to wait
/// for advertisements, and how many retransmissions to ask for.
#[derive(Debug, PartialEq, Eq)]
pub struct SearchRequest {
    pub domain: &'static str,
    pub service: &'static str,
    pub version: u32,
    pub timeout_secs: u64,
    pub retries: usize,
}

/// A [`SearchRequest`] over sequences of characters.
pub struct SearchRequestView {
    pub domain: Seq<char>,
    pub service: Seq<char>,
    pub version: u32,
    pub timeout_secs: u64,
    pub retries: usize,
}

impl View for SearchRequest {
    type V = SearchRequestView;

    open spec fn view(&self) -> SearchRequestView {
        SearchRequestView {
            domain: self.domain@,
            service: self.service@,
            version: self.version,
            timeout_secs: self.timeout_secs,
            retries: self.retries,
        }
    }
}

/// The search that waits `timeout_secs` seconds: for the vendor's service,
/// with two retransmissions.
pub open spec fn search_for(timeout_secs: u64) -> SearchRequestView {
    SearchRequestView {
        domain: SERVICE_DOMAIN@,
        service: SERVICE_TYPE@,
        version: SERVICE_VERSION,
        timeout_secs,
        retries: SEARCH_RETRIES,
    }
}

/// The search that waits `timeout_secs` seconds.
pub fn search_request(timeout_secs: u64) -> (request: SearchRequest)
    ensures
        request@ == search_for(timeout_secs),
{
    SearchRequest {
        domain: SERVICE_DOMAIN,
        service: SERVICE_TYPE,
        version: SERVICE_VERSION,
        timeout_secs,
        retries: SEARCH_RETRIES,
    }
}

/// The address of the metadata API on a host.
pub open spec fn url_of(host: Seq<char>) -> Seq<char> {
    "http://"@ + host + API_PATH@
}

/// The address of the metadata API on `host`.
pub fn metadata_url(host: &str) -> (url: String)
    ensures
        url@ == url_of(host@),
{
    let mut url = String::from_str("http://");
    url.append(host);
    url.append(API_PATH);
    url
}

/// A metadata query: the address to post to, the method, request id,
/// parameters and protocol version that the body names, and the seconds
/// after which the query is given up.
#[derive(Debug, PartialEq, Eq)]
pub struct MetadataRequest {
    pub url: String,
    pub method: &'static str,
    pub id: u32,
    pub params: Vec<String>,
    pub version: &'static str,
    pub timeout_secs: u64,
}

/// A [`MetadataRequest`] over sequences of characters.
pub struct MetadataRequestView {
    pub url: Seq<char>,
    pub method: Seq<char>,
    pub id: u32,
    pub params: Seq<Seq<char>>,
    pub version: Seq<char>,
    pub timeout_secs: u64,
}

impl View for MetadataRequest {
    type V = MetadataRequestView;

    open spec fn view(&self) -> MetadataRequestView {
        MetadataRequestView {
            url: self.url@,
            method: self.method@,
            id: self.id,
            params: self.params.deep_view(),
            version: self.version@,
            timeout_secs: self.timeout_secs,
        }
    }
}

/// The metadata query to a host: the fixed call, without parameters, to
/// the API's address on that host, given up after the fixed time.
pub open spec fn request_to(host: Seq<char>) -> MetadataRequestView {
    MetadataRequestView {
        url: url_of(host),
        method: RPC_METHOD@,
        id: RPC_ID,
        params: Seq::empty(),
        version: RPC_VERSION@,
        timeout_secs: REQUEST_TIMEOUT_SECS,
    }
}

/// The metadata query to `host`.
pub fn metadata_request(host: &str) -> (request: MetadataRequest)
    ensures
        request@ == request_to(host@),
{
    let params: Vec<String> = Vec::new();
    assert(params.deep_view() =~= Seq::<Seq<char>>::empty());
    MetadataRequest {
        url: metadata_url(host),
        method: RPC_METHOD,
        id: RPC_ID,
        params,
        version: RPC_VERSION,
        timeout_secs: REQUEST_TIMEOUT_SECS,
    }
}

} // verus!
