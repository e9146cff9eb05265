//! Discovery of networked cameras: the decisions of one discovery run, from
//! the search request to the list of devices, as verified functions on plain
//! values. Network I/O stays with the caller.

pub mod device;
pub mod discovery;
pub mod gather;
pub mod location;
pub mod protocol;
pub mod run;

pub use device::{Device, SonyResponse, SonyResult};
pub use discovery::{Action, Discovery, Event};
pub use protocol::{MetadataRequest, SearchRequest};
pub use run::discover_devices;
