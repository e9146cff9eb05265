//! Device records and the metadata entries they are made from.

use vstd::prelude::*;
use vstd::string::*;

verus! {

/// One entry of a host's metadata response.
#[derive(Debug, PartialEq, Eq)]
pub struct SonyResult {
    pub model_name: String,
    pub product_category: String,
    pub product_name: String,
}

/// What a [`SonyResult`] holds, as sequences of characters.
pub struct SonyResultView {
    pub model_name: Seq<char>,
    pub product_category: Seq<char>,
    pub product_name: Seq<char>,
}

impl View for SonyResult {
    type V = SonyResultView;

    open spec fn view(&self) -> SonyResultView {
        SonyResultView {
            model_name: self.model_name@,
            product_category: self.product_category@,
            product_name: self.product_name@,
        }
    }
}

impl DeepView for SonyResult {
    type V = SonyResultView;

    open spec fn deep_view(&self) -> SonyResultView {
        self@
    }
}

/// A host's metadata response: its entries, in the order the host gave them.
#[derive(Debug, PartialEq, Eq)]
pub struct SonyResponse {
    pub result: Vec<SonyResult>,
}

impl View for SonyResponse {
    type V = Seq<SonyResultView>;

    open spec fn view(&self) -> Seq<SonyResultView> {
        self.result.deep_view()
    }
}

impl DeepView for SonyResponse {
    type V = Seq<SonyResultView>;

    open spec fn deep_view(&self) -> Seq<SonyResultView> {
        self@
    }
}

/// A discovered device, ready for display.
#[derive(Debug, PartialEq, Eq)]
pub struct Device {
    pub id: String,
    pub display_name: String,
    pub product: String,
    pub model: String,
    pub hostname: String,
}

/// What a [`Device`] holds, as sequences of characters.
pub struct DeviceView {
    pub id: Seq<char>,
    pub display_name: Seq<char>,
    pub product: Seq<char>,
    pub model: Seq<char>,
    pub hostname: Seq<char>,
}

impl View for Device {
    type V = DeviceView;

    open spec fn view(&self) -> DeviceView {
        DeviceView {
            id: self.id@,
            display_name: self.display_name@,
            product: self.product@,
            model: self.model@,
            hostname: self.hostname@,
        }
    }
}

impl DeepView for Device {
    type V = DeviceView;

    open spec fn deep_view(&self) -> DeviceView {
        self@
    }
}

/// The device that `host` reports in one metadata entry: the identifier is
/// the host and the model name joined by a hyphen, the display name the
/// product name and the model name joined by a space.
pub open spec fn device_of(host: Seq<char>, entry: SonyResultView) -> DeviceView {
    DeviceView {
        id: host + seq!['-'] + entry.model_name,
        display_name: entry.product_name + seq![' '] + entry.model_name,
        product: entry.product_category,
        model: entry.model_name,
        hostname: host,
    }
}

/// The devices that `host` reports in a metadata response: one for each
/// entry, in the order of the entries.
pub open spec fn devices_of(host: Seq<char>, entries: Seq<SonyResultView>) -> Seq<DeviceView> {
    Seq::new(entries.len(), |i: int| device_of(host, entries[i]))
}

impl Device {
    /// Builds the record of the device that `host` reports in `entry`.
    pub fn from_result(host: &str, entry: &SonyResult) -> (device: Device)
        ensures
            device@ == device_of(host@, entry@),
    {
        proof {
            reveal_strlit("-");
            reveal_strlit(" ");
        }
        let mut id = String::from_str(host);
        id.append("-");
        id.append(entry.model_name.as_str());
        let mut display_name = entry.product_name.clone();
        display_name.append(" ");
        display_name.append(entry.model_name.as_str());
        assert("-"@ =~= seq!['-']);
        assert(" "@ =~= seq![' ']);
        Device {
            id,
            display_name,
            product: entry.product_category.clone(),
            model: entry.model_name.clone(),
            hostname: String::from_str(host),
        }
    }
}

/// Builds the records of all devices that `host` reports in `response`.
pub fn devices_from_response(host: &str, response: &SonyResponse) -> (devices: Vec<Device>)
    ensures
        devices.deep_view() == devices_of(host@, response@),
{
    let mut devices: Vec<Device> = Vec::new();
    let mut i: usize = 0;
    while i < response.result.len()
        invariant
            i <= response.result.len(),
            devices.len() == i,
            forall|j: int| 0 <= j < i ==> devices[j]@ == device_of(host@, #[trigger] response.result[j]@),
        decreases response.result.len() - i,
    {
        let device = Device::from_result(host, &response.result[i]);
        devices.push(device);
        i += 1;
    }
    assert(devices.deep_view() =~= devices_of(host@, response@));
    devices
}

} // verus!
