use camera_discovery::device::{devices_from_response, Device, SonyResponse, SonyResult};

fn entry(model: &str, category: &str, product: &str) -> SonyResult {
    SonyResult {
        model_name: model.to_string(),
        product_category: category.to_string(),
        product_name: product.to_string(),
    }
}

#[test]
fn device_is_built_from_host_and_entry() {
    let device = Device::from_result("10.0.0.5", &entry("ILCE-7", "Camera", "Alpha"));
    assert_eq!(
        device,
        Device {
            id: "10.0.0.5-ILCE-7".to_string(),
            display_name: "Alpha ILCE-7".to_string(),
            product: "Camera".to_string(),
            model: "ILCE-7".to_string(),
            hostname: "10.0.0.5".to_string(),
        }
    );
}

#[test]
fn device_of_empty_fields_keeps_the_separators() {
    let device = Device::from_result("", &entry("", "", ""));
    assert_eq!(device.id, "-");
    assert_eq!(device.display_name, " ");
    assert_eq!(device.product, "");
    assert_eq!(device.model, "");
    assert_eq!(device.hostname, "");
}

#[test]
fn device_keeps_characters_outside_ascii() {
    let device = Device::from_result("kamera.local", &entry("α7 Ⅳ", "Kamera", "ソニー"));
    assert_eq!(device.id, "kamera.local-α7 Ⅳ");
    assert_eq!(device.display_name, "ソニー α7 Ⅳ");
    assert_eq!(device.product, "Kamera");
}

#[test]
fn response_gives_one_device_per_entry_in_order() {
    let response = SonyResponse {
        result: vec![entry("A", "Camera", "One"), entry("B", "Lens", "Two")],
    };
    let devices = devices_from_response("cam.local", &response);
    assert_eq!(devices.len(), 2);
    assert_eq!(devices[0].id, "cam.local-A");
    assert_eq!(devices[0].display_name, "One A");
    assert_eq!(devices[0].hostname, "cam.local");
    assert_eq!(devices[1].id, "cam.local-B");
    assert_eq!(devices[1].display_name, "Two B");
    assert_eq!(devices[1].product, "Lens");
    assert_eq!(devices[1].hostname, "cam.local");
}

#[test]
fn empty_response_gives_no_device() {
    let response = SonyResponse { result: vec![] };
    assert!(devices_from_response("10.0.0.5", &response).is_empty());
}

#[test]
fn equal_entries_give_equal_devices_side_by_side() {
    let response = SonyResponse {
        result: vec![entry("ILCE-7", "Camera", "Alpha"), entry("ILCE-7", "Camera", "Alpha")],
    };
    let devices = devices_from_response("10.0.0.5", &response);
    assert_eq!(devices.len(), 2);
    assert_eq!(devices[0].id, "10.0.0.5-ILCE-7");
    assert_eq!(devices[0], devices[1]);
}
