use pembejeo::{device_id, device_record, property_u16, DeviceRegistry, Error, Mouse, USAGE_KEYBOARD, USAGE_MOUSE};

fn record(id: &str, vendor: u16, name: &str) -> Mouse {
    Mouse {
        id: id.to_string(),
        vender_id: vendor,
        product_id: 7,
        product: name.to_string(),
        manufacturer: "Acme".to_string(),
    }
}

#[test]
fn device_id_is_hex_of_handle() {
    assert_eq!(device_id(0), "0x0");
    assert_eq!(device_id(15), "0xf");
    assert_eq!(device_id(16), "0x10");
    assert_eq!(device_id(0x7fa3_c010_2b40), "0x7fa3c0102b40");
    assert_eq!(device_id(u64::MAX), "0xffffffffffffffff");
    assert_eq!(device_id(0x7fa3_c010_2b40), format!("0x{:x}", 0x7fa3_c010_2b40u64));
}

#[test]
fn device_record_degrades_missing_properties() {
    let m = device_record(0x20, None, Some(0x1234), None, Some("Logi".to_string()));
    assert_eq!(m.id, "0x20");
    assert_eq!(m.vender_id, 0);
    assert_eq!(m.product_id, 0x1234);
    assert_eq!(m.product, "");
    assert_eq!(m.manufacturer, "Logi");
}

#[test]
fn property_u16_truncates_and_defaults() {
    assert_eq!(property_u16(None), 0);
    assert_eq!(property_u16(Some(0x046d)), 0x046d);
    assert_eq!(property_u16(Some(0x1_0002)), 2);
    assert_eq!(property_u16(Some(-1)), 0xffff);
}

#[test]
fn matched_registers_by_usage() {
    let mut r = DeviceRegistry::new();
    r.on_device_matched(record("0x1", 1, "mouse"), USAGE_MOUSE);
    r.on_device_matched(record("0x2", 2, "keys"), USAGE_KEYBOARD);
    r.on_device_matched(record("0x3", 3, "pad"), 0x05);
    let mice = r.mice();
    let keyboards = r.keyboards();
    assert_eq!(mice.len(), 1);
    assert_eq!(mice[0].id, "0x1");
    assert_eq!(keyboards.len(), 1);
    assert_eq!(keyboards[0].id, "0x2");
}

#[test]
fn matched_twice_overwrites() {
    let mut r = DeviceRegistry::new();
    r.on_device_matched(record("0x1", 1, "first"), USAGE_MOUSE);
    r.on_device_matched(record("0x9", 9, "other"), USAGE_MOUSE);
    r.on_device_matched(record("0x1", 5, "second"), USAGE_MOUSE);
    let mice = r.mice();
    assert_eq!(mice.len(), 2);
    assert_eq!(mice[0].id, "0x1");
    assert_eq!(mice[0].vender_id, 5);
    assert_eq!(mice[0].product, "second");
    assert_eq!(mice[1].id, "0x9");
}

#[test]
fn removed_absent_is_noop() {
    let mut r = DeviceRegistry::new();
    r.on_device_matched(record("0x1", 1, "m"), USAGE_MOUSE);
    r.on_device_removed(&"0x2".to_string());
    assert_eq!(r.mice().len(), 1);
    r.on_device_removed(&"0x1".to_string());
    assert_eq!(r.mice().len(), 0);
    r.on_device_removed(&"0x1".to_string());
    assert_eq!(r.mice().len(), 0);
}

#[test]
fn removal_keeps_other_devices_in_order() {
    let mut r = DeviceRegistry::new();
    for id in ["0xa", "0xb", "0xc"] {
        r.on_device_matched(record(id, 1, "k"), USAGE_KEYBOARD);
    }
    r.on_device_removed(&"0xb".to_string());
    let ids: Vec<String> = r.keyboards().into_iter().map(|k| k.id).collect();
    assert_eq!(ids, vec!["0xa".to_string(), "0xc".to_string()]);
}

#[test]
fn snapshot_is_a_copy() {
    let mut r = DeviceRegistry::new();
    r.on_device_matched(record("0x1", 1, "m"), USAGE_MOUSE);
    let before = r.mice();
    r.on_device_removed(&"0x1".to_string());
    assert_eq!(before.len(), 1);
    assert_eq!(before[0].product, "m");
    assert_eq!(r.mice().len(), 0);
}

#[test]
fn error_text_names_the_reason() {
    let e = Error::FailedCreatingPembejeo("no manager".to_string());
    assert_eq!(e.to_string(), "Failed creating pembejeo: no manager");
}

#[test]
fn filters_name_the_multitouch_page() {
    assert_eq!(pembejeo::device_filters(), vec![(0xFF00u16, Some(0x0Cu16))]);
}

#[test]
fn removal_does_not_depend_on_usage() {
    let mut r = DeviceRegistry::new();
    r.on_device_matched(record("0x1", 1, "m"), USAGE_MOUSE);
    r.on_device_matched(record("0x2", 2, "k"), USAGE_KEYBOARD);
    let usage = property_u16(None);
    assert_eq!(usage, 0);
    r.on_device_matched(record("0x1", 3, "ignored"), usage);
    r.on_device_removed(&"0x1".to_string());
    assert_eq!(r.mice().len(), 0);
    assert_eq!(r.keyboards().len(), 1);
    r.on_device_removed(&"0x2".to_string());
    assert_eq!(r.keyboards().len(), 0);
}
