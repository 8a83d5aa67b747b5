use g610::command::{Command, OnboardMode, WaveDirection, Zone};
use g610::keyboard::{commit, exec, locate, Descriptor, PRODUCT_ID, SETTLE_MILLIS, VENDOR_ID};

fn device(vendor_id: u16, product_id: u16) -> Descriptor {
    Descriptor { vendor_id, product_id, manufacturer: None, product: None }
}

#[test]
fn the_keyboard_is_known_by_both_ids() {
    assert_eq!(VENDOR_ID, 0x046d);
    assert_eq!(PRODUCT_ID, 0xc338);
    assert!(device(0x046d, 0xc338).is_keyboard());
    assert!(!device(0x046d, 0xc339).is_keyboard());
    assert!(!device(0x046e, 0xc338).is_keyboard());
    assert!(!device(0xc338, 0x046d).is_keyboard());
}

#[test]
fn locate_finds_the_first_keyboard() {
    let devices = vec![
        device(0x046d, 0xc52b),
        device(0x1234, 0xc338),
        device(0x046d, 0xc338),
        device(0x0001, 0x0002),
        device(0x046d, 0xc338),
    ];
    assert_eq!(locate(&devices), Some(2));
    assert_eq!(locate(&devices[..2].to_vec()), None);
    assert_eq!(locate(&devices[2..].to_vec()), Some(0));
    assert_eq!(locate(&Vec::new()), None);
}

#[test]
fn description_names_manufacturer_and_product() {
    let named = Descriptor {
        vendor_id: VENDOR_ID,
        product_id: PRODUCT_ID,
        manufacturer: Some(String::from("Logitech")),
        product: Some(String::from("Gaming Keyboard G610")),
    };
    assert_eq!(named.description(), "Logitech: Gaming Keyboard G610");
}

#[test]
fn description_falls_back_for_missing_strings() {
    let mut info = device(VENDOR_ID, PRODUCT_ID);
    assert_eq!(info.description(), "Unknown Manufacturer: Unknown Product");
    info.manufacturer = Some(String::from("Logitech"));
    assert_eq!(info.description(), "Logitech: Unknown Product");
    info.manufacturer = None;
    info.product = Some(String::from("G610"));
    assert_eq!(info.description(), "Unknown Manufacturer: G610");
    info.product = Some(String::new());
    assert_eq!(info.description(), "Unknown Manufacturer: ");
}

#[test]
fn executing_writes_the_report_and_settles() {
    let command = Command::OnboardMode {
        mode: OnboardMode::Static,
        zone: Zone::Logo,
        dir: WaveDirection::NoDirection,
        speed: 1_000,
        brightness: 255,
    };
    let exchange = exec(&command);
    assert_eq!(exchange.report, command.bytes());
    assert_eq!(exchange.settle_millis, 10);
    assert_eq!(SETTLE_MILLIS, 10);
}

#[test]
fn executing_then_committing_is_two_writes_in_order() {
    let command = Command::KeyColor { indexes: vec![4], brightness: 255 };
    let writes = vec![exec(&command), commit()];
    assert_eq!(writes.len(), 2);
    assert_eq!(writes[0].report, command.bytes());
    assert_eq!(writes[1].report, Command::Commit.bytes());
    assert_eq!(writes[0].settle_millis, SETTLE_MILLIS);
    assert_eq!(writes[1].settle_millis, SETTLE_MILLIS);
}

#[test]
fn committing_is_always_the_commit_report() {
    let mut expected = vec![0x11, 0xff, 0x0c, 0x5a];
    expected.resize(20, 0);
    assert_eq!(commit().report, expected);
    let _ = exec(&Command::KeyColor { indexes: vec![4, 5], brightness: 3 });
    assert_eq!(commit().report, expected);
    assert_eq!(commit(), commit());
}
