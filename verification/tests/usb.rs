use puppis_core::usb::{discover_linux_candidates, NetworkInterface};
use puppis_core::UsbLinkSpeed;

fn interface(name: &str, vendor: Option<&str>, product: Option<&str>, speed: Option<&str>) -> NetworkInterface {
    NetworkInterface {
        name: name.into(),
        vendor: vendor.map(str::to_owned),
        product: product.map(str::to_owned),
        speed: speed.map(str::to_owned),
    }
}

#[test]
fn only_adapter_interfaces_become_candidates_in_interface_order() {
    let interfaces = vec![
        interface("enx002", Some("0b95\n"), Some("1790\n"), Some("480\n")),
        interface("wlan0", None, None, None),
        interface("enx001", Some("0b95"), None, Some("5000")),
        interface("usb0", Some("1d6b\n"), Some("0104\n"), Some("480\n")),
    ];

    let candidates = discover_linux_candidates(&interfaces);

    assert_eq!(candidates.len(), 2);
    assert_eq!(candidates[0].interface_name, "enx001");
    assert_eq!(candidates[0].id, "usb:enx001:unknown");
    assert_eq!(candidates[0].display_name, "USB network adapter (enx001)");
    assert_eq!(candidates[0].link_speed, UsbLinkSpeed::SuperSpeed);
    assert_eq!(candidates[1].id, "usb:enx002:1790");
    assert_eq!(candidates[1].link_speed, UsbLinkSpeed::Usb2);
}

#[test]
fn unknown_speeds_are_not_guessed() {
    let candidates = discover_linux_candidates(&vec![interface("enx003", Some("0b95"), Some("1790"), Some("2500"))]);

    assert_eq!(candidates[0].link_speed, UsbLinkSpeed::Unknown);
}
