use hex_caster::usb::HidDeviceHandler;

#[test]
fn configuration_follows_bus_events() {
    let mut h = HidDeviceHandler::new();
    assert!(!h.is_configured());
    h.configured(true);
    assert!(h.is_configured());
    h.addressed(3);
    assert!(!h.is_configured());
    h.configured(true);
    h.enabled(true);
    assert!(!h.is_configured());
    h.configured(true);
    h.reset();
    assert!(!h.is_configured());
    h.configured(true);
    h.configured(false);
    assert!(!h.is_configured());
    assert!(!HidDeviceHandler::default().is_configured());
}
