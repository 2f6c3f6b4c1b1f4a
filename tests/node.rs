use mynewt_node::backlight::{Backlight, Level, Readback, BACKLIGHT_PIN_1, BACKLIGHT_PIN_2, BACKLIGHT_PIN_3};
use mynewt_node::battery::is_charging;
use mynewt_node::button::{
    button_enable_write, button_press_callback, button_press_handler, initialize_button, is_button_pressed, poll, ActuatorRegistry,
    DeferredEvent, BUTTON_ENABLE_PIN, BUTTON_INDICATOR_PIN, IRQ_TRIG_RISING, MAX_ACTUATORS,
};
use mynewt_node::hal::{check_rc, Delay, DeviceError, GpioPullType, PinWrite, GPIO, SPI};
use mynewt_node::listen_sensor::{
    forward_result, get_temperature, listener_setup_next, measurement_kind, read_temperature, start_sensor_listener, ForwardError,
    ListenerSetup, ListenerStep, MeasurementKind, SensorValueType, TempData, SENSOR_TYPE_AMBIENT_TEMPERATURE,
    SENSOR_TYPE_AMBIENT_TEMPERATURE_RAW,
};

/// Performs line writes on a simulated set of backlight lines.
fn apply(lines: &mut Readback, writes: &[PinWrite]) {
    for w in writes {
        if w.pin == BACKLIGHT_PIN_1 {
            lines.low = w.value;
        } else if w.pin == BACKLIGHT_PIN_2 {
            lines.medium = w.value;
        } else if w.pin == BACKLIGHT_PIN_3 {
            lines.high = w.value;
        }
    }
}

fn level_after(n: usize) -> Level {
    [Level::LOW, Level::MEDIUM, Level::HIGH][n % 3]
}

#[test]
fn init_sets_low() {
    let (bl, writes) = Backlight::init();
    assert_eq!(bl.level(), Level::LOW);
    assert_eq!(
        writes,
        vec![PinWrite { pin: 22, value: 1 }, PinWrite { pin: 23, value: 1 }]
    );
}

#[test]
fn set_writes_encoding() {
    let (bl, _) = Backlight::init();
    let (bl, w) = bl.set(Level::MEDIUM);
    assert_eq!(bl.level(), Level::MEDIUM);
    assert_eq!(w, vec![PinWrite { pin: 22, value: 0 }, PinWrite { pin: 23, value: 1 }]);
    let (bl, w) = bl.set(Level::HIGH);
    assert_eq!(bl.level(), Level::HIGH);
    assert_eq!(w, vec![PinWrite { pin: 23, value: 0 }]);
}

#[test]
fn increase_cycles_modulo_three() {
    for n in 0..10usize {
        let mut lines = Readback { low: 0, medium: 0, high: 0 };
        let (mut bl, w) = Backlight::init();
        apply(&mut lines, &w);
        for _ in 0..n {
            let (next, w) = bl.increase(lines).unwrap();
            apply(&mut lines, &w);
            bl = next;
        }
        assert_eq!(bl.level(), level_after(n));
        assert_eq!(bl.get_current_level(lines), Ok(level_after(n)));
    }
}

#[test]
fn three_increases_return_to_low() {
    let mut lines = Readback { low: 1, medium: 1, high: 1 };
    let (mut bl, w) = Backlight::init();
    apply(&mut lines, &w);
    for _ in 0..3 {
        let (next, w) = bl.increase(lines).unwrap();
        apply(&mut lines, &w);
        bl = next;
    }
    assert_eq!(bl.level(), Level::LOW);
    assert_eq!(lines, Readback { low: 1, medium: 1, high: 1 });
}

#[test]
fn set_twice_gives_same_lines() {
    for level in [Level::LOW, Level::MEDIUM, Level::HIGH] {
        let mut lines = Readback { low: 0, medium: 0, high: 1 };
        let (bl, _) = Backlight::init();
        let (bl, w1) = bl.set(level);
        apply(&mut lines, &w1);
        let once = lines;
        let (bl2, w2) = bl.set(level);
        apply(&mut lines, &w2);
        assert_eq!(w1, w2);
        assert_eq!(lines, once);
        assert_eq!(bl2.level(), bl.level());
    }
}

#[test]
fn decode_table() {
    let (bl, _) = Backlight::init();
    assert_eq!(bl.get_current_level(Readback { low: 0, medium: 1, high: 1 }), Ok(Level::LOW));
    assert_eq!(bl.get_current_level(Readback { low: 1, medium: 0, high: 1 }), Ok(Level::MEDIUM));
    assert_eq!(bl.get_current_level(Readback { low: 0, medium: 1, high: 0 }), Ok(Level::HIGH));
    assert_eq!(bl.get_current_level(Readback { low: 1, medium: 0, high: 0 }), Ok(Level::HIGH));
}

#[test]
fn decode_rejects_out_of_range_read() {
    let (bl, _) = Backlight::init();
    assert_eq!(bl.get_current_level(Readback { low: 2, medium: 1, high: 1 }), Err(DeviceError::HardwareFault));
    assert_eq!(bl.get_current_level(Readback { low: 1, medium: -1, high: 1 }), Err(DeviceError::HardwareFault));
    assert!(bl.increase(Readback { low: 1, medium: 1, high: 5 }).is_err());
}

#[test]
fn charge_probe() {
    assert_eq!(is_charging(1), Ok(false));
    assert_eq!(is_charging(0), Ok(true));
    assert_eq!(is_charging(3), Err(DeviceError::HardwareFault));
}

#[test]
fn invalid_payloads_are_dropped() {
    let raw = read_temperature(Some(TempData { value: 100, valid: false }), SENSOR_TYPE_AMBIENT_TEMPERATURE_RAW, "bme280_0");
    assert!(matches!(raw, Ok(ListenerStep::Done)));
    let computed = read_temperature(
        Some(TempData { value: 23.5f32.to_bits(), valid: false }),
        SENSOR_TYPE_AMBIENT_TEMPERATURE,
        "bme280_0",
    );
    assert!(matches!(computed, Ok(ListenerStep::Done)));
    let v = get_temperature(TempData { value: 7, valid: false }, MeasurementKind::Raw);
    assert_eq!(v.val, SensorValueType::Empty);
    assert_eq!(v.key, "");
}

#[test]
fn missing_payload_is_success() {
    assert!(matches!(read_temperature(None, 0, "bme280_0"), Ok(ListenerStep::Done)));
}

#[test]
fn computed_not_ready_is_success() {
    let step = read_temperature(
        Some(TempData { value: 23.5f32.to_bits(), valid: true }),
        SENSOR_TYPE_AMBIENT_TEMPERATURE,
        "bme280_0",
    );
    let mut attempts = 0;
    let mut outcome = Ok(());
    if let Ok(ListenerStep::Forward { value, device }) = step {
        attempts += 1;
        assert_eq!(value.val, SensorValueType::Temperature(23.5f32.to_bits()));
        assert_eq!(value.key, "t");
        assert_eq!(device, "bme280_0");
        outcome = forward_result(Err(ForwardError::NotReady));
    }
    assert_eq!(attempts, 1);
    assert_eq!(outcome, Ok(()));
}

#[test]
fn raw_reading_forwarded_with_device_name() {
    let step = read_temperature(Some(TempData { value: 2048, valid: true }), SENSOR_TYPE_AMBIENT_TEMPERATURE_RAW, "bme280_0");
    match step {
        Ok(ListenerStep::Forward { value, device }) => {
            assert_eq!(value.val, SensorValueType::RawCount(2048));
            assert_eq!(value.key, "t");
            assert_eq!(device, "bme280_0");
        }
        _ => panic!("expected a reading to forward"),
    }
}

#[test]
fn other_forward_errors_propagate() {
    assert_eq!(forward_result(Err(ForwardError::Other(-5))), Err(ForwardError::Other(-5)));
    assert_eq!(forward_result(Ok(())), Ok(()));
}

#[test]
fn unknown_measurement_kind_is_fatal() {
    assert_eq!(measurement_kind(5), Err(DeviceError::UnknownMeasurementKind));
    assert_eq!(measurement_kind(SENSOR_TYPE_AMBIENT_TEMPERATURE), Ok(MeasurementKind::Computed));
    assert!(matches!(
        read_temperature(Some(TempData { value: 1, valid: true }), 5, "bme280_0"),
        Err(DeviceError::UnknownMeasurementKind)
    ));
}

#[test]
fn sensor_listener_registration() {
    let reg = start_sensor_listener();
    assert_eq!(reg.device, "bme280_0");
    assert_eq!(reg.poll_ms, 10000);
    assert_eq!(reg.sensor_type, SENSOR_TYPE_AMBIENT_TEMPERATURE_RAW);
    assert_eq!(reg.arg, 1);
}

#[test]
fn two_firings_coalesce() {
    let mut ev = DeferredEvent::new();
    button_press_handler(&mut ev, 3);
    button_press_handler(&mut ev, 3);
    assert_eq!(ev.take(), Some(3));
    assert_eq!(ev.take(), None);
    button_press_handler(&mut ev, 1);
    button_press_handler(&mut ev, 2);
    assert_eq!(ev.take(), Some(2));
    assert_eq!(ev.take(), None);
}

#[test]
fn button_bring_up() {
    let (bl, _) = Backlight::init();
    let mut reg = ActuatorRegistry::new();
    assert_eq!(initialize_button(&mut reg, bl, 0), Err(DeviceError::FatalConfiguration));
    assert_eq!(initialize_button(&mut reg, bl, 9), Err(DeviceError::HardwareFault));
    let r = initialize_button(&mut reg, bl, 1).unwrap();
    assert_eq!(r.enable_pin, BUTTON_ENABLE_PIN);
    assert_eq!(r.sense_pin, 13);
    assert_eq!(r.pull, GpioPullType::DOWN);
    assert_eq!(r.trigger, IRQ_TRIG_RISING);
    assert_eq!(r.token, 0);
    assert_eq!(reg.get(0).map(|b| b.level()), Some(Level::LOW));
    assert!(reg.get(1).is_none());
}

#[test]
fn registry_is_bounded() {
    let (bl, _) = Backlight::init();
    let mut reg = ActuatorRegistry::new();
    for i in 0..MAX_ACTUATORS {
        assert_eq!(reg.register(bl), Ok(i as u32));
    }
    assert_eq!(reg.register(bl), Err(DeviceError::FatalConfiguration));
    assert_eq!(initialize_button(&mut reg, bl, 1), Err(DeviceError::FatalConfiguration));
}

#[test]
fn deferred_callback_advances_backlight() {
    let mut lines = Readback { low: 1, medium: 1, high: 1 };
    let (bl, w) = Backlight::init();
    apply(&mut lines, &w);
    let mut reg = ActuatorRegistry::new();
    let token = initialize_button(&mut reg, bl, 1).unwrap().token;
    let mut ev = DeferredEvent::new();
    button_press_handler(&mut ev, token);
    button_press_handler(&mut ev, token);
    let mut runs = 0;
    while let Some(t) = ev.take() {
        runs += 1;
        let w = button_press_callback(&mut reg, t, lines).unwrap();
        apply(&mut lines, &w);
    }
    assert_eq!(runs, 1);
    assert_eq!(reg.get(token).unwrap().level(), Level::MEDIUM);
    assert_eq!(lines, Readback { low: 1, medium: 0, high: 1 });
    assert_eq!(button_press_callback(&mut reg, 7, lines), Err(DeviceError::FatalConfiguration));
    assert_eq!(
        button_press_callback(&mut reg, token, Readback { low: 1, medium: 4, high: 1 }),
        Err(DeviceError::HardwareFault)
    );
}

#[test]
fn polling_strategy() {
    let (bl, _) = Backlight::init();
    let lines = Readback { low: 1, medium: 1, high: 1 };
    let (not_pressed, same, w) = is_button_pressed(bl, 0, lines).unwrap();
    assert!(not_pressed);
    assert_eq!(same.level(), Level::LOW);
    assert!(w.is_empty());
    let (not_pressed, next, w) = is_button_pressed(bl, 1, lines).unwrap();
    assert!(!not_pressed);
    assert_eq!(next.level(), Level::MEDIUM);
    assert_eq!(w, vec![PinWrite { pin: 22, value: 0 }, PinWrite { pin: 23, value: 1 }]);
    assert_eq!(is_button_pressed(bl, 2, lines).err(), Some(DeviceError::HardwareFault));
    assert_eq!(is_button_pressed(bl, 1, Readback { low: 1, medium: 3, high: 1 }).err(), Some(DeviceError::HardwareFault));
    let (same, w) = poll(bl, 0, lines).unwrap();
    assert_eq!(same.level(), Level::LOW);
    assert!(w.is_empty());
    let (next, w) = poll(bl, 1, lines).unwrap();
    assert_eq!(next.level(), Level::MEDIUM);
    assert_eq!(w, vec![PinWrite { pin: 22, value: 0 }, PinWrite { pin: 23, value: 1 }]);
    assert!(poll(bl, 3, lines).is_err());
    assert_eq!(BUTTON_INDICATOR_PIN, 13);
}

#[test]
fn enable_line_write() {
    assert_eq!(button_enable_write(), PinWrite { pin: 15, value: 1 });
}

#[test]
fn listener_setup_sequence() {
    let mut step = ListenerSetup::SetPollRate;
    step = listener_setup_next(step, 0);
    assert_eq!(step, ListenerSetup::FindDevice);
    step = listener_setup_next(step, 0);
    assert_eq!(step, ListenerSetup::Register);
    step = listener_setup_next(step, 0);
    assert_eq!(step, ListenerSetup::Started);
    assert_eq!(listener_setup_next(step, -3), ListenerSetup::Started);
    assert_eq!(listener_setup_next(ListenerSetup::SetPollRate, -2), ListenerSetup::Failed(-2));
    assert_eq!(listener_setup_next(ListenerSetup::FindDevice, -4), ListenerSetup::Failed(-4));
    assert_eq!(listener_setup_next(ListenerSetup::Register, -1), ListenerSetup::Failed(-1));
    assert_eq!(listener_setup_next(ListenerSetup::Failed(-1), 0), ListenerSetup::Failed(-1));
}

#[test]
fn line_handles() {
    assert_eq!(check_rc(0), Ok(()));
    assert_eq!(check_rc(-1), Err(DeviceError::FatalConfiguration));
    let g = GPIO::new();
    assert_eq!(g.pin(), 0);
    assert_eq!(g.set_pin(22).pin(), 22);
    assert_eq!(g.init_out(23, 0).unwrap().pin(), 23);
    assert!(g.init_out(23, 4).is_err());
    assert_eq!(g.init_in(12, 0).unwrap().pin(), 12);
    let mut h = GPIO::new();
    assert_eq!(h.init(15, -3), Err(DeviceError::FatalConfiguration));
    assert_eq!(h.pin(), 0);
    assert_eq!(h.init(15, 0), Ok(()));
    assert_eq!(h.pin(), 15);
    assert_eq!(h.read_state(1), Ok(1));
    assert_eq!(h.read_state(2), Err(DeviceError::HardwareFault));
    assert_eq!(h.set_low(), PinWrite { pin: 15, value: 0 });
    assert_eq!(h.set_high(), PinWrite { pin: 15, value: 1 });
    assert_eq!(GpioPullType::UP.code(), 1);
    assert_eq!(GpioPullType::DOWN.code(), 2);
    assert_eq!(GpioPullType::NONE.code(), 0);
}

#[test]
fn spi_and_delay() {
    let mut spi = SPI::new();
    assert_eq!(spi.spi_num(), 0);
    spi.init(1, 9);
    assert_eq!(spi.spi_num(), 1);
    assert_eq!(spi.select(), PinWrite { pin: 9, value: 0 });
    assert_eq!(spi.deselect(), PinWrite { pin: 9, value: 1 });
    assert_eq!(Delay::new().delay_ticks(200), 200);
}
