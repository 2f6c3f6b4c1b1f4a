//! Periodic temperature poll: decoding each reading and forwarding it, with
//! "network not ready" treated as "try again at the next poll".
use vstd::prelude::*;

use crate::hal::DeviceError;

verus! {

/// Poll interval of the temperature sensor, in milliseconds.
pub const SENSOR_POLL_TIME: u32 = 10000;

/// Marks a listener registration as a listener callback.
pub const LISTENER_CB: u32 = 1;

/// Logical name of the temperature sensor device.
pub const SENSOR_DEVICE: &'static str = "bme280_0";

/// Sensor type code of a computed ambient temperature (a float).
pub const SENSOR_TYPE_AMBIENT_TEMPERATURE: u32 = 1024;

/// Sensor type code of a raw ambient temperature (a 12-bit counter).
pub const SENSOR_TYPE_AMBIENT_TEMPERATURE_RAW: u32 = 67108864;

/// The measurement kind the listener is registered for.
pub const TEMP_SENSOR_TYPE: u32 = SENSOR_TYPE_AMBIENT_TEMPERATURE_RAW;

/// Key under which a temperature reading is forwarded.
pub const TEMP_SENSOR_KEY: &'static str = "t";

/// The two measurement kinds the listener decodes.
#[derive(Clone, Copy, Debug, PartialEq, Eq, Structural)]
pub enum MeasurementKind {
    /// A raw counter, 0 to 4095.
    Raw,
    /// A computed temperature.
    Computed,
}

/// The measurement kind of a sensor type code, if it is one of the two.
pub open spec fn kind_of(sensor_type: u32) -> Option<MeasurementKind> {
    if sensor_type == SENSOR_TYPE_AMBIENT_TEMPERATURE_RAW {
        Some(MeasurementKind::Raw)
    } else if sensor_type == SENSOR_TYPE_AMBIENT_TEMPERATURE {
        Some(MeasurementKind::Computed)
    } else {
        None
    }
}

/// Decodes a sensor type code; any other code is a configuration defect.
pub fn measurement_kind(sensor_type: u32) -> (r: Result<MeasurementKind, DeviceError>)
    ensures
        r == (match kind_of(sensor_type) {
            Some(k) => Ok::<MeasurementKind, DeviceError>(k),
            None => Err(DeviceError::UnknownMeasurementKind),
        }),
{
    if sensor_type == SENSOR_TYPE_AMBIENT_TEMPERATURE_RAW {
        Ok(MeasurementKind::Raw)
    } else if sensor_type == SENSOR_TYPE_AMBIENT_TEMPERATURE {
        Ok(MeasurementKind::Computed)
    } else {
        Err(DeviceError::UnknownMeasurementKind)
    }
}

/// A sensor payload as the platform delivers it: the value with its validity
/// flag. For a raw reading the value is the counter; for a computed one it is
/// the bit pattern of the single-precision temperature.
#[derive(Clone, Copy, Debug, PartialEq, Eq, Structural)]
pub struct TempData {
    pub value: u32,
    pub valid: bool,
}

/// A decoded reading.
#[derive(Clone, Copy, Debug, PartialEq, Eq, Structural)]
pub enum SensorValueType {
    /// Nothing to forward.
    Empty,
    /// A raw counter.
    RawCount(u32),
    /// A computed temperature, as the bit pattern of a single-precision float.
    Temperature(u32),
}

/// A decoded reading with the key it is forwarded under.
#[derive(Clone, Copy, Debug)]
pub struct SensorValue {
    pub key: &'static str,
    pub val: SensorValueType,
}

/// The reading a payload of kind `kind` decodes to.
pub open spec fn decoded(data: TempData, kind: MeasurementKind) -> SensorValueType {
    if !data.valid {
        SensorValueType::Empty
    } else {
        match kind {
            MeasurementKind::Raw => SensorValueType::RawCount(data.value),
            MeasurementKind::Computed => SensorValueType::Temperature(data.value),
        }
    }
}

/// Decodes a payload of kind `kind`. An invalid payload gives an empty
/// reading with an empty key; a valid one is keyed as a temperature.
pub fn get_temperature(data: TempData, kind: MeasurementKind) -> (r: SensorValue)
    ensures
        r.val == decoded(data, kind),
        data.valid ==> r.key@ == TEMP_SENSOR_KEY@,
        !data.valid ==> r.key@ == ""@,
{
    if !data.valid {
        return SensorValue { key: "", val: SensorValueType::Empty };
    }
    let val = match kind {
        MeasurementKind::Raw => SensorValueType::RawCount(data.value),
        MeasurementKind::Computed => SensorValueType::Temperature(data.value),
    };
    SensorValue { key: TEMP_SENSOR_KEY, val }
}

/// What the listener callback does with one delivery.
#[derive(Debug)]
pub enum ListenerStep {
    /// Nothing to forward: the callback reports success.
    Done,
    /// Hand `value` to the forwarder, with the name of the device it came from,
    /// then settle the callback's result with `forward_result`.
    Forward { value: SensorValue, device: String },
}

/// Listener callback of the temperature sensor, on one delivery: `data` is
/// `None` when no payload came, `sensor_type` is the delivered type code and
/// `device_name` the name of the originating device.
pub fn read_temperature(data: Option<TempData>, sensor_type: u32, device_name: &str) -> (r: Result<
    ListenerStep,
    DeviceError,
>)
    ensures
        data is None ==> r matches Ok(ListenerStep::Done),
        data is Some && kind_of(sensor_type) is None ==> r matches Err(DeviceError::UnknownMeasurementKind),
        data is Some && kind_of(sensor_type) is Some && !data.unwrap().valid ==> r matches Ok(
            ListenerStep::Done,
        ),
        data is Some && kind_of(sensor_type) is Some && data.unwrap().valid ==> (match r {
            Ok(ListenerStep::Forward { value, device }) => value.val == decoded(
                data.unwrap(),
                kind_of(sensor_type).unwrap(),
            ) && value.key@ == TEMP_SENSOR_KEY@ && device@ == device_name@,
            _ => false,
        }),
{
    let payload = match data {
        Some(d) => d,
        None => return Ok(ListenerStep::Done),
    };
    let kind = match measurement_kind(sensor_type) {
        Ok(k) => k,
        Err(e) => return Err(e),
    };
    let value = get_temperature(payload, kind);
    match value.val {
        SensorValueType::Empty => Ok(ListenerStep::Done),
        _ => Ok(ListenerStep::Forward { value, device: device_name.to_owned() }),
    }
}

/// Failures of the downstream forwarder.
#[derive(Clone, Copy, Debug, PartialEq, Eq, Structural)]
pub enum ForwardError {
    /// The network path is still starting up.
    NotReady,
    /// Any other failure, with the platform's error code.
    Other(i32),
}

/// The listener's result once the forwarder answered `rc`: "not ready" is
/// swallowed, to be retried at the next poll; any other failure is passed on.
pub fn forward_result(rc: Result<(), ForwardError>) -> (r: Result<(), ForwardError>)
    ensures
        r == (match rc {
            Err(ForwardError::NotReady) => Ok(()),
            _ => rc,
        }),
{
    match rc {
        Err(ForwardError::NotReady) => Ok(()),
        _ => rc,
    }
}

/// What `start_sensor_listener` asks the platform to set up.
#[derive(Clone, Copy, Debug)]
pub struct SensorListenerRegistration {
    pub device: &'static str,
    pub poll_ms: u32,
    pub sensor_type: u32,
    pub arg: u32,
}

/// The listener to register: the configured device polled every ten seconds,
/// one measurement kind. The caller sets the poll rate, finds the device and
/// registers `read_temperature` as the listener.
pub fn start_sensor_listener() -> (r: SensorListenerRegistration)
    ensures
        r.device@ == SENSOR_DEVICE@,
        r.poll_ms == SENSOR_POLL_TIME,
        r.sensor_type == TEMP_SENSOR_TYPE,
        kind_of(r.sensor_type) is Some,
        r.arg == LISTENER_CB,
{
    SensorListenerRegistration {
        device: SENSOR_DEVICE,
        poll_ms: SENSOR_POLL_TIME,
        sensor_type: TEMP_SENSOR_TYPE,
        arg: LISTENER_CB,
    }
}

/// Bring-up of the listener, one platform call at a time.
#[derive(Clone, Copy, Debug, PartialEq, Eq, Structural)]
pub enum ListenerSetup {
    /// Next: set the device's poll rate.
    SetPollRate,
    /// Next: look the device up by name.
    FindDevice,
    /// Next: register the listener on the device found.
    Register,
    /// The listener is registered.
    Started,
    /// A call failed with this code; nothing further is attempted.
    Failed(i32),
}

/// The bring-up step after the current call answered `rc` (0 is success; a
/// device lookup that found nothing is reported with a nonzero code).
pub open spec fn listener_setup_spec(step: ListenerSetup, rc: i32) -> ListenerSetup {
    match step {
        ListenerSetup::SetPollRate => if rc == 0 { ListenerSetup::FindDevice } else { ListenerSetup::Failed(rc) },
        ListenerSetup::FindDevice => if rc == 0 { ListenerSetup::Register } else { ListenerSetup::Failed(rc) },
        ListenerSetup::Register => if rc == 0 { ListenerSetup::Started } else { ListenerSetup::Failed(rc) },
        _ => step,
    }
}

/// Advances the listener bring-up: each call must succeed before the next is
/// made, and the first failure ends it with that call's code.
pub fn listener_setup_next(step: ListenerSetup, rc: i32) -> (r: ListenerSetup)
    ensures
        r == listener_setup_spec(step, rc),
{
    match step {
        ListenerSetup::SetPollRate => if rc == 0 { ListenerSetup::FindDevice } else { ListenerSetup::Failed(rc) },
        ListenerSetup::FindDevice => if rc == 0 { ListenerSetup::Register } else { ListenerSetup::Failed(rc) },
        ListenerSetup::Register => if rc == 0 { ListenerSetup::Started } else { ListenerSetup::Failed(rc) },
        _ => step,
    }
}

} // verus!
