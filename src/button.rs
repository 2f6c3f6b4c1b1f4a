//! The button: an edge interrupt handed to the deferred worker, which advances
//! the backlight; or, where no interrupt is wired, a polled sense line.
use vstd::prelude::*;

use crate::backlight::{decode, encoding, successor, valid_readback, Backlight, Readback};
use crate::hal::{read_state_spec, DeviceError, GpioPullType, PinWrite, GPIO};

verus! {

/// Driven high to power the button's sense circuit.
pub const BUTTON_ENABLE_PIN: i32 = 15;

/// Sense line: high while the button is pressed.
pub const BUTTON_INDICATOR_PIN: i32 = 13;

/// The platform's code for a rising-edge interrupt.
pub const IRQ_TRIG_RISING: u32 = 1;

/// How many actuators the registry can hold.
pub const MAX_ACTUATORS: usize = 4;

/// The single reusable event record of the button: whether it sits in the
/// worker's queue, and the context token it carries.
#[derive(Clone, Copy, Debug, PartialEq, Eq, Structural)]
pub struct DeferredEvent {
    pub queued: bool,
    pub arg: u32,
}

/// The record after an interrupt stored `arg` in it and handed it to the
/// queue: putting a record that is already queued queues nothing new.
pub open spec fn fire_spec(ev: DeferredEvent, arg: u32) -> DeferredEvent {
    DeferredEvent { queued: true, arg }
}

/// What the worker runs when it drains the queue, and the record afterwards.
pub open spec fn drain_spec(ev: DeferredEvent) -> (Option<u32>, DeferredEvent) {
    if ev.queued {
        (Some(ev.arg), DeferredEvent { queued: false, ..ev })
    } else {
        (None, ev)
    }
}

impl DeferredEvent {
    /// The zeroed record: not queued, token 0.
    pub fn new() -> (r: DeferredEvent)
        ensures
            r == (DeferredEvent { queued: false, arg: 0 }),
    {
        DeferredEvent { queued: false, arg: 0 }
    }

    /// The worker's side: takes the record off the queue and yields the token
    /// the deferred callback is to run with, if the record was queued.
    pub fn take(&mut self) -> (r: Option<u32>)
        ensures
            (r, *final(self)) == drain_spec(*old(self)),
    {
        if self.queued {
            self.queued = false;
            Some(self.arg)
        } else {
            None
        }
    }
}

/// Interrupt handler of the button: stores the context token in the event
/// record and queues the record. It touches no actuator state.
pub fn button_press_handler(ev: &mut DeferredEvent, arg: u32)
    ensures
        *final(ev) == fire_spec(*old(ev), arg),
{
    ev.arg = arg;
    ev.queued = true;
}

/// Two firings before the worker drains run the deferred callback once, with
/// the later context; the queue is then empty.
pub proof fn lemma_firings_coalesce(ev: DeferredEvent, first: u32, second: u32)
    ensures
        drain_spec(fire_spec(fire_spec(ev, first), second)).0 == Some(second),
        drain_spec(drain_spec(fire_spec(fire_spec(ev, first), second)).1).0 == None::<u32>,
{
}

/// Maps small integer tokens to the actuators that deferred callbacks drive.
#[derive(Debug)]
pub struct ActuatorRegistry {
    entries: Vec<Backlight>,
}

impl ActuatorRegistry {
    /// The registered actuators, indexed by token.
    pub closed spec fn spec_entries(&self) -> Seq<Backlight> {
        self.entries@
    }

    pub open spec fn wf(&self) -> bool {
        &&& self.spec_entries().len() <= MAX_ACTUATORS
        &&& forall|i: int| 0 <= i < self.spec_entries().len() ==> #[trigger] self.spec_entries()[i].wf()
    }

    pub fn new() -> (r: ActuatorRegistry)
        ensures
            r.wf(),
            r.spec_entries() == Seq::<Backlight>::empty(),
    {
        ActuatorRegistry { entries: Vec::new() }
    }

    /// Registers `bl` and returns its token; fails when the registry is full.
    pub fn register(&mut self, bl: Backlight) -> (r: Result<u32, DeviceError>)
        requires
            old(self).wf(),
            bl.wf(),
        ensures
            final(self).wf(),
            old(self).spec_entries().len() < MAX_ACTUATORS ==> r == Ok::<u32, DeviceError>(
                old(self).spec_entries().len() as u32,
            ) && final(self).spec_entries() == old(self).spec_entries().push(bl),
            old(self).spec_entries().len() >= MAX_ACTUATORS ==> r == Err::<u32, DeviceError>(
                DeviceError::FatalConfiguration,
            ) && final(self).spec_entries() == old(self).spec_entries(),
    {
        if self.entries.len() < MAX_ACTUATORS {
            let token = self.entries.len() as u32;
            self.entries.push(bl);
            Ok(token)
        } else {
            Err(DeviceError::FatalConfiguration)
        }
    }

    /// The actuator registered under `token`, if any.
    pub fn get(&self, token: u32) -> (r: Option<Backlight>)
        ensures
            r == (if (token as int) < self.spec_entries().len() {
                Some(self.spec_entries()[token as int])
            } else {
                None
            }),
    {
        if (token as usize) < self.entries.len() {
            Some(self.entries[token as usize])
        } else {
            None
        }
    }
}

/// Deferred callback of the button, run by the worker with the token the
/// event carried: advances the actuator registered under it, given what its
/// lines read back, and returns the line writes to perform.
pub fn button_press_callback(registry: &mut ActuatorRegistry, token: u32, rb: Readback) -> (r: Result<
    Vec<PinWrite>,
    DeviceError,
>)
    requires
        old(registry).wf(),
    ensures
        final(registry).wf(),
        final(registry).spec_entries().len() == old(registry).spec_entries().len(),
        (token as int) >= old(registry).spec_entries().len() ==> r == Err::<Vec<PinWrite>, DeviceError>(
            DeviceError::FatalConfiguration,
        ) && final(registry).spec_entries() == old(registry).spec_entries(),
        (token as int) < old(registry).spec_entries().len() && !valid_readback(rb) ==> r == Err::<
            Vec<PinWrite>,
            DeviceError,
        >(DeviceError::HardwareFault) && final(registry).spec_entries() == old(registry).spec_entries(),
        (token as int) < old(registry).spec_entries().len() && valid_readback(rb) ==> r.is_ok()
            && r.unwrap()@ == encoding(successor(decode(rb)))
            && final(registry).spec_entries()[token as int].spec_level() == successor(decode(rb))
            && forall|i: int|
            0 <= i < old(registry).spec_entries().len() && i != token
                ==> #[trigger] final(registry).spec_entries()[i] == old(registry).spec_entries()[i],
{
    let bl = match registry.get(token) {
        Some(b) => b,
        None => return Err(DeviceError::FatalConfiguration),
    };
    match bl.increase(rb) {
        Ok((next, writes)) => {
            registry.entries[token as usize] = next;
            Ok(writes)
        },
        Err(e) => Err(e),
    }
}

/// What `initialize_button` hands to the platform's interrupt binding.
#[derive(Clone, Copy, Debug, PartialEq, Eq, Structural)]
pub struct ButtonEventRegistration {
    pub enable_pin: i32,
    pub sense_pin: i32,
    pub pull: GpioPullType,
    pub trigger: u32,
    pub token: u32,
}

/// Second step of bringing up the button, once the enable line was driven high
/// and read back as `enable_state`: the readback must be 1, then `backlight`
/// is registered and the interrupt binding to make is returned. The caller
/// binds and enables the interrupt, checking the return code with `check_rc`.
pub fn initialize_button(registry: &mut ActuatorRegistry, backlight: Backlight, enable_state: i32) -> (r:
    Result<ButtonEventRegistration, DeviceError>)
    requires
        old(registry).wf(),
        backlight.wf(),
    ensures
        final(registry).wf(),
        read_state_spec(enable_state).is_err() ==> r == Err::<ButtonEventRegistration, DeviceError>(
            DeviceError::HardwareFault,
        ),
        enable_state == 0 ==> r == Err::<ButtonEventRegistration, DeviceError>(DeviceError::FatalConfiguration),
        enable_state == 1 && old(registry).spec_entries().len() >= MAX_ACTUATORS ==> r == Err::<
            ButtonEventRegistration,
            DeviceError,
        >(DeviceError::FatalConfiguration),
        r.is_err() ==> final(registry).spec_entries() == old(registry).spec_entries(),
        enable_state == 1 && old(registry).spec_entries().len() < MAX_ACTUATORS ==> r == Ok::<
            ButtonEventRegistration,
            DeviceError,
        >(
            ButtonEventRegistration {
                enable_pin: BUTTON_ENABLE_PIN,
                sense_pin: BUTTON_INDICATOR_PIN,
                pull: GpioPullType::DOWN,
                trigger: IRQ_TRIG_RISING,
                token: old(registry).spec_entries().len() as u32,
            },
        ) && final(registry).spec_entries() == old(registry).spec_entries().push(backlight),
{
    let state = if enable_state == 0 || enable_state == 1 {
        enable_state
    } else {
        return Err(DeviceError::HardwareFault);
    };
    if state != 1 {
        return Err(DeviceError::FatalConfiguration);
    }
    let token = match registry.register(backlight) {
        Ok(t) => t,
        Err(e) => return Err(e),
    };
    Ok(
        ButtonEventRegistration {
            enable_pin: BUTTON_ENABLE_PIN,
            sense_pin: BUTTON_INDICATOR_PIN,
            pull: GpioPullType::DOWN,
            trigger: IRQ_TRIG_RISING,
            token,
        },
    )
}

/// One look at the sense line, read as `state`: when it reads 1 (pressed)
/// the backlight is advanced, given what its lines read back, and the result
/// is `false`; when it reads 0 the result is `true` and nothing changes.
/// Returns the result with the backlight and the line writes to perform.
pub fn is_button_pressed(backlight: Backlight, state: i32, rb: Readback) -> (r: Result<
    (bool, Backlight, Vec<PinWrite>),
    DeviceError,
>)
    requires
        backlight.wf(),
    ensures
        read_state_spec(state).is_err() ==> r == Err::<(bool, Backlight, Vec<PinWrite>), DeviceError>(
            DeviceError::HardwareFault,
        ),
        state == 0 ==> r.is_ok() && r.unwrap().0 && r.unwrap().1 == backlight && r.unwrap().2@.len() == 0,
        state == 1 && !valid_readback(rb) ==> r == Err::<(bool, Backlight, Vec<PinWrite>), DeviceError>(
            DeviceError::HardwareFault,
        ),
        state == 1 && valid_readback(rb) ==> r.is_ok() && !r.unwrap().0 && r.unwrap().1.wf()
            && r.unwrap().1.spec_level() == successor(decode(rb))
            && r.unwrap().2@ == encoding(successor(decode(rb))),
{
    let pin = GPIO::new().set_pin(BUTTON_INDICATOR_PIN);
    let s = match pin.read_state(state) {
        Ok(s) => s,
        Err(e) => return Err(e),
    };
    if s == 0 {
        Ok((true, backlight, Vec::new()))
    } else {
        match backlight.increase(rb) {
            Ok((next, writes)) => Ok((false, next, writes)),
            Err(e) => Err(e),
        }
    }
}

/// One round of the polling strategy: given the sense line's read and the
/// backlight lines' readback, advances the backlight when the button is
/// pressed. The caller sleeps between rounds.
pub fn poll(backlight: Backlight, sense_state: i32, rb: Readback) -> (r: Result<
    (Backlight, Vec<PinWrite>),
    DeviceError,
>)
    requires
        backlight.wf(),
    ensures
        sense_state != 0 && sense_state != 1 ==> r == Err::<(Backlight, Vec<PinWrite>), DeviceError>(
            DeviceError::HardwareFault,
        ),
        sense_state == 0 ==> r.is_ok() && r.unwrap().0 == backlight && r.unwrap().1@.len() == 0,
        sense_state == 1 && !valid_readback(rb) ==> r == Err::<(Backlight, Vec<PinWrite>), DeviceError>(
            DeviceError::HardwareFault,
        ),
        sense_state == 1 && valid_readback(rb) ==> r.is_ok() && r.unwrap().0.wf()
            && r.unwrap().0.spec_level() == successor(decode(rb))
            && r.unwrap().1@ == encoding(successor(decode(rb))),
{
    match is_button_pressed(backlight, sense_state, rb) {
        Ok((_, next, writes)) => Ok((next, writes)),
        Err(e) => Err(e),
    }
}

/// The write that powers the button's sense circuit: the enable line high.
pub fn button_enable_write() -> (r: PinWrite)
    ensures
        r == (PinWrite { pin: BUTTON_ENABLE_PIN, value: 1 }),
{
    GPIO::new().set_pin(BUTTON_ENABLE_PIN).set_high()
}

} // verus!
