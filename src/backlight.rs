//! The backlight: three brightness levels encoded onto two active-low lines.
use vstd::prelude::*;

use crate::hal::{DeviceError, PinWrite, GPIO};

verus! {

/// Diagnostic line of the backlight: read back, never driven.
pub const BACKLIGHT_PIN_1: i32 = 14;

/// Medium control line, active low.
pub const BACKLIGHT_PIN_2: i32 = 22;

/// High control line, active low; takes priority over the medium line.
pub const BACKLIGHT_PIN_3: i32 = 23;

#[derive(Clone, Copy, Debug, PartialEq, Eq, Structural)]
pub enum Level {
    LOW,
    MEDIUM,
    HIGH,
}

/// Levels of the three backlight lines as read back from the hardware.
#[derive(Clone, Copy, Debug, PartialEq, Eq, Structural)]
pub struct Readback {
    pub low: i32,
    pub medium: i32,
    pub high: i32,
}

/// The cyclic successor used by `increase`.
pub open spec fn successor(l: Level) -> Level {
    match l {
        Level::LOW => Level::MEDIUM,
        Level::MEDIUM => Level::HIGH,
        Level::HIGH => Level::LOW,
    }
}

/// The line writes that put the backlight at level `l`.
pub open spec fn encoding(l: Level) -> Seq<PinWrite> {
    match l {
        Level::LOW => seq![
            PinWrite { pin: BACKLIGHT_PIN_2, value: 1 },
            PinWrite { pin: BACKLIGHT_PIN_3, value: 1 },
        ],
        Level::MEDIUM => seq![
            PinWrite { pin: BACKLIGHT_PIN_2, value: 0 },
            PinWrite { pin: BACKLIGHT_PIN_3, value: 1 },
        ],
        Level::HIGH => seq![PinWrite { pin: BACKLIGHT_PIN_3, value: 0 }],
    }
}

/// Whether `v` is a digital level.
pub open spec fn is_level(v: i32) -> bool {
    v == 0 || v == 1
}

/// Whether every line of `rb` reads as a digital level.
pub open spec fn valid_readback(rb: Readback) -> bool {
    is_level(rb.low) && is_level(rb.medium) && is_level(rb.high)
}

/// Decodes the level from the control lines: high active wins, then medium
/// active, else low. The diagnostic line plays no part.
pub open spec fn decode(rb: Readback) -> Level {
    if rb.high == 0 {
        Level::HIGH
    } else if rb.medium == 0 {
        Level::MEDIUM
    } else {
        Level::LOW
    }
}

/// What `get_current_level` reports for a readback.
pub open spec fn current_level_spec(rb: Readback) -> Result<Level, DeviceError> {
    if valid_readback(rb) {
        Ok(decode(rb))
    } else {
        Err(DeviceError::HardwareFault)
    }
}

/// The backlight lines after `writes` are performed in order, starting from `rb`.
pub open spec fn apply_writes(rb: Readback, writes: Seq<PinWrite>) -> Readback
    decreases writes.len(),
{
    if writes.len() == 0 {
        rb
    } else {
        let w = writes[0];
        let next = if w.pin == BACKLIGHT_PIN_1 {
            Readback { low: w.value, ..rb }
        } else if w.pin == BACKLIGHT_PIN_2 {
            Readback { medium: w.value, ..rb }
        } else if w.pin == BACKLIGHT_PIN_3 {
            Readback { high: w.value, ..rb }
        } else {
            rb
        };
        apply_writes(next, writes.drop_first())
    }
}

/// The backlight: its level and the handles of its three lines.
#[derive(Clone, Copy, Debug)]
pub struct Backlight {
    level: Level,
    low_pin: GPIO,
    medium_pin: GPIO,
    high_pin: GPIO,
}

impl Backlight {
    /// The handles name the backlight's three lines.
    pub closed spec fn wf(&self) -> bool {
        &&& self.low_pin.spec_pin() == BACKLIGHT_PIN_1
        &&& self.medium_pin.spec_pin() == BACKLIGHT_PIN_2
        &&& self.high_pin.spec_pin() == BACKLIGHT_PIN_3
    }

    /// The level last set.
    pub closed spec fn spec_level(&self) -> Level {
        self.level
    }

    /// A backlight at level low, with the writes that put the lines there.
    /// The caller has configured the three lines as outputs beforehand.
    pub fn init() -> (r: (Backlight, Vec<PinWrite>))
        ensures
            r.0.wf(),
            r.0.spec_level() == Level::LOW,
            r.1@ == encoding(Level::LOW),
    {
        let bl = Backlight {
            low_pin: GPIO::new().set_pin(BACKLIGHT_PIN_1),
            medium_pin: GPIO::new().set_pin(BACKLIGHT_PIN_2),
            high_pin: GPIO::new().set_pin(BACKLIGHT_PIN_3),
            level: Level::LOW,
        };
        bl.set(Level::LOW)
    }

    /// Moves to `new_level`, returning the line writes that encode it.
    pub fn set(self, new_level: Level) -> (r: (Backlight, Vec<PinWrite>))
        requires
            self.wf(),
        ensures
            r.0.wf(),
            r.0.spec_level() == new_level,
            r.1@ == encoding(new_level),
    {
        let mut bl = self;
        let mut writes: Vec<PinWrite> = Vec::new();
        match new_level {
            Level::LOW => {
                bl.level = Level::LOW;
                writes.push(bl.medium_pin.set_high());
                writes.push(bl.high_pin.set_high());
            },
            Level::MEDIUM => {
                bl.level = Level::MEDIUM;
                writes.push(bl.medium_pin.set_low());
                writes.push(bl.high_pin.set_high());
            },
            Level::HIGH => {
                bl.level = Level::HIGH;
                writes.push(bl.high_pin.set_low());
            },
        }
        assert(writes@ =~= encoding(new_level));
        (bl, writes)
    }

    /// The level the lines show, decoded from what they read back.
    pub fn get_current_level(&self, rb: Readback) -> (r: Result<Level, DeviceError>)
        ensures
            r == current_level_spec(rb),
    {
        let low_state = match self.low_pin.read_state(rb.low) {
            Ok(s) => s,
            Err(e) => return Err(e),
        };
        let medium_state = match self.medium_pin.read_state(rb.medium) {
            Ok(s) => s,
            Err(e) => return Err(e),
        };
        let high_state = match self.high_pin.read_state(rb.high) {
            Ok(s) => s,
            Err(e) => return Err(e),
        };
        let _ = low_state;
        if high_state == 0 {
            Ok(Level::HIGH)
        } else if medium_state == 0 {
            Ok(Level::MEDIUM)
        } else {
            Ok(Level::LOW)
        }
    }

    /// Advances to the successor of the level the lines show, returning the
    /// line writes that encode it.
    pub fn increase(self, rb: Readback) -> (r: Result<(Backlight, Vec<PinWrite>), DeviceError>)
        requires
            self.wf(),
        ensures
            r.is_err() <==> !valid_readback(rb),
            !valid_readback(rb) ==> r == Err::<(Backlight, Vec<PinWrite>), DeviceError>(DeviceError::HardwareFault),
            r.is_ok() ==> r.unwrap().0.wf(),
            r.is_ok() ==> r.unwrap().0.spec_level() == successor(decode(rb)),
            r.is_ok() ==> r.unwrap().1@ == encoding(successor(decode(rb))),
    {
        let level = match self.get_current_level(rb) {
            Ok(l) => l,
            Err(e) => return Err(e),
        };
        let next = match level {
            Level::LOW => Level::MEDIUM,
            Level::MEDIUM => Level::HIGH,
            Level::HIGH => Level::LOW,
        };
        Ok(self.set(next))
    }

    /// The level last set.
    pub fn level(&self) -> (r: Level)
        ensures
            r == self.spec_level(),
    {
        self.level
    }
}

/// The level reached after `n` presses from low: low, medium, high, low, ...
pub open spec fn cycle_level(n: nat) -> Level {
    if n % 3 == 0 {
        Level::LOW
    } else if n % 3 == 1 {
        Level::MEDIUM
    } else {
        Level::HIGH
    }
}

/// Level and line levels after `init` followed by `n` calls of `increase`,
/// each fed the lines as the previous writes left them; `start` is what the
/// lines read before `init`.
pub open spec fn after_presses(start: Readback, n: nat) -> (Level, Readback)
    decreases n,
{
    if n == 0 {
        (Level::LOW, apply_writes(start, encoding(Level::LOW)))
    } else {
        let lines = after_presses(start, (n - 1) as nat).1;
        let next = successor(decode(lines));
        (next, apply_writes(lines, encoding(next)))
    }
}

/// Pressing `n` times from low leaves the backlight at level `n mod 3` of
/// (low, medium, high); the lines keep reading as levels and decode to it.
pub proof fn lemma_increase_cycles(start: Readback, n: nat)
    requires
        valid_readback(start),
    ensures
        after_presses(start, n).0 == cycle_level(n),
        current_level_spec(after_presses(start, n).1) == Ok::<Level, DeviceError>(after_presses(start, n).0),
    decreases n,
{
    reveal_with_fuel(apply_writes, 3);
    if n > 0 {
        lemma_increase_cycles(start, (n - 1) as nat);
    }
}

/// A chain of `n` calls of `increase` after `init`: `levels[k]` and
/// `writes[k]` are what call `k` returned (call 0 is `init`), and `lines[k]` is
/// what the lines read after its writes, which call `k + 1` is fed. Whatever
/// the lines read before `init`, call `n` leaves level `n mod 3` of
/// (low, medium, high), and the lines decode to it.
pub proof fn lemma_increase_chain(
    start: Readback,
    levels: Seq<Level>,
    writes: Seq<Seq<PinWrite>>,
    lines: Seq<Readback>,
    n: nat,
)
    requires
        valid_readback(start),
        levels.len() == n + 1,
        writes.len() == n + 1,
        lines.len() == n + 1,
        levels[0] == Level::LOW,
        writes[0] == encoding(Level::LOW),
        lines[0] == apply_writes(start, writes[0]),
        forall|k: int|
            0 <= k < n ==> #[trigger] levels[k + 1] == successor(decode(lines[k])) && writes[k + 1]
                == encoding(successor(decode(lines[k]))) && lines[k + 1] == apply_writes(
                lines[k],
                writes[k + 1],
            ),
    ensures
        levels[n as int] == cycle_level(n),
        current_level_spec(lines[n as int]) == Ok::<Level, DeviceError>(cycle_level(n)),
{
    assert forall|k: nat| k <= n implies levels[k as int] == after_presses(start, k).0 && lines[k as int]
        == after_presses(start, k).1 by {
        lemma_chain_follows(start, levels, writes, lines, n, k);
    }
    lemma_increase_cycles(start, n);
}

proof fn lemma_chain_follows(
    start: Readback,
    levels: Seq<Level>,
    writes: Seq<Seq<PinWrite>>,
    lines: Seq<Readback>,
    n: nat,
    k: nat,
)
    requires
        levels.len() == n + 1,
        writes.len() == n + 1,
        lines.len() == n + 1,
        levels[0] == Level::LOW,
        writes[0] == encoding(Level::LOW),
        lines[0] == apply_writes(start, writes[0]),
        forall|k: int|
            0 <= k < n ==> #[trigger] levels[k + 1] == successor(decode(lines[k])) && writes[k + 1]
                == encoding(successor(decode(lines[k]))) && lines[k + 1] == apply_writes(
                lines[k],
                writes[k + 1],
            ),
        k <= n,
    ensures
        levels[k as int] == after_presses(start, k).0,
        lines[k as int] == after_presses(start, k).1,
    decreases k,
{
    if k > 0 {
        lemma_chain_follows(start, levels, writes, lines, n, (k - 1) as nat);
        assert(levels[(k - 1) + 1] == successor(decode(lines[k - 1])));
    }
}

/// Setting the same level twice leaves the lines as setting it once did.
pub proof fn lemma_set_idempotent(lines: Readback, l: Level)
    ensures
        apply_writes(apply_writes(lines, encoding(l)), encoding(l)) == apply_writes(lines, encoding(l)),
{
    reveal_with_fuel(apply_writes, 3);
}

/// The decoding table: high active gives high whatever the medium line reads,
/// medium active alone gives medium, neither gives low.
pub proof fn lemma_decode_table(low: i32)
    requires
        is_level(low),
    ensures
        current_level_spec(Readback { low, medium: 1, high: 1 }) == Ok::<Level, DeviceError>(Level::LOW),
        current_level_spec(Readback { low, medium: 0, high: 1 }) == Ok::<Level, DeviceError>(Level::MEDIUM),
        current_level_spec(Readback { low, medium: 1, high: 0 }) == Ok::<Level, DeviceError>(Level::HIGH),
        current_level_spec(Readback { low, medium: 0, high: 0 }) == Ok::<Level, DeviceError>(Level::HIGH),
{
}

} // verus!
