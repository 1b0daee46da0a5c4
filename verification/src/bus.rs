//! Register writes on the controller's bus, and the sequence that
//! configures the controller before any logical value is applied.

use vstd::prelude::*;

verus! {

/// Address of the servo controller on the bus.
pub const SERVO_HAT_ADDR: u16 = 0x40;

/// Number of output channels that the mount drives.
pub const CHANNELS: u8 = 2;

/// Mode register of the controller.
pub const MODE_REGISTER: u8 = 0x00;

/// Mode byte that wakes the controller and enables register auto-increment.
pub const MODE_WAKE: u8 = 0x20;

/// Prescale register of the controller, which sets the PWM frequency.
pub const PRESCALE_REGISTER: u8 = 0xfe;

/// Prescale byte of the servo frequency.
pub const PRESCALE_SERVO: u8 = 0x1e;

/// "On" register of channel 0; each channel takes four registers.
pub const FIRST_ON_REGISTER: u8 = 0x06;

/// "Off" register of channel 0; each channel takes four registers.
pub const FIRST_OFF_REGISTER: u8 = 0x08;

/// On-delay word written to every channel at startup.
pub const BASELINE_ON: u16 = 0;

/// Off-delay word written to every channel at startup.
pub const BASELINE_OFF: u16 = 1250;

/// One write transaction on the bus.
#[derive(Clone, Copy, Debug, PartialEq, Eq)]
pub enum BusWrite {
    /// Write of one byte to a register.
    Byte { register: u8, byte: u8 },
    /// Write of a 16-bit word to a register.
    Word { register: u8, word: u16 },
}

/// A fault of the transport: bus busy, no acknowledgment, device absent.
#[derive(Clone, Copy, Debug, PartialEq, Eq)]
pub struct TransportError;

/// The register that holds the on-delay of `channel`, for the channels
/// that the mount drives.
pub open spec fn on_register_of(channel: u8) -> Option<u8> {
    if channel < CHANNELS {
        Some((FIRST_ON_REGISTER + 4 * channel) as u8)
    } else {
        None
    }
}

/// The register that holds the off-delay, the pulse width, of `channel`,
/// for the channels that the mount drives.
pub open spec fn off_register_of(channel: u8) -> Option<u8> {
    if channel < CHANNELS {
        Some((FIRST_OFF_REGISTER + 4 * channel) as u8)
    } else {
        None
    }
}

/// The register that holds the on-delay of `channel`.
pub fn on_register(channel: u8) -> (register: Option<u8>)
    ensures
        register == on_register_of(channel),
{
    if channel < CHANNELS {
        Some(FIRST_ON_REGISTER + 4 * channel)
    } else {
        None
    }
}

/// The register that holds the off-delay, the pulse width, of `channel`.
pub fn off_register(channel: u8) -> (register: Option<u8>)
    ensures
        register == off_register_of(channel),
{
    if channel < CHANNELS {
        Some(FIRST_OFF_REGISTER + 4 * channel)
    } else {
        None
    }
}

/// The writes that configure the controller, in their order: wake, set the
/// frequency, then for each channel the baseline on-delay and off-delay.
pub open spec fn startup_writes() -> Seq<BusWrite> {
    seq![
        BusWrite::Byte { register: 0x00, byte: 0x20 },
        BusWrite::Byte { register: 0xfe, byte: 0x1e },
        BusWrite::Word { register: 0x06, word: 0 },
        BusWrite::Word { register: 0x08, word: 1250 },
        BusWrite::Word { register: 0x0a, word: 0 },
        BusWrite::Word { register: 0x0c, word: 1250 },
    ]
}

/// The startup write at position `step`, and none past the last.
pub fn startup_write(step: usize) -> (write: Option<BusWrite>)
    ensures
        write == if step < startup_writes().len() {
            Some(startup_writes()[step as int])
        } else {
            None
        },
{
    if step == 0 {
        Some(BusWrite::Byte { register: MODE_REGISTER, byte: MODE_WAKE })
    } else if step == 1 {
        Some(BusWrite::Byte { register: PRESCALE_REGISTER, byte: PRESCALE_SERVO })
    } else if step < 2 + 2 * (CHANNELS as usize) {
        let channel: u8 = ((step - 2) / 2) as u8;
        let register = if step % 2 == 0 {
            on_register(channel)
        } else {
            off_register(channel)
        };
        match register {
            Some(register) => Some(
                BusWrite::Word {
                    register,
                    word: if step % 2 == 0 {
                        BASELINE_ON
                    } else {
                        BASELINE_OFF
                    },
                },
            ),
            None => None,
        }
    } else {
        None
    }
}

/// The writes that configure the controller, in their order.
pub fn startup_sequence() -> (writes: Vec<BusWrite>)
    ensures
        writes@ == startup_writes(),
{
    let mut writes: Vec<BusWrite> = Vec::new();
    let mut step: usize = 0;
    loop
        invariant
            step <= startup_writes().len(),
            writes@ == startup_writes().take(step as int),
        ensures
            writes@ == startup_writes(),
        decreases startup_writes().len() - step,
    {
        match startup_write(step) {
            Some(write) => {
                writes.push(write);
                step = step + 1;
            },
            None => {
                break ;
            },
        }
    }
    writes
}

/// A startup that failed: `step` is the position in `startup_writes()` of
/// the write that the transport refused.
#[derive(Clone, Copy, Debug, PartialEq, Eq)]
pub struct StartupFault {
    pub step: usize,
}

/// Progress of the controller's startup: how many writes the transport has
/// accepted, and whether it has refused one. The startup is a dialogue
/// with whoever holds the bus: `pending` names the one write to perform
/// next, `record` takes its outcome. A fault ends it for good: the
/// controller is then not configured, and no logical value may be applied.
#[derive(Clone, Copy, Debug, PartialEq, Eq)]
pub struct Startup {
    accepted: usize,
    faulted: bool,
}

/// What a startup holds.
pub struct StartupView {
    /// Number of startup writes that the transport has accepted.
    pub accepted: nat,
    /// Whether the transport has refused the write after those.
    pub faulted: bool,
}

impl StartupView {
    /// The write to perform next: the first that is not yet accepted, and
    /// none after a fault or once all are accepted.
    pub open spec fn pending(self) -> Option<BusWrite> {
        if !self.faulted && self.accepted < startup_writes().len() {
            Some(startup_writes()[self.accepted as int])
        } else {
            None
        }
    }

    /// The controller is configured: every startup write was accepted.
    pub open spec fn configured(self) -> bool {
        !self.faulted && self.accepted >= startup_writes().len()
    }

    /// The fault that ended the startup, if one did.
    pub open spec fn fault(self) -> Option<StartupFault> {
        if self.faulted {
            Some(StartupFault { step: self.accepted as usize })
        } else {
            None
        }
    }

    /// The startup once the pending write has ended with `outcome`: one
    /// more write is accepted, or the startup has faulted for good. With
    /// no write pending nothing changes.
    pub open spec fn recorded(self, outcome: Result<(), TransportError>) -> StartupView {
        if self.pending() is None {
            self
        } else {
            match outcome {
                Ok(_) => StartupView { accepted: self.accepted + 1, ..self },
                Err(_) => StartupView { faulted: true, ..self },
            }
        }
    }
}

impl View for Startup {
    type V = StartupView;

    closed spec fn view(&self) -> StartupView {
        StartupView { accepted: self.accepted as nat, faulted: self.faulted }
    }
}

impl Startup {
    /// A startup of which no write has been performed.
    pub fn new() -> (startup: Startup)
        ensures
            startup@ == (StartupView { accepted: 0, faulted: false }),
    {
        Startup { accepted: 0, faulted: false }
    }

    /// The write to perform next, if the startup goes on.
    pub fn pending(&self) -> (write: Option<BusWrite>)
        ensures
            write == self@.pending(),
    {
        if self.faulted {
            None
        } else {
            startup_write(self.accepted)
        }
    }

    /// Takes the outcome of the pending write.
    pub fn record(&mut self, outcome: Result<(), TransportError>)
        ensures
            final(self)@ == old(self)@.recorded(outcome),
    {
        if self.pending().is_some() {
            match outcome {
                Ok(_) => {
                    self.accepted = self.accepted + 1;
                },
                Err(_) => {
                    self.faulted = true;
                },
            }
        }
    }

    /// Whether the controller is configured, so that logical values may be
    /// applied.
    pub fn is_configured(&self) -> (configured: bool)
        ensures
            configured == self@.configured(),
    {
        !self.faulted && self.pending().is_none()
    }

    /// The fault that ended the startup, if one did.
    pub fn fault(&self) -> (fault: Option<StartupFault>)
        ensures
            fault == self@.fault(),
    {
        if self.faulted {
            Some(StartupFault { step: self.accepted })
        } else {
            None
        }
    }
}

} // verus!
