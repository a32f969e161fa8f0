//! What construction programs: the control word and the order of the register
//! accesses that bring the peripheral up.

use crate::mode::{Mode, Phase, Polarity};
use vstd::prelude::*;

verus! {

/// The fields of control register 1 that the driver decides. A write of a
/// `Control` is a write of the whole register: the fields that are not listed
/// here take their reset value.
#[derive(Clone, Copy, Debug, PartialEq, Eq, Structural)]
pub struct Control {
    /// CPHA: data is sampled on the second clock transition.
    pub cpha: bool,
    /// CPOL: the clock idles high.
    pub cpol: bool,
    /// MSTR: the peripheral is the bus master.
    pub mstr: bool,
    /// BR: the prescaler code, 0 to 7.
    pub br: u8,
    /// LSBFIRST: frames go out least significant bit first.
    pub lsbfirst: bool,
    /// SSM: slave select is managed by software.
    pub ssm: bool,
    /// SSI: the level that stands in for the select pin under `ssm`.
    pub ssi: bool,
    /// RXONLY: the peripheral only receives.
    pub rxonly: bool,
    /// BIDIMODE: one data line is used for both directions.
    pub bidimode: bool,
    /// SPE: the peripheral is enabled.
    pub spe: bool,
}

/// One register access of the start-up sequence.
#[derive(Clone, Copy, Debug, PartialEq, Eq, Structural)]
pub enum Step {
    /// Set the peripheral's bit in the bus clock-enable register.
    EnableClock,
    /// Set the peripheral's bit in the bus reset register.
    AssertReset,
    /// Clear the peripheral's bit in the bus reset register.
    ReleaseReset,
    /// Clear the enable bit of control register 1, leaving its other bits.
    Disable,
    /// Write control register 2 with the select-output enable bit clear.
    DisableSelectOutput,
    /// Write control register 1 as a whole.
    Configure(Control),
}

impl Control {
    /// The control word after a reset: every field clear.
    pub open spec fn reset() -> Control {
        Control {
            cpha: false,
            cpol: false,
            mstr: false,
            br: 0,
            lsbfirst: false,
            ssm: false,
            ssi: false,
            rxonly: false,
            bidimode: false,
            spe: false,
        }
    }

    /// The control word of a master in the given mode with the given
    /// prescaler code: most significant bit first, two data lines, both
    /// directions, slave select left to software and held high internally,
    /// peripheral enabled.
    pub open spec fn master(mode: Mode, code: u8) -> Control {
        Control {
            cpha: mode.phase == Phase::CaptureOnSecondTransition,
            cpol: mode.polarity == Polarity::IdleHigh,
            mstr: true,
            br: code,
            lsbfirst: false,
            ssm: true,
            ssi: true,
            rxonly: false,
            bidimode: false,
            spe: true,
        }
    }

    /// Whether the prescaler code fits its three-bit field.
    pub open spec fn well_formed(self) -> bool {
        self.br <= 7
    }

    /// Builds the control word of a master; see [`Control::master`].
    pub fn for_master(mode: Mode, code: u8) -> (control: Control)
        requires
            code <= 7,
        ensures
            control == Control::master(mode, code),
            control.well_formed(),
    {
        let cpha = match mode.phase {
            Phase::CaptureOnFirstTransition => false,
            Phase::CaptureOnSecondTransition => true,
        };
        let cpol = match mode.polarity {
            Polarity::IdleLow => false,
            Polarity::IdleHigh => true,
        };
        Control {
            cpha,
            cpol,
            mstr: true,
            br: code,
            lsbfirst: false,
            ssm: true,
            ssi: true,
            rxonly: false,
            bidimode: false,
            spe: true,
        }
    }
}

/// The start-up sequence, in the order in which it must reach the hardware:
/// clock on, reset pulsed, peripheral disabled, select output off, and last
/// the control word, which enables the peripheral.
pub open spec fn startup(control: Control) -> Seq<Step> {
    seq![
        Step::EnableClock,
        Step::AssertReset,
        Step::ReleaseReset,
        Step::Disable,
        Step::DisableSelectOutput,
        Step::Configure(control),
    ]
}

/// Lays out the start-up sequence for a control word.
pub fn startup_sequence(control: Control) -> (steps: [Step; 6])
    ensures
        steps@ == startup(control),
{
    let steps = [
        Step::EnableClock,
        Step::AssertReset,
        Step::ReleaseReset,
        Step::Disable,
        Step::DisableSelectOutput,
        Step::Configure(control),
    ];
    assert(steps@ =~= startup(control));
    steps
}

/// What the start-up sequence can change in the hardware, as far as the
/// driver relies on it. This is a model to state the sequence's effect
/// against; no code runs on it.
pub struct Peripheral {
    /// The bus clock reaches the peripheral.
    pub clocked: bool,
    /// The reset line of the peripheral is asserted.
    pub in_reset: bool,
    /// Content of control register 1.
    pub control: Control,
    /// The select-output enable bit of control register 2.
    pub select_output: bool,
}

impl Peripheral {
    /// Whether a write to the peripheral's own registers takes effect: it
    /// needs the clock, and the reset line released.
    pub open spec fn writable(self) -> bool {
        self.clocked && !self.in_reset
    }

    /// The state after one register access.
    ///
    /// Asserting the reset line puts the peripheral's registers at their
    /// reset values. A write to them is lost unless they are writable.
    pub open spec fn after(self, step: Step) -> Peripheral {
        match step {
            Step::EnableClock => Peripheral { clocked: true, ..self },
            Step::AssertReset => Peripheral {
                in_reset: true,
                control: Control::reset(),
                select_output: false,
                ..self
            },
            Step::ReleaseReset => Peripheral { in_reset: false, ..self },
            Step::Disable => if self.writable() {
                Peripheral { control: Control { spe: false, ..self.control }, ..self }
            } else {
                self
            },
            Step::DisableSelectOutput => if self.writable() {
                Peripheral { select_output: false, ..self }
            } else {
                self
            },
            Step::Configure(control) => if self.writable() {
                Peripheral { control, ..self }
            } else {
                self
            },
        }
    }

    /// The state after a sequence of register accesses, first to last.
    pub open spec fn after_all(self, steps: Seq<Step>) -> Peripheral
        decreases steps.len(),
    {
        if steps.len() == 0 {
            self
        } else {
            self.after(steps[0]).after_all(steps.subrange(1, steps.len() as int))
        }
    }

    /// The state in which the start-up sequence leaves the peripheral.
    pub open spec fn configured(control: Control) -> Peripheral {
        Peripheral { clocked: true, in_reset: false, control, select_output: false }
    }
}

/// Start-up does not depend on what came before: from any state, the sequence
/// leaves the peripheral clocked, out of reset, with the select output off
/// and with exactly the control word it was given.
pub proof fn lemma_startup_forgets_the_past(before: Peripheral, control: Control)
    ensures
        before.after_all(startup(control)) == Peripheral::configured(control),
{
    let steps = startup(control);
    let s1 = before.after(steps[0]);
    let s2 = s1.after(steps[1]);
    let s3 = s2.after(steps[2]);
    let s4 = s3.after(steps[3]);
    let s5 = s4.after(steps[4]);
    let s6 = s5.after(steps[5]);
    let t1 = steps.subrange(1, steps.len() as int);
    let t2 = t1.subrange(1, t1.len() as int);
    let t3 = t2.subrange(1, t2.len() as int);
    let t4 = t3.subrange(1, t3.len() as int);
    let t5 = t4.subrange(1, t4.len() as int);
    let t6 = t5.subrange(1, t5.len() as int);
    assert(s6.after_all(t6) == s6);
    assert(s5.after_all(t5) == s6);
    assert(s4.after_all(t4) == s6);
    assert(s3.after_all(t3) == s6);
    assert(s2.after_all(t2) == s6);
    assert(s1.after_all(t1) == s6);
    assert(before.after_all(steps) == s6);
}

/// The peripheral is enabled by the last access and by no earlier one: from
/// the reset pulse until the control word is written, it is disabled,
/// whatever state it was in before.
pub proof fn lemma_enabled_by_the_last_access(before: Peripheral, control: Control, done: int)
    requires
        2 <= done < 6,
    ensures
        !before.after_all(startup(control).subrange(0, done)).control.spe,
        before.after_all(startup(control)).control.spe == control.spe,
{
    reveal_with_fuel(Peripheral::after_all, 7);
    lemma_startup_forgets_the_past(before, control);
}

} // verus!
