use stm32f042_spi::clock::{Clocks, Hertz};
use stm32f042_spi::control::{Control, Step};
use stm32f042_spi::gpio::{Alternate, AF0, PA5, PA6, PA7, PB2, PB4, PB5};
use stm32f042_spi::mode::{Mode, Phase, Polarity};
use stm32f042_spi::spi::{Error, Spi, Spi1};
use stm32f042_spi::status::{IdleRead, ReadStep, SendStep, Status};

type PortA = (PA5<Alternate<AF0>>, PA6<Alternate<AF0>>, PA7<Alternate<AF0>>);
type PortB = (PB2<Alternate<AF0>>, PB4<Alternate<AF0>>, PB5<Alternate<AF0>>);

fn port_a() -> PortA {
    (
        PA5 { mode: Alternate { function: AF0 } },
        PA6 { mode: Alternate { function: AF0 } },
        PA7 { mode: Alternate { function: AF0 } },
    )
}

fn port_b() -> PortB {
    (
        PB2 { mode: Alternate { function: AF0 } },
        PB4 { mode: Alternate { function: AF0 } },
        PB5 { mode: Alternate { function: AF0 } },
    )
}

const MODE_0: Mode =
    Mode { polarity: Polarity::IdleLow, phase: Phase::CaptureOnFirstTransition };
const MODE_3: Mode =
    Mode { polarity: Polarity::IdleHigh, phase: Phase::CaptureOnSecondTransition };

fn driver() -> Spi<Spi1<u32>, PortA> {
    let clocks = Clocks { pclk: Hertz(48_000_000) };
    Spi::spi1(Spi1::new(0x4001_3000u32), port_a(), MODE_0, Hertz(1_000_000), clocks).0
}

fn flags(ovr: bool, modf: bool, crcerr: bool, rxne: bool, txe: bool) -> Status {
    Status { ovr, modf, crcerr, rxne, txe }
}

/// The registers that start-up writes, as a test stand-in for the hardware.
#[derive(Clone, Copy, Debug, PartialEq)]
struct Bench {
    clocked: bool,
    in_reset: bool,
    control: Control,
    select_output: bool,
}

const CLEAR: Control = Control {
    cpha: false,
    cpol: false,
    mstr: false,
    br: 0,
    lsbfirst: false,
    ssm: false,
    ssi: false,
    rxonly: false,
    bidimode: false,
    spe: false,
};

impl Bench {
    fn apply(&mut self, step: Step) {
        let writable = self.clocked && !self.in_reset;
        match step {
            Step::EnableClock => self.clocked = true,
            Step::AssertReset => {
                self.in_reset = true;
                self.control = CLEAR;
                self.select_output = false;
            }
            Step::ReleaseReset => self.in_reset = false,
            Step::Disable => {
                if writable {
                    self.control.spe = false;
                }
            }
            Step::DisableSelectOutput => {
                if writable {
                    self.select_output = false;
                }
            }
            Step::Configure(control) => {
                if writable {
                    self.control = control;
                }
            }
        }
    }

    fn run(mut self, steps: &[Step]) -> Bench {
        for step in steps {
            self.apply(*step);
        }
        self
    }
}

#[test]
fn construction_lays_out_the_six_accesses() {
    let clocks = Clocks { pclk: Hertz(48_000_000) };
    let (_spi, steps) = Spi::spi1(Spi1::new(1u8), port_a(), MODE_3, Hertz(1_000_000), clocks);
    let control = Control {
        cpha: true,
        cpol: true,
        mstr: true,
        br: 0b101,
        lsbfirst: false,
        ssm: true,
        ssi: true,
        rxonly: false,
        bidimode: false,
        spe: true,
    };
    assert_eq!(
        steps,
        [
            Step::EnableClock,
            Step::AssertReset,
            Step::ReleaseReset,
            Step::Disable,
            Step::DisableSelectOutput,
            Step::Configure(control),
        ]
    );
}

#[test]
fn construction_uses_the_divisor_of_the_ratio() {
    let cases: [(u32, u32, u8); 6] = [
        (8_000_000, 8_000_000, 0),
        (8_000_000, 2_000_000, 1),
        (48_000_000, 8_000_000, 2),
        (48_000_000, 3_000_000, 3),
        (48_000_000, 400_000, 6),
        (48_000_000, 100_000, 7),
    ];
    for (bus, rate, code) in cases {
        let clocks = Clocks { pclk: Hertz(bus) };
        let (_spi, steps) = Spi::spi1(Spi1::new(()), port_a(), MODE_0, Hertz(rate), clocks);
        match steps[5] {
            Step::Configure(control) => assert_eq!(control.br, code, "{} / {}", bus, rate),
            other => panic!("last step is {:?}", other),
        }
    }
}

#[test]
fn construction_twice_gives_the_same_hardware_state() {
    let clocks = Clocks { pclk: Hertz(48_000_000) };
    let (first, steps_1) = Spi::spi1(Spi1::new(1u8), port_a(), MODE_3, Hertz(2_000_000), clocks);
    let (handle, pins) = first.release();
    let (_second, steps_2) = Spi::spi1(handle, pins, MODE_3, Hertz(2_000_000), clocks);
    assert_eq!(steps_1, steps_2);

    let cold = Bench { clocked: false, in_reset: false, control: CLEAR, select_output: false };
    let after_first = cold.run(&steps_1);
    let after_second = after_first.run(&steps_2);
    assert_eq!(after_first, after_second);
    assert!(after_second.control.spe);
    assert_eq!(after_second.control.br, 4);
    assert!(after_second.control.cpha && after_second.control.cpol);
}

#[test]
fn construction_does_not_depend_on_the_state_before() {
    let clocks = Clocks { pclk: Hertz(8_000_000) };
    let (_spi, steps) = Spi::spi1(Spi1::new(1u8), port_b(), MODE_0, Hertz(1_000_000), clocks);
    let odd = Control {
        cpha: true,
        cpol: true,
        mstr: false,
        br: 7,
        lsbfirst: true,
        ssm: false,
        ssi: false,
        rxonly: true,
        bidimode: true,
        spe: true,
    };
    let mut seen: Vec<Bench> = Vec::new();
    for clocked in [false, true] {
        for in_reset in [false, true] {
            for control in [CLEAR, odd] {
                for select_output in [false, true] {
                    let before = Bench { clocked, in_reset, control, select_output };
                    seen.push(before.run(&steps));
                }
            }
        }
    }
    let expected = Bench {
        clocked: true,
        in_reset: false,
        control: Control {
            cpha: false,
            cpol: false,
            mstr: true,
            br: 2,
            lsbfirst: false,
            ssm: true,
            ssi: true,
            rxonly: false,
            bidimode: false,
            spe: true,
        },
        select_output: false,
    };
    for after in seen {
        assert_eq!(after, expected);
    }
}

#[test]
fn release_hands_back_what_was_bound() {
    let clocks = Clocks { pclk: Hertz(48_000_000) };
    let (spi, _steps) =
        Spi::spi1(Spi1::new(0xABCDu16), port_b(), MODE_0, Hertz(48_000_000), clocks);
    assert_eq!(*spi.peripheral().handle(), 0xABCD);
    let (handle, pins) = spi.release();
    assert_eq!(handle.free(), 0xABCD);
    let (_sck, _miso, _mosi): PortB = pins;
}

#[test]
fn both_pin_sets_are_bound_to_the_peripheral() {
    let clocks = Clocks { pclk: Hertz(8_000_000) };
    let (a, steps_a) = Spi::spi1(Spi1::new(0u8), port_a(), MODE_0, Hertz(1_000_000), clocks);
    let (b, steps_b) = Spi::spi1(Spi1::new(0u8), port_b(), MODE_0, Hertz(1_000_000), clocks);
    assert_eq!(steps_a, steps_b);
    let (_, _pins_a): (Spi1<u8>, PortA) = a.release();
    let (_, _pins_b): (Spi1<u8>, PortB) = b.release();
}

#[test]
fn read_reports_overrun_even_when_a_byte_waits() {
    let mut spi = driver();
    assert_eq!(
        spi.read(flags(true, false, false, true, true)),
        ReadStep::Fault(Error::Overrun)
    );
    assert_eq!(
        spi.read(flags(true, true, true, true, false)),
        ReadStep::Fault(Error::Overrun)
    );
}

#[test]
fn read_ranks_the_errors() {
    let mut spi = driver();
    assert_eq!(
        spi.read(flags(false, true, true, true, true)),
        ReadStep::Fault(Error::ModeFault)
    );
    assert_eq!(spi.read(flags(false, false, true, true, true)), ReadStep::Fault(Error::Crc));
    assert_eq!(spi.read(flags(true, false, true, false, false)), ReadStep::Fault(Error::Overrun));
}

#[test]
fn read_takes_a_waiting_byte() {
    let mut spi = driver();
    assert_eq!(spi.read(flags(false, false, false, true, false)), ReadStep::TakeData);
    assert_eq!(spi.read(flags(false, false, false, true, true)), ReadStep::TakeData);
}

#[test]
fn read_of_an_idle_bus_gives_a_zero_byte() {
    let mut spi = driver();
    assert_eq!(spi.read(flags(false, false, false, false, false)), ReadStep::Yield(0));
    assert_eq!(spi.read(flags(false, false, false, false, true)), ReadStep::Yield(0));
}

#[test]
fn read_agrees_with_the_decision_table_on_every_status() {
    let mut spi = driver();
    for bits in 0..32u8 {
        let status = flags(bits & 1 != 0, bits & 2 != 0, bits & 4 != 0, bits & 8 != 0, bits & 16 != 0);
        let expected = if status.ovr {
            ReadStep::Fault(Error::Overrun)
        } else if status.modf {
            ReadStep::Fault(Error::ModeFault)
        } else if status.crcerr {
            ReadStep::Fault(Error::Crc)
        } else if status.rxne {
            ReadStep::TakeData
        } else {
            ReadStep::Yield(0)
        };
        assert_eq!(spi.read(status), expected, "{:?}", status);
        assert_eq!(spi.read_with(status, IdleRead::ZeroByte), expected, "{:?}", status);
    }
}

#[test]
fn read_with_the_blocking_choice_differs_only_on_an_idle_bus() {
    let mut spi = driver();
    for bits in 0..32u8 {
        let status = flags(bits & 1 != 0, bits & 2 != 0, bits & 4 != 0, bits & 8 != 0, bits & 16 != 0);
        let zero = spi.read_with(status, IdleRead::ZeroByte);
        let block = spi.read_with(status, IdleRead::WouldBlock);
        if zero == ReadStep::Yield(0) {
            assert_eq!(block, ReadStep::WouldBlock);
        } else {
            assert_eq!(block, zero);
        }
    }
}

#[test]
fn send_would_block_exactly_when_the_buffer_is_full_and_no_error_is_flagged() {
    let mut spi = driver();
    for bits in 0..32u8 {
        let status = flags(bits & 1 != 0, bits & 2 != 0, bits & 4 != 0, bits & 8 != 0, bits & 16 != 0);
        let step = spi.send(status, 0x5A);
        let quiet = !status.ovr && !status.modf && !status.crcerr;
        assert_eq!(step == SendStep::WouldBlock, !status.txe && quiet, "{:?}", status);
    }
}

#[test]
fn send_writes_the_byte_when_the_buffer_is_free() {
    let mut spi = driver();
    assert_eq!(spi.send(flags(false, false, false, false, true), 0x5A), SendStep::PutData(0x5A));
    assert_eq!(spi.send(flags(false, false, false, true, true), 0x00), SendStep::PutData(0x00));
    assert_eq!(spi.send(flags(false, false, false, true, true), 0xFF), SendStep::PutData(0xFF));
}

#[test]
fn send_ranks_the_errors_before_the_buffer() {
    let mut spi = driver();
    assert_eq!(spi.send(flags(true, true, true, false, true), 1), SendStep::Fault(Error::Overrun));
    assert_eq!(
        spi.send(flags(false, true, true, false, true), 1),
        SendStep::Fault(Error::ModeFault)
    );
    assert_eq!(spi.send(flags(false, false, true, false, true), 1), SendStep::Fault(Error::Crc));
    assert_eq!(spi.send(flags(false, false, true, false, false), 1), SendStep::Fault(Error::Crc));
}

#[test]
fn the_reserved_error_is_never_reported() {
    let mut spi = driver();
    for bits in 0..32u8 {
        let status = flags(bits & 1 != 0, bits & 2 != 0, bits & 4 != 0, bits & 8 != 0, bits & 16 != 0);
        assert_ne!(spi.read(status), ReadStep::Fault(Error::_Extensible));
        assert_ne!(spi.send(status, 0), SendStep::Fault(Error::_Extensible));
    }
}

#[test]
fn the_peripheral_stays_disabled_until_the_last_access() {
    let clocks = Clocks { pclk: Hertz(48_000_000) };
    let (_spi, steps) = Spi::spi1(Spi1::new(1u8), port_a(), MODE_3, Hertz(1_000_000), clocks);
    let mut enabled = CLEAR;
    enabled.spe = true;
    for clocked in [false, true] {
        for in_reset in [false, true] {
            let before = Bench { clocked, in_reset, control: enabled, select_output: true };
            for done in 2..steps.len() {
                assert!(!before.run(&steps[..done]).control.spe, "after {} accesses", done);
            }
            assert!(before.run(&steps).control.spe);
        }
    }
}
