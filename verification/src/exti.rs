//! The external interrupt/event controller (EXTI): which of its lines are in use, and the
//! configuration that registering a line programs.

use crate::gpio::{PinNumber, pin_index};
use vstd::prelude::*;

verus! {

/// The GPIO ports.
#[derive(Debug, Clone, Copy, PartialEq, Eq, Structural)]
pub enum Port {
    /// Port A.
    PortA,
    /// Port B.
    PortB,
    /// Port C.
    PortC,
    /// Port D.
    PortD,
    /// Port E.
    PortE,
    /// Port F.
    PortF,
    /// Port G.
    PortG,
    /// Port H.
    PortH,
    /// Port I.
    PortI,
    /// Port J.
    PortJ,
    /// Port K.
    PortK,
}

/// The number that selects a port in the SYSCFG external interrupt configuration registers.
pub open spec fn port_code(port: Port) -> u8 {
    match port {
        Port::PortA => 0,
        Port::PortB => 1,
        Port::PortC => 2,
        Port::PortD => 3,
        Port::PortE => 4,
        Port::PortF => 5,
        Port::PortG => 6,
        Port::PortH => 7,
        Port::PortI => 8,
        Port::PortJ => 9,
        Port::PortK => 10,
    }
}

/// The sources of the EXTI lines.
#[derive(Debug, Clone, Copy, PartialEq, Eq, Structural)]
pub enum ExtiLine {
    /// A GPIO pin: line `n` serves pin `n` of one port.
    Gpio(Port, PinNumber),
    /// PVD output (line 16).
    PvdOutput,
    /// RTC alarm event (line 17).
    RtcAlarmEvent,
    /// USB OTG FS wakeup event (line 18).
    UsbOtgFsWakeupEvent,
    /// Ethernet wakeup event (line 19).
    EthernetWakeupEvent,
    /// USB OTG HS wakeup event (line 20).
    UsbOtgHsWakeupEvent,
    /// RTC tamper and time stamp events (line 21).
    RtcTamperAndTimeStampEvents,
    /// RTC wakeup event (line 22).
    RtcWakeupEvent,
    /// LPTIM1 asynchronous event (line 23), not supported by this driver.
    Lptim1AsynchronousEvent,
}

/// The number of the EXTI line of a source.
pub open spec fn line_number(line: ExtiLine) -> nat {
    match line {
        ExtiLine::Gpio(_, pin) => pin_index(pin),
        ExtiLine::PvdOutput => 16,
        ExtiLine::RtcAlarmEvent => 17,
        ExtiLine::UsbOtgFsWakeupEvent => 18,
        ExtiLine::EthernetWakeupEvent => 19,
        ExtiLine::UsbOtgHsWakeupEvent => 20,
        ExtiLine::RtcTamperAndTimeStampEvents => 21,
        ExtiLine::RtcWakeupEvent => 22,
        ExtiLine::Lptim1AsynchronousEvent => 23,
    }
}

/// The number of the EXTI line of a source.
pub fn line_number_of(line: ExtiLine) -> (r: usize)
    ensures
        r == line_number(line),
        r < 24,
{
    match line {
        ExtiLine::Gpio(_, pin) => pin.index(),
        ExtiLine::PvdOutput => 16,
        ExtiLine::RtcAlarmEvent => 17,
        ExtiLine::UsbOtgFsWakeupEvent => 18,
        ExtiLine::EthernetWakeupEvent => 19,
        ExtiLine::UsbOtgHsWakeupEvent => 20,
        ExtiLine::RtcTamperAndTimeStampEvents => 21,
        ExtiLine::RtcWakeupEvent => 22,
        ExtiLine::Lptim1AsynchronousEvent => 23,
    }
}

/// Which edges of the signal trigger the interrupt.
#[derive(Debug, Clone, Copy, PartialEq, Eq, Structural)]
pub enum EdgeDetection {
    /// The rising edge.
    RisingEdge,
    /// The falling edge.
    FallingEdge,
    /// Both edges.
    BothEdges,
}

/// The error when a line is registered that is already in use.
#[derive(Debug, Clone, Copy, PartialEq, Eq, Structural)]
pub struct LineAlreadyUsedError(pub ExtiLine);

/// The configuration that registering a line programs: the port that a GPIO line listens to
/// (in the SYSCFG configuration register of the line), the unmasked interrupt line, and the
/// rising and falling trigger selection.
#[derive(Debug, Clone, Copy, PartialEq, Eq, Structural)]
pub struct LineConfig {
    /// The line number.
    pub line: usize,
    /// The port code for a GPIO line.
    pub port: Option<u8>,
    /// Whether the rising edge triggers.
    pub rising: bool,
    /// Whether the falling edge triggers.
    pub falling: bool,
}

/// A registered line.
pub struct ExtiHandle {
    exti_line: ExtiLine,
}

impl ExtiHandle {
    /// The registered line.
    pub closed spec fn spec_line(&self) -> ExtiLine {
        self.exti_line
    }

    /// The value to write into the pending register to clear the pending state of the line:
    /// only the line's bit is set.
    pub fn clear_pending_state(&self) -> (r: u32)
        requires
            self.spec_line() != ExtiLine::Lptim1AsynchronousEvent,
        ensures
            r == 1u32 << (line_number(self.spec_line()) as u32),
    {
        let n = line_number_of(self.exti_line) as u32;
        1u32 << n
    }
}

/// The EXTI controller: which of its 24 lines are in use.
pub struct Exti {
    lines_used: [bool; 24],
}

impl Exti {
    /// Which lines are in use, by line number.
    pub closed spec fn used(&self) -> Seq<bool> {
        self.lines_used@
    }

    /// The table has one entry per line.
    pub proof fn lemma_used_len(&self)
        ensures
            self.used().len() == 24,
    {
    }

    /// A controller with no line in use.
    pub fn new() -> (r: Exti)
        ensures
            r.used() == Seq::new(24, |i: int| false),
    {
        let r = Exti { lines_used: [false; 24] };
        assert(r.used() =~= Seq::new(24, |i: int| false));
        r
    }

    /// Registers a line with the given edge detection.
    ///
    /// Fails with the line if it is already in use. Otherwise marks it as used and returns
    /// its handle and the configuration to program: the line unmasked, triggering on the
    /// selected edges, and for a GPIO line the pin's port selected.
    pub fn register(&mut self, exti_line: ExtiLine, edge_detection: EdgeDetection) -> (r: Result<
        (ExtiHandle, LineConfig),
        LineAlreadyUsedError,
    >)
        requires
            exti_line != ExtiLine::Lptim1AsynchronousEvent,
        ensures
            final(self).used().len() == 24,
            old(self).used()[line_number(exti_line) as int] ==> r == Err::<
                (ExtiHandle, LineConfig),
                LineAlreadyUsedError,
            >(LineAlreadyUsedError(exti_line)) && final(self).used() == old(self).used(),
            !old(self).used()[line_number(exti_line) as int] ==> (r matches Ok((h, cfg)) && {
                &&& h.spec_line() == exti_line
                &&& final(self).used() == old(self).used().update(
                    line_number(exti_line) as int,
                    true,
                )
                &&& cfg.line == line_number(exti_line)
                &&& cfg.port == match exti_line {
                    ExtiLine::Gpio(port, _) => Some(port_code(port)),
                    _ => None::<u8>,
                }
                &&& cfg.rising == (edge_detection != EdgeDetection::FallingEdge)
                &&& cfg.falling == (edge_detection != EdgeDetection::RisingEdge)
            }),
    {
        let n = line_number_of(exti_line);
        if self.lines_used[n] {
            return Err(LineAlreadyUsedError(exti_line));
        }
        self.lines_used[n] = true;

        let port = match exti_line {
            ExtiLine::Gpio(port, _) => Some(
                match port {
                    Port::PortA => 0u8,
                    Port::PortB => 1,
                    Port::PortC => 2,
                    Port::PortD => 3,
                    Port::PortE => 4,
                    Port::PortF => 5,
                    Port::PortG => 6,
                    Port::PortH => 7,
                    Port::PortI => 8,
                    Port::PortJ => 9,
                    Port::PortK => 10,
                },
            ),
            _ => None,
        };
        let (rising, falling) = match edge_detection {
            EdgeDetection::RisingEdge => (true, false),
            EdgeDetection::FallingEdge => (false, true),
            EdgeDetection::BothEdges => (true, true),
        };
        Ok((ExtiHandle { exti_line }, LineConfig { line: n, port, rising, falling }))
    }

    /// Unregisters a line: marks it as free and returns its number, whose interrupt is to
    /// be masked.
    pub fn unregister(&mut self, exti_handle: ExtiHandle) -> (r: usize)
        requires
            exti_handle.spec_line() != ExtiLine::Lptim1AsynchronousEvent,
        ensures
            r == line_number(exti_handle.spec_line()),
            final(self).used().len() == 24,
            final(self).used() == old(self).used().update(r as int, false),
    {
        let n = line_number_of(exti_handle.exti_line);
        self.lines_used[n] = false;
        n
    }
}

/// Registering a free line and unregistering its handle leaves the table of used lines as it
/// was; registering a line that is in use fails.
pub proof fn lemma_register_unregister(used: Seq<bool>, line: ExtiLine)
    requires
        used.len() == 24,
        line != ExtiLine::Lptim1AsynchronousEvent,
        !used[line_number(line) as int],
    ensures
        used.update(line_number(line) as int, true).update(line_number(line) as int, false)
            == used,
        used.update(line_number(line) as int, true)[line_number(line) as int],
{
    assert(used.update(line_number(line) as int, true).update(line_number(line) as int, false)
        =~= used);
}

} // verus!
