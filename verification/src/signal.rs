//! On/off signals decoupled from electrical polarity: the `OutputSignal`
//! capability and its two implementations, one for active-low and one for
//! active-high lines.

use vstd::prelude::*;

use crate::line::FloatingPin;
use crate::line::HardwareSignalFault;
use crate::line::Level;
use crate::line::LineModel;
use crate::line::OutputLine;
use crate::line::write_line;

verus! {

/// Which electrical level means "on" for a signal.
#[derive(Clone, Copy, PartialEq, Eq, Structural, Debug)]
pub enum Polarity {
    ActiveLow,
    ActiveHigh,
}

/// The polarity table: the electrical level a signal of polarity `p` drives
/// for the logical command `on`.
pub open spec fn level_for(p: Polarity, on: bool) -> Level {
    match p {
        Polarity::ActiveLow => if on {
            Level::Low
        } else {
            Level::High
        },
        Polarity::ActiveHigh => if on {
            Level::High
        } else {
            Level::Low
        },
    }
}

/// One logical on/off command carried out on a line of polarity `p`.
pub open spec fn signal_step(p: Polarity, m: LineModel, on: bool) -> LineModel {
    write_line(m, level_for(p, on))
}

/// A whole sequence of on/off commands carried out in order on a line of
/// polarity `p`.
pub open spec fn signal_run(p: Polarity, m: LineModel, cmds: Seq<bool>) -> LineModel
    decreases cmds.len(),
{
    if cmds.len() == 0 {
        m
    } else {
        signal_step(p, signal_run(p, m, cmds.drop_last()), cmds.last())
    }
}

/// Whether the line level of `m` reads as "on" under polarity `p`.
pub open spec fn sig_lit(p: Polarity, m: LineModel) -> bool {
    m.level == level_for(p, true)
}

/// The levels the polarity table assigns to a sequence of on/off commands.
pub open spec fn table_trace(p: Polarity, cmds: Seq<bool>) -> Seq<Level> {
    cmds.map_values(|c: bool| level_for(p, c))
}

/// Law: however many on/off commands run on a healthy line, every emitted
/// electrical level is exactly the polarity table's level for its command.
pub proof fn lemma_signal_run_emits_table(p: Polarity, m: LineModel, cmds: Seq<bool>)
    requires
        !m.faulty,
    ensures
        !signal_run(p, m, cmds).faulty,
        signal_run(p, m, cmds).trace == m.trace + table_trace(p, cmds),
    decreases cmds.len(),
{
    if cmds.len() == 0 {
        assert(signal_run(p, m, cmds).trace =~= m.trace + table_trace(p, cmds));
    } else {
        lemma_signal_run_emits_table(p, m, cmds.drop_last());
        assert(table_trace(p, cmds.drop_last()) =~= table_trace(p, cmds).drop_last());
        assert(signal_run(p, m, cmds).trace =~= m.trace + table_trace(p, cmds));
    }
}

/// A two-state output capability: callers command "on" or "off" and never
/// reason about the electrical polarity underneath.
pub trait OutputSignal: Sized {
    /// The polarity of the line this signal drives.
    spec fn polarity(&self) -> Polarity;

    /// The state of the line this signal drives.
    spec fn line(&self) -> LineModel;

    /// Turn the signal on. Fails exactly when the line driver is faulted, and
    /// then leaves the line untouched.
    fn on(&mut self) -> (r: Result<(), HardwareSignalFault>)
        ensures
            final(self).polarity() == old(self).polarity(),
            final(self).line() == signal_step(old(self).polarity(), old(self).line(), true),
            r.is_ok() <==> !old(self).line().faulty,
    ;

    /// Turn the signal off. Fails exactly when the line driver is faulted,
    /// and then leaves the line untouched.
    fn off(&mut self) -> (r: Result<(), HardwareSignalFault>)
        ensures
            final(self).polarity() == old(self).polarity(),
            final(self).line() == signal_step(old(self).polarity(), old(self).line(), false),
            r.is_ok() <==> !old(self).line().faulty,
    ;

    /// Whether the signal currently reads as on.
    fn is_on(&self) -> (r: bool)
        ensures
            r == sig_lit(self.polarity(), self.line()),
    ;
}

/// A signal that is on when its line is at a logic low.
pub struct GpioOutputSignalActiveLow {
    pin: OutputLine,
}

impl GpioOutputSignalActiveLow {
    /// Configure `pin` as a push-pull output and drive it straight to the
    /// "off" level (high), so the signal never glows during initialization,
    /// whatever level the pin rested at.
    pub fn new(pin: FloatingPin) -> (s: Self)
        ensures
            s.polarity() == Polarity::ActiveLow,
            s.line().faulty == pin.spec_faulty(),
            s.line().trace == seq![level_for(Polarity::ActiveLow, false)],
            !sig_lit(s.polarity(), s.line()),
    {
        GpioOutputSignalActiveLow { pin: OutputLine::configure_push_pull(pin, Level::High) }
    }

    /// Simulate a line-driver failure from now on.
    pub fn inject_fault(&mut self)
        ensures
            final(self).polarity() == old(self).polarity(),
            final(self).line() == (LineModel { faulty: true, ..old(self).line() }),
    {
        self.pin.inject_fault();
    }

    /// The electrical level currently driven on the owned line.
    pub fn line_level(&self) -> (r: Level)
        ensures
            r == self.line().level,
    {
        self.pin.level()
    }
}

impl OutputSignal for GpioOutputSignalActiveLow {
    closed spec fn polarity(&self) -> Polarity {
        Polarity::ActiveLow
    }

    closed spec fn line(&self) -> LineModel {
        self.pin@
    }

    /// On means driving the line low.
    fn on(&mut self) -> (r: Result<(), HardwareSignalFault>) {
        self.pin.set_level(Level::Low)
    }

    /// Off means driving the line high.
    fn off(&mut self) -> (r: Result<(), HardwareSignalFault>) {
        self.pin.set_level(Level::High)
    }

    fn is_on(&self) -> (r: bool) {
        match self.pin.level() {
            Level::Low => true,
            Level::High => false,
        }
    }
}

/// A signal that is on when its line is at a logic high.
pub struct GpioOutputSignalActiveHigh {
    pin: OutputLine,
}

impl GpioOutputSignalActiveHigh {
    /// Configure `pin` as a push-pull output and drive it straight to the
    /// "off" level (low), so the signal never glows during initialization,
    /// whatever level the pin rested at.
    pub fn new(pin: FloatingPin) -> (s: Self)
        ensures
            s.polarity() == Polarity::ActiveHigh,
            s.line().faulty == pin.spec_faulty(),
            s.line().trace == seq![level_for(Polarity::ActiveHigh, false)],
            !sig_lit(s.polarity(), s.line()),
    {
        GpioOutputSignalActiveHigh { pin: OutputLine::configure_push_pull(pin, Level::Low) }
    }

    /// Simulate a line-driver failure from now on.
    pub fn inject_fault(&mut self)
        ensures
            final(self).polarity() == old(self).polarity(),
            final(self).line() == (LineModel { faulty: true, ..old(self).line() }),
    {
        self.pin.inject_fault();
    }

    /// The electrical level currently driven on the owned line.
    pub fn line_level(&self) -> (r: Level)
        ensures
            r == self.line().level,
    {
        self.pin.level()
    }
}

impl OutputSignal for GpioOutputSignalActiveHigh {
    closed spec fn polarity(&self) -> Polarity {
        Polarity::ActiveHigh
    }

    closed spec fn line(&self) -> LineModel {
        self.pin@
    }

    /// On means driving the line high.
    fn on(&mut self) -> (r: Result<(), HardwareSignalFault>) {
        self.pin.set_level(Level::High)
    }

    /// Off means driving the line low.
    fn off(&mut self) -> (r: Result<(), HardwareSignalFault>) {
        self.pin.set_level(Level::Low)
    }

    fn is_on(&self) -> (r: bool) {
        match self.pin.level() {
            Level::Low => false,
            Level::High => true,
        }
    }
}

} // verus!
