//! Model of one raw digital output line: the electrical level it is driven
//! to, whether its driver has failed, and the full history of driven levels.

use vstd::prelude::*;

verus! {

/// An electrical level on a digital line.
#[derive(Clone, Copy, PartialEq, Eq, Structural, Debug)]
pub enum Level {
    Low,
    High,
}

/// The one meaningful failure at this layer: a write to a line did not take
/// effect. It is never recovered from; the top-level driver aborts on it.
#[derive(Clone, Copy, PartialEq, Eq, Structural, Debug)]
pub struct HardwareSignalFault;

/// Mathematical state of one output line: the level currently driven, whether
/// the driver is faulted, and every level ever driven onto the line since it
/// was configured as an output.
#[verifier::ext_equal]
pub struct LineModel {
    pub level: Level,
    pub faulty: bool,
    pub trace: Seq<Level>,
}

/// One attempted write of `l` to a line in state `m`: on a healthy line the
/// level changes and the write is recorded; on a faulted line nothing happens.
pub open spec fn write_line(m: LineModel, l: Level) -> LineModel {
    if m.faulty {
        m
    } else {
        LineModel { level: l, faulty: false, trace: m.trace.push(l) }
    }
}

/// A pin that has not yet been configured as an output: its level is whatever
/// the hardware happens to rest at, and nothing is driven.
pub struct FloatingPin {
    level: Level,
    faulty: bool,
}

impl FloatingPin {
    pub closed spec fn spec_faulty(&self) -> bool {
        self.faulty
    }

    /// A healthy unconfigured pin resting at an arbitrary level.
    pub fn at_level(level: Level) -> (p: Self)
        ensures
            !p.spec_faulty(),
    {
        FloatingPin { level, faulty: false }
    }

    /// Simulate a broken line driver: every write after configuration fails.
    pub fn inject_fault(&mut self)
        ensures
            final(self).spec_faulty(),
    {
        self.faulty = true;
    }
}

/// A pin configured as a push-pull output. Holds the driven level and, as
/// ghost state, the complete history of levels driven onto the line.
pub struct OutputLine {
    level: Level,
    faulty: bool,
    trace: Ghost<Seq<Level>>,
}

impl View for OutputLine {
    type V = LineModel;

    closed spec fn view(&self) -> LineModel {
        LineModel { level: self.level, faulty: self.faulty, trace: self.trace@ }
    }
}

impl OutputLine {
    /// Configure a floating pin as a push-pull output driven to `initial`.
    /// The first level the line ever emits is `initial`, whatever level the
    /// pin rested at before.
    pub fn configure_push_pull(pin: FloatingPin, initial: Level) -> (line: Self)
        ensures
            line@.level == initial,
            line@.faulty == pin.spec_faulty(),
            line@.trace == seq![initial],
    {
        let ghost t: Seq<Level> = seq![initial];
        OutputLine { level: initial, faulty: pin.faulty, trace: Ghost(t) }
    }

    /// Drive the line to `l`. Fails exactly when the driver is faulted, and a
    /// failed write leaves the line untouched.
    pub fn set_level(&mut self, l: Level) -> (r: Result<(), HardwareSignalFault>)
        ensures
            final(self)@ == write_line(old(self)@, l),
            r.is_ok() <==> !old(self)@.faulty,
    {
        if self.faulty {
            Err(HardwareSignalFault)
        } else {
            self.level = l;
            self.trace = Ghost(self.trace@.push(l));
            Ok(())
        }
    }

    /// The level currently driven on the line.
    pub fn level(&self) -> (r: Level)
        ensures
            r == self@.level,
    {
        self.level
    }

    /// Simulate a line-driver failure from now on.
    pub fn inject_fault(&mut self)
        ensures
            final(self)@ == (LineModel { faulty: true, ..old(self)@ }),
    {
        self.faulty = true;
    }
}

} // verus!
