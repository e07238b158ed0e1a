//! The tri-color indicator: three polarity-abstracted signals composed so
//! that at most one channel is ever lit, with the off-before-on call ordering
//! that keeps two channels from being lit even for an instant.

use vstd::prelude::*;

use crate::line::HardwareSignalFault;
use crate::line::LineModel;
use crate::signal::OutputSignal;
use crate::signal::Polarity;
use crate::signal::sig_lit;
use crate::signal::signal_step;

verus! {

/// One operation of the tri-color indicator.
#[derive(Clone, Copy, PartialEq, Eq, Structural, Debug)]
pub enum RgbCmd {
    Off,
    Red,
    Green,
    Blue,
}

/// Mathematical state of the indicator: polarity and line state of each of
/// the three channels.
#[verifier::ext_equal]
pub struct RgbModel {
    pub red_pol: Polarity,
    pub green_pol: Polarity,
    pub blue_pol: Polarity,
    pub red: LineModel,
    pub green: LineModel,
    pub blue: LineModel,
}

/// All three line drivers are working.
pub open spec fn rgb_healthy(m: RgbModel) -> bool {
    &&& !m.red.faulty
    &&& !m.green.faulty
    &&& !m.blue.faulty
}

pub open spec fn red_lit(m: RgbModel) -> bool {
    sig_lit(m.red_pol, m.red)
}

pub open spec fn green_lit(m: RgbModel) -> bool {
    sig_lit(m.green_pol, m.green)
}

pub open spec fn blue_lit(m: RgbModel) -> bool {
    sig_lit(m.blue_pol, m.blue)
}

/// The indicator's invariant: no two channels are lit at once.
pub open spec fn at_most_one_lit(m: RgbModel) -> bool {
    &&& !(red_lit(m) && green_lit(m))
    &&& !(red_lit(m) && blue_lit(m))
    &&& !(green_lit(m) && blue_lit(m))
}

/// The state after the first of the three line writes of `cmd`: an off-write
/// (red for `Off`, `Green` and `Blue`; green for `Red`).
pub open spec fn first_write(m: RgbModel, cmd: RgbCmd) -> RgbModel {
    match cmd {
        RgbCmd::Off => RgbModel { red: signal_step(m.red_pol, m.red, false), ..m },
        RgbCmd::Red => RgbModel { green: signal_step(m.green_pol, m.green, false), ..m },
        RgbCmd::Green => RgbModel { red: signal_step(m.red_pol, m.red, false), ..m },
        RgbCmd::Blue => RgbModel { red: signal_step(m.red_pol, m.red, false), ..m },
    }
}

/// The line the first write of `cmd` drives.
pub open spec fn first_line_faulty(m: RgbModel, cmd: RgbCmd) -> bool {
    match cmd {
        RgbCmd::Off => m.red.faulty,
        RgbCmd::Red => m.green.faulty,
        RgbCmd::Green => m.red.faulty,
        RgbCmd::Blue => m.red.faulty,
    }
}

/// The state after the second line write of `cmd`: again an off-write.
pub open spec fn second_write(m: RgbModel, cmd: RgbCmd) -> RgbModel {
    let m1 = first_write(m, cmd);
    match cmd {
        RgbCmd::Off => RgbModel { green: signal_step(m1.green_pol, m1.green, false), ..m1 },
        RgbCmd::Red => RgbModel { blue: signal_step(m1.blue_pol, m1.blue, false), ..m1 },
        RgbCmd::Green => RgbModel { blue: signal_step(m1.blue_pol, m1.blue, false), ..m1 },
        RgbCmd::Blue => RgbModel { green: signal_step(m1.green_pol, m1.green, false), ..m1 },
    }
}

/// The line the second write of `cmd` drives.
pub open spec fn second_line_faulty(m: RgbModel, cmd: RgbCmd) -> bool {
    match cmd {
        RgbCmd::Off => m.green.faulty,
        RgbCmd::Red => m.blue.faulty,
        RgbCmd::Green => m.blue.faulty,
        RgbCmd::Blue => m.green.faulty,
    }
}

/// The state after the last line write of `cmd`: the off-write of the third
/// channel for `Off`, and only here, after both others are off, the on-write
/// of the named channel for a color.
pub open spec fn third_write(m: RgbModel, cmd: RgbCmd) -> RgbModel {
    let m2 = second_write(m, cmd);
    match cmd {
        RgbCmd::Off => RgbModel { blue: signal_step(m2.blue_pol, m2.blue, false), ..m2 },
        RgbCmd::Red => RgbModel { red: signal_step(m2.red_pol, m2.red, true), ..m2 },
        RgbCmd::Green => RgbModel { green: signal_step(m2.green_pol, m2.green, true), ..m2 },
        RgbCmd::Blue => RgbModel { blue: signal_step(m2.blue_pol, m2.blue, true), ..m2 },
    }
}

/// One indicator operation carried out on the three channel lines, in the
/// order the executable code writes them, stopping at the first failed write.
pub open spec fn rgb_apply(m: RgbModel, cmd: RgbCmd) -> RgbModel {
    if first_line_faulty(m, cmd) {
        first_write(m, cmd)
    } else if second_line_faulty(m, cmd) {
        second_write(m, cmd)
    } else {
        third_write(m, cmd)
    }
}

/// A tri-color LED built from three independently owned signals.
pub struct RGBLed<R: OutputSignal, G: OutputSignal, B: OutputSignal> {
    red: R,
    green: G,
    blue: B,
}

impl<R: OutputSignal, G: OutputSignal, B: OutputSignal> View for RGBLed<R, G, B> {
    type V = RgbModel;

    closed spec fn view(&self) -> RgbModel {
        RgbModel {
            red_pol: self.red.polarity(),
            green_pol: self.green.polarity(),
            blue_pol: self.blue.polarity(),
            red: self.red.line(),
            green: self.green.line(),
            blue: self.blue.line(),
        }
    }
}

impl<R: OutputSignal, G: OutputSignal, B: OutputSignal> RGBLed<R, G, B> {
    /// Take exclusive ownership of the three channel signals.
    pub fn new(red: R, green: G, blue: B) -> (led: Self)
        ensures
            led@.red_pol == red.polarity(),
            led@.green_pol == green.polarity(),
            led@.blue_pol == blue.polarity(),
            led@.red == red.line(),
            led@.green == green.line(),
            led@.blue == blue.line(),
    {
        RGBLed { red, green, blue }
    }

    /// Carry out one indicator operation. Fails exactly when some channel's
    /// line driver is faulted, and the first failed write stops the
    /// operation.
    pub fn apply(&mut self, cmd: RgbCmd) -> (r: Result<(), HardwareSignalFault>)
        ensures
            final(self)@ == rgb_apply(old(self)@, cmd),
            r.is_ok() <==> rgb_healthy(old(self)@),
    {
        match cmd {
            RgbCmd::Off => self.off(),
            RgbCmd::Red => self.red(),
            RgbCmd::Green => self.green(),
            RgbCmd::Blue => self.blue(),
        }
    }

    /// Turn all three channels off.
    pub fn off(&mut self) -> (r: Result<(), HardwareSignalFault>)
        ensures
            final(self)@ == rgb_apply(old(self)@, RgbCmd::Off),
            r.is_ok() <==> rgb_healthy(old(self)@),
            r.is_ok() ==> !red_lit(final(self)@) && !green_lit(final(self)@) && !blue_lit(
                final(self)@,
            ),
            at_most_one_lit(old(self)@) ==> at_most_one_lit(final(self)@),
    {
        match self.red.off() {
            Ok(()) => {},
            Err(e) => {
                return Err(e);
            },
        }
        match self.green.off() {
            Ok(()) => {},
            Err(e) => {
                return Err(e);
            },
        }
        match self.blue.off() {
            Ok(()) => {},
            Err(e) => {
                return Err(e);
            },
        }
        Ok(())
    }

    /// Show red: the other two channels are turned off before red is turned
    /// on, so no transition passes through a state with two channels lit.
    pub fn red(&mut self) -> (r: Result<(), HardwareSignalFault>)
        ensures
            final(self)@ == rgb_apply(old(self)@, RgbCmd::Red),
            r.is_ok() <==> rgb_healthy(old(self)@),
            r.is_ok() ==> red_lit(final(self)@) && !green_lit(final(self)@) && !blue_lit(
                final(self)@,
            ),
            at_most_one_lit(old(self)@) ==> at_most_one_lit(final(self)@),
    {
        match self.green.off() {
            Ok(()) => {},
            Err(e) => {
                return Err(e);
            },
        }
        match self.blue.off() {
            Ok(()) => {},
            Err(e) => {
                return Err(e);
            },
        }
        match self.red.on() {
            Ok(()) => {},
            Err(e) => {
                return Err(e);
            },
        }
        Ok(())
    }

    /// Show green: red and blue are turned off before green is turned on.
    pub fn green(&mut self) -> (r: Result<(), HardwareSignalFault>)
        ensures
            final(self)@ == rgb_apply(old(self)@, RgbCmd::Green),
            r.is_ok() <==> rgb_healthy(old(self)@),
            r.is_ok() ==> !red_lit(final(self)@) && green_lit(final(self)@) && !blue_lit(
                final(self)@,
            ),
            at_most_one_lit(old(self)@) ==> at_most_one_lit(final(self)@),
    {
        match self.red.off() {
            Ok(()) => {},
            Err(e) => {
                return Err(e);
            },
        }
        match self.blue.off() {
            Ok(()) => {},
            Err(e) => {
                return Err(e);
            },
        }
        match self.green.on() {
            Ok(()) => {},
            Err(e) => {
                return Err(e);
            },
        }
        Ok(())
    }

    /// Show blue: red and green are turned off before blue is turned on.
    pub fn blue(&mut self) -> (r: Result<(), HardwareSignalFault>)
        ensures
            final(self)@ == rgb_apply(old(self)@, RgbCmd::Blue),
            r.is_ok() <==> rgb_healthy(old(self)@),
            r.is_ok() ==> !red_lit(final(self)@) && !green_lit(final(self)@) && blue_lit(
                final(self)@,
            ),
            at_most_one_lit(old(self)@) ==> at_most_one_lit(final(self)@),
    {
        match self.red.off() {
            Ok(()) => {},
            Err(e) => {
                return Err(e);
            },
        }
        match self.green.off() {
            Ok(()) => {},
            Err(e) => {
                return Err(e);
            },
        }
        match self.blue.on() {
            Ok(()) => {},
            Err(e) => {
                return Err(e);
            },
        }
        Ok(())
    }

    /// Whether the red channel currently reads as on.
    pub fn red_is_on(&self) -> (r: bool)
        ensures
            r == red_lit(self@),
    {
        self.red.is_on()
    }

    /// Whether the green channel currently reads as on.
    pub fn green_is_on(&self) -> (r: bool)
        ensures
            r == green_lit(self@),
    {
        self.green.is_on()
    }

    /// Whether the blue channel currently reads as on.
    pub fn blue_is_on(&self) -> (r: bool)
        ensures
            r == blue_lit(self@),
    {
        self.blue.is_on()
    }
}

/// Law: every indicator operation preserves the invariant that at most one
/// channel is lit, whether or not the operation completes.
pub proof fn lemma_at_most_one_lit_preserved(m: RgbModel, cmd: RgbCmd)
    requires
        at_most_one_lit(m),
    ensures
        at_most_one_lit(rgb_apply(m, cmd)),
{
}

/// Law: on a healthy indicator the off-before-on call ordering means that no
/// instant inside an operation ever shows two channels lit: after each of
/// the three line writes, not only after the whole operation, at most one
/// channel is lit.
pub proof fn lemma_no_transient_double_lit(m: RgbModel, cmd: RgbCmd)
    requires
        at_most_one_lit(m),
        rgb_healthy(m),
    ensures
        at_most_one_lit(first_write(m, cmd)),
        at_most_one_lit(second_write(m, cmd)),
        at_most_one_lit(third_write(m, cmd)),
{
}

/// Law: on a healthy indicator, `off` followed by any color operation lights
/// exactly that color, whatever the state was before either call; the result
/// reads the same as issuing the color operation directly.
pub proof fn lemma_off_then_color_converges(m: RgbModel, cmd: RgbCmd)
    requires
        rgb_healthy(m),
        cmd != RgbCmd::Off,
    ensures
        ({
            let n = rgb_apply(rgb_apply(m, RgbCmd::Off), cmd);
            &&& red_lit(n) == (cmd == RgbCmd::Red)
            &&& green_lit(n) == (cmd == RgbCmd::Green)
            &&& blue_lit(n) == (cmd == RgbCmd::Blue)
            &&& red_lit(n) == red_lit(rgb_apply(m, cmd))
            &&& green_lit(n) == green_lit(rgb_apply(m, cmd))
            &&& blue_lit(n) == blue_lit(rgb_apply(m, cmd))
        }),
{
}

} // verus!
