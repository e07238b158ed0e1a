//! The fixed timed control cycle: a closed twelve-state schedule that pulses
//! the main indicator twice, cycles the tri-color indicator through red,
//! green and blue, and ends by requesting a temperature sample, each state
//! followed by a fixed blocking delay.

use vstd::prelude::*;

use crate::line::HardwareSignalFault;
use crate::line::LineModel;
use crate::rgb::RGBLed;
use crate::rgb::RgbCmd;
use crate::rgb::RgbModel;
use crate::rgb::rgb_apply;
use crate::rgb::rgb_healthy;
use crate::signal::OutputSignal;
use crate::signal::Polarity;
use crate::signal::signal_step;

verus! {

/// The states of one full cycle, in schedule order.
#[derive(Clone, Copy, PartialEq, Eq, Structural, Debug)]
pub enum SeqState {
    Settle,
    Pulse1On,
    Pulse1Off,
    Pulse2On,
    Pulse2Off,
    RedOn,
    RedOff,
    GreenOn,
    GreenOff,
    BlueOn,
    BlueOff,
    Sample,
}

/// What a state commands before its delay runs.
#[derive(Clone, Copy, PartialEq, Eq, Structural, Debug)]
pub enum SeqAction {
    /// Nothing: the state only waits.
    Wait,
    /// Turn the main indicator on.
    MainOn,
    /// Turn the main indicator off.
    MainOff,
    /// Drive the tri-color indicator.
    Rgb(RgbCmd),
    /// Request one temperature sample.
    SampleTemp,
}

/// The schedule's action for each state.
pub open spec fn action_of(s: SeqState) -> SeqAction {
    match s {
        SeqState::Settle => SeqAction::Wait,
        SeqState::Pulse1On => SeqAction::MainOn,
        SeqState::Pulse1Off => SeqAction::MainOff,
        SeqState::Pulse2On => SeqAction::MainOn,
        SeqState::Pulse2Off => SeqAction::MainOff,
        SeqState::RedOn => SeqAction::Rgb(RgbCmd::Red),
        SeqState::RedOff => SeqAction::Rgb(RgbCmd::Off),
        SeqState::GreenOn => SeqAction::Rgb(RgbCmd::Green),
        SeqState::GreenOff => SeqAction::Rgb(RgbCmd::Off),
        SeqState::BlueOn => SeqAction::Rgb(RgbCmd::Blue),
        SeqState::BlueOff => SeqAction::Rgb(RgbCmd::Off),
        SeqState::Sample => SeqAction::SampleTemp,
    }
}

/// The schedule's delay, in milliseconds, after each state's action.
pub open spec fn delay_of(s: SeqState) -> u32 {
    match s {
        SeqState::Settle => 1000,
        SeqState::Pulse1On => 100,
        SeqState::Pulse1Off => 100,
        SeqState::Pulse2On => 100,
        SeqState::Pulse2Off => 700,
        SeqState::RedOn => 100,
        SeqState::RedOff => 100,
        SeqState::GreenOn => 100,
        SeqState::GreenOff => 100,
        SeqState::BlueOn => 100,
        SeqState::BlueOff => 100,
        SeqState::Sample => 500,
    }
}

/// The state that follows `s`: the cycle is closed, and after the sample the
/// schedule returns to the first pulse, never to the one-time settle.
pub open spec fn next_of(s: SeqState) -> SeqState {
    match s {
        SeqState::Settle => SeqState::Pulse1On,
        SeqState::Pulse1On => SeqState::Pulse1Off,
        SeqState::Pulse1Off => SeqState::Pulse2On,
        SeqState::Pulse2On => SeqState::Pulse2Off,
        SeqState::Pulse2Off => SeqState::RedOn,
        SeqState::RedOn => SeqState::RedOff,
        SeqState::RedOff => SeqState::GreenOn,
        SeqState::GreenOn => SeqState::GreenOff,
        SeqState::GreenOff => SeqState::BlueOn,
        SeqState::BlueOn => SeqState::BlueOff,
        SeqState::BlueOff => SeqState::Sample,
        SeqState::Sample => SeqState::Pulse1On,
    }
}

/// The schedule in order, by position in the cycle.
pub open spec fn state_at(i: int) -> SeqState {
    if i == 0 {
        SeqState::Settle
    } else if i == 1 {
        SeqState::Pulse1On
    } else if i == 2 {
        SeqState::Pulse1Off
    } else if i == 3 {
        SeqState::Pulse2On
    } else if i == 4 {
        SeqState::Pulse2Off
    } else if i == 5 {
        SeqState::RedOn
    } else if i == 6 {
        SeqState::RedOff
    } else if i == 7 {
        SeqState::GreenOn
    } else if i == 8 {
        SeqState::GreenOff
    } else if i == 9 {
        SeqState::BlueOn
    } else if i == 10 {
        SeqState::BlueOff
    } else {
        SeqState::Sample
    }
}

/// The literal delay sequence of one full cycle run from the settle state.
pub open spec fn cycle_delays() -> Seq<u32> {
    seq![1000u32, 100u32, 100u32, 100u32, 700u32, 100u32, 100u32, 100u32, 100u32, 100u32, 100u32, 500u32]
}

/// Everything one cycle touches: the main indicator's line, the tri-color
/// indicator, the delays handed to the delay capability, and how many
/// temperature samples were requested.
#[verifier::ext_equal]
pub struct CycleModel {
    pub main_pol: Polarity,
    pub main: LineModel,
    pub rgb: RgbModel,
    pub delays: Seq<u32>,
    pub samples: nat,
}

/// The effect of one state's action on the cycle model.
pub open spec fn apply_action(m: CycleModel, s: SeqState) -> CycleModel {
    match action_of(s) {
        SeqAction::Wait => m,
        SeqAction::MainOn => CycleModel { main: signal_step(m.main_pol, m.main, true), ..m },
        SeqAction::MainOff => CycleModel { main: signal_step(m.main_pol, m.main, false), ..m },
        SeqAction::Rgb(cmd) => CycleModel { rgb: rgb_apply(m.rgb, cmd), ..m },
        SeqAction::SampleTemp => CycleModel { samples: m.samples + 1, ..m },
    }
}

/// Whether the action of state `s` succeeds on model `m`.
pub open spec fn action_ok(m: CycleModel, s: SeqState) -> bool {
    match action_of(s) {
        SeqAction::Wait => true,
        SeqAction::MainOn => !m.main.faulty,
        SeqAction::MainOff => !m.main.faulty,
        SeqAction::Rgb(cmd) => rgb_healthy(m.rgb),
        SeqAction::SampleTemp => true,
    }
}

/// One successful state: its action, then its delay handed to the delay
/// capability.
pub open spec fn step_state(m: CycleModel, s: SeqState) -> CycleModel {
    let m1 = apply_action(m, s);
    CycleModel { delays: m1.delays.push(delay_of(s)), ..m1 }
}

/// Run the cycle from position `i` to its end. A failed state keeps its
/// partial writes, gets no delay, and stops the run: no later state is
/// entered.
pub open spec fn run_from(m: CycleModel, i: int) -> (CycleModel, bool)
    decreases 12 - i when i <= 12
{
    if i < 0 || i >= 12 {
        (m, true)
    } else if action_ok(m, state_at(i)) {
        run_from(step_state(m, state_at(i)), i + 1)
    } else {
        (apply_action(m, state_at(i)), false)
    }
}

/// The whole cycle, from the settle state.
pub open spec fn run_cycle_spec(m: CycleModel) -> (CycleModel, bool) {
    run_from(m, 0)
}

/// The cycle's health condition: every line the schedule writes is working.
pub open spec fn cycle_healthy(m: CycleModel) -> bool {
    &&& !m.main.faulty
    &&& rgb_healthy(m.rgb)
}

/// The fixed-cycle driver's position in the schedule.
pub struct Sequencer {
    state: SeqState,
}

impl View for Sequencer {
    type V = SeqState;

    closed spec fn view(&self) -> SeqState {
        self.state
    }
}

impl Sequencer {
    /// A sequencer at the start of its first cycle: the settle state.
    pub fn new() -> (s: Self)
        ensures
            s@ == SeqState::Settle,
    {
        Sequencer { state: SeqState::Settle }
    }

    /// The state the sequencer is in.
    pub fn current_state(&self) -> (s: SeqState)
        ensures
            s == self@,
    {
        self.state
    }

    /// Hand out the current state's action and delay and move to the next
    /// state. A driver performs the action, then blocks for the delay.
    pub fn step(&mut self) -> (r: (SeqAction, u32))
        ensures
            r.0 == action_of(old(self)@),
            r.1 == delay_of(old(self)@),
            final(self)@ == next_of(old(self)@),
    {
        let s = self.state;
        self.state = next_state(s);
        (action_at(s), delay_at(s))
    }
}

/// The schedule's action for a state.
pub fn action_at(s: SeqState) -> (a: SeqAction)
    ensures
        a == action_of(s),
{
    match s {
        SeqState::Settle => SeqAction::Wait,
        SeqState::Pulse1On => SeqAction::MainOn,
        SeqState::Pulse1Off => SeqAction::MainOff,
        SeqState::Pulse2On => SeqAction::MainOn,
        SeqState::Pulse2Off => SeqAction::MainOff,
        SeqState::RedOn => SeqAction::Rgb(RgbCmd::Red),
        SeqState::RedOff => SeqAction::Rgb(RgbCmd::Off),
        SeqState::GreenOn => SeqAction::Rgb(RgbCmd::Green),
        SeqState::GreenOff => SeqAction::Rgb(RgbCmd::Off),
        SeqState::BlueOn => SeqAction::Rgb(RgbCmd::Blue),
        SeqState::BlueOff => SeqAction::Rgb(RgbCmd::Off),
        SeqState::Sample => SeqAction::SampleTemp,
    }
}

/// The schedule's delay for a state, in milliseconds.
pub fn delay_at(s: SeqState) -> (d: u32)
    ensures
        d == delay_of(s),
{
    match s {
        SeqState::Settle => 1000,
        SeqState::Pulse1On => 100,
        SeqState::Pulse1Off => 100,
        SeqState::Pulse2On => 100,
        SeqState::Pulse2Off => 700,
        SeqState::RedOn => 100,
        SeqState::RedOff => 100,
        SeqState::GreenOn => 100,
        SeqState::GreenOff => 100,
        SeqState::BlueOn => 100,
        SeqState::BlueOff => 100,
        SeqState::Sample => 500,
    }
}

/// The state that follows `s` in the schedule.
pub fn next_state(s: SeqState) -> (n: SeqState)
    ensures
        n == next_of(s),
{
    match s {
        SeqState::Settle => SeqState::Pulse1On,
        SeqState::Pulse1On => SeqState::Pulse1Off,
        SeqState::Pulse1Off => SeqState::Pulse2On,
        SeqState::Pulse2On => SeqState::Pulse2Off,
        SeqState::Pulse2Off => SeqState::RedOn,
        SeqState::RedOn => SeqState::RedOff,
        SeqState::RedOff => SeqState::GreenOn,
        SeqState::GreenOn => SeqState::GreenOff,
        SeqState::GreenOff => SeqState::BlueOn,
        SeqState::BlueOn => SeqState::BlueOff,
        SeqState::BlueOff => SeqState::Sample,
        SeqState::Sample => SeqState::Pulse1On,
    }
}

/// The schedule in order, by position in the cycle.
pub fn state_at_pos(i: usize) -> (s: SeqState)
    requires
        i < 12,
    ensures
        s == state_at(i as int),
{
    match i {
        0 => SeqState::Settle,
        1 => SeqState::Pulse1On,
        2 => SeqState::Pulse1Off,
        3 => SeqState::Pulse2On,
        4 => SeqState::Pulse2Off,
        5 => SeqState::RedOn,
        6 => SeqState::RedOff,
        7 => SeqState::GreenOn,
        8 => SeqState::GreenOff,
        9 => SeqState::BlueOn,
        10 => SeqState::BlueOff,
        _ => SeqState::Sample,
    }
}

/// The delay capability as the cycle driver sees it: it records each
/// requested duration, in order.
pub struct DelayLog {
    log: Vec<u32>,
    samples: u32,
}

impl View for DelayLog {
    type V = Seq<u32>;

    closed spec fn view(&self) -> Seq<u32> {
        self.log@
    }
}

impl DelayLog {
    pub closed spec fn spec_samples(&self) -> nat {
        self.samples as nat
    }

    /// An empty record: no delays requested, no samples requested.
    pub fn new() -> (d: Self)
        ensures
            d@ == Seq::<u32>::empty(),
            d.spec_samples() == 0,
    {
        DelayLog { log: Vec::new(), samples: 0 }
    }

    /// Record a request to block for `ms` milliseconds.
    pub fn delay_ms(&mut self, ms: u32)
        ensures
            final(self)@ == old(self)@.push(ms),
            final(self).spec_samples() == old(self).spec_samples(),
    {
        self.log.push(ms);
    }

    /// Record a request for one temperature sample.
    pub fn request_sample(&mut self)
        requires
            old(self).spec_samples() < u32::MAX,
        ensures
            final(self)@ == old(self)@,
            final(self).spec_samples() == old(self).spec_samples() + 1,
    {
        self.samples = self.samples + 1;
    }

    /// The recorded delay requests, in order.
    pub fn durations(&self) -> (v: &Vec<u32>)
        ensures
            v@ == self@,
    {
        &self.log
    }

    /// How many temperature samples were requested.
    pub fn samples(&self) -> (n: u32)
        ensures
            n == self.spec_samples(),
    {
        self.samples
    }
}

/// The cycle model an actual main signal, indicator and record stand at.
pub open spec fn cycle_model<L: OutputSignal, R: OutputSignal, G: OutputSignal, B: OutputSignal>(
    main: L,
    rgb: RGBLed<R, G, B>,
    log: DelayLog,
) -> CycleModel {
    CycleModel {
        main_pol: main.polarity(),
        main: main.line(),
        rgb: rgb@,
        delays: log@,
        samples: log.spec_samples(),
    }
}

/// Drive one full cycle of the schedule, from the settle state, against the
/// given signals, recording every delay and sample request. The first failed
/// hardware write stops the cycle: no further state is entered.
pub fn run_cycle<L: OutputSignal, R: OutputSignal, G: OutputSignal, B: OutputSignal>(
    main: &mut L,
    rgb: &mut RGBLed<R, G, B>,
    log: &mut DelayLog,
) -> (r: Result<(), HardwareSignalFault>)
    requires
        old(log).spec_samples() < u32::MAX,
    ensures
        ({
            let outcome = run_cycle_spec(cycle_model(*old(main), *old(rgb), *old(log)));
            &&& cycle_model(*final(main), *final(rgb), *final(log)) == outcome.0
            &&& r.is_ok() == outcome.1
        }),
{
    let ghost init = cycle_model(*old(main), *old(rgb), *old(log));
    let mut i: usize = 0;
    while i < 12
        invariant
            i <= 12,
            init == cycle_model(*old(main), *old(rgb), *old(log)),
            i < 12 ==> log.spec_samples() == init.samples,
            init.samples < u32::MAX,
            run_from(init, 0) == run_from(cycle_model(*main, *rgb, *log), i as int),
        decreases 12 - i,
    {
        let s = state_at_pos(i);
        let ghost pre = cycle_model(*main, *rgb, *log);
        let outcome: Result<(), HardwareSignalFault> = match action_at(s) {
            SeqAction::Wait => Ok(()),
            SeqAction::MainOn => main.on(),
            SeqAction::MainOff => main.off(),
            SeqAction::Rgb(cmd) => rgb.apply(cmd),
            SeqAction::SampleTemp => {
                log.request_sample();
                Ok(())
            },
        };
        proof {
            assert(cycle_model(*main, *rgb, *log) =~= apply_action(pre, s));
        }
        match outcome {
            Ok(()) => {},
            Err(e) => {
                proof {
                    assert(!action_ok(pre, s));
                    assert(run_from(pre, i as int) == (apply_action(pre, s), false));
                }
                return Err(e);
            },
        }
        log.delay_ms(delay_at(s));
        proof {
            assert(cycle_model(*main, *rgb, *log) =~= step_state(pre, s));
        }
        i = i + 1;
    }
    Ok(())
}

/// Law: on healthy lines the cycle always completes, and the delays it hands
/// to the delay capability are, in order, exactly the schedule's literal
/// durations, with exactly one temperature sample requested.
pub proof fn lemma_cycle_delay_trace(m: CycleModel)
    requires
        cycle_healthy(m),
    ensures
        run_cycle_spec(m).1,
        run_cycle_spec(m).0.delays == m.delays + cycle_delays(),
        run_cycle_spec(m).0.samples == m.samples + 1,
{
    reveal_with_fuel(run_from, 13);
    assert(run_cycle_spec(m).0.delays =~= m.delays + cycle_delays());
}

/// Law: the cycle completes exactly when every line it writes is healthy; a
/// fault anywhere stops it short.
pub proof fn lemma_cycle_completes_iff_healthy(m: CycleModel)
    ensures
        run_cycle_spec(m).1 <==> cycle_healthy(m),
{
    reveal_with_fuel(run_from, 13);
}

} // verus!
