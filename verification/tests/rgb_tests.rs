use indicator_core::line::FloatingPin;
use indicator_core::line::Level;
use indicator_core::rgb::RGBLed;
use indicator_core::rgb::RgbCmd;
use indicator_core::signal::GpioOutputSignalActiveLow;

type Led = RGBLed<GpioOutputSignalActiveLow, GpioOutputSignalActiveLow, GpioOutputSignalActiveLow>;

fn fresh_led() -> Led {
    RGBLed::new(
        GpioOutputSignalActiveLow::new(FloatingPin::at_level(Level::Low)),
        GpioOutputSignalActiveLow::new(FloatingPin::at_level(Level::Low)),
        GpioOutputSignalActiveLow::new(FloatingPin::at_level(Level::Low)),
    )
}

fn lit_count(led: &Led) -> usize {
    led.red_is_on() as usize + led.green_is_on() as usize + led.blue_is_on() as usize
}

#[test]
fn each_color_call_lights_exactly_that_color() {
    let mut led = fresh_led();
    assert!(led.red().is_ok());
    assert!(led.red_is_on() && !led.green_is_on() && !led.blue_is_on());
    assert!(led.green().is_ok());
    assert!(!led.red_is_on() && led.green_is_on() && !led.blue_is_on());
    assert!(led.blue().is_ok());
    assert!(!led.red_is_on() && !led.green_is_on() && led.blue_is_on());
    assert!(led.off().is_ok());
    assert!(!led.red_is_on() && !led.green_is_on() && !led.blue_is_on());
}

#[test]
fn at_most_one_lit_over_all_call_sequences() {
    // Every sequence of indicator operations of length up to 4, starting
    // from construction: after each call, at most one channel is lit.
    let ops = [RgbCmd::Off, RgbCmd::Red, RgbCmd::Green, RgbCmd::Blue];
    for len in 0..=4usize {
        let mut codes = vec![0usize; len];
        loop {
            let mut led = fresh_led();
            assert!(lit_count(&led) <= 1);
            for &c in &codes {
                assert!(led.apply(ops[c]).is_ok());
                assert!(lit_count(&led) <= 1);
            }
            // Advance to the next sequence of operation codes.
            let mut k: usize = 0;
            while k < len && codes[k] == 3 {
                codes[k] = 0;
                k += 1;
            }
            if k == len {
                break;
            }
            codes[k] += 1;
        }
    }
}

#[test]
fn off_then_color_converges_from_any_state() {
    // Whatever state an operation left the indicator in, off() followed by a
    // color call lights exactly that color.
    let ops = [RgbCmd::Off, RgbCmd::Red, RgbCmd::Green, RgbCmd::Blue];
    let colors = [RgbCmd::Red, RgbCmd::Green, RgbCmd::Blue];
    for &prior in &ops {
        for &color in &colors {
            let mut led = fresh_led();
            assert!(led.apply(prior).is_ok());
            assert!(led.off().is_ok());
            assert!(led.apply(color).is_ok());
            assert_eq!(led.red_is_on(), color == RgbCmd::Red);
            assert_eq!(led.green_is_on(), color == RgbCmd::Green);
            assert_eq!(led.blue_is_on(), color == RgbCmd::Blue);
        }
    }
}

#[test]
fn red_green_off_level_trace() {
    // Starting from adapters in the off electrical state: red(), green(),
    // off() step through exactly [on,off,off], [off,on,off], [off,off,off].
    let mut led = fresh_led();
    assert!(!led.red_is_on() && !led.green_is_on() && !led.blue_is_on());
    assert!(led.red().is_ok());
    assert!(led.red_is_on() && !led.green_is_on() && !led.blue_is_on());
    assert!(led.green().is_ok());
    assert!(!led.red_is_on() && led.green_is_on() && !led.blue_is_on());
    assert!(led.off().is_ok());
    assert!(!led.red_is_on() && !led.green_is_on() && !led.blue_is_on());
}

#[test]
fn faulted_channel_fails_the_operation() {
    let mut green_pin = FloatingPin::at_level(Level::Low);
    green_pin.inject_fault();
    let mut led = RGBLed::new(
        GpioOutputSignalActiveLow::new(FloatingPin::at_level(Level::Low)),
        GpioOutputSignalActiveLow::new(green_pin),
        GpioOutputSignalActiveLow::new(FloatingPin::at_level(Level::Low)),
    );
    // red() turns green off first; that write fails and red is never lit.
    assert!(led.red().is_err());
    assert!(!led.red_is_on() && !led.green_is_on() && !led.blue_is_on());
}
