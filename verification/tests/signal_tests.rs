use indicator_core::line::FloatingPin;
use indicator_core::line::Level;
use indicator_core::signal::GpioOutputSignalActiveHigh;
use indicator_core::signal::GpioOutputSignalActiveLow;
use indicator_core::signal::OutputSignal;

#[test]
fn active_low_polarity_table() {
    let mut s = GpioOutputSignalActiveLow::new(FloatingPin::at_level(Level::Low));
    assert!(s.on().is_ok());
    assert_eq!(s.line_level(), Level::Low);
    assert!(s.is_on());
    assert!(s.off().is_ok());
    assert_eq!(s.line_level(), Level::High);
    assert!(!s.is_on());
}

#[test]
fn active_high_polarity_table() {
    let mut s = GpioOutputSignalActiveHigh::new(FloatingPin::at_level(Level::High));
    assert!(s.on().is_ok());
    assert_eq!(s.line_level(), Level::High);
    assert!(s.is_on());
    assert!(s.off().is_ok());
    assert_eq!(s.line_level(), Level::Low);
    assert!(!s.is_on());
}

#[test]
fn polarity_table_holds_over_all_call_sequences() {
    // Every on/off sequence of length up to 4, on both variants: after each
    // call the emitted level is exactly the polarity table's level.
    for len in 0..=4usize {
        for bits in 0..(1u32 << len) {
            let mut low = GpioOutputSignalActiveLow::new(FloatingPin::at_level(Level::Low));
            let mut high = GpioOutputSignalActiveHigh::new(FloatingPin::at_level(Level::Low));
            for k in 0..len {
                let want_on = bits & (1 << k) != 0;
                if want_on {
                    assert!(low.on().is_ok());
                    assert!(high.on().is_ok());
                    assert_eq!(low.line_level(), Level::Low);
                    assert_eq!(high.line_level(), Level::High);
                } else {
                    assert!(low.off().is_ok());
                    assert!(high.off().is_ok());
                    assert_eq!(low.line_level(), Level::High);
                    assert_eq!(high.line_level(), Level::Low);
                }
                assert_eq!(low.is_on(), want_on);
                assert_eq!(high.is_on(), want_on);
            }
        }
    }
}

#[test]
fn construction_never_glows_active_low() {
    // Whatever level the pin rested at, an active-low adapter comes up off.
    let from_low = GpioOutputSignalActiveLow::new(FloatingPin::at_level(Level::Low));
    assert!(!from_low.is_on());
    assert_eq!(from_low.line_level(), Level::High);
    let from_high = GpioOutputSignalActiveLow::new(FloatingPin::at_level(Level::High));
    assert!(!from_high.is_on());
    assert_eq!(from_high.line_level(), Level::High);
}

#[test]
fn construction_never_glows_active_high() {
    let from_low = GpioOutputSignalActiveHigh::new(FloatingPin::at_level(Level::Low));
    assert!(!from_low.is_on());
    assert_eq!(from_low.line_level(), Level::Low);
    let from_high = GpioOutputSignalActiveHigh::new(FloatingPin::at_level(Level::High));
    assert!(!from_high.is_on());
    assert_eq!(from_high.line_level(), Level::Low);
}

#[test]
fn faulted_line_fails_writes_and_keeps_level() {
    let mut pin = FloatingPin::at_level(Level::Low);
    pin.inject_fault();
    let mut s = GpioOutputSignalActiveLow::new(pin);
    // Configuration still drove the line to off.
    assert_eq!(s.line_level(), Level::High);
    assert!(s.on().is_err());
    assert_eq!(s.line_level(), Level::High);
    assert!(s.off().is_err());
    assert_eq!(s.line_level(), Level::High);
}

#[test]
fn injected_fault_stops_a_working_signal() {
    let mut s = GpioOutputSignalActiveHigh::new(FloatingPin::at_level(Level::Low));
    assert!(s.on().is_ok());
    assert_eq!(s.line_level(), Level::High);
    s.inject_fault();
    assert!(s.off().is_err());
    assert_eq!(s.line_level(), Level::High);
}
