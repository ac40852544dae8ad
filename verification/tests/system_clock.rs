use stm32f7_discovery::system_clock::{
    checked_reload_ticks, init, ms, ms_to_ticks, pll_system_clock_speed, system_clock_speed,
    tick, ticks, ticks_to_ms, wait_ms_deadline, wait_ticks_deadline, Hz, PllP,
};

#[test]
fn clock_speed_of_216_mhz_configuration() {
    // PLLM = 25, PLLN = 432, PLLP = 2: 25 MHz / 25 * 432 / 2 = 216 MHz
    assert_eq!(pll_system_clock_speed(25, 432, PllP::Div2), 216_000_000);
    assert_eq!(pll_system_clock_speed(25, 400, PllP::Div2), 200_000_000);
    assert_eq!(pll_system_clock_speed(25, 432, PllP::Div8), 54_000_000);
}

#[test]
fn init_computes_reload_value() {
    let (clock, reload) = init(Hz(1000), 25, 432, PllP::Div2);
    // 216_000 cycles per millisecond: the register holds one less
    assert_eq!(reload, 215_999);
    // the frequency that was passed to init
    assert_eq!(system_clock_speed(&clock).0, 1000);
    assert_eq!(ticks(&clock), 0);
}

#[test]
fn reload_check_rejects_too_low_frequencies() {
    assert_eq!(checked_reload_ticks(Hz(100), 25, 432, PllP::Div2), Some(2_160_000));
    // 216 MHz / 10 Hz = 21_600_000 does not fit into 24 bits
    assert_eq!(checked_reload_ticks(Hz(10), 25, 432, PllP::Div2), None);
    assert_eq!(checked_reload_ticks(Hz(0), 25, 432, PllP::Div2), None);
    // PLLM = 1: 25 MHz * 432 / 2 = 5.4 GHz, 5_400_000 cycles per millisecond
    assert_eq!(checked_reload_ticks(Hz(1000), 1, 432, PllP::Div2), Some(5_400_000));
    assert_eq!(checked_reload_ticks(Hz(1000), 0, 432, PllP::Div2), None);
    // faster than the system clock
    assert_eq!(checked_reload_ticks(Hz(300_000_000), 25, 432, PllP::Div2), None);
}

#[test]
fn ticks_count_up_and_convert() {
    let (mut clock, _) = init(Hz(100), 25, 432, PllP::Div2);
    for _ in 0..250 {
        tick(&mut clock);
    }
    assert_eq!(ticks(&clock), 250);
    assert_eq!(ms(&clock), 2500);
    assert_eq!(ticks_to_ms(&clock, 7), 70);
}

#[test]
fn ms_to_ticks_rounds_up() {
    let (clock, _) = init(Hz(100), 25, 432, PllP::Div2);
    assert_eq!(ms_to_ticks(&clock, 50), 5);
    assert_eq!(ms_to_ticks(&clock, 51), 6);
    assert_eq!(ms_to_ticks(&clock, 0), 0);
    assert_eq!(ms_to_ticks(&clock, 1), 1);
    // converting back never loses time
    for m in 0..300 {
        assert!(ticks_to_ms(&clock, ms_to_ticks(&clock, m)) >= m);
    }
}

#[test]
fn wait_deadlines() {
    let (mut clock, _) = init(Hz(1000), 25, 432, PllP::Div2);
    tick(&mut clock);
    tick(&mut clock);
    assert_eq!(wait_ticks_deadline(&clock, 10), 12);
    assert_eq!(wait_ms_deadline(&clock, 50), 52);
}
