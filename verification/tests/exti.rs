use stm32f7_discovery::exti::{EdgeDetection, Exti, ExtiLine, LineAlreadyUsedError, Port};
use stm32f7_discovery::gpio::PinNumber;

#[test]
fn exti_register_gpio_line() {
    let mut exti = Exti::new();
    let line = ExtiLine::Gpio(Port::PortI, PinNumber::Pin11);
    let (handle, cfg) = exti.register(line, EdgeDetection::RisingEdge).ok().unwrap();
    assert_eq!(cfg.line, 11);
    assert_eq!(cfg.port, Some(8));
    assert!(cfg.rising && !cfg.falling);
    assert_eq!(handle.clear_pending_state(), 1 << 11);
    // the line is taken, also through another port
    let other = ExtiLine::Gpio(Port::PortA, PinNumber::Pin11);
    assert_eq!(
        exti.register(other, EdgeDetection::BothEdges).err(),
        Some(LineAlreadyUsedError(other))
    );
    assert_eq!(exti.unregister(handle), 11);
    let (_, cfg) = exti.register(other, EdgeDetection::BothEdges).ok().unwrap();
    assert!(cfg.rising && cfg.falling);
    assert_eq!(cfg.port, Some(0));
}

#[test]
fn exti_register_event_lines() {
    let mut exti = Exti::new();
    let (h, cfg) = exti.register(ExtiLine::RtcWakeupEvent, EdgeDetection::FallingEdge).ok().unwrap();
    assert_eq!(cfg.line, 22);
    assert_eq!(cfg.port, None);
    assert!(!cfg.rising && cfg.falling);
    assert_eq!(h.clear_pending_state(), 1 << 22);
    let (_, cfg) = exti.register(ExtiLine::PvdOutput, EdgeDetection::RisingEdge).ok().unwrap();
    assert_eq!(cfg.line, 16);
}
