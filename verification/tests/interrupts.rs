use stm32f7_discovery::interrupts::interrupt_table::{
    Error, InterruptController, InterruptHandle, InterruptTable,
};
use stm32f7_discovery::interrupts::InterruptRequest;
use stm32f7_discovery::lcd::dma2d::{Mode, Pfc};

#[test]
fn interrupt_request_numbers() {
    assert_eq!(InterruptRequest::Wwdg.nr(), 0);
    assert_eq!(InterruptRequest::Exti0.nr(), 6);
    assert_eq!(InterruptRequest::Tim7.nr(), 55);
    assert_eq!(InterruptRequest::Spdifrx.nr(), 97);
}

#[derive(Default)]
struct Nvic {
    enabled: Vec<u8>,
    priorities: Vec<(u8, u8)>,
}

impl InterruptController for Nvic {
    type Priority = u8;
    fn enabled(&self, irq: u8) -> bool {
        self.enabled.contains(&irq)
    }
    fn priority(&self, irq: u8) -> u8 {
        self.priorities.iter().rev().find(|(i, _)| *i == irq).map(|(_, p)| *p).unwrap_or(0)
    }
    fn set_priority(&mut self, irq: u8, priority: u8) {
        self.priorities.push((irq, priority));
    }
    fn enable(&mut self, irq: u8) {
        if !self.enabled.contains(&irq) {
            self.enabled.push(irq);
        }
    }
    fn disable(&mut self, irq: u8) {
        self.enabled.retain(|i| *i != irq);
    }
}

#[test]
fn interrupt_table_registration() {
    let mut table: InterruptTable<Nvic, u32> = InterruptTable::new(Nvic::default());
    assert!(table.all_unregistered());
    let tim7 = InterruptRequest::Tim7.nr();
    let handle: InterruptHandle<(), u8> = table.register(tim7, 1).ok().unwrap();
    assert_eq!(*handle.irq(), tim7);
    assert!(!table.all_unregistered());
    assert!(matches!(table.register(tim7, 2), Err(Error::InterruptAlreadyInUse(55))));
    assert!(matches!(table.err_if_irq_in_use(tim7), Err(Error::InterruptAlreadyInUse(55))));
    // a handler without data gives nothing back
    assert_eq!(table.unregister(handle), None);
    assert!(table.all_unregistered());
    assert!(table.err_if_irq_in_use(tim7).is_ok());
}

#[test]
fn interrupt_table_enables_with_priority_and_gives_back_data() {
    let mut table: InterruptTable<Nvic, u32> = InterruptTable::new(Nvic::default());
    let exti0 = InterruptRequest::Exti0.nr();
    let handle = table.register_owned(exti0, 3, 42).ok().unwrap();
    // the request is enabled with its priority
    assert!(table.interrupt_controller().enabled(exti0));
    assert_eq!(table.interrupt_controller().priority(exti0), 3);
    table.set_priority(&handle, 5);
    assert_eq!(table.interrupt_controller().priority(exti0), 5);
    // the owned data comes back when the handler is removed
    assert_eq!(table.unregister(handle), Some(42));
    assert!(!table.interrupt_controller().enabled(exti0));
    assert!(table.all_unregistered());
    // registering again succeeds once the request is free
    assert!(table.register_owned(exti0, 1, 7).is_ok());
}

#[test]
fn interrupt_controller_is_set_up_on_register() {
    let mut nvic = Nvic::default();
    nvic.set_priority(6, 4);
    nvic.enable(6);
    assert!(nvic.enabled(6));
    assert_eq!(nvic.priority(6), 4);
    nvic.disable(6);
    assert!(!nvic.enabled(6));
}

#[test]
fn dma2d_codes() {
    assert_eq!(Mode::RegisterToMemory.bits(), 0b11);
    assert_eq!(Mode::MemoryToMemoryWithBlending.bits(), 0b10);
    assert_eq!(Pfc::Argb8888.bits(), 0);
    assert_eq!(Pfc::Al88.bits(), 7);
    assert_eq!(Pfc::A4.bits(), 10);
}
