use stm32f7_discovery::gpio::port::{BsrrTrait, IdrTrait, OdrTrait};
use stm32f7_discovery::gpio::{
    AlternateFunction, Error, GpioPort, InputPin, Mode, OutputPin, OutputSpeed, OutputType,
    PinConfig, PinNumber, RegisterBlockTrait, Resistor,
};
use std::cell::{Cell, RefCell};
use std::rc::Rc;

#[derive(Default)]
struct Registers {
    data: Cell<u16>,
    log: RefCell<Vec<String>>,
    config: RefCell<Vec<(PinNumber, PinConfig)>>,
}

const RESET_CONFIG: PinConfig = PinConfig {
    mode: Mode::Input,
    resistor: Resistor::NoPull,
    out_type: OutputType::PushPull,
    out_speed: OutputSpeed::Low,
    alternate_fn: AlternateFunction::AF0,
};

impl Registers {
    fn config_of(&self, pin: PinNumber) -> PinConfig {
        self.config
            .borrow()
            .iter()
            .rev()
            .find(|(p, _)| *p == pin)
            .map(|(_, c)| *c)
            .unwrap_or(RESET_CONFIG)
    }
    fn update(&self, pins: &[PinNumber], f: impl Fn(&mut PinConfig)) {
        for &pin in pins {
            let mut c = self.config_of(pin);
            f(&mut c);
            self.config.borrow_mut().push((pin, c));
        }
    }
}

#[derive(Clone)]
struct Handle(Rc<Registers>);

impl IdrTrait for Handle {
    fn reads(&self, pin: PinNumber, value: bool) -> bool {
        IdrTrait::get(self, pin) == value
    }
    fn get(&self, pin: PinNumber) -> bool {
        self.0.data.get() & (1 << pin.index()) != 0
    }
}

impl OdrTrait for Handle {
    fn reads(&self, pin: PinNumber, value: bool) -> bool {
        OdrTrait::get(self, pin) == value
    }
    fn get(&self, pin: PinNumber) -> bool {
        self.0.data.get() & (1 << pin.index()) != 0
    }
}

impl BsrrTrait for Handle {
    fn written(&self, pin: PinNumber, value: bool) -> bool {
        (self.0.data.get() & (1 << pin.index()) != 0) == value
    }
    fn write_pin(&mut self, pin: PinNumber, value: bool) {
        let d = self.0.data.get();
        let bit = 1 << pin.index();
        self.0.data.set(if value { d | bit } else { d & !bit });
    }
}

impl RegisterBlockTrait for Handle {
    type Idr = Handle;
    type Odr = Handle;
    type Bsrr = Handle;

    fn idr(&self) -> Handle {
        self.clone()
    }
    fn odr(&self) -> Handle {
        self.clone()
    }
    fn bsrr(&self) -> Handle {
        self.clone()
    }
    fn pin_config(&self, pin: PinNumber) -> PinConfig {
        self.0.config_of(pin)
    }
    fn set_mode(&mut self, pins: &[PinNumber], mode: Mode) {
        self.0.log.borrow_mut().push(format!("mode {:?} {:?}", pins, mode));
        self.0.update(pins, |c| c.mode = mode);
    }
    fn set_resistor(&mut self, pins: &[PinNumber], resistor: Resistor) {
        self.0.log.borrow_mut().push(format!("resistor {:?} {:?}", pins, resistor));
        self.0.update(pins, |c| c.resistor = resistor);
    }
    fn set_out_type(&mut self, pins: &[PinNumber], out_type: OutputType) {
        self.0.log.borrow_mut().push(format!("type {:?} {:?}", pins, out_type));
        self.0.update(pins, |c| c.out_type = out_type);
    }
    fn set_out_speed(&mut self, pins: &[PinNumber], out_speed: OutputSpeed) {
        self.0.log.borrow_mut().push(format!("speed {:?} {:?}", pins, out_speed));
        self.0.update(pins, |c| c.out_speed = out_speed);
    }
    fn set_alternate_fn(&mut self, pins: &[PinNumber], af: AlternateFunction) {
        self.0.log.borrow_mut().push(format!("af {:?} {:?}", pins, af));
        self.0.update(pins, |c| c.alternate_fn = af);
    }
}

fn port() -> (GpioPort<Handle>, Rc<Registers>) {
    let regs = Rc::new(Registers::default());
    (GpioPort::new(Handle(regs.clone())), regs)
}

#[test]
fn gpio_pin_can_be_used_once() {
    let (mut port, regs) = port();
    let input = port.to_input(PinNumber::Pin3, Resistor::PullUp);
    assert!(input.is_ok());
    assert_eq!(
        port.to_input(PinNumber::Pin3, Resistor::NoPull).err(),
        Some(Error::PinAlreadyInUse(PinNumber::Pin3))
    );
    assert_eq!(
        port.to_output(PinNumber::Pin3, OutputType::PushPull, OutputSpeed::Low, Resistor::NoPull)
            .err(),
        Some(Error::PinAlreadyInUse(PinNumber::Pin3))
    );
    // the failed attempts configured nothing
    assert_eq!(regs.log.borrow().len(), 2);
}

#[test]
fn gpio_output_pin_set_get_toggle() {
    let (mut port, _regs) = port();
    let mut led = port
        .to_output(PinNumber::Pin1, OutputType::PushPull, OutputSpeed::Low, Resistor::NoPull)
        .ok()
        .unwrap();
    assert!(!led.get());
    led.set(true);
    assert!(led.get());
    led.toggle();
    assert!(!led.get());
    let button = port.to_input(PinNumber::Pin11, Resistor::NoPull).ok().unwrap();
    assert!(!button.get());
}

#[test]
fn gpio_alternate_function_all_or_nothing() {
    let (mut port, regs) = port();
    port.to_input(PinNumber::Pin5, Resistor::NoPull).ok().unwrap();
    let pins = [PinNumber::Pin0, PinNumber::Pin1, PinNumber::Pin5, PinNumber::Pin6];
    let r = port.to_alternate_function_all(
        &pins,
        AlternateFunction::AF12,
        OutputType::PushPull,
        OutputSpeed::High,
        Resistor::PullUp,
    );
    assert_eq!(r, Err(Error::PinAlreadyInUse(PinNumber::Pin5)));
    let logged = regs.log.borrow().len();
    // nothing was reserved: pins 0, 1 and 6 are still free
    let r = port.to_alternate_function_all(
        &[PinNumber::Pin0, PinNumber::Pin1, PinNumber::Pin6],
        AlternateFunction::AF12,
        OutputType::PushPull,
        OutputSpeed::High,
        Resistor::PullUp,
    );
    assert_eq!(r, Ok(()));
    assert_eq!(regs.log.borrow().len(), logged + 5);
    assert_eq!(
        port.to_alternate_function(
            PinNumber::Pin6,
            AlternateFunction::AF11,
            OutputType::PushPull,
            OutputSpeed::High,
            Resistor::NoPull
        ),
        Err(Error::PinAlreadyInUse(PinNumber::Pin6))
    );
}

#[test]
fn gpio_duplicate_pins_in_one_call_fail() {
    let (mut port, _regs) = port();
    let r = port.to_alternate_function_all(
        &[PinNumber::Pin2, PinNumber::Pin2],
        AlternateFunction::AF0,
        OutputType::OpenDrain,
        OutputSpeed::VeryHigh,
        Resistor::PullDown,
    );
    assert_eq!(r, Err(Error::PinAlreadyInUse(PinNumber::Pin2)));
    assert!(port.to_input(PinNumber::Pin2, Resistor::NoPull).is_ok());
}

#[test]
fn gpio_pin_indices() {
    for i in 0..16 {
        assert_eq!(PinNumber::from_index(i).index(), i);
    }
    assert_eq!(PinNumber::Pin15.index(), 15);
}

#[test]
fn init_pins_maps_the_board() {
    let ports: Vec<(GpioPort<Handle>, Rc<Registers>)> = (0..11).map(|_| port()).collect();
    let regs: Vec<Rc<Registers>> = ports.iter().map(|(_, r)| r.clone()).collect();
    let mut it = ports.into_iter().map(|(p, _)| p);
    let mut next = || it.next().unwrap();
    let (mut a, mut b, mut c, mut d, mut e, mut f) = (next(), next(), next(), next(), next(), next());
    let (mut g, mut h, mut i, mut j, mut k) = (next(), next(), next(), next(), next());
    let mut pins = stm32f7_discovery::init::pins::init(
        &mut a, &mut b, &mut c, &mut d, &mut e, &mut f, &mut g, &mut h, &mut i, &mut j, &mut k,
    );

    // the LED is pin 1 of port I
    pins.led.set(true);
    assert_eq!(regs[8].data.get(), 1 << 1);
    pins.led.toggle();
    assert_eq!(regs[8].data.get(), 0);
    // the backlight is pin 3 of port K
    pins.backlight.set(true);
    assert_eq!(regs[10].data.get(), 1 << 3);
    // the display enable is pin 12 of port I
    pins.display_enable.set(true);
    assert!(regs[8].data.get() & (1 << 12) != 0);
    // the button reads pin 11 of port I
    assert!(!pins.button.get());
    regs[8].data.set(1 << 11);
    assert!(pins.button.get());
    // the card present input reads pin 13 of port C
    regs[2].data.set(1 << 13);
    assert!(pins.sdcard_present.get());
    // audio in reads pin 15 of port H
    assert!(!pins.audio_in.get());
    regs[7].data.set(1 << 15);
    assert!(pins.audio_in.get());

    // configuration written to the registers
    let log_a = regs[0].log.borrow();
    assert!(log_a.contains(&format!("af {:?} {:?}", [PinNumber::Pin1, PinNumber::Pin2, PinNumber::Pin7], AlternateFunction::AF11)));
    let log_b = regs[1].log.borrow();
    assert!(log_b.contains(&format!("type {:?} {:?}", [PinNumber::Pin6, PinNumber::Pin7, PinNumber::Pin10, PinNumber::Pin11], OutputType::OpenDrain)));
    let log_i = regs[8].log.borrow();
    assert!(log_i.contains(&format!("mode {:?} {:?}", [PinNumber::Pin1], Mode::Output)));
    assert!(log_i.contains(&format!("resistor {:?} {:?}", [PinNumber::Pin12], Resistor::PullDown)));
    let log_j = regs[9].log.borrow();
    assert!(log_j.contains(&format!("speed {:?} {:?}", (0..16).filter(|n| *n != 12).map(PinNumber::from_index).collect::<Vec<_>>(), OutputSpeed::High)));
}

fn alternate(af: AlternateFunction, t: OutputType, sp: OutputSpeed, r: Resistor) -> PinConfig {
    PinConfig { mode: Mode::Alternate, resistor: r, out_type: t, out_speed: sp, alternate_fn: af }
}

#[test]
fn gpio_pins_are_configured_as_requested() {
    let (mut port, regs) = port();
    port.to_output(PinNumber::Pin1, OutputType::OpenDrain, OutputSpeed::High, Resistor::PullUp)
        .ok()
        .unwrap();
    let c = regs.config_of(PinNumber::Pin1);
    assert_eq!(c.mode, Mode::Output);
    assert_eq!(c.out_type, OutputType::OpenDrain);
    assert_eq!(c.out_speed, OutputSpeed::High);
    assert_eq!(c.resistor, Resistor::PullUp);
    // an input keeps type and speed
    port.to_input(PinNumber::Pin2, Resistor::PullDown).ok().unwrap();
    let c = regs.config_of(PinNumber::Pin2);
    assert_eq!(c.mode, Mode::Input);
    assert_eq!(c.resistor, Resistor::PullDown);
    port.to_alternate_function(
        PinNumber::Pin3,
        AlternateFunction::AF7,
        OutputType::PushPull,
        OutputSpeed::Medium,
        Resistor::NoPull,
    )
    .unwrap();
    assert_eq!(
        regs.config_of(PinNumber::Pin3),
        alternate(AlternateFunction::AF7, OutputType::PushPull, OutputSpeed::Medium, Resistor::NoPull)
    );
    // other pins are untouched
    assert_eq!(regs.config_of(PinNumber::Pin4), RESET_CONFIG);
}

#[test]
fn init_pins_sets_up_each_peripheral() {
    let ports: Vec<(GpioPort<Handle>, Rc<Registers>)> = (0..11).map(|_| port()).collect();
    let regs: Vec<Rc<Registers>> = ports.iter().map(|(_, r)| r.clone()).collect();
    let mut ps: Vec<GpioPort<Handle>> = ports.into_iter().map(|(p, _)| p).collect();
    let mut it = ps.iter_mut();
    let (a, b, c, d, e, f) = (
        it.next().unwrap(),
        it.next().unwrap(),
        it.next().unwrap(),
        it.next().unwrap(),
        it.next().unwrap(),
        it.next().unwrap(),
    );
    let (g, h, i, j, k) =
        (it.next().unwrap(), it.next().unwrap(), it.next().unwrap(), it.next().unwrap(), it.next().unwrap());
    let _pins = stm32f7_discovery::init::pins::init(a, b, c, d, e, f, g, h, i, j, k);
    let sdram = alternate(AlternateFunction::AF12, OutputType::PushPull, OutputSpeed::High, Resistor::PullUp);
    let eth = alternate(AlternateFunction::AF11, OutputType::PushPull, OutputSpeed::High, Resistor::NoPull);
    let i2c = alternate(AlternateFunction::AF4, OutputType::OpenDrain, OutputSpeed::Medium, Resistor::PullUp);
    let lcd = alternate(AlternateFunction::AF14, OutputType::PushPull, OutputSpeed::High, Resistor::NoPull);
    let sai = alternate(AlternateFunction::AF10, OutputType::PushPull, OutputSpeed::High, Resistor::NoPull);
    assert_eq!(regs[1].config_of(PinNumber::Pin5), sdram);
    assert_eq!(regs[5].config_of(PinNumber::Pin11), sdram);
    assert_eq!(regs[0].config_of(PinNumber::Pin7), eth);
    assert_eq!(regs[6].config_of(PinNumber::Pin14), eth);
    assert_eq!(regs[7].config_of(PinNumber::Pin8), i2c);
    assert_eq!(regs[9].config_of(PinNumber::Pin0), lcd);
    assert_eq!(regs[8].config_of(PinNumber::Pin4), sai);
    // the SD card present pin is an input with pull-up
    let present = regs[2].config_of(PinNumber::Pin13);
    assert_eq!((present.mode, present.resistor), (Mode::Input, Resistor::PullUp));
    // the backlight is a push-pull output with pull-down
    let backlight = regs[10].config_of(PinNumber::Pin3);
    assert_eq!(
        (backlight.mode, backlight.out_type, backlight.out_speed, backlight.resistor),
        (Mode::Output, OutputType::PushPull, OutputSpeed::Low, Resistor::PullDown)
    );
    // pins that no peripheral uses stay as they were
    assert_eq!(regs[0].config_of(PinNumber::Pin0), RESET_CONFIG);
    assert_eq!(regs[9].config_of(PinNumber::Pin12), RESET_CONFIG);
    // a second reservation of a mapped pin fails
    assert_eq!(
        ps[0].to_input(PinNumber::Pin1, Resistor::NoPull).err(),
        Some(Error::PinAlreadyInUse(PinNumber::Pin1))
    );
}
