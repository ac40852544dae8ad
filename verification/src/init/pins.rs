//! The pin mapping of the board: which pins of which GPIO port each peripheral uses, and
//! their configuration.

use crate::exti::Port;
use crate::gpio::port::{
    GpioPort, InputPinImpl, OutputPinImpl, RegisterBlockTrait, lemma_reserve_marks_exactly, reserve,
};
use crate::gpio::{
    AlternateFunction, InputPin, OutputPin, OutputSpeed, OutputType, PinNumber, PinSetting,
    Resistor, apply_setting, lemma_pin_index_bound, lemma_pin_index_injective, pin_index,
};
use vstd::prelude::*;

verus! {

/// No pin (by index) of `pins` is in use in the table `in_use` of a port.
pub open spec fn pins_free(in_use: Seq<bool>, pins: Set<int>) -> bool {
    forall|i: int| pins.contains(i) ==> !#[trigger] in_use[i]
}

/// The table `after` of a port is `before` with the pins (by index) of `pins` marked in
/// use: those pins are in use afterwards, and every other pin is as it was.
pub open spec fn reserved(before: Seq<bool>, after: Seq<bool>, pins: Set<int>) -> bool {
    &&& after.len() == before.len()
    &&& forall|i: int| 0 <= i < before.len() ==> #[trigger] after[i] == (before[i] || pins.contains(i))
}

/// The special pins that [`init`] hands out.
pub struct Pins<
    Led: OutputPin,
    Button: InputPin,
    DisplayEnable: OutputPin,
    Backlight: OutputPin,
    SdcardPresent: InputPin,
    AudioIn: InputPin,
> {
    /// This pin enables or disables the debug LED.
    pub led: Led,
    /// This pin reports whether the user button is pressed.
    pub button: Button,
    /// This pin controls whether the LCD is enabled.
    pub display_enable: DisplayEnable,
    /// This pin controls the LCD backlight.
    pub backlight: Backlight,
    /// This pin reports whether there is a card in the SD card slot.
    pub sdcard_present: SdcardPresent,
    /// This pin reports whether there is new audio data from the microphone.
    ///
    /// **Does not work currently**
    pub audio_in: AudioIn,
}

/// The users of pins that [`init`] sets up.
#[derive(Debug, Clone, Copy, PartialEq, Eq, Structural)]
pub enum Peripheral {
    /// The user LED, the user button and the LCD touch interrupt.
    Board,
    /// The SDRAM controller.
    Sdram,
    /// The LCD controller with its display enable and backlight outputs.
    Lcd,
    /// The I2C buses.
    I2c,
    /// The SAI2 audio interface with its audio input.
    Sai2,
    /// The SD card interface with its card present input.
    Sd,
    /// The Ethernet controller (RMII).
    Ethernet,
}

/// The pins (by index) of `port` that `peripheral` uses.
pub open spec fn peripheral_pins(peripheral: Peripheral, port: Port) -> Set<int> {
    match (peripheral, port) {
        (Peripheral::Board, Port::PortI) => set![1int, 11, 13],
        (Peripheral::Sdram, Port::PortB) => set![5int],
        (Peripheral::Sdram, Port::PortC) => set![3int],
        (Peripheral::Sdram, Port::PortD) => set![14int, 15, 0, 1, 8, 9, 10],
        (Peripheral::Sdram, Port::PortE) => set![7int, 8, 9, 10, 11, 12, 13, 14, 15],
        (Peripheral::Sdram, Port::PortF) => set![0int, 1, 2, 3, 4, 5, 12, 13, 14, 15, 11],
        (Peripheral::Sdram, Port::PortG) => set![0int, 1, 2, 4, 5, 8, 15],
        (Peripheral::Sdram, Port::PortH) => set![3int, 6, 5],
        (Peripheral::Lcd, Port::PortE) => set![4int],
        (Peripheral::Lcd, Port::PortG) => set![12int],
        (Peripheral::Lcd, Port::PortI) => set![15int, 14, 10, 9, 12],
        (Peripheral::Lcd, Port::PortJ) => set![0int, 1, 2, 3, 4, 5, 6, 7, 8, 9, 10, 11, 13, 14, 15],
        (Peripheral::Lcd, Port::PortK) => set![0int, 1, 2, 4, 5, 6, 7, 3],
        (Peripheral::I2c, Port::PortB) => set![6int, 7, 10, 11],
        (Peripheral::I2c, Port::PortD) => set![13int],
        (Peripheral::I2c, Port::PortH) => set![7int, 8, 11],
        (Peripheral::Sai2, Port::PortG) => set![10int],
        (Peripheral::Sai2, Port::PortH) => set![15int],
        (Peripheral::Sai2, Port::PortI) => set![7int, 5, 6, 4],
        (Peripheral::Sd, Port::PortB) => set![8int, 9],
        (Peripheral::Sd, Port::PortC) => set![8int, 9, 10, 11, 6, 7, 12, 13],
        (Peripheral::Sd, Port::PortD) => set![2int],
        (Peripheral::Ethernet, Port::PortA) => set![1int, 2, 7],
        (Peripheral::Ethernet, Port::PortC) => set![1int, 4, 5],
        (Peripheral::Ethernet, Port::PortG) => set![11int, 13, 14],
        _ => Set::empty(),
    }
}

/// How `peripheral` sets up pin `pin` of `port`, for the pins of [`peripheral_pins`].
pub open spec fn peripheral_setting(peripheral: Peripheral, port: Port, pin: PinNumber) -> PinSetting {
    match peripheral {
        Peripheral::Board => if pin == PinNumber::Pin1 {
            PinSetting::Output(OutputType::PushPull, OutputSpeed::Low, Resistor::NoPull)
        } else {
            PinSetting::Input(Resistor::NoPull)
        },
        Peripheral::Sdram => PinSetting::Alternate(
            AlternateFunction::AF12,
            OutputType::PushPull,
            OutputSpeed::High,
            Resistor::PullUp,
        ),
        Peripheral::Lcd => if (port == Port::PortI && pin == PinNumber::Pin12) || (port
            == Port::PortK && pin == PinNumber::Pin3) {
            PinSetting::Output(OutputType::PushPull, OutputSpeed::Low, Resistor::PullDown)
        } else {
            PinSetting::Alternate(
                AlternateFunction::AF14,
                OutputType::PushPull,
                OutputSpeed::High,
                Resistor::NoPull,
            )
        },
        Peripheral::I2c => PinSetting::Alternate(
            AlternateFunction::AF4,
            OutputType::OpenDrain,
            OutputSpeed::Medium,
            Resistor::PullUp,
        ),
        Peripheral::Sai2 => if port == Port::PortH {
            PinSetting::Input(Resistor::NoPull)
        } else {
            PinSetting::Alternate(
                AlternateFunction::AF10,
                OutputType::PushPull,
                OutputSpeed::High,
                Resistor::NoPull,
            )
        },
        Peripheral::Sd => if port == Port::PortC && pin == PinNumber::Pin13 {
            PinSetting::Input(Resistor::PullUp)
        } else {
            PinSetting::Alternate(
                AlternateFunction::AF12,
                OutputType::PushPull,
                OutputSpeed::High,
                Resistor::PullUp,
            )
        },
        Peripheral::Ethernet => PinSetting::Alternate(
            AlternateFunction::AF11,
            OutputType::PushPull,
            OutputSpeed::High,
            Resistor::NoPull,
        ),
    }
}

/// `after` is the port `before` with the pins of `peripheral` on `port` reserved and set up
/// as [`peripheral_setting`] says; every other pin is unchanged.
pub open spec fn configured<T: RegisterBlockTrait>(
    before: GpioPort<T>,
    after: GpioPort<T>,
    peripheral: Peripheral,
    port: Port,
) -> bool {
    &&& reserved(before.in_use(), after.in_use(), peripheral_pins(peripheral, port))
    &&& forall|q: PinNumber| #[trigger]
        after.pin_config(q) == (if peripheral_pins(peripheral, port).contains(pin_index(q) as int) {
            apply_setting(peripheral_setting(peripheral, port, q), before.pin_config(q))
        } else {
            before.pin_config(q)
        })
}

/// The pins (by index) of each port that [`init`] reserves.
pub open spec fn pins_used_by_init(port: Port) -> Set<int> {
    peripheral_pins(Peripheral::Board, port).union(peripheral_pins(Peripheral::Sdram, port)).union(
        peripheral_pins(Peripheral::Lcd, port),
    ).union(peripheral_pins(Peripheral::I2c, port)).union(
        peripheral_pins(Peripheral::Sai2, port),
    ).union(peripheral_pins(Peripheral::Sd, port)).union(
        peripheral_pins(Peripheral::Ethernet, port),
    )
}

/// The peripheral of pin `pin` of `port` after [`init`], if any.
pub open spec fn init_peripheral(port: Port, pin: PinNumber) -> Option<Peripheral> {
    let i = pin_index(pin) as int;
    if peripheral_pins(Peripheral::Board, port).contains(i) {
        Some(Peripheral::Board)
    } else if peripheral_pins(Peripheral::Sdram, port).contains(i) {
        Some(Peripheral::Sdram)
    } else if peripheral_pins(Peripheral::Lcd, port).contains(i) {
        Some(Peripheral::Lcd)
    } else if peripheral_pins(Peripheral::I2c, port).contains(i) {
        Some(Peripheral::I2c)
    } else if peripheral_pins(Peripheral::Sai2, port).contains(i) {
        Some(Peripheral::Sai2)
    } else if peripheral_pins(Peripheral::Sd, port).contains(i) {
        Some(Peripheral::Sd)
    } else if peripheral_pins(Peripheral::Ethernet, port).contains(i) {
        Some(Peripheral::Ethernet)
    } else {
        None
    }
}

/// `after` is the port `before` as [`init`] leaves it: the pins of [`pins_used_by_init`] are
/// reserved and each is set up as its peripheral needs; every other pin is unchanged.
pub open spec fn set_up_by_init<T: RegisterBlockTrait>(
    before: GpioPort<T>,
    after: GpioPort<T>,
    port: Port,
) -> bool {
    &&& reserved(before.in_use(), after.in_use(), pins_used_by_init(port))
    &&& forall|q: PinNumber| #[trigger]
        after.pin_config(q) == match init_peripheral(port, q) {
            Some(peripheral) => apply_setting(
                peripheral_setting(peripheral, port, q),
                before.pin_config(q),
            ),
            None => before.pin_config(q),
        }
}

/// A successful reservation of `list`, which marked exactly the pins `pins`, set up exactly
/// those pins.
proof fn lemma_list_configures_pins<T: RegisterBlockTrait>(
    before: GpioPort<T>,
    after: GpioPort<T>,
    list: Seq<PinNumber>,
    pins: Set<int>,
    setting: PinSetting,
)
    requires
        before.in_use().len() == 16,
        pins_free(before.in_use(), pins),
        reserve(before.in_use(), list) is Ok,
        after.in_use() == reserve(before.in_use(), list)->Ok_0,
        reserved(before.in_use(), after.in_use(), pins),
        forall|q: PinNumber| #[trigger]
            after.pin_config(q) == (if list.contains(q) {
                apply_setting(setting, before.pin_config(q))
            } else {
                before.pin_config(q)
            }),
    ensures
        forall|q: PinNumber| #[trigger]
            after.pin_config(q) == (if pins.contains(pin_index(q) as int) {
                apply_setting(setting, before.pin_config(q))
            } else {
                before.pin_config(q)
            }),
{
    lemma_reserve_marks_exactly(before.in_use(), list);
    assert forall|q: PinNumber| #[trigger] list.contains(q) == pins.contains(pin_index(q) as int) by {
        lemma_pin_index_bound(q);
    }
}

/// Setting up the pins `list_pins` and then one more pin `pin` of a peripheral sets up all
/// its pins on `port`.
proof fn lemma_then_one_pin<T: RegisterBlockTrait>(
    before: GpioPort<T>,
    mid: GpioPort<T>,
    after: GpioPort<T>,
    list_pins: Set<int>,
    list_setting: PinSetting,
    pin: PinNumber,
    peripheral: Peripheral,
    port: Port,
)
    requires
        before.in_use().len() == 16,
        reserved(before.in_use(), mid.in_use(), list_pins),
        forall|q: PinNumber| #[trigger]
            mid.pin_config(q) == (if list_pins.contains(pin_index(q) as int) {
                apply_setting(list_setting, before.pin_config(q))
            } else {
                before.pin_config(q)
            }),
        !list_pins.contains(pin_index(pin) as int),
        after.in_use() == mid.in_use().update(pin_index(pin) as int, true),
        forall|q: PinNumber| #[trigger]
            after.pin_config(q) == (if q == pin {
                apply_setting(peripheral_setting(peripheral, port, pin), mid.pin_config(q))
            } else {
                mid.pin_config(q)
            }),
        peripheral_pins(peripheral, port) == list_pins.insert(pin_index(pin) as int),
        forall|q: PinNumber| #[trigger]
            list_pins.contains(pin_index(q) as int) ==> peripheral_setting(peripheral, port, q)
                == list_setting,
    ensures
        configured(before, after, peripheral, port),
{
    lemma_pin_index_bound(pin);
    assert forall|q: PinNumber| #[trigger]
        after.pin_config(q) == (if peripheral_pins(peripheral, port).contains(pin_index(q) as int) {
            apply_setting(peripheral_setting(peripheral, port, q), before.pin_config(q))
        } else {
            before.pin_config(q)
        }) by {
        lemma_pin_index_injective(q, pin);
        assert(mid.pin_config(q) == mid.pin_config(q));
        if list_pins.contains(pin_index(q) as int) {
            assert(peripheral_setting(peripheral, port, q) == list_setting);
        }
    }
}

/// Setting up the pins of the peripherals of [`init`] one after the other, each on pins that
/// are still free, leaves a port as [`set_up_by_init`] says.
proof fn lemma_init_port<T: RegisterBlockTrait>(
    s0: GpioPort<T>,
    s1: GpioPort<T>,
    s2: GpioPort<T>,
    s3: GpioPort<T>,
    s4: GpioPort<T>,
    s5: GpioPort<T>,
    s6: GpioPort<T>,
    s7: GpioPort<T>,
    port: Port,
)
    requires
        s0.in_use().len() == 16,
        pins_free(s0.in_use(), peripheral_pins(Peripheral::Board, port)),
        configured(s0, s1, Peripheral::Board, port),
        pins_free(s1.in_use(), peripheral_pins(Peripheral::Sdram, port)),
        configured(s1, s2, Peripheral::Sdram, port),
        pins_free(s2.in_use(), peripheral_pins(Peripheral::Lcd, port)),
        configured(s2, s3, Peripheral::Lcd, port),
        pins_free(s3.in_use(), peripheral_pins(Peripheral::I2c, port)),
        configured(s3, s4, Peripheral::I2c, port),
        pins_free(s4.in_use(), peripheral_pins(Peripheral::Sai2, port)),
        configured(s4, s5, Peripheral::Sai2, port),
        pins_free(s5.in_use(), peripheral_pins(Peripheral::Sd, port)),
        configured(s5, s6, Peripheral::Sd, port),
        pins_free(s6.in_use(), peripheral_pins(Peripheral::Ethernet, port)),
        configured(s6, s7, Peripheral::Ethernet, port),
    ensures
        set_up_by_init(s0, s7, port),
{
    assert forall|q: PinNumber| #[trigger]
        s7.pin_config(q) == match init_peripheral(port, q) {
            Some(peripheral) => apply_setting(
                peripheral_setting(peripheral, port, q),
                s0.pin_config(q),
            ),
            None => s0.pin_config(q),
        } by {
        lemma_pin_index_bound(q);
        let i = pin_index(q) as int;
        assert(s1.in_use()[i] == (s0.in_use()[i] || peripheral_pins(Peripheral::Board, port).contains(i)));
        assert(s2.in_use()[i] == (s1.in_use()[i] || peripheral_pins(Peripheral::Sdram, port).contains(i)));
        assert(s3.in_use()[i] == (s2.in_use()[i] || peripheral_pins(Peripheral::Lcd, port).contains(i)));
        assert(s4.in_use()[i] == (s3.in_use()[i] || peripheral_pins(Peripheral::I2c, port).contains(i)));
        assert(s5.in_use()[i] == (s4.in_use()[i] || peripheral_pins(Peripheral::Sai2, port).contains(i)));
        assert(s6.in_use()[i] == (s5.in_use()[i] || peripheral_pins(Peripheral::Sd, port).contains(i)));
        assert(s1.pin_config(q) == s1.pin_config(q));
        assert(s2.pin_config(q) == s2.pin_config(q));
        assert(s3.pin_config(q) == s3.pin_config(q));
        assert(s4.pin_config(q) == s4.pin_config(q));
        assert(s5.pin_config(q) == s5.pin_config(q));
        assert(s6.pin_config(q) == s6.pin_config(q));
    }
}

/// Initializes the pin mapping for all the peripherals.
///
/// Every pin that it reserves must be free in its port. No pin is mapped twice: each
/// reservation is proved to succeed. Afterwards each port has exactly the pins of
/// [`pins_used_by_init`] reserved, each set up as its peripheral needs
/// ([`peripheral_setting`]), and every other pin unchanged.
pub fn init<
    A: RegisterBlockTrait,
    B: RegisterBlockTrait,
    C: RegisterBlockTrait,
    D: RegisterBlockTrait,
    E: RegisterBlockTrait,
    F: RegisterBlockTrait,
    G: RegisterBlockTrait,
    H: RegisterBlockTrait,
    I: RegisterBlockTrait,
    J: RegisterBlockTrait,
    K: RegisterBlockTrait,
>(
    gpio_a: &mut GpioPort<A>,
    gpio_b: &mut GpioPort<B>,
    gpio_c: &mut GpioPort<C>,
    gpio_d: &mut GpioPort<D>,
    gpio_e: &mut GpioPort<E>,
    gpio_f: &mut GpioPort<F>,
    gpio_g: &mut GpioPort<G>,
    gpio_h: &mut GpioPort<H>,
    gpio_i: &mut GpioPort<I>,
    gpio_j: &mut GpioPort<J>,
    gpio_k: &mut GpioPort<K>,
) -> (r: Pins<
    OutputPinImpl<I::Odr, I::Bsrr>,
    InputPinImpl<I::Idr>,
    OutputPinImpl<I::Odr, I::Bsrr>,
    OutputPinImpl<K::Odr, K::Bsrr>,
    InputPinImpl<C::Idr>,
    InputPinImpl<H::Idr>,
>)
    requires
        pins_free(old(gpio_a).in_use(), pins_used_by_init(Port::PortA)),
        pins_free(old(gpio_b).in_use(), pins_used_by_init(Port::PortB)),
        pins_free(old(gpio_c).in_use(), pins_used_by_init(Port::PortC)),
        pins_free(old(gpio_d).in_use(), pins_used_by_init(Port::PortD)),
        pins_free(old(gpio_e).in_use(), pins_used_by_init(Port::PortE)),
        pins_free(old(gpio_f).in_use(), pins_used_by_init(Port::PortF)),
        pins_free(old(gpio_g).in_use(), pins_used_by_init(Port::PortG)),
        pins_free(old(gpio_h).in_use(), pins_used_by_init(Port::PortH)),
        pins_free(old(gpio_i).in_use(), pins_used_by_init(Port::PortI)),
        pins_free(old(gpio_j).in_use(), pins_used_by_init(Port::PortJ)),
        pins_free(old(gpio_k).in_use(), pins_used_by_init(Port::PortK)),
    ensures
        set_up_by_init(*old(gpio_a), *final(gpio_a), Port::PortA),
        set_up_by_init(*old(gpio_b), *final(gpio_b), Port::PortB),
        set_up_by_init(*old(gpio_c), *final(gpio_c), Port::PortC),
        set_up_by_init(*old(gpio_d), *final(gpio_d), Port::PortD),
        set_up_by_init(*old(gpio_e), *final(gpio_e), Port::PortE),
        set_up_by_init(*old(gpio_f), *final(gpio_f), Port::PortF),
        set_up_by_init(*old(gpio_g), *final(gpio_g), Port::PortG),
        set_up_by_init(*old(gpio_h), *final(gpio_h), Port::PortH),
        set_up_by_init(*old(gpio_i), *final(gpio_i), Port::PortI),
        set_up_by_init(*old(gpio_j), *final(gpio_j), Port::PortJ),
        set_up_by_init(*old(gpio_k), *final(gpio_k), Port::PortK),
        r.led.spec_pin() == PinNumber::Pin1,
        r.button.spec_pin() == PinNumber::Pin11,
        r.display_enable.spec_pin() == PinNumber::Pin12,
        r.backlight.spec_pin() == PinNumber::Pin3,
        r.sdcard_present.spec_pin() == PinNumber::Pin13,
        r.audio_in.spec_pin() == PinNumber::Pin15,
{
    proof {
        gpio_a.lemma_in_use_len();
        gpio_b.lemma_in_use_len();
        gpio_c.lemma_in_use_len();
        gpio_d.lemma_in_use_len();
        gpio_e.lemma_in_use_len();
        gpio_f.lemma_in_use_len();
        gpio_g.lemma_in_use_len();
        gpio_h.lemma_in_use_len();
        gpio_i.lemma_in_use_len();
        gpio_j.lemma_in_use_len();
        gpio_k.lemma_in_use_len();
    }
    let ghost i0 = *gpio_i;
    let ghost a_0 = *gpio_a;
    let ghost b_0 = *gpio_b;
    let ghost c_0 = *gpio_c;
    let ghost d_0 = *gpio_d;
    let ghost e_0 = *gpio_e;
    let ghost f_0 = *gpio_f;
    let ghost g_0 = *gpio_g;
    let ghost h_0 = *gpio_h;
    let ghost i_0 = *gpio_i;
    let ghost j_0 = *gpio_j;
    let ghost k_0 = *gpio_k;

    let led = gpio_i.to_output(
        PinNumber::Pin1,
        OutputType::PushPull,
        OutputSpeed::Low,
        Resistor::NoPull,
    ).expect("Pin I-1 already in use");
    let button = gpio_i.to_input(PinNumber::Pin11, Resistor::NoPull).expect(
        "Pin I-11 already in use",
    );
    let _lcd_int = gpio_i.to_input(PinNumber::Pin13, Resistor::NoPull).expect(
        "Pin I-13 already in use",
    );
    proof {
        assert forall|q: PinNumber| #[trigger]
            gpio_i.pin_config(q) == (if peripheral_pins(Peripheral::Board, Port::PortI).contains(
                pin_index(q) as int,
            ) {
                apply_setting(peripheral_setting(Peripheral::Board, Port::PortI, q), i0.pin_config(q))
            } else {
                i0.pin_config(q)
            }) by {
            lemma_pin_index_injective(q, PinNumber::Pin1);
            lemma_pin_index_injective(q, PinNumber::Pin11);
            lemma_pin_index_injective(q, PinNumber::Pin13);
        }
        assert(configured(i0, *gpio_i, Peripheral::Board, Port::PortI));
    }
    let ghost i_1 = *gpio_i;

    init_sdram_pins(
        gpio_b,
        gpio_c,
        gpio_d,
        gpio_e,
        gpio_f,
        gpio_g,
        gpio_h,
    );
    let ghost b_2 = *gpio_b;
    let ghost c_2 = *gpio_c;
    let ghost d_2 = *gpio_d;
    let ghost e_2 = *gpio_e;
    let ghost f_2 = *gpio_f;
    let ghost g_2 = *gpio_g;
    let ghost h_2 = *gpio_h;
    let (display_enable, backlight) = init_lcd_pins(
        gpio_e,
        gpio_g,
        gpio_i,
        gpio_j,
        gpio_k,
    );
    let ghost e_3 = *gpio_e;
    let ghost g_3 = *gpio_g;
    let ghost i_3 = *gpio_i;
    let ghost j_3 = *gpio_j;
    let ghost k_3 = *gpio_k;
    init_i2c_pins(gpio_b, gpio_d, gpio_h);
    let ghost b_4 = *gpio_b;
    let ghost d_4 = *gpio_d;
    let ghost h_4 = *gpio_h;
    let audio_in = init_sai2_pins(gpio_g, gpio_h, gpio_i);
    let ghost g_5 = *gpio_g;
    let ghost h_5 = *gpio_h;
    let ghost i_5 = *gpio_i;
    let sdcard_present = init_sd_pins(gpio_b, gpio_c, gpio_d);
    let ghost b_6 = *gpio_b;
    let ghost c_6 = *gpio_c;
    let ghost d_6 = *gpio_d;
    init_ethernet_pins(gpio_a, gpio_c, gpio_g);
    let ghost a_7 = *gpio_a;
    let ghost c_7 = *gpio_c;
    let ghost g_7 = *gpio_g;

    proof {
        lemma_init_port(a_0, a_0, a_0, a_0, a_0, a_0, a_0, a_7, Port::PortA);
        lemma_init_port(b_0, b_0, b_2, b_2, b_4, b_4, b_6, b_6, Port::PortB);
        lemma_init_port(c_0, c_0, c_2, c_2, c_2, c_2, c_6, c_7, Port::PortC);
        lemma_init_port(d_0, d_0, d_2, d_2, d_4, d_4, d_6, d_6, Port::PortD);
        lemma_init_port(e_0, e_0, e_2, e_3, e_3, e_3, e_3, e_3, Port::PortE);
        lemma_init_port(f_0, f_0, f_2, f_2, f_2, f_2, f_2, f_2, Port::PortF);
        lemma_init_port(g_0, g_0, g_2, g_3, g_3, g_5, g_5, g_7, Port::PortG);
        lemma_init_port(h_0, h_0, h_2, h_2, h_4, h_5, h_5, h_5, Port::PortH);
        lemma_init_port(i_0, i_1, i_1, i_3, i_3, i_5, i_5, i_5, Port::PortI);
        lemma_init_port(j_0, j_0, j_0, j_3, j_3, j_3, j_3, j_3, Port::PortJ);
        lemma_init_port(k_0, k_0, k_0, k_3, k_3, k_3, k_3, k_3, Port::PortK);
    }

    Pins { led, button, display_enable, backlight, sdcard_present, audio_in }
}

/// Reserves the SDRAM pins: alternate function 12, push-pull, high speed, pull-up.
fn init_sdram_pins<B: RegisterBlockTrait, C: RegisterBlockTrait, D: RegisterBlockTrait, E: RegisterBlockTrait, F: RegisterBlockTrait, G: RegisterBlockTrait, H: RegisterBlockTrait>(
    gpio_b: &mut GpioPort<B>,
    gpio_c: &mut GpioPort<C>,
    gpio_d: &mut GpioPort<D>,
    gpio_e: &mut GpioPort<E>,
    gpio_f: &mut GpioPort<F>,
    gpio_g: &mut GpioPort<G>,
    gpio_h: &mut GpioPort<H>,
)
    requires
        pins_free(old(gpio_b).in_use(), peripheral_pins(Peripheral::Sdram, Port::PortB)),
        pins_free(old(gpio_c).in_use(), peripheral_pins(Peripheral::Sdram, Port::PortC)),
        pins_free(old(gpio_d).in_use(), peripheral_pins(Peripheral::Sdram, Port::PortD)),
        pins_free(old(gpio_e).in_use(), peripheral_pins(Peripheral::Sdram, Port::PortE)),
        pins_free(old(gpio_f).in_use(), peripheral_pins(Peripheral::Sdram, Port::PortF)),
        pins_free(old(gpio_g).in_use(), peripheral_pins(Peripheral::Sdram, Port::PortG)),
        pins_free(old(gpio_h).in_use(), peripheral_pins(Peripheral::Sdram, Port::PortH)),
    ensures
        configured(*old(gpio_b), *final(gpio_b), Peripheral::Sdram, Port::PortB),
        configured(*old(gpio_c), *final(gpio_c), Peripheral::Sdram, Port::PortC),
        configured(*old(gpio_d), *final(gpio_d), Peripheral::Sdram, Port::PortD),
        configured(*old(gpio_e), *final(gpio_e), Peripheral::Sdram, Port::PortE),
        configured(*old(gpio_f), *final(gpio_f), Peripheral::Sdram, Port::PortF),
        configured(*old(gpio_g), *final(gpio_g), Peripheral::Sdram, Port::PortG),
        configured(*old(gpio_h), *final(gpio_h), Peripheral::Sdram, Port::PortH),
{
    proof {
        gpio_b.lemma_in_use_len();
        gpio_c.lemma_in_use_len();
        gpio_d.lemma_in_use_len();
        gpio_e.lemma_in_use_len();
        gpio_f.lemma_in_use_len();
        gpio_g.lemma_in_use_len();
        gpio_h.lemma_in_use_len();
    }
    let alt_fn = AlternateFunction::AF12;
    let speed = OutputSpeed::High;
    let typ = OutputType::PushPull;
    let res = Resistor::PullUp;

    let b_pins = [
        PinNumber::Pin5, // sdcke1
    ];
    let c_pins = [
        PinNumber::Pin3, // sdcke0
    ];
    let d_pins = [
        PinNumber::Pin14, // d0
        PinNumber::Pin15, // d1
        PinNumber::Pin0, // d2
        PinNumber::Pin1, // d3
        PinNumber::Pin8, // d13
        PinNumber::Pin9, // d14
        PinNumber::Pin10, // d15
    ];
    let e_pins = [
        PinNumber::Pin7, // d4
        PinNumber::Pin8, // d5
        PinNumber::Pin9, // d6
        PinNumber::Pin10, // d7
        PinNumber::Pin11, // d8
        PinNumber::Pin12, // d9
        PinNumber::Pin13, // d10
        PinNumber::Pin14, // d11
        PinNumber::Pin15, // d12
    ];
    let f_pins = [
        PinNumber::Pin0, // a0
        PinNumber::Pin1, // a1
        PinNumber::Pin2, // a2
        PinNumber::Pin3, // a3
        PinNumber::Pin4, // a4
        PinNumber::Pin5, // a5
        PinNumber::Pin12, // a6
        PinNumber::Pin13, // a7
        PinNumber::Pin14, // a8
        PinNumber::Pin15, // a9
        PinNumber::Pin11, // nras
    ];
    let g_pins = [
        PinNumber::Pin0, // a10
        PinNumber::Pin1, // a11
        PinNumber::Pin2, // a12
        PinNumber::Pin4, // ba0
        PinNumber::Pin5, // ba1
        PinNumber::Pin8, // sdclk
        PinNumber::Pin15, // ncas
    ];
    let h_pins = [
        PinNumber::Pin3, // sdne0
        PinNumber::Pin6, // sdne1
        PinNumber::Pin5, // sdnwe
    ];

    proof {
        reveal_with_fuel(reserve, 12);
    }
    let ghost b0 = *gpio_b;
    gpio_b.to_alternate_function_all(b_pins.as_slice(), alt_fn, typ, speed, res).expect(
        "failed to reserve SDRAM GPIO B pins",
    );
    proof {
        lemma_list_configures_pins(
            b0,
            *gpio_b,
            b_pins@,
            peripheral_pins(Peripheral::Sdram, Port::PortB),
            PinSetting::Alternate(alt_fn, typ, speed, res),
        );
    }
    let ghost c0 = *gpio_c;
    gpio_c.to_alternate_function_all(c_pins.as_slice(), alt_fn, typ, speed, res).expect(
        "failed to reserve SDRAM GPIO C pins",
    );
    proof {
        lemma_list_configures_pins(
            c0,
            *gpio_c,
            c_pins@,
            peripheral_pins(Peripheral::Sdram, Port::PortC),
            PinSetting::Alternate(alt_fn, typ, speed, res),
        );
    }
    let ghost d0 = *gpio_d;
    gpio_d.to_alternate_function_all(d_pins.as_slice(), alt_fn, typ, speed, res).expect(
        "failed to reserve SDRAM GPIO D pins",
    );
    proof {
        lemma_list_configures_pins(
            d0,
            *gpio_d,
            d_pins@,
            peripheral_pins(Peripheral::Sdram, Port::PortD),
            PinSetting::Alternate(alt_fn, typ, speed, res),
        );
    }
    let ghost e0 = *gpio_e;
    gpio_e.to_alternate_function_all(e_pins.as_slice(), alt_fn, typ, speed, res).expect(
        "failed to reserve SDRAM GPIO E pins",
    );
    proof {
        lemma_list_configures_pins(
            e0,
            *gpio_e,
            e_pins@,
            peripheral_pins(Peripheral::Sdram, Port::PortE),
            PinSetting::Alternate(alt_fn, typ, speed, res),
        );
    }
    let ghost f0 = *gpio_f;
    gpio_f.to_alternate_function_all(f_pins.as_slice(), alt_fn, typ, speed, res).expect(
        "failed to reserve SDRAM GPIO F pins",
    );
    proof {
        lemma_list_configures_pins(
            f0,
            *gpio_f,
            f_pins@,
            peripheral_pins(Peripheral::Sdram, Port::PortF),
            PinSetting::Alternate(alt_fn, typ, speed, res),
        );
    }
    let ghost g0 = *gpio_g;
    gpio_g.to_alternate_function_all(g_pins.as_slice(), alt_fn, typ, speed, res).expect(
        "failed to reserve SDRAM GPIO G pins",
    );
    proof {
        lemma_list_configures_pins(
            g0,
            *gpio_g,
            g_pins@,
            peripheral_pins(Peripheral::Sdram, Port::PortG),
            PinSetting::Alternate(alt_fn, typ, speed, res),
        );
    }
    let ghost h0 = *gpio_h;
    gpio_h.to_alternate_function_all(h_pins.as_slice(), alt_fn, typ, speed, res).expect(
        "failed to reserve SDRAM GPIO H pins",
    );
    proof {
        lemma_list_configures_pins(
            h0,
            *gpio_h,
            h_pins@,
            peripheral_pins(Peripheral::Sdram, Port::PortH),
            PinSetting::Alternate(alt_fn, typ, speed, res),
        );
    }
}

/// Reserves the LCD pins (alternate function 14, push-pull, high speed, no pull resistor)
/// and the display enable and backlight outputs.
fn init_lcd_pins<E: RegisterBlockTrait, G: RegisterBlockTrait, I: RegisterBlockTrait, J: RegisterBlockTrait, K: RegisterBlockTrait>(
    gpio_e: &mut GpioPort<E>,
    gpio_g: &mut GpioPort<G>,
    gpio_i: &mut GpioPort<I>,
    gpio_j: &mut GpioPort<J>,
    gpio_k: &mut GpioPort<K>,
) -> (r: (OutputPinImpl<I::Odr, I::Bsrr>, OutputPinImpl<K::Odr, K::Bsrr>))
    requires
        pins_free(old(gpio_e).in_use(), peripheral_pins(Peripheral::Lcd, Port::PortE)),
        pins_free(old(gpio_g).in_use(), peripheral_pins(Peripheral::Lcd, Port::PortG)),
        pins_free(old(gpio_i).in_use(), peripheral_pins(Peripheral::Lcd, Port::PortI)),
        pins_free(old(gpio_j).in_use(), peripheral_pins(Peripheral::Lcd, Port::PortJ)),
        pins_free(old(gpio_k).in_use(), peripheral_pins(Peripheral::Lcd, Port::PortK)),
    ensures
        configured(*old(gpio_e), *final(gpio_e), Peripheral::Lcd, Port::PortE),
        configured(*old(gpio_g), *final(gpio_g), Peripheral::Lcd, Port::PortG),
        configured(*old(gpio_i), *final(gpio_i), Peripheral::Lcd, Port::PortI),
        configured(*old(gpio_j), *final(gpio_j), Peripheral::Lcd, Port::PortJ),
        configured(*old(gpio_k), *final(gpio_k), Peripheral::Lcd, Port::PortK),
        r.0.spec_pin() == PinNumber::Pin12,
        r.1.spec_pin() == PinNumber::Pin3,
{
    proof {
        gpio_e.lemma_in_use_len();
        gpio_g.lemma_in_use_len();
        gpio_i.lemma_in_use_len();
        gpio_j.lemma_in_use_len();
        gpio_k.lemma_in_use_len();
    }
    let alt_fn = AlternateFunction::AF14;
    let speed = OutputSpeed::High;
    let typ = OutputType::PushPull;
    let res = Resistor::NoPull;

    let e_pins = [
        PinNumber::Pin4, // b0
    ];
    let g_pins = [
        PinNumber::Pin12, // b4
    ];
    let i_pins = [
        PinNumber::Pin15, // r0
        PinNumber::Pin14, // clk
        PinNumber::Pin10, // hsync
        PinNumber::Pin9, // vsync
    ];
    let j_pins = [
        PinNumber::Pin0, // r1
        PinNumber::Pin1, // r2
        PinNumber::Pin2, // r3
        PinNumber::Pin3, // r4
        PinNumber::Pin4, // r5
        PinNumber::Pin5, // r6
        PinNumber::Pin6, // r7
        PinNumber::Pin7, // g0
        PinNumber::Pin8, // g1
        PinNumber::Pin9, // g2
        PinNumber::Pin10, // g3
        PinNumber::Pin11, // g4
        PinNumber::Pin13, // b1
        PinNumber::Pin14, // b2
        PinNumber::Pin15, // b3
    ];
    let k_pins = [
        PinNumber::Pin0, // g5
        PinNumber::Pin1, // g6
        PinNumber::Pin2, // g7
        PinNumber::Pin4, // b5
        PinNumber::Pin5, // b6
        PinNumber::Pin6, // b7
        PinNumber::Pin7, // data_enable
    ];

    proof {
        reveal_with_fuel(reserve, 16);
    }
    let ghost e0 = *gpio_e;
    gpio_e.to_alternate_function_all(e_pins.as_slice(), alt_fn, typ, speed, res).expect(
        "Failed to reserve LCD GPIO E pins",
    );
    proof {
        lemma_list_configures_pins(
            e0,
            *gpio_e,
            e_pins@,
            peripheral_pins(Peripheral::Lcd, Port::PortE),
            PinSetting::Alternate(alt_fn, typ, speed, res),
        );
    }
    let ghost g0 = *gpio_g;
    gpio_g.to_alternate_function_all(g_pins.as_slice(), alt_fn, typ, speed, res).expect(
        "Failed to reserve LCD GPIO G pins",
    );
    proof {
        lemma_list_configures_pins(
            g0,
            *gpio_g,
            g_pins@,
            peripheral_pins(Peripheral::Lcd, Port::PortG),
            PinSetting::Alternate(alt_fn, typ, speed, res),
        );
    }
    let ghost i0 = *gpio_i;
    gpio_i.to_alternate_function_all(i_pins.as_slice(), alt_fn, typ, speed, res).expect(
        "Failed to reserve LCD GPIO I pins",
    );
    proof {
        lemma_list_configures_pins(
            i0,
            *gpio_i,
            i_pins@,
            set![15int, 14, 10, 9],
            PinSetting::Alternate(alt_fn, typ, speed, res),
        );
    }
    let ghost i1 = *gpio_i;
    let ghost j0 = *gpio_j;
    gpio_j.to_alternate_function_all(j_pins.as_slice(), alt_fn, typ, speed, res).expect(
        "Failed to reserve LCD GPIO J pins",
    );
    proof {
        lemma_list_configures_pins(
            j0,
            *gpio_j,
            j_pins@,
            peripheral_pins(Peripheral::Lcd, Port::PortJ),
            PinSetting::Alternate(alt_fn, typ, speed, res),
        );
    }
    let ghost k0 = *gpio_k;
    gpio_k.to_alternate_function_all(k_pins.as_slice(), alt_fn, typ, speed, res).expect(
        "Failed to reserve LCD GPIO K pins",
    );
    proof {
        lemma_list_configures_pins(
            k0,
            *gpio_k,
            k_pins@,
            set![0int, 1, 2, 4, 5, 6, 7],
            PinSetting::Alternate(alt_fn, typ, speed, res),
        );
    }
    let ghost k1 = *gpio_k;

    let display_enable = gpio_i.to_output(
        PinNumber::Pin12,
        OutputType::PushPull,
        OutputSpeed::Low,
        Resistor::PullDown,
    ).expect("Failed to reserve LCD display enable pin");
    let backlight = gpio_k.to_output(
        PinNumber::Pin3,
        OutputType::PushPull,
        OutputSpeed::Low,
        Resistor::PullDown,
    ).expect("Failed to reserve LCD backlight pin");
    proof {
        assert(peripheral_pins(Peripheral::Lcd, Port::PortI) =~= set![15int, 14, 10, 9].insert(12));
        lemma_then_one_pin(
            i0,
            i1,
            *gpio_i,
            set![15int, 14, 10, 9],
            PinSetting::Alternate(alt_fn, typ, speed, res),
            PinNumber::Pin12,
            Peripheral::Lcd,
            Port::PortI,
        );
        assert(peripheral_pins(Peripheral::Lcd, Port::PortK) =~= set![0int, 1, 2, 4, 5, 6, 7].insert(
            3,
        ));
        lemma_then_one_pin(
            k0,
            k1,
            *gpio_k,
            set![0int, 1, 2, 4, 5, 6, 7],
            PinSetting::Alternate(alt_fn, typ, speed, res),
            PinNumber::Pin3,
            Peripheral::Lcd,
            Port::PortK,
        );
    }
    (display_enable, backlight)
}

/// Reserves the I2C pins: alternate function 4, open drain, medium speed, pull-up.
fn init_i2c_pins<B: RegisterBlockTrait, D: RegisterBlockTrait, H: RegisterBlockTrait>(
    gpio_b: &mut GpioPort<B>,
    gpio_d: &mut GpioPort<D>,
    gpio_h: &mut GpioPort<H>,
)
    requires
        pins_free(old(gpio_b).in_use(), peripheral_pins(Peripheral::I2c, Port::PortB)),
        pins_free(old(gpio_d).in_use(), peripheral_pins(Peripheral::I2c, Port::PortD)),
        pins_free(old(gpio_h).in_use(), peripheral_pins(Peripheral::I2c, Port::PortH)),
    ensures
        configured(*old(gpio_b), *final(gpio_b), Peripheral::I2c, Port::PortB),
        configured(*old(gpio_d), *final(gpio_d), Peripheral::I2c, Port::PortD),
        configured(*old(gpio_h), *final(gpio_h), Peripheral::I2c, Port::PortH),
{
    proof {
        gpio_b.lemma_in_use_len();
        gpio_d.lemma_in_use_len();
        gpio_h.lemma_in_use_len();
        reveal_with_fuel(reserve, 5);
    }
    let alt_fn = AlternateFunction::AF4;
    let speed = OutputSpeed::Medium;
    let typ = OutputType::OpenDrain;
    let res = Resistor::PullUp;

    let b_pins = [
        PinNumber::Pin6, // i2c1_scl
        PinNumber::Pin7, // i2c1_sda
        PinNumber::Pin10, // i2c2_scl
        PinNumber::Pin11, // i2c2_sda
    ];
    let d_pins = [
        PinNumber::Pin13, // i2c4_sda
    ];
    let h_pins = [
        PinNumber::Pin7, // i2c3_scl
        PinNumber::Pin8, // i2c3_sda
        PinNumber::Pin11, // i2c4_scl
    ];

    let ghost b0 = *gpio_b;
    gpio_b.to_alternate_function_all(b_pins.as_slice(), alt_fn, typ, speed, res).expect(
        "Failed to reserve I2C GPIO B pins",
    );
    proof {
        lemma_list_configures_pins(
            b0,
            *gpio_b,
            b_pins@,
            peripheral_pins(Peripheral::I2c, Port::PortB),
            PinSetting::Alternate(alt_fn, typ, speed, res),
        );
    }
    let ghost d0 = *gpio_d;
    gpio_d.to_alternate_function_all(d_pins.as_slice(), alt_fn, typ, speed, res).expect(
        "Failed to reserve I2C GPIO D pins",
    );
    proof {
        lemma_list_configures_pins(
            d0,
            *gpio_d,
            d_pins@,
            peripheral_pins(Peripheral::I2c, Port::PortD),
            PinSetting::Alternate(alt_fn, typ, speed, res),
        );
    }
    let ghost h0 = *gpio_h;
    gpio_h.to_alternate_function_all(h_pins.as_slice(), alt_fn, typ, speed, res).expect(
        "Failed to reserve I2C GPIO H pins",
    );
    proof {
        lemma_list_configures_pins(
            h0,
            *gpio_h,
            h_pins@,
            peripheral_pins(Peripheral::I2c, Port::PortH),
            PinSetting::Alternate(alt_fn, typ, speed, res),
        );
    }
}

/// Reserves the SAI2 pins (alternate function 10, push-pull, high speed, no pull resistor)
/// and the audio input.
fn init_sai2_pins<G: RegisterBlockTrait, H: RegisterBlockTrait, I: RegisterBlockTrait>(
    gpio_g: &mut GpioPort<G>,
    gpio_h: &mut GpioPort<H>,
    gpio_i: &mut GpioPort<I>,
) -> (r: InputPinImpl<H::Idr>)
    requires
        pins_free(old(gpio_g).in_use(), peripheral_pins(Peripheral::Sai2, Port::PortG)),
        pins_free(old(gpio_h).in_use(), peripheral_pins(Peripheral::Sai2, Port::PortH)),
        pins_free(old(gpio_i).in_use(), peripheral_pins(Peripheral::Sai2, Port::PortI)),
    ensures
        configured(*old(gpio_g), *final(gpio_g), Peripheral::Sai2, Port::PortG),
        configured(*old(gpio_h), *final(gpio_h), Peripheral::Sai2, Port::PortH),
        configured(*old(gpio_i), *final(gpio_i), Peripheral::Sai2, Port::PortI),
        r.spec_pin() == PinNumber::Pin15,
{
    proof {
        gpio_g.lemma_in_use_len();
        gpio_h.lemma_in_use_len();
        gpio_i.lemma_in_use_len();
        reveal_with_fuel(reserve, 5);
    }
    let alt_fn = AlternateFunction::AF10;
    let speed = OutputSpeed::High;
    let typ = OutputType::PushPull;
    let res = Resistor::NoPull;

    // block A (master)
    let i_pins = [
        PinNumber::Pin7, // sai2_fs_a
        PinNumber::Pin5, // sai2_sck_a
        PinNumber::Pin6, // sai2_sd_a
        PinNumber::Pin4, // sai2_mclk_a
    ];
    // block B (synchronous slave)
    let g_pins = [
        PinNumber::Pin10, // sai2_sd_b
    ];

    let ghost i0 = *gpio_i;
    gpio_i.to_alternate_function_all(i_pins.as_slice(), alt_fn, typ, speed, res).expect(
        "Failed to reserve SAI2 GPIO I pins",
    );
    proof {
        lemma_list_configures_pins(
            i0,
            *gpio_i,
            i_pins@,
            peripheral_pins(Peripheral::Sai2, Port::PortI),
            PinSetting::Alternate(alt_fn, typ, speed, res),
        );
    }
    let ghost g0 = *gpio_g;
    gpio_g.to_alternate_function_all(g_pins.as_slice(), alt_fn, typ, speed, res).expect(
        "Failed to reserve SAI2 GPIO G pins",
    );
    proof {
        lemma_list_configures_pins(
            g0,
            *gpio_g,
            g_pins@,
            peripheral_pins(Peripheral::Sai2, Port::PortG),
            PinSetting::Alternate(alt_fn, typ, speed, res),
        );
    }

    let ghost h0 = *gpio_h;
    let audio_in = gpio_h.to_input(PinNumber::Pin15, Resistor::NoPull).expect(
        "Failed to reserve SAI2 audio in pin",
    );
    proof {
        assert(peripheral_pins(Peripheral::Sai2, Port::PortH) =~= Set::<int>::empty().insert(15));
        lemma_then_one_pin(
            h0,
            h0,
            *gpio_h,
            Set::empty(),
            PinSetting::Input(Resistor::NoPull),
            PinNumber::Pin15,
            Peripheral::Sai2,
            Port::PortH,
        );
    }
    audio_in
}

/// Reserves the SD card pins (alternate function 12, push-pull, high speed, pull-up) and the
/// card present input.
fn init_sd_pins<B: RegisterBlockTrait, C: RegisterBlockTrait, D: RegisterBlockTrait>(
    gpio_b: &mut GpioPort<B>,
    gpio_c: &mut GpioPort<C>,
    gpio_d: &mut GpioPort<D>,
) -> (r: InputPinImpl<C::Idr>)
    requires
        pins_free(old(gpio_b).in_use(), peripheral_pins(Peripheral::Sd, Port::PortB)),
        pins_free(old(gpio_c).in_use(), peripheral_pins(Peripheral::Sd, Port::PortC)),
        pins_free(old(gpio_d).in_use(), peripheral_pins(Peripheral::Sd, Port::PortD)),
    ensures
        configured(*old(gpio_b), *final(gpio_b), Peripheral::Sd, Port::PortB),
        configured(*old(gpio_c), *final(gpio_c), Peripheral::Sd, Port::PortC),
        configured(*old(gpio_d), *final(gpio_d), Peripheral::Sd, Port::PortD),
        r.spec_pin() == PinNumber::Pin13,
{
    proof {
        gpio_b.lemma_in_use_len();
        gpio_c.lemma_in_use_len();
        gpio_d.lemma_in_use_len();
        reveal_with_fuel(reserve, 8);
    }
    let alt_fn = AlternateFunction::AF12;
    let speed = OutputSpeed::High;
    let typ = OutputType::PushPull;
    let res = Resistor::PullUp;

    // dx = data ports. For Default Bus mode only d0 is needed.
    let b_pins = [
        PinNumber::Pin8, // d4
        PinNumber::Pin9, // d5
    ];
    let c_pins = [
        PinNumber::Pin8, // d0
        PinNumber::Pin9, // d1
        PinNumber::Pin10, // d2
        PinNumber::Pin11, // d3
        PinNumber::Pin6, // d6
        PinNumber::Pin7, // d7
        PinNumber::Pin12, // ck (clock)
    ];
    let d_pins = [
        PinNumber::Pin2, // cmd
    ];

    let ghost b0 = *gpio_b;
    gpio_b.to_alternate_function_all(b_pins.as_slice(), alt_fn, typ, speed, res).expect(
        "Failed to reserve SD card GPIO B pins",
    );
    proof {
        lemma_list_configures_pins(
            b0,
            *gpio_b,
            b_pins@,
            peripheral_pins(Peripheral::Sd, Port::PortB),
            PinSetting::Alternate(alt_fn, typ, speed, res),
        );
    }
    let ghost c0 = *gpio_c;
    gpio_c.to_alternate_function_all(c_pins.as_slice(), alt_fn, typ, speed, res).expect(
        "Failed to reserve SD card GPIO C pins",
    );
    proof {
        lemma_list_configures_pins(
            c0,
            *gpio_c,
            c_pins@,
            set![8int, 9, 10, 11, 6, 7, 12],
            PinSetting::Alternate(alt_fn, typ, speed, res),
        );
    }
    let ghost c1 = *gpio_c;
    let ghost d0 = *gpio_d;
    gpio_d.to_alternate_function_all(d_pins.as_slice(), alt_fn, typ, speed, res).expect(
        "Failed to reserve SD card GPIO D pins",
    );
    proof {
        lemma_list_configures_pins(
            d0,
            *gpio_d,
            d_pins@,
            peripheral_pins(Peripheral::Sd, Port::PortD),
            PinSetting::Alternate(alt_fn, typ, speed, res),
        );
    }

    let sdcard_present = gpio_c.to_input(PinNumber::Pin13, Resistor::PullUp).expect(
        "Failed to reserve SD card present pin",
    );
    proof {
        assert(peripheral_pins(Peripheral::Sd, Port::PortC) =~= set![8int, 9, 10, 11, 6, 7, 12].insert(
            13,
        ));
        lemma_then_one_pin(
            c0,
            c1,
            *gpio_c,
            set![8int, 9, 10, 11, 6, 7, 12],
            PinSetting::Alternate(alt_fn, typ, speed, res),
            PinNumber::Pin13,
            Peripheral::Sd,
            Port::PortC,
        );
    }
    sdcard_present
}

/// Reserves the Ethernet (RMII) pins: alternate function 11, push-pull, high speed, no pull
/// resistor.
fn init_ethernet_pins<A: RegisterBlockTrait, C: RegisterBlockTrait, G: RegisterBlockTrait>(
    gpio_a: &mut GpioPort<A>,
    gpio_c: &mut GpioPort<C>,
    gpio_g: &mut GpioPort<G>,
)
    requires
        pins_free(old(gpio_a).in_use(), peripheral_pins(Peripheral::Ethernet, Port::PortA)),
        pins_free(old(gpio_c).in_use(), peripheral_pins(Peripheral::Ethernet, Port::PortC)),
        pins_free(old(gpio_g).in_use(), peripheral_pins(Peripheral::Ethernet, Port::PortG)),
    ensures
        configured(*old(gpio_a), *final(gpio_a), Peripheral::Ethernet, Port::PortA),
        configured(*old(gpio_c), *final(gpio_c), Peripheral::Ethernet, Port::PortC),
        configured(*old(gpio_g), *final(gpio_g), Peripheral::Ethernet, Port::PortG),
{
    proof {
        gpio_a.lemma_in_use_len();
        gpio_c.lemma_in_use_len();
        gpio_g.lemma_in_use_len();
        reveal_with_fuel(reserve, 4);
    }
    let alt_fn = AlternateFunction::AF11;
    let speed = OutputSpeed::High;
    let typ = OutputType::PushPull;
    let res = Resistor::NoPull;

    // RMII pins
    let a_pins = [
        PinNumber::Pin1, // ref_clk
        PinNumber::Pin2, // mdio
        PinNumber::Pin7, // crsdv
    ];
    let c_pins = [
        PinNumber::Pin1, // mdc
        PinNumber::Pin4, // rxd0
        PinNumber::Pin5, // rxd1
    ];
    let g_pins = [
        PinNumber::Pin11, // tx_en
        PinNumber::Pin13, // txd0
        PinNumber::Pin14, // txd1
    ];

    let ghost a0 = *gpio_a;
    gpio_a.to_alternate_function_all(a_pins.as_slice(), alt_fn, typ, speed, res).expect(
        "Failed to reserve ethernet GPIO A pins",
    );
    proof {
        lemma_list_configures_pins(
            a0,
            *gpio_a,
            a_pins@,
            peripheral_pins(Peripheral::Ethernet, Port::PortA),
            PinSetting::Alternate(alt_fn, typ, speed, res),
        );
    }
    let ghost c0 = *gpio_c;
    gpio_c.to_alternate_function_all(c_pins.as_slice(), alt_fn, typ, speed, res).expect(
        "Failed to reserve ethernet GPIO C pins",
    );
    proof {
        lemma_list_configures_pins(
            c0,
            *gpio_c,
            c_pins@,
            peripheral_pins(Peripheral::Ethernet, Port::PortC),
            PinSetting::Alternate(alt_fn, typ, speed, res),
        );
    }
    let ghost g0 = *gpio_g;
    gpio_g.to_alternate_function_all(g_pins.as_slice(), alt_fn, typ, speed, res).expect(
        "Failed to reserve ethernet GPIO G pins",
    );
    proof {
        lemma_list_configures_pins(
            g0,
            *gpio_g,
            g_pins@,
            peripheral_pins(Peripheral::Ethernet, Port::PortG),
            PinSetting::Alternate(alt_fn, typ, speed, res),
        );
    }
}

} // verus!
