//! GPIO ports: reserving pins and configuring them through the port's registers.

use super::{
    AlternateFunction, Error, InputPin, Mode, OutputPin, OutputSpeed, OutputType, PinConfig,
    PinNumber, PinSetting, Resistor, apply_setting, lemma_pin_index_bound,
    lemma_pin_index_injective, pin_index,
};
use vstd::prelude::*;

verus! {

/// Reads the input data register (IDR) of a port.
pub trait IdrTrait {
    /// Whether reading pin `pin` can give `value`: the implementation's account of the
    /// register (the hardware may change it between reads).
    spec fn reads(&self, pin: PinNumber, value: bool) -> bool;

    /// Returns the input value of the specified pin.
    fn get(&self, pin: PinNumber) -> (r: bool)
        ensures
            self.reads(pin, r),
    ;
}

/// Reads the output data register (ODR) of a port.
pub trait OdrTrait {
    /// Whether reading pin `pin` can give `value`: the implementation's account of the
    /// register.
    spec fn reads(&self, pin: PinNumber, value: bool) -> bool;

    /// Returns the output value of the specified pin.
    fn get(&self, pin: PinNumber) -> (r: bool)
        ensures
            self.reads(pin, r),
    ;
}

/// Writes the bit set and reset register (BSRR) of a port.
pub trait BsrrTrait {
    /// Whether the last write through this handle set pin `pin` to `value`.
    spec fn written(&self, pin: PinNumber, value: bool) -> bool;

    /// Sets the output value of the specified pin; the other pins keep their value.
    fn write_pin(&mut self, pin: PinNumber, value: bool)
        ensures
            final(self).written(pin, value),
    ;
}

/// Access to the configuration and data registers of a GPIO port.
pub trait RegisterBlockTrait {
    /// The handle of the input data register.
    type Idr: IdrTrait;
    /// The handle of the output data register.
    type Odr: OdrTrait;
    /// The handle of the bit set/reset register.
    type Bsrr: BsrrTrait;

    /// The input data register.
    fn idr(&self) -> Self::Idr;
    /// The output data register.
    fn odr(&self) -> Self::Odr;
    /// The bit set/reset register.
    fn bsrr(&self) -> Self::Bsrr;
    /// The configuration of pin `pin` in the registers.
    spec fn pin_config(&self, pin: PinNumber) -> PinConfig;

    /// Sets the mode of the given pins; the other pins and fields keep their value.
    fn set_mode(&mut self, pins: &[PinNumber], mode: Mode)
        ensures
            forall|p: PinNumber| #[trigger] final(self).pin_config(p) == (if pins@.contains(p) {
                old(self).pin_config(p).with_mode(mode)
            } else {
                old(self).pin_config(p)
            }),
    ;

    /// Sets the pull-up/pull-down resistor of the given pins; the other pins and fields keep
    /// their value.
    fn set_resistor(&mut self, pins: &[PinNumber], resistor: Resistor)
        ensures
            forall|p: PinNumber| #[trigger] final(self).pin_config(p) == (if pins@.contains(p) {
                old(self).pin_config(p).with_resistor(resistor)
            } else {
                old(self).pin_config(p)
            }),
    ;

    /// Sets the output type of the given pins; the other pins and fields keep their value.
    fn set_out_type(&mut self, pins: &[PinNumber], out_type: OutputType)
        ensures
            forall|p: PinNumber| #[trigger] final(self).pin_config(p) == (if pins@.contains(p) {
                old(self).pin_config(p).with_out_type(out_type)
            } else {
                old(self).pin_config(p)
            }),
    ;

    /// Sets the output speed of the given pins; the other pins and fields keep their value.
    fn set_out_speed(&mut self, pins: &[PinNumber], out_speed: OutputSpeed)
        ensures
            forall|p: PinNumber| #[trigger] final(self).pin_config(p) == (if pins@.contains(p) {
                old(self).pin_config(p).with_out_speed(out_speed)
            } else {
                old(self).pin_config(p)
            }),
    ;

    /// Selects the alternate function of the given pins; the other pins and fields keep their
    /// value.
    fn set_alternate_fn(&mut self, pins: &[PinNumber], alternate_fn: AlternateFunction)
        ensures
            forall|p: PinNumber| #[trigger] final(self).pin_config(p) == (if pins@.contains(p) {
                old(self).pin_config(p).with_alternate_fn(alternate_fn)
            } else {
                old(self).pin_config(p)
            }),
    ;
}

/// An input pin read through the IDR of its port.
pub struct InputPinImpl<IDR: IdrTrait> {
    pin: PinNumber,
    input_data: IDR,
}

impl<IDR: IdrTrait> InputPinImpl<IDR> {
    /// The pin that this input reads.
    pub closed spec fn spec_pin(&self) -> PinNumber {
        self.pin
    }

    /// The input data register that this input reads.
    pub closed spec fn spec_input_data(&self) -> IDR {
        self.input_data
    }
}

impl<IDR: IdrTrait> InputPin for InputPinImpl<IDR> {
    /// Reading the input gives what reading its pin of the IDR gives.
    open spec fn reads(&self, value: bool) -> bool {
        self.spec_input_data().reads(self.spec_pin(), value)
    }

    /// Reads the pin from the IDR.
    fn get(&self) -> (r: bool) {
        self.input_data.get(self.pin)
    }
}

/// An output pin read through the ODR and written through the BSRR of its port.
pub struct OutputPinImpl<ODR: OdrTrait, BSRR: BsrrTrait> {
    pin: PinNumber,
    output_data: ODR,
    bit_set_reset: BSRR,
}

impl<ODR: OdrTrait, BSRR: BsrrTrait> OutputPinImpl<ODR, BSRR> {
    /// The pin that this output drives.
    pub closed spec fn spec_pin(&self) -> PinNumber {
        self.pin
    }

    /// The output data register that this output reads.
    pub closed spec fn spec_output_data(&self) -> ODR {
        self.output_data
    }

    /// The bit set/reset register that this output writes.
    pub closed spec fn spec_bit_set_reset(&self) -> BSRR {
        self.bit_set_reset
    }
}

impl<ODR: OdrTrait, BSRR: BsrrTrait> OutputPin for OutputPinImpl<ODR, BSRR> {
    /// Reading the output gives what reading its pin of the ODR gives.
    open spec fn reads(&self, value: bool) -> bool {
        self.spec_output_data().reads(self.spec_pin(), value)
    }

    /// The last write through the BSRR set the output's pin to `value`.
    open spec fn written(&self, value: bool) -> bool {
        self.spec_bit_set_reset().written(self.spec_pin(), value)
    }

    /// Reads the pin from the ODR.
    fn get(&self) -> (r: bool) {
        self.output_data.get(self.pin)
    }

    /// Writes the pin through the BSRR; the pin and the ODR stay.
    fn set(&mut self, value: bool)
        ensures
            final(self).spec_pin() == old(self).spec_pin(),
            final(self).spec_output_data() == old(self).spec_output_data(),
    {
        self.bit_set_reset.write_pin(self.pin, value);
    }
}

/// Reserves `pins` one after the other in the in-use table `in_use`: fails with the first pin
/// that is already in use (by an earlier reservation or earlier in `pins`), otherwise gives
/// the table with all `pins` marked.
pub open spec fn reserve(in_use: Seq<bool>, pins: Seq<PinNumber>) -> Result<Seq<bool>, PinNumber>
    decreases pins.len(),
{
    if pins.len() == 0 {
        Ok(in_use)
    } else if in_use[pin_index(pins[0]) as int] {
        Err(pins[0])
    } else {
        reserve(in_use.update(pin_index(pins[0]) as int, true), pins.drop_first())
    }
}

/// A GPIO port: its registers and which of its 16 pins are in use.
pub struct GpioPort<T> {
    pin_in_use: [bool; 16],
    register_block: T,
}

impl<T> GpioPort<T> {
    /// Which pins are in use, by pin index.
    pub closed spec fn in_use(&self) -> Seq<bool> {
        self.pin_in_use@
    }

    /// The register block of the port.
    pub closed spec fn registers(&self) -> T {
        self.register_block
    }

    /// The in-use table has one entry per pin of the port.
    pub proof fn lemma_in_use_len(&self)
        ensures
            self.in_use().len() == 16,
    {
    }

    /// Creates a port with no pin in use.
    pub fn new(register_block: T) -> (r: GpioPort<T>)
        ensures
            r.in_use() == Seq::new(16, |i: int| false),
            r.registers() == register_block,
    {
        let r = GpioPort { pin_in_use: [false; 16], register_block };
        assert(r.in_use() =~= Seq::new(16, |i: int| false));
        r
    }
}

impl<T: RegisterBlockTrait> GpioPort<T> {
    /// The configuration of pin `pin` in the registers of the port.
    pub open spec fn pin_config(&self, pin: PinNumber) -> PinConfig {
        self.registers().pin_config(pin)
    }

    /// Reserves `pin` and configures it as input with the given resistor.
    ///
    /// Fails without changing anything if the pin is already in use.
    pub fn to_input(&mut self, pin: PinNumber, resistor: Resistor) -> (r: Result<
        InputPinImpl<T::Idr>,
        Error,
    >)
        ensures
            match r {
                Ok(p) => {
                    &&& !old(self).in_use()[pin_index(pin) as int]
                    &&& final(self).in_use() == old(self).in_use().update(
                        pin_index(pin) as int,
                        true,
                    )
                    &&& p.spec_pin() == pin
                },
                Err(e) => {
                    &&& old(self).in_use()[pin_index(pin) as int]
                    &&& final(self).in_use() == old(self).in_use()
                    &&& e == Error::PinAlreadyInUse(pin)
                },
            },
            forall|q: PinNumber| #[trigger] final(self).pin_config(q) == (if r is Ok && q == pin {
                apply_setting(PinSetting::Input(resistor), old(self).pin_config(q))
            } else {
                old(self).pin_config(q)
            }),
    {
        self.use_pin(pin)?;

        let pins = [pin];
        proof {
            assert(pins@[0] == pin);
            assert(forall|q: PinNumber| pins@.contains(q) ==> q == pin);
        }
        self.register_block.set_mode(pins.as_slice(), Mode::Input);
        self.register_block.set_resistor(pins.as_slice(), resistor);

        Ok(InputPinImpl { pin: pin, input_data: self.register_block.idr() })
    }

    /// Reserves `pin` and configures it as output with the given type, speed and resistor.
    ///
    /// Fails without changing anything if the pin is already in use.
    pub fn to_output(
        &mut self,
        pin: PinNumber,
        out_type: OutputType,
        out_speed: OutputSpeed,
        resistor: Resistor,
    ) -> (r: Result<OutputPinImpl<T::Odr, T::Bsrr>, Error>)
        ensures
            match r {
                Ok(p) => {
                    &&& !old(self).in_use()[pin_index(pin) as int]
                    &&& final(self).in_use() == old(self).in_use().update(
                        pin_index(pin) as int,
                        true,
                    )
                    &&& p.spec_pin() == pin
                },
                Err(e) => {
                    &&& old(self).in_use()[pin_index(pin) as int]
                    &&& final(self).in_use() == old(self).in_use()
                    &&& e == Error::PinAlreadyInUse(pin)
                },
            },
            forall|q: PinNumber| #[trigger] final(self).pin_config(q) == (if r is Ok && q == pin {
                apply_setting(
                    PinSetting::Output(out_type, out_speed, resistor),
                    old(self).pin_config(q),
                )
            } else {
                old(self).pin_config(q)
            }),
    {
        self.use_pin(pin)?;

        let pins = [pin];
        proof {
            assert(pins@[0] == pin);
            assert(forall|q: PinNumber| pins@.contains(q) ==> q == pin);
        }
        self.register_block.set_mode(pins.as_slice(), Mode::Output);
        self.register_block.set_out_type(pins.as_slice(), out_type);
        self.register_block.set_out_speed(pins.as_slice(), out_speed);
        self.register_block.set_resistor(pins.as_slice(), resistor);

        Ok(
            OutputPinImpl {
                pin: pin,
                output_data: self.register_block.odr(),
                bit_set_reset: self.register_block.bsrr(),
            },
        )
    }

    /// Reserves `pin` and configures it for the given alternate function.
    ///
    /// Fails without changing anything if the pin is already in use.
    pub fn to_alternate_function(
        &mut self,
        pin: PinNumber,
        alternate_fn: AlternateFunction,
        typ: OutputType,
        speed: OutputSpeed,
        resistor: Resistor,
    ) -> (r: Result<(), Error>)
        ensures
            match r {
                Ok(_) => {
                    &&& !old(self).in_use()[pin_index(pin) as int]
                    &&& final(self).in_use() == old(self).in_use().update(
                        pin_index(pin) as int,
                        true,
                    )
                },
                Err(e) => {
                    &&& old(self).in_use()[pin_index(pin) as int]
                    &&& final(self).in_use() == old(self).in_use()
                    &&& e == Error::PinAlreadyInUse(pin)
                },
            },
            forall|q: PinNumber| #[trigger] final(self).pin_config(q) == (if r is Ok && q == pin {
                apply_setting(
                    PinSetting::Alternate(alternate_fn, typ, speed, resistor),
                    old(self).pin_config(q),
                )
            } else {
                old(self).pin_config(q)
            }),
    {
        let pins = [pin];
        proof {
            assert(pins@[0] == pin);
            assert(forall|q: PinNumber| pins@.contains(q) ==> q == pin);
        }
        let r = self.to_alternate_function_all(pins.as_slice(), alternate_fn, typ, speed, resistor);
        proof {
            let s = pins@;
            assert(s.drop_first().len() == 0);
            reveal_with_fuel(reserve, 2);
        }
        r
    }

    /// Reserves all `pins` and configures them for the given alternate function.
    ///
    /// Either all pins are reserved or, if one of them is already in use or listed twice,
    /// none: the error names the first such pin.
    pub fn to_alternate_function_all(
        &mut self,
        pins: &[PinNumber],
        alternate_fn: AlternateFunction,
        typ: OutputType,
        speed: OutputSpeed,
        resistor: Resistor,
    ) -> (r: Result<(), Error>)
        ensures
            match reserve(old(self).in_use(), pins@) {
                Ok(table) => r is Ok && final(self).in_use() == table,
                Err(p) => r == Err::<(), Error>(Error::PinAlreadyInUse(p)) && final(self).in_use()
                    == old(self).in_use(),
            },
            forall|q: PinNumber| #[trigger] final(self).pin_config(q) == (if r is Ok
                && pins@.contains(q) {
                apply_setting(
                    PinSetting::Alternate(alternate_fn, typ, speed, resistor),
                    old(self).pin_config(q),
                )
            } else {
                old(self).pin_config(q)
            }),
    {
        self.use_pins(pins)?;

        self.register_block.set_mode(pins, Mode::Alternate);
        self.register_block.set_resistor(pins, resistor);
        self.register_block.set_out_type(pins, typ);
        self.register_block.set_out_speed(pins, speed);
        self.register_block.set_alternate_fn(pins, alternate_fn);

        Ok(())
    }

    /// Marks `pin` as in use, failing if it already is.
    fn use_pin(&mut self, pin: PinNumber) -> (r: Result<(), Error>)
        ensures
            match r {
                Ok(_) => {
                    &&& !old(self).in_use()[pin_index(pin) as int]
                    &&& final(self).in_use() == old(self).in_use().update(
                        pin_index(pin) as int,
                        true,
                    )
                },
                Err(e) => {
                    &&& old(self).in_use()[pin_index(pin) as int]
                    &&& final(self).in_use() == old(self).in_use()
                    &&& e == Error::PinAlreadyInUse(pin)
                },
            },
            final(self).registers() == old(self).registers(),
    {
        let i = pin.index();
        if self.pin_in_use[i] {
            Err(Error::PinAlreadyInUse(pin))
        } else {
            self.pin_in_use[i] = true;
            Ok(())
        }
    }

    /// Marks all `pins` as in use, or none of them if one is already in use or listed twice.
    fn use_pins(&mut self, pins: &[PinNumber]) -> (r: Result<(), Error>)
        ensures
            match reserve(old(self).in_use(), pins@) {
                Ok(table) => r is Ok && final(self).in_use() == table,
                Err(p) => r == Err::<(), Error>(Error::PinAlreadyInUse(p)) && final(self).in_use()
                    == old(self).in_use(),
            },
            final(self).registers() == old(self).registers(),
    {
        // work on a copy, so that the table changes only on success
        let mut pin_in_use = self.pin_in_use;
        let mut k: usize = 0;
        assert(pins@.subrange(0, pins@.len() as int) == pins@);
        while k < pins.len()
            invariant
                k <= pins@.len(),
                pin_in_use@.len() == 16,
                self.pin_in_use == old(self).pin_in_use,
                reserve(old(self).in_use(), pins@) == reserve(
                    pin_in_use@,
                    pins@.subrange(k as int, pins@.len() as int),
                ),
            decreases pins@.len() - k,
        {
            let pin = pins[k];
            let i = pin.index();
            assert(pins@.subrange(k as int, pins@.len() as int).drop_first() == pins@.subrange(
                k + 1,
                pins@.len() as int,
            ));
            if pin_in_use[i] {
                return Err(Error::PinAlreadyInUse(pin));
            } else {
                pin_in_use[i] = true;
            }
            k = k + 1;
        }
        self.pin_in_use = pin_in_use;
        Ok(())
    }
}

/// A reservation either succeeds for all pins or changes nothing: on success every listed pin
/// is marked and every other entry of the table is unchanged; on failure the failing pin is
/// one of the listed pins.
pub proof fn lemma_reserve_all_or_nothing(in_use: Seq<bool>, pins: Seq<PinNumber>)
    requires
        in_use.len() == 16,
    ensures
        match reserve(in_use, pins) {
            Ok(table) => {
                &&& table.len() == 16
                &&& forall|k: int| 0 <= k < pins.len() ==> table[pin_index(#[trigger] pins[k]) as int]
                &&& forall|i: int|
                    0 <= i < 16 && !in_use[i] && !(exists|k: int|
                        0 <= k < pins.len() && pin_index(#[trigger] pins[k]) == i) ==> !table[i]
                &&& forall|i: int| 0 <= i < 16 && in_use[i] ==> table[i]
                &&& forall|k: int| 0 <= k < pins.len() ==> !in_use[pin_index(#[trigger] pins[k]) as int]
            },
            Err(p) => pins.contains(p),
        },
    decreases pins.len(),
{
    if pins.len() == 0 {
    } else if in_use[pin_index(pins[0]) as int] {
        assert(pins[0] == pins[0]);
    } else {
        let next = in_use.update(pin_index(pins[0]) as int, true);
        lemma_reserve_all_or_nothing(next, pins.drop_first());
        match reserve(next, pins.drop_first()) {
            Ok(table) => {
                assert forall|k: int| 0 <= k < pins.len() implies table[pin_index(
                    #[trigger] pins[k],
                ) as int] && !in_use[pin_index(pins[k]) as int] by {
                    if k > 0 {
                        assert(pins[k] == pins.drop_first()[k - 1]);
                    }
                }
                assert forall|i: int|
                    0 <= i < 16 && !in_use[i] && !(exists|k: int|
                        0 <= k < pins.len() && pin_index(#[trigger] pins[k]) == i) implies !table[i] by {
                    if exists|k: int|
                        0 <= k < pins.drop_first().len() && pin_index(
                            #[trigger] pins.drop_first()[k],
                        ) == i {
                        let k = choose|k: int|
                            0 <= k < pins.drop_first().len() && pin_index(
                                #[trigger] pins.drop_first()[k],
                            ) == i;
                        assert(pins[k + 1] == pins.drop_first()[k]);
                    }
                    assert(pins[0] == pins[0]);
                }
            },
            Err(p) => {
                let k = choose|k: int| 0 <= k < pins.drop_first().len() && pins.drop_first()[k] == p;
                assert(pins[k + 1] == p);
            },
        }
    }
}

/// A successful reservation marks exactly the listed pins: a pin is listed if and only if it
/// was free before and is in use afterwards.
pub proof fn lemma_reserve_marks_exactly(in_use: Seq<bool>, pins: Seq<PinNumber>)
    requires
        in_use.len() == 16,
        reserve(in_use, pins) is Ok,
    ensures
        forall|p: PinNumber| #[trigger]
            pins.contains(p) <==> (reserve(in_use, pins)->Ok_0[pin_index(p) as int] && !in_use[pin_index(p) as int]),
{
    lemma_reserve_all_or_nothing(in_use, pins);
    let table = reserve(in_use, pins)->Ok_0;
    assert forall|p: PinNumber| #[trigger]
        pins.contains(p) <==> (table[pin_index(p) as int] && !in_use[pin_index(p) as int]) by {
        lemma_pin_index_bound(p);
        if pins.contains(p) {
            let k = choose|k: int| 0 <= k < pins.len() && pins[k] == p;
            assert(table[pin_index(pins[k]) as int]);
        }
        if table[pin_index(p) as int] && !in_use[pin_index(p) as int] {
            let i = pin_index(p) as int;
            assert(exists|k: int| 0 <= k < pins.len() && pin_index(#[trigger] pins[k]) == i);
            let k = choose|k: int| 0 <= k < pins.len() && pin_index(#[trigger] pins[k]) == i;
            lemma_pin_index_injective(pins[k], p);
            assert(pins[k] == p);
        }
    }
}

/// Once pins are reserved, reserving any of them again fails.
pub proof fn lemma_reserved_pins_stay_reserved(in_use: Seq<bool>, pins: Seq<PinNumber>, pin: PinNumber)
    requires
        in_use.len() == 16,
        reserve(in_use, pins) is Ok,
        pins.contains(pin),
    ensures
        reserve(reserve(in_use, pins)->Ok_0, seq![pin]) == Err::<Seq<bool>, PinNumber>(pin),
{
    lemma_reserve_all_or_nothing(in_use, pins);
    let k = choose|k: int| 0 <= k < pins.len() && pins[k] == pin;
    let table = reserve(in_use, pins)->Ok_0;
    assert(table[pin_index(pins[k]) as int]);
    assert(seq![pin][0] == pin);
}

} // verus!
