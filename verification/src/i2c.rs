//! The I2C bus protocol: device addresses, the encoding of register values, and the
//! sequence of register operations that each transfer performs on the bus controller.
//!
//! The driver plans a transfer as a list of [`Step`]s; the code that owns the peripheral
//! carries them out in order and stops at the first wait that reports a NACK.

use core::marker::PhantomData;
use vstd::prelude::*;

verus! {

/// This trait marks the I2C peripherals that the driver can use.
pub trait I2cTrait {}

/// Represents an I2C (Inter-Integrated Circuit) bus.
pub struct I2C<I: I2cTrait>(pub I);

/// Errors that can happen while accessing the I2C bus.
#[derive(Debug, Clone, Copy, PartialEq, Eq, Structural)]
pub enum Error {
    /// A NACK flag (negative acknowledgement) was detected.
    Nack,
}

/// An I2C address.
///
/// Currently only 7 bit addresses are supported.
#[derive(Debug, Clone, Copy, PartialEq, Eq, Structural)]
pub struct Address(u16);

impl Address {
    /// The value of the address field of the controller (the 7 bit address shifted left by
    /// one).
    pub closed spec fn spec_value(&self) -> u16 {
        self.0
    }

    /// Create a 7 bit I2C address.
    pub fn bits_7(addr: u8) -> (r: Address)
        ensures
            r.spec_value() == addr * 2,
    {
        let a = addr as u16;
        assert(a << 1u16 == a * 2) by (bit_vector)
            requires
                a < 0x100,
        ;
        Address(a << 1)
    }

    /// The value of the address field of the controller.
    pub fn value(&self) -> (r: u16)
        ensures
            r == self.spec_value(),
    {
        self.0
    }
}

/// The flags of the interrupt and status register (ISR) that the driver waits for.
#[derive(Debug, Clone, Copy, PartialEq, Eq, Structural)]
pub struct Isr {
    /// A NACK was received.
    pub nackf: bool,
    /// The transmit data register is empty and the next byte can be written.
    pub txis: bool,
    /// The receive data register holds a byte.
    pub rxne: bool,
    /// The transfer is complete.
    pub tc: bool,
    /// A stop condition was detected.
    pub stopf: bool,
}

/// The outcome of a wait after reading the ISR: `None` while the awaited flag is not yet set,
/// `Err(Nack)` as soon as a NACK was received, `Ok` once the flag is set.
pub open spec fn wait_outcome(isr: Isr, flag: bool) -> Option<Result<(), Error>> {
    if isr.nackf {
        Some(Err(Error::Nack))
    } else if flag {
        Some(Ok(()))
    } else {
        None
    }
}

/// Wait for the "transmit interrupt status" flag: decides after one read of the ISR.
pub fn wait_for_txis(isr: Isr) -> (r: Option<Result<(), Error>>)
    ensures
        r == wait_outcome(isr, isr.txis),
{
    if isr.nackf {
        Some(Err(Error::Nack))
    } else if isr.txis {
        Some(Ok(()))
    } else {
        None
    }
}

/// Wait for the "receive data register not empty" flag: decides after one read of the ISR.
pub fn wait_for_rxne(isr: Isr) -> (r: Option<Result<(), Error>>)
    ensures
        r == wait_outcome(isr, isr.rxne),
{
    if isr.nackf {
        Some(Err(Error::Nack))
    } else if isr.rxne {
        Some(Ok(()))
    } else {
        None
    }
}

/// Wait for the "transfer complete" flag: decides after one read of the ISR.
pub fn wait_for_transfer_complete(isr: Isr) -> (r: Option<Result<(), Error>>)
    ensures
        r == wait_outcome(isr, isr.tc),
{
    if isr.nackf {
        Some(Err(Error::Nack))
    } else if isr.tc {
        Some(Ok(()))
    } else {
        None
    }
}

/// Wait for the automatically generated stop flag: decides after one read of the ISR.
pub fn wait_for_stop(isr: Isr) -> (r: Option<Result<(), Error>>)
    ensures
        r == wait_outcome(isr, isr.stopf),
{
    if isr.nackf {
        Some(Err(Error::Nack))
    } else if isr.stopf {
        Some(Ok(()))
    } else {
        None
    }
}

/// The outcome of a poll of the ISR while waiting for the NACK that a probe of an absent
/// device provokes: `Some(true)` once the NACK is there, `Some(false)` when a stop condition
/// came without it (the expected NACK is missing), `None` to poll again.
pub fn wait_for_nack(isr: Isr) -> (r: Option<bool>)
    ensures
        r == (if isr.nackf {
            Some(true)
        } else if isr.stopf {
            Some(false)
        } else {
            None
        }),
{
    if isr.nackf {
        Some(true)
    } else if isr.stopf {
        Some(false)
    } else {
        None
    }
}

/// The outcome of a poll of the ISR after a probe: `Some(nack)` once a NACK or a stop condition
/// is there, with `nack` telling whether no device answered; `None` to poll again.
pub fn wait_for_nack_or_stop(isr: Isr) -> (r: Option<bool>)
    ensures
        r == (if isr.nackf || isr.stopf {
            Some(isr.nackf)
        } else {
            None
        }),
{
    if isr.nackf || isr.stopf {
        Some(isr.nackf)
    } else {
        None
    }
}

/// One operation on the I2C controller.
#[derive(Debug, Clone, Copy, PartialEq, Eq, Structural)]
pub enum Step {
    /// Write CR2: slave address, start generation, direction and number of bytes, without
    /// automatic end mode.
    Start {
        /// The address field.
        address: u16,
        /// Whether the transfer reads (else it writes).
        read: bool,
        /// The number of bytes of the transfer.
        nbytes: u8,
    },
    /// Wait for the TXIS flag (see [`wait_for_txis`]).
    WaitTxis,
    /// Write a byte to the transmit data register.
    WriteByte(u8),
    /// Wait for the RXNE flag (see [`wait_for_rxne`]).
    WaitRxne,
    /// Read a byte from the receive data register.
    ReadByte,
    /// Wait for the TC flag (see [`wait_for_transfer_complete`]).
    WaitTransferComplete,
    /// Clear all status flags in the ICR.
    ClearFlags,
    /// Flush the transmit data register.
    FlushTxdr,
    /// Reset CR2 to its reset value.
    ResetCr2,
    /// Request a stop condition in CR2.
    SetStop,
    /// Wait for the STOPF flag (see [`wait_for_stop`]).
    WaitStop,
    /// Write CR2 to probe a device: slave address, start generation, no bytes, automatic end
    /// mode.
    Probe {
        /// The address field.
        address: u16,
    },
    /// Wait for a NACK (see [`wait_for_nack`]): a stop condition before it fails the test.
    WaitNack,
    /// Wait for a NACK or a stop condition (see [`wait_for_nack_or_stop`]).
    WaitNackOrStop,
    /// If the preceding wait ended with a NACK: wait until the bus is no longer busy, then
    /// clear all status flags; otherwise nothing.
    RecoverIfNack,
}

/// The steps that prepare a transfer: clear the status flags and flush the transmit data
/// register.
pub open spec fn pre_steps() -> Seq<Step> {
    seq![Step::ClearFlags, Step::FlushTxdr]
}

/// The steps that send each byte: wait for TXIS, then write the byte.
pub open spec fn send_byte_steps(bytes: Seq<u8>) -> Seq<Step>
    decreases bytes.len(),
{
    if bytes.len() == 0 {
        seq![]
    } else {
        send_byte_steps(bytes.drop_last()) + seq![Step::WaitTxis, Step::WriteByte(bytes.last())]
    }
}

/// The steps that receive `n` bytes: for each, wait for RXNE, then read the byte.
pub open spec fn receive_byte_steps(n: nat) -> Seq<Step>
    decreases n,
{
    if n == 0 {
        seq![]
    } else {
        receive_byte_steps((n - 1) as nat) + seq![Step::WaitRxne, Step::ReadByte]
    }
}

/// The steps that end a transfer: wait for transfer complete, clear the flags, reset CR2.
pub open spec fn end_steps() -> Seq<Step> {
    seq![Step::WaitTransferComplete, Step::ClearFlags, Step::ResetCr2]
}

/// The steps of a write transfer of `bytes` to the device at `address`.
pub open spec fn write_transfer(address: u16, bytes: Seq<u8>) -> Seq<Step> {
    seq![Step::Start { address, read: false, nbytes: bytes.len() as u8 }] + send_byte_steps(bytes)
        + end_steps()
}

/// The steps of a read transfer of `n` bytes from the device at `address`.
pub open spec fn read_transfer(address: u16, n: nat) -> Seq<Step> {
    seq![Step::Start { address, read: true, nbytes: n as u8 }] + receive_byte_steps(n)
        + end_steps()
}

/// The steps that end a connection: request a stop, reset CR2 and wait for the stop flag.
pub open spec fn stop_steps() -> Seq<Step> {
    seq![Step::SetStop, Step::ResetCr2, Step::WaitStop]
}

/// The steps that probe the addresses below `n`, in increasing order: for each, probe the
/// address, wait for a NACK or a stop condition, and recover from a NACK.
pub open spec fn probe_all_steps(n: nat) -> Seq<Step>
    decreases n,
{
    if n == 0 {
        seq![]
    } else {
        probe_all_steps((n - 1) as nat) + seq![
            Step::Probe { address: ((n - 1) * 2) as u16 },
            Step::WaitNackOrStop,
            Step::RecoverIfNack,
        ]
    }
}

/// Valid register types of I2C devices: their values are sent most significant byte first.
///
/// This trait is implemented for the `u8` and `u16` types.
pub trait RegisterType: Sized + Copy {
    /// The bytes of a value, in the order they go over the bus.
    spec fn spec_bytes(&self) -> Seq<u8>;

    /// The number of bytes of a value.
    spec fn spec_len() -> nat;

    /// The value that bytes received from the bus encode.
    spec fn spec_from_bytes(bytes: Seq<u8>) -> Self;

    /// The bytes of the value, in the order they go over the bus.
    fn write(&self) -> (r: Vec<u8>)
        ensures
            r@ == self.spec_bytes(),
            r@.len() == Self::spec_len(),
            r@.len() <= 2,
    ;

    /// The value that the received bytes encode.
    fn read(bytes: &[u8]) -> (r: Self)
        requires
            bytes@.len() == Self::spec_len(),
        ensures
            r == Self::spec_from_bytes(bytes@),
    ;

    /// The number of bytes of a value.
    fn len() -> (r: usize)
        ensures
            r == Self::spec_len(),
            r <= 2,
    ;
}

impl RegisterType for u8 {
    open spec fn spec_bytes(&self) -> Seq<u8> {
        seq![*self]
    }

    open spec fn spec_len() -> nat {
        1
    }

    open spec fn spec_from_bytes(bytes: Seq<u8>) -> u8 {
        bytes[0]
    }

    fn write(&self) -> (r: Vec<u8>) {
        let mut v: Vec<u8> = Vec::new();
        v.push(*self);
        assert(v@ == seq![*self]);
        v
    }

    fn read(bytes: &[u8]) -> (r: u8) {
        bytes[0]
    }

    fn len() -> (r: usize) {
        1
    }
}

impl RegisterType for u16 {
    open spec fn spec_bytes(&self) -> Seq<u8> {
        seq![(*self / 0x100) as u8, (*self % 0x100) as u8]
    }

    open spec fn spec_len() -> nat {
        2
    }

    open spec fn spec_from_bytes(bytes: Seq<u8>) -> u16 {
        (bytes[0] * 0x100 + bytes[1]) as u16
    }

    fn write(&self) -> (r: Vec<u8>) {
        let x = *self;
        let hi = (x >> 8) as u8;
        let lo = x as u8;
        assert((x >> 8u16) as u8 == x / 0x100) by (bit_vector);
        assert(x as u8 == x % 0x100) by (bit_vector);
        let mut v: Vec<u8> = Vec::new();
        v.push(hi);
        v.push(lo);
        assert(v@ == seq![(x / 0x100) as u8, (x % 0x100) as u8]);
        v
    }

    fn read(bytes: &[u8]) -> (r: u16) {
        let hi = bytes[0] as u16;
        let lo = bytes[1] as u16;
        assert((hi << 8u16) | lo == hi * 0x100 + lo) by (bit_vector)
            requires
                hi < 0x100,
                lo < 0x100,
        ;
        (hi << 8) | lo
    }

    fn len() -> (r: usize) {
        2
    }
}

/// Reading back the bytes of a one-byte register value gives the value.
pub proof fn lemma_u8_register_round_trip(x: u8)
    ensures
        <u8 as RegisterType>::spec_from_bytes(x.spec_bytes()) == x,
{
}

/// Reading back the bytes of a two-byte register value gives the value.
pub proof fn lemma_u16_register_round_trip(x: u16)
    ensures
        <u16 as RegisterType>::spec_from_bytes(x.spec_bytes()) == x,
{
    assert(((x / 0x100) as u8) * 0x100 + ((x % 0x100) as u8) == x) by (nonlinear_arith);
}

/// An active connection to a device on the I2C bus, with registers of type `T`.
pub struct I2cConnection<T: RegisterType> {
    device_address: Address,
    register_type: PhantomData<T>,
}

/// Appends to `steps` the steps of a write transfer of `bytes` to `address`.
fn push_write_transfer(steps: &mut Vec<Step>, address: u16, bytes: &[u8])
    requires
        bytes@.len() <= 255,
    ensures
        final(steps)@ == old(steps)@ + write_transfer(address, bytes@),
{
    steps.push(Step::Start { address, read: false, nbytes: bytes.len() as u8 });
    let ghost start = steps@;
    let mut i: usize = 0;
    while i < bytes.len()
        invariant
            i <= bytes@.len(),
            steps@ == start + send_byte_steps(bytes@.subrange(0, i as int)),
        decreases bytes@.len() - i,
    {
        assert(bytes@.subrange(0, i + 1).drop_last() == bytes@.subrange(0, i as int));
        steps.push(Step::WaitTxis);
        steps.push(Step::WriteByte(bytes[i]));
        i = i + 1;
    }
    assert(bytes@.subrange(0, bytes@.len() as int) == bytes@);
    steps.push(Step::WaitTransferComplete);
    steps.push(Step::ClearFlags);
    steps.push(Step::ResetCr2);
}

/// Appends to `steps` the steps of a read transfer of `n` bytes from `address`.
fn push_read_transfer(steps: &mut Vec<Step>, address: u16, n: usize)
    requires
        n <= 255,
    ensures
        final(steps)@ == old(steps)@ + read_transfer(address, n as nat),
{
    steps.push(Step::Start { address, read: true, nbytes: n as u8 });
    let ghost start = steps@;
    let mut i: usize = 0;
    while i < n
        invariant
            i <= n,
            steps@ == start + receive_byte_steps(i as nat),
        decreases n - i,
    {
        steps.push(Step::WaitRxne);
        steps.push(Step::ReadByte);
        i = i + 1;
    }
    steps.push(Step::WaitTransferComplete);
    steps.push(Step::ClearFlags);
    steps.push(Step::ResetCr2);
}

/// Appends to `steps` the steps that prepare a transfer.
fn push_pre(steps: &mut Vec<Step>)
    ensures
        final(steps)@ == old(steps)@ + pre_steps(),
{
    steps.push(Step::ClearFlags);
    steps.push(Step::FlushTxdr);
}

impl<T: RegisterType> I2cConnection<T> {
    /// The address of the device.
    pub closed spec fn spec_device_address(&self) -> Address {
        self.device_address
    }

    /// The steps that read the current value of the specified register: send the register
    /// address, then receive the value. The received bytes decode with
    /// [`RegisterType::read`].
    pub fn read(&self, register_address: T) -> (r: Vec<Step>)
        ensures
            r@ == pre_steps() + write_transfer(
                self.spec_device_address().spec_value(),
                register_address.spec_bytes(),
            ) + read_transfer(self.spec_device_address().spec_value(), T::spec_len()),
    {
        let address = self.device_address.value();
        let mut steps: Vec<Step> = Vec::new();
        push_pre(&mut steps);
        let addr_bytes = register_address.write();
        push_write_transfer(&mut steps, address, addr_bytes.as_slice());
        push_read_transfer(&mut steps, address, T::len());
        steps
    }

    /// The steps that read `n` bytes starting at the specified register into a buffer.
    ///
    /// Transfers of more than 255 bytes are not supported.
    pub fn read_bytes(&self, register_address: T, n: usize) -> (r: Vec<Step>)
        requires
            n <= 255,
        ensures
            r@ == pre_steps() + write_transfer(
                self.spec_device_address().spec_value(),
                register_address.spec_bytes(),
            ) + read_transfer(self.spec_device_address().spec_value(), n as nat),
    {
        let address = self.device_address.value();
        let mut steps: Vec<Step> = Vec::new();
        push_pre(&mut steps);
        let addr_bytes = register_address.write();
        push_write_transfer(&mut steps, address, addr_bytes.as_slice());
        push_read_transfer(&mut steps, address, n);
        steps
    }

    /// The steps that write `value` into the specified register: one write transfer of the
    /// register address followed by the value.
    pub fn write(&self, register_address: T, value: T) -> (r: Vec<Step>)
        ensures
            r@ == pre_steps() + write_transfer(
                self.spec_device_address().spec_value(),
                register_address.spec_bytes() + value.spec_bytes(),
            ),
    {
        let address = self.device_address.value();
        let mut steps: Vec<Step> = Vec::new();
        push_pre(&mut steps);
        let mut bytes = register_address.write();
        let mut value_bytes = value.write();
        bytes.append(&mut value_bytes);
        push_write_transfer(&mut steps, address, bytes.as_slice());
        steps
    }
}

impl<I: I2cTrait> I2C<I> {
    /// Opens a connection to the specified device, with registers of type `T`.
    ///
    /// The connection is active until the steps of [`stop`](Self::stop) have run.
    pub fn connect<T: RegisterType>(&self, device_address: Address) -> (r: I2cConnection<T>)
        ensures
            r.spec_device_address() == device_address,
    {
        I2cConnection { device_address, register_type: PhantomData }
    }

    /// Connects to the specified device and runs the closure `f` once with the connection;
    /// then, unless `f` failed, the steps of [`stop`](Self::stop) follow (see
    /// [`after_connection`](Self::after_connection)). The connection is active until `f`
    /// returns.
    pub fn connect_with<T: RegisterType, F>(&self, device_address: Address, f: F) -> (r: Result<
        Vec<Step>,
        Error,
    >) where F: FnOnce(I2cConnection<T>) -> Result<(), Error>
        requires
            forall|c: I2cConnection<T>|
                c.spec_device_address() == device_address ==> #[trigger] f.requires((c,)),
        ensures
            exists|c: I2cConnection<T>, f_result: Result<(), Error>|
                #[trigger] f.ensures((c,), f_result) && c.spec_device_address() == device_address
                    && match f_result {
                    Err(e) => r == Err::<Vec<Step>, Error>(e),
                    Ok(_) => r is Ok && r->Ok_0@ == stop_steps(),
                },
    {
        let conn = self.connect::<T>(device_address);
        let f_result = f(conn);
        self.after_connection(f_result)
    }

    /// What follows the closure that runs over a connection: when the closure failed, the
    /// connection ends with its error and no stop symbol is sent; otherwise the steps of
    /// [`stop`](Self::stop) follow, and what they give is the result of the connection.
    pub fn after_connection(&self, closure_result: Result<(), Error>) -> (r: Result<
        Vec<Step>,
        Error,
    >)
        ensures
            match closure_result {
                Err(e) => r == Err::<Vec<Step>, Error>(e),
                Ok(_) => r is Ok && r->Ok_0@ == stop_steps(),
            },
    {
        match closure_result {
            Err(e) => Err(e),
            Ok(_) => Ok(self.stop()),
        }
    }

    /// The steps that provoke a NACK by probing an address where no device answers
    /// (`0b1010101`), check that the NACK comes, and clear the status flags.
    pub fn test_1(&self) -> (r: Vec<Step>)
        ensures
            r@ == seq![
                Step::Probe { address: 0b10101010u16 },
                Step::WaitNack,
                Step::ClearFlags,
            ],
    {
        let mut steps: Vec<Step> = Vec::new();
        steps.push(Step::Probe { address: Address::bits_7(0b1010101).value() });
        steps.push(Step::WaitNack);
        steps.push(Step::ClearFlags);
        steps
    }

    /// The steps that try to access all 128 addresses, in increasing order: probe each, wait
    /// for its answer, and recover from a NACK.
    pub fn test_2(&self) -> (r: Vec<Step>)
        ensures
            r@ == probe_all_steps(128),
    {
        let mut steps: Vec<Step> = Vec::new();
        let mut addr: u8 = 0;
        while addr < 0x80
            invariant
                addr <= 0x80,
                steps@ == probe_all_steps(addr as nat),
            decreases 0x80 - addr,
        {
            steps.push(Step::Probe { address: Address::bits_7(addr).value() });
            steps.push(Step::WaitNackOrStop);
            steps.push(Step::RecoverIfNack);
            addr += 1;
        }
        steps
    }

    /// The steps that stop the active connection by sending a stop symbol.
    pub fn stop(&self) -> (r: Vec<Step>)
        ensures
            r@ == stop_steps(),
    {
        let mut steps: Vec<Step> = Vec::new();
        steps.push(Step::SetStop);
        steps.push(Step::ResetCr2);
        steps.push(Step::WaitStop);
        steps
    }
}

/// One operation of the setup of a device over an open connection, with registers of type
/// `T`.
#[derive(Debug, Clone, Copy, PartialEq, Eq, Structural)]
pub enum SetupOp<T> {
    /// Read the register: the device must hold `value` there, else it is not the expected
    /// device and the setup fails.
    Check {
        /// The register to read.
        register: T,
        /// The value that the device must hold.
        value: T,
    },
    /// Write `value` into the register.
    Write {
        /// The register to write.
        register: T,
        /// The value to write.
        value: T,
    },
    /// Wait for the given number of milliseconds.
    WaitMs(usize),
}

impl SetupOp<u8> {
    /// Whether the setup may go on after reading `value` for this operation: a check passes
    /// when the value is the expected one; the other operations read nothing.
    pub fn accepts(&self, value: u8) -> (r: bool)
        ensures
            r == match *self {
                SetupOp::Check { register, value: expected } => value == expected,
                _ => true,
            },
    {
        match *self {
            SetupOp::Check { register, value: expected } => value == expected,
            _ => true,
        }
    }
}

impl SetupOp<u16> {
    /// Whether the setup may go on after reading `value` for this operation: a check passes
    /// when the value is the expected one; the other operations read nothing.
    pub fn accepts(&self, value: u16) -> (r: bool)
        ensures
            r == match *self {
                SetupOp::Check { register, value: expected } => value == expected,
                _ => true,
            },
    {
        match *self {
            SetupOp::Check { register, value: expected } => value == expected,
            _ => true,
        }
    }
}

} // verus!
