//! The Ethernet driver's configuration, errors and transmit descriptor ring.

pub mod phy;
pub mod rx;
pub mod tx;

use self::rx::{RxStatus, frame_end};
use self::tx::TxDescriptor;
use byteorder::{ByteOrder, LittleEndian};
use vstd::prelude::*;

verus! {

/// Errors of the Ethernet driver.
#[derive(Debug, Clone, Copy, PartialEq, Eq, Structural)]
pub enum Error {
    /// No buffer space is left.
    Exhausted,
    /// A received frame has a wrong checksum.
    Checksum,
    /// A received frame was cut off.
    Truncated,
    /// No IP address is assigned.
    NoIp,
    /// An unknown error.
    Unknown,
    /// The initialization of the PHY failed.
    Initialization(phy::Error),
}

impl Error {
    /// The driver error for a failed PHY initialization.
    pub fn from_init_error(err: phy::Error) -> (r: Error)
        ensures
            r == Error::Initialization(err),
    {
        Error::Initialization(err)
    }
}

/// The maximum transmission unit in bytes.
pub const MTU: usize = 1536;

/// The MAC address of the board.
pub const ETH_ADDR: [u8; 6] = [0x00, 0x08, 0xdc, 0xab, 0xcd, 0xef];

/// Reads a 32-bit little-endian value from the first four bytes of `buf` with
/// `LittleEndian::read_u32`, which panics on a shorter buffer.
#[verifier::external_body]
fn read_u32_le(buf: &[u8]) -> (r: u32)
    requires
        buf@.len() >= 4,
    ensures
        r == buf@[0] + buf@[1] * 0x100 + buf@[2] * 0x1_0000 + buf@[3] * 0x100_0000,
{
    LittleEndian::read_u32(buf)
}

/// Reads a 16-bit little-endian value from the first two bytes of `buf` with
/// `LittleEndian::read_u16`, which panics on a shorter buffer.
#[verifier::external_body]
fn read_u16_le(buf: &[u8]) -> (r: u16)
    requires
        buf@.len() >= 2,
    ensures
        r == buf@[0] + buf@[1] * 0x100,
{
    LittleEndian::read_u16(buf)
}

/// The values of the MAC address registers for a MAC address: the low register holds bytes
/// 0 to 3 and the high register bytes 4 and 5, each in little-endian order.
pub fn mac_address_registers(eth_addr: &[u8; 6]) -> (r: (u32, u16))
    ensures
        r.0 == eth_addr@[0] + eth_addr@[1] * 0x100 + eth_addr@[2] * 0x1_0000 + eth_addr@[3]
            * 0x100_0000,
        r.1 == eth_addr@[4] + eth_addr@[5] * 0x100,
{
    let bytes = eth_addr.as_slice();
    let low = read_u32_le(vstd::slice::slice_subrange(bytes, 0, 4));
    let high = read_u16_le(vstd::slice::slice_subrange(bytes, 4, 6));
    (low, high)
}

/// A report that a TCP or UDP port is already in use, with the value that the caller
/// wanted to bind to it.
pub struct PortInUse<F> {
    /// Whether the port is a TCP port (else UDP).
    pub tcp: bool,
    /// The port number.
    pub port: u16,
    /// The value that was to be bound to the port.
    pub f: F,
}

/// The decimal digits of `n` in ASCII, most significant first, without leading zeros.
pub open spec fn decimal(n: nat) -> Seq<u8>
    decreases n,
{
    if n < 10 {
        seq![(48 + n) as u8]
    } else {
        decimal(n / 10).push((48 + n % 10) as u8)
    }
}

/// The text of a port in use report, in ASCII: "TCP port 80 already in use" (or UDP) and a
/// newline.
pub open spec fn port_in_use_text(tcp: bool, port: u16) -> Seq<u8> {
    (if tcp {
        seq![84u8, 67, 80]
    } else {
        seq![85u8, 68, 80]
    }) + seq![32u8, 112, 111, 114, 116, 32] + decimal(port as nat) + seq![
        32u8,
        97,
        108,
        114,
        101,
        97,
        100,
        121,
        32,
        105,
        110,
        32,
        117,
        115,
        101,
        10,
    ]
}

/// Appends `bytes` to `out`.
fn push_bytes(out: &mut Vec<u8>, bytes: &[u8])
    ensures
        final(out)@ == old(out)@ + bytes@,
{
    let mut i: usize = 0;
    while i < bytes.len()
        invariant
            i <= bytes@.len(),
            out@ == old(out)@ + bytes@.subrange(0, i as int),
        decreases bytes@.len() - i,
    {
        out.push(bytes[i]);
        i = i + 1;
        assert(out@ == old(out)@ + bytes@.subrange(0, i as int));
    }
    assert(bytes@.subrange(0, bytes@.len() as int) == bytes@);
}

/// Appends the decimal digits of `n` to `out`.
fn push_decimal(out: &mut Vec<u8>, n: u16)
    ensures
        final(out)@ == old(out)@ + decimal(n as nat),
    decreases n,
{
    if n >= 10 {
        push_decimal(out, n / 10);
    }
    out.push(48 + (n % 10) as u8);
    assert(final(out)@ == old(out)@ + decimal(n as nat)) by {
        if n >= 10 {
            assert(decimal(n as nat) == decimal((n / 10) as nat).push((48 + n % 10) as u8));
        }
    }
}

impl<F> PortInUse<F> {
    /// The report as text, in ASCII (see [`port_in_use_text`]).
    pub fn message(&self) -> (r: Vec<u8>)
        ensures
            r@ == port_in_use_text(self.tcp, self.port),
    {
        let mut out: Vec<u8> = Vec::new();
        if self.tcp {
            push_bytes(&mut out, &[84u8, 67, 80]);
        } else {
            push_bytes(&mut out, &[85u8, 68, 80]);
        }
        // " port "
        push_bytes(&mut out, &[32u8, 112, 111, 114, 116, 32]);
        push_decimal(&mut out, self.port);
        // " already in use\n"
        push_bytes(
            &mut out,
            &[32u8, 97, 108, 114, 101, 97, 100, 121, 32, 105, 110, 32, 117, 115, 101, 10],
        );
        out
    }

    /// Creates the report.
    pub fn new(tcp: bool, port: u16, f: F) -> (r: PortInUse<F>)
        ensures
            r.tcp == tcp,
            r.port == port,
            r.f == f,
    {
        PortInUse { tcp, port, f }
    }
}

/// The layout of the receive buffer: one buffer of `buffer_size` bytes, split among
/// `number_of_descriptors` descriptors. All descriptors but the last get
/// `default_descriptor_buffer_size` bytes; the last gets the rest.
pub struct RxConfig {
    buffer_size: usize,
    number_of_descriptors: usize,
    default_descriptor_buffer_size: usize,
}

impl RxConfig {
    /// The size of the whole receive buffer.
    pub closed spec fn spec_buffer_size(&self) -> nat {
        self.buffer_size as nat
    }

    /// The number of receive descriptors.
    pub closed spec fn spec_number_of_descriptors(&self) -> nat {
        self.number_of_descriptors as nat
    }

    /// The buffer size of all descriptors but the last.
    pub closed spec fn spec_default_size(&self) -> nat {
        self.default_descriptor_buffer_size as nat
    }

    /// A layout is valid when there is at least one descriptor and the buffers of all
    /// descriptors but the last fit into the buffer.
    pub open spec fn wf(&self) -> bool {
        &&& self.spec_number_of_descriptors() >= 1
        &&& (self.spec_number_of_descriptors() - 1) * self.spec_default_size()
            <= self.spec_buffer_size()
    }

    /// The size of the buffer of descriptor `i`.
    pub open spec fn spec_descriptor_buffer_size(&self, i: nat) -> nat {
        if i == self.spec_number_of_descriptors() - 1 {
            (self.spec_buffer_size() - (self.spec_number_of_descriptors() - 1)
                * self.spec_default_size()) as nat
        } else {
            self.spec_default_size()
        }
    }

    /// The offset of the buffer of descriptor `i` in the receive buffer.
    pub open spec fn spec_descriptor_buffer_offset(&self, i: nat) -> nat {
        i * self.spec_default_size()
    }

    /// The size of the buffer of descriptor `descriptor_index`.
    pub fn descriptor_buffer_size(&self, descriptor_index: usize) -> (r: usize)
        requires
            self.wf(),
        ensures
            r == self.spec_descriptor_buffer_size(descriptor_index as nat),
    {
        let number_of_default_descriptors = self.number_of_descriptors - 1;
        if descriptor_index == number_of_default_descriptors {
            assert(number_of_default_descriptors * self.default_descriptor_buffer_size
                <= self.buffer_size);
            self.buffer_size - number_of_default_descriptors * self.default_descriptor_buffer_size
        } else {
            self.default_descriptor_buffer_size
        }
    }

    /// The offset of the buffer of descriptor `descriptor_index` in the receive buffer.
    pub fn descriptor_buffer_offset(&self, descriptor_index: usize) -> (r: usize)
        requires
            descriptor_index * self.spec_default_size() <= usize::MAX,
        ensures
            r == self.spec_descriptor_buffer_offset(descriptor_index as nat),
    {
        descriptor_index * self.default_descriptor_buffer_size
    }

    /// The default layout: 128 descriptors of 64 bytes each, the last one large enough for a
    /// whole frame of [`MTU`] bytes.
    pub fn default() -> (r: RxConfig)
        ensures
            r.wf(),
            r.spec_number_of_descriptors() == 128,
            r.spec_default_size() == 64,
            r.spec_buffer_size() == 64 * 127 + MTU,
            r.spec_descriptor_buffer_size(127) == MTU,
    {
        let number_of_descriptors: usize = 128;
        let default_descriptor_buffer_size: usize = 64;
        RxConfig {
            buffer_size: default_descriptor_buffer_size * (number_of_descriptors - 1) + MTU,
            number_of_descriptors: number_of_descriptors,
            default_descriptor_buffer_size: default_descriptor_buffer_size,
        }
    }
}

/// The descriptor buffers of a valid receive layout tile the receive buffer: each buffer but
/// the last ends where the next begins, and the last ends at the end of the receive buffer.
pub proof fn lemma_rx_buffers_tile(config: RxConfig, i: nat)
    requires
        config.wf(),
        i < config.spec_number_of_descriptors(),
    ensures
        i + 1 < config.spec_number_of_descriptors() ==> config.spec_descriptor_buffer_offset(i)
            + config.spec_descriptor_buffer_size(i) == config.spec_descriptor_buffer_offset(
            i + 1,
        ),
        i + 1 == config.spec_number_of_descriptors() ==> config.spec_descriptor_buffer_offset(
            i,
        ) + config.spec_descriptor_buffer_size(i) == config.spec_buffer_size(),
{
    let d = config.spec_default_size();
    assert((i + 1) * d == i * d + d) by (nonlinear_arith);
}

/// The frame that the descriptors `statuses` hold from descriptor `index` on, as the offset
/// and length of its bytes in the receive buffer: `Exhausted` while the first descriptor or
/// one on the way to the last is still owned by the DMA, `Checksum` for a checksum error,
/// `Truncated` when the frame has an error.
pub open spec fn spec_packet_data(config: RxConfig, s: Seq<RxStatus>, index: int) -> Result<
    (nat, nat),
    Error,
> {
    if s[index].own {
        Err(Error::Exhausted)
    } else if s[index].checksum_error {
        Err(Error::Checksum)
    } else {
        match frame_end(s, index) {
            Some(Ok(k)) => if s[k].error {
                Err(Error::Truncated)
            } else {
                Ok((config.spec_descriptor_buffer_offset(index as nat), s[k].frame_len as nat))
            },
            _ => Err(Error::Exhausted),
        }
    }
}

/// The descriptors `statuses` can be read from descriptor `index` on: a frame that starts there
/// ends before the end of the ring (its descriptors do not wrap around), starts with a first
/// descriptor, and lies in the receive buffer.
pub open spec fn packet_data_defined(config: RxConfig, s: Seq<RxStatus>, index: int) -> bool {
    &&& 0 <= index < s.len()
    &&& (!s[index].own && !s[index].checksum_error) ==> match frame_end(s, index) {
        None => false,
        Some(Err(())) => true,
        Some(Ok(k)) => s[k].error || (s[index].first && config.spec_descriptor_buffer_offset(
            index as nat,
        ) + s[k].frame_len <= config.spec_buffer_size()),
    }
}

/// Checks whether the descriptors `statuses` can be read from descriptor `index` on (see
/// [`packet_data_defined`]).
pub fn packet_data_is_defined(config: &RxConfig, statuses: &[RxStatus], index: usize) -> (r: bool)
    requires
        config.wf(),
        statuses@.len() == config.spec_number_of_descriptors(),
        config.spec_buffer_size() <= usize::MAX,
    ensures
        r == packet_data_defined(*config, statuses@, index as int),
{
    if index >= statuses.len() {
        return false;
    }
    let d = statuses[index];
    if d.own || d.checksum_error {
        return true;
    }
    let mut j: usize = index;
    let mut last = d;
    while !last.last
        invariant
            index <= j < statuses@.len(),
            last == statuses@[j as int],
            !last.own || j == index,
            !d.own && !d.checksum_error && d == statuses@[index as int],
            frame_end(statuses@, index as int) == frame_end(statuses@, j as int),
        decreases statuses@.len() - j,
    {
        if j >= statuses.len() - 1 {
            return false;
        }
        j = j + 1;
        last = statuses[j];
        if last.own {
            return true;
        }
    }
    if last.error {
        return true;
    }
    if !d.first {
        return false;
    }
    proof {
        lemma_offset_in_buffer(*config, index as nat);
    }
    let offset = config.descriptor_buffer_offset(index);
    offset <= config.buffer_size && last.frame_len <= config.buffer_size - offset
}

/// The buffer of every descriptor starts inside the receive buffer.
proof fn lemma_offset_in_buffer(config: RxConfig, i: nat)
    requires
        config.wf(),
        i < config.spec_number_of_descriptors(),
    ensures
        config.spec_descriptor_buffer_offset(i) <= config.spec_buffer_size(),
{
    let n = config.spec_number_of_descriptors();
    let d = config.spec_default_size();
    assert(i * d <= (n - 1) * d) by (nonlinear_arith)
        requires
            i <= n - 1,
    ;
}

/// The receive side of the driver: the layout of the receive buffer and the index of the
/// descriptor where the next frame starts.
pub struct RxDevice {
    config: RxConfig,
    next_descriptor: usize,
}

impl RxDevice {
    /// The layout of the receive buffer.
    pub closed spec fn spec_config(&self) -> RxConfig {
        self.config
    }

    /// The descriptor where the next frame starts.
    pub closed spec fn spec_next(&self) -> nat {
        self.next_descriptor as nat
    }

    /// The layout is valid, the whole buffer is addressable, and the next index lies in the
    /// ring.
    pub open spec fn wf(&self) -> bool {
        &&& self.spec_config().wf()
        &&& self.spec_config().spec_buffer_size() <= usize::MAX
        &&& self.spec_next() < self.spec_config().spec_number_of_descriptors()
    }

    /// Creates the receive side for the layout `config`; the next frame starts at descriptor 0.
    /// Also gives the buffer of each descriptor, in order, as offset and size in the receive
    /// buffer; only the last descriptor is marked as end of ring.
    pub fn new(config: RxConfig) -> (r: (RxDevice, Vec<(usize, usize)>))
        requires
            config.wf(),
            config.spec_buffer_size() <= usize::MAX,
        ensures
            r.0.wf(),
            r.0.spec_config() == config,
            r.0.spec_next() == 0,
            r.1@.len() == config.spec_number_of_descriptors(),
            forall|i: int|
                0 <= i < r.1@.len() ==> #[trigger] r.1@[i] == (
                    config.spec_descriptor_buffer_offset(i as nat) as usize,
                    config.spec_descriptor_buffer_size(i as nat) as usize,
                ),
    {
        let descriptor_num = config.number_of_descriptors;
        let mut buffers: Vec<(usize, usize)> = Vec::new();
        let mut i: usize = 0;
        while i < descriptor_num
            invariant
                config.wf(),
                config.spec_buffer_size() <= usize::MAX,
                descriptor_num == config.spec_number_of_descriptors(),
                i <= descriptor_num,
                buffers@.len() == i,
                forall|j: int|
                    0 <= j < i ==> #[trigger] buffers@[j] == (
                        config.spec_descriptor_buffer_offset(j as nat) as usize,
                        config.spec_descriptor_buffer_size(j as nat) as usize,
                    ),
            decreases descriptor_num - i,
        {
            proof {
                lemma_offset_in_buffer(config, i as nat);
            }
            let buffer_offset = config.descriptor_buffer_offset(i);
            let buffer_size = config.descriptor_buffer_size(i);
            buffers.push((buffer_offset, buffer_size));
            i = i + 1;
        }
        (RxDevice { config, next_descriptor: 0 }, buffers)
    }

    /// The frame that the descriptors `statuses` hold from descriptor `descriptor_index` on
    /// (see [`spec_packet_data`]): the offset and length of its bytes in the receive buffer.
    pub fn packet_data(&self, statuses: &[RxStatus], descriptor_index: usize) -> (r: Result<
        (usize, usize),
        Error,
    >)
        requires
            self.wf(),
            statuses@.len() == self.spec_config().spec_number_of_descriptors(),
            packet_data_defined(self.spec_config(), statuses@, descriptor_index as int),
        ensures
            match (r, spec_packet_data(self.spec_config(), statuses@, descriptor_index as int)) {
                (Ok((offset, len)), Ok((o, l))) => offset == o && len == l,
                (Err(e), Err(f)) => e == f,
                _ => false,
            },
            r is Ok ==> r->Ok_0.0 + r->Ok_0.1 <= self.spec_config().spec_buffer_size(),
    {
        let descriptor = statuses[descriptor_index];
        if descriptor.own {
            return Err(Error::Exhausted);
        }
        if descriptor.checksum_error {
            return Err(Error::Checksum);
        }
        let n = statuses.len();
        let mut last_descriptor = descriptor;
        let mut i: usize = 0;
        while !last_descriptor.last
            invariant
                n == statuses@.len(),
                descriptor_index + i < statuses@.len(),
                last_descriptor == statuses@[descriptor_index + i],
                !descriptor.own && !descriptor.checksum_error,
                descriptor == statuses@[descriptor_index as int],
                frame_end(statuses@, descriptor_index as int) is Some,
                frame_end(statuses@, descriptor_index as int) == frame_end(
                    statuses@,
                    descriptor_index + i,
                ),
            decreases statuses@.len() - descriptor_index - i,
        {
            assert(descriptor_index + i + 1 < statuses@.len()) by {
                assert(frame_end(statuses@, descriptor_index + i) is Some);
            }
            i = i + 1;
            last_descriptor = statuses[descriptor_index + i];
            if last_descriptor.own {
                // the frame is not fully received
                return Err(Error::Exhausted);
            }
        }
        if last_descriptor.error {
            Err(Error::Truncated)
        } else {
            proof {
                lemma_offset_in_buffer(self.config, descriptor_index as nat);
            }
            let offset = self.config.descriptor_buffer_offset(descriptor_index);
            let len = last_descriptor.frame_len;
            Ok((offset, len))
        }
    }

    /// Finishes the receive of the frame that starts at the next descriptor, once
    /// [`packet_data`](Self::packet_data) and the network stack gave `ret`, and gives the
    /// descriptors to hand back to the DMA, in order.
    ///
    /// An `Exhausted` result leaves everything as it is. On success, the descriptors of the
    /// frame after its first one are handed back, then the first one, and the next frame
    /// starts after the frame's last descriptor. On another error, only the first descriptor
    /// is handed back and the next frame starts after it.
    pub fn receive<T>(&mut self, statuses: &[RxStatus], ret: &Result<T, Error>) -> (resets: Vec<usize>)
        requires
            old(self).wf(),
            statuses@.len() == old(self).spec_config().spec_number_of_descriptors(),
            ret is Ok ==> frame_end(statuses@, old(self).spec_next() as int) matches Some(Ok(_)),
        ensures
            final(self).wf(),
            final(self).spec_config() == old(self).spec_config(),
            match *ret {
                Err(Error::Exhausted) => resets@ == Seq::<usize>::empty() && final(self).spec_next()
                    == old(self).spec_next(),
                Err(_) => resets@ == seq![old(self).spec_next() as usize] && final(self).spec_next()
                    == (old(self).spec_next() + 1) % statuses@.len(),
                Ok(_) => {
                    let first = old(self).spec_next() as int;
                    let last = frame_end(statuses@, first)->Some_0->Ok_0;
                    &&& resets@ == Seq::new((last - first) as nat, |t: int| (first + 1 + t) as usize).push(
                        first as usize,
                    )
                    &&& final(self).spec_next() == (last + 1) % (statuses@.len() as int)
                },
            },
    {
        let descriptor_index = self.next_descriptor;
        let n = statuses.len();
        let mut resets: Vec<usize> = Vec::new();
        if let Err(Error::Exhausted) = ret {
            return resets;
        }
        let mut next = (descriptor_index + 1) % n;
        if ret.is_ok() {
            // hand back the descriptors after the first one, up to the last of the frame
            let ghost last = frame_end(statuses@, descriptor_index as int)->Some_0->Ok_0;
            let mut j: usize = descriptor_index;
            let mut descriptor = statuses[descriptor_index];
            while !descriptor.last
                invariant
                    n == statuses@.len(),
                    descriptor_index <= j < n,
                    descriptor == statuses@[j as int],
                    frame_end(statuses@, j as int) == Some(Ok::<int, ()>(last)),
                    next == (j + 1) % (n as int),
                    resets@ == Seq::new((j - descriptor_index) as nat, |t: int| (descriptor_index + 1 + t) as usize),
                decreases n - j,
            {
                assert(j + 1 < n) by {
                    assert(frame_end(statuses@, j as int) is Some);
                }
                proof {
                    vstd::arithmetic::div_mod::lemma_small_mod((j + 1) as nat, n as nat);
                }
                j = j + 1;
                descriptor = statuses[next];
                resets.push(next);
                next = (next + 1) % n;
                assert(resets@ =~= Seq::new((j - descriptor_index) as nat, |t: int| (descriptor_index + 1 + t) as usize));
            }
        }
        resets.push(descriptor_index);
        self.next_descriptor = next;
        resets
    }
}

/// Whether sending has to write the transmit poll demand register, from the transmit process
/// state `tps` (the TPS field of the DMA status register) and whether the transmit queue is
/// empty: only a suspended process (`0b110`) with frames to send is woken. A stopped process
/// (`0b000`) and the reserved states (`0b100`, `0b101`) are not accepted.
pub fn start_send(tps: u8, queue_empty: bool) -> (r: bool)
    requires
        tps < 8,
        tps != 0b000,
        tps != 0b100,
        tps != 0b101,
    ensures
        r == (tps == 0b110 && !queue_empty),
{
    if tps == 0b110 {
        // suspended
        !queue_empty
    } else {
        // running
        false
    }
}

/// The configuration of the transmit descriptor ring.
pub struct TxConfig {
    number_of_descriptors: usize,
}

impl TxConfig {
    /// The number of transmit descriptors.
    pub closed spec fn spec_number_of_descriptors(&self) -> nat {
        self.number_of_descriptors as nat
    }

    /// The default configuration: 64 transmit descriptors.
    pub fn default() -> (r: TxConfig)
        ensures
            r.spec_number_of_descriptors() == 64,
    {
        TxConfig { number_of_descriptors: 64 }
    }
}

/// The ring of transmit descriptors and the index of the next one to fill.
pub struct TxDevice {
    descriptors: Vec<TxDescriptor>,
    next_descriptor: usize,
}

impl TxDevice {
    /// The descriptors of the ring.
    pub closed spec fn spec_descriptors(&self) -> Seq<TxDescriptor> {
        self.descriptors@
    }

    /// The index of the next descriptor to fill.
    pub closed spec fn spec_next(&self) -> nat {
        self.next_descriptor as nat
    }

    /// A ring is valid when it has a descriptor and the next index lies in it.
    pub open spec fn wf(&self) -> bool {
        &&& self.spec_descriptors().len() > 0
        &&& self.spec_next() < self.spec_descriptors().len()
    }

    /// Creates the ring: empty descriptors, of which only the last is marked as end of ring.
    pub fn new(config: TxConfig) -> (r: TxDevice)
        requires
            config.spec_number_of_descriptors() > 0,
        ensures
            r.wf(),
            r.spec_next() == 0,
            r.spec_descriptors().len() == config.spec_number_of_descriptors(),
            forall|i: int|
                0 <= i < r.spec_descriptors().len() ==> {
                    &&& !(#[trigger] r.spec_descriptors()[i]).spec_own()
                    &&& r.spec_descriptors()[i].spec_buffer_address() == 0
                    &&& r.spec_descriptors()[i].spec_end_of_ring() == (i
                        == r.spec_descriptors().len() - 1)
                },
    {
        let descriptor_num = config.number_of_descriptors;
        let mut descriptors: Vec<TxDescriptor> = Vec::new();
        let mut i: usize = 0;
        while i < descriptor_num
            invariant
                i <= descriptor_num,
                descriptors@.len() == i,
                forall|j: int|
                    0 <= j < i ==> {
                        &&& !(#[trigger] descriptors@[j]).spec_own()
                        &&& descriptors@[j].spec_buffer_address() == 0
                        &&& descriptors@[j].spec_end_of_ring() == (j == descriptor_num - 1)
                    },
            decreases descriptor_num - i,
        {
            let mut descriptor = TxDescriptor::empty();
            if i == descriptor_num - 1 {
                descriptor.set_end_of_ring(true);
            }
            descriptors.push(descriptor);
            i = i + 1;
        }
        TxDevice { descriptors, next_descriptor: 0 }
    }

    /// Hands a frame buffer to the next descriptor and advances to the following one.
    ///
    /// The next descriptor must have been released by the DMA. Returns the buffers that were
    /// taken out of released descriptors (see [`cleanup`](Self::cleanup)), so that they can
    /// be freed.
    pub fn insert(&mut self, buffer_address: usize, buffer_size: usize) -> (freed: Vec<
        (usize, usize),
    >)
        requires
            old(self).wf(),
            !old(self).spec_descriptors()[old(self).spec_next() as int].spec_own(),
            buffer_address <= u32::MAX,
            buffer_size < 0x2000,
        ensures
            final(self).wf(),
            final(self).spec_next() == (old(self).spec_next() + 1)
                % old(self).spec_descriptors().len(),
            final(self).spec_descriptors().len() == old(self).spec_descriptors().len(),
            ({
                let d = final(self).spec_descriptors()[old(self).spec_next() as int];
                &&& d.spec_own()
                &&& d.spec_buffer_address() == buffer_address
                &&& d.spec_buffer_size() == buffer_size
            }),
            forall|i: int|
                #![trigger final(self).spec_descriptors()[i]]
                0 <= i < final(self).spec_descriptors().len()
                    && !final(self).spec_descriptors()[i].spec_own()
                    ==> final(self).spec_descriptors()[i].spec_buffer_address() == 0,
            freed@ == freeable_buffers(
                old(self).spec_descriptors().update(
                    old(self).spec_next() as int,
                    final(self).spec_descriptors()[old(self).spec_next() as int],
                ),
            ),
    {
        let n = self.next_descriptor;
        let len = self.descriptors.len();
        let mut d = self.descriptors[n];
        let _ = d.set_data(buffer_address, buffer_size);
        self.descriptors.set(n, d);
        self.next_descriptor = (n + 1) % len;
        let ghost filled = self.descriptors@;
        assert(filled[n as int] == d);
        let freed = self.cleanup();
        assert(self.descriptors@[n as int] == filled[n as int]);
        assert forall|i: int|
            0 <= i < self.descriptors@.len() && !self.descriptors@[i].spec_own() implies
                self.descriptors@[i].spec_buffer_address() == 0 by {
            let b = filled[i];
        }
        freed
    }

    /// The first descriptor of the ring.
    pub fn front_of_queue(&self) -> (r: &TxDescriptor)
        requires
            self.wf(),
        ensures
            *r == self.spec_descriptors()[0],
    {
        &self.descriptors[0]
    }

    /// Whether the DMA owns none of the descriptors.
    pub fn queue_empty(&self) -> (r: bool)
        ensures
            r == (forall|i: int|
                0 <= i < self.spec_descriptors().len() ==> !(
                #[trigger] self.spec_descriptors()[i]).spec_own()),
    {
        let mut i: usize = 0;
        while i < self.descriptors.len()
            invariant
                i <= self.descriptors@.len(),
                forall|j: int| 0 <= j < i ==> !(#[trigger] self.descriptors@[j]).spec_own(),
            decreases self.descriptors@.len() - i,
        {
            if self.descriptors[i].own() {
                assert(self.spec_descriptors()[i as int].spec_own());
                return false;
            }
            i = i + 1;
        }
        true
    }

    /// Takes the buffers out of all descriptors that the DMA has released, and returns them
    /// (address and size, in ring order) so that they can be freed. Descriptors that the DMA
    /// owns are left as they are.
    pub fn cleanup(&mut self) -> (freed: Vec<(usize, usize)>)
        requires
            old(self).wf(),
        ensures
            final(self).wf(),
            final(self).spec_next() == old(self).spec_next(),
            final(self).spec_descriptors().len() == old(self).spec_descriptors().len(),
            forall|i: int|
                0 <= i < old(self).spec_descriptors().len() ==> {
                    let before = #[trigger] old(self).spec_descriptors()[i];
                    let after = final(self).spec_descriptors()[i];
                    if before.spec_own() {
                        after == before
                    } else {
                        &&& after.spec_buffer_address() == 0
                        &&& after.word0() == before.word0()
                        &&& after.word1() == before.word1()
                        &&& after.word3() == before.word3()
                    }
                },
            freed@ == freeable_buffers(old(self).spec_descriptors()),
    {
        let mut freed: Vec<(usize, usize)> = Vec::new();
        let mut i: usize = 0;
        let ghost before = self.descriptors@;
        while i < self.descriptors.len()
            invariant
                i <= self.descriptors@.len(),
                self.descriptors@.len() == before.len(),
                self.next_descriptor == old(self).next_descriptor,
                before == old(self).descriptors@,
                old(self).wf(),
                forall|j: int|
                    i <= j < before.len() ==> self.descriptors@[j] == #[trigger] before[j],
                forall|j: int|
                    0 <= j < i ==> {
                        let b = #[trigger] before[j];
                        let a = self.descriptors@[j];
                        if b.spec_own() {
                            a == b
                        } else {
                            &&& a.spec_buffer_address() == 0
                            &&& a.word0() == b.word0()
                            &&& a.word1() == b.word1()
                            &&& a.word3() == b.word3()
                        }
                    },
                freed@ == freeable_buffers(before.subrange(0, i as int)),
            decreases self.descriptors@.len() - i,
        {
            let mut d = self.descriptors[i];
            assert(before.subrange(0, i + 1).drop_last() == before.subrange(0, i as int));
            if !d.own() {
                match d.buffer() {
                    Some(buffer) => {
                        freed.push(buffer);
                    },
                    None => {},
                }
                self.descriptors.set(i, d);
            }
            i = i + 1;
        }
        assert(before.subrange(0, before.len() as int) == before);
        freed
    }
}

/// The buffers (address and size) of the descriptors in `ds` that the DMA has released and
/// that hold one, in ring order.
pub open spec fn freeable_buffers(ds: Seq<TxDescriptor>) -> Seq<(usize, usize)>
    decreases ds.len(),
{
    if ds.len() == 0 {
        seq![]
    } else if !ds.last().spec_own() && ds.last().spec_buffer_address() != 0 {
        freeable_buffers(ds.drop_last()).push(
            (ds.last().spec_buffer_address() as usize, ds.last().spec_buffer_size() as usize),
        )
    } else {
        freeable_buffers(ds.drop_last())
    }
}

} // verus!
