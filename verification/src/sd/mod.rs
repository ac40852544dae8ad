//! The SD card driver's errors, response decoding and card information.

pub mod error;
pub mod sdmmc_cmd;

use self::error::{Error, RWErrorType};
use vstd::prelude::*;

verus! {

/// Different SD card versions.
#[derive(Debug, Clone, Copy, PartialEq, Eq, Structural)]
pub enum CardType {
    /// SD version 1, always Standard Capacity (SD)
    SDv1,
    /// SD version 2 with SD (up to 2 GB)
    SDv2SC,
    /// SD version 2 with High Capacity (HC) (up to 32 GB) or Extended Capacity (XC) (up to 2 TB)
    SDv2HC,
}

/// Various information about the SD card.
#[derive(Debug, Clone, Copy, PartialEq, Eq, Structural)]
pub struct CardInfo {
    /// The type of the card.
    pub card_type: CardType,
    /// Relative Card Address
    pub rca: u16,
    /// Number of physical blocks
    pub blk_number: u32,
    /// Physical block size
    pub blk_size: u32,
    /// Number of logical blocks
    pub log_blk_number: u32,
    /// Logical block size
    pub log_blk_size: u32,
}

impl CardInfo {
    /// The information of a card that is not yet identified: a high capacity card with no
    /// address and no blocks.
    pub fn default() -> (r: CardInfo)
        ensures
            r == (CardInfo {
                card_type: CardType::SDv2HC,
                rca: 0,
                blk_number: 0,
                blk_size: 0,
                log_blk_number: 0,
                log_blk_size: 0,
            }),
    {
        CardInfo {
            card_type: CardType::SDv2HC,
            rca: 0,
            blk_number: 0,
            blk_size: 0,
            log_blk_number: 0,
            log_blk_size: 0,
        }
    }
}

/// The device size field of a version 2 high capacity CSD (bits 48 to 69 of the register).
pub open spec fn csd_hc_device_size(csd: [u32; 4]) -> int {
    (csd[1] % 0x40) * 0x1_0000 + csd[2] / 0x1_0000
}

/// The device size field of a standard capacity CSD (bits 62 to 73 of the register).
pub open spec fn csd_sc_device_size(csd: [u32; 4]) -> int {
    (csd[1] % 0x400) * 4 + csd[2] / 0x4000_0000
}

/// The device size multiplier field of a standard capacity CSD (bits 47 to 49).
pub open spec fn csd_sc_device_size_mul(csd: [u32; 4]) -> int {
    ((csd[2] / 0x8000) % 8) as int
}

/// The read block length field of a standard capacity CSD (bits 80 to 83).
pub open spec fn csd_sc_read_block_len(csd: [u32; 4]) -> int {
    ((csd[1] / 0x1_0000) % 0x10) as int
}

/// Two to the power of `n`.
pub open spec fn pow2(n: nat) -> nat
    decreases n,
{
    if n == 0 {
        1
    } else {
        2 * pow2((n - 1) as nat)
    }
}

/// The fields of the CSD register, read by their bits: with `csd[1]` holding bits 64 to 95
/// and `csd[2]` bits 32 to 63 of the register, the high capacity device size is bits 48 to 69
/// (the low 6 bits of `csd[1]` above the high half of `csd[2]`), the standard capacity device
/// size bits 62 to 73, its multiplier bits 47 to 49, and the read block length bits 80 to 83.
/// No other bit of the register takes part.
pub proof fn lemma_csd_fields_are_bits(csd: [u32; 4])
    ensures
        csd_hc_device_size(csd) == ((csd[1] & 0x3F) << 16u32) | (csd[2] >> 16u32),
        csd_sc_device_size(csd) == ((csd[1] & 0x3FF) << 2u32) | (csd[2] >> 30u32),
        csd_sc_device_size_mul(csd) == (csd[2] >> 15u32) & 7,
        csd_sc_read_block_len(csd) == (csd[1] >> 16u32) & 0xF,
{
    let c1 = csd[1];
    let c2 = csd[2];
    assert({
        &&& ((c1 & 0x3F) << 16u32) | (c2 >> 16u32) == (c1 % 0x40) * 0x1_0000 + c2 / 0x1_0000
        &&& ((c1 & 0x3FF) << 2u32) | (c2 >> 30u32) == (c1 % 0x400) * 4 + c2 / 0x4000_0000
        &&& (c2 >> 15u32) & 7 == (c2 / 0x8000) % 8
        &&& (c1 >> 16u32) & 0xF == (c1 / 0x1_0000) % 0x10
    }) by (bit_vector);
}

/// Whether the block counts of a CSD fit into 32 bits: the device size of a high capacity
/// card must not be the largest value of its field.
pub open spec fn csd_fits(card_type: CardType, csd: [u32; 4]) -> bool {
    card_type == CardType::SDv2HC ==> csd_hc_device_size(csd) < 0x3F_FFFF
}

/// Checks whether the block counts of a CSD fit into 32 bits (see [`csd_fits`]).
pub fn csd_in_range(card_type: CardType, csd: [u32; 4]) -> (r: bool)
    ensures
        r == csd_fits(card_type, csd),
{
    if card_type == CardType::SDv2HC {
        let device_size: u64 = ((csd[1] % 0x40) as u64) * 0x1_0000 + (csd[2] / 0x1_0000) as u64;
        device_size < 0x3F_FFFF
    } else {
        true
    }
}

/// Reads the block counts and sizes of the card from its card specific data (CSD) register.
///
/// For high capacity cards the blocks are 512 bytes and their number is
/// `(device_size + 1) * 1024`; for standard capacity cards the number of physical blocks is
/// `(device_size + 1) * 2^(device_size_mul + 2)`, physical blocks are `2^read_block_len`
/// bytes, and logical blocks are 512 bytes.
pub fn get_card_csd(card_info: &mut CardInfo, csd: [u32; 4])
    requires
        csd_fits(old(card_info).card_type, csd),
    ensures
        final(card_info).card_type == old(card_info).card_type,
        final(card_info).rca == old(card_info).rca,
        old(card_info).card_type == CardType::SDv2HC ==> {
            &&& final(card_info).blk_number == (csd_hc_device_size(csd) + 1) * 1024
            &&& final(card_info).blk_number == ((((csd[1] & 0x3F) << 16u32) | (csd[2] >> 16u32)) + 1)
                * 1024
            &&& final(card_info).log_blk_number == final(card_info).blk_number
            &&& final(card_info).blk_size == 512
            &&& final(card_info).log_blk_size == 512
        },
        old(card_info).card_type != CardType::SDv2HC ==> {
            &&& final(card_info).blk_number == (csd_sc_device_size(csd) + 1) * pow2(
                (csd_sc_device_size_mul(csd) + 2) as nat,
            )
            &&& final(card_info).blk_size == pow2(csd_sc_read_block_len(csd) as nat)
            &&& final(card_info).blk_number == ((((csd[1] & 0x3FF) << 2u32) | (csd[2] >> 30u32)) + 1)
                * pow2((((csd[2] >> 15u32) & 7) + 2) as nat)
            &&& final(card_info).blk_size == pow2(((csd[1] >> 16u32) & 0xF) as nat)
            &&& final(card_info).log_blk_number == final(card_info).blk_number * (final(card_info).blk_size / 512)
            &&& final(card_info).log_blk_size == 512
        },
{
    proof {
        lemma_csd_fields_are_bits(csd);
    }
    let c1 = csd[1];
    let c2 = csd[2];
    if card_info.card_type == CardType::SDv2HC {
        let tmp = c1 & 0xFF;
        let mut device_size = (tmp & 0x3F) << 16;

        let tmp = (c2 & 0xFFFF_0000) >> 16;
        device_size = device_size | tmp;
        assert(((c1 & 0xFF) & 0x3F) << 16u32 | ((c2 & 0xFFFF_0000) >> 16u32) == (c1 % 0x40)
            * 0x1_0000 + c2 / 0x1_0000) by (bit_vector);

        card_info.blk_number = (device_size + 1) * 1024;
        card_info.log_blk_number = card_info.blk_number;
        card_info.blk_size = 512;
        card_info.log_blk_size = card_info.blk_size;
    } else {
        let tmp = c1 & 0x3FF;
        let mut device_size = tmp << 2;

        let tmp = (c2 & 0xFF00_0000) >> 24;
        device_size = device_size | ((tmp & 0xC0) >> 6);
        assert((c1 & 0x3FF) << 2u32 | ((((c2 & 0xFF00_0000) >> 24u32) & 0xC0) >> 6u32) == (c1
            % 0x400) * 4 + c2 / 0x4000_0000) by (bit_vector);

        let device_size_mul = (c2 & 0x0003_8000) >> 15;
        assert((c2 & 0x0003_8000) >> 15u32 == (c2 / 0x8000) % 8) by (bit_vector);

        let rd_blk_len = (c1 & 0x000F_0000) >> 16;
        assert((c1 & 0x000F_0000) >> 16u32 == (c1 / 0x1_0000) % 0x10) by (bit_vector);

        let mul_factor = 1u32 << (device_size_mul + 2);
        assert(mul_factor <= 0x200) by (bit_vector)
            requires
                mul_factor == 1u32 << (device_size_mul + 2),
                device_size_mul < 8,
        ;
        proof {
            lemma_shl_is_pow2((device_size_mul + 2) as u32);
        }
        assert((device_size + 1) * mul_factor <= 0x1000 * 0x200) by (nonlinear_arith)
            requires
                device_size < 0x1000,
                mul_factor <= 0x200,
        ;
        card_info.blk_number = (device_size + 1) * mul_factor;
        card_info.blk_size = 1u32 << rd_blk_len;
        proof {
            lemma_shl_is_pow2(rd_blk_len);
        }
        let factor = card_info.blk_size / 512;
        assert((1u32 << rd_blk_len) / 512 <= 0x40) by (bit_vector)
            requires
                rd_blk_len < 16,
        ;
        assert(card_info.blk_number * factor <= 0x1000 * 0x200 * 0x40) by (nonlinear_arith)
            requires
                card_info.blk_number <= 0x1000 * 0x200,
                factor <= 0x40,
        ;
        card_info.log_blk_number = card_info.blk_number * factor;
        card_info.log_blk_size = 512;
    }
}

/// Shifting 1 left by `n < 32` bits gives two to the power of `n`.
proof fn lemma_shl_is_pow2(n: u32)
    requires
        n < 32,
    ensures
        1u32 << n == pow2(n as nat),
    decreases n,
{
    if n == 0 {
        assert(1u32 << 0u32 == 1u32) by (bit_vector);
    } else {
        let m = (n - 1) as u32;
        lemma_shl_is_pow2(m);
        assert(1u32 << n == 2 * (1u32 << m)) by (bit_vector)
            requires
                0 < n < 32,
                m == n - 1,
        ;
    }
}

/// Whether an OCR register value reports that the card finished its power up (bit 31).
pub fn voltage_valid(card_status: u32) -> (r: bool)
    ensures
        r == (card_status >= 0x8000_0000),
{
    assert((card_status >> 31u32 == 1u32) == (card_status >= 0x8000_0000u32)) by (bit_vector);
    card_status >> 31 == 1
}

/// The number of voltage trials (ACMD41) after which powering on the card gives up.
pub const MAX_VOLT_TRIAL: u32 = 0xFFFF;

/// Counts one more voltage trial after `count` trials: fails with `InvalidVoltrange` once
/// [`MAX_VOLT_TRIAL`] trials were made, so the trials end.
pub fn next_voltage_trial(count: u32) -> (r: Result<u32, Error>)
    requires
        count <= MAX_VOLT_TRIAL,
    ensures
        r == if count == MAX_VOLT_TRIAL {
            Err(Error::InvalidVoltrange)
        } else {
            Ok((count + 1) as u32)
        },
{
    if count == MAX_VOLT_TRIAL {
        return Err(Error::InvalidVoltrange);
    }
    Ok(count + 1)
}

/// The argument of ACMD41 in a voltage trial: the high capacity support bit (bit 30) for a
/// card that answered the operating condition command (version 2), nothing otherwise.
pub fn app_oper_argument(version_2: bool) -> (r: u32)
    ensures
        r == if version_2 {
            0x4000_0000u32
        } else {
            0u32
        },
{
    if version_2 {
        0x4000_0000
    } else {
        0
    }
}

/// Whether the initialization of the card has work to do: fails with `NoSdCard` without a
/// card, has nothing to do (`false`) for a card that is already initialized.
pub fn init_needed(card_present: bool, card_initialized: bool) -> (r: Result<bool, Error>)
    ensures
        r == if !card_present {
            Err(Error::NoSdCard)
        } else {
            Ok(!card_initialized)
        },
{
    // Check for SD card
    if !card_present {
        return Err(Error::NoSdCard);
    }
    // Card already initialized
    Ok(!card_initialized)
}

/// The argument of the commands that address the card by its relative address: the RCA in
/// the upper 16 bits.
pub fn rca_argument(rca: u16) -> (r: u32)
    ensures
        r == rca * 0x1_0000,
{
    let x = rca as u32;
    assert(x << 16u32 == x * 0x1_0000) by (bit_vector)
        requires
            x < 0x1_0000,
    ;
    x << 16
}

/// The type of a version 2 card, from the card capacity status bit (bit 30) of its OCR.
pub fn v2_card_type(card_status: u32) -> (r: CardType)
    ensures
        r == if (card_status / 0x4000_0000) % 2 == 1 {
            CardType::SDv2HC
        } else {
            CardType::SDv2SC
        },
{
    assert((card_status & 0x4000_0000 != 0) == ((card_status / 0x4000_0000) % 2 == 1))
        by (bit_vector);
    if card_status & 0x4000_0000 != 0 {
        CardType::SDv2HC
    } else {
        CardType::SDv2SC
    }
}

/// The address to send with a read or write command for `number_of_blks` blocks starting at
/// block `block_add`: the block number, or for high capacity cards the byte address.
///
/// Fails with `AddressOutOfRange` if the blocks lie beyond the card's last logical block.
pub open spec fn spec_transfer_address(card_info: CardInfo, block_add: u32, number_of_blks: u16) -> Result<
    u32,
    Error,
> {
    if block_add + number_of_blks > card_info.log_blk_number {
        Err(Error::RWError { t: RWErrorType::AddressOutOfRange })
    } else if card_info.card_type == CardType::SDv2HC {
        Ok((block_add * card_info.log_blk_size) as u32)
    } else {
        Ok(block_add)
    }
}

/// Checks that a transfer of `number_of_blks` blocks at block `block_add` lies on the card
/// and computes the address for the command.
pub fn transfer_address(card_info: &CardInfo, block_add: u32, number_of_blks: u16) -> (r: Result<
    u32,
    Error,
>)
    requires
        block_add + number_of_blks <= u32::MAX,
        card_info.card_type == CardType::SDv2HC && block_add + number_of_blks
            <= card_info.log_blk_number ==> block_add * card_info.log_blk_size <= u32::MAX,
    ensures
        r == spec_transfer_address(*card_info, block_add, number_of_blks),
{
    if block_add + number_of_blks as u32 > card_info.log_blk_number {
        return Err(Error::RWError { t: RWErrorType::AddressOutOfRange });
    }
    if card_info.card_type == CardType::SDv2HC {
        Ok(block_add * card_info.log_blk_size)
    } else {
        Ok(block_add)
    }
}

/// The checks before a block transfer and the values it programs: nothing to do for zero
/// blocks (`None`); otherwise a card must be present and the blocks must lie on the card, and
/// the transfer uses the address of [`transfer_address`] and a data length of
/// `number_of_blks * log_blk_size` bytes.
pub fn prepare_transfer(
    card_present: bool,
    card_info: &CardInfo,
    block_add: u32,
    number_of_blks: u16,
) -> (r: Result<Option<(u32, u32)>, Error>)
    requires
        block_add + number_of_blks <= u32::MAX,
        block_add + number_of_blks <= card_info.log_blk_number ==> number_of_blks
            * card_info.log_blk_size <= u32::MAX,
        card_info.card_type == CardType::SDv2HC && block_add + number_of_blks
            <= card_info.log_blk_number ==> block_add * card_info.log_blk_size <= u32::MAX,
    ensures
        r == (if number_of_blks == 0 {
            Ok(None)
        } else if !card_present {
            Err(Error::NoSdCard)
        } else {
            match spec_transfer_address(*card_info, block_add, number_of_blks) {
                Ok(address) => Ok(Some((address, (number_of_blks * card_info.log_blk_size) as u32))),
                Err(e) => Err(e),
            }
        }),
{
    // no blocks: nothing to transfer
    if number_of_blks == 0 {
        return Ok(None);
    }
    if !card_present {
        return Err(Error::NoSdCard);
    }
    let address = transfer_address(card_info, block_add, number_of_blks)?;
    let data_length = (number_of_blks as u32) * card_info.log_blk_size;
    Ok(Some((address, data_length)))
}

/// The part of `data` that the write of block `i` of a multi-block write starts with: the
/// words from `i * 128` on (a block holds 128 words), or nothing when the data is shorter.
pub fn block_data_start(data_len: usize, i: u32) -> (r: usize)
    requires
        i * 128 <= usize::MAX,
    ensures
        r == if i * 128 < data_len {
            i * 128
        } else {
            data_len as int
        },
{
    let start = (i as usize) * 128;
    if start < data_len {
        start
    } else {
        data_len
    }
}

/// The flags of the SDMMC status register (STA) that a block transfer watches.
#[derive(Debug, Clone, Copy, PartialEq, Eq, Structural)]
pub struct DataStatus {
    /// The data timeout elapsed.
    pub dtimeout: bool,
    /// The CRC check of a data block failed.
    pub dcrcfail: bool,
    /// The transmit FIFO ran empty during a write.
    pub txunderr: bool,
    /// The receive FIFO overflowed during a read.
    pub rxoverr: bool,
    /// The data counter reached zero: the transfer is done.
    pub dataend: bool,
}

/// Whether a block read goes on moving data: none of the flags that end it is set.
pub fn read_in_progress(sta: DataStatus) -> (r: bool)
    ensures
        r == (!sta.rxoverr && !sta.dcrcfail && !sta.dtimeout && !sta.dataend),
{
    !sta.rxoverr && !sta.dcrcfail && !sta.dtimeout && !sta.dataend
}

/// Whether a block write goes on moving data: none of the flags that end it is set.
pub fn write_in_progress(sta: DataStatus) -> (r: bool)
    ensures
        r == (!sta.txunderr && !sta.dcrcfail && !sta.dtimeout && !sta.dataend),
{
    !sta.txunderr && !sta.dcrcfail && !sta.dtimeout && !sta.dataend
}

/// The error that ends a block read, checked in this order: data timeout, CRC failure, receive
/// FIFO overrun; `None` if none of these flags is set.
pub fn read_transfer_error(sta: DataStatus) -> (r: Option<Error>)
    ensures
        r == (if sta.dtimeout {
            Some(Error::RWError { t: RWErrorType::DataTimeout })
        } else if sta.dcrcfail {
            Some(Error::RWError { t: RWErrorType::DataCrcFailed })
        } else if sta.rxoverr {
            Some(Error::RWError { t: RWErrorType::RxOverrun })
        } else {
            None
        }),
{
    if sta.dtimeout {
        Some(Error::RWError { t: RWErrorType::DataTimeout })
    } else if sta.dcrcfail {
        Some(Error::RWError { t: RWErrorType::DataCrcFailed })
    } else if sta.rxoverr {
        Some(Error::RWError { t: RWErrorType::RxOverrun })
    } else {
        None
    }
}

/// The error that ends a block write, checked in this order: data timeout, CRC failure,
/// transmit FIFO underrun; `None` if none of these flags is set.
pub fn write_transfer_error(sta: DataStatus) -> (r: Option<Error>)
    ensures
        r == (if sta.dtimeout {
            Some(Error::RWError { t: RWErrorType::DataTimeout })
        } else if sta.dcrcfail {
            Some(Error::RWError { t: RWErrorType::DataCrcFailed })
        } else if sta.txunderr {
            Some(Error::RWError { t: RWErrorType::TxUnderrun })
        } else {
            None
        }),
{
    if sta.dtimeout {
        Some(Error::RWError { t: RWErrorType::DataTimeout })
    } else if sta.dcrcfail {
        Some(Error::RWError { t: RWErrorType::DataCrcFailed })
    } else if sta.txunderr {
        Some(Error::RWError { t: RWErrorType::TxUnderrun })
    } else {
        None
    }
}

/// The words that a block write puts into the transmit FIFO when it is half empty, with
/// `counter` words of `data` already sent: the next (up to) 8 words of the data, or 8 zeros
/// once the data is used up.
pub open spec fn fifo_chunk(data: Seq<u32>, counter: int) -> Seq<u32> {
    if counter < data.len() {
        data.subrange(
            counter,
            if counter + 8 < data.len() {
                counter + 8
            } else {
                data.len() as int
            },
        )
    } else {
        Seq::new(8, |i: int| 0u32)
    }
}

/// The count of data words sent after the chunk at `counter`: it advances by 8 while data is
/// left.
pub open spec fn next_counter(data: Seq<u32>, counter: int) -> int {
    if counter < data.len() {
        counter + 8
    } else {
        counter
    }
}

/// The words of `n` successive chunks, starting with `counter` data words sent.
pub open spec fn fed_words(data: Seq<u32>, counter: int, n: nat) -> Seq<u32>
    decreases n,
{
    if n == 0 {
        Seq::empty()
    } else {
        fifo_chunk(data, counter) + fed_words(data, next_counter(data, counter), (n - 1) as nat)
    }
}

/// Word `i` of the data extended with zeros: what a block written from `data` holds.
pub open spec fn padded_word(data: Seq<u32>, i: int) -> u32 {
    if i < data.len() {
        data[i]
    } else {
        0
    }
}

/// The next chunk of a block write: the words to put into the FIFO and the new count of data
/// words sent (see [`fifo_chunk`]).
pub fn write_fifo_chunk(data: &[u32], counter: usize) -> (r: (Vec<u32>, usize))
    requires
        counter + 8 <= usize::MAX,
    ensures
        r.0@ == fifo_chunk(data@, counter as int),
        r.1 == next_counter(data@, counter as int),
{
    let mut chunk: Vec<u32> = Vec::new();
    if counter < data.len() {
        let end = if counter + 8 < data.len() {
            counter + 8
        } else {
            data.len()
        };
        let mut k = counter;
        while k < end
            invariant
                counter <= k <= end <= data@.len(),
                chunk@ == data@.subrange(counter as int, k as int),
            decreases end - k,
        {
            chunk.push(data[k]);
            k = k + 1;
        }
        (chunk, counter + 8)
    } else {
        let mut k: usize = 0;
        while k < 8
            invariant
                k <= 8,
                chunk@ == Seq::new(k as nat, |i: int| 0u32),
            decreases 8 - k,
        {
            chunk.push(0);
            k = k + 1;
        }
        (chunk, counter)
    }
}

/// The chunks of a block write feed the FIFO with the data followed by zeros, whatever the
/// data length: word `i` of the chunks from `counter` on is word `min(counter, len) + i` of
/// the zero-padded data, and at most one chunk is shorter than 8 words. So a block holds the
/// first 128 words of the data, filled up with zeros.
pub proof fn lemma_fed_words_are_padded_data(data: Seq<u32>, counter: int, n: nat)
    requires
        0 <= counter,
    ensures
        forall|i: int|
            0 <= i < fed_words(data, counter, n).len() ==> #[trigger] fed_words(data, counter, n)[i]
                == padded_word(
                data,
                (if counter < data.len() {
                    counter
                } else {
                    data.len() as int
                }) + i,
            ),
        n >= 1 ==> fed_words(data, counter, n).len() >= 8 * (n - 1),
        counter >= data.len() ==> fed_words(data, counter, n).len() == 8 * n,
    decreases n,
{
    if n > 0 {
        let next = next_counter(data, counter);
        lemma_fed_words_are_padded_data(data, next, (n - 1) as nat);
        let chunk = fifo_chunk(data, counter);
        let rest = fed_words(data, next, (n - 1) as nat);
        assert(fed_words(data, counter, n) == chunk + rest);
        let base = if counter < data.len() {
            counter
        } else {
            data.len() as int
        };
        let next_base = if next < data.len() {
            next
        } else {
            data.len() as int
        };
        if counter < data.len() {
            assert(next_base == base + chunk.len());
        }
        assert forall|i: int| 0 <= i < fed_words(data, counter, n).len() implies #[trigger] fed_words(
            data,
            counter,
            n,
        )[i] == padded_word(data, base + i) by {
            if i < chunk.len() {
                assert(fed_words(data, counter, n)[i] == chunk[i]);
            } else {
                assert(fed_words(data, counter, n)[i] == rest[i - chunk.len()]);
            }
        }
        assert(chunk.len() == 8 || next >= data.len());
    }
}

} // verus!
