//! Errors of the SD card driver and the card status flags of the SD protocol.

use vstd::prelude::*;

verus! {

/// Errors of the SD card driver.
#[allow(inconsistent_fields)]
#[derive(Debug, Clone, Copy, PartialEq, Eq, Structural)]
pub enum Error {
    /// Unknown error.
    Error,
    /// No SD card is inserted.
    NoSdCard,
    /// Timeout while waiting for a response.
    Timeout,
    /// The voltage trial failed.
    InvalidVoltrange,
    /// The card reported an error; see [`CardStatusFlags`].
    CardError {
        /// The error flag.
        t: CardStatusFlags,
    },
    /// The controller reported a failed command.
    SdmmcError {
        /// What failed.
        t: SdmmcErrorType,
    },
    /// An error during reading from or writing to the card.
    RWError {
        /// What failed.
        t: RWErrorType,
    },
}

/// Failures of a command reported by the SDMMC controller.
#[derive(Debug, Clone, Copy, PartialEq, Eq, Structural)]
pub enum SdmmcErrorType {
    /// The CRC check failed.
    CmdCrcFailed,
    /// No response to the command.
    CmdRespTimeout,
}

/// Failures of a block read or write.
#[derive(Debug, Clone, Copy, PartialEq, Eq, Structural)]
pub enum RWErrorType {
    /// The blocks lie outside the card.
    AddressOutOfRange,
    /// The data transfer timed out.
    DataTimeout,
    /// The CRC check of the data failed.
    DataCrcFailed,
    /// The transmit FIFO ran empty.
    TxUnderrun,
    /// The receive FIFO overflowed.
    RxOverrun,
}

/// A set of card status flags (see the tables of the card status in the SD specification).
#[derive(Debug, Clone, Copy, PartialEq, Eq, Structural)]
pub struct CardStatusFlags {
    bits: u32,
}

impl CardStatusFlags {
    /// The raw bits of the flags.
    pub closed spec fn spec_bits(&self) -> u32 {
        self.bits
    }

    /// The flags with the given bits.
    pub closed spec fn from_bits_spec(bits: u32) -> CardStatusFlags {
        CardStatusFlags { bits }
    }

    /// The flags with the given bits.
    pub fn from_bits(bits: u32) -> (r: CardStatusFlags)
        ensures
            r == Self::from_bits_spec(bits),
            r.spec_bits() == bits,
    {
        CardStatusFlags { bits }
    }

    /// The raw bits of the flags.
    pub fn bits(&self) -> (r: u32)
        ensures
            r == self.spec_bits(),
    {
        self.bits
    }
}

/// All error bits of the card status.
pub const OCR_ERROR_BITS: u32 = 0xFDFF_E008;
/// Error in the sequence of the authentication process.
pub const AKE_SEQ_ERROR: u32 = 0x0000_0008;
/// An erase sequence was cleared before executing.
pub const ERASE_RESET: u32 = 0x0000_2000;
/// The command has been executed without using the internal ECC.
pub const CARD_ECC_DISABLED: u32 = 0x0000_4000;
/// Only partial address space was erased due to write protected blocks.
pub const WP_ERASE_SKIP: u32 = 0x0000_8000;
/// The read only section of the CSD does not match the card content.
pub const CID_CSD_OVERWRITE: u32 = 0x0001_0000;
/// A general or an unknown error occurred.
pub const ERROR: u32 = 0x0008_0000;
/// Internal card controller error.
pub const CC_ERROR: u32 = 0x0010_0000;
/// Card internal ECC was applied but failed to correct the data.
pub const CARD_ECC_FAILED: u32 = 0x0020_0000;
/// The command was not legal for the card state.
pub const ILLEGAL_COMMAND: u32 = 0x0040_0000;
/// The CRC check of the previous command failed.
pub const COM_CRC_ERROR: u32 = 0x0080_0000;
/// A sequence or password error in the lock/unlock command.
pub const LOCK_UNLOCK_FAILED: u32 = 0x0100_0000;
/// Attempt to program a write protected block.
pub const WP_VIOLATION: u32 = 0x0400_0000;
/// An invalid selection of write blocks for erase occurred.
pub const ERASE_PARAM: u32 = 0x0800_0000;
/// An error in the sequence of erase commands occurred.
pub const ERASE_SEQ_ERROR: u32 = 0x1000_0000;
/// The transferred block length is not allowed.
pub const BLOCK_LEN_ERROR: u32 = 0x2000_0000;
/// A misaligned address was used in the command.
pub const ADDRESS_MISALIGNED: u32 = 0x4000_0000;
/// The command's argument was out of range.
pub const ADDRESS_OUT_OF_RANGE: u32 = 0x8000_0000;
/// The card expects an application command.
pub const APP_CMD: u32 = 0x0000_0020;
/// The card did not switch to the expected mode.
pub const SWITCH_ERROR: u32 = 0x0000_0080;
/// The buffer is empty on the bus.
pub const READY_FOR_DATA: u32 = 0x0000_0100;
/// The state of the card when receiving the command.
pub const CURRENT_STATE: u32 = 0x0000_1E00;
/// The card is locked by the host.
pub const CARD_IS_LOCKED: u32 = 0x0200_0000;
/// R6 response: a general or an unknown error occurred.
pub const R6_GENERAL_UNKNOWN_ERROR: u32 = 0x2000;
/// R6 response: the command was not legal for the card state.
pub const R6_ILLEGAL_COMMAND: u32 = 0x4000;
/// R6 response: the CRC check of the previous command failed.
pub const R6_CRC_FAILED: u32 = 0x8000;

} // verus!
