//! Decoding of the responses of the SD card to commands.

use super::error::{
    ADDRESS_MISALIGNED, ADDRESS_OUT_OF_RANGE, AKE_SEQ_ERROR, BLOCK_LEN_ERROR, CARD_ECC_DISABLED,
    CARD_ECC_FAILED, CC_ERROR, CID_CSD_OVERWRITE, COM_CRC_ERROR, CardStatusFlags, ERASE_PARAM,
    ERASE_RESET, ERASE_SEQ_ERROR, ERROR, Error, ILLEGAL_COMMAND, LOCK_UNLOCK_FAILED,
    OCR_ERROR_BITS, R6_CRC_FAILED, R6_GENERAL_UNKNOWN_ERROR, R6_ILLEGAL_COMMAND, SdmmcErrorType,
    WP_ERASE_SKIP, WP_VIOLATION,
};
use vstd::prelude::*;

verus! {

/// The error flags of an R1 card status, in the order in which they are reported: the first
/// one that is set is the error.
pub open spec fn error_flag_priority() -> Seq<u32> {
    seq![
        AKE_SEQ_ERROR,
        ERASE_RESET,
        CARD_ECC_DISABLED,
        WP_ERASE_SKIP,
        CID_CSD_OVERWRITE,
        CC_ERROR,
        CARD_ECC_FAILED,
        ILLEGAL_COMMAND,
        COM_CRC_ERROR,
        LOCK_UNLOCK_FAILED,
        WP_VIOLATION,
        ERASE_PARAM,
        ERASE_SEQ_ERROR,
        BLOCK_LEN_ERROR,
        ADDRESS_MISALIGNED,
        ADDRESS_OUT_OF_RANGE,
    ]
}

/// The first flag of `flags` that is set in `status`, or `ERROR` when none is.
pub open spec fn first_set_flag(status: u32, flags: Seq<u32>) -> u32
    decreases flags.len(),
{
    if flags.len() == 0 {
        ERROR
    } else if status & flags[0] != 0 {
        flags[0]
    } else {
        first_set_flag(status, flags.drop_first())
    }
}

/// The outcome of a command as an R1 card status reports it.
pub open spec fn spec_check_for_errors(card_status: u32) -> Result<(), Error> {
    if card_status & OCR_ERROR_BITS == 0 {
        Ok(())
    } else {
        Err(Error::CardError { t: CardStatusFlags::from_bits_spec(first_set_flag(card_status, error_flag_priority())) })
    }
}

/// Checks an R1 card status for errors: succeeds if no error bit is set, otherwise reports
/// the first error flag of [`error_flag_priority`] that is set, or `ERROR`.
pub fn check_for_errors(card_status: u32) -> (r: Result<(), Error>)
    ensures
        r == spec_check_for_errors(card_status),
{
    proof {
        reveal_with_fuel(first_set_flag, 17);
    }
    let flag = if card_status & OCR_ERROR_BITS == 0 {
        return Ok(());
    } else if card_status & AKE_SEQ_ERROR != 0 {
        AKE_SEQ_ERROR
    } else if card_status & ERASE_RESET != 0 {
        ERASE_RESET
    } else if card_status & CARD_ECC_DISABLED != 0 {
        CARD_ECC_DISABLED
    } else if card_status & WP_ERASE_SKIP != 0 {
        WP_ERASE_SKIP
    } else if card_status & CID_CSD_OVERWRITE != 0 {
        CID_CSD_OVERWRITE
    } else if card_status & CC_ERROR != 0 {
        CC_ERROR
    } else if card_status & CARD_ECC_FAILED != 0 {
        CARD_ECC_FAILED
    } else if card_status & ILLEGAL_COMMAND != 0 {
        ILLEGAL_COMMAND
    } else if card_status & COM_CRC_ERROR != 0 {
        COM_CRC_ERROR
    } else if card_status & LOCK_UNLOCK_FAILED != 0 {
        LOCK_UNLOCK_FAILED
    } else if card_status & WP_VIOLATION != 0 {
        WP_VIOLATION
    } else if card_status & ERASE_PARAM != 0 {
        ERASE_PARAM
    } else if card_status & ERASE_SEQ_ERROR != 0 {
        ERASE_SEQ_ERROR
    } else if card_status & BLOCK_LEN_ERROR != 0 {
        BLOCK_LEN_ERROR
    } else if card_status & ADDRESS_MISALIGNED != 0 {
        ADDRESS_MISALIGNED
    } else if card_status & ADDRESS_OUT_OF_RANGE != 0 {
        ADDRESS_OUT_OF_RANGE
    } else {
        ERROR
    };
    Err(Error::CardError { t: CardStatusFlags::from_bits(flag) })
}

/// The outcome of a command as an R6 response reports it: the relative card address in the
/// upper 16 bits, unless one of the three R6 error bits is set.
pub open spec fn spec_r6_result(card_status: u32) -> Result<u16, Error> {
    if card_status & (R6_CRC_FAILED | R6_ILLEGAL_COMMAND | R6_GENERAL_UNKNOWN_ERROR) == 0 {
        Ok((card_status / 0x1_0000) as u16)
    } else if card_status & R6_CRC_FAILED != 0 {
        Err(Error::CardError { t: CardStatusFlags::from_bits_spec(R6_CRC_FAILED) })
    } else if card_status & R6_ILLEGAL_COMMAND != 0 {
        Err(Error::CardError { t: CardStatusFlags::from_bits_spec(R6_ILLEGAL_COMMAND) })
    } else {
        Err(Error::CardError { t: CardStatusFlags::from_bits_spec(R6_GENERAL_UNKNOWN_ERROR) })
    }
}

/// Decodes the card status of an R6 response: the relative card address, or the error that
/// the response reports.
pub fn r6_result(card_status: u32) -> (r: Result<u16, Error>)
    ensures
        r == spec_r6_result(card_status),
{
    if card_status & (R6_CRC_FAILED | R6_ILLEGAL_COMMAND | R6_GENERAL_UNKNOWN_ERROR) == 0 {
        assert((card_status >> 16u32) as u16 == (card_status / 0x1_0000) as u16) by (bit_vector);
        Ok((card_status >> 16) as u16)
    } else if card_status & R6_CRC_FAILED != 0 {
        Err(Error::CardError { t: CardStatusFlags::from_bits(R6_CRC_FAILED) })
    } else if card_status & R6_ILLEGAL_COMMAND != 0 {
        Err(Error::CardError { t: CardStatusFlags::from_bits(R6_ILLEGAL_COMMAND) })
    } else {
        Err(Error::CardError { t: CardStatusFlags::from_bits(R6_GENERAL_UNKNOWN_ERROR) })
    }
}

/// The flags of the SDMMC status register (STA) that the wait for a command response reads.
#[derive(Debug, Clone, Copy, PartialEq, Eq, Structural)]
pub struct CmdStatus {
    /// The response was received and its CRC check passed.
    pub cmdrend: bool,
    /// The response was received but its CRC check failed.
    pub ccrcfail: bool,
    /// No response came in time.
    pub ctimeout: bool,
}

/// Whether the wait for a command response goes on: none of its flags is set yet.
pub fn response_pending(sta: CmdStatus) -> (r: bool)
    ensures
        r == (!sta.cmdrend && !sta.ccrcfail && !sta.ctimeout),
{
    !sta.cmdrend && !sta.ccrcfail && !sta.ctimeout
}

/// The outcome of the wait for a command response, once it ended with the status `sta`
/// (`timed_out` when the driver's own deadline passed first): a timeout of the driver, then
/// a response timeout of the controller, are errors.
pub open spec fn spec_wait_resp(timed_out: bool, sta: CmdStatus) -> Result<(), Error> {
    if timed_out {
        Err(Error::Timeout)
    } else if sta.ctimeout {
        Err(Error::SdmmcError { t: SdmmcErrorType::CmdRespTimeout })
    } else {
        Ok(())
    }
}

/// The outcome of the wait for a command response (see [`spec_wait_resp`]).
pub fn wait_resp(timed_out: bool, sta: CmdStatus) -> (r: Result<(), Error>)
    ensures
        r == spec_wait_resp(timed_out, sta),
{
    if timed_out {
        return Err(Error::Timeout);
    }
    if sta.ctimeout {
        return Err(Error::SdmmcError { t: SdmmcErrorType::CmdRespTimeout });
    }
    Ok(())
}

/// The outcome of the wait for a command response with a CRC: as [`spec_wait_resp`], and then
/// a failed CRC check is an error.
pub open spec fn spec_wait_resp_crc(timed_out: bool, sta: CmdStatus) -> Result<(), Error> {
    match spec_wait_resp(timed_out, sta) {
        Err(e) => Err(e),
        Ok(()) => if sta.ccrcfail {
            Err(Error::SdmmcError { t: SdmmcErrorType::CmdCrcFailed })
        } else {
            Ok(())
        },
    }
}

/// The outcome of the wait for a command response with a CRC (see [`spec_wait_resp_crc`]).
pub fn wait_resp_crc(timed_out: bool, sta: CmdStatus) -> (r: Result<(), Error>)
    ensures
        r == spec_wait_resp_crc(timed_out, sta),
{
    wait_resp(timed_out, sta)?;
    if sta.ccrcfail {
        return Err(Error::SdmmcError { t: SdmmcErrorType::CmdCrcFailed });
    }
    Ok(())
}

/// The outcome of a command with an R1 response: the wait with CRC, then the response must
/// be for the command (`respcmd == cmd_idx`, else a CRC failure), then the card status must
/// report no error (see [`spec_check_for_errors`]).
pub fn get_cmd_resp1(timed_out: bool, sta: CmdStatus, respcmd: u8, cmd_idx: u8, card_status: u32) -> (r: Result<
    (),
    Error,
>)
    ensures
        r == match spec_wait_resp_crc(timed_out, sta) {
            Err(e) => Err(e),
            Ok(()) => if respcmd != cmd_idx {
                Err(Error::SdmmcError { t: SdmmcErrorType::CmdCrcFailed })
            } else {
                spec_check_for_errors(card_status)
            },
        },
{
    wait_resp_crc(timed_out, sta)?;
    if respcmd != cmd_idx {
        return Err(Error::SdmmcError { t: SdmmcErrorType::CmdCrcFailed });
    }
    check_for_errors(card_status)
}

/// The outcome of a command with an R2 response: the wait with CRC.
pub fn get_cmd_resp2(timed_out: bool, sta: CmdStatus) -> (r: Result<(), Error>)
    ensures
        r == spec_wait_resp_crc(timed_out, sta),
{
    wait_resp_crc(timed_out, sta)
}

/// The outcome of a command with an R3 response: the wait, without CRC (the R3 response
/// carries none).
pub fn get_cmd_resp3(timed_out: bool, sta: CmdStatus) -> (r: Result<(), Error>)
    ensures
        r == spec_wait_resp(timed_out, sta),
{
    wait_resp(timed_out, sta)
}

/// The outcome of a command with an R6 response: the wait with CRC, then the response must be
/// for the command, then the relative card address or the error of [`spec_r6_result`].
pub fn get_cmd_resp6(timed_out: bool, sta: CmdStatus, respcmd: u8, cmd_idx: u8, card_status: u32) -> (r: Result<
    u16,
    Error,
>)
    ensures
        r == match spec_wait_resp_crc(timed_out, sta) {
            Err(e) => Err(e),
            Ok(()) => if respcmd != cmd_idx {
                Err(Error::SdmmcError { t: SdmmcErrorType::CmdCrcFailed })
            } else {
                spec_r6_result(card_status)
            },
        },
{
    wait_resp_crc(timed_out, sta)?;
    if respcmd != cmd_idx {
        return Err(Error::SdmmcError { t: SdmmcErrorType::CmdCrcFailed });
    }
    r6_result(card_status)
}

/// How the card answers a command, and so how the driver checks the answer.
#[derive(Debug, Clone, Copy, PartialEq, Eq, Structural)]
pub enum Response {
    /// No response: the driver waits until the command is sent.
    NoResponse,
    /// A short response with the card status (see [`get_cmd_resp1`]).
    R1,
    /// A long response, the CID or CSD register (see [`get_cmd_resp2`]).
    R2,
    /// A short response with the OCR register, without CRC (see [`get_cmd_resp3`]).
    R3,
    /// A short response with the relative card address (see [`get_cmd_resp6`]).
    R6,
    /// A short response to the operation condition command (see [`wait_resp`]).
    R7,
}

/// A command to the card: the argument and index that the controller sends, the response that
/// it waits for (the WAITRESP field: 0 for none, 1 for short, 3 for long) and how the answer
/// is checked. The command path state machine is enabled and no interrupt is awaited.
#[derive(Debug, Clone, Copy, PartialEq, Eq, Structural)]
pub struct Command {
    /// The argument of the command.
    pub argument: u32,
    /// The index of the command.
    pub index: u8,
    /// The WAITRESP field.
    pub wait_response: u8,
    /// How the answer is checked.
    pub response: Response,
}

/// The time in milliseconds that the driver waits for the answer to a command.
pub const COMMAND_TIMEOUT_MS: u32 = 5000;

/// Sets the card into idle state (CMD0): no response, the driver waits until the command is sent.
pub fn idle() -> (r: Command)
    ensures
        r == (Command { argument: 0, index: 0, wait_response: 0, response: Response::NoResponse }),
{
    Command { argument: 0, index: 0, wait_response: 0, response: Response::NoResponse }
}

/// Announces that the next command is an application command (CMD55).
pub fn app(argument: u32) -> (r: Command)
    ensures
        r == (Command { argument: argument, index: 55, wait_response: 1, response: Response::R1 }),
{
    Command { argument: argument, index: 55, wait_response: 1, response: Response::R1 }
}

/// Asks for the operation condition register (ACMD41) with the capacity support bits `capacity`; send [`app`] first.
pub fn app_oper(capacity: u32) -> (r: Command)
    ensures
        r == (Command { argument: 0x8010_0000 | capacity, index: 41, wait_response: 1, response: Response::R3 }),
{
    Command { argument: 0x8010_0000 | capacity, index: 41, wait_response: 1, response: Response::R3 }
}

/// Asks for the operation condition (CMD8), which only version 2 cards support: the answer tells the card version.
pub fn oper_cond() -> (r: Command)
    ensures
        r == (Command { argument: 0x1AA, index: 8, wait_response: 1, response: Response::R7 }),
{
    Command { argument: 0x1AA, index: 8, wait_response: 1, response: Response::R7 }
}

/// Asks for the card identification number (CMD2).
pub fn send_cid() -> (r: Command)
    ensures
        r == (Command { argument: 0, index: 2, wait_response: 3, response: Response::R2 }),
{
    Command { argument: 0, index: 2, wait_response: 3, response: Response::R2 }
}

/// Asks for the relative card address (CMD3).
pub fn set_rel_add() -> (r: Command)
    ensures
        r == (Command { argument: 0, index: 3, wait_response: 1, response: Response::R6 }),
{
    Command { argument: 0, index: 3, wait_response: 1, response: Response::R6 }
}

/// Asks for the card specific data (CMD9) of the card with the address argument `rca`.
pub fn send_csd(rca: u32) -> (r: Command)
    ensures
        r == (Command { argument: rca, index: 9, wait_response: 3, response: Response::R2 }),
{
    Command { argument: rca, index: 9, wait_response: 3, response: Response::R2 }
}

/// Selects the card with the address argument `rca` (CMD7).
pub fn sel_desel(rca: u32) -> (r: Command)
    ensures
        r == (Command { argument: rca, index: 7, wait_response: 1, response: Response::R1 }),
{
    Command { argument: rca, index: 7, wait_response: 1, response: Response::R1 }
}

/// Sets the length of the blocks to read or write (CMD16).
pub fn block_length(block_size: u32) -> (r: Command)
    ensures
        r == (Command { argument: block_size, index: 16, wait_response: 1, response: Response::R1 }),
{
    Command { argument: block_size, index: 16, wait_response: 1, response: Response::R1 }
}

/// Announces that a single block will be written at `block_add` (CMD24).
pub fn write_single_blk(block_add: u32) -> (r: Command)
    ensures
        r == (Command { argument: block_add, index: 24, wait_response: 1, response: Response::R1 }),
{
    Command { argument: block_add, index: 24, wait_response: 1, response: Response::R1 }
}

/// Announces that several blocks will be written from `block_add` on (CMD25); the transfer ends with [`stop_transfer`].
pub fn write_multi_blk(block_add: u32) -> (r: Command)
    ensures
        r == (Command { argument: block_add, index: 25, wait_response: 1, response: Response::R1 }),
{
    Command { argument: block_add, index: 25, wait_response: 1, response: Response::R1 }
}

/// Announces that a single block will be read at `block_add` (CMD17).
pub fn read_single_blk(block_add: u32) -> (r: Command)
    ensures
        r == (Command { argument: block_add, index: 17, wait_response: 1, response: Response::R1 }),
{
    Command { argument: block_add, index: 17, wait_response: 1, response: Response::R1 }
}

/// Announces that several blocks will be read from `block_add` on (CMD18); the transfer ends with [`stop_transfer`].
pub fn read_multi_blk(block_add: u32) -> (r: Command)
    ensures
        r == (Command { argument: block_add, index: 18, wait_response: 1, response: Response::R1 }),
{
    Command { argument: block_add, index: 18, wait_response: 1, response: Response::R1 }
}

/// Stops the transfer of a multi-block read or write (CMD12).
pub fn stop_transfer() -> (r: Command)
    ensures
        r == (Command { argument: 0, index: 12, wait_response: 1, response: Response::R1 }),
{
    Command { argument: 0, index: 12, wait_response: 1, response: Response::R1 }
}

} // verus!
