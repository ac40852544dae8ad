use stm32f7_discovery::sd::error::{
    CardStatusFlags, Error, RWErrorType, ADDRESS_OUT_OF_RANGE, AKE_SEQ_ERROR, COM_CRC_ERROR,
    ERROR, ILLEGAL_COMMAND, R6_CRC_FAILED, R6_GENERAL_UNKNOWN_ERROR, R6_ILLEGAL_COMMAND,
};
use stm32f7_discovery::sd::sdmmc_cmd::{check_for_errors, r6_result};
use stm32f7_discovery::sd::{
    block_data_start, get_card_csd, transfer_address, v2_card_type, voltage_valid, CardInfo,
    CardType,
};

fn card_error(bits: u32) -> Result<(), Error> {
    Err(Error::CardError { t: CardStatusFlags::from_bits(bits) })
}

#[test]
fn sd_check_for_errors_order() {
    assert_eq!(check_for_errors(0), Ok(()));
    // status bits that are no errors
    assert_eq!(check_for_errors(0x0000_0100 | 0x0000_1E00), Ok(()));
    assert_eq!(check_for_errors(AKE_SEQ_ERROR | ADDRESS_OUT_OF_RANGE), card_error(AKE_SEQ_ERROR));
    assert_eq!(check_for_errors(ADDRESS_OUT_OF_RANGE | COM_CRC_ERROR), card_error(COM_CRC_ERROR));
    assert_eq!(check_for_errors(ADDRESS_OUT_OF_RANGE), card_error(ADDRESS_OUT_OF_RANGE));
    assert_eq!(check_for_errors(ILLEGAL_COMMAND), card_error(ILLEGAL_COMMAND));
    // the general error bit is reported as ERROR
    assert_eq!(check_for_errors(ERROR), card_error(ERROR));
}

#[test]
fn sd_r6_response() {
    assert_eq!(r6_result(0x1234_0000), Ok(0x1234));
    assert_eq!(r6_result(0x1234_0000 | R6_CRC_FAILED | R6_ILLEGAL_COMMAND),
        Err(Error::CardError { t: CardStatusFlags::from_bits(R6_CRC_FAILED) }));
    assert_eq!(r6_result(R6_ILLEGAL_COMMAND | R6_GENERAL_UNKNOWN_ERROR),
        Err(Error::CardError { t: CardStatusFlags::from_bits(R6_ILLEGAL_COMMAND) }));
    assert_eq!(r6_result(R6_GENERAL_UNKNOWN_ERROR),
        Err(Error::CardError { t: CardStatusFlags::from_bits(R6_GENERAL_UNKNOWN_ERROR) }));
}

#[test]
fn sd_csd_high_capacity() {
    let mut info = CardInfo::default();
    assert_eq!(info.card_type, CardType::SDv2HC);
    // device size 0x00_3B37 (a 8 GB card): bits 16..21 in csd[1], 0..15 in the top of csd[2]
    let csd = [0, 0x0000_0000, 0x3B37_0000, 0];
    get_card_csd(&mut info, csd);
    assert_eq!(info.blk_number, (0x3B37 + 1) * 1024);
    assert_eq!(info.log_blk_number, info.blk_number);
    assert_eq!(info.blk_size, 512);
    assert_eq!(info.log_blk_size, 512);
}

#[test]
fn sd_csd_standard_capacity() {
    let mut info = CardInfo::default();
    info.card_type = CardType::SDv1;
    // C_SIZE = 0xF03 (low 10 bits in csd[1], top 2 in csd[2] bits 30,31), C_SIZE_MULT = 7,
    // READ_BL_LEN = 10
    let c_size: u32 = 0xF03;
    let csd = [0, (10 << 16) | (c_size >> 2), ((c_size & 3) << 30) | (7 << 15), 0];
    get_card_csd(&mut info, csd);
    assert_eq!(info.blk_number, (0xF03 + 1) * 512);
    assert_eq!(info.blk_size, 1024);
    assert_eq!(info.log_blk_number, info.blk_number * 2);
    assert_eq!(info.log_blk_size, 512);
}

#[test]
fn sd_ocr_decoding() {
    assert!(voltage_valid(0x8000_0000));
    assert!(!voltage_valid(0x7fff_ffff));
    assert_eq!(v2_card_type(0xC0FF_8000), CardType::SDv2HC);
    assert_eq!(v2_card_type(0x80FF_8000), CardType::SDv2SC);
}

#[test]
fn sd_transfer_addresses() {
    let mut info = CardInfo::default();
    info.log_blk_number = 100;
    info.log_blk_size = 512;
    assert_eq!(transfer_address(&info, 10, 2), Ok(10 * 512));
    assert_eq!(transfer_address(&info, 99, 1), Ok(99 * 512));
    assert_eq!(
        transfer_address(&info, 99, 2),
        Err(Error::RWError { t: RWErrorType::AddressOutOfRange })
    );
    info.card_type = CardType::SDv2SC;
    assert_eq!(transfer_address(&info, 10, 2), Ok(10));
    assert_eq!(block_data_start(300, 0), 0);
    assert_eq!(block_data_start(300, 2), 256);
    assert_eq!(block_data_start(300, 3), 300);
}

use stm32f7_discovery::sd::{
    prepare_transfer, read_in_progress, read_transfer_error, write_fifo_chunk, write_in_progress,
    write_transfer_error, DataStatus,
};

fn quiet() -> DataStatus {
    DataStatus { dtimeout: false, dcrcfail: false, txunderr: false, rxoverr: false, dataend: false }
}

fn card(card_type: CardType) -> CardInfo {
    let mut info = CardInfo::default();
    info.card_type = card_type;
    info.log_blk_number = 1000;
    info.log_blk_size = 512;
    info
}

#[test]
fn sd_prepare_transfer_checks_in_order() {
    let hc = card(CardType::SDv2HC);
    assert_eq!(prepare_transfer(false, &hc, 5000, 0), Ok(None));
    assert_eq!(prepare_transfer(false, &hc, 10, 2), Err(Error::NoSdCard));
    assert_eq!(
        prepare_transfer(true, &hc, 999, 2),
        Err(Error::RWError { t: RWErrorType::AddressOutOfRange })
    );
    assert_eq!(prepare_transfer(true, &hc, 10, 2), Ok(Some((5120, 1024))));
    let sc = card(CardType::SDv2SC);
    assert_eq!(prepare_transfer(true, &sc, 10, 1), Ok(Some((10, 512))));
    assert_eq!(prepare_transfer(true, &sc, 998, 2), Ok(Some((998, 1024))));
}

#[test]
fn sd_data_transfer_flags() {
    assert!(read_in_progress(quiet()));
    assert!(write_in_progress(quiet()));
    let underrun = DataStatus { txunderr: true, ..quiet() };
    assert!(read_in_progress(underrun));
    assert!(!write_in_progress(underrun));
    let overrun = DataStatus { rxoverr: true, ..quiet() };
    assert!(!read_in_progress(overrun));
    assert!(write_in_progress(overrun));
    let end = DataStatus { dataend: true, ..quiet() };
    assert!(!read_in_progress(end));
    assert!(!write_in_progress(end));
    assert_eq!(read_transfer_error(end), None);
    assert_eq!(write_transfer_error(end), None);

    let all = DataStatus { dtimeout: true, dcrcfail: true, txunderr: true, rxoverr: true, dataend: true };
    assert_eq!(read_transfer_error(all), Some(Error::RWError { t: RWErrorType::DataTimeout }));
    assert_eq!(write_transfer_error(all), Some(Error::RWError { t: RWErrorType::DataTimeout }));
    let crc = DataStatus { dtimeout: false, ..all };
    assert_eq!(read_transfer_error(crc), Some(Error::RWError { t: RWErrorType::DataCrcFailed }));
    assert_eq!(write_transfer_error(crc), Some(Error::RWError { t: RWErrorType::DataCrcFailed }));
    let fifo = DataStatus { dcrcfail: false, ..crc };
    assert_eq!(read_transfer_error(fifo), Some(Error::RWError { t: RWErrorType::RxOverrun }));
    assert_eq!(write_transfer_error(fifo), Some(Error::RWError { t: RWErrorType::TxUnderrun }));
}

#[test]
fn sd_write_fifo_chunks() {
    let data: Vec<u32> = (1..=20).collect();
    assert_eq!(write_fifo_chunk(&data, 0), ((1..=8).collect::<Vec<u32>>(), 8));
    assert_eq!(write_fifo_chunk(&data, 16), (vec![17, 18, 19, 20], 24));
    assert_eq!(write_fifo_chunk(&data, 24), (vec![0; 8], 24));
    assert_eq!(write_fifo_chunk(&[], 0), (vec![0; 8], 0));
}

#[test]
fn sd_block_is_data_padded_with_zeros() {
    // a block takes the first 128 words that the chunks feed
    for len in [0usize, 3, 8, 100, 128, 131, 300] {
        let data: Vec<u32> = (1..=len as u32).collect();
        let mut fed = Vec::new();
        let mut counter = 0;
        while fed.len() < 128 {
            let (chunk, next) = write_fifo_chunk(&data, counter);
            fed.extend(chunk);
            counter = next;
        }
        let block = &fed[..128];
        for (i, w) in block.iter().enumerate() {
            let expected = if i < len { data[i] } else { 0 };
            assert_eq!(*w, expected);
        }
    }
}
