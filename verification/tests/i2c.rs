use stm32f7_discovery::i2c::{
    wait_for_rxne, wait_for_stop, wait_for_transfer_complete, wait_for_txis, Address, Error,
    I2cTrait, Isr, RegisterType, Step, I2C,
};

struct Bus;
impl I2cTrait for Bus {}

fn isr() -> Isr {
    Isr { nackf: false, txis: false, rxne: false, tc: false, stopf: false }
}

#[test]
fn i2c_address_bits_7() {
    assert_eq!(Address::bits_7(0b0111000).value(), 0b0111000 << 1);
    assert_eq!(Address::bits_7(0x7f).value(), 0xfe);
}

#[test]
fn i2c_register_encodings() {
    assert_eq!(0x12u8.write(), vec![0x12]);
    assert_eq!(0x8994u16.write(), vec![0x89, 0x94]);
    assert_eq!(<u16 as RegisterType>::read(&[0x89, 0x94]), 0x8994);
    assert_eq!(<u8 as RegisterType>::read(&[0x51]), 0x51);
    for x in [0u16, 1, 0xff, 0x100, 0xffff] {
        assert_eq!(<u16 as RegisterType>::read(&x.write()), x);
    }
    assert_eq!(<u8 as RegisterType>::len(), 1);
    assert_eq!(<u16 as RegisterType>::len(), 2);
}

#[test]
fn i2c_waits() {
    let mut s = isr();
    assert_eq!(wait_for_txis(s), None);
    s.txis = true;
    assert_eq!(wait_for_txis(s), Some(Ok(())));
    s.nackf = true;
    assert_eq!(wait_for_txis(s), Some(Err(Error::Nack)));
    assert_eq!(wait_for_rxne(s), Some(Err(Error::Nack)));
    let mut t = isr();
    t.rxne = true;
    assert_eq!(wait_for_rxne(t), Some(Ok(())));
    assert_eq!(wait_for_transfer_complete(t), None);
    t.tc = true;
    assert_eq!(wait_for_transfer_complete(t), Some(Ok(())));
    assert_eq!(wait_for_stop(t), None);
    t.stopf = true;
    assert_eq!(wait_for_stop(t), Some(Ok(())));
}

#[test]
fn i2c_write_register_steps() {
    let i2c = I2C(Bus);
    let conn = i2c.connect::<u16>(Address::bits_7(0b0011010));
    let steps = conn.write(0x0102, 0x0003);
    let a = 0b0011010 << 1;
    assert_eq!(
        steps,
        vec![
            Step::ClearFlags,
            Step::FlushTxdr,
            Step::Start { address: a, read: false, nbytes: 4 },
            Step::WaitTxis,
            Step::WriteByte(0x01),
            Step::WaitTxis,
            Step::WriteByte(0x02),
            Step::WaitTxis,
            Step::WriteByte(0x00),
            Step::WaitTxis,
            Step::WriteByte(0x03),
            Step::WaitTransferComplete,
            Step::ClearFlags,
            Step::ResetCr2,
        ]
    );
}

#[test]
fn i2c_read_register_steps() {
    let i2c = I2C(Bus);
    let conn = i2c.connect::<u8>(Address::bits_7(0x38));
    let steps = conn.read(0xA8);
    let a = 0x38 << 1;
    assert_eq!(
        steps,
        vec![
            Step::ClearFlags,
            Step::FlushTxdr,
            Step::Start { address: a, read: false, nbytes: 1 },
            Step::WaitTxis,
            Step::WriteByte(0xA8),
            Step::WaitTransferComplete,
            Step::ClearFlags,
            Step::ResetCr2,
            Step::Start { address: a, read: true, nbytes: 1 },
            Step::WaitRxne,
            Step::ReadByte,
            Step::WaitTransferComplete,
            Step::ClearFlags,
            Step::ResetCr2,
        ]
    );
    let steps = conn.read_bytes(0x03, 4);
    assert_eq!(steps.iter().filter(|s| **s == Step::ReadByte).count(), 4);
    assert_eq!(steps[8], Step::Start { address: a, read: true, nbytes: 4 });
    assert_eq!(i2c.stop(), vec![Step::SetStop, Step::ResetCr2, Step::WaitStop]);
    // a connection whose closure failed ends with that error and sends no stop symbol
    assert_eq!(i2c.after_connection(Err(Error::Nack)), Err(Error::Nack));
    // otherwise it stops; a NACK while waiting for the stop is the connection's result
    assert_eq!(
        i2c.after_connection(Ok(())),
        Ok(vec![Step::SetStop, Step::ResetCr2, Step::WaitStop])
    );
    assert_eq!(wait_for_stop(Isr { nackf: true, stopf: true, ..isr() }), Some(Err(Error::Nack)));
    // the closure runs once, with a connection to the device
    let mut calls = 0;
    let r = i2c.connect_with::<u8, _>(Address::bits_7(0x38), |conn| {
        calls += 1;
        assert_eq!(conn.write(0x01, 0x02)[2], Step::Start { address: 0x70, read: false, nbytes: 2 });
        Ok(())
    });
    assert_eq!(calls, 1);
    assert_eq!(r, Ok(vec![Step::SetStop, Step::ResetCr2, Step::WaitStop]));
    let r = i2c.connect_with::<u8, _>(Address::bits_7(0x38), |_| Err(Error::Nack));
    assert_eq!(r, Err(Error::Nack));
}

use stm32f7_discovery::i2c::{wait_for_nack, wait_for_nack_or_stop, SetupOp};

#[test]
fn i2c_nack_waits() {
    assert_eq!(wait_for_nack(isr()), None);
    assert_eq!(wait_for_nack(Isr { stopf: true, ..isr() }), Some(false));
    assert_eq!(wait_for_nack(Isr { nackf: true, stopf: true, ..isr() }), Some(true));
    assert_eq!(wait_for_nack_or_stop(isr()), None);
    assert_eq!(wait_for_nack_or_stop(Isr { stopf: true, ..isr() }), Some(false));
    assert_eq!(wait_for_nack_or_stop(Isr { nackf: true, ..isr() }), Some(true));
}

#[test]
fn i2c_self_tests() {
    let i2c = I2C(Bus);
    assert_eq!(
        i2c.test_1(),
        vec![Step::Probe { address: 0b1010101 << 1 }, Step::WaitNack, Step::ClearFlags]
    );
    let steps = i2c.test_2();
    assert_eq!(steps.len(), 3 * 128);
    for (a, chunk) in steps.chunks(3).enumerate() {
        assert_eq!(
            chunk,
            &[Step::Probe { address: (a as u16) << 1 }, Step::WaitNackOrStop, Step::RecoverIfNack]
        );
    }
}

#[test]
fn i2c_setup_checks() {
    let check = SetupOp::Check { register: 0xA8u8, value: 0x51 };
    assert!(check.accepts(0x51));
    assert!(!check.accepts(0x11));
    assert!(SetupOp::Write { register: 0u8, value: 0 }.accepts(0x11));
    assert!(SetupOp::<u16>::WaitMs(5).accepts(1));
    assert!(!SetupOp::Check { register: 0u16, value: 0x8994 }.accepts(0x8995));
}
