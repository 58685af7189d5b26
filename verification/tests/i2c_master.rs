use stm32f0xx_hal::i2c::{Error, I2c, MasterAction, MasterPhase};

const TXIS: u32 = 1 << 1;
const RXNE: u32 = 1 << 2;
const NACKF: u32 = 1 << 4;
const TC: u32 = 1 << 6;

fn bus() -> I2c<(), (), ()> {
    I2c { i2c: (), pins: ((), ()) }
}

#[test]
fn master_write_sends_each_byte_after_txis() {
    let mut i2c = bus();
    let (mut t, start) = i2c.write(0x50, &[1, 2]);
    assert_eq!(
        start,
        vec![
            MasterAction::ModifyCr2 { clear: 0x02FF_07FF, set: 0xA0 | (2 << 16) | 0x0200_0000 },
            MasterAction::ModifyCr2 { clear: 0, set: 0x2000 },
        ]
    );
    assert_eq!(t.phase(), MasterPhase::AwaitTxis);
    assert_eq!(t.step(0), vec![]);
    assert_eq!(t.step(TXIS), vec![MasterAction::WriteTxdr(1)]);
    assert_eq!(t.step(0), vec![]);
    assert_eq!(t.phase(), MasterPhase::AwaitTxis);
    assert_eq!(t.step(TXIS | TC), vec![MasterAction::WriteTxdr(2)]);
    assert_eq!(t.step(0), vec![MasterAction::WriteIcr(0x30)]);
    assert_eq!(t.outcome(), Some(Ok(())));
    assert_eq!(t.step(TXIS), vec![]);
}

#[test]
fn master_write_of_nothing_ends_at_once() {
    let mut i2c = bus();
    let (t, start) = i2c.write(0x12, &[]);
    assert_eq!(start.len(), 3);
    assert_eq!(start[2], MasterAction::WriteIcr(0x30));
    assert_eq!(t.outcome(), Some(Ok(())));
}

#[test]
fn master_write_refused_byte_is_nack() {
    let mut i2c = bus();
    let (mut t, _) = i2c.write(0x50, &[7, 8]);
    assert_eq!(t.step(TXIS), vec![MasterAction::WriteTxdr(7)]);
    assert_eq!(t.step(NACKF), vec![MasterAction::WriteIcr(0x30)]);
    assert_eq!(t.outcome(), Some(Err(Error::NACK)));
    assert_eq!(t.phase(), MasterPhase::Done);
}

#[test]
fn master_write_read_writes_then_reads() {
    let mut i2c = bus();
    let (mut t, start) = i2c.write_read(0x50, &[0x10], 2);
    assert_eq!(
        start,
        vec![
            MasterAction::ModifyCr2 { clear: 0x02FF_07FF, set: 0xA0 | (1 << 16) },
            MasterAction::ModifyCr2 { clear: 0, set: 0x2000 },
        ]
    );
    assert_eq!(t.phase(), MasterPhase::AwaitStart);
    assert_eq!(t.step(0), vec![]);
    assert_eq!(t.step(TC), vec![]);
    assert_eq!(t.phase(), MasterPhase::AwaitTxis);
    assert_eq!(t.step(TXIS), vec![MasterAction::WriteTxdr(0x10)]);
    assert_eq!(t.step(0), vec![]);
    assert_eq!(t.phase(), MasterPhase::AwaitTc);
    assert_eq!(t.step(TXIS), vec![]);
    assert_eq!(
        t.step(TC),
        vec![
            MasterAction::ModifyCr2 { clear: 0x00FF_07FF, set: 0xA0 | (2 << 16) | 0x400 },
            MasterAction::ModifyCr2 { clear: 0, set: 0x2000 },
            MasterAction::ModifyCr2 { clear: 0, set: 0x0200_0000 },
        ]
    );
    assert_eq!(t.step(0), vec![]);
    assert_eq!(t.step(RXNE), vec![MasterAction::ReadRxdr]);
    assert_eq!(t.received(0x1AB), vec![]);
    assert_eq!(t.buffer(), &[0xAB]);
    assert_eq!(t.step(RXNE), vec![MasterAction::ReadRxdr]);
    assert_eq!(t.received(0xCD), vec![MasterAction::WriteIcr(0x30)]);
    assert_eq!(t.buffer(), &[0xAB, 0xCD]);
    assert_eq!(t.outcome(), Some(Ok(())));
}

#[test]
fn master_write_read_without_device_is_nack() {
    let mut i2c = bus();
    let (mut t, _) = i2c.write_read(0x33, &[1], 1);
    assert_eq!(t.step(NACKF | TXIS), vec![MasterAction::WriteIcr(0x30)]);
    assert_eq!(t.outcome(), Some(Err(Error::NACK)));
    assert_eq!(t.buffer(), &[] as &[u8]);
}

#[test]
fn master_write_read_of_nothing_reads_nothing() {
    let mut i2c = bus();
    let (mut t, _) = i2c.write_read(0x50, &[], 0);
    assert_eq!(t.step(TXIS), vec![]);
    assert_eq!(t.phase(), MasterPhase::AwaitTc);
    let a = t.step(TC);
    assert_eq!(a.len(), 4);
    assert_eq!(a[0], MasterAction::ModifyCr2 { clear: 0x00FF_07FF, set: 0xA0 | 0x400 });
    assert_eq!(a[3], MasterAction::WriteIcr(0x30));
    assert_eq!(t.outcome(), Some(Ok(())));
}
