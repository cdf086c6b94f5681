use proto_hal::ral::gpt;
use proto_hal::ral::lpuart;
use proto_hal::ral::lpuart::instances::{release, steal, take, Taken};
use proto_hal::ral::{modify_field, read_field};
use proto_hal::{Chip, Write};

const UART_REGISTERS: [lpuart::Register; 12] = [
    lpuart::Register::VERID,
    lpuart::Register::PARAM,
    lpuart::Register::GLOBAL,
    lpuart::Register::PINCFG,
    lpuart::Register::BAUD,
    lpuart::Register::STAT,
    lpuart::Register::CTRL,
    lpuart::Register::DATA,
    lpuart::Register::MATCH,
    lpuart::Register::MODIR,
    lpuart::Register::FIFO,
    lpuart::Register::WATER,
];

const GPT_REGISTERS: [gpt::Register; 10] = [
    gpt::Register::CR,
    gpt::Register::PR,
    gpt::Register::SR,
    gpt::Register::IR,
    gpt::Register::OCR1,
    gpt::Register::OCR2,
    gpt::Register::OCR3,
    gpt::Register::ICR1,
    gpt::Register::ICR2,
    gpt::Register::CNT,
];

#[test]
fn take_twice_returns_none() {
    let mut taken = Taken::new(Chip::Imxrt1060);
    assert!(!taken.is_taken(3));
    let first = take(&mut taken, 3);
    assert!(first.is_some());
    assert!(taken.is_taken(3));
    assert!(take(&mut taken, 3).is_none());
    assert!(taken.is_taken(3));
}

#[test]
fn take_after_release_succeeds() {
    let mut taken = Taken::new(Chip::Imxrt1060);
    let inst = take(&mut taken, 1).unwrap();
    release(&mut taken, 1, inst);
    assert!(!taken.is_taken(1));
    let again = take(&mut taken, 1).unwrap();
    assert_eq!(again.addr(), 0x4018_4000);
    assert!(taken.is_taken(1));
}

#[test]
fn can_release_only_while_out_and_for_its_own_number() {
    let mut taken = Taken::new(Chip::Imxrt1060);
    let one = take(&mut taken, 1).unwrap();
    assert!(taken.can_release(1, &one));
    // number two is not out
    assert!(!taken.can_release(2, &one));
    let _two = take(&mut taken, 2).unwrap();
    // number two is out, but this is the instance of number one
    assert!(!taken.can_release(2, &one));
    assert!(!taken.can_release(0, &one));
    assert!(!taken.can_release(9, &one));

    let stolen = steal(&mut taken, 1);
    release(&mut taken, 1, stolen);
    // number one is not out any more
    assert!(!taken.is_taken(1));
    assert!(!taken.can_release(1, &one));
}

#[test]
fn instances_are_independent() {
    let mut taken = Taken::new(Chip::Imxrt1060);
    let one = take(&mut taken, 1).unwrap();
    let two = take(&mut taken, 2).unwrap();
    assert_eq!(one.addr(), 0x4018_4000);
    assert_eq!(two.addr(), 0x4018_8000);
    release(&mut taken, 1, one);
    assert!(!taken.is_taken(1));
    assert!(taken.is_taken(2));
}

#[test]
fn uart_addresses_are_0x4000_apart() {
    let mut taken = Taken::new(Chip::Imxrt1060);
    for n in 1..=8usize {
        let inst = take(&mut taken, n).unwrap();
        assert_eq!(inst.addr(), 0x4018_4000 + 0x4000 * (n as u32 - 1));
    }
    assert_eq!(lpuart::instances::LPUART1, 0x4018_4000);
    assert_eq!(lpuart::instances::LPUART8, 0x401A_0000);
}

#[test]
fn chip_decides_which_uarts_exist() {
    let mut taken = Taken::new(Chip::Imxrt1010);
    assert_eq!(lpuart::instances::count(Chip::Imxrt1010), 4);
    assert_eq!(lpuart::instances::count(Chip::Imxrt1060), 8);
    assert!(taken.has(4));
    assert!(!taken.has(5));
    assert!(take(&mut taken, 4).is_some());
    assert!(take(&mut taken, 5).is_none());
    assert!(!taken.is_taken(5));
    assert!(take(&mut taken, 0).is_none());
    assert!(take(&mut taken, 9).is_none());
}

#[test]
fn steal_marks_taken_whatever_was_before() {
    let mut taken = Taken::new(Chip::Imxrt1060);
    let stolen = steal(&mut taken, 2);
    assert_eq!(stolen.addr(), 0x4018_8000);
    assert!(taken.is_taken(2));
    assert!(take(&mut taken, 2).is_none());
    let again = steal(&mut taken, 2);
    assert_eq!(again.addr(), 0x4018_8000);
    assert!(taken.is_taken(2));
}

#[test]
fn taken_uart_starts_at_reset_values() {
    let mut taken = Taken::new(Chip::Imxrt1060);
    let mut inst = take(&mut taken, 1).unwrap();
    let regs = inst.registers();
    assert_eq!(regs.VERID, 0x0401_0003);
    assert_eq!(regs.PARAM, 0x0000_0202);
    assert_eq!(regs.BAUD, 0x0F00_0004);
    assert_eq!(regs.STAT, 0x00C0_0000);
    assert_eq!(regs.CTRL, 0);
    assert_eq!(regs.DATA, 0x0000_1000);
    assert_eq!(regs.FIFO, 0x00C0_0011);
    assert_eq!(regs.WATER, 0);
    assert_eq!(lpuart::RegisterBlock::reset(&lpuart::instances::reset()), regs);
    assert!(inst.take_writes().is_empty());
}

#[test]
fn uart_register_offsets() {
    let offsets: Vec<u32> = UART_REGISTERS.iter().map(|r| r.offset()).collect();
    assert_eq!(offsets, (0..12).map(|i| 4 * i).collect::<Vec<u32>>());
}

#[test]
fn uart_plain_register_holds_last_write_and_records_it() {
    let mut taken = Taken::new(Chip::Imxrt1060);
    let mut inst = take(&mut taken, 2).unwrap();
    inst.write(lpuart::Register::CTRL, 0x000C_0000);
    inst.modify(lpuart::Register::CTRL, lpuart::CTRL_TE_MASK, lpuart::CTRL_TE_OFFSET, 0);
    assert_eq!(inst.read(lpuart::Register::CTRL), 0x0004_0000);
    assert_eq!(
        inst.take_writes(),
        vec![
            Write { addr: 0x4018_8018, value: 0x000C_0000 },
            Write { addr: 0x4018_8018, value: 0x0004_0000 },
        ]
    );
    assert!(inst.take_writes().is_empty());
}

#[test]
fn uart_read_only_registers_ignore_writes() {
    let mut taken = Taken::new(Chip::Imxrt1060);
    let mut inst = take(&mut taken, 1).unwrap();
    inst.write(lpuart::Register::VERID, 0);
    inst.write(lpuart::Register::PARAM, 0);
    inst.write(lpuart::Register::DATA, 0x55);
    assert_eq!(inst.read(lpuart::Register::VERID), 0x0401_0003);
    assert_eq!(inst.read(lpuart::Register::PARAM), 0x0000_0202);
    assert_eq!(inst.read(lpuart::Register::DATA), 0x0000_1000);
    assert_eq!(inst.take_writes().len(), 3);
}

#[test]
fn uart_status_flags_clear_on_one() {
    let mut taken = Taken::new(Chip::Imxrt1060);
    let mut inst = take(&mut taken, 1).unwrap();
    // overrun, noise and parity set; transmitter flags set; MSBF configured
    inst.load(lpuart::Register::STAT, 0x20CD_0000);
    assert_eq!(inst.read(lpuart::Register::STAT), 0x20CD_0000);
    // clear overrun only, drop MSBF, try to clear TDRE
    inst.write(lpuart::Register::STAT, 0x0088_0000);
    assert_eq!(inst.read(lpuart::Register::STAT), 0x00C5_0000);
}

#[test]
fn uart_fifo_flush_bits_do_not_stick() {
    let mut taken = Taken::new(Chip::Imxrt1060);
    let mut inst = take(&mut taken, 1).unwrap();
    inst.load(lpuart::Register::FIFO, 0x00C3_0011);
    inst.write(lpuart::Register::FIFO, 0x0001_C088);
    // sizes and empty flags stay, FIFOs enabled, underflow cleared, overflow kept
    assert_eq!(inst.read(lpuart::Register::FIFO), 0x00C2_0099);
}

#[test]
fn load_replaces_the_image_without_a_write() {
    let mut taken = Taken::new(Chip::Imxrt1060);
    let mut inst = take(&mut taken, 1).unwrap();
    inst.load(lpuart::Register::DATA, 0x41);
    inst.load(lpuart::Register::VERID, 7);
    assert_eq!(inst.read(lpuart::Register::DATA), 0x41);
    assert_eq!(inst.read(lpuart::Register::VERID), 7);
    assert!(inst.take_writes().is_empty());
}

#[test]
fn gpt_instances_take_release_steal() {
    let mut taken = gpt::instances::Taken::new(Chip::Imxrt1010);
    assert_eq!(gpt::instances::count(Chip::Imxrt1010), 2);
    let one = gpt::instances::take(&mut taken, 1).unwrap();
    assert_eq!(one.addr(), 0x401E_C000);
    assert!(gpt::instances::take(&mut taken, 1).is_none());
    assert!(gpt::instances::take(&mut taken, 3).is_none());
    assert!(taken.can_release(1, &one));
    assert!(!taken.can_release(2, &one));
    gpt::instances::release(&mut taken, 1, one);
    assert!(gpt::instances::take(&mut taken, 1).is_some());
    let two = gpt::instances::steal(&mut taken, 2);
    assert_eq!(two.addr(), 0x401F_0000);
    assert!(taken.is_taken(2));
    assert!(taken.has(2));
    assert!(!taken.has(3));
}

#[test]
fn taken_gpt_starts_at_reset_values() {
    let mut taken = gpt::instances::Taken::new(Chip::Imxrt1060);
    let inst = gpt::instances::take(&mut taken, 1).unwrap();
    let regs = inst.registers();
    assert_eq!(regs.CR, 0);
    assert_eq!(regs.SR, 0);
    assert_eq!(regs.OCR1, 0xFFFF_FFFF);
    assert_eq!(regs.OCR2, 0xFFFF_FFFF);
    assert_eq!(regs.OCR3, 0xFFFF_FFFF);
    assert_eq!(regs.CNT, 0);
    assert_eq!(gpt::RegisterBlock::reset(&gpt::instances::reset()), regs);
}

#[test]
fn gpt_status_clears_on_one_and_counter_is_read_only() {
    let mut taken = gpt::instances::Taken::new(Chip::Imxrt1060);
    let mut inst = gpt::instances::take(&mut taken, 1).unwrap();
    inst.load(gpt::Register::SR, 0b10_0101);
    inst.load(gpt::Register::CNT, 1234);
    inst.write(gpt::Register::SR, 0b00_0100);
    inst.write(gpt::Register::CNT, 0);
    inst.write(gpt::Register::ICR1, 9);
    assert_eq!(inst.read(gpt::Register::SR), 0b10_0001);
    assert_eq!(inst.read(gpt::Register::CNT), 1234);
    assert_eq!(inst.read(gpt::Register::ICR1), 0);
    let offsets: Vec<u32> = GPT_REGISTERS.iter().map(|r| r.offset()).collect();
    assert_eq!(offsets, (0..10).map(|i| 4 * i).collect::<Vec<u32>>());
}

#[test]
fn field_helpers() {
    assert_eq!(read_field(0x1234_5678, 0x0000_FF00, 8), 0x56);
    assert_eq!(modify_field(0x1234_5678, 0x0000_FF00, 8, 0xAB), 0x1234_AB78);
    // bits of the value that do not fit the field are dropped
    assert_eq!(modify_field(0, 0x0000_0F00, 8, 0xFF), 0x0000_0F00);
    assert_eq!(modify_field(0xFFFF_FFFF, 0x0000_0001, 0, 0), 0xFFFF_FFFE);
}
