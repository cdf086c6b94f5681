use proto_hal::ccm::{
    check_instance, clock_gate_gpt, clock_gate_uart, configure_perclock, configure_uart,
    set_clock_gate, ClockGate, Instance, CCM, GPT, PERCLOCK_FREQUENCY_HZ, UART,
    UART_CLOCK_FREQUENCY_HZ,
};
use proto_hal::ral;
use proto_hal::{Chip, Write};

const CCGR0: u32 = 0x400F_C068;
const CCGR1: u32 = 0x400F_C06C;
const CCGR3: u32 = 0x400F_C074;
const CCGR5: u32 = 0x400F_C07C;
const CCGR6: u32 = 0x400F_C080;
const CSCMR1: u32 = 0x400F_C01C;
const CSCDR1: u32 = 0x400F_C024;

fn all_ones(chip: Chip) -> CCM {
    let mut ccm = CCM::new(chip);
    for index in 0..8 {
        ccm.handle.load_ccgr(index, 0xFFFF_FFFF);
    }
    ccm.handle.load_cscmr1(0xFFFF_FFFF);
    ccm.handle.load_cscdr1(0xFFFF_FFFF);
    ccm
}

#[test]
fn test_set_clock_gate() {
    let mut reg = 0;

    set_clock_gate(&mut reg, &[3, 7], 0b11);
    assert_eq!(reg, (0b11 << 14) | (0b11 << 6));

    set_clock_gate(&mut reg, &[3], 0b1);
    assert_eq!(reg, (0b11 << 14) | (0b01 << 6));
}

#[test]
fn set_clock_gate_keeps_sibling_gates() {
    let mut reg = 0xFFFF_FFFF;
    set_clock_gate(&mut reg, &[0, 15], 0b00);
    assert_eq!(reg, 0x3FFF_FFFC);
    set_clock_gate(&mut reg, &[8], 0b01);
    assert_eq!(reg, 0x3FFD_FFFC);
}

#[test]
fn set_clock_gate_uses_low_two_bits_of_value() {
    let mut reg = 0;
    set_clock_gate(&mut reg, &[5], 0xFE);
    assert_eq!(reg, 0b10 << 10);
}

#[test]
fn set_clock_gate_without_gates_changes_nothing() {
    let mut reg = 0x1234_5678;
    set_clock_gate(&mut reg, &[], 0b11);
    assert_eq!(reg, 0x1234_5678);
}

#[test]
fn set_clock_gate_last_of_repeated_gate_wins() {
    let mut reg = 0;
    set_clock_gate(&mut reg, &[2, 2], 0b11);
    assert_eq!(reg, 0b11 << 4);
}

#[test]
fn clock_gate_bits() {
    assert_eq!(ClockGate::Off.bits(), 0b00);
    assert_eq!(ClockGate::OnlyRun.bits(), 0b01);
    assert_eq!(ClockGate::On.bits(), 0b11);
}

#[test]
fn clock_frequencies() {
    assert_eq!(PERCLOCK_FREQUENCY_HZ, 1_000_000);
    assert_eq!(UART_CLOCK_FREQUENCY_HZ, 24_000_000);
}

#[test]
fn new_ccm_starts_blank() {
    let mut ccm = CCM::new(Chip::Imxrt1060);
    assert_eq!(ccm.handle.chip(), Chip::Imxrt1060);
    for index in 0..8 {
        assert_eq!(ccm.handle.ccgr(index), 0);
    }
    assert_eq!(ccm.handle.cscmr1(), 0);
    assert_eq!(ccm.handle.cscdr1(), 0);
    assert!(ccm.handle.take_writes().is_empty());
}

#[test]
fn enable_perclock_turns_gpt_gates_off_then_configures() {
    let CCM { mut handle, perclock, .. } = all_ones(Chip::Imxrt1060);
    let _perclock = perclock.enable(&mut handle);

    // GPT1: gates 10 and 11 of CCGR1; GPT2: gates 12 and 13 of CCGR0
    assert_eq!(handle.ccgr(1), 0xFF0F_FFFF);
    assert_eq!(handle.ccgr(0), 0xF0FF_FFFF);
    for index in 2..8 {
        assert_eq!(handle.ccgr(index), 0xFFFF_FFFF);
    }
    // divider 24 - 1 in the low five bits, oscillator in bit 6
    assert_eq!(handle.cscmr1(), 0xFFFF_FFF7);
    assert_eq!(handle.cscdr1(), 0xFFFF_FFFF);
    assert_eq!(
        handle.take_writes(),
        vec![
            Write { addr: CCGR1, value: 0xFF0F_FFFF },
            Write { addr: CCGR0, value: 0xF0FF_FFFF },
            Write { addr: CSCMR1, value: 0xFFFF_FFF7 },
        ]
    );
}

#[test]
fn configure_perclock_from_zero() {
    let mut ccm = CCM::new(Chip::Imxrt1010);
    configure_perclock(&mut ccm.handle);
    assert_eq!(ccm.handle.cscmr1(), 23 | (1 << 6));
    assert_eq!(ccm.handle.take_writes(), vec![Write { addr: CSCMR1, value: 0x57 }]);
}

#[test]
fn configure_uart_from_ones_and_zero() {
    let mut ccm = all_ones(Chip::Imxrt1060);
    configure_uart(&mut ccm.handle);
    // divide by one, oscillator selected, the rest kept
    assert_eq!(ccm.handle.cscdr1(), 0xFFFF_FF40);

    let mut ccm = CCM::new(Chip::Imxrt1060);
    configure_uart(&mut ccm.handle);
    assert_eq!(ccm.handle.cscdr1(), 0x40);
    assert_eq!(ccm.handle.take_writes(), vec![Write { addr: CSCDR1, value: 0x40 }]);
}

#[test]
fn enable_uart_clock_on_1060_turns_all_eight_gates_off() {
    let CCM { mut handle, uart_clock, .. } = all_ones(Chip::Imxrt1060);
    let _uart_clock = uart_clock.enable(&mut handle);

    // CCGR0: gates 14 (UART2) and 6 (UART3)
    assert_eq!(handle.ccgr(0), 0xCFFF_CFFF);
    // CCGR1: gate 12 (UART4)
    assert_eq!(handle.ccgr(1), 0xFCFF_FFFF);
    assert_eq!(handle.ccgr(2), 0xFFFF_FFFF);
    // CCGR3: gates 1 (UART5) and 3 (UART6)
    assert_eq!(handle.ccgr(3), 0xFFFF_FF33);
    assert_eq!(handle.ccgr(4), 0xFFFF_FFFF);
    // CCGR5: gates 12 (UART1) and 13 (UART7)
    assert_eq!(handle.ccgr(5), 0xF0FF_FFFF);
    // CCGR6: gate 7 (UART8)
    assert_eq!(handle.ccgr(6), 0xFFFF_3FFF);
    assert_eq!(handle.ccgr(7), 0xFFFF_FFFF);
    assert_eq!(handle.cscdr1(), 0xFFFF_FF40);

    assert_eq!(
        handle.take_writes(),
        vec![
            Write { addr: CCGR5, value: 0xFCFF_FFFF },
            Write { addr: CCGR0, value: 0xCFFF_FFFF },
            Write { addr: CCGR0, value: 0xCFFF_CFFF },
            Write { addr: CCGR1, value: 0xFCFF_FFFF },
            Write { addr: CCGR3, value: 0xFFFF_FFF3 },
            Write { addr: CCGR3, value: 0xFFFF_FF33 },
            Write { addr: CCGR5, value: 0xF0FF_FFFF },
            Write { addr: CCGR6, value: 0xFFFF_3FFF },
            Write { addr: CSCDR1, value: 0xFFFF_FF40 },
        ]
    );
}

#[test]
fn enable_uart_clock_on_1010_leaves_gates_of_missing_uarts() {
    let CCM { mut handle, uart_clock, .. } = all_ones(Chip::Imxrt1010);
    let _uart_clock = uart_clock.enable(&mut handle);

    assert_eq!(handle.ccgr(0), 0xCFFF_CFFF);
    assert_eq!(handle.ccgr(1), 0xFCFF_FFFF);
    assert_eq!(handle.ccgr(3), 0xFFFF_FFFF);
    // only UART1 in CCGR5
    assert_eq!(handle.ccgr(5), 0xFCFF_FFFF);
    assert_eq!(handle.ccgr(6), 0xFFFF_FFFF);
    assert_eq!(handle.take_writes().len(), 5);
}

#[test]
fn uart_clock_gate_sets_only_that_uart() {
    let CCM { mut handle, uart_clock, .. } = CCM::new(Chip::Imxrt1060);
    let mut uart_clock = uart_clock.enable(&mut handle);
    let _ = handle.take_writes();

    let mut taken = ral::lpuart::instances::Taken::new(Chip::Imxrt1060);
    let mut uart2 = ral::lpuart::instances::take(&mut taken, 2).unwrap();
    uart_clock.clock_gate(&mut handle, &mut uart2, ClockGate::On);
    assert_eq!(handle.ccgr(0), 0b11 << 28);
    assert_eq!(handle.take_writes(), vec![Write { addr: CCGR0, value: 0x3000_0000 }]);

    let mut uart3 = ral::lpuart::instances::take(&mut taken, 3).unwrap();
    uart_clock.clock_gate(&mut handle, &mut uart3, ClockGate::OnlyRun);
    assert_eq!(handle.ccgr(0), (0b11 << 28) | (0b01 << 12));

    uart_clock.clock_gate(&mut handle, &mut uart2, ClockGate::Off);
    assert_eq!(handle.ccgr(0), 0b01 << 12);
    assert_eq!(uart2.addr(), 0x4018_8000);
}

#[test]
fn perclock_gate_sets_both_gates_of_the_timer() {
    let CCM { mut handle, perclock, .. } = CCM::new(Chip::Imxrt1060);
    let mut perclock = perclock.enable(&mut handle);
    let _ = handle.take_writes();

    let mut taken = ral::gpt::instances::Taken::new(Chip::Imxrt1060);
    let mut gpt2 = ral::gpt::instances::take(&mut taken, 2).unwrap();
    perclock.clock_gate_gpt(&mut handle, &mut gpt2, ClockGate::On);
    assert_eq!(handle.ccgr(0), 0x0F00_0000);
    assert_eq!(handle.ccgr(1), 0);

    let mut gpt1 = ral::gpt::instances::take(&mut taken, 1).unwrap();
    perclock.clock_gate_gpt(&mut handle, &mut gpt1, ClockGate::OnlyRun);
    assert_eq!(handle.ccgr(1), 0x0050_0000);
    assert_eq!(
        handle.take_writes(),
        vec![
            Write { addr: CCGR0, value: 0x0F00_0000 },
            Write { addr: CCGR1, value: 0x0050_0000 },
        ]
    );
}

#[test]
fn free_clock_gate_functions_skip_invalid_instances() {
    let mut ccm = CCM::new(Chip::Imxrt1010);
    clock_gate_uart::<ral::lpuart::Instance>(&mut ccm.handle, UART::UART8, ClockGate::On);
    assert_eq!(ccm.handle.ccgr(6), 0);
    assert!(ccm.handle.take_writes().is_empty());

    clock_gate_uart::<ral::lpuart::Instance>(&mut ccm.handle, UART::UART4, ClockGate::On);
    assert_eq!(ccm.handle.ccgr(1), 0b11 << 24);

    clock_gate_gpt::<ral::gpt::Instance>(&mut ccm.handle, GPT::GPT1, ClockGate::On);
    assert_eq!(ccm.handle.ccgr(1), (0b11 << 24) | (0b1111 << 20));
}

#[test]
fn instance_validity_follows_the_chip() {
    type U = ral::lpuart::Instance;
    type G = ral::gpt::Instance;
    assert!(<U as Instance>::is_valid(Chip::Imxrt1010, UART::UART4));
    assert!(!<U as Instance>::is_valid(Chip::Imxrt1010, UART::UART5));
    assert!(<U as Instance>::is_valid(Chip::Imxrt1060, UART::UART5));
    assert!(<U as Instance>::is_valid(Chip::Imxrt1060, UART::UART8));
    assert!(<G as Instance>::is_valid(Chip::Imxrt1010, GPT::GPT2));

    assert_eq!(check_instance::<U>(Chip::Imxrt1060, UART::UART7), Some(UART::UART7));
    assert_eq!(check_instance::<U>(Chip::Imxrt1010, UART::UART7), None);
    assert_eq!(check_instance::<G>(Chip::Imxrt1010, GPT::GPT1), Some(GPT::GPT1));
}

#[test]
fn instances_name_themselves_by_address() {
    let mut uarts = ral::lpuart::instances::Taken::new(Chip::Imxrt1060);
    let expected = [
        UART::UART1,
        UART::UART2,
        UART::UART3,
        UART::UART4,
        UART::UART5,
        UART::UART6,
        UART::UART7,
        UART::UART8,
    ];
    for n in 1..=8 {
        let uart = ral::lpuart::instances::take(&mut uarts, n).unwrap();
        assert_eq!(uart.instance(), expected[n - 1]);
    }
    let mut timers = ral::gpt::instances::Taken::new(Chip::Imxrt1060);
    assert_eq!(ral::gpt::instances::take(&mut timers, 1).unwrap().instance(), GPT::GPT1);
    assert_eq!(ral::gpt::instances::take(&mut timers, 2).unwrap().instance(), GPT::GPT2);
}
