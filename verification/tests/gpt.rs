use core::time::Duration;
use proto_hal::ccm::{PerClock, CCM};
use proto_hal::delay;
use proto_hal::gpt::{CLOCK_HZ, DIVIDER};
use proto_hal::ral::gpt::instances::{take, Taken};
use proto_hal::ral::gpt::{Instance, Register};
use proto_hal::{Chip, Mode, OutputCompareRegister, Write, GPT};

const GPT2: u32 = 0x401F_0000;
const CR: u32 = GPT2;
const PR: u32 = GPT2 + 0x04;
const SR: u32 = GPT2 + 0x08;
const IR: u32 = GPT2 + 0x0C;
const OCR1: u32 = GPT2 + 0x10;
const OCR2: u32 = GPT2 + 0x14;
const OCR3: u32 = GPT2 + 0x18;

fn clock() -> PerClock<Instance> {
    let CCM { mut handle, perclock, .. } = CCM::new(Chip::Imxrt1060);
    perclock.enable(&mut handle)
}

fn instance() -> Instance {
    let mut taken = Taken::new(Chip::Imxrt1060);
    take(&mut taken, 2).unwrap()
}

fn timer() -> GPT {
    let mut timer = GPT::new(instance(), &clock());
    let _ = timer.registers().take_writes();
    timer
}

#[test]
fn new_runs_the_initialization_in_order() {
    let mut gpt = instance();
    gpt.load(Register::SR, 0b11_1111);
    gpt.load(Register::IR, 0b11_1111);
    let mut timer = GPT::new(gpt, &clock());

    let regs = timer.registers().registers();
    assert_eq!(regs.CR, 0x0000_0749);
    assert_eq!(regs.PR, 0x0000_4000);
    assert_eq!(regs.SR, 0);
    assert_eq!(regs.IR, 0b01_1111);
    assert_eq!(
        timer.registers().take_writes(),
        vec![
            Write { addr: CR, value: 0x0000_0540 },
            Write { addr: PR, value: 0x0000_4000 },
            Write { addr: SR, value: 0x0000_003F },
            Write { addr: IR, value: 0x0000_001F },
            Write { addr: CR, value: 0x0000_0749 },
        ]
    );
}

#[test]
fn new_timer_is_free_running_and_enabled() {
    let timer = timer();
    assert_eq!(timer.mode(), Mode::FreeRunning);
    assert!(timer.enabled());
    assert!(timer.wait_mode_enabled());
    assert!(!timer.reset_on_enable());
}

#[test]
fn new_overwrites_what_the_control_register_held() {
    let mut gpt = instance();
    gpt.load(Register::CR, 0xFFFF_FFFF);
    let mut timer = GPT::new(gpt, &clock());
    assert_eq!(timer.registers().read(Register::CR), 0x0000_0749);
}

#[test]
fn set_mode_changes_the_free_run_bit_only() {
    let mut timer = timer();
    timer.set_mode(Mode::Reset);
    assert_eq!(timer.mode(), Mode::Reset);
    assert_eq!(timer.registers().read(Register::CR), 0x0000_0549);
    timer.set_mode(Mode::FreeRunning);
    assert_eq!(timer.mode(), Mode::FreeRunning);
    assert_eq!(
        timer.registers().take_writes(),
        vec![Write { addr: CR, value: 0x0000_0549 }, Write { addr: CR, value: 0x0000_0749 }]
    );
    assert_eq!(Mode::Reset.bits(), 0);
    assert_eq!(Mode::FreeRunning.bits(), 1);
}

#[test]
fn set_enable_round_trip() {
    let mut timer = timer();
    timer.set_enable(false);
    assert!(!timer.enabled());
    assert_eq!(timer.registers().read(Register::CR), 0x0000_0748);
    timer.set_enable(true);
    assert!(timer.enabled());
    assert_eq!(timer.registers().read(Register::CR), 0x0000_0749);
}

#[test]
fn set_reset_on_enable_round_trip() {
    let mut timer = timer();
    timer.set_reset_on_enable(true);
    assert!(timer.reset_on_enable());
    assert_eq!(timer.registers().read(Register::CR), 0x0000_074B);
    timer.set_reset_on_enable(false);
    assert!(!timer.reset_on_enable());
    assert_eq!(timer.registers().read(Register::CR), 0x0000_0749);
}

#[test]
fn set_wait_mode_enable_round_trip() {
    let mut timer = timer();
    timer.set_wait_mode_enable(false);
    assert!(!timer.wait_mode_enabled());
    assert_eq!(timer.registers().read(Register::CR), 0x0000_0741);
    timer.set_wait_mode_enable(true);
    assert!(timer.wait_mode_enabled());
}

#[test]
fn count_reads_the_counter() {
    let mut timer = timer();
    assert_eq!(timer.count(), 0);
    timer.registers().load(Register::CNT, 0xDEAD_BEEF);
    assert_eq!(timer.count(), 0xDEAD_BEEF);
}

#[test]
fn output_compare_counts_are_per_channel() {
    let mut timer = timer();
    assert_eq!(timer.output_compare_count(OutputCompareRegister::One), 0xFFFF_FFFF);
    timer.set_output_compare_count(OutputCompareRegister::One, 1);
    timer.set_output_compare_count(OutputCompareRegister::Two, 2);
    timer.set_output_compare_count(OutputCompareRegister::Three, 3);
    assert_eq!(timer.output_compare_count(OutputCompareRegister::One), 1);
    assert_eq!(timer.output_compare_count(OutputCompareRegister::Two), 2);
    assert_eq!(timer.output_compare_count(OutputCompareRegister::Three), 3);
    assert_eq!(
        timer.registers().take_writes(),
        vec![
            Write { addr: OCR1, value: 1 },
            Write { addr: OCR2, value: 2 },
            Write { addr: OCR3, value: 3 },
        ]
    );
}

#[test]
fn output_compare_status_is_one_bit_per_channel() {
    let mut timer = timer();
    timer.registers().load(Register::SR, 0b010);
    assert!(!timer.output_compare_status(OutputCompareRegister::One).is_set());
    assert!(timer.output_compare_status(OutputCompareRegister::Two).is_set());
    assert!(!timer.output_compare_status(OutputCompareRegister::Three).is_set());
    assert_eq!(OutputCompareRegister::One.index(), 0);
    assert_eq!(OutputCompareRegister::Two.index(), 1);
    assert_eq!(OutputCompareRegister::Three.index(), 2);
    assert_eq!(OutputCompareRegister::Three.register(), Register::OCR3);
}

#[test]
fn clearing_a_status_writes_its_bit_and_keeps_the_others() {
    let mut timer = timer();
    timer.registers().load(Register::SR, 0b111);
    let mut status = timer.output_compare_status(OutputCompareRegister::Two);
    assert!(status.is_set());
    status.clear();
    assert!(!status.is_set());
    assert_eq!(timer.registers().read(Register::SR), 0b101);
    assert_eq!(timer.registers().take_writes(), vec![Write { addr: SR, value: 0b010 }]);
}

#[test]
fn clock_period_is_five_microseconds() {
    let timer = timer();
    assert_eq!(DIVIDER, 5);
    assert_eq!(CLOCK_HZ, 200_000);
    assert_eq!(timer.clock_period(), Duration::from_nanos(5_000));
    assert_eq!(timer.clock_period(), Duration::from_micros(5));
}

#[test]
fn delay_arms_one_hundred_thousand_ticks_ahead() {
    let mut timer = timer();
    timer.set_output_compare_count(OutputCompareRegister::One, 1_000);
    let _ = timer.registers().take_writes();
    delay::start(&mut timer);
    assert_eq!(delay::FIVE_HUNDRED_MILLISECONDS_IN_TICKS, 100_000);
    assert_eq!(timer.output_compare_count(OutputCompareRegister::One), 101_000);
    assert!(timer.enabled());
    assert_eq!(
        timer.registers().take_writes(),
        vec![
            Write { addr: CR, value: 0x0000_0748 },
            Write { addr: OCR1, value: 101_000 },
            Write { addr: CR, value: 0x0000_0749 },
        ]
    );
}

#[test]
fn delay_wraps_near_the_largest_count() {
    let mut timer = timer();
    timer.set_output_compare_count(OutputCompareRegister::One, u32::MAX - 10);
    delay::start(&mut timer);
    assert_eq!(timer.output_compare_count(OutputCompareRegister::One), 99_989);
    assert_eq!((u32::MAX - 10).wrapping_add(100_000), 99_989);

    // the flag test does not depend on the compare value
    assert!(!delay::poll(&mut timer));
    timer.registers().load(Register::SR, 0b001);
    assert!(delay::poll(&mut timer));
}

#[test]
fn delay_from_reset_compare_value_wraps_to_one_tick_less() {
    let mut timer = timer();
    delay::start(&mut timer);
    assert_eq!(timer.output_compare_count(OutputCompareRegister::One), 99_999);
}

#[test]
fn arm_any_channel_by_any_ticks() {
    let mut timer = timer();
    timer.set_output_compare_count(OutputCompareRegister::Three, 0xFFFF_FFFF);
    delay::arm(&mut timer, OutputCompareRegister::Three, 1);
    assert_eq!(timer.output_compare_count(OutputCompareRegister::Three), 0);
    delay::arm(&mut timer, OutputCompareRegister::Three, 0);
    assert_eq!(timer.output_compare_count(OutputCompareRegister::Three), 0);
    delay::arm(&mut timer, OutputCompareRegister::Two, u32::MAX);
    assert_eq!(timer.output_compare_count(OutputCompareRegister::Two), 0xFFFF_FFFE);
}

#[test]
fn poll_changes_nothing_until_the_flag_is_set() {
    let mut timer = timer();
    delay::start(&mut timer);
    let _ = timer.registers().take_writes();
    // flags of the other channels do not end the delay
    timer.registers().load(Register::SR, 0b110);
    assert!(!delay::poll(&mut timer));
    assert!(timer.enabled());
    assert!(timer.registers().take_writes().is_empty());
}

#[test]
fn poll_clears_the_flag_and_stops_the_counter() {
    let mut timer = timer();
    delay::start(&mut timer);
    let _ = timer.registers().take_writes();
    timer.registers().load(Register::SR, 0b011);
    assert!(delay::poll(&mut timer));
    assert!(!timer.enabled());
    assert_eq!(timer.registers().read(Register::SR), 0b010);
    assert_eq!(
        timer.registers().take_writes(),
        vec![Write { addr: SR, value: 0b001 }, Write { addr: CR, value: 0x0000_0748 }]
    );
    assert!(!delay::expire(&mut timer, OutputCompareRegister::One));
    assert!(delay::expire(&mut timer, OutputCompareRegister::Two));
}
