use proto_hal::ccm::{UARTClock, CCM};
use proto_hal::ral::lpuart::instances::{take, Taken};
use proto_hal::ral::lpuart::{Instance, Register};
use proto_hal::uart::{timings, Error, ReadError, ReadErrorFlags, Timings, UART_CLOCK};
use proto_hal::{Chip, Write, UART};

const LPUART2: u32 = 0x4018_8000;
const BAUD: u32 = LPUART2 + 0x10;
const STAT: u32 = LPUART2 + 0x14;
const CTRL: u32 = LPUART2 + 0x18;
const DATA: u32 = LPUART2 + 0x1C;
const FIFO: u32 = LPUART2 + 0x28;

#[derive(Debug, PartialEq)]
struct Tx;
#[derive(Debug, PartialEq)]
struct Rx;

fn clock() -> UARTClock<Instance> {
    let CCM { mut handle, uart_clock, .. } = CCM::new(Chip::Imxrt1060);
    uart_clock.enable(&mut handle)
}

fn instance() -> Instance {
    let mut taken = Taken::new(Chip::Imxrt1060);
    take(&mut taken, 2).unwrap()
}

fn serial() -> UART<Tx, Rx> {
    let mut serial = UART::new(instance(), Tx, Rx, &clock());
    let _ = serial.registers().take_writes();
    serial
}

fn baud_error(clock: u32, baud: u32, osr: u32) -> u32 {
    let sbr = (clock / baud / osr).clamp(1, 8191);
    let effective = clock / (osr * sbr);
    effective.max(baud) - effective.min(baud)
}

#[test]
fn timings_for_9600_baud() {
    assert_eq!(UART_CLOCK, 24_000_000);
    assert_eq!(timings(24_000_000, 9600), Ok(Timings { osr: 3, sbr: 625, both_edge: true }));
}

#[test]
fn timings_for_9600_baud_are_the_best_of_the_range() {
    let found = timings(24_000_000, 9600).unwrap();
    let osr = u32::from(found.osr) + 1;
    let error = baud_error(24_000_000, 9600, osr);
    assert_eq!(error, 0);
    for other in 4..=32 {
        assert!(error <= baud_error(24_000_000, 9600, other));
    }
    for other in 4..osr {
        assert!(error < baud_error(24_000_000, 9600, other));
    }
}

#[test]
fn timings_for_115200_baud() {
    assert_eq!(timings(24_000_000, 115_200), Ok(Timings { osr: 3, sbr: 52, both_edge: true }));
}

#[test]
fn timings_for_zero_baud_fail() {
    assert_eq!(timings(24_000_000, 0), Err(Error::Clock));
    assert_eq!(timings(0, 0), Err(Error::Clock));
}

#[test]
fn timings_clamp_the_divisor() {
    // the divisor would be far above 8191 for every ratio
    assert_eq!(timings(24_000_000, 1), Ok(Timings { osr: 31, sbr: 8191, both_edge: false }));
    // for a ratio of five the divisor would be zero, and one comes closest
    assert_eq!(24_000_000 / 5_000_000 / 5, 0);
    assert_eq!(timings(24_000_000, 5_000_000), Ok(Timings { osr: 4, sbr: 1, both_edge: true }));
}

#[test]
fn timings_set_both_edge_below_a_ratio_of_eight() {
    for baud in [300, 1200, 9600, 19_200, 57_600, 115_200, 1_000_000, 3_000_000, 5_000_000] {
        let found = timings(24_000_000, baud).unwrap();
        assert_eq!(found.both_edge, found.osr + 1 < 8);
        assert!((3..=31).contains(&found.osr));
        assert!((1..=8191).contains(&found.sbr));
    }
    assert_eq!(timings(24_000_000, 5_000_000), Ok(Timings { osr: 4, sbr: 1, both_edge: true }));
    assert_eq!(timings(24_000_000, 4_000_000), Ok(Timings { osr: 5, sbr: 1, both_edge: true }));
    assert_eq!(timings(2_400_000, 100_000), Ok(Timings { osr: 3, sbr: 6, both_edge: true }));
    assert_eq!(timings(1_056_000, 8_000), Ok(Timings { osr: 3, sbr: 33, both_edge: true }));
    // only a ratio of eleven or of twenty-two divides 110 without a rest
    assert!(!timings(110, 10).unwrap().both_edge);
    assert_eq!(timings(110, 10), Ok(Timings { osr: 10, sbr: 1, both_edge: false }));
}

#[test]
fn timings_first_of_equal_ratios_wins() {
    // ratios 4, 5, 10, 20 and 25 all give 9600 baud exactly
    assert_eq!(baud_error(24_000_000, 9600, 5), 0);
    assert_eq!(baud_error(24_000_000, 9600, 10), 0);
    assert_eq!(timings(24_000_000, 9600).unwrap().osr, 3);
}

#[test]
fn timings_fail_above_the_highest_rate_of_the_clock() {
    // a quarter of the clock is the highest rate
    assert_eq!(timings(24_000_000, 6_000_000), Ok(Timings { osr: 3, sbr: 1, both_edge: true }));
    assert_eq!(timings(24_000_000, 6_000_001), Err(Error::Clock));
    assert_eq!(timings(24_000_000, 24_000_000), Err(Error::Clock));
    assert_eq!(timings(24_000_000, 100_000_000), Err(Error::Clock));
    assert_eq!(timings(24_000_000, u32::MAX), Err(Error::Clock));
    assert_eq!(timings(u32::MAX, u32::MAX), Err(Error::Clock));
    assert_eq!(timings(u32::MAX, u32::MAX / 4 + 1), Err(Error::Clock));
    assert!(timings(u32::MAX, u32::MAX / 4).is_ok());
}

#[test]
fn timings_fail_for_a_clock_that_gives_no_rate() {
    assert_eq!(timings(0, 9600), Err(Error::Clock));
    assert_eq!(timings(3, 1), Err(Error::Clock));
    assert_eq!(timings(3, u32::MAX), Err(Error::Clock));
    assert_eq!(timings(4, 1), Ok(Timings { osr: 3, sbr: 1, both_edge: true }));
    assert_eq!(timings(4, 2), Err(Error::Clock));
}

#[test]
fn new_sets_9600_baud_then_enables_both_directions() {
    let mut serial = UART::new(instance(), Tx, Rx, &clock());
    let regs = serial.registers().registers();
    assert_eq!(regs.BAUD, 0x0302_0271);
    assert_eq!(regs.CTRL, 0x000C_0000);
    assert_eq!(regs.FIFO, 0x00C0_0011);
    assert_eq!(
        serial.registers().take_writes(),
        vec![
            Write { addr: FIFO, value: 0x00C0_C011 },
            Write { addr: CTRL, value: 0 },
            Write { addr: BAUD, value: 0x0302_0271 },
            Write { addr: CTRL, value: 0 },
            Write { addr: CTRL, value: 0x000C_0000 },
        ]
    );
}

#[test]
fn set_baud_restores_enabled_transmitter_and_receiver() {
    let mut serial = serial();
    assert_eq!(serial.registers().read(Register::CTRL), 0x000C_0000);
    assert_eq!(serial.set_baud(115_200), Ok(()));
    assert_eq!(serial.registers().read(Register::CTRL), 0x000C_0000);
    assert_eq!(serial.registers().read(Register::BAUD), 0x0302_0034);
    assert_eq!(
        serial.registers().take_writes(),
        vec![
            Write { addr: FIFO, value: 0x00C0_C011 },
            Write { addr: CTRL, value: 0 },
            Write { addr: BAUD, value: 0x0302_0034 },
            Write { addr: CTRL, value: 0x000C_0000 },
        ]
    );
}

#[test]
fn set_baud_restores_each_enable_bit_for_bit() {
    for ctrl in [0x0000_0000u32, 0x0004_0000, 0x0008_0000, 0x000C_0000, 0xFFFF_FFFF, 0x8003_0013] {
        let mut serial = serial();
        serial.registers().load(Register::CTRL, ctrl);
        assert_eq!(serial.set_baud(19_200), Ok(()));
        assert_eq!(serial.registers().read(Register::CTRL), ctrl);
        let writes = serial.registers().take_writes();
        assert_eq!(writes.len(), 4);
        assert_eq!(writes[1], Write { addr: CTRL, value: ctrl & !0x000C_0000 });
        assert_eq!(writes[3], Write { addr: CTRL, value: ctrl });
    }
}

#[test]
fn set_baud_keeps_the_other_baud_fields() {
    let mut serial = serial();
    serial.registers().load(Register::BAUD, 0xFFFF_FFFF);
    assert_eq!(serial.set_baud(1), Ok(()));
    // ratio 32 - 1 in bits 24 to 28, divisor 8191, both-edge cleared
    assert_eq!(serial.registers().read(Register::BAUD), 0xFFFD_FFFF);
    serial.registers().load(Register::BAUD, 0);
    assert_eq!(serial.set_baud(9600), Ok(()));
    assert_eq!(serial.registers().read(Register::BAUD), 0x0302_0271);
}

#[test]
fn set_baud_above_the_clock_fails_and_writes_nothing() {
    for baud in [6_000_001, 24_000_000, 100_000_000, u32::MAX] {
        let mut serial = serial();
        let before = serial.registers().registers();
        assert_eq!(serial.set_baud(baud), Err(Error::Clock));
        assert_eq!(serial.registers().registers(), before);
        assert!(serial.registers().take_writes().is_empty());
    }
}

#[test]
fn set_baud_at_the_highest_rate() {
    let mut serial = serial();
    assert_eq!(serial.set_baud(6_000_000), Ok(()));
    assert_eq!(serial.registers().read(Register::BAUD), 0x0302_0001);
    assert_eq!(serial.registers().read(Register::CTRL), 0x000C_0000);
}

#[test]
fn set_baud_zero_fails_and_writes_nothing() {
    let mut serial = serial();
    let before = serial.registers().registers();
    assert_eq!(serial.set_baud(0), Err(Error::Clock));
    assert_eq!(serial.registers().registers(), before);
    assert!(serial.registers().take_writes().is_empty());
}

#[test]
fn read_would_block_when_the_buffer_is_empty() {
    let mut serial = serial();
    // the reset value of the data register has the empty flag set
    assert_eq!(
        serial.read(),
        Err(ReadError { flags: ReadErrorFlags::from_bits(ReadErrorFlags::WOULDBLOCK), raw: 0 })
    );
    serial.registers().load(Register::DATA, 0x0000_F0AB);
    let error = serial.read().unwrap_err();
    assert_eq!(error.flags.bits(), 0x01);
    assert_eq!(error.raw, 0);
    assert!(serial.registers().take_writes().is_empty());
}

#[test]
fn read_returns_the_low_byte_and_clears_the_status() {
    let mut serial = serial();
    serial.registers().load(Register::DATA, 0x0000_0341);
    serial.registers().load(Register::STAT, 0x00D0_0000);
    assert_eq!(serial.read(), Ok(0x41));
    // idle flag cleared, transmitter flags kept
    assert_eq!(serial.registers().read(Register::STAT), 0x00C0_0000);
    assert_eq!(serial.registers().take_writes(), vec![Write { addr: STAT, value: 0x00DF_0000 }]);
}

#[test]
fn read_reports_each_flag_with_the_byte() {
    let cases = [
        (0x0000_8055u32, 0x00C0_0000u32, ReadErrorFlags::NOISY),
        (0x0000_4055, 0x00C0_0000, ReadErrorFlags::PARITY),
        (0x0000_2055, 0x00C0_0000, ReadErrorFlags::FRAME_ERROR),
        (0x0000_0055, 0x00C8_0000, ReadErrorFlags::OVERRUN),
        (0x0000_E055, 0x00C8_0000, 0xF0),
        (0x0000_C055, 0x00C0_0000, 0xC0),
    ];
    for (data, stat, flags) in cases {
        let mut serial = serial();
        serial.registers().load(Register::DATA, data);
        serial.registers().load(Register::STAT, stat);
        let error = serial.read().unwrap_err();
        assert_eq!(error, ReadError { flags: ReadErrorFlags::from_bits(flags), raw: 0x55 });
        assert!(error.flags.contains(flags));
        assert!(!error.flags.contains(ReadErrorFlags::WOULDBLOCK));
        assert_eq!(serial.registers().read(Register::STAT), 0x00C0_0000);
        assert_eq!(serial.registers().take_writes().len(), 1);
    }
}

#[test]
fn read_ignores_status_flags_other_than_overrun() {
    let mut serial = serial();
    serial.registers().load(Register::DATA, 0x0000_00FF);
    // parity, framing and noise flags of the status register, not of the word
    serial.registers().load(Register::STAT, 0x00C7_0000);
    assert_eq!(serial.read(), Ok(0xFF));
    assert_eq!(serial.registers().read(Register::STAT), 0x00C0_0000);
}

#[test]
fn read_error_flags_behave_like_a_set() {
    let mut flags = ReadErrorFlags::empty();
    assert!(flags.is_empty());
    assert_eq!(flags.bits(), 0);
    flags.set(ReadErrorFlags::NOISY, true);
    flags.set(ReadErrorFlags::OVERRUN, true);
    flags.set(ReadErrorFlags::PARITY, false);
    assert_eq!(flags.bits(), 0x90);
    assert!(flags.contains(ReadErrorFlags::NOISY));
    assert!(flags.contains(ReadErrorFlags::NOISY | ReadErrorFlags::OVERRUN));
    assert!(!flags.contains(ReadErrorFlags::NOISY | ReadErrorFlags::PARITY));
    flags.set(ReadErrorFlags::NOISY, false);
    assert_eq!(flags, ReadErrorFlags::from_bits(ReadErrorFlags::OVERRUN));
    assert!(!flags.is_empty());
    assert_eq!(ReadErrorFlags::NOISY, 1 << 7);
    assert_eq!(ReadErrorFlags::PARITY, 1 << 6);
    assert_eq!(ReadErrorFlags::FRAME_ERROR, 1 << 5);
    assert_eq!(ReadErrorFlags::OVERRUN, 1 << 4);
    assert_eq!(ReadErrorFlags::WOULDBLOCK, 1 << 0);
}

#[test]
fn write_waits_for_the_transmit_register() {
    let mut serial = serial();
    serial.registers().load(Register::STAT, 0x0040_0000);
    assert!(!serial.flush());
    assert_eq!(serial.write(b'X'), Ok(false));
    assert!(serial.registers().take_writes().is_empty());

    serial.registers().load(Register::STAT, 0x0080_0000);
    assert!(serial.flush());
    assert_eq!(serial.write(b'X'), Ok(true));
    assert_eq!(serial.registers().take_writes(), vec![Write { addr: DATA, value: 0x58 }]);
    // the receive side of the data register is untouched
    assert_eq!(serial.registers().read(Register::DATA), 0x0000_1000);
}

#[test]
fn release_returns_pins_and_instance() {
    let mut serial = serial();
    assert_eq!(serial.set_baud(9600), Ok(()));
    let (tx, rx, mut uart) = serial.release();
    assert_eq!(tx, Tx);
    assert_eq!(rx, Rx);
    assert_eq!(uart.addr(), LPUART2);
    assert_eq!(uart.take_writes().len(), 4);
}
