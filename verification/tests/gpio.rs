use proto_hal::gpio::Pin;
use proto_hal::ral::gpio::{Ports, Register, RegisterBlock};
use proto_hal::{Chip, Write, GPIO};

struct Pad(u8);

fn pin(module: usize, offset: u32) -> Pin {
    Pin::new(module, offset).unwrap()
}

#[test]
fn pin_names_are_checked() {
    assert!(Pin::new(0, 0).is_none());
    assert!(Pin::new(6, 0).is_none());
    assert!(Pin::new(1, 32).is_none());
    let p = Pin::new(5, 31).unwrap();
    assert_eq!(p.module(), 5);
    assert_eq!(p.offset(), 31);
    assert_eq!(Pin::new(1, 0).unwrap().module(), 1);
}

#[test]
fn ports_start_at_reset_with_chip_addresses() {
    let ports = Ports::new(Chip::Imxrt1060);
    assert_eq!(ports.chip(), Chip::Imxrt1060);
    assert_eq!(ports.port(1).addr(), 0x401B_8000);
    assert_eq!(ports.port(2).addr(), 0x401B_C000);
    assert_eq!(ports.port(3).addr(), 0x401C_0000);
    assert_eq!(ports.port(4).addr(), 0x401C_4000);
    assert_eq!(ports.port(5).addr(), 0x400C_0000);
    assert_eq!(ports.port(1).registers(), RegisterBlock::reset(&proto_hal::ral::gpio::reset()));
    assert_eq!(ports.port(1).registers().GDIR, 0);
    for module in 1..=5 {
        assert!(ports.has(module));
    }
    assert!(!ports.has(0));
    assert!(!ports.has(6));

    let ports = Ports::new(Chip::Imxrt1010);
    assert_eq!(ports.port(2).addr(), 0x4200_0000);
    assert!(ports.has(1) && ports.has(2) && ports.has(5));
    assert!(!ports.has(3) && !ports.has(4));
}

#[test]
fn gpio_register_offsets() {
    assert_eq!(Register::DR.offset(), 0x00);
    assert_eq!(Register::GDIR.offset(), 0x04);
    assert_eq!(Register::PSR.offset(), 0x08);
    assert_eq!(Register::EDGE_SEL.offset(), 0x1C);
    assert_eq!(Register::DR_SET.offset(), 0x84);
    assert_eq!(Register::DR_CLEAR.offset(), 0x88);
    assert_eq!(Register::DR_TOGGLE.offset(), 0x8C);
}

#[test]
fn new_gpio_keeps_pad_and_name() {
    let ports = Ports::new(Chip::Imxrt1060);
    let gpio = GPIO::new(Pad(7), pin(2, 3));
    assert_eq!(gpio.module(), 2);
    assert_eq!(gpio.offset(), 1 << 3);
    assert_eq!(gpio.register_block(&ports).addr(), 0x401B_C000);
    assert!(!gpio.is_set(&ports));
}

#[test]
fn output_sets_only_the_pins_direction_bit() {
    let mut ports = Ports::new(Chip::Imxrt1060);
    ports.port_mut(2).load(Register::GDIR, 0x8000_0001);
    let gpio = GPIO::new(Pad(0), pin(2, 3));
    let _output = gpio.output(&mut ports);
    assert_eq!(ports.port(2).read(Register::GDIR), 0x8000_0009);
    assert_eq!(ports.port(1).read(Register::GDIR), 0);
    assert_eq!(
        ports.port_mut(2).take_writes(),
        vec![Write { addr: 0x401B_C004, value: 0x8000_0009 }]
    );
    assert!(ports.port_mut(1).take_writes().is_empty());
}

#[test]
fn input_output_input_round_trip() {
    let mut ports = Ports::new(Chip::Imxrt1060);
    ports.port_mut(1).load(Register::GDIR, 0x0F0F_0000);
    let before = ports.port(1).read(Register::GDIR);

    let input = GPIO::new(Pad(1), pin(1, 13));
    let output = input.output(&mut ports);
    assert_eq!(ports.port(1).read(Register::GDIR), 0x0F0F_2000);
    let _input = output.input(&mut ports);
    assert_eq!(ports.port(1).read(Register::GDIR), before);
    assert_eq!(
        ports.port_mut(1).take_writes(),
        vec![
            Write { addr: 0x401B_8004, value: 0x0F0F_2000 },
            Write { addr: 0x401B_8004, value: 0x0F0F_0000 },
        ]
    );
}

#[test]
fn round_trip_clears_a_direction_bit_that_was_set() {
    let mut ports = Ports::new(Chip::Imxrt1060);
    ports.port_mut(5).load(Register::GDIR, 0xFFFF_FFFF);
    let output = GPIO::new(Pad(2), pin(5, 0)).output(&mut ports);
    assert_eq!(ports.port(5).read(Register::GDIR), 0xFFFF_FFFF);
    let _input = output.input(&mut ports);
    assert_eq!(ports.port(5).read(Register::GDIR), 0xFFFF_FFFE);
}

#[test]
fn input_reads_the_pad_status() {
    let mut ports = Ports::new(Chip::Imxrt1060);
    let gpio = GPIO::new(Pad(3), pin(4, 31));
    assert!(!gpio.is_set(&ports));
    ports.port_mut(4).load(Register::PSR, 0x8000_0000);
    assert!(gpio.is_set(&ports));
    // the data register does not count for an input
    ports.port_mut(4).load(Register::PSR, 0x7FFF_FFFF);
    ports.port_mut(4).load(Register::DR, 0x8000_0000);
    assert!(!gpio.is_set(&ports));
}

#[test]
fn set_clear_toggle_use_their_own_registers() {
    let mut ports = Ports::new(Chip::Imxrt1060);
    let mut led = GPIO::new(Pad(4), pin(2, 3)).output(&mut ports);
    let _ = ports.port_mut(2).take_writes();
    ports.port_mut(2).load(Register::DR, 0x0000_0100);

    assert!(!led.is_set(&ports));
    led.set(&mut ports);
    assert!(led.is_set(&ports));
    assert_eq!(ports.port(2).read(Register::DR), 0x0000_0108);
    led.clear(&mut ports);
    assert!(!led.is_set(&ports));
    assert_eq!(ports.port(2).read(Register::DR), 0x0000_0100);
    led.toggle(&mut ports);
    assert!(led.is_set(&ports));
    led.toggle(&mut ports);
    assert!(!led.is_set(&ports));
    assert_eq!(ports.port(2).read(Register::DR), 0x0000_0100);

    assert_eq!(
        ports.port_mut(2).take_writes(),
        vec![
            Write { addr: 0x401B_C084, value: 0x08 },
            Write { addr: 0x401B_C088, value: 0x08 },
            Write { addr: 0x401B_C08C, value: 0x08 },
            Write { addr: 0x401B_C08C, value: 0x08 },
        ]
    );
    assert_eq!(led.module(), 2);
}

#[test]
fn gpio_on_1010_uses_its_second_module_address() {
    let mut ports = Ports::new(Chip::Imxrt1010);
    let _led = GPIO::new(Pad(5), pin(2, 0)).output(&mut ports);
    assert_eq!(ports.port_mut(2).take_writes(), vec![Write { addr: 0x4200_0004, value: 1 }]);
}

#[test]
fn interrupt_status_clears_on_one_and_pad_status_is_read_only() {
    let mut ports = Ports::new(Chip::Imxrt1060);
    let port = ports.port_mut(3);
    port.load(Register::ISR, 0b1111);
    port.load(Register::PSR, 0xAAAA_AAAA);
    port.write(Register::ISR, 0b0101);
    port.write(Register::PSR, 0);
    port.write(Register::IMR, 0x1234);
    assert_eq!(port.read(Register::ISR), 0b1010);
    assert_eq!(port.read(Register::PSR), 0xAAAA_AAAA);
    assert_eq!(port.read(Register::IMR), 0x1234);
    assert_eq!(port.read(Register::DR_SET), 0);
}
