//! The driver against a simulated board: six port expanders, six input
//! chips, four select lines, chip select, load line and a delay source,
//! with every request recorded.

use firmware_logic::io::bus::{DelayUs, OutputPin, SpiMode, TkrtSpi};
use firmware_logic::io::dio::Dio;
use firmware_logic::{IoBank, IoError, IoLevel, IoState, IoSupply, IoTemp};
use std::cell::RefCell;
use std::rc::Rc;

#[derive(Debug, Clone, Copy, PartialEq, Eq)]
enum Pin {
    Sel0,
    Sel1,
    Sel2,
    Sel3,
    Ncs,
    Ld,
}

#[derive(Debug, Clone, PartialEq, Eq)]
enum Op {
    Drive(Pin, bool),
    Delay(u32),
    Mode(SpiMode),
    Exchange([u8; 2]),
}

struct Board {
    ops: Vec<Op>,
    select: u8,
    mode: Option<SpiMode>,
    ncs_low: bool,
    /// Registers of the six port expanders, by register address.
    registers: [[u8; 128]; 6],
    /// What each port expander answers to the next frame.
    pending: [u8; 6],
    /// The frame of each input chip.
    frames: [[u8; 2]; 6],
    /// Fails the n-th drive of a pin from now, counted from 0.
    fail_drive: Option<usize>,
    /// Fails the n-th exchange from now, counted from 0.
    fail_exchange: Option<usize>,
    exchanges_on_outputs: usize,
}

impl Board {
    fn new() -> Board {
        let mut registers = [[0u8; 128]; 6];
        for chip in registers.iter_mut() {
            for register in 0x09..=0x0F {
                chip[register] = 0xAA;
            }
        }
        Board {
            ops: Vec::new(),
            select: 0xFF,
            mode: None,
            ncs_low: false,
            registers,
            pending: [0; 6],
            frames: [[0, 0]; 6],
            fail_drive: None,
            fail_exchange: None,
            exchanges_on_outputs: 0,
        }
    }

    fn drive(&mut self, pin: Pin, high: bool) -> Result<(), u8> {
        self.ops.push(Op::Drive(pin, high));
        if let Some(n) = self.fail_drive {
            if n == 0 {
                self.fail_drive = None;
                return Err(7);
            }
            self.fail_drive = Some(n - 1);
        }
        let bit = match pin {
            Pin::Sel0 => Some(0),
            Pin::Sel1 => Some(1),
            Pin::Sel2 => Some(2),
            Pin::Sel3 => Some(3),
            Pin::Ncs => {
                self.ncs_low = !high;
                None
            }
            Pin::Ld => None,
        };
        if let Some(bit) = bit {
            if high {
                self.select |= 1 << bit;
            } else {
                self.select &= !(1 << bit);
            }
        }
        Ok(())
    }

    fn exchange(&mut self, words: [u8; 2]) -> Result<[u8; 2], u16> {
        self.ops.push(Op::Exchange(words));
        if let Some(n) = self.fail_exchange {
            if n == 0 {
                self.fail_exchange = None;
                return Err(99);
            }
            self.fail_exchange = Some(n - 1);
        }
        assert!(self.ncs_low, "exchange without chip select");
        let address = self.select & 0x0F;
        if (8..=13).contains(&address) {
            assert_eq!(self.mode, Some(SpiMode::Mode0));
            self.exchanges_on_outputs += 1;
            let chip = (13 - address) as usize;
            let answer = [0, self.pending[chip]];
            let register = (words[0] & 0x7F) as usize;
            if words[0] & 0x80 != 0 {
                self.pending[chip] = self.registers[chip][register];
            } else if words[0] != 0 {
                self.registers[chip][register] = words[1];
            }
            Ok(answer)
        } else if address <= 5 {
            assert_eq!(self.mode, Some(SpiMode::Mode2));
            assert_eq!(words, [0x50, 0x00]);
            Ok(self.frames[(5 - address) as usize])
        } else {
            Ok([0xFF, 0xFF])
        }
    }

    fn exchanges(&self) -> Vec<[u8; 2]> {
        self.ops
            .iter()
            .filter_map(|op| match op {
                Op::Exchange(words) => Some(*words),
                _ => None,
            })
            .collect()
    }
}

struct SimPin {
    board: Rc<RefCell<Board>>,
    pin: Pin,
}

impl OutputPin for SimPin {
    type Error = u8;

    fn set_low(&mut self) -> Result<(), u8> {
        self.board.borrow_mut().drive(self.pin, false)
    }

    fn set_high(&mut self) -> Result<(), u8> {
        self.board.borrow_mut().drive(self.pin, true)
    }
}

struct SimSpi {
    board: Rc<RefCell<Board>>,
}

impl TkrtSpi for SimSpi {
    type Error = u16;

    fn set_spi_mode(&mut self, mode: SpiMode) {
        let mut board = self.board.borrow_mut();
        board.ops.push(Op::Mode(mode));
        board.mode = Some(mode);
    }

    fn transfer(&mut self, words: [u8; 2]) -> Result<[u8; 2], u16> {
        self.board.borrow_mut().exchange(words)
    }
}

struct SimDelay {
    board: Rc<RefCell<Board>>,
}

impl DelayUs for SimDelay {
    fn delay_us(&mut self, us: u32) {
        self.board.borrow_mut().ops.push(Op::Delay(us));
    }
}

type SimDio = Dio<SimSpi, SimPin, SimPin, SimPin, SimPin, SimPin, SimPin, SimDelay>;

fn rig() -> (SimDio, Rc<RefCell<Board>>) {
    let board = Rc::new(RefCell::new(Board::new()));
    let pin = |pin: Pin| SimPin { board: board.clone(), pin };
    let dio = Dio::new(
        pin(Pin::Sel0),
        pin(Pin::Sel1),
        pin(Pin::Sel2),
        pin(Pin::Sel3),
        SimSpi { board: board.clone() },
        pin(Pin::Ncs),
        pin(Pin::Ld),
        SimDelay { board: board.clone() },
    );
    (dio, board)
}

fn select_ops(chip: u8) -> Vec<Op> {
    vec![
        Op::Drive(Pin::Sel0, chip & 1 != 0),
        Op::Drive(Pin::Sel1, chip & 2 != 0),
        Op::Drive(Pin::Sel2, chip & 4 != 0),
        Op::Drive(Pin::Sel3, chip & 8 != 0),
        Op::Delay(2),
    ]
}

fn frame_ops(mode: SpiMode, words: [u8; 2]) -> Vec<Op> {
    vec![
        Op::Mode(mode),
        Op::Drive(Pin::Ncs, false),
        Op::Delay(2),
        Op::Exchange(words),
        Op::Delay(2),
        Op::Drive(Pin::Ncs, true),
        Op::Delay(2),
    ]
}

fn load_ops() -> Vec<Op> {
    vec![Op::Drive(Pin::Ld, false), Op::Delay(2), Op::Drive(Pin::Ld, true)]
}

/// The frame of an input chip with the given inputs and flags, header and
/// parity as the chip sends them.
fn input_frame(inputs: u8, thermal: bool, supply: bool) -> [u8; 2] {
    let low: u16 = inputs as u16 | (thermal as u16) << 8 | (supply as u16) << 9;
    let parity: u16 = if low.count_ones() % 2 == 0 { 1 } else { 0 };
    let word: u16 = 0x5000 | parity << 10 | low;
    [(word & 0xFF) as u8, ((word >> 8) as u8).reverse_bits()]
}

#[test]
fn set_output_37_high_writes_register_0x28_of_bank_5() {
    let (mut dio, board) = rig();
    assert_eq!(dio.set_do_by_num(37, IoLevel::High), Ok(()));
    let mut expected = select_ops(9);
    expected.extend(frame_ops(SpiMode::Mode0, [0x28, 1]));
    assert_eq!(board.borrow().ops, expected);
    assert_eq!(board.borrow().registers[4][0x28], 1);
}

#[test]
fn set_output_high_impedance_writes_zero() {
    let (mut dio, board) = rig();
    board.borrow_mut().registers[0][0x24] = 1;
    assert_eq!(dio.set_do_by_num(1, IoLevel::HiZ), Ok(()));
    assert_eq!(board.borrow().exchanges(), vec![[0x24, 0]]);
    assert_eq!(board.borrow().registers[0][0x24], 0);
}

#[test]
fn set_output_low_is_unsupported_after_selecting_the_bank() {
    let (mut dio, board) = rig();
    assert_eq!(dio.set_do_by_num(48, IoLevel::Low), Err(IoError::UnsupportedLevel));
    assert_eq!(board.borrow().ops, select_ops(8));
}

#[test]
fn every_output_channel_reaches_its_bank_and_port() {
    for logical in 1u8..=48 {
        let (mut dio, board) = rig();
        assert_eq!(dio.set_do_by_num(logical, IoLevel::High), Ok(()));
        let bank = (logical - 1) / 8 + 1;
        let local = (logical - 1) % 8 + 1;
        let mut expected = select_ops(14 - bank);
        expected.extend(frame_ops(SpiMode::Mode0, [0x20 + local + 3, 1]));
        assert_eq!(board.borrow().ops, expected);
    }
}

#[test]
fn channels_outside_1_to_48_are_refused_without_any_request() {
    for logical in [0u8, 49, 50, 128, 255] {
        let (mut dio, board) = rig();
        assert_eq!(dio.set_do_by_num(logical, IoLevel::High), Err(IoError::IllegalOutput));
        assert_eq!(dio.get_do_state_by_num(logical), Err(IoError::IllegalOutput));
        assert_eq!(dio.get_di_by_num(logical), Err(IoError::IllegalInput));
        assert!(board.borrow().ops.is_empty());
    }
}

#[test]
fn places_outside_a_bank_are_refused_after_selecting_it() {
    let (mut dio, board) = rig();
    assert_eq!(dio.set_do_by_bank(IoBank::Bank2, 9, IoLevel::High), Err(IoError::IllegalOutput));
    assert_eq!(board.borrow().ops, select_ops(12));
    let (mut dio, board) = rig();
    assert_eq!(dio.set_do_by_bank(IoBank::Bank2, 0, IoLevel::High), Err(IoError::IllegalOutput));
    assert_eq!(board.borrow().ops, select_ops(12));
    let (mut dio, board) = rig();
    assert_eq!(dio.get_di_by_bank(IoBank::Bank3, 0), Err(IoError::IllegalInput));
    assert_eq!(dio.get_di_by_bank(IoBank::Bank3, 9), Err(IoError::IllegalInput));
    let mut expected = select_ops(3);
    expected.extend(select_ops(3));
    assert_eq!(board.borrow().ops, expected);
}

#[test]
fn get_input_9_reads_bit_0_of_the_frame_of_bank_2() {
    let (mut dio, board) = rig();
    board.borrow_mut().frames[1] = input_frame(0b0000_0001, true, true);
    assert_eq!(dio.get_di_by_num(9), Ok(IoLevel::High));
    let mut expected = select_ops(4);
    expected.extend(load_ops());
    expected.extend(frame_ops(SpiMode::Mode2, [0x50, 0x00]));
    assert_eq!(board.borrow().ops, expected);
    board.borrow_mut().frames[1] = input_frame(0b1111_1110, true, true);
    assert_eq!(dio.get_di_by_num(9), Ok(IoLevel::Low));
}

#[test]
fn every_input_channel_reads_its_bit() {
    for logical in 1u8..=48 {
        let bank = ((logical - 1) / 8) as usize;
        let bit = (logical - 1) % 8;
        let (mut dio, board) = rig();
        for frame in board.borrow_mut().frames.iter_mut() {
            *frame = input_frame(0, true, true);
        }
        board.borrow_mut().frames[bank] = input_frame(1 << bit, true, true);
        assert_eq!(dio.get_di_by_num(logical), Ok(IoLevel::High));
        board.borrow_mut().frames[bank] = input_frame(!(1 << bit), true, true);
        assert_eq!(dio.get_di_by_num(logical), Ok(IoLevel::Low));
    }
}

#[test]
fn input_flags_give_temperature_and_supply() {
    let (mut dio, board) = rig();
    board.borrow_mut().frames[5] = input_frame(0x5A, true, false);
    assert_eq!(dio.get_di_temp(IoBank::Bank6), Ok(IoTemp::Normal));
    assert_eq!(dio.get_di_supply(IoBank::Bank6), Ok(IoSupply::Unpowered));
    board.borrow_mut().frames[5] = input_frame(0x5A, false, true);
    assert_eq!(dio.get_di_temp(IoBank::Bank6), Ok(IoTemp::Hot));
    assert_eq!(dio.get_di_supply(IoBank::Bank6), Ok(IoSupply::Powered));
    assert_eq!(&board.borrow().ops[..5], &select_ops(0)[..]);
}

#[test]
fn a_frame_with_a_wrong_header_is_a_parity_error_and_touches_no_output() {
    let (mut dio, board) = rig();
    assert_eq!(dio.set_do_by_num(12, IoLevel::High), Ok(()));
    let registers = board.borrow().registers;
    let on_outputs = board.borrow().exchanges_on_outputs;
    let mut frame = input_frame(0xFF, true, true);
    frame[1] ^= 0x01;
    board.borrow_mut().frames[1] = frame;
    assert_eq!(dio.get_di_by_num(12), Err(IoError::DiParity));
    assert_eq!(dio.get_di_by_bank(IoBank::Bank2, 4), Err(IoError::DiParity));
    assert_eq!(dio.get_di_temp(IoBank::Bank2), Err(IoError::DiParity));
    assert_eq!(dio.get_di_supply(IoBank::Bank2), Err(IoError::DiParity));
    assert_eq!(board.borrow().registers, registers);
    assert_eq!(board.borrow().exchanges_on_outputs, on_outputs);
}

#[test]
fn a_frame_with_a_flipped_bit_is_a_parity_error() {
    for bit in 0..10 {
        let (mut dio, board) = rig();
        let sound = input_frame(0xA5, true, false);
        board.borrow_mut().frames[0] = sound;
        assert_eq!(dio.get_di_by_num(1), Ok(IoLevel::High));
        let mut frame = sound;
        if bit < 8 {
            frame[0] ^= 1 << bit;
        } else {
            frame[1] ^= 0x80 >> (bit - 8);
        }
        board.borrow_mut().frames[0] = frame;
        assert_eq!(dio.get_di_by_num(1), Err(IoError::DiParity));
    }
}

#[test]
fn read_single_bit_pulses_load_and_fetches_the_frame() {
    let (mut dio, board) = rig();
    board.borrow_mut().select = 5;
    board.borrow_mut().frames[0] = input_frame(0b0100_0000, false, true);
    assert_eq!(dio.sn65hvs881_read_single_bit(6), Ok(true));
    assert_eq!(dio.sn65hvs881_read_single_bit(5), Ok(false));
    assert_eq!(dio.sn65hvs881_read_single_bit(8), Ok(false));
    assert_eq!(dio.sn65hvs881_read_single_bit(9), Ok(true));
    let mut once = load_ops();
    once.extend(frame_ops(SpiMode::Mode2, [0x50, 0x00]));
    assert_eq!(&board.borrow().ops[..10], &once[..]);
    assert_eq!(board.borrow().ops.len(), 40);
}

#[test]
fn read_port_asks_and_then_fetches_with_an_empty_frame() {
    let (mut dio, board) = rig();
    board.borrow_mut().select = 13;
    board.borrow_mut().registers[0][0x20 + 16] = 1;
    assert_eq!(dio.max7301_read_single_port(16), Ok(IoLevel::High));
    let mut expected = frame_ops(SpiMode::Mode0, [0xA0 + 16, 0]);
    expected.extend(frame_ops(SpiMode::Mode0, [0, 0]));
    assert_eq!(board.borrow().ops, expected);
    board.borrow_mut().registers[0][0x20 + 16] = 0;
    assert_eq!(dio.max7301_read_single_port(16), Ok(IoLevel::Low));
    board.borrow_mut().registers[0][0x20 + 16] = 0x80;
    assert_eq!(dio.max7301_read_single_port(16), Ok(IoLevel::High));
}

#[test]
fn ports_outside_4_to_31_are_refused_without_any_request() {
    for port in [0u8, 3, 32, 200, 255] {
        let (mut dio, board) = rig();
        assert_eq!(dio.max7301_write_single_port(port, IoLevel::High), Err(IoError::IllegalOutput));
        assert_eq!(dio.max7301_write_single_port(port, IoLevel::Low), Err(IoError::IllegalOutput));
        assert_eq!(dio.max7301_read_single_port(port), Err(IoError::IllegalOutput));
        assert_eq!(dio.max7301_configure_output(port, IoLevel::HiZ), Err(IoError::IllegalOutput));
        assert_eq!(dio.max7301_configure_input(port, true), Err(IoError::IllegalOutput));
        assert_eq!(dio.max7301_write_port_config_bits(port, 1), Err(IoError::IllegalOutput));
        assert!(board.borrow().ops.is_empty());
    }
}

#[test]
fn write_port_low_is_unsupported_without_any_request() {
    let (mut dio, board) = rig();
    assert_eq!(dio.max7301_write_single_port(4, IoLevel::Low), Err(IoError::UnsupportedLevel));
    assert_eq!(dio.max7301_configure_output(4, IoLevel::Low), Err(IoError::UnsupportedLevel));
    assert!(board.borrow().ops.is_empty());
}

#[test]
fn config_bits_are_read_changed_and_written_back() {
    let (mut dio, board) = rig();
    board.borrow_mut().select = 13;
    board.borrow_mut().registers[0][0x0D] = 0b1110_0100;
    assert_eq!(dio.max7301_write_port_config_bits(22, 0b01), Ok(()));
    assert_eq!(board.borrow().exchanges(), vec![[0x8D, 0], [0, 0], [0x0D, 0b1101_0100]]);
    assert_eq!(board.borrow().registers[0][0x0D], 0b1101_0100);
}

#[test]
fn config_bits_of_the_neighbours_stay() {
    for port in 4u8..=31 {
        for bits in 0u8..=3 {
            for before in [0x00u8, 0xFF, 0xAA, 0x1B, 0xE4] {
                let (mut dio, board) = rig();
                board.borrow_mut().select = 10;
                let register = 0x08 + port as usize / 4;
                board.borrow_mut().registers[3][register] = before;
                assert_eq!(dio.max7301_write_port_config_bits(port, bits), Ok(()));
                let after = board.borrow().registers[3][register];
                for slot in 0..4u8 {
                    let was = (before >> (slot * 2)) & 3;
                    let is = (after >> (slot * 2)) & 3;
                    if slot == port % 4 {
                        assert_eq!(is, bits);
                    } else {
                        assert_eq!(is, was);
                    }
                }
            }
        }
    }
}

#[test]
fn config_bits_above_two_bits_are_cut() {
    let (mut dio, board) = rig();
    board.borrow_mut().select = 13;
    board.borrow_mut().registers[0][0x09] = 0x00;
    assert_eq!(dio.max7301_write_port_config_bits(4, 0xFE), Ok(()));
    assert_eq!(board.borrow().registers[0][0x09], 0b10);
}

#[test]
fn configure_output_writes_the_level_and_then_the_mode() {
    let (mut dio, board) = rig();
    board.borrow_mut().select = 13;
    assert_eq!(dio.max7301_configure_output(5, IoLevel::High), Ok(()));
    assert_eq!(
        board.borrow().exchanges(),
        vec![[0x25, 1], [0x89, 0], [0, 0], [0x09, 0b1010_0110]]
    );
}

#[test]
fn configure_input_sets_the_mode_with_or_without_pullup() {
    let (mut dio, board) = rig();
    board.borrow_mut().select = 13;
    assert_eq!(dio.max7301_configure_input(12, true), Ok(()));
    assert_eq!(board.borrow().registers[0][0x0B], 0b1010_1011);
    assert_eq!(dio.max7301_configure_input(13, false), Ok(()));
    assert_eq!(board.borrow().registers[0][0x0B], 0b1010_1011);
    board.borrow_mut().registers[0][0x0B] = 0xFF;
    assert_eq!(dio.max7301_configure_input(13, false), Ok(()));
    assert_eq!(board.borrow().registers[0][0x0B], 0b1111_1011);
}

#[test]
fn wakeup_writes_the_configuration_register() {
    let (mut dio, board) = rig();
    board.borrow_mut().select = 13;
    assert_eq!(dio.max7301_wakeup(false), Ok(()));
    assert_eq!(board.borrow().ops, frame_ops(SpiMode::Mode0, [0x04, 0x01]));
    assert_eq!(dio.max7301_wakeup(true), Ok(()));
    assert_eq!(board.borrow().exchanges(), vec![[0x04, 0x01], [0x04, 0x81]]);
}

#[test]
fn output_temperature_hot_takes_precedence_over_warm() {
    let (mut dio, board) = rig();
    board.borrow_mut().registers[2][0x20 + 22] = 0;
    board.borrow_mut().registers[2][0x20 + 23] = 0;
    assert_eq!(dio.get_do_temp(IoBank::Bank3), Ok(IoTemp::Hot));
    assert_eq!(board.borrow().exchanges(), vec![[0xA0 + 22, 0], [0, 0]]);
    assert_eq!(&board.borrow().ops[..5], &select_ops(11)[..]);
    board.borrow_mut().registers[2][0x20 + 22] = 1;
    assert_eq!(dio.get_do_temp(IoBank::Bank3), Ok(IoTemp::Warm));
    board.borrow_mut().registers[2][0x20 + 23] = 1;
    assert_eq!(dio.get_do_temp(IoBank::Bank3), Ok(IoTemp::Normal));
    assert_eq!(
        board.borrow().exchanges()[6..],
        [[0xA0 + 22, 0], [0, 0], [0xA0 + 23, 0], [0, 0]]
    );
}

#[test]
fn output_supply_is_24_volts_12_volts_or_none() {
    let (mut dio, board) = rig();
    board.borrow_mut().registers[0][0x20 + 20] = 1;
    board.borrow_mut().registers[0][0x20 + 21] = 1;
    assert_eq!(dio.get_do_supply(IoBank::Bank1), Ok(IoSupply::Volts24));
    assert_eq!(board.borrow().exchanges(), vec![[0xA0 + 20, 0], [0, 0]]);
    board.borrow_mut().registers[0][0x20 + 20] = 0;
    assert_eq!(dio.get_do_supply(IoBank::Bank1), Ok(IoSupply::Volts12));
    board.borrow_mut().registers[0][0x20 + 21] = 0;
    assert_eq!(dio.get_do_supply(IoBank::Bank1), Ok(IoSupply::Unpowered));
}

#[test]
fn output_state_37_reads_register_16_of_a_powered_bank_5() {
    let (mut dio, board) = rig();
    board.borrow_mut().registers[4][0x20 + 20] = 1;
    board.borrow_mut().registers[4][0x20 + 16] = 1;
    assert_eq!(dio.get_do_state_by_num(37), Ok(IoState::Normal));
    let mut expected = select_ops(9);
    expected.extend(frame_ops(SpiMode::Mode0, [0xA0 + 20, 0]));
    expected.extend(frame_ops(SpiMode::Mode0, [0, 0]));
    expected.extend(select_ops(9));
    expected.extend(frame_ops(SpiMode::Mode0, [0xA0 + 16, 0]));
    expected.extend(frame_ops(SpiMode::Mode0, [0, 0]));
    assert_eq!(board.borrow().ops, expected);
    board.borrow_mut().registers[4][0x20 + 16] = 0;
    assert_eq!(dio.get_do_state_by_num(37), Ok(IoState::OpenOrFault));
}

#[test]
fn output_state_of_a_bank_on_12_volts_reads_both_sense_lines_first() {
    let (mut dio, board) = rig();
    board.borrow_mut().registers[0][0x20 + 21] = 1;
    board.borrow_mut().registers[0][0x20 + 12] = 1;
    assert_eq!(dio.get_do_state_by_bank(IoBank::Bank1, 1), Ok(IoState::Normal));
    assert_eq!(
        board.borrow().exchanges(),
        vec![[0xA0 + 20, 0], [0, 0], [0xA0 + 21, 0], [0, 0], [0xA0 + 12, 0], [0, 0]]
    );
}

#[test]
fn output_state_of_an_unpowered_bank_is_refused() {
    let (mut dio, board) = rig();
    board.borrow_mut().registers[4][0x20 + 16] = 1;
    assert_eq!(dio.get_do_state_by_num(37), Err(IoError::IllegalOutput));
    assert_eq!(
        board.borrow().exchanges(),
        vec![[0xA0 + 20, 0], [0, 0], [0xA0 + 21, 0], [0, 0]]
    );
}

#[test]
fn output_state_of_a_place_above_8_is_refused_after_the_second_selection() {
    let (mut dio, board) = rig();
    board.borrow_mut().registers[4][0x20 + 20] = 1;
    assert_eq!(dio.get_do_state_by_bank(IoBank::Bank5, 9), Err(IoError::IllegalOutput));
    assert_eq!(board.borrow().ops.len(), 5 + 14 + 5);
}

#[test]
fn init_configures_every_bank() {
    let (mut dio, board) = rig();
    assert_eq!(dio.init(), Ok(()));
    let board = board.borrow();
    assert_eq!(board.ops.len(), 6 * 488);
    for bank in 0..6usize {
        let registers = &board.registers[bank];
        assert_eq!(registers[0x09], 0b0101_0101);
        assert_eq!(registers[0x0A], 0b0101_0101);
        assert_eq!(registers[0x0B], 0b1111_1111);
        assert_eq!(registers[0x0C], 0b1111_1111);
        assert_eq!(registers[0x0D], 0b1111_1010);
        assert_eq!(registers[0x0E], 0xAA);
        assert_eq!(registers[0x0F], 0xAA);
        assert_eq!(registers[0x04], 0x01);
        for port in 4..=11 {
            assert_eq!(registers[0x20 + port], 0);
        }
        assert_eq!(&board.ops[bank * 488..bank * 488 + 5], &select_ops(13 - bank as u8)[..]);
    }
    let first: Vec<[u8; 2]> = board.exchanges().into_iter().take(7).collect();
    assert_eq!(
        first,
        vec![
            [0x24, 0],
            [0x89, 0],
            [0, 0],
            [0x09, 0b1010_1001],
            [0x8B, 0],
            [0, 0],
            [0x0B, 0b1010_1011]
        ]
    );
    assert_eq!(board.exchanges().len(), 6 * (8 * 7 + 4 * 3 + 1));
    assert_eq!(board.exchanges()[68], [0x04, 0x01]);
}

#[test]
fn init_stops_at_the_first_error() {
    let (mut dio, board) = rig();
    board.borrow_mut().fail_exchange = Some(100);
    assert_eq!(dio.init(), Err(IoError::Spi(99)));
    assert_eq!(board.borrow().exchanges().len(), 101);
    assert!(matches!(board.borrow().ops.last(), Some(Op::Exchange(_))));
    assert_eq!(board.borrow().registers[0][0x04], 0x01);
    assert_eq!(board.borrow().registers[2][0x04], 0x00);
}

#[test]
fn a_failing_select_line_ends_the_operation() {
    for failing in 0..4usize {
        let (mut dio, board) = rig();
        board.borrow_mut().fail_drive = Some(failing);
        assert_eq!(dio.set_do_by_num(1, IoLevel::High), Err(IoError::Hal(7)));
        assert_eq!(board.borrow().ops, select_ops(13)[..failing + 1].to_vec());
    }
}

#[test]
fn a_failing_chip_select_ends_the_operation() {
    let (mut dio, board) = rig();
    board.borrow_mut().fail_drive = Some(4);
    assert_eq!(dio.get_do_supply(IoBank::Bank1), Err(IoError::Hal(7)));
    let mut expected = select_ops(13);
    expected.extend(frame_ops(SpiMode::Mode0, [0xA0 + 20, 0])[..2].to_vec());
    assert_eq!(board.borrow().ops, expected);
    let (mut dio, board) = rig();
    board.borrow_mut().fail_drive = Some(5);
    assert_eq!(dio.get_do_temp(IoBank::Bank1), Err(IoError::Hal(7)));
    let mut expected = select_ops(13);
    expected.extend(frame_ops(SpiMode::Mode0, [0xA0 + 22, 0])[..6].to_vec());
    assert_eq!(board.borrow().ops, expected);
}

#[test]
fn a_failing_exchange_ends_the_operation_and_leaves_chip_select_low() {
    let (mut dio, board) = rig();
    board.borrow_mut().fail_exchange = Some(0);
    assert_eq!(dio.set_do_by_num(1, IoLevel::High), Err(IoError::Spi(99)));
    let mut expected = select_ops(13);
    expected.extend(frame_ops(SpiMode::Mode0, [0x24, 1])[..4].to_vec());
    assert_eq!(board.borrow().ops, expected);
    assert!(board.borrow().ncs_low);
}

#[test]
fn a_failing_load_line_ends_the_reading() {
    let (mut dio, board) = rig();
    board.borrow_mut().fail_drive = Some(4);
    assert_eq!(dio.get_di_by_num(1), Err(IoError::Hal(7)));
    assert_eq!(board.borrow().ops.len(), 6);
    let (mut dio, board) = rig();
    board.borrow_mut().fail_drive = Some(5);
    assert_eq!(dio.get_di_temp(IoBank::Bank1), Err(IoError::Hal(7)));
    assert_eq!(board.borrow().ops.len(), 8);
    let (mut dio, board) = rig();
    board.borrow_mut().fail_exchange = Some(0);
    assert_eq!(dio.get_di_supply(IoBank::Bank1), Err(IoError::Spi(99)));
    assert_eq!(board.borrow().ops.len(), 5 + 3 + 4);
}

#[test]
fn a_failing_exchange_in_the_middle_of_a_config_write_changes_nothing() {
    let (mut dio, board) = rig();
    board.borrow_mut().select = 13;
    board.borrow_mut().fail_exchange = Some(1);
    assert_eq!(dio.max7301_write_port_config_bits(4, 1), Err(IoError::Spi(99)));
    assert_eq!(board.borrow().exchanges(), vec![[0x89, 0], [0, 0]]);
    assert_eq!(board.borrow().registers[0][0x09], 0xAA);
}
