//! The driver against capabilities that write down what they are asked.

use embedded_hal::blocking::delay::DelayMs;
use serlcd::wire::Action;
use serlcd::{ByteChannel, Error, SelectLine, SerLCD};
use std::cell::{Cell, RefCell};
use std::rc::Rc;

type Tape = Rc<RefCell<Vec<Action>>>;

/// A bus that fails, with the given code, from the write with the given
/// number on (the first write is number 0).
struct Bus {
    tape: Tape,
    writes: usize,
    fail_from: Option<usize>,
    code: u16,
}

impl ByteChannel for Bus {
    type Error = u16;

    fn write(&mut self, words: &[u8]) -> Result<(), u16> {
        for w in words {
            self.tape.borrow_mut().push(Action::Transmit(*w));
        }
        let n = self.writes;
        self.writes += 1;
        match self.fail_from {
            Some(k) if n >= k => Err(self.code),
            _ => Ok(()),
        }
    }
}

/// A select line whose two levels can each be made to fail.
struct Line {
    tape: Tape,
    low_fails: Rc<Cell<bool>>,
    high_fails: Rc<Cell<bool>>,
    code: i8,
}

impl SelectLine for Line {
    type Error = i8;

    fn set_low(&mut self) -> Result<(), i8> {
        self.tape.borrow_mut().push(Action::SelectLow);
        if self.low_fails.get() {
            Err(self.code)
        } else {
            Ok(())
        }
    }

    fn set_high(&mut self) -> Result<(), i8> {
        self.tape.borrow_mut().push(Action::SelectHigh);
        if self.high_fails.get() {
            Err(self.code)
        } else {
            Ok(())
        }
    }
}

struct Clock {
    tape: Tape,
}

impl DelayMs<u8> for Clock {
    fn delay_ms(&mut self, ms: u8) {
        self.tape.borrow_mut().push(Action::Delay(ms));
    }
}

struct Bench {
    tape: Tape,
    low_fails: Rc<Cell<bool>>,
    high_fails: Rc<Cell<bool>>,
    lcd: SerLCD<Bus, Line, Clock>,
}

fn bench_with(fail_from: Option<usize>) -> Bench {
    let tape: Tape = Rc::new(RefCell::new(Vec::new()));
    let low_fails = Rc::new(Cell::new(false));
    let high_fails = Rc::new(Cell::new(false));
    let bus = Bus { tape: tape.clone(), writes: 0, fail_from, code: 0x5b1 };
    let line = Line {
        tape: tape.clone(),
        low_fails: low_fails.clone(),
        high_fails: high_fails.clone(),
        code: -3,
    };
    let clock = Clock { tape: tape.clone() };
    Bench { tape, low_fails, high_fails, lcd: SerLCD::new(bus, line, clock) }
}

fn bench() -> Bench {
    bench_with(None)
}

fn taken(b: &Bench) -> Vec<Action> {
    let out = b.tape.borrow().clone();
    b.tape.borrow_mut().clear();
    out
}

fn special(payload: u8) -> Vec<Action> {
    vec![
        Action::SelectLow,
        Action::Delay(10),
        Action::Transmit(0xFE),
        Action::Transmit(payload),
        Action::SelectHigh,
        Action::Delay(10),
        Action::Delay(50),
    ]
}

fn setting(payload: u8) -> Vec<Action> {
    vec![
        Action::SelectLow,
        Action::Delay(10),
        Action::Transmit(0x7C),
        Action::Transmit(payload),
        Action::SelectHigh,
        Action::Delay(10),
        Action::Delay(10),
    ]
}

fn bytes_of(tape: &[Action]) -> Vec<u8> {
    let mut out = Vec::new();
    for a in tape {
        if let Action::Transmit(b) = a {
            out.push(*b);
        }
    }
    out
}

fn count_of(tape: &[Action], what: Action) -> usize {
    tape.iter().filter(|a| **a == what).count()
}

#[test]
fn new_sends_nothing() {
    let b = bench();
    assert!(taken(&b).is_empty());
}

#[test]
fn setup_sends_its_three_commands_in_one_transaction() {
    let mut b = bench();
    assert!(b.lcd.setup().is_ok());
    assert_eq!(
        taken(&b),
        vec![
            Action::SelectLow,
            Action::Delay(10),
            Action::Transmit(0xFE),
            Action::Transmit(0x08),
            Action::Transmit(0xFE),
            Action::Transmit(0x04),
            Action::Transmit(0x7C),
            Action::Transmit(0x2D),
            Action::SelectHigh,
            Action::Delay(10),
            Action::Delay(50),
        ]
    );
}

#[test]
fn setup_does_not_send_the_mirrored_flags() {
    let mut b = bench();
    assert!(b.lcd.cursor().is_ok());
    taken(&b);
    assert!(b.lcd.setup().is_ok());
    assert_eq!(bytes_of(&taken(&b)), vec![0xFE, 0x08, 0xFE, 0x04, 0x7C, 0x2D]);
}

#[test]
fn command_frames_with_the_setting_marker() {
    let mut b = bench();
    assert!(b.lcd.command(0x2E).is_ok());
    assert_eq!(taken(&b), setting(0x2E));
}

#[test]
fn special_command_frames_with_the_special_marker() {
    let mut b = bench();
    assert!(b.lcd.special_command(0x10).is_ok());
    assert_eq!(taken(&b), special(0x10));
}

#[test]
fn special_command_count_three_is_one_transaction_of_six_bytes() {
    let mut b = bench();
    assert!(b.lcd.special_command_count(0x08, 3).is_ok());
    let tape = taken(&b);
    assert_eq!(
        tape,
        vec![
            Action::SelectLow,
            Action::Delay(10),
            Action::Transmit(0xFE),
            Action::Transmit(0x08),
            Action::Transmit(0xFE),
            Action::Transmit(0x08),
            Action::Transmit(0xFE),
            Action::Transmit(0x08),
            Action::SelectHigh,
            Action::Delay(10),
            Action::Delay(50),
        ]
    );
    assert_eq!(count_of(&tape, Action::SelectLow), 1);
    assert_eq!(count_of(&tape, Action::SelectHigh), 1);
}

#[test]
fn special_command_count_zero_is_an_empty_transaction() {
    let mut b = bench();
    assert!(b.lcd.special_command_count(0x18, 0).is_ok());
    assert_eq!(
        taken(&b),
        vec![
            Action::SelectLow,
            Action::Delay(10),
            Action::SelectHigh,
            Action::Delay(10),
            Action::Delay(50),
        ]
    );
}

#[test]
fn special_command_count_at_its_largest() {
    let mut b = bench();
    assert!(b.lcd.special_command_count(0x1C, 255).is_ok());
    let tape = taken(&b);
    assert_eq!(tape.len(), 2 * 255 + 5);
    let bytes = bytes_of(&tape);
    assert_eq!(bytes.len(), 510);
    for (i, byte) in bytes.iter().enumerate() {
        assert_eq!(*byte, if i % 2 == 0 { 0xFE } else { 0x1C });
    }
    assert_eq!(tape[0], Action::SelectLow);
    assert_eq!(tape[512], Action::SelectHigh);
    assert_eq!(count_of(&tape, Action::SelectLow), 1);
    assert_eq!(count_of(&tape, Action::SelectHigh), 1);
}

#[test]
fn clear_is_one_setting_frame_and_waits_longer() {
    let mut b = bench();
    assert!(b.lcd.clear().is_ok());
    let tape = taken(&b);
    let mut expected = setting(0x2D);
    expected.push(Action::Delay(10));
    assert_eq!(tape, expected);
    assert_eq!(count_of(&tape, Action::SelectLow), 1);
    assert_eq!(bytes_of(&tape), vec![0x7C, 0x2D]);
    let mut after_release: u32 = 0;
    let mut total: u32 = 0;
    let mut released = false;
    for a in &tape {
        match a {
            Action::SelectHigh => released = true,
            Action::Delay(ms) => {
                total += u32::from(*ms);
                if released {
                    after_release += u32::from(*ms);
                }
            }
            _ => {}
        }
    }
    assert_eq!(total, 40);
    assert_eq!(after_release, 30);
    assert!(after_release >= 20);
}

#[test]
fn home_is_the_return_home_command() {
    let mut b = bench();
    assert!(b.lcd.home().is_ok());
    assert_eq!(taken(&b), special(0x02));
}

#[test]
fn set_cursor_on_every_place_of_the_display() {
    let offsets: [u8; 4] = [0x00, 0x40, 0x14, 0x54];
    let mut b = bench();
    for row in 0u8..4 {
        for col in 0u8..20 {
            assert!(b.lcd.set_cursor(col, row).is_ok());
            assert_eq!(taken(&b), special(0x80 | (col + offsets[usize::from(row)])));
        }
    }
}

#[test]
fn set_cursor_exact_payloads() {
    let mut b = bench();
    assert!(b.lcd.set_cursor(0, 0).is_ok());
    assert_eq!(bytes_of(&taken(&b)), vec![0xFE, 0x80]);
    assert!(b.lcd.set_cursor(5, 1).is_ok());
    assert_eq!(bytes_of(&taken(&b)), vec![0xFE, 0xC5]);
    assert!(b.lcd.set_cursor(19, 2).is_ok());
    assert_eq!(bytes_of(&taken(&b)), vec![0xFE, 0xA7]);
    assert!(b.lcd.set_cursor(19, 3).is_ok());
    assert_eq!(bytes_of(&taken(&b)), vec![0xFE, 0xE7]);
}

#[test]
fn set_cursor_takes_a_row_past_the_last_for_the_last() {
    let mut b = bench();
    for row in [4u8, 5, 17, 128, 255] {
        for col in [0u8, 7, 19] {
            assert!(b.lcd.set_cursor(col, row).is_ok());
            assert_eq!(taken(&b), special(0x80 | (col + 0x54)));
        }
    }
}

#[test]
fn set_cursor_takes_any_column() {
    let mut b = bench();
    assert!(b.lcd.set_cursor(25, 0).is_ok());
    assert_eq!(taken(&b), special(0x80 | 25));
    assert!(b.lcd.set_cursor(20, 2).is_ok());
    assert_eq!(taken(&b), special(0x80 | 0x28));
    assert!(b.lcd.set_cursor(200, 1).is_ok());
    assert_eq!(taken(&b), special(0x80 | 8));
    assert!(b.lcd.set_cursor(250, 3).is_ok());
    assert_eq!(taken(&b), special(0xCE));
    assert!(b.lcd.set_cursor(255, 0).is_ok());
    assert_eq!(taken(&b), special(0xFF));
}

#[test]
fn write_sends_the_bytes_unframed() {
    let mut b = bench();
    assert!(b.lcd.write(&[0x41, 0x7C, 0xFE, 0x00]).is_ok());
    assert_eq!(
        taken(&b),
        vec![
            Action::SelectLow,
            Action::Delay(10),
            Action::Transmit(0x41),
            Action::Transmit(0x7C),
            Action::Transmit(0xFE),
            Action::Transmit(0x00),
            Action::SelectHigh,
            Action::Delay(10),
            Action::Delay(10),
        ]
    );
}

#[test]
fn write_of_nothing_is_an_empty_transaction() {
    let mut b = bench();
    assert!(b.lcd.write(&[]).is_ok());
    assert_eq!(
        taken(&b),
        vec![
            Action::SelectLow,
            Action::Delay(10),
            Action::SelectHigh,
            Action::Delay(10),
            Action::Delay(10),
        ]
    );
}

#[test]
fn write_str_of_the_empty_text_sends_nothing() {
    let mut b = bench();
    assert!(b.lcd.write_str("").is_ok());
    assert!(taken(&b).is_empty());
}

#[test]
fn write_str_of_the_empty_text_does_not_touch_a_failing_line() {
    let mut b = bench_with(Some(0));
    b.low_fails.set(true);
    b.high_fails.set(true);
    assert!(b.lcd.write_str("").is_ok());
    assert!(taken(&b).is_empty());
}

#[test]
fn write_str_hi_is_two_raw_bytes_in_one_transaction() {
    let mut b = bench();
    assert!(b.lcd.write_str("Hi").is_ok());
    let tape = taken(&b);
    assert_eq!(
        tape,
        vec![
            Action::SelectLow,
            Action::Delay(10),
            Action::Transmit(0x48),
            Action::Transmit(0x69),
            Action::SelectHigh,
            Action::Delay(10),
            Action::Delay(10),
        ]
    );
    assert_eq!(count_of(&tape, Action::SelectLow), 1);
    assert_eq!(count_of(&tape, Action::Transmit(0x7C)), 0);
    assert_eq!(count_of(&tape, Action::Transmit(0xFE)), 0);
}

#[test]
fn write_str_sends_the_encoding_of_the_text() {
    let mut b = bench();
    assert!(b.lcd.write_str("\u{e9}\u{20ac}").is_ok());
    assert_eq!(bytes_of(&taken(&b)), vec![0xC3, 0xA9, 0xE2, 0x82, 0xAC]);
}

#[test]
fn display_flags_start_as_display_on_only() {
    let mut b = bench();
    assert!(b.lcd.display().is_ok());
    assert_eq!(taken(&b), special(0x0C));
}

#[test]
fn each_flag_operation_sends_the_combined_flags() {
    let mut b = bench();
    assert!(b.lcd.cursor().is_ok());
    assert_eq!(taken(&b), special(0x0E));
    assert!(b.lcd.no_display().is_ok());
    assert_eq!(taken(&b), special(0x0A));
    assert!(b.lcd.no_cursor().is_ok());
    assert_eq!(taken(&b), special(0x08));
    assert!(b.lcd.display().is_ok());
    assert_eq!(taken(&b), special(0x0C));
    assert!(b.lcd.no_cursor().is_ok());
    assert_eq!(taken(&b), special(0x0C));
}

#[test]
fn display_then_no_display_changes_the_display_bit_alone() {
    for with_cursor in [false, true] {
        let mut b = bench();
        if with_cursor {
            assert!(b.lcd.cursor().is_ok());
            taken(&b);
        }
        let rest: u8 = if with_cursor { 0x02 } else { 0x00 };
        assert!(b.lcd.display().is_ok());
        let on = bytes_of(&taken(&b))[1];
        assert!(b.lcd.no_display().is_ok());
        let off = bytes_of(&taken(&b))[1];
        assert_eq!(on, 0x08 | 0x04 | rest);
        assert_eq!(off, 0x08 | rest);
        assert_eq!(on ^ off, 0x04);
        assert_eq!(on & !0x04, off & !0x04);
    }
}

#[test]
fn a_flag_operation_is_not_a_toggle() {
    let mut b = bench();
    assert!(b.lcd.no_display().is_ok());
    assert_eq!(taken(&b), special(0x08));
    assert!(b.lcd.no_display().is_ok());
    assert_eq!(taken(&b), special(0x08));
    assert!(b.lcd.cursor().is_ok());
    assert_eq!(taken(&b), special(0x0A));
    assert!(b.lcd.cursor().is_ok());
    assert_eq!(taken(&b), special(0x0A));
}

#[test]
fn a_failing_select_line_sends_no_byte() {
    let mut b = bench();
    b.low_fails.set(true);
    assert!(matches!(b.lcd.command(0x2D), Err(Error::Pin(-3))));
    assert_eq!(taken(&b), vec![Action::SelectLow]);
    assert!(matches!(b.lcd.special_command(0x02), Err(Error::Pin(-3))));
    assert_eq!(taken(&b), vec![Action::SelectLow]);
    assert!(matches!(b.lcd.special_command_count(0x08, 3), Err(Error::Pin(-3))));
    assert_eq!(taken(&b), vec![Action::SelectLow]);
    assert!(matches!(b.lcd.setup(), Err(Error::Pin(-3))));
    assert_eq!(taken(&b), vec![Action::SelectLow]);
    assert!(matches!(b.lcd.clear(), Err(Error::Pin(-3))));
    assert_eq!(taken(&b), vec![Action::SelectLow]);
    assert!(matches!(b.lcd.home(), Err(Error::Pin(-3))));
    assert_eq!(taken(&b), vec![Action::SelectLow]);
    assert!(matches!(b.lcd.set_cursor(1, 1), Err(Error::Pin(-3))));
    assert_eq!(taken(&b), vec![Action::SelectLow]);
    assert!(matches!(b.lcd.write(&[1, 2, 3]), Err(Error::Pin(-3))));
    assert_eq!(taken(&b), vec![Action::SelectLow]);
    assert!(matches!(b.lcd.write_str("Hi"), Err(Error::Pin(-3))));
    assert_eq!(taken(&b), vec![Action::SelectLow]);
    assert!(matches!(b.lcd.display(), Err(Error::Pin(-3))));
    assert_eq!(taken(&b), vec![Action::SelectLow]);
    assert!(matches!(b.lcd.no_display(), Err(Error::Pin(-3))));
    assert_eq!(taken(&b), vec![Action::SelectLow]);
    assert!(matches!(b.lcd.cursor(), Err(Error::Pin(-3))));
    assert_eq!(taken(&b), vec![Action::SelectLow]);
    assert!(matches!(b.lcd.no_cursor(), Err(Error::Pin(-3))));
    assert_eq!(taken(&b), vec![Action::SelectLow]);
}

#[test]
fn a_failing_select_line_wins_over_a_failing_bus() {
    let mut b = bench_with(Some(0));
    b.low_fails.set(true);
    assert!(matches!(b.lcd.write_str("Hi"), Err(Error::Pin(-3))));
    assert_eq!(taken(&b), vec![Action::SelectLow]);
}

#[test]
fn a_failing_release_ends_the_operation_without_the_waits() {
    let mut b = bench();
    b.high_fails.set(true);
    assert!(matches!(b.lcd.special_command(0x02), Err(Error::Pin(-3))));
    assert_eq!(
        taken(&b),
        vec![
            Action::SelectLow,
            Action::Delay(10),
            Action::Transmit(0xFE),
            Action::Transmit(0x02),
            Action::SelectHigh,
        ]
    );
    assert!(matches!(b.lcd.clear(), Err(Error::Pin(-3))));
    assert_eq!(
        taken(&b),
        vec![
            Action::SelectLow,
            Action::Delay(10),
            Action::Transmit(0x7C),
            Action::Transmit(0x2D),
            Action::SelectHigh,
        ]
    );
}

#[test]
fn a_failing_bus_leaves_the_line_selected() {
    let mut b = bench_with(Some(0));
    assert!(matches!(b.lcd.command(0x2D), Err(Error::Spi(0x5b1))));
    assert_eq!(
        taken(&b),
        vec![Action::SelectLow, Action::Delay(10), Action::Transmit(0x7C)]
    );
}

#[test]
fn a_bus_that_fails_later_stops_the_operation_there() {
    let mut b = bench_with(Some(1));
    assert!(matches!(b.lcd.special_command(0x02), Err(Error::Spi(0x5b1))));
    assert_eq!(
        taken(&b),
        vec![
            Action::SelectLow,
            Action::Delay(10),
            Action::Transmit(0xFE),
            Action::Transmit(0x02),
        ]
    );

    let mut b = bench_with(Some(4));
    assert!(matches!(b.lcd.setup(), Err(Error::Spi(0x5b1))));
    assert_eq!(bytes_of(&taken(&b)), vec![0xFE, 0x08, 0xFE, 0x04, 0x7C]);

    let mut b = bench_with(Some(3));
    assert!(matches!(b.lcd.special_command_count(0x08, 3), Err(Error::Spi(0x5b1))));
    let tape = taken(&b);
    assert_eq!(bytes_of(&tape), vec![0xFE, 0x08, 0xFE, 0x08]);
    assert_eq!(count_of(&tape, Action::SelectHigh), 0);

    let mut b = bench_with(Some(2));
    assert!(matches!(b.lcd.write(&[9, 8, 7, 6]), Err(Error::Spi(0x5b1))));
    let tape = taken(&b);
    assert_eq!(bytes_of(&tape), vec![9, 8, 7]);
    assert_eq!(count_of(&tape, Action::SelectHigh), 0);
    assert_eq!(tape.len(), 5);
}

#[test]
fn a_flag_changes_even_where_its_command_fails() {
    let mut b = bench();
    b.low_fails.set(true);
    assert!(matches!(b.lcd.no_display(), Err(Error::Pin(-3))));
    assert!(matches!(b.lcd.cursor(), Err(Error::Pin(-3))));
    taken(&b);
    b.low_fails.set(false);
    assert!(b.lcd.no_cursor().is_ok());
    assert_eq!(taken(&b), special(0x08));
    assert!(b.lcd.cursor().is_ok());
    assert_eq!(taken(&b), special(0x0A));
}

#[test]
fn an_operation_after_a_failure_starts_afresh() {
    let mut b = bench();
    b.high_fails.set(true);
    assert!(matches!(b.lcd.home(), Err(Error::Pin(-3))));
    taken(&b);
    b.high_fails.set(false);
    assert!(b.lcd.home().is_ok());
    assert_eq!(taken(&b), special(0x02));
}

#[test]
fn error_shows_its_kind_and_cause() {
    let pin: Error<u16, i8> = Error::Pin(-3);
    let spi: Error<u16, i8> = Error::Spi(7);
    assert_eq!(format!("{:?}", pin), "Pin(-3)");
    assert_eq!(format!("{:?}", spi), "Spi(7)");
}
