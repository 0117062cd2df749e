//! The bytes of the display's command protocol, and the order in which an
//! operation puts them on the wire.
//!
//! A command is two bytes: a marker that names its family, then the payload.
//! Text is sent as it is, with no marker. Whatever is sent goes out inside a
//! transaction: the select line is driven low, the bytes follow, the select
//! line is driven high, and after each change of the line the driver waits.
//! The functions in the second half of this file write each operation down as
//! the sequence of [`Action`]s that it asks of its three capabilities.

use vstd::prelude::*;

verus! {

/// Bus address of the display.
pub const DISPLAY_ADDRESS: u8 = 0x72;

/// Rows of the display.
pub const MAX_ROWS: u8 = 4;

/// Columns of the display.
pub const MAX_COLUMNS: u8 = 20;

/// Marker of a special command.
pub const SPECIAL_COMMAND: u8 = 254;

/// Marker of a setting command.
pub const SETTING_COMMAND: u8 = 0x7c;

/// Setting command: clear the display.
pub const CLEAR_COMMAND: u8 = 0x2d;

/// Special command: move the cursor to the first column of the first row.
pub const LCD_RETURNHOME: u8 = 0x02;

/// Special command: set the entry mode; the low bits hold the entry flags.
pub const LCD_ENTRYMODESET: u8 = 0x04;

/// Special command: set the display control; the low bits hold the display flags.
pub const LCD_DISPLAYCONTROL: u8 = 0x08;

/// Special command: set the address in display memory; the low bits hold the address.
pub const LCD_SETDDRAMADDR: u8 = 0x80;

/// Entry flag: text runs from left to right.
pub const LCD_ENTRYLEFT: u8 = 0x02;

/// Entry flag: the display does not shift with the text.
pub const LCD_ENTRYSHIFTDECREMENT: u8 = 0x00;

/// Display flag: the display is on.
pub const LCD_DISPLAYON: u8 = 0x04;

/// Display flag: the cursor is shown.
pub const LCD_CURSORON: u8 = 0x02;

/// Display flag: the cursor does not show.
pub const LCD_CURSOROFF: u8 = 0x00;

/// Display flag: the cursor blinks.
pub const LCD_BLINKON: u8 = 0x01;

/// Display flag: the cursor does not blink.
pub const LCD_BLINKOFF: u8 = 0x00;

/// Milliseconds to wait after each change of the select line, after a
/// setting command and after text.
pub const SHORT_DELAY_MS: u8 = 10;

/// Milliseconds to wait after a special command and after the start-up sequence.
pub const LONG_DELAY_MS: u8 = 50;

/// One thing that the driver asks of a capability.
#[derive(Clone, Copy, Debug, PartialEq, Eq, Structural)]
pub enum Action {
    /// Drive the select line low: the display is selected.
    SelectLow,
    /// Drive the select line high: the display is released.
    SelectHigh,
    /// Send one byte over the bus.
    Transmit(u8),
    /// Wait this many milliseconds.
    Delay(u8),
}

/// The two bytes of a setting command.
pub open spec fn setting_frame(payload: u8) -> Seq<u8> {
    seq![SETTING_COMMAND, payload]
}

/// The two bytes of a special command.
pub open spec fn special_frame(payload: u8) -> Seq<u8> {
    seq![SPECIAL_COMMAND, payload]
}

/// `count` special commands with the same payload, one after the other.
pub open spec fn special_burst(payload: u8, count: nat) -> Seq<u8>
    decreases count,
{
    if count == 0 {
        Seq::empty()
    } else {
        special_burst(payload, (count - 1) as nat) + special_frame(payload)
    }
}

/// The byte at place `i` of a burst: the marker at the even places, the
/// payload at the odd ones.
pub open spec fn burst_byte(payload: u8, i: int) -> u8 {
    if i % 2 == 0 {
        SPECIAL_COMMAND
    } else {
        payload
    }
}

/// One `Transmit` for each byte, in order.
pub open spec fn transmissions(bytes: Seq<u8>) -> Seq<Action> {
    Seq::new(bytes.len(), |i: int| Action::Transmit(bytes[i]))
}

/// What opens a transaction: select, then wait.
pub open spec fn opening() -> Seq<Action> {
    seq![Action::SelectLow, Action::Delay(SHORT_DELAY_MS)]
}

/// What closes a transaction: release, then wait.
pub open spec fn closing() -> Seq<Action> {
    seq![Action::SelectHigh, Action::Delay(SHORT_DELAY_MS)]
}

/// One transaction that carries `bytes`, and the wait of `settle`
/// milliseconds that follows it.
pub open spec fn transaction(bytes: Seq<u8>, settle: u8) -> Seq<Action> {
    (opening() + transmissions(bytes) + closing()).push(Action::Delay(settle))
}

/// A setting command.
pub open spec fn command_script(payload: u8) -> Seq<Action> {
    transaction(setting_frame(payload), SHORT_DELAY_MS)
}

/// A special command.
pub open spec fn special_script(payload: u8) -> Seq<Action> {
    transaction(special_frame(payload), LONG_DELAY_MS)
}

/// A burst of `count` equal special commands inside one transaction.
pub open spec fn burst_script(payload: u8, count: nat) -> Seq<Action> {
    transaction(special_burst(payload, count), LONG_DELAY_MS)
}

/// Text, sent as it is.
pub open spec fn write_script(bytes: Seq<u8>) -> Seq<Action> {
    transaction(bytes, SHORT_DELAY_MS)
}

/// Clearing the display: the setting command, and one more short wait.
pub open spec fn clear_script() -> Seq<Action> {
    command_script(CLEAR_COMMAND).push(Action::Delay(SHORT_DELAY_MS))
}

/// The bytes of the start-up sequence: display control and entry mode as
/// special commands, then the clear command as a setting command.
pub open spec fn setup_frames() -> Seq<u8> {
    special_frame(LCD_DISPLAYCONTROL) + special_frame(LCD_ENTRYMODESET) + setting_frame(
        CLEAR_COMMAND,
    )
}

/// The start-up sequence: its three commands inside one transaction.
pub open spec fn setup_script() -> Seq<Action> {
    transaction(setup_frames(), LONG_DELAY_MS)
}

/// The display flags with one flag switched on.
pub open spec fn flag_set(flags: u8, flag: u8) -> u8 {
    flags | flag
}

/// The display flags with one flag switched off.
pub open spec fn flag_cleared(flags: u8, flag: u8) -> u8 {
    flags & !flag
}

/// The payload that tells the display its flags.
pub open spec fn display_control_payload(flags: u8) -> u8 {
    LCD_DISPLAYCONTROL | flags
}

/// Where a row begins in display memory. Rows past the last count as the last.
pub open spec fn row_offset(row: u8) -> u8 {
    if row == 0 {
        0x00
    } else if row == 1 {
        0x40
    } else if row == 2 {
        0x14
    } else {
        0x54
    }
}

/// The payload that moves the cursor to a column of a row. The column is
/// taken as it is: one past the end of the row lands in the memory of
/// another row, and the sum wraps at 256.
pub open spec fn cursor_payload(col: u8, row: u8) -> u8 {
    LCD_SETDDRAMADDR | (((col + row_offset(row)) % 256) as u8)
}

/// Computes [`cursor_payload`].
pub fn cursor_command(col: u8, row: u8) -> (payload: u8)
    ensures
        payload == cursor_payload(col, row),
{
    let clamped: u8 = if row < MAX_ROWS {
        row
    } else {
        MAX_ROWS - 1
    };
    let offset: u8 = if clamped == 0 {
        0x00
    } else if clamped == 1 {
        0x40
    } else if clamped == 2 {
        0x14
    } else {
        0x54
    };
    LCD_SETDDRAMADDR | col.wrapping_add(offset)
}

/// Where each action of a transaction stands: the opening, one
/// transmission for each byte, the closing, and the wait that follows.
pub proof fn lemma_transaction_layout(bytes: Seq<u8>, settle: u8)
    ensures
        transaction(bytes, settle).len() == bytes.len() + 5,
        transaction(bytes, settle)[0] == Action::SelectLow,
        transaction(bytes, settle)[1] == Action::Delay(SHORT_DELAY_MS),
        forall|i: int|
            2 <= i < bytes.len() + 2 ==> #[trigger] transaction(bytes, settle)[i]
                == Action::Transmit(bytes[i - 2]),
        transaction(bytes, settle)[bytes.len() as int + 2] == Action::SelectHigh,
        transaction(bytes, settle)[bytes.len() as int + 3] == Action::Delay(SHORT_DELAY_MS),
        transaction(bytes, settle)[bytes.len() as int + 4] == Action::Delay(settle),
{
}

/// Where each byte of a burst stands.
pub proof fn lemma_burst_layout(payload: u8, count: nat)
    ensures
        special_burst(payload, count).len() == 2 * count,
        forall|i: int|
            0 <= i < 2 * count ==> #[trigger] special_burst(payload, count)[i] == burst_byte(
                payload,
                i,
            ),
    decreases count,
{
    if count > 0 {
        lemma_burst_layout(payload, (count - 1) as nat);
    }
}

/// A setting command is one transaction of two bytes, the marker and the
/// payload, and a short wait.
pub proof fn lemma_command_script(payload: u8)
    ensures
        command_script(payload) == seq![
            Action::SelectLow,
            Action::Delay(SHORT_DELAY_MS),
            Action::Transmit(SETTING_COMMAND),
            Action::Transmit(payload),
            Action::SelectHigh,
            Action::Delay(SHORT_DELAY_MS),
            Action::Delay(SHORT_DELAY_MS),
        ],
{
    assert(command_script(payload) =~= seq![
        Action::SelectLow,
        Action::Delay(SHORT_DELAY_MS),
        Action::Transmit(SETTING_COMMAND),
        Action::Transmit(payload),
        Action::SelectHigh,
        Action::Delay(SHORT_DELAY_MS),
        Action::Delay(SHORT_DELAY_MS),
    ]);
}

/// A special command is one transaction of two bytes, the marker and the
/// payload, and a long wait.
pub proof fn lemma_special_script(payload: u8)
    ensures
        special_script(payload) == seq![
            Action::SelectLow,
            Action::Delay(SHORT_DELAY_MS),
            Action::Transmit(SPECIAL_COMMAND),
            Action::Transmit(payload),
            Action::SelectHigh,
            Action::Delay(SHORT_DELAY_MS),
            Action::Delay(LONG_DELAY_MS),
        ],
{
    assert(special_script(payload) =~= seq![
        Action::SelectLow,
        Action::Delay(SHORT_DELAY_MS),
        Action::Transmit(SPECIAL_COMMAND),
        Action::Transmit(payload),
        Action::SelectHigh,
        Action::Delay(SHORT_DELAY_MS),
        Action::Delay(LONG_DELAY_MS),
    ]);
}

/// Clearing is one transaction that carries the setting marker and the clear
/// command, and after the wait of a setting command one more short wait.
pub proof fn lemma_clear_script()
    ensures
        clear_script() == seq![
            Action::SelectLow,
            Action::Delay(SHORT_DELAY_MS),
            Action::Transmit(SETTING_COMMAND),
            Action::Transmit(CLEAR_COMMAND),
            Action::SelectHigh,
            Action::Delay(SHORT_DELAY_MS),
            Action::Delay(SHORT_DELAY_MS),
            Action::Delay(SHORT_DELAY_MS),
        ],
{
    lemma_command_script(CLEAR_COMMAND);
}

/// The start-up sequence sends display control and entry mode as special
/// commands, then the clear command as a setting command, all before the
/// select line is released, and ends with the long wait.
pub proof fn lemma_setup_script()
    ensures
        setup_script() == seq![
            Action::SelectLow,
            Action::Delay(SHORT_DELAY_MS),
            Action::Transmit(SPECIAL_COMMAND),
            Action::Transmit(LCD_DISPLAYCONTROL),
            Action::Transmit(SPECIAL_COMMAND),
            Action::Transmit(LCD_ENTRYMODESET),
            Action::Transmit(SETTING_COMMAND),
            Action::Transmit(CLEAR_COMMAND),
            Action::SelectHigh,
            Action::Delay(SHORT_DELAY_MS),
            Action::Delay(LONG_DELAY_MS),
        ],
{
    assert(setup_script() =~= seq![
        Action::SelectLow,
        Action::Delay(SHORT_DELAY_MS),
        Action::Transmit(SPECIAL_COMMAND),
        Action::Transmit(LCD_DISPLAYCONTROL),
        Action::Transmit(SPECIAL_COMMAND),
        Action::Transmit(LCD_ENTRYMODESET),
        Action::Transmit(SETTING_COMMAND),
        Action::Transmit(CLEAR_COMMAND),
        Action::SelectHigh,
        Action::Delay(SHORT_DELAY_MS),
        Action::Delay(LONG_DELAY_MS),
    ]);
}

} // verus!
