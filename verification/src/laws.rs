//! What holds of every run and of every script, proved from the definitions
//! that the contracts of the driver use.

use crate::link::Error;
use crate::record::{attempted, Exchange};
use crate::wire::{
    burst_byte, burst_script, clear_script, cursor_payload, display_control_payload,
    flag_cleared, flag_set, lemma_burst_layout, lemma_clear_script, lemma_transaction_layout,
    row_offset, special_burst, transaction, write_script, Action, CLEAR_COMMAND, LCD_BLINKON,
    LCD_CURSORON, LCD_DISPLAYON, LCD_SETDDRAMADDR, LONG_DELAY_MS, MAX_COLUMNS, MAX_ROWS,
    SETTING_COMMAND, SHORT_DELAY_MS,
};
use vstd::prelude::*;

verus! {

/// The milliseconds that one action waits.
pub open spec fn delay_of(action: Action) -> nat {
    match action {
        Action::Delay(ms) => ms as nat,
        _ => 0,
    }
}

/// The milliseconds that a script waits, all its delays taken together.
pub open spec fn total_delay(script: Seq<Action>) -> nat
    decreases script.len(),
{
    if script.len() == 0 {
        0
    } else {
        total_delay(script.drop_last()) + delay_of(script.last())
    }
}

/// A delay at the end of a script adds its milliseconds; any other action
/// adds none.
pub proof fn lemma_total_delay_push(script: Seq<Action>, action: Action)
    ensures
        total_delay(script.push(action)) == total_delay(script) + delay_of(action),
{
    assert(script.push(action).drop_last() =~= script);
}

/// The waits of two scripts joined are the waits of both.
pub proof fn lemma_total_delay_joined(first: Seq<Action>, second: Seq<Action>)
    ensures
        total_delay(first + second) == total_delay(first) + total_delay(second),
    decreases second.len(),
{
    if second.len() == 0 {
        assert(first + second =~= first);
    } else {
        lemma_total_delay_joined(first, second.drop_last());
        assert((first + second).drop_last() =~= first + second.drop_last());
    }
}

/// Clearing waits 40 milliseconds in all, 30 of them after the select line
/// is released: more than the 20 that the display needs.
pub proof fn lemma_clear_waits()
    ensures
        total_delay(clear_script()) == 40,
        clear_script().subrange(4, 8) == seq![
            Action::SelectHigh,
            Action::Delay(SHORT_DELAY_MS),
            Action::Delay(SHORT_DELAY_MS),
            Action::Delay(SHORT_DELAY_MS),
        ],
        total_delay(clear_script().subrange(4, 8)) == 30,
{
    lemma_clear_script();
    let e = Seq::<Action>::empty();
    let s1 = e.push(Action::SelectLow);
    let s2 = s1.push(Action::Delay(SHORT_DELAY_MS));
    let s3 = s2.push(Action::Transmit(SETTING_COMMAND));
    let s4 = s3.push(Action::Transmit(CLEAR_COMMAND));
    let s5 = s4.push(Action::SelectHigh);
    let s6 = s5.push(Action::Delay(SHORT_DELAY_MS));
    let s7 = s6.push(Action::Delay(SHORT_DELAY_MS));
    let s8 = s7.push(Action::Delay(SHORT_DELAY_MS));
    lemma_total_delay_push(e, Action::SelectLow);
    lemma_total_delay_push(s1, Action::Delay(SHORT_DELAY_MS));
    lemma_total_delay_push(s2, Action::Transmit(SETTING_COMMAND));
    lemma_total_delay_push(s3, Action::Transmit(CLEAR_COMMAND));
    lemma_total_delay_push(s4, Action::SelectHigh);
    lemma_total_delay_push(s5, Action::Delay(SHORT_DELAY_MS));
    lemma_total_delay_push(s6, Action::Delay(SHORT_DELAY_MS));
    lemma_total_delay_push(s7, Action::Delay(SHORT_DELAY_MS));
    assert(clear_script() =~= s8);
    assert(s8 =~= s4 + s8.subrange(4, 8));
    lemma_total_delay_joined(s4, s8.subrange(4, 8));
    assert(s8.subrange(4, 8) =~= seq![
        Action::SelectHigh,
        Action::Delay(SHORT_DELAY_MS),
        Action::Delay(SHORT_DELAY_MS),
        Action::Delay(SHORT_DELAY_MS),
    ]);
}

/// A transaction selects the display once, at its start, and releases it
/// once, after the last byte: between the two stand the bytes, in order,
/// and nothing else changes the select line.
pub proof fn lemma_transaction_selects_once(bytes: Seq<u8>, settle: u8)
    ensures
        transaction(bytes, settle).len() == bytes.len() + 5,
        forall|i: int|
            0 <= i < bytes.len() + 5 ==> (#[trigger] transaction(bytes, settle)[i]
                == Action::SelectLow <==> i == 0),
        forall|i: int|
            0 <= i < bytes.len() + 5 ==> (#[trigger] transaction(bytes, settle)[i]
                == Action::SelectHigh <==> i == bytes.len() + 2),
        forall|i: int|
            0 <= i < bytes.len() + 5 ==> (#[trigger] transaction(bytes, settle)[i] is Transmit
                <==> 2 <= i < bytes.len() + 2),
        forall|i: int|
            2 <= i < bytes.len() + 2 ==> #[trigger] transaction(bytes, settle)[i]
                == Action::Transmit(bytes[i - 2]),
{
    lemma_transaction_layout(bytes, settle);
}

/// A burst of `count` special commands is one transaction of `2 * count`
/// bytes, marker and payload in turn: the select line is not released
/// between two commands.
pub proof fn lemma_burst_is_one_transaction(payload: u8, count: nat)
    ensures
        burst_script(payload, count).len() == 2 * count + 5,
        forall|i: int|
            0 <= i < 2 * count + 5 ==> (#[trigger] burst_script(payload, count)[i]
                == Action::SelectLow <==> i == 0),
        forall|i: int|
            0 <= i < 2 * count + 5 ==> (#[trigger] burst_script(payload, count)[i]
                == Action::SelectHigh <==> i == 2 * count + 2),
        forall|i: int|
            2 <= i < 2 * count + 2 ==> #[trigger] burst_script(payload, count)[i]
                == Action::Transmit(burst_byte(payload, i - 2)),
{
    lemma_burst_layout(payload, count);
    lemma_transaction_selects_once(special_burst(payload, count), LONG_DELAY_MS);
}

/// Text goes out as it is: the bytes that a write puts on the bus are the
/// bytes of the text, with no marker among them.
pub proof fn lemma_write_sends_text_alone(bytes: Seq<u8>)
    ensures
        write_script(bytes).len() == bytes.len() + 5,
        forall|i: int|
            0 <= i < bytes.len() + 5 ==> (#[trigger] write_script(bytes)[i] is Transmit <==> 2 <= i
                < bytes.len() + 2),
        forall|i: int|
            2 <= i < bytes.len() + 2 ==> #[trigger] write_script(bytes)[i] == Action::Transmit(
                bytes[i - 2],
            ),
{
    lemma_transaction_selects_once(bytes, SHORT_DELAY_MS);
}

/// Where each row begins in display memory.
pub proof fn lemma_row_offsets()
    ensures
        row_offset(0) == 0x00,
        row_offset(1) == 0x40,
        row_offset(2) == 0x14,
        row_offset(3) == 0x54,
{
}

/// For a row and a column that the display has, the cursor payload is the
/// address command with the column added to the row's offset: nothing wraps,
/// and the sum stays clear of the command's own bit.
pub proof fn lemma_cursor_on_display(col: u8, row: u8)
    requires
        row < MAX_ROWS,
        col < MAX_COLUMNS,
    ensures
        col + row_offset(row) < 0x80,
        cursor_payload(col, row) == LCD_SETDDRAMADDR | ((col + row_offset(row)) as u8),
        cursor_payload(col, row) == 0x80 + col + row_offset(row),
{
    let address: u8 = (col + row_offset(row)) as u8;
    assert(address < 0x80 ==> (0x80u8 | address) == 0x80 + address) by (bit_vector);
}

/// A row past the last is taken for the last.
pub proof fn lemma_cursor_row_clamped(col: u8, row: u8)
    requires
        row >= MAX_ROWS,
    ensures
        row_offset(row) == 0x54,
        cursor_payload(col, row) == cursor_payload(col, (MAX_ROWS - 1) as u8),
{
}

/// Switching a flag on or off changes that flag and no other bit; so
/// switching it on and then off leaves every other bit as it was.
pub proof fn lemma_flag_alone(flags: u8, flag: u8)
    ensures
        flag_set(flags, flag) & flag == flag,
        flag_cleared(flags, flag) & flag == 0,
        flag_set(flags, flag) & !flag == flags & !flag,
        flag_cleared(flags, flag) & !flag == flags & !flag,
        flag_cleared(flag_set(flags, flag), flag) == flag_cleared(flags, flag),
        flag_set(flag_cleared(flags, flag), flag) == flag_set(flags, flag),
{
    assert((flags | flag) & flag == flag) by (bit_vector);
    assert((flags & !flag) & flag == 0) by (bit_vector);
    assert((flags | flag) & !flag == flags & !flag) by (bit_vector);
    assert((flags & !flag) & !flag == flags & !flag) by (bit_vector);
    assert(((flags & !flag) | flag) == flags | flag) by (bit_vector);
}

/// Turning the display on and then off again changes the display bit
/// alone: the cursor bit and the blink bit come through both steps as they
/// were, and the two payloads sent differ in the display bit and nowhere
/// else.
pub proof fn lemma_display_on_then_off(flags: u8)
    ensures
        flag_set(flags, LCD_DISPLAYON) & LCD_DISPLAYON == LCD_DISPLAYON,
        flag_cleared(flag_set(flags, LCD_DISPLAYON), LCD_DISPLAYON) & LCD_DISPLAYON == 0,
        flag_set(flags, LCD_DISPLAYON) & LCD_CURSORON == flags & LCD_CURSORON,
        flag_set(flags, LCD_DISPLAYON) & LCD_BLINKON == flags & LCD_BLINKON,
        flag_cleared(flag_set(flags, LCD_DISPLAYON), LCD_DISPLAYON) & LCD_CURSORON == flags
            & LCD_CURSORON,
        flag_cleared(flag_set(flags, LCD_DISPLAYON), LCD_DISPLAYON) & LCD_BLINKON == flags
            & LCD_BLINKON,
        flag_cleared(flag_set(flags, LCD_DISPLAYON), LCD_DISPLAYON) & !LCD_DISPLAYON == flags
            & !LCD_DISPLAYON,
        display_control_payload(flag_set(flags, LCD_DISPLAYON)) ^ display_control_payload(
            flag_cleared(flag_set(flags, LCD_DISPLAYON), LCD_DISPLAYON),
        ) == LCD_DISPLAYON,
{
    assert((flags | 0x04) & 0x04 == 0x04) by (bit_vector);
    assert(((flags | 0x04) & !0x04u8) & 0x04 == 0) by (bit_vector);
    assert((flags | 0x04) & 0x02 == flags & 0x02) by (bit_vector);
    assert((flags | 0x04) & 0x01 == flags & 0x01) by (bit_vector);
    assert(((flags | 0x04) & !0x04u8) & 0x02 == flags & 0x02) by (bit_vector);
    assert(((flags | 0x04) & !0x04u8) & 0x01 == flags & 0x01) by (bit_vector);
    assert(((flags | 0x04) & !0x04u8) & !0x04u8 == flags & !0x04u8) by (bit_vector);
    assert((0x08u8 | (flags | 0x04)) ^ (0x08u8 | ((flags | 0x04) & !0x04u8)) == 0x04)
        by (bit_vector);
}

/// A run that went through, followed by a second run, is one run of the two
/// scripts joined; its result is that of the second.
pub proof fn lemma_attempted_in_turn<SpiE, PinE>(
    before: Seq<Exchange<SpiE, PinE>>,
    between: Seq<Exchange<SpiE, PinE>>,
    after: Seq<Exchange<SpiE, PinE>>,
    first: Seq<Action>,
    second: Seq<Action>,
    r: Result<(), Error<SpiE, PinE>>,
)
    requires
        attempted(before, between, first, Ok(())),
        attempted(between, after, second, r),
    ensures
        attempted(before, after, first + second, r),
{
    assert(between.len() == before.len() + first.len());
    assert forall|i: int| before.len() <= i < after.len() implies (#[trigger] after[i]).action == (
    first + second)[i - before.len()] && after[i].consistent() by {
        if i < between.len() {
            assert(after[i] == between[i]);
        }
    }
    assert forall|i: int| before.len() <= i < after.len() - 1 implies (#[trigger] after[i]).reply
        is Ok by {
        if i < between.len() {
            assert(after[i] == between[i]);
            if i == between.len() - 1 {
                assert(between.last().reply is Ok);
            }
        }
    }
    if after.len() == between.len() && between.len() > before.len() {
        assert(after.last() == between.last());
    }
}

/// A run that an error stopped is a run of every script that begins as its
/// own does.
pub proof fn lemma_attempted_stopped<SpiE, PinE>(
    before: Seq<Exchange<SpiE, PinE>>,
    after: Seq<Exchange<SpiE, PinE>>,
    script: Seq<Action>,
    longer: Seq<Action>,
    r: Result<(), Error<SpiE, PinE>>,
)
    requires
        attempted(before, after, script, r),
        r is Err,
        script.is_prefix_of(longer),
    ensures
        attempted(before, after, longer, r),
{
}

/// A run ends with the first reply that is an error: nothing is asked of any
/// capability after it, and it is the result.
pub proof fn lemma_error_ends_run<SpiE, PinE>(
    before: Seq<Exchange<SpiE, PinE>>,
    after: Seq<Exchange<SpiE, PinE>>,
    script: Seq<Action>,
    r: Result<(), Error<SpiE, PinE>>,
    i: int,
)
    requires
        attempted(before, after, script, r),
        before.len() <= i < after.len(),
        after[i].reply is Err,
    ensures
        i == after.len() - 1,
        r == after[i].reply,
{
}

/// The result of a run is `Ok` exactly where the whole script was asked for
/// and every reply was `Ok`.
pub proof fn lemma_success_is_whole_script<SpiE, PinE>(
    before: Seq<Exchange<SpiE, PinE>>,
    after: Seq<Exchange<SpiE, PinE>>,
    script: Seq<Action>,
    r: Result<(), Error<SpiE, PinE>>,
)
    requires
        attempted(before, after, script, r),
    ensures
        r is Ok <==> (after.len() == before.len() + script.len() && forall|i: int|
            before.len() <= i < after.len() ==> (#[trigger] after[i]).reply is Ok),
{
    if r is Ok {
        assert forall|i: int| before.len() <= i < after.len() implies (#[trigger] after[i]).reply
            is Ok by {
            if i == after.len() - 1 {
                assert(after[i] == after.last());
            }
        }
    } else {
        assert(after.len() > before.len());
        assert(after.last().reply is Err);
    }
}

/// A failed run tells which capability failed: a `Pin` error comes from a
/// change of the select line, an `Spi` error from a byte sent, and the
/// action that failed is the one that the script has at that place.
pub proof fn lemma_error_names_capability<SpiE, PinE>(
    before: Seq<Exchange<SpiE, PinE>>,
    after: Seq<Exchange<SpiE, PinE>>,
    script: Seq<Action>,
    r: Result<(), Error<SpiE, PinE>>,
)
    requires
        attempted(before, after, script, r),
        r is Err,
    ensures
        after.len() > before.len(),
        after.last().action == script[after.len() - 1 - before.len()],
        r->Err_0 is Pin <==> (after.last().action == Action::SelectLow || after.last().action
            == Action::SelectHigh),
        r->Err_0 is Spi <==> after.last().action is Transmit,
{
    assert(after.last() == after[after.len() - 1]);
    assert(after.last().consistent());
}

/// Where the select line fails at the start of a transaction, no byte is
/// sent: the run is that one call, and its result is the `Pin` error that
/// the line gave.
pub proof fn lemma_failed_select_sends_nothing<SpiE, PinE>(
    before: Seq<Exchange<SpiE, PinE>>,
    after: Seq<Exchange<SpiE, PinE>>,
    bytes: Seq<u8>,
    settle: u8,
    r: Result<(), Error<SpiE, PinE>>,
)
    requires
        attempted(before, after, transaction(bytes, settle), r),
    ensures
        after.len() > before.len(),
        after[before.len() as int].action == Action::SelectLow,
        after[before.len() as int].reply is Err ==> after.len() == before.len() + 1,
        after[before.len() as int].reply is Err ==> r == after[before.len() as int].reply,
        after[before.len() as int].reply is Err ==> r is Err && r->Err_0 is Pin,
{
    assert(transaction(bytes, settle)[0] == Action::SelectLow);
    assert(after[before.len() as int].consistent());
}

} // verus!
