//! The display controller.

use crate::link::{ByteChannel, Error, Link, SelectLine};
use crate::record::{attempted, lemma_attempted_push, Exchange};
use crate::wire::{
    burst_byte, burst_script, clear_script, command_script, cursor_command, cursor_payload,
    display_control_payload, flag_cleared, flag_set, lemma_burst_layout, lemma_command_script,
    lemma_setup_script, lemma_special_script, lemma_transaction_layout, setup_script,
    special_burst, special_script, write_script, Action, CLEAR_COMMAND, LCD_BLINKOFF, LCD_BLINKON,
    LCD_CURSOROFF, LCD_CURSORON, LCD_DISPLAYCONTROL, LCD_DISPLAYON, LCD_ENTRYLEFT,
    LCD_ENTRYMODESET, LCD_ENTRYSHIFTDECREMENT, LCD_RETURNHOME, LONG_DELAY_MS, SETTING_COMMAND,
    SHORT_DELAY_MS, SPECIAL_COMMAND,
};
use embedded_hal::blocking::delay::DelayMs;
use vstd::prelude::*;
use vstd::string::StringSliceAdditionalSpecFns;

verus! {

/// A display behind a bus, a select line and a delay source, with the two
/// flag bytes that mirror what the display was last told.
pub struct SerLCD<SPI: ByteChannel, CS: SelectLine, DS> {
    link: Link<SPI, CS, DS>,
    display_control: u8,
    display_mode: u8,
}

impl<SPI, CS, DS, SpiE, PinE> SerLCD<SPI, CS, DS> where
    SPI: ByteChannel<Error = SpiE>,
    CS: SelectLine<Error = PinE>,
    DS: DelayMs<u8>,
 {
    /// Every call made to the capabilities so far, oldest first, each with
    /// its reply.
    pub closed spec fn log(&self) -> Seq<Exchange<SpiE, PinE>> {
        self.link.log()
    }

    /// The mirrored display flags.
    pub closed spec fn display_control(&self) -> u8 {
        self.display_control
    }

    /// The mirrored entry flags.
    pub closed spec fn display_mode(&self) -> u8 {
        self.display_mode
    }

    /// The mirrored display flags hold nothing but the three flag bits, and
    /// the entry flags are those that the driver starts with. It holds of a
    /// new driver, and every operation keeps it.
    pub open spec fn well_formed(&self) -> bool {
        &&& self.display_control() <= (LCD_DISPLAYON | LCD_CURSORON | LCD_BLINKON)
        &&& self.display_mode() == LCD_ENTRYLEFT
    }

    /// Takes the three capabilities. The display counts as on, with no
    /// cursor and no blinking, and text as running from left to right.
    /// Nothing is sent.
    pub fn new(spi: SPI, cs: CS, delay_source: DS) -> (lcd: Self)
        ensures
            lcd.log() == Seq::<Exchange<SpiE, PinE>>::empty(),
            lcd.display_control() == LCD_DISPLAYON,
            lcd.display_mode() == LCD_ENTRYLEFT,
            lcd.well_formed(),
    {
        assert(LCD_DISPLAYON <= (LCD_DISPLAYON | LCD_CURSORON | LCD_BLINKON)) by (bit_vector);
        assert(LCD_DISPLAYON | LCD_CURSOROFF | LCD_BLINKOFF == LCD_DISPLAYON) by (bit_vector);
        assert(LCD_ENTRYLEFT | LCD_ENTRYSHIFTDECREMENT == LCD_ENTRYLEFT) by (bit_vector);
        SerLCD {
            link: Link::new(spi, cs, delay_source),
            display_control: LCD_DISPLAYON | LCD_CURSOROFF | LCD_BLINKOFF,
            display_mode: LCD_ENTRYLEFT | LCD_ENTRYSHIFTDECREMENT,
        }
    }

    /// Starts the display: sets display control and entry mode and clears
    /// the display, all inside one transaction, then waits for the display
    /// to finish.
    pub fn setup(&mut self) -> (r: Result<(), Error<SpiE, PinE>>)
        ensures
            attempted(old(self).log(), final(self).log(), setup_script(), r),
            final(self).display_control() == old(self).display_control(),
            final(self).display_mode() == old(self).display_mode(),
    {
        let ghost start = self.log();
        let ghost whole = setup_script();
        proof {
            lemma_setup_script();
        }
        self.begin_transmission(Ghost(whole))?;
        self.transmit(SPECIAL_COMMAND, Ghost(start), Ghost(whole), Ghost(2))?;
        self.transmit(LCD_DISPLAYCONTROL, Ghost(start), Ghost(whole), Ghost(3))?;
        self.transmit(SPECIAL_COMMAND, Ghost(start), Ghost(whole), Ghost(4))?;
        self.transmit(LCD_ENTRYMODESET, Ghost(start), Ghost(whole), Ghost(5))?;
        self.transmit(SETTING_COMMAND, Ghost(start), Ghost(whole), Ghost(6))?;
        self.transmit(CLEAR_COMMAND, Ghost(start), Ghost(whole), Ghost(7))?;
        self.end_transmission(Ghost(start), Ghost(whole), Ghost(8))?;
        self.settle(LONG_DELAY_MS, Ghost(start), Ghost(whole));
        Ok(())
    }

    /// Sends a setting command.
    pub fn command(&mut self, command: u8) -> (r: Result<(), Error<SpiE, PinE>>)
        ensures
            attempted(old(self).log(), final(self).log(), command_script(command), r),
            final(self).display_control() == old(self).display_control(),
            final(self).display_mode() == old(self).display_mode(),
    {
        let ghost start = self.log();
        let ghost whole = command_script(command);
        proof {
            lemma_command_script(command);
        }
        self.begin_transmission(Ghost(whole))?;
        self.transmit(SETTING_COMMAND, Ghost(start), Ghost(whole), Ghost(2))?;
        self.transmit(command, Ghost(start), Ghost(whole), Ghost(3))?;
        self.end_transmission(Ghost(start), Ghost(whole), Ghost(4))?;
        self.settle(SHORT_DELAY_MS, Ghost(start), Ghost(whole));
        Ok(())
    }

    /// Sends a special command.
    pub fn special_command(&mut self, command: u8) -> (r: Result<(), Error<SpiE, PinE>>)
        ensures
            attempted(old(self).log(), final(self).log(), special_script(command), r),
            final(self).display_control() == old(self).display_control(),
            final(self).display_mode() == old(self).display_mode(),
    {
        let ghost start = self.log();
        let ghost whole = special_script(command);
        proof {
            lemma_special_script(command);
        }
        self.begin_transmission(Ghost(whole))?;
        self.transmit(SPECIAL_COMMAND, Ghost(start), Ghost(whole), Ghost(2))?;
        self.transmit(command, Ghost(start), Ghost(whole), Ghost(3))?;
        self.end_transmission(Ghost(start), Ghost(whole), Ghost(4))?;
        self.settle(LONG_DELAY_MS, Ghost(start), Ghost(whole));
        Ok(())
    }

    /// Sends the same special command `count` times inside one transaction.
    pub fn special_command_count(
        &mut self,
        command: u8,
        count: u8,
    ) -> (r: Result<(), Error<SpiE, PinE>>)
        ensures
            attempted(old(self).log(), final(self).log(), burst_script(command, count as nat), r),
            final(self).display_control() == old(self).display_control(),
            final(self).display_mode() == old(self).display_mode(),
    {
        let ghost start = self.log();
        let ghost whole = burst_script(command, count as nat);
        proof {
            lemma_burst_layout(command, count as nat);
            lemma_transaction_layout(special_burst(command, count as nat), LONG_DELAY_MS);
        }
        self.begin_transmission(Ghost(whole))?;
        let mut sent: u8 = 0;
        while sent < count
            invariant
                sent <= count,
                start == old(self).log(),
                whole == burst_script(command, count as nat),
                whole.len() == 2 * count + 5,
                forall|i: int|
                    2 <= i < 2 * count + 2 ==> #[trigger] whole[i] == Action::Transmit(
                        burst_byte(command, i - 2),
                    ),
                attempted(start, self.log(), whole.take(2 + 2 * sent), Ok(())),
                self.display_control() == old(self).display_control(),
                self.display_mode() == old(self).display_mode(),
            decreases count - sent,
        {
            self.transmit(SPECIAL_COMMAND, Ghost(start), Ghost(whole), Ghost(2 + 2 * sent))?;
            self.transmit(command, Ghost(start), Ghost(whole), Ghost(3 + 2 * sent))?;
            sent = sent + 1;
        }
        self.end_transmission(Ghost(start), Ghost(whole), Ghost(2 + 2 * count))?;
        assert(whole.drop_last() == whole.take(4 + 2 * count));
        self.settle(LONG_DELAY_MS, Ghost(start), Ghost(whole));
        Ok(())
    }

    /// Clears the display, and waits once more than a setting command does.
    pub fn clear(&mut self) -> (r: Result<(), Error<SpiE, PinE>>)
        ensures
            attempted(old(self).log(), final(self).log(), clear_script(), r),
            final(self).display_control() == old(self).display_control(),
            final(self).display_mode() == old(self).display_mode(),
    {
        let ghost start = self.log();
        self.command(CLEAR_COMMAND)?;
        assert(clear_script().drop_last() == command_script(CLEAR_COMMAND));
        self.settle(SHORT_DELAY_MS, Ghost(start), Ghost(clear_script()));
        Ok(())
    }

    /// Moves the cursor to the first column of the first row.
    pub fn home(&mut self) -> (r: Result<(), Error<SpiE, PinE>>)
        ensures
            attempted(old(self).log(), final(self).log(), special_script(LCD_RETURNHOME), r),
            final(self).display_control() == old(self).display_control(),
            final(self).display_mode() == old(self).display_mode(),
    {
        self.special_command(LCD_RETURNHOME)
    }

    /// Moves the cursor to a column of a row. A row past the last counts as
    /// the last; the column is taken as it is.
    pub fn set_cursor(&mut self, col: u8, row: u8) -> (r: Result<(), Error<SpiE, PinE>>)
        ensures
            attempted(
                old(self).log(),
                final(self).log(),
                special_script(cursor_payload(col, row)),
                r,
            ),
            final(self).display_control() == old(self).display_control(),
            final(self).display_mode() == old(self).display_mode(),
    {
        self.special_command(cursor_command(col, row))?;
        Ok(())
    }

    /// Sends text, byte for byte, inside one transaction.
    pub fn write(&mut self, buf: &[u8]) -> (r: Result<(), Error<SpiE, PinE>>)
        ensures
            attempted(old(self).log(), final(self).log(), write_script(buf@), r),
            final(self).display_control() == old(self).display_control(),
            final(self).display_mode() == old(self).display_mode(),
    {
        let ghost start = self.log();
        let ghost whole = write_script(buf@);
        proof {
            lemma_transaction_layout(buf@, SHORT_DELAY_MS);
        }
        self.begin_transmission(Ghost(whole))?;
        let mut sent: usize = 0;
        while sent < buf.len()
            invariant
                sent <= buf@.len(),
                start == old(self).log(),
                whole == write_script(buf@),
                whole.len() == buf@.len() + 5,
                forall|i: int|
                    2 <= i < buf@.len() + 2 ==> #[trigger] whole[i] == Action::Transmit(buf@[i - 2]),
                attempted(start, self.log(), whole.take(2 + sent), Ok(())),
                self.display_control() == old(self).display_control(),
                self.display_mode() == old(self).display_mode(),
            decreases buf@.len() - sent,
        {
            self.transmit(buf[sent], Ghost(start), Ghost(whole), Ghost(2 + sent))?;
            sent = sent + 1;
        }
        self.end_transmission(Ghost(start), Ghost(whole), Ghost(2 + buf@.len() as int))?;
        assert(whole.drop_last() == whole.take(4 + buf@.len() as int));
        self.settle(SHORT_DELAY_MS, Ghost(start), Ghost(whole));
        Ok(())
    }

    /// Sends the bytes of a text. Sends nothing at all where the text is empty.
    pub fn write_str(&mut self, s: &str) -> (r: Result<(), Error<SpiE, PinE>>)
        ensures
            s@.len() == 0 ==> r is Ok && final(self).log() == old(self).log(),
            s@.len() > 0 ==> attempted(
                old(self).log(),
                final(self).log(),
                write_script(s.spec_bytes()),
                r,
            ),
            final(self).display_control() == old(self).display_control(),
            final(self).display_mode() == old(self).display_mode(),
    {
        if !s.is_empty() {
            self.write(s.as_bytes())?;
        }
        Ok(())
    }

    /// Turns the display off. What it shows is kept.
    pub fn no_display(&mut self) -> (r: Result<(), Error<SpiE, PinE>>)
        ensures
            final(self).display_control() == flag_cleared(old(self).display_control(), LCD_DISPLAYON),
            old(self).well_formed() ==> final(self).well_formed(),
            attempted(
                old(self).log(),
                final(self).log(),
                special_script(display_control_payload(final(self).display_control())),
                r,
            ),
            final(self).display_mode() == old(self).display_mode(),
    {
        proof {
            let c = self.display_control;
            assert(c <= (LCD_DISPLAYON | LCD_CURSORON | LCD_BLINKON) ==> (c & !LCD_DISPLAYON) <= (
            LCD_DISPLAYON | LCD_CURSORON | LCD_BLINKON)) by (bit_vector);
        }
        self.display_control &= !LCD_DISPLAYON;
        self.special_command(LCD_DISPLAYCONTROL | self.display_control)?;
        Ok(())
    }

    /// Turns the display on.
    pub fn display(&mut self) -> (r: Result<(), Error<SpiE, PinE>>)
        ensures
            final(self).display_control() == flag_set(old(self).display_control(), LCD_DISPLAYON),
            old(self).well_formed() ==> final(self).well_formed(),
            attempted(
                old(self).log(),
                final(self).log(),
                special_script(display_control_payload(final(self).display_control())),
                r,
            ),
            final(self).display_mode() == old(self).display_mode(),
    {
        proof {
            let c = self.display_control;
            assert(c <= (LCD_DISPLAYON | LCD_CURSORON | LCD_BLINKON) ==> (c | LCD_DISPLAYON) <= (
            LCD_DISPLAYON | LCD_CURSORON | LCD_BLINKON)) by (bit_vector);
        }
        self.display_control |= LCD_DISPLAYON;
        self.special_command(LCD_DISPLAYCONTROL | self.display_control)?;
        Ok(())
    }

    /// Hides the cursor.
    pub fn no_cursor(&mut self) -> (r: Result<(), Error<SpiE, PinE>>)
        ensures
            final(self).display_control() == flag_cleared(old(self).display_control(), LCD_CURSORON),
            old(self).well_formed() ==> final(self).well_formed(),
            attempted(
                old(self).log(),
                final(self).log(),
                special_script(display_control_payload(final(self).display_control())),
                r,
            ),
            final(self).display_mode() == old(self).display_mode(),
    {
        proof {
            let c = self.display_control;
            assert(c <= (LCD_DISPLAYON | LCD_CURSORON | LCD_BLINKON) ==> (c & !LCD_CURSORON) <= (
            LCD_DISPLAYON | LCD_CURSORON | LCD_BLINKON)) by (bit_vector);
        }
        self.display_control &= !LCD_CURSORON;
        self.special_command(LCD_DISPLAYCONTROL | self.display_control)?;
        Ok(())
    }

    /// Shows the cursor.
    pub fn cursor(&mut self) -> (r: Result<(), Error<SpiE, PinE>>)
        ensures
            final(self).display_control() == flag_set(old(self).display_control(), LCD_CURSORON),
            old(self).well_formed() ==> final(self).well_formed(),
            attempted(
                old(self).log(),
                final(self).log(),
                special_script(display_control_payload(final(self).display_control())),
                r,
            ),
            final(self).display_mode() == old(self).display_mode(),
    {
        proof {
            let c = self.display_control;
            assert(c <= (LCD_DISPLAYON | LCD_CURSORON | LCD_BLINKON) ==> (c | LCD_CURSORON) <= (
            LCD_DISPLAYON | LCD_CURSORON | LCD_BLINKON)) by (bit_vector);
        }
        self.display_control |= LCD_CURSORON;
        self.special_command(LCD_DISPLAYCONTROL | self.display_control)?;
        Ok(())
    }

    /// Opens a transaction: selects the display, then waits. These are the
    /// first two actions of `script`.
    fn begin_transmission(
        &mut self,
        Ghost(script): Ghost<Seq<Action>>,
    ) -> (r: Result<(), Error<SpiE, PinE>>)
        requires
            script.len() >= 2,
            script[0] == Action::SelectLow,
            script[1] == Action::Delay(SHORT_DELAY_MS),
        ensures
            attempted(old(self).log(), final(self).log(), script.take(2), r),
            r is Err ==> attempted(old(self).log(), final(self).log(), script, r),
            final(self).display_control() == old(self).display_control(),
            final(self).display_mode() == old(self).display_mode(),
    {
        let ghost start = self.log();
        assert(attempted(start, start, script.take(0), Ok(())));
        let selected = self.link.select();
        proof {
            lemma_attempted_push(
                start,
                start,
                script,
                0,
                Exchange { action: Action::SelectLow, reply: selected },
            );
        }
        selected?;
        let ghost low = self.log();
        self.link.pause(SHORT_DELAY_MS);
        proof {
            lemma_attempted_push(
                start,
                low,
                script,
                1,
                Exchange { action: Action::Delay(SHORT_DELAY_MS), reply: Ok(()) },
            );
        }
        Ok(())
    }

    /// Closes a transaction: releases the display, then waits. These are
    /// the two actions of `script` that follow the first `done`, which the
    /// run since `start` has gone through.
    fn end_transmission(
        &mut self,
        Ghost(start): Ghost<Seq<Exchange<SpiE, PinE>>>,
        Ghost(script): Ghost<Seq<Action>>,
        Ghost(done): Ghost<int>,
    ) -> (r: Result<(), Error<SpiE, PinE>>)
        requires
            0 <= done,
            done + 2 <= script.len(),
            script[done] == Action::SelectHigh,
            script[done + 1] == Action::Delay(SHORT_DELAY_MS),
            attempted(start, old(self).log(), script.take(done), Ok(())),
        ensures
            attempted(start, final(self).log(), script.take(done + 2), r),
            r is Err ==> attempted(start, final(self).log(), script, r),
            final(self).display_control() == old(self).display_control(),
            final(self).display_mode() == old(self).display_mode(),
    {
        let ghost here = self.log();
        let released = self.link.release();
        proof {
            lemma_attempted_push(
                start,
                here,
                script,
                done,
                Exchange { action: Action::SelectHigh, reply: released },
            );
        }
        released?;
        let ghost high = self.log();
        self.link.pause(SHORT_DELAY_MS);
        proof {
            lemma_attempted_push(
                start,
                high,
                script,
                done + 1,
                Exchange { action: Action::Delay(SHORT_DELAY_MS), reply: Ok(()) },
            );
        }
        Ok(())
    }

    /// Sends one byte: the action of `script` that follows the first
    /// `done`, which the run since `start` has gone through.
    fn transmit(
        &mut self,
        data: u8,
        Ghost(start): Ghost<Seq<Exchange<SpiE, PinE>>>,
        Ghost(script): Ghost<Seq<Action>>,
        Ghost(done): Ghost<int>,
    ) -> (r: Result<(), Error<SpiE, PinE>>)
        requires
            0 <= done < script.len(),
            script[done] == Action::Transmit(data),
            attempted(start, old(self).log(), script.take(done), Ok(())),
        ensures
            attempted(start, final(self).log(), script.take(done + 1), r),
            r is Err ==> attempted(start, final(self).log(), script, r),
            final(self).display_control() == old(self).display_control(),
            final(self).display_mode() == old(self).display_mode(),
    {
        let ghost here = self.log();
        let sent = self.link.send(data);
        proof {
            lemma_attempted_push(
                start,
                here,
                script,
                done,
                Exchange { action: Action::Transmit(data), reply: sent },
            );
        }
        sent
    }

    /// Waits after a transaction: the last action of `script`, of which the
    /// run since `start` has gone through all the others.
    fn settle(
        &mut self,
        ms: u8,
        Ghost(start): Ghost<Seq<Exchange<SpiE, PinE>>>,
        Ghost(script): Ghost<Seq<Action>>,
    )
        requires
            script.len() >= 1,
            script.last() == Action::Delay(ms),
            attempted(start, old(self).log(), script.drop_last(), Ok(())),
        ensures
            attempted(start, final(self).log(), script, Ok(())),
            final(self).display_control() == old(self).display_control(),
            final(self).display_mode() == old(self).display_mode(),
    {
        let ghost here = self.log();
        assert(script.drop_last() == script.take(script.len() - 1));
        self.link.pause(ms);
        proof {
            lemma_attempted_push(
                start,
                here,
                script,
                script.len() - 1,
                Exchange { action: Action::Delay(ms), reply: Ok(()) },
            );
        }
    }
}

} // verus!
