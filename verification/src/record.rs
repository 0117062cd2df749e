//! The record of a run: which calls the driver made, what each returned, and
//! what it means for a run to follow a script.

use crate::link::Error;
use crate::wire::Action;
use vstd::prelude::*;

verus! {

/// One call to a capability: what was asked, and what came back.
pub struct Exchange<SpiE, PinE> {
    pub action: Action,
    pub reply: Result<(), Error<SpiE, PinE>>,
}

impl<SpiE, PinE> Exchange<SpiE, PinE> {
    /// The reply is one that the capability behind the action can give: the
    /// select line fails with `Pin` only, the bus with `Spi` only, and a
    /// delay does not fail.
    pub open spec fn consistent(self) -> bool {
        match self.action {
            Action::SelectLow | Action::SelectHigh => self.reply is Ok || (self.reply matches Err(
                e,
            ) && e is Pin),
            Action::Transmit(_) => self.reply is Ok || (self.reply matches Err(e) && e is Spi),
            Action::Delay(_) => self.reply is Ok,
        }
    }
}

/// The exchanges in `after` that follow those of `before` are one run of
/// `script` that ended in `r`.
///
/// The run asks for the actions of the script in order, and goes on only
/// while each is granted. It ends with the script, or with the first reply
/// that is an error. Its result is the last reply: the error that stopped
/// it, as the capability gave it, or `Ok` where nothing did.
pub open spec fn attempted<SpiE, PinE>(
    before: Seq<Exchange<SpiE, PinE>>,
    after: Seq<Exchange<SpiE, PinE>>,
    script: Seq<Action>,
    r: Result<(), Error<SpiE, PinE>>,
) -> bool {
    &&& before.len() <= after.len() <= before.len() + script.len()
    &&& forall|i: int| 0 <= i < before.len() ==> after[i] == before[i]
    &&& forall|i: int|
        before.len() <= i < after.len() ==> (#[trigger] after[i]).action == script[i
            - before.len()] && after[i].consistent()
    &&& forall|i: int| before.len() <= i < after.len() - 1 ==> (#[trigger] after[i]).reply is Ok
    &&& after.len() < before.len() + script.len() ==> after.len() > before.len()
        && after.last().reply is Err
    &&& r == if after.len() == before.len() {
        Ok::<(), Error<SpiE, PinE>>(())
    } else {
        after.last().reply
    }
}

/// A run that went through the first `done` actions of a script, and one
/// more exchange for the action that comes next, are a run of the first
/// `done + 1` actions; and where that exchange failed, or the script ends
/// with it, a run of the whole script.
pub proof fn lemma_attempted_push<SpiE, PinE>(
    before: Seq<Exchange<SpiE, PinE>>,
    log: Seq<Exchange<SpiE, PinE>>,
    script: Seq<Action>,
    done: int,
    next: Exchange<SpiE, PinE>,
)
    requires
        0 <= done < script.len(),
        attempted(before, log, script.take(done), Ok(())),
        next.action == script[done],
        next.consistent(),
    ensures
        attempted(before, log.push(next), script.take(done + 1), next.reply),
        next.reply is Err || done + 1 == script.len() ==> attempted(
            before,
            log.push(next),
            script,
            next.reply,
        ),
{
    let after = log.push(next);
    assert(log.len() == before.len() + done);
    assert(after.last() == next);
    assert forall|i: int| before.len() <= i < after.len() implies (#[trigger] after[i]).action
        == script[i - before.len()] && after[i].consistent() by {
        if i < log.len() {
            assert(after[i] == log[i]);
            assert(script.take(done)[i - before.len()] == script[i - before.len()]);
        }
    }
    assert forall|i: int| before.len() <= i < after.len() - 1 implies (#[trigger] after[i]).reply
        is Ok by {
        assert(after[i] == log[i]);
        if i == log.len() - 1 {
            assert(log.last().reply is Ok);
        }
    }
    assert(script.take(done + 1).len() == done + 1);
    assert forall|i: int| before.len() <= i < after.len() implies (#[trigger] after[i]).action
        == script.take(done + 1)[i - before.len()] by {
        assert(script.take(done + 1)[i - before.len()] == script[i - before.len()]);
    }
}

} // verus!
