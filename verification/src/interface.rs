//! The two capabilities that a bring-up consumes, and the loop that plays a
//! bring-up on them.

use crate::dcs::SetAddressMode;
use crate::sequence::lemma_no_writes_left;
use crate::sequence::Action;
use crate::sequence::InitSequence;
use crate::sequence::Step;
use vstd::prelude::*;

verus! {

/// A bus to the controller.
///
/// An implementation sends the opcode and then the payload, byte for byte
/// and in the order given, before it returns, and neither merges writes nor
/// reorders them.
pub trait Interface {
    /// What the transport reports when a write fails.
    type Error;

    /// Sends `opcode` followed by the bytes of `payload`.
    fn write_raw(&mut self, opcode: u8, payload: &[u8]) -> Result<(), Self::Error>;
}

/// A clock that can block the caller.
///
/// An implementation blocks for at least the time asked for; it may block
/// longer.
pub trait Delay {
    /// Blocks for at least `ms` milliseconds.
    fn wait_ms(&mut self, ms: u32);

    /// Blocks for at least `us` microseconds.
    fn wait_us(&mut self, us: u32);
}

/// Plays what is left of `sequence` on `di` and `delay`: performs the step
/// that is due, tells the bring-up how it went, and goes on until the
/// bring-up has finished or a write has failed. The first failure comes
/// back as the bus reported it, and no step is performed after it.
///
/// Only the bus can make a bring-up fail: where no write is left to
/// perform, the bring-up goes well whatever the bus would answer.
pub fn run<DI, DELAY>(sequence: InitSequence, di: &mut DI, delay: &mut DELAY) -> (result: Result<
    SetAddressMode,
    DI::Error,
>) where DI: Interface, DELAY: Delay
    ensures
        result matches Ok(mode) ==> mode == sequence@.address_mode,
        sequence@.writes_left() == 0 ==> result == Ok::<SetAddressMode, DI::Error>(
            sequence@.address_mode,
        ),
{
    let mut current = sequence;
    loop
        invariant
            current@.script == sequence@.script,
            current@.address_mode == sequence@.address_mode,
            sequence@.writes_left() == 0 ==> current@.writes_left() == 0,
        decreases current@.script.len() - current@.cursor,
    {
        let action = current.pending();
        proof {
            if !current@.finished() && current@.writes_left() == 0 {
                lemma_no_writes_left(current@);
            }
        }
        let outcome = match action {
            Action::Finish(mode) => {
                return Ok(mode);
            },
            Action::Perform(Step::Wait { ms }) => {
                delay.wait_ms(ms);
                Ok(())
            },
            Action::Perform(Step::Write { opcode, payload }) => di.write_raw(
                opcode,
                payload.as_slice(),
            ),
        };
        match current.advance(outcome) {
            Ok(next) => {
                current = next;
            },
            Err(error) => {
                return Err(error);
            },
        }
    }
}

} // verus!
