use crate::errors::ErrorCode;
use vstd::prelude::*;

verus! {

/// The single record from which challenge identifiers are handed out.
#[derive(Clone, Copy, Debug, PartialEq, Eq)]
pub struct GlobalCounter {
    /// The identifier that the next challenge gets.
    pub challenge_count: u8,
}

impl Default for GlobalCounter {
    /// The counter as it is on first use: nothing was handed out yet.
    fn default() -> (counter: GlobalCounter)
        ensures
            counter.challenge_count == 0,
    {
        GlobalCounter { challenge_count: 0 }
    }
}

impl GlobalCounter {
    /// Bytes to reserve for the persisted counter.
    pub const LEN: usize = 8 + 8;

    /// Hands out the current value and moves the counter one up. Every identifier is
    /// handed out once: the counter never goes back, and where no identifier is left
    /// the call fails with `Overflow` and leaves the counter as it was.
    pub fn next_id(&mut self) -> (r: Result<u8, ErrorCode>)
        ensures
            match r {
                Ok(id) => id == old(self).challenge_count
                    && final(self).challenge_count == old(self).challenge_count + 1,
                Err(e) => e == ErrorCode::Overflow && old(self).challenge_count == u8::MAX
                    && *final(self) == *old(self),
            },
    {
        let id: u8 = self.challenge_count;
        match id.checked_add(1) {
            Some(next) => {
                self.challenge_count = next;
                Ok(id)
            },
            None => Err(ErrorCode::Overflow),
        }
    }
}

} // verus!
