//! Time counted in periods of a fixed length.

use vstd::prelude::*;
use crate::error::ContractError;

verus! {

/// Periods of `duration` seconds, counted so that period boundaries fall on
/// the multiples of `duration`: `offset` is how far into a period `start_time` lies.
#[derive(Clone, Copy, Debug, PartialEq, Eq, Structural)]
pub struct Epoch {
    pub duration: u64,
    pub start_time: u64,
    pub offset: u64,
}

impl Epoch {
    /// The number of whole periods that lie between the start and `seconds`, counted from the
    /// period boundary before the start; zero before the start.
    pub open spec fn spec_current_epoch(self, seconds: int) -> int
        recommends
            seconds >= self.start_time ==> self.duration != 0,
    {
        if seconds < self.start_time {
            0
        } else {
            (seconds - self.start_time + self.offset) / (self.duration as int)
        }
    }

    pub fn new(duration: u64, start_time: u64) -> (epoch: Epoch)
        requires
            duration != 0,
        ensures
            epoch == (Epoch { duration, start_time, offset: start_time % duration }),
    {
        let offset = start_time % duration;
        Epoch { duration, start_time, offset }
    }

    /// The number of the period in which `seconds` lies.
    pub fn current_epoch(&self, seconds: u64) -> (epoch: u64)
        requires
            seconds >= self.start_time ==> self.duration != 0,
            seconds >= self.start_time ==> seconds - self.start_time + self.offset <= u64::MAX,
        ensures
            epoch == self.spec_current_epoch(seconds as int),
    {
        if seconds < self.start_time {
            return 0;
        }
        let adjusted_seconds = seconds - self.start_time + self.offset;
        adjusted_seconds / self.duration
    }

    /// Refuses periods of no length.
    pub fn validate(&self) -> (r: Result<(), ContractError>)
        ensures
            r == if self.duration == 0 {
                Err::<(), ContractError>(ContractError::EpochDurationCannotBeZero {  })
            } else {
                Ok::<(), ContractError>(())
            },
    {
        if self.duration == 0 {
            return Err(ContractError::EpochDurationCannotBeZero {  });
        }
        Ok(())
    }

    /// With the offset that `new` gives, no time is too late to be counted.
    pub proof fn lemma_offset_within_start(duration: u64, start_time: u64, seconds: u64)
        requires
            duration != 0,
            seconds >= start_time,
        ensures
            seconds - start_time + start_time % duration <= u64::MAX,
    {
        assert(start_time % duration <= start_time) by (nonlinear_arith)
            requires
                duration > 0,
        ;
    }
}

} // verus!
