//! The decisions of the driver for the random number generator (RNG): which number or error
//! a poll of the status register yields, and when the generator is to be reset.
//!
//! Not for cryptographic purposes.

use vstd::prelude::*;

verus! {

/// Any of the errors (except AlreadyEnabled) can usually be resolved by initializing the
/// generator again.
#[derive(Debug, Clone, Copy, PartialEq, Eq, Structural)]
pub enum ErrorType {
    /// Clock error current status.
    CECS,
    /// Seed error current status.
    SECS,
    /// Clock error interrupt status.
    CEIS,
    /// Seed error interrupt status.
    SEIS,
    /// The generator is already enabled.
    AlreadyEnabled,
    /// No new number is ready yet.
    NotReady,
}

/// The flags of the RNG status register.
#[derive(Debug, Clone, Copy, PartialEq, Eq, Structural)]
pub struct Status {
    /// Clock error interrupt status.
    pub ceis: bool,
    /// Seed error interrupt status.
    pub seis: bool,
    /// Clock error current status.
    pub cecs: bool,
    /// Seed error current status.
    pub secs: bool,
    /// Data ready.
    pub drdy: bool,
}

/// The outcome of one poll: the number or error, and whether the generator is to be reset
/// (disabled and enabled again).
#[derive(Debug, Clone, Copy)]
pub struct PollOutcome {
    /// The number or the error.
    pub result: Result<u32, ErrorType>,
    /// Whether to reset the generator.
    pub reset: bool,
}

/// The number of polls without a new number after which the generator is reset.
pub const MAX_NOT_READY: u32 = 80;

/// The state of the driver: the last number handed out and how many polls in a row found no
/// new number.
pub struct Rng {
    last_number: u32,
    counter: u32,
}

impl Rng {
    /// The last number handed out.
    pub closed spec fn spec_last_number(&self) -> u32 {
        self.last_number
    }

    /// The number of polls in a row without a new number.
    pub closed spec fn spec_counter(&self) -> u32 {
        self.counter
    }

    /// The counter stays at most [`MAX_NOT_READY`].
    pub open spec fn wf(&self) -> bool {
        self.spec_counter() <= MAX_NOT_READY
    }

    /// Starts the driver, unless the generator is already enabled.
    pub fn init(already_enabled: bool) -> (r: Result<Rng, ErrorType>)
        ensures
            already_enabled ==> r == Err::<Rng, ErrorType>(ErrorType::AlreadyEnabled),
            !already_enabled ==> (r matches Ok(rng) && rng.wf() && rng.spec_last_number() == 0
                && rng.spec_counter() == 0),
    {
        if already_enabled {
            return Err(ErrorType::AlreadyEnabled);
        }
        Ok(Rng { last_number: 0x0, counter: 0x0 })
    }

    /// Decides a poll from the status register and the data register (which counts only when
    /// the status reports ready data).
    ///
    /// Errors take precedence in the order clock error interrupt, seed error interrupt,
    /// clock error, seed error; all but the clock error reset the generator. Ready data that
    /// differs from the last number is handed out. Otherwise the poll reports `NotReady`, and
    /// after more than [`MAX_NOT_READY`] such polls in a row the generator is reset.
    pub fn poll_and_get(&mut self, status: Status, data: u32) -> (r: PollOutcome)
        requires
            old(self).wf(),
        ensures
            final(self).wf(),
            status.ceis ==> r == (PollOutcome { result: Err(ErrorType::CEIS), reset: true })
                && *final(self) == *old(self),
            !status.ceis && status.seis ==> r == (PollOutcome {
                result: Err(ErrorType::SEIS),
                reset: true,
            }) && *final(self) == *old(self),
            !status.ceis && !status.seis && status.cecs ==> r == (PollOutcome {
                result: Err(ErrorType::CECS),
                reset: false,
            }) && *final(self) == *old(self),
            !status.ceis && !status.seis && !status.cecs && status.secs ==> r == (PollOutcome {
                result: Err(ErrorType::SECS),
                reset: true,
            }) && *final(self) == *old(self),
            !status.ceis && !status.seis && !status.cecs && !status.secs && status.drdy && data
                != old(self).spec_last_number() ==> r == (PollOutcome {
                result: Ok(data),
                reset: false,
            }) && final(self).spec_last_number() == data && final(self).spec_counter() == 0,
            !status.ceis && !status.seis && !status.cecs && !status.secs && !(status.drdy && data
                != old(self).spec_last_number()) ==> {
                &&& r.result == Err::<u32, ErrorType>(ErrorType::NotReady)
                &&& r.reset == (old(self).spec_counter() + 1 > MAX_NOT_READY)
                &&& final(self).spec_last_number() == old(self).spec_last_number()
                &&& final(self).spec_counter() == if old(self).spec_counter() + 1 > MAX_NOT_READY {
                    0
                } else {
                    old(self).spec_counter() + 1
                }
            },
    {
        if status.ceis {
            return PollOutcome { result: Err(ErrorType::CEIS), reset: true };
        }
        if status.seis {
            return PollOutcome { result: Err(ErrorType::SEIS), reset: true };
        }
        if status.cecs {
            return PollOutcome { result: Err(ErrorType::CECS), reset: false };
        }
        if status.secs {
            return PollOutcome { result: Err(ErrorType::SECS), reset: true };
        }
        if status.drdy {
            if data != self.last_number {
                self.last_number = data;
                self.counter = 0;
                return PollOutcome { result: Ok(data), reset: false };
            }
        }
        self.counter = self.counter + 1;
        let mut reset = false;
        if self.counter > MAX_NOT_READY {
            reset = true;
            self.counter = 0;
        }
        PollOutcome { result: Err(ErrorType::NotReady), reset }
    }

    /// For testing purposes: the number of a poll, or 0 when the poll yields an error.
    pub fn tick(&mut self, status: Status, data: u32) -> (r: (u32, bool))
        requires
            old(self).wf(),
        ensures
            final(self).wf(),
            ({
                let outcome = r;
                match Rng::spec_poll_result(*old(self), status, data) {
                    Ok(n) => outcome.0 == n,
                    Err(_) => outcome.0 == 0,
                }
            }),
            r.1 == Rng::spec_poll_reset(*old(self), status, data),
            final(self).spec_last_number() == match Rng::spec_poll_result(*old(self), status, data) {
                Ok(n) => n,
                Err(_) => old(self).spec_last_number(),
            },
            final(self).spec_counter() == Rng::spec_poll_counter(*old(self), status, data),
    {
        let outcome = self.poll_and_get(status, data);
        let n = match outcome.result {
            Ok(n) => n,
            Err(_) => 0,
        };
        (n, outcome.reset)
    }

    /// Whether a poll asks for a reset of the generator: on a clock or seed error interrupt,
    /// on a seed error, and after more than [`MAX_NOT_READY`] polls in a row without a new
    /// number.
    pub open spec fn spec_poll_reset(rng: Rng, status: Status, data: u32) -> bool {
        if status.ceis || status.seis {
            true
        } else if status.cecs {
            false
        } else if status.secs {
            true
        } else if status.drdy && data != rng.spec_last_number() {
            false
        } else {
            rng.spec_counter() + 1 > MAX_NOT_READY
        }
    }

    /// The count of polls in a row without a new number after a poll.
    pub open spec fn spec_poll_counter(rng: Rng, status: Status, data: u32) -> nat {
        if status.ceis || status.seis || status.cecs || status.secs {
            rng.spec_counter() as nat
        } else if status.drdy && data != rng.spec_last_number() {
            0
        } else if rng.spec_counter() + 1 > MAX_NOT_READY {
            0
        } else {
            (rng.spec_counter() + 1) as nat
        }
    }

    /// The number or error that a poll yields.
    pub open spec fn spec_poll_result(rng: Rng, status: Status, data: u32) -> Result<u32, ErrorType> {
        if status.ceis {
            Err(ErrorType::CEIS)
        } else if status.seis {
            Err(ErrorType::SEIS)
        } else if status.cecs {
            Err(ErrorType::CECS)
        } else if status.secs {
            Err(ErrorType::SECS)
        } else if status.drdy && data != rng.spec_last_number() {
            Ok(data)
        } else {
            Err(ErrorType::NotReady)
        }
    }
}

/// The driver never hands out the same number twice in a row: a poll that yields a number
/// yields one that differs from the last number handed out.
pub proof fn lemma_no_repeated_number(rng: Rng, status: Status, data: u32)
    ensures
        Rng::spec_poll_result(rng, status, data) matches Ok(n) ==> n != rng.spec_last_number(),
{
}

} // verus!
