use vstd::prelude::*;
use anchor_lang::prelude::ProgramError;

verus! {

/// Why an operation was refused. Every refusal ends the operation.
#[derive(Clone, Copy, Debug, PartialEq, Eq, Structural)]
pub enum PresaleTokenError {
    /// The failed-presale branch of settlement: refunds are not offered.
    NotImplemented,
    InvalidBaseMint,
    InvalidAdmin,
    /// The round index is not below the number of rounds.
    InvalidRound,
    /// The amount is zero, or more than the seller holds in the round.
    InvalidAmount,
    /// The first round was addressed before the start time.
    PresaleNotStarted,
    /// The round lies ahead of the open round.
    RoundNotStarted,
    /// The round lies behind the open round.
    RoundEnded,
    /// A sale into the open round, which is not the last one.
    NotFinalRound,
    /// Finalization was asked for before the sale window closed.
    PresaleNotEnded,
    InvalidCreator,
    PresaleAlreadyFinalized,
    UserAlreadyClaimedOrRefunded,
    PresaleNotFinalized,
    InvalidNewMint,
}

/// Why a call that asks the runtime for the time did not go through.
#[derive(Debug)]
pub enum TimedCallError {
    /// A rule of the presale refused the call.
    Refused(PresaleTokenError),
    /// The runtime did not tell the time; this is its error.
    NoClock(ProgramError),
}

} // verus!
