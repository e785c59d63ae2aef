//! Error taxonomy for the raffle engine and its companion features.

use vstd::prelude::*;

verus! {

/// Why a raffle operation was rejected. Every failure is a synchronous
/// validation failure that leaves the raffle, its tickets and all balances
/// exactly as they were before the call.
#[derive(Clone, Copy, Debug, PartialEq, Eq)]
pub enum RaffleError {
    /// `create_raffle` was given a ticket price of zero.
    InvalidTicketPrice,
    /// `create_raffle` was given a capacity of zero.
    InvalidMaxEntries,
    /// The raffle is not in the phase the operation needs it to be in.
    RaffleNotActive,
    /// The prize has already been paid out once.
    RaffleAlreadyClaimed,
    /// No tickets have been sold.
    NoEntries,
    /// The caller is not the raffle's owner.
    Unauthorized,
    /// A winner has already been selected.
    WinnerAlreadySelected,
    /// Every ticket has been sold; no further entries are accepted.
    RaffleSoldOut,
    /// The buyer's balance does not cover the ticket price.
    InsufficientFunds,
    /// The draw may only happen once the raffle is fully sold.
    EntriesNotFull,
    /// The winner has already been drawn; the draw is irreversible.
    WinnerChosen,
    /// No winner has been drawn yet, so there is nothing to claim.
    WinnerNotChosen,
    /// The supplied ticket is not the winning ticket held by the caller.
    InvalidWinner,
    /// The prize computation would overflow.
    MathOverflow,
    /// The pseudorandom draw could not extract a seed.
    RandomNumberGenerationFailed,
}

/// Why a vault operation was rejected.
#[derive(Clone, Copy, Debug, PartialEq, Eq)]
pub enum VaultError {
    /// The vault is locked; deposits and withdrawals are suspended.
    VaultLocked,
    /// The source balance does not cover the requested amount.
    InsufficientBalance,
}

/// Why a reaction update was rejected.
#[derive(Clone, Copy, Debug, PartialEq, Eq)]
pub enum TwitterError {
    /// The like counter is already at its maximum.
    MaxLikesReached,
    /// The like counter is already at zero.
    MinLikesReached,
    /// The dislike counter is already at its maximum.
    MaxDislikesReached,
    /// The dislike counter is already at zero.
    MinDislikesReached,
}

} // verus!
