//! The raffle aggregate and its ticket records.
//!
//! A `Raffle` tracks the sale parameters, the count of sold tickets, the
//! pooled escrow and the draw/claim status of one lottery instance. A
//! `Ticket` is a numbered purchase record entitling its owner to take part
//! in the draw. Identities (raffle creator, ticket buyer) are compared as
//! plain keys; authenticating them is the identity collaborator's job, and
//! holding the escrowed funds is the ledger collaborator's.

use vstd::prelude::*;

verus! {

/// Upper bound on the length of a caller-chosen raffle identifier; the
/// identifier also serves to derive the raffle's storage address.
pub const MAX_RAFFLE_ID_LEN: usize = 30;

/// The key a raffle is stored under: its creator together with the
/// creator-chosen identifier. Uniqueness and determinism of the derived
/// storage address are the storage collaborator's concern; this core only
/// needs the pair itself.
#[derive(Debug, PartialEq, Eq)]
pub struct RaffleKey {
    /// Identity of the raffle's creator.
    pub owner: u64,
    /// Creator-chosen identifier, at most `MAX_RAFFLE_ID_LEN` bytes.
    pub raffle_id: Vec<u8>,
}

/// One lottery instance: sale parameters, sold-ticket count, pooled escrow
/// and draw/claim status.
#[derive(Debug, PartialEq, Eq)]
pub struct Raffle {
    /// Identity of the creator; authorizes the winner draw.
    pub owner: u64,
    /// Creator-chosen identifier, at most `MAX_RAFFLE_ID_LEN` bytes.
    pub raffle_id: Vec<u8>,
    /// Positive amount each ticket costs.
    pub ticket_price: u64,
    /// Positive capacity, immutable after creation.
    pub max_entries: u32,
    /// Count of tickets sold so far; never exceeds `max_entries`.
    pub entries: u32,
    /// True while ticket sales are open and no winner has been drawn.
    pub is_active: bool,
    /// True once the prize has been paid out; terminal marker.
    pub is_claimed: bool,
    /// The winning ticket number, set exactly once by the draw.
    pub winner_ticket: Option<u32>,
    /// Creation timestamp, informational only.
    pub created_at: i64,
    /// Funds pooled against this raffle: the ticket price of every sold
    /// ticket, until the prize is claimed.
    pub escrow: u64,
}

/// One numbered purchase record, created atomically with its payment and
/// never mutated afterwards.
#[derive(Debug, PartialEq, Eq)]
pub struct Ticket {
    /// Back-reference to the raffle the ticket was bought in.
    pub raffle: RaffleKey,
    /// 1-based sequence number, unique within the raffle.
    pub ticket_id: u32,
    /// Identity of the buyer.
    pub owner: u64,
}

impl Raffle {
    /// The phase/accounting invariant every raffle holds between operations:
    /// positive price and capacity, a bounded identifier and sold count, a
    /// winner only once sales have closed, a claim only after a winner, and
    /// an escrow of exactly price times sold tickets until it is paid out.
    pub open spec fn well_formed(self) -> bool {
        &&& self.ticket_price > 0
        &&& self.max_entries > 0
        &&& self.entries <= self.max_entries
        &&& self.raffle_id@.len() <= MAX_RAFFLE_ID_LEN
        &&& match self.winner_ticket {
                Some(w) => !self.is_active && 1 <= w <= self.max_entries,
                None => !self.is_claimed,
            }
        &&& if self.is_claimed {
                self.escrow == 0
            } else {
                self.escrow == self.ticket_price * self.entries
            }
    }

    /// The fields fixed at creation, which no later operation may touch.
    pub open spec fn same_sale_params(self, other: Raffle) -> bool {
        &&& self.owner == other.owner
        &&& self.raffle_id@ == other.raffle_id@
        &&& self.ticket_price == other.ticket_price
        &&& self.max_entries == other.max_entries
        &&& self.created_at == other.created_at
    }
}

impl Ticket {
    /// Whether this ticket was bought in `raffle`: its back-reference names
    /// that raffle's key.
    pub open spec fn belongs_to(self, raffle: Raffle) -> bool {
        &&& self.raffle.owner == raffle.owner
        &&& self.raffle.raffle_id@ == raffle.raffle_id@
    }
}

/// Sold-ticket counts are capped by capacity: a well-formed raffle never
/// holds more entries than `max_entries`.
pub proof fn lemma_entries_never_exceed_capacity(raffle: Raffle)
    requires
        raffle.well_formed(),
    ensures
        raffle.entries <= raffle.max_entries,
{
}

/// Until the prize is claimed, the escrow pooled against a raffle is exactly
/// the ticket price times the number of tickets sold.
pub proof fn lemma_escrow_matches_sales(raffle: Raffle)
    requires
        raffle.well_formed(),
        !raffle.is_claimed,
    ensures
        raffle.escrow == raffle.ticket_price * raffle.entries,
{
}

/// A drawn winner is always one of the sold ticket numbers: in the closed
/// range from 1 to `max_entries`.
pub proof fn lemma_winner_in_range(raffle: Raffle)
    requires
        raffle.well_formed(),
        raffle.winner_ticket is Some,
    ensures
        1 <= raffle.winner_ticket.unwrap() <= raffle.max_entries,
{
}

} // verus!
