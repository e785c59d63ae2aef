//! The four operations of the raffle lifecycle.
//!
//! A raffle moves through three phases: open (selling tickets), drawn (a
//! winner selected, sales closed) and claimed (the pool paid out). The
//! operations here are the only ways that state may change, and each either
//! completes as one atomic step or fails leaving the raffle, its tickets and
//! all balances untouched.
//!
//! Identities are plain keys already authenticated by the identity
//! collaborator; balances are plain amounts read from and written back to
//! the ledger collaborator by the surrounding transactional boundary.

use vstd::prelude::*;

use crate::draw::{draw_winner, drawn_ticket};
use crate::errors::RaffleError;
use crate::state::{Raffle, RaffleKey, Ticket, MAX_RAFFLE_ID_LEN};

verus! {

/// Copies a byte string, so a ticket can carry its raffle's key without
/// taking it away from the raffle.
fn copy_bytes(v: &Vec<u8>) -> (r: Vec<u8>)
    ensures
        r@ == v@,
{
    let mut r: Vec<u8> = Vec::new();
    let mut i: usize = 0;
    while i < v.len()
        invariant
            i <= v@.len(),
            r@ == v@.take(i as int),
        decreases v@.len() - i,
    {
        r.push(v[i]);
        proof {
            assert(v@.take(i + 1) =~= v@.take(i as int).push(v@[i as int]));
        }
        i = i + 1;
    }
    proof {
        assert(v@.take(v@.len() as int) =~= v@);
    }
    r
}

/// Opens a new raffle with the given sale parameters.
///
/// The price and the capacity must both be positive; no funds move. The
/// storage collaborator rejects a duplicate `(owner, raffle_id)` key before
/// this is reached.
pub fn create_raffle(
    owner: u64,
    raffle_id: Vec<u8>,
    ticket_price: u64,
    max_entries: u32,
    created_at: i64,
) -> (r: Result<Raffle, RaffleError>)
    requires
        raffle_id@.len() <= MAX_RAFFLE_ID_LEN,
    ensures
        ticket_price == 0 <==> r == Err::<Raffle, RaffleError>(RaffleError::InvalidTicketPrice),
        ticket_price > 0 && max_entries == 0 <==> r == Err::<Raffle, RaffleError>(
            RaffleError::InvalidMaxEntries,
        ),
        r is Ok <==> ticket_price > 0 && max_entries > 0,
        r matches Ok(raf) ==> {
            &&& raf.owner == owner
            &&& raf.raffle_id@ == raffle_id@
            &&& raf.ticket_price == ticket_price
            &&& raf.max_entries == max_entries
            &&& raf.entries == 0
            &&& raf.is_active
            &&& !raf.is_claimed
            &&& raf.winner_ticket is None
            &&& raf.created_at == created_at
            &&& raf.escrow == 0
            &&& raf.well_formed()
        },
{
    if ticket_price == 0 {
        return Err(RaffleError::InvalidTicketPrice);
    }
    if max_entries == 0 {
        return Err(RaffleError::InvalidMaxEntries);
    }
    Ok(
        Raffle {
            owner,
            raffle_id,
            ticket_price,
            max_entries,
            entries: 0,
            is_active: true,
            is_claimed: false,
            winner_ticket: None,
            created_at,
            escrow: 0,
        },
    )
}

/// Sells the next numbered ticket of `raffle` to `buyer`.
///
/// The raffle must be open and not sold out, and the buyer's balance must
/// cover the ticket price. On success the price moves from the buyer into
/// the raffle's escrow, the ticket numbered `entries + 1` is created for the
/// buyer, and the sold count grows by one; the buyer's new balance is
/// returned beside the ticket. On failure nothing changes.
pub fn buy_ticket(raffle: &mut Raffle, buyer: u64, buyer_balance: u64) -> (r: Result<
    (Ticket, u64),
    RaffleError,
>)
    requires
        old(raffle).well_formed(),
        old(raffle).is_active && old(raffle).entries < old(raffle).max_entries ==> old(
            raffle,
        ).escrow + old(raffle).ticket_price <= u64::MAX,
    ensures
        final(raffle).well_formed(),
        r is Err ==> *final(raffle) == *old(raffle),
        !old(raffle).is_active <==> r == Err::<(Ticket, u64), RaffleError>(
            RaffleError::RaffleNotActive,
        ),
        old(raffle).is_active && old(raffle).entries >= old(raffle).max_entries <==> r == Err::<
            (Ticket, u64),
            RaffleError,
        >(RaffleError::RaffleSoldOut),
        (old(raffle).is_active && old(raffle).entries < old(raffle).max_entries && buyer_balance
            < old(raffle).ticket_price) <==> r == Err::<(Ticket, u64), RaffleError>(
            RaffleError::InsufficientFunds,
        ),
        r is Ok <==> (old(raffle).is_active && old(raffle).entries < old(raffle).max_entries
            && buyer_balance >= old(raffle).ticket_price),
        r matches Ok(p) ==> {
            &&& p.0.belongs_to(*old(raffle))
            &&& p.0.ticket_id == old(raffle).entries + 1
            &&& p.0.owner == buyer
            &&& p.1 == buyer_balance - old(raffle).ticket_price
            &&& final(raffle).entries == old(raffle).entries + 1
            &&& final(raffle).escrow == old(raffle).escrow + old(raffle).ticket_price
            &&& final(raffle).same_sale_params(*old(raffle))
            &&& final(raffle).is_active
            &&& !final(raffle).is_claimed
            &&& final(raffle).winner_ticket is None
        },
{
    if !raffle.is_active {
        return Err(RaffleError::RaffleNotActive);
    }
    if raffle.entries >= raffle.max_entries {
        return Err(RaffleError::RaffleSoldOut);
    }
    if buyer_balance < raffle.ticket_price {
        return Err(RaffleError::InsufficientFunds);
    }
    let ticket_id = raffle.entries + 1;
    let ticket = Ticket {
        raffle: RaffleKey { owner: raffle.owner, raffle_id: copy_bytes(&raffle.raffle_id) },
        ticket_id,
        owner: buyer,
    };
    let new_balance = buyer_balance - raffle.ticket_price;
    raffle.escrow = raffle.escrow + raffle.ticket_price;
    raffle.entries = ticket_id;
    proof {
        let price = raffle.ticket_price as int;
        let sold = old(raffle).entries as int;
        assert(price * sold + price == price * (sold + 1)) by (nonlinear_arith);
    }
    Ok((ticket, new_balance))
}

/// Draws the winning ticket of a fully sold raffle.
///
/// Only the raffle's owner may draw, only while the raffle is open with
/// every ticket sold, and only once. The winning number is pinned by the
/// seed inputs: it is `drawn_ticket` of the raffle identifier, the supplied
/// timestamp and the supplied ledger sequence number, always within
/// `[1, max_entries]`. Drawing closes the raffle irreversibly; on failure
/// nothing changes.
pub fn pick_winner(raffle: &mut Raffle, caller: u64, timestamp: i64, sequence: u64) -> (r: Result<
    u32,
    RaffleError,
>)
    requires
        old(raffle).well_formed(),
    ensures
        final(raffle).well_formed(),
        r is Err ==> *final(raffle) == *old(raffle),
        caller != old(raffle).owner <==> r == Err::<u32, RaffleError>(RaffleError::Unauthorized),
        caller == old(raffle).owner && old(raffle).winner_ticket is Some <==> r == Err::<
            u32,
            RaffleError,
        >(RaffleError::WinnerChosen),
        (caller == old(raffle).owner && old(raffle).winner_ticket is None && !old(
            raffle,
        ).is_active) <==> r == Err::<u32, RaffleError>(RaffleError::RaffleNotActive),
        (caller == old(raffle).owner && old(raffle).winner_ticket is None && old(raffle).is_active
            && old(raffle).entries < old(raffle).max_entries) <==> r == Err::<u32, RaffleError>(
            RaffleError::EntriesNotFull,
        ),
        r is Ok <==> (caller == old(raffle).owner && old(raffle).winner_ticket is None && old(
            raffle,
        ).is_active && old(raffle).entries == old(raffle).max_entries),
        r matches Ok(w) ==> {
            &&& 1 <= w <= old(raffle).max_entries
            &&& w == drawn_ticket(
                old(raffle).raffle_id@,
                timestamp,
                sequence,
                old(raffle).max_entries,
            )
            &&& final(raffle).winner_ticket == Some(w)
            &&& !final(raffle).is_active
            &&& !final(raffle).is_claimed
            &&& final(raffle).entries == old(raffle).entries
            &&& final(raffle).escrow == old(raffle).escrow
            &&& final(raffle).same_sale_params(*old(raffle))
        },
{
    if caller != raffle.owner {
        return Err(RaffleError::Unauthorized);
    }
    if raffle.winner_ticket.is_some() {
        return Err(RaffleError::WinnerChosen);
    }
    if !raffle.is_active {
        return Err(RaffleError::RaffleNotActive);
    }
    if raffle.entries < raffle.max_entries {
        return Err(RaffleError::EntriesNotFull);
    }
    let winner = draw_winner(&raffle.raffle_id, timestamp, sequence, raffle.max_entries);
    raffle.is_active = false;
    raffle.winner_ticket = Some(winner);
    Ok(winner)
}

/// Pays the pooled escrow out to the winning ticket's holder, exactly once.
///
/// The raffle must be drawn and not yet claimed, and the supplied ticket —
/// one of this raffle's, as the storage collaborator's key derivation
/// guarantees — must both carry the winning number and belong to the
/// caller: knowing the winning number alone must not let a non-holder
/// claim. The payout is the ticket price times the tickets sold, computed
/// with an overflow check; it leaves the escrow and the raffle becomes
/// claimed, terminally. On failure nothing changes.
pub fn claim_prize(raffle: &mut Raffle, ticket: &Ticket, caller: u64) -> (r: Result<
    u64,
    RaffleError,
>)
    requires
        old(raffle).well_formed(),
        ticket.belongs_to(*old(raffle)),
    ensures
        final(raffle).well_formed(),
        r is Err ==> *final(raffle) == *old(raffle),
        old(raffle).is_claimed <==> r == Err::<u64, RaffleError>(RaffleError::RaffleAlreadyClaimed),
        !old(raffle).is_claimed && old(raffle).is_active <==> r == Err::<u64, RaffleError>(
            RaffleError::RaffleNotActive,
        ),
        (!old(raffle).is_claimed && !old(raffle).is_active && old(raffle).winner_ticket is None)
            <==> r == Err::<u64, RaffleError>(RaffleError::WinnerNotChosen),
        (!old(raffle).is_claimed && !old(raffle).is_active && old(raffle).winner_ticket is Some
            && !(old(raffle).winner_ticket.unwrap() == ticket.ticket_id && ticket.owner == caller))
            <==> r == Err::<u64, RaffleError>(RaffleError::InvalidWinner),
        (!old(raffle).is_claimed && !old(raffle).is_active && old(raffle).winner_ticket is Some
            && old(raffle).winner_ticket.unwrap() == ticket.ticket_id && ticket.owner == caller
            && old(raffle).ticket_price * old(raffle).entries > u64::MAX) <==> r == Err::<
            u64,
            RaffleError,
        >(RaffleError::MathOverflow),
        r is Ok <==> (!old(raffle).is_claimed && !old(raffle).is_active && old(
            raffle,
        ).winner_ticket is Some && old(raffle).winner_ticket.unwrap() == ticket.ticket_id
            && ticket.owner == caller && old(raffle).ticket_price * old(raffle).entries
            <= u64::MAX),
        r matches Ok(prize) ==> {
            &&& prize == old(raffle).ticket_price * old(raffle).entries
            &&& final(raffle).escrow == old(raffle).escrow - prize
            &&& final(raffle).is_claimed
            &&& !final(raffle).is_active
            &&& final(raffle).winner_ticket == old(raffle).winner_ticket
            &&& final(raffle).entries == old(raffle).entries
            &&& final(raffle).same_sale_params(*old(raffle))
        },
{
    if raffle.is_claimed {
        return Err(RaffleError::RaffleAlreadyClaimed);
    }
    if raffle.is_active {
        return Err(RaffleError::RaffleNotActive);
    }
    match raffle.winner_ticket {
        None => Err(RaffleError::WinnerNotChosen),
        Some(winner_ticket_id) => {
            if !(winner_ticket_id == ticket.ticket_id && ticket.owner == caller) {
                return Err(RaffleError::InvalidWinner);
            }
            match raffle.ticket_price.checked_mul(raffle.entries as u64) {
                None => Err(RaffleError::MathOverflow),
                Some(prize) => {
                    raffle.escrow = raffle.escrow - prize;
                    raffle.is_claimed = true;
                    Ok(prize)
                },
            }
        },
    }
}

} // verus!
