//! Single-use claim tickets: the admin issues a ticket bound to a
//! beneficiary, an amount and an expiry; the beneficiary redeems it once.

use vstd::prelude::*;
use crate::effects::{Event, Outcome, Transfer, auth_of, lemma_net_flow_one, net_flow};
use crate::state::{
    BountyEscrowContract, escrow_set, index_seq, lemma_escrow_set, push_index, total_remaining, with_progress, index_extended};
use crate::types::{Address, ClaimTicket, Error, EscrowStatus, PauseOperation};

verus! {

broadcast use vstd::std_specs::hash::group_hash_axioms;

/// The page of `s` that starts after skipping `offset` entries and holds at
/// most `limit` entries.
pub open spec fn page<T>(s: Seq<T>, offset: int, limit: int) -> Seq<T> {
    let start = if offset < s.len() { offset } else { s.len() as int };
    let end = if start + limit < s.len() { start + limit } else { s.len() as int };
    s.subrange(start, end)
}

/// The page of `s` that starts after skipping `offset` entries and holds at
/// most `limit` entries.
pub fn page_of(s: &Vec<u64>, offset: u32, limit: u32) -> (r: Vec<u64>)
    ensures
        r@ == page(s@, offset as int, limit as int),
{
    let len = s.len();
    let start: usize = if (offset as usize) < len { offset as usize } else { len };
    let end: usize = if (limit as usize) < len - start { start + limit as usize } else { len };
    let mut r: Vec<u64> = Vec::new();
    let mut i: usize = start;
    while i < end
        invariant
            start <= i <= end,
            end <= len,
            len == s@.len(),
            r@ == s@.subrange(start as int, i as int),
        decreases end - i,
    {
        r.push(s[i]);
        i = i + 1;
        proof {
            assert(s@.subrange(start as int, i as int) == s@.subrange(start as int, i - 1).push(s@[i - 1]));
        }
    }
    r
}

impl BountyEscrowContract {
    /// The error, if any, of issuing a ticket for `amount` of the escrow of
    /// `bounty_id` that expires at `expires_at`.
    pub open spec fn issue_ticket_error(&self, now: u64, bounty_id: u64, amount: i128, expires_at: u64) -> Option<Error> {
        if !self.initialized() {
            Some(Error::NotInitialized)
        } else if !self.has_escrow(bounty_id) {
            Some(Error::BountyNotFound)
        } else if self.escrow(bounty_id).status != EscrowStatus::Locked {
            Some(Error::FundsNotLocked)
        } else if amount <= 0 || amount > self.escrow(bounty_id).amount {
            Some(Error::InvalidAmount)
        } else if expires_at <= now {
            Some(Error::InvalidDeadline)
        } else {
            None
        }
    }

    /// Issues a single-use ticket (admin only) by which `beneficiary` can
    /// collect `amount` of the escrow of `bounty_id` until `expires_at`.
    /// Returns the ticket's identifier, one past the last one issued.
    pub fn issue_claim_ticket(&mut self, now: u64, bounty_id: u64, beneficiary: Address, amount: i128, expires_at: u64) -> (out: Outcome<u64>)
        requires
            old(self).wf(),
            old(self).issue_ticket_error(now, bounty_id, amount, expires_at) is None
                ==> old(self).tickets.ticket_counter < u64::MAX,
        ensures
            index_extended(*old(self), *final(self)),
            final(self).wf(),
            out.result is Ok <==> old(self).issue_ticket_error(now, bounty_id, amount, expires_at) is None,
            out.result matches Err(e) ==> old(self).issue_ticket_error(now, bounty_id, amount, expires_at) == Some(e),
            out.result is Err ==> *final(self) == *old(self),
            out.result is Err ==> out.transfers@.len() == 0 && out.events@.len() == 0,
            out.auths@ == (if old(self).initialized() { seq![old(self).config.admin->0] } else { Seq::<Address>::empty() }),
            out.transfers@.len() == 0,
            out.result is Ok ==> {
                let id = (old(self).tickets.ticket_counter + 1) as u64;
                let t = ClaimTicket { ticket_id: id, bounty_id, beneficiary, amount, expires_at, used: false, issued_at: now };
                &&& out.result == Ok::<u64, Error>(id)
                &&& final(self).tickets.ticket_counter == id
                &&& final(self).tickets.tickets@ == old(self).tickets.tickets@.insert(id, t)
                &&& final(self).tickets.ticket_index@ == old(self).tickets.ticket_index@.push(id)
                &&& final(self).tickets.beneficiary_tickets@.contains_key(beneficiary.id)
                &&& final(self).tickets.beneficiary_tickets@[beneficiary.id]@
                    == index_seq(old(self).tickets.beneficiary_tickets@, beneficiary.id).push(id)
                &&& final(self).tickets.beneficiary_tickets@.remove(beneficiary.id)
                    == old(self).tickets.beneficiary_tickets@.remove(beneficiary.id)
                &&& out.events@ == seq![Event::TicketIssued { ticket_id: id, bounty_id, beneficiary, amount, expires_at, issued_at: now }]
            },
            final(self).config == old(self).config,
            final(self).ledger == old(self).ledger,
            final(self).approvals == old(self).approvals,
            final(self).capabilities == old(self).capabilities,
            final(self).anti_abuse == old(self).anti_abuse,
            final(self).metrics == old(self).metrics,
    {
        let admin = match self.config.admin {
            Some(a) => a,
            None => {
                return Outcome::fail_early(Error::NotInitialized);
            },
        };
        let auths = auth_of(admin);
        match self.ledger.escrows.get(&bounty_id) {
            None => {
                return Outcome::fail(Error::BountyNotFound, auths);
            },
            Some(e) => {
                if e.status != EscrowStatus::Locked {
                    return Outcome::fail(Error::FundsNotLocked, auths);
                }
                if amount <= 0 || amount > e.amount {
                    return Outcome::fail(Error::InvalidAmount, auths);
                }
            },
        }
        if expires_at <= now {
            return Outcome::fail(Error::InvalidDeadline, auths);
        }
        let ticket_id = self.tickets.ticket_counter + 1;
        self.tickets.ticket_counter = ticket_id;
        let t = ClaimTicket { ticket_id, bounty_id, beneficiary, amount, expires_at, used: false, issued_at: now };
        self.tickets.tickets.insert(ticket_id, t);
        self.tickets.ticket_index.push(ticket_id);
        push_index(&mut self.tickets.beneficiary_tickets, beneficiary.id, ticket_id);
        let mut events = Vec::new();
        events.push(Event::TicketIssued { ticket_id, bounty_id, beneficiary, amount, expires_at, issued_at: now });
        Outcome { result: Ok(ticket_id), auths, transfers: Vec::new(), events }
    }

    /// The error, if any, of redeeming ticket `ticket_id` at `now`.
    pub open spec fn claim_ticket_error(&self, now: u64, ticket_id: u64) -> Option<Error> {
        if self.paused(PauseOperation::Release) {
            Some(Error::FundsPaused)
        } else if !self.tickets.tickets@.contains_key(ticket_id) {
            Some(Error::TicketNotFound)
        } else if self.tickets.tickets@[ticket_id].used {
            Some(Error::TicketAlreadyUsed)
        } else if now > self.tickets.tickets@[ticket_id].expires_at {
            Some(Error::TicketExpired)
        } else if !self.has_escrow(self.tickets.tickets@[ticket_id].bounty_id) {
            Some(Error::BountyNotFound)
        } else if self.escrow(self.tickets.tickets@[ticket_id].bounty_id).status != EscrowStatus::Locked {
            Some(Error::FundsNotLocked)
        } else if self.tickets.tickets@[ticket_id].amount > self.escrow(self.tickets.tickets@[ticket_id].bounty_id).remaining_amount {
            Some(Error::InsufficientFunds)
        } else {
            None
        }
    }

    /// The beneficiary redeems ticket `ticket_id`: the ticket's amount is paid
    /// to them out of what the escrow still holds, and the ticket is marked
    /// used. The escrow stays `Locked` while anything remains and becomes
    /// `Released` when nothing does.
    pub fn claim_with_ticket(&mut self, now: u64, ticket_id: u64) -> (out: Outcome<()>)
        requires
            old(self).wf(),
        ensures
            index_extended(*old(self), *final(self)),
            final(self).wf(),
            out.result is Ok <==> old(self).claim_ticket_error(now, ticket_id) is None,
            out.result matches Err(e) ==> old(self).claim_ticket_error(now, ticket_id) == Some(e),
            out.result is Err ==> *final(self) == *old(self),
            out.result is Err ==> out.transfers@.len() == 0 && out.events@.len() == 0,
            net_flow(out.transfers@) == total_remaining(final(self).ledger.escrows@) - total_remaining(old(self).ledger.escrows@),
            out.auths@ == (if !old(self).paused(PauseOperation::Release) && old(self).tickets.tickets@.contains_key(ticket_id)
                && !old(self).tickets.tickets@[ticket_id].used && now <= old(self).tickets.tickets@[ticket_id].expires_at {
                seq![old(self).tickets.tickets@[ticket_id].beneficiary]
            } else {
                Seq::<Address>::empty()
            }),
            out.result is Ok ==> {
                let t = old(self).tickets.tickets@[ticket_id];
                let e = old(self).escrow(t.bounty_id);
                let left = e.remaining_amount - t.amount;
                &&& escrow_set(old(self).ledger.escrows@, final(self).ledger.escrows@, t.bounty_id,
                    with_progress(e@, left as i128, if left == 0 { EscrowStatus::Released } else { EscrowStatus::Locked }))
                &&& final(self).tickets.tickets@ == old(self).tickets.tickets@.insert(ticket_id, ClaimTicket { used: true, ..t })
                &&& out.transfers@ == seq![Transfer::Payout { to: t.beneficiary, amount: t.amount }]
                &&& out.events@ == seq![Event::TicketClaimed {
                    ticket_id,
                    bounty_id: t.bounty_id,
                    beneficiary: t.beneficiary,
                    amount: t.amount,
                    claimed_at: now,
                }]
            },
            final(self).tickets.ticket_index == old(self).tickets.ticket_index,
            final(self).tickets.beneficiary_tickets == old(self).tickets.beneficiary_tickets,
            final(self).tickets.ticket_counter == old(self).tickets.ticket_counter,
            final(self).config == old(self).config,
            final(self).ledger.escrow_index == old(self).ledger.escrow_index,
            final(self).ledger.depositor_index == old(self).ledger.depositor_index,
            final(self).ledger.metadata == old(self).ledger.metadata,
            final(self).ledger.completed_at == old(self).ledger.completed_at,
            final(self).ledger.archived == old(self).ledger.archived,
            final(self).ledger.escrow_locks == old(self).ledger.escrow_locks,
            final(self).approvals == old(self).approvals,
            final(self).capabilities == old(self).capabilities,
            final(self).anti_abuse == old(self).anti_abuse,
            final(self).metrics == old(self).metrics,
    {
        if self.check_paused(PauseOperation::Release) {
            return Outcome::fail_early(Error::FundsPaused);
        }
        let t = match self.tickets.tickets.get(&ticket_id) {
            None => {
                return Outcome::fail_early(Error::TicketNotFound);
            },
            Some(t) => *t,
        };
        if t.used {
            return Outcome::fail_early(Error::TicketAlreadyUsed);
        }
        if now > t.expires_at {
            return Outcome::fail_early(Error::TicketExpired);
        }
        let auths = auth_of(t.beneficiary);
        match self.ledger.escrows.get(&t.bounty_id) {
            None => {
                return Outcome::fail(Error::BountyNotFound, auths);
            },
            Some(e) => {
                if e.status != EscrowStatus::Locked {
                    return Outcome::fail(Error::FundsNotLocked, auths);
                }
                if t.amount > e.remaining_amount {
                    return Outcome::fail(Error::InsufficientFunds, auths);
                }
            },
        }
        self.tickets.tickets.insert(ticket_id, ClaimTicket { used: true, ..t });
        let mut escrow = self.take_escrow(t.bounty_id);
        escrow.remaining_amount = escrow.remaining_amount - t.amount;
        if escrow.remaining_amount == 0 {
            escrow.status = EscrowStatus::Released;
        }
        self.ledger.escrows.insert(t.bounty_id, escrow);
        let mut transfers = Vec::new();
        transfers.push(Transfer::Payout { to: t.beneficiary, amount: t.amount });
        let mut events = Vec::new();
        events.push(Event::TicketClaimed {
            ticket_id,
            bounty_id: t.bounty_id,
            beneficiary: t.beneficiary,
            amount: t.amount,
            claimed_at: now,
        });
        proof {
            assert(final(self).ledger.escrows@.remove(t.bounty_id) =~= old(self).ledger.escrows@.remove(t.bounty_id));
            let e = old(self).escrow(t.bounty_id);
            let left = e.remaining_amount - t.amount;
            lemma_escrow_set(old(self).ledger.escrows@, final(self).ledger.escrows@, t.bounty_id,
                with_progress(e@, left as i128, if left == 0 { EscrowStatus::Released } else { EscrowStatus::Locked }));
            lemma_net_flow_one(Transfer::Payout { to: t.beneficiary, amount: t.amount });
        }
        Outcome { result: Ok(()), auths, transfers, events }
    }

    /// The ticket stored under `ticket_id`.
    pub fn get_claim_ticket(&self, ticket_id: u64) -> (r: Result<ClaimTicket, Error>)
        ensures
            self.tickets.tickets@.contains_key(ticket_id) ==> r == Ok::<ClaimTicket, Error>(self.tickets.tickets@[ticket_id]),
            !self.tickets.tickets@.contains_key(ticket_id) ==> r == Err::<ClaimTicket, Error>(Error::TicketNotFound),
    {
        match self.tickets.tickets.get(&ticket_id) {
            Some(t) => Ok(*t),
            None => Err(Error::TicketNotFound),
        }
    }

    /// A page of the identifiers of the tickets issued to `beneficiary`, in
    /// issue order: `offset` are skipped and at most `limit` returned.
    pub fn get_beneficiary_tickets(&self, beneficiary: Address, offset: u32, limit: u32) -> (r: Vec<u64>)
        ensures
            r@ == page(index_seq(self.tickets.beneficiary_tickets@, beneficiary.id), offset as int, limit as int),
    {
        match self.tickets.beneficiary_tickets.get(&beneficiary.id) {
            Some(v) => page_of(v, offset, limit),
            None => {
                let empty: Vec<u64> = Vec::new();
                let r = page_of(&empty, offset, limit);
                r
            },
        }
    }

    /// Whether ticket `ticket_id` can be redeemed at `now`, whether it has
    /// expired, and whether it was used; all false when there is no such ticket.
    pub fn verify_claim_ticket(&self, now: u64, ticket_id: u64) -> (r: (bool, bool, bool))
        ensures
            self.tickets.tickets@.contains_key(ticket_id) ==> {
                let t = self.tickets.tickets@[ticket_id];
                r == (now <= t.expires_at && !t.used, now > t.expires_at, t.used)
            },
            !self.tickets.tickets@.contains_key(ticket_id) ==> r == (false, false, false),
    {
        match self.tickets.tickets.get(&ticket_id) {
            Some(t) => {
                let is_expired = now > t.expires_at;
                let already_used = t.used;
                (!is_expired && !already_used, is_expired, already_used)
            },
            None => (false, false, false),
        }
    }
}

} // verus!
