//! Per-escrow controls: owner locks, archiving, cloning into templates,
//! approvals of large releases, and descriptive metadata.

use vstd::prelude::*;
use crate::anti_abuse::sat_add;
use crate::effects::{Event, Outcome, auth_of, net_flow};
use crate::pause::{clone_opt_string, opt_text};
use crate::state::{
    BountyEscrowContract, Config, default_auto_archive_config, escrow_set, index_seq, lemma_escrow_set, push_index,
    total_remaining, index_extended};
use crate::types::{
    Address, AutoArchiveConfig, Error, Escrow, EscrowLockState, EscrowMetadata, EscrowStatus, EscrowView,
    MultisigConfig, ReleaseApproval,
};

verus! {

broadcast use vstd::std_specs::hash::group_hash_axioms;

/// A copy of a list of addresses.
pub fn copy_addresses(v: &Vec<Address>) -> (r: Vec<Address>)
    ensures
        r@ == v@,
{
    let mut r: Vec<Address> = Vec::new();
    let mut i: usize = 0;
    while i < v.len()
        invariant
            i <= v.len(),
            r@ == v@.take(i as int),
        decreases v.len() - i,
    {
        r.push(v[i]);
        i = i + 1;
        proof {
            assert(v@.take(i as int) == v@.take((i - 1) as int).push(v@[i - 1]));
        }
    }
    proof {
        assert(v@.take(v@.len() as int) == v@);
    }
    r
}

/// Whether `a` occurs in `v`.
pub fn has_address(v: &Vec<Address>, a: Address) -> (b: bool)
    ensures
        b == v@.contains(a),
{
    let mut i: usize = 0;
    while i < v.len()
        invariant
            i <= v.len(),
            forall|j: int| 0 <= j < i ==> v@[j] != a,
        decreases v.len() - i,
    {
        if v[i] == a {
            return true;
        }
        i = i + 1;
    }
    false
}

impl BountyEscrowContract {
    /// The error, if any, of `caller` locking or unlocking the escrow of
    /// `bounty_id`: only its depositor and the admin may.
    pub open spec fn owner_lock_error(&self, bounty_id: u64, caller: Address) -> Option<Error> {
        if !self.has_escrow(bounty_id) {
            Some(Error::BountyNotFound)
        } else if caller != self.escrow(bounty_id).depositor && caller != self.config.admin->0 {
            Some(Error::Unauthorized)
        } else {
            None
        }
    }

    /// The escrow's depositor or the admin locks the escrow of `bounty_id`,
    /// blocking release and refund until it is unlocked or, when given,
    /// until `locked_until`.
    pub fn lock_escrow(&mut self, now: u64, bounty_id: u64, caller: Address, locked_until: Option<u64>, reason: Option<String>) -> (out: Outcome<()>)
        requires
            old(self).wf(),
        ensures
            index_extended(*old(self), *final(self)),
            final(self).wf(),
            out.result is Ok <==> old(self).owner_lock_error(bounty_id, caller) is None,
            out.result matches Err(e) ==> old(self).owner_lock_error(bounty_id, caller) == Some(e),
            out.result is Err ==> *final(self) == *old(self),
            out.result is Err ==> out.transfers@.len() == 0 && out.events@.len() == 0,
            out.auths@ == (if out.result is Ok { seq![caller] } else { Seq::<Address>::empty() }),
            out.transfers@.len() == 0,
            out.result is Ok ==> {
                &&& final(self).ledger.escrow_locks@.contains_key(bounty_id)
                &&& final(self).ledger.escrow_locks@.remove(bounty_id) == old(self).ledger.escrow_locks@.remove(bounty_id)
                &&& ({
                    let st = final(self).ledger.escrow_locks@[bounty_id];
                    st.locked && st.locked_until == locked_until && st.locked_by == caller
                        && opt_text(st.locked_reason) == opt_text(reason)
                })
                &&& out.events@.len() == 1
                &&& out.events@[0] matches Event::EscrowLocked { bounty_id: b, locked_by, locked_until: u, reason: r, timestamp }
                    && b == bounty_id && locked_by == caller && u == locked_until && opt_text(r) == opt_text(reason)
                    && timestamp == now
            },
            final(self).config == old(self).config,
            final(self).ledger.escrows == old(self).ledger.escrows,
            final(self).ledger.escrow_index == old(self).ledger.escrow_index,
            final(self).ledger.depositor_index == old(self).ledger.depositor_index,
            final(self).ledger.metadata == old(self).ledger.metadata,
            final(self).ledger.completed_at == old(self).ledger.completed_at,
            final(self).ledger.archived == old(self).ledger.archived,
            final(self).approvals == old(self).approvals,
            final(self).tickets == old(self).tickets,
            final(self).capabilities == old(self).capabilities,
            final(self).anti_abuse == old(self).anti_abuse,
            final(self).metrics == old(self).metrics,
    {
        let depositor = match self.ledger.escrows.get(&bounty_id) {
            None => {
                return Outcome::fail_early(Error::BountyNotFound);
            },
            Some(e) => e.depositor,
        };
        let admin = match self.config.admin {
            Some(a) => a,
            None => {
                proof {
                    assert(old(self).ledger.escrows@.contains_key(bounty_id));
                }
                return Outcome::fail_early(Error::NotInitialized);
            },
        };
        if caller != depositor && caller != admin {
            return Outcome::fail_early(Error::Unauthorized);
        }
        let st = EscrowLockState { locked: true, locked_until, locked_reason: clone_opt_string(&reason), locked_by: caller };
        self.ledger.escrow_locks.insert(bounty_id, st);
        let mut events = Vec::new();
        events.push(Event::EscrowLocked { bounty_id, locked_by: caller, locked_until, reason, timestamp: now });
        proof {
            assert(final(self).ledger.escrow_locks@.remove(bounty_id) =~= old(self).ledger.escrow_locks@.remove(bounty_id));
        }
        Outcome { result: Ok(()), auths: auth_of(caller), transfers: Vec::new(), events }
    }

    /// The escrow's depositor or the admin removes the lock on the escrow of
    /// `bounty_id`.
    pub fn unlock_escrow(&mut self, now: u64, bounty_id: u64, caller: Address) -> (out: Outcome<()>)
        requires
            old(self).wf(),
        ensures
            index_extended(*old(self), *final(self)),
            final(self).wf(),
            out.result is Ok <==> old(self).owner_lock_error(bounty_id, caller) is None,
            out.result matches Err(e) ==> old(self).owner_lock_error(bounty_id, caller) == Some(e),
            out.result is Err ==> *final(self) == *old(self),
            out.result is Err ==> out.transfers@.len() == 0 && out.events@.len() == 0,
            out.auths@ == (if out.result is Ok { seq![caller] } else { Seq::<Address>::empty() }),
            out.transfers@.len() == 0,
            out.result is Ok ==> final(self).ledger.escrow_locks@ == old(self).ledger.escrow_locks@.remove(bounty_id),
            out.result is Ok ==> out.events@ == seq![Event::EscrowUnlocked { bounty_id, unlocked_by: caller, timestamp: now }],
            final(self).config == old(self).config,
            final(self).ledger.escrows == old(self).ledger.escrows,
            final(self).ledger.escrow_index == old(self).ledger.escrow_index,
            final(self).ledger.depositor_index == old(self).ledger.depositor_index,
            final(self).ledger.metadata == old(self).ledger.metadata,
            final(self).ledger.completed_at == old(self).ledger.completed_at,
            final(self).ledger.archived == old(self).ledger.archived,
            final(self).approvals == old(self).approvals,
            final(self).tickets == old(self).tickets,
            final(self).capabilities == old(self).capabilities,
            final(self).anti_abuse == old(self).anti_abuse,
            final(self).metrics == old(self).metrics,
    {
        let depositor = match self.ledger.escrows.get(&bounty_id) {
            None => {
                return Outcome::fail_early(Error::BountyNotFound);
            },
            Some(e) => e.depositor,
        };
        let admin = match self.config.admin {
            Some(a) => a,
            None => {
                proof {
                    assert(old(self).ledger.escrows@.contains_key(bounty_id));
                }
                return Outcome::fail_early(Error::NotInitialized);
            },
        };
        if caller != depositor && caller != admin {
            return Outcome::fail_early(Error::Unauthorized);
        }
        self.ledger.escrow_locks.remove(&bounty_id);
        let mut events = Vec::new();
        events.push(Event::EscrowUnlocked { bounty_id, unlocked_by: caller, timestamp: now });
        Outcome { result: Ok(()), auths: auth_of(caller), transfers: Vec::new(), events }
    }

    /// The auto-archive policy in force (default: disabled, a cooldown of a day).
    pub fn get_auto_archive_config(&self) -> (c: AutoArchiveConfig)
        ensures
            c == (match self.config.auto_archive_config {
                Some(c) => c,
                None => default_auto_archive_config(),
            }),
    {
        match self.config.auto_archive_config {
            Some(c) => c,
            None => AutoArchiveConfig { enabled: false, cooldown_seconds: 86400 },
        }
    }

    /// Sets the auto-archive policy (admin only).
    pub fn set_auto_archive_config(&mut self, enabled: bool, cooldown_seconds: u64) -> (out: Outcome<()>)
        ensures
            index_extended(*old(self), *final(self)),
            out.result is Ok <==> old(self).initialized(),
            out.result matches Err(e) ==> e == Error::NotInitialized,
            out.auths@ == (if old(self).initialized() { seq![old(self).config.admin->0] } else { Seq::<Address>::empty() }),
            out.transfers@.len() == 0,
            out.events@.len() == 0,
            out.result is Err ==> *final(self) == *old(self),
            out.result is Err ==> out.transfers@.len() == 0 && out.events@.len() == 0,
            out.result is Ok ==> final(self).config == (Config {
                auto_archive_config: Some(AutoArchiveConfig { enabled, cooldown_seconds }),
                ..old(self).config
            }),
            final(self).same_but_settings(old(self)),
    {
        let admin = match self.config.admin {
            Some(a) => a,
            None => {
                return Outcome::fail_early(Error::NotInitialized);
            },
        };
        self.config.auto_archive_config = Some(AutoArchiveConfig { enabled, cooldown_seconds });
        Outcome { result: Ok(()), auths: auth_of(admin), transfers: Vec::new(), events: Vec::new() }
    }

    /// When the escrow of `bounty_id` reached a terminal state, 0 if it did not.
    pub open spec fn completion_time(&self, bounty_id: u64) -> u64 {
        if self.ledger.completed_at@.contains_key(bounty_id) { self.ledger.completed_at@[bounty_id] } else { 0 }
    }

    /// Whether the escrow of `bounty_id` is marked archived.
    pub open spec fn is_archived(&self, bounty_id: u64) -> bool {
        self.ledger.archived@.contains_key(bounty_id) && self.ledger.archived@[bounty_id]
    }

    /// The error, if any, of archiving the escrow of `bounty_id` at `now`.
    pub open spec fn archive_error(&self, now: u64, bounty_id: u64) -> Option<Error> {
        let cfg = match self.config.auto_archive_config { Some(c) => c, None => default_auto_archive_config() };
        if !self.initialized() {
            Some(Error::NotInitialized)
        } else if !self.has_escrow(bounty_id) {
            Some(Error::BountyNotFound)
        } else if self.is_archived(bounty_id) {
            None
        } else if self.completion_time(bounty_id) == 0 {
            Some(Error::ArchiveCooldownNotElapsed)
        } else if cfg.enabled && now < sat_add(self.completion_time(bounty_id), cfg.cooldown_seconds) {
            Some(Error::ArchiveCooldownNotElapsed)
        } else {
            None
        }
    }

    /// Marks the escrow of `bounty_id` archived (admin only) once it has
    /// reached a terminal state and, when auto-archive is enabled, its
    /// cooldown has elapsed. Archiving an archived escrow changes nothing.
    pub fn archive_escrow(&mut self, now: u64, bounty_id: u64) -> (out: Outcome<()>)
        requires
            old(self).wf(),
        ensures
            index_extended(*old(self), *final(self)),
            final(self).wf(),
            out.result is Ok <==> old(self).archive_error(now, bounty_id) is None,
            out.result matches Err(e) ==> old(self).archive_error(now, bounty_id) == Some(e),
            out.result is Err ==> *final(self) == *old(self),
            out.result is Err ==> out.transfers@.len() == 0 && out.events@.len() == 0,
            out.auths@ == (if old(self).initialized() { seq![old(self).config.admin->0] } else { Seq::<Address>::empty() }),
            out.transfers@.len() == 0,
            out.result is Ok && old(self).is_archived(bounty_id) ==> *final(self) == *old(self) && out.events@.len() == 0,
            out.result is Ok && !old(self).is_archived(bounty_id) ==> {
                &&& final(self).ledger.archived@ == old(self).ledger.archived@.insert(bounty_id, true)
                &&& out.events@ == seq![Event::EscrowArchived {
                    bounty_id,
                    released: old(self).escrow(bounty_id).status == EscrowStatus::Released,
                    archived_at: now,
                }]
            },
            final(self).config == old(self).config,
            final(self).ledger.escrows == old(self).ledger.escrows,
            final(self).ledger.escrow_index == old(self).ledger.escrow_index,
            final(self).ledger.depositor_index == old(self).ledger.depositor_index,
            final(self).ledger.metadata == old(self).ledger.metadata,
            final(self).ledger.completed_at == old(self).ledger.completed_at,
            final(self).ledger.escrow_locks == old(self).ledger.escrow_locks,
            final(self).approvals == old(self).approvals,
            final(self).tickets == old(self).tickets,
            final(self).capabilities == old(self).capabilities,
            final(self).anti_abuse == old(self).anti_abuse,
            final(self).metrics == old(self).metrics,
    {
        let admin = match self.config.admin {
            Some(a) => a,
            None => {
                return Outcome::fail_early(Error::NotInitialized);
            },
        };
        let auths = auth_of(admin);
        let released = match self.ledger.escrows.get(&bounty_id) {
            None => {
                return Outcome::fail(Error::BountyNotFound, auths);
            },
            Some(e) => e.status == EscrowStatus::Released,
        };
        let already = match self.ledger.archived.get(&bounty_id) {
            Some(b) => *b,
            None => false,
        };
        if already {
            return Outcome { result: Ok(()), auths, transfers: Vec::new(), events: Vec::new() };
        }
        let completed_at = match self.ledger.completed_at.get(&bounty_id) {
            Some(t) => *t,
            None => 0,
        };
        if completed_at == 0 {
            return Outcome::fail(Error::ArchiveCooldownNotElapsed, auths);
        }
        let cfg = self.get_auto_archive_config();
        if cfg.enabled && now < completed_at.saturating_add(cfg.cooldown_seconds) {
            return Outcome::fail(Error::ArchiveCooldownNotElapsed, auths);
        }
        self.ledger.archived.insert(bounty_id, true);
        let mut events = Vec::new();
        events.push(Event::EscrowArchived { bounty_id, released, archived_at: now });
        Outcome { result: Ok(()), auths, transfers: Vec::new(), events }
    }

    /// The error, if any, of cloning the escrow of `source_bounty_id` into
    /// `new_bounty_id`.
    pub open spec fn clone_error(&self, source_bounty_id: u64, new_bounty_id: u64) -> Option<Error> {
        if !self.has_escrow(source_bounty_id) {
            Some(Error::CloneSourceNotFound)
        } else if self.has_escrow(new_bounty_id) {
            Some(Error::BountyExists)
        } else {
            None
        }
    }

    /// The value of a template cloned from `source` for `new_depositor`.
    pub open spec fn template_view(&self, source_bounty_id: u64, new_depositor: Address) -> EscrowView {
        EscrowView {
            depositor: new_depositor,
            amount: 0,
            remaining_amount: 0,
            status: EscrowStatus::Template,
            deadline: self.escrow(source_bounty_id).deadline,
            refund_history: Seq::empty(),
        }
    }

    /// Creates, for `new_depositor`, an empty `Template` escrow under
    /// `new_bounty_id` with the deadline of the escrow of `source_bounty_id`;
    /// the new depositor fills it by locking funds into it. Returns the new
    /// identifier.
    pub fn clone_escrow(&mut self, now: u64, source_bounty_id: u64, new_bounty_id: u64, new_depositor: Address) -> (out: Outcome<u64>)
        requires
            old(self).wf(),
        ensures
            index_extended(*old(self), *final(self)),
            final(self).wf(),
            out.result is Ok <==> old(self).clone_error(source_bounty_id, new_bounty_id) is None,
            out.result matches Err(e) ==> old(self).clone_error(source_bounty_id, new_bounty_id) == Some(e),
            out.result is Err ==> *final(self) == *old(self),
            out.result is Err ==> out.transfers@.len() == 0 && out.events@.len() == 0,
            out.auths@ == seq![new_depositor],
            out.transfers@.len() == 0,
            net_flow(out.transfers@) == total_remaining(final(self).ledger.escrows@) - total_remaining(old(self).ledger.escrows@),
            out.result is Ok ==> {
                &&& out.result == Ok::<u64, Error>(new_bounty_id)
                &&& escrow_set(old(self).ledger.escrows@, final(self).ledger.escrows@, new_bounty_id,
                    old(self).template_view(source_bounty_id, new_depositor))
                &&& final(self).ledger.escrow_index@ == old(self).ledger.escrow_index@.push(new_bounty_id)
                &&& final(self).ledger.depositor_index@.contains_key(new_depositor.id)
                &&& final(self).ledger.depositor_index@[new_depositor.id]@
                    == index_seq(old(self).ledger.depositor_index@, new_depositor.id).push(new_bounty_id)
                &&& final(self).ledger.depositor_index@.remove(new_depositor.id)
                    == old(self).ledger.depositor_index@.remove(new_depositor.id)
                &&& out.events@ == seq![Event::EscrowCloned {
                    source_bounty_id,
                    new_bounty_id,
                    new_owner: new_depositor,
                    timestamp: now,
                }]
            },
            final(self).config == old(self).config,
            final(self).ledger.metadata == old(self).ledger.metadata,
            final(self).ledger.completed_at == old(self).ledger.completed_at,
            final(self).ledger.archived == old(self).ledger.archived,
            final(self).ledger.escrow_locks == old(self).ledger.escrow_locks,
            final(self).approvals == old(self).approvals,
            final(self).tickets == old(self).tickets,
            final(self).capabilities == old(self).capabilities,
            final(self).anti_abuse == old(self).anti_abuse,
            final(self).metrics == old(self).metrics,
    {
        let auths = auth_of(new_depositor);
        let deadline = match self.ledger.escrows.get(&source_bounty_id) {
            None => {
                return Outcome::fail(Error::CloneSourceNotFound, auths);
            },
            Some(e) => e.deadline,
        };
        if self.ledger.escrows.contains_key(&new_bounty_id) {
            return Outcome::fail(Error::BountyExists, auths);
        }
        let template = Escrow {
            depositor: new_depositor,
            amount: 0,
            remaining_amount: 0,
            status: EscrowStatus::Template,
            deadline,
            refund_history: Vec::new(),
        };
        self.ledger.escrows.insert(new_bounty_id, template);
        self.ledger.escrow_index.push(new_bounty_id);
        push_index(&mut self.ledger.depositor_index, new_depositor.id, new_bounty_id);
        let mut events = Vec::new();
        events.push(Event::EscrowCloned { source_bounty_id, new_bounty_id, new_owner: new_depositor, timestamp: now });
        proof {
            assert(final(self).ledger.escrows@.remove(new_bounty_id) =~= old(self).ledger.escrows@.remove(new_bounty_id));
            assert(old(self).ledger.escrows@.contains_key(source_bounty_id));
            lemma_escrow_set(old(self).ledger.escrows@, final(self).ledger.escrows@, new_bounty_id,
                old(self).template_view(source_bounty_id, new_depositor));
        }
        Outcome { result: Ok(new_bounty_id), auths, transfers: Vec::new(), events }
    }

    /// Sets the multisignature policy (admin only); it may not require more
    /// signatures than it has signers.
    pub fn update_multisig_config(&mut self, threshold_amount: i128, signers: Vec<Address>, required_signatures: u32) -> (out: Outcome<()>)
        ensures
            index_extended(*old(self), *final(self)),
            !old(self).initialized() ==> out.result == Err::<(), Error>(Error::NotInitialized),
            old(self).initialized() && required_signatures > signers@.len() ==> out.result == Err::<(), Error>(Error::InvalidAmount),
            out.result is Ok <==> old(self).initialized() && required_signatures <= signers@.len(),
            out.result is Err ==> *final(self) == *old(self),
            out.result is Err ==> out.transfers@.len() == 0 && out.events@.len() == 0,
            out.auths@ == (if old(self).initialized() { seq![old(self).config.admin->0] } else { Seq::<Address>::empty() }),
            out.transfers@.len() == 0,
            out.events@.len() == 0,
            out.result is Ok ==> {
                &&& final(self).config.multisig_config matches Some(m) && m.threshold_amount == threshold_amount
                    && m.signers@ == signers@ && m.required_signatures == required_signatures
                &&& final(self).config == (Config { multisig_config: final(self).config.multisig_config, ..old(self).config })
            },
            final(self).same_but_settings(old(self)),
    {
        let admin = match self.config.admin {
            Some(a) => a,
            None => {
                return Outcome::fail_early(Error::NotInitialized);
            },
        };
        let auths = auth_of(admin);
        if required_signatures as usize > signers.len() {
            return Outcome::fail(Error::InvalidAmount, auths);
        }
        self.config.multisig_config = Some(MultisigConfig { threshold_amount, signers, required_signatures });
        Outcome { result: Ok(()), auths, transfers: Vec::new(), events: Vec::new() }
    }

    /// The multisignature policy in force (default: no threshold, no signers).
    pub fn get_multisig_config(&self) -> (m: MultisigConfig)
        ensures
            self.config.multisig_config matches Some(c) ==> m.threshold_amount == c.threshold_amount
                && m.signers@ == c.signers@ && m.required_signatures == c.required_signatures,
            self.config.multisig_config is None ==> m.threshold_amount == i128::MAX && m.signers@.len() == 0
                && m.required_signatures == 0,
    {
        match &self.config.multisig_config {
            Some(c) => MultisigConfig {
                threshold_amount: c.threshold_amount,
                signers: copy_addresses(&c.signers),
                required_signatures: c.required_signatures,
            },
            None => MultisigConfig { threshold_amount: i128::MAX, signers: Vec::new(), required_signatures: 0 },
        }
    }

    /// The signers of the multisignature policy in force.
    pub open spec fn signers(&self) -> Seq<Address> {
        match self.config.multisig_config {
            Some(c) => c.signers@,
            None => Seq::empty(),
        }
    }

    /// The approvals recorded for a release of `bounty_id`.
    pub open spec fn approvers(&self, bounty_id: u64) -> Seq<Address> {
        if self.approvals.release_approvals@.contains_key(bounty_id) {
            self.approvals.release_approvals@[bounty_id].approvals@
        } else {
            Seq::empty()
        }
    }

    /// A signer approves the release of `bounty_id` to `contributor`;
    /// approving twice changes nothing. The contributor of a release already
    /// being approved is kept.
    pub fn approve_large_release(&mut self, now: u64, bounty_id: u64, contributor: Address, approver: Address) -> (out: Outcome<()>)
        ensures
            index_extended(*old(self), *final(self)),
            !old(self).initialized() ==> out.result == Err::<(), Error>(Error::NotInitialized),
            old(self).initialized() && !old(self).signers().contains(approver) ==> out.result == Err::<(), Error>(Error::Unauthorized),
            out.result is Ok <==> old(self).initialized() && old(self).signers().contains(approver),
            out.result is Err ==> *final(self) == *old(self),
            out.result is Err ==> out.transfers@.len() == 0 && out.events@.len() == 0,
            out.auths@ == (if out.result is Ok { seq![approver] } else { Seq::<Address>::empty() }),
            out.transfers@.len() == 0,
            out.result is Ok && old(self).approvers(bounty_id).contains(approver) ==> *final(self) == *old(self) && out.events@.len() == 0,
            out.result is Ok && !old(self).approvers(bounty_id).contains(approver) ==> {
                &&& final(self).approvals.release_approvals@.contains_key(bounty_id)
                &&& final(self).approvals.release_approvals@.remove(bounty_id) == old(self).approvals.release_approvals@.remove(bounty_id)
                &&& final(self).approvers(bounty_id) == old(self).approvers(bounty_id).push(approver)
                &&& final(self).approvals.release_approvals@[bounty_id].bounty_id == (
                    if old(self).approvals.release_approvals@.contains_key(bounty_id) {
                        old(self).approvals.release_approvals@[bounty_id].bounty_id
                    } else {
                        bounty_id
                    })
                &&& final(self).approvals.release_approvals@[bounty_id].contributor == (
                    if old(self).approvals.release_approvals@.contains_key(bounty_id) {
                        old(self).approvals.release_approvals@[bounty_id].contributor
                    } else {
                        contributor
                    })
                &&& out.events@ == seq![Event::ApprovalAdded { bounty_id, contributor, approver, timestamp: now }]
            },
            final(self).approvals.refund_approvals == old(self).approvals.refund_approvals,
            final(self).approvals.pending_claims == old(self).approvals.pending_claims,
            final(self).config == old(self).config,
            final(self).ledger == old(self).ledger,
            final(self).tickets == old(self).tickets,
            final(self).capabilities == old(self).capabilities,
            final(self).anti_abuse == old(self).anti_abuse,
            final(self).metrics == old(self).metrics,
    {
        if self.config.admin.is_none() {
            return Outcome::fail_early(Error::NotInitialized);
        }
        let is_signer = match &self.config.multisig_config {
            Some(c) => has_address(&c.signers, approver),
            None => false,
        };
        if !is_signer {
            return Outcome::fail_early(Error::Unauthorized);
        }
        let auths = auth_of(approver);
        let already = match self.approvals.release_approvals.get(&bounty_id) {
            Some(a) => has_address(&a.approvals, approver),
            None => false,
        };
        if already {
            return Outcome { result: Ok(()), auths, transfers: Vec::new(), events: Vec::new() };
        }
        let mut approval = match self.approvals.release_approvals.remove(&bounty_id) {
            Some(a) => a,
            None => ReleaseApproval { bounty_id, contributor, approvals: Vec::new() },
        };
        approval.approvals.push(approver);
        self.approvals.release_approvals.insert(bounty_id, approval);
        let mut events = Vec::new();
        events.push(Event::ApprovalAdded { bounty_id, contributor, approver, timestamp: now });
        proof {
            assert(final(self).approvals.release_approvals@.remove(bounty_id) =~= old(self).approvals.release_approvals@.remove(bounty_id));
        }
        Outcome { result: Ok(()), auths, transfers: Vec::new(), events }
    }

    /// The error, if any, of `caller` setting the amount policy.
    pub open spec fn amount_policy_error(&self, caller: Address) -> Option<Error> {
        if !self.initialized() {
            Some(Error::NotInitialized)
        } else if caller != self.config.admin->0 {
            Some(Error::Unauthorized)
        } else {
            None
        }
    }

    /// The admin restricts future lock amounts to `[min_amount, max_amount]`.
    pub fn set_amount_policy(&mut self, caller: Address, min_amount: i128, max_amount: i128) -> (out: Outcome<()>)
        requires
            old(self).amount_policy_error(caller) is None ==> min_amount <= max_amount,
        ensures
            index_extended(*old(self), *final(self)),
            out.result is Ok <==> old(self).amount_policy_error(caller) is None,
            out.result matches Err(e) ==> old(self).amount_policy_error(caller) == Some(e),
            out.result is Err ==> *final(self) == *old(self),
            out.result is Err ==> out.transfers@.len() == 0 && out.events@.len() == 0,
            out.auths@ == (if out.result is Ok { seq![caller] } else { Seq::<Address>::empty() }),
            out.transfers@.len() == 0,
            out.events@.len() == 0,
            out.result is Ok ==> final(self).config == (Config { amount_policy: Some((min_amount, max_amount)), ..old(self).config }),
            final(self).same_but_settings(old(self)),
    {
        let admin = match self.config.admin {
            Some(a) => a,
            None => {
                return Outcome::fail_early(Error::NotInitialized);
            },
        };
        if caller != admin {
            return Outcome::fail_early(Error::Unauthorized);
        }
        self.config.amount_policy = Some((min_amount, max_amount));
        Outcome { result: Ok(()), auths: auth_of(admin), transfers: Vec::new(), events: Vec::new() }
    }

    /// Stores descriptive tags for the escrow of `bounty_id` (admin only);
    /// the escrow need not exist.
    pub fn update_metadata(&mut self, admin: Address, bounty_id: u64, repo_id: u64, issue_id: u64, bounty_type: String) -> (out: Outcome<()>)
        ensures
            index_extended(*old(self), *final(self)),
            out.result is Ok <==> old(self).initialized(),
            out.result matches Err(e) ==> e == Error::NotInitialized,
            out.result is Err ==> *final(self) == *old(self),
            out.result is Err ==> out.transfers@.len() == 0 && out.events@.len() == 0,
            out.auths@ == (if old(self).initialized() { seq![old(self).config.admin->0] } else { Seq::<Address>::empty() }),
            out.transfers@.len() == 0,
            out.events@.len() == 0,
            out.result is Ok ==> {
                &&& final(self).ledger.metadata@.contains_key(bounty_id)
                &&& final(self).ledger.metadata@.remove(bounty_id) == old(self).ledger.metadata@.remove(bounty_id)
                &&& ({
                    let m = final(self).ledger.metadata@[bounty_id];
                    m.repo_id == repo_id && m.issue_id == issue_id && m.bounty_type@ == bounty_type@
                })
            },
            final(self).config == old(self).config,
            final(self).ledger.escrows == old(self).ledger.escrows,
            final(self).ledger.escrow_index == old(self).ledger.escrow_index,
            final(self).ledger.depositor_index == old(self).ledger.depositor_index,
            final(self).ledger.completed_at == old(self).ledger.completed_at,
            final(self).ledger.archived == old(self).ledger.archived,
            final(self).ledger.escrow_locks == old(self).ledger.escrow_locks,
            final(self).approvals == old(self).approvals,
            final(self).tickets == old(self).tickets,
            final(self).capabilities == old(self).capabilities,
            final(self).anti_abuse == old(self).anti_abuse,
            final(self).metrics == old(self).metrics,
    {
        let _ = admin;
        let stored = match self.config.admin {
            Some(a) => a,
            None => {
                return Outcome::fail_early(Error::NotInitialized);
            },
        };
        self.ledger.metadata.insert(bounty_id, EscrowMetadata { repo_id, issue_id, bounty_type });
        proof {
            assert(final(self).ledger.metadata@.remove(bounty_id) =~= old(self).ledger.metadata@.remove(bounty_id));
        }
        Outcome { result: Ok(()), auths: auth_of(stored), transfers: Vec::new(), events: Vec::new() }
    }

    /// The descriptive tags of the escrow of `bounty_id`.
    pub fn get_metadata(&self, bounty_id: u64) -> (r: Result<EscrowMetadata, Error>)
        ensures
            self.ledger.metadata@.contains_key(bounty_id) ==> (r matches Ok(m) && m.repo_id == self.ledger.metadata@[bounty_id].repo_id
                && m.issue_id == self.ledger.metadata@[bounty_id].issue_id
                && m.bounty_type@ == self.ledger.metadata@[bounty_id].bounty_type@),
            !self.ledger.metadata@.contains_key(bounty_id) ==> r == Err::<EscrowMetadata, Error>(Error::BountyNotFound),
    {
        match self.ledger.metadata.get(&bounty_id) {
            Some(m) => Ok(EscrowMetadata { repo_id: m.repo_id, issue_id: m.issue_id, bounty_type: m.bounty_type.clone() }),
            None => Err(Error::BountyNotFound),
        }
    }

    /// The chain identifier recorded at initialization, if any.
    pub fn get_chain_id(&self) -> (r: Option<String>)
        ensures
            opt_text(r) == opt_text(self.config.chain_id),
    {
        clone_opt_string(&self.config.chain_id)
    }

    /// The network identifier recorded at initialization, if any.
    pub fn get_network_id(&self) -> (r: Option<String>)
        ensures
            opt_text(r) == opt_text(self.config.network_id),
    {
        clone_opt_string(&self.config.network_id)
    }

    /// The chain and network identifiers recorded at initialization.
    pub fn get_network_info(&self) -> (r: (Option<String>, Option<String>))
        ensures
            opt_text(r.0) == opt_text(self.config.chain_id),
            opt_text(r.1) == opt_text(self.config.network_id),
    {
        (clone_opt_string(&self.config.chain_id), clone_opt_string(&self.config.network_id))
    }
}

} // verus!
