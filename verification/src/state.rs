//! The spoke's persistent ledger state: configuration, nonce, per-intent
//! status, pending-intent queue and vault accounting.  Every operation runs
//! as one atomic transaction against a value of [`SpokeState`] held behind an
//! exclusive mutable reference.
use vstd::prelude::*;

verus! {

use crate::queue::IntentQueue;

/// Status attached to an intent id.  Once `Settled` or
/// `SettledAndManuallyExecuted`, no further transition or payout is
/// permitted.
#[derive(Clone, Copy, Debug, PartialEq, Eq, Structural)]
pub enum IntentStatus {
    Absent,
    Added,
    Filled,
    Settled,
    SettledAndManuallyExecuted,
}

impl IntentStatus {
    /// Whether this status is terminal for settlement purposes.
    pub open spec fn is_settled(self) -> bool {
        self == IntentStatus::Settled || self == IntentStatus::SettledAndManuallyExecuted
    }
}

/// One row of the intent status table.
#[derive(Clone, Debug)]
pub struct IntentStatusAccount {
    pub key: [u8; 32],
    pub status: IntentStatus,
}

/// Which kind of gas paymaster the ledger pays: a plain one, or an overhead
/// paymaster that wraps an inner one.  Either way the payload is its
/// identity.
#[derive(Clone, Copy, Debug)]
pub enum InterchainGasPaymasterType {
    Igp([u8; 32]),
    OverheadIgp([u8; 32]),
}

impl InterchainGasPaymasterType {
    /// The identity carried by either variant.
    pub open spec fn spec_key(self) -> [u8; 32] {
        match self {
            InterchainGasPaymasterType::Igp(key) => key,
            InterchainGasPaymasterType::OverheadIgp(key) => key,
        }
    }

    /// Returns the identity carried by either variant.
    pub fn key(&self) -> (r: &[u8; 32])
        ensures
            *r == self.spec_key(),
    {
        match self {
            InterchainGasPaymasterType::Igp(key) => key,
            InterchainGasPaymasterType::OverheadIgp(key) => key,
        }
    }
}

/// One vault accounting row: how much of `asset` is credited to `user`.
#[derive(Clone, Debug)]
pub struct BalanceEntry {
    pub asset: [u8; 32],
    pub user: [u8; 32],
    pub amount: u64,
}

/// The status the table assigns to `key`: the first matching row, or `Absent`
/// when no row matches.
pub open spec fn spec_status_of(entries: Seq<IntentStatusAccount>, key: Seq<u8>) -> IntentStatus
    decreases entries.len(),
{
    if entries.len() == 0 {
        IntentStatus::Absent
    } else if entries[0].key@ == key {
        entries[0].status
    } else {
        spec_status_of(entries.skip(1), key)
    }
}

/// Whether the table has a row for `key`.
pub open spec fn spec_has_status(entries: Seq<IntentStatusAccount>, key: Seq<u8>) -> bool
    decreases entries.len(),
{
    if entries.len() == 0 {
        false
    } else if entries[0].key@ == key {
        true
    } else {
        spec_has_status(entries.skip(1), key)
    }
}

/// The table after writing `st` into the first row matching `key`; a table
/// without such a row is unchanged.
pub open spec fn spec_set_status(
    entries: Seq<IntentStatusAccount>,
    key: Seq<u8>,
    st: IntentStatus,
) -> Seq<IntentStatusAccount>
    decreases entries.len(),
{
    if entries.len() == 0 {
        entries
    } else if entries[0].key@ == key {
        seq![IntentStatusAccount { key: entries[0].key, status: st }] + entries.skip(1)
    } else {
        seq![entries[0]] + spec_set_status(entries.skip(1), key, st)
    }
}

/// Writing a status and reading it back: the read sees the written status
/// when a row existed, and still sees `Absent` when none did.
pub proof fn lemma_set_then_get_status(
    entries: Seq<IntentStatusAccount>,
    key: Seq<u8>,
    st: IntentStatus,
)
    ensures
        spec_status_of(spec_set_status(entries, key, st), key) == (if spec_has_status(
            entries,
            key,
        ) {
            st
        } else {
            IntentStatus::Absent
        }),
        spec_has_status(spec_set_status(entries, key, st), key) == spec_has_status(entries, key),
    decreases entries.len(),
{
    if entries.len() == 0 {
    } else if entries[0].key@ == key {
        let changed = IntentStatusAccount { key: entries[0].key, status: st };
        let updated = seq![changed] + entries.skip(1);
        assert(updated[0] == changed);
    } else {
        lemma_set_then_get_status(entries.skip(1), key, st);
        let updated = seq![entries[0]] + spec_set_status(entries.skip(1), key, st);
        assert(updated[0] == entries[0]);
        assert(updated.skip(1) =~= spec_set_status(entries.skip(1), key, st));
    }
}

/// The balance the table assigns to `(asset, user)`: the first matching row,
/// or zero when no row matches.
pub open spec fn spec_balance_of(entries: Seq<BalanceEntry>, asset: Seq<u8>, user: Seq<u8>) -> u64
    decreases entries.len(),
{
    if entries.len() == 0 {
        0u64
    } else if entries[0].asset@ == asset && entries[0].user@ == user {
        entries[0].amount
    } else {
        spec_balance_of(entries.skip(1), asset, user)
    }
}

/// The table after writing `amount` into the first row matching
/// `(asset, user)`; a table without such a row is unchanged.
pub open spec fn spec_set_balance(
    entries: Seq<BalanceEntry>,
    asset: Seq<u8>,
    user: Seq<u8>,
    amount: u64,
) -> Seq<BalanceEntry>
    decreases entries.len(),
{
    if entries.len() == 0 {
        entries
    } else if entries[0].asset@ == asset && entries[0].user@ == user {
        seq![BalanceEntry { asset: entries[0].asset, user: entries[0].user, amount }] + entries.skip(
            1,
        )
    } else {
        seq![entries[0]] + spec_set_balance(entries.skip(1), asset, user, amount)
    }
}

/// The spoke's global state.
#[derive(Clone, Debug)]
pub struct SpokeState {
    /// Initializer version; zero until `initialize` ran.
    pub initialized_version: u8,
    /// Paused flag.
    pub paused: bool,
    /// This spoke's domain id.
    pub domain: u32,
    /// The hub's domain id.
    pub everclear: u32,
    /// The hub gateway identity that inbound messages must carry as sender.
    pub gateway: [u8; 32],
    /// Emergency-pause role.
    pub lighthouse: [u8; 32],
    /// Emergency-pause role.
    pub watchtower: [u8; 32],
    /// Address of the call executor collaborator.
    pub call_executor: [u8; 32],
    /// Address of the message receiver collaborator.
    pub message_receiver: [u8; 32],
    /// Gas limit handed to the relay for outbound messages.
    pub message_gas_limit: u64,
    /// Global nonce; each created intent takes the next value.
    pub nonce: u64,
    /// Owner of the ledger (admin).
    pub owner: [u8; 32],
    /// Per-intent status table.
    pub status: Vec<IntentStatusAccount>,
    /// Pending-intent FIFO queue.
    pub intent_queue: IntentQueue,
    /// Vault accounting.
    pub balances: Vec<BalanceEntry>,
    /// Whether configuration-update messages are applied while paused.
    pub allow_var_update_when_paused: bool,
    /// Bump seed of the state account.
    pub bump: u8,
    /// Address of the messaging relay's mailbox.
    pub mailbox: [u8; 32],
    /// Bump seed of the relay dispatch authority.
    pub mailbox_dispatch_authority_bump: u8,
    /// Address of the gas-payment sub-system.
    pub igp: [u8; 32],
    /// Which kind of gas paymaster `igp` is.
    pub igp_type: InterchainGasPaymasterType,
    /// Bump seed of the vault authority.
    pub vault_authority_bump: u8,
}

impl SpokeState {
    /// Internal consistency of the state: the queue counters agree with its
    /// contents.
    pub open spec fn wf(self) -> bool {
        self.intent_queue.wf()
    }

    /// `other` agrees with `self` everywhere but possibly the status table.
    pub open spec fn eq_except_status(self, other: SpokeState) -> bool {
        &&& other.initialized_version == self.initialized_version
        &&& other.paused == self.paused
        &&& other.domain == self.domain
        &&& other.everclear == self.everclear
        &&& other.gateway == self.gateway
        &&& other.lighthouse == self.lighthouse
        &&& other.watchtower == self.watchtower
        &&& other.call_executor == self.call_executor
        &&& other.message_receiver == self.message_receiver
        &&& other.message_gas_limit == self.message_gas_limit
        &&& other.nonce == self.nonce
        &&& other.owner == self.owner
        &&& other.intent_queue == self.intent_queue
        &&& other.balances == self.balances
        &&& other.allow_var_update_when_paused == self.allow_var_update_when_paused
        &&& other.bump == self.bump
        &&& other.mailbox == self.mailbox
        &&& other.mailbox_dispatch_authority_bump == self.mailbox_dispatch_authority_bump
        &&& other.igp == self.igp
        &&& other.igp_type == self.igp_type
        &&& other.vault_authority_bump == self.vault_authority_bump
    }

    /// `other` agrees with `self` everywhere but possibly the nonce, the
    /// status table and the intent queue: what creating an intent may touch.
    pub open spec fn eq_except_intent_creation(self, other: SpokeState) -> bool {
        &&& other.initialized_version == self.initialized_version
        &&& other.paused == self.paused
        &&& other.domain == self.domain
        &&& other.everclear == self.everclear
        &&& other.gateway == self.gateway
        &&& other.lighthouse == self.lighthouse
        &&& other.watchtower == self.watchtower
        &&& other.call_executor == self.call_executor
        &&& other.message_receiver == self.message_receiver
        &&& other.message_gas_limit == self.message_gas_limit
        &&& other.owner == self.owner
        &&& other.balances == self.balances
        &&& other.allow_var_update_when_paused == self.allow_var_update_when_paused
        &&& other.bump == self.bump
        &&& other.mailbox == self.mailbox
        &&& other.mailbox_dispatch_authority_bump == self.mailbox_dispatch_authority_bump
        &&& other.igp == self.igp
        &&& other.igp_type == self.igp_type
        &&& other.vault_authority_bump == self.vault_authority_bump
    }

    /// `other` agrees with `self` everywhere but possibly the vault
    /// accounting.
    pub open spec fn eq_except_balances(self, other: SpokeState) -> bool {
        &&& other.initialized_version == self.initialized_version
        &&& other.paused == self.paused
        &&& other.domain == self.domain
        &&& other.everclear == self.everclear
        &&& other.gateway == self.gateway
        &&& other.lighthouse == self.lighthouse
        &&& other.watchtower == self.watchtower
        &&& other.call_executor == self.call_executor
        &&& other.message_receiver == self.message_receiver
        &&& other.message_gas_limit == self.message_gas_limit
        &&& other.nonce == self.nonce
        &&& other.owner == self.owner
        &&& other.status == self.status
        &&& other.intent_queue == self.intent_queue
        &&& other.allow_var_update_when_paused == self.allow_var_update_when_paused
        &&& other.bump == self.bump
        &&& other.mailbox == self.mailbox
        &&& other.mailbox_dispatch_authority_bump == self.mailbox_dispatch_authority_bump
        &&& other.igp == self.igp
        &&& other.igp_type == self.igp_type
        &&& other.vault_authority_bump == self.vault_authority_bump
    }

    /// `other` agrees with `self` everywhere but possibly the intent queue.
    pub open spec fn eq_except_queue(self, other: SpokeState) -> bool {
        &&& other.initialized_version == self.initialized_version
        &&& other.paused == self.paused
        &&& other.domain == self.domain
        &&& other.everclear == self.everclear
        &&& other.gateway == self.gateway
        &&& other.lighthouse == self.lighthouse
        &&& other.watchtower == self.watchtower
        &&& other.call_executor == self.call_executor
        &&& other.message_receiver == self.message_receiver
        &&& other.message_gas_limit == self.message_gas_limit
        &&& other.nonce == self.nonce
        &&& other.owner == self.owner
        &&& other.status == self.status
        &&& other.balances == self.balances
        &&& other.allow_var_update_when_paused == self.allow_var_update_when_paused
        &&& other.bump == self.bump
        &&& other.mailbox == self.mailbox
        &&& other.mailbox_dispatch_authority_bump == self.mailbox_dispatch_authority_bump
        &&& other.igp == self.igp
        &&& other.igp_type == self.igp_type
        &&& other.vault_authority_bump == self.vault_authority_bump
    }

    /// `other` agrees with `self` everywhere but possibly the four
    /// identities an inbound configuration update may rewrite.
    pub open spec fn eq_except_config_targets(self, other: SpokeState) -> bool {
        &&& other.initialized_version == self.initialized_version
        &&& other.paused == self.paused
        &&& other.domain == self.domain
        &&& other.everclear == self.everclear
        &&& other.call_executor == self.call_executor
        &&& other.message_receiver == self.message_receiver
        &&& other.message_gas_limit == self.message_gas_limit
        &&& other.nonce == self.nonce
        &&& other.owner == self.owner
        &&& other.status == self.status
        &&& other.intent_queue == self.intent_queue
        &&& other.balances == self.balances
        &&& other.allow_var_update_when_paused == self.allow_var_update_when_paused
        &&& other.bump == self.bump
        &&& other.mailbox_dispatch_authority_bump == self.mailbox_dispatch_authority_bump
        &&& other.igp == self.igp
        &&& other.igp_type == self.igp_type
        &&& other.vault_authority_bump == self.vault_authority_bump
    }

    /// The status the ledger assigns to intent id `key`.
    pub open spec fn spec_status(self, key: Seq<u8>) -> IntentStatus {
        spec_status_of(self.status@, key)
    }

    /// Looks up the status of intent id `key`; ids without a row have status
    /// `Absent`.
    pub fn get_status(&self, key: &[u8; 32]) -> (r: IntentStatus)
        ensures
            r == self.spec_status(key@),
    {
        let n: usize = self.status.len();
        let mut i: usize = 0;
        proof {
            assert(self.status@.skip(0) =~= self.status@);
        }
        while i < n
            invariant
                i <= n,
                n == self.status@.len(),
                forall|j: int| 0 <= j < i ==> self.status@[j].key@ != key@,
                spec_status_of(self.status@, key@) == spec_status_of(self.status@.skip(i as int), key@),
            decreases n - i,
        {
            if crate::bytes::bytes32_eq(&self.status[i].key, key) {
                proof {
                    let rest = self.status@.skip(i as int);
                    assert(rest[0] == self.status@[i as int]);
                }
                return self.status[i].status;
            }
            proof {
                let rest = self.status@.skip(i as int);
                assert(rest[0] == self.status@[i as int]);
                assert(rest.skip(1) =~= self.status@.skip(i + 1));
            }
            i += 1;
        }
        proof {
            assert(self.status@.skip(n as int).len() == 0);
        }
        IntentStatus::Absent
    }
}

/// Writes `st` into the first status row matching `key`, leaving a table
/// without such a row unchanged.
pub fn set_status(entries: &mut Vec<IntentStatusAccount>, key: &[u8; 32], st: IntentStatus)
    ensures
        final(entries)@ == spec_set_status(old(entries)@, key@, st),
{
    let n: usize = entries.len();
    let mut i: usize = 0;
    while i < n
        invariant
            i <= n,
            n == entries@.len(),
            entries@ == old(entries)@,
            forall|j: int| 0 <= j < i ==> entries@[j].key@ != key@,
        decreases n - i,
    {
        if crate::bytes::bytes32_eq(&entries[i].key, key) {
            let row = IntentStatusAccount { key: entries[i].key, status: st };
            entries[i] = row;
            proof {
                lemma_set_status_at_first_match(old(entries)@, key@, st, i as int);
            }
            return ;
        }
        i += 1;
    }
    proof {
        lemma_set_status_no_match(entries@, key@, st);
    }
}

/// A table whose first `key` row stands at `i` is updated exactly there.
proof fn lemma_set_status_at_first_match(
    entries: Seq<IntentStatusAccount>,
    key: Seq<u8>,
    st: IntentStatus,
    i: int,
)
    requires
        0 <= i < entries.len(),
        entries[i].key@ == key,
        forall|j: int| 0 <= j < i ==> entries[j].key@ != key,
    ensures
        spec_set_status(entries, key, st) == entries.update(
            i,
            IntentStatusAccount { key: entries[i].key, status: st },
        ),
    decreases i,
{
    if i == 0 {
        let changed = IntentStatusAccount { key: entries[0].key, status: st };
        assert(spec_set_status(entries, key, st) =~= entries.update(0, changed));
    } else {
        assert(entries.skip(1)[i - 1] == entries[i]);
        assert(forall|j: int| 0 <= j < i - 1 ==> entries.skip(1)[j] == entries[j + 1]);
        lemma_set_status_at_first_match(entries.skip(1), key, st, i - 1);
        let changed = IntentStatusAccount { key: entries[i].key, status: st };
        assert(spec_set_status(entries, key, st) =~= entries.update(i, changed));
    }
}

/// A table without a `key` row is left unchanged by a status write.
proof fn lemma_set_status_no_match(entries: Seq<IntentStatusAccount>, key: Seq<u8>, st: IntentStatus)
    requires
        forall|j: int| 0 <= j < entries.len() ==> entries[j].key@ != key,
    ensures
        spec_set_status(entries, key, st) == entries,
    decreases entries.len(),
{
    if entries.len() > 0 {
        assert(forall|j: int| 0 <= j < entries.skip(1).len() ==> entries.skip(1)[j] == entries[j + 1]);
        lemma_set_status_no_match(entries.skip(1), key, st);
        assert(spec_set_status(entries, key, st) =~= entries);
    }
}

} // verus!
