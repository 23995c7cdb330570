//! Administrative operations: one-time initialization, pausing, owner-gated
//! configuration updates, and vault withdrawal.
use vstd::prelude::*;

verus! {

use crate::bytes::bytes32_eq;
use crate::errors::SpokeError;
use crate::events::{
    InitializedEvent, LighthouseUpdatedEvent, MailboxDispatchAuthorityBumpUpdatedEvent,
    MailboxUpdatedEvent, MessageGasLimitUpdatedEvent, IgpUpdatedEvent, PausedEvent, UnpausedEvent,
    VaultAuthorityBumpUpdatedEvent, WatchtowerUpdatedEvent, WithdrawnEvent,
};
use crate::new_intent::{spec_zero_id, zero_id};
use crate::queue::IntentQueue;
use crate::state::{
    spec_balance_of, spec_set_balance, BalanceEntry, InterchainGasPaymasterType, SpokeState,
};

/// Everything `initialize` writes into a fresh ledger state.
#[derive(Clone, Debug)]
pub struct SpokeInitializationParams {
    pub domain: u32,
    pub hub_domain: u32,
    pub lighthouse: [u8; 32],
    pub watchtower: [u8; 32],
    pub call_executor: [u8; 32],
    pub message_receiver: [u8; 32],
    pub message_gas_limit: u64,
    pub owner: [u8; 32],
    pub mailbox: [u8; 32],
    pub igp: [u8; 32],
    pub igp_type: InterchainGasPaymasterType,
    pub mailbox_dispatch_authority_bump: u8,
    pub allow_var_update_when_paused: bool,
}

/// Initializes the ledger state once.  A zero owner is rejected; a state
/// already initialized is left unchanged.  The hub gateway identity starts
/// at its built-in default; an inbound configuration update may change it.
pub fn initialize(state: &mut SpokeState, init: &SpokeInitializationParams, bump: u8) -> (r: Result<
    InitializedEvent,
    SpokeError,
>)
    requires
        old(state).wf(),
    ensures
        final(state).wf(),
        match r {
            Err(e) => {
                &&& *final(state) == *old(state)
                &&& (e == SpokeError::InvalidOwner || e == SpokeError::AlreadyInitialized)
                &&& (e == SpokeError::InvalidOwner <==> init.owner@ == spec_zero_id())
                &&& (e == SpokeError::AlreadyInitialized <==> init.owner@ != spec_zero_id() && old(
                    state,
                ).initialized_version != 0)
            },
            Ok(ev) => {
                &&& init.owner@ != spec_zero_id()
                &&& old(state).initialized_version == 0
                &&& final(state).initialized_version == 1
                &&& final(state).paused == false
                &&& final(state).domain == init.domain
                &&& final(state).everclear == init.hub_domain
                &&& final(state).gateway == crate::EVERCLEAR_GATEWAY_BYTES
                &&& final(state).lighthouse == init.lighthouse
                &&& final(state).watchtower == init.watchtower
                &&& final(state).call_executor == init.call_executor
                &&& final(state).message_receiver == init.message_receiver
                &&& final(state).message_gas_limit == init.message_gas_limit
                &&& final(state).nonce == 0
                &&& final(state).owner == init.owner
                &&& final(state).status@.len() == 0
                &&& final(state).intent_queue.items@.len() == 0
                &&& final(state).intent_queue.first_index == 0
                &&& final(state).intent_queue.last_index == 0
                &&& final(state).balances@.len() == 0
                &&& final(state).allow_var_update_when_paused
                    == init.allow_var_update_when_paused
                &&& final(state).bump == bump
                &&& final(state).mailbox == init.mailbox
                &&& final(state).mailbox_dispatch_authority_bump
                    == init.mailbox_dispatch_authority_bump
                &&& final(state).igp == init.igp
                &&& final(state).igp_type == init.igp_type
                &&& final(state).vault_authority_bump == old(state).vault_authority_bump
                &&& ev.owner == init.owner
                &&& ev.domain == init.domain
                &&& ev.everclear == init.hub_domain
            },
        },
{
    let zero = zero_id();
    if bytes32_eq(&init.owner, &zero) {
        return Err(SpokeError::InvalidOwner);
    }
    if state.initialized_version != 0 {
        return Err(SpokeError::AlreadyInitialized);
    }
    state.initialized_version = 1;
    state.paused = false;
    state.domain = init.domain;
    state.everclear = init.hub_domain;
    state.gateway = crate::everclear_gateway();
    state.lighthouse = init.lighthouse;
    state.watchtower = init.watchtower;
    state.call_executor = init.call_executor;
    state.message_receiver = init.message_receiver;
    state.message_gas_limit = init.message_gas_limit;
    state.nonce = 0;
    state.owner = init.owner;
    state.status = Vec::new();
    state.intent_queue = IntentQueue::new();
    state.balances = Vec::new();
    state.allow_var_update_when_paused = init.allow_var_update_when_paused;
    state.bump = bump;
    state.mailbox = init.mailbox;
    state.mailbox_dispatch_authority_bump = init.mailbox_dispatch_authority_bump;
    state.igp = init.igp;
    state.igp_type = init.igp_type;
    Ok(InitializedEvent { owner: init.owner, domain: init.domain, everclear: init.hub_domain })
}

/// Whether `caller` may pause or unpause: only the lighthouse or the
/// watchtower role.
pub open spec fn spec_may_pause(state: SpokeState, caller: Seq<u8>) -> bool {
    caller == state.lighthouse@ || caller == state.watchtower@
}

/// Pauses the ledger.  Only the lighthouse or watchtower role may.
pub fn pause(state: &mut SpokeState, caller: &[u8; 32]) -> (r: Result<PausedEvent, SpokeError>)
    ensures
        match r {
            Err(e) => *final(state) == *old(state) && e == SpokeError::NotAuthorizedToPause
                && !spec_may_pause(*old(state), caller@),
            Ok(_) => spec_may_pause(*old(state), caller@) && *final(state) == SpokeState {
                paused: true,
                ..*old(state)
            },
        },
{
    if !(bytes32_eq(caller, &state.lighthouse) || bytes32_eq(caller, &state.watchtower)) {
        return Err(SpokeError::NotAuthorizedToPause);
    }
    state.paused = true;
    Ok(PausedEvent {  })
}

/// Unpauses the ledger.  Only the lighthouse or watchtower role may.
pub fn unpause(state: &mut SpokeState, caller: &[u8; 32]) -> (r: Result<UnpausedEvent, SpokeError>)
    ensures
        match r {
            Err(e) => *final(state) == *old(state) && e == SpokeError::NotAuthorizedToPause
                && !spec_may_pause(*old(state), caller@),
            Ok(_) => spec_may_pause(*old(state), caller@) && *final(state) == SpokeState {
                paused: false,
                ..*old(state)
            },
        },
{
    if !(bytes32_eq(caller, &state.lighthouse) || bytes32_eq(caller, &state.watchtower)) {
        return Err(SpokeError::NotAuthorizedToPause);
    }
    state.paused = false;
    Ok(UnpausedEvent {  })
}

/// Replaces the lighthouse role.  Owner only.
pub fn update_lighthouse(state: &mut SpokeState, caller: &[u8; 32], new_lighthouse: [u8; 32]) -> (r:
    Result<LighthouseUpdatedEvent, SpokeError>)
    ensures
        match r {
            Err(e) => *final(state) == *old(state) && e == SpokeError::OnlyOwner && caller@ != old(
                state,
            ).owner@,
            Ok(ev) => {
                &&& caller@ == old(state).owner@
                &&& *final(state) == SpokeState { lighthouse: new_lighthouse, ..*old(state) }
                &&& ev.old_lighthouse == old(state).lighthouse
                &&& ev.new_lighthouse == new_lighthouse
            },
        },
{
    if !bytes32_eq(caller, &state.owner) {
        return Err(SpokeError::OnlyOwner);
    }
    let old_lighthouse = state.lighthouse;
    state.lighthouse = new_lighthouse;
    Ok(LighthouseUpdatedEvent { old_lighthouse, new_lighthouse })
}

/// Replaces the watchtower role.  Owner only.
pub fn update_watchtower(state: &mut SpokeState, caller: &[u8; 32], new_watchtower: [u8; 32]) -> (r:
    Result<WatchtowerUpdatedEvent, SpokeError>)
    ensures
        match r {
            Err(e) => *final(state) == *old(state) && e == SpokeError::OnlyOwner && caller@ != old(
                state,
            ).owner@,
            Ok(ev) => {
                &&& caller@ == old(state).owner@
                &&& *final(state) == SpokeState { watchtower: new_watchtower, ..*old(state) }
                &&& ev.old_watchtower == old(state).watchtower
                &&& ev.new_watchtower == new_watchtower
            },
        },
{
    if !bytes32_eq(caller, &state.owner) {
        return Err(SpokeError::OnlyOwner);
    }
    let old_watchtower = state.watchtower;
    state.watchtower = new_watchtower;
    Ok(WatchtowerUpdatedEvent { old_watchtower, new_watchtower })
}

/// Replaces the relay mailbox address.  Owner only.
pub fn update_mailbox(state: &mut SpokeState, caller: &[u8; 32], new_mailbox: [u8; 32]) -> (r:
    Result<MailboxUpdatedEvent, SpokeError>)
    ensures
        match r {
            Err(e) => *final(state) == *old(state) && e == SpokeError::OnlyOwner && caller@ != old(
                state,
            ).owner@,
            Ok(ev) => {
                &&& caller@ == old(state).owner@
                &&& *final(state) == SpokeState { mailbox: new_mailbox, ..*old(state) }
                &&& ev.old_mailbox == old(state).mailbox
                &&& ev.new_mailbox == new_mailbox
            },
        },
{
    if !bytes32_eq(caller, &state.owner) {
        return Err(SpokeError::OnlyOwner);
    }
    let old_mailbox = state.mailbox;
    state.mailbox = new_mailbox;
    Ok(MailboxUpdatedEvent { old_mailbox, new_mailbox })
}

/// Replaces the gas paymaster address and kind.  Owner only.
pub fn update_igp(
    state: &mut SpokeState,
    caller: &[u8; 32],
    new_igp: [u8; 32],
    new_igp_type: InterchainGasPaymasterType,
) -> (r: Result<IgpUpdatedEvent, SpokeError>)
    ensures
        match r {
            Err(e) => *final(state) == *old(state) && e == SpokeError::OnlyOwner && caller@ != old(
                state,
            ).owner@,
            Ok(ev) => {
                &&& caller@ == old(state).owner@
                &&& *final(state) == SpokeState { igp: new_igp, igp_type: new_igp_type, ..*old(state) }
                &&& ev.old_igp == old(state).igp
                &&& ev.new_igp == new_igp
                &&& ev.old_igp_type == old(state).igp_type
                &&& ev.new_igp_type == new_igp_type
            },
        },
{
    if !bytes32_eq(caller, &state.owner) {
        return Err(SpokeError::OnlyOwner);
    }
    let old_igp = state.igp;
    let old_igp_type = state.igp_type;
    state.igp = new_igp;
    state.igp_type = new_igp_type;
    Ok(IgpUpdatedEvent { old_igp, new_igp, old_igp_type, new_igp_type })
}

/// Replaces the outbound message gas limit.  Owner only.
pub fn update_message_gas_limit(state: &mut SpokeState, caller: &[u8; 32], new_limit: u64) -> (r:
    Result<MessageGasLimitUpdatedEvent, SpokeError>)
    ensures
        match r {
            Err(e) => *final(state) == *old(state) && e == SpokeError::OnlyOwner && caller@ != old(
                state,
            ).owner@,
            Ok(ev) => {
                &&& caller@ == old(state).owner@
                &&& *final(state) == SpokeState { message_gas_limit: new_limit, ..*old(state) }
                &&& ev.old_limit == old(state).message_gas_limit
                &&& ev.new_limit == new_limit
            },
        },
{
    if !bytes32_eq(caller, &state.owner) {
        return Err(SpokeError::OnlyOwner);
    }
    let old_limit = state.message_gas_limit;
    state.message_gas_limit = new_limit;
    Ok(MessageGasLimitUpdatedEvent { old_limit, new_limit })
}

/// Replaces the relay dispatch authority bump seed.  Owner only.
pub fn update_mailbox_dispatch_authority_bump(
    state: &mut SpokeState,
    caller: &[u8; 32],
    new_bump: u8,
) -> (r: Result<MailboxDispatchAuthorityBumpUpdatedEvent, SpokeError>)
    ensures
        match r {
            Err(e) => *final(state) == *old(state) && e == SpokeError::OnlyOwner && caller@ != old(
                state,
            ).owner@,
            Ok(ev) => {
                &&& caller@ == old(state).owner@
                &&& *final(state) == SpokeState {
                    mailbox_dispatch_authority_bump: new_bump,
                    ..*old(state)
                }
                &&& ev.old_bump == old(state).mailbox_dispatch_authority_bump
                &&& ev.new_bump == new_bump
            },
        },
{
    if !bytes32_eq(caller, &state.owner) {
        return Err(SpokeError::OnlyOwner);
    }
    let old_bump = state.mailbox_dispatch_authority_bump;
    state.mailbox_dispatch_authority_bump = new_bump;
    Ok(MailboxDispatchAuthorityBumpUpdatedEvent { old_bump, new_bump })
}

/// Replaces the vault authority bump seed.  Owner only.
pub fn update_vault_authority_bump(state: &mut SpokeState, caller: &[u8; 32], new_bump: u8) -> (r:
    Result<VaultAuthorityBumpUpdatedEvent, SpokeError>)
    ensures
        match r {
            Err(e) => *final(state) == *old(state) && e == SpokeError::OnlyOwner && caller@ != old(
                state,
            ).owner@,
            Ok(ev) => {
                &&& caller@ == old(state).owner@
                &&& *final(state) == SpokeState { vault_authority_bump: new_bump, ..*old(state) }
                &&& ev.old_bump == old(state).vault_authority_bump
                &&& ev.new_bump == new_bump
            },
        },
{
    if !bytes32_eq(caller, &state.owner) {
        return Err(SpokeError::OnlyOwner);
    }
    let old_bump = state.vault_authority_bump;
    state.vault_authority_bump = new_bump;
    Ok(VaultAuthorityBumpUpdatedEvent { old_bump, new_bump })
}

/// Takes `amount` of `asset` out of `user`'s vault credit.  An amount above
/// the credit is rejected and nothing changes.
pub fn reduce_balance(
    balances: &mut Vec<BalanceEntry>,
    asset: &[u8; 32],
    user: &[u8; 32],
    amount: u64,
) -> (r: Result<(), SpokeError>)
    ensures
        match r {
            Err(e) => {
                &&& *final(balances) == *old(balances)
                &&& e == SpokeError::InvalidAmount
                &&& spec_balance_of(old(balances)@, asset@, user@) < amount
            },
            Ok(()) => {
                &&& spec_balance_of(old(balances)@, asset@, user@) >= amount
                &&& final(balances)@ == spec_set_balance(
                    old(balances)@,
                    asset@,
                    user@,
                    (spec_balance_of(old(balances)@, asset@, user@) - amount) as u64,
                )
            },
        },
{
    let n: usize = balances.len();
    let mut i: usize = 0;
    proof {
        assert(balances@.skip(0) =~= balances@);
    }
    while i < n
        invariant
            i <= n,
            n == balances@.len(),
            *balances == *old(balances),
            forall|j: int|
                0 <= j < i ==> !(#[trigger] balances@[j].asset@ == asset@ && balances@[j].user@
                    == user@),
            spec_balance_of(balances@, asset@, user@) == spec_balance_of(
                balances@.skip(i as int),
                asset@,
                user@,
            ),
        decreases n - i,
    {
        proof {
            let rest = balances@.skip(i as int);
            assert(rest[0] == balances@[i as int]);
            assert(rest.skip(1) =~= balances@.skip(i + 1));
        }
        if bytes32_eq(&balances[i].asset, asset) && bytes32_eq(&balances[i].user, user) {
            let current = balances[i].amount;
            if current < amount {
                return Err(SpokeError::InvalidAmount);
            }
            let row = BalanceEntry { asset: balances[i].asset, user: balances[i].user, amount: (
            current - amount) };
            balances[i] = row;
            proof {
                lemma_set_balance_at_first_match(
                    old(balances)@,
                    asset@,
                    user@,
                    (current - amount) as u64,
                    i as int,
                );
            }
            return Ok(());
        }
        i += 1;
    }
    proof {
        assert(balances@.skip(n as int).len() == 0);
    }
    if amount > 0 {
        return Err(SpokeError::InvalidAmount);
    }
    proof {
        lemma_set_balance_no_match(balances@, asset@, user@, 0u64);
    }
    Ok(())
}

/// A table whose first `(asset, user)` row stands at `i` is updated exactly
/// there.
proof fn lemma_set_balance_at_first_match(
    entries: Seq<BalanceEntry>,
    asset: Seq<u8>,
    user: Seq<u8>,
    amount: u64,
    i: int,
)
    requires
        0 <= i < entries.len(),
        entries[i].asset@ == asset && entries[i].user@ == user,
        forall|j: int|
            0 <= j < i ==> !(#[trigger] entries[j].asset@ == asset && entries[j].user@ == user),
    ensures
        spec_set_balance(entries, asset, user, amount) == entries.update(
            i,
            BalanceEntry { asset: entries[i].asset, user: entries[i].user, amount },
        ),
        spec_balance_of(entries, asset, user) == entries[i].amount,
    decreases i,
{
    if i == 0 {
        let changed = BalanceEntry { asset: entries[0].asset, user: entries[0].user, amount };
        assert(spec_set_balance(entries, asset, user, amount) =~= entries.update(0, changed));
    } else {
        assert(entries.skip(1)[i - 1] == entries[i]);
        assert(forall|j: int| 0 <= j < i - 1 ==> #[trigger] entries.skip(1)[j] == entries[j + 1]);
        lemma_set_balance_at_first_match(entries.skip(1), asset, user, amount, i - 1);
        let changed = BalanceEntry { asset: entries[i].asset, user: entries[i].user, amount };
        assert(spec_set_balance(entries, asset, user, amount) =~= entries.update(i, changed));
    }
}

/// A table without an `(asset, user)` row is left unchanged by a balance
/// write, and assigns it no credit.
proof fn lemma_set_balance_no_match(
    entries: Seq<BalanceEntry>,
    asset: Seq<u8>,
    user: Seq<u8>,
    amount: u64,
)
    requires
        forall|j: int|
            0 <= j < entries.len() ==> !(#[trigger] entries[j].asset@ == asset && entries[j].user@
                == user),
    ensures
        spec_set_balance(entries, asset, user, amount) == entries,
        spec_balance_of(entries, asset, user) == 0,
    decreases entries.len(),
{
    if entries.len() > 0 {
        assert(forall|j: int|
            0 <= j < entries.skip(1).len() ==> #[trigger] entries.skip(1)[j] == entries[j + 1]);
        lemma_set_balance_no_match(entries.skip(1), asset, user, amount);
        assert(spec_set_balance(entries, asset, user, amount) =~= entries);
    }
}

/// Withdraws `amount` of `asset` from the vault back to `user`.  The ledger
/// must be unpaused, the amount positive and covered by the user's credit;
/// the host performs the actual token transfer out of the vault.
pub fn withdraw(state: &mut SpokeState, user: &[u8; 32], asset: &[u8; 32], amount: u64) -> (r:
    Result<WithdrawnEvent, SpokeError>)
    ensures
        match r {
            Err(e) => {
                &&& *final(state) == *old(state)
                &&& (if old(state).paused {
                    e == SpokeError::ContractPaused
                } else if amount == 0 || spec_balance_of(old(state).balances@, asset@, user@)
                    < amount {
                    e == SpokeError::InvalidAmount
                } else {
                    false
                })
            },
            Ok(ev) => {
                &&& !old(state).paused
                &&& amount > 0
                &&& spec_balance_of(old(state).balances@, asset@, user@) >= amount
                &&& old(state).eq_except_balances(*final(state))
                &&& final(state).balances@ == spec_set_balance(
                    old(state).balances@,
                    asset@,
                    user@,
                    (spec_balance_of(old(state).balances@, asset@, user@) - amount) as u64,
                )
                &&& ev.user == *user
                &&& ev.asset == *asset
                &&& ev.amount == amount
            },
        },
{
    if state.paused {
        return Err(SpokeError::ContractPaused);
    }
    if amount == 0 {
        return Err(SpokeError::InvalidAmount);
    }
    match reduce_balance(&mut state.balances, asset, user, amount) {
        Ok(()) => {},
        Err(e) => {
            return Err(e);
        },
    }
    Ok(WithdrawnEvent { user: *user, asset: *asset, amount })
}

} // verus!
