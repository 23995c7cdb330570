//! Settlement records: their wire layout and their idempotent application to
//! the ledger.
//!
//! A settlement arrives only from the hub, inside a message handled by
//! [`crate::handler`]; each record is consumed at most once per intent id.
use vstd::prelude::*;

verus! {

use crate::bytes::{be_nat_of, read_bytes32, read_u32_be, read_u64_be};
use crate::errors::SpokeError;
use crate::events::SettledEvent;
use crate::normalize::{normalize_spec, normalize_decimals};
use crate::state::{
    spec_set_status, spec_status_of, set_status, IntentStatus, IntentStatusAccount, SpokeState,
};
use crate::DEFAULT_NORMALIZED_DECIMALS;

/// Byte length of one settlement record on the wire: five 32-byte words.
pub const SETTLEMENT_RECORD_BYTES: usize = 160;

/// Byte offset of the first settlement record inside a settlement payload:
/// three framing words and the length word.
pub const SETTLEMENT_BATCH_HEADER_BYTES: usize = 128;

/// One settlement instruction from the hub: which intent it finalizes, the
/// amount as a 32-byte big-endian word in canonical precision, the asset to
/// pay out, the recipient, and whether an off-ledger balance update
/// accompanies the transfer.
#[derive(Clone, Debug)]
pub struct Settlement {
    pub intent_id: [u8; 32],
    pub amount: [u8; 32],
    pub asset: [u8; 32],
    pub recipient: [u8; 32],
    pub update_virtual_balance: bool,
}

/// Mathematical picture of a settlement record.
pub ghost struct SettlementView {
    pub intent_id: Seq<u8>,
    pub amount: Seq<u8>,
    pub asset: Seq<u8>,
    pub recipient: Seq<u8>,
    pub update_virtual_balance: bool,
}

impl View for Settlement {
    type V = SettlementView;

    open spec fn view(&self) -> SettlementView {
        SettlementView {
            intent_id: self.intent_id@,
            amount: self.amount@,
            asset: self.asset@,
            recipient: self.recipient@,
            update_virtual_balance: self.update_virtual_balance,
        }
    }
}

/// A payout that the host must perform against the vault, together with the
/// `Settled` event fields.
pub ghost struct PayoutView {
    pub intent_id: Seq<u8>,
    pub recipient: Seq<u8>,
    pub asset: Seq<u8>,
    pub amount: u64,
}

impl View for SettledEvent {
    type V = PayoutView;

    open spec fn view(&self) -> PayoutView {
        PayoutView {
            intent_id: self.intent_id@,
            recipient: self.recipient@,
            asset: self.asset@,
            amount: self.amount,
        }
    }
}

/// The settlement record spelled out at byte offset `start` of a payload.
pub open spec fn spec_settlement_at(bytes: Seq<u8>, start: int) -> SettlementView {
    SettlementView {
        intent_id: bytes.subrange(start, start + 32),
        amount: bytes.subrange(start + 32, start + 64),
        asset: bytes.subrange(start + 64, start + 96),
        recipient: bytes.subrange(start + 96, start + 128),
        update_virtual_balance: bytes[start + 159] == 1,
    }
}

impl Settlement {
    /// Reads one record from `bytes` at offset `start`.  A payload too short
    /// for a full record is an invalid message.
    pub fn parse(bytes: &[u8], start: usize) -> (r: Result<Settlement, SpokeError>)
        ensures
            match r {
                Ok(s) => start + SETTLEMENT_RECORD_BYTES <= bytes@.len() && s@
                    == spec_settlement_at(bytes@, start as int),
                Err(e) => e == SpokeError::InvalidMessage && start + SETTLEMENT_RECORD_BYTES
                    > bytes@.len(),
            },
    {
        if bytes.len() < SETTLEMENT_RECORD_BYTES || start > bytes.len() - SETTLEMENT_RECORD_BYTES {
            return Err(SpokeError::InvalidMessage);
        }
        let intent_id = read_bytes32(bytes, start);
        let amount = read_bytes32(bytes, start + 32);
        let asset = read_bytes32(bytes, start + 64);
        let recipient = read_bytes32(bytes, start + 96);
        let update_virtual_balance = bytes[start + 159] == 1;
        Ok(Settlement { intent_id, amount, asset, recipient, update_virtual_balance })
    }
}

/// A batch of settlement records decoded from one inbound message.
pub struct Settlements {
    pub settlements: Vec<Settlement>,
}

/// Number of records the batch header announces.
pub open spec fn spec_batch_count(bytes: Seq<u8>) -> nat {
    be_nat_of(bytes.subrange(124, 128))
}

/// Whether a settlement payload is well formed: it holds the four header
/// words and as many whole records as the length word announces.
pub open spec fn spec_batch_wf(bytes: Seq<u8>) -> bool {
    &&& bytes.len() >= SETTLEMENT_BATCH_HEADER_BYTES
    &&& SETTLEMENT_BATCH_HEADER_BYTES + SETTLEMENT_RECORD_BYTES * spec_batch_count(bytes)
        <= bytes.len()
}

impl Settlements {
    /// Decodes a settlement payload: three framing words are skipped, the
    /// fourth word carries the record count in its low four bytes, and the
    /// records follow back to back.
    pub fn parse(bytes: &[u8]) -> (r: Result<Settlements, SpokeError>)
        ensures
            match r {
                Ok(b) => {
                    &&& spec_batch_wf(bytes@)
                    &&& b.settlements@.len() == spec_batch_count(bytes@)
                    &&& forall|i: int|
                        0 <= i < b.settlements@.len() ==> #[trigger] b.settlements@[i]@
                            == spec_settlement_at(
                            bytes@,
                            SETTLEMENT_BATCH_HEADER_BYTES + SETTLEMENT_RECORD_BYTES * i,
                        )
                },
                Err(e) => e == SpokeError::InvalidMessage && !spec_batch_wf(bytes@),
            },
    {
        if bytes.len() < SETTLEMENT_BATCH_HEADER_BYTES {
            return Err(SpokeError::InvalidMessage);
        }
        let n_bytes: usize = bytes.len();
        let count = read_u32_be(bytes, 124);
        let mut settlements: Vec<Settlement> = Vec::new();
        let mut i: u32 = 0;
        while i < count
            invariant
                i <= count,
                count as nat == spec_batch_count(bytes@),
                n_bytes == bytes@.len(),
                n_bytes >= SETTLEMENT_BATCH_HEADER_BYTES,
                settlements@.len() == i as nat,
                forall|j: int|
                    0 <= j < i ==> #[trigger] settlements@[j]@ == spec_settlement_at(
                        bytes@,
                        SETTLEMENT_BATCH_HEADER_BYTES + SETTLEMENT_RECORD_BYTES * j,
                    ),
                SETTLEMENT_BATCH_HEADER_BYTES + SETTLEMENT_RECORD_BYTES * (i as int) <= n_bytes
                    || i == 0,
            decreases count - i,
        {
            proof {
                assert(SETTLEMENT_RECORD_BYTES * (i as int) + SETTLEMENT_RECORD_BYTES
                    == SETTLEMENT_RECORD_BYTES * (i as int + 1)) by (nonlinear_arith);
                assert(SETTLEMENT_RECORD_BYTES * (i as int) >= 0) by (nonlinear_arith);
            }
            let offset: usize = SETTLEMENT_BATCH_HEADER_BYTES + SETTLEMENT_RECORD_BYTES * (i as usize);
            let record = match Settlement::parse(bytes, offset) {
                Ok(s) => s,
                Err(e) => {
                    proof {
                        lemma_batch_prefix_short(bytes@, i as int, count as int);
                    }
                    return Err(e);
                },
            };
            settlements.push(record);
            i += 1;
        }
        proof {
            if count > 0 {
                assert(SETTLEMENT_RECORD_BYTES * (count as int - 1) + SETTLEMENT_RECORD_BYTES
                    == SETTLEMENT_RECORD_BYTES * (count as int)) by (nonlinear_arith);
            }
        }
        Ok(Settlements { settlements })
    }
}

/// If the i-th record does not fit, the announced batch does not fit.
proof fn lemma_batch_prefix_short(bytes: Seq<u8>, i: int, count: int)
    requires
        0 <= i < count,
        SETTLEMENT_BATCH_HEADER_BYTES + SETTLEMENT_RECORD_BYTES * i + SETTLEMENT_RECORD_BYTES
            > bytes.len(),
    ensures
        SETTLEMENT_BATCH_HEADER_BYTES + SETTLEMENT_RECORD_BYTES * count > bytes.len(),
{
    assert(SETTLEMENT_RECORD_BYTES * i + SETTLEMENT_RECORD_BYTES <= SETTLEMENT_RECORD_BYTES
        * count) by (nonlinear_arith)
        requires
            i < count,
    ;
}

/// The low 64 bits of a settlement's 32-byte big-endian amount word.
pub open spec fn spec_settlement_low_amount(s: SettlementView) -> u64 {
    be_nat_of(s.amount.subrange(24, 32)) as u64
}

/// Applying one settlement record to the status table.
///
/// An id already `Settled` (or settled and manually executed) is a no-op, the
/// idempotency boundary that makes at-least-once delivery safe.  An id with
/// no recorded status is skipped without payout: there is no added or filled
/// intent to transition.  Otherwise the status becomes `Settled` and the
/// payout is the amount normalized from canonical precision by the
/// destination asset's decimals; a zero payout after normalization is a dust
/// settlement and is skipped.
pub open spec fn spec_apply_settlement(
    entries: Seq<IntentStatusAccount>,
    s: SettlementView,
    minted_decimals: u8,
) -> Result<(Seq<IntentStatusAccount>, Option<PayoutView>), SpokeError> {
    let st = spec_status_of(entries, s.intent_id);
    if st.is_settled() || st == IntentStatus::Absent {
        Ok((entries, None))
    } else {
        match normalize_spec(
            spec_settlement_low_amount(s),
            minted_decimals,
            DEFAULT_NORMALIZED_DECIMALS,
        ) {
            Err(e) => Err(e),
            Ok(amount) => {
                let updated = spec_set_status(entries, s.intent_id, IntentStatus::Settled);
                if amount == 0 {
                    Ok((updated, None))
                } else {
                    Ok(
                        (
                            updated,
                            Some(
                                PayoutView {
                                    intent_id: s.intent_id,
                                    recipient: s.recipient,
                                    asset: s.asset,
                                    amount,
                                },
                            ),
                        ),
                    )
                }
            },
        }
    }
}

/// Applies one settlement record: transitions the intent's status and
/// returns the payout the host must perform, or `None` for the no-op cases.
/// A record whose amount cannot be normalized fails alone and changes
/// nothing.
pub fn handle_settlement(
    state: &mut SpokeState,
    settlement: &Settlement,
    minted_decimals: u8,
) -> (r: Result<Option<SettledEvent>, SpokeError>)
    ensures
        old(state).eq_except_status(*final(state)),
        final(state).intent_queue == old(state).intent_queue,
        match spec_apply_settlement(old(state).status@, settlement@, minted_decimals) {
            Ok((entries, payout)) => {
                &&& r is Ok
                &&& final(state).status@ == entries
                &&& match (r->Ok_0, payout) {
                    (Some(ev), Some(p)) => ev@ == p,
                    (None, None) => true,
                    _ => false,
                }
            },
            Err(e) => r == Err::<Option<SettledEvent>, SpokeError>(e) && final(state).status@
                == old(state).status@,
        },
{
    let current = state.get_status(&settlement.intent_id);
    match current {
        IntentStatus::Settled | IntentStatus::SettledAndManuallyExecuted => {
            return Ok(None);
        },
        IntentStatus::Absent => {
            return Ok(None);
        },
        _ => {},
    }
    let low_amount = read_u64_be(settlement.amount.as_slice(), 24);
    proof {
        assert(settlement.amount@.subrange(24, 32) == settlement@.amount.subrange(24, 32));
    }
    let amount = match normalize_decimals(low_amount, minted_decimals, DEFAULT_NORMALIZED_DECIMALS) {
        Ok(a) => a,
        Err(e) => {
            return Err(e);
        },
    };
    set_status(&mut state.status, &settlement.intent_id, IntentStatus::Settled);
    if amount == 0 {
        return Ok(None);
    }
    Ok(
        Some(
            SettledEvent {
                intent_id: settlement.intent_id,
                recipient: settlement.recipient,
                asset: settlement.asset,
                amount,
            },
        ),
    )
}

/// The status table after one record, where a failing record changes
/// nothing.
pub open spec fn spec_step_entries(
    entries: Seq<IntentStatusAccount>,
    s: SettlementView,
    minted_decimals: u8,
) -> Seq<IntentStatusAccount> {
    match spec_apply_settlement(entries, s, minted_decimals) {
        Ok((updated, _)) => updated,
        Err(_) => entries,
    }
}

/// The payouts of one record: one payout, or none for the no-op and failure
/// cases.
pub open spec fn spec_step_payouts(
    entries: Seq<IntentStatusAccount>,
    s: SettlementView,
    minted_decimals: u8,
) -> Seq<PayoutView> {
    match spec_apply_settlement(entries, s, minted_decimals) {
        Ok((_, Some(p))) => seq![p],
        _ => Seq::empty(),
    }
}

/// The status table after applying a batch of records in array order, each
/// record isolated from the others' failures.
pub open spec fn spec_batch_entries(
    entries: Seq<IntentStatusAccount>,
    records: Seq<SettlementView>,
    decimals: Seq<u8>,
) -> Seq<IntentStatusAccount>
    decreases records.len(),
{
    if records.len() == 0 {
        entries
    } else {
        spec_batch_entries(
            spec_step_entries(entries, records[0], decimals[0]),
            records.skip(1),
            decimals.skip(1),
        )
    }
}

/// The payouts a batch produces, in array order.
pub open spec fn spec_batch_payouts(
    entries: Seq<IntentStatusAccount>,
    records: Seq<SettlementView>,
    decimals: Seq<u8>,
) -> Seq<PayoutView>
    decreases records.len(),
{
    if records.len() == 0 {
        Seq::empty()
    } else {
        spec_step_payouts(entries, records[0], decimals[0]) + spec_batch_payouts(
            spec_step_entries(entries, records[0], decimals[0]),
            records.skip(1),
            decimals.skip(1),
        )
    }
}

/// A batch grows on the right by one isolated step.
proof fn lemma_apply_batch_snoc(
    entries: Seq<IntentStatusAccount>,
    records: Seq<SettlementView>,
    decimals: Seq<u8>,
    s: SettlementView,
    d: u8,
)
    requires
        records.len() == decimals.len(),
    ensures
        spec_batch_entries(entries, records.push(s), decimals.push(d)) == spec_step_entries(
            spec_batch_entries(entries, records, decimals),
            s,
            d,
        ),
        spec_batch_payouts(entries, records.push(s), decimals.push(d)) == spec_batch_payouts(
            entries,
            records,
            decimals,
        ) + spec_step_payouts(spec_batch_entries(entries, records, decimals), s, d),
    decreases records.len(),
{
    reveal_with_fuel(spec_batch_entries, 2);
    reveal_with_fuel(spec_batch_payouts, 2);
    if records.len() == 0 {
        assert(records.push(s)[0] == s);
        assert(decimals.push(d)[0] == d);
        assert(records.push(s).skip(1) =~= Seq::<SettlementView>::empty());
        assert(decimals.push(d).skip(1) =~= Seq::<u8>::empty());
        let e1 = spec_step_entries(entries, s, d);
        assert(spec_batch_entries(e1, records.push(s).skip(1), decimals.push(d).skip(1)) == e1);
        let p1 = spec_step_payouts(entries, s, d);
        assert(spec_batch_payouts(e1, records.push(s).skip(1), decimals.push(d).skip(1))
            =~= Seq::<PayoutView>::empty());
        assert(p1 + Seq::<PayoutView>::empty() =~= p1);
        assert(Seq::<PayoutView>::empty() + p1 =~= p1);
    } else {
        assert(records.push(s)[0] == records[0]);
        assert(decimals.push(d)[0] == decimals[0]);
        assert(records.push(s).skip(1) =~= records.skip(1).push(s));
        assert(decimals.push(d).skip(1) =~= decimals.skip(1).push(d));
        let e1 = spec_step_entries(entries, records[0], decimals[0]);
        let p1 = spec_step_payouts(entries, records[0], decimals[0]);
        lemma_apply_batch_snoc(e1, records.skip(1), decimals.skip(1), s, d);
        let pb = spec_batch_payouts(e1, records.skip(1), decimals.skip(1));
        let p2 = spec_step_payouts(spec_batch_entries(e1, records.skip(1), decimals.skip(1)), s, d);
        assert(spec_batch_entries(entries, records.push(s), decimals.push(d))
            == spec_batch_entries(e1, records.skip(1).push(s), decimals.skip(1).push(d)));
        assert(spec_batch_entries(entries, records, decimals) == spec_batch_entries(
            e1,
            records.skip(1),
            decimals.skip(1),
        ));
        assert(spec_batch_payouts(entries, records.push(s), decimals.push(d)) == p1
            + spec_batch_payouts(e1, records.skip(1).push(s), decimals.skip(1).push(d)));
        assert(spec_batch_payouts(entries, records, decimals) == p1 + pb);
        assert(p1 + (pb + p2) =~= (p1 + pb) + p2);
    }
}

/// The settlement records of a batch as mathematical views.
pub open spec fn spec_records_of(batch: Seq<Settlement>) -> Seq<SettlementView> {
    batch.map_values(|s: Settlement| s@)
}

/// Applies every record of `batch` in array order.  Record `i` is normalized
/// with `decimals[i]`, the destination asset's local precision; a batch whose
/// decimals list does not pair up with its records is rejected whole as an
/// invalid account lineup.  A failing record is isolated: it changes nothing
/// and later records still apply.  The returned payouts are the transfers
/// the host must perform, in order.
pub fn handle_batch_settlement(
    state: &mut SpokeState,
    batch: &Settlements,
    decimals: &Vec<u8>,
) -> (r: Result<Vec<SettledEvent>, SpokeError>)
    ensures
        old(state).eq_except_status(*final(state)),
        final(state).intent_queue == old(state).intent_queue,
        match r {
            Ok(events) => {
                &&& decimals@.len() == batch.settlements@.len()
                &&& final(state).status@ == spec_batch_entries(
                    old(state).status@,
                    spec_records_of(batch.settlements@),
                    decimals@,
                )
                &&& events@.map_values(|e: SettledEvent| e@) == spec_batch_payouts(
                    old(state).status@,
                    spec_records_of(batch.settlements@),
                    decimals@,
                )
            },
            Err(e) => {
                &&& e == SpokeError::InvalidAccount
                &&& decimals@.len() != batch.settlements@.len()
                &&& *final(state) == *old(state)
            },
        },
{
    if decimals.len() != batch.settlements.len() {
        return Err(SpokeError::InvalidAccount);
    }
    let ghost records = spec_records_of(batch.settlements@);
    let mut events: Vec<SettledEvent> = Vec::new();
    let n: usize = batch.settlements.len();
    let mut i: usize = 0;
    proof {
        assert(records.take(0) =~= Seq::<SettlementView>::empty());
        assert(decimals@.take(0) =~= Seq::<u8>::empty());
        assert(events@.map_values(|e: SettledEvent| e@) =~= Seq::<PayoutView>::empty());
    }
    while i < n
        invariant
            i <= n,
            n == batch.settlements@.len(),
            decimals@.len() == n,
            records == spec_records_of(batch.settlements@),
            old(state).eq_except_status(*state),
            state.intent_queue == old(state).intent_queue,
            state.status@ == spec_batch_entries(
                old(state).status@,
                records.take(i as int),
                decimals@.take(i as int),
            ),
            events@.map_values(|e: SettledEvent| e@) == spec_batch_payouts(
                old(state).status@,
                records.take(i as int),
                decimals@.take(i as int),
            ),
        decreases n - i,
    {
        let ghost pre_status = state.status@;
        let ghost pre_events = events@.map_values(|e: SettledEvent| e@);
        let res = handle_settlement(state, &batch.settlements[i], decimals[i]);
        match res {
            Ok(Some(ev)) => {
                events.push(ev);
            },
            Ok(None) => {},
            Err(_) => {},
        }
        proof {
            lemma_apply_batch_snoc(
                old(state).status@,
                records.take(i as int),
                decimals@.take(i as int),
                records[i as int],
                decimals@[i as int],
            );
            assert(records.take(i + 1) =~= records.take(i as int).push(records[i as int]));
            assert(decimals@.take(i + 1) =~= decimals@.take(i as int).push(decimals@[i as int]));
            assert(records[i as int] == batch.settlements@[i as int]@);
            assert(state.status@ == spec_step_entries(
                pre_status,
                records[i as int],
                decimals@[i as int],
            ));
            assert(events@.map_values(|e: SettledEvent| e@) =~= pre_events + spec_step_payouts(
                pre_status,
                records[i as int],
                decimals@[i as int],
            ));
        }
        i += 1;
    }
    proof {
        assert(records.take(n as int) =~= records);
        assert(decimals@.take(n as int) =~= decimals@);
    }
    Ok(events)
}

/// Idempotence of settlement: once a record has applied, applying it again
/// leaves the status table unchanged and pays nothing; and a record for an
/// intent id the table does not hold changes nothing either time.
pub proof fn lemma_settlement_idempotent(
    entries: Seq<IntentStatusAccount>,
    s: SettlementView,
    minted_decimals: u8,
)
    requires
        spec_apply_settlement(entries, s, minted_decimals) is Ok,
    ensures
        ({
            let (after, _) = spec_apply_settlement(entries, s, minted_decimals)->Ok_0;
            spec_apply_settlement(after, s, minted_decimals) == Ok::<
                (Seq<IntentStatusAccount>, Option<PayoutView>),
                SpokeError,
            >((after, None))
        }),
{
    let st = spec_status_of(entries, s.intent_id);
    let (after, _) = spec_apply_settlement(entries, s, minted_decimals)->Ok_0;
    if st.is_settled() || st == IntentStatus::Absent {
        assert(after == entries);
    } else {
        lemma_status_implies_has(entries, s.intent_id);
        crate::state::lemma_set_then_get_status(entries, s.intent_id, IntentStatus::Settled);
        assert(spec_status_of(after, s.intent_id) == IntentStatus::Settled);
    }
}

/// An id whose status is not `Absent` has a row in the table.
proof fn lemma_status_implies_has(entries: Seq<IntentStatusAccount>, key: Seq<u8>)
    requires
        spec_status_of(entries, key) != IntentStatus::Absent,
    ensures
        crate::state::spec_has_status(entries, key),
    decreases entries.len(),
{
    if entries.len() > 0 && entries[0].key@ != key {
        lemma_status_implies_has(entries.skip(1), key);
    }
}

} // verus!
