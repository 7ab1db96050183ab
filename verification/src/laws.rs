//! Properties of the three contracts that span operations or hold in every state.
use vstd::prelude::*;

use crate::address::Address;
use crate::escrow::{
    self, EscrowEvent, EscrowOp, EscrowState, Settled, Transfer, Withdrawn, net_inflow, total,
};
use crate::receipt::{self, ReceiptOp, ReceiptRecord, ReceiptState};
use crate::registry::{self, ProviderInfo, RegistryOp, RegistryState};

verus! {

// ── registry ────────────────────────────────────────────────────────────────

/// Every registry operation keeps the registry invariant: each record is keyed by its
/// owner and carries a strictly positive price.
pub proof fn registry_operations_keep_invariant(
    s: RegistryState,
    admin: Address,
    provider: Address,
    price: i128,
    metadata_uri: String,
    active: bool,
)
    requires
        s.inv(),
    ensures
        s.initialize(admin).1.inv(),
        s.register_provider(provider, price, metadata_uri).1.inv(),
        s.update_price(provider, price).1.inv(),
        s.set_active(provider, active).1.inv(),
{
}

/// A registry operation that fails leaves the registry as it was.
pub proof fn registry_failures_change_nothing(
    s: RegistryState,
    admin: Address,
    provider: Address,
    price: i128,
    metadata_uri: String,
    active: bool,
)
    ensures
        s.initialize(admin).0 is Err ==> s.initialize(admin).1 == s,
        s.register_provider(provider, price, metadata_uri).0 is Err ==> s.register_provider(
            provider,
            price,
            metadata_uri,
        ).1 == s,
        s.update_price(provider, price).0 is Err ==> s.update_price(provider, price).1 == s,
        s.set_active(provider, active).0 is Err ==> s.set_active(provider, active).1 == s,
{
}

/// The registry can be initialised once: a second `initialize` is refused with
/// `AlreadyInitialized` and changes nothing.
pub proof fn registry_initialize_once(s: RegistryState, first: Address, second: Address)
    ensures
        ({
            let s1 = s.initialize(first).1;
            s1.initialize(second) == (Err::<(), registry::Error>(registry::Error::AlreadyInitialized), s1)
        }),
{
}

/// Registering with a strictly positive price succeeds, and reading the provider back
/// gives an active record with that owner, price and metadata URI; registering with a
/// price that is not strictly positive is refused with `InvalidPrice`.
pub proof fn registry_register_then_get(
    s: RegistryState,
    provider: Address,
    price: i128,
    metadata_uri: String,
)
    ensures
        price > 0 ==> {
            let (r, s1) = s.register_provider(provider, price, metadata_uri);
            &&& r is Ok
            &&& s1.get_provider(provider) == Ok::<ProviderInfo, registry::Error>(
                ProviderInfo { owner: provider, price_per_call: price, active: true, metadata_uri },
            )
        },
        price <= 0 ==> s.register_provider(provider, price, metadata_uri).0 == Err::<
            (),
            registry::Error,
        >(registry::Error::InvalidPrice),
{
}

/// Updating the price of a registered provider to a strictly positive value succeeds and
/// changes its price and nothing else of its record.
pub proof fn registry_update_price_then_get(s: RegistryState, provider: Address, new_price: i128)
    requires
        s.is_registered(provider),
        new_price > 0,
    ensures
        ({
            let (r, s1) = s.update_price(provider, new_price);
            &&& r is Ok
            &&& s1.get_provider(provider) == Ok::<ProviderInfo, registry::Error>(
                ProviderInfo { price_per_call: new_price, ..s.providers[provider] },
            )
        }),
{
}

/// Setting the active flag of a registered provider succeeds and changes its flag and
/// nothing else of its record.
pub proof fn registry_set_active_then_get(s: RegistryState, provider: Address, active: bool)
    requires
        s.is_registered(provider),
    ensures
        ({
            let (r, s1) = s.set_active(provider, active);
            &&& r is Ok
            &&& s1.get_provider(provider) == Ok::<ProviderInfo, registry::Error>(
                ProviderInfo { active, ..s.providers[provider] },
            )
        }),
{
}

/// An operation on one provider leaves the record of every other provider as it was.
pub proof fn registry_operations_are_per_provider(
    s: RegistryState,
    provider: Address,
    other: Address,
    price: i128,
    metadata_uri: String,
    active: bool,
)
    requires
        provider != other,
    ensures
        s.register_provider(provider, price, metadata_uri).1.get_provider(other) == s.get_provider(
            other,
        ),
        s.update_price(provider, price).1.get_provider(other) == s.get_provider(other),
        s.set_active(provider, active).1.get_provider(other) == s.get_provider(other),
{
}

/// The registry invariant holds after any sequence of invocations.
pub proof fn registry_invariant_over_runs(s: RegistryState, ops: Seq<RegistryOp>)
    requires
        s.inv(),
    ensures
        s.run(ops).inv(),
    decreases ops.len(),
{
    if ops.len() > 0 {
        registry_invariant_over_runs(s, ops.drop_last());
    }
}

/// Once an admin is stored it stays, whatever invocations follow, and every later
/// `initialize` is refused with `AlreadyInitialized` and changes nothing.
pub proof fn registry_admin_is_permanent(s: RegistryState, ops: Seq<RegistryOp>, admin: Address)
    requires
        s.admin is Some,
    ensures
        s.run(ops).admin == s.admin,
        s.run(ops).initialize(admin) == (Err::<(), registry::Error>(
            registry::Error::AlreadyInitialized,
        ), s.run(ops)),
    decreases ops.len(),
{
    if ops.len() > 0 {
        registry_admin_is_permanent(s, ops.drop_last(), admin);
    }
}

// ── escrow ──────────────────────────────────────────────────────────────────

/// Every escrow operation keeps the escrow invariant: stored balances are strictly
/// positive, so no balance ever reads as negative.
pub proof fn escrow_operations_keep_invariant(
    s: EscrowState,
    registered: bool,
    token: Address,
    registry_address: Address,
    receipt: Address,
    invoker: Address,
    caller: Address,
    provider: Address,
    amount: i128,
)
    requires
        s.inv(),
    ensures
        s.initialize(token, registry_address).1.inv(),
        s.set_receipt_contract(receipt).1.inv(),
        s.deposit(registered, caller, provider, amount).1.inv(),
        s.withdraw(caller, provider, amount).1.inv(),
        s.settle(invoker, caller, provider, amount).1.inv(),
        s.balance(caller, provider) >= 0,
{
}

/// An escrow operation that fails leaves the escrow as it was.
pub proof fn escrow_failures_change_nothing(
    s: EscrowState,
    registered: bool,
    invoker: Address,
    caller: Address,
    provider: Address,
    amount: i128,
)
    ensures
        s.deposit(registered, caller, provider, amount).0 is Err ==> s.deposit(
            registered,
            caller,
            provider,
            amount,
        ).1 == s,
        s.withdraw(caller, provider, amount).0 is Err ==> s.withdraw(caller, provider, amount).1
            == s,
        s.settle(invoker, caller, provider, amount).0 is Err ==> s.settle(
            invoker,
            caller,
            provider,
            amount,
        ).1 == s,
{
}

/// The escrow's addresses are wired once each: a second `initialize` or a second
/// `set_receipt_contract` is refused with `AlreadyInitialized` and changes nothing.
pub proof fn escrow_wiring_once(
    s: EscrowState,
    token: Address,
    registry_address: Address,
    receipt: Address,
    token2: Address,
    registry2: Address,
    receipt2: Address,
)
    ensures
        ({
            let s1 = s.initialize(token, registry_address).1;
            s1.initialize(token2, registry2) == (Err::<(), escrow::Error>(
                escrow::Error::AlreadyInitialized,
            ), s1)
        }),
        ({
            let s1 = s.set_receipt_contract(receipt).1;
            s1.set_receipt_contract(receipt2) == (Err::<(), escrow::Error>(
                escrow::Error::AlreadyInitialized,
            ), s1)
        }),
{
}

/// A deposit succeeds exactly when the amount is strictly positive, the escrow is wired,
/// the provider is registered and the new balance fits; it then adds the amount to the
/// pair's balance and moves the amount from the caller to the escrow.
pub proof fn escrow_deposit_credits(
    s: EscrowState,
    registered: bool,
    caller: Address,
    provider: Address,
    amount: i128,
)
    requires
        s.inv(),
    ensures
        ({
            let (r, s1) = s.deposit(registered, caller, provider, amount);
            &&& r is Ok <==> (amount > 0 && s.registry is Some && registered && s.token is Some
                && s.balance(caller, provider) + amount <= i128::MAX)
            &&& r is Ok ==> s1.balance(caller, provider) == s.balance(caller, provider) + amount
                && s1.transfers == s.transfers.push(
                Transfer { from: caller, to: s.address, amount },
            )
        }),
{
}

/// A withdrawal or settlement of more than the pair's balance is refused with
/// `InsufficientBalance` (once a settlement is authorised) and changes nothing.
pub proof fn escrow_overdraw_refused(
    s: EscrowState,
    caller: Address,
    provider: Address,
    amount: i128,
)
    requires
        s.inv(),
        amount > s.balance(caller, provider),
    ensures
        s.withdraw(caller, provider, amount) == (Err::<(), escrow::Error>(
            escrow::Error::InsufficientBalance,
        ), s),
        s.receipt is Some ==> s.settle(s.receipt->0, caller, provider, amount) == (Err::<
            (),
            escrow::Error,
        >(escrow::Error::InsufficientBalance), s),
{
}

/// Only the wired receipt contract may settle: any other invoker is refused with
/// `Unauthorized` and changes nothing.
pub proof fn escrow_settle_only_by_receipt(
    s: EscrowState,
    invoker: Address,
    caller: Address,
    provider: Address,
    amount: i128,
)
    requires
        s.receipt is Some,
        s.receipt != Some(invoker),
    ensures
        s.settle(invoker, caller, provider, amount) == (Err::<(), escrow::Error>(
            escrow::Error::Unauthorized,
        ), s),
{
}

/// Withdrawing what was just deposited succeeds and gives back the balances that were
/// there before the deposit.
pub proof fn escrow_deposit_withdraw_round_trip(
    s: EscrowState,
    caller: Address,
    provider: Address,
    amount: i128,
)
    requires
        s.inv(),
        s.deposit(true, caller, provider, amount).0 is Ok,
    ensures
        ({
            let s1 = s.deposit(true, caller, provider, amount).1;
            let (r, s2) = s1.withdraw(caller, provider, amount);
            &&& r is Ok
            &&& s2.balances == s.balances
        }),
{
    let key = (caller, provider);
    let s1 = s.deposit(true, caller, provider, amount).1;
    let s2 = s1.withdraw(caller, provider, amount).1;
    if s.balances.contains_key(key) {
        assert(s2.balances =~= s.balances);
    } else {
        assert(s2.balances =~= s.balances);
    }
}

/// An operation on one (caller, provider) pair leaves the balance of every other pair
/// as it was.
pub proof fn escrow_operations_are_per_pair(
    s: EscrowState,
    registered: bool,
    invoker: Address,
    caller: Address,
    provider: Address,
    other_caller: Address,
    other_provider: Address,
    amount: i128,
)
    requires
        (caller, provider) != (other_caller, other_provider),
    ensures
        s.deposit(registered, caller, provider, amount).1.balance(other_caller, other_provider)
            == s.balance(other_caller, other_provider),
        s.withdraw(caller, provider, amount).1.balance(other_caller, other_provider) == s.balance(
            other_caller,
            other_provider,
        ),
        s.settle(invoker, caller, provider, amount).1.balance(other_caller, other_provider)
            == s.balance(other_caller, other_provider),
{
}

/// Removing a key from finite balances takes its balance off the total.
proof fn lemma_total_remove(m: Map<(Address, Address), i128>, k: (Address, Address))
    requires
        m.dom().finite(),
        m.contains_key(k),
    ensures
        total(m) == m[k] + total(m.remove(k)),
    decreases m.dom().len(),
{
    assert(m.dom().len() > 0);
    let c = m.dom().choose();
    if c != k {
        assert(m.remove(c).dom() =~= m.dom().remove(c));
        assert(m.remove(k).dom() =~= m.dom().remove(k));
        lemma_total_remove(m.remove(c), k);
        lemma_total_remove(m.remove(k), c);
        assert(m.remove(c).remove(k) =~= m.remove(k).remove(c));
    }
}

/// Setting the balance of `k` to `v` through `with_balance` changes the total by the
/// difference.
proof fn lemma_total_with_balance(s: EscrowState, caller: Address, provider: Address, v: i128)
    requires
        s.balances.dom().finite(),
    ensures
        total(s.with_balance(caller, provider, v)) == total(s.balances) - s.balance(
            caller,
            provider,
        ) + (if v > 0 { v as int } else { 0 }),
{
    let k = (caller, provider);
    let m = s.balances;
    if m.contains_key(k) {
        lemma_total_remove(m, k);
    } else {
        assert(m.remove(k) =~= m);
    }
    if v > 0 {
        let m1 = m.insert(k, v);
        lemma_total_remove(m1, k);
        assert(m1.remove(k) =~= m.remove(k));
    }
}

/// Conservation: the sum of all balances is the net amount of tokens the escrow has
/// received through its own transfers. Deposits, withdrawals and settlements keep this,
/// for a caller (or, for a settlement, a provider) other than the escrow itself, on every
/// input on which the invocation does not abort; a fresh escrow, with no balances and no
/// transfers, starts in balance.
pub proof fn escrow_conservation(
    s: EscrowState,
    registered: bool,
    invoker: Address,
    caller: Address,
    provider: Address,
    amount: i128,
)
    requires
        s.inv(),
        total(s.balances) == net_inflow(s.transfers, s.address),
    ensures
        total(Map::<(Address, Address), i128>::empty()) == net_inflow(Seq::<Transfer<Address>>::empty(), s.address),
        caller != s.address ==> ({
            let s1 = s.deposit(registered, caller, provider, amount).1;
            total(s1.balances) == net_inflow(s1.transfers, s1.address)
        }),
        caller != s.address && !s.withdraw_aborts(caller, provider, amount) ==> ({
            let s1 = s.withdraw(caller, provider, amount).1;
            total(s1.balances) == net_inflow(s1.transfers, s1.address)
        }),
        provider != s.address ==> ({
            let s1 = s.settle(invoker, caller, provider, amount).1;
            total(s1.balances) == net_inflow(s1.transfers, s1.address)
        }),
{
    assert(Map::<(Address, Address), i128>::empty().dom() =~= Set::empty());
    let cur: i128 = s.balance(caller, provider);
    if cur + amount <= i128::MAX {
        lemma_total_with_balance(s, caller, provider, (cur + amount) as i128);
    }
    if cur >= amount && cur - amount <= i128::MAX {
        lemma_total_with_balance(s, caller, provider, (cur - amount) as i128);
    }
    let t1 = s.transfers.push(Transfer { from: caller, to: s.address, amount });
    assert(t1.drop_last() =~= s.transfers);
    let t2 = s.transfers.push(Transfer { from: s.address, to: caller, amount });
    assert(t2.drop_last() =~= s.transfers);
    let t3 = s.transfers.push(Transfer { from: s.address, to: provider, amount });
    assert(t3.drop_last() =~= s.transfers);
}

/// The escrow invariant holds after any sequence of invocations.
pub proof fn escrow_invariant_over_runs(s: EscrowState, ops: Seq<EscrowOp>)
    requires
        s.inv(),
    ensures
        s.run(ops).inv(),
    decreases ops.len(),
{
    if ops.len() > 0 {
        escrow_invariant_over_runs(s, ops.drop_last());
    }
}

/// The escrow's wiring is write-once: once the token and registry, or the receipt
/// contract, are wired they stay, whatever invocations follow, and every later
/// `initialize`, or `set_receipt_contract`, is refused with `AlreadyInitialized` and
/// changes nothing.
pub proof fn escrow_wiring_is_permanent(
    s: EscrowState,
    ops: Seq<EscrowOp>,
    token: Address,
    registry_address: Address,
    receipt: Address,
)
    ensures
        s.run(ops).address == s.address,
        s.run(ops).deployer == s.deployer,
        s.token is Some ==> s.run(ops).token == s.token && s.run(ops).registry == s.registry
            && s.run(ops).initialize(token, registry_address) == (Err::<(), escrow::Error>(
            escrow::Error::AlreadyInitialized,
        ), s.run(ops)),
        s.receipt is Some ==> s.run(ops).receipt == s.receipt && s.run(ops).set_receipt_contract(
            receipt,
        ) == (Err::<(), escrow::Error>(escrow::Error::AlreadyInitialized), s.run(ops)),
    decreases ops.len(),
{
    if ops.len() > 0 {
        escrow_wiring_is_permanent(s, ops.drop_last(), token, registry_address, receipt);
    }
}

/// Whether an invocation has the escrow itself as the depositing or withdrawing caller,
/// or as the provider paid by a settlement.
pub open spec fn involves_itself(op: EscrowOp, escrow_address: Address) -> bool {
    match op {
        EscrowOp::Deposit { caller, .. } => caller == escrow_address,
        EscrowOp::Withdraw { caller, .. } => caller == escrow_address,
        EscrowOp::Settle { provider, .. } => provider == escrow_address,
        _ => false,
    }
}

/// Conservation over any sequence of invocations in which the escrow is not itself the
/// caller of a deposit or withdrawal, nor the provider of a settlement: the sum of all
/// balances stays equal to the net amount of tokens the escrow has received through its
/// own transfers. The escrow's token holding is that amount plus whatever others send it,
/// so its stored balances stay backed by tokens it holds.
pub proof fn escrow_conservation_over_runs(s: EscrowState, ops: Seq<EscrowOp>)
    requires
        s.inv(),
        total(s.balances) == net_inflow(s.transfers, s.address),
        forall|i: int| 0 <= i < ops.len() ==> !involves_itself(#[trigger] ops[i], s.address),
    ensures
        total(s.run(ops).balances) == net_inflow(s.run(ops).transfers, s.run(ops).address),
    decreases ops.len(),
{
    if ops.len() > 0 {
        let prefix = ops.drop_last();
        assert forall|i: int| 0 <= i < prefix.len() implies !involves_itself(
            #[trigger] prefix[i],
            s.address,
        ) by {
            assert(prefix[i] == ops[i]);
        }
        escrow_conservation_over_runs(s, prefix);
        escrow_invariant_over_runs(s, prefix);
        escrow_wiring_is_permanent(s, prefix, s.address, s.address, s.address);
        let t = s.run(prefix);
        let op = ops.last();
        assert(!involves_itself(ops[ops.len() - 1], s.address));
        match op {
            EscrowOp::Deposit { registered, caller, provider, amount, .. } => {
                escrow_conservation(t, registered, caller, caller, provider, amount);
            },
            EscrowOp::Withdraw { caller, provider, amount, .. } => {
                escrow_conservation(t, false, caller, caller, provider, amount);
            },
            EscrowOp::Settle { invoker, caller, provider, amount, .. } => {
                escrow_conservation(t, false, invoker, caller, provider, amount);
            },
            _ => {},
        }
    }
}

/// Solvency: if the escrow holds at least the net amount its own transfers brought in
/// (its holding is that amount plus whatever it held or was sent otherwise, and only the
/// escrow moves its tokens out), then after any sequence of invocations in which it is not
/// itself the caller of a deposit or withdrawal nor the provider of a settlement, what it
/// holds — the starting holding changed by the transfers made since — is at least the sum
/// of all stored balances.
pub proof fn escrow_solvency_over_runs(s: EscrowState, ops: Seq<EscrowOp>, held: int)
    requires
        s.inv(),
        total(s.balances) == net_inflow(s.transfers, s.address),
        held >= net_inflow(s.transfers, s.address),
        forall|i: int| 0 <= i < ops.len() ==> !involves_itself(#[trigger] ops[i], s.address),
    ensures
        ({
            let t = s.run(ops);
            held + net_inflow(t.transfers, t.address) - net_inflow(s.transfers, s.address) >= total(
                t.balances,
            )
        }),
{
    escrow_conservation_over_runs(s, ops);
    escrow_wiring_is_permanent(s, ops, s.address, s.address, s.address);
}

// ── receipt ─────────────────────────────────────────────────────────────────

/// The receipt contract's addresses are wired once: a second `initialize` is refused with
/// `AlreadyInitialized` and changes nothing.
pub proof fn receipt_initialize_once(
    s: ReceiptState,
    escrow_address: Address,
    registry_address: Address,
    escrow2: Address,
    registry2: Address,
)
    ensures
        ({
            let s1 = s.initialize(escrow_address, registry_address).1;
            s1.initialize(escrow2, registry2) == (Err::<(), receipt::Error>(
                receipt::Error::AlreadyInitialized,
            ), s1)
        }),
{
}

/// Nonces strictly increase: an accepted receipt records its nonce as the caller's last
/// one, greater than the one before, and leaves the nonces of other callers as they were.
pub proof fn receipt_nonce_increases(
    s: ReceiptState,
    registry: RegistryState,
    e: EscrowState,
    caller: Address,
    other: Address,
    provider: Address,
    amount: i128,
    nonce: u64,
    receipt_hash: [u8; 32],
    timestamp: u64,
)
    requires
        s.submit_receipt(registry, e, caller, provider, amount, nonce, receipt_hash, timestamp).0 is Ok,
        other != caller,
    ensures
        ({
            let s1 = s.submit_receipt(
                registry,
                e,
                caller,
                provider,
                amount,
                nonce,
                receipt_hash,
                timestamp,
            ).1;
            &&& s1.nonce(caller) == nonce
            &&& nonce > s.nonce(caller)
            &&& s1.nonce(other) == s.nonce(other)
        }),
{
}

/// Replay protection: once a receipt with nonce `nonce` is accepted for a caller, any later
/// submission by that caller with a nonce not above it is refused with `InvalidNonce` and
/// changes nothing.
pub proof fn receipt_replay_refused(
    s: ReceiptState,
    registry: RegistryState,
    e: EscrowState,
    caller: Address,
    provider: Address,
    amount: i128,
    nonce: u64,
    receipt_hash: [u8; 32],
    timestamp: u64,
    registry2: RegistryState,
    e2: EscrowState,
    provider2: Address,
    amount2: i128,
    nonce2: u64,
    receipt_hash2: [u8; 32],
    timestamp2: u64,
)
    requires
        s.submit_receipt(registry, e, caller, provider, amount, nonce, receipt_hash, timestamp).0 is Ok,
        nonce2 <= nonce,
    ensures
        ({
            let s1 = s.submit_receipt(
                registry,
                e,
                caller,
                provider,
                amount,
                nonce,
                receipt_hash,
                timestamp,
            ).1;
            s1.submit_receipt(
                registry2,
                e2,
                caller,
                provider2,
                amount2,
                nonce2,
                receipt_hash2,
                timestamp2,
            ) == (Err::<(), receipt::Error>(receipt::Error::InvalidNonce), s1, e2)
        }),
{
}

/// Receipts are immutable: an accepted receipt adds exactly one new record, under a hash
/// that was free, and leaves every other record as it was; a submission that fails
/// changes neither the receipt contract nor the escrow.
pub proof fn receipt_records_are_immutable(
    s: ReceiptState,
    registry: RegistryState,
    e: EscrowState,
    caller: Address,
    provider: Address,
    amount: i128,
    nonce: u64,
    receipt_hash: [u8; 32],
    timestamp: u64,
    other_hash: [u8; 32],
)
    requires
        other_hash != receipt_hash,
    ensures
        ({
            let (r, s1, e1) = s.submit_receipt(
                registry,
                e,
                caller,
                provider,
                amount,
                nonce,
                receipt_hash,
                timestamp,
            );
            &&& s1.get_receipt(other_hash) == s.get_receipt(other_hash)
            &&& r is Ok ==> !s.receipts.contains_key(receipt_hash)
            &&& r is Err ==> s1 == s && e1 == e
        }),
{
}

/// A receipt hash is accepted once: after a receipt is accepted, any later submission
/// with the same hash is refused, and reading the hash gives the recorded call.
pub proof fn receipt_submit_then_get(
    s: ReceiptState,
    registry: RegistryState,
    e: EscrowState,
    caller: Address,
    provider: Address,
    amount: i128,
    nonce: u64,
    receipt_hash: [u8; 32],
    timestamp: u64,
    registry2: RegistryState,
    e2: EscrowState,
    caller2: Address,
    provider2: Address,
    amount2: i128,
    nonce2: u64,
    timestamp2: u64,
)
    requires
        s.submit_receipt(registry, e, caller, provider, amount, nonce, receipt_hash, timestamp).0 is Ok,
    ensures
        ({
            let s1 = s.submit_receipt(
                registry,
                e,
                caller,
                provider,
                amount,
                nonce,
                receipt_hash,
                timestamp,
            ).1;
            &&& s1.get_receipt(receipt_hash) == Ok::<ReceiptRecord, receipt::Error>(
                ReceiptRecord { caller, provider, amount, nonce, timestamp },
            )
            &&& s1.submit_receipt(
                registry2,
                e2,
                caller2,
                provider2,
                amount2,
                nonce2,
                receipt_hash,
                timestamp2,
            ).0 is Err
        }),
{
}

/// A receipt is not stored when its settlement fails: a submission that passes the
/// receipt contract's checks but whose settlement in the escrow is refused aborts the whole invocation, leaving both the receipt contract and the escrow as they
/// were.
pub proof fn receipt_not_stored_when_settlement_fails(
    s: ReceiptState,
    registry: RegistryState,
    e: EscrowState,
    caller: Address,
    provider: Address,
    amount: i128,
    nonce: u64,
    receipt_hash: [u8; 32],
    timestamp: u64,
)
    requires
        s.reaches_settle(registry, caller, provider, amount, nonce, receipt_hash),
        e.settle(s.address, caller, provider, amount).0 is Err,
    ensures
        s.try_submit_receipt(registry, e, caller, provider, amount, nonce, receipt_hash, timestamp)
            == (None::<Result<(), receipt::Error>>, s, e),
{
}

/// Settlement is atomic with recording: an accepted receipt is one whose amount is within
/// the provider's price, and the same invocation settles exactly that amount from the
/// caller's escrow balance to the provider.
pub proof fn receipt_settles_atomically(
    s: ReceiptState,
    registry: RegistryState,
    e: EscrowState,
    caller: Address,
    provider: Address,
    amount: i128,
    nonce: u64,
    receipt_hash: [u8; 32],
    timestamp: u64,
)
    requires
        e.inv(),
        s.submit_receipt(registry, e, caller, provider, amount, nonce, receipt_hash, timestamp).0 is Ok,
        !s.submit_aborts(registry, e, caller, provider, amount, nonce, receipt_hash),
    ensures
        ({
            let e1 = s.submit_receipt(
                registry,
                e,
                caller,
                provider,
                amount,
                nonce,
                receipt_hash,
                timestamp,
            ).2;
            &&& amount <= registry.providers[provider].price_per_call
            &&& e1.balance(caller, provider) == e.balance(caller, provider) - amount
            &&& e1.transfers == e.transfers.push(
                Transfer { from: e.address, to: provider, amount },
            )
        }),
{
}

/// A caller's nonce never decreases, whatever invocations follow.
pub proof fn receipt_nonces_never_decrease(s: ReceiptState, ops: Seq<ReceiptOp>, caller: Address)
    ensures
        s.run(ops).nonce(caller) >= s.nonce(caller),
    decreases ops.len(),
{
    if ops.len() > 0 {
        receipt_nonces_never_decrease(s, ops.drop_last(), caller);
    }
}

/// Replay protection over any history: once a receipt with nonce `nonce` is accepted for a
/// caller, then whatever invocations follow, a submission by that caller with a nonce not
/// above it is refused with `InvalidNonce` and changes nothing.
pub proof fn receipt_replay_refused_after_any_calls(
    s: ReceiptState,
    registry: RegistryState,
    e: EscrowState,
    caller: Address,
    provider: Address,
    amount: i128,
    nonce: u64,
    receipt_hash: [u8; 32],
    timestamp: u64,
    ops: Seq<ReceiptOp>,
    registry2: RegistryState,
    e2: EscrowState,
    provider2: Address,
    amount2: i128,
    nonce2: u64,
    receipt_hash2: [u8; 32],
    timestamp2: u64,
)
    requires
        s.submit_receipt(registry, e, caller, provider, amount, nonce, receipt_hash, timestamp).0 is Ok,
        nonce2 <= nonce,
    ensures
        ({
            let s2 = s.submit_receipt(
                registry,
                e,
                caller,
                provider,
                amount,
                nonce,
                receipt_hash,
                timestamp,
            ).1.run(ops);
            s2.submit_receipt(
                registry2,
                e2,
                caller,
                provider2,
                amount2,
                nonce2,
                receipt_hash2,
                timestamp2,
            ) == (Err::<(), receipt::Error>(receipt::Error::InvalidNonce), s2, e2)
        }),
{
    let s1 = s.submit_receipt(registry, e, caller, provider, amount, nonce, receipt_hash, timestamp).1;
    receipt_nonces_never_decrease(s1, ops, caller);
}

/// Stored receipts are permanent: whatever invocations follow, a stored receipt reads the
/// same, and its hash is never accepted again.
pub proof fn receipt_records_are_permanent(
    s: ReceiptState,
    ops: Seq<ReceiptOp>,
    receipt_hash: [u8; 32],
    registry: RegistryState,
    e: EscrowState,
    caller: Address,
    provider: Address,
    amount: i128,
    nonce: u64,
    timestamp: u64,
)
    requires
        s.receipts.contains_key(receipt_hash),
    ensures
        s.run(ops).get_receipt(receipt_hash) == s.get_receipt(receipt_hash),
        s.run(ops).submit_receipt(registry, e, caller, provider, amount, nonce, receipt_hash, timestamp).0 is Err,
    decreases ops.len(),
{
    if ops.len() > 0 {
        receipt_records_are_permanent(
            s,
            ops.drop_last(),
            receipt_hash,
            registry,
            e,
            caller,
            provider,
            amount,
            nonce,
            timestamp,
        );
    }
}

/// The receipt contract's wiring is write-once: once wired it stays, whatever invocations
/// follow, and every later `initialize` is refused with `AlreadyInitialized`.
pub proof fn receipt_wiring_is_permanent(
    s: ReceiptState,
    ops: Seq<ReceiptOp>,
    escrow_address: Address,
    registry_address: Address,
)
    requires
        s.escrow is Some,
    ensures
        s.run(ops).escrow == s.escrow,
        s.run(ops).registry == s.registry,
        s.run(ops).address == s.address,
        s.run(ops).initialize(escrow_address, registry_address) == (Err::<(), receipt::Error>(
            receipt::Error::AlreadyInitialized,
        ), s.run(ops)),
    decreases ops.len(),
{
    if ops.len() > 0 {
        receipt_wiring_is_permanent(s, ops.drop_last(), escrow_address, registry_address);
    }
}

// ── when each operation succeeds, and what it then does ─────────────────────

/// A provider counts as registered exactly when the registry holds a record for it,
/// whatever the record's active flag; changing a provider's price or active flag never
/// changes which providers are registered.
pub proof fn registry_registered_means_recorded(
    s: RegistryState,
    provider: Address,
    other: Address,
    price: i128,
    active: bool,
)
    ensures
        s.is_registered(provider) <==> s.providers.contains_key(provider),
        s.set_active(provider, active).1.is_registered(other) == s.is_registered(other),
        s.update_price(provider, price).1.is_registered(other) == s.is_registered(other),
        s.is_registered(provider) ==> s.get_provider(provider) is Ok,
{
}

/// `update_price` succeeds exactly for a strictly positive price and a provider with a
/// record; for a provider with no record it is refused, with `ProviderNotFound` once the
/// price is valid, and nothing changes, whether or not the registry is initialised.
pub proof fn registry_update_price_succeeds_exactly_when(
    s: RegistryState,
    provider: Address,
    new_price: i128,
)
    ensures
        s.update_price(provider, new_price).0 is Ok <==> (new_price > 0 && s.providers.contains_key(
            provider,
        )),
        !s.providers.contains_key(provider) ==> s.update_price(provider, new_price) == (Err::<
            (),
            registry::Error,
        >(if new_price <= 0 {
            registry::Error::InvalidPrice
        } else {
            registry::Error::ProviderNotFound
        }), s),
        s.update_price(provider, new_price).0 is Ok ==> s.update_price(
            provider,
            new_price,
        ).1.providers[provider].price_per_call == new_price,
{
}

/// `set_active` succeeds exactly for a provider with a record, and then sets the flag.
pub proof fn registry_set_active_succeeds_exactly_when(s: RegistryState, provider: Address, active: bool)
    ensures
        s.set_active(provider, active).0 is Ok <==> s.providers.contains_key(provider),
        !s.providers.contains_key(provider) ==> s.set_active(provider, active) == (Err::<
            (),
            registry::Error,
        >(registry::Error::ProviderNotFound), s),
        s.set_active(provider, active).0 is Ok ==> s.set_active(
            provider,
            active,
        ).1.providers[provider].active == active,
{
}

/// A deposit of a strictly positive amount for a provider the wired registry holds a
/// record for (active or not), with the escrow wired and no overflow, succeeds: the
/// pair's balance grows by the amount and the amount moves from the caller to the escrow.
pub proof fn escrow_deposit_for_recorded_provider(
    s: EscrowState,
    registry: RegistryState,
    caller: Address,
    provider: Address,
    amount: i128,
)
    requires
        s.inv(),
        registry.providers.contains_key(provider),
        amount > 0,
        s.registry is Some,
        s.token is Some,
        s.balance(caller, provider) + amount <= i128::MAX,
    ensures
        ({
            let (r, s1) = s.deposit(registry.is_registered(provider), caller, provider, amount);
            &&& r is Ok
            &&& s1.balance(caller, provider) == s.balance(caller, provider) + amount
            &&& s1.transfers == s.transfers.push(Transfer { from: caller, to: s.address, amount })
        }),
{
}

/// A withdrawal succeeds exactly when the pair's balance covers the amount and the token
/// is wired, in every state; it then leaves the balance less the amount, pays the amount
/// from the escrow to the caller and publishes `Withdrawn`.
pub proof fn escrow_withdraw_succeeds_exactly_when(
    s: EscrowState,
    caller: Address,
    provider: Address,
    amount: i128,
)
    requires
        !s.withdraw_aborts(caller, provider, amount),
    ensures
        ({
            let (r, s1) = s.withdraw(caller, provider, amount);
            &&& r is Ok <==> (amount <= s.balance(caller, provider) && s.token is Some)
            &&& r is Ok ==> {
                &&& s1.balance(caller, provider) == s.balance(caller, provider) - amount
                &&& s1.transfers == s.transfers.push(
                    Transfer { from: s.address, to: caller, amount },
                )
                &&& s1.events == s.events.push(
                    EscrowEvent::Withdrawn(Withdrawn { caller, provider, amount }),
                )
            }
        }),
{
}

/// A settlement succeeds exactly when it is invoked by the wired receipt contract, the
/// amount is strictly positive and covered by the pair's balance, and the token is wired;
/// it then leaves the balance less the amount, pays the amount from the escrow to the
/// provider and publishes `Settled`.
pub proof fn escrow_settle_succeeds_exactly_when(
    s: EscrowState,
    invoker: Address,
    caller: Address,
    provider: Address,
    amount: i128,
)
    ensures
        ({
            let (r, s1) = s.settle(invoker, caller, provider, amount);
            &&& r is Ok <==> (s.receipt == Some(invoker) && 0 < amount <= s.balance(
                caller,
                provider,
            ) && s.token is Some)
            &&& r is Ok ==> {
                &&& s1.balance(caller, provider) == s.balance(caller, provider) - amount
                &&& s1.transfers == s.transfers.push(
                    Transfer { from: s.address, to: provider, amount },
                )
                &&& s1.events == s.events.push(
                    EscrowEvent::Settled(Settled { caller, provider, amount }),
                )
            }
        }),
{
}

/// A submission for a provider the registry holds a record for (active or not) is
/// accepted exactly when the nonce is above the caller's last, the contract is wired, the
/// amount is within the provider's price and the hash is new; an accepted submission
/// whose settlement the escrow accepts stores the record, advances the nonce and settles
/// the amount, and `try_submit_receipt` then reports `Ok`.
pub proof fn receipt_submit_succeeds_exactly_when(
    s: ReceiptState,
    registry: RegistryState,
    e: EscrowState,
    caller: Address,
    provider: Address,
    amount: i128,
    nonce: u64,
    receipt_hash: [u8; 32],
    timestamp: u64,
)
    requires
        registry.providers.contains_key(provider),
    ensures
        ({
            let (r, s1, e1) = s.submit_receipt(
                registry,
                e,
                caller,
                provider,
                amount,
                nonce,
                receipt_hash,
                timestamp,
            );
            &&& r is Ok <==> (nonce > s.nonce(caller) && s.registry is Some && amount
                <= registry.providers[provider].price_per_call && !s.receipts.contains_key(
                receipt_hash,
            ) && s.escrow is Some)
            &&& r is Ok ==> {
                &&& s1.receipts[receipt_hash] == ReceiptRecord {
                    caller,
                    provider,
                    amount,
                    nonce,
                    timestamp,
                }
                &&& s1.nonce(caller) == nonce
                &&& e1 == e.settle(s.address, caller, provider, amount).1
            }
            &&& (r is Ok && e.settle(s.address, caller, provider, amount).0 is Ok) ==> {
                &&& s.try_submit_receipt(
                    registry,
                    e,
                    caller,
                    provider,
                    amount,
                    nonce,
                    receipt_hash,
                    timestamp,
                ).0 == Some(Ok::<(), receipt::Error>(()))
                &&& e1.balance(caller, provider) == e.balance(caller, provider) - amount
            }
        }),
{
}

} // verus!
