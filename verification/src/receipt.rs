//! Receipt contract: the immutable record of API calls. A receipt is accepted only with
//! a fresh nonce of the caller, an amount within the provider's price per call and a hash
//! not seen before; it is settled through the escrow in the same invocation, and if the
//! settlement fails nothing is recorded.
use vstd::prelude::*;

use crate::address::{Address, Signers};
use crate::keyed::KeyedList;
use crate::escrow::{EscrowContract, EscrowState};
use crate::registry::{RegistryContract, RegistryState};

pub use crate::registry::ProviderInfo;

verus! {

/// Errors returned by the receipt contract.
#[derive(Clone, Copy, Debug, PartialEq, Eq, Structural, PartialOrd, Ord)]
pub enum Error {
    /// `initialize` was called a second time, or a required address has not been wired.
    AlreadyInitialized,
    /// The nonce is not strictly greater than the caller's last recorded nonce.
    InvalidNonce,
    /// The amount exceeds the provider's price per call.
    PriceMismatch,
    /// A receipt with this hash already exists.
    ReceiptExists,
    /// No receipt with the requested hash exists.
    ReceiptNotFound,
}

/// The record of an API call receipt and its settlement.
#[derive(Clone, Copy, Debug, PartialEq, Eq, Structural)]
pub struct ReceiptRecord {
    /// The caller who made the API call.
    pub caller: Address,
    /// The provider who handled the call.
    pub provider: Address,
    /// The amount settled for this call.
    pub amount: i128,
    /// The caller's nonce for this receipt.
    pub nonce: u64,
    /// Ledger timestamp when the receipt was submitted.
    pub timestamp: u64,
}

/// Published when a receipt is submitted and settled.
#[derive(Clone, Copy, Debug)]
pub struct ReceiptSubmitted {
    pub caller: Address,
    pub provider: Address,
    pub receipt_hash: [u8; 32],
    pub amount: i128,
}

/// Accepts `nonce` exactly when it is strictly greater than the last recorded one.
pub fn check_nonce(last_nonce: u64, nonce: u64) -> (r: Result<(), Error>)
    ensures
        r == (if nonce > last_nonce { Ok::<(), Error>(()) } else { Err(Error::InvalidNonce) }),
{
    if nonce <= last_nonce {
        Err(Error::InvalidNonce)
    } else {
        Ok(())
    }
}

/// Accepts `amount` exactly when it does not exceed the price per call.
pub fn check_price(amount: i128, price_per_call: i128) -> (r: Result<(), Error>)
    ensures
        r == (if amount <= price_per_call {
            Ok::<(), Error>(())
        } else {
            Err(Error::PriceMismatch)
        }),
{
    if amount > price_per_call {
        Err(Error::PriceMismatch)
    } else {
        Ok(())
    }
}

/// Refuses a second initialisation: `already` is whether the escrow is stored.
pub fn check_not_initialized(already: bool) -> (r: Result<(), Error>)
    ensures
        r == (if already { Err::<(), Error>(Error::AlreadyInitialized) } else { Ok(()) }),
{
    if already {
        Err(Error::AlreadyInitialized)
    } else {
        Ok(())
    }
}

/// The checks of a submission before the registry is consulted.
pub fn submit_start(last_nonce: u64, nonce: u64, registry_wired: bool) -> (r: Result<(), Error>)
    ensures
        r == (if nonce <= last_nonce {
            Err::<(), Error>(Error::InvalidNonce)
        } else if !registry_wired {
            Err(Error::AlreadyInitialized)
        } else {
            Ok(())
        }),
{
    check_nonce(last_nonce, nonce)?;
    if !registry_wired {
        return Err(Error::AlreadyInitialized);
    }
    Ok(())
}

/// The checks of a submission once the registry has given the provider's price, before
/// the settlement.
pub fn submit_finish(amount: i128, price_per_call: i128, receipt_exists: bool, escrow_wired: bool) -> (r:
    Result<(), Error>)
    ensures
        r == (if amount > price_per_call {
            Err::<(), Error>(Error::PriceMismatch)
        } else if receipt_exists {
            Err(Error::ReceiptExists)
        } else if !escrow_wired {
            Err(Error::AlreadyInitialized)
        } else {
            Ok(())
        }),
{
    check_price(amount, price_per_call)?;
    if receipt_exists {
        return Err(Error::ReceiptExists);
    }
    if !escrow_wired {
        return Err(Error::AlreadyInitialized);
    }
    Ok(())
}

/// The abstract state of a receipt contract.
pub struct ReceiptState {
    /// The receipt contract's own address.
    pub address: Address,
    /// The escrow contract, once `initialize` has run.
    pub escrow: Option<Address>,
    /// The registry contract, once `initialize` has run.
    pub registry: Option<Address>,
    /// The last nonce of each caller that has submitted a receipt.
    pub nonces: Map<Address, u64>,
    /// Stored receipts keyed by receipt hash.
    pub receipts: Map<[u8; 32], ReceiptRecord>,
    /// Published events, oldest first.
    pub events: Seq<ReceiptSubmitted>,
}

impl ReceiptState {
    /// The last nonce of `caller`; zero when the caller has never submitted.
    pub open spec fn nonce(self, caller: Address) -> u64 {
        if self.nonces.contains_key(caller) {
            self.nonces[caller]
        } else {
            0
        }
    }

    pub open spec fn initialize(self, escrow: Address, registry: Address) -> (
        Result<(), Error>,
        ReceiptState,
    ) {
        if self.escrow is Some {
            (Err(Error::AlreadyInitialized), self)
        } else {
            (Ok(()), ReceiptState { escrow: Some(escrow), registry: Some(registry), ..self })
        }
    }

    /// Whether a submission passes every check of the receipt contract and reaches the
    /// settlement in the escrow.
    pub open spec fn reaches_settle(
        self,
        registry: RegistryState,
        caller: Address,
        provider: Address,
        amount: i128,
        nonce: u64,
        receipt_hash: [u8; 32],
    ) -> bool {
        &&& nonce > self.nonce(caller)
        &&& self.registry is Some
        &&& registry.is_registered(provider)
        &&& amount <= registry.providers[provider].price_per_call
        &&& !self.receipts.contains_key(receipt_hash)
        &&& self.escrow is Some
    }

    /// The inputs on which a submission aborts the invocation: the registry does not know
    /// the provider, or the settlement in the escrow fails.
    pub open spec fn submit_aborts(
        self,
        registry: RegistryState,
        escrow: EscrowState,
        caller: Address,
        provider: Address,
        amount: i128,
        nonce: u64,
        receipt_hash: [u8; 32],
    ) -> bool {
        ||| nonce > self.nonce(caller) && self.registry is Some && !registry.is_registered(provider)
        ||| self.reaches_settle(registry, caller, provider, amount, nonce, receipt_hash)
            && escrow.settle(self.address, caller, provider, amount).0 is Err
    }

    /// A submission, with the registry and escrow the contract is wired to; it gives the
    /// result and the new states of the receipt contract and of the escrow.
    pub open spec fn submit_receipt(
        self,
        registry: RegistryState,
        escrow: EscrowState,
        caller: Address,
        provider: Address,
        amount: i128,
        nonce: u64,
        receipt_hash: [u8; 32],
        timestamp: u64,
    ) -> (Result<(), Error>, ReceiptState, EscrowState) {
        if nonce <= self.nonce(caller) {
            (Err(Error::InvalidNonce), self, escrow)
        } else if self.registry is None {
            (Err(Error::AlreadyInitialized), self, escrow)
        } else if amount > registry.providers[provider].price_per_call {
            (Err(Error::PriceMismatch), self, escrow)
        } else if self.receipts.contains_key(receipt_hash) {
            (Err(Error::ReceiptExists), self, escrow)
        } else if self.escrow is None {
            (Err(Error::AlreadyInitialized), self, escrow)
        } else {
            let record = ReceiptRecord { caller, provider, amount, nonce, timestamp };
            let event = ReceiptSubmitted { caller, provider, receipt_hash, amount };
            (
                Ok(()),
                ReceiptState {
                    receipts: self.receipts.insert(receipt_hash, record),
                    nonces: self.nonces.insert(caller, nonce),
                    events: self.events.push(event),
                    ..self
                },
                escrow.settle(self.address, caller, provider, amount).1,
            )
        }
    }

    /// A submission as its caller sees it: `None` when the invocation aborts, in which
    /// case neither contract changes, and `Some` of the contract's result otherwise.
    pub open spec fn try_submit_receipt(
        self,
        registry: RegistryState,
        escrow: EscrowState,
        caller: Address,
        provider: Address,
        amount: i128,
        nonce: u64,
        receipt_hash: [u8; 32],
        timestamp: u64,
    ) -> (Option<Result<(), Error>>, ReceiptState, EscrowState) {
        if self.submit_aborts(registry, escrow, caller, provider, amount, nonce, receipt_hash) {
            (None, self, escrow)
        } else {
            let (r, s, e) = self.submit_receipt(
                registry,
                escrow,
                caller,
                provider,
                amount,
                nonce,
                receipt_hash,
                timestamp,
            );
            (Some(r), s, e)
        }
    }

    pub open spec fn get_receipt(self, receipt_hash: [u8; 32]) -> Result<ReceiptRecord, Error> {
        if self.receipts.contains_key(receipt_hash) {
            Ok(self.receipts[receipt_hash])
        } else {
            Err(Error::ReceiptNotFound)
        }
    }
}

/// A receipt-contract invocation that changes state, with its arguments: the registry and
/// escrow states are those the invocation meets.
pub enum ReceiptOp {
    Initialize { escrow_address: Address, registry_address: Address },
    SubmitReceipt {
        registry: RegistryState,
        escrow: EscrowState,
        caller: Address,
        provider: Address,
        amount: i128,
        nonce: u64,
        receipt_hash: [u8; 32],
        timestamp: u64,
    },
}

impl ReceiptState {
    /// The state after one invocation; one that aborts changes nothing.
    pub open spec fn step(self, op: ReceiptOp) -> ReceiptState {
        match op {
            ReceiptOp::Initialize { escrow_address, registry_address } => self.initialize(
                escrow_address,
                registry_address,
            ).1,
            ReceiptOp::SubmitReceipt {
                registry,
                escrow,
                caller,
                provider,
                amount,
                nonce,
                receipt_hash,
                timestamp,
            } => self.try_submit_receipt(
                registry,
                escrow,
                caller,
                provider,
                amount,
                nonce,
                receipt_hash,
                timestamp,
            ).1,
        }
    }

    /// The state after a sequence of invocations, oldest first.
    pub open spec fn run(self, ops: Seq<ReceiptOp>) -> ReceiptState
        decreases ops.len(),
    {
        if ops.len() == 0 {
            self
        } else {
            self.run(ops.drop_last()).step(ops.last())
        }
    }
}

/// A receipt contract: its storage held as keyed lists of nonces and of receipts.
pub struct ReceiptContract {
    address: Address,
    escrow: Option<Address>,
    registry: Option<Address>,
    nonces: KeyedList<Address, u64>,
    receipts: KeyedList<[u8; 32], ReceiptRecord>,
    events: Vec<ReceiptSubmitted>,
}

impl View for ReceiptContract {
    type V = ReceiptState;

    closed spec fn view(&self) -> ReceiptState {
        ReceiptState {
            address: self.address,
            escrow: self.escrow,
            registry: self.registry,
            nonces: self.nonces@,
            receipts: self.receipts@,
            events: self.events@,
        }
    }
}

impl ReceiptContract {
    /// Well-formedness: the storage is well formed.
    pub closed spec fn wf(&self) -> bool {
        &&& self.nonces.wf()
        &&& self.receipts.wf()
    }

    /// A freshly deployed receipt contract at `address`, with empty storage.
    pub fn new(address: Address) -> (r: ReceiptContract)
        ensures
            r.wf(),
            r@.address == address,
            r@.escrow is None,
            r@.registry is None,
            r@.nonces == Map::<Address, u64>::empty(),
            r@.receipts == Map::<[u8; 32], ReceiptRecord>::empty(),
            r@.events == Seq::<ReceiptSubmitted>::empty(),
    {
        ReceiptContract {
            address,
            escrow: None,
            registry: None,
            nonces: KeyedList::new(),
            receipts: KeyedList::new(),
            events: Vec::new(),
        }
    }

    /// The receipt contract's own address.
    pub fn address(&self) -> (r: Address)
        ensures
            r == self@.address,
    {
        self.address
    }

    /// The wired escrow contract.
    pub fn escrow(&self) -> (r: Option<Address>)
        ensures
            r == self@.escrow,
    {
        self.escrow
    }

    /// The wired registry contract.
    pub fn registry(&self) -> (r: Option<Address>)
        ensures
            r == self@.registry,
    {
        self.registry
    }

    /// The events published so far, oldest first.
    pub fn events(&self) -> (r: &Vec<ReceiptSubmitted>)
        ensures
            r@ == self@.events,
    {
        &self.events
    }

    /// Wires the escrow and registry contracts; refused once they are wired.
    pub fn initialize(&mut self, escrow: Address, registry: Address) -> (r: Result<(), Error>)
        requires
            old(self).wf(),
        ensures
            final(self).wf(),
            (r, final(self)@) == old(self)@.initialize(escrow, registry),
    {
        check_not_initialized(self.escrow.is_some())?;
        self.escrow = Some(escrow);
        self.registry = Some(registry);
        Ok(())
    }

    /// Submits a receipt of `caller`'s call to `provider` for `amount`, which both of them
    /// authorise, with the caller's `nonce`, the receipt's hash and the ledger `timestamp`,
    /// and settles it through `escrow`. `registry` and `escrow` are the contracts this one
    /// is wired to.
    pub fn submit_receipt(
        &mut self,
        signers: &Signers,
        registry: &RegistryContract,
        escrow: &mut EscrowContract,
        caller: Address,
        provider: Address,
        amount: i128,
        nonce: u64,
        receipt_hash: [u8; 32],
        timestamp: u64,
    ) -> (r: Result<(), Error>)
        requires
            old(self).wf(),
            registry.wf(),
            old(escrow).wf(),
            signers.authorizes(caller),
            signers.authorizes(provider),
            old(self)@.registry is Some ==> old(self)@.registry == Some(registry@.address),
            old(self)@.escrow is Some ==> old(self)@.escrow == Some(old(escrow)@.address),
            !old(self)@.submit_aborts(
                registry@,
                old(escrow)@,
                caller,
                provider,
                amount,
                nonce,
                receipt_hash,
            ),
        ensures
            final(self).wf(),
            final(escrow).wf(),
            (r, final(self)@, final(escrow)@) == old(self)@.submit_receipt(
                registry@,
                old(escrow)@,
                caller,
                provider,
                amount,
                nonce,
                receipt_hash,
                timestamp,
            ),
    {
        submit_start(self.get_nonce(caller), nonce, self.registry.is_some())?;
        let info = registry.get_provider(provider).unwrap();
        submit_finish(
            amount,
            info.price_per_call,
            self.receipts.get(&receipt_hash).is_some(),
            self.escrow.is_some(),
        )?;
        escrow.settle(self.address, caller, provider, amount).unwrap();
        let record = ReceiptRecord { caller, provider, amount, nonce, timestamp };
        self.receipts.put(receipt_hash, record);
        self.nonces.put(caller, nonce);
        self.events.push(ReceiptSubmitted { caller, provider, receipt_hash, amount });
        Ok(())
    }

    /// Whether a submission with these arguments aborts the invocation.
    fn aborts(
        &self,
        registry: &RegistryContract,
        escrow: &EscrowContract,
        caller: Address,
        provider: Address,
        amount: i128,
        nonce: u64,
        receipt_hash: &[u8; 32],
    ) -> (r: bool)
        requires
            self.wf(),
            registry.wf(),
            escrow.wf(),
        ensures
            r == self@.submit_aborts(
                registry@,
                escrow@,
                caller,
                provider,
                amount,
                nonce,
                *receipt_hash,
            ),
    {
        if submit_start(self.get_nonce(caller), nonce, self.registry.is_some()).is_err() {
            return false;
        }
        let info = match registry.get_provider(provider) {
            Ok(info) => info,
            Err(_) => return true,
        };
        if submit_finish(
            amount,
            info.price_per_call,
            self.receipts.get(receipt_hash).is_some(),
            self.escrow.is_some(),
        ).is_err() {
            return false;
        }
        !escrow.can_settle(self.address, caller, provider, amount)
    }

    /// Submits a receipt as `submit_receipt` does, on every input: `None` when the
    /// invocation aborts (the registry does not know the provider, or the settlement in the
    /// escrow fails), in which case nothing is recorded and nothing is settled.
    pub fn try_submit_receipt(
        &mut self,
        signers: &Signers,
        registry: &RegistryContract,
        escrow: &mut EscrowContract,
        caller: Address,
        provider: Address,
        amount: i128,
        nonce: u64,
        receipt_hash: [u8; 32],
        timestamp: u64,
    ) -> (r: Option<Result<(), Error>>)
        requires
            old(self).wf(),
            registry.wf(),
            old(escrow).wf(),
            signers.authorizes(caller),
            signers.authorizes(provider),
            old(self)@.registry is Some ==> old(self)@.registry == Some(registry@.address),
            old(self)@.escrow is Some ==> old(self)@.escrow == Some(old(escrow)@.address),
        ensures
            final(self).wf(),
            final(escrow).wf(),
            (r, final(self)@, final(escrow)@) == old(self)@.try_submit_receipt(
                registry@,
                old(escrow)@,
                caller,
                provider,
                amount,
                nonce,
                receipt_hash,
                timestamp,
            ),
    {
        if self.aborts(registry, escrow, caller, provider, amount, nonce, &receipt_hash) {
            return None;
        }
        Some(
            self.submit_receipt(
                signers,
                registry,
                escrow,
                caller,
                provider,
                amount,
                nonce,
                receipt_hash,
                timestamp,
            ),
        )
    }

    /// The receipt stored under `receipt_hash`.
    pub fn get_receipt(&self, receipt_hash: [u8; 32]) -> (r: Result<ReceiptRecord, Error>)
        requires
            self.wf(),
        ensures
            r == self@.get_receipt(receipt_hash),
    {
        match self.receipts.get(&receipt_hash) {
            Some(record) => Ok(*record),
            None => Err(Error::ReceiptNotFound),
        }
    }

    /// The last nonce of `caller`; zero when the caller has never submitted.
    pub fn get_nonce(&self, caller: Address) -> (r: u64)
        requires
            self.wf(),
        ensures
            r == self@.nonce(caller),
    {
        match self.nonces.get(&caller) {
            Some(n) => *n,
            None => 0,
        }
    }
}

} // verus!
