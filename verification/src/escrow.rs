//! Escrow contract: the balance sheet of API call settlement. It holds caller deposits
//! per (caller, provider) pair; deposits and withdrawals move tokens between the caller
//! and the escrow, and settlements, which only the wired receipt contract may make,
//! move tokens from the escrow to the provider.
use vstd::prelude::*;

use crate::address::{Address, Signers};
use crate::keyed::KeyedList;
use crate::registry::RegistryContract;

verus! {

/// Errors returned by the escrow.
#[derive(Clone, Copy, Debug, PartialEq, Eq, Structural, PartialOrd, Ord)]
pub enum Error {
    /// `initialize` or `set_receipt_contract` was called a second time, or a required
    /// address has not been wired yet.
    AlreadyInitialized,
    /// The caller's balance is less than the amount to withdraw or settle.
    InsufficientBalance,
    /// A deposit or settlement amount was zero or negative, or a balance would overflow.
    InvalidAmount,
    /// The contract attempting `settle` is not the wired receipt contract.
    Unauthorized,
    /// The provider of a deposit is not registered in the registry. (Withdrawals and
    /// settlements do not consult the registry: a caller's funds stay withdrawable and
    /// settleable whatever becomes of the provider's registration.)
    ProviderNotFound,
}

/// Published when a caller deposits funds for a provider.
#[derive(Clone, Copy, Debug, PartialEq, Eq, Structural)]
pub struct Deposited {
    pub caller: Address,
    pub provider: Address,
    pub amount: i128,
}

/// Published when a caller withdraws unused funds.
#[derive(Clone, Copy, Debug, PartialEq, Eq, Structural)]
pub struct Withdrawn {
    pub caller: Address,
    pub provider: Address,
    pub amount: i128,
}

/// Published when funds are settled from a caller's balance to the provider.
#[derive(Clone, Copy, Debug, PartialEq, Eq, Structural)]
pub struct Settled {
    pub caller: Address,
    pub provider: Address,
    pub amount: i128,
}

/// Published when the receipt contract is wired.
#[derive(Clone, Copy, Debug, PartialEq, Eq, Structural)]
pub struct ReceiptContractSet {
    pub receipt: Address,
}

/// The events the escrow publishes, in the order it publishes them.
#[derive(Clone, Copy, Debug, PartialEq, Eq, Structural)]
pub enum EscrowEvent {
    Deposited(Deposited),
    Withdrawn(Withdrawn),
    Settled(Settled),
    ReceiptContractSet(ReceiptContractSet),
}

/// A token transfer that the escrow makes through the token contract, between parties
/// named by `A`.
#[derive(Clone, Copy, Debug, PartialEq, Eq)]
pub struct Transfer<A> {
    pub from: A,
    pub to: A,
    pub amount: i128,
}

/// Accepts a deposit amount exactly when it is strictly positive.
pub fn check_amount(amount: i128) -> (r: Result<(), Error>)
    ensures
        r == (if amount > 0 { Ok::<(), Error>(()) } else { Err(Error::InvalidAmount) }),
{
    if amount <= 0 {
        Err(Error::InvalidAmount)
    } else {
        Ok(())
    }
}

/// The balance after crediting `amount` to `current`; refused when it would overflow.
pub fn credit(current: i128, amount: i128) -> (r: Result<i128, Error>)
    ensures
        r == (if i128::MIN <= current + amount <= i128::MAX {
            Ok::<i128, Error>((current + amount) as i128)
        } else {
            Err(Error::InvalidAmount)
        }),
{
    match current.checked_add(amount) {
        Some(v) => Ok(v),
        None => Err(Error::InvalidAmount),
    }
}

/// What is left of `current` after taking `amount` from it: `Some` of the new balance
/// when it stays strictly positive, `None` when the entry is to be removed. Refused when
/// `current` is less than `amount`.
pub fn debit(current: i128, amount: i128) -> (r: Result<Option<i128>, Error>)
    requires
        current < amount || current - amount <= i128::MAX,
    ensures
        r == (if current < amount {
            Err::<Option<i128>, Error>(Error::InsufficientBalance)
        } else if current - amount > 0 {
            Ok(Some((current - amount) as i128))
        } else {
            Ok(None)
        }),
{
    if current < amount {
        return Err(Error::InsufficientBalance);
    }
    let new_balance: i128 = current - amount;
    if new_balance > 0 {
        Ok(Some(new_balance))
    } else {
        Ok(None)
    }
}

/// Refuses a second wiring: `already` is whether the address is stored.
pub fn check_not_initialized(already: bool) -> (r: Result<(), Error>)
    ensures
        r == (if already { Err::<(), Error>(Error::AlreadyInitialized) } else { Ok(()) }),
{
    if already {
        Err(Error::AlreadyInitialized)
    } else {
        Ok(())
    }
}

/// The checks of a deposit before the registry is consulted.
pub fn deposit_start(amount: i128, registry_wired: bool) -> (r: Result<(), Error>)
    ensures
        r == (if amount <= 0 {
            Err::<(), Error>(Error::InvalidAmount)
        } else if !registry_wired {
            Err(Error::AlreadyInitialized)
        } else {
            Ok(())
        }),
{
    check_amount(amount)?;
    if !registry_wired {
        return Err(Error::AlreadyInitialized);
    }
    Ok(())
}

/// The rest of a deposit, once the registry has answered: the new balance of the pair
/// and the transfer that brings the amount from `caller` to `escrow`.
pub fn deposit_finish<A>(
    provider_registered: bool,
    token_wired: bool,
    current: i128,
    amount: i128,
    caller: A,
    escrow: A,
) -> (r: Result<(i128, Transfer<A>), Error>)
    ensures
        r == (if !provider_registered {
            Err::<(i128, Transfer<A>), Error>(Error::ProviderNotFound)
        } else if !token_wired {
            Err(Error::AlreadyInitialized)
        } else if current + amount > i128::MAX || current + amount < i128::MIN {
            Err(Error::InvalidAmount)
        } else {
            Ok(((current + amount) as i128, Transfer { from: caller, to: escrow, amount }))
        }),
{
    if !provider_registered {
        return Err(Error::ProviderNotFound);
    }
    if !token_wired {
        return Err(Error::AlreadyInitialized);
    }
    let new_balance: i128 = credit(current, amount)?;
    Ok((new_balance, Transfer { from: caller, to: escrow, amount }))
}

/// The decision of a withdrawal from a balance of `current`: what is left of it (`None`
/// when the entry is to be removed) and the transfer that pays the amount from `escrow`
/// back to `caller`.
pub fn withdraw_decision<A>(current: i128, amount: i128, token_wired: bool, escrow: A, caller: A) -> (r:
    Result<(Option<i128>, Transfer<A>), Error>)
    requires
        current < amount || current - amount <= i128::MAX,
    ensures
        r == (if current < amount {
            Err::<(Option<i128>, Transfer<A>), Error>(Error::InsufficientBalance)
        } else if !token_wired {
            Err(Error::AlreadyInitialized)
        } else {
            Ok(
                (
                    if current - amount > 0 {
                        Some((current - amount) as i128)
                    } else {
                        None
                    },
                    Transfer { from: escrow, to: caller, amount },
                ),
            )
        }),
{
    let left: Option<i128> = debit(current, amount)?;
    if !token_wired {
        return Err(Error::AlreadyInitialized);
    }
    Ok((left, Transfer { from: escrow, to: caller, amount }))
}

/// The decision of a settlement from a balance of `current`: `receipt_wired` is whether a
/// receipt contract is wired and `invoker_is_receipt` whether the invoker is that contract.
/// It gives what is left of the balance and the transfer that pays the amount from
/// `escrow` to `provider`.
pub fn settle_decision<A>(
    receipt_wired: bool,
    invoker_is_receipt: bool,
    amount: i128,
    current: i128,
    token_wired: bool,
    escrow: A,
    provider: A,
) -> (r: Result<(Option<i128>, Transfer<A>), Error>)
    ensures
        r == (if !receipt_wired {
            Err::<(Option<i128>, Transfer<A>), Error>(Error::AlreadyInitialized)
        } else if !invoker_is_receipt {
            Err(Error::Unauthorized)
        } else if amount <= 0 {
            Err(Error::InvalidAmount)
        } else if current < amount {
            Err(Error::InsufficientBalance)
        } else if !token_wired {
            Err(Error::AlreadyInitialized)
        } else {
            Ok(
                (
                    if current - amount > 0 {
                        Some((current - amount) as i128)
                    } else {
                        None
                    },
                    Transfer { from: escrow, to: provider, amount },
                ),
            )
        }),
{
    if !receipt_wired {
        return Err(Error::AlreadyInitialized);
    }
    if !invoker_is_receipt {
        return Err(Error::Unauthorized);
    }
    check_amount(amount)?;
    withdraw_decision(current, amount, token_wired, escrow, provider)
}

/// The abstract state of an escrow: its storage, the events it has published and the
/// token transfers it has made.
pub struct EscrowState {
    /// The escrow's own contract address.
    pub address: Address,
    /// The party that deployed the escrow, whose authorisation `initialize` needs.
    pub deployer: Address,
    /// The token contract, once `initialize` has run.
    pub token: Option<Address>,
    /// The registry contract, once `initialize` has run.
    pub registry: Option<Address>,
    /// The receipt contract, once `set_receipt_contract` has run.
    pub receipt: Option<Address>,
    /// Stored balances keyed by (caller, provider).
    pub balances: Map<(Address, Address), i128>,
    /// Published events, oldest first.
    pub events: Seq<EscrowEvent>,
    /// Token transfers made, oldest first.
    pub transfers: Seq<Transfer<Address>>,
}

/// Every stored balance is strictly positive: an entry that reaches zero is removed.
pub open spec fn positive_balances(balances: Map<(Address, Address), i128>) -> bool {
    forall|k: (Address, Address)| #[trigger] balances.contains_key(k) ==> balances[k] > 0
}

/// The sum of all stored balances.
pub open spec fn total(balances: Map<(Address, Address), i128>) -> int
    decreases balances.dom().len(),
    when balances.dom().finite()
{
    if balances.dom().len() == 0 {
        0
    } else {
        let k = balances.dom().choose();
        balances[k] + total(balances.remove(k))
    }
}

/// The tokens that `transfers` moved into `holder` from elsewhere, less those they moved
/// out of `holder` to elsewhere.
pub open spec fn net_inflow(transfers: Seq<Transfer<Address>>, holder: Address) -> int
    decreases transfers.len(),
{
    if transfers.len() == 0 {
        0
    } else {
        let t = transfers.last();
        let flow: int = if t.to == holder && t.from != holder {
            t.amount as int
        } else if t.from == holder && t.to != holder {
            -t.amount
        } else {
            0
        };
        net_inflow(transfers.drop_last(), holder) + flow
    }
}

impl EscrowState {
    /// What every reachable escrow state satisfies.
    pub open spec fn inv(self) -> bool {
        &&& self.balances.dom().finite()
        &&& positive_balances(self.balances)
    }

    /// The balance of (caller, provider); zero when none is stored.
    pub open spec fn balance(self, caller: Address, provider: Address) -> i128 {
        if self.balances.contains_key((caller, provider)) {
            self.balances[(caller, provider)]
        } else {
            0
        }
    }

    /// The balances with that of (caller, provider) set to `new_balance`; a balance that is
    /// not strictly positive is removed.
    pub open spec fn with_balance(self, caller: Address, provider: Address, new_balance: i128) -> Map<
        (Address, Address),
        i128,
    > {
        if new_balance > 0 {
            self.balances.insert((caller, provider), new_balance)
        } else {
            self.balances.remove((caller, provider))
        }
    }

    pub open spec fn initialize(self, token: Address, registry: Address) -> (
        Result<(), Error>,
        EscrowState,
    ) {
        if self.token is Some {
            (Err(Error::AlreadyInitialized), self)
        } else {
            (Ok(()), EscrowState { token: Some(token), registry: Some(registry), ..self })
        }
    }

    pub open spec fn set_receipt_contract(self, receipt: Address) -> (
        Result<(), Error>,
        EscrowState,
    ) {
        if self.receipt is Some {
            (Err(Error::AlreadyInitialized), self)
        } else {
            (
                Ok(()),
                EscrowState {
                    receipt: Some(receipt),
                    events: self.events.push(
                        EscrowEvent::ReceiptContractSet(ReceiptContractSet { receipt }),
                    ),
                    ..self
                },
            )
        }
    }

    /// A deposit of `amount` by `caller` for `provider`; `provider_registered` is whether
    /// the wired registry knows the provider.
    pub open spec fn deposit(
        self,
        provider_registered: bool,
        caller: Address,
        provider: Address,
        amount: i128,
    ) -> (Result<(), Error>, EscrowState) {
        let current: i128 = self.balance(caller, provider);
        if amount <= 0 {
            (Err(Error::InvalidAmount), self)
        } else if self.registry is None {
            (Err(Error::AlreadyInitialized), self)
        } else if !provider_registered {
            (Err(Error::ProviderNotFound), self)
        } else if self.token is None {
            (Err(Error::AlreadyInitialized), self)
        } else if current + amount > i128::MAX {
            (Err(Error::InvalidAmount), self)
        } else {
            (
                Ok(()),
                EscrowState {
                    balances: self.with_balance(caller, provider, (current + amount) as i128),
                    transfers: self.transfers.push(
                        Transfer { from: caller, to: self.address, amount },
                    ),
                    events: self.events.push(
                        EscrowEvent::Deposited(Deposited { caller, provider, amount }),
                    ),
                    ..self
                },
            )
        }
    }

    /// The inputs on which a withdrawal aborts the invocation: a negative amount that
    /// reaches the subtraction overflows it or reaches the token transfer, which refuses
    /// negative amounts.
    pub open spec fn withdraw_aborts(self, caller: Address, provider: Address, amount: i128) -> bool {
        let current: i128 = self.balance(caller, provider);
        &&& current >= amount
        &&& amount < 0
        &&& (current - amount > i128::MAX || self.token is Some)
    }

    pub open spec fn withdraw(self, caller: Address, provider: Address, amount: i128) -> (
        Result<(), Error>,
        EscrowState,
    ) {
        let current: i128 = self.balance(caller, provider);
        if current < amount {
            (Err(Error::InsufficientBalance), self)
        } else if self.token is None {
            (Err(Error::AlreadyInitialized), self)
        } else {
            (
                Ok(()),
                EscrowState {
                    balances: self.with_balance(caller, provider, (current - amount) as i128),
                    transfers: self.transfers.push(
                        Transfer { from: self.address, to: caller, amount },
                    ),
                    events: self.events.push(
                        EscrowEvent::Withdrawn(Withdrawn { caller, provider, amount }),
                    ),
                    ..self
                },
            )
        }
    }

    /// A settlement of `amount` from `caller`'s balance to `provider`, invoked by the
    /// contract at `invoker`.
    pub open spec fn settle(
        self,
        invoker: Address,
        caller: Address,
        provider: Address,
        amount: i128,
    ) -> (Result<(), Error>, EscrowState) {
        let current: i128 = self.balance(caller, provider);
        if self.receipt is None {
            (Err(Error::AlreadyInitialized), self)
        } else if self.receipt != Some(invoker) {
            (Err(Error::Unauthorized), self)
        } else if amount <= 0 {
            (Err(Error::InvalidAmount), self)
        } else if current < amount {
            (Err(Error::InsufficientBalance), self)
        } else if self.token is None {
            (Err(Error::AlreadyInitialized), self)
        } else {
            (
                Ok(()),
                EscrowState {
                    balances: self.with_balance(caller, provider, (current - amount) as i128),
                    transfers: self.transfers.push(
                        Transfer { from: self.address, to: provider, amount },
                    ),
                    events: self.events.push(
                        EscrowEvent::Settled(Settled { caller, provider, amount }),
                    ),
                    ..self
                },
            )
        }
    }
}

/// An escrow invocation that changes state, with its arguments and with the answers of
/// the contracts it calls: `registered` is the registry's answer for a deposit's provider,
/// and `token_accepts` whether the token contract carries out the transfer (a refused
/// transfer aborts the invocation).
pub enum EscrowOp {
    Initialize { token: Address, registry: Address },
    SetReceiptContract { receipt: Address },
    Deposit {
        registered: bool,
        token_accepts: bool,
        caller: Address,
        provider: Address,
        amount: i128,
    },
    Withdraw { token_accepts: bool, caller: Address, provider: Address, amount: i128 },
    Settle {
        token_accepts: bool,
        invoker: Address,
        caller: Address,
        provider: Address,
        amount: i128,
    },
}

impl EscrowState {
    /// The state after one invocation; one that aborts changes nothing.
    pub open spec fn step(self, op: EscrowOp) -> EscrowState {
        match op {
            EscrowOp::Initialize { token, registry } => self.initialize(token, registry).1,
            EscrowOp::SetReceiptContract { receipt } => self.set_receipt_contract(receipt).1,
            EscrowOp::Deposit { registered, token_accepts, caller, provider, amount } => {
                let (r, next) = self.deposit(registered, caller, provider, amount);
                if r is Ok && !token_accepts {
                    self
                } else {
                    next
                }
            },
            EscrowOp::Withdraw { token_accepts, caller, provider, amount } => {
                let (r, next) = self.withdraw(caller, provider, amount);
                if self.withdraw_aborts(caller, provider, amount) || (r is Ok && !token_accepts) {
                    self
                } else {
                    next
                }
            },
            EscrowOp::Settle { token_accepts, invoker, caller, provider, amount } => {
                let (r, next) = self.settle(invoker, caller, provider, amount);
                if r is Ok && !token_accepts {
                    self
                } else {
                    next
                }
            },
        }
    }

    /// The state after a sequence of invocations, oldest first.
    pub open spec fn run(self, ops: Seq<EscrowOp>) -> EscrowState
        decreases ops.len(),
    {
        if ops.len() == 0 {
            self
        } else {
            self.run(ops.drop_last()).step(ops.last())
        }
    }
}

/// An escrow contract: its storage held as a keyed list of balances.
pub struct EscrowContract {
    address: Address,
    deployer: Address,
    token: Option<Address>,
    registry: Option<Address>,
    receipt: Option<Address>,
    balances: KeyedList<(Address, Address), i128>,
    events: Vec<EscrowEvent>,
    transfers: Vec<Transfer<Address>>,
}

impl View for EscrowContract {
    type V = EscrowState;

    closed spec fn view(&self) -> EscrowState {
        EscrowState {
            address: self.address,
            deployer: self.deployer,
            token: self.token,
            registry: self.registry,
            receipt: self.receipt,
            balances: self.balances@,
            events: self.events@,
            transfers: self.transfers@,
        }
    }
}

impl EscrowContract {
    /// Well-formedness: the storage is well formed and stored balances are positive.
    pub closed spec fn wf(&self) -> bool {
        &&& self.balances.wf()
        &&& self.balances@.dom().finite()
        &&& positive_balances(self.balances@)
    }

    /// A well-formed escrow satisfies the escrow invariant.
    pub proof fn lemma_wf_inv(&self)
        requires
            self.wf(),
        ensures
            self@.inv(),
    {
    }

    /// A freshly deployed escrow at `address`, deployed by `deployer`, with empty storage.
    pub fn new(address: Address, deployer: Address) -> (r: EscrowContract)
        ensures
            r.wf(),
            r@.address == address,
            r@.deployer == deployer,
            r@.token is None,
            r@.registry is None,
            r@.receipt is None,
            r@.balances == Map::<(Address, Address), i128>::empty(),
            r@.events == Seq::<EscrowEvent>::empty(),
            r@.transfers == Seq::<Transfer<Address>>::empty(),
    {
        EscrowContract {
            address,
            deployer,
            token: None,
            registry: None,
            receipt: None,
            balances: KeyedList::new(),
            events: Vec::new(),
            transfers: Vec::new(),
        }
    }

    /// The escrow's own contract address.
    pub fn address(&self) -> (r: Address)
        ensures
            r == self@.address,
    {
        self.address
    }

    /// The party that deployed the escrow.
    pub fn deployer(&self) -> (r: Address)
        ensures
            r == self@.deployer,
    {
        self.deployer
    }

    /// The wired token contract.
    pub fn token(&self) -> (r: Option<Address>)
        ensures
            r == self@.token,
    {
        self.token
    }

    /// The wired registry contract.
    pub fn registry(&self) -> (r: Option<Address>)
        ensures
            r == self@.registry,
    {
        self.registry
    }

    /// The wired receipt contract.
    pub fn receipt(&self) -> (r: Option<Address>)
        ensures
            r == self@.receipt,
    {
        self.receipt
    }

    /// The events published so far, oldest first.
    pub fn events(&self) -> (r: &Vec<EscrowEvent>)
        ensures
            r@ == self@.events,
    {
        &self.events
    }

    /// The token transfers made so far, oldest first.
    pub fn transfers(&self) -> (r: &Vec<Transfer<Address>>)
        ensures
            r@ == self@.transfers,
    {
        &self.transfers
    }

    /// The stored balance of (caller, provider), or zero.
    fn stored_balance(&self, caller: Address, provider: Address) -> (r: i128)
        requires
            self.wf(),
        ensures
            r == self@.balance(caller, provider),
    {
        match self.balances.get(&(caller, provider)) {
            Some(b) => *b,
            None => 0,
        }
    }

    /// Stores `left` as the balance of (caller, provider), or removes the entry.
    fn store_balance(&mut self, caller: Address, provider: Address, left: Option<i128>)
        requires
            old(self).wf(),
            left matches Some(b) ==> b > 0,
        ensures
            final(self).wf(),
            final(self)@ == (EscrowState {
                balances: match left {
                    Some(b) => old(self)@.balances.insert((caller, provider), b),
                    None => old(self)@.balances.remove((caller, provider)),
                },
                ..old(self)@
            }),
    {
        match left {
            Some(b) => self.balances.put((caller, provider), b),
            None => self.balances.remove(&(caller, provider)),
        }
    }

    /// Wires the token and registry contracts, with the deployer's authorisation; refused
    /// once they are wired.
    pub fn initialize(&mut self, signers: &Signers, token: Address, registry: Address) -> (r:
        Result<(), Error>)
        requires
            old(self).wf(),
            signers.authorizes(old(self)@.deployer),
        ensures
            final(self).wf(),
            (r, final(self)@) == old(self)@.initialize(token, registry),
    {
        check_not_initialized(self.token.is_some())?;
        self.token = Some(token);
        self.registry = Some(registry);
        Ok(())
    }

    /// Wires the receipt contract, the only one allowed to settle; refused once wired.
    /// `admin` is the party that authorises the wiring.
    pub fn set_receipt_contract(&mut self, signers: &Signers, admin: Address, receipt: Address) -> (r:
        Result<(), Error>)
        requires
            old(self).wf(),
            signers.authorizes(admin),
        ensures
            final(self).wf(),
            (r, final(self)@) == old(self)@.set_receipt_contract(receipt),
    {
        check_not_initialized(self.receipt.is_some())?;
        self.receipt = Some(receipt);
        self.events.push(EscrowEvent::ReceiptContractSet(ReceiptContractSet { receipt }));
        Ok(())
    }

    /// Deposits `amount` from `caller`, who authorises the call, for `provider`: the token
    /// moves from the caller to the escrow and the pair's balance grows by `amount`.
    /// `registry` is the registry contract the escrow is wired to.
    pub fn deposit(
        &mut self,
        signers: &Signers,
        registry: &RegistryContract,
        caller: Address,
        provider: Address,
        amount: i128,
    ) -> (r: Result<(), Error>)
        requires
            old(self).wf(),
            registry.wf(),
            signers.authorizes(caller),
            old(self)@.registry is Some ==> old(self)@.registry == Some(registry@.address),
        ensures
            final(self).wf(),
            (r, final(self)@) == old(self)@.deposit(
                registry@.is_registered(provider),
                caller,
                provider,
                amount,
            ),
    {
        deposit_start(amount, self.registry.is_some())?;
        let registered = registry.is_registered(provider);
        let current: i128 = self.stored_balance(caller, provider);
        let (new_balance, transfer) = deposit_finish(
            registered,
            self.token.is_some(),
            current,
            amount,
            caller,
            self.address,
        )?;
        self.store_balance(caller, provider, Some(new_balance));
        self.transfers.push(transfer);
        self.events.push(EscrowEvent::Deposited(Deposited { caller, provider, amount }));
        Ok(())
    }

    /// Takes `amount` from the balance of `caller`, who authorises the call, for `provider`
    /// and has the token move it from the escrow back to the caller.
    pub fn withdraw(&mut self, signers: &Signers, caller: Address, provider: Address, amount: i128) -> (r:
        Result<(), Error>)
        requires
            old(self).wf(),
            signers.authorizes(caller),
            !old(self)@.withdraw_aborts(caller, provider, amount),
        ensures
            final(self).wf(),
            (r, final(self)@) == old(self)@.withdraw(caller, provider, amount),
    {
        let current: i128 = self.stored_balance(caller, provider);
        let (left, transfer) = withdraw_decision(
            current,
            amount,
            self.token.is_some(),
            self.address,
            caller,
        )?;
        self.store_balance(caller, provider, left);
        self.transfers.push(transfer);
        self.events.push(EscrowEvent::Withdrawn(Withdrawn { caller, provider, amount }));
        Ok(())
    }

    /// Settles `amount` from the balance of `caller` for `provider` to the provider, at
    /// the request of the contract at `invoker`, which must be the wired receipt contract.
    pub fn settle(
        &mut self,
        invoker: Address,
        caller: Address,
        provider: Address,
        amount: i128,
    ) -> (r: Result<(), Error>)
        requires
            old(self).wf(),
        ensures
            final(self).wf(),
            (r, final(self)@) == old(self)@.settle(invoker, caller, provider, amount),
    {
        let current: i128 = self.stored_balance(caller, provider);
        let (left, transfer) = settle_decision(
            self.receipt.is_some(),
            self.receipt == Some(invoker),
            amount,
            current,
            self.token.is_some(),
            self.address,
            provider,
        )?;
        self.store_balance(caller, provider, left);
        self.transfers.push(transfer);
        self.events.push(EscrowEvent::Settled(Settled { caller, provider, amount }));
        Ok(())
    }

    /// Whether a settlement with these arguments would succeed.
    pub fn can_settle(&self, invoker: Address, caller: Address, provider: Address, amount: i128) -> (r:
        bool)
        requires
            self.wf(),
        ensures
            r == self@.settle(invoker, caller, provider, amount).0 is Ok,
    {
        let current: i128 = self.stored_balance(caller, provider);
        settle_decision(
            self.receipt.is_some(),
            self.receipt == Some(invoker),
            amount,
            current,
            self.token.is_some(),
            self.address,
            provider,
        ).is_ok()
    }

    /// The balance of `caller` for `provider`; zero when none is stored.
    pub fn get_balance(&self, caller: Address, provider: Address) -> (r: i128)
        requires
            self.wf(),
        ensures
            r == self@.balance(caller, provider),
            r >= 0,
    {
        self.stored_balance(caller, provider)
    }
}

} // verus!
