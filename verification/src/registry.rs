//! Registry contract: the catalogue of API providers, their price per call,
//! their active flag and the URI of their off-chain metadata.
use vstd::prelude::*;

use crate::address::{Address, Signers};
use crate::keyed::KeyedList;

verus! {

/// Errors returned by the registry.
#[derive(Clone, Copy, Debug, PartialEq, Eq, Structural, PartialOrd, Ord)]
pub enum Error {
    /// `initialize` was called when an admin is already stored.
    AlreadyInitialized,
    /// The requested provider address has no registration.
    ProviderNotFound,
    /// A price or new price was zero or negative.
    InvalidPrice,
}

/// The record kept for a registered provider.
#[derive(Debug)]
pub struct ProviderInfo {
    /// The address that registered and controls this entry.
    pub owner: Address,
    /// Price per API call in the token's smallest unit.
    pub price_per_call: i128,
    /// Whether the provider currently accepts calls.
    pub active: bool,
    /// URI of the provider's off-chain metadata.
    pub metadata_uri: String,
}

impl Clone for ProviderInfo {
    fn clone(&self) -> (r: Self)
        ensures
            r == *self,
    {
        ProviderInfo {
            owner: self.owner,
            price_per_call: self.price_per_call,
            active: self.active,
            metadata_uri: self.metadata_uri.clone(),
        }
    }
}

/// Published when a provider registers (or re-registers).
#[derive(Clone, Copy, Debug, PartialEq, Eq, Structural)]
pub struct ProviderRegistered {
    pub provider: Address,
    pub price_per_call: i128,
}

/// Published when a provider changes its price.
#[derive(Clone, Copy, Debug, PartialEq, Eq, Structural)]
pub struct PriceUpdated {
    pub provider: Address,
    pub old_price: i128,
    pub new_price: i128,
}

/// Published when a provider changes its active flag.
#[derive(Clone, Copy, Debug, PartialEq, Eq, Structural)]
pub struct ActiveChanged {
    pub provider: Address,
    pub active: bool,
}

/// The events the registry publishes, in the order it publishes them.
#[derive(Clone, Copy, Debug, PartialEq, Eq, Structural)]
pub enum RegistryEvent {
    ProviderRegistered(ProviderRegistered),
    PriceUpdated(PriceUpdated),
    ActiveChanged(ActiveChanged),
}

/// Refuses a second initialisation: `already` is whether an admin is stored.
pub fn check_not_initialized(already: bool) -> (r: Result<(), Error>)
    ensures
        r == (if already { Err::<(), Error>(Error::AlreadyInitialized) } else { Ok(()) }),
{
    if already {
        Err(Error::AlreadyInitialized)
    } else {
        Ok(())
    }
}

/// Accepts a price exactly when it is strictly positive.
pub fn check_price(price: i128) -> (r: Result<(), Error>)
    ensures
        r == (if price > 0 { Ok::<(), Error>(()) } else { Err(Error::InvalidPrice) }),
{
    if price <= 0 {
        Err(Error::InvalidPrice)
    } else {
        Ok(())
    }
}

/// Accepts a lookup exactly when the provider is registered.
pub fn check_registered(registered: bool) -> (r: Result<(), Error>)
    ensures
        r == (if registered { Ok::<(), Error>(()) } else { Err(Error::ProviderNotFound) }),
{
    if registered {
        Ok(())
    } else {
        Err(Error::ProviderNotFound)
    }
}

/// The decision of `update_price`: the new price is checked first, then that the
/// provider is registered.
pub fn check_update_price(new_price: i128, registered: bool) -> (r: Result<(), Error>)
    ensures
        r == (if new_price <= 0 {
            Err::<(), Error>(Error::InvalidPrice)
        } else if !registered {
            Err(Error::ProviderNotFound)
        } else {
            Ok(())
        }),
{
    check_price(new_price)?;
    check_registered(registered)
}

/// Each record is keyed by its owner and carries a strictly positive price.
pub open spec fn valid_providers(providers: Map<Address, ProviderInfo>) -> bool {
    forall|a: Address| #[trigger]
        providers.contains_key(a) ==> providers[a].owner == a && providers[a].price_per_call > 0
}

/// The abstract state of a registry: its storage and the events it has published.
pub struct RegistryState {
    /// The registry's own contract address.
    pub address: Address,
    /// The admin, once `initialize` has run.
    pub admin: Option<Address>,
    /// Provider records keyed by provider address.
    pub providers: Map<Address, ProviderInfo>,
    /// Published events, oldest first.
    pub events: Seq<RegistryEvent>,
}

impl RegistryState {
    /// What every reachable registry state satisfies: each record is keyed by its
    /// owner and carries a strictly positive price.
    pub open spec fn inv(self) -> bool {
        valid_providers(self.providers)
    }

    pub open spec fn is_registered(self, provider: Address) -> bool {
        self.providers.contains_key(provider)
    }

    pub open spec fn initialize(self, admin: Address) -> (Result<(), Error>, RegistryState) {
        if self.admin is Some {
            (Err(Error::AlreadyInitialized), self)
        } else {
            (Ok(()), RegistryState { admin: Some(admin), ..self })
        }
    }

    pub open spec fn register_provider(
        self,
        provider: Address,
        price_per_call: i128,
        metadata_uri: String,
    ) -> (Result<(), Error>, RegistryState) {
        if price_per_call <= 0 {
            (Err(Error::InvalidPrice), self)
        } else {
            let info = ProviderInfo { owner: provider, price_per_call, active: true, metadata_uri };
            let event = RegistryEvent::ProviderRegistered(
                ProviderRegistered { provider, price_per_call },
            );
            (
                Ok(()),
                RegistryState {
                    providers: self.providers.insert(provider, info),
                    events: self.events.push(event),
                    ..self
                },
            )
        }
    }

    pub open spec fn update_price(self, provider: Address, new_price: i128) -> (
        Result<(), Error>,
        RegistryState,
    ) {
        if new_price <= 0 {
            (Err(Error::InvalidPrice), self)
        } else if !self.providers.contains_key(provider) {
            (Err(Error::ProviderNotFound), self)
        } else {
            let old = self.providers[provider];
            let info = ProviderInfo { price_per_call: new_price, ..old };
            let event = RegistryEvent::PriceUpdated(
                PriceUpdated { provider, old_price: old.price_per_call, new_price },
            );
            (
                Ok(()),
                RegistryState {
                    providers: self.providers.insert(provider, info),
                    events: self.events.push(event),
                    ..self
                },
            )
        }
    }

    pub open spec fn set_active(self, provider: Address, active: bool) -> (
        Result<(), Error>,
        RegistryState,
    ) {
        if !self.providers.contains_key(provider) {
            (Err(Error::ProviderNotFound), self)
        } else {
            let info = ProviderInfo { active, ..self.providers[provider] };
            let event = RegistryEvent::ActiveChanged(ActiveChanged { provider, active });
            (
                Ok(()),
                RegistryState {
                    providers: self.providers.insert(provider, info),
                    events: self.events.push(event),
                    ..self
                },
            )
        }
    }

    pub open spec fn get_provider(self, provider: Address) -> Result<ProviderInfo, Error> {
        if self.providers.contains_key(provider) {
            Ok(self.providers[provider])
        } else {
            Err(Error::ProviderNotFound)
        }
    }
}

/// A registry invocation that changes state, with its arguments.
pub enum RegistryOp {
    Initialize { admin: Address },
    RegisterProvider { provider: Address, price_per_call: i128, metadata_uri: String },
    UpdatePrice { provider: Address, new_price: i128 },
    SetActive { provider: Address, active: bool },
}

impl RegistryState {
    /// The state after one invocation.
    pub open spec fn step(self, op: RegistryOp) -> RegistryState {
        match op {
            RegistryOp::Initialize { admin } => self.initialize(admin).1,
            RegistryOp::RegisterProvider { provider, price_per_call, metadata_uri } => self.register_provider(
                provider,
                price_per_call,
                metadata_uri,
            ).1,
            RegistryOp::UpdatePrice { provider, new_price } => self.update_price(provider, new_price).1,
            RegistryOp::SetActive { provider, active } => self.set_active(provider, active).1,
        }
    }

    /// The state after a sequence of invocations, oldest first.
    pub open spec fn run(self, ops: Seq<RegistryOp>) -> RegistryState
        decreases ops.len(),
    {
        if ops.len() == 0 {
            self
        } else {
            self.run(ops.drop_last()).step(ops.last())
        }
    }
}

/// A registry contract: its storage held as a keyed list of records.
pub struct RegistryContract {
    address: Address,
    admin: Option<Address>,
    providers: KeyedList<Address, ProviderInfo>,
    events: Vec<RegistryEvent>,
}

impl View for RegistryContract {
    type V = RegistryState;

    closed spec fn view(&self) -> RegistryState {
        RegistryState {
            address: self.address,
            admin: self.admin,
            providers: self.providers@,
            events: self.events@,
        }
    }
}

impl RegistryContract {
    /// Well-formedness: the storage is well formed and the registry invariant holds.
    pub closed spec fn wf(&self) -> bool {
        &&& self.providers.wf()
        &&& valid_providers(self.providers@)
    }

    /// A well-formed registry satisfies the registry invariant.
    pub proof fn lemma_wf_inv(&self)
        requires
            self.wf(),
        ensures
            self@.inv(),
    {
    }

    /// A freshly deployed registry at `address`, with empty storage.
    pub fn new(address: Address) -> (r: RegistryContract)
        ensures
            r.wf(),
            r@.address == address,
            r@.admin is None,
            r@.providers == Map::<Address, ProviderInfo>::empty(),
            r@.events == Seq::<RegistryEvent>::empty(),
    {
        RegistryContract { address, admin: None, providers: KeyedList::new(), events: Vec::new() }
    }

    /// The registry's own contract address.
    pub fn address(&self) -> (r: Address)
        ensures
            r == self@.address,
    {
        self.address
    }

    /// The stored admin, if `initialize` has run.
    pub fn admin(&self) -> (r: Option<Address>)
        ensures
            r == self@.admin,
    {
        self.admin
    }

    /// The events published so far, oldest first.
    pub fn events(&self) -> (r: &Vec<RegistryEvent>)
        ensures
            r@ == self@.events,
    {
        &self.events
    }

    /// Whether `provider` is registered.
    pub fn is_registered(&self, provider: Address) -> (r: bool)
        requires
            self.wf(),
        ensures
            r == self@.is_registered(provider),
    {
        self.providers.get(&provider).is_some()
    }

    /// Sets the admin, who authorises the call; refused once an admin is stored.
    pub fn initialize(&mut self, signers: &Signers, admin: Address) -> (r: Result<(), Error>)
        requires
            old(self).wf(),
            signers.authorizes(admin),
        ensures
            final(self).wf(),
            (r, final(self)@) == old(self)@.initialize(admin),
    {
        check_not_initialized(self.admin.is_some())?;
        self.admin = Some(admin);
        Ok(())
    }

    /// Registers `provider`, who authorises the call, at `price_per_call` with the given
    /// metadata URI, active; a second registration replaces the first.
    pub fn register_provider(
        &mut self,
        signers: &Signers,
        provider: Address,
        price_per_call: i128,
        metadata_uri: String,
    ) -> (r: Result<(), Error>)
        requires
            old(self).wf(),
            signers.authorizes(provider),
        ensures
            final(self).wf(),
            (r, final(self)@) == old(self)@.register_provider(provider, price_per_call, metadata_uri),
    {
        check_price(price_per_call)?;
        let info = ProviderInfo { owner: provider, price_per_call, active: true, metadata_uri };
        self.providers.put(provider, info);
        self.events.push(
            RegistryEvent::ProviderRegistered(ProviderRegistered { provider, price_per_call }),
        );
        Ok(())
    }

    /// Changes the price of a registered provider, who authorises the call.
    pub fn update_price(&mut self, signers: &Signers, provider: Address, new_price: i128) -> (r:
        Result<(), Error>)
        requires
            old(self).wf(),
            signers.authorizes(provider),
        ensures
            final(self).wf(),
            (r, final(self)@) == old(self)@.update_price(provider, new_price),
    {
        let stored = self.providers.get(&provider);
        check_update_price(new_price, stored.is_some())?;
        let mut info = stored.unwrap().clone();
        let old_price: i128 = info.price_per_call;
        info.price_per_call = new_price;
        self.providers.put(provider, info);
        self.events.push(
            RegistryEvent::PriceUpdated(PriceUpdated { provider, old_price, new_price }),
        );
        Ok(())
    }

    /// Sets the active flag of a registered provider, who authorises the call.
    pub fn set_active(&mut self, signers: &Signers, provider: Address, active: bool) -> (r: Result<
        (),
        Error,
    >)
        requires
            old(self).wf(),
            signers.authorizes(provider),
        ensures
            final(self).wf(),
            (r, final(self)@) == old(self)@.set_active(provider, active),
    {
        let stored = self.providers.get(&provider);
        check_registered(stored.is_some())?;
        let mut info = stored.unwrap().clone();
        info.active = active;
        self.providers.put(provider, info);
        self.events.push(RegistryEvent::ActiveChanged(ActiveChanged { provider, active }));
        Ok(())
    }

    /// The record of `provider`.
    pub fn get_provider(&self, provider: Address) -> (r: Result<ProviderInfo, Error>)
        requires
            self.wf(),
        ensures
            r == self@.get_provider(provider),
    {
        let stored = self.providers.get(&provider);
        check_registered(stored.is_some())?;
        Ok(stored.unwrap().clone())
    }
}

} // verus!
