use meterly::registry::{check_not_initialized, check_registered, check_update_price};
use meterly::address::{Address, Signers};

fn auth() -> Signers {
    Signers::all()
}
use meterly::registry::{check_price, Error, ProviderInfo, RegistryContract, RegistryEvent};

fn setup() -> RegistryContract {
    RegistryContract::new(Address::new(1000))
}

fn uri() -> String {
    String::from("https://api.example.com")
}

// ── initialize ───────────────────────────────────────────────────────────────

#[test]
fn test_initialize_ok() {
    let mut client = setup();
    let admin = Address::new(1);
    client.initialize(&auth(), admin).unwrap();
    assert_eq!(client.admin(), Some(admin));
}

#[test]
fn test_initialize_already_initialized() {
    let mut client = setup();
    let admin = Address::new(1);
    client.initialize(&auth(), admin).unwrap();
    let err = client.initialize(&auth(), admin).unwrap_err();
    assert_eq!(err, Error::AlreadyInitialized);
}

// ── register_provider ────────────────────────────────────────────────────────

#[test]
fn test_register_provider_ok() {
    let mut client = setup();
    let provider = Address::new(2);
    let price = 1_000_000i128;
    let uri = uri();

    client.register_provider(&auth(), provider, price, uri.clone()).unwrap();

    let info = client.get_provider(provider).unwrap();
    assert_eq!(info.owner, provider);
    assert_eq!(info.price_per_call, price);
    assert_eq!(info.active, true);
    assert_eq!(info.metadata_uri, uri);
}

#[test]
fn test_register_provider_invalid_price_zero() {
    let mut client = setup();
    let provider = Address::new(2);

    let err = client.register_provider(&auth(), provider, 0, uri()).unwrap_err();
    assert_eq!(err, Error::InvalidPrice);
}

#[test]
fn test_register_provider_invalid_price_negative() {
    let mut client = setup();
    let provider = Address::new(2);

    let err = client.register_provider(&auth(), provider, -1000i128, uri()).unwrap_err();
    assert_eq!(err, Error::InvalidPrice);
}

#[test]
fn test_register_provider_emits_event() {
    let mut client = setup();
    let provider = Address::new(2);
    let price = 500_000i128;

    client.register_provider(&auth(), provider, price, uri()).unwrap();

    let events = client.events();
    let last = events.last().unwrap();
    match last {
        RegistryEvent::ProviderRegistered(event) => {
            assert_eq!(event.provider, provider);
            assert_eq!(event.price_per_call, price);
        }
        other => panic!("unexpected event {:?}", other),
    }
}

// ── update_price ─────────────────────────────────────────────────────────────

#[test]
fn test_update_price_ok() {
    let mut client = setup();
    let provider = Address::new(2);
    let initial_price = 1_000_000i128;
    let new_price = 2_000_000i128;

    client.register_provider(&auth(), provider, initial_price, uri()).unwrap();
    client.update_price(&auth(), provider, new_price).unwrap();

    let info = client.get_provider(provider).unwrap();
    assert_eq!(info.price_per_call, new_price);
}

#[test]
fn test_update_price_provider_not_found() {
    let mut client = setup();
    let provider = Address::new(2);

    let err = client.update_price(&auth(), provider, 1_000_000i128).unwrap_err();
    assert_eq!(err, Error::ProviderNotFound);
}

#[test]
fn test_update_price_invalid_price() {
    let mut client = setup();
    let provider = Address::new(2);
    let initial_price = 1_000_000i128;

    client.register_provider(&auth(), provider, initial_price, uri()).unwrap();

    let err = client.update_price(&auth(), provider, 0).unwrap_err();
    assert_eq!(err, Error::InvalidPrice);
}

#[test]
fn test_update_price_emits_event() {
    let mut client = setup();
    let provider = Address::new(2);
    let initial_price = 1_000_000i128;
    let new_price = 2_000_000i128;

    client.register_provider(&auth(), provider, initial_price, uri()).unwrap();
    client.events().clone().pop(); // the register event, read and dropped

    client.update_price(&auth(), provider, new_price).unwrap();

    let events = client.events();
    let last = events.last().unwrap();
    match last {
        RegistryEvent::PriceUpdated(event) => {
            assert_eq!(event.provider, provider);
            assert_eq!(event.old_price, initial_price);
            assert_eq!(event.new_price, new_price);
        }
        other => panic!("unexpected event {:?}", other),
    }
}

// ── set_active ───────────────────────────────────────────────────────────────

#[test]
fn test_set_active_true() {
    let mut client = setup();
    let provider = Address::new(2);
    let price = 1_000_000i128;

    client.register_provider(&auth(), provider, price, uri()).unwrap();
    client.set_active(&auth(), provider, false).unwrap();
    client.set_active(&auth(), provider, true).unwrap();

    let info = client.get_provider(provider).unwrap();
    assert_eq!(info.active, true);
}

#[test]
fn test_set_active_false() {
    let mut client = setup();
    let provider = Address::new(2);
    let price = 1_000_000i128;

    client.register_provider(&auth(), provider, price, uri()).unwrap();
    client.set_active(&auth(), provider, false).unwrap();

    let info = client.get_provider(provider).unwrap();
    assert_eq!(info.active, false);
}

#[test]
fn test_set_active_provider_not_found() {
    let mut client = setup();
    let provider = Address::new(2);

    let err = client.set_active(&auth(), provider, false).unwrap_err();
    assert_eq!(err, Error::ProviderNotFound);
}

#[test]
fn test_set_active_emits_event() {
    let mut client = setup();
    let provider = Address::new(2);
    let price = 1_000_000i128;

    client.register_provider(&auth(), provider, price, uri()).unwrap();
    client.events().clone().pop(); // the register event, read and dropped

    client.set_active(&auth(), provider, false).unwrap();

    let events = client.events();
    let last = events.last().unwrap();
    match last {
        RegistryEvent::ActiveChanged(event) => {
            assert_eq!(event.provider, provider);
            assert_eq!(event.active, false);
        }
        other => panic!("unexpected event {:?}", other),
    }
}

// ── further cases ───────────────────────────────────────────────────────────

#[test]
fn registry_get_provider_unknown() {
    let client = setup();
    let err = client.get_provider(Address::new(9)).unwrap_err();
    assert_eq!(err, Error::ProviderNotFound);
}

#[test]
fn registry_reregistration_replaces_record() {
    let mut client = setup();
    let provider = Address::new(2);
    client.register_provider(&auth(), provider, 10, uri()).unwrap();
    client.set_active(&auth(), provider, false).unwrap();
    client
        .register_provider(&auth(), provider, 25, String::from("https://other.example.com"))
        .unwrap();
    let info = client.get_provider(provider).unwrap();
    assert_eq!(info.price_per_call, 25);
    assert_eq!(info.active, true);
    assert_eq!(info.metadata_uri, "https://other.example.com");
}

#[test]
fn registry_operations_are_per_provider_example() {
    let mut client = setup();
    let a = Address::new(2);
    let b = Address::new(3);
    client.register_provider(&auth(), a, 10, uri()).unwrap();
    client.register_provider(&auth(), b, 20, uri()).unwrap();
    client.update_price(&auth(), a, 11).unwrap();
    client.set_active(&auth(), a, false).unwrap();
    let info_b = client.get_provider(b).unwrap();
    assert_eq!(info_b.price_per_call, 20);
    assert_eq!(info_b.active, true);
    let info_a = client.get_provider(a).unwrap();
    assert_eq!(info_a.price_per_call, 11);
    assert_eq!(info_a.active, false);
    assert_eq!(info_a.metadata_uri, uri());
}

#[test]
fn registry_failures_change_nothing_example() {
    let mut client = setup();
    let a = Address::new(2);
    client.register_provider(&auth(), a, 10, uri()).unwrap();
    let before = client.events().len();
    assert_eq!(client.update_price(&auth(), a, -5).unwrap_err(), Error::InvalidPrice);
    assert_eq!(client.set_active(&auth(), Address::new(3), true).unwrap_err(), Error::ProviderNotFound);
    assert_eq!(client.events().len(), before);
    assert_eq!(client.get_provider(a).unwrap().price_per_call, 10);
}

#[test]
fn registry_check_price_values() {
    assert_eq!(check_price(1), Ok(()));
    assert_eq!(check_price(0), Err(Error::InvalidPrice));
    assert_eq!(check_price(i128::MIN), Err(Error::InvalidPrice));
    assert_eq!(check_price(i128::MAX), Ok(()));
}

#[test]
fn registry_provider_info_clone() {
    let info = ProviderInfo {
        owner: Address::new(4),
        price_per_call: 7,
        active: false,
        metadata_uri: uri(),
    };
    let copy = info.clone();
    assert_eq!(copy.owner, info.owner);
    assert_eq!(copy.price_per_call, 7);
    assert_eq!(copy.active, false);
    assert_eq!(copy.metadata_uri, info.metadata_uri);
}

#[test]
fn registry_calls_signed_by_the_provider() {
    let mut client = setup();
    let provider = Address::new(2);
    let signed = Signers::of(vec![provider]);
    client.register_provider(&signed, provider, 30, uri()).unwrap();
    client.update_price(&signed, provider, 31).unwrap();
    client.set_active(&signed, provider, false).unwrap();
    let info = client.get_provider(provider).unwrap();
    assert_eq!(info.price_per_call, 31);
    assert_eq!(info.active, false);
}

#[test]
fn registry_step_decisions() {
    assert_eq!(check_not_initialized(true), Err(Error::AlreadyInitialized));
    assert_eq!(check_not_initialized(false), Ok(()));
    assert_eq!(check_registered(false), Err(Error::ProviderNotFound));
    assert_eq!(check_registered(true), Ok(()));
    assert_eq!(check_update_price(0, false), Err(Error::InvalidPrice));
    assert_eq!(check_update_price(3, false), Err(Error::ProviderNotFound));
    assert_eq!(check_update_price(3, true), Ok(()));
}
