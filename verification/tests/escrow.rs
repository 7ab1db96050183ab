use meterly::escrow::{deposit_finish, deposit_start, settle_decision, withdraw_decision};
use meterly::address::{Address, Signers};

fn auth() -> Signers {
    Signers::all()
}
use meterly::escrow::{
    check_amount, credit, debit, Error, EscrowContract, EscrowEvent, Transfer,
};
use meterly::registry::RegistryContract;

const REGISTRY: u64 = 100;
const ESCROW: u64 = 200;
const RECEIPT: u64 = 300;
const TOKEN: u64 = 400;
const DEPLOYER: u64 = 500;

fn caller() -> Address {
    Address::new(1)
}

fn provider() -> Address {
    Address::new(2)
}

fn setup() -> (RegistryContract, EscrowContract) {
    let mut registry = RegistryContract::new(Address::new(REGISTRY));
    registry
        .register_provider(&auth(), provider(), 1_000, String::from("https://api.example.com"))
        .unwrap();
    let mut escrow = EscrowContract::new(Address::new(ESCROW), Address::new(DEPLOYER));
    escrow.initialize(&auth(), Address::new(TOKEN), Address::new(REGISTRY)).unwrap();
    escrow.set_receipt_contract(&auth(), Address::new(9), Address::new(RECEIPT)).unwrap();
    (registry, escrow)
}

#[test]
fn escrow_initialize_once() {
    let mut escrow = EscrowContract::new(Address::new(ESCROW), Address::new(DEPLOYER));
    escrow.initialize(&auth(), Address::new(TOKEN), Address::new(REGISTRY)).unwrap();
    assert_eq!(escrow.token(), Some(Address::new(TOKEN)));
    assert_eq!(escrow.registry(), Some(Address::new(REGISTRY)));
    let err = escrow.initialize(&auth(), Address::new(5), Address::new(6)).unwrap_err();
    assert_eq!(err, Error::AlreadyInitialized);
    assert_eq!(escrow.token(), Some(Address::new(TOKEN)));
}

#[test]
fn escrow_set_receipt_contract_once() {
    let mut escrow = EscrowContract::new(Address::new(ESCROW), Address::new(DEPLOYER));
    escrow.set_receipt_contract(&auth(), Address::new(9), Address::new(RECEIPT)).unwrap();
    assert_eq!(escrow.receipt(), Some(Address::new(RECEIPT)));
    match escrow.events().last().unwrap() {
        EscrowEvent::ReceiptContractSet(e) => assert_eq!(e.receipt, Address::new(RECEIPT)),
        other => panic!("unexpected event {:?}", other),
    }
    let err = escrow.set_receipt_contract(&auth(), Address::new(9), Address::new(7)).unwrap_err();
    assert_eq!(err, Error::AlreadyInitialized);
    assert_eq!(escrow.receipt(), Some(Address::new(RECEIPT)));
}

#[test]
fn escrow_deposit_credits_balance() {
    let (registry, mut escrow) = setup();
    escrow.deposit(&auth(), &registry, caller(), provider(), 500).unwrap();
    assert_eq!(escrow.get_balance(caller(), provider()), 500);
    escrow.deposit(&auth(), &registry, caller(), provider(), 250).unwrap();
    assert_eq!(escrow.get_balance(caller(), provider()), 750);
    assert_eq!(
        escrow.transfers().last(),
        Some(&Transfer { from: caller(), to: Address::new(ESCROW), amount: 250 })
    );
    match escrow.events().last().unwrap() {
        EscrowEvent::Deposited(e) => {
            assert_eq!(e.caller, caller());
            assert_eq!(e.provider, provider());
            assert_eq!(e.amount, 250);
        }
        other => panic!("unexpected event {:?}", other),
    }
}

#[test]
fn escrow_deposit_invalid_amount() {
    let (registry, mut escrow) = setup();
    assert_eq!(escrow.deposit(&auth(), &registry, caller(), provider(), 0).unwrap_err(), Error::InvalidAmount);
    assert_eq!(escrow.deposit(&auth(), &registry, caller(), provider(), -3).unwrap_err(), Error::InvalidAmount);
    assert_eq!(escrow.get_balance(caller(), provider()), 0);
    assert!(escrow.transfers().is_empty());
}

#[test]
fn escrow_deposit_unknown_provider() {
    let (registry, mut escrow) = setup();
    let err = escrow.deposit(&auth(), &registry, caller(), Address::new(77), 10).unwrap_err();
    assert_eq!(err, Error::ProviderNotFound);
    assert_eq!(escrow.get_balance(caller(), Address::new(77)), 0);
}

#[test]
fn escrow_deposit_before_initialize() {
    let registry = RegistryContract::new(Address::new(REGISTRY));
    let mut escrow = EscrowContract::new(Address::new(ESCROW), Address::new(DEPLOYER));
    let err = escrow.deposit(&auth(), &registry, caller(), provider(), 10).unwrap_err();
    assert_eq!(err, Error::AlreadyInitialized);
}

#[test]
fn escrow_deposit_overflow() {
    let (registry, mut escrow) = setup();
    escrow.deposit(&auth(), &registry, caller(), provider(), i128::MAX).unwrap();
    let err = escrow.deposit(&auth(), &registry, caller(), provider(), 1).unwrap_err();
    assert_eq!(err, Error::InvalidAmount);
    assert_eq!(escrow.get_balance(caller(), provider()), i128::MAX);
}

#[test]
fn escrow_withdraw_debits_balance() {
    let (registry, mut escrow) = setup();
    escrow.deposit(&auth(), &registry, caller(), provider(), 500).unwrap();
    escrow.withdraw(&auth(), caller(), provider(), 200).unwrap();
    assert_eq!(escrow.get_balance(caller(), provider()), 300);
    assert_eq!(
        escrow.transfers().last(),
        Some(&Transfer { from: Address::new(ESCROW), to: caller(), amount: 200 })
    );
    match escrow.events().last().unwrap() {
        EscrowEvent::Withdrawn(e) => assert_eq!(e.amount, 200),
        other => panic!("unexpected event {:?}", other),
    }
}

#[test]
fn escrow_withdraw_insufficient_balance() {
    let (registry, mut escrow) = setup();
    escrow.deposit(&auth(), &registry, caller(), provider(), 100).unwrap();
    let err = escrow.withdraw(&auth(), caller(), provider(), 101).unwrap_err();
    assert_eq!(err, Error::InsufficientBalance);
    assert_eq!(escrow.get_balance(caller(), provider()), 100);
}

#[test]
fn escrow_deposit_withdraw_round_trip_example() {
    let (registry, mut escrow) = setup();
    escrow.deposit(&auth(), &registry, caller(), provider(), 40).unwrap();
    escrow.withdraw(&auth(), caller(), provider(), 40).unwrap();
    assert_eq!(escrow.get_balance(caller(), provider()), 0);
    escrow.deposit(&auth(), &registry, caller(), provider(), 70).unwrap();
    escrow.deposit(&auth(), &registry, caller(), provider(), 5).unwrap();
    escrow.withdraw(&auth(), caller(), provider(), 5).unwrap();
    assert_eq!(escrow.get_balance(caller(), provider()), 70);
}

#[test]
fn escrow_settle_by_receipt_contract() {
    let (registry, mut escrow) = setup();
    escrow.deposit(&auth(), &registry, caller(), provider(), 500).unwrap();
    escrow.settle(Address::new(RECEIPT), caller(), provider(), 120).unwrap();
    assert_eq!(escrow.get_balance(caller(), provider()), 380);
    assert_eq!(
        escrow.transfers().last(),
        Some(&Transfer { from: Address::new(ESCROW), to: provider(), amount: 120 })
    );
    match escrow.events().last().unwrap() {
        EscrowEvent::Settled(e) => {
            assert_eq!(e.caller, caller());
            assert_eq!(e.provider, provider());
            assert_eq!(e.amount, 120);
        }
        other => panic!("unexpected event {:?}", other),
    }
}

#[test]
fn escrow_settle_unauthorized() {
    let (registry, mut escrow) = setup();
    escrow.deposit(&auth(), &registry, caller(), provider(), 500).unwrap();
    let err = escrow.settle(caller(), caller(), provider(), 120).unwrap_err();
    assert_eq!(err, Error::Unauthorized);
    assert_eq!(escrow.get_balance(caller(), provider()), 500);
}

#[test]
fn escrow_settle_without_receipt_contract() {
    let mut escrow = EscrowContract::new(Address::new(ESCROW), Address::new(DEPLOYER));
    let err = escrow.settle(Address::new(RECEIPT), caller(), provider(), 1).unwrap_err();
    assert_eq!(err, Error::AlreadyInitialized);
}

#[test]
fn escrow_settle_insufficient_balance() {
    let (_registry, mut escrow) = setup();
    let err = escrow.settle(Address::new(RECEIPT), caller(), provider(), 1).unwrap_err();
    assert_eq!(err, Error::InsufficientBalance);
}

#[test]
fn escrow_settle_whole_balance_removes_entry() {
    let (registry, mut escrow) = setup();
    escrow.deposit(&auth(), &registry, caller(), provider(), 60).unwrap();
    escrow.settle(Address::new(RECEIPT), caller(), provider(), 60).unwrap();
    assert_eq!(escrow.get_balance(caller(), provider()), 0);
    let err = escrow.withdraw(&auth(), caller(), provider(), 1).unwrap_err();
    assert_eq!(err, Error::InsufficientBalance);
}

#[test]
fn escrow_balances_are_per_pair() {
    let (mut registry, mut escrow) = setup();
    let other_provider = Address::new(3);
    registry
        .register_provider(&auth(), other_provider, 5, String::from("https://b.example.com"))
        .unwrap();
    escrow.deposit(&auth(), &registry, caller(), provider(), 10).unwrap();
    escrow.deposit(&auth(), &registry, caller(), other_provider, 20).unwrap();
    escrow.deposit(&auth(), &registry, Address::new(8), provider(), 30).unwrap();
    escrow.withdraw(&auth(), caller(), provider(), 10).unwrap();
    assert_eq!(escrow.get_balance(caller(), provider()), 0);
    assert_eq!(escrow.get_balance(caller(), other_provider), 20);
    assert_eq!(escrow.get_balance(Address::new(8), provider()), 30);
}

#[test]
fn escrow_conservation_example() {
    let (registry, mut escrow) = setup();
    escrow.deposit(&auth(), &registry, caller(), provider(), 100).unwrap();
    escrow.deposit(&auth(), &registry, Address::new(8), provider(), 50).unwrap();
    escrow.withdraw(&auth(), caller(), provider(), 30).unwrap();
    escrow.settle(Address::new(RECEIPT), Address::new(8), provider(), 50).unwrap();
    let me = escrow.address();
    let mut net: i128 = 0;
    for t in escrow.transfers() {
        if t.to == me && t.from != me {
            net += t.amount;
        } else if t.from == me && t.to != me {
            net -= t.amount;
        }
    }
    let total = escrow.get_balance(caller(), provider()) + escrow.get_balance(Address::new(8), provider());
    assert_eq!(total, 70);
    assert_eq!(net, total);
}

#[test]
fn escrow_step_functions() {
    assert_eq!(check_amount(1), Ok(()));
    assert_eq!(check_amount(0), Err(Error::InvalidAmount));
    assert_eq!(credit(5, 7), Ok(12));
    assert_eq!(credit(i128::MAX, 1), Err(Error::InvalidAmount));
    assert_eq!(debit(10, 4), Ok(Some(6)));
    assert_eq!(debit(10, 10), Ok(None));
    assert_eq!(debit(3, 4), Err(Error::InsufficientBalance));
    assert_eq!(debit(0, 0), Ok(None));
}

#[test]
fn escrow_withdraw_without_token() {
    let mut escrow = EscrowContract::new(Address::new(ESCROW), Address::new(DEPLOYER));
    let err = escrow.withdraw(&auth(), caller(), provider(), 0).unwrap_err();
    assert_eq!(err, Error::AlreadyInitialized);
    assert!(escrow.transfers().is_empty());
}

#[test]
fn escrow_can_settle_values() {
    let (registry, mut escrow) = setup();
    escrow.deposit(&auth(), &registry, caller(), provider(), 10).unwrap();
    assert!(escrow.can_settle(Address::new(RECEIPT), caller(), provider(), 10));
    assert!(!escrow.can_settle(Address::new(RECEIPT), caller(), provider(), 11));
    assert!(!escrow.can_settle(Address::new(RECEIPT), caller(), provider(), -1));
    assert!(!escrow.can_settle(Address::new(RECEIPT), caller(), provider(), 0));
    assert!(!escrow.can_settle(caller(), caller(), provider(), 1));
}

#[test]
fn escrow_settle_non_positive_amount() {
    let (registry, mut escrow) = setup();
    escrow.deposit(&auth(), &registry, caller(), provider(), 50).unwrap();
    let before = escrow.transfers().len();
    assert_eq!(
        escrow.settle(Address::new(RECEIPT), caller(), provider(), 0).unwrap_err(),
        Error::InvalidAmount
    );
    assert_eq!(
        escrow.settle(Address::new(RECEIPT), caller(), provider(), -5).unwrap_err(),
        Error::InvalidAmount
    );
    assert_eq!(escrow.get_balance(caller(), provider()), 50);
    assert_eq!(escrow.transfers().len(), before);
    // the invoker is checked first
    assert_eq!(escrow.settle(caller(), caller(), provider(), 0).unwrap_err(), Error::Unauthorized);
}

#[test]
fn escrow_initialize_signed_by_deployer() {
    let mut escrow = EscrowContract::new(Address::new(ESCROW), Address::new(DEPLOYER));
    assert_eq!(escrow.deployer(), Address::new(DEPLOYER));
    let signed = Signers::of(vec![Address::new(DEPLOYER)]);
    escrow.initialize(&signed, Address::new(TOKEN), Address::new(REGISTRY)).unwrap();
    assert_eq!(escrow.token(), Some(Address::new(TOKEN)));
}

#[test]
fn escrow_step_decisions() {
    let (c, e, p) = (caller(), Address::new(ESCROW), provider());
    assert_eq!(deposit_start(0, true), Err(Error::InvalidAmount));
    assert_eq!(deposit_start(5, false), Err(Error::AlreadyInitialized));
    assert_eq!(deposit_start(5, true), Ok(()));
    assert_eq!(deposit_finish(false, true, 0, 5, c, e), Err(Error::ProviderNotFound));
    assert_eq!(deposit_finish(true, false, 0, 5, c, e), Err(Error::AlreadyInitialized));
    assert_eq!(deposit_finish(true, true, i128::MAX, 1, c, e), Err(Error::InvalidAmount));
    assert_eq!(
        deposit_finish(true, true, 3, 5, c, e),
        Ok((8, Transfer { from: c, to: e, amount: 5 }))
    );
    assert_eq!(
        withdraw_decision(10, 3, true, e, c),
        Ok((Some(7), Transfer { from: e, to: c, amount: 3 }))
    );
    assert_eq!(
        withdraw_decision(10, 10, true, e, c),
        Ok((None, Transfer { from: e, to: c, amount: 10 }))
    );
    assert_eq!(withdraw_decision(10, 11, true, e, c), Err(Error::InsufficientBalance));
    assert_eq!(withdraw_decision(10, 3, false, e, c), Err(Error::AlreadyInitialized));
    assert_eq!(settle_decision(false, false, 5, 10, true, e, p), Err(Error::AlreadyInitialized));
    assert_eq!(settle_decision(true, false, 5, 10, true, e, p), Err(Error::Unauthorized));
    assert_eq!(settle_decision(true, true, 0, 10, true, e, p), Err(Error::InvalidAmount));
    assert_eq!(settle_decision(true, true, 11, 10, true, e, p), Err(Error::InsufficientBalance));
    assert_eq!(settle_decision(true, true, 4, 10, false, e, p), Err(Error::AlreadyInitialized));
    assert_eq!(
        settle_decision(true, true, 4, 10, true, e, p),
        Ok((Some(6), Transfer { from: e, to: p, amount: 4 }))
    );
    // the decisions name parties of any kind
    assert_eq!(
        settle_decision(true, true, 4, 4, true, "escrow", "provider"),
        Ok((None, Transfer { from: "escrow", to: "provider", amount: 4 }))
    );
}
