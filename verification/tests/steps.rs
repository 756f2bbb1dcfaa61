//! The steps of a call, one by one.

use aralpay::contract::AralPayContract;
use aralpay::step::{Await, OnClock, OnConfig, OnEscrow, OnNextId, OnWallet, Step};
use aralpay::types::{
    Address, Config, DataKey, Effect, Entry, Error, Escrow, Event, Status, Value,
};

fn address(tag: u8) -> Address {
    Address { strkey: [tag; 56] }
}

const ADMIN: u8 = 1;
const TOKEN: u8 = 2;
const SPONSOR: u8 = 3;
const STUDENT: u8 = 4;
const WALLET: u8 = 5;

fn config() -> Config {
    Config { admin: address(ADMIN), token: address(TOKEN) }
}

fn escrow(status: Status) -> Escrow {
    Escrow {
        id: 7,
        sponsor: address(SPONSOR),
        student: address(STUDENT),
        university: b"UP".to_vec(),
        amount: 500,
        deadline: 100,
        status,
    }
}

fn after_config(step: Step, stored: Option<Config>) -> Step {
    assert_eq!(step.effects, vec![]);
    assert_eq!(step.next.key(), Some(DataKey::Config));
    match step.next {
        Await::LoadConfig(call) => call.resume(stored),
        _ => panic!("expected a question for the configuration"),
    }
}

fn aborts(step: Step) -> (Vec<Effect>, Error) {
    assert_eq!(step.next.key(), None);
    match step.next {
        Await::Abort(error) => (step.effects, error),
        _ => panic!("expected an abort"),
    }
}

fn gives(step: Step) -> (Vec<Effect>, Value) {
    assert_eq!(step.next.key(), None);
    match step.next {
        Await::Return(value) => (step.effects, value),
        _ => panic!("expected a value"),
    }
}

#[test]
fn addresses_differ_in_any_character() {
    let a = address(9);
    assert!(a.same_as(&address(9)));
    for i in 0..56 {
        let mut b = a;
        b.strkey[i] = 8;
        assert!(!a.same_as(&b));
    }
}

#[test]
fn initialize_writes_flag_configuration_and_counter() {
    let step = AralPayContract::initialize(address(ADMIN), address(TOKEN));
    assert_eq!(step.next.key(), None);
    let step = match step.next {
        Await::IsInitialized(call) => call.resume(false),
        _ => panic!("expected a question for the flag"),
    };
    let effects = vec![
        Effect::RequireAuth(address(ADMIN)),
        Effect::MarkInitialized,
        Effect::Store(Entry::Config(config())),
        Effect::Store(Entry::NextId(0)),
    ];
    assert_eq!(gives(step), (effects, Value::Unit));
}

#[test]
fn deposit_goes_through_its_questions_in_order() {
    let step = AralPayContract::deposit_tuition(
        address(SPONSOR),
        address(STUDENT),
        b"UP".to_vec(),
        500,
        100,
    );
    let step = after_config(step, Some(config()));
    assert_eq!(step.effects, vec![Effect::RequireAuth(address(SPONSOR))]);
    assert_eq!(step.next.key(), Some(DataKey::University(b"UP".to_vec())));
    let step = match step.next {
        Await::IsRegistered(name, call) => {
            assert_eq!(name, b"UP".to_vec());
            call.resume(true)
        }
        _ => panic!("expected a question for the registry"),
    };
    assert_eq!(step.effects, vec![]);
    let step = match step.next {
        Await::ReadClock(call) => call.resume(99),
        _ => panic!("expected a question for the time"),
    };
    assert_eq!(
        step.effects,
        vec![Effect::Collect { token: address(TOKEN), from: address(SPONSOR), amount: 500 }]
    );
    assert_eq!(step.next.key(), Some(DataKey::NextId));
    let step = match step.next {
        Await::LoadNextId(call) => call.resume(Some(7)),
        _ => panic!("expected a question for the counter"),
    };
    let effects = vec![
        Effect::Store(Entry::Escrow(7, escrow(Status::Funded))),
        Effect::Store(Entry::NextId(8)),
        Effect::Publish(Event::Deposited { sponsor: address(SPONSOR), id: 7, amount: 500 }),
    ];
    assert_eq!(gives(step), (effects, Value::Id(7)));
}

#[test]
fn deposit_of_nothing_fails_after_authorization() {
    let step = AralPayContract::deposit_tuition(
        address(SPONSOR),
        address(STUDENT),
        b"UP".to_vec(),
        0,
        100,
    );
    assert_eq!(
        aborts(after_config(step, Some(config()))),
        (vec![Effect::RequireAuth(address(SPONSOR))], Error::AmountNotPositive)
    );
}

#[test]
fn pay_goes_through_its_questions_in_order() {
    let step = AralPayContract::pay_tuition(address(STUDENT), 7);
    let step = after_config(step, Some(config()));
    assert_eq!(step.effects, vec![]);
    assert_eq!(step.next.key(), Some(DataKey::Escrow(7)));
    let step = match step.next {
        Await::LoadEscrow(7, call) => call.resume(Some(escrow(Status::Funded))),
        _ => panic!("expected a question for the escrow"),
    };
    assert_eq!(step.effects, vec![Effect::RequireAuth(address(STUDENT))]);
    assert_eq!(step.next.key(), Some(DataKey::University(b"UP".to_vec())));
    let step = match step.next {
        Await::LoadWallet(_, call) => call.resume(Some(address(WALLET))),
        _ => panic!("expected a question for the wallet"),
    };
    let effects = vec![
        Effect::Release { token: address(TOKEN), to: address(WALLET), amount: 500 },
        Effect::Store(Entry::Escrow(7, escrow(Status::Paid))),
        Effect::Publish(Event::Paid { university: address(WALLET), id: 7, amount: 500 }),
    ];
    assert_eq!(gives(step), (effects, Value::Unit));
}

#[test]
fn pay_of_a_settled_escrow_asks_for_no_authorization() {
    for status in [Status::Paid, Status::Refunded] {
        let call = OnEscrow::Pay {
            token: address(TOKEN),
            student: address(STUDENT),
            escrow_id: 7,
        };
        assert_eq!(
            aborts(call.resume(Some(escrow(status)))),
            (vec![], Error::EscrowNotFunded)
        );
    }
}

#[test]
fn pay_without_a_wallet_fails() {
    let call = OnWallet::Pay {
        token: address(TOKEN),
        escrow_id: 7,
        escrow: escrow(Status::Funded),
    };
    assert_eq!(aborts(call.resume(None)), (vec![], Error::UniversityNoLongerRegistered));
}

#[test]
fn refund_goes_back_to_the_sponsor() {
    let call = OnEscrow::Refund {
        token: address(TOKEN),
        sponsor: address(SPONSOR),
        escrow_id: 7,
    };
    let step = call.resume(Some(escrow(Status::Funded)));
    assert_eq!(step.effects, vec![Effect::RequireAuth(address(SPONSOR))]);
    let step = match step.next {
        Await::ReadClock(call) => call.resume(101),
        _ => panic!("expected a question for the time"),
    };
    let effects = vec![
        Effect::Release { token: address(TOKEN), to: address(SPONSOR), amount: 500 },
        Effect::Store(Entry::Escrow(7, escrow(Status::Refunded))),
        Effect::Publish(Event::Refunded { sponsor: address(SPONSOR), id: 7, amount: 500 }),
    ];
    assert_eq!(gives(step), (effects, Value::Unit));
    for too_early in [99, 100] {
        let call = OnClock::Refund {
            token: address(TOKEN),
            escrow_id: 7,
            escrow: escrow(Status::Funded),
        };
        assert_eq!(aborts(call.resume(too_early)), (vec![], Error::DeadlineNotReached));
    }
}

#[test]
fn refund_by_another_fails_after_authorization() {
    let call = OnEscrow::Refund {
        token: address(TOKEN),
        sponsor: address(WALLET),
        escrow_id: 7,
    };
    assert_eq!(
        aborts(call.resume(Some(escrow(Status::Funded)))),
        (vec![Effect::RequireAuth(address(WALLET))], Error::NotSponsor)
    );
}

#[test]
fn removal_drops_the_name() {
    let step = AralPayContract::remove_university(address(ADMIN), b"UP".to_vec());
    let effects = vec![
        Effect::RequireAuth(address(ADMIN)),
        Effect::Remove(DataKey::University(b"UP".to_vec())),
    ];
    assert_eq!(gives(after_config(step, Some(config()))), (effects, Value::Unit));
    let call = OnConfig::Remove { admin: address(WALLET), name: b"UP".to_vec() };
    assert_eq!(aborts(call.resume(Some(config()))), (vec![], Error::NotOperator));
}

#[test]
fn stored_values_are_read() {
    assert_eq!(AralPayContract::load_config(Some(config())), Ok(config()));
    assert_eq!(AralPayContract::load_config(None), Err(Error::NotInitialized));
    assert_eq!(AralPayContract::read_next_id(Some(5)), 5);
    assert_eq!(AralPayContract::read_next_id(None), 0);
    let stored = escrow(Status::Funded);
    assert_eq!(AralPayContract::load_escrow(Some(stored.clone())), Ok(stored));
    assert_eq!(AralPayContract::load_escrow(None), Err(Error::EscrowNotFound));
    assert_eq!(gives(OnNextId::Report.resume(None)), (vec![], Value::Id(0)));
    assert_eq!(gives(OnConfig::Report.resume(Some(config()))).1, Value::Config(config()));
}

#[test]
fn errors_have_their_messages() {
    let messages = [
        (Error::AlreadyInitialized, "already initialized"),
        (Error::NotInitialized, "contract not initialized"),
        (Error::NotOperator, "only the operator can manage the registry"),
        (Error::AmountNotPositive, "amount must be positive"),
        (Error::UniversityNotRegistered, "university not registered"),
        (Error::DeadlineNotInFuture, "deadline must be in the future"),
        (Error::IdsExhausted, "attempt to add with overflow"),
        (Error::EscrowNotFound, "escrow does not exist"),
        (Error::EscrowNotFunded, "escrow is not in a funded state"),
        (Error::NotStudent, "only the student can release this escrow"),
        (Error::UniversityNoLongerRegistered, "university no longer registered"),
        (Error::NotSponsor, "only the sponsor can refund this escrow"),
        (Error::DeadlineNotReached, "deadline not reached"),
    ];
    for (error, message) in messages {
        assert_eq!(error.message(), message);
    }
}
