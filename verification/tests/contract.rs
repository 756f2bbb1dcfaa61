//! The contract at work on a real token ledger.

use aralpay::contract::AralPayContract;
use aralpay::step::{Await, Step};
use aralpay::types::{
    Address, Config, DataKey, Durability, Effect, Entry, Error, Escrow, Event, Status, Value,
};
use soroban_sdk::testutils::{Address as _, EnvTestConfig, Ledger, LedgerInfo};
use soroban_sdk::token::{Client, StellarAssetClient};
use soroban_sdk::{Address as LedgerAddress, Env, String as LedgerString};
use std::cell::RefCell;
use std::collections::BTreeMap;

const T0: u64 = 1_000_000; // a fixed "now" for deterministic tests
const WINDOW: u64 = 100_000; // seconds until the refund deadline

/// Pin the ledger clock so deadline logic is deterministic.
fn set_time(env: &Env, ts: u64) {
    env.ledger().set(LedgerInfo {
        timestamp: ts,
        protocol_version: env.ledger().protocol_version(),
        sequence_number: env.ledger().sequence(),
        network_id: Default::default(),
        base_reserve: 10,
        min_temp_entry_ttl: 1000,
        min_persistent_entry_ttl: 1000,
        max_entry_ttl: 6_312_000,
    });
}

fn plain(address: &LedgerAddress) -> Address {
    let mut strkey = [0u8; 56];
    address.to_string().copy_into_slice(&mut strkey);
    Address { strkey }
}

/// What the ledger keeps for the contract.
#[derive(Clone, Debug, PartialEq, Default)]
struct Store {
    initialized: bool,
    config: Option<Config>,
    next_id: Option<u64>,
    escrows: BTreeMap<u64, Escrow>,
    wallets: BTreeMap<Vec<u8>, Address>,
}

/// Why a call did not succeed.
#[derive(Debug, PartialEq)]
enum Failure {
    Aborted(Error),
    Unauthorized(Address),
    TransferRejected,
}

struct Ctx {
    env: Env,
    token: LedgerAddress,
    contract: LedgerAddress,
    operator: Address,
    sponsor: Address,
    student: Address,
    uni_name: Vec<u8>,
    uni_wallet: Address,
    store: RefCell<Store>,
    events: RefCell<Vec<Event>>,
    /// Who authorizes calls; everybody, where it is `None`.
    signers: RefCell<Option<Vec<Address>>>,
}

impl Ctx {
    fn ledger_address(&self, address: &Address) -> LedgerAddress {
        LedgerAddress::from_string(&LedgerString::from_bytes(&self.env, &address.strkey))
    }

    fn transfer(
        &self,
        token: &Address,
        from: &LedgerAddress,
        to: &LedgerAddress,
        amount: i128,
    ) -> Result<(), Failure> {
        let client = Client::new(&self.env, &self.ledger_address(token));
        match client.try_transfer(from, to, &amount) {
            Ok(Ok(())) => Ok(()),
            _ => Err(Failure::TransferRejected),
        }
    }

    fn perform(&self, effect: Effect) -> Result<(), Failure> {
        let mut store = self.store.borrow_mut();
        match effect {
            Effect::RequireAuth(party) => match &*self.signers.borrow() {
                Some(signers) if !signers.contains(&party) => {
                    return Err(Failure::Unauthorized(party));
                }
                _ => {}
            },
            Effect::MarkInitialized => store.initialized = true,
            Effect::Store(Entry::Config(config)) => store.config = Some(config),
            Effect::Store(Entry::NextId(id)) => store.next_id = Some(id),
            Effect::Store(Entry::Escrow(id, escrow)) => {
                store.escrows.insert(id, escrow);
            }
            Effect::Store(Entry::University(name, wallet)) => {
                store.wallets.insert(name, wallet);
            }
            Effect::Remove(DataKey::University(name)) => {
                store.wallets.remove(&name);
            }
            Effect::Remove(key) => panic!("unexpected removal of {:?}", key),
            Effect::Collect { token, from, amount } => {
                return self.transfer(&token, &self.ledger_address(&from), &self.contract, amount);
            }
            Effect::Release { token, to, amount } => {
                return self.transfer(&token, &self.contract, &self.ledger_address(&to), amount);
            }
            Effect::Publish(event) => self.events.borrow_mut().push(event),
        }
        Ok(())
    }

    fn carry_out(&self, mut step: Step) -> Result<Value, Failure> {
        loop {
            for effect in step.effects {
                self.perform(effect)?;
            }
            let store = self.store.borrow().clone();
            step = match step.next {
                Await::IsInitialized(call) => call.resume(store.initialized),
                Await::LoadConfig(call) => call.resume(store.config),
                Await::LoadNextId(call) => call.resume(store.next_id),
                Await::LoadEscrow(id, call) => call.resume(store.escrows.get(&id).cloned()),
                Await::LoadWallet(name, call) => call.resume(store.wallets.get(&name).copied()),
                Await::IsRegistered(name, call) => call.resume(store.wallets.contains_key(&name)),
                Await::ReadClock(call) => call.resume(self.env.ledger().timestamp()),
                Await::Return(value) => return Ok(value),
                Await::Abort(error) => return Err(Failure::Aborted(error)),
            };
        }
    }

    /// A call that fails leaves no trace in the store.
    fn try_call(&self, step: Step) -> Result<Value, Failure> {
        let store = self.store.borrow().clone();
        let events = self.events.borrow().len();
        let outcome = self.carry_out(step);
        if outcome.is_err() {
            *self.store.borrow_mut() = store;
            self.events.borrow_mut().truncate(events);
        }
        outcome
    }

    fn call(&self, step: Step) -> Value {
        match self.try_call(step) {
            Ok(value) => value,
            Err(Failure::Aborted(error)) => panic!("{}", error.message()),
            Err(failure) => panic!("{:?}", failure),
        }
    }

    fn try_deposit(&self, amount: i128, deadline: u64) -> Result<Value, Failure> {
        self.try_call(AralPayContract::deposit_tuition(
            self.sponsor,
            self.student,
            self.uni_name.clone(),
            amount,
            deadline,
        ))
    }

    fn deposit_tuition(&self, amount: i128, deadline: u64) -> u64 {
        let step = AralPayContract::deposit_tuition(
            self.sponsor,
            self.student,
            self.uni_name.clone(),
            amount,
            deadline,
        );
        match self.call(step) {
            Value::Id(id) => id,
            other => panic!("{:?}", other),
        }
    }

    fn pay_tuition(&self, student: Address, id: u64) {
        assert_eq!(self.call(AralPayContract::pay_tuition(student, id)), Value::Unit);
    }

    fn refund(&self, sponsor: Address, id: u64) {
        assert_eq!(self.call(AralPayContract::refund(sponsor, id)), Value::Unit);
    }

    fn get_escrow(&self, id: u64) -> Escrow {
        match self.call(AralPayContract::get_escrow(id)) {
            Value::Escrow(escrow) => escrow,
            other => panic!("{:?}", other),
        }
    }

    fn is_registered(&self, name: &[u8]) -> bool {
        match self.call(AralPayContract::is_registered(name.to_vec())) {
            Value::Flag(registered) => registered,
            other => panic!("{:?}", other),
        }
    }

    fn get_university(&self, name: &[u8]) -> Option<Address> {
        match self.call(AralPayContract::get_university(name.to_vec())) {
            Value::Wallet(wallet) => wallet,
            other => panic!("{:?}", other),
        }
    }

    fn next_escrow_id(&self) -> u64 {
        match self.call(AralPayContract::next_escrow_id()) {
            Value::Id(id) => id,
            other => panic!("{:?}", other),
        }
    }

    fn bal(&self, who: &Address) -> i128 {
        Client::new(&self.env, &self.token).balance(&self.ledger_address(who))
    }

    fn custody(&self) -> i128 {
        Client::new(&self.env, &self.token).balance(&self.contract)
    }

    fn someone(&self) -> Address {
        plain(&LedgerAddress::generate(&self.env))
    }

    fn authorize_only(&self, signers: &[Address]) {
        *self.signers.borrow_mut() = Some(signers.to_vec());
    }
}

/// Deploy a USDC-like Stellar Asset Contract and fund the sponsor with `mint_sponsor`;
/// the contract itself is not initialized yet.
fn bare(mint_sponsor: i128) -> Ctx {
    let env = Env::new_with_config(EnvTestConfig { capture_snapshot_at_drop: false });
    env.mock_all_auths();
    set_time(&env, T0);

    let token_admin = LedgerAddress::generate(&env);
    let token = env.register_stellar_asset_contract_v2(token_admin).address();

    let operator = LedgerAddress::generate(&env);
    let sponsor = LedgerAddress::generate(&env);
    let student = LedgerAddress::generate(&env);
    let uni_wallet = LedgerAddress::generate(&env);
    let contract = LedgerAddress::generate(&env);
    StellarAssetClient::new(&env, &token).mint(&sponsor, &mint_sponsor);

    Ctx {
        token,
        contract,
        operator: plain(&operator),
        sponsor: plain(&sponsor),
        student: plain(&student),
        uni_name: b"Ateneo de Manila University".to_vec(),
        uni_wallet: plain(&uni_wallet),
        store: RefCell::new(Store::default()),
        events: RefCell::new(Vec::new()),
        signers: RefCell::new(None),
        env,
    }
}

/// A contract that is initialized, with one university registered.
fn setup(mint_sponsor: i128) -> Ctx {
    let ctx = bare(mint_sponsor);
    ctx.call(AralPayContract::initialize(ctx.operator, plain(&ctx.token)));
    ctx.call(AralPayContract::register_university(
        ctx.operator,
        ctx.uni_name.clone(),
        ctx.uni_wallet,
    ));
    ctx
}

// Happy path: deposit, student releases, school is paid.
#[test]
fn happy_path_student_pays_registered_university() {
    let ctx = setup(1_000);
    let amount: i128 = 500;
    let deadline = T0 + WINDOW;

    let id = ctx.deposit_tuition(amount, deadline);

    // Funds are now in escrow: not with the sponsor, and not with any household member.
    assert_eq!(ctx.bal(&ctx.sponsor), 1_000 - amount);
    assert_eq!(ctx.custody(), amount);

    // The student releases tuition; it can only land at the registered university.
    ctx.pay_tuition(ctx.student, id);

    assert_eq!(ctx.bal(&ctx.uni_wallet), amount);
    assert_eq!(ctx.custody(), 0);
    assert_eq!(ctx.get_escrow(id).status, Status::Paid);
}

// A household member (not the student) cannot release.
#[test]
#[should_panic(expected = "only the student can release")]
fn non_student_cannot_release_escrow() {
    let ctx = setup(1_000);
    let amount: i128 = 500;
    let deadline = T0 + WINDOW;
    let id = ctx.deposit_tuition(amount, deadline);

    // Any other address (e.g. a relative at home) attempts to divert the funds.
    let household_member = ctx.someone();
    ctx.pay_tuition(household_member, id);
}

// Storage tracks the escrow lifecycle.
#[test]
fn storage_reflects_escrow_lifecycle() {
    let ctx = setup(1_000);
    let amount: i128 = 500;
    let deadline = T0 + WINDOW;

    // Registry resolves the university to its wallet.
    assert_eq!(ctx.is_registered(&ctx.uni_name), true);
    assert_eq!(ctx.get_university(&ctx.uni_name), Some(ctx.uni_wallet));

    // Id counter starts at zero, increments on deposit.
    assert_eq!(ctx.next_escrow_id(), 0);
    let id = ctx.deposit_tuition(amount, deadline);
    assert_eq!(id, 0);
    assert_eq!(ctx.next_escrow_id(), 1);

    // Escrow stored with the right parties, amount, deadline, and Funded status.
    let e = ctx.get_escrow(id);
    assert_eq!(e.sponsor, ctx.sponsor);
    assert_eq!(e.student, ctx.student);
    assert_eq!(e.university, ctx.uni_name);
    assert_eq!(e.amount, amount);
    assert_eq!(e.deadline, deadline);
    assert_eq!(e.status, Status::Funded);

    // After release, status flips to Paid.
    ctx.pay_tuition(ctx.student, id);
    assert_eq!(ctx.get_escrow(id).status, Status::Paid);
}

// The sponsor cannot refund before the deadline.
#[test]
#[should_panic(expected = "deadline not reached")]
fn refund_before_deadline_rejected() {
    let ctx = setup(1_000);
    let amount: i128 = 500;
    let deadline = T0 + WINDOW;
    let id = ctx.deposit_tuition(amount, deadline);

    // Clock is still before the deadline; refund must be blocked.
    ctx.refund(ctx.sponsor, id);
}

// A refund after the deadline returns the funds.
#[test]
fn refund_after_deadline_returns_funds_to_sponsor() {
    let ctx = setup(1_000);
    let amount: i128 = 500;
    let deadline = T0 + WINDOW;
    let id = ctx.deposit_tuition(amount, deadline);

    // Student never enrolls; the clock advances past the enrollment deadline.
    set_time(&ctx.env, deadline + 1);
    ctx.refund(ctx.sponsor, id);

    // Sponsor is made whole, the escrow is Refunded, and the contract is empty.
    assert_eq!(ctx.bal(&ctx.sponsor), 1_000);
    assert_eq!(ctx.custody(), 0);
    assert_eq!(ctx.get_escrow(id).status, Status::Refunded);
}

#[test]
fn refund_opens_only_after_the_deadline() {
    let ctx = setup(1_000);
    let deadline = T0 + WINDOW;
    let id = ctx.deposit_tuition(500, deadline);
    for too_early in [deadline - 1, deadline] {
        set_time(&ctx.env, too_early);
        assert_eq!(
            ctx.try_call(AralPayContract::refund(ctx.sponsor, id)),
            Err(Failure::Aborted(Error::DeadlineNotReached))
        );
        assert_eq!(ctx.get_escrow(id).status, Status::Funded);
        assert_eq!(ctx.custody(), 500);
    }
    set_time(&ctx.env, deadline + 1);
    ctx.refund(ctx.sponsor, id);
    assert_eq!(ctx.bal(&ctx.sponsor), 1_000);
}

#[test]
fn student_can_release_after_the_deadline() {
    let ctx = setup(1_000);
    let id = ctx.deposit_tuition(500, T0 + WINDOW);
    set_time(&ctx.env, T0 + 2 * WINDOW);
    ctx.pay_tuition(ctx.student, id);
    assert_eq!(ctx.bal(&ctx.uni_wallet), 500);
}

#[test]
fn initialization_happens_once() {
    let ctx = bare(0);
    let token = plain(&ctx.token);
    let (someone, other_token) = (ctx.someone(), ctx.someone());
    assert_eq!(ctx.call(AralPayContract::initialize(ctx.operator, token)), Value::Unit);
    assert_eq!(
        ctx.try_call(AralPayContract::initialize(someone, other_token)),
        Err(Failure::Aborted(Error::AlreadyInitialized))
    );
    assert_eq!(
        ctx.call(AralPayContract::get_config()),
        Value::Config(Config { admin: ctx.operator, token })
    );
}

#[test]
fn initialization_needs_the_operator() {
    let ctx = bare(0);
    ctx.authorize_only(&[ctx.sponsor]);
    assert_eq!(
        ctx.try_call(AralPayContract::initialize(ctx.operator, plain(&ctx.token))),
        Err(Failure::Unauthorized(ctx.operator))
    );
    assert_eq!(*ctx.store.borrow(), Store::default());
}

#[test]
fn uninitialized_contract_only_answers_lookups() {
    let ctx = bare(1_000);
    let refused = Err(Failure::Aborted(Error::NotInitialized));
    let name = ctx.uni_name.clone();
    let wallet = ctx.uni_wallet;
    let step = AralPayContract::register_university(ctx.operator, name.clone(), wallet);
    assert_eq!(ctx.try_call(step), refused);
    let step = AralPayContract::remove_university(ctx.operator, name.clone());
    assert_eq!(ctx.try_call(step), refused);
    assert_eq!(ctx.try_deposit(500, T0 + WINDOW), refused);
    assert_eq!(ctx.try_call(AralPayContract::pay_tuition(ctx.student, 0)), refused);
    assert_eq!(ctx.try_call(AralPayContract::refund(ctx.sponsor, 0)), refused);
    assert_eq!(ctx.try_call(AralPayContract::get_config()), refused);
    assert_eq!(
        ctx.try_call(AralPayContract::get_escrow(0)),
        Err(Failure::Aborted(Error::EscrowNotFound))
    );
    assert_eq!(ctx.next_escrow_id(), 0);
    assert_eq!(ctx.is_registered(&name), false);
    assert_eq!(ctx.get_university(&name), None);
}

#[test]
fn registry_is_the_operators() {
    let ctx = setup(1_000);
    let name = b"University of the Philippines".to_vec();
    let (intruder, wallet, moved) = (ctx.someone(), ctx.someone(), ctx.someone());
    let refused = Err(Failure::Aborted(Error::NotOperator));
    let step = AralPayContract::register_university(intruder, name.clone(), wallet);
    assert_eq!(ctx.try_call(step), refused);
    let step = AralPayContract::remove_university(intruder, ctx.uni_name.clone());
    assert_eq!(ctx.try_call(step), refused);

    // The right name is not enough: the operator has to agree.
    ctx.authorize_only(&[intruder]);
    let step = AralPayContract::register_university(ctx.operator, name.clone(), wallet);
    assert_eq!(ctx.try_call(step), Err(Failure::Unauthorized(ctx.operator)));
    let step = AralPayContract::remove_university(ctx.operator, ctx.uni_name.clone());
    assert_eq!(ctx.try_call(step), Err(Failure::Unauthorized(ctx.operator)));
    ctx.authorize_only(&[ctx.operator]);

    // Added, updated and removed; the other name is not affected.
    let step = AralPayContract::register_university(ctx.operator, name.clone(), wallet);
    ctx.call(step);
    assert_eq!(ctx.get_university(&name), Some(wallet));
    let step = AralPayContract::register_university(ctx.operator, name.clone(), moved);
    ctx.call(step);
    assert_eq!(ctx.get_university(&name), Some(moved));
    ctx.call(AralPayContract::remove_university(ctx.operator, name.clone()));
    assert_eq!(ctx.get_university(&name), None);
    assert_eq!(ctx.is_registered(&name), false);
    assert_eq!(ctx.get_university(&ctx.uni_name), Some(ctx.uni_wallet));

    // Removing what is not there is no error.
    assert_eq!(
        ctx.call(AralPayContract::remove_university(ctx.operator, name)),
        Value::Unit
    );
}

#[test]
fn deposit_is_checked() {
    let ctx = setup(1_000);
    assert_eq!(
        ctx.try_deposit(0, T0 + WINDOW),
        Err(Failure::Aborted(Error::AmountNotPositive))
    );
    assert_eq!(
        ctx.try_deposit(-1, T0 + WINDOW),
        Err(Failure::Aborted(Error::AmountNotPositive))
    );
    assert_eq!(
        ctx.try_deposit(500, T0),
        Err(Failure::Aborted(Error::DeadlineNotInFuture))
    );
    let step = AralPayContract::deposit_tuition(
        ctx.sponsor,
        ctx.student,
        b"Diploma Mill".to_vec(),
        500,
        T0 + WINDOW,
    );
    assert_eq!(
        ctx.try_call(step),
        Err(Failure::Aborted(Error::UniversityNotRegistered))
    );
    assert_eq!(ctx.try_deposit(1_001, T0 + WINDOW), Err(Failure::TransferRejected));
    ctx.authorize_only(&[ctx.student]);
    assert_eq!(
        ctx.try_deposit(0, T0 + WINDOW),
        Err(Failure::Unauthorized(ctx.sponsor))
    );
    assert_eq!(ctx.next_escrow_id(), 0);
    assert_eq!(ctx.custody(), 0);
    ctx.authorize_only(&[ctx.sponsor]);
    assert_eq!(ctx.try_deposit(500, T0 + 1), Ok(Value::Id(0)));
}

#[test]
fn escrow_is_settled_once() {
    let ctx = setup(1_000);
    let settled = Err(Failure::Aborted(Error::EscrowNotFunded));
    let paid = ctx.deposit_tuition(300, T0 + WINDOW);
    let refunded = ctx.deposit_tuition(200, T0 + WINDOW);
    ctx.pay_tuition(ctx.student, paid);
    set_time(&ctx.env, T0 + WINDOW + 1);
    ctx.refund(ctx.sponsor, refunded);
    for id in [paid, refunded] {
        assert_eq!(ctx.try_call(AralPayContract::pay_tuition(ctx.student, id)), settled);
        assert_eq!(ctx.try_call(AralPayContract::refund(ctx.sponsor, id)), settled);
    }
    assert_eq!(ctx.bal(&ctx.uni_wallet), 300);
    assert_eq!(ctx.bal(&ctx.sponsor), 700);
    assert_eq!(ctx.custody(), 0);
}

#[test]
fn release_goes_where_the_registry_points_now() {
    let ctx = setup(1_000);
    let id = ctx.deposit_tuition(500, T0 + WINDOW);
    ctx.call(AralPayContract::remove_university(ctx.operator, ctx.uni_name.clone()));
    assert_eq!(
        ctx.try_call(AralPayContract::pay_tuition(ctx.student, id)),
        Err(Failure::Aborted(Error::UniversityNoLongerRegistered))
    );
    let moved = ctx.someone();
    let step = AralPayContract::register_university(ctx.operator, ctx.uni_name.clone(), moved);
    ctx.call(step);
    ctx.pay_tuition(ctx.student, id);
    assert_eq!(ctx.bal(&moved), 500);
    assert_eq!(ctx.bal(&ctx.uni_wallet), 0);
}

#[test]
fn refund_does_not_need_the_registry() {
    let ctx = setup(1_000);
    let id = ctx.deposit_tuition(500, T0 + WINDOW);
    ctx.call(AralPayContract::remove_university(ctx.operator, ctx.uni_name.clone()));
    set_time(&ctx.env, T0 + WINDOW + 1);
    ctx.refund(ctx.sponsor, id);
    assert_eq!(ctx.bal(&ctx.sponsor), 1_000);
}

#[test]
fn only_the_parties_settle() {
    let ctx = setup(1_000);
    let id = ctx.deposit_tuition(500, T0 + WINDOW);
    set_time(&ctx.env, T0 + WINDOW + 1);
    let before = ctx.store.borrow().clone();

    assert_eq!(
        ctx.try_call(AralPayContract::refund(ctx.student, id)),
        Err(Failure::Aborted(Error::NotSponsor))
    );
    assert_eq!(
        ctx.try_call(AralPayContract::pay_tuition(ctx.sponsor, id)),
        Err(Failure::Aborted(Error::NotStudent))
    );
    // Authorization is asked for before the caller is held against the escrow.
    ctx.authorize_only(&[ctx.operator]);
    let household_member = ctx.someone();
    for caller in [ctx.sponsor, ctx.student, household_member] {
        let refused = Err(Failure::Unauthorized(caller));
        assert_eq!(ctx.try_call(AralPayContract::pay_tuition(caller, id)), refused);
        assert_eq!(ctx.try_call(AralPayContract::refund(caller, id)), refused);
    }
    assert_eq!(*ctx.store.borrow(), before);
    assert_eq!(ctx.custody(), 500);
}

#[test]
fn unknown_escrow_is_reported() {
    let ctx = setup(1_000);
    let unknown = Err(Failure::Aborted(Error::EscrowNotFound));
    assert_eq!(ctx.try_call(AralPayContract::get_escrow(0)), unknown);
    assert_eq!(ctx.try_call(AralPayContract::pay_tuition(ctx.student, 0)), unknown);
    assert_eq!(ctx.try_call(AralPayContract::refund(ctx.sponsor, 0)), unknown);
}

#[test]
fn custody_is_what_is_owed() {
    let ctx = setup(1_000);
    let a = ctx.deposit_tuition(100, T0 + WINDOW);
    let b = ctx.deposit_tuition(250, T0 + WINDOW);
    let c = ctx.deposit_tuition(400, T0 + 2 * WINDOW);
    assert_eq!([a, b, c], [0, 1, 2]);
    assert_eq!(ctx.next_escrow_id(), 3);
    assert_eq!(ctx.store.borrow().escrows.len(), 3);
    let owed = |ctx: &Ctx| -> i128 {
        let store = ctx.store.borrow();
        store.escrows.values().filter(|e| e.status == Status::Funded).map(|e| e.amount).sum()
    };
    assert_eq!(ctx.custody(), 750);
    assert_eq!(owed(&ctx), 750);
    ctx.pay_tuition(ctx.student, b);
    assert_eq!(ctx.custody(), 500);
    assert_eq!(owed(&ctx), 500);
    set_time(&ctx.env, T0 + WINDOW + 1);
    ctx.refund(ctx.sponsor, a);
    assert_eq!(ctx.custody(), 400);
    assert_eq!(owed(&ctx), 400);

    // The terms of an escrow outlive its settlement.
    let e = ctx.get_escrow(b);
    assert_eq!(
        e,
        Escrow {
            id: b,
            sponsor: ctx.sponsor,
            student: ctx.student,
            university: ctx.uni_name.clone(),
            amount: 250,
            deadline: T0 + WINDOW,
            status: Status::Paid,
        }
    );
}

#[test]
fn events_tell_the_story() {
    let ctx = setup(1_000);
    let a = ctx.deposit_tuition(100, T0 + WINDOW);
    let b = ctx.deposit_tuition(200, T0 + WINDOW);
    ctx.pay_tuition(ctx.student, a);
    set_time(&ctx.env, T0 + WINDOW + 1);
    ctx.refund(ctx.sponsor, b);
    let events = ctx.events.borrow();
    assert_eq!(
        *events,
        vec![
            Event::UniversityRegistered { wallet: ctx.uni_wallet, name: ctx.uni_name.clone() },
            Event::Deposited { sponsor: ctx.sponsor, id: a, amount: 100 },
            Event::Deposited { sponsor: ctx.sponsor, id: b, amount: 200 },
            Event::Paid { university: ctx.uni_wallet, id: a, amount: 100 },
            Event::Refunded { sponsor: ctx.sponsor, id: b, amount: 200 },
        ]
    );
    let topics: Vec<&str> = events.iter().map(|event| event.topic()).collect();
    assert_eq!(topics, ["uni_reg", "deposit", "deposit", "paid", "refund"]);
    let parties: Vec<Address> = events.iter().map(|event| event.party()).collect();
    assert_eq!(
        parties,
        [ctx.uni_wallet, ctx.sponsor, ctx.sponsor, ctx.uni_wallet, ctx.sponsor]
    );
}

#[test]
fn ids_can_run_out() {
    let ctx = setup(1_000);
    ctx.store.borrow_mut().next_id = Some(u64::MAX - 1);
    assert_eq!(ctx.try_deposit(100, T0 + WINDOW), Ok(Value::Id(u64::MAX - 1)));
    assert_eq!(
        ctx.try_deposit(100, T0 + WINDOW),
        Err(Failure::Aborted(Error::IdsExhausted))
    );
    assert_eq!(ctx.next_escrow_id(), u64::MAX);
}

#[test]
fn keys_say_where_entries_live() {
    let ctx = setup(0);
    let config = Config { admin: ctx.operator, token: plain(&ctx.token) };
    let name = ctx.uni_name.clone();
    assert_eq!(Entry::Config(config).key(), DataKey::Config);
    assert_eq!(Entry::NextId(3).key(), DataKey::NextId);
    assert_eq!(
        Entry::University(name.clone(), ctx.uni_wallet).key(),
        DataKey::University(name.clone())
    );
    assert_eq!(DataKey::Config.durability(), Durability::Instance);
    assert_eq!(DataKey::NextId.durability(), Durability::Instance);
    assert_eq!(DataKey::Escrow(7).durability(), Durability::Persistent);
    assert_eq!(DataKey::University(name.clone()).durability(), Durability::Persistent);
    assert_eq!(DataKey::University(name.clone()).clone(), DataKey::University(name));
}

#[test]
fn looking_changes_nothing() {
    let ctx = setup(1_000);
    let id = ctx.deposit_tuition(500, T0 + WINDOW);
    let before = ctx.store.borrow().clone();
    let events = ctx.events.borrow().len();
    ctx.authorize_only(&[]);
    assert_eq!(ctx.get_escrow(id).amount, 500);
    assert_eq!(ctx.get_university(&ctx.uni_name), Some(ctx.uni_wallet));
    assert_eq!(ctx.is_registered(&ctx.uni_name), true);
    assert_eq!(ctx.next_escrow_id(), 1);
    assert!(ctx.try_call(AralPayContract::get_config()).is_ok());
    assert_eq!(*ctx.store.borrow(), before);
    assert_eq!(ctx.events.borrow().len(), events);
    assert_eq!(ctx.custody(), 500);
}

#[test]
fn custody_covers_what_is_owed_even_if_the_contract_is_a_wallet() {
    let ctx = setup(1_000);
    let itself = plain(&ctx.contract);
    let step = AralPayContract::register_university(ctx.operator, ctx.uni_name.clone(), itself);
    ctx.call(step);
    let paid = ctx.deposit_tuition(300, T0 + WINDOW);
    let open = ctx.deposit_tuition(200, T0 + WINDOW);
    ctx.pay_tuition(ctx.student, paid);
    assert_eq!(ctx.get_escrow(open).status, Status::Funded);
    assert_eq!(ctx.custody(), 500);
}

#[test]
fn names_are_any_bytes() {
    let ctx = setup(1_000);
    let name = vec![0xff, 0x00, 0xfe];
    let wallet = ctx.someone();
    let step = AralPayContract::register_university(ctx.operator, name.clone(), wallet);
    ctx.call(step);
    assert_eq!(ctx.get_university(&name), Some(wallet));
    assert_eq!(ctx.get_university(&[]), None);
}
