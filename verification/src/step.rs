use crate::contract::AralPayContract;
use crate::plan;
use crate::plan::{DepositView, Plan, Then};
use crate::types;
use crate::types::{
    copy_name, Address, Config, DataKey, Effect, Entry, Error, Escrow, EscrowView, Event, Status,
    Value,
};
use vstd::prelude::*;

verus! {

/// A suspended call. Perform `effects` in order; then answer what `next` asks and
/// resume, or end the call as it says.
pub struct Step {
    pub effects: Vec<Effect>,
    pub next: Await,
}

/// What a suspended call waits for. A question carries what is needed to resume.
pub enum Await {
    /// Whether the contract has been initialized.
    IsInitialized(OnInitialized),
    /// The stored configuration, if any.
    LoadConfig(OnConfig),
    /// The stored id for the next escrow, if any.
    LoadNextId(OnNextId),
    /// The escrow stored under the id, if any.
    LoadEscrow(u64, OnEscrow),
    /// The wallet stored for the name, if any.
    LoadWallet(Vec<u8>, OnWallet),
    /// Whether there is a wallet stored for the name.
    IsRegistered(Vec<u8>, OnRegistered),
    /// The time on the ledger.
    ReadClock(OnClock),
    /// Nothing: the call succeeds with this value.
    Return(Value),
    /// Nothing: the call fails.
    Abort(Error),
}

impl View for Step {
    type V = Plan;

    open spec fn view(&self) -> Plan {
        Plan {
            effects: self.effects@.map_values(|effect: Effect| effect@),
            next: self.next@,
        }
    }
}

impl View for Await {
    type V = Then;

    open spec fn view(&self) -> Then {
        match *self {
            Await::IsInitialized(k) => Then::IsInitialized(k@),
            Await::LoadConfig(k) => Then::LoadConfig(k@),
            Await::LoadNextId(k) => Then::LoadNextId(k@),
            Await::LoadEscrow(id, k) => Then::LoadEscrow(id, k@),
            Await::LoadWallet(name, k) => Then::LoadWallet(name@, k@),
            Await::IsRegistered(name, k) => Then::IsRegistered(name@, k@),
            Await::ReadClock(k) => Then::ReadClock(k@),
            Await::Return(value) => Then::Return(value@),
            Await::Abort(error) => Then::Abort(error),
        }
    }
}

impl Await {
    /// The storage key that the question is about, if it is about one.
    pub fn key(&self) -> (key: Option<DataKey>)
        ensures
            match key {
                Some(k) => self@.key() == Some(k@),
                None => self@.key() is None,
            },
    {
        match self {
            Await::LoadConfig(_) => Some(DataKey::Config),
            Await::LoadNextId(_) => Some(DataKey::NextId),
            Await::LoadEscrow(id, _) => Some(DataKey::Escrow(*id)),
            Await::LoadWallet(name, _) => Some(DataKey::University(copy_name(name))),
            Await::IsRegistered(name, _) => Some(DataKey::University(copy_name(name))),
            Await::IsInitialized(_) | Await::ReadClock(_) | Await::Return(_) | Await::Abort(_)
                => None,
        }
    }
}

impl Step {
    /// Wait at once.
    pub fn ask(next: Await) -> (step: Step)
        ensures
            step@ == plan::ask(next@),
    {
        Step { effects: Vec::new(), next }
    }

    /// Fail at once.
    pub fn abort(error: Error) -> (step: Step)
        ensures
            step@ == plan::abort(error),
    {
        Step { effects: Vec::new(), next: Await::Abort(error) }
    }

    /// Succeed at once.
    pub fn give(value: Value) -> (step: Step)
        ensures
            step@ == plan::give(value@),
    {
        Step { effects: Vec::new(), next: Await::Return(value) }
    }
}

/// What a sponsor asks for with a deposit.
pub struct Deposit {
    pub sponsor: Address,
    pub student: Address,
    pub university: Vec<u8>,
    pub amount: i128,
    pub deadline: u64,
}

impl View for Deposit {
    type V = DepositView;

    open spec fn view(&self) -> DepositView {
        DepositView {
            sponsor: self.sponsor,
            student: self.student,
            university: self.university@,
            amount: self.amount,
            deadline: self.deadline,
        }
    }
}

/// A call that waits to learn whether the contract has been initialized.
pub struct OnInitialized {
    pub admin: Address,
    pub token: Address,
}

impl View for OnInitialized {
    type V = spec_fn(bool) -> Plan;

    open spec fn view(&self) -> spec_fn(bool) -> Plan {
        plan::initialize_given_flag(self.admin, self.token)
    }
}

impl OnInitialized {
    pub fn resume(self, initialized: bool) -> (step: Step)
        ensures
            step@ == (self@)(initialized),
    {
        if initialized {
            return Step::abort(Error::AlreadyInitialized);
        }
        let OnInitialized { admin, token } = self;
        Step {
            effects: vec![
                Effect::RequireAuth(admin),
                Effect::MarkInitialized,
                Effect::Store(Entry::Config(Config { admin, token })),
                Effect::Store(Entry::NextId(0)),
            ],
            next: Await::Return(Value::Unit),
        }
    }
}


/// A call that waits for the stored configuration.
pub enum OnConfig {
    Register { admin: Address, name: Vec<u8>, wallet: Address },
    Remove { admin: Address, name: Vec<u8> },
    Deposit(Deposit),
    Pay { student: Address, escrow_id: u64 },
    Refund { sponsor: Address, escrow_id: u64 },
    Report,
}

impl View for OnConfig {
    type V = spec_fn(Option<Config>) -> Plan;

    open spec fn view(&self) -> spec_fn(Option<Config>) -> Plan {
        match *self {
            OnConfig::Register { admin, name, wallet } => plan::register_given_config(
                admin,
                name@,
                wallet,
            ),
            OnConfig::Remove { admin, name } => plan::remove_given_config(admin, name@),
            OnConfig::Deposit(deposit) => plan::deposit_given_config(deposit@),
            OnConfig::Pay { student, escrow_id } => plan::pay_given_config(student, escrow_id),
            OnConfig::Refund { sponsor, escrow_id } => plan::refund_given_config(
                sponsor,
                escrow_id,
            ),
            OnConfig::Report => plan::report_config(),
        }
    }
}

impl OnConfig {
    pub fn resume(self, stored: Option<Config>) -> (step: Step)
        ensures
            step@ == (self@)(stored),
    {
        let config = match AralPayContract::load_config(stored) {
            Ok(config) => config,
            Err(error) => return Step::abort(error),
        };
        match self {
            OnConfig::Register { admin, name, wallet } => {
                if !admin.same_as(&config.admin) {
                    return Step::abort(Error::NotOperator);
                }
                Step {
                    effects: vec![
                        Effect::RequireAuth(admin),
                        Effect::Store(Entry::University(copy_name(&name), wallet)),
                        Effect::Publish(Event::UniversityRegistered { wallet, name }),
                    ],
                    next: Await::Return(Value::Unit),
                }
            },
            OnConfig::Remove { admin, name } => {
                if !admin.same_as(&config.admin) {
                    return Step::abort(Error::NotOperator);
                }
                Step {
                    effects: vec![
                        Effect::RequireAuth(admin),
                        Effect::Remove(DataKey::University(name)),
                    ],
                    next: Await::Return(Value::Unit),
                }
            },
            OnConfig::Deposit(deposit) => Step {
                effects: vec![Effect::RequireAuth(deposit.sponsor)],
                next: if deposit.amount <= 0 {
                    Await::Abort(Error::AmountNotPositive)
                } else {
                    // Earmark only to a registered school.
                    Await::IsRegistered(
                        copy_name(&deposit.university),
                        OnRegistered::Deposit { token: config.token, deposit },
                    )
                },
            },
            OnConfig::Pay { student, escrow_id } => Step::ask(
                Await::LoadEscrow(
                    escrow_id,
                    OnEscrow::Pay { token: config.token, student, escrow_id },
                ),
            ),
            OnConfig::Refund { sponsor, escrow_id } => Step::ask(
                Await::LoadEscrow(
                    escrow_id,
                    OnEscrow::Refund { token: config.token, sponsor, escrow_id },
                ),
            ),
            OnConfig::Report => Step::give(Value::Config(config)),
        }
    }
}

/// A call that waits to learn whether a university is registered.
pub enum OnRegistered {
    Deposit { token: Address, deposit: Deposit },
    Report,
}

impl View for OnRegistered {
    type V = spec_fn(bool) -> Plan;

    open spec fn view(&self) -> spec_fn(bool) -> Plan {
        match *self {
            OnRegistered::Deposit { token, deposit } => plan::deposit_given_registered(
                token,
                deposit@,
            ),
            OnRegistered::Report => plan::report_registered(),
        }
    }
}

impl OnRegistered {
    pub fn resume(self, registered: bool) -> (step: Step)
        ensures
            step@ == (self@)(registered),
    {
        match self {
            OnRegistered::Deposit { token, deposit } => {
                if !registered {
                    return Step::abort(Error::UniversityNotRegistered);
                }
                Step::ask(Await::ReadClock(OnClock::Deposit { token, deposit }))
            },
            OnRegistered::Report => Step::give(Value::Flag(registered)),
        }
    }
}

/// A call that waits for the time on the ledger.
pub enum OnClock {
    Deposit { token: Address, deposit: Deposit },
    Refund { token: Address, escrow_id: u64, escrow: Escrow },
}

impl View for OnClock {
    type V = spec_fn(u64) -> Plan;

    open spec fn view(&self) -> spec_fn(u64) -> Plan {
        match *self {
            OnClock::Deposit { token, deposit } => plan::deposit_given_time(token, deposit@),
            OnClock::Refund { token, escrow_id, escrow } => plan::refund_given_time(
                token,
                escrow_id,
                escrow@,
            ),
        }
    }
}

impl OnClock {
    pub fn resume(self, now: u64) -> (step: Step)
        ensures
            step@ == (self@)(now),
    {
        match self {
            OnClock::Deposit { token, deposit } => {
                // A future deadline guarantees the student a real enrollment window.
                if deposit.deadline <= now {
                    return Step::abort(Error::DeadlineNotInFuture);
                }
                Step {
                    effects: vec![
                        Effect::Collect { token, from: deposit.sponsor, amount: deposit.amount },
                    ],
                    next: Await::LoadNextId(OnNextId::Deposit(deposit)),
                }
            },
            OnClock::Refund { token, escrow_id, escrow } => {
                // Refunds open only once the enrollment window has closed.
                if now <= escrow.deadline {
                    return Step::abort(Error::DeadlineNotReached);
                }
                let sponsor = escrow.sponsor;
                let amount: i128 = escrow.amount;
                Step {
                    effects: vec![
                        Effect::Release { token, to: sponsor, amount },
                        Effect::Store(
                            Entry::Escrow(escrow_id, Escrow { status: Status::Refunded, ..escrow }),
                        ),
                        Effect::Publish(Event::Refunded { sponsor, id: escrow_id, amount }),
                    ],
                    next: Await::Return(Value::Unit),
                }
            },
        }
    }
}

/// A call that waits for the stored id for the next escrow.
pub enum OnNextId {
    Deposit(Deposit),
    Report,
}

impl View for OnNextId {
    type V = spec_fn(Option<u64>) -> Plan;

    open spec fn view(&self) -> spec_fn(Option<u64>) -> Plan {
        match *self {
            OnNextId::Deposit(deposit) => plan::deposit_given_next_id(deposit@),
            OnNextId::Report => plan::report_next_id(),
        }
    }
}

impl OnNextId {
    pub fn resume(self, stored: Option<u64>) -> (step: Step)
        ensures
            step@ == (self@)(stored),
    {
        let id: u64 = AralPayContract::read_next_id(stored);
        match self {
            OnNextId::Deposit(deposit) => {
                if id == u64::MAX {
                    return Step::abort(Error::IdsExhausted);
                }
                let Deposit { sponsor, student, university, amount, deadline } = deposit;
                let escrow = Escrow {
                    id,
                    sponsor,
                    student,
                    university,
                    amount,
                    deadline,
                    status: Status::Funded,
                };
                Step {
                    effects: vec![
                        Effect::Store(Entry::Escrow(id, escrow)),
                        Effect::Store(Entry::NextId(id + 1)),
                        Effect::Publish(Event::Deposited { sponsor, id, amount }),
                    ],
                    next: Await::Return(Value::Id(id)),
                }
            },
            OnNextId::Report => Step::give(Value::Id(id)),
        }
    }
}

/// A call that waits for a stored escrow.
pub enum OnEscrow {
    Pay { token: Address, student: Address, escrow_id: u64 },
    Refund { token: Address, sponsor: Address, escrow_id: u64 },
    Report,
}

impl View for OnEscrow {
    type V = spec_fn(Option<EscrowView>) -> Plan;

    open spec fn view(&self) -> spec_fn(Option<EscrowView>) -> Plan {
        match *self {
            OnEscrow::Pay { token, student, escrow_id } => plan::pay_given_escrow(
                token,
                student,
                escrow_id,
            ),
            OnEscrow::Refund { token, sponsor, escrow_id } => plan::refund_given_escrow(
                token,
                sponsor,
                escrow_id,
            ),
            OnEscrow::Report => plan::report_escrow(),
        }
    }
}

impl OnEscrow {
    pub fn resume(self, stored: Option<Escrow>) -> (step: Step)
        ensures
            step@ == (self@)(types::escrow_option_view(stored)),
    {
        let escrow = match AralPayContract::load_escrow(stored) {
            Ok(escrow) => escrow,
            Err(error) => return Step::abort(error),
        };
        match self {
            OnEscrow::Pay { token, student, escrow_id } => {
                // Only a still-funded escrow can be released.
                if escrow.status != Status::Funded {
                    return Step::abort(Error::EscrowNotFunded);
                }
                Step {
                    effects: vec![Effect::RequireAuth(student)],
                    // Only the named student may release the funds.
                    next: if !escrow.student.same_as(&student) {
                        Await::Abort(Error::NotStudent)
                    } else {
                        Await::LoadWallet(
                            copy_name(&escrow.university),
                            OnWallet::Pay { token, escrow_id, escrow },
                        )
                    },
                }
            },
            OnEscrow::Refund { token, sponsor, escrow_id } => {
                if escrow.status != Status::Funded {
                    return Step::abort(Error::EscrowNotFunded);
                }
                Step {
                    effects: vec![Effect::RequireAuth(sponsor)],
                    next: if !escrow.sponsor.same_as(&sponsor) {
                        Await::Abort(Error::NotSponsor)
                    } else {
                        Await::ReadClock(OnClock::Refund { token, escrow_id, escrow })
                    },
                }
            },
            OnEscrow::Report => Step::give(Value::Escrow(escrow)),
        }
    }
}

/// A call that waits for the wallet of a university.
pub enum OnWallet {
    Pay { token: Address, escrow_id: u64, escrow: Escrow },
    Report,
}

impl View for OnWallet {
    type V = spec_fn(Option<Address>) -> Plan;

    open spec fn view(&self) -> spec_fn(Option<Address>) -> Plan {
        match *self {
            OnWallet::Pay { token, escrow_id, escrow } => plan::pay_given_wallet(
                token,
                escrow_id,
                escrow@,
            ),
            OnWallet::Report => plan::report_wallet(),
        }
    }
}

impl OnWallet {
    pub fn resume(self, stored: Option<Address>) -> (step: Step)
        ensures
            step@ == (self@)(stored),
    {
        match self {
            OnWallet::Pay { token, escrow_id, escrow } => {
                let university = match stored {
                    Some(university) => university,
                    None => return Step::abort(Error::UniversityNoLongerRegistered),
                };
                let amount: i128 = escrow.amount;
                Step {
                    effects: vec![
                        Effect::Release { token, to: university, amount },
                        Effect::Store(
                            Entry::Escrow(escrow_id, Escrow { status: Status::Paid, ..escrow }),
                        ),
                        Effect::Publish(Event::Paid { university, id: escrow_id, amount }),
                    ],
                    next: Await::Return(Value::Unit),
                }
            },
            OnWallet::Report => Step::give(Value::Wallet(stored)),
        }
    }
}

} // verus!
