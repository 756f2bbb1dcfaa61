//! A model of the ledger: what it keeps for the contract, how it carries out a
//! [`Plan`], and what each operation comes to there.
use crate::plan;
use crate::plan::{DepositView, Plan, Then};
use crate::types::{
    Address, Config, DataKeyView, EffectView, EntryView, Error, EscrowView, EventView, Status,
    ValueView,
};
use vstd::prelude::*;

verus! {

/// A movement of tokens.
pub struct Transfer {
    pub token: Address,
    pub from: Address,
    pub to: Address,
    pub amount: i128,
}

/// What the ledger keeps for the contract, with every token movement that the
/// contract has brought about and every event that it has published.
#[verifier::ext_equal]
pub struct Ledger {
    pub initialized: bool,
    pub config: Option<Config>,
    pub next_id: Option<u64>,
    pub escrows: Map<u64, EscrowView>,
    pub registry: Map<Seq<u8>, Address>,
    pub transfers: Seq<Transfer>,
    pub events: Seq<EventView>,
}

/// What surrounds a call: the contract's own address, the time, who has authorized
/// the call, and which movements the token agrees to, given those made so far.
/// Nothing is taken for granted of the token.
pub struct Context {
    pub contract: Address,
    pub now: u64,
    pub signers: Set<Address>,
    pub accepts: spec_fn(Seq<Transfer>, Transfer) -> bool,
}

/// Why the ledger, and not the contract, ends a call.
pub enum Refusal {
    /// The party has not authorized the call.
    Unauthorized(Address),
    /// The token does not agree to the movement.
    TransferRejected(Transfer),
}

/// How a call ends.
pub enum Outcome {
    /// It succeeds, leaves this ledger behind and returns this value.
    Returned(Ledger, ValueView),
    /// The contract gives it up.
    Aborted(Error),
    /// The ledger ends it.
    Refused(Refusal),
}

impl Outcome {
    /// The ledger after a call that started on `before`: a call that fails leaves
    /// no trace.
    pub open spec fn ledger_after(self, before: Ledger) -> Ledger {
        match self {
            Outcome::Returned(after, _) => after,
            Outcome::Aborted(_) | Outcome::Refused(_) => before,
        }
    }
}

impl Ledger {
    /// The ledger before anything has happened.
    pub open spec fn fresh() -> Ledger {
        Ledger {
            initialized: false,
            config: None,
            next_id: None,
            escrows: Map::empty(),
            registry: Map::empty(),
            transfers: Seq::empty(),
            events: Seq::empty(),
        }
    }

    pub open spec fn escrow(self, id: u64) -> Option<EscrowView> {
        if self.escrows.contains_key(id) {
            Some(self.escrows[id])
        } else {
            None
        }
    }

    pub open spec fn wallet(self, name: Seq<u8>) -> Option<Address> {
        if self.registry.contains_key(name) {
            Some(self.registry[name])
        } else {
            None
        }
    }

    pub open spec fn store(self, entry: EntryView) -> Ledger {
        match entry {
            EntryView::Config(config) => Ledger { config: Some(config), ..self },
            EntryView::NextId(id) => Ledger { next_id: Some(id), ..self },
            EntryView::Escrow(id, escrow) => Ledger {
                escrows: self.escrows.insert(id, escrow),
                ..self
            },
            EntryView::University(name, wallet) => Ledger {
                registry: self.registry.insert(name, wallet),
                ..self
            },
        }
    }

    pub open spec fn remove(self, key: DataKeyView) -> Ledger {
        match key {
            DataKeyView::Config => Ledger { config: None, ..self },
            DataKeyView::NextId => Ledger { next_id: None, ..self },
            DataKeyView::Escrow(id) => Ledger { escrows: self.escrows.remove(id), ..self },
            DataKeyView::University(name) => Ledger {
                registry: self.registry.remove(name),
                ..self
            },
        }
    }

    pub open spec fn transfer(self, transfer: Transfer) -> Ledger {
        Ledger { transfers: self.transfers.push(transfer), ..self }
    }

    pub open spec fn publish(self, event: EventView) -> Ledger {
        Ledger { events: self.events.push(event), ..self }
    }
}

impl Context {
    /// A payment into the contract's custody.
    pub open spec fn collection(self, token: Address, from: Address, amount: i128) -> Transfer {
        Transfer { token, from, to: self.contract, amount }
    }

    /// A payment out of the contract's custody.
    pub open spec fn release(self, token: Address, to: Address, amount: i128) -> Transfer {
        Transfer { token, from: self.contract, to, amount }
    }

    pub open spec fn transfer(self, ledger: Ledger, transfer: Transfer) -> Result<Ledger, Refusal> {
        if (self.accepts)(ledger.transfers, transfer) {
            Ok(ledger.transfer(transfer))
        } else {
            Err(Refusal::TransferRejected(transfer))
        }
    }

    /// What one effect does to the ledger.
    pub open spec fn perform(self, ledger: Ledger, effect: EffectView) -> Result<Ledger, Refusal> {
        match effect {
            EffectView::RequireAuth(party) => if self.signers.contains(party) {
                Ok(ledger)
            } else {
                Err(Refusal::Unauthorized(party))
            },
            EffectView::MarkInitialized => Ok(Ledger { initialized: true, ..ledger }),
            EffectView::Store(entry) => Ok(ledger.store(entry)),
            EffectView::Remove(key) => Ok(ledger.remove(key)),
            EffectView::Collect { token, from, amount } => self.transfer(
                ledger,
                self.collection(token, from, amount),
            ),
            EffectView::Release { token, to, amount } => self.transfer(
                ledger,
                self.release(token, to, amount),
            ),
            EffectView::Publish(event) => Ok(ledger.publish(event)),
        }
    }

    /// What the effects from the `i`-th on do to the ledger, one after the other.
    pub open spec fn perform_from(
        self,
        ledger: Ledger,
        effects: Seq<EffectView>,
        i: nat,
    ) -> Result<Ledger, Refusal>
        decreases effects.len() - i,
    {
        if i >= effects.len() {
            Ok(ledger)
        } else {
            match self.perform(ledger, effects[i as int]) {
                Ok(next) => self.perform_from(next, effects, i + 1),
                Err(refusal) => Err(refusal),
            }
        }
    }

    /// How a call ends that starts on `ledger` with all of `plan` ahead of it: effects
    /// take place in order, and questions are answered from the ledger as it is then.
    pub open spec fn execute(self, ledger: Ledger, plan: Plan) -> Outcome
        decreases plan,
    {
        match self.perform_from(ledger, plan.effects, 0) {
            Err(refusal) => Outcome::Refused(refusal),
            Ok(l) => match plan.next {
                Then::IsInitialized(k) => self.execute(l, k(l.initialized)),
                Then::LoadConfig(k) => self.execute(l, k(l.config)),
                Then::LoadNextId(k) => self.execute(l, k(l.next_id)),
                Then::LoadEscrow(id, k) => self.execute(l, k(l.escrow(id))),
                Then::LoadWallet(name, k) => self.execute(l, k(l.wallet(name))),
                Then::IsRegistered(name, k) => self.execute(l, k(l.registry.contains_key(name))),
                Then::ReadClock(k) => self.execute(l, k(self.now)),
                Then::Return(value) => Outcome::Returned(l, value),
                Then::Abort(error) => Outcome::Aborted(error),
            },
        }
    }
}

/// Everything that can be asked of the contract.
pub enum Operation {
    Initialize { admin: Address, token: Address },
    RegisterUniversity { admin: Address, name: Seq<u8>, wallet: Address },
    RemoveUniversity { admin: Address, name: Seq<u8> },
    DepositTuition(DepositView),
    PayTuition { student: Address, escrow_id: u64 },
    Refund { sponsor: Address, escrow_id: u64 },
    GetEscrow { escrow_id: u64 },
    GetUniversity { name: Seq<u8> },
    IsRegistered { name: Seq<u8> },
    NextEscrowId,
    GetConfig,
}

impl Operation {
    /// The plan that the entry point of the operation starts with.
    pub open spec fn plan(self) -> Plan {
        match self {
            Operation::Initialize { admin, token } => plan::initialize_plan(admin, token),
            Operation::RegisterUniversity { admin, name, wallet } => plan::register_university_plan(
                admin,
                name,
                wallet,
            ),
            Operation::RemoveUniversity { admin, name } => plan::remove_university_plan(
                admin,
                name,
            ),
            Operation::DepositTuition(deposit) => plan::deposit_tuition_plan(deposit),
            Operation::PayTuition { student, escrow_id } => plan::pay_tuition_plan(
                student,
                escrow_id,
            ),
            Operation::Refund { sponsor, escrow_id } => plan::refund_plan(sponsor, escrow_id),
            Operation::GetEscrow { escrow_id } => plan::get_escrow_plan(escrow_id),
            Operation::GetUniversity { name } => plan::get_university_plan(name),
            Operation::IsRegistered { name } => plan::is_registered_plan(name),
            Operation::NextEscrowId => plan::next_escrow_id_plan(),
            Operation::GetConfig => plan::get_config_plan(),
        }
    }
}

/// How `initialize` ends.
pub open spec fn initialize_outcome(
    context: Context,
    ledger: Ledger,
    admin: Address,
    token: Address,
) -> Outcome {
    if ledger.initialized {
        Outcome::Aborted(Error::AlreadyInitialized)
    } else if !context.signers.contains(admin) {
        Outcome::Refused(Refusal::Unauthorized(admin))
    } else {
        Outcome::Returned(
            Ledger {
                initialized: true,
                config: Some(Config { admin, token }),
                next_id: Some(0),
                ..ledger
            },
            ValueView::Unit,
        )
    }
}

/// How `register_university` ends.
pub open spec fn register_university_outcome(
    context: Context,
    ledger: Ledger,
    admin: Address,
    name: Seq<u8>,
    wallet: Address,
) -> Outcome {
    if ledger.config is None {
        Outcome::Aborted(Error::NotInitialized)
    } else if ledger.config->0.admin != admin {
        Outcome::Aborted(Error::NotOperator)
    } else if !context.signers.contains(admin) {
        Outcome::Refused(Refusal::Unauthorized(admin))
    } else {
        Outcome::Returned(
            Ledger {
                registry: ledger.registry.insert(name, wallet),
                events: ledger.events.push(EventView::UniversityRegistered { wallet, name }),
                ..ledger
            },
            ValueView::Unit,
        )
    }
}

/// How `remove_university` ends.
pub open spec fn remove_university_outcome(
    context: Context,
    ledger: Ledger,
    admin: Address,
    name: Seq<u8>,
) -> Outcome {
    if ledger.config is None {
        Outcome::Aborted(Error::NotInitialized)
    } else if ledger.config->0.admin != admin {
        Outcome::Aborted(Error::NotOperator)
    } else if !context.signers.contains(admin) {
        Outcome::Refused(Refusal::Unauthorized(admin))
    } else {
        Outcome::Returned(
            Ledger { registry: ledger.registry.remove(name), ..ledger },
            ValueView::Unit,
        )
    }
}

/// How `deposit_tuition` ends.
pub open spec fn deposit_tuition_outcome(
    context: Context,
    ledger: Ledger,
    deposit: DepositView,
) -> Outcome {
    let id = plan::next_id(ledger.next_id);
    let payment = context.collection(ledger.config->0.token, deposit.sponsor, deposit.amount);
    if ledger.config is None {
        Outcome::Aborted(Error::NotInitialized)
    } else if !context.signers.contains(deposit.sponsor) {
        Outcome::Refused(Refusal::Unauthorized(deposit.sponsor))
    } else if deposit.amount <= 0 {
        Outcome::Aborted(Error::AmountNotPositive)
    } else if !ledger.registry.contains_key(deposit.university) {
        Outcome::Aborted(Error::UniversityNotRegistered)
    } else if deposit.deadline <= context.now {
        Outcome::Aborted(Error::DeadlineNotInFuture)
    } else if !(context.accepts)(ledger.transfers, payment) {
        Outcome::Refused(Refusal::TransferRejected(payment))
    } else if id == u64::MAX {
        Outcome::Aborted(Error::IdsExhausted)
    } else {
        Outcome::Returned(
            Ledger {
                next_id: Some((id + 1) as u64),
                escrows: ledger.escrows.insert(id, deposit.escrow(id)),
                transfers: ledger.transfers.push(payment),
                events: ledger.events.push(
                    EventView::Deposited { sponsor: deposit.sponsor, id, amount: deposit.amount },
                ),
                ..ledger
            },
            ValueView::Id(id),
        )
    }
}

/// How `pay_tuition` ends.
pub open spec fn pay_tuition_outcome(
    context: Context,
    ledger: Ledger,
    student: Address,
    escrow_id: u64,
) -> Outcome {
    let escrow = ledger.escrows[escrow_id];
    let university = ledger.registry[escrow.university];
    let payment = context.release(ledger.config->0.token, university, escrow.amount);
    if ledger.config is None {
        Outcome::Aborted(Error::NotInitialized)
    } else if !ledger.escrows.contains_key(escrow_id) {
        Outcome::Aborted(Error::EscrowNotFound)
    } else if escrow.status != Status::Funded {
        Outcome::Aborted(Error::EscrowNotFunded)
    } else if !context.signers.contains(student) {
        Outcome::Refused(Refusal::Unauthorized(student))
    } else if escrow.student != student {
        Outcome::Aborted(Error::NotStudent)
    } else if !ledger.registry.contains_key(escrow.university) {
        Outcome::Aborted(Error::UniversityNoLongerRegistered)
    } else if !(context.accepts)(ledger.transfers, payment) {
        Outcome::Refused(Refusal::TransferRejected(payment))
    } else {
        Outcome::Returned(
            Ledger {
                escrows: ledger.escrows.insert(escrow_id, escrow.with_status(Status::Paid)),
                transfers: ledger.transfers.push(payment),
                events: ledger.events.push(
                    EventView::Paid { university, id: escrow_id, amount: escrow.amount },
                ),
                ..ledger
            },
            ValueView::Unit,
        )
    }
}

/// How `refund` ends.
pub open spec fn refund_outcome(
    context: Context,
    ledger: Ledger,
    sponsor: Address,
    escrow_id: u64,
) -> Outcome {
    let escrow = ledger.escrows[escrow_id];
    let payment = context.release(ledger.config->0.token, sponsor, escrow.amount);
    if ledger.config is None {
        Outcome::Aborted(Error::NotInitialized)
    } else if !ledger.escrows.contains_key(escrow_id) {
        Outcome::Aborted(Error::EscrowNotFound)
    } else if escrow.status != Status::Funded {
        Outcome::Aborted(Error::EscrowNotFunded)
    } else if !context.signers.contains(sponsor) {
        Outcome::Refused(Refusal::Unauthorized(sponsor))
    } else if escrow.sponsor != sponsor {
        Outcome::Aborted(Error::NotSponsor)
    } else if context.now <= escrow.deadline {
        Outcome::Aborted(Error::DeadlineNotReached)
    } else if !(context.accepts)(ledger.transfers, payment) {
        Outcome::Refused(Refusal::TransferRejected(payment))
    } else {
        Outcome::Returned(
            Ledger {
                escrows: ledger.escrows.insert(escrow_id, escrow.with_status(Status::Refunded)),
                transfers: ledger.transfers.push(payment),
                events: ledger.events.push(
                    EventView::Refunded { sponsor, id: escrow_id, amount: escrow.amount },
                ),
                ..ledger
            },
            ValueView::Unit,
        )
    }
}

/// How any operation ends.
pub open spec fn outcome(context: Context, ledger: Ledger, operation: Operation) -> Outcome {
    match operation {
        Operation::Initialize { admin, token } => initialize_outcome(
            context,
            ledger,
            admin,
            token,
        ),
        Operation::RegisterUniversity { admin, name, wallet } => register_university_outcome(
            context,
            ledger,
            admin,
            name,
            wallet,
        ),
        Operation::RemoveUniversity { admin, name } => remove_university_outcome(
            context,
            ledger,
            admin,
            name,
        ),
        Operation::DepositTuition(deposit) => deposit_tuition_outcome(context, ledger, deposit),
        Operation::PayTuition { student, escrow_id } => pay_tuition_outcome(
            context,
            ledger,
            student,
            escrow_id,
        ),
        Operation::Refund { sponsor, escrow_id } => refund_outcome(
            context,
            ledger,
            sponsor,
            escrow_id,
        ),
        Operation::GetEscrow { escrow_id } => match ledger.escrow(escrow_id) {
            Some(escrow) => Outcome::Returned(ledger, ValueView::Escrow(escrow)),
            None => Outcome::Aborted(Error::EscrowNotFound),
        },
        Operation::GetUniversity { name } => Outcome::Returned(
            ledger,
            ValueView::Wallet(ledger.wallet(name)),
        ),
        Operation::IsRegistered { name } => Outcome::Returned(
            ledger,
            ValueView::Flag(ledger.registry.contains_key(name)),
        ),
        Operation::NextEscrowId => Outcome::Returned(
            ledger,
            ValueView::Id(plan::next_id(ledger.next_id)),
        ),
        Operation::GetConfig => match ledger.config {
            Some(config) => Outcome::Returned(ledger, ValueView::Config(config)),
            None => Outcome::Aborted(Error::NotInitialized),
        },
    }
}

proof fn lemma_initialize(context: Context, ledger: Ledger, admin: Address, token: Address)
    ensures
        context.execute(ledger, plan::initialize_plan(admin, token)) == initialize_outcome(
            context,
            ledger,
            admin,
            token,
        ),
{
    reveal_with_fuel(Context::execute, 2);
    reveal_with_fuel(Context::perform_from, 5);
}

proof fn lemma_register_university(
    context: Context,
    ledger: Ledger,
    admin: Address,
    name: Seq<u8>,
    wallet: Address,
)
    ensures
        context.execute(ledger, plan::register_university_plan(admin, name, wallet))
            == register_university_outcome(context, ledger, admin, name, wallet),
{
    reveal_with_fuel(Context::execute, 2);
    reveal_with_fuel(Context::perform_from, 4);
}

proof fn lemma_remove_university(
    context: Context,
    ledger: Ledger,
    admin: Address,
    name: Seq<u8>,
)
    ensures
        context.execute(ledger, plan::remove_university_plan(admin, name))
            == remove_university_outcome(context, ledger, admin, name),
{
    reveal_with_fuel(Context::execute, 2);
    reveal_with_fuel(Context::perform_from, 3);
}

proof fn lemma_deposit_tuition(context: Context, ledger: Ledger, deposit: DepositView)
    ensures
        context.execute(ledger, plan::deposit_tuition_plan(deposit)) == deposit_tuition_outcome(
            context,
            ledger,
            deposit,
        ),
{
    reveal_with_fuel(Context::execute, 5);
    reveal_with_fuel(Context::perform_from, 4);
}

proof fn lemma_pay_tuition(context: Context, ledger: Ledger, student: Address, escrow_id: u64)
    ensures
        context.execute(ledger, plan::pay_tuition_plan(student, escrow_id))
            == pay_tuition_outcome(context, ledger, student, escrow_id),
{
    reveal_with_fuel(Context::execute, 4);
    reveal_with_fuel(Context::perform_from, 4);
}

proof fn lemma_refund(context: Context, ledger: Ledger, sponsor: Address, escrow_id: u64)
    ensures
        context.execute(ledger, plan::refund_plan(sponsor, escrow_id)) == refund_outcome(
            context,
            ledger,
            sponsor,
            escrow_id,
        ),
{
    reveal_with_fuel(Context::execute, 4);
    reveal_with_fuel(Context::perform_from, 4);
}

/// Carrying out the plan of an operation step by step comes to the operation's outcome,
/// on every ledger and in every context.
pub proof fn operation_ends_in_its_outcome(context: Context, ledger: Ledger, operation: Operation)
    ensures
        context.execute(ledger, operation.plan()) == outcome(context, ledger, operation),
{
    match operation {
        Operation::Initialize { admin, token } => {
            lemma_initialize(context, ledger, admin, token);
        },
        Operation::RegisterUniversity { admin, name, wallet } => {
            lemma_register_university(context, ledger, admin, name, wallet);
        },
        Operation::RemoveUniversity { admin, name } => {
            lemma_remove_university(context, ledger, admin, name);
        },
        Operation::DepositTuition(deposit) => {
            lemma_deposit_tuition(context, ledger, deposit);
        },
        Operation::PayTuition { student, escrow_id } => {
            lemma_pay_tuition(context, ledger, student, escrow_id);
        },
        Operation::Refund { sponsor, escrow_id } => {
            lemma_refund(context, ledger, sponsor, escrow_id);
        },
        _ => {
            reveal_with_fuel(Context::execute, 2);
        },
    }
}

/// A plan that, wherever it is carried out, comes to the outcome of an operation.
pub open spec fn carries_out(plan: Plan, operation: Operation) -> bool {
    forall|context: Context, ledger: Ledger| #[trigger]
        context.execute(ledger, plan) == outcome(context, ledger, operation)
}

/// The plan of an operation carries it out.
pub proof fn plan_carries_out_its_operation(operation: Operation)
    ensures
        carries_out(operation.plan(), operation),
{
    assert forall|context: Context, ledger: Ledger| #[trigger]
        context.execute(ledger, operation.plan()) == outcome(context, ledger, operation) by {
        operation_ends_in_its_outcome(context, ledger, operation);
    }
}

} // verus!
