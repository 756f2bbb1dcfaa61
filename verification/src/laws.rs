//! What holds of the contract as a whole, whatever is asked of it and by whom.
use crate::ledger;
use crate::ledger::{Context, Ledger, Operation, Outcome, Transfer};
use crate::plan;
use crate::plan::{DepositView, Plan, Then};
use crate::types::{Address, Config, EffectView, Error, EscrowView, Status, ValueView};
use vstd::prelude::*;

verus! {

// --------------------------------------------------------------------- histories

/// One call: what is asked, and under which circumstances.
pub struct Call {
    pub context: Context,
    pub operation: Operation,
}

impl Call {
    /// How the call ends if it is made on `ledger`.
    pub open spec fn run(self, ledger: Ledger) -> Outcome {
        self.context.execute(ledger, self.operation.plan())
    }

    /// The ledger that the call leaves behind.
    pub open spec fn after(self, ledger: Ledger) -> Ledger {
        self.run(ledger).ledger_after(ledger)
    }
}

/// The ledger that a series of calls leaves behind.
pub open spec fn history(ledger: Ledger, calls: Seq<Call>) -> Ledger
    decreases calls.len(),
{
    if calls.len() == 0 {
        ledger
    } else {
        calls.last().after(history(ledger, calls.drop_last()))
    }
}

// ---------------------------------------------------------------- well-formedness

/// The state that the contract keeps its ledger in: configuration and counter appear
/// together, and before them no money moves; escrows carry exactly the ids below the
/// counter, each its own, and hold a positive amount.
pub open spec fn well_formed(ledger: Ledger) -> bool {
    &&& ledger.initialized == ledger.config is Some
    &&& ledger.initialized == ledger.next_id is Some
    &&& !ledger.initialized ==> ledger.transfers.len() == 0
    &&& forall|id: u64| #[trigger]
        ledger.escrows.contains_key(id) <==> id < plan::next_id(ledger.next_id)
    &&& forall|id: u64| #[trigger]
        ledger.escrows.contains_key(id) ==> {
            &&& ledger.escrows[id].id == id
            &&& ledger.escrows[id].amount > 0
        }
}

/// A fresh ledger is well formed.
pub proof fn fresh_ledger_is_well_formed()
    ensures
        well_formed(Ledger::fresh()),
{
}

/// Every call keeps the ledger well formed.
pub proof fn calls_keep_the_ledger_well_formed(ledger: Ledger, call: Call)
    requires
        well_formed(ledger),
    ensures
        well_formed(call.after(ledger)),
{
    ledger::operation_ends_in_its_outcome(call.context, ledger, call.operation);
}

/// So does every series of calls.
pub proof fn histories_keep_the_ledger_well_formed(ledger: Ledger, calls: Seq<Call>)
    requires
        well_formed(ledger),
    ensures
        well_formed(history(ledger, calls)),
    decreases calls.len(),
{
    if calls.len() > 0 {
        histories_keep_the_ledger_well_formed(ledger, calls.drop_last());
        calls_keep_the_ledger_well_formed(history(ledger, calls.drop_last()), calls.last());
    }
}

// ---------------------------------------------------------------- initialization

/// A contract is initialized at most once, and its configuration is final: whatever
/// happens to an initialized contract, it keeps its configuration, and a further
/// `initialize` is turned down.
pub proof fn configuration_is_final(
    ledger: Ledger,
    calls: Seq<Call>,
    context: Context,
    admin: Address,
    token: Address,
)
    requires
        ledger.initialized,
    ensures
        history(ledger, calls).initialized,
        history(ledger, calls).config == ledger.config,
        (Call { context, operation: Operation::Initialize { admin, token } }).run(
            history(ledger, calls),
        ) == Outcome::Aborted(Error::AlreadyInitialized),
    decreases calls.len(),
{
    if calls.len() > 0 {
        let before = history(ledger, calls.drop_last());
        configuration_is_final(ledger, calls.drop_last(), context, admin, token);
        ledger::operation_ends_in_its_outcome(
            calls.last().context,
            before,
            calls.last().operation,
        );
    }
    ledger::operation_ends_in_its_outcome(
        context,
        history(ledger, calls),
        Operation::Initialize { admin, token },
    );
}

/// A contract that has not been initialized can be, by an operator who agrees, and its
/// configuration reads back as it was given.
pub proof fn initialization_sets_the_configuration(
    context: Context,
    ledger: Ledger,
    admin: Address,
    token: Address,
    later: Context,
)
    requires
        !ledger.initialized,
        context.signers.contains(admin),
    ensures
        ({
            let setup = Call { context, operation: Operation::Initialize { admin, token } };
            let after = setup.after(ledger);
            &&& setup.run(ledger) == Outcome::Returned(after, ValueView::Unit)
            &&& (Call { context: later, operation: Operation::GetConfig }).run(after)
                == Outcome::Returned(after, ValueView::Config(Config { admin, token }))
            &&& (Call { context: later, operation: Operation::NextEscrowId }).run(after)
                == Outcome::Returned(after, ValueView::Id(0))
        }),
{
    let setup = Call { context, operation: Operation::Initialize { admin, token } };
    ledger::operation_ends_in_its_outcome(context, ledger, setup.operation);
    ledger::operation_ends_in_its_outcome(later, setup.after(ledger), Operation::GetConfig);
    ledger::operation_ends_in_its_outcome(later, setup.after(ledger), Operation::NextEscrowId);
}

/// Before it is initialized, a contract does nothing for anybody: it can only be
/// initialized or looked at.
pub proof fn uninitialized_contract_does_nothing(ledger: Ledger, call: Call)
    requires
        well_formed(ledger),
        !ledger.initialized,
        !(call.operation is Initialize),
    ensures
        call.after(ledger) == ledger,
        call.operation is RegisterUniversity || call.operation is RemoveUniversity
            || call.operation is DepositTuition || call.operation is PayTuition
            || call.operation is Refund || call.operation is GetConfig ==> call.run(ledger)
            == Outcome::Aborted(Error::NotInitialized),
{
    ledger::operation_ends_in_its_outcome(call.context, ledger, call.operation);
}

// ---------------------------------------------------------------------- registry

/// A registered name resolves to the wallet it was registered with, and no other name
/// is affected.
pub proof fn registration_resolves(
    context: Context,
    ledger: Ledger,
    admin: Address,
    name: Seq<u8>,
    wallet: Address,
    later: Context,
    other: Seq<u8>,
)
    requires
        ledger.config is Some,
        ledger.config->0.admin == admin,
        context.signers.contains(admin),
    ensures
        ({
            let register = Call {
                context,
                operation: Operation::RegisterUniversity { admin, name, wallet },
            };
            let after = register.after(ledger);
            &&& register.run(ledger) == Outcome::Returned(after, ValueView::Unit)
            &&& (Call { context: later, operation: Operation::GetUniversity { name } }).run(after)
                == Outcome::Returned(after, ValueView::Wallet(Some(wallet)))
            &&& (Call { context: later, operation: Operation::IsRegistered { name } }).run(after)
                == Outcome::Returned(after, ValueView::Flag(true))
            &&& other != name ==> after.wallet(other) == ledger.wallet(other)
        }),
{
    let register = Call {
        context,
        operation: Operation::RegisterUniversity { admin, name, wallet },
    };
    let after = register.after(ledger);
    ledger::operation_ends_in_its_outcome(context, ledger, register.operation);
    ledger::operation_ends_in_its_outcome(later, after, Operation::GetUniversity { name });
    ledger::operation_ends_in_its_outcome(later, after, Operation::IsRegistered { name });
}

/// A removed name resolves to nothing, and no other name is affected.
pub proof fn removal_unregisters(
    context: Context,
    ledger: Ledger,
    admin: Address,
    name: Seq<u8>,
    later: Context,
    other: Seq<u8>,
)
    requires
        ledger.config is Some,
        ledger.config->0.admin == admin,
        context.signers.contains(admin),
    ensures
        ({
            let remove = Call { context, operation: Operation::RemoveUniversity { admin, name } };
            let after = remove.after(ledger);
            &&& remove.run(ledger) == Outcome::Returned(after, ValueView::Unit)
            &&& (Call { context: later, operation: Operation::GetUniversity { name } }).run(after)
                == Outcome::Returned(after, ValueView::Wallet(None))
            &&& (Call { context: later, operation: Operation::IsRegistered { name } }).run(after)
                == Outcome::Returned(after, ValueView::Flag(false))
            &&& other != name ==> after.wallet(other) == ledger.wallet(other)
        }),
{
    let remove = Call { context, operation: Operation::RemoveUniversity { admin, name } };
    let after = remove.after(ledger);
    ledger::operation_ends_in_its_outcome(context, ledger, remove.operation);
    ledger::operation_ends_in_its_outcome(later, after, Operation::GetUniversity { name });
    ledger::operation_ends_in_its_outcome(later, after, Operation::IsRegistered { name });
}

/// The operator curates the registry, and nothing else: the registry changes only in a
/// call of the operator that they have authorized, and such a call changes nothing
/// but the registry (and what has been announced of it).
pub proof fn registry_is_the_operators(ledger: Ledger, call: Call)
    ensures
        call.after(ledger).registry != ledger.registry ==> {
            &&& ledger.config is Some
            &&& call.context.signers.contains(ledger.config->0.admin)
            &&& match call.operation {
                Operation::RegisterUniversity { admin, .. } => admin == ledger.config->0.admin,
                Operation::RemoveUniversity { admin, .. } => admin == ledger.config->0.admin,
                _ => false,
            }
        },
        call.operation is RegisterUniversity || call.operation is RemoveUniversity ==> {
            let after = call.after(ledger);
            after == Ledger { registry: after.registry, events: after.events, ..ledger }
        },
{
    ledger::operation_ends_in_its_outcome(call.context, ledger, call.operation);
}

// ------------------------------------------------------------------ escrow records

/// A deposit that succeeds opens exactly one escrow, under an id that was free; the
/// escrow reads back as it was asked for, funded, and the counter moves on by one.
pub proof fn deposit_opens_a_new_escrow(
    context: Context,
    ledger: Ledger,
    deposit: DepositView,
    later: Context,
    other: u64,
)
    requires
        well_formed(ledger),
        (Call { context, operation: Operation::DepositTuition(deposit) }).run(
            ledger,
        ) is Returned,
    ensures
        ({
            let open = Call { context, operation: Operation::DepositTuition(deposit) };
            let after = open.after(ledger);
            let id = plan::next_id(ledger.next_id);
            &&& open.run(ledger) == Outcome::Returned(after, ValueView::Id(id))
            &&& ledger.escrow(id) is None
            &&& (Call { context: later, operation: Operation::GetEscrow { escrow_id: id } }).run(
                after,
            ) == Outcome::Returned(after, ValueView::Escrow(deposit.escrow(id)))
            &&& (Call { context: later, operation: Operation::NextEscrowId }).run(after)
                == Outcome::Returned(after, ValueView::Id((id + 1) as u64))
            &&& other != id ==> after.escrow(other) == ledger.escrow(other)
        }),
{
    let open = Call { context, operation: Operation::DepositTuition(deposit) };
    let after = open.after(ledger);
    let id = plan::next_id(ledger.next_id);
    ledger::operation_ends_in_its_outcome(context, ledger, open.operation);
    ledger::operation_ends_in_its_outcome(later, after, Operation::GetEscrow { escrow_id: id });
    ledger::operation_ends_in_its_outcome(later, after, Operation::NextEscrowId);
}

proof fn lemma_ids_below(n: u64)
    ensures
        Set::new(|id: u64| id < n).finite(),
        Set::new(|id: u64| id < n).len() == n,
    decreases n,
{
    let ids = Set::new(|id: u64| id < n);
    if n == 0 {
        assert(ids =~= Set::empty());
    } else {
        let m = (n - 1) as u64;
        lemma_ids_below(m);
        assert(ids =~= Set::new(|id: u64| id < m).insert(m));
    }
}

/// The next escrow's id is the number of escrows created so far.
pub proof fn next_id_counts_the_escrows(context: Context, ledger: Ledger)
    requires
        well_formed(ledger),
    ensures
        ledger.escrows.dom().finite(),
        (Call { context, operation: Operation::NextEscrowId }).run(ledger) == Outcome::Returned(
            ledger,
            ValueView::Id(ledger.escrows.dom().len() as u64),
        ),
        ledger.escrows.dom().len() <= u64::MAX,
{
    let n = plan::next_id(ledger.next_id);
    lemma_ids_below(n);
    assert(ledger.escrows.dom() =~= Set::new(|id: u64| id < n));
    ledger::operation_ends_in_its_outcome(context, ledger, Operation::NextEscrowId);
}

/// The terms of an escrow are fixed when it is opened, it never disappears, and its
/// status moves at most once, from funded to paid or refunded.
pub proof fn escrow_terms_are_fixed(ledger: Ledger, calls: Seq<Call>, id: u64)
    requires
        well_formed(ledger),
        ledger.escrows.contains_key(id),
    ensures
        history(ledger, calls).escrows.contains_key(id),
        history(ledger, calls).escrows[id].id == ledger.escrows[id].id,
        history(ledger, calls).escrows[id].sponsor == ledger.escrows[id].sponsor,
        history(ledger, calls).escrows[id].student == ledger.escrows[id].student,
        history(ledger, calls).escrows[id].university == ledger.escrows[id].university,
        history(ledger, calls).escrows[id].amount == ledger.escrows[id].amount,
        history(ledger, calls).escrows[id].deadline == ledger.escrows[id].deadline,
        ledger.escrows[id].status != Status::Funded ==> history(ledger, calls).escrows[id]
            == ledger.escrows[id],
    decreases calls.len(),
{
    if calls.len() > 0 {
        let before = history(ledger, calls.drop_last());
        escrow_terms_are_fixed(ledger, calls.drop_last(), id);
        histories_keep_the_ledger_well_formed(ledger, calls.drop_last());
        ledger::operation_ends_in_its_outcome(
            calls.last().context,
            before,
            calls.last().operation,
        );
    }
}

/// An escrow is settled once: when it has been paid or refunded, nobody can release or
/// refund it ever again.
pub proof fn settled_escrow_stays_settled(
    ledger: Ledger,
    calls: Seq<Call>,
    id: u64,
    context: Context,
    caller: Address,
)
    requires
        well_formed(ledger),
        ledger.escrows.contains_key(id),
        ledger.escrows[id].status != Status::Funded,
    ensures
        ({
            let then_on = history(ledger, calls);
            let pay = Operation::PayTuition { student: caller, escrow_id: id };
            let refund = Operation::Refund { sponsor: caller, escrow_id: id };
            &&& (Call { context, operation: pay }).run(then_on) == Outcome::Aborted(
                Error::EscrowNotFunded,
            )
            &&& (Call { context, operation: refund }).run(then_on) == Outcome::Aborted(
                Error::EscrowNotFunded,
            )
        }),
{
    let then_on = history(ledger, calls);
    escrow_terms_are_fixed(ledger, calls, id);
    histories_keep_the_ledger_well_formed(ledger, calls);
    ledger::operation_ends_in_its_outcome(
        context,
        then_on,
        Operation::PayTuition { student: caller, escrow_id: id },
    );
    ledger::operation_ends_in_its_outcome(
        context,
        then_on,
        Operation::Refund { sponsor: caller, escrow_id: id },
    );
}

/// Looking changes nothing.
pub proof fn views_change_nothing(ledger: Ledger, call: Call)
    requires
        call.operation is GetEscrow || call.operation is GetUniversity
            || call.operation is IsRegistered || call.operation is NextEscrowId
            || call.operation is GetConfig,
    ensures
        call.after(ledger) == ledger,
        !(call.run(ledger) is Refused),
{
    ledger::operation_ends_in_its_outcome(call.context, ledger, call.operation);
}

// ------------------------------------------------------------------------- money

/// The only ways in which a call may move tokens.
pub open spec fn is_lawful(ledger: Ledger, call: Call, transfer: Transfer) -> bool {
    &&& ledger.config is Some
    &&& transfer.token == ledger.config->0.token
    &&& match call.operation {
        // A sponsor who agrees pays in, for a registered university.
        Operation::DepositTuition(deposit) => {
            &&& call.context.signers.contains(deposit.sponsor)
            &&& ledger.registry.contains_key(deposit.university)
            &&& deposit.amount > 0
            &&& deposit.deadline > call.context.now
            &&& transfer == call.context.collection(
                transfer.token,
                deposit.sponsor,
                deposit.amount,
            )
        },
        // The student of a funded escrow, who agrees, has the full amount go to the wallet
        // that its university is registered with at this moment.
        Operation::PayTuition { student, escrow_id } => {
            let escrow = ledger.escrows[escrow_id];
            &&& call.context.signers.contains(student)
            &&& ledger.escrows.contains_key(escrow_id)
            &&& escrow.status == Status::Funded
            &&& escrow.student == student
            &&& ledger.registry.contains_key(escrow.university)
            &&& transfer == call.context.release(
                transfer.token,
                ledger.registry[escrow.university],
                escrow.amount,
            )
        },
        // The sponsor of a funded escrow, who agrees, takes the full amount back after
        // the deadline.
        Operation::Refund { sponsor, escrow_id } => {
            let escrow = ledger.escrows[escrow_id];
            &&& call.context.signers.contains(sponsor)
            &&& ledger.escrows.contains_key(escrow_id)
            &&& escrow.status == Status::Funded
            &&& escrow.sponsor == sponsor
            &&& call.context.now > escrow.deadline
            &&& transfer == call.context.release(transfer.token, escrow.sponsor, escrow.amount)
        },
        _ => false,
    }
}

/// Money moves only by the rules: a call moves tokens at most once, only if it succeeds,
/// and only in one of the lawful ways. In particular nothing leaves the contract's
/// custody but to a registered university, at the student's word, or back to the
/// sponsor after the deadline.
pub proof fn money_moves_only_by_the_rules(ledger: Ledger, call: Call)
    ensures
        ({
            let after = call.after(ledger);
            ||| after.transfers == ledger.transfers
            ||| {
                &&& after.transfers.len() == ledger.transfers.len() + 1
                &&& after.transfers == ledger.transfers.push(after.transfers.last())
                &&& is_lawful(ledger, call, after.transfers.last())
            }
        }),
{
    ledger::operation_ends_in_its_outcome(call.context, ledger, call.operation);
}

/// The student can release: as long as an escrow is funded and its university is
/// registered, the student's word is enough (and that the token agrees). The escrow is
/// then paid, and the school has the full amount.
pub proof fn student_can_release(context: Context, ledger: Ledger, id: u64)
    requires
        ledger.config is Some,
        ledger.escrows.contains_key(id),
        ledger.escrows[id].status == Status::Funded,
        ledger.registry.contains_key(ledger.escrows[id].university),
        context.signers.contains(ledger.escrows[id].student),
        (context.accepts)(
            ledger.transfers,
            context.release(
                ledger.config->0.token,
                ledger.registry[ledger.escrows[id].university],
                ledger.escrows[id].amount,
            ),
        ),
    ensures
        ({
            let escrow = ledger.escrows[id];
            let pay = Operation::PayTuition { student: escrow.student, escrow_id: id };
            let call = Call { context, operation: pay };
            let after = call.after(ledger);
            &&& call.run(ledger) == Outcome::Returned(after, ValueView::Unit)
            &&& after.escrow(id) == Some(escrow.with_status(Status::Paid))
            &&& after.transfers == ledger.transfers.push(
                context.release(
                    ledger.config->0.token,
                    ledger.registry[escrow.university],
                    escrow.amount,
                ),
            )
        }),
{
    let escrow = ledger.escrows[id];
    ledger::operation_ends_in_its_outcome(
        context,
        ledger,
        Operation::PayTuition { student: escrow.student, escrow_id: id },
    );
}

/// Funds are never stuck: after the deadline, as long as an escrow is funded, the
/// sponsor's word is enough to have the full amount back (and that the token agrees),
/// whether or not the university is still registered.
pub proof fn sponsor_can_reclaim(context: Context, ledger: Ledger, id: u64)
    requires
        ledger.config is Some,
        ledger.escrows.contains_key(id),
        ledger.escrows[id].status == Status::Funded,
        context.now > ledger.escrows[id].deadline,
        context.signers.contains(ledger.escrows[id].sponsor),
        (context.accepts)(
            ledger.transfers,
            context.release(
                ledger.config->0.token,
                ledger.escrows[id].sponsor,
                ledger.escrows[id].amount,
            ),
        ),
    ensures
        ({
            let escrow = ledger.escrows[id];
            let refund = Operation::Refund { sponsor: escrow.sponsor, escrow_id: id };
            let call = Call { context, operation: refund };
            let after = call.after(ledger);
            &&& call.run(ledger) == Outcome::Returned(after, ValueView::Unit)
            &&& after.escrow(id) == Some(escrow.with_status(Status::Refunded))
            &&& after.transfers == ledger.transfers.push(
                context.release(ledger.config->0.token, escrow.sponsor, escrow.amount),
            )
        }),
{
    let escrow = ledger.escrows[id];
    ledger::operation_ends_in_its_outcome(
        context,
        ledger,
        Operation::Refund { sponsor: escrow.sponsor, escrow_id: id },
    );
}

/// What was deposited can be had back: whatever has happened since, the escrow is either
/// settled or, after its deadline, the sponsor's word is enough to have exactly the
/// deposited amount come back to them (and that the token agrees).
pub proof fn deposited_money_comes_back(
    context: Context,
    ledger: Ledger,
    deposit: DepositView,
    calls: Seq<Call>,
    later: Context,
)
    requires
        well_formed(ledger),
        (Call { context, operation: Operation::DepositTuition(deposit) }).run(
            ledger,
        ) is Returned,
        later.now > deposit.deadline,
        later.signers.contains(deposit.sponsor),
    ensures
        ({
            let opened = (Call { context, operation: Operation::DepositTuition(deposit) }).after(
                ledger,
            );
            let id = plan::next_id(ledger.next_id);
            let now = history(opened, calls);
            let refund = Operation::Refund { sponsor: deposit.sponsor, escrow_id: id };
            let call = Call { context: later, operation: refund };
            let payment = later.release(
                ledger.config->0.token,
                deposit.sponsor,
                deposit.amount,
            );
            &&& now.escrow(id) is Some
            &&& now.escrow(id)->0.status == Status::Funded && (later.accepts)(
                now.transfers,
                payment,
            ) ==> {
                &&& call.run(now) == Outcome::Returned(call.after(now), ValueView::Unit)
                &&& call.after(now).transfers == now.transfers.push(payment)
            }
        }),
{
    let open = Call { context, operation: Operation::DepositTuition(deposit) };
    let opened = open.after(ledger);
    let id = plan::next_id(ledger.next_id);
    let now = history(opened, calls);
    deposit_opens_a_new_escrow(context, ledger, deposit, context, id);
    ledger::operation_ends_in_its_outcome(context, ledger, open.operation);
    calls_keep_the_ledger_well_formed(ledger, open);
    escrow_terms_are_fixed(opened, calls, id);
    configuration_is_final(opened, calls, later, deposit.sponsor, deposit.sponsor);
    if now.escrows[id].status == Status::Funded && (later.accepts)(
        now.transfers,
        later.release(ledger.config->0.token, deposit.sponsor, deposit.amount),
    ) {
        sponsor_can_reclaim(later, now, id);
    }
}

/// What a series of movements leaves a holder with, over what they had before.
pub open spec fn net_received(transfers: Seq<Transfer>, token: Address, holder: Address) -> int
    decreases transfers.len(),
{
    if transfers.len() == 0 {
        0
    } else {
        let last = transfers.last();
        let gain: int = if last.token == token && last.to == holder {
            last.amount as int
        } else {
            0
        };
        let loss: int = if last.token == token && last.from == holder {
            last.amount as int
        } else {
            0
        };
        net_received(transfers.drop_last(), token, holder) + gain - loss
    }
}

/// What one escrow binds.
pub open spec fn bound(escrow: EscrowView) -> int {
    if escrow.status == Status::Funded {
        escrow.amount as int
    } else {
        0
    }
}

/// What the escrows with ids below `n` bind together.
pub open spec fn total_bound(escrows: Map<u64, EscrowView>, n: nat) -> int
    decreases n,
{
    if n == 0 {
        0
    } else {
        total_bound(escrows, (n - 1) as nat) + bound(escrows[(n - 1) as u64])
    }
}

/// What the contract has in its custody, by its own doing.
pub open spec fn custody(ledger: Ledger, contract: Address) -> int {
    net_received(ledger.transfers, ledger.config->0.token, contract)
}

/// What the contract owes: the sum of all escrows that are still funded.
pub open spec fn owed(ledger: Ledger) -> int {
    total_bound(ledger.escrows, plan::next_id(ledger.next_id) as nat)
}

proof fn lemma_total_bound_update(
    escrows: Map<u64, EscrowView>,
    n: nat,
    id: u64,
    escrow: EscrowView,
)
    requires
        n <= u64::MAX,
    ensures
        total_bound(escrows.insert(id, escrow), n) == total_bound(escrows, n) + if id < n {
            bound(escrow) - bound(escrows[id])
        } else {
            0
        },
    decreases n,
{
    if n > 0 {
        lemma_total_bound_update(escrows, (n - 1) as nat, id, escrow);
    }
}

proof fn lemma_net_received_push(
    transfers: Seq<Transfer>,
    transfer: Transfer,
    token: Address,
    holder: Address,
)
    ensures
        net_received(transfers.push(transfer), token, holder) == net_received(
            transfers,
            token,
            holder,
        ) + (if transfer.token == token && transfer.to == holder {
            transfer.amount as int
        } else {
            0
        }) - (if transfer.token == token && transfer.from == holder {
            transfer.amount as int
        } else {
            0
        }),
{
    assert(transfers.push(transfer).drop_last() =~= transfers);
}

/// How one call changes what the contract has and what it owes, on any well-formed ledger:
/// a deposit adds its amount to both, a release and a refund take the escrow's amount from
/// both, and nothing else changes either. A movement from the contract to itself leaves
/// the custody as it was.
pub proof fn call_changes_custody_and_debt(ledger: Ledger, call: Call, contract: Address)
    requires
        well_formed(ledger),
        call.context.contract == contract,
    ensures
        ({
            let after = call.after(ledger);
            match call.operation {
                Operation::DepositTuition(deposit) if call.run(ledger) is Returned => {
                    &&& owed(after) == owed(ledger) + deposit.amount
                    &&& custody(after, contract) == custody(ledger, contract) + (
                    if deposit.sponsor == contract {
                        0
                    } else {
                        deposit.amount as int
                    })
                },
                Operation::PayTuition { escrow_id, .. } if call.run(ledger) is Returned => {
                    let escrow = ledger.escrows[escrow_id];
                    &&& owed(after) == owed(ledger) - escrow.amount
                    &&& custody(after, contract) == custody(ledger, contract) - (
                    if ledger.registry[escrow.university] == contract {
                        0
                    } else {
                        escrow.amount as int
                    })
                },
                Operation::Refund { escrow_id, .. } if call.run(ledger) is Returned => {
                    let escrow = ledger.escrows[escrow_id];
                    &&& owed(after) == owed(ledger) - escrow.amount
                    &&& custody(after, contract) == custody(ledger, contract) - (
                    if escrow.sponsor == contract {
                        0
                    } else {
                        escrow.amount as int
                    })
                },
                _ => {
                    &&& owed(after) == owed(ledger)
                    &&& ledger.config is Some ==> custody(after, contract) == custody(
                        ledger,
                        contract,
                    )
                },
            }
        }),
{
    let after = call.after(ledger);
    let n = plan::next_id(ledger.next_id);
    ledger::operation_ends_in_its_outcome(call.context, ledger, call.operation);
    if call.run(ledger) is Returned {
        match call.operation {
            Operation::DepositTuition(deposit) => {
                lemma_total_bound_update(ledger.escrows, n as nat, n, deposit.escrow(n));
                lemma_net_received_push(
                    ledger.transfers,
                    after.transfers.last(),
                    ledger.config->0.token,
                    contract,
                );
            },
            Operation::PayTuition { student, escrow_id } => {
                let escrow = ledger.escrows[escrow_id];
                lemma_total_bound_update(
                    ledger.escrows,
                    n as nat,
                    escrow_id,
                    escrow.with_status(Status::Paid),
                );
                lemma_net_received_push(
                    ledger.transfers,
                    after.transfers.last(),
                    ledger.config->0.token,
                    contract,
                );
            },
            Operation::Refund { sponsor, escrow_id } => {
                let escrow = ledger.escrows[escrow_id];
                lemma_total_bound_update(
                    ledger.escrows,
                    n as nat,
                    escrow_id,
                    escrow.with_status(Status::Refunded),
                );
                lemma_net_received_push(
                    ledger.transfers,
                    after.transfers.last(),
                    ledger.config->0.token,
                    contract,
                );
            },
            _ => {},
        }
    }
}

/// Whether a call, made on `ledger`, has the contract pay a deposit to itself.
pub open spec fn deposits_for_itself(ledger: Ledger, call: Call) -> bool {
    match call.operation {
        Operation::DepositTuition(deposit) => {
            &&& deposit.sponsor == call.context.contract
            &&& call.run(ledger) is Returned
        },
        _ => false,
    }
}

/// Whether a call, made on `ledger`, has the contract release an escrow to itself.
pub open spec fn releases_to_itself(ledger: Ledger, call: Call) -> bool {
    match call.operation {
        Operation::PayTuition { escrow_id, .. } => {
            &&& ledger.registry[ledger.escrows[escrow_id].university] == call.context.contract
            &&& call.run(ledger) is Returned
        },
        _ => false,
    }
}

/// A series of calls to the contract at one address, in which it never deposits for itself.
pub open spec fn sponsored_by_others(ledger: Ledger, calls: Seq<Call>, contract: Address) -> bool
    decreases calls.len(),
{
    calls.len() > 0 ==> {
        &&& sponsored_by_others(ledger, calls.drop_last(), contract)
        &&& calls.last().context.contract == contract
        &&& !deposits_for_itself(history(ledger, calls.drop_last()), calls.last())
    }
}

/// The contract can always pay what it owes: in every state that it can reach, its custody
/// covers all escrows that are still funded.
pub proof fn custody_covers_what_is_owed(calls: Seq<Call>, contract: Address)
    requires
        sponsored_by_others(Ledger::fresh(), calls, contract),
    ensures
        history(Ledger::fresh(), calls).initialized ==> custody(
            history(Ledger::fresh(), calls),
            contract,
        ) >= owed(history(Ledger::fresh(), calls)),
    decreases calls.len(),
{
    if calls.len() > 0 {
        let before = history(Ledger::fresh(), calls.drop_last());
        custody_covers_what_is_owed(calls.drop_last(), contract);
        histories_keep_the_ledger_well_formed(Ledger::fresh(), calls.drop_last());
        call_changes_custody_and_debt(before, calls.last(), contract);
        ledger::operation_ends_in_its_outcome(
            calls.last().context,
            before,
            calls.last().operation,
        );
    }
}

/// A series of calls to the contract at one address, in which it neither deposits for
/// itself nor is the university that an escrow is released to.
pub open spec fn at_arms_length(ledger: Ledger, calls: Seq<Call>, contract: Address) -> bool
    decreases calls.len(),
{
    calls.len() > 0 ==> {
        &&& at_arms_length(ledger, calls.drop_last(), contract)
        &&& calls.last().context.contract == contract
        &&& !deposits_for_itself(history(ledger, calls.drop_last()), calls.last())
        &&& !releases_to_itself(history(ledger, calls.drop_last()), calls.last())
    }
}

/// The contract keeps nothing for itself: what it has in its custody is exactly what it
/// owes, so that it is empty once every escrow is settled. And it sponsors no escrow.
pub proof fn custody_is_exactly_what_is_owed(calls: Seq<Call>, contract: Address)
    requires
        at_arms_length(Ledger::fresh(), calls, contract),
    ensures
        history(Ledger::fresh(), calls).initialized ==> custody(
            history(Ledger::fresh(), calls),
            contract,
        ) == owed(history(Ledger::fresh(), calls)),
        forall|id: u64| #[trigger]
            history(Ledger::fresh(), calls).escrows.contains_key(id) ==> history(
                Ledger::fresh(),
                calls,
            ).escrows[id].sponsor != contract,
    decreases calls.len(),
{
    if calls.len() > 0 {
        let before = history(Ledger::fresh(), calls.drop_last());
        custody_is_exactly_what_is_owed(calls.drop_last(), contract);
        histories_keep_the_ledger_well_formed(Ledger::fresh(), calls.drop_last());
        call_changes_custody_and_debt(before, calls.last(), contract);
        ledger::operation_ends_in_its_outcome(
            calls.last().context,
            before,
            calls.last().operation,
        );
    }
}

// ------------------------------------------------------------------ failing calls

/// The ledger after the effects from the `i`-th on, up to the first that is refused.
pub open spec fn progress_from(
    context: Context,
    ledger: Ledger,
    effects: Seq<EffectView>,
    i: nat,
) -> Ledger
    decreases effects.len() - i,
{
    if i >= effects.len() {
        ledger
    } else {
        match context.perform(ledger, effects[i as int]) {
            Ok(next) => progress_from(context, next, effects, i + 1),
            Err(_) => ledger,
        }
    }
}

/// The ledger at the moment a call ends, before a failure is undone.
pub open spec fn progress(context: Context, ledger: Ledger, plan: Plan) -> Ledger
    decreases plan,
{
    let l = progress_from(context, ledger, plan.effects, 0);
    if context.perform_from(ledger, plan.effects, 0) is Err {
        l
    } else {
        match plan.next {
            Then::IsInitialized(k) => progress(context, l, k(l.initialized)),
            Then::LoadConfig(k) => progress(context, l, k(l.config)),
            Then::LoadNextId(k) => progress(context, l, k(l.next_id)),
            Then::LoadEscrow(id, k) => progress(context, l, k(l.escrow(id))),
            Then::LoadWallet(name, k) => progress(context, l, k(l.wallet(name))),
            Then::IsRegistered(name, k) => progress(context, l, k(l.registry.contains_key(name))),
            Then::ReadClock(k) => progress(context, l, k(context.now)),
            Then::Return(_) | Then::Abort(_) => l,
        }
    }
}

proof fn lemma_failing_initialize(
    context: Context,
    ledger: Ledger,
    admin: Address,
    token: Address,
)
    requires
        !(ledger::initialize_outcome(context, ledger, admin, token) is Returned),
    ensures
        progress(context, ledger, plan::initialize_plan(admin, token)) == ledger,
{
    reveal_with_fuel(progress, 2);
    reveal_with_fuel(progress_from, 2);
}

proof fn lemma_failing_deposit(context: Context, ledger: Ledger, deposit: DepositView)
    requires
        !(ledger::deposit_tuition_outcome(context, ledger, deposit) is Returned),
        ledger::deposit_tuition_outcome(context, ledger, deposit) != Outcome::Aborted(
            Error::IdsExhausted,
        ),
    ensures
        progress(context, ledger, plan::deposit_tuition_plan(deposit)) == ledger,
{
    reveal_with_fuel(progress, 4);
    reveal_with_fuel(progress_from, 2);
    reveal_with_fuel(Context::perform_from, 2);
}

proof fn lemma_failing_pay(context: Context, ledger: Ledger, student: Address, escrow_id: u64)
    requires
        !(ledger::pay_tuition_outcome(context, ledger, student, escrow_id) is Returned),
    ensures
        progress(context, ledger, plan::pay_tuition_plan(student, escrow_id)) == ledger,
{
    reveal_with_fuel(progress, 4);
    reveal_with_fuel(progress_from, 2);
    reveal_with_fuel(Context::perform_from, 2);
}

proof fn lemma_failing_refund(context: Context, ledger: Ledger, sponsor: Address, escrow_id: u64)
    requires
        !(ledger::refund_outcome(context, ledger, sponsor, escrow_id) is Returned),
    ensures
        progress(context, ledger, plan::refund_plan(sponsor, escrow_id)) == ledger,
{
    reveal_with_fuel(progress, 4);
    reveal_with_fuel(progress_from, 2);
    reveal_with_fuel(Context::perform_from, 2);
}

/// A call that fails has not touched anything by then: authorizations come first, all
/// checks come before money moves, and money moves before anything is written. The one
/// exception is a deposit that finds the ids used up after it has collected the money.
pub proof fn failing_call_has_touched_nothing(
    context: Context,
    ledger: Ledger,
    operation: Operation,
)
    requires
        !(context.execute(ledger, operation.plan()) is Returned),
        context.execute(ledger, operation.plan()) != Outcome::Aborted(Error::IdsExhausted),
    ensures
        progress(context, ledger, operation.plan()) == ledger,
{
    ledger::operation_ends_in_its_outcome(context, ledger, operation);
    match operation {
        Operation::Initialize { admin, token } => {
            lemma_failing_initialize(context, ledger, admin, token);
        },
        Operation::DepositTuition(deposit) => {
            lemma_failing_deposit(context, ledger, deposit);
        },
        Operation::PayTuition { student, escrow_id } => {
            lemma_failing_pay(context, ledger, student, escrow_id);
        },
        Operation::Refund { sponsor, escrow_id } => {
            lemma_failing_refund(context, ledger, sponsor, escrow_id);
        },
        _ => {
            reveal_with_fuel(progress, 2);
            reveal_with_fuel(progress_from, 2);
        },
    }
}

} // verus!
