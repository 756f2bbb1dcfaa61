//! What each operation promises to those who call it: when it succeeds, what has changed then
//! and what has not, and the reason that it is turned down for otherwise.
use crate::laws;
use crate::laws::Call;
use crate::ledger;
use crate::ledger::{Context, Ledger, Operation, Outcome, Refusal, Transfer};
use crate::plan;
use crate::plan::DepositView;
use crate::types::{Address, Config, Error, EventView, Status, ValueView};
use vstd::prelude::*;

verus! {

// --------------------------------------------------------------------- initialize

/// A contract that has not been initialized is, as soon as the admin agrees.
pub proof fn initialize_succeeds_with_the_admins_consent(
    context: Context,
    ledger: Ledger,
    admin: Address,
    token: Address,
)
    requires
        !ledger.initialized,
        context.signers.contains(admin),
    ensures
        context.execute(ledger, plan::initialize_plan(admin, token)) is Returned,
{
    ledger::operation_ends_in_its_outcome(context, ledger, Operation::Initialize { admin, token });
}

/// An initialization that has succeeded had the admin's consent and was the first. It has
/// fixed operator and asset as they were given and set the counter to zero, and nothing else
/// has changed.
pub proof fn initialize_sets_operator_asset_and_counter(
    context: Context,
    ledger: Ledger,
    admin: Address,
    token: Address,
    after: Ledger,
    value: ValueView,
)
    requires
        context.execute(ledger, plan::initialize_plan(admin, token)) == Outcome::Returned(
            after,
            value,
        ),
    ensures
        !ledger.initialized,
        context.signers.contains(admin),
        value == ValueView::Unit,
        after.initialized,
        after.config is Some,
        after.config->0.admin == admin,
        after.config->0.token == token,
        after.next_id == Some(0u64),
        after.escrows == ledger.escrows,
        after.registry == ledger.registry,
        after.transfers == ledger.transfers,
        after.events == ledger.events,
{
    ledger::operation_ends_in_its_outcome(context, ledger, Operation::Initialize { admin, token });
}

/// An initialization that fails is turned down as a repetition, or else for want of the
/// admin's consent.
pub proof fn initialize_is_turned_down(
    context: Context,
    ledger: Ledger,
    admin: Address,
    token: Address,
)
    ensures
        ledger.initialized ==> context.execute(ledger, plan::initialize_plan(admin, token))
            == Outcome::Aborted(Error::AlreadyInitialized),
        !ledger.initialized && !context.signers.contains(admin) ==> context.execute(
            ledger,
            plan::initialize_plan(admin, token),
        ) == Outcome::Refused(Refusal::Unauthorized(admin)),
{
    ledger::operation_ends_in_its_outcome(context, ledger, Operation::Initialize { admin, token });
}

/// Whatever is asked of the contract, its flag and its configuration change only in an
/// initialization that the admin has authorized, of a contract that was not initialized.
pub proof fn configuration_changes_only_at_the_admins_word(ledger: Ledger, call: Call)
    ensures
        call.after(ledger).initialized != ledger.initialized || call.after(ledger).config
            != ledger.config ==> {
            &&& !ledger.initialized
            &&& call.after(ledger).initialized
            &&& match call.operation {
                Operation::Initialize { admin, token } => {
                    &&& call.context.signers.contains(admin)
                    &&& call.after(ledger).config == Some(Config { admin, token })
                },
                _ => false,
            }
        },
{
    ledger::operation_ends_in_its_outcome(call.context, ledger, call.operation);
}

// ----------------------------------------------------------------------- registry

/// The operator's consent is all that a registration needs.
pub proof fn register_succeeds_with_the_operators_consent(
    context: Context,
    ledger: Ledger,
    admin: Address,
    name: Seq<u8>,
    wallet: Address,
)
    requires
        ledger.config is Some,
        ledger.config->0.admin == admin,
        context.signers.contains(admin),
    ensures
        context.execute(
            ledger,
            plan::register_university_plan(admin, name, wallet),
        ) is Returned,
{
    ledger::operation_ends_in_its_outcome(
        context,
        ledger,
        Operation::RegisterUniversity { admin, name, wallet },
    );
}

/// A registration that has succeeded was the operator's, with their consent. The name stands
/// for the wallet now, every other name for what it stood for, the registration has been
/// announced, and nothing else has changed.
pub proof fn register_files_the_wallet(
    context: Context,
    ledger: Ledger,
    admin: Address,
    name: Seq<u8>,
    wallet: Address,
    after: Ledger,
    value: ValueView,
)
    requires
        context.execute(ledger, plan::register_university_plan(admin, name, wallet))
            == Outcome::Returned(after, value),
    ensures
        ledger.config is Some,
        ledger.config->0.admin == admin,
        context.signers.contains(admin),
        value == ValueView::Unit,
        after.registry.contains_key(name),
        after.registry[name] == wallet,
        forall|other: Seq<u8>|
            other != name ==> (#[trigger] after.registry.contains_key(other)
                <==> ledger.registry.contains_key(other)),
        forall|other: Seq<u8>|
            other != name && ledger.registry.contains_key(other) ==> #[trigger] after.registry[other]
                == ledger.registry[other],
        after.events == ledger.events.push(EventView::UniversityRegistered { wallet, name }),
        after.initialized == ledger.initialized,
        after.config == ledger.config,
        after.next_id == ledger.next_id,
        after.escrows == ledger.escrows,
        after.transfers == ledger.transfers,
{
    ledger::operation_ends_in_its_outcome(
        context,
        ledger,
        Operation::RegisterUniversity { admin, name, wallet },
    );
}

/// A registration that fails is turned down for the first of these reasons: the contract has
/// no configuration, the caller is not the operator, the operator has not agreed.
pub proof fn register_is_turned_down(
    context: Context,
    ledger: Ledger,
    admin: Address,
    name: Seq<u8>,
    wallet: Address,
)
    ensures
        ({
            let end = context.execute(ledger, plan::register_university_plan(admin, name, wallet));
            &&& ledger.config is None ==> end == Outcome::Aborted(Error::NotInitialized)
            &&& ledger.config is Some && ledger.config->0.admin != admin ==> end
                == Outcome::Aborted(Error::NotOperator)
            &&& ledger.config is Some && ledger.config->0.admin == admin
                && !context.signers.contains(admin) ==> end == Outcome::Refused(
                Refusal::Unauthorized(admin),
            )
        }),
{
    ledger::operation_ends_in_its_outcome(
        context,
        ledger,
        Operation::RegisterUniversity { admin, name, wallet },
    );
}

/// The operator's consent is all that a removal needs.
pub proof fn remove_succeeds_with_the_operators_consent(
    context: Context,
    ledger: Ledger,
    admin: Address,
    name: Seq<u8>,
)
    requires
        ledger.config is Some,
        ledger.config->0.admin == admin,
        context.signers.contains(admin),
    ensures
        context.execute(ledger, plan::remove_university_plan(admin, name)) is Returned,
{
    ledger::operation_ends_in_its_outcome(
        context,
        ledger,
        Operation::RemoveUniversity { admin, name },
    );
}

/// A removal that has succeeded was the operator's, with their consent. The name stands for
/// nothing now, every other name for what it stood for, and nothing else has changed.
pub proof fn remove_strikes_the_name_off(
    context: Context,
    ledger: Ledger,
    admin: Address,
    name: Seq<u8>,
    after: Ledger,
    value: ValueView,
)
    requires
        context.execute(ledger, plan::remove_university_plan(admin, name)) == Outcome::Returned(
            after,
            value,
        ),
    ensures
        ledger.config is Some,
        ledger.config->0.admin == admin,
        context.signers.contains(admin),
        value == ValueView::Unit,
        !after.registry.contains_key(name),
        forall|other: Seq<u8>|
            other != name ==> (#[trigger] after.registry.contains_key(other)
                <==> ledger.registry.contains_key(other)),
        forall|other: Seq<u8>|
            other != name && ledger.registry.contains_key(other) ==> #[trigger] after.registry[other]
                == ledger.registry[other],
        after.events == ledger.events,
        after.initialized == ledger.initialized,
        after.config == ledger.config,
        after.next_id == ledger.next_id,
        after.escrows == ledger.escrows,
        after.transfers == ledger.transfers,
{
    ledger::operation_ends_in_its_outcome(
        context,
        ledger,
        Operation::RemoveUniversity { admin, name },
    );
}

/// A removal that fails is turned down for the first of these reasons: the contract has no
/// configuration, the caller is not the operator, the operator has not agreed.
pub proof fn remove_is_turned_down(
    context: Context,
    ledger: Ledger,
    admin: Address,
    name: Seq<u8>,
)
    ensures
        ({
            let end = context.execute(ledger, plan::remove_university_plan(admin, name));
            &&& ledger.config is None ==> end == Outcome::Aborted(Error::NotInitialized)
            &&& ledger.config is Some && ledger.config->0.admin != admin ==> end
                == Outcome::Aborted(Error::NotOperator)
            &&& ledger.config is Some && ledger.config->0.admin == admin
                && !context.signers.contains(admin) ==> end == Outcome::Refused(
                Refusal::Unauthorized(admin),
            )
        }),
{
    ledger::operation_ends_in_its_outcome(
        context,
        ledger,
        Operation::RemoveUniversity { admin, name },
    );
}

// ------------------------------------------------------------------------ deposit

/// A deposit succeeds whenever nothing stands against it, and returns the id that the counter
/// held: with a configuration, the sponsor's consent, a positive amount, a registered
/// university, any deadline ahead, a token that agrees to the collection, and an id left.
pub proof fn deposit_succeeds_if_nothing_stands_against_it(
    context: Context,
    ledger: Ledger,
    deposit: DepositView,
    id: u64,
)
    requires
        ledger.config is Some,
        context.signers.contains(deposit.sponsor),
        deposit.amount > 0,
        ledger.registry.contains_key(deposit.university),
        deposit.deadline > context.now,
        (context.accepts)(
            ledger.transfers,
            Transfer {
                token: ledger.config->0.token,
                from: deposit.sponsor,
                to: context.contract,
                amount: deposit.amount,
            },
        ),
        ledger.next_id == Some(id) || (ledger.next_id is None && id == 0),
        id < u64::MAX,
    ensures
        context.execute(ledger, plan::deposit_tuition_plan(deposit)) is Returned,
        context.execute(ledger, plan::deposit_tuition_plan(deposit))->Returned_1 == ValueView::Id(
            id,
        ),
{
    ledger::operation_ends_in_its_outcome(context, ledger, Operation::DepositTuition(deposit));
}

/// A deposit that has succeeded had everything in its favour: nothing that it needs was
/// missing.
pub proof fn deposit_succeeds_only_if_nothing_stands_against_it(
    context: Context,
    ledger: Ledger,
    deposit: DepositView,
)
    requires
        context.execute(ledger, plan::deposit_tuition_plan(deposit)) is Returned,
    ensures
        ledger.config is Some,
        context.signers.contains(deposit.sponsor),
        deposit.amount > 0,
        ledger.registry.contains_key(deposit.university),
        deposit.deadline > context.now,
        (context.accepts)(
            ledger.transfers,
            Transfer {
                token: ledger.config->0.token,
                from: deposit.sponsor,
                to: context.contract,
                amount: deposit.amount,
            },
        ),
        ledger.next_id != Some(u64::MAX),
{
    ledger::operation_ends_in_its_outcome(context, ledger, Operation::DepositTuition(deposit));
}

/// A deposit that has succeeded has opened a funded escrow under the id that it returns, which
/// is the one that the counter held, with every term as it was asked for. The counter has
/// moved on by one, and every other escrow is as it was.
pub proof fn deposit_records_every_term(
    context: Context,
    ledger: Ledger,
    deposit: DepositView,
    after: Ledger,
    id: u64,
)
    requires
        context.execute(ledger, plan::deposit_tuition_plan(deposit)) == Outcome::Returned(
            after,
            ValueView::Id(id),
        ),
    ensures
        ledger.next_id == Some(id) || (ledger.next_id is None && id == 0),
        after.next_id is Some,
        after.next_id->0 == id + 1,
        after.escrows.contains_key(id),
        after.escrows[id].id == id,
        after.escrows[id].sponsor == deposit.sponsor,
        after.escrows[id].student == deposit.student,
        after.escrows[id].university == deposit.university,
        after.escrows[id].amount == deposit.amount,
        after.escrows[id].deadline == deposit.deadline,
        after.escrows[id].status == Status::Funded,
        forall|other: u64|
            other != id ==> (#[trigger] after.escrows.contains_key(other)
                <==> ledger.escrows.contains_key(other)),
        forall|other: u64|
            other != id && ledger.escrows.contains_key(other) ==> #[trigger] after.escrows[other]
                == ledger.escrows[other],
{
    ledger::operation_ends_in_its_outcome(context, ledger, Operation::DepositTuition(deposit));
}

/// A deposit that has succeeded returns an id, and has moved exactly its amount of the
/// contract's asset from the sponsor to the contract, once; it has been announced; and neither
/// the configuration nor the registry has changed.
pub proof fn deposit_moves_the_amount_into_custody(
    context: Context,
    ledger: Ledger,
    deposit: DepositView,
    after: Ledger,
    value: ValueView,
)
    requires
        context.execute(ledger, plan::deposit_tuition_plan(deposit)) == Outcome::Returned(
            after,
            value,
        ),
    ensures
        value is Id,
        after.transfers == ledger.transfers.push(
            Transfer {
                token: ledger.config->0.token,
                from: deposit.sponsor,
                to: context.contract,
                amount: deposit.amount,
            },
        ),
        after.events == ledger.events.push(
            EventView::Deposited {
                sponsor: deposit.sponsor,
                id: value->Id_0,
                amount: deposit.amount,
            },
        ),
        after.initialized == ledger.initialized,
        after.config == ledger.config,
        after.registry == ledger.registry,
{
    ledger::operation_ends_in_its_outcome(context, ledger, Operation::DepositTuition(deposit));
}

/// A deposit that fails is turned down for the first thing that is missing: a configuration,
/// the sponsor's consent, a positive amount, a registered university, a deadline ahead, the
/// token's agreement, an id.
pub proof fn deposit_is_turned_down(context: Context, ledger: Ledger, deposit: DepositView)
    ensures
        ({
            let end = context.execute(ledger, plan::deposit_tuition_plan(deposit));
            let movement = Transfer {
                token: ledger.config->0.token,
                from: deposit.sponsor,
                to: context.contract,
                amount: deposit.amount,
            };
            let signed = context.signers.contains(deposit.sponsor);
            let registered = ledger.registry.contains_key(deposit.university);
            let ahead = deposit.deadline > context.now;
            let accepted = (context.accepts)(ledger.transfers, movement);
            &&& ledger.config is None ==> end == Outcome::Aborted(Error::NotInitialized)
            &&& ledger.config is Some && !signed ==> end == Outcome::Refused(
                Refusal::Unauthorized(deposit.sponsor),
            )
            &&& ledger.config is Some && signed && deposit.amount <= 0 ==> end == Outcome::Aborted(
                Error::AmountNotPositive,
            )
            &&& ledger.config is Some && signed && deposit.amount > 0 && !registered ==> end
                == Outcome::Aborted(Error::UniversityNotRegistered)
            &&& ledger.config is Some && signed && deposit.amount > 0 && registered && !ahead
                ==> end == Outcome::Aborted(Error::DeadlineNotInFuture)
            &&& ledger.config is Some && signed && deposit.amount > 0 && registered && ahead
                && !accepted ==> end == Outcome::Refused(Refusal::TransferRejected(movement))
            &&& ledger.config is Some && signed && deposit.amount > 0 && registered && ahead
                && accepted && ledger.next_id == Some(u64::MAX) ==> end == Outcome::Aborted(
                Error::IdsExhausted,
            )
        }),
{
    ledger::operation_ends_in_its_outcome(context, ledger, Operation::DepositTuition(deposit));
}

// ---------------------------------------------------------------------------- pay

/// A release succeeds whenever nothing stands against it: with a configuration, an escrow that
/// is funded, its student as the caller, their consent, a registered university, and a token
/// that agrees. The time plays no part.
pub proof fn pay_succeeds_if_nothing_stands_against_it(
    context: Context,
    ledger: Ledger,
    student: Address,
    escrow_id: u64,
)
    requires
        ledger.config is Some,
        ledger.escrows.contains_key(escrow_id),
        ledger.escrows[escrow_id].status == Status::Funded,
        ledger.escrows[escrow_id].student == student,
        context.signers.contains(student),
        ledger.registry.contains_key(ledger.escrows[escrow_id].university),
        (context.accepts)(
            ledger.transfers,
            Transfer {
                token: ledger.config->0.token,
                from: context.contract,
                to: ledger.registry[ledger.escrows[escrow_id].university],
                amount: ledger.escrows[escrow_id].amount,
            },
        ),
    ensures
        context.execute(ledger, plan::pay_tuition_plan(student, escrow_id)) is Returned,
{
    ledger::operation_ends_in_its_outcome(
        context,
        ledger,
        Operation::PayTuition { student, escrow_id },
    );
}

/// A release that has succeeded had everything in its favour.
pub proof fn pay_succeeds_only_if_nothing_stands_against_it(
    context: Context,
    ledger: Ledger,
    student: Address,
    escrow_id: u64,
)
    requires
        context.execute(ledger, plan::pay_tuition_plan(student, escrow_id)) is Returned,
    ensures
        ledger.config is Some,
        ledger.escrows.contains_key(escrow_id),
        ledger.escrows[escrow_id].status == Status::Funded,
        ledger.escrows[escrow_id].student == student,
        context.signers.contains(student),
        ledger.registry.contains_key(ledger.escrows[escrow_id].university),
        (context.accepts)(
            ledger.transfers,
            Transfer {
                token: ledger.config->0.token,
                from: context.contract,
                to: ledger.registry[ledger.escrows[escrow_id].university],
                amount: ledger.escrows[escrow_id].amount,
            },
        ),
{
    ledger::operation_ends_in_its_outcome(
        context,
        ledger,
        Operation::PayTuition { student, escrow_id },
    );
}

/// After a release the escrow is paid, and each of its terms is what it was; every other escrow
/// and the counter are as they were.
pub proof fn pay_marks_the_escrow_paid(
    context: Context,
    ledger: Ledger,
    student: Address,
    escrow_id: u64,
    after: Ledger,
    value: ValueView,
)
    requires
        context.execute(ledger, plan::pay_tuition_plan(student, escrow_id)) == Outcome::Returned(
            after,
            value,
        ),
    ensures
        after.escrows.contains_key(escrow_id),
        after.escrows[escrow_id].status == Status::Paid,
        after.escrows[escrow_id].id == ledger.escrows[escrow_id].id,
        after.escrows[escrow_id].sponsor == ledger.escrows[escrow_id].sponsor,
        after.escrows[escrow_id].student == ledger.escrows[escrow_id].student,
        after.escrows[escrow_id].university == ledger.escrows[escrow_id].university,
        after.escrows[escrow_id].amount == ledger.escrows[escrow_id].amount,
        after.escrows[escrow_id].deadline == ledger.escrows[escrow_id].deadline,
        forall|other: u64|
            #[trigger] after.escrows.contains_key(other) <==> ledger.escrows.contains_key(other),
        forall|other: u64|
            other != escrow_id && ledger.escrows.contains_key(other)
                ==> #[trigger] after.escrows[other] == ledger.escrows[other],
        after.next_id == ledger.next_id,
{
    ledger::operation_ends_in_its_outcome(
        context,
        ledger,
        Operation::PayTuition { student, escrow_id },
    );
}

/// A release that has succeeded has moved the full amount from the contract to the wallet that
/// the registry held for the escrow's university, once; it has been announced; and neither the
/// configuration nor the registry has changed.
pub proof fn pay_moves_the_amount_to_the_university(
    context: Context,
    ledger: Ledger,
    student: Address,
    escrow_id: u64,
    after: Ledger,
    value: ValueView,
)
    requires
        context.execute(ledger, plan::pay_tuition_plan(student, escrow_id)) == Outcome::Returned(
            after,
            value,
        ),
    ensures
        value == ValueView::Unit,
        after.transfers == ledger.transfers.push(
            Transfer {
                token: ledger.config->0.token,
                from: context.contract,
                to: ledger.registry[ledger.escrows[escrow_id].university],
                amount: ledger.escrows[escrow_id].amount,
            },
        ),
        after.events == ledger.events.push(
            EventView::Paid {
                university: ledger.registry[ledger.escrows[escrow_id].university],
                id: escrow_id,
                amount: ledger.escrows[escrow_id].amount,
            },
        ),
        after.initialized == ledger.initialized,
        after.config == ledger.config,
        after.registry == ledger.registry,
{
    ledger::operation_ends_in_its_outcome(
        context,
        ledger,
        Operation::PayTuition { student, escrow_id },
    );
}

/// A release that fails is turned down for the first thing that is missing: a configuration,
/// the escrow, that it is funded, the caller's consent, that they are the student, a
/// registered university, the token's agreement.
pub proof fn pay_is_turned_down(
    context: Context,
    ledger: Ledger,
    student: Address,
    escrow_id: u64,
)
    ensures
        ({
            let end = context.execute(ledger, plan::pay_tuition_plan(student, escrow_id));
            let escrow = ledger.escrows[escrow_id];
            let movement = Transfer {
                token: ledger.config->0.token,
                from: context.contract,
                to: ledger.registry[escrow.university],
                amount: escrow.amount,
            };
            let exists = ledger.config is Some && ledger.escrows.contains_key(escrow_id);
            let funded = exists && escrow.status == Status::Funded;
            let signed = funded && context.signers.contains(student);
            let entitled = signed && escrow.student == student;
            let registered = entitled && ledger.registry.contains_key(escrow.university);
            let accepted = (context.accepts)(ledger.transfers, movement);
            &&& ledger.config is None ==> end == Outcome::Aborted(Error::NotInitialized)
            &&& ledger.config is Some && !exists ==> end == Outcome::Aborted(Error::EscrowNotFound)
            &&& exists && !funded ==> end == Outcome::Aborted(Error::EscrowNotFunded)
            &&& funded && !signed ==> end == Outcome::Refused(Refusal::Unauthorized(student))
            &&& signed && !entitled ==> end == Outcome::Aborted(Error::NotStudent)
            &&& entitled && !registered ==> end == Outcome::Aborted(
                Error::UniversityNoLongerRegistered,
            )
            &&& registered && !accepted ==> end == Outcome::Refused(
                Refusal::TransferRejected(movement),
            )
        }),
{
    ledger::operation_ends_in_its_outcome(
        context,
        ledger,
        Operation::PayTuition { student, escrow_id },
    );
}

// ------------------------------------------------------------------------- refund

/// A refund succeeds whenever nothing stands against it: with a configuration, an escrow that
/// is funded, its sponsor as the caller, their consent, a time after the deadline, and a token
/// that agrees. The registry plays no part.
pub proof fn refund_succeeds_if_nothing_stands_against_it(
    context: Context,
    ledger: Ledger,
    sponsor: Address,
    escrow_id: u64,
)
    requires
        ledger.config is Some,
        ledger.escrows.contains_key(escrow_id),
        ledger.escrows[escrow_id].status == Status::Funded,
        ledger.escrows[escrow_id].sponsor == sponsor,
        context.signers.contains(sponsor),
        context.now > ledger.escrows[escrow_id].deadline,
        (context.accepts)(
            ledger.transfers,
            Transfer {
                token: ledger.config->0.token,
                from: context.contract,
                to: sponsor,
                amount: ledger.escrows[escrow_id].amount,
            },
        ),
    ensures
        context.execute(ledger, plan::refund_plan(sponsor, escrow_id)) is Returned,
{
    ledger::operation_ends_in_its_outcome(
        context,
        ledger,
        Operation::Refund { sponsor, escrow_id },
    );
}

/// A refund that has succeeded had everything in its favour.
pub proof fn refund_succeeds_only_if_nothing_stands_against_it(
    context: Context,
    ledger: Ledger,
    sponsor: Address,
    escrow_id: u64,
)
    requires
        context.execute(ledger, plan::refund_plan(sponsor, escrow_id)) is Returned,
    ensures
        ledger.config is Some,
        ledger.escrows.contains_key(escrow_id),
        ledger.escrows[escrow_id].status == Status::Funded,
        ledger.escrows[escrow_id].sponsor == sponsor,
        context.signers.contains(sponsor),
        context.now > ledger.escrows[escrow_id].deadline,
        (context.accepts)(
            ledger.transfers,
            Transfer {
                token: ledger.config->0.token,
                from: context.contract,
                to: sponsor,
                amount: ledger.escrows[escrow_id].amount,
            },
        ),
{
    ledger::operation_ends_in_its_outcome(
        context,
        ledger,
        Operation::Refund { sponsor, escrow_id },
    );
}

/// After a refund the escrow is refunded, and each of its terms is what it was; every other
/// escrow and the counter are as they were.
pub proof fn refund_marks_the_escrow_refunded(
    context: Context,
    ledger: Ledger,
    sponsor: Address,
    escrow_id: u64,
    after: Ledger,
    value: ValueView,
)
    requires
        context.execute(ledger, plan::refund_plan(sponsor, escrow_id)) == Outcome::Returned(
            after,
            value,
        ),
    ensures
        after.escrows.contains_key(escrow_id),
        after.escrows[escrow_id].status == Status::Refunded,
        after.escrows[escrow_id].id == ledger.escrows[escrow_id].id,
        after.escrows[escrow_id].sponsor == ledger.escrows[escrow_id].sponsor,
        after.escrows[escrow_id].student == ledger.escrows[escrow_id].student,
        after.escrows[escrow_id].university == ledger.escrows[escrow_id].university,
        after.escrows[escrow_id].amount == ledger.escrows[escrow_id].amount,
        after.escrows[escrow_id].deadline == ledger.escrows[escrow_id].deadline,
        forall|other: u64|
            #[trigger] after.escrows.contains_key(other) <==> ledger.escrows.contains_key(other),
        forall|other: u64|
            other != escrow_id && ledger.escrows.contains_key(other)
                ==> #[trigger] after.escrows[other] == ledger.escrows[other],
        after.next_id == ledger.next_id,
{
    ledger::operation_ends_in_its_outcome(
        context,
        ledger,
        Operation::Refund { sponsor, escrow_id },
    );
}

/// A refund that has succeeded has moved the full amount from the contract to the sponsor who
/// paid it in, once; it has been announced; and neither the configuration nor the registry has
/// changed.
pub proof fn refund_moves_the_amount_back(
    context: Context,
    ledger: Ledger,
    sponsor: Address,
    escrow_id: u64,
    after: Ledger,
    value: ValueView,
)
    requires
        context.execute(ledger, plan::refund_plan(sponsor, escrow_id)) == Outcome::Returned(
            after,
            value,
        ),
    ensures
        value == ValueView::Unit,
        after.transfers == ledger.transfers.push(
            Transfer {
                token: ledger.config->0.token,
                from: context.contract,
                to: ledger.escrows[escrow_id].sponsor,
                amount: ledger.escrows[escrow_id].amount,
            },
        ),
        after.events == ledger.events.push(
            EventView::Refunded {
                sponsor: ledger.escrows[escrow_id].sponsor,
                id: escrow_id,
                amount: ledger.escrows[escrow_id].amount,
            },
        ),
        after.initialized == ledger.initialized,
        after.config == ledger.config,
        after.registry == ledger.registry,
{
    ledger::operation_ends_in_its_outcome(
        context,
        ledger,
        Operation::Refund { sponsor, escrow_id },
    );
}

/// A refund that fails is turned down for the first thing that is missing: a configuration,
/// the escrow, that it is funded, the caller's consent, that they are the sponsor, a time
/// after the deadline, the token's agreement.
pub proof fn refund_is_turned_down(
    context: Context,
    ledger: Ledger,
    sponsor: Address,
    escrow_id: u64,
)
    ensures
        ({
            let end = context.execute(ledger, plan::refund_plan(sponsor, escrow_id));
            let escrow = ledger.escrows[escrow_id];
            let movement = Transfer {
                token: ledger.config->0.token,
                from: context.contract,
                to: sponsor,
                amount: escrow.amount,
            };
            let exists = ledger.config is Some && ledger.escrows.contains_key(escrow_id);
            let funded = exists && escrow.status == Status::Funded;
            let signed = funded && context.signers.contains(sponsor);
            let entitled = signed && escrow.sponsor == sponsor;
            let due = entitled && context.now > escrow.deadline;
            let accepted = (context.accepts)(ledger.transfers, movement);
            &&& ledger.config is None ==> end == Outcome::Aborted(Error::NotInitialized)
            &&& ledger.config is Some && !exists ==> end == Outcome::Aborted(Error::EscrowNotFound)
            &&& exists && !funded ==> end == Outcome::Aborted(Error::EscrowNotFunded)
            &&& funded && !signed ==> end == Outcome::Refused(Refusal::Unauthorized(sponsor))
            &&& signed && !entitled ==> end == Outcome::Aborted(Error::NotSponsor)
            &&& entitled && !due ==> end == Outcome::Aborted(Error::DeadlineNotReached)
            &&& due && !accepted ==> end == Outcome::Refused(Refusal::TransferRejected(movement))
        }),
{
    ledger::operation_ends_in_its_outcome(
        context,
        ledger,
        Operation::Refund { sponsor, escrow_id },
    );
}

// -------------------------------------------------------------------------- views

/// An escrow reads back exactly as it is stored, whatever its status; one that is not stored is
/// reported missing. Either way nothing changes.
pub proof fn get_escrow_reads_the_stored_record(context: Context, ledger: Ledger, escrow_id: u64)
    ensures
        ledger.escrows.contains_key(escrow_id) ==> context.execute(
            ledger,
            plan::get_escrow_plan(escrow_id),
        ) == Outcome::Returned(ledger, ValueView::Escrow(ledger.escrows[escrow_id])),
        !ledger.escrows.contains_key(escrow_id) ==> context.execute(
            ledger,
            plan::get_escrow_plan(escrow_id),
        ) == Outcome::Aborted(Error::EscrowNotFound),
{
    ledger::operation_ends_in_its_outcome(context, ledger, Operation::GetEscrow { escrow_id });
}

/// A name reads back as the wallet that is stored for it, or as nothing, and is registered
/// exactly if there is one. Nothing changes.
pub proof fn registry_reads_the_stored_wallet(context: Context, ledger: Ledger, name: Seq<u8>)
    ensures
        ledger.registry.contains_key(name) ==> context.execute(
            ledger,
            plan::get_university_plan(name),
        ) == Outcome::Returned(ledger, ValueView::Wallet(Some(ledger.registry[name]))),
        !ledger.registry.contains_key(name) ==> context.execute(
            ledger,
            plan::get_university_plan(name),
        ) == Outcome::Returned(ledger, ValueView::Wallet(None)),
        context.execute(ledger, plan::is_registered_plan(name)) == Outcome::Returned(
            ledger,
            ValueView::Flag(ledger.registry.contains_key(name)),
        ),
{
    ledger::operation_ends_in_its_outcome(context, ledger, Operation::GetUniversity { name });
    ledger::operation_ends_in_its_outcome(context, ledger, Operation::IsRegistered { name });
}

/// The counter and the configuration read back as they are stored; where none is stored, the
/// counter reads as zero and the configuration is reported missing. Nothing changes.
pub proof fn counter_and_configuration_read_as_stored(context: Context, ledger: Ledger)
    ensures
        ledger.next_id is Some ==> context.execute(ledger, plan::next_escrow_id_plan())
            == Outcome::Returned(ledger, ValueView::Id(ledger.next_id->0)),
        ledger.next_id is None ==> context.execute(ledger, plan::next_escrow_id_plan())
            == Outcome::Returned(ledger, ValueView::Id(0)),
        ledger.config is Some ==> context.execute(ledger, plan::get_config_plan())
            == Outcome::Returned(ledger, ValueView::Config(ledger.config->0)),
        ledger.config is None ==> context.execute(ledger, plan::get_config_plan())
            == Outcome::Aborted(Error::NotInitialized),
{
    ledger::operation_ends_in_its_outcome(context, ledger, Operation::NextEscrowId);
    ledger::operation_ends_in_its_outcome(context, ledger, Operation::GetConfig);
}

/// The terms of a deposit read back for good: whatever happens after it, `get_escrow` of the
/// id that it returned gives a record in which every term is as the sponsor asked for it.
pub proof fn terms_read_back_for_good(
    context: Context,
    ledger: Ledger,
    deposit: DepositView,
    opened: Ledger,
    id: u64,
    calls: Seq<Call>,
    later: Context,
)
    requires
        laws::well_formed(ledger),
        context.execute(ledger, plan::deposit_tuition_plan(deposit)) == Outcome::Returned(
            opened,
            ValueView::Id(id),
        ),
    ensures
        ({
            let now = laws::history(opened, calls);
            let read = later.execute(now, plan::get_escrow_plan(id));
            &&& read is Returned
            &&& read->Returned_0 == now
            &&& read->Returned_1 is Escrow
            &&& read->Returned_1->Escrow_0.id == id
            &&& read->Returned_1->Escrow_0.sponsor == deposit.sponsor
            &&& read->Returned_1->Escrow_0.student == deposit.student
            &&& read->Returned_1->Escrow_0.university == deposit.university
            &&& read->Returned_1->Escrow_0.amount == deposit.amount
            &&& read->Returned_1->Escrow_0.deadline == deposit.deadline
        }),
{
    let now = laws::history(opened, calls);
    let open = Call { context, operation: Operation::DepositTuition(deposit) };
    deposit_records_every_term(context, ledger, deposit, opened, id);
    laws::calls_keep_the_ledger_well_formed(ledger, open);
    laws::escrow_terms_are_fixed(opened, calls, id);
    get_escrow_reads_the_stored_record(later, now, id);
}

} // verus!
