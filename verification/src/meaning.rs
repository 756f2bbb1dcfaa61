//! What the vocabulary of the library stands for: that a view leaves nothing out, what each
//! effect does to a ledger, and how a plan is carried out there.
use crate::ledger::{Context, Ledger, Outcome, Refusal, Transfer};
use crate::plan;
use crate::plan::{Plan, Then};
use crate::step::{
    Await, Deposit, OnClock, OnConfig, OnEscrow, OnInitialized, OnNextId, OnRegistered, OnWallet,
    Step,
};
use crate::types;
use crate::types::{
    Address, Config, DataKey, DataKeyView, Durability, Effect, EffectView, Entry, EntryView, Error,
    Escrow, EscrowView, Event, EventView, Value, ValueView,
};
use vstd::prelude::*;

verus! {

// ------------------------------------------------------------------------ records

/// An escrow's view holds every field of the escrow, and a view that may be absent is
/// absent exactly when the escrow is.
pub proof fn escrow_view_holds_every_field(escrow: Escrow)
    ensures
        escrow@.id == escrow.id,
        escrow@.sponsor == escrow.sponsor,
        escrow@.student == escrow.student,
        escrow@.university == escrow.university@,
        escrow@.amount == escrow.amount,
        escrow@.deadline == escrow.deadline,
        escrow@.status == escrow.status,
        types::escrow_option_view(Some(escrow)) == Some(escrow@),
        types::escrow_option_view(None) == None::<EscrowView>,
{
}

/// A deposit's view holds every field of the deposit.
pub proof fn deposit_view_holds_every_field(deposit: Deposit)
    ensures
        deposit@.sponsor == deposit.sponsor,
        deposit@.student == deposit.student,
        deposit@.university == deposit.university@,
        deposit@.amount == deposit.amount,
        deposit@.deadline == deposit.deadline,
{
}

/// Storage keys and entries mean what they say, and every entry lives under its own key:
/// an escrow under its id and a wallet under the university's name.
pub proof fn entries_live_under_their_keys(
    id: u64,
    escrow: Escrow,
    name: Vec<u8>,
    wallet: Address,
    config: Config,
    held: EscrowView,
    label: Seq<u8>,
)
    ensures
        DataKey::Config@ == DataKeyView::Config,
        DataKey::NextId@ == DataKeyView::NextId,
        DataKey::Escrow(id)@ == DataKeyView::Escrow(id),
        DataKey::University(name)@ == DataKeyView::University(name@),
        Entry::Config(config)@ == EntryView::Config(config),
        Entry::NextId(id)@ == EntryView::NextId(id),
        Entry::Escrow(id, escrow)@ == EntryView::Escrow(id, escrow@),
        Entry::University(name, wallet)@ == EntryView::University(name@, wallet),
        EntryView::Config(config).key() == DataKeyView::Config,
        EntryView::NextId(id).key() == DataKeyView::NextId,
        EntryView::Escrow(id, held).key() == DataKeyView::Escrow(id),
        EntryView::University(label, wallet).key() == DataKeyView::University(label),
        DataKeyView::Config.durability() == Durability::Instance,
        DataKeyView::NextId.durability() == Durability::Instance,
        DataKeyView::Escrow(id).durability() == Durability::Persistent,
        DataKeyView::University(label).durability() == Durability::Persistent,
{
}

/// Events mean what they say, and are published under the word for what happened and the
/// address of the party it concerns.
pub proof fn events_are_published_under_their_topics(
    party: Address,
    name: Vec<u8>,
    label: Seq<u8>,
    id: u64,
    amount: i128,
)
    ensures
        (Event::UniversityRegistered { wallet: party, name })@
            == (EventView::UniversityRegistered { wallet: party, name: name@ }),
        (Event::Deposited { sponsor: party, id, amount })@ == (EventView::Deposited {
            sponsor: party,
            id,
            amount,
        }),
        (Event::Paid { university: party, id, amount })@ == (EventView::Paid {
            university: party,
            id,
            amount,
        }),
        (Event::Refunded { sponsor: party, id, amount })@ == (EventView::Refunded {
            sponsor: party,
            id,
            amount,
        }),
        (EventView::UniversityRegistered { wallet: party, name: label }).topic() == "uni_reg"@,
        (EventView::Deposited { sponsor: party, id, amount }).topic() == "deposit"@,
        (EventView::Paid { university: party, id, amount }).topic() == "paid"@,
        (EventView::Refunded { sponsor: party, id, amount }).topic() == "refund"@,
        (EventView::UniversityRegistered { wallet: party, name: label }).party() == party,
        (EventView::Deposited { sponsor: party, id, amount }).party() == party,
        (EventView::Paid { university: party, id, amount }).party() == party,
        (EventView::Refunded { sponsor: party, id, amount }).party() == party,
{
}

/// The view of an effect keeps the parties, the amount and whatever else it is about.
pub proof fn effect_views_leave_nothing_out(
    party: Address,
    token: Address,
    amount: i128,
    entry: Entry,
    key: DataKey,
    event: Event,
)
    ensures
        Effect::RequireAuth(party)@ == EffectView::RequireAuth(party),
        Effect::MarkInitialized@ == EffectView::MarkInitialized,
        Effect::Store(entry)@ == EffectView::Store(entry@),
        Effect::Remove(key)@ == EffectView::Remove(key@),
        (Effect::Collect { token, from: party, amount })@ == (EffectView::Collect {
            token,
            from: party,
            amount,
        }),
        (Effect::Release { token, to: party, amount })@ == (EffectView::Release {
            token,
            to: party,
            amount,
        }),
        Effect::Publish(event)@ == EffectView::Publish(event@),
{
}

/// The view of a returned value is that value.
pub proof fn value_views_leave_nothing_out(
    id: u64,
    flag: bool,
    config: Config,
    escrow: Escrow,
    wallet: Option<Address>,
)
    ensures
        Value::Unit@ == ValueView::Unit,
        Value::Id(id)@ == ValueView::Id(id),
        Value::Flag(flag)@ == ValueView::Flag(flag),
        Value::Config(config)@ == ValueView::Config(config),
        Value::Escrow(escrow)@ == ValueView::Escrow(escrow@),
        Value::Wallet(wallet)@ == ValueView::Wallet(wallet),
{
}

/// Each error is reported with a text of its own.
pub proof fn errors_have_their_texts()
    ensures
        Error::AlreadyInitialized.text() == "already initialized"@,
        Error::NotInitialized.text() == "contract not initialized"@,
        Error::NotOperator.text() == "only the operator can manage the registry"@,
        Error::AmountNotPositive.text() == "amount must be positive"@,
        Error::UniversityNotRegistered.text() == "university not registered"@,
        Error::DeadlineNotInFuture.text() == "deadline must be in the future"@,
        Error::IdsExhausted.text() == "attempt to add with overflow"@,
        Error::EscrowNotFound.text() == "escrow does not exist"@,
        Error::EscrowNotFunded.text() == "escrow is not in a funded state"@,
        Error::NotStudent.text() == "only the student can release this escrow"@,
        Error::UniversityNoLongerRegistered.text() == "university no longer registered"@,
        Error::NotSponsor.text() == "only the sponsor can refund this escrow"@,
        Error::DeadlineNotReached.text() == "deadline not reached"@,
{
}

// -------------------------------------------------------------------------- steps

/// A suspended call stands for a plan with the same effects in the same order, none left out
/// and none added, and the same question.
pub proof fn step_views_leave_nothing_out(step: Step)
    ensures
        step@.effects.len() == step.effects@.len(),
        forall|i: int|
            0 <= i < step.effects@.len() ==> #[trigger] step@.effects[i] == step.effects@[i]@,
        step@.next == step.next@,
{
}

/// A question is about the escrow or the name that it carries, and its answer goes to the
/// call that it carries.
pub proof fn question_views_leave_nothing_out(
    id: u64,
    name: Vec<u8>,
    initialized: OnInitialized,
    config: OnConfig,
    next_id: OnNextId,
    escrow: OnEscrow,
    wallet: OnWallet,
    registered: OnRegistered,
    clock: OnClock,
    value: Value,
    error: Error,
)
    ensures
        Await::IsInitialized(initialized)@ == Then::IsInitialized(initialized@),
        Await::LoadConfig(config)@ == Then::LoadConfig(config@),
        Await::LoadNextId(next_id)@ == Then::LoadNextId(next_id@),
        Await::LoadEscrow(id, escrow)@ == Then::LoadEscrow(id, escrow@),
        Await::LoadWallet(name, wallet)@ == Then::LoadWallet(name@, wallet@),
        Await::IsRegistered(name, registered)@ == Then::IsRegistered(name@, registered@),
        Await::ReadClock(clock)@ == Then::ReadClock(clock@),
        Await::Return(value)@ == Then::Return(value@),
        Await::Abort(error)@ == Then::Abort(error),
        Await::IsInitialized(initialized)@.key() is None,
        Await::LoadConfig(config)@.key() == Some(DataKeyView::Config),
        Await::LoadNextId(next_id)@.key() == Some(DataKeyView::NextId),
        Await::LoadEscrow(id, escrow)@.key() == Some(DataKeyView::Escrow(id)),
        Await::LoadWallet(name, wallet)@.key() == Some(DataKeyView::University(name@)),
        Await::IsRegistered(name, registered)@.key() == Some(DataKeyView::University(name@)),
        Await::ReadClock(clock)@.key() is None,
        Await::Return(value)@.key() is None,
        Await::Abort(error)@.key() is None,
{
}

/// To ask, to fail and to succeed at once is to do nothing else; and the counter of a contract
/// that has stored none stands at zero.
pub proof fn nothing_happens_at_once(next: Then, error: Error, value: ValueView, id: u64)
    ensures
        plan::ask(next).effects.len() == 0,
        plan::ask(next).next == next,
        plan::abort(error).effects.len() == 0,
        plan::abort(error).next == Then::Abort(error),
        plan::give(value).effects.len() == 0,
        plan::give(value).next == Then::Return(value),
        plan::next_id(Some(id)) == id,
        plan::next_id(None) == 0,
{
}

// ------------------------------------------------------------------------- ledger

/// An authorization passes exactly if the party has signed, and touches nothing.
pub proof fn authorization_asks_the_signers(context: Context, ledger: Ledger, party: Address)
    ensures
        context.signers.contains(party) ==> context.perform(
            ledger,
            EffectView::RequireAuth(party),
        ) == Ok::<Ledger, Refusal>(ledger),
        !context.signers.contains(party) ==> context.perform(
            ledger,
            EffectView::RequireAuth(party),
        ) == Err::<Ledger, Refusal>(Refusal::Unauthorized(party)),
{
}

/// Writing puts the value under its key, removing drops it, and neither touches anything else.
pub proof fn storage_keeps_what_is_written(
    context: Context,
    ledger: Ledger,
    config: Config,
    id: u64,
    escrow: EscrowView,
    name: Seq<u8>,
    wallet: Address,
)
    ensures
        context.perform(ledger, EffectView::MarkInitialized) == Ok::<Ledger, Refusal>(
            Ledger { initialized: true, ..ledger },
        ),
        context.perform(ledger, EffectView::Store(EntryView::Config(config))) == Ok::<
            Ledger,
            Refusal,
        >(Ledger { config: Some(config), ..ledger }),
        context.perform(ledger, EffectView::Store(EntryView::NextId(id))) == Ok::<Ledger, Refusal>(
            Ledger { next_id: Some(id), ..ledger },
        ),
        context.perform(ledger, EffectView::Store(EntryView::Escrow(id, escrow))) == Ok::<
            Ledger,
            Refusal,
        >(Ledger { escrows: ledger.escrows.insert(id, escrow), ..ledger }),
        context.perform(ledger, EffectView::Store(EntryView::University(name, wallet))) == Ok::<
            Ledger,
            Refusal,
        >(Ledger { registry: ledger.registry.insert(name, wallet), ..ledger }),
        context.perform(ledger, EffectView::Remove(DataKeyView::University(name))) == Ok::<
            Ledger,
            Refusal,
        >(Ledger { registry: ledger.registry.remove(name), ..ledger }),
        context.perform(ledger, EffectView::Remove(DataKeyView::Escrow(id))) == Ok::<
            Ledger,
            Refusal,
        >(Ledger { escrows: ledger.escrows.remove(id), ..ledger }),
        context.perform(ledger, EffectView::Remove(DataKeyView::Config)) == Ok::<Ledger, Refusal>(
            Ledger { config: None, ..ledger },
        ),
        context.perform(ledger, EffectView::Remove(DataKeyView::NextId)) == Ok::<Ledger, Refusal>(
            Ledger { next_id: None, ..ledger },
        ),
{
}

/// An event is published after all others.
pub proof fn publishing_appends(context: Context, ledger: Ledger, event: EventView)
    ensures
        context.perform(ledger, EffectView::Publish(event)) == Ok::<Ledger, Refusal>(
            Ledger { events: ledger.events.push(event), ..ledger },
        ),
{
}

/// A collection goes from the party to the contract and a release from the contract to the
/// party, in the full amount, if the token agrees to just that; else it ends the call.
pub proof fn movements_need_the_token(
    context: Context,
    ledger: Ledger,
    token: Address,
    party: Address,
    amount: i128,
)
    ensures
        ({
            let movement = Transfer { token, from: party, to: context.contract, amount };
            let result = context.perform(
                ledger,
                EffectView::Collect { token, from: party, amount },
            );
            if (context.accepts)(ledger.transfers, movement) {
                result == Ok::<Ledger, Refusal>(
                    Ledger { transfers: ledger.transfers.push(movement), ..ledger },
                )
            } else {
                result == Err::<Ledger, Refusal>(Refusal::TransferRejected(movement))
            }
        }),
        ({
            let movement = Transfer { token, from: context.contract, to: party, amount };
            let result = context.perform(ledger, EffectView::Release { token, to: party, amount });
            if (context.accepts)(ledger.transfers, movement) {
                result == Ok::<Ledger, Refusal>(
                    Ledger { transfers: ledger.transfers.push(movement), ..ledger },
                )
            } else {
                result == Err::<Ledger, Refusal>(Refusal::TransferRejected(movement))
            }
        }),
{
}

proof fn lemma_perform_from_shifts(
    context: Context,
    ledger: Ledger,
    effects: Seq<EffectView>,
    i: nat,
)
    requires
        effects.len() > 0,
    ensures
        context.perform_from(ledger, effects, i + 1) == context.perform_from(
            ledger,
            effects.drop_first(),
            i,
        ),
    decreases effects.len() - i,
{
    if i + 1 < effects.len() {
        assert(effects.drop_first()[i as int] == effects[i + 1int]);
        match context.perform(ledger, effects[i + 1int]) {
            Ok(next) => {
                lemma_perform_from_shifts(context, next, effects, i + 1);
            },
            Err(_) => {},
        }
    }
}

/// Effects take place one after the other, each on the ledger that the one before has left,
/// and the first that is refused ends the call.
pub proof fn effects_take_place_in_order(context: Context, ledger: Ledger, plan: Plan)
    requires
        plan.effects.len() > 0,
    ensures
        context.execute(ledger, plan) == match context.perform(ledger, plan.effects[0]) {
            Ok(next) => context.execute(
                next,
                Plan { effects: plan.effects.drop_first(), next: plan.next },
            ),
            Err(refusal) => Outcome::Refused(refusal),
        },
{
    match context.perform(ledger, plan.effects[0]) {
        Ok(next) => {
            lemma_perform_from_shifts(context, next, plan.effects, 0);
        },
        Err(_) => {},
    }
}

/// A question is answered from the ledger as it is, or by the clock, and the call goes on with
/// the plan for that answer.
pub proof fn questions_are_answered_truly(context: Context, ledger: Ledger, plan: Plan)
    requires
        plan.effects.len() == 0,
    ensures
        context.execute(ledger, plan) == match plan.next {
            Then::IsInitialized(k) => context.execute(ledger, k(ledger.initialized)),
            Then::LoadConfig(k) => context.execute(ledger, k(ledger.config)),
            Then::LoadNextId(k) => context.execute(ledger, k(ledger.next_id)),
            Then::LoadEscrow(id, k) => if ledger.escrows.contains_key(id) {
                context.execute(ledger, k(Some(ledger.escrows[id])))
            } else {
                context.execute(ledger, k(None))
            },
            Then::LoadWallet(name, k) => if ledger.registry.contains_key(name) {
                context.execute(ledger, k(Some(ledger.registry[name])))
            } else {
                context.execute(ledger, k(None))
            },
            Then::IsRegistered(name, k) => context.execute(
                ledger,
                k(ledger.registry.contains_key(name)),
            ),
            Then::ReadClock(k) => context.execute(ledger, k(context.now)),
            Then::Return(value) => Outcome::Returned(ledger, value),
            Then::Abort(error) => Outcome::Aborted(error),
        },
{
}

/// A call that fails leaves the ledger as it was; one that succeeds leaves its own behind.
pub proof fn failure_is_undone(
    before: Ledger,
    after: Ledger,
    value: ValueView,
    error: Error,
    refusal: Refusal,
)
    ensures
        Outcome::Returned(after, value).ledger_after(before) == after,
        Outcome::Aborted(error).ledger_after(before) == before,
        Outcome::Refused(refusal).ledger_after(before) == before,
{
}

} // verus!
