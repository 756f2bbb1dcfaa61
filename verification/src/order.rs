//! What each call asks of the ledger, in which order, and what it does with the answers: no
//! consent is asked for twice, no check comes late, and no effect is left out or added.
use crate::plan;
use crate::plan::{DepositView, Then};
use crate::types::{
    Address, Config, DataKeyView, EffectView, EntryView, Error, EscrowView, EventView, Status,
    ValueView,
};
use vstd::prelude::*;

verus! {

/// `initialize` asks for the flag first. If it is raised, the call fails without any effect;
/// else it asks for the admin's consent, once, and then writes flag, configuration and
/// counter.
pub proof fn initialize_goes_in_order(admin: Address, token: Address)
    ensures
        plan::initialize_plan(admin, token).effects.len() == 0,
        plan::initialize_plan(admin, token).next == Then::IsInitialized(
            plan::initialize_given_flag(admin, token),
        ),
        ({
            let repeated = plan::initialize_given_flag(admin, token)(true);
            let first = plan::initialize_given_flag(admin, token)(false);
            &&& repeated.effects.len() == 0
            &&& repeated.next == Then::Abort(Error::AlreadyInitialized)
            &&& first.effects.len() == 4
            &&& first.effects[0] == EffectView::RequireAuth(admin)
            &&& first.effects[1] == EffectView::MarkInitialized
            &&& first.effects[2] == EffectView::Store(EntryView::Config(Config { admin, token }))
            &&& first.effects[3] == EffectView::Store(EntryView::NextId(0))
            &&& first.next == Then::Return(ValueView::Unit)
        }),
{
}

/// `register_university` asks for the configuration first, and fails without any effect if
/// there is none or the caller is not the operator. Else it asks for the operator's consent,
/// once, then files the wallet, then announces it.
pub proof fn register_goes_in_order(
    admin: Address,
    name: Seq<u8>,
    wallet: Address,
    config: Config,
)
    ensures
        plan::register_university_plan(admin, name, wallet).effects.len() == 0,
        plan::register_university_plan(admin, name, wallet).next == Then::LoadConfig(
            plan::register_given_config(admin, name, wallet),
        ),
        ({
            let unset = plan::register_given_config(admin, name, wallet)(None);
            let set = plan::register_given_config(admin, name, wallet)(Some(config));
            &&& unset.effects.len() == 0
            &&& unset.next == Then::Abort(Error::NotInitialized)
            &&& config.admin != admin ==> {
                &&& set.effects.len() == 0
                &&& set.next == Then::Abort(Error::NotOperator)
            }
            &&& config.admin == admin ==> {
                &&& set.effects.len() == 3
                &&& set.effects[0] == EffectView::RequireAuth(admin)
                &&& set.effects[1] == EffectView::Store(EntryView::University(name, wallet))
                &&& set.effects[2] == EffectView::Publish(
                    EventView::UniversityRegistered { wallet, name },
                )
                &&& set.next == Then::Return(ValueView::Unit)
            }
        }),
{
}

/// `remove_university` asks for the configuration first, and fails without any effect if there
/// is none or the caller is not the operator. Else it asks for the operator's consent, once,
/// and then drops the name.
pub proof fn remove_goes_in_order(admin: Address, name: Seq<u8>, config: Config)
    ensures
        plan::remove_university_plan(admin, name).effects.len() == 0,
        plan::remove_university_plan(admin, name).next == Then::LoadConfig(
            plan::remove_given_config(admin, name),
        ),
        ({
            let unset = plan::remove_given_config(admin, name)(None);
            let set = plan::remove_given_config(admin, name)(Some(config));
            &&& unset.effects.len() == 0
            &&& unset.next == Then::Abort(Error::NotInitialized)
            &&& config.admin != admin ==> {
                &&& set.effects.len() == 0
                &&& set.next == Then::Abort(Error::NotOperator)
            }
            &&& config.admin == admin ==> {
                &&& set.effects.len() == 2
                &&& set.effects[0] == EffectView::RequireAuth(admin)
                &&& set.effects[1] == EffectView::Remove(DataKeyView::University(name))
                &&& set.next == Then::Return(ValueView::Unit)
            }
        }),
{
}

/// `deposit_tuition` asks for the configuration, then for the sponsor's consent, once, then
/// whether the university is registered, then for the time. Only when all of that stands does
/// it collect the money, and only with an id in hand does it write: the escrow, then the
/// counter, then the announcement.
pub proof fn deposit_goes_in_order(
    deposit: DepositView,
    config: Config,
    token: Address,
    now: u64,
    id: u64,
)
    ensures
        plan::deposit_tuition_plan(deposit).effects.len() == 0,
        plan::deposit_tuition_plan(deposit).next == Then::LoadConfig(
            plan::deposit_given_config(deposit),
        ),
        ({
            let unset = plan::deposit_given_config(deposit)(None);
            let set = plan::deposit_given_config(deposit)(Some(config));
            &&& unset.effects.len() == 0
            &&& unset.next == Then::Abort(Error::NotInitialized)
            &&& set.effects.len() == 1
            &&& set.effects[0] == EffectView::RequireAuth(deposit.sponsor)
            &&& deposit.amount <= 0 ==> set.next == Then::Abort(Error::AmountNotPositive)
            &&& deposit.amount > 0 ==> set.next == Then::IsRegistered(
                deposit.university,
                plan::deposit_given_registered(config.token, deposit),
            )
        }),
        ({
            let unknown = plan::deposit_given_registered(token, deposit)(false);
            let known = plan::deposit_given_registered(token, deposit)(true);
            &&& unknown.effects.len() == 0
            &&& unknown.next == Then::Abort(Error::UniversityNotRegistered)
            &&& known.effects.len() == 0
            &&& known.next == Then::ReadClock(plan::deposit_given_time(token, deposit))
        }),
        ({
            let timed = plan::deposit_given_time(token, deposit)(now);
            &&& deposit.deadline <= now ==> {
                &&& timed.effects.len() == 0
                &&& timed.next == Then::Abort(Error::DeadlineNotInFuture)
            }
            &&& deposit.deadline > now ==> {
                &&& timed.effects.len() == 1
                &&& timed.effects[0] == (EffectView::Collect {
                    token,
                    from: deposit.sponsor,
                    amount: deposit.amount,
                })
                &&& timed.next == Then::LoadNextId(plan::deposit_given_next_id(deposit))
            }
        }),
        ({
            let last = plan::deposit_given_next_id(deposit)(Some(id));
            &&& plan::deposit_given_next_id(deposit)(None) == plan::deposit_given_next_id(deposit)(
                Some(0),
            )
            &&& id == u64::MAX ==> {
                &&& last.effects.len() == 0
                &&& last.next == Then::Abort(Error::IdsExhausted)
            }
            &&& id < u64::MAX ==> {
                &&& last.effects.len() == 3
                &&& last.effects[0] == EffectView::Store(
                    EntryView::Escrow(
                        id,
                        EscrowView {
                            id,
                            sponsor: deposit.sponsor,
                            student: deposit.student,
                            university: deposit.university,
                            amount: deposit.amount,
                            deadline: deposit.deadline,
                            status: Status::Funded,
                        },
                    ),
                )
                &&& last.effects[1] == EffectView::Store(EntryView::NextId((id + 1) as u64))
                &&& last.effects[2] == EffectView::Publish(
                    EventView::Deposited { sponsor: deposit.sponsor, id, amount: deposit.amount },
                )
                &&& last.next == Then::Return(ValueView::Id(id))
            }
        }),
{
}

/// `pay_tuition` asks for the configuration, then for the escrow, then for the caller's
/// consent, once, then for the wallet of the escrow's university. Only when all of that
/// stands does it release the money, then mark the escrow paid, then announce it.
pub proof fn pay_goes_in_order(
    student: Address,
    escrow_id: u64,
    config: Config,
    token: Address,
    escrow: EscrowView,
    wallet: Address,
)
    ensures
        plan::pay_tuition_plan(student, escrow_id).effects.len() == 0,
        plan::pay_tuition_plan(student, escrow_id).next == Then::LoadConfig(
            plan::pay_given_config(student, escrow_id),
        ),
        ({
            let unset = plan::pay_given_config(student, escrow_id)(None);
            let set = plan::pay_given_config(student, escrow_id)(Some(config));
            &&& unset.effects.len() == 0
            &&& unset.next == Then::Abort(Error::NotInitialized)
            &&& set.effects.len() == 0
            &&& set.next == Then::LoadEscrow(
                escrow_id,
                plan::pay_given_escrow(config.token, student, escrow_id),
            )
        }),
        ({
            let missing = plan::pay_given_escrow(token, student, escrow_id)(None);
            let found = plan::pay_given_escrow(token, student, escrow_id)(Some(escrow));
            &&& missing.effects.len() == 0
            &&& missing.next == Then::Abort(Error::EscrowNotFound)
            &&& escrow.status != Status::Funded ==> {
                &&& found.effects.len() == 0
                &&& found.next == Then::Abort(Error::EscrowNotFunded)
            }
            &&& escrow.status == Status::Funded ==> {
                &&& found.effects.len() == 1
                &&& found.effects[0] == EffectView::RequireAuth(student)
                &&& escrow.student != student ==> found.next == Then::Abort(Error::NotStudent)
                &&& escrow.student == student ==> found.next == Then::LoadWallet(
                    escrow.university,
                    plan::pay_given_wallet(token, escrow_id, escrow),
                )
            }
        }),
        ({
            let gone = plan::pay_given_wallet(token, escrow_id, escrow)(None);
            let last = plan::pay_given_wallet(token, escrow_id, escrow)(Some(wallet));
            &&& gone.effects.len() == 0
            &&& gone.next == Then::Abort(Error::UniversityNoLongerRegistered)
            &&& last.effects.len() == 3
            &&& last.effects[0] == (EffectView::Release {
                token,
                to: wallet,
                amount: escrow.amount,
            })
            &&& last.effects[1] == EffectView::Store(
                EntryView::Escrow(
                    escrow_id,
                    EscrowView {
                        id: escrow.id,
                        sponsor: escrow.sponsor,
                        student: escrow.student,
                        university: escrow.university,
                        amount: escrow.amount,
                        deadline: escrow.deadline,
                        status: Status::Paid,
                    },
                ),
            )
            &&& last.effects[2] == EffectView::Publish(
                EventView::Paid { university: wallet, id: escrow_id, amount: escrow.amount },
            )
            &&& last.next == Then::Return(ValueView::Unit)
        }),
{
}

/// `refund` asks for the configuration, then for the escrow, then for the caller's consent,
/// once, then for the time. Only when all of that stands does it release the money to the
/// sponsor, then mark the escrow refunded, then announce it.
pub proof fn refund_goes_in_order(
    sponsor: Address,
    escrow_id: u64,
    config: Config,
    token: Address,
    escrow: EscrowView,
    now: u64,
)
    ensures
        plan::refund_plan(sponsor, escrow_id).effects.len() == 0,
        plan::refund_plan(sponsor, escrow_id).next == Then::LoadConfig(
            plan::refund_given_config(sponsor, escrow_id),
        ),
        ({
            let unset = plan::refund_given_config(sponsor, escrow_id)(None);
            let set = plan::refund_given_config(sponsor, escrow_id)(Some(config));
            &&& unset.effects.len() == 0
            &&& unset.next == Then::Abort(Error::NotInitialized)
            &&& set.effects.len() == 0
            &&& set.next == Then::LoadEscrow(
                escrow_id,
                plan::refund_given_escrow(config.token, sponsor, escrow_id),
            )
        }),
        ({
            let missing = plan::refund_given_escrow(token, sponsor, escrow_id)(None);
            let found = plan::refund_given_escrow(token, sponsor, escrow_id)(Some(escrow));
            &&& missing.effects.len() == 0
            &&& missing.next == Then::Abort(Error::EscrowNotFound)
            &&& escrow.status != Status::Funded ==> {
                &&& found.effects.len() == 0
                &&& found.next == Then::Abort(Error::EscrowNotFunded)
            }
            &&& escrow.status == Status::Funded ==> {
                &&& found.effects.len() == 1
                &&& found.effects[0] == EffectView::RequireAuth(sponsor)
                &&& escrow.sponsor != sponsor ==> found.next == Then::Abort(Error::NotSponsor)
                &&& escrow.sponsor == sponsor ==> found.next == Then::ReadClock(
                    plan::refund_given_time(token, escrow_id, escrow),
                )
            }
        }),
        ({
            let last = plan::refund_given_time(token, escrow_id, escrow)(now);
            &&& now <= escrow.deadline ==> {
                &&& last.effects.len() == 0
                &&& last.next == Then::Abort(Error::DeadlineNotReached)
            }
            &&& now > escrow.deadline ==> {
                &&& last.effects.len() == 3
                &&& last.effects[0] == (EffectView::Release {
                    token,
                    to: escrow.sponsor,
                    amount: escrow.amount,
                })
                &&& last.effects[1] == EffectView::Store(
                    EntryView::Escrow(
                        escrow_id,
                        EscrowView {
                            id: escrow.id,
                            sponsor: escrow.sponsor,
                            student: escrow.student,
                            university: escrow.university,
                            amount: escrow.amount,
                            deadline: escrow.deadline,
                            status: Status::Refunded,
                        },
                    ),
                )
                &&& last.effects[2] == EffectView::Publish(
                    EventView::Refunded {
                        sponsor: escrow.sponsor,
                        id: escrow_id,
                        amount: escrow.amount,
                    },
                )
                &&& last.next == Then::Return(ValueView::Unit)
            }
        }),
{
}

/// Each view asks one question, about just what it was asked for, has no effect, and returns
/// the answer as it is.
pub proof fn views_ask_one_question(
    escrow_id: u64,
    name: Seq<u8>,
    escrow: EscrowView,
    wallet: Option<Address>,
    registered: bool,
    id: u64,
    config: Config,
)
    ensures
        plan::get_escrow_plan(escrow_id).effects.len() == 0,
        plan::get_escrow_plan(escrow_id).next == Then::LoadEscrow(escrow_id, plan::report_escrow()),
        plan::report_escrow()(Some(escrow)).effects.len() == 0,
        plan::report_escrow()(Some(escrow)).next == Then::Return(ValueView::Escrow(escrow)),
        plan::report_escrow()(None).effects.len() == 0,
        plan::report_escrow()(None).next == Then::Abort(Error::EscrowNotFound),
        plan::get_university_plan(name).effects.len() == 0,
        plan::get_university_plan(name).next == Then::LoadWallet(name, plan::report_wallet()),
        plan::report_wallet()(wallet).effects.len() == 0,
        plan::report_wallet()(wallet).next == Then::Return(ValueView::Wallet(wallet)),
        plan::is_registered_plan(name).effects.len() == 0,
        plan::is_registered_plan(name).next == Then::IsRegistered(name, plan::report_registered()),
        plan::report_registered()(registered).effects.len() == 0,
        plan::report_registered()(registered).next == Then::Return(ValueView::Flag(registered)),
        plan::next_escrow_id_plan().effects.len() == 0,
        plan::next_escrow_id_plan().next == Then::LoadNextId(plan::report_next_id()),
        plan::report_next_id()(Some(id)).effects.len() == 0,
        plan::report_next_id()(Some(id)).next == Then::Return(ValueView::Id(id)),
        plan::report_next_id()(None).effects.len() == 0,
        plan::report_next_id()(None).next == Then::Return(ValueView::Id(0)),
        plan::get_config_plan().effects.len() == 0,
        plan::get_config_plan().next == Then::LoadConfig(plan::report_config()),
        plan::report_config()(Some(config)).effects.len() == 0,
        plan::report_config()(Some(config)).next == Then::Return(ValueView::Config(config)),
        plan::report_config()(None).effects.len() == 0,
        plan::report_config()(None).next == Then::Abort(Error::NotInitialized),
{
}

} // verus!
