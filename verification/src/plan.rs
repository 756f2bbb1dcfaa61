use crate::types::{
    Address, Config, DataKeyView, EffectView, EntryView, Error, EscrowView, EventView, Status,
    ValueView,
};
use vstd::prelude::*;

verus! {

/// What is left to do of a call: effects to perform in order, and then either a
/// question whose answer decides how the call goes on, or its end.
#[verifier::ext_equal]
pub struct Plan {
    pub effects: Seq<EffectView>,
    pub next: Then,
}

/// How a [`Plan`] goes on after its effects. A question comes with the plan for
/// each of its answers.
pub enum Then {
    /// Has the contract been initialized?
    IsInitialized(spec_fn(bool) -> Plan),
    /// What configuration is stored, if any?
    LoadConfig(spec_fn(Option<Config>) -> Plan),
    /// Which id is stored for the next escrow, if any?
    LoadNextId(spec_fn(Option<u64>) -> Plan),
    /// Which escrow is stored under the id, if any?
    LoadEscrow(u64, spec_fn(Option<EscrowView>) -> Plan),
    /// Which wallet is stored for the name, if any?
    LoadWallet(Seq<u8>, spec_fn(Option<Address>) -> Plan),
    /// Is there a wallet stored for the name?
    IsRegistered(Seq<u8>, spec_fn(bool) -> Plan),
    /// What time is it on the ledger?
    ReadClock(spec_fn(u64) -> Plan),
    /// The call succeeds with this value.
    Return(ValueView),
    /// The call fails.
    Abort(Error),
}

impl Then {
    /// The storage key that the question is about, if it is about one.
    pub open spec fn key(self) -> Option<DataKeyView> {
        match self {
            Then::LoadConfig(_) => Some(DataKeyView::Config),
            Then::LoadNextId(_) => Some(DataKeyView::NextId),
            Then::LoadEscrow(id, _) => Some(DataKeyView::Escrow(id)),
            Then::LoadWallet(name, _) => Some(DataKeyView::University(name)),
            Then::IsRegistered(name, _) => Some(DataKeyView::University(name)),
            _ => None,
        }
    }
}

/// Ask at once.
pub open spec fn ask(next: Then) -> Plan {
    Plan { effects: seq![], next }
}

/// Fail at once.
pub open spec fn abort(error: Error) -> Plan {
    Plan { effects: seq![], next: Then::Abort(error) }
}

/// Succeed at once.
pub open spec fn give(value: ValueView) -> Plan {
    Plan { effects: seq![], next: Then::Return(value) }
}

// ------------------------------------------------------------------ initialize

/// One-time setup: a contract that is initialized already refuses, any other needs
/// the operator's consent, and is then given its configuration and a counter at zero.
pub open spec fn initialize_plan(admin: Address, token: Address) -> Plan {
    ask(Then::IsInitialized(initialize_given_flag(admin, token)))
}

/// `initialize`, once it is known whether it has happened before.
pub open spec fn initialize_given_flag(admin: Address, token: Address) -> spec_fn(bool) -> Plan {
    |initialized: bool|
        if initialized {
            abort(Error::AlreadyInitialized)
        } else {
            Plan {
                effects: seq![
                    EffectView::RequireAuth(admin),
                    EffectView::MarkInitialized,
                    EffectView::Store(EntryView::Config(Config { admin, token })),
                    EffectView::Store(EntryView::NextId(0)),
                ],
                next: Then::Return(ValueView::Unit),
            }
        }
}

// -------------------------------------------------------------------- registry

/// The operator, and only the operator, with their consent, files a wallet under a name.
pub open spec fn register_university_plan(admin: Address, name: Seq<u8>, wallet: Address) -> Plan {
    ask(Then::LoadConfig(register_given_config(admin, name, wallet)))
}

/// `register_university`, once the configuration is known.
pub open spec fn register_given_config(
    admin: Address,
    name: Seq<u8>,
    wallet: Address,
) -> spec_fn(Option<Config>) -> Plan {
    |stored: Option<Config>|
        match stored {
            None => abort(Error::NotInitialized),
            Some(config) => if admin != config.admin {
                abort(Error::NotOperator)
            } else {
                Plan {
                    effects: seq![
                        EffectView::RequireAuth(admin),
                        EffectView::Store(EntryView::University(name, wallet)),
                        EffectView::Publish(EventView::UniversityRegistered { wallet, name }),
                    ],
                    next: Then::Return(ValueView::Unit),
                }
            },
        }
}

/// The operator, and only the operator, with their consent, strikes a name off.
pub open spec fn remove_university_plan(admin: Address, name: Seq<u8>) -> Plan {
    ask(Then::LoadConfig(remove_given_config(admin, name)))
}

/// `remove_university`, once the configuration is known.
pub open spec fn remove_given_config(admin: Address, name: Seq<u8>) -> spec_fn(
    Option<Config>,
) -> Plan {
    |stored: Option<Config>|
        match stored {
            None => abort(Error::NotInitialized),
            Some(config) => if admin != config.admin {
                abort(Error::NotOperator)
            } else {
                Plan {
                    effects: seq![
                        EffectView::RequireAuth(admin),
                        EffectView::Remove(DataKeyView::University(name)),
                    ],
                    next: Then::Return(ValueView::Unit),
                }
            },
        }
}

// --------------------------------------------------------------------- deposit

/// What a sponsor asks for with a deposit.
pub struct DepositView {
    pub sponsor: Address,
    pub student: Address,
    pub university: Seq<u8>,
    pub amount: i128,
    pub deadline: u64,
}

impl DepositView {
    /// The escrow that the deposit opens under an id.
    pub open spec fn escrow(self, id: u64) -> EscrowView {
        EscrowView {
            id,
            sponsor: self.sponsor,
            student: self.student,
            university: self.university,
            amount: self.amount,
            deadline: self.deadline,
            status: Status::Funded,
        }
    }
}

/// A deposit needs an initialized contract, the sponsor's consent, a positive amount,
/// a registered university and a deadline ahead. The tuition is then collected from
/// the sponsor, and a funded escrow is opened under the next id, which is returned.
pub open spec fn deposit_tuition_plan(deposit: DepositView) -> Plan {
    ask(Then::LoadConfig(deposit_given_config(deposit)))
}

/// `deposit_tuition`, once the configuration is known.
pub open spec fn deposit_given_config(deposit: DepositView) -> spec_fn(Option<Config>) -> Plan {
    |stored: Option<Config>|
        match stored {
            None => abort(Error::NotInitialized),
            Some(config) => Plan {
                effects: seq![EffectView::RequireAuth(deposit.sponsor)],
                next: if deposit.amount <= 0 {
                    Then::Abort(Error::AmountNotPositive)
                } else {
                    Then::IsRegistered(
                        deposit.university,
                        deposit_given_registered(config.token, deposit),
                    )
                },
            },
        }
}

/// `deposit_tuition`, once it is known whether the university is registered.
pub open spec fn deposit_given_registered(token: Address, deposit: DepositView) -> spec_fn(
    bool,
) -> Plan {
    |registered: bool|
        if !registered {
            abort(Error::UniversityNotRegistered)
        } else {
            ask(Then::ReadClock(deposit_given_time(token, deposit)))
        }
}

/// `deposit_tuition`, once the time is known.
pub open spec fn deposit_given_time(token: Address, deposit: DepositView) -> spec_fn(u64) -> Plan {
    |now: u64|
        if deposit.deadline <= now {
            abort(Error::DeadlineNotInFuture)
        } else {
            Plan {
                effects: seq![
                    EffectView::Collect { token, from: deposit.sponsor, amount: deposit.amount },
                ],
                next: Then::LoadNextId(deposit_given_next_id(deposit)),
            }
        }
}

/// `deposit_tuition`, once the counter is known.
pub open spec fn deposit_given_next_id(deposit: DepositView) -> spec_fn(Option<u64>) -> Plan {
    |stored: Option<u64>|
        {
            let id = next_id(stored);
            if id == u64::MAX {
                abort(Error::IdsExhausted)
            } else {
                Plan {
                    effects: seq![
                        EffectView::Store(EntryView::Escrow(id, deposit.escrow(id))),
                        EffectView::Store(EntryView::NextId((id + 1) as u64)),
                        EffectView::Publish(
                            EventView::Deposited {
                                sponsor: deposit.sponsor,
                                id,
                                amount: deposit.amount,
                            },
                        ),
                    ],
                    next: Then::Return(ValueView::Id(id)),
                }
            }
        }
}

// ------------------------------------------------------------------------- pay

/// A release needs an initialized contract, an escrow that is still funded, the consent
/// of the caller, that the caller is the escrow's student, and that its university is
/// registered at this moment. The full amount then goes to the university's wallet,
/// and the escrow is paid.
pub open spec fn pay_tuition_plan(student: Address, escrow_id: u64) -> Plan {
    ask(Then::LoadConfig(pay_given_config(student, escrow_id)))
}

/// `pay_tuition`, once the configuration is known.
pub open spec fn pay_given_config(student: Address, escrow_id: u64) -> spec_fn(
    Option<Config>,
) -> Plan {
    |stored: Option<Config>|
        match stored {
            None => abort(Error::NotInitialized),
            Some(config) => ask(
                Then::LoadEscrow(escrow_id, pay_given_escrow(config.token, student, escrow_id)),
            ),
        }
}

/// `pay_tuition`, once the escrow is known.
pub open spec fn pay_given_escrow(token: Address, student: Address, escrow_id: u64) -> spec_fn(
    Option<EscrowView>,
) -> Plan {
    |stored: Option<EscrowView>|
        match stored {
            None => abort(Error::EscrowNotFound),
            Some(escrow) => if escrow.status != Status::Funded {
                abort(Error::EscrowNotFunded)
            } else {
                Plan {
                    effects: seq![EffectView::RequireAuth(student)],
                    next: if escrow.student != student {
                        Then::Abort(Error::NotStudent)
                    } else {
                        Then::LoadWallet(
                            escrow.university,
                            pay_given_wallet(token, escrow_id, escrow),
                        )
                    },
                }
            },
        }
}

/// `pay_tuition`, once the university's wallet is known.
pub open spec fn pay_given_wallet(token: Address, escrow_id: u64, escrow: EscrowView) -> spec_fn(
    Option<Address>,
) -> Plan {
    |stored: Option<Address>|
        match stored {
            None => abort(Error::UniversityNoLongerRegistered),
            Some(university) => Plan {
                effects: seq![
                    EffectView::Release { token, to: university, amount: escrow.amount },
                    EffectView::Store(
                        EntryView::Escrow(escrow_id, escrow.with_status(Status::Paid)),
                    ),
                    EffectView::Publish(
                        EventView::Paid { university, id: escrow_id, amount: escrow.amount },
                    ),
                ],
                next: Then::Return(ValueView::Unit),
            },
        }
}

// ---------------------------------------------------------------------- refund

/// A refund needs an initialized contract, an escrow that is still funded, the consent
/// of the caller, that the caller is the escrow's sponsor, and that the time is
/// after its deadline. The full amount then goes back to the sponsor, and the escrow is refunded.
pub open spec fn refund_plan(sponsor: Address, escrow_id: u64) -> Plan {
    ask(Then::LoadConfig(refund_given_config(sponsor, escrow_id)))
}

/// `refund`, once the configuration is known.
pub open spec fn refund_given_config(sponsor: Address, escrow_id: u64) -> spec_fn(
    Option<Config>,
) -> Plan {
    |stored: Option<Config>|
        match stored {
            None => abort(Error::NotInitialized),
            Some(config) => ask(
                Then::LoadEscrow(escrow_id, refund_given_escrow(config.token, sponsor, escrow_id)),
            ),
        }
}

/// `refund`, once the escrow is known.
pub open spec fn refund_given_escrow(token: Address, sponsor: Address, escrow_id: u64) -> spec_fn(
    Option<EscrowView>,
) -> Plan {
    |stored: Option<EscrowView>|
        match stored {
            None => abort(Error::EscrowNotFound),
            Some(escrow) => if escrow.status != Status::Funded {
                abort(Error::EscrowNotFunded)
            } else {
                Plan {
                    effects: seq![EffectView::RequireAuth(sponsor)],
                    next: if escrow.sponsor != sponsor {
                        Then::Abort(Error::NotSponsor)
                    } else {
                        Then::ReadClock(refund_given_time(token, escrow_id, escrow))
                    },
                }
            },
        }
}

/// `refund`, once the time is known.
pub open spec fn refund_given_time(token: Address, escrow_id: u64, escrow: EscrowView) -> spec_fn(
    u64,
) -> Plan {
    |now: u64|
        if now <= escrow.deadline {
            abort(Error::DeadlineNotReached)
        } else {
            Plan {
                effects: seq![
                    EffectView::Release { token, to: escrow.sponsor, amount: escrow.amount },
                    EffectView::Store(
                        EntryView::Escrow(escrow_id, escrow.with_status(Status::Refunded)),
                    ),
                    EffectView::Publish(
                        EventView::Refunded {
                            sponsor: escrow.sponsor,
                            id: escrow_id,
                            amount: escrow.amount,
                        },
                    ),
                ],
                next: Then::Return(ValueView::Unit),
            }
        }
}

// ----------------------------------------------------------------------- views

/// The full escrow record.
pub open spec fn get_escrow_plan(escrow_id: u64) -> Plan {
    ask(Then::LoadEscrow(escrow_id, report_escrow()))
}

/// `get_escrow`, once the escrow is known.
pub open spec fn report_escrow() -> spec_fn(Option<EscrowView>) -> Plan {
    |stored: Option<EscrowView>|
        match stored {
            None => abort(Error::EscrowNotFound),
            Some(escrow) => give(ValueView::Escrow(escrow)),
        }
}

/// The wallet that a name stands for, if any.
pub open spec fn get_university_plan(name: Seq<u8>) -> Plan {
    ask(Then::LoadWallet(name, report_wallet()))
}

/// `get_university`, once the wallet is known.
pub open spec fn report_wallet() -> spec_fn(Option<Address>) -> Plan {
    |stored: Option<Address>| give(ValueView::Wallet(stored))
}

/// Whether a name is registered.
pub open spec fn is_registered_plan(name: Seq<u8>) -> Plan {
    ask(Then::IsRegistered(name, report_registered()))
}

/// `is_registered`, once it is known.
pub open spec fn report_registered() -> spec_fn(bool) -> Plan {
    |registered: bool| give(ValueView::Flag(registered))
}

/// The id for the next escrow; zero where none is stored.
pub open spec fn next_escrow_id_plan() -> Plan {
    ask(Then::LoadNextId(report_next_id()))
}

/// `next_escrow_id`, once the counter is known.
pub open spec fn report_next_id() -> spec_fn(Option<u64>) -> Plan {
    |stored: Option<u64>| give(ValueView::Id(next_id(stored)))
}

/// The configuration.
pub open spec fn get_config_plan() -> Plan {
    ask(Then::LoadConfig(report_config()))
}

/// `get_config`, once the configuration is known.
pub open spec fn report_config() -> spec_fn(Option<Config>) -> Plan {
    |stored: Option<Config>|
        match stored {
            None => abort(Error::NotInitialized),
            Some(config) => give(ValueView::Config(config)),
        }
}

/// The id for the next escrow by what is stored: the counter starts at zero.
pub open spec fn next_id(stored: Option<u64>) -> u64 {
    match stored {
        Some(id) => id,
        None => 0,
    }
}

} // verus!
