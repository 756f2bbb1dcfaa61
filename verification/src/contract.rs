use crate::ledger;
use crate::ledger::Operation;
use crate::plan;
use crate::plan::DepositView;
use crate::step::{
    Await, Deposit, OnConfig, OnEscrow, OnInitialized, OnNextId, OnRegistered, OnWallet, Step,
};
use crate::types::{Address, Config, Error, Escrow};
use vstd::prelude::*;

verus! {

/// The tuition escrow contract. Each entry point starts a call, which its
/// [`Step`]s then carry through.
pub struct AralPayContract;

impl AralPayContract {
    /// One-time setup. Sets the registry operator and the escrow asset.
    pub fn initialize(admin: Address, token: Address) -> (step: Step)
        ensures
            step@ == plan::initialize_plan(admin, token),
            ledger::carries_out(step@, (Operation::Initialize { admin, token })),
    {
        proof {
            ledger::plan_carries_out_its_operation(Operation::Initialize { admin, token });
        }
        Step::ask(Await::IsInitialized(OnInitialized { admin, token }))
    }

    // ------------------------- Registry (operator) -------------------------

    /// Operator adds (or updates) a verified university wallet. Only escrows
    /// pointing at a registered name can ever be funded or paid, so funds can
    /// only ever reach a vetted school.
    pub fn register_university(admin: Address, name: Vec<u8>, wallet: Address) -> (step: Step)
        ensures
            step@ == plan::register_university_plan(admin, name@, wallet),
            ledger::carries_out(
                step@,
                (Operation::RegisterUniversity { admin, name: name@, wallet }),
            ),
    {
        proof {
            ledger::plan_carries_out_its_operation(
                Operation::RegisterUniversity { admin, name: name@, wallet },
            );
        }
        Step::ask(Await::LoadConfig(OnConfig::Register { admin, name, wallet }))
    }

    /// Operator removes a university from the registry.
    pub fn remove_university(admin: Address, name: Vec<u8>) -> (step: Step)
        ensures
            step@ == plan::remove_university_plan(admin, name@),
            ledger::carries_out(step@, (Operation::RemoveUniversity { admin, name: name@ })),
    {
        proof {
            ledger::plan_carries_out_its_operation(
                Operation::RemoveUniversity { admin, name: name@ },
            );
        }
        Step::ask(Await::LoadConfig(OnConfig::Remove { admin, name }))
    }

    // ----------------------------- Escrow flow -----------------------------

    /// The sponsor deposits tuition into a new escrow earmarked for `student` and
    /// `university`. The call returns the new escrow's id.
    pub fn deposit_tuition(
        sponsor: Address,
        student: Address,
        university: Vec<u8>,
        amount: i128,
        deadline: u64,
    ) -> (step: Step)
        ensures
            step@ == plan::deposit_tuition_plan(
                (DepositView { sponsor, student, university: university@, amount, deadline }),
            ),
            ledger::carries_out(
                step@,
                Operation::DepositTuition(
                    (DepositView { sponsor, student, university: university@, amount, deadline }),
                ),
            ),
    {
        proof {
            ledger::plan_carries_out_its_operation(
                Operation::DepositTuition(
                    DepositView { sponsor, student, university: university@, amount, deadline },
                ),
            );
        }
        let deposit = Deposit { sponsor, student, university, amount, deadline };
        Step::ask(Await::LoadConfig(OnConfig::Deposit(deposit)))
    }

    /// The student releases their escrow: the full amount goes straight to the wallet
    /// that the registry holds for the university at this moment.
    pub fn pay_tuition(student: Address, escrow_id: u64) -> (step: Step)
        ensures
            step@ == plan::pay_tuition_plan(student, escrow_id),
            ledger::carries_out(step@, (Operation::PayTuition { student, escrow_id })),
    {
        proof {
            ledger::plan_carries_out_its_operation(Operation::PayTuition { student, escrow_id });
        }
        Step::ask(Await::LoadConfig(OnConfig::Pay { student, escrow_id }))
    }

    /// After the deadline, the sponsor reclaims an escrow that the student
    /// never released.
    pub fn refund(sponsor: Address, escrow_id: u64) -> (step: Step)
        ensures
            step@ == plan::refund_plan(sponsor, escrow_id),
            ledger::carries_out(step@, (Operation::Refund { sponsor, escrow_id })),
    {
        proof {
            ledger::plan_carries_out_its_operation(Operation::Refund { sponsor, escrow_id });
        }
        Step::ask(Await::LoadConfig(OnConfig::Refund { sponsor, escrow_id }))
    }

    // -------------------------------- Views --------------------------------

    /// Full escrow record.
    pub fn get_escrow(escrow_id: u64) -> (step: Step)
        ensures
            step@ == plan::get_escrow_plan(escrow_id),
            ledger::carries_out(step@, (Operation::GetEscrow { escrow_id })),
    {
        proof {
            ledger::plan_carries_out_its_operation(Operation::GetEscrow { escrow_id });
        }
        Step::ask(Await::LoadEscrow(escrow_id, OnEscrow::Report))
    }

    /// The wallet a university name resolves to, if registered.
    pub fn get_university(name: Vec<u8>) -> (step: Step)
        ensures
            step@ == plan::get_university_plan(name@),
            ledger::carries_out(step@, (Operation::GetUniversity { name: name@ })),
    {
        proof {
            ledger::plan_carries_out_its_operation(Operation::GetUniversity { name: name@ });
        }
        Step::ask(Await::LoadWallet(name, OnWallet::Report))
    }

    /// Whether a university name is in the registry.
    pub fn is_registered(name: Vec<u8>) -> (step: Step)
        ensures
            step@ == plan::is_registered_plan(name@),
            ledger::carries_out(step@, (Operation::IsRegistered { name: name@ })),
    {
        proof {
            ledger::plan_carries_out_its_operation(Operation::IsRegistered { name: name@ });
        }
        Step::ask(Await::IsRegistered(name, OnRegistered::Report))
    }

    /// The id that will be assigned to the next escrow (the number created so far).
    pub fn next_escrow_id() -> (step: Step)
        ensures
            step@ == plan::next_escrow_id_plan(),
            ledger::carries_out(step@, (Operation::NextEscrowId)),
    {
        proof {
            ledger::plan_carries_out_its_operation(Operation::NextEscrowId);
        }
        Step::ask(Await::LoadNextId(OnNextId::Report))
    }

    /// Contract configuration.
    pub fn get_config() -> (step: Step)
        ensures
            step@ == plan::get_config_plan(),
            ledger::carries_out(step@, (Operation::GetConfig)),
    {
        proof {
            ledger::plan_carries_out_its_operation(Operation::GetConfig);
        }
        Step::ask(Await::LoadConfig(OnConfig::Report))
    }

    // ------------------------------ Internals ------------------------------

    /// The stored configuration; a contract without one has not been initialized.
    pub fn load_config(stored: Option<Config>) -> (config: Result<Config, Error>)
        ensures
            config == match stored {
                Some(c) => Ok::<Config, Error>(c),
                None => Err(Error::NotInitialized),
            },
    {
        match stored {
            Some(config) => Ok(config),
            None => Err(Error::NotInitialized),
        }
    }

    /// The stored id for the next escrow; the counter starts at zero.
    pub fn read_next_id(stored: Option<u64>) -> (id: u64)
        ensures
            id == plan::next_id(stored),
    {
        match stored {
            Some(id) => id,
            None => 0,
        }
    }

    /// The stored escrow, which has to exist.
    pub fn load_escrow(stored: Option<Escrow>) -> (escrow: Result<Escrow, Error>)
        ensures
            escrow == match stored {
                Some(e) => Ok::<Escrow, Error>(e),
                None => Err(Error::EscrowNotFound),
            },
    {
        match stored {
            Some(escrow) => Ok(escrow),
            None => Err(Error::EscrowNotFound),
        }
    }
}

} // verus!
