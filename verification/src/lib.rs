//! AralPay: programmable tuition escrow for overseas remittances.
//!
//! A sponsor deposits tuition earmarked for one student and one registered
//! university. The money stays in the contract's custody until the student
//! releases it to the school, or until the sponsor reclaims it after a deadline.
//!
//! The library holds every rule of the contract and touches no ledger itself.
//! Each entry point of [`contract::AralPayContract`] yields a [`step::Step`]:
//! the effects to perform, in order, and then the one thing the contract has to
//! learn before it can go on. Whoever embeds the library performs the effects,
//! answers the question, and resumes.
//!
//! * [`types`]: the records that the contract keeps, the effects it asks for and
//!   the errors it gives up with.
//! * [`plan`]: what each call does, as a tree of effects, questions and answers.
//! * [`step`]: a call in execution, how it is suspended and resumed.
//! * [`contract`]: the entry points.
//! * [`ledger`]: a model of the ledger that carries a call out, and what every
//!   call does to it.
//! * [`meaning`]: what views, effects and plans stand for.
//! * [`order`]: what each call asks of the ledger, in which order.
//! * [`promises`]: when each operation succeeds, what it changes, and why it fails.
//! * [`laws`]: what holds of the contract as a whole.
pub mod types;
pub mod plan;
pub mod step;
pub mod contract;
pub mod ledger;
pub mod meaning;
pub mod order;
pub mod promises;
pub mod laws;
