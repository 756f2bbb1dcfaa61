use vstd::prelude::*;

verus! {

/// An address on the ledger in its textual form: 56 ASCII characters, which start
/// with `G` for an account and with `C` for a contract.
#[derive(Clone, Copy, Debug, PartialEq, Eq)]
pub struct Address {
    pub strkey: [u8; 56],
}

impl Address {
    /// Whether the two addresses are the same.
    pub fn same_as(&self, other: &Address) -> (same: bool)
        ensures
            same == (*self == *other),
    {
        let mut i: usize = 0;
        while i < 56
            invariant
                0 <= i <= 56,
                forall|j: int| 0 <= j < i ==> self.strkey[j] == other.strkey[j],
            decreases 56 - i,
        {
            if self.strkey[i] != other.strkey[i] {
                return false;
            }
            i += 1;
        }
        assert(self.strkey =~= other.strkey);
        true
    }
}

/// Global contract configuration, fixed by `initialize`.
#[derive(Clone, Copy, Debug, PartialEq, Eq)]
pub struct Config {
    /// Operator that curates the university registry (and nothing else).
    pub admin: Address,
    /// The single asset all escrows are denominated in.
    pub token: Address,
}

/// Lifecycle of a single tuition escrow.
#[derive(Clone, Copy, Debug, PartialEq, Eq, Structural)]
pub enum Status {
    /// Funded by the sponsor; awaiting the student's release or a refund.
    Funded,
    /// Released to the university.
    Paid,
    /// Returned to the sponsor after the deadline.
    Refunded,
}

/// A single tuition escrow: who funded it, who may release it, where it can go.
#[derive(Debug, PartialEq, Eq)]
pub struct Escrow {
    /// Sequential escrow id.
    pub id: u64,
    /// The parent who funded the escrow and may refund it after the deadline.
    pub sponsor: Address,
    /// The only party allowed to release the funds to the school.
    pub student: Address,
    /// Registered university name, as the bytes of a ledger string (which need not
    /// be UTF-8); resolved to a wallet at pay time.
    pub university: Vec<u8>,
    /// Amount held, in the token's base units.
    pub amount: i128,
    /// Unix time after which an unreleased escrow may be refunded to the sponsor.
    pub deadline: u64,
    /// Current lifecycle state.
    pub status: Status,
}

/// What an [`Escrow`] records.
pub struct EscrowView {
    pub id: u64,
    pub sponsor: Address,
    pub student: Address,
    pub university: Seq<u8>,
    pub amount: i128,
    pub deadline: u64,
    pub status: Status,
}

impl View for Escrow {
    type V = EscrowView;

    open spec fn view(&self) -> EscrowView {
        EscrowView {
            id: self.id,
            sponsor: self.sponsor,
            student: self.student,
            university: self.university@,
            amount: self.amount,
            deadline: self.deadline,
            status: self.status,
        }
    }
}

impl Clone for Escrow {
    fn clone(&self) -> (copy: Escrow)
        ensures
            copy@ == self@,
    {
        Escrow {
            id: self.id,
            sponsor: self.sponsor,
            student: self.student,
            university: copy_name(&self.university),
            amount: self.amount,
            deadline: self.deadline,
            status: self.status,
        }
    }
}

impl EscrowView {
    /// The same escrow in another state of its life.
    pub open spec fn with_status(self, status: Status) -> EscrowView {
        EscrowView { status, ..self }
    }
}

/// An escrow that may be absent, record by record.
pub open spec fn escrow_option_view(escrow: Option<Escrow>) -> Option<EscrowView> {
    match escrow {
        Some(e) => Some(e@),
        None => None,
    }
}

/// Where an entry is kept.
#[derive(Clone, Copy, Debug, PartialEq, Eq, Structural)]
pub enum Durability {
    /// With the contract itself.
    Instance,
    /// As a ledger entry of its own.
    Persistent,
}

/// Storage keys.
#[derive(Debug, PartialEq, Eq)]
pub enum DataKey {
    /// The [`Config`] (instance).
    Config,
    /// The id assigned to the next escrow (instance).
    NextId,
    /// An [`Escrow`] by id (persistent).
    Escrow(u64),
    /// The wallet of a university by name (persistent).
    University(Vec<u8>),
}

/// What a [`DataKey`] points at.
pub enum DataKeyView {
    Config,
    NextId,
    Escrow(u64),
    University(Seq<u8>),
}

impl View for DataKey {
    type V = DataKeyView;

    open spec fn view(&self) -> DataKeyView {
        match self {
            DataKey::Config => DataKeyView::Config,
            DataKey::NextId => DataKeyView::NextId,
            DataKey::Escrow(id) => DataKeyView::Escrow(*id),
            DataKey::University(name) => DataKeyView::University(name@),
        }
    }
}

impl Clone for DataKey {
    fn clone(&self) -> (copy: DataKey)
        ensures
            copy@ == self@,
    {
        match self {
            DataKey::Config => DataKey::Config,
            DataKey::NextId => DataKey::NextId,
            DataKey::Escrow(id) => DataKey::Escrow(*id),
            DataKey::University(name) => DataKey::University(copy_name(name)),
        }
    }
}

impl DataKeyView {
    /// Configuration and counter live with the contract, everything else on its own.
    pub open spec fn durability(self) -> Durability {
        match self {
            DataKeyView::Config | DataKeyView::NextId => Durability::Instance,
            DataKeyView::Escrow(_) | DataKeyView::University(_) => Durability::Persistent,
        }
    }
}

impl DataKey {
    /// Where the entry under this key is kept.
    pub fn durability(&self) -> (durability: Durability)
        ensures
            durability == self@.durability(),
    {
        match self {
            DataKey::Config | DataKey::NextId => Durability::Instance,
            DataKey::Escrow(_) | DataKey::University(_) => Durability::Persistent,
        }
    }
}

/// A copy of a university name.
pub fn copy_name(name: &Vec<u8>) -> (copy: Vec<u8>)
    ensures
        copy@ == name@,
{
    let copy = name.clone();
    assert(copy@ =~= name@);
    copy
}

/// A value together with the key it is stored under.
#[derive(Debug, PartialEq, Eq)]
pub enum Entry {
    Config(Config),
    NextId(u64),
    Escrow(u64, Escrow),
    University(Vec<u8>, Address),
}

/// What an [`Entry`] stores.
pub enum EntryView {
    Config(Config),
    NextId(u64),
    Escrow(u64, EscrowView),
    University(Seq<u8>, Address),
}

impl View for Entry {
    type V = EntryView;

    open spec fn view(&self) -> EntryView {
        match self {
            Entry::Config(config) => EntryView::Config(*config),
            Entry::NextId(id) => EntryView::NextId(*id),
            Entry::Escrow(id, escrow) => EntryView::Escrow(*id, escrow@),
            Entry::University(name, wallet) => EntryView::University(name@, *wallet),
        }
    }
}

impl EntryView {
    pub open spec fn key(self) -> DataKeyView {
        match self {
            EntryView::Config(_) => DataKeyView::Config,
            EntryView::NextId(_) => DataKeyView::NextId,
            EntryView::Escrow(id, _) => DataKeyView::Escrow(id),
            EntryView::University(name, _) => DataKeyView::University(name),
        }
    }
}

impl Entry {
    /// The key that the entry is stored under.
    pub fn key(&self) -> (key: DataKey)
        ensures
            key@ == self@.key(),
    {
        match self {
            Entry::Config(_) => DataKey::Config,
            Entry::NextId(_) => DataKey::NextId,
            Entry::Escrow(id, _) => DataKey::Escrow(*id),
            Entry::University(name, _) => DataKey::University(copy_name(name)),
        }
    }
}

/// A notification to the outside.
#[derive(Debug, PartialEq, Eq)]
pub enum Event {
    UniversityRegistered { wallet: Address, name: Vec<u8> },
    Deposited { sponsor: Address, id: u64, amount: i128 },
    Paid { university: Address, id: u64, amount: i128 },
    Refunded { sponsor: Address, id: u64, amount: i128 },
}

/// What an [`Event`] tells.
pub enum EventView {
    UniversityRegistered { wallet: Address, name: Seq<u8> },
    Deposited { sponsor: Address, id: u64, amount: i128 },
    Paid { university: Address, id: u64, amount: i128 },
    Refunded { sponsor: Address, id: u64, amount: i128 },
}

impl View for Event {
    type V = EventView;

    open spec fn view(&self) -> EventView {
        match *self {
            Event::UniversityRegistered { wallet, name } => EventView::UniversityRegistered {
                wallet,
                name: name@,
            },
            Event::Deposited { sponsor, id, amount } => EventView::Deposited {
                sponsor,
                id,
                amount,
            },
            Event::Paid { university, id, amount } => EventView::Paid { university, id, amount },
            Event::Refunded { sponsor, id, amount } => EventView::Refunded { sponsor, id, amount },
        }
    }
}

impl EventView {
    /// The word that the event is published under.
    pub open spec fn topic(self) -> Seq<char> {
        match self {
            EventView::UniversityRegistered { .. } => "uni_reg"@,
            EventView::Deposited { .. } => "deposit"@,
            EventView::Paid { .. } => "paid"@,
            EventView::Refunded { .. } => "refund"@,
        }
    }

    /// The address that the event is published under, next to its topic.
    pub open spec fn party(self) -> Address {
        match self {
            EventView::UniversityRegistered { wallet, .. } => wallet,
            EventView::Deposited { sponsor, .. } => sponsor,
            EventView::Paid { university, .. } => university,
            EventView::Refunded { sponsor, .. } => sponsor,
        }
    }
}

impl Event {
    /// The word that the event is published under.
    pub fn topic(&self) -> (topic: &'static str)
        ensures
            topic@ == self@.topic(),
    {
        match self {
            Event::UniversityRegistered { .. } => "uni_reg",
            Event::Deposited { .. } => "deposit",
            Event::Paid { .. } => "paid",
            Event::Refunded { .. } => "refund",
        }
    }

    /// The address that the event is published under, next to its topic.
    pub fn party(&self) -> (party: Address)
        ensures
            party == self@.party(),
    {
        match self {
            Event::UniversityRegistered { wallet, .. } => *wallet,
            Event::Deposited { sponsor, .. } => *sponsor,
            Event::Paid { university, .. } => *university,
            Event::Refunded { sponsor, .. } => *sponsor,
        }
    }
}

/// Something that the ledger has to do on the contract's behalf. An effect either
/// happens or ends the whole call.
#[derive(Debug, PartialEq, Eq)]
pub enum Effect {
    /// Insist that this party has authorized the call.
    RequireAuth(Address),
    /// Raise the flag that blocks a second `initialize`.
    MarkInitialized,
    /// Write an entry, over whatever was under its key.
    Store(Entry),
    /// Drop whatever is under the key.
    Remove(DataKey),
    /// Move tokens from a party into the contract's custody.
    Collect { token: Address, from: Address, amount: i128 },
    /// Move tokens out of the contract's custody to a party.
    Release { token: Address, to: Address, amount: i128 },
    /// Publish an event.
    Publish(Event),
}

/// What an [`Effect`] does.
pub enum EffectView {
    RequireAuth(Address),
    MarkInitialized,
    Store(EntryView),
    Remove(DataKeyView),
    Collect { token: Address, from: Address, amount: i128 },
    Release { token: Address, to: Address, amount: i128 },
    Publish(EventView),
}

impl View for Effect {
    type V = EffectView;

    open spec fn view(&self) -> EffectView {
        match *self {
            Effect::RequireAuth(party) => EffectView::RequireAuth(party),
            Effect::MarkInitialized => EffectView::MarkInitialized,
            Effect::Store(entry) => EffectView::Store(entry@),
            Effect::Remove(key) => EffectView::Remove(key@),
            Effect::Collect { token, from, amount } => EffectView::Collect { token, from, amount },
            Effect::Release { token, to, amount } => EffectView::Release { token, to, amount },
            Effect::Publish(event) => EffectView::Publish(event@),
        }
    }
}

/// What an entry point returns.
#[derive(Debug, PartialEq, Eq)]
pub enum Value {
    Unit,
    Id(u64),
    Flag(bool),
    Config(Config),
    Escrow(Escrow),
    Wallet(Option<Address>),
}

/// What a [`Value`] holds.
pub enum ValueView {
    Unit,
    Id(u64),
    Flag(bool),
    Config(Config),
    Escrow(EscrowView),
    Wallet(Option<Address>),
}

impl View for Value {
    type V = ValueView;

    open spec fn view(&self) -> ValueView {
        match *self {
            Value::Unit => ValueView::Unit,
            Value::Id(id) => ValueView::Id(id),
            Value::Flag(flag) => ValueView::Flag(flag),
            Value::Config(config) => ValueView::Config(config),
            Value::Escrow(escrow) => ValueView::Escrow(escrow@),
            Value::Wallet(wallet) => ValueView::Wallet(wallet),
        }
    }
}

/// Why the contract gives a call up. Everything the call did is undone with it.
#[derive(Clone, Copy, Debug, PartialEq, Eq, Structural)]
pub enum Error {
    AlreadyInitialized,
    NotInitialized,
    NotOperator,
    AmountNotPositive,
    UniversityNotRegistered,
    DeadlineNotInFuture,
    IdsExhausted,
    EscrowNotFound,
    EscrowNotFunded,
    NotStudent,
    UniversityNoLongerRegistered,
    NotSponsor,
    DeadlineNotReached,
}

impl Error {
    /// The text that each error is reported with.
    pub open spec fn text(self) -> Seq<char> {
        match self {
            Error::AlreadyInitialized => "already initialized"@,
            Error::NotInitialized => "contract not initialized"@,
            Error::NotOperator => "only the operator can manage the registry"@,
            Error::AmountNotPositive => "amount must be positive"@,
            Error::UniversityNotRegistered => "university not registered"@,
            Error::DeadlineNotInFuture => "deadline must be in the future"@,
            Error::IdsExhausted => "attempt to add with overflow"@,
            Error::EscrowNotFound => "escrow does not exist"@,
            Error::EscrowNotFunded => "escrow is not in a funded state"@,
            Error::NotStudent => "only the student can release this escrow"@,
            Error::UniversityNoLongerRegistered => "university no longer registered"@,
            Error::NotSponsor => "only the sponsor can refund this escrow"@,
            Error::DeadlineNotReached => "deadline not reached"@,
        }
    }

    /// The text that the error is reported with.
    pub fn message(&self) -> (message: &'static str)
        ensures
            message@ == self.text(),
    {
        match self {
            Error::AlreadyInitialized => "already initialized",
            Error::NotInitialized => "contract not initialized",
            Error::NotOperator => "only the operator can manage the registry",
            Error::AmountNotPositive => "amount must be positive",
            Error::UniversityNotRegistered => "university not registered",
            Error::DeadlineNotInFuture => "deadline must be in the future",
            Error::IdsExhausted => "attempt to add with overflow",
            Error::EscrowNotFound => "escrow does not exist",
            Error::EscrowNotFunded => "escrow is not in a funded state",
            Error::NotStudent => "only the student can release this escrow",
            Error::UniversityNoLongerRegistered => "university no longer registered",
            Error::NotSponsor => "only the sponsor can refund this escrow",
            Error::DeadlineNotReached => "deadline not reached",
        }
    }
}

} // verus!
