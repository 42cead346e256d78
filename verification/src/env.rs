use std::collections::HashMap;

use vstd::prelude::*;

use crate::types::{Address, Event, EventView, Invoice, InvoiceView};

verus! {

broadcast use vstd::std_specs::hash::group_hash_axioms;

/// The storage keys of the invoice contract.
#[derive(Clone, Copy, PartialEq, Eq, Structural, Debug)]
pub enum DataKey {
    /// Persistent: the invoice with this id.
    Invoice(u64),
    /// Instance: the id that the next invoice gets.
    NextId,
    /// Instance: the address of the admin.
    Admin,
    /// Instance: the address of the access control contract.
    AccessControl,
    /// Instance: the version of the storage schema.
    MigrationVersion,
}

/// The storage key of the reentrancy lock, in instance storage.
///
/// The lock lasts for one transaction at most: [`end_transaction`](crate::end_transaction) clears
/// it. The ledger itself keeps instance storage from one transaction to the next.
#[derive(Clone, Copy, PartialEq, Eq, Structural, Debug)]
pub enum GuardKey {
    /// Set while the lock is held.
    Lock,
}

/// What a call sees of the ledger and what it leaves there: the storage of one contract instance,
/// one slot for each key, the time of the ledger, who has authorized the call, and the logs of the
/// writes under a [`DataKey`] and of the published events. Changes of the lock are not logged: its
/// slot alone tells whether it is held.
///
/// Whoever runs a call fills the slots that it reads and asks the ledger for the authorization.
/// Afterwards they carry out the logged writes, store or remove the lock as its slot says, and
/// publish the logged events; if the call was refused, they do nothing of this.
#[derive(Debug)]
pub struct Env {
    pub admin: Option<Address>,
    pub access_control: Option<Address>,
    pub next_id: Option<u64>,
    pub migration_version: Option<u32>,
    pub lock: Option<bool>,
    pub invoices: HashMap<u64, Invoice>,
    /// The time of the ledger, in seconds.
    pub timestamp: u64,
    /// The addresses that have authorized the call.
    pub authorized: Vec<Address>,
    /// The keys that were written, in the order of the writes; the lock is not among them.
    pub writes: Vec<DataKey>,
    /// The events that were published, in order.
    pub events: Vec<Event>,
}

/// The mathematical content of an [`Env`].
#[verifier::ext_equal]
pub struct EnvView {
    pub admin: Option<Seq<char>>,
    pub access_control: Option<Seq<char>>,
    pub next_id: Option<u64>,
    pub migration_version: Option<u32>,
    pub lock: Option<bool>,
    pub invoices: Map<u64, InvoiceView>,
    pub timestamp: u64,
    pub authorized: Seq<Seq<char>>,
    pub writes: Seq<DataKey>,
    pub events: Seq<EventView>,
}

/// The text of an address that may be missing.
pub open spec fn opt_view(address: Option<Address>) -> Option<Seq<char>> {
    match address {
        Some(a) => Some(a@),
        None => None,
    }
}

impl View for Env {
    type V = EnvView;

    open spec fn view(&self) -> EnvView {
        EnvView {
            admin: opt_view(self.admin),
            access_control: opt_view(self.access_control),
            next_id: self.next_id,
            migration_version: self.migration_version,
            lock: self.lock,
            invoices: self.invoices@.map_values(|invoice: Invoice| invoice@),
            timestamp: self.timestamp,
            authorized: self.authorized@.map_values(|address: Address| address@),
            writes: self.writes@,
            events: self.events@.map_values(|event: Event| event@),
        }
    }
}

impl EnvView {
    /// The environment before any call: nothing stored, nobody's authorization, time zero.
    pub open spec fn empty() -> EnvView {
        EnvView {
            admin: None,
            access_control: None,
            next_id: None,
            migration_version: None,
            lock: None,
            invoices: Map::empty(),
            timestamp: 0,
            authorized: Seq::empty(),
            writes: Seq::empty(),
            events: Seq::empty(),
        }
    }

    /// Whether something is stored under the key.
    pub open spec fn has(self, key: DataKey) -> bool {
        match key {
            DataKey::Invoice(id) => self.invoices.contains_key(id),
            DataKey::NextId => self.next_id is Some,
            DataKey::Admin => self.admin is Some,
            DataKey::AccessControl => self.access_control is Some,
            DataKey::MigrationVersion => self.migration_version is Some,
        }
    }

    /// Whether the address has authorized the call.
    pub open spec fn is_authorized(self, address: Seq<char>) -> bool {
        self.authorized.contains(address)
    }

    /// The environment after an admin was written.
    pub open spec fn put_admin(self, admin: Seq<char>) -> EnvView {
        EnvView { admin: Some(admin), writes: self.writes.push(DataKey::Admin), ..self }
    }

    /// The environment after an access control contract was written.
    pub open spec fn put_access_control(self, address: Seq<char>) -> EnvView {
        EnvView {
            access_control: Some(address),
            writes: self.writes.push(DataKey::AccessControl),
            ..self
        }
    }

    /// The environment after a next id was written.
    pub open spec fn put_next_id(self, id: u64) -> EnvView {
        EnvView { next_id: Some(id), writes: self.writes.push(DataKey::NextId), ..self }
    }

    /// The environment after a schema version was written.
    pub open spec fn put_migration_version(self, version: u32) -> EnvView {
        EnvView {
            migration_version: Some(version),
            writes: self.writes.push(DataKey::MigrationVersion),
            ..self
        }
    }

    /// The environment after an invoice was written under an id.
    pub open spec fn put_invoice(self, id: u64, invoice: InvoiceView) -> EnvView {
        EnvView {
            invoices: self.invoices.insert(id, invoice),
            writes: self.writes.push(DataKey::Invoice(id)),
            ..self
        }
    }

    /// The environment after an event was published.
    pub open spec fn publish(self, event: EventView) -> EnvView {
        EnvView { events: self.events.push(event), ..self }
    }
}

impl Default for Env {
    fn default() -> (env: Self)
        ensures
            env@ == EnvView::empty(),
    {
        let env = Env {
            admin: None,
            access_control: None,
            next_id: None,
            migration_version: None,
            lock: None,
            invoices: HashMap::new(),
            timestamp: 0,
            authorized: Vec::new(),
            writes: Vec::new(),
            events: Vec::new(),
        };
        assert(env@.invoices =~= Map::empty());
        assert(env@.authorized =~= Seq::empty());
        assert(env@.events =~= Seq::empty());
        env
    }
}

impl Env {
    /// Notes that the address has authorized the call.
    pub fn authorize(&mut self, address: Address)
        ensures
            final(self)@ == (EnvView {
                authorized: old(self)@.authorized.push(address@),
                ..old(self)@
            }),
            final(self)@.is_authorized(address@),
    {
        self.authorized.push(address);
        assert(self@.authorized =~= old(self)@.authorized.push(address@));
        assert(self@.authorized[self@.authorized.len() - 1] == address@);
    }

    /// Whether something is stored under the key.
    pub fn has(&self, key: &DataKey) -> (found: bool)
        ensures
            found == self@.has(*key),
    {
        match key {
            DataKey::Invoice(id) => self.invoices.contains_key(id),
            DataKey::NextId => self.next_id.is_some(),
            DataKey::Admin => self.admin.is_some(),
            DataKey::AccessControl => self.access_control.is_some(),
            DataKey::MigrationVersion => self.migration_version.is_some(),
        }
    }

    /// The invoice stored under the id.
    pub fn invoice(&self, id: u64) -> (invoice: Option<&Invoice>)
        ensures
            match invoice {
                Some(found) => self@.invoices.contains_key(id) && found@ == self@.invoices[id],
                None => !self@.invoices.contains_key(id),
            },
    {
        self.invoices.get(&id)
    }

    /// Writes the admin.
    pub(crate) fn put_admin(&mut self, admin: Address)
        ensures
            final(self)@ == old(self)@.put_admin(admin@),
    {
        self.admin = Some(admin);
        self.writes.push(DataKey::Admin);
    }

    /// Writes the access control contract.
    pub(crate) fn put_access_control(&mut self, address: Address)
        ensures
            final(self)@ == old(self)@.put_access_control(address@),
    {
        self.access_control = Some(address);
        self.writes.push(DataKey::AccessControl);
    }

    /// Writes the next id.
    pub(crate) fn put_next_id(&mut self, id: u64)
        ensures
            final(self)@ == old(self)@.put_next_id(id),
    {
        self.next_id = Some(id);
        self.writes.push(DataKey::NextId);
    }

    /// Writes the schema version.
    pub(crate) fn put_migration_version(&mut self, version: u32)
        ensures
            final(self)@ == old(self)@.put_migration_version(version),
    {
        self.migration_version = Some(version);
        self.writes.push(DataKey::MigrationVersion);
    }

    /// Writes an invoice under an id.
    pub(crate) fn put_invoice(&mut self, id: u64, invoice: Invoice)
        ensures
            final(self)@ == old(self)@.put_invoice(id, invoice@),
    {
        self.invoices.insert(id, invoice);
        self.writes.push(DataKey::Invoice(id));
        assert(self@.invoices =~= old(self)@.invoices.insert(id, invoice@));
    }

    /// Publishes an event.
    pub(crate) fn publish(&mut self, event: Event)
        ensures
            final(self)@ == old(self)@.publish(event@),
    {
        self.events.push(event);
        assert(self@.events =~= old(self)@.events.push(event@));
    }

    /// Whether the lock is stored under its key.
    pub(crate) fn has_guard(&self, key: &GuardKey) -> (found: bool)
        ensures
            found == (self@.lock is Some),
    {
        match key {
            GuardKey::Lock => self.lock.is_some(),
        }
    }

    /// Stores the lock under its key.
    pub(crate) fn put_guard(&mut self, key: &GuardKey, value: bool)
        ensures
            final(self)@ == (EnvView { lock: Some(value), ..old(self)@ }),
    {
        match key {
            GuardKey::Lock => {
                self.lock = Some(value);
            },
        }
    }

    /// Removes the lock under its key, if it is there.
    pub(crate) fn remove_guard(&mut self, key: &GuardKey)
        ensures
            final(self)@ == (EnvView { lock: None, ..old(self)@ }),
        opens_invariants none
        no_unwind
    {
        match key {
            GuardKey::Lock => {
                self.lock = None;
            },
        }
    }
}

} // verus!
