//! What each operation accepts and what it leaves behind, told in the stored values themselves.

use vstd::prelude::*;
use vstd::std_specs::cmp::PartialEqSpec;

use crate::env::{DataKey, Env, EnvView};
use crate::errors::KoraError;
use crate::invoice_nft::{
    initialize_env, initialize_result, lookup, migrate_env, migrate_result, mint_env, mint_result,
    minted_count, schema_version, set_defaulted_env, set_defaulted_result, set_funded_env,
    set_funded_result, set_listed_env, set_listed_result, set_repaid_env, set_repaid_result,
    upcoming_id,
};
use crate::reentrancy::{acquire_env, acquire_result, end_transaction_env, locked, release_env};
use crate::types::{tier_of, Address, Event, EventView, Invoice, InvoiceStatus, RiskTier, Terms};

verus! {

// ---- The values behind the views ----

/// An address is its text: it shows the whole text, and two addresses are equal exactly if their
/// texts are.
pub proof fn address_is_its_text(address: Address, other: Address)
    ensures
        address@ == address.strkey@,
        address.eq_spec(&other) <==> address.strkey@ == other.strkey@,
{
}

/// What is said of an invoice is said of the values in its fields, each of them.
pub proof fn invoice_shows_every_field(invoice: Invoice)
    ensures
        invoice@.id == invoice.id,
        invoice@.terms.sme == invoice.sme.strkey@,
        invoice@.terms.debtor_hash == invoice.debtor_hash@,
        invoice@.terms.amount == invoice.amount,
        invoice@.terms.currency == invoice.currency@,
        invoice@.terms.due_date == invoice.due_date,
        invoice@.terms.ipfs_cid == invoice.ipfs_cid@,
        invoice@.terms.risk_score == invoice.risk_score,
        invoice@.risk_tier == invoice.risk_tier,
        invoice@.status == invoice.status,
        invoice@.created_at == invoice.created_at,
        invoice@.funded_at == invoice.funded_at,
        invoice@.repaid_at == invoice.repaid_at,
{
}

/// What is said of an event is said of its kind and of the values in its fields.
pub proof fn event_shows_every_field(event: Event)
    ensures
        event matches Event::InvoiceCreated { id, sme, amount } ==> event@
            == (EventView::InvoiceCreated { id, sme: sme.strkey@, amount }),
        event matches Event::InvoiceListed { id, sme, amount } ==> event@
            == (EventView::InvoiceListed { id, sme: sme.strkey@, amount }),
        event matches Event::InvoiceFunded { id, investor, amount } ==> event@
            == (EventView::InvoiceFunded { id, investor: investor.strkey@, amount }),
        event matches Event::InvoiceRepaid { id, sme, amount } ==> event@
            == (EventView::InvoiceRepaid { id, sme: sme.strkey@, amount }),
        event matches Event::InvoiceDefaulted { id, sme } ==> event@
            == (EventView::InvoiceDefaulted { id, sme: sme.strkey@ }),
{
}

/// What is said of an environment is said of its slots, of every invoice stored under its id, of
/// the time, of everyone who has authorized the call, and of both logs in order.
pub proof fn env_shows_every_slot(env: Env)
    ensures
        env@.admin is Some <==> env.admin is Some,
        env.admin matches Some(admin) ==> env@.admin == Some(admin.strkey@),
        env@.access_control is Some <==> env.access_control is Some,
        env.access_control matches Some(address) ==> env@.access_control == Some(address.strkey@),
        env@.next_id == env.next_id,
        env@.migration_version == env.migration_version,
        env@.lock == env.lock,
        env@.timestamp == env.timestamp,
        env@.writes == env.writes@,
        forall|id: u64| #[trigger]
            env@.invoices.contains_key(id) <==> env.invoices@.contains_key(id),
        forall|id: u64|
            env.invoices@.contains_key(id) ==> #[trigger] env@.invoices[id]
                == env.invoices@[id]@,
        env@.authorized.len() == env.authorized@.len(),
        forall|i: int|
            0 <= i < env.authorized@.len() ==> #[trigger] env@.authorized[i]
                == env.authorized@[i].strkey@,
        env@.events.len() == env.events@.len(),
        forall|i: int|
            0 <= i < env.events@.len() ==> #[trigger] env@.events[i] == env.events@[i]@,
{
}

/// A new environment holds nothing.
pub proof fn new_env_holds_nothing()
    ensures
        EnvView::empty().admin is None,
        EnvView::empty().access_control is None,
        EnvView::empty().next_id is None,
        EnvView::empty().migration_version is None,
        EnvView::empty().lock is None,
        EnvView::empty().timestamp == 0,
        forall|id: u64| !#[trigger] EnvView::empty().invoices.contains_key(id),
        EnvView::empty().authorized.len() == 0,
        EnvView::empty().writes.len() == 0,
        EnvView::empty().events.len() == 0,
{
}

/// A key is there exactly if its slot is filled.
pub proof fn key_is_there_if_its_slot_is_filled(env: EnvView, id: u64)
    ensures
        env.has(DataKey::Invoice(id)) <==> env.invoices.contains_key(id),
        env.has(DataKey::NextId) <==> env.next_id is Some,
        env.has(DataKey::Admin) <==> env.admin is Some,
        env.has(DataKey::AccessControl) <==> env.access_control is Some,
        env.has(DataKey::MigrationVersion) <==> env.migration_version is Some,
{
}

/// A caller counts as authorized exactly if they are among those who authorized the call.
pub proof fn authorized_callers_are_on_the_list(env: EnvView, caller: Seq<char>)
    ensures
        env.is_authorized(caller) <==> exists|i: int|
            0 <= i < env.authorized.len() && #[trigger] env.authorized[i] == caller,
{
}

// ---- Reading ----

/// Reading an id answers exactly what is stored under it, whatever the invoice's status and
/// whatever else is stored, and `InvoiceNotFound` exactly if nothing is.
pub proof fn read_answers_what_is_stored(env: EnvView, id: u64)
    ensures
        lookup(env, id) is Ok <==> env.invoices.contains_key(id),
        lookup(env, id) matches Ok(invoice) ==> invoice == env.invoices[id],
        lookup(env, id) matches Err(e) ==> e == KoraError::InvoiceNotFound,
{
}

/// The next id is the one stored, or 1 if none is; the count is one less, and never below zero.
pub proof fn counters_follow_the_stored_id(env: EnvView)
    ensures
        env.next_id matches Some(id) ==> upcoming_id(env) == id,
        env.next_id is None ==> upcoming_id(env) == 1,
        env.next_id matches Some(id) ==> minted_count(env) == if id == 0 { 0 } else { id - 1 },
        env.next_id is None ==> minted_count(env) == 0,
{
}

/// The tiers part the scores at 20, 40, 60 and 80.
pub proof fn tiers_part_the_scores(score: u32)
    ensures
        tier_of(score) == RiskTier::AAA <==> score <= 20,
        tier_of(score) == RiskTier::AA <==> 20 < score <= 40,
        tier_of(score) == RiskTier::A <==> 40 < score <= 60,
        tier_of(score) == RiskTier::B <==> 60 < score <= 80,
        tier_of(score) == RiskTier::C <==> 80 < score,
        RiskTier::AAA.rank() < RiskTier::AA.rank() < RiskTier::A.rank() < RiskTier::B.rank()
            < RiskTier::C.rank(),
{
}

// ---- Initialization and migration ----

/// Initialization is accepted exactly if there is no admin, and else answered
/// `AlreadyInitialized`. It stores the two addresses handed in, each in its place, starts the ids
/// at 1 and the schema at version 1, and touches nothing else. Refused, it touches nothing.
pub proof fn initialization_stores_the_addresses_handed_in(
    env: EnvView,
    admin: Seq<char>,
    access_control: Seq<char>,
)
    ensures
        initialize_result(env) is Ok <==> env.admin is None,
        initialize_result(env) matches Err(e) ==> e == KoraError::AlreadyInitialized,
        env.admin is Some ==> initialize_env(env, admin, access_control) == env,
        env.admin is None ==> {
            let after = initialize_env(env, admin, access_control);
            &&& after.admin == Some(admin)
            &&& after.access_control == Some(access_control)
            &&& after.next_id == Some(1u64)
            &&& after.migration_version == Some(1u32)
            &&& after.lock == env.lock
            &&& after.invoices == env.invoices
            &&& after.timestamp == env.timestamp
            &&& after.authorized == env.authorized
            &&& after.events == env.events
            &&& after.writes == env.writes + seq![
                DataKey::Admin,
                DataKey::AccessControl,
                DataKey::NextId,
                DataKey::MigrationVersion,
            ]
        },
{
}

/// Migration is accepted exactly from the stored admin. It brings data without a version, or with
/// version 0, to version 1, leaves data of any other version alone, and touches nothing else.
/// Refused, it touches nothing.
pub proof fn migration_brings_old_data_to_version_one(env: EnvView, caller: Seq<char>)
    ensures
        migrate_result(env, caller) is Ok <==> env.admin == Some(caller),
        migrate_result(env, caller) == Err::<(), KoraError>(KoraError::NotInitialized)
            <==> env.admin is None,
        migrate_result(env, caller) == Err::<(), KoraError>(KoraError::NotAdmin) <==> (env.admin
            matches Some(admin) && admin != caller),
        env.migration_version matches Some(version) ==> schema_version(env) == version,
        env.migration_version is None ==> schema_version(env) == 0,
        env.admin != Some(caller) ==> migrate_env(env, caller) == env,
        env.migration_version matches Some(version) && version >= 1 ==> migrate_env(env, caller)
            == env,
        env.admin == Some(caller) && (env.migration_version is None || env.migration_version
            == Some(0u32)) ==> {
            let after = migrate_env(env, caller);
            &&& after.migration_version == Some(1u32)
            &&& after.admin == env.admin
            &&& after.access_control == env.access_control
            &&& after.next_id == env.next_id
            &&& after.lock == env.lock
            &&& after.invoices == env.invoices
            &&& after.timestamp == env.timestamp
            &&& after.authorized == env.authorized
            &&& after.events == env.events
            &&& after.writes == env.writes.push(DataKey::MigrationVersion)
        },
{
}

// ---- Minting ----

/// A mint is accepted exactly if an access control contract is known, the amount is positive, the
/// due date lies ahead, the score is at most 100, the debtor hash and the content identifier are
/// not empty, and the id that is up is not the last one. Each error stands for the first of these
/// that fails.
pub proof fn mint_answers_by_the_first_broken_rule(env: EnvView, terms: Terms)
    ensures
        ({
            let result = mint_result(env, terms);
            let known = env.access_control is Some;
            let amount = terms.amount > 0;
            let due = terms.due_date > env.timestamp;
            let score = terms.risk_score <= 100;
            let hash = terms.debtor_hash.len() > 0;
            let cid = terms.ipfs_cid.len() > 0;
            let last = env.next_id == Some(u64::MAX);
            &&& result is Ok <==> known && amount && due && score && hash && cid && !last
            &&& result == Err::<u64, KoraError>(KoraError::NotInitialized) <==> !known
            &&& result == Err::<u64, KoraError>(KoraError::InvalidAmount) <==> known && !amount
            &&& result == Err::<u64, KoraError>(KoraError::InvalidDueDate) <==> known && amount
                && !due
            &&& result == Err::<u64, KoraError>(KoraError::InvalidRiskScore) <==> known && amount
                && due && !score
            &&& result == Err::<u64, KoraError>(KoraError::EmptyBytes) <==> known && amount && due
                && score && !hash
            &&& result == Err::<u64, KoraError>(KoraError::EmptyString) <==> known && amount && due
                && score && hash && !cid
            &&& result == Err::<u64, KoraError>(KoraError::ArithmeticOverflow) <==> known && amount
                && due && score && hash && cid && last
        }),
{
}

/// A mint stores the terms as they were handed in, each of them, under the id that it returns:
/// the next id, or 1 if none is stored. The invoice is `Created` at the time of the ledger, not
/// yet funded or repaid, and has the tier of its score. The next id is one up, one event names
/// the id, the SME and the amount, and nothing else is touched.
pub proof fn mint_stores_the_terms_handed_in(env: EnvView, terms: Terms, id: u64)
    requires
        mint_result(env, terms) == Ok::<u64, KoraError>(id),
    ensures
        env.next_id matches Some(next) ==> id == next,
        env.next_id is None ==> id == 1,
        ({
            let after = mint_env(env, terms);
            let invoice = after.invoices[id];
            &&& after.invoices.contains_key(id)
            &&& invoice.id == id
            &&& invoice.terms == terms
            &&& invoice.terms.sme == terms.sme
            &&& invoice.terms.debtor_hash == terms.debtor_hash
            &&& invoice.terms.amount == terms.amount
            &&& invoice.terms.currency == terms.currency
            &&& invoice.terms.due_date == terms.due_date
            &&& invoice.terms.ipfs_cid == terms.ipfs_cid
            &&& invoice.terms.risk_score == terms.risk_score
            &&& invoice.risk_tier == RiskTier::AAA <==> terms.risk_score <= 20
            &&& invoice.risk_tier == RiskTier::AA <==> 20 < terms.risk_score <= 40
            &&& invoice.risk_tier == RiskTier::A <==> 40 < terms.risk_score <= 60
            &&& invoice.risk_tier == RiskTier::B <==> 60 < terms.risk_score <= 80
            &&& invoice.risk_tier == RiskTier::C <==> 80 < terms.risk_score
            &&& invoice.status == InvoiceStatus::Created
            &&& invoice.created_at == env.timestamp
            &&& invoice.funded_at is None
            &&& invoice.repaid_at is None
            &&& after.invoices.remove(id) == env.invoices.remove(id)
            &&& after.next_id matches Some(next) && next == id + 1
            &&& after.admin == env.admin
            &&& after.access_control == env.access_control
            &&& after.migration_version == env.migration_version
            &&& after.lock == env.lock
            &&& after.timestamp == env.timestamp
            &&& after.authorized == env.authorized
            &&& after.writes == env.writes + seq![DataKey::Invoice(id), DataKey::NextId]
            &&& after.events == env.events.push(
                EventView::InvoiceCreated { id, sme: terms.sme, amount: terms.amount },
            )
        }),
{
    assert(mint_env(env, terms).invoices.remove(id) =~= env.invoices.remove(id));
    assert(mint_env(env, terms).writes =~= env.writes + seq![
        DataKey::Invoice(id),
        DataKey::NextId,
    ]);
}

/// A refused mint touches nothing, but for the one that finds the last id up: it has stored the
/// invoice under that id, and touched nothing else.
pub proof fn refused_mint_touches_nothing_else(env: EnvView, terms: Terms)
    requires
        mint_result(env, terms) is Err,
    ensures
        mint_result(env, terms) != Err::<u64, KoraError>(KoraError::ArithmeticOverflow) ==> mint_env(
            env,
            terms,
        ) == env,
        mint_result(env, terms) == Err::<u64, KoraError>(KoraError::ArithmeticOverflow) ==> {
            let after = mint_env(env, terms);
            let invoice = after.invoices[u64::MAX];
            &&& after.invoices.contains_key(u64::MAX)
            &&& invoice.id == u64::MAX
            &&& invoice.terms == terms
            &&& invoice.risk_tier == tier_of(terms.risk_score)
            &&& invoice.status == InvoiceStatus::Created
            &&& invoice.created_at == env.timestamp
            &&& invoice.funded_at is None
            &&& invoice.repaid_at is None
            &&& after.invoices.remove(u64::MAX) == env.invoices.remove(u64::MAX)
            &&& after.next_id == env.next_id
            &&& after.admin == env.admin
            &&& after.access_control == env.access_control
            &&& after.migration_version == env.migration_version
            &&& after.lock == env.lock
            &&& after.timestamp == env.timestamp
            &&& after.authorized == env.authorized
            &&& after.writes == env.writes.push(DataKey::Invoice(u64::MAX))
            &&& after.events == env.events
        },
{
    assert(mint_result(env, terms) == Err::<u64, KoraError>(KoraError::ArithmeticOverflow)
        ==> mint_env(env, terms).invoices.remove(u64::MAX) =~= env.invoices.remove(u64::MAX));
}

// ---- Transitions ----

/// Listing is accepted exactly if an access control contract is known and an invoice is stored
/// under the id that is `Created`, however many others are stored. It leaves that invoice
/// `Listed` and otherwise as it was, publishes one event with its SME and amount, and touches
/// nothing else. Refused, it touches nothing.
pub proof fn listing_is_for_created_invoices(env: EnvView, id: u64)
    ensures
        ({
            let result = set_listed_result(env, id);
            let known = env.access_control is Some;
            let stored = env.invoices.contains_key(id);
            let ready = env.invoices[id].status == InvoiceStatus::Created;
            &&& result is Ok <==> known && stored && ready
            &&& result == Err::<(), KoraError>(KoraError::NotInitialized) <==> !known
            &&& result == Err::<(), KoraError>(KoraError::InvoiceNotFound) <==> known && !stored
            &&& result == Err::<(), KoraError>(KoraError::InvalidInvoiceStatus) <==> known && stored
                && !ready
            &&& result is Err ==> set_listed_env(env, id) == env
        }),
        set_listed_result(env, id) is Ok ==> {
            let before = env.invoices[id];
            let after = set_listed_env(env, id);
            let invoice = after.invoices[id];
            &&& after.invoices.contains_key(id)
            &&& invoice.status == InvoiceStatus::Listed
            &&& invoice.id == before.id
            &&& invoice.terms == before.terms
            &&& invoice.risk_tier == before.risk_tier
            &&& invoice.created_at == before.created_at
            &&& invoice.funded_at == before.funded_at
            &&& invoice.repaid_at == before.repaid_at
            &&& after.invoices.remove(id) == env.invoices.remove(id)
            &&& after == (EnvView {
                invoices: after.invoices,
                writes: after.writes,
                events: after.events,
                ..env
            })
            &&& after.writes == env.writes.push(DataKey::Invoice(id))
            &&& after.events == env.events.push(
                EventView::InvoiceListed { id, sme: before.terms.sme, amount: before.terms.amount },
            )
        },
{
    assert(set_listed_env(env, id).invoices.remove(id) =~= env.invoices.remove(id));
}

/// Funding is accepted exactly if an access control contract is known and an invoice is stored
/// under the id that is `Listed`, however many others are stored. It leaves that invoice
/// `Funded` at the time of the ledger and otherwise as it was, publishes one event with the
/// caller and the amount, and touches nothing else. Refused, it touches nothing.
pub proof fn funding_is_for_listed_invoices(env: EnvView, caller: Seq<char>, id: u64)
    ensures
        ({
            let result = set_funded_result(env, id);
            let known = env.access_control is Some;
            let stored = env.invoices.contains_key(id);
            let ready = env.invoices[id].status == InvoiceStatus::Listed;
            &&& result is Ok <==> known && stored && ready
            &&& result == Err::<(), KoraError>(KoraError::NotInitialized) <==> !known
            &&& result == Err::<(), KoraError>(KoraError::InvoiceNotFound) <==> known && !stored
            &&& result == Err::<(), KoraError>(KoraError::InvalidInvoiceStatus) <==> known && stored
                && !ready
            &&& result is Err ==> set_funded_env(env, caller, id) == env
        }),
        set_funded_result(env, id) is Ok ==> {
            let before = env.invoices[id];
            let after = set_funded_env(env, caller, id);
            let invoice = after.invoices[id];
            &&& after.invoices.contains_key(id)
            &&& invoice.status == InvoiceStatus::Funded
            &&& invoice.funded_at == Some(env.timestamp)
            &&& invoice.id == before.id
            &&& invoice.terms == before.terms
            &&& invoice.risk_tier == before.risk_tier
            &&& invoice.created_at == before.created_at
            &&& invoice.repaid_at == before.repaid_at
            &&& after.invoices.remove(id) == env.invoices.remove(id)
            &&& after == (EnvView {
                invoices: after.invoices,
                writes: after.writes,
                events: after.events,
                ..env
            })
            &&& after.writes == env.writes.push(DataKey::Invoice(id))
            &&& after.events == env.events.push(
                EventView::InvoiceFunded { id, investor: caller, amount: before.terms.amount },
            )
        },
{
    assert(set_funded_env(env, caller, id).invoices.remove(id) =~= env.invoices.remove(id));
}

/// Repayment is accepted exactly if an invoice is stored under the id that is `Funded`, however
/// many others are stored. It leaves that invoice `Repaid` at the time of the ledger and
/// otherwise as it was, publishes one event with its SME and amount, and touches nothing else.
/// Refused, it touches nothing.
pub proof fn repayment_is_for_funded_invoices(env: EnvView, id: u64)
    ensures
        ({
            let result = set_repaid_result(env, id);
            let stored = env.invoices.contains_key(id);
            let ready = env.invoices[id].status == InvoiceStatus::Funded;
            &&& result is Ok <==> stored && ready
            &&& result == Err::<(), KoraError>(KoraError::InvoiceNotFound) <==> !stored
            &&& result == Err::<(), KoraError>(KoraError::InvalidInvoiceStatus) <==> stored
                && !ready
            &&& result is Err ==> set_repaid_env(env, id) == env
        }),
        set_repaid_result(env, id) is Ok ==> {
            let before = env.invoices[id];
            let after = set_repaid_env(env, id);
            let invoice = after.invoices[id];
            &&& after.invoices.contains_key(id)
            &&& invoice.status == InvoiceStatus::Repaid
            &&& invoice.repaid_at == Some(env.timestamp)
            &&& invoice.id == before.id
            &&& invoice.terms == before.terms
            &&& invoice.risk_tier == before.risk_tier
            &&& invoice.created_at == before.created_at
            &&& invoice.funded_at == before.funded_at
            &&& after.invoices.remove(id) == env.invoices.remove(id)
            &&& after == (EnvView {
                invoices: after.invoices,
                writes: after.writes,
                events: after.events,
                ..env
            })
            &&& after.writes == env.writes.push(DataKey::Invoice(id))
            &&& after.events == env.events.push(
                EventView::InvoiceRepaid { id, sme: before.terms.sme, amount: before.terms.amount },
            )
        },
{
    assert(set_repaid_env(env, id).invoices.remove(id) =~= env.invoices.remove(id));
}

/// A default is accepted exactly from the stored admin, if an invoice is stored under the id that
/// is `Funded` and its due date lies strictly before the time of the ledger, however many others
/// are stored. It leaves that invoice `Defaulted` and otherwise as it was, publishes one event
/// with its SME, and touches nothing else. Refused, it touches nothing.
pub proof fn default_is_for_overdue_funded_invoices(env: EnvView, caller: Seq<char>, id: u64)
    ensures
        ({
            let result = set_defaulted_result(env, caller, id);
            let by_admin = env.admin == Some(caller);
            let stored = env.invoices.contains_key(id);
            let ready = env.invoices[id].status == InvoiceStatus::Funded
                && env.invoices[id].terms.due_date < env.timestamp;
            &&& result is Ok <==> by_admin && stored && ready
            &&& result == Err::<(), KoraError>(KoraError::NotInitialized) <==> env.admin is None
            &&& result == Err::<(), KoraError>(KoraError::NotAdmin) <==> env.admin is Some
                && !by_admin
            &&& result == Err::<(), KoraError>(KoraError::InvoiceNotFound) <==> by_admin && !stored
            &&& result == Err::<(), KoraError>(KoraError::InvalidInvoiceStatus) <==> by_admin
                && stored && !ready
            &&& result is Err ==> set_defaulted_env(env, caller, id) == env
        }),
        set_defaulted_result(env, caller, id) is Ok ==> {
            let before = env.invoices[id];
            let after = set_defaulted_env(env, caller, id);
            let invoice = after.invoices[id];
            &&& after.invoices.contains_key(id)
            &&& invoice.status == InvoiceStatus::Defaulted
            &&& invoice.id == before.id
            &&& invoice.terms == before.terms
            &&& invoice.risk_tier == before.risk_tier
            &&& invoice.created_at == before.created_at
            &&& invoice.funded_at == before.funded_at
            &&& invoice.repaid_at == before.repaid_at
            &&& after.invoices.remove(id) == env.invoices.remove(id)
            &&& after == (EnvView {
                invoices: after.invoices,
                writes: after.writes,
                events: after.events,
                ..env
            })
            &&& after.writes == env.writes.push(DataKey::Invoice(id))
            &&& after.events == env.events.push(
                EventView::InvoiceDefaulted { id, sme: before.terms.sme },
            )
        },
{
    assert(set_defaulted_env(env, caller, id).invoices.remove(id) =~= env.invoices.remove(id));
}

/// Whether a transition of an invoice is accepted, and what it makes of that invoice, depends on
/// that invoice, on who is admin, on whether an access control contract is known, and on the
/// time: two ledgers that agree on those, whatever else is stored or was minted, answer alike and
/// leave the invoice alike.
pub proof fn transitions_depend_on_the_invoice_alone(
    env: EnvView,
    other: EnvView,
    caller: Seq<char>,
    id: u64,
)
    requires
        env.invoices.contains_key(id) <==> other.invoices.contains_key(id),
        env.invoices.contains_key(id) ==> env.invoices[id] == other.invoices[id],
        env.admin == other.admin,
        env.access_control is Some <==> other.access_control is Some,
        env.timestamp == other.timestamp,
    ensures
        lookup(env, id) == lookup(other, id),
        set_listed_result(env, id) == set_listed_result(other, id),
        set_funded_result(env, id) == set_funded_result(other, id),
        set_repaid_result(env, id) == set_repaid_result(other, id),
        set_defaulted_result(env, caller, id) == set_defaulted_result(other, caller, id),
        env.invoices.contains_key(id) ==> {
            &&& set_listed_env(env, id).invoices[id] == set_listed_env(other, id).invoices[id]
            &&& set_funded_env(env, caller, id).invoices[id] == set_funded_env(
                other,
                caller,
                id,
            ).invoices[id]
            &&& set_repaid_env(env, id).invoices[id] == set_repaid_env(other, id).invoices[id]
            &&& set_defaulted_env(env, caller, id).invoices[id] == set_defaulted_env(
                other,
                caller,
                id,
            ).invoices[id]
        },
{
}

// ---- The reentrancy lock ----

/// The lock is held exactly if its slot is filled. Taking it is accepted exactly if the slot is
/// empty, and else answered `Reentrancy`; it fills the slot with `true`. Releasing it, and the end
/// of a transaction, empty the slot. No other slot is touched.
pub proof fn lock_is_its_slot(env: EnvView)
    ensures
        locked(env) <==> env.lock is Some,
        acquire_result(env) is Ok <==> env.lock is None,
        acquire_result(env) matches Err(e) ==> e == KoraError::Reentrancy,
        env.lock is Some ==> acquire_env(env) == env,
        env.lock is None ==> acquire_env(env) == (EnvView { lock: Some(true), ..env }),
        release_env(env) == (EnvView { lock: None, ..env }),
        end_transaction_env(env) == (EnvView { lock: None, ..env }),
{
}

} // verus!
