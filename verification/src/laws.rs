//! What holds of the library as a whole.

use vstd::prelude::*;

use crate::env::{DataKey, EnvView};
use crate::errors::KoraError;
use crate::history::{
    accepted_mints, at, in_order, invoice_well_formed, is_lock_call, later_state_of, leads_to,
    mints, refusal, run, step, times_in_order, well_formed, Call, Invocation,
};
use crate::invoice_nft::{
    initialize_env, initialize_result, lookup, migrate_env, migrate_result, mint_env, mint_result,
    minted_count, new_invoice, schema_version, set_defaulted_env, set_defaulted_result,
    set_funded_env, set_funded_result, set_listed_env, set_listed_result, set_repaid_env,
    set_repaid_result, upcoming_id, SCHEMA_VERSION,
};
use crate::reentrancy::{
    acquire_env, acquire_result, end_transaction_env, locked, release_env,
};
use crate::types::{tier_of, EventView, InvoiceStatus, InvoiceView, Terms};

verus! {

// ---- Every state ----

/// A new ledger is well formed, and holds no time that could be out of order.
pub proof fn new_ledger_is_well_formed()
    ensures
        well_formed(EnvView::empty()),
        times_in_order(EnvView::empty()),
{
}

/// One call keeps the ledger well formed, whether it succeeds or is refused.
pub proof fn call_keeps_well_formed(env: EnvView, invocation: Invocation)
    requires
        well_formed(env),
    ensures
        well_formed(step(env, invocation)),
{
    let before = at(env, invocation.now);
    assert(well_formed(before));
    match invocation.call {
        Call::Initialize { admin, access_control } => {},
        Call::Migrate { admin } => {},
        Call::MintInvoice { terms } => {
            if mint_result(before, terms) is Ok {
                mint_keeps_well_formed(before, terms);
            }
        },
        Call::SetListed { caller, id } => {
            if set_listed_result(before, id) is Ok {
                let after = InvoiceView { status: InvoiceStatus::Listed, ..before.invoices[id] };
                update_keeps_well_formed(before, set_listed_env(before, id), id, after);
            }
        },
        Call::SetFunded { caller, id } => {
            if set_funded_result(before, id) is Ok {
                let after = InvoiceView {
                    status: InvoiceStatus::Funded,
                    funded_at: Some(before.timestamp),
                    ..before.invoices[id]
                };
                update_keeps_well_formed(before, set_funded_env(before, caller, id), id, after);
            }
        },
        Call::SetRepaid { caller, id } => {
            if set_repaid_result(before, id) is Ok {
                let after = InvoiceView {
                    status: InvoiceStatus::Repaid,
                    repaid_at: Some(before.timestamp),
                    ..before.invoices[id]
                };
                update_keeps_well_formed(before, set_repaid_env(before, id), id, after);
            }
        },
        Call::SetDefaulted { caller, id } => {
            if set_defaulted_result(before, caller, id) is Ok {
                let after = InvoiceView {
                    status: InvoiceStatus::Defaulted,
                    ..before.invoices[id]
                };
                update_keeps_well_formed(before, set_defaulted_env(before, caller, id), id, after);
            }
        },
        Call::AcquireGuard => {},
        Call::ReleaseGuard => {},
        Call::EndTransaction => {},
    }
}

proof fn mint_keeps_well_formed(env: EnvView, terms: Terms)
    requires
        well_formed(env),
        mint_result(env, terms) is Ok,
    ensures
        well_formed(mint_env(env, terms)),
{
    let after = mint_env(env, terms);
    let new_id = upcoming_id(env);
    assert(after.invoices == env.invoices.insert(new_id, new_invoice(new_id, terms, env.timestamp)));
    assert forall|id: u64| #[trigger] after.invoices.contains_key(id) implies {
        &&& after.invoices[id].id == id
        &&& 1 <= id < upcoming_id(after)
        &&& invoice_well_formed(after.invoices[id])
    } by {
        assert(id == new_id || env.invoices.contains_key(id));
    }
}

/// Replacing a stored invoice by a well-formed one of the same id keeps the ledger well formed.
proof fn update_keeps_well_formed(env: EnvView, after: EnvView, id: u64, invoice: InvoiceView)
    requires
        well_formed(env),
        env.invoices.contains_key(id),
        invoice.id == id,
        invoice_well_formed(invoice),
        after.invoices == env.invoices.insert(id, invoice),
        after.admin == env.admin,
        after.access_control == env.access_control,
        after.next_id == env.next_id,
    ensures
        well_formed(after),
{
    assert forall|other: u64| #[trigger] after.invoices.contains_key(other) implies {
        &&& after.invoices[other].id == other
        &&& 1 <= other < upcoming_id(after)
        &&& invoice_well_formed(after.invoices[other])
    } by {
        assert(env.invoices.contains_key(other));
    }
}

/// Calls keep the ledger well formed.
pub proof fn calls_keep_well_formed(env: EnvView, invocations: Seq<Invocation>)
    requires
        well_formed(env),
    ensures
        well_formed(run(env, invocations)),
    decreases invocations.len(),
{
    if invocations.len() > 0 {
        calls_keep_well_formed(env, invocations.drop_last());
        call_keeps_well_formed(run(env, invocations.drop_last()), invocations.last());
    }
}

/// Whatever calls are made to a new contract, its ledger is well formed: it is initialized as a
/// whole or holds nothing, the ids given out are in use, and each invoice is stored under its own
/// id, keeps the rules on its terms, has the tier of its score and times that fit its status.
pub proof fn every_ledger_is_well_formed(invocations: Seq<Invocation>)
    ensures
        well_formed(run(EnvView::empty(), invocations)),
{
    new_ledger_is_well_formed();
    calls_keep_well_formed(EnvView::empty(), invocations);
}

// ---- The life of an invoice ----

/// One call moves a stored invoice at most one step along its life cycle, and never takes it off
/// the ledger.
pub proof fn call_moves_status_one_step(env: EnvView, invocation: Invocation, id: u64)
    requires
        well_formed(env),
        env.invoices.contains_key(id),
    ensures
        step(env, invocation).invoices.contains_key(id),
        ({
            let from = env.invoices[id].status;
            let to = step(env, invocation).invoices[id].status;
            from == to || leads_to(from, to)
        }),
        later_state_of(env.invoices[id], step(env, invocation).invoices[id]),
{
    assert(env.invoices.contains_key(id));
    match invocation.call {
        Call::MintInvoice { terms } => {
            assert(id != upcoming_id(env));
        },
        Call::SetListed { caller, id: named } => {
            assert(named == id || step(env, invocation).invoices[id] == env.invoices[id]);
        },
        Call::SetFunded { caller, id: named } => {
            assert(named == id || step(env, invocation).invoices[id] == env.invoices[id]);
        },
        Call::SetRepaid { caller, id: named } => {
            assert(named == id || step(env, invocation).invoices[id] == env.invoices[id]);
        },
        Call::SetDefaulted { caller, id: named } => {
            assert(named == id || step(env, invocation).invoices[id] == env.invoices[id]);
        },
        _ => {
            assert(step(env, invocation).invoices == env.invoices);
        },
    }
}

/// Whatever calls are made, a stored invoice stays on the ledger with the id, the terms, the tier
/// and the time of creation that it was minted with. Its status only moves along the life cycle,
/// and a recorded time of funding or repayment stays.
pub proof fn stored_invoice_is_permanent(env: EnvView, invocations: Seq<Invocation>, id: u64)
    requires
        well_formed(env),
        env.invoices.contains_key(id),
    ensures
        run(env, invocations).invoices.contains_key(id),
        later_state_of(env.invoices[id], run(env, invocations).invoices[id]),
    decreases invocations.len(),
{
    if invocations.len() > 0 {
        let before = run(env, invocations.drop_last());
        stored_invoice_is_permanent(env, invocations.drop_last(), id);
        calls_keep_well_formed(env, invocations.drop_last());
        call_moves_status_one_step(before, invocations.last(), id);
    }
}

/// A repaid or defaulted invoice never changes again.
pub proof fn settled_invoice_is_final(env: EnvView, invocations: Seq<Invocation>, id: u64)
    requires
        well_formed(env),
        env.invoices.contains_key(id),
        env.invoices[id].status == InvoiceStatus::Repaid || env.invoices[id].status
            == InvoiceStatus::Defaulted,
    ensures
        run(env, invocations).invoices[id] == env.invoices[id],
{
    stored_invoice_is_permanent(env, invocations, id);
    calls_keep_well_formed(env, invocations);
    assert(env.invoices.contains_key(id));
    assert(run(env, invocations).invoices.contains_key(id));
}

/// An invoice can be repaid: after it is minted, listing, funding and repayment go through one
/// after the other, whoever calls and whenever, and leave it `Repaid`.
pub proof fn invoice_can_be_repaid(
    env: EnvView,
    terms: Terms,
    id: u64,
    pool: Seq<char>,
    listed_at: u64,
    funded_at: u64,
    repaid_at: u64,
)
    requires
        mint_result(env, terms) == Ok::<u64, KoraError>(id),
    ensures
        ({
            let minted = at(mint_env(env, terms), listed_at);
            let listed = at(set_listed_env(minted, id), funded_at);
            let funded = at(set_funded_env(listed, pool, id), repaid_at);
            let repaid = set_repaid_env(funded, id);
            &&& set_listed_result(minted, id) is Ok
            &&& set_funded_result(listed, id) is Ok
            &&& set_repaid_result(funded, id) is Ok
            &&& lookup(repaid, id) == Ok::<InvoiceView, KoraError>(
                InvoiceView {
                    status: InvoiceStatus::Repaid,
                    funded_at: Some(funded_at),
                    repaid_at: Some(repaid_at),
                    ..new_invoice(id, terms, env.timestamp)
                },
            )
        }),
{
}

/// A funded invoice can be settled as defaulted by the admin at any time after its due date, and
/// by nobody and at no time else.
pub proof fn default_needs_admin_and_overdue(env: EnvView, caller: Seq<char>, id: u64)
    requires
        env.invoices.contains_key(id),
        env.invoices[id].status == InvoiceStatus::Funded,
    ensures
        set_defaulted_result(env, caller, id) is Ok <==> (env.admin == Some(caller)
            && env.timestamp > env.invoices[id].terms.due_date),
{
}

/// A stored invoice becomes `Listed`, `Funded`, `Repaid` or `Defaulted` only by the call of that
/// name on its id. Funding and repayment record the time of the call; a default is declared by
/// the admin after the due date.
pub proof fn status_changes_by_its_own_call_only(env: EnvView, invocation: Invocation, id: u64)
    requires
        well_formed(env),
        env.invoices.contains_key(id),
        step(env, invocation).invoices[id].status != env.invoices[id].status,
    ensures
        ({
            let invoice = env.invoices[id];
            let after = step(env, invocation).invoices[id];
            match after.status {
                InvoiceStatus::Created => false,
                InvoiceStatus::Listed => invocation.call matches Call::SetListed {
                    id: listed,
                    ..
                } && listed == id && after == (InvoiceView {
                    status: InvoiceStatus::Listed,
                    ..invoice
                }),
                InvoiceStatus::Funded => invocation.call matches Call::SetFunded {
                    id: funded,
                    ..
                } && funded == id && after == (InvoiceView {
                    status: InvoiceStatus::Funded,
                    funded_at: Some(invocation.now),
                    ..invoice
                }),
                InvoiceStatus::Repaid => invocation.call matches Call::SetRepaid {
                    id: repaid,
                    ..
                } && repaid == id && after == (InvoiceView {
                    status: InvoiceStatus::Repaid,
                    repaid_at: Some(invocation.now),
                    ..invoice
                }),
                InvoiceStatus::Defaulted => invocation.call matches Call::SetDefaulted {
                    caller,
                    id: defaulted,
                } && defaulted == id && env.admin == Some(caller) && invocation.now
                    > invoice.terms.due_date && after == (InvoiceView {
                    status: InvoiceStatus::Defaulted,
                    ..invoice
                }),
            }
        }),
{
}

/// No transition of an invoice goes through twice, whatever happens in between: the second
/// attempt is answered `InvalidInvoiceStatus`.
pub proof fn transitions_do_not_repeat(
    env: EnvView,
    between: Seq<Invocation>,
    caller: Seq<char>,
    id: u64,
)
    requires
        well_formed(env),
        env.invoices.contains_key(id),
    ensures
        set_listed_result(env, id) is Ok ==> set_listed_result(
            run(set_listed_env(env, id), between),
            id,
        ) == Err::<(), KoraError>(KoraError::InvalidInvoiceStatus),
        set_funded_result(env, id) is Ok ==> set_funded_result(
            run(set_funded_env(env, caller, id), between),
            id,
        ) == Err::<(), KoraError>(KoraError::InvalidInvoiceStatus),
        set_repaid_result(env, id) is Ok ==> set_repaid_result(
            run(set_repaid_env(env, id), between),
            id,
        ) == Err::<(), KoraError>(KoraError::InvalidInvoiceStatus),
        set_defaulted_result(env, caller, id) is Ok ==> set_defaulted_result(
            run(set_defaulted_env(env, caller, id), between),
            caller,
            id,
        ) == Err::<(), KoraError>(KoraError::InvalidInvoiceStatus),
{
    let now = env.timestamp;
    assert(at(env, now) == env);
    let listed = Invocation { now, call: Call::SetListed { caller, id } };
    let funded = Invocation { now, call: Call::SetFunded { caller, id } };
    let repaid = Invocation { now, call: Call::SetRepaid { caller, id } };
    let defaulted = Invocation { now, call: Call::SetDefaulted { caller, id } };
    after_call(env, listed, between, id);
    after_call(env, funded, between, id);
    after_call(env, repaid, between, id);
    after_call(env, defaulted, between, id);
    admin_is_permanent(step(env, defaulted), between);
    admin_is_permanent(step(env, listed), between);
    admin_is_permanent(step(env, funded), between);
}

/// A stored invoice after one call and some more, as a later state of what that call left.
proof fn after_call(env: EnvView, first: Invocation, more: Seq<Invocation>, id: u64)
    requires
        well_formed(env),
        env.invoices.contains_key(id),
    ensures
        well_formed(step(env, first)),
        run(step(env, first), more).invoices.contains_key(id),
        later_state_of(step(env, first).invoices[id], run(step(env, first), more).invoices[id]),
{
    call_keeps_well_formed(env, first);
    call_moves_status_one_step(env, first, id);
    stored_invoice_is_permanent(step(env, first), more, id);
}

// ---- Initialization and migration ----

/// Once set, the admin and the access control contract stay.
pub proof fn admin_is_permanent(env: EnvView, invocations: Seq<Invocation>)
    requires
        well_formed(env),
        env.admin is Some,
    ensures
        run(env, invocations).admin == env.admin,
        run(env, invocations).access_control == env.access_control,
    decreases invocations.len(),
{
    if invocations.len() > 0 {
        admin_is_permanent(env, invocations.drop_last());
        calls_keep_well_formed(env, invocations.drop_last());
    }
}

/// The contract is initialized at most once: after that, whatever calls are made, another attempt
/// is answered `AlreadyInitialized` and changes nothing.
pub proof fn initialization_happens_once(
    env: EnvView,
    admin: Seq<char>,
    access_control: Seq<char>,
    between: Seq<Invocation>,
    other_admin: Seq<char>,
    other_access_control: Seq<char>,
)
    requires
        well_formed(env),
    ensures
        ({
            let later = run(initialize_env(env, admin, access_control), between);
            &&& initialize_result(later) == Err::<(), KoraError>(KoraError::AlreadyInitialized)
            &&& initialize_env(later, other_admin, other_access_control) == later
        }),
{
    let first = Invocation {
        now: env.timestamp,
        call: Call::Initialize { admin, access_control },
    };
    assert(at(env, env.timestamp) == env);
    call_keeps_well_formed(env, first);
    admin_is_permanent(initialize_env(env, admin, access_control), between);
}

/// Before initialization only `initialize` and the lock can be used: every other call is refused,
/// and there is no invoice to read.
pub proof fn nothing_works_before_initialization(
    env: EnvView,
    caller: Seq<char>,
    terms: Terms,
    id: u64,
)
    requires
        well_formed(env),
        env.admin is None,
    ensures
        initialize_result(env) is Ok,
        migrate_result(env, caller) == Err::<(), KoraError>(KoraError::NotInitialized),
        mint_result(env, terms) == Err::<u64, KoraError>(KoraError::NotInitialized),
        set_listed_result(env, id) == Err::<(), KoraError>(KoraError::NotInitialized),
        set_funded_result(env, id) == Err::<(), KoraError>(KoraError::NotInitialized),
        set_repaid_result(env, id) == Err::<(), KoraError>(KoraError::InvoiceNotFound),
        set_defaulted_result(env, caller, id) == Err::<(), KoraError>(KoraError::NotInitialized),
        lookup(env, id) == Err::<InvoiceView, KoraError>(KoraError::InvoiceNotFound),
        upcoming_id(env) == 1,
        minted_count(env) == 0,
{
}

/// Migration is idempotent: a second call succeeds like the first and changes nothing.
pub proof fn migration_is_idempotent(env: EnvView, admin: Seq<char>)
    ensures
        migrate_result(migrate_env(env, admin), admin) == migrate_result(env, admin),
        migrate_env(migrate_env(env, admin), admin) == migrate_env(env, admin),
{
}

/// Right after initialization there is nothing to migrate.
pub proof fn migration_after_initialization_is_a_no_op(
    env: EnvView,
    admin: Seq<char>,
    access_control: Seq<char>,
)
    requires
        initialize_result(env) is Ok,
    ensures
        ({
            let initialized = initialize_env(env, admin, access_control);
            &&& migrate_result(initialized, admin) is Ok
            &&& migrate_env(initialized, admin) == initialized
        }),
{
}

/// Once the data is at the current schema version or above, it stays there.
pub proof fn schema_version_stays_current(env: EnvView, invocations: Seq<Invocation>)
    requires
        schema_version(env) >= SCHEMA_VERSION,
    ensures
        schema_version(run(env, invocations)) >= SCHEMA_VERSION,
    decreases invocations.len(),
{
    if invocations.len() > 0 {
        schema_version_stays_current(env, invocations.drop_last());
    }
}

/// After a migration or an initialization that went through, every later migration by the admin
/// succeeds and changes nothing, whatever calls are made in between.
pub proof fn later_migrations_are_no_ops(
    env: EnvView,
    admin: Seq<char>,
    access_control: Seq<char>,
    between: Seq<Invocation>,
)
    requires
        well_formed(env),
    ensures
        migrate_result(env, admin) is Ok ==> ({
            let later = run(migrate_env(env, admin), between);
            &&& migrate_result(later, admin) is Ok
            &&& migrate_env(later, admin) == later
        }),
        initialize_result(env) is Ok ==> ({
            let later = run(initialize_env(env, admin, access_control), between);
            &&& migrate_result(later, admin) is Ok
            &&& migrate_env(later, admin) == later
        }),
{
    let now = env.timestamp;
    assert(at(env, now) == env);
    if migrate_result(env, admin) is Ok {
        call_keeps_well_formed(env, Invocation { now, call: Call::Migrate { admin } });
        admin_is_permanent(migrate_env(env, admin), between);
        schema_version_stays_current(migrate_env(env, admin), between);
    }
    if initialize_result(env) is Ok {
        call_keeps_well_formed(
            env,
            Invocation { now, call: Call::Initialize { admin, access_control } },
        );
        admin_is_permanent(initialize_env(env, admin, access_control), between);
        schema_version_stays_current(initialize_env(env, admin, access_control), between);
    }
}

/// Migration touches the schema version alone: the invoices, the ids and the admin are as before,
/// and later calls are accepted or refused as they would have been.
pub proof fn migration_preserves_data(env: EnvView, admin: Seq<char>)
    ensures
        ({
            let after = migrate_env(env, admin);
            &&& after == (EnvView {
                migration_version: after.migration_version,
                writes: after.writes,
                ..env
            })
            &&& forall|id: u64| #[trigger] lookup(after, id) == lookup(env, id)
            &&& forall|later: Invocation| #[trigger] refusal(after, later) == refusal(env, later)
        }),
{
}

// ---- Minting ----

/// Minting succeeds exactly if the contract is initialized, the terms keep the rules and an id is
/// left.
pub proof fn mint_succeeds_exactly_if(env: EnvView, terms: Terms)
    requires
        well_formed(env),
    ensures
        mint_result(env, terms) is Ok <==> {
            &&& env.admin is Some
            &&& terms.amount > 0
            &&& terms.due_date > env.timestamp
            &&& terms.risk_score <= 100
            &&& terms.debtor_hash.len() > 0
            &&& terms.ipfs_cid.len() > 0
            &&& upcoming_id(env) < u64::MAX
        },
{
}

/// A minted id is new, and the one that was announced; the next one follows it directly. Reading
/// the id gives back the invoice as it was handed in, and all other invoices are as before.
pub proof fn mint_then_read(env: EnvView, terms: Terms, id: u64)
    requires
        well_formed(env),
        mint_result(env, terms) == Ok::<u64, KoraError>(id),
    ensures
        id == upcoming_id(env),
        lookup(env, id) is Err,
        upcoming_id(mint_env(env, terms)) == id + 1,
        mint_env(env, terms).invoices.contains_key(id),
        lookup(mint_env(env, terms), id) == Ok::<InvoiceView, KoraError>(
            new_invoice(id, terms, env.timestamp),
        ),
        forall|other: u64|
            other != id ==> #[trigger] lookup(mint_env(env, terms), other) == lookup(env, other),
{
}

/// The next id never goes down.
pub proof fn next_id_never_decreases(env: EnvView, invocations: Seq<Invocation>)
    requires
        well_formed(env),
    ensures
        upcoming_id(run(env, invocations)) >= upcoming_id(env),
    decreases invocations.len(),
{
    if invocations.len() > 0 {
        next_id_never_decreases(env, invocations.drop_last());
        calls_keep_well_formed(env, invocations.drop_last());
    }
}

/// Ids are unique and consecutive: of two mints, the later one gets the greater id, whatever
/// happens in between, and exactly the mints in between get the ids in between.
pub proof fn ids_are_unique(
    env: EnvView,
    first: Terms,
    first_id: u64,
    between: Seq<Invocation>,
    second: Terms,
    second_id: u64,
)
    requires
        well_formed(env),
        mint_result(env, first) == Ok::<u64, KoraError>(first_id),
        mint_result(run(mint_env(env, first), between), second) == Ok::<u64, KoraError>(second_id),
    ensures
        first_id < second_id,
        second_id == first_id + 1 + accepted_mints(mint_env(env, first), between),
{
    mint_keeps_well_formed(env, first);
    calls_keep_well_formed(mint_env(env, first), between);
    count_counts_mints(mint_env(env, first), between);
}

/// The ids in use are 1, 2, 3 and so on without a gap, and the invoice count is the number of
/// invoices stored.
pub proof fn count_is_number_of_invoices(env: EnvView)
    requires
        well_formed(env),
    ensures
        env.invoices.dom() == Set::<u64>::range(1, upcoming_id(env)),
        env.invoices.dom().finite(),
        env.invoices.dom().len() == minted_count(env),
{
    let given_out = Set::<u64>::range(1, upcoming_id(env));
    assert forall|id: u64| given_out.contains(id) implies #[trigger] env.invoices.dom().contains(
        id,
    ) by {
        assert(env.invoices.contains_key(id));
    }
    assert forall|id: u64| #[trigger] env.invoices.dom().contains(id) implies given_out.contains(
        id,
    ) by {
        assert(env.invoices.contains_key(id));
    }
    assert(env.invoices.dom() =~= given_out);
    vstd::set_lib::range_set_properties::<u64>(1, upcoming_id(env));
}

/// Whatever calls are made to a new contract, its invoice count is the number of invoices stored.
pub proof fn every_count_is_exact(invocations: Seq<Invocation>)
    ensures
        ({
            let env = run(EnvView::empty(), invocations);
            &&& env.invoices.dom().finite()
            &&& env.invoices.dom().len() == minted_count(env)
        }),
{
    every_ledger_is_well_formed(invocations);
    count_is_number_of_invoices(run(EnvView::empty(), invocations));
}

/// A call raises the invoice count by one if it mints an invoice, and else leaves it as it is.
pub proof fn call_counts_its_mint(env: EnvView, invocation: Invocation)
    requires
        well_formed(env),
    ensures
        minted_count(step(env, invocation)) == minted_count(env) + (if mints(env, invocation) {
            1int
        } else {
            0int
        }),
{
}

/// Calls raise the invoice count, and with it the next id, by the number of invoices that they
/// mint.
pub proof fn count_counts_mints(env: EnvView, invocations: Seq<Invocation>)
    requires
        well_formed(env),
    ensures
        minted_count(run(env, invocations)) == minted_count(env) + accepted_mints(env, invocations),
        upcoming_id(run(env, invocations)) == upcoming_id(env) + accepted_mints(env, invocations),
    decreases invocations.len(),
{
    calls_keep_well_formed(env, invocations);
    if invocations.len() > 0 {
        let earlier = invocations.drop_last();
        count_counts_mints(env, earlier);
        calls_keep_well_formed(env, earlier);
        call_counts_its_mint(run(env, earlier), invocations.last());
    }
}

/// The invoice count of a new contract is the number of invoices that its calls have minted.
pub proof fn count_of_new_contract_counts_mints(invocations: Seq<Invocation>)
    ensures
        minted_count(run(EnvView::empty(), invocations)) == accepted_mints(
            EnvView::empty(),
            invocations,
        ),
{
    new_ledger_is_well_formed();
    count_counts_mints(EnvView::empty(), invocations);
}

/// A worse score never gives a better tier.
pub proof fn tier_follows_score(score: u32, worse: u32)
    requires
        score <= worse,
    ensures
        tier_of(score).rank() <= tier_of(worse).rank(),
{
}

// ---- Refused calls, and what a call leaves alone ----

/// A refused call changes nothing on the ledger, and the environment that it hands back is as it
/// was given, but for one write: the mint that finds the last id up has written the invoice under
/// that id before it is refused.
pub proof fn refused_call_changes_nothing(env: EnvView, invocation: Invocation)
    requires
        refusal(env, invocation) is Some,
    ensures
        step(env, invocation) == at(env, invocation.now),
        ({
            let before = at(env, invocation.now);
            match invocation.call {
                Call::Initialize { admin, access_control } => initialize_env(
                    before,
                    admin,
                    access_control,
                ) == before,
                Call::Migrate { admin } => migrate_env(before, admin) == before,
                Call::MintInvoice { terms } => mint_env(before, terms) == if refusal(
                    env,
                    invocation,
                ) == Some(KoraError::ArithmeticOverflow) {
                    before.put_invoice(u64::MAX, new_invoice(u64::MAX, terms, invocation.now))
                } else {
                    before
                },
                Call::SetListed { caller, id } => set_listed_env(before, id) == before,
                Call::SetFunded { caller, id } => set_funded_env(before, caller, id) == before,
                Call::SetRepaid { caller, id } => set_repaid_env(before, id) == before,
                Call::SetDefaulted { caller, id } => set_defaulted_env(before, caller, id)
                    == before,
                Call::AcquireGuard => acquire_env(before) == before,
                Call::ReleaseGuard => false,
                Call::EndTransaction => false,
            }
        }),
{
}

/// The mint that finds the last id up leaves the ids, the events and the invoices under other ids
/// alone.
pub proof fn overflowing_mint_keeps_other_invoices(env: EnvView, terms: Terms)
    requires
        mint_result(env, terms) == Err::<u64, KoraError>(KoraError::ArithmeticOverflow),
    ensures
        ({
            let after = mint_env(env, terms);
            &&& upcoming_id(after) == upcoming_id(env) == u64::MAX
            &&& after.events == env.events
            &&& forall|id: u64|
                id < u64::MAX ==> #[trigger] lookup(after, id) == lookup(env, id)
        }),
{
}

/// A transition touches the invoice that it names alone.
pub proof fn transition_touches_one_invoice(env: EnvView, invocation: Invocation, id: u64)
    requires
        invocation.call matches Call::SetListed { id: named, .. } ==> named == id,
        invocation.call matches Call::SetFunded { id: named, .. } ==> named == id,
        invocation.call matches Call::SetRepaid { id: named, .. } ==> named == id,
        invocation.call matches Call::SetDefaulted { id: named, .. } ==> named == id,
        invocation.call is SetListed || invocation.call is SetFunded || invocation.call is SetRepaid
            || invocation.call is SetDefaulted,
    ensures
        ({
            let after = step(env, invocation);
            &&& after == (EnvView {
                timestamp: invocation.now,
                invoices: after.invoices,
                writes: after.writes,
                events: after.events,
                ..env
            })
            &&& forall|other: u64|
                other != id ==> #[trigger] lookup(after, other) == lookup(env, other)
        }),
{
}

/// Each accepted mint or transition publishes exactly one event, which names its invoice; no
/// other call publishes any.
pub proof fn one_event_for_each_change(env: EnvView, invocation: Invocation)
    ensures
        ({
            let before = env.events;
            let after = step(env, invocation).events;
            let invoices = env.invoices;
            if refusal(env, invocation) is Some {
                after == before
            } else {
                match invocation.call {
                    Call::MintInvoice { terms } => after == before.push(
                        EventView::InvoiceCreated {
                            id: upcoming_id(env),
                            sme: terms.sme,
                            amount: terms.amount,
                        },
                    ),
                    Call::SetListed { caller, id } => after == before.push(
                        EventView::InvoiceListed {
                            id,
                            sme: invoices[id].terms.sme,
                            amount: invoices[id].terms.amount,
                        },
                    ),
                    Call::SetFunded { caller, id } => after == before.push(
                        EventView::InvoiceFunded {
                            id,
                            investor: caller,
                            amount: invoices[id].terms.amount,
                        },
                    ),
                    Call::SetRepaid { caller, id } => after == before.push(
                        EventView::InvoiceRepaid {
                            id,
                            sme: invoices[id].terms.sme,
                            amount: invoices[id].terms.amount,
                        },
                    ),
                    Call::SetDefaulted { caller, id } => after == before.push(
                        EventView::InvoiceDefaulted { id, sme: invoices[id].terms.sme },
                    ),
                    _ => after == before,
                }
            }
        }),
{
}

/// What is stored under a key that a call did not log as written is as before. The lock is not
/// logged; only the calls that take or free it change it.
pub proof fn unwritten_keys_are_unchanged(env: EnvView, invocation: Invocation)
    ensures
        ({
            let after = step(env, invocation);
            let old_len = env.writes.len() as int;
            let written = after.writes.skip(old_len);
            &&& after.writes.len() >= old_len
            &&& after.writes.take(old_len) == env.writes
            &&& !written.contains(DataKey::Admin) ==> after.admin == env.admin
            &&& !written.contains(DataKey::AccessControl) ==> after.access_control
                == env.access_control
            &&& !written.contains(DataKey::NextId) ==> after.next_id == env.next_id
            &&& !written.contains(DataKey::MigrationVersion) ==> after.migration_version
                == env.migration_version
            &&& !is_lock_call(invocation.call) ==> after.lock == env.lock
            &&& forall|id: u64|
                !written.contains(DataKey::Invoice(id)) ==> #[trigger] lookup(after, id) == lookup(
                    env,
                    id,
                )
        }),
{
    let after = step(env, invocation);
    let old_len = env.writes.len() as int;
    let written = after.writes.skip(old_len);
    assert(after.writes.take(old_len) =~= env.writes);
    assert forall|i: int| old_len <= i < after.writes.len() implies written.contains(
        #[trigger] after.writes[i],
    ) by {
        assert(written[i - old_len] == after.writes[i]);
    }
    match invocation.call {
        Call::Initialize { admin, access_control } => {
            if refusal(env, invocation) is None {
                assert(after.writes[old_len] == DataKey::Admin);
                assert(after.writes[old_len + 1] == DataKey::AccessControl);
                assert(after.writes[old_len + 2] == DataKey::NextId);
                assert(after.writes[old_len + 3] == DataKey::MigrationVersion);
            }
        },
        Call::MintInvoice { terms } => {
            if refusal(env, invocation) is None {
                assert(after.writes[old_len] == DataKey::Invoice(upcoming_id(env)));
                assert(after.writes[old_len + 1] == DataKey::NextId);
            }
        },
        _ => {
            if after.writes.len() > old_len {
                assert(written.contains(after.writes[old_len]));
            }
        },
    }
}

// ---- Recorded times ----

/// As long as the ledger's clock does not run backwards, an invoice is created before it is
/// funded, and funded before it is repaid.
pub proof fn recorded_times_are_in_order(env: EnvView, invocations: Seq<Invocation>)
    requires
        well_formed(env),
        times_in_order(env),
        in_order(env.timestamp, invocations),
    ensures
        times_in_order(run(env, invocations)),
        invocations.len() > 0 ==> run(env, invocations).timestamp == invocations.last().now,
    decreases invocations.len(),
{
    if invocations.len() > 0 {
        let earlier = invocations.drop_last();
        assert forall|i: int| 0 <= i < earlier.len() implies (#[trigger] earlier[i]).now >= if i
            == 0 {
            env.timestamp
        } else {
            earlier[i - 1].now
        } by {
            assert(invocations[i] == earlier[i]);
        }
        recorded_times_are_in_order(env, earlier);
        calls_keep_well_formed(env, earlier);
        assert(invocations[invocations.len() - 1] == invocations.last());
        call_keeps_times_in_order(run(env, earlier), invocations.last());
    }
}

proof fn call_keeps_times_in_order(env: EnvView, invocation: Invocation)
    requires
        well_formed(env),
        times_in_order(env),
        invocation.now >= env.timestamp,
    ensures
        times_in_order(step(env, invocation)),
        step(env, invocation).timestamp == invocation.now,
{
}

// ---- The reentrancy lock ----

/// While the lock is held it cannot be taken again: the attempt is answered `Reentrancy` and
/// changes nothing.
pub proof fn lock_excludes_reentry(env: EnvView)
    ensures
        acquire_result(acquire_env(env)) == Err::<(), KoraError>(KoraError::Reentrancy),
        acquire_env(acquire_env(env)) == acquire_env(env),
        locked(acquire_env(env)),
{
}

/// After a release the lock is free to be taken, whether it was held before or not.
pub proof fn release_allows_acquire(env: EnvView)
    ensures
        !locked(release_env(env)),
        acquire_result(release_env(env)) is Ok,
{
}

/// Taking a free lock and releasing it leaves the environment as it was; releasing a free lock
/// does nothing.
pub proof fn acquire_then_release_is_neutral(env: EnvView)
    requires
        !locked(env),
    ensures
        acquire_result(env) is Ok,
        release_env(acquire_env(env)) == env,
        release_env(env) == env,
{
}

/// The lock and the contract's data do not touch each other: a contract call leaves the lock as
/// it is, and answers the same whether the lock is held or not; taking or freeing the lock leaves
/// everything else as it is.
pub proof fn lock_is_independent(env: EnvView, invocation: Invocation)
    ensures
        !is_lock_call(invocation.call) ==> {
            &&& step(env, invocation).lock == env.lock
            &&& refusal(acquire_env(env), invocation) == refusal(env, invocation)
            &&& refusal(release_env(env), invocation) == refusal(env, invocation)
        },
        is_lock_call(invocation.call) ==> step(env, invocation) == (EnvView {
            timestamp: invocation.now,
            lock: step(env, invocation).lock,
            ..env
        }),
{
}

/// The lock does not outlive a transaction: whatever the transaction did, and though it took the
/// lock and never released it, the first attempt of the next transaction to take the lock
/// succeeds.
pub proof fn lock_ends_with_the_transaction(
    env: EnvView,
    transaction: Seq<Invocation>,
    next: Seq<Invocation>,
)
    requires
        forall|i: int| 0 <= i < next.len() ==> !is_lock_call((#[trigger] next[i]).call),
    ensures
        ({
            let later = run(end_transaction_env(run(env, transaction)), next);
            &&& !locked(later)
            &&& acquire_result(later) is Ok
        }),
{
    contract_calls_keep_lock(end_transaction_env(run(env, transaction)), next);
}

/// Contract calls leave the lock as it is, however many.
proof fn contract_calls_keep_lock(env: EnvView, invocations: Seq<Invocation>)
    requires
        forall|i: int|
            0 <= i < invocations.len() ==> !is_lock_call((#[trigger] invocations[i]).call),
    ensures
        run(env, invocations).lock == env.lock,
    decreases invocations.len(),
{
    if invocations.len() > 0 {
        let earlier = invocations.drop_last();
        assert forall|i: int| 0 <= i < earlier.len() implies !is_lock_call(
            (#[trigger] earlier[i]).call,
        ) by {
            assert(earlier[i] == invocations[i]);
        }
        contract_calls_keep_lock(env, earlier);
        assert(invocations.last() == invocations[invocations.len() - 1]);
        lock_is_independent(run(env, earlier), invocations.last());
    }
}

} // verus!
