//! Sequences of calls to one contract instance, in one transaction or over many, and what is always
//! true of its ledger.

use vstd::prelude::*;

use crate::env::EnvView;
use crate::errors::KoraError;
use crate::invoice_nft::{
    initialize_env, initialize_result, migrate_env, migrate_result, mint_env, mint_result,
    set_defaulted_env, set_defaulted_result, set_funded_env, set_funded_result, set_listed_env,
    set_listed_result, set_repaid_env, set_repaid_result, upcoming_id,
};
use crate::reentrancy::{acquire_env, acquire_result, end_transaction_env, release_env};
use crate::types::{tier_of, InvoiceStatus, InvoiceView, Terms};
use crate::validation::MAX_RISK_SCORE;

verus! {

/// A call that may change the ledger, or the end of a transaction.
pub enum Call {
    Initialize { admin: Seq<char>, access_control: Seq<char> },
    Migrate { admin: Seq<char> },
    MintInvoice { terms: Terms },
    SetListed { caller: Seq<char>, id: u64 },
    SetFunded { caller: Seq<char>, id: u64 },
    SetRepaid { caller: Seq<char>, id: u64 },
    SetDefaulted { caller: Seq<char>, id: u64 },
    AcquireGuard,
    ReleaseGuard,
    EndTransaction,
}

/// A call together with the ledger time at which it is made.
pub struct Invocation {
    pub now: u64,
    pub call: Call,
}

/// The environment at another time.
pub open spec fn at(env: EnvView, now: u64) -> EnvView {
    EnvView { timestamp: now, ..env }
}

/// The error of a call, if it is refused.
pub open spec fn refusal(env: EnvView, invocation: Invocation) -> Option<KoraError> {
    let before = at(env, invocation.now);
    match invocation.call {
        Call::Initialize { admin, access_control } => error_of(initialize_result(before)),
        Call::Migrate { admin } => error_of(migrate_result(before, admin)),
        Call::MintInvoice { terms } => error_of(mint_result(before, terms)),
        Call::SetListed { caller, id } => error_of(set_listed_result(before, id)),
        Call::SetFunded { caller, id } => error_of(set_funded_result(before, id)),
        Call::SetRepaid { caller, id } => error_of(set_repaid_result(before, id)),
        Call::SetDefaulted { caller, id } => error_of(set_defaulted_result(before, caller, id)),
        Call::AcquireGuard => error_of(acquire_result(before)),
        Call::ReleaseGuard => None,
        Call::EndTransaction => None,
    }
}

/// The error of a result, if it is one.
pub open spec fn error_of<T>(result: Result<T, KoraError>) -> Option<KoraError> {
    match result {
        Ok(_) => None,
        Err(e) => Some(e),
    }
}

/// The environment after one call. The ledger drops whatever a refused call has written.
pub open spec fn step(env: EnvView, invocation: Invocation) -> EnvView {
    let before = at(env, invocation.now);
    if refusal(env, invocation) is Some {
        before
    } else {
        match invocation.call {
            Call::Initialize { admin, access_control } => initialize_env(
                before,
                admin,
                access_control,
            ),
            Call::Migrate { admin } => migrate_env(before, admin),
            Call::MintInvoice { terms } => mint_env(before, terms),
            Call::SetListed { caller, id } => set_listed_env(before, id),
            Call::SetFunded { caller, id } => set_funded_env(before, caller, id),
            Call::SetRepaid { caller, id } => set_repaid_env(before, id),
            Call::SetDefaulted { caller, id } => set_defaulted_env(before, caller, id),
            Call::AcquireGuard => acquire_env(before),
            Call::ReleaseGuard => release_env(before),
            Call::EndTransaction => end_transaction_env(before),
        }
    }
}

/// The environment after a sequence of calls.
pub open spec fn run(env: EnvView, invocations: Seq<Invocation>) -> EnvView
    decreases invocations.len(),
{
    if invocations.len() == 0 {
        env
    } else {
        step(run(env, invocations.drop_last()), invocations.last())
    }
}

/// Whether a call is one of those that take or free the lock.
pub open spec fn is_lock_call(call: Call) -> bool {
    call is AcquireGuard || call is ReleaseGuard || call is EndTransaction
}

/// Whether a call mints an invoice.
pub open spec fn mints(env: EnvView, invocation: Invocation) -> bool {
    invocation.call is MintInvoice && refusal(env, invocation) is None
}

/// How many of a sequence of calls mint an invoice.
pub open spec fn accepted_mints(env: EnvView, invocations: Seq<Invocation>) -> nat
    decreases invocations.len(),
{
    if invocations.len() == 0 {
        0
    } else {
        let earlier = invocations.drop_last();
        accepted_mints(env, earlier) + if mints(run(env, earlier), invocations.last()) {
            1nat
        } else {
            0nat
        }
    }
}

/// Whether an invoice with this status has been funded at some time.
pub open spec fn past_funding(status: InvoiceStatus) -> bool {
    status == InvoiceStatus::Funded || status == InvoiceStatus::Repaid || status
        == InvoiceStatus::Defaulted
}

/// What is true of each stored invoice: it keeps the rules on its terms, its tier is that of its
/// score, and the recorded times fit its status.
pub open spec fn invoice_well_formed(invoice: InvoiceView) -> bool {
    &&& invoice.terms.amount > 0
    &&& invoice.terms.due_date > invoice.created_at
    &&& invoice.terms.risk_score <= MAX_RISK_SCORE
    &&& invoice.terms.debtor_hash.len() > 0
    &&& invoice.terms.ipfs_cid.len() > 0
    &&& invoice.risk_tier == tier_of(invoice.terms.risk_score)
    &&& invoice.funded_at is Some <==> past_funding(invoice.status)
    &&& invoice.repaid_at is Some <==> invoice.status == InvoiceStatus::Repaid
}

/// What is true of the ledger of a contract instance at any time.
pub open spec fn well_formed(env: EnvView) -> bool {
    // The contract is initialized as a whole, and holds nothing before.
    &&& env.admin is Some <==> env.access_control is Some
    &&& env.admin is Some <==> env.next_id is Some
    &&& env.admin is None ==> env.invoices =~= Map::<u64, InvoiceView>::empty()
    // Ids start at 1, and all that were given out are in use.
    &&& upcoming_id(env) >= 1
    &&& forall|id: u64|
        1 <= id < upcoming_id(env) ==> #[trigger] env.invoices.contains_key(id)
    // Each invoice is stored under its own id, which has been given out.
    &&& forall|id: u64| #[trigger]
        env.invoices.contains_key(id) ==> {
            &&& env.invoices[id].id == id
            &&& 1 <= id < upcoming_id(env)
            &&& invoice_well_formed(env.invoices[id])
        }
}

/// Whether the life cycle leads from one status directly to another.
pub open spec fn leads_to(from: InvoiceStatus, to: InvoiceStatus) -> bool {
    match from {
        InvoiceStatus::Created => to == InvoiceStatus::Listed,
        InvoiceStatus::Listed => to == InvoiceStatus::Funded,
        InvoiceStatus::Funded => to == InvoiceStatus::Repaid || to == InvoiceStatus::Defaulted,
        InvoiceStatus::Repaid => false,
        InvoiceStatus::Defaulted => false,
    }
}

/// Whether the life cycle leads from one status to another in any number of steps, none included.
pub open spec fn reaches(from: InvoiceStatus, to: InvoiceStatus) -> bool {
    ||| from == to
    ||| from == InvoiceStatus::Created
    ||| from == InvoiceStatus::Listed && past_funding(to)
    ||| leads_to(from, to)
}

/// Whether one invoice is another one at a later time: the same id, terms, tier and time of
/// creation, a status that the life cycle leads to, and recorded times that stay.
pub open spec fn later_state_of(before: InvoiceView, after: InvoiceView) -> bool {
    &&& after.id == before.id
    &&& after.terms == before.terms
    &&& after.risk_tier == before.risk_tier
    &&& after.created_at == before.created_at
    &&& reaches(before.status, after.status)
    &&& before.funded_at is Some ==> after.funded_at == before.funded_at
    &&& before.repaid_at is Some ==> after.repaid_at == before.repaid_at
}

/// Whether no call is made before the one that precedes it, nor before `start`.
pub open spec fn in_order(start: u64, invocations: Seq<Invocation>) -> bool {
    forall|i: int|
        0 <= i < invocations.len() ==> (#[trigger] invocations[i]).now >= if i == 0 {
            start
        } else {
            invocations[i - 1].now
        }
}

/// Whether the recorded times follow the life cycle and lie in the past.
pub open spec fn times_in_order(env: EnvView) -> bool {
    forall|id: u64| #[trigger]
        env.invoices.contains_key(id) ==> {
            let invoice = env.invoices[id];
            &&& invoice.created_at <= env.timestamp
            &&& invoice.funded_at matches Some(funded) ==> invoice.created_at <= funded
                <= env.timestamp
            &&& invoice.repaid_at matches Some(repaid) ==> invoice.funded_at matches Some(
                funded,
            ) && funded <= repaid <= env.timestamp
        }
}

} // verus!
