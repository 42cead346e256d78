use vstd::prelude::*;

use crate::env::{DataKey, Env, EnvView};
use crate::errors::KoraError;
use crate::types::{
    tier_of, Address, Event, EventView, Invoice, InvoiceStatus, InvoiceView, RiskTier, Terms,
};
use crate::validation::{
    require_future_timestamp, require_non_empty_bytes, require_non_empty_string,
    require_non_zero_amount, require_valid_risk_score, MAX_RISK_SCORE,
};

verus! {

/// The schema version that this contract works on.
pub const SCHEMA_VERSION: u32 = 1;

/// The contract that mints invoice NFTs and moves them through their life cycle.
#[derive(Clone, Copy, PartialEq, Eq, Structural, Debug)]
pub struct InvoiceNftContract;

// ---- What each call answers, and the environment that it leaves ----

/// The id that the next invoice gets; ids start at 1.
pub open spec fn upcoming_id(env: EnvView) -> u64 {
    match env.next_id {
        Some(id) => id,
        None => 1,
    }
}

/// The schema version of the stored data; data without a version has version 0.
pub open spec fn schema_version(env: EnvView) -> u32 {
    match env.migration_version {
        Some(version) => version,
        None => 0,
    }
}

/// Accepts the admin alone, and nobody before there is one.
pub open spec fn admin_check(env: EnvView, caller: Seq<char>) -> Result<(), KoraError> {
    match env.admin {
        None => Err(KoraError::NotInitialized),
        Some(admin) => if admin == caller {
            Ok(())
        } else {
            Err(KoraError::NotAdmin)
        },
    }
}

/// Accepts every call once an access control contract is known.
pub open spec fn pause_check(env: EnvView) -> Result<(), KoraError> {
    if env.access_control is Some {
        Ok(())
    } else {
        Err(KoraError::NotInitialized)
    }
}

/// The answer to the terms of a new invoice, at a given time: the first of the rules that they
/// break decides the error.
pub open spec fn terms_check(terms: Terms, now: u64) -> Result<(), KoraError> {
    if terms.amount <= 0 {
        Err(KoraError::InvalidAmount)
    } else if terms.due_date <= now {
        Err(KoraError::InvalidDueDate)
    } else if terms.risk_score > MAX_RISK_SCORE {
        Err(KoraError::InvalidRiskScore)
    } else if terms.debtor_hash.len() == 0 {
        Err(KoraError::EmptyBytes)
    } else if terms.ipfs_cid.len() == 0 {
        Err(KoraError::EmptyString)
    } else {
        Ok(())
    }
}

/// The invoice under the id, if one is stored.
pub open spec fn lookup(env: EnvView, id: u64) -> Result<InvoiceView, KoraError> {
    if env.invoices.contains_key(id) {
        Ok(env.invoices[id])
    } else {
        Err(KoraError::InvoiceNotFound)
    }
}

/// Accepts an id under which an invoice with the given status is stored.
pub open spec fn status_check(env: EnvView, id: u64, status: InvoiceStatus) -> Result<
    (),
    KoraError,
> {
    match lookup(env, id) {
        Err(e) => Err(e),
        Ok(invoice) => if invoice.status == status {
            Ok(())
        } else {
            Err(KoraError::InvalidInvoiceStatus)
        },
    }
}

/// Accepts the call as long as there is no admin.
pub open spec fn initialize_result(env: EnvView) -> Result<(), KoraError> {
    if env.admin is Some {
        Err(KoraError::AlreadyInitialized)
    } else {
        Ok(())
    }
}

/// The contract starts with id 1 and at the current schema version.
pub open spec fn initialize_env(
    env: EnvView,
    admin: Seq<char>,
    access_control: Seq<char>,
) -> EnvView {
    if initialize_result(env) is Ok {
        env.put_admin(admin).put_access_control(access_control).put_next_id(
            1,
        ).put_migration_version(SCHEMA_VERSION)
    } else {
        env
    }
}

/// Accepts the admin.
pub open spec fn migrate_result(env: EnvView, admin: Seq<char>) -> Result<(), KoraError> {
    admin_check(env, admin)
}

/// Data below the current version is brought up to it; data at or above it stays.
pub open spec fn migrate_env(env: EnvView, admin: Seq<char>) -> EnvView {
    if migrate_result(env, admin) is Ok && schema_version(env) < SCHEMA_VERSION {
        env.put_migration_version(SCHEMA_VERSION)
    } else {
        env
    }
}

/// The invoice that is stored when these terms are minted.
pub open spec fn new_invoice(id: u64, terms: Terms, now: u64) -> InvoiceView {
    InvoiceView {
        id,
        terms,
        risk_tier: tier_of(terms.risk_score),
        status: InvoiceStatus::Created,
        created_at: now,
        funded_at: None,
        repaid_at: None,
    }
}

/// Whether nothing but the supply of ids stands in the way of minting these terms.
pub open spec fn mintable(env: EnvView, terms: Terms) -> bool {
    pause_check(env) is Ok && terms_check(terms, env.timestamp) is Ok
}

/// The id of the new invoice: the one that is up.
pub open spec fn mint_result(env: EnvView, terms: Terms) -> Result<u64, KoraError> {
    match pause_check(env) {
        Err(e) => Err(e),
        Ok(_) => match terms_check(terms, env.timestamp) {
            Err(e) => Err(e),
            Ok(_) => if upcoming_id(env) == u64::MAX {
                Err(KoraError::ArithmeticOverflow)
            } else {
                Ok(upcoming_id(env))
            },
        },
    }
}

/// The invoice is written first. Where the last id is up, the call ends there, with the invoice
/// under that id and the next id where it was.
pub open spec fn mint_env(env: EnvView, terms: Terms) -> EnvView {
    let id = upcoming_id(env);
    let stored = env.put_invoice(id, new_invoice(id, terms, env.timestamp));
    if !mintable(env, terms) {
        env
    } else if id == u64::MAX {
        stored
    } else {
        stored.put_next_id((id + 1) as u64).publish(
            EventView::InvoiceCreated { id, sme: terms.sme, amount: terms.amount },
        )
    }
}

/// Accepts an invoice that is `Created`.
pub open spec fn set_listed_result(env: EnvView, id: u64) -> Result<(), KoraError> {
    match pause_check(env) {
        Err(e) => Err(e),
        Ok(_) => status_check(env, id, InvoiceStatus::Created),
    }
}

/// The status moves; the event names the SME.
pub open spec fn set_listed_env(env: EnvView, id: u64) -> EnvView {
    let invoice = env.invoices[id];
    if set_listed_result(env, id) is Ok {
        env.put_invoice(id, InvoiceView { status: InvoiceStatus::Listed, ..invoice }).publish(
            EventView::InvoiceListed {
                id,
                sme: invoice.terms.sme,
                amount: invoice.terms.amount,
            },
        )
    } else {
        env
    }
}

/// Accepts an invoice that is `Listed`.
pub open spec fn set_funded_result(env: EnvView, id: u64) -> Result<(), KoraError> {
    match pause_check(env) {
        Err(e) => Err(e),
        Ok(_) => status_check(env, id, InvoiceStatus::Listed),
    }
}

/// The status moves and the time is noted; the event names the caller.
pub open spec fn set_funded_env(env: EnvView, caller: Seq<char>, id: u64) -> EnvView {
    let invoice = env.invoices[id];
    if set_funded_result(env, id) is Ok {
        env.put_invoice(
            id,
            InvoiceView {
                status: InvoiceStatus::Funded,
                funded_at: Some(env.timestamp),
                ..invoice
            },
        ).publish(
            EventView::InvoiceFunded { id, investor: caller, amount: invoice.terms.amount },
        )
    } else {
        env
    }
}

/// Accepts an invoice that is `Funded`.
pub open spec fn set_repaid_result(env: EnvView, id: u64) -> Result<(), KoraError> {
    status_check(env, id, InvoiceStatus::Funded)
}

/// The status moves and the time is noted; the event names the SME.
pub open spec fn set_repaid_env(env: EnvView, id: u64) -> EnvView {
    let invoice = env.invoices[id];
    if set_repaid_result(env, id) is Ok {
        env.put_invoice(
            id,
            InvoiceView {
                status: InvoiceStatus::Repaid,
                repaid_at: Some(env.timestamp),
                ..invoice
            },
        ).publish(
            EventView::InvoiceRepaid {
                id,
                sme: invoice.terms.sme,
                amount: invoice.terms.amount,
            },
        )
    } else {
        env
    }
}

/// Accepts the admin, on a `Funded` invoice whose due date has passed; on the due date itself it has
/// not.
pub open spec fn set_defaulted_result(env: EnvView, caller: Seq<char>, id: u64) -> Result<
    (),
    KoraError,
> {
    match admin_check(env, caller) {
        Err(e) => Err(e),
        Ok(_) => match status_check(env, id, InvoiceStatus::Funded) {
            Err(e) => Err(e),
            Ok(_) => if env.timestamp > env.invoices[id].terms.due_date {
                Ok(())
            } else {
                Err(KoraError::InvalidInvoiceStatus)
            },
        },
    }
}

/// The status moves; the event names the SME.
pub open spec fn set_defaulted_env(env: EnvView, caller: Seq<char>, id: u64) -> EnvView {
    let invoice = env.invoices[id];
    if set_defaulted_result(env, caller, id) is Ok {
        env.put_invoice(id, InvoiceView { status: InvoiceStatus::Defaulted, ..invoice }).publish(
            EventView::InvoiceDefaulted { id, sme: invoice.terms.sme },
        )
    } else {
        env
    }
}

/// How many invoices have been minted.
pub open spec fn minted_count(env: EnvView) -> u64 {
    if upcoming_id(env) == 0 {
        0
    } else {
        (upcoming_id(env) - 1) as u64
    }
}

// ---- The contract ----

impl InvoiceNftContract {
    /// One-time initializer. Sets the admin and the address of the access control contract.
    pub fn initialize(env: &mut Env, admin: Address, access_control: Address) -> (result: Result<
        (),
        KoraError,
    >)
        ensures
            result == initialize_result(old(env)@),
            final(env)@ == initialize_env(old(env)@, admin@, access_control@),
    {
        if env.has(&DataKey::Admin) {
            return Err(KoraError::AlreadyInitialized);
        }
        env.put_admin(admin);
        env.put_access_control(access_control);
        env.put_next_id(1);
        env.put_migration_version(SCHEMA_VERSION);
        Ok(())
    }

    /// Brings stored data up to the current schema version. Only the admin may call it, and has to
    /// authorize the call; a second call does nothing.
    pub fn migrate(env: &mut Env, admin: Address) -> (result: Result<(), KoraError>)
        requires
            old(env)@.is_authorized(admin@),
        ensures
            result == migrate_result(old(env)@, admin@),
            final(env)@ == migrate_env(old(env)@, admin@),
    {
        Self::require_admin(env, &admin)?;
        let current_version: u32 = match env.migration_version {
            Some(version) => version,
            None => 0,
        };
        if current_version < SCHEMA_VERSION {
            env.put_migration_version(SCHEMA_VERSION);
        }
        Ok(())
    }

    /// Mints a new invoice NFT and returns its id. The SME has to authorize the call.
    pub fn mint_invoice(
        env: &mut Env,
        sme: Address,
        debtor_hash: Vec<u8>,
        amount: i128,
        currency: String,
        due_date: u64,
        ipfs_cid: Vec<u8>,
        risk_score: u32,
    ) -> (result: Result<u64, KoraError>)
        requires
            old(env)@.is_authorized(sme@),
        ensures
            ({
                let terms = Terms {
                    sme: sme@,
                    debtor_hash: debtor_hash@,
                    amount,
                    currency: currency@,
                    due_date,
                    ipfs_cid: ipfs_cid@,
                    risk_score,
                };
                &&& result == mint_result(old(env)@, terms)
                &&& final(env)@ == mint_env(old(env)@, terms)
            }),
    {
        Self::require_not_paused(env)?;

        require_non_zero_amount(amount)?;
        require_future_timestamp(env.timestamp, due_date)?;
        require_valid_risk_score(risk_score)?;
        require_non_empty_bytes(&debtor_hash)?;
        require_non_empty_string(&ipfs_cid)?;

        let id: u64 = Self::next_id(env);
        let created_at: u64 = env.timestamp;
        let issuer = sme.clone();
        env.put_invoice(
            id,
            Invoice {
                id,
                sme,
                debtor_hash,
                amount,
                currency,
                due_date,
                ipfs_cid,
                risk_score,
                risk_tier: RiskTier::from_score(risk_score),
                status: InvoiceStatus::Created,
                created_at,
                funded_at: None,
                repaid_at: None,
            },
        );
        match id.checked_add(1) {
            Some(next) => env.put_next_id(next),
            None => {
                return Err(KoraError::ArithmeticOverflow);
            },
        }
        env.publish(Event::InvoiceCreated { id, sme: issuer, amount });
        Ok(id)
    }

    /// Moves an invoice from `Created` to `Listed`. Called by the marketplace, which has to
    /// authorize the call.
    pub fn set_listed(env: &mut Env, caller: Address, invoice_id: u64) -> (result: Result<
        (),
        KoraError,
    >)
        requires
            old(env)@.is_authorized(caller@),
        ensures
            result == set_listed_result(old(env)@, invoice_id),
            final(env)@ == set_listed_env(old(env)@, invoice_id),
    {
        Self::require_not_paused(env)?;
        let mut invoice = Self::load_invoice(env, invoice_id)?;
        if invoice.status != InvoiceStatus::Created {
            return Err(KoraError::InvalidInvoiceStatus);
        }
        invoice.status = InvoiceStatus::Listed;
        let sme = invoice.sme.clone();
        let amount: i128 = invoice.amount;
        env.put_invoice(invoice_id, invoice);
        env.publish(Event::InvoiceListed { id: invoice_id, sme, amount });
        Ok(())
    }

    /// Moves an invoice from `Listed` to `Funded` and notes the time. Called by the financing
    /// pool, which has to authorize the call.
    pub fn set_funded(env: &mut Env, caller: Address, invoice_id: u64) -> (result: Result<
        (),
        KoraError,
    >)
        requires
            old(env)@.is_authorized(caller@),
        ensures
            result == set_funded_result(old(env)@, invoice_id),
            final(env)@ == set_funded_env(old(env)@, caller@, invoice_id),
    {
        Self::require_not_paused(env)?;
        let mut invoice = Self::load_invoice(env, invoice_id)?;
        if invoice.status != InvoiceStatus::Listed {
            return Err(KoraError::InvalidInvoiceStatus);
        }
        invoice.status = InvoiceStatus::Funded;
        invoice.funded_at = Some(env.timestamp);
        let amount: i128 = invoice.amount;
        env.put_invoice(invoice_id, invoice);
        env.publish(Event::InvoiceFunded { id: invoice_id, investor: caller, amount });
        Ok(())
    }

    /// Moves an invoice from `Funded` to `Repaid` and notes the time. Called by the financing
    /// pool on full repayment, with its authorization.
    pub fn set_repaid(env: &mut Env, caller: Address, invoice_id: u64) -> (result: Result<
        (),
        KoraError,
    >)
        requires
            old(env)@.is_authorized(caller@),
        ensures
            result == set_repaid_result(old(env)@, invoice_id),
            final(env)@ == set_repaid_env(old(env)@, invoice_id),
    {
        let mut invoice = Self::load_invoice(env, invoice_id)?;
        if invoice.status != InvoiceStatus::Funded {
            return Err(KoraError::InvalidInvoiceStatus);
        }
        invoice.status = InvoiceStatus::Repaid;
        invoice.repaid_at = Some(env.timestamp);
        let sme = invoice.sme.clone();
        let amount: i128 = invoice.amount;
        env.put_invoice(invoice_id, invoice);
        env.publish(Event::InvoiceRepaid { id: invoice_id, sme, amount });
        Ok(())
    }

    /// Moves an invoice from `Funded` to `Defaulted`. Only the admin may call it, with their
    /// authorization, and only after the due date.
    pub fn set_defaulted(env: &mut Env, caller: Address, invoice_id: u64) -> (result: Result<
        (),
        KoraError,
    >)
        requires
            old(env)@.is_authorized(caller@),
        ensures
            result == set_defaulted_result(old(env)@, caller@, invoice_id),
            final(env)@ == set_defaulted_env(old(env)@, caller@, invoice_id),
    {
        Self::require_admin(env, &caller)?;
        let mut invoice = Self::load_invoice(env, invoice_id)?;
        if invoice.status != InvoiceStatus::Funded {
            return Err(KoraError::InvalidInvoiceStatus);
        }
        let current_time: u64 = env.timestamp;
        if current_time <= invoice.due_date {
            return Err(KoraError::InvalidInvoiceStatus);
        }
        invoice.status = InvoiceStatus::Defaulted;
        let sme = invoice.sme.clone();
        env.put_invoice(invoice_id, invoice);
        env.publish(Event::InvoiceDefaulted { id: invoice_id, sme });
        Ok(())
    }

    /// The invoice with the id.
    pub fn get_invoice(env: &Env, invoice_id: u64) -> (result: Result<Invoice, KoraError>)
        ensures
            match result {
                Ok(invoice) => lookup(env@, invoice_id) == Ok::<InvoiceView, KoraError>(invoice@),
                Err(e) => lookup(env@, invoice_id) == Err::<InvoiceView, KoraError>(e),
            },
            result is Ok <==> env@.invoices.contains_key(invoice_id),
            result matches Ok(invoice) ==> invoice@ == env@.invoices[invoice_id],
            result matches Err(e) ==> e == KoraError::InvoiceNotFound,
    {
        Self::load_invoice(env, invoice_id)
    }

    /// The id that the next invoice gets, starting at 1.
    pub fn next_id(env: &Env) -> (id: u64)
        ensures
            id == upcoming_id(env@),
            env.next_id matches Some(next) ==> id == next,
            env.next_id is None ==> id == 1,
    {
        match env.next_id {
            Some(id) => id,
            None => 1,
        }
    }

    /// The number of invoices minted.
    pub fn invoice_count(env: &Env) -> (count: u64)
        ensures
            count == minted_count(env@),
            env.next_id matches Some(next) ==> count == if next == 0 { 0 } else { next - 1 },
            env.next_id is None ==> count == 0,
    {
        Self::next_id(env).saturating_sub(1)
    }

    fn load_invoice(env: &Env, id: u64) -> (result: Result<Invoice, KoraError>)
        ensures
            match result {
                Ok(invoice) => lookup(env@, id) == Ok::<InvoiceView, KoraError>(invoice@),
                Err(e) => lookup(env@, id) == Err::<InvoiceView, KoraError>(e),
            },
            result is Ok <==> env@.invoices.contains_key(id),
            result matches Ok(invoice) ==> invoice@ == env@.invoices[id],
            result matches Err(e) ==> e == KoraError::InvoiceNotFound,
    {
        match env.invoice(id) {
            Some(invoice) => Ok(invoice.clone()),
            None => Err(KoraError::InvoiceNotFound),
        }
    }

    fn require_admin(env: &Env, caller: &Address) -> (result: Result<(), KoraError>)
        ensures
            result == admin_check(env@, caller@),
    {
        match &env.admin {
            None => Err(KoraError::NotInitialized),
            Some(admin) => {
                if admin != caller {
                    return Err(KoraError::NotAdmin);
                }
                Ok(())
            },
        }
    }

    /// The pause state itself is kept by the access control contract; this contract asks only
    /// that it knows one.
    fn require_not_paused(env: &Env) -> (result: Result<(), KoraError>)
        ensures
            result == pause_check(env@),
    {
        if env.has(&DataKey::AccessControl) {
            Ok(())
        } else {
            Err(KoraError::NotInitialized)
        }
    }
}

} // verus!
