use vstd::prelude::*;

verus! {

/// A ledger address, by its text form. Two addresses are the same account or contract exactly if
/// their texts are equal.
#[derive(Debug)]
pub struct Address {
    pub strkey: String,
}

impl View for Address {
    type V = Seq<char>;

    open spec fn view(&self) -> Seq<char> {
        self.strkey@
    }
}

impl Address {
    /// The address with the given text form.
    pub fn new(strkey: String) -> (address: Address)
        ensures
            address@ == strkey@,
    {
        Address { strkey }
    }
}

impl Clone for Address {
    fn clone(&self) -> (copy: Self)
        ensures
            copy == *self,
    {
        Address { strkey: self.strkey.clone() }
    }
}

impl PartialEq for Address {
    fn eq(&self, other: &Self) -> (equal: bool) {
        self.strkey == other.strkey
    }
}

impl vstd::std_specs::cmp::PartialEqSpecImpl for Address {
    open spec fn obeys_eq_spec() -> bool {
        true
    }

    open spec fn eq_spec(&self, other: &Self) -> bool {
        self@ == other@
    }
}

impl Eq for Address {

}

/// How an invoice is rated, from the best tier to the worst.
#[derive(Clone, Copy, PartialEq, Eq, Structural, Debug)]
pub enum RiskTier {
    AAA,
    AA,
    A,
    B,
    C,
}

/// The tier of a risk score: each tier spans twenty points, the first one 0 to 20.
pub open spec fn tier_of(score: u32) -> RiskTier {
    if score <= 20 {
        RiskTier::AAA
    } else if score <= 40 {
        RiskTier::AA
    } else if score <= 60 {
        RiskTier::A
    } else if score <= 80 {
        RiskTier::B
    } else {
        RiskTier::C
    }
}

impl RiskTier {
    /// The tier's place, counted from the best.
    pub open spec fn rank(self) -> nat {
        match self {
            RiskTier::AAA => 0,
            RiskTier::AA => 1,
            RiskTier::A => 2,
            RiskTier::B => 3,
            RiskTier::C => 4,
        }
    }

    /// Maps a risk score to its tier.
    pub fn from_score(score: u32) -> (tier: RiskTier)
        ensures
            tier == tier_of(score),
            tier == RiskTier::AAA <==> score <= 20,
            tier == RiskTier::AA <==> 20 < score <= 40,
            tier == RiskTier::A <==> 40 < score <= 60,
            tier == RiskTier::B <==> 60 < score <= 80,
            tier == RiskTier::C <==> 80 < score,
    {
        match score {
            0..=20 => RiskTier::AAA,
            21..=40 => RiskTier::AA,
            41..=60 => RiskTier::A,
            61..=80 => RiskTier::B,
            _ => RiskTier::C,
        }
    }
}

/// Where an invoice stands in its life cycle.
#[derive(Clone, Copy, PartialEq, Eq, Structural, Debug)]
pub enum InvoiceStatus {
    Created,
    Listed,
    Funded,
    Repaid,
    Defaulted,
}

/// What an invoice says: all that the SME hands over when it is minted.
#[verifier::ext_equal]
pub struct Terms {
    pub sme: Seq<char>,
    pub debtor_hash: Seq<u8>,
    pub amount: i128,
    pub currency: Seq<char>,
    pub due_date: u64,
    pub ipfs_cid: Seq<u8>,
    pub risk_score: u32,
}

/// The mathematical content of an [`Invoice`].
#[verifier::ext_equal]
pub struct InvoiceView {
    pub id: u64,
    pub terms: Terms,
    pub risk_tier: RiskTier,
    pub status: InvoiceStatus,
    pub created_at: u64,
    pub funded_at: Option<u64>,
    pub repaid_at: Option<u64>,
}

/// An invoice as it is stored.
#[derive(Debug)]
pub struct Invoice {
    pub id: u64,
    pub sme: Address,
    pub debtor_hash: Vec<u8>,
    pub amount: i128,
    pub currency: String,
    pub due_date: u64,
    /// The bytes of the content identifier; the ledger does not ask a text to be UTF-8.
    pub ipfs_cid: Vec<u8>,
    pub risk_score: u32,
    pub risk_tier: RiskTier,
    pub status: InvoiceStatus,
    pub created_at: u64,
    pub funded_at: Option<u64>,
    pub repaid_at: Option<u64>,
}

impl View for Invoice {
    type V = InvoiceView;

    open spec fn view(&self) -> InvoiceView {
        InvoiceView {
            id: self.id,
            terms: Terms {
                sme: self.sme@,
                debtor_hash: self.debtor_hash@,
                amount: self.amount,
                currency: self.currency@,
                due_date: self.due_date,
                ipfs_cid: self.ipfs_cid@,
                risk_score: self.risk_score,
            },
            risk_tier: self.risk_tier,
            status: self.status,
            created_at: self.created_at,
            funded_at: self.funded_at,
            repaid_at: self.repaid_at,
        }
    }
}

impl Clone for Invoice {
    fn clone(&self) -> (copy: Self)
        ensures
            copy@ == self@,
    {
        let debtor_hash = self.debtor_hash.clone();
        let ipfs_cid = self.ipfs_cid.clone();
        assert(debtor_hash@ =~= self.debtor_hash@);
        assert(ipfs_cid@ =~= self.ipfs_cid@);
        Invoice {
            id: self.id,
            sme: self.sme.clone(),
            debtor_hash,
            amount: self.amount,
            currency: self.currency.clone(),
            due_date: self.due_date,
            ipfs_cid,
            risk_score: self.risk_score,
            risk_tier: self.risk_tier,
            status: self.status,
            created_at: self.created_at,
            funded_at: self.funded_at,
            repaid_at: self.repaid_at,
        }
    }
}

/// The mathematical content of an [`Event`].
#[verifier::ext_equal]
pub enum EventView {
    InvoiceCreated { id: u64, sme: Seq<char>, amount: i128 },
    InvoiceListed { id: u64, sme: Seq<char>, amount: i128 },
    InvoiceFunded { id: u64, investor: Seq<char>, amount: i128 },
    InvoiceRepaid { id: u64, sme: Seq<char>, amount: i128 },
    InvoiceDefaulted { id: u64, sme: Seq<char> },
}

/// What the contract tells the outside world about an invoice.
#[derive(Debug)]
pub enum Event {
    InvoiceCreated { id: u64, sme: Address, amount: i128 },
    InvoiceListed { id: u64, sme: Address, amount: i128 },
    InvoiceFunded { id: u64, investor: Address, amount: i128 },
    InvoiceRepaid { id: u64, sme: Address, amount: i128 },
    InvoiceDefaulted { id: u64, sme: Address },
}

impl View for Event {
    type V = EventView;

    open spec fn view(&self) -> EventView {
        match *self {
            Event::InvoiceCreated { id, sme, amount } => EventView::InvoiceCreated {
                id,
                sme: sme@,
                amount,
            },
            Event::InvoiceListed { id, sme, amount } => EventView::InvoiceListed {
                id,
                sme: sme@,
                amount,
            },
            Event::InvoiceFunded { id, investor, amount } => EventView::InvoiceFunded {
                id,
                investor: investor@,
                amount,
            },
            Event::InvoiceRepaid { id, sme, amount } => EventView::InvoiceRepaid {
                id,
                sme: sme@,
                amount,
            },
            Event::InvoiceDefaulted { id, sme } => EventView::InvoiceDefaulted { id, sme: sme@ },
        }
    }
}

} // verus!
