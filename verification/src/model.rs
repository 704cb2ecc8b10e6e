//! Request-scoped value objects: caller input and the JSON request bodies
//! of the four remote calls, with verified builders for each body.

use vstd::prelude::*;

verus! {

/// Caller input for one payout run: the payee's identity, the bank account
/// to disburse to, and the amount in minor currency units.
pub struct PayRequest {
    pub name: String,
    pub email: String,
    pub contact: String,
    pub account_number: String,
    pub ifsc: String,
    pub amount: u64,
}

impl PayRequest {
    /// What the remote contract requires of caller input: a non-empty payee
    /// name and email, and a positive amount of minor currency units. The
    /// contact number, account number and routing code are not locally
    /// validated; the remote service judges them.
    pub open spec fn wf(&self) -> bool {
        &&& self.name@.len() > 0
        &&& self.email@.len() > 0
        &&& self.amount > 0
    }
}

/// Body of the contact-registration call.
pub struct Contact {
    pub name: String,
    pub email: String,
    pub contact: String,
    /// Serialized under the field name `type`; always `customer` here.
    pub contact_type: String,
}

/// The bank-account block inside a fund-account registration body.
pub struct BankAccount {
    pub name: String,
    pub account_number: String,
    pub ifsc: String,
}

/// Body of the fund-account registration call.
pub struct FundAccount {
    /// The identifier the contact step returned; the orchestrator is the
    /// only caller and threads it in by construction.
    pub contact_id: String,
    /// Always `bank_account` here.
    pub account_type: String,
    pub bank_account: BankAccount,
}

/// Body of the payout-creation call.
pub struct CreatePayout {
    pub account_number: String,
    /// The identifier the fund-account step returned.
    pub fund_account_id: String,
    /// Integer count of minor currency units; never floating point.
    pub amount: u64,
    pub currency: String,
    pub mode: String,
    pub purpose: String,
}

/// The identifier field of a successful response body. Every step's
/// response is read through this shape.
pub struct Response {
    pub id: String,
}

/// The lifecycle status a payout record reports.
pub struct PayoutResponse {
    pub status: String,
}

/// The contact body a run built from `req`: the payee fields carried over
/// unchanged, and the fixed `customer` record type.
pub open spec fn contact_body_for(c: Contact, req: PayRequest) -> bool {
    &&& c.name@ == req.name@
    &&& c.email@ == req.email@
    &&& c.contact@ == req.contact@
    &&& c.contact_type@ == "customer"@
}

/// The fund-account body a run built from `req` and the contact step's
/// identifier: the fixed `bank_account` type, the threaded contact id, and
/// the caller's bank details carried over unchanged.
pub open spec fn fund_account_body_for(f: FundAccount, req: PayRequest, contact_id: Seq<char>) -> bool {
    &&& f.contact_id@ == contact_id
    &&& f.account_type@ == "bank_account"@
    &&& f.bank_account.name@ == req.name@
    &&& f.bank_account.account_number@ == req.account_number@
    &&& f.bank_account.ifsc@ == req.ifsc@
}

/// The payout body a run built from `req` and the fund-account step's
/// identifier: the threaded fund-account id, the caller's account number and
/// amount, and the fixed currency, mode and purpose the run passes through.
pub open spec fn payout_body_for(p: CreatePayout, req: PayRequest, fund_account_id: Seq<char>) -> bool {
    &&& p.account_number@ == req.account_number@
    &&& p.fund_account_id@ == fund_account_id
    &&& p.amount == req.amount
    &&& p.currency@ == "INR"@
    &&& p.mode@ == "IMPS"@
    &&& p.purpose@ == "payout"@
}

/// Build the contact-registration body for `req`.
pub fn contact_request(req: &PayRequest) -> (c: Contact)
    ensures
        contact_body_for(c, *req),
{
    Contact {
        name: req.name.clone(),
        email: req.email.clone(),
        contact: req.contact.clone(),
        contact_type: "customer".to_owned(),
    }
}

/// Build the fund-account registration body for `req`, against the contact
/// identifier the previous step returned.
pub fn fund_account_request(req: &PayRequest, contact_id: String) -> (f: FundAccount)
    ensures
        fund_account_body_for(f, *req, contact_id@),
{
    FundAccount {
        contact_id,
        account_type: "bank_account".to_owned(),
        bank_account: BankAccount {
            name: req.name.clone(),
            account_number: req.account_number.clone(),
            ifsc: req.ifsc.clone(),
        },
    }
}

/// Build the payout-creation body for `req`, against the fund-account
/// identifier the previous step returned.
pub fn payout_request(req: &PayRequest, fund_account_id: String) -> (p: CreatePayout)
    ensures
        payout_body_for(p, *req, fund_account_id@),
{
    CreatePayout {
        account_number: req.account_number.clone(),
        fund_account_id,
        amount: req.amount,
        currency: "INR".to_owned(),
        mode: "IMPS".to_owned(),
        purpose: "payout".to_owned(),
    }
}

} // verus!
