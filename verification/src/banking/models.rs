//! Request and response records of the banking registry.
use vstd::prelude::*;

verus! {

/// A request to register a bank.
#[derive(Debug)]
pub struct BankData {
    pub bank_name: String,
    pub country: String,
}

/// A request to register a branch.
#[derive(Debug)]
pub struct BranchData {
    pub branch_name: String,
    pub location: String,
}

/// A request to register a teller at a branch.
#[derive(Debug)]
pub struct TellerData {
    pub teller_name: String,
    pub branch_name: String,
}

/// A request to register a customer at a branch.
#[derive(Debug)]
pub struct CustomerData {
    pub customer_name: String,
    pub branch_name: String,
}

/// One registered bank.
#[derive(Debug)]
pub struct BankDetails {
    pub bank_name: String,
    pub country: String,
}

/// All registered banks.
#[derive(Debug)]
pub struct BankResponseData {
    pub bank_data: Vec<BankDetails>,
}

/// One registered branch.
#[derive(Debug)]
pub struct BranchDetails {
    pub branch_name: String,
    pub location: String,
}

/// All registered branches.
#[derive(Debug)]
pub struct BranchResponseData {
    pub branch_data: Vec<BranchDetails>,
}

/// One registered teller.
#[derive(Debug)]
pub struct TellerDetails {
    pub teller_name: String,
    pub branch_name: String,
}

/// All registered tellers.
#[derive(Debug)]
pub struct TellerResponseData {
    pub teller_data: Vec<TellerDetails>,
}

/// One registered customer.
#[derive(Debug)]
pub struct CustomerDetails {
    pub customer_name: String,
    pub branch_name: String,
}

/// All registered customers.
#[derive(Debug)]
pub struct CustomerResponseData {
    pub customer_data: Vec<CustomerDetails>,
}

} // verus!
