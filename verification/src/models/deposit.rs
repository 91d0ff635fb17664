//! Deposit ledger.

use vstd::prelude::*;

verus! {

/// Kind of a deposit ledger transaction.
#[derive(Debug, Clone, Copy, PartialEq, Eq, Structural)]
pub enum TransactionType {
    Receive,
    PartialReceive,
    Refund,
    Deduct,
    Forfeit,
}

impl TransactionType {
    /// Stored label of this transaction type.
    pub fn as_str(&self) -> (r: &'static str)
        ensures
            r@ == match *self {
                TransactionType::Receive => "收取"@,
                TransactionType::PartialReceive => "部分收取"@,
                TransactionType::Refund => "退还"@,
                TransactionType::Deduct => "抵扣"@,
                TransactionType::Forfeit => "没收"@,
            },
    {
        match self {
            TransactionType::Receive => "收取",
            TransactionType::PartialReceive => "部分收取",
            TransactionType::Refund => "退还",
            TransactionType::Deduct => "抵扣",
            TransactionType::Forfeit => "没收",
        }
    }
}

/// One deposit ledger record; amounts in fen.
#[derive(Debug, Clone)]
pub struct DepositLedger {
    pub id: i64,
    pub lease_id: i64,
    pub room_id: i64,
    pub transaction_type: String,
    pub amount: i64,
    pub balance: i64,
    pub reference_bill_id: Option<i64>,
    pub reference_payment_id: Option<i64>,
    pub operator: Option<String>,
    pub transaction_date: Option<String>,
    pub notes: Option<String>,
    pub created_at: Option<String>,
}

/// Ledger records with the total balance.
#[derive(Debug, Clone)]
pub struct DepositLedgerResponse {
    pub records: Vec<DepositLedgerItem>,
    pub total_balance: i64,
}

/// One ledger line as shown to the front end.
#[derive(Debug, Clone)]
pub struct DepositLedgerItem {
    pub id: i64,
    pub room_number: String,
    pub tenant_name: Option<String>,
    pub transaction_type: String,
    pub amount_fen: i64,
    pub balance_fen: i64,
    pub transaction_date: Option<String>,
    pub operator: Option<String>,
    pub notes: Option<String>,
}

/// A ledger record joined with its room number and tenant name.
#[derive(Debug, Clone)]
pub struct DepositLedgerRow {
    pub id: i64,
    pub lease_id: i64,
    pub room_id: i64,
    pub room_number: String,
    pub tenant_name: Option<String>,
    pub transaction_type: String,
    pub amount: i64,
    pub balance: i64,
    pub reference_bill_id: Option<i64>,
    pub reference_payment_id: Option<i64>,
    pub operator: Option<String>,
    pub transaction_date: Option<String>,
    pub notes: Option<String>,
    pub created_at: Option<String>,
}

} // verus!
