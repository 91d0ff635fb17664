//! Payments.

use vstd::prelude::*;

verus! {

/// How a payment was made.
#[derive(Debug, Clone, Copy, PartialEq, Eq, Structural)]
pub enum PaymentMethod {
    Wechat,
    Alipay,
    BankCard,
    Cash,
    MerchantCode,
    DepositDeduct,
    Mixed,
}

impl PaymentMethod {
    /// Stored label of this payment method.
    pub fn as_str(&self) -> (r: &'static str)
        ensures
            r@ == match *self {
                PaymentMethod::Wechat => "微信"@,
                PaymentMethod::Alipay => "支付宝"@,
                PaymentMethod::BankCard => "银行卡"@,
                PaymentMethod::Cash => "现金"@,
                PaymentMethod::MerchantCode => "商家码"@,
                PaymentMethod::DepositDeduct => "押金抵扣"@,
                PaymentMethod::Mixed => "混合支付"@,
            },
    {
        match self {
            PaymentMethod::Wechat => "微信",
            PaymentMethod::Alipay => "支付宝",
            PaymentMethod::BankCard => "银行卡",
            PaymentMethod::Cash => "现金",
            PaymentMethod::MerchantCode => "商家码",
            PaymentMethod::DepositDeduct => "押金抵扣",
            PaymentMethod::Mixed => "混合支付",
        }
    }
}

/// A payment record; amounts in fen.
#[derive(Debug, Clone)]
pub struct Payment {
    pub id: i64,
    pub bill_id: Option<i64>,
    pub room_id: i64,
    pub lease_id: Option<i64>,
    pub amount: i64,
    pub payment_date: Option<String>,
    pub payment_method: Option<String>,
    pub wechat_amount: i64,
    pub alipay_amount: i64,
    pub cash_amount: i64,
    pub bank_amount: i64,
    pub deposit_deduct_amount: i64,
    pub payer_name: Option<String>,
    pub confirmation_screenshot: Option<String>,
    pub operator: Option<String>,
    pub notes: Option<String>,
    pub is_deleted: bool,
    pub created_at: Option<String>,
}

/// Request to record a payment.
#[derive(Debug, Clone)]
pub struct RecordPaymentRequest {
    pub bill_id: i64,
    pub amount: i64,
    pub payment_method: String,
    pub payment_date: String,
    pub payer_name: Option<String>,
    pub wechat_amount: Option<i64>,
    pub alipay_amount: Option<i64>,
    pub cash_amount: Option<i64>,
    pub bank_amount: Option<i64>,
    pub deposit_deduct_amount: Option<i64>,
    pub operator: Option<String>,
}

/// Outcome of a payment operation.
#[derive(Debug, Clone)]
pub struct PaymentResponse {
    pub success: bool,
    pub payment_id: Option<i64>,
    pub message: Option<String>,
}

impl PaymentResponse {
    pub fn success(payment_id: i64) -> (r: PaymentResponse)
        ensures
            r.success,
            r.payment_id == Some(payment_id),
            r.message is None,
    {
        PaymentResponse { success: true, payment_id: Some(payment_id), message: None }
    }

    pub fn error(message: String) -> (r: PaymentResponse)
        ensures
            !r.success,
            r.payment_id is None,
            r.message == Some(message),
    {
        PaymentResponse { success: false, payment_id: None, message: Some(message) }
    }
}

} // verus!
