//! Data models of the apartment manager.

pub mod room;
pub mod lease;
pub mod bill;
pub mod collection_agent;
pub mod config;
pub mod deposit;
pub mod document;
pub mod meter_reading;
pub mod payment;
pub mod reminder;
pub mod tenant;

pub use room::{Room, RoomResponse, RoomStatus, RoomStatusLog};
pub use lease::{
    CheckInRequest, CheckOutRequest, DepositStatus, Lease, LeaseDetail, LeaseResponse, LeaseStatus,
};
pub use bill::{
    ArchiveBillsRequest, ArchiveBillsResponse, BillDetails, BillPreview, BillResponse, BillStatus,
    BillType, GenerateBillsRequest, MonthlyBill, RestoreBillsRequest, RoomBillResult,
};
pub use collection_agent::{
    CollectionAgentReport, EscalationLevel, OverdueBill, ReminderDraft, RunCollectionAgentRequest,
};
pub use config::{ConfigResponse, GetConfigRequest, SetConfigRequest, SystemConfig};
pub use deposit::{
    DepositLedger, DepositLedgerItem, DepositLedgerResponse, DepositLedgerRow, TransactionType,
};
pub use document::{CreateDocumentRequest, Document, DocumentListResponse, DocumentResponse};
pub use meter_reading::{BatchMeterReadingRequest, MeterReadingRequest, MeterReadingResponse};
pub use payment::{Payment, PaymentMethod, PaymentResponse, RecordPaymentRequest};
pub use reminder::{
    CreateReminderRequest, Reminder, ReminderListResponse, ReminderResponse,
    UpdateReminderStatusRequest,
};
pub use tenant::{CreateTenantRequest, Tenant, TenantHistory, TenantResponse};
