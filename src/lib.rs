//! Validation core of a micropayment receipt protocol: receipts, the fixed
//! set of checks run on them, their per-check progress, the auditor that
//! decides each check's outcome, and in-memory providers and storage.
pub mod adapters;
pub mod auditor;
pub mod checks;
pub mod receipt;
pub mod received_receipt;
pub mod signed;
pub mod storage;

pub use adapters::{EscrowAdapterMock, ReceiptChecksAdapterMock};
pub use auditor::{AuditError, EscrowAdapter, ProviderCall, ReceiptAuditor, ReceiptChecksAdapter};
pub use checks::{
    get_full_list_of_checks, get_full_list_of_receipt_check_results, ReceiptCheck, ReceiptCheckResults,
    ReceiptError, ReceiptResult,
};
pub use receipt::{Address, Receipt};
pub use received_receipt::{ReceiptState, ReceivedReceipt};
pub use signed::{DomainContext, SignedReceipt};
pub use storage::{ReceiptStorage, StorageError};
