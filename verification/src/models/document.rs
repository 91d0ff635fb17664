//! Stored documents attached to rooms, tenants or leases.

use vstd::prelude::*;

verus! {

/// A document record.
#[derive(Debug, Clone)]
pub struct Document {
    pub id: i64,
    pub entity_type: String,
    pub entity_id: i64,
    pub doc_type: String,
    pub original_filename: Option<String>,
    pub stored_path: String,
    pub file_size: i64,
    pub mime_type: Option<String>,
    pub description: Option<String>,
    pub uploaded_by: Option<String>,
    pub is_deleted: bool,
    pub deleted_at: Option<String>,
    pub deleted_by: Option<String>,
    pub uploaded_at: Option<String>,
}

/// Request to register a document.
#[derive(Debug, Clone)]
pub struct CreateDocumentRequest {
    pub entity_type: String,
    pub entity_id: i64,
    pub doc_type: String,
    pub original_filename: Option<String>,
    pub stored_path: String,
    pub file_size: Option<i64>,
    pub mime_type: Option<String>,
    pub description: Option<String>,
    pub uploaded_by: Option<String>,
}

/// Outcome of a document operation.
#[derive(Debug, Clone)]
pub struct DocumentResponse {
    pub success: bool,
    pub document_id: Option<i64>,
    pub message: Option<String>,
}

/// A list of documents.
#[derive(Debug, Clone)]
pub struct DocumentListResponse {
    pub success: bool,
    pub data: Vec<Document>,
    pub message: Option<String>,
}

} // verus!
