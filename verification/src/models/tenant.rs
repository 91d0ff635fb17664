//! Tenants.

use vstd::prelude::*;

verus! {

/// A tenant.
#[derive(Debug, Clone)]
pub struct Tenant {
    pub id: i64,
    pub name: String,
    pub phone: String,
    pub phone2: Option<String>,
    pub emergency_contact: Option<String>,
    pub emergency_phone: Option<String>,
    pub is_deleted: bool,
    pub created_at: Option<String>,
    pub updated_at: Option<String>,
}

/// Request to create a tenant.
#[derive(Debug, Clone)]
pub struct CreateTenantRequest {
    pub name: String,
    pub phone: String,
    pub phone2: Option<String>,
    pub emergency_contact: Option<String>,
    pub emergency_phone: Option<String>,
}

/// A tenant as shown to the front end.
#[derive(Debug, Clone)]
pub struct TenantResponse {
    pub id: i64,
    pub name: String,
    pub phone: String,
    pub phone2: Option<String>,
    pub emergency_contact: Option<String>,
    pub emergency_phone: Option<String>,
}

/// The response for a tenant: its identity and contact fields.
pub open spec fn tenant_response_of(t: Tenant) -> TenantResponse {
    TenantResponse {
        id: t.id,
        name: t.name,
        phone: t.phone,
        phone2: t.phone2,
        emergency_contact: t.emergency_contact,
        emergency_phone: t.emergency_phone,
    }
}

impl From<Tenant> for TenantResponse {
    fn from(t: Tenant) -> (r: Self) {
        TenantResponse {
            id: t.id,
            name: t.name,
            phone: t.phone,
            phone2: t.phone2,
            emergency_contact: t.emergency_contact,
            emergency_phone: t.emergency_phone,
        }
    }
}

impl vstd::std_specs::convert::FromSpecImpl<Tenant> for TenantResponse {
    open spec fn obeys_from_spec() -> bool {
        true
    }

    open spec fn from_spec(t: Tenant) -> TenantResponse {
        tenant_response_of(t)
    }
}

/// One event of a tenant's history.
#[derive(Debug, Clone)]
pub struct TenantHistory {
    pub id: i64,
    pub tenant_id: i64,
    pub event_type: String,
    pub room_id: Option<i64>,
    pub lease_id: Option<i64>,
    pub event_date: String,
    pub old_value: Option<String>,
    pub new_value: Option<String>,
    pub notes: Option<String>,
    pub created_at: Option<String>,
}

} // verus!
