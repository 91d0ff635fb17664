//! Authentication and permissions for the pooled storage layer: sessions of
//! active accounts only, a login that answers a missing account like a
//! wrong password, and a cache of permission grants.

use vstd::prelude::*;

use crate::auth::{
    bad_credentials_message, complete_login as complete_login_checked, permission_from_name,
    permission_satisfies, token_text, token_user, unknown_permission_message, user_info_of,
    verify_password, LoginResponse, PermissionAction, TokenStore, User,
};
use crate::db::statement::{join_seq, join_strings, params_view, SqlStatement, SqlValue, SqlValueView};
use crate::errors::{AppError, Result};
use crate::text::{int_text, push_int, str_eq};

pub use crate::auth::{
    create_user, generate_token, hash_password, LoginRequest, PermissionCheck, Role, UserInfo,
};

verus! {

// ---------------------------------------------------------------------
// Sessions
// ---------------------------------------------------------------------

/// The user a session token belongs to, if it was issued, not revoked, and
/// the account is active.
pub fn get_user_by_token(store: &TokenStore, token: &str) -> (r: Option<User>)
    ensures
        match token_user(store@, token@) {
            Some(u) => if u.is_active {
                r == Some(u)
            } else {
                r is None
            },
            None => r is None,
        },
{
    match store.get(token) {
        Some(u) => if u.is_active {
            Some(u)
        } else {
            None
        },
        None => None,
    }
}

/// Revokes a session token.
pub fn logout(store: &mut TokenStore, token: &str)
    ensures
        final(store)@ == old(store)@.remove(token@),
{
    crate::auth::logout(store, token);
}

/// Completes a login once the password has been checked, as the connection
/// layer does, except that a missing account is an unsuccessful response
/// rather than an error.
pub fn complete_login(
    store: &mut TokenStore,
    account: Option<User>,
    verified: Option<bool>,
    timestamp: u64,
) -> (r: Result<LoginResponse>)
    ensures
        match account {
            None => r matches Ok(resp) && !resp.success && resp.token is None && resp.user is None
                && (resp.message matches Some(m) && m@ == bad_credentials_message())
                && final(store)@ == old(store)@,
            Some(u) => match verified {
                None => r matches Err(AppError::Authentication(m)) && m@
                    == bad_credentials_message() && final(store)@ == old(store)@,
                Some(false) => r matches Ok(resp) && !resp.success && resp.token is None
                    && resp.user is None && final(store)@ == old(store)@ && (resp.message matches Some(m) && m@
                    == bad_credentials_message()),
                Some(true) => r matches Ok(resp) && resp.success && resp.user == Some(user_info_of(u))
                    && resp.message is None && (resp.token matches Some(t)
                    && t@ == token_text(timestamp, u.id) && final(store)@ == old(store)@.insert(t@, u)),
            },
        },
{
    if account.is_none() {
        return Ok(
            LoginResponse {
                success: false,
                token: None,
                user: None,
                message: Some(String::from_str("用户名或密码错误")),
            },
        );
    }
    complete_login_checked(store, account, verified, timestamp)
}

/// Logs in the active account found under the user name (`None` when there
/// is none): checks the password against the stored hash and completes the
/// login as [`complete_login`] does with that outcome.
pub fn login(store: &mut TokenStore, account: Option<User>, password: &str, timestamp: u64) -> (r:
    Result<LoginResponse>)
    ensures
        match account {
            None => r matches Ok(resp) && !resp.success && resp.token is None && resp.user is None
                && (resp.message matches Some(m) && m@ == bad_credentials_message())
                && final(store)@ == old(store)@,
            Some(u) => match crate::auth::bcrypt_verify_outcome(password@, u.password_hash@) {
                None => r matches Err(AppError::Authentication(m)) && m@
                    == bad_credentials_message() && final(store)@ == old(store)@,
                Some(false) => r matches Ok(resp) && !resp.success && resp.token is None
                    && resp.user is None && (resp.message matches Some(m) && m@ == bad_credentials_message())
                    && final(store)@ == old(store)@,
                Some(true) => r matches Ok(resp) && resp.success && resp.user == Some(user_info_of(u))
                    && resp.message is None && (resp.token matches Some(t) && t@ == token_text(timestamp, u.id)
                    && final(store)@ == old(store)@.insert(t@, u)),
            },
        },
{
    let verified = match &account {
        None => None,
        Some(u) => match verify_password(password, u.password_hash.as_str()) {
            Ok(b) => Some(b),
            Err(_) => None,
        },
    };
    complete_login(store, account, verified, timestamp)
}

// ---------------------------------------------------------------------
// Permission cache
// ---------------------------------------------------------------------

/// The key of a permission grant: role, resource, permission.
pub type GrantKey = (Seq<char>, Seq<char>, Seq<char>);

/// The level recorded first for `key` among `entries`.
pub open spec fn grant_lookup(entries: Seq<(String, String, String, PermissionAction)>, key: GrantKey) -> Option<PermissionAction>
    decreases entries.len(),
{
    if entries.len() == 0 {
        None
    } else if (entries[0].0@, entries[0].1@, entries[0].2@) == key {
        Some(entries[0].3)
    } else {
        grant_lookup(entries.drop_first(), key)
    }
}

/// Permission levels already read from storage, by role, resource and
/// permission.
pub struct PermissionCache {
    entries: Vec<(String, String, String, PermissionAction)>,
}

impl View for PermissionCache {
    type V = Map<GrantKey, PermissionAction>;

    closed spec fn view(&self) -> Map<GrantKey, PermissionAction> {
        Map::new(
            |k: GrantKey| grant_lookup(self.entries@, k) is Some,
            |k: GrantKey| grant_lookup(self.entries@, k)->0,
        )
    }
}

proof fn lemma_grant_lookup_front(
    entries: Seq<(String, String, String, PermissionAction)>,
    e: (String, String, String, PermissionAction),
    key: GrantKey,
)
    ensures
        grant_lookup(seq![e] + entries, key) == if (e.0@, e.1@, e.2@) == key {
            Some(e.3)
        } else {
            grant_lookup(entries, key)
        },
{
    assert((seq![e] + entries).drop_first() =~= entries);
}

impl PermissionCache {
    /// An empty cache.
    pub fn new() -> (r: PermissionCache)
        ensures
            r@ == Map::<GrantKey, PermissionAction>::empty(),
    {
        let r = PermissionCache { entries: Vec::new() };
        proof {
            assert(r@ =~= Map::<GrantKey, PermissionAction>::empty());
        }
        r
    }

    /// The cached level of a grant.
    pub fn get(&self, role: &str, resource: &str, permission: &str) -> (r: Option<PermissionAction>)
        ensures
            match r {
                Some(a) => self@.contains_key((role@, resource@, permission@)) && self@[(role@, resource@, permission@)] == a,
                None => !self@.contains_key((role@, resource@, permission@)),
            },
    {
        let ghost key = (role@, resource@, permission@);
        let mut i: usize = 0;
        assert(self.entries@.skip(0) =~= self.entries@);
        while i < self.entries.len()
            invariant
                i <= self.entries@.len(),
                key == (role@, resource@, permission@),
                grant_lookup(self.entries@, key) == grant_lookup(self.entries@.skip(i as int), key),
            decreases self.entries.len() - i,
        {
            assert(self.entries@.skip(i as int).drop_first() =~= self.entries@.skip(i + 1));
            let e = &self.entries[i];
            if str_eq(e.0.as_str(), role) && str_eq(e.1.as_str(), resource) && str_eq(e.2.as_str(), permission) {
                return Some(e.3);
            }
            i += 1;
        }
        assert(self.entries@.skip(i as int) =~= Seq::<(String, String, String, PermissionAction)>::empty());
        None
    }

    /// Records the level of a grant.
    pub fn insert(&mut self, role: &str, resource: &str, permission: &str, action: PermissionAction)
        ensures
            final(self)@ == old(self)@.insert((role@, resource@, permission@), action),
    {
        let ghost before = self.entries@;
        let mut rest: Vec<(String, String, String, PermissionAction)> = Vec::new();
        std::mem::swap(&mut rest, &mut self.entries);
        let e = (String::from_str(role), String::from_str(resource), String::from_str(permission), action);
        let mut entries = vec![e];
        entries.append(&mut rest);
        self.entries = entries;
        proof {
            assert(self.entries@ =~= seq![e] + before);
            assert forall|k: GrantKey| #[trigger] grant_lookup(self.entries@, k) == (if k == (role@, resource@, permission@) {
                Some(action)
            } else {
                grant_lookup(before, k)
            }) by {
                lemma_grant_lookup_front(before, e, k);
            }
            assert(self@ =~= Map::new(
                |k: GrantKey| grant_lookup(before, k) is Some,
                |k: GrantKey| grant_lookup(before, k)->0,
            ).insert((role@, resource@, permission@), action));
        }
    }
}

/// Forgets every cached grant, so that the next checks read storage again.
pub fn invalidate_permission_cache(cache: &mut PermissionCache)
    ensures
        final(cache)@ == Map::<GrantKey, PermissionAction>::empty(),
{
    *cache = PermissionCache::new();
}

/// The answer of a permission check from the cache alone: `Some` whether
/// the cached level meets `required_action`, `None` when the grant is not
/// cached and storage has to be read.
pub fn cached_permission(
    cache: &PermissionCache,
    role: &str,
    resource: &str,
    permission: &str,
    required_action: &PermissionAction,
) -> (r: Option<bool>)
    ensures
        match r {
            Some(b) => cache@.contains_key((role@, resource@, permission@)) && b == permission_satisfies(
                cache@[(role@, resource@, permission@)],
                *required_action,
            ),
            None => !cache@.contains_key((role@, resource@, permission@)),
        },
{
    match cache.get(role, resource, permission) {
        Some(a) => Some(a.satisfies(required_action)),
        None => None,
    }
}

/// The level a stored grant gives: no grant gives no access.
pub open spec fn stored_level(stored: Option<Seq<char>>) -> Option<PermissionAction> {
    match stored {
        None => Some(PermissionAction::NoAccess),
        Some(s) => permission_from_name(s),
    }
}

/// Decides a permission check from the grant read from storage (`None`
/// when the role has none for the resource and permission) and records its
/// level in the cache: an unknown level is an invalid-input error and
/// leaves the cache as it was; otherwise the answer is whether the level
/// meets `required_action`.
pub fn check_permission(
    cache: &mut PermissionCache,
    role: &str,
    resource: &str,
    permission: &str,
    stored: Option<&str>,
    required_action: &PermissionAction,
) -> (r: Result<bool>)
    ensures
        match stored_level(match stored { Some(s) => Some(s@), None => None }) {
            None => (r matches Err(AppError::InvalidInput(m)) && m@ == unknown_permission_message(stored->0@))
                && final(cache)@ == old(cache)@,
            Some(a) => (r matches Ok(b) && b == permission_satisfies(a, *required_action))
                && final(cache)@ == old(cache)@.insert((role@, resource@, permission@), a),
        },
{
    let level = match stored {
        Some(s) => PermissionAction::from_str(s)?,
        None => PermissionAction::NoAccess,
    };
    cache.insert(role, resource, permission, level);
    Ok(level.satisfies(required_action))
}

/// Once a check has recorded a grant, the cache answers every later check
/// of the same grant as a check against storage would.
pub proof fn lemma_cached_answer_matches_storage(
    before: Map<GrantKey, PermissionAction>,
    key: GrantKey,
    level: PermissionAction,
    required: PermissionAction,
)
    ensures
        before.insert(key, level).contains_key(key),
        permission_satisfies(before.insert(key, level)[key], required) == permission_satisfies(level, required),
{
}

// ---------------------------------------------------------------------
// Accounts
// ---------------------------------------------------------------------

/// The pooled layer's account update: the given role, display name and
/// active flag written into the statement text itself (text quoted), then
/// the modification time, for the account whose id is written last; an
/// unknown role is an invalid-input error; `None` when nothing is given.
pub fn update_user(id: i64, role: Option<&str>, display_name: Option<&str>, is_active: Option<bool>) -> (r: Result<Option<SqlStatement>>)
    ensures
        (role matches Some(rn) && crate::auth::role_from_name(rn@) is None) ==> (r matches Err(
            AppError::InvalidInput(m),
        ) && m@ == crate::auth::unknown_role_message(role->0@)),
        !(role matches Some(rn) && crate::auth::role_from_name(rn@) is None) ==> (r matches Ok(o) && (
        if role is None && display_name is None && is_active is None {
            o is None
        } else {
            (o matches Some(st) && st.sql@ == "UPDATE users SET "@ + join_seq(
                inline_user_sets(role, display_name, is_active).push("updated_at = datetime('now')"@),
                ", "@,
            ) + " WHERE id = "@ + int_text(id as int) && st.params@.len() == 0)
        })),
{
    if let Some(rn) = role {
        Role::from_str(rn)?;
    }
    let mut sets: Vec<String> = Vec::new();
    if let Some(rn) = role {
        let mut c = String::from_str("role = '");
        c.append(rn);
        c.append("'");
        sets.push(c);
    }
    if let Some(d) = display_name {
        let mut c = String::from_str("display_name = '");
        c.append(d);
        c.append("'");
        sets.push(c);
    }
    if let Some(a) = is_active {
        sets.push(String::from_str(if a { "is_active = 1" } else { "is_active = 0" }));
    }
    proof {
        assert(sets@.map_values(|p: String| p@) =~= inline_user_sets(role, display_name, is_active));
    }
    if sets.len() == 0 {
        return Ok(None);
    }
    let ghost given = sets@.map_values(|p: String| p@);
    sets.push(String::from_str("updated_at = datetime('now')"));
    let mut sql = String::from_str("UPDATE users SET ");
    let joined = join_strings(&sets, ", ");
    sql.append(joined.as_str());
    sql.append(" WHERE id = ");
    push_int(&mut sql, id);
    proof {
        assert(sets@.map_values(|p: String| p@) =~= given.push("updated_at = datetime('now')"@));
    }
    Ok(Some(SqlStatement { sql, params: Vec::new() }))
}

/// The assignments of the pooled account update, values written inline.
pub open spec fn inline_user_sets(role: Option<&str>, display_name: Option<&str>, is_active: Option<bool>) -> Seq<Seq<char>> {
    (if role is Some { seq!["role = '"@ + role->0@ + "'"@] } else { Seq::empty() }) + (if display_name is Some {
        seq!["display_name = '"@ + display_name->0@ + "'"@]
    } else {
        Seq::empty()
    }) + (if is_active is Some {
        seq![if is_active->0 { "is_active = 1"@ } else { "is_active = 0"@ }]
    } else {
        Seq::empty()
    })
}

/// Whether an account may be deactivated: not the last active
/// administrator (`admin_count` active administrators, `target_role` the
/// account's role, `None` when the account or its role is missing).
pub fn delete_user(admin_count: i64, target_role: Option<&str>) -> (r: Result<()>)
    ensures
        (target_role matches Some(t) && t@ == "admin"@ && admin_count <= 1) ==> (r matches Err(
            AppError::Business(m),
        ) && m@ == crate::auth::last_admin_message()),
        !(target_role matches Some(t) && t@ == "admin"@ && admin_count <= 1) ==> r is Ok,
{
    match target_role {
        Some(t) => crate::auth::delete_user(admin_count, t),
        None => Ok(()),
    }
}


// ---------------------------------------------------------------------
// Account statements
// ---------------------------------------------------------------------

/// How many accounts carry `username`, under the column `cnt`.
pub fn count_username(username: &str) -> (r: SqlStatement)
    ensures
        r.sql@ == "SELECT COUNT(*) as cnt FROM users WHERE username = ?"@,
        params_view(r.params@) == seq![SqlValueView::Text(username@)],
{
    let params = vec![SqlValue::Text(String::from_str(username))];
    proof {
        assert(params_view(params@) =~= seq![SqlValueView::Text(username@)]);
    }
    SqlStatement { sql: String::from_str("SELECT COUNT(*) as cnt FROM users WHERE username = ?"), params }
}

/// How many active administrator accounts there are, under the column `cnt`.
pub fn count_active_admins() -> (r: SqlStatement)
    ensures
        r.sql@ == "SELECT COUNT(*) as cnt FROM users WHERE role = 'admin' AND is_active = 1"@,
        params_view(r.params@) == Seq::<SqlValueView>::empty(),
{
    let params: Vec<SqlValue> = Vec::new();
    proof {
        assert(params_view(params@) =~= Seq::<SqlValueView>::empty());
    }
    SqlStatement { sql: String::from_str("SELECT COUNT(*) as cnt FROM users WHERE role = 'admin' AND is_active = 1"), params }
}

/// Deactivates account `id` (the pooled layer keeps the row).
pub fn deactivate_user(id: i64) -> (r: SqlStatement)
    ensures
        r.sql@ == "UPDATE users SET is_active = 0 WHERE id = ?"@,
        params_view(r.params@) == seq![SqlValueView::Integer(id)],
{
    let params = vec![SqlValue::Integer(id)];
    proof {
        assert(params_view(params@) =~= seq![SqlValueView::Integer(id)]);
    }
    SqlStatement { sql: String::from_str("UPDATE users SET is_active = 0 WHERE id = ?"), params }
}

} // verus!
