//! Authentication and permissions: roles, permission levels, password
//! hashing, login decisions and the session-token store.

use vstd::prelude::*;

use crate::db::statement::{
    join_seq, join_strs, opt_text_value, optional_text_value, params_view, SqlStatement, SqlValue,
    SqlValueView,
};
use crate::errors::{AppError, Result};
use crate::text::{clone_opt_string, push_digits, push_int, str_eq, digits, int_text};

verus! {

/// A user role.
#[derive(Debug, Clone, Copy, PartialEq, Eq, Structural)]
pub enum Role {
    Admin,
    Frontdesk,
    Maintenance,
    Finance,
}

impl Role {
    /// The stored name of the role.
    pub open spec fn name(self) -> Seq<char> {
        match self {
            Role::Admin => "admin"@,
            Role::Frontdesk => "frontdesk"@,
            Role::Maintenance => "maintenance"@,
            Role::Finance => "finance"@,
        }
    }
}

/// The role a stored name denotes (names are case-sensitive).
pub open spec fn role_from_name(s: Seq<char>) -> Option<Role> {
    if s == "admin"@ {
        Some(Role::Admin)
    } else if s == "frontdesk"@ {
        Some(Role::Frontdesk)
    } else if s == "maintenance"@ {
        Some(Role::Maintenance)
    } else if s == "finance"@ {
        Some(Role::Finance)
    } else {
        None
    }
}

/// "未知角色: " followed by the refused name.
pub open spec fn unknown_role_message(s: Seq<char>) -> Seq<char> {
    "未知角色: "@ + s
}

impl Role {
    /// Reads a role name; an unknown name is an invalid-input error.
    pub fn from_str(s: &str) -> (r: Result<Role>)
        ensures
            match role_from_name(s@) {
                Some(role) => r matches Ok(x) && x == role,
                None => r matches Err(AppError::InvalidInput(m)) && m@ == unknown_role_message(s@),
            },
    {
        if str_eq(s, "admin") {
            Ok(Role::Admin)
        } else if str_eq(s, "frontdesk") {
            Ok(Role::Frontdesk)
        } else if str_eq(s, "maintenance") {
            Ok(Role::Maintenance)
        } else if str_eq(s, "finance") {
            Ok(Role::Finance)
        } else {
            Err(AppError::InvalidInput(String::from_str("未知角色: ").concat(s)))
        }
    }

    /// The stored name of the role.
    pub fn as_str(&self) -> (r: &'static str)
        ensures
            r@ == self.name(),
    {
        match self {
            Role::Admin => "admin",
            Role::Frontdesk => "frontdesk",
            Role::Maintenance => "maintenance",
            Role::Finance => "finance",
        }
    }
}

/// Reading back a stored role name gives the role that was stored.
pub proof fn lemma_role_name_roundtrip(r: Role)
    ensures
        role_from_name(r.name()) == Some(r),
{
    reveal_strlit("admin");
    reveal_strlit("frontdesk");
    reveal_strlit("maintenance");
    reveal_strlit("finance");
    assert("admin"@[0] != "frontdesk"@[0]);
    assert("admin"@[0] != "maintenance"@[0]);
    assert("admin"@[0] != "finance"@[0]);
    assert("frontdesk"@[0] != "maintenance"@[0]);
    assert("frontdesk"@[1] != "finance"@[1]);
    assert("maintenance"@[0] != "finance"@[0]);
}

/// A permission level; `NoAccess` is stored as "none".  Levels are ordered
/// read < write < manage < none.
#[derive(Debug, Clone, Copy, PartialEq, Eq, PartialOrd, Structural)]
pub enum PermissionAction {
    Read,
    Write,
    Manage,
    NoAccess,
}

impl PermissionAction {
    /// The stored name of the level.
    pub open spec fn name(self) -> Seq<char> {
        match self {
            PermissionAction::Read => "read"@,
            PermissionAction::Write => "write"@,
            PermissionAction::Manage => "manage"@,
            PermissionAction::NoAccess => "none"@,
        }
    }
}

/// The level a stored name denotes.
pub open spec fn permission_from_name(s: Seq<char>) -> Option<PermissionAction> {
    if s == "read"@ {
        Some(PermissionAction::Read)
    } else if s == "write"@ {
        Some(PermissionAction::Write)
    } else if s == "manage"@ {
        Some(PermissionAction::Manage)
    } else if s == "none"@ {
        Some(PermissionAction::NoAccess)
    } else {
        None
    }
}

/// Whether a granted level meets a required one: "none" meets nothing,
/// "manage" meets everything, "write" meets read and write, "read" meets
/// read only.
pub open spec fn permission_satisfies(granted: PermissionAction, required: PermissionAction) -> bool {
    match (granted, required) {
        (PermissionAction::NoAccess, _) => false,
        (PermissionAction::Manage, _) => true,
        (PermissionAction::Write, PermissionAction::Read) => true,
        (PermissionAction::Write, PermissionAction::Write) => true,
        (PermissionAction::Read, PermissionAction::Read) => true,
        _ => false,
    }
}

/// "未知权限动作: " followed by the refused name.
pub open spec fn unknown_permission_message(s: Seq<char>) -> Seq<char> {
    "未知权限动作: "@ + s
}

impl PermissionAction {
    /// Reads a level name; an unknown name is an invalid-input error.
    pub fn from_str(s: &str) -> (r: Result<PermissionAction>)
        ensures
            match permission_from_name(s@) {
                Some(a) => r matches Ok(x) && x == a,
                None => r matches Err(AppError::InvalidInput(m)) && m@
                    == unknown_permission_message(s@),
            },
    {
        if str_eq(s, "read") {
            Ok(PermissionAction::Read)
        } else if str_eq(s, "write") {
            Ok(PermissionAction::Write)
        } else if str_eq(s, "manage") {
            Ok(PermissionAction::Manage)
        } else if str_eq(s, "none") {
            Ok(PermissionAction::NoAccess)
        } else {
            Err(AppError::InvalidInput(String::from_str("未知权限动作: ").concat(s)))
        }
    }

    /// Whether this granted level meets `required`.
    pub fn satisfies(&self, required: &PermissionAction) -> (r: bool)
        ensures
            r == permission_satisfies(*self, *required),
    {
        match (self, required) {
            (PermissionAction::NoAccess, _) => false,
            (PermissionAction::Manage, _) => true,
            (PermissionAction::Write, PermissionAction::Read) => true,
            (PermissionAction::Write, PermissionAction::Write) => true,
            (PermissionAction::Write, PermissionAction::Manage) => false,
            (PermissionAction::Read, PermissionAction::Read) => true,
            _ => false,
        }
    }
}

/// Reading back a stored level name gives the level that was stored.
pub proof fn lemma_permission_name_roundtrip(a: PermissionAction)
    ensures
        permission_from_name(a.name()) == Some(a),
{
    reveal_strlit("read");
    reveal_strlit("write");
    reveal_strlit("manage");
    reveal_strlit("none");
    assert("read"@[0] != "write"@[0]);
    assert("read"@[0] != "manage"@[0]);
    assert("read"@[0] != "none"@[0]);
    assert("write"@[0] != "manage"@[0]);
    assert("write"@[0] != "none"@[0]);
    assert("manage"@[0] != "none"@[0]);
}

/// The strength of a granted level: none 0, read 1, write 2, manage 3.
pub open spec fn permission_rank(a: PermissionAction) -> int {
    match a {
        PermissionAction::NoAccess => 0,
        PermissionAction::Read => 1,
        PermissionAction::Write => 2,
        PermissionAction::Manage => 3,
    }
}

/// A granted level meets a read, write or manage requirement exactly when
/// it is not "none" and is at least as strong as the required level; a
/// "none" requirement is met by "manage" alone.
pub proof fn lemma_permission_satisfies_by_rank(granted: PermissionAction, required: PermissionAction)
    ensures
        required != PermissionAction::NoAccess ==> (permission_satisfies(granted, required) <==> (granted
            != PermissionAction::NoAccess && permission_rank(granted) >= permission_rank(required))),
        required == PermissionAction::NoAccess ==> (permission_satisfies(granted, required) <==> granted
            == PermissionAction::Manage),
{
}

/// Meeting a requirement is transitive, every level other than "none" meets
/// the read requirement, and "none" meets no requirement.
pub proof fn lemma_permission_satisfies_order(
    a: PermissionAction,
    b: PermissionAction,
    c: PermissionAction,
)
    ensures
        permission_satisfies(a, b) && permission_satisfies(b, c) ==> permission_satisfies(a, c),
        a != PermissionAction::NoAccess ==> permission_satisfies(a, PermissionAction::Read),
        !permission_satisfies(PermissionAction::NoAccess, b),
{
}

/// A user account.
#[derive(Debug)]
pub struct User {
    pub id: i64,
    pub username: String,
    pub password_hash: String,
    pub role: String,
    pub display_name: Option<String>,
    pub is_active: bool,
}

impl Clone for User {
    fn clone(&self) -> (r: Self)
        ensures
            r == *self,
    {
        User {
            id: self.id,
            username: self.username.clone(),
            password_hash: self.password_hash.clone(),
            role: self.role.clone(),
            display_name: clone_opt_string(&self.display_name),
            is_active: self.is_active,
        }
    }
}

/// A login request.
#[derive(Debug, Clone)]
pub struct LoginRequest {
    pub username: String,
    pub password: String,
}

/// The public part of a user account.
#[derive(Debug, Clone)]
pub struct UserInfo {
    pub id: i64,
    pub username: String,
    pub role: String,
    pub display_name: Option<String>,
}

/// Outcome of a login attempt.
#[derive(Debug, Clone)]
pub struct LoginResponse {
    pub success: bool,
    pub token: Option<String>,
    pub user: Option<UserInfo>,
    pub message: Option<String>,
}

/// A permission question: may `role` perform `required_action` on
/// `permission` of `resource`?
#[derive(Debug, Clone)]
pub struct PermissionCheck {
    pub role: String,
    pub resource: String,
    pub permission: String,
    pub required_action: PermissionAction,
}

/// The session-token map of a sequence of (token, user) entries, a later
/// entry overriding an earlier one.
pub open spec fn token_map(entries: Seq<(String, User)>) -> Map<Seq<char>, User>
    decreases entries.len(),
{
    if entries.len() == 0 {
        Map::empty()
    } else {
        token_map(entries.drop_last()).insert(entries.last().0@, entries.last().1)
    }
}

/// Logged-in sessions: which user each issued token belongs to.
pub struct TokenStore {
    entries: Vec<(String, User)>,
}

impl View for TokenStore {
    type V = Map<Seq<char>, User>;

    closed spec fn view(&self) -> Map<Seq<char>, User> {
        token_map(self.entries@)
    }
}

/// The user a token map gives for a token, if any.
pub open spec fn token_user(m: Map<Seq<char>, User>, token: Seq<char>) -> Option<User> {
    if m.contains_key(token) {
        Some(m[token])
    } else {
        None
    }
}

proof fn lemma_token_map_take_step(entries: Seq<(String, User)>, i: int)
    requires
        0 <= i < entries.len(),
    ensures
        token_map(entries.take(i + 1)) == token_map(entries.take(i)).insert(
            entries[i].0@,
            entries[i].1,
        ),
{
    assert(entries.take(i + 1).drop_last() =~= entries.take(i));
}

proof fn lemma_token_map_without(entries: Seq<(String, User)>, kept: Seq<(String, User)>, token: Seq<char>, i: int)
    requires
        0 <= i <= entries.len(),
        token_map(kept) == token_map(entries.take(i)).remove(token),
        i < entries.len(),
    ensures
        entries[i].0@ == token ==> token_map(kept) == token_map(entries.take(i + 1)).remove(token),
        entries[i].0@ != token ==> token_map(kept.push(entries[i])) == token_map(
            entries.take(i + 1),
        ).remove(token),
{
    lemma_token_map_take_step(entries, i);
    assert(kept.push(entries[i]).drop_last() =~= kept);
    if entries[i].0@ == token {
        assert(token_map(entries.take(i + 1)).remove(token) =~= token_map(entries.take(i)).remove(token));
    } else {
        assert(token_map(kept.push(entries[i])) =~= token_map(entries.take(i + 1)).remove(token));
    }
}

impl TokenStore {
    /// An empty store.
    pub fn new() -> (r: TokenStore)
        ensures
            r@ == Map::<Seq<char>, User>::empty(),
    {
        TokenStore { entries: Vec::new() }
    }

    /// Records that `token` belongs to `user`, replacing any earlier user of
    /// the same token.
    pub fn insert(&mut self, token: String, user: User)
        ensures
            final(self)@ == old(self)@.insert(token@, user),
    {
        self.entries.push((token, user));
        proof {
            assert(self.entries@.drop_last() =~= old(self).entries@);
        }
    }

    /// The user a token belongs to.
    pub fn get(&self, token: &str) -> (r: Option<User>)
        ensures
            r == token_user(self@, token@),
    {
        let mut found: Option<usize> = None;
        let mut i: usize = 0;
        let n = self.entries.len();
        assert(self.entries@.take(0) =~= Seq::<(String, User)>::empty());
        while i < n
            invariant
                n == self.entries@.len(),
                i <= n,
                match found {
                    Some(k) => k < i && self.entries@[k as int].0@ == token@
                        && token_user(token_map(self.entries@.take(i as int)), token@)
                        == Some(self.entries@[k as int].1),
                    None => token_user(token_map(self.entries@.take(i as int)), token@) is None,
                },
            decreases n - i,
        {
            proof {
                lemma_token_map_take_step(self.entries@, i as int);
            }
            if str_eq(self.entries[i].0.as_str(), token) {
                found = Some(i);
            }
            i += 1;
        }
        assert(self.entries@.take(n as int) =~= self.entries@);
        match found {
            Some(k) => Some(self.entries[k].1.clone()),
            None => None,
        }
    }

    /// Forgets `token`.
    pub fn remove(&mut self, token: &str)
        ensures
            final(self)@ == old(self)@.remove(token@),
    {
        let mut kept: Vec<(String, User)> = Vec::new();
        let mut old_entries: Vec<(String, User)> = Vec::new();
        std::mem::swap(&mut old_entries, &mut self.entries);
        let ghost all = old_entries@;
        let n = old_entries.len();
        assert(all.take(0) =~= Seq::<(String, User)>::empty());
        assert(token_map(kept@) =~= token_map(all.take(0)).remove(token@));
        for entry in it: old_entries
            invariant
                all == old_entries@,
                n == all.len(),
                token_map(kept@) == token_map(all.take(it.index() as int)).remove(token@),
                it.seq() == all,
        {
            proof {
                lemma_token_map_without(all, kept@, token@, it.index() as int);
            }
            if !str_eq(entry.0.as_str(), token) {
                kept.push(entry);
            }
        }
        assert(all.take(n as int) =~= all);
        self.entries = kept;
    }
}

/// The user a session token belongs to, if it was issued and not revoked.
pub fn get_user_by_token(store: &TokenStore, token: &str) -> (r: Option<User>)
    ensures
        r == token_user(store@, token@),
{
    store.get(token)
}

/// Revokes a session token.
pub fn logout(store: &mut TokenStore, token: &str)
    ensures
        final(store)@ == old(store)@.remove(token@),
{
    store.remove(token);
}

/// A session token: the issue time (seconds) in lower-case hex, '-', and
/// the user id in decimal.
pub open spec fn token_text(timestamp: u64, user_id: i64) -> Seq<char> {
    digits(timestamp as nat, 16) + "-"@ + int_text(user_id as int)
}

/// The session token for `user` issued at `timestamp` (seconds since the
/// epoch).
pub fn generate_token(user: &User, timestamp: u64) -> (r: String)
    ensures
        r@ == token_text(timestamp, user.id),
{
    let mut s = String::new();
    push_digits(&mut s, timestamp, 16);
    s.append("-");
    push_int(&mut s, user.id);
    assert(s@ =~= token_text(timestamp, user.id));
    s
}

#[verifier::external_type_specification]
#[verifier::external_body]
pub struct ExBcryptError(bcrypt::BcryptError);

/// Outcome of bcrypt verification of a password against a stored hash:
/// `Some(matches)`, or `None` when the hash is malformed.
pub uninterp spec fn bcrypt_verify_outcome(password: Seq<char>, hash: Seq<char>) -> Option<bool>;

/// Calls `bcrypt::verify`, which parses the hash and recomputes it from the
/// password.  Claimed: the result is the named outcome of the password and
/// the hash, an error exactly when that outcome is `None`.
#[verifier::external_body]
fn bcrypt_verify(password: &str, hash: &str) -> (r: std::result::Result<bool, bcrypt::BcryptError>)
    ensures
        match r {
            Ok(b) => bcrypt_verify_outcome(password@, hash@) == Some(b),
            Err(_) => bcrypt_verify_outcome(password@, hash@) is None,
        },
{
    bcrypt::verify(password, hash)
}

/// The start of every hash this library makes: bcrypt version 2b at the
/// default cost 12.
pub open spec fn bcrypt_hash_prefix() -> Seq<char> {
    "$2b$12$"@
}

/// A hash as `bcrypt::hash` formats it at the default cost: 60 characters,
/// starting with "$2b$12$".
pub open spec fn is_default_bcrypt_hash(h: Seq<char>) -> bool {
    h.len() == 60 && h.subrange(0, 7) == bcrypt_hash_prefix()
}

/// Calls `bcrypt::hash` with the default cost and a random salt.  Claimed
/// of a hash it returns: it is 60 characters long, starts with "$2b$12$"
/// (version 2b, cost 12) and verifies the same password.  It fails only when the system gives no random salt; which
/// salt is drawn, and so which hash comes back, is left unsaid.
#[verifier::external_body]
fn bcrypt_hash(password: &str) -> (r: std::result::Result<String, bcrypt::BcryptError>)
    ensures
        r matches Ok(h) ==> is_default_bcrypt_hash(h@) && bcrypt_verify_outcome(password@, h@) == Some(true),
{
    bcrypt::hash(password, bcrypt::DEFAULT_COST)
}

/// Checks a password against a stored bcrypt hash; a malformed hash is an
/// authentication error.
pub fn verify_password(password: &str, hashed: &str) -> (r: Result<bool>)
    ensures
        match bcrypt_verify_outcome(password@, hashed@) {
            Some(b) => r matches Ok(x) && x == b,
            None => r matches Err(AppError::Authentication(m)) && m@ == "密码验证失败"@,
        },
{
    match bcrypt_verify(password, hashed) {
        Ok(b) => Ok(b),
        Err(_) => Err(AppError::Authentication(String::from_str("密码验证失败"))),
    }
}

/// Hashes a password with bcrypt; a returned hash verifies the password.
/// The hash is salted at random, so two calls give different hashes.
pub fn hash_password(password: &str) -> (r: Result<String>)
    ensures
        match r {
            Ok(h) => is_default_bcrypt_hash(h@) && bcrypt_verify_outcome(password@, h@) == Some(true),
            Err(e) => e matches AppError::Business(m) && m@ == "密码哈希生成失败"@,
        },
{
    match bcrypt_hash(password) {
        Ok(h) => Ok(h),
        Err(_) => Err(AppError::Business(String::from_str("密码哈希生成失败"))),
    }
}

/// The public part of an account.
pub open spec fn user_info_of(u: User) -> UserInfo {
    UserInfo { id: u.id, username: u.username, role: u.role, display_name: u.display_name }
}

/// The message of every refused login.
pub open spec fn bad_credentials_message() -> Seq<char> {
    "用户名或密码错误"@
}

/// Completes a login once the password has been checked.  `account` is the
/// active account found under the user name; `verified` is the outcome of
/// checking the password (`None` when the stored hash is malformed).
/// A missing account or a malformed hash is an authentication error; a wrong
/// password is an unsuccessful response; a right one issues the token for
/// `timestamp`, records it in the store and returns it with the user.
pub fn complete_login(
    store: &mut TokenStore,
    account: Option<User>,
    verified: Option<bool>,
    timestamp: u64,
) -> (r: Result<LoginResponse>)
    ensures
        match account {
            None => r matches Err(AppError::Authentication(m)) && m@ == bad_credentials_message()
                && final(store)@ == old(store)@,
            Some(u) => match verified {
                None => r matches Err(AppError::Authentication(m)) && m@
                    == bad_credentials_message() && final(store)@ == old(store)@,
                Some(false) => r matches Ok(resp) && !resp.success && resp.token is None
                    && resp.user is None && final(store)@ == old(store)@ && (resp.message matches Some(m) && m@
                    == bad_credentials_message()),
                Some(true) => r matches Ok(resp) && resp.success && resp.user == Some(user_info_of(u))
                    && resp.message is None && (resp.token matches Some(t)
                    && t@ == token_text(timestamp, u.id) && final(store)@ == old(store)@.insert(t@, u)),
            },
        },
{
    let user = match account {
        None => {
            return Err(AppError::Authentication(String::from_str("用户名或密码错误")));
        },
        Some(u) => u,
    };
    match verified {
        None => Err(AppError::Authentication(String::from_str("用户名或密码错误"))),
        Some(false) => Ok(
            LoginResponse {
                success: false,
                token: None,
                user: None,
                message: Some(String::from_str("用户名或密码错误")),
            },
        ),
        Some(true) => {
            let token = generate_token(&user, timestamp);
            let info = UserInfo {
                id: user.id,
                username: user.username.clone(),
                role: user.role.clone(),
                display_name: clone_opt_string(&user.display_name),
            };
            store.insert(token.clone(), user);
            Ok(LoginResponse { success: true, token: Some(token), user: Some(info), message: None })
        },
    }
}

/// Logs in the active account found under the user name: checks the
/// password against the stored hash and completes the login as
/// `complete_login` does with that outcome.
pub fn login(store: &mut TokenStore, account: Option<User>, password: &str, timestamp: u64) -> (r:
    Result<LoginResponse>)
    ensures
        match account {
            None => r matches Err(AppError::Authentication(m)) && m@ == bad_credentials_message()
                && final(store)@ == old(store)@,
            Some(u) => match bcrypt_verify_outcome(password@, u.password_hash@) {
                None => r matches Err(AppError::Authentication(m)) && m@
                    == bad_credentials_message() && final(store)@ == old(store)@,
                Some(false) => r matches Ok(resp) && !resp.success && resp.token is None
                    && resp.user is None && (resp.message matches Some(m) && m@ == bad_credentials_message())
                    && final(store)@ == old(store)@,
                Some(true) => r matches Ok(resp) && resp.success && resp.user == Some(user_info_of(u))
                    && resp.message is None && (resp.token matches Some(t) && t@ == token_text(timestamp, u.id)
                    && final(store)@ == old(store)@.insert(t@, u)),
            },
        },
{
    let verified = match &account {
        None => None,
        Some(u) => match verify_password(password, u.password_hash.as_str()) {
            Ok(b) => Some(b),
            Err(_) => None,
        },
    };
    complete_login(store, account, verified, timestamp)
}

/// The message when the permission lookup itself fails.
pub open spec fn permission_lookup_failed_message() -> Seq<char> {
    "权限校验失败，请联系管理员"@
}

/// Decides a permission check from the level granted to the role for the
/// resource and permission (`None` when no grant is recorded): no grant is
/// a permission-denied error, an unknown level an invalid-input error,
/// otherwise whether the granted level meets the required one.
pub fn check_permission(granted: Option<&str>, required_action: &PermissionAction) -> (r: Result<bool>)
    ensures
        match granted {
            None => r matches Err(AppError::PermissionDenied(m)) && m@
                == permission_lookup_failed_message(),
            Some(g) => match permission_from_name(g@) {
                None => r matches Err(AppError::InvalidInput(m)) && m@ == unknown_permission_message(
                    g@,
                ),
                Some(a) => r matches Ok(b) && b == permission_satisfies(a, *required_action),
            },
        },
{
    match granted {
        None => Err(AppError::PermissionDenied(String::from_str("权限校验失败，请联系管理员"))),
        Some(g) => {
            let user_action = PermissionAction::from_str(g)?;
            Ok(user_action.satisfies(required_action))
        },
    }
}

/// "用户名 '<name>' 已存在".
pub open spec fn duplicate_username_message(username: Seq<char>) -> Seq<char> {
    "用户名 '"@ + username + "' 已存在"@
}

/// Checks a new account and hashes its password: a user name already taken
/// (`existing_count > 0`) or an unknown role is an invalid-input error;
/// otherwise the result is the password hash to store.
pub fn create_user(username: &str, password: &str, role: &str, existing_count: i64) -> (r: Result<
    String,
>)
    ensures
        existing_count > 0 ==> (r matches Err(AppError::InvalidInput(m)) && m@
            == duplicate_username_message(username@)),
        existing_count <= 0 && role_from_name(role@) is None ==> (r matches Err(
            AppError::InvalidInput(m),
        ) && m@ == unknown_role_message(role@)),
        existing_count <= 0 && role_from_name(role@) is Some ==> match r {
            Ok(h) => is_default_bcrypt_hash(h@) && bcrypt_verify_outcome(password@, h@) == Some(true),
            Err(e) => e matches AppError::Business(m) && m@ == "密码哈希生成失败"@,
        },
{
    if existing_count > 0 {
        let m = String::from_str("用户名 '").concat(username).concat("' 已存在");
        return Err(AppError::InvalidInput(m));
    }
    Role::from_str(role)?;
    hash_password(password)
}

/// The SET clauses an account update writes, in order.
pub open spec fn user_update_sets(role: Option<&str>, display_name: Option<&str>, is_active: Option<bool>) -> Seq<Seq<char>> {
    (if role is Some { seq!["role = ?"@] } else { Seq::empty() })
    + (if display_name is Some { seq!["display_name = ?"@] } else { Seq::empty() })
    + (if is_active is Some { seq!["is_active = ?"@] } else { Seq::empty() })
}

/// The values an account update binds, in order, ending with the id.
pub open spec fn user_update_params(id: i64, role: Option<&str>, display_name: Option<&str>, is_active: Option<bool>) -> Seq<SqlValueView> {
    (if role is Some { seq![SqlValueView::Text(role->0@)] } else { Seq::empty() })
    + (if display_name is Some { seq![SqlValueView::Text(display_name->0@)] } else { Seq::empty() })
    + (if is_active is Some { seq![SqlValueView::Integer(if is_active->0 { 1 } else { 0 })] } else { Seq::empty() })
    + seq![SqlValueView::Integer(id)]
}

/// The value an account update binds for an assignment: the field that
/// assignment names, as given; the active flag as 1 or 0.
pub open spec fn user_field_value(
    assignment: Seq<char>,
    role: Option<&str>,
    display_name: Option<&str>,
    is_active: Option<bool>,
) -> Option<SqlValueView> {
    if assignment == "role = ?"@ {
        if role is Some { Some(SqlValueView::Text(role->0@)) } else { None }
    } else if assignment == "display_name = ?"@ {
        if display_name is Some { Some(SqlValueView::Text(display_name->0@)) } else { None }
    } else if assignment == "is_active = ?"@ {
        if is_active is Some { Some(SqlValueView::Integer(if is_active->0 { 1 } else { 0 })) } else { None }
    } else {
        None
    }
}

/// An account update binds one value per assignment, in the same order,
/// each the given value of the field it names, and then the account id.
pub proof fn lemma_user_update_binds_each_field(
    id: i64,
    role: Option<&str>,
    display_name: Option<&str>,
    is_active: Option<bool>,
)
    ensures
        user_update_params(id, role, display_name, is_active).len() == user_update_sets(role, display_name, is_active).len() + 1,
        user_update_params(id, role, display_name, is_active).last() == SqlValueView::Integer(id),
        forall|i: int|
            0 <= i < user_update_sets(role, display_name, is_active).len() ==> user_field_value(
                #[trigger] user_update_sets(role, display_name, is_active)[i],
                role,
                display_name,
                is_active,
            ) == Some(user_update_params(id, role, display_name, is_active)[i]),
{
    reveal_strlit("role = ?");
    reveal_strlit("display_name = ?");
    reveal_strlit("is_active = ?");
    assert("role = ?"@[0] != "display_name = ?"@[0]);
    assert("role = ?"@[0] != "is_active = ?"@[0]);
    assert("display_name = ?"@[0] != "is_active = ?"@[0]);
    let f = |a: Seq<char>| user_field_value(a, role, display_name, is_active);
    let s1: Seq<Seq<char>> = if role is Some { seq!["role = ?"@] } else { Seq::empty() };
    let v1: Seq<SqlValueView> = if role is Some { seq![SqlValueView::Text(role->0@)] } else { Seq::empty() };
    let s2: Seq<Seq<char>> = if display_name is Some { seq!["display_name = ?"@] } else { Seq::empty() };
    let v2: Seq<SqlValueView> = if display_name is Some {
        seq![SqlValueView::Text(display_name->0@)]
    } else {
        Seq::empty()
    };
    let s3: Seq<Seq<char>> = if is_active is Some { seq!["is_active = ?"@] } else { Seq::empty() };
    let v3: Seq<SqlValueView> = if is_active is Some {
        seq![SqlValueView::Integer(if is_active->0 { 1 } else { 0 })]
    } else {
        Seq::empty()
    };
    assert(forall|i: int| 0 <= i < s1.len() ==> f(#[trigger] s1[i]) == Some(v1[i]));
    assert(forall|i: int| 0 <= i < s2.len() ==> f(#[trigger] s2[i]) == Some(v2[i]));
    assert(forall|i: int| 0 <= i < s3.len() ==> f(#[trigger] s3[i]) == Some(v3[i]));
    crate::db::statement::lemma_paired_concat(s1, v1, s2, v2, f);
    crate::db::statement::lemma_paired_concat(s1 + s2, v1 + v2, s3, v3, f);
    let all = v1 + v2 + v3;
    assert(user_update_params(id, role, display_name, is_active) =~= all + seq![SqlValueView::Integer(id)]);
    assert forall|i: int| 0 <= i < (s1 + s2 + s3).len() implies (all + seq![SqlValueView::Integer(id)])[i] == all[i] by {
    }
}

/// The statement updating an account's role, display name and active flag,
/// of those given.  An unknown role is an invalid-input error; with nothing
/// to change there is no statement.
pub fn update_user(id: i64, role: Option<&str>, display_name: Option<&str>, is_active: Option<bool>) -> (r: Result<Option<SqlStatement>>)
    ensures
        (role matches Some(rn) && role_from_name(rn@) is None) ==> (r matches Err(AppError::InvalidInput(m)) && m@ == unknown_role_message(role->0@)),
        !(role matches Some(rn) && role_from_name(rn@) is None) ==> (r matches Ok(o) && (
            if role is None && display_name is None && is_active is None {
                o is None
            } else {
                (o matches Some(st) && st.sql@ == "UPDATE users SET "@ + join_seq(user_update_sets(role, display_name, is_active).push("updated_at = datetime('now')"@), ", "@) + " WHERE id = ?"@
                    && params_view(st.params@) == user_update_params(id, role, display_name, is_active))
            })),
{
    if let Some(rn) = role {
        Role::from_str(rn)?;
    }
    let mut sets: Vec<&str> = Vec::new();
    let mut params: Vec<SqlValue> = Vec::new();
    if let Some(rn) = role {
        sets.push("role = ?");
        params.push(SqlValue::Text(String::from_str(rn)));
    }
    if let Some(d) = display_name {
        sets.push("display_name = ?");
        params.push(SqlValue::Text(String::from_str(d)));
    }
    if let Some(a) = is_active {
        sets.push("is_active = ?");
        params.push(SqlValue::Integer(if a { 1 } else { 0 }));
    }
    if sets.len() == 0 {
        return Ok(None);
    }
    sets.push("updated_at = datetime('now')");
    params.push(SqlValue::Integer(id));
    let mut sql = String::from_str("UPDATE users SET ");
    let joined = join_strs(&sets, ", ");
    sql.append(joined.as_str());
    sql.append(" WHERE id = ?");
    proof {
        assert(sets@.map_values(|p: &str| p@) =~= user_update_sets(role, display_name, is_active).push("updated_at = datetime('now')"@));
        assert(params_view(params@) =~= user_update_params(id, role, display_name, is_active));
    }
    Ok(Some(SqlStatement { sql, params }))
}

/// The message when the last administrator would be deleted.
pub open spec fn last_admin_message() -> Seq<char> {
    "无法删除最后一个管理员账户"@
}

/// Whether an account may be deleted: the last active administrator may not
/// (`admin_count` active administrators, `target_role` the role of the
/// account to delete).
pub fn delete_user(admin_count: i64, target_role: &str) -> (r: Result<()>)
    ensures
        (target_role@ == "admin"@ && admin_count <= 1) ==> (r matches Err(AppError::Business(m))
            && m@ == last_admin_message()),
        !(target_role@ == "admin"@ && admin_count <= 1) ==> r is Ok,
{
    if str_eq(target_role, "admin") && admin_count <= 1 {
        return Err(AppError::Business(String::from_str("无法删除最后一个管理员账户")));
    }
    Ok(())
}

/// A token issued by a successful login gives back its user until it is
/// revoked, and revoking it leaves every other token as it was.
pub proof fn lemma_session_roundtrip(
    before: Map<Seq<char>, User>,
    token: Seq<char>,
    other: Seq<char>,
    user: User,
)
    requires
        token != other,
    ensures
        token_user(before.insert(token, user), token) == Some(user),
        token_user(before.insert(token, user).remove(token), token) is None,
        token_user(before.insert(token, user).remove(token), other) == token_user(before, other),
{
}


/// The statement storing a new password hash for account `id`, hashing
/// `new_password` with bcrypt; a failed hash is a business error.
pub fn reset_password(id: i64, new_password: &str) -> (r: Result<SqlStatement>)
    ensures
        match r {
            Ok(st) => st.sql@ == "UPDATE users SET password_hash = ?, updated_at = datetime('now') WHERE id = ?"@
                && st.params@.len() == 2 && (st.params@[0] matches SqlValue::Text(h)
                && is_default_bcrypt_hash(h@) && bcrypt_verify_outcome(new_password@, h@) == Some(true))
                && st.params@[1]@
                == SqlValueView::Integer(id),
            Err(e) => e matches AppError::Business(m) && m@ == "密码哈希生成失败"@,
        },
{
    let password_hash = hash_password(new_password)?;
    Ok(
        SqlStatement {
            sql: String::from_str(
                "UPDATE users SET password_hash = ?, updated_at = datetime('now') WHERE id = ?",
            ),
            params: vec![SqlValue::Text(password_hash), SqlValue::Integer(id)],
        },
    )
}

/// The signed-in user of a command (`user`, the owner of the session token
/// if any); without one the command is refused with "请先登录".
pub fn require_login(user: Option<User>) -> (r: Result<User>)
    ensures
        match user {
            Some(u) => r matches Ok(x) && x == u,
            None => r matches Err(AppError::Authentication(m)) && m@ == "请先登录"@,
        },
{
    match user {
        Some(u) => Ok(u),
        None => Err(AppError::Authentication(String::from_str("请先登录"))),
    }
}

/// The signed-in administrator of an administrative command: without a
/// session the command is refused with "请先登录", for any other role with
/// "仅管理员可执行此操作".
pub fn require_admin(user: Option<User>) -> (r: Result<User>)
    ensures
        match user {
            Some(u) => if u.role@ == "admin"@ {
                r matches Ok(x) && x == u
            } else {
                r matches Err(AppError::PermissionDenied(m)) && m@ == "仅管理员可执行此操作"@
            },
            None => r matches Err(AppError::Authentication(m)) && m@ == "请先登录"@,
        },
{
    let u = require_login(user)?;
    if !str_eq(u.role.as_str(), "admin") {
        return Err(AppError::PermissionDenied(String::from_str("仅管理员可执行此操作")));
    }
    Ok(u)
}

/// The debug name of a level, as it appears in refusal messages.
pub open spec fn action_debug_name(a: PermissionAction) -> Seq<char> {
    match a {
        PermissionAction::Read => "Read"@,
        PermissionAction::Write => "Write"@,
        PermissionAction::Manage => "Manage"@,
        PermissionAction::NoAccess => "None"@,
    }
}

/// "权限不足: role=<role>, resource=<resource>, permission=<permission>,
/// action=<level>".
pub open spec fn insufficient_permission_message(
    role: Seq<char>,
    resource: Seq<char>,
    permission: Seq<char>,
    action: PermissionAction,
) -> Seq<char> {
    "权限不足: role="@ + role + ", resource="@ + resource + ", permission="@ + permission
        + ", action="@ + action_debug_name(action)
}

/// Turns the outcome of a permission check into a command guard: a met
/// requirement passes, an unmet one is a permission-denied error naming
/// the role, resource, permission and level, and a failed check passes its
/// error on.
pub fn require_permission(
    role: &str,
    resource: &str,
    permission: &str,
    required: PermissionAction,
    check: Result<bool>,
) -> (r: Result<()>)
    ensures
        match check {
            Ok(true) => r is Ok,
            Ok(false) => r matches Err(AppError::PermissionDenied(m)) && m@
                == insufficient_permission_message(role@, resource@, permission@, required),
            Err(e) => r matches Err(x) && x == e,
        },
{
    match check {
        Ok(true) => Ok(()),
        Ok(false) => {
            let mut m = String::from_str("权限不足: role=");
            m.append(role);
            m.append(", resource=");
            m.append(resource);
            m.append(", permission=");
            m.append(permission);
            m.append(", action=");
            m.append(
                match required {
                    PermissionAction::Read => "Read",
                    PermissionAction::Write => "Write",
                    PermissionAction::Manage => "Manage",
                    PermissionAction::NoAccess => "None",
                },
            );
            Err(AppError::PermissionDenied(m))
        },
        Err(e) => Err(e),
    }
}


/// The active account named `username`, its columns in the order
/// id, user name, password hash, role, display name, active flag.
pub fn find_active_user(username: &str) -> (r: SqlStatement)
    ensures
        r.sql@ == "SELECT id, username, password_hash, role, display_name, is_active FROM users WHERE username = ? AND is_active = 1"@,
        params_view(r.params@) == seq![SqlValueView::Text(username@)],
{
    let params = vec![SqlValue::Text(String::from_str(username))];
    proof {
        assert(params_view(params@) =~= seq![SqlValueView::Text(username@)]);
    }
    SqlStatement {
        sql: String::from_str(
            "SELECT id, username, password_hash, role, display_name, is_active FROM users WHERE username = ? AND is_active = 1",
        ),
        params,
    }
}

/// Every account, by id, its columns in the order of [`find_active_user`].
pub fn list_users() -> (r: SqlStatement)
    ensures
        r.sql@ == "SELECT id, username, password_hash, role, display_name, is_active FROM users ORDER BY id"@,
        r.params@.len() == 0,
{
    SqlStatement {
        sql: String::from_str("SELECT id, username, password_hash, role, display_name, is_active FROM users ORDER BY id"),
        params: Vec::new(),
    }
}


// ---------------------------------------------------------------------
// Account statements
// ---------------------------------------------------------------------

/// A new account with its password hash (display name NULL when absent).
pub fn insert_user(username: &str, password_hash: &str, role: &str, display_name: Option<&str>) -> (r: SqlStatement)
    ensures
        r.sql@ == "INSERT INTO users (username, password_hash, role, display_name) VALUES (?, ?, ?, ?)"@,
        params_view(r.params@) == seq![SqlValueView::Text(username@), SqlValueView::Text(password_hash@), SqlValueView::Text(role@), optional_text_value(display_name)],
{
    let params = vec![SqlValue::Text(String::from_str(username)), SqlValue::Text(String::from_str(password_hash)), SqlValue::Text(String::from_str(role)), opt_text_value(display_name)];
    proof {
        assert(params_view(params@) =~= seq![SqlValueView::Text(username@), SqlValueView::Text(password_hash@), SqlValueView::Text(role@), optional_text_value(display_name)]);
    }
    SqlStatement { sql: String::from_str("INSERT INTO users (username, password_hash, role, display_name) VALUES (?, ?, ?, ?)"), params }
}

/// How many accounts carry `username`.
pub fn count_username(username: &str) -> (r: SqlStatement)
    ensures
        r.sql@ == "SELECT COUNT(*) FROM users WHERE username = ?"@,
        params_view(r.params@) == seq![SqlValueView::Text(username@)],
{
    let params = vec![SqlValue::Text(String::from_str(username))];
    proof {
        assert(params_view(params@) =~= seq![SqlValueView::Text(username@)]);
    }
    SqlStatement { sql: String::from_str("SELECT COUNT(*) FROM users WHERE username = ?"), params }
}

/// How many active administrator accounts there are.
pub fn count_active_admins() -> (r: SqlStatement)
    ensures
        r.sql@ == "SELECT COUNT(*) FROM users WHERE role = 'admin' AND is_active = 1"@,
        params_view(r.params@) == Seq::<SqlValueView>::empty(),
{
    let params: Vec<SqlValue> = Vec::new();
    proof {
        assert(params_view(params@) =~= Seq::<SqlValueView>::empty());
    }
    SqlStatement { sql: String::from_str("SELECT COUNT(*) FROM users WHERE role = 'admin' AND is_active = 1"), params }
}

/// The role of account `id`.
pub fn user_role(id: i64) -> (r: SqlStatement)
    ensures
        r.sql@ == "SELECT role FROM users WHERE id = ?"@,
        params_view(r.params@) == seq![SqlValueView::Integer(id)],
{
    let params = vec![SqlValue::Integer(id)];
    proof {
        assert(params_view(params@) =~= seq![SqlValueView::Integer(id)]);
    }
    SqlStatement { sql: String::from_str("SELECT role FROM users WHERE id = ?"), params }
}

/// Deletes account `id`.
pub fn delete_user_statement(id: i64) -> (r: SqlStatement)
    ensures
        r.sql@ == "DELETE FROM users WHERE id = ?"@,
        params_view(r.params@) == seq![SqlValueView::Integer(id)],
{
    let params = vec![SqlValue::Integer(id)];
    proof {
        assert(params_view(params@) =~= seq![SqlValueView::Integer(id)]);
    }
    SqlStatement { sql: String::from_str("DELETE FROM users WHERE id = ?"), params }
}

/// The level granted to `role` for `resource` and `permission`.
pub fn permission_grant(role: &str, resource: &str, permission: &str) -> (r: SqlStatement)
    ensures
        r.sql@ == "SELECT action FROM permissions WHERE role = ? AND resource = ? AND permission = ?"@,
        params_view(r.params@) == seq![SqlValueView::Text(role@), SqlValueView::Text(resource@), SqlValueView::Text(permission@)],
{
    let params = vec![SqlValue::Text(String::from_str(role)), SqlValue::Text(String::from_str(resource)), SqlValue::Text(String::from_str(permission))];
    proof {
        assert(params_view(params@) =~= seq![SqlValueView::Text(role@), SqlValueView::Text(resource@), SqlValueView::Text(permission@)]);
    }
    SqlStatement { sql: String::from_str("SELECT action FROM permissions WHERE role = ? AND resource = ? AND permission = ?"), params }
}

/// Records now as the last login of account `id`.
pub fn stamp_last_login(id: i64) -> (r: SqlStatement)
    ensures
        r.sql@ == "UPDATE users SET last_login_at = datetime('now') WHERE id = ?"@,
        params_view(r.params@) == seq![SqlValueView::Integer(id)],
{
    let params = vec![SqlValue::Integer(id)];
    proof {
        assert(params_view(params@) =~= seq![SqlValueView::Integer(id)]);
    }
    SqlStatement { sql: String::from_str("UPDATE users SET last_login_at = datetime('now') WHERE id = ?"), params }
}

} // verus!
