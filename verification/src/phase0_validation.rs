//! The storage layer's own error type, which carries no driver type, and an
//! in-memory repository with the same interface as the stored one.

use std::collections::HashMap;

use vstd::prelude::*;

verus! {

/// A failure of a repository operation, described by text only.
#[derive(Debug)]
pub enum RepositoryError {
    Database(String),
    NotFound(String),
    Validation(String),
    Concurrency(String),
    Transaction(String),
}

/// Result of a repository operation.
pub type RepositoryResult<T> = std::result::Result<T, RepositoryError>;

/// The display text of a repository error: its category and its detail.
pub open spec fn repository_error_text(e: RepositoryError) -> Seq<char> {
    match e {
        RepositoryError::Database(m) => "数据库错误: "@ + m@,
        RepositoryError::NotFound(m) => "记录不存在: "@ + m@,
        RepositoryError::Validation(m) => "数据验证失败: "@ + m@,
        RepositoryError::Concurrency(m) => "并发冲突: "@ + m@,
        RepositoryError::Transaction(m) => "事务失败: "@ + m@,
    }
}

impl RepositoryError {
    /// The display text of this error.
    pub fn to_string(&self) -> (r: String)
        ensures
            r@ == repository_error_text(*self),
    {
        let (prefix, detail) = match self {
            RepositoryError::Database(m) => ("数据库错误: ", m),
            RepositoryError::NotFound(m) => ("记录不存在: ", m),
            RepositoryError::Validation(m) => ("数据验证失败: ", m),
            RepositoryError::Concurrency(m) => ("并发冲突: ", m),
            RepositoryError::Transaction(m) => ("事务失败: ", m),
        };
        let mut s = String::from_str(prefix);
        s.append(detail.as_str());
        s
    }

    /// The error for a driver failure with text `message`: a missing row is
    /// "not found", anything else a database error.
    pub fn from_driver_error(row_not_found: bool, message: String) -> (r: RepositoryError)
        ensures
            row_not_found ==> r == RepositoryError::NotFound(message),
            !row_not_found ==> r == RepositoryError::Database(message),
    {
        if row_not_found {
            RepositoryError::NotFound(message)
        } else {
            RepositoryError::Database(message)
        }
    }
}

/// An in-memory repository of texts keyed by id.
pub struct MockRepository {
    data: HashMap<i64, String>,
}

impl View for MockRepository {
    type V = Map<i64, Seq<char>>;

    closed spec fn view(&self) -> Map<i64, Seq<char>> {
        self.data@.map_values(|s: String| s@)
    }
}

impl MockRepository {
    /// An empty repository.
    pub fn new() -> (r: MockRepository)
        ensures
            r@ == Map::<i64, Seq<char>>::empty(),
    {
        let r = MockRepository { data: HashMap::new() };
        proof {
            assert(r@ =~= Map::<i64, Seq<char>>::empty());
        }
        r
    }

    /// The text stored under `id`.
    pub fn find_by_id(&self, id: i64) -> (r: RepositoryResult<Option<String>>)
        ensures
            r matches Ok(o) && match o {
                Some(t) => self@.contains_key(id) && self@[id] == t@,
                None => !self@.contains_key(id),
            },
    {
        broadcast use vstd::std_specs::hash::group_hash_axioms;
        match self.data.get(&id) {
            Some(t) => Ok(Some(t.clone())),
            None => Ok(None),
        }
    }

    /// Stores `value` under `id`, replacing what was stored there.
    pub fn save(&mut self, id: i64, value: String) -> (r: RepositoryResult<()>)
        ensures
            r is Ok,
            final(self)@ == old(self)@.insert(id, value@),
    {
        broadcast use vstd::std_specs::hash::group_hash_axioms;
        let ghost before = self.data@;
        let ghost v = value@;
        self.data.insert(id, value);
        proof {
            assert(self@ =~= before.map_values(|s: String| s@).insert(id, v));
        }
        Ok(())
    }
}

/// What the repository gives back of a save: the saved text under its id,
/// and under every other id what was there before.
pub proof fn lemma_find_after_save(before: Map<i64, Seq<char>>, id: i64, value: Seq<char>, other: i64)
    ensures
        before.insert(id, value).contains_key(id),
        before.insert(id, value)[id] == value,
        other != id ==> (before.insert(id, value).contains_key(other) == before.contains_key(other)),
        (other != id && before.contains_key(other)) ==> before.insert(id, value)[other] == before[other],
{
}

} // verus!
