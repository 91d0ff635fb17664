//! A result row as read from storage, and typed reads of its columns.
//!
//! A column is found by name, the first whose name matches ignoring ASCII
//! case.  A read fails when no column matches or when the stored value
//! does not have the type asked for; an optional read gives `None` for a
//! stored NULL.

use vstd::prelude::*;

verus! {

/// A stored value.  `Other` is a value of any other storage class (a
/// floating-point number or a blob), which no read here accepts.
#[derive(Debug, Clone)]
pub enum ColumnValue {
    Integer(i64),
    Text(String),
    Null,
    Other,
}

/// The mathematical content of a stored value.
pub enum ColumnValueView {
    Integer(i64),
    Text(Seq<char>),
    Null,
    Other,
}

impl View for ColumnValue {
    type V = ColumnValueView;

    open spec fn view(&self) -> ColumnValueView {
        match self {
            ColumnValue::Integer(i) => ColumnValueView::Integer(*i),
            ColumnValue::Text(s) => ColumnValueView::Text(s@),
            ColumnValue::Null => ColumnValueView::Null,
            ColumnValue::Other => ColumnValueView::Other,
        }
    }
}

/// One result row: its columns' names and values, in order.
#[derive(Debug, Clone)]
pub struct Row {
    pub columns: Vec<(String, ColumnValue)>,
}

impl View for Row {
    type V = Seq<(Seq<char>, ColumnValueView)>;

    open spec fn view(&self) -> Seq<(Seq<char>, ColumnValueView)> {
        self.columns@.map_values(|c: (String, ColumnValue)| (c.0@, c.1@))
    }
}

/// Why a read failed, with the name asked for.
#[derive(Debug, Clone)]
pub enum RowError {
    NoSuchColumn(String),
    WrongType(String),
}

/// The code of a character with ASCII upper case folded to lower case.
pub open spec fn ascii_lower(c: char) -> u32 {
    if 'A' <= c <= 'Z' {
        ((c as u32) + 32) as u32
    } else {
        c as u32
    }
}

/// Whether two names are equal ignoring ASCII case.
pub open spec fn names_match(a: Seq<char>, b: Seq<char>) -> bool {
    a.len() == b.len() && forall|i: int| 0 <= i < a.len() ==> ascii_lower(#[trigger] a[i]) == ascii_lower(b[i])
}

/// The value of the first column named `name`.
pub open spec fn column_of(cols: Seq<(Seq<char>, ColumnValueView)>, name: Seq<char>) -> Option<ColumnValueView>
    decreases cols.len(),
{
    if cols.len() == 0 {
        None
    } else if names_match(cols[0].0, name) {
        Some(cols[0].1)
    } else {
        column_of(cols.drop_first(), name)
    }
}

/// An integer read.
pub open spec fn col_i64(cols: Seq<(Seq<char>, ColumnValueView)>, name: Seq<char>) -> Option<i64> {
    match column_of(cols, name) {
        Some(ColumnValueView::Integer(i)) => Some(i),
        _ => None,
    }
}

/// A nullable integer read.
pub open spec fn col_opt_i64(cols: Seq<(Seq<char>, ColumnValueView)>, name: Seq<char>) -> Option<Option<i64>> {
    match column_of(cols, name) {
        Some(ColumnValueView::Integer(i)) => Some(Some(i)),
        Some(ColumnValueView::Null) => Some(None),
        _ => None,
    }
}

/// A 32-bit integer read: the stored integer must fit.
pub open spec fn col_i32(cols: Seq<(Seq<char>, ColumnValueView)>, name: Seq<char>) -> Option<i32> {
    match column_of(cols, name) {
        Some(ColumnValueView::Integer(i)) => if i32::MIN <= i <= i32::MAX {
            Some(i as i32)
        } else {
            None
        },
        _ => None,
    }
}

/// A nullable 32-bit integer read.
pub open spec fn col_opt_i32(cols: Seq<(Seq<char>, ColumnValueView)>, name: Seq<char>) -> Option<Option<i32>> {
    match column_of(cols, name) {
        Some(ColumnValueView::Null) => Some(None),
        _ => match col_i32(cols, name) {
            Some(i) => Some(Some(i)),
            None => None,
        },
    }
}

/// A text read.
pub open spec fn col_text(cols: Seq<(Seq<char>, ColumnValueView)>, name: Seq<char>) -> Option<Seq<char>> {
    match column_of(cols, name) {
        Some(ColumnValueView::Text(t)) => Some(t),
        _ => None,
    }
}

/// A nullable text read.
pub open spec fn col_opt_text(cols: Seq<(Seq<char>, ColumnValueView)>, name: Seq<char>) -> Option<Option<Seq<char>>> {
    match column_of(cols, name) {
        Some(ColumnValueView::Text(t)) => Some(Some(t)),
        Some(ColumnValueView::Null) => Some(None),
        _ => None,
    }
}

/// A flag stored as a 32-bit integer: anything but zero is set.
pub open spec fn col_flag(cols: Seq<(Seq<char>, ColumnValueView)>, name: Seq<char>) -> Option<bool> {
    match col_i32(cols, name) {
        Some(i) => Some(i != 0),
        None => None,
    }
}

/// The value of column `i`, counted from zero.
pub open spec fn column_at(cols: Seq<(Seq<char>, ColumnValueView)>, i: int) -> Option<ColumnValueView> {
    if 0 <= i < cols.len() {
        Some(cols[i].1)
    } else {
        None
    }
}

/// An integer read of column `i`.
pub open spec fn at_i64(cols: Seq<(Seq<char>, ColumnValueView)>, i: int) -> Option<i64> {
    match column_at(cols, i) {
        Some(ColumnValueView::Integer(v)) => Some(v),
        _ => None,
    }
}

/// A text read of column `i`.
pub open spec fn at_text(cols: Seq<(Seq<char>, ColumnValueView)>, i: int) -> Option<Seq<char>> {
    match column_at(cols, i) {
        Some(ColumnValueView::Text(t)) => Some(t),
        _ => None,
    }
}

/// A nullable text read of column `i`.
pub open spec fn at_opt_text(cols: Seq<(Seq<char>, ColumnValueView)>, i: int) -> Option<Option<Seq<char>>> {
    match column_at(cols, i) {
        Some(ColumnValueView::Text(t)) => Some(Some(t)),
        Some(ColumnValueView::Null) => Some(None),
        _ => None,
    }
}

/// The view of an optional string.
pub open spec fn opt_view(o: Option<String>) -> Option<Seq<char>> {
    match o {
        Some(s) => Some(s@),
        None => None,
    }
}

fn lower_char(c: char) -> (r: u32)
    ensures
        r == ascii_lower(c),
{
    if 'A' <= c && c <= 'Z' {
        c as u32 + 32
    } else {
        c as u32
    }
}

/// Whether two names are equal ignoring ASCII case.
pub fn names_equal(a: &str, b: &str) -> (r: bool)
    ensures
        r == names_match(a@, b@),
{
    let n = a.unicode_len();
    if n != b.unicode_len() {
        return false;
    }
    let mut i: usize = 0;
    while i < n
        invariant
            n == a@.len(),
            n == b@.len(),
            i <= n,
            forall|j: int| 0 <= j < i ==> ascii_lower(#[trigger] a@[j]) == ascii_lower(b@[j]),
        decreases n - i,
    {
        if lower_char(a.get_char(i)) != lower_char(b.get_char(i)) {
            return false;
        }
        i += 1;
    }
    true
}

impl Row {
    /// The value of the first column named `name`.
    pub fn value(&self, name: &str) -> (r: Option<&ColumnValue>)
        ensures
            match column_of(self@, name@) {
                Some(v) => r matches Some(x) && x@ == v,
                None => r is None,
            },
    {
        let mut i: usize = 0;
        assert(self@.skip(0) =~= self@);
        while i < self.columns.len()
            invariant
                i <= self.columns@.len(),
                self@.len() == self.columns@.len(),
                column_of(self@, name@) == column_of(self@.skip(i as int), name@),
            decreases self.columns.len() - i,
        {
            assert(self@.skip(i as int).drop_first() =~= self@.skip(i + 1));
            assert(self@[i as int] == (self.columns@[i as int].0@, self.columns@[i as int].1@));
            if names_equal(self.columns[i].0.as_str(), name) {
                return Some(&self.columns[i].1);
            }
            i += 1;
        }
        assert(self@.skip(i as int) =~= Seq::<(Seq<char>, ColumnValueView)>::empty());
        None
    }

    /// The error of a failed read of `name`: no such column when no column
    /// has that name, a value of another type otherwise; either names the
    /// column asked for.
    fn read_error(&self, name: &str) -> (r: RowError)
        ensures
            match column_of(self@, name@) {
                None => r matches RowError::NoSuchColumn(n) && n@ == name@,
                Some(_) => r matches RowError::WrongType(n) && n@ == name@,
            },
    {
        match self.value(name) {
            None => RowError::NoSuchColumn(String::from_str(name)),
            Some(_) => RowError::WrongType(String::from_str(name)),
        }
    }

    /// Reads an integer.
    pub fn get_i64(&self, name: &str) -> (r: Result<i64, RowError>)
        ensures
            match col_i64(self@, name@) {
                Some(v) => r matches Ok(x) && x == v,
                None => r is Err,
            },
    {
        match self.value(name) {
            Some(ColumnValue::Integer(i)) => Ok(*i),
            _ => Err(self.read_error(name)),
        }
    }

    /// Reads a nullable integer.
    pub fn get_opt_i64(&self, name: &str) -> (r: Result<Option<i64>, RowError>)
        ensures
            match col_opt_i64(self@, name@) {
                Some(v) => r matches Ok(x) && x == v,
                None => r is Err,
            },
    {
        match self.value(name) {
            Some(ColumnValue::Integer(i)) => Ok(Some(*i)),
            Some(ColumnValue::Null) => Ok(None),
            _ => Err(self.read_error(name)),
        }
    }

    /// Reads a 32-bit integer.
    pub fn get_i32(&self, name: &str) -> (r: Result<i32, RowError>)
        ensures
            match col_i32(self@, name@) {
                Some(v) => r matches Ok(x) && x == v,
                None => r is Err,
            },
    {
        match self.value(name) {
            Some(ColumnValue::Integer(i)) => {
                if i32::MIN as i64 <= *i && *i <= i32::MAX as i64 {
                    Ok(*i as i32)
                } else {
                    Err(self.read_error(name))
                }
            },
            _ => Err(self.read_error(name)),
        }
    }

    /// Reads a nullable 32-bit integer.
    pub fn get_opt_i32(&self, name: &str) -> (r: Result<Option<i32>, RowError>)
        ensures
            match col_opt_i32(self@, name@) {
                Some(v) => r matches Ok(x) && x == v,
                None => r is Err,
            },
    {
        match self.value(name) {
            Some(ColumnValue::Null) => Ok(None),
            _ => match self.get_i32(name) {
                Ok(i) => Ok(Some(i)),
                Err(e) => Err(e),
            },
        }
    }

    /// Reads a text.
    pub fn get_text(&self, name: &str) -> (r: Result<String, RowError>)
        ensures
            match col_text(self@, name@) {
                Some(v) => r matches Ok(x) && x@ == v,
                None => r is Err,
            },
    {
        match self.value(name) {
            Some(ColumnValue::Text(t)) => Ok(t.clone()),
            _ => Err(self.read_error(name)),
        }
    }

    /// Reads a nullable text.
    pub fn get_opt_text(&self, name: &str) -> (r: Result<Option<String>, RowError>)
        ensures
            match col_opt_text(self@, name@) {
                Some(v) => r matches Ok(x) && opt_view(x) == v,
                None => r is Err,
            },
    {
        match self.value(name) {
            Some(ColumnValue::Text(t)) => Ok(Some(t.clone())),
            Some(ColumnValue::Null) => Ok(None),
            _ => Err(self.read_error(name)),
        }
    }

    /// Reads a flag stored as a 32-bit integer.
    pub fn get_flag(&self, name: &str) -> (r: Result<bool, RowError>)
        ensures
            match col_flag(self@, name@) {
                Some(v) => r matches Ok(x) && x == v,
                None => r is Err,
            },
    {
        match self.get_i32(name) {
            Ok(i) => Ok(i != 0),
            Err(e) => Err(e),
        }
    }

    /// The value of column `i`, counted from zero.
    pub fn value_at(&self, i: usize) -> (r: Option<&ColumnValue>)
        ensures
            match column_at(self@, i as int) {
                Some(v) => r matches Some(x) && x@ == v,
                None => r is None,
            },
    {
        if i < self.columns.len() {
            Some(&self.columns[i].1)
        } else {
            None
        }
    }

    /// Reads an integer from column `i`.
    pub fn get_i64_at(&self, i: usize) -> (r: Result<i64, RowError>)
        ensures
            match at_i64(self@, i as int) {
                Some(v) => r matches Ok(x) && x == v,
                None => r is Err,
            },
    {
        match self.value_at(i) {
            Some(ColumnValue::Integer(v)) => Ok(*v),
            Some(_) => Err(RowError::WrongType(crate::text::u64_to_decimal(i as u64))),
            None => Err(RowError::NoSuchColumn(crate::text::u64_to_decimal(i as u64))),
        }
    }

    /// Reads a text from column `i`.
    pub fn get_text_at(&self, i: usize) -> (r: Result<String, RowError>)
        ensures
            match at_text(self@, i as int) {
                Some(v) => r matches Ok(x) && x@ == v,
                None => r is Err,
            },
    {
        match self.value_at(i) {
            Some(ColumnValue::Text(t)) => Ok(t.clone()),
            Some(_) => Err(RowError::WrongType(crate::text::u64_to_decimal(i as u64))),
            None => Err(RowError::NoSuchColumn(crate::text::u64_to_decimal(i as u64))),
        }
    }

    /// Reads a nullable text from column `i`.
    pub fn get_opt_text_at(&self, i: usize) -> (r: Result<Option<String>, RowError>)
        ensures
            match at_opt_text(self@, i as int) {
                Some(v) => r matches Ok(x) && opt_view(x) == v,
                None => r is Err,
            },
    {
        match self.value_at(i) {
            Some(ColumnValue::Text(t)) => Ok(Some(t.clone())),
            Some(ColumnValue::Null) => Ok(None),
            Some(_) => Err(RowError::WrongType(crate::text::u64_to_decimal(i as u64))),
            None => Err(RowError::NoSuchColumn(crate::text::u64_to_decimal(i as u64))),
        }
    }
}

} // verus!
