//! The record store: a generic persistence contract over SQLite.
//!
//! A record type implements [`Model`]: it names its columns and headers,
//! builds its SQL, decodes a row of plain text, and binds itself to a
//! statement. [`DbConn`] wraps one connection and runs the contract's
//! operations. What a call returns depends on the database file, so the
//! contracts here pin the SQL that is run and the shape of what comes back;
//! the record type's own decode carries the exact value-level contract.

use vstd::prelude::*;

use vstd::string::StrSliceExecFns;
use vstd::string::StringExecFns;

use crate::render::dec_digits;
use crate::render::u64_to_dec;
use crate::sqlite::DbError;
use crate::sqlite::execute_sql;
use crate::sqlite::open_connection;
use crate::sqlite::query_strings;
use crate::text::contains_sub;
use crate::text::has_sub;
use crate::text::str_eq;
use crate::text::trim_start_ws;
use crate::text::trimmed;
use crate::text::upper_ascii;
use crate::text::upper_seq;

verus! {

/// The operation a piece of SQL stands for.
#[derive(Clone, Copy, PartialEq, Eq, Structural, Debug)]
pub enum DbOpt {
    Create,
    Insert,
    Update,
    Delete,
    Select,
}

/// Which names of a record type are asked for: its table's column names or
/// its display headers.
#[derive(Clone, Copy, PartialEq, Eq, Structural, Debug)]
pub enum ModelNameType {
    Column,
    Header,
}

/// The filtered, ordered and paginated select statement built from a raw
/// condition: a condition shorter than five characters becomes `WHERE 1=1`;
/// one that does not start with `WHERE` (in any case) is wrapped in one; an
/// ordering is appended only when the condition does not already order and
/// the order field names a real column; a nonzero limit pair appends `LIMIT`
/// and `OFFSET`.
pub open spec fn spec_sql_with_condition(
    sel: Seq<char>,
    cols: Seq<Seq<char>>,
    cond: Seq<char>,
    o0: Seq<char>,
    o1: Seq<char>,
    l0: int,
    l1: int,
) -> Seq<char> {
    let t = trimmed(cond);
    let c1 = if t.len() < 5 {
        " WHERE 1=1 "@
    } else if upper_seq(t.take(5)) != "WHERE"@ {
        " WHERE "@ + t + " "@
    } else {
        t
    };
    let c2 = if !has_sub(upper_seq(c1), "ORDER BY"@) && cols.contains(o0) {
        " "@ + c1 + " ORDER BY "@ + o0 + " "@ + (if o1 == "DESC"@ {
            "DESC"@
        } else {
            "ASC"@
        }) + " "@
    } else {
        c1
    };
    let c3 = if l0 != 0 || l1 != 0 {
        " "@ + c2 + " LIMIT "@ + dec_digits(l0 as nat) + " OFFSET "@ + dec_digits(l1 as nat) + " "@
    } else {
        c2
    };
    sel + " "@ + c3
}

/// Whether one of the strings holds exactly the characters of `x`.
pub fn names_contain(v: &Vec<String>, x: &str) -> (r: bool)
    ensures
        r == v.deep_view().contains(x@),
{
    let mut i: usize = 0;
    while i < v.len()
        invariant
            i <= v@.len(),
            forall|j: int| 0 <= j < i ==> v.deep_view()[j] != x@,
        decreases v@.len() - i,
    {
        if str_eq(v[i].as_str(), x) {
            proof {
                assert(v.deep_view()[i as int] == x@);
            }
            return true;
        }
        i = i + 1;
    }
    false
}

/// Whether a record value is what decoding some full-width row of column
/// texts yields.
pub open spec fn decode_of_some_row<T: Model>(mv: T::V) -> bool {
    exists|row: Seq<Seq<char>>|
        row.len() == T::spec_names(ModelNameType::Column).len() && #[trigger] T::spec_decode_row(
            row,
        ) == Some(mv)
}

/// Whether every record of the sequence is the decode of some full-width
/// row of column texts.
pub open spec fn decoded_records<T: Model>(v: Seq<T>) -> bool {
    forall|i: int| 0 <= i < v.len() ==> decode_of_some_row::<T>((#[trigger] v[i])@)
}

/// Whether the operation binds a record to a statement: only inserts,
/// updates and deletes do.
pub open spec fn binding_opt(opt: DbOpt) -> bool {
    opt == DbOpt::Insert || opt == DbOpt::Update || opt == DbOpt::Delete
}

/// The persistence capabilities of a record type.
pub trait Model: Sized + View {
    /// The record's column names (`Column`) or display headers (`Header`),
    /// at the specification level.
    spec fn spec_names(name_type: ModelNameType) -> Seq<Seq<char>>;

    /// The SQL each operation runs, at the specification level.
    spec fn spec_sql(opt: DbOpt) -> Seq<char>;

    /// Whether the record's fields fit the store's encoding, so that a
    /// binding operation can run it.
    spec fn spec_bindable(&self) -> bool;

    /// What decoding one row of column texts yields, at the specification
    /// level: the record the texts render, or nothing.
    spec fn spec_decode_row(vals: Seq<Seq<char>>) -> Option<Self::V>;

    /// The record's column names or display headers.
    fn get_names(name_type: ModelNameType) -> (r: Vec<String>)
        ensures
            r.deep_view() == Self::spec_names(name_type),
    ;

    /// The SQL for one operation.
    fn get_sql(opt: DbOpt) -> (r: String)
        ensures
            r@ == Self::spec_sql(opt),
    ;

    /// Decodes a record from one row of column texts, exactly as
    /// `spec_decode_row` reads them.
    fn from_row(vals: &Vec<String>) -> (r: Result<Self, DbError>)
        ensures
            r matches Ok(m) ==> Self::spec_decode_row(vals.deep_view()) == Some(m@),
            r is Err ==> Self::spec_decode_row(vals.deep_view()) is None,
    ;

    /// Runs the operation's statement bound to this record's fields,
    /// reporting how many rows changed. How many depends on the database
    /// file; but a non-binding operation, or a record the encoding cannot
    /// carry, is refused before the driver is reached, and every other
    /// failure is the driver's.
    fn execute(&self, conn: &rusqlite::Connection, opt: DbOpt) -> (r: Result<usize, DbError>)
        ensures
            r == Err::<usize, DbError>(DbError::Unsupported) <==> (!binding_opt(opt)
                || !self.spec_bindable()),
            r is Err ==> r == Err::<usize, DbError>(DbError::Unsupported) || r == Err::<
                usize,
                DbError,
            >(DbError::Sqlite),
    ;

    /// Builds the filtered, ordered and paginated select statement.
    fn get_sql_with_condition(condition: &str, order: (&str, &str), limit: (u32, u32)) -> (r:
        String)
        ensures
            r@ == spec_sql_with_condition(
                Self::spec_sql(DbOpt::Select),
                Self::spec_names(ModelNameType::Column),
                condition@,
                order.0@,
                order.1@,
                limit.0 as int,
                limit.1 as int,
            ),
    {
        let t = trim_start_ws(condition);
        let c1: String = if t.as_str().unicode_len() < 5 {
            String::from_str(" WHERE 1=1 ")
        } else {
            let five = t.as_str().substring_char(0, 5);
            proof {
                assert(five@ =~= trimmed(condition@).take(5));
            }
            let fu = upper_ascii(five);
            if str_eq(fu.as_str(), "WHERE") {
                t
            } else {
                String::from_str(" WHERE ").concat(t.as_str()).concat(" ")
            }
        };
        let cu = upper_ascii(c1.as_str());
        let names = Self::get_names(ModelNameType::Column);
        let c2: String = if !contains_sub(cu.as_str(), "ORDER BY") && names_contain(
            &names,
            order.0,
        ) {
            let dir: &str = if str_eq(order.1, "DESC") {
                "DESC"
            } else {
                "ASC"
            };
            String::from_str(" ").concat(c1.as_str()).concat(" ORDER BY ").concat(order.0).concat(
                " ",
            ).concat(dir).concat(" ")
        } else {
            c1
        };
        let c3: String = if limit.0 != 0 || limit.1 != 0 {
            let l0s = u64_to_dec(limit.0 as u64);
            let l1s = u64_to_dec(limit.1 as u64);
            String::from_str(" ").concat(c2.as_str()).concat(" LIMIT ").concat(l0s.as_str()).concat(
                " OFFSET ",
            ).concat(l1s.as_str()).concat(" ")
        } else {
            c2
        };
        Self::get_sql(DbOpt::Select).concat(" ").concat(c3.as_str())
    }
}

/// One open store: a SQLite connection and the record under edit, if any.
pub struct DbConn<T: Model> {
    pub instance: Box<rusqlite::Connection>,
    pub model: Box<Option<T>>,
}

impl<T: Model> DbConn<T> {
    /// Opens the store backed by the file at `path` (`:memory:` for a
    /// transient one), with no record under edit.
    pub fn open(path: &str) -> (r: Result<Self, DbError>)
        ensures
            r matches Ok(c) ==> *c.model is None,
    {
        match open_connection(path) {
            Ok(conn) => Ok(DbConn { instance: Box::new(conn), model: Box::new(None) }),
            Err(e) => Err(e),
        }
    }

    /// Opens the store at its fixed file name.
    pub fn new() -> (r: Result<Self, DbError>)
        ensures
            r matches Ok(c) ==> *c.model is None,
    {
        Self::open("./water-resources.db")
    }

    /// Puts a record under edit.
    pub fn set_model(&mut self, m: T)
        ensures
            *final(self).model == Some(m),
            final(self).instance == old(self).instance,
    {
        self.model = Box::new(Some(m));
    }

    /// Takes the record under edit, leaving none.
    pub fn take_model(&mut self) -> (r: Option<T>)
        ensures
            r == *old(self).model,
            *final(self).model is None,
            final(self).instance == old(self).instance,
    {
        let mut slot: Box<Option<T>> = Box::new(None);
        core::mem::swap(&mut self.model, &mut slot);
        *slot
    }

    /// Creates the record's table. Fails if it already exists; every
    /// failure is the driver's.
    pub fn create(&self) -> (r: Result<usize, DbError>)
        ensures
            r is Err ==> r == Err::<usize, DbError>(DbError::Sqlite),
    {
        let sql = T::get_sql(DbOpt::Create);
        let params: Vec<String> = Vec::new();
        execute_sql(&self.instance, sql.as_str(), &params)
    }

    /// Inserts the record under edit; with none, changes nothing. A record
    /// the encoding cannot carry is refused before the driver is reached.
    pub fn insert(&self) -> (r: Result<usize, DbError>)
        ensures
            *self.model is None ==> r == Ok::<usize, DbError>(0usize),
            r == Err::<usize, DbError>(DbError::Unsupported) <==> (*self.model matches Some(m)
                && !m.spec_bindable()),
            r is Err ==> r == Err::<usize, DbError>(DbError::Unsupported) || r == Err::<
                usize,
                DbError,
            >(DbError::Sqlite),
    {
        match &*self.model {
            Some(m) => m.execute(&self.instance, DbOpt::Insert),
            None => Ok(0),
        }
    }

    /// Updates the row keyed by the edited record's id; with none under
    /// edit, changes nothing. A record the encoding cannot carry is refused
    /// before the driver is reached.
    pub fn update(&self) -> (r: Result<usize, DbError>)
        ensures
            *self.model is None ==> r == Ok::<usize, DbError>(0usize),
            r == Err::<usize, DbError>(DbError::Unsupported) <==> (*self.model matches Some(m)
                && !m.spec_bindable()),
            r is Err ==> r == Err::<usize, DbError>(DbError::Unsupported) || r == Err::<
                usize,
                DbError,
            >(DbError::Sqlite),
    {
        match &*self.model {
            Some(m) => m.execute(&self.instance, DbOpt::Update),
            None => Ok(0),
        }
    }

    /// Deletes the row keyed by the edited record's id; with none under
    /// edit, changes nothing. The reported count is zero when no row had
    /// that id.
    pub fn delete(&self) -> (r: Result<usize, DbError>)
        ensures
            *self.model is None ==> r == Ok::<usize, DbError>(0usize),
            r == Err::<usize, DbError>(DbError::Unsupported) <==> (*self.model matches Some(m)
                && !m.spec_bindable()),
            r is Err ==> r == Err::<usize, DbError>(DbError::Unsupported) || r == Err::<
                usize,
                DbError,
            >(DbError::Sqlite),
    {
        match &*self.model {
            Some(m) => m.execute(&self.instance, DbOpt::Delete),
            None => Ok(0),
        }
    }

    /// Runs `sql` and decodes every resulting row: each returned record is
    /// the decode of some full-width row of column texts.
    fn query_decode(&self, sql: &str, params: &Vec<String>) -> (r: Result<Vec<T>, DbError>)
        ensures
            r matches Ok(v) ==> decoded_records::<T>(v@),
    {
        let names = T::get_names(ModelNameType::Column);
        let rows = match query_strings(&self.instance, sql, params, names.len()) {
            Ok(rows) => rows,
            Err(e) => {
                return Err(e);
            },
        };
        let mut out: Vec<T> = Vec::new();
        let ghost mut used: Seq<Seq<Seq<char>>> = Seq::empty();
        let mut i: usize = 0;
        while i < rows.len()
            invariant
                i <= rows@.len(),
                used.len() == out@.len(),
                forall|k: int|
                    0 <= k < rows@.len() ==> (#[trigger] rows@[k])@.len() == T::spec_names(
                        ModelNameType::Column,
                    ).len(),
                forall|j: int|
                    0 <= j < out@.len() ==> (#[trigger] used[j]).len() == T::spec_names(
                        ModelNameType::Column,
                    ).len() && T::spec_decode_row(used[j]) == Some(out@[j]@),
            decreases rows@.len() - i,
        {
            match T::from_row(&rows[i]) {
                Ok(m) => {
                    proof {
                        assert(rows@[i as int].deep_view().len() == (rows@[i as int])@.len());
                        assert(T::spec_decode_row(rows@[i as int].deep_view()) == Some(m@));
                        used = used.push(rows@[i as int].deep_view());
                    }
                    out.push(m);
                },
                Err(e) => {
                    return Err(e);
                },
            }
            i = i + 1;
        }
        proof {
            assert forall|j: int| 0 <= j < out@.len() implies decode_of_some_row::<T>(
                (#[trigger] out@[j])@,
            ) by {
                assert(used[j].len() == T::spec_names(ModelNameType::Column).len()
                    && T::spec_decode_row(used[j]) == Some(out@[j]@));
            }
        }
        Ok(out)
    }

    /// Every stored record, in store order; each is the decode of a row of
    /// column texts.
    pub fn select(&mut self) -> (r: Result<Vec<T>, DbError>)
        ensures
            r matches Ok(v) ==> decoded_records::<T>(v@),
    {
        let sql = T::get_sql(DbOpt::Select);
        let params: Vec<String> = Vec::new();
        self.query_decode(sql.as_str(), &params)
    }

    /// The records matching a condition, ordered and paginated as asked;
    /// each is the decode of a row of column texts.
    pub fn find(
        &self,
        condition: &str,
        order: (&str, &str),
        limit: (u32, u32),
        params: &Vec<String>,
    ) -> (r: Result<Vec<T>, DbError>)
        ensures
            r matches Ok(v) ==> decoded_records::<T>(v@),
    {
        let sql = T::get_sql_with_condition(condition, order, limit);
        self.query_decode(sql.as_str(), params)
    }

    /// The first record matching a condition, or `NotFound`.
    pub fn find_first(
        &self,
        condition: &str,
        order: (&str, &str),
        limit: (u32, u32),
        params: &Vec<String>,
    ) -> (r: Result<T, DbError>)
        ensures
            r matches Ok(m) ==> decode_of_some_row::<T>(m@),
    {
        let mut found = match self.find(condition, order, limit, params) {
            Ok(v) => v,
            Err(e) => {
                return Err(e);
            },
        };
        if found.len() >= 1 {
            Ok(found.remove(0))
        } else {
            Err(DbError::NotFound)
        }
    }

    /// The record with the given id, or `NotFound`.
    pub fn find_by_id(&self, id: u32) -> (r: Result<T, DbError>)
        ensures
            r matches Ok(m) ==> decode_of_some_row::<T>(m@),
    {
        let sql = T::get_sql(DbOpt::Select).concat(" WHERE id=?");
        let ids = u64_to_dec(id as u64);
        let mut params: Vec<String> = Vec::new();
        params.push(ids);
        let mut found = match self.query_decode(sql.as_str(), &params) {
            Ok(v) => v,
            Err(e) => {
                return Err(e);
            },
        };
        if found.len() >= 1 {
            Ok(found.remove(0))
        } else {
            Err(DbError::NotFound)
        }
    }
}

} // verus!
