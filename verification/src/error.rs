//! The error envelope every route answers with: an HTTP status class, a
//! human-readable message, and per-field messages keyed by the submitted field.
use vstd::prelude::*;

use crate::text::{owned, str_eq};

verus! {

/// The status class of an error (its HTTP status code is [`ErrorKind::status`]).
#[derive(Debug, Clone, Copy, PartialEq, Eq)]
pub enum ErrorKind {
    /// 400.
    BadRequest,
    /// 401.
    Unauthenticated,
    /// 403.
    Forbidden,
    /// 404.
    NotFound,
    /// 409.
    Conflict,
    /// 422.
    Validation,
    /// 500.
    Internal,
}

impl ErrorKind {
    pub open spec fn status_spec(self) -> u16 {
        match self {
            ErrorKind::BadRequest => 400,
            ErrorKind::Unauthenticated => 401,
            ErrorKind::Forbidden => 403,
            ErrorKind::NotFound => 404,
            ErrorKind::Conflict => 409,
            ErrorKind::Validation => 422,
            ErrorKind::Internal => 500,
        }
    }

    /// The HTTP status code of this class.
    pub fn status(self) -> (r: u16)
        ensures
            r == self.status_spec(),
    {
        match self {
            ErrorKind::BadRequest => 400,
            ErrorKind::Unauthenticated => 401,
            ErrorKind::Forbidden => 403,
            ErrorKind::NotFound => 404,
            ErrorKind::Conflict => 409,
            ErrorKind::Validation => 422,
            ErrorKind::Internal => 500,
        }
    }
}

/// The map of an entry list: later entries win, as with a map insert.
pub open spec fn entries_map(s: Seq<(String, String)>) -> Map<Seq<char>, Seq<char>>
    decreases s.len(),
{
    if s.len() == 0 {
        Map::empty()
    } else {
        entries_map(s.drop_last()).insert(s.last().0@, s.last().1@)
    }
}

/// A string-to-string map kept as an insertion-ordered list of entries
/// (a later entry for a key replaces an earlier one).
#[derive(Debug)]
pub struct StrMap {
    pub entries: Vec<(String, String)>,
}

impl View for StrMap {
    type V = Map<Seq<char>, Seq<char>>;

    open spec fn view(&self) -> Map<Seq<char>, Seq<char>> {
        entries_map(self.entries@)
    }
}

/// Per-field error messages, keyed by the field name the client submitted.
pub type FieldErrors = StrMap;

pub proof fn lemma_entries_map_empty(s: Seq<(String, String)>)
    ensures
        entries_map(s).dom().len() == 0 <==> s.len() == 0,
        entries_map(s).dom().finite(),
    decreases s.len(),
{
    if s.len() > 0 {
        lemma_entries_map_empty(s.drop_last());
        assert(entries_map(s).dom().contains(s.last().0@));
    }
}

impl StrMap {
    pub fn new() -> (r: StrMap)
        ensures
            r@ == Map::<Seq<char>, Seq<char>>::empty(),
            r.entries@.len() == 0,
    {
        StrMap { entries: Vec::new() }
    }

    /// Sets the value of `key` (replacing an earlier one).
    pub fn insert(&mut self, key: &str, msg: &str)
        ensures
            final(self)@ == old(self)@.insert(key@, msg@),
            final(self).entries@.len() == old(self).entries@.len() + 1,
            final(self).entries@.drop_last() == old(self).entries@,
            final(self).entries@.last().0@ == key@,
            final(self).entries@.last().1@ == msg@,
    {
        let k = owned(key);
        let m = owned(msg);
        let ghost before = self.entries@;
        self.entries.push((k, m));
        assert(self.entries@.drop_last() =~= before);
    }

    /// Whether the map is empty.
    pub fn is_empty(&self) -> (r: bool)
        ensures
            r == (self@.dom().len() == 0),
    {
        proof {
            lemma_entries_map_empty(self.entries@);
        }
        self.entries.len() == 0
    }

    /// Whether `key` has a value.
    pub fn contains_key(&self, key: &str) -> (r: bool)
        ensures
            r == self@.dom().contains(key@),
    {
        match self.get(key) {
            Some(_) => true,
            None => false,
        }
    }

    /// The value of `key`, if any.
    pub fn get(&self, key: &str) -> (r: Option<String>)
        ensures
            r.is_some() == self@.dom().contains(key@),
            r.is_some() ==> r.unwrap()@ == self@[key@],
    {
        let mut i: usize = self.entries.len();
        while i > 0
            invariant
                i <= self.entries.len(),
                forall|j: int| i <= j < self.entries.len() ==> self.entries@[j].0@ != key@,
            decreases i,
        {
            if str_eq(self.entries[i - 1].0.as_str(), key) {
                proof {
                    lemma_entries_map_tail(self.entries@, i as int, key@);
                    assert(self.entries@.take(i as int).drop_last() =~= self.entries@.take(
                        i - 1,
                    ));
                }
                return Some(self.entries[i - 1].1.clone());
            }
            i = i - 1;
        }
        proof {
            lemma_entries_map_tail(self.entries@, 0, key@);
        }
        None
    }
}

/// Entries after position `i` that do not name `k` leave the map's value at `k` alone.
pub proof fn lemma_entries_map_tail(s: Seq<(String, String)>, i: int, k: Seq<char>)
    requires
        0 <= i <= s.len(),
        forall|j: int| i <= j < s.len() ==> s[j].0@ != k,
    ensures
        entries_map(s).dom().contains(k) == entries_map(s.take(i)).dom().contains(k),
        entries_map(s).dom().contains(k) ==> entries_map(s)[k] == entries_map(s.take(i))[k],
    decreases s.len() - i,
{
    if i < s.len() {
        assert(s.drop_last().take(i) =~= s.take(i));
        lemma_entries_map_tail(s.drop_last(), i, k);
        assert(s.last().0@ != k);
    } else {
        assert(s.take(i) =~= s);
    }
}

/// An error answer: status class, message, and field errors.
#[derive(Debug)]
pub struct ApiError {
    pub kind: ErrorKind,
    pub message: String,
    pub fields: FieldErrors,
}

impl ApiError {
    pub open spec fn is(self, kind: ErrorKind, msg: Seq<char>) -> bool {
        self.kind == kind && self.message@ == msg && self.fields@ == Map::<
            Seq<char>,
            Seq<char>,
        >::empty() && self.fields.entries@.len() == 0
    }

    fn make(kind: ErrorKind, msg: &str) -> (r: ApiError)
        ensures
            r.is(kind, msg@),
    {
        ApiError { kind, message: owned(msg), fields: StrMap::new() }
    }

    /// 400 with the given message.
    pub fn bad_request(msg: &str) -> (r: ApiError)
        ensures
            r.is(ErrorKind::BadRequest, msg@),
    {
        Self::make(ErrorKind::BadRequest, msg)
    }

    /// 401 with the given message.
    pub fn unauthenticated(msg: &str) -> (r: ApiError)
        ensures
            r.is(ErrorKind::Unauthenticated, msg@),
    {
        Self::make(ErrorKind::Unauthenticated, msg)
    }

    /// 403 with the given message.
    pub fn forbidden(msg: &str) -> (r: ApiError)
        ensures
            r.is(ErrorKind::Forbidden, msg@),
    {
        Self::make(ErrorKind::Forbidden, msg)
    }

    /// 404 with the given message.
    pub fn not_found(msg: &str) -> (r: ApiError)
        ensures
            r.is(ErrorKind::NotFound, msg@),
    {
        Self::make(ErrorKind::NotFound, msg)
    }

    /// 409 with the given message.
    pub fn conflict(msg: &str) -> (r: ApiError)
        ensures
            r.is(ErrorKind::Conflict, msg@),
    {
        Self::make(ErrorKind::Conflict, msg)
    }

    /// 422 with the given message.
    pub fn validation(msg: &str) -> (r: ApiError)
        ensures
            r.is(ErrorKind::Validation, msg@),
    {
        Self::make(ErrorKind::Validation, msg)
    }

    /// 500 with the given message.
    pub fn internal(msg: &str) -> (r: ApiError)
        ensures
            r.is(ErrorKind::Internal, msg@),
    {
        Self::make(ErrorKind::Internal, msg)
    }

    /// The same error with `field` carrying `msg`.
    pub fn with_field(self, field: &str, msg: &str) -> (r: ApiError)
        ensures
            r.kind == self.kind,
            r.message@ == self.message@,
            r.fields@ == self.fields@.insert(field@, msg@),
    {
        let mut s = self;
        s.fields.insert(field, msg);
        s
    }

    /// The same error with every entry of `fields` added after its own.
    pub fn with_fields(self, fields: StrMap) -> (r: ApiError)
        ensures
            r.kind == self.kind,
            r.message@ == self.message@,
            r.fields.entries@ == self.fields.entries@ + fields.entries@,
    {
        let mut s = self;
        let mut f = fields;
        s.fields.entries.append(&mut f.entries);
        s
    }

    /// The HTTP status code.
    pub fn status(&self) -> (r: u16)
        ensures
            r == self.kind.status_spec(),
    {
        self.kind.status()
    }
}

/// Whether a database failure is a unique violation (SQLSTATE `23505`) on
/// the named constraint.
pub open spec fn unique_violation_on(code: Option<Seq<char>>, constraint: Option<Seq<char>>, name: Seq<char>) -> bool {
    code == Some("23505"@) && constraint == Some(name)
}

fn opt_is_exact(o: &Option<String>, lit: &str) -> (r: bool)
    ensures
        r == (o.is_some() && o.unwrap()@ == lit@),
{
    match o {
        Some(s) => str_eq(s.as_str(), lit),
        None => false,
    }
}

/// The answer to a failed write: a unique violation on `constraint` (the
/// failure's SQLSTATE `code` and constraint name given as text) is a 422 on
/// `field` with `dup_msg`; any other failure is a 500 with `fallback`.
pub fn map_unique_violation(
    code: &Option<String>,
    constraint: &Option<String>,
    name: &str,
    field: &str,
    dup_msg: &str,
    fallback: &str,
) -> (r: ApiError)
    ensures
        if unique_violation_on(
            match code {
                Some(c) => Some(c@),
                None => None,
            },
            match constraint {
                Some(c) => Some(c@),
                None => None,
            },
            name@,
        ) {
            r.kind == ErrorKind::Validation && r.message@ == dup_msg@ && r.fields@ == map![field@ => dup_msg@]
        } else {
            r.is(ErrorKind::Internal, fallback@)
        },
{
    if opt_is_exact(code, "23505") && opt_is_exact(constraint, name) {
        let e = ApiError::validation(dup_msg).with_field(field, dup_msg);
        assert(e.fields@ =~= map![field@ => dup_msg@]);
        e
    } else {
        ApiError::internal(fallback)
    }
}

} // verus!
