//! Public ticket creation and thread reading: which request shape a
//! submission uses, and how field errors are answered under the names the
//! client submitted.
use vstd::prelude::*;

use crate::error::{entries_map, ApiError, ErrorKind};
use crate::text::{ascii_lower, chars_of, lower_char_exec, owned, str_eq, trim_start};

verus! {

/// Whether `s` starts with `p`.
pub open spec fn starts_with(s: Seq<char>, p: Seq<char>) -> bool {
    s.len() >= p.len() && s.take(p.len() as int) == p
}

/// Whether a request's `Content-Type` (its text, when present) is
/// `multipart/form-data`: after leading whitespace, ASCII case-insensitive.
pub open spec fn multipart_spec(content_type: Option<Seq<char>>) -> bool {
    match content_type {
        Some(ct) => starts_with(ascii_lower(trim_start(ct)), "multipart/form-data"@),
        None => false,
    }
}

fn trim_start_chars(v: &Vec<char>) -> (r: Vec<char>)
    ensures
        r@ == trim_start(v@),
{
    let mut i: usize = 0;
    assert(v@.skip(0) =~= v@);
    while i < v.len() && crate::text::is_ws_char(v[i])
        invariant
            i <= v.len(),
            trim_start(v@) == trim_start(v@.skip(i as int)),
        decreases v.len() - i,
    {
        assert(v@.skip(i as int).drop_first() =~= v@.skip(i + 1));
        i = i + 1;
    }
    let r = crate::text::skip_chars(v, i);
    r
}

/// Whether a request's `Content-Type` is `multipart/form-data`.
pub fn is_multipart(content_type: Option<&str>) -> (r: bool)
    ensures
        r == multipart_spec(
            match content_type {
                Some(c) => Some(c@),
                None => None,
            },
        ),
{
    match content_type {
        None => false,
        Some(ct) => {
            let v = chars_of(ct);
            let t = trim_start_chars(&v);
            let want = chars_of("multipart/form-data");
            proof {
                reveal_strlit("multipart/form-data");
            }
            if t.len() < want.len() {
                return false;
            }
            let mut i: usize = 0;
            while i < want.len()
                invariant
                    i <= want.len(),
                    want.len() <= t.len(),
                    want@ == "multipart/form-data"@,
                    content_type == Some(ct),
                    t@ == trim_start(ct@),
                    forall|j: int| 0 <= j < i ==> crate::text::lower_char(t@[j]) == want@[j],
                decreases want.len() - i,
            {
                if lower_char_exec(t[i]) != want[i] {
                    assert(ascii_lower(t@).take(want.len() as int)[i as int] != want@[i as int]);
                    return false;
                }
                i = i + 1;
            }
            assert(ascii_lower(t@).take(want.len() as int) =~= want@);
            true
        },
    }
}

/// A public ticket submission (JSON form).
#[derive(Debug, Default)]
pub struct CreateTicketRequest {
    pub name: String,
    pub email: String,
    pub subject: String,
    pub message: String,
}

/// The submitted field name of a core field: the message body is submitted
/// as `message`.
pub open spec fn public_field(f: Seq<char>) -> Seq<char> {
    if f == "body"@ {
        "message"@
    } else {
        f
    }
}

/// The field errors as the client sees them: each core field renamed to its
/// submitted name, in order (a later error on a field replaces an earlier).
pub open spec fn public_errors(errors: Seq<(String, String)>) -> Map<Seq<char>, Seq<char>>
    decreases errors.len(),
{
    if errors.len() == 0 {
        Map::empty()
    } else {
        public_errors(errors.drop_last()).insert(public_field(errors.last().0@), errors.last().1@)
    }
}

/// The 422 answer to a refused submission: the core's `(field, message)`
/// errors under the submitted field names.
pub fn map_field_errors(errors: &Vec<(String, String)>) -> (r: ApiError)
    ensures
        r.kind == ErrorKind::Validation,
        r.message@ == "Please correct the highlighted fields"@,
        r.fields@ == public_errors(errors@),
{
    let mut err = ApiError::validation("Please correct the highlighted fields");
    let mut i: usize = 0;
    while i < errors.len()
        invariant
            i <= errors.len(),
            err.kind == ErrorKind::Validation,
            err.message@ == "Please correct the highlighted fields"@,
            err.fields@ == public_errors(errors@.take(i as int)),
        decreases errors.len() - i,
    {
        assert(errors@.take(i + 1).drop_last() =~= errors@.take(i as int));
        let f = &errors[i].0;
        let m = &errors[i].1;
        if str_eq(f.as_str(), "body") {
            err = err.with_field("message", m.as_str());
        } else {
            err = err.with_field(f.as_str(), m.as_str());
        }
        i = i + 1;
    }
    assert(errors@.take(errors.len() as int) =~= errors@);
    err
}

/// One public thread entry (a message or a response, never a note).
#[derive(Debug)]
pub struct PublicThreadEntry {
    pub id: i64,
    pub thread_type: String,
    pub poster: String,
    pub body: String,
}

/// Whether a thread entry may be shown to the requester: messages (`M`) and
/// responses (`R`) only, never internal notes.
pub fn client_visible(thread_type: &str) -> (r: bool)
    ensures
        r == (thread_type@ == "M"@ || thread_type@ == "R"@),
{
    str_eq(thread_type, "M") || str_eq(thread_type, "R")
}

/// The entries a requester sees: the messages and responses, in order.
pub open spec fn visible_entries(types: Seq<Seq<char>>) -> Seq<int>
    decreases types.len(),
{
    if types.len() == 0 {
        Seq::empty()
    } else {
        let prev = visible_entries(types.drop_last());
        if types.last() == "M"@ || types.last() == "R"@ {
            prev.push(types.len() - 1)
        } else {
            prev
        }
    }
}

/// No internal note ever reaches a requester's thread.
pub proof fn law_notes_never_reach_the_requester(types: Seq<Seq<char>>)
    ensures
        forall|k: int| 0 <= k < visible_entries(types).len() ==> {
            let i = #[trigger] visible_entries(types)[k];
            0 <= i < types.len() && types[i] != "N"@
        },
    decreases types.len(),
{
    reveal_strlit("M");
    reveal_strlit("R");
    reveal_strlit("N");
    if types.len() > 0 {
        law_notes_never_reach_the_requester(types.drop_last());
        let prev = visible_entries(types.drop_last());
        assert forall|k: int| 0 <= k < visible_entries(types).len() implies {
            let i = #[trigger] visible_entries(types)[k];
            0 <= i < types.len() && types[i] != "N"@
        } by {
            if k < prev.len() {
                assert(visible_entries(types)[k] == prev[k]);
                let i = prev[k];
                assert(types[i] == types.drop_last()[i]);
            } else {
                let i = types.len() - 1;
                assert(types[i] == types.last());
                if types.last() == "M"@ {
                    assert(types.last()[0] != "N"@[0]);
                } else {
                    assert(types.last()[0] != "N"@[0]);
                }
            }
        }
    }
}

} // verus!
