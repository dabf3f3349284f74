//! Canned responses: reading the multipart write form (title, department,
//! body, enabled flag, notes and the attachments to keep), the title rule,
//! and the mass actions.
use vstd::prelude::*;

use crate::error::{map_unique_violation, unique_violation_on, ApiError, ErrorKind};
use crate::listing::opt_str_view;
use crate::mass::partial_message;
use crate::text::{
    ascii_lower, chars_of, eq_ignore_ascii_case, is_blank, owned, parse_i32, parse_i32_exec, parse_i64,
    parse_i64_exec, str_eq, string_of, trim, trim_chars, trim_str,
};

verus! {

/// The text fields of a multipart form, by name (a later field with the same
/// name replaces an earlier one).
pub open spec fn form_get(fields: Seq<(String, String)>, name: Seq<char>) -> Option<Seq<char>>
    decreases fields.len(),
{
    if fields.len() == 0 {
        None
    } else if fields.last().0@ == name {
        Some(fields.last().1@)
    } else {
        form_get(fields.drop_last(), name)
    }
}

fn get_field<'a>(fields: &'a Vec<(String, String)>, name: &str) -> (r: Option<&'a String>)
    ensures
        match r {
            Some(v) => form_get(fields@, name@) == Some(v@),
            None => form_get(fields@, name@).is_none(),
        },
{
    let mut i: usize = fields.len();
    assert(fields@.take(fields.len() as int) =~= fields@);
    while i > 0
        invariant
            i <= fields.len(),
            form_get(fields@, name@) == form_get(fields@.take(i as int), name@),
        decreases i,
    {
        assert(fields@.take(i as int).drop_last() =~= fields@.take(i - 1));
        if str_eq(fields[i - 1].0.as_str(), name) {
            return Some(&fields[i - 1].1);
        }
        i = i - 1;
    }
    None
}

/// A text field's value, empty when the form lacks it.
pub open spec fn form_text(fields: Seq<(String, String)>, name: Seq<char>) -> Seq<char> {
    match form_get(fields, name) {
        Some(v) => v,
        None => Seq::empty(),
    }
}

/// A form field read as a switch: the first of `names` the form holds decides
/// (on when it reads `true`, `1`, `yes` or `on`, trimmed, any ASCII case);
/// `default` when it holds none of them.
pub open spec fn field_bool_spec(fields: Seq<(String, String)>, names: Seq<Seq<char>>, default: bool) -> bool
    decreases names.len(),
{
    if names.len() == 0 {
        default
    } else {
        match form_get(fields, names[0]) {
            Some(v) => {
                let t = ascii_lower(trim(v));
                t == "true"@ || t == "1"@ || t == "yes"@ || t == "on"@
            },
            None => field_bool_spec(fields, names.drop_first(), default),
        }
    }
}

/// A form field read as a switch.
pub fn field_bool(fields: &Vec<(String, String)>, names: &[&str], default: bool) -> (r: bool)
    ensures
        r == field_bool_spec(fields@, names@.map_values(|n: &str| n@), default),
{
    let ghost all = names@.map_values(|n: &str| n@);
    let mut i: usize = 0;
    assert(all.skip(0) =~= all);
    while i < names.len()
        invariant
            i <= names.len(),
            all == names@.map_values(|n: &str| n@),
            field_bool_spec(fields@, all, default) == field_bool_spec(fields@, all.skip(i as int), default),
        decreases names.len() - i,
    {
        let n = names[i];
        assert(all.skip(i as int)[0] == n@);
        assert(all.skip(i as int).drop_first() =~= all.skip(i + 1));
        match get_field(fields, n) {
            Some(v) => {
                let t = trim_str(v.as_str());
                let on = eq_ignore_ascii_case(t.as_str(), "true") || eq_ignore_ascii_case(t.as_str(), "1")
                    || eq_ignore_ascii_case(t.as_str(), "yes") || eq_ignore_ascii_case(t.as_str(), "on");
                proof {
                    reveal_strlit("true");
                    reveal_strlit("1");
                    reveal_strlit("yes");
                    reveal_strlit("on");
                    assert(ascii_lower("true"@) =~= "true"@);
                    assert(ascii_lower("1"@) =~= "1"@);
                    assert(ascii_lower("yes"@) =~= "yes"@);
                    assert(ascii_lower("on"@) =~= "on"@);
                }
                return on;
            },
            None => {},
        }
        i = i + 1;
    }
    assert(all.skip(names.len() as int).len() == 0);
    default
}

/// The pieces of `s` between commas (`str::split(',')`).
pub open spec fn split_commas(s: Seq<char>) -> Seq<Seq<char>>
    decreases s.len(),
{
    if s.len() == 0 {
        seq![Seq::empty()]
    } else {
        let prev = split_commas(s.drop_last());
        if s.last() == ',' {
            prev.push(Seq::empty())
        } else {
            prev.update(prev.len() - 1, prev.last().push(s.last()))
        }
    }
}

proof fn lemma_split_nonempty(s: Seq<char>)
    ensures
        split_commas(s).len() >= 1,
    decreases s.len(),
{
    if s.len() > 0 {
        lemma_split_nonempty(s.drop_last());
    }
}

/// The pieces that read as an `i64` once trimmed, in order.
pub open spec fn parsed_ids(pieces: Seq<Seq<char>>) -> Seq<i64>
    decreases pieces.len(),
{
    if pieces.len() == 0 {
        Seq::empty()
    } else {
        let prev = parsed_ids(pieces.drop_last());
        match parse_i64(trim(pieces.last())) {
            Some(v) => prev.push(v),
            None => prev,
        }
    }
}

fn parse_piece(cur: &Vec<char>) -> (r: Option<i64>)
    ensures
        r == parse_i64(trim(cur@)),
{
    let t = trim_chars(cur);
    let s = string_of(&t);
    parse_i64_exec(s.as_str())
}

/// The ids of a comma-separated list: each piece that reads as an `i64` once
/// trimmed, in order (others are skipped).
pub fn parse_id_list(s: &str) -> (r: Vec<i64>)
    ensures
        r@ == parsed_ids(split_commas(s@)),
{
    let v = chars_of(s);
    let mut out: Vec<i64> = Vec::new();
    let mut cur: Vec<char> = Vec::new();
    let ghost mut done: Seq<Seq<char>> = Seq::empty();
    let mut i: usize = 0;
    while i < v.len()
        invariant
            i <= v.len(),
            v@ == s@,
            split_commas(v@.take(i as int)) == done.push(cur@),
            out@ == parsed_ids(done),
        decreases v.len() - i,
    {
        let c = v[i];
        assert(v@.take(i + 1).drop_last() =~= v@.take(i as int));
        if c == ',' {
            let p = parse_piece(&cur);
            proof {
                assert(done.push(cur@).drop_last() =~= done);
            }
            match p {
                Some(x) => out.push(x),
                None => {},
            }
            proof {
                done = done.push(cur@);
            }
            cur = Vec::new();
            assert(split_commas(v@.take(i + 1)) =~= done.push(cur@));
        } else {
            let ghost old_cur = cur@;
            cur.push(c);
            assert(split_commas(v@.take(i + 1)) =~= done.push(cur@));
        }
        i = i + 1;
    }
    assert(v@.take(v.len() as int) =~= v@);
    let p = parse_piece(&cur);
    assert(done.push(cur@).drop_last() =~= done);
    match p {
        Some(x) => out.push(x),
        None => {},
    }
    out
}

/// The attachment ids to keep: the first of `keep_file_ids`,
/// `keep_file_ids[]` and `keepFileIds` the form holds, read as a list.
pub open spec fn keep_ids_spec(fields: Seq<(String, String)>) -> Seq<i64> {
    match form_get(fields, "keep_file_ids"@) {
        Some(v) => parsed_ids(split_commas(v)),
        None => match form_get(fields, "keep_file_ids[]"@) {
            Some(v) => parsed_ids(split_commas(v)),
            None => match form_get(fields, "keepFileIds"@) {
                Some(v) => parsed_ids(split_commas(v)),
                None => Seq::empty(),
            },
        },
    }
}

/// The attachment ids an edit keeps.
pub fn parse_keep_ids(fields: &Vec<(String, String)>) -> (r: Vec<i64>)
    ensures
        r@ == keep_ids_spec(fields@),
{
    match get_field(fields, "keep_file_ids") {
        Some(v) => parse_id_list(v.as_str()),
        None => match get_field(fields, "keep_file_ids[]") {
            Some(v) => parse_id_list(v.as_str()),
            None => match get_field(fields, "keepFileIds") {
                Some(v) => parse_id_list(v.as_str()),
                None => Vec::new(),
            },
        },
    }
}

/// The fields of a canned-response write form (the attachment part aside).
#[derive(Debug)]
pub struct CannedForm {
    pub title: String,
    pub dept_id: i32,
    pub response: String,
    pub isenabled: bool,
    pub notes: Option<String>,
    pub keep_file_ids: Vec<i64>,
}

/// Reads a canned-response write form: the trimmed title, the department (0
/// for all or when not a number), the body, the enabled switch (`isenabled`
/// or `active`, on by default), the notes (left out when blank) and the
/// attachments to keep.
pub fn canned_form(fields: &Vec<(String, String)>) -> (r: CannedForm)
    ensures
        r.title@ == trim(form_text(fields@, "title"@)),
        r.dept_id == match parse_i32(trim(form_text(fields@, "dept_id"@))) {
            Some(d) => d,
            None => 0,
        },
        r.response@ == form_text(fields@, "response"@),
        r.isenabled == field_bool_spec(fields@, seq!["isenabled"@, "active"@], true),
        opt_str_view(r.notes) == (if trim(form_text(fields@, "notes"@)).len() == 0 {
            None::<Seq<char>>
        } else {
            Some(form_text(fields@, "notes"@))
        }),
        r.keep_file_ids@ == keep_ids_spec(fields@),
{
    let title = match get_field(fields, "title") {
        Some(v) => trim_str(v.as_str()),
        None => {
            proof {
                reveal_strlit("");
            }
            trim_str("")
        },
    };
    let dept_id = match get_field(fields, "dept_id") {
        Some(v) => {
            let t = trim_str(v.as_str());
            match parse_i32_exec(t.as_str()) {
                Some(d) => d,
                None => 0,
            }
        },
        None => {
            proof {
                reveal_strlit("");
            }
            let t = trim_str("");
            match parse_i32_exec(t.as_str()) {
                Some(d) => d,
                None => 0,
            }
        },
    };
    let response = match get_field(fields, "response") {
        Some(v) => owned(v.as_str()),
        None => String::new(),
    };
    let notes = match get_field(fields, "notes") {
        Some(v) => if is_blank(v.as_str()) {
            None
        } else {
            Some(owned(v.as_str()))
        },
        None => {
            proof {
                reveal_strlit("");
            }
            assert(trim(Seq::<char>::empty()).len() == 0);
            None
        },
    };
    let names: [&str; 2] = ["isenabled", "active"];
    let isenabled = field_bool(fields, &names, true);
    assert(names@.map_values(|n: &str| n@) =~= seq!["isenabled"@, "active"@]);
    CannedForm { title, dept_id, response, isenabled, notes, keep_file_ids: parse_keep_ids(fields) }
}

/// A canned response needs a title.
pub fn check_canned_title(title: &str) -> (r: Result<(), ApiError>)
    ensures
        r.is_ok() <==> title@.len() > 0,
        r matches Err(e) ==> e.kind == ErrorKind::Validation && e.message@ == "Title required"@ && e.fields@
            == map!["title"@ => "Title required"@],
{
    let v = chars_of(title);
    if v.len() == 0 {
        let e = ApiError::validation("Title required").with_field("title", "Title required");
        assert(e.fields@ =~= map!["title"@ => "Title required"@]);
        Err(e)
    } else {
        Ok(())
    }
}

/// The answer to a failed canned write: a duplicate title is a 422 on
/// `title`, anything else a 500.
pub fn map_canned_write_error(code: &Option<String>, constraint: &Option<String>) -> (r: ApiError)
    ensures
        if unique_violation_on(opt_str_view(*code), opt_str_view(*constraint), "canned_response_title_key"@) {
            r.kind == ErrorKind::Validation && r.message@ == "A canned response with this title already exists"@
                && r.fields@ == map!["title"@ => "A canned response with this title already exists"@]
        } else {
            r.is(ErrorKind::Internal, "Could not save the canned response"@)
        },
{
    map_unique_violation(
        code,
        constraint,
        "canned_response_title_key",
        "title",
        "A canned response with this title already exists",
        "Could not save the canned response",
    )
}

/// A mass action on canned responses.
#[derive(Debug)]
pub struct MassCannedRequest {
    pub action: String,
    pub ids: Vec<i32>,
}

/// The message of a canned mass action that changed `n` of the `requested`
/// responses.
pub open spec fn mass_canned_message_spec(action: Seq<char>, n: int, requested: int) -> Seq<char> {
    if action == "enable"@ {
        "Selected canned responses enabled"@
    } else if action == "disable"@ {
        "Selected canned responses disabled"@
    } else {
        partial_message(
            n,
            requested,
            "Selected canned responses deleted successfully"@,
            "Unable to delete selected canned responses"@,
            "selected canned responses deleted"@,
        )
    }
}

/// The message of a canned mass action.
pub fn mass_canned_message(action: &str, n: i64, requested: i64) -> (r: String)
    ensures
        r@ == mass_canned_message_spec(action@, n as int, requested as int),
{
    if str_eq(action, "enable") {
        owned("Selected canned responses enabled")
    } else if str_eq(action, "disable") {
        owned("Selected canned responses disabled")
    } else {
        crate::mass::outcome_message(
            n,
            requested,
            "Selected canned responses deleted successfully",
            "Unable to delete selected canned responses",
            "selected canned responses deleted",
        )
    }
}

} // verus!
