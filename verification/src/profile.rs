//! The own profile and the staff directory: the profile-edit rules (no
//! editing another member's profile, names and email checked), the ordered
//! password-change rules, and the directory query with its search-term
//! interpretation.
use vstd::prelude::*;

use crate::admin_staff::{id_spec, parse_id};
use crate::error::{ApiError, ErrorKind};
use crate::listing::{direction_spec, list_direction, opt_str_view};
use crate::staff::{is_valid_email, join_strings, valid_email, views};
use crate::text::{
    all_digits, all_digits_exec, ascii_lower, chars_of, contains_char, eq_ignore_ascii_case, int_str, int_string,
    is_blank, join, owned, push_str, str_eq, trim, trim_str, utf8_len, utf8_len_capped,
};

verus! {

/// An own-profile edit body. `id`, when present, must be the editor's own;
/// the username is never changed here.
#[derive(Debug, Default)]
pub struct UpdateProfileRequest {
    pub id: Option<i32>,
    pub firstname: Option<String>,
    pub lastname: Option<String>,
    pub email: Option<String>,
    pub phone: Option<String>,
    pub phone_ext: Option<String>,
    pub mobile: Option<String>,
    pub signature: Option<String>,
    pub timezone_id: Option<i32>,
    pub daylight_saving: Option<bool>,
    pub max_page_size: Option<i32>,
    pub auto_refresh_rate: Option<i32>,
    pub default_signature_type: Option<String>,
    pub default_paper_size: Option<String>,
    pub username: Option<String>,
}

/// The field errors of a profile edit, over the fields present.
pub open spec fn profile_errors(b: UpdateProfileRequest) -> Map<Seq<char>, Seq<char>> {
    let m = Map::<Seq<char>, Seq<char>>::empty();
    let m = match b.firstname {
        Some(v) => if trim(v@).len() == 0 {
            m.insert("firstname"@, "First name required"@)
        } else {
            m
        },
        None => m,
    };
    let m = match b.lastname {
        Some(v) => if trim(v@).len() == 0 {
            m.insert("lastname"@, "Last name required"@)
        } else {
            m
        },
        None => m,
    };
    match b.email {
        Some(v) => if trim(v@).len() == 0 || !valid_email(trim(v@)) {
            m.insert("email"@, "Valid email required"@)
        } else {
            m
        },
        None => m,
    }
}

/// Checks an own-profile edit: a foreign `id` is refused (403), then the
/// fields present are checked.
pub fn check_profile_update(b: &UpdateProfileRequest, session_staff_id: i32) -> (r: Result<(), ApiError>)
    ensures
        match r {
            Ok(_) => (b.id.is_none() || b.id == Some(session_staff_id)) && profile_errors(*b).dom().len() == 0,
            Err(e) => if b.id.is_some() && b.id != Some(session_staff_id) {
                e.is(ErrorKind::Forbidden, "Action Denied"@)
            } else {
                e.kind == ErrorKind::Validation && e.message@
                    == "Profile update error. Try correcting the errors below and try again!"@ && e.fields@
                    == profile_errors(*b) && e.fields@.dom().len() > 0
            },
        },
{
    match b.id {
        Some(submitted) => if submitted != session_staff_id {
            return Err(ApiError::forbidden("Action Denied"));
        },
        None => {},
    }
    let mut err = ApiError::validation("Profile update error. Try correcting the errors below and try again!");
    match &b.firstname {
        Some(v) => if is_blank(v.as_str()) {
            err = err.with_field("firstname", "First name required");
        },
        None => {},
    }
    match &b.lastname {
        Some(v) => if is_blank(v.as_str()) {
            err = err.with_field("lastname", "Last name required");
        },
        None => {},
    }
    match &b.email {
        Some(v) => {
            let e = trim_str(v.as_str());
            if is_blank(v.as_str()) || !is_valid_email(e.as_str()) {
                err = err.with_field("email", "Valid email required");
            }
        },
        None => {},
    }
    if !err.fields.is_empty() {
        return Err(err);
    }
    Ok(())
}

/// A password-change body.
#[derive(Debug, Default)]
pub struct ChangePasswordRequest {
    pub current: String,
    pub new: String,
    pub confirm: String,
}

/// The first rule a password change breaks before the current password is
/// checked, as `(field, message)`: a new password is required, at least six
/// bytes, confirmed, and the current one must be given.
pub open spec fn password_precheck_spec(b: ChangePasswordRequest) -> Option<(Seq<char>, Seq<char>)> {
    if b.new@.len() == 0 {
        Some(("new"@, "New password required"@))
    } else if utf8_len(b.new@) < 6 {
        Some(("new"@, "Must be at least 6 characters"@))
    } else if b.new@ != b.confirm@ {
        Some(("confirm"@, "Password(s) do not match"@))
    } else if b.current@.len() == 0 {
        Some(("current"@, "Current password required"@))
    } else {
        None
    }
}

fn single_field_error(field: &str, msg: &str) -> (r: ApiError)
    ensures
        r.kind == ErrorKind::Validation,
        r.message@ == msg@,
        r.fields@ == map![field@ => msg@],
{
    let e = ApiError::validation(msg).with_field(field, msg);
    assert(e.fields@ =~= map![field@ => msg@]);
    e
}

/// The rules of a password change checked before the current password is.
pub fn password_precheck(b: &ChangePasswordRequest) -> (r: Result<(), ApiError>)
    ensures
        match password_precheck_spec(*b) {
            None => r.is_ok(),
            Some((f, m)) => r matches Err(e) && e.kind == ErrorKind::Validation && e.message@ == m && e.fields@
                == map![f => m],
        },
{
    let nv = chars_of(b.new.as_str());
    if nv.len() == 0 {
        return Err(single_field_error("new", "New password required"));
    }
    if utf8_len_capped(&nv, 6) < 6 {
        return Err(single_field_error("new", "Must be at least 6 characters"));
    }
    if !str_eq(b.new.as_str(), b.confirm.as_str()) {
        return Err(single_field_error("confirm", "Password(s) do not match"));
    }
    let cv = chars_of(b.current.as_str());
    if cv.len() == 0 {
        return Err(single_field_error("current", "Current password required"));
    }
    Ok(())
}

/// The rules of a password change checked once the current password is
/// (`current_ok`): it must be right, and the new one must differ from it
/// (ignoring ASCII case).
pub fn password_postcheck(b: &ChangePasswordRequest, current_ok: bool) -> (r: Result<(), ApiError>)
    ensures
        match r {
            Ok(_) => current_ok && ascii_lower(b.new@) != ascii_lower(b.current@),
            Err(e) => e.kind == ErrorKind::Validation && if !current_ok {
                e.message@ == "Invalid current password!"@ && e.fields@ == map![
                    "current"@ => "Invalid current password!"@,
                ]
            } else {
                ascii_lower(b.new@) == ascii_lower(b.current@) && e.message@
                    == "New password MUST be different from the current password!"@ && e.fields@ == map![
                    "new"@ => "New password MUST be different from the current password!"@,
                ]
            },
        },
{
    if !current_ok {
        return Err(single_field_error("current", "Invalid current password!"));
    }
    if eq_ignore_ascii_case(b.new.as_str(), b.current.as_str()) {
        return Err(single_field_error("new", "New password MUST be different from the current password!"));
    }
    Ok(())
}

/// Query of the staff directory.
#[derive(Debug, Default)]
pub struct DirectoryParams {
    pub q: Option<String>,
    pub did: Option<String>,
    pub sort: Option<String>,
    pub order: Option<String>,
    pub page: Option<String>,
}

/// The column(s) a directory sort key orders by (the name by default).
pub open spec fn dir_sort_spec(sort: Option<Seq<char>>) -> Seq<char> {
    let k = match sort {
        Some(s) => s,
        None => "name"@,
    };
    if k == "email"@ {
        "s.email"@
    } else if k == "dept"@ {
        "d.dept_name"@
    } else if k == "phone"@ {
        "s.phone"@
    } else if k == "mobile"@ {
        "s.mobile"@
    } else if k == "ext"@ {
        "s.phone_ext"@
    } else if k == "created"@ {
        "s.created"@
    } else if k == "login"@ {
        "s.lastlogin"@
    } else {
        "s.firstname, s.lastname"@
    }
}

/// The column(s) a directory sort key orders by.
pub fn dir_sort_expr(sort: Option<&str>) -> (r: &'static str)
    ensures
        r@ == dir_sort_spec(
            match sort {
                Some(s) => Some(s@),
                None => None,
            },
        ),
{
    match sort {
        None => {
            proof {
                reveal_strlit("name");
                reveal_strlit("email");
                reveal_strlit("dept");
                reveal_strlit("phone");
                reveal_strlit("mobile");
                reveal_strlit("ext");
                reveal_strlit("created");
                reveal_strlit("login");
                assert("name"@[0] != "email"@[0]);
                assert("name"@[0] != "dept"@[0]);
                assert("name"@[0] != "phone"@[0]);
                assert("name"@[0] != "mobile"@[0]);
                assert("name"@[0] != "ext"@[0]);
                assert("name"@[0] != "created"@[0]);
                assert("name"@[0] != "login"@[0]);
            }
            "s.firstname, s.lastname"
        },
        Some(s) => if str_eq(s, "email") {
            "s.email"
        } else if str_eq(s, "dept") {
            "d.dept_name"
        } else if str_eq(s, "phone") {
            "s.phone"
        } else if str_eq(s, "mobile") {
            "s.mobile"
        } else if str_eq(s, "ext") {
            "s.phone_ext"
        } else if str_eq(s, "created") {
            "s.created"
        } else if str_eq(s, "login") {
            "s.lastlogin"
        } else {
            "s.firstname, s.lastname"
        },
    }
}

/// What a directory search term matches, as `(clause, bound value)`: nothing
/// for a blank term; the phone fields for digits only; the exact address for
/// an email; else a substring of the email or either name.
pub open spec fn dir_q_spec(term: Seq<char>) -> Option<(Seq<char>, Seq<char>)> {
    let t = trim(term);
    if t.len() == 0 {
        None
    } else if all_digits(t) {
        Some(("(s.phone ILIKE $1 OR s.phone_ext ILIKE $1 OR s.mobile ILIKE $1)"@, "%"@ + t + "%"@))
    } else if t.contains('@') && valid_email(t) {
        Some(("lower(s.email) = lower($1)"@, t))
    } else {
        Some(("(s.email ILIKE $1 OR s.lastname ILIKE $1 OR s.firstname ILIKE $1)"@, "%"@ + t + "%"@))
    }
}

fn percent_wrapped(t: &str) -> (r: String)
    ensures
        r@ == "%"@ + t@ + "%"@,
{
    let mut s = owned("%");
    push_str(&mut s, t);
    push_str(&mut s, "%");
    s
}

/// What a directory search term matches.
pub fn directory_q_clause(term: &str) -> (r: Option<(String, String)>)
    ensures
        match r {
            Some((c, b)) => dir_q_spec(term@) == Some((c@, b@)),
            None => dir_q_spec(term@).is_none(),
        },
{
    let t = trim_str(term);
    let tv = chars_of(t.as_str());
    if tv.len() == 0 {
        return None;
    }
    if all_digits_exec(&tv) {
        return Some(
            (owned("(s.phone ILIKE $1 OR s.phone_ext ILIKE $1 OR s.mobile ILIKE $1)"), percent_wrapped(t.as_str())),
        );
    }
    if contains_char(&tv, '@') && is_valid_email(t.as_str()) {
        return Some((owned("lower(s.email) = lower($1)"), t));
    }
    Some((owned("(s.email ILIKE $1 OR s.lastname ILIKE $1 OR s.firstname ILIKE $1)"), percent_wrapped(t.as_str())))
}

/// The AND-ed conditions of the directory query: visible staff, the
/// department filter when it reads as a number, and the search clause.
pub open spec fn directory_conditions(p: DirectoryParams) -> Seq<Seq<char>> {
    let c0 = seq!["s.isvisible = true"@];
    let c1 = match id_spec(opt_str_view(p.did)) {
        Some(d) => c0.push("s.dept_id = "@ + int_str(d as int)),
        None => c0,
    };
    match p.q {
        Some(q) => match dir_q_spec(q@) {
            Some((c, _)) => c1.push(c),
            None => c1,
        },
        None => c1,
    }
}

/// The WHERE clause of the directory query and the value bound to `$1`.
pub fn directory_where(p: &DirectoryParams) -> (r: (String, Option<String>))
    ensures
        r.0@ == join(directory_conditions(*p), " AND "@),
        opt_str_view(r.1) == match p.q {
            Some(q) => match dir_q_spec(q@) {
                Some((_, b)) => Some(b),
                None => None,
            },
            None => None,
        },
{
    let mut conds: Vec<String> = Vec::new();
    conds.push(owned("s.isvisible = true"));
    match parse_id(&p.did) {
        Some(d) => {
            let mut s = owned("s.dept_id = ");
            let n = int_string(d as i128);
            push_str(&mut s, n.as_str());
            conds.push(s);
        },
        None => {},
    }
    let bind = match &p.q {
        Some(q) => match directory_q_clause(q.as_str()) {
            Some((c, b)) => {
                conds.push(c);
                Some(b)
            },
            None => None,
        },
        None => None,
    };
    assert(views(conds@) =~= directory_conditions(*p));
    (join_strings(&conds, " AND "), bind)
}

/// The ORDER BY of the directory query.
pub fn directory_order(p: &DirectoryParams) -> (r: String)
    ensures
        r@ == dir_sort_spec(opt_str_view(p.sort)) + " "@ + direction_spec(opt_str_view(p.order))
            + ", s.staff_id ASC"@,
{
    let col = match &p.sort {
        Some(s) => dir_sort_expr(Some(s.as_str())),
        None => dir_sort_expr(None),
    };
    let mut out = owned(col);
    push_str(&mut out, " ");
    push_str(&mut out, list_direction(&p.order));
    push_str(&mut out, ", s.staff_id ASC");
    out
}

/// The directory's fixed page size.
pub const DIRECTORY_PAGE_SIZE: i64 = 25;

} // verus!
