//! Staff accounts: the roster query, the field rules of create and edit, and
//! the two protections that keep an install from locking itself out (the
//! last active administrator cannot be demoted or locked, and a mass lock or
//! delete can neither select the acting admin nor leave no active admin).
use vstd::prelude::*;

use crate::error::{ApiError, ErrorKind};
use crate::listing::opt_str_view;
use crate::mass::{parse_mass_request, strictly_increasing};
use crate::staff::{display_name_spec, is_valid_email, join_strings, valid_email, views};
use crate::text::{
    ascii_lower, chars_of, eq_ignore_ascii_case, int_str, int_string, is_blank, is_digit, join, owned,
    parse_i32, parse_i32_exec, push_str, str_eq, trim, trim_str, unicode_lower, utf8_len,
    utf8_len_capped,
};

verus! {

/// Composes a display name, falling back to the username.
pub fn display_name(firstname: &str, lastname: &str, username: &str) -> (r: String)
    ensures
        r@ == display_name_spec(firstname@, lastname@, username@),
{
    crate::staff::display_name(firstname, lastname, username)
}

// ---------------------------------------------------------------------------
// Phone numbers.
// ---------------------------------------------------------------------------

/// The characters a phone number may hold: digits and `( ) - . +` and space.
pub open spec fn phone_char(c: char) -> bool {
    is_digit(c) || c == '(' || c == ')' || c == '-' || c == '.' || c == '+' || c == ' '
}

/// How many ASCII digits a string holds.
pub open spec fn digit_count(s: Seq<char>) -> nat
    decreases s.len(),
{
    if s.len() == 0 {
        0
    } else {
        digit_count(s.drop_last()) + if is_digit(s.last()) {
            1nat
        } else {
            0nat
        }
    }
}

/// An optional phone number: blank, or made of phone characters only with
/// 7 to 16 digits (once trimmed).
pub open spec fn phone_spec(raw: Seq<char>) -> bool {
    let t = trim(raw);
    t.len() == 0 || ((forall|i: int| 0 <= i < t.len() ==> phone_char(#[trigger] t[i])) && 7 <= digit_count(t)
        <= 16)
}

/// Whether an optional phone number is acceptable.
pub fn phone_ok(raw: &str) -> (r: bool)
    ensures
        r == phone_spec(raw@),
{
    let t = trim_str(raw);
    let v = chars_of(t.as_str());
    if v.len() == 0 {
        return true;
    }
    let mut digits: usize = 0;
    let mut i: usize = 0;
    while i < v.len()
        invariant
            i <= v.len(),
            digits == digit_count(v@.take(i as int)),
            digits <= i,
            v@ == trim(raw@),
            forall|j: int| 0 <= j < i ==> phone_char(#[trigger] v@[j]),
        decreases v.len() - i,
    {
        let c = v[i];
        assert(v@.take(i + 1).drop_last() =~= v@.take(i as int));
        if !(('0' <= c && c <= '9') || c == '(' || c == ')' || c == '-' || c == '.' || c == '+' || c == ' ') {
            assert(!phone_char(v@[i as int]));
            return false;
        }
        if '0' <= c && c <= '9' {
            digits = digits + 1;
        }
        i = i + 1;
    }
    assert(v@.take(v.len() as int) =~= v@);
    7 <= digits && digits <= 16
}

// ---------------------------------------------------------------------------
// The roster.
// ---------------------------------------------------------------------------

/// Query of the staff roster. Ids arrive as text, so a non-numeric filter is
/// ignored rather than refused.
#[derive(Debug, Default)]
pub struct StaffListParams {
    pub q: Option<String>,
    pub did: Option<String>,
    pub gid: Option<String>,
    pub tid: Option<String>,
    pub sort: Option<String>,
    pub order: Option<String>,
    pub page: Option<String>,
}

/// A numeric filter: the trimmed text as an `i32`, if it is one.
pub open spec fn id_spec(s: Option<Seq<char>>) -> Option<i32> {
    match s {
        Some(v) => parse_i32(trim(v)),
        None => None,
    }
}

/// A numeric filter value, if it reads as one.
pub fn parse_id(s: &Option<String>) -> (r: Option<i32>)
    ensures
        r == id_spec(opt_str_view(*s)),
{
    match s {
        Some(v) => {
            let t = trim_str(v.as_str());
            parse_i32_exec(t.as_str())
        },
        None => None,
    }
}

/// The column(s) a roster sort key orders by (the name by default).
pub open spec fn staff_sort_spec(sort: Option<Seq<char>>) -> Seq<char> {
    let k = match sort {
        Some(s) => s,
        None => "name"@,
    };
    if k == "username"@ {
        "s.username"@
    } else if k == "status"@ {
        "s.isactive"@
    } else if k == "group"@ {
        "g.group_name"@
    } else if k == "dept"@ {
        "d.dept_name"@
    } else if k == "created"@ {
        "s.created"@
    } else if k == "login"@ {
        "s.lastlogin"@
    } else {
        "s.firstname, s.lastname"@
    }
}

/// The column(s) a roster sort key orders by.
pub fn staff_sort_expr(sort: Option<&str>) -> (r: &'static str)
    ensures
        r@ == staff_sort_spec(
            match sort {
                Some(s) => Some(s@),
                None => None,
            },
        ),
{
    match sort {
        None => {
            proof {
                reveal_strlit("name");
                reveal_strlit("username");
                reveal_strlit("status");
                reveal_strlit("group");
                reveal_strlit("dept");
                reveal_strlit("created");
                reveal_strlit("login");
                assert("name"@[0] != "username"@[0]);
                assert("name"@[0] != "status"@[0]);
                assert("name"@[0] != "group"@[0]);
                assert("name"@[0] != "dept"@[0]);
                assert("name"@[0] != "created"@[0]);
                assert("name"@[0] != "login"@[0]);
            }
            "s.firstname, s.lastname"
        },
        Some(s) => if str_eq(s, "username") {
            "s.username"
        } else if str_eq(s, "status") {
            "s.isactive"
        } else if str_eq(s, "group") {
            "g.group_name"
        } else if str_eq(s, "dept") {
            "d.dept_name"
        } else if str_eq(s, "created") {
            "s.created"
        } else if str_eq(s, "login") {
            "s.lastlogin"
        } else {
            "s.firstname, s.lastname"
        },
    }
}

/// The free-text filter of the roster: the trimmed `q`, when not blank.
pub open spec fn roster_query(q: Option<Seq<char>>) -> Option<Seq<char>> {
    match q {
        Some(s) => if trim(s).len() > 0 {
            Some(trim(s))
        } else {
            None
        },
        None => None,
    }
}

/// The AND-ed conditions of the roster query, in order: always `1 = 1`, then
/// the department, group and team filters that read as numbers, then the
/// free-text match (bound as `$1`).
pub open spec fn roster_conditions(p: StaffListParams) -> Seq<Seq<char>> {
    let c0 = seq!["1 = 1"@];
    let c1 = match id_spec(opt_str_view(p.did)) {
        Some(d) => c0.push("s.dept_id = "@ + int_str(d as int)),
        None => c0,
    };
    let c2 = match id_spec(opt_str_view(p.gid)) {
        Some(g) => c1.push("s.group_id = "@ + int_str(g as int)),
        None => c1,
    };
    let c3 = match id_spec(opt_str_view(p.tid)) {
        Some(t) => c2.push(
            "EXISTS (SELECT 1 FROM team_member tm WHERE tm.staff_id = s.staff_id AND tm.team_id = "@ + int_str(
                t as int,
            ) + ")"@,
        ),
        None => c2,
    };
    if roster_query(opt_str_view(p.q)).is_some() {
        c3.push(
            "(s.firstname ILIKE $1 OR s.lastname ILIKE $1 OR s.username ILIKE $1 OR s.email ILIKE $1)"@,
        )
    } else {
        c3
    }
}

/// Whether `c` begins with `p`.
pub open spec fn begins_with(c: Seq<char>, p: Seq<char>) -> bool {
    p.len() <= c.len() && c.subrange(0, p.len() as int) == p
}

/// A condition that begins with `prefix` is that prefix followed by the
/// decimal of `id`, which must be present.
pub open spec fn only_from(c: Seq<char>, prefix: Seq<char>, id: Option<i32>) -> bool {
    begins_with(c, prefix) ==> id.is_some() && c == prefix + int_str(id.unwrap() as int)
}

proof fn lemma_not_begins(c: Seq<char>, p: Seq<char>, k: int)
    requires
        0 <= k < p.len(),
        k < c.len() ==> c[k] != p[k],
    ensures
        !begins_with(c, p),
{
    if begins_with(c, p) {
        assert(c.subrange(0, p.len() as int)[k] == c[k]);
    }
}

/// Each roster filter names its own column: a department filter that reads
/// as `d` adds the condition `s.dept_id = d`, a group filter that reads as
/// `g` adds `s.group_id = g`, and no other condition is about the
/// department or the group: without a department filter the query never
/// mentions `s.dept_id`, without a group filter never `s.group_id`.
pub proof fn law_roster_filters_name_their_column(p: StaffListParams)
    ensures
        id_spec(opt_str_view(p.gid)) matches Some(g) ==> roster_conditions(p).contains("s.group_id = "@ + int_str(g as int)),
        id_spec(opt_str_view(p.did)) matches Some(d) ==> roster_conditions(p).contains("s.dept_id = "@ + int_str(d as int)),
        forall|i: int|
            0 <= i < roster_conditions(p).len() ==> only_from(
                #[trigger] roster_conditions(p)[i],
                "s.group_id = "@,
                id_spec(opt_str_view(p.gid)),
            ),
        forall|i: int|
            0 <= i < roster_conditions(p).len() ==> only_from(
                #[trigger] roster_conditions(p)[i],
                "s.dept_id = "@,
                id_spec(opt_str_view(p.did)),
            ),
{
    reveal_strlit("1 = 1");
    reveal_strlit("s.dept_id = ");
    reveal_strlit("s.group_id = ");
    reveal_strlit("EXISTS (SELECT 1 FROM team_member tm WHERE tm.staff_id = s.staff_id AND tm.team_id = ");
    reveal_strlit("(s.firstname ILIKE $1 OR s.lastname ILIKE $1 OR s.username ILIKE $1 OR s.email ILIKE $1)");
    let gp = "s.group_id = "@;
    let dp = "s.dept_id = "@;
    let did = id_spec(opt_str_view(p.did));
    let gid = id_spec(opt_str_view(p.gid));
    let tid = id_spec(opt_str_view(p.tid));
    let e0 = "1 = 1"@;
    lemma_not_begins(e0, gp, 10);
    lemma_not_begins(e0, dp, 10);
    if let Some(d) = did {
        let ed = dp + int_str(d as int);
        assert(ed[2] == 'd');
        lemma_not_begins(ed, gp, 2);
        assert(ed.subrange(0, dp.len() as int) =~= dp);
    }
    if let Some(g) = gid {
        let eg = gp + int_str(g as int);
        assert(eg[2] == 'g');
        lemma_not_begins(eg, dp, 2);
        assert(eg.subrange(0, gp.len() as int) =~= gp);
    }
    if let Some(t) = tid {
        let et = "EXISTS (SELECT 1 FROM team_member tm WHERE tm.staff_id = s.staff_id AND tm.team_id = "@ + int_str(
            t as int,
        ) + ")"@;
        assert(et[0] == 'E');
        lemma_not_begins(et, gp, 0);
        lemma_not_begins(et, dp, 0);
    }
    let eq = "(s.firstname ILIKE $1 OR s.lastname ILIKE $1 OR s.username ILIKE $1 OR s.email ILIKE $1)"@;
    lemma_not_begins(eq, gp, 0);
    lemma_not_begins(eq, dp, 0);
    let c0 = seq![e0];
    let c1 = match did {
        Some(d) => c0.push(dp + int_str(d as int)),
        None => c0,
    };
    let c2 = match gid {
        Some(g) => c1.push(gp + int_str(g as int)),
        None => c1,
    };
    assert(forall|i: int| 0 <= i < c2.len() ==> only_from(#[trigger] c2[i], gp, gid) && only_from(c2[i], dp, did));
    let c = roster_conditions(p);
    assert forall|i: int| 0 <= i < c.len() implies only_from(#[trigger] c[i], gp, gid) && only_from(c[i], dp, did) by {
        if i >= c2.len() {
            if tid.is_some() && i == c2.len() {
            } else {
                assert(c[i] == eq);
            }
        } else {
            assert(c[i] == c2[i]);
        }
    }
    if let Some(g) = gid {
        assert(c2[c2.len() - 1] == gp + int_str(g as int));
        assert(c[c2.len() - 1] == gp + int_str(g as int));
    }
    if let Some(d) = did {
        assert(c1[c1.len() - 1] == dp + int_str(d as int));
        assert(c[c1.len() - 1] == dp + int_str(d as int));
    }
}

fn prefixed_id(prefix: &str, id: i32) -> (r: String)
    ensures
        r@ == prefix@ + int_str(id as int),
{
    let mut s = owned(prefix);
    let n = int_string(id as i128);
    push_str(&mut s, n.as_str());
    s
}

/// The WHERE clause of the roster query and the `ILIKE` pattern bound to `$1`
/// (the trimmed `q` between `%` signs), if any.
pub fn staff_list_where(p: &StaffListParams) -> (r: (String, Option<String>))
    ensures
        r.0@ == join(roster_conditions(*p), " AND "@),
        match roster_query(opt_str_view(p.q)) {
            Some(q) => r.1.is_some() && r.1.unwrap()@ == "%"@ + q + "%"@,
            None => r.1.is_none(),
        },
{
    let mut conds: Vec<String> = Vec::new();
    conds.push(owned("1 = 1"));
    match parse_id(&p.did) {
        Some(d) => conds.push(prefixed_id("s.dept_id = ", d)),
        None => {},
    }
    match parse_id(&p.gid) {
        Some(g) => conds.push(prefixed_id("s.group_id = ", g)),
        None => {},
    }
    match parse_id(&p.tid) {
        Some(t) => {
            let mut s = prefixed_id(
                "EXISTS (SELECT 1 FROM team_member tm WHERE tm.staff_id = s.staff_id AND tm.team_id = ",
                t,
            );
            push_str(&mut s, ")");
            conds.push(s);
        },
        None => {},
    }
    let like = match &p.q {
        Some(q) => {
            if is_blank(q.as_str()) {
                None
            } else {
                let t = trim_str(q.as_str());
                let mut l = owned("%");
                push_str(&mut l, t.as_str());
                push_str(&mut l, "%");
                Some(l)
            }
        },
        None => None,
    };
    if like.is_some() {
        conds.push(
            owned(
                "(s.firstname ILIKE $1 OR s.lastname ILIKE $1 OR s.username ILIKE $1 OR s.email ILIKE $1)",
            ),
        );
    }
    assert(views(conds@) =~= roster_conditions(*p));
    let w = join_strings(&conds, " AND ");
    (w, like)
}

/// The ORDER BY of the roster: the sort column(s), the direction, then the id.
pub fn staff_list_order(p: &StaffListParams) -> (r: String)
    ensures
        r@ == staff_sort_spec(opt_str_view(p.sort)) + " "@ + crate::listing::direction_spec(
            opt_str_view(p.order),
        ) + ", s.staff_id ASC"@,
{
    let col = match &p.sort {
        Some(s) => staff_sort_expr(Some(s.as_str())),
        None => staff_sort_expr(None),
    };
    let mut out = owned(col);
    push_str(&mut out, " ");
    push_str(&mut out, crate::listing::list_direction(&p.order));
    push_str(&mut out, ", s.staff_id ASC");
    out
}

// ---------------------------------------------------------------------------
// Create.
// ---------------------------------------------------------------------------

/// A staff create body.
#[derive(Debug, Default)]
pub struct CreateStaffRequest {
    pub username: String,
    pub firstname: String,
    pub lastname: String,
    pub email: String,
    pub phone: String,
    pub phone_ext: String,
    pub mobile: String,
    pub password: String,
    pub passwd2: String,
    pub group_id: Option<i32>,
    pub dept_id: Option<i32>,
    pub timezone_id: Option<i32>,
    pub isadmin: bool,
    pub isactive: bool,
    pub isvisible: bool,
    pub onvacation: bool,
    pub signature: String,
    pub notes: Option<String>,
}

/// The default of `isactive` and `isvisible` when a body leaves them out.
pub fn default_true() -> (r: bool)
    ensures
        r,
{
    true
}

/// The address part of the uniqueness rule: which lookups a create or edit
/// makes. `None` means the lookup is not made.
pub open spec fn email_lookup(e: Seq<char>) -> Option<Seq<char>> {
    if trim(e).len() > 0 && valid_email(trim(e)) {
        Some(trim(e))
    } else {
        None
    }
}

/// The lookups a staff create needs: the trimmed username when not blank
/// (is it taken?) and the trimmed email when of email shape (is it a system
/// address, or another staff member's?).
pub fn create_staff_lookups(b: &CreateStaffRequest) -> (r: (Option<String>, Option<String>))
    ensures
        opt_str_view(r.0) == (if trim(b.username@).len() > 0 {
            Some(trim(b.username@))
        } else {
            None::<Seq<char>>
        }),
        opt_str_view(r.1) == email_lookup(b.email@),
{
    let u = if is_blank(b.username.as_str()) {
        None
    } else {
        Some(trim_str(b.username.as_str()))
    };
    (u, email_to_check(b.email.as_str()))
}

fn email_to_check(e: &str) -> (r: Option<String>)
    ensures
        opt_str_view(r) == email_lookup(e@),
{
    let t = trim_str(e);
    if !is_blank(e) && is_valid_email(t.as_str()) {
        Some(t)
    } else {
        None
    }
}

/// The message of a password that is at least six bytes but unconfirmed.
pub open spec fn password_errors(pw: Seq<char>, confirm: Seq<char>, required: bool, m: Map<Seq<char>, Seq<char>>) -> Map<
    Seq<char>,
    Seq<char>,
> {
    if pw.len() == 0 {
        if required {
            m.insert("password"@, "Temp. password required"@)
        } else {
            m
        }
    } else if utf8_len(pw) < 6 {
        m.insert("password"@, "Must be at least 6 characters"@)
    } else if pw != confirm {
        m.insert("passwd2"@, "Password(s) do not match"@)
    } else {
        m
    }
}

/// The email part of the rules: blank or not of email shape, else a system
/// address, else another staff member's.
pub open spec fn email_errors(
    e: Seq<char>,
    lookup_made: bool,
    in_system: bool,
    other_staff: bool,
    m: Map<Seq<char>, Seq<char>>,
) -> Map<Seq<char>, Seq<char>> {
    if trim(e).len() == 0 || !valid_email(trim(e)) {
        m.insert("email"@, "Valid email required"@)
    } else if !lookup_made {
        m
    } else if in_system {
        m.insert("email"@, "Already in-use system email"@)
    } else if other_staff {
        m.insert("email"@, "Email already in use by another staff member"@)
    } else {
        m
    }
}

/// The field errors of a staff create. `username_taken` says whether another
/// staff member has the trimmed username (compared case-insensitively);
/// `email_in_system` whether the trimmed email is a system email account and
/// `email_other_staff` whether another staff member has it (only consulted
/// when it is not a system address).
pub open spec fn new_staff_errors(
    b: CreateStaffRequest,
    username_taken: bool,
    email_in_system: bool,
    email_other_staff: bool,
) -> Map<Seq<char>, Seq<char>> {
    let m = Map::<Seq<char>, Seq<char>>::empty();
    let m = if trim(b.firstname@).len() == 0 {
        m.insert("firstname"@, "First name required"@)
    } else {
        m
    };
    let m = if trim(b.lastname@).len() == 0 {
        m.insert("lastname"@, "Last name required"@)
    } else {
        m
    };
    let m = if trim(b.username@).len() == 0 {
        m.insert("username"@, "Username required"@)
    } else {
        m
    };
    let m = if trim(b.email@).len() == 0 || !valid_email(trim(b.email@)) {
        m.insert("email"@, "Valid email required"@)
    } else {
        m
    };
    let m = if !phone_spec(b.phone@) {
        m.insert("phone"@, "Valid number required"@)
    } else {
        m
    };
    let m = if !phone_spec(b.mobile@) {
        m.insert("mobile"@, "Valid number required"@)
    } else {
        m
    };
    let m = password_errors(b.password@, b.passwd2@, true, m);
    let m = if b.group_id.is_none() {
        m.insert("groupId"@, "Group required"@)
    } else {
        m
    };
    let m = if b.dept_id.is_none() {
        m.insert("deptId"@, "Department required"@)
    } else {
        m
    };
    let m = if trim(b.username@).len() > 0 && username_taken {
        m.insert("username"@, "Username already in use"@)
    } else {
        m
    };
    if trim(b.email@).len() > 0 && valid_email(trim(b.email@)) {
        email_errors(b.email@, true, email_in_system, email_other_staff, m)
    } else {
        m
    }
}

fn check_password(err: ApiError, pw: &str, confirm: &str, required: bool) -> (r: ApiError)
    ensures
        r.kind == err.kind,
        r.message@ == err.message@,
        r.fields@ == password_errors(pw@, confirm@, required, err.fields@),
{
    let v = chars_of(pw);
    if v.len() == 0 {
        if required {
            err.with_field("password", "Temp. password required")
        } else {
            err
        }
    } else if utf8_len_capped(&v, 6) < 6 {
        err.with_field("password", "Must be at least 6 characters")
    } else if !str_eq(pw, confirm) {
        err.with_field("passwd2", "Password(s) do not match")
    } else {
        err
    }
}

/// Checks a staff create: `Ok` when no field has an error, else the
/// validation error carrying every field's message.
pub fn validate_new_staff(
    b: &CreateStaffRequest,
    username_taken: bool,
    email_in_system: bool,
    email_other_staff: bool,
) -> (r: Result<(), ApiError>)
    ensures
        match r {
            Ok(_) => new_staff_errors(*b, username_taken, email_in_system, email_other_staff).dom().len() == 0,
            Err(e) => e.kind == ErrorKind::Validation && e.message@
                == "Unable to add staff. Correct any error(s) below and try again."@ && e.fields@
                == new_staff_errors(*b, username_taken, email_in_system, email_other_staff) && e.fields@.dom().len()
                > 0,
        },
{
    let mut err = ApiError::validation("Unable to add staff. Correct any error(s) below and try again.");
    if is_blank(b.firstname.as_str()) {
        err = err.with_field("firstname", "First name required");
    }
    if is_blank(b.lastname.as_str()) {
        err = err.with_field("lastname", "Last name required");
    }
    if is_blank(b.username.as_str()) {
        err = err.with_field("username", "Username required");
    }
    let email_ok = email_to_check(b.email.as_str()).is_some();
    if !email_ok {
        err = err.with_field("email", "Valid email required");
    }
    if !phone_ok(b.phone.as_str()) {
        err = err.with_field("phone", "Valid number required");
    }
    if !phone_ok(b.mobile.as_str()) {
        err = err.with_field("mobile", "Valid number required");
    }
    err = check_password(err, b.password.as_str(), b.passwd2.as_str(), true);
    if b.group_id.is_none() {
        err = err.with_field("groupId", "Group required");
    }
    if b.dept_id.is_none() {
        err = err.with_field("deptId", "Department required");
    }
    if !is_blank(b.username.as_str()) && username_taken {
        err = err.with_field("username", "Username already in use");
    }
    if email_ok {
        if email_in_system {
            err = err.with_field("email", "Already in-use system email");
        } else if email_other_staff {
            err = err.with_field("email", "Email already in use by another staff member");
        }
    }
    if err.fields.is_empty() {
        Ok(())
    } else {
        Err(err)
    }
}

// ---------------------------------------------------------------------------
// Edit.
// ---------------------------------------------------------------------------

/// A staff edit body: only the fields present change.
#[derive(Debug, Default)]
pub struct UpdateStaffRequest {
    pub username: Option<String>,
    pub firstname: Option<String>,
    pub lastname: Option<String>,
    pub email: Option<String>,
    pub phone: Option<String>,
    pub phone_ext: Option<String>,
    pub mobile: Option<String>,
    pub password: Option<String>,
    pub passwd2: Option<String>,
    pub group_id: Option<i32>,
    pub dept_id: Option<i32>,
    pub timezone_id: Option<i32>,
    pub isadmin: Option<bool>,
    pub isactive: Option<bool>,
    pub isvisible: Option<bool>,
    pub onvacation: Option<bool>,
    pub signature: Option<String>,
    pub notes: Option<String>,
}

/// The admin and active flags after an edit: the submitted ones, else the
/// current ones.
pub open spec fn new_flags(b: UpdateStaffRequest, cur_isadmin: bool, cur_isactive: bool) -> (bool, bool) {
    (
        match b.isadmin {
            Some(x) => x,
            None => cur_isadmin,
        },
        match b.isactive {
            Some(x) => x,
            None => cur_isactive,
        },
    )
}

/// Whether an edit takes an active administrator out of that role (demotes or
/// locks them): then at least one other active admin must remain.
pub open spec fn demotes_active_admin(b: UpdateStaffRequest, cur_isadmin: bool, cur_isactive: bool) -> bool {
    let (a, act) = new_flags(b, cur_isadmin, cur_isactive);
    cur_isadmin && cur_isactive && !(a && act)
}

/// The admin and active flags an edit leaves, or the refusal when it would
/// demote or lock the only active administrator. `other_active_admins` counts
/// the active admins other than the edited one; it is only consulted when the
/// edit demotes or locks an active admin.
pub fn check_admin_change(
    b: &UpdateStaffRequest,
    cur_isadmin: bool,
    cur_isactive: bool,
    other_active_admins: i64,
) -> (r: Result<(bool, bool), ApiError>)
    ensures
        match r {
            Ok(f) => f == new_flags(*b, cur_isadmin, cur_isactive) && !(demotes_active_admin(
                *b,
                cur_isadmin,
                cur_isactive,
            ) && other_active_admins == 0),
            Err(e) => demotes_active_admin(*b, cur_isadmin, cur_isactive) && other_active_admins == 0
                && e.kind == ErrorKind::Validation && e.message@
                == "Unable to update staff. Correct any error(s) below and try again!"@ && e.fields@ == map![
                "isadmin"@ => "Cowardly refusing to remove or lock out the only active administrator"@,
            ],
        },
{
    let a = match b.isadmin {
        Some(x) => x,
        None => cur_isadmin,
    };
    let act = match b.isactive {
        Some(x) => x,
        None => cur_isactive,
    };
    if cur_isadmin && cur_isactive && !(a && act) && other_active_admins == 0 {
        let e = ApiError::validation("Unable to update staff. Correct any error(s) below and try again!").with_field(
            "isadmin",
            "Cowardly refusing to remove or lock out the only active administrator",
        );
        assert(e.fields@ =~= map![
            "isadmin"@ => "Cowardly refusing to remove or lock out the only active administrator"@,
        ]);
        return Err(e);
    }
    Ok((a, act))
}

/// The lookups a staff edit needs: the submitted username (trimmed, not
/// blank) when it differs from the current one ignoring ASCII case, and the
/// submitted email (trimmed, of email shape) when it differs likewise.
pub open spec fn changed_lookup(v: Option<Seq<char>>, current: Seq<char>, email: bool) -> Option<Seq<char>> {
    match v {
        Some(s) => {
            let t = trim(s);
            if t.len() > 0 && (!email || valid_email(t)) && ascii_lower(t) != ascii_lower(current) {
                Some(t)
            } else {
                None
            }
        },
        None => None,
    }
}

fn changed_value(v: &Option<String>, current: &str, email: bool) -> (r: Option<String>)
    ensures
        opt_str_view(r) == changed_lookup(opt_str_view(*v), current@, email),
{
    match v {
        Some(s) => {
            let t = trim_str(s.as_str());
            if !is_blank(s.as_str()) && (!email || is_valid_email(t.as_str())) && !eq_ignore_ascii_case(
                t.as_str(),
                current,
            ) {
                Some(t)
            } else {
                None
            }
        },
        None => None,
    }
}

/// The lookups a staff edit needs (see [`changed_lookup`]).
pub fn update_staff_lookups(b: &UpdateStaffRequest, cur_username: &str, cur_email: &str) -> (r: (
    Option<String>,
    Option<String>,
))
    ensures
        opt_str_view(r.0) == changed_lookup(opt_str_view(b.username), cur_username@, false),
        opt_str_view(r.1) == changed_lookup(opt_str_view(b.email), cur_email@, true),
{
    (changed_value(&b.username, cur_username, false), changed_value(&b.email, cur_email, true))
}

/// The field errors of a staff edit, over the fields present. The lookups
/// are as in [`new_staff_errors`] and only consulted as
/// [`update_staff_lookups`] says.
pub open spec fn update_staff_errors(
    b: UpdateStaffRequest,
    cur_username: Seq<char>,
    cur_email: Seq<char>,
    username_taken: bool,
    email_in_system: bool,
    email_other_staff: bool,
) -> Map<Seq<char>, Seq<char>> {
    let m = Map::<Seq<char>, Seq<char>>::empty();
    let m = match b.firstname {
        Some(v) => if trim(v@).len() == 0 {
            m.insert("firstname"@, "First name required"@)
        } else {
            m
        },
        None => m,
    };
    let m = match b.lastname {
        Some(v) => if trim(v@).len() == 0 {
            m.insert("lastname"@, "Last name required"@)
        } else {
            m
        },
        None => m,
    };
    let m = match b.username {
        Some(v) => if trim(v@).len() == 0 {
            m.insert("username"@, "Username required"@)
        } else if changed_lookup(Some(v@), cur_username, false).is_some() && username_taken {
            m.insert("username"@, "Username already in use"@)
        } else {
            m
        },
        None => m,
    };
    let m = match b.email {
        Some(v) => email_errors(
            v@,
            changed_lookup(Some(v@), cur_email, true).is_some(),
            email_in_system,
            email_other_staff,
            m,
        ),
        None => m,
    };
    let m = match b.phone {
        Some(v) => if !phone_spec(v@) {
            m.insert("phone"@, "Valid number required"@)
        } else {
            m
        },
        None => m,
    };
    let m = match b.mobile {
        Some(v) => if !phone_spec(v@) {
            m.insert("mobile"@, "Valid number required"@)
        } else {
            m
        },
        None => m,
    };
    match b.password {
        Some(pw) => password_errors(
            pw@,
            match b.passwd2 {
                Some(c) => c@,
                None => Seq::empty(),
            },
            false,
            m,
        ),
        None => m,
    }
}

/// Whether an edit resets the password: one was submitted, not empty, at
/// least six bytes, and confirmed.
pub open spec fn resets_password(b: UpdateStaffRequest) -> bool {
    match b.password {
        Some(pw) => pw@.len() > 0 && utf8_len(pw@) >= 6 && pw@ == match b.passwd2 {
            Some(c) => c@,
            None => Seq::empty(),
        },
        None => false,
    }
}

/// Checks a staff edit's fields: the validation error (with no field when all
/// pass) and whether the password is reset.
pub fn validate_staff_update(
    b: &UpdateStaffRequest,
    cur_username: &str,
    cur_email: &str,
    username_taken: bool,
    email_in_system: bool,
    email_other_staff: bool,
) -> (r: (ApiError, bool))
    ensures
        r.0.kind == ErrorKind::Validation,
        r.0.message@ == "Unable to update staff. Correct any error(s) below and try again!"@,
        r.0.fields@ == update_staff_errors(
            *b,
            cur_username@,
            cur_email@,
            username_taken,
            email_in_system,
            email_other_staff,
        ),
        r.1 == resets_password(*b),
{
    let mut err = ApiError::validation("Unable to update staff. Correct any error(s) below and try again!");
    match &b.firstname {
        Some(v) => if is_blank(v.as_str()) {
            err = err.with_field("firstname", "First name required");
        },
        None => {},
    }
    match &b.lastname {
        Some(v) => if is_blank(v.as_str()) {
            err = err.with_field("lastname", "Last name required");
        },
        None => {},
    }
    match &b.username {
        Some(v) => {
            if is_blank(v.as_str()) {
                err = err.with_field("username", "Username required");
            } else if changed_value(&b.username, cur_username, false).is_some() && username_taken {
                err = err.with_field("username", "Username already in use");
            }
        },
        None => {},
    }
    match &b.email {
        Some(v) => {
            let lookup_made = changed_value(&b.email, cur_email, true).is_some();
            if email_to_check(v.as_str()).is_none() {
                err = err.with_field("email", "Valid email required");
            } else if !lookup_made {
            } else if email_in_system {
                err = err.with_field("email", "Already in-use system email");
            } else if email_other_staff {
                err = err.with_field("email", "Email already in use by another staff member");
            }
        },
        None => {},
    }
    match &b.phone {
        Some(v) => if !phone_ok(v.as_str()) {
            err = err.with_field("phone", "Valid number required");
        },
        None => {},
    }
    match &b.mobile {
        Some(v) => if !phone_ok(v.as_str()) {
            err = err.with_field("mobile", "Valid number required");
        },
        None => {},
    }
    let mut reset = false;
    match &b.password {
        Some(pw) => {
            let confirm = match &b.passwd2 {
                Some(c) => c.as_str(),
                None => "",
            };
            proof {
                reveal_strlit("");
            }
            err = check_password(err, pw.as_str(), confirm, false);
            let v = chars_of(pw.as_str());
            reset = v.len() > 0 && utf8_len_capped(&v, 6) >= 6 && str_eq(pw.as_str(), confirm);
        },
        None => {},
    }
    (err, reset)
}

// ---------------------------------------------------------------------------
// Mass enable / lock / delete.
// ---------------------------------------------------------------------------

/// A mass action on staff.
#[derive(Debug)]
pub struct MassStaffRequest {
    pub action: String,
    pub ids: Vec<i32>,
}

/// Whether a staff mass action is destructive (locks or deletes).
pub open spec fn destructive(action: Seq<char>) -> bool {
    action == "lock"@ || action == "delete"@
}

/// Checks a staff mass action: the normalised action and the selection
/// (ascending, no repeats), or the refusal. On top of the shared checks, a
/// lock or delete may not select the acting admin.
pub fn plan_mass_staff(action: &str, ids: &Vec<i32>, acting: i32) -> (r: Result<(String, Vec<i32>), ApiError>)
    ensures
        match r {
            Ok((a, v)) => crate::mass::mass_request_ok(action@, "enable"@, "lock"@, "delete"@, ids@)
                && a@ == unicode_lower(trim(action@)) && strictly_increasing(v@) && (forall|x: i32|
                v@.contains(x) <==> ids@.contains(x)) && !(destructive(a@) && ids@.contains(acting)),
            Err(e) => if !({
                let a = unicode_lower(trim(action@));
                a == "enable"@ || a == "lock"@ || a == "delete"@
            }) {
                e.is(ErrorKind::Validation, "Unknown mass action"@)
            } else if ids@.len() == 0 {
                e.is(ErrorKind::Validation, "You must select at least one staff member."@)
            } else {
                destructive(unicode_lower(trim(action@))) && ids@.contains(acting) && e.is(
                    ErrorKind::Validation,
                    "You can not disable/delete yourself - you could be the only admin!"@,
                )
            },
        },
{
    let (a, v) = match parse_mass_request(
        action,
        "enable",
        "lock",
        "delete",
        ids,
        "You must select at least one staff member.",
    ) {
        Ok(x) => x,
        Err(e) => {
            return Err(e);
        },
    };
    if str_eq(a.as_str(), "lock") || str_eq(a.as_str(), "delete") {
        let mut i: usize = 0;
        while i < v.len()
            invariant
                i <= v.len(),
                a@ == "lock"@ || a@ == "delete"@,
                a@ == unicode_lower(trim(action@)),
                forall|x: i32| v@.contains(x) <==> ids@.contains(x),
                forall|j: int| 0 <= j < i ==> v@[j] != acting,
            decreases v.len() - i,
        {
            if v[i] == acting {
                assert(v@.contains(acting));
                return Err(
                    ApiError::validation("You can not disable/delete yourself - you could be the only admin!"),
                );
            }
            i = i + 1;
        }
        assert(!v@.contains(acting));
    }
    Ok((a, v))
}

/// A lock or delete must leave at least one active admin: `remaining` counts
/// the active admins outside the selection.
pub fn guard_remaining_admins(remaining: i64) -> (r: Result<(), ApiError>)
    ensures
        r.is_ok() <==> remaining != 0,
        r matches Err(e) ==> e.is(
            ErrorKind::Validation,
            "Cowardly refusing to remove or lock out the only active administrator"@,
        ),
{
    if remaining == 0 {
        Err(ApiError::validation("Cowardly refusing to remove or lock out the only active administrator"))
    } else {
        Ok(())
    }
}

/// The message of a staff mass action.
pub open spec fn mass_staff_message_spec(action: Seq<char>) -> Seq<char> {
    if action == "enable"@ {
        "Selected staff activated"@
    } else if action == "lock"@ {
        "Selected staff disabled"@
    } else {
        "Selected staff deleted successfully"@
    }
}

/// The message of a staff mass action.
pub fn mass_staff_message(action: &str) -> (r: &'static str)
    ensures
        r@ == mass_staff_message_spec(action@),
{
    if str_eq(action, "enable") {
        "Selected staff activated"
    } else if str_eq(action, "lock") {
        "Selected staff disabled"
    } else {
        "Selected staff deleted successfully"
    }
}

/// The staff a delete removes: the selection without the acting admin.
pub fn delete_targets(ids: &Vec<i32>, acting: i32) -> (r: Vec<i32>)
    ensures
        r@ == ids@.filter(|x: i32| x != acting),
{
    let mut out: Vec<i32> = Vec::new();
    let mut i: usize = 0;
    while i < ids.len()
        invariant
            i <= ids.len(),
            out@ == ids@.take(i as int).filter(|x: i32| x != acting),
        decreases ids.len() - i,
    {
        proof {
            assert(ids@.take(i + 1).drop_last() =~= ids@.take(i as int));
            reveal(Seq::filter);
        }
        if ids[i] != acting {
            out.push(ids[i]);
        }
        i = i + 1;
    }
    assert(ids@.take(ids.len() as int) =~= ids@);
    out
}

/// A staff mass delete never removes the acting admin, and removes every
/// other selected staff member.
pub proof fn law_delete_spares_the_acting_admin(ids: Seq<i32>, acting: i32)
    ensures
        !ids.filter(|x: i32| x != acting).contains(acting),
        forall|x: i32| ids.contains(x) && x != acting ==> ids.filter(|y: i32| y != acting).contains(x),
{
    let pred = |x: i32| x != acting;
    let f = ids.filter(pred);
    if f.contains(acting) {
        let k = choose|k: int| 0 <= k < f.len() && f[k] == acting;
        ids.lemma_filter_pred(pred, k);
    }
    assert forall|x: i32| ids.contains(x) && x != acting implies ids.filter(pred).contains(x) by {
        let k = choose|k: int| 0 <= k < ids.len() && ids[k] == x;
        ids.lemma_filter_contains(pred, k);
    }
}

/// The help desk never loses its last active administrator through an edit:
/// when an active administrator exists before (the edited account or one of
/// the `other_active_admins`) and the edit is accepted, one exists after.
pub proof fn law_an_active_admin_remains(
    b: UpdateStaffRequest,
    cur_isadmin: bool,
    cur_isactive: bool,
    other_active_admins: int,
)
    requires
        other_active_admins >= 0,
        other_active_admins + (if cur_isadmin && cur_isactive { 1int } else { 0 }) >= 1,
        !(demotes_active_admin(b, cur_isadmin, cur_isactive) && other_active_admins == 0),
    ensures
        other_active_admins + (if new_flags(b, cur_isadmin, cur_isactive).0 && new_flags(b, cur_isadmin, cur_isactive).1 {
            1int
        } else {
            0
        }) >= 1,
{
}

/// A team membership added from the staff profile.
#[derive(Debug)]
pub struct AddTeamRequest {
    pub team_id: i32,
}

} // verus!
