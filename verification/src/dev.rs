//! The developer endpoints' rules: they exist only outside production, and
//! the seed requests are completed with their defaults and checked before
//! anything is written.
use vstd::prelude::*;

use crate::config::AppEnv;
use crate::error::{ApiError, ErrorKind};
use crate::settings::SettingValue;
use crate::staff::{join_strings, views};
use crate::text::{int_str, int_string, join, owned, parse_i64, parse_i64_exec, push_str, str_eq, trim};

verus! {

/// The developer endpoints answer 404 in production, as if they did not
/// exist.
pub fn dev_gate(env: AppEnv) -> (r: Result<(), ApiError>)
    ensures
        r.is_ok() <==> env == AppEnv::Development,
        r matches Err(e) ==> e.is(ErrorKind::NotFound, "Not found"@),
{
    match env {
        AppEnv::Development => Ok(()),
        AppEnv::Production => Err(ApiError::not_found("Not found")),
    }
}

/// Shaping of a seeded ticket.
#[derive(Debug, Default)]
pub struct SeedTicketRequest {
    pub with_reply: bool,
    pub with_note: bool,
}

/// One ticket of a bulk seed.
#[derive(Debug, Default)]
pub struct SeedTicketSpec {
    pub status: String,
    pub isanswered: bool,
    pub isoverdue: bool,
    pub staff_id: Option<i32>,
    pub dept_id: Option<i32>,
    pub team_id: Option<i32>,
    pub duedate: Option<String>,
    pub closed_by_staff_id: Option<i32>,
}

/// The default status of a seeded ticket.
pub fn default_status() -> (r: String)
    ensures
        r@ == "open"@,
{
    owned("open")
}

/// The status a seeded ticket gets: `closed` when asked for, else `open`.
pub fn seed_status(s: &str) -> (r: &'static str)
    ensures
        r@ == (if s@ == "closed"@ {
            "closed"@
        } else {
            "open"@
        }),
{
    if str_eq(s, "closed") {
        "closed"
    } else {
        "open"
    }
}

/// A bulk ticket seed.
#[derive(Debug)]
pub struct SeedTicketsRequest {
    pub tickets: Vec<SeedTicketSpec>,
}

/// The ids of the seeded tickets.
#[derive(Debug)]
pub struct SeedTicketsResponse {
    pub ticket_ids: Vec<i64>,
}

/// A seeded staff account.
#[derive(Debug)]
pub struct SeedStaffRequest {
    pub username: String,
    pub password: String,
    pub show_assigned_only: bool,
    pub dept_ids: Vec<i32>,
    pub team_ids: Vec<i32>,
    pub group_id: Option<i32>,
    pub dept_id: Option<i32>,
    pub isvisible: bool,
    pub isadmin: bool,
    pub onvacation: bool,
    pub firstname: Option<String>,
    pub lastname: Option<String>,
}

/// The default of the seed requests' visible and force-change switches.
pub fn default_true() -> (r: bool)
    ensures
        r,
{
    true
}

/// The seeded staff account and its group.
#[derive(Debug)]
pub struct SeedStaffResponse {
    pub staff_id: i32,
    pub group_id: i32,
}

/// The permission flags a test sets on a group (absent ones are left alone).
#[derive(Debug)]
pub struct SetGroupPermRequest {
    pub group_id: i32,
    pub can_close_tickets: Option<bool>,
    pub can_assign_tickets: Option<bool>,
    pub can_transfer_tickets: Option<bool>,
    pub can_create_tickets: Option<bool>,
    pub can_delete_tickets: Option<bool>,
    pub can_edit_tickets: Option<bool>,
    pub can_manage_tickets: Option<bool>,
    pub can_manage_premade: Option<bool>,
    pub can_manage_faq: Option<bool>,
}

/// The SET clauses of a group-permission update: one per flag present, each
/// bound to its own parameter (`$2` to `$10` in flag order).
pub open spec fn perm_clauses(b: SetGroupPermRequest) -> Seq<Seq<char>> {
    let c = Seq::<Seq<char>>::empty();
    let c = if b.can_close_tickets.is_some() { c.push("can_close_tickets = $2"@) } else { c };
    let c = if b.can_assign_tickets.is_some() { c.push("can_assign_tickets = $3"@) } else { c };
    let c = if b.can_transfer_tickets.is_some() { c.push("can_transfer_tickets = $4"@) } else { c };
    let c = if b.can_create_tickets.is_some() { c.push("can_create_tickets = $5"@) } else { c };
    let c = if b.can_delete_tickets.is_some() { c.push("can_delete_tickets = $6"@) } else { c };
    let c = if b.can_edit_tickets.is_some() { c.push("can_edit_tickets = $7"@) } else { c };
    let c = if b.can_manage_tickets.is_some() { c.push("can_manage_tickets = $8"@) } else { c };
    let c = if b.can_manage_premade.is_some() { c.push("can_manage_premade = $9"@) } else { c };
    if b.can_manage_faq.is_some() { c.push("can_manage_faq = $10"@) } else { c }
}

/// The group-permission update statement, or the refusal when no flag is
/// given.
pub fn group_perm_update(b: &SetGroupPermRequest) -> (r: Result<String, ApiError>)
    ensures
        match r {
            Ok(sql) => perm_clauses(*b).len() > 0 && sql@ == "UPDATE groups SET "@ + join(perm_clauses(*b), ", "@)
                + " WHERE group_id = $1"@,
            Err(e) => perm_clauses(*b).len() == 0 && e.is(ErrorKind::Validation, "No permission flags provided"@),
        },
{
    let mut c: Vec<String> = Vec::new();
    if b.can_close_tickets.is_some() {
        c.push(owned("can_close_tickets = $2"));
    }
    if b.can_assign_tickets.is_some() {
        c.push(owned("can_assign_tickets = $3"));
    }
    if b.can_transfer_tickets.is_some() {
        c.push(owned("can_transfer_tickets = $4"));
    }
    if b.can_create_tickets.is_some() {
        c.push(owned("can_create_tickets = $5"));
    }
    if b.can_delete_tickets.is_some() {
        c.push(owned("can_delete_tickets = $6"));
    }
    if b.can_edit_tickets.is_some() {
        c.push(owned("can_edit_tickets = $7"));
    }
    if b.can_manage_tickets.is_some() {
        c.push(owned("can_manage_tickets = $8"));
    }
    if b.can_manage_premade.is_some() {
        c.push(owned("can_manage_premade = $9"));
    }
    if b.can_manage_faq.is_some() {
        c.push(owned("can_manage_faq = $10"));
    }
    assert(views(c@) =~= perm_clauses(*b));
    if c.len() == 0 {
        return Err(ApiError::validation("No permission flags provided"));
    }
    let mut sql = owned("UPDATE groups SET ");
    let j = join_strings(&c, ", ");
    push_str(&mut sql, j.as_str());
    push_str(&mut sql, " WHERE group_id = $1");
    Ok(sql)
}

/// A seeded department.
#[derive(Debug)]
pub struct SeedDeptRequest {
    pub name: String,
    pub sla_id: Option<i32>,
}

/// The seeded department.
#[derive(Debug)]
pub struct SeedDeptResponse {
    pub dept_id: i32,
}

/// A department's SLA plan set by a test.
#[derive(Debug)]
pub struct SetDeptSlaRequest {
    pub dept_id: i32,
    pub sla_id: Option<i32>,
}

/// A seeded SLA plan.
#[derive(Debug)]
pub struct SeedSlaRequest {
    pub name: String,
    pub hours: i32,
}

/// The default grace period of a seeded SLA plan, in hours.
pub fn default_grace_hours() -> (r: i32)
    ensures
        r == 24,
{
    24
}

/// The seeded SLA plan.
#[derive(Debug)]
pub struct SeedSlaResponse {
    pub sla_id: i32,
}

/// A ticket seeded for the search tests.
#[derive(Debug, Default)]
pub struct SeedSearchTicketRequest {
    pub ticket_id: Option<String>,
    pub email: Option<String>,
    pub subject: Option<String>,
    pub body: Option<String>,
    pub dept: Option<String>,
    pub topic: Option<String>,
    pub created: Option<String>,
    pub status: Option<String>,
    pub staff_id: Option<i32>,
    pub team_id: Option<i32>,
}

/// The seeded search ticket.
#[derive(Debug)]
pub struct SeedSearchTicketResponse {
    pub ticket_id: i64,
    pub ticket_number: i64,
    pub email: String,
}

/// `s` with every `'` doubled (a SQL string literal's body).
pub open spec fn sql_quote_body(s: Seq<char>) -> Seq<char>
    decreases s.len(),
{
    if s.len() == 0 {
        Seq::empty()
    } else {
        sql_quote_body(s.drop_last()) + if s.last() == '\'' {
            seq!['\'', '\'']
        } else {
            seq![s.last()]
        }
    }
}

fn quote_body(s: &str) -> (r: String)
    ensures
        r@ == sql_quote_body(s@),
{
    let v = crate::text::chars_of(s);
    let mut out = String::new();
    let mut i: usize = 0;
    while i < v.len()
        invariant
            i <= v.len(),
            v@ == s@,
            out@ == sql_quote_body(v@.take(i as int)),
        decreases v.len() - i,
    {
        assert(v@.take(i + 1).drop_last() =~= v@.take(i as int));
        let c = v[i];
        if c == '\'' {
            crate::text::push_char(&mut out, '\'');
            crate::text::push_char(&mut out, '\'');
        } else {
            crate::text::push_char(&mut out, c);
        }
        i = i + 1;
    }
    assert(v@.take(v.len() as int) =~= v@);
    out
}

/// The SET assignments that shape a seeded search ticket, in order: the
/// ticket number when it reads as an `i64`, the creation time when given
/// (quoted), the status (`open` by default), then the topic, staff member
/// and team when known.
pub open spec fn search_updates(b: SeedSearchTicketRequest, topic_id: Option<i32>) -> Seq<Seq<char>> {
    let u = Seq::<Seq<char>>::empty();
    let u = match b.ticket_id {
        Some(t) => match parse_i64(t@) {
            Some(n) => u.push("\"ticketID\" = "@ + int_str(n as int)),
            None => u,
        },
        None => u,
    };
    let u = match b.created {
        Some(c) => if c@.len() > 0 {
            u.push("created = '"@ + sql_quote_body(c@) + "'::timestamptz"@)
        } else {
            u
        },
        None => u,
    };
    let u = u.push(
        "status = '"@ + match b.status {
            Some(s) => s@,
            None => "open"@,
        } + "'"@,
    );
    let u = match topic_id {
        Some(t) => u.push("topic_id = "@ + int_str(t as int)),
        None => u,
    };
    let u = match b.staff_id {
        Some(s) => u.push("staff_id = "@ + int_str(s as int)),
        None => u,
    };
    match b.team_id {
        Some(t) => u.push("team_id = "@ + int_str(t as int)),
        None => u,
    }
}

fn numbered(prefix: &str, n: i128) -> (r: String)
    requires
        n > i128::MIN,
    ensures
        r@ == prefix@ + int_str(n as int),
{
    let mut s = owned(prefix);
    let t = int_string(n);
    push_str(&mut s, t.as_str());
    s
}

/// The update statement that shapes a seeded search ticket.
pub fn seed_search_update(b: &SeedSearchTicketRequest, topic_id: Option<i32>) -> (r: String)
    ensures
        r@ == "UPDATE ticket SET "@ + join(search_updates(*b, topic_id), ", "@) + " WHERE ticket_id = $1"@,
{
    let mut u: Vec<String> = Vec::new();
    match &b.ticket_id {
        Some(t) => match parse_i64_exec(t.as_str()) {
            Some(n) => u.push(numbered("\"ticketID\" = ", n as i128)),
            None => {},
        },
        None => {},
    }
    match &b.created {
        Some(c) => {
            if crate::text::chars_of(c.as_str()).len() > 0 {
                let mut s = owned("created = '");
                let q = quote_body(c.as_str());
                push_str(&mut s, q.as_str());
                push_str(&mut s, "'::timestamptz");
                u.push(s);
            }
        },
        None => {},
    }
    let mut st = owned("status = '");
    match &b.status {
        Some(s) => push_str(&mut st, s.as_str()),
        None => push_str(&mut st, "open"),
    }
    push_str(&mut st, "'");
    u.push(st);
    match topic_id {
        Some(t) => u.push(numbered("topic_id = ", t as i128)),
        None => {},
    }
    match b.staff_id {
        Some(s) => u.push(numbered("staff_id = ", s as i128)),
        None => {},
    }
    match b.team_id {
        Some(t) => u.push(numbered("team_id = ", t as i128)),
        None => {},
    }
    assert(views(u@) =~= search_updates(*b, topic_id));
    let mut sql = owned("UPDATE ticket SET ");
    let j = join_strings(&u, ", ");
    push_str(&mut sql, j.as_str());
    push_str(&mut sql, " WHERE ticket_id = $1");
    sql
}

/// A seeded help topic.
#[derive(Debug)]
pub struct SeedTopicRequest {
    pub name: String,
}

/// The seeded help topic.
#[derive(Debug)]
pub struct SeedTopicResponse {
    pub topic_id: i32,
}

/// The stored text of a seeded config value: text as is, numbers by their
/// JSON text, `true`/`false` as `1`/`0`, anything else by its JSON text
/// (`null` included).
pub open spec fn config_text_spec(v: SettingValue) -> Seq<char> {
    match v {
        SettingValue::Null => "null"@,
        SettingValue::Bool(b) => if b {
            "1"@
        } else {
            "0"@
        },
        SettingValue::Number(t, _) => t@,
        SettingValue::Text(s) => s@,
        SettingValue::Other(t) => t@,
    }
}

/// The stored text of a seeded config value.
pub fn config_value_text(v: &SettingValue) -> (r: String)
    ensures
        r@ == config_text_spec(*v),
{
    match v {
        SettingValue::Null => owned("null"),
        SettingValue::Bool(b) => if *b {
            owned("1")
        } else {
            owned("0")
        },
        SettingValue::Number(t, _) => owned(t.as_str()),
        SettingValue::Text(s) => owned(s.as_str()),
        SettingValue::Other(t) => owned(t.as_str()),
    }
}

/// A seeded system-log row.
#[derive(Debug)]
pub struct SeedLogRequest {
    pub log_type: String,
    pub title: String,
    pub log: String,
    pub created: Option<String>,
}

/// The default type of a seeded log row.
pub fn default_log_type() -> (r: String)
    ensures
        r@ == "Error"@,
{
    owned("Error")
}

/// A seeded log row's type must be `Error`, `Warning` or `Debug`.
pub fn check_log_type(t: &str) -> (r: Result<(), ApiError>)
    ensures
        r.is_ok() <==> (t@ == "Error"@ || t@ == "Warning"@ || t@ == "Debug"@),
        r matches Err(e) ==> e.is(ErrorKind::Validation, "type must be one of Error|Warning|Debug"@),
{
    if str_eq(t, "Error") || str_eq(t, "Warning") || str_eq(t, "Debug") {
        Ok(())
    } else {
        Err(ApiError::validation("type must be one of Error|Warning|Debug"))
    }
}

/// A staff password aged by a test.
#[derive(Debug)]
pub struct AgePasswordRequest {
    pub staff_id: i32,
    pub days: i32,
    pub force_change: bool,
}

/// The interval a password is backdated by: the days (none when negative).
pub fn age_interval(days: i32) -> (r: String)
    ensures
        r@ == int_str(if days < 0 { 0 } else { days as int }) + " days"@,
{
    let d: i32 = if days < 0 {
        0
    } else {
        days
    };
    let mut s = int_string(d as i128);
    push_str(&mut s, " days");
    s
}

/// A bulk staff seed.
#[derive(Debug)]
pub struct SeedStaffBulkRequest {
    pub count: i32,
    pub prefix: Option<String>,
    pub group_id: Option<i32>,
    pub dept_id: Option<i32>,
    pub isvisible: bool,
}

/// How many accounts a bulk seed creates: the count, between 0 and 500.
pub fn bulk_count(count: i32) -> (r: i32)
    ensures
        r == (if count < 0 {
            0
        } else if count > 500 {
            500
        } else {
            count as int
        }),
{
    if count < 0 {
        0
    } else if count > 500 {
        500
    } else {
        count
    }
}

/// The username prefix of a bulk seed (`bulkstaff` by default).
pub fn bulk_prefix(prefix: &Option<String>) -> (r: String)
    ensures
        r@ == match *prefix {
            Some(p) => p@,
            None => "bulkstaff"@,
        },
{
    match prefix {
        Some(p) => owned(p.as_str()),
        None => owned("bulkstaff"),
    }
}

/// The `n`th account of a bulk seed: username `<prefix><nonce>_<n>` and first
/// name `Bulk<n>`.
pub fn bulk_account(prefix: &str, nonce: u64, n: i32) -> (r: (String, String))
    ensures
        r.0@ == prefix@ + int_str(nonce as int) + "_"@ + int_str(n as int),
        r.1@ == "Bulk"@ + int_str(n as int),
{
    let mut u = owned(prefix);
    let a = int_string(nonce as i128);
    push_str(&mut u, a.as_str());
    push_str(&mut u, "_");
    let b = int_string(n as i128);
    push_str(&mut u, b.as_str());
    let f = numbered("Bulk", n as i128);
    (u, f)
}

/// A seeded site page.
#[derive(Debug, Default)]
pub struct SeedPageRequest {
    pub name: Option<String>,
    pub page_type: Option<String>,
    pub body: Option<String>,
}

/// A seeded page's name, type and body, with their defaults (`Landing Page`,
/// `landing`, a welcome heading), or the refusal of an unknown type.
pub fn seed_page_fields(req: &SeedPageRequest) -> (r: Result<(String, String, String), ApiError>)
    ensures
        ({
            let t = match req.page_type {
                Some(t) => t@,
                None => "landing"@,
            };
            match r {
                Ok((n, ty, b)) => crate::pages::is_page_type(t) && ty@ == t && n@ == match req.name {
                    Some(v) => v@,
                    None => "Landing Page"@,
                } && b@ == match req.body {
                    Some(v) => v@,
                    None => "<h1>Welcome to osTicket</h1>"@,
                },
                Err(e) => !crate::pages::is_page_type(t) && e.is(
                    ErrorKind::Validation,
                    "type must be one of landing|offline|thank-you|other"@,
                ),
            }
        }),
{
    let t = match &req.page_type {
        Some(t) => owned(t.as_str()),
        None => owned("landing"),
    };
    let ts = t.as_str();
    if !(str_eq(ts, "landing") || str_eq(ts, "offline") || str_eq(ts, "thank-you") || str_eq(ts, "other")) {
        return Err(ApiError::validation("type must be one of landing|offline|thank-you|other"));
    }
    let name = match &req.name {
        Some(v) => owned(v.as_str()),
        None => owned("Landing Page"),
    };
    let body = match &req.body {
        Some(v) => owned(v.as_str()),
        None => owned("<h1>Welcome to osTicket</h1>"),
    };
    Ok((name, t, body))
}

/// A config value toggled by a test.
#[derive(Debug)]
pub struct ToggleConfigRequest {
    pub key: String,
    pub value: i32,
}

/// Only the two queue switches may be toggled.
pub fn check_toggle_key(key: &str) -> (r: Result<(), ApiError>)
    ensures
        r.is_ok() <==> (key@ == "show_answered_tickets"@ || key@ == "show_assigned_tickets"@),
        r matches Err(e) ==> e.is(
            ErrorKind::Validation,
            "Invalid config key '"@ + key@ + "'. Allowed keys: show_answered_tickets, show_assigned_tickets"@,
        ),
{
    if str_eq(key, "show_answered_tickets") || str_eq(key, "show_assigned_tickets") {
        Ok(())
    } else {
        let mut m = owned("Invalid config key '");
        push_str(&mut m, key);
        push_str(&mut m, "'. Allowed keys: show_answered_tickets, show_assigned_tickets");
        Err(ApiError::validation(m.as_str()))
    }
}

} // verus!
