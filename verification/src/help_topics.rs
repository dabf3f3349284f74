//! Help topics: paging of the list, its sort keys, the auto-assignee encoding
//! (`s<id>` for a staff member, `t<id>` for a team), the field rules of a
//! topic write, one-level nesting, and the mass actions.
use vstd::prelude::*;

use crate::departments::{selected, selected_id};
use crate::error::{map_unique_violation, unique_violation_on, ApiError, ErrorKind};
use crate::listing::opt_str_view;
use crate::text::{
    chars_of, int_str, int_string, is_ws, lemma_nat_str_parses, owned, parse_i32, parse_i32_chars, push_str,
    skip_chars, str_eq, trim, trim_chars, trim_end, trim_start, trim_str,
};

verus! {

/// Query of the topic list.
#[derive(Debug, Default)]
pub struct TopicListParams {
    pub sort: Option<String>,
    pub order: Option<String>,
    pub page: Option<i64>,
    pub page_size: Option<i64>,
}

/// The largest page the list serves; a larger one is served as this one.
pub const MAX_PAGE: i64 = 1000000;

pub open spec fn clamp_spec(v: int, lo: int, hi: int) -> int {
    if v < lo {
        lo
    } else if v > hi {
        hi
    } else {
        v
    }
}

/// The page (1 to [`MAX_PAGE`], default 1), the page size (1 to 200, default
/// 25) and the offset of the first row, which cannot overflow.
pub fn clamp_page(page: Option<i64>, page_size: Option<i64>) -> (r: (i64, i64, i64))
    ensures
        r.0 == clamp_spec(
            match page {
                Some(p) => p as int,
                None => 1,
            },
            1,
            MAX_PAGE as int,
        ),
        r.1 == clamp_spec(
            match page_size {
                Some(p) => p as int,
                None => 25,
            },
            1,
            200,
        ),
        r.2 == (r.0 - 1) * r.1,
{
    let p = match page {
        Some(p) => p,
        None => 1,
    };
    let p = if p < 1 {
        1
    } else if p > MAX_PAGE {
        MAX_PAGE
    } else {
        p
    };
    let s = match page_size {
        Some(s) => s,
        None => 25,
    };
    let s = if s < 1 {
        1
    } else if s > 200 {
        200
    } else {
        s
    };
    assert((p - 1) * s <= 999999 * 200) by (nonlinear_arith)
        requires
            1 <= p <= 1000000,
            1 <= s <= 200,
    ;
    assert(0 <= (p - 1) * s) by (nonlinear_arith)
        requires
            1 <= p,
            1 <= s,
    ;
    (p, s, (p - 1) * s)
}

/// The column a topic-list sort key orders by (the topic text by default).
pub open spec fn topic_sort_spec(sort: Option<Seq<char>>) -> Seq<char> {
    let k = match sort {
        Some(s) => s,
        None => "topic"@,
    };
    if k == "status"@ || k == "isactive"@ {
        "h.isactive"@
    } else if k == "type"@ || k == "ispublic"@ {
        "h.ispublic"@
    } else if k == "dept"@ {
        "dept_name"@
    } else if k == "priority"@ {
        "h.priority_id"@
    } else if k == "updated"@ {
        "h.updated"@
    } else if k == "created"@ {
        "h.created"@
    } else {
        "h.topic"@
    }
}

/// The column a topic-list sort key orders by.
pub fn topic_sort_expr(sort: Option<&str>) -> (r: &'static str)
    ensures
        r@ == topic_sort_spec(
            match sort {
                Some(s) => Some(s@),
                None => None,
            },
        ),
{
    match sort {
        None => {
            proof {
                reveal_strlit("topic");
                reveal_strlit("status");
                reveal_strlit("isactive");
                reveal_strlit("type");
                reveal_strlit("ispublic");
                reveal_strlit("dept");
                reveal_strlit("priority");
                reveal_strlit("updated");
                reveal_strlit("created");
                assert("topic"@[0] != "status"@[0]);
                assert("topic"@[0] != "isactive"@[0]);
                assert("topic"@[1] != "type"@[1]);
                assert("topic"@[0] != "ispublic"@[0]);
                assert("topic"@[0] != "dept"@[0]);
                assert("topic"@[0] != "priority"@[0]);
                assert("topic"@[0] != "updated"@[0]);
                assert("topic"@[0] != "created"@[0]);
            }
            "h.topic"
        },
        Some(s) => if str_eq(s, "status") || str_eq(s, "isactive") {
            "h.isactive"
        } else if str_eq(s, "type") || str_eq(s, "ispublic") {
            "h.ispublic"
        } else if str_eq(s, "dept") {
            "dept_name"
        } else if str_eq(s, "priority") {
            "h.priority_id"
        } else if str_eq(s, "updated") {
            "h.updated"
        } else if str_eq(s, "created") {
            "h.created"
        } else {
            "h.topic"
        },
    }
}

// ---------------------------------------------------------------------------
// The auto-assignee.
// ---------------------------------------------------------------------------

/// The form's auto-assignee: `s<id>` for a staff member (which wins), `t<id>`
/// for a team, empty for neither (only positive ids count).
pub open spec fn encode_spec(staff_id: Option<i32>, team_id: Option<i32>) -> Seq<char> {
    match selected(staff_id) {
        Some(s) => seq!['s'] + int_str(s as int),
        None => match selected(team_id) {
            Some(t) => seq!['t'] + int_str(t as int),
            None => Seq::empty(),
        },
    }
}

/// Encodes a topic's auto-assignee for the form.
pub fn encode_assign_to(staff_id: Option<i32>, team_id: Option<i32>) -> (r: String)
    ensures
        r@ == encode_spec(staff_id, team_id),
{
    match selected_id(staff_id) {
        Some(s) => {
            let mut out = owned("s");
            let n = int_string(s as i128);
            push_str(&mut out, n.as_str());
            proof {
                reveal_strlit("s");
                assert(out@ =~= seq!['s'] + int_str(s as int));
            }
            out
        },
        None => match selected_id(team_id) {
            Some(t) => {
                let mut out = owned("t");
                let n = int_string(t as i128);
                push_str(&mut out, n.as_str());
                proof {
                    reveal_strlit("t");
                    assert(out@ =~= seq!['t'] + int_str(t as int));
                }
                out
            },
            None => String::new(),
        },
    }
}

/// The `(staff_id, team_id)` an auto-assignee text names: a leading `s`/`S`
/// or `t`/`T` followed by a positive `i32`; anything else (a blank text, or
/// one that starts with any other character, multi-byte ones included) names
/// neither.
pub open spec fn decode_spec(a: Option<Seq<char>>) -> (Option<i32>, Option<i32>) {
    match a {
        None => (None, None),
        Some(s) => {
            let t = trim(s);
            if t.len() == 0 {
                (None, None)
            } else {
                let n = match parse_i32(t.skip(1)) {
                    Some(v) => if v > 0 {
                        Some(v)
                    } else {
                        None
                    },
                    None => None,
                };
                if (t[0] == 's' || t[0] == 'S') && n.is_some() {
                    (n, None)
                } else if (t[0] == 't' || t[0] == 'T') && n.is_some() {
                    (None, n)
                } else {
                    (None, None)
                }
            }
        },
    }
}

/// Decodes the form's auto-assignee into a staff id or a team id (never
/// both).
pub fn decode_assign_to(assign_to: Option<&str>) -> (r: (Option<i32>, Option<i32>))
    ensures
        r == decode_spec(
            match assign_to {
                Some(s) => Some(s@),
                None => None,
            },
        ),
        r.0.is_none() || r.1.is_none(),
{
    match assign_to {
        None => (None, None),
        Some(raw) => {
            let v = chars_of(raw);
            let t = trim_chars(&v);
            if t.len() == 0 {
                return (None, None);
            }
            let tag = t[0];
            let rest = skip_chars(&t, 1);
            let n = match parse_i32_chars(&rest) {
                Some(x) => if x > 0 {
                    Some(x)
                } else {
                    None
                },
                None => None,
            };
            if (tag == 's' || tag == 'S') && n.is_some() {
                (n, None)
            } else if (tag == 't' || tag == 'T') && n.is_some() {
                (None, n)
            } else {
                (None, None)
            }
        },
    }
}

/// The form's auto-assignee reads back as what was stored: the staff member
/// when there is one, else the team, else neither (only positive ids count).
pub proof fn law_assign_to_round_trip(staff_id: Option<i32>, team_id: Option<i32>)
    ensures
        decode_spec(Some(encode_spec(staff_id, team_id))) == (match selected(staff_id) {
            Some(s) => (Some(s), None),
            None => (None, selected(team_id)),
        }),
{
    let e = encode_spec(staff_id, team_id);
    match selected(staff_id) {
        Some(s) => {
            lemma_tagged_id(s, 's');
        },
        None => match selected(team_id) {
            Some(t) => {
                lemma_tagged_id(t, 't');
            },
            None => {
                assert(trim_start(e) == e);
                assert(trim(e).len() == 0);
            },
        },
    }
}

proof fn lemma_tagged_id(id: i32, tag: char)
    requires
        id > 0,
        tag == 's' || tag == 't',
    ensures
        trim(seq![tag] + int_str(id as int)) == seq![tag] + int_str(id as int),
        parse_i32((seq![tag] + int_str(id as int)).skip(1)) == Some(id),
{
    let d = int_str(id as int);
    let e = seq![tag] + d;
    lemma_nat_str_parses(id as nat);
    assert(e[0] == tag);
    assert(!is_ws(e[0]));
    assert(trim_start(e) == e);
    assert(e.last() == d.last());
    assert(crate::text::is_digit(d[d.len() - 1]));
    assert(!is_ws(e.last()));
    assert(trim_end(e) == e);
    assert(e.skip(1) =~= d);
    assert(d.len() >= 1);
    if d.len() >= 2 && d[0] == '-' {
        assert(crate::text::is_digit(d[0]));
    }
    if d.len() >= 2 && d[0] == '+' {
        assert(crate::text::is_digit(d[0]));
    }
}

// ---------------------------------------------------------------------------
// Topic writes.
// ---------------------------------------------------------------------------

/// A help-topic create / edit body.
#[derive(Debug, Default)]
pub struct TopicWriteRequest {
    pub topic: String,
    pub isactive: bool,
    pub ispublic: bool,
    pub dept_id: Option<i32>,
    pub priority_id: Option<i32>,
    pub sla_id: Option<i32>,
    pub parent_id: Option<i32>,
    pub assign_to: Option<String>,
    pub page_id: Option<i32>,
    pub noautoresp: bool,
    pub notes: Option<String>,
}

/// The default of `isactive` and `ispublic` when a body leaves them out.
pub fn default_true() -> (r: bool)
    ensures
        r,
{
    true
}

/// The checked and resolved fields of a topic write.
#[derive(Debug)]
pub struct TopicFields {
    pub topic: String,
    pub topic_pid: i32,
    pub dept_id: i32,
    pub priority_id: i32,
    pub sla_id: Option<i32>,
    pub staff_id: Option<i32>,
    pub team_id: Option<i32>,
    pub page_id: i32,
}

/// The field errors of a topic write. `parent_is_top_level` says whether the
/// submitted parent (when one is selected) is itself a top-level topic.
pub open spec fn topic_errors(b: TopicWriteRequest, parent_is_top_level: Option<bool>) -> Map<Seq<char>, Seq<char>> {
    let m = Map::<Seq<char>, Seq<char>>::empty();
    let m = if trim(b.topic@).len() < 5 {
        m.insert("topic"@, "5 chars minimum"@)
    } else {
        m
    };
    let m = if selected(b.dept_id).is_none() {
        m.insert("deptId"@, "You must select a department"@)
    } else {
        m
    };
    let m = if selected(b.priority_id).is_none() {
        m.insert("priorityId"@, "You must select a priority"@)
    } else {
        m
    };
    if selected(b.parent_id).is_some() && parent_is_top_level == Some(false) {
        m.insert("parentId"@, "Parent topic must be a top-level topic"@)
    } else {
        m
    }
}

/// Checks and resolves a topic write: the trimmed topic text, the parent (0
/// for a top-level topic), the selections, the auto-assignee and the page (0
/// for the system default), or the validation error with every field's
/// message.
pub fn validate_topic_fields(b: &TopicWriteRequest, parent_is_top_level: Option<bool>) -> (r: Result<
    TopicFields,
    ApiError,
>)
    ensures
        match r {
            Ok(f) => {
                &&& topic_errors(*b, parent_is_top_level).dom().len() == 0
                &&& f.topic@ == trim(b.topic@)
                &&& f.topic_pid == match selected(b.parent_id) {
                    Some(p) => p,
                    None => 0,
                }
                &&& Some(f.dept_id) == selected(b.dept_id)
                &&& Some(f.priority_id) == selected(b.priority_id)
                &&& f.sla_id == selected(b.sla_id)
                &&& (f.staff_id, f.team_id) == decode_spec(opt_str_view(b.assign_to))
                &&& f.page_id == match selected(b.page_id) {
                    Some(p) => p,
                    None => 0,
                }
            },
            Err(e) => e.kind == ErrorKind::Validation && e.message@ == "Please correct the errors below"@
                && e.fields@ == topic_errors(*b, parent_is_top_level) && e.fields@.dom().len() > 0,
        },
{
    let mut err = ApiError::validation("Please correct the errors below");
    let topic = trim_str(b.topic.as_str());
    let tv = chars_of(topic.as_str());
    if tv.len() < 5 {
        err = err.with_field("topic", "5 chars minimum");
    }
    let dept_id = selected_id(b.dept_id);
    if dept_id.is_none() {
        err = err.with_field("deptId", "You must select a department");
    }
    let priority_id = selected_id(b.priority_id);
    if priority_id.is_none() {
        err = err.with_field("priorityId", "You must select a priority");
    }
    let parent = selected_id(b.parent_id);
    if parent.is_some() && parent_is_top_level == Some(false) {
        err = err.with_field("parentId", "Parent topic must be a top-level topic");
    }
    if !err.fields.is_empty() {
        return Err(err);
    }
    let (staff_id, team_id) = match &b.assign_to {
        Some(a) => decode_assign_to(Some(a.as_str())),
        None => decode_assign_to(None),
    };
    match (dept_id, priority_id) {
        (Some(d), Some(p)) => Ok(
            TopicFields {
                topic,
                topic_pid: match parent {
                    Some(x) => x,
                    None => 0,
                },
                dept_id: d,
                priority_id: p,
                sla_id: selected_id(b.sla_id),
                staff_id,
                team_id,
                page_id: match selected_id(b.page_id) {
                    Some(x) => x,
                    None => 0,
                },
            },
        ),
        _ => Err(err),
    }
}

/// What the parent lookup of a topic write says: `None` when no parent is
/// selected, else whether the parent exists and is itself top-level.
pub open spec fn parent_flag(parent_id: Option<i32>, parent_pid: Option<i32>) -> Option<bool> {
    if selected(parent_id).is_some() {
        Some(parent_pid == Some(0i32))
    } else {
        None::<bool>
    }
}

/// Whether the submitted parent is a top-level topic: `None` when no parent
/// is selected, else whether the looked-up parent's own parent (`parent_pid`,
/// `None` when the parent does not exist) is 0.
pub fn parent_top_level(parent_id: Option<i32>, parent_pid: Option<i32>) -> (r: Option<bool>)
    ensures
        r == parent_flag(parent_id, parent_pid),
{
    match selected_id(parent_id) {
        None => None,
        Some(_) => Some(parent_pid == Some(0i32)),
    }
}

/// The nesting rules of a topic edit: a topic cannot be its own parent, and a
/// topic with sub-topics (`has_children`, consulted only for a non-zero
/// parent) cannot itself be nested.
pub fn check_topic_nesting(id: i32, topic_pid: i32, has_children: bool) -> (r: Result<(), ApiError>)
    ensures
        match r {
            Ok(_) => topic_pid != id && !(topic_pid != 0 && has_children),
            Err(e) => e.kind == ErrorKind::Validation && if topic_pid == id {
                e.message@ == "A topic cannot be its own parent"@ && e.fields@ == map![
                    "parentId"@ => "A topic cannot be its own parent"@,
                ]
            } else {
                topic_pid != 0 && has_children && e.message@
                    == "A topic with sub-topics cannot itself become a sub-topic"@ && e.fields@ == map![
                    "parentId"@ => "This topic has sub-topics and cannot be nested under another topic"@,
                ]
            },
        },
{
    if topic_pid == id {
        let e = ApiError::validation("A topic cannot be its own parent").with_field(
            "parentId",
            "A topic cannot be its own parent",
        );
        assert(e.fields@ =~= map!["parentId"@ => "A topic cannot be its own parent"@]);
        return Err(e);
    }
    if topic_pid != 0 && has_children {
        let e = ApiError::validation("A topic with sub-topics cannot itself become a sub-topic").with_field(
            "parentId",
            "This topic has sub-topics and cannot be nested under another topic",
        );
        assert(e.fields@ =~= map![
            "parentId"@ => "This topic has sub-topics and cannot be nested under another topic"@,
        ]);
        return Err(e);
    }
    Ok(())
}

/// The parent a topic write saves: the selected one, or 0 for top level.
pub open spec fn saved_pid(b: TopicWriteRequest) -> int {
    match selected(b.parent_id) {
        Some(p) => p as int,
        None => 0,
    }
}

/// One-level nesting: when a topic write passes the field rules (with the
/// parent looked up as `parent_pid`) and the nesting rules of an edit (with
/// `has_children` for the edited topic `id`), the saved topic is top-level,
/// or its parent is a top-level topic and the topic has no sub-topics, so no
/// chain of three levels can arise.
pub proof fn law_accepted_topic_is_one_level(
    b: TopicWriteRequest,
    parent_pid: Option<i32>,
    id: i32,
    has_children: bool,
)
    requires
        topic_errors(b, parent_flag(b.parent_id, parent_pid)).dom().len() == 0,
        saved_pid(b) != id,
        !(saved_pid(b) != 0 && has_children),
    ensures
        saved_pid(b) == 0 || (parent_pid == Some(0i32) && !has_children),
{
    let m = topic_errors(b, parent_flag(b.parent_id, parent_pid));
    if saved_pid(b) != 0 && parent_pid != Some(0i32) {
        assert(m.dom().contains("parentId"@));
        assert(m.dom().finite()) by {
            lemma_topic_errors_finite(b, parent_flag(b.parent_id, parent_pid));
        }
        vstd::set_lib::lemma_set_empty_equivalency_len(m.dom());
        assert(false);
    }
}

proof fn lemma_topic_errors_finite(b: TopicWriteRequest, flag: Option<bool>)
    ensures
        topic_errors(b, flag).dom().finite(),
{
    let m0 = Map::<Seq<char>, Seq<char>>::empty();
    assert(m0.dom().finite());
}

/// The answer to a failed topic write: a duplicate topic under the same
/// parent is a 422 on `topic`, anything else a 500.
pub fn map_topic_write_error(code: &Option<String>, constraint: &Option<String>) -> (r: ApiError)
    ensures
        if unique_violation_on(opt_str_view(*code), opt_str_view(*constraint), "help_topic_topic_pid_key"@) {
            r.kind == ErrorKind::Validation && r.message@ == "A topic with this name already exists"@
                && r.fields@ == map!["topic"@ => "A topic with this name already exists"@]
        } else {
            r.is(ErrorKind::Internal, "Could not save the help topic"@)
        },
{
    map_unique_violation(
        code,
        constraint,
        "help_topic_topic_pid_key",
        "topic",
        "A topic with this name already exists",
        "Could not save the help topic",
    )
}

/// A mass action on help topics.
#[derive(Debug)]
pub struct MassTopicRequest {
    pub action: String,
    pub ids: Vec<i32>,
}

/// The message of a topic mass action.
pub open spec fn mass_topics_message_spec(action: Seq<char>) -> Seq<char> {
    if action == "enable"@ {
        "Selected topics enabled"@
    } else if action == "disable"@ {
        "Selected topics disabled"@
    } else {
        "Selected topics deleted"@
    }
}

/// The message of a topic mass action.
pub fn mass_topics_message(action: &str) -> (r: &'static str)
    ensures
        r@ == mass_topics_message_spec(action@),
{
    if str_eq(action, "enable") {
        "Selected topics enabled"
    } else if str_eq(action, "disable") {
        "Selected topics disabled"
    } else {
        "Selected topics deleted"
    }
}

} // verus!
