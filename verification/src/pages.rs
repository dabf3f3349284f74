//! Site pages: the list's sort keys and paging, the field rules (a name and
//! one of the four page types), the in-use guards (a page bound as a special
//! site page or used by a help topic cannot be disabled or deleted), the mass
//! actions, and the slug a public page is served by.
use vstd::prelude::*;

use crate::error::{map_unique_violation, unique_violation_on, ApiError, ErrorKind};
use crate::help_topics::clamp_spec;
use crate::listing::opt_str_view;
use crate::mass::partial_message;
use crate::text::{
    chars_of, is_alnum, is_alnum_char, is_digit, is_lower, is_upper, lower_char, lower_char_exec, owned, str_eq,
    string_of, trim, trim_str,
};

verus! {

/// The config keys that bind a page as a special site page.
pub open spec fn binding_keys_spec() -> Seq<Seq<char>> {
    seq!["landing_page_id"@, "offline_page_id"@, "thank-you_page_id"@]
}

/// The config keys that bind a page as a special site page; a page whose id
/// one of them holds is in use.
pub fn page_binding_keys() -> (r: [&'static str; 3])
    ensures
        r@.map_values(|k: &'static str| k@) == binding_keys_spec(),
{
    let r = ["landing_page_id", "offline_page_id", "thank-you_page_id"];
    assert(r@.map_values(|k: &'static str| k@) =~= binding_keys_spec());
    r
}

/// The four page types.
pub open spec fn is_page_type(t: Seq<char>) -> bool {
    t == "landing"@ || t == "offline"@ || t == "thank-you"@ || t == "other"@
}

/// Query of the page list.
#[derive(Debug, Default)]
pub struct PageListParams {
    pub sort: Option<String>,
    pub order: Option<String>,
    pub page: Option<i64>,
    pub per_page: Option<i64>,
}

/// The column a page-list sort key orders by (the name by default).
pub open spec fn page_sort_spec(sort: Option<Seq<char>>) -> Seq<char> {
    match sort {
        Some(k) => if k == "type"@ {
            "p.type"@
        } else if k == "status"@ || k == "isactive"@ {
            "p.isactive"@
        } else if k == "created"@ {
            "p.created"@
        } else if k == "updated"@ {
            "p.updated"@
        } else {
            "p.name"@
        },
        None => "p.name"@,
    }
}

/// The column a page-list sort key orders by.
pub fn page_sort_expr(sort: Option<&str>) -> (r: &'static str)
    ensures
        r@ == page_sort_spec(
            match sort {
                Some(s) => Some(s@),
                None => None,
            },
        ),
{
    match sort {
        None => "p.name",
        Some(s) => if str_eq(s, "type") {
            "p.type"
        } else if str_eq(s, "status") || str_eq(s, "isactive") {
            "p.isactive"
        } else if str_eq(s, "created") {
            "p.created"
        } else if str_eq(s, "updated") {
            "p.updated"
        } else {
            "p.name"
        },
    }
}

/// The page of the page list (at least 1, default 1).
pub open spec fn pages_page(page: Option<i64>) -> int {
    match page {
        Some(p) => if p < 1 {
            1
        } else {
            p as int
        },
        None => 1,
    }
}

/// The page (at least 1), the page size (1 to 200, default 25) and the offset
/// of the first row of the page list.
pub fn page_list_paging(page: Option<i64>, per_page: Option<i64>) -> (r: (i64, i64, i64))
    requires
        (pages_page(page) - 1) * clamp_spec(
            match per_page {
                Some(p) => p as int,
                None => 25,
            },
            1,
            200,
        ) <= i64::MAX,
    ensures
        r.0 == pages_page(page),
        r.1 == clamp_spec(
            match per_page {
                Some(p) => p as int,
                None => 25,
            },
            1,
            200,
        ),
        r.2 == (r.0 - 1) * r.1,
{
    let p = match page {
        Some(p) => if p < 1 {
            1
        } else {
            p
        },
        None => 1,
    };
    let s = match per_page {
        Some(s) => s,
        None => 25,
    };
    let s = if s < 1 {
        1
    } else if s > 200 {
        200
    } else {
        s
    };
    assert(0 <= (p - 1) * s) by (nonlinear_arith)
        requires
            1 <= p,
            1 <= s,
    ;
    (p, s, (p - 1) * s)
}

/// A page create / edit body.
#[derive(Debug, Default)]
pub struct PageWriteRequest {
    pub name: String,
    pub page_type: String,
    pub body: String,
    pub isactive: bool,
    pub notes: Option<String>,
}

/// The default of `isactive` when a body leaves it out.
pub fn default_true() -> (r: bool)
    ensures
        r,
{
    true
}

/// The field errors of a page write.
pub open spec fn page_errors(b: PageWriteRequest) -> Map<Seq<char>, Seq<char>> {
    let m = Map::<Seq<char>, Seq<char>>::empty();
    let m = if trim(b.name@).len() == 0 {
        m.insert("name"@, "Name required"@)
    } else {
        m
    };
    if !is_page_type(trim(b.page_type@)) {
        m.insert("type"@, "Type must be one of landing, offline, thank-you, other"@)
    } else {
        m
    }
}

/// Checks a page write: the trimmed name and type, or the validation error
/// with every field's message.
pub fn validate_page_fields(b: &PageWriteRequest) -> (r: Result<(String, String), ApiError>)
    ensures
        match r {
            Ok((n, t)) => page_errors(*b).dom().len() == 0 && n@ == trim(b.name@) && t@ == trim(b.page_type@),
            Err(e) => e.kind == ErrorKind::Validation && e.message@ == "Please correct the errors below"@
                && e.fields@ == page_errors(*b) && e.fields@.dom().len() > 0,
        },
{
    let mut err = ApiError::validation("Please correct the errors below");
    let name = trim_str(b.name.as_str());
    let nv = chars_of(name.as_str());
    if nv.len() == 0 {
        err = err.with_field("name", "Name required");
    }
    let t = trim_str(b.page_type.as_str());
    let ts = t.as_str();
    if !(str_eq(ts, "landing") || str_eq(ts, "offline") || str_eq(ts, "thank-you") || str_eq(ts, "other")) {
        err = err.with_field("type", "Type must be one of landing, offline, thank-you, other");
    }
    if !err.fields.is_empty() {
        return Err(err);
    }
    Ok((name, t))
}

/// The answer to a failed page write: a duplicate name is a 422 on `name`,
/// anything else a 500.
pub fn map_page_write_error(code: &Option<String>, constraint: &Option<String>) -> (r: ApiError)
    ensures
        if unique_violation_on(opt_str_view(*code), opt_str_view(*constraint), "page_name_key"@) {
            r.kind == ErrorKind::Validation && r.message@ == "A page with this name already exists"@
                && r.fields@ == map!["name"@ => "A page with this name already exists"@]
        } else {
            r.is(ErrorKind::Internal, "Could not save the page"@)
        },
{
    map_unique_violation(
        code,
        constraint,
        "page_name_key",
        "name",
        "A page with this name already exists",
        "Could not save the page",
    )
}

/// A page in use cannot be disabled.
pub fn check_page_disable(isactive: bool, in_use: bool) -> (r: Result<(), ApiError>)
    ensures
        r.is_ok() <==> (isactive || !in_use),
        r matches Err(e) ==> e.kind == ErrorKind::Validation && e.message@
            == "A page currently in-use CANNOT be disabled!"@ && e.fields@ == map![
            "isactive"@ => "A page currently in-use CANNOT be disabled!"@,
        ],
{
    if !isactive && in_use {
        let e = ApiError::validation("A page currently in-use CANNOT be disabled!").with_field(
            "isactive",
            "A page currently in-use CANNOT be disabled!",
        );
        assert(e.fields@ =~= map!["isactive"@ => "A page currently in-use CANNOT be disabled!"@]);
        Err(e)
    } else {
        Ok(())
    }
}

/// A mass action on pages.
#[derive(Debug)]
pub struct MassPageRequest {
    pub action: String,
    pub ids: Vec<i32>,
}

/// The pages of a selection that are not in use (`in_use[i]` for `ids[i]`),
/// in selection order.
pub open spec fn not_in_use(ids: Seq<i32>, in_use: Seq<bool>) -> Seq<i32>
    decreases ids.len(),
{
    if ids.len() == 0 {
        Seq::empty()
    } else {
        let prev = not_in_use(ids.drop_last(), in_use.take(ids.len() - 1));
        if in_use[ids.len() - 1] {
            prev
        } else {
            prev.push(ids.last())
        }
    }
}

/// The pages a mass disable or delete may touch: those not in use.
pub fn pages_not_in_use(ids: &Vec<i32>, in_use: &Vec<bool>) -> (r: Vec<i32>)
    requires
        ids.len() == in_use.len(),
    ensures
        r@ == not_in_use(ids@, in_use@),
        forall|x: i32| r@.contains(x) ==> ids@.contains(x),
{
    let mut out: Vec<i32> = Vec::new();
    let mut i: usize = 0;
    while i < ids.len()
        invariant
            i <= ids.len(),
            ids.len() == in_use.len(),
            out@ == not_in_use(ids@.take(i as int), in_use@.take(i as int)),
            forall|x: i32| out@.contains(x) ==> ids@.contains(x),
        decreases ids.len() - i,
    {
        assert(ids@.take(i + 1).drop_last() =~= ids@.take(i as int));
        assert(in_use@.take(i + 1).take(i as int) =~= in_use@.take(i as int));
        if !in_use[i] {
            out.push(ids[i]);
            assert(ids@[i as int] == ids@.take(i + 1).last());
            proof {
                assert forall|x: i32| out@.contains(x) implies ids@.contains(x) by {
                    if x == ids@[i as int] {
                        assert(ids@.contains(ids@[i as int]));
                    } else {
                        let k = choose|k: int| 0 <= k < out@.len() && out@[k] == x;
                        assert(out@.drop_last()[k] == x);
                    }
                }
            }
        }
        i = i + 1;
    }
    assert(ids@.take(ids.len() as int) =~= ids@);
    assert(in_use@.take(ids.len() as int) =~= in_use@);
    out
}

/// The message of a page mass action that changed `n` of the `requested`
/// pages.
pub open spec fn mass_pages_message_spec(action: Seq<char>, n: int, requested: int) -> Seq<char> {
    if action == "enable"@ {
        "Selected pages enabled"@
    } else if action == "disable"@ {
        partial_message(
            n,
            requested,
            "Selected pages disabled"@,
            "A page currently in-use CANNOT be disabled!"@,
            "selected pages disabled"@,
        )
    } else {
        partial_message(
            n,
            requested,
            "Selected pages deleted successfully"@,
            "Unable to delete selected pages (a page currently in-use cannot be deleted)"@,
            "selected pages deleted"@,
        )
    }
}

/// The message of a page mass action.
pub fn mass_pages_message(action: &str, n: i64, requested: i64) -> (r: String)
    ensures
        r@ == mass_pages_message_spec(action@, n as int, requested as int),
{
    if str_eq(action, "enable") {
        owned("Selected pages enabled")
    } else if str_eq(action, "disable") {
        crate::mass::outcome_message(
            n,
            requested,
            "Selected pages disabled",
            "A page currently in-use CANNOT be disabled!",
            "selected pages disabled",
        )
    } else {
        crate::mass::outcome_message(
            n,
            requested,
            "Selected pages deleted successfully",
            "Unable to delete selected pages (a page currently in-use cannot be deleted)",
            "selected pages deleted",
        )
    }
}

/// The staff-config bundle: the stored lock time, date format and upload
/// limit, each with its default (`0`, `m/d/Y`, `1`) when unset.
pub fn scp_config(lock_time: Option<String>, date_format: Option<String>, max_file_uploads: Option<String>) -> (r: (
    String,
    String,
    String,
))
    ensures
        r.0@ == match lock_time {
            Some(v) => v@,
            None => "0"@,
        },
        r.1@ == match date_format {
            Some(v) => v@,
            None => "m/d/Y"@,
        },
        r.2@ == match max_file_uploads {
            Some(v) => v@,
            None => "1"@,
        },
{
    let a = match lock_time {
        Some(v) => v,
        None => owned("0"),
    };
    let b = match date_format {
        Some(v) => v,
        None => owned("m/d/Y"),
    };
    let c = match max_file_uploads {
        Some(v) => v,
        None => owned("1"),
    };
    (a, b, c)
}

/// The ticket's own variables, as `(token, description)`.
pub open spec fn ticket_base_variables() -> Seq<(Seq<char>, Seq<char>)> {
    seq![
        ("ticket.id"@, "Ticket ID (internal)"@),
        ("ticket.number"@, "Ticket number"@),
        ("ticket.subject"@, "Ticket subject"@),
        ("ticket.name"@, "Requester name"@),
        ("ticket.email"@, "Requester email address"@),
        ("ticket.status"@, "Ticket status"@),
        ("ticket.priority"@, "Ticket priority"@),
        ("ticket.dept.name"@, "Department name"@),
        ("ticket.create_date"@, "Date the ticket was created"@),
        ("ticket.due_date"@, "Ticket due date (SLA)"@),
    ]
}

/// The other variables, as `(token, description)`.
pub open spec fn ticket_other_variables() -> Seq<(Seq<char>, Seq<char>)> {
    seq![("url"@, "Helpdesk base URL"@)]
}

/// The views of a list of `(token, description)` pairs.
pub open spec fn catalog_views(v: Seq<(&'static str, &'static str)>) -> Seq<(Seq<char>, Seq<char>)> {
    v.map_values(|p: (&'static str, &'static str)| (p.0@, p.1@))
}

/// The ticket variables a page or template may use: the ticket's own, then
/// the others, each as `(token, description)`.
pub fn ticket_variables_catalog() -> (r: (Vec<(&'static str, &'static str)>, Vec<(&'static str, &'static str)>))
    ensures
        catalog_views(r.0@) == ticket_base_variables(),
        catalog_views(r.1@) == ticket_other_variables(),
{
    let mut base: Vec<(&'static str, &'static str)> = Vec::new();
    base.push(("ticket.id", "Ticket ID (internal)"));
    base.push(("ticket.number", "Ticket number"));
    base.push(("ticket.subject", "Ticket subject"));
    base.push(("ticket.name", "Requester name"));
    base.push(("ticket.email", "Requester email address"));
    base.push(("ticket.status", "Ticket status"));
    base.push(("ticket.priority", "Ticket priority"));
    base.push(("ticket.dept.name", "Department name"));
    base.push(("ticket.create_date", "Date the ticket was created"));
    base.push(("ticket.due_date", "Ticket due date (SLA)"));
    let mut other: Vec<(&'static str, &'static str)> = Vec::new();
    other.push(("url", "Helpdesk base URL"));
    assert(catalog_views(base@) =~= ticket_base_variables());
    assert(catalog_views(other@) =~= ticket_other_variables());
    (base, other)
}

// ---------------------------------------------------------------------------
// Slugs.
// ---------------------------------------------------------------------------

/// The slug built so far and whether it ends at a separator: ASCII letters
/// and digits are kept (lower-cased) and every other run of characters
/// becomes one `-` (none before the first kept character).
pub open spec fn slug_state(s: Seq<char>) -> (Seq<char>, bool)
    decreases s.len(),
{
    if s.len() == 0 {
        (Seq::empty(), true)
    } else {
        let (o, pd) = slug_state(s.drop_last());
        let c = s.last();
        if is_alnum(c) {
            (o.push(lower_char(c)), false)
        } else if !pd {
            (o.push('-'), true)
        } else {
            (o, pd)
        }
    }
}

/// `s` without its trailing `-`s.
pub open spec fn strip_dashes(s: Seq<char>) -> Seq<char>
    decreases s.len(),
{
    if s.len() > 0 && s.last() == '-' {
        strip_dashes(s.drop_last())
    } else {
        s
    }
}

/// The slug of a page name: lower-case ASCII letters and digits, other runs
/// collapsed to one `-`, no `-` at either end.
pub open spec fn slug_spec(s: Seq<char>) -> Seq<char> {
    strip_dashes(slug_state(s).0)
}

/// Slugifies a page name for its public URL.
pub fn slugify(name: &str) -> (r: String)
    ensures
        r@ == slug_spec(name@),
{
    let v = chars_of(name);
    let mut out: Vec<char> = Vec::new();
    let mut prev_dash = true;
    let mut i: usize = 0;
    while i < v.len()
        invariant
            i <= v.len(),
            (out@, prev_dash) == slug_state(v@.take(i as int)),
        decreases v.len() - i,
    {
        let ch = v[i];
        assert(v@.take(i + 1).drop_last() =~= v@.take(i as int));
        if is_alnum_char(ch) {
            out.push(lower_char_exec(ch));
            prev_dash = false;
        } else if !prev_dash {
            out.push('-');
            prev_dash = true;
        }
        i = i + 1;
    }
    assert(v@.take(v.len() as int) =~= v@);
    let ghost full = out@;
    while out.len() > 0 && out[out.len() - 1] == '-'
        invariant
            strip_dashes(out@) == strip_dashes(full),
        decreases out.len(),
    {
        out.pop();
    }
    string_of(&out)
}

/// A string of slug shape so far: only lower-case ASCII letters, digits and
/// `-`, no `-` first, and no two `-` in a row.
pub open spec fn slug_shaped(w: Seq<char>) -> bool {
    &&& forall|i: int| 0 <= i < w.len() ==> (is_lower(#[trigger] w[i]) || is_digit(w[i]) || w[i] == '-')
    &&& (w.len() > 0 ==> w[0] != '-')
    &&& forall|i: int| 0 <= i < w.len() - 1 ==> !(#[trigger] w[i] == '-' && w[i + 1] == '-')
}

proof fn lemma_slug_state_shaped(s: Seq<char>)
    ensures
        slug_shaped(slug_state(s).0),
        slug_state(s).1 == (slug_state(s).0.len() == 0 || slug_state(s).0.last() == '-'),
    decreases s.len(),
{
    if s.len() > 0 {
        lemma_slug_state_shaped(s.drop_last());
        let (o, pd) = slug_state(s.drop_last());
        let c = s.last();
        if is_alnum(c) {
            let l = lower_char(c);
            assert(is_lower(l) || is_digit(l));
            let w = o.push(l);
            assert forall|i: int| 0 <= i < w.len() implies (is_lower(#[trigger] w[i]) || is_digit(w[i]) || w[i]
                == '-') by {
                if i < o.len() {
                    assert(w[i] == o[i]);
                }
            }
            assert forall|i: int| 0 <= i < w.len() - 1 implies !(#[trigger] w[i] == '-' && w[i + 1] == '-') by {
                if i + 1 < o.len() {
                    assert(w[i] == o[i]);
                    assert(w[i + 1] == o[i + 1]);
                }
            }
        } else if !pd {
            let w = o.push('-');
            assert forall|i: int| 0 <= i < w.len() implies (is_lower(#[trigger] w[i]) || is_digit(w[i]) || w[i]
                == '-') by {
                if i < o.len() {
                    assert(w[i] == o[i]);
                }
            }
            assert forall|i: int| 0 <= i < w.len() - 1 implies !(#[trigger] w[i] == '-' && w[i + 1] == '-') by {
                if i + 1 < o.len() {
                    assert(w[i] == o[i]);
                    assert(w[i + 1] == o[i + 1]);
                } else {
                    assert(w[i] == o.last());
                }
            }
        }
    }
}

proof fn lemma_strip_dashes_shaped(w: Seq<char>)
    requires
        slug_shaped(w),
    ensures
        slug_shaped(strip_dashes(w)),
        strip_dashes(w).len() == 0 || strip_dashes(w).last() != '-',
    decreases w.len(),
{
    if w.len() > 0 && w.last() == '-' {
        let p = w.drop_last();
        assert forall|i: int| 0 <= i < p.len() implies (is_lower(#[trigger] p[i]) || is_digit(p[i]) || p[i] == '-') by {
            assert(p[i] == w[i]);
        }
        assert forall|i: int| 0 <= i < p.len() - 1 implies !(#[trigger] p[i] == '-' && p[i + 1] == '-') by {
            assert(p[i] == w[i]);
            assert(p[i + 1] == w[i + 1]);
        }
        lemma_strip_dashes_shaped(p);
    }
}

proof fn lemma_slug_state_fixed(w: Seq<char>)
    requires
        slug_shaped(w),
    ensures
        slug_state(w) == (w, w.len() == 0 || w.last() == '-'),
    decreases w.len(),
{
    if w.len() > 0 {
        let p = w.drop_last();
        assert forall|i: int| 0 <= i < p.len() implies (is_lower(#[trigger] p[i]) || is_digit(p[i]) || p[i] == '-') by {
            assert(p[i] == w[i]);
        }
        assert forall|i: int| 0 <= i < p.len() - 1 implies !(#[trigger] p[i] == '-' && p[i + 1] == '-') by {
            assert(p[i] == w[i]);
            assert(p[i + 1] == w[i + 1]);
        }
        if p.len() > 0 {
            assert(p[0] == w[0]);
        }
        lemma_slug_state_fixed(p);
        let c = w.last();
        assert(c == w[w.len() - 1]);
        if c == '-' {
            assert(w.len() >= 2);
            assert(p.last() == w[w.len() - 2]);
            assert(!(w[w.len() - 2] == '-' && w[w.len() - 1] == '-'));
        } else {
            assert(is_lower(c) || is_digit(c));
            assert(lower_char(c) == c);
        }
        assert(p.push(c) =~= w);
    }
}

/// Slugifying is idempotent: a slug is its own slug, so a page is found by
/// the slug of its name however the slug is written.
pub proof fn law_slugify_idempotent(s: Seq<char>)
    ensures
        slug_spec(slug_spec(s)) == slug_spec(s),
{
    lemma_slug_state_shaped(s);
    lemma_strip_dashes_shaped(slug_state(s).0);
    let w = slug_spec(s);
    lemma_slug_state_fixed(w);
}

/// The first page whose name has the same slug as the requested one.
pub fn find_page_by_slug(names: &Vec<String>, slug: &str) -> (r: Option<usize>)
    ensures
        match r {
            Some(i) => i < names@.len() && slug_spec(names@[i as int]@) == slug_spec(slug@) && forall|j: int|
                0 <= j < i ==> slug_spec(#[trigger] names@[j]@) != slug_spec(slug@),
            None => forall|j: int| 0 <= j < names@.len() ==> slug_spec(#[trigger] names@[j]@) != slug_spec(slug@),
        },
{
    let want = slugify(slug);
    let mut i: usize = 0;
    while i < names.len()
        invariant
            i <= names.len(),
            want@ == slug_spec(slug@),
            forall|j: int| 0 <= j < i ==> slug_spec(#[trigger] names@[j]@) != slug_spec(slug@),
        decreases names.len() - i,
    {
        let s = slugify(names[i].as_str());
        if str_eq(s.as_str(), want.as_str()) {
            return Some(i);
        }
        i = i + 1;
    }
    None
}

} // verus!
