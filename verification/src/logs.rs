//! The system log: the client address a log row records, and the log list's
//! sort keys, direction, paging and filters.
use vstd::prelude::*;

use crate::help_topics::clamp_spec;
use crate::listing::opt_str_view;
use crate::pages::pages_page;
use crate::text::{chars_of, is_blank, owned, str_eq, string_of, to_uppercase, trim, trim_chars, unicode_upper};

verus! {

/// The part of `s` before its first comma (all of it when it has none).
pub open spec fn first_piece(s: Seq<char>) -> Seq<char>
    decreases s.len(),
{
    if s.len() == 0 {
        s
    } else if s[0] == ',' {
        Seq::empty()
    } else {
        seq![s[0]] + first_piece(s.drop_first())
    }
}

/// The client address of a request: the first hop of its `X-Forwarded-For`
/// header (given as text, when present and readable), trimmed; empty
/// otherwise.
pub open spec fn client_ip_spec(forwarded_for: Option<Seq<char>>) -> Seq<char> {
    match forwarded_for {
        Some(v) => trim(first_piece(v)),
        None => Seq::empty(),
    }
}

/// The client address of a request, from its `X-Forwarded-For` text.
pub fn client_ip(forwarded_for: Option<&str>) -> (r: String)
    ensures
        r@ == client_ip_spec(
            match forwarded_for {
                Some(s) => Some(s@),
                None => None,
            },
        ),
{
    match forwarded_for {
        None => String::new(),
        Some(s) => {
            let v = chars_of(s);
            let mut head: Vec<char> = Vec::new();
            let mut i: usize = 0;
            while i < v.len() && v[i] != ','
                invariant
                    i <= v.len(),
                    v@ == s@,
                    head@ == v@.take(i as int),
                    forall|j: int| 0 <= j < i ==> v@[j] != ',',
                decreases v.len() - i,
            {
                head.push(v[i]);
                i = i + 1;
            }
            proof {
                lemma_first_piece(v@, i as int);
            }
            let t = trim_chars(&head);
            string_of(&t)
        },
    }
}

proof fn lemma_first_piece(s: Seq<char>, i: int)
    requires
        0 <= i <= s.len(),
        forall|j: int| 0 <= j < i ==> s[j] != ',',
        i == s.len() || s[i] == ',',
    ensures
        first_piece(s) == s.take(i),
    decreases s.len(),
{
    if s.len() > 0 {
        if i == 0 {
        } else {
            lemma_first_piece(s.drop_first(), i - 1);
            assert(seq![s[0]] + s.drop_first().take(i - 1) =~= s.take(i));
        }
    } else {
        assert(s.take(i) =~= s);
    }
}

/// Query of the log list.
#[derive(Debug, Default)]
pub struct LogListParams {
    pub log_type: Option<String>,
    pub from: Option<String>,
    pub to: Option<String>,
    pub sort: Option<String>,
    pub order: Option<String>,
    pub page: Option<i64>,
    pub per_page: Option<i64>,
}

/// The column a log-list sort key orders by (the id by default).
pub open spec fn log_sort_spec(sort: Option<Seq<char>>) -> Seq<char> {
    match sort {
        Some(k) => if k == "created"@ {
            "created"@
        } else if k == "type"@ || k == "log_type"@ {
            "log_type"@
        } else if k == "title"@ {
            "title"@
        } else {
            "id"@
        },
        None => "id"@,
    }
}

/// The column a log-list sort key orders by.
pub fn log_sort_expr(sort: Option<&str>) -> (r: &'static str)
    ensures
        r@ == log_sort_spec(
            match sort {
                Some(s) => Some(s@),
                None => None,
            },
        ),
{
    match sort {
        None => "id",
        Some(s) => if str_eq(s, "created") {
            "created"
        } else if str_eq(s, "type") || str_eq(s, "log_type") {
            "log_type"
        } else if str_eq(s, "title") {
            "title"
        } else {
            "id"
        },
    }
}

/// The direction of the log list: `ASC` only when asked for (any case),
/// else newest first.
pub open spec fn log_direction_spec(order: Option<Seq<char>>) -> Seq<char> {
    match order {
        Some(o) => if unicode_upper(o) == "ASC"@ {
            "ASC"@
        } else {
            "DESC"@
        },
        None => "DESC"@,
    }
}

/// The ORDER BY of the log list: the sort column, the direction, then the
/// newest first.
pub fn log_order_by(p: &LogListParams) -> (r: String)
    ensures
        r@ == log_sort_spec(opt_str_view(p.sort)) + " "@ + log_direction_spec(opt_str_view(p.order))
            + ", id DESC"@,
{
    let col = match &p.sort {
        Some(s) => log_sort_expr(Some(s.as_str())),
        None => log_sort_expr(None),
    };
    let dir = match &p.order {
        Some(o) => {
            let u = to_uppercase(o.as_str());
            if str_eq(u.as_str(), "ASC") {
                "ASC"
            } else {
                "DESC"
            }
        },
        None => "DESC",
    };
    let mut out = owned(col);
    crate::text::push_str(&mut out, " ");
    crate::text::push_str(&mut out, dir);
    crate::text::push_str(&mut out, ", id DESC");
    out
}

/// A filter of the log list: its text when not blank.
pub fn nonblank_filter(f: &Option<String>) -> (r: Option<String>)
    ensures
        opt_str_view(r) == match *f {
            Some(s) => if trim(s@).len() > 0 {
                Some(s@)
            } else {
                None
            },
            None => None,
        },
{
    match f {
        Some(s) => if is_blank(s.as_str()) {
            None
        } else {
            Some(owned(s.as_str()))
        },
        None => None,
    }
}

/// The page (at least 1), the page size (1 to 200, default 25) and the
/// offset of the first row of the log list.
pub fn log_paging(page: Option<i64>, per_page: Option<i64>) -> (r: (i64, i64, i64))
    requires
        (pages_page(page) - 1) * clamp_spec(
            match per_page {
                Some(p) => p as int,
                None => 25,
            },
            1,
            200,
        ) <= i64::MAX,
    ensures
        r.0 == pages_page(page),
        r.1 == clamp_spec(
            match per_page {
                Some(p) => p as int,
                None => 25,
            },
            1,
            200,
        ),
        r.2 == (r.0 - 1) * r.1,
{
    crate::pages::page_list_paging(page, per_page)
}

/// The log rows a bulk delete names.
#[derive(Debug)]
pub struct DeleteLogsRequest {
    pub ids: Vec<i64>,
}

} // verus!
