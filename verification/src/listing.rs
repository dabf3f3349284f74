//! What the admin lists share: the sort direction, the page number of the
//! query string, and the page size read from the `max_page_size` setting.
use vstd::prelude::*;

use crate::text::{
    parse_i64, parse_i64_exec, str_eq, to_uppercase, trim, trim_str, unicode_upper,
};

verus! {

/// The direction of an admin list: `DESC` when the `order` parameter reads
/// `DESC` in any case, else `ASC`.
pub open spec fn direction_spec(order: Option<Seq<char>>) -> Seq<char> {
    match order {
        Some(o) => if unicode_upper(o) == "DESC"@ {
            "DESC"@
        } else {
            "ASC"@
        },
        None => "ASC"@,
    }
}

pub open spec fn opt_str_view(o: Option<String>) -> Option<Seq<char>> {
    match o {
        Some(s) => Some(s@),
        None => None,
    }
}

/// The direction of an admin list.
pub fn list_direction(order: &Option<String>) -> (r: &'static str)
    ensures
        r@ == direction_spec(opt_str_view(*order)),
{
    match order {
        Some(o) => {
            let u = to_uppercase(o.as_str());
            if str_eq(u.as_str(), "DESC") {
                "DESC"
            } else {
                "ASC"
            }
        },
        None => "ASC",
    }
}

/// The 1-based page of a list: the trimmed `page` parameter when it reads as
/// a positive integer, else 1.
pub open spec fn page_spec(page: Option<Seq<char>>) -> i64 {
    match page {
        Some(p) => match parse_i64(trim(p)) {
            Some(n) => if n > 0 {
                n
            } else {
                1
            },
            None => 1,
        },
        None => 1,
    }
}

/// The 1-based page of a list.
pub fn list_page(page: &Option<String>) -> (r: i64)
    ensures
        r == page_spec(opt_str_view(*page)),
        r >= 1,
{
    match page {
        Some(p) => {
            let t = trim_str(p.as_str());
            match parse_i64_exec(t.as_str()) {
                Some(n) => if n > 0 {
                    n
                } else {
                    1
                },
                None => 1,
            }
        },
        None => 1,
    }
}

/// The page size of an admin list from the stored `max_page_size`: its
/// trimmed value when it reads as a positive integer (at most 1000), else 25.
pub open spec fn page_size_spec(raw: Option<Seq<char>>) -> i64 {
    let n = match raw {
        Some(s) => match parse_i64(trim(s)) {
            Some(n) => if n > 0 {
                n
            } else {
                25
            },
            None => 25,
        },
        None => 25,
    };
    if n > 1000 {
        1000
    } else {
        n
    }
}

/// The page size of an admin list from the stored `max_page_size`.
pub fn list_page_size(raw: &Option<String>) -> (r: i64)
    ensures
        r == page_size_spec(opt_str_view(*raw)),
        1 <= r <= 1000,
{
    let n: i64 = match raw {
        Some(s) => {
            let t = trim_str(s.as_str());
            match parse_i64_exec(t.as_str()) {
                Some(n) => if n > 0 {
                    n
                } else {
                    25
                },
                None => 25,
            }
        },
        None => 25,
    };
    if n > 1000 {
        1000
    } else {
        n
    }
}

/// The first row of a page: `(page - 1) * per_page`.
pub fn list_offset(page: i64, per_page: i64) -> (r: i64)
    requires
        page >= 1,
        per_page >= 0,
        (page - 1) * per_page <= i64::MAX,
    ensures
        r == (page - 1) * per_page,
{
    (page - 1) * per_page
}

} // verus!
