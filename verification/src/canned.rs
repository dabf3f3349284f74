//! Canned responses offered on a ticket: the base URL their variables are
//! rendered against.
use vstd::prelude::*;

use crate::text::{is_blank, owned, trim};

verus! {

/// The config key of the helpdesk base URL.
pub const CFG_HELPDESK_URL: &'static str = "helpdesk_url";

/// The base URL used when none is configured.
pub const DEFAULT_HELPDESK_URL: &'static str = "http://localhost:3702";

/// The helpdesk base URL: the configured one when not blank, else the
/// default.
pub fn helpdesk_base_url(configured: Option<String>) -> (r: String)
    ensures
        r@ == match configured {
            Some(u) => if trim(u@).len() > 0 {
                u@
            } else {
                DEFAULT_HELPDESK_URL@
            },
            None => DEFAULT_HELPDESK_URL@,
        },
{
    match configured {
        Some(u) => if is_blank(u.as_str()) {
            owned(DEFAULT_HELPDESK_URL)
        } else {
            u
        },
        None => owned(DEFAULT_HELPDESK_URL),
    }
}

} // verus!
