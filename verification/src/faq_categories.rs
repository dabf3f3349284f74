//! FAQ categories: the name rule and the mass actions. Every route is open
//! to administrators and to staff holding the FAQ capability.
use vstd::prelude::*;

use crate::error::{ApiError, ErrorKind};
use crate::text::{chars_of, str_eq, trim, trim_str};

verus! {

/// The capability that opens the FAQ-category routes to non-admin staff.
pub const CAP: &'static str = "can_manage_faq";

/// A FAQ-category create / edit body.
#[derive(Debug, Default)]
pub struct CategoryWriteRequest {
    pub name: String,
    pub ispublic: bool,
    pub description: Option<String>,
    pub notes: Option<String>,
}

/// The default of `ispublic` when a body leaves it out.
pub fn default_true() -> (r: bool)
    ensures
        r,
{
    true
}

/// Checks a category name: the trimmed name, or a refusal for a blank one.
pub fn validate_name(b: &CategoryWriteRequest) -> (r: Result<String, ApiError>)
    ensures
        match r {
            Ok(n) => trim(b.name@).len() > 0 && n@ == trim(b.name@),
            Err(e) => trim(b.name@).len() == 0 && e.kind == ErrorKind::Validation && e.message@
                == "Category name required"@ && e.fields@ == map!["name"@ => "Category name required"@],
        },
{
    let name = trim_str(b.name.as_str());
    let v = chars_of(name.as_str());
    if v.len() == 0 {
        let e = ApiError::validation("Category name required").with_field("name", "Category name required");
        assert(e.fields@ =~= map!["name"@ => "Category name required"@]);
        return Err(e);
    }
    Ok(name)
}

/// A mass action on FAQ categories.
#[derive(Debug)]
pub struct MassCategoryRequest {
    pub action: String,
    pub ids: Vec<i32>,
}

/// The message of a category mass action.
pub open spec fn mass_categories_message_spec(action: Seq<char>) -> Seq<char> {
    if action == "delete"@ {
        "Selected categories deleted"@
    } else if action == "makepublic"@ {
        "Selected categories made public"@
    } else {
        "Selected categories made internal"@
    }
}

/// The message of a category mass action.
pub fn mass_categories_message(action: &str) -> (r: &'static str)
    ensures
        r@ == mass_categories_message_spec(action@),
{
    if str_eq(action, "delete") {
        "Selected categories deleted"
    } else if str_eq(action, "makepublic") {
        "Selected categories made public"
    } else {
        "Selected categories made internal"
    }
}

} // verus!
