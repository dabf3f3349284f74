//! SLA plans: the list's sort keys, the field rules (a name and a positive
//! grace period), the protection of the default plan, and the mass actions.
use vstd::prelude::*;

use crate::admin_staff::{id_spec, parse_id};
use crate::error::{map_unique_violation, unique_violation_on, ApiError, ErrorKind};
use crate::listing::opt_str_view;
use crate::mass::partial_message;
use crate::text::{chars_of, owned, str_eq, trim, trim_str};

verus! {

/// The config key naming the default SLA plan.
pub const CFG_DEFAULT_SLA_ID: &'static str = "default_sla_id";

/// The default SLA plan, from the stored `default_sla_id`: its trimmed value
/// as an id, if it is one.
pub fn default_sla_id(raw: &Option<String>) -> (r: Option<i32>)
    ensures
        r == id_spec(opt_str_view(*raw)),
{
    parse_id(raw)
}

/// Query of the SLA list.
#[derive(Debug, Default)]
pub struct SlaListParams {
    pub sort: Option<String>,
    pub order: Option<String>,
}

/// The column an SLA-list sort key orders by (the name by default).
pub open spec fn sla_sort_spec(sort: Option<Seq<char>>) -> Seq<char> {
    let k = match sort {
        Some(s) => s,
        None => "name"@,
    };
    if k == "status"@ || k == "isactive"@ {
        "isactive"@
    } else if k == "grace_period"@ || k == "grace"@ {
        "grace_period"@
    } else if k == "created"@ {
        "created"@
    } else if k == "updated"@ {
        "updated"@
    } else {
        "name"@
    }
}

/// The column an SLA-list sort key orders by.
pub fn sla_sort_expr(sort: Option<&str>) -> (r: &'static str)
    ensures
        r@ == sla_sort_spec(
            match sort {
                Some(s) => Some(s@),
                None => None,
            },
        ),
{
    match sort {
        None => {
            proof {
                reveal_strlit("name");
                reveal_strlit("status");
                reveal_strlit("isactive");
                reveal_strlit("grace_period");
                reveal_strlit("grace");
                reveal_strlit("created");
                reveal_strlit("updated");
                assert("name"@[0] != "status"@[0]);
                assert("name"@[0] != "isactive"@[0]);
                assert("name"@[0] != "grace_period"@[0]);
                assert("name"@[0] != "grace"@[0]);
                assert("name"@[0] != "created"@[0]);
                assert("name"@[0] != "updated"@[0]);
            }
            "name"
        },
        Some(s) => if str_eq(s, "status") || str_eq(s, "isactive") {
            "isactive"
        } else if str_eq(s, "grace_period") || str_eq(s, "grace") {
            "grace_period"
        } else if str_eq(s, "created") {
            "created"
        } else if str_eq(s, "updated") {
            "updated"
        } else {
            "name"
        },
    }
}

/// Whether a plan is the default one (for the list's `is_default` flag).
pub fn is_default_plan(id: i32, default: Option<i32>) -> (r: bool)
    ensures
        r == (default == Some(id)),
{
    default == Some(id)
}

/// An SLA plan create / edit body.
#[derive(Debug, Default)]
pub struct SlaWriteRequest {
    pub name: String,
    pub grace_period: Option<i32>,
    pub isactive: bool,
    pub enable_priority_escalation: bool,
    pub transient: bool,
    pub disable_overdue_alerts: bool,
    pub notes: Option<String>,
}

/// The default of `isactive` and `enable_priority_escalation`.
pub fn default_true() -> (r: bool)
    ensures
        r,
{
    true
}

/// The field errors of an SLA write.
pub open spec fn sla_errors(b: SlaWriteRequest) -> Map<Seq<char>, Seq<char>> {
    let m = Map::<Seq<char>, Seq<char>>::empty();
    let m = if trim(b.name@).len() == 0 {
        m.insert("name"@, "Name required"@)
    } else {
        m
    };
    let ok = match b.grace_period {
        Some(g) => g > 0,
        None => false,
    };
    if !ok {
        m.insert("grace_period"@, "Grace period required"@)
    } else {
        m
    }
}

/// Checks an SLA write: the trimmed name and the grace period in hours, or
/// the validation error with every field's message.
pub fn validate_sla_fields(b: &SlaWriteRequest) -> (r: Result<(String, i32), ApiError>)
    ensures
        match r {
            Ok((n, g)) => sla_errors(*b).dom().len() == 0 && n@ == trim(b.name@) && b.grace_period == Some(g),
            Err(e) => e.kind == ErrorKind::Validation && e.message@ == "Please correct the errors below"@
                && e.fields@ == sla_errors(*b) && e.fields@.dom().len() > 0,
        },
{
    let mut err = ApiError::validation("Please correct the errors below");
    let name = trim_str(b.name.as_str());
    let v = chars_of(name.as_str());
    if v.len() == 0 {
        err = err.with_field("name", "Name required");
    }
    let grace = match b.grace_period {
        Some(g) => g,
        None => 0,
    };
    if b.grace_period.is_none() || grace <= 0 {
        err = err.with_field("grace_period", "Grace period required");
    }
    if !err.fields.is_empty() {
        return Err(err);
    }
    Ok((name, grace))
}

/// The answer to a failed SLA write: a duplicate name is a 422 on `name`,
/// anything else a 500.
pub fn map_sla_write_error(code: &Option<String>, constraint: &Option<String>) -> (r: ApiError)
    ensures
        if unique_violation_on(opt_str_view(*code), opt_str_view(*constraint), "sla_name_key"@) {
            r.kind == ErrorKind::Validation && r.message@ == "An SLA plan with this name already exists"@
                && r.fields@ == map!["name"@ => "An SLA plan with this name already exists"@]
        } else {
            r.is(ErrorKind::Internal, "Could not save the SLA plan"@)
        },
{
    map_unique_violation(
        code,
        constraint,
        "sla_name_key",
        "name",
        "An SLA plan with this name already exists",
        "Could not save the SLA plan",
    )
}

/// Where a deleted plan's tickets go: the default plan, unless none is
/// configured or it is the plan being deleted.
pub fn sla_rehome_target(id: i32, default: Option<i32>) -> (r: Result<i32, ApiError>)
    ensures
        match default {
            None => r matches Err(e) && e.is(
                ErrorKind::Validation,
                "No default SLA plan is configured, so a plan cannot be deleted (tickets have nowhere to re-home)."@,
            ),
            Some(d) => if d == id {
                r matches Err(e) && e.is(ErrorKind::Validation, "The default SLA plan cannot be deleted."@)
            } else {
                r == Ok::<i32, ApiError>(d)
            },
        },
{
    match default {
        None => Err(
            ApiError::validation(
                "No default SLA plan is configured, so a plan cannot be deleted (tickets have nowhere to re-home).",
            ),
        ),
        Some(d) => if d == id {
            Err(ApiError::validation("The default SLA plan cannot be deleted."))
        } else {
            Ok(d)
        },
    }
}

/// A mass action on SLA plans.
#[derive(Debug)]
pub struct MassSlaRequest {
    pub action: String,
    pub ids: Vec<i32>,
}

/// The plans a mass delete removes: every selected plan but the default one,
/// and none at all when no default is configured.
pub open spec fn sla_delete_targets(ids: Seq<i32>, default: Option<i32>) -> Seq<i32> {
    match default {
        Some(d) => ids.filter(|x: i32| x != d),
        None => Seq::<i32>::empty(),
    }
}

/// The plans a mass delete removes.
pub fn mass_sla_delete_targets(ids: &Vec<i32>, default: Option<i32>) -> (r: Vec<i32>)
    ensures
        r@ == sla_delete_targets(ids@, default),
{
    match default {
        Some(d) => crate::admin_staff::delete_targets(ids, d),
        None => Vec::new(),
    }
}

/// The message of an SLA mass action that changed `n` of the `requested`
/// plans.
pub open spec fn mass_sla_message_spec(action: Seq<char>, n: int, requested: int) -> Seq<char> {
    if action == "activate"@ {
        "Selected SLA plans activated"@
    } else if action == "disable"@ {
        "Selected SLA plans disabled"@
    } else {
        partial_message(
            n,
            requested,
            "Selected SLA plans deleted successfully"@,
            "Unable to delete selected SLA plans (the default plan cannot be deleted)"@,
            "selected SLA plans deleted"@,
        )
    }
}

/// The message of an SLA mass action.
pub fn mass_sla_message(action: &str, n: i64, requested: i64) -> (r: String)
    ensures
        r@ == mass_sla_message_spec(action@, n as int, requested as int),
{
    if str_eq(action, "activate") {
        owned("Selected SLA plans activated")
    } else if str_eq(action, "disable") {
        owned("Selected SLA plans disabled")
    } else {
        crate::mass::outcome_message(
            n,
            requested,
            "Selected SLA plans deleted successfully",
            "Unable to delete selected SLA plans (the default plan cannot be deleted)",
            "selected SLA plans deleted",
        )
    }
}

/// A mass delete never removes the default plan: every plan it removes is
/// a selected one other than the default, and with no default it removes none.
pub proof fn law_mass_delete_spares_default_plan(ids: Seq<i32>, default: Option<i32>)
    ensures
        forall|x: i32| #[trigger] sla_delete_targets(ids, default).contains(x) ==> ids.contains(x) && default != Some(x),
{
    match default {
        Some(d) => {
            assert forall|x: i32| #[trigger] sla_delete_targets(ids, default).contains(x) implies ids.contains(x)
                && default != Some(x) by {
                ids.lemma_filter_contains_rev(|y: i32| y != d, x);
            }
        },
        None => {},
    }
}

} // verus!
