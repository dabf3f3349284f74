//! Departments: the list's sort keys, the field rules (a name of at least four
//! characters, a selected email account and template), the protections of the
//! system default department, and the delete / mass-action decisions.
use vstd::prelude::*;

use crate::admin_staff::{id_spec, parse_id};
use crate::error::{map_unique_violation, unique_violation_on, ApiError, ErrorKind};
use crate::listing::opt_str_view;
use crate::mass::partial_message;
use crate::text::{chars_of, owned, str_eq, trim, trim_str};

verus! {

/// The config key naming the system default department.
pub const CFG_DEFAULT_DEPT_ID: &'static str = "default_dept_id";

/// The system default department, from the stored `default_dept_id`: its
/// trimmed value as an id, if it is one.
pub fn default_dept_id(raw: &Option<String>) -> (r: Option<i32>)
    ensures
        r == id_spec(opt_str_view(*raw)),
{
    parse_id(raw)
}

/// Query of the department list.
#[derive(Debug, Default)]
pub struct DeptListParams {
    pub sort: Option<String>,
    pub order: Option<String>,
}

/// The column a department-list sort key orders by (the name by default).
pub open spec fn dept_sort_spec(sort: Option<Seq<char>>) -> Seq<char> {
    let k = match sort {
        Some(s) => s,
        None => "name"@,
    };
    if k == "status"@ || k == "ispublic"@ || k == "type"@ {
        "d.ispublic"@
    } else if k == "users"@ {
        "user_count"@
    } else if k == "updated"@ {
        "d.updated"@
    } else if k == "created"@ {
        "d.created"@
    } else {
        "d.dept_name"@
    }
}

/// The column a department-list sort key orders by.
pub fn dept_sort_expr(sort: Option<&str>) -> (r: &'static str)
    ensures
        r@ == dept_sort_spec(
            match sort {
                Some(s) => Some(s@),
                None => None,
            },
        ),
{
    match sort {
        None => {
            proof {
                reveal_strlit("name");
                reveal_strlit("status");
                reveal_strlit("ispublic");
                reveal_strlit("type");
                reveal_strlit("users");
                reveal_strlit("updated");
                reveal_strlit("created");
                assert("name"@[0] != "status"@[0]);
                assert("name"@[0] != "ispublic"@[0]);
                assert("name"@[0] != "type"@[0]);
                assert("name"@[0] != "users"@[0]);
                assert("name"@[0] != "updated"@[0]);
                assert("name"@[0] != "created"@[0]);
            }
            "d.dept_name"
        },
        Some(s) => if str_eq(s, "status") || str_eq(s, "ispublic") || str_eq(s, "type") {
            "d.ispublic"
        } else if str_eq(s, "users") {
            "user_count"
        } else if str_eq(s, "updated") {
            "d.updated"
        } else if str_eq(s, "created") {
            "d.created"
        } else {
            "d.dept_name"
        },
    }
}

/// A department create / edit body.
#[derive(Debug, Default)]
pub struct DeptWriteRequest {
    pub name: String,
    pub ispublic: bool,
    pub email_id: Option<i32>,
    pub tpl_id: Option<i32>,
    pub sla_id: Option<i32>,
    pub manager_id: Option<i32>,
    pub group_membership: Option<i32>,
    pub ticket_auto_response: bool,
    pub message_auto_response: bool,
    pub autoresp_email_id: Option<i32>,
    pub dept_signature: Option<String>,
    pub group_ids: Vec<i32>,
}

/// The default of `ispublic` and of the auto-response switches.
pub fn default_true() -> (r: bool)
    ensures
        r,
{
    true
}

/// The checked, trimmed fields of a department write.
#[derive(Debug)]
pub struct DeptFields {
    pub name: String,
    pub email_id: i32,
    pub tpl_id: i32,
}

/// A selection: a positive id (zero is the form's empty option).
pub open spec fn selected(id: Option<i32>) -> Option<i32> {
    match id {
        Some(v) => if v > 0 {
            Some(v)
        } else {
            None
        },
        None => None,
    }
}

/// A selection, if it is one.
pub fn selected_id(id: Option<i32>) -> (r: Option<i32>)
    ensures
        r == selected(id),
{
    match id {
        Some(v) => if v > 0 {
            Some(v)
        } else {
            None
        },
        None => None,
    }
}

/// The field errors of a department write.
pub open spec fn dept_errors(b: DeptWriteRequest) -> Map<Seq<char>, Seq<char>> {
    let m = Map::<Seq<char>, Seq<char>>::empty();
    let n = trim(b.name@);
    let m = if n.len() == 0 {
        m.insert("name"@, "Name required"@)
    } else if n.len() < 4 {
        m.insert("name"@, "Name must be at least 4 chars."@)
    } else {
        m
    };
    let m = if selected(b.email_id).is_none() {
        m.insert("emailId"@, "Email selection required"@)
    } else {
        m
    };
    if selected(b.tpl_id).is_none() {
        m.insert("tplId"@, "Template selection required"@)
    } else {
        m
    }
}

/// Checks the required department fields: the trimmed name and the two
/// selections, or the validation error carrying every field's message.
pub fn validate_dept_fields(b: &DeptWriteRequest) -> (r: Result<DeptFields, ApiError>)
    ensures
        match r {
            Ok(f) => dept_errors(*b).dom().len() == 0 && f.name@ == trim(b.name@) && Some(f.email_id) == selected(
                b.email_id,
            ) && Some(f.tpl_id) == selected(b.tpl_id),
            Err(e) => e.kind == ErrorKind::Validation && e.message@ == "Please correct the errors below"@
                && e.fields@ == dept_errors(*b) && e.fields@.dom().len() > 0,
        },
{
    let mut err = ApiError::validation("Please correct the errors below");
    let name = trim_str(b.name.as_str());
    let v = chars_of(name.as_str());
    if v.len() == 0 {
        err = err.with_field("name", "Name required");
    } else if v.len() < 4 {
        err = err.with_field("name", "Name must be at least 4 chars.");
    }
    let email_id = selected_id(b.email_id);
    if email_id.is_none() {
        err = err.with_field("emailId", "Email selection required");
    }
    let tpl_id = selected_id(b.tpl_id);
    if tpl_id.is_none() {
        err = err.with_field("tplId", "Template selection required");
    }
    if !err.fields.is_empty() {
        return Err(err);
    }
    match (email_id, tpl_id) {
        (Some(e), Some(t)) => Ok(DeptFields { name, email_id: e, tpl_id: t }),
        _ => Err(err),
    }
}

/// The answer to a failed department write: a duplicate name is a 422 on
/// `name`, anything else a 500.
pub fn map_dept_write_error(code: &Option<String>, constraint: &Option<String>) -> (r: ApiError)
    ensures
        if unique_violation_on(opt_str_view(*code), opt_str_view(*constraint), "department_dept_name_key"@) {
            r.kind == ErrorKind::Validation && r.message@ == "A department with this name already exists"@
                && r.fields@ == map!["name"@ => "A department with this name already exists"@]
        } else {
            r.is(ErrorKind::Internal, "Could not save the department"@)
        },
{
    map_unique_violation(
        code,
        constraint,
        "department_dept_name_key",
        "name",
        "A department with this name already exists",
        "Could not save the department",
    )
}

/// The system default department cannot be made private.
pub fn check_default_stays_public(ispublic: bool, default: Option<i32>, id: i32) -> (r: Result<(), ApiError>)
    ensures
        r.is_ok() <==> (ispublic || default != Some(id)),
        r matches Err(e) ==> e.is(ErrorKind::Validation, "System default department cannot be private"@),
{
    if !ispublic && default == Some(id) {
        Err(ApiError::validation("System default department cannot be private"))
    } else {
        Ok(())
    }
}

/// Where a deleted department's tickets and topics go: the default
/// department, unless none is configured or it is the one being deleted.
pub fn delete_rehome_target(id: i32, default: Option<i32>) -> (r: Result<i32, ApiError>)
    ensures
        match default {
            None => r matches Err(e) && e.is(
                ErrorKind::Validation,
                "No default department is configured, so a department cannot be deleted."@,
            ),
            Some(d) => if d == id {
                r matches Err(e) && e.is(ErrorKind::Validation, "The default department cannot be deleted."@)
            } else {
                r == Ok::<i32, ApiError>(d)
            },
        },
{
    match default {
        None => Err(
            ApiError::validation("No default department is configured, so a department cannot be deleted."),
        ),
        Some(d) => if d == id {
            Err(ApiError::validation("The default department cannot be deleted."))
        } else {
            Ok(d)
        },
    }
}

/// A department with home staff cannot be deleted.
pub fn guard_home_staff(count: i64) -> (r: Result<(), ApiError>)
    ensures
        r.is_ok() <==> count <= 0,
        r matches Err(e) ==> e.is(ErrorKind::Validation, "Department has staff members; reassign them first"@),
{
    if count > 0 {
        Err(ApiError::validation("Department has staff members; reassign them first"))
    } else {
        Ok(())
    }
}

/// A mass action on departments.
#[derive(Debug)]
pub struct MassDeptRequest {
    pub action: String,
    pub ids: Vec<i32>,
}

/// The departments a mass delete removes, or the message it answers with when
/// it removes none: no default department configured, or a selected
/// department still has home staff (`home_staff`, consulted only when a
/// default exists). The default department itself is skipped.
pub fn mass_dept_delete(ids: &Vec<i32>, default: Option<i32>, home_staff: i64) -> (r: Result<Vec<i32>, &'static str>)
    ensures
        match default {
            None => r matches Err(m) && m@
                == "No default department is configured, so departments cannot be deleted."@,
            Some(d) => if home_staff > 0 {
                r matches Err(m) && m@ == "Department has staff members; reassign them first"@
            } else {
                r matches Ok(v) && v@ == ids@.filter(|x: i32| x != d)
            },
        },
{
    match default {
        None => Err("No default department is configured, so departments cannot be deleted."),
        Some(d) => if home_staff > 0 {
            Err("Department has staff members; reassign them first")
        } else {
            Ok(crate::admin_staff::delete_targets(ids, d))
        },
    }
}

/// The message of a department mass action that changed `n` of the
/// `requested` departments.
pub open spec fn mass_dept_message_spec(action: Seq<char>, n: int, requested: int) -> Seq<char> {
    if action == "makepublic"@ {
        "Selected departments made public"@
    } else if action == "makeprivate"@ {
        "Selected departments made internal"@
    } else {
        partial_message(
            n,
            requested,
            "Selected departments deleted successfully"@,
            "Unable to delete selected departments (the default department cannot be deleted)"@,
            "selected departments deleted"@,
        )
    }
}

/// The message of a department mass action.
pub fn mass_dept_message(action: &str, n: i64, requested: i64) -> (r: String)
    ensures
        r@ == mass_dept_message_spec(action@, n as int, requested as int),
{
    if str_eq(action, "makepublic") {
        owned("Selected departments made public")
    } else if str_eq(action, "makeprivate") {
        owned("Selected departments made internal")
    } else {
        crate::mass::outcome_message(
            n,
            requested,
            "Selected departments deleted successfully",
            "Unable to delete selected departments (the default department cannot be deleted)",
            "selected departments deleted",
        )
    }
}

/// A mass delete never removes the default department.
pub proof fn law_mass_delete_spares_default(ids: Seq<i32>, d: i32)
    ensures
        !ids.filter(|x: i32| x != d).contains(d),
{
    crate::admin_staff::law_delete_spares_the_acting_admin(ids, d);
}

} // verus!
