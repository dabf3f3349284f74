//! Teams: the list's sort keys, the name rule, the lead (always one of the
//! team's current members), and the mass actions.
use vstd::prelude::*;

use crate::error::{map_unique_violation, unique_violation_on, ApiError, ErrorKind};
use crate::listing::opt_str_view;
use crate::text::{chars_of, str_eq, trim, trim_str};

verus! {

/// Query of the team list.
#[derive(Debug, Default)]
pub struct TeamListParams {
    pub sort: Option<String>,
    pub order: Option<String>,
}

/// The column a team-list sort key orders by (the name by default).
pub open spec fn team_sort_spec(sort: Option<Seq<char>>) -> Seq<char> {
    let k = match sort {
        Some(s) => s,
        None => "name"@,
    };
    if k == "status"@ || k == "isenabled"@ {
        "t.isenabled"@
    } else if k == "members"@ {
        "member_count"@
    } else if k == "updated"@ {
        "t.updated"@
    } else if k == "created"@ {
        "t.created"@
    } else {
        "t.name"@
    }
}

/// The column a team-list sort key orders by.
pub fn team_sort_expr(sort: Option<&str>) -> (r: &'static str)
    ensures
        r@ == team_sort_spec(
            match sort {
                Some(s) => Some(s@),
                None => None,
            },
        ),
{
    match sort {
        None => {
            proof {
                reveal_strlit("name");
                reveal_strlit("status");
                reveal_strlit("isenabled");
                reveal_strlit("members");
                reveal_strlit("updated");
                reveal_strlit("created");
                assert("name"@[0] != "status"@[0]);
                assert("name"@[0] != "isenabled"@[0]);
                assert("name"@[0] != "members"@[0]);
                assert("name"@[0] != "updated"@[0]);
                assert("name"@[0] != "created"@[0]);
            }
            "t.name"
        },
        Some(s) => if str_eq(s, "status") || str_eq(s, "isenabled") {
            "t.isenabled"
        } else if str_eq(s, "members") {
            "member_count"
        } else if str_eq(s, "updated") {
            "t.updated"
        } else if str_eq(s, "created") {
            "t.created"
        } else {
            "t.name"
        },
    }
}

/// A team create / edit body. Members are only removed here (they are added
/// from the staff profile).
#[derive(Debug, Default)]
pub struct TeamWriteRequest {
    pub name: String,
    pub isenabled: bool,
    pub lead_id: Option<i32>,
    pub noalerts: bool,
    pub notes: Option<String>,
    pub remove_member_ids: Vec<i32>,
}

/// The default of `isenabled` when a body leaves it out.
pub fn default_true() -> (r: bool)
    ensures
        r,
{
    true
}

/// Checks a team name: the trimmed name, or a refusal for a blank one or one
/// shorter than three characters.
pub fn validate_team_name(b: &TeamWriteRequest) -> (r: Result<String, ApiError>)
    ensures
        match r {
            Ok(n) => trim(b.name@).len() >= 3 && n@ == trim(b.name@),
            Err(e) => e.kind == ErrorKind::Validation && if trim(b.name@).len() == 0 {
                e.message@ == "Team name required"@ && e.fields@ == map!["name"@ => "Team name required"@]
            } else {
                trim(b.name@).len() < 3 && e.message@ == "Team name must be at least 3 chars."@ && e.fields@
                    == map!["name"@ => "Team name must be at least 3 chars."@]
            },
        },
{
    let name = trim_str(b.name.as_str());
    let v = chars_of(name.as_str());
    if v.len() == 0 {
        let e = ApiError::validation("Team name required").with_field("name", "Team name required");
        assert(e.fields@ =~= map!["name"@ => "Team name required"@]);
        return Err(e);
    }
    if v.len() < 3 {
        let e = ApiError::validation("Team name must be at least 3 chars.").with_field(
            "name",
            "Team name must be at least 3 chars.",
        );
        assert(e.fields@ =~= map!["name"@ => "Team name must be at least 3 chars."@]);
        return Err(e);
    }
    Ok(name)
}

/// The answer to a failed team write: a duplicate name is a 422 on `name`,
/// anything else a 500.
pub fn map_team_write_error(code: &Option<String>, constraint: &Option<String>) -> (r: ApiError)
    ensures
        if unique_violation_on(opt_str_view(*code), opt_str_view(*constraint), "team_name_key"@) {
            r.kind == ErrorKind::Validation && r.message@ == "Team name already exists"@ && r.fields@ == map![
                "name"@ => "Team name already exists"@,
            ]
        } else {
            r.is(ErrorKind::Internal, "Could not save the team"@)
        },
{
    map_unique_violation(code, constraint, "team_name_key", "name", "Team name already exists", "Could not save the team")
}

fn contains_id(ids: &[i32], x: i32) -> (r: bool)
    ensures
        r == ids@.contains(x),
{
    let mut i: usize = 0;
    while i < ids.len()
        invariant
            i <= ids.len(),
            forall|j: int| 0 <= j < i ==> ids@[j] != x,
        decreases ids.len() - i,
    {
        if ids[i] == x {
            assert(ids@[i as int] == x);
            return true;
        }
        i = i + 1;
    }
    false
}

/// The team lead after a save, given the members left after removals: a
/// supplied lead (positive) must be one of them, else the save is refused;
/// with none supplied, the existing lead stays only while still a member.
pub open spec fn lead_spec(supplied: Option<i32>, existing: Option<i32>, members: Seq<i32>) -> Option<Option<i32>> {
    match crate::departments::selected(supplied) {
        Some(l) => if members.contains(l) {
            Some(Some(l))
        } else {
            None
        },
        None => match existing {
            Some(p) => if members.contains(p) {
                Some(Some(p))
            } else {
                Some(None)
            },
            None => Some(None),
        },
    }
}

/// Resolves the team lead after a save.
pub fn resolve_lead(supplied: Option<i32>, existing: Option<i32>, current_members: &[i32]) -> (r: Result<
    Option<i32>,
    ApiError,
>)
    ensures
        match r {
            Ok(l) => lead_spec(supplied, existing, current_members@) == Some(l),
            Err(e) => lead_spec(supplied, existing, current_members@).is_none() && e.kind == ErrorKind::Validation
                && e.message@ == "Team lead must be a team member"@ && e.fields@ == map![
                "leadId"@ => "Team lead must be a team member"@,
            ],
        },
        forall|l: i32|
            supplied == Some(l) && l > 0 && current_members@.contains(l) ==> r.is_ok() && r.unwrap() == Some(l),
        forall|l: i32| supplied == Some(l) && l > 0 && !current_members@.contains(l) ==> r.is_err(),
{
    proof {
        law_supplied_lead_is_taken(supplied, existing, current_members@);
    }
    match crate::departments::selected_id(supplied) {
        Some(lead) => {
            if contains_id(current_members, lead) {
                Ok(Some(lead))
            } else {
                let e = ApiError::validation("Team lead must be a team member").with_field(
                    "leadId",
                    "Team lead must be a team member",
                );
                assert(e.fields@ =~= map!["leadId"@ => "Team lead must be a team member"@]);
                Err(e)
            }
        },
        None => match existing {
            Some(prev) => if contains_id(current_members, prev) {
                Ok(Some(prev))
            } else {
                Ok(None)
            },
            None => Ok(None),
        },
    }
}

/// A supplied lead decides the lead, whatever the stored one was: a positive
/// supplied id that is a current member becomes the lead, one that is not is
/// refused; only without a supplied lead does the stored one count, and then
/// only while it is still a member.
pub proof fn law_supplied_lead_is_taken(supplied: Option<i32>, existing: Option<i32>, members: Seq<i32>)
    ensures
        forall|l: i32|
            supplied == Some(l) && l > 0 && members.contains(l) ==> lead_spec(supplied, existing, members) == Some(
                Some(l),
            ),
        forall|l: i32|
            supplied == Some(l) && l > 0 && !members.contains(l) ==> lead_spec(supplied, existing, members).is_none(),
        (supplied.is_none() || supplied.unwrap() <= 0) ==> lead_spec(supplied, existing, members) == Some(
            match existing {
                Some(p) => if members.contains(p) {
                    Some(p)
                } else {
                    None::<i32>
                },
                None => None::<i32>,
            },
        ),
{
}

/// A team's lead is always one of its current members, whatever was
/// submitted or stored before.
pub proof fn law_lead_is_a_member(supplied: Option<i32>, existing: Option<i32>, members: Seq<i32>)
    ensures
        lead_spec(supplied, existing, members) matches Some(Some(l)) ==> members.contains(l),
{
}

/// A mass action on teams.
#[derive(Debug)]
pub struct MassTeamRequest {
    pub action: String,
    pub ids: Vec<i32>,
}

/// The message of a team mass action.
pub open spec fn mass_teams_message_spec(action: Seq<char>) -> Seq<char> {
    if action == "enable"@ {
        "Selected teams enabled"@
    } else if action == "disable"@ {
        "Selected teams disabled"@
    } else {
        "Selected teams deleted"@
    }
}

/// The message of a team mass action.
pub fn mass_teams_message(action: &str) -> (r: &'static str)
    ensures
        r@ == mass_teams_message_spec(action@),
{
    if str_eq(action, "enable") {
        "Selected teams enabled"
    } else if str_eq(action, "disable") {
        "Selected teams disabled"
    } else {
        "Selected teams deleted"
    }
}

} // verus!
