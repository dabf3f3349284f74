//! Permission groups: the canonical eleven permission flags, the list's sort
//! keys, the name rule (non-blank, at least three characters, unique), the
//! department-access set, and the mass enable / disable / delete decisions.
use vstd::prelude::*;

use crate::error::{ApiError, ErrorKind};
use crate::mass::strictly_increasing;
use crate::text::{int_str, int_string, owned, push_str, str_eq, trim, trim_str};

verus! {

/// The canonical eleven permission flags, in storage-key order.
pub open spec fn flag_keys_spec() -> Seq<Seq<char>> {
    seq![
        "can_create_tickets"@,
        "can_edit_tickets"@,
        "can_post_reply"@,
        "can_close_tickets"@,
        "can_assign_tickets"@,
        "can_transfer_tickets"@,
        "can_delete_tickets"@,
        "can_manage_faq"@,
        "can_manage_premade"@,
        "can_ban_emails"@,
        "can_view_staff_stats"@,
    ]
}

/// The canonical eleven permission flags, in storage-key order. Both the
/// write and the read of a group iterate this list.
pub fn flag_keys() -> (r: [&'static str; 11])
    ensures
        r@.map_values(|k: &'static str| k@) == flag_keys_spec(),
{
    let r = [
        "can_create_tickets",
        "can_edit_tickets",
        "can_post_reply",
        "can_close_tickets",
        "can_assign_tickets",
        "can_transfer_tickets",
        "can_delete_tickets",
        "can_manage_faq",
        "can_manage_premade",
        "can_ban_emails",
        "can_view_staff_stats",
    ];
    assert(r@.map_values(|k: &'static str| k@) =~= flag_keys_spec());
    r
}

/// Query of the group list.
#[derive(Debug, Default)]
pub struct GroupListParams {
    pub sort: Option<String>,
    pub order: Option<String>,
}

/// The column a group-list sort key orders by (the name by default).
pub open spec fn group_sort_spec(sort: Option<Seq<char>>) -> Seq<char> {
    let k = match sort {
        Some(s) => s,
        None => "name"@,
    };
    if k == "status"@ {
        "g.group_enabled"@
    } else if k == "users"@ {
        "member_count"@
    } else if k == "depts"@ {
        "dept_count"@
    } else if k == "created"@ {
        "g.created"@
    } else if k == "updated"@ {
        "g.updated"@
    } else {
        "g.group_name"@
    }
}

/// The column a group-list sort key orders by.
pub fn group_sort_expr(sort: Option<&str>) -> (r: &'static str)
    ensures
        r@ == group_sort_spec(
            match sort {
                Some(s) => Some(s@),
                None => None,
            },
        ),
{
    match sort {
        None => {
            proof {
                reveal_strlit("name");
                reveal_strlit("status");
                reveal_strlit("users");
                reveal_strlit("depts");
                reveal_strlit("created");
                reveal_strlit("updated");
                assert("name"@[0] != "status"@[0]);
                assert("name"@[0] != "users"@[0]);
                assert("name"@[0] != "depts"@[0]);
                assert("name"@[0] != "created"@[0]);
                assert("name"@[0] != "updated"@[0]);
            }
            "g.group_name"
        },
        Some(s) => if str_eq(s, "status") {
            "g.group_enabled"
        } else if str_eq(s, "users") {
            "member_count"
        } else if str_eq(s, "depts") {
            "dept_count"
        } else if str_eq(s, "created") {
            "g.created"
        } else if str_eq(s, "updated") {
            "g.updated"
        } else {
            "g.group_name"
        },
    }
}

/// A group create / edit body. `flags` carries the submitted flag values by
/// storage key.
#[derive(Debug)]
pub struct GroupWriteRequest {
    pub name: String,
    pub enabled: bool,
    pub flags: Vec<(String, bool)>,
    pub dept_ids: Vec<i32>,
    pub notes: Option<String>,
}

/// The default of `enabled` when the body leaves it out.
pub fn default_true() -> (r: bool)
    ensures
        r,
{
    true
}

/// The value a flag list gives `key`: the last entry naming it, `false` when
/// none does.
pub open spec fn flag_value(flags: Seq<(String, bool)>, key: Seq<char>) -> bool
    decreases flags.len(),
{
    if flags.len() == 0 {
        false
    } else if flags.last().0@ == key {
        flags.last().1
    } else {
        flag_value(flags.drop_last(), key)
    }
}

/// The eleven flag values of a request, in storage-key order (a missing flag
/// is `false`).
pub fn resolve_flags(flags: &Vec<(String, bool)>) -> (r: [bool; 11])
    ensures
        forall|i: int| 0 <= i < 11 ==> r@[i] == flag_value(flags@, #[trigger] flag_keys_spec()[i]),
{
    let keys = flag_keys();
    let mut out = [false;11];
    let mut i: usize = 0;
    while i < 11
        invariant
            i <= 11,
            keys@.map_values(|k: &'static str| k@) == flag_keys_spec(),
            forall|j: int| 0 <= j < i ==> out@[j] == flag_value(flags@, #[trigger] flag_keys_spec()[j]),
        decreases 11 - i,
    {
        let k = keys[i];
        assert(flag_keys_spec()[i as int] == k@);
        let v = lookup_flag(flags, k);
        out[i] = v;
        i = i + 1;
    }
    out
}

fn lookup_flag(flags: &Vec<(String, bool)>, key: &str) -> (r: bool)
    ensures
        r == flag_value(flags@, key@),
{
    let mut i: usize = flags.len();
    assert(flags@.take(flags.len() as int) =~= flags@);
    while i > 0
        invariant
            i <= flags.len(),
            flag_value(flags@, key@) == flag_value(flags@.take(i as int), key@),
        decreases i,
    {
        assert(flags@.take(i as int).drop_last() =~= flags@.take(i - 1));
        if str_eq(flags[i - 1].0.as_str(), key) {
            return flags[i - 1].1;
        }
        i = i - 1;
    }
    false
}

/// The shape rule of a group name (before the uniqueness check): the trimmed
/// name, or the refusal.
pub open spec fn group_name_shape_ok(name: Seq<char>) -> bool {
    trim(name).len() >= 3
}

/// Checks the shape of a group name: the trimmed name, or a refusal for a
/// blank name or one shorter than three characters.
pub fn group_name_shape(name: &str) -> (r: Result<String, ApiError>)
    ensures
        match r {
            Ok(n) => group_name_shape_ok(name@) && n@ == trim(name@),
            Err(e) => !group_name_shape_ok(name@) && e.kind == ErrorKind::Validation && if trim(name@).len() == 0 {
                e.message@ == "Group name required"@ && e.fields@ == map![
                    "name"@ => "Group name required"@,
                ]
            } else {
                e.message@ == "Group name must be at least 3 chars."@ && e.fields@ == map![
                    "name"@ => "Group name must be at least 3 chars."@,
                ]
            },
        },
{
    let n = trim_str(name);
    let v = crate::text::chars_of(n.as_str());
    if v.len() == 0 {
        let e = ApiError::validation("Group name required").with_field("name", "Group name required");
        assert(e.fields@ =~= map!["name"@ => "Group name required"@]);
        return Err(e);
    }
    if v.len() < 3 {
        let e = ApiError::validation("Group name must be at least 3 chars.").with_field(
            "name",
            "Group name must be at least 3 chars.",
        );
        assert(e.fields@ =~= map!["name"@ => "Group name must be at least 3 chars."@]);
        return Err(e);
    }
    Ok(n)
}

/// Checks a group name: the shape rule, then uniqueness. `clash` says whether
/// another group already has the trimmed name (compared case-insensitively).
pub fn validate_group_name(name: &str, clash: bool) -> (r: Result<String, ApiError>)
    ensures
        match r {
            Ok(n) => group_name_shape_ok(name@) && !clash && n@ == trim(name@),
            Err(e) => e.kind == ErrorKind::Validation && if !group_name_shape_ok(name@) {
                e.fields@.dom() == set!["name"@]
            } else {
                clash && e.message@ == "Group name already exists"@ && e.fields@ == map![
                    "name"@ => "Group name already exists"@,
                ]
            },
        },
{
    match group_name_shape(name) {
        Err(e) => {
            assert(e.fields@.dom() =~= set!["name"@]);
            Err(e)
        },
        Ok(n) => {
            if clash {
                let e = ApiError::validation("Group name already exists").with_field(
                    "name",
                    "Group name already exists",
                );
                assert(e.fields@ =~= map!["name"@ => "Group name already exists"@]);
                Err(e)
            } else {
                Ok(n)
            }
        },
    }
}

/// The ids of a list with repeats dropped, each kept where it first appears.
pub open spec fn first_occurrences(s: Seq<i32>) -> Seq<i32>
    decreases s.len(),
{
    if s.len() == 0 {
        Seq::empty()
    } else {
        let prev = first_occurrences(s.drop_last());
        if prev.contains(s.last()) {
            prev
        } else {
            prev.push(s.last())
        }
    }
}

/// The department-access rows a group gets: each submitted department once,
/// in the order first submitted.
pub fn distinct_dept_ids(ids: &Vec<i32>) -> (r: Vec<i32>)
    ensures
        r@ == first_occurrences(ids@),
{
    let mut out: Vec<i32> = Vec::new();
    let mut i: usize = 0;
    while i < ids.len()
        invariant
            i <= ids.len(),
            out@ == first_occurrences(ids@.take(i as int)),
        decreases ids.len() - i,
    {
        let x = ids[i];
        assert(ids@.take(i + 1).drop_last() =~= ids@.take(i as int));
        let mut seen = false;
        let mut j: usize = 0;
        while j < out.len()
            invariant
                j <= out.len(),
                seen <==> exists|k: int| 0 <= k < j && out@[k] == x,
            decreases out.len() - j,
        {
            if out[j] == x {
                seen = true;
            }
            j = j + 1;
        }
        if !seen {
            out.push(x);
        }
        i = i + 1;
    }
    assert(ids@.take(ids.len() as int) =~= ids@);
    out
}

/// A distinct list has no repeats.
pub proof fn lemma_first_occurrences_distinct(s: Seq<i32>)
    ensures
        first_occurrences(s).no_duplicates(),
        forall|x: i32| first_occurrences(s).contains(x) <==> s.contains(x),
    decreases s.len(),
{
    if s.len() > 0 {
        let init = s.drop_last();
        lemma_first_occurrences_distinct(init);
        let prev = first_occurrences(init);
        let cur = first_occurrences(s);
        assert(s =~= init.push(s.last()));
        assert forall|x: i32| cur.contains(x) <==> s.contains(x) by {
            if x == s.last() {
                assert(s[s.len() - 1] == x);
                if !prev.contains(x) {
                    assert(cur[cur.len() - 1] == x);
                }
            } else {
                if s.contains(x) {
                    let k = choose|k: int| 0 <= k < s.len() && s[k] == x;
                    assert(init[k] == x);
                    assert(init.contains(x));
                    assert(prev.contains(x));
                    let m = choose|m: int| 0 <= m < prev.len() && prev[m] == x;
                    assert(cur[m] == x);
                }
                if cur.contains(x) {
                    let m = choose|m: int| 0 <= m < cur.len() && cur[m] == x;
                    assert(prev[m] == x);
                    assert(init.contains(x));
                    let k = choose|k: int| 0 <= k < init.len() && init[k] == x;
                    assert(s[k] == x);
                }
            }
        }
    }
}

/// The department-access set a group is given holds every submitted
/// department, nothing else, and each once.
pub proof fn law_dept_access_is_the_submitted_set(ids: Seq<i32>)
    ensures
        first_occurrences(ids).no_duplicates(),
        forall|x: i32| first_occurrences(ids).contains(x) <==> ids.contains(x),
{
    lemma_first_occurrences_distinct(ids);
}

/// A mass action on groups.
#[derive(Debug)]
pub struct MassGroupRequest {
    pub action: String,
    pub ids: Vec<i32>,
}

/// The acting admin may not disable or delete a group they belong to
/// (`my_group`). Other actions, and admins outside the selection, pass.
pub fn check_self_group(action: &str, ids: &Vec<i32>, my_group: Option<i32>) -> (r: Result<(), ApiError>)
    ensures
        match r {
            Ok(_) => !((action@ == "disable"@ || action@ == "delete"@) && my_group.is_some() && ids@.contains(
                my_group.unwrap(),
            )),
            Err(e) => (action@ == "disable"@ || action@ == "delete"@) && my_group.is_some() && ids@.contains(
                my_group.unwrap(),
            ) && e.is(
                ErrorKind::Validation,
                "As an admin, you can't disable/delete a group you belong to - you might lockout all admins!"@,
            ),
        },
{
    if str_eq(action, "disable") || str_eq(action, "delete") {
        match my_group {
            Some(g) => {
                let mut i: usize = 0;
                while i < ids.len()
                    invariant
                        i <= ids.len(),
                        action@ == "disable"@ || action@ == "delete"@,
                        my_group == Some(g),
                        forall|j: int| 0 <= j < i ==> ids@[j] != g,
                    decreases ids.len() - i,
                {
                    if ids[i] == g {
                        assert(ids@[i as int] == g);
                        return Err(
                            ApiError::validation(
                                "As an admin, you can't disable/delete a group you belong to - you might lockout all admins!",
                            ),
                        );
                    }
                    i = i + 1;
                }
            },
            None => {},
        }
    }
    Ok(())
}

/// The message of a group mass action that changed `n` of the `requested`
/// groups.
pub open spec fn mass_groups_message_spec(action: Seq<char>, n: int, requested: int) -> Seq<char> {
    if action == "enable"@ {
        "Selected groups activated"@
    } else if action == "disable"@ {
        "Selected groups disabled"@
    } else {
        crate::mass::partial_message(
            n,
            requested,
            "Selected groups deleted successfully"@,
            "Unable to delete selected groups"@,
            "selected groups deleted"@,
        )
    }
}

/// The message of a group mass action.
pub fn mass_groups_message(action: &str, n: i64, requested: i64) -> (r: String)
    ensures
        r@ == mass_groups_message_spec(action@, n as int, requested as int),
{
    if str_eq(action, "enable") {
        owned("Selected groups activated")
    } else if str_eq(action, "disable") {
        owned("Selected groups disabled")
    } else {
        crate::mass::outcome_message(
            n,
            requested,
            "Selected groups deleted successfully",
            "Unable to delete selected groups",
            "selected groups deleted",
        )
    }
}

/// The placeholders `$first, $first+1, ...` for `count` values, comma separated.
pub open spec fn placeholders_spec(first: int, count: nat) -> Seq<char>
    decreases count,
{
    if count == 0 {
        Seq::empty()
    } else if count == 1 {
        "$"@ + int_str(first)
    } else {
        placeholders_spec(first, (count - 1) as nat) + ", $"@ + int_str(first + count - 1)
    }
}

/// The placeholders `$first, $first+1, ...` for `count` values.
pub fn placeholders(first: u32, count: u32) -> (r: String)
    requires
        first as int + count as int <= u32::MAX,
    ensures
        r@ == placeholders_spec(first as int, count as nat),
{
    let mut out = String::new();
    let mut i: u32 = 0;
    while i < count
        invariant
            i <= count,
            first as int + count as int <= u32::MAX,
            out@ == placeholders_spec(first as int, i as nat),
        decreases count - i,
    {
        let n = int_string((first + i) as i128);
        if i == 0 {
            push_str(&mut out, "$");
            push_str(&mut out, n.as_str());
            proof {
                reveal_strlit("$");
                assert(out@ =~= "$"@ + int_str(first as int));
            }
        } else {
            push_str(&mut out, ", $");
            push_str(&mut out, n.as_str());
        }
        i = i + 1;
    }
    out
}

} // verus!
