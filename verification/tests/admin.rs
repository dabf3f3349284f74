use api::admin_groups::{
    distinct_dept_ids, flag_keys, group_name_shape, group_sort_expr, mass_groups_message, placeholders,
    resolve_flags, validate_group_name, check_self_group,
};
use api::admin_staff::{
    check_admin_change, create_staff_lookups, delete_targets, display_name, guard_remaining_admins,
    mass_staff_message, parse_id, phone_ok, plan_mass_staff, staff_list_order, staff_list_where,
    staff_sort_expr, update_staff_lookups, validate_new_staff, validate_staff_update, CreateStaffRequest,
    StaffListParams, UpdateStaffRequest,
};
use api::mass::{outcome_message, parse_mass_request, sorted_unique_ids};
use std::collections::HashMap;

#[test]
fn flag_set_is_the_canonical_eleven() {
    let keys = flag_keys();
    assert_eq!(keys.len(), 11);
    for k in ["can_manage_faq", "can_manage_premade", "can_ban_emails", "can_view_staff_stats"] {
        assert!(keys.contains(&k), "missing net-new flag {k}");
    }
}

#[test]
fn resolve_flags_defaults_missing_to_false() {
    let mut m = HashMap::new();
    m.insert("can_manage_faq".to_string(), true);
    m.insert("can_create_tickets".to_string(), true);
    let out = resolve_flags(&m.into_iter().collect());
    assert!(out[0]);
    assert!(out[7]);
    assert!(!out[2]);
}

#[test]
fn group_sort_expr_maps_keys() {
    assert_eq!(group_sort_expr(None), "g.group_name");
    assert_eq!(group_sort_expr(Some("users")), "member_count");
    assert_eq!(group_sort_expr(Some("depts")), "dept_count");
}

#[test]
fn phone_ok_accepts_empty_and_valid() {
    assert!(phone_ok(""));
    assert!(phone_ok("  "));
    assert!(phone_ok("(555) 123-4567"));
    assert!(phone_ok("+1 555 123 4567"));
}

#[test]
fn phone_ok_rejects_short_and_bad_chars() {
    assert!(!phone_ok("12345"));
    assert!(!phone_ok("12345678901234567"));
    assert!(!phone_ok("call-me"));
}

#[test]
fn display_name_falls_back_to_username() {
    assert_eq!(display_name("", "", "agent"), "agent");
    assert_eq!(display_name("Ada", "Lovelace", "agent"), "Ada Lovelace");
}

#[test]
fn staff_sort_expr_defaults_to_name() {
    assert_eq!(staff_sort_expr(None), "s.firstname, s.lastname");
    assert_eq!(staff_sort_expr(Some("bogus")), "s.firstname, s.lastname");
    assert_eq!(staff_sort_expr(Some("username")), "s.username");
    assert_eq!(staff_sort_expr(Some("dept")), "d.dept_name");
}

#[test]
fn phone_digit_bounds_are_inclusive() {
    assert!(phone_ok("1234567"));
    assert!(phone_ok("1234567890123456"));
    assert!(!phone_ok("555-123x"));
}

#[test]
fn group_name_rules() {
    let e = group_name_shape("   ").unwrap_err();
    assert_eq!(e.status(), 422);
    assert_eq!(e.message, "Group name required");
    let e = group_name_shape(" ab ").unwrap_err();
    assert_eq!(e.message, "Group name must be at least 3 chars.");
    assert_eq!(group_name_shape("  Ops team ").unwrap(), "Ops team");
    let e = validate_group_name("Ops team", true).unwrap_err();
    assert_eq!(e.fields.get("name").unwrap(), "Group name already exists");
    assert_eq!(validate_group_name(" Ops ", false).unwrap(), "Ops");
}

#[test]
fn dept_access_keeps_first_occurrences() {
    assert_eq!(distinct_dept_ids(&vec![3, 1, 3, 2, 1]), vec![3, 1, 2]);
    assert_eq!(distinct_dept_ids(&vec![]), Vec::<i32>::new());
}

#[test]
fn self_group_is_protected_only_for_destructive_actions() {
    assert!(check_self_group("disable", &vec![1, 4], Some(4)).is_err());
    assert!(check_self_group("delete", &vec![4], Some(4)).is_err());
    assert!(check_self_group("enable", &vec![4], Some(4)).is_ok());
    assert!(check_self_group("delete", &vec![1], Some(4)).is_ok());
    assert!(check_self_group("delete", &vec![1], None).is_ok());
}

#[test]
fn group_mass_messages() {
    assert_eq!(mass_groups_message("enable", 2, 2), "Selected groups activated");
    assert_eq!(mass_groups_message("delete", 3, 3), "Selected groups deleted successfully");
    assert_eq!(mass_groups_message("delete", 0, 3), "Unable to delete selected groups");
    assert_eq!(mass_groups_message("delete", 1, 3), "1 of 3 selected groups deleted");
}

#[test]
fn insert_placeholders_are_numbered_from_first() {
    assert_eq!(placeholders(4, 3), "$4, $5, $6");
    assert_eq!(placeholders(4, 0), "");
}

#[test]
fn mass_request_normalises_and_dedups() {
    let (a, v) = parse_mass_request("  DELETE ", "enable", "disable", "delete", &vec![5, 2, 5, 9, 2], "none").unwrap();
    assert_eq!(a, "delete");
    assert_eq!(v, vec![2, 5, 9]);
    let e = parse_mass_request("archive", "enable", "disable", "delete", &vec![1], "none").unwrap_err();
    assert_eq!(e.message, "Unknown mass action");
    let e = parse_mass_request("enable", "enable", "disable", "delete", &vec![], "Pick one").unwrap_err();
    assert_eq!(e.message, "Pick one");
    assert_eq!(e.status(), 422);
}

#[test]
fn sorted_ids_are_strictly_increasing() {
    let v = sorted_unique_ids(&vec![7, -1, 7, 3, -1, 0]);
    assert_eq!(v, vec![-1, 0, 3, 7]);
    assert_eq!(outcome_message(2, 5, "all", "none", "selected rows deleted"), "2 of 5 selected rows deleted");
}

#[test]
fn staff_roster_query() {
    let p = StaffListParams {
        q: Some("  ada ".into()),
        did: Some(" 3".into()),
        gid: Some("x".into()),
        tid: Some("7".into()),
        sort: Some("login".into()),
        order: Some("desc".into()),
        page: None,
    };
    let (w, like) = staff_list_where(&p);
    assert_eq!(
        w,
        "1 = 1 AND s.dept_id = 3 AND EXISTS (SELECT 1 FROM team_member tm WHERE tm.staff_id = s.staff_id AND tm.team_id = 7) AND (s.firstname ILIKE $1 OR s.lastname ILIKE $1 OR s.username ILIKE $1 OR s.email ILIKE $1)"
    );
    assert_eq!(like.as_deref(), Some("%ada%"));
    assert_eq!(staff_list_order(&p), "s.lastlogin DESC, s.staff_id ASC");
    let (w, like) = staff_list_where(&StaffListParams::default());
    assert_eq!(w, "1 = 1");
    assert_eq!(like, None);
    assert_eq!(parse_id(&Some(" 12 ".into())), Some(12));
    assert_eq!(parse_id(&Some("12a".into())), None);
}

#[test]
fn new_staff_validation_collects_every_field() {
    let b = CreateStaffRequest::default();
    let e = validate_new_staff(&b, false, false, false).unwrap_err();
    for k in ["firstname", "lastname", "username", "email", "password", "groupId", "deptId"] {
        assert!(e.fields.contains_key(k), "{k}");
    }
    assert_eq!(e.message, "Unable to add staff. Correct any error(s) below and try again.");
    let ok = CreateStaffRequest {
        username: "ada".into(),
        firstname: "Ada".into(),
        lastname: "Lovelace".into(),
        email: "ada@example.com".into(),
        password: "secret1".into(),
        passwd2: "secret1".into(),
        group_id: Some(1),
        dept_id: Some(1),
        ..Default::default()
    };
    assert!(validate_new_staff(&ok, false, false, false).is_ok());
    let e = validate_new_staff(&ok, true, false, false).unwrap_err();
    assert_eq!(e.fields.get("username").unwrap(), "Username already in use");
    let e = validate_new_staff(&ok, false, true, true).unwrap_err();
    assert_eq!(e.fields.get("email").unwrap(), "Already in-use system email");
    let e = validate_new_staff(&ok, false, false, true).unwrap_err();
    assert_eq!(e.fields.get("email").unwrap(), "Email already in use by another staff member");
    let short = CreateStaffRequest { password: "abc".into(), passwd2: "abc".into(), ..ok };
    let e = validate_new_staff(&short, false, false, false).unwrap_err();
    assert_eq!(e.fields.get("password").unwrap(), "Must be at least 6 characters");
    let (u, m) = create_staff_lookups(&CreateStaffRequest { username: " x ".into(), email: "bad".into(), ..Default::default() });
    assert_eq!(u.as_deref(), Some("x"));
    assert_eq!(m, None);
}

#[test]
fn last_active_admin_cannot_be_demoted() {
    let demote = UpdateStaffRequest { isadmin: Some(false), ..Default::default() };
    let e = check_admin_change(&demote, true, true, 0).unwrap_err();
    assert_eq!(
        e.fields.get("isadmin").unwrap(),
        "Cowardly refusing to remove or lock out the only active administrator"
    );
    assert_eq!(check_admin_change(&demote, true, true, 1).unwrap(), (false, true));
    let lock = UpdateStaffRequest { isactive: Some(false), ..Default::default() };
    assert!(check_admin_change(&lock, true, true, 0).is_err());
    assert_eq!(check_admin_change(&lock, false, true, 0).unwrap(), (false, false));
    assert_eq!(check_admin_change(&UpdateStaffRequest::default(), true, true, 0).unwrap(), (true, true));
}

#[test]
fn staff_update_validation() {
    let b = UpdateStaffRequest {
        username: Some("Agent".into()),
        email: Some("AGENT@example.com".into()),
        password: Some("newpass1".into()),
        passwd2: Some("newpass1".into()),
        ..Default::default()
    };
    let (u, e) = update_staff_lookups(&b, "agent", "agent@example.com");
    assert_eq!(u, None);
    assert_eq!(e, None);
    let (err, reset) = validate_staff_update(&b, "agent", "agent@example.com", true, true, true);
    assert!(err.fields.is_empty());
    assert!(reset);
    let b2 = UpdateStaffRequest { password: Some("newpass1".into()), passwd2: None, ..Default::default() };
    let (err, reset) = validate_staff_update(&b2, "agent", "a@b.c", false, false, false);
    assert_eq!(err.fields.get("passwd2").unwrap(), "Password(s) do not match");
    assert!(!reset);
    let b3 = UpdateStaffRequest { password: Some(String::new()), ..Default::default() };
    let (err, reset) = validate_staff_update(&b3, "agent", "a@b.c", false, false, false);
    assert!(err.fields.is_empty());
    assert!(!reset);
}

#[test]
fn mass_staff_protects_the_acting_admin() {
    let e = plan_mass_staff("lock", &vec![3, 1], 1).unwrap_err();
    assert_eq!(e.message, "You can not disable/delete yourself - you could be the only admin!");
    let (a, v) = plan_mass_staff(" Enable", &vec![3, 1, 3], 1).unwrap();
    assert_eq!(a, "enable");
    assert_eq!(v, vec![1, 3]);
    assert_eq!(plan_mass_staff("delete", &vec![], 1).unwrap_err().message, "You must select at least one staff member.");
    assert!(guard_remaining_admins(0).is_err());
    assert!(guard_remaining_admins(2).is_ok());
    assert_eq!(mass_staff_message("lock"), "Selected staff disabled");
    assert_eq!(delete_targets(&vec![1, 2, 3], 2), vec![1, 3]);
}
