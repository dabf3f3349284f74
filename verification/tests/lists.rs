use api::departments::{
    check_default_stays_public, default_dept_id, delete_rehome_target, dept_sort_expr, guard_home_staff,
    map_dept_write_error, mass_dept_delete, mass_dept_message, validate_dept_fields, DeptWriteRequest,
};
use api::faq_categories::{mass_categories_message, validate_name, CategoryWriteRequest};
use api::help_topics::{
    check_topic_nesting, clamp_page, decode_assign_to, encode_assign_to, parent_top_level, topic_sort_expr,
    validate_topic_fields, TopicWriteRequest, MAX_PAGE,
};
use api::pages::{
    check_page_disable, find_page_by_slug, mass_pages_message, page_list_paging, page_sort_expr,
    pages_not_in_use, slugify, validate_page_fields, PageWriteRequest,
};
use api::sla::{mass_sla_delete_targets, sla_rehome_target, sla_sort_expr, validate_sla_fields, SlaWriteRequest};
use api::teams::{resolve_lead, team_sort_expr, validate_team_name, TeamWriteRequest};

#[test]
fn departments_sort_expr_maps_keys() {
    assert_eq!(dept_sort_expr(None), "d.dept_name");
    assert_eq!(dept_sort_expr(Some("users")), "user_count");
    assert_eq!(dept_sort_expr(Some("updated")), "d.updated");
    assert_eq!(dept_sort_expr(Some("status")), "d.ispublic");
}

#[test]
fn validate_requires_name_email_template() {
    let err = validate_dept_fields(&DeptWriteRequest::default()).unwrap_err();
    assert!(err.fields.contains_key("name"));
    assert!(err.fields.contains_key("emailId"));
    assert!(err.fields.contains_key("tplId"));
}

#[test]
fn validate_rejects_short_name() {
    let body = DeptWriteRequest { name: "Ops".into(), email_id: Some(1), tpl_id: Some(1), ..Default::default() };
    let err = validate_dept_fields(&body).unwrap_err();
    assert!(err.fields.contains_key("name"));
    assert!(!err.fields.contains_key("emailId"));
}

#[test]
fn departments_validate_accepts_valid() {
    let body = DeptWriteRequest { name: "  Support  ".into(), email_id: Some(3), tpl_id: Some(2), ..Default::default() };
    let f = validate_dept_fields(&body).unwrap();
    assert_eq!(f.name, "Support");
    assert_eq!(f.email_id, 3);
    assert_eq!(f.tpl_id, 2);
}

#[test]
fn zero_email_id_is_not_selected() {
    let body = DeptWriteRequest { name: "Support".into(), email_id: Some(0), tpl_id: Some(2), ..Default::default() };
    assert!(validate_dept_fields(&body).unwrap_err().fields.contains_key("emailId"));
}

#[test]
fn default_department_is_protected() {
    assert_eq!(default_dept_id(&Some(" 4 ".into())), Some(4));
    assert_eq!(default_dept_id(&None), None);
    assert!(check_default_stays_public(false, Some(4), 4).is_err());
    assert!(check_default_stays_public(true, Some(4), 4).is_ok());
    assert!(check_default_stays_public(false, Some(4), 5).is_ok());
    assert_eq!(delete_rehome_target(5, Some(4)).unwrap(), 4);
    assert_eq!(delete_rehome_target(4, Some(4)).unwrap_err().message, "The default department cannot be deleted.");
    assert!(delete_rehome_target(4, None).is_err());
    assert!(guard_home_staff(1).is_err());
    assert!(guard_home_staff(0).is_ok());
    assert_eq!(mass_dept_delete(&vec![1, 4, 7], Some(4), 0).unwrap(), vec![1, 7]);
    assert_eq!(mass_dept_delete(&vec![1], Some(4), 2).unwrap_err(), "Department has staff members; reassign them first");
    assert!(mass_dept_delete(&vec![1], None, 0).is_err());
    assert_eq!(
        mass_dept_message("delete", 0, 1),
        "Unable to delete selected departments (the default department cannot be deleted)"
    );
    assert_eq!(mass_dept_message("makeprivate", 1, 1), "Selected departments made internal");
}

#[test]
fn duplicate_department_name_is_a_field_error() {
    let e = map_dept_write_error(&Some("23505".into()), &Some("department_dept_name_key".into()));
    assert_eq!(e.status(), 422);
    assert_eq!(e.fields.get("name").unwrap(), "A department with this name already exists");
    let e = map_dept_write_error(&Some("23503".into()), &None);
    assert_eq!(e.status(), 500);
}

#[test]
fn help_topics_sort_expr_maps_keys() {
    assert_eq!(topic_sort_expr(None), "h.topic");
    assert_eq!(topic_sort_expr(Some("updated")), "h.updated");
    assert_eq!(topic_sort_expr(Some("dept")), "dept_name");
}

#[test]
fn clamp_page_bounds_and_never_overflows() {
    assert_eq!(clamp_page(None, None), (1, 25, 0));
    assert_eq!(clamp_page(Some(2), Some(10)), (2, 10, 10));
    assert_eq!(clamp_page(Some(1), Some(9999)), (1, 200, 0));
    assert_eq!(clamp_page(Some(1), Some(0)), (1, 1, 0));
    assert_eq!(clamp_page(Some(0), Some(25)), (1, 25, 0));
    assert_eq!(clamp_page(Some(-5), Some(25)), (1, 25, 0));
    let (page, page_size, offset) = clamp_page(Some(i64::MAX), Some(200));
    assert_eq!(page, MAX_PAGE);
    assert_eq!(page_size, 200);
    assert_eq!(offset, (MAX_PAGE - 1) * 200);
    assert!(offset > 0, "offset stays positive (no wrap)");
}

#[test]
fn decode_assign_to_variants() {
    assert_eq!(decode_assign_to(Some("s5")), (Some(5), None));
    assert_eq!(decode_assign_to(Some("t3")), (None, Some(3)));
    assert_eq!(decode_assign_to(Some("")), (None, None));
    assert_eq!(decode_assign_to(None), (None, None));
    assert_eq!(decode_assign_to(Some("x9")), (None, None));
    assert_eq!(decode_assign_to(Some("s0")), (None, None));
}

#[test]
fn encode_assign_to_variants() {
    assert_eq!(encode_assign_to(Some(5), None), "s5");
    assert_eq!(encode_assign_to(None, Some(3)), "t3");
    assert_eq!(encode_assign_to(None, None), "");
    assert_eq!(encode_assign_to(Some(1), Some(2)), "s1");
}

#[test]
fn assign_to_round_trips() {
    for (s, t) in [(Some(5), None), (None, Some(3)), (Some(0), Some(9)), (Some(-2), None), (Some(i32::MAX), Some(1))] {
        let e = encode_assign_to(s, t);
        let d = decode_assign_to(Some(e.as_str()));
        let want = match s.filter(|&v| v > 0) {
            Some(v) => (Some(v), None),
            None => (None, t.filter(|&v| v > 0)),
        };
        assert_eq!(d, want, "{e}");
    }
    assert_eq!(decode_assign_to(Some(" T12 ")), (None, Some(12)));
    assert_eq!(decode_assign_to(Some("s+4")), (Some(4), None));
    assert_eq!(decode_assign_to(Some("\u{e9}5")), (None, None));
    assert_eq!(decode_assign_to(Some(" \u{15f}7")), (None, None));
}

#[test]
fn validate_requires_topic_dept_priority() {
    let err = validate_topic_fields(&TopicWriteRequest::default(), None).unwrap_err();
    assert!(err.fields.contains_key("topic"));
    assert!(err.fields.contains_key("deptId"));
    assert!(err.fields.contains_key("priorityId"));
}

#[test]
fn validate_rejects_short_topic() {
    let body = TopicWriteRequest { topic: "Abcd".into(), dept_id: Some(1), priority_id: Some(2), ..Default::default() };
    assert!(validate_topic_fields(&body, None).unwrap_err().fields.contains_key("topic"));
}

#[test]
fn validate_rejects_non_top_level_parent() {
    let body = TopicWriteRequest {
        topic: "Refunds".into(),
        dept_id: Some(1),
        priority_id: Some(2),
        parent_id: Some(9),
        ..Default::default()
    };
    assert!(validate_topic_fields(&body, Some(false)).unwrap_err().fields.contains_key("parentId"));
    assert!(validate_topic_fields(&body, Some(true)).is_ok());
}

#[test]
fn validate_resolves_fields() {
    let body = TopicWriteRequest {
        topic: "  Password reset  ".into(),
        dept_id: Some(4),
        priority_id: Some(2),
        sla_id: Some(0),
        assign_to: Some("t7".into()),
        page_id: Some(0),
        parent_id: Some(3),
        ..Default::default()
    };
    let f = validate_topic_fields(&body, Some(true)).unwrap();
    assert_eq!(f.topic, "Password reset");
    assert_eq!(f.topic_pid, 3);
    assert_eq!(f.sla_id, None);
    assert_eq!(f.page_id, 0);
    assert_eq!(f.team_id, Some(7));
    assert_eq!(f.staff_id, None);
}

#[test]
fn topic_nesting_rules() {
    assert_eq!(parent_top_level(None, None), None);
    assert_eq!(parent_top_level(Some(0), Some(0)), None);
    assert_eq!(parent_top_level(Some(3), Some(0)), Some(true));
    assert_eq!(parent_top_level(Some(3), Some(2)), Some(false));
    assert_eq!(parent_top_level(Some(3), None), Some(false));
    assert!(check_topic_nesting(5, 5, false).is_err());
    assert!(check_topic_nesting(5, 2, true).is_err());
    assert!(check_topic_nesting(5, 0, true).is_ok());
    assert!(check_topic_nesting(5, 2, false).is_ok());
}

#[test]
fn accepted_topic_write_stays_one_level() {
    let body = TopicWriteRequest {
        topic: "Printer jams".into(),
        dept_id: Some(1),
        priority_id: Some(2),
        parent_id: Some(3),
        ..Default::default()
    };
    // The parent 3 is itself nested under 8: the write is refused.
    let flag = parent_top_level(body.parent_id, Some(8));
    assert!(validate_topic_fields(&body, flag).unwrap_err().fields.contains_key("parentId"));
    // The parent 3 is top-level: accepted, and the edit of topic 5 passes
    // the nesting rules only while 5 has no sub-topics.
    let flag = parent_top_level(body.parent_id, Some(0));
    let f = validate_topic_fields(&body, flag).unwrap();
    assert_eq!(f.topic_pid, 3);
    assert!(check_topic_nesting(5, f.topic_pid, false).is_ok());
    assert!(check_topic_nesting(5, f.topic_pid, true).is_err());
}

#[test]
fn slugify_basic() {
    assert_eq!(slugify("Terms Of Service"), "terms-of-service");
    assert_eq!(slugify("  Privacy!!Policy  "), "privacy-policy");
    assert_eq!(slugify("A/B — C"), "a-b-c");
}

#[test]
fn slugify_is_idempotent() {
    for s in ["Terms Of Service", "--x--", "", "!!!", "ÀB c 9"] {
        let once = slugify(s);
        assert_eq!(slugify(&once), once);
    }
}

#[test]
fn pages_are_found_by_slug() {
    let names = vec!["About".to_string(), "Terms of Service".to_string(), "terms-of-service".to_string()];
    assert_eq!(find_page_by_slug(&names, "TERMS of  service!"), Some(1));
    assert_eq!(find_page_by_slug(&names, "contact"), None);
}

#[test]
fn validate_rejects_bad_type_and_empty_name() {
    let body = PageWriteRequest { name: "".into(), page_type: "bogus".into(), ..Default::default() };
    let err = validate_page_fields(&body).unwrap_err();
    assert!(err.fields.contains_key("name"));
    assert!(err.fields.contains_key("type"));
}

#[test]
fn validate_accepts_known_types() {
    for t in ["landing", "offline", "thank-you", "other"] {
        let body = PageWriteRequest { name: "X".into(), page_type: t.into(), ..Default::default() };
        assert!(validate_page_fields(&body).is_ok(), "type {t}");
    }
}

#[test]
fn in_use_pages_are_kept() {
    assert!(check_page_disable(false, true).is_err());
    assert!(check_page_disable(true, true).is_ok());
    assert!(check_page_disable(false, false).is_ok());
    assert_eq!(pages_not_in_use(&vec![1, 2, 3], &vec![false, true, false]), vec![1, 3]);
    assert_eq!(mass_pages_message("disable", 0, 2), "A page currently in-use CANNOT be disabled!");
    assert_eq!(mass_pages_message("delete", 1, 2), "1 of 2 selected pages deleted");
    assert_eq!(page_sort_expr(Some("isactive")), "p.isactive");
    assert_eq!(page_sort_expr(None), "p.name");
    assert_eq!(page_list_paging(Some(3), Some(500)), (3, 200, 400));
    assert_eq!(page_list_paging(None, None), (1, 25, 0));
}

#[test]
fn sla_sort_expr_maps_keys() {
    assert_eq!(sla_sort_expr(None), "name");
    assert_eq!(sla_sort_expr(Some("created")), "created");
    assert_eq!(sla_sort_expr(Some("grace")), "grace_period");
    assert_eq!(sla_sort_expr(Some("status")), "isactive");
}

#[test]
fn validate_rejects_missing_name_and_grace() {
    let err = validate_sla_fields(&SlaWriteRequest::default()).unwrap_err();
    assert!(err.fields.contains_key("name"));
    assert!(err.fields.contains_key("grace_period"));
}

#[test]
fn validate_rejects_nonpositive_grace() {
    let body = SlaWriteRequest { name: "Gold".into(), grace_period: Some(0), ..Default::default() };
    let err = validate_sla_fields(&body).unwrap_err();
    assert!(err.fields.contains_key("grace_period"));
    assert!(!err.fields.contains_key("name"));
}

#[test]
fn sla_validate_accepts_valid() {
    let body = SlaWriteRequest { name: "  Gold  ".into(), grace_period: Some(24), ..Default::default() };
    let (name, grace) = validate_sla_fields(&body).unwrap();
    assert_eq!(name, "Gold");
    assert_eq!(grace, 24);
}

#[test]
fn default_sla_plan_is_protected() {
    assert_eq!(sla_rehome_target(2, Some(1)).unwrap(), 1);
    assert!(sla_rehome_target(1, Some(1)).is_err());
    assert!(sla_rehome_target(1, None).is_err());
    assert_eq!(mass_sla_delete_targets(&vec![1, 2, 3], Some(2)), vec![1, 3]);
    assert_eq!(mass_sla_delete_targets(&vec![1, 2, 3], None), Vec::<i32>::new());
}

#[test]
fn teams_sort_expr_maps_keys() {
    assert_eq!(team_sort_expr(None), "t.name");
    assert_eq!(team_sort_expr(Some("members")), "member_count");
    assert_eq!(team_sort_expr(Some("updated")), "t.updated");
    assert_eq!(team_sort_expr(Some("status")), "t.isenabled");
}

#[test]
fn name_validation() {
    let short = TeamWriteRequest { name: "AB".into(), ..Default::default() };
    assert!(validate_team_name(&short).unwrap_err().fields.contains_key("name"));
    let ok = TeamWriteRequest { name: "  Tier 3  ".into(), ..Default::default() };
    assert_eq!(validate_team_name(&ok).unwrap(), "Tier 3");
}

#[test]
fn lead_must_be_a_current_member() {
    assert!(resolve_lead(Some(7), None, &[1, 2]).is_err());
    assert_eq!(resolve_lead(Some(2), None, &[1, 2]).unwrap(), Some(2));
    assert_eq!(resolve_lead(None, Some(1), &[1, 2]).unwrap(), Some(1));
    assert_eq!(resolve_lead(None, Some(3), &[1, 2]).unwrap(), None);
    assert_eq!(resolve_lead(Some(0), Some(1), &[1]).unwrap(), Some(1));
}

#[test]
fn validate_rejects_blank_name() {
    let body = CategoryWriteRequest::default();
    assert!(validate_name(&body).unwrap_err().fields.contains_key("name"));
}

#[test]
fn validate_trims_name() {
    let body = CategoryWriteRequest { name: "  General  ".into(), ..Default::default() };
    assert_eq!(validate_name(&body).unwrap(), "General");
    assert_eq!(mass_categories_message("makepublic"), "Selected categories made public");
}
