use api::admin_canned::{canned_form, check_canned_title, field_bool, mass_canned_message, parse_id_list, parse_keep_ids};
use api::canned::helpdesk_base_url;
use api::config::AppEnv;
use api::dev::{
    age_interval, bulk_account, bulk_count, bulk_prefix, check_log_type, check_toggle_key, config_value_text,
    default_grace_hours, default_log_type, default_status, dev_gate, group_perm_update, seed_page_fields,
    seed_search_update, seed_status, SeedPageRequest, SeedSearchTicketRequest, SetGroupPermRequest,
};
use api::downloads::{client_may_download, content_disposition, download_mime, percent_encode_rfc5987};
use api::logs::{client_ip, log_order_by, log_sort_expr, nonblank_filter, LogListParams};
use api::profile::{
    check_profile_update, directory_order, directory_q_clause, directory_where, password_postcheck,
    password_precheck, ChangePasswordRequest, DirectoryParams, UpdateProfileRequest,
};
use api::settings::SettingValue;
use api::staff::{
    display_name, note_body, note_title, order_needs_closing_staff_join, order_needs_staff_join, parse_canned_id,
    plan_bulk_action, queue_joins, resolve_order_by, validate_search, BulkAction, QueueParams, QueueStatus,
    RightmostColumn, SortConfig, SortKey, SortOrder,
};
use api::tickets::{client_visible, is_multipart, map_field_errors};

#[test]
fn ascii_filename_is_quoted() {
    assert_eq!(content_disposition("invoice.pdf"), "attachment; filename=\"invoice.pdf\"");
}

#[test]
fn quotes_and_control_chars_are_sanitised() {
    let cd = content_disposition("a\"b\\c.txt");
    assert!(cd.starts_with("attachment; filename=\"a_b_c.txt\""));
    assert!(!cd.contains('\\'));
}

#[test]
fn non_ascii_name_gets_filename_star() {
    let cd = content_disposition("reçu.pdf");
    assert!(cd.contains("filename=\"re_u.pdf\""), "{cd}");
    assert!(cd.contains("filename*=UTF-8''re%C3%A7u.pdf"), "{cd}");
}

#[test]
fn empty_name_falls_back_to_download() {
    assert_eq!(content_disposition(""), "attachment; filename=\"download\"");
}

#[test]
fn rfc5987_encoding_keeps_attr_chars() {
    assert_eq!(percent_encode_rfc5987("a b!~"), "a%20b!~");
    assert_eq!(percent_encode_rfc5987("€"), "%E2%82%AC");
    assert_eq!(content_disposition("\u{1}\u{7f}"), "attachment; filename=\"__\"");
}

#[test]
fn download_gates() {
    assert!(client_may_download(5, 5, "M"));
    assert!(!client_may_download(5, 5, "N"));
    assert!(!client_may_download(5, 6, "R"));
    assert_eq!(download_mime("  ", "application/octet-stream"), "application/octet-stream");
    assert_eq!(download_mime("text/plain", "x"), "text/plain");
}

#[test]
fn client_ip_reads_first_forwarded_hop() {
    let mut h = http::HeaderMap::new();
    h.insert("x-forwarded-for", "203.0.113.7, 10.0.0.1".parse().unwrap());
    assert_eq!(client_ip(h.get("x-forwarded-for").and_then(|v| v.to_str().ok())), "203.0.113.7");
}

#[test]
fn client_ip_defaults_empty() {
    let h = http::HeaderMap::new();
    assert_eq!(client_ip(h.get("x-forwarded-for").and_then(|v| v.to_str().ok())), "");
}

#[test]
fn sort_expr_defaults_to_id() {
    assert_eq!(log_sort_expr(None), "id");
    assert_eq!(log_sort_expr(Some("created")), "created");
    assert_eq!(log_sort_expr(Some("bogus")), "id");
}

#[test]
fn log_list_order_and_filters() {
    let p = LogListParams { sort: Some("type".into()), order: Some("asc".into()), ..Default::default() };
    assert_eq!(log_order_by(&p), "log_type ASC, id DESC");
    assert_eq!(log_order_by(&LogListParams::default()), "id DESC, id DESC");
    assert_eq!(nonblank_filter(&Some("  ".into())), None);
    assert_eq!(nonblank_filter(&Some(" Error".into())).as_deref(), Some(" Error"));
}

#[test]
fn numeric_term_matches_phone_fields() {
    let (clause, bind) = directory_q_clause("5551234").unwrap();
    assert!(clause.contains("s.phone ILIKE $1"));
    assert!(clause.contains("s.mobile ILIKE $1"));
    assert_eq!(bind, "%5551234%");
}

#[test]
fn email_term_matches_exact_email() {
    let (clause, bind) = directory_q_clause("Agent@Example.com").unwrap();
    assert_eq!(clause, "lower(s.email) = lower($1)");
    assert_eq!(bind, "Agent@Example.com");
}

#[test]
fn name_term_matches_name_and_email_substring() {
    let (clause, bind) = directory_q_clause("lovel").unwrap();
    assert!(clause.contains("s.lastname ILIKE $1"));
    assert!(clause.contains("s.firstname ILIKE $1"));
    assert_eq!(bind, "%lovel%");
}

#[test]
fn empty_term_yields_no_clause() {
    assert!(directory_q_clause("   ").is_none());
}

#[test]
fn directory_query_shape() {
    let p = DirectoryParams { q: Some(" 555 ".into()), did: Some("2".into()), order: Some("DESC".into()), ..Default::default() };
    let (w, b) = directory_where(&p);
    assert_eq!(w, "s.isvisible = true AND s.dept_id = 2 AND (s.phone ILIKE $1 OR s.phone_ext ILIKE $1 OR s.mobile ILIKE $1)");
    assert_eq!(b.as_deref(), Some("%555%"));
    assert_eq!(directory_order(&p), "s.firstname, s.lastname DESC, s.staff_id ASC");
}

#[test]
fn profile_edit_rules() {
    let foreign = UpdateProfileRequest { id: Some(9), ..Default::default() };
    assert_eq!(check_profile_update(&foreign, 3).unwrap_err().status(), 403);
    let bad = UpdateProfileRequest { firstname: Some(" ".into()), email: Some("x".into()), ..Default::default() };
    let e = check_profile_update(&bad, 3).unwrap_err();
    assert!(e.fields.contains_key("firstname"));
    assert!(e.fields.contains_key("email"));
    let ok = UpdateProfileRequest { id: Some(3), email: Some(" a@b.co ".into()), ..Default::default() };
    assert!(check_profile_update(&ok, 3).is_ok());
}

#[test]
fn password_change_order() {
    let r = |c: &str, n: &str, f: &str| ChangePasswordRequest { current: c.into(), new: n.into(), confirm: f.into() };
    assert_eq!(password_precheck(&r("", "", "")).unwrap_err().message, "New password required");
    assert_eq!(password_precheck(&r("", "abc", "abc")).unwrap_err().message, "Must be at least 6 characters");
    assert_eq!(password_precheck(&r("", "abcdef", "abcdeg")).unwrap_err().message, "Password(s) do not match");
    assert_eq!(password_precheck(&r("", "abcdef", "abcdef")).unwrap_err().message, "Current password required");
    assert!(password_precheck(&r("old", "abcdef", "abcdef")).is_ok());
    assert_eq!(password_postcheck(&r("old", "abcdef", "abcdef"), false).unwrap_err().message, "Invalid current password!");
    assert!(password_postcheck(&r("ABCDEF", "abcdef", "abcdef"), true).is_err());
    assert!(password_postcheck(&r("old", "abcdef", "abcdef"), true).is_ok());
}

#[test]
fn field_errors_map_body_to_message_key() {
    let errors = vec![
        ("email".to_string(), "Invalid email".to_string()),
        ("body".to_string(), "Required".to_string()),
    ];
    let api = map_field_errors(&errors);
    assert_eq!(api.status(), 422);
    assert!(api.fields.contains_key("message"), "body→message remap");
    assert!(!api.fields.contains_key("body"));
    assert!(api.fields.contains_key("email"));
}

#[test]
fn multipart_detection() {
    assert!(is_multipart(Some("  Multipart/Form-Data; boundary=x")));
    assert!(!is_multipart(Some("application/json")));
    assert!(!is_multipart(None));
    assert!(client_visible("M"));
    assert!(!client_visible("N"));
}

#[test]
fn display_name_composes_or_falls_back() {
    assert_eq!(display_name("Agent", "One", "agent"), "Agent One");
    assert_eq!(display_name("", "", "agent"), "agent");
    assert_eq!(display_name("  ", "Solo", "agent"), "Solo");
}

#[test]
fn ticket_workflow_inputs() {
    assert_eq!(note_body("  hi ").unwrap(), "hi");
    assert_eq!(note_body("   ").unwrap_err().status(), 400);
    assert_eq!(note_title(&Some(" ".into())), None);
    assert_eq!(parse_canned_id(Some(" 7 ")).unwrap(), Some(7));
    assert_eq!(parse_canned_id(Some("  ")).unwrap(), None);
    assert!(parse_canned_id(Some("x")).is_err());
    assert_eq!(plan_bulk_action("reopen", &vec![1], false, true, false).unwrap(), BulkAction::Reopen);
    assert_eq!(plan_bulk_action("close", &vec![1], false, true, false).unwrap_err().status(), 403);
    assert_eq!(plan_bulk_action("close", &vec![], true, true, true).unwrap_err().message, "No tickets selected");
    assert_eq!(plan_bulk_action("merge", &vec![1], true, true, true).unwrap_err().message, "Unknown action");
}

#[test]
fn canned_form_reading() {
    let f = vec![
        ("title".to_string(), "  Hello ".to_string()),
        ("dept_id".to_string(), " 3 ".to_string()),
        ("active".to_string(), "Yes".to_string()),
        ("notes".to_string(), "  ".to_string()),
        ("keep_file_ids[]".to_string(), "4, x,5,,6 ".to_string()),
    ];
    let c = canned_form(&f);
    assert_eq!(c.title, "Hello");
    assert_eq!(c.dept_id, 3);
    assert!(c.isenabled);
    assert_eq!(c.notes, None);
    assert_eq!(c.keep_file_ids, vec![4, 5, 6]);
    assert_eq!(c.response, "");
    assert!(!field_bool(&f, &["dept_id"], true));
    assert!(field_bool(&f, &["missing"], true));
    assert_eq!(parse_keep_ids(&vec![]), Vec::<i64>::new());
    assert_eq!(parse_id_list(""), Vec::<i64>::new());
    assert!(check_canned_title("").is_err());
    assert_eq!(mass_canned_message("delete", 2, 3), "2 of 3 selected canned responses deleted");
    assert_eq!(helpdesk_base_url(Some(" ".into())), "http://localhost:3702");
}

#[test]
fn developer_endpoint_rules() {
    assert_eq!(dev_gate(AppEnv::Production).unwrap_err().status(), 404);
    assert!(dev_gate(AppEnv::Development).is_ok());
    assert_eq!(default_status(), "open");
    assert_eq!(default_grace_hours(), 24);
    assert_eq!(default_log_type(), "Error");
    assert_eq!(seed_status("closed"), "closed");
    assert_eq!(seed_status("weird"), "open");
    assert!(check_log_type("Warning").is_ok());
    assert!(check_log_type("warning").is_err());
    assert_eq!(age_interval(-3), "0 days");
    assert_eq!(age_interval(120), "120 days");
    assert_eq!(bulk_count(900), 500);
    assert_eq!(bulk_count(-1), 0);
    assert_eq!(bulk_prefix(&None), "bulkstaff");
    assert_eq!(bulk_account("p", 42, 3), ("p42_3".to_string(), "Bulk3".to_string()));
    assert_eq!(
        check_toggle_key("x").unwrap_err().message,
        "Invalid config key 'x'. Allowed keys: show_answered_tickets, show_assigned_tickets"
    );
    assert!(check_toggle_key("show_assigned_tickets").is_ok());
    assert_eq!(config_value_text(&SettingValue::Bool(true)), "1");
    assert_eq!(config_value_text(&SettingValue::Null), "null");
    let (n, t, b) = seed_page_fields(&SeedPageRequest::default()).unwrap();
    assert_eq!((n.as_str(), t.as_str(), b.as_str()), ("Landing Page", "landing", "<h1>Welcome to osTicket</h1>"));
    assert!(seed_page_fields(&SeedPageRequest { page_type: Some("x".into()), ..Default::default() }).is_err());
}

#[test]
fn developer_sql_builders() {
    let none = SetGroupPermRequest {
        group_id: 1,
        can_close_tickets: None,
        can_assign_tickets: None,
        can_transfer_tickets: None,
        can_create_tickets: None,
        can_delete_tickets: None,
        can_edit_tickets: None,
        can_manage_tickets: None,
        can_manage_premade: None,
        can_manage_faq: None,
    };
    assert!(group_perm_update(&none).is_err());
    let some = SetGroupPermRequest { can_close_tickets: Some(true), can_manage_faq: Some(false), ..none };
    assert_eq!(
        group_perm_update(&some).unwrap(),
        "UPDATE groups SET can_close_tickets = $2, can_manage_faq = $10 WHERE group_id = $1"
    );
    let b = SeedSearchTicketRequest {
        ticket_id: Some("123456".into()),
        created: Some("2024-01-01'".into()),
        staff_id: Some(4),
        ..Default::default()
    };
    assert_eq!(
        seed_search_update(&b, Some(9)),
        "UPDATE ticket SET \"ticketID\" = 123456, created = '2024-01-01'''::timestamptz, status = 'open', topic_id = 9, staff_id = 4 WHERE ticket_id = $1"
    );
}

#[test]
fn staff_join_only_for_assignee_sort() {
    let by_staff = resolve_order_by(QueueStatus::Closed, &SortConfig { key: Some(SortKey::Staff), order: SortOrder::Asc });
    assert!(!order_needs_staff_join(&by_staff));
    assert!(order_needs_closing_staff_join(&by_staff));
    let by_assignee =
        resolve_order_by(QueueStatus::Open, &SortConfig { key: Some(SortKey::Assignee), order: SortOrder::Desc });
    assert!(order_needs_staff_join(&by_assignee));
    assert!(!order_needs_closing_staff_join(&by_assignee));
    let joins = queue_joins(QueueStatus::Closed, &by_staff, RightmostColumn::ClosedBy);
    assert!(!joins.contains("LEFT JOIN staff ON staff.staff_id = ticket.staff_id"));
    for k in [SortKey::Date, SortKey::Priority, SortKey::Staff, SortKey::Department, SortKey::Assignee] {
        let ob = resolve_order_by(QueueStatus::Open, &SortConfig { key: Some(k), order: SortOrder::Asc });
        assert_eq!(order_needs_staff_join(&ob), k.requires_staff_join());
    }
}

#[test]
fn search_term_counts_characters() {
    let q = |s: &str| QueueParams { query: Some(s.to_string()), ..Default::default() };
    let err = validate_search(&q(" \u{e9}\u{e9} ")).unwrap_err();
    assert_eq!(err.message, "Search term must be more than 3 chars");
    assert!(validate_search(&q("\u{e9}t\u{e9}")).is_ok());
    assert!(validate_search(&q("  ab  ")).is_err());
    assert!(validate_search(&q("abc")).is_ok());
}

#[test]
fn rfc5987_encoding_decodes_to_the_bytes() {
    let name = "re\u{e7}u \"final\" (2).pdf";
    let e = percent_encode_rfc5987(name);
    assert_eq!(percent_encode_rfc5987("re\u{e7}u.pdf"), "re%C3%A7u.pdf");
    let c: Vec<char> = e.chars().collect();
    let mut out: Vec<u8> = Vec::new();
    let mut i = 0;
    while i < c.len() {
        if c[i] == '%' {
            assert!(c[i + 1].is_ascii_digit() || ('A'..='F').contains(&c[i + 1]));
            out.push(u8::from_str_radix(&e[i + 1..i + 3], 16).unwrap());
            i += 3;
        } else {
            assert!(c[i].is_ascii_alphanumeric() || "!#$&+-.^_`|~".contains(c[i]));
            out.push(c[i] as u8);
            i += 1;
        }
    }
    assert_eq!(out, name.as_bytes());
}

#[test]
fn sort_key_joins_follow_expression_text() {
    let keys = [
        SortKey::Date,
        SortKey::Id,
        SortKey::Priority,
        SortKey::Name,
        SortKey::Subject,
        SortKey::Status,
        SortKey::Assignee,
        SortKey::Staff,
        SortKey::Department,
    ];
    for k in keys {
        let x = k.sql_expression();
        assert_eq!(k.requires_priority_join(), x.contains("priority.urgency"));
        assert_eq!(k.requires_dept_join(), x.contains("department.dept_name"));
        assert_eq!(k.requires_closing_staff_join(), x.contains("closing_staff."));
        assert_eq!(k.requires_staff_join(), x.contains("(staff."));
    }
}
