use api::settings::{
    admin_email_to_check, all_keys, changed_entries, is_known_log_level, plan_save, resolve_tab_values,
    tab_keys, tab_values, validate_alerts, validate_attach, validate_emails, validate_log_level,
    validate_numeric_keys, validate_tab, SettingValue, Submitted, Tab,
};
use api::error::StrMap;

fn map(pairs: &[(&str, SettingValue)]) -> Submitted {
    Submitted {
        entries: pairs
            .iter()
            .map(|(k, v)| {
                let v = match v {
                    SettingValue::Null => SettingValue::Null,
                    SettingValue::Bool(b) => SettingValue::Bool(*b),
                    SettingValue::Number(t, nz) => SettingValue::Number(t.clone(), *nz),
                    SettingValue::Text(s) => SettingValue::Text(s.clone()),
                    SettingValue::Other(s) => SettingValue::Other(s.clone()),
                };
                (k.to_string(), v)
            })
            .collect(),
    }
}

fn num(n: i64) -> SettingValue {
    SettingValue::Number(n.to_string(), n != 0)
}

fn text(s: &str) -> SettingValue {
    SettingValue::Text(s.to_string())
}

#[test]
fn all_keys_run_tab_by_tab() {
    let keys = all_keys();
    assert_eq!(keys[0].key, "isonline");
    assert_eq!(keys[0].tab, Tab::System);
    let last = &keys[keys.len() - 1];
    assert_eq!(last.key, "allowed_filetypes");
    assert_eq!(last.tab, Tab::Attach);
}

#[test]
fn every_key_is_mapped_once() {
    let mut seen = std::collections::HashSet::new();
    for def in all_keys() {
        assert!(seen.insert(def.key), "duplicate key in map: {}", def.key);
    }
}

#[test]
fn tab_names_round_trip() {
    for t in Tab::all() {
        assert_eq!(Tab::from_name(t.as_str()), Some(t));
    }
    assert_eq!(Tab::from_name("nope"), None);
}

#[test]
fn checkbox_presence_resolves_0_or_1() {
    let v = map(&[("ticket_alert_active", num(1))]);
    let r = resolve_tab_values(Tab::Alerts, &v);
    assert_eq!(r.get("ticket_alert_active").unwrap(), "1");
    assert_eq!(r.get("ticket_alert_admin").unwrap(), "0");

    let v = map(&[("allow_attachments", num(0))]);
    let r = resolve_tab_values(Tab::Attach, &v);
    assert_eq!(r.get("allow_attachments").unwrap(), "0");
}

#[test]
fn numeric_field_rejects_non_integer() {
    let v = map(&[("max_open_tickets", text("abc"))]);
    let r = resolve_tab_values(Tab::Tickets, &v);
    let mut errs = StrMap::new();
    validate_numeric_keys(Tab::Tickets, &r, &mut errs);
    assert!(errs.contains_key("max_open_tickets"));
}

#[test]
fn log_level_label_is_not_a_numeric_field() {
    let v = map(&[("log_level", text("Debug"))]);
    let r = resolve_tab_values(Tab::System, &v);
    let mut errs = StrMap::new();
    validate_numeric_keys(Tab::System, &r, &mut errs);
    assert!(!errs.contains_key("log_level"), "log_level is not numeric");

    for ok in ["Error", "Warning", "Debug", "3"] {
        let v = map(&[("log_level", text(ok))]);
        let r = resolve_tab_values(Tab::System, &v);
        let mut errs = StrMap::new();
        validate_log_level(&r, &mut errs);
        assert!(errs.is_empty(), "{ok} is a valid log_level");
    }

    let v = map(&[("log_level", text("Loud"))]);
    let r = resolve_tab_values(Tab::System, &v);
    let mut errs = StrMap::new();
    validate_log_level(&r, &mut errs);
    assert!(errs.contains_key("log_level"), "unknown log_level rejected");
}

#[test]
fn alert_matrix_requires_recipient() {
    let v = map(&[("ticket_alert_active", num(1))]);
    let r = resolve_tab_values(Tab::Alerts, &v);
    let mut errs = StrMap::new();
    validate_alerts(&r, &mut errs);
    assert_eq!(errs.get("ticket_alert_active").unwrap(), "Select recipient(s)");

    let v = map(&[("ticket_alert_active", num(1)), ("ticket_alert_admin", num(1))]);
    let r = resolve_tab_values(Tab::Alerts, &v);
    let mut errs = StrMap::new();
    validate_alerts(&r, &mut errs);
    assert!(errs.is_empty());
}

#[test]
fn attach_validation_is_conditional() {
    let v = map(&[("allow_attachments", num(0)), ("max_file_size", text("-5"))]);
    let r = resolve_tab_values(Tab::Attach, &v);
    let mut errs = StrMap::new();
    validate_attach(&r, &mut errs);
    assert!(errs.is_empty());

    let v = map(&[("allow_attachments", num(1)), ("max_file_size", text("-5"))]);
    let r = resolve_tab_values(Tab::Attach, &v);
    let mut errs = StrMap::new();
    validate_attach(&r, &mut errs);
    assert!(errs.contains_key("max_file_size"));
}

#[test]
fn resolve_keeps_only_the_tab_keys() {
    let v = map(&[("admin_email", text("a@b.c")), ("helpdesk_title", text("Desk")), ("isonline", SettingValue::Bool(true))]);
    let r = resolve_tab_values(Tab::System, &v);
    assert_eq!(r.get("helpdesk_title").unwrap(), "Desk");
    assert_eq!(r.get("isonline").unwrap(), "1");
    assert!(!r.contains_key("admin_email"));
    assert!(r.contains_key("staff_ip_binding"));
    assert_eq!(r.get("staff_ip_binding").unwrap(), "0");
    let keys = tab_keys(Tab::System);
    for (k, _) in &r.entries {
        assert!(keys.iter().any(|d| d.key == k.as_str()));
    }
}

#[test]
fn truthy_text_values() {
    for (t, on) in [(" YES ", true), ("on", true), ("true", true), ("1", true), ("0", false), ("", false), ("nope", false)] {
        let v = map(&[("enable_kb", text(t))]);
        let r = resolve_tab_values(Tab::Kb, &v);
        assert_eq!(r.get("enable_kb").unwrap(), if on { "1" } else { "0" }, "{t:?}");
    }
    let v = map(&[("enable_kb", SettingValue::Null)]);
    assert_eq!(resolve_tab_values(Tab::Kb, &v).get("enable_kb").unwrap(), "0");
}

#[test]
fn null_non_checkbox_values_are_skipped() {
    let v = map(&[("helpdesk_title", SettingValue::Null), ("helpdesk_name", SettingValue::Bool(false))]);
    let r = resolve_tab_values(Tab::System, &v);
    assert!(!r.contains_key("helpdesk_title"));
    assert_eq!(r.get("helpdesk_name").unwrap(), "0");
}

#[test]
fn log_level_set() {
    assert!(is_known_log_level("error"));
    assert!(is_known_log_level("WARNING"));
    assert!(is_known_log_level("1"));
    assert!(!is_known_log_level("4"));
    assert!(!is_known_log_level("Loud"));
}

#[test]
fn emails_tab_rules() {
    let v = map(&[("admin_email", text("  "))]);
    let r = resolve_tab_values(Tab::Emails, &v);
    let mut errs = StrMap::new();
    validate_emails(&r, false, &mut errs);
    assert_eq!(errs.get("admin_email").unwrap(), "This field is required");

    let v = map(&[("admin_email", text("nope"))]);
    let r = resolve_tab_values(Tab::Emails, &v);
    let mut errs = StrMap::new();
    validate_emails(&r, false, &mut errs);
    assert_eq!(errs.get("admin_email").unwrap(), "Enter a valid email address");
    assert_eq!(admin_email_to_check(&r), None);

    let v = map(&[("admin_email", text(" ops@example.com ")), ("strip_quoted_reply", num(1))]);
    let r = resolve_tab_values(Tab::Emails, &v);
    assert_eq!(admin_email_to_check(&r).as_deref(), Some("ops@example.com"));
    let mut errs = StrMap::new();
    validate_emails(&r, true, &mut errs);
    assert_eq!(errs.get("admin_email").unwrap(), "Cannot be a system/department email address");
    assert_eq!(errs.get("reply_separator").unwrap(), "This field is required");
}

#[test]
fn only_the_submitted_tab_is_validated() {
    let v = map(&[("max_open_tickets", text("abc"))]);
    let r = resolve_tab_values(Tab::Kb, &v);
    assert!(validate_tab(Tab::Kb, &r, false).is_empty());
    let r = resolve_tab_values(Tab::Tickets, &v);
    assert!(validate_tab(Tab::Tickets, &r, false).contains_key("max_open_tickets"));
}

#[test]
fn save_plan_outcomes() {
    let v = map(&[]);
    let e = plan_save("bogus", &v, false).unwrap_err();
    assert_eq!(e.message, "Unknown settings tab: bogus");
    assert_eq!(e.status(), 422);

    let v = map(&[("ticket_alert_active", num(1))]);
    let e = plan_save("alerts", &v, false).unwrap_err();
    assert_eq!(e.message, "Please correct the errors below");
    assert_eq!(e.fields.get("ticket_alert_active").unwrap(), "Select recipient(s)");

    let v = map(&[("enable_kb", num(1))]);
    let (tab, resolved) = plan_save("kb", &v, false).unwrap();
    assert_eq!(tab, Tab::Kb);
    assert_eq!(resolved.get("enable_kb").unwrap(), "1");
    assert_eq!(resolved.get("enable_premade").unwrap(), "0");
}

#[test]
fn unchanged_values_are_not_written() {
    let v = map(&[("enable_kb", num(1))]);
    let resolved = resolve_tab_values(Tab::Kb, &v);
    let mut current = StrMap::new();
    current.insert("enable_kb", "1");
    current.insert("enable_premade", "1");
    let w = changed_entries(&resolved, &current);
    assert_eq!(w.entries, vec![("enable_premade".to_string(), "0".to_string())]);
}

#[test]
fn stored_values_are_bucketed_by_tab() {
    let mut cfg = StrMap::new();
    cfg.insert("enable_kb", "1");
    cfg.insert("helpdesk_title", "Desk");
    let kb = tab_values(Tab::Kb, &cfg);
    assert_eq!(kb.entries, vec![("enable_kb".to_string(), "1".to_string())]);
    let sys = tab_values(Tab::System, &cfg);
    assert_eq!(sys.entries, vec![("helpdesk_title".to_string(), "Desk".to_string())]);
}

#[test]
fn saved_tab_reads_back() {
    let before = StrMap {
        entries: vec![
            ("enable_kb".to_string(), "1".to_string()),
            ("enable_premade".to_string(), "1".to_string()),
            ("isonline".to_string(), "1".to_string()),
        ],
    };
    let submitted = map(&[("enable_kb", SettingValue::Bool(false)), ("isonline", SettingValue::Bool(false))]);
    let (tab, resolved) = plan_save("kb", &submitted, false).unwrap();
    assert_eq!(tab, Tab::Kb);
    let writes = changed_entries(&resolved, &before);
    let mut after = before.entries.clone();
    for (k, v) in &writes.entries {
        match after.iter_mut().find(|(key, _)| key == k) {
            Some(slot) => slot.1 = v.clone(),
            None => after.push((k.clone(), v.clone())),
        }
    }
    let shown = tab_values(Tab::Kb, &StrMap { entries: after.clone() });
    assert_eq!(
        shown.entries,
        vec![("enable_kb".to_string(), "0".to_string()), ("enable_premade".to_string(), "0".to_string())]
    );
    assert_eq!(after.iter().find(|(k, _)| k == "isonline").unwrap().1, "1");
}
