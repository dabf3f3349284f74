//! System settings: the eight tabs, the key-to-tab table that is both the
//! read bucketing and the write allowlist, checkbox resolution by presence,
//! and each tab's validators.
use vstd::prelude::*;

use crate::error::{entries_map, ApiError, ErrorKind, StrMap};
use crate::staff::{is_valid_email, valid_email};
use crate::text::{
    ascii_lower, chars_of, eq_ignore_ascii_case, is_blank, lower_char_exec, opt_view, owned, parse_u64, parse_u64_exec,
    str_eq, trim, trim_str,
};

verus! {

/// The eight settings tabs.
#[derive(Debug, Clone, Copy, PartialEq, Eq, Structural)]
pub enum Tab {
    System,
    Tickets,
    Emails,
    Pages,
    Kb,
    Autoresp,
    Alerts,
    Attach,
}

/// The tab a wire name names, if any.
pub open spec fn tab_of(s: Seq<char>) -> Option<Tab> {
    if s == "system"@ {
        Some(Tab::System)
    } else if s == "tickets"@ {
        Some(Tab::Tickets)
    } else if s == "emails"@ {
        Some(Tab::Emails)
    } else if s == "pages"@ {
        Some(Tab::Pages)
    } else if s == "kb"@ {
        Some(Tab::Kb)
    } else if s == "autoresp"@ {
        Some(Tab::Autoresp)
    } else if s == "alerts"@ {
        Some(Tab::Alerts)
    } else if s == "attach"@ {
        Some(Tab::Attach)
    } else {
        None
    }
}

impl Tab {
    pub open spec fn name(self) -> Seq<char> {
        match self {
            Tab::System => "system"@,
            Tab::Tickets => "tickets"@,
            Tab::Emails => "emails"@,
            Tab::Pages => "pages"@,
            Tab::Kb => "kb"@,
            Tab::Autoresp => "autoresp"@,
            Tab::Alerts => "alerts"@,
            Tab::Attach => "attach"@,
        }
    }

    /// Every tab, in the order the settings page lists them.
    pub fn all() -> (r: [Tab; 8])
        ensures
            r@ == seq![Tab::System, Tab::Tickets, Tab::Emails, Tab::Pages, Tab::Kb, Tab::Autoresp, Tab::Alerts, Tab::Attach],
    {
        let r = [Tab::System, Tab::Tickets, Tab::Emails, Tab::Pages, Tab::Kb, Tab::Autoresp, Tab::Alerts, Tab::Attach];
        assert(r@ =~= seq![Tab::System, Tab::Tickets, Tab::Emails, Tab::Pages, Tab::Kb, Tab::Autoresp, Tab::Alerts, Tab::Attach]);
        r
    }

    /// Wire name of the tab.
    pub fn as_str(self) -> (r: &'static str)
        ensures
            r@ == self.name(),
    {
        match self {
            Tab::System => "system",
            Tab::Tickets => "tickets",
            Tab::Emails => "emails",
            Tab::Pages => "pages",
            Tab::Kb => "kb",
            Tab::Autoresp => "autoresp",
            Tab::Alerts => "alerts",
            Tab::Attach => "attach",
        }
    }

    /// Parses a tab name; `None` for an unknown tab.
    pub fn from_name(s: &str) -> (r: Option<Tab>)
        ensures
            r == tab_of(s@),
    {
        if str_eq(s, "system") {
            Some(Tab::System)
        } else if str_eq(s, "tickets") {
            Some(Tab::Tickets)
        } else if str_eq(s, "emails") {
            Some(Tab::Emails)
        } else if str_eq(s, "pages") {
            Some(Tab::Pages)
        } else if str_eq(s, "kb") {
            Some(Tab::Kb)
        } else if str_eq(s, "autoresp") {
            Some(Tab::Autoresp)
        } else if str_eq(s, "alerts") {
            Some(Tab::Alerts)
        } else if str_eq(s, "attach") {
            Some(Tab::Attach)
        } else {
            None
        }
    }
}

/// Every tab's name parses back to that tab.
pub proof fn law_tab_name_round_trip(tab: Tab)
    ensures
        tab_of(tab.name()) == Some(tab),
{
    reveal_strlit("system");
    reveal_strlit("tickets");
    reveal_strlit("emails");
    reveal_strlit("pages");
    reveal_strlit("kb");
    reveal_strlit("autoresp");
    reveal_strlit("alerts");
    reveal_strlit("attach");
    match tab {
        Tab::System => {},
        Tab::Tickets => {
            assert("tickets"@[0] != "system"@[0]);
        },
        Tab::Emails => {
            assert("emails"@[0] != "system"@[0]);
            assert("emails"@[0] != "tickets"@[0]);
        },
        Tab::Pages => {
            assert("pages"@[0] != "system"@[0]);
            assert("pages"@[0] != "tickets"@[0]);
            assert("pages"@[0] != "emails"@[0]);
        },
        Tab::Kb => {
            assert("kb"@[0] != "system"@[0]);
            assert("kb"@[0] != "tickets"@[0]);
            assert("kb"@[0] != "emails"@[0]);
            assert("kb"@[0] != "pages"@[0]);
        },
        Tab::Autoresp => {
            assert("autoresp"@[0] != "system"@[0]);
            assert("autoresp"@[0] != "tickets"@[0]);
            assert("autoresp"@[0] != "emails"@[0]);
            assert("autoresp"@[0] != "pages"@[0]);
            assert("autoresp"@[0] != "kb"@[0]);
        },
        Tab::Alerts => {
            assert("alerts"@[0] != "system"@[0]);
            assert("alerts"@[0] != "tickets"@[0]);
            assert("alerts"@[0] != "emails"@[0]);
            assert("alerts"@[0] != "pages"@[0]);
            assert("alerts"@[0] != "kb"@[0]);
            assert("alerts"@[1] != "autoresp"@[1]);
        },
        Tab::Attach => {
            assert("attach"@[0] != "system"@[0]);
            assert("attach"@[0] != "tickets"@[0]);
            assert("attach"@[0] != "emails"@[0]);
            assert("attach"@[0] != "pages"@[0]);
            assert("attach"@[0] != "kb"@[0]);
            assert("attach"@[1] != "autoresp"@[1]);
            assert("attach"@[1] != "alerts"@[1]);
        },
    }
}

// ---------------------------------------------------------------------------
// The key table.
// ---------------------------------------------------------------------------

/// One config key's tab and input kind: a presence-valued checkbox and/or a
/// non-negative integer field.
#[derive(Debug, Clone, Copy)]
pub struct KeyDef {
    pub key: &'static str,
    pub tab: Tab,
    pub checkbox: bool,
    pub numeric: bool,
}

/// A key definition.
pub fn kd(key: &'static str, tab: Tab, checkbox: bool, numeric: bool) -> (r: KeyDef)
    ensures
        r.key == key,
        r.tab == tab,
        r.checkbox == checkbox,
        r.numeric == numeric,
{
    KeyDef { key, tab, checkbox, numeric }
}

pub open spec fn def_view(d: KeyDef) -> (Seq<char>, bool, bool) {
    (d.key@, d.checkbox, d.numeric)
}

/// The keys of each tab, in table order: `(key, checkbox, numeric)`.
pub open spec fn tab_keys_spec(tab: Tab) -> Seq<(Seq<char>, bool, bool)> {
    match tab {
        Tab::System => seq![
            ("isonline"@, true, false),
            ("offline_reason"@, false, false),
            ("helpdesk_title"@, false, false),
            ("helpdesk_name"@, false, false),
            ("default_locale"@, false, false),
            ("log_level"@, false, false),
            ("log_graceperiod"@, false, true),
            ("passwd_reset_period"@, false, true),
            ("staff_max_logins"@, false, true),
            ("staff_login_timeout"@, false, true),
            ("staff_session_timeout"@, false, true),
            ("staff_ip_binding"@, true, false),
            ("client_max_logins"@, false, true),
            ("client_login_timeout"@, false, true),
            ("client_session_timeout"@, false, true),
            ("allow_pw_reset"@, true, false),
            ("pw_reset_window"@, false, true),
            ("time_format"@, false, false),
            ("date_format"@, false, false),
            ("datetime_format"@, false, false),
            ("daydatetime_format"@, false, false),
            ("enable_daylight_saving"@, true, false),
            ("db_tz_offset"@, false, false),
            ("tz_offset"@, false, false),
            ("default_timezone_id"@, false, false),
            ("helpdesk_url"@, false, false),
            ("max_page_size"@, false, true)
        ],
        Tab::Tickets => seq![
            ("default_help_topic"@, false, true),
            ("random_ticket_ids"@, true, false),
            ("max_open_tickets"@, false, true),
            ("autolock_minutes"@, false, true),
            ("allow_priority_change"@, true, false),
            ("use_email_priority"@, true, false),
            ("enable_captcha"@, true, false),
            ("log_ticket_activity"@, true, false),
            ("auto_assign_reopened_tickets"@, true, false),
            ("show_related_tickets"@, true, false),
            ("show_notes_inline"@, true, false),
            ("clickable_urls"@, true, false),
            ("hide_staff_name"@, true, false),
            ("overdue_grace_period"@, false, true),
            ("default_priority_id"@, false, true),
            ("default_sla_id"@, false, true),
            ("default_dept_id"@, false, true),
            ("default_ticket_status"@, false, false),
            ("default_priority"@, false, false),
            ("show_assigned_tickets"@, true, false),
            ("show_answered_tickets"@, true, false),
            ("ticket_lock_time"@, false, true)
        ],
        Tab::Emails => seq![
            ("default_smtp_id"@, false, false),
            ("admin_email"@, false, false),
            ("enable_auto_cron"@, true, false),
            ("enable_mail_polling"@, true, false),
            ("allow_email_spoofing"@, true, false),
            ("save_email_headers"@, true, false),
            ("strip_quoted_reply"@, true, false),
            ("reply_separator"@, false, false),
            ("upload_dir"@, false, false),
            ("schema_signature"@, false, false),
            ("default_email_id"@, false, false),
            ("alert_email_id"@, false, false),
            ("default_template_id"@, false, false)
        ],
        Tab::Pages => seq![
            ("landing_page_id"@, false, false),
            ("offline_page_id"@, false, false),
            ("thank-you_page_id"@, false, false),
            ("client_logo_id"@, false, false)
        ],
        Tab::Kb => seq![
            ("enable_kb"@, true, false),
            ("enable_premade"@, true, false)
        ],
        Tab::Autoresp => seq![
            ("ticket_autoresponder"@, true, false),
            ("message_autoresponder"@, true, false),
            ("ticket_notice_active"@, true, false),
            ("overlimit_notice_active"@, true, false)
        ],
        Tab::Alerts => seq![
            ("ticket_alert_active"@, true, false),
            ("ticket_alert_admin"@, true, false),
            ("ticket_alert_dept_manager"@, true, false),
            ("ticket_alert_dept_members"@, true, false),
            ("message_alert_active"@, true, false),
            ("message_alert_laststaff"@, true, false),
            ("message_alert_assigned"@, true, false),
            ("message_alert_dept_manager"@, true, false),
            ("note_alert_active"@, true, false),
            ("note_alert_laststaff"@, true, false),
            ("note_alert_assigned"@, true, false),
            ("note_alert_dept_manager"@, true, false),
            ("assigned_alert_active"@, true, false),
            ("assigned_alert_staff"@, true, false),
            ("assigned_alert_team_lead"@, true, false),
            ("assigned_alert_team_members"@, true, false),
            ("transfer_alert_active"@, true, false),
            ("transfer_alert_assigned"@, true, false),
            ("transfer_alert_dept_manager"@, true, false),
            ("transfer_alert_dept_members"@, true, false),
            ("overdue_alert_active"@, true, false),
            ("overdue_alert_assigned"@, true, false),
            ("overdue_alert_dept_manager"@, true, false),
            ("overdue_alert_dept_members"@, true, false),
            ("send_sys_errors"@, true, false),
            ("send_sql_errors"@, true, false),
            ("send_login_errors"@, true, false),
            ("send_mailparse_errors"@, true, false)
        ],
        Tab::Attach => seq![
            ("allow_attachments"@, true, false),
            ("email_attachments"@, true, false),
            ("allow_email_attachments"@, true, false),
            ("allow_online_attachments"@, true, false),
            ("allow_online_attachments_onlogin"@, true, false),
            ("allow_api_attachments"@, true, false),
            ("max_user_file_uploads"@, false, true),
            ("max_staff_file_uploads"@, false, true),
            ("max_file_uploads"@, false, true),
            ("max_file_size"@, false, true),
            ("allowed_filetypes"@, false, false)
        ],
    }
}

/// The key definitions of one tab.
pub fn tab_keys(tab: Tab) -> (r: Vec<KeyDef>)
    ensures
        r@.map_values(|d: KeyDef| def_view(d)) == tab_keys_spec(tab),
        forall|i: int| 0 <= i < r@.len() ==> (#[trigger] r@[i]).tab == tab,
{
    let mut v: Vec<KeyDef> = Vec::new();
    match tab {
        Tab::System => {
            v.push(kd("isonline", Tab::System, true, false));
            v.push(kd("offline_reason", Tab::System, false, false));
            v.push(kd("helpdesk_title", Tab::System, false, false));
            v.push(kd("helpdesk_name", Tab::System, false, false));
            v.push(kd("default_locale", Tab::System, false, false));
            v.push(kd("log_level", Tab::System, false, false));
            v.push(kd("log_graceperiod", Tab::System, false, true));
            v.push(kd("passwd_reset_period", Tab::System, false, true));
            v.push(kd("staff_max_logins", Tab::System, false, true));
            v.push(kd("staff_login_timeout", Tab::System, false, true));
            v.push(kd("staff_session_timeout", Tab::System, false, true));
            v.push(kd("staff_ip_binding", Tab::System, true, false));
            v.push(kd("client_max_logins", Tab::System, false, true));
            v.push(kd("client_login_timeout", Tab::System, false, true));
            v.push(kd("client_session_timeout", Tab::System, false, true));
            v.push(kd("allow_pw_reset", Tab::System, true, false));
            v.push(kd("pw_reset_window", Tab::System, false, true));
            v.push(kd("time_format", Tab::System, false, false));
            v.push(kd("date_format", Tab::System, false, false));
            v.push(kd("datetime_format", Tab::System, false, false));
            v.push(kd("daydatetime_format", Tab::System, false, false));
            v.push(kd("enable_daylight_saving", Tab::System, true, false));
            v.push(kd("db_tz_offset", Tab::System, false, false));
            v.push(kd("tz_offset", Tab::System, false, false));
            v.push(kd("default_timezone_id", Tab::System, false, false));
            v.push(kd("helpdesk_url", Tab::System, false, false));
            v.push(kd("max_page_size", Tab::System, false, true));
        },
        Tab::Tickets => {
            v.push(kd("default_help_topic", Tab::Tickets, false, true));
            v.push(kd("random_ticket_ids", Tab::Tickets, true, false));
            v.push(kd("max_open_tickets", Tab::Tickets, false, true));
            v.push(kd("autolock_minutes", Tab::Tickets, false, true));
            v.push(kd("allow_priority_change", Tab::Tickets, true, false));
            v.push(kd("use_email_priority", Tab::Tickets, true, false));
            v.push(kd("enable_captcha", Tab::Tickets, true, false));
            v.push(kd("log_ticket_activity", Tab::Tickets, true, false));
            v.push(kd("auto_assign_reopened_tickets", Tab::Tickets, true, false));
            v.push(kd("show_related_tickets", Tab::Tickets, true, false));
            v.push(kd("show_notes_inline", Tab::Tickets, true, false));
            v.push(kd("clickable_urls", Tab::Tickets, true, false));
            v.push(kd("hide_staff_name", Tab::Tickets, true, false));
            v.push(kd("overdue_grace_period", Tab::Tickets, false, true));
            v.push(kd("default_priority_id", Tab::Tickets, false, true));
            v.push(kd("default_sla_id", Tab::Tickets, false, true));
            v.push(kd("default_dept_id", Tab::Tickets, false, true));
            v.push(kd("default_ticket_status", Tab::Tickets, false, false));
            v.push(kd("default_priority", Tab::Tickets, false, false));
            v.push(kd("show_assigned_tickets", Tab::Tickets, true, false));
            v.push(kd("show_answered_tickets", Tab::Tickets, true, false));
            v.push(kd("ticket_lock_time", Tab::Tickets, false, true));
        },
        Tab::Emails => {
            v.push(kd("default_smtp_id", Tab::Emails, false, false));
            v.push(kd("admin_email", Tab::Emails, false, false));
            v.push(kd("enable_auto_cron", Tab::Emails, true, false));
            v.push(kd("enable_mail_polling", Tab::Emails, true, false));
            v.push(kd("allow_email_spoofing", Tab::Emails, true, false));
            v.push(kd("save_email_headers", Tab::Emails, true, false));
            v.push(kd("strip_quoted_reply", Tab::Emails, true, false));
            v.push(kd("reply_separator", Tab::Emails, false, false));
            v.push(kd("upload_dir", Tab::Emails, false, false));
            v.push(kd("schema_signature", Tab::Emails, false, false));
            v.push(kd("default_email_id", Tab::Emails, false, false));
            v.push(kd("alert_email_id", Tab::Emails, false, false));
            v.push(kd("default_template_id", Tab::Emails, false, false));
        },
        Tab::Pages => {
            v.push(kd("landing_page_id", Tab::Pages, false, false));
            v.push(kd("offline_page_id", Tab::Pages, false, false));
            v.push(kd("thank-you_page_id", Tab::Pages, false, false));
            v.push(kd("client_logo_id", Tab::Pages, false, false));
        },
        Tab::Kb => {
            v.push(kd("enable_kb", Tab::Kb, true, false));
            v.push(kd("enable_premade", Tab::Kb, true, false));
        },
        Tab::Autoresp => {
            v.push(kd("ticket_autoresponder", Tab::Autoresp, true, false));
            v.push(kd("message_autoresponder", Tab::Autoresp, true, false));
            v.push(kd("ticket_notice_active", Tab::Autoresp, true, false));
            v.push(kd("overlimit_notice_active", Tab::Autoresp, true, false));
        },
        Tab::Alerts => {
            v.push(kd("ticket_alert_active", Tab::Alerts, true, false));
            v.push(kd("ticket_alert_admin", Tab::Alerts, true, false));
            v.push(kd("ticket_alert_dept_manager", Tab::Alerts, true, false));
            v.push(kd("ticket_alert_dept_members", Tab::Alerts, true, false));
            v.push(kd("message_alert_active", Tab::Alerts, true, false));
            v.push(kd("message_alert_laststaff", Tab::Alerts, true, false));
            v.push(kd("message_alert_assigned", Tab::Alerts, true, false));
            v.push(kd("message_alert_dept_manager", Tab::Alerts, true, false));
            v.push(kd("note_alert_active", Tab::Alerts, true, false));
            v.push(kd("note_alert_laststaff", Tab::Alerts, true, false));
            v.push(kd("note_alert_assigned", Tab::Alerts, true, false));
            v.push(kd("note_alert_dept_manager", Tab::Alerts, true, false));
            v.push(kd("assigned_alert_active", Tab::Alerts, true, false));
            v.push(kd("assigned_alert_staff", Tab::Alerts, true, false));
            v.push(kd("assigned_alert_team_lead", Tab::Alerts, true, false));
            v.push(kd("assigned_alert_team_members", Tab::Alerts, true, false));
            v.push(kd("transfer_alert_active", Tab::Alerts, true, false));
            v.push(kd("transfer_alert_assigned", Tab::Alerts, true, false));
            v.push(kd("transfer_alert_dept_manager", Tab::Alerts, true, false));
            v.push(kd("transfer_alert_dept_members", Tab::Alerts, true, false));
            v.push(kd("overdue_alert_active", Tab::Alerts, true, false));
            v.push(kd("overdue_alert_assigned", Tab::Alerts, true, false));
            v.push(kd("overdue_alert_dept_manager", Tab::Alerts, true, false));
            v.push(kd("overdue_alert_dept_members", Tab::Alerts, true, false));
            v.push(kd("send_sys_errors", Tab::Alerts, true, false));
            v.push(kd("send_sql_errors", Tab::Alerts, true, false));
            v.push(kd("send_login_errors", Tab::Alerts, true, false));
            v.push(kd("send_mailparse_errors", Tab::Alerts, true, false));
        },
        Tab::Attach => {
            v.push(kd("allow_attachments", Tab::Attach, true, false));
            v.push(kd("email_attachments", Tab::Attach, true, false));
            v.push(kd("allow_email_attachments", Tab::Attach, true, false));
            v.push(kd("allow_online_attachments", Tab::Attach, true, false));
            v.push(kd("allow_online_attachments_onlogin", Tab::Attach, true, false));
            v.push(kd("allow_api_attachments", Tab::Attach, true, false));
            v.push(kd("max_user_file_uploads", Tab::Attach, false, true));
            v.push(kd("max_staff_file_uploads", Tab::Attach, false, true));
            v.push(kd("max_file_uploads", Tab::Attach, false, true));
            v.push(kd("max_file_size", Tab::Attach, false, true));
            v.push(kd("allowed_filetypes", Tab::Attach, false, false));
        },
    }
    assert(v@.map_values(|d: KeyDef| def_view(d)) =~= tab_keys_spec(tab));
    v
}

/// A key definition with its tab: `(tab, (key, checkbox, numeric))`.
pub open spec fn tagged_view(d: KeyDef) -> (Tab, (Seq<char>, bool, bool)) {
    (d.tab, def_view(d))
}

/// The keys of one tab, each tagged with the tab.
pub open spec fn tagged_keys(tab: Tab) -> Seq<(Tab, (Seq<char>, bool, bool))> {
    tab_keys_spec(tab).map_values(|k: (Seq<char>, bool, bool)| (tab, k))
}

/// The keys of the given tabs, tab after tab, each tagged with its tab.
pub open spec fn keys_of_tabs(tabs: Seq<Tab>) -> Seq<(Tab, (Seq<char>, bool, bool))>
    decreases tabs.len(),
{
    if tabs.len() == 0 {
        Seq::empty()
    } else {
        keys_of_tabs(tabs.drop_last()) + tagged_keys(tabs.last())
    }
}

/// Every key definition, in the order of the tabs and, within a tab, in
/// table order.
pub open spec fn all_keys_spec() -> Seq<(Tab, (Seq<char>, bool, bool))> {
    keys_of_tabs(
        seq![Tab::System, Tab::Tickets, Tab::Emails, Tab::Pages, Tab::Kb, Tab::Autoresp, Tab::Alerts, Tab::Attach],
    )
}

/// Every key definition, tab by tab.
pub fn all_keys() -> (r: Vec<KeyDef>)
    ensures
        r@.map_values(|d: KeyDef| tagged_view(d)) == all_keys_spec(),
        forall|i: int| 0 <= i < r@.len() ==> tab_keys_spec((#[trigger] r@[i]).tab).contains(def_view(r@[i])),
{
    let tabs = Tab::all();
    let mut out: Vec<KeyDef> = Vec::new();
    let mut t: usize = 0;
    assert(tabs@.take(0) =~= Seq::<Tab>::empty());
    assert(out@.map_values(|d: KeyDef| tagged_view(d)) =~= keys_of_tabs(tabs@.take(0)));
    while t < 8
        invariant
            t <= 8,
            tabs@ == seq![Tab::System, Tab::Tickets, Tab::Emails, Tab::Pages, Tab::Kb, Tab::Autoresp, Tab::Alerts, Tab::Attach],
            out@.map_values(|d: KeyDef| tagged_view(d)) == keys_of_tabs(tabs@.take(t as int)),
            forall|i: int| 0 <= i < out@.len() ==> tab_keys_spec((#[trigger] out@[i]).tab).contains(def_view(out@[i])),
        decreases 8 - t,
    {
        let defs = tab_keys(tabs[t]);
        let ghost base = keys_of_tabs(tabs@.take(t as int));
        let ghost tab = tabs@[t as int];
        let mut j: usize = 0;
        assert(tagged_keys(tab).take(0) =~= Seq::<(Tab, (Seq<char>, bool, bool))>::empty());
        assert(out@.map_values(|d: KeyDef| tagged_view(d)) =~= base + tagged_keys(tab).take(0));
        while j < defs.len()
            invariant
                j <= defs.len(),
                tab == tabs@[t as int],
                defs@.map_values(|d: KeyDef| def_view(d)) == tab_keys_spec(tabs[t as int]),
                forall|i: int| 0 <= i < defs@.len() ==> (#[trigger] defs@[i]).tab == tabs[t as int],
                out@.map_values(|d: KeyDef| tagged_view(d)) == base + tagged_keys(tab).take(j as int),
                forall|i: int| 0 <= i < out@.len() ==> tab_keys_spec((#[trigger] out@[i]).tab).contains(def_view(out@[i])),
            decreases defs.len() - j,
        {
            let d = defs[j];
            let ghost before = out@;
            proof {
                assert(defs@.map_values(|d: KeyDef| def_view(d))[j as int] == def_view(d));
            }
            out.push(d);
            proof {
                assert(out@ == before.push(d));
                assert(tagged_keys(tab)[j as int] == tagged_view(d));
                assert(tagged_keys(tab).take(j as int + 1) =~= tagged_keys(tab).take(j as int).push(tagged_view(d)));
                assert(out@.map_values(|d: KeyDef| tagged_view(d)) =~= before.map_values(|d: KeyDef| tagged_view(d)).push(tagged_view(d)));
            }
            j = j + 1;
        }
        proof {
            assert(tagged_keys(tab).take(j as int) =~= tagged_keys(tab));
            assert(tabs@.take(t as int + 1).drop_last() =~= tabs@.take(t as int));
            assert(tabs@.take(t as int + 1).last() == tab);
        }
        t = t + 1;
    }
    assert(tabs@.take(8) =~= tabs@);
    out
}

// ---------------------------------------------------------------------------
// Submitted values.
// ---------------------------------------------------------------------------

/// One submitted settings value (the JSON value, as plain data).
#[derive(Debug)]
pub enum SettingValue {
    Null,
    Bool(bool),
    /// A number: its JSON text and whether it is non-zero.
    Number(String, bool),
    Text(String),
    /// An array or object: its JSON text.
    Other(String),
}

/// The submitted `{key: value}` object of a settings save.
#[derive(Debug)]
pub struct Submitted {
    pub entries: Vec<(String, SettingValue)>,
}

/// The value submitted for `key` (the first entry naming it).
pub open spec fn lookup_spec(e: Seq<(String, SettingValue)>, key: Seq<char>) -> Option<SettingValue>
    decreases e.len(),
{
    if e.len() == 0 {
        None
    } else if e[0].0@ == key {
        Some(e[0].1)
    } else {
        lookup_spec(e.drop_first(), key)
    }
}

fn lookup<'a>(values: &'a Submitted, key: &str) -> (r: Option<&'a SettingValue>)
    ensures
        match r {
            Some(v) => lookup_spec(values.entries@, key@) == Some(*v),
            None => lookup_spec(values.entries@, key@).is_none(),
        },
{
    let mut i: usize = 0;
    assert(values.entries@.skip(0) =~= values.entries@);
    while i < values.entries.len()
        invariant
            i <= values.entries.len(),
            lookup_spec(values.entries@, key@) == lookup_spec(values.entries@.skip(i as int), key@),
        decreases values.entries.len() - i,
    {
        assert(values.entries@.skip(i as int).drop_first() =~= values.entries@.skip(i + 1));
        if str_eq(values.entries[i].0.as_str(), key) {
            return Some(&values.entries[i].1);
        }
        i = i + 1;
    }
    None
}

/// Whether a submitted value counts as "checked": `true`, a non-zero number,
/// or text that is `1`, `true`, `on` or `yes` (trimmed, ASCII case-insensitive).
pub open spec fn truthy_spec(v: SettingValue) -> bool {
    match v {
        SettingValue::Bool(b) => b,
        SettingValue::Number(_, nonzero) => nonzero,
        SettingValue::Text(s) => {
            let t = ascii_lower(trim(s@));
            t == "1"@ || t == "true"@ || t == "on"@ || t == "yes"@
        },
        _ => false,
    }
}

/// Whether a submitted value counts as "checked".
pub fn is_truthy(v: &SettingValue) -> (r: bool)
    ensures
        r == truthy_spec(*v),
{
    match v {
        SettingValue::Bool(b) => *b,
        SettingValue::Number(_, nonzero) => *nonzero,
        SettingValue::Text(s) => {
            let t = trim_str(s.as_str());
            let tv = chars_of(t.as_str());
            let mut low: Vec<char> = Vec::new();
            let mut i: usize = 0;
            while i < tv.len()
                invariant
                    i <= tv.len(),
                    low@ == ascii_lower(tv@).take(i as int),
                decreases tv.len() - i,
            {
                low.push(lower_char_exec(tv[i]));
                assert(ascii_lower(tv@).take(i + 1) =~= ascii_lower(tv@).take(i as int).push(ascii_lower(tv@)[i as int]));
                i = i + 1;
            }
            assert(low@ =~= ascii_lower(trim(s@)));
            let l = crate::text::string_of(&low);
            str_eq(l.as_str(), "1") || str_eq(l.as_str(), "true") || str_eq(l.as_str(), "on")
                || str_eq(l.as_str(), "yes")
        },
        _ => false,
    }
}

/// The stored text of a submitted value; `None` for null.
pub open spec fn value_string_spec(v: SettingValue) -> Option<Seq<char>> {
    match v {
        SettingValue::Null => None,
        SettingValue::Text(s) => Some(s@),
        SettingValue::Bool(b) => Some(if b { "1"@ } else { "0"@ }),
        SettingValue::Number(t, _) => Some(t@),
        SettingValue::Other(t) => Some(t@),
    }
}

/// The stored text of a submitted value; `None` for null.
pub fn value_to_string(v: &SettingValue) -> (r: Option<String>)
    ensures
        opt_view(r) == value_string_spec(*v),
{
    match v {
        SettingValue::Null => None,
        SettingValue::Text(s) => Some(owned(s.as_str())),
        SettingValue::Bool(b) => Some(if *b { owned("1") } else { owned("0") }),
        SettingValue::Number(t, _) => Some(owned(t.as_str())),
        SettingValue::Other(t) => Some(owned(t.as_str())),
    }
}

/// The `(key, stored)` pairs a tab would persist, in table order: every
/// checkbox key (`1` when submitted and checked, else `0`), and every other
/// key that was submitted with a non-null value.
pub open spec fn resolve_spec(defs: Seq<(Seq<char>, bool, bool)>, values: Seq<(String, SettingValue)>) -> Seq<(Seq<char>, Seq<char>)>
    decreases defs.len(),
{
    if defs.len() == 0 {
        Seq::empty()
    } else {
        let prev = resolve_spec(defs.drop_last(), values);
        let (k, checkbox, _) = defs.last();
        if checkbox {
            let on = match lookup_spec(values, k) {
                Some(v) => truthy_spec(v),
                None => false,
            };
            prev.push((k, if on { "1"@ } else { "0"@ }))
        } else {
            match lookup_spec(values, k) {
                Some(v) => match value_string_spec(v) {
                    Some(s) => prev.push((k, s)),
                    None => prev,
                },
                None => prev,
            }
        }
    }
}

pub open spec fn pair_views(e: Seq<(String, String)>) -> Seq<(Seq<char>, Seq<char>)> {
    e.map_values(|p: (String, String)| (p.0@, p.1@))
}

/// Resolves the submitted values into what the tab would persist.
pub fn resolve_tab_values(tab: Tab, values: &Submitted) -> (r: StrMap)
    ensures
        pair_views(r.entries@) == resolve_spec(tab_keys_spec(tab), values.entries@),
{
    let defs = tab_keys(tab);
    let mut out = StrMap::new();
    let mut i: usize = 0;
    assert(pair_views(out.entries@) =~= resolve_spec(tab_keys_spec(tab).take(0), values.entries@));
    while i < defs.len()
        invariant
            i <= defs.len(),
            defs@.map_values(|d: KeyDef| def_view(d)) == tab_keys_spec(tab),
            pair_views(out.entries@) == resolve_spec(tab_keys_spec(tab).take(i as int), values.entries@),
        decreases defs.len() - i,
    {
        let d = defs[i];
        proof {
            assert(tab_keys_spec(tab).take(i + 1).drop_last() =~= tab_keys_spec(tab).take(i as int));
            assert(tab_keys_spec(tab)[i as int] == def_view(d));
        }
        let ghost before = out.entries@;
        if d.checkbox {
            let on = match lookup(values, d.key) {
                Some(v) => is_truthy(v),
                None => false,
            };
            out.insert(d.key, if on { "1" } else { "0" });
            proof {
                assert(pair_views(out.entries@) =~= pair_views(before).push((d.key@, out.entries@.last().1@)));
            }
        } else {
            match lookup(values, d.key) {
                Some(v) => match value_to_string(v) {
                    Some(s) => {
                        out.insert(d.key, s.as_str());
                        proof {
                            assert(pair_views(out.entries@) =~= pair_views(before).push((d.key@, s@)));
                        }
                    },
                    None => {},
                },
                None => {},
            }
        }
        i = i + 1;
    }
    proof {
        assert(tab_keys_spec(tab).take(defs.len() as int) =~= tab_keys_spec(tab));
    }
    out
}


/// Every resolved key is one of the tab's keys, and every checkbox key of the
/// tab resolves to `1` or `0` whether or not it was submitted.
pub proof fn lemma_resolve_keys(defs: Seq<(Seq<char>, bool, bool)>, values: Seq<(String, SettingValue)>)
    ensures
        forall|j: int|
            0 <= j < resolve_spec(defs, values).len() ==> exists|i: int|
                0 <= i < defs.len() && (#[trigger] defs[i]).0 == (#[trigger] resolve_spec(defs, values)[j]).0,
        forall|i: int|
            0 <= i < defs.len() && (#[trigger] defs[i]).1 ==> exists|j: int|
                0 <= j < resolve_spec(defs, values).len() && (#[trigger] resolve_spec(defs, values)[j]).0 == defs[i].0
                    && (resolve_spec(defs, values)[j].1 == "1"@ || resolve_spec(defs, values)[j].1 == "0"@),
    decreases defs.len(),
{
    if defs.len() > 0 {
        let prev = resolve_spec(defs.drop_last(), values);
        let cur = resolve_spec(defs, values);
        lemma_resolve_keys(defs.drop_last(), values);
        assert(prev.len() <= cur.len());
        assert forall|j: int| 0 <= j < prev.len() implies #[trigger] cur[j] == prev[j] by {}
        assert forall|j: int| 0 <= j < cur.len() implies exists|i: int|
            0 <= i < defs.len() && (#[trigger] defs[i]).0 == (#[trigger] cur[j]).0 by {
            if j < prev.len() {
                let i = choose|i: int| 0 <= i < defs.drop_last().len() && (#[trigger] defs.drop_last()[i]).0 == prev[j].0;
                assert(defs[i] == defs.drop_last()[i]);
            } else {
                assert(defs[defs.len() - 1].0 == cur[j].0);
            }
        }
        assert forall|i: int| 0 <= i < defs.len() && (#[trigger] defs[i]).1 implies exists|j: int|
            0 <= j < cur.len() && (#[trigger] cur[j]).0 == defs[i].0 && (cur[j].1 == "1"@ || cur[j].1 == "0"@) by {
            if i < defs.len() - 1 {
                assert(defs.drop_last()[i] == defs[i]);
                let j = choose|j: int| 0 <= j < prev.len() && (#[trigger] prev[j]).0 == defs.drop_last()[i].0
                    && (prev[j].1 == "1"@ || prev[j].1 == "0"@);
                assert(cur[j] == prev[j]);
            } else {
                assert(cur[cur.len() - 1].0 == defs[i].0);
            }
        }
    }
}

/// A save resolves only keys of the submitted tab, and every checkbox key of
/// that tab is written as `1` or `0`, submitted or not.
pub proof fn law_save_touches_only_its_tab(tab: Tab, values: Seq<(String, SettingValue)>)
    ensures
        forall|j: int|
            0 <= j < resolve_spec(tab_keys_spec(tab), values).len() ==> exists|i: int|
                0 <= i < tab_keys_spec(tab).len() && (#[trigger] tab_keys_spec(tab)[i]).0 == (#[trigger] resolve_spec(
                    tab_keys_spec(tab),
                    values,
                )[j]).0,
        forall|i: int|
            0 <= i < tab_keys_spec(tab).len() && (#[trigger] tab_keys_spec(tab)[i]).1 ==> exists|j: int|
                0 <= j < resolve_spec(tab_keys_spec(tab), values).len() && (#[trigger] resolve_spec(
                    tab_keys_spec(tab),
                    values,
                )[j]).0 == tab_keys_spec(tab)[i].0 && (resolve_spec(tab_keys_spec(tab), values)[j].1 == "1"@
                    || resolve_spec(tab_keys_spec(tab), values)[j].1 == "0"@),
{
    lemma_resolve_keys(tab_keys_spec(tab), values);
}

// ---------------------------------------------------------------------------
// Validators.
// ---------------------------------------------------------------------------

/// Whether a value set for a numeric key is rejected: non-blank and not a
/// `u64` once trimmed.
pub open spec fn bad_number(s: Seq<char>) -> bool {
    trim(s).len() > 0 && parse_u64(trim(s)).is_none()
}

/// The errors after checking every numeric key of `defs` present in `m`.
pub open spec fn numeric_errors(
    defs: Seq<(Seq<char>, bool, bool)>,
    m: Map<Seq<char>, Seq<char>>,
    errs: Map<Seq<char>, Seq<char>>,
) -> Map<Seq<char>, Seq<char>>
    decreases defs.len(),
{
    if defs.len() == 0 {
        errs
    } else {
        let prev = numeric_errors(defs.drop_last(), m, errs);
        let (k, _, numeric) = defs.last();
        if numeric && m.contains_key(k) && bad_number(m[k]) {
            prev.insert(k, "Enter a positive number"@)
        } else {
            prev
        }
    }
}

/// Checks every non-negative-integer key of `tab` present in `resolved`.
pub fn validate_numeric_keys(tab: Tab, resolved: &StrMap, errors: &mut StrMap)
    ensures
        final(errors)@ == numeric_errors(tab_keys_spec(tab), resolved@, old(errors)@),
{
    let defs = tab_keys(tab);
    let ghost start = errors@;
    let mut i: usize = 0;
    assert(tab_keys_spec(tab).take(0).len() == 0);
    while i < defs.len()
        invariant
            i <= defs.len(),
            defs@.map_values(|d: KeyDef| def_view(d)) == tab_keys_spec(tab),
            errors@ == numeric_errors(tab_keys_spec(tab).take(i as int), resolved@, start),
        decreases defs.len() - i,
    {
        let d = defs[i];
        proof {
            assert(tab_keys_spec(tab).take(i + 1).drop_last() =~= tab_keys_spec(tab).take(i as int));
            assert(tab_keys_spec(tab)[i as int] == def_view(d));
        }
        if d.numeric {
            match resolved.get(d.key) {
                Some(s) => {
                    let t = trim_str(s.as_str());
                    if !is_blank(s.as_str()) && parse_u64_exec(t.as_str()).is_none() {
                        errors.insert(d.key, "Enter a positive number");
                    }
                },
                None => {},
            }
        }
        i = i + 1;
    }
    proof {
        assert(tab_keys_spec(tab).take(defs.len() as int) =~= tab_keys_spec(tab));
    }
}

/// The log levels a stored `log_level` may name: the labels `Error`,
/// `Warning` and `Debug` (ASCII case-insensitive) or their legacy numbers
/// `1`, `2` and `3`.
pub open spec fn known_log_level(t: Seq<char>) -> bool {
    ascii_lower(t) == "error"@ || ascii_lower(t) == "warning"@ || ascii_lower(t) == "debug"@
        || t == "1"@ || t == "2"@ || t == "3"@
}

/// Whether `t` names a known log level.
pub fn is_known_log_level(t: &str) -> (r: bool)
    ensures
        r == known_log_level(t@),
{
    proof {
        reveal_strlit("error");
        reveal_strlit("warning");
        reveal_strlit("debug");
    }
    assert(ascii_lower("error"@) =~= "error"@);
    assert(ascii_lower("warning"@) =~= "warning"@);
    assert(ascii_lower("debug"@) =~= "debug"@);
    eq_ignore_ascii_case(t, "error") || eq_ignore_ascii_case(t, "warning") || eq_ignore_ascii_case(t, "debug")
        || str_eq(t, "1") || str_eq(t, "2") || str_eq(t, "3")
}

/// The errors after checking `log_level`, when present and non-blank.
pub open spec fn log_level_errors(m: Map<Seq<char>, Seq<char>>, errs: Map<Seq<char>, Seq<char>>) -> Map<
    Seq<char>,
    Seq<char>,
> {
    if m.contains_key("log_level"@) && trim(m["log_level"@]).len() > 0 && !known_log_level(
        trim(m["log_level"@]),
    ) {
        errs.insert("log_level"@, "Select a valid log level"@)
    } else {
        errs
    }
}

/// Rejects a `log_level` outside the known set.
pub fn validate_log_level(resolved: &StrMap, errors: &mut StrMap)
    ensures
        final(errors)@ == log_level_errors(resolved@, old(errors)@),
{
    match resolved.get("log_level") {
        Some(s) => {
            let t = trim_str(s.as_str());
            if !is_blank(s.as_str()) && !is_known_log_level(t.as_str()) {
                errors.insert("log_level", "Select a valid log level");
            }
        },
        None => {},
    }
}

/// Whether `k` is resolved to exactly `1`.
pub open spec fn is_on(m: Map<Seq<char>, Seq<char>>, k: Seq<char>) -> bool {
    m.contains_key(k) && m[k] == "1"@
}

/// Whether `key` is resolved to exactly `1`.
pub fn on(resolved: &StrMap, key: &str) -> (r: bool)
    ensures
        r == is_on(resolved@, key@),
{
    match resolved.get(key) {
        Some(s) => str_eq(s.as_str(), "1"),
        None => false,
    }
}

/// One alert event: when its active flag is on, at least one of its three
/// recipient flags must be on too, else the active flag carries an error.
pub open spec fn alert_step(
    m: Map<Seq<char>, Seq<char>>,
    errs: Map<Seq<char>, Seq<char>>,
    active: Seq<char>,
    r1: Seq<char>,
    r2: Seq<char>,
    r3: Seq<char>,
) -> Map<Seq<char>, Seq<char>> {
    if is_on(m, active) && !is_on(m, r1) && !is_on(m, r2) && !is_on(m, r3) {
        errs.insert(active, "Select recipient(s)"@)
    } else {
        errs
    }
}

/// The errors after checking the six alert events.
pub open spec fn alert_errors(m: Map<Seq<char>, Seq<char>>, errs: Map<Seq<char>, Seq<char>>) -> Map<
    Seq<char>,
    Seq<char>,
> {
    let e = alert_step(m, errs, "ticket_alert_active"@, "ticket_alert_admin"@, "ticket_alert_dept_manager"@, "ticket_alert_dept_members"@);
    let e = alert_step(m, e, "message_alert_active"@, "message_alert_laststaff"@, "message_alert_assigned"@, "message_alert_dept_manager"@);
    let e = alert_step(m, e, "note_alert_active"@, "note_alert_laststaff"@, "note_alert_assigned"@, "note_alert_dept_manager"@);
    let e = alert_step(m, e, "assigned_alert_active"@, "assigned_alert_staff"@, "assigned_alert_team_lead"@, "assigned_alert_team_members"@);
    let e = alert_step(m, e, "transfer_alert_active"@, "transfer_alert_assigned"@, "transfer_alert_dept_manager"@, "transfer_alert_dept_members"@);
    alert_step(m, e, "overdue_alert_active"@, "overdue_alert_assigned"@, "overdue_alert_dept_manager"@, "overdue_alert_dept_members"@)
}

/// The alert events and the recipient flags of each: the active flag of an
/// event, then the three flags that name who receives it.
pub open spec fn alert_recipients(active: Seq<char>) -> Option<(Seq<char>, Seq<char>, Seq<char>)> {
    if active == "ticket_alert_active"@ {
        Some(("ticket_alert_admin"@, "ticket_alert_dept_manager"@, "ticket_alert_dept_members"@))
    } else if active == "message_alert_active"@ {
        Some(("message_alert_laststaff"@, "message_alert_assigned"@, "message_alert_dept_manager"@))
    } else if active == "note_alert_active"@ {
        Some(("note_alert_laststaff"@, "note_alert_assigned"@, "note_alert_dept_manager"@))
    } else if active == "assigned_alert_active"@ {
        Some(("assigned_alert_staff"@, "assigned_alert_team_lead"@, "assigned_alert_team_members"@))
    } else if active == "transfer_alert_active"@ {
        Some(("transfer_alert_assigned"@, "transfer_alert_dept_manager"@, "transfer_alert_dept_members"@))
    } else if active == "overdue_alert_active"@ {
        Some(("overdue_alert_assigned"@, "overdue_alert_dept_manager"@, "overdue_alert_dept_members"@))
    } else {
        None
    }
}

proof fn lemma_alert_actives_distinct()
    ensures
        "ticket_alert_active"@ != "message_alert_active"@,
        "ticket_alert_active"@ != "note_alert_active"@,
        "ticket_alert_active"@ != "assigned_alert_active"@,
        "ticket_alert_active"@ != "transfer_alert_active"@,
        "ticket_alert_active"@ != "overdue_alert_active"@,
        "message_alert_active"@ != "note_alert_active"@,
        "message_alert_active"@ != "assigned_alert_active"@,
        "message_alert_active"@ != "transfer_alert_active"@,
        "message_alert_active"@ != "overdue_alert_active"@,
        "note_alert_active"@ != "assigned_alert_active"@,
        "note_alert_active"@ != "transfer_alert_active"@,
        "note_alert_active"@ != "overdue_alert_active"@,
        "assigned_alert_active"@ != "transfer_alert_active"@,
        "assigned_alert_active"@ != "overdue_alert_active"@,
        "transfer_alert_active"@ != "overdue_alert_active"@,
{
    reveal_strlit("ticket_alert_active");
    reveal_strlit("message_alert_active");
    reveal_strlit("note_alert_active");
    reveal_strlit("assigned_alert_active");
    reveal_strlit("transfer_alert_active");
    reveal_strlit("overdue_alert_active");
    assert("ticket_alert_active"@[0] != "message_alert_active"@[0]);
    assert("ticket_alert_active"@[0] != "note_alert_active"@[0]);
    assert("ticket_alert_active"@[0] != "assigned_alert_active"@[0]);
    assert("ticket_alert_active"@[1] != "transfer_alert_active"@[1]);
    assert("ticket_alert_active"@[0] != "overdue_alert_active"@[0]);
    assert("message_alert_active"@[0] != "note_alert_active"@[0]);
    assert("message_alert_active"@[0] != "assigned_alert_active"@[0]);
    assert("message_alert_active"@[0] != "transfer_alert_active"@[0]);
    assert("message_alert_active"@[0] != "overdue_alert_active"@[0]);
    assert("note_alert_active"@[0] != "assigned_alert_active"@[0]);
    assert("note_alert_active"@[0] != "transfer_alert_active"@[0]);
    assert("note_alert_active"@[0] != "overdue_alert_active"@[0]);
    assert("assigned_alert_active"@[0] != "transfer_alert_active"@[0]);
    assert("assigned_alert_active"@[0] != "overdue_alert_active"@[0]);
    assert("transfer_alert_active"@[0] != "overdue_alert_active"@[0]);
}

/// An enabled alert event needs a recipient: after the alert check, the
/// active flag of an event in the table carries an error exactly when the
/// event is on and none of its three recipient flags is on, and that error
/// is "Select recipient(s)". (The flag carried no error before.)
pub proof fn law_alert_needs_a_recipient(
    m: Map<Seq<char>, Seq<char>>,
    errs: Map<Seq<char>, Seq<char>>,
    active: Seq<char>,
)
    requires
        alert_recipients(active).is_some(),
        !errs.contains_key(active),
    ensures
        alert_errors(m, errs).contains_key(active) == (is_on(m, active) && !is_on(m, alert_recipients(active).unwrap().0)
            && !is_on(m, alert_recipients(active).unwrap().1) && !is_on(m, alert_recipients(active).unwrap().2)),
        alert_errors(m, errs).contains_key(active) ==> alert_errors(m, errs)[active] == "Select recipient(s)"@,
{
    lemma_alert_actives_distinct();
}

fn check_alert(resolved: &StrMap, errors: &mut StrMap, active: &str, r1: &str, r2: &str, r3: &str)
    ensures
        final(errors)@ == alert_step(resolved@, old(errors)@, active@, r1@, r2@, r3@),
{
    if on(resolved, active) && !(on(resolved, r1) || on(resolved, r2) || on(resolved, r3)) {
        errors.insert(active, "Select recipient(s)");
    }
}

/// An enabled alert event with no recipient is an error on its active flag.
pub fn validate_alerts(resolved: &StrMap, errors: &mut StrMap)
    ensures
        final(errors)@ == alert_errors(resolved@, old(errors)@),
        forall|k: Seq<char>|
            #![trigger alert_recipients(k)]
            alert_recipients(k).is_some() && !old(errors)@.contains_key(k) ==> (final(errors)@.contains_key(k) == (
            is_on(resolved@, k) && !is_on(resolved@, alert_recipients(k).unwrap().0) && !is_on(
                resolved@,
                alert_recipients(k).unwrap().1,
            ) && !is_on(resolved@, alert_recipients(k).unwrap().2))),
{
    proof {
        assert forall|k: Seq<char>|
            #![trigger alert_recipients(k)]
            alert_recipients(k).is_some() && !errors@.contains_key(k) implies (alert_errors(
            resolved@,
            errors@,
        ).contains_key(k) == (is_on(resolved@, k) && !is_on(resolved@, alert_recipients(k).unwrap().0) && !is_on(
            resolved@,
            alert_recipients(k).unwrap().1,
        ) && !is_on(resolved@, alert_recipients(k).unwrap().2))) by {
            law_alert_needs_a_recipient(resolved@, errors@, k);
        }
    }
    check_alert(resolved, errors, "ticket_alert_active", "ticket_alert_admin", "ticket_alert_dept_manager", "ticket_alert_dept_members");
    check_alert(resolved, errors, "message_alert_active", "message_alert_laststaff", "message_alert_assigned", "message_alert_dept_manager");
    check_alert(resolved, errors, "note_alert_active", "note_alert_laststaff", "note_alert_assigned", "note_alert_dept_manager");
    check_alert(resolved, errors, "assigned_alert_active", "assigned_alert_staff", "assigned_alert_team_lead", "assigned_alert_team_members");
    check_alert(resolved, errors, "transfer_alert_active", "transfer_alert_assigned", "transfer_alert_dept_manager", "transfer_alert_dept_members");
    check_alert(resolved, errors, "overdue_alert_active", "overdue_alert_assigned", "overdue_alert_dept_manager", "overdue_alert_dept_members");
}

/// The errors after the attachment check: the numeric sub-fields are only
/// checked while `allow_attachments` is on.
pub open spec fn attach_errors(m: Map<Seq<char>, Seq<char>>, errs: Map<Seq<char>, Seq<char>>) -> Map<
    Seq<char>,
    Seq<char>,
> {
    if is_on(m, "allow_attachments"@) {
        numeric_errors(tab_keys_spec(Tab::Attach), m, errs)
    } else {
        errs
    }
}

/// Checks the attachment sub-fields while attachments are allowed.
pub fn validate_attach(resolved: &StrMap, errors: &mut StrMap)
    ensures
        final(errors)@ == attach_errors(resolved@, old(errors)@),
{
    if on(resolved, "allow_attachments") {
        validate_numeric_keys(Tab::Attach, resolved, errors);
    }
}

/// The trimmed `admin_email` that must be checked against the system email
/// accounts: present, non-blank and of email shape.
pub open spec fn admin_email_candidate(m: Map<Seq<char>, Seq<char>>) -> Option<Seq<char>> {
    if m.contains_key("admin_email"@) && trim(m["admin_email"@]).len() > 0 && valid_email(
        trim(m["admin_email"@]),
    ) {
        Some(trim(m["admin_email"@]))
    } else {
        None
    }
}

/// The trimmed `admin_email` to look up among the system email accounts, if
/// the check reaches that lookup.
pub fn admin_email_to_check(resolved: &StrMap) -> (r: Option<String>)
    ensures
        opt_view(r) == admin_email_candidate(resolved@),
{
    match resolved.get("admin_email") {
        Some(s) => {
            let t = trim_str(s.as_str());
            if !is_blank(s.as_str()) && is_valid_email(t.as_str()) {
                Some(t)
            } else {
                None
            }
        },
        None => None,
    }
}

/// The errors after the Emails tab check. `clash` says whether the trimmed
/// `admin_email` is the address of a system email account.
pub open spec fn email_errors(m: Map<Seq<char>, Seq<char>>, clash: bool, errs: Map<Seq<char>, Seq<char>>) -> Map<
    Seq<char>,
    Seq<char>,
> {
    let e = if m.contains_key("admin_email"@) {
        let a = trim(m["admin_email"@]);
        if a.len() == 0 {
            errs.insert("admin_email"@, "This field is required"@)
        } else if !valid_email(a) {
            errs.insert("admin_email"@, "Enter a valid email address"@)
        } else if clash {
            errs.insert("admin_email"@, "Cannot be a system/department email address"@)
        } else {
            errs
        }
    } else {
        errs
    };
    if is_on(m, "strip_quoted_reply"@) && !(m.contains_key("reply_separator"@) && trim(
        m["reply_separator"@],
    ).len() > 0) {
        e.insert("reply_separator"@, "This field is required"@)
    } else {
        e
    }
}

/// The Emails tab check: `admin_email` must be a valid address that is not a
/// system email account (`clash`), and stripping quoted replies needs a
/// non-blank `reply_separator`.
pub fn validate_emails(resolved: &StrMap, clash: bool, errors: &mut StrMap)
    ensures
        final(errors)@ == email_errors(resolved@, clash, old(errors)@),
{
    match resolved.get("admin_email") {
        Some(s) => {
            let t = trim_str(s.as_str());
            if is_blank(s.as_str()) {
                errors.insert("admin_email", "This field is required");
            } else if !is_valid_email(t.as_str()) {
                errors.insert("admin_email", "Enter a valid email address");
            } else if clash {
                errors.insert("admin_email", "Cannot be a system/department email address");
            }
        },
        None => {},
    }
    if on(resolved, "strip_quoted_reply") {
        let sep_ok = match resolved.get("reply_separator") {
            Some(s) => !is_blank(s.as_str()),
            None => false,
        };
        if !sep_ok {
            errors.insert("reply_separator", "This field is required");
        }
    }
}

/// The field errors of a tab save: only that tab's validators run.
pub open spec fn tab_errors(tab: Tab, m: Map<Seq<char>, Seq<char>>, clash: bool) -> Map<Seq<char>, Seq<char>> {
    let none = Map::<Seq<char>, Seq<char>>::empty();
    match tab {
        Tab::System => log_level_errors(m, numeric_errors(tab_keys_spec(Tab::System), m, none)),
        Tab::Tickets => numeric_errors(tab_keys_spec(Tab::Tickets), m, none),
        Tab::Emails => email_errors(m, clash, none),
        Tab::Alerts => alert_errors(m, none),
        Tab::Attach => attach_errors(m, none),
        _ => none,
    }
}

/// Runs only the submitted tab's validators over the resolved values.
pub fn validate_tab(tab: Tab, resolved: &StrMap, clash: bool) -> (r: StrMap)
    ensures
        r@ == tab_errors(tab, resolved@, clash),
{
    let mut errors = StrMap::new();
    match tab {
        Tab::System => {
            validate_numeric_keys(tab, resolved, &mut errors);
            validate_log_level(resolved, &mut errors);
        },
        Tab::Tickets => validate_numeric_keys(tab, resolved, &mut errors),
        Tab::Emails => validate_emails(resolved, clash, &mut errors),
        Tab::Alerts => validate_alerts(resolved, &mut errors),
        Tab::Attach => validate_attach(resolved, &mut errors),
        _ => {},
    }
    errors
}


// ---------------------------------------------------------------------------
// Reading and saving.
// ---------------------------------------------------------------------------

/// The map of a list of pairs: later pairs win.
pub open spec fn pairs_map(s: Seq<(Seq<char>, Seq<char>)>) -> Map<Seq<char>, Seq<char>>
    decreases s.len(),
{
    if s.len() == 0 {
        Map::empty()
    } else {
        pairs_map(s.drop_last()).insert(s.last().0, s.last().1)
    }
}

pub proof fn lemma_pairs_map_views(e: Seq<(String, String)>)
    ensures
        pairs_map(pair_views(e)) == entries_map(e),
    decreases e.len(),
{
    if e.len() > 0 {
        assert(pair_views(e).drop_last() =~= pair_views(e.drop_last()));
        lemma_pairs_map_views(e.drop_last());
    }
}

/// What a save of `tab_name` with `values` does, given whether the submitted
/// `admin_email` clashes with a system email account: an unknown tab is
/// refused; otherwise the tab's values are resolved and the tab's validators
/// run over them; any field error refuses the save with those errors.
pub open spec fn save_outcome(tab_name: Seq<char>, values: Seq<(String, SettingValue)>, clash: bool) -> Option<
    (Tab, Seq<(Seq<char>, Seq<char>)>),
> {
    match tab_of(tab_name) {
        None => None,
        Some(tab) => {
            let resolved = resolve_spec(tab_keys_spec(tab), values);
            if tab_errors(tab, pairs_map(resolved), clash).dom().len() == 0 {
                Some((tab, resolved))
            } else {
                None
            }
        },
    }
}

/// Checks a settings save: the tab and the pairs it writes, or the error
/// that refuses it (an unknown tab, or the tab's field errors).
pub fn plan_save(tab_name: &str, values: &Submitted, clash: bool) -> (r: Result<(Tab, StrMap), ApiError>)
    ensures
        match r {
            Ok((tab, m)) => save_outcome(tab_name@, values.entries@, clash) == Some((tab, pair_views(m.entries@))),
            Err(e) => save_outcome(tab_name@, values.entries@, clash).is_none() && e.kind == ErrorKind::Validation
                && match tab_of(tab_name@) {
                None => e.is(ErrorKind::Validation, "Unknown settings tab: "@ + tab_name@),
                Some(tab) => e.message@ == "Please correct the errors below"@ && e.fields@ == tab_errors(
                    tab,
                    pairs_map(resolve_spec(tab_keys_spec(tab), values.entries@)),
                    clash,
                ),
            },
        },
{
    match Tab::from_name(tab_name) {
        None => {
            let mut msg = owned("Unknown settings tab: ");
            crate::text::push_str(&mut msg, tab_name);
            Err(ApiError::validation(msg.as_str()))
        },
        Some(tab) => {
            let resolved = resolve_tab_values(tab, values);
            proof {
                lemma_pairs_map_views(resolved.entries@);
            }
            let errors = validate_tab(tab, &resolved, clash);
            if errors.is_empty() {
                Ok((tab, resolved))
            } else {
                let e = ApiError::validation("Please correct the errors below").with_fields(errors);
                proof {
                    assert(e.fields.entries@ =~= errors.entries@);
                }
                Err(e)
            }
        },
    }
}

/// The stored values of the keys `defs`, in table order; keys with no stored
/// value are left out.
pub open spec fn bucket_spec(defs: Seq<(Seq<char>, bool, bool)>, cfg: Map<Seq<char>, Seq<char>>) -> Seq<
    (Seq<char>, Seq<char>),
>
    decreases defs.len(),
{
    if defs.len() == 0 {
        Seq::empty()
    } else {
        let prev = bucket_spec(defs.drop_last(), cfg);
        let k = defs.last().0;
        if cfg.contains_key(k) {
            prev.push((k, cfg[k]))
        } else {
            prev
        }
    }
}

/// The stored values of one tab's keys, for the settings page.
pub fn tab_values(tab: Tab, cfg: &StrMap) -> (r: StrMap)
    ensures
        pair_views(r.entries@) == bucket_spec(tab_keys_spec(tab), cfg@),
{
    let defs = tab_keys(tab);
    let mut out = StrMap::new();
    let mut i: usize = 0;
    assert(pair_views(out.entries@) =~= bucket_spec(tab_keys_spec(tab).take(0), cfg@));
    while i < defs.len()
        invariant
            i <= defs.len(),
            defs@.map_values(|d: KeyDef| def_view(d)) == tab_keys_spec(tab),
            pair_views(out.entries@) == bucket_spec(tab_keys_spec(tab).take(i as int), cfg@),
        decreases defs.len() - i,
    {
        let d = defs[i];
        proof {
            assert(tab_keys_spec(tab).take(i + 1).drop_last() =~= tab_keys_spec(tab).take(i as int));
            assert(tab_keys_spec(tab)[i as int] == def_view(d));
        }
        let ghost before = out.entries@;
        match cfg.get(d.key) {
            Some(v) => {
                out.insert(d.key, v.as_str());
                proof {
                    assert(pair_views(out.entries@) =~= pair_views(before).push((d.key@, v@)));
                }
            },
            None => {},
        }
        i = i + 1;
    }
    proof {
        assert(tab_keys_spec(tab).take(defs.len() as int) =~= tab_keys_spec(tab));
    }
    out
}

/// The pairs of `s` that change what is stored: those whose key is not
/// already stored with the same value.
pub open spec fn changed_spec(s: Seq<(Seq<char>, Seq<char>)>, current: Map<Seq<char>, Seq<char>>) -> Seq<
    (Seq<char>, Seq<char>),
>
    decreases s.len(),
{
    if s.len() == 0 {
        Seq::empty()
    } else {
        let prev = changed_spec(s.drop_last(), current);
        let (k, v) = s.last();
        if current.contains_key(k) && current[k] == v {
            prev
        } else {
            prev.push((k, v))
        }
    }
}

/// The writes a save makes: unchanged values are skipped.
pub fn changed_entries(resolved: &StrMap, current: &StrMap) -> (r: StrMap)
    ensures
        pair_views(r.entries@) == changed_spec(pair_views(resolved.entries@), current@),
{
    let mut out = StrMap::new();
    let mut i: usize = 0;
    let ghost all = pair_views(resolved.entries@);
    assert(pair_views(out.entries@) =~= changed_spec(all.take(0), current@));
    while i < resolved.entries.len()
        invariant
            i <= resolved.entries.len(),
            all == pair_views(resolved.entries@),
            pair_views(out.entries@) == changed_spec(all.take(i as int), current@),
        decreases resolved.entries.len() - i,
    {
        let k = &resolved.entries[i].0;
        let v = &resolved.entries[i].1;
        proof {
            assert(all.take(i + 1).drop_last() =~= all.take(i as int));
            assert(all[i as int] == (k@, v@));
        }
        let ghost before = out.entries@;
        let same = match current.get(k.as_str()) {
            Some(c) => str_eq(c.as_str(), v.as_str()),
            None => false,
        };
        if !same {
            out.insert(k.as_str(), v.as_str());
            proof {
                assert(pair_views(out.entries@) =~= pair_views(before).push((k@, v@)));
            }
        }
        i = i + 1;
    }
    proof {
        assert(all.take(resolved.entries.len() as int) =~= all);
    }
    out
}


// ---------------------------------------------------------------------------
// Reading back a save.
// ---------------------------------------------------------------------------

/// No key occurs twice in `defs`.
pub open spec fn defs_distinct(defs: Seq<(Seq<char>, bool, bool)>) -> bool {
    forall|i: int, j: int| 0 <= i < j < defs.len() ==> (#[trigger] defs[i]).0 != (#[trigger] defs[j]).0
}

spec fn key_absent(k: Seq<char>, defs: Seq<(Seq<char>, bool, bool)>) -> bool
    decreases defs.len(),
{
    defs.len() == 0 || (defs[0].0 != k && key_absent(k, defs.drop_first()))
}

spec fn keys_unique(defs: Seq<(Seq<char>, bool, bool)>) -> bool
    decreases defs.len(),
{
    defs.len() == 0 || (key_absent(defs[0].0, defs.drop_first()) && keys_unique(defs.drop_first()))
}

proof fn lemma_key_absent(k: Seq<char>, defs: Seq<(Seq<char>, bool, bool)>)
    requires
        key_absent(k, defs),
    ensures
        forall|j: int| 0 <= j < defs.len() ==> (#[trigger] defs[j]).0 != k,
    decreases defs.len(),
{
    if defs.len() > 0 {
        lemma_key_absent(k, defs.drop_first());
        assert forall|j: int| 0 <= j < defs.len() implies (#[trigger] defs[j]).0 != k by {
            if j > 0 {
                assert(defs[j] == defs.drop_first()[j - 1]);
            }
        }
    }
}

proof fn lemma_keys_unique(defs: Seq<(Seq<char>, bool, bool)>)
    requires
        keys_unique(defs),
    ensures
        defs_distinct(defs),
    decreases defs.len(),
{
    if defs.len() > 0 {
        let t = defs.drop_first();
        lemma_keys_unique(t);
        lemma_key_absent(defs[0].0, t);
        assert forall|i: int, j: int| 0 <= i < j < defs.len() implies (#[trigger] defs[i]).0 != (#[trigger] defs[j]).0 by {
            assert(defs[j] == t[j - 1]);
            if i > 0 {
                assert(defs[i] == t[i - 1]);
            }
        }
    }
}

proof fn lemma_system_keys_distinct()
    ensures
        defs_distinct(tab_keys_spec(Tab::System)),
{
    reveal_strlit("isonline");
    reveal_strlit("offline_reason");
    reveal_strlit("helpdesk_title");
    reveal_strlit("helpdesk_name");
    reveal_strlit("default_locale");
    reveal_strlit("log_level");
    reveal_strlit("log_graceperiod");
    reveal_strlit("passwd_reset_period");
    reveal_strlit("staff_max_logins");
    reveal_strlit("staff_login_timeout");
    reveal_strlit("staff_session_timeout");
    reveal_strlit("staff_ip_binding");
    reveal_strlit("client_max_logins");
    reveal_strlit("client_login_timeout");
    reveal_strlit("client_session_timeout");
    reveal_strlit("allow_pw_reset");
    reveal_strlit("pw_reset_window");
    reveal_strlit("time_format");
    reveal_strlit("date_format");
    reveal_strlit("datetime_format");
    reveal_strlit("daydatetime_format");
    reveal_strlit("enable_daylight_saving");
    reveal_strlit("db_tz_offset");
    reveal_strlit("tz_offset");
    reveal_strlit("default_timezone_id");
    reveal_strlit("helpdesk_url");
    reveal_strlit("max_page_size");
    assert("isonline"@.len() == 8);
    assert("offline_reason"@.len() == 14);
    assert("helpdesk_title"@.len() == 14);
    assert("helpdesk_name"@.len() == 13);
    assert("default_locale"@.len() == 14);
    assert("log_level"@.len() == 9);
    assert("log_graceperiod"@.len() == 15);
    assert("passwd_reset_period"@.len() == 19);
    assert("staff_max_logins"@.len() == 16);
    assert("staff_login_timeout"@.len() == 19);
    assert("staff_session_timeout"@.len() == 21);
    assert("staff_ip_binding"@.len() == 16);
    assert("client_max_logins"@.len() == 17);
    assert("client_login_timeout"@.len() == 20);
    assert("client_session_timeout"@.len() == 22);
    assert("allow_pw_reset"@.len() == 14);
    assert("pw_reset_window"@.len() == 15);
    assert("time_format"@.len() == 11);
    assert("date_format"@.len() == 11);
    assert("datetime_format"@.len() == 15);
    assert("daydatetime_format"@.len() == 18);
    assert("enable_daylight_saving"@.len() == 22);
    assert("db_tz_offset"@.len() == 12);
    assert("tz_offset"@.len() == 9);
    assert("default_timezone_id"@.len() == 19);
    assert("helpdesk_url"@.len() == 12);
    assert("max_page_size"@.len() == 13);
    assert("offline_reason"@[0] == 'o');
    assert("helpdesk_title"@[0] == 'h');
    assert("default_locale"@[0] == 'd');
    assert("allow_pw_reset"@[0] == 'a');
    assert("helpdesk_name"@[0] == 'h');
    assert("max_page_size"@[0] == 'm');
    assert("log_level"@[0] == 'l');
    assert("tz_offset"@[0] == 't');
    assert("log_graceperiod"@[0] == 'l');
    assert("pw_reset_window"@[0] == 'p');
    assert("datetime_format"@[0] == 'd');
    assert("passwd_reset_period"@[0] == 'p');
    assert("staff_login_timeout"@[0] == 's');
    assert("default_timezone_id"@[0] == 'd');
    assert("staff_max_logins"@[6] == 'm');
    assert("staff_ip_binding"@[6] == 'i');
    assert("client_session_timeout"@[0] == 'c');
    assert("enable_daylight_saving"@[0] == 'e');
    assert("time_format"@[0] == 't');
    assert("date_format"@[0] == 'd');
    assert("db_tz_offset"@[0] == 'd');
    assert("helpdesk_url"@[0] == 'h');
    reveal_with_fuel(keys_unique, 28);
    reveal_with_fuel(key_absent, 28);
    assert(keys_unique(tab_keys_spec(Tab::System)));
    lemma_keys_unique(tab_keys_spec(Tab::System));
}

proof fn lemma_tickets_keys_distinct()
    ensures
        defs_distinct(tab_keys_spec(Tab::Tickets)),
{
    reveal_strlit("default_help_topic");
    reveal_strlit("random_ticket_ids");
    reveal_strlit("max_open_tickets");
    reveal_strlit("autolock_minutes");
    reveal_strlit("allow_priority_change");
    reveal_strlit("use_email_priority");
    reveal_strlit("enable_captcha");
    reveal_strlit("log_ticket_activity");
    reveal_strlit("auto_assign_reopened_tickets");
    reveal_strlit("show_related_tickets");
    reveal_strlit("show_notes_inline");
    reveal_strlit("clickable_urls");
    reveal_strlit("hide_staff_name");
    reveal_strlit("overdue_grace_period");
    reveal_strlit("default_priority_id");
    reveal_strlit("default_sla_id");
    reveal_strlit("default_dept_id");
    reveal_strlit("default_ticket_status");
    reveal_strlit("default_priority");
    reveal_strlit("show_assigned_tickets");
    reveal_strlit("show_answered_tickets");
    reveal_strlit("ticket_lock_time");
    assert("default_help_topic"@.len() == 18);
    assert("random_ticket_ids"@.len() == 17);
    assert("max_open_tickets"@.len() == 16);
    assert("autolock_minutes"@.len() == 16);
    assert("allow_priority_change"@.len() == 21);
    assert("use_email_priority"@.len() == 18);
    assert("enable_captcha"@.len() == 14);
    assert("log_ticket_activity"@.len() == 19);
    assert("auto_assign_reopened_tickets"@.len() == 28);
    assert("show_related_tickets"@.len() == 20);
    assert("show_notes_inline"@.len() == 17);
    assert("clickable_urls"@.len() == 14);
    assert("hide_staff_name"@.len() == 15);
    assert("overdue_grace_period"@.len() == 20);
    assert("default_priority_id"@.len() == 19);
    assert("default_sla_id"@.len() == 14);
    assert("default_dept_id"@.len() == 15);
    assert("default_ticket_status"@.len() == 21);
    assert("default_priority"@.len() == 16);
    assert("show_assigned_tickets"@.len() == 21);
    assert("show_answered_tickets"@.len() == 21);
    assert("ticket_lock_time"@.len() == 16);
    assert("default_help_topic"@[0] == 'd');
    assert("use_email_priority"@[0] == 'u');
    assert("random_ticket_ids"@[0] == 'r');
    assert("show_notes_inline"@[0] == 's');
    assert("max_open_tickets"@[0] == 'm');
    assert("autolock_minutes"@[0] == 'a');
    assert("default_priority"@[0] == 'd');
    assert("ticket_lock_time"@[0] == 't');
    assert("allow_priority_change"@[0] == 'a');
    assert("default_ticket_status"@[0] == 'd');
    assert("show_assigned_tickets"@[0] == 's');
    assert("show_answered_tickets"@[0] == 's');
    assert("enable_captcha"@[0] == 'e');
    assert("clickable_urls"@[0] == 'c');
    assert("default_sla_id"@[0] == 'd');
    assert("log_ticket_activity"@[0] == 'l');
    assert("default_priority_id"@[0] == 'd');
    assert("show_related_tickets"@[0] == 's');
    assert("overdue_grace_period"@[0] == 'o');
    assert("hide_staff_name"@[0] == 'h');
    assert("default_dept_id"@[0] == 'd');
    assert("show_assigned_tickets"@[6] == 's');
    assert("show_answered_tickets"@[6] == 'n');
    reveal_with_fuel(keys_unique, 23);
    reveal_with_fuel(key_absent, 23);
    assert(keys_unique(tab_keys_spec(Tab::Tickets)));
    lemma_keys_unique(tab_keys_spec(Tab::Tickets));
}

proof fn lemma_emails_keys_distinct()
    ensures
        defs_distinct(tab_keys_spec(Tab::Emails)),
{
    reveal_strlit("default_smtp_id");
    reveal_strlit("admin_email");
    reveal_strlit("enable_auto_cron");
    reveal_strlit("enable_mail_polling");
    reveal_strlit("allow_email_spoofing");
    reveal_strlit("save_email_headers");
    reveal_strlit("strip_quoted_reply");
    reveal_strlit("reply_separator");
    reveal_strlit("upload_dir");
    reveal_strlit("schema_signature");
    reveal_strlit("default_email_id");
    reveal_strlit("alert_email_id");
    reveal_strlit("default_template_id");
    assert("default_smtp_id"@.len() == 15);
    assert("admin_email"@.len() == 11);
    assert("enable_auto_cron"@.len() == 16);
    assert("enable_mail_polling"@.len() == 19);
    assert("allow_email_spoofing"@.len() == 20);
    assert("save_email_headers"@.len() == 18);
    assert("strip_quoted_reply"@.len() == 18);
    assert("reply_separator"@.len() == 15);
    assert("upload_dir"@.len() == 10);
    assert("schema_signature"@.len() == 16);
    assert("default_email_id"@.len() == 16);
    assert("alert_email_id"@.len() == 14);
    assert("default_template_id"@.len() == 19);
    assert("default_smtp_id"@[0] == 'd');
    assert("reply_separator"@[0] == 'r');
    assert("enable_auto_cron"@[0] == 'e');
    assert("schema_signature"@[0] == 's');
    assert("default_email_id"@[0] == 'd');
    assert("enable_mail_polling"@[0] == 'e');
    assert("default_template_id"@[0] == 'd');
    assert("save_email_headers"@[1] == 'a');
    assert("strip_quoted_reply"@[1] == 't');
    reveal_with_fuel(keys_unique, 14);
    reveal_with_fuel(key_absent, 14);
    assert(keys_unique(tab_keys_spec(Tab::Emails)));
    lemma_keys_unique(tab_keys_spec(Tab::Emails));
}

proof fn lemma_pages_keys_distinct()
    ensures
        defs_distinct(tab_keys_spec(Tab::Pages)),
{
    reveal_strlit("landing_page_id");
    reveal_strlit("offline_page_id");
    reveal_strlit("thank-you_page_id");
    reveal_strlit("client_logo_id");
    assert("landing_page_id"@.len() == 15);
    assert("offline_page_id"@.len() == 15);
    assert("thank-you_page_id"@.len() == 17);
    assert("client_logo_id"@.len() == 14);
    assert("landing_page_id"@[0] == 'l');
    assert("offline_page_id"@[0] == 'o');
    reveal_with_fuel(keys_unique, 5);
    reveal_with_fuel(key_absent, 5);
    assert(keys_unique(tab_keys_spec(Tab::Pages)));
    lemma_keys_unique(tab_keys_spec(Tab::Pages));
}

proof fn lemma_kb_keys_distinct()
    ensures
        defs_distinct(tab_keys_spec(Tab::Kb)),
{
    reveal_strlit("enable_kb");
    reveal_strlit("enable_premade");
    assert("enable_kb"@.len() == 9);
    assert("enable_premade"@.len() == 14);
    reveal_with_fuel(keys_unique, 3);
    reveal_with_fuel(key_absent, 3);
    assert(keys_unique(tab_keys_spec(Tab::Kb)));
    lemma_keys_unique(tab_keys_spec(Tab::Kb));
}

proof fn lemma_autoresp_keys_distinct()
    ensures
        defs_distinct(tab_keys_spec(Tab::Autoresp)),
{
    reveal_strlit("ticket_autoresponder");
    reveal_strlit("message_autoresponder");
    reveal_strlit("ticket_notice_active");
    reveal_strlit("overlimit_notice_active");
    assert("ticket_autoresponder"@.len() == 20);
    assert("message_autoresponder"@.len() == 21);
    assert("ticket_notice_active"@.len() == 20);
    assert("overlimit_notice_active"@.len() == 23);
    assert("ticket_autoresponder"@[7] == 'a');
    assert("ticket_notice_active"@[7] == 'n');
    reveal_with_fuel(keys_unique, 5);
    reveal_with_fuel(key_absent, 5);
    assert(keys_unique(tab_keys_spec(Tab::Autoresp)));
    lemma_keys_unique(tab_keys_spec(Tab::Autoresp));
}

proof fn lemma_alerts_keys_distinct()
    ensures
        defs_distinct(tab_keys_spec(Tab::Alerts)),
{
    reveal_strlit("ticket_alert_active");
    reveal_strlit("ticket_alert_admin");
    reveal_strlit("ticket_alert_dept_manager");
    reveal_strlit("ticket_alert_dept_members");
    reveal_strlit("message_alert_active");
    reveal_strlit("message_alert_laststaff");
    reveal_strlit("message_alert_assigned");
    reveal_strlit("message_alert_dept_manager");
    reveal_strlit("note_alert_active");
    reveal_strlit("note_alert_laststaff");
    reveal_strlit("note_alert_assigned");
    reveal_strlit("note_alert_dept_manager");
    reveal_strlit("assigned_alert_active");
    reveal_strlit("assigned_alert_staff");
    reveal_strlit("assigned_alert_team_lead");
    reveal_strlit("assigned_alert_team_members");
    reveal_strlit("transfer_alert_active");
    reveal_strlit("transfer_alert_assigned");
    reveal_strlit("transfer_alert_dept_manager");
    reveal_strlit("transfer_alert_dept_members");
    reveal_strlit("overdue_alert_active");
    reveal_strlit("overdue_alert_assigned");
    reveal_strlit("overdue_alert_dept_manager");
    reveal_strlit("overdue_alert_dept_members");
    reveal_strlit("send_sys_errors");
    reveal_strlit("send_sql_errors");
    reveal_strlit("send_login_errors");
    reveal_strlit("send_mailparse_errors");
    assert("ticket_alert_active"@.len() == 19);
    assert("ticket_alert_admin"@.len() == 18);
    assert("ticket_alert_dept_manager"@.len() == 25);
    assert("ticket_alert_dept_members"@.len() == 25);
    assert("message_alert_active"@.len() == 20);
    assert("message_alert_laststaff"@.len() == 23);
    assert("message_alert_assigned"@.len() == 22);
    assert("message_alert_dept_manager"@.len() == 26);
    assert("note_alert_active"@.len() == 17);
    assert("note_alert_laststaff"@.len() == 20);
    assert("note_alert_assigned"@.len() == 19);
    assert("note_alert_dept_manager"@.len() == 23);
    assert("assigned_alert_active"@.len() == 21);
    assert("assigned_alert_staff"@.len() == 20);
    assert("assigned_alert_team_lead"@.len() == 24);
    assert("assigned_alert_team_members"@.len() == 27);
    assert("transfer_alert_active"@.len() == 21);
    assert("transfer_alert_assigned"@.len() == 23);
    assert("transfer_alert_dept_manager"@.len() == 27);
    assert("transfer_alert_dept_members"@.len() == 27);
    assert("overdue_alert_active"@.len() == 20);
    assert("overdue_alert_assigned"@.len() == 22);
    assert("overdue_alert_dept_manager"@.len() == 26);
    assert("overdue_alert_dept_members"@.len() == 26);
    assert("send_sys_errors"@.len() == 15);
    assert("send_sql_errors"@.len() == 15);
    assert("send_login_errors"@.len() == 17);
    assert("send_mailparse_errors"@.len() == 21);
    assert("ticket_alert_active"@[0] == 't');
    assert("note_alert_assigned"@[0] == 'n');
    assert("ticket_alert_dept_manager"@[19] == 'a');
    assert("ticket_alert_dept_members"@[19] == 'e');
    assert("message_alert_active"@[0] == 'm');
    assert("note_alert_laststaff"@[0] == 'n');
    assert("assigned_alert_staff"@[0] == 'a');
    assert("overdue_alert_active"@[0] == 'o');
    assert("message_alert_laststaff"@[0] == 'm');
    assert("note_alert_dept_manager"@[0] == 'n');
    assert("transfer_alert_assigned"@[0] == 't');
    assert("message_alert_assigned"@[0] == 'm');
    assert("overdue_alert_assigned"@[0] == 'o');
    assert("message_alert_dept_manager"@[0] == 'm');
    assert("overdue_alert_dept_manager"@[0] == 'o');
    assert("overdue_alert_dept_members"@[0] == 'o');
    assert("note_alert_active"@[0] == 'n');
    assert("send_login_errors"@[0] == 's');
    assert("assigned_alert_active"@[0] == 'a');
    assert("transfer_alert_active"@[0] == 't');
    assert("send_mailparse_errors"@[0] == 's');
    assert("assigned_alert_team_members"@[0] == 'a');
    assert("transfer_alert_dept_manager"@[0] == 't');
    assert("transfer_alert_dept_members"@[0] == 't');
    assert("transfer_alert_dept_manager"@[21] == 'a');
    assert("transfer_alert_dept_members"@[21] == 'e');
    assert("overdue_alert_dept_manager"@[20] == 'a');
    assert("overdue_alert_dept_members"@[20] == 'e');
    assert("send_sys_errors"@[6] == 'y');
    assert("send_sql_errors"@[6] == 'q');
    reveal_with_fuel(keys_unique, 29);
    reveal_with_fuel(key_absent, 29);
    assert(keys_unique(tab_keys_spec(Tab::Alerts)));
    lemma_keys_unique(tab_keys_spec(Tab::Alerts));
}

proof fn lemma_attach_keys_distinct()
    ensures
        defs_distinct(tab_keys_spec(Tab::Attach)),
{
    reveal_strlit("allow_attachments");
    reveal_strlit("email_attachments");
    reveal_strlit("allow_email_attachments");
    reveal_strlit("allow_online_attachments");
    reveal_strlit("allow_online_attachments_onlogin");
    reveal_strlit("allow_api_attachments");
    reveal_strlit("max_user_file_uploads");
    reveal_strlit("max_staff_file_uploads");
    reveal_strlit("max_file_uploads");
    reveal_strlit("max_file_size");
    reveal_strlit("allowed_filetypes");
    assert("allow_attachments"@.len() == 17);
    assert("email_attachments"@.len() == 17);
    assert("allow_email_attachments"@.len() == 23);
    assert("allow_online_attachments"@.len() == 24);
    assert("allow_online_attachments_onlogin"@.len() == 32);
    assert("allow_api_attachments"@.len() == 21);
    assert("max_user_file_uploads"@.len() == 21);
    assert("max_staff_file_uploads"@.len() == 22);
    assert("max_file_uploads"@.len() == 16);
    assert("max_file_size"@.len() == 13);
    assert("allowed_filetypes"@.len() == 17);
    assert("allow_attachments"@[0] == 'a');
    assert("email_attachments"@[0] == 'e');
    assert("allow_attachments"@[5] == '_');
    assert("allowed_filetypes"@[5] == 'e');
    assert("allowed_filetypes"@[0] == 'a');
    assert("allow_api_attachments"@[0] == 'a');
    assert("max_user_file_uploads"@[0] == 'm');
    reveal_with_fuel(keys_unique, 12);
    reveal_with_fuel(key_absent, 12);
    assert(keys_unique(tab_keys_spec(Tab::Attach)));
    lemma_keys_unique(tab_keys_spec(Tab::Attach));
}

/// No tab lists a key twice.
pub proof fn lemma_tab_keys_distinct(tab: Tab)
    ensures
        defs_distinct(tab_keys_spec(tab)),
{
    match tab {
        Tab::System => lemma_system_keys_distinct(),
        Tab::Tickets => lemma_tickets_keys_distinct(),
        Tab::Emails => lemma_emails_keys_distinct(),
        Tab::Pages => lemma_pages_keys_distinct(),
        Tab::Kb => lemma_kb_keys_distinct(),
        Tab::Autoresp => lemma_autoresp_keys_distinct(),
        Tab::Alerts => lemma_alerts_keys_distinct(),
        Tab::Attach => lemma_attach_keys_distinct(),
    }
}

/// No key occurs twice among the pairs.
pub open spec fn pairs_distinct(s: Seq<(Seq<char>, Seq<char>)>) -> bool {
    forall|i: int, j: int| 0 <= i < j < s.len() ==> (#[trigger] s[i]).0 != (#[trigger] s[j]).0
}

proof fn lemma_pairs_map_dom(s: Seq<(Seq<char>, Seq<char>)>, k: Seq<char>)
    ensures
        pairs_map(s).contains_key(k) <==> exists|j: int| 0 <= j < s.len() && (#[trigger] s[j]).0 == k,
    decreases s.len(),
{
    if s.len() > 0 {
        let t = s.drop_last();
        lemma_pairs_map_dom(t, k);
        if pairs_map(t).contains_key(k) {
            let j = choose|j: int| 0 <= j < t.len() && (#[trigger] t[j]).0 == k;
            assert(s[j] == t[j]);
        }
        if exists|j: int| 0 <= j < s.len() && (#[trigger] s[j]).0 == k {
            let j = choose|j: int| 0 <= j < s.len() && (#[trigger] s[j]).0 == k;
            if j < s.len() - 1 {
                assert(t[j] == s[j]);
            }
        }
    }
}

/// With distinct keys, the last pair's key is new to the map of the others.
proof fn lemma_resolve_distinct(defs: Seq<(Seq<char>, bool, bool)>, values: Seq<(String, SettingValue)>)
    requires
        defs_distinct(defs),
    ensures
        pairs_distinct(resolve_spec(defs, values)),
    decreases defs.len(),
{
    if defs.len() > 0 {
        let d = defs.drop_last();
        assert forall|i: int, j: int| 0 <= i < j < d.len() implies (#[trigger] d[i]).0 != (#[trigger] d[j]).0 by {
            assert(d[i] == defs[i] && d[j] == defs[j]);
        }
        lemma_resolve_distinct(d, values);
        lemma_resolve_keys(d, values);
        let prev = resolve_spec(d, values);
        let cur = resolve_spec(defs, values);
        let k = defs.last().0;
        assert forall|j: int| 0 <= j < prev.len() implies (#[trigger] prev[j]).0 != k by {
            let i = choose|i: int| 0 <= i < d.len() && (#[trigger] d[i]).0 == prev[j].0;
            assert(d[i] == defs[i]);
            assert(defs[defs.len() - 1] == defs.last());
        }
        assert forall|i: int, j: int| 0 <= i < j < cur.len() implies (#[trigger] cur[i]).0 != (#[trigger] cur[j]).0 by {
            if j < prev.len() {
                assert(cur[i] == prev[i] && cur[j] == prev[j]);
            } else {
                assert(cur[i] == prev[i]);
                assert(cur[j].0 == k);
            }
        }
    }
}

/// Applying the writes a save makes (unchanged values skipped) leaves the
/// config holding every saved pair, and every other key as it was.
proof fn lemma_writes_apply(s: Seq<(Seq<char>, Seq<char>)>, cfg: Map<Seq<char>, Seq<char>>)
    requires
        pairs_distinct(s),
    ensures
        pairs_map(changed_spec(s, cfg)).dom().subset_of(pairs_map(s).dom()),
        forall|k: Seq<char>| #[trigger] pairs_map(s).contains_key(k) ==> cfg.union_prefer_right(
            pairs_map(changed_spec(s, cfg)),
        ).contains_key(k) && cfg.union_prefer_right(pairs_map(changed_spec(s, cfg)))[k] == pairs_map(s)[k],
    decreases s.len(),
{
    if s.len() > 0 {
        let t = s.drop_last();
        assert forall|i: int, j: int| 0 <= i < j < t.len() implies (#[trigger] t[i]).0 != (#[trigger] t[j]).0 by {
            assert(t[i] == s[i] && t[j] == s[j]);
        }
        lemma_writes_apply(t, cfg);
        let (k0, v0) = s.last();
        lemma_pairs_map_dom(t, k0);
        assert(!pairs_map(t).contains_key(k0)) by {
            if pairs_map(t).contains_key(k0) {
                let j = choose|j: int| 0 <= j < t.len() && (#[trigger] t[j]).0 == k0;
                assert(s[j] == t[j]);
                assert(s[s.len() - 1] == s.last());
            }
        }
        let w = changed_spec(t, cfg);
        let before = cfg.union_prefer_right(pairs_map(w));
        assert(s == t.push((k0, v0)));
        lemma_pairs_map_push(t, (k0, v0));
        if cfg.contains_key(k0) && cfg[k0] == v0 {
            assert(changed_spec(s, cfg) == w);
            assert(!pairs_map(w).contains_key(k0));
        } else {
            assert(changed_spec(s, cfg) == w.push((k0, v0)));
            lemma_pairs_map_push(w, (k0, v0));
            assert(cfg.union_prefer_right(pairs_map(w).insert(k0, v0)) =~= before.insert(k0, v0));
        }
    }
}

proof fn lemma_pairs_map_push(s: Seq<(Seq<char>, Seq<char>)>, p: (Seq<char>, Seq<char>))
    ensures
        pairs_map(s.push(p)) == pairs_map(s).insert(p.0, p.1),
{
    assert(s.push(p).drop_last() =~= s);
}

/// The page shows, for each key of the tab the config holds, its value.
proof fn lemma_bucket_reads(defs: Seq<(Seq<char>, bool, bool)>, m: Map<Seq<char>, Seq<char>>, k: Seq<char>)
    requires
        exists|i: int| 0 <= i < defs.len() && (#[trigger] defs[i]).0 == k,
        m.contains_key(k),
    ensures
        pairs_map(bucket_spec(defs, m)).contains_key(k),
        pairs_map(bucket_spec(defs, m))[k] == m[k],
    decreases defs.len(),
{
    let d = defs.drop_last();
    let kl = defs.last().0;
    let prev = bucket_spec(d, m);
    if m.contains_key(kl) {
        lemma_pairs_map_push(prev, (kl, m[kl]));
    }
    if kl != k {
        let i = choose|i: int| 0 <= i < defs.len() && (#[trigger] defs[i]).0 == k;
        assert(i < defs.len() - 1) by {
            assert(defs[defs.len() - 1] == defs.last());
        }
        assert(d[i] == defs[i]);
        lemma_bucket_reads(d, m, k);
    }
}

/// A key the page shows is a key of the tab, shown with its config value.
proof fn lemma_bucket_keeps(defs: Seq<(Seq<char>, bool, bool)>, m: Map<Seq<char>, Seq<char>>, k: Seq<char>)
    requires
        pairs_map(bucket_spec(defs, m)).contains_key(k),
    ensures
        m.contains_key(k),
        pairs_map(bucket_spec(defs, m))[k] == m[k],
        exists|i: int| 0 <= i < defs.len() && (#[trigger] defs[i]).0 == k,
    decreases defs.len(),
{
    if defs.len() == 0 {
        assert(pairs_map(bucket_spec(defs, m)) == Map::<Seq<char>, Seq<char>>::empty());
    } else {
        let d = defs.drop_last();
        let kl = defs.last().0;
        let prev = bucket_spec(d, m);
        assert(defs[defs.len() - 1] == defs.last());
        if m.contains_key(kl) {
            lemma_pairs_map_push(prev, (kl, m[kl]));
        }
        if !(kl == k && m.contains_key(k)) {
            lemma_bucket_keeps(d, m, k);
            let i = choose|i: int| 0 <= i < d.len() && (#[trigger] d[i]).0 == k;
            assert(defs[i] == d[i]);
        }
    }
}

/// What a save writes is what the settings page reads back: after the
/// writes of a save of `tab` (unchanged values skipped) are applied to the
/// config `cfg`, the tab shows every saved value, and every other key of the
/// tab shows what `cfg` held.
pub proof fn law_saved_settings_read_back(tab: Tab, values: Seq<(String, SettingValue)>, cfg: Map<Seq<char>, Seq<char>>)
    ensures
        ({
            let saved = pairs_map(resolve_spec(tab_keys_spec(tab), values));
            let after = cfg.union_prefer_right(pairs_map(changed_spec(resolve_spec(tab_keys_spec(tab), values), cfg)));
            let shown = pairs_map(bucket_spec(tab_keys_spec(tab), after));
            &&& forall|k: Seq<char>| #[trigger] saved.contains_key(k) ==> shown.contains_key(k) && shown[k] == saved[k]
            &&& forall|k: Seq<char>|
                #[trigger] shown.contains_key(k) && !saved.contains_key(k) ==> cfg.contains_key(k) && shown[k] == cfg[k]
        }),
{
    let defs = tab_keys_spec(tab);
    let r = resolve_spec(defs, values);
    let saved = pairs_map(r);
    let after = cfg.union_prefer_right(pairs_map(changed_spec(r, cfg)));
    let shown = pairs_map(bucket_spec(defs, after));
    lemma_tab_keys_distinct(tab);
    lemma_resolve_distinct(defs, values);
    lemma_writes_apply(r, cfg);
    lemma_resolve_keys(defs, values);
    assert forall|k: Seq<char>| #[trigger] saved.contains_key(k) implies shown.contains_key(k) && shown[k] == saved[k] by {
        lemma_pairs_map_dom(r, k);
        let j = choose|j: int| 0 <= j < r.len() && (#[trigger] r[j]).0 == k;
        let i = choose|i: int| 0 <= i < defs.len() && (#[trigger] defs[i]).0 == r[j].0;
        lemma_bucket_reads(defs, after, k);
    }
    assert forall|k: Seq<char>| #[trigger] shown.contains_key(k) && !saved.contains_key(k) implies cfg.contains_key(k)
        && shown[k] == cfg[k] by {
        lemma_bucket_keeps(defs, after, k);
        assert(!pairs_map(changed_spec(r, cfg)).contains_key(k));
    }
}

} // verus!
