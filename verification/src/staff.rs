//! The staff ticket queue: queue selection, sorting (explicit, sticky per
//! queue, or the queue default), pagination, search filters, visibility
//! clauses, and the mapping of workflow failures to error answers.
use vstd::prelude::*;

use crate::error::{ApiError, ErrorKind};
use crate::text::{
    all_digits, all_digits_exec, chars_eq_str, chars_of, contains_char, contains_str, contains_sub, lemma_no_pair_concat,
    lemma_no_pair_from, lemma_no_pair_no_sub, lemma_sub_in_prefix, no_pair, no_pair_from, occurs_at,
    id_strs, int_str, int_string, is_blank, join, join_ids, opt_is, opt_view, owned, parse_i32, parse_i32_chars, parse_i32_exec, parse_u32, parse_u32_exec,
    digit_value, digits_value, is_digit, is_ws, lemma_int_str_i32, lemma_tagged_int_str, push_char, trim_start, push_str, skip_chars, str_eq, str_lt, str_lt_exec, trim_chars, to_uppercase, trim, trim_str, unicode_upper,
};

verus! {

// ---------------------------------------------------------------------------
// Response shapes.
// ---------------------------------------------------------------------------

/// The authenticated staff profile (`GET /api/staff/me`).
#[derive(Debug)]
pub struct StaffMe {
    pub id: i32,
    pub username: String,
    /// Display name (`firstname lastname`, trimmed; falls back to username).
    pub name: String,
    pub dept_id: i32,
    pub can_create_tickets: bool,
    pub can_close_tickets: bool,
    pub can_delete_tickets: bool,
    pub can_edit_tickets: bool,
    pub can_assign_tickets: bool,
    pub can_transfer_tickets: bool,
    pub can_manage_tickets: bool,
    pub isadmin: bool,
    pub can_manage_faq: bool,
    pub can_manage_premade: bool,
    pub can_ban_emails: bool,
    pub can_view_staff_stats: bool,
}

/// One row of a ticket queue.
#[derive(Debug)]
pub struct QueueItem {
    pub id: i64,
    pub number: i64,
    pub subject: String,
    pub email: String,
    pub created: String,
    pub isanswered: bool,
    pub isoverdue: bool,
    pub duedate: Option<String>,
    pub assigned_to_name: Option<String>,
    pub closed_by_name: Option<String>,
    pub department_name: Option<String>,
}

/// Pagination metadata returned with queue results.
#[derive(Debug)]
pub struct PaginationInfo {
    pub page: u32,
    pub page_size: u32,
    pub total_count: i64,
    pub total_pages: u32,
}

/// A queue answer: the page of tickets plus paging and column metadata.
#[derive(Debug)]
pub struct QueueResponse {
    pub tickets: Vec<QueueItem>,
    pub pagination: PaginationInfo,
    pub rightmost_column: String,
    pub search_results: Option<bool>,
    pub status_column: Option<bool>,
}

/// Per-queue counts (`GET /api/staff/tickets/stats`).
#[derive(Debug)]
pub struct StaffStats {
    pub open: i64,
    pub answered: i64,
    pub overdue: i64,
    pub assigned: i64,
    pub closed: i64,
    pub show_answered_tickets: bool,
    pub show_assigned_tickets: bool,
}

// ---------------------------------------------------------------------------
// Queue selection.
// ---------------------------------------------------------------------------

/// The rightmost column of a queue listing.
#[derive(Debug, Clone, Copy, PartialEq, Eq, Structural)]
pub enum RightmostColumn {
    AssignedTo,
    ClosedBy,
    Department,
}

impl RightmostColumn {
    pub open spec fn name(self) -> Seq<char> {
        match self {
            RightmostColumn::AssignedTo => "assigned_to"@,
            RightmostColumn::ClosedBy => "closed_by"@,
            RightmostColumn::Department => "department"@,
        }
    }

    /// The wire name of the column.
    pub fn as_str(&self) -> (r: &'static str)
        ensures
            r@ == self.name(),
    {
        match self {
            RightmostColumn::AssignedTo => "assigned_to",
            RightmostColumn::ClosedBy => "closed_by",
            RightmostColumn::Department => "department",
        }
    }
}

/// The queue a `status` parameter selects.
#[derive(Debug, Clone, Copy, PartialEq, Eq, Structural, Default)]
pub enum QueueStatus {
    #[default]
    Open,
    Answered,
    Assigned,
    Overdue,
    Closed,
}

impl QueueStatus {
    pub open spec fn name(self) -> Seq<char> {
        match self {
            QueueStatus::Open => "open"@,
            QueueStatus::Answered => "answered"@,
            QueueStatus::Assigned => "assigned"@,
            QueueStatus::Overdue => "overdue"@,
            QueueStatus::Closed => "closed"@,
        }
    }

    /// The queue's name (`open`, `answered`, `assigned`, `overdue`, `closed`).
    pub fn to_string(&self) -> (r: String)
        ensures
            r@ == self.name(),
    {
        match self {
            QueueStatus::Open => owned("open"),
            QueueStatus::Answered => owned("answered"),
            QueueStatus::Assigned => owned("assigned"),
            QueueStatus::Overdue => owned("overdue"),
            QueueStatus::Closed => owned("closed"),
        }
    }
}

/// Query parameters of the ticket queue endpoint.
#[derive(Debug, Default)]
pub struct QueueParams {
    pub a: Option<String>,
    pub status: Option<String>,
    pub sort: Option<String>,
    pub order: Option<String>,
    pub p: Option<String>,
    pub limit: Option<String>,
    pub query: Option<String>,
    pub dept_id: Option<i32>,
    pub assignee: Option<String>,
    pub staff_id: Option<i32>,
    pub topic_id: Option<i32>,
    pub start_date: Option<String>,
    pub end_date: Option<String>,
}

/// The queue a `status` value selects; anything unknown or absent is `open`.
pub open spec fn queue_status_of(s: Option<Seq<char>>) -> QueueStatus {
    if s == Some("answered"@) {
        QueueStatus::Answered
    } else if s == Some("assigned"@) {
        QueueStatus::Assigned
    } else if s == Some("overdue"@) {
        QueueStatus::Overdue
    } else if s == Some("closed"@) {
        QueueStatus::Closed
    } else {
        QueueStatus::Open
    }
}

// ---------------------------------------------------------------------------
// Sorting.
// ---------------------------------------------------------------------------

/// A sortable column of the queue.
#[derive(Debug, Clone, Copy, PartialEq, Eq, Structural)]
pub enum SortKey {
    Date,
    Id,
    Priority,
    Name,
    Subject,
    Status,
    Assignee,
    Staff,
    Department,
}

/// The sort key a `sort` value names, if any.
pub open spec fn sort_key_of(s: Seq<char>) -> Option<SortKey> {
    if s == "date"@ {
        Some(SortKey::Date)
    } else if s == "ID"@ {
        Some(SortKey::Id)
    } else if s == "pri"@ {
        Some(SortKey::Priority)
    } else if s == "name"@ {
        Some(SortKey::Name)
    } else if s == "subj"@ {
        Some(SortKey::Subject)
    } else if s == "status"@ {
        Some(SortKey::Status)
    } else if s == "assignee"@ {
        Some(SortKey::Assignee)
    } else if s == "staff"@ {
        Some(SortKey::Staff)
    } else if s == "dept"@ {
        Some(SortKey::Department)
    } else {
        None
    }
}

impl SortKey {
    /// The `sort` value that names this key.
    pub open spec fn key_name(self) -> Seq<char> {
        match self {
            SortKey::Date => "date"@,
            SortKey::Id => "ID"@,
            SortKey::Priority => "pri"@,
            SortKey::Name => "name"@,
            SortKey::Subject => "subj"@,
            SortKey::Status => "status"@,
            SortKey::Assignee => "assignee"@,
            SortKey::Staff => "staff"@,
            SortKey::Department => "dept"@,
        }
    }

    pub open spec fn sql_spec(self) -> Seq<char> {
        match self {
            SortKey::Date => "ticket.created"@,
            SortKey::Id => "ticket.\"ticketID\"::integer"@,
            SortKey::Priority => "COALESCE(priority.urgency, 2)"@,
            SortKey::Name => "ticket.name"@,
            SortKey::Subject => "ticket.subject"@,
            SortKey::Status => "ticket.status"@,
            SortKey::Assignee => "COALESCE(staff.firstname || ' ' || staff.lastname, '')"@,
            SortKey::Staff => "COALESCE(closing_staff.firstname || ' ' || closing_staff.lastname, '')"@,
            SortKey::Department => "COALESCE(department.dept_name, '')"@,
        }
    }

    /// Parses a `sort` value; `None` for an unknown key.
    pub fn from_str(s: &str) -> (r: Option<SortKey>)
        ensures
            r == sort_key_of(s@),
    {
        if str_eq(s, "date") {
            Some(SortKey::Date)
        } else if str_eq(s, "ID") {
            Some(SortKey::Id)
        } else if str_eq(s, "pri") {
            Some(SortKey::Priority)
        } else if str_eq(s, "name") {
            Some(SortKey::Name)
        } else if str_eq(s, "subj") {
            Some(SortKey::Subject)
        } else if str_eq(s, "status") {
            Some(SortKey::Status)
        } else if str_eq(s, "assignee") {
            Some(SortKey::Assignee)
        } else if str_eq(s, "staff") {
            Some(SortKey::Staff)
        } else if str_eq(s, "dept") {
            Some(SortKey::Department)
        } else {
            None
        }
    }

    /// The SQL expression the key sorts by.
    pub fn sql_expression(&self) -> (r: &'static str)
        ensures
            r@ == self.sql_spec(),
    {
        match self {
            SortKey::Date => "ticket.created",
            SortKey::Id => "ticket.\"ticketID\"::integer",
            SortKey::Priority => "COALESCE(priority.urgency, 2)",
            SortKey::Name => "ticket.name",
            SortKey::Subject => "ticket.subject",
            SortKey::Status => "ticket.status",
            SortKey::Assignee => "COALESCE(staff.firstname || ' ' || staff.lastname, '')",
            SortKey::Staff => "COALESCE(closing_staff.firstname || ' ' || closing_staff.lastname, '')",
            SortKey::Department => "COALESCE(department.dept_name, '')",
        }
    }

    /// Whether sorting by this key needs the priority table.
    pub fn requires_priority_join(&self) -> (r: bool)
        ensures
            r == (*self == SortKey::Priority),
    {
        match self {
            SortKey::Priority => true,
            _ => false,
        }
    }

    /// Whether sorting by this key needs the assignee (staff) table.
    pub fn requires_staff_join(&self) -> (r: bool)
        ensures
            r == (*self == SortKey::Assignee),
    {
        match self {
            SortKey::Assignee => true,
            _ => false,
        }
    }

    /// Whether sorting by this key needs the closing-staff table.
    pub fn requires_closing_staff_join(&self) -> (r: bool)
        ensures
            r == (*self == SortKey::Staff),
    {
        match self {
            SortKey::Staff => true,
            _ => false,
        }
    }

    /// Whether sorting by this key needs the department table.
    pub fn requires_dept_join(&self) -> (r: bool)
        ensures
            r == (*self == SortKey::Department),
    {
        match self {
            SortKey::Department => true,
            _ => false,
        }
    }
}

/// Sort direction (default descending).
#[derive(Debug, Clone, Copy, PartialEq, Eq, Structural, Default)]
pub enum SortOrder {
    Asc,
    #[default]
    Desc,
}

/// The direction an `order` value selects: ascending exactly when its
/// uppercase form is `ASC`.
pub open spec fn sort_order_of(s: Seq<char>) -> SortOrder {
    if unicode_upper(s) == "ASC"@ {
        SortOrder::Asc
    } else {
        SortOrder::Desc
    }
}

impl SortOrder {
    pub open spec fn sql_spec(self) -> Seq<char> {
        match self {
            SortOrder::Asc => "ASC"@,
            SortOrder::Desc => "DESC"@,
        }
    }

    /// Parses an `order` value; anything but `ASC` (any case) is descending.
    pub fn from_str(s: &str) -> (r: SortOrder)
        ensures
            r == sort_order_of(s@),
    {
        let u = to_uppercase(s);
        if str_eq(u.as_str(), "ASC") {
            SortOrder::Asc
        } else {
            SortOrder::Desc
        }
    }

    /// The SQL keyword of the direction.
    pub fn sql(&self) -> (r: &'static str)
        ensures
            r@ == self.sql_spec(),
    {
        match self {
            SortOrder::Asc => "ASC",
            SortOrder::Desc => "DESC",
        }
    }
}

/// A resolved sort: an explicit key (or `None` for the queue default) and a
/// direction.
#[derive(Debug, Clone, Copy, PartialEq, Eq, Structural)]
pub struct SortConfig {
    pub key: Option<SortKey>,
    pub order: SortOrder,
}

/// `s.parse::<i32>()` of an optional parameter.
pub open spec fn opt_parse_i32(o: Option<Seq<char>>) -> Option<i32> {
    match o {
        Some(s) => parse_i32(s),
        None => None,
    }
}

pub open spec fn clamp_i32(v: i32, lo: i32, hi: i32) -> i32 {
    if v < lo {
        lo
    } else if v > hi {
        hi
    } else {
        v
    }
}

impl QueueParams {
    pub open spec fn queue_status_spec(&self) -> QueueStatus {
        queue_status_of(opt_view(self.status))
    }

    pub open spec fn sort_config_spec(&self) -> SortConfig {
        SortConfig {
            key: match opt_view(self.sort) {
                Some(s) => sort_key_of(s),
                None => None,
            },
            order: match opt_view(self.order) {
                Some(s) => sort_order_of(s),
                None => SortOrder::Desc,
            },
        }
    }

    pub open spec fn page_spec(&self) -> u32 {
        match opt_parse_i32(opt_view(self.p)) {
            Some(v) => if v > 0 {
                v as u32
            } else {
                1
            },
            None => 1,
        }
    }

    pub open spec fn limit_spec(&self) -> Option<u32> {
        match opt_parse_i32(opt_view(self.limit)) {
            Some(v) => Some(clamp_i32(v, 5, 100) as u32),
            None => None,
        }
    }

    pub open spec fn search_status_spec(&self) -> Option<Seq<char>> {
        match opt_view(self.status) {
            Some(s) => if s == "any"@ {
                None
            } else {
                Some(s)
            },
            None => None,
        }
    }

    /// The queue the `status` parameter selects (unknown or absent: open).
    pub fn queue_status(&self) -> (r: QueueStatus)
        ensures
            r == self.queue_status_spec(),
    {
        if opt_is(&self.status, "answered") {
            QueueStatus::Answered
        } else if opt_is(&self.status, "assigned") {
            QueueStatus::Assigned
        } else if opt_is(&self.status, "overdue") {
            QueueStatus::Overdue
        } else if opt_is(&self.status, "closed") {
            QueueStatus::Closed
        } else {
            QueueStatus::Open
        }
    }

    /// The explicit sort the parameters ask for.
    pub fn sort_config(&self) -> (r: SortConfig)
        ensures
            r == self.sort_config_spec(),
    {
        let key = match &self.sort {
            Some(s) => SortKey::from_str(s.as_str()),
            None => None,
        };
        let order = match &self.order {
            Some(s) => SortOrder::from_str(s.as_str()),
            None => SortOrder::Desc,
        };
        SortConfig { key, order }
    }

    /// The 1-based page number: a positive integer `p`, else 1.
    pub fn page(&self) -> (r: u32)
        ensures
            r == self.page_spec(),
            r >= 1,
    {
        match &self.p {
            Some(s) => match parse_i32_exec(s.as_str()) {
                Some(v) => if v > 0 {
                    v as u32
                } else {
                    1
                },
                None => 1,
            },
            None => 1,
        }
    }

    /// The page-size override: an integer `limit` clamped to `5..=100`.
    pub fn limit(&self) -> (r: Option<u32>)
        ensures
            r == self.limit_spec(),
            r.is_some() ==> 5 <= r.unwrap() <= 100,
    {
        match &self.limit {
            Some(s) => match parse_i32_exec(s.as_str()) {
                Some(v) => {
                    let c = if v < 5 {
                        5
                    } else if v > 100 {
                        100
                    } else {
                        v
                    };
                    Some(c as u32)
                },
                None => None,
            },
            None => None,
        }
    }

    /// Whether search mode is on (`a=search`).
    pub fn is_search(&self) -> (r: bool)
        ensures
            r == (opt_view(self.a) == Some("search"@)),
    {
        opt_is(&self.a, "search")
    }

    /// The status filter of an advanced search: none for `any` or absent.
    pub fn search_status(&self) -> (r: Option<String>)
        ensures
            opt_view(r) == self.search_status_spec(),
    {
        match &self.status {
            Some(s) => if str_eq(s.as_str(), "any") {
                None
            } else {
                Some(owned(s.as_str()))
            },
            None => None,
        }
    }
}

// ---------------------------------------------------------------------------
// Search keywords.
// ---------------------------------------------------------------------------

/// How a search keyword is matched.
#[derive(Debug)]
pub enum KeywordType {
    /// Purely numeric: ticket-number prefix.
    TicketNumber(String),
    /// An email address: exact requester email.
    Email(String),
    /// Anything else: substring of email, name, subject or thread body.
    DeepText(String),
}

/// A simple email shape: exactly one `@`, something before it, and a `.`
/// somewhere after it.
pub open spec fn valid_email(s: Seq<char>) -> bool {
    exists|i: int|
        #![trigger s[i]]
        0 < i < s.len() && s[i] == '@' && (forall|j: int|
            0 <= j < s.len() && j != i ==> s[j] != '@') && s.skip(i + 1).contains('.')
}

/// Whether `s` has the simple email shape of [`valid_email`].
pub fn is_valid_email(s: &str) -> (r: bool)
    ensures
        r == valid_email(s@),
{
    let v = chars_of(s);
    let mut first: usize = v.len();
    let mut count: usize = 0;
    let mut i: usize = 0;
    while i < v.len()
        invariant
            v@ == s@,
            i <= v.len(),
            count <= i,
            count == 0 ==> first == v.len() && forall|j: int| 0 <= j < i ==> v@[j] != '@',
            count >= 1 ==> first < i && v@[first as int] == '@' && forall|j: int|
                0 <= j < first ==> v@[j] != '@',
            count == 1 ==> forall|j: int| 0 <= j < i && j != first ==> v@[j] != '@',
            count >= 2 ==> exists|j: int| 0 <= j < i && j != first && v@[j] == '@',
        decreases v.len() - i,
    {
        if v[i] == '@' {
            if count == 0 {
                first = i;
            }
            count = if count < 2 {
                count + 1
            } else {
                2
            };
        }
        i = i + 1;
    }
    if count != 1 {
        assert(!valid_email(s@)) by {
            if count >= 2 {
                let j = choose|j: int| 0 <= j < v.len() && j != first && v@[j] == '@';
                assert forall|k: int| 0 < k < s@.len() && s@[k] == '@' implies !(forall|m: int|
                    0 <= m < s@.len() && m != k ==> s@[m] != '@') by {
                    if k == first {
                        assert(s@[j] == '@');
                    } else {
                        assert(s@[first as int] == '@');
                    }
                }
            }
        }
        return false;
    }
    if first == 0 {
        assert(!valid_email(s@)) by {
            assert forall|k: int| 0 < k < s@.len() && s@[k] == '@' implies false by {
                assert(k == first);
            }
        }
        return false;
    }
    let rest = skip_chars(&v, first + 1);
    let has_dot = contains_char(&rest, '.');
    proof {
        if has_dot {
            assert(s@[first as int] == '@');
        } else {
            assert forall|k: int| 0 < k < s@.len() && s@[k] == '@' && (forall|m: int|
                0 <= m < s@.len() && m != k ==> s@[m] != '@') implies !s@.skip(k + 1).contains(
                '.',
            ) by {
                assert(k == first);
            }
        }
    }
    has_dot
}

impl KeywordType {
    /// The keyword type of a search query (its trimmed form is the payload).
    pub fn from_query(query: &str) -> (r: KeywordType)
        ensures
            match r {
                KeywordType::TicketNumber(t) => t@ == trim(query@) && all_digits(trim(query@)),
                KeywordType::Email(t) => t@ == trim(query@) && !all_digits(trim(query@))
                    && trim(query@).contains('@') && valid_email(trim(query@)),
                KeywordType::DeepText(t) => t@ == trim(query@) && !all_digits(trim(query@))
                    && !(trim(query@).contains('@') && valid_email(trim(query@))),
            },
    {
        let trimmed = trim_str(query);
        let tv = chars_of(trimmed.as_str());
        if all_digits_exec(&tv) {
            return KeywordType::TicketNumber(trimmed);
        }
        if contains_char(&tv, '@') && is_valid_email(trimmed.as_str()) {
            return KeywordType::Email(trimmed);
        }
        KeywordType::DeepText(trimmed)
    }
}

/// The SQL predicate an assignee filter value selects: `s0` unassigned,
/// `s<id>` a staff member, `t<id>` a team, a plain integer a staff member.
pub open spec fn assignee_clause(a: Seq<char>) -> Option<Seq<char>> {
    let t = trim(a);
    if t.len() == 0 {
        None
    } else if t == "s0"@ {
        Some("ticket.staff_id IS NULL AND ticket.team_id = 0"@)
    } else if t[0] == 's' && parse_i32(t.drop_first()).is_some() {
        Some("ticket.staff_id = "@ + int_str(parse_i32(t.drop_first()).unwrap() as int))
    } else if t[0] == 't' && parse_i32(t.drop_first()).is_some() {
        Some("ticket.team_id = "@ + int_str(parse_i32(t.drop_first()).unwrap() as int))
    } else if parse_i32(t).is_some() {
        Some("ticket.staff_id = "@ + int_str(parse_i32(t).unwrap() as int))
    } else {
        None
    }
}

/// An assignee filter names the ticket column of its tag: `t<n>` always the
/// team `n`, `s<n>` (but `s0`) the staff member `n`, a bare number the staff
/// member of that number, `s0` the unassigned tickets; and a `t` filter
/// never yields anything but a team predicate.
pub proof fn law_assignee_filter_names_its_column(n: i32, a: Seq<char>)
    ensures
        assignee_clause(seq!['t'] + int_str(n as int)) == Some("ticket.team_id = "@ + int_str(n as int)),
        n != 0 ==> assignee_clause(seq!['s'] + int_str(n as int)) == Some("ticket.staff_id = "@ + int_str(n as int)),
        assignee_clause(int_str(n as int)) == Some("ticket.staff_id = "@ + int_str(n as int)),
        assignee_clause("s0"@) == Some("ticket.staff_id IS NULL AND ticket.team_id = 0"@),
        trim(a).len() > 0 && trim(a)[0] == 't' ==> match assignee_clause(a) {
            Some(c) => c.len() >= 17 && c.subrange(0, 17) == "ticket.team_id = "@,
            None => true,
        },
{
    reveal_strlit("s0");
    reveal_strlit("ticket.team_id = ");
    lemma_int_str_i32(n);
    lemma_tagged_int_str('t', n);
    lemma_tagged_int_str('s', n);
    let d = int_str(n as int);
    let te = seq!['t'] + d;
    assert(te != "s0"@) by {
        assert(te[0] != "s0"@[0]);
    }
    let se = seq!['s'] + d;
    if n != 0 && se == "s0"@ {
        assert(d =~= seq!['0']);
        let z = seq!['0'];
        assert(z.drop_last() =~= Seq::<char>::empty());
        assert(z.last() == '0');
        assert(digits_value(z) == digits_value(z.drop_last()) * 10 + digit_value(z.last()));
        assert(digits_value(z) == 0);
        assert(all_digits(z));
        assert(crate::text::parse_int(z, true) == Some(0int));
        assert(parse_i32(z) == Some(0i32));
    }
    assert(d != "s0"@) by {
        assert(d[0] != "s0"@[0]);
    }
    if d[0] == '-' {
        assert(d[0] != 's' && d[0] != 't');
    }
    assert(trim("s0"@) == "s0"@) by {
        assert(!is_ws("s0"@[0]));
        assert(trim_start("s0"@) == "s0"@);
        assert(!is_ws("s0"@.last()));
    }
    let t = trim(a);
    if t.len() > 0 && t[0] == 't' {
        assert(t != "s0"@) by {
            assert(t[0] != "s0"@[0]);
        }
        if parse_i32(t.drop_first()).is_some() {
            let c = "ticket.team_id = "@ + int_str(parse_i32(t.drop_first()).unwrap() as int);
            assert(c.subrange(0, 17) =~= "ticket.team_id = "@);
        } else {
            assert(parse_i32(t).is_none()) by {
                assert(!is_digit(t[0]) && t[0] != '-' && t[0] != '+');
            }
        }
    }
}

/// `prefix` followed by the decimal form of `n`.
pub fn with_int(prefix: &str, n: i64) -> (r: String)
    ensures
        r@ == prefix@ + int_str(n as int),
{
    let mut out = owned(prefix);
    let d = int_string(n as i128);
    push_str(&mut out, d.as_str());
    out
}

/// Parses the assignee filter into its SQL predicate.
pub fn parse_assignee_clause(assignee: &str) -> (r: Option<String>)
    ensures
        opt_view(r) == assignee_clause(assignee@),
        forall|n: i32| assignee@ == seq!['t'] + int_str(n as int) ==> opt_view(r) == Some(
            "ticket.team_id = "@ + int_str(n as int),
        ),
{
    proof {
        assert forall|n: i32| assignee@ == seq!['t'] + int_str(n as int) implies assignee_clause(assignee@) == Some(
            "ticket.team_id = "@ + int_str(n as int),
        ) by {
            law_assignee_filter_names_its_column(n, assignee@);
        }
    }
    let trimmed = trim_str(assignee);
    let t = chars_of(trimmed.as_str());
    if t.len() == 0 {
        return None;
    }
    if chars_eq_str(&t, "s0") {
        return Some(owned("ticket.staff_id IS NULL AND ticket.team_id = 0"));
    }
    let rest = skip_chars(&t, 1);
    assert(rest@ =~= t@.drop_first());
    if t[0] == 's' {
        if let Some(id) = parse_i32_chars(&rest) {
            return Some(with_int("ticket.staff_id = ", id as i64));
        }
    }
    if t[0] == 't' {
        if let Some(id) = parse_i32_chars(&rest) {
            return Some(with_int("ticket.team_id = ", id as i64));
        }
    }
    if let Some(id) = parse_i32_chars(&t) {
        return Some(with_int("ticket.staff_id = ", id as i64));
    }
    None
}

/// `s.replace('\'', "''")`: every apostrophe doubled.
pub open spec fn sql_escape(s: Seq<char>) -> Seq<char>
    decreases s.len(),
{
    if s.len() == 0 {
        s
    } else {
        sql_escape(s.drop_last()) + (if s.last() == '\'' {
            seq!['\'', '\'']
        } else {
            seq![s.last()]
        })
    }
}

/// Escapes a string for a single-quoted SQL literal (apostrophes doubled).
pub fn escape_sql_string(s: &str) -> (r: String)
    ensures
        r@ == sql_escape(s@),
{
    let v = chars_of(s);
    let mut out = String::new();
    let mut i: usize = 0;
    while i < v.len()
        invariant
            v@ == s@,
            i <= v.len(),
            out@ == sql_escape(v@.take(i as int)),
        decreases v.len() - i,
    {
        assert(v@.take(i + 1).drop_last() =~= v@.take(i as int));
        if v[i] == '\'' {
            push_char(&mut out, '\'');
            push_char(&mut out, '\'');
        } else {
            push_char(&mut out, v[i]);
        }
        proof {
            let prev = sql_escape(v@.take(i as int));
            if v@[i as int] == '\'' {
                assert(prev.push('\'').push('\'') =~= prev + seq!['\'', '\'']);
            } else {
                assert(prev.push(v@[i as int]) =~= prev + seq![v@[i as int]]);
            }
        }
        i = i + 1;
    }
    assert(v@.take(v.len() as int) =~= v@);
    out
}

// ---------------------------------------------------------------------------
// Order-by resolution.
// ---------------------------------------------------------------------------

/// The `sort` value that names `key` (stored as the sticky preference).
pub fn sort_key_to_string(key: SortKey) -> (r: String)
    ensures
        r@ == key.key_name(),
{
    match key {
        SortKey::Date => owned("date"),
        SortKey::Id => owned("ID"),
        SortKey::Priority => owned("pri"),
        SortKey::Name => owned("name"),
        SortKey::Subject => owned("subj"),
        SortKey::Status => owned("status"),
        SortKey::Assignee => owned("assignee"),
        SortKey::Staff => owned("staff"),
        SortKey::Department => owned("dept"),
    }
}

pub open spec fn default_order_spec(queue: QueueStatus) -> Seq<char> {
    match queue {
        QueueStatus::Overdue => "COALESCE(priority.urgency, 2) ASC, ticket.duedate ASC NULLS LAST, COALESCE(ticket.reopened, ticket.lastmessage, ticket.created) ASC, ticket.created ASC"@,
        QueueStatus::Closed => "ticket.closed DESC NULLS LAST, ticket.created DESC"@,
        QueueStatus::Answered => "ticket.lastresponse DESC NULLS LAST, ticket.created DESC"@,
        QueueStatus::Open | QueueStatus::Assigned => "COALESCE(priority.urgency, 2) ASC, COALESCE(ticket.reopened, ticket.lastmessage, ticket.created) DESC, ticket.created DESC"@,
    }
}

/// The default ORDER BY of each queue.
pub fn default_order_by(queue: QueueStatus) -> (r: &'static str)
    ensures
        r@ == default_order_spec(queue),
{
    match queue {
        QueueStatus::Overdue => "COALESCE(priority.urgency, 2) ASC, ticket.duedate ASC NULLS LAST, COALESCE(ticket.reopened, ticket.lastmessage, ticket.created) ASC, ticket.created ASC",
        QueueStatus::Closed => "ticket.closed DESC NULLS LAST, ticket.created DESC",
        QueueStatus::Answered => "ticket.lastresponse DESC NULLS LAST, ticket.created DESC",
        QueueStatus::Open | QueueStatus::Assigned => "COALESCE(priority.urgency, 2) ASC, COALESCE(ticket.reopened, ticket.lastmessage, ticket.created) DESC, ticket.created DESC",
    }
}

/// The ORDER BY of a queue: the explicit key (ties broken by ticket id in the
/// same direction), else the queue default.
pub open spec fn order_by_spec(queue: QueueStatus, cfg: SortConfig) -> Seq<char> {
    match cfg.key {
        Some(key) => key.sql_spec() + " "@ + cfg.order.sql_spec() + ", ticket.ticket_id "@
            + cfg.order.sql_spec(),
        None => default_order_spec(queue),
    }
}

/// Resolves the ORDER BY clause of a queue listing.
pub fn resolve_order_by(queue: QueueStatus, sort_config: &SortConfig) -> (r: String)
    ensures
        r@ == order_by_spec(queue, *sort_config),
{
    match sort_config.key {
        Some(key) => {
            let mut out = owned(key.sql_expression());
            push_str(&mut out, " ");
            push_str(&mut out, sort_config.order.sql());
            push_str(&mut out, ", ticket.ticket_id ");
            push_str(&mut out, sort_config.order.sql());
            out
        },
        None => owned(default_order_by(queue)),
    }
}

/// Whether an ORDER BY needs the priority table.
pub fn order_needs_priority_join(order_by: &str) -> (r: bool)
    ensures
        r == contains_sub(order_by@, "priority.urgency"@),
{
    contains_str(&chars_of(order_by), "priority.urgency")
}

/// Whether an ORDER BY needs the assignee (staff) table: it sorts by the
/// assignee's name.
pub fn order_needs_staff_join(order_by: &str) -> (r: bool)
    ensures
        r == contains_sub(order_by@, "(staff.firstname"@),
{
    contains_str(&chars_of(order_by), "(staff.firstname")
}

/// Whether an ORDER BY needs the department table.
pub fn order_needs_dept_join(order_by: &str) -> (r: bool)
    ensures
        r == contains_sub(order_by@, "department.dept_name"@),
{
    contains_str(&chars_of(order_by), "department.dept_name")
}

/// Whether an ORDER BY needs the closing-staff table.
pub fn order_needs_closing_staff_join(order_by: &str) -> (r: bool)
    ensures
        r == contains_sub(order_by@, "closing_staff.firstname"@),
{
    contains_str(&chars_of(order_by), "closing_staff.firstname")
}

/// What an explicit sort appends to its key's expression.
pub open spec fn order_suffix(o: SortOrder) -> Seq<char> {
    " "@ + o.sql_spec() + ", ticket.ticket_id "@ + o.sql_spec()
}

proof fn lemma_pairs_checked(s: Seq<char>, a: char, b: char)
    requires
        no_pair_from(s, a, b, 0),
    ensures
        no_pair(s, a, b),
{
    lemma_no_pair_from(s, a, b, 0);
}

proof fn lemma_suffix_pairs(o: SortOrder)
    ensures
        no_pair(order_suffix(o), 'p', 'r'),
        no_pair(order_suffix(o), '(', 's'),
        no_pair(order_suffix(o), 'c', 'l'),
        no_pair(order_suffix(o), 'd', 'e'),
        order_suffix(o).len() > 0,
        order_suffix(o)[0] == ' ',
{
    reveal_strlit(" ");
    reveal_strlit("ASC");
    reveal_strlit("DESC");
    reveal_strlit(", ticket.ticket_id ");
    reveal_with_fuel(no_pair_from, 32);
    lemma_pairs_checked(order_suffix(o), 'p', 'r');
    lemma_pairs_checked(order_suffix(o), '(', 's');
    lemma_pairs_checked(order_suffix(o), 'c', 'l');
    lemma_pairs_checked(order_suffix(o), 'd', 'e');
}

proof fn lemma_key_pairs(k: SortKey)
    ensures
        k != SortKey::Priority ==> no_pair(k.sql_spec(), 'p', 'r'),
        k != SortKey::Assignee ==> no_pair(k.sql_spec(), '(', 's'),
        k != SortKey::Staff ==> no_pair(k.sql_spec(), 'c', 'l'),
        k != SortKey::Department ==> no_pair(k.sql_spec(), 'd', 'e'),
        k == SortKey::Priority ==> occurs_at(k.sql_spec(), "priority.urgency"@, 9),
        k == SortKey::Assignee ==> occurs_at(k.sql_spec(), "(staff.firstname"@, 8),
        k == SortKey::Assignee ==> occurs_at(k.sql_spec(), "(staff."@, 8),
        k == SortKey::Staff ==> occurs_at(k.sql_spec(), "closing_staff.firstname"@, 9),
        k == SortKey::Staff ==> occurs_at(k.sql_spec(), "closing_staff."@, 9),
        k == SortKey::Department ==> occurs_at(k.sql_spec(), "department.dept_name"@, 9),
{
    match k {
        SortKey::Date => lemma_date_expr_pairs(),
        SortKey::Id => lemma_id_expr_pairs(),
        SortKey::Priority => lemma_priority_expr_pairs(),
        SortKey::Name => lemma_name_expr_pairs(),
        SortKey::Subject => lemma_subject_expr_pairs(),
        SortKey::Status => lemma_status_expr_pairs(),
        SortKey::Assignee => lemma_assignee_expr_pairs(),
        SortKey::Staff => lemma_staff_expr_pairs(),
        SortKey::Department => lemma_department_expr_pairs(),
    }
}

#[verifier::spinoff_prover]
proof fn lemma_date_expr_pairs()
    ensures
        no_pair(SortKey::Date.sql_spec(), 'p', 'r'),
        no_pair(SortKey::Date.sql_spec(), '(', 's'),
        no_pair(SortKey::Date.sql_spec(), 'c', 'l'),
        no_pair(SortKey::Date.sql_spec(), 'd', 'e'),
{
    reveal_strlit("ticket.created");
    reveal_with_fuel(no_pair_from, 80);
    lemma_pairs_checked(SortKey::Date.sql_spec(), 'p', 'r');
    lemma_pairs_checked(SortKey::Date.sql_spec(), '(', 's');
    lemma_pairs_checked(SortKey::Date.sql_spec(), 'c', 'l');
    lemma_pairs_checked(SortKey::Date.sql_spec(), 'd', 'e');
}

#[verifier::spinoff_prover]
proof fn lemma_id_expr_pairs()
    ensures
        no_pair(SortKey::Id.sql_spec(), 'p', 'r'),
        no_pair(SortKey::Id.sql_spec(), '(', 's'),
        no_pair(SortKey::Id.sql_spec(), 'c', 'l'),
        no_pair(SortKey::Id.sql_spec(), 'd', 'e'),
{
    reveal_strlit("ticket.\"ticketID\"::integer");
    reveal_with_fuel(no_pair_from, 80);
    lemma_pairs_checked(SortKey::Id.sql_spec(), 'p', 'r');
    lemma_pairs_checked(SortKey::Id.sql_spec(), '(', 's');
    lemma_pairs_checked(SortKey::Id.sql_spec(), 'c', 'l');
    lemma_pairs_checked(SortKey::Id.sql_spec(), 'd', 'e');
}

#[verifier::spinoff_prover]
proof fn lemma_priority_expr_pairs()
    ensures
        no_pair(SortKey::Priority.sql_spec(), '(', 's'),
        no_pair(SortKey::Priority.sql_spec(), 'c', 'l'),
        no_pair(SortKey::Priority.sql_spec(), 'd', 'e'),
        occurs_at(SortKey::Priority.sql_spec(), "priority.urgency"@, 9),
{
    reveal_strlit("COALESCE(priority.urgency, 2)");
    reveal_with_fuel(no_pair_from, 80);
    lemma_pairs_checked(SortKey::Priority.sql_spec(), '(', 's');
    lemma_pairs_checked(SortKey::Priority.sql_spec(), 'c', 'l');
    lemma_pairs_checked(SortKey::Priority.sql_spec(), 'd', 'e');
    reveal_strlit("priority.urgency");
    assert(SortKey::Priority.sql_spec().subrange(9int, 25int) =~= "priority.urgency"@);
}

#[verifier::spinoff_prover]
proof fn lemma_name_expr_pairs()
    ensures
        no_pair(SortKey::Name.sql_spec(), 'p', 'r'),
        no_pair(SortKey::Name.sql_spec(), '(', 's'),
        no_pair(SortKey::Name.sql_spec(), 'c', 'l'),
        no_pair(SortKey::Name.sql_spec(), 'd', 'e'),
{
    reveal_strlit("ticket.name");
    reveal_with_fuel(no_pair_from, 80);
    lemma_pairs_checked(SortKey::Name.sql_spec(), 'p', 'r');
    lemma_pairs_checked(SortKey::Name.sql_spec(), '(', 's');
    lemma_pairs_checked(SortKey::Name.sql_spec(), 'c', 'l');
    lemma_pairs_checked(SortKey::Name.sql_spec(), 'd', 'e');
}

#[verifier::spinoff_prover]
proof fn lemma_subject_expr_pairs()
    ensures
        no_pair(SortKey::Subject.sql_spec(), 'p', 'r'),
        no_pair(SortKey::Subject.sql_spec(), '(', 's'),
        no_pair(SortKey::Subject.sql_spec(), 'c', 'l'),
        no_pair(SortKey::Subject.sql_spec(), 'd', 'e'),
{
    reveal_strlit("ticket.subject");
    reveal_with_fuel(no_pair_from, 80);
    lemma_pairs_checked(SortKey::Subject.sql_spec(), 'p', 'r');
    lemma_pairs_checked(SortKey::Subject.sql_spec(), '(', 's');
    lemma_pairs_checked(SortKey::Subject.sql_spec(), 'c', 'l');
    lemma_pairs_checked(SortKey::Subject.sql_spec(), 'd', 'e');
}

#[verifier::spinoff_prover]
proof fn lemma_status_expr_pairs()
    ensures
        no_pair(SortKey::Status.sql_spec(), 'p', 'r'),
        no_pair(SortKey::Status.sql_spec(), '(', 's'),
        no_pair(SortKey::Status.sql_spec(), 'c', 'l'),
        no_pair(SortKey::Status.sql_spec(), 'd', 'e'),
{
    reveal_strlit("ticket.status");
    reveal_with_fuel(no_pair_from, 80);
    lemma_pairs_checked(SortKey::Status.sql_spec(), 'p', 'r');
    lemma_pairs_checked(SortKey::Status.sql_spec(), '(', 's');
    lemma_pairs_checked(SortKey::Status.sql_spec(), 'c', 'l');
    lemma_pairs_checked(SortKey::Status.sql_spec(), 'd', 'e');
}

#[verifier::spinoff_prover]
proof fn lemma_assignee_expr_pairs()
    ensures
        no_pair(SortKey::Assignee.sql_spec(), 'p', 'r'),
        no_pair(SortKey::Assignee.sql_spec(), 'c', 'l'),
        no_pair(SortKey::Assignee.sql_spec(), 'd', 'e'),
        occurs_at(SortKey::Assignee.sql_spec(), "(staff.firstname"@, 8),
        occurs_at(SortKey::Assignee.sql_spec(), "(staff."@, 8),
{
    reveal_strlit("COALESCE(staff.firstname || ' ' || staff.lastname, '')");
    reveal_with_fuel(no_pair_from, 80);
    lemma_pairs_checked(SortKey::Assignee.sql_spec(), 'p', 'r');
    lemma_pairs_checked(SortKey::Assignee.sql_spec(), 'c', 'l');
    lemma_pairs_checked(SortKey::Assignee.sql_spec(), 'd', 'e');
    reveal_strlit("(staff.firstname");
    assert(SortKey::Assignee.sql_spec().subrange(8int, 24int) =~= "(staff.firstname"@);
    reveal_strlit("(staff.");
    assert(SortKey::Assignee.sql_spec().subrange(8int, 15int) =~= "(staff."@);
}

#[verifier::spinoff_prover]
proof fn lemma_staff_expr_pairs()
    ensures
        no_pair(SortKey::Staff.sql_spec(), 'p', 'r'),
        no_pair(SortKey::Staff.sql_spec(), '(', 's'),
        no_pair(SortKey::Staff.sql_spec(), 'd', 'e'),
        occurs_at(SortKey::Staff.sql_spec(), "closing_staff.firstname"@, 9),
        occurs_at(SortKey::Staff.sql_spec(), "closing_staff."@, 9),
{
    reveal_strlit("COALESCE(closing_staff.firstname || ' ' || closing_staff.lastname, '')");
    reveal_with_fuel(no_pair_from, 80);
    lemma_pairs_checked(SortKey::Staff.sql_spec(), 'p', 'r');
    lemma_pairs_checked(SortKey::Staff.sql_spec(), '(', 's');
    lemma_pairs_checked(SortKey::Staff.sql_spec(), 'd', 'e');
    reveal_strlit("closing_staff.firstname");
    assert(SortKey::Staff.sql_spec().subrange(9int, 32int) =~= "closing_staff.firstname"@);
    reveal_strlit("closing_staff.");
    assert(SortKey::Staff.sql_spec().subrange(9int, 23int) =~= "closing_staff."@);
}

#[verifier::spinoff_prover]
proof fn lemma_department_expr_pairs()
    ensures
        no_pair(SortKey::Department.sql_spec(), 'p', 'r'),
        no_pair(SortKey::Department.sql_spec(), '(', 's'),
        no_pair(SortKey::Department.sql_spec(), 'c', 'l'),
        occurs_at(SortKey::Department.sql_spec(), "department.dept_name"@, 9),
{
    reveal_strlit("COALESCE(department.dept_name, '')");
    reveal_with_fuel(no_pair_from, 80);
    lemma_pairs_checked(SortKey::Department.sql_spec(), 'p', 'r');
    lemma_pairs_checked(SortKey::Department.sql_spec(), '(', 's');
    lemma_pairs_checked(SortKey::Department.sql_spec(), 'c', 'l');
    reveal_strlit("department.dept_name");
    assert(SortKey::Department.sql_spec().subrange(9int, 29int) =~= "department.dept_name"@);
}

proof fn lemma_needle_heads()
    ensures
        "priority.urgency"@.len() >= 2 && "priority.urgency"@[0] == 'p' && "priority.urgency"@[1] == 'r',
        "(staff.firstname"@.len() >= 2 && "(staff.firstname"@[0] == '(' && "(staff.firstname"@[1] == 's',
        "closing_staff.firstname"@.len() >= 2 && "closing_staff.firstname"@[0] == 'c'
            && "closing_staff.firstname"@[1] == 'l',
        "department.dept_name"@.len() >= 2 && "department.dept_name"@[0] == 'd' && "department.dept_name"@[1] == 'e',
        "(staff."@.len() >= 2 && "(staff."@[0] == '(' && "(staff."@[1] == 's',
        "closing_staff."@.len() >= 2 && "closing_staff."@[0] == 'c' && "closing_staff."@[1] == 'l',
{
    reveal_strlit("priority.urgency");
    reveal_strlit("(staff.firstname");
    reveal_strlit("closing_staff.firstname");
    reveal_strlit("department.dept_name");
    reveal_strlit("(staff.");
    reveal_strlit("closing_staff.");
}

/// A sort key's expression reads the priority, assignee, closing-staff or
/// department table exactly when the key asks for that join: the text each
/// `order_needs_*_join` looks for occurs in the expression of that key and
/// of no other, and so does any use of the assignee table (`(staff.`) or of
/// the closing-staff table (`closing_staff.`).
pub proof fn law_sort_key_joins_follow_expression(k: SortKey)
    ensures
        contains_sub(k.sql_spec(), "priority.urgency"@) == (k == SortKey::Priority),
        contains_sub(k.sql_spec(), "(staff.firstname"@) == (k == SortKey::Assignee),
        contains_sub(k.sql_spec(), "(staff."@) == (k == SortKey::Assignee),
        contains_sub(k.sql_spec(), "closing_staff.firstname"@) == (k == SortKey::Staff),
        contains_sub(k.sql_spec(), "closing_staff."@) == (k == SortKey::Staff),
        contains_sub(k.sql_spec(), "department.dept_name"@) == (k == SortKey::Department),
{
    lemma_key_pairs(k);
    lemma_needle_heads();
    let e = k.sql_spec();
    if k != SortKey::Priority {
        lemma_no_pair_no_sub(e, "priority.urgency"@);
    }
    if k != SortKey::Assignee {
        lemma_no_pair_no_sub(e, "(staff.firstname"@);
        lemma_no_pair_no_sub(e, "(staff."@);
    } else {
        assert(occurs_at(e, "(staff."@, 8));
    }
    if k != SortKey::Staff {
        lemma_no_pair_no_sub(e, "closing_staff.firstname"@);
        lemma_no_pair_no_sub(e, "closing_staff."@);
    } else {
        assert(occurs_at(e, "closing_staff."@, 9));
    }
    if k != SortKey::Department {
        lemma_no_pair_no_sub(e, "department.dept_name"@);
    }
}

/// The joins of an explicitly sorted listing follow its key: the ORDER BY
/// of sort key `k` needs the priority, staff (assignee), closing-staff or
/// department join exactly when `k` is priority, assignee, staff or
/// department, in every queue and either direction.
pub proof fn law_order_by_joins_follow_the_key(queue: QueueStatus, k: SortKey, o: SortOrder)
    ensures
        contains_sub(order_by_spec(queue, SortConfig { key: Some(k), order: o }), "priority.urgency"@)
            == (k == SortKey::Priority),
        contains_sub(order_by_spec(queue, SortConfig { key: Some(k), order: o }), "(staff.firstname"@)
            == (k == SortKey::Assignee),
        contains_sub(order_by_spec(queue, SortConfig { key: Some(k), order: o }), "closing_staff.firstname"@)
            == (k == SortKey::Staff),
        contains_sub(order_by_spec(queue, SortConfig { key: Some(k), order: o }), "department.dept_name"@)
            == (k == SortKey::Department),
{
    let e = k.sql_spec();
    let suf = order_suffix(o);
    let ob = order_by_spec(queue, SortConfig { key: Some(k), order: o });
    assert(ob =~= e + suf);
    lemma_key_pairs(k);
    lemma_suffix_pairs(o);
    lemma_needle_heads();
    if k == SortKey::Priority {
        lemma_sub_in_prefix(e, suf, "priority.urgency"@, 9);
    } else {
        lemma_no_pair_concat(e, suf, 'p', 'r');
        lemma_no_pair_no_sub(e + suf, "priority.urgency"@);
    }
    if k == SortKey::Assignee {
        lemma_sub_in_prefix(e, suf, "(staff.firstname"@, 8);
    } else {
        lemma_no_pair_concat(e, suf, '(', 's');
        lemma_no_pair_no_sub(e + suf, "(staff.firstname"@);
    }
    if k == SortKey::Staff {
        lemma_sub_in_prefix(e, suf, "closing_staff.firstname"@, 9);
    } else {
        lemma_no_pair_concat(e, suf, 'c', 'l');
        lemma_no_pair_no_sub(e + suf, "closing_staff.firstname"@);
    }
    if k == SortKey::Department {
        lemma_sub_in_prefix(e, suf, "department.dept_name"@, 9);
    } else {
        lemma_no_pair_concat(e, suf, 'd', 'e');
        lemma_no_pair_no_sub(e + suf, "department.dept_name"@);
    }
}

// ---------------------------------------------------------------------------
// Sticky sort preferences.
// ---------------------------------------------------------------------------

/// A stored sort for one queue: the `sort` key name and the SQL direction.
#[derive(Debug)]
pub struct QueueSort {
    pub sort: String,
    pub order: String,
}

/// The per-queue sticky sorts kept in a staff session.
#[derive(Debug, Default)]
pub struct SortPreferences {
    pub open: Option<QueueSort>,
    pub answered: Option<QueueSort>,
    pub assigned: Option<QueueSort>,
    pub overdue: Option<QueueSort>,
    pub closed: Option<QueueSort>,
}

/// The stored sort of a queue, as `(sort, order)` text.
pub open spec fn queue_sort_spec(prefs: SortPreferences, queue: QueueStatus) -> Option<(Seq<char>, Seq<char>)> {
    let slot = match queue {
        QueueStatus::Open => prefs.open,
        QueueStatus::Answered => prefs.answered,
        QueueStatus::Assigned => prefs.assigned,
        QueueStatus::Overdue => prefs.overdue,
        QueueStatus::Closed => prefs.closed,
    };
    match slot {
        Some(qs) => Some((qs.sort@, qs.order@)),
        None => None,
    }
}

/// The stored sort of a queue.
pub fn get_queue_sort(prefs: &SortPreferences, queue: QueueStatus) -> (r: Option<&QueueSort>)
    ensures
        match r {
            Some(qs) => queue_sort_spec(*prefs, queue) == Some((qs.sort@, qs.order@)),
            None => queue_sort_spec(*prefs, queue).is_none(),
        },
{
    match queue {
        QueueStatus::Open => prefs.open.as_ref(),
        QueueStatus::Answered => prefs.answered.as_ref(),
        QueueStatus::Assigned => prefs.assigned.as_ref(),
        QueueStatus::Overdue => prefs.overdue.as_ref(),
        QueueStatus::Closed => prefs.closed.as_ref(),
    }
}

/// The effective sort of a queue request and whether to store it: an explicit
/// valid key wins (and is stored); an explicit invalid key falls back to the
/// queue default; with no `sort` parameter the session's sticky sort for the
/// queue applies when it names a valid key; else the queue default.
pub open spec fn effective_sort_spec(
    explicit: SortConfig,
    queue: QueueStatus,
    prefs: Option<SortPreferences>,
    sort_param: Option<Seq<char>>,
) -> (SortConfig, bool) {
    let default = SortConfig { key: None, order: SortOrder::Desc };
    if explicit.key.is_some() {
        (explicit, true)
    } else if sort_param.is_some() {
        (default, false)
    } else {
        match prefs {
            Some(p) => match queue_sort_spec(p, queue) {
                Some((s, o)) => match sort_key_of(s) {
                    Some(k) => (SortConfig { key: Some(k), order: sort_order_of(o) }, false),
                    None => (default, false),
                },
                None => (default, false),
            },
            None => (default, false),
        }
    }
}

pub open spec fn opt_ref_view(o: Option<&SortPreferences>) -> Option<SortPreferences> {
    match o {
        Some(p) => Some(*p),
        None => None,
    }
}

/// Resolves the effective sort: explicit param, then sticky preference, then
/// the queue default. The flag says whether to store the explicit sort.
pub fn resolve_effective_sort(
    explicit: &SortConfig,
    queue: QueueStatus,
    session_prefs: Option<&SortPreferences>,
    params: &QueueParams,
) -> (r: (SortConfig, bool))
    ensures
        r == effective_sort_spec(*explicit, queue, opt_ref_view(session_prefs), opt_view(params.sort)),
{
    if explicit.key.is_some() {
        return (*explicit, true);
    }
    if params.sort.is_some() {
        return (SortConfig { key: None, order: SortOrder::Desc }, false);
    }
    if let Some(prefs) = session_prefs {
        if let Some(queue_sort) = get_queue_sort(prefs, queue) {
            if let Some(key) = SortKey::from_str(queue_sort.sort.as_str()) {
                let order = SortOrder::from_str(queue_sort.order.as_str());
                return (SortConfig { key: Some(key), order }, false);
            }
        }
    }
    (SortConfig { key: None, order: SortOrder::Desc }, false)
}

/// The preferences after storing `cfg` for `queue` (every other queue kept).
pub open spec fn stored_prefs_spec(
    current: Option<SortPreferences>,
    queue: QueueStatus,
    key: SortKey,
    order: SortOrder,
    result: SortPreferences,
) -> bool {
    &&& queue_sort_spec(result, queue) == Some((key.key_name(), order.sql_spec()))
    &&& forall|q: QueueStatus|
        q != queue ==> #[trigger] queue_sort_spec(result, q) == match current {
            Some(c) => queue_sort_spec(c, q),
            None => None,
        }
}

/// The sticky preferences to write back after an explicit sort: `None` when
/// there is no valid key to store.
pub fn updated_sort_prefs(
    current: Option<SortPreferences>,
    queue: QueueStatus,
    sort_config: &SortConfig,
) -> (r: Option<SortPreferences>)
    ensures
        sort_config.key.is_none() ==> r.is_none(),
        sort_config.key.is_some() ==> r.is_some() && stored_prefs_spec(
            current,
            queue,
            sort_config.key.unwrap(),
            sort_config.order,
            r.unwrap(),
        ),
{
    let key = match sort_config.key {
        Some(k) => k,
        None => {
            return None;
        },
    };
    let mut prefs = match current {
        Some(p) => p,
        None => SortPreferences { open: None, answered: None, assigned: None, overdue: None, closed: None },
    };
    let new_sort = QueueSort { sort: sort_key_to_string(key), order: owned(sort_config.order.sql()) };
    match queue {
        QueueStatus::Open => prefs.open = Some(new_sort),
        QueueStatus::Answered => prefs.answered = Some(new_sort),
        QueueStatus::Assigned => prefs.assigned = Some(new_sort),
        QueueStatus::Overdue => prefs.overdue = Some(new_sort),
        QueueStatus::Closed => prefs.closed = Some(new_sort),
    }
    Some(prefs)
}

// ---------------------------------------------------------------------------
// Visibility and access.
// ---------------------------------------------------------------------------

/// What a staff member may see: their own id, the departments their group
/// reaches, their teams, and whether they are limited to their own tickets.
#[derive(Debug)]
pub struct StaffVisibility {
    pub staff_id: i32,
    pub dept_ids: Vec<i32>,
    pub team_ids: Vec<i32>,
    pub is_access_limited: bool,
}

/// The visibility predicate of the closed queue: assigned to me, or in one
/// of my departments (unless access-limited), or assigned to one of my teams.
pub open spec fn closed_visibility_spec(staff_id: i32, depts: Seq<i32>, teams: Seq<i32>, limited: bool) -> Seq<char> {
    "("@ + "(ticket.staff_id = "@ + int_str(staff_id as int) + ")"@ + (if !limited && depts.len() > 0 {
        " OR "@ + "(ticket.dept_id IN ("@ + join(id_strs(depts), ", "@) + "))"@
    } else {
        Seq::empty()
    }) + (if teams.len() > 0 {
        " OR "@ + "(ticket.team_id IN ("@ + join(id_strs(teams), ", "@) + "))"@
    } else {
        Seq::empty()
    }) + ")"@
}

/// Builds the closed-queue visibility predicate.
pub fn build_closed_visibility_clause(visibility: &StaffVisibility) -> (r: String)
    ensures
        r@ == closed_visibility_spec(
            visibility.staff_id,
            visibility.dept_ids@,
            visibility.team_ids@,
            visibility.is_access_limited,
        ),
{
    let mut out = owned("(");
    push_str(&mut out, "(ticket.staff_id = ");
    let id = int_string(visibility.staff_id as i128);
    push_str(&mut out, id.as_str());
    push_str(&mut out, ")");
    let ghost a = out@;
    if !visibility.is_access_limited && visibility.dept_ids.len() > 0 {
        push_str(&mut out, " OR ");
        push_str(&mut out, "(ticket.dept_id IN (");
        let list = join_ids(&visibility.dept_ids, ", ");
        push_str(&mut out, list.as_str());
        push_str(&mut out, "))");
    }
    let ghost b = out@;
    if visibility.team_ids.len() > 0 {
        push_str(&mut out, " OR ");
        push_str(&mut out, "(ticket.team_id IN (");
        let list = join_ids(&visibility.team_ids, ", ");
        push_str(&mut out, list.as_str());
        push_str(&mut out, "))");
    }
    push_str(&mut out, ")");
    assert(out@ =~= closed_visibility_spec(
        visibility.staff_id,
        visibility.dept_ids@,
        visibility.team_ids@,
        visibility.is_access_limited,
    ));
    out
}

/// Whether a staff member may act on a ticket: assigned to them, in one of
/// their departments (when not access-limited), or assigned to one of their
/// teams.
pub open spec fn can_access_spec(
    staff_id: i32,
    assigned_staff: Option<i32>,
    assigned_team: Option<i32>,
    ticket_dept: i32,
    depts: Seq<i32>,
    teams: Seq<i32>,
    limited: bool,
) -> bool {
    ||| assigned_staff == Some(staff_id)
    ||| (!limited && depts.contains(ticket_dept))
    ||| (assigned_team.is_some() && teams.contains(assigned_team.unwrap()))
}

fn vec_contains(v: &Vec<i32>, x: i32) -> (r: bool)
    ensures
        r == v@.contains(x),
{
    let mut i: usize = 0;
    while i < v.len()
        invariant
            i <= v.len(),
            forall|j: int| 0 <= j < i ==> v@[j] != x,
        decreases v.len() - i,
    {
        if v[i] == x {
            assert(v@[i as int] == x);
            return true;
        }
        i = i + 1;
    }
    false
}

/// The access check of the note route.
pub fn can_access_ticket(
    visibility: &StaffVisibility,
    assigned_staff: Option<i32>,
    assigned_team: Option<i32>,
    ticket_dept: i32,
) -> (r: bool)
    ensures
        r == can_access_spec(
            visibility.staff_id,
            assigned_staff,
            assigned_team,
            ticket_dept,
            visibility.dept_ids@,
            visibility.team_ids@,
            visibility.is_access_limited,
        ),
{
    let mine = match assigned_staff {
        Some(s) => s == visibility.staff_id,
        None => false,
    };
    let by_dept = !visibility.is_access_limited && vec_contains(&visibility.dept_ids, ticket_dept);
    let by_team = match assigned_team {
        Some(t) => vec_contains(&visibility.team_ids, t),
        None => false,
    };
    mine || by_dept || by_team
}

// ---------------------------------------------------------------------------
// Listing metadata.
// ---------------------------------------------------------------------------

/// The rightmost column of each queue (the open queue shows the assignee only
/// when assigned tickets are shown there).
pub open spec fn rightmost_spec(queue: QueueStatus, show_assigned: bool) -> RightmostColumn {
    match queue {
        QueueStatus::Closed => RightmostColumn::ClosedBy,
        QueueStatus::Assigned => RightmostColumn::Department,
        QueueStatus::Open => if show_assigned {
            RightmostColumn::AssignedTo
        } else {
            RightmostColumn::Department
        },
        QueueStatus::Answered | QueueStatus::Overdue => RightmostColumn::AssignedTo,
    }
}

/// The rightmost column of a queue listing.
pub fn rightmost_column_for(queue: QueueStatus, show_assigned: bool) -> (r: RightmostColumn)
    ensures
        r == rightmost_spec(queue, show_assigned),
{
    match queue {
        QueueStatus::Closed => RightmostColumn::ClosedBy,
        QueueStatus::Assigned => RightmostColumn::Department,
        QueueStatus::Open => if show_assigned {
            RightmostColumn::AssignedTo
        } else {
            RightmostColumn::Department
        },
        QueueStatus::Answered | QueueStatus::Overdue => RightmostColumn::AssignedTo,
    }
}

/// Number of pages for `total` rows (at least one).
pub fn total_pages(total: i64, page_size: u32) -> (r: u32)
    requires
        page_size >= 1,
        0 <= total,
        total + page_size <= u32::MAX,
    ensures
        r == (if total == 0 {
            1
        } else if (total + page_size - 1) / (page_size as int) >= 1 {
            ((total + page_size - 1) / (page_size as int)) as u32
        } else {
            1
        }),
{
    if total == 0 {
        1
    } else {
        let t: u32 = total as u32;
        assert(t as int == total);
        let n = (t + page_size - 1) / page_size;
        if n >= 1 {
            n
        } else {
            1
        }
    }
}

/// The row offset of a 1-based page (`(page - 1) * page_size`, page 0 as 1).
pub fn page_offset(page: u32, page_size: u32) -> (r: u32)
    requires
        (if page >= 1 { page - 1 } else { 0 }) * page_size <= u32::MAX,
    ensures
        r == (if page >= 1 { page - 1 } else { 0 }) * page_size,
{
    let p = if page >= 1 { page - 1 } else { 0 };
    p * page_size
}

// ---------------------------------------------------------------------------
// Search.
// ---------------------------------------------------------------------------

/// The search parameters are refused when a keyword is shorter than three
/// characters after trimming, or when both dates are given and the start is
/// after the end.
pub open spec fn search_error_spec(params: QueueParams) -> Option<Seq<char>> {
    if params.query.is_some() && trim(params.query.unwrap()@).len() < 3 {
        Some("Search term must be more than 3 chars"@)
    } else if params.start_date.is_some() && params.end_date.is_some()
        && params.start_date.unwrap()@.len() > 0 && params.end_date.unwrap()@.len() > 0
        && str_lt(params.end_date.unwrap()@, params.start_date.unwrap()@) {
        Some("Entered date span is invalid."@)
    } else {
        None
    }
}

/// Checks the keyword length and the date span of a search (400 on failure).
pub fn validate_search(params: &QueueParams) -> (r: Result<(), ApiError>)
    ensures
        match search_error_spec(*params) {
            Some(msg) => r.is_err() && r.unwrap_err().is(ErrorKind::BadRequest, msg),
            None => r.is_ok(),
        },
{
    if let Some(query) = &params.query {
        let t = trim_chars(&chars_of(query.as_str()));
        if t.len() < 3 {
            return Err(ApiError::bad_request("Search term must be more than 3 chars"));
        }
    }
    if let (Some(start), Some(end)) = (&params.start_date, &params.end_date) {
        let sv = chars_of(start.as_str());
        let ev = chars_of(end.as_str());
        if sv.len() > 0 && ev.len() > 0 && str_lt_exec(&ev, &sv) {
            return Err(ApiError::bad_request("Entered date span is invalid."));
        }
    }
    Ok(())
}

/// The keyword predicate of a search and whether it needs the thread join.
pub open spec fn keyword_clause_spec(q: Seq<char>) -> (Seq<char>, bool) {
    let t = trim(trim(q));
    if all_digits(t) {
        ("ticket.\"ticketID\"::text LIKE '"@ + sql_escape(t) + "%'"@, false)
    } else if t.contains('@') && valid_email(t) {
        ("ticket.email = '"@ + sql_escape(t) + "'"@, false)
    } else {
        let p = "%"@ + sql_escape(t) + "%"@;
        (
            "(ticket.email ILIKE '"@ + p + "' OR ticket.name ILIKE '"@ + p
                + "' OR ticket.subject ILIKE '"@ + p + "' OR tt.body ILIKE '"@ + p + "')"@,
            true,
        )
    }
}

/// The status predicate an advanced search's status selects (none for `any`
/// or an unknown status).
pub open spec fn status_filter_spec(status: Option<Seq<char>>) -> Seq<Seq<char>> {
    match status {
        Some(s) => if s == "open"@ {
            seq!["ticket.status = 'open' AND ticket.isoverdue = false AND ticket.isanswered = false"@]
        } else if s == "answered"@ {
            seq!["ticket.status = 'open' AND ticket.isanswered = true"@]
        } else if s == "overdue"@ {
            seq!["ticket.status = 'open' AND ticket.isoverdue = true"@]
        } else if s == "closed"@ {
            seq!["ticket.status = 'closed'"@]
        } else {
            Seq::empty()
        },
        None => Seq::empty(),
    }
}

pub open spec fn opt_clause(b: bool, c: Seq<char>) -> Seq<Seq<char>> {
    if b {
        seq![c]
    } else {
        Seq::empty()
    }
}

/// Every WHERE predicate of a search, in order, and whether the thread table
/// must be joined: visibility, status, in-scope department, assignee (not for
/// closed), closed-by staff, topic, date bounds, keyword.
pub open spec fn search_filters_spec(vis: Seq<char>, depts: Seq<i32>, params: QueueParams) -> (Seq<Seq<char>>, bool) {
    let st = params.search_status_spec();
    let dept = match params.dept_id {
        Some(d) => opt_clause(depts.contains(d), "ticket.dept_id = "@ + int_str(d as int)),
        None => Seq::empty(),
    };
    let assignee = match params.assignee {
        Some(a) => if st != Some("closed"@) && assignee_clause(a@).is_some() {
            seq![assignee_clause(a@).unwrap()]
        } else {
            Seq::empty()
        },
        None => Seq::empty(),
    };
    let closer = match params.staff_id {
        Some(s) => opt_clause(s > 0, "ticket.closed_by_staff_id = "@ + int_str(s as int)),
        None => Seq::empty(),
    };
    let topic = match params.topic_id {
        Some(t) => seq!["ticket.topic_id = "@ + int_str(t as int)],
        None => Seq::empty(),
    };
    let from = match params.start_date {
        Some(d) => opt_clause(d@.len() > 0, "ticket.created >= '"@ + sql_escape(d@) + "'::date"@),
        None => Seq::empty(),
    };
    let to = match params.end_date {
        Some(d) => opt_clause(
            d@.len() > 0,
            "ticket.created < ('"@ + sql_escape(d@) + "' ::date + interval '1 day')"@,
        ),
        None => Seq::empty(),
    };
    let kw = match params.query {
        Some(q) => if trim(q@).len() > 0 {
            (seq![keyword_clause_spec(q@).0], keyword_clause_spec(q@).1)
        } else {
            (Seq::empty(), false)
        },
        None => (Seq::empty(), false),
    };
    (
        seq![vis] + status_filter_spec(st) + dept + assignee + closer + topic + from + to + kw.0,
        kw.1,
    )
}

fn push_clause(v: &mut Vec<String>, c: String)
    ensures
        final(v)@.len() == old(v)@.len() + 1,
        forall|i: int| 0 <= i < old(v)@.len() ==> final(v)@[i]@ == old(v)@[i]@,
        final(v)@.last()@ == c@,
{
    v.push(c);
}

pub open spec fn views(v: Seq<String>) -> Seq<Seq<char>> {
    v.map_values(|s: String| s@)
}

/// The keyword predicate of a search query.
pub fn keyword_clause(query: &str) -> (r: (String, bool))
    ensures
        (r.0@, r.1) == keyword_clause_spec(query@),
{
    let trimmed = trim_str(query);
    match KeywordType::from_query(trimmed.as_str()) {
        KeywordType::TicketNumber(num) => {
            let mut c = owned("ticket.\"ticketID\"::text LIKE '");
            let e = escape_sql_string(num.as_str());
            push_str(&mut c, e.as_str());
            push_str(&mut c, "%'");
            (c, false)
        },
        KeywordType::Email(email) => {
            let mut c = owned("ticket.email = '");
            let e = escape_sql_string(email.as_str());
            push_str(&mut c, e.as_str());
            push_str(&mut c, "'");
            (c, false)
        },
        KeywordType::DeepText(text) => {
            let mut p = owned("%");
            let e = escape_sql_string(text.as_str());
            push_str(&mut p, e.as_str());
            push_str(&mut p, "%");
            let mut c = owned("(ticket.email ILIKE '");
            push_str(&mut c, p.as_str());
            push_str(&mut c, "' OR ticket.name ILIKE '");
            push_str(&mut c, p.as_str());
            push_str(&mut c, "' OR ticket.subject ILIKE '");
            push_str(&mut c, p.as_str());
            push_str(&mut c, "' OR tt.body ILIKE '");
            push_str(&mut c, p.as_str());
            push_str(&mut c, "')");
            (c, true)
        },
    }
}

fn one(c: String) -> (r: Vec<String>)
    ensures
        views(r@) == seq![c@],
{
    let mut v: Vec<String> = Vec::new();
    v.push(c);
    assert(views(v@) =~= seq![c@]);
    v
}

fn none() -> (r: Vec<String>)
    ensures
        views(r@) == Seq::<Seq<char>>::empty(),
{
    let v: Vec<String> = Vec::new();
    assert(views(v@) =~= Seq::<Seq<char>>::empty());
    v
}

fn append_views(out: &mut Vec<String>, g: Vec<String>)
    ensures
        views(final(out)@) == views(old(out)@) + views(g@),
{
    let mut g = g;
    let ghost a = out@;
    let ghost b = g@;
    out.append(&mut g);
    assert(views(a + b) =~= views(a) + views(b));
}

fn status_filter(status: &Option<String>) -> (r: Vec<String>)
    ensures
        views(r@) == status_filter_spec(opt_view(*status)),
{
    match status {
        Some(st) => if str_eq(st.as_str(), "open") {
            one(owned("ticket.status = 'open' AND ticket.isoverdue = false AND ticket.isanswered = false"))
        } else if str_eq(st.as_str(), "answered") {
            one(owned("ticket.status = 'open' AND ticket.isanswered = true"))
        } else if str_eq(st.as_str(), "overdue") {
            one(owned("ticket.status = 'open' AND ticket.isoverdue = true"))
        } else if str_eq(st.as_str(), "closed") {
            one(owned("ticket.status = 'closed'"))
        } else {
            none()
        },
        None => none(),
    }
}

fn date_filter(d: &Option<String>, head: &str, tail: &str) -> (r: Vec<String>)
    ensures
        views(r@) == match *d {
            Some(x) => opt_clause(x@.len() > 0, head@ + sql_escape(x@) + tail@),
            None => Seq::empty(),
        },
{
    match d {
        Some(x) => if chars_of(x.as_str()).len() > 0 {
            let mut c = owned(head);
            let e = escape_sql_string(x.as_str());
            push_str(&mut c, e.as_str());
            push_str(&mut c, tail);
            one(c)
        } else {
            none()
        },
        None => none(),
    }
}

/// Builds every WHERE predicate of a search (see [`search_filters_spec`]).
pub fn search_filters(visibility_clause: &str, dept_ids: &Vec<i32>, params: &QueueParams) -> (r: (Vec<String>, bool))
    ensures
        (views(r.0@), r.1) == search_filters_spec(visibility_clause@, dept_ids@, *params),
{
    let mut out = one(owned(visibility_clause));
    let status = params.search_status();
    append_views(&mut out, status_filter(&status));
    let dept = match params.dept_id {
        Some(d) => if vec_contains(dept_ids, d) {
            one(with_int("ticket.dept_id = ", d as i64))
        } else {
            none()
        },
        None => none(),
    };
    append_views(&mut out, dept);
    let assignee = match &params.assignee {
        Some(a) => {
            let closed = match &status {
                Some(st) => str_eq(st.as_str(), "closed"),
                None => false,
            };
            if !closed {
                match parse_assignee_clause(a.as_str()) {
                    Some(c) => one(c),
                    None => none(),
                }
            } else {
                none()
            }
        },
        None => none(),
    };
    append_views(&mut out, assignee);
    let closer = match params.staff_id {
        Some(sid) => if sid > 0 {
            one(with_int("ticket.closed_by_staff_id = ", sid as i64))
        } else {
            none()
        },
        None => none(),
    };
    append_views(&mut out, closer);
    let topic = match params.topic_id {
        Some(t) => one(with_int("ticket.topic_id = ", t as i64)),
        None => none(),
    };
    append_views(&mut out, topic);
    append_views(&mut out, date_filter(&params.start_date, "ticket.created >= '", "'::date"));
    append_views(
        &mut out,
        date_filter(&params.end_date, "ticket.created < ('", "' ::date + interval '1 day')"),
    );
    let mut join = false;
    if let Some(q) = &params.query {
        if !is_blank(q.as_str()) {
            let (c, j) = keyword_clause(q.as_str());
            append_views(&mut out, one(c));
            join = j;
        } else {
            append_views(&mut out, none());
        }
    } else {
        append_views(&mut out, none());
    }
    proof {
        let spec = search_filters_spec(visibility_clause@, dept_ids@, *params);
        assert(views(out@) =~= spec.0);
    }
    (out, join)
}

/// `clauses.join(sep)`.
pub fn join_strings(clauses: &Vec<String>, sep: &str) -> (r: String)
    ensures
        r@ == join(views(clauses@), sep@),
{
    let mut out = String::new();
    let mut i: usize = 0;
    while i < clauses.len()
        invariant
            i <= clauses.len(),
            out@ == join(views(clauses@.take(i as int)), sep@),
        decreases clauses.len() - i,
    {
        assert(views(clauses@.take(i + 1)).drop_last() =~= views(clauses@.take(i as int)));
        if i > 0 {
            push_str(&mut out, sep);
        } else {
            assert(out@ =~= Seq::<char>::empty());
        }
        push_str(&mut out, clauses[i].as_str());
        if i == 0 {
            assert(out@ =~= views(clauses@.take(1))[0]);
        }
        i = i + 1;
    }
    assert(clauses@.take(clauses.len() as int) =~= clauses@);
    out
}

// ---------------------------------------------------------------------------
// Names and errors.
// ---------------------------------------------------------------------------

/// `firstname lastname` (each trimmed, the whole trimmed), or the username
/// when that is blank.
pub open spec fn display_name_spec(first: Seq<char>, last: Seq<char>, user: Seq<char>) -> Seq<char> {
    let full = trim(trim(first) + seq![' '] + trim(last));
    if full.len() == 0 {
        user
    } else {
        full
    }
}

/// Composes a display name, falling back to the username.
pub fn display_name(firstname: &str, lastname: &str, username: &str) -> (r: String)
    ensures
        r@ == display_name_spec(firstname@, lastname@, username@),
{
    let mut full = trim_str(firstname);
    push_char(&mut full, ' ');
    let l = trim_str(lastname);
    push_str(&mut full, l.as_str());
    assert(full@ =~= trim(firstname@) + seq![' '] + trim(lastname@));
    let t = trim_str(full.as_str());
    let tv = chars_of(t.as_str());
    if tv.len() == 0 {
        owned(username)
    } else {
        t
    }
}

/// Why a ticket workflow action failed.
#[derive(Debug, Clone, Copy, PartialEq, Eq, Structural)]
pub enum WorkflowError {
    NotFound,
    AlreadyClosed,
    AlreadyOpen,
    AlreadyAssigned,
    AlreadyAssignedToSameStaff,
    AlreadyAssignedToSameTeam,
    OnlyOpenCanBeClaimed,
    CommentTooShort,
    AlreadyInDepartment,
    InvalidDepartment,
    TransferCommentTooShort,
    InvalidAssignee,
    Db,
}

/// The answer to a failed workflow action.
pub open spec fn workflow_error_spec(err: WorkflowError) -> (ErrorKind, Seq<char>) {
    match err {
        WorkflowError::NotFound => (ErrorKind::NotFound, "Ticket not found"@),
        WorkflowError::AlreadyClosed => (ErrorKind::Validation, "Ticket is already closed!"@),
        WorkflowError::AlreadyOpen => (ErrorKind::Validation, "Ticket is already open!"@),
        WorkflowError::AlreadyAssigned => (ErrorKind::Validation, "Ticket already assigned"@),
        WorkflowError::AlreadyAssignedToSameStaff => (ErrorKind::Validation, "Ticket already assigned to the staff."@),
        WorkflowError::AlreadyAssignedToSameTeam => (ErrorKind::Validation, "Ticket already assigned to the team."@),
        WorkflowError::OnlyOpenCanBeClaimed => (ErrorKind::Validation, "Only open tickets can be claimed"@),
        WorkflowError::CommentTooShort => (ErrorKind::Validation, "Comment too short"@),
        WorkflowError::AlreadyInDepartment => (ErrorKind::Validation, "Ticket already in the department"@),
        WorkflowError::InvalidDepartment => (ErrorKind::Validation, "Unknown or invalid department"@),
        WorkflowError::TransferCommentTooShort => (ErrorKind::Validation, "Transfer comments too short!"@),
        WorkflowError::InvalidAssignee => (ErrorKind::Validation, "Unknown or invalid assignee"@),
        WorkflowError::Db => (ErrorKind::Internal, "Database error"@),
    }
}

/// Maps a workflow failure to its error answer (a short comment also flags
/// the `comments` field).
pub fn map_workflow_error(err: WorkflowError) -> (r: ApiError)
    ensures
        r.kind == workflow_error_spec(err).0,
        r.message@ == workflow_error_spec(err).1,
        r.fields@ == (if err == WorkflowError::CommentTooShort {
            Map::<Seq<char>, Seq<char>>::empty().insert("comments"@, "min 5 chars"@)
        } else {
            Map::<Seq<char>, Seq<char>>::empty()
        }),
{
    match err {
        WorkflowError::NotFound => ApiError::not_found("Ticket not found"),
        WorkflowError::AlreadyClosed => ApiError::validation("Ticket is already closed!"),
        WorkflowError::AlreadyOpen => ApiError::validation("Ticket is already open!"),
        WorkflowError::AlreadyAssigned => ApiError::validation("Ticket already assigned"),
        WorkflowError::AlreadyAssignedToSameStaff => ApiError::validation("Ticket already assigned to the staff."),
        WorkflowError::AlreadyAssignedToSameTeam => ApiError::validation("Ticket already assigned to the team."),
        WorkflowError::OnlyOpenCanBeClaimed => ApiError::validation("Only open tickets can be claimed"),
        WorkflowError::CommentTooShort => ApiError::validation("Comment too short").with_field("comments", "min 5 chars"),
        WorkflowError::AlreadyInDepartment => ApiError::validation("Ticket already in the department"),
        WorkflowError::InvalidDepartment => ApiError::validation("Unknown or invalid department"),
        WorkflowError::TransferCommentTooShort => ApiError::validation("Transfer comments too short!"),
        WorkflowError::InvalidAssignee => ApiError::validation("Unknown or invalid assignee"),
        WorkflowError::Db => ApiError::internal("Database error"),
    }
}

/// Why a ticket edit failed.
#[derive(Debug, Clone, Copy, PartialEq, Eq, Structural)]
pub enum UpdateError {
    NotFound,
    ReasonRequired,
    DueDateInPast,
    DueDateOnClosed,
    InvalidDueDate,
    PhoneExtWithoutPhone,
    InvalidEmail,
    InvalidDepartment,
    Db,
}

/// The answer to a failed ticket edit.
pub open spec fn update_error_spec(err: UpdateError) -> (ErrorKind, Seq<char>) {
    match err {
        UpdateError::NotFound => (ErrorKind::NotFound, "Ticket not found"@),
        UpdateError::ReasonRequired => (ErrorKind::Validation, "Reason for the update required"@),
        UpdateError::DueDateInPast => (ErrorKind::Validation, "Due date must be in the future"@),
        UpdateError::DueDateOnClosed => (ErrorKind::Validation, "Due date can NOT be set on a closed ticket"@),
        UpdateError::InvalidDueDate => (ErrorKind::Validation, "Invalid due date"@),
        UpdateError::PhoneExtWithoutPhone => (ErrorKind::Validation, "Phone extension requires a phone number"@),
        UpdateError::InvalidEmail => (ErrorKind::Validation, "Invalid email format"@),
        UpdateError::InvalidDepartment => (ErrorKind::Validation, "Unknown or invalid department"@),
        UpdateError::Db => (ErrorKind::Internal, "Database error"@),
    }
}

/// Maps a failed ticket edit to its error answer.
pub fn map_update_error(err: UpdateError) -> (r: ApiError)
    ensures
        r.is(update_error_spec(err).0, update_error_spec(err).1),
{
    match err {
        UpdateError::NotFound => ApiError::not_found("Ticket not found"),
        UpdateError::ReasonRequired => ApiError::validation("Reason for the update required"),
        UpdateError::DueDateInPast => ApiError::validation("Due date must be in the future"),
        UpdateError::DueDateOnClosed => ApiError::validation("Due date can NOT be set on a closed ticket"),
        UpdateError::InvalidDueDate => ApiError::validation("Invalid due date"),
        UpdateError::PhoneExtWithoutPhone => ApiError::validation("Phone extension requires a phone number"),
        UpdateError::InvalidEmail => ApiError::validation("Invalid email format"),
        UpdateError::InvalidDepartment => ApiError::validation("Unknown or invalid department"),
        UpdateError::Db => ApiError::internal("Database error"),
    }
}

// ---------------------------------------------------------------------------
// Queue query pieces.
// ---------------------------------------------------------------------------

/// The WHERE clause of each queue over a visibility predicate (`vis`, the
/// closed-queue predicate for the closed queue). The assigned queue filters
/// by the bound staff id instead.
pub open spec fn queue_where_spec(queue: QueueStatus, vis: Seq<char>, show_assigned: bool, show_answered: bool) -> Seq<char> {
    match queue {
        QueueStatus::Open => "ticket.status = 'open' AND ticket.isoverdue = false AND "@ + vis + (if !show_assigned {
            " AND ticket.staff_id IS NULL"@
        } else {
            Seq::empty()
        }) + (if !show_answered {
            " AND ticket.isanswered = false"@
        } else {
            Seq::empty()
        }),
        QueueStatus::Answered => "ticket.status = 'open' AND ticket.isanswered = true AND "@ + vis,
        QueueStatus::Overdue => "ticket.status = 'open' AND ticket.isoverdue = true AND "@ + vis,
        QueueStatus::Closed => "ticket.status = 'closed' AND "@ + vis,
        QueueStatus::Assigned => "status = 'open' AND ticket.staff_id = $1"@,
    }
}

/// Builds the WHERE clause of a queue listing (and its count).
pub fn queue_where(queue: QueueStatus, visibility_clause: &str, show_assigned: bool, show_answered: bool) -> (r: String)
    ensures
        r@ == queue_where_spec(queue, visibility_clause@, show_assigned, show_answered),
        queue == QueueStatus::Overdue ==> r@ == "ticket.status = 'open' AND ticket.isoverdue = true AND "@
            + visibility_clause@,
{
    match queue {
        QueueStatus::Open => {
            let mut w = owned("ticket.status = 'open' AND ticket.isoverdue = false AND ");
            push_str(&mut w, visibility_clause);
            let ghost a = w@;
            if !show_assigned {
                push_str(&mut w, " AND ticket.staff_id IS NULL");
            }
            let ghost b = w@;
            if !show_answered {
                push_str(&mut w, " AND ticket.isanswered = false");
            }
            assert(w@ =~= queue_where_spec(queue, visibility_clause@, show_assigned, show_answered));
            w
        },
        QueueStatus::Answered => {
            let mut w = owned("ticket.status = 'open' AND ticket.isanswered = true AND ");
            push_str(&mut w, visibility_clause);
            w
        },
        QueueStatus::Overdue => {
            let mut w = owned("ticket.status = 'open' AND ticket.isoverdue = true AND ");
            push_str(&mut w, visibility_clause);
            w
        },
        QueueStatus::Closed => {
            let mut w = owned("ticket.status = 'closed' AND ");
            push_str(&mut w, visibility_clause);
            w
        },
        QueueStatus::Assigned => owned("status = 'open' AND ticket.staff_id = $1"),
    }
}

/// The overdue queue lists exactly the open tickets that are overdue and
/// visible, the open queue only open tickets that are not overdue: the
/// overdue clause is the conjunction of `ticket.status = 'open'`,
/// `ticket.isoverdue = true` and the visibility predicate, whatever the
/// queue switches, and the two queues never share a ticket.
pub proof fn law_overdue_queue_lists_overdue_tickets(vis: Seq<char>, show_assigned: bool, show_answered: bool)
    ensures
        queue_where_spec(QueueStatus::Overdue, vis, show_assigned, show_answered)
            == "ticket.status = 'open' AND ticket.isoverdue = true AND "@ + vis,
        contains_sub(queue_where_spec(QueueStatus::Overdue, vis, show_assigned, show_answered), "ticket.isoverdue = true"@),
        contains_sub(queue_where_spec(QueueStatus::Open, vis, show_assigned, show_answered), "ticket.isoverdue = false"@),
        contains_sub(queue_where_spec(QueueStatus::Overdue, vis, show_assigned, show_answered), "ticket.status = 'open'"@),
        contains_sub(queue_where_spec(QueueStatus::Open, vis, show_assigned, show_answered), "ticket.status = 'open'"@),
{
    let ov = "ticket.status = 'open' AND ticket.isoverdue = true AND "@;
    let op = "ticket.status = 'open' AND ticket.isoverdue = false AND "@;
    reveal_strlit("ticket.status = 'open' AND ticket.isoverdue = true AND ");
    reveal_strlit("ticket.status = 'open' AND ticket.isoverdue = false AND ");
    reveal_strlit("ticket.isoverdue = true");
    reveal_strlit("ticket.isoverdue = false");
    reveal_strlit("ticket.status = 'open'");
    assert(ov.subrange(27, 50) =~= "ticket.isoverdue = true"@);
    assert(op.subrange(27, 51) =~= "ticket.isoverdue = false"@);
    assert(ov.subrange(0, 22) =~= "ticket.status = 'open'"@);
    assert(op.subrange(0, 22) =~= "ticket.status = 'open'"@);
    let o = queue_where_spec(QueueStatus::Open, vis, show_assigned, show_answered);
    let a = if !show_assigned { " AND ticket.staff_id IS NULL"@ } else { Seq::<char>::empty() };
    let b = if !show_answered { " AND ticket.isanswered = false"@ } else { Seq::<char>::empty() };
    assert(o =~= op + (vis + a + b));
    lemma_sub_in_prefix(ov, vis, "ticket.isoverdue = true"@, 27);
    lemma_sub_in_prefix(ov, vis, "ticket.status = 'open'"@, 0);
    lemma_sub_in_prefix(op, vis + a + b, "ticket.isoverdue = false"@, 27);
    lemma_sub_in_prefix(op, vis + a + b, "ticket.status = 'open'"@, 0);
}

/// The extra select columns and joins that fill the rightmost column.
pub open spec fn rightmost_select_spec(rc: RightmostColumn) -> (Seq<char>, Seq<char>) {
    match rc {
        RightmostColumn::AssignedTo => (
            ", COALESCE(NULLIF(TRIM(CONCAT(assigned_staff.firstname, ' ', assigned_staff.lastname)), ''), assigned_staff.username, team.name, '') AS assigned_to_name"@,
            "LEFT JOIN staff AS assigned_staff ON assigned_staff.staff_id = ticket.staff_id LEFT JOIN team ON team.team_id = ticket.team_id"@,
        ),
        RightmostColumn::Department => (
            ", COALESCE(department.dept_name, '') AS department_name"@,
            "LEFT JOIN department ON department.dept_id = ticket.dept_id"@,
        ),
        RightmostColumn::ClosedBy => (
            ", COALESCE(NULLIF(TRIM(CONCAT(closing_staff.firstname, ' ', closing_staff.lastname)), ''), closing_staff.username, '') AS closed_by_name"@,
            "LEFT JOIN staff AS closing_staff ON closing_staff.staff_id = ticket.closed_by_staff_id"@,
        ),
    }
}

/// The extra select columns and joins of a rightmost column.
pub fn rightmost_select(rc: RightmostColumn) -> (r: (&'static str, &'static str))
    ensures
        (r.0@, r.1@) == rightmost_select_spec(rc),
{
    match rc {
        RightmostColumn::AssignedTo => (
            ", COALESCE(NULLIF(TRIM(CONCAT(assigned_staff.firstname, ' ', assigned_staff.lastname)), ''), assigned_staff.username, team.name, '') AS assigned_to_name",
            "LEFT JOIN staff AS assigned_staff ON assigned_staff.staff_id = ticket.staff_id LEFT JOIN team ON team.team_id = ticket.team_id",
        ),
        RightmostColumn::Department => (
            ", COALESCE(department.dept_name, '') AS department_name",
            "LEFT JOIN department ON department.dept_id = ticket.dept_id",
        ),
        RightmostColumn::ClosedBy => (
            ", COALESCE(NULLIF(TRIM(CONCAT(closing_staff.firstname, ' ', closing_staff.lastname)), ''), closing_staff.username, '') AS closed_by_name",
            "LEFT JOIN staff AS closing_staff ON closing_staff.staff_id = ticket.closed_by_staff_id",
        ),
    }
}

pub open spec fn join_if(b: bool, s: Seq<char>) -> Seq<char> {
    if b {
        s
    } else {
        Seq::empty()
    }
}

/// The joins of a queue listing: those its ORDER BY needs, then those of its
/// rightmost column (the assigned queue always joins the department, the
/// closed queue always the closing staff).
pub open spec fn queue_joins_spec(queue: QueueStatus, order_by: Seq<char>, rc: RightmostColumn) -> Seq<char> {
    let pri = join_if(contains_sub(order_by, "priority.urgency"@), "LEFT JOIN priority ON priority.priority_id = ticket.priority_id "@);
    let staff = join_if(contains_sub(order_by, "(staff.firstname"@), "LEFT JOIN staff ON staff.staff_id = ticket.staff_id "@);
    let dept_needed = contains_sub(order_by, "department.dept_name"@);
    let dept = "LEFT JOIN department ON department.dept_id = ticket.dept_id "@;
    let closing = "LEFT JOIN staff AS closing_staff ON closing_staff.staff_id = ticket.closed_by_staff_id "@;
    let closing_needed = contains_sub(order_by, "closing_staff.firstname"@);
    match queue {
        QueueStatus::Assigned => pri + staff + join_if(closing_needed, closing) + dept,
        QueueStatus::Closed => pri + staff + join_if(dept_needed, dept) + closing,
        _ => pri + staff + join_if(dept_needed && rc != RightmostColumn::Department, dept)
            + join_if(closing_needed, closing) + rightmost_select_spec(rc).1,
    }
}

/// Builds the joins of a queue listing.
pub fn queue_joins(queue: QueueStatus, order_by: &str, rc: RightmostColumn) -> (r: String)
    ensures
        r@ == queue_joins_spec(queue, order_by@, rc),
{
    let mut j = String::new();
    let pri = order_needs_priority_join(order_by);
    if pri {
        push_str(&mut j, "LEFT JOIN priority ON priority.priority_id = ticket.priority_id ");
    }
    let staff = order_needs_staff_join(order_by);
    if staff {
        push_str(&mut j, "LEFT JOIN staff ON staff.staff_id = ticket.staff_id ");
    }
    let dept_needed = order_needs_dept_join(order_by);
    let closing_needed = order_needs_closing_staff_join(order_by);
    let ghost head = join_if(pri, "LEFT JOIN priority ON priority.priority_id = ticket.priority_id "@)
        + join_if(staff, "LEFT JOIN staff ON staff.staff_id = ticket.staff_id "@);
    assert(j@ =~= head);
    match queue {
        QueueStatus::Assigned => {
            if closing_needed {
                push_str(&mut j, "LEFT JOIN staff AS closing_staff ON closing_staff.staff_id = ticket.closed_by_staff_id ");
            }
            push_str(&mut j, "LEFT JOIN department ON department.dept_id = ticket.dept_id ");
            assert(j@ =~= queue_joins_spec(queue, order_by@, rc));
        },
        QueueStatus::Closed => {
            if dept_needed {
                push_str(&mut j, "LEFT JOIN department ON department.dept_id = ticket.dept_id ");
            }
            push_str(&mut j, "LEFT JOIN staff AS closing_staff ON closing_staff.staff_id = ticket.closed_by_staff_id ");
            assert(j@ =~= queue_joins_spec(queue, order_by@, rc));
        },
        _ => {
            if dept_needed && rc != RightmostColumn::Department {
                push_str(&mut j, "LEFT JOIN department ON department.dept_id = ticket.dept_id ");
            }
            let ghost mid = j@;
            if closing_needed {
                push_str(&mut j, "LEFT JOIN staff AS closing_staff ON closing_staff.staff_id = ticket.closed_by_staff_id ");
            }
            let (_, extra) = rightmost_select(rc);
            push_str(&mut j, extra);
            assert(j@ =~= queue_joins_spec(queue, order_by@, rc));
        },
    }
    j
}

/// Where the extra column of a row lands, by rightmost column:
/// `(assigned_to_name, closed_by_name, department_name)`.
pub fn rightmost_fields(rc: RightmostColumn, extra: String) -> (r: (Option<String>, Option<String>, Option<String>))
    ensures
        rc == RightmostColumn::AssignedTo ==> r.0 == Some(extra) && r.1.is_none() && r.2.is_none(),
        rc == RightmostColumn::ClosedBy ==> r.0.is_none() && r.1 == Some(extra) && r.2.is_none(),
        rc == RightmostColumn::Department ==> r.0.is_none() && r.1.is_none() && r.2 == Some(extra),
{
    match rc {
        RightmostColumn::AssignedTo => (Some(extra), None, None),
        RightmostColumn::ClosedBy => (None, Some(extra), None),
        RightmostColumn::Department => (None, None, Some(extra)),
    }
}

/// The page size of a listing: the `limit` parameter (already clamped), else
/// a positive personal size clamped to `5..=100`, else the system
/// `default_page_size` when it parses as `u32` (clamped to `5..=100`), else 25.
pub open spec fn page_size_spec(limit_param: Option<u32>, staff_limit: Option<i32>, system: Option<Seq<char>>) -> u32 {
    match limit_param {
        Some(l) => l,
        None => if staff_limit.is_some() && staff_limit.unwrap() > 0 {
            clamp_u32(staff_limit.unwrap() as u32, 5, 100)
        } else {
            match system {
                Some(v) => match parse_u32(v) {
                    Some(n) => clamp_u32(n, 5, 100),
                    None => 25,
                },
                None => 25,
            }
        },
    }
}

pub open spec fn clamp_u32(v: u32, lo: u32, hi: u32) -> u32 {
    if v < lo {
        lo
    } else if v > hi {
        hi
    } else {
        v
    }
}

fn clamp_u32_exec(v: u32, lo: u32, hi: u32) -> (r: u32)
    ensures
        r == clamp_u32(v, lo, hi),
{
    if v < lo {
        lo
    } else if v > hi {
        hi
    } else {
        v
    }
}

/// A queue display switch stored in the config (`show_answered_tickets`,
/// `show_assigned_tickets`): on only when stored as `1` or `true`.
pub fn config_flag_on(value: &Option<String>) -> (r: bool)
    ensures
        r == (opt_view(*value) == Some("1"@) || opt_view(*value) == Some("true"@)),
{
    match value {
        Some(v) => str_eq(v.as_str(), "1") || str_eq(v.as_str(), "true"),
        None => false,
    }
}

/// Resolves the page size from the looked-up personal and system settings.
pub fn resolve_page_size(limit_param: Option<u32>, staff_limit: Option<i32>, system_limit: Option<String>) -> (r: u32)
    ensures
        r == page_size_spec(limit_param, staff_limit, opt_view(system_limit)),
{
    if let Some(limit) = limit_param {
        return limit;
    }
    if let Some(limit) = staff_limit {
        if limit > 0 {
            return clamp_u32_exec(limit as u32, 5, 100);
        }
    }
    if let Some(val) = &system_limit {
        if let Some(limit) = parse_u32_exec(val.as_str()) {
            return clamp_u32_exec(limit, 5, 100);
        }
    }
    25
}

// ---------------------------------------------------------------------------
// Laws.
// ---------------------------------------------------------------------------

/// Every sort key is named back by its stored `sort` value.
pub proof fn law_sort_key_round_trip(key: SortKey)
    ensures
        sort_key_of(key.key_name()) == Some(key),
{
    reveal_strlit("date");
    reveal_strlit("ID");
    reveal_strlit("pri");
    reveal_strlit("name");
    reveal_strlit("subj");
    reveal_strlit("status");
    reveal_strlit("assignee");
    reveal_strlit("staff");
    reveal_strlit("dept");
    match key {
        SortKey::Date => {},
        SortKey::Id => {
            assert("ID"@[0] != "date"@[0]);
        },
        SortKey::Priority => {
            assert("pri"@[0] != "date"@[0]);
            assert("pri"@[0] != "ID"@[0]);
        },
        SortKey::Name => {
            assert("name"@[0] != "date"@[0]);
            assert("name"@[0] != "ID"@[0]);
            assert("name"@[0] != "pri"@[0]);
        },
        SortKey::Subject => {
            assert("subj"@[0] != "date"@[0]);
            assert("subj"@[0] != "ID"@[0]);
            assert("subj"@[0] != "pri"@[0]);
            assert("subj"@[0] != "name"@[0]);
        },
        SortKey::Status => {
            assert("status"@[0] != "date"@[0]);
            assert("status"@[0] != "ID"@[0]);
            assert("status"@[0] != "pri"@[0]);
            assert("status"@[0] != "name"@[0]);
            assert("status"@[1] != "subj"@[1]);
        },
        SortKey::Assignee => {
            assert("assignee"@[0] != "date"@[0]);
            assert("assignee"@[0] != "ID"@[0]);
            assert("assignee"@[0] != "pri"@[0]);
            assert("assignee"@[0] != "name"@[0]);
            assert("assignee"@[0] != "subj"@[0]);
            assert("assignee"@[0] != "status"@[0]);
        },
        SortKey::Staff => {
            assert("staff"@[0] != "date"@[0]);
            assert("staff"@[0] != "ID"@[0]);
            assert("staff"@[0] != "pri"@[0]);
            assert("staff"@[0] != "name"@[0]);
            assert("staff"@[1] != "subj"@[1]);
            assert("staff"@[3] != "status"@[3]);
            assert("staff"@[0] != "assignee"@[0]);
        },
        SortKey::Department => {
            assert("dept"@[1] != "date"@[1]);
            assert("dept"@[0] != "ID"@[0]);
            assert("dept"@[0] != "pri"@[0]);
            assert("dept"@[0] != "name"@[0]);
            assert("dept"@[0] != "subj"@[0]);
            assert("dept"@[0] != "status"@[0]);
            assert("dept"@[0] != "assignee"@[0]);
            assert("dept"@[0] != "staff"@[0]);
        },
    }
}

/// Sticky sort: once an explicit sort is stored for a queue, a later request
/// for that queue without a `sort` parameter resolves to the same key (and to
/// the direction its stored name parses to), and is not stored again.
pub proof fn law_sticky_sort_round_trip(
    current: Option<SortPreferences>,
    queue: QueueStatus,
    key: SortKey,
    order: SortOrder,
    stored: SortPreferences,
    explicit_order: SortOrder,
)
    requires
        stored_prefs_spec(current, queue, key, order, stored),
    ensures
        effective_sort_spec(SortConfig { key: None, order: explicit_order }, queue, Some(stored), None)
            == (SortConfig { key: Some(key), order: sort_order_of(order.sql_spec()) }, false),
{
    law_sort_key_round_trip(key);
}

/// Storing a sort for one queue leaves every other queue's sticky sort as it was.
pub proof fn law_sticky_sort_isolated(
    current: SortPreferences,
    queue: QueueStatus,
    other: QueueStatus,
    key: SortKey,
    order: SortOrder,
    stored: SortPreferences,
    explicit_order: SortOrder,
)
    requires
        stored_prefs_spec(Some(current), queue, key, order, stored),
        other != queue,
    ensures
        effective_sort_spec(SortConfig { key: None, order: explicit_order }, other, Some(stored), None)
            == effective_sort_spec(SortConfig { key: None, order: explicit_order }, other, Some(current), None),
{
    assert(queue_sort_spec(stored, other) == queue_sort_spec(current, other));
}


// ---------------------------------------------------------------------------
// Ticket workflow requests and answers.
// ---------------------------------------------------------------------------

/// A staff reply (JSON form).
#[derive(Debug)]
pub struct ReplyRequest {
    pub body: String,
}

/// The canned response a multipart reply reuses: none when the `cannedId`
/// part is absent or blank, else its trimmed text as an `i32` (a refusal
/// when it is not one).
pub fn parse_canned_id(field: Option<&str>) -> (r: Result<Option<i32>, ApiError>)
    ensures
        match field {
            None => r == Ok::<Option<i32>, ApiError>(None),
            Some(f) => if trim(f@).len() == 0 {
                r == Ok::<Option<i32>, ApiError>(None)
            } else {
                match parse_i32(trim(f@)) {
                    Some(n) => r == Ok::<Option<i32>, ApiError>(Some(n)),
                    None => r matches Err(e) && e.is(ErrorKind::Validation, "cannedId must be an integer"@),
                }
            },
        },
{
    match field {
        None => Ok(None),
        Some(f) => {
            if is_blank(f) {
                return Ok(None);
            }
            let t = trim_str(f);
            match parse_i32_exec(t.as_str()) {
                Some(n) => Ok(Some(n)),
                None => Err(ApiError::validation("cannedId must be an integer")),
            }
        },
    }
}

/// The comments of a close or reopen.
#[derive(Debug, Default)]
pub struct CloseReopenRequest {
    pub comments: Option<String>,
}

/// The answer of a successful workflow action.
#[derive(Debug)]
pub struct WorkflowSuccess {
    pub success: bool,
    pub message: String,
}

fn numbered_message(prefix: &str, n: i64, suffix: &str) -> (r: String)
    ensures
        r@ == prefix@ + int_str(n as int) + suffix@,
{
    let mut s = owned(prefix);
    let t = int_string(n as i128);
    push_str(&mut s, t.as_str());
    push_str(&mut s, suffix);
    s
}

/// The answer to a close.
pub fn close_success(ticket_number: i64) -> (r: WorkflowSuccess)
    ensures
        r.success,
        r.message@ == "Ticket #"@ + int_str(ticket_number as int) + " status set to CLOSED"@,
{
    WorkflowSuccess { success: true, message: numbered_message("Ticket #", ticket_number, " status set to CLOSED") }
}

/// A reopen needs the close or the create permission.
pub fn reopen_gate(can_close: bool, can_create: bool) -> (r: Result<(), ApiError>)
    ensures
        r.is_ok() <==> (can_close || can_create),
        r matches Err(e) ==> e.is(ErrorKind::Forbidden, "Not allowed to reopen tickets"@),
{
    if !can_close && !can_create {
        Err(ApiError::forbidden("Not allowed to reopen tickets"))
    } else {
        Ok(())
    }
}

/// An assignment: `s<id>` for a staff member, `t<id>` for a team.
#[derive(Debug)]
pub struct AssignRequest {
    pub assignee: String,
    pub comments: String,
}

/// A transfer to another department.
#[derive(Debug)]
pub struct TransferRequest {
    pub dept_id: i32,
    pub comments: String,
}

/// The answer of a transfer; `access_lost` says whether the actor can no
/// longer see the ticket.
#[derive(Debug)]
pub struct TransferSuccess {
    pub success: bool,
    pub message: String,
    pub access_lost: bool,
}

/// The answer to a transfer.
pub fn transfer_success(dept_name: &str, access_lost: bool) -> (r: TransferSuccess)
    ensures
        r.success,
        r.message@ == "Ticket transferred successfully to "@ + dept_name@,
        r.access_lost == access_lost,
{
    let mut m = owned("Ticket transferred successfully to ");
    push_str(&mut m, dept_name);
    TransferSuccess { success: true, message: m, access_lost }
}

/// An internal note.
#[derive(Debug)]
pub struct NoteRequest {
    pub body: String,
    pub title: Option<String>,
    pub state: Option<String>,
}

/// The posted note.
#[derive(Debug)]
pub struct NoteResponse {
    pub id: i64,
    pub thread_type: String,
    pub body: String,
    pub title: Option<String>,
    pub staff_id: i32,
    pub poster_name: String,
    pub state_changed: bool,
}

/// A note's body: trimmed, and required (400 when blank).
pub fn note_body(body: &str) -> (r: Result<String, ApiError>)
    ensures
        match r {
            Ok(b) => trim(body@).len() > 0 && b@ == trim(body@),
            Err(e) => trim(body@).len() == 0 && e.is(ErrorKind::BadRequest, "Note required"@),
        },
{
    if is_blank(body) {
        Err(ApiError::bad_request("Note required"))
    } else {
        Ok(trim_str(body))
    }
}

/// A note's title: kept only when not blank.
pub fn note_title(title: &Option<String>) -> (r: Option<String>)
    ensures
        opt_view(r) == match *title {
            Some(t) => if trim(t@).len() > 0 {
                Some(t@)
            } else {
                None
            },
            None => None,
        },
{
    match title {
        Some(t) => if is_blank(t.as_str()) {
            None
        } else {
            Some(owned(t.as_str()))
        },
        None => None,
    }
}

/// A bulk ticket action.
#[derive(Debug, Clone, Copy, PartialEq, Eq, Structural)]
pub enum BulkAction {
    Close,
    Reopen,
    Delete,
}

/// The bulk action an action word names.
pub open spec fn bulk_action_of(s: Seq<char>) -> Option<BulkAction> {
    if s == "close"@ {
        Some(BulkAction::Close)
    } else if s == "reopen"@ {
        Some(BulkAction::Reopen)
    } else if s == "delete"@ {
        Some(BulkAction::Delete)
    } else {
        None
    }
}

/// A bulk action over tickets.
#[derive(Debug)]
pub struct BulkActionRequest {
    pub action: String,
    pub ticket_ids: Vec<i64>,
}

/// The tally of a bulk action.
#[derive(Debug)]
pub struct BulkActionResponse {
    pub succeeded: usize,
    pub failed: usize,
    pub message: String,
}

/// Whether the actor's permissions allow a bulk action: close needs the close
/// permission, reopen the close or the create one, delete the delete one.
pub open spec fn bulk_allowed(a: BulkAction, can_close: bool, can_create: bool, can_delete: bool) -> bool {
    match a {
        BulkAction::Close => can_close,
        BulkAction::Reopen => can_close || can_create,
        BulkAction::Delete => can_delete,
    }
}

/// Checks a bulk action: a known action (422 `Unknown action`), at least one
/// ticket (422 `No tickets selected`), and the actor's permission for it
/// (403).
pub fn plan_bulk_action(action: &str, ids: &Vec<i64>, can_close: bool, can_create: bool, can_delete: bool) -> (r: Result<
    BulkAction,
    ApiError,
>)
    ensures
        match bulk_action_of(action@) {
            None => r matches Err(e) && e.is(ErrorKind::Validation, "Unknown action"@),
            Some(a) => if ids@.len() == 0 {
                r matches Err(e) && e.is(ErrorKind::Validation, "No tickets selected"@)
            } else if !bulk_allowed(a, can_close, can_create, can_delete) {
                r matches Err(e) && e.is(ErrorKind::Forbidden, "Permission denied"@)
            } else {
                r == Ok::<BulkAction, ApiError>(a)
            },
        },
{
    let a = if str_eq(action, "close") {
        BulkAction::Close
    } else if str_eq(action, "reopen") {
        BulkAction::Reopen
    } else if str_eq(action, "delete") {
        BulkAction::Delete
    } else {
        return Err(ApiError::validation("Unknown action"));
    };
    if ids.len() == 0 {
        return Err(ApiError::validation("No tickets selected"));
    }
    let allowed = match a {
        BulkAction::Close => can_close,
        BulkAction::Reopen => can_close || can_create,
        BulkAction::Delete => can_delete,
    };
    if !allowed {
        return Err(ApiError::forbidden("Permission denied"));
    }
    Ok(a)
}

/// The answer to a ticket delete.
pub fn delete_success(ticket_number: i64) -> (r: WorkflowSuccess)
    ensures
        r.success,
        r.message@ == "Ticket #"@ + int_str(ticket_number as int) + " deleted successfully"@,
{
    WorkflowSuccess { success: true, message: numbered_message("Ticket #", ticket_number, " deleted successfully") }
}

/// The properties a ticket edit changes, and why.
#[derive(Debug)]
pub struct UpdateTicketRequest {
    pub name: Option<String>,
    pub email: Option<String>,
    pub phone: Option<String>,
    pub phone_ext: Option<String>,
    pub dept_id: Option<i32>,
    pub topic_id: Option<i32>,
    pub priority_id: Option<i32>,
    pub sla_id: Option<i32>,
    pub source: Option<String>,
    pub due_date: Option<String>,
    pub reason: String,
}

/// The ticket after an edit.
#[derive(Debug)]
pub struct UpdateTicketResponse {
    pub id: i64,
    pub priority_id: Option<i32>,
    pub sla_id: Option<i32>,
    pub isoverdue: bool,
}

/// An acquired or renewed ticket lock.
#[derive(Debug)]
pub struct LockResponse {
    pub lock_id: i32,
    pub remaining_seconds: i64,
}

/// Whether a lock was released.
#[derive(Debug)]
pub struct ReleaseResponse {
    pub released: bool,
}

/// The answer when another staff member holds a ticket's lock.
pub fn locked_by_other(name: &str) -> (r: ApiError)
    ensures
        r.is(ErrorKind::Conflict, "Ticket is currently locked by "@ + name@),
{
    let mut m = owned("Ticket is currently locked by ");
    push_str(&mut m, name);
    ApiError::conflict(m.as_str())
}

} // verus!
