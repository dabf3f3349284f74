//! Sessions and their protection: the realm cookies and how they are read and
//! written, the double-submit CSRF check on mutating requests, and the
//! outcomes of the session and permission gates.
use vstd::prelude::*;

use crate::error::{ApiError, ErrorKind};
use crate::text::{chars_of, int_str, int_string, is_ws, owned, push_str, str_eq, string_of, trim, trim_chars, trim_end, trim_start};

verus! {

/// The two session realms.
#[derive(Debug, Clone, Copy, PartialEq, Eq, Structural)]
pub enum Realm {
    Staff,
    Client,
}

/// The staff realm's session cookie (HttpOnly).
pub const STAFF_SESSION_COOKIE: &'static str = "ost_staff_sess";
/// The client realm's session cookie (HttpOnly).
pub const CLIENT_SESSION_COOKIE: &'static str = "ost_client_sess";
/// The staff realm's CSRF cookie (readable by the page).
pub const STAFF_CSRF_COOKIE: &'static str = "XSRF-TOKEN-STAFF";
/// The client realm's CSRF cookie (readable by the page).
pub const CLIENT_CSRF_COOKIE: &'static str = "XSRF-TOKEN-CLIENT";
/// The header a mutating request repeats its CSRF token in.
pub const CSRF_HEADER: &'static str = "x-csrftoken";

/// The session cookie of a realm.
pub fn session_cookie_name(realm: Realm) -> (r: &'static str)
    ensures
        r@ == (match realm {
            Realm::Staff => STAFF_SESSION_COOKIE@,
            Realm::Client => CLIENT_SESSION_COOKIE@,
        }),
{
    match realm {
        Realm::Staff => STAFF_SESSION_COOKIE,
        Realm::Client => CLIENT_SESSION_COOKIE,
    }
}

/// The CSRF cookie of a realm.
pub fn csrf_cookie_name(realm: Realm) -> (r: &'static str)
    ensures
        r@ == (match realm {
            Realm::Staff => STAFF_CSRF_COOKIE@,
            Realm::Client => CLIENT_CSRF_COOKIE@,
        }),
{
    match realm {
        Realm::Staff => STAFF_CSRF_COOKIE,
        Realm::Client => CLIENT_CSRF_COOKIE,
    }
}

/// The pieces of `s` between `;` separators.
pub open spec fn split_semis(s: Seq<char>) -> Seq<Seq<char>>
    decreases s.len(),
{
    if s.len() == 0 {
        seq![Seq::empty()]
    } else {
        let prev = split_semis(s.drop_last());
        if s.last() == ';' {
            prev.push(Seq::empty())
        } else {
            prev.update(prev.len() - 1, prev.last().push(s.last()))
        }
    }
}

proof fn lemma_split_semis_nonempty(s: Seq<char>)
    ensures
        split_semis(s).len() >= 1,
    decreases s.len(),
{
    if s.len() > 0 {
        lemma_split_semis_nonempty(s.drop_last());
    }
}

/// The index of the first `=` in `p`, if any.
pub open spec fn first_eq(p: Seq<char>) -> Option<int> {
    if exists|i: int| 0 <= i < p.len() && p[i] == '=' {
        Some(choose|i: int| 0 <= i < p.len() && p[i] == '=' && forall|j: int| 0 <= j < i ==> p[j] != '=')
    } else {
        None
    }
}

/// The value a cookie pair gives `name`: the pair (trimmed) split at its
/// first `=`, when the trimmed left side is `name`.
pub open spec fn pair_value(pair: Seq<char>, name: Seq<char>) -> Option<Seq<char>> {
    let p = trim(pair);
    match first_eq(p) {
        Some(i) => if trim(p.take(i)) == name {
            Some(trim(p.skip(i + 1)))
        } else {
            None
        },
        None => None,
    }
}

/// The value of the first pair of a cookie header that names `name`.
pub open spec fn cookie_lookup(pairs: Seq<Seq<char>>, name: Seq<char>) -> Option<Seq<char>>
    decreases pairs.len(),
{
    if pairs.len() == 0 {
        None
    } else {
        match pair_value(pairs[0], name) {
            Some(v) => Some(v),
            None => cookie_lookup(pairs.drop_first(), name),
        }
    }
}

fn pair_lookup(pair: &Vec<char>, name: &str) -> (r: Option<String>)
    ensures
        crate::listing::opt_str_view(r) == pair_value(pair@, name@),
{
    let p = trim_chars(pair);
    let mut i: usize = 0;
    while i < p.len() && p[i] != '='
        invariant
            i <= p.len(),
            p@ == trim(pair@),
            forall|j: int| 0 <= j < i ==> p@[j] != '=',
        decreases p.len() - i,
    {
        i = i + 1;
    }
    if i == p.len() {
        assert(!(exists|k: int| 0 <= k < p@.len() && p@[k] == '='));
        return None;
    }
    proof {
        assert(exists|k: int| 0 <= k < p@.len() && p@[k] == '=') by {
            assert(p@[i as int] == '=');
        }
        let c = choose|k: int| 0 <= k < p@.len() && p@[k] == '=' && forall|j: int| 0 <= j < k ==> p@[j] != '=';
        assert(c == i) by {
            assert(p@[i as int] == '=');
            if c < i {
                assert(p@[c] != '=');
            }
            if c > i {
                assert(p@[i as int] != '=');
            }
        }
    }
    let mut k: Vec<char> = Vec::new();
    let mut j: usize = 0;
    while j < i
        invariant
            j <= i,
            i < p.len(),
            k@ == p@.take(j as int),
        decreases i - j,
    {
        k.push(p[j]);
        j = j + 1;
    }
    let mut v: Vec<char> = Vec::new();
    let mut m: usize = i + 1;
    while m < p.len()
        invariant
            i + 1 <= m <= p.len(),
            v@ == p@.subrange(i + 1, m as int),
        decreases p.len() - m,
    {
        v.push(p[m]);
        m = m + 1;
    }
    assert(p@.subrange(i + 1, p@.len() as int) =~= p@.skip(i + 1));
    let kt = trim_chars(&k);
    let ks = string_of(&kt);
    if str_eq(ks.as_str(), name) {
        let vt = trim_chars(&v);
        Some(string_of(&vt))
    } else {
        None
    }
}

/// The value of a cookie in a `Cookie` header (`name=value; name2=value2`):
/// the first pair that names it, trimmed; `None` without a header or pair.
pub fn read_cookie(cookie_header: Option<&str>, name: &str) -> (r: Option<String>)
    ensures
        crate::listing::opt_str_view(r) == match cookie_header {
            Some(h) => cookie_lookup(split_semis(h@), name@),
            None => None,
        },
{
    match cookie_header {
        None => None,
        Some(h) => {
            let v = chars_of(h);
            let mut cur: Vec<char> = Vec::new();
            let mut i: usize = 0;
            let ghost mut done: Seq<Seq<char>> = Seq::empty();
            while i < v.len()
                invariant
                    i <= v.len(),
                    v@ == h@,
                    cookie_header == Some(h),
                    split_semis(v@.take(i as int)) == done.push(cur@),
                    forall|k: int| 0 <= k < done.len() ==> pair_value(#[trigger] done[k], name@).is_none(),
                decreases v.len() - i,
            {
                let c = v[i];
                assert(v@.take(i + 1).drop_last() =~= v@.take(i as int));
                if c == ';' {
                    let found = pair_lookup(&cur, name);
                    if found.is_some() {
                        proof {
                            lemma_cookie_lookup_prefix(done, cur@, split_semis(v@), name@, v@, i as int);
                            assert(cookie_lookup(split_semis(h@), name@) == pair_value(cur@, name@));
                        }
                        return found;
                    }
                    proof {
                        done = done.push(cur@);
                    }
                    cur = Vec::new();
                    assert(split_semis(v@.take(i + 1)) =~= done.push(cur@));
                } else {
                    cur.push(c);
                    assert(split_semis(v@.take(i + 1)) =~= done.push(cur@));
                }
                i = i + 1;
            }
            assert(v@.take(v.len() as int) =~= v@);
            let found = pair_lookup(&cur, name);
            proof {
                lemma_cookie_lookup_all(done, cur@, name@);
            }
            found
        },
    }
}

proof fn lemma_cookie_lookup_all(done: Seq<Seq<char>>, last: Seq<char>, name: Seq<char>)
    requires
        forall|k: int| 0 <= k < done.len() ==> pair_value(#[trigger] done[k], name).is_none(),
    ensures
        cookie_lookup(done.push(last), name) == pair_value(last, name),
    decreases done.len(),
{
    if done.len() == 0 {
        assert(done.push(last)[0] == last);
        assert(done.push(last).drop_first() =~= Seq::<Seq<char>>::empty());
        assert(cookie_lookup(Seq::<Seq<char>>::empty(), name).is_none());
    } else {
        assert(done.push(last)[0] == done[0]);
        assert(pair_value(done[0], name).is_none());
        assert(done.push(last).drop_first() =~= done.drop_first().push(last));
        assert forall|k: int| 0 <= k < done.drop_first().len() implies pair_value(
            #[trigger] done.drop_first()[k],
            name,
        ).is_none() by {
            assert(done.drop_first()[k] == done[k + 1]);
        }
        lemma_cookie_lookup_all(done.drop_first(), last, name);
    }
}

proof fn lemma_cookie_lookup_prefix(
    done: Seq<Seq<char>>,
    cur: Seq<char>,
    all: Seq<Seq<char>>,
    name: Seq<char>,
    v: Seq<char>,
    i: int,
)
    requires
        0 <= i < v.len(),
        v[i] == ';',
        all == split_semis(v),
        split_semis(v.take(i)) == done.push(cur),
        forall|k: int| 0 <= k < done.len() ==> pair_value(#[trigger] done[k], name).is_none(),
        pair_value(cur, name).is_some(),
    ensures
        cookie_lookup(all, name) == pair_value(cur, name),
{
    lemma_split_semis_prefix(v, i);
    lemma_cookie_lookup_first(done, cur, all.skip(done.len() as int + 1), name);
    assert(all =~= done.push(cur) + all.skip(done.len() as int + 1));
}

proof fn lemma_split_semis_prefix(v: Seq<char>, i: int)
    requires
        0 <= i < v.len(),
        v[i] == ';',
    ensures
        split_semis(v).len() >= split_semis(v.take(i)).len(),
        split_semis(v).take(split_semis(v.take(i)).len() as int) == split_semis(v.take(i)),
    decreases v.len() - i,
{
    if i == v.len() - 1 {
        assert(v.drop_last() =~= v.take(i));
        lemma_split_semis_nonempty(v.take(i));
        assert(split_semis(v) =~= split_semis(v.take(i)).push(Seq::empty()));
        assert(split_semis(v).take(split_semis(v.take(i)).len() as int) =~= split_semis(v.take(i)));
    } else {
        let w = v.drop_last();
        assert(w[i] == ';');
        lemma_split_semis_prefix(w, i);
        assert(w.take(i) =~= v.take(i));
        let a = split_semis(w);
        let n = split_semis(v.take(i)).len() as int;
        lemma_split_semis_nonempty(w.take(i + 1));
        lemma_split_semis_tail(w, i);
        if v.last() == ';' {
            assert(split_semis(v) == a.push(Seq::empty()));
            assert(split_semis(v).take(n) =~= a.take(n));
        } else {
            assert(split_semis(v) == a.update(a.len() - 1, a.last().push(v.last())));
            assert(split_semis(v).take(n) =~= a.take(n));
        }
    }
}

proof fn lemma_split_semis_tail(w: Seq<char>, i: int)
    requires
        0 <= i < w.len(),
        w[i] == ';',
    ensures
        split_semis(w).len() > split_semis(w.take(i)).len(),
    decreases w.len() - i,
{
    lemma_split_semis_nonempty(w.take(i));
    if i == w.len() - 1 {
        assert(w.drop_last() =~= w.take(i));
    } else {
        assert(w.drop_last()[i] == ';');
        lemma_split_semis_tail(w.drop_last(), i);
        assert(w.drop_last().take(i) =~= w.take(i));
    }
}

proof fn lemma_cookie_lookup_first(done: Seq<Seq<char>>, cur: Seq<char>, rest: Seq<Seq<char>>, name: Seq<char>)
    requires
        forall|k: int| 0 <= k < done.len() ==> pair_value(#[trigger] done[k], name).is_none(),
        pair_value(cur, name).is_some(),
    ensures
        cookie_lookup(done.push(cur) + rest, name) == pair_value(cur, name),
    decreases done.len(),
{
    if done.len() == 0 {
        assert((done.push(cur) + rest)[0] == cur);
    } else {
        assert((done.push(cur) + rest)[0] == done[0]);
        assert((done.push(cur) + rest).drop_first() =~= done.drop_first().push(cur) + rest);
        assert forall|k: int| 0 <= k < done.drop_first().len() implies pair_value(
            #[trigger] done.drop_first()[k],
            name,
        ).is_none() by {
            assert(done.drop_first()[k] == done[k + 1]);
        }
        lemma_cookie_lookup_first(done.drop_first(), cur, rest, name);
    }
}

/// The `Set-Cookie` value of a session cookie: `HttpOnly`, `SameSite=Lax`,
/// path `/`, the lifetime, and `Secure` only when asked (production).
pub open spec fn session_cookie_spec(name: Seq<char>, value: Seq<char>, ttl: int, secure: bool) -> Seq<char> {
    name + "="@ + value + "; Path=/; HttpOnly; SameSite=Lax; Max-Age="@ + int_str(ttl) + if secure {
        "; Secure"@
    } else {
        Seq::empty()
    }
}

/// The `Set-Cookie` value of a realm's session cookie.
pub fn build_session_cookie(realm: Realm, value: &str, ttl_secs: i64, secure: bool) -> (r: String)
    ensures
        r@ == session_cookie_spec(session_cookie_name_spec(realm), value@, ttl_secs as int, secure),
{
    let mut s = owned(session_cookie_name(realm));
    push_str(&mut s, "=");
    push_str(&mut s, value);
    push_str(&mut s, "; Path=/; HttpOnly; SameSite=Lax; Max-Age=");
    let t = int_string(ttl_secs as i128);
    push_str(&mut s, t.as_str());
    if secure {
        push_str(&mut s, "; Secure");
    } else {
        assert(s@ =~= s@ + Seq::<char>::empty());
    }
    s
}

pub open spec fn session_cookie_name_spec(realm: Realm) -> Seq<char> {
    match realm {
        Realm::Staff => STAFF_SESSION_COOKIE@,
        Realm::Client => CLIENT_SESSION_COOKIE@,
    }
}

pub open spec fn csrf_cookie_name_spec(realm: Realm) -> Seq<char> {
    match realm {
        Realm::Staff => STAFF_CSRF_COOKIE@,
        Realm::Client => CLIENT_CSRF_COOKIE@,
    }
}

/// The `Set-Cookie` value of a CSRF cookie: like the session cookie but not
/// `HttpOnly`, so the page can read it.
pub open spec fn csrf_cookie_spec(name: Seq<char>, value: Seq<char>, ttl: int, secure: bool) -> Seq<char> {
    name + "="@ + value + "; Path=/; SameSite=Lax; Max-Age="@ + int_str(ttl) + if secure {
        "; Secure"@
    } else {
        Seq::empty()
    }
}

/// The `Set-Cookie` value of a realm's CSRF cookie.
pub fn build_csrf_cookie(realm: Realm, value: &str, ttl_secs: i64, secure: bool) -> (r: String)
    ensures
        r@ == csrf_cookie_spec(csrf_cookie_name_spec(realm), value@, ttl_secs as int, secure),
{
    let mut s = owned(csrf_cookie_name(realm));
    push_str(&mut s, "=");
    push_str(&mut s, value);
    push_str(&mut s, "; Path=/; SameSite=Lax; Max-Age=");
    let t = int_string(ttl_secs as i128);
    push_str(&mut s, t.as_str());
    if secure {
        push_str(&mut s, "; Secure");
    } else {
        assert(s@ =~= s@ + Seq::<char>::empty());
    }
    s
}

/// The `Set-Cookie` value that clears a cookie: empty value, `Max-Age=0`.
pub fn clear_cookie(name: &str) -> (r: String)
    ensures
        r@ == name@ + "=; Path=/; Max-Age=0"@,
{
    let mut s = owned(name);
    push_str(&mut s, "=; Path=/; Max-Age=0");
    s
}

/// Whether a request method changes state (and so needs a CSRF token).
pub open spec fn mutating(method: Seq<char>) -> bool {
    method == "POST"@ || method == "PUT"@ || method == "PATCH"@ || method == "DELETE"@
}

/// Whether a request method changes state.
pub fn is_mutating(method: &str) -> (r: bool)
    ensures
        r == mutating(method@),
{
    str_eq(method, "POST") || str_eq(method, "PUT") || str_eq(method, "PATCH") || str_eq(method, "DELETE")
}

/// The double-submit check: the CSRF cookie and the CSRF header are both
/// present, not empty, and the same.
pub open spec fn double_submit_ok(cookie: Option<Seq<char>>, header: Option<Seq<char>>) -> bool {
    match (cookie, header) {
        (Some(c), Some(h)) => c.len() > 0 && c == h,
        _ => false,
    }
}

/// The double-submit check.
pub fn verify_double_submit(cookie: Option<&str>, header: Option<&str>) -> (r: bool)
    ensures
        r == double_submit_ok(
            match cookie {
                Some(c) => Some(c@),
                None => None,
            },
            match header {
                Some(h) => Some(h@),
                None => None,
            },
        ),
{
    match (cookie, header) {
        (Some(c), Some(h)) => chars_of(c).len() > 0 && str_eq(c, h),
        _ => false,
    }
}

/// The CSRF check of a request: a non-mutating method passes; a mutating one
/// needs the realm's CSRF cookie (read from the `Cookie` header) repeated in
/// the CSRF header, else 403.
pub fn enforce_csrf(method: &str, cookie_header: Option<&str>, csrf_header: Option<&str>, realm: Realm) -> (r: Result<
    (),
    ApiError,
>)
    ensures
        ({
            let cookie = match cookie_header {
                Some(h) => cookie_lookup(split_semis(h@), csrf_cookie_name_spec(realm)),
                None => None,
            };
            let header = match csrf_header {
                Some(h) => Some(h@),
                None => None,
            };
            &&& r.is_ok() <==> (!mutating(method@) || double_submit_ok(cookie, header))
            &&& r matches Err(e) ==> e.is(ErrorKind::Forbidden, "CSRF token missing or invalid"@)
        }),
{
    if !is_mutating(method) {
        return Ok(());
    }
    let cookie = read_cookie(cookie_header, csrf_cookie_name(realm));
    let ok = match &cookie {
        Some(c) => verify_double_submit(Some(c.as_str()), csrf_header),
        None => verify_double_submit(None, csrf_header),
    };
    if ok {
        Ok(())
    } else {
        Err(ApiError::forbidden("CSRF token missing or invalid"))
    }
}

/// A request that changes state passes the double-submit check only with a
/// present, non-empty cookie token that the header repeats exactly; so every
/// other mutating request is refused (see [`enforce_csrf`]).
pub proof fn law_mutation_needs_matching_token(method: Seq<char>, cookie: Option<Seq<char>>, header: Option<Seq<char>>)
    requires
        mutating(method),
        !(cookie.is_some() && cookie.unwrap().len() > 0 && header == cookie),
    ensures
        !double_submit_ok(cookie, header),
{
}

/// A cookie value a browser can send back unchanged: not empty, no `;`, and
/// no whitespace at either end.
pub open spec fn token_shape(t: Seq<char>) -> bool {
    &&& t.len() > 0
    &&& !is_ws(t[0])
    &&& !is_ws(t.last())
    &&& forall|i: int| 0 <= i < t.len() ==> t[i] != ';'
}

proof fn lemma_trim_fixed(s: Seq<char>)
    requires
        s.len() > 0,
        !is_ws(s[0]),
        !is_ws(s.last()),
    ensures
        trim(s) == s,
{
    assert(trim_start(s) == s);
    assert(trim_end(s) == s);
}

proof fn lemma_split_semis_single(s: Seq<char>)
    requires
        forall|i: int| 0 <= i < s.len() ==> s[i] != ';',
    ensures
        split_semis(s) == seq![s],
    decreases s.len(),
{
    if s.len() == 0 {
        assert(s =~= Seq::<char>::empty());
    } else {
        let w = s.drop_last();
        assert forall|i: int| 0 <= i < w.len() implies w[i] != ';' by {
            assert(w[i] == s[i]);
        }
        lemma_split_semis_single(w);
        assert(s.last() != ';') by {
            assert(s[s.len() - 1] != ';');
        }
        assert(w.push(s.last()) =~= s);
        assert(seq![w].update(0, s) =~= seq![s]);
    }
}

/// A `Cookie` header made of the single pair `name=value` gives `value` for
/// `name`, when the name has no `=`, `;` or whitespace at its ends and the
/// value has the token shape.
proof fn lemma_single_pair(name: Seq<char>, value: Seq<char>)
    requires
        name.len() > 0,
        !is_ws(name[0]),
        !is_ws(name.last()),
        forall|i: int| 0 <= i < name.len() ==> name[i] != '=' && name[i] != ';',
        token_shape(value),
    ensures
        cookie_lookup(split_semis(name + "="@ + value), name) == Some(value),
{
    reveal_strlit("=");
    let p = name + "="@ + value;
    let n = name.len() as int;
    assert forall|i: int| 0 <= i < p.len() implies p[i] != ';' by {
        if i < n {
            assert(p[i] == name[i]);
        } else if i > n {
            assert(p[i] == value[i - n - 1]);
        }
    }
    lemma_split_semis_single(p);
    assert(p[0] == name[0]);
    assert(p.last() == value.last());
    lemma_trim_fixed(p);
    assert(p[n] == '=');
    assert(exists|k: int| 0 <= k < p.len() && p[k] == '=');
    let c = choose|k: int| 0 <= k < p.len() && p[k] == '=' && forall|j: int| 0 <= j < k ==> p[j] != '=';
    assert(forall|j: int| 0 <= j < n ==> p[j] != '=') by {
        assert forall|j: int| 0 <= j < n implies p[j] != '=' by {
            assert(p[j] == name[j]);
        }
    }
    assert(exists|k: int| 0 <= k < p.len() && p[k] == '=' && forall|j: int| 0 <= j < k ==> p[j] != '=');
    assert(c == n) by {
        if c < n {
            assert(p[c] == name[c]);
        }
        if c > n {
            assert(p[n] != '=');
        }
    }
    assert(first_eq(p) == Some(n));
    assert(p.take(n) =~= name);
    lemma_trim_fixed(name);
    assert(p.skip(n + 1) =~= value);
    lemma_trim_fixed(value);
    assert(pair_value(p, name) == Some(value));
    assert(seq![p][0] == p);
}

/// What a realm's cookies carry is what it reads back: a browser that
/// returns the session or CSRF cookie it was given (`name=value`) has that
/// value read back, and one that also repeats the CSRF value in the CSRF
/// header passes the double-submit check, whatever the method.
pub proof fn law_cookie_round_trip(realm: Realm, token: Seq<char>)
    requires
        token_shape(token),
    ensures
        cookie_lookup(split_semis(session_cookie_name_spec(realm) + "="@ + token), session_cookie_name_spec(realm))
            == Some(token),
        cookie_lookup(split_semis(csrf_cookie_name_spec(realm) + "="@ + token), csrf_cookie_name_spec(realm))
            == Some(token),
        double_submit_ok(Some(token), Some(token)),
{
    reveal_strlit("ost_staff_sess");
    reveal_strlit("ost_client_sess");
    reveal_strlit("XSRF-TOKEN-STAFF");
    reveal_strlit("XSRF-TOKEN-CLIENT");
    lemma_single_pair(session_cookie_name_spec(realm), token);
    lemma_single_pair(csrf_cookie_name_spec(realm), token);
}

/// A client session as the client routes see it.
#[derive(Debug, Clone)]
pub struct ClientSession {
    pub session_id: String,
    pub ticket_number: i64,
    pub email: String,
}

/// A client session with CSRF enforced on mutating methods.
#[derive(Debug, Clone)]
pub struct ClientCsrf(pub ClientSession);

/// The session cookie a request must carry: refused with 401 when the
/// session store is unavailable or the cookie is absent.
pub fn session_cookie_gate(store_available: bool, cookie: Option<String>) -> (r: Result<String, ApiError>)
    ensures
        match r {
            Ok(s) => store_available && cookie == Some(s),
            Err(e) => (!store_available || cookie.is_none()) && e.is(
                ErrorKind::Unauthenticated,
                "Authentication required"@,
            ),
        },
{
    if !store_available {
        return Err(ApiError::unauthenticated("Authentication required"));
    }
    match cookie {
        Some(s) => Ok(s),
        None => Err(ApiError::unauthenticated("Authentication required")),
    }
}

/// A loaded session must exist and belong to the realm of the route
/// (`loaded` is the realm of the stored session, `None` when none is).
pub fn session_realm_gate(expected: Realm, loaded: Option<Realm>) -> (r: Result<(), ApiError>)
    ensures
        r.is_ok() <==> loaded == Some(expected),
        r matches Err(e) ==> e.is(ErrorKind::Unauthenticated, "Session expired or invalid"@),
{
    match loaded {
        Some(l) => if l == expected {
            Ok(())
        } else {
            Err(ApiError::unauthenticated("Session expired or invalid"))
        },
        None => Err(ApiError::unauthenticated("Session expired or invalid")),
    }
}

/// The administrator gate: `is_admin` is the account's admin flag, `None`
/// when the account can no longer be resolved (401); a non-admin is 403.
pub fn admin_gate(is_admin: Option<bool>) -> (r: Result<(), ApiError>)
    ensures
        r.is_ok() <==> is_admin == Some(true),
        r matches Err(e) ==> if is_admin.is_none() {
            e.is(ErrorKind::Unauthenticated, "Session expired or invalid"@)
        } else {
            e.is(ErrorKind::Forbidden, "Administrator access is required"@)
        },
{
    match is_admin {
        None => Err(ApiError::unauthenticated("Session expired or invalid")),
        Some(true) => Ok(()),
        Some(false) => Err(ApiError::forbidden("Administrator access is required")),
    }
}

/// The named-permission gate: `granted` says whether the account's group
/// grants the permission, `None` when the account can no longer be resolved
/// (401); a refusal is 403.
pub fn permission_gate(granted: Option<bool>) -> (r: Result<(), ApiError>)
    ensures
        r.is_ok() <==> granted == Some(true),
        r matches Err(e) ==> if granted.is_none() {
            e.is(ErrorKind::Unauthenticated, "Session expired or invalid"@)
        } else {
            e.is(ErrorKind::Forbidden, "You do not have permission to perform this action"@)
        },
{
    match granted {
        None => Err(ApiError::unauthenticated("Session expired or invalid")),
        Some(true) => Ok(()),
        Some(false) => Err(ApiError::forbidden("You do not have permission to perform this action")),
    }
}

} // verus!
