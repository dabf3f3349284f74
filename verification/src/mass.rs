//! What every admin list's mass action shares: the action word is trimmed and
//! lower-cased and must be one the list knows, at least one row must be
//! selected, the selection is acted on once per id in ascending order, and a
//! delete that could only remove some rows says how many.
use vstd::prelude::*;

use crate::error::{ApiError, ErrorKind};
use crate::text::{int_str, int_string, owned, push_str, str_eq, to_lowercase, trim, trim_str, unicode_lower};

verus! {

/// Whether the ids rise strictly (so no id appears twice).
pub open spec fn strictly_increasing(s: Seq<i32>) -> bool {
    forall|i: int, j: int| 0 <= i < j < s.len() ==> s[i] < s[j]
}

/// The selection once sorted and with repeats dropped.
pub fn sorted_unique_ids(ids: &Vec<i32>) -> (r: Vec<i32>)
    ensures
        strictly_increasing(r@),
        forall|x: i32| r@.contains(x) <==> ids@.contains(x),
{
    let mut out: Vec<i32> = Vec::new();
    let mut i: usize = 0;
    while i < ids.len()
        invariant
            i <= ids.len(),
            strictly_increasing(out@),
            forall|x: i32| out@.contains(x) <==> ids@.take(i as int).contains(x),
        decreases ids.len() - i,
    {
        let x = ids[i];
        let mut p: usize = 0;
        while p < out.len() && out[p] < x
            invariant
                p <= out.len(),
                forall|k: int| 0 <= k < p ==> out@[k] < x,
            decreases out.len() - p,
        {
            p = p + 1;
        }
        let ghost before = out@;
        if p < out.len() && out[p] == x {
        } else {
            out.insert(p, x);
            proof {
                assert forall|a: int, b: int| 0 <= a < b < out@.len() implies out@[a] < out@[b] by {
                    if b < p {
                    } else if b == p {
                        assert(before[a] < x);
                    } else if a < p {
                        assert(out@[b] == before[b - 1]);
                        assert(before[a] < x);
                        assert(p < before.len());
                        assert(x < before[p as int] || x == before[p as int]);
                        if a + 1 <= p {
                        }
                        assert(before[p as int] <= before[b - 1]);
                    } else if a == p {
                        assert(out@[b] == before[b - 1]);
                        assert(x <= before[p as int]);
                        assert(before[p as int] <= before[b - 1]);
                        assert(x != before[p as int]);
                    } else {
                        assert(out@[a] == before[a - 1]);
                        assert(out@[b] == before[b - 1]);
                    }
                }
            }
        }
        proof {
            let ghost nxt = ids@.take(i + 1);
            assert(nxt =~= ids@.take(i as int).push(x));
            assert forall|y: i32| out@.contains(y) <==> nxt.contains(y) by {
                if out@.contains(y) {
                    let k = choose|k: int| 0 <= k < out@.len() && out@[k] == y;
                    if y != x {
                        if out@ != before {
                            if k < p {
                                assert(before[k] == y);
                            } else {
                                assert(before[k - 1] == y);
                            }
                        }
                        assert(before.contains(y));
                        assert(ids@.take(i as int).contains(y));
                        let m = choose|m: int| 0 <= m < i && ids@.take(i as int)[m] == y;
                        assert(nxt[m] == y);
                    } else {
                        assert(nxt[i as int] == x);
                    }
                }
                if nxt.contains(y) {
                    let m = choose|m: int| 0 <= m < nxt.len() && nxt[m] == y;
                    if m < i {
                        assert(ids@.take(i as int)[m] == y);
                        assert(before.contains(y));
                        let k = choose|k: int| 0 <= k < before.len() && before[k] == y;
                        if out@ != before {
                            if k < p {
                                assert(out@[k] == y);
                            } else {
                                assert(out@[k + 1] == y);
                            }
                        }
                    } else {
                        if out@ == before {
                            assert(out@[p as int] == x);
                        } else {
                            assert(out@[p as int] == x);
                        }
                    }
                }
            }
        }
        i = i + 1;
    }
    proof {
        assert(ids@.take(ids.len() as int) =~= ids@);
    }
    out
}

/// Every mass request is checked the same way: the trimmed, lower-cased action
/// must be one of the three the list knows, and the selection must not be
/// empty.
pub open spec fn mass_request_ok(action: Seq<char>, a1: Seq<char>, a2: Seq<char>, a3: Seq<char>, ids: Seq<i32>) -> bool {
    let a = unicode_lower(trim(action));
    (a == a1 || a == a2 || a == a3) && ids.len() > 0
}

/// Checks a mass request: the normalised action and the selection, sorted
/// with repeats dropped, or the refusal (`Unknown mass action` for another
/// action, then `none_selected` for an empty selection).
pub fn parse_mass_request(action: &str, a1: &str, a2: &str, a3: &str, ids: &Vec<i32>, none_selected: &str) -> (r: Result<
    (String, Vec<i32>),
    ApiError,
>)
    ensures
        match r {
            Ok((a, v)) => mass_request_ok(action@, a1@, a2@, a3@, ids@) && a@ == unicode_lower(trim(action@))
                && strictly_increasing(v@) && forall|x: i32| v@.contains(x) <==> ids@.contains(x),
            Err(e) => !mass_request_ok(action@, a1@, a2@, a3@, ids@) && if ({
                let a = unicode_lower(trim(action@));
                a == a1@ || a == a2@ || a == a3@
            }) {
                e.is(ErrorKind::Validation, none_selected@)
            } else {
                e.is(ErrorKind::Validation, "Unknown mass action"@)
            },
        },
{
    let t = trim_str(action);
    let a = to_lowercase(t.as_str());
    if !(str_eq(a.as_str(), a1) || str_eq(a.as_str(), a2) || str_eq(a.as_str(), a3)) {
        return Err(ApiError::validation("Unknown mass action"));
    }
    if ids.len() == 0 {
        return Err(ApiError::validation(none_selected));
    }
    let v = sorted_unique_ids(ids);
    Ok((a, v))
}

/// The message of a mass action that acted on `n` of the `requested` rows:
/// `all` when it acted on every one, `none` when on none, else
/// "`n` of `requested` `rest`".
pub open spec fn partial_message(n: int, requested: int, all: Seq<char>, none: Seq<char>, rest: Seq<char>) -> Seq<char> {
    if n == requested {
        all
    } else if n == 0 {
        none
    } else {
        int_str(n) + " of "@ + int_str(requested) + " "@ + rest
    }
}

/// The message of a mass action that acted on `n` of the `requested` rows.
pub fn outcome_message(n: i64, requested: i64, all: &str, none: &str, rest: &str) -> (r: String)
    ensures
        r@ == partial_message(n as int, requested as int, all@, none@, rest@),
{
    if n == requested {
        owned(all)
    } else if n == 0 {
        owned(none)
    } else {
        let mut s = int_string(n as i128);
        push_str(&mut s, " of ");
        let t = int_string(requested as i128);
        push_str(&mut s, t.as_str());
        push_str(&mut s, " ");
        push_str(&mut s, rest);
        s
    }
}

} // verus!
