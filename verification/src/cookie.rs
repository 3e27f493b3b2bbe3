//! The session cookie protocol: the `session` entry of a `Cookie` request
//! header, and the `Set-Cookie` values that install and clear it.
//!
//! A `Cookie` header is a `;`-separated list of `name=value` entries, each
//! entry possibly preceded by spaces. The first entry named `session` wins;
//! its value runs to the next `;` or to the end of the header.

use vstd::prelude::*;

verus! {

/// `h` without its leading spaces.
pub open spec fn spec_trim_spaces(h: Seq<char>) -> Seq<char>
    decreases h.len(),
{
    if h.len() > 0 && h[0] == ' ' {
        spec_trim_spaces(h.drop_first())
    } else {
        h
    }
}

/// The prefix of `h` up to (not including) the first `;`.
pub open spec fn spec_upto_semi(h: Seq<char>) -> Seq<char>
    decreases h.len(),
{
    if h.len() == 0 {
        Seq::empty()
    } else if h[0] == ';' {
        Seq::empty()
    } else {
        seq![h[0]] + spec_upto_semi(h.drop_first())
    }
}

/// The value of the first `session=` entry of the header, if any.
pub open spec fn spec_extract_session(h: Seq<char>) -> Option<Seq<char>>
    decreases h.len(),
    via spec_extract_session_decreases
{
    let t = spec_trim_spaces(h);
    let e = spec_upto_semi(t);
    if e.len() >= 8 && e.subrange(0, 8) == "session="@ {
        Some(e.skip(8))
    } else if t.len() > e.len() {
        spec_extract_session(t.skip(e.len() as int + 1))
    } else {
        None
    }
}

proof fn lemma_trim_spaces_len(h: Seq<char>)
    ensures
        spec_trim_spaces(h).len() <= h.len(),
    decreases h.len(),
{
    if h.len() > 0 && h[0] == ' ' {
        lemma_trim_spaces_len(h.drop_first());
    }
}

proof fn lemma_upto_semi_len(h: Seq<char>)
    ensures
        spec_upto_semi(h).len() <= h.len(),
    decreases h.len(),
{
    if h.len() > 0 && h[0] != ';' {
        lemma_upto_semi_len(h.drop_first());
    }
}

#[via_fn]
proof fn spec_extract_session_decreases(h: Seq<char>) {
    lemma_trim_spaces_len(h);
    lemma_upto_semi_len(spec_trim_spaces(h));
}

/// Whether `header` carries the eight characters of `session=` at `i`.
fn has_session_prefix(header: &str, i: usize) -> (r: bool)
    requires
        i + 8 <= header@.len(),
        header@.len() <= usize::MAX,
    ensures
        r == (header@.subrange(i as int, i as int + 8) == "session="@),
{
    let key = "session=";
    proof {
        reveal_strlit("session=");
    }
    let mut k: usize = 0;
    while k < 8
        invariant
            k <= 8,
            i + 8 <= header@.len(),
            header@.len() <= usize::MAX,
            key@ == "session="@,
            key@.len() == 8,
            forall|m: int| 0 <= m < k ==> header@[i + m] == key@[m],
        decreases 8 - k,
    {
        if header.get_char(i + k) != key.get_char(k) {
            proof {
                assert(header@.subrange(i as int, i as int + 8)[k as int] != key@[k as int]);
            }
            return false;
        }
        k = k + 1;
    }
    proof {
        assert(header@.subrange(i as int, i as int + 8) =~= key@);
    }
    true
}

/// Pulls the session token out of a `Cookie` request header. Absence is not
/// an error: a header without a `session` entry simply means an anonymous
/// request.
pub fn extract_session_token(header: &str) -> (r: Option<String>)
    ensures
        match r {
            Some(s) => spec_extract_session(header@) == Some(s@),
            None => spec_extract_session(header@) is None,
        },
    decreases header@.len(),
{
    let ghost h = header@;
    let n = header.unicode_len();
    let mut i: usize = 0;
    proof {
        assert(h.skip(0) =~= h);
    }
    while i < n && header.get_char(i) == ' '
        invariant
            i <= n,
            n == h.len(),
            h == header@,
            spec_trim_spaces(h) == spec_trim_spaces(h.skip(i as int)),
        decreases n - i,
    {
        proof {
            assert(h.skip(i as int).drop_first() =~= h.skip(i as int + 1));
        }
        i = i + 1;
    }
    let ghost t = h.skip(i as int);
    proof {
        assert(spec_trim_spaces(h) == t);
    }
    let mut j: usize = i;
    proof {
        assert(h.subrange(i as int, i as int) + spec_upto_semi(h.skip(i as int)) =~= spec_upto_semi(
            h.skip(i as int),
        ));
    }
    while j < n && header.get_char(j) != ';'
        invariant
            i <= j <= n,
            n == h.len(),
            h == header@,
            spec_upto_semi(h.skip(i as int)) == h.subrange(i as int, j as int) + spec_upto_semi(
                h.skip(j as int),
            ),
        decreases n - j,
    {
        proof {
            assert(h.skip(j as int)[0] == h[j as int]);
            assert(h.skip(j as int).drop_first() =~= h.skip(j as int + 1));
            assert(h.subrange(i as int, j as int) + (seq![h[j as int]] + spec_upto_semi(
                h.skip(j as int + 1),
            )) =~= h.subrange(i as int, j as int + 1) + spec_upto_semi(h.skip(j as int + 1)));
        }
        j = j + 1;
    }
    let ghost e = h.subrange(i as int, j as int);
    proof {
        if j < n {
            assert(h.skip(j as int)[0] == h[j as int]);
        }
        assert(spec_upto_semi(h.skip(i as int)) =~= e);
    }
    if j - i >= 8 && has_session_prefix(header, i) {
        proof {
            assert(e.subrange(0, 8) =~= h.subrange(i as int, i as int + 8));
            assert(e.skip(8) =~= h.subrange(i as int + 8, j as int));
        }
        let value = header.substring_char(i + 8, j).to_owned();
        return Some(value);
    }
    proof {
        if j - i >= 8 {
            assert(e.subrange(0, 8) =~= h.subrange(i as int, i as int + 8));
        }
    }
    if j < n {
        let rest = header.substring_char(j + 1, n);
        proof {
            assert(t.skip(e.len() as int + 1) =~= rest@);
        }
        return extract_session_token(rest);
    }
    None
}

/// The `Set-Cookie` value that installs a session token: scoped to the whole
/// site, invisible to scripts, strict same-site, one day of life.
pub fn session_cookie_value(token: &str) -> (r: String)
    ensures
        r@ == "session="@ + token@ + "; Path=/; HttpOnly; SameSite=Strict; Max-Age=86400"@,
{
    let mut s = String::from_str("session=");
    s.append(token);
    s.append("; Path=/; HttpOnly; SameSite=Strict; Max-Age=86400");
    s
}

/// The `Set-Cookie` value that clears the session cookie: an empty value
/// that expired long ago.
pub fn clear_cookie_value() -> (r: String)
    ensures
        r@ == "session=; Path=/; HttpOnly; SameSite=Strict; Expires=Thu, 01 Jan 1970 00:00:00 GMT"@,
{
    String::from_str("session=; Path=/; HttpOnly; SameSite=Strict; Expires=Thu, 01 Jan 1970 00:00:00 GMT")
}

} // verus!
