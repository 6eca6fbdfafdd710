//! Extra response headers: validated names and values, one value per name.

use vstd::prelude::*;

verus! {

/// The normalized form that `http::HeaderName` gives a header name, or
/// `None` when the name is not a valid header name.
pub uninterp spec fn header_name_of(s: Seq<char>) -> Option<Seq<char>>;

/// A header value is accepted when every character is a tab, or is at least
/// a space and is not DEL (characters beyond ASCII are encoded as bytes of
/// 128 and above, which are accepted).
pub open spec fn valid_header_value(s: Seq<char>) -> bool {
    forall|i: int|
        0 <= i < s.len() ==> (#[trigger] s[i] == '\t' || (s[i] >= ' ' && s[i] != '\x7f'))
}

/// Relies on `http::HeaderName::try_from(&str)`: parses and normalizes a
/// header name; an empty name is rejected.
#[verifier::external_body]
fn parse_header_name(key: &str) -> (r: Option<String>)
    ensures
        match r {
            Some(n) => header_name_of(key@) == Some(n@),
            None => header_name_of(key@) is None,
        },
        key@.len() == 0 ==> r is None,
{
    axum::http::HeaderName::try_from(key).ok().map(|n| n.as_str().to_string())
}

/// Relies on `http::HeaderValue::try_from(&str)`: accepts exactly the
/// strings whose bytes are all a tab or in 32..=255 without 127.
#[verifier::external_body]
fn header_value_accepted(value: &str) -> (r: bool)
    ensures
        r == valid_header_value(value@),
{
    axum::http::HeaderValue::try_from(value).is_ok()
}

/// The header list after setting `name` to `value`: an entry with that name
/// is replaced in place, otherwise the pair is appended.
pub open spec fn upsert(
    s: Seq<(Seq<char>, Seq<char>)>,
    name: Seq<char>,
    value: Seq<char>,
) -> Seq<(Seq<char>, Seq<char>)> {
    if exists|i: int| 0 <= i < s.len() && (#[trigger] s[i]).0 == name {
        let i = choose|i: int| 0 <= i < s.len() && (#[trigger] s[i]).0 == name;
        s.update(i, (name, value))
    } else {
        s.push((name, value))
    }
}

/// No two entries share a name.
pub open spec fn names_unique(s: Seq<(Seq<char>, Seq<char>)>) -> bool {
    forall|i: int, j: int| 0 <= i < j < s.len() ==> (#[trigger] s[i]).0 != (#[trigger] s[j]).0
}

/// The headers after `insert(key, value)`: unchanged when the name or the
/// value is rejected, else set under the normalized name.
pub open spec fn inserted(
    s: Seq<(Seq<char>, Seq<char>)>,
    key: Seq<char>,
    value: Seq<char>,
) -> Seq<(Seq<char>, Seq<char>)> {
    match header_name_of(key) {
        Some(n) => if valid_header_value(value) {
            upsert(s, n, value)
        } else {
            s
        },
        None => s,
    }
}

/// Extra headers of a response, in insertion order, one entry per name.
#[derive(Debug, Clone)]
pub struct Headers {
    entries: Vec<(String, String)>,
}

impl View for Headers {
    type V = Seq<(Seq<char>, Seq<char>)>;

    closed spec fn view(&self) -> Seq<(Seq<char>, Seq<char>)> {
        self.entries@.map_values(|e: (String, String)| (e.0@, e.1@))
    }
}

impl Headers {
    /// Names are unique.
    pub open spec fn wf(&self) -> bool {
        names_unique(self@)
    }

    /// No headers.
    pub fn new() -> (r: Headers)
        ensures
            r@ == Seq::<(Seq<char>, Seq<char>)>::empty(),
            r.wf(),
    {
        Headers { entries: Vec::new() }
    }

    /// The entries, in insertion order.
    pub fn entries(&self) -> (r: &Vec<(String, String)>)
        ensures
            r@.map_values(|e: (String, String)| (e.0@, e.1@)) == self@,
    {
        &self.entries
    }

    /// Sets `name` (already normalized) to `value`.
    fn set(&mut self, name: String, value: String)
        requires
            old(self).wf(),
        ensures
            final(self)@ == upsert(old(self)@, name@, value@),
            final(self).wf(),
    {
        let ghost s = self@;
        let mut i: usize = 0;
        let mut found = false;
        while i < self.entries.len()
            invariant_except_break
                !found,
            invariant
                self@ == s,
                names_unique(s),
                i <= self.entries@.len(),
                self.entries@.len() == s.len(),
                forall|k: int| 0 <= k < i ==> (#[trigger] s[k]).0 != name@,
            ensures
                found ==> i < s.len() && s[i as int].0 == name@,
                !found ==> i == s.len(),
                forall|k: int| 0 <= k < i ==> (#[trigger] s[k]).0 != name@,
                self@ == s,
            decreases self.entries@.len() - i,
        {
            if self.entries[i].0 == name {
                found = true;
                break;
            }
            i = i + 1;
        }
        let ghost n = name@;
        let ghost v = value@;
        if found {
            proof {
                assert(0 <= i < s.len() && s[i as int].0 == n);
                let j = choose|j: int| 0 <= j < s.len() && (#[trigger] s[j]).0 == n;
                assert(j == i as int);
                assert(upsert(s, n, v) == s.update(i as int, (n, v)));
            }
            self.entries.set(i, (name, value));
            assert(self@ =~= s.update(i as int, (n, v)));
            assert(names_unique(self@)) by {
                assert forall|a: int, b: int| 0 <= a < b < self@.len() implies (#[trigger] self@[a]).0
                    != (#[trigger] self@[b]).0 by {
                    if a != i as int && b != i as int {
                        assert(s[a].0 != s[b].0);
                    }
                }
            }
        } else {
            assert(!exists|k: int| 0 <= k < s.len() && (#[trigger] s[k]).0 == n);
            assert(upsert(s, n, v) == s.push((n, v)));
            self.entries.push((name, value));
            assert(self@ =~= s.push((n, v)));
            assert(names_unique(self@)) by {
                assert forall|a: int, b: int| 0 <= a < b < self@.len() implies (#[trigger] self@[a]).0
                    != (#[trigger] self@[b]).0 by {
                    if b < s.len() {
                        assert(s[a].0 != s[b].0);
                    } else {
                        assert(s[a].0 != n);
                    }
                }
            }
        }
    }

    /// Adds a header: the name is normalized by the `http` crate; a name or
    /// value that it rejects leaves the headers unchanged. Returns whether the
    /// header was set.
    pub fn insert(&mut self, key: &str, value: &str) -> (r: bool)
        requires
            old(self).wf(),
        ensures
            final(self)@ == inserted(old(self)@, key@, value@),
            r == (header_name_of(key@) is Some && valid_header_value(value@)),
            final(self).wf(),
    {
        match parse_header_name(key) {
            Some(name) => {
                if header_value_accepted(value) {
                    self.set(name, value.to_string());
                    true
                } else {
                    false
                }
            },
            None => false,
        }
    }
}

} // verus!
