use subtle::ConstantTimeEq;
use vstd::prelude::*;

verus! {
/// `subtle::ConstantTimeEq::ct_eq` on byte slices: true exactly when the two
/// slices have the same length and the same bytes.
#[verifier::external_body]
pub(crate) fn constant_time_eq(a: &[u8], b: &[u8]) -> (r: bool)
    ensures
        r == (a@ == b@),
{
    a.ct_eq(b).into()
}

/// A byte allowed in an HTTP header value: visible, a space or a tab.
pub open spec fn is_header_value_byte(b: u8) -> bool {
    (b >= 32 && b != 127) || b == 9
}

/// Every byte is allowed in a header value.
pub open spec fn header_value_ok(bytes: Seq<u8>) -> bool {
    forall|i: int| 0 <= i < bytes.len() ==> is_header_value_byte(#[trigger] bytes[i])
}

/// `HeaderValue::from_bytes` (from `http`, as re-exported by `reqwest`)
/// succeeds exactly when every byte is allowed in a header value, as its
/// source checks.
#[verifier::external_body]
pub(crate) fn header_value_accepts(bytes: &[u8]) -> (r: bool)
    ensures
        r == header_value_ok(bytes@),
{
    reqwest::header::HeaderValue::from_bytes(bytes).is_ok()
}

/// A byte of a header name as `http` keeps it: a token character, with
/// ASCII letters lowercased; 0 for a byte that cannot occur in a name.
pub open spec fn header_name_byte(b: u8) -> u8 {
    if 65 <= b <= 90 {
        (b + 32) as u8
    } else if (97 <= b <= 122) || (48 <= b <= 57) || b == 33 || (35 <= b <= 39) || b == 42 || b == 43
        || b == 45 || b == 46 || (94 <= b <= 96) || b == 124 || b == 126 {
        b
    } else {
        0
    }
}

/// The name `http::HeaderName::from_bytes` makes of `bytes`: between 1 and
/// 65535 token characters, lowercased; `None` otherwise.
pub open spec fn spec_header_name(bytes: Seq<u8>) -> Option<Seq<char>> {
    if 1 <= bytes.len() <= 65535 && forall|i: int| 0 <= i < bytes.len() ==> header_name_byte(#[trigger] bytes[i]) != 0 {
        Some(bytes.map_values(|b: u8| header_name_byte(b) as char))
    } else {
        None
    }
}

/// `http::HeaderName::from_bytes` (as re-exported by `axum`), the accepted
/// name as text: its source maps each byte through a table of token
/// characters that lowercases letters, and refuses an empty name, a name
/// longer than 65535 bytes or any byte outside the table.
#[verifier::external_body]
pub(crate) fn header_name(bytes: &[u8]) -> (r: Option<String>)
    ensures
        match r {
            Some(n) => spec_header_name(bytes@) == Some(n@),
            None => spec_header_name(bytes@) is None,
        },
{
    match axum::http::HeaderName::from_bytes(bytes) {
        Ok(name) => Some(name.as_str().to_owned()),
        Err(_) => None,
    }
}


/// Request headers as plain values: each entry is a lowercase header name and
/// the header's value as text, or `None` when the value is not visible ASCII
/// text (as `HeaderValue::to_str` reports). Entries keep their order.
#[derive(Clone, Debug)]
pub struct Headers {
    pub entries: Vec<(String, Option<String>)>,
}

pub open spec fn ascii_lower(c: char) -> char {
    if 'A' <= c && c <= 'Z' {
        ((c as u32) + 32) as char
    } else {
        c
    }
}

/// `str::to_ascii_lowercase`.
pub open spec fn ascii_lowercase(s: Seq<char>) -> Seq<char> {
    Seq::new(s.len(), |i: int| ascii_lower(s[i]))
}

/// The value of the first entry named `name` (already lowercase).
pub open spec fn lookup_from(entries: Seq<(String, Option<String>)>, name: Seq<char>, from: int) -> Option<Seq<char>>
    decreases entries.len() - from,
{
    if from < 0 || from >= entries.len() {
        None
    } else if entries[from].0@ == name {
        match entries[from].1 {
            Some(v) => Some(v@),
            None => None,
        }
    } else {
        lookup_from(entries, name, from + 1)
    }
}

impl Headers {
    /// The text of the first header called `name` (compared case-insensitively),
    /// as `HeaderMap::get` followed by `HeaderValue::to_str` gives it.
    pub open spec fn spec_get(&self, name: Seq<char>) -> Option<Seq<char>> {
        lookup_from(self.entries@, ascii_lowercase(name), 0)
    }

    pub fn new() -> (r: Headers)
        ensures
            r.entries@.len() == 0,
    {
        Headers { entries: Vec::new() }
    }

    /// Appends a header; `name` must already be lowercase.
    pub fn push(&mut self, name: String, value: Option<String>)
        ensures
            final(self).entries@ == old(self).entries@.push((name, value)),
    {
        self.entries.push((name, value));
    }

    pub fn get(&self, name: &str) -> (r: Option<String>)
        ensures
            match r {
                Some(v) => self.spec_get(name@) == Some(v@),
                None => self.spec_get(name@) is None,
            },
    {
        let lower = to_ascii_lowercase(name);
        let ghost key = ascii_lowercase(name@);
        let mut i: usize = 0;
        while i < self.entries.len()
            invariant
                i <= self.entries@.len(),
                lower@ == key,
                key == ascii_lowercase(name@),
                lookup_from(self.entries@, key, 0) == lookup_from(self.entries@, key, i as int),
            decreases self.entries@.len() - i,
        {
            let entry_name = crate::text::to_chars(self.entries[i].0.as_str());
            if crate::text::chars_equal(&entry_name, &lower) {
                let entry = &self.entries[i];
                proof {
                    assert(*entry == self.entries@[i as int]);
                    assert(entry.0@ == key);
                }
                match &entry.1 {
                    Some(v) => {
                        let r = v.clone();
                        proof {
                            assert(lookup_from(self.entries@, key, i as int) == Some(v@));
                            assert(r@ == v@);
                        }
                        return Some(r);
                    },
                    None => {
                        return None;
                    },
                }
            }
            i = i + 1;
        }
        None
    }
}

fn to_ascii_lowercase(s: &str) -> (r: Vec<char>)
    ensures
        r@ == ascii_lowercase(s@),
{
    let v = crate::text::to_chars(s);
    let mut r: Vec<char> = Vec::new();
    let mut i: usize = 0;
    while i < v.len()
        invariant
            i <= v@.len(),
            v@ == s@,
            r@ =~= ascii_lowercase(v@.take(i as int)),
        decreases v@.len() - i,
    {
        let c = v[i];
        let l = if 'A' <= c && c <= 'Z' {
            ((c as u32) + 32) as u8 as char
        } else {
            c
        };
        proof {
            if 'A' <= c && c <= 'Z' {
                assert(((c as u32) + 32) as u8 as char == ((c as u32) + 32) as char);
            }
        }
        r.push(l);
        i = i + 1;
    }
    proof {
        assert(v@.take(v@.len() as int) == v@);
    }
    r
}

/// The credentials of an `Authorization: Bearer <token>` header.
pub open spec fn spec_bearer(h: Headers) -> Option<Seq<char>> {
    match h.spec_get("authorization"@) {
        Some(v) => if crate::text::has_prefix(v, "Bearer "@) {
            Some(v.skip(7))
        } else {
            None
        },
        None => None,
    }
}

/// The token of the `Authorization: Bearer <token>` header, if present.
pub fn bearer_token(headers: &Headers) -> (r: Option<Vec<char>>)
    ensures
        match r {
            Some(t) => spec_bearer(*headers) == Some(t@),
            None => spec_bearer(*headers) is None,
        },
{
    let value = match headers.get("authorization") {
        Some(v) => v,
        None => return None,
    };
    let chars = crate::text::to_chars(value.as_str());
    let prefix = crate::text::to_chars("Bearer ");
    proof {
        reveal_strlit("Bearer ");
    }
    if crate::text::chars_start_with(&chars, &prefix) {
        Some(crate::text::slice_chars(&chars, 7, chars.len()))
    } else {
        None
    }
}

} // verus!
