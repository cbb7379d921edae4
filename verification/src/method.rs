//! HTTP verbs and case-insensitive recognition of method names.

use vstd::prelude::*;

verus! {

/// The verbs an outbound call may use.
#[derive(Clone, Copy, PartialEq, Eq, Structural, Debug)]
pub enum Method {
    Get,
    Post,
    Put,
    Delete,
    Patch,
    Head,
    Options,
}

/// ASCII upper-casing of a single character; everything outside `a..z` is kept.
pub open spec fn ascii_upper_char(c: char) -> char {
    if 97 <= c as u32 && c as u32 <= 122 {
        (((c as u32) - 32) as u8) as char
    } else {
        c
    }
}

/// ASCII upper-casing of a whole character sequence.
pub open spec fn upper_seq(s: Seq<char>) -> Seq<char> {
    s.map_values(|c: char| ascii_upper_char(c))
}

/// The verb a method name selects, matched without regard to ASCII case;
/// `None` for every unrecognized name.
pub open spec fn method_verb(s: Seq<char>) -> Option<Method> {
    if upper_seq(s) == "GET"@ {
        Some(Method::Get)
    } else if upper_seq(s) == "POST"@ {
        Some(Method::Post)
    } else if upper_seq(s) == "PUT"@ {
        Some(Method::Put)
    } else if upper_seq(s) == "DELETE"@ {
        Some(Method::Delete)
    } else if upper_seq(s) == "PATCH"@ {
        Some(Method::Patch)
    } else if upper_seq(s) == "HEAD"@ {
        Some(Method::Head)
    } else if upper_seq(s) == "OPTIONS"@ {
        Some(Method::Options)
    } else {
        None
    }
}

fn ascii_upper(c: char) -> (r: char)
    ensures
        r == ascii_upper_char(c),
{
    let x = c as u32;
    if 97 <= x && x <= 122 {
        ((x - 32) as u8) as char
    } else {
        c
    }
}

/// Whether `s` equals `pattern` after ASCII upper-casing of `s` alone.
fn matches_upper(s: &str, pattern: &str) -> (r: bool)
    ensures
        r == (upper_seq(s@) == pattern@),
{
    let n = s.unicode_len();
    if n != pattern.unicode_len() {
        proof {
            assert(upper_seq(s@).len() == s@.len());
        }
        return false;
    }
    let mut i: usize = 0;
    while i < n
        invariant
            n == s@.len() == pattern@.len(),
            i <= n,
            forall|j: int| 0 <= j < i ==> ascii_upper_char(s@[j]) == pattern@[j],
        decreases n - i,
    {
        let c = ascii_upper(s.get_char(i));
        if c != pattern.get_char(i) {
            proof {
                assert(upper_seq(s@)[i as int] != pattern@[i as int]);
            }
            return false;
        }
        i += 1;
    }
    proof {
        assert(upper_seq(s@) =~= pattern@);
    }
    true
}

/// Recognizes a method name, matching it case-insensitively against the
/// supported verbs.
pub fn parse_method(method: &str) -> (r: Option<Method>)
    ensures
        r == method_verb(method@),
{
    if matches_upper(method, "GET") {
        Some(Method::Get)
    } else if matches_upper(method, "POST") {
        Some(Method::Post)
    } else if matches_upper(method, "PUT") {
        Some(Method::Put)
    } else if matches_upper(method, "DELETE") {
        Some(Method::Delete)
    } else if matches_upper(method, "PATCH") {
        Some(Method::Patch)
    } else if matches_upper(method, "HEAD") {
        Some(Method::Head)
    } else if matches_upper(method, "OPTIONS") {
        Some(Method::Options)
    } else {
        None
    }
}

/// The canonical (upper-case) name of a verb.
pub open spec fn method_token(m: Method) -> Seq<char> {
    match m {
        Method::Get => "GET"@,
        Method::Post => "POST"@,
        Method::Put => "PUT"@,
        Method::Delete => "DELETE"@,
        Method::Patch => "PATCH"@,
        Method::Head => "HEAD"@,
        Method::Options => "OPTIONS"@,
    }
}

/// The canonical name of a verb, for outbound use and for log lines.
pub fn method_name(m: Method) -> (r: &'static str)
    ensures
        r@ == method_token(m),
{
    match m {
        Method::Get => "GET",
        Method::Post => "POST",
        Method::Put => "PUT",
        Method::Delete => "DELETE",
        Method::Patch => "PATCH",
        Method::Head => "HEAD",
        Method::Options => "OPTIONS",
    }
}

/// Matching is insensitive to ASCII case: upper-casing a method name first
/// selects the same verb (or the same rejection) as handing it over as is.
pub proof fn lemma_method_match_case_insensitive(s: Seq<char>)
    ensures
        method_verb(upper_seq(s)) == method_verb(s),
{
    assert forall|c: char| ascii_upper_char(ascii_upper_char(c)) == ascii_upper_char(c) by {}
    assert(upper_seq(upper_seq(s)) =~= upper_seq(s));
}

} // verus!
