use vstd::prelude::*;

use crate::config::ModelConfig;
use crate::error::ServiceError;

verus! {

/// A character that may stand in a header name: a letter, a digit, or one
/// of ``!#$%&'*+-.^_`|~``.
pub open spec fn token_char(c: char) -> bool {
    let u = c as u32;
    (48 <= u <= 57) || (65 <= u <= 90) || (97 <= u <= 122) || u == 33 || (35 <= u <= 39) || u
        == 42 || u == 43 || u == 45 || u == 46 || u == 94 || u == 95 || u == 96 || u == 124 || u
        == 126
}

/// A header name may be sent: 1 to 65535 characters, each a token character.
pub open spec fn header_name_ok(s: Seq<char>) -> bool {
    1 <= s.len() <= 65535 && forall|i: int| 0 <= i < s.len() ==> token_char(#[trigger] s[i])
}

/// `t` is `s` with its upper-case ASCII letters made lower-case.
pub open spec fn lowered(s: Seq<char>, t: Seq<char>) -> bool {
    t.len() == s.len() && forall|i: int|
        0 <= i < s.len() ==> (#[trigger] t[i]) as int == if 65 <= (s[i] as u32) <= 90 {
            (s[i] as int) + 32
        } else {
            s[i] as int
        }
}

/// Relies on reqwest::header::HeaderName::from_bytes: it accepts a name of 1
/// to 65535 bytes, each a token character, and it reads back lower-cased.
#[verifier::external_body]
fn canonical_header_name(s: &str) -> (r: Option<String>)
    ensures
        r is Some <==> header_name_ok(s@),
        r matches Some(n) ==> lowered(s@, n@),
{
    reqwest::header::HeaderName::from_bytes(s.as_bytes()).ok().map(|n| n.as_str().to_string())
}

/// A character whose UTF-8 bytes may stand in a header value: a tab, or
/// any character from the space on but DEL.
pub open spec fn value_char_ok(c: char) -> bool {
    c == '\t' || (c as u32 >= 32 && c as u32 != 127)
}

/// Every character of a header value may be sent.
pub open spec fn header_value_ok(s: Seq<char>) -> bool {
    forall|i: int| 0 <= i < s.len() ==> value_char_ok(#[trigger] s[i])
}

/// Relies on reqwest::header::HeaderValue::from_str: it refuses a value
/// exactly when one of its bytes is below 32 and not a tab, or is 127.
#[verifier::external_body]
fn header_value_valid(s: &str) -> (r: bool)
    ensures
        r == header_value_ok(s@),
{
    reqwest::header::HeaderValue::from_str(s).is_ok()
}

/// Header pairs as text.
pub open spec fn header_view(v: Seq<(String, String)>) -> Seq<(Seq<char>, Seq<char>)> {
    v.map_values(|p: (String, String)| (p.0@, p.1@))
}

/// The lower-cased form of a header name.
pub open spec fn lower_name(s: Seq<char>) -> Seq<char> {
    choose|t: Seq<char>| lowered(s, t)
}

/// The configured static headers with canonical names, in order; or the
/// name of the first one that cannot be sent.
pub open spec fn static_headers(cfg: Seq<(String, String)>) -> Result<
    Seq<(Seq<char>, Seq<char>)>,
    Seq<char>,
>
    decreases cfg.len(),
{
    if cfg.len() == 0 {
        Ok(Seq::empty())
    } else {
        match static_headers(cfg.drop_last()) {
            Err(k) => Err(k),
            Ok(h) => if header_name_ok(cfg.last().0@) && header_value_ok(cfg.last().1@) {
                Ok(h.push((lower_name(cfg.last().0@), cfg.last().1@)))
            } else {
                Err(cfg.last().0@)
            },
        }
    }
}

/// Some header of the list has the given name.
pub open spec fn has_header(h: Seq<(Seq<char>, Seq<char>)>, name: Seq<char>) -> bool {
    exists|i: int| 0 <= i < h.len() && h[i].0 == name
}

/// The bearer credential sent for a remote model with a key.
pub open spec fn bearer(key: Seq<char>) -> Seq<char> {
    "Bearer "@ + key
}

/// The headers of an inference request, in the order they are inserted into
/// the outgoing header map (a later one with the same name replaces an
/// earlier one): the static headers, then the bearer credential where the
/// model is remote and has a key, then a JSON content type unless one is
/// already set. An error carries the name of the header that cannot be sent.
pub open spec fn request_headers(cfg: Seq<(String, String)>, model: ModelConfig) -> Result<
    Seq<(Seq<char>, Seq<char>)>,
    Seq<char>,
> {
    match static_headers(cfg) {
        Err(k) => Err(k),
        Ok(h) => {
            let with_auth = if model.url is Some && model.api_key is Some {
                let v = bearer(model.api_key->0@);
                if header_value_ok(v) {
                    Ok(h.push(("authorization"@, v)))
                } else {
                    Err("authorization"@)
                }
            } else {
                Ok(h)
            };
            match with_auth {
                Err(k) => Err(k),
                Ok(h2) => if has_header(h2, "content-type"@) {
                    Ok(h2)
                } else {
                    Ok(h2.push(("content-type"@, "application/json"@)))
                },
            }
        },
    }
}

fn header_named(h: &Vec<(String, String)>, name: &String) -> (r: bool)
    ensures
        r == has_header(header_view(h@), name@),
{
    let mut i: usize = 0;
    while i < h.len()
        invariant
            i <= h@.len(),
            forall|j: int| 0 <= j < i ==> h@[j].0@ != name@,
        decreases h@.len() - i,
    {
        if h[i].0 == *name {
            assert(header_view(h@)[i as int].0 == name@);
            return true;
        }
        i = i + 1;
    }
    false
}

/// Assembles the headers of an inference request for `model`.
pub fn build_headers(cfg: &Vec<(String, String)>, model: &ModelConfig) -> (r: Result<
    Vec<(String, String)>,
    ServiceError,
>)
    ensures
        match r {
            Ok(v) => request_headers(cfg@, *model) == Ok::<_, Seq<char>>(header_view(v@)),
            Err(e) => e matches ServiceError::Header(k) && request_headers(cfg@, *model) == Err::<
                Seq<(Seq<char>, Seq<char>)>,
                _,
            >(k@),
        },
{
    let mut out: Vec<(String, String)> = Vec::new();
    let mut i: usize = 0;
    assert(header_view(out@) =~= Seq::empty());
    assert(cfg@.subrange(0, 0).len() == 0);
    while i < cfg.len()
        invariant
            i <= cfg@.len(),
            static_headers(cfg@.subrange(0, i as int)) == Ok::<_, Seq<char>>(header_view(out@)),
        decreases cfg@.len() - i,
    {
        let ghost prefix = cfg@.subrange(0, i + 1);
        assert(prefix.drop_last() == cfg@.subrange(0, i as int));
        let key = &cfg[i].0;
        let value = &cfg[i].1;
        match canonical_header_name(key.as_str()) {
            None => {
                proof {
                    static_prefix_error(cfg@, (i + 1) as nat);
                }
                return Err(ServiceError::Header(key.clone()));
            },
            Some(n) => {
                if !header_value_valid(value.as_str()) {
                    proof {
                        static_prefix_error(cfg@, (i + 1) as nat);
                    }
                    return Err(ServiceError::Header(key.clone()));
                }
                proof {
                    lemma_lower_name(key@, n@);
                }
                let ghost before = out@;
                out.push((n, value.clone()));
                assert(header_view(out@) =~= header_view(before).push((n@, value@)));
            },
        }
        i = i + 1;
    }
    assert(cfg@.subrange(0, cfg@.len() as int) == cfg@);
    let ghost statics = header_view(out@);
    if model.url.is_some() {
        match &model.api_key {
            Some(api_key) => {
                let mut v = String::from_str("Bearer ");
                v.append(api_key.as_str());
                if !header_value_valid(v.as_str()) {
                    return Err(ServiceError::Header(String::from_str("authorization")));
                }
                out.push((String::from_str("authorization"), v));
                assert(header_view(out@) =~= statics.push(("authorization"@, bearer(api_key@))));
            },
            None => {},
        }
    }
    let content_type = String::from_str("content-type");
    if !header_named(&out, &content_type) {
        let ghost before = header_view(out@);
        out.push((content_type, String::from_str("application/json")));
        assert(header_view(out@) =~= before.push(("content-type"@, "application/json"@)));
    }
    Ok(out)
}

/// The lower-cased form is the only one `lowered` admits.
proof fn lemma_lower_name(s: Seq<char>, t: Seq<char>)
    requires
        lowered(s, t),
    ensures
        lower_name(s) == t,
{
    let c = lower_name(s);
    assert(lowered(s, c));
    assert forall|i: int| 0 <= i < s.len() implies c[i] == t[i] by {
        assert(c[i] as int == t[i] as int);
    }
    assert(c =~= t);
}

/// Once the static headers fail on a prefix, they fail on the whole list
/// with the same name.
proof fn static_prefix_error(cfg: Seq<(String, String)>, n: nat)
    requires
        n <= cfg.len(),
        static_headers(cfg.subrange(0, n as int)) is Err,
    ensures
        static_headers(cfg) == static_headers(cfg.subrange(0, n as int)),
    decreases cfg.len() - n,
{
    if n < cfg.len() {
        assert(cfg.subrange(0, n + 1 as int).drop_last() == cfg.subrange(0, n as int));
        static_prefix_error(cfg, n + 1);
    } else {
        assert(cfg.subrange(0, n as int) == cfg);
    }
}

} // verus!
