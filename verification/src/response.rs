//! Composition of the one response line the service ever serves.

use vstd::prelude::*;
use crate::glyph::get_color;
use crate::glyph::glyph_spec;
use crate::identity::get_namespace;
use crate::identity::namespace_spec;

verus! {

/// The body served for one request: the timestamp, the namespace and the
/// hostname each in brackets, then the glyph and the custom text.
pub open spec fn response_spec(
    time: Seq<char>,
    namespace: Seq<char>,
    host: Seq<char>,
    glyph: Seq<char>,
    text: Seq<char>,
) -> Seq<char> {
    "["@ + time + "]["@ + namespace + "]["@ + host + "] "@ + glyph + " -- "@ + text + "\n"@
}

/// The value an optional startup argument resolves to: the argument where one
/// was given, else the default.
pub open spec fn selector_spec(arg: Option<Seq<char>>, default: Seq<char>) -> Seq<char> {
    match arg {
        Some(v) => v,
        None => default,
    }
}

/// Resolves the color selector from the first startup argument.
pub fn color_selector(arg: Option<String>) -> (r: String)
    ensures
        r@ == selector_spec(arg.deep_view(), "blue"@),
{
    match arg {
        Some(v) => v,
        None => String::from_str("blue"),
    }
}

/// Resolves the custom text from the second startup argument.
pub fn custom_text(arg: Option<String>) -> (r: String)
    ensures
        r@ == selector_spec(arg.deep_view(), "Hi there!"@),
{
    match arg {
        Some(v) => v,
        None => String::from_str("Hi there!"),
    }
}

/// Joins the five resolved pieces into the response line.
pub fn compose_response(time: &str, namespace: &str, host: &str, glyph: &str, text: &str) -> (r:
    String)
    ensures
        r@ == response_spec(time@, namespace@, host@, glyph@, text@),
{
    let mut r = String::from_str("[");
    r.append(time);
    r.append("][");
    r.append(namespace);
    r.append("][");
    r.append(host);
    r.append("] ");
    r.append(glyph);
    r.append(" -- ");
    r.append(text);
    r.append("\n");
    proof {
        assert(r@ =~= response_spec(time@, namespace@, host@, glyph@, text@));
    }
    r
}

/// Relies on chrono::Utc::now and on the Display of chrono::DateTime:
/// the current UTC time rendered as a date-and-time line, never empty.
#[verifier::external_body]
fn now_utc_string() -> (r: String)
    ensures
        r@.len() > 0,
{
    chrono::Utc::now().to_string()
}

/// Serves one request: reads the clock, resolves the namespace from the
/// values handed in, and composes the line. The timestamp is the one part the
/// contract cannot pin down; everything around it is exact.
pub fn handle_request(
    color: &str,
    text: &str,
    ns_env: Option<String>,
    ns_file: Option<String>,
    host: &str,
) -> (r: String)
    ensures
        exists|t: Seq<char>|
            #[trigger] response_spec(
                t,
                namespace_spec(ns_env.deep_view(), ns_file.deep_view()),
                host@,
                glyph_spec(color@),
                text@,
            ) == r@,
{
    let time = now_utc_string();
    let namespace = get_namespace(ns_env, ns_file);
    let glyph = get_color(color);
    let r = compose_response(time.as_str(), namespace.as_str(), host, glyph, text);
    r
}

/// Two response lines built from the same namespace, hostname, glyph and
/// text, at two times, agree everywhere outside the timestamp field: both
/// open with a bracket, each carries its timestamp right after it, and from
/// the timestamp's closing bracket on they are the same sequence.
pub proof fn lemma_response_fixed_outside_timestamp(
    t1: Seq<char>,
    t2: Seq<char>,
    namespace: Seq<char>,
    host: Seq<char>,
    glyph: Seq<char>,
    text: Seq<char>,
)
    ensures
        response_spec(t1, namespace, host, glyph, text).take(1) == response_spec(
            t2,
            namespace,
            host,
            glyph,
            text,
        ).take(1),
        response_spec(t1, namespace, host, glyph, text).subrange(1, 1 + t1.len() as int) == t1,
        response_spec(t1, namespace, host, glyph, text).skip(1 + t1.len() as int) == response_spec(
            t2,
            namespace,
            host,
            glyph,
            text,
        ).skip(1 + t2.len() as int),
{
    reveal_strlit("[");
    let r1 = response_spec(t1, namespace, host, glyph, text);
    let r2 = response_spec(t2, namespace, host, glyph, text);
    assert(r1.take(1) =~= r2.take(1));
    assert(r1.subrange(1, 1 + t1.len() as int) =~= t1);
    assert(r1.skip(1 + t1.len() as int) =~= r2.skip(1 + t2.len() as int));
}

} // verus!
