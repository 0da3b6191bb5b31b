//! Recovery of the token that the service's own search page sends: the
//! address of its application script in the home page, then the token in
//! that script.

use vstd::prelude::*;
use crate::text::push_str;

verus! {

/// The leftmost-first match of a regular expression in a text, as the
/// `regex` crate finds it; none when there is no match or the pattern is
/// not a valid expression.
pub uninterp spec fn first_match_of(pattern: Seq<char>, text: Seq<char>) -> Option<Seq<char>>;

/// The first capture group of the leftmost-first match of a regular
/// expression, as the `regex` crate finds it; none when there is no match,
/// the group took no part in it, or the pattern is not valid.
pub uninterp spec fn first_capture_of(pattern: Seq<char>, text: Seq<char>) -> Option<Seq<char>>;

/// `part` stands somewhere in `text`.
pub open spec fn occurs_in(part: Seq<char>, text: Seq<char>) -> bool {
    exists|i: int| 0 <= i && i + part.len() <= text.len() && #[trigger] text.subrange(i, i + part.len()) == part
}

/// A text, or none, as plain characters.
pub open spec fn opt_view(o: Option<String>) -> Option<Seq<char>> {
    match o {
        Some(s) => Some(s@),
        None => None,
    }
}

/// Relies on regex::Regex::new and Regex::find: the text of the first match,
/// a part of the text searched.
#[verifier::external_body]
fn regex_find(pattern: &str, text: &str) -> (r: Option<String>)
    ensures
        opt_view(r) == first_match_of(pattern@, text@),
        r is Some ==> occurs_in(r->Some_0@, text@),
{
    let re = regex::Regex::new(pattern).ok()?;
    re.find(text).map(|m| m.as_str().to_string())
}

/// Relies on regex::Regex::new, Regex::captures and Captures::get: the text
/// of the first group of the first match, a part of the text searched.
#[verifier::external_body]
fn regex_capture(pattern: &str, text: &str) -> (r: Option<String>)
    ensures
        opt_view(r) == first_capture_of(pattern@, text@),
        r is Some ==> occurs_in(r->Some_0@, text@),
{
    let re = regex::Regex::new(pattern).ok()?;
    re.captures(text)?.get(1).map(|m| m.as_str().to_string())
}

/// The path of the application script: a name of sixteen lower-case hex
/// digits under the pages chunk directory.
pub open spec fn app_script_pattern() -> Seq<char> {
    "/_next/static/chunks/pages/_app-[a-f0-9]{16}.js"@
}

/// The call in the script that appends the token to the search address.
pub open spec fn search_hash_pattern() -> Seq<char> {
    "\"/api/search/\"\\.concat\\(\"([a-f0-9]+?)\"\\)"@
}

/// The path of the application script named in the home page.
pub fn app_script_path(html: &str) -> (r: Option<String>)
    ensures
        opt_view(r) == first_match_of(app_script_pattern(), html@),
        r is Some ==> occurs_in(r->Some_0@, html@),
{
    regex_find("/_next/static/chunks/pages/_app-[a-f0-9]{16}.js", html)
}

/// The address of the application script at `path`.
pub fn app_script_url(path: &str) -> (r: String)
    ensures
        r@ == "https://howlongtobeat.com"@ + path@,
{
    let mut r = String::new();
    push_str(&mut r, "https://howlongtobeat.com");
    push_str(&mut r, path);
    r
}

/// The search token that the application script appends to the search
/// address.
pub fn search_hash(script: &str) -> (r: Option<String>)
    ensures
        opt_view(r) == first_capture_of(search_hash_pattern(), script@),
        r is Some ==> occurs_in(r->Some_0@, script@),
{
    regex_capture("\"/api/search/\"\\.concat\\(\"([a-f0-9]+?)\"\\)", script)
}

} // verus!
