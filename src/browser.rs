//! Which browsers a tab URL can be asked of, the script that asks it, and
//! how the answer is read.
use vstd::prelude::*;
use crate::text::{contains_spec, has_substring, lower_of, lowercase, trim_of, trimmed};

verus! {

/// Chromium-family browser names, matched in lower case.
pub open spec fn chromium_family(l: Seq<char>) -> bool {
    contains_spec(l, "chrome"@) || contains_spec(l, "arc"@) || contains_spec(l, "brave"@)
        || contains_spec(l, "edge"@) || contains_spec(l, "opera"@)
}

/// The scripting query for the current tab of a Safari window.
pub open spec fn safari_script(app: Seq<char>) -> Seq<char> {
    "tell application \""@ + app + "\" to get URL of current tab of front window"@
}

/// The scripting query for the active tab of a Chromium-family window.
pub open spec fn chromium_script(app: Seq<char>) -> Seq<char> {
    "tell application \""@ + app + "\" to get URL of active tab of front window"@
}

/// The scripting query for a browser, by its lower-cased name: Safari
/// first, then the Chromium family; other browsers (Firefox among them)
/// have none.
pub open spec fn script_spec(app: Seq<char>) -> Option<Seq<char>> {
    let l = lower_of(app);
    if contains_spec(l, "safari"@) {
        Some(safari_script(app))
    } else if chromium_family(l) {
        Some(chromium_script(app))
    } else {
        None
    }
}

fn mentions_chromium(l: &str) -> (r: bool)
    ensures
        r == chromium_family(l@),
{
    has_substring(l, "chrome") || has_substring(l, "arc") || has_substring(l, "brave")
        || has_substring(l, "edge") || has_substring(l, "opera")
}

/// The scripting query that reads the tab URL of the named application,
/// or `None` for an application it cannot be asked of.
pub fn applescript_for(app_name: &str) -> (r: Option<String>)
    ensures
        match script_spec(app_name@) {
            Some(s) => r is Some && r->Some_0@ == s,
            None => r is None,
        },
{
    let lower = lowercase(app_name);
    let l = lower.as_str();
    let tail = if has_substring(l, "safari") {
        "\" to get URL of current tab of front window"
    } else if mentions_chromium(l) {
        "\" to get URL of active tab of front window"
    } else {
        return None;
    };
    let mut script = String::from_str("tell application \"");
    script.append(app_name);
    script.append(tail);
    Some(script)
}

/// Whether the named application is a browser whose address bar the
/// accessibility query can read: the Chromium family or Firefox.
pub fn supports_automation_query(app_name: &str) -> (r: bool)
    ensures
        r == (chromium_family(lower_of(app_name@)) || contains_spec(
            lower_of(app_name@),
            "firefox"@,
        )),
{
    let lower = lowercase(app_name);
    let l = lower.as_str();
    mentions_chromium(l) || has_substring(l, "firefox")
}

/// Reads the URL from the script's output: the trimmed text, unless it is
/// empty or the script's word for no value.
pub fn url_from_script_output(output: &str) -> (r: Option<String>)
    ensures
        ({
            let t = trim_of(output@);
            if t.len() == 0 || t == "missing value"@ {
                r is None
            } else {
                r is Some && r->Some_0@ == t
            }
        }),
{
    let t = trimmed(output);
    if t.is_empty() {
        return None;
    }
    let url = String::from_str(t);
    let missing = String::from_str("missing value");
    if url == missing {
        None
    } else {
        Some(url)
    }
}

/// Whether an address-bar value looks like a URL: it holds a scheme
/// separator or a common top-level domain.
pub fn looks_like_url(value: &str) -> (r: bool)
    ensures
        r == (contains_spec(value@, "://"@) || contains_spec(value@, ".com"@) || contains_spec(
            value@,
            ".org"@,
        )),
{
    has_substring(value, "://") || has_substring(value, ".com") || has_substring(value, ".org")
}

} // verus!
