//! Validation for opening a URL in the system browser, and the reading of
//! the browser launcher's outcome.
use vstd::prelude::*;
use vstd::string::*;

verus! {

/// Unicode's `White_Space` property.
pub open spec fn is_white_space(c: char) -> bool {
    let n = c as u32;
    (0x09 <= n <= 0x0d) || n == 0x20 || n == 0x85 || n == 0xa0 || n == 0x1680 || (0x2000 <= n
        <= 0x200a) || n == 0x2028 || n == 0x2029 || n == 0x202f || n == 0x205f || n == 0x3000
}

/// `s` without its leading whitespace.
pub open spec fn trim_start_of(s: Seq<char>) -> Seq<char>
    decreases s.len(),
{
    if s.len() > 0 && is_white_space(s[0]) {
        trim_start_of(s.drop_first())
    } else {
        s
    }
}

/// `s` without its trailing whitespace.
pub open spec fn trim_end_of(s: Seq<char>) -> Seq<char>
    decreases s.len(),
{
    if s.len() > 0 && is_white_space(s.last()) {
        trim_end_of(s.drop_last())
    } else {
        s
    }
}

/// `s` without its leading and trailing whitespace.
pub open spec fn trim_of(s: Seq<char>) -> Seq<char> {
    trim_end_of(trim_start_of(s))
}

/// Relies on `str::trim`: its documentation gives the result as `s` without
/// leading and trailing whitespace, whitespace being the characters of
/// Unicode's `White_Space` property.
#[verifier::external_body]
fn trim_text(s: &str) -> (r: String)
    ensures
        r@ == trim_of(s@),
{
    s.trim().to_string()
}

/// `p` is a prefix of `t`.
pub open spec fn has_prefix(t: Seq<char>, p: Seq<char>) -> bool {
    p.len() <= t.len() && t.subrange(0, p.len() as int) == p
}

/// A text that names an http or https URL.
pub open spec fn is_web_url(t: Seq<char>) -> bool {
    has_prefix(t, "http://"@) || has_prefix(t, "https://"@)
}

/// The message with which a URL of another scheme is refused.
pub open spec fn rejection_message() -> Seq<char> {
    "Only http(s) URLs are allowed"@
}

/// Whether `p` is a prefix of `t`.
pub fn starts_with(t: &str, p: &str) -> (r: bool)
    ensures
        r == has_prefix(t@, p@),
{
    let tn = t.unicode_len();
    let pn = p.unicode_len();
    if pn > tn {
        return false;
    }
    let mut i: usize = 0;
    while i < pn
        invariant
            pn == p@.len(),
            tn == t@.len(),
            pn <= tn,
            i <= pn,
            forall|k: int| 0 <= k < i ==> t@[k] == p@[k],
        decreases pn - i,
    {
        if t.get_char(i) != p.get_char(i) {
            assert(t@.subrange(0, pn as int)[i as int] != p@[i as int]);
            return false;
        }
        i = i + 1;
    }
    assert(t@.subrange(0, pn as int) =~= p@);
    true
}

/// Checks an already trimmed URL: it is accepted exactly when it starts with
/// `http://` or `https://`.
pub fn check_web_url(trimmed: &str) -> (r: Result<(), String>)
    ensures
        r is Ok <==> is_web_url(trimmed@),
        r is Err ==> r->Err_0@ == rejection_message(),
{
    if starts_with(trimmed, "http://") || starts_with(trimmed, "https://") {
        Ok(())
    } else {
        Err(String::from_str("Only http(s) URLs are allowed"))
    }
}

/// Validates a URL that is to be opened in the system browser. The URL is
/// trimmed of surrounding whitespace; it is refused unless the trimmed text
/// starts with `http://` or `https://`. On success the trimmed text is
/// returned: it is what the browser launcher is handed. A refused URL
/// yields no text to hand it, so nothing is launched, and the function
/// changes nothing.
pub fn validate_external_url(url: &str) -> (r: Result<String, String>)
    ensures
        r is Ok <==> is_web_url(trim_of(url@)),
        r is Ok ==> r->Ok_0@ == trim_of(url@),
        r is Err ==> r->Err_0@ == rejection_message(),
{
    let trimmed = trim_text(url);
    match check_web_url(trimmed.as_str()) {
        Ok(()) => Ok(trimmed),
        Err(message) => Err(message),
    }
}

/// How a run of the system's browser launcher ended.
pub enum LauncherOutcome {
    /// The launcher could not be started; `reason` describes why.
    SpawnFailed { reason: String },
    /// The launcher ran and exited; `status` is its exit status as text.
    Exited { success: bool, status: String },
}

/// The message for a launcher that could not be started.
pub open spec fn spawn_failure_message(reason: Seq<char>) -> Seq<char> {
    "Failed to launch browser: "@ + reason
}

/// The message for a launcher that exited unsuccessfully.
pub open spec fn status_failure_message(status: Seq<char>) -> Seq<char> {
    "Browser command failed with status: "@ + status
}

/// What opening a URL returns, given how the launcher ended: success exactly
/// when the launcher ran and exited successfully, else a message that names
/// the cause.
pub fn launcher_result(outcome: LauncherOutcome) -> (r: Result<(), String>)
    ensures
        r is Ok <==> (outcome matches LauncherOutcome::Exited { success, .. } && success),
        outcome matches LauncherOutcome::SpawnFailed { reason } ==> r is Err
            && r->Err_0@ == spawn_failure_message(reason@),
        outcome matches LauncherOutcome::Exited { success, status } ==> (!success ==> r is Err
            && r->Err_0@ == status_failure_message(status@)),
{
    match outcome {
        LauncherOutcome::SpawnFailed { reason } => {
            let mut m = String::from_str("Failed to launch browser: ");
            m.append(reason.as_str());
            Err(m)
        },
        LauncherOutcome::Exited { success, status } => {
            if success {
                Ok(())
            } else {
                let mut m = String::from_str("Browser command failed with status: ");
                m.append(status.as_str());
                Err(m)
            }
        },
    }
}

} // verus!
