//! Decisions of the self-updater: what a check of the git remote found, and
//! what a run of `update.sh` reports. The caller runs `git` and `sh` and
//! hands in what they printed.

use vstd::prelude::*;
use crate::text::{trim, trimmed, prefixed, same_text};
use crate::ui::{is_digit, digit_value};

verus! {

/// Outcome of checking the git remote for new commits.
#[derive(Debug, Clone, PartialEq)]
pub enum CheckResult {
    UpToDate,
    Available { local: String, remote: String },
    Unavailable(String),
}

/// Outcome of pulling, building and installing an update.
#[derive(Debug, Clone, PartialEq)]
pub enum UpdateResult {
    Success,
    Failed(String),
}

/// `bytes` decoded as UTF-8 with invalid sequences replaced, as
/// `String::from_utf8_lossy` does.
pub uninterp spec fn utf8_lossy(bytes: Seq<u8>) -> Seq<char>;

/// Decodes command output with `String::from_utf8_lossy`; the contract
/// names the decoding as a function of the bytes alone.
#[verifier::external_body]
fn decode_lossy(bytes: &[u8]) -> (res: String)
    ensures
        res@ == utf8_lossy(bytes@),
{
    String::from_utf8_lossy(bytes).into_owned()
}

/// What a `git` query printed: its trimmed output when it succeeded.
pub fn git_text(success: bool, stdout: &[u8]) -> (res: Option<String>)
    ensures
        success ==> (res matches Some(t) && t@ == trim(utf8_lossy(stdout@))),
        !success ==> res is None,
{
    if success {
        let text = decode_lossy(stdout);
        Some(trimmed(text.as_str()))
    } else {
        None
    }
}

/// Whether every character of `d` is an ASCII digit.
pub open spec fn all_digits(d: Seq<char>) -> bool {
    forall|k: int| 0 <= k < d.len() ==> is_digit(#[trigger] d[k])
}

/// The value of the decimal digits `d`, most significant first.
pub open spec fn digits_value(d: Seq<char>) -> int
    decreases d.len(),
{
    if d.len() == 0 {
        0
    } else {
        digits_value(d.drop_last()) * 10 + digit_value(d.last())
    }
}

/// The length of the sign that `str::parse::<u64>` accepts: a leading `+`.
pub open spec fn plus_len(text: Seq<char>) -> int {
    if text.len() > 0 && text[0] == '+' {
        1
    } else {
        0
    }
}

/// What `str::parse::<u64>` makes of a text: an optional `+` followed by
/// one or more ASCII digits whose value fits in a `u64`; nothing else
/// (no other sign, no white space) is a number.
pub open spec fn u64_text_value(text: Seq<char>) -> Option<u64> {
    let d = text.subrange(plus_len(text), text.len() as int);
    if d.len() > 0 && all_digits(d) && digits_value(d) <= u64::MAX {
        Some(digits_value(d) as u64)
    } else {
        None
    }
}

/// A number never gets smaller when digits are added after it.
proof fn lemma_digits_value_grows(d: Seq<char>, j: int)
    requires
        all_digits(d),
        0 <= j <= d.len(),
    ensures
        0 <= digits_value(d.take(j)) <= digits_value(d),
    decreases d.len(),
{
    if d.len() > 0 {
        let p = d.drop_last();
        assert(is_digit(d[d.len() - 1]));
        assert(all_digits(p)) by {
            assert forall|k: int| 0 <= k < p.len() implies is_digit(#[trigger] p[k]) by {
                assert(p[k] == d[k]);
            }
        }
        if j == d.len() {
            assert(d.take(j) =~= d);
            lemma_digits_value_grows(p, p.len() as int);
            assert(p.take(p.len() as int) =~= p);
        } else {
            lemma_digits_value_grows(p, j);
            assert(p.take(j) =~= d.take(j));
        }
    }
}

/// Reads a count as `str::parse::<u64>` does.
fn parse_count(text: &str) -> (res: Option<u64>)
    ensures
        res == u64_text_value(text@),
{
    let n = text.unicode_len();
    let mut start: usize = 0;
    if n > 0 && text.get_char(0) == '+' {
        start = 1;
    }
    if start >= n {
        return None;
    }
    let ghost d = text@.subrange(start as int, n as int);
    let mut i: usize = start;
    let mut value: u64 = 0;
    while i < n
        invariant
            n == text@.len(),
            start == plus_len(text@),
            start < n,
            d == text@.subrange(start as int, n as int),
            start <= i <= n,
            all_digits(d.take(i - start)),
            value == digits_value(d.take(i - start)),
        decreases n - i,
    {
        let c = text.get_char(i);
        let k = i - start;
        assert(d[k as int] == c);
        if c < '0' || c > '9' {
            assert(!is_digit(d[k as int]));
            return None;
        }
        let digit = (c as u32 - 48) as u64;
        assert(d.take(k + 1).drop_last() =~= d.take(k as int));
        assert(digits_value(d.take(k + 1)) == value * 10 + digit);
        assert(all_digits(d.take(k + 1))) by {
            assert forall|m: int| 0 <= m < k + 1 implies is_digit(#[trigger] d.take(k + 1)[m]) by {
                if m < k {
                    assert(d.take(k + 1)[m] == d.take(k as int)[m]);
                }
            }
        }
        let next = match value.checked_mul(10) {
            Some(v) => v.checked_add(digit),
            None => None,
        };
        match next {
            Some(v) => {
                value = v;
            },
            None => {
                proof {
                    if all_digits(d) {
                        lemma_digits_value_grows(d, k + 1);
                    }
                }
                return None;
            },
        }
        i = i + 1;
    }
    assert(d.take(n - start) =~= d);
    Some(value)
}

/// What a counting `git` query (`rev-list --count`) printed: the count,
/// when it succeeded and printed one.
pub fn git_count(success: bool, stdout: &[u8]) -> (res: Option<u64>)
    ensures
        success ==> res == u64_text_value(trim(utf8_lossy(stdout@))),
        !success ==> res is None,
{
    match git_text(success, stdout) {
        Some(t) => parse_count(t.as_str()),
        None => None,
    }
}

/// The range of commits of `remote` that `HEAD` lacks: `HEAD..<remote>`.
pub fn missing_range(remote: &str) -> (res: String)
    ensures
        res@ == "HEAD.."@ + remote@,
{
    prefixed("HEAD..", remote)
}

/// The remote-tracking ref of `branch`: `origin/<branch>`.
pub fn remote_ref(branch: &str) -> (res: String)
    ensures
        res@ == "origin/"@ + branch@,
{
    prefixed("origin/", branch)
}

/// What the update check found out.
pub enum CheckRun {
    /// The source checkout (with `.git` and `update.sh`) is missing.
    NoCheckout,
    /// `git fetch` failed.
    FetchFailed,
    /// The short hashes of `HEAD` and of its remote-tracking branch, and
    /// how many commits of the remote branch `HEAD` lacks, where they could
    /// be determined.
    Queried { local: Option<String>, remote: Option<String>, behind: Option<u64> },
}

pub open spec fn no_checkout_message() -> Seq<char> {
    "Velo Player's source checkout wasn't found, so it can't update itself. Reinstall with install.sh to enable updates."@
}

pub open spec fn unreachable_message() -> Seq<char> {
    "Couldn't reach the git remote \u{2014} check your network connection."@
}

pub open spec fn undetermined_message() -> Seq<char> {
    "Couldn't determine the repository's update status."@
}

/// Checks the git remote for new commits on the current branch: available
/// when the remote branch has commits that `HEAD` lacks, up to date when it
/// has none (also when `HEAD` is ahead of it). Where that count could not
/// be had, the two hashes decide: equal is up to date, different is
/// available. Unavailable (with the reason) when a hash cannot be told.
pub fn check_result(run: CheckRun) -> (res: CheckResult)
    ensures
        match run {
            CheckRun::NoCheckout => res matches CheckResult::Unavailable(m) && m@
                == no_checkout_message(),
            CheckRun::FetchFailed => res matches CheckResult::Unavailable(m) && m@
                == unreachable_message(),
            CheckRun::Queried { local, remote, behind } => match (local, remote, behind) {
                (Some(l), Some(r), Some(n)) => if n == 0 {
                    res is UpToDate
                } else {
                    res matches CheckResult::Available { local: lo, remote: re } && lo@ == l@
                        && re@ == r@
                },
                (Some(l), Some(r), None) => if l@ == r@ {
                    res is UpToDate
                } else {
                    res matches CheckResult::Available { local: lo, remote: re } && lo@ == l@
                        && re@ == r@
                },
                _ => res matches CheckResult::Unavailable(m) && m@ == undetermined_message(),
            },
        },
{
    match run {
        CheckRun::NoCheckout => CheckResult::Unavailable(
            String::from_str(
                "Velo Player's source checkout wasn't found, so it can't update itself. Reinstall with install.sh to enable updates.",
            ),
        ),
        CheckRun::FetchFailed => CheckResult::Unavailable(
            String::from_str("Couldn't reach the git remote \u{2014} check your network connection."),
        ),
        CheckRun::Queried { local, remote, behind } => match (local, remote, behind) {
            (Some(l), Some(r), Some(n)) => if n == 0 {
                CheckResult::UpToDate
            } else {
                CheckResult::Available { local: l, remote: r }
            },
            (Some(l), Some(r), None) => if same_text(l.as_str(), r.as_str()) {
                CheckResult::UpToDate
            } else {
                CheckResult::Available { local: l, remote: r }
            },
            _ => CheckResult::Unavailable(
                String::from_str("Couldn't determine the repository's update status."),
            ),
        },
    }
}

/// What running `update.sh` came to.
pub enum UpdateRun {
    /// The source checkout is missing.
    NoCheckout,
    /// The script ran, with this exit success and output.
    Finished { success: bool, stdout: Vec<u8>, stderr: Vec<u8> },
    /// The script could not be started, with this error message.
    NotStarted(String),
}

/// The message of a failed run: the trimmed standard error, else the
/// trimmed standard output, else a generic message.
pub open spec fn failure_message(stdout: Seq<u8>, stderr: Seq<u8>) -> Seq<char> {
    if trim(utf8_lossy(stderr)).len() > 0 {
        trim(utf8_lossy(stderr))
    } else if trim(utf8_lossy(stdout)).len() > 0 {
        trim(utf8_lossy(stdout))
    } else {
        "update.sh exited with an error."@
    }
}

/// Pulls the latest commit, rebuilds, and reinstalls Velo Player via
/// `update.sh`: what the run reports.
pub fn update_result(run: UpdateRun) -> (res: UpdateResult)
    ensures
        match run {
            UpdateRun::NoCheckout => res matches UpdateResult::Failed(m) && m@
                == "Source checkout not found."@,
            UpdateRun::Finished { success, stdout, stderr } => if success {
                res is Success
            } else {
                res matches UpdateResult::Failed(m) && m@ == failure_message(stdout@, stderr@)
            },
            UpdateRun::NotStarted(e) => res matches UpdateResult::Failed(m) && m@ == e@,
        },
{
    match run {
        UpdateRun::NoCheckout => UpdateResult::Failed(String::from_str("Source checkout not found.")),
        UpdateRun::Finished { success, stdout, stderr } => {
            if success {
                return UpdateResult::Success;
            }
            let err_text = decode_lossy(stderr.as_slice());
            let mut msg = trimmed(err_text.as_str());
            if msg.unicode_len() == 0 {
                let out_text = decode_lossy(stdout.as_slice());
                msg = trimmed(out_text.as_str());
            }
            if msg.unicode_len() == 0 {
                msg = String::from_str("update.sh exited with an error.");
            }
            UpdateResult::Failed(msg)
        },
        UpdateRun::NotStarted(e) => UpdateResult::Failed(e),
    }
}

} // verus!
