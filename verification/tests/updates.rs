use velo_player::update::{check_result, git_count, git_text, missing_range, remote_ref, update_result, CheckResult, CheckRun, UpdateResult, UpdateRun};

#[test]
fn git_output_is_trimmed() {
    assert_eq!(git_text(true, b"  abc123\n"), Some("abc123".to_string()));
    assert_eq!(git_text(false, b"abc123"), None);
    assert_eq!(git_text(true, b"ab\xffcd\n"), Some("ab\u{fffd}cd".to_string()));
    assert_eq!(remote_ref("main"), "origin/main");
}

#[test]
fn check_outcomes() {
    assert_eq!(
        check_result(CheckRun::Queried { local: Some("abc".into()), remote: Some("abc".into()), behind: Some(0) }),
        CheckResult::UpToDate
    );
    assert_eq!(
        check_result(CheckRun::Queried { local: Some("abc".into()), remote: Some("def".into()), behind: Some(3) }),
        CheckResult::Available { local: "abc".into(), remote: "def".into() }
    );
    assert_eq!(
        check_result(CheckRun::Queried { local: Some("abc".into()), remote: None, behind: Some(1) }),
        CheckResult::Unavailable("Couldn't determine the repository's update status.".into())
    );
    assert_eq!(
        check_result(CheckRun::FetchFailed),
        CheckResult::Unavailable("Couldn't reach the git remote — check your network connection.".into())
    );
    assert_eq!(
        check_result(CheckRun::NoCheckout),
        CheckResult::Unavailable(
            "Velo Player's source checkout wasn't found, so it can't update itself. Reinstall with install.sh to enable updates."
                .into()
        )
    );
}

#[test]
fn update_outcomes() {
    assert_eq!(update_result(UpdateRun::Finished { success: true, stdout: b"x".to_vec(), stderr: b"y".to_vec() }), UpdateResult::Success);
    assert_eq!(
        update_result(UpdateRun::Finished { success: false, stdout: b"out\n".to_vec(), stderr: b"  err \n".to_vec() }),
        UpdateResult::Failed("err".into())
    );
    assert_eq!(
        update_result(UpdateRun::Finished { success: false, stdout: b" out ".to_vec(), stderr: b" \n".to_vec() }),
        UpdateResult::Failed("out".into())
    );
    assert_eq!(
        update_result(UpdateRun::Finished { success: false, stdout: Vec::new(), stderr: Vec::new() }),
        UpdateResult::Failed("update.sh exited with an error.".into())
    );
    assert_eq!(update_result(UpdateRun::NoCheckout), UpdateResult::Failed("Source checkout not found.".into()));
    assert_eq!(update_result(UpdateRun::NotStarted("No such file".into())), UpdateResult::Failed("No such file".into()));
}

#[test]
fn local_commits_ahead_are_not_an_update() {
    assert_eq!(
        check_result(CheckRun::Queried { local: Some("abc".into()), remote: Some("def".into()), behind: Some(0) }),
        CheckResult::UpToDate
    );
    assert_eq!(
        check_result(CheckRun::Queried { local: Some("abc".into()), remote: Some("def".into()), behind: None }),
        CheckResult::Available { local: "abc".into(), remote: "def".into() }
    );
}

#[test]
fn hashes_decide_without_a_count() {
    assert_eq!(
        check_result(CheckRun::Queried { local: Some("abc".into()), remote: Some("def".into()), behind: None }),
        CheckResult::Available { local: "abc".into(), remote: "def".into() }
    );
    assert_eq!(
        check_result(CheckRun::Queried { local: Some("abc".into()), remote: Some("abc".into()), behind: None }),
        CheckResult::UpToDate
    );
    assert_eq!(
        check_result(CheckRun::Queried { local: None, remote: Some("abc".into()), behind: None }),
        CheckResult::Unavailable("Couldn't determine the repository's update status.".into())
    );
}

#[test]
fn commit_counts() {
    assert_eq!(git_count(true, b"12\n"), Some(12));
    assert_eq!(git_count(true, b" 0 "), Some(0));
    assert_eq!(git_count(true, b"x"), None);
    assert_eq!(git_count(false, b"3"), None);
    assert_eq!(git_count(true, b"+7\n"), Some(7));
    assert_eq!(git_count(true, b"+"), None);
    assert_eq!(git_count(true, b"-1"), None);
    assert_eq!(git_count(true, b"1 2"), None);
    assert_eq!(git_count(true, b""), None);
    assert_eq!(git_count(true, b"18446744073709551615"), Some(u64::MAX));
    assert_eq!(git_count(true, b"18446744073709551616"), None);
    assert_eq!(git_count(true, b"99999999999999999999x"), None);
    assert_eq!(missing_range("origin/main"), "HEAD..origin/main");
}
