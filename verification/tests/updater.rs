use playdate_sdk_updater::args::{get_param, has_flag};
use playdate_sdk_updater::bytes::{append_bytes, bytes_eq, bytes_have_prefix, trim_bytes};
use playdate_sdk_updater::info::{classify, proceed, prompt_default, UpdateDecision, UpdateInfo};
use playdate_sdk_updater::prompt::confirm;

#[test]
fn confirm_yes_variants() {
    assert_eq!(confirm(&Some(b"y".to_vec()), false), true);
    assert_eq!(confirm(&Some(b"Y".to_vec()), false), true);
    assert_eq!(confirm(&Some(b" y \n".to_vec()), false), true);
    assert_eq!(confirm(&Some(b"\tY\r\n".to_vec()), false), true);
}

#[test]
fn confirm_no_variants() {
    assert_eq!(confirm(&Some(b"n".to_vec()), true), false);
    assert_eq!(confirm(&Some(b"N".to_vec()), true), false);
    assert_eq!(confirm(&Some(b"  n\n".to_vec()), true), false);
}

#[test]
fn confirm_default_on_anything_else() {
    for default in [false, true] {
        assert_eq!(confirm(&Some(b"".to_vec()), default), default);
        assert_eq!(confirm(&Some(b"   \n".to_vec()), default), default);
        assert_eq!(confirm(&Some(b"yes".to_vec()), default), default);
        assert_eq!(confirm(&Some(b"no".to_vec()), default), default);
        assert_eq!(confirm(&Some(b"q".to_vec()), default), default);
        assert_eq!(confirm(&Some(b"y n".to_vec()), default), default);
        // a failed read
        assert_eq!(confirm(&None, default), default);
    }
}

#[test]
fn classify_missing_url_is_fatal() {
    let info = UpdateInfo { download_url: None, version_id: Some(b"2.7.6".to_vec()) };
    assert_eq!(classify(&info), UpdateDecision::MissingUrl);
    // nothing may start, whatever the operator would answer
    assert!(!proceed(UpdateDecision::MissingUrl, true));
    assert!(!proceed(UpdateDecision::MissingUrl, false));
}

#[test]
fn classify_empty_version_is_up_to_date() {
    let info = UpdateInfo {
        download_url: Some(b"https://example.com/sdk.tar.gz".to_vec()),
        version_id: Some(b"".to_vec()),
    };
    assert_eq!(classify(&info), UpdateDecision::UpToDate);
    assert!(!proceed(UpdateDecision::UpToDate, true));
    assert!(!proceed(UpdateDecision::UpToDate, false));
}

#[test]
fn classify_new_version_defaults_to_yes() {
    let info = UpdateInfo {
        download_url: Some(b"https://example.com/sdk.tar.gz".to_vec()),
        version_id: Some(b"2.7.7".to_vec()),
    };
    assert_eq!(classify(&info), UpdateDecision::Available);
    assert_eq!(prompt_default(UpdateDecision::Available), true);
    assert!(proceed(UpdateDecision::Available, true));
    assert!(!proceed(UpdateDecision::Available, false));
}

#[test]
fn classify_absent_version_is_uncertain() {
    let info = UpdateInfo {
        download_url: Some(b"https://example.com/sdk.tar.gz".to_vec()),
        version_id: None,
    };
    assert_eq!(classify(&info), UpdateDecision::Uncertain);
    assert_eq!(prompt_default(UpdateDecision::Uncertain), false);
    assert!(proceed(UpdateDecision::Uncertain, true));
    assert!(!proceed(UpdateDecision::Uncertain, false));
}

#[test]
fn trim_bytes_edges() {
    assert_eq!(trim_bytes(&b"".to_vec()), b"".to_vec());
    assert_eq!(trim_bytes(&b" \t\r\n".to_vec()), b"".to_vec());
    assert_eq!(trim_bytes(&b"2.7.6\n".to_vec()), b"2.7.6".to_vec());
    assert_eq!(trim_bytes(&b"  a b  ".to_vec()), b"a b".to_vec());
    assert_eq!(trim_bytes(&b"abc".to_vec()), b"abc".to_vec());
}

#[test]
fn append_builds_query() {
    assert_eq!(
        append_bytes(&b"https://example.com/check?v=".to_vec(), &b"2.7.6".to_vec()),
        b"https://example.com/check?v=2.7.6".to_vec()
    );
    assert_eq!(append_bytes(&b"".to_vec(), &b"x".to_vec()), b"x".to_vec());
    assert_eq!(append_bytes(&b"x".to_vec(), &b"".to_vec()), b"x".to_vec());
}

#[test]
fn bytes_helpers() {
    assert!(bytes_eq(&b"--clean".to_vec(), &b"--clean".to_vec()));
    assert!(!bytes_eq(&b"--clean".to_vec(), &b"--clear".to_vec()));
    assert!(!bytes_eq(&b"--clean".to_vec(), &b"--cleanly".to_vec()));
    assert!(bytes_have_prefix(&b"--install-dir=/opt".to_vec(), &b"--install-dir".to_vec()));
    assert!(!bytes_have_prefix(&b"--install".to_vec(), &b"--install-dir".to_vec()));
}

#[test]
fn has_flag_finds_exact_argument() {
    let args = vec![b"updater".to_vec(), b"--clean".to_vec(), b"--help".to_vec()];
    assert!(has_flag(&args, &b"--clean".to_vec()));
    assert!(has_flag(&args, &b"--help".to_vec()));
    assert!(!has_flag(&args, &b"--install-dir".to_vec()));
    // prefixes are not the flag itself
    assert!(!has_flag(&args, &b"--cl".to_vec()));
}

#[test]
fn get_param_returns_value_after_separator() {
    let args = vec![b"updater".to_vec(), b"--install-dir=/opt/sdk".to_vec()];
    assert_eq!(get_param(&args, &b"--install-dir".to_vec()), b"/opt/sdk".to_vec());
}

#[test]
fn get_param_missing_or_bare_is_empty() {
    let args = vec![b"updater".to_vec(), b"--clean".to_vec()];
    assert_eq!(get_param(&args, &b"--install-dir".to_vec()), b"".to_vec());
    let bare = vec![b"--install-dir".to_vec()];
    assert_eq!(get_param(&bare, &b"--install-dir".to_vec()), b"".to_vec());
    let empty_value = vec![b"--install-dir=".to_vec()];
    assert_eq!(get_param(&empty_value, &b"--install-dir".to_vec()), b"".to_vec());
}

#[test]
fn get_param_takes_first_match() {
    let args = vec![b"--dir=a".to_vec(), b"--dir=b".to_vec()];
    assert_eq!(get_param(&args, &b"--dir".to_vec()), b"a".to_vec());
}
