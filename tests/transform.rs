use nucr::credential::Credentials;
use nucr::text::replace_all;
use nucr::transform::{apply_forward, apply_inverse};

fn creds(user: &str, pass: &str) -> Credentials {
    Credentials { username: user.to_string(), password: pass.to_string() }
}

const SAMPLE: &str = "<add value=\"#CI_USER#\" /><add value=\"#CI_USER_PASSWORD#\" />";

#[test]
fn forward_then_inverse_on_sample() {
    let k = creds("alice", "p@ss");
    let f = apply_forward(SAMPLE, &k);
    assert_eq!(f.content, "<add value=\"alice\" /><add value=\"p@ss\" />");
    assert!(f.changed);
    let b = apply_inverse(&f.content, &k);
    assert_eq!(b.content, SAMPLE);
    assert!(b.changed);
}

#[test]
fn forward_twice_changes_nothing_more() {
    let k = creds("alice", "p@ss");
    let once = apply_forward(SAMPLE, &k);
    let twice = apply_forward(&once.content, &k);
    assert!(!twice.changed);
    assert_eq!(twice.content, once.content);
}

#[test]
fn forward_without_tokens_is_no_op() {
    let k = creds("alice", "p@ss");
    let text = "<add value=\"alice\" />";
    let r = apply_forward(text, &k);
    assert!(!r.changed);
    assert_eq!(r.content, text);
}

#[test]
fn forward_with_one_token_changes() {
    let k = creds("bob", "secret");
    let r = apply_forward("user=#CI_USER#;", &k);
    assert!(r.changed);
    assert_eq!(r.content, "user=bob;");
}

#[test]
fn forward_replaces_every_occurrence() {
    let k = creds("u", "p");
    let r = apply_forward("#CI_USER##CI_USER_PASSWORD#-#CI_USER#", &k);
    assert_eq!(r.content, "up-u");
}

#[test]
fn inverse_without_values_is_no_op() {
    let k = creds("alice", "p@ss");
    let r = apply_inverse(SAMPLE, &k);
    assert!(!r.changed);
    assert_eq!(r.content, SAMPLE);
}

#[test]
fn round_trip_of_placeholders_only() {
    let k = creds("carol", "hunter2");
    let text = "#CI_USER#:#CI_USER_PASSWORD#";
    let f = apply_forward(text, &k);
    assert_eq!(f.content, "carol:hunter2");
    assert_eq!(apply_inverse(&f.content, &k).content, text);
}

#[test]
fn forward_on_empty_text() {
    let r = apply_forward("", &creds("a", "b"));
    assert!(!r.changed);
    assert_eq!(r.content, "");
}

#[test]
fn inverse_with_empty_value_matches_everywhere() {
    let r = apply_inverse("ab", &creds("", "zz"));
    assert_eq!(r.content, "#CI_USER#a#CI_USER#b#CI_USER#");
    assert!(r.changed);
}

#[test]
fn replace_all_leftmost_without_overlap() {
    assert_eq!(replace_all("aaa", "aa", "b"), "ba");
    assert_eq!(replace_all("abcabc", "bc", "X"), "aXaX");
    assert_eq!(replace_all("abc", "", "-"), "-a-b-c-");
    assert_eq!(replace_all("", "", "-"), "-");
    assert_eq!(replace_all("short", "longer pattern", "x"), "short");
    assert_eq!(replace_all("héllo wörld", "ö", "oe"), "héllo woerld");
}
