use nucr::credential::Credentials;
use nucr::run::{
    candidate_paths, check_loaded, mode_or_default, no_target_message, plan, update_for,
    LoadError, Mode, Plan,
};

fn creds() -> Credentials {
    Credentials { username: "alice".to_string(), password: "p@ss".to_string() }
}

#[test]
fn no_candidates_means_no_target() {
    assert!(matches!(plan(None, &vec![false, false]), Plan::NoTarget));
    assert!(matches!(plan(Some(Mode::Forget), &vec![false, false]), Plan::NoTarget));
    assert!(no_target_message().contains("not found"));
}

#[test]
fn forget_runs_once() {
    assert!(matches!(plan(Some(Mode::Forget), &vec![true, true]), Plan::ForgetAll));
}

#[test]
fn default_mode_is_replace() {
    assert_eq!(mode_or_default(None), Mode::Replace);
    assert_eq!(mode_or_default(Some(Mode::Undo)), Mode::Undo);
    match plan(None, &vec![false, true]) {
        Plan::Files(m, idx) => {
            assert_eq!(m, Mode::Replace);
            assert_eq!(idx, vec![1]);
        }
        _ => panic!("expected files"),
    }
    match plan(Some(Mode::Undo), &vec![true, true]) {
        Plan::Files(m, idx) => {
            assert_eq!(m, Mode::Undo);
            assert_eq!(idx, vec![0, 1]);
        }
        _ => panic!("expected files"),
    }
}

#[test]
fn candidates_in_fixed_order() {
    assert_eq!(candidate_paths(), vec!["./NuGet.Config", "./NuGet.Config.Debug"]);
}

#[test]
fn empty_file_is_refused() {
    assert!(matches!(check_loaded("./NuGet.Config", String::new()), Err(LoadError::Empty(ref p)) if p == "./NuGet.Config"));
    assert!(matches!(check_loaded("x", "a".to_string()), Ok(ref c) if c == "a"));
}

#[test]
fn replace_update_sets_flag_and_reports() {
    let u = update_for(Mode::Replace, "./NuGet.Config", "v=#CI_USER#", &creds());
    assert_eq!(u.write.as_deref(), Some("v=alice"));
    assert!(u.assume_unchanged);
    assert_eq!(u.message, "Credentials are set to ./NuGet.Config");
    let again = update_for(Mode::Replace, "./NuGet.Config", "v=alice", &creds());
    assert!(again.write.is_none());
    assert_eq!(again.message, "Credentials are already set to ./NuGet.Config");
}

#[test]
fn undo_update_clears_flag_and_reports() {
    let u = update_for(Mode::Undo, "./NuGet.Config", "v=alice;p=p@ss", &creds());
    assert_eq!(u.write.as_deref(), Some("v=#CI_USER#;p=#CI_USER_PASSWORD#"));
    assert!(!u.assume_unchanged);
    assert_eq!(u.message, "Credentials are removed from ./NuGet.Config");
    let none = update_for(Mode::Undo, "./NuGet.Config", "plain", &creds());
    assert!(none.write.is_none());
    assert_eq!(none.message, "No credentials to remove from ./NuGet.Config");
}
