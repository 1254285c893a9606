use nucr::credential::CredentialName;
use nucr::memory::MemoryStore;
use nucr::os_store::OsStore;
use nucr::report::after_deletions;
use nucr::resolve::{after_lookup, after_store, check_input, Lookup, Prompter, ResolveError, Step};

struct Scripted {
    answers: Vec<Result<String, String>>,
    asked: Vec<(String, bool)>,
}

impl Scripted {
    fn new(answers: Vec<Result<String, String>>) -> Scripted {
        Scripted { answers, asked: Vec::new() }
    }
}

impl Prompter for Scripted {
    fn prompt(&mut self, label: &str, masked: bool) -> Result<String, String> {
        self.asked.push((label.to_string(), masked));
        if self.answers.is_empty() {
            panic!("prompted more often than scripted");
        }
        self.answers.remove(0)
    }
}

#[test]
fn test_get_or_set_var() -> Result<(), keyring::Error> {
    let entry = keyring::Entry::new("unittest_nucr", "CI_USER")?;
    let _ = entry.delete_credential();
    let password = "test_password_123";
    entry.set_password(password)?;
    let retrieved_password = entry.get_password()?;
    assert_eq!(retrieved_password, password);
    let _ = entry.delete_credential();
    Ok(())
}

#[test]
fn resolve_persists_entered_value() {
    let mut store = MemoryStore::new();
    let mut p = Scripted::new(vec![Ok("alice".to_string())]);
    let r = store.resolve(&mut p, CredentialName::Username);
    assert!(matches!(r, Ok(ref v) if v == "alice"));
    assert_eq!(p.asked, vec![("CI_USER".to_string(), false)]);
    assert!(matches!(store.get(CredentialName::Username), Lookup::Found(ref v) if v == "alice"));
}

#[test]
fn resolve_uses_stored_value_without_prompt() {
    let mut store = MemoryStore::new();
    store.set(CredentialName::Password, "p@ss".to_string());
    let mut p = Scripted::new(vec![]);
    let r = store.resolve(&mut p, CredentialName::Password);
    assert!(matches!(r, Ok(ref v) if v == "p@ss"));
    assert!(p.asked.is_empty());
}

#[test]
fn resolve_rejects_empty_input_without_storing() {
    let mut store = MemoryStore::new();
    let mut p = Scripted::new(vec![Ok(String::new())]);
    let r = store.resolve(&mut p, CredentialName::Username);
    assert!(matches!(r, Err(ResolveError::EmptyInput)));
    assert!(matches!(store.get(CredentialName::Username), Lookup::Missing));
}

#[test]
fn resolve_reports_unreadable_prompt() {
    let mut store = MemoryStore::new();
    let mut p = Scripted::new(vec![Err("closed".to_string())]);
    let r = store.resolve(&mut p, CredentialName::Password);
    assert!(matches!(r, Err(ResolveError::Prompt(ref m)) if m == "closed"));
    assert_eq!(p.asked, vec![("CI_USER_PASSWORD".to_string(), true)]);
}

#[test]
fn resolve_credentials_in_order() {
    let mut store = MemoryStore::new();
    let mut p = Scripted::new(vec![Ok("u".to_string()), Ok("pw".to_string())]);
    let k = store.resolve_credentials(&mut p).ok().unwrap();
    assert_eq!(k.username, "u");
    assert_eq!(k.password, "pw");
    assert_eq!(p.asked[0].0, "CI_USER");
    assert_eq!(p.asked[1].0, "CI_USER_PASSWORD");
}

#[test]
fn forget_with_only_username_stored() {
    let mut store = MemoryStore::new();
    store.set(CredentialName::Username, "alice".to_string());
    let lines = store.forget();
    assert_eq!(lines, vec!["CI_USER deleted".to_string(), "CI_USER_PASSWORD not found".to_string()]);
    assert!(matches!(store.get(CredentialName::Username), Lookup::Missing));
}

#[test]
fn delete_reports_presence() {
    let mut store = MemoryStore::new();
    assert!(!store.delete(CredentialName::Password));
    store.set(CredentialName::Password, "x".to_string());
    assert!(store.delete(CredentialName::Password));
}

#[test]
fn policy_steps() {
    assert!(matches!(after_lookup(Lookup::Found("v".to_string())), Step::Use(ref v) if v == "v"));
    assert!(matches!(after_lookup(Lookup::Missing), Step::Ask));
    assert!(matches!(
        after_lookup(Lookup::Failed(keyring::Error::NoEntry)),
        Step::Fail(ResolveError::Store(_))
    ));
    assert!(matches!(check_input(Ok(String::new())), Err(ResolveError::EmptyInput)));
    assert!(matches!(check_input(Ok("x".to_string())), Ok(ref v) if v == "x"));
    assert!(matches!(
        after_store("x".to_string(), Err(keyring::Error::Invalid("a".to_string(), "b".to_string()))),
        Err(ResolveError::Store(_))
    ));
    assert!(matches!(after_store("x".to_string(), Ok(())), Ok(ref v) if v == "x"));
}

#[test]
fn os_store_round_trip() {
    let store = OsStore::with_namespace("unittest_nucr");
    let r = store.finish_resolve(CredentialName::Username, Ok("alice".to_string()));
    assert!(matches!(r, Ok(ref v) if v == "alice"));
    let empty = store.finish_resolve(CredentialName::Username, Ok(String::new()));
    assert!(matches!(empty, Err(ResolveError::EmptyInput)));
    let lines = store.forget();
    assert!(lines.is_ok());
}

#[test]
fn forget_outcome_from_deletions() {
    let lines = after_deletions(Ok(true), Ok(false)).ok().unwrap();
    assert_eq!(lines, vec!["CI_USER deleted".to_string(), "CI_USER_PASSWORD not found".to_string()]);
    assert!(matches!(after_deletions(Err(keyring::Error::NoEntry), Ok(true)), Err(keyring::Error::NoEntry)));
    assert!(matches!(
        after_deletions(Ok(true), Err(keyring::Error::Invalid("a".to_string(), "b".to_string()))),
        Err(keyring::Error::Invalid(_, _))
    ));
}
