use active_lock::config::{
    check_new_password, hash_password, password_home_dir, select_mode, select_password_hash,
    verify_password, PasswordEntryError, RunMode, DEFAULT_HASH, ERROR_FLASH_FRAMES,
    FOCUS_POLL_MS,
};

#[test]
fn default_password_is_unlock() {
    assert!(verify_password("unlock", DEFAULT_HASH));
}

#[test]
fn wrong_password_is_refused() {
    assert!(!verify_password("Unlock", DEFAULT_HASH));
    assert!(!verify_password("", DEFAULT_HASH));
    assert!(!verify_password(DEFAULT_HASH, DEFAULT_HASH));
}

#[test]
fn malformed_hash_accepts_nothing() {
    assert!(!verify_password("unlock", ""));
    assert!(!verify_password("unlock", "not a bcrypt hash"));
    assert!(!verify_password("", ""));
}

#[test]
fn known_hash_from_other_tools_verifies() {
    let hash = "$2b$04$EGdrhbKUv8Oc9vGiXX0HQOxSg445d458Muh7DAHskb6QbtCvdxcie";
    assert!(verify_password("correctbatteryhorsestapler", hash));
    assert!(!verify_password("wrong", hash));
}

#[test]
fn new_password_hash_accepts_the_password() {
    let h = hash_password("hunter2").unwrap();
    assert_eq!(h.len(), 60);
    assert_ne!(h, "hunter2");
    assert!(h.starts_with("$2b$12$"));
    assert!(verify_password("hunter2", &h));
    assert!(!verify_password("hunter3", &h));
}

#[test]
fn hashing_twice_draws_fresh_salts() {
    let a = hash_password("same").unwrap();
    let b = hash_password("same").unwrap();
    assert_ne!(a, b);
    assert!(verify_password("same", &a));
    assert!(verify_password("same", &b));
}

#[test]
fn stored_hash_is_trimmed() {
    let stored = format!("  {}\n", DEFAULT_HASH);
    assert_eq!(select_password_hash(Some(&stored)), DEFAULT_HASH);
    let other = "$2b$04$EGdrhbKUv8Oc9vGiXX0HQOxSg445d458Muh7DAHskb6QbtCvdxcie";
    assert_eq!(select_password_hash(Some(&format!("\t{}\r\n", other))), other);
}

#[test]
fn missing_or_blank_file_falls_back_to_default() {
    assert_eq!(select_password_hash(None), DEFAULT_HASH);
    assert_eq!(select_password_hash(Some("")), DEFAULT_HASH);
    assert_eq!(select_password_hash(Some(" \n\t \u{3000}")), DEFAULT_HASH);
}

#[test]
fn home_prefers_home_over_user_profile() {
    assert_eq!(
        password_home_dir(Some("/home/a".to_string()), Some("C:\\Users\\a".to_string())),
        Some("/home/a".to_string())
    );
    assert_eq!(
        password_home_dir(None, Some("C:\\Users\\a".to_string())),
        Some("C:\\Users\\a".to_string())
    );
    assert_eq!(password_home_dir(None, None), None);
}

#[test]
fn new_password_checks() {
    assert_eq!(check_new_password("", ""), Err(PasswordEntryError::Empty));
    assert_eq!(check_new_password("", "x"), Err(PasswordEntryError::Empty));
    assert_eq!(check_new_password("abc", "abd"), Err(PasswordEntryError::Mismatch));
    assert_eq!(check_new_password("abc", "abc"), Ok(()));
    assert_eq!(PasswordEntryError::Empty.message(), "Password cannot be empty.");
    assert_eq!(PasswordEntryError::Mismatch.message(), "Passwords do not match.");
}

#[test]
fn run_mode_from_arguments() {
    let args = |v: &[&str]| v.iter().map(|s| s.to_string()).collect::<Vec<String>>();
    assert_eq!(select_mode(&args(&["active-lock"])), RunMode::Lock);
    assert_eq!(select_mode(&args(&["active-lock", "--reset"])), RunMode::Reset);
    assert_eq!(select_mode(&args(&["active-lock", "--set-password"])), RunMode::SetPassword);
    assert_eq!(
        select_mode(&args(&["active-lock", "--reset", "--set-password"])),
        RunMode::SetPassword
    );
    assert_eq!(select_mode(&args(&["active-lock", "--resetx"])), RunMode::Lock);
    assert_eq!(select_mode(&args(&[])), RunMode::Lock);
}

#[test]
fn constants() {
    assert_eq!(FOCUS_POLL_MS, 500);
    assert_eq!(ERROR_FLASH_FRAMES, 30);
}

#[test]
fn stored_new_password_is_in_force_and_unlocks() {
    let h = hash_password("s3cret pass").unwrap();
    assert!(h.chars().all(|c| ('!'..='~').contains(&c)));
    let file = format!("{}\n", h);
    let in_force = select_password_hash(Some(&file));
    assert_eq!(in_force, h);
    assert!(verify_password("s3cret pass", &in_force));
    assert!(!verify_password("unlock", &in_force));
}
