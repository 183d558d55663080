use wellwon_desktop::token::{
    lock_perms, stored_token, token_delete_result, token_from_read, TokenRead, TokenRemove,
    OWNER_ONLY_MODE, TOKEN_FILE,
};

#[test]
fn token_file_name() {
    assert_eq!(TOKEN_FILE, "auth.dat");
}

#[test]
fn lock_perms_owner_only_on_unix() {
    assert_eq!(lock_perms(true), Some(0o600));
    assert_eq!(OWNER_ONLY_MODE, 0o600);
    assert_eq!(lock_perms(false), None);
}

#[test]
fn stored_token_trims() {
    assert_eq!(stored_token("  abc.def\n"), Some("abc.def".to_string()));
    assert_eq!(stored_token("abc"), Some("abc".to_string()));
}

#[test]
fn stored_token_blank_is_none() {
    assert_eq!(stored_token(""), None);
    assert_eq!(stored_token(" \n\t\u{a0}"), None);
}

#[test]
fn saved_token_reads_back() {
    let token = "eyJhbGciOiJIUzI1NiJ9.e30.sig";
    assert_eq!(stored_token(token).as_deref(), Some(token));
}

#[test]
fn read_token_stable_after_resave() {
    let first = stored_token("\n tok en \n").unwrap();
    assert_eq!(first, "tok en");
    assert_eq!(stored_token(&first), Some(first.clone()));
}

#[test]
fn token_from_read_cases() {
    assert_eq!(token_from_read(TokenRead::Contents(" t \n".to_string())), Ok(Some("t".to_string())));
    assert_eq!(token_from_read(TokenRead::Contents("   ".to_string())), Ok(None));
    assert_eq!(token_from_read(TokenRead::Missing), Ok(None));
    assert_eq!(
        token_from_read(TokenRead::Failed("read \"/x/auth.dat\": denied".to_string())),
        Err("read \"/x/auth.dat\": denied".to_string())
    );
}

#[test]
fn delete_missing_token_is_ok() {
    assert_eq!(token_delete_result(TokenRemove::Removed), Ok(()));
    assert_eq!(token_delete_result(TokenRemove::Missing), Ok(()));
    assert_eq!(
        token_delete_result(TokenRemove::Failed("remove: busy".to_string())),
        Err("remove: busy".to_string())
    );
}
