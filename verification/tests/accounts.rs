use mainframe::crypto::{CREDENTIAL_LEN, PBKDF2_ITERATIONS};
use mainframe::errors::{get_message_from_reason, LoginError, RegisterError};
use mainframe::sql::{Insertable, Queryable};
use mainframe::text::{char_is_white_space, contains_white_space, i32_to_decimal, str_equal};
use mainframe::user_maker::{hash_matches, registered_user, UserMaker};
use mainframe::users::{new_session_token, session_token_from, Fields, User, SESSION_TOKEN_BYTES};

fn expected_hash(salt: &[u8], pwd: &str) -> String {
    let mut out = [0u8; 64];
    ring::pbkdf2::derive(
        ring::pbkdf2::PBKDF2_HMAC_SHA512,
        std::num::NonZeroU32::new(100_000).unwrap(),
        salt,
        pwd.as_bytes(),
        &mut out,
    );
    data_encoding::HEXUPPER.encode(&out)
}

#[test]
fn decimal_text_of_integers() {
    assert_eq!(i32_to_decimal(0), "0");
    assert_eq!(i32_to_decimal(7), "7");
    assert_eq!(i32_to_decimal(-45), "-45");
    assert_eq!(i32_to_decimal(1000), "1000");
    assert_eq!(i32_to_decimal(i32::MAX), i32::MAX.to_string());
    assert_eq!(i32_to_decimal(i32::MIN), i32::MIN.to_string());
}

#[test]
fn white_space_is_unicode_white_space() {
    for c in ['\t', '\n', '\u{0B}', '\u{0C}', '\r', ' ', '\u{85}', '\u{A0}', '\u{1680}', '\u{2000}', '\u{200A}', '\u{2028}', '\u{2029}', '\u{202F}', '\u{205F}', '\u{3000}'] {
        assert!(char_is_white_space(c), "{:?}", c);
    }
    for c in ['a', '0', '_', '\u{200B}', '\u{FEFF}', 'ł', '\u{7F}'] {
        assert!(!char_is_white_space(c), "{:?}", c);
    }
    for v in 0u32..0x3100 {
        if let Some(c) = char::from_u32(v) {
            assert_eq!(char_is_white_space(c), c.is_whitespace(), "{:#x}", v);
        }
    }
    assert!(contains_white_space("ab cd"));
    assert!(contains_white_space("ab\u{3000}"));
    assert!(!contains_white_space("abcd"));
    assert!(!contains_white_space(""));
}

#[test]
fn string_slices_compare_by_characters() {
    assert!(str_equal("abc", "abc"));
    assert!(!str_equal("abc", "abd"));
    assert!(!str_equal("abc", "ab"));
}

#[test]
fn registration_rules_in_order() {
    assert_eq!(UserMaker::new("abc", "secret1").check_registration(), Err(RegisterError::TooShortUsername(3)));
    assert_eq!(UserMaker::new("", "").check_registration(), Err(RegisterError::TooShortUsername(0)));
    assert_eq!(UserMaker::new("abcd", "secret1").check_registration(), Ok(()));
    assert_eq!(UserMaker::new("abcdefghijklmnopqrs", "secret1").check_registration(), Ok(()));
    assert_eq!(UserMaker::new("abcdefghijklmnopqrst", "secret1").check_registration(), Err(RegisterError::TooLongUsername(20)));
    assert_eq!(UserMaker::new("ab cd", "secret1").check_registration(), Err(RegisterError::UsernameContainsWhiteSpace));
    assert_eq!(UserMaker::new("alice", "12345").check_registration(), Err(RegisterError::TooShortPassword(5)));
    assert_eq!(UserMaker::new("alice", "123456").check_registration(), Ok(()));
    assert_eq!(UserMaker::new("alice", "123456789012345678901234").check_registration(), Ok(()));
    assert_eq!(UserMaker::new("alice", "1234567890123456789012345").check_registration(), Err(RegisterError::TooLongPassword(25)));
    assert_eq!(UserMaker::new("alice", "secret 12").check_registration(), Err(RegisterError::PasswordContainsWhiteSpace));
    // the name is checked before the password
    assert_eq!(UserMaker::new("a b", "x").check_registration(), Err(RegisterError::TooShortUsername(3)));
}

#[test]
fn lengths_are_counted_in_bytes() {
    // "łąka" is four characters and seven bytes
    assert_eq!(UserMaker::new("łąk", "secret1").check_registration(), Ok(()));
    assert_eq!(UserMaker::new("żż", "secret1").check_registration(), Ok(()));
    assert_eq!(UserMaker::new("ż", "secret1").check_registration(), Err(RegisterError::TooShortUsername(2)));
    assert_eq!(UserMaker::new("alice", "ąęść").check_registration(), Ok(()));
}

#[test]
fn registration_with_a_salt() {
    let salt: Vec<u8> = (0u8..64).collect();
    let u = UserMaker::new("alice", "secret1").create_user_with_salt(&salt).unwrap();
    assert_eq!(u.id, 0);
    assert_eq!(u.Username, "alice");
    assert_eq!(u.Salt, data_encoding::HEXUPPER.encode(&salt));
    assert_eq!(u.Hash, expected_hash(&salt, "secret1"));
    assert_eq!(u.Hash.len(), 128);
    assert!(u.SessionID.is_none());
    let e = UserMaker::new("al", "secret1").create_user_with_salt(&salt);
    assert!(matches!(e, Err(RegisterError::TooShortUsername(2))));
}

#[test]
fn registered_password_is_accepted() {
    let u = UserMaker::new("alice", "secret1").create_user().unwrap();
    assert_eq!(u.Salt.len(), 2 * CREDENTIAL_LEN);
    assert!(u.Salt.chars().all(|c| c.is_ascii_digit() || ('A'..='F').contains(&c)));
    assert!(UserMaker::new("alice", "secret1").matches(&u));
    assert!(UserMaker::new("someone", "secret1").matches(&u));
    assert!(!UserMaker::new("alice", "secret2").matches(&u));
    let salt = data_encoding::HEXUPPER.decode(u.Salt.as_bytes()).unwrap();
    assert_eq!(u.Hash, expected_hash(&salt, "secret1"));
    assert_eq!(PBKDF2_ITERATIONS, 100_000);
}

#[test]
fn two_registrations_get_different_salts() {
    let a = UserMaker::new("alice", "secret1").create_user().unwrap();
    let b = UserMaker::new("alice", "secret1").create_user().unwrap();
    assert_ne!(a.Salt, b.Salt);
    assert_ne!(a.Hash, b.Hash);
}

#[test]
fn login_outcomes() {
    let form = UserMaker::new("alice", "secret1");
    match form.check_user_login(None) {
        Err(LoginError::UserDoesNotExist(m)) => assert_eq!(m.uname, "alice"),
        _ => panic!("expected a missing user"),
    }
    let u = UserMaker::new("alice", "secret1").create_user_with_salt(&[7u8; 64]).unwrap();
    let ok = form.check_user_login(Some(u)).unwrap();
    assert_eq!(ok.Username, "alice");
    let u = UserMaker::new("alice", "other12").create_user_with_salt(&[7u8; 64]).unwrap();
    match form.check_user_login(Some(u)) {
        Err(e @ LoginError::IncorrectPassword(_)) => {
            assert_eq!(e.get_reason(), "incorrect password");
            assert_eq!(e.get_username(), "alice");
            assert_eq!(e.display_text(), "Podano nieprawidłowe hasło dlsa użytkownika alice.");
        }
        _ => panic!("expected a refused password"),
    }
    assert_eq!(form.login_query(), "SELECT * FROM Users WHERE Username='alice'");
}

#[test]
fn login_error_texts() {
    let form = UserMaker::new("bob1", "secret1");
    let e = LoginError::user_does_not_exist(&form);
    assert_eq!(e.get_reason(), "user does not exist");
    assert_eq!(e.get_username(), "bob1");
    assert_eq!(e.display_text(), "Użytkownik o nicku bob1 nie istnieje.");
    let msg = get_message_from_reason(e.get_reason(), Some(&e.get_username()));
    assert_eq!(msg.unwrap(), "Użytkownik o nicku <strong>bob1</strong> nie istnieje.");
}

#[test]
fn register_error_reasons_and_texts() {
    let all = [
        (RegisterError::too_short_username(3), "short username", "Nick musi mieć przynajmniej 4 znaki."),
        (RegisterError::too_long_username(20), "long username", "Nick musi być krótszy niż 20 znaków."),
        (RegisterError::username_contains_whitespace(), "username with whitespace", "Nick nie może zawierać spacji"),
        (RegisterError::too_short_password(5), "long password", "Hasło musi mieć przynajmniej 6 znaków."),
        (RegisterError::too_long_password(25), "short password", "Hasło musi być krótsze niż 25 znaków."),
        (RegisterError::password_contains_whitespace(), "password with whitespace", "Hało nie może zawierać spacji."),
    ];
    for (e, reason, text) in all {
        assert_eq!(e.get_reason(), reason);
        assert_eq!(e.display_text(), text);
        assert_eq!(get_message_from_reason(e.get_reason(), Some("x")), None);
        assert_eq!(get_message_from_reason(e.get_reason(), None), None);
    }
    assert_eq!(RegisterError::too_short_username(3), RegisterError::TooShortUsername(3));
}

#[test]
fn messages_from_reasons() {
    assert_eq!(
        get_message_from_reason("incorrect password", Some("ann")).unwrap(),
        "Podano nieprawidłowe hasło dla użytkownika <strong>ann</strong>."
    );
    assert_eq!(get_message_from_reason("error", Some("ann")), None);
    assert_eq!(get_message_from_reason("", None), None);
}

#[test]
fn user_statements() {
    let mut u = User::new("alice".to_string(), "AB".to_string(), "CD".to_string(), None);
    u.id = 5;
    assert_eq!(u.get_table(), "Users");
    assert_eq!(u.display_text(), "alice");
    assert_eq!(u.sql_types_string(Fields::id), "5");
    assert_eq!(u.sql_types_string(Fields::Username), "'alice'");
    assert_eq!(u.sql_types_string(Fields::SessionID), "NULL");
    assert_eq!(u.sql_type_id(), "5");
    assert_eq!(u.get_fields(), vec!["Username", "Hash", "Salt", "SessionID"]);
    assert_eq!(
        u.get_insert_string().unwrap(),
        "INSERT INTO Users (Username, Hash, Salt, SessionID) VALUES ('alice','AB','CD',NULL) RETURNING *"
    );
    assert_eq!(
        u.get_update_string().unwrap(),
        "UPDATE Users SET Username='alice', Hash='AB', Salt='CD', SessionID=NULL WHERE ID = 5 RETURNING *"
    );
    assert_eq!(User::select_one_query(5), "SELECT * FROM Users WHERE ID = 5");
    assert_eq!(User::select_all_query(), "SELECT * FROM Users");
    assert_eq!(u.file_query(9), "SELECT F.* FROM Files AS F JOIN Users AS U ON F.UserID=U.ID WHERE U.ID=5 AND F.ID=9");
    assert_eq!(User::session_query("ABC"), "SELECT * FROM Users WHERE SessionID='ABC'");
}

#[test]
fn sessions_start_and_end() {
    let mut u = User::new("alice".to_string(), "AB".to_string(), "CD".to_string(), None);
    let token = u.create_new_session();
    assert_eq!(token.len(), 2 * SESSION_TOKEN_BYTES);
    assert!(token.chars().all(|c| c.is_ascii_digit() || ('A'..='F').contains(&c)));
    assert_eq!(u.session_id(), Some(token.clone()));
    assert_eq!(u.sql_types_string(Fields::SessionID), format!("'{}'", token));
    u.clear_session();
    assert_eq!(u.session_id(), None);
    assert_ne!(new_session_token(), new_session_token());
}

#[test]
fn same_user_compares_every_column() {
    let a = User::new("alice".to_string(), "AB".to_string(), "CD".to_string(), None);
    let b = User::new("alice".to_string(), "AB".to_string(), "CD".to_string(), None);
    let c = User::new("alice".to_string(), "AB".to_string(), "CD".to_string(), Some("X".to_string()));
    assert!(a.same_user(&b));
    assert!(!a.same_user(&c));
}

#[test]
fn stored_account_of_derived_bytes() {
    let u = registered_user("ann1", &[0x00, 0xAB, 0x10], &[0xFF, 0x01]);
    assert_eq!((u.id, u.Username.as_str(), u.Hash.as_str(), u.Salt.as_str()), (0, "ann1", "00AB10", "FF01"));
    assert!(u.session_id().is_none());
    assert!(hash_matches(&u, &[0x00, 0xAB, 0x10]));
    assert!(!hash_matches(&u, &[0x00, 0xAB, 0x11]));
    assert!(!hash_matches(&u, &[]));
}

#[test]
fn stored_hash_and_salt_have_fixed_length() {
    let u = UserMaker::new("alice", "secret1").create_user().unwrap();
    assert_eq!(u.Hash.len(), 2 * CREDENTIAL_LEN);
    assert_eq!(u.Salt.len(), 2 * CREDENTIAL_LEN);
    assert!(u.Hash.chars().all(|c| c.is_ascii_digit() || ('A'..='F').contains(&c)));
}

#[test]
fn column_texts_by_name() {
    let u = User::new("bob".to_string(), "H1".to_string(), "S1".to_string(), None);
    let m = u.sql_types_map(vec!["Username".to_string(), "SessionID".to_string(), "Other".to_string(), "Hash".to_string(), "Salt".to_string(), "Username".to_string()]);
    let got: std::collections::HashMap<String, String> = m.iter().cloned().collect();
    assert_eq!(m.len(), 5);
    assert_eq!(got["Username"], "'bob'");
    assert_eq!(got["SessionID"], "NULL");
    assert_eq!(got["Other"], "");
    assert_eq!(got["Hash"], "'H1'");
    assert_eq!(got["Salt"], "'S1'");
    assert!(u.sql_types_map(vec![]).is_empty());
    assert_eq!(u.named_field_string("id"), "");
}

#[test]
fn session_token_of_drawn_bytes() {
    assert_eq!(session_token_from(&[0x00, 0x9F, 0xA0, 0xFF]), "009FA0FF");
    assert_eq!(session_token_from(&[0u8; 127]).len(), 254);
}
