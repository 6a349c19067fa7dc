use trending_tui::auth::{AuthState, LoginField, LoginFormState, UserProfile};

const FIELDS: [LoginField; 7] = [
    LoginField::ApiKey,
    LoginField::Secret,
    LoginField::Passphrase,
    LoginField::Address,
    LoginField::SessionCookie,
    LoginField::SessionNonce,
    LoginField::SessionAuthType,
];

#[test]
fn login_fields_cycle_both_ways() {
    for i in 0..FIELDS.len() {
        assert_eq!(FIELDS[i].next(), FIELDS[(i + 1) % FIELDS.len()]);
        assert_eq!(FIELDS[(i + 1) % FIELDS.len()].prev(), FIELDS[i]);
    }
}

#[test]
fn a_new_form_is_empty_but_for_the_session_type() {
    let f = LoginFormState::new();
    assert_eq!(f.api_key, "");
    assert_eq!(f.secret, "");
    assert_eq!(f.passphrase, "");
    assert_eq!(f.address, "");
    assert_eq!(f.session_cookie, "");
    assert_eq!(f.session_nonce, "");
    assert_eq!(f.session_auth_type, "magic");
    assert_eq!(f.active_field, LoginField::ApiKey);
    assert!(f.error_message.is_none());
    assert!(!f.is_validating);
    assert_eq!(f.get_active_field_value(), "");
}

#[test]
fn typing_goes_to_the_active_field_only() {
    let mut f = LoginFormState::new();
    f.error_message = Some("bad".to_string());
    f.add_char('k');
    assert!(f.error_message.is_none());
    f.add_char('1');
    assert_eq!(f.api_key, "k1");
    assert_eq!(f.get_active_field_value(), "k1");
    for (i, field) in FIELDS.iter().enumerate() {
        f.active_field = *field;
        f.add_char(char::from(b'a' + i as u8));
    }
    assert_eq!(f.api_key, "k1a");
    assert_eq!(f.secret, "b");
    assert_eq!(f.passphrase, "c");
    assert_eq!(f.address, "d");
    assert_eq!(f.session_cookie, "e");
    assert_eq!(f.session_nonce, "f");
    assert_eq!(f.session_auth_type, "magicg");
    assert_eq!(f.get_active_field_value(), "magicg");
}

#[test]
fn deleting_removes_the_last_character_of_the_active_field() {
    let mut f = LoginFormState::new();
    f.delete_char();
    assert_eq!(f.api_key, "");
    f.add_char('a');
    f.add_char('é');
    f.error_message = Some("bad".to_string());
    f.delete_char();
    assert_eq!(f.api_key, "a");
    assert!(f.error_message.is_none());
    for field in FIELDS {
        f.active_field = field;
        f.add_char('x');
        f.add_char('y');
        f.delete_char();
    }
    assert_eq!(f.api_key, "ax");
    assert_eq!(f.secret, "x");
    assert_eq!(f.session_auth_type, "magicx");
    f.active_field = LoginField::SessionAuthType;
    for _ in 0..10 {
        f.delete_char();
    }
    assert_eq!(f.session_auth_type, "");
    assert_eq!(f.secret, "x");
}

#[test]
fn clearing_restores_the_fresh_form() {
    let mut f = LoginFormState::new();
    for field in FIELDS {
        f.active_field = field;
        f.add_char('z');
    }
    f.is_validating = true;
    f.error_message = Some("bad".to_string());
    f.clear();
    assert_eq!(f.api_key, "");
    assert_eq!(f.secret, "");
    assert_eq!(f.passphrase, "");
    assert_eq!(f.address, "");
    assert_eq!(f.session_cookie, "");
    assert_eq!(f.session_nonce, "");
    assert_eq!(f.session_auth_type, "magic");
    assert_eq!(f.active_field, LoginField::ApiKey);
    assert!(f.error_message.is_none());
    assert!(!f.is_validating);
}

#[test]
fn display_name_falls_back_to_address_and_unknown() {
    let mut a = AuthState::new();
    assert!(!a.is_authenticated);
    assert!(a.balance.is_none() && a.profile.is_none());
    assert_eq!(a.display_name(), "Unknown");
    a.address = Some("0xabc".to_string());
    assert_eq!(a.display_name(), "0xabc");
    a.username = Some("alice".to_string());
    assert_eq!(a.display_name(), "alice");
    a.address = None;
    assert_eq!(a.display_name(), "alice");
}

#[test]
fn default_profile_is_empty() {
    let p = UserProfile::default();
    assert!(p.name.is_none());
    assert!(p.pseudonym.is_none());
    assert!(p.bio.is_none());
    assert!(p.profile_image.is_none());
}
