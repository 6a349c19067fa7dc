//! The login form and what is known of the signed-in user.

use vstd::prelude::*;
use crate::text::{string_clear, string_pop, string_push};

verus! {

/// The field of the login form that is being edited.
#[derive(Debug, Clone, Copy, PartialEq, Eq, Structural)]
pub enum LoginField {
    ApiKey,
    Secret,
    Passphrase,
    Address,
    SessionCookie,
    SessionNonce,
    SessionAuthType,
}

impl LoginField {
    /// The field below this one; the last is followed by the first.
    pub open spec fn successor(self) -> LoginField {
        match self {
            LoginField::ApiKey => LoginField::Secret,
            LoginField::Secret => LoginField::Passphrase,
            LoginField::Passphrase => LoginField::Address,
            LoginField::Address => LoginField::SessionCookie,
            LoginField::SessionCookie => LoginField::SessionNonce,
            LoginField::SessionNonce => LoginField::SessionAuthType,
            LoginField::SessionAuthType => LoginField::ApiKey,
        }
    }

    /// The field above this one; the first is preceded by the last.
    pub open spec fn predecessor(self) -> LoginField {
        match self {
            LoginField::ApiKey => LoginField::SessionAuthType,
            LoginField::Secret => LoginField::ApiKey,
            LoginField::Passphrase => LoginField::Secret,
            LoginField::Address => LoginField::Passphrase,
            LoginField::SessionCookie => LoginField::Address,
            LoginField::SessionNonce => LoginField::SessionCookie,
            LoginField::SessionAuthType => LoginField::SessionNonce,
        }
    }

    pub fn next(&self) -> (r: Self)
        ensures
            r == self.successor(),
    {
        match self {
            LoginField::ApiKey => LoginField::Secret,
            LoginField::Secret => LoginField::Passphrase,
            LoginField::Passphrase => LoginField::Address,
            LoginField::Address => LoginField::SessionCookie,
            LoginField::SessionCookie => LoginField::SessionNonce,
            LoginField::SessionNonce => LoginField::SessionAuthType,
            LoginField::SessionAuthType => LoginField::ApiKey,
        }
    }

    pub fn prev(&self) -> (r: Self)
        ensures
            r == self.predecessor(),
    {
        match self {
            LoginField::ApiKey => LoginField::SessionAuthType,
            LoginField::Secret => LoginField::ApiKey,
            LoginField::Passphrase => LoginField::Secret,
            LoginField::Address => LoginField::Passphrase,
            LoginField::SessionCookie => LoginField::Address,
            LoginField::SessionNonce => LoginField::SessionCookie,
            LoginField::SessionAuthType => LoginField::SessionNonce,
        }
    }

    /// Going down and then up, or up and then down, returns to the same
    /// field.
    pub proof fn lemma_fields_cycle(field: LoginField)
        ensures
            field.successor().predecessor() == field,
            field.predecessor().successor() == field,
    {
    }
}

/// The kind of session that a new form proposes.
pub open spec fn default_auth_type() -> Seq<char> {
    "magic"@
}

/// The texts of the login form.
#[derive(Debug, Clone)]
pub struct LoginFormState {
    pub api_key: String,
    pub secret: String,
    pub passphrase: String,
    pub address: String,
    pub session_cookie: String,
    pub session_nonce: String,
    pub session_auth_type: String,
    pub active_field: LoginField,
    pub error_message: Option<String>,
    pub is_validating: bool,
}

impl LoginFormState {
    /// The text of one field.
    pub open spec fn field_text(&self, field: LoginField) -> Seq<char> {
        match field {
            LoginField::ApiKey => self.api_key@,
            LoginField::Secret => self.secret@,
            LoginField::Passphrase => self.passphrase@,
            LoginField::Address => self.address@,
            LoginField::SessionCookie => self.session_cookie@,
            LoginField::SessionNonce => self.session_nonce@,
            LoginField::SessionAuthType => self.session_auth_type@,
        }
    }

    /// The form as it is first shown: every field empty but the kind of
    /// session, the first field active, no error, not validating.
    pub open spec fn is_fresh(&self) -> bool {
        &&& forall|f: LoginField|
            f != LoginField::SessionAuthType ==> #[trigger] self.field_text(f)
                == Seq::<char>::empty()
        &&& self.session_auth_type@ == default_auth_type()
        &&& self.active_field == LoginField::ApiKey
        &&& self.error_message is None
        &&& !self.is_validating
    }

    pub fn new() -> (r: Self)
        ensures
            r.is_fresh(),
    {
        LoginFormState {
            api_key: String::new(),
            secret: String::new(),
            passphrase: String::new(),
            address: String::new(),
            session_cookie: String::new(),
            session_nonce: String::new(),
            session_auth_type: "magic".to_owned(),
            active_field: LoginField::ApiKey,
            error_message: None,
            is_validating: false,
        }
    }

    /// The text of the field that is being edited.
    pub fn get_active_field_value(&self) -> (r: &str)
        ensures
            r@ == self.field_text(self.active_field),
    {
        match self.active_field {
            LoginField::ApiKey => self.api_key.as_str(),
            LoginField::Secret => self.secret.as_str(),
            LoginField::Passphrase => self.passphrase.as_str(),
            LoginField::Address => self.address.as_str(),
            LoginField::SessionCookie => self.session_cookie.as_str(),
            LoginField::SessionNonce => self.session_nonce.as_str(),
            LoginField::SessionAuthType => self.session_auth_type.as_str(),
        }
    }

    /// Appends a character to the field that is being edited and clears the
    /// error.
    pub fn add_char(&mut self, c: char)
        ensures
            final(self).field_text(old(self).active_field) == old(self).field_text(
                old(self).active_field,
            ).push(c),
            forall|f: LoginField|
                f != old(self).active_field ==> #[trigger] final(self).field_text(f) == old(self).field_text(f),
            final(self).active_field == old(self).active_field,
            final(self).error_message is None,
            final(self).is_validating == old(self).is_validating,
    {
        match self.active_field {
            LoginField::ApiKey => string_push(&mut self.api_key, c),
            LoginField::Secret => string_push(&mut self.secret, c),
            LoginField::Passphrase => string_push(&mut self.passphrase, c),
            LoginField::Address => string_push(&mut self.address, c),
            LoginField::SessionCookie => string_push(&mut self.session_cookie, c),
            LoginField::SessionNonce => string_push(&mut self.session_nonce, c),
            LoginField::SessionAuthType => string_push(&mut self.session_auth_type, c),
        }
        self.error_message = None;
    }

    /// Removes the last character of the field that is being edited, if it
    /// has one, and clears the error.
    pub fn delete_char(&mut self)
        ensures
            final(self).field_text(old(self).active_field) == (if old(self).field_text(
                old(self).active_field,
            ).len() > 0 {
                old(self).field_text(old(self).active_field).drop_last()
            } else {
                old(self).field_text(old(self).active_field)
            }),
            forall|f: LoginField|
                f != old(self).active_field ==> #[trigger] final(self).field_text(f) == old(self).field_text(f),
            final(self).active_field == old(self).active_field,
            final(self).error_message is None,
            final(self).is_validating == old(self).is_validating,
    {
        match self.active_field {
            LoginField::ApiKey => {
                string_pop(&mut self.api_key);
            },
            LoginField::Secret => {
                string_pop(&mut self.secret);
            },
            LoginField::Passphrase => {
                string_pop(&mut self.passphrase);
            },
            LoginField::Address => {
                string_pop(&mut self.address);
            },
            LoginField::SessionCookie => {
                string_pop(&mut self.session_cookie);
            },
            LoginField::SessionNonce => {
                string_pop(&mut self.session_nonce);
            },
            LoginField::SessionAuthType => {
                string_pop(&mut self.session_auth_type);
            },
        }
        self.error_message = None;
    }

    /// Puts the form back as it is first shown.
    pub fn clear(&mut self)
        ensures
            final(self).is_fresh(),
    {
        string_clear(&mut self.api_key);
        string_clear(&mut self.secret);
        string_clear(&mut self.passphrase);
        string_clear(&mut self.address);
        string_clear(&mut self.session_cookie);
        string_clear(&mut self.session_nonce);
        self.session_auth_type = "magic".to_owned();
        self.active_field = LoginField::ApiKey;
        self.error_message = None;
        self.is_validating = false;
    }
}

/// What the service tells of a user.
#[derive(Debug, Clone)]
pub struct UserProfile {
    pub name: Option<String>,
    pub pseudonym: Option<String>,
    pub bio: Option<String>,
    pub profile_image: Option<String>,
}

impl Default for UserProfile {
    fn default() -> (r: Self)
        ensures
            r.name is None,
            r.pseudonym is None,
            r.bio is None,
            r.profile_image is None,
    {
        UserProfile { name: None, pseudonym: None, bio: None, profile_image: None }
    }
}

/// Whether a user is signed in, and the account figures. Amounts are in
/// millionths of a dollar; a loss is negative.
#[derive(Debug, Clone)]
pub struct AuthState {
    pub is_authenticated: bool,
    pub username: Option<String>,
    pub address: Option<String>,
    pub balance: Option<u64>,
    pub portfolio_value: Option<u64>,
    pub positions_count: Option<usize>,
    pub unrealized_pnl: Option<i64>,
    pub realized_pnl: Option<i64>,
    pub profile: Option<UserProfile>,
}

impl AuthState {
    /// The name shown for the user: the user name, or the address where no
    /// user name is known, or "Unknown".
    pub open spec fn display_name_text(&self) -> Seq<char> {
        match self.username {
            Some(name) => name@,
            None => match self.address {
                Some(addr) => addr@,
                None => "Unknown"@,
            },
        }
    }

    pub fn new() -> (r: Self)
        ensures
            !r.is_authenticated,
            r.username is None,
            r.address is None,
            r.balance is None,
            r.portfolio_value is None,
            r.positions_count is None,
            r.unrealized_pnl is None,
            r.realized_pnl is None,
            r.profile is None,
    {
        AuthState {
            is_authenticated: false,
            username: None,
            address: None,
            balance: None,
            portfolio_value: None,
            positions_count: None,
            unrealized_pnl: None,
            realized_pnl: None,
            profile: None,
        }
    }

    /// The name shown for the user: see `display_name_text`.
    pub fn display_name(&self) -> (r: String)
        ensures
            r@ == self.display_name_text(),
    {
        match &self.username {
            Some(name) => name.clone(),
            None => match &self.address {
                Some(addr) => addr.clone(),
                None => "Unknown".to_owned(),
            },
        }
    }
}

} // verus!
