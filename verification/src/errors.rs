//! Why a registration or a login was refused, and the texts shown for it.
use vstd::prelude::*;
use crate::user_maker::UserMaker;
use crate::users::User;

verus! {

/// Why a registration was refused; the lengths are in bytes.
#[derive(Debug, Clone, Copy, PartialEq, Eq)]
pub enum RegisterError {
    TooShortUsername(usize),
    TooLongUsername(usize),
    UsernameContainsWhiteSpace,
    TooShortPassword(usize),
    TooLongPassword(usize),
    PasswordContainsWhiteSpace,
}

/// The short reason of a refused registration, as written to the log.
pub open spec fn register_reason(e: RegisterError) -> Seq<char> {
    match e {
        RegisterError::TooShortUsername(_) => "short username"@,
        RegisterError::TooLongUsername(_) => "long username"@,
        RegisterError::UsernameContainsWhiteSpace => "username with whitespace"@,
        RegisterError::TooShortPassword(_) => "long password"@,
        RegisterError::TooLongPassword(_) => "short password"@,
        RegisterError::PasswordContainsWhiteSpace => "password with whitespace"@,
    }
}

/// The text shown to a visitor whose registration was refused.
pub open spec fn register_message(e: RegisterError) -> Seq<char> {
    match e {
        RegisterError::TooShortUsername(_) => "Nick musi mieć przynajmniej 4 znaki."@,
        RegisterError::TooLongUsername(_) => "Nick musi być krótszy niż 20 znaków."@,
        RegisterError::UsernameContainsWhiteSpace => "Nick nie może zawierać spacji"@,
        RegisterError::TooShortPassword(_) => "Hasło musi mieć przynajmniej 6 znaków."@,
        RegisterError::TooLongPassword(_) => "Hasło musi być krótsze niż 25 znaków."@,
        RegisterError::PasswordContainsWhiteSpace => "Hało nie może zawierać spacji."@,
    }
}

impl RegisterError {
    /// Creates an error for a username that is too short.
    pub fn too_short_username(length: usize) -> (r: RegisterError)
        ensures
            r == RegisterError::TooShortUsername(length),
    {
        RegisterError::TooShortUsername(length)
    }

    /// Creates an error for a username that is too long.
    pub fn too_long_username(length: usize) -> (r: RegisterError)
        ensures
            r == RegisterError::TooLongUsername(length),
    {
        RegisterError::TooLongUsername(length)
    }

    /// Creates an error for a username that contains whitespace.
    pub fn username_contains_whitespace() -> (r: RegisterError)
        ensures
            r == RegisterError::UsernameContainsWhiteSpace,
    {
        RegisterError::UsernameContainsWhiteSpace
    }

    /// Creates an error for a password that is too short.
    pub fn too_short_password(length: usize) -> (r: RegisterError)
        ensures
            r == RegisterError::TooShortPassword(length),
    {
        RegisterError::TooShortPassword(length)
    }

    /// Creates an error for a password that is too long.
    pub fn too_long_password(length: usize) -> (r: RegisterError)
        ensures
            r == RegisterError::TooLongPassword(length),
    {
        RegisterError::TooLongPassword(length)
    }

    /// Creates an error for a password that contains whitespace.
    pub fn password_contains_whitespace() -> (r: RegisterError)
        ensures
            r == RegisterError::PasswordContainsWhiteSpace,
    {
        RegisterError::PasswordContainsWhiteSpace
    }

    /// The short reason, as written to the log.
    pub fn get_reason<'b>(&self) -> (r: &'b str)
        ensures
            r@ == register_reason(*self),
    {
        match self {
            RegisterError::TooShortUsername(_) => "short username",
            RegisterError::TooLongUsername(_) => "long username",
            RegisterError::UsernameContainsWhiteSpace => "username with whitespace",
            RegisterError::TooShortPassword(_) => "long password",
            RegisterError::TooLongPassword(_) => "short password",
            RegisterError::PasswordContainsWhiteSpace => "password with whitespace",
        }
    }

    /// The text shown to the visitor.
    pub fn display_text(&self) -> (r: String)
        ensures
            r@ == register_message(*self),
    {
        match self {
            RegisterError::TooShortUsername(_) => String::from_str(
                "Nick musi mieć przynajmniej 4 znaki.",
            ),
            RegisterError::TooLongUsername(_) => String::from_str(
                "Nick musi być krótszy niż 20 znaków.",
            ),
            RegisterError::UsernameContainsWhiteSpace => String::from_str(
                "Nick nie może zawierać spacji",
            ),
            RegisterError::TooShortPassword(_) => String::from_str(
                "Hasło musi mieć przynajmniej 6 znaków.",
            ),
            RegisterError::TooLongPassword(_) => String::from_str(
                "Hasło musi być krótsze niż 25 znaków.",
            ),
            RegisterError::PasswordContainsWhiteSpace => String::from_str(
                "Hało nie może zawierać spacji.",
            ),
        }
    }
}

/// Why a login was refused: no account has the typed name, or the account
/// refuses the typed password.
#[derive(Debug)]
pub enum LoginError<'a> {
    UserDoesNotExist(&'a UserMaker<'a>),
    IncorrectPassword(User),
}

/// The short reason of a refused login.
pub open spec fn login_reason(e: LoginError) -> Seq<char> {
    match e {
        LoginError::UserDoesNotExist(_) => "user does not exist"@,
        LoginError::IncorrectPassword(_) => "incorrect password"@,
    }
}

/// The name that a refused login was tried with.
pub open spec fn login_username(e: LoginError) -> Seq<char> {
    match e {
        LoginError::UserDoesNotExist(m) => m.uname@,
        LoginError::IncorrectPassword(u) => u.Username@,
    }
}

/// The text shown to a visitor whose login was refused.
pub open spec fn login_message(e: LoginError) -> Seq<char> {
    match e {
        LoginError::UserDoesNotExist(m) => "Użytkownik o nicku "@ + m.uname@ + " nie istnieje."@,
        LoginError::IncorrectPassword(u) => "Podano nieprawidłowe hasło dlsa użytkownika "@
            + u.Username@ + "."@,
    }
}

impl<'a> LoginError<'a> {
    /// Creates a `UserDoesNotExist` error.
    pub fn user_does_not_exist(user_maker: &'a UserMaker<'_>) -> (r: Self)
        ensures
            r matches LoginError::UserDoesNotExist(m) && *m == *user_maker,
    {
        LoginError::UserDoesNotExist(user_maker)
    }

    /// Creates an `IncorrectPassword` error.
    pub fn incorrect_password(user: User) -> (r: Self)
        ensures
            r matches LoginError::IncorrectPassword(u) && u == user,
    {
        LoginError::IncorrectPassword(user)
    }

    /// The name that the login was tried with.
    pub fn get_username(&self) -> (r: String)
        ensures
            r@ == login_username(*self),
    {
        match self {
            LoginError::UserDoesNotExist(user_maker) => user_maker.uname.to_owned(),
            LoginError::IncorrectPassword(user) => user.Username.clone(),
        }
    }

    /// The short reason of the refusal.
    pub fn get_reason<'b>(&self) -> (r: &'b str)
        ensures
            r@ == login_reason(*self),
    {
        match self {
            LoginError::UserDoesNotExist(_) => "user does not exist",
            LoginError::IncorrectPassword(_) => "incorrect password",
        }
    }

    /// The text shown to the visitor.
    pub fn display_text(&self) -> (r: String)
        ensures
            r@ == login_message(*self),
    {
        match self {
            LoginError::UserDoesNotExist(user_maker) => {
                let mut r = String::from_str("Użytkownik o nicku ");
                r.append(user_maker.uname);
                r.append(" nie istnieje.");
                r
            },
            LoginError::IncorrectPassword(user) => {
                let mut r = String::from_str("Podano nieprawidłowe hasło dlsa użytkownika ");
                r.append(user.Username.as_str());
                r.append(".");
                r
            },
        }
    }
}

/// The text shown after a redirect that carries a login refusal: the reason
/// and the name it was given with. `None` for any other reason.
pub open spec fn reason_message(reason: Seq<char>, data: Option<Seq<char>>) -> Option<Seq<char>> {
    if reason == "user does not exist"@ {
        Some("Użytkownik o nicku <strong>"@ + data.unwrap() + "</strong> nie istnieje."@)
    } else if reason == "incorrect password"@ {
        Some("Podano nieprawidłowe hasło dla użytkownika <strong>"@ + data.unwrap()
            + "</strong>."@)
    } else {
        None
    }
}

/// The view of an optional string slice.
pub open spec fn opt_str_view(o: Option<&str>) -> Option<Seq<char>> {
    match o {
        None => None,
        Some(s) => Some(s@),
    }
}

/// The text for a login refusal carried by a redirect; the name must be
/// given for the two login reasons.
pub fn get_message_from_reason<'a>(reason: &'a str, data: Option<&'a str>) -> (r: Option<String>)
    requires
        reason@ == "user does not exist"@ || reason@ == "incorrect password"@ ==> data is Some,
    ensures
        match reason_message(reason@, opt_str_view(data)) {
            None => r is None,
            Some(m) => r matches Some(s) && s@ == m,
        },
{
    if crate::text::str_equal(reason, "user does not exist") {
        let mut r = String::from_str("Użytkownik o nicku <strong>");
        r.append(data.unwrap());
        r.append("</strong> nie istnieje.");
        Some(r)
    } else if crate::text::str_equal(reason, "incorrect password") {
        let mut r = String::from_str("Podano nieprawidłowe hasło dla użytkownika <strong>");
        r.append(data.unwrap());
        r.append("</strong>.");
        Some(r)
    } else {
        None
    }
}

} // verus!

verus! {

/// Every refused login can be told back after a redirect: its reason and
/// name give the text of the notice.
pub proof fn lemma_login_reason_has_message(e: LoginError)
    ensures
        reason_message(login_reason(e), Some(login_username(e))) == Some(
            match e {
                LoginError::UserDoesNotExist(_) => "Użytkownik o nicku <strong>"@ + login_username(e)
                    + "</strong> nie istnieje."@,
                LoginError::IncorrectPassword(_) => "Podano nieprawidłowe hasło dla użytkownika <strong>"@
                    + login_username(e) + "</strong>."@,
            },
        ),
{
    reveal_strlit("user does not exist");
    reveal_strlit("incorrect password");
    assert("incorrect password"@[0] != "user does not exist"@[0]);
}

/// No refused registration is mistaken for a refused login: its reason has
/// no login notice.
pub proof fn lemma_register_reason_has_no_message(e: RegisterError, data: Option<Seq<char>>)
    ensures
        reason_message(register_reason(e), data) is None,
{
    reveal_strlit("user does not exist");
    reveal_strlit("incorrect password");
    reveal_strlit("short username");
    reveal_strlit("long username");
    reveal_strlit("username with whitespace");
    reveal_strlit("long password");
    reveal_strlit("short password");
    reveal_strlit("password with whitespace");
    match e {
        RegisterError::TooShortUsername(_) => {
            assert("short username"@[0] != "user does not exist"@[0]);
            assert("short username"@[0] != "incorrect password"@[0]);
        },
        RegisterError::TooLongUsername(_) => {
            assert("long username"@[0] != "user does not exist"@[0]);
            assert("long username"@[0] != "incorrect password"@[0]);
        },
        RegisterError::UsernameContainsWhiteSpace => {
            assert("username with whitespace"@.len() != "user does not exist"@.len());
            assert("username with whitespace"@[0] != "incorrect password"@[0]);
        },
        RegisterError::TooShortPassword(_) => {
            assert("long password"@[0] != "user does not exist"@[0]);
            assert("long password"@[0] != "incorrect password"@[0]);
        },
        RegisterError::TooLongPassword(_) => {
            assert("short password"@[0] != "user does not exist"@[0]);
            assert("short password"@[0] != "incorrect password"@[0]);
        },
        RegisterError::PasswordContainsWhiteSpace => {
            assert("password with whitespace"@[0] != "user does not exist"@[0]);
            assert("password with whitespace"@[0] != "incorrect password"@[0]);
        },
    }
}

} // verus!
