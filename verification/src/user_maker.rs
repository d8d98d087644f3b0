//! What a visitor types into the register and login forms, and what becomes
//! of it: the registration rules, the new account, and the password check.
use vstd::prelude::*;
use vstd::utf8::encode_utf8;
use crate::crypto::{derive_pbkdf2_hmac_sha512, pbkdf2_hmac_sha512, random_bytes, CREDENTIAL_LEN, PBKDF2_ITERATIONS};
use crate::encoding::{decode_hex_text, hex_decode_text, hex_upper, hexupper_encode, is_hex_upper_text};
use crate::errors::{LoginError, RegisterError};
use crate::text::{contains_white_space, has_white_space};
use crate::users::User;

verus! {

/// A name and a password as typed into a form.
#[derive(Clone, Copy, Debug)]
pub struct UserMaker<'a> {
    pub uname: &'a str,
    pub pwd: &'a str,
}

/// Length in bytes of a text, as `str::len` counts it (its UTF-8 length).
pub open spec fn byte_len(s: Seq<char>) -> usize {
    encode_utf8(s).len() as usize
}

/// The first registration rule that a name and a password break, in the
/// order the rules are checked; `None` when they keep every rule.
/// A name needs 4 to 19 bytes and no white space; a password 6 to 24 bytes
/// and no white space.
pub open spec fn registration_error(uname: Seq<char>, pwd: Seq<char>) -> Option<RegisterError> {
    if byte_len(uname) <= 3 {
        Some(RegisterError::TooShortUsername(byte_len(uname)))
    } else if byte_len(uname) >= 20 {
        Some(RegisterError::TooLongUsername(byte_len(uname)))
    } else if has_white_space(uname) {
        Some(RegisterError::UsernameContainsWhiteSpace)
    } else if byte_len(pwd) <= 5 {
        Some(RegisterError::TooShortPassword(byte_len(pwd)))
    } else if byte_len(pwd) >= 25 {
        Some(RegisterError::TooLongPassword(byte_len(pwd)))
    } else if has_white_space(pwd) {
        Some(RegisterError::PasswordContainsWhiteSpace)
    } else {
        None
    }
}

/// The stored hash of a password under a salt: PBKDF2-HMAC-SHA512 with
/// `PBKDF2_ITERATIONS` rounds over the UTF-8 bytes of the password,
/// `CREDENTIAL_LEN` bytes, in upper-case hexadecimal.
pub open spec fn password_hash(salt: Seq<u8>, pwd: Seq<char>) -> Seq<char> {
    hex_upper(pbkdf2_hmac_sha512(PBKDF2_ITERATIONS, salt, encode_utf8(pwd), CREDENTIAL_LEN))
}

/// Does a stored account accept this password? The salt is read back from
/// its hexadecimal text and the hash recomputed.
pub open spec fn password_accepted(user: User, pwd: Seq<char>) -> bool {
    user.Hash@ == password_hash(hex_decode_text(user.Salt@), pwd)
}

/// The account that registration makes of a name and a password with a salt.
pub open spec fn registered_as(u: User, uname: Seq<char>, pwd: Seq<char>, salt: Seq<u8>) -> bool {
    &&& u.id == 0
    &&& u.Username@ == uname
    &&& u.Hash@ == password_hash(salt, pwd)
    &&& u.Hash@.len() == 2 * CREDENTIAL_LEN
    &&& u.Salt@ == hex_upper(salt)
    &&& u.SessionID is None
}

/// The account stored for a name, a derived password hash and a salt: hash
/// and salt in upper-case hexadecimal, identifier 0, no session.
pub fn registered_user(uname: &str, hash: &[u8], salt: &[u8]) -> (r: User)
    requires
        hash@.len() <= usize::MAX / 512,
        salt@.len() <= usize::MAX / 512,
    ensures
        r.id == 0,
        r.Username@ == uname@,
        r.Hash@ == hex_upper(hash@),
        r.Salt@ == hex_upper(salt@),
        r.SessionID is None,
{
    let hash_text = hexupper_encode(hash);
    let salt_text = hexupper_encode(salt);
    User::new(uname.to_owned(), hash_text, salt_text, None)
}

/// Is the stored hash of the account the upper-case hexadecimal text of the
/// derived bytes?
pub fn hash_matches(user: &User, derived: &[u8]) -> (r: bool)
    requires
        derived@.len() <= usize::MAX / 512,
    ensures
        r == (user.Hash@ == hex_upper(derived@)),
{
    let hash_text = hexupper_encode(derived);
    user.Hash == hash_text
}

impl<'a> UserMaker<'a> {
    /// The password as typed.
    pub open spec fn password(&self) -> Seq<char> {
        self.pwd@
    }

    /// Makes the form contents of a name and a password.
    pub fn new(uname: &'a str, pwd: &'a str) -> (r: UserMaker<'a>)
        ensures
            r.uname == uname,
            r.password() == pwd@,
    {
        UserMaker { uname, pwd }
    }

    /// Checks the registration rules, in order: name length, white space in
    /// the name, password length, white space in the password.
    pub fn check_registration(&self) -> (r: Result<(), RegisterError>)
        ensures
            r == (match registration_error(self.uname@, self.password()) {
                Some(e) => Err(e),
                None => Ok(()),
            }),
    {
        let ulen = self.uname.len();
        let plen = self.pwd.len();
        if ulen <= 3 {
            return Err(RegisterError::too_short_username(ulen));
        } else if ulen >= 20 {
            return Err(RegisterError::too_long_username(ulen));
        } else if contains_white_space(self.uname) {
            return Err(RegisterError::username_contains_whitespace());
        } else if plen <= 5 {
            return Err(RegisterError::too_short_password(plen));
        } else if plen >= 25 {
            return Err(RegisterError::too_long_password(plen));
        } else if contains_white_space(self.pwd) {
            return Err(RegisterError::password_contains_whitespace());
        }
        Ok(())
    }

    /// Registers with the given salt: the rules are checked, then the account
    /// holds the name, the hash of the password under the salt and the salt,
    /// both in upper-case hexadecimal, and no session.
    pub fn create_user_with_salt(self, salt: &[u8]) -> (r: Result<User, RegisterError>)
        requires
            salt@.len() <= usize::MAX / 512,
        ensures
            match registration_error(self.uname@, self.password()) {
                Some(e) => r == Err::<User, RegisterError>(e),
                None => r matches Ok(u) && registered_as(u, self.uname@, self.password(), salt@),
            },
    {
        match self.check_registration() {
            Err(e) => Err(e),
            Ok(()) => {
                let hash = derive_pbkdf2_hmac_sha512(
                    PBKDF2_ITERATIONS,
                    salt,
                    self.pwd.as_bytes(),
                    CREDENTIAL_LEN,
                );
                Ok(registered_user(self.uname, hash.as_slice(), salt))
            },
        }
    }

    /// Registers with a fresh random salt of `CREDENTIAL_LEN` bytes.
    pub fn create_user(self) -> (r: Result<User, RegisterError>)
        ensures
            match registration_error(self.uname@, self.password()) {
                Some(e) => r == Err::<User, RegisterError>(e),
                None => r matches Ok(u) && exists|salt: Seq<u8>|
                    salt.len() == CREDENTIAL_LEN && registered_as(
                        u,
                        self.uname@,
                        self.password(),
                        salt,
                    ),
            },
    {
        match self.check_registration() {
            Err(e) => Err(e),
            Ok(()) => {
                let salt = random_bytes(CREDENTIAL_LEN);
                let ghost s = salt@;
                let r = self.create_user_with_salt(salt.as_slice());
                assert(r matches Ok(u) && registered_as(u, self.uname@, self.password(), s));
                r
            },
        }
    }

    /// Does the account accept the typed password? Its salt must be
    /// upper-case hexadecimal.
    pub fn matches(&self, other: &User) -> (r: bool)
        requires
            is_hex_upper_text(other.Salt@),
            encode_utf8(other.Salt@).len() <= usize::MAX / 8,
        ensures
            r == password_accepted(*other, self.password()),
    {
        let salt = decode_hex_text(other.Salt.as_str());
        match salt {
            Some(salt) => {
                let hash = derive_pbkdf2_hmac_sha512(
                    PBKDF2_ITERATIONS,
                    salt.as_slice(),
                    self.pwd.as_bytes(),
                    CREDENTIAL_LEN,
                );
                hash_matches(other, hash.as_slice())
            },
            None => false,
        }
    }

    /// The statement that reads the account with the typed name.
    pub fn login_query(&self) -> (r: String)
        ensures
            r@ == "SELECT * FROM Users WHERE Username='"@ + self.uname@ + "'"@,
    {
        let mut r = String::from_str("SELECT * FROM Users WHERE Username='");
        r.append(self.uname);
        r.append("'");
        r
    }

    /// The answer to a login, given the account that has the typed name, if
    /// any: that account when it accepts the password, else why not.
    pub fn check_user_login(&self, found: Option<User>) -> (r: Result<User, LoginError<'_>>)
        requires
            found matches Some(u) ==> is_hex_upper_text(u.Salt@) && encode_utf8(u.Salt@).len()
                <= usize::MAX / 8,
        ensures
            match found {
                None => r matches Err(LoginError::UserDoesNotExist(m)) && *m == *self,
                Some(u) => if password_accepted(u, self.password()) {
                    r == Ok::<User, LoginError>(u)
                } else {
                    r matches Err(LoginError::IncorrectPassword(v)) && v == u
                },
            },
    {
        match found {
            None => Err(LoginError::user_does_not_exist(self)),
            Some(u) => {
                if self.matches(&u) {
                    Ok(u)
                } else {
                    Err(LoginError::incorrect_password(u))
                }
            },
        }
    }
}

} // verus!

verus! {

/// What registration stores, the login check accepts: an account registered
/// with a password under any salt has an upper-case hexadecimal salt, short
/// enough for the check, and accepts that same password.
pub proof fn lemma_registered_password_accepted(
    u: User,
    uname: Seq<char>,
    pwd: Seq<char>,
    salt: Seq<u8>,
)
    requires
        registered_as(u, uname, pwd, salt),
        salt.len() == CREDENTIAL_LEN,
    ensures
        is_hex_upper_text(u.Salt@),
        encode_utf8(u.Salt@).len() <= usize::MAX / 8,
        password_accepted(u, pwd),
{
    crate::encoding::lemma_hex_roundtrip(salt);
    crate::encoding::lemma_hex_text_bytes(u.Salt@);
    assert(encode_utf8(u.Salt@).len() == 2 * CREDENTIAL_LEN);
}

/// An account registered with a password accepts exactly the passwords
/// from which PBKDF2 derives, under its salt, the same key.
pub proof fn lemma_accepted_iff_same_key(
    u: User,
    uname: Seq<char>,
    pwd: Seq<char>,
    salt: Seq<u8>,
    other: Seq<char>,
)
    requires
        registered_as(u, uname, pwd, salt),
    ensures
        password_accepted(u, other) <==> pbkdf2_hmac_sha512(
            PBKDF2_ITERATIONS,
            salt,
            encode_utf8(other),
            CREDENTIAL_LEN,
        ) == pbkdf2_hmac_sha512(PBKDF2_ITERATIONS, salt, encode_utf8(pwd), CREDENTIAL_LEN),
{
    crate::encoding::lemma_hex_roundtrip(salt);
    crate::encoding::lemma_hex_injective(
        pbkdf2_hmac_sha512(PBKDF2_ITERATIONS, salt, encode_utf8(other), CREDENTIAL_LEN),
        pbkdf2_hmac_sha512(PBKDF2_ITERATIONS, salt, encode_utf8(pwd), CREDENTIAL_LEN),
    );
}

/// The login check compares the stored hash alone: whatever identifier and
/// session the stored account has, it accepts a password exactly when the
/// stored hash is the upper-case hexadecimal text of the key that PBKDF2
/// derives from the password's UTF-8 bytes under the stored salt.
pub proof fn lemma_login_compares_stored_hash(
    u: User,
    id: i32,
    session: Option<String>,
    pwd: Seq<char>,
)
    ensures
        password_accepted(User { id: id, SessionID: session, ..u }, pwd) <==> u.Hash@ == hex_upper(
            pbkdf2_hmac_sha512(
                PBKDF2_ITERATIONS,
                hex_decode_text(u.Salt@),
                encode_utf8(pwd),
                CREDENTIAL_LEN,
            ),
        ),
{
}

/// A registered account keeps accepting its password once the database has
/// given it an identifier and a session.
pub proof fn lemma_stored_account_accepts_password(
    u: User,
    uname: Seq<char>,
    pwd: Seq<char>,
    salt: Seq<u8>,
    id: i32,
    session: Option<String>,
)
    requires
        registered_as(u, uname, pwd, salt),
        salt.len() == CREDENTIAL_LEN,
    ensures
        password_accepted(User { id: id, SessionID: session, ..u }, pwd),
        u.Hash@ == hex_upper(
            pbkdf2_hmac_sha512(PBKDF2_ITERATIONS, salt, encode_utf8(pwd), CREDENTIAL_LEN),
        ),
        u.Salt@ == hex_upper(salt),
{
    crate::encoding::lemma_hex_roundtrip(salt);
}

/// The registration rules, stated apart from their order: a name of 4 to 19
/// bytes and a password of 6 to 24 bytes, neither holding a white-space
/// character, are accepted, and nothing else is; each refusal names a rule
/// that is broken (a length refusal with the byte length).
pub proof fn lemma_registration_rules(uname: Seq<char>, pwd: Seq<char>)
    requires
        encode_utf8(uname).len() <= usize::MAX,
        encode_utf8(pwd).len() <= usize::MAX,
    ensures
        registration_error(uname, pwd) is None <==> (3 < encode_utf8(uname).len() < 20
            && !has_white_space(uname) && 5 < encode_utf8(pwd).len() < 25 && !has_white_space(
            pwd,
        )),
        registration_error(uname, pwd) matches Some(RegisterError::TooShortUsername(n)) ==> n
            == encode_utf8(uname).len() && n <= 3,
        registration_error(uname, pwd) matches Some(RegisterError::TooLongUsername(n)) ==> n
            == encode_utf8(uname).len() && n >= 20,
        registration_error(uname, pwd) == Some(RegisterError::UsernameContainsWhiteSpace)
            ==> has_white_space(uname),
        registration_error(uname, pwd) matches Some(RegisterError::TooShortPassword(n)) ==> n
            == encode_utf8(pwd).len() && n <= 5,
        registration_error(uname, pwd) matches Some(RegisterError::TooLongPassword(n)) ==> n
            == encode_utf8(pwd).len() && n >= 25,
        registration_error(uname, pwd) == Some(RegisterError::PasswordContainsWhiteSpace)
            ==> has_white_space(pwd),
{
}

} // verus!
