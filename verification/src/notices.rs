//! The texts shown after the actions of the service succeed or fail.
use vstd::prelude::*;
use crate::users_files::{append_strong, strong};

verus! {

/// After a registration: the account was made.
pub fn user_created(username: &str) -> (r: String)
    ensures
        r@ == "Pomyślnie utworzono użytkownika "@ + strong(username@),
{
    let mut r = String::from_str("Pomyślnie utworzono użytkownika ");
    append_strong(&mut r, username);
    r
}

/// After a registration: the name is taken.
pub fn nick_taken(username: &str) -> (r: String)
    ensures
        r@ == "Nick "@ + strong(username@) + " jest już zajęty!"@,
{
    let mut r = String::from_str("Nick ");
    append_strong(&mut r, username);
    r.append(" jest już zajęty!");
    r
}

/// After an upload: the file was stored.
pub fn file_uploaded(filename: &str) -> (r: String)
    ensures
        r@ == "Plik "@ + strong(filename@) + " został przesłany!"@,
{
    let mut r = String::from_str("Plik ");
    append_strong(&mut r, filename);
    r.append(" został przesłany!");
    r
}

/// After sharing: the file is shared with the account.
pub fn file_shared(filename: &str, username: &str) -> (r: String)
    ensures
        r@ == "Udostępniono plik "@ + strong(filename@) + " użytkownikowi "@ + strong(username@),
{
    let mut r = String::from_str("Udostępniono plik ");
    append_strong(&mut r, filename);
    r.append(" użytkownikowi ");
    append_strong(&mut r, username);
    r
}

/// After unsharing: the file is no longer shared with the account.
pub fn sharing_stopped(filename: &str, username: &str) -> (r: String)
    ensures
        r@ == "Przestano udostępniać plik "@ + strong(filename@) + " użytkownikowi "@ + strong(
            username@,
        ),
{
    let mut r = String::from_str("Przestano udostępniać plik ");
    append_strong(&mut r, filename);
    r.append(" użytkownikowi ");
    append_strong(&mut r, username);
    r
}

} // verus!
