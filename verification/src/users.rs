//! Accounts: a row of the `Users` table and the statements about it.
use vstd::prelude::*;
use crate::crypto::random_bytes;
use crate::encoding::{hex_upper, hexupper_encode, is_hex_upper_text};
use crate::sql::{
    assignment, assignment_text, insert_statement, insert_statement_text, option_view,
    select_all_statement, select_all_text, select_one_statement, select_one_text, sql_optional,
    sql_optional_text, sql_quote, sql_quoted, update_statement, update_statement_text, views,
    Dialect, Insertable, Queryable,
};
use crate::text::{decimal, i32_to_decimal, str_equal};

verus! {

/// Number of random bytes in a session token.
pub const SESSION_TOKEN_BYTES: usize = 127;

/// An account: its identifier, name, password hash, salt (both upper-case
/// hexadecimal) and the token of its current session, if it is logged in.
#[derive(Debug)]
pub struct User {
    pub id: i32,
    pub Username: String,
    pub Hash: String,
    pub Salt: String,
    pub SessionID: Option<String>,
}

/// The columns of the `Users` table.
#[derive(Debug, Clone, Copy, PartialEq, Eq)]
pub enum Fields {
    id,
    Username,
    Hash,
    Salt,
    SessionID,
}

/// The names of the stored columns of `Users`, identifier left out.
pub open spec fn user_columns() -> Seq<Seq<char>> {
    seq!["Username"@, "Hash"@, "Salt"@, "SessionID"@]
}

/// Upper-case hexadecimal text of some `SESSION_TOKEN_BYTES` bytes.
pub open spec fn is_session_token(t: Seq<char>) -> bool {
    exists|b: Seq<u8>| b.len() == SESSION_TOKEN_BYTES && t == hex_upper(b)
}

/// A fresh session token: `SESSION_TOKEN_BYTES` random bytes in upper-case
/// hexadecimal.
pub fn new_session_token() -> (r: String)
    ensures
        is_session_token(r@),
        r@.len() == 2 * SESSION_TOKEN_BYTES,
        is_hex_upper_text(r@),
{
    let bytes = random_bytes(SESSION_TOKEN_BYTES);
    let r = session_token_from(bytes.as_slice());
    proof {
        crate::encoding::lemma_hex_roundtrip(bytes@);
    }
    r
}

/// The session token made of drawn bytes: their upper-case hexadecimal text.
pub fn session_token_from(bytes: &[u8]) -> (r: String)
    requires
        bytes@.len() <= usize::MAX / 512,
    ensures
        r@ == hex_upper(bytes@),
{
    hexupper_encode(bytes)
}

impl User {
    /// The current session token.
    pub open spec fn session(&self) -> Option<Seq<char>> {
        option_view(self.SessionID)
    }

    /// The SQL text of one column of this user.
    pub open spec fn field_text(&self, field: Fields) -> Seq<char> {
        match field {
            Fields::id => decimal(self.id as int),
            Fields::Username => sql_quoted(self.Username@),
            Fields::Hash => sql_quoted(self.Hash@),
            Fields::Salt => sql_quoted(self.Salt@),
            Fields::SessionID => sql_optional(self.session()),
        }
    }

    /// The SQL values of the stored columns, in the order of `user_columns`.
    pub open spec fn column_values(&self) -> Seq<Seq<char>> {
        seq![
            self.field_text(Fields::Username),
            self.field_text(Fields::Hash),
            self.field_text(Fields::Salt),
            self.field_text(Fields::SessionID),
        ]
    }

    /// A user not stored yet (identifier 0).
    pub fn new(Username: String, Hash: String, Salt: String, SessionID: Option<String>) -> (r:
        User)
        ensures
            r.id == 0,
            r.Username == Username,
            r.Hash == Hash,
            r.Salt == Salt,
            r.session() == option_view(SessionID),
    {
        User { id: 0, Username, Hash, Salt, SessionID }
    }

    /// The name of the table that holds users.
    pub fn get_table(&self) -> (r: String)
        ensures
            r@ == "Users"@,
    {
        String::from_str("Users")
    }

    /// The token of the current session.
    pub fn session_id(&self) -> (r: Option<String>)
        ensures
            option_view(r) == self.session(),
    {
        match &self.SessionID {
            None => None,
            Some(s) => Some(s.clone()),
        }
    }

    /// Starts a new session: a fresh token is stored in the user and returned,
    /// to be saved in the database and in the browser's cookie.
    pub fn create_new_session(&mut self) -> (r: String)
        ensures
            is_session_token(r@),
            r@.len() == 2 * SESSION_TOKEN_BYTES,
            is_hex_upper_text(r@),
            final(self).session() == Some(r@),
            final(self).id == old(self).id,
            final(self).Username == old(self).Username,
            final(self).Hash == old(self).Hash,
            final(self).Salt == old(self).Salt,
    {
        let token = new_session_token();
        self.SessionID = Some(token.clone());
        token
    }

    /// Ends the current session.
    pub fn clear_session(&mut self)
        ensures
            final(self).session() == None::<Seq<char>>,
            final(self).id == old(self).id,
            final(self).Username == old(self).Username,
            final(self).Hash == old(self).Hash,
            final(self).Salt == old(self).Salt,
    {
        self.SessionID = None;
    }

    /// How a user is shown: its name.
    pub fn display_text(&self) -> (r: String)
        ensures
            r@ == self.Username@,
    {
        self.Username.clone()
    }

    /// Are the two users the same in every column?
    pub fn same_user(&self, other: &User) -> (r: bool)
        ensures
            r == (self.id == other.id && self.Username@ == other.Username@ && self.Hash@
                == other.Hash@ && self.Salt@ == other.Salt@ && self.session() == other.session()),
    {
        let s = match (&self.SessionID, &other.SessionID) {
            (None, None) => true,
            (Some(a), Some(b)) => *a == *b,
            _ => false,
        };
        self.id == other.id && self.Username == other.Username && self.Hash == other.Hash
            && self.Salt == other.Salt && s
    }

    /// The statement that reads the user whose session token is given.
    pub fn session_query(session_id: &str) -> (r: String)
        ensures
            r@ == "SELECT * FROM Users WHERE SessionID='"@ + session_id@ + "'"@,
    {
        let mut r = String::from_str("SELECT * FROM Users WHERE SessionID='");
        r.append(session_id);
        r.append("'");
        r
    }

    /// The statement that reads one of this user's files.
    pub fn file_query(&self, file_id: i32) -> (r: String)
        ensures
            r@ == "SELECT F.* FROM Files AS F JOIN Users AS U ON F.UserID=U.ID WHERE U.ID="@
                + decimal(self.id as int) + " AND F.ID="@ + decimal(file_id as int),
    {
        let mut r = String::from_str(
            "SELECT F.* FROM Files AS F JOIN Users AS U ON F.UserID=U.ID WHERE U.ID=",
        );
        r.append(i32_to_decimal(self.id).as_str());
        r.append(" AND F.ID=");
        r.append(i32_to_decimal(file_id).as_str());
        r
    }

    /// The statement that reads a user by identifier.
    pub fn select_one_query(id: i32) -> (r: String)
        ensures
            r@ == select_one_text("Users"@, "ID"@, decimal(id as int)),
    {
        select_one_statement("Users", "ID", i32_to_decimal(id).as_str())
    }

    /// The statement that reads every user.
    pub fn select_all_query() -> (r: String)
        ensures
            r@ == select_all_text("Users"@),
    {
        select_all_statement("Users")
    }
}

/// The names of a list of name-text pairs.
pub open spec fn pair_names(r: Seq<(String, String)>) -> Seq<Seq<char>> {
    r.map_values(|p: (String, String)| p.0@)
}

impl User {
    /// The SQL text of the column with the given name; an empty text for a
    /// name that is not a column of `Users` (the identifier included).
    pub open spec fn named_field_text(&self, name: Seq<char>) -> Seq<char> {
        if name == "Username"@ {
            self.field_text(Fields::Username)
        } else if name == "Hash"@ {
            self.field_text(Fields::Hash)
        } else if name == "Salt"@ {
            self.field_text(Fields::Salt)
        } else if name == "SessionID"@ {
            self.field_text(Fields::SessionID)
        } else {
            ""@
        }
    }

    /// The SQL text of the column with the given name.
    pub fn named_field_string(&self, name: &str) -> (r: String)
        ensures
            r@ == self.named_field_text(name@),
    {
        if str_equal(name, "Username") {
            sql_quote(self.Username.as_str())
        } else if str_equal(name, "Hash") {
            sql_quote(self.Hash.as_str())
        } else if str_equal(name, "Salt") {
            sql_quote(self.Salt.as_str())
        } else if str_equal(name, "SessionID") {
            sql_optional_text(&self.SessionID)
        } else {
            proof {
                reveal_strlit("");
            }
            String::new()
        }
    }

    /// The SQL texts of the named columns, as a map from name to text: each
    /// name given appears once, with its text (empty for a name that is not
    /// a column).
    pub fn sql_types_map(&self, fields: Vec<String>) -> (r: Vec<(String, String)>)
        ensures
            pair_names(r@).no_duplicates(),
            forall|k: Seq<char>| pair_names(r@).contains(k) <==> views(fields@).contains(k),
            forall|a: int| 0 <= a < r@.len() ==> #[trigger] r@[a].1@ == self.named_field_text(r@[a].0@),
    {
        let mut r: Vec<(String, String)> = Vec::new();
        let n = fields.len();
        let mut i: usize = 0;
        while i < n
            invariant
                n == fields@.len(),
                i <= n,
                pair_names(r@).no_duplicates(),
                forall|k: Seq<char>| pair_names(r@).contains(k) <==> views(fields@).take(i as int).contains(k),
                forall|a: int| 0 <= a < r@.len() ==> #[trigger] r@[a].1@ == self.named_field_text(r@[a].0@),
            decreases n - i,
        {
            let name = fields[i].as_str();
            let m = r.len();
            let mut j: usize = 0;
            let mut present = false;
            while j < m
                invariant
                    m == r@.len(),
                    j <= m,
                    present <==> exists|a: int| 0 <= a < j && #[trigger] r@[a].0@ == name@,
                decreases m - j,
            {
                if !present && str_equal(r[j].0.as_str(), name) {
                    present = true;
                }
                j = j + 1;
            }
            let ghost old_r = r@;
            proof {
                assert(views(fields@).take(i + 1) =~= views(fields@).take(i as int).push(name@));
            }
            if !present {
                let text = self.named_field_string(name);
                r.push((fields[i].clone(), text));
                proof {
                    assert(pair_names(r@) =~= pair_names(old_r).push(name@));
                    assert(!pair_names(old_r).contains(name@)) by {
                        if pair_names(old_r).contains(name@) {
                            let a = choose|a: int| 0 <= a < pair_names(old_r).len() && #[trigger] pair_names(old_r)[a] == name@;
                            assert(old_r[a].0@ == name@);
                        }
                    }
                    assert forall|k: Seq<char>| pair_names(r@).contains(k) <==> views(fields@).take(
                        i + 1,
                    ).contains(k) by {
                        let t = views(fields@).take(i as int);
                        if k == name@ {
                            assert(pair_names(r@)[old_r.len() as int] == k);
                            assert(views(fields@).take(i + 1)[i as int] == k);
                        } else {
                            if pair_names(r@).contains(k) {
                                let a = choose|a: int| 0 <= a < pair_names(r@).len() && #[trigger] pair_names(r@)[a] == k;
                                assert(pair_names(old_r)[a] == k);
                                assert(pair_names(old_r).contains(k));
                                assert(t.contains(k));
                                let b = choose|b: int| 0 <= b < t.len() && #[trigger] t[b] == k;
                                assert(views(fields@).take(i + 1)[b] == k);
                            }
                            if views(fields@).take(i + 1).contains(k) {
                                let b = choose|b: int| 0 <= b < i + 1 && #[trigger] views(fields@).take(i + 1)[b] == k;
                                assert(t[b] == k);
                                assert(pair_names(old_r).contains(k));
                                let a = choose|a: int| 0 <= a < pair_names(old_r).len() && #[trigger] pair_names(old_r)[a] == k;
                                assert(pair_names(r@)[a] == k);
                            }
                        }
                    }
                }
            } else {
                proof {
                    let a = choose|a: int| 0 <= a < j && #[trigger] r@[a].0@ == name@;
                    assert(pair_names(r@)[a] == name@);
                    assert forall|k: Seq<char>| pair_names(r@).contains(k) <==> views(fields@).take(
                        i + 1,
                    ).contains(k) by {
                        let t = views(fields@).take(i as int);
                        if k == name@ {
                            assert(views(fields@).take(i + 1)[i as int] == k);
                        } else {
                            if t.contains(k) {
                                let b = choose|b: int| 0 <= b < t.len() && #[trigger] t[b] == k;
                                assert(views(fields@).take(i + 1)[b] == k);
                            }
                            if views(fields@).take(i + 1).contains(k) {
                                let b = choose|b: int| 0 <= b < i + 1 && #[trigger] views(fields@).take(i + 1)[b] == k;
                                assert(t[b] == k);
                            }
                        }
                    }
                }
            }
            i = i + 1;
        }
        proof {
            assert(views(fields@).take(n as int) =~= views(fields@));
        }
        r
    }
}

impl Insertable<Fields> for User {
    fn sql_types_string(&self, field: Fields) -> (r: String)
        ensures
            r@ == self.field_text(field),
    {
        match field {
            Fields::id => i32_to_decimal(self.id),
            Fields::Username => sql_quote(self.Username.as_str()),
            Fields::Hash => sql_quote(self.Hash.as_str()),
            Fields::Salt => sql_quote(self.Salt.as_str()),
            Fields::SessionID => sql_optional_text(&self.SessionID),
        }
    }

    fn sql_type_id(&self) -> (r: String)
        ensures
            r@ == decimal(self.id as int),
    {
        i32_to_decimal(self.id)
    }
}

impl Queryable for User {
    fn get_insert_string(&self) -> (r: Result<String, String>)
        ensures
            r matches Ok(s) && s@ == insert_statement_text(
                Dialect::Sqlite,
                "Users"@,
                user_columns(),
                self.column_values(),
            ),
    {
        let columns = self.get_fields();
        let values = vec![
            self.sql_types_string(Fields::Username),
            self.sql_types_string(Fields::Hash),
            self.sql_types_string(Fields::Salt),
            self.sql_types_string(Fields::SessionID),
        ];
        assert(views(values@) =~= self.column_values());
        Ok(insert_statement(Dialect::Sqlite, "Users", &columns, &values))
    }

    fn get_update_string(&self) -> (r: Result<String, String>)
        ensures
            r matches Ok(s) && s@ == update_statement_text(
                Dialect::Sqlite,
                "Users"@,
                seq![
                    assignment_text("Username"@, self.field_text(Fields::Username)),
                    assignment_text("Hash"@, self.field_text(Fields::Hash)),
                    assignment_text("Salt"@, self.field_text(Fields::Salt)),
                    assignment_text("SessionID"@, self.field_text(Fields::SessionID)),
                ],
                "ID"@,
                self.field_text(Fields::id),
            ),
    {
        let sets = vec![
            assignment("Username", self.sql_types_string(Fields::Username).as_str()),
            assignment("Hash", self.sql_types_string(Fields::Hash).as_str()),
            assignment("Salt", self.sql_types_string(Fields::Salt).as_str()),
            assignment("SessionID", self.sql_types_string(Fields::SessionID).as_str()),
        ];
        let id = self.sql_types_string(Fields::id);
        let r = update_statement(Dialect::Sqlite, "Users", &sets, "ID", id.as_str());
        assert(views(sets@) =~= seq![
            assignment_text("Username"@, self.field_text(Fields::Username)),
            assignment_text("Hash"@, self.field_text(Fields::Hash)),
            assignment_text("Salt"@, self.field_text(Fields::Salt)),
            assignment_text("SessionID"@, self.field_text(Fields::SessionID)),
        ]);
        Ok(r)
    }

    fn get_fields(&self) -> (r: Vec<String>)
        ensures
            views(r@) == user_columns(),
    {
        let r = vec![
            String::from_str("Username"),
            String::from_str("Hash"),
            String::from_str("Salt"),
            String::from_str("SessionID"),
        ];
        assert(views(r@) =~= user_columns());
        r
    }
}

} // verus!
