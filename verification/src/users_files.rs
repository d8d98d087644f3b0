//! Links between accounts and files (`UserFiles`): who owns a file and with
//! whom it is shared, and the decisions taken on them.
use vstd::prelude::*;
use crate::file::File;
use crate::sql::{
    assignment, assignment_text, insert_statement, insert_statement_text, select_all_statement,
    select_all_text, select_one_statement, select_one_text, update_statement,
    update_statement_text, views, Dialect, Insertable, Queryable,
};
use crate::text::{decimal, i32_to_decimal, str_equal};
use crate::sql::option_view;
use crate::users::User;

verus! {

/// A link of an account to a file: the account owns the file (`Owner`) or
/// the file is shared with it.
#[derive(Debug, Clone, Copy, PartialEq, Eq, Structural)]
pub struct UserFiles {
    pub id: i32,
    pub UserID: i32,
    pub FileID: i32,
    pub Owner: bool,
}

/// The columns of the `UserFiles` table.
#[derive(Debug, Clone, Copy, PartialEq, Eq)]
pub enum Fields {
    id,
    UserID,
    FileID,
    Owner,
}

/// The names of the stored columns of `UserFiles`, identifier left out.
pub open spec fn link_columns() -> Seq<Seq<char>> {
    seq!["UserID"@, "FileID"@, "Owner"@]
}

/// The SQL text of a flag: `1` or `0`.
pub open spec fn flag_text(b: bool) -> Seq<char> {
    if b {
        "1"@
    } else {
        "0"@
    }
}

/// Is the account among the listed ones, column for column?
pub open spec fn listed(users: Seq<User>, u: User) -> bool {
    exists|i: int|
        0 <= i < users.len() && #[trigger] users[i].id == u.id && users[i].Username@
            == u.Username@ && users[i].Hash@ == u.Hash@ && users[i].Salt@ == u.Salt@
            && users[i].session() == u.session()
}

/// `"<strong>" + s + "</strong>"`.
pub open spec fn strong(s: Seq<char>) -> Seq<char> {
    "<strong>"@ + s + "</strong>"@
}

/// Appends `"<strong>" + s + "</strong>"`.
pub fn append_strong(m: &mut String, s: &str)
    ensures
        final(m)@ == old(m)@ + strong(s@),
{
    m.append("<strong>");
    m.append(s);
    m.append("</strong>");
}

impl UserFiles {
    /// The SQL text of one column of this link.
    pub open spec fn field_text(&self, field: Fields) -> Seq<char> {
        match field {
            Fields::id => decimal(self.id as int),
            Fields::UserID => decimal(self.UserID as int),
            Fields::FileID => decimal(self.FileID as int),
            Fields::Owner => flag_text(self.Owner),
        }
    }

    /// A link not stored yet (identifier 0).
    pub fn new(UserID: i32, FileID: i32, Owner: bool) -> (r: UserFiles)
        ensures
            r == (UserFiles { id: 0, UserID, FileID, Owner }),
    {
        UserFiles { id: 0, UserID, FileID, Owner }
    }

    /// The name of the table that holds links.
    pub fn get_table(&self) -> (r: String)
        ensures
            r@ == "UserFiles"@,
    {
        String::from_str("UserFiles")
    }

    /// The statement that reads a link by identifier.
    pub fn select_one_query(id: i32) -> (r: String)
        ensures
            r@ == select_one_text("UserFiles"@, "ID"@, decimal(id as int)),
    {
        select_one_statement("UserFiles", "ID", i32_to_decimal(id).as_str())
    }

    /// The statement that reads every link.
    pub fn select_all_query() -> (r: String)
        ensures
            r@ == select_all_text("UserFiles"@),
    {
        select_all_statement("UserFiles")
    }

    /// The statement that reads the link of an account to a file.
    pub fn get_from_user_and_file_query(user: &User, file: &File) -> (r: String)
        ensures
            r@ == "SELECT UF.* FROM UserFiles AS UF Join Users AS U ON UF.UserID = U.ID\n\t\t\t\t\t\t\t\tJOIN Files AS F ON F.ID = UF.FileID WHERE U.ID = "@
                + decimal(user.id as int) + " AND F.ID = "@ + decimal(file.id as int),
    {
        let mut r = String::from_str(
            "SELECT UF.* FROM UserFiles AS UF Join Users AS U ON UF.UserID = U.ID\n\t\t\t\t\t\t\t\tJOIN Files AS F ON F.ID = UF.FileID WHERE U.ID = ",
        );
        r.append(i32_to_decimal(user.id).as_str());
        r.append(" AND F.ID = ");
        r.append(i32_to_decimal(file.id).as_str());
        r
    }

    /// The statement that reads the files an account owns (`owned`) or that
    /// are shared with it.
    pub fn files_of_user_query(user: &User, owned: bool) -> (r: String)
        ensures
            r@ == "SELECT F.* FROM UserFiles AS UF JOIN Users AS U ON UF.UserID = U.ID JOIN Files AS F ON F.ID = UF.FileID WHERE U.ID = "@
                + decimal(user.id as int) + "\n\t\t\tAND UF.Owner = "@ + flag_text(owned),
    {
        let mut r = String::from_str(
            "SELECT F.* FROM UserFiles AS UF JOIN Users AS U ON UF.UserID = U.ID JOIN Files AS F ON F.ID = UF.FileID WHERE U.ID = ",
        );
        r.append(i32_to_decimal(user.id).as_str());
        r.append("\n\t\t\tAND UF.Owner = ");
        if owned {
            r.append("1");
        } else {
            r.append("0");
        }
        r
    }

    /// The statement that reads a file that an account owns or that is
    /// shared with it.
    pub fn get_file_query(user: &User, file_id: i32) -> (r: String)
        ensures
            r@ == "SELECT F.* FROM UserFiles AS UF JOIN Users AS U ON UF.UserID = U.ID JOIN Files AS F ON F.ID = UF.FileID WHERE U.ID = "@
                + decimal(user.id as int) + " AND F.ID = "@ + decimal(file_id as int),
    {
        let mut r = String::from_str(
            "SELECT F.* FROM UserFiles AS UF JOIN Users AS U ON UF.UserID = U.ID JOIN Files AS F ON F.ID = UF.FileID WHERE U.ID = ",
        );
        r.append(i32_to_decimal(user.id).as_str());
        r.append(" AND F.ID = ");
        r.append(i32_to_decimal(file_id).as_str());
        r
    }

    /// The statement that reads the link of an account to a file before the
    /// file is taken away from it.
    pub fn delete_lookup_query(user: &User, file: &File) -> (r: String)
        ensures
            r@ == "SELECT UF.* FROM UserFiles AS UF JOIN Users AS U ON UF.UserID = U.ID JOIN Files AS F ON F.ID = UF.FileID WHERE U.ID = "@
                + decimal(user.id as int) + " AND F.ID = "@ + decimal(file.id as int),
    {
        let mut r = String::from_str(
            "SELECT UF.* FROM UserFiles AS UF JOIN Users AS U ON UF.UserID = U.ID JOIN Files AS F ON F.ID = UF.FileID WHERE U.ID = ",
        );
        r.append(i32_to_decimal(user.id).as_str());
        r.append(" AND F.ID = ");
        r.append(i32_to_decimal(file.id).as_str());
        r
    }

    /// What taking a file away from an account does, given the account's link
    /// to it: no link, no access; the owner deletes every link to the file
    /// and the file itself (`true`); anyone else drops only their own link
    /// (`false`).
    pub fn delete(link: Option<UserFiles>, file: &File) -> (r: Result<(Vec<String>, bool), String>)
        ensures
            match link {
                None => r matches Err(m) && m@ == "Nie masz dostępu do tego pliku"@,
                Some(l) => r matches Ok((stmts, owner)) && owner == l.Owner && if l.Owner {
                    views(stmts@) == seq![
                        "DELETE FROM UserFiles WHERE FileID = "@ + decimal(file.id as int),
                        "DELETE FROM Files WHERE ID="@ + decimal(file.id as int),
                    ]
                } else {
                    views(stmts@) == seq!["DELETE FROM UserFiles WHERE ID = "@ + decimal(l.id as int)]
                },
            },
    {
        match link {
            None => Err(String::from_str("Nie masz dostępu do tego pliku")),
            Some(l) => {
                if l.Owner {
                    let mut a = String::from_str("DELETE FROM UserFiles WHERE FileID = ");
                    a.append(i32_to_decimal(file.id).as_str());
                    let mut b = String::from_str("DELETE FROM Files WHERE ID=");
                    b.append(i32_to_decimal(file.id).as_str());
                    let stmts = vec![a, b];
                    assert(views(stmts@) =~= seq![
                        "DELETE FROM UserFiles WHERE FileID = "@ + decimal(file.id as int),
                        "DELETE FROM Files WHERE ID="@ + decimal(file.id as int),
                    ]);
                    Ok((stmts, true))
                } else {
                    let mut a = String::from_str("DELETE FROM UserFiles WHERE ID = ");
                    a.append(i32_to_decimal(l.id).as_str());
                    let stmts = vec![a];
                    assert(views(stmts@) =~= seq![
                        "DELETE FROM UserFiles WHERE ID = "@ + decimal(l.id as int),
                    ]);
                    Ok((stmts, false))
                }
            },
        }
    }

    /// The statement that lists the accounts a file is shared with; only the
    /// owner's link may ask.
    pub fn sharing_users_of_file(&self) -> (r: Result<String, String>)
        ensures
            if self.Owner {
                r matches Ok(q) && q@
                    == "SELECT * FROM UserFiles as UF JOIN Users AS U ON U.ID = UF.UserID WHERE UF.FileID = "@
                    + decimal(self.FileID as int) + " AND Owner = 0"@
            } else {
                r matches Err(m) && m@ == "Nie jesteś właścicielem pliku!"@
            },
    {
        if self.Owner {
            let mut r = String::from_str(
                "SELECT * FROM UserFiles as UF JOIN Users AS U ON U.ID = UF.UserID WHERE UF.FileID = ",
            );
            r.append(i32_to_decimal(self.FileID).as_str());
            r.append(" AND Owner = 0");
            Ok(r)
        } else {
            Err(String::from_str("Nie jesteś właścicielem pliku!"))
        }
    }

    /// First step of sharing a file: an owner cannot share with themself.
    pub fn check_share_target_name(user_owner: &User, new_user: &str) -> (r: Result<(), String>)
        ensures
            if user_owner.Username@ == new_user@ {
                r matches Err(m) && m@ == "Nie możesz udostępnić pliku samemu sobie!"@
            } else {
                r is Ok
            },
    {
        if str_equal(user_owner.Username.as_str(), new_user) {
            Err(String::from_str("Nie możesz udostępnić pliku samemu sobie!"))
        } else {
            Ok(())
        }
    }

    /// Second step of sharing a file: the sharer's link to it must exist and
    /// be the owner's.
    pub fn check_share_link(link: Option<UserFiles>, file: &File) -> (r: Result<UserFiles, String>)
        ensures
            match link {
                None => r matches Err(m) && m@ == "Nie masz dostępu do pliku "@ + strong(
                    file.Filename@,
                ),
                Some(l) => if l.Owner {
                    r == Ok::<UserFiles, String>(l)
                } else {
                    r matches Err(m) && m@ == "Nie jesteś właścicielem pliku "@ + strong(
                        file.Filename@,
                    ) + "!"@
                },
            },
    {
        match link {
            None => {
                let mut m = String::from_str("Nie masz dostępu do pliku ");
                append_strong(&mut m, file.Filename.as_str());
                Err(m)
            },
            Some(l) => {
                if l.Owner {
                    Ok(l)
                } else {
                    let mut m = String::from_str("Nie jesteś właścicielem pliku ");
                    append_strong(&mut m, file.Filename.as_str());
                    m.append("!");
                    Err(m)
                }
            },
        }
    }

    /// The statement that reads the account a file is to be shared with.
    pub fn share_target_query(new_user: &str) -> (r: String)
        ensures
            r@ == "SELECT * FROM Users WHERE Username = '"@ + new_user@ + "'"@,
    {
        let mut r = String::from_str("SELECT * FROM Users WHERE Username = '");
        r.append(new_user);
        r.append("'");
        r
    }

    /// Third step of sharing a file: the account to share with must exist.
    pub fn check_share_target(found: Option<User>, new_user: &str) -> (r: Result<User, String>)
        ensures
            match found {
                None => r matches Err(m) && m@ == "Użytkownik o nicku "@ + strong(new_user@)
                    + " nie istnieje!"@,
                Some(u) => r == Ok::<User, String>(u),
            },
    {
        match found {
            None => {
                let mut m = String::from_str("Użytkownik o nicku ");
                append_strong(&mut m, new_user);
                m.append(" nie istnieje!");
                Err(m)
            },
            Some(u) => Ok(u),
        }
    }

    /// Last step of sharing a file: unless the file is already shared with
    /// the account, the new link, not an owner's, of that account to the file.
    pub fn new_share(sharers: &Vec<User>, target: &User, file: &File, new_user: &str) -> (r:
        Result<UserFiles, String>)
        ensures
            if listed(sharers@, *target) {
                r matches Err(m) && m@ == "Plik "@ + strong(file.Filename@)
                    + " był już udostępniony użytkownikowi "@ + strong(new_user@)
            } else {
                r == Ok::<UserFiles, String>(
                    UserFiles { id: 0, UserID: target.id, FileID: file.id, Owner: false },
                )
            },
    {
        let n = sharers.len();
        let mut i: usize = 0;
        let mut found = false;
        while i < n
            invariant
                n == sharers@.len(),
                i <= n,
                found ==> listed(sharers@, *target),
                !found ==> forall|j: int|
                    0 <= j < i ==> !(#[trigger] sharers@[j].id == target.id && sharers@[j].Username@
                        == target.Username@ && sharers@[j].Hash@ == target.Hash@
                        && sharers@[j].Salt@ == target.Salt@ && sharers@[j].session()
                        == target.session()),
            decreases n - i,
        {
            if !found && sharers[i].same_user(target) {
                found = true;
            }
            i = i + 1;
        }
        if found {
            let mut m = String::from_str("Plik ");
            append_strong(&mut m, file.Filename.as_str());
            m.append(" był już udostępniony użytkownikowi ");
            append_strong(&mut m, new_user);
            Err(m)
        } else {
            Ok(UserFiles::new(target.id, file.id, false))
        }
    }

    /// The statement that stops sharing a file with a named account; only
    /// the owner's link may ask.
    pub fn unshare_statement(&self, file_id: i32, username: &str, file: &File) -> (r: Result<
        String,
        String,
    >)
        ensures
            if self.Owner {
                r matches Ok(q) && q@
                    == "DELETE FROM UserFiles WHERE ID = (SELECT UF.ID FROM UserFiles AS UF JOIN Files AS F ON F.ID = UF.FileID\n                                            JOIN Users AS U ON U.ID = UF.UserID WHERE F.ID = "@
                    + decimal(file_id as int) + " AND U.Username = '"@ + username@
                    + "'\n                                            AND Owner = 0)"@
            } else {
                r matches Err(m) && m@ == "Nie jesteś właścicielem pliku "@ + strong(file.Filename@)
                    + "!"@
            },
    {
        if self.Owner {
            let mut r = String::from_str(
                "DELETE FROM UserFiles WHERE ID = (SELECT UF.ID FROM UserFiles AS UF JOIN Files AS F ON F.ID = UF.FileID\n                                            JOIN Users AS U ON U.ID = UF.UserID WHERE F.ID = ",
            );
            r.append(i32_to_decimal(file_id).as_str());
            r.append(" AND U.Username = '");
            r.append(username);
            r.append("'\n                                            AND Owner = 0)");
            Ok(r)
        } else {
            let mut m = String::from_str("Nie jesteś właścicielem pliku ");
            append_strong(&mut m, file.Filename.as_str());
            m.append("!");
            Err(m)
        }
    }
}

/// What the database has answered so far while a file is being shared:
/// the sharer's link to the file, the account with the typed name, and the
/// accounts the file is already shared with (`None` while not yet asked).
pub struct ShareAnswers {
    pub link: Option<Option<UserFiles>>,
    pub target: Option<Option<User>>,
    pub sharers: Option<Vec<User>>,
}

/// The next thing to do while sharing a file: ask the database one of three
/// questions (with the statement to send), store the new link, or refuse
/// with a text.
pub enum ShareStep {
    AskLink(String),
    AskTarget(String),
    AskSharers(String),
    Insert(UserFiles),
    Refuse(String),
}

/// A sharing step as texts: what `ShareStep` holds, each string by its view.
pub ghost enum SharePlan {
    AskLink(Seq<char>),
    AskTarget(Seq<char>),
    AskSharers(Seq<char>),
    Insert(UserFiles),
    Refuse(Seq<char>),
}

/// The statement that reads the link of an account to a file.
pub open spec fn link_query_text(user_id: i32, file_id: i32) -> Seq<char> {
    "SELECT UF.* FROM UserFiles AS UF Join Users AS U ON UF.UserID = U.ID\n\t\t\t\t\t\t\t\tJOIN Files AS F ON F.ID = UF.FileID WHERE U.ID = "@
        + decimal(user_id as int) + " AND F.ID = "@ + decimal(file_id as int)
}

/// The statement that lists the accounts a file is shared with.
pub open spec fn sharers_query_text(file_id: i32) -> Seq<char> {
    "SELECT * FROM UserFiles as UF JOIN Users AS U ON U.ID = UF.UserID WHERE UF.FileID = "@
        + decimal(file_id as int) + " AND Owner = 0"@
}

/// The next step of sharing `file` of `user_owner` with the account named
/// `new_user`, given what the database has answered so far. The checks come
/// in this order: not with oneself; the sharer's link must exist and be the
/// owner's; the named account must exist; the file must not be shared with
/// it already. Then the new link, not an owner's, is stored.
pub open spec fn share_step(
    user_owner: User,
    file: File,
    new_user: Seq<char>,
    link: Option<Option<UserFiles>>,
    target: Option<Option<User>>,
    sharers: Option<Seq<User>>,
) -> SharePlan {
    if user_owner.Username@ == new_user {
        SharePlan::Refuse("Nie możesz udostępnić pliku samemu sobie!"@)
    } else {
        match link {
            None => SharePlan::AskLink(link_query_text(user_owner.id, file.id)),
            Some(None) => SharePlan::Refuse("Nie masz dostępu do pliku "@ + strong(file.Filename@)),
            Some(Some(l)) => if !l.Owner {
                SharePlan::Refuse("Nie jesteś właścicielem pliku "@ + strong(file.Filename@) + "!"@)
            } else {
                match target {
                    None => SharePlan::AskTarget("SELECT * FROM Users WHERE Username = '"@ + new_user + "'"@),
                    Some(None) => SharePlan::Refuse("Użytkownik o nicku "@ + strong(new_user) + " nie istnieje!"@),
                    Some(Some(t)) => match sharers {
                        None => SharePlan::AskSharers(sharers_query_text(l.FileID)),
                        Some(s) => if listed(s, t) {
                            SharePlan::Refuse(
                                "Plik "@ + strong(file.Filename@)
                                    + " był już udostępniony użytkownikowi "@ + strong(new_user),
                            )
                        } else {
                            SharePlan::Insert(UserFiles { id: 0, UserID: t.id, FileID: file.id, Owner: false })
                        },
                    },
                }
            },
        }
    }
}

/// The view of a sharing step.
pub open spec fn step_view(st: ShareStep) -> SharePlan {
    match st {
        ShareStep::AskLink(q) => SharePlan::AskLink(q@),
        ShareStep::AskTarget(q) => SharePlan::AskTarget(q@),
        ShareStep::AskSharers(q) => SharePlan::AskSharers(q@),
        ShareStep::Insert(l) => SharePlan::Insert(l),
        ShareStep::Refuse(m) => SharePlan::Refuse(m@),
    }
}

/// The sharers the database has listed, if asked.
pub open spec fn sharers_view(s: Option<Vec<User>>) -> Option<Seq<User>> {
    match s {
        None => None,
        Some(v) => Some(v@),
    }
}

impl UserFiles {
    /// Decides the next step of sharing a file with a named account, given
    /// what the database has answered so far.
    pub fn add_shared_user(user_owner: &User, file: &File, new_user: &str, answers: &ShareAnswers) -> (r: ShareStep)
        ensures
            step_view(r) == share_step(
                *user_owner,
                *file,
                new_user@,
                answers.link,
                answers.target,
                sharers_view(answers.sharers),
            ),
    {
        if let Err(m) = UserFiles::check_share_target_name(user_owner, new_user) {
            return ShareStep::Refuse(m);
        }
        match answers.link {
            None => ShareStep::AskLink(UserFiles::get_from_user_and_file_query(user_owner, file)),
            Some(link) => match UserFiles::check_share_link(link, file) {
                Err(m) => ShareStep::Refuse(m),
                Ok(uf) => match &answers.target {
                    None => ShareStep::AskTarget(UserFiles::share_target_query(new_user)),
                    Some(None) => match UserFiles::check_share_target(None, new_user) {
                        Err(m) => ShareStep::Refuse(m),
                        // never taken: a missing account is always refused
                        Ok(_) => ShareStep::Refuse(String::new()),
                    },
                    Some(Some(target)) => match &answers.sharers {
                        None => match uf.sharing_users_of_file() {
                            Ok(q) => ShareStep::AskSharers(q),
                            Err(m) => ShareStep::Refuse(m),
                        },
                        Some(sharers) => match UserFiles::new_share(sharers, target, file, new_user) {
                            Ok(l) => ShareStep::Insert(l),
                            Err(m) => ShareStep::Refuse(m),
                        },
                    },
                },
            },
        }
    }
}

impl Insertable<Fields> for UserFiles {
    fn sql_types_string(&self, field: Fields) -> (r: String)
        ensures
            r@ == self.field_text(field),
    {
        match field {
            Fields::id => i32_to_decimal(self.id),
            Fields::UserID => i32_to_decimal(self.UserID),
            Fields::FileID => i32_to_decimal(self.FileID),
            Fields::Owner => if self.Owner {
                String::from_str("1")
            } else {
                String::from_str("0")
            },
        }
    }

    fn sql_type_id(&self) -> (r: String)
        ensures
            r@ == decimal(self.id as int),
    {
        i32_to_decimal(self.id)
    }
}

impl Queryable for UserFiles {
    fn get_insert_string(&self) -> (r: Result<String, String>)
        ensures
            r matches Ok(s) && s@ == insert_statement_text(
                Dialect::Sqlite,
                "UserFiles"@,
                link_columns(),
                seq![
                    self.field_text(Fields::UserID),
                    self.field_text(Fields::FileID),
                    self.field_text(Fields::Owner),
                ],
            ),
    {
        let columns = self.get_fields();
        let values = vec![
            self.sql_types_string(Fields::UserID),
            self.sql_types_string(Fields::FileID),
            self.sql_types_string(Fields::Owner),
        ];
        assert(views(values@) =~= seq![
            self.field_text(Fields::UserID),
            self.field_text(Fields::FileID),
            self.field_text(Fields::Owner),
        ]);
        Ok(insert_statement(Dialect::Sqlite, "UserFiles", &columns, &values))
    }

    fn get_update_string(&self) -> (r: Result<String, String>)
        ensures
            r matches Ok(s) && s@ == update_statement_text(
                Dialect::Sqlite,
                "UserFiles"@,
                seq![
                    assignment_text("UserID"@, self.field_text(Fields::UserID)),
                    assignment_text("FileID"@, self.field_text(Fields::FileID)),
                    assignment_text("Owner"@, self.field_text(Fields::Owner)),
                ],
                "ID"@,
                self.field_text(Fields::id),
            ),
    {
        let sets = vec![
            assignment("UserID", self.sql_types_string(Fields::UserID).as_str()),
            assignment("FileID", self.sql_types_string(Fields::FileID).as_str()),
            assignment("Owner", self.sql_types_string(Fields::Owner).as_str()),
        ];
        let id = self.sql_types_string(Fields::id);
        let r = update_statement(Dialect::Sqlite, "UserFiles", &sets, "ID", id.as_str());
        assert(views(sets@) =~= seq![
            assignment_text("UserID"@, self.field_text(Fields::UserID)),
            assignment_text("FileID"@, self.field_text(Fields::FileID)),
            assignment_text("Owner"@, self.field_text(Fields::Owner)),
        ]);
        Ok(r)
    }

    fn get_fields(&self) -> (r: Vec<String>)
        ensures
            views(r@) == link_columns(),
    {
        let r = vec![
            String::from_str("UserID"),
            String::from_str("FileID"),
            String::from_str("Owner"),
        ];
        assert(views(r@) =~= link_columns());
        r
    }
}

} // verus!

verus! {

/// A file is not shared twice with an account: once the account is among
/// the file's sharers (as it is after its link is stored), the next request
/// to share the file with it is refused as already shared, and no link is
/// stored.
pub proof fn lemma_no_second_share(
    user_owner: User,
    file: File,
    new_user: Seq<char>,
    link: UserFiles,
    target: User,
    sharers: Seq<User>,
)
    requires
        user_owner.Username@ != new_user,
        link.Owner,
    ensures
        listed(sharers.push(target), target),
        share_step(
            user_owner,
            file,
            new_user,
            Some(Some(link)),
            Some(Some(target)),
            Some(sharers.push(target)),
        ) == SharePlan::Refuse(
            "Plik "@ + strong(file.Filename@) + " był już udostępniony użytkownikowi "@ + strong(
                new_user,
            ),
        ),
{
    let s = sharers.push(target);
    assert(s[sharers.len() as int] == target);
    assert(s[sharers.len() as int].id == target.id);
}

/// The duplicate check looks at every listed sharer: when the account is
/// equal, column for column, to the sharer at any position of the list, the
/// request is refused as already shared.
pub proof fn lemma_share_refuses_any_listed(
    user_owner: User,
    file: File,
    new_user: Seq<char>,
    link: UserFiles,
    target: User,
    sharers: Seq<User>,
    i: int,
)
    requires
        user_owner.Username@ != new_user,
        link.Owner,
        0 <= i < sharers.len(),
        sharers[i].id == target.id,
        sharers[i].Username@ == target.Username@,
        sharers[i].Hash@ == target.Hash@,
        sharers[i].Salt@ == target.Salt@,
        option_view(sharers[i].SessionID) == option_view(target.SessionID),
    ensures
        share_step(
            user_owner,
            file,
            new_user,
            Some(Some(link)),
            Some(Some(target)),
            Some(sharers),
        ) == SharePlan::Refuse(
            "Plik "@ + strong(file.Filename@) + " był już udostępniony użytkownikowi "@ + strong(
                new_user,
            ),
        ),
{
    assert(sharers[i].id == target.id);
}

/// When no listed sharer is the account, column for column, the request
/// stores exactly one new link: the account's, to the file, not an owner's.
pub proof fn lemma_share_inserts_when_unlisted(
    user_owner: User,
    file: File,
    new_user: Seq<char>,
    link: UserFiles,
    target: User,
    sharers: Seq<User>,
)
    requires
        user_owner.Username@ != new_user,
        link.Owner,
        forall|i: int|
            0 <= i < sharers.len() ==> !(#[trigger] sharers[i].id == target.id
                && sharers[i].Username@ == target.Username@ && sharers[i].Hash@ == target.Hash@
                && sharers[i].Salt@ == target.Salt@ && option_view(sharers[i].SessionID)
                == option_view(target.SessionID)),
    ensures
        share_step(
            user_owner,
            file,
            new_user,
            Some(Some(link)),
            Some(Some(target)),
            Some(sharers),
        ) == SharePlan::Insert(UserFiles { id: 0, UserID: target.id, FileID: file.id, Owner: false }),
{
}

} // verus!
