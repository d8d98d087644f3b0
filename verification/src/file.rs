//! Stored files: a row of the `Files` table, with its content as upper-case
//! hexadecimal text, and the decisions taken on it.
use vstd::prelude::*;
use vstd::utf8::encode_utf8;
use crate::encoding::{
    base64_encode, base64_standard, decode_hex_text, hex_decode_text, hex_upper, hexupper_encode,
    is_hex_upper_text,
};
use crate::sql::{
    assignment, assignment_text, insert_statement, insert_statement_text, option_view,
    select_all_statement, select_all_text, select_one_statement, select_one_text, sql_optional,
    sql_optional_text, sql_quote, sql_quoted, update_statement, update_statement_text, views,
    Dialect, Insertable, Queryable,
};
use crate::text::{decimal, i32_to_decimal};
use crate::users::User;
use crate::users_files::UserFiles;

verus! {

/// A stored file: name, content in upper-case hexadecimal and MIME type.
#[derive(Debug)]
pub struct File {
    pub id: i32,
    pub Filename: String,
    pub Content: String,
    pub MimeType: Option<String>,
}

/// The columns of the `Files` table.
#[derive(Debug, Clone, Copy, PartialEq, Eq)]
pub enum Fields {
    id,
    Filename,
    Content,
    MimeType,
}

/// The names of the stored columns of `Files`, identifier left out.
pub open spec fn file_columns() -> Seq<Seq<char>> {
    seq!["Filename"@, "Content"@, "MimeType"@]
}

/// What the database says of a visitor's hold on a file: nobody is logged
/// in, the account has no link to the file, or its link.
pub enum FileAccess {
    NotLoggedIn,
    NoAccess,
    Link(UserFiles),
}

impl File {
    /// The SQL text of one column of this file.
    pub open spec fn field_text(&self, field: Fields) -> Seq<char> {
        match field {
            Fields::id => decimal(self.id as int),
            Fields::Filename => sql_quoted(self.Filename@),
            Fields::Content => sql_quoted(self.Content@),
            Fields::MimeType => sql_optional(option_view(self.MimeType)),
        }
    }

    /// A file not stored yet (identifier 0).
    pub fn new(Filename: String, Content: String, MimeType: Option<String>) -> (r: File)
        ensures
            r == (File { id: 0, Filename, Content, MimeType }),
    {
        File { id: 0, Filename, Content, MimeType }
    }

    /// A file made of uploaded bytes: its content is their upper-case
    /// hexadecimal text.
    pub fn from_upload(Filename: String, contents: &[u8], MimeType: Option<String>) -> (r: File)
        requires
            contents@.len() <= usize::MAX / 512,
        ensures
            r.id == 0,
            r.Filename == Filename,
            r.Content@ == hex_upper(contents@),
            r.MimeType == MimeType,
    {
        let hex = hexupper_encode(contents);
        File::new(Filename, hex, MimeType)
    }

    /// The content as the browser is given it: the stored hexadecimal text
    /// decoded, in standard Base64; an error text when the stored content is
    /// not upper-case hexadecimal.
    pub fn base64_content(&self) -> (r: Result<String, &'static str>)
        requires
            encode_utf8(self.Content@).len() <= usize::MAX / 8,
        ensures
            if is_hex_upper_text(self.Content@) {
                r matches Ok(s) && s@ == base64_standard(hex_decode_text(self.Content@))
            } else {
                r matches Err(m) && m@ == "Błąd dekodowania pliku!"@
            },
    {
        match decode_hex_text(self.Content.as_str()) {
            None => Err("Błąd dekodowania pliku!"),
            Some(bytes) => {
                assert(bytes@.len() <= usize::MAX / 16);
                Ok(base64_encode(bytes.as_slice()))
            },
        }
    }

    /// The name of the table that holds files.
    pub fn get_table(&self) -> (r: String)
        ensures
            r@ == "Files"@,
    {
        String::from_str("Files")
    }

    /// How a file is shown: its name.
    pub fn display_text(&self) -> (r: String)
        ensures
            r@ == self.Filename@,
    {
        self.Filename.clone()
    }

    /// The statement that reads a file by identifier.
    pub fn select_one_query(id: i32) -> (r: String)
        ensures
            r@ == select_one_text("Files"@, "ID"@, decimal(id as int)),
    {
        select_one_statement("Files", "ID", i32_to_decimal(id).as_str())
    }

    /// The statement that reads every file.
    pub fn select_all_query() -> (r: String)
        ensures
            r@ == select_all_text("Files"@),
    {
        select_all_statement("Files")
    }

    /// The link that makes an account the owner of this (just stored) file.
    pub fn owner_link(&self, user: &User) -> (r: UserFiles)
        ensures
            r == (UserFiles { id: 0, UserID: user.id, FileID: self.id, Owner: true }),
    {
        UserFiles::new(user.id, self.id, true)
    }

    /// The answer to taking this file away from the logged-in account, given
    /// what the removal gave (`None` when nobody is logged in): an owner
    /// deleted the file, anyone else stopped having it shared, and a refused
    /// removal means no access.
    pub fn delete_file_from_user(&self, removal: Option<Result<bool, String>>) -> (r: Result<
        String,
        String,
    >)
        ensures
            match removal {
                None => r matches Err(m) && m@ == "Należy się zalogować"@,
                Some(Ok(true)) => r matches Ok(m) && m@ == "Plik '"@ + self.Filename@
                    + "' został pomyślnie usunięty"@,
                Some(Ok(false)) => r matches Ok(m) && m@ == "Wyłączono się z udostępniania pliku '"@
                    + self.Filename@ + "'"@,
                Some(Err(_)) => r matches Err(m) && m@ == "Nie masz dostępu do tego pliku!"@,
            },
    {
        match removal {
            None => Err(String::from_str("Należy się zalogować")),
            Some(Ok(owner_value)) => {
                if owner_value {
                    let mut m = String::from_str("Plik '");
                    m.append(self.Filename.as_str());
                    m.append("' został pomyślnie usunięty");
                    Ok(m)
                } else {
                    let mut m = String::from_str("Wyłączono się z udostępniania pliku '");
                    m.append(self.Filename.as_str());
                    m.append("'");
                    Ok(m)
                }
            },
            Some(Err(_)) => Err(String::from_str("Nie masz dostępu do tego pliku!")),
        }
    }

    /// Renames the file for the logged-in account: only the owner may; the
    /// file is left as it was otherwise.
    pub fn change_filename(&mut self, access: FileAccess, new_filename: String) -> (r: Result<
        (),
        &'static str,
    >)
        ensures
            match access {
                FileAccess::NotLoggedIn => r matches Err(m) && m@ == "Należy się zalogować"@
                    && *final(self) == *old(self),
                FileAccess::NoAccess => r matches Err(m) && m@ == "Nie masz dostępu do tego pliku!"@
                    && *final(self) == *old(self),
                FileAccess::Link(l) => if l.Owner {
                    r is Ok && *final(self) == (File { Filename: new_filename, ..*old(self) })
                } else {
                    r matches Err(m) && m@ == "Nie jesteś właścicielem tego pliku!"@
                        && *final(self) == *old(self)
                },
            },
    {
        match access {
            FileAccess::NotLoggedIn => Err("Należy się zalogować"),
            FileAccess::NoAccess => Err("Nie masz dostępu do tego pliku!"),
            FileAccess::Link(uf) => {
                if uf.Owner == true {
                    self.Filename = new_filename;
                    Ok(())
                } else {
                    Err("Nie jesteś właścicielem tego pliku!")
                }
            },
        }
    }
}

impl Insertable<Fields> for File {
    fn sql_types_string(&self, field: Fields) -> (r: String)
        ensures
            r@ == self.field_text(field),
    {
        match field {
            Fields::id => i32_to_decimal(self.id),
            Fields::Filename => sql_quote(self.Filename.as_str()),
            Fields::Content => sql_quote(self.Content.as_str()),
            Fields::MimeType => sql_optional_text(&self.MimeType),
        }
    }

    fn sql_type_id(&self) -> (r: String)
        ensures
            r@ == decimal(self.id as int),
    {
        i32_to_decimal(self.id)
    }
}

impl Queryable for File {
    fn get_insert_string(&self) -> (r: Result<String, String>)
        ensures
            r matches Ok(s) && s@ == insert_statement_text(
                Dialect::Sqlite,
                "Files"@,
                file_columns(),
                seq![
                    self.field_text(Fields::Filename),
                    self.field_text(Fields::Content),
                    self.field_text(Fields::MimeType),
                ],
            ),
    {
        let columns = self.get_fields();
        let values = vec![
            self.sql_types_string(Fields::Filename),
            self.sql_types_string(Fields::Content),
            self.sql_types_string(Fields::MimeType),
        ];
        assert(views(values@) =~= seq![
            self.field_text(Fields::Filename),
            self.field_text(Fields::Content),
            self.field_text(Fields::MimeType),
        ]);
        Ok(insert_statement(Dialect::Sqlite, "Files", &columns, &values))
    }

    fn get_update_string(&self) -> (r: Result<String, String>)
        ensures
            r matches Ok(s) && s@ == update_statement_text(
                Dialect::Sqlite,
                "Files"@,
                seq![
                    assignment_text("Filename"@, self.field_text(Fields::Filename)),
                    assignment_text("Content"@, self.field_text(Fields::Content)),
                    assignment_text("MimeType"@, self.field_text(Fields::MimeType)),
                ],
                "ID"@,
                self.field_text(Fields::id),
            ),
    {
        let sets = vec![
            assignment("Filename", self.sql_types_string(Fields::Filename).as_str()),
            assignment("Content", self.sql_types_string(Fields::Content).as_str()),
            assignment("MimeType", self.sql_types_string(Fields::MimeType).as_str()),
        ];
        let id = self.sql_types_string(Fields::id);
        let r = update_statement(Dialect::Sqlite, "Files", &sets, "ID", id.as_str());
        assert(views(sets@) =~= seq![
            assignment_text("Filename"@, self.field_text(Fields::Filename)),
            assignment_text("Content"@, self.field_text(Fields::Content)),
            assignment_text("MimeType"@, self.field_text(Fields::MimeType)),
        ]);
        Ok(r)
    }

    fn get_fields(&self) -> (r: Vec<String>)
        ensures
            views(r@) == file_columns(),
    {
        let r = vec![
            String::from_str("Filename"),
            String::from_str("Content"),
            String::from_str("MimeType"),
        ];
        assert(views(r@) =~= file_columns());
        r
    }
}

} // verus!

verus! {

/// What is uploaded is what is shown: the stored content of uploaded bytes
/// is upper-case hexadecimal, and the browser is given the Base64 text of
/// exactly those bytes.
pub proof fn lemma_upload_shown_back(contents: Seq<u8>)
    ensures
        is_hex_upper_text(hex_upper(contents)),
        hex_decode_text(hex_upper(contents)) == contents,
        base64_standard(hex_decode_text(hex_upper(contents))) == base64_standard(contents),
{
    crate::encoding::lemma_hex_roundtrip(contents);
}

} // verus!
