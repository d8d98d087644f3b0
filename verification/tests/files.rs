use mainframe::file::{Fields, File, FileAccess};
use mainframe::sql::{insert_statement, join, update_statement, Dialect, Insertable, Queryable};
use mainframe::users::User;
use mainframe::users_files::{self as links, ShareAnswers, ShareStep, UserFiles};

fn user(id: i32, name: &str) -> User {
    let mut u = User::new(name.to_string(), "AB".to_string(), "CD".to_string(), None);
    u.id = id;
    u
}

fn file(id: i32, name: &str) -> File {
    let mut f = File::new(name.to_string(), "414243".to_string(), Some("text/plain".to_string()));
    f.id = id;
    f
}

#[test]
fn upload_is_stored_as_hex_and_shown_as_base64() {
    let f = File::from_upload("a.txt".to_string(), b"Hello!\x00\xff", None);
    assert_eq!(f.Content, "48656C6C6F2100FF");
    assert_eq!(f.base64_content().unwrap(), "SGVsbG8hAP8=");
    let empty = File::from_upload("e".to_string(), b"", None);
    assert_eq!(empty.Content, "");
    assert_eq!(empty.base64_content().unwrap(), "");
}

#[test]
fn base64_matches_rfc_4648_vectors() {
    let cases = [("", ""), ("f", "Zg=="), ("fo", "Zm8="), ("foo", "Zm9v"), ("foob", "Zm9vYg=="), ("fooba", "Zm9vYmE="), ("foobar", "Zm9vYmFy")];
    for (plain, encoded) in cases {
        let f = File::from_upload("x".to_string(), plain.as_bytes(), None);
        assert_eq!(f.base64_content().unwrap(), encoded);
    }
    let all: Vec<u8> = (0..=255).collect();
    let f = File::from_upload("x".to_string(), &all, None);
    assert_eq!(f.base64_content().unwrap(), base64::Engine::encode(&base64::engine::general_purpose::STANDARD, &all));
}

#[test]
fn content_that_is_not_upper_hex_is_refused() {
    for bad in ["ABC", "4g", "4a", "zz", "łł"] {
        let f = File::new("x".to_string(), bad.to_string(), None);
        assert_eq!(f.base64_content(), Err("Błąd dekodowania pliku!"), "{}", bad);
    }
}

#[test]
fn file_statements() {
    let f = file(3, "a.txt");
    assert_eq!(f.get_table(), "Files");
    assert_eq!(f.display_text(), "a.txt");
    assert_eq!(f.sql_types_string(Fields::MimeType), "'text/plain'");
    assert_eq!(File::new("n".to_string(), "".to_string(), None).sql_types_string(Fields::MimeType), "NULL");
    assert_eq!(f.sql_type_id(), "3");
    assert_eq!(f.get_fields(), vec!["Filename", "Content", "MimeType"]);
    assert_eq!(
        f.get_insert_string().unwrap(),
        "INSERT INTO Files (Filename, Content, MimeType) VALUES ('a.txt','414243','text/plain') RETURNING *"
    );
    assert_eq!(
        f.get_update_string().unwrap(),
        "UPDATE Files SET Filename='a.txt', Content='414243', MimeType='text/plain' WHERE ID = 3 RETURNING *"
    );
    assert_eq!(File::select_one_query(3), "SELECT * FROM Files WHERE ID = 3");
    assert_eq!(File::select_all_query(), "SELECT * FROM Files");
}

#[test]
fn mssql_statements() {
    let cols = vec!["A".to_string(), "B".to_string()];
    let vals = vec!["1".to_string(), "'x'".to_string()];
    assert_eq!(insert_statement(Dialect::Mssql, "T", &cols, &vals), "INSERT INTO T OUTPUT inserted.* VALUES (1,'x')");
    let sets = vec!["A=1".to_string()];
    assert_eq!(update_statement(Dialect::Mssql, "T", &sets, "ID", "4"), "UPDATE T SET A=1 OUTPUT inserted.* WHERE ID=4");
    assert_eq!(join(&vec![], ", "), "");
    assert_eq!(join(&vec!["a".to_string()], ", "), "a");
}

#[test]
fn owner_link_of_a_stored_file() {
    let f = file(3, "a.txt");
    let l = f.owner_link(&user(8, "alice"));
    assert_eq!(l, UserFiles { id: 0, UserID: 8, FileID: 3, Owner: true });
    assert_eq!(
        l.get_insert_string().unwrap(),
        "INSERT INTO UserFiles (UserID, FileID, Owner) VALUES (8,3,1) RETURNING *"
    );
    let mut s = UserFiles::new(8, 3, false);
    s.id = 11;
    assert_eq!(s.get_update_string().unwrap(), "UPDATE UserFiles SET UserID=8, FileID=3, Owner=0 WHERE ID = 11 RETURNING *");
    assert_eq!(s.sql_types_string(links::Fields::Owner), "0");
    assert_eq!(s.get_fields(), vec!["UserID", "FileID", "Owner"]);
    assert_eq!(s.sql_type_id(), "11");
    assert_eq!(s.get_table(), "UserFiles");
    assert_eq!(UserFiles::select_one_query(2), "SELECT * FROM UserFiles WHERE ID = 2");
    assert_eq!(UserFiles::select_all_query(), "SELECT * FROM UserFiles");
}

#[test]
fn deleting_a_file() {
    let f = file(3, "a.txt");
    assert_eq!(f.delete_file_from_user(None), Err("Należy się zalogować".to_string()));
    assert_eq!(f.delete_file_from_user(Some(Ok(true))), Ok("Plik 'a.txt' został pomyślnie usunięty".to_string()));
    assert_eq!(f.delete_file_from_user(Some(Ok(false))), Ok("Wyłączono się z udostępniania pliku 'a.txt'".to_string()));
    assert_eq!(f.delete_file_from_user(Some(Err("x".to_string()))), Err("Nie masz dostępu do tego pliku!".to_string()));
    assert_eq!(UserFiles::delete(None, &f).unwrap_err(), "Nie masz dostępu do tego pliku");
    let mut owner = UserFiles::new(8, 3, true);
    owner.id = 20;
    let (stmts, was_owner) = UserFiles::delete(Some(owner), &f).unwrap();
    assert!(was_owner);
    assert_eq!(stmts, vec!["DELETE FROM UserFiles WHERE FileID = 3", "DELETE FROM Files WHERE ID=3"]);
    let mut shared = UserFiles::new(9, 3, false);
    shared.id = 21;
    let (stmts, was_owner) = UserFiles::delete(Some(shared), &f).unwrap();
    assert!(!was_owner);
    assert_eq!(stmts, vec!["DELETE FROM UserFiles WHERE ID = 21"]);
    assert_eq!(
        UserFiles::delete_lookup_query(&user(8, "a"), &f),
        "SELECT UF.* FROM UserFiles AS UF JOIN Users AS U ON UF.UserID = U.ID JOIN Files AS F ON F.ID = UF.FileID WHERE U.ID = 8 AND F.ID = 3"
    );
}

#[test]
fn renaming_a_file() {
    let mut f = file(3, "a.txt");
    assert_eq!(f.change_filename(FileAccess::NotLoggedIn, "b".to_string()), Err("Należy się zalogować"));
    assert_eq!(f.change_filename(FileAccess::NoAccess, "b".to_string()), Err("Nie masz dostępu do tego pliku!"));
    assert_eq!(f.change_filename(FileAccess::Link(UserFiles::new(9, 3, false)), "b".to_string()), Err("Nie jesteś właścicielem tego pliku!"));
    assert_eq!(f.Filename, "a.txt");
    assert_eq!(f.change_filename(FileAccess::Link(UserFiles::new(8, 3, true)), "b.txt".to_string()), Ok(()));
    assert_eq!(f.Filename, "b.txt");
    assert_eq!(f.Content, "414243");
}

#[test]
fn listing_queries() {
    let u = user(8, "alice");
    assert_eq!(
        UserFiles::get_from_user_and_file_query(&u, &file(3, "a")),
        "SELECT UF.* FROM UserFiles AS UF Join Users AS U ON UF.UserID = U.ID\n\t\t\t\t\t\t\t\tJOIN Files AS F ON F.ID = UF.FileID WHERE U.ID = 8 AND F.ID = 3"
    );
    assert_eq!(
        UserFiles::files_of_user_query(&u, true),
        "SELECT F.* FROM UserFiles AS UF JOIN Users AS U ON UF.UserID = U.ID JOIN Files AS F ON F.ID = UF.FileID WHERE U.ID = 8\n\t\t\tAND UF.Owner = 1"
    );
    assert_eq!(
        UserFiles::files_of_user_query(&u, false),
        "SELECT F.* FROM UserFiles AS UF JOIN Users AS U ON UF.UserID = U.ID JOIN Files AS F ON F.ID = UF.FileID WHERE U.ID = 8\n\t\t\tAND UF.Owner = 0"
    );
    assert_eq!(
        UserFiles::get_file_query(&u, -1),
        "SELECT F.* FROM UserFiles AS UF JOIN Users AS U ON UF.UserID = U.ID JOIN Files AS F ON F.ID = UF.FileID WHERE U.ID = 8 AND F.ID = -1"
    );
    let owner = UserFiles::new(8, 3, true);
    assert_eq!(
        owner.sharing_users_of_file().unwrap(),
        "SELECT * FROM UserFiles as UF JOIN Users AS U ON U.ID = UF.UserID WHERE UF.FileID = 3 AND Owner = 0"
    );
    assert_eq!(UserFiles::new(8, 3, false).sharing_users_of_file(), Err("Nie jesteś właścicielem pliku!".to_string()));
}

#[test]
fn sharing_a_file_step_by_step() {
    let owner = user(8, "alice");
    let f = file(3, "a.txt");
    assert_eq!(UserFiles::check_share_target_name(&owner, "alice"), Err("Nie możesz udostępnić pliku samemu sobie!".to_string()));
    assert_eq!(UserFiles::check_share_target_name(&owner, "bob1"), Ok(()));
    assert_eq!(UserFiles::check_share_link(None, &f), Err("Nie masz dostępu do pliku <strong>a.txt</strong>".to_string()));
    assert_eq!(UserFiles::check_share_link(Some(UserFiles::new(8, 3, false)), &f), Err("Nie jesteś właścicielem pliku <strong>a.txt</strong>!".to_string()));
    let link = UserFiles::check_share_link(Some(UserFiles::new(8, 3, true)), &f).unwrap();
    assert!(link.Owner);
    assert_eq!(UserFiles::share_target_query("bob1"), "SELECT * FROM Users WHERE Username = 'bob1'");
    let err = UserFiles::check_share_target(None, "bob1").unwrap_err();
    assert_eq!(err, "Użytkownik o nicku <strong>bob1</strong> nie istnieje!");
    let bob = UserFiles::check_share_target(Some(user(9, "bob1")), "bob1").unwrap();
    assert_eq!(bob.id, 9);
    let new_link = UserFiles::new_share(&vec![user(10, "carol")], &bob, &f, "bob1").unwrap();
    assert_eq!(new_link, UserFiles { id: 0, UserID: 9, FileID: 3, Owner: false });
    let again = UserFiles::new_share(&vec![user(10, "carol"), user(9, "bob1")], &bob, &f, "bob1");
    assert_eq!(again, Err("Plik <strong>a.txt</strong> był już udostępniony użytkownikowi <strong>bob1</strong>".to_string()));
}

#[test]
fn unsharing_a_file() {
    let f = file(3, "a.txt");
    let q = UserFiles::new(8, 3, true).unshare_statement(3, "bob1", &f).unwrap();
    assert_eq!(
        q,
        "DELETE FROM UserFiles WHERE ID = (SELECT UF.ID FROM UserFiles AS UF JOIN Files AS F ON F.ID = UF.FileID\n                                            JOIN Users AS U ON U.ID = UF.UserID WHERE F.ID = 3 AND U.Username = 'bob1'\n                                            AND Owner = 0)"
    );
    assert_eq!(
        UserFiles::new(8, 3, false).unshare_statement(3, "bob1", &f),
        Err("Nie jesteś właścicielem pliku <strong>a.txt</strong>!".to_string())
    );
}

fn refused(step: ShareStep) -> String {
    match step {
        ShareStep::Refuse(m) => m,
        _ => panic!("expected a refusal"),
    }
}

#[test]
fn sharing_a_file_in_order() {
    let owner = user(8, "alice");
    let f = file(3, "a.txt");
    let mut a = ShareAnswers { link: None, target: None, sharers: None };
    assert_eq!(refused(UserFiles::add_shared_user(&owner, &f, "alice", &a)), "Nie możesz udostępnić pliku samemu sobie!");
    match UserFiles::add_shared_user(&owner, &f, "bob1", &a) {
        ShareStep::AskLink(q) => assert_eq!(q, UserFiles::get_from_user_and_file_query(&owner, &f)),
        _ => panic!("expected the link question"),
    }
    a.link = Some(None);
    assert_eq!(refused(UserFiles::add_shared_user(&owner, &f, "bob1", &a)), "Nie masz dostępu do pliku <strong>a.txt</strong>");
    a.link = Some(Some(UserFiles::new(8, 3, false)));
    assert_eq!(refused(UserFiles::add_shared_user(&owner, &f, "bob1", &a)), "Nie jesteś właścicielem pliku <strong>a.txt</strong>!");
    a.link = Some(Some(UserFiles::new(8, 3, true)));
    match UserFiles::add_shared_user(&owner, &f, "bob1", &a) {
        ShareStep::AskTarget(q) => assert_eq!(q, "SELECT * FROM Users WHERE Username = 'bob1'"),
        _ => panic!("expected the account question"),
    }
    a.target = Some(None);
    assert_eq!(refused(UserFiles::add_shared_user(&owner, &f, "bob1", &a)), "Użytkownik o nicku <strong>bob1</strong> nie istnieje!");
    a.target = Some(Some(user(9, "bob1")));
    match UserFiles::add_shared_user(&owner, &f, "bob1", &a) {
        ShareStep::AskSharers(q) => assert_eq!(q, "SELECT * FROM UserFiles as UF JOIN Users AS U ON U.ID = UF.UserID WHERE UF.FileID = 3 AND Owner = 0"),
        _ => panic!("expected the sharers question"),
    }
    a.sharers = Some(vec![user(10, "carol")]);
    match UserFiles::add_shared_user(&owner, &f, "bob1", &a) {
        ShareStep::Insert(l) => assert_eq!(l, UserFiles { id: 0, UserID: 9, FileID: 3, Owner: false }),
        _ => panic!("expected the new link"),
    }
    // once the link is stored the account is listed, and a second request is refused
    a.sharers = Some(vec![user(10, "carol"), user(9, "bob1")]);
    assert_eq!(
        refused(UserFiles::add_shared_user(&owner, &f, "bob1", &a)),
        "Plik <strong>a.txt</strong> był już udostępniony użytkownikowi <strong>bob1</strong>"
    );
}
