use mainframe::hbs_helpers::modulo_shows_block;
use mainframe::html::{html, tag, tag_str};
use mainframe::logs::Log;
use mainframe::message::Message;
use mainframe::notices::{file_shared, file_uploaded, nick_taken, sharing_stopped, user_created};
use mainframe::text::{find_pattern, split_first_two};

fn flash(kind: &str, text: &str) -> Option<(String, String)> {
    Some((kind.to_string(), text.to_string()))
}

#[test]
fn notices_from_flashes() {
    assert!(Message::get_from_flash(None).is_none());
    let m = Message::get_from_flash(flash("user does not exist", "bob1")).unwrap();
    assert_eq!((m.color, m.text.as_str(), m.optional), ("danger", "Użytkownik o nicku <strong>bob1</strong> nie istnieje.", None));
    let m = Message::get_from_flash(flash("incorrect password", "bob1")).unwrap();
    assert_eq!(m.text, "Podano nieprawidłowe hasło dla użytkownika <strong>bob1</strong>.");
    let m = Message::get_from_flash(flash("error", "bad")).unwrap();
    assert_eq!((m.color, m.text.as_str(), m.optional), ("danger", "bad", None));
    let m = Message::get_from_flash(flash("success", "good")).unwrap();
    assert_eq!((m.color, m.text.as_str(), m.optional), ("success", "good", None));
    let m = Message::get_from_flash(flash("error_w_nick", "oops;;;bob1")).unwrap();
    assert_eq!((m.color, m.text.as_str(), m.optional.as_deref()), ("danger", "oops", Some("bob1")));
    let m = Message::get_from_flash(flash("error_w_nick", "a;;;b;;;c")).unwrap();
    assert_eq!((m.text.as_str(), m.optional.as_deref()), ("a", Some("b")));
    assert!(Message::get_from_flash(flash("warning", "x")).is_none());
}

#[test]
fn splitting_at_a_separator() {
    assert_eq!(split_first_two("x;;;y", ";;;"), ("x".to_string(), "y".to_string()));
    assert_eq!(split_first_two(";;;", ";;;"), ("".to_string(), "".to_string()));
    assert_eq!(split_first_two("ą;;;;ż;;;", ";;;"), ("ą".to_string(), ";ż".to_string()));
    let s = "p;;;q;;;r";
    let pieces: Vec<&str> = s.split(";;;").collect();
    assert_eq!(split_first_two(s, ";;;"), (pieces[0].to_string(), pieces[1].to_string()));
    assert_eq!(find_pattern("abcabc", "ca", 0), Some(2));
    assert_eq!(find_pattern("abcabc", "ca", 3), None);
    assert_eq!(find_pattern("ab", "abc", 0), None);
}

#[test]
fn log_paths_and_lines() {
    let log = Log::at("2024_01_31", "12_05_09");
    assert_eq!(log.get_filename(), "logs/2024_01_31/Log12_05_09.csv");
    assert_eq!(Log::header(), "Czas,Użytkownik,Powód,Opis,Status");
    assert_eq!(Log::entry("12_05_10", vec!["alice", "login", "", "1"]), "12_05_10,alice,login,,1");
    assert_eq!(Log::entry("12_05_10", vec![]), "12_05_10,");
}

#[test]
fn modulo_helper_branch() {
    assert!(modulo_shows_block(0, 3));
    assert!(modulo_shows_block(6, 3));
    assert!(modulo_shows_block(-6, 3));
    assert!(modulo_shows_block(6, -3));
    assert!(!modulo_shows_block(7, 3));
    assert!(!modulo_shows_block(-7, 3));
    assert!(modulo_shows_block(i64::MIN, 2));
    assert!(modulo_shows_block(5, 1));
}

#[test]
fn html_elements() {
    assert_eq!(tag_str("p class=\"x\"", &vec!["a".to_string(), "b".to_string()]), "<p class=\"x\">ab</p>");
    assert_eq!(tag_str("div", &vec![]), "<div></div>");
    assert_eq!(tag_str("ąb c", &vec!["x".to_string()]), "<ąb c>x</ą>");
    assert_eq!(tag_str("żółw", &vec![]), "<żółw></żółw>");
    assert_eq!(tag(&vec!["span"], &vec!["t".to_string()]), "<span >t</span>");
    assert_eq!(html(&vec!["<p>x</p>".to_string(), "y".to_string()]), "<!DOCTYPE html><html ><p>x</p>y</html>");
}

#[test]
fn action_notices() {
    assert_eq!(user_created("ann1"), "Pomyślnie utworzono użytkownika <strong>ann1</strong>");
    assert_eq!(nick_taken("ann1"), "Nick <strong>ann1</strong> jest już zajęty!");
    assert_eq!(file_uploaded("a.txt"), "Plik <strong>a.txt</strong> został przesłany!");
    assert_eq!(file_shared("a.txt", "bob1"), "Udostępniono plik <strong>a.txt</strong> użytkownikowi <strong>bob1</strong>");
    assert_eq!(sharing_stopped("a.txt", "bob1"), "Przestano udostępniać plik <strong>a.txt</strong> użytkownikowi <strong>bob1</strong>");
}

#[test]
fn which_flashes_can_be_shown() {
    assert!(Message::can_show("error_w_nick", "a;;;b"));
    assert!(!Message::can_show("error_w_nick", "ab"));
    assert!(Message::can_show("error", "ab"));
    assert!(Message::can_show("user does not exist", "ab"));
    assert!(Message::can_show("anything", ""));
}
