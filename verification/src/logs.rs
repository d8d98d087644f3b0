//! The activity log: a CSV file per start of the service, one line per event.
use vstd::prelude::*;
use crate::sql::{join, joined, views};

verus! {

/// Where the log of one start of the service is written.
pub struct Log {
    filepath: String,
}

/// The path of the log started on `day` at `time`:
/// `logs/<day>/Log<time>.csv`.
pub open spec fn log_path(day: Seq<char>, time: Seq<char>) -> Seq<char> {
    "logs/"@ + day + "/Log"@ + time + ".csv"@
}

/// A log line: the time, then the fields, all separated by commas.
pub open spec fn log_line(time: Seq<char>, fields: Seq<Seq<char>>) -> Seq<char> {
    time + ","@ + joined(fields, ","@)
}

impl Log {
    /// The path of the log file.
    pub closed spec fn path(&self) -> Seq<char> {
        self.filepath@
    }

    /// The log started on `day` (`%Y_%m_%d`) at `time` (`%H_%M_%S`).
    pub fn at(day: &str, time: &str) -> (r: Log)
        ensures
            r.path() == log_path(day@, time@),
    {
        let mut p = String::from_str("logs/");
        p.append(day);
        p.append("/Log");
        p.append(time);
        p.append(".csv");
        Log { filepath: p }
    }

    /// The path of the log file.
    pub fn get_filename(&self) -> (r: &str)
        ensures
            r@ == self.path(),
    {
        self.filepath.as_str()
    }

    /// The first line of every log file.
    pub fn header() -> (r: &'static str)
        ensures
            r@ == "Czas,Użytkownik,Powód,Opis,Status"@,
    {
        "Czas,Użytkownik,Powód,Opis,Status"
    }

    /// The line that records an event at `time` (`%H_%M_%S`).
    pub fn entry(time: &str, text: Vec<&str>) -> (r: String)
        ensures
            r@ == log_line(time@, text@.map_values(|s: &str| s@)),
    {
        let mut fields: Vec<String> = Vec::new();
        let n = text.len();
        let mut i: usize = 0;
        while i < n
            invariant
                n == text@.len(),
                i <= n,
                fields@.len() == i,
                forall|j: int| 0 <= j < i ==> #[trigger] fields@[j]@ == text@[j]@,
            decreases n - i,
        {
            fields.push(String::from_str(text[i]));
            i = i + 1;
        }
        assert(views(fields@) =~= text@.map_values(|s: &str| s@));
        let mut r = String::from_str(time);
        r.append(",");
        r.append(join(&fields, ",").as_str());
        r
    }
}

} // verus!
