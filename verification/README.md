# mainframe

The verified core of a small web service for storing files and sharing them
between accounts.

- `src/` is the library, checked by Verus: the registration rules, password
  hashing (PBKDF2-HMAC-SHA512 from `ring`, with a random salt), session
  tokens, the upper-case hexadecimal form in which file contents, hashes and
  salts are stored (`data_encoding`), the Base64 form in which a file is shown
  (`base64`), the SQL statements sent to the SQLite database, the decisions
  taken on what the database answers (who may rename, delete or share a
  file), the notices shown after a redirect, the log lines, and small HTML
  builders.
- `app/` is the Rocket web application around it: routes, forms, cookies,
  templates, the database connection and the log file on disk.
- `tests/` runs the library against the real outside crates.

The database holds three tables:

```
Users(ID, Username, Hash, Salt, SessionID)
Files(ID, Filename, Content, MimeType)
UserFiles(ID, UserID, FileID, Owner)
```
