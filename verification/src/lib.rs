//! Core logic of a small file-storage and file-sharing service: account
//! registration rules, password hashing, session tokens, the SQL statements the
//! service sends to its database, and the decisions taken on what the database
//! answers.
#![allow(non_snake_case)]
#![allow(non_camel_case_types)]

pub mod crypto;
pub mod encoding;
pub mod errors;
pub mod file;
pub mod hbs_helpers;
pub mod html;
pub mod logs;
pub mod message;
pub mod notices;
pub mod sql;
pub mod text;
pub mod user_maker;
pub mod users;
pub mod users_files;
