//! Where the index database is kept.

use vstd::prelude::*;
use crate::fs::{
    expand_user_dir, expanded_user_dir, file_name, join_path, joined_path, parent,
    path_file_name, path_parent,
};
use crate::text::owned;

verus! {

/// The database settings.
#[derive(Clone, Debug)]
pub struct DatabaseConfig {
    pub file: String,
}

/// The database file when none is configured.
pub const DEFAULT_DATABASE_FILE: &'static str = "nenechi-cli.db";

impl DatabaseConfig {
    /// The database file when none is configured.
    pub fn default_file() -> (r: String)
        ensures
            r@ == DEFAULT_DATABASE_FILE@,
    {
        owned(DEFAULT_DATABASE_FILE)
    }
}

impl Default for DatabaseConfig {
    fn default() -> (r: Self)
        ensures
            r.file@ == DEFAULT_DATABASE_FILE@,
    {
        DatabaseConfig { file: Self::default_file() }
    }
}

/// The home directory as an optional text.
pub open spec fn home_text(home: Option<&str>) -> Option<Seq<char>> {
    match home {
        Some(h) => Some(h@),
        None => None,
    }
}

/// The directory of the database file, with a leading `~` expanded.
pub open spec fn database_directory(file: Seq<char>, home: Option<Seq<char>>) -> Option<Seq<char>> {
    match path_parent(file) {
        Some(d) => Some(expanded_user_dir(d, home)),
        None => None,
    }
}

impl DatabaseConfig {
    /// The SQLite address of the database: `sqlite://` and the file, with a
    /// leading `~` expanded to the home directory.
    pub fn sqlite_uri(&self, home: Option<&str>) -> (r: String)
        ensures
            r@ == "sqlite://"@ + expanded_user_dir(self.file@, home_text(home)),
    {
        let mut r = owned("sqlite://");
        r.append(expand_user_dir(self.file.as_str(), home).as_str());
        r
    }

    /// The directory of the database file, expanded, if the file has one.
    pub fn directory(&self, home: Option<&str>) -> (r: Option<String>)
        ensures
            match database_directory(self.file@, home_text(home)) {
                Some(d) => r matches Some(s) && s@ == d,
                None => r is None,
            },
    {
        match parent(self.file.as_str()) {
            Some(d) => Some(expand_user_dir(d.as_str(), home)),
            None => None,
        }
    }

    /// The name of the database file, if it has one.
    pub fn filename(&self) -> (r: Option<String>)
        ensures
            match path_file_name(self.file@) {
                Some(n) => r matches Some(s) && s@ == n,
                None => r is None,
            },
    {
        file_name(self.file.as_str())
    }

    /// The full path of the database file: its name inside its expanded
    /// directory, when it has both.
    pub fn path(&self, home: Option<&str>) -> (r: Option<String>)
        ensures
            match (path_file_name(self.file@), database_directory(self.file@, home_text(home))) {
                (Some(n), Some(d)) => r matches Some(s) && s@ == joined_path(d, n),
                _ => r is None,
            },
    {
        let name = match self.filename() {
            Some(n) => n,
            None => return None,
        };
        match self.directory(home) {
            Some(d) => Some(join_path(d.as_str(), name.as_str())),
            None => None,
        }
    }
}

} // verus!
