//! The series records the organiser keeps in the database: which title and
//! season a series directory was resolved to.

use vstd::prelude::*;
use crate::fs::{file_name, path_file_name};
use crate::text::{owned, trim, trimmed};

verus! {

#[verifier::external_type_specification]
#[verifier::external_body]
pub struct ExPoolError(diesel::r2d2::PoolError);

#[verifier::external_type_specification]
#[verifier::external_body]
pub struct ExQueryError(diesel::result::Error);

/// Whether a character is a lower-case hexadecimal digit.
pub open spec fn is_lower_hex_digit(c: char) -> bool {
    ||| '0' as int <= c as int <= '9' as int
    ||| 'a' as int <= c as int <= 'f' as int
}

/// Whether a text is a version 7 UUID in its hyphenated, lower-case form:
/// five groups of 8, 4, 4, 4 and 12 hexadecimal digits joined by hyphens,
/// the version digit `7` opening the third group and one of `8`, `9`, `a`,
/// `b` (the RFC 4122 variant) opening the fourth.
pub open spec fn is_hyphenated_v7_uuid(s: Seq<char>) -> bool {
    &&& s.len() == 36
    &&& forall|i: int|
        0 <= i < 36 ==> if i == 8 || i == 13 || i == 18 || i == 23 {
            s[i] == '-'
        } else {
            is_lower_hex_digit(#[trigger] s[i])
        }
    &&& s[14] == '7'
    &&& (s[19] == '8' || s[19] == '9' || s[19] == 'a' || s[19] == 'b')
}

/// A new record id: a version 7 UUID (`uuid::Uuid::now_v7`), as text.
///
/// Trusted: the id depends on the clock and on chance, so only its shape is
/// stated: `now_v7` sets the version to 7 and the RFC 4122 variant, and
/// `to_string` writes the hyphenated lower-case form. Which digits the
/// clock and the random source give is left unsaid.
#[verifier::external_body]
pub(crate) fn new_record_id() -> (r: String)
    ensures
        is_hyphenated_v7_uuid(r@),
{
    uuid::Uuid::now_v7().to_string()
}

/// The record of a series directory.
#[derive(Clone, Debug, PartialEq, Eq)]
pub struct SeriesMetadata {
    pub id: String,
    pub title: String,
    pub path: String,
    pub season: i64,
}

/// What creating a record gives: the title is trimmed and must not be
/// blank, the path must not be blank, the season defaults to one and must
/// not be zero.
pub open spec fn record_verdict(
    title: Seq<char>,
    path: Seq<char>,
    season: Option<i64>,
    r: Result<SeriesMetadata, String>,
) -> bool {
    let s = match season {
        Some(s) => s,
        None => 1,
    };
    if trimmed(title).len() == 0 {
        r matches Err(m) && m@ == "series title cannot be empty"@
    } else if trimmed(path).len() == 0 {
        r matches Err(m) && m@ == "series path cannot be empty"@
    } else if s == 0 {
        r matches Err(m) && m@ == "series season must be greater than zero"@
    } else {
        r matches Ok(rec) && rec.title@ == trimmed(title) && rec.path@ == path && rec.season == s
            && is_hyphenated_v7_uuid(rec.id@)
    }
}

impl SeriesMetadata {
    /// A new record with a fresh id.
    pub fn new(title: String, path: String, season: Option<i64>) -> (r: Result<SeriesMetadata, String>)
        ensures
            record_verdict(title@, path@, season, r),
    {
        let title = owned(trim(title.as_str()));
        if title.as_str().is_empty() {
            return Err(owned("series title cannot be empty"));
        }
        if trim(path.as_str()).is_empty() {
            return Err(owned("series path cannot be empty"));
        }
        let season = match season {
            Some(s) => s,
            None => 1,
        };
        if season == 0 {
            return Err(owned("series season must be greater than zero"));
        }
        Ok(SeriesMetadata { id: new_record_id(), title, path, season })
    }

    /// A new record for a series directory, titled after the directory.
    pub fn from_directory(path: &str, season: Option<i64>) -> (r: Result<SeriesMetadata, String>)
        ensures
            match path_file_name(path@) {
                None => r matches Err(m) && m@ == "series path "@ + path@ + " has no directory name"@,
                Some(name) => record_verdict(name, path@, season, r),
            },
    {
        let title = match file_name(path) {
            None => {
                let mut m = owned("series path ");
                m.append(path);
                m.append(" has no directory name");
                return Err(m);
            },
            Some(title) => title,
        };
        Self::new(title, owned(path), season)
    }
}

/// The database row of a series record; the season column is an `i32`.
#[derive(Clone, Debug)]
pub struct SeriesMetadataTable {
    pub id: String,
    pub title: String,
    pub path: String,
    pub season: i32,
}

/// Errors of the series record repository.
#[derive(Debug)]
pub enum SeriesMetadataRepositoryError {
    Connection(diesel::r2d2::PoolError),
    Query(diesel::result::Error),
    SeasonOutOfRange(core::num::TryFromIntError),
}

/// The row a record is written as, when its season fits the column.
pub open spec fn row_of(m: SeriesMetadata) -> Option<SeriesMetadataTable> {
    if i32::MIN <= m.season <= i32::MAX {
        Some(SeriesMetadataTable { id: m.id, title: m.title, path: m.path, season: m.season as i32 })
    } else {
        None
    }
}

/// The record a row is read as.
pub open spec fn record_of(t: SeriesMetadataTable) -> SeriesMetadata {
    SeriesMetadata { id: t.id, title: t.title, path: t.path, season: t.season as i64 }
}

impl SeriesMetadataTable {
    /// The row of a record; a season that does not fit the `i32` column is
    /// refused.
    pub fn try_from(value: SeriesMetadata) -> (r: Result<SeriesMetadataTable, SeriesMetadataRepositoryError>)
        ensures
            match row_of(value) {
                Some(t) => r matches Ok(x) && x == t,
                None => r matches Err(e) && e is SeasonOutOfRange,
            },
    {
        match i32::try_from(value.season) {
            Ok(season) => Ok(
                SeriesMetadataTable { id: value.id, title: value.title, path: value.path, season },
            ),
            Err(e) => Err(SeriesMetadataRepositoryError::SeasonOutOfRange(e)),
        }
    }
}

impl SeriesMetadata {
    /// The record of a row.
    pub fn try_from(value: SeriesMetadataTable) -> (r: Result<SeriesMetadata, SeriesMetadataRepositoryError>)
        ensures
            r matches Ok(m) && m == record_of(value),
    {
        Ok(SeriesMetadata {
            id: value.id,
            title: value.title,
            path: value.path,
            season: i64::from(value.season),
        })
    }
}

/// A record whose season fits the database column is read back from its row
/// unchanged; a record whose season does not fit has no row.
pub proof fn records_survive_the_database(m: SeriesMetadata)
    ensures
        i32::MIN <= m.season <= i32::MAX ==> (row_of(m) matches Some(t) && record_of(t) == m),
        !(i32::MIN <= m.season <= i32::MAX) ==> row_of(m) is None,
{
}

impl From<diesel::r2d2::PoolError> for SeriesMetadataRepositoryError {
    fn from(error: diesel::r2d2::PoolError) -> Self {
        SeriesMetadataRepositoryError::Connection(error)
    }
}

impl vstd::std_specs::convert::FromSpecImpl<diesel::r2d2::PoolError> for SeriesMetadataRepositoryError {
    open spec fn obeys_from_spec() -> bool {
        true
    }

    open spec fn from_spec(v: diesel::r2d2::PoolError) -> Self {
        SeriesMetadataRepositoryError::Connection(v)
    }
}

impl From<diesel::result::Error> for SeriesMetadataRepositoryError {
    fn from(error: diesel::result::Error) -> Self {
        SeriesMetadataRepositoryError::Query(error)
    }
}

impl vstd::std_specs::convert::FromSpecImpl<diesel::result::Error> for SeriesMetadataRepositoryError {
    open spec fn obeys_from_spec() -> bool {
        true
    }

    open spec fn from_spec(v: diesel::result::Error) -> Self {
        SeriesMetadataRepositoryError::Query(v)
    }
}

impl From<core::num::TryFromIntError> for SeriesMetadataRepositoryError {
    fn from(error: core::num::TryFromIntError) -> Self {
        SeriesMetadataRepositoryError::SeasonOutOfRange(error)
    }
}

impl vstd::std_specs::convert::FromSpecImpl<core::num::TryFromIntError> for SeriesMetadataRepositoryError {
    open spec fn obeys_from_spec() -> bool {
        true
    }

    open spec fn from_spec(v: core::num::TryFromIntError) -> Self {
        SeriesMetadataRepositoryError::SeasonOutOfRange(v)
    }
}

/// `Display` of a connection-pool error.
///
/// Trusted: nothing is stated of the text; it depends on the pool error.
#[verifier::external_body]
fn pool_error_text(error: &diesel::r2d2::PoolError) -> String {
    error.to_string()
}

/// `Display` of a query error.
///
/// Trusted: nothing is stated of the text; it depends on the query error.
#[verifier::external_body]
fn query_error_text(error: &diesel::result::Error) -> String {
    error.to_string()
}

impl SeriesMetadataRepositoryError {
    /// The message shown for the error: the kind of failure, then the
    /// database's own message where there is one.
    pub fn to_string(&self) -> (r: String)
        ensures
            self is Connection ==> exists|cause: Seq<char>|
                r@ == "failed to get database connection: "@ + cause,
            self is Query ==> exists|cause: Seq<char>| r@ == "database query failed: "@ + cause,
            self is SeasonOutOfRange ==> r@ == "series season is out of range"@,
    {
        match self {
            SeriesMetadataRepositoryError::Connection(error) => {
                let mut r = owned("failed to get database connection: ");
                let cause = pool_error_text(error);
                r.append(cause.as_str());
                r
            },
            SeriesMetadataRepositoryError::Query(error) => {
                let mut r = owned("database query failed: ");
                let cause = query_error_text(error);
                r.append(cause.as_str());
                r
            },
            SeriesMetadataRepositoryError::SeasonOutOfRange(_) => owned(
                "series season is out of range",
            ),
        }
    }
}

} // verus!
