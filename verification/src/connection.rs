//! Connection descriptions as the caller supplies them, and the connection
//! descriptor that is built from one.

use crate::text::{decimal_digits, push_decimal};
use vstd::prelude::*;

verus! {

/// One target database as the caller describes it. Only `id` is always there.
/// `user`, `password` and `db` are required: each must be there and must not be
/// empty for a connection to be attempted. `host` and `port` have defaults,
/// `schema` and `db_type` are optional, and an empty `schema` counts as none.
#[derive(Debug)]
pub struct DatabaseConnection {
    pub id: String,
    pub db_type: Option<String>,
    pub host: Option<String>,
    pub db: Option<String>,
    pub schema: Option<String>,
    pub user: Option<String>,
    pub password: Option<String>,
    pub port: Option<u16>,
}

/// The mathematical value of a `DatabaseConnection`.
pub struct ConnectionView {
    pub id: Seq<char>,
    pub db_type: Option<Seq<char>>,
    pub host: Option<Seq<char>>,
    pub db: Option<Seq<char>>,
    pub schema: Option<Seq<char>>,
    pub user: Option<Seq<char>>,
    pub password: Option<Seq<char>>,
    pub port: Option<u16>,
}

/// The characters of an optional text.
pub open spec fn text_of(o: Option<String>) -> Option<Seq<char>> {
    match o {
        Some(s) => Some(s@),
        None => None,
    }
}

impl View for DatabaseConnection {
    type V = ConnectionView;

    open spec fn view(&self) -> ConnectionView {
        ConnectionView {
            id: self.id@,
            db_type: text_of(self.db_type),
            host: text_of(self.host),
            db: text_of(self.db),
            schema: text_of(self.schema),
            user: text_of(self.user),
            password: text_of(self.password),
            port: self.port,
        }
    }
}

fn clone_text(o: &Option<String>) -> (r: Option<String>)
    ensures
        text_of(r) == text_of(*o),
{
    match o {
        Some(s) => Some(s.clone()),
        None => None,
    }
}

impl Clone for DatabaseConnection {
    fn clone(&self) -> (r: Self)
        ensures
            r@ == self@,
    {
        DatabaseConnection {
            id: self.id.clone(),
            db_type: clone_text(&self.db_type),
            host: clone_text(&self.host),
            db: clone_text(&self.db),
            schema: clone_text(&self.schema),
            user: clone_text(&self.user),
            password: clone_text(&self.password),
            port: self.port,
        }
    }
}

/// A required field that a connection description lacks.
#[derive(Clone, Copy, Debug, PartialEq, Eq, Structural)]
pub enum MissingCredential {
    User,
    Password,
    Database,
}

/// The host used where none is given.
pub open spec fn default_host() -> Seq<char> {
    "localhost"@
}

/// The port used where none is given.
pub const DEFAULT_PORT: u16 = 5432;

/// The text of a field that is given: one that is there and is not empty.
pub open spec fn given(o: Option<Seq<char>>) -> Option<Seq<char>> {
    match o {
        Some(s) => if s.len() > 0 {
            Some(s)
        } else {
            None
        },
        None => None,
    }
}

/// The first required field that `c` lacks, looking at user, password and
/// database name in that order. A field that is empty is lacking like one that
/// is not there.
pub open spec fn missing_credential(c: ConnectionView) -> Option<MissingCredential> {
    if given(c.user) is None {
        Some(MissingCredential::User)
    } else if given(c.password) is None {
        Some(MissingCredential::Password)
    } else if given(c.db) is None {
        Some(MissingCredential::Database)
    } else {
        None
    }
}

/// The default schema that `c` configures, if any: an empty name configures none.
pub open spec fn schema_of(c: ConnectionView) -> Option<Seq<char>> {
    given(c.schema)
}

/// `c` holds every required field, none of them empty: a connection can be
/// attempted.
pub open spec fn is_complete(c: ConnectionView) -> bool {
    missing_credential(c) is None
}

/// What is said of a missing field.
pub open spec fn missing_credential_text(m: MissingCredential) -> Seq<char> {
    match m {
        MissingCredential::User => "User is required"@,
        MissingCredential::Password => "Password is required"@,
        MissingCredential::Database => "Database name is required"@,
    }
}

/// The host that `c` is reached at.
pub open spec fn host_of(c: ConnectionView) -> Seq<char> {
    match c.host {
        Some(h) => h,
        None => default_host(),
    }
}

/// The port that `c` is reached at.
pub open spec fn port_of(c: ConnectionView) -> u16 {
    match c.port {
        Some(p) => p,
        None => DEFAULT_PORT,
    }
}

/// The connection descriptor for a complete description `c`: the five settings
/// as `key=value`, separated by single spaces, the port in decimal.
pub open spec fn connection_string(c: ConnectionView) -> Seq<char>
    recommends
        is_complete(c),
{
    "host="@ + host_of(c) + " port="@ + decimal_digits(port_of(c) as nat) + " user="@ + c.user->0
        + " password="@ + c.password->0 + " dbname="@ + c.db->0
}

impl MissingCredential {
    /// What is said of this missing field.
    pub fn text(&self) -> (s: &'static str)
        ensures
            s@ == missing_credential_text(*self),
    {
        match self {
            MissingCredential::User => "User is required",
            MissingCredential::Password => "Password is required",
            MissingCredential::Database => "Database name is required",
        }
    }
}

fn given_text(o: &Option<String>) -> (r: Option<&String>)
    ensures
        match given(text_of(*o)) {
            Some(s) => r matches Some(t) && t@ == s,
            None => r is None,
        },
{
    match o {
        Some(s) => if s.as_str().is_empty() {
            None
        } else {
            Some(s)
        },
        None => None,
    }
}

impl DatabaseConnection {
    /// The first required field that this description lacks, if any.
    pub fn missing(&self) -> (m: Option<MissingCredential>)
        ensures
            m == missing_credential(self@),
    {
        if given_text(&self.user).is_none() {
            Some(MissingCredential::User)
        } else if given_text(&self.password).is_none() {
            Some(MissingCredential::Password)
        } else if given_text(&self.db).is_none() {
            Some(MissingCredential::Database)
        } else {
            None
        }
    }

    /// The default schema that this description configures, if any.
    pub fn default_schema(&self) -> (r: Option<&String>)
        ensures
            match schema_of(self@) {
                Some(s) => r matches Some(t) && t@ == s,
                None => r is None,
            },
    {
        given_text(&self.schema)
    }

    /// The connection descriptor for this description, or the first required
    /// field that it lacks. A required field must be there and must not be
    /// empty; beyond that its text is taken as it is.
    pub fn descriptor(&self) -> (r: Result<String, MissingCredential>)
        ensures
            match missing_credential(self@) {
                None => r matches Ok(s) && s@ == connection_string(self@),
                Some(m) => r == Err::<String, MissingCredential>(m),
            },
    {
        let user = match given_text(&self.user) {
            Some(u) => u,
            None => {
                return Err(MissingCredential::User);
            },
        };
        let password = match given_text(&self.password) {
            Some(p) => p,
            None => {
                return Err(MissingCredential::Password);
            },
        };
        let db = match given_text(&self.db) {
            Some(d) => d,
            None => {
                return Err(MissingCredential::Database);
            },
        };
        let port: u16 = match self.port {
            Some(p) => p,
            None => DEFAULT_PORT,
        };
        let mut s = String::from_str("host=");
        match &self.host {
            Some(h) => s.append(h.as_str()),
            None => s.append("localhost"),
        }
        s.append(" port=");
        push_decimal(&mut s, port as u64);
        s.append(" user=");
        s.append(user.as_str());
        s.append(" password=");
        s.append(password.as_str());
        s.append(" dbname=");
        s.append(db.as_str());
        Ok(s)
    }
}

/// Builds the connection descriptor for `conn`, or says in words which
/// required field is missing or empty.
pub fn build_connection_string(conn: &DatabaseConnection) -> (r: Result<String, String>)
    ensures
        match missing_credential(conn@) {
            None => r matches Ok(s) && s@ == connection_string(conn@),
            Some(m) => r matches Err(e) && e@ == missing_credential_text(m),
        },
{
    match conn.descriptor() {
        Ok(s) => Ok(s),
        Err(m) => Err(String::from_str(m.text())),
    }
}

} // verus!
