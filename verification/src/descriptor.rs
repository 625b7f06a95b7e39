//! Connection descriptors: the fully resolved parameters a database
//! connection is opened with, derived from the configuration in two
//! variants — addressing the server alone, or a database on it.

use vstd::prelude::*;

use crate::configuration::DatabaseConfig;
use crate::configuration::DatabaseModel;
use crate::secret::SecretValue;

verus! {

/// How strongly the connection insists on TLS: opportunistic, or mandatory.
#[derive(Clone, Copy, PartialEq, Eq, Structural, Debug)]
pub enum TlsMode {
    /// Use TLS when the server offers it, plain otherwise.
    Prefer,
    /// Refuse to connect without TLS.
    Require,
}

/// Every parameter needed to open a database connection. With no
/// `database_name` the descriptor addresses the server itself, as
/// server-level operations such as creating a database need.
pub struct ConnectionDescriptor {
    pub host: String,
    pub port: u16,
    pub username: String,
    pub password: SecretValue,
    pub tls_mode: TlsMode,
    pub database_name: Option<String>,
}

/// The mathematical value of a [`ConnectionDescriptor`].
#[verifier::ext_equal]
pub struct DescriptorModel {
    pub host: Seq<char>,
    pub port: int,
    pub username: Seq<char>,
    pub password: Seq<char>,
    pub tls_mode: TlsMode,
    pub database_name: Option<Seq<char>>,
}

impl View for ConnectionDescriptor {
    type V = DescriptorModel;

    open spec fn view(&self) -> DescriptorModel {
        DescriptorModel {
            host: self.host@,
            port: self.port as int,
            username: self.username@,
            password: self.password@,
            tls_mode: self.tls_mode,
            database_name: match self.database_name {
                Some(n) => Some(n@),
                None => None,
            },
        }
    }
}

/// The TLS mode a configuration asks for: mandatory when `require_ssl` is
/// set, opportunistic otherwise.
pub open spec fn spec_tls_mode(require_ssl: bool) -> TlsMode {
    if require_ssl {
        TlsMode::Require
    } else {
        TlsMode::Prefer
    }
}

/// The server-level descriptor a configuration yields.
pub open spec fn spec_without_db(c: DatabaseModel) -> DescriptorModel {
    DescriptorModel {
        host: c.host,
        port: c.port,
        username: c.username,
        password: c.password,
        tls_mode: spec_tls_mode(c.require_ssl),
        database_name: None,
    }
}

/// The database-level descriptor a configuration yields.
pub open spec fn spec_with_db(c: DatabaseModel) -> DescriptorModel {
    DescriptorModel { database_name: Some(c.database_name), ..spec_without_db(c) }
}

impl DatabaseConfig {
    /// The descriptor addressing the database server itself, with no
    /// database selected; derived from the configuration alone.
    pub fn without_db(&self) -> (r: ConnectionDescriptor)
        ensures
            r@ == spec_without_db(self@),
    {
        let tls_mode = if self.require_ssl {
            TlsMode::Require
        } else {
            TlsMode::Prefer
        };
        let r = ConnectionDescriptor {
            host: self.host.clone(),
            port: self.port,
            username: self.username.clone(),
            password: self.password.clone(),
            tls_mode,
            database_name: None,
        };
        proof {
            assert(r@ =~= spec_without_db(self@));
        }
        r
    }

    /// The descriptor addressing the configured database; it agrees with the
    /// server-level descriptor on everything but the database name.
    pub fn with_db(&self) -> (r: ConnectionDescriptor)
        ensures
            r@ == spec_with_db(self@),
    {
        let tls_mode = if self.require_ssl {
            TlsMode::Require
        } else {
            TlsMode::Prefer
        };
        let r = ConnectionDescriptor {
            host: self.host.clone(),
            port: self.port,
            username: self.username.clone(),
            password: self.password.clone(),
            tls_mode,
            database_name: Some(self.database_name.clone()),
        };
        proof {
            assert(r@ =~= spec_with_db(self@));
        }
        r
    }
}

/// The two descriptor variants of one configuration agree on every field
/// except the database name, which the server-level variant omits and the
/// database-level variant takes from the configuration.
pub proof fn lemma_descriptor_symmetry(c: DatabaseModel)
    ensures
        spec_without_db(c).host == spec_with_db(c).host,
        spec_without_db(c).port == spec_with_db(c).port,
        spec_without_db(c).username == spec_with_db(c).username,
        spec_without_db(c).password == spec_with_db(c).password,
        spec_without_db(c).tls_mode == spec_with_db(c).tls_mode,
        spec_without_db(c).database_name is None,
        spec_with_db(c).database_name == Some(c.database_name),
{
}

} // verus!
