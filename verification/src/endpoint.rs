//! Endpoint descriptors: the plain-value connection targets the factories
//! derive from a stack's discovered host port, and the on-disk targets of
//! the stackless kinds.
//!
//! The descriptors hold everything the external catalog and storage
//! libraries need — address, fixed credentials, fixed target names, and the
//! explicit switches that keep ambient cloud configuration out of a test
//! run. The embedding harness converts a descriptor one-for-one into the
//! client library's own configuration type.

use vstd::prelude::*;
use crate::identity::fresh_suffix;
use crate::identity::is_lower_hex_digit;
use crate::text::decimal_digits;
use crate::text::decimal_string;

verus! {

/// The connection descriptor for a relational catalog service.
pub struct CatalogEndpoint {
    /// Host the service is reached under.
    pub host: String,
    /// Host port the runtime mapped to the service's internal port.
    pub port: u16,
    /// User of the fixed test credentials.
    pub user: String,
    /// Password of the fixed test credentials.
    pub password: String,
    /// The target catalog name inside the service.
    pub database: String,
}

/// The endpoint descriptor for an object-storage service.
pub struct ObjectStoreEndpoint {
    /// Full address of the service, scheme and port included.
    pub endpoint: String,
    /// Access key of the static test credentials.
    pub access_key: String,
    /// Secret key of the static test credentials.
    pub secret_key: String,
    /// Region the client is told to assume.
    pub region: String,
    /// The bucket every test writes under.
    pub bucket: String,
    /// Ambient configuration files must not be consulted.
    pub disable_config_load: bool,
    /// Cloud-metadata auto-discovery must not run.
    pub disable_ec2_metadata: bool,
}

/// The address of a locally mapped service at the given host port.
pub open spec fn local_endpoint_url(port: int) -> Seq<char> {
    "http://127.0.0.1:"@ + decimal_digits(port)
}

/// The descriptor for the networked catalog stack: the local host under the
/// discovered port, the fixed test credentials, the fixed target catalog.
pub fn postgres_endpoint(host_port: u16) -> (r: CatalogEndpoint)
    ensures
        r.host@ == "localhost"@,
        r.port == host_port,
        r.user@ == "postgres"@,
        r.password@ == "password"@,
        r.database@ == "postgres"@,
{
    CatalogEndpoint {
        host: "localhost".to_owned(),
        port: host_port,
        user: "postgres".to_owned(),
        password: "password".to_owned(),
        database: "postgres".to_owned(),
    }
}

/// The descriptor for the networked object-storage stack: the local address
/// under the discovered port, the static test credentials, the fixed bucket,
/// and ambient configuration and metadata discovery switched off.
pub fn minio_endpoint(host_port: u16) -> (r: ObjectStoreEndpoint)
    ensures
        r.endpoint@ == local_endpoint_url(host_port as int),
        r.access_key@ == "admin"@,
        r.secret_key@ == "password"@,
        r.region@ == "us-east-1"@,
        r.bucket@ == "indexlake"@,
        r.disable_config_load,
        r.disable_ec2_metadata,
{
    let mut endpoint = "http://127.0.0.1:".to_owned();
    let port_text = decimal_string(host_port);
    endpoint.append(port_text.as_str());
    ObjectStoreEndpoint {
        endpoint,
        access_key: "admin".to_owned(),
        secret_key: "password".to_owned(),
        region: "us-east-1".to_owned(),
        bucket: "indexlake".to_owned(),
        disable_config_load: true,
        disable_ec2_metadata: true,
    }
}

/// The file path of one ephemeral local catalog database under the scratch
/// directory of `base_dir`.
pub open spec fn sqlite_db_path_spec(base: Seq<char>, file_id: Seq<char>) -> Seq<char> {
    base + "/tmp/sqlite/"@ + file_id + ".db"@
}

/// Joins the scratch path of the local catalog database named `file_id`.
pub fn sqlite_db_path(base_dir: &str, file_id: &str) -> (r: String)
    ensures
        r@ == sqlite_db_path_spec(base_dir@, file_id@),
{
    let mut r = base_dir.to_owned();
    r.append("/tmp/sqlite/");
    r.append(file_id);
    r.append(".db");
    proof {
        assert(r@ =~= sqlite_db_path_spec(base_dir@, file_id@));
    }
    r
}

/// A scratch path for a fresh ephemeral local catalog database: one file per
/// provisioning call, named by a freshly drawn random identifier. The files
/// are never cleaned up automatically.
pub fn fresh_sqlite_db_path(base_dir: &str) -> (r: String)
    ensures
        exists|file_id: Seq<char>|
            {
                &&& #[trigger] r@ == sqlite_db_path_spec(base_dir@, file_id)
                &&& file_id.len() == 32
                &&& forall|i: int| 0 <= i < file_id.len() ==> is_lower_hex_digit(#[trigger] file_id[i])
            },
{
    let file_id = fresh_suffix();
    let r = sqlite_db_path(base_dir, file_id.as_str());
    proof {
        assert(r@ == sqlite_db_path_spec(base_dir@, file_id@));
    }
    r
}

/// The fixed local directory the stackless storage kind is bound to.
pub fn fs_storage_home(base_dir: &str) -> (r: String)
    ensures
        r@ == base_dir@ + "/tmp/fs_storage"@,
{
    let mut r = base_dir.to_owned();
    r.append("/tmp/fs_storage");
    r
}

} // verus!
