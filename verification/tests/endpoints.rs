//! Endpoint descriptors and the decimal rendering behind their addresses.

use ephemeral_stack::endpoint::fresh_sqlite_db_path;
use ephemeral_stack::endpoint::fs_storage_home;
use ephemeral_stack::endpoint::minio_endpoint;
use ephemeral_stack::endpoint::postgres_endpoint;
use ephemeral_stack::endpoint::sqlite_db_path;
use ephemeral_stack::text::decimal_string;

#[test]
fn decimal_rendering_is_exact() {
    assert_eq!(decimal_string(0), "0");
    assert_eq!(decimal_string(7), "7");
    assert_eq!(decimal_string(10), "10");
    assert_eq!(decimal_string(5432), "5432");
    assert_eq!(decimal_string(9000), "9000");
    assert_eq!(decimal_string(65535), "65535");
}

#[test]
fn postgres_endpoint_binds_discovered_port() {
    let endpoint = postgres_endpoint(49321);
    assert_eq!(endpoint.host, "localhost");
    assert_eq!(endpoint.port, 49321);
    assert_eq!(endpoint.user, "postgres");
    assert_eq!(endpoint.password, "password");
    assert_eq!(endpoint.database, "postgres");
}

#[test]
fn minio_endpoint_binds_discovered_port() {
    let endpoint = minio_endpoint(9000);
    assert_eq!(endpoint.endpoint, "http://127.0.0.1:9000");
    assert_eq!(endpoint.access_key, "admin");
    assert_eq!(endpoint.secret_key, "password");
    assert_eq!(endpoint.region, "us-east-1");
    assert_eq!(endpoint.bucket, "indexlake");
    assert!(endpoint.disable_config_load);
    assert!(endpoint.disable_ec2_metadata);
}

#[test]
fn sqlite_path_is_joined_exactly() {
    assert_eq!(
        sqlite_db_path("/scratch", "0123456789abcdef"),
        "/scratch/tmp/sqlite/0123456789abcdef.db"
    );
}

#[test]
fn fresh_sqlite_paths_are_distinct_scratch_files() {
    let first = fresh_sqlite_db_path("/scratch");
    let second = fresh_sqlite_db_path("/scratch");
    assert!(first.starts_with("/scratch/tmp/sqlite/"));
    assert!(first.ends_with(".db"));
    assert_eq!(first.len(), "/scratch/tmp/sqlite/".len() + 32 + ".db".len());
    assert_ne!(first, second);
}

#[test]
fn fs_storage_home_is_fixed() {
    assert_eq!(fs_storage_home("/scratch"), "/scratch/tmp/fs_storage");
}
