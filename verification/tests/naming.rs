//! Stack identities: uniqueness and shape of freshly drawn names.

use ephemeral_stack::identity::fresh_minio_identity;
use ephemeral_stack::identity::fresh_postgres_identity;

fn is_lower_hex(c: char) -> bool {
    c.is_ascii_digit() || ('a'..='f').contains(&c)
}

#[test]
fn fifty_provisioning_calls_draw_distinct_identities() {
    let mut names: Vec<String> = Vec::new();
    for _ in 0..50 {
        names.push(fresh_postgres_identity("/scratch").name);
    }
    for i in 0..names.len() {
        for j in 0..i {
            assert_ne!(names[i], names[j]);
        }
    }
}

#[test]
fn postgres_identity_has_prefixed_hex_name() {
    let identity = fresh_postgres_identity("/scratch");
    assert_eq!(identity.name.len(), "pg".len() + 1 + 32);
    assert!(identity.name.starts_with("pg-"));
    assert!(identity.name.chars().skip(3).all(is_lower_hex));
    assert_eq!(identity.compose_dir, "/scratch/testdata/postgres");
}

#[test]
fn minio_identity_has_prefixed_hex_name() {
    let identity = fresh_minio_identity("/scratch");
    assert_eq!(identity.name.len(), "minio".len() + 1 + 32);
    assert!(identity.name.starts_with("minio-"));
    assert!(identity.name.chars().skip(6).all(is_lower_hex));
    assert_eq!(identity.compose_dir, "/scratch/testdata/minio");
}

#[test]
fn kinds_never_collide() {
    let pg = fresh_postgres_identity("/scratch");
    let minio = fresh_minio_identity("/scratch");
    assert_ne!(pg.name, minio.name);
}
