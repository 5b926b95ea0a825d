//! Stack identities: globally-unique, human-readable names for ephemeral
//! service stacks, paired with the directory holding the stack's declarative
//! service description.
//!
//! A name is a fixed kind prefix, a separator, and a freshly drawn random
//! suffix. Distinct suffixes give distinct names (proved below), so
//! concurrent provisioning calls never collide on a stack name.

use vstd::prelude::*;

verus! {

/// True of an ASCII lower-case hexadecimal digit.
pub open spec fn is_lower_hex_digit(c: char) -> bool {
    ('0' as u32 <= c as u32 && c as u32 <= '9' as u32) || ('a' as u32 <= c as u32 && c as u32
        <= 'f' as u32)
}

/// Relies on `uuid::Uuid::new_v4` and its simple formatting: a freshly drawn
/// random identifier, written as 32 lower-case hexadecimal characters. The
/// value is random, so nothing relates one call to another; only the shape
/// of every outcome is stated.
#[verifier::external_body]
pub(crate) fn fresh_suffix() -> (r: String)
    ensures
        r@.len() == 32,
        forall|i: int| 0 <= i < r@.len() ==> is_lower_hex_digit(#[trigger] r@[i]),
{
    uuid::Uuid::new_v4().as_simple().to_string()
}

/// The stack name built from a kind prefix and a random suffix.
pub open spec fn stack_name_spec(prefix: Seq<char>, suffix: Seq<char>) -> Seq<char> {
    prefix + seq!['-'] + suffix
}

/// The shape every freshly drawn name of a given kind has: the prefix, the
/// separator, then 32 lower-case hexadecimal characters.
pub open spec fn fresh_name_shape(name: Seq<char>, prefix: Seq<char>) -> bool {
    &&& name.len() == prefix.len() + 33
    &&& name.subrange(0, prefix.len() as int) == prefix
    &&& name[prefix.len() as int] == '-'
    &&& forall|i: int|
        prefix.len() + 1 <= i < name.len() ==> is_lower_hex_digit(#[trigger] name[i])
}

/// The identity of one ephemeral stack: its unique name, under which the
/// container runtime namespaces every resource of the stack, and the
/// directory of the declarative service description it is started from.
/// Immutable once created; never reused across stacks.
pub struct StackIdentity {
    /// The unique project name of the stack.
    pub name: String,
    /// The directory holding the stack's declarative service description.
    pub compose_dir: String,
}

/// Joins a kind prefix and a suffix into a stack name.
fn stack_name(prefix: &str, suffix: &str) -> (r: String)
    ensures
        r@ == stack_name_spec(prefix@, suffix@),
{
    let mut r = prefix.to_owned();
    r.append("-");
    r.append(suffix);
    proof {
        reveal_strlit("-");
        assert(r@ =~= stack_name_spec(prefix@, suffix@));
    }
    r
}

/// Builds the identity of one stack kind: name `prefix-suffix`, description
/// under `base_dir` + `desc_subdir`.
fn kind_identity(base_dir: &str, desc_subdir: &str, prefix: &str, suffix: &str) -> (r:
    StackIdentity)
    ensures
        r.name@ == stack_name_spec(prefix@, suffix@),
        r.compose_dir@ == base_dir@ + desc_subdir@,
{
    let name = stack_name(prefix, suffix);
    let mut compose_dir = base_dir.to_owned();
    compose_dir.append(desc_subdir);
    StackIdentity { name, compose_dir }
}

proof fn lemma_fresh_shape(prefix: Seq<char>, suffix: Seq<char>)
    requires
        suffix.len() == 32,
        forall|i: int| 0 <= i < suffix.len() ==> is_lower_hex_digit(#[trigger] suffix[i]),
    ensures
        fresh_name_shape(stack_name_spec(prefix, suffix), prefix),
{
    let name = stack_name_spec(prefix, suffix);
    assert(name.subrange(0, prefix.len() as int) =~= prefix);
    assert forall|i: int| prefix.len() + 1 <= i < name.len() implies is_lower_hex_digit(
        #[trigger] name[i],
    ) by {
        assert(name[i] == suffix[i - prefix.len() - 1]);
    }
}

/// A fresh identity for the networked catalog stack: name `pg-` plus a
/// random suffix, description under `base_dir/testdata/postgres`.
pub fn fresh_postgres_identity(base_dir: &str) -> (r: StackIdentity)
    ensures
        fresh_name_shape(r.name@, "pg"@),
        r.compose_dir@ == base_dir@ + "/testdata/postgres"@,
{
    let suffix = fresh_suffix();
    let r = kind_identity(base_dir, "/testdata/postgres", "pg", suffix.as_str());
    proof {
        lemma_fresh_shape("pg"@, suffix@);
    }
    r
}

/// A fresh identity for the networked object-storage stack: name `minio-`
/// plus a random suffix, description under `base_dir/testdata/minio`.
pub fn fresh_minio_identity(base_dir: &str) -> (r: StackIdentity)
    ensures
        fresh_name_shape(r.name@, "minio"@),
        r.compose_dir@ == base_dir@ + "/testdata/minio"@,
{
    let suffix = fresh_suffix();
    let r = kind_identity(base_dir, "/testdata/minio", "minio", suffix.as_str());
    proof {
        lemma_fresh_shape("minio"@, suffix@);
    }
    r
}

/// Stack names are injective in the suffix: two names of the same kind built
/// from equal-looking prefixes can only coincide when the suffixes coincide.
pub proof fn lemma_stack_name_injective(prefix: Seq<char>, s1: Seq<char>, s2: Seq<char>)
    requires
        stack_name_spec(prefix, s1) == stack_name_spec(prefix, s2),
    ensures
        s1 == s2,
{
    let n1 = stack_name_spec(prefix, s1);
    let n2 = stack_name_spec(prefix, s2);
    assert(n1.len() == prefix.len() + 1 + s1.len());
    assert(n2.len() == prefix.len() + 1 + s2.len());
    assert forall|i: int| 0 <= i < s1.len() implies s1[i] == s2[i] by {
        assert(n1[prefix.len() + 1 + i] == s1[i]);
        assert(n2[prefix.len() + 1 + i] == s2[i]);
    }
    assert(s1 =~= s2);
}

/// Concurrent provisioning calls of one kind that draw distinct suffixes get
/// pairwise distinct stack names: no collision, however many run at once.
pub proof fn lemma_distinct_suffixes_distinct_names(
    prefix: Seq<char>,
    s1: Seq<char>,
    s2: Seq<char>,
)
    requires
        s1 != s2,
    ensures
        stack_name_spec(prefix, s1) != stack_name_spec(prefix, s2),
{
    if stack_name_spec(prefix, s1) == stack_name_spec(prefix, s2) {
        lemma_stack_name_injective(prefix, s1, s2);
    }
}

/// However many provisioning calls run at once: when every call draws its
/// own suffix, the stack names of one kind are pairwise distinct — no
/// collision under any degree of concurrency.
pub proof fn lemma_pairwise_distinct_names(prefix: Seq<char>, suffixes: Seq<Seq<char>>)
    requires
        forall|i: int, j: int|
            0 <= i < j < suffixes.len() ==> suffixes[i] != suffixes[j],
    ensures
        forall|i: int, j: int|
            0 <= i < j < suffixes.len() ==> stack_name_spec(prefix, suffixes[i])
                != stack_name_spec(prefix, suffixes[j]),
{
    assert forall|i: int, j: int| 0 <= i < j < suffixes.len() implies stack_name_spec(
        prefix,
        suffixes[i],
    ) != stack_name_spec(prefix, suffixes[j]) by {
        lemma_distinct_suffixes_distinct_names(prefix, suffixes[i], suffixes[j]);
    }
}

/// Stacks of different kinds never collide either, as long as their kind
/// prefixes differ in length and the suffixes are drawn at the same length.
pub proof fn lemma_distinct_kinds_distinct_names(
    p1: Seq<char>,
    s1: Seq<char>,
    p2: Seq<char>,
    s2: Seq<char>,
)
    requires
        p1.len() != p2.len(),
        s1.len() == s2.len(),
    ensures
        stack_name_spec(p1, s1) != stack_name_spec(p2, s2),
{
    assert(stack_name_spec(p1, s1).len() != stack_name_spec(p2, s2).len());
}

} // verus!
