//! From the repositories that CodeCommit lists to the migration config:
//! which names are asked about in which batches, and which repositories
//! become migrations.

use vstd::prelude::*;

use crate::lists::present_values;
use crate::migrate::model::{Config, Migration};

verus! {

/// How many repositories one `BatchGetRepositories` request asks about.
pub const BATCH_SIZE: usize = 25;

/// What CodeCommit reports of one repository, as far as the config needs it.
#[derive(Debug, PartialEq, Eq)]
pub struct RepositoryInfo {
    /// The repository's name, if CodeCommit gave one.
    pub repository_name: Option<String>,
    /// The HTTPS clone URL, if CodeCommit gave one.
    pub clone_url_http: Option<String>,
}

/// The names of the listed repositories; a repository listed without a name
/// is skipped.
pub fn repository_names(listed: &Vec<Option<String>>) -> (res: Vec<String>)
    ensures
        res@ == present_values(listed@),
{
    let mut names: Vec<String> = Vec::new();
    let mut i: usize = 0;
    while i < listed.len()
        invariant
            i <= listed.len(),
            names@ == present_values(listed@.take(i as int)),
        decreases listed.len() - i,
    {
        match &listed[i] {
            Some(name) => names.push(name.clone()),
            None => {},
        }
        i = i + 1;
        assert(listed@.take(i as int).drop_last() =~= listed@.take(i - 1));
    }
    assert(listed@.take(listed.len() as int) =~= listed@);
    names
}

/// `s` cut into consecutive pieces of `n` elements, the last of which may
/// be shorter (the pieces of `slice::chunks`).
pub open spec fn chunks_spec<A>(s: Seq<A>, n: nat) -> Seq<Seq<A>>
    decreases s.len(),
{
    if s.len() == 0 || n == 0 {
        Seq::empty()
    } else if s.len() <= n {
        seq![s]
    } else {
        seq![s.take(n as int)] + chunks_spec(s.skip(n as int), n)
    }
}

/// Cutting a sequence into batches loses, reorders and repeats nothing:
/// the batches, put back together, are the sequence; each batch holds
/// between one and `n` elements, and all but the last exactly `n`.
pub proof fn lemma_chunks_cover<A>(s: Seq<A>, n: nat)
    requires
        n > 0,
    ensures
        chunks_spec(s, n).flatten() == s,
        forall|i: int| 0 <= i < chunks_spec(s, n).len() ==> 1 <= #[trigger] chunks_spec(s, n)[i].len() <= n,
        forall|i: int| 0 <= i < chunks_spec(s, n).len() - 1 ==> #[trigger] chunks_spec(s, n)[i].len() == n,
    decreases s.len(),
{
    let c = chunks_spec(s, n);
    if s.len() == 0 {
        assert(c.flatten() =~= s);
    } else if s.len() <= n {
        assert(c.drop_first() =~= Seq::<Seq<A>>::empty());
        assert(c.drop_first().flatten() =~= Seq::<A>::empty());
        assert(c.flatten() =~= s);
    } else {
        let rest = chunks_spec(s.skip(n as int), n);
        lemma_chunks_cover(s.skip(n as int), n);
        assert(c.first() == s.take(n as int));
        assert(c.drop_first() =~= rest);
        assert(s.take(n as int) + s.skip(n as int) =~= s);
        assert forall|i: int| 0 <= i < c.len() implies 1 <= #[trigger] c[i].len() <= n by {
            if i > 0 {
                assert(c[i] == rest[i - 1]);
            }
        }
        assert forall|i: int| 0 <= i < c.len() - 1 implies #[trigger] c[i].len() == n by {
            if i > 0 {
                assert(c[i] == rest[i - 1]);
            }
        }
    }
}

/// The views of a list of batches.
pub open spec fn batches_view(batches: Seq<Vec<String>>) -> Seq<Seq<String>> {
    batches.map_values(|b: Vec<String>| b@)
}

/// The names cut into the batches of at most `BATCH_SIZE` names in which
/// they are asked about.
pub fn name_batches(names: &Vec<String>) -> (res: Vec<Vec<String>>)
    ensures
        batches_view(res@) == chunks_spec(names@, BATCH_SIZE as nat),
        batches_view(res@).flatten() == names@,
        forall|i: int| 0 <= i < res@.len() ==> 1 <= (#[trigger] res@[i])@.len() <= 25,
        forall|i: int| 0 <= i < res@.len() - 1 ==> (#[trigger] res@[i])@.len() == 25,
{
    let mut batches: Vec<Vec<String>> = Vec::new();
    let mut start: usize = 0;
    proof {
        assert(names@.skip(0) =~= names@);
    }
    while start < names.len()
        invariant
            start <= names.len(),
            batches_view(batches@) + chunks_spec(names@.skip(start as int), BATCH_SIZE as nat)
                == chunks_spec(names@, BATCH_SIZE as nat),
        decreases names.len() - start,
    {
        let end: usize = if names.len() - start <= BATCH_SIZE { names.len() } else { start + BATCH_SIZE };
        let mut batch: Vec<String> = Vec::new();
        let mut i: usize = start;
        while i < end
            invariant
                start <= i <= end <= names.len(),
                batch@ == names@.subrange(start as int, i as int),
            decreases end - i,
        {
            batch.push(names[i].clone());
            i = i + 1;
            assert(batch@ =~= names@.subrange(start as int, i as int));
        }
        let ghost rest = names@.skip(start as int);
        proof {
            if names.len() - start <= BATCH_SIZE {
                assert(batch@ =~= rest);
                assert(names@.skip(end as int).len() == 0);
            } else {
                assert(batch@ =~= rest.take(BATCH_SIZE as int));
                assert(rest.skip(BATCH_SIZE as int) =~= names@.skip(end as int));
            }
        }
        let ghost before = batches_view(batches@);
        batches.push(batch);
        proof {
            assert(batches_view(batches@) =~= before.push(batch@));
            if names.len() - start <= BATCH_SIZE {
                assert(chunks_spec(names@.skip(end as int), BATCH_SIZE as nat) =~= Seq::<Seq<String>>::empty());
                assert(chunks_spec(rest, BATCH_SIZE as nat) =~= seq![batch@]);
            } else {
                assert(chunks_spec(rest, BATCH_SIZE as nat) =~= seq![batch@] + chunks_spec(names@.skip(end as int), BATCH_SIZE as nat));
            }
            assert(batches_view(batches@) + chunks_spec(names@.skip(end as int), BATCH_SIZE as nat)
                =~= before + chunks_spec(rest, BATCH_SIZE as nat));
        }
        start = end;
    }
    proof {
        assert(chunks_spec(names@.skip(start as int), BATCH_SIZE as nat) =~= Seq::<Seq<String>>::empty());
        assert(batches_view(batches@) =~= chunks_spec(names@, BATCH_SIZE as nat));
        lemma_chunks_cover(names@, BATCH_SIZE as nat);
        assert forall|i: int| 0 <= i < batches@.len() implies 1 <= (#[trigger] batches@[i])@.len() <= 25 by {
            assert(batches_view(batches@)[i] == batches@[i]@);
        }
        assert forall|i: int| 0 <= i < batches@.len() - 1 implies (#[trigger] batches@[i])@.len() == 25 by {
            assert(batches_view(batches@)[i] == batches@[i]@);
        }
    }
    batches
}

/// The migrations of the described repositories: one per repository that
/// has both a clone URL and a name (the others are skipped), into the
/// namespace `namespace_id`, under the repository's name.
pub open spec fn migrations_spec(repositories: Seq<RepositoryInfo>, namespace_id: Option<String>) -> Seq<Migration>
    decreases repositories.len(),
{
    if repositories.len() == 0 {
        Seq::empty()
    } else {
        let before = migrations_spec(repositories.drop_last(), namespace_id);
        match (repositories.last().clone_url_http, repositories.last().repository_name) {
            (Some(source), Some(name)) => before.push(
                Migration { source, destination_namespace_id: namespace_id, destination_name: name },
            ),
            _ => before,
        }
    }
}

/// The migration of one described repository, if it has a clone URL and a
/// name.
pub open spec fn repository_migration(repository: RepositoryInfo, namespace_id: Option<String>) -> Option<Migration> {
    match (repository.clone_url_http, repository.repository_name) {
        (Some(source), Some(name)) => Some(
            Migration { source, destination_namespace_id: namespace_id, destination_name: name },
        ),
        _ => None,
    }
}

/// The migrations are the repositories' migrations in the order of the
/// repositories, whatever their number: no repository with a clone URL and
/// a name is dropped, and every other one is.
pub proof fn lemma_migrations_filter_map(repositories: Seq<RepositoryInfo>, namespace_id: Option<String>)
    ensures
        migrations_spec(repositories, namespace_id) == repositories.filter_map(
            |r: RepositoryInfo| repository_migration(r, namespace_id),
        ),
    decreases repositories.len(),
{
    if repositories.len() > 0 {
        lemma_migrations_filter_map(repositories.drop_last(), namespace_id);
        let f = |r: RepositoryInfo| repository_migration(r, namespace_id);
        let last = repositories.last();
        match (last.clone_url_http, last.repository_name) {
            (Some(source), Some(name)) => {
                assert(f(last) == Some(
                    Migration { source, destination_namespace_id: namespace_id, destination_name: name },
                ));
                assert(migrations_spec(repositories.drop_last(), namespace_id).push(
                    Migration { source, destination_namespace_id: namespace_id, destination_name: name },
                ) =~= repositories.drop_last().filter_map(f) + seq![
                    Migration { source, destination_namespace_id: namespace_id, destination_name: name },
                ]);
            },
            _ => {
                assert(f(last) is None);
            },
        }
    }
}

/// Every repository with a clone URL and a name, at any position, becomes a
/// migration from that URL to a project of that name in the namespace; and
/// there are no more migrations than repositories.
pub proof fn lemma_every_repository_migrated(repositories: Seq<RepositoryInfo>, namespace_id: Option<String>)
    ensures
        migrations_spec(repositories, namespace_id).len() <= repositories.len(),
        forall|i: int|
            0 <= i < repositories.len() && (#[trigger] repositories[i]).clone_url_http is Some
                && repositories[i].repository_name is Some ==> migrations_spec(repositories, namespace_id).contains(
                Migration {
                    source: repositories[i].clone_url_http->0,
                    destination_namespace_id: namespace_id,
                    destination_name: repositories[i].repository_name->0,
                },
            ),
    decreases repositories.len(),
{
    if repositories.len() > 0 {
        let r = repositories.drop_last();
        lemma_every_repository_migrated(r, namespace_id);
        let before = migrations_spec(r, namespace_id);
        let all = migrations_spec(repositories, namespace_id);
        assert forall|i: int|
            0 <= i < repositories.len() && (#[trigger] repositories[i]).clone_url_http is Some
                && repositories[i].repository_name is Some implies all.contains(
                Migration {
                    source: repositories[i].clone_url_http->0,
                    destination_namespace_id: namespace_id,
                    destination_name: repositories[i].repository_name->0,
                },
            ) by {
            let m = Migration {
                source: repositories[i].clone_url_http->0,
                destination_namespace_id: namespace_id,
                destination_name: repositories[i].repository_name->0,
            };
            if i < repositories.len() - 1 {
                assert(repositories[i] == r[i]);
                assert(before.contains(m));
                let k = choose|k: int| 0 <= k < before.len() && before[k] == m;
                assert(all[k] == m);
            } else {
                assert(repositories[i] == repositories.last());
                assert(all[before.len() as int] == m);
            }
        }
    }
}

fn copy_optional_string(s: &Option<String>) -> (res: Option<String>)
    ensures
        res == *s,
{
    match s {
        Some(v) => Some(v.clone()),
        None => None,
    }
}

/// The migration config for the described repositories: version `v1`, the
/// given GitLab URL as it is, and one migration per repository that has a
/// clone URL and a name.
pub fn handler(git_lab_url: &str, namespace_id: Option<String>, repositories: &Vec<RepositoryInfo>) -> (res: Config)
    ensures
        res.version@ == "v1"@,
        res.git_lab_url@ == git_lab_url@,
        res.migrations@ == migrations_spec(repositories@, namespace_id),
{
    let mut migrations: Vec<Migration> = Vec::new();
    let mut i: usize = 0;
    while i < repositories.len()
        invariant
            i <= repositories.len(),
            migrations@ == migrations_spec(repositories@.take(i as int), namespace_id),
        decreases repositories.len() - i,
    {
        let repository = &repositories[i];
        match (&repository.clone_url_http, &repository.repository_name) {
            (Some(source), Some(name)) => {
                migrations.push(Migration {
                    source: source.clone(),
                    destination_namespace_id: copy_optional_string(&namespace_id),
                    destination_name: name.clone(),
                });
            },
            _ => {},
        }
        i = i + 1;
        assert(repositories@.take(i as int).drop_last() =~= repositories@.take(i - 1));
    }
    assert(repositories@.take(repositories.len() as int) =~= repositories@);
    Config { version: "v1".to_owned(), git_lab_url: git_lab_url.to_owned(), migrations }
}

} // verus!
