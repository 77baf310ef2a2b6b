//! Running a whole migration: the order in which the configured
//! repositories are started, and how the report grows as they finish.

use vstd::prelude::*;

use crate::lists::present_values;
use crate::migrate::model::{Migration, MigrationReportItem};
use crate::text::{join_with_slash, slash_join};

verus! {

/// The report file of a migration: `<folder>/report.yaml`.
pub fn report_file_name(migration_folder_name: &str) -> (res: String)
    ensures
        res@ == slash_join(migration_folder_name@, "report.yaml"@),
{
    join_with_slash(migration_folder_name, "report.yaml")
}

/// The order in which the migrations of a config are started: they are
/// taken from the end of the list, so the last one starts first.
pub fn migration_order(migrations: Vec<Migration>) -> (res: Vec<Migration>)
    ensures
        res@ == migrations@.reverse(),
{
    let mut pending = migrations;
    let ghost all = pending@;
    let mut started: Vec<Migration> = Vec::new();
    while pending.len() > 0
        invariant
            all.len() == pending@.len() + started@.len(),
            pending@ == all.take(pending@.len() as int),
            started@ == all.skip(pending@.len() as int).reverse(),
        decreases pending.len(),
    {
        let migration = pending.pop().unwrap();
        started.push(migration);
        assert(pending@ =~= all.take(pending@.len() as int));
        assert(started@ =~= all.skip(pending@.len() as int).reverse());
    }
    assert(all.skip(0) =~= all);
    started
}

/// What a finished migration contributes to the report: its report item
/// when it succeeded, nothing when it failed.
pub open spec fn outcome_entry<E>(outcome: Result<MigrationReportItem, E>) -> Option<MigrationReportItem> {
    match outcome {
        Ok(item) => Some(item),
        Err(_) => None,
    }
}

/// The report of a running migration, which lists exactly the migrations
/// that have succeeded so far, in the order in which they finished.
pub struct MigrationReport {
    items: Vec<MigrationReportItem>,
    finished: Ghost<Seq<Option<MigrationReportItem>>>,
}

impl MigrationReport {
    /// What the migrations finished so far contributed, in the order in
    /// which they finished.
    pub closed spec fn finished(&self) -> Seq<Option<MigrationReportItem>> {
        self.finished@
    }

    /// The report items listed so far.
    pub closed spec fn listed(&self) -> Seq<MigrationReportItem> {
        self.items@
    }

    /// The report lists the successes among the finished migrations.
    pub closed spec fn wf(&self) -> bool {
        self.items@ == present_values(self.finished@)
    }

    /// The report before any migration has finished: it lists nothing, and
    /// the caller writes it at once (the result's `bool` is `true`), so the
    /// working directory holds a report from the start of the run, also when
    /// no migration succeeds.
    pub fn new() -> (res: (Self, bool))
        ensures
            res.0.wf(),
            res.0.finished() == Seq::<Option<MigrationReportItem>>::empty(),
            res.0.listed() == Seq::<MigrationReportItem>::empty(),
            res.1,
    {
        (MigrationReport { items: Vec::new(), finished: Ghost(Seq::empty()) }, true)
    }

    /// Records the outcome of one finished migration. A migrated repository
    /// is appended and the caller rewrites the report file (the result is
    /// `true`); a failure adds nothing and asks for no write (the result is
    /// `false`, and the caller logs the error).
    pub fn record<E>(&mut self, outcome: Result<MigrationReportItem, E>) -> (write_report: bool)
        requires
            old(self).wf(),
        ensures
            final(self).wf(),
            final(self).finished() == old(self).finished().push(outcome_entry(outcome)),
            outcome matches Ok(item) ==> final(self).listed() == old(self).listed().push(item),
            outcome is Err ==> final(self).listed() == old(self).listed(),
            write_report == outcome is Ok,
    {
        let ghost entry = outcome_entry(outcome);
        let write_report = match outcome {
            Ok(item) => {
                self.items.push(item);
                true
            },
            Err(_) => false,
        };
        proof {
            let before = self.finished@;
            self.finished = Ghost(before.push(entry));
            assert(self.finished@.drop_last() =~= before);
        }
        write_report
    }

    /// The items of the report: the report item of every migration that has
    /// succeeded so far, in the order in which they finished.
    pub fn items(&self) -> (items: &Vec<MigrationReportItem>)
        requires
            self.wf(),
        ensures
            items@ == self.listed(),
            items@ == present_values(self.finished()),
    {
        &self.items
    }
}

} // verus!
