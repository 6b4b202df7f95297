//! The decisions of the startup sequence: read the connection target, take
//! the advisory lock, run the pending migrations, import the reference
//! datasets in dependency order, and report the first failure.
//!
//! The sequence alternates work on the database with decisions, so it is a
//! state machine: the caller performs each [`Step`] and hands its outcome to
//! [`Coordinator::advance`], which returns the next step. The caller holds the
//! lock in a guard that releases it when the guard goes out of scope, so the
//! lock is released on every path out of the sequence.
use vstd::prelude::*;
use crate::errors::{DataImportError, MigrationError};
use crate::lock_key::{generate_lock_key, lock_key_of};

verus! {

/// The namespace from which the service's lock key is derived.
pub const LOCK_NAMESPACE: &'static str = "rust_backend";

/// A reference dataset, imported from one source into one table.
#[derive(Clone, Copy, Debug, PartialEq, Eq, Structural)]
pub enum Dataset {
    Manufacturers,
    Categories,
    Parts,
    CpuSpecs,
    GpuSpecs,
    MemorySpecs,
    StorageSpecs,
}

/// Position of a dataset in the import order.
pub open spec fn import_rank(d: Dataset) -> nat {
    match d {
        Dataset::Manufacturers => 0,
        Dataset::Categories => 1,
        Dataset::Parts => 2,
        Dataset::CpuSpecs => 3,
        Dataset::GpuSpecs => 4,
        Dataset::MemorySpecs => 5,
        Dataset::StorageSpecs => 6,
    }
}

/// Number of reference datasets.
pub const DATASET_COUNT: usize = 7;

/// The dataset at a position of the import order.
pub open spec fn dataset_at(i: nat) -> Dataset {
    if i == 0 {
        Dataset::Manufacturers
    } else if i == 1 {
        Dataset::Categories
    } else if i == 2 {
        Dataset::Parts
    } else if i == 3 {
        Dataset::CpuSpecs
    } else if i == 4 {
        Dataset::GpuSpecs
    } else if i == 5 {
        Dataset::MemorySpecs
    } else {
        Dataset::StorageSpecs
    }
}

/// The dataset imported after `d`, if any.
pub open spec fn next_dataset(d: Dataset) -> Option<Dataset> {
    if import_rank(d) + 1 < DATASET_COUNT {
        Some(dataset_at(import_rank(d) + 1))
    } else {
        None
    }
}

/// Rows of `a` refer by foreign key to rows of `b`.
pub open spec fn depends_on(a: Dataset, b: Dataset) -> bool {
    match a {
        Dataset::Parts => b == Dataset::Manufacturers || b == Dataset::Categories,
        Dataset::CpuSpecs | Dataset::GpuSpecs | Dataset::MemorySpecs | Dataset::StorageSpecs => b
            == Dataset::Parts,
        _ => false,
    }
}

/// Every dataset is imported after the datasets that its rows refer to.
pub proof fn lemma_dependencies_first(a: Dataset, b: Dataset)
    requires
        depends_on(a, b),
    ensures
        import_rank(b) < import_rank(a),
{
}

/// The import order visits each dataset once, at its rank.
pub proof fn lemma_import_order(d: Dataset)
    ensures
        dataset_at(import_rank(d)) == d,
        import_rank(d) < DATASET_COUNT,
{
}

/// Where a dataset's source lives, relative to the working directory.
pub open spec fn source_path_of(d: Dataset) -> Seq<char> {
    match d {
        Dataset::Manufacturers => "./data/csv/manufacturers.csv"@,
        Dataset::Categories => "./data/csv/categories.csv"@,
        Dataset::Parts => "./data/csv/parts.csv"@,
        Dataset::CpuSpecs => "./data/csv/cpu_specs.csv"@,
        Dataset::GpuSpecs => "./data/csv/gpu_specs.csv"@,
        Dataset::MemorySpecs => "./data/csv/memory_specs.csv"@,
        Dataset::StorageSpecs => "./data/csv/storage_specs.csv"@,
    }
}

impl Dataset {
    /// The path of the dataset's source.
    pub fn source_path(&self) -> (r: &'static str)
        ensures
            r@ == source_path_of(*self),
    {
        match self {
            Dataset::Manufacturers => "./data/csv/manufacturers.csv",
            Dataset::Categories => "./data/csv/categories.csv",
            Dataset::Parts => "./data/csv/parts.csv",
            Dataset::CpuSpecs => "./data/csv/cpu_specs.csv",
            Dataset::GpuSpecs => "./data/csv/gpu_specs.csv",
            Dataset::MemorySpecs => "./data/csv/memory_specs.csv",
            Dataset::StorageSpecs => "./data/csv/storage_specs.csv",
        }
    }

    /// The dataset imported after this one, if any.
    pub fn next(&self) -> (r: Option<Dataset>)
        ensures
            r == next_dataset(*self),
    {
        match self {
            Dataset::Manufacturers => Some(Dataset::Categories),
            Dataset::Categories => Some(Dataset::Parts),
            Dataset::Parts => Some(Dataset::CpuSpecs),
            Dataset::CpuSpecs => Some(Dataset::GpuSpecs),
            Dataset::GpuSpecs => Some(Dataset::MemorySpecs),
            Dataset::MemorySpecs => Some(Dataset::StorageSpecs),
            Dataset::StorageSpecs => None,
        }
    }
}

/// What the sequence waits for.
#[derive(Clone, Copy, Debug, PartialEq, Eq, Structural)]
pub enum Phase {
    /// The outcome of opening a session and taking the lock.
    AwaitLock,
    /// The outcome of running the pending migrations.
    AwaitMigrations,
    /// The outcome of importing a dataset.
    AwaitImport(Dataset),
    /// Nothing: the sequence is over.
    Finished,
}

/// The work that the caller performs next.
#[derive(Debug, PartialEq, Eq)]
pub enum Step {
    /// Open a session on `database_url` and take the advisory lock `lock_key`
    /// on it, waiting for as long as another session holds it.
    AcquireLock { database_url: String, lock_key: i64 },
    /// Apply the pending migrations on the locked session.
    RunMigrations,
    /// Import a dataset on the locked session.
    Import(Dataset),
    /// Release the lock, if it is held, and end with this result.
    Finish(Result<(), MigrationError>),
}

/// The phase and step that follow the outcome of the step awaited in `p`.
pub open spec fn transition(p: Phase, outcome: Result<(), MigrationError>) -> (Phase, Step) {
    match outcome {
        Err(e) => (Phase::Finished, Step::Finish(Err(e))),
        Ok(()) => match p {
            Phase::AwaitLock => (Phase::AwaitMigrations, Step::RunMigrations),
            Phase::AwaitMigrations => (
                Phase::AwaitImport(Dataset::Manufacturers),
                Step::Import(Dataset::Manufacturers),
            ),
            Phase::AwaitImport(d) => match next_dataset(d) {
                Some(n) => (Phase::AwaitImport(n), Step::Import(n)),
                None => (Phase::Finished, Step::Finish(Ok(()))),
            },
            Phase::Finished => (Phase::Finished, Step::Finish(Ok(()))),
        },
    }
}

/// The phase reached from `p` after the outcomes `outs`, in order.
pub open spec fn replay(p: Phase, outs: Seq<Result<(), MigrationError>>) -> Phase
    decreases outs.len(),
{
    if outs.len() == 0 || p == Phase::Finished {
        p
    } else {
        replay(transition(p, outs[0]).0, outs.drop_first())
    }
}

/// `n` successful outcomes.
pub open spec fn successes(n: nat) -> Seq<Result<(), MigrationError>> {
    Seq::new(n, |i: int| Ok(()))
}

/// The phase of a run in which every step succeeded, after `n` steps
/// counted from the lock request.
pub open spec fn successful_phase(n: nat) -> Phase {
    if n == 0 {
        Phase::AwaitLock
    } else if n == 1 {
        Phase::AwaitMigrations
    } else if n < 2 + DATASET_COUNT {
        Phase::AwaitImport(dataset_at((n - 2) as nat))
    } else {
        Phase::Finished
    }
}

/// Runs the startup sequence of one process.
pub struct Coordinator {
    phase: Phase,
}

impl Coordinator {
    /// What the sequence waits for.
    pub closed spec fn phase(&self) -> Phase {
        self.phase
    }

    /// Starts the sequence for the service `namespace` with the configured
    /// connection target. Without a target it ends at once with
    /// `EnvVarError`, before any lock is requested; otherwise the first step
    /// takes the lock derived from the namespace.
    pub fn start(namespace: &str, database_url: Option<String>) -> (r: (Coordinator, Step))
        ensures
            match database_url {
                None => r.0.phase() == Phase::Finished && r.1 matches Step::Finish(
                    Err(MigrationError::EnvVarError(_)),
                ),
                Some(url) => r.0.phase() == Phase::AwaitLock && r.1 == (Step::AcquireLock {
                    database_url: url,
                    lock_key: lock_key_of(namespace@),
                }),
            },
    {
        match database_url {
            None => (
                Coordinator { phase: Phase::Finished },
                Step::Finish(Err(MigrationError::EnvVarError(String::from_str("DATABASE_URL is not set")))),
            ),
            Some(url) => {
                let key = generate_lock_key(namespace);
                (Coordinator { phase: Phase::AwaitLock }, Step::AcquireLock { database_url: url, lock_key: key })
            },
        }
    }

    /// Whether the sequence is over.
    pub fn is_finished(&self) -> (r: bool)
        ensures
            r == (self.phase() == Phase::Finished),
    {
        self.phase == Phase::Finished
    }

    /// Takes the outcome of the step awaited and returns the next step. A
    /// failure ends the sequence with that failure; success moves on from the
    /// lock to the migrations, then through the datasets in import order,
    /// then ends with success.
    pub fn advance(&mut self, outcome: Result<(), MigrationError>) -> (step: Step)
        requires
            old(self).phase() != Phase::Finished,
        ensures
            (final(self).phase(), step) == transition(old(self).phase(), outcome),
    {
        match outcome {
            Err(e) => {
                self.phase = Phase::Finished;
                Step::Finish(Err(e))
            },
            Ok(()) => match self.phase {
                Phase::AwaitLock => {
                    self.phase = Phase::AwaitMigrations;
                    Step::RunMigrations
                },
                Phase::AwaitMigrations => {
                    self.phase = Phase::AwaitImport(Dataset::Manufacturers);
                    Step::Import(Dataset::Manufacturers)
                },
                Phase::AwaitImport(d) => match d.next() {
                    Some(n) => {
                        self.phase = Phase::AwaitImport(n);
                        Step::Import(n)
                    },
                    None => {
                        self.phase = Phase::Finished;
                        Step::Finish(Ok(()))
                    },
                },
                Phase::Finished => Step::Finish(Ok(())),
            },
        }
    }
}

/// Wraps the failure of importing a dataset as the outcome of its step.
pub fn import_outcome(r: Result<(), DataImportError>) -> (o: Result<(), MigrationError>)
    ensures
        match r {
            Ok(()) => o is Ok,
            Err(e) => o == Err::<(), MigrationError>(MigrationError::DataImportError(e)),
        },
{
    match r {
        Ok(()) => Ok(()),
        Err(e) => Err(MigrationError::DataImportError(e)),
    }
}

/// Once over, the sequence stays over: after a missing target or a failed
/// step no further work, and no lock request, follows.
pub proof fn lemma_finished_is_final(outs: Seq<Result<(), MigrationError>>)
    ensures
        replay(Phase::Finished, outs) == Phase::Finished,
{
}

/// The first failure ends the sequence: whatever was awaited, and whatever
/// outcomes would follow.
pub proof fn lemma_first_failure_ends_run(
    p: Phase,
    outs: Seq<Result<(), MigrationError>>,
    e: MigrationError,
    rest: Seq<Result<(), MigrationError>>,
)
    ensures
        replay(p, outs.push(Err(e)) + rest) == Phase::Finished,
    decreases outs.len(),
{
    let all = outs.push(Err(e)) + rest;
    if p == Phase::Finished {
    } else if outs.len() == 0 {
        assert(all[0] == Err::<(), MigrationError>(e));
        lemma_finished_is_final(all.drop_first());
    } else {
        assert(all[0] == outs[0]);
        assert(all.drop_first() =~= outs.drop_first().push(Err(e)) + rest);
        lemma_first_failure_ends_run(transition(p, outs[0]).0, outs.drop_first(), e, rest);
    }
}

/// A run in which every step succeeds takes the lock, then runs the
/// migrations, then imports each dataset in import order, then ends.
pub proof fn lemma_successful_run(n: nat)
    ensures
        replay(Phase::AwaitLock, successes(n)) == successful_phase(n),
    decreases n,
{
    if n > 0 {
        let outs = successes(n);
        assert(outs.drop_last() =~= successes((n - 1) as nat));
        lemma_successful_run((n - 1) as nat);
        lemma_replay_push(Phase::AwaitLock, successes((n - 1) as nat), Ok(()));
        assert(outs =~= successes((n - 1) as nat).push(Ok(())));
    }
}

/// Replaying one more outcome takes one more transition.
pub proof fn lemma_replay_push(
    p: Phase,
    outs: Seq<Result<(), MigrationError>>,
    o: Result<(), MigrationError>,
)
    ensures
        replay(p, outs.push(o)) == (if replay(p, outs) == Phase::Finished {
            Phase::Finished
        } else {
            transition(replay(p, outs), o).0
        }),
    decreases outs.len(),
{
    if p == Phase::Finished {
    } else if outs.len() == 0 {
        assert(outs.push(o)[0] == o);
        assert(outs.push(o).drop_first() =~= Seq::<Result<(), MigrationError>>::empty());
        assert(replay(transition(p, o).0, Seq::<Result<(), MigrationError>>::empty()) == transition(
            p,
            o,
        ).0);
    } else {
        assert(outs.push(o)[0] == outs[0]);
        assert(outs.push(o).drop_first() =~= outs.drop_first().push(o));
        lemma_replay_push(transition(p, outs[0]).0, outs.drop_first(), o);
    }
}

/// Migrations and imports run only once the lock was granted: a sequence
/// that got past the lock request did so on a successful outcome.
pub proof fn lemma_work_needs_lock(outs: Seq<Result<(), MigrationError>>)
    requires
        replay(Phase::AwaitLock, outs) != Phase::AwaitLock,
        replay(Phase::AwaitLock, outs) != Phase::Finished,
    ensures
        outs.len() > 0,
        outs[0] is Ok,
{
    if outs.len() > 0 && outs[0] is Err {
        lemma_finished_is_final(outs.drop_first());
    }
}

} // verus!
