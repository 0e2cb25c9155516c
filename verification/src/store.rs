//! The atomic store: naming modes, error taxonomy, and the decision logic
//! that drives the exclusive-create retry loop.

use vstd::prelude::*;
use vstd::string::*;

use crate::alphabet::generate;
use crate::alphabet::is_symbol;

verus! {

/// Why a store attempt failed.
#[derive(Debug, Clone, PartialEq, Eq)]
pub enum StoreError {
    /// The submitted name holds no `.`, so no extension can be preserved.
    MissingExtension,
    /// Keep-name mode found a file already at the requested name.
    NameCollision,
    /// Random mode ran out of its defensive retry budget.
    RetryBudgetExceeded,
    /// The filesystem refused a create or a write for another reason.
    IoError { cause: String },
}

/// How the stored file is to be named.
#[derive(Debug, Clone)]
pub enum Naming {
    /// Discard the caller's name: a fresh random identifier of `length`
    /// characters, followed by `.` and the preserved `extension`.
    Random { length: usize, extension: String },
    /// Use the caller's name verbatim, and fail on collision.
    KeepName { name: String },
}

/// What the driver's atomic exclusive-create attempt reported.
#[derive(Debug, Clone, PartialEq, Eq)]
pub enum CreateOutcome {
    /// The file did not exist and was created; the name is claimed.
    Created,
    /// A file already sat at the candidate path; nothing was created.
    AlreadyExists,
    /// The create failed for any other reason (permissions, space, path).
    Failed { cause: String },
}

/// What the driver must do after an exclusive-create attempt was decided.
#[derive(Debug, Clone, PartialEq, Eq)]
pub enum Verdict {
    /// Ask for a fresh candidate and attempt the create again.
    Retry,
    /// The name is claimed: write the content there and answer with it.
    Stored { name: String },
    /// Give up and surface the error; nothing more is attempted.
    Reject { error: StoreError },
}

/// Defensive cap on the number of collision retries in random mode; a loop
/// this long signals a misconfigured (for instance zero-length) identifier,
/// not bad luck.
pub const RETRY_CAP: usize = 1000;

/// The decision core of one store operation. It produces candidate names
/// and turns each create outcome into the next action; an unverified driver
/// performs the filesystem calls. The machine holds no shared state: mutual
/// exclusion between concurrent stores rests entirely on the atomicity of
/// the driver's exclusive create.
pub struct StoreMachine {
    naming: Naming,
    retries: usize,
    budget: usize,
}

impl StoreMachine {
    /// The naming mode this store operation was started with.
    pub closed spec fn spec_naming(&self) -> Naming {
        self.naming
    }

    /// How many collision retries have been decided so far.
    pub closed spec fn spec_retries(&self) -> int {
        self.retries as int
    }

    /// How many collision retries this operation may decide in all.
    pub closed spec fn spec_budget(&self) -> int {
        self.budget as int
    }

    /// Starts a store operation in the given naming mode, with the default
    /// retry budget.
    pub fn new(naming: Naming) -> (m: StoreMachine)
        ensures
            m.spec_naming() == naming,
            m.spec_retries() == 0,
            m.spec_budget() == RETRY_CAP,
    {
        StoreMachine { naming, retries: 0, budget: RETRY_CAP }
    }

    /// Starts a store operation with an explicit retry budget.
    pub fn with_budget(naming: Naming, budget: usize) -> (m: StoreMachine)
        ensures
            m.spec_naming() == naming,
            m.spec_retries() == 0,
            m.spec_budget() == budget,
    {
        StoreMachine { naming, retries: 0, budget }
    }

    /// The next name to attempt: in keep-name mode the caller's name
    /// verbatim, in random mode a fresh identifier, then `.`, then the
    /// preserved extension (an empty extension yields a trailing-dot name).
    pub fn candidate(&self) -> (r: String)
        ensures
            match self.spec_naming() {
                Naming::KeepName { name } => r@ == name@,
                Naming::Random { length, extension } => {
                    &&& r@.len() == length + 1 + extension@.len()
                    &&& forall|i: int| 0 <= i < length ==> is_symbol(#[trigger] r@[i])
                    &&& r@[length as int] == '.'
                    &&& r@.subrange(length + 1, r@.len() as int) == extension@
                    &&& (forall|i: int|
                        0 <= i < extension@.len() ==> #[trigger] extension@[i] != '.')
                        ==> crate::extension::has_extension(r@)
                        && crate::extension::extension_of(r@) == extension@
                },
            },
    {
        match &self.naming {
            Naming::KeepName { name } => name.clone(),
            Naming::Random { length, extension } => {
                let mut r = generate(*length);
                crate::alphabet::push_char(&mut r, '.');
                r.append(extension.as_str());
                proof {
                    assert(r@.subrange(*length + 1, r@.len() as int) =~= extension@);
                    if forall|i: int|
                        0 <= i < extension@.len() ==> #[trigger] extension@[i] != '.' {
                        lemma_candidate_preserves_extension(r@, *length as int, extension@);
                    }
                }
                r
            },
        }
    }

    /// Turns the outcome of one exclusive-create attempt into the next
    /// action. A claimed name is final; a collision retries only in random
    /// mode and only within the retry budget; every other failure, and a
    /// keep-name collision, ends the operation with its error.
    pub fn decide_create(&mut self, candidate: String, outcome: CreateOutcome) -> (r: Verdict)
        ensures
            final(self).spec_naming() == old(self).spec_naming(),
            final(self).spec_budget() == old(self).spec_budget(),
            outcome == CreateOutcome::Created ==> r == (Verdict::Stored { name: candidate })
                && final(self).spec_retries() == old(self).spec_retries(),
            outcome matches CreateOutcome::Failed { cause } ==> r == (Verdict::Reject {
                error: StoreError::IoError { cause },
            }) && final(self).spec_retries() == old(self).spec_retries(),
            outcome == CreateOutcome::AlreadyExists && old(self).spec_naming() is KeepName
                ==> r == (Verdict::Reject { error: StoreError::NameCollision })
                && final(self).spec_retries() == old(self).spec_retries(),
            outcome == CreateOutcome::AlreadyExists && old(self).spec_naming() is Random
                && old(self).spec_retries() < old(self).spec_budget() ==> r == Verdict::Retry
                && final(self).spec_retries() == old(self).spec_retries() + 1,
            outcome == CreateOutcome::AlreadyExists && old(self).spec_naming() is Random
                && old(self).spec_retries() >= old(self).spec_budget() ==> r == (Verdict::Reject {
                error: StoreError::RetryBudgetExceeded,
            }) && final(self).spec_retries() == old(self).spec_retries(),
    {
        match outcome {
            CreateOutcome::Created => Verdict::Stored { name: candidate },
            CreateOutcome::Failed { cause } => Verdict::Reject {
                error: StoreError::IoError { cause },
            },
            CreateOutcome::AlreadyExists => match &self.naming {
                Naming::KeepName { .. } => Verdict::Reject { error: StoreError::NameCollision },
                Naming::Random { .. } => {
                    if self.retries < self.budget {
                        self.retries = self.retries + 1;
                        Verdict::Retry
                    } else {
                        Verdict::Reject { error: StoreError::RetryBudgetExceeded }
                    }
                },
            },
        }
    }
}

/// A stored file's extension matches the extension of the originally
/// submitted name: a random-mode candidate, as `candidate` shapes it from an
/// extension that holds no `.` of its own (which an extracted extension
/// never does), has exactly that extension again.
pub proof fn lemma_candidate_preserves_extension(c: Seq<char>, length: int, ext: Seq<char>)
    requires
        0 <= length,
        c.len() == length + 1 + ext.len(),
        forall|i: int| 0 <= i < length ==> is_symbol(#[trigger] c[i]),
        c[length] == '.',
        c.subrange(length + 1, c.len() as int) == ext,
        forall|i: int| 0 <= i < ext.len() ==> ext[i] != '.',
    ensures
        crate::extension::has_extension(c),
        crate::extension::extension_of(c) == ext,
{
    assert(forall|j: int| length < j < c.len() ==> c[j] == ext[j - length - 1] && c[j] != '.');
    crate::extension::lemma_last_dot_unique(c, length);
}

/// A write failure after a successful create is an I/O error; the partially
/// written file is left in place, and the caller must not rely on the name.
pub fn write_failure(cause: String) -> (r: StoreError)
    ensures
        r == (StoreError::IoError { cause }),
{
    StoreError::IoError { cause }
}

} // verus!
