//! Provisioning of collections. Before a write into a collection that may
//! not exist yet, the store makes sure that it does: it lists the engine's
//! collections and, where the one it needs is absent, creates it and then its
//! secondary indexes. This is decided here step by step; each step names one
//! call to the engine, and the engine's reply decides the next.
//!
//! Provisioning is safe to repeat and safe to race: a collection that is
//! listed is left alone, and an engine that refuses a creation because the
//! thing exists already has done what was asked.

use crate::engine::CollectionSpec;
use crate::error::AppError;
use crate::error::ErrorView;
use crate::text::str_eq;
use vstd::prelude::*;
use vstd::string::*;

verus! {

/// The call that provisioning makes next.
#[derive(Debug, Clone, Copy, PartialEq, Eq, Structural)]
pub enum ProvisionStep {
    /// List the engine's collections.
    ListCollections,
    /// Create the collection.
    CreateCollection,
    /// Create the secondary index of this position in the specification.
    CreateFieldIndex(usize),
    /// Nothing: the collection is ready.
    Done,
}

/// The engine's reply to a provisioning call.
#[derive(Debug, Clone, PartialEq, Eq)]
pub enum ProvisionReply {
    /// The names of the engine's collections.
    Collections(Vec<String>),
    /// The engine did what was asked.
    Accepted,
    /// The engine refused because what was to be created exists already.
    Conflict(String),
    /// The engine failed in any other way.
    Failed(String),
}

/// The mathematical form of a reply.
pub ghost enum ReplyView {
    Collections(Seq<Seq<char>>),
    Accepted,
    Conflict(Seq<char>),
    Failed(Seq<char>),
}

impl View for ProvisionReply {
    type V = ReplyView;

    open spec fn view(&self) -> ReplyView {
        match self {
            ProvisionReply::Collections(names) => ReplyView::Collections(
                Seq::new(names@.len(), |i: int| names@[i]@),
            ),
            ProvisionReply::Accepted => ReplyView::Accepted,
            ProvisionReply::Conflict(m) => ReplyView::Conflict(m@),
            ProvisionReply::Failed(m) => ReplyView::Failed(m@),
        }
    }
}

/// The step that follows the creation of the collection, or of the index
/// before position `next`, where the specification has `indexes` indexes.
pub open spec fn index_step(next: nat, indexes: nat) -> ProvisionStep {
    if next < indexes {
        ProvisionStep::CreateFieldIndex(next as usize)
    } else {
        ProvisionStep::Done
    }
}

/// The error for a reply that does not answer the call made.
pub open spec fn unexpected_reply() -> ErrorView {
    ErrorView::Qdrant("unexpected reply from the engine"@)
}

/// What follows a step, given the engine's reply to it, for a collection
/// called `name` with `indexes` secondary indexes.
///
/// - After listing: done if the collection is listed, else create it.
/// - After creating the collection: its first index, or done if it has
///   none. A conflict counts as created.
/// - After creating an index: the next index, or done after the last. A
///   conflict counts as created.
/// - A failure ends provisioning with the engine's words.
pub open spec fn next_step(
    name: Seq<char>,
    indexes: nat,
    step: ProvisionStep,
    reply: ReplyView,
) -> Result<ProvisionStep, ErrorView> {
    match step {
        ProvisionStep::Done => Ok(ProvisionStep::Done),
        ProvisionStep::ListCollections => match reply {
            ReplyView::Collections(names) => if names.contains(name) {
                Ok(ProvisionStep::Done)
            } else {
                Ok(ProvisionStep::CreateCollection)
            },
            ReplyView::Accepted => Err(unexpected_reply()),
            ReplyView::Conflict(m) => Err(ErrorView::Qdrant(m)),
            ReplyView::Failed(m) => Err(ErrorView::Qdrant(m)),
        },
        ProvisionStep::CreateCollection => match reply {
            ReplyView::Accepted => Ok(index_step(0, indexes)),
            ReplyView::Conflict(_) => Ok(index_step(0, indexes)),
            ReplyView::Collections(_) => Err(unexpected_reply()),
            ReplyView::Failed(m) => Err(ErrorView::Qdrant(m)),
        },
        ProvisionStep::CreateFieldIndex(i) => match reply {
            ReplyView::Accepted => Ok(index_step((i + 1) as nat, indexes)),
            ReplyView::Conflict(_) => Ok(index_step((i + 1) as nat, indexes)),
            ReplyView::Collections(_) => Err(unexpected_reply()),
            ReplyView::Failed(m) => Err(ErrorView::Qdrant(m)),
        },
    }
}

/// An upper bound on the calls that provisioning still makes from `step`.
pub open spec fn calls_left(step: ProvisionStep, indexes: nat) -> nat {
    match step {
        ProvisionStep::ListCollections => indexes + 2,
        ProvisionStep::CreateCollection => indexes + 1,
        ProvisionStep::CreateFieldIndex(i) => if i < indexes {
            (indexes - i) as nat
        } else {
            1
        },
        ProvisionStep::Done => 0,
    }
}

/// Provisioning ends: every reply that does not fail it brings it nearer to
/// done, so a collection with `indexes` indexes, as many as a list can hold,
/// is ready after at most `indexes + 2` calls.
pub proof fn lemma_provisioning_ends(
    name: Seq<char>,
    indexes: nat,
    step: ProvisionStep,
    reply: ReplyView,
)
    requires
        indexes <= usize::MAX,
        step != ProvisionStep::Done,
        next_step(name, indexes, step, reply) is Ok,
    ensures
        calls_left(next_step(name, indexes, step, reply)->Ok_0, indexes) < calls_left(
            step,
            indexes,
        ),
{
}

/// Provisioning is idempotent: where the collection is listed, nothing is
/// created.
pub proof fn lemma_listed_collection_is_ready(
    name: Seq<char>,
    indexes: nat,
    names: Seq<Seq<char>>,
)
    requires
        names.contains(name),
    ensures
        next_step(name, indexes, ProvisionStep::ListCollections, ReplyView::Collections(names))
            == Ok::<ProvisionStep, ErrorView>(ProvisionStep::Done),
{
}

/// Provisioning absorbs a lost race: a creation that the engine refuses
/// because another caller was first counts like one that it accepted.
pub proof fn lemma_conflict_is_success(name: Seq<char>, indexes: nat, step: ProvisionStep, m: Seq<char>)
    requires
        step == ProvisionStep::CreateCollection || step is CreateFieldIndex,
    ensures
        next_step(name, indexes, step, ReplyView::Conflict(m)) == next_step(
            name,
            indexes,
            step,
            ReplyView::Accepted,
        ),
        next_step(name, indexes, step, ReplyView::Conflict(m)) is Ok,
{
}

fn is_listed(names: &Vec<String>, name: &str) -> (listed: bool)
    ensures
        listed == Seq::new(names@.len(), |i: int| names@[i]@).contains(name@),
{
    let ghost views = Seq::new(names@.len(), |i: int| names@[i]@);
    let mut i: usize = 0;
    while i < names.len()
        invariant
            i <= names@.len(),
            views == Seq::new(names@.len(), |i: int| names@[i]@),
            forall|j: int| 0 <= j < i ==> views[j] != name@,
        decreases names@.len() - i,
    {
        if str_eq(names[i].as_str(), name) {
            assert(views[i as int] == name@);
            return true;
        }
        i += 1;
    }
    false
}

fn after_index(next: usize, indexes: usize) -> (step: ProvisionStep)
    ensures
        step == index_step(next as nat, indexes as nat),
{
    if next < indexes {
        ProvisionStep::CreateFieldIndex(next)
    } else {
        ProvisionStep::Done
    }
}

impl CollectionSpec {
    /// The first step of provisioning.
    pub fn begin(&self) -> (step: ProvisionStep)
        ensures
            step == ProvisionStep::ListCollections,
    {
        ProvisionStep::ListCollections
    }

    /// The step that follows `step`, given the engine's reply to it, or the
    /// error that ends provisioning.
    pub fn advance(&self, step: ProvisionStep, reply: &ProvisionReply) -> (r: Result<
        ProvisionStep,
        AppError,
    >)
        ensures
            match r {
                Ok(next) => next_step(self.name@, self.indexes@.len(), step, reply@) == Ok::<
                    ProvisionStep,
                    ErrorView,
                >(next),
                Err(e) => next_step(self.name@, self.indexes@.len(), step, reply@) == Err::<
                    ProvisionStep,
                    ErrorView,
                >(e@),
            },
    {
        match step {
            ProvisionStep::Done => Ok(ProvisionStep::Done),
            ProvisionStep::ListCollections => match reply {
                ProvisionReply::Collections(names) => {
                    if is_listed(names, self.name.as_str()) {
                        Ok(ProvisionStep::Done)
                    } else {
                        Ok(ProvisionStep::CreateCollection)
                    }
                },
                ProvisionReply::Accepted => Err(
                    AppError::Qdrant(String::from_str("unexpected reply from the engine")),
                ),
                ProvisionReply::Conflict(m) => Err(AppError::Qdrant(m.clone())),
                ProvisionReply::Failed(m) => Err(AppError::Qdrant(m.clone())),
            },
            ProvisionStep::CreateCollection => match reply {
                ProvisionReply::Accepted => Ok(after_index(0, self.indexes.len())),
                ProvisionReply::Conflict(_) => Ok(after_index(0, self.indexes.len())),
                ProvisionReply::Collections(_) => Err(
                    AppError::Qdrant(String::from_str("unexpected reply from the engine")),
                ),
                ProvisionReply::Failed(m) => Err(AppError::Qdrant(m.clone())),
            },
            ProvisionStep::CreateFieldIndex(i) => match reply {
                ProvisionReply::Accepted => Ok(self.after(i)),
                ProvisionReply::Conflict(_) => Ok(self.after(i)),
                ProvisionReply::Collections(_) => Err(
                    AppError::Qdrant(String::from_str("unexpected reply from the engine")),
                ),
                ProvisionReply::Failed(m) => Err(AppError::Qdrant(m.clone())),
            },
        }
    }

    fn after(&self, i: usize) -> (step: ProvisionStep)
        ensures
            step == index_step((i + 1) as nat, self.indexes@.len()),
    {
        if i < self.indexes.len() {
            after_index(i + 1, self.indexes.len())
        } else {
            ProvisionStep::Done
        }
    }
}

} // verus!
