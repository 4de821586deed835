//! The change gate: whether one task's output is regenerated this round.
use vstd::prelude::*;

use crate::task::TaskWhen;

verus! {

/// What caused the current round.
#[derive(Debug, Clone, Copy, PartialEq, Eq, Hash, Structural)]
pub struct ExportSignal {
    /// The round was issued by an explicit user command, such as an export
    /// or a query, rather than by the continuous recompilation that follows
    /// editing.
    pub explicit: bool,
    /// The round follows a save of a file to disk.
    pub by_fs_events: bool,
}

/// The layout a document is compiled in.
#[derive(Debug, Clone, Copy, PartialEq, Eq, Hash, Structural)]
pub enum DocVariant {
    /// Fixed-size pages.
    Paged,
    /// One continuous page, as on the web.
    Html,
}

/// A compiled document: what the gates read of it, and its content, which
/// they carry but never look into.
#[derive(Debug, Clone)]
pub struct Document<D> {
    /// The document's title, if it sets one.
    pub title: Option<String>,
    /// The compiled content.
    pub content: D,
}

/// The document behind an optional reference.
pub open spec fn doc_owned<D>(r: Option<&Document<D>>) -> Option<Document<D>> {
    match r {
        Some(d) => Some(*d),
        None => None,
    }
}

/// Whether the document, if there is one, has a title.
pub open spec fn title_of<D>(doc: Option<Document<D>>) -> Option<bool> {
    match doc {
        Some(d) => Some(d.title is Some),
        None => None,
    }
}

/// What a trigger policy says of this round; `None` when it cannot be
/// decided (a title is asked of a document that is absent).
pub open spec fn policy_outcome(signal: ExportSignal, when: TaskWhen, has_title: Option<bool>) -> Option<bool> {
    match when {
        TaskWhen::Never => Some(signal.explicit),
        TaskWhen::OnType => Some(true),
        TaskWhen::OnSave => Some(signal.explicit || signal.by_fs_events),
        TaskWhen::OnDocumentHasTitle => if signal.explicit || signal.by_fs_events {
            has_title
        } else {
            Some(false)
        },
        TaskWhen::Script => Some(signal.explicit),
    }
}

/// Whether a task must run: always without a policy, and whenever its policy
/// cannot be decided.
pub open spec fn spec_needs_run(signal: ExportSignal, when: Option<TaskWhen>, has_title: Option<bool>) -> bool {
    match when {
        None => true,
        Some(w) => match policy_outcome(signal, w, has_title) {
            Some(b) => b,
            None => true,
        },
    }
}

/// The change gate of export tasks.
pub struct ExportTimings;

impl ExportTimings {
    /// Evaluates a trigger policy against the round and its document;
    /// `None` when the policy cannot be decided.
    pub fn evaluate<D>(signal: &ExportSignal, when: &TaskWhen, doc: Option<&Document<D>>) -> (r: Option<bool>)
        ensures
            r == policy_outcome(*signal, *when, title_of(doc_owned(doc))),
    {
        match when {
            TaskWhen::Never => Some(signal.explicit),
            TaskWhen::OnType => Some(true),
            TaskWhen::OnSave => Some(signal.explicit || signal.by_fs_events),
            TaskWhen::OnDocumentHasTitle => {
                if signal.explicit || signal.by_fs_events {
                    match doc {
                        Some(d) => Some(d.title.is_some()),
                        None => None,
                    }
                } else {
                    Some(false)
                }
            },
            TaskWhen::Script => Some(signal.explicit),
        }
    }

    /// Whether the task with the given policy must regenerate its output
    /// this round. A task without a policy always runs, and so does one
    /// whose policy cannot be decided.
    pub fn needs_run<D>(signal: &ExportSignal, when: Option<&TaskWhen>, doc: Option<&Document<D>>) -> (r: bool)
        ensures
            r == spec_needs_run(*signal, opt_copy(when), title_of(doc_owned(doc))),
    {
        match when {
            None => true,
            Some(w) => match Self::evaluate(signal, w, doc) {
                Some(b) => b,
                None => true,
            },
        }
    }
}

/// The policy behind an optional reference.
pub open spec fn opt_copy(when: Option<&TaskWhen>) -> Option<TaskWhen> {
    match when {
        Some(w) => Some(*w),
        None => None,
    }
}

/// A task without a trigger policy runs in every round.
pub proof fn lemma_no_policy_always_runs(signal: ExportSignal, has_title: Option<bool>)
    ensures
        spec_needs_run(signal, None, has_title),
{
}

/// A policy that cannot be evaluated lets the task run.
pub proof fn lemma_undecided_policy_runs(signal: ExportSignal, when: TaskWhen, has_title: Option<bool>)
    requires
        policy_outcome(signal, when, has_title) is None,
    ensures
        spec_needs_run(signal, Some(when), has_title),
{
}

/// A task that never runs by itself runs in an explicit round and in no
/// other.
pub proof fn lemma_never_runs_only_explicitly(signal: ExportSignal, has_title: Option<bool>)
    ensures
        spec_needs_run(signal, Some(TaskWhen::Never), has_title) == signal.explicit,
{
}

/// A task that runs on typing runs whenever a document was just compiled.
pub proof fn lemma_on_type_runs_with_document(signal: ExportSignal, has_title: bool)
    ensures
        spec_needs_run(signal, Some(TaskWhen::OnType), Some(has_title)),
{
}

} // verus!
