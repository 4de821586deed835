//! The computation graph of one round: a write-once slot for each kind of
//! node, filled by an outside provider or by computing it at most once.
use vstd::prelude::*;

use crate::compile::DiagnosticsTimings;
use crate::task::{
    ExportHtmlTask, ExportMarkdownTask, ExportPdfTask, ExportPngTask, ExportSvgTask,
    ExportTeXTask, ExportTextTask, ProjectTask,
};
use crate::timing::{doc_owned, DocVariant, Document, ExportSignal};

verus! {

/// Why a node could not be read.
#[derive(Debug, Clone, Copy, PartialEq, Eq, Hash, Structural)]
pub enum GraphError {
    /// The node was never provided.
    NotProvided,
}

/// A slot that goes from empty to filled once and never changes after.
#[derive(Debug)]
pub struct Slot<T> {
    value: Option<T>,
}

/// The slot after offering it a value: the first value stays.
pub open spec fn provided<T>(slot: Option<T>, value: T) -> Option<T> {
    match slot {
        Some(_) => slot,
        None => Some(value),
    }
}

/// What computing a slot returns and leaves behind, given what the node's
/// computation would return: a filled slot answers with its value and the
/// computation does not count; an empty one is filled by a success and
/// stays empty after a failure, so that a later call retries.
pub open spec fn compute_outcome<T, E>(slot: Option<T>, fresh: Result<T, E>) -> (Result<T, E>, Option<T>) {
    match slot {
        Some(v) => (Ok(v), slot),
        None => match fresh {
            Ok(v) => (Ok(v), Some(v)),
            Err(e) => (Err(e), None),
        },
    }
}

/// The value behind a borrowed result.
pub open spec fn owned<T, E>(r: Result<&T, E>) -> Result<T, E> {
    match r {
        Ok(v) => Ok(*v),
        Err(e) => Err(e),
    }
}

impl<T> View for Slot<T> {
    type V = Option<T>;

    closed spec fn view(&self) -> Option<T> {
        self.value
    }
}

impl<T> Slot<T> {
    /// An empty slot.
    pub fn new() -> (r: Slot<T>)
        ensures
            r@ is None,
    {
        Slot { value: None }
    }

    /// Whether the slot holds a value.
    pub fn is_set(&self) -> (r: bool)
        ensures
            r == self@ is Some,
    {
        self.value.is_some()
    }

    /// The value of the slot, without computing anything.
    pub fn get(&self) -> (r: Option<&T>)
        ensures
            r is Some <==> self@ is Some,
            r is Some ==> *r->0 == self@->0,
    {
        match &self.value {
            Some(v) => Some(v),
            None => None,
        }
    }

    /// The value of the slot; an error if it was never provided.
    pub fn must_get(&self) -> (r: Result<&T, GraphError>)
        ensures
            r is Ok <==> self@ is Some,
            r is Ok ==> *r->Ok_0 == self@->0,
            r is Err ==> r->Err_0 == GraphError::NotProvided,
    {
        match &self.value {
            Some(v) => Ok(v),
            None => Err(GraphError::NotProvided),
        }
    }

    /// Fills an empty slot with the value; a filled slot is left as it is.
    /// Returns whether the value was taken.
    pub fn provide(&mut self, value: T) -> (r: bool)
        ensures
            r == old(self)@ is None,
            final(self)@ == provided(old(self)@, value),
    {
        if self.value.is_some() {
            false
        } else {
            self.value = Some(value);
            true
        }
    }

    /// The value of the slot, computed by `f` if the slot is empty. A
    /// success is kept; a failure leaves the slot empty.
    pub fn compute<E, F: FnOnce() -> Result<T, E>>(&mut self, f: F) -> (r: Result<&T, E>)
        requires
            old(self)@ is None ==> f.requires(()),
        ensures
            compute_outcome(old(self)@, owned(r)) == (owned(r), final(self)@),
            old(self)@ is None ==> f.ensures((), owned(r)),
    {
        if self.value.is_none() {
            match f() {
                Ok(v) => {
                    self.value = Some(v);
                },
                Err(e) => {
                    return Err(e);
                },
            }
        }
        Ok(self.value.as_ref().unwrap())
    }
}

/// A node computed twice gives the first result both times; the second call
/// finds the slot filled, so the node's computation runs only in the first.
pub proof fn lemma_compute_twice<T, E>(slot: Option<T>, first: Result<T, E>, second: Result<T, E>)
    requires
        compute_outcome(slot, first).0 is Ok,
    ensures
        compute_outcome(slot, first).1 is Some,
        compute_outcome(compute_outcome(slot, first).1, second) == (
            compute_outcome(slot, first).0,
            compute_outcome(slot, first).1,
        ),
{
}

/// Of two values offered to an empty slot, the first is kept and read back.
pub proof fn lemma_first_provide_wins<T>(slot: Option<T>, first: T, second: T)
    requires
        slot is None,
    ensures
        provided(provided(slot, first), second) == Some(first),
{
}

/// Whether a document variant may be compiled, given its flag: a flag that
/// was never set does not hold compilation back.
pub open spec fn compile_enabled(flag: Option<bool>) -> bool {
    flag != Some(false)
}

/// What computing a document does to its slot: a filled slot stays as it
/// is; an empty one is filled by `compile` if the flag allows, and as absent
/// if not.
pub open spec fn fills_document<D, C: FnOnce(DocVariant) -> Option<Document<D>>>(
    before: Option<Option<Document<D>>>,
    flag: Option<bool>,
    after: Option<Option<Document<D>>>,
    v: DocVariant,
    compile: C,
) -> bool {
    &&& after is Some
    &&& before is Some ==> after == before
    &&& before is None && !compile_enabled(flag) ==> after == Some(None::<Document<D>>)
    &&& before is None && compile_enabled(flag) ==> compile.ensures((v,), after->0)
}

/// What computing the document of variant `v` does to the graph: its slot
/// is filled as `fills_document` says, and nothing else changes.
pub open spec fn document_step<D, C: FnOnce(DocVariant) -> Option<Document<D>>>(
    before: ComputeGraph<D>,
    after: ComputeGraph<D>,
    v: DocVariant,
    compile: C,
) -> bool {
    &&& before.same_but_doc(after, v)
    &&& fills_document(before.doc_slot(v), before.flag_slot(v), after.doc_slot(v), v, compile)
}

/// The nodes of one round, each in its own slot.
pub struct ComputeGraph<D> {
    /// What caused the round.
    pub signal: ExportSignal,
    /// The trigger policies of diagnostics, which the compile gate counts
    /// for each document variant.
    pub diagnostics: DiagnosticsTimings,
    /// The task that the export pipeline runs.
    pub task: Slot<ProjectTask>,
    /// The configured PDF export.
    pub pdf: Slot<ExportPdfTask>,
    /// The configured PNG export.
    pub png: Slot<ExportPngTask>,
    /// The configured SVG export.
    pub svg: Slot<ExportSvgTask>,
    /// The configured HTML export.
    pub html: Slot<ExportHtmlTask>,
    /// The configured Markdown export.
    pub markdown: Slot<ExportMarkdownTask>,
    /// The configured TeX export.
    pub tex: Slot<ExportTeXTask>,
    /// The configured text export.
    pub text: Slot<ExportTextTask>,
    /// Whether the paged document is compiled this round.
    pub paged_flag: Slot<bool>,
    /// Whether the HTML document is compiled this round.
    pub html_flag: Slot<bool>,
    /// The paged document; absent when it was not or could not be compiled.
    pub paged_doc: Slot<Option<Document<D>>>,
    /// The HTML document; absent when it was not or could not be compiled.
    pub html_doc: Slot<Option<Document<D>>>,
}

impl<D> ComputeGraph<D> {
    /// The slot of a document variant.
    pub open spec fn doc_slot(self, v: DocVariant) -> Option<Option<Document<D>>> {
        match v {
            DocVariant::Paged => self.paged_doc@,
            DocVariant::Html => self.html_doc@,
        }
    }

    /// The compile flag of a document variant.
    pub open spec fn flag_slot(self, v: DocVariant) -> Option<bool> {
        match v {
            DocVariant::Paged => self.paged_flag@,
            DocVariant::Html => self.html_flag@,
        }
    }

    /// The round and the configured tasks are the same in both graphs.
    pub open spec fn same_inputs(self, other: Self) -> bool {
        &&& self.signal == other.signal
        &&& self.diagnostics == other.diagnostics
        &&& self.task@ == other.task@
        &&& self.pdf@ == other.pdf@
        &&& self.png@ == other.png@
        &&& self.svg@ == other.svg@
        &&& self.html@ == other.html@
        &&& self.markdown@ == other.markdown@
        &&& self.tex@ == other.tex@
        &&& self.text@ == other.text@
    }

    /// Both graphs agree on every slot but the document of variant `v`.
    pub open spec fn same_but_doc(self, other: Self, v: DocVariant) -> bool {
        &&& self.same_inputs(other)
        &&& self.paged_flag@ == other.paged_flag@
        &&& self.html_flag@ == other.html_flag@
        &&& (v != DocVariant::Paged ==> self.paged_doc@ == other.paged_doc@)
        &&& (v != DocVariant::Html ==> self.html_doc@ == other.html_doc@)
    }

    /// An empty graph for a round with the given cause and diagnostics.
    pub fn new(signal: ExportSignal, diagnostics: DiagnosticsTimings) -> (r: Self)
        ensures
            r.signal == signal,
            r.diagnostics == diagnostics,
            r.task@ is None,
            r.pdf@ is None,
            r.png@ is None,
            r.svg@ is None,
            r.html@ is None,
            r.markdown@ is None,
            r.tex@ is None,
            r.text@ is None,
            r.paged_flag@ is None,
            r.html_flag@ is None,
            r.paged_doc@ is None,
            r.html_doc@ is None,
    {
        ComputeGraph {
            signal,
            diagnostics,
            task: Slot::new(),
            pdf: Slot::new(),
            png: Slot::new(),
            svg: Slot::new(),
            html: Slot::new(),
            markdown: Slot::new(),
            tex: Slot::new(),
            text: Slot::new(),
            paged_flag: Slot::new(),
            html_flag: Slot::new(),
            paged_doc: Slot::new(),
            html_doc: Slot::new(),
        }
    }

    /// The document of variant `v` as computed so far; absent if it was not
    /// computed or could not be compiled.
    pub fn document(&self, v: DocVariant) -> (r: Option<&Document<D>>)
        ensures
            self.doc_slot(v) is Some ==> doc_owned(r) == self.doc_slot(v)->0,
            self.doc_slot(v) is None ==> r is None,
    {
        let slot = match v {
            DocVariant::Paged => self.paged_doc.get(),
            DocVariant::Html => self.html_doc.get(),
        };
        match slot {
            Some(d) => d.as_ref(),
            None => None,
        }
    }

    /// The document of variant `v`, compiled by `compile` on first use if
    /// its flag allows; a variant whose flag is down is cached as absent
    /// without compiling.
    pub fn compute_document<F: FnOnce(DocVariant) -> Option<Document<D>>>(
        &mut self,
        v: DocVariant,
        compile: F,
    ) -> (r: Option<&Document<D>>)
        requires
            compile.requires((v,)),
        ensures
            document_step(*old(self), *final(self), v, compile),
            final(self).doc_slot(v) == Some(doc_owned(r)),
    {
        let flag = match v {
            DocVariant::Paged => self.paged_flag.get(),
            DocVariant::Html => self.html_flag.get(),
        };
        let enabled = match flag {
            Some(f) => *f,
            None => true,
        };
        match v {
            DocVariant::Paged => fill_document(&mut self.paged_doc, enabled, v, compile),
            DocVariant::Html => fill_document(&mut self.html_doc, enabled, v, compile),
        }
    }
}

/// Fills an empty document slot, by compiling if `enabled` and as absent if
/// not, and returns what the slot holds.
fn fill_document<D, F: FnOnce(DocVariant) -> Option<Document<D>>>(
    slot: &mut Slot<Option<Document<D>>>,
    enabled: bool,
    v: DocVariant,
    compile: F,
) -> (r: Option<&Document<D>>)
    requires
        compile.requires((v,)),
    ensures
        final(slot)@ == Some(doc_owned(r)),
        old(slot)@ is Some ==> doc_owned(r) == old(slot)@->0,
        old(slot)@ is None && !enabled ==> r is None,
        old(slot)@ is None && enabled ==> compile.ensures((v,), doc_owned(r)),
{
    if !slot.is_set() {
        let doc = if enabled {
            compile(v)
        } else {
            None
        };
        slot.provide(doc);
    }
    slot.get().unwrap().as_ref()
}

} // verus!
