//! The export pipeline: routes the round's task to its strategy, gates it on
//! the task's trigger policy and hands back what is to be written.
use vstd::prelude::*;
use vstd::utf8::encode_utf8;

use crate::graph::{document_step, ComputeGraph};
use crate::task::{ProjectTask, TaskWhen};
use crate::timing::{doc_owned, spec_needs_run, title_of, DocVariant, Document, ExportTimings};

verus! {

/// A markup format that the document converter writes.
#[derive(Debug, Clone, Copy, PartialEq, Eq, Hash, Structural)]
pub enum MarkupFormat {
    /// Markdown.
    Markdown,
    /// LaTeX.
    LaTeX,
}

impl MarkupFormat {
    /// The name of the format, for messages.
    pub fn name(&self) -> (r: &'static str)
        ensures
            *self == MarkupFormat::Markdown ==> r@ == "Markdown"@,
            *self == MarkupFormat::LaTeX ==> r@ == "LaTeX"@,
    {
        match self {
            MarkupFormat::Markdown => "Markdown",
            MarkupFormat::LaTeX => "LaTeX",
        }
    }
}

/// The procedure that turns a compiled document into output of one kind.
#[derive(Debug, Clone, Copy, PartialEq, Eq, Hash, Structural)]
pub enum ExportStrategy {
    /// Fixed-layout pages as a PDF document.
    Pdf,
    /// Fixed-layout pages as a raster image.
    Png,
    /// Fixed-layout pages as a vector image.
    Svg,
    /// Web markup of the HTML document.
    Html,
    /// Plain text of the pages.
    Text,
    /// Markup converted from the whole project, gated on the paged document.
    Markup(MarkupFormat),
}

impl ExportStrategy {
    /// The document variant the strategy reads.
    pub open spec fn spec_variant(self) -> DocVariant {
        match self {
            ExportStrategy::Html => DocVariant::Html,
            _ => DocVariant::Paged,
        }
    }

    /// Returns the document variant the strategy reads.
    pub fn variant(&self) -> (r: DocVariant)
        ensures
            r == self.spec_variant(),
    {
        match self {
            ExportStrategy::Html => DocVariant::Html,
            _ => DocVariant::Paged,
        }
    }
}

/// The strategy that serves a task; previews and queries have none here.
pub open spec fn spec_strategy_of(task: ProjectTask) -> Option<ExportStrategy> {
    match task {
        ProjectTask::Preview(_) => None,
        ProjectTask::ExportPdf(_) => Some(ExportStrategy::Pdf),
        ProjectTask::ExportPng(_) => Some(ExportStrategy::Png),
        ProjectTask::ExportSvg(_) => Some(ExportStrategy::Svg),
        ProjectTask::ExportHtml(_) => Some(ExportStrategy::Html),
        ProjectTask::ExportMarkdown(_) => Some(ExportStrategy::Markup(MarkupFormat::Markdown)),
        ProjectTask::ExportTeX(_) => Some(ExportStrategy::Markup(MarkupFormat::LaTeX)),
        ProjectTask::ExportText(_) => Some(ExportStrategy::Text),
        ProjectTask::Query(_) => None,
    }
}

/// Returns the strategy that serves a task; previews and queries have none.
pub fn strategy_of(task: &ProjectTask) -> (r: Option<ExportStrategy>)
    ensures
        r == spec_strategy_of(*task),
{
    match task {
        ProjectTask::Preview(_) => None,
        ProjectTask::ExportPdf(_) => Some(ExportStrategy::Pdf),
        ProjectTask::ExportPng(_) => Some(ExportStrategy::Png),
        ProjectTask::ExportSvg(_) => Some(ExportStrategy::Svg),
        ProjectTask::ExportHtml(_) => Some(ExportStrategy::Html),
        ProjectTask::ExportMarkdown(_) => Some(ExportStrategy::Markup(MarkupFormat::Markdown)),
        ProjectTask::ExportTeX(_) => Some(ExportStrategy::Markup(MarkupFormat::LaTeX)),
        ProjectTask::ExportText(_) => Some(ExportStrategy::Text),
        ProjectTask::Query(_) => None,
    }
}

/// What a strategy produced: bytes, or text to be written as UTF-8.
#[derive(Debug, Clone, PartialEq, Eq)]
pub enum RawOutput {
    /// Bytes, written as they are.
    Bytes(Vec<u8>),
    /// Text, written in UTF-8.
    Text(String),
}

/// The bytes that a strategy's output is written as.
pub open spec fn spec_payload(raw: RawOutput) -> Seq<u8> {
    match raw {
        RawOutput::Bytes(b) => b@,
        RawOutput::Text(s) => encode_utf8(s@),
    }
}

/// Returns the bytes that a strategy's output is written as.
pub fn payload(raw: RawOutput) -> (r: Vec<u8>)
    ensures
        r@ == spec_payload(raw),
{
    match raw {
        RawOutput::Bytes(b) => b,
        RawOutput::Text(s) => {
            let bytes = s.as_str().as_bytes();
            let mut r: Vec<u8> = Vec::new();
            let mut i: usize = 0;
            while i < bytes.len()
                invariant
                    0 <= i <= bytes@.len(),
                    r@ == bytes@.subrange(0, i as int),
                decreases bytes@.len() - i,
            {
                r.push(bytes[i]);
                i += 1;
            }
            assert(r@ == bytes@);
            r
        },
    }
}

/// Output to be written to its destination.
#[derive(Debug, Clone, PartialEq, Eq)]
pub struct ExportOutput {
    /// Where the output goes.
    pub path: String,
    /// What is written there.
    pub bytes: Vec<u8>,
}

/// Why an export failed.
#[derive(Debug, Clone, PartialEq, Eq)]
pub enum ExportError {
    /// No task was configured for the round.
    NotConfigured,
    /// The task has no export strategy: previews and queries are served
    /// elsewhere.
    Unsupported,
    /// The strategy failed, with its message.
    Failed(String),
}

/// Whether the task's output is produced this round: its document is there
/// and the change gate lets the task run.
pub open spec fn gate_open<D>(graph: ComputeGraph<D>, when: TaskWhen, doc: Option<Document<D>>) -> bool {
    doc is Some && spec_needs_run(graph.signal, Some(when), title_of(doc))
}

/// The strategy rendered the task's document into output written as `bytes`.
pub open spec fn rendered<D, R: FnOnce(ExportStrategy, &ProjectTask, &Document<D>) -> Result<RawOutput, String>>(
    render: R,
    strategy: ExportStrategy,
    task: ProjectTask,
    doc: Document<D>,
    bytes: Seq<u8>,
) -> bool {
    exists|raw: RawOutput|
        #![trigger render.ensures((strategy, &task, &doc), Ok(raw))]
        render.ensures((strategy, &task, &doc), Ok(raw)) && spec_payload(raw) == bytes
}

/// The strategy failed on the task's document with message `msg`.
pub open spec fn render_failed<D, R: FnOnce(ExportStrategy, &ProjectTask, &Document<D>) -> Result<RawOutput, String>>(
    render: R,
    strategy: ExportStrategy,
    task: ProjectTask,
    doc: Document<D>,
    msg: String,
) -> bool {
    render.ensures((strategy, &task, &doc), Err(msg))
}

/// The export pipeline of a round.
pub struct ProjectExport;

impl ProjectExport {
    /// Runs the round's task and returns the output to write, if any.
    ///
    /// `output_path` is the task's destination, resolved from its template
    /// against the round's entry; without one nothing is exported. The
    /// document the task's strategy reads is taken from the graph, and
    /// compiled by `compile` on first use if its flag allows. If the change
    /// gate lets the task run and the document is there, `render` produces
    /// the output. A skipped export is a success with no output.
    pub fn compute<D, C, R>(
        graph: &mut ComputeGraph<D>,
        output_path: Option<String>,
        compile: C,
        render: R,
    ) -> (r: Result<Option<ExportOutput>, ExportError>) where
        C: FnOnce(DocVariant) -> Option<Document<D>>,
        R: FnOnce(ExportStrategy, &ProjectTask, &Document<D>) -> Result<RawOutput, String>,

        requires
            forall|v: DocVariant| #[trigger] compile.requires((v,)),
            forall|s: ExportStrategy, t: &ProjectTask, d: &Document<D>| #[trigger]
                render.requires((s, t, d)),
        ensures
            old(graph).task@ is None ==> r == Err::<Option<ExportOutput>, ExportError>(
                ExportError::NotConfigured,
            ) && *final(graph) == *old(graph),
            old(graph).task@ is Some && output_path is None ==> (r matches Ok(None)) && *final(graph)
                == *old(graph),
            old(graph).task@ is Some && output_path is Some && spec_strategy_of(old(graph).task@->0)
                is None ==> r == Err::<Option<ExportOutput>, ExportError>(ExportError::Unsupported)
                && *final(graph) == *old(graph),
            old(graph).task@ is Some && output_path is Some && spec_strategy_of(old(graph).task@->0)
                is Some ==> {
                let task = old(graph).task@->0;
                let strategy = spec_strategy_of(task)->0;
                let doc = final(graph).doc_slot(strategy.spec_variant())->0;
                &&& document_step(*old(graph), *final(graph), strategy.spec_variant(), compile)
                &&& !gate_open(*final(graph), task.spec_when(), doc) ==> (r matches Ok(None))
                &&& gate_open(*final(graph), task.spec_when(), doc) ==> {
                    ||| r matches Ok(Some(out)) && out.path == output_path->0 && rendered(
                        render,
                        strategy,
                        task,
                        doc->0,
                        out.bytes@,
                    )
                    ||| r matches Err(ExportError::Failed(m)) && render_failed(
                        render,
                        strategy,
                        task,
                        doc->0,
                        m,
                    )
                }
            },
    {
        let (strategy, when) = match graph.task.get() {
            Some(task) => (strategy_of(task), task.when()),
            None => {
                return Err(ExportError::NotConfigured);
            },
        };
        let path = match output_path {
            Some(p) => p,
            None => {
                return Ok(None);
            },
        };
        let strategy = match strategy {
            Some(s) => s,
            None => {
                return Err(ExportError::Unsupported);
            },
        };
        match Self::export_with(graph, strategy, when, compile, render) {
            Ok(Some(bytes)) => Ok(Some(ExportOutput { path, bytes })),
            Ok(None) => Ok(None),
            Err(e) => Err(e),
        }
    }

    /// Computes the document that `strategy` reads, checks the task's policy
    /// against it and, if the task must run, renders the task's output.
    fn export_with<D, C, R>(
        graph: &mut ComputeGraph<D>,
        strategy: ExportStrategy,
        when: TaskWhen,
        compile: C,
        render: R,
    ) -> (r: Result<Option<Vec<u8>>, ExportError>) where
        C: FnOnce(DocVariant) -> Option<Document<D>>,
        R: FnOnce(ExportStrategy, &ProjectTask, &Document<D>) -> Result<RawOutput, String>,

        requires
            old(graph).task@ is Some,
            compile.requires((strategy.spec_variant(),)),
            forall|s: ExportStrategy, t: &ProjectTask, d: &Document<D>| #[trigger]
                render.requires((s, t, d)),
        ensures
            document_step(*old(graph), *final(graph), strategy.spec_variant(), compile),
            !gate_open(*final(graph), when, final(graph).doc_slot(strategy.spec_variant())->0) ==> r
                matches Ok(None),
            gate_open(*final(graph), when, final(graph).doc_slot(strategy.spec_variant())->0) ==> {
                let doc = final(graph).doc_slot(strategy.spec_variant())->0->0;
                let task = final(graph).task@->0;
                ||| r matches Ok(Some(b)) && rendered(render, strategy, task, doc, b@)
                ||| r matches Err(ExportError::Failed(m)) && render_failed(
                    render,
                    strategy,
                    task,
                    doc,
                    m,
                )
            },
    {
        let v = strategy.variant();
        let _ = graph.compute_document(v, compile);
        let doc = graph.document(v);
        let run = ExportTimings::needs_run(&graph.signal, Some(&when), doc);
        if !run {
            return Ok(None);
        }
        let doc = match doc {
            Some(d) => d,
            None => {
                return Ok(None);
            },
        };
        let task = graph.task.get().unwrap();
        match render(strategy, task, doc) {
            Ok(raw) => {
                let ghost g = raw;
                let bytes = payload(raw);
                assert(render.ensures((strategy, task, doc), Ok(g)));
                Ok(Some(bytes))
            },
            Err(msg) => Err(ExportError::Failed(msg)),
        }
    }
}

} // verus!
