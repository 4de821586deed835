//! Project task models: what a requested job is, when it runs and how its
//! output is transformed.
use vstd::prelude::*;

verus! {

/// When a task runs, relative to the cause of the current round.
#[derive(Debug, Clone, Copy, PartialEq, Eq, Hash, Structural)]
pub enum TaskWhen {
    /// Only an explicit, user-issued invocation runs the task.
    Never,
    /// Runs after every recompilation, whatever caused it.
    OnType,
    /// Runs when the round follows a save, or on an explicit invocation.
    OnSave,
    /// Runs on a save or an explicit invocation, if the document has a title.
    OnDocumentHasTitle,
    /// Runs only when the round was issued by an explicit request.
    Script,
}

/// The identifier of a task or of a document.
#[derive(Debug, Clone, PartialEq, Eq, Hash)]
pub struct Id(pub String);

/// A length or a resolution, kept as the bits of an IEEE-754 single.
#[derive(Debug, Clone, Copy, PartialEq, Eq, Hash, Structural)]
pub struct Scalar {
    bits: u32,
}

impl Scalar {
    /// The bits this scalar was made from.
    pub closed spec fn spec_bits(self) -> u32 {
        self.bits
    }

    /// Makes a scalar from the bits of an IEEE-754 single.
    pub fn from_bits(bits: u32) -> (r: Scalar)
        ensures
            r.spec_bits() == bits,
    {
        Scalar { bits }
    }

    /// The bits of the IEEE-754 single.
    pub fn to_bits(&self) -> (r: u32)
        ensures
            r == self.spec_bits(),
    {
        self.bits
    }
}

/// An inclusive range of pages, counted from 1; an absent bound is open.
#[derive(Debug, Clone, Copy, PartialEq, Eq, Hash, Structural)]
pub struct Pages {
    start: Option<usize>,
    end: Option<usize>,
}

/// A page bound is absent or at least 1.
pub open spec fn valid_page_bound(b: Option<usize>) -> bool {
    b is Some ==> b->0 >= 1
}

impl Pages {
    /// Each bound names a page.
    #[verifier::type_invariant]
    spec fn inv(self) -> bool {
        valid_page_bound(self.start) && valid_page_bound(self.end)
    }

    /// The first page of the range, if bounded.
    pub closed spec fn spec_start(self) -> Option<usize> {
        self.start
    }

    /// The last page of the range, if bounded.
    pub closed spec fn spec_end(self) -> Option<usize> {
        self.end
    }

    /// Makes a page range; a bound of 0 names no page and is refused.
    pub fn new(start: Option<usize>, end: Option<usize>) -> (r: Option<Pages>)
        ensures
            r is Some <==> valid_page_bound(start) && valid_page_bound(end),
            r is Some ==> r->0.spec_start() == start && r->0.spec_end() == end,
    {
        let start_ok = match start {
            Some(s) => s >= 1,
            None => true,
        };
        let end_ok = match end {
            Some(e) => e >= 1,
            None => true,
        };
        if start_ok && end_ok {
            Some(Pages { start, end })
        } else {
            None
        }
    }

    /// The range that holds the first page alone.
    pub fn first() -> (r: Pages)
        ensures
            r == Pages::spec_first(),
            r.spec_start() == Some(1usize),
            r.spec_end() == Some(1usize),
    {
        Pages { start: Some(1), end: Some(1) }
    }

    /// The first page of the range, if bounded.
    pub fn start(&self) -> (r: Option<usize>)
        ensures
            r == self.spec_start(),
            valid_page_bound(r),
    {
        proof {
            use_type_invariant(self);
        }
        self.start
    }

    /// The last page of the range, if bounded.
    pub fn end(&self) -> (r: Option<usize>)
        ensures
            r == self.spec_end(),
            valid_page_bound(r),
    {
        proof {
            use_type_invariant(self);
        }
        self.end
    }

}

/// A PDF standard that the exporter enforces conformance with.
#[allow(non_camel_case_types)]
#[derive(Debug, Clone, Copy, PartialEq, Eq, Hash, Structural)]
pub enum PdfStandard {
    /// PDF 1.7.
    V_1_7,
    /// PDF/A-2b.
    A_2b,
    /// PDF/A-3b.
    A_3b,
}

/// A post-processing step on exported content.
#[derive(Debug, Clone, PartialEq, Eq, Hash)]
pub enum ExportTransform {
    /// Only pick a subset of pages.
    Pages {
        /// The page ranges to export.
        ranges: Vec<Pages>,
    },
    /// Merge pages into a single page.
    Merge {
        /// The gap between pages (in pt).
        gap: Scalar,
    },
    /// Execute a transform script.
    Script {
        /// The postprocess script to run.
        script: Option<String>,
    },
    /// Uses a pretty printer to format the output.
    Pretty {
        /// The pretty command to run; the builtin printer when absent.
        script: Option<String>,
    },
}

/// A preview task specifier.
#[derive(Debug, Clone, PartialEq, Eq, Hash)]
pub struct PreviewTask {
    /// The task's ID.
    pub id: Id,
    /// The document's ID.
    pub document: Id,
    /// When to run the task.
    pub when: TaskWhen,
}

/// The arguments that every export task shares.
#[derive(Debug, Clone, PartialEq, Eq, Hash)]
pub struct ExportTask {
    /// The task's ID.
    pub id: Id,
    /// The document's ID.
    pub document: Id,
    /// When to run the task.
    pub when: TaskWhen,
    /// The template of the destination path; no output is written without one.
    pub output: Option<String>,
    /// The task's transforms, in the order they apply.
    pub transform: Vec<ExportTransform>,
}

/// An export pdf task specifier.
#[derive(Debug, Clone, PartialEq, Eq, Hash)]
pub struct ExportPdfTask {
    /// The shared export arguments.
    pub export: ExportTask,
    /// The PDF standards to enforce conformance with.
    pub pdf_standards: Vec<PdfStandard>,
    /// The document's creation date as a UNIX timestamp (in seconds).
    pub creation_timestamp: Option<i64>,
}

/// An export png task specifier.
#[derive(Debug, Clone, PartialEq, Eq, Hash)]
pub struct ExportPngTask {
    /// The shared export arguments.
    pub export: ExportTask,
    /// The pixels per inch to render at.
    pub ppi: Scalar,
    /// The expression of the background fill; the document's own when absent.
    pub fill: Option<String>,
}

/// An export svg task specifier.
#[derive(Debug, Clone, PartialEq, Eq, Hash)]
pub struct ExportSvgTask {
    /// The shared export arguments.
    pub export: ExportTask,
}

/// An export html task specifier.
#[derive(Debug, Clone, PartialEq, Eq, Hash)]
pub struct ExportHtmlTask {
    /// The shared export arguments.
    pub export: ExportTask,
}

/// An export markdown task specifier.
#[derive(Debug, Clone, PartialEq, Eq, Hash)]
pub struct ExportMarkdownTask {
    /// The shared export arguments.
    pub export: ExportTask,
}

/// An export TeX task specifier.
#[derive(Debug, Clone, PartialEq, Eq, Hash)]
pub struct ExportTeXTask {
    /// The shared export arguments.
    pub export: ExportTask,
}

/// An export text task specifier.
#[derive(Debug, Clone, PartialEq, Eq, Hash)]
pub struct ExportTextTask {
    /// The shared export arguments.
    pub export: ExportTask,
}

/// A query task specifier.
#[derive(Debug, Clone, PartialEq, Eq, Hash)]
pub struct QueryTask {
    /// The shared export arguments.
    pub export: ExportTask,
    /// The format to serialize in: `json`, `yaml` or `txt`.
    pub format: String,
    /// An output extension other than the one the format implies.
    pub output_extension: String,
    /// Which elements to retrieve.
    pub selector: String,
    /// Extracts just one field from all retrieved elements.
    pub field: Option<String>,
    /// Expects and retrieves exactly one element.
    pub one: bool,
}

/// A requested job: a preview, an export in one format, or a query.
#[derive(Debug, Clone, PartialEq, Eq, Hash)]
pub enum ProjectTask {
    /// A preview task.
    Preview(PreviewTask),
    /// An export PDF task.
    ExportPdf(ExportPdfTask),
    /// An export PNG task.
    ExportPng(ExportPngTask),
    /// An export SVG task.
    ExportSvg(ExportSvgTask),
    /// An export HTML task.
    ExportHtml(ExportHtmlTask),
    /// An export Markdown task.
    ExportMarkdown(ExportMarkdownTask),
    /// An export TeX task.
    ExportTeX(ExportTeXTask),
    /// An export Text task.
    ExportText(ExportTextTask),
    /// A query task.
    Query(QueryTask),
}

impl ProjectTask {
    /// The export arguments of the task; a preview has none.
    pub open spec fn spec_export(self) -> Option<ExportTask> {
        match self {
            ProjectTask::Preview(_) => None,
            ProjectTask::ExportPdf(t) => Some(t.export),
            ProjectTask::ExportPng(t) => Some(t.export),
            ProjectTask::ExportSvg(t) => Some(t.export),
            ProjectTask::ExportHtml(t) => Some(t.export),
            ProjectTask::ExportMarkdown(t) => Some(t.export),
            ProjectTask::ExportTeX(t) => Some(t.export),
            ProjectTask::ExportText(t) => Some(t.export),
            ProjectTask::Query(t) => Some(t.export),
        }
    }

    /// The document a task is about.
    pub open spec fn spec_doc_id(self) -> Id {
        match self {
            ProjectTask::Preview(t) => t.document,
            _ => self.spec_export()->0.document,
        }
    }

    /// The task's own identifier.
    pub open spec fn spec_id(self) -> Id {
        match self {
            ProjectTask::Preview(t) => t.id,
            _ => self.spec_export()->0.id,
        }
    }

    /// The task's trigger policy.
    pub open spec fn spec_when(self) -> TaskWhen {
        match self {
            ProjectTask::Preview(t) => t.when,
            _ => self.spec_export()->0.when,
        }
    }

    /// Returns the ID of the document the task is about.
    pub fn doc_id(&self) -> (r: &Id)
        ensures
            *r == self.spec_doc_id(),
    {
        match self {
            ProjectTask::Preview(task) => &task.document,
            ProjectTask::ExportPdf(task) => &task.export.document,
            ProjectTask::ExportPng(task) => &task.export.document,
            ProjectTask::ExportSvg(task) => &task.export.document,
            ProjectTask::ExportHtml(task) => &task.export.document,
            ProjectTask::ExportMarkdown(task) => &task.export.document,
            ProjectTask::ExportTeX(task) => &task.export.document,
            ProjectTask::ExportText(task) => &task.export.document,
            ProjectTask::Query(task) => &task.export.document,
        }
    }

    /// Returns the task's ID.
    pub fn id(&self) -> (r: &Id)
        ensures
            *r == self.spec_id(),
    {
        match self {
            ProjectTask::Preview(task) => &task.id,
            ProjectTask::ExportPdf(task) => &task.export.id,
            ProjectTask::ExportPng(task) => &task.export.id,
            ProjectTask::ExportSvg(task) => &task.export.id,
            ProjectTask::ExportHtml(task) => &task.export.id,
            ProjectTask::ExportMarkdown(task) => &task.export.id,
            ProjectTask::ExportTeX(task) => &task.export.id,
            ProjectTask::ExportText(task) => &task.export.id,
            ProjectTask::Query(task) => &task.export.id,
        }
    }

    /// Returns the task's trigger policy.
    pub fn when(&self) -> (r: TaskWhen)
        ensures
            r == self.spec_when(),
    {
        match self {
            ProjectTask::Preview(task) => task.when,
            ProjectTask::ExportPdf(task) => task.export.when,
            ProjectTask::ExportPng(task) => task.export.when,
            ProjectTask::ExportSvg(task) => task.export.when,
            ProjectTask::ExportHtml(task) => task.export.when,
            ProjectTask::ExportMarkdown(task) => task.export.when,
            ProjectTask::ExportTeX(task) => task.export.when,
            ProjectTask::ExportText(task) => task.export.when,
            ProjectTask::Query(task) => task.export.when,
        }
    }

    /// Returns the export arguments of the task; a preview has none.
    pub fn as_export(&self) -> (r: Option<&ExportTask>)
        ensures
            r is Some <==> self.spec_export() is Some,
            r is Some ==> *r->0 == self.spec_export()->0,
    {
        match self {
            ProjectTask::Preview(_) => None,
            ProjectTask::ExportPdf(task) => Some(&task.export),
            ProjectTask::ExportPng(task) => Some(&task.export),
            ProjectTask::ExportSvg(task) => Some(&task.export),
            ProjectTask::ExportHtml(task) => Some(&task.export),
            ProjectTask::ExportMarkdown(task) => Some(&task.export),
            ProjectTask::ExportTeX(task) => Some(&task.export),
            ProjectTask::ExportText(task) => Some(&task.export),
            ProjectTask::Query(task) => Some(&task.export),
        }
    }
}

/// Which pages an export keeps.
#[derive(Debug, Clone, Copy, PartialEq, Eq, Hash, Structural)]
pub enum PageSelection {
    /// Only the first page.
    First,
    /// All pages merged into one, with a gap between them.
    Merged {
        /// The gap between pages (in pt).
        gap: Scalar,
    },
}

/// The transform that a page selection appends to an export task.
pub open spec fn selection_transform(t: ExportTransform, selection: PageSelection) -> bool {
    match selection {
        PageSelection::First => t matches ExportTransform::Pages { ranges } && ranges@ == seq![
            Pages::spec_first(),
        ],
        PageSelection::Merged { gap } => t == (ExportTransform::Merge { gap }),
    }
}

impl Pages {
    /// The range that holds the first page alone.
    pub closed spec fn spec_first() -> Pages {
        Pages { start: Some(1), end: Some(1) }
    }
}

/// Applies a page selection to an export task, as a transform appended last.
pub fn select_page(task: &mut ExportTask, selection: PageSelection)
    ensures
        final(task).transform@.len() == old(task).transform@.len() + 1,
        final(task).transform@.drop_last() == old(task).transform@,
        selection_transform(final(task).transform@.last(), selection),
        final(task).id == old(task).id,
        final(task).document == old(task).document,
        final(task).when == old(task).when,
        final(task).output == old(task).output,
{
    match selection {
        PageSelection::First => {
            let mut ranges: Vec<Pages> = Vec::new();
            ranges.push(Pages::first());
            assert(ranges@ == seq![Pages::spec_first()]);
            task.transform.push(ExportTransform::Pages { ranges });
        },
        PageSelection::Merged { gap } => {
            task.transform.push(ExportTransform::Merge { gap });
        },
    }
}

} // verus!
