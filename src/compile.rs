//! The compile gate: which document variants are compiled this round.
use vstd::prelude::*;

use crate::graph::{fills_document, provided, ComputeGraph};
use crate::task::{ExportTask, TaskWhen};
use crate::timing::{spec_needs_run, DocVariant, Document, ExportSignal, ExportTimings};

verus! {

/// The trigger policies of diagnostics for each document variant: one for
/// continuous feedback and one for explicit requests.
#[derive(Debug, Clone, Copy, PartialEq, Eq, Hash, Structural)]
pub struct DiagnosticsTimings {
    /// Continuous diagnostics of the paged document.
    pub paged_continuous: TaskWhen,
    /// Diagnostics of the paged document on explicit requests.
    pub paged_explicit: TaskWhen,
    /// Continuous diagnostics of the HTML document.
    pub html_continuous: TaskWhen,
    /// Diagnostics of the HTML document on explicit requests.
    pub html_explicit: TaskWhen,
}

impl DiagnosticsTimings {
    /// Paged diagnostics on typing and on explicit requests; none for HTML.
    pub fn new() -> (r: Self)
        ensures
            r.paged_continuous == TaskWhen::OnType,
            r.paged_explicit == TaskWhen::Script,
            r.html_continuous == TaskWhen::Never,
            r.html_explicit == TaskWhen::Never,
    {
        DiagnosticsTimings {
            paged_continuous: TaskWhen::OnType,
            paged_explicit: TaskWhen::Script,
            html_continuous: TaskWhen::Never,
            html_explicit: TaskWhen::Never,
        }
    }
}

/// The policy of a configured export, if one is configured.
pub open spec fn policy_of(export: Option<ExportTask>) -> Option<TaskWhen> {
    match export {
        Some(t) => Some(t.when),
        None => None,
    }
}

/// The configured PDF export's shared arguments.
pub open spec fn pdf_export<D>(g: ComputeGraph<D>) -> Option<ExportTask> {
    match g.pdf@ {
        Some(t) => Some(t.export),
        None => None,
    }
}

/// The configured SVG export's shared arguments.
pub open spec fn svg_export<D>(g: ComputeGraph<D>) -> Option<ExportTask> {
    match g.svg@ {
        Some(t) => Some(t.export),
        None => None,
    }
}

/// The configured PNG export's shared arguments.
pub open spec fn png_export<D>(g: ComputeGraph<D>) -> Option<ExportTask> {
    match g.png@ {
        Some(t) => Some(t.export),
        None => None,
    }
}

/// The configured text export's shared arguments.
pub open spec fn text_export<D>(g: ComputeGraph<D>) -> Option<ExportTask> {
    match g.text@ {
        Some(t) => Some(t.export),
        None => None,
    }
}

/// The configured markdown export's shared arguments.
pub open spec fn markdown_export<D>(g: ComputeGraph<D>) -> Option<ExportTask> {
    match g.markdown@ {
        Some(t) => Some(t.export),
        None => None,
    }
}

/// The configured TEX export's shared arguments.
pub open spec fn tex_export<D>(g: ComputeGraph<D>) -> Option<ExportTask> {
    match g.tex@ {
        Some(t) => Some(t.export),
        None => None,
    }
}

/// The configured HTML export's shared arguments.
pub open spec fn html_export<D>(g: ComputeGraph<D>) -> Option<ExportTask> {
    match g.html@ {
        Some(t) => Some(t.export),
        None => None,
    }
}

/// The policies that bear on compiling the paged document: its two
/// diagnostics policies and those of the configured exports that read it.
pub open spec fn paged_policies<D>(g: ComputeGraph<D>) -> Seq<Option<TaskWhen>> {
    seq![
        Some(g.diagnostics.paged_continuous),
        Some(g.diagnostics.paged_explicit),
        policy_of(pdf_export(g)),
        policy_of(svg_export(g)),
        policy_of(png_export(g)),
        policy_of(text_export(g)),
        policy_of(markdown_export(g)),
        policy_of(tex_export(g)),
    ]
}

/// The policies that bear on compiling the HTML document.
pub open spec fn html_policies<D>(g: ComputeGraph<D>) -> Seq<Option<TaskWhen>> {
    seq![
        Some(g.diagnostics.html_continuous),
        Some(g.diagnostics.html_explicit),
        policy_of(html_export(g)),
    ]
}

/// A configured policy that asks for a run this round, with no document
/// compiled yet; a kind that is not configured asks for nothing.
pub open spec fn demands(signal: ExportSignal, policy: Option<TaskWhen>) -> bool {
    policy is Some && spec_needs_run(signal, policy, None)
}

/// Some policy of the list asks for a run this round.
pub open spec fn any_demands(signal: ExportSignal, policies: Seq<Option<TaskWhen>>) -> bool {
    exists|i: int| 0 <= i < policies.len() && demands(signal, #[trigger] policies[i])
}

/// Whether the round must compile the document variant `v`.
pub open spec fn spec_compile<D>(g: ComputeGraph<D>, v: DocVariant) -> bool {
    match v {
        DocVariant::Paged => any_demands(g.signal, paged_policies(g)),
        DocVariant::Html => any_demands(g.signal, html_policies(g)),
    }
}

/// The compile gate's effect on a graph: a flag that was empty now holds
/// whether its variant must be compiled; nothing else changes.
pub open spec fn gate_step<D>(before: ComputeGraph<D>, after: ComputeGraph<D>) -> bool {
    &&& before.same_inputs(after)
    &&& after.paged_flag@ == provided(before.paged_flag@, spec_compile(before, DocVariant::Paged))
    &&& after.html_flag@ == provided(before.html_flag@, spec_compile(before, DocVariant::Html))
    &&& after.paged_doc@ == before.paged_doc@
    &&& after.html_doc@ == before.html_doc@
}

/// The policies that bear on compiling the paged document, in order.
fn paged_policy_list<D>(graph: &ComputeGraph<D>) -> (r: Vec<Option<TaskWhen>>)
    ensures
        r@ == paged_policies(*graph),
{
    let mut r: Vec<Option<TaskWhen>> = Vec::new();
    r.push(Some(graph.diagnostics.paged_continuous));
    r.push(Some(graph.diagnostics.paged_explicit));
    r.push(
        match graph.pdf.get() {
            Some(t) => Some(t.export.when),
            None => None,
        },
    );
    r.push(
        match graph.svg.get() {
            Some(t) => Some(t.export.when),
            None => None,
        },
    );
    r.push(
        match graph.png.get() {
            Some(t) => Some(t.export.when),
            None => None,
        },
    );
    r.push(
        match graph.text.get() {
            Some(t) => Some(t.export.when),
            None => None,
        },
    );
    r.push(
        match graph.markdown.get() {
            Some(t) => Some(t.export.when),
            None => None,
        },
    );
    r.push(
        match graph.tex.get() {
            Some(t) => Some(t.export.when),
            None => None,
        },
    );
    assert(r@ =~= paged_policies(*graph));
    r
}

/// The policies that bear on compiling the HTML document, in order.
fn html_policy_list<D>(graph: &ComputeGraph<D>) -> (r: Vec<Option<TaskWhen>>)
    ensures
        r@ == html_policies(*graph),
{
    let mut r: Vec<Option<TaskWhen>> = Vec::new();
    r.push(Some(graph.diagnostics.html_continuous));
    r.push(Some(graph.diagnostics.html_explicit));
    r.push(
        match graph.html.get() {
            Some(t) => Some(t.export.when),
            None => None,
        },
    );
    assert(r@ =~= html_policies(*graph));
    r
}

/// Whether some policy of the list asks for a run this round.
fn any_policy_demands(signal: &ExportSignal, policies: &Vec<Option<TaskWhen>>) -> (r: bool)
    ensures
        r == any_demands(*signal, policies@),
{
    let mut i: usize = 0;
    while i < policies.len()
        invariant
            0 <= i <= policies@.len(),
            forall|j: int| 0 <= j < i ==> !demands(*signal, #[trigger] policies@[j]),
        decreases policies@.len() - i,
    {
        let p = policies[i];
        if p.is_some() && ExportTimings::needs_run::<()>(signal, p.as_ref(), None) {
            assert(demands(*signal, policies@[i as int]));
            return true;
        }
        i += 1;
    }
    false
}

/// The compile gate of a round.
pub struct ProjectCompilation;

impl ProjectCompilation {
    /// Decides which document variants this round compiles, from the
    /// diagnostics policies and those of the configured export tasks, and
    /// sets each variant's flag unless it was set before. Returns whether
    /// any variant must be compiled.
    pub fn preconfig_timings<D>(graph: &mut ComputeGraph<D>) -> (r: bool)
        ensures
            r == (spec_compile(*old(graph), DocVariant::Paged) || spec_compile(
                *old(graph),
                DocVariant::Html,
            )),
            gate_step(*old(graph), *final(graph)),
    {
        let paged = paged_policy_list(graph);
        let html = html_policy_list(graph);
        let compile_paged = any_policy_demands(&graph.signal, &paged);
        let compile_html = any_policy_demands(&graph.signal, &html);

        let _ = graph.paged_flag.provide(compile_paged);
        let _ = graph.html_flag.provide(compile_html);

        compile_paged || compile_html
    }
}

impl ProjectCompilation {
    /// Runs the compile gate, then computes the documents that diagnostics
    /// read: each variant is compiled by its compiler if its flag allows.
    /// Returns whether any variant must be compiled.
    pub fn compute<D, P, H>(graph: &mut ComputeGraph<D>, compile_paged: P, compile_html: H) -> (r: bool) where
        P: FnOnce(DocVariant) -> Option<Document<D>>,
        H: FnOnce(DocVariant) -> Option<Document<D>>,

        requires
            compile_paged.requires((DocVariant::Paged,)),
            compile_html.requires((DocVariant::Html,)),
        ensures
            r == (spec_compile(*old(graph), DocVariant::Paged) || spec_compile(
                *old(graph),
                DocVariant::Html,
            )),
            old(graph).same_inputs(*final(graph)),
            final(graph).paged_flag@ == provided(
                old(graph).paged_flag@,
                spec_compile(*old(graph), DocVariant::Paged),
            ),
            final(graph).html_flag@ == provided(
                old(graph).html_flag@,
                spec_compile(*old(graph), DocVariant::Html),
            ),
            fills_document(
                old(graph).paged_doc@,
                final(graph).paged_flag@,
                final(graph).paged_doc@,
                DocVariant::Paged,
                compile_paged,
            ),
            fills_document(
                old(graph).html_doc@,
                final(graph).html_flag@,
                final(graph).html_doc@,
                DocVariant::Html,
                compile_html,
            ),
    {
        let r = Self::preconfig_timings(graph);
        let _ = graph.compute_document(DocVariant::Paged, compile_paged);
        let _ = graph.compute_document(DocVariant::Html, compile_html);
        r
    }
}

/// The compile gate never overrides a flag set before it: whatever it
/// decides, a flag that was set keeps its value.
pub proof fn lemma_gate_keeps_set_flag<D>(before: ComputeGraph<D>, after: ComputeGraph<D>, v: DocVariant)
    requires
        gate_step(before, after),
        before.flag_slot(v) is Some,
    ensures
        after.flag_slot(v) == before.flag_slot(v),
{
}

/// Whether a variant is compiled depends on the round and on the trigger
/// policies alone: two graphs whose configured exports differ only in their
/// transforms, destinations or format options get the same decisions.
pub proof fn lemma_compile_reads_policies_only<D>(a: ComputeGraph<D>, b: ComputeGraph<D>)
    requires
        a.signal == b.signal,
        a.diagnostics == b.diagnostics,
        policy_of(pdf_export(a)) == policy_of(pdf_export(b)),
        policy_of(svg_export(a)) == policy_of(svg_export(b)),
        policy_of(png_export(a)) == policy_of(png_export(b)),
        policy_of(text_export(a)) == policy_of(text_export(b)),
        policy_of(markdown_export(a)) == policy_of(markdown_export(b)),
        policy_of(tex_export(a)) == policy_of(tex_export(b)),
        policy_of(html_export(a)) == policy_of(html_export(b)),
    ensures
        spec_compile(a, DocVariant::Paged) == spec_compile(b, DocVariant::Paged),
        spec_compile(a, DocVariant::Html) == spec_compile(b, DocVariant::Html),
{
    assert(paged_policies(a) =~= paged_policies(b));
    assert(html_policies(a) =~= html_policies(b));
}

} // verus!
