use std::cell::Cell;

use tinymist_export::compile::{DiagnosticsTimings, ProjectCompilation};
use tinymist_export::export::{
    payload, strategy_of, ExportError, ExportStrategy, MarkupFormat, ProjectExport, RawOutput,
};
use tinymist_export::graph::ComputeGraph;
use tinymist_export::task::{
    ExportHtmlTask, ExportMarkdownTask, ExportPngTask, ExportTask, Id, PreviewTask, ProjectTask,
    QueryTask, Scalar, TaskWhen,
};
use tinymist_export::timing::{DocVariant, Document, ExportSignal};

fn editing() -> ExportSignal {
    ExportSignal { explicit: false, by_fs_events: false }
}

fn explicit() -> ExportSignal {
    ExportSignal { explicit: true, by_fs_events: false }
}

fn quiet_diagnostics() -> DiagnosticsTimings {
    DiagnosticsTimings {
        paged_continuous: TaskWhen::Never,
        paged_explicit: TaskWhen::Never,
        html_continuous: TaskWhen::Never,
        html_explicit: TaskWhen::Never,
    }
}

fn export(when: TaskWhen) -> ExportTask {
    ExportTask {
        id: Id("export".to_string()),
        document: Id("main".to_string()),
        when,
        output: Some("$root/$name".to_string()),
        transform: vec![],
    }
}

fn png(when: TaskWhen) -> ExportPngTask {
    ExportPngTask { export: export(when), ppi: Scalar::from_bits(144f32.to_bits()), fill: None }
}

fn document(v: DocVariant) -> Option<Document<String>> {
    Some(Document { title: None, content: format!("{v:?}") })
}

fn render_bytes(
    s: ExportStrategy,
    _t: &ProjectTask,
    d: &Document<String>,
) -> Result<RawOutput, String> {
    match s {
        ExportStrategy::Png | ExportStrategy::Pdf => Ok(RawOutput::Bytes(d.content.as_bytes().to_vec())),
        _ => Ok(RawOutput::Text(format!("{}!", d.content))),
    }
}

#[test]
fn on_type_png_export_writes_output() {
    let mut g: ComputeGraph<String> = ComputeGraph::new(editing(), DiagnosticsTimings::new());
    g.png.provide(png(TaskWhen::OnType));
    g.task.provide(ProjectTask::ExportPng(png(TaskWhen::OnType)));
    assert!(ProjectCompilation::preconfig_timings(&mut g));
    let r = ProjectExport::compute(&mut g, Some("/out/main.png".to_string()), document, render_bytes);
    let out = r.unwrap().unwrap();
    assert_eq!(out.path, "/out/main.png");
    assert_eq!(out.bytes, b"Paged".to_vec());
}

#[test]
fn never_png_export_while_editing_writes_nothing() {
    let compiled = Cell::new(0u32);
    let rendered = Cell::new(0u32);
    let mut g: ComputeGraph<String> = ComputeGraph::new(editing(), DiagnosticsTimings::new());
    g.png.provide(png(TaskWhen::Never));
    g.task.provide(ProjectTask::ExportPng(png(TaskWhen::Never)));
    ProjectCompilation::preconfig_timings(&mut g);
    let r = ProjectExport::compute(
        &mut g,
        Some("/out/main.png".to_string()),
        |v| {
            compiled.set(compiled.get() + 1);
            document(v)
        },
        |s, t, d| {
            rendered.set(rendered.get() + 1);
            render_bytes(s, t, d)
        },
    );
    assert_eq!(r, Ok(None));
    assert_eq!(rendered.get(), 0);
}

#[test]
fn never_png_export_on_command_writes_output() {
    let mut g: ComputeGraph<String> = ComputeGraph::new(explicit(), DiagnosticsTimings::new());
    g.task.provide(ProjectTask::ExportPng(png(TaskWhen::Never)));
    let r = ProjectExport::compute(&mut g, Some("/out/a.png".to_string()), document, render_bytes);
    assert_eq!(r.unwrap().unwrap().bytes, b"Paged".to_vec());
}

#[test]
fn gate_raises_only_html_flag_and_compiles_html_only() {
    let paged_runs = Cell::new(0u32);
    let html_runs = Cell::new(0u32);
    let mut g: ComputeGraph<String> = ComputeGraph::new(editing(), quiet_diagnostics());
    g.png.provide(png(TaskWhen::Never));
    g.html.provide(ExportHtmlTask { export: export(TaskWhen::OnType) });
    let any = ProjectCompilation::compute(
        &mut g,
        |v| {
            paged_runs.set(paged_runs.get() + 1);
            document(v)
        },
        |v| {
            html_runs.set(html_runs.get() + 1);
            document(v)
        },
    );
    assert!(any);
    assert_eq!(g.paged_flag.get(), Some(&false));
    assert_eq!(g.html_flag.get(), Some(&true));
    assert_eq!(paged_runs.get(), 0);
    assert_eq!(html_runs.get(), 1);
    assert!(g.document(DocVariant::Paged).is_none());
    assert_eq!(g.document(DocVariant::Html).map(|d| d.content.clone()), Some("Html".to_string()));
}

#[test]
fn html_export_runs_on_cached_html_document() {
    let compiled = Cell::new(0u32);
    let mut g: ComputeGraph<String> = ComputeGraph::new(editing(), quiet_diagnostics());
    g.html.provide(ExportHtmlTask { export: export(TaskWhen::OnType) });
    g.task.provide(ProjectTask::ExportHtml(ExportHtmlTask { export: export(TaskWhen::OnType) }));
    ProjectCompilation::compute(&mut g, |_| None, document);
    let r = ProjectExport::compute(
        &mut g,
        Some("/out/index.html".to_string()),
        |v| {
            compiled.set(compiled.get() + 1);
            document(v)
        },
        render_bytes,
    );
    assert_eq!(compiled.get(), 0);
    assert_eq!(r.unwrap().unwrap().bytes, b"Html!".to_vec());
}

#[test]
fn unresolved_destination_writes_nothing() {
    let rendered = Cell::new(0u32);
    let mut g: ComputeGraph<String> = ComputeGraph::new(explicit(), DiagnosticsTimings::new());
    g.task.provide(ProjectTask::ExportPng(png(TaskWhen::OnType)));
    let r = ProjectExport::compute(&mut g, None, document, |s, t, d| {
        rendered.set(rendered.get() + 1);
        render_bytes(s, t, d)
    });
    assert_eq!(r, Ok(None));
    assert_eq!(rendered.get(), 0);
    assert!(!g.paged_doc.is_set());
}

#[test]
fn gate_keeps_a_flag_set_before() {
    let mut g: ComputeGraph<String> = ComputeGraph::new(editing(), quiet_diagnostics());
    assert!(g.paged_flag.provide(true));
    let any = ProjectCompilation::preconfig_timings(&mut g);
    assert!(!any);
    assert_eq!(g.paged_flag.get(), Some(&true));
    assert_eq!(g.html_flag.get(), Some(&false));
}

#[test]
fn missing_task_is_an_error() {
    let mut g: ComputeGraph<String> = ComputeGraph::new(explicit(), DiagnosticsTimings::new());
    let r = ProjectExport::compute(&mut g, Some("/o".to_string()), document, render_bytes);
    assert_eq!(r, Err(ExportError::NotConfigured));
}

#[test]
fn preview_and_query_are_unsupported() {
    let mut g: ComputeGraph<String> = ComputeGraph::new(explicit(), DiagnosticsTimings::new());
    g.task.provide(ProjectTask::Preview(PreviewTask {
        id: Id("p".to_string()),
        document: Id("d".to_string()),
        when: TaskWhen::OnType,
    }));
    let r = ProjectExport::compute(&mut g, Some("/o".to_string()), document, render_bytes);
    assert_eq!(r, Err(ExportError::Unsupported));

    let mut g: ComputeGraph<String> = ComputeGraph::new(explicit(), DiagnosticsTimings::new());
    g.task.provide(ProjectTask::Query(QueryTask {
        export: export(TaskWhen::OnType),
        format: "json".to_string(),
        output_extension: "json".to_string(),
        selector: "<x>".to_string(),
        field: None,
        one: false,
    }));
    let r = ProjectExport::compute(&mut g, Some("/o".to_string()), document, render_bytes);
    assert_eq!(r, Err(ExportError::Unsupported));
}

#[test]
fn strategy_failure_is_reported() {
    let mut g: ComputeGraph<String> = ComputeGraph::new(explicit(), DiagnosticsTimings::new());
    g.task.provide(ProjectTask::ExportMarkdown(ExportMarkdownTask { export: export(TaskWhen::OnType) }));
    let r = ProjectExport::compute(&mut g, Some("/o.md".to_string()), document, |s, _, _| {
        match s {
            ExportStrategy::Markup(f) => Err(format!("failed to convert to {}", f.name())),
            _ => Ok(RawOutput::Bytes(vec![])),
        }
    });
    assert_eq!(r, Err(ExportError::Failed("failed to convert to Markdown".to_string())));
}

#[test]
fn failed_compilation_exports_nothing() {
    let rendered = Cell::new(0u32);
    let mut g: ComputeGraph<String> = ComputeGraph::new(explicit(), DiagnosticsTimings::new());
    g.task.provide(ProjectTask::ExportPng(png(TaskWhen::OnType)));
    let r = ProjectExport::compute(&mut g, Some("/o.png".to_string()), |_| None, |s, t, d| {
        rendered.set(rendered.get() + 1);
        render_bytes(s, t, d)
    });
    assert_eq!(r, Ok(None));
    assert_eq!(rendered.get(), 0);
    assert_eq!(g.paged_doc.get().map(|d| d.is_none()), Some(true));
}

#[test]
fn strategies_of_tasks() {
    let t = ProjectTask::ExportMarkdown(ExportMarkdownTask { export: export(TaskWhen::Never) });
    assert_eq!(strategy_of(&t), Some(ExportStrategy::Markup(MarkupFormat::Markdown)));
    assert_eq!(ExportStrategy::Html.variant(), DocVariant::Html);
    assert_eq!(ExportStrategy::Markup(MarkupFormat::LaTeX).variant(), DocVariant::Paged);
    assert_eq!(MarkupFormat::LaTeX.name(), "LaTeX");
}

#[test]
fn text_payload_is_utf8() {
    assert_eq!(payload(RawOutput::Text("é!".to_string())), vec![0xc3, 0xa9, b'!']);
    assert_eq!(payload(RawOutput::Bytes(vec![1, 2])), vec![1, 2]);
}
