use tinymist_export::task::TaskWhen;
use tinymist_export::timing::{Document, ExportSignal, ExportTimings};

fn editing() -> ExportSignal {
    ExportSignal { explicit: false, by_fs_events: false }
}

fn explicit() -> ExportSignal {
    ExportSignal { explicit: true, by_fs_events: false }
}

fn saved() -> ExportSignal {
    ExportSignal { explicit: false, by_fs_events: true }
}

fn doc(title: Option<&str>) -> Document<()> {
    Document { title: title.map(|t| t.to_string()), content: () }
}

#[test]
fn no_policy_always_runs() {
    let d = doc(None);
    for s in [editing(), explicit(), saved()] {
        assert!(ExportTimings::needs_run::<()>(&s, None, None));
        assert!(ExportTimings::needs_run(&s, None, Some(&d)));
    }
}

#[test]
fn undecided_policy_runs() {
    // a title is asked of a document that is absent
    assert_eq!(
        ExportTimings::evaluate::<()>(&saved(), &TaskWhen::OnDocumentHasTitle, None),
        None
    );
    assert!(ExportTimings::needs_run::<()>(&saved(), Some(&TaskWhen::OnDocumentHasTitle), None));
}

#[test]
fn never_is_false_while_editing_and_true_on_command() {
    let d = doc(None);
    assert!(!ExportTimings::needs_run(&editing(), Some(&TaskWhen::Never), Some(&d)));
    assert!(ExportTimings::needs_run(&explicit(), Some(&TaskWhen::Never), Some(&d)));
}

#[test]
fn on_type_runs_with_fresh_document() {
    let d = doc(Some("t"));
    assert!(ExportTimings::needs_run(&editing(), Some(&TaskWhen::OnType), Some(&d)));
    assert!(ExportTimings::needs_run(&explicit(), Some(&TaskWhen::OnType), Some(&d)));
}

#[test]
fn script_runs_only_on_command() {
    assert!(!ExportTimings::needs_run::<()>(&editing(), Some(&TaskWhen::Script), None));
    assert!(!ExportTimings::needs_run::<()>(&saved(), Some(&TaskWhen::Script), None));
    assert!(ExportTimings::needs_run::<()>(&explicit(), Some(&TaskWhen::Script), None));
}

#[test]
fn on_save_runs_on_save_or_command() {
    assert!(!ExportTimings::needs_run::<()>(&editing(), Some(&TaskWhen::OnSave), None));
    assert!(ExportTimings::needs_run::<()>(&saved(), Some(&TaskWhen::OnSave), None));
    assert!(ExportTimings::needs_run::<()>(&explicit(), Some(&TaskWhen::OnSave), None));
}

#[test]
fn on_title_reads_the_document() {
    let titled = doc(Some("Report"));
    let untitled = doc(None);
    let w = TaskWhen::OnDocumentHasTitle;
    assert!(ExportTimings::needs_run(&saved(), Some(&w), Some(&titled)));
    assert!(!ExportTimings::needs_run(&saved(), Some(&w), Some(&untitled)));
    assert!(!ExportTimings::needs_run(&editing(), Some(&w), Some(&titled)));
}
