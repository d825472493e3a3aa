use lsp_diagnostics::model::Diagnostic;
use lsp_diagnostics::model::DiagnosticRecord;
use lsp_diagnostics::model::DiagnosticSource;
use lsp_diagnostics::model::NumberOrString;
use lsp_diagnostics::model::Position;
use lsp_diagnostics::model::Range;
use lsp_diagnostics::model::VersionedDiagnostics;
use lsp_diagnostics::publisher::DiagnosticsPublisher;
use lsp_diagnostics::publisher::LspUrlMap;
use lsp_diagnostics::scheduler::Batch;
use lsp_diagnostics::scheduler::DiagnosticBatchNotificationParams;
use lsp_diagnostics::scheduler::Scheduler;
use lsp_diagnostics::scheduler::SchedulerAction;
use lsp_diagnostics::scheduler::SourceTask;
use lsp_diagnostics::scheduler::TaskAction;
use lsp_diagnostics::scheduler::TaskEvent;
use lsp_diagnostics::scheduler::DEBOUNCE_MILLIS;
use lsp_diagnostics::server::ChannelMessage;
use lsp_diagnostics::server::DiagnosticServerUpdateMessage;
use lsp_diagnostics::server::DiagnosticsServer;
use lsp_diagnostics::server::ServerError;
use lsp_diagnostics::snapshot::ConfigSnapshot;
use lsp_diagnostics::snapshot::Documents;
use lsp_diagnostics::snapshot::LintOptions;
use lsp_diagnostics::snapshot::StateSnapshot;
use lsp_diagnostics::snapshot::WorkspaceSettings;
use lsp_diagnostics::specifier::ModuleSpecifier;
use lsp_diagnostics::stores::DiagnosticsState;
use tokio_util::sync::CancellationToken;

fn spec(text: &str) -> ModuleSpecifier {
    ModuleSpecifier::parse(text).unwrap()
}

fn update_message() -> DiagnosticServerUpdateMessage {
    DiagnosticServerUpdateMessage {
        snapshot: StateSnapshot {
            documents: Documents { documents: vec![], redirects: vec![] },
            cache_metadata: vec![],
            maybe_import_map: None,
            npm: None,
            node_builtin_modules: vec![],
            sloppy_imports: vec![],
        },
        config: ConfigSnapshot { unscoped: WorkspaceSettings { enable: true, lint: true }, scoped: vec![] },
        lint_options: LintOptions { excluded: vec![] },
        url_map: LspUrlMap::new(),
    }
}

fn diag(message: &str) -> Diagnostic {
    Diagnostic {
        range: Range {
            start: Position { line: 0, character: 0 },
            end: Position { line: 0, character: 1 },
        },
        severity: None,
        code: Some(NumberOrString::Number(2322)),
        source: Some("deno-ts".to_string()),
        message: message.to_string(),
        related_information: None,
        tags: None,
        data: None,
    }
}

fn record(text: &str, version: Option<i32>, diagnostics: Vec<Diagnostic>) -> DiagnosticRecord {
    DiagnosticRecord { specifier: spec(text), versioned: VersionedDiagnostics { version, diagnostics } }
}

fn spawn(scheduler: &mut Scheduler, message: ChannelMessage) -> Batch {
    match scheduler.handle(message) {
        SchedulerAction::Spawn(batch) => batch,
        SchedulerAction::ClearPublisher => panic!("expected a batch"),
    }
}

#[test]
fn update_without_a_started_worker_fails() {
    let mut server = DiagnosticsServer::new(true);
    let err = server.update(update_message()).unwrap_err();
    assert_eq!(err, ServerError::NotStarted);
    assert_eq!(err.message(), "diagnostics server not started");
    assert_eq!(server.latest_batch_index(), Some(0));
    assert!(server.invalidate_all().is_none());
}

#[test]
fn updates_are_counted_once_started() {
    let mut server = DiagnosticsServer::new(true);
    let _scheduler = server.start();
    for expected in 1..4usize {
        match server.update(update_message()) {
            Ok(ChannelMessage::Update(update)) => assert_eq!(update.batch_index, Some(expected)),
            _ => panic!("expected an update"),
        }
        assert_eq!(server.latest_batch_index(), Some(expected));
    }
    assert!(matches!(server.invalidate_all(), Some(ChannelMessage::Clear)));
    let mut uncounted = DiagnosticsServer::new(false);
    let _scheduler = uncounted.start();
    match uncounted.update(update_message()) {
        Ok(ChannelMessage::Update(update)) => assert_eq!(update.batch_index, None),
        _ => panic!("expected an update"),
    }
    assert_eq!(uncounted.latest_batch_index(), None);
}

#[test]
fn server_answers_for_the_type_diagnostics() {
    let mut server = DiagnosticsServer::new(false);
    server.store_ts_diagnostics(&vec![
        record("file:///a.ts", Some(1), vec![diag("a")]),
        record("file:///b.ts", Some(1), vec![diag("b")]),
    ]);
    assert_eq!(server.get_ts_diagnostics(&spec("file:///a.ts"), Some(1)), vec![diag("a")]);
    assert_eq!(server.get_ts_diagnostics(&spec("file:///a.ts"), Some(2)), vec![]);
    server.invalidate(&[spec("file:///a.ts")]);
    assert_eq!(server.get_ts_diagnostics(&spec("file:///a.ts"), Some(1)), vec![]);
    assert_eq!(server.get_ts_diagnostics(&spec("file:///b.ts"), Some(1)), vec![diag("b")]);
    server.invalidate_all();
    assert_eq!(server.get_ts_diagnostics(&spec("file:///b.ts"), Some(1)), vec![]);
}

#[test]
fn only_the_type_check_task_debounces() {
    assert_eq!(DEBOUNCE_MILLIS, 200);
    let mut scheduler = Scheduler::new();
    let batch = spawn(
        &mut scheduler,
        ChannelMessage::Update(lsp_diagnostics::server::ChannelUpdateMessage {
            message: update_message(),
            batch_index: None,
        }),
    );
    assert_eq!(batch.ts_action, TaskAction::Debounce { millis: 200 });
    assert_eq!(batch.deps_action, TaskAction::Generate);
    assert_eq!(batch.lint_action, TaskAction::Generate);
    let later = spawn(
        &mut scheduler,
        ChannelMessage::Update(lsp_diagnostics::server::ChannelUpdateMessage {
            message: update_message(),
            batch_index: None,
        }),
    );
    assert_eq!(later.ts_action, TaskAction::AwaitPrevious);
    assert_eq!(later.deps_action, TaskAction::AwaitPrevious);
    assert_eq!(later.lint_action, TaskAction::AwaitPrevious);
    let mut ts = later.ts;
    assert_eq!(ts.step(TaskEvent::PreviousFinished), TaskAction::Debounce { millis: 200 });
    let mut lint = later.lint;
    assert_eq!(lint.step(TaskEvent::PreviousFinished), TaskAction::Generate);
}

#[test]
fn a_task_runs_to_its_notification() {
    let (mut task, first) =
        SourceTask::new(DiagnosticSource::Deno, Some(7), true, CancellationToken::new());
    assert_eq!(first, TaskAction::AwaitPrevious);
    assert_eq!(task.step(TaskEvent::Notified), TaskAction::Ignore);
    assert_eq!(task.step(TaskEvent::DebounceElapsed), TaskAction::Ignore);
    assert_eq!(task.step(TaskEvent::PreviousFinished), TaskAction::Generate);
    assert_eq!(task.step(TaskEvent::PreviousFinished), TaskAction::Ignore);
    assert_eq!(task.step(TaskEvent::Generated { cancelled: false }), TaskAction::Publish);
    assert_eq!(
        task.step(TaskEvent::Published { messages_len: 3 }),
        TaskAction::Notify(DiagnosticBatchNotificationParams { batch_index: 7, messages_len: 3 })
    );
    assert_eq!(task.step(TaskEvent::Published { messages_len: 9 }), TaskAction::Ignore);
    assert_eq!(task.step(TaskEvent::Notified), TaskAction::Finish);
    assert_eq!(task.step(TaskEvent::Notified), TaskAction::Ignore);
}

#[test]
fn a_task_without_batch_index_finishes_silently() {
    let (mut task, first) = SourceTask::new(DiagnosticSource::Ts, None, false, CancellationToken::new());
    assert_eq!(first, TaskAction::Debounce { millis: 200 });
    assert_eq!(task.step(TaskEvent::DebounceElapsed), TaskAction::Generate);
    assert_eq!(task.step(TaskEvent::Generated { cancelled: true }), TaskAction::Finish);
    let (mut task, _) = SourceTask::new(DiagnosticSource::Lint, None, false, CancellationToken::new());
    assert_eq!(task.step(TaskEvent::Generated { cancelled: false }), TaskAction::Publish);
    assert_eq!(task.step(TaskEvent::Published { messages_len: 1 }), TaskAction::Finish);
}

#[test]
fn a_cancelled_generation_notifies_no_messages() {
    let (mut task, _) = SourceTask::new(DiagnosticSource::Lint, Some(2), false, CancellationToken::new());
    assert_eq!(
        task.step(TaskEvent::Generated { cancelled: true }),
        TaskAction::Notify(DiagnosticBatchNotificationParams { batch_index: 2, messages_len: 0 })
    );
    assert_eq!(task.step(TaskEvent::Notified), TaskAction::Finish);
}

#[test]
fn a_second_update_cancels_the_first_type_check_task() {
    let mut server = DiagnosticsServer::new(true);
    let mut scheduler = server.start();
    let first = spawn(&mut scheduler, server.update(update_message()).unwrap());
    assert_eq!(first.ts_action, TaskAction::Debounce { millis: 200 });
    assert!(!first.ts.is_cancelled());
    let second = spawn(&mut scheduler, server.update(update_message()).unwrap());
    assert!(first.ts.is_cancelled());
    assert!(first.deps.is_cancelled());
    assert!(first.lint.is_cancelled());
    assert!(!second.ts.is_cancelled());
    let mut ts = first.ts;
    let mut published = false;
    let mut action = ts.step(TaskEvent::DebounceCancelled);
    let mut notified = vec![];
    loop {
        match action {
            TaskAction::Notify(params) => {
                notified.push(params);
                action = ts.step(TaskEvent::Notified);
            }
            TaskAction::Publish => {
                published = true;
                action = ts.step(TaskEvent::Published { messages_len: 1 });
            }
            TaskAction::Finish => break,
            _ => panic!("unexpected action"),
        }
    }
    assert!(!published);
    assert_eq!(notified, vec![DiagnosticBatchNotificationParams { batch_index: 1, messages_len: 0 }]);
    let mut ts = second.ts;
    assert_eq!(second.ts_action, TaskAction::AwaitPrevious);
    assert_eq!(ts.step(TaskEvent::PreviousFinished), TaskAction::Debounce { millis: 200 });
    assert_eq!(ts.step(TaskEvent::DebounceElapsed), TaskAction::Generate);
    assert_eq!(ts.step(TaskEvent::Generated { cancelled: ts.is_cancelled() }), TaskAction::Publish);
}

#[test]
fn a_clear_cancels_the_batch_at_work() {
    let mut server = DiagnosticsServer::new(false);
    let mut scheduler = server.start();
    let batch = spawn(&mut scheduler, server.update(update_message()).unwrap());
    assert!(!batch.lint.is_cancelled());
    let clear = server.invalidate_all().unwrap();
    assert!(matches!(scheduler.handle(clear), SchedulerAction::ClearPublisher));
    assert!(batch.lint.is_cancelled());
    assert!(batch.lint.token().is_cancelled());
    let after = spawn(&mut scheduler, server.update(update_message()).unwrap());
    assert_eq!(after.lint_action, TaskAction::AwaitPrevious);
    assert!(!after.lint.is_cancelled());
}

#[test]
fn the_type_check_task_stores_before_it_publishes() {
    let mut server = DiagnosticsServer::new(false);
    let mut publisher = DiagnosticsPublisher::new();
    let mut state = DiagnosticsState::default();
    let map = LspUrlMap::new();
    let (ts, _) = SourceTask::new(DiagnosticSource::Ts, None, false, CancellationToken::new());
    let sent = ts.publish(
        &mut server,
        &mut publisher,
        &mut state,
        vec![record("file:///a.ts", Some(1), vec![diag("a")])],
        &map,
    );
    assert_eq!(sent.len(), 1);
    assert_eq!(sent[0].diagnostics, vec![diag("a")]);
    assert_eq!(server.get_ts_diagnostics(&spec("file:///a.ts"), Some(1)), vec![diag("a")]);
    let (lint, _) = SourceTask::new(DiagnosticSource::Lint, None, false, CancellationToken::new());
    let sent = lint.publish(
        &mut server,
        &mut publisher,
        &mut state,
        vec![record("file:///b.ts", Some(1), vec![diag("b")])],
        &map,
    );
    assert_eq!(sent.len(), 1);
    assert_eq!(server.get_ts_diagnostics(&spec("file:///b.ts"), Some(1)), vec![]);
    assert_eq!(server.get_ts_diagnostics(&spec("file:///a.ts"), Some(1)), vec![diag("a")]);
}

#[test]
fn a_cancelled_task_publishes_and_stores_nothing() {
    let mut server = DiagnosticsServer::new(false);
    let mut publisher = DiagnosticsPublisher::new();
    let mut state = DiagnosticsState::default();
    let map = LspUrlMap::new();
    let token = CancellationToken::new();
    let (ts, _) = SourceTask::new(DiagnosticSource::Ts, None, false, token.clone());
    token.cancel();
    let sent = ts.publish(
        &mut server,
        &mut publisher,
        &mut state,
        vec![record("file:///a.ts", Some(1), vec![diag("a")])],
        &map,
    );
    assert_eq!(sent, vec![]);
    assert_eq!(server.get_ts_diagnostics(&spec("file:///a.ts"), Some(1)), vec![]);
    assert_eq!(state.version(&spec("file:///a.ts")), None);
}

#[test]
fn the_answer_of_the_token_decides_whether_a_task_publishes() {
    let mut server = DiagnosticsServer::new(false);
    let mut publisher = DiagnosticsPublisher::new();
    let mut state = DiagnosticsState::default();
    let map = LspUrlMap::new();
    let token = CancellationToken::new();
    let (ts, _) = SourceTask::new(DiagnosticSource::Ts, None, false, token.clone());
    assert!(!ts.token().is_cancelled());
    let sent = ts.publish_unless(
        true,
        &mut server,
        &mut publisher,
        &mut state,
        vec![record("file:///a.ts", Some(1), vec![diag("a")])],
        &map,
    );
    assert_eq!(sent, vec![]);
    assert_eq!(server.get_ts_diagnostics(&spec("file:///a.ts"), Some(1)), vec![]);
    assert_eq!(state.version(&spec("file:///a.ts")), None);
    let sent = ts.publish_unless(
        false,
        &mut server,
        &mut publisher,
        &mut state,
        vec![record("file:///a.ts", Some(1), vec![diag("a")])],
        &map,
    );
    assert_eq!(sent.len(), 1);
    assert_eq!(sent[0].uri, "file:///a.ts");
    assert_eq!(sent[0].diagnostics, vec![diag("a")]);
    assert_eq!(sent[0].version, Some(1));
    assert_eq!(server.get_ts_diagnostics(&spec("file:///a.ts"), Some(1)), vec![diag("a")]);
    assert_eq!(state.version(&spec("file:///a.ts")), Some(1));
    token.cancel();
    assert!(ts.token().is_cancelled());
}

#[test]
fn a_failed_generation_publishes_nothing_and_still_notifies() {
    let (mut task, first) = SourceTask::new(DiagnosticSource::Ts, Some(5), false, CancellationToken::new());
    assert_eq!(first, TaskAction::Debounce { millis: 200 });
    assert_eq!(task.step(TaskEvent::GenerationFailed), TaskAction::Ignore);
    assert_eq!(task.step(TaskEvent::DebounceElapsed), TaskAction::Generate);
    assert_eq!(
        task.step(TaskEvent::GenerationFailed),
        TaskAction::Notify(DiagnosticBatchNotificationParams { batch_index: 5, messages_len: 0 })
    );
    assert_eq!(task.step(TaskEvent::Published { messages_len: 4 }), TaskAction::Ignore);
    assert_eq!(task.step(TaskEvent::Notified), TaskAction::Finish);
    let (mut silent, _) = SourceTask::new(DiagnosticSource::Lint, None, false, CancellationToken::new());
    assert_eq!(silent.step(TaskEvent::GenerationFailed), TaskAction::Finish);
}

#[test]
fn a_failed_type_check_leaves_what_was_published() {
    let mut server = DiagnosticsServer::new(true);
    let mut publisher = DiagnosticsPublisher::new();
    let mut state = DiagnosticsState::default();
    let map = LspUrlMap::new();
    let mut scheduler = server.start();
    let first = spawn(&mut scheduler, server.update(update_message()).unwrap());
    let mut ts = first.ts;
    assert_eq!(ts.step(TaskEvent::DebounceElapsed), TaskAction::Generate);
    assert_eq!(ts.step(TaskEvent::Generated { cancelled: false }), TaskAction::Publish);
    let sent = ts.publish(
        &mut server,
        &mut publisher,
        &mut state,
        vec![record("file:///a.ts", Some(1), vec![diag("kept")])],
        &map,
    );
    assert_eq!(sent.len(), 1);
    let second = spawn(&mut scheduler, server.update(update_message()).unwrap());
    let mut ts = second.ts;
    assert_eq!(ts.step(TaskEvent::PreviousFinished), TaskAction::Debounce { millis: 200 });
    assert_eq!(ts.step(TaskEvent::DebounceElapsed), TaskAction::Generate);
    assert_eq!(
        ts.step(TaskEvent::GenerationFailed),
        TaskAction::Notify(DiagnosticBatchNotificationParams { batch_index: 2, messages_len: 0 })
    );
    assert_eq!(ts.step(TaskEvent::Notified), TaskAction::Finish);
    assert_eq!(server.get_ts_diagnostics(&spec("file:///a.ts"), Some(1)), vec![diag("kept")]);
    let sent = publisher.publish(
        &mut state,
        DiagnosticSource::Lint,
        vec![record("file:///a.ts", Some(1), vec![])],
        &map,
        None,
    );
    assert_eq!(sent.len(), 1);
    assert_eq!(sent[0].diagnostics, vec![diag("kept")]);
}

#[test]
fn the_tasks_of_an_update_share_the_token_of_their_batch() {
    let mut server = DiagnosticsServer::new(false);
    let mut scheduler = server.start();
    let batch = spawn(&mut scheduler, server.update(update_message()).unwrap());
    assert!(!batch.deps.is_cancelled());
    batch.ts.token().cancel();
    assert!(batch.ts.is_cancelled());
    assert!(batch.deps.is_cancelled());
    assert!(batch.lint.is_cancelled());
    let next = spawn(&mut scheduler, server.update(update_message()).unwrap());
    assert!(!next.ts.is_cancelled());
    assert!(!next.deps.is_cancelled());
    assert!(!next.lint.is_cancelled());
}
