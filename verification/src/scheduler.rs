//! The worker's decisions: what becomes of each message of the server, and
//! the steps by which each source's task of a batch runs to its end.

use vstd::prelude::*;
use tokio_util::sync::CancellationToken;
use crate::model::DiagnosticRecord;
use crate::model::DiagnosticSource;
use crate::publisher::after_records;
use crate::publisher::published_at;
use crate::publisher::DiagnosticsPublisher;
use crate::publisher::LspUrlMap;
use crate::publisher::MessageView;
use crate::publisher::Published;
use crate::publisher::PublishDiagnosticsParams;
use crate::server::DiagnosticsServer;
use crate::server::ServerView;
use crate::stores::ts_batch;
use crate::stores::DiagnosticsState;
use crate::server::ChannelMessage;
use crate::server::ChannelUpdateMessage;
use crate::server::DiagnosticServerUpdateMessage;

verus! {

/// The time, in milliseconds, that the type-check task waits before it
/// asks the type checker, so that a further keystroke can cancel it first.
pub const DEBOUNCE_MILLIS: u64 = 200;

/// The notification that a task of a batch has run to its end.
#[derive(Clone, Copy, Debug, PartialEq, Eq, Structural)]
pub struct DiagnosticBatchNotificationParams {
    pub batch_index: usize,
    pub messages_len: usize,
}

/// Where a task stands.
#[derive(Clone, Copy, Debug, PartialEq, Eq, Structural)]
pub enum TaskPhase {
    /// It waits for the task of the same source of the update before.
    AwaitingPrevious,
    /// It waits out the debounce time.
    Debouncing,
    /// Its diagnostics are being generated.
    Generating,
    /// Its diagnostics are being published.
    Publishing,
    /// Its notification is being sent.
    Notifying,
    /// It has run to its end.
    Finished,
}

/// What happened to a task since its last step.
#[derive(Clone, Copy, Debug, PartialEq, Eq, Structural)]
pub enum TaskEvent {
    /// The task of the update before has run to its end.
    PreviousFinished,
    /// The debounce time has passed.
    DebounceElapsed,
    /// The batch was cancelled during the debounce time.
    DebounceCancelled,
    /// The diagnostics were generated; `cancelled` says whether the batch
    /// was cancelled by then.
    Generated { cancelled: bool },
    /// The diagnostics could not be generated.
    GenerationFailed,
    /// The diagnostics were published in `messages_len` messages.
    Published { messages_len: usize },
    /// The notification was sent.
    Notified,
}

/// What a task is to do next.
#[derive(Clone, Copy, Debug, PartialEq, Eq, Structural)]
pub enum TaskAction {
    /// Wait for the task of the same source of the update before.
    AwaitPrevious,
    /// Wait for the given time, or until the batch is cancelled.
    Debounce { millis: u64 },
    /// Generate the diagnostics.
    Generate,
    /// Publish the diagnostics, unless the batch is cancelled by now.
    Publish,
    /// Send the notification.
    Notify(DiagnosticBatchNotificationParams),
    /// Nothing more: the task has run to its end.
    Finish,
    /// Nothing: the event is none that the task waits for.
    Ignore,
}

/// What a task is made of, apart from its token.
#[derive(Clone, Copy, Debug, PartialEq, Eq, Structural)]
pub struct TaskState {
    pub source: DiagnosticSource,
    pub batch_index: Option<usize>,
    pub phase: TaskPhase,
}

/// The end of a task that has published `messages_len` messages: the
/// notification where batches are counted, else nothing more.
pub open spec fn conclude(state: TaskState, messages_len: usize) -> (TaskState, TaskAction) {
    match state.batch_index {
        Some(batch_index) => (
            TaskState { phase: TaskPhase::Notifying, ..state },
            TaskAction::Notify(DiagnosticBatchNotificationParams { batch_index, messages_len }),
        ),
        None => (TaskState { phase: TaskPhase::Finished, ..state }, TaskAction::Finish),
    }
}

/// What a task does once the task before it is out of the way: the
/// type-check task waits out the debounce time, the others generate at
/// once.
pub open spec fn begin(state: TaskState) -> (TaskState, TaskAction) {
    if state.source == DiagnosticSource::Ts {
        (
            TaskState { phase: TaskPhase::Debouncing, ..state },
            TaskAction::Debounce { millis: DEBOUNCE_MILLIS },
        )
    } else {
        (TaskState { phase: TaskPhase::Generating, ..state }, TaskAction::Generate)
    }
}

/// The step that a task takes on an event: its next state and what it is
/// to do. A batch that is cancelled during the debounce time or while the
/// diagnostics are generated publishes nothing, and concludes with no
/// messages. So does a task whose diagnostics could not be generated: what
/// was published for its source before stays as it is.
pub open spec fn transition(state: TaskState, event: TaskEvent) -> (TaskState, TaskAction) {
    match (state.phase, event) {
        (TaskPhase::AwaitingPrevious, TaskEvent::PreviousFinished) => begin(state),
        (TaskPhase::Debouncing, TaskEvent::DebounceElapsed) => (
            TaskState { phase: TaskPhase::Generating, ..state },
            TaskAction::Generate,
        ),
        (TaskPhase::Debouncing, TaskEvent::DebounceCancelled) => conclude(state, 0),
        (TaskPhase::Generating, TaskEvent::Generated { cancelled }) => if cancelled {
            conclude(state, 0)
        } else {
            (TaskState { phase: TaskPhase::Publishing, ..state }, TaskAction::Publish)
        },
        (TaskPhase::Generating, TaskEvent::GenerationFailed) => conclude(state, 0),
        (TaskPhase::Publishing, TaskEvent::Published { messages_len }) => conclude(
            state,
            messages_len,
        ),
        (TaskPhase::Notifying, TaskEvent::Notified) => (
            TaskState { phase: TaskPhase::Finished, ..state },
            TaskAction::Finish,
        ),
        _ => (state, TaskAction::Ignore),
    }
}

/// The first step of a task: it waits for the task before it where there
/// is one, else it begins.
pub open spec fn first_step(
    source: DiagnosticSource,
    batch_index: Option<usize>,
    has_previous: bool,
) -> (TaskState, TaskAction) {
    let state = TaskState { source, batch_index, phase: TaskPhase::AwaitingPrevious };
    if has_previous {
        (state, TaskAction::AwaitPrevious)
    } else {
        begin(state)
    }
}

/// A task on which batches are counted reaches its end through its
/// notification alone.
pub proof fn lemma_task_ends_with_its_notification(state: TaskState, event: TaskEvent)
    requires
        state.batch_index is Some,
        state.phase != TaskPhase::Finished,
        transition(state, event).0.phase == TaskPhase::Finished,
    ensures
        state.phase == TaskPhase::Notifying,
        event == TaskEvent::Notified,
        transition(state, event).1 == TaskAction::Finish,
{
}

/// A task whose batch is cancelled before it publishes never publishes, and
/// concludes with no messages: with the notification of no messages where
/// batches are counted.
pub proof fn lemma_cancelled_task_reports_no_messages(state: TaskState, event: TaskEvent)
    requires
        (state.phase == TaskPhase::Debouncing && event == TaskEvent::DebounceCancelled) || (
        state.phase == TaskPhase::Generating && event == (TaskEvent::Generated {
            cancelled: true,
        })),
    ensures
        transition(state, event) == conclude(state, 0),
        transition(state, event).1 != TaskAction::Publish,
        state.batch_index is Some ==> transition(state, event).1 == TaskAction::Notify(
            DiagnosticBatchNotificationParams {
                batch_index: state.batch_index->0,
                messages_len: 0,
            },
        ),
{
}

/// A task whose diagnostics could not be generated never publishes, so that
/// what was published for its source before stays; it concludes with no
/// messages, with the notification of no messages where batches are
/// counted.
pub proof fn lemma_failed_task_publishes_nothing(state: TaskState)
    requires
        state.phase == TaskPhase::Generating,
    ensures
        transition(state, TaskEvent::GenerationFailed) == conclude(state, 0),
        transition(state, TaskEvent::GenerationFailed).1 != TaskAction::Publish,
        transition(state, TaskEvent::GenerationFailed).0.phase != TaskPhase::Publishing,
        state.batch_index is Some ==> transition(state, TaskEvent::GenerationFailed).1
            == TaskAction::Notify(
            DiagnosticBatchNotificationParams {
                batch_index: state.batch_index->0,
                messages_len: 0,
            },
        ),
{
}

/// A task is told to publish only once its diagnostics were generated and
/// the batch was not cancelled by then.
pub proof fn lemma_publish_follows_generation(state: TaskState, event: TaskEvent)
    requires
        transition(state, event).1 == TaskAction::Publish,
    ensures
        state.phase == TaskPhase::Generating,
        event == (TaskEvent::Generated { cancelled: false }),
{
}

/// A task waits out the debounce time only where it works for the type
/// checker, and then for 200 milliseconds.
pub proof fn lemma_only_type_checks_debounce(state: TaskState, event: TaskEvent)
    requires
        transition(state, event).1 is Debounce,
    ensures
        state.source == DiagnosticSource::Ts,
        transition(state, event).1 == (TaskAction::Debounce { millis: 200 }),
{
}

/// The task of one source for one update.
#[derive(Debug)]
pub struct SourceTask {
    state: TaskState,
    token: CancellationToken,
}

impl View for SourceTask {
    type V = TaskState;

    closed spec fn view(&self) -> TaskState {
        self.state
    }
}

impl SourceTask {
    /// A task of `source` under `token`, with what it is to do first.
    pub fn new(
        source: DiagnosticSource,
        batch_index: Option<usize>,
        has_previous: bool,
        token: CancellationToken,
    ) -> (started: (SourceTask, TaskAction))
        ensures
            (started.0@, started.1) == first_step(source, batch_index, has_previous),
            started.0.held_token() == token,
    {
        let state = TaskState { source, batch_index, phase: TaskPhase::AwaitingPrevious };
        let mut task = SourceTask { state, token };
        let action = if has_previous {
            TaskAction::AwaitPrevious
        } else {
            task.begin()
        };
        (task, action)
    }

    fn begin(&mut self) -> (action: TaskAction)
        ensures
            (final(self)@, action) == begin(old(self)@),
            final(self).held_token() == old(self).held_token(),
    {
        match self.state.source {
            DiagnosticSource::Ts => {
                self.state.phase = TaskPhase::Debouncing;
                TaskAction::Debounce { millis: DEBOUNCE_MILLIS }
            },
            _ => {
                self.state.phase = TaskPhase::Generating;
                TaskAction::Generate
            },
        }
    }

    fn conclude(&mut self, messages_len: usize) -> (action: TaskAction)
        ensures
            (final(self)@, action) == conclude(old(self)@, messages_len),
            final(self).held_token() == old(self).held_token(),
    {
        match self.state.batch_index {
            Some(batch_index) => {
                self.state.phase = TaskPhase::Notifying;
                TaskAction::Notify(DiagnosticBatchNotificationParams { batch_index, messages_len })
            },
            None => {
                self.state.phase = TaskPhase::Finished;
                TaskAction::Finish
            },
        }
    }

    /// Takes the step that `event` calls for and says what the task is to
    /// do next.
    pub fn step(&mut self, event: TaskEvent) -> (action: TaskAction)
        ensures
            (final(self)@, action) == transition(old(self)@, event),
            final(self).held_token() == old(self).held_token(),
    {
        match (self.state.phase, event) {
            (TaskPhase::AwaitingPrevious, TaskEvent::PreviousFinished) => self.begin(),
            (TaskPhase::Debouncing, TaskEvent::DebounceElapsed) => {
                self.state.phase = TaskPhase::Generating;
                TaskAction::Generate
            },
            (TaskPhase::Debouncing, TaskEvent::DebounceCancelled) => self.conclude(0),
            (TaskPhase::Generating, TaskEvent::Generated { cancelled }) => {
                if cancelled {
                    self.conclude(0)
                } else {
                    self.state.phase = TaskPhase::Publishing;
                    TaskAction::Publish
                }
            },
            (TaskPhase::Generating, TaskEvent::GenerationFailed) => self.conclude(0),
            (TaskPhase::Publishing, TaskEvent::Published { messages_len }) => self.conclude(
                messages_len,
            ),
            (TaskPhase::Notifying, TaskEvent::Notified) => {
                self.state.phase = TaskPhase::Finished;
                TaskAction::Finish
            },
            _ => TaskAction::Ignore,
        }
    }

    /// Publishes what was generated for the task, unless the batch is
    /// cancelled by now: the type-check task first replaces the type
    /// diagnostics that the server answers for; then the records are
    /// published under the task's token. The result holds what the editor
    /// is to be sent; its length is the number of messages that the task
    /// reports.
    pub fn publish(
        &self,
        server: &mut DiagnosticsServer,
        publisher: &mut DiagnosticsPublisher,
        state: &mut DiagnosticsState,
        diagnostics: Vec<DiagnosticRecord>,
        url_map: &LspUrlMap,
    ) -> (messages: Vec<PublishDiagnosticsParams>)
        requires
            old(server).wf(),
            old(publisher).wf(),
            old(state).wf(),
            url_map.wf(),
        ensures
            final(server).wf(),
            final(publisher).wf(),
            final(state).wf(),
            ({
                &&& final(server)@ == old(server)@
                &&& final(publisher)@ == old(publisher)@
                &&& final(state)@ == old(state)@
                &&& messages.deep_view() == Seq::<MessageView>::empty()
            }) || ({
                &&& final(server)@ == if self@.source == DiagnosticSource::Ts {
                    ServerView { ts_diagnostics: ts_batch(diagnostics.deep_view()), ..old(server)@ }
                } else {
                    old(server)@
                }
                &&& exists|published: int, swept: int|
                    0 <= published <= diagnostics.len() && 0 <= swept <= after_records(
                        Published {
                            entries: old(publisher)@,
                            state: old(state)@,
                            messages: Seq::empty(),
                        },
                        self@.source,
                        url_map@,
                        diagnostics.deep_view(),
                    ).entries.len() && (Published {
                        entries: final(publisher)@,
                        state: final(state)@,
                        messages: messages.deep_view(),
                    }) == #[trigger] published_at(
                        Published {
                            entries: old(publisher)@,
                            state: old(state)@,
                            messages: Seq::empty(),
                        },
                        self@.source,
                        url_map@,
                        diagnostics.deep_view(),
                        published,
                        swept,
                    )
            }),
    {
        let cancelled = self.token.is_cancelled();
        self.publish_unless(cancelled, server, publisher, state, diagnostics, url_map)
    }

    /// Publishes what was generated for the task, given whether the task's
    /// token said that the batch is cancelled. Where it did, nothing is
    /// changed and nothing is to be sent. Where it did not, the type-check
    /// task first replaces the type diagnostics that the server answers
    /// for; then the records are published under the task's token, which is
    /// asked again before each record and each withdrawal.
    pub fn publish_unless(
        &self,
        cancelled: bool,
        server: &mut DiagnosticsServer,
        publisher: &mut DiagnosticsPublisher,
        state: &mut DiagnosticsState,
        diagnostics: Vec<DiagnosticRecord>,
        url_map: &LspUrlMap,
    ) -> (messages: Vec<PublishDiagnosticsParams>)
        requires
            old(server).wf(),
            old(publisher).wf(),
            old(state).wf(),
            url_map.wf(),
        ensures
            final(server).wf(),
            final(publisher).wf(),
            final(state).wf(),
            cancelled ==> {
                &&& final(server)@ == old(server)@
                &&& final(publisher)@ == old(publisher)@
                &&& final(state)@ == old(state)@
                &&& messages.deep_view() == Seq::<MessageView>::empty()
            },
            !cancelled ==> {
                &&& final(server)@ == if self@.source == DiagnosticSource::Ts {
                    ServerView { ts_diagnostics: ts_batch(diagnostics.deep_view()), ..old(server)@ }
                } else {
                    old(server)@
                }
                &&& exists|published: int, swept: int|
                    0 <= published <= diagnostics.len() && 0 <= swept <= after_records(
                        Published {
                            entries: old(publisher)@,
                            state: old(state)@,
                            messages: Seq::empty(),
                        },
                        self@.source,
                        url_map@,
                        diagnostics.deep_view(),
                    ).entries.len() && (Published {
                        entries: final(publisher)@,
                        state: final(state)@,
                        messages: messages.deep_view(),
                    }) == #[trigger] published_at(
                        Published {
                            entries: old(publisher)@,
                            state: old(state)@,
                            messages: Seq::empty(),
                        },
                        self@.source,
                        url_map@,
                        diagnostics.deep_view(),
                        published,
                        swept,
                    )
            },
    {
        if cancelled {
            let messages: Vec<PublishDiagnosticsParams> = Vec::new();
            return messages;
        }
        match self.state.source {
            DiagnosticSource::Ts => {
                server.store_ts_diagnostics(&diagnostics);
            },
            _ => {},
        }
        publisher.publish(state, self.state.source, diagnostics, url_map, Some(&self.token))
    }

    /// The source that the task works for.
    pub fn source(&self) -> (source: DiagnosticSource)
        ensures
            source == self@.source,
    {
        self.state.source
    }

    /// The token under which the task runs.
    pub fn token(&self) -> (token: &CancellationToken)
        ensures
            *token == self.held_token(),
    {
        &self.token
    }

    /// The token that the task was made with.
    pub closed spec fn held_token(&self) -> CancellationToken {
        self.token
    }

    /// Whether the task's batch is cancelled by now.
    pub fn is_cancelled(&self) -> (cancelled: bool) {
        self.token.is_cancelled()
    }
}

/// The tasks of one update and what they work on.
#[derive(Debug)]
pub struct Batch {
    pub message: DiagnosticServerUpdateMessage,
    pub ts: SourceTask,
    pub ts_action: TaskAction,
    pub deps: SourceTask,
    pub deps_action: TaskAction,
    pub lint: SourceTask,
    pub lint_action: TaskAction,
}

/// What the worker is to do with a message of the server.
#[derive(Debug)]
pub enum SchedulerAction {
    /// Run the three tasks of an update, each behind the task of its
    /// source of the update before.
    Spawn(Batch),
    /// Have the publisher forget every document.
    ClearPublisher,
}

/// The worker's own state: the token of the batch at work, and whether an
/// update came before.
#[derive(Debug)]
pub struct Scheduler {
    token: CancellationToken,
    has_previous: bool,
}

impl View for Scheduler {
    type V = bool;

    closed spec fn view(&self) -> bool {
        self.has_previous
    }
}

impl Scheduler {
    /// The token of the batch at work.
    pub closed spec fn current_token(&self) -> CancellationToken {
        self.token
    }
}

impl Scheduler {
    /// The worker's state before any message.
    pub fn new() -> (scheduler: Self)
        ensures
            !scheduler@,
    {
        Scheduler { token: CancellationToken::new(), has_previous: false }
    }

    /// Decides what becomes of a message. Either kind of message cancels the
    /// batch at work and opens a new one. An update has three tasks spawned
    /// under the new batch's token, each with its first step taken; a clear
    /// has the publisher cleared.
    pub fn handle(&mut self, message: ChannelMessage) -> (action: SchedulerAction)
        ensures
            match message {
                ChannelMessage::Update(update) => {
                    &&& final(self)@
                    &&& action is Spawn
                    &&& action->Spawn_0.ts.held_token() == final(self).current_token()
                    &&& action->Spawn_0.deps.held_token() == final(self).current_token()
                    &&& action->Spawn_0.lint.held_token() == final(self).current_token()
                    &&& action->Spawn_0.message == update.message
                    &&& (action->Spawn_0.ts@, action->Spawn_0.ts_action) == first_step(
                        DiagnosticSource::Ts,
                        update.batch_index,
                        old(self)@,
                    )
                    &&& (action->Spawn_0.deps@, action->Spawn_0.deps_action) == first_step(
                        DiagnosticSource::Deno,
                        update.batch_index,
                        old(self)@,
                    )
                    &&& (action->Spawn_0.lint@, action->Spawn_0.lint_action) == first_step(
                        DiagnosticSource::Lint,
                        update.batch_index,
                        old(self)@,
                    )
                },
                ChannelMessage::Clear => action is ClearPublisher && final(self)@ == old(self)@,
            },
    {
        self.token.cancel();
        self.token = CancellationToken::new();
        match message {
            ChannelMessage::Update(update) => {
                let ChannelUpdateMessage { message, batch_index } = update;
                let has_previous = self.has_previous;
                self.has_previous = true;
                let (ts, ts_action) = SourceTask::new(
                    DiagnosticSource::Ts,
                    batch_index,
                    has_previous,
                    self.token.clone(),
                );
                let (deps, deps_action) = SourceTask::new(
                    DiagnosticSource::Deno,
                    batch_index,
                    has_previous,
                    self.token.clone(),
                );
                let (lint, lint_action) = SourceTask::new(
                    DiagnosticSource::Lint,
                    batch_index,
                    has_previous,
                    self.token.clone(),
                );
                SchedulerAction::Spawn(
                    Batch { message, ts, ts_action, deps, deps_action, lint, lint_action },
                )
            },
            ChannelMessage::Clear => SchedulerAction::ClearPublisher,
        }
    }
}

} // verus!
