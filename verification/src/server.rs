//! The diagnostics server as the rest of the language server sees it: it
//! takes updates, hands them to its worker, and answers for the type
//! diagnostics last published.

use vstd::prelude::*;
use crate::model::Diagnostic;
use crate::model::DiagnosticRecord;
use crate::model::VersionedView;
use crate::publisher::LspUrlMap;
use crate::scheduler::Scheduler;
use crate::snapshot::ConfigSnapshot;
use crate::snapshot::LintOptions;
use crate::snapshot::StateSnapshot;
use crate::specifier::ModuleSpecifier;
use crate::stores::next_batch_index;
use crate::stores::ts_batch;
use crate::stores::ts_lookup;
use crate::stores::DiagnosticBatchCounter;
use crate::stores::TsDiagnosticsStore;

verus! {

/// What an update hands to the engine: the state and the configuration as
/// the batch is to see them, the linter's options, and the addresses under
/// which the editor knows the documents.
#[derive(Debug)]
pub struct DiagnosticServerUpdateMessage {
    pub snapshot: StateSnapshot,
    pub config: ConfigSnapshot,
    pub lint_options: LintOptions,
    pub url_map: LspUrlMap,
}

/// An update on its way to the worker, with its batch index where batches
/// are counted.
#[derive(Debug)]
pub struct ChannelUpdateMessage {
    pub message: DiagnosticServerUpdateMessage,
    pub batch_index: Option<usize>,
}

/// What the server sends its worker.
#[derive(Debug)]
pub enum ChannelMessage {
    Update(ChannelUpdateMessage),
    Clear,
}

/// Why the server does not take an update.
#[derive(Clone, Copy, Debug, PartialEq, Eq, Structural)]
pub enum ServerError {
    /// The worker was never started.
    NotStarted,
}

impl ServerError {
    /// The text of the error.
    pub fn message(&self) -> (text: &'static str)
        ensures
            text@ == "diagnostics server not started"@,
    {
        "diagnostics server not started"
    }
}

/// The diagnostics server.
#[derive(Debug)]
pub struct DiagnosticsServer {
    started: bool,
    ts_diagnostics: TsDiagnosticsStore,
    batch_counter: DiagnosticBatchCounter,
}

/// What a [`DiagnosticsServer`] holds.
pub struct ServerView {
    pub started: bool,
    pub ts_diagnostics: Map<Seq<char>, VersionedView>,
    pub batch_counter: Option<usize>,
}

impl View for DiagnosticsServer {
    type V = ServerView;

    closed spec fn view(&self) -> ServerView {
        ServerView {
            started: self.started,
            ts_diagnostics: self.ts_diagnostics@,
            batch_counter: self.batch_counter@,
        }
    }
}

/// What the server answers to an update: nothing to send where it was not
/// started, else the update with the batch index that follows the counter.
pub open spec fn update_outcome(server: ServerView) -> Result<Option<usize>, ServerError> {
    if server.started {
        Ok(
            match server.batch_counter {
                Some(count) => Some(next_batch_index(count)),
                None => None,
            },
        )
    } else {
        Err(ServerError::NotStarted)
    }
}

impl DiagnosticsServer {
    /// The store of type diagnostics holds no specifier twice.
    pub closed spec fn wf(&self) -> bool {
        self.ts_diagnostics.wf()
    }

    /// A server whose worker is not started; it counts batches where
    /// `count_batches`.
    pub fn new(count_batches: bool) -> (server: Self)
        ensures
            server.wf(),
            server@ == (ServerView {
                started: false,
                ts_diagnostics: Map::empty(),
                batch_counter: if count_batches {
                    Some(0usize)
                } else {
                    None
                },
            }),
    {
        DiagnosticsServer {
            started: false,
            ts_diagnostics: TsDiagnosticsStore::new(),
            batch_counter: DiagnosticBatchCounter::new(count_batches),
        }
    }

    /// The type diagnostics of `specifier` if they were computed for
    /// `document_version`; nothing otherwise.
    pub fn get_ts_diagnostics(&self, specifier: &ModuleSpecifier, document_version: Option<i32>)
        -> (diagnostics: Vec<Diagnostic>)
        requires
            self.wf(),
        ensures
            diagnostics.deep_view() == ts_lookup(
                self@.ts_diagnostics,
                specifier@,
                document_version,
            ),
    {
        self.ts_diagnostics.get(specifier, document_version)
    }

    /// Forgets the type diagnostics of each of `specifiers`.
    pub fn invalidate(&mut self, specifiers: &[ModuleSpecifier])
        requires
            old(self).wf(),
        ensures
            final(self).wf(),
            final(self)@ == (ServerView {
                ts_diagnostics: old(self)@.ts_diagnostics.remove_keys(
                    specifiers.deep_view().to_set(),
                ),
                ..old(self)@
            }),
    {
        self.ts_diagnostics.invalidate(specifiers);
    }

    /// Forgets all type diagnostics; where the worker is started, it is to
    /// be sent the message that the result holds, so that it clears what
    /// the publisher holds too.
    pub fn invalidate_all(&mut self) -> (message: Option<ChannelMessage>)
        ensures
            final(self).wf(),
            final(self)@ == (ServerView { ts_diagnostics: Map::empty(), ..old(self)@ }),
            old(self)@.started ==> message is Some && message->0 is Clear,
            !old(self)@.started ==> message is None,
    {
        self.ts_diagnostics.invalidate_all();
        if self.started {
            Some(ChannelMessage::Clear)
        } else {
            None
        }
    }

    /// Starts the worker: the server takes updates from now on, and the
    /// result decides what the worker does with them.
    pub fn start(&mut self) -> (scheduler: Scheduler)
        ensures
            final(self).wf() == old(self).wf(),
            final(self)@ == (ServerView { started: true, ..old(self)@ }),
            !scheduler@,
    {
        self.started = true;
        Scheduler::new()
    }

    /// The batch index of the last update taken.
    pub fn latest_batch_index(&self) -> (index: Option<usize>)
        ensures
            index == self@.batch_counter,
    {
        self.batch_counter.get()
    }

    /// Takes an update: where the worker is started, the update is counted
    /// and the result holds what the worker is to be sent.
    pub fn update(&mut self, message: DiagnosticServerUpdateMessage) -> (sent: Result<
        ChannelMessage,
        ServerError,
    >)
        ensures
            final(self).wf() == old(self).wf(),
            match update_outcome(old(self)@) {
                Ok(batch_index) => sent is Ok && sent->Ok_0 is Update && sent->Ok_0->Update_0
                    == (ChannelUpdateMessage { message, batch_index }) && final(self)@ == (ServerView {
                    batch_counter: batch_index,
                    ..old(self)@
                }),
                Err(error) => sent == Err::<ChannelMessage, ServerError>(error) && final(self)@
                    == old(self)@,
            },
    {
        if self.started {
            let batch_index = self.batch_counter.inc();
            Ok(ChannelMessage::Update(ChannelUpdateMessage { message, batch_index }))
        } else {
            Err(ServerError::NotStarted)
        }
    }

    /// Replaces the type diagnostics by those of a batch.
    pub fn store_ts_diagnostics(&mut self, diagnostics: &Vec<DiagnosticRecord>)
        ensures
            final(self).wf(),
            final(self)@ == (ServerView {
                ts_diagnostics: ts_batch(diagnostics.deep_view()),
                ..old(self)@
            }),
    {
        self.ts_diagnostics.update(diagnostics);
    }
}

} // verus!
