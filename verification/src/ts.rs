//! The type-check adapter: which documents the type checker is asked
//! about, and the records that its answer gives.

use vstd::prelude::*;
use crate::model::Diagnostic;
use crate::model::DiagnosticRecord;
use crate::model::DiagnosticView;
use crate::model::RecordView;
use crate::model::VersionedDiagnostics;
use crate::model::VersionedView;
use crate::snapshot::ConfigSnapshot;
use crate::snapshot::Document;
use crate::snapshot::StateSnapshot;
use crate::specifier::url_serialization;
use crate::specifier::ModuleSpecifier;
use crate::tsc::translate_records;
use crate::tsc::translated_all;

verus! {

/// The specifiers of those of `documents` that are open and diagnosable and
/// for which diagnostics are wanted, if `enabled`, or not wanted, if not.
pub open spec fn partition_side(config: ConfigSnapshot, documents: Seq<Document>, enabled: bool)
    -> Seq<Seq<char>>
    decreases documents.len(),
{
    if documents.len() == 0 {
        Seq::empty()
    } else {
        let before = partition_side(config, documents.drop_last(), enabled);
        let document = documents.last();
        if document.open_diagnosable && config.settings_for(document.specifier@).enable
            == enabled {
            before.push(document.specifier@)
        } else {
            before
        }
    }
}

fn collect_side(snapshot: &StateSnapshot, config: &ConfigSnapshot, enabled: bool) -> (specifiers:
    Vec<ModuleSpecifier>)
    ensures
        specifiers.deep_view() == partition_side(
            *config,
            snapshot.documents.documents@,
            enabled,
        ),
{
    let documents = &snapshot.documents.documents;
    let mut specifiers: Vec<ModuleSpecifier> = Vec::new();
    let mut i: usize = 0;
    while i < documents.len()
        invariant
            i <= documents.len(),
            specifiers.deep_view() == partition_side(*config, documents@.take(i as int), enabled),
        decreases documents.len() - i,
    {
        let document = &documents[i];
        proof {
            let next = documents@.take(i + 1);
            assert(next.drop_last() =~= documents@.take(i as int));
        }
        if document.open_diagnosable && config.specifier_enabled(&document.specifier) == enabled {
            specifiers.push(document.specifier.clone());
        }
        i += 1;
    }
    assert(documents@.take(documents.len() as int) =~= documents@);
    specifiers
}

/// The documents that the type checker is to be asked about: the open
/// diagnosable documents for which diagnostics are wanted. Where there is
/// none, the type checker is not asked.
pub fn enabled_specifiers(snapshot: &StateSnapshot, config: &ConfigSnapshot) -> (specifiers: Vec<
    ModuleSpecifier,
>)
    ensures
        specifiers.deep_view() == partition_side(*config, snapshot.documents.documents@, true),
{
    collect_side(snapshot, config, true)
}

/// The request to the type checker: the documents of
/// [`enabled_specifiers`], or none where there is no such document.
pub fn type_check_request(snapshot: &StateSnapshot, config: &ConfigSnapshot) -> (request: Option<
    Vec<ModuleSpecifier>,
>)
    ensures
        match request {
            Some(specifiers) => specifiers.len() > 0 && specifiers.deep_view() == partition_side(
                *config,
                snapshot.documents.documents@,
                true,
            ),
            None => partition_side(*config, snapshot.documents.documents@, true).len() == 0,
        },
{
    let specifiers = enabled_specifiers(snapshot, config);
    if specifiers.len() > 0 {
        Some(specifiers)
    } else {
        None
    }
}

/// The open diagnosable documents for which no diagnostics are wanted.
pub fn disabled_specifiers(snapshot: &StateSnapshot, config: &ConfigSnapshot) -> (specifiers: Vec<
    ModuleSpecifier,
>)
    ensures
        specifiers.deep_view() == partition_side(*config, snapshot.documents.documents@, false),
{
    collect_side(snapshot, config, false)
}

/// What the type checker answers for one document: the document's
/// specifier, as text, and its records.
#[derive(Debug, PartialEq, Eq)]
pub struct TsResponse {
    pub specifier: String,
    pub diagnostics: Vec<crate::tsc::Diagnostic>,
}

/// Why an answer of the type checker gives no records.
#[derive(Debug, PartialEq, Eq)]
pub enum TsDiagnosticsError {
    /// The answer names a document by a text that is no URL.
    InvalidSpecifier(String),
}

/// The record for one entry of the type checker's answer, whose specifier
/// reads `specifier` as a URL: under the version of the document, the
/// records translated, or nothing where no diagnostics are wanted for the
/// document.
pub open spec fn response_record(
    snapshot: StateSnapshot,
    config: ConfigSnapshot,
    specifier: Seq<char>,
    response: TsResponse,
) -> RecordView {
    RecordView {
        specifier,
        versioned: VersionedView {
            version: snapshot.documents.version_of(specifier),
            diagnostics: if config.settings_for(specifier).enable {
                translated_all(response.diagnostics@)
            } else {
                Seq::empty()
            },
        },
    }
}

/// The records for the entries of the type checker's answer, in their
/// order; `None` where the specifier of an entry is no URL.
pub open spec fn response_records(
    snapshot: StateSnapshot,
    config: ConfigSnapshot,
    responses: Seq<TsResponse>,
) -> Option<Seq<RecordView>>
    decreases responses.len(),
{
    if responses.len() == 0 {
        Some(Seq::empty())
    } else {
        match response_records(snapshot, config, responses.drop_last()) {
            Some(before) => match url_serialization(responses.last().specifier@) {
                Some(specifier) => Some(
                    before.push(response_record(snapshot, config, specifier, responses.last())),
                ),
                None => None,
            },
            None => None,
        }
    }
}

/// The empty records that clear the type diagnostics of `specifiers`.
pub open spec fn clearing_records(snapshot: StateSnapshot, specifiers: Seq<Seq<char>>) -> Seq<
    RecordView,
> {
    Seq::new(
        specifiers.len(),
        |i: int|
            RecordView {
                specifier: specifiers[i],
                versioned: VersionedView {
                    version: snapshot.documents.version_of(specifiers[i]),
                    diagnostics: Seq::empty(),
                },
            },
    )
}

/// The records that an answer of the type checker gives: those of its
/// entries, then an empty one for each open diagnosable document for which
/// no diagnostics are wanted.
pub open spec fn ts_records(
    snapshot: StateSnapshot,
    config: ConfigSnapshot,
    responses: Seq<TsResponse>,
) -> Option<Seq<RecordView>> {
    match response_records(snapshot, config, responses) {
        Some(records) => Some(
            records + clearing_records(
                snapshot,
                partition_side(config, snapshot.documents.documents@, false),
            ),
        ),
        None => None,
    }
}

/// What the records or the error of the type-check adapter hold.
pub open spec fn records_view(result: Result<Vec<DiagnosticRecord>, TsDiagnosticsError>) -> Option<
    Seq<RecordView>,
> {
    match result {
        Ok(records) => Some(records.deep_view()),
        Err(_) => None,
    }
}

/// The record for one entry of the type checker's answer, given the
/// specifier that its text parsed to.
pub fn generate_response_record(
    snapshot: &StateSnapshot,
    config: &ConfigSnapshot,
    specifier: ModuleSpecifier,
    response: &TsResponse,
) -> (record: DiagnosticRecord)
    ensures
        record@ == response_record(*snapshot, *config, specifier@, *response),
{
    let version = snapshot.documents.lsp_version(&specifier);
    let diagnostics = if config.specifier_enabled(&specifier) {
        translate_records(&response.diagnostics)
    } else {
        let nothing: Vec<Diagnostic> = Vec::new();
        assert(nothing.deep_view() =~= Seq::<DiagnosticView>::empty());
        nothing
    };
    DiagnosticRecord { specifier, versioned: VersionedDiagnostics { version, diagnostics } }
}

/// The type-check adapter's records, given the type checker's answer for
/// the documents of [`enabled_specifiers`] (no entries where it was not
/// asked): a record for each entry of the answer, then an empty record for
/// each open diagnosable document for which no diagnostics are wanted, so
/// that what was published for it is cleared. Fails where an entry names
/// its document by a text that is no URL.
pub fn generate_ts_diagnostics(
    snapshot: &StateSnapshot,
    config: &ConfigSnapshot,
    ts_diagnostics_map: &Vec<TsResponse>,
) -> (records: Result<Vec<DiagnosticRecord>, TsDiagnosticsError>)
    ensures
        records_view(records) == ts_records(*snapshot, *config, ts_diagnostics_map@),
{
    let mut diagnostics_vec: Vec<DiagnosticRecord> = Vec::new();
    let mut i: usize = 0;
    while i < ts_diagnostics_map.len()
        invariant
            i <= ts_diagnostics_map.len(),
            response_records(*snapshot, *config, ts_diagnostics_map@.take(i as int)) == Some(
                diagnostics_vec.deep_view(),
            ),
        decreases ts_diagnostics_map.len() - i,
    {
        let response = &ts_diagnostics_map[i];
        proof {
            let next = ts_diagnostics_map@.take(i + 1);
            assert(next.drop_last() =~= ts_diagnostics_map@.take(i as int));
        }
        match ModuleSpecifier::parse(response.specifier.as_str()) {
            Some(specifier) => {
                let record = generate_response_record(snapshot, config, specifier, response);
                diagnostics_vec.push(record);
            },
            None => {
                proof {
                    lemma_invalid_entry(*snapshot, *config, ts_diagnostics_map@, i as int);
                }
                return Err(TsDiagnosticsError::InvalidSpecifier(response.specifier.clone()));
            },
        }
        i += 1;
    }
    proof {
        assert(ts_diagnostics_map@.take(ts_diagnostics_map.len() as int) =~= ts_diagnostics_map@);
    }
    let disabled = disabled_specifiers(snapshot, config);
    let ghost answered = diagnostics_vec.deep_view();
    let mut j: usize = 0;
    while j < disabled.len()
        invariant
            j <= disabled.len(),
            diagnostics_vec.deep_view() == answered + clearing_records(
                *snapshot,
                disabled.deep_view().take(j as int),
            ),
        decreases disabled.len() - j,
    {
        let specifier = disabled[j].clone();
        let version = snapshot.documents.lsp_version(&specifier);
        let nothing: Vec<Diagnostic> = Vec::new();
        assert(nothing.deep_view() =~= Seq::<DiagnosticView>::empty());
        let ghost before = diagnostics_vec.deep_view();
        let record = DiagnosticRecord {
            specifier,
            versioned: VersionedDiagnostics { version, diagnostics: nothing },
        };
        let ghost view = record@;
        diagnostics_vec.push(record);
        assert(diagnostics_vec.deep_view() =~= before.push(view));
        j += 1;
    }
    Ok(diagnostics_vec)
}

/// An answer with an entry whose specifier is no URL gives no records.
proof fn lemma_invalid_entry(
    snapshot: StateSnapshot,
    config: ConfigSnapshot,
    responses: Seq<TsResponse>,
    index: int,
)
    requires
        0 <= index < responses.len(),
        url_serialization(responses[index].specifier@) is None,
    ensures
        response_records(snapshot, config, responses) is None,
    decreases responses.len(),
{
    if index < responses.len() - 1 {
        lemma_invalid_entry(snapshot, config, responses.drop_last(), index);
    }
}

} // verus!
