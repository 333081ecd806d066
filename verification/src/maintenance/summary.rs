//! What is said at the end of a maintenance run that completed.

use vstd::prelude::*;
use vstd::string::*;
use crate::maintenance::orchestrator::{MaintenanceReport, ReportModel, ServiceDisposition};
use crate::maintenance::targets::MaintenanceRequest;
use crate::text::{decimal_text, push_decimal_wide};

verus! {

/// How a line of the summary is marked.
#[derive(Clone, Copy, PartialEq, Eq, Debug, Structural)]
pub enum LineKind {
    Pass,
    Step,
    Warn,
}

/// One line of the summary.
#[derive(Debug, PartialEq, Eq)]
pub struct SummaryLine {
    pub kind: LineKind,
    pub text: String,
}

pub struct LineModel {
    pub kind: LineKind,
    pub text: Seq<char>,
}

impl View for SummaryLine {
    type V = LineModel;

    open spec fn view(&self) -> LineModel {
        LineModel { kind: self.kind, text: self.text@ }
    }
}

pub open spec fn line_models(lines: Seq<SummaryLine>) -> Seq<LineModel> {
    lines.map_values(|l: SummaryLine| l@)
}

/// A count with what was counted.
pub open spec fn counted_text(count: nat, what: Seq<char>) -> Seq<char> {
    decimal_text(count) + what
}

/// A line that confirms a count.
pub open spec fn count_line(count: nat, what: Seq<char>) -> LineModel {
    LineModel { kind: LineKind::Pass, text: counted_text(count, what) }
}

/// A line of the given kind.
pub open spec fn line(kind: LineKind, text: Seq<char>) -> LineModel {
    LineModel { kind, text }
}

/// The lines that are said of what was deleted: with registry entries
/// deleted, how many databases were unregistered and how many stray files
/// deleted, or only the latter if no database was registered; without,
/// how many files were deleted.
pub open spec fn deletion_lines(report: ReportModel, request: MaintenanceRequest) -> Seq<
    LineModel,
> {
    if request.delete_registry && report.targets_processed == 0 && report.orphan_files_deleted
        > 0 {
        seq![count_line(report.orphan_files_deleted, " orphaned file(s) deleted"@)]
    } else if request.delete_registry {
        seq![count_line(report.registry_entries_deleted, " database(s) unregistered"@)] + (
        if report.orphan_files_deleted > 0 {
            seq![count_line(report.orphan_files_deleted, " orphaned file(s) deleted"@)]
        } else {
            Seq::empty()
        }) + seq![line(LineKind::Step, "Databases have been fully removed from the system"@)]
    } else {
        seq![
            count_line(
                report.files_deleted + report.orphan_files_deleted,
                " database file(s) deleted"@,
            ),
        ] + (if report.targets_processed > 0 {
            seq![line(LineKind::Step, "Service will recreate clean empty databases"@)]
        } else {
            Seq::empty()
        })
    }
}

/// The summary of a run that completed: what was deleted, a warning that
/// the service, once it runs again, may bring deleted files back, and what
/// to do next.
pub open spec fn summary_lines(report: ReportModel, request: MaintenanceRequest) -> Seq<LineModel> {
    deletion_lines(report, request) + (if request.delete_file && report.service
        == ServiceDisposition::Restarted {
        seq![
            line(
                LineKind::Warn,
                "WbioSrvc was restarted and may recreate .DAT files for active sensors. To prevent this, use stop-service before deleting and start-service after."@,
            ),
        ]
    } else {
        Seq::empty()
    }) + seq![
        line(
            LineKind::Step,
            "Re-enroll fingerprints via Windows Settings > Accounts > Sign-in options"@,
        ),
    ]
}

fn push_count(lines: &mut Vec<SummaryLine>, count: u128, what: &str)
    ensures
        line_models(final(lines)@) == line_models(old(lines)@).push(
            count_line(count as nat, what@),
        ),
{
    let mut text = String::new();
    push_decimal_wide(&mut text, count);
    text.append(what);
    assert(text@ =~= counted_text(count as nat, what@));
    lines.push(SummaryLine { kind: LineKind::Pass, text });
    assert(line_models(lines@) =~= line_models(old(lines)@).push(count_line(count as nat, what@)));
}

fn push_line(lines: &mut Vec<SummaryLine>, kind: LineKind, text: &str)
    ensures
        line_models(final(lines)@) == line_models(old(lines)@).push(line(kind, text@)),
{
    lines.push(SummaryLine { kind, text: String::from_str(text) });
    assert(line_models(lines@) =~= line_models(old(lines)@).push(line(kind, text@)));
}

/// Writes the summary of a run that completed.
pub fn summary(report: &MaintenanceReport, request: MaintenanceRequest) -> (lines: Vec<
    SummaryLine,
>)
    ensures
        line_models(lines@) == summary_lines(report@, request),
{
    let mut lines: Vec<SummaryLine> = Vec::new();
    assert(line_models(lines@) =~= Seq::<LineModel>::empty());
    if request.delete_registry && report.targets_processed == 0 && report.orphan_files_deleted
        > 0 {
        push_count(&mut lines, report.orphan_files_deleted as u128, " orphaned file(s) deleted");
    } else if request.delete_registry {
        push_count(&mut lines, report.registry_entries_deleted as u128, " database(s) unregistered");
        if report.orphan_files_deleted > 0 {
            push_count(&mut lines, report.orphan_files_deleted as u128, " orphaned file(s) deleted");
        }
        push_line(&mut lines, LineKind::Step, "Databases have been fully removed from the system");
    } else {
        let files: u128 = report.files_deleted as u128 + report.orphan_files_deleted as u128;
        push_count(&mut lines, files, " database file(s) deleted");
        if report.targets_processed > 0 {
            push_line(&mut lines, LineKind::Step, "Service will recreate clean empty databases");
        }
    }
    assert(line_models(lines@) =~= deletion_lines(report@, request));
    if request.delete_file && report.service == ServiceDisposition::Restarted {
        push_line(
            &mut lines,
            LineKind::Warn,
            "WbioSrvc was restarted and may recreate .DAT files for active sensors. To prevent this, use stop-service before deleting and start-service after.",
        );
    }
    push_line(
        &mut lines,
        LineKind::Step,
        "Re-enroll fingerprints via Windows Settings > Accounts > Sign-in options",
    );
    assert(line_models(lines@) =~= summary_lines(report@, request));
    lines
}

} // verus!
