//! What a maintenance request covers: the registered databases it selects and
//! the stray database files beside them.

use vstd::prelude::*;
use vstd::string::*;
use crate::guid::{format_guid, guid_text, Guid};
use crate::error::{winbio_error_text, wrap_winbio_error};
use crate::service::{ServiceFault, ServiceStage};
use crate::text::{
    decimal_text, hex_u32_text, push_decimal, push_hex_u32, same_text, to_uppercase,
    uppercase_text,
};

verus! {

/// Directory in which the biometric service keeps its database files.
pub const DATABASE_DIRECTORY: &'static str = "C:\\WINDOWS\\SYSTEM32\\WINBIODATABASE";

/// What a maintenance run is asked to do: on one database by its number
/// (counted from one) or on all, deleting files, registry entries or both.
#[derive(Clone, Copy, Debug, PartialEq, Eq, Structural)]
pub struct MaintenanceRequest {
    pub db_number: Option<usize>,
    pub all: bool,
    pub delete_file: bool,
    pub delete_registry: bool,
}

/// Why a maintenance run ended without completing.
#[derive(Clone, Copy, Debug, PartialEq, Eq, Structural)]
pub enum MaintenanceError {
    /// Neither file nor registry deletion was requested.
    NothingRequested,
    /// Whether the process is elevated could not be determined.
    ElevationUnknown { code: u32 },
    /// The process does not hold administrator privileges.
    NotElevated,
    /// The registered databases could not be listed.
    EnumerationFailed { code: u32 },
    /// A single database was asked for and none is registered.
    NoDatabases,
    /// The database number is zero or beyond the registered databases.
    OutOfRange { requested: usize, found: usize },
    /// The state of the service could not be read.
    ServiceUnavailable { fault: crate::service::ServiceFault },
    /// The service refused the stop request.
    StopRejected { fault: crate::service::ServiceFault },
    /// The service did not stop within the permitted readings.
    StopTimedOut,
    /// The service could not be asked to start again.
    StartRejected { fault: crate::service::ServiceFault },
    /// The service did not run again within the permitted readings.
    StartTimedOut,
    /// At least one deletion failed; the report lists them.
    SomeOperationsFailed,
}

/// What is said of a request to the service manager that failed: the step
/// that failed and the system's error code as eight hexadecimal digits.
pub open spec fn service_fault_text(fault: ServiceFault) -> Seq<char> {
    (match fault.stage {
        ServiceStage::OpenManager => "Cannot open Service Control Manager: "@,
        ServiceStage::OpenService => "Cannot open WbioSrvc service: "@,
        ServiceStage::QueryStatus => "QueryServiceStatus failed: "@,
        ServiceStage::Control => "Service control request failed: "@,
    }) + "0x"@ + hex_u32_text(fault.code)
}

/// Says in words which request to the service manager failed.
pub fn service_fault_message(fault: ServiceFault) -> (r: String)
    ensures
        r@ == service_fault_text(fault),
{
    let mut s = String::from_str(
        match fault.stage {
            ServiceStage::OpenManager => "Cannot open Service Control Manager: ",
            ServiceStage::OpenService => "Cannot open WbioSrvc service: ",
            ServiceStage::QueryStatus => "QueryServiceStatus failed: ",
            ServiceStage::Control => "Service control request failed: ",
        },
    );
    s.append("0x");
    push_hex_u32(&mut s, fault.code);
    s
}

/// Why a maintenance run ended without completing, in words.
pub open spec fn maintenance_error_text(error: MaintenanceError) -> Seq<char> {
    match error {
        MaintenanceError::NothingRequested =>
            "Specify --file to delete the .DAT file, --registry to remove the registry entry, or both"@,
        MaintenanceError::ElevationUnknown { code } => "Could not check elevation: 0x"@
            + hex_u32_text(code),
        MaintenanceError::NotElevated =>
            "This command requires Administrator privileges. Re-run as Administrator."@,
        MaintenanceError::EnumerationFailed { code } => winbio_error_text(
            "WinBioEnumDatabases"@,
            code,
        ),
        MaintenanceError::NoDatabases => "No biometric databases found"@,
        MaintenanceError::OutOfRange { requested, found } => "Database number "@ + decimal_text(
            requested as nat,
        ) + " is out of range (found "@ + decimal_text(found as nat) + " database(s))"@,
        MaintenanceError::ServiceUnavailable { fault } => service_fault_text(fault),
        MaintenanceError::StopRejected { fault } => "Failed to stop WbioSrvc: "@
            + service_fault_text(fault),
        MaintenanceError::StopTimedOut => "WbioSrvc did not stop in time"@,
        MaintenanceError::StartRejected { fault } => "Failed to start WbioSrvc: "@
            + service_fault_text(fault),
        MaintenanceError::StartTimedOut => "WbioSrvc did not start in time"@,
        MaintenanceError::SomeOperationsFailed => "Some operations failed (see above)"@,
    }
}

impl MaintenanceError {
    /// Says in words why the run ended.
    pub fn message(&self) -> (r: String)
        ensures
            r@ == maintenance_error_text(*self),
    {
        match *self {
            MaintenanceError::NothingRequested => String::from_str(
                "Specify --file to delete the .DAT file, --registry to remove the registry entry, or both",
            ),
            MaintenanceError::ElevationUnknown { code } => {
                let mut s = String::from_str("Could not check elevation: 0x");
                push_hex_u32(&mut s, code);
                s
            },
            MaintenanceError::NotElevated => String::from_str(
                "This command requires Administrator privileges. Re-run as Administrator.",
            ),
            MaintenanceError::EnumerationFailed { code } => wrap_winbio_error(
                "WinBioEnumDatabases",
                code,
            ).message(),
            MaintenanceError::NoDatabases => String::from_str("No biometric databases found"),
            MaintenanceError::OutOfRange { requested, found } => {
                let mut s = String::from_str("Database number ");
                push_decimal(&mut s, requested as u64);
                s.append(" is out of range (found ");
                push_decimal(&mut s, found as u64);
                s.append(" database(s))");
                s
            },
            MaintenanceError::ServiceUnavailable { fault } => service_fault_message(fault),
            MaintenanceError::StopRejected { fault } => {
                let mut s = String::from_str("Failed to stop WbioSrvc: ");
                let detail = service_fault_message(fault);
                s.append(detail.as_str());
                s
            },
            MaintenanceError::StopTimedOut => String::from_str("WbioSrvc did not stop in time"),
            MaintenanceError::StartRejected { fault } => {
                let mut s = String::from_str("Failed to start WbioSrvc: ");
                let detail = service_fault_message(fault);
                s.append(detail.as_str());
                s
            },
            MaintenanceError::StartTimedOut => String::from_str("WbioSrvc did not start in time"),
            MaintenanceError::SomeOperationsFailed => String::from_str(
                "Some operations failed (see above)",
            ),
        }
    }
}

/// A registered database as the biometric subsystem lists it.
#[derive(Debug, PartialEq, Eq)]
pub struct DatabaseRecord {
    pub database_id: Guid,
    pub file_path: String,
}

/// A registered database with its path as plain text.
pub struct RecordModel {
    pub database_id: Guid,
    pub file_path: Seq<char>,
}

impl View for DatabaseRecord {
    type V = RecordModel;

    open spec fn view(&self) -> RecordModel {
        RecordModel { database_id: self.database_id, file_path: self.file_path@ }
    }
}

/// A database to operate on: its number in the listing (from one), its
/// identifier in canonical text, and its file path, empty when it has none.
#[derive(Debug, PartialEq, Eq)]
pub struct DatabaseTarget {
    pub index: usize,
    pub db_id: String,
    pub file_path: String,
}

/// A target with its texts as plain text.
pub struct TargetModel {
    pub index: nat,
    pub db_id: Seq<char>,
    pub file_path: Seq<char>,
}

impl View for DatabaseTarget {
    type V = TargetModel;

    open spec fn view(&self) -> TargetModel {
        TargetModel { index: self.index as nat, db_id: self.db_id@, file_path: self.file_path@ }
    }
}

/// Registered databases with their paths as plain text.
pub open spec fn record_models(records: Seq<DatabaseRecord>) -> Seq<RecordModel> {
    records.map_values(|r: DatabaseRecord| r@)
}

/// Targets with their texts as plain text.
pub open spec fn target_models(targets: Seq<DatabaseTarget>) -> Seq<TargetModel> {
    targets.map_values(|t: DatabaseTarget| t@)
}

/// The target for the `number`-th listed database, counted from one.
pub open spec fn target_of(records: Seq<RecordModel>, number: int) -> TargetModel {
    TargetModel {
        index: number as nat,
        db_id: guid_text(records[number - 1].database_id),
        file_path: records[number - 1].file_path,
    }
}

/// The targets of a request among the listed databases. With `all`, every
/// listed database, and none listed is no error. Otherwise the numbered
/// database, which must exist; without a number, every listed database, of
/// which there must be at least one.
pub open spec fn select_targets_spec(
    records: Seq<RecordModel>,
    db_number: Option<usize>,
    all: bool,
) -> Result<Seq<TargetModel>, MaintenanceError> {
    if records.len() == 0 {
        if all {
            Ok(Seq::empty())
        } else {
            Err(MaintenanceError::NoDatabases)
        }
    } else if !all && db_number is Some {
        let n = db_number->0;
        if n == 0 || n > records.len() {
            Err(MaintenanceError::OutOfRange { requested: n, found: records.len() as usize })
        } else {
            Ok(seq![target_of(records, n as int)])
        }
    } else {
        Ok(Seq::new(records.len(), |i: int| target_of(records, i + 1)))
    }
}

fn make_target(records: &Vec<DatabaseRecord>, number: usize) -> (t: DatabaseTarget)
    requires
        1 <= number <= records.len(),
    ensures
        t@ == target_of(record_models(records@), number as int),
{
    let record = &records[number - 1];
    DatabaseTarget {
        index: number,
        db_id: format_guid(&record.database_id),
        file_path: record.file_path.clone(),
    }
}

/// Picks the databases a request covers from the listing.
pub fn select_targets(records: &Vec<DatabaseRecord>, db_number: Option<usize>, all: bool) -> (r:
    Result<Vec<DatabaseTarget>, MaintenanceError>)
    ensures
        match r {
            Ok(targets) => select_targets_spec(record_models(records@), db_number, all) == Ok::<
                Seq<TargetModel>,
                MaintenanceError,
            >(target_models(targets@)),
            Err(e) => select_targets_spec(record_models(records@), db_number, all) == Err::<
                Seq<TargetModel>,
                MaintenanceError,
            >(e),
        },
{
    let count = records.len();
    if count == 0 {
        if all {
            let none: Vec<DatabaseTarget> = Vec::new();
            assert(target_models(none@) =~= Seq::empty());
            return Ok(none);
        }
        return Err(MaintenanceError::NoDatabases);
    }
    if !all {
        if let Some(n) = db_number {
            if n == 0 || n > count {
                return Err(MaintenanceError::OutOfRange { requested: n, found: count });
            }
            let mut one: Vec<DatabaseTarget> = Vec::new();
            one.push(make_target(records, n));
            assert(target_models(one@) =~= seq![target_of(record_models(records@), n as int)]);
            return Ok(one);
        }
    }
    let mut targets: Vec<DatabaseTarget> = Vec::new();
    let mut i: usize = 0;
    while i < count
        invariant
            i <= count,
            count == records.len(),
            targets.len() == i,
            forall|k: int|
                0 <= k < i ==> (#[trigger] targets[k])@ == target_of(record_models(records@), k + 1),
        decreases count - i,
    {
        targets.push(make_target(records, i + 1));
        i = i + 1;
    }
    assert(target_models(targets@) =~= Seq::new(
        records@.len(),
        |i: int| target_of(record_models(records@), i + 1),
    ));
    Ok(targets)
}

/// A file found in the database directory: its full path and the extension
/// of its name, if it has one.
#[derive(Debug, PartialEq, Eq)]
pub struct DirectoryEntry {
    pub path: String,
    pub extension: Option<String>,
}

/// A file of the database directory as plain text.
pub struct EntryModel {
    pub path: Seq<char>,
    pub extension: Option<Seq<char>>,
}

impl View for DirectoryEntry {
    type V = EntryModel;

    open spec fn view(&self) -> EntryModel {
        EntryModel {
            path: self.path@,
            extension: match self.extension {
                Some(e) => Some(e@),
                None => None,
            },
        }
    }
}

/// Files of the database directory as plain text.
pub open spec fn entry_models(entries: Seq<DirectoryEntry>) -> Seq<EntryModel> {
    entries.map_values(|e: DirectoryEntry| e@)
}

/// Whether a path is the file of a target, letter case aside.
pub open spec fn is_registered(path: Seq<char>, targets: Seq<TargetModel>) -> bool {
    exists|i: int|
        0 <= i < targets.len() && uppercase_text(#[trigger] targets[i].file_path)
            == uppercase_text(path)
}

/// A stray database file: one with the extension `DAT` that no target names.
pub open spec fn is_orphan(entry: EntryModel, targets: Seq<TargetModel>) -> bool {
    entry.extension == Some("DAT"@) && !is_registered(entry.path, targets)
}

/// The paths of the stray database files among the entries, in their order.
pub open spec fn orphans_among(entries: Seq<EntryModel>, targets: Seq<TargetModel>) -> Seq<
    Seq<char>,
>
    decreases entries.len(),
{
    if entries.len() == 0 {
        Seq::empty()
    } else {
        let before = orphans_among(entries.drop_last(), targets);
        if is_orphan(entries.last(), targets) {
            before.push(entries.last().path)
        } else {
            before
        }
    }
}

/// The texts of strings.
pub open spec fn texts(strings: Seq<String>) -> Seq<Seq<char>> {
    strings.map_values(|s: String| s@)
}

fn has_database_extension(entry: &DirectoryEntry) -> (r: bool)
    ensures
        r == (entry@.extension == Some("DAT"@)),
{
    match &entry.extension {
        Some(e) => same_text(e.as_str(), "DAT"),
        None => false,
    }
}

fn names_upper(upper: &Vec<String>, wanted: &str) -> (r: bool)
    ensures
        r == exists|i: int| 0 <= i < upper.len() && (#[trigger] upper[i])@ == wanted@,
{
    let mut i: usize = 0;
    while i < upper.len()
        invariant
            i <= upper.len(),
            forall|k: int| 0 <= k < i ==> (#[trigger] upper[k])@ != wanted@,
        decreases upper.len() - i,
    {
        if same_text(upper[i].as_str(), wanted) {
            return true;
        }
        i = i + 1;
    }
    false
}

/// Finds the stray database files in a listing of the database directory.
pub fn find_orphans(entries: &Vec<DirectoryEntry>, targets: &Vec<DatabaseTarget>) -> (orphans: Vec<
    String,
>)
    ensures
        texts(orphans@) == orphans_among(entry_models(entries@), target_models(targets@)),
{
    let mut upper: Vec<String> = Vec::new();
    let mut t: usize = 0;
    while t < targets.len()
        invariant
            t <= targets.len(),
            upper.len() == t,
            forall|k: int|
                0 <= k < t ==> (#[trigger] upper[k])@ == uppercase_text(targets[k].file_path@),
        decreases targets.len() - t,
    {
        upper.push(to_uppercase(targets[t].file_path.as_str()));
        t = t + 1;
    }
    let ghost entry_seq = entry_models(entries@);
    let ghost target_seq = target_models(targets@);
    let mut orphans: Vec<String> = Vec::new();
    let mut i: usize = 0;
    assert(entry_seq.take(0) =~= Seq::empty());
    assert(texts(orphans@) =~= Seq::empty());
    while i < entries.len()
        invariant
            i <= entries.len(),
            entry_seq == entry_models(entries@),
            target_seq == target_models(targets@),
            upper.len() == targets.len(),
            forall|k: int|
                0 <= k < targets.len() ==> (#[trigger] upper[k])@ == uppercase_text(
                    targets[k].file_path@,
                ),
            texts(orphans@) == orphans_among(entry_seq.take(i as int), target_seq),
        decreases entries.len() - i,
    {
        let entry = &entries[i];
        let ghost prefix = entry_seq.take(i as int + 1);
        assert(prefix.drop_last() =~= entry_seq.take(i as int));
        assert(prefix.last() == entry@);
        let shout = to_uppercase(entry.path.as_str());
        let registered = names_upper(&upper, shout.as_str());
        proof {
            if registered {
                let w = choose|w: int| 0 <= w < upper.len() && (#[trigger] upper[w])@ == shout@;
                assert(uppercase_text(target_seq[w].file_path) == uppercase_text(entry@.path));
            } else {
                assert forall|w: int| 0 <= w < target_seq.len() implies uppercase_text(
                    #[trigger] target_seq[w].file_path,
                ) != uppercase_text(entry@.path) by {
                    assert(upper[w]@ != shout@);
                }
            }
            assert(registered == is_registered(entry@.path, target_seq));
        }
        if has_database_extension(entry) && !registered {
            let ghost before = texts(orphans@);
            orphans.push(entry.path.clone());
            assert(texts(orphans@) =~= before.push(entry@.path));
        }
        i = i + 1;
    }
    assert(entry_seq.take(entries.len() as int) =~= entry_seq);
    orphans
}

} // verus!
