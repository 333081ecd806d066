//! Removing devices and reinstalling the driver of the biometric device: the
//! scripts that are run, what their output means, and the order of the steps.

use vstd::prelude::*;
use vstd::string::*;
use crate::devices::BiometricDevice;
use crate::maintenance::targets::DirectoryEntry;
use crate::text::{same_text, trim, trimmed_text};

verus! {

/// A text with every single quote doubled, as it has to stand between
/// single quotes in a script.
pub open spec fn quoted_text(s: Seq<char>) -> Seq<char>
    decreases s.len(),
{
    if s.len() == 0 {
        Seq::empty()
    } else if s.last() == '\'' {
        quoted_text(s.drop_last()) + seq!['\'', '\'']
    } else {
        quoted_text(s.drop_last()).push(s.last())
    }
}

/// Doubles every single quote of a text.
pub fn escape_single_quotes(s: &str) -> (r: String)
    ensures
        r@ == quoted_text(s@),
{
    let len = s.unicode_len();
    let mut out = String::new();
    let mut i: usize = 0;
    assert(s@.take(0) =~= Seq::<char>::empty());
    while i < len
        invariant
            i <= len,
            len == s@.len(),
            out@ == quoted_text(s@.take(i as int)),
        decreases len - i,
    {
        let c = s.get_char(i);
        let ghost upto = s@.take(i as int + 1);
        let ghost before = out@;
        assert(upto.drop_last() =~= s@.take(i as int));
        assert(upto.last() == c);
        out.push(c);
        if c == '\'' {
            out.push('\'');
            assert(out@ =~= before + seq!['\'', '\'']);
        }
        i = i + 1;
    }
    assert(s@.take(len as int) =~= s@);
    out
}

/// The script that asks for the driver package of a device.
pub open spec fn driver_inf_script_text(instance_id: Seq<char>) -> Seq<char> {
    "(Get-PnpDeviceProperty -InstanceId '"@ + quoted_text(instance_id)
        + "' -KeyName 'DEVPKEY_Device_DriverInfPath').Data"@
}

/// Writes the script that asks for the driver package of a device.
pub fn driver_inf_script(instance_id: &str) -> (r: String)
    ensures
        r@ == driver_inf_script_text(instance_id@),
{
    let mut s = String::from_str("(Get-PnpDeviceProperty -InstanceId '");
    let quoted = escape_single_quotes(instance_id);
    s.append(quoted.as_str());
    s.append("' -KeyName 'DEVPKEY_Device_DriverInfPath').Data");
    s
}

/// The name of the driver package in the answer of the script: the answer
/// without the white space around it, and none if nothing is left.
pub fn driver_inf_name(output: &str) -> (r: Option<String>)
    ensures
        match r {
            Some(name) => name@ == trimmed_text(output@) && name@.len() > 0,
            None => trimmed_text(output@).len() == 0,
        },
{
    let name = trim(output);
    if name.unicode_len() == 0 {
        None
    } else {
        Some(String::from_str(name))
    }
}

/// Where the first file with the extension `inf` stands among the files of
/// an exported driver package.
pub fn first_inf(entries: &Vec<DirectoryEntry>) -> (r: Option<usize>)
    ensures
        match r {
            Some(at) => {
                &&& at < entries@.len()
                &&& entries@[at as int]@.extension == Some("inf"@)
                &&& forall|k: int| 0 <= k < at ==> entries@[k]@.extension != Some("inf"@)
            },
            None => forall|k: int| 0 <= k < entries@.len() ==> entries@[k]@.extension != Some(
                "inf"@,
            ),
        },
{
    let mut i: usize = 0;
    while i < entries.len()
        invariant
            i <= entries.len(),
            forall|k: int| 0 <= k < i ==> entries@[k]@.extension != Some("inf"@),
        decreases entries.len() - i,
    {
        let found = match &entries[i].extension {
            Some(e) => same_text(e.as_str(), "inf"),
            None => false,
        };
        if found {
            return Some(i);
        }
        i = i + 1;
    }
    None
}

/// What a removal is asked to act on.
#[derive(Debug, PartialEq, Eq)]
pub enum RemovalTargets {
    /// The device with the given instance identifier.
    Named { instance_id: String },
    /// Every phantom biometric device that is found.
    Phantoms,
}

/// Picks what a removal acts on: the named device if one is named, the
/// phantom devices if those are asked for, and nothing if neither is given.
pub fn removal_targets(instance_id: Option<String>, phantom: bool) -> (r: Option<RemovalTargets>)
    ensures
        match r {
            Some(RemovalTargets::Named { instance_id: id }) => instance_id == Some(id),
            Some(RemovalTargets::Phantoms) => instance_id is None && phantom,
            None => instance_id is None && !phantom,
        },
{
    match instance_id {
        Some(id) => Some(RemovalTargets::Named { instance_id: id }),
        None => if phantom {
            Some(RemovalTargets::Phantoms)
        } else {
            None
        },
    }
}

/// How many of the results are `wanted`.
pub open spec fn count_of(results: Seq<bool>, wanted: bool) -> nat
    decreases results.len(),
{
    if results.len() == 0 {
        0
    } else {
        count_of(results.drop_last(), wanted) + if results.last() == wanted {
            1nat
        } else {
            0nat
        }
    }
}

/// How many removals succeeded and how many failed.
#[derive(Clone, Copy, Debug, PartialEq, Eq, Structural)]
pub struct RemovalTally {
    pub removed: usize,
    pub failed: usize,
}

/// Counts the removals that succeeded and those that failed.
pub fn tally_removals(results: &Vec<bool>) -> (tally: RemovalTally)
    ensures
        tally.removed == count_of(results@, true),
        tally.failed == count_of(results@, false),
        tally.removed + tally.failed == results@.len(),
{
    let mut removed: usize = 0;
    let mut failed: usize = 0;
    let mut i: usize = 0;
    assert(results@.take(0) =~= Seq::<bool>::empty());
    while i < results.len()
        invariant
            i <= results.len(),
            removed == count_of(results@.take(i as int), true),
            failed == count_of(results@.take(i as int), false),
            removed + failed == i,
        decreases results.len() - i,
    {
        let ghost upto = results@.take(i as int + 1);
        assert(upto.drop_last() =~= results@.take(i as int));
        assert(upto.last() == results@[i as int]);
        if results[i] {
            removed = removed + 1;
        } else {
            failed = failed + 1;
        }
        i = i + 1;
    }
    assert(results@.take(results@.len() as int) =~= results@);
    RemovalTally { removed, failed }
}

/// Time to let the system settle after the driver was installed, in
/// milliseconds.
pub const SETTLE_MS: u64 = 2000;

/// Where a reinstallation stands.
#[derive(Clone, Copy, PartialEq, Eq, Debug, Structural)]
pub enum ReinstallPhase {
    AwaitElevation,
    AwaitDevices,
    AwaitDriverName,
    AwaitExport,
    AwaitUninstall,
    AwaitInstall,
    AwaitSettled,
    AwaitDevicesAfter,
    Finished,
}

/// Why a reinstallation failed.
#[derive(Clone, Copy, PartialEq, Eq, Debug, Structural)]
pub enum ReinstallError {
    ElevationUnknown,
    NotElevated,
    /// The devices could not be listed.
    ListingFailed,
    NoDevices,
    /// The driver package of the device could not be determined.
    DriverUnknown,
    /// The driver package could not be backed up; nothing was removed.
    ExportFailed,
    /// The driver could not be installed again; its backup is kept.
    InstallFailed,
}

/// How a reinstallation ended.
#[derive(Clone, Copy, PartialEq, Eq, Debug, Structural)]
pub enum ReinstallOutcome {
    /// The driver was installed again; `device_present` tells whether a
    /// device was found afterwards, `uninstalled` whether the old driver had
    /// been removed before.
    Reinstalled { device_present: bool, uninstalled: bool },
    Failed { error: ReinstallError },
}

/// What the caller is to do next.
#[derive(Clone, Copy, PartialEq, Eq, Debug, Structural)]
pub enum ReinstallAction {
    CheckElevation,
    FindDevices,
    /// Ask for the driver package of the first device.
    QueryDriverName,
    /// Back the driver package up.
    ExportDriver,
    UninstallDriver,
    /// Install the driver from its backup.
    InstallDriver,
    /// Pause for the given time.
    Settle { delay_ms: u64 },
    /// List the devices once more.
    FindDevicesAgain,
    /// The reinstallation is over; `remove_backup` tells whether the backup
    /// is no longer needed.
    Finish { outcome: ReinstallOutcome, remove_backup: bool },
    /// The report does not answer what the reinstallation is waiting for;
    /// nothing changed.
    OutOfTurn,
}

/// What the caller reports back.
#[derive(Clone, Copy, Debug)]
pub enum ReinstallEvent {
    /// Whether the process is elevated, if that is known.
    Elevation { elevated: Option<bool> },
    /// How many devices were found, if they could be listed.
    Devices { count: Option<usize> },
    /// Whether the step that was asked for succeeded.
    Done { ok: bool },
}

/// A reinstallation of the driver in progress.
#[derive(Clone, Copy, PartialEq, Eq, Debug, Structural)]
pub struct DriverReinstall {
    pub phase: ReinstallPhase,
    /// Whether the old driver was removed.
    pub uninstalled: bool,
}

impl DriverReinstall {
    /// The reinstallation ends with an error.
    pub open spec fn fail(self, error: ReinstallError, remove_backup: bool) -> (
        DriverReinstall,
        ReinstallAction,
    ) {
        (
            DriverReinstall { phase: ReinstallPhase::Finished, ..self },
            ReinstallAction::Finish { outcome: ReinstallOutcome::Failed { error }, remove_backup },
        )
    }

    /// The reinstallation goes on to the given phase with the given action.
    pub open spec fn go(self, phase: ReinstallPhase, action: ReinstallAction) -> (
        DriverReinstall,
        ReinstallAction,
    ) {
        (DriverReinstall { phase, ..self }, action)
    }

    /// One step of a reinstallation. Nothing is removed before the driver
    /// is backed up; a failed removal does not keep the driver from being
    /// installed again; and the backup is removed only once the driver is
    /// installed.
    pub open spec fn step_spec(self, event: ReinstallEvent) -> (DriverReinstall, ReinstallAction) {
        match (self.phase, event) {
            (ReinstallPhase::AwaitElevation, ReinstallEvent::Elevation { elevated }) => match elevated {
                None => self.fail(ReinstallError::ElevationUnknown, false),
                Some(false) => self.fail(ReinstallError::NotElevated, false),
                Some(true) => self.go(ReinstallPhase::AwaitDevices, ReinstallAction::FindDevices),
            },
            (ReinstallPhase::AwaitDevices, ReinstallEvent::Devices { count }) => match count {
                None => self.fail(ReinstallError::ListingFailed, false),
                Some(n) => if n == 0 {
                    self.fail(ReinstallError::NoDevices, false)
                } else {
                    self.go(ReinstallPhase::AwaitDriverName, ReinstallAction::QueryDriverName)
                },
            },
            (ReinstallPhase::AwaitDriverName, ReinstallEvent::Done { ok }) => if ok {
                self.go(ReinstallPhase::AwaitExport, ReinstallAction::ExportDriver)
            } else {
                self.fail(ReinstallError::DriverUnknown, false)
            },
            (ReinstallPhase::AwaitExport, ReinstallEvent::Done { ok }) => if ok {
                self.go(ReinstallPhase::AwaitUninstall, ReinstallAction::UninstallDriver)
            } else {
                self.fail(ReinstallError::ExportFailed, false)
            },
            (ReinstallPhase::AwaitUninstall, ReinstallEvent::Done { ok }) => (
                DriverReinstall { phase: ReinstallPhase::AwaitInstall, uninstalled: ok },
                ReinstallAction::InstallDriver,
            ),
            (ReinstallPhase::AwaitInstall, ReinstallEvent::Done { ok }) => if ok {
                self.go(
                    ReinstallPhase::AwaitSettled,
                    ReinstallAction::Settle { delay_ms: SETTLE_MS },
                )
            } else {
                self.fail(ReinstallError::InstallFailed, false)
            },
            (ReinstallPhase::AwaitSettled, ReinstallEvent::Done { ok }) => self.go(
                ReinstallPhase::AwaitDevicesAfter,
                ReinstallAction::FindDevicesAgain,
            ),
            (ReinstallPhase::AwaitDevicesAfter, ReinstallEvent::Devices { count }) => match count {
                None => self.fail(ReinstallError::ListingFailed, false),
                Some(n) => (
                    DriverReinstall { phase: ReinstallPhase::Finished, ..self },
                    ReinstallAction::Finish {
                        outcome: ReinstallOutcome::Reinstalled {
                            device_present: n > 0,
                            uninstalled: self.uninstalled,
                        },
                        remove_backup: true,
                    },
                ),
            },
            _ => (self, ReinstallAction::OutOfTurn),
        }
    }

    /// Begins a reinstallation.
    pub fn new() -> (r: (DriverReinstall, ReinstallAction))
        ensures
            r.0 == (DriverReinstall { phase: ReinstallPhase::AwaitElevation, uninstalled: false }),
            r.1 == ReinstallAction::CheckElevation,
    {
        (
            DriverReinstall { phase: ReinstallPhase::AwaitElevation, uninstalled: false },
            ReinstallAction::CheckElevation,
        )
    }

    fn failed(&mut self, error: ReinstallError) -> (action: ReinstallAction)
        ensures
            (*final(self), action) == old(self).fail(error, false),
    {
        self.phase = ReinstallPhase::Finished;
        ReinstallAction::Finish { outcome: ReinstallOutcome::Failed { error }, remove_backup: false }
    }

    /// Takes in a report and says what to do next.
    pub fn step(&mut self, event: ReinstallEvent) -> (action: ReinstallAction)
        ensures
            (*final(self), action) == old(self).step_spec(event),
    {
        match (self.phase, event) {
            (ReinstallPhase::AwaitElevation, ReinstallEvent::Elevation { elevated }) => {
                match elevated {
                    None => self.failed(ReinstallError::ElevationUnknown),
                    Some(false) => self.failed(ReinstallError::NotElevated),
                    Some(true) => {
                        self.phase = ReinstallPhase::AwaitDevices;
                        ReinstallAction::FindDevices
                    },
                }
            },
            (ReinstallPhase::AwaitDevices, ReinstallEvent::Devices { count }) => {
                match count {
                    None => self.failed(ReinstallError::ListingFailed),
                    Some(n) => {
                        if n == 0 {
                            self.failed(ReinstallError::NoDevices)
                        } else {
                            self.phase = ReinstallPhase::AwaitDriverName;
                            ReinstallAction::QueryDriverName
                        }
                    },
                }
            },
            (ReinstallPhase::AwaitDriverName, ReinstallEvent::Done { ok }) => {
                if ok {
                    self.phase = ReinstallPhase::AwaitExport;
                    ReinstallAction::ExportDriver
                } else {
                    self.failed(ReinstallError::DriverUnknown)
                }
            },
            (ReinstallPhase::AwaitExport, ReinstallEvent::Done { ok }) => {
                if ok {
                    self.phase = ReinstallPhase::AwaitUninstall;
                    ReinstallAction::UninstallDriver
                } else {
                    self.failed(ReinstallError::ExportFailed)
                }
            },
            (ReinstallPhase::AwaitUninstall, ReinstallEvent::Done { ok }) => {
                self.phase = ReinstallPhase::AwaitInstall;
                self.uninstalled = ok;
                ReinstallAction::InstallDriver
            },
            (ReinstallPhase::AwaitInstall, ReinstallEvent::Done { ok }) => {
                if ok {
                    self.phase = ReinstallPhase::AwaitSettled;
                    ReinstallAction::Settle { delay_ms: SETTLE_MS }
                } else {
                    self.failed(ReinstallError::InstallFailed)
                }
            },
            (ReinstallPhase::AwaitSettled, ReinstallEvent::Done { ok }) => {
                self.phase = ReinstallPhase::AwaitDevicesAfter;
                ReinstallAction::FindDevicesAgain
            },
            (ReinstallPhase::AwaitDevicesAfter, ReinstallEvent::Devices { count }) => {
                match count {
                    None => self.failed(ReinstallError::ListingFailed),
                    Some(n) => {
                        self.phase = ReinstallPhase::Finished;
                        ReinstallAction::Finish {
                            outcome: ReinstallOutcome::Reinstalled {
                                device_present: n > 0,
                                uninstalled: self.uninstalled,
                            },
                            remove_backup: true,
                        }
                    },
                }
            },
            _ => ReinstallAction::OutOfTurn,
        }
    }
}

/// The device a reinstallation acts on: the first that was found.
pub fn first_device(devices: &Vec<BiometricDevice>) -> (r: Option<&BiometricDevice>)
    ensures
        match r {
            Some(device) => devices@.len() > 0 && *device == devices@[0],
            None => devices@.len() == 0,
        },
{
    if devices.len() > 0 {
        Some(&devices[0])
    } else {
        None
    }
}

/// The driver is never removed before it was backed up: removal is asked
/// for only in answer to a backup that succeeded.
pub proof fn lemma_no_removal_without_backup(m: DriverReinstall, event: ReinstallEvent)
    requires
        m.step_spec(event).1 == ReinstallAction::UninstallDriver,
    ensures
        m.phase == ReinstallPhase::AwaitExport,
        event matches ReinstallEvent::Done { ok: true },
{
}

/// Once removal was asked for, the driver is installed again whether the
/// removal succeeded or not.
pub proof fn lemma_removal_is_followed_by_install(m: DriverReinstall, ok: bool)
    requires
        m.phase == ReinstallPhase::AwaitUninstall,
    ensures
        m.step_spec(ReinstallEvent::Done { ok }).1 == ReinstallAction::InstallDriver,
{
}

} // verus!
