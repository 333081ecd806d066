//! The commands of the tool.

use vstd::prelude::*;

verus! {

/// The command line: one command.
#[derive(Clone, Copy, Debug, PartialEq, Eq)]
pub struct Cli {
    pub command: Command,
}

/// What the tool is asked to do.
#[derive(Clone, Copy, Debug, PartialEq, Eq)]
pub enum Command {
    /// Run the three levels of diagnosis one after the other.
    Diagnose,
    /// Level 1: detection of the biometric devices.
    CheckHardware,
    /// Level 2: state and configuration of the biometric service.
    CheckDriver,
    /// Level 3: enumeration of the sensor units and a session test.
    CheckSensor,
    /// List the enrolled fingerprints of the user who touches the sensor.
    ListFingerprints,
    /// Identify the user who touches the sensor.
    Identify,
    /// Verify that a finger matches its enrolled template.
    Verify { finger: u8 },
    /// Capture a raw sample.
    Capture,
    /// Delete the template of a finger.
    Delete { finger: u8 },
    /// Enroll a finger.
    Enroll { finger: u8 },
    /// List the storage databases.
    EnumDatabases,
    /// Delete the file of a database by its number in the listing.
    DeleteDatabase { db: usize },
    /// Check whether a credential is linked to the biometric identity.
    CredentialState,
}

/// One of the checks and operations a command is made of.
#[derive(Clone, Copy, Debug, PartialEq, Eq, Structural)]
pub enum Task {
    Banner,
    ElevationNotice,
    CheckHardware,
    CheckService,
    CheckSensor,
    Closing,
    ListFingerprints,
    Identify,
    Verify { finger: u8 },
    Capture,
    Delete { finger: u8 },
    Enroll { finger: u8 },
    EnumDatabases,
    DeleteDatabase { db: usize },
    CredentialState,
}

impl Command {
    /// What a command does, in order: the full diagnosis is the three
    /// checks between a banner with the elevation notice and a closing line;
    /// every other command is one operation.
    pub open spec fn tasks_spec(self) -> Seq<Task> {
        match self {
            Command::Diagnose => seq![
                Task::Banner,
                Task::ElevationNotice,
                Task::CheckHardware,
                Task::CheckService,
                Task::CheckSensor,
                Task::Closing,
            ],
            Command::CheckHardware => seq![Task::CheckHardware],
            Command::CheckDriver => seq![Task::CheckService],
            Command::CheckSensor => seq![Task::CheckSensor],
            Command::ListFingerprints => seq![Task::ListFingerprints],
            Command::Identify => seq![Task::Identify],
            Command::Verify { finger } => seq![Task::Verify { finger }],
            Command::Capture => seq![Task::Capture],
            Command::Delete { finger } => seq![Task::Delete { finger }],
            Command::Enroll { finger } => seq![Task::Enroll { finger }],
            Command::EnumDatabases => seq![Task::EnumDatabases],
            Command::DeleteDatabase { db } => seq![Task::DeleteDatabase { db }],
            Command::CredentialState => seq![Task::CredentialState],
        }
    }

    /// What the command does, in order.
    pub fn tasks(&self) -> (tasks: Vec<Task>)
        ensures
            tasks@ == self.tasks_spec(),
    {
        let mut tasks: Vec<Task> = Vec::new();
        match *self {
            Command::Diagnose => {
                tasks.push(Task::Banner);
                tasks.push(Task::ElevationNotice);
                tasks.push(Task::CheckHardware);
                tasks.push(Task::CheckService);
                tasks.push(Task::CheckSensor);
                tasks.push(Task::Closing);
            },
            Command::CheckHardware => tasks.push(Task::CheckHardware),
            Command::CheckDriver => tasks.push(Task::CheckService),
            Command::CheckSensor => tasks.push(Task::CheckSensor),
            Command::ListFingerprints => tasks.push(Task::ListFingerprints),
            Command::Identify => tasks.push(Task::Identify),
            Command::Verify { finger } => tasks.push(Task::Verify { finger }),
            Command::Capture => tasks.push(Task::Capture),
            Command::Delete { finger } => tasks.push(Task::Delete { finger }),
            Command::Enroll { finger } => tasks.push(Task::Enroll { finger }),
            Command::EnumDatabases => tasks.push(Task::EnumDatabases),
            Command::DeleteDatabase { db } => tasks.push(Task::DeleteDatabase { db }),
            Command::CredentialState => tasks.push(Task::CredentialState),
        }
        assert(tasks@ =~= self.tasks_spec());
        tasks
    }
}

} // verus!
