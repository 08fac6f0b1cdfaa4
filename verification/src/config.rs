//! Persisted user settings.
//!
//! The configuration is stored as JSON by the shell; the library only
//! holds the values and the decisions about them: whether the
//! configuration is complete enough to save, and what change the
//! saved autostart flag requires of the system's autostart
//! registration.

use vstd::prelude::*;

verus! {

/// The persisted backup settings.
#[derive(Debug, Clone, PartialEq, Eq)]
pub struct BackupConfig {
    /// Directory to back up.
    pub source: String,
    /// Directory that receives the copies.
    pub destination: String,
    /// Extensions whose files are excluded from the backup.
    pub excluded_extensions: Vec<String>,
    /// Directories excluded from the backup: an absolute path, a path
    /// fragment matched as a suffix, or a bare name matched exactly.
    pub excluded_directories: Vec<String>,
    /// Name of the completion log written into the destination.
    pub log_filename: String,
    /// Whether the tool should start with the session.  Not persisted
    /// in the JSON file; mirrored from the system registration.
    pub autostart_enabled: bool,
}

impl BackupConfig {
    /// The default configuration: everything empty but the log file
    /// name.  Loading saved values, and falling back to these
    /// defaults when the saved file is missing or malformed, is the
    /// shell's job.
    pub fn new() -> (c: BackupConfig)
        ensures
            c.source@ == Seq::<char>::empty(),
            c.destination@ == Seq::<char>::empty(),
            c.excluded_extensions@.len() == 0,
            c.excluded_directories@.len() == 0,
            c.log_filename@ == "backup_log.txt"@,
            !c.autostart_enabled,
    {
        BackupConfig {
            source: String::new(),
            destination: String::new(),
            excluded_extensions: Vec::new(),
            excluded_directories: Vec::new(),
            log_filename: String::from_str("backup_log.txt"),
            autostart_enabled: false,
        }
    }

    /// Whether the configuration may be saved: source, destination
    /// and log file name must all be set.
    pub fn save_ready(&self) -> (r: bool)
        ensures
            r == (self.source@.len() > 0 && self.destination@.len() > 0
                && self.log_filename@.len() > 0),
    {
        !self.source.as_str().is_empty() && !self.destination.as_str().is_empty()
            && !self.log_filename.as_str().is_empty()
    }

    /// The autostart registration change that saving requires, given
    /// whether the system registration currently exists: `Some(true)`
    /// to register, `Some(false)` to unregister, `None` when the
    /// system already matches the configuration.
    pub fn autostart_transition(&self, currently_enabled: bool) -> (r: Option<bool>)
        ensures
            r == (if self.autostart_enabled && !currently_enabled {
                Some(true)
            } else if !self.autostart_enabled && currently_enabled {
                Some(false)
            } else {
                None::<bool>
            }),
    {
        if self.autostart_enabled && !currently_enabled {
            Some(true)
        } else if !self.autostart_enabled && currently_enabled {
            Some(false)
        } else {
            None
        }
    }
}

} // verus!
