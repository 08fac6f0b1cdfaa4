use emergency_backup::config::BackupConfig;
use emergency_backup::coordinator::{abort_backup, resolve_choice, BackupCoordinator};
use emergency_backup::dialog::{ButtonPress, Choice, ConfirmGui, ErrorGui, FileExtension};
use emergency_backup::stats::BackupStats;

#[test]
fn first_caller_wins_and_later_callers_observe_busy() {
    let mut c = BackupCoordinator::new();
    assert!(c.run_if_free());
    assert!(!c.run_if_free());
    assert!(!abort_backup(&mut c));
}

#[test]
fn abort_claims_the_decision_without_a_pass() {
    let mut c = BackupCoordinator::new();
    assert!(abort_backup(&mut c));
    assert!(!c.run_if_free());
}

#[test]
fn reset_is_the_explicit_re_arming_transition() {
    let mut c = BackupCoordinator::new();
    assert!(c.run_if_free());
    assert!(!c.run_if_free());
    c.reset();
    assert!(c.run_if_free());
}

#[test]
fn gui_choice_converges_on_the_coordinator() {
    let mut c = BackupCoordinator::new();
    // a closing dialog claims nothing
    assert!(!resolve_choice(&mut c, Choice::CloseGui));
    // a confirming dialog on a free coordinator runs the pass
    assert!(resolve_choice(&mut c, Choice::Yes));
    // the gesture path then loses the race
    assert!(!c.run_if_free());

    let mut c2 = BackupCoordinator::new();
    // a declining dialog claims the decision without a pass
    assert!(!resolve_choice(&mut c2, Choice::No));
    assert!(!resolve_choice(&mut c2, Choice::Yes));
}

#[test]
fn confirm_dialog_yields_to_an_existing_decision() {
    let gui = ConfirmGui::new();
    assert_eq!(gui.decide(true, Some(ButtonPress::Yes)), Some(Choice::CloseGui));
    assert_eq!(gui.decide(false, Some(ButtonPress::Yes)), Some(Choice::Yes));
    assert_eq!(gui.decide(false, Some(ButtonPress::No)), Some(Choice::No));
    assert_eq!(gui.decide(false, None), None);
}

#[test]
fn error_dialog_carries_its_message() {
    let gui = ErrorGui::new("no configuration found".to_string());
    assert_eq!(gui.message, "no configuration found");
}

#[test]
fn file_extension_labels_round_trip() {
    for ext in FileExtension::all() {
        assert_eq!(FileExtension::from_str(ext.to_string()), Some(ext));
    }
    assert_eq!(FileExtension::from_str("bogus"), None);
    assert_eq!(FileExtension::all().len(), 6);
    assert_eq!(FileExtension::Txt.to_string(), "txt");
    assert_eq!(FileExtension::All.to_string(), "All");
}

#[test]
fn default_config_has_only_the_log_name_set() {
    let c = BackupConfig::new();
    assert_eq!(c.source, "");
    assert_eq!(c.destination, "");
    assert!(c.excluded_extensions.is_empty());
    assert!(c.excluded_directories.is_empty());
    assert_eq!(c.log_filename, "backup_log.txt");
    assert!(!c.autostart_enabled);
}

#[test]
fn saving_requires_source_destination_and_log_name() {
    let mut c = BackupConfig::new();
    assert!(!c.save_ready());
    c.source = "/s".to_string();
    c.destination = "/d".to_string();
    assert!(c.save_ready());
    c.log_filename = String::new();
    assert!(!c.save_ready());
}

#[test]
fn autostart_transition_only_changes_a_mismatched_registration() {
    let mut c = BackupConfig::new();
    c.autostart_enabled = true;
    assert_eq!(c.autostart_transition(false), Some(true));
    assert_eq!(c.autostart_transition(true), None);
    c.autostart_enabled = false;
    assert_eq!(c.autostart_transition(true), Some(false));
    assert_eq!(c.autostart_transition(false), None);
}

#[test]
fn counter_overflow_sets_the_flag_and_keeps_the_value()
{
    let mut s = BackupStats::new();
    s.record_added(u64::MAX);
    assert_eq!(s.added_size, u64::MAX);
    assert!(!s.overflow);
    s.record_added(1);
    assert_eq!(s.added_size, u64::MAX);
    assert!(s.overflow);
    s.record_removed(7);
    assert_eq!(s.removed_size, 7);
    assert!(s.overflow);
}

#[test]
fn net_delta_reports_an_explicit_sign() {
    let mut s = BackupStats::new();
    s.record_added(10);
    s.record_removed(3);
    let d = s.net_delta();
    assert!(!d.negative);
    assert_eq!(d.magnitude, 7);

    let mut s2 = BackupStats::new();
    s2.record_added(3);
    s2.record_removed(10);
    let d2 = s2.net_delta();
    assert!(d2.negative);
    assert_eq!(d2.magnitude, 7);
}

#[test]
fn reset_zeroes_the_counters() {
    let mut s = BackupStats::new();
    s.record_added(10);
    s.record_removed(u64::MAX);
    s.record_removed(1);
    assert!(s.overflow);
    s.reset();
    assert_eq!(s, BackupStats { added_size: 0, removed_size: 0, overflow: false });
}
