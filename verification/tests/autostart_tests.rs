use audio_switcher::autostart::{
    autostart_key_name, autostart_state, create_task_args, delete_task_args, describe,
    disable_outcome, elevation_error, helper_action, helper_command, helper_exit_code,
    helper_failure_message, helper_params, needs_run_value_repair, query_task_args,
    quoted_command, reg_sz_bytes, run_entry_absent, run_entry_from_marker, run_value_data,
    run_value_lookup, set_autostart_mode, startup_approved_state, startup_marker_lookup,
    task_outcome, AdminTaskCache, AutostartSwitch, SwitchAction, SwitchEvent, SwitchStage, AutostartError, AutostartMode, AutostartState, AutostartStep,
    HelperCommand, RegStatus, RunEntry, HELPER_ARG_PREFIX, HELPER_TASK_OFF, HELPER_TASK_ON,
    LEGACY_AUTOSTART_KEYS, STARTUP_APPROVED_ENABLED,
};
use audio_switcher::shell::ShellError;
use audio_switcher::{display_name_for, TOOL_ID};

#[test]
fn key_names_locked() {
    assert_eq!(autostart_key_name(), "AudioSwitcher");
    assert_eq!(autostart_key_name(), display_name_for(TOOL_ID));
    assert_eq!(LEGACY_AUTOSTART_KEYS, ["audio-switcher", "Audio Switcher"]);
    assert!(!LEGACY_AUTOSTART_KEYS.contains(&autostart_key_name()));
}

#[test]
fn unknown_never_implies_off() {
    let unknown = AutostartState::Unknown("test".to_string());
    assert_ne!(unknown, AutostartState::Off);
    assert_ne!(unknown, AutostartState::User);
    assert_ne!(unknown, AutostartState::Admin);
}

#[test]
fn mode_maps_every_known_state_and_none_for_unknown() {
    assert_eq!(AutostartState::Off.mode(), Some(AutostartMode::Off));
    assert_eq!(AutostartState::User.mode(), Some(AutostartMode::User));
    assert_eq!(AutostartState::Admin.mode(), Some(AutostartMode::Admin));
    assert_eq!(AutostartState::Unknown("unreadable".into()).mode(), None);
}

#[test]
fn mode_defaults_to_user() {
    assert_eq!(AutostartMode::default(), AutostartMode::User);
}

#[test]
fn mode_json_is_lowercase_and_round_trips() {
    for (mode, json) in [
        (AutostartMode::Off, "\"off\""),
        (AutostartMode::User, "\"user\""),
        (AutostartMode::Admin, "\"admin\""),
    ] {
        assert_eq!(serde_json::to_string(mode.as_str()).expect("serializes"), json);
        let name: String = serde_json::from_str(json).expect("deserializes");
        assert_eq!(AutostartMode::from_name(&name), Some(mode));
    }
    assert_eq!(AutostartMode::from_name("Admin"), None);
}

#[test]
fn task_cache_defaults_to_absent() {
    assert!(!AdminTaskCache::new().admin_task_cached());
}

#[test]
fn helper_switch_is_not_a_normal_launch() {
    assert!(HELPER_ARG_PREFIX.starts_with("--"));
    assert!(HELPER_ARG_PREFIX.ends_with('='));
    assert_ne!(HELPER_TASK_ON, HELPER_TASK_OFF);
}

#[test]
fn describe_carries_exit_code_and_tool_output() {
    let detail = describe(b"boom \r\n", b"", Some(3));
    assert!(detail.contains("exit code 3"), "{detail}");
    assert!(detail.contains("boom"), "{detail}");
    assert_eq!(detail, "exit code 3: boom");
    assert_eq!(describe(b"out", b"  err  ", Some(1)), "exit code 1: err");
    assert_eq!(describe(b"", b"", Some(-2)), "exit code -2");
    assert_eq!(describe(b"  ", b"", None), "terminated without an exit code");
}

#[test]
fn startup_approved_state_follows_the_state_byte() {
    assert!(startup_approved_state(&[0x06, 0, 0, 0, 0, 0, 0, 0, 0, 0, 0, 0]));
    assert!(startup_approved_state(&[0x02, 0, 0, 0, 0, 0, 0, 0, 0, 0, 0, 0]));
    assert!(!startup_approved_state(&[0x03, 0, 0, 0, 0, 0, 0, 0, 0, 0, 0, 0]));
    assert!(!startup_approved_state(&[0x07, 0, 0, 0, 0, 0, 0, 0, 0, 0, 0, 0]));
    assert!(startup_approved_state(&[0x02, 0, 0, 0, 0x40, 0x9A, 0x2C, 0x3D, 0x8B, 0x0E, 0xDB, 0x01]));
    assert!(startup_approved_state(&[]));
    assert!(startup_approved_state(&STARTUP_APPROVED_ENABLED));
}

#[test]
fn the_menu_state_never_guesses_off() {
    assert_eq!(autostart_state(&Ok(RunEntry::Enabled), true), AutostartState::User);
    assert_eq!(autostart_state(&Ok(RunEntry::Disabled), false), AutostartState::Off);
    assert_eq!(autostart_state(&Ok(RunEntry::Absent), true), AutostartState::Admin);
    assert_eq!(
        autostart_state(&Err("denied".to_string()), false),
        AutostartState::Unknown("denied".to_string())
    );
    assert!(run_entry_absent(&Ok(RunEntry::Absent)));
    assert!(!run_entry_absent(&Ok(RunEntry::Disabled)));
    assert!(!run_entry_absent(&Err("x".to_string())));
    assert!(needs_run_value_repair(AutostartMode::User, true));
    assert!(!needs_run_value_repair(AutostartMode::User, false));
    assert!(!needs_run_value_repair(AutostartMode::Admin, true));
}

#[test]
fn switching_modes_clears_the_other_mechanism_first() {
    assert_eq!(
        set_autostart_mode(AutostartMode::Off),
        vec![AutostartStep::RemoveAdminTask, AutostartStep::SetRunValue(false)]
    );
    assert_eq!(
        set_autostart_mode(AutostartMode::User),
        vec![AutostartStep::RemoveAdminTask, AutostartStep::SetRunValue(true)]
    );
    assert_eq!(
        set_autostart_mode(AutostartMode::Admin),
        vec![
            AutostartStep::CreateAdminTask,
            AutostartStep::MarkAdminTaskPresent,
            AutostartStep::SetRunValue(false)
        ]
    );
}

#[test]
fn the_task_cache_follows_successful_queries_only() {
    let mut cache = AdminTaskCache::new();
    assert!(cache.admin_task_live(&Ok(true)));
    assert!(cache.admin_task_cached());
    assert!(cache.admin_task_live(&Err("busy".into())));
    cache.refresh_admin_task_cache(&Ok(false));
    assert!(!cache.admin_task_cached());
    cache.refresh_admin_task_cache(&Err("busy".into()));
    assert!(!cache.admin_task_cached());
    cache.set_admin_task_cached(true);
    assert!(cache.admin_task_cached());
}

#[test]
fn errors_read_as_the_user_sees_them() {
    assert_eq!(AutostartError::NoExePath.to_string(), "cannot determine executable path");
    assert_eq!(AutostartError::Enable("os".into()).to_string(), "failed to enable autostart");
    assert_eq!(AutostartError::Disable("os".into()).to_string(), "failed to disable autostart");
    assert_eq!(
        AutostartError::Elevation { code: 5 }.to_string(),
        "elevation declined or unavailable (code 5)"
    );
    assert_eq!(
        AutostartError::Task { action: "create", detail: "exit code 1".into() }.to_string(),
        "scheduled task create failed: exit code 1"
    );
    assert_eq!(
        helper_failure_message(&AutostartError::Elevation { code: 0 }),
        "AudioSwitcher could not change the startup task.\n\nelevation declined or unavailable (code 0)"
    );
}

#[test]
fn a_refused_relaunch_is_an_elevation_error() {
    let e = ShellError::Execute { target: "x".into(), code: 5 };
    assert_eq!(elevation_error(&e), AutostartError::Elevation { code: 5 });
    assert_eq!(elevation_error(&ShellError::InteriorNul), AutostartError::NoExePath);
}

#[test]
fn the_helper_reads_its_action_from_the_command_line() {
    let args: Vec<String> = vec!["app.exe".into(), "--autostart-helper=admin-on".into()];
    assert_eq!(helper_action(&args), Some("admin-on".to_string()));
    let args: Vec<String> = vec!["app.exe".into(), "--other".into()];
    assert_eq!(helper_action(&args), None);
    assert_eq!(helper_command("admin-on"), HelperCommand::CreateTask);
    assert_eq!(helper_command("admin-off"), HelperCommand::DeleteTask);
    assert_eq!(helper_command("bogus"), HelperCommand::Unknown);
    assert_eq!(helper_exit_code(&Ok(())), 0);
    assert_eq!(helper_exit_code(&Err(AutostartError::NoExePath)), 1);
    assert_eq!(helper_params("admin-off"), "--autostart-helper=admin-off");
}

#[test]
fn schtasks_arguments_quote_the_executable() {
    assert_eq!(quoted_command(r"C:\Program Files\a.exe"), r#""C:\Program Files\a.exe""#);
    assert_eq!(
        create_task_args(r"C:\a b\x.exe"),
        vec![
            "/Create", "/F", "/TN", "AudioSwitcher", "/TR", r#""C:\a b\x.exe""#, "/SC", "ONLOGON", "/RL",
            "HIGHEST"
        ]
    );
    assert_eq!(delete_task_args(), vec!["/Delete", "/F", "/TN", "AudioSwitcher"]);
    assert_eq!(query_task_args(), vec!["/Query", "/TN", "AudioSwitcher"]);
    assert_eq!(task_outcome("delete", true, String::new()), Ok(()));
    assert_eq!(
        task_outcome("delete", false, "exit code 1".into()),
        Err(AutostartError::Task { action: "delete", detail: "exit code 1".into() })
    );
}

#[test]
fn the_run_value_is_a_quoted_nul_terminated_wide_string() {
    let data = run_value_data("a");
    assert_eq!(data, vec![0x22, 0, 0x61, 0, 0x22, 0, 0, 0]);
    assert_eq!(reg_sz_bytes(&[0x1234, 0x00FF]), vec![0x34, 0x12, 0xFF, 0x00]);
}

#[test]
fn registry_statuses_decide_the_run_entry() {
    assert_eq!(run_value_lookup(RegStatus::NotFound, RegStatus::Success), Some(Ok(RunEntry::Absent)));
    assert_eq!(run_value_lookup(RegStatus::Failed(5), RegStatus::Success), Some(Err(5)));
    assert_eq!(run_value_lookup(RegStatus::Success, RegStatus::NotFound), Some(Ok(RunEntry::Absent)));
    assert_eq!(run_value_lookup(RegStatus::Success, RegStatus::Failed(2)), Some(Err(2)));
    assert_eq!(run_value_lookup(RegStatus::Success, RegStatus::Success), None);
    assert_eq!(run_entry_from_marker(Ok(true)), Ok(RunEntry::Enabled));
    assert_eq!(run_entry_from_marker(Ok(false)), Ok(RunEntry::Disabled));
    assert_eq!(run_entry_from_marker(Err(7)), Err(7));
    assert_eq!(startup_marker_lookup(RegStatus::NotFound, RegStatus::Success), Some(Ok(true)));
    assert_eq!(startup_marker_lookup(RegStatus::Success, RegStatus::NotFound), Some(Ok(true)));
    assert_eq!(startup_marker_lookup(RegStatus::Success, RegStatus::Failed(1)), Some(Err(1)));
    assert_eq!(startup_marker_lookup(RegStatus::Success, RegStatus::Success), None);
    assert_eq!(disable_outcome(RegStatus::NotFound, RegStatus::Success), Ok(()));
    assert_eq!(disable_outcome(RegStatus::Success, RegStatus::NotFound), Ok(()));
    assert_eq!(disable_outcome(RegStatus::Success, RegStatus::Failed(5)), Err(5));
    assert_eq!(disable_outcome(RegStatus::Failed(5), RegStatus::Success), Err(5));
}

#[test]
fn switching_to_user_removes_a_present_task_then_writes_the_run_value() {
    let mut cache = AdminTaskCache::new();
    cache.set_admin_task_cached(true);
    let (mut sw, first) = AutostartSwitch::start(AutostartMode::User, cache);
    assert_eq!(first, SwitchAction::QueryAdminTask);
    assert_eq!(sw.step(SwitchEvent::TaskQueried(Ok(true))), SwitchAction::LaunchHelper(HelperCommand::DeleteTask));
    assert_eq!(sw.step(SwitchEvent::HelperLaunched(Ok(()))), SwitchAction::WriteRunValue(true));
    assert!(!sw.cache.admin_task_cached(), "a removed task is recorded absent");
    assert_eq!(sw.step(SwitchEvent::RunValueWritten(Ok(()))), SwitchAction::Finish(Ok(())));
    assert_eq!(sw.stage, SwitchStage::Done);
}

#[test]
fn switching_off_skips_an_absent_task() {
    let (mut sw, _) = AutostartSwitch::start(AutostartMode::Off, AdminTaskCache::new());
    assert_eq!(sw.step(SwitchEvent::TaskQueried(Err("busy".into()))), SwitchAction::WriteRunValue(false));
    assert_eq!(
        sw.step(SwitchEvent::RunValueWritten(Err(AutostartError::Disable("denied".into())))),
        SwitchAction::Finish(Err(AutostartError::Disable("denied".into())))
    );
    assert!(!sw.cache.admin_task_cached());
}

#[test]
fn switching_to_admin_creates_the_task_first_and_stops_on_a_refused_prompt() {
    let (mut sw, first) = AutostartSwitch::start(AutostartMode::Admin, AdminTaskCache::new());
    assert_eq!(first, SwitchAction::LaunchHelper(HelperCommand::CreateTask));
    let refused = ShellError::Execute { target: "x".into(), code: 5 };
    assert_eq!(
        sw.step(SwitchEvent::HelperLaunched(Err(refused))),
        SwitchAction::Finish(Err(AutostartError::Elevation { code: 5 }))
    );
    assert!(!sw.cache.admin_task_cached(), "a failed creation leaves the cache alone");

    let (mut sw, _) = AutostartSwitch::start(AutostartMode::Admin, AdminTaskCache::new());
    assert_eq!(sw.step(SwitchEvent::HelperLaunched(Ok(()))), SwitchAction::WriteRunValue(false));
    assert!(sw.cache.admin_task_cached());
    assert_eq!(sw.step(SwitchEvent::RunValueWritten(Ok(()))), SwitchAction::Finish(Ok(())));

    let (mut sw, _) = AutostartSwitch::start(AutostartMode::Admin, AdminTaskCache::new());
    assert_eq!(sw.step(SwitchEvent::ExePathUnknown), SwitchAction::Finish(Err(AutostartError::NoExePath)));
}
