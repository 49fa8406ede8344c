//! Auto-launch at logon: the three mechanisms, the read-back of which one is
//! installed, and the steps that switch between them.
//!
//! Read failures are [`AutostartState::Unknown`]: the UI grays the group out,
//! it never pretends the setting is off, and nothing is written on `Unknown`.

use vstd::prelude::*;
use vstd::string::*;
use crate::text;
use crate::shell::ShellError;
use crate::utf16;

verus! {

/// Which autostart mechanism the user picked.
#[derive(Debug, Clone, Copy, PartialEq, Eq, Structural)]
pub enum AutostartMode {
    Off,
    /// Current-user `Run` value; starts at the caller's integrity level.
    User,
    /// Logon scheduled task with highest privileges.
    Admin,
}

impl Default for AutostartMode {
    /// `User`: the default a pre-mode config's `autostart: true` meant.
    fn default() -> (r: AutostartMode)
        ensures
            r == AutostartMode::User,
    {
        AutostartMode::User
    }
}

impl AutostartMode {
    pub open spec fn spec_as_str(self) -> Seq<char> {
        match self {
            AutostartMode::Off => "off"@,
            AutostartMode::User => "user"@,
            AutostartMode::Admin => "admin"@,
        }
    }

    /// The config-file spelling (`off`, `user`, `admin`).
    pub fn as_str(self) -> (r: &'static str)
        ensures
            r@ == self.spec_as_str(),
    {
        match self {
            AutostartMode::Off => "off",
            AutostartMode::User => "user",
            AutostartMode::Admin => "admin",
        }
    }

    /// The mode a config-file spelling names, if any.
    pub open spec fn from_name_spec(name: Seq<char>) -> Option<AutostartMode> {
        if name == "off"@ {
            Some(AutostartMode::Off)
        } else if name == "user"@ {
            Some(AutostartMode::User)
        } else if name == "admin"@ {
            Some(AutostartMode::Admin)
        } else {
            None
        }
    }

    /// The mode a config-file spelling names, if any.
    pub fn from_name(name: &str) -> (r: Option<AutostartMode>)
        ensures
            r == AutostartMode::from_name_spec(name@),
    {
        if text::str_eq(name, "off") {
            Some(AutostartMode::Off)
        } else if text::str_eq(name, "user") {
            Some(AutostartMode::User)
        } else if text::str_eq(name, "admin") {
            Some(AutostartMode::Admin)
        } else {
            None
        }
    }
}

/// Read-back of the autostart setting; the menu renders it and never writes
/// on `Unknown`.
#[derive(Debug, Clone, PartialEq, Eq)]
pub enum AutostartState {
    Off,
    User,
    Admin,
    /// Read failed (reason); UI reports, never writes.
    Unknown(String),
}

impl AutostartState {
    /// The installed mode, or `None` when the read failed.
    pub fn mode(&self) -> (r: Option<AutostartMode>)
        ensures
            r == match self {
                AutostartState::Off => Some(AutostartMode::Off),
                AutostartState::User => Some(AutostartMode::User),
                AutostartState::Admin => Some(AutostartMode::Admin),
                AutostartState::Unknown(_) => None::<AutostartMode>,
            },
    {
        match self {
            AutostartState::Off => Some(AutostartMode::Off),
            AutostartState::User => Some(AutostartMode::User),
            AutostartState::Admin => Some(AutostartMode::Admin),
            AutostartState::Unknown(_) => None,
        }
    }
}

/// State of the current-user `Run` entry.
#[derive(Debug, Clone, Copy, PartialEq, Eq, Structural)]
pub enum RunEntry {
    /// No value of ours: autostart was never installed here.
    Absent,
    /// Present and the shell still starts it.
    Enabled,
    /// Present, switched off in the shell's Startup tab.
    Disabled,
}

/// `Run` value name and scheduled-task name, both the PascalCase display name.
pub fn autostart_key_name() -> (r: &'static str)
    ensures
        r@ == crate::TOOL_DISPLAY_NAME@,
{
    crate::TOOL_DISPLAY_NAME
}

/// Pre-scheme `Run` value names removed whenever the scheme is applied.
pub const LEGACY_AUTOSTART_KEYS: [&'static str; 2] = ["audio-switcher", "Audio Switcher"];

/// Command-line switch that turns this process into the elevated helper.
pub const HELPER_ARG_PREFIX: &'static str = "--autostart-helper=";

/// Helper action: create the elevated logon task.
pub const HELPER_TASK_ON: &'static str = "admin-on";

/// Helper action: delete the elevated logon task.
pub const HELPER_TASK_OFF: &'static str = "admin-off";

/// The state the menu shows, from the `Run` entry read-back and the cached
/// presence of the logon task. A read failure is `Unknown`, never `Off`; a
/// `Run` value the shell switched off does not count as autostarting.
pub fn autostart_state(run: &Result<RunEntry, String>, admin_task_cached: bool) -> (r:
    AutostartState)
    ensures
        match run {
            Ok(RunEntry::Enabled) => r == AutostartState::User,
            Ok(_) => r == (if admin_task_cached {
                AutostartState::Admin
            } else {
                AutostartState::Off
            }),
            Err(e) => r matches AutostartState::Unknown(why) && why@ == e@,
        },
{
    match run {
        Ok(RunEntry::Enabled) => AutostartState::User,
        Ok(_) => {
            if admin_task_cached {
                AutostartState::Admin
            } else {
                AutostartState::Off
            }
        },
        Err(e) => AutostartState::Unknown(text::to_owned(e.as_str())),
    }
}

/// Whether the current-user `Run` entry is missing entirely: the one state
/// the startup self-heal may write over. A disabled entry or a failed read is
/// not absent.
pub fn run_entry_absent(run: &Result<RunEntry, String>) -> (r: bool)
    ensures
        r == (run matches Ok(RunEntry::Absent)),
{
    matches!(run, Ok(RunEntry::Absent))
}

/// Whether a `StartupApproved` value means "enabled": the first byte is the
/// state, odd meaning disabled by the user; an empty value counts as enabled.
pub fn startup_approved_state(data: &[u8]) -> (r: bool)
    ensures
        r == (data@.len() == 0 || data@[0] % 2 == 0),
{
    if data.len() == 0 {
        true
    } else {
        data[0] % 2 == 0
    }
}

/// Whether the startup self-heal rewrites the `Run` value: only for the `User`
/// mode, and only when the entry is missing entirely.
pub fn needs_run_value_repair(mode: AutostartMode, run_absent: bool) -> (r: bool)
    ensures
        r == (mode == AutostartMode::User && run_absent),
{
    match mode {
        AutostartMode::User => run_absent,
        _ => false,
    }
}

/// Cached presence of the elevated logon task (`schtasks` is too slow for the
/// menu's refresh path). Starts absent, so the menu is never stuck grayed.
#[derive(Debug)]
pub struct AdminTaskCache {
    pub present: bool,
}

impl AdminTaskCache {
    pub fn new() -> (r: AdminTaskCache)
        ensures
            !r.present,
    {
        AdminTaskCache { present: false }
    }

    /// Whether the task is present, per the cache.
    pub fn admin_task_cached(&self) -> (r: bool)
        ensures
            r == self.present,
    {
        self.present
    }

    /// Mark the task present or absent.
    pub fn set_admin_task_cached(&mut self, present: bool)
        ensures
            final(self).present == present,
    {
        self.present = present;
    }

    /// Fold a live `schtasks` query into the cache: a successful answer
    /// replaces it, a failed one leaves it; returns the presence to act on.
    pub fn admin_task_live(&mut self, query: &Result<bool, String>) -> (r: bool)
        ensures
            match query {
                Ok(present) => final(self).present == *present && r == *present,
                Err(_) => final(self).present == old(self).present && r == old(self).present,
            },
    {
        match query {
            Ok(present) => {
                self.present = *present;
                *present
            },
            Err(_) => self.present,
        }
    }
}

/// One step of switching the autostart mode, performed in order by the caller;
/// the first failing step ends the switch.
#[derive(Debug, Clone, Copy, PartialEq, Eq, Structural)]
pub enum AutostartStep {
    /// Delete the logon task through the elevated helper, if it exists; once
    /// the step succeeds the cache says "absent" ([`AutostartSwitch`] runs the
    /// steps and proves it).
    RemoveAdminTask,
    /// Create the logon task through the elevated helper.
    CreateAdminTask,
    /// Record the task as present in the cache.
    MarkAdminTaskPresent,
    /// Write (`true`) or remove (`false`) the `Run` value, then drop the
    /// legacy names.
    SetRunValue(bool),
}

/// The steps that apply `mode`: clear the mechanism it does not use, then set
/// the one it does; [`AutostartSwitch`] performs them one answer at a time. `Admin` creates the task first, so a failure leaves the
/// existing `Run` entry alone.
pub fn set_autostart_mode(mode: AutostartMode) -> (r: Vec<AutostartStep>)
    ensures
        r@ == match mode {
            AutostartMode::Off => seq![AutostartStep::RemoveAdminTask, AutostartStep::SetRunValue(false)],
            AutostartMode::User => seq![AutostartStep::RemoveAdminTask, AutostartStep::SetRunValue(true)],
            AutostartMode::Admin => seq![
                AutostartStep::CreateAdminTask,
                AutostartStep::MarkAdminTaskPresent,
                AutostartStep::SetRunValue(false),
            ],
        },
{
    let mut steps = Vec::new();
    match mode {
        AutostartMode::Off => {
            steps.push(AutostartStep::RemoveAdminTask);
            steps.push(AutostartStep::SetRunValue(false));
        },
        AutostartMode::User => {
            steps.push(AutostartStep::RemoveAdminTask);
            steps.push(AutostartStep::SetRunValue(true));
        },
        AutostartMode::Admin => {
            steps.push(AutostartStep::CreateAdminTask);
            steps.push(AutostartStep::MarkAdminTaskPresent);
            steps.push(AutostartStep::SetRunValue(false));
        },
    }
    assert(steps@ =~= match mode {
        AutostartMode::Off => seq![AutostartStep::RemoveAdminTask, AutostartStep::SetRunValue(false)],
        AutostartMode::User => seq![AutostartStep::RemoveAdminTask, AutostartStep::SetRunValue(true)],
        AutostartMode::Admin => seq![
            AutostartStep::CreateAdminTask,
            AutostartStep::MarkAdminTaskPresent,
            AutostartStep::SetRunValue(false),
        ],
    });
    steps
}

/// Autostart failure; [`AutostartError::to_string`] is the user-visible text.
#[derive(Debug, Clone, PartialEq, Eq)]
pub enum AutostartError {
    /// The executable's path is unknown.
    NoExePath,
    /// Writing the `Run` value failed (the OS reason).
    Enable(String),
    /// Removing the `Run` value failed (the OS reason).
    Disable(String),
    /// The elevated helper never started: consent declined or the launch
    /// failed (`ShellExecuteW` returned `<= 32`).
    Elevation { code: usize },
    /// `schtasks` failed: the action (`create`, `delete`, `query`) and what it
    /// reported.
    Task { action: &'static str, detail: String },
}

impl AutostartError {
    /// The user-visible message (the OS reason of `Enable`/`Disable` is its
    /// source, not part of it).
    pub fn to_string(&self) -> (r: String)
        ensures
            r@ == (match self {
                AutostartError::NoExePath => "cannot determine executable path"@,
                AutostartError::Enable(_) => "failed to enable autostart"@,
                AutostartError::Disable(_) => "failed to disable autostart"@,
                AutostartError::Elevation { code } => "elevation declined or unavailable (code "@
                    + text::decimal(*code as nat) + ")"@,
                AutostartError::Task { action, detail } => "scheduled task "@ + action@
                    + " failed: "@ + detail@,
            }),
    {
        match self {
            AutostartError::NoExePath => text::to_owned("cannot determine executable path"),
            AutostartError::Enable(_) => text::to_owned("failed to enable autostart"),
            AutostartError::Disable(_) => text::to_owned("failed to disable autostart"),
            AutostartError::Elevation { code } => {
                let mut s = text::to_owned("elevation declined or unavailable (code ");
                let c = text::u64_to_decimal(*code as u64);
                s.append(c.as_str());
                s.append(")");
                s
            },
            AutostartError::Task { action, detail } => {
                let mut s = text::concat("scheduled task ", action);
                s.append(" failed: ");
                s.append(detail.as_str());
                s
            },
        }
    }
}

/// A failed elevated relaunch as an autostart error: a refused launch is
/// `Elevation` with its code; a target that could not be passed at all means
/// the executable path was unusable.
pub fn elevation_error(e: &ShellError) -> (r: AutostartError)
    ensures
        match e {
            ShellError::Execute { code, .. } => r == AutostartError::Elevation { code: *code },
            ShellError::InteriorNul => r == AutostartError::NoExePath,
        },
{
    match e {
        ShellError::Execute { code, .. } => AutostartError::Elevation { code: *code },
        _ => AutostartError::NoExePath,
    }
}

/// The parameters of the elevated relaunch: the helper switch and the action.
pub fn helper_params(action: &str) -> (r: String)
    ensures
        r@ == HELPER_ARG_PREFIX@ + action@,
{
    text::concat(HELPER_ARG_PREFIX, action)
}

/// The helper action named on a command line: the rest of the first argument
/// that starts with the helper switch; `None` for a normal launch.
pub open spec fn helper_action_spec(args: Seq<Seq<char>>) -> Option<Seq<char>>
    decreases args.len(),
{
    if args.len() == 0 {
        None
    } else if text::starts_with_seq(args[0], HELPER_ARG_PREFIX@) {
        Some(args[0].skip(HELPER_ARG_PREFIX@.len() as int))
    } else {
        helper_action_spec(args.drop_first())
    }
}

/// Find the helper action among the process arguments.
pub fn helper_action(args: &[String]) -> (r: Option<String>)
    ensures
        match r {
            Some(a) => helper_action_spec(text::views(args@)) == Some(a@),
            None => helper_action_spec(text::views(args@)) is None,
        },
{
    let mut i: usize = 0;
    assert(text::views(args@).skip(0) =~= text::views(args@));
    while i < args.len()
        invariant
            i <= args.len(),
            helper_action_spec(text::views(args@)) == helper_action_spec(
                text::views(args@).skip(i as int),
            ),
        decreases args.len() - i,
    {
        let a = args[i].as_str();
        proof {
            let v = text::views(args@).skip(i as int);
            assert(v[0] == a@);
            assert(v.drop_first() =~= text::views(args@).skip(i + 1));
        }
        if text::starts_with(a, HELPER_ARG_PREFIX) {
            proof {
                reveal_strlit("--autostart-helper=");
            }
            let rest = a.substring_char(19, a.unicode_len());
            assert(rest@ =~= a@.skip(19));
            return Some(text::to_owned(rest));
        }
        i = i + 1;
    }
    assert(text::views(args@).skip(i as int) =~= Seq::<Seq<char>>::empty());
    None
}

/// What the elevated helper was asked to do.
#[derive(Debug, Clone, Copy, PartialEq, Eq, Structural)]
pub enum HelperCommand {
    CreateTask,
    DeleteTask,
    /// An action this build does not know; the helper exits with code 2.
    Unknown,
}

/// The command a helper action names.
pub fn helper_command(action: &str) -> (r: HelperCommand)
    ensures
        r == (if action@ == HELPER_TASK_ON@ {
            HelperCommand::CreateTask
        } else if action@ == HELPER_TASK_OFF@ {
            HelperCommand::DeleteTask
        } else {
            HelperCommand::Unknown
        }),
{
    if text::str_eq(action, HELPER_TASK_ON) {
        HelperCommand::CreateTask
    } else if text::str_eq(action, HELPER_TASK_OFF) {
        HelperCommand::DeleteTask
    } else {
        HelperCommand::Unknown
    }
}

/// The helper's exit code: `0` when the task change succeeded, `1` when it
/// failed.
pub fn helper_exit_code(outcome: &Result<(), AutostartError>) -> (r: i32)
    ensures
        r == (if outcome is Ok { 0i32 } else { 1i32 }),
{
    match outcome {
        Ok(()) => 0,
        Err(_) => 1,
    }
}

/// The dialog the helper shows when the task change failed.
pub fn helper_failure_message(e: &AutostartError) -> (r: String)
    ensures
        r@ == crate::TOOL_DISPLAY_NAME@ + " could not change the startup task.\n\n"@ + ({
            let m = e;
            match m {
                AutostartError::NoExePath => "cannot determine executable path"@,
                AutostartError::Enable(_) => "failed to enable autostart"@,
                AutostartError::Disable(_) => "failed to disable autostart"@,
                AutostartError::Elevation { code } => "elevation declined or unavailable (code "@
                    + text::decimal(*code as nat) + ")"@,
                AutostartError::Task { action, detail } => "scheduled task "@ + action@
                    + " failed: "@ + detail@,
            }
        }),
{
    let mut s = text::concat(crate::TOOL_DISPLAY_NAME, " could not change the startup task.\n\n");
    let m = e.to_string();
    s.append(m.as_str());
    s
}

/// The `/TR` command of the logon task and of the `Run` value: the executable
/// path in quotes, so a path with spaces is not split.
pub fn quoted_command(exe: &str) -> (r: String)
    ensures
        r@ == "\""@ + exe@ + "\""@,
{
    let mut s = text::concat("\"", exe);
    s.append("\"");
    s
}

/// The views of a list of arguments.
pub open spec fn args_view(args: Seq<String>) -> Seq<Seq<char>> {
    text::views(args)
}

/// `schtasks` arguments creating the logon task with highest privileges.
pub fn create_task_args(exe: &str) -> (r: Vec<String>)
    ensures
        args_view(r@) == seq![
            "/Create"@, "/F"@, "/TN"@, crate::TOOL_DISPLAY_NAME@, "/TR"@,
            "\""@ + exe@ + "\""@, "/SC"@, "ONLOGON"@, "/RL"@, "HIGHEST"@,
        ],
{
    let mut v: Vec<String> = Vec::new();
    v.push(text::to_owned("/Create"));
    v.push(text::to_owned("/F"));
    v.push(text::to_owned("/TN"));
    v.push(text::to_owned(autostart_key_name()));
    v.push(text::to_owned("/TR"));
    v.push(quoted_command(exe));
    v.push(text::to_owned("/SC"));
    v.push(text::to_owned("ONLOGON"));
    v.push(text::to_owned("/RL"));
    v.push(text::to_owned("HIGHEST"));
    assert(args_view(v@) =~= seq![
        "/Create"@, "/F"@, "/TN"@, crate::TOOL_DISPLAY_NAME@, "/TR"@,
        "\""@ + exe@ + "\""@, "/SC"@, "ONLOGON"@, "/RL"@, "HIGHEST"@,
    ]);
    v
}

/// `schtasks` arguments deleting the logon task.
pub fn delete_task_args() -> (r: Vec<String>)
    ensures
        args_view(r@) == seq!["/Delete"@, "/F"@, "/TN"@, crate::TOOL_DISPLAY_NAME@],
{
    let mut v: Vec<String> = Vec::new();
    v.push(text::to_owned("/Delete"));
    v.push(text::to_owned("/F"));
    v.push(text::to_owned("/TN"));
    v.push(text::to_owned(autostart_key_name()));
    assert(args_view(v@) =~= seq!["/Delete"@, "/F"@, "/TN"@, crate::TOOL_DISPLAY_NAME@]);
    v
}

/// `schtasks` arguments querying the logon task.
pub fn query_task_args() -> (r: Vec<String>)
    ensures
        args_view(r@) == seq!["/Query"@, "/TN"@, crate::TOOL_DISPLAY_NAME@],
{
    let mut v: Vec<String> = Vec::new();
    v.push(text::to_owned("/Query"));
    v.push(text::to_owned("/TN"));
    v.push(text::to_owned(autostart_key_name()));
    assert(args_view(v@) =~= seq!["/Query"@, "/TN"@, crate::TOOL_DISPLAY_NAME@]);
    v
}

/// The text of a byte string, invalid UTF-8 replaced by U+FFFD.
pub uninterp spec fn utf8_lossy(bytes: Seq<u8>) -> Seq<char>;

/// `String::from_utf8_lossy`, owned: the text of the bytes; bytes that are
/// valid UTF-8 decode to exactly their text.
#[verifier::external_body]
fn string_from_utf8_lossy(bytes: &[u8]) -> (r: String)
    ensures
        r@ == utf8_lossy(bytes@),
        vstd::utf8::valid_utf8(bytes@) ==> r@ == vstd::utf8::decode_utf8(bytes@),
{
    String::from_utf8_lossy(bytes).into_owned()
}

/// The decimal text of a signed exit code.
pub open spec fn signed_decimal(c: i32) -> Seq<char> {
    if c < 0 { "-"@ + text::decimal((-c) as nat) } else { text::decimal(c as nat) }
}

/// The exit part of a `schtasks` failure detail.
pub open spec fn exit_text(code: Option<i32>) -> Seq<char> {
    match code {
        Some(c) => "exit code "@ + signed_decimal(c),
        None => "terminated without an exit code"@,
    }
}

/// The failure detail of a `schtasks` run: the exit code plus what it printed
/// (standard error, or standard output when that is empty), trimmed.
pub open spec fn describe_spec(stdout: Seq<u8>, stderr: Seq<u8>, code: Option<i32>) -> Seq<char> {
    let raw = if stderr.len() == 0 { stdout } else { stderr };
    let out = text::trim_seq(utf8_lossy(raw));
    if out.len() == 0 {
        exit_text(code)
    } else {
        exit_text(code) + ": "@ + out
    }
}

/// Describe a finished `schtasks` run for [`AutostartError::Task`].
pub fn describe(stdout: &[u8], stderr: &[u8], code: Option<i32>) -> (r: String)
    ensures
        r@ == describe_spec(stdout@, stderr@, code),
{
    let raw = if stderr.len() == 0 { stdout } else { stderr };
    let s = string_from_utf8_lossy(raw);
    let out = text::trim(s.as_str());
    let mut head = match code {
        Some(c) => {
            let mut h = text::to_owned("exit code ");
            if c < 0 {
                h.append("-");
                let d = text::u64_to_decimal((-(c as i64)) as u64);
                h.append(d.as_str());
            } else {
                let d = text::u64_to_decimal(c as u64);
                h.append(d.as_str());
            }
            h
        },
        None => text::to_owned("terminated without an exit code"),
    };
    if out.unicode_len() == 0 {
        head
    } else {
        head.append(": ");
        head.append(out);
        head
    }
}

/// The result of one `schtasks` action: success, or a `Task` error carrying
/// the action and the detail.
pub fn task_outcome(action: &'static str, success: bool, detail: String) -> (r: Result<(), AutostartError>)
    ensures
        success ==> r is Ok,
        !success ==> r == Err::<(), AutostartError>(AutostartError::Task { action, detail }),
{
    if success {
        Ok(())
    } else {
        Err(AutostartError::Task { action, detail })
    }
}

/// `StartupApproved` value meaning "enabled": state byte `0x02` and a zeroed
/// timestamp, what the shell writes for an entry it was never asked to
/// disable.
pub const STARTUP_APPROVED_ENABLED: [u8; 12] = [0x02, 0, 0, 0, 0, 0, 0, 0, 0, 0, 0, 0];

/// The little-endian bytes of UTF-16 units, as a `REG_SZ` value stores them.
pub open spec fn le_bytes(units: Seq<u16>) -> Seq<u8>
    decreases units.len(),
{
    if units.len() == 0 {
        Seq::empty()
    } else {
        le_bytes(units.drop_last()) + seq![(units.last() % 0x100) as u8, (units.last() / 0x100) as u8]
    }
}

/// The bytes of a `REG_SZ` value: the UTF-16 units, little-endian.
pub fn reg_sz_bytes(units: &[u16]) -> (r: Vec<u8>)
    ensures
        r@ == le_bytes(units@),
{
    let mut out: Vec<u8> = Vec::new();
    let mut i: usize = 0;
    while i < units.len()
        invariant
            i <= units@.len(),
            out@ == le_bytes(units@.take(i as int)),
        decreases units.len() - i,
    {
        let u = units[i];
        out.push((u & 0xFF) as u8);
        out.push((u >> 8u16) as u8);
        proof {
            assert(u & 0xFF == u % 0x100) by (bit_vector);
            assert(u >> 8u16 == u / 0x100) by (bit_vector);
            assert(units@.take(i + 1).drop_last() =~= units@.take(i as int));
        }
        i = i + 1;
    }
    assert(units@.take(units@.len() as int) =~= units@);
    out
}

/// The `Run` value's data: the quoted executable path as a NUL-terminated
/// UTF-16 string, little-endian.
pub fn run_value_data(exe: &str) -> (r: Vec<u8>)
    ensures
        r@ == le_bytes(utf16::encode_utf16("\""@ + exe@ + "\""@).push(0)),
{
    let command = quoted_command(exe);
    let units = utf16::wide_z(command.as_str());
    reg_sz_bytes(units.as_slice())
}

/// The outcome of one registry call, by its status.
#[derive(Debug, Clone, Copy, PartialEq, Eq, Structural)]
pub enum RegStatus {
    Success,
    /// `ERROR_FILE_NOT_FOUND`: the key or value is simply absent.
    NotFound,
    /// Any other status, by its code.
    Failed(u32),
}

/// The `Run` entry from opening the `Run` key and asking for our value:
/// absence of either is `Absent`; another failure is the error; `None` means
/// the value is present and the shell's marker decides.
pub fn run_value_lookup(opened: RegStatus, present: RegStatus) -> (r: Option<Result<RunEntry, u32>>)
    ensures
        r == (match opened {
            RegStatus::NotFound => Some(Ok(RunEntry::Absent)),
            RegStatus::Failed(e) => Some(Err(e)),
            RegStatus::Success => match present {
                RegStatus::NotFound => Some(Ok(RunEntry::Absent)),
                RegStatus::Failed(e) => Some(Err(e)),
                RegStatus::Success => None,
            },
        }),
{
    match opened {
        RegStatus::NotFound => Some(Ok(RunEntry::Absent)),
        RegStatus::Failed(e) => Some(Err(e)),
        RegStatus::Success => match present {
            RegStatus::NotFound => Some(Ok(RunEntry::Absent)),
            RegStatus::Failed(e) => Some(Err(e)),
            RegStatus::Success => None,
        },
    }
}

/// A present `Run` value's state from the shell's marker read-back.
pub fn run_entry_from_marker(approved: Result<bool, u32>) -> (r: Result<RunEntry, u32>)
    ensures
        r == (match approved {
            Ok(true) => Ok(RunEntry::Enabled),
            Ok(false) => Ok(RunEntry::Disabled),
            Err(e) => Err::<RunEntry, u32>(e),
        }),
{
    match approved {
        Ok(true) => Ok(RunEntry::Enabled),
        Ok(false) => Ok(RunEntry::Disabled),
        Err(e) => Err(e),
    }
}

/// Whether the shell still starts our entry, from opening the
/// `StartupApproved` key and sizing our value: a missing key or value reads as
/// enabled (the shell's default); another failure is the error; `None` means
/// the value's bytes decide ([`startup_approved_state`]).
pub fn startup_marker_lookup(opened: RegStatus, sized: RegStatus) -> (r: Option<Result<bool, u32>>)
    ensures
        r == (match opened {
            RegStatus::NotFound => Some(Ok(true)),
            RegStatus::Failed(e) => Some(Err(e)),
            RegStatus::Success => match sized {
                RegStatus::NotFound => Some(Ok(true)),
                RegStatus::Failed(e) => Some(Err(e)),
                RegStatus::Success => None,
            },
        }),
{
    match opened {
        RegStatus::NotFound => Some(Ok(true)),
        RegStatus::Failed(e) => Some(Err(e)),
        RegStatus::Success => match sized {
            RegStatus::NotFound => Some(Ok(true)),
            RegStatus::Failed(e) => Some(Err(e)),
            RegStatus::Success => None,
        },
    }
}

/// Removing the `Run` value succeeded when the key or the value is absent
/// (gone is what was asked for); another failure is the error.
pub fn disable_outcome(opened: RegStatus, removed: RegStatus) -> (r: Result<(), u32>)
    ensures
        r == (match opened {
            RegStatus::NotFound => Ok(()),
            RegStatus::Failed(e) => Err(e),
            RegStatus::Success => match removed {
                RegStatus::Failed(e) => Err(e),
                _ => Ok::<(), u32>(()),
            },
        }),
{
    match opened {
        RegStatus::NotFound => Ok(()),
        RegStatus::Failed(e) => Err(e),
        RegStatus::Success => match removed {
            RegStatus::Failed(e) => Err(e),
            _ => Ok(()),
        },
    }
}

impl AdminTaskCache {
    /// Refresh the cache from a startup `schtasks` query: a successful answer
    /// replaces it, a failed one leaves it unchanged.
    pub fn refresh_admin_task_cache(&mut self, query: &Result<bool, String>)
        ensures
            match query {
                Ok(present) => final(self).present == *present,
                Err(_) => final(self).present == old(self).present,
            },
    {
        if let Ok(present) = query {
            self.present = *present;
        }
    }
}

} // verus!

verus! {

/// A mode's spelling names that mode, and only its own spelling does.
pub proof fn lemma_mode_name_round_trip(m: AutostartMode, name: Seq<char>)
    ensures
        AutostartMode::from_name_spec(m.spec_as_str()) == Some(m),
        AutostartMode::from_name_spec(name) == Some(m) ==> name == m.spec_as_str(),
{
    reveal_strlit("off");
    reveal_strlit("user");
    reveal_strlit("admin");
    assert("user"@.len() != "off"@.len());
    assert("admin"@.len() != "off"@.len());
    assert("admin"@.len() != "user"@.len());
}

} // verus!

verus! {

/// Where a switch of the autostart mode stands: which answer it waits for.
#[derive(Debug, Clone, Copy, PartialEq, Eq, Structural)]
pub enum SwitchStage {
    /// Waiting for the `schtasks` query before removing the logon task.
    AwaitQuery,
    /// Waiting for the elevated helper that deletes the task.
    AwaitRemoval,
    /// Waiting for the elevated helper that creates the task.
    AwaitCreation,
    /// Waiting for the `Run` value to be written or removed.
    AwaitRunValue,
    /// The switch is over.
    Done,
}

/// What the application answers a [`SwitchAction`] with.
#[derive(Debug)]
pub enum SwitchEvent {
    /// The `schtasks` query: whether the task exists, or why it failed.
    TaskQueried(Result<bool, String>),
    /// The executable's path is unknown, so the helper was not launched.
    ExePathUnknown,
    /// The elevated relaunch of the helper: started, or the shell's failure.
    HelperLaunched(Result<(), ShellError>),
    /// Writing or removing the `Run` value.
    RunValueWritten(Result<(), AutostartError>),
}

/// The outside work a switch asks for next, or its outcome.
#[derive(Debug, PartialEq, Eq)]
pub enum SwitchAction {
    /// Ask `schtasks` whether the logon task exists.
    QueryAdminTask,
    /// Relaunch this executable elevated with the helper switch.
    LaunchHelper(HelperCommand),
    /// Write (`true`) or remove (`false`) the `Run` value.
    WriteRunValue(bool),
    /// The switch is over with this outcome.
    Finish(Result<(), AutostartError>),
}

/// A failed elevated relaunch as an autostart error (see [`elevation_error`]).
pub open spec fn elevation_error_spec(e: ShellError) -> AutostartError {
    match e {
        ShellError::Execute { code, .. } => AutostartError::Elevation { code },
        ShellError::InteriorNul => AutostartError::NoExePath,
    }
}

/// Applying an autostart mode, one piece of outside work at a time: clear the
/// mechanism the mode does not use, then set the one it does, stopping at the
/// first failure. It owns the task cache while it runs.
#[derive(Debug)]
pub struct AutostartSwitch {
    pub mode: AutostartMode,
    pub stage: SwitchStage,
    pub cache: AdminTaskCache,
}

impl AutostartSwitch {
    /// The stage fits the mode, and once the task work is done the cache says
    /// "present" exactly for `Admin`.
    pub open spec fn wf(&self) -> bool {
        &&& (self.stage == SwitchStage::AwaitQuery || self.stage == SwitchStage::AwaitRemoval)
            ==> self.mode != AutostartMode::Admin
        &&& self.stage == SwitchStage::AwaitCreation ==> self.mode == AutostartMode::Admin
        &&& self.stage == SwitchStage::AwaitRunValue ==> self.cache.present == (self.mode
            == AutostartMode::Admin)
    }

    /// Whether `e` answers what the switch waits for.
    pub open spec fn awaits(&self, e: SwitchEvent) -> bool {
        match self.stage {
            SwitchStage::AwaitQuery => e is TaskQueried,
            SwitchStage::AwaitRemoval | SwitchStage::AwaitCreation => e is ExePathUnknown
                || e is HelperLaunched,
            SwitchStage::AwaitRunValue => e is RunValueWritten,
            SwitchStage::Done => false,
        }
    }

    /// Start applying `mode`: `Off` and `User` first ask whether the logon task
    /// exists; `Admin` first creates it, so a failure leaves the `Run` entry
    /// alone.
    pub fn start(mode: AutostartMode, cache: AdminTaskCache) -> (r: (AutostartSwitch, SwitchAction))
        ensures
            r.0.wf(),
            r.0.mode == mode,
            r.0.cache == cache,
            mode == AutostartMode::Admin ==> r.0.stage == SwitchStage::AwaitCreation && r.1
                == SwitchAction::LaunchHelper(HelperCommand::CreateTask),
            mode != AutostartMode::Admin ==> r.0.stage == SwitchStage::AwaitQuery && r.1
                == SwitchAction::QueryAdminTask,
    {
        match mode {
            AutostartMode::Admin => (
                AutostartSwitch { mode, stage: SwitchStage::AwaitCreation, cache },
                SwitchAction::LaunchHelper(HelperCommand::CreateTask),
            ),
            _ => (
                AutostartSwitch { mode, stage: SwitchStage::AwaitQuery, cache },
                SwitchAction::QueryAdminTask,
            ),
        }
    }

    /// Take the answer to the last action and say what to do next.
    ///
    /// A query folds into the cache; an absent task goes straight to the `Run`
    /// value. A removed task is recorded absent, a created one present. A
    /// helper that could not start ends the switch with `NoExePath` or
    /// `Elevation`; the `Run` value's result is the switch's outcome. So a
    /// switch that finishes `Ok` leaves the cache saying "present" exactly for
    /// `Admin`, and its last work was writing the `Run` value for `User` and
    /// removing it otherwise.
    pub fn step(&mut self, event: SwitchEvent) -> (r: SwitchAction)
        requires
            old(self).wf(),
            old(self).awaits(event),
        ensures
            final(self).wf(),
            final(self).mode == old(self).mode,
            match event {
                SwitchEvent::TaskQueried(q) => {
                    let present = match q {
                        Ok(p) => p,
                        Err(_) => old(self).cache.present,
                    };
                    &&& final(self).cache.present == present
                    &&& present ==> final(self).stage == SwitchStage::AwaitRemoval && r
                        == SwitchAction::LaunchHelper(HelperCommand::DeleteTask)
                    &&& !present ==> final(self).stage == SwitchStage::AwaitRunValue && r
                        == SwitchAction::WriteRunValue(old(self).mode == AutostartMode::User)
                },
                SwitchEvent::ExePathUnknown => final(self).stage == SwitchStage::Done
                    && final(self).cache == old(self).cache && r == SwitchAction::Finish(
                    Err(AutostartError::NoExePath),
                ),
                SwitchEvent::HelperLaunched(Err(e)) => final(self).stage == SwitchStage::Done
                    && final(self).cache == old(self).cache && r == SwitchAction::Finish(
                    Err(elevation_error_spec(e)),
                ),
                SwitchEvent::HelperLaunched(Ok(())) => final(self).stage
                    == SwitchStage::AwaitRunValue && final(self).cache.present == (old(self).stage
                    == SwitchStage::AwaitCreation) && r == SwitchAction::WriteRunValue(
                    old(self).mode == AutostartMode::User,
                ),
                SwitchEvent::RunValueWritten(w) => final(self).stage == SwitchStage::Done
                    && final(self).cache == old(self).cache && r == SwitchAction::Finish(w),
            },
            r matches SwitchAction::Finish(Ok(())) ==> final(self).cache.present
                == (old(self).mode == AutostartMode::Admin),
    {
        match event {
            SwitchEvent::TaskQueried(q) => {
                let present = self.cache.admin_task_live(&q);
                if present {
                    self.stage = SwitchStage::AwaitRemoval;
                    SwitchAction::LaunchHelper(HelperCommand::DeleteTask)
                } else {
                    self.stage = SwitchStage::AwaitRunValue;
                    SwitchAction::WriteRunValue(self.mode == AutostartMode::User)
                }
            },
            SwitchEvent::ExePathUnknown => {
                self.stage = SwitchStage::Done;
                SwitchAction::Finish(Err(AutostartError::NoExePath))
            },
            SwitchEvent::HelperLaunched(Err(e)) => {
                self.stage = SwitchStage::Done;
                SwitchAction::Finish(Err(elevation_error(&e)))
            },
            SwitchEvent::HelperLaunched(Ok(())) => {
                let created = self.stage == SwitchStage::AwaitCreation;
                self.cache.set_admin_task_cached(created);
                self.stage = SwitchStage::AwaitRunValue;
                SwitchAction::WriteRunValue(self.mode == AutostartMode::User)
            },
            SwitchEvent::RunValueWritten(w) => {
                self.stage = SwitchStage::Done;
                SwitchAction::Finish(w)
            },
        }
    }
}

} // verus!
