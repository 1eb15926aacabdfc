//! The data types of startup management.  Timestamps are seconds since the
//! Unix epoch.

use vstd::prelude::*;
use std::collections::HashMap;
use crate::common::utils::{StringUtils, spec_trimmed};
use crate::text::{spec_dec, u128_to_dec, push_char};

verus! {

/// Where a startup entry is registered.
#[derive(Debug, Clone, PartialEq)]
pub enum StartupType {
    /// A per-user run key of the registry.
    RegistryCurrentUser,
    /// A machine-wide run key of the registry.
    RegistryLocalMachine,
    /// The startup folder.
    StartupFolder,
    /// A system service of the service manager.
    WindowsService,
    /// A scheduled task.
    TaskScheduler,
    /// A user service of the init system.
    SystemdUser,
    /// A system service of the init system.
    SystemdSystem,
    /// A desktop autostart entry.
    DesktopAutostart,
    /// A per-user launch agent.
    LaunchAgent,
    /// A system-wide launch daemon.
    LaunchDaemon,
    /// A login item.
    LoginItems,
}

/// One startup entry: what runs, how, and where it is registered.
#[derive(Debug, Clone)]
pub struct StartupEntry {
    pub id: String,
    pub name: String,
    pub command: String,
    pub arguments: Vec<String>,
    pub description: Option<String>,
    pub startup_type: StartupType,
    pub enabled: bool,
    pub run_as_admin: bool,
    pub delay_seconds: Option<u32>,
    pub working_directory: Option<String>,
    pub environment_variables: Option<HashMap<String, String>>,
    pub created_time: Option<u64>,
    pub last_modified: Option<u64>,
}

/// What a character of a name becomes in an entry identifier: spaces turn
/// into underscores.
pub open spec fn spec_id_char(c: char) -> char {
    if c == ' ' {
        '_'
    } else {
        c
    }
}

/// The space-separated joining of `args[i..]`.
pub open spec fn spec_args_from(args: Seq<String>, i: int) -> Seq<char>
    recommends
        0 <= i <= args.len(),
    decreases args.len() - i when 0 <= i <= args.len()
{
    if i >= args.len() {
        Seq::<char>::empty()
    } else if i + 1 == args.len() {
        args[i]@
    } else {
        args[i]@ + seq![' '] + spec_args_from(args, i + 1)
    }
}

/// The full command line of an entry: the command alone, or the command
/// followed by its space-separated arguments.
pub open spec fn spec_full_command_line(command: Seq<char>, args: Seq<String>) -> Seq<char> {
    if args.len() == 0 {
        command
    } else {
        command + seq![' '] + spec_args_from(args, 0)
    }
}

impl StartupEntry {
    /// A new enabled entry with a fresh identifier of the form
    /// `name_N` — spaces of the name turned to underscores, `N` a clock
    /// reading — and creation time set to now.
    pub fn new(name: String, command: String, startup_type: StartupType) -> (r: StartupEntry)
        ensures
            exists|n: int|
                0 <= n && r.id@ == name@.map_values(|c: char| spec_id_char(c)) + seq!['_']
                    + spec_dec(n),
            r.name == name,
            r.command == command,
            r.startup_type == startup_type,
            r.arguments@.len() == 0,
            r.description is None,
            r.enabled,
            !r.run_as_admin,
            r.delay_seconds is None,
            r.working_directory is None,
            r.environment_variables is None,
            r.created_time is Some,
            r.last_modified is Some,
    {
        proof {
            reveal_strlit("_");
        }
        let nanos = crate::time::now_unix_nanos();
        let mut id = String::new();
        let n = name.as_str().unicode_len();
        let mut i: usize = 0;
        while i < n
            invariant
                n == name@.len(),
                0 <= i <= n,
                id@ == name@.take(i as int).map_values(|c: char| spec_id_char(c)),
            decreases n - i,
        {
            let c = name.as_str().get_char(i);
            let mapped: char = if c == ' ' {
                '_'
            } else {
                c
            };
            push_char(&mut id, mapped);
            i = i + 1;
            proof {
                assert(id@ =~= name@.take(i as int).map_values(|c: char| spec_id_char(c)));
            }
        }
        proof {
            assert(name@.take(n as int) =~= name@);
        }
        id.append("_");
        let digits = u128_to_dec(nanos);
        id.append(digits.as_str());
        proof {
            let ghost w: int = nanos as int;
            assert(id@ =~= name@.map_values(|c: char| spec_id_char(c)) + seq!['_'] + spec_dec(w));
        }
        let now_seconds = (nanos / 1000000000) as u64;
        StartupEntry {
            id,
            name,
            command,
            arguments: Vec::new(),
            description: None,
            startup_type,
            enabled: true,
            run_as_admin: false,
            delay_seconds: None,
            working_directory: None,
            environment_variables: None,
            created_time: Some(now_seconds),
            last_modified: Some(now_seconds),
        }
    }

    /// This entry with the given arguments.
    pub fn with_arguments(self, args: Vec<String>) -> (r: StartupEntry)
        ensures
            r == (StartupEntry { arguments: args, ..self }),
    {
        StartupEntry { arguments: args, ..self }
    }

    /// This entry with the given description.
    pub fn with_description(self, description: String) -> (r: StartupEntry)
        ensures
            r == (StartupEntry { description: Some(description), ..self }),
    {
        StartupEntry { description: Some(description), ..self }
    }

    /// This entry marked as needing elevated rights, or not.
    pub fn with_admin_privileges(self, require_admin: bool) -> (r: StartupEntry)
        ensures
            r == (StartupEntry { run_as_admin: require_admin, ..self }),
    {
        StartupEntry { run_as_admin: require_admin, ..self }
    }

    /// This entry with a start delay in seconds.
    pub fn with_delay(self, delay_seconds: u32) -> (r: StartupEntry)
        ensures
            r == (StartupEntry { delay_seconds: Some(delay_seconds), ..self }),
    {
        StartupEntry { delay_seconds: Some(delay_seconds), ..self }
    }

    /// This entry with a working directory.
    pub fn with_working_directory(self, working_dir: String) -> (r: StartupEntry)
        ensures
            r == (StartupEntry { working_directory: Some(working_dir), ..self }),
    {
        StartupEntry { working_directory: Some(working_dir), ..self }
    }

    /// This entry with environment variables of its own.
    pub fn with_environment_variables(self, env_vars: HashMap<String, String>) -> (r:
        StartupEntry)
        ensures
            r == (StartupEntry { environment_variables: Some(env_vars), ..self }),
    {
        StartupEntry { environment_variables: Some(env_vars), ..self }
    }

    /// The full command line: the command followed by its space-separated
    /// arguments.
    pub fn get_full_command_line(&self) -> (r: String)
        ensures
            r@ == spec_full_command_line(self.command@, self.arguments@),
    {
        if self.arguments.len() == 0 {
            return self.command.clone();
        }
        let n = self.arguments.len();
        let mut i: usize = n;
        let mut joined = String::new();
        while i > 0
            invariant
                n == self.arguments@.len(),
                0 <= i <= n,
                joined@ == spec_args_from(self.arguments@, i as int),
            decreases i,
        {
            proof {
                reveal_strlit(" ");
            }
            i = i - 1;
            let mut piece = self.arguments[i].clone();
            if i + 1 < n {
                piece.append(" ");
                piece.append(joined.as_str());
            }
            joined = piece;
            proof {
                assert(joined@ =~= spec_args_from(self.arguments@, i as int));
            }
        }
        proof {
            reveal_strlit(" ");
        }
        let mut r = self.command.clone();
        r.append(" ");
        r.append(joined.as_str());
        proof {
            assert(r@ =~= spec_full_command_line(self.command@, self.arguments@));
        }
        r
    }

    /// Checks the entry: the name and the command must each hold something
    /// besides whitespace.
    pub fn validate(&self) -> (r: Result<(), String>)
        ensures
            spec_trimmed(self.name@).len() == 0 ==> (r matches Err(m) && m@
                == "Name cannot be empty"@),
            spec_trimmed(self.name@).len() > 0 && spec_trimmed(self.command@).len() == 0 ==> (
            r matches Err(m) && m@ == "Command cannot be empty"@),
            spec_trimmed(self.name@).len() > 0 && spec_trimmed(self.command@).len() > 0 ==> r
                is Ok,
    {
        let trimmed_name = StringUtils::trim_whitespace(self.name.as_str());
        if trimmed_name.as_str().unicode_len() == 0 {
            return Err(String::from_str("Name cannot be empty"));
        }
        let trimmed_command = StringUtils::trim_whitespace(self.command.as_str());
        if trimmed_command.as_str().unicode_len() == 0 {
            return Err(String::from_str("Command cannot be empty"));
        }
        Ok(())
    }
}

} // verus!
