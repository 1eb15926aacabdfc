use lycrex_tool::common::error::{IoFailureKind, SystemError};
use lycrex_tool::common::types::PermissionStatus;
use lycrex_tool::common::utils::{SystemUtils, StringUtils};
use lycrex_tool::math::{abs, labs};
use lycrex_tool::format::{is_cjk_character, create_info_box};
use lycrex_tool::startup::StartupManager;
use lycrex_tool::startup::types::{StartupEntry, StartupType};
use lycrex_tool::system::SystemTools;
use lycrex_tool::time::{TimeUtils, ProgramTimer, is_leap_year, get_days_in_year,
    get_days_in_month, days_since_epoch};
use lycrex_tool::memory::{MemoryManager, ProcessMemoryInstance};
use lycrex_tool::memory::resolver::ProcessEntry;

#[test]
fn error_messages_carry_kind_and_text() {
    assert_eq!(SystemError::NotFound("x".to_string()).message(), "Not found: x");
    assert_eq!(
        SystemError::PermissionDenied("no rights".to_string()).message(),
        "Permission denied: no rights"
    );
    assert_eq!(
        SystemError::SystemCall("open".to_string(), Some(-3)).message(),
        "System call failed: open (code: -3)"
    );
    assert_eq!(
        SystemError::SystemCall("open".to_string(), None).message(),
        "System call failed: open"
    );
    assert_eq!(SystemError::MemoryError("bad".to_string()).message(), "Memory error: bad");
}

#[test]
fn io_failures_map_to_matching_kinds() {
    let denied = SystemError::from_io_failure(IoFailureKind::PermissionDenied, "f".to_string());
    assert!(matches!(denied, SystemError::PermissionDenied(ref m) if m == "f"));
    let missing = SystemError::from_io_failure(IoFailureKind::NotFound, "g".to_string());
    assert!(matches!(missing, SystemError::NotFound(ref m) if m == "g"));
    let late = SystemError::from_io_failure(IoFailureKind::TimedOut, "h".to_string());
    assert!(matches!(late, SystemError::Timeout(ref m) if m == "h"));
    let bad = SystemError::from_io_failure(IoFailureKind::InvalidInput, "i".to_string());
    assert!(matches!(bad, SystemError::InvalidArgument(ref m) if m == "i"));
    let other = SystemError::from_io_failure(IoFailureKind::Other, "j".to_string());
    assert!(matches!(other, SystemError::Io(ref m) if m == "j"));
}

#[test]
fn process_manager_listings_are_empty() {
    let manager = SystemTools::process();
    assert!(manager.list_processes().unwrap().is_empty());
    assert!(manager.get_process_by_pid(1).unwrap().is_none());
    assert!(manager.find_processes_by_name("init").unwrap().is_empty());
}

#[test]
fn format_bytes_scales() {
    assert_eq!(SystemUtils::format_bytes(512), "512 B");
    assert_eq!(SystemUtils::format_bytes(1024), "1.00 KB");
    assert_eq!(SystemUtils::format_bytes(1536), "1.50 KB");
    assert_eq!(SystemUtils::format_bytes(1048576), "1.00 MB");
    assert_eq!(SystemUtils::format_bytes(1024u64.pow(5)), "1.00 PB");
}

#[test]
fn parse_command_line_splits_words() {
    let (cmd, args) = SystemUtils::parse_command_line("ls -l /tmp");
    assert_eq!(cmd, "ls");
    assert_eq!(args, vec!["-l".to_string(), "/tmp".to_string()]);
    let (cmd2, args2) = SystemUtils::parse_command_line("   ");
    assert_eq!(cmd2, "");
    assert!(args2.is_empty());
    let (cmd3, args3) = SystemUtils::parse_command_line("solo");
    assert_eq!(cmd3, "solo");
    assert!(args3.is_empty());
}

#[test]
fn path_existence_queries() {
    assert!(SystemUtils::path_exists("/"));
    assert!(!SystemUtils::path_exists("/no/such/path/anywhere-at-all"));
}

#[test]
fn generate_id_uses_prefix() {
    let id = SystemUtils::generate_id("task");
    assert!(id.starts_with("task_"));
    assert!(id["task_".len()..].chars().all(|c| c.is_ascii_digit()));
}

#[test]
fn permission_status_decision() {
    assert_eq!(SystemUtils::check_permission_status(false, false), PermissionStatus::HasPermission);
    assert_eq!(SystemUtils::check_permission_status(true, true), PermissionStatus::HasPermission);
    assert_eq!(
        SystemUtils::check_permission_status(true, false),
        PermissionStatus::RequiresElevation
    );
}

#[test]
fn string_utils_behave() {
    assert_eq!(StringUtils::truncate("short", 10), "short");
    assert_eq!(StringUtils::truncate("a very long text", 9), "a very...");
    assert_eq!(StringUtils::trim_whitespace("  padded \n"), "padded");
    assert_eq!(StringUtils::trim_whitespace("   "), "");
    assert_eq!(StringUtils::to_safe_filename("a b/c:d.txt"), "a_b_c_d.txt");
}

#[test]
fn absolute_values() {
    assert_eq!(abs(-5), 5);
    assert_eq!(abs(5), 5);
    assert_eq!(labs(-9000000000), 9000000000);
}

#[test]
fn calendar_arithmetic() {
    assert!(is_leap_year(2024));
    assert!(!is_leap_year(1900));
    assert!(is_leap_year(2000));
    assert_eq!(get_days_in_year(2024), 366);
    assert_eq!(get_days_in_month(2024, 2), 29);
    assert_eq!(get_days_in_month(2023, 2), 28);
    assert_eq!(get_days_in_month(2023, 4), 30);
    assert_eq!(get_days_in_month(2023, 13), 0);
    assert_eq!(days_since_epoch(1970, 1, 1), 0);
    assert_eq!(days_since_epoch(1970, 1, 2), 1);
    assert_eq!(days_since_epoch(1971, 1, 1), 365);
}

#[test]
fn weekday_and_names() {
    // The epoch day was a Thursday.
    assert_eq!(TimeUtils::get_weekday(1970, 1, 1), 4);
    assert_eq!(TimeUtils::get_weekday_name(4), "Thursday");
    assert_eq!(TimeUtils::get_weekday_name(0), "Sunday");
    assert_eq!(TimeUtils::get_weekday_name(9), "Unknown");
    assert_eq!(TimeUtils::get_month_name(1), "January");
    assert_eq!(TimeUtils::get_month_name(12), "December");
    assert_eq!(TimeUtils::get_month_name(0), "Unknown");
    assert_eq!(TimeUtils::days_between_dates(2024, 1, 1, 2024, 1, 31), 30);
    assert_eq!(TimeUtils::days_between_dates(2024, 1, 31, 2024, 1, 1), 30);
    assert!(TimeUtils::is_valid_date(2024, 2, 29));
    assert!(!TimeUtils::is_valid_date(2023, 2, 29));
    assert!(!TimeUtils::is_valid_date(2023, 0, 1));
}

#[test]
fn natural_time_formatting() {
    assert_eq!(TimeUtils::format_natural_time(250), "+250ms");
    assert_eq!(TimeUtils::format_natural_time(45_000), "+45s");
    assert_eq!(TimeUtils::format_natural_time(120_000), "+2m0s");
    assert_eq!(TimeUtils::format_natural_time(3_800_000), "+1h3m20s");
    assert_eq!(TimeUtils::format_natural_time(90_061_000 + 86_400_000), "+2d1h1m1s");
}

#[test]
fn program_timer_is_monotonic_enough() {
    let timer = ProgramTimer::new();
    let a = timer.uptime_nanos();
    let b = timer.uptime_nanos();
    assert!(b >= a);
    assert!(TimeUtils::program_uptime_millis(&timer) <= TimeUtils::program_uptime_micros(&timer));
}

#[test]
fn format_time_renders_by_format_string() {
    // Literal text with no specifier renders as itself; a malformed format
    // string yields the empty string rather than a panic.
    assert_eq!(TimeUtils::format_time("time:"), "time:");
    assert_eq!(TimeUtils::format_time("%"), "");
    let year = TimeUtils::format_time("%Y");
    assert_eq!(year.len(), 4);
    assert!(year.chars().all(|c| c.is_ascii_digit()));
}

#[test]
fn timezone_info_shape() {
    let tz = TimeUtils::timezone_info();
    assert!(tz.name.starts_with("UTC"));
    assert!(tz.offset_hours.abs() < 24);
    assert!(tz.offset_minutes.abs() < 60);
}

#[test]
fn cjk_width_detection() {
    assert!(is_cjk_character('中'));
    assert!(is_cjk_character('。'));
    assert!(!is_cjk_character('a'));
    assert!(!is_cjk_character(' '));
}

#[test]
fn info_box_draws_borders() {
    let boxed = create_info_box("hello", None, true);
    assert!(boxed.starts_with('\n'));
    assert!(boxed.contains('┏'));
    assert!(boxed.contains("hello"));
    assert!(boxed.contains('┛'));
    let empty: Vec<String> = Vec::new();
    assert_eq!(create_info_box(empty, None, false), "");
}

#[test]
fn startup_entries_build_and_validate() {
    let entry = StartupEntry::new(
        "My App".to_string(),
        "/usr/bin/myapp".to_string(),
        StartupType::SystemdUser,
    )
        .with_arguments(vec!["--flag".to_string(), "value".to_string()])
        .with_description("demo".to_string())
        .with_admin_privileges(true)
        .with_delay(5)
        .with_working_directory("/tmp".to_string());
    assert!(entry.id.starts_with("My_App_"));
    assert!(entry.enabled);
    assert!(entry.run_as_admin);
    assert_eq!(entry.delay_seconds, Some(5));
    assert_eq!(entry.get_full_command_line(), "/usr/bin/myapp --flag value");
    assert!(entry.validate().is_ok());
}

#[test]
fn startup_validation_errors() {
    let blank_name = StartupEntry::new(" ".to_string(), "cmd".to_string(), StartupType::SystemdUser);
    assert_eq!(blank_name.validate().unwrap_err(), "Name cannot be empty");
    let blank_cmd = StartupEntry::new("n".to_string(), " ".to_string(), StartupType::SystemdUser);
    assert_eq!(blank_cmd.validate().unwrap_err(), "Command cannot be empty");
}

#[test]
fn startup_manager_platform_answers() {
    let manager = StartupManager::new();
    assert!(manager.list_all().unwrap().is_empty());
    let entry = StartupEntry::new("n".to_string(), "c".to_string(), StartupType::SystemdUser);
    assert!(matches!(manager.add_entry(&entry), Err(SystemError::NotSupported(_))));
    assert!(matches!(
        manager.remove_entry("id", StartupType::SystemdUser),
        Err(SystemError::NotSupported(_))
    ));
    let kinds = manager.get_supported_types();
    assert_eq!(kinds.len(), 3);
    assert_eq!(kinds[0], StartupType::SystemdUser);
}

#[test]
fn system_tools_hand_out_managers() {
    assert!(matches!(
        SystemTools::process().kill_process(1),
        Err(SystemError::NotSupported(_))
    ));
    assert!(SystemTools::service().list_services().unwrap().is_empty());
    assert!(matches!(
        SystemTools::network().scan_ports("host", 1, 10),
        Err(SystemError::NotSupported(_))
    ));
    assert!(matches!(
        SystemTools::security().encrypt_data(b"x", b"k"),
        Err(SystemError::NotSupported(_))
    ));
    assert!(matches!(
        SystemTools::registry().read_value("HKCU", "k", "v"),
        Err(SystemError::NotSupported(_))
    ));
}

#[test]
fn memory_manager_platform_answers() {
    let manager = MemoryManager::new();
    assert!(matches!(
        manager.create_process_instance_by_pid(1),
        Err(SystemError::NotSupported(_))
    ));
    assert!(matches!(
        manager.get_process_memory_info(1),
        Err(SystemError::NotSupported(_))
    ));
    assert!(matches!(manager.list_process_memory_info(), Err(SystemError::NotSupported(_))));
    let entries = vec![ProcessEntry { pid: 11, name: "bash".to_string() }];
    assert_eq!(manager.find_pid_by_name(&entries, "bash").unwrap(), 11);
    assert!(matches!(
        ProcessMemoryInstance::new_by_name("x"),
        Err(SystemError::NotSupported(_))
    ));
}
