use core_grant::grant::already_granted;
use core_grant::grant::interpret_output;
use core_grant::grant::plan_grant;
use core_grant::grant::FileMeta;
use core_grant::grant::GrantError;
use core_grant::grant::GrantPlan;
use core_grant::grant::Platform;

#[test]
fn granted_fixture_checks_true() {
    let m = FileMeta { uid: 0, gid: 80, mode: 0o6755 };
    assert!(already_granted(&m));
}

#[test]
fn granted_fixture_plans_no_command() {
    let m = FileMeta { uid: 0, gid: 80, mode: 0o6755 };
    let r = plan_grant(
        Platform::MacLike,
        Some("/Applications/Clash Verge.app/Contents/MacOS/clash"),
        Some(&m),
        false,
    );
    assert!(matches!(r, Ok(GrantPlan::Nothing)));
}

#[test]
fn second_grant_on_granted_binary_is_noop() {
    let m = FileMeta { uid: 0, gid: 80, mode: 0o6755 };
    for _ in 0..2 {
        let r = plan_grant(Platform::MacLike, Some("/opt/clash"), Some(&m), false);
        assert!(matches!(r, Ok(GrantPlan::Nothing)));
    }
}

#[test]
fn not_granted_fixture_checks_false_and_proceeds() {
    let m = FileMeta { uid: 501, gid: 20, mode: 0o755 };
    assert!(!already_granted(&m));
    let r = plan_grant(Platform::MacLike, Some("/opt/my core/clash"), Some(&m), false);
    match r {
        Ok(GrantPlan::Osascript { command }) => {
            assert_eq!(
                command,
                "do shell script \"chown root:admin /opt/my\\\\ core/clash\nchmod +sx /opt/my\\\\ core/clash\" with administrator privileges"
            );
        }
        _ => panic!("expected a privileged command"),
    }
}

#[test]
fn partial_bits_are_not_granted() {
    assert!(!already_granted(&FileMeta { uid: 0, gid: 80, mode: 0o4755 }));
    assert!(!already_granted(&FileMeta { uid: 0, gid: 80, mode: 0o2755 }));
    assert!(!already_granted(&FileMeta { uid: 0, gid: 0, mode: 0o6755 }));
    assert!(!already_granted(&FileMeta { uid: 1, gid: 80, mode: 0o6755 }));
}

#[test]
fn unreadable_metadata_proceeds_to_command() {
    let r = plan_grant(Platform::MacLike, Some("/opt/clash"), None, false);
    assert!(matches!(r, Ok(GrantPlan::Osascript { .. })));
}

#[test]
fn missing_binary_fails_resolution_before_spawn() {
    let r = plan_grant(Platform::MacLike, None, None, false);
    assert!(matches!(r, Err(GrantError::Resolution)));
    let r = plan_grant(Platform::LinuxLike, None, None, true);
    assert!(matches!(r, Err(GrantError::Resolution)));
}

#[test]
fn unsupported_platform_is_rejected() {
    let r = plan_grant(Platform::Other, Some("/opt/clash"), None, false);
    assert!(matches!(r, Err(GrantError::Unsupported)));
    let msg = plan_grant(Platform::Other, None, None, false).unwrap_err().message();
    assert_eq!(msg, "Unsupported target");
}

#[test]
fn linux_plan_uses_pkexec_when_available() {
    let r = plan_grant(Platform::LinuxLike, Some("/usr/bin/my core"), None, true);
    match r {
        Ok(GrantPlan::ShellScript { elevator, script }) => {
            assert_eq!(elevator, "pkexec");
            assert_eq!(script, "setcap cap_net_bind_service,cap_net_admin=+ep /usr/bin/my\\ core");
        }
        _ => panic!("expected a shell command"),
    }
}

#[test]
fn linux_plan_falls_back_to_sudo() {
    let r = plan_grant(Platform::LinuxLike, Some("/usr/bin/clash"), None, false);
    match r {
        Ok(GrantPlan::ShellScript { elevator, script }) => {
            assert_eq!(elevator, "sudo");
            assert_eq!(script, "setcap cap_net_bind_service,cap_net_admin=+ep /usr/bin/clash");
        }
        _ => panic!("expected a shell command"),
    }
}

#[test]
fn linux_plan_ignores_metadata_fast_path() {
    let m = FileMeta { uid: 0, gid: 80, mode: 0o6755 };
    let r = plan_grant(Platform::LinuxLike, Some("/usr/bin/clash"), Some(&m), false);
    assert!(matches!(r, Ok(GrantPlan::ShellScript { .. })));
}

#[test]
fn failing_child_surfaces_exact_stderr() {
    match interpret_output(false, "permission denied".to_string()) {
        Err(GrantError::CommandFailed(m)) => assert_eq!(m, "permission denied"),
        _ => panic!("expected a command failure"),
    }
    let msg = interpret_output(false, "permission denied".to_string()).unwrap_err().message();
    assert_eq!(msg, "permission denied");
}

#[test]
fn successful_child_is_success() {
    assert!(interpret_output(true, String::new()).is_ok());
    assert!(interpret_output(true, "ignored".to_string()).is_ok());
}

#[test]
fn resolution_error_message_is_fixed() {
    let msg = GrantError::Resolution.message();
    assert_eq!(msg, "failed to resolve the core binary path");
}
