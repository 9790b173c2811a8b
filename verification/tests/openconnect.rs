use kuvpn::openconnect::unix::{
    active_utun, elevated_kill_commands, find_askpass, pick_askpass, first_pid, is_cgnat_address, operstate_up, parse_u32, list_available_escalation_tools, needs_password_prompt as needs_sudo_prompt, openconnect_command,
    parse_u8, sys_net_path, tool_requires_password, vpn_interface_name, vpnc_script_text, PasswordFeed,
    VPNC_SCRIPT_TEMPLATE,
};
use kuvpn::openconnect::{
    escalation_candidate_list, locate_openconnect, needs_password_prompt, pick_first_found, pick_openconnect_path,
    resolve_escalation_tool, tool_base_name,
};
use kuvpn::session::TunnelMode;

#[test]
fn base_names() {
    assert_eq!(tool_base_name("/usr/bin/sudo"), "sudo");
    assert_eq!(tool_base_name("sudo"), "sudo");
    assert_eq!(tool_base_name("/usr/local/bin/sudo-rs"), "sudo-rs");
}

#[test]
fn password_prompt_tools() {
    assert!(needs_password_prompt("sudo"));
    assert!(needs_password_prompt("/usr/bin/doas"));
    assert!(!needs_password_prompt("pkexec"));
    assert!(!needs_password_prompt("sudo-rs"));
    assert!(needs_sudo_prompt("/usr/bin/sudo"));
    assert!(needs_sudo_prompt("sudo-rs"));
    assert!(!needs_sudo_prompt("doas"));
    assert!(!needs_sudo_prompt("pkexec"));
    assert!(tool_requires_password("sudo", false));
    assert!(!tool_requires_password("sudo", true));
    assert!(!tool_requires_password("pkexec", false));
}

#[test]
fn candidates_and_choice() {
    let defaults = vec!["sudo".to_string(), "pkexec".to_string()];
    let c = escalation_candidate_list(&defaults, &Some("mytool".to_string()), true);
    assert_eq!(c, vec!["mytool", "sudo", "pkexec"]);
    let c = escalation_candidate_list(&defaults, &Some("mytool".to_string()), false);
    assert_eq!(c, vec!["sudo", "pkexec"]);
    assert_eq!(pick_first_found(&c, &vec![false, true]), Some("pkexec".to_string()));
    assert_eq!(pick_first_found(&c, &vec![false, false]), None);
    // Whatever is installed here, a resolved tool is one of the candidates.
    if let Some(t) = resolve_escalation_tool(&None) {
        assert!(["doas", "sudo", "pkexec"].contains(&t.as_str()));
    }
    let _ = list_available_escalation_tools();
}

#[test]
fn openconnect_location() {
    assert_eq!(pick_openconnect_path("/opt/oc", true, Some("/usr/bin/openconnect".into()), &vec![true, true, true]),
        Some("/opt/oc".to_string()));
    assert_eq!(pick_openconnect_path("openconnect", false, Some("/usr/bin/openconnect".into()), &vec![true, true, true]),
        Some("/usr/bin/openconnect".to_string()));
    assert_eq!(pick_openconnect_path("openconnect", false, None, &vec![false, true, true]),
        Some("/usr/sbin/openconnect".to_string()));
    assert_eq!(pick_openconnect_path("openconnect", false, None, &vec![false, false, false]), None);
    assert_eq!(locate_openconnect("/definitely/not/here/openconnect-xyz"), None);
    assert_eq!(locate_openconnect("/bin/sh"), Some("/bin/sh".to_string()));
}

#[test]
fn interface_names() {
    assert_eq!(sys_net_path("kuvpn0"), "/sys/class/net/kuvpn0");
    assert_eq!(vpn_interface_name("kuvpn0", true), Some("kuvpn0".to_string()));
    assert_eq!(vpn_interface_name("kuvpn0", false), None);
}

#[test]
fn u8_parsing() {
    for s in ["0", "7", "+7", "007", "255", "100"] {
        assert_eq!(parse_u8(s), s.parse::<u8>().ok(), "{}", s);
    }
    for s in ["", "+", "256", "-1", " 1", "1a", "99999999999"] {
        assert_eq!(parse_u8(s), None, "{}", s);
    }
}

#[test]
fn cgnat_range() {
    assert!(is_cgnat_address("100.64.0.1"));
    assert!(is_cgnat_address("100.127.255.255"));
    assert!(!is_cgnat_address("100.63.0.1"));
    assert!(!is_cgnat_address("100.128.0.1"));
    assert!(!is_cgnat_address("10.64.0.1"));
    assert!(!is_cgnat_address("100"));
    assert!(is_cgnat_address("100.100"));
    assert!(!is_cgnat_address(""));
}

#[test]
fn command_lines() {
    let c = openconnect_command("/usr/bin/sudo", false, true, "/usr/sbin/openconnect", "kuvpn0", Some("/tmp/s.sh"), true, "abc", "https://vpn.ku.edu.tr");
    assert_eq!(c.program, "/usr/bin/sudo");
    assert_eq!(c.feed, PasswordFeed::Stdin);
    assert_eq!(c.args, vec!["-S", "/usr/sbin/openconnect", "--protocol", "nc", "--interface", "kuvpn0",
        "--script", "/tmp/s.sh", "--verbose", "-C", "DSID=abc", "https://vpn.ku.edu.tr"]);
    let c = openconnect_command("sudo", true, true, "openconnect", "tun0", None, false, "x", "u");
    assert_eq!(c.feed, PasswordFeed::Askpass);
    assert_eq!(c.args, vec!["-A", "openconnect", "--protocol", "nc", "--interface", "tun0", "-C", "DSID=x", "u"]);
    let c = openconnect_command("pkexec", true, true, "openconnect", "tun0", None, false, "x", "u");
    assert_eq!(c.feed, PasswordFeed::Neither);
    assert_eq!(c.args, vec!["openconnect", "--protocol", "nc", "--interface", "tun0", "-C", "DSID=x", "u"]);
}

#[test]
fn vpnc_scripts() {
    let full = vpnc_script_text(&TunnelMode::Full);
    assert!(full.contains("TUNNEL_MODE=\"full\""));
    assert!(!full.contains("{TUNNEL_MODE}"));
    let split = vpnc_script_text(&TunnelMode::Manual(None));
    assert!(split.contains("TUNNEL_MODE=\"split\""));
    assert_eq!(split, VPNC_SCRIPT_TEMPLATE.replace("{TUNNEL_MODE}", "split"));
    assert!(full.starts_with("#!/bin/sh"));
}

#[test]
fn u32_parsing() {
    for s in ["0", "+7", "4294967295", "4294967296", "", "+", "-1", "12a", " 5", "00042"] {
        assert_eq!(parse_u32(s), s.parse::<u32>().ok(), "{}", s);
    }
}

#[test]
fn pgrep_first_pid() {
    assert_eq!(first_pid("1234\n5678\n"), Some(1234));
    assert_eq!(first_pid("42"), Some(42));
    assert_eq!(first_pid("42\r\n7\n"), Some(42));
    assert_eq!(first_pid(""), None);
    assert_eq!(first_pid("\n12\n"), None);
    assert_eq!(first_pid("abc\n"), None);
    for out in ["1234\n5678\n", "42", "42\r\n7\n", "", "\n12\n", "abc\n", "9\r"] {
        let expected = out.lines().next().and_then(|l| l.parse::<u32>().ok());
        assert_eq!(first_pid(out), expected, "{:?}", out);
    }
}

#[test]
fn operstate_files() {
    assert!(operstate_up(None));
    assert!(operstate_up(Some("up\n")));
    assert!(operstate_up(Some("unknown\n")));
    assert!(!operstate_up(Some("down\n")));
    assert!(!operstate_up(Some("  down ")));
}

#[test]
fn macos_utun_detection() {
    let out = "lo0: flags=8049<UP,LOOPBACK,RUNNING,MULTICAST> mtu 16384\n\tinet 127.0.0.1 netmask 0xff000000\n\
utun0: flags=8051<UP,POINTOPOINT,RUNNING,MULTICAST> mtu 1380\n\tinet6 fe80::1%utun0 prefixlen 64\n\
utun3: flags=8051<UP,POINTOPOINT,RUNNING,MULTICAST> mtu 1280\n\tinet 100.101.5.6 --> 100.101.5.6 netmask 0xffffffff\n\
utun4: flags=8051<UP,POINTOPOINT,RUNNING,MULTICAST> mtu 1400\n\tinet 10.20.30.40 --> 10.20.30.40 netmask 0xffffffff\n\
en0: flags=8863<UP,BROADCAST> mtu 1500\n\tinet 192.168.1.5 netmask 0xffffff00\n";
    assert_eq!(active_utun(out), Some("utun4".to_string()));
    let cgnat_only = "utun3: flags=8051<UP> mtu 1280\n\tinet 100.64.0.1 --> 100.64.0.1\n";
    assert_eq!(active_utun(cgnat_only), None);
    assert_eq!(active_utun(""), None);
    assert_eq!(active_utun("en0: flags\n\tinet 10.0.0.1\n"), None);
}

#[test]
fn askpass_choice() {
    let found = vec![None, Some("/usr/bin/ksshaskpass".to_string()), Some("/usr/bin/x11-ssh-askpass".to_string())];
    assert_eq!(pick_askpass(Some("/opt/askpass".to_string()), true, &found), Some("/opt/askpass".to_string()));
    assert_eq!(pick_askpass(Some("/missing".to_string()), false, &found), Some("/usr/bin/ksshaskpass".to_string()));
    assert_eq!(pick_askpass(None, false, &found), Some("/usr/bin/ksshaskpass".to_string()));
    assert_eq!(pick_askpass(None, true, &vec![None, None]), None);
    // A helper named by SUDO_ASKPASS that is an existing file wins.
    assert_eq!(find_askpass(Some("/bin/sh".to_string())), Some("/bin/sh".to_string()));
}

#[test]
fn elevated_kill_command_lines() {
    let cmds = elevated_kill_commands(4321);
    let view: Vec<(String, Vec<String>)> = cmds.into_iter().map(|c| (c.program, c.args)).collect();
    assert_eq!(
        view,
        vec![
            ("sudo".to_string(), vec!["-n".to_string(), "kill".to_string(), "-15".to_string(), "4321".to_string()]),
            ("sudo-rs".to_string(), vec!["-n".to_string(), "kill".to_string(), "-15".to_string(), "4321".to_string()]),
            ("pkexec".to_string(), vec!["kill".to_string(), "4321".to_string()]),
        ]
    );
}

#[test]
fn bare_tool_names_and_macos_guard() {
    assert!(needs_sudo_prompt("sudo"));
    assert!(needs_sudo_prompt("sudo-rs"));
    assert!(!needs_sudo_prompt("pkexec"));
    assert_eq!(tool_base_name("doas"), "doas");
    assert!(kuvpn::openconnect::unix::macos_tunnel_up(true, true));
    assert!(!kuvpn::openconnect::unix::macos_tunnel_up(false, true));
    assert!(!kuvpn::openconnect::unix::macos_tunnel_up(true, false));
}

#[test]
fn classic_command_lines() {
    let c = kuvpn::openconnect::openconnect_command_classic("sudo", false, true, "/usr/sbin/openconnect", "kuvpn0", "abc", "https://vpn.ku.edu.tr");
    assert_eq!(c.feed, PasswordFeed::Stdin);
    assert_eq!(
        c.args,
        vec!["-S", "/usr/sbin/openconnect", "--protocol", "nc", "--interface", "kuvpn0", "-C", "DSID=abc", "https://vpn.ku.edu.tr"]
    );
    let c = kuvpn::openconnect::openconnect_command_classic("doas", true, true, "oc", "tun0", "x", "u");
    assert_eq!(c.feed, PasswordFeed::Askpass);
    assert_eq!(c.args, vec!["oc", "--protocol", "nc", "--interface", "tun0", "-C", "DSID=x", "u"]);
    let c = kuvpn::openconnect::openconnect_command_classic("pkexec", true, true, "oc", "tun0", "x", "u");
    assert_eq!(c.feed, PasswordFeed::Neither);
    assert_eq!(c.program, "pkexec");
}

#[test]
fn available_tools_filter() {
    let tools = vec!["sudo".to_string(), "sudo-rs".to_string(), "pkexec".to_string()];
    assert_eq!(kuvpn::openconnect::unix::filter_available(&tools, &vec![true, false, true]), vec!["sudo", "pkexec"]);
    assert!(kuvpn::openconnect::unix::filter_available(&tools, &vec![false, false, false]).is_empty());
}

#[test]
fn base_names_match_path_file_name() {
    for p in ["/usr/bin/sudo", "sudo", "a/.", "./", ".", "..", "a/..", "/", "", "//x//", "a/./b", "./a", "a/../b", "x/"] {
        let expected = std::path::Path::new(p)
            .file_name()
            .and_then(|n| n.to_str())
            .unwrap_or(p)
            .to_string();
        assert_eq!(tool_base_name(p), expected, "{:?}", p);
    }
}
