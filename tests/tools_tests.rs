use systers::config::Config;
use systers::tools::{
    check_apt_updates, check_disk_health, check_dnf_updates, check_package_updates,
    check_systemd_status, detect_available_tools, external_tools, find_large_directories,
    format_bytes, list_disks, parse_u64, print_missing_tools_info, PackageManager,
};

#[test]
fn test_format_bytes() {
    assert_eq!(format_bytes(500), "500.00 B");
    assert_eq!(format_bytes(1024), "1.00 KB");
    assert_eq!(format_bytes(1024 * 1024), "1.00 MB");
    assert_eq!(format_bytes(1024 * 1024 * 1024), "1.00 GB");
}

#[test]
fn format_bytes_rounds_and_caps_at_terabytes() {
    assert_eq!(format_bytes(0), "0.00 B");
    assert_eq!(format_bytes(1536), "1.50 KB");
    assert_eq!(format_bytes(1152), "1.12 KB");
    assert_eq!(format_bytes(1_099_511_627_776 * 2048), "2048.00 TB");
}

#[test]
fn test_detect_available_tools() {
    let tools = detect_available_tools(&vec![false, false, false, false, true, true]);
    assert!(!tools.is_empty());
    let names: Vec<&str> = tools.iter().map(|t| t.name).collect();
    assert_eq!(names, vec!["df", "du"]);
}

#[test]
fn missing_tools_are_listed() {
    let lines = print_missing_tools_info(&vec![true, true, true, false, true]);
    assert_eq!(
        lines,
        vec![
            "Optional tools available for enhanced monitoring:".to_string(),
            "  - dnf: Package update checks (RHEL/Fedora)".to_string(),
            "  - du: Directory size analysis".to_string(),
        ]
    );
    assert!(print_missing_tools_info(&vec![true; 6]).is_empty());
    assert_eq!(external_tools().len(), 6);
}

#[test]
fn package_manager_choice() {
    assert_eq!(check_package_updates(true, true), Some(PackageManager::Apt));
    assert_eq!(check_package_updates(false, true), Some(PackageManager::Dnf));
    assert_eq!(check_package_updates(false, false), None);
}

#[test]
fn test_default_config() {
    let config = Config::with_db_path("/tmp/.systers.db".to_string());
    assert_eq!(config.thresholds.cpu_warning, 9000);
    assert_eq!(config.thresholds.memory_warning, 9000);
    assert_eq!(config.thresholds.disk_warning, 8500);
    assert_eq!(config.collection.max_log_lines_per_file, 1000);
    assert_eq!(config.retention.days, 30);
}

#[test]
fn apt_output_is_counted() {
    let out = "Listing...\nlibssl3/jammy-security 3.0.2 amd64 [upgradable]\nvim/jammy-updates 9.0 amd64 [upgradable]\n";
    let info = check_apt_updates(out);
    assert_eq!(info.updates_available, 2);
    assert_eq!(info.security_updates, 1);
    assert_eq!(info.package_manager, "apt");
    assert_eq!(check_apt_updates("").updates_available, 0);
}

#[test]
fn dnf_output_is_counted() {
    let info = check_dnf_updates("\nkernel.x86_64 6.1 updates\n  \nbash.x86_64 5.2 updates\n", "a\nb\nc\n");
    assert_eq!(info.updates_available, 2);
    assert_eq!(info.security_updates, 3);
    assert_eq!(info.package_manager, "dnf");
}

#[test]
fn systemd_output_is_read() {
    let st = check_systemd_status(
        "foo.service loaded failed failed Foo\n\n  bar.service loaded failed failed Bar\n",
        "a\nb\nc\nd\n",
        "a\nb\n",
    );
    assert_eq!(st.failed_service_names, vec!["foo.service".to_string(), "bar.service".to_string()]);
    assert_eq!(st.failed_services, 2);
    assert_eq!(st.total_services, 4);
    assert_eq!(st.active_services, 2);
}

#[test]
fn smart_and_lsblk_output_is_read() {
    let h = check_disk_health("/dev/sda".to_string(), "SMART overall-health self-assessment test result: PASSED");
    assert_eq!(h.health_status, "PASSED");
    assert_eq!(h.device, "/dev/sda");
    assert_eq!(check_disk_health("/dev/sdb".to_string(), "result: FAILED!").health_status, "FAILED");
    assert_eq!(check_disk_health("/dev/sdc".to_string(), "no verdict").health_status, "UNKNOWN");
    assert_eq!(
        list_disks("sda  disk\nsda1 part\nnvme0n1 disk\nsr0 rom\n"),
        vec!["/dev/sda".to_string(), "/dev/nvme0n1".to_string()]
    );
}

#[test]
fn du_output_is_sorted_and_limited() {
    let out = "4\t/a\n12\t/b c\nx\t/bad\n12\t/d\n8\t/e\n1\n";
    let dirs = find_large_directories(out, 3);
    let got: Vec<(&str, u64)> = dirs.iter().map(|d| (d.path.as_str(), d.size_bytes)).collect();
    assert_eq!(got, vec![("/b c", 12288), ("/d", 12288), ("/e", 8192)]);
    assert_eq!(dirs[0].size_human, "12.00 KB");
    assert_eq!(parse_u64("18446744073709551615"), Some(u64::MAX));
    assert_eq!(parse_u64("18446744073709551616"), None);
    assert_eq!(parse_u64(""), None);
    assert_eq!(parse_u64("12a"), None);
}

#[test]
fn text_splitting_follows_std() {
    for s in ["", "a", "a\n", "a\r\nb", "a\n\nb\r", "\n", "x\r\n\r\n", " a  b\t\u{a0}c \u{3000}"] {
        let ours = systers::text::split_lines(s);
        let std_lines: Vec<String> = s.lines().map(|l| l.to_string()).collect();
        assert_eq!(ours, std_lines, "lines of {:?}", s);
        let std_trim = s.trim().to_string();
        assert_eq!(systers::text::trimmed(s), std_trim, "trim of {:?}", s);
        let cs: Vec<char> = s.chars().collect();
        let ours_words: Vec<String> =
            systers::text::split_words(&cs).iter().map(|w| w.iter().collect()).collect();
        let std_words: Vec<String> = s.split_whitespace().map(|w| w.to_string()).collect();
        assert_eq!(ours_words, std_words, "words of {:?}", s);
    }
}
