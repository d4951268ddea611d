//! External tools for optional system checks, and the reading of their output.
//!
//! Running the tools is left to the caller; which tools to use and what their
//! output says is decided here.
use vstd::prelude::*;
use crate::decimal::{hundredths_text, push_hundredths, push_str};
use crate::text::{char_seqs, chars_of, contains, has_substring, lines, split_lines, split_words, string_of, words};

verus! {

/// An external tool that enables a check.
#[derive(Debug, Clone, Copy)]
pub struct ExternalTool {
    pub name: &'static str,
    pub description: &'static str,
    pub command: &'static str,
    pub install_hint: &'static str,
}

/// Number of known external tools.
pub const TOOL_COUNT: usize = 6;

/// The known external tools, in their fixed order.
pub open spec fn known_tools() -> Seq<ExternalTool> {
    seq![
        ExternalTool {
            name: "smartctl",
            description: "SMART disk health monitoring",
            command: "smartctl",
            install_hint: "sudo apt install smartmontools  # Debian/Ubuntu\nsudo dnf install smartmontools  # RHEL/Fedora",
        },
        ExternalTool {
            name: "journalctl",
            description: "Systemd journal log access",
            command: "journalctl",
            install_hint: "Usually pre-installed with systemd",
        },
        ExternalTool {
            name: "apt",
            description: "Package update checks (Debian/Ubuntu)",
            command: "apt",
            install_hint: "Pre-installed on Debian/Ubuntu systems",
        },
        ExternalTool {
            name: "dnf",
            description: "Package update checks (RHEL/Fedora)",
            command: "dnf",
            install_hint: "Pre-installed on RHEL/Fedora systems",
        },
        ExternalTool {
            name: "df",
            description: "Disk space usage",
            command: "df",
            install_hint: "Pre-installed (coreutils)",
        },
        ExternalTool {
            name: "du",
            description: "Directory size analysis",
            command: "du",
            install_hint: "Pre-installed (coreutils)",
        },
    ]
}

pub fn external_tools() -> (r: Vec<ExternalTool>)
    ensures
        r@ == known_tools(),
        r@.len() == TOOL_COUNT,
{
    let mut v: Vec<ExternalTool> = Vec::new();
    v.push(ExternalTool {
        name: "smartctl",
        description: "SMART disk health monitoring",
        command: "smartctl",
        install_hint: "sudo apt install smartmontools  # Debian/Ubuntu\nsudo dnf install smartmontools  # RHEL/Fedora",
    });
    v.push(ExternalTool {
        name: "journalctl",
        description: "Systemd journal log access",
        command: "journalctl",
        install_hint: "Usually pre-installed with systemd",
    });
    v.push(ExternalTool {
        name: "apt",
        description: "Package update checks (Debian/Ubuntu)",
        command: "apt",
        install_hint: "Pre-installed on Debian/Ubuntu systems",
    });
    v.push(ExternalTool {
        name: "dnf",
        description: "Package update checks (RHEL/Fedora)",
        command: "dnf",
        install_hint: "Pre-installed on RHEL/Fedora systems",
    });
    v.push(ExternalTool {
        name: "df",
        description: "Disk space usage",
        command: "df",
        install_hint: "Pre-installed (coreutils)",
    });
    v.push(ExternalTool {
        name: "du",
        description: "Directory size analysis",
        command: "du",
        install_hint: "Pre-installed (coreutils)",
    });
    v
}

/// Whether entry `i` of `available` says yes; missing entries say no.
pub open spec fn flag(available: Seq<bool>, i: int) -> bool {
    0 <= i < available.len() && available[i]
}

/// The tools of `tools` whose flag is `want`, in order.
pub open spec fn tools_with(tools: Seq<ExternalTool>, available: Seq<bool>, want: bool) -> Seq<ExternalTool>
    decreases tools.len(),
{
    if tools.len() == 0 {
        Seq::empty()
    } else {
        let prev = tools_with(tools.drop_last(), available, want);
        if flag(available, tools.len() - 1) == want {
            prev.push(tools.last())
        } else {
            prev
        }
    }
}

fn select_tools(tools: &Vec<ExternalTool>, available: &Vec<bool>, want: bool) -> (r: Vec<ExternalTool>)
    ensures
        r@ == tools_with(tools@, available@, want),
{
    let mut out: Vec<ExternalTool> = Vec::new();
    let mut i: usize = 0;
    while i < tools.len()
        invariant
            i <= tools.len(),
            out@ == tools_with(tools@.subrange(0, i as int), available@, want),
        decreases tools.len() - i,
    {
        proof {
            assert(tools@.subrange(0, i + 1).drop_last() =~= tools@.subrange(0, i as int));
        }
        let has = i < available.len() && available[i];
        if has == want {
            out.push(tools[i]);
        }
        i += 1;
    }
    proof {
        assert(tools@.subrange(0, tools.len() as int) =~= tools@);
    }
    out
}

/// The known tools that are available, where `available[i]` tells whether the
/// command of tool `i` of `external_tools()` was found.
pub fn detect_available_tools(available: &Vec<bool>) -> (r: Vec<ExternalTool>)
    ensures
        r@ == tools_with(known_tools(), available@, true),
{
    let tools = external_tools();
    select_tools(&tools, available, true)
}

/// The text of one line about a missing tool.
pub open spec fn missing_line(t: ExternalTool) -> Seq<char> {
    "  - "@ + t.name@ + ": "@ + t.description@
}

/// The lines telling which tools are missing: none when nothing is missing,
/// else a heading and one line per missing tool.
pub open spec fn missing_info(missing: Seq<ExternalTool>) -> Seq<Seq<char>> {
    if missing.len() == 0 {
        Seq::empty()
    } else {
        seq!["Optional tools available for enhanced monitoring:"@] + missing.map_values(
            |t: ExternalTool| missing_line(t),
        )
    }
}

/// The lines to log about the known tools that are not available.
pub fn print_missing_tools_info(available: &Vec<bool>) -> (r: Vec<String>)
    ensures
        r@.map_values(|s: String| s@) == missing_info(tools_with(known_tools(), available@, false)),
{
    let tools = external_tools();
    let missing = select_tools(&tools, available, false);
    let mut out: Vec<String> = Vec::new();
    if missing.len() > 0 {
        out.push(String::from_str("Optional tools available for enhanced monitoring:"));
        let mut i: usize = 0;
        while i < missing.len()
            invariant
                i <= missing.len(),
                missing.len() > 0,
                out@.map_values(|s: String| s@) =~= seq!["Optional tools available for enhanced monitoring:"@]
                    + missing@.subrange(0, i as int).map_values(|t: ExternalTool| missing_line(t)),
            decreases missing.len() - i,
        {
            let t = missing[i];
            let mut line: Vec<char> = Vec::new();
            push_str(&mut line, "  - ");
            push_str(&mut line, t.name);
            push_str(&mut line, ": ");
            push_str(&mut line, t.description);
            assert(line@ =~= missing_line(t));
            let text = string_of(&line);
            let ghost before = out@;
            out.push(text);
            proof {
                let hd = seq!["Optional tools available for enhanced monitoring:"@];
                assert(out@.map_values(|s: String| s@) =~= before.map_values(|s: String| s@).push(
                    text@,
                ));
                assert(missing@.subrange(0, i + 1) =~= missing@.subrange(0, i as int).push(t));
                assert(missing@.subrange(0, i + 1).map_values(|t: ExternalTool| missing_line(t))
                    =~= missing@.subrange(0, i as int).map_values(|t: ExternalTool| missing_line(t)).push(
                    missing_line(t),
                ));
                assert(hd + missing@.subrange(0, i + 1).map_values(|t: ExternalTool| missing_line(t))
                    =~= (hd + missing@.subrange(0, i as int).map_values(|t: ExternalTool| missing_line(t))).push(
                    missing_line(t),
                ));
            }
            i += 1;
        }
        proof {
            assert(missing@.subrange(0, missing.len() as int) =~= missing@);
        }
    }
    assert(out@.map_values(|s: String| s@) =~= missing_info(missing@));
    out
}

/// A package manager whose updates can be checked.
#[derive(Debug, Clone, Copy, PartialEq, Eq, Structural)]
pub enum PackageManager {
    Apt,
    Dnf,
}

/// Chooses the package manager to check: apt when available, else dnf, else none.
pub fn check_package_updates(apt_available: bool, dnf_available: bool) -> (r: Option<PackageManager>)
    ensures
        apt_available ==> r == Some(PackageManager::Apt),
        !apt_available && dnf_available ==> r == Some(PackageManager::Dnf),
        !apt_available && !dnf_available ==> r is None,
{
    if apt_available {
        Some(PackageManager::Apt)
    } else if dnf_available {
        Some(PackageManager::Dnf)
    } else {
        None
    }
}

/// How many times `b` can be divided by 1024, at most four.
pub open spec fn unit_index(b: nat) -> nat {
    if b < 0x400 {
        0
    } else if b < 0x10_0000 {
        1
    } else if b < 0x4000_0000 {
        2
    } else if b < 0x100_0000_0000 {
        3
    } else {
        4
    }
}

/// 1024 to the power `k`.
pub open spec fn unit_size(k: nat) -> nat {
    if k == 0 {
        1
    } else if k == 1 {
        0x400
    } else if k == 2 {
        0x10_0000
    } else if k == 3 {
        0x4000_0000
    } else {
        0x100_0000_0000
    }
}

/// The name of unit `k`.
pub open spec fn unit_name(k: nat) -> Seq<char> {
    if k == 0 {
        "B"@
    } else if k == 1 {
        "KB"@
    } else if k == 2 {
        "MB"@
    } else if k == 3 {
        "GB"@
    } else {
        "TB"@
    }
}

/// `n / d` in hundredths, rounded to nearest with ties to even.
pub open spec fn hundredths_of(n: nat, d: nat) -> nat
    recommends
        d > 0,
{
    let q = (n * 100) / d;
    let rem = (n * 100) % d;
    if 2 * rem > d || (2 * rem == d && q % 2 == 1) {
        q + 1
    } else {
        q
    }
}

/// A byte count in the largest unit (up to TB) that leaves at least one, with
/// two decimals.
pub open spec fn bytes_text(b: nat) -> Seq<char> {
    let k = unit_index(b);
    hundredths_text(hundredths_of(b, unit_size(k))) + " "@ + unit_name(k)
}

/// Writes a byte count for people: "500.00 B", "1.00 KB", "1.50 MB".
pub fn format_bytes(bytes: u64) -> (r: String)
    ensures
        r@ == bytes_text(bytes as nat),
{
    let (d, unit): (u64, &str) = if bytes < 0x400 {
        (1, "B")
    } else if bytes < 0x10_0000 {
        (0x400, "KB")
    } else if bytes < 0x4000_0000 {
        (0x10_0000, "MB")
    } else if bytes < 0x100_0000_0000 {
        (0x4000_0000, "GB")
    } else {
        (0x100_0000_0000, "TB")
    };
    let ghost k = unit_index(bytes as nat);
    assert(d == unit_size(k) && unit@ == unit_name(k));
    let n: u128 = bytes as u128 * 100;
    let q: u128 = n / (d as u128);
    let rem: u128 = n % (d as u128);
    let h: u128 = if 2 * rem > d as u128 || (2 * rem == d as u128 && q % 2 == 1) {
        q + 1
    } else {
        q
    };
    assert(q <= n) by (nonlinear_arith)
        requires
            q as int == n as int / (d as int),
            d >= 1,
    {}
    assert(h == hundredths_of(bytes as nat, d as nat));
    let mut out: Vec<char> = Vec::new();
    push_hundredths(&mut out, h as u64);
    push_str(&mut out, " ");
    push_str(&mut out, unit);
    assert(out@ =~= bytes_text(bytes as nat));
    string_of(&out)
}

// ---------------------------------------------------------------------------
// Reading tool output

/// The texts of a sequence of strings.
pub open spec fn texts(v: Seq<String>) -> Seq<Seq<char>> {
    v.map_values(|s: String| s@)
}

/// Number of lines of `ls` in which `p` occurs.
pub open spec fn count_containing(ls: Seq<Seq<char>>, p: Seq<char>) -> nat
    decreases ls.len(),
{
    if ls.len() == 0 {
        0
    } else {
        count_containing(ls.drop_last(), p) + if has_substring(ls.last(), p) { 1nat } else { 0nat }
    }
}

/// Number of lines of `ls` that are not blank.
pub open spec fn count_nonblank(ls: Seq<Seq<char>>) -> nat
    decreases ls.len(),
{
    if ls.len() == 0 {
        0
    } else {
        count_nonblank(ls.drop_last()) + if crate::text::trim(ls.last()).len() > 0 {
            1nat
        } else {
            0nat
        }
    }
}

fn count_lines_containing(ls: &Vec<String>, p: &str) -> (r: usize)
    ensures
        r == count_containing(texts(ls@), p@),
{
    let mut n: usize = 0;
    let mut i: usize = 0;
    while i < ls.len()
        invariant
            i <= ls.len(),
            n <= i,
            n == count_containing(texts(ls@.subrange(0, i as int)), p@),
        decreases ls.len() - i,
    {
        proof {
            assert(texts(ls@.subrange(0, i + 1)).drop_last() =~= texts(ls@.subrange(0, i as int)));
        }
        let cs = chars_of(ls[i].as_str());
        if contains(&cs, p) {
            n += 1;
        }
        i += 1;
    }
    proof {
        assert(ls@.subrange(0, ls.len() as int) =~= ls@);
    }
    n
}

fn is_nonblank(s: &str) -> (r: bool)
    ensures
        r == (crate::text::trim(s@).len() > 0),
{
    let t = crate::text::trimmed(s);
    t.as_str().unicode_len() > 0
}

fn count_nonblank_lines(ls: &Vec<String>) -> (r: usize)
    ensures
        r == count_nonblank(texts(ls@)),
{
    let mut n: usize = 0;
    let mut i: usize = 0;
    while i < ls.len()
        invariant
            i <= ls.len(),
            n <= i,
            n == count_nonblank(texts(ls@.subrange(0, i as int))),
        decreases ls.len() - i,
    {
        proof {
            assert(texts(ls@.subrange(0, i + 1)).drop_last() =~= texts(ls@.subrange(0, i as int)));
        }
        if is_nonblank(ls[i].as_str()) {
            n += 1;
        }
        i += 1;
    }
    proof {
        assert(ls@.subrange(0, ls.len() as int) =~= ls@);
    }
    n
}

/// Updates reported by a package manager.
#[derive(Debug)]
pub struct PackageUpdateInfo {
    pub total_packages: usize,
    pub updates_available: usize,
    pub security_updates: usize,
    pub package_manager: String,
}

/// Reads the output of `apt list --upgradable`: every line but the leading
/// "Listing..." is an update, and those that mention "security" are security updates.
pub fn check_apt_updates(list_output: &str) -> (r: PackageUpdateInfo)
    ensures
        r.updates_available == (if lines(list_output@).len() > 0 {
            lines(list_output@).len() - 1
        } else {
            0
        }),
        r.security_updates == count_containing(lines(list_output@), "security"@),
        r.total_packages == 0,
        r.package_manager@ == "apt"@,
{
    let lines = split_lines(list_output);
    let updates = if lines.len() > 0 {
        lines.len() - 1
    } else {
        0
    };
    let security = count_lines_containing(&lines, "security");
    PackageUpdateInfo {
        total_packages: 0,
        updates_available: updates,
        security_updates: security,
        package_manager: String::from_str("apt"),
    }
}

/// Reads the outputs of `dnf check-update` (one update per non-blank line) and
/// of `dnf updateinfo list security` (one security update per line).
pub fn check_dnf_updates(check_output: &str, security_output: &str) -> (r: PackageUpdateInfo)
    ensures
        r.updates_available == count_nonblank(lines(check_output@)),
        r.security_updates == lines(security_output@).len(),
        r.total_packages == 0,
        r.package_manager@ == "dnf"@,
{
    let lines = split_lines(check_output);
    let updates = count_nonblank_lines(&lines);
    let security = split_lines(security_output).len();
    PackageUpdateInfo {
        total_packages: 0,
        updates_available: updates,
        security_updates: security,
        package_manager: String::from_str("dnf"),
    }
}

/// The first word of `s`, or nothing.
pub open spec fn first_word(s: Seq<char>) -> Seq<char> {
    if words(s).len() > 0 {
        words(s)[0]
    } else {
        Seq::empty()
    }
}

fn first_word_of(s: &str) -> (r: String)
    ensures
        r@ == first_word(s@),
{
    let ws = split_words(&chars_of(s));
    if ws.len() > 0 {
        proof {
            assert(char_seqs(ws@)[0] == ws@[0]@);
        }
        string_of(&ws[0])
    } else {
        String::new()
    }
}

/// The first words of the non-blank lines of `ls`, in order.
pub open spec fn first_words(ls: Seq<Seq<char>>) -> Seq<Seq<char>>
    decreases ls.len(),
{
    if ls.len() == 0 {
        Seq::empty()
    } else if crate::text::trim(ls.last()).len() > 0 {
        first_words(ls.drop_last()).push(first_word(ls.last()))
    } else {
        first_words(ls.drop_last())
    }
}

/// Service counts reported by systemd.
#[derive(Debug)]
pub struct SystemdServiceStatus {
    pub total_services: usize,
    pub active_services: usize,
    pub failed_services: usize,
    pub failed_service_names: Vec<String>,
}

/// Reads the outputs of `systemctl --failed` (one failed unit, named by its
/// first word, per non-blank line) and of the listings of all and of active
/// services (one service per line).
pub fn check_systemd_status(failed_output: &str, all_output: &str, active_output: &str) -> (r: SystemdServiceStatus)
    ensures
        texts(r.failed_service_names@) == first_words(lines(failed_output@)),
        r.failed_services == r.failed_service_names@.len(),
        r.total_services == lines(all_output@).len(),
        r.active_services == lines(active_output@).len(),
{
    let lines = split_lines(failed_output);
    let mut names: Vec<String> = Vec::new();
    let mut i: usize = 0;
    while i < lines.len()
        invariant
            i <= lines.len(),
            texts(names@) == first_words(texts(lines@.subrange(0, i as int))),
        decreases lines.len() - i,
    {
        proof {
            assert(texts(lines@.subrange(0, i + 1)).drop_last() =~= texts(lines@.subrange(0, i as int)));
        }
        if is_nonblank(lines[i].as_str()) {
            let w = first_word_of(lines[i].as_str());
            let ghost before = names@;
            names.push(w);
            proof {
                assert(texts(names@) =~= texts(before).push(w@));
            }
        }
        i += 1;
    }
    proof {
        assert(lines@.subrange(0, lines.len() as int) =~= lines@);
    }
    let total = split_lines(all_output).len();
    let active = split_lines(active_output).len();
    let failed = names.len();
    SystemdServiceStatus {
        total_services: total,
        active_services: active,
        failed_services: failed,
        failed_service_names: names,
    }
}

/// SMART health of one disk.
#[derive(Debug)]
pub struct DiskHealthInfo {
    pub device: String,
    pub health_status: String,
    pub temperature: Option<i32>,
    pub power_on_hours: Option<u64>,
    pub reallocated_sectors: Option<u64>,
}

/// The health verdict of `smartctl -H` output: PASSED before FAILED, else UNKNOWN.
pub open spec fn health_text(out: Seq<char>) -> Seq<char> {
    if has_substring(out, "PASSED"@) {
        "PASSED"@
    } else if has_substring(out, "FAILED"@) {
        "FAILED"@
    } else {
        "UNKNOWN"@
    }
}

/// Reads the health of `device` from its `smartctl -H -A` output.
pub fn check_disk_health(device: String, smart_output: &str) -> (r: DiskHealthInfo)
    ensures
        r.device == device,
        r.health_status@ == health_text(smart_output@),
        r.temperature is None,
        r.power_on_hours is None,
        r.reallocated_sectors is None,
{
    let cs = chars_of(smart_output);
    let status = if contains(&cs, "PASSED") {
        String::from_str("PASSED")
    } else if contains(&cs, "FAILED") {
        String::from_str("FAILED")
    } else {
        String::from_str("UNKNOWN")
    };
    DiskHealthInfo {
        device,
        health_status: status,
        temperature: None,
        power_on_hours: None,
        reallocated_sectors: None,
    }
}

/// The device paths of the lines of `ls` that mention "disk", in order.
pub open spec fn disk_devices(ls: Seq<Seq<char>>) -> Seq<Seq<char>>
    decreases ls.len(),
{
    if ls.len() == 0 {
        Seq::empty()
    } else if has_substring(ls.last(), "disk"@) {
        disk_devices(ls.drop_last()).push("/dev/"@ + first_word(ls.last()))
    } else {
        disk_devices(ls.drop_last())
    }
}

/// Reads the whole-disk devices from `lsblk -d -n -o NAME,TYPE` output.
pub fn list_disks(lsblk_output: &str) -> (r: Vec<String>)
    ensures
        texts(r@) == disk_devices(lines(lsblk_output@)),
{
    let lines = split_lines(lsblk_output);
    let mut out: Vec<String> = Vec::new();
    let mut i: usize = 0;
    while i < lines.len()
        invariant
            i <= lines.len(),
            texts(out@) == disk_devices(texts(lines@.subrange(0, i as int))),
        decreases lines.len() - i,
    {
        proof {
            assert(texts(lines@.subrange(0, i + 1)).drop_last() =~= texts(lines@.subrange(0, i as int)));
        }
        let cs = chars_of(lines[i].as_str());
        if contains(&cs, "disk") {
            let w = first_word_of(lines[i].as_str());
            let mut dev: Vec<char> = Vec::new();
            push_str(&mut dev, "/dev/");
            push_str(&mut dev, w.as_str());
            let d = string_of(&dev);
            let ghost before = out@;
            out.push(d);
            proof {
                assert(texts(out@) =~= texts(before).push(d@));
            }
        }
        i += 1;
    }
    proof {
        assert(lines@.subrange(0, lines.len() as int) =~= lines@);
    }
    out
}

/// The value of the ASCII digit `c`, if it is one.
pub open spec fn digit_value(c: char) -> Option<nat> {
    if '0' <= c && c <= '9' {
        Some((c as nat - '0' as nat) as nat)
    } else {
        None
    }
}

/// The number written in decimal by the digits `s`, if all of them are digits.
pub open spec fn decimal_value(s: Seq<char>) -> Option<nat>
    decreases s.len(),
{
    if s.len() == 0 {
        Some(0)
    } else {
        match (decimal_value(s.drop_last()), digit_value(s.last())) {
            (Some(v), Some(d)) => Some(v * 10 + d),
            _ => None,
        }
    }
}

/// A non-empty run of decimal digits whose value fits in `u64`.
pub open spec fn parse_u64_spec(s: Seq<char>) -> Option<u64> {
    if s.len() > 0 && decimal_value(s) is Some && decimal_value(s)->0 <= u64::MAX {
        Some(decimal_value(s)->0 as u64)
    } else {
        None
    }
}

proof fn lemma_decimal_monotone(s: Seq<char>, i: int)
    requires
        0 <= i <= s.len(),
        decimal_value(s) is Some,
    ensures
        decimal_value(s.subrange(0, i)) is Some,
        decimal_value(s.subrange(0, i))->0 <= decimal_value(s)->0,
    decreases s.len() - i,
{
    if i < s.len() {
        lemma_decimal_monotone(s, i + 1);
        assert(s.subrange(0, i + 1).drop_last() =~= s.subrange(0, i));
    } else {
        assert(s.subrange(0, i) =~= s);
    }
}

/// Reads a non-empty run of decimal digits as a `u64`; `None` for anything
/// else or for a value that does not fit.
pub fn parse_u64(s: &str) -> (r: Option<u64>)
    ensures
        r == parse_u64_spec(s@),
{
    let cs = chars_of(s);
    parse_u64_chars(&cs)
}

fn parse_u64_chars(cs: &Vec<char>) -> (r: Option<u64>)
    ensures
        r == parse_u64_spec(cs@),
{
    if cs.len() == 0 {
        return None;
    }
    let mut v: u64 = 0;
    let mut i: usize = 0;
    while i < cs.len()
        invariant
            i <= cs.len(),
            decimal_value(cs@.subrange(0, i as int)) == Some(v as nat),
        decreases cs.len() - i,
    {
        proof {
            assert(cs@.subrange(0, i + 1).drop_last() =~= cs@.subrange(0, i as int));
        }
        let c = cs[i];
        if c < '0' || c > '9' {
            proof {
                assert(decimal_value(cs@.subrange(0, i + 1)) is None);
                if decimal_value(cs@) is Some {
                    lemma_decimal_monotone(cs@, i + 1);
                }
            }
            return None;
        }
        let d = (c as u32 - '0' as u32) as u64;
        if v > (u64::MAX - d) / 10 {
            proof {
                assert(v * 10 + d > u64::MAX) by (nonlinear_arith)
                    requires
                        v > (u64::MAX - d) / 10,
                        d <= 9,
                {}
                if decimal_value(cs@) is Some {
                    lemma_decimal_monotone(cs@, i + 1);
                }
            }
            return None;
        }
        assert(v * 10 + d <= u64::MAX) by (nonlinear_arith)
            requires
                v <= (u64::MAX - d) / 10,
                d <= 9,
        {}
        v = v * 10 + d;
        i += 1;
    }
    proof {
        assert(cs@.subrange(0, cs.len() as int) =~= cs@);
    }
    Some(v)
}

/// Words joined by single spaces.
pub open spec fn join_words(ws: Seq<Seq<char>>) -> Seq<char>
    decreases ws.len(),
{
    if ws.len() == 0 {
        Seq::empty()
    } else if ws.len() == 1 {
        ws[0]
    } else {
        join_words(ws.drop_last()) + " "@ + ws.last()
    }
}

/// Size of one directory, as `du` reports it.
#[derive(Debug)]
pub struct DirectorySizeInfo {
    pub path: String,
    pub size_bytes: u64,
    /// The size written for people, as `format_bytes` writes it.
    pub size_human: String,
}

/// (path, size in bytes) of one line of `du` output: its first word is a size
/// in KiB and the rest, joined by single spaces, the path. Lines with fewer than
/// two words, a size that is not a number, or one whose byte count does not fit
/// in `u64` are not entries.
pub open spec fn du_entry(line: Seq<char>) -> Option<(Seq<char>, u64)> {
    let ws = words(line);
    if ws.len() >= 2 {
        match parse_u64_spec(ws[0]) {
            Some(kb) => if kb * 1024 <= u64::MAX {
                Some((join_words(ws.subrange(1, ws.len() as int)), (kb * 1024) as u64))
            } else {
                None
            },
            None => None,
        }
    } else {
        None
    }
}

/// The entries of the lines of `du` output, in order.
pub open spec fn du_entries(ls: Seq<Seq<char>>) -> Seq<(Seq<char>, u64)>
    decreases ls.len(),
{
    if ls.len() == 0 {
        Seq::empty()
    } else {
        match du_entry(ls.last()) {
            Some(e) => du_entries(ls.drop_last()).push(e),
            None => du_entries(ls.drop_last()),
        }
    }
}

/// Where `size` goes in `s` (sorted largest first): after every entry at least as large.
pub open spec fn insert_pos(s: Seq<(Seq<char>, u64)>, size: u64, k: int) -> int
    decreases s.len() - k,
{
    if 0 <= k < s.len() && s[k].1 >= size {
        insert_pos(s, size, k + 1)
    } else {
        k
    }
}

/// `s` sorted by size, largest first; entries of equal size keep their order.
pub open spec fn sort_by_size(s: Seq<(Seq<char>, u64)>) -> Seq<(Seq<char>, u64)>
    decreases s.len(),
{
    if s.len() == 0 {
        Seq::empty()
    } else {
        let sorted = sort_by_size(s.drop_last());
        sorted.insert(insert_pos(sorted, s.last().1, 0), s.last())
    }
}

/// The (path, size) of each entry.
pub open spec fn dir_models(v: Seq<DirectorySizeInfo>) -> Seq<(Seq<char>, u64)> {
    v.map_values(|d: DirectorySizeInfo| (d.path@, d.size_bytes))
}

fn push_chars(out: &mut Vec<char>, w: &Vec<char>)
    ensures
        final(out)@ == old(out)@ + w@,
{
    let mut k: usize = 0;
    while k < w.len()
        invariant
            k <= w.len(),
            out@ =~= old(out)@ + w@.subrange(0, k as int),
        decreases w.len() - k,
    {
        out.push(w[k]);
        k += 1;
    }
}

fn join_from(ws: &Vec<Vec<char>>, from: usize) -> (r: String)
    requires
        from < ws.len(),
    ensures
        r@ == join_words(char_seqs(ws@).subrange(from as int, ws.len() as int)),
{
    let mut out: Vec<char> = Vec::new();
    push_chars(&mut out, &ws[from]);
    let mut i: usize = from + 1;
    proof {
        let sub = char_seqs(ws@).subrange(from as int, from + 1);
        assert(sub.len() == 1);
        assert(out@ =~= join_words(sub));
    }
    while i < ws.len()
        invariant
            from < i <= ws.len(),
            out@ == join_words(char_seqs(ws@).subrange(from as int, i as int)),
        decreases ws.len() - i,
    {
        push_str(&mut out, " ");
        push_chars(&mut out, &ws[i]);
        proof {
            let next = char_seqs(ws@).subrange(from as int, i + 1);
            assert(next.drop_last() =~= char_seqs(ws@).subrange(from as int, i as int));
            assert(next.len() >= 2);
        }
        i += 1;
    }
    string_of(&out)
}

fn du_line_entry(line: &str) -> (r: Option<(String, u64)>)
    ensures
        r matches Some(e) ==> du_entry(line@) == Some((e.0@, e.1)),
        r is None ==> du_entry(line@) is None,
{
    let ws = split_words(&chars_of(line));
    if ws.len() < 2 {
        return None;
    }
    proof {
        assert(char_seqs(ws@)[0] == ws@[0]@);
    }
    let kb = parse_u64_chars(&ws[0])?;
    let size = kb.checked_mul(1024)?;
    Some((join_from(&ws, 1), size))
}

fn insert_by_size(out: &mut Vec<DirectorySizeInfo>, d: DirectorySizeInfo) -> (k: usize)
    ensures
        k <= old(out)@.len(),
        final(out)@ == old(out)@.insert(k as int, d),
        dir_models(final(out)@) == dir_models(old(out)@).insert(
            insert_pos(dir_models(old(out)@), d.size_bytes, 0),
            (d.path@, d.size_bytes),
        ),
{
    let ghost m = dir_models(out@);
    let mut k: usize = 0;
    while k < out.len() && out[k].size_bytes >= d.size_bytes
        invariant
            m == dir_models(out@),
            k <= out.len(),
            insert_pos(m, d.size_bytes, 0) == insert_pos(m, d.size_bytes, k as int),
        decreases out.len() - k,
    {
        k += 1;
    }
    let ghost e = (d.path@, d.size_bytes);
    out.insert(k, d);
    assert(dir_models(out@) =~= m.insert(k as int, e));
    k
}

/// Reads `du` output into the `limit` largest entries, largest first; entries
/// of equal size keep the order `du` gave them.
pub fn find_large_directories(du_output: &str, limit: usize) -> (r: Vec<DirectorySizeInfo>)
    ensures
        dir_models(r@) == crate::report::first_n(sort_by_size(du_entries(lines(du_output@))), limit as nat),
        forall|k: int| 0 <= k < r@.len() ==> (#[trigger] r@[k]).size_human@ == bytes_text(r@[k].size_bytes as nat),
{
    let lines = split_lines(du_output);
    let mut out: Vec<DirectorySizeInfo> = Vec::new();
    let mut i: usize = 0;
    while i < lines.len()
        invariant
            i <= lines.len(),
            dir_models(out@) == sort_by_size(du_entries(texts(lines@.subrange(0, i as int)))),
            forall|k: int| 0 <= k < out@.len() ==> (#[trigger] out@[k]).size_human@ == bytes_text(out@[k].size_bytes as nat),
        decreases lines.len() - i,
    {
        let ghost prev = texts(lines@.subrange(0, i as int));
        proof {
            assert(texts(lines@.subrange(0, i + 1)).drop_last() =~= prev);
        }
        if let Some((path, size)) = du_line_entry(lines[i].as_str()) {
            let human = format_bytes(size);
            let ghost path_text = path@;
            let d = DirectorySizeInfo { path, size_bytes: size, size_human: human };
            let ghost before = out@;
            let p = insert_by_size(&mut out, d);
            proof {
                let es = du_entries(prev);
                let e = (path_text, size);
                assert(du_entries(texts(lines@.subrange(0, i + 1))) == es.push(e));
                assert(es.push(e).drop_last() =~= es);
                assert(es.push(e).last() == e);
            }
            proof {
                assert forall|k: int| 0 <= k < out@.len() implies (#[trigger] out@[k]).size_human@
                    == bytes_text(out@[k].size_bytes as nat) by {
                    if k < p {
                        assert(out@[k] == before[k]);
                    } else if k > p {
                        assert(out@[k] == before[k - 1]);
                    }
                }
            }
        } else {
            proof {
                assert(du_entries(texts(lines@.subrange(0, i + 1))) == du_entries(prev));
            }
        }
        i += 1;
    }
    proof {
        assert(lines@.subrange(0, lines.len() as int) =~= lines@);
    }
    if out.len() > limit {
        out.truncate(limit);
    }
    out
}

} // verus!
