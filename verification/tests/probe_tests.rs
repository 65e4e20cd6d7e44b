use anti_tamper::denylist::{contains_bytes, dangerous_process_names, image_base_name, name_matches_denylist, to_lower};
use anti_tamper::protection::AntiDebug;

fn snapshot(names: &[&str]) -> Vec<Vec<u8>> {
    names.iter().map(|n| n.as_bytes().to_vec()).collect()
}

#[test]
fn snapshot_with_a_debugger_detects() {
    let snap = snapshot(&["explorer.exe", "x64dbg.exe", "chrome.exe"]);
    assert!(AntiDebug::detect_analysis_tools(&snap));
}

#[test]
fn snapshot_without_tools_stays_silent() {
    let snap = snapshot(&["explorer.exe", "chrome.exe", "notepad.exe"]);
    assert!(!AntiDebug::detect_analysis_tools(&snap));
}

#[test]
fn empty_snapshot_stays_silent() {
    let snap: Vec<Vec<u8>> = Vec::new();
    assert!(!AntiDebug::detect_analysis_tools(&snap));
}

#[test]
fn matching_is_case_insensitive() {
    let snap = snapshot(&["X64DBG.EXE"]);
    assert!(AntiDebug::detect_analysis_tools(&snap));
    let snap = snapshot(&["WiReShArK.eXe"]);
    assert!(AntiDebug::detect_analysis_tools(&snap));
}

#[test]
fn matching_is_by_substring() {
    let snap = snapshot(&["my-x64dbg.exe-copy"]);
    assert!(AntiDebug::detect_analysis_tools(&snap));
}

#[test]
fn each_denylist_entry_fires_alone() {
    for name in dangerous_process_names() {
        assert!(name_matches_denylist(name.as_bytes()), "{name} did not fire");
    }
}

#[test]
fn denylist_holds_every_tool() {
    assert_eq!(dangerous_process_names().len(), 30);
}

#[test]
fn near_misses_stay_silent() {
    assert!(!name_matches_denylist(b"x64dbg.ex"));
    assert!(!name_matches_denylist(b"svchost.exe"));
    assert!(!name_matches_denylist(b""));
}

#[test]
fn lowercasing_touches_only_ascii_uppercase() {
    assert_eq!(to_lower(b"AbC123.ExE"), b"abc123.exe".to_vec());
    assert_eq!(to_lower(b""), Vec::<u8>::new());
    assert_eq!(to_lower(b"[\\]^_"), b"[\\]^_".to_vec());
}

#[test]
fn substring_search_edges() {
    assert!(contains_bytes(b"abc", b""));
    assert!(contains_bytes(b"", b""));
    assert!(!contains_bytes(b"ab", b"abc"));
    assert!(contains_bytes(b"abc", b"abc"));
    assert!(contains_bytes(b"xabcx", b"abc"));
    assert!(!contains_bytes(b"axbxc", b"abc"));
}

#[test]
fn full_image_path_flows_into_detection() {
    let base = image_base_name(b"\\Device\\HarddiskVolume2\\Tools\\IDA64.EXE");
    assert_eq!(base, b"IDA64.EXE".to_vec());
    assert!(AntiDebug::detect_analysis_tools(&vec![base]));

    let base = image_base_name(b"C:\\Windows\\explorer.exe");
    assert!(!AntiDebug::detect_analysis_tools(&vec![base]));
}

#[test]
fn base_name_follows_the_last_backslash() {
    assert_eq!(
        image_base_name(b"\\Device\\HarddiskVolume2\\x64dbg.exe"),
        b"x64dbg.exe".to_vec()
    );
    assert_eq!(image_base_name(b"notepad.exe"), b"notepad.exe".to_vec());
    assert_eq!(image_base_name(b"dir\\"), Vec::<u8>::new());
    assert_eq!(image_base_name(b""), Vec::<u8>::new());
}
