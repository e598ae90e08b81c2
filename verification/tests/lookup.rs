use browser_url::clean_url;
use browser_url::contains_ignore_case;
use browser_url::eq_ignore_case;
use browser_url::linux;
use browser_url::macos;
use browser_url::trim;
use browser_url::windows;

const SAFARI_SCRIPT: &str = "tell application \"Safari\" to get URL of current tab of front window";
const CHROME_SCRIPT: &str =
    "tell application \"Google Chrome\" to get URL of active tab of front window";
const ARC_SCRIPT: &str = "tell application \"Arc\" to get URL of active tab of front window";
const BRAVE_SCRIPT: &str =
    "tell application \"Brave Browser\" to get URL of active tab of front window";

#[test]
fn macos_scripts_are_exact() {
    assert_eq!(macos::script_for("safari").as_deref(), Some(SAFARI_SCRIPT));
    assert_eq!(macos::script_for("google chrome").as_deref(), Some(CHROME_SCRIPT));
    assert_eq!(macos::script_for("arc").as_deref(), Some(ARC_SCRIPT));
    assert_eq!(macos::script_for("brave browser").as_deref(), Some(BRAVE_SCRIPT));
}

#[test]
fn macos_unrecognized_names_get_no_script() {
    assert_eq!(macos::script_for(""), None);
    assert_eq!(macos::script_for("firefox"), None);
    assert_eq!(macos::script_for("chrome"), None);
    assert_eq!(macos::script_for("safari "), None);
    assert_eq!(macos::script_for("notepad"), None);
}

#[test]
fn macos_matching_is_case_insensitive() {
    let lower = macos::script_for("google chrome");
    let mixed = macos::script_for("Google Chrome");
    let upper = macos::script_for("GOOGLE CHROME");
    assert!(lower.is_some());
    assert_eq!(lower, mixed);
    assert_eq!(lower, upper);
    assert_eq!(macos::script_for("Safari").as_deref(), Some(SAFARI_SCRIPT));
    assert_eq!(macos::script_for("BRAVE browser").as_deref(), Some(BRAVE_SCRIPT));
}

#[test]
fn macos_stubbed_run_returns_trimmed_url() {
    let out = macos::url_from_output(true, Some(String::from("https://example.com\n")));
    assert_eq!(out.as_deref(), Some("https://example.com"));
}

#[test]
fn macos_nonzero_exit_yields_nothing_whatever_the_output() {
    assert_eq!(macos::url_from_output(false, Some(String::from("https://example.com\n"))), None);
    assert_eq!(macos::url_from_output(false, Some(String::from(""))), None);
    assert_eq!(macos::url_from_output(false, None), None);
}

#[test]
fn macos_undecodable_output_yields_nothing() {
    assert_eq!(macos::url_from_output(true, None), None);
}

#[test]
fn windows_recognized_set() {
    for name in ["chrome", "firefox", "msedge", "brave", "opera"] {
        assert!(windows::recognized(name), "{name} should be recognized");
    }
    assert!(windows::recognized("MSEdge"));
    assert!(windows::recognized("OPERA"));
    assert!(!windows::recognized("safari"));
    assert!(!windows::recognized("google chrome"));
    assert!(!windows::recognized(""));
}

#[test]
fn windows_image_matching() {
    let chrome = "\\Device\\HarddiskVolume3\\Program Files\\Google\\Chrome\\Application\\chrome.exe";
    assert!(windows::image_matches(chrome, "chrome"));
    assert!(windows::image_matches(chrome, "CHROME"));
    assert!(!windows::image_matches(chrome, "firefox"));
    // The requested name must occur in the file name, not just in the path.
    let edge_dir = "C:\\chrome\\msedge.exe";
    assert!(windows::image_matches(edge_dir, "msedge"));
    assert!(!windows::image_matches(edge_dir, "chrome"));
    // Forward slashes separate components too.
    assert!(windows::image_matches("C:/Programs/firefox.exe", "Firefox"));
    assert!(!windows::image_matches("C:\\Programs\\", "chrome"));
}

#[test]
fn windows_no_matching_window_yields_nothing() {
    // Enumeration that finds no window for "chrome" hands no value on.
    assert!(windows::recognized("chrome"));
    assert_eq!(clean_url(None), None);
}

#[test]
fn linux_bus_targets_are_exact() {
    let firefox = linux::bus_target_for("firefox").unwrap();
    assert_eq!(firefox.bus_name.as_str(), "org.mozilla.firefox");
    assert_eq!(firefox.object_path.as_str(), "/org/mozilla/firefox");
    assert_eq!(firefox.interface_name.as_str(), "org.mozilla.firefox");
    assert_eq!(firefox.method.as_str(), "GetCurrentURL");

    let chromium = linux::bus_target_for("chromium").unwrap();
    assert_eq!(chromium.bus_name.as_str(), "org.chromium");
    assert_eq!(chromium.object_path.as_str(), "/org/chromium/Browser");
    assert_eq!(chromium.interface_name.as_str(), "org.chromium.Browser");
    assert_eq!(chromium.method.as_str(), "GetCurrentTabURL");

    let chrome = linux::bus_target_for("google-chrome").unwrap();
    assert_eq!(chrome.bus_name.as_str(), "com.google.Chrome");
    assert_eq!(chrome.object_path.as_str(), "/org/chromium/Browser");

    let brave = linux::bus_target_for("brave-browser").unwrap();
    assert_eq!(brave.bus_name.as_str(), "com.brave.Browser");
    assert_eq!(brave.interface_name.as_str(), "org.chromium.Browser");
    assert_eq!(brave.method.as_str(), "GetCurrentTabURL");
}

#[test]
fn linux_unrecognized_names_get_no_target() {
    assert!(linux::bus_target_for("safari").is_none());
    assert!(linux::bus_target_for("google chrome").is_none());
    assert!(linux::bus_target_for("").is_none());
}

#[test]
fn linux_matching_is_case_insensitive() {
    let lower = linux::bus_target_for("brave-browser").unwrap();
    let upper = linux::bus_target_for("BRAVE-BROWSER").unwrap();
    assert_eq!(lower.bus_name, upper.bus_name);
    assert_eq!(lower.object_path, upper.object_path);
    assert_eq!(lower.interface_name, upper.interface_name);
    assert_eq!(lower.method, upper.method);
}

#[test]
fn linux_unparseable_reply_yields_nothing() {
    assert!(linux::bus_target_for("chromium").is_some());
    assert_eq!(linux::url_from_reply(None), None);
}

#[test]
fn linux_parsed_reply_is_trimmed() {
    let url = linux::url_from_reply(Some(String::from("  https://example.org/a b\t\n")));
    assert_eq!(url.as_deref(), Some("https://example.org/a b"));
}

#[test]
fn trim_removes_edge_whitespace_only() {
    assert_eq!(trim(""), "");
    assert_eq!(trim("   \t\n"), "");
    assert_eq!(trim("url"), "url");
    assert_eq!(trim(" a b "), "a b");
    assert_eq!(trim("\r\nhttps://x\r\n"), "https://x");
    assert_eq!(trim("caf\u{e9}\n"), "caf\u{e9}");
}

#[test]
fn case_insensitive_equality() {
    assert!(eq_ignore_case("Safari", "sAFARI"));
    assert!(eq_ignore_case("", ""));
    assert!(!eq_ignore_case("safari", "safar"));
    assert!(!eq_ignore_case("safari", "safarj"));
    // Only ASCII letters fold; other characters must match exactly.
    assert!(!eq_ignore_case("caf\u{e9}", "caf\u{c9}"));
    assert!(eq_ignore_case("a-b_0", "A-B_0"));
}

#[test]
fn case_insensitive_containment() {
    assert!(contains_ignore_case("chrome.exe", "chrome"));
    assert!(contains_ignore_case("CHROME.EXE", "chrome"));
    assert!(contains_ignore_case("anything", ""));
    assert!(!contains_ignore_case("chrom.exe", "chrome"));
    assert!(!contains_ignore_case("", "chrome"));
}
