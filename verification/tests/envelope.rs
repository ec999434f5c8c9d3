use pfui::classifier::is_candidate_partition;
use pfui::emit::append_json_string;
use pfui::emit::emit_line;
use pfui::peripherals::HyprlandListener;
use pfui::peripherals::HyprlandOpts;
use pfui::text::leaf_name;
use pfui::text::str_eq;

#[test]
fn present_payload_gets_status_one() {
    assert_eq!(
        emit_line(Some("{\"volume\":40,\"muted\":false}")),
        "{\"ok\":1,\"data\":{\"volume\":40,\"muted\":false}}"
    );
}

#[test]
fn absent_payload_gets_status_zero_and_null() {
    assert_eq!(emit_line(None), "{\"ok\":0,\"data\":null}");
}

#[test]
fn json_string_escapes_quotes_backslashes_and_controls() {
    let mut out = String::new();
    append_json_string(&mut out, "a\"b\\c\nd\re\tf");
    assert_eq!(out, "\"a\\\"b\\\\c\\nd\\re\\tf\"");

    let mut out2 = String::new();
    append_json_string(&mut out2, "\u{8}\u{c}\u{1}\u{1f}");
    assert_eq!(out2, "\"\\b\\f\\u0001\\u001f\"");
}

#[test]
fn json_string_keeps_plain_text() {
    let mut out = String::new();
    append_json_string(&mut out, "/run/media/user/STICK");
    assert_eq!(out, "\"/run/media/user/STICK\"");
}

#[test]
fn listener_step_wraps_payload_or_absence() {
    let listener = HyprlandListener::new(HyprlandOpts::Window);
    assert_eq!(
        listener.listen(Some("\"firefox\"".to_string())),
        "{\"ok\":1,\"data\":\"firefox\"}"
    );
    assert_eq!(listener.listen(None), "{\"ok\":0,\"data\":null}");
}

#[test]
fn candidate_policy_accepts_sd_partitions_only() {
    assert!(is_candidate_partition("sda1"));
    assert!(is_candidate_partition("sdb2"));
    assert!(is_candidate_partition("sdz9"));
    assert!(is_candidate_partition("sd01"));
    assert!(!is_candidate_partition("sda"));
    assert!(!is_candidate_partition("sd"));
    assert!(!is_candidate_partition("s1"));
    assert!(!is_candidate_partition(""));
    assert!(!is_candidate_partition("sr0"));
    assert!(!is_candidate_partition("nvme0n1"));
    assert!(!is_candidate_partition("asd1"));
}

#[test]
fn leaf_name_takes_the_part_after_the_last_slash() {
    assert_eq!(leaf_name("/dev/sdb1"), "sdb1");
    assert_eq!(leaf_name("sdb1"), "sdb1");
    assert_eq!(leaf_name("/run/media/user/STICK"), "STICK");
    assert_eq!(leaf_name("/trailing/"), "");
    assert_eq!(leaf_name(""), "");
}

#[test]
fn str_eq_compares_contents() {
    assert!(str_eq("sdb1", "sdb1"));
    assert!(!str_eq("sdb1", "sdb2"));
    assert!(!str_eq("sdb1", "sdb12"));
    assert!(str_eq("", ""));
}
