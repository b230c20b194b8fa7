use heinzelmann::timer::TimedEvent;
use heinzelmann::utils::{current_timestamp, get_md5, random_string, set_timer_closure};
use std::sync::mpsc::channel;

#[test]
fn random_string_has_the_length_asked_for() {
    for length in [0usize, 1, 16, 257] {
        assert_eq!(random_string(length).chars().count(), length);
    }
}

#[test]
fn random_string_is_lower_case_alphanumeric() {
    let s = random_string(4000);
    assert!(s.chars().all(|c| c.is_ascii_lowercase() || c.is_ascii_digit()));
    assert!(s.chars().any(|c| c.is_ascii_lowercase()));
    assert!(s.chars().any(|c| c.is_ascii_digit()));
}

#[test]
fn random_strings_differ() {
    assert_ne!(random_string(32), random_string(32));
}

#[test]
fn md5_of_known_texts() {
    assert_eq!(get_md5(vec!["abc".to_string()]), "900150983cd24fb0d6963f7d28e17f72");
    assert_eq!(get_md5(Vec::new()), "d41d8cd98f00b204e9800998ecf8427e");
    assert_eq!(get_md5(vec![String::new()]), "d41d8cd98f00b204e9800998ecf8427e");
    assert_eq!(
        get_md5(vec!["abcdefghijklmnopqrstuvwxyz".to_string()]),
        "c3fcd3d76192e4007dfb496cca67e13b"
    );
}

#[test]
fn md5_takes_the_inputs_as_one_stream() {
    let whole = get_md5(vec!["abc".to_string()]);
    assert_eq!(get_md5(vec!["a".to_string(), "bc".to_string()]), whole);
    assert_eq!(get_md5(vec!["".to_string(), "ab".to_string(), "c".to_string()]), whole);
    assert_ne!(get_md5(vec!["cba".to_string()]), whole);
    assert_eq!(get_md5(vec!["ü".to_string()]), "c03410a5204b21cd8229ff754688d743");
}

#[test]
fn timestamp_is_of_this_century() {
    let now = current_timestamp();
    assert!(now > 1_600_000_000);
    assert!(current_timestamp() >= now);
}

#[test]
fn set_timer_sends_the_registered_trigger() {
    let (tx, rx) = channel::<TimedEvent>();
    let set_timer = set_timer_closure(tx);
    assert!(set_timer("07:30".to_string(), "wake".to_string()));
    assert!(set_timer("23:05".to_string(), "late".to_string()));
    let first = rx.recv().unwrap();
    assert_eq!(first.time, (7, 30));
    assert_eq!(first.id, "wake");
    let second = rx.recv().unwrap();
    assert_eq!(second.time, (23, 5));
    assert_eq!(second.id, "late");
    drop(rx);
    assert!(!set_timer("07:30".to_string(), "wake".to_string()));
}
