use ewebsock::Options;
use std::time::Duration;

#[test]
fn default_options() {
    let options = Options::default();
    assert_eq!(options.max_incoming_frame_size, 67_108_864);
    assert_eq!(options.max_incoming_frame_size, 64 * 1024 * 1024);
    assert!(options.additional_headers.is_empty());
    assert!(options.subprotocols.is_empty());
    assert_eq!(options.read_timeout, Some(Duration::from_millis(10)));
}

#[test]
fn options_equality_and_clone_are_structural() {
    let mut a = Options::default();
    a.additional_headers
        .push(("Authorization".to_string(), "Bearer x".to_string()));
    a.subprotocols.push("chat".to_string());
    let b = a.clone();
    assert_eq!(a, b);
    let mut c = b.clone();
    c.subprotocols.push("superchat".to_string());
    assert_ne!(a, c);
    let mut d = a.clone();
    d.read_timeout = None;
    assert_ne!(a, d);
}

#[test]
fn frame_limit_is_the_configured_size() {
    let mut options = Options::default();
    assert_eq!(options.frame_limit(), Some(67_108_864));
    options.max_incoming_frame_size = 0;
    assert_eq!(options.frame_limit(), Some(0));
    options.max_incoming_frame_size = usize::MAX - 1;
    assert_eq!(options.frame_limit(), Some(usize::MAX - 1));
}

#[test]
fn largest_frame_size_means_no_limit() {
    let mut options = Options::default();
    options.max_incoming_frame_size = usize::MAX;
    assert_eq!(options.frame_limit(), None);
}

#[test]
fn zero_read_timeout_is_no_timeout() {
    let mut options = Options::default();
    options.read_timeout = Some(Duration::from_millis(0));
    assert_eq!(options.effective_read_timeout(), None);
    options.read_timeout = Some(Duration::new(0, 0));
    assert_eq!(options.effective_read_timeout(), None);
}

#[test]
fn absent_read_timeout_is_no_timeout() {
    let mut options = Options::default();
    options.read_timeout = None;
    assert_eq!(options.effective_read_timeout(), None);
}

#[test]
fn positive_read_timeout_is_kept() {
    let mut options = Options::default();
    assert_eq!(
        options.effective_read_timeout(),
        Some(Duration::from_millis(10))
    );
    options.read_timeout = Some(Duration::new(0, 1));
    assert_eq!(options.effective_read_timeout(), Some(Duration::new(0, 1)));
    options.read_timeout = Some(Duration::from_secs(3));
    assert_eq!(options.effective_read_timeout(), Some(Duration::from_secs(3)));
}

#[test]
fn timeouts_of_the_same_length_are_equal() {
    let mut a = Options::default();
    let mut b = Options::default();
    a.read_timeout = Some(Duration::from_millis(1000));
    b.read_timeout = Some(Duration::from_secs(1));
    assert_eq!(a, b);
    b.read_timeout = Some(Duration::new(1, 1));
    assert_ne!(a, b);
    b.read_timeout = Some(Duration::from_millis(999));
    assert_ne!(a, b);
}

#[test]
fn options_differ_by_a_single_header_text() {
    let mut a = Options::default();
    a.additional_headers
        .push(("Key".to_string(), "value".to_string()));
    let mut b = Options::default();
    b.additional_headers
        .push(("Key".to_string(), "Value".to_string()));
    assert_ne!(a, b);
    let mut c = Options::default();
    c.additional_headers
        .push(("key".to_string(), "value".to_string()));
    assert_ne!(a, c);
    assert_ne!(a, Options::default());
    let mut d = Options::default();
    d.max_incoming_frame_size = 1;
    assert_ne!(d, Options::default());
}

#[test]
fn options_differ_by_the_order_of_subprotocols() {
    let mut a = Options::default();
    a.subprotocols.push("one".to_string());
    a.subprotocols.push("two".to_string());
    let mut b = Options::default();
    b.subprotocols.push("two".to_string());
    b.subprotocols.push("one".to_string());
    assert_ne!(a, b);
    let copy = a.clone();
    assert_eq!(copy.subprotocols, vec!["one".to_string(), "two".to_string()]);
    assert_eq!(copy, a);
}
