use flashmon::buffer::{BufferingData, LoadPhase};

#[test]
fn new_buffer_is_empty() {
    let b = BufferingData::new();
    assert!(matches!(b.phase, LoadPhase::Empty));
    assert_eq!(b.path, "");
    assert!(b.bytes.is_empty());
}

#[test]
fn begin_load_enters_loading() {
    let mut b = BufferingData::new();
    let started = b.begin_load(String::from("/tmp/image.iso"));
    assert!(started);
    assert!(matches!(b.phase, LoadPhase::Loading));
    assert_eq!(b.path, "/tmp/image.iso");
    assert!(b.bytes.is_empty());
}

#[test]
fn begin_load_while_loading_is_rejected() {
    let mut b = BufferingData::new();
    assert!(b.begin_load(String::from("/tmp/first.iso")));
    let started = b.begin_load(String::from("/tmp/second.iso"));
    assert!(!started);
    assert!(matches!(b.phase, LoadPhase::Loading));
    assert_eq!(b.path, "/tmp/first.iso");
}

#[test]
fn complete_load_enters_ready() {
    let mut b = BufferingData::new();
    assert!(b.begin_load(String::from("/tmp/image.iso")));
    b.complete_load(vec![1u8, 2, 3, 4]);
    assert!(matches!(b.phase, LoadPhase::Ready));
    assert_eq!(b.size(), 4);
    assert_eq!(b.path, "/tmp/image.iso");
    assert_eq!(b.bytes, vec![1u8, 2, 3, 4]);
}

#[test]
fn fail_load_enters_invalidated() {
    let mut b = BufferingData::new();
    assert!(b.begin_load(String::from("/tmp/image.iso")));
    b.fail_load();
    assert!(matches!(b.phase, LoadPhase::Invalidated));
    assert!(b.bytes.is_empty());
}

#[test]
fn reload_clears_previous_bytes() {
    let mut b = BufferingData::new();
    assert!(b.begin_load(String::from("/tmp/first.iso")));
    b.complete_load(vec![9u8; 16]);
    let started = b.begin_load(String::from("/tmp/second.iso"));
    assert!(started);
    assert!(matches!(b.phase, LoadPhase::Loading));
    assert!(b.bytes.is_empty());
    assert_eq!(b.path, "/tmp/second.iso");
}

#[test]
fn invalidated_buffer_accepts_a_new_load() {
    let mut b = BufferingData::new();
    assert!(b.begin_load(String::from("/tmp/bad.iso")));
    b.fail_load();
    assert!(b.begin_load(String::from("/tmp/good.iso")));
    b.complete_load(vec![7u8]);
    assert!(matches!(b.phase, LoadPhase::Ready));
    assert_eq!(b.size(), 1);
}
