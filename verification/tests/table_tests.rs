use gpu_command_bridge::error::WebGpuError;
use gpu_command_bridge::table::{HandleTable, ResourceEntry};

#[test]
fn fresh_handles_are_distinct() {
    let mut t = HandleTable::new();
    let a = t.insert(ResourceEntry::Device(1));
    let b = t.insert(ResourceEntry::Buffer(2));
    let c = t.insert(ResourceEntry::Texture(3));
    assert_ne!(a, b);
    assert_ne!(b, c);
    assert_ne!(a, c);
}

#[test]
fn get_resolves_live_handle() {
    let mut t = HandleTable::new();
    let h = t.insert(ResourceEntry::Buffer(42));
    assert_eq!(t.get_buffer_id(h), Ok(42));
    // non-destructive: still there
    assert_eq!(t.get_buffer_id(h), Ok(42));
}

#[test]
fn get_fails_on_unknown_handle() {
    let t = HandleTable::new();
    assert_eq!(t.get_buffer_id(7), Err(WebGpuError::InvalidHandle));
}

#[test]
fn get_fails_on_wrong_kind() {
    let mut t = HandleTable::new();
    let h = t.insert(ResourceEntry::Texture(9));
    assert_eq!(t.get_buffer_id(h), Err(WebGpuError::InvalidHandle));
    assert_eq!(t.get_texture_id(h), Ok(9));
}

#[test]
fn take_invalidates_handle() {
    let mut t = HandleTable::new();
    let h = t.insert(ResourceEntry::QuerySet(5));
    let taken = t.take(h);
    assert!(matches!(taken, Ok(ResourceEntry::QuerySet(5))));
    // after a successful take, both get and take fail with InvalidHandle
    assert!(t.get(h).is_none());
    assert_eq!(t.get_query_set_id(h), Err(WebGpuError::InvalidHandle));
    match t.take(h) {
        Err(e) => assert_eq!(e, WebGpuError::InvalidHandle),
        Ok(_) => panic!("take of a dead handle must fail"),
    }
}

#[test]
fn take_does_not_disturb_other_handles() {
    let mut t = HandleTable::new();
    let a = t.insert(ResourceEntry::Buffer(1));
    let b = t.insert(ResourceEntry::Buffer(2));
    assert!(t.take(a).is_ok());
    assert_eq!(t.get_buffer_id(b), Ok(2));
}

#[test]
fn taken_handle_is_never_reused() {
    let mut t = HandleTable::new();
    let a = t.insert(ResourceEntry::Buffer(1));
    assert!(t.take(a).is_ok());
    let b = t.insert(ResourceEntry::Buffer(2));
    assert_ne!(a, b);
    assert!(t.get(a).is_none());
}
