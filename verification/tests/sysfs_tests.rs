use driver_core::error::SystemError;
use driver_core::sysfs::{sysfs_emit_str, ModeType, SysFSOpsSupport};

#[test]
fn emit_copies_content_and_reports_length() {
    let mut buf = vec![0u8; 8];
    let content = vec![1u8, 2, 3];
    assert_eq!(sysfs_emit_str(&mut buf, &content), Ok(3));
    assert_eq!(buf, vec![1u8, 2, 3, 0, 0, 0, 0, 0]);
}

#[test]
fn emit_into_exact_buffer() {
    let mut buf = vec![9u8, 9];
    let content = vec![4u8, 5];
    assert_eq!(sysfs_emit_str(&mut buf, &content), Ok(2));
    assert_eq!(buf, vec![4u8, 5]);
}

#[test]
fn emit_rejects_small_buffer() {
    let mut buf = vec![9u8];
    let content = vec![4u8, 5];
    assert_eq!(sysfs_emit_str(&mut buf, &content), Err(SystemError::EINVAL));
    assert_eq!(buf, vec![9u8]);
}

#[test]
fn emit_empty_content_writes_nothing() {
    let mut buf = vec![6u8, 6];
    let content: Vec<u8> = Vec::new();
    assert_eq!(sysfs_emit_str(&mut buf, &content), Ok(0));
    assert_eq!(buf, vec![6u8, 6]);
}

#[test]
fn mode_and_support_values() {
    assert_eq!(ModeType::ro().bits, 0o444);
    let show = SysFSOpsSupport::attr_show();
    assert!(show.show && !show.store);
    let store = SysFSOpsSupport::attr_store();
    assert!(!store.show && store.store);
    let both = SysFSOpsSupport::attr_show_store();
    assert!(both.show && both.store);
}
