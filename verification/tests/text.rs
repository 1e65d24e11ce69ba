use gamma_rt_engine::text::{decimal, joined, same_text};

#[test]
fn equal_texts() {
    assert!(same_text("", ""));
    assert!(same_text("vulkan", "vulkan"));
    assert!(same_text("§→", "§→"));
    assert!(!same_text("vulkan", "vulkaN"));
    assert!(!same_text("vulkan", "vulkan "));
    assert!(!same_text("ab", "ba"));
}

#[test]
fn decimal_numbers() {
    for n in [0, 9, 10, 99, 100, 1234567890, u64::MAX] {
        assert_eq!(decimal(n), n.to_string());
    }
}

#[test]
fn joined_texts() {
    assert_eq!(joined("a§", "b"), "a§b");
}
