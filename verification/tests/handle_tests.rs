use font_context::handle::FontContextHandle;

#[test]
fn default_construction_owns_nothing() {
    let handle = FontContextHandle::default();
    assert_eq!(handle.size_of(), 0);
}

#[test]
fn size_of_is_deterministic() {
    let handle = FontContextHandle::default();
    let first = handle.size_of();
    let second = handle.size_of();
    assert_eq!(first, second);
    assert_eq!(first, 0);
}

#[test]
fn clone_outlives_the_original() {
    let h1 = FontContextHandle::default();
    assert_eq!(h1.size_of(), 0);
    let h2 = h1.clone();
    drop(h1);
    assert_eq!(h2.size_of(), 0);
}

#[test]
fn debug_formatting_completes() {
    let handle = FontContextHandle::default();
    let formatted = format!("{:?}", handle);
    assert!(!formatted.is_empty());
    let clone = handle.clone();
    let formatted_clone = format!("{:?}", clone);
    assert_eq!(formatted, formatted_clone);
}

#[test]
fn debug_summary_is_fixed() {
    let handle = FontContextHandle::default();
    assert_eq!(handle.debug_summary(), "FontContextHandle(placeholder)");
    let clone = handle.clone();
    assert_eq!(clone.debug_summary(), "FontContextHandle(placeholder)");
}
