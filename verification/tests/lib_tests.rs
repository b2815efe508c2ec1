use znes_wasm::{add, greet};

#[test]
fn test_add_basic_arithmetic() {
    let result = add(2, 2);
    assert_eq!(result, 4);
}

#[test]
fn greet_formats_the_welcome() {
    assert_eq!(greet("Mario"), "Hello, Mario! Welcome to ZNES-WASM!");
    assert_eq!(greet(""), "Hello, ! Welcome to ZNES-WASM!");
}

#[test]
fn add_large_values() {
    assert_eq!(add(u64::MAX - 1, 1), u64::MAX);
}
