use render::lifecycle::DestroyCall;
use render::loader::{symbol_name, wide_path, DynamicLibrary};

#[test]
fn wide_path_is_utf16_with_terminator() {
    assert_eq!(wide_path("a.dll"), vec![97, 46, 100, 108, 108, 0]);
}

#[test]
fn wide_path_of_nothing_is_the_terminator() {
    assert_eq!(wide_path(""), vec![0]);
}

#[test]
fn wide_path_encodes_beyond_ascii() {
    assert_eq!(wide_path("é"), vec![0xE9, 0]);
    assert_eq!(wide_path("€"), vec![0x20AC, 0]);
    assert_eq!(wide_path("\u{ffff}"), vec![0xFFFF, 0]);
}

#[test]
fn wide_path_encodes_surrogate_pairs() {
    assert_eq!(wide_path("\u{10000}"), vec![0xD800, 0xDC00, 0]);
    assert_eq!(wide_path("😀"), vec![0xD83D, 0xDE00, 0]);
    assert_eq!(wide_path("\u{10ffff}"), vec![0xDBFF, 0xDFFF, 0]);
}

#[test]
fn wide_path_agrees_with_std() {
    for path in ["vulkan-1.dll", "C:\\Windows\\System32\\vulkan-1.dll", "日本語/😀/ß.so"] {
        let mut expected: Vec<u16> = path.encode_utf16().collect();
        expected.push(0);
        assert_eq!(wide_path(path), expected);
    }
}

#[test]
fn symbol_name_is_closed_by_a_zero_byte() {
    assert_eq!(symbol_name("vkFoo"), Some(vec![b'v', b'k', b'F', b'o', b'o', 0]));
    assert_eq!(symbol_name(""), Some(vec![0]));
}

#[test]
fn symbol_name_with_a_zero_byte_has_no_form() {
    assert_eq!(symbol_name("vk\0Foo"), None);
    assert_eq!(symbol_name("\0"), None);
}

#[test]
fn library_that_does_not_exist_is_none() {
    assert_eq!(DynamicLibrary::new(0), None);
}

#[test]
fn library_keeps_its_module() {
    let library = DynamicLibrary::new(0x7ff0_1000).unwrap();
    assert_eq!(library.module(), 0x7ff0_1000);
    assert_eq!(DynamicLibrary::new(-1).unwrap().module(), -1);
}

#[test]
fn unknown_symbol_is_none() {
    let library = DynamicLibrary::new(1).unwrap();
    assert_eq!(library.get(0), None);
}

#[test]
fn symbol_keeps_its_address() {
    let library = DynamicLibrary::new(1).unwrap();
    assert_eq!(library.get(0xdead_beef).unwrap().address(), 0xdead_beef);
}

#[test]
fn release_names_the_module() {
    let library = DynamicLibrary::new(42).unwrap();
    assert_eq!(library.release(), DestroyCall::FreeLibrary { module: 42 });
}
