use rgtk::ffi::{Arg, Call, Symbol};
use rgtk::glib::translate::{
    bytes_eq, c_str_to_bytes, copy_bytes, find_nul, from_glib, from_glib_container,
    from_glib_full, from_glib_none, text_of_c_bytes, CStrBuf, FromGlib, ToGlib,
};
use rgtk::glib::{to_bool, to_gboolean, GType, ParamFlags, GFALSE, GTRUE};

#[test]
fn booleans_cross_the_boundary() {
    assert_eq!(to_gboolean(true), GTRUE);
    assert_eq!(to_gboolean(false), GFALSE);
    assert_eq!(GTRUE, 1);
    assert_eq!(GFALSE, 0);
    assert!(to_bool(GTRUE));
    assert!(!to_bool(GFALSE));
}

#[test]
fn every_nonzero_truth_value_is_true() {
    for v in [-1, 1, 2, 255, i32::MAX, i32::MIN] {
        assert!(to_bool(v), "{} reads as true", v);
    }
}

#[test]
fn boolean_round_trip() {
    for b in [true, false] {
        assert_eq!(to_bool(to_gboolean(b)), b);
        assert_eq!(bool::from_glib(b.to_glib()), b);
        let back: bool = from_glib(b.to_glib());
        assert_eq!(back, b);
    }
}

#[test]
fn fundamental_type_identifiers() {
    assert_eq!(GType::Invalid.to_glib(), 0);
    assert_eq!(GType::Void.to_glib(), 1 << 2);
    assert_eq!(GType::Interface.to_glib(), 2 << 2);
    assert_eq!(GType::Boolean.to_glib(), 5 << 2);
    assert_eq!(GType::String.to_glib(), 16 << 2);
    assert_eq!(GType::Object.to_glib(), 20 << 2);
    assert_eq!(GType::Variant.to_glib(), 21 << 2);
}

#[test]
fn param_flags_compare_by_variant() {
    assert_eq!(ParamFlags::Readable, ParamFlags::Readable);
    assert_ne!(ParamFlags::Readable, ParamFlags::Writable);
}

#[test]
fn c_string_is_nul_terminated() {
    let buf = CStrBuf::new("Click me!").unwrap();
    assert_eq!(buf.as_bytes_with_nul(), b"Click me!\0");
    assert_eq!(buf.len(), 9);
    assert_eq!(buf.to_bytes(), b"Click me!".to_vec());
    assert_eq!(*buf.as_bytes_with_nul().last().unwrap(), 0);
    assert_eq!(find_nul(buf.as_bytes_with_nul()), Some(9));
}

#[test]
fn c_string_of_empty_text() {
    let buf = CStrBuf::new("").unwrap();
    assert_eq!(buf.as_bytes_with_nul(), b"\0");
    assert_eq!(buf.len(), 0);
}

#[test]
fn c_string_keeps_multibyte_text() {
    let buf = CStrBuf::from_str("café ✓");
    assert_eq!(buf.as_bytes_with_nul(), "café ✓\0".as_bytes());
    let from_slice = CStrBuf::from_slice("café ✓".as_bytes());
    assert_eq!(buf, from_slice);
}

#[test]
fn c_string_refuses_interior_nul() {
    assert!(CStrBuf::new("a\0b").is_none());
    assert!(CStrBuf::new("\0").is_none());
    assert!(CStrBuf::new("trailing\0").is_none());
    assert!(CStrBuf::new("no nul").is_some());
}

#[test]
fn c_string_clone_is_equal() {
    let buf = CStrBuf::from_str("title");
    let copy = buf.clone();
    assert_eq!(buf, copy);
    assert_eq!(copy.as_bytes_with_nul(), b"title\0");
}

#[test]
fn find_nul_gives_the_first() {
    assert_eq!(find_nul(b"abc"), None);
    assert_eq!(find_nul(b""), None);
    assert_eq!(find_nul(b"\0"), Some(0));
    assert_eq!(find_nul(b"ab\0cd\0"), Some(2));
}

#[test]
fn foreign_buffer_is_cut_at_first_nul() {
    assert_eq!(c_str_to_bytes(b"hello\0world\0"), b"hello".to_vec());
    assert_eq!(c_str_to_bytes(b"no nul at all"), b"no nul at all".to_vec());
    assert_eq!(c_str_to_bytes(b"\0"), Vec::<u8>::new());
    assert_eq!(c_str_to_bytes(b""), Vec::<u8>::new());
}

#[test]
fn c_string_round_trip() {
    for text in ["", "x", "First GTK+ Program", "This is a trap !", "ünïcödé"] {
        let buf = CStrBuf::from_str(text);
        assert_eq!(c_str_to_bytes(buf.as_bytes_with_nul()), text.as_bytes().to_vec());
    }
}

#[test]
fn byte_helpers() {
    assert_eq!(copy_bytes(b"abc"), b"abc".to_vec());
    assert!(bytes_eq(b"abc", b"abc"));
    assert!(!bytes_eq(b"abc", b"abd"));
    assert!(!bytes_eq(b"abc", b"ab"));
    assert!(bytes_eq(b"", b""));
}

#[test]
fn borrowed_string_is_copied() {
    assert_eq!(from_glib_none(None), None);
    assert_eq!(from_glib_none(Some(b"title\0junk")), Some("title".to_string()));
    assert_eq!(from_glib_none(Some(b"\0")), Some(String::new()));
}

#[test]
fn ill_formed_bytes_become_replacement_characters() {
    // 0xff never occurs in UTF-8: the text cannot be the bytes as they were.
    let text = text_of_c_bytes(vec![b'a', 0xff, b'b']);
    assert_eq!(text, "a\u{fffd}b");
    assert_eq!(text.len(), 5);
    let title = from_glib_none(Some(&[0xc3, 0x28, 0])).unwrap();
    assert_eq!(title, "\u{fffd}(");
}

#[test]
fn well_formed_bytes_are_decoded() {
    assert_eq!(text_of_c_bytes("grüß".as_bytes().to_vec()), "grüß");
    assert_eq!(text_of_c_bytes(Vec::new()), "");
}

#[test]
fn list_of_strings_keeps_its_order() {
    let items = vec![
        b"file:///a\0".to_vec(),
        b"file:///b\0rest".to_vec(),
        Vec::new(),
        vec![0xff],
    ];
    let texts = from_glib_container(&items);
    assert_eq!(texts, vec!["file:///a", "file:///b", "", "\u{fffd}"]);
    assert_eq!(from_glib_container(&Vec::new()), Vec::<String>::new());
}

#[test]
fn transferred_string_is_copied_and_freed() {
    let (text, free) = from_glib_full(0x800, Some(b"file:///tmp\0"));
    assert_eq!(text, Some("file:///tmp".to_string()));
    assert_eq!(free, Some(Call { symbol: Symbol::GFree, args: vec![Arg::Pointer(0x800)] }));
    let (text, free) = from_glib_full(0, None);
    assert_eq!(text, None);
    assert_eq!(free, None);
}
