use pylon_cxx::error::{
    classify, into_rust, parse_err_msg, path_to_string, to_msg_and_kind, ErrorKind, Platform,
    PylonError,
};

const TABLE: [(&str, ErrorKind); 10] = [
    ("Pylon::AccessException: ", ErrorKind::AccessException),
    ("Pylon::BadAllocException: ", ErrorKind::BadAllocException),
    ("Pylon::DynamicCastException: ", ErrorKind::DynamicCastException),
    ("Pylon::LogicalErrorException: ", ErrorKind::LogicalErrorException),
    ("Pylon::OutOfRangeException: ", ErrorKind::OutOfRangeException),
    ("Pylon::PropertyException: ", ErrorKind::PropertyException),
    ("Pylon::TimeoutException: ", ErrorKind::TimeoutException),
    ("Pylon::RuntimeException: ", ErrorKind::RuntimeException),
    ("Pylon::GenericException: ", ErrorKind::GenericException),
    ("std::exception: ", ErrorKind::StdCppException),
];

#[test]
fn parse_err_msg_strips_a_matching_prefix() {
    let mut msg = String::from("Pylon::TimeoutException: grab timed out");
    assert!(parse_err_msg(&mut msg, "Pylon::TimeoutException: "));
    assert_eq!(msg, "grab timed out");
}

#[test]
fn parse_err_msg_leaves_other_messages_alone() {
    let mut msg = String::from("Pylon::TimeoutException: grab timed out");
    assert!(!parse_err_msg(&mut msg, "Pylon::RuntimeException: "));
    assert_eq!(msg, "Pylon::TimeoutException: grab timed out");
}

#[test]
fn parse_err_msg_on_the_edges() {
    let mut msg = String::from("abc");
    assert!(parse_err_msg(&mut msg, ""));
    assert_eq!(msg, "abc");
    assert!(parse_err_msg(&mut msg, "abc"));
    assert_eq!(msg, "");
    let mut short = String::from("ab");
    assert!(!parse_err_msg(&mut short, "abc"));
    assert_eq!(short, "ab");
}

#[test]
fn parse_err_msg_counts_characters_not_bytes() {
    let mut msg = String::from("héllo wörld");
    assert!(parse_err_msg(&mut msg, "héllo "));
    assert_eq!(msg, "wörld");
    let mut other = String::from("héllo");
    assert!(!parse_err_msg(&mut other, "hello"));
    assert_eq!(other, "héllo");
}

#[test]
fn to_msg_and_kind_knows_every_prefix_of_the_table() {
    for platform in [Platform::Posix, Platform::Windows] {
        for (prefix, kind) in TABLE {
            let what = format!("{}something went wrong", prefix);
            let (msg, found) = to_msg_and_kind(&what, platform);
            assert_eq!(msg, "something went wrong");
            assert_eq!(found, kind);
        }
    }
}

#[test]
fn to_msg_and_kind_names_the_runtime_class() {
    let (msg, kind) = to_msg_and_kind("Pylon::RuntimeException: camera removed", Platform::Posix);
    assert_eq!(msg, "camera removed");
    assert_eq!(kind, ErrorKind::RuntimeException);
}

#[test]
fn to_msg_and_kind_strips_one_prefix_only() {
    let what = "Pylon::GenericException: Pylon::TimeoutException: nested";
    let (msg, kind) = to_msg_and_kind(what, Platform::Posix);
    assert_eq!(msg, "Pylon::TimeoutException: nested");
    assert_eq!(kind, ErrorKind::GenericException);
}

#[test]
fn classify_agrees_with_to_msg_and_kind() {
    for (prefix, kind) in TABLE {
        let what = format!("{}x", prefix);
        assert_eq!(classify(&what, Platform::Posix), Some((String::from("x"), kind)));
    }
}

#[test]
fn classify_knows_no_writer_failure_on_posix() {
    assert!(classify("Pylon::AviWriterFatalException: disk full", Platform::Posix).is_none());
    let found = classify("Pylon::AviWriterFatalException: disk full", Platform::Windows);
    assert_eq!(found, Some((String::from("disk full"), ErrorKind::AviWriterFatalException)));
}

#[test]
fn classify_refuses_what_the_table_does_not_hold() {
    for platform in [Platform::Posix, Platform::Windows] {
        assert!(classify("", platform).is_none());
        assert!(classify("something else", platform).is_none());
        assert!(classify("Pylon::TimeoutException:", platform).is_none());
        assert!(classify("pylon::TimeoutException: lower case", platform).is_none());
        assert!(classify(" Pylon::TimeoutException: leading blank", platform).is_none());
    }
}

#[test]
fn classify_accepts_an_empty_body() {
    let found = classify("std::exception: ", Platform::Posix);
    assert_eq!(found, Some((String::new(), ErrorKind::StdCppException)));
}

#[test]
fn from_native_carries_message_and_kind() {
    let e = PylonError::from_native("Pylon::AccessException: device is busy", Platform::Posix);
    assert_eq!(e.msg(), "device is busy");
    assert_eq!(e.kind(), Some(ErrorKind::AccessException));
    assert_eq!(e.display(), "PylonError(device is busy)");
}

#[test]
fn new_and_local_failures() {
    let e = PylonError::new("no luck", ErrorKind::OutOfRangeException);
    assert_eq!(e.msg(), "no luck");
    assert_eq!(e.kind(), Some(ErrorKind::OutOfRangeException));
    let l = PylonError::local("on this side");
    assert_eq!(l.msg(), "on this side");
    assert_eq!(l.kind(), None);
    assert_eq!(l.display(), "PylonError(on this side)");
    assert_eq!(PylonError::local("").display(), "PylonError()");
}

#[test]
fn path_to_string_hands_a_readable_path_on() {
    let name = path_to_string(Some("/tmp/camera.pfs")).unwrap();
    assert_eq!(name, "/tmp/camera.pfs");
}

#[test]
fn path_to_string_fails_on_an_unreadable_path() {
    let e = path_to_string(None).unwrap_err();
    assert_eq!(e.msg(), "Cannot convert path to UTF-8");
    assert_eq!(e.kind(), None);
    assert_eq!(e.display(), "PylonError(Cannot convert path to UTF-8)");
}

#[test]
fn into_rust_decodes_every_string() {
    let raw = vec![b"Mono8".to_vec(), vec![0xC3, 0xA9, 0x21], Vec::new(), "日本".as_bytes().to_vec()];
    let texts = into_rust(&raw).unwrap();
    assert_eq!(texts, vec!["Mono8".to_string(), "é!".to_string(), String::new(), "日本".to_string()]);
}

#[test]
fn into_rust_of_nothing_is_nothing() {
    assert_eq!(into_rust(&Vec::new()).unwrap(), Vec::<String>::new());
}

#[test]
fn into_rust_fails_on_one_malformed_string() {
    let raw = vec![b"Mono8".to_vec(), vec![0xFF, 0xFE], b"RGB8".to_vec()];
    let e = into_rust(&raw).unwrap_err();
    assert_eq!(e.msg(), "Cannot convert C++ string to UTF-8");
    assert_eq!(e.kind(), None);
    let truncated = vec![vec![0xE6, 0x97]];
    assert!(into_rust(&truncated).is_err());
    let surrogate = vec![vec![0xED, 0xA0, 0x80]];
    assert!(into_rust(&surrogate).is_err());
    let overlong = vec![vec![0xC0, 0x80]];
    assert!(into_rust(&overlong).is_err());
}
