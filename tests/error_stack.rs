use openssl::error::{Error, ErrorData, ErrorStack, Names, RawEntry};

fn entry(code: u64, data: Option<&'static str>, flags: i32) -> RawEntry {
    RawEntry { code, file: "crypto/bio/bss_file.c", line: 67, func: Some("BIO_new_file"), data, flags }
}

fn record(code: u64, data: Option<&'static str>, flags: i32) -> Error {
    Error::from_raw(entry(code, data, flags)).unwrap()
}

#[test]
fn empty_pop_gives_no_record() {
    assert!(Error::from_raw(entry(0, Some("x"), 2)).is_none());
}

#[test]
fn record_keeps_location_and_function() {
    let e = record(0x1000_0080, None, 0);
    assert_eq!(e.code(), 0x1000_0080);
    assert_eq!(e.file(), "crypto/bio/bss_file.c");
    assert_eq!(e.line(), 67);
    assert_eq!(e.function(), Some("BIO_new_file"));
    assert_eq!(e.data(), None);
}

#[test]
fn data_without_text_flag_is_absent() {
    let e = record(7, Some("ignored"), 1);
    assert_eq!(e.data(), None);
}

#[test]
fn text_flag_without_pointer_is_absent() {
    let e = record(7, None, 3);
    assert_eq!(e.data(), None);
}

#[test]
fn static_text_is_borrowed() {
    let e = record(7, Some("name=foo.txt"), 2);
    assert_eq!(e.data(), Some("name=foo.txt"));
    let r = e.put_request();
    assert!(matches!(r.data, Some(ErrorData::Borrowed("name=foo.txt"))));
    assert_eq!(r.data_flags, 2);
}

#[test]
fn allocated_text_is_copied() {
    let e = record(7, Some("name=foo.txt"), 3);
    assert_eq!(e.data(), Some("name=foo.txt"));
    let r = e.put_request();
    match r.data {
        Some(ErrorData::Owned(s)) => assert_eq!(s, "name=foo.txt"),
        _ => panic!("expected an owned copy"),
    }
    assert_eq!(r.data_flags, 3);
}

#[test]
fn put_request_without_data() {
    let r = record(0x1000_0080, None, 0).put_request();
    assert!(r.data.is_none());
    assert_eq!(r.data_flags, 0);
    assert_eq!(r.file, "crypto/bio/bss_file.c");
    assert_eq!(r.line, 67);
    assert_eq!(r.func, Some("BIO_new_file"));
}

#[test]
fn put_request_unpacks_code() {
    // library 32, reason 128, in the packing of the 3.x backend
    let r = record(0x1000_0080, None, 0).put_request();
    assert_eq!(r.lib, 32);
    assert_eq!(r.reason, 128);
    assert_eq!(r.func_id, 0);
}

#[test]
fn drain_keeps_raise_order() {
    let mut s = ErrorStack::new();
    assert!(s.absorb(entry(11, None, 0)));
    assert!(s.absorb(entry(22, Some("d"), 2)));
    assert!(s.absorb(entry(33, None, 0)));
    assert!(!s.absorb(entry(0, None, 0)));
    let codes: Vec<u64> = s.errors().iter().map(|e| e.code()).collect();
    assert_eq!(codes, vec![11, 22, 33]);
    assert_eq!(s.errors()[1].data(), Some("d"));
}

#[test]
fn empty_pop_leaves_stack_unchanged() {
    let mut s = ErrorStack::new();
    assert!(s.absorb(entry(11, None, 0)));
    assert!(!s.absorb(entry(0, Some("x"), 3)));
    assert_eq!(s.errors().len(), 1);
}

#[test]
fn empty_stack_renders_generic_message() {
    let s = ErrorStack::new();
    assert_eq!(s.errors().len(), 0);
    let text = s.render(&vec![]);
    assert_eq!(text, "OpenSSL error");
    assert!(!text.is_empty());
}

#[test]
fn replay_then_drain_round_trips() {
    let mut s = ErrorStack::new();
    s.absorb(entry(11, None, 0));
    s.absorb(entry(22, Some("owned"), 3));
    s.absorb(entry(33, Some("static"), 2));
    let reqs = s.put_requests();
    assert_eq!(reqs.len(), 3);
    // hand each request back as the backend would pop it
    let mut again = ErrorStack::new();
    for (e, r) in s.errors().iter().zip(reqs.iter()) {
        let data = r.data.as_ref().map(|d| match d {
            ErrorData::Borrowed(t) => *t,
            ErrorData::Owned(t) => Box::leak(t.clone().into_boxed_str()) as &'static str,
        });
        let raw = RawEntry { code: e.code(), file: r.file, line: r.line, func: r.func, data, flags: r.data_flags };
        assert!(again.absorb(raw));
    }
    assert_eq!(again.errors().len(), s.errors().len());
    for (a, b) in again.errors().iter().zip(s.errors().iter()) {
        assert_eq!(a.code(), b.code());
        assert_eq!(a.file(), b.file());
        assert_eq!(a.line(), b.line());
        assert_eq!(a.function(), b.function());
        assert_eq!(a.data(), b.data());
    }
}

#[test]
fn display_with_resolved_names() {
    let e = record(0x2006_D080, Some("foo.txt"), 2);
    let text = e.render_with_ids(Some("BIO routines"), 32, 109, Some("no such file"), 128);
    assert_eq!(text, "error:2006D080:BIO routines:BIO_new_file:no such file:crypto/bio/bss_file.c:67:foo.txt");
}

#[test]
fn display_with_unresolved_library() {
    let e = record(0x2006_D080, None, 0);
    let text = e.render_with_ids(None, 32, 109, Some("no such file"), 128);
    assert_eq!(text, "error:2006D080:lib(32):BIO_new_file:no such file:crypto/bio/bss_file.c:67:");
}

#[test]
fn display_with_nothing_resolved() {
    let e = Error::from_raw(RawEntry { code: 0x64, file: "a.c", line: 5, func: None, data: None, flags: 0 }).unwrap();
    let text = e.render_with_ids(None, -3, 0, None, 100);
    assert_eq!(text, "error:00000064:lib(-3):func(0):reason(100):a.c:5:");
}

#[test]
fn display_of_wide_code_is_not_cut() {
    let e = Error::from_raw(RawEntry { code: 0x1_0000_0000, file: "a.c", line: 0, func: None, data: None, flags: 0 }).unwrap();
    let text = e.render_with_ids(Some("L"), 0, 0, Some("R"), 0);
    assert_eq!(text, "error:100000000:L:func(0):R:a.c:0:");
}

#[test]
fn display_of_negative_line_as_unsigned() {
    let e = Error::from_raw(RawEntry { code: 1, file: "a.c", line: -1, func: None, data: None, flags: 0 }).unwrap();
    assert_eq!(e.line(), 4294967295);
    let text = e.render_with_ids(Some("L"), 0, 0, Some("R"), 0);
    assert_eq!(text, "error:00000001:L:func(0):R:a.c:4294967295:");
}

#[test]
fn display_unpacks_ids_from_code() {
    let e = Error::from_raw(RawEntry { code: 0x1000_0080, file: "f.c", line: 1, func: None, data: None, flags: 0 }).unwrap();
    assert_eq!(e.render(None, None), "error:10000080:lib(32):func(0):reason(128):f.c:1:");
}

#[test]
fn stack_display_joins_records() {
    let mut s = ErrorStack::new();
    s.absorb(entry(0x2006_D080, Some("foo.txt"), 2));
    s.absorb(RawEntry { code: 0x1000_0080, file: "f.c", line: 1, func: None, data: None, flags: 0 });
    let names = vec![
        Names { library: Some("BIO routines"), reason: Some("no such file") },
        Names { library: None, reason: None },
    ];
    assert_eq!(
        s.render(&names),
        "error:2006D080:BIO routines:BIO_new_file:no such file:crypto/bio/bss_file.c:67:foo.txt, \
         error:10000080:lib(32):func(0):reason(128):f.c:1:"
    );
}
