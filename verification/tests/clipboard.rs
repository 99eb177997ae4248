use rustrdp::clipboard::{
    AppClipboardBackend, ClipboardEvent, ClipboardFormatId, FormatData, CF_UNICODETEXT,
    USE_LONG_FORMAT_NAMES,
};

const TEXT: ClipboardFormatId = ClipboardFormatId(CF_UNICODETEXT);

fn backend() -> AppClipboardBackend {
    AppClipboardBackend::new("/tmp".into())
}

fn submitted(event: ClipboardEvent) -> FormatData {
    match event {
        ClipboardEvent::SubmitFormatData(data) => data,
        other => panic!("{other:?}"),
    }
}

#[test]
fn backend_starts_without_capabilities() {
    let mut backend = backend();
    assert_eq!(backend.temporary_directory(), "/tmp");
    assert_eq!(backend.client_capabilities(), USE_LONG_FORMAT_NAMES);
    assert_eq!(backend.capabilities, 0);
    backend.on_process_negotiated_capabilities(6);
    assert_eq!(backend.capabilities, 6);
}

#[test]
fn constants_are_those_of_the_protocol() {
    assert_eq!(ironrdp_cliprdr::pdu::ClipboardFormatId::CF_UNICODETEXT.value(), CF_UNICODETEXT);
    assert_eq!(
        ironrdp_cliprdr::pdu::ClipboardGeneralCapabilityFlags::USE_LONG_FORMAT_NAMES.bits(),
        USE_LONG_FORMAT_NAMES
    );
}

#[test]
fn unicode_text_is_announced() {
    for event in [backend().on_ready(), backend().on_request_format_list()] {
        assert!(matches!(event, ClipboardEvent::InitiateCopy(formats) if formats == vec![TEXT]));
    }
}

#[test]
fn remote_text_is_asked_for() {
    let offered = vec![ClipboardFormatId(1), TEXT];
    assert!(matches!(
        backend().on_remote_copy(&offered),
        Some(ClipboardEvent::RequestFormatData(TEXT))
    ));
    assert!(backend().on_remote_copy(&vec![ClipboardFormatId(1)]).is_none());
    assert!(backend().on_remote_copy(&Vec::new()).is_none());
}

#[test]
fn local_text_is_sent_as_utf16_with_a_final_zero() {
    assert!(backend().needs_local_text(TEXT));
    let data = submitted(backend().on_format_data_request(TEXT, Some("aä😀")));
    assert!(!data.is_error);
    assert_eq!(data.data, vec![0x61, 0, 0xE4, 0, 0x3D, 0xD8, 0x00, 0xDE, 0, 0]);
}

#[test]
fn other_formats_and_missing_text_are_refused() {
    assert!(!backend().needs_local_text(ClipboardFormatId(1)));
    let other = submitted(backend().on_format_data_request(ClipboardFormatId(1), Some("a")));
    assert!(other.is_error && other.data.is_empty());
    let missing = submitted(backend().on_format_data_request(TEXT, None));
    assert!(missing.is_error && missing.data.is_empty());
}

#[test]
fn received_text_ends_at_the_zero() {
    let response = FormatData { is_error: false, data: vec![0x61, 0, 0x62, 0, 0, 0, 0x63, 0] };
    assert_eq!(backend().on_format_data_response(&response), Some("ab".into()));
}

#[test]
fn received_text_may_lack_the_zero() {
    let text = |data: &[u8]| {
        backend().on_format_data_response(&FormatData { is_error: false, data: data.to_vec() })
    };
    assert_eq!(text(&[0x61, 0]), Some("a".into()));
    assert_eq!(text(&[0x61, 0, 0x62]), Some("a".into()));
    assert_eq!(text(&[0x61]), Some(String::new()));
    assert_eq!(text(&[]), Some(String::new()));
    assert_eq!(text(&[0, 0, 0x00, 0xD8]), Some(String::new()));
}

#[test]
fn errors_and_broken_text_are_dropped() {
    let error = FormatData { is_error: true, data: vec![0x61, 0] };
    assert_eq!(backend().on_format_data_response(&error), None);
    let lone_surrogate = FormatData { is_error: false, data: vec![0x00, 0xD8, 0, 0] };
    assert_eq!(backend().on_format_data_response(&lone_surrogate), None);
}

#[test]
fn text_survives_the_clipboard() {
    for text in ["", "plain", "zwölf Boxkämpfer", "😀 and 𝄞", "line\r\nline"] {
        let sent = submitted(backend().on_format_data_request(TEXT, Some(text)));
        assert_eq!(backend().on_format_data_response(&sent).as_deref(), Some(text));
    }
    let sent = submitted(backend().on_format_data_request(TEXT, Some("cut\0off")));
    assert_eq!(backend().on_format_data_response(&sent).as_deref(), Some("cut"));
}
