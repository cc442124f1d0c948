//! MIME types, charsets and the encodings of offered data.

use winit_gtk4::dnd::data::{
    encode_uri_list, file_list_uris, hint_eq, insert_send_type, mime_hint_map, provider_send_types,
    send_data_to_bytes, send_type_eq, string_for_value, uri_list_string, DataError, GtkSendType,
    MimeType, SendData, TypeHint,
};

fn strings(items: &[&str]) -> Vec<String> {
    items.iter().map(|s| s.to_string()).collect()
}

#[test]
fn mime_table() {
    let table = mime_hint_map();
    assert_eq!(table.len(), 26);
    assert_eq!(table[0], ("text/uri-list", TypeHint::UriList));
    assert_eq!(table[25], ("image/x-panasonic-raw", TypeHint::Image { extension_hint: Some("raw") }));
}

#[test]
fn parse_known_mime_types() {
    assert_eq!(MimeType::parse("text/uri-list").hint(), Some(TypeHint::UriList));
    assert_eq!(MimeType::parse("text/plain").hint(), Some(TypeHint::Plaintext));
    assert_eq!(MimeType::parse("text/plain; charset=utf-8").hint(), Some(TypeHint::Plaintext));
    assert_eq!(MimeType::parse("text/html").hint(), Some(TypeHint::Html));
    assert_eq!(MimeType::parse("application/rtf").hint(), Some(TypeHint::Rtf));
    assert_eq!(MimeType::parse("audio/aac").hint(), Some(TypeHint::Audio { extension_hint: Some("aac") }));
    assert_eq!(MimeType::parse("audio/x-wav").hint(), Some(TypeHint::Audio { extension_hint: Some("wav") }));
    assert_eq!(MimeType::parse("image/pjpeg").hint(), Some(TypeHint::Image { extension_hint: Some("jpg") }));
    assert_eq!(MimeType::parse("image/png").as_str(), "image/png");
}

#[test]
fn parse_other_mime_types() {
    assert_eq!(MimeType::parse("image/x-unknown").hint(), Some(TypeHint::Image { extension_hint: None }));
    assert_eq!(MimeType::parse("audio/").hint(), Some(TypeHint::Audio { extension_hint: None }));
    assert_eq!(MimeType::parse("video/mp4").hint(), None);
    assert_eq!(MimeType::parse("TEXT/PLAIN").hint(), None);
    assert_eq!(MimeType::parse("text/plain;charset=utf-8").hint(), None);
    assert_eq!(MimeType::parse("").hint(), None);
    assert_eq!(MimeType::parse("image").hint(), None);
}

#[test]
fn mime_with_hint() {
    let m = MimeType::with_hint("text/plain", TypeHint::Plaintext);
    assert_eq!(m.as_str(), "text/plain");
    assert_eq!(m.hint(), Some(TypeHint::Plaintext));
}

#[test]
fn utf8_charsets_are_accepted() {
    assert_eq!(MimeType::parse("text/plain").validate_utf8_charset(), Ok(()));
    assert_eq!(MimeType::parse("text/plain; charset=utf-8").validate_utf8_charset(), Ok(()));
    assert_eq!(MimeType::parse("text/plain;charset=UTF8").validate_utf8_charset(), Ok(()));
    assert_eq!(MimeType::parse("text/plain; charset= Utf-8 ,x=y").validate_utf8_charset(), Ok(()));
    assert_eq!(MimeType::parse("text/plain; format=flowed").validate_utf8_charset(), Ok(()));
    assert_eq!(MimeType::parse("text/plain charset=latin1").validate_utf8_charset(), Ok(()));
}

#[test]
fn other_charsets_are_refused() {
    assert_eq!(
        MimeType::parse("text/plain; charset=latin1").validate_utf8_charset(),
        Err(DataError::UnsupportedCharset("latin1".to_string()))
    );
    assert_eq!(
        MimeType::parse("text/plain; charset=\tiso-8859-1 , a=b").validate_utf8_charset(),
        Err(DataError::UnsupportedCharset("iso-8859-1".to_string()))
    );
    assert_eq!(
        MimeType::parse("text/plain; charset=").validate_utf8_charset(),
        Err(DataError::UnsupportedCharset(String::new()))
    );
    assert_eq!(
        MimeType::parse("text/plain; a=1; charset=utf-16").validate_utf8_charset(),
        Err(DataError::UnsupportedCharset("utf-16".to_string()))
    );
}

#[test]
fn uri_list_bytes() {
    assert_eq!(encode_uri_list(&strings(&["file:///a", "file:///b"])), b"file:///a\r\nfile:///b\r\n".to_vec());
    assert_eq!(encode_uri_list(&vec![]), Vec::<u8>::new());
    assert_eq!(encode_uri_list(&strings(&["é"])), "é\r\n".as_bytes().to_vec());
}

#[test]
fn uri_list_text() {
    assert_eq!(uri_list_string(&strings(&["x", "y"])), "x\r\ny\r\n");
    assert_eq!(uri_list_string(&strings(&["x"])), "x\r\n");
    assert_eq!(uri_list_string(&vec![]), "\r\n");
    let uris = strings(&["file:///a", "file:///ü"]);
    assert_eq!(uri_list_string(&uris).into_bytes(), encode_uri_list(&uris));
}

#[test]
fn file_list_from_data() {
    assert_eq!(file_list_uris(SendData::Uris(strings(&["a", "b"]))), Ok(strings(&["a", "b"])));
    assert_eq!(file_list_uris(SendData::String("c".to_string())), Ok(strings(&["c"])));
    assert_eq!(file_list_uris(SendData::Bytes(vec![1, 2])), Err(DataError::UriListWasBytes));
}

#[test]
fn string_from_data() {
    assert_eq!(string_for_value(SendData::String("hi".to_string())), Ok("hi".to_string()));
    assert_eq!(string_for_value(SendData::Uris(strings(&["a", "b"]))), Ok("a\r\nb\r\n".to_string()));
    assert_eq!(string_for_value(SendData::Uris(vec![])), Ok(String::new()));
    assert_eq!(string_for_value(SendData::Bytes(vec![])), Err(DataError::StringWasBytes));
}

#[test]
fn bytes_from_data() {
    let plain = MimeType::parse("text/plain");
    let latin = MimeType::parse("text/plain; charset=latin1");
    assert_eq!(send_data_to_bytes(SendData::Uris(strings(&["a"])), &latin), Ok(b"a\r\n".to_vec()));
    assert_eq!(send_data_to_bytes(SendData::String("ü".to_string()), &plain), Ok("ü".as_bytes().to_vec()));
    assert_eq!(
        send_data_to_bytes(SendData::String("x".to_string()), &latin),
        Err(DataError::UnsupportedCharset("latin1".to_string()))
    );
    assert_eq!(send_data_to_bytes(SendData::Bytes(vec![0, 255]), &latin), Ok(vec![0, 255]));
}

#[test]
fn send_types_form_a_set() {
    let mut types = Vec::new();
    insert_send_type(&mut types, GtkSendType::FileList);
    insert_send_type(&mut types, GtkSendType::String);
    insert_send_type(&mut types, GtkSendType::FileList);
    insert_send_type(&mut types, GtkSendType::Mime(MimeType::parse("image/png")));
    insert_send_type(&mut types, GtkSendType::Mime(MimeType::parse("image/png")));
    insert_send_type(&mut types, GtkSendType::Mime(MimeType::with_hint("image/png", TypeHint::Plaintext)));
    assert_eq!(types.len(), 4);
    assert_eq!(types[0], GtkSendType::FileList);
    assert_eq!(types[1], GtkSendType::String);
    assert!(send_type_eq(&types[2], &GtkSendType::Mime(MimeType::parse("image/png"))));
    assert!(!send_type_eq(&types[2], &types[3]));
    assert!(hint_eq(TypeHint::Audio { extension_hint: Some("wav") }, TypeHint::Audio { extension_hint: Some("wav") }));
    assert!(!hint_eq(TypeHint::Audio { extension_hint: Some("wav") }, TypeHint::Image { extension_hint: Some("wav") }));
    assert!(!hint_eq(TypeHint::Audio { extension_hint: None }, TypeHint::Audio { extension_hint: Some("wav") }));
}

#[test]
fn provider_needs_a_type() {
    assert_eq!(provider_send_types(vec![]), None);
    assert_eq!(provider_send_types(vec![GtkSendType::String]), Some(vec![GtkSendType::String]));
}

#[test]
fn parsing_table_texts_gives_their_entries() {
    for (mime, hint) in mime_hint_map() {
        let parsed = MimeType::parse(mime);
        assert_eq!(parsed, MimeType::with_hint(mime, hint));
        assert_eq!(parsed.as_str(), mime);
        assert_eq!(parsed.hint(), Some(hint));
    }
}
