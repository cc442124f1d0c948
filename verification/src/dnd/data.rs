//! The kinds of data that a drag carries, and their encodings.

use vstd::prelude::*;

use vstd::utf8::{encode_scalar, encode_utf8, encode_utf8_decode_utf8, encode_utf8_valid_utf8, valid_utf8};

use crate::text::{
    chars_of, eq_ignore_ascii_case, range_eq_ignore_ascii_case, split_once, split_once_from,
    starts_with, trim, trim_bounds,
};

verus! {

/// What kind of data a transfer holds, where that is known.
#[derive(Clone, Copy, Debug, PartialEq, Eq, Hash)]
pub enum TypeHint {
    /// A list of URIs, one per line.
    UriList,
    /// Plain text.
    Plaintext,
    /// HTML markup.
    Html,
    /// Rich text.
    Rtf,
    /// Sound, with the usual file extension of its format where known.
    Audio { extension_hint: Option<&'static str> },
    /// A picture, with the usual file extension of its format where known.
    Image { extension_hint: Option<&'static str> },
}

/// The MIME types whose kind of data is known, in the order in which they
/// are looked up.
pub open spec fn mime_hint_table() -> Seq<(&'static str, TypeHint)> {
    seq![
        ("text/uri-list", TypeHint::UriList),
        ("text/plain", TypeHint::Plaintext),
        ("text/plain; charset=utf-8", TypeHint::Plaintext),
        ("text/html", TypeHint::Html),
        ("text/html; charset=utf-8", TypeHint::Html),
        ("application/rtf", TypeHint::Rtf),
        ("audio/aac", TypeHint::Audio { extension_hint: Some("aac") }),
        ("audio/aiff", TypeHint::Audio { extension_hint: Some("aif") }),
        ("audio/flac", TypeHint::Audio { extension_hint: Some("flac") }),
        ("audio/vnd.wav", TypeHint::Audio { extension_hint: Some("wav") }),
        ("audio/vnd.wave", TypeHint::Audio { extension_hint: Some("wav") }),
        ("audio/wav", TypeHint::Audio { extension_hint: Some("wav") }),
        ("audio/wave", TypeHint::Audio { extension_hint: Some("wav") }),
        ("audio/x-wav", TypeHint::Audio { extension_hint: Some("wav") }),
        ("audio/ogg", TypeHint::Audio { extension_hint: Some("ogg") }),
        ("audio/mpeg", TypeHint::Audio { extension_hint: Some("mp3") }),
        ("image/bmp", TypeHint::Image { extension_hint: Some("bmp") }),
        ("image/gif", TypeHint::Image { extension_hint: Some("gif") }),
        ("image/jpeg", TypeHint::Image { extension_hint: Some("jpg") }),
        ("image/pjpeg", TypeHint::Image { extension_hint: Some("jpg") }),
        ("image/png", TypeHint::Image { extension_hint: Some("png") }),
        ("image/svg+xml", TypeHint::Image { extension_hint: Some("svg") }),
        ("image/tiff", TypeHint::Image { extension_hint: Some("tiff") }),
        ("image/webp", TypeHint::Image { extension_hint: Some("webp") }),
        ("image/x-icon", TypeHint::Image { extension_hint: Some("ico") }),
        ("image/x-panasonic-raw", TypeHint::Image { extension_hint: Some("raw") }),
    ]
}

/// The table of MIME types whose kind of data is known.
pub fn mime_hint_map() -> (table: Vec<(&'static str, TypeHint)>)
    ensures
        table@ == mime_hint_table(),
{
    vec![
        ("text/uri-list", TypeHint::UriList),
        ("text/plain", TypeHint::Plaintext),
        ("text/plain; charset=utf-8", TypeHint::Plaintext),
        ("text/html", TypeHint::Html),
        ("text/html; charset=utf-8", TypeHint::Html),
        ("application/rtf", TypeHint::Rtf),
        ("audio/aac", TypeHint::Audio { extension_hint: Some("aac") }),
        ("audio/aiff", TypeHint::Audio { extension_hint: Some("aif") }),
        ("audio/flac", TypeHint::Audio { extension_hint: Some("flac") }),
        ("audio/vnd.wav", TypeHint::Audio { extension_hint: Some("wav") }),
        ("audio/vnd.wave", TypeHint::Audio { extension_hint: Some("wav") }),
        ("audio/wav", TypeHint::Audio { extension_hint: Some("wav") }),
        ("audio/wave", TypeHint::Audio { extension_hint: Some("wav") }),
        ("audio/x-wav", TypeHint::Audio { extension_hint: Some("wav") }),
        ("audio/ogg", TypeHint::Audio { extension_hint: Some("ogg") }),
        ("audio/mpeg", TypeHint::Audio { extension_hint: Some("mp3") }),
        ("image/bmp", TypeHint::Image { extension_hint: Some("bmp") }),
        ("image/gif", TypeHint::Image { extension_hint: Some("gif") }),
        ("image/jpeg", TypeHint::Image { extension_hint: Some("jpg") }),
        ("image/pjpeg", TypeHint::Image { extension_hint: Some("jpg") }),
        ("image/png", TypeHint::Image { extension_hint: Some("png") }),
        ("image/svg+xml", TypeHint::Image { extension_hint: Some("svg") }),
        ("image/tiff", TypeHint::Image { extension_hint: Some("tiff") }),
        ("image/webp", TypeHint::Image { extension_hint: Some("webp") }),
        ("image/x-icon", TypeHint::Image { extension_hint: Some("ico") }),
        ("image/x-panasonic-raw", TypeHint::Image { extension_hint: Some("raw") }),
    ]
}

/// Index `i` is the first entry of the MIME table for the MIME type `mime`.
pub open spec fn is_first_table_entry(mime: Seq<char>, i: int) -> bool {
    &&& 0 <= i < mime_hint_table().len()
    &&& mime_hint_table()[i].0@ == mime
    &&& forall|j: int| 0 <= j < i ==> (#[trigger] mime_hint_table()[j]).0@ != mime
}

/// `mime` is in the MIME table.
pub open spec fn in_hint_table(mime: Seq<char>) -> bool {
    exists|i: int| 0 <= i < mime_hint_table().len() && (#[trigger] mime_hint_table()[i]).0@ == mime
}

/// The prefix of the MIME types of pictures.
pub open spec fn image_prefix() -> Seq<char> {
    seq!['i', 'm', 'a', 'g', 'e', '/']
}

/// The prefix of the MIME types of sound.
pub open spec fn audio_prefix() -> Seq<char> {
    seq!['a', 'u', 'd', 'i', 'o', '/']
}

/// The kind of data of the MIME type `mime`: that of its entry in the MIME
/// table, else a picture or a sound with no known extension for the `image/`
/// and `audio/` types, else unknown.
pub open spec fn parsed_hint(mime: Seq<char>) -> Option<TypeHint> {
    if in_hint_table(mime) {
        Some(mime_hint_table()[choose|i: int| is_first_table_entry(mime, i)].1)
    } else if starts_with(mime, image_prefix()) {
        Some(TypeHint::Image { extension_hint: None })
    } else if starts_with(mime, audio_prefix()) {
        Some(TypeHint::Audio { extension_hint: None })
    } else {
        None
    }
}

/// The key of the charset parameter of a MIME type.
pub open spec fn charset_key() -> Seq<char> {
    seq!['c', 'h', 'a', 'r', 's', 'e', 't', '=']
}

/// The charset that a MIME type names: after the first `;`, the text after
/// the first `charset=`, up to the next `,`, trimmed of white space; none
/// when there is no `;` or no `charset=` after it.
pub open spec fn charset_of(mime: Seq<char>) -> Option<Seq<char>> {
    match split_once(mime, seq![';']) {
        None => None,
        Some((_, options)) => match split_once(options, charset_key()) {
            None => None,
            Some((_, value)) => Some(
                trim(
                    match split_once(value, seq![',']) {
                        Some((first, _)) => first,
                        None => value,
                    },
                ),
            ),
        },
    }
}

/// `charset` names UTF-8: `utf-8` or `utf8`, in any case.
pub open spec fn names_utf8(charset: Seq<char>) -> bool {
    eq_ignore_ascii_case(charset, seq!['u', 't', 'f', '-', '8']) || eq_ignore_ascii_case(
        charset,
        seq!['u', 't', 'f', '8'],
    )
}

/// Why data could not be given out in the form asked for.
#[derive(Clone, Debug, PartialEq, Eq)]
pub enum DataError {
    /// A list of URIs was asked for, and the data is bytes.
    UriListWasBytes,
    /// Text was asked for, and the data is bytes.
    StringWasBytes,
    /// A list of URIs did not form UTF-8 text.
    UriListNotUtf8,
    /// Text was asked for in a charset other than UTF-8 (the name is given).
    UnsupportedCharset(String),
}

/// A MIME type, as the contracts speak of it.
pub struct MimeTypeView {
    pub mime: Seq<char>,
    pub hint: Option<TypeHint>,
}

/// A MIME type, with the kind of data that it stands for where that is known.
#[derive(Clone, Debug, PartialEq, Eq, Hash)]
pub struct MimeType {
    mime: String,
    hint: Option<TypeHint>,
}

impl View for MimeType {
    type V = MimeTypeView;

    closed spec fn view(&self) -> MimeTypeView {
        MimeTypeView { mime: self.mime@, hint: self.hint }
    }
}

/// `a` and `b` hold the same characters.
pub fn chars_equal(a: &Vec<char>, b: &Vec<char>) -> (same: bool)
    ensures
        same == (a@ == b@),
{
    if a.len() != b.len() {
        return false;
    }
    let mut i: usize = 0;
    while i < a.len()
        invariant
            a@.len() == b@.len(),
            i <= a@.len(),
            forall|j: int| 0 <= j < i ==> a@[j] == b@[j],
        decreases a@.len() - i,
    {
        if a[i] != b[i] {
            return false;
        }
        i = i + 1;
    }
    assert(a@ =~= b@);
    true
}

/// `prefix` begins `text`.
pub fn starts_with_chars(text: &Vec<char>, prefix: &Vec<char>) -> (begins: bool)
    ensures
        begins == starts_with(text@, prefix@),
{
    if prefix.len() > text.len() {
        return false;
    }
    let mut i: usize = 0;
    while i < prefix.len()
        invariant
            prefix@.len() <= text@.len(),
            i <= prefix@.len(),
            forall|j: int| 0 <= j < i ==> text@[j] == prefix@[j],
        decreases prefix@.len() - i,
    {
        if text[i] != prefix[i] {
            assert(text@.subrange(0, prefix@.len() as int)[i as int] != prefix@[i as int]);
            return false;
        }
        i = i + 1;
    }
    assert(text@.subrange(0, prefix@.len() as int) =~= prefix@);
    true
}

/// The kind of data of the MIME type with characters `mime`, if the MIME table
/// lists it.
fn table_hint(mime: &Vec<char>) -> (hint: Option<TypeHint>)
    ensures
        hint is Some <==> in_hint_table(mime@),
        hint matches Some(h) ==> h == mime_hint_table()[choose|i: int| is_first_table_entry(mime@, i)].1,
{
    let table = mime_hint_map();
    let mut i: usize = 0;
    while i < table.len()
        invariant
            table@ == mime_hint_table(),
            i <= table@.len(),
            forall|j: int| 0 <= j < i ==> (#[trigger] mime_hint_table()[j]).0@ != mime@,
        decreases table@.len() - i,
    {
        let entry = chars_of(table[i].0);
        if chars_equal(&entry, mime) {
            proof {
                assert(is_first_table_entry(mime@, i as int));
                let k = choose|k: int| is_first_table_entry(mime@, k);
                if k < i {
                    assert(mime_hint_table()[k].0@ != mime@);
                } else if i < k {
                    assert(mime_hint_table()[i as int].0@ != mime@);
                }
            }
            return Some(table[i].1);
        }
        i = i + 1;
    }
    None
}

impl MimeType {
    /// The MIME type `mime`, with the kind of data that it stands for.
    pub fn parse(mime: &str) -> (parsed: Self)
        ensures
            parsed@.mime == mime@,
            parsed@.hint == parsed_hint(mime@),
    {
        let chars = chars_of(mime);
        let hint = match table_hint(&chars) {
            Some(hint) => Some(hint),
            None => if starts_with_chars(&chars, &vec!['i', 'm', 'a', 'g', 'e', '/']) {
                Some(TypeHint::Image { extension_hint: None })
            } else if starts_with_chars(&chars, &vec!['a', 'u', 'd', 'i', 'o', '/']) {
                Some(TypeHint::Audio { extension_hint: None })
            } else {
                None
            },
        };
        MimeType { mime: String::from_str(mime), hint }
    }

    /// The MIME type `mime`, which stands for data of kind `hint`.
    pub fn with_hint(mime: &str, hint: TypeHint) -> (mime_type: Self)
        ensures
            mime_type@.mime == mime@,
            mime_type@.hint == Some(hint),
    {
        MimeType { mime: String::from_str(mime), hint: Some(hint) }
    }

    /// The text of the MIME type.
    pub fn as_str(&self) -> (text: &str)
        ensures
            text@ == self@.mime,
    {
        self.mime.as_str()
    }

    /// The kind of data that the MIME type stands for, if known.
    pub fn hint(&self) -> (hint: Option<TypeHint>)
        ensures
            hint == self@.hint,
    {
        self.hint
    }

    /// Text can be given in this MIME type: it names no charset, or names UTF-8.
    pub fn validate_utf8_charset(&self) -> (checked: Result<(), DataError>)
        ensures
            checked is Ok <==> match charset_of(self@.mime) {
                None => true,
                Some(charset) => names_utf8(charset),
            },
            checked matches Err(error) ==> error matches DataError::UnsupportedCharset(name)
                && charset_of(self@.mime) == Some(name@),
    {
        let text = self.mime.as_str();
        let chars = chars_of(text);
        let len = chars.len();
        proof {
            assert(chars@.subrange(0, len as int) =~= chars@);
        }
        let semicolon = vec![';'];
        assert(semicolon@ == seq![';']);
        let options = match split_once_from(&chars, 0, &semicolon) {
            Some(i) => i + 1,
            None => return Ok(()),
        };
        let key = vec!['c', 'h', 'a', 'r', 's', 'e', 't', '='];
        assert(key@ == charset_key());
        let value = match split_once_from(&chars, options, &key) {
            Some(i) => i + 8,
            None => return Ok(()),
        };
        let comma = vec![','];
        assert(comma@ == seq![',']);
        let end = match split_once_from(&chars, value, &comma) {
            Some(i) => i,
            None => len,
        };
        assert(split_once(chars@.subrange(value as int, len as int), seq![',']) matches Some((first, _))
            ==> first == chars@.subrange(value as int, end as int));
        assert(split_once(chars@.subrange(value as int, len as int), seq![',']) is None ==> chars@.subrange(value as int, len as int) == chars@.subrange(value as int, end as int));
        assert(charset_of(self@.mime) == Some(trim(chars@.subrange(value as int, end as int))));
        let (start, stop) = trim_bounds(&chars, value, end);
        if range_eq_ignore_ascii_case(&chars, start, stop, &vec!['u', 't', 'f', '-', '8'])
            || range_eq_ignore_ascii_case(&chars, start, stop, &vec!['u', 't', 'f', '8']) {
            Ok(())
        } else {
            let name = String::from_str(text.substring_char(start, stop));
            Err(DataError::UnsupportedCharset(name))
        }
    }
}

/// Data that the application offers to another one.
#[derive(Clone, Debug, PartialEq, Eq)]
pub enum SendData {
    /// A list of URIs.
    Uris(Vec<String>),
    /// Text.
    String(String),
    /// Raw bytes.
    Bytes(Vec<u8>),
}

/// The characters of each string.
pub open spec fn text_views(strings: Seq<String>) -> Seq<Seq<char>> {
    strings.map_values(|s: String| s@)
}

/// A line break of a URI list.
pub open spec fn crlf() -> Seq<char> {
    seq!['\r', '\n']
}

/// A URI list as text: each URI followed by a line break.
pub open spec fn uri_list_text(uris: Seq<Seq<char>>) -> Seq<char>
    decreases uris.len(),
{
    if uris.len() == 0 {
        seq![]
    } else {
        uri_list_text(uris.drop_last()) + uris.last() + crlf()
    }
}

/// A URI list as bytes: the UTF-8 encoding of each URI, followed by the bytes
/// of a line break.
pub open spec fn uri_list_bytes(uris: Seq<Seq<char>>) -> Seq<u8>
    decreases uris.len(),
{
    if uris.len() == 0 {
        seq![]
    } else {
        uri_list_bytes(uris.drop_last()) + encode_utf8(uris.last()) + seq![13u8, 10u8]
    }
}

/// The URIs joined by line breaks, as `join("\r\n")` joins them.
pub open spec fn joined_by_crlf(uris: Seq<Seq<char>>) -> Seq<char>
    decreases uris.len(),
{
    if uris.len() == 0 {
        seq![]
    } else if uris.len() == 1 {
        uris[0]
    } else {
        joined_by_crlf(uris.drop_last()) + crlf() + uris.last()
    }
}

/// A URI list encoded as bytes, each URI followed by a line break.
pub fn encode_uri_list(uris: &Vec<String>) -> (bytes: Vec<u8>)
    ensures
        bytes@ == uri_list_bytes(text_views(uris@)),
{
    let mut out: Vec<u8> = Vec::new();
    let mut i: usize = 0;
    while i < uris.len()
        invariant
            i <= uris@.len(),
            out@ == uri_list_bytes(text_views(uris@.subrange(0, i as int))),
        decreases uris@.len() - i,
    {
        out.extend_from_slice(uris[i].as_str().as_bytes());
        out.push(13u8);
        out.push(10u8);
        assert(text_views(uris@.subrange(0, i + 1)).drop_last() =~= text_views(
            uris@.subrange(0, i as int),
        ));
        i = i + 1;
    }
    assert(uris@.subrange(0, uris@.len() as int) =~= uris@);
    out
}

/// The URIs joined by line breaks, with a line break after the last one.
pub fn uri_list_string(uris: &Vec<String>) -> (text: String)
    ensures
        text@ == joined_by_crlf(text_views(uris@)) + crlf(),
{
    let ghost views = text_views(uris@);
    let mut text = String::new();
    let mut i: usize = 0;
    while i < uris.len()
        invariant
            i <= uris@.len(),
            views == text_views(uris@),
            text@ == joined_by_crlf(views.subrange(0, i as int)),
        decreases uris@.len() - i,
    {
        if i > 0 {
            text.append("\r\n");
            proof {
                reveal_strlit("\r\n");
            }
        }
        text.append(uris[i].as_str());
        assert(views.subrange(0, i + 1).drop_last() =~= views.subrange(0, i as int));
        i = i + 1;
    }
    text.append("\r\n");
    proof {
        reveal_strlit("\r\n");
        assert(views.subrange(0, uris@.len() as int) =~= views);
    }
    text
}

/// The UTF-8 encoding of two texts one after the other is the encoding of
/// the first followed by that of the second.
pub proof fn lemma_encode_utf8_concat(a: Seq<char>, b: Seq<char>)
    ensures
        encode_utf8(a + b) == encode_utf8(a) + encode_utf8(b),
    decreases a.len(),
{
    if a.len() == 0 {
        assert(a + b =~= b);
    } else {
        assert((a + b).drop_first() =~= a.drop_first() + b);
        lemma_encode_utf8_concat(a.drop_first(), b);
        assert(encode_scalar(a[0] as u32) + (encode_utf8(a.drop_first()) + encode_utf8(b))
            =~= (encode_scalar(a[0] as u32) + encode_utf8(a.drop_first())) + encode_utf8(b));
    }
}

/// The bytes of a URI list are the UTF-8 encoding of its text.
pub proof fn lemma_uri_list_bytes_encode_text(uris: Seq<Seq<char>>)
    ensures
        uri_list_bytes(uris) == encode_utf8(uri_list_text(uris)),
    decreases uris.len(),
{
    if uris.len() > 0 {
        lemma_uri_list_bytes_encode_text(uris.drop_last());
        let rest = uri_list_text(uris.drop_last());
        lemma_encode_utf8_concat(rest + uris.last(), crlf());
        lemma_encode_utf8_concat(rest, uris.last());
        lemma_encode_crlf();
    }
}

/// A line break is encoded as the bytes 13 and 10.
proof fn lemma_encode_crlf()
    ensures
        encode_utf8(crlf()) == seq![13u8, 10u8],
{
    assert(13u32 & 0x7F == 13 && 10u32 & 0x7F == 10) by (bit_vector);
    reveal_with_fuel(encode_utf8, 3);
    assert(crlf().drop_first() =~= seq!['\n']);
    assert(crlf().drop_first().drop_first() =~= Seq::<char>::empty());
    assert(encode_utf8(crlf()) =~= seq![13u8, 10u8]);
}

/// Joining a non-empty list of URIs by line breaks and ending with one gives
/// the text of the URI list.
pub proof fn lemma_joined_uri_list_is_text(uris: Seq<Seq<char>>)
    requires
        uris.len() > 0,
    ensures
        joined_by_crlf(uris) + crlf() == uri_list_text(uris),
    decreases uris.len(),
{
    if uris.len() == 1 {
        assert(uris.drop_last() =~= Seq::<Seq<char>>::empty());
        assert(uri_list_text(uris.drop_last()) == Seq::<char>::empty());
        assert(uri_list_text(uris) =~= uris[0] + crlf());
    } else {
        lemma_joined_uri_list_is_text(uris.drop_last());
        assert(joined_by_crlf(uris) + crlf() =~= (joined_by_crlf(uris.drop_last()) + crlf())
            + uris.last() + crlf());
    }
}

/// The URI list of a drag, as `String::into_bytes` and `encode_uri_list` give
/// it, is the same byte string whichever way it is made, as long as there is
/// at least one URI. (An empty list is encoded as no bytes, but written as a
/// single line break.)
pub proof fn lemma_uri_list_string_matches_bytes(uris: Seq<String>)
    requires
        uris.len() > 0,
    ensures
        encode_utf8(joined_by_crlf(text_views(uris)) + crlf()) == uri_list_bytes(text_views(uris)),
{
    lemma_joined_uri_list_is_text(text_views(uris));
    lemma_uri_list_bytes_encode_text(text_views(uris));
}

/// std's `String::from_utf8`: the text that `bytes` encode, if they are valid
/// UTF-8. The contract claims that it succeeds exactly on valid UTF-8 and
/// then gives the text whose encoding the bytes are.
#[verifier::external_body]
fn string_from_utf8(bytes: Vec<u8>) -> (text: Option<String>)
    ensures
        text is Some <==> valid_utf8(bytes@),
        text matches Some(t) ==> encode_utf8(t@) == bytes@,
{
    String::from_utf8(bytes).ok()
}

/// The URIs of data offered as a file list: a single text is taken as one URI;
/// bytes are refused.
pub fn file_list_uris(data: SendData) -> (uris: Result<Vec<String>, DataError>)
    ensures
        match data {
            SendData::Uris(list) => uris matches Ok(got) && got@ == list@,
            SendData::String(text) => uris matches Ok(got) && got@ == seq![text],
            SendData::Bytes(_) => uris == Err::<Vec<String>, DataError>(DataError::UriListWasBytes),
        },
{
    match data {
        SendData::Uris(uris) => Ok(uris),
        SendData::String(uri) => Ok(vec![uri]),
        SendData::Bytes(_) => Err(DataError::UriListWasBytes),
    }
}

/// The text of data offered as a string: text as it is, a URI list as its
/// lines; bytes are refused.
pub fn string_for_value(data: SendData) -> (text: Result<String, DataError>)
    ensures
        match data {
            SendData::String(s) => text matches Ok(got) && got@ == s@,
            SendData::Uris(list) => text matches Ok(got) && got@ == uri_list_text(text_views(list@)),
            SendData::Bytes(_) => text == Err::<String, DataError>(DataError::StringWasBytes),
        },
{
    match data {
        SendData::String(string) => Ok(string),
        SendData::Uris(uris) => {
            let bytes = encode_uri_list(&uris);
            proof {
                lemma_uri_list_bytes_encode_text(text_views(uris@));
                encode_utf8_valid_utf8(uri_list_text(text_views(uris@)));
            }
            match string_from_utf8(bytes) {
                Some(text) => {
                    proof {
                        encode_utf8_decode_utf8(text@);
                        encode_utf8_decode_utf8(uri_list_text(text_views(uris@)));
                    }
                    Ok(text)
                },
                None => Err(DataError::UriListNotUtf8),
            }
        },
        SendData::Bytes(_) => Err(DataError::StringWasBytes),
    }
}

/// The bytes of offered data, written out in the MIME type `mime_type`: a URI
/// list as its lines, text in UTF-8 (refused if the MIME type names another
/// charset), bytes as they are.
pub fn send_data_to_bytes(data: SendData, mime_type: &MimeType) -> (bytes: Result<Vec<u8>, DataError>)
    ensures
        match data {
            SendData::Uris(list) => bytes matches Ok(got) && got@ == uri_list_bytes(text_views(list@)),
            SendData::String(s) => match charset_of(mime_type@.mime) {
                Some(charset) if !names_utf8(charset) => bytes matches Err(DataError::UnsupportedCharset(
                    name,
                )) && name@ == charset,
                _ => bytes matches Ok(got) && got@ == encode_utf8(s@),
            },
            SendData::Bytes(b) => bytes matches Ok(got) && got@ == b@,
        },
{
    match data {
        SendData::Uris(uris) => Ok(encode_uri_list(&uris)),
        SendData::String(string) => {
            match mime_type.validate_utf8_charset() {
                Ok(()) => {},
                Err(error) => return Err(error),
            }
            Ok(string.as_str().as_bytes_vec())
        },
        SendData::Bytes(bytes) => Ok(bytes),
    }
}

/// Two extension hints name the same extension (or both none).
pub open spec fn same_extension(a: Option<&'static str>, b: Option<&'static str>) -> bool {
    match (a, b) {
        (Some(x), Some(y)) => x@ == y@,
        (None, None) => true,
        _ => false,
    }
}

/// Two kinds of data are equal, their extension hints compared by text.
pub open spec fn same_hint(a: TypeHint, b: TypeHint) -> bool {
    match (a, b) {
        (TypeHint::UriList, TypeHint::UriList) => true,
        (TypeHint::Plaintext, TypeHint::Plaintext) => true,
        (TypeHint::Html, TypeHint::Html) => true,
        (TypeHint::Rtf, TypeHint::Rtf) => true,
        (TypeHint::Audio { extension_hint: x }, TypeHint::Audio { extension_hint: y }) => same_extension(x, y),
        (TypeHint::Image { extension_hint: x }, TypeHint::Image { extension_hint: y }) => same_extension(x, y),
        _ => false,
    }
}

/// Two optional kinds of data are equal.
pub open spec fn same_optional_hint(a: Option<TypeHint>, b: Option<TypeHint>) -> bool {
    match (a, b) {
        (Some(x), Some(y)) => same_hint(x, y),
        (None, None) => true,
        _ => false,
    }
}

/// The form in which the application offers data to GDK.
#[derive(Clone, Debug, PartialEq, Eq, Hash)]
pub enum GtkSendType {
    /// A GDK file list.
    FileList,
    /// A GLib string.
    String,
    /// Bytes in a MIME type.
    Mime(MimeType),
}

/// Two send forms are equal, MIME types compared by text and kind of data.
pub open spec fn same_send_type(a: GtkSendType, b: GtkSendType) -> bool {
    match (a, b) {
        (GtkSendType::FileList, GtkSendType::FileList) => true,
        (GtkSendType::String, GtkSendType::String) => true,
        (GtkSendType::Mime(x), GtkSendType::Mime(y)) => x@.mime == y@.mime && same_optional_hint(
            x@.hint,
            y@.hint,
        ),
        _ => false,
    }
}

/// `types` holds `t`, up to equality of send forms.
pub open spec fn holds_send_type(types: Seq<GtkSendType>, t: GtkSendType) -> bool {
    exists|i: int| 0 <= i < types.len() && same_send_type(#[trigger] types[i], t)
}

/// No two of `types` are equal.
pub open spec fn distinct_send_types(types: Seq<GtkSendType>) -> bool {
    forall|i: int, j: int|
        0 <= i < j < types.len() ==> !same_send_type(#[trigger] types[i], #[trigger] types[j])
}

/// Two extension hints name the same extension.
fn extension_eq(a: Option<&'static str>, b: Option<&'static str>) -> (same: bool)
    ensures
        same == same_extension(a, b),
{
    match (a, b) {
        (Some(x), Some(y)) => chars_equal(&chars_of(x), &chars_of(y)),
        (None, None) => true,
        _ => false,
    }
}

/// Two kinds of data are equal.
pub fn hint_eq(a: TypeHint, b: TypeHint) -> (same: bool)
    ensures
        same == same_hint(a, b),
{
    match (a, b) {
        (TypeHint::UriList, TypeHint::UriList) => true,
        (TypeHint::Plaintext, TypeHint::Plaintext) => true,
        (TypeHint::Html, TypeHint::Html) => true,
        (TypeHint::Rtf, TypeHint::Rtf) => true,
        (TypeHint::Audio { extension_hint: x }, TypeHint::Audio { extension_hint: y }) => extension_eq(x, y),
        (TypeHint::Image { extension_hint: x }, TypeHint::Image { extension_hint: y }) => extension_eq(x, y),
        _ => false,
    }
}

/// Two send forms are equal.
pub fn send_type_eq(a: &GtkSendType, b: &GtkSendType) -> (same: bool)
    ensures
        same == same_send_type(*a, *b),
{
    match (a, b) {
        (GtkSendType::FileList, GtkSendType::FileList) => true,
        (GtkSendType::String, GtkSendType::String) => true,
        (GtkSendType::Mime(x), GtkSendType::Mime(y)) => {
            if x.mime != y.mime {
                return false;
            }
            match (x.hint, y.hint) {
                (Some(p), Some(q)) => hint_eq(p, q),
                (None, None) => true,
                _ => false,
            }
        },
        _ => false,
    }
}

/// Adds `t` to the send forms `types` unless they hold it already, as a set does.
///
/// The send forms are kept as a vector without duplicates rather than in a
/// `HashSet`: Verus proves nothing of a `HashSet` keyed by a type whose `Hash`
/// and `Eq` are derived, as `GtkSendType`'s are, while equality here is stated
/// and proved (`same_send_type`). The forms come out in the order they were
/// first added, where a `HashSet` would give them in hash order.
pub fn insert_send_type(types: &mut Vec<GtkSendType>, t: GtkSendType)
    ensures
        holds_send_type(old(types)@, t) ==> final(types)@ == old(types)@,
        !holds_send_type(old(types)@, t) ==> final(types)@ == old(types)@.push(t),
{
    let mut i: usize = 0;
    while i < types.len()
        invariant
            i <= types@.len(),
            types@ == old(types)@,
            forall|j: int| 0 <= j < i ==> !same_send_type(#[trigger] types@[j], t),
        decreases types@.len() - i,
    {
        if send_type_eq(&types[i], &t) {
            return;
        }
        i = i + 1;
    }
    types.push(t);
}

/// The send forms that a content provider offers: none if there are none to
/// offer, so that no provider is made.
pub fn provider_send_types(types: Vec<GtkSendType>) -> (offered: Option<Vec<GtkSendType>>)
    ensures
        offered is Some <==> types@.len() > 0,
        offered matches Some(kept) ==> kept@ == types@,
{
    if types.len() > 0 {
        Some(types)
    } else {
        None
    }
}

/// Adding send forms one by one keeps them distinct, and every form added is
/// then held.
pub proof fn lemma_insert_keeps_distinct(
    before: Seq<GtkSendType>,
    t: GtkSendType,
    after: Seq<GtkSendType>,
)
    requires
        distinct_send_types(before),
        holds_send_type(before, t) ==> after == before,
        !holds_send_type(before, t) ==> after == before.push(t),
    ensures
        distinct_send_types(after),
        holds_send_type(after, t),
{
    if !holds_send_type(before, t) {
        assert(after[after.len() - 1] == t);
        assert forall|i: int, j: int| 0 <= i < j < after.len() implies !same_send_type(
            #[trigger] after[i],
            #[trigger] after[j],
        ) by {
            if j == after.len() - 1 {
                assert(!same_send_type(before[i], t));
            } else {
                assert(after[i] == before[i] && after[j] == before[j]);
            }
        }
        lemma_same_send_type_reflexive(t);
    }
}

/// Every send form equals itself.
pub proof fn lemma_same_send_type_reflexive(t: GtkSendType)
    ensures
        same_send_type(t, t),
{
    match t {
        GtkSendType::Mime(m) => {
            match m@.hint {
                Some(TypeHint::Audio { extension_hint: e }) => {},
                _ => {},
            }
        },
        _ => {},
    }
}

/// The length, first and seventh characters of a text; the texts of the
/// MIME table already differ in these.
spec fn text_signature(text: Seq<char>) -> (nat, char, char) {
    (text.len(), text[0], text[6])
}

/// The texts of the MIME table are distinct.
proof fn lemma_mime_table_texts_distinct(i: int, j: int)
    requires
        0 <= j < i < mime_hint_table().len(),
    ensures
        mime_hint_table()[j].0@ != mime_hint_table()[i].0@,
{
    // What each text of the table is, character by character.
    reveal_strlit("text/uri-list");
    reveal_strlit("text/plain");
    reveal_strlit("text/plain; charset=utf-8");
    reveal_strlit("text/html");
    reveal_strlit("text/html; charset=utf-8");
    reveal_strlit("application/rtf");
    reveal_strlit("audio/aac");
    reveal_strlit("audio/aiff");
    reveal_strlit("audio/flac");
    reveal_strlit("audio/vnd.wav");
    reveal_strlit("audio/vnd.wave");
    reveal_strlit("audio/wav");
    reveal_strlit("audio/wave");
    reveal_strlit("audio/x-wav");
    reveal_strlit("audio/ogg");
    reveal_strlit("audio/mpeg");
    reveal_strlit("image/bmp");
    reveal_strlit("image/gif");
    reveal_strlit("image/jpeg");
    reveal_strlit("image/pjpeg");
    reveal_strlit("image/png");
    reveal_strlit("image/svg+xml");
    reveal_strlit("image/tiff");
    reveal_strlit("image/webp");
    reveal_strlit("image/x-icon");
    reveal_strlit("image/x-panasonic-raw");
    // Entries that differ in signature differ in text.
    assert(text_signature(mime_hint_table()[0].0@) == (13nat, 't', 'r'));
    assert(text_signature(mime_hint_table()[1].0@) == (10nat, 't', 'l'));
    assert(text_signature(mime_hint_table()[2].0@) == (25nat, 't', 'l'));
    assert(text_signature(mime_hint_table()[3].0@) == (9nat, 't', 't'));
    assert(text_signature(mime_hint_table()[4].0@) == (24nat, 't', 't'));
    assert(text_signature(mime_hint_table()[5].0@) == (15nat, 'a', 'a'));
    assert(text_signature(mime_hint_table()[6].0@) == (9nat, 'a', 'a'));
    assert(text_signature(mime_hint_table()[7].0@) == (10nat, 'a', 'a'));
    assert(text_signature(mime_hint_table()[8].0@) == (10nat, 'a', 'f'));
    assert(text_signature(mime_hint_table()[9].0@) == (13nat, 'a', 'v'));
    assert(text_signature(mime_hint_table()[10].0@) == (14nat, 'a', 'v'));
    assert(text_signature(mime_hint_table()[11].0@) == (9nat, 'a', 'w'));
    assert(text_signature(mime_hint_table()[12].0@) == (10nat, 'a', 'w'));
    assert(text_signature(mime_hint_table()[13].0@) == (11nat, 'a', 'x'));
    assert(text_signature(mime_hint_table()[14].0@) == (9nat, 'a', 'o'));
    assert(text_signature(mime_hint_table()[15].0@) == (10nat, 'a', 'm'));
    assert(text_signature(mime_hint_table()[16].0@) == (9nat, 'i', 'b'));
    assert(text_signature(mime_hint_table()[17].0@) == (9nat, 'i', 'g'));
    assert(text_signature(mime_hint_table()[18].0@) == (10nat, 'i', 'j'));
    assert(text_signature(mime_hint_table()[19].0@) == (11nat, 'i', 'p'));
    assert(text_signature(mime_hint_table()[20].0@) == (9nat, 'i', 'p'));
    assert(text_signature(mime_hint_table()[21].0@) == (13nat, 'i', 's'));
    assert(text_signature(mime_hint_table()[22].0@) == (10nat, 'i', 't'));
    assert(text_signature(mime_hint_table()[23].0@) == (10nat, 'i', 'w'));
    assert(text_signature(mime_hint_table()[24].0@) == (12nat, 'i', 'x'));
    assert(text_signature(mime_hint_table()[25].0@) == (21nat, 'i', 'x'));
    assert(0 <= j <= 25 ==> j == 0 || j == 1 || j == 2 || j == 3 || j == 4 || j == 5 || j == 6 || j == 7
        || j == 8 || j == 9 || j == 10 || j == 11 || j == 12 || j == 13 || j == 14 || j == 15 || j == 16
        || j == 17 || j == 18 || j == 19 || j == 20 || j == 21 || j == 22 || j == 23 || j == 24 || j == 25);
    assert(0 <= i <= 25 ==> i == 0 || i == 1 || i == 2 || i == 3 || i == 4 || i == 5 || i == 6 || i == 7
        || i == 8 || i == 9 || i == 10 || i == 11 || i == 12 || i == 13 || i == 14 || i == 15 || i == 16
        || i == 17 || i == 18 || i == 19 || i == 20 || i == 21 || i == 22 || i == 23 || i == 24 || i == 25);
}

/// Parsing the text of an entry of the MIME table gives back that entry's
/// kind of data, so a MIME type made from a table entry (`MimeType::with_hint`)
/// is the one that `MimeType::parse` makes of its text.
pub proof fn lemma_mime_table_round_trip(i: int)
    requires
        0 <= i < mime_hint_table().len(),
    ensures
        parsed_hint(mime_hint_table()[i].0@) == Some(mime_hint_table()[i].1),
{
    let mime = mime_hint_table()[i].0@;
    assert forall|j: int| 0 <= j < i implies (#[trigger] mime_hint_table()[j]).0@ != mime by {
        lemma_mime_table_texts_distinct(i, j);
    }
    assert(is_first_table_entry(mime, i));
    assert(in_hint_table(mime));
    let k = choose|k: int| is_first_table_entry(mime, k);
    if k < i {
        assert(mime_hint_table()[k].0@ != mime);
    } else if i < k {
        assert(mime_hint_table()[i].0@ != mime);
    }
}

/// `hint` is the kind of data that the text of a MIME type names: HTML for
/// `text/html`, plain text for `text/plain`, a URI list for `text/uri-list`
/// and rich text for `application/rtf`, each with or without parameters, a
/// picture for any `image/` type and sound for any `audio/` type.
pub open spec fn hint_named_by_text(mime: Seq<char>, hint: TypeHint) -> bool {
    &&& "text/html"@.is_prefix_of(mime) ==> hint == TypeHint::Html
    &&& "text/plain"@.is_prefix_of(mime) ==> hint == TypeHint::Plaintext
    &&& "text/uri-list"@.is_prefix_of(mime) ==> hint == TypeHint::UriList
    &&& "application/rtf"@.is_prefix_of(mime) ==> hint == TypeHint::Rtf
    &&& "image/"@.is_prefix_of(mime) ==> hint is Image
    &&& "audio/"@.is_prefix_of(mime) ==> hint is Audio
}

/// A text that begins with `prefix` has the characters of `prefix` first.
proof fn lemma_prefix_char(prefix: Seq<char>, text: Seq<char>, i: int)
    requires
        prefix.is_prefix_of(text),
        0 <= i < prefix.len(),
    ensures
        text[i] == prefix[i],
{
    assert(text.subrange(0, prefix.len() as int)[i] == text[i]);
}

/// The first, second and sixth characters of a text, which tell the kinds of
/// MIME type apart.
spec fn leading_chars(text: Seq<char>) -> (char, char, char) {
    (text[0], text[1], text[5])
}

/// Each entry of the MIME table gives the kind of data that its text names.
proof fn lemma_table_entry_named_by_text(k: int)
    requires
        0 <= k < mime_hint_table().len(),
    ensures
        hint_named_by_text(mime_hint_table()[k].0@, mime_hint_table()[k].1),
{
    reveal_strlit("text/uri-list");
    reveal_strlit("text/plain");
    reveal_strlit("text/plain; charset=utf-8");
    reveal_strlit("text/html");
    reveal_strlit("text/html; charset=utf-8");
    reveal_strlit("application/rtf");
    reveal_strlit("audio/aac");
    reveal_strlit("audio/aiff");
    reveal_strlit("audio/flac");
    reveal_strlit("audio/vnd.wav");
    reveal_strlit("audio/vnd.wave");
    reveal_strlit("audio/wav");
    reveal_strlit("audio/wave");
    reveal_strlit("audio/x-wav");
    reveal_strlit("audio/ogg");
    reveal_strlit("audio/mpeg");
    reveal_strlit("image/bmp");
    reveal_strlit("image/gif");
    reveal_strlit("image/jpeg");
    reveal_strlit("image/pjpeg");
    reveal_strlit("image/png");
    reveal_strlit("image/svg+xml");
    reveal_strlit("image/tiff");
    reveal_strlit("image/webp");
    reveal_strlit("image/x-icon");
    reveal_strlit("image/x-panasonic-raw");
    reveal_strlit("image/");
    reveal_strlit("audio/");
    assert(leading_chars(mime_hint_table()[0].0@) == ('t', 'e', 'u'));
    assert(leading_chars(mime_hint_table()[1].0@) == ('t', 'e', 'p'));
    assert(leading_chars(mime_hint_table()[2].0@) == ('t', 'e', 'p'));
    assert(leading_chars(mime_hint_table()[3].0@) == ('t', 'e', 'h'));
    assert(leading_chars(mime_hint_table()[4].0@) == ('t', 'e', 'h'));
    assert(leading_chars(mime_hint_table()[5].0@) == ('a', 'p', 'c'));
    assert(leading_chars(mime_hint_table()[6].0@) == ('a', 'u', '/'));
    assert(leading_chars(mime_hint_table()[7].0@) == ('a', 'u', '/'));
    assert(leading_chars(mime_hint_table()[8].0@) == ('a', 'u', '/'));
    assert(leading_chars(mime_hint_table()[9].0@) == ('a', 'u', '/'));
    assert(leading_chars(mime_hint_table()[10].0@) == ('a', 'u', '/'));
    assert(leading_chars(mime_hint_table()[11].0@) == ('a', 'u', '/'));
    assert(leading_chars(mime_hint_table()[12].0@) == ('a', 'u', '/'));
    assert(leading_chars(mime_hint_table()[13].0@) == ('a', 'u', '/'));
    assert(leading_chars(mime_hint_table()[14].0@) == ('a', 'u', '/'));
    assert(leading_chars(mime_hint_table()[15].0@) == ('a', 'u', '/'));
    assert(leading_chars(mime_hint_table()[16].0@) == ('i', 'm', '/'));
    assert(leading_chars(mime_hint_table()[17].0@) == ('i', 'm', '/'));
    assert(leading_chars(mime_hint_table()[18].0@) == ('i', 'm', '/'));
    assert(leading_chars(mime_hint_table()[19].0@) == ('i', 'm', '/'));
    assert(leading_chars(mime_hint_table()[20].0@) == ('i', 'm', '/'));
    assert(leading_chars(mime_hint_table()[21].0@) == ('i', 'm', '/'));
    assert(leading_chars(mime_hint_table()[22].0@) == ('i', 'm', '/'));
    assert(leading_chars(mime_hint_table()[23].0@) == ('i', 'm', '/'));
    assert(leading_chars(mime_hint_table()[24].0@) == ('i', 'm', '/'));
    assert(leading_chars(mime_hint_table()[25].0@) == ('i', 'm', '/'));
    assert(k == 0 || k == 1 || k == 2 || k == 3 || k == 4 || k == 5 || k == 6 || k == 7 || k == 8 || k == 9 || k == 10 || k == 11 || k == 12 || k == 13 || k == 14 || k == 15 || k == 16 || k == 17 || k == 18 || k == 19 || k == 20 || k == 21 || k == 22 || k == 23 || k == 24 || k == 25);
    let text = mime_hint_table()[k].0@;
    if "text/html"@.is_prefix_of(text) {
        lemma_prefix_char("text/html"@, text, 0);
        lemma_prefix_char("text/html"@, text, 5);
    }
    if "text/plain"@.is_prefix_of(text) {
        lemma_prefix_char("text/plain"@, text, 0);
        lemma_prefix_char("text/plain"@, text, 5);
    }
    if "text/uri-list"@.is_prefix_of(text) {
        lemma_prefix_char("text/uri-list"@, text, 0);
        lemma_prefix_char("text/uri-list"@, text, 5);
    }
    if "application/rtf"@.is_prefix_of(text) {
        lemma_prefix_char("application/rtf"@, text, 0);
        lemma_prefix_char("application/rtf"@, text, 1);
    }
    if "image/"@.is_prefix_of(text) {
        lemma_prefix_char("image/"@, text, 0);
    }
    if "audio/"@.is_prefix_of(text) {
        lemma_prefix_char("audio/"@, text, 0);
        lemma_prefix_char("audio/"@, text, 1);
    }
}

/// The kind of data that `MimeType::parse` finds for a MIME type is the one
/// that its text names: every `text/html` type, with any parameters, is HTML,
/// every `text/plain` type plain text, every `image/` type a picture, every
/// `audio/` type sound, and so on.
pub proof fn lemma_parsed_hint_named_by_text(mime: Seq<char>)
    ensures
        parsed_hint(mime) matches Some(hint) ==> hint_named_by_text(mime, hint),
{
    if in_hint_table(mime) {
        let i = choose|i: int| 0 <= i < mime_hint_table().len() && (#[trigger] mime_hint_table()[i]).0@ == mime;
        lemma_mime_table_round_trip(i);
        lemma_table_entry_named_by_text(i);
    } else if starts_with(mime, image_prefix()) || starts_with(mime, audio_prefix()) {
        // Outside the table, the kind follows the first two characters.
        reveal_strlit("text/html");
        reveal_strlit("text/plain");
        reveal_strlit("text/uri-list");
        reveal_strlit("application/rtf");
        reveal_strlit("image/");
        reveal_strlit("audio/");
        assert(mime.subrange(0, 6)[0] == mime[0]);
        assert(mime.subrange(0, 6)[1] == mime[1]);
        if "text/html"@.is_prefix_of(mime) {
            lemma_prefix_char("text/html"@, mime, 0);
        }
        if "text/plain"@.is_prefix_of(mime) {
            lemma_prefix_char("text/plain"@, mime, 0);
        }
        if "text/uri-list"@.is_prefix_of(mime) {
            lemma_prefix_char("text/uri-list"@, mime, 0);
        }
        if "application/rtf"@.is_prefix_of(mime) {
            lemma_prefix_char("application/rtf"@, mime, 1);
        }
        if "image/"@.is_prefix_of(mime) {
            lemma_prefix_char("image/"@, mime, 0);
        }
        if "audio/"@.is_prefix_of(mime) {
            lemma_prefix_char("audio/"@, mime, 0);
        }
    }
}

} // verus!
