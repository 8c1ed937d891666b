use webview_host::text::{utf_16_null_terminiated, webview_set_title};

#[test]
fn encodes_ascii_with_closing_zero() {
    assert_eq!(
        utf_16_null_terminiated("WebView"),
        vec![0x57, 0x65, 0x62, 0x56, 0x69, 0x65, 0x77, 0]
    );
}

#[test]
fn encodes_the_empty_text_as_a_single_zero() {
    assert_eq!(utf_16_null_terminiated(""), vec![0]);
}

#[test]
fn encodes_characters_of_the_basic_plane_as_one_unit() {
    assert_eq!(utf_16_null_terminiated("é€"), vec![0x00E9, 0x20AC, 0]);
    assert_eq!(utf_16_null_terminiated("\u{FFFF}"), vec![0xFFFF, 0]);
    assert_eq!(utf_16_null_terminiated("\u{D7FF}\u{E000}"), vec![0xD7FF, 0xE000, 0]);
}

#[test]
fn encodes_characters_beyond_the_basic_plane_as_surrogate_pairs() {
    assert_eq!(utf_16_null_terminiated("😀"), vec![0xD83D, 0xDE00, 0]);
    assert_eq!(utf_16_null_terminiated("\u{10000}"), vec![0xD800, 0xDC00, 0]);
    assert_eq!(utf_16_null_terminiated("\u{10FFFF}"), vec![0xDBFF, 0xDFFF, 0]);
    assert_eq!(utf_16_null_terminiated("a😀b"), vec![0x61, 0xD83D, 0xDE00, 0x62, 0]);
}

#[test]
fn agrees_with_the_standard_encoder() {
    let samples = ["", "title", "naïve café", "日本語のタイトル", "𝔘𝔫𝔦𝔠𝔬𝔡𝔢 😀 \u{0}x"];
    for sample in samples {
        let mut expected: Vec<u16> = sample.encode_utf16().collect();
        expected.push(0);
        assert_eq!(utf_16_null_terminiated(sample), expected);
    }
}

#[test]
fn a_title_is_set_as_utf_16_with_closing_zero() {
    assert_eq!(webview_set_title("Hi"), vec![0x48, 0x69, 0]);
    assert_eq!(webview_set_title(""), vec![0]);
    assert_eq!(webview_set_title("ü😀"), vec![0x00FC, 0xD83D, 0xDE00, 0]);
}
