use armature_azure_functions::parse_query;
use armature_azure_functions::query::{decode_component, split_query};
use armature_azure_functions::text::{contains, eq_ignore_ascii_case, split_once, strip_prefix};

fn pairs(expected: &[(&str, &str)]) -> Vec<(String, String)> {
    expected
        .iter()
        .map(|(key, value)| (key.to_string(), value.to_string()))
        .collect()
}

#[test]
fn query_parsing_keeps_order_bare_keys_and_repeats() {
    let parsed = parse_query("flag&tag=a&empty=&tag=b&=novalue&q=x%20y");
    assert_eq!(
        parsed,
        vec![
            ("flag".to_string(), String::new()),
            ("tag".to_string(), "a".to_string()),
            ("empty".to_string(), String::new()),
            ("tag".to_string(), "b".to_string()),
            ("q".to_string(), "x y".to_string()),
        ]
    );
}

#[test]
fn query_component_that_does_not_decode_is_passed_through() {
    // %FF alone is not valid UTF-8; the raw text is preserved rather than
    // collapsing the value to an empty string.
    let parsed = parse_query("bad=%FF");
    assert_eq!(parsed, vec![("bad".to_string(), "%FF".to_string())]);
}

#[test]
fn empty_pieces_are_skipped() {
    assert_eq!(parse_query(""), pairs(&[]));
    assert_eq!(parse_query("&&"), pairs(&[]));
    assert_eq!(parse_query("&a=1&&b&"), pairs(&[("a", "1"), ("b", "")]));
    assert_eq!(parse_query("="), pairs(&[]));
}

#[test]
fn only_the_first_equals_sign_separates() {
    assert_eq!(parse_query("a=b=c"), pairs(&[("a", "b=c")]));
    assert_eq!(parse_query("a=="), pairs(&[("a", "=")]));
    assert_eq!(parse_query("é=%C3%A9"), pairs(&[("é", "é")]));
}

#[test]
fn joined_queries_parse_to_joined_lists() {
    for (a, b) in [("x=1&y", "x=2"), ("", "k"), ("=v&w", "&z=%41")] {
        let mut apart = parse_query(a);
        apart.extend(parse_query(b));
        assert_eq!(parse_query(&format!("{}&{}", a, b)), apart);
    }
}

#[test]
fn components_are_percent_decoded() {
    assert_eq!(decode_component("plain+text"), "plain+text");
    assert_eq!(decode_component("%48%69%21"), "Hi!");
    assert_eq!(decode_component("%4a%4A"), "JJ");
    assert_eq!(decode_component("100%"), "100%");
    assert_eq!(decode_component("%4"), "%4");
    assert_eq!(decode_component("%zz%41"), "%zzA");
    assert_eq!(decode_component("%4g"), "%4g");
    assert_eq!(decode_component("%%41"), "%A");
    assert_eq!(decode_component("%4%41"), "%4A");
    assert_eq!(decode_component("%E2%82%AC"), "€");
    assert_eq!(decode_component("%E2%82"), "%E2%82");
    assert_eq!(decode_component("%2541"), "%41");
}

#[test]
fn text_is_cut_and_compared_by_characters() {
    assert_eq!(split_once("añb=c=d", '='), Some(("añb", "c=d")));
    assert_eq!(split_once("=", '='), Some(("", "")));
    assert_eq!(split_once("añb", '='), None);
    assert_eq!(strip_prefix("añb", "añ"), Some("b"));
    assert_eq!(strip_prefix("añb", ""), Some("añb"));
    assert_eq!(strip_prefix("a", "añ"), None);
    assert_eq!(strip_prefix("ab", "b"), None);
    assert!(contains("x añb y", "añb"));
    assert!(contains("abc", ""));
    assert!(!contains("abab", "aba!"));
    assert!(contains("aabab", "bab"));
    assert!(eq_ignore_ascii_case("Set-Cookie", "sET-cOOKIE"));
    assert!(!eq_ignore_ascii_case("É", "é"));
    assert!(!eq_ignore_ascii_case("a", "ab"));
    assert!(!eq_ignore_ascii_case("[", "{"));
}

#[test]
fn split_query_leaves_components_as_they_were_sent() {
    assert_eq!(
        split_query("a%20b=%FF=x&flag&=none&&k="),
        vec![("a%20b", "%FF=x"), ("flag", ""), ("k", "")]
    );
    assert!(split_query("").is_empty());
}

#[test]
fn decoding_undoes_percent_encoding() {
    for text in ["", "a+b", "100% & more=x", "\u{e9}\u{1f600}", "%41", "-._~"] {
        let encoded = urlencoding::encode(text).into_owned();
        assert_eq!(decode_component(&encoded), text);
        assert_eq!(
            parse_query(&format!("{}={}", urlencoding::encode("k y&="), encoded)),
            pairs(&[("k y&=", text)])
        );
    }
    assert_eq!(urlencoding::encode("\u{e9} ~"), "%C3%A9%20~");
}
