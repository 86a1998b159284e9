use notion_re::utils::{
    extract_page_id_from_url, is_valid_notion_id, pretty_print_json, pretty_print_parsed,
    JsonError, NOTION_ID_LEN, PAGE_URL_PREFIX,
};

const ID: &str = "1234567890abcdef1234567890abcdef";

#[test]
fn test_extract_page_id() {
    let url = "https://www.notion.so/username/Test-Page-1234567890abcdef1234567890abcdef";
    assert_eq!(
        extract_page_id_from_url(url),
        Some("1234567890abcdef1234567890abcdef".to_string())
    );
}

#[test]
fn test_extract_page_id_with_trailing_slash() {
    let url = "https://www.notion.so/username/Test-Page-1234567890abcdef1234567890abcdef/";
    assert_eq!(
        extract_page_id_from_url(url),
        Some("1234567890abcdef1234567890abcdef".to_string())
    );
}

#[test]
fn test_extract_real_notion_url() {
    let url = "https://www.notion.so/287502506d2c800f9c00c9f8a5e285e3?v=287502506d2c814eb0c6000cbb508a4e";
    assert_eq!(
        extract_page_id_from_url(url),
        Some("287502506d2c800f9c00c9f8a5e285e3".to_string())
    );
}

#[test]
fn test_extract_page_id_no_match() {
    let url = "https://www.notion.so/username/test";
    assert_eq!(extract_page_id_from_url(url), None);
}

#[test]
fn test_valid_notion_id() {
    assert!(is_valid_notion_id("1234567890abcdef1234567890abcdef"));
    assert!(is_valid_notion_id("00000000000000000000000000000000"));
    assert!(is_valid_notion_id("ffffffffffffffffffffffffffffffff"));
    assert!(is_valid_notion_id("ABCDEF1234567890ABCDEF1234567890"));
}

#[test]
fn test_invalid_notion_id() {
    assert!(!is_valid_notion_id("invalid"));
    assert!(!is_valid_notion_id("1234567890abcdef1234567890abcde")); // 31 chars
    assert!(!is_valid_notion_id("1234567890abcdef1234567890abcdefg")); // 33 chars
    assert!(!is_valid_notion_id("1234567890abcdef1234567890abcd")); // 30 chars
    assert!(!is_valid_notion_id("")); // empty
    assert!(!is_valid_notion_id("g-g-g-g-g-g-g-g-g-g-g-g-g-g-g-g-g-g-g-g-g-g-g-g-g-g-g-g")); // invalid chars
}

#[test]
fn test_pretty_print_json() {
    let json = r#"{"name":"test","value":123}"#;
    let result = pretty_print_json(json).unwrap();
    assert!(result.contains("\n"));
    assert!(result.contains("\"name\""));
    assert!(result.contains("\"test\""));
}

#[test]
fn test_pretty_print_json_invalid() {
    let json = "not valid json";
    assert!(pretty_print_json(json).is_err());
}

#[test]
fn constants() {
    assert_eq!(NOTION_ID_LEN, 32);
    assert_eq!(PAGE_URL_PREFIX, "https://www.notion.so/");
}

#[test]
fn id_of_31_or_33_hex_digits_is_invalid() {
    assert!(is_valid_notion_id(&"f".repeat(32)));
    assert!(!is_valid_notion_id(&"f".repeat(31)));
    assert!(!is_valid_notion_id(&"f".repeat(33)));
    assert!(!is_valid_notion_id(&"f".repeat(64)));
    assert!(!is_valid_notion_id("f"));
}

#[test]
fn id_takes_both_cases_and_every_digit() {
    assert!(is_valid_notion_id("0123456789abcdefABCDEF0123456789"));
    assert!(is_valid_notion_id("aAbBcCdDeEfF00112233445566778899"));
}

#[test]
fn id_with_one_other_character_is_invalid() {
    for bad in ['g', 'G', 'z', '-', '/', '?', ' ', ':', '@', '`', '\n', '\0'] {
        for at in [0usize, 15, 31] {
            let mut chars: Vec<char> = ID.chars().collect();
            chars[at] = bad;
            let s: String = chars.into_iter().collect();
            assert_eq!(s.chars().count(), 32);
            assert!(!is_valid_notion_id(&s), "{:?} at {}", bad, at);
        }
    }
}

#[test]
fn id_with_characters_outside_ascii_is_invalid() {
    // 32 characters, one of them two bytes long
    let s = format!("{}é", &ID[..31]);
    assert_eq!(s.chars().count(), 32);
    assert!(!is_valid_notion_id(&s));
    // 32 bytes, 31 characters
    let s = format!("{}é", &ID[..30]);
    assert_eq!(s.len(), 32);
    assert!(!is_valid_notion_id(&s));
    // full-width digits are no hexadecimal digits
    let s = "１".repeat(32);
    assert!(!is_valid_notion_id(&s));
}

#[test]
fn extract_bare_id() {
    let url = format!("https://www.notion.so/{}", ID);
    assert_eq!(extract_page_id_from_url(&url), Some(ID.to_string()));
}

#[test]
fn extract_bare_id_in_upper_case_keeps_its_case() {
    let id = "ABCDEF1234567890ABCDEF1234567890";
    let url = format!("https://www.notion.so/{}", id);
    assert_eq!(extract_page_id_from_url(&url), Some(id.to_string()));
}

#[test]
fn extract_bare_id_with_trailing_slash() {
    let url = format!("https://www.notion.so/{}/", ID);
    assert_eq!(extract_page_id_from_url(&url), Some(ID.to_string()));
}

#[test]
fn extract_trims_one_slash_only() {
    let url = format!("https://www.notion.so/{}//", ID);
    assert_eq!(extract_page_id_from_url(&url), None);
}

#[test]
fn extract_ignores_the_query() {
    for query in ["", "v=1", "v=287502506d2c814eb0c6000cbb508a4e", "a=b&c=d", "?", "-", "/"] {
        let url = format!("https://www.notion.so/{}?{}", ID, query);
        assert_eq!(extract_page_id_from_url(&url), Some(ID.to_string()), "{}", query);
    }
}

#[test]
fn extract_trims_the_slash_before_the_query() {
    let url = format!("https://www.notion.so/{}/?v=1", ID);
    assert_eq!(extract_page_id_from_url(&url), Some(ID.to_string()));
}

#[test]
fn extract_does_not_look_into_the_query() {
    let url = format!("https://www.notion.so/page?id={}", ID);
    assert_eq!(extract_page_id_from_url(&url), None);
    let url = format!("https://www.notion.so/Title?-{}", ID);
    assert_eq!(extract_page_id_from_url(&url), None);
}

#[test]
fn extract_from_slug() {
    let url = format!("https://www.notion.so/My-Page-Title-{}", ID);
    assert_eq!(extract_page_id_from_url(&url), Some(ID.to_string()));
}

#[test]
fn extract_from_slug_with_slash_and_query() {
    let url = format!("https://www.notion.so/team/My-Page-Title-{}/?pvs=4", ID);
    assert_eq!(extract_page_id_from_url(&url), Some(ID.to_string()));
}

#[test]
fn extract_from_slug_with_title_outside_ascii() {
    let url = format!("https://www.notion.so/Café-déjà-vu-{}", ID);
    assert_eq!(extract_page_id_from_url(&url), Some(ID.to_string()));
}

#[test]
fn extract_from_slug_with_empty_title() {
    let url = format!("https://www.notion.so/-{}", ID);
    assert_eq!(extract_page_id_from_url(&url), Some(ID.to_string()));
}

#[test]
fn extract_takes_the_last_piece_only() {
    // the identifier is followed by another piece
    let url = format!("https://www.notion.so/{}-copy", ID);
    assert_eq!(extract_page_id_from_url(&url), None);
    // a title that ends in an identifier-like word wins over what precedes it
    let other = "ffffffffffffffffffffffffffffffff";
    let url = format!("https://www.notion.so/{}-{}", ID, other);
    assert_eq!(extract_page_id_from_url(&url), Some(other.to_string()));
}

#[test]
fn extract_needs_a_hyphen_or_nothing_before_the_id() {
    let url = format!("https://www.notion.so/username/{}", ID);
    assert_eq!(extract_page_id_from_url(&url), None);
    let url = format!("https://www.notion.so/x{}", ID);
    assert_eq!(extract_page_id_from_url(&url), None);
}

#[test]
fn extract_not_an_id() {
    assert_eq!(extract_page_id_from_url("https://www.notion.so/not-an-id"), None);
}

#[test]
fn extract_with_no_path() {
    assert_eq!(extract_page_id_from_url("https://www.notion.so/"), None);
    assert_eq!(extract_page_id_from_url("https://www.notion.so/?v=1"), None);
    assert_eq!(extract_page_id_from_url("https://www.notion.so//"), None);
    assert_eq!(extract_page_id_from_url("https://www.notion.so/-"), None);
}

#[test]
fn extract_with_other_prefix() {
    for prefix in [
        "https://notion.so/",
        "http://www.notion.so/",
        "https://www.notion.com/",
        "https://www.notion.so",
        "HTTPS://WWW.NOTION.SO/",
        " https://www.notion.so/",
        "",
    ] {
        let url = format!("{}{}", prefix, ID);
        assert_eq!(extract_page_id_from_url(&url), None, "{}", prefix);
    }
    assert_eq!(extract_page_id_from_url(""), None);
    assert_eq!(extract_page_id_from_url("https://www.notion.so"), None);
    assert_eq!(extract_page_id_from_url(ID), None);
}

#[test]
fn extract_rejects_a_short_or_long_last_piece() {
    let url = format!("https://www.notion.so/Title-{}", &ID[1..]);
    assert_eq!(extract_page_id_from_url(&url), None);
    let url = format!("https://www.notion.so/Title-{}0", ID);
    assert_eq!(extract_page_id_from_url(&url), None);
}

#[test]
fn pretty_print_json_exact() {
    assert_eq!(
        pretty_print_json(r#"{"name":"test","value":123}"#),
        Ok("{\n  \"name\": \"test\",\n  \"value\": 123\n}".to_string())
    );
    assert_eq!(pretty_print_json("[1,2]"), Ok("[\n  1,\n  2\n]".to_string()));
    assert_eq!(pretty_print_json(" null "), Ok("null".to_string()));
    assert_eq!(pretty_print_json("{}"), Ok("{}".to_string()));
}

#[test]
fn pretty_print_json_reports_a_parse_error() {
    for text in ["not valid json", "", "{", "[1,]", "{\"a\":1} x"] {
        match pretty_print_json(text) {
            Err(JsonError::Parse { message }) => assert!(!message.is_empty()),
            other => panic!("{:?} for {:?}", other, text),
        }
    }
}

#[test]
fn pretty_print_parsed_writes_a_value() {
    let parsed = serde_json::from_str::<serde_json::Value>("{\"b\":[true,null],\"a\":\"x\"}");
    assert_eq!(
        pretty_print_parsed(parsed),
        Ok("{\n  \"a\": \"x\",\n  \"b\": [\n    true,\n    null\n  ]\n}".to_string())
    );
}

#[test]
fn pretty_print_parsed_reports_a_fault() {
    let parsed = serde_json::from_str::<serde_json::Value>("[");
    let text = parsed.as_ref().unwrap_err().to_string();
    assert_eq!(pretty_print_parsed(parsed), Err(JsonError::Parse { message: text }));
}
