use notify_hub::header::{
    authorization_token, bearer_marker, field_token, is_all_visible, protocol_tokens, starts_with,
    strip_all, token_marker, trim,
};
use notify_hub::text::{bytes_eq, text_eq};

fn tokens(header: &str) -> Vec<String> {
    protocol_tokens(header.as_bytes())
        .into_iter()
        .map(|t| String::from_utf8(t).expect("visible"))
        .collect()
}

#[test]
fn markers_spell_their_prefixes() {
    assert_eq!(token_marker(), b"token-".to_vec());
    assert_eq!(bearer_marker(), b"Bearer ".to_vec());
}

#[test]
fn visible_bytes() {
    assert!(is_all_visible(b""));
    assert!(is_all_visible(b"abc XYZ\t~!"));
    assert!(!is_all_visible(b"abc\n"));
    assert!(!is_all_visible(b"\x7f"));
    assert!(!is_all_visible(b"\x1f"));
    assert!(!is_all_visible("é".as_bytes()));
    assert!(is_all_visible(b" "));
    assert!(is_all_visible(b"~"));
}

#[test]
fn prefixes() {
    assert!(starts_with(b"token-abc", b"token-"));
    assert!(starts_with(b"token-", b"token-"));
    assert!(starts_with(b"anything", b""));
    assert!(starts_with(b"", b""));
    assert!(!starts_with(b"toke", b"token-"));
    assert!(!starts_with(b"Token-abc", b"token-"));
    assert!(!starts_with(b"", b"t"));
}

#[test]
fn trimming() {
    assert_eq!(trim(b"  a b \t"), b"a b");
    assert_eq!(trim(b"a"), b"a");
    assert_eq!(trim(b""), b"");
    assert_eq!(trim(b" \t \t"), b"");
    assert_eq!(trim(b"\ta\t"), b"a");
    assert_eq!(trim(b"\na\n"), b"\na\n");
}

#[test]
fn stripping_every_leading_copy() {
    assert_eq!(strip_all(b"token-abc", b"token-"), b"abc");
    assert_eq!(strip_all(b"token-token-abc", b"token-"), b"abc");
    assert_eq!(strip_all(b"token-", b"token-"), b"");
    assert_eq!(strip_all(b"abc", b"token-"), b"abc");
    assert_eq!(strip_all(b"abctoken-", b"token-"), b"abctoken-");
    assert_eq!(strip_all(b"abc", b""), b"abc");
    assert_eq!(strip_all(b"aaaa", b"aa"), b"");
    assert_eq!(strip_all(b"aaaaa", b"aa"), b"a");
}

#[test]
fn one_field() {
    assert_eq!(field_token(b" token-abc "), Some(b"abc".to_vec()));
    assert_eq!(field_token(b"token-"), Some(Vec::new()));
    assert_eq!(field_token(b"chat"), None);
    assert_eq!(field_token(b""), None);
    assert_eq!(field_token(b"x token-abc"), None);
    assert_eq!(field_token(b"token-token-a b"), Some(b"a b".to_vec()));
}

#[test]
fn protocol_header_offers_tokens_in_order() {
    assert_eq!(tokens("token-abc"), vec!["abc"]);
    assert_eq!(tokens("chat, token-abc"), vec!["abc"]);
    assert_eq!(tokens("token-abc,chat"), vec!["abc"]);
    assert_eq!(tokens(" token-a ,\ttoken-b\t, x,token-token-c"), vec!["a", "b", "c"]);
    assert_eq!(tokens("token-a,,token-b,"), vec!["a", "b"]);
    assert_eq!(tokens("token-,token-"), vec!["", ""]);
}

#[test]
fn protocol_header_without_tokens_offers_none() {
    assert!(tokens("").is_empty());
    assert!(tokens(",").is_empty());
    assert!(tokens("chat").is_empty());
    assert!(tokens("chat, superchat").is_empty());
    assert!(tokens("Token-abc").is_empty());
    assert!(tokens("mytoken-abc").is_empty());
}

#[test]
fn protocol_header_with_an_invisible_byte_offers_none() {
    assert!(protocol_tokens(b"token-abc\n").is_empty());
    assert!(protocol_tokens(b"token-abc,\x00").is_empty());
    assert!(protocol_tokens("token-é".as_bytes()).is_empty());
}

#[test]
fn authorization_header() {
    assert_eq!(authorization_token(b"Bearer abc"), Some(b"abc".to_vec()));
    assert_eq!(authorization_token(b"Bearer  abc \t"), Some(b"abc".to_vec()));
    assert_eq!(authorization_token(b"Bearer Bearer abc"), Some(b"abc".to_vec()));
    assert_eq!(authorization_token(b"Bearer "), Some(Vec::new()));
    assert_eq!(authorization_token(b"Bearer"), None);
    assert_eq!(authorization_token(b"bearer abc"), None);
    assert_eq!(authorization_token(b" Bearer abc"), None);
    assert_eq!(authorization_token(b"Basic abc"), None);
    assert_eq!(authorization_token(b""), None);
    assert_eq!(authorization_token(b"Bearer abc\n"), None);
}

#[test]
fn comparing_bytes_and_text() {
    assert!(bytes_eq(b"", b""));
    assert!(bytes_eq(b"abc", b"abc"));
    assert!(!bytes_eq(b"abc", b"abd"));
    assert!(!bytes_eq(b"abc", b"ab"));
    assert!(!bytes_eq(b"", b"a"));
    assert!(text_eq("", ""));
    assert!(text_eq("héllo", "héllo"));
    assert!(!text_eq("héllo", "hello"));
    assert!(!text_eq("a", "A"));
    assert!(!text_eq("a", "ab"));
}

fn by_the_book(header: &str) -> Vec<String> {
    header
        .split(',')
        .map(|s| s.trim())
        .filter(|s| s.starts_with("token-"))
        .map(|s| s.trim_start_matches("token-").to_string())
        .collect()
}

#[test]
fn protocol_tokens_agree_with_the_string_operations() {
    let alphabet: Vec<char> = "tokenTOKEN-, \tab.1".chars().collect();
    let mut state: u64 = 0x2545f4914f6cdd1d;
    for _ in 0..4000 {
        let mut header = String::new();
        state ^= state << 13;
        state ^= state >> 7;
        state ^= state << 17;
        let length = (state % 24) as usize;
        for _ in 0..length {
            state ^= state << 13;
            state ^= state >> 7;
            state ^= state << 17;
            if state % 5 == 0 {
                header.push_str("token-");
            } else {
                header.push(alphabet[(state % alphabet.len() as u64) as usize]);
            }
        }
        assert_eq!(tokens(&header), by_the_book(&header), "{:?}", header);
        let expected = if header.starts_with("Bearer ") {
            Some(header.trim_start_matches("Bearer ").trim().as_bytes().to_vec())
        } else {
            None
        };
        assert_eq!(authorization_token(header.as_bytes()), expected, "{:?}", header);
        let bearer = format!("Bearer {}", header);
        assert_eq!(
            authorization_token(bearer.as_bytes()),
            Some(bearer.trim_start_matches("Bearer ").trim().as_bytes().to_vec()),
            "{:?}",
            bearer
        );
    }
}
