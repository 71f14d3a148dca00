use text_agent::platform::{contains_token, is_mobile_safari};

const IPHONE_SAFARI: &str = "Mozilla/5.0 (iPhone; CPU iPhone OS 17_4 like Mac OS X) AppleWebKit/605.1.15 (KHTML, like Gecko) Version/17.4 Mobile/15E148 Safari/604.1";
const IPAD_SAFARI: &str = "Mozilla/5.0 (iPad; CPU OS 16_6 like Mac OS X) AppleWebKit/605.1.15 (KHTML, like Gecko) Version/16.6 Mobile/15E148 Safari/604.1";
const IPOD_SAFARI: &str = "Mozilla/5.0 (iPod touch; CPU iPhone OS 12_0 like Mac OS X) AppleWebKit/605.1.15 (KHTML, like Gecko) Version/12.0 Mobile/15E148 Safari/604.1";
const MAC_SAFARI: &str = "Mozilla/5.0 (Macintosh; Intel Mac OS X 10_15_7) AppleWebKit/605.1.15 (KHTML, like Gecko) Version/17.4 Safari/605.1.15";
const ANDROID_CHROME: &str = "Mozilla/5.0 (Linux; Android 14; Pixel 8) AppleWebKit/537.36 (KHTML, like Gecko) Chrome/124.0.0.0 Mobile Safari/537.36";
const IPHONE_WEBVIEW: &str = "Mozilla/5.0 (iPhone; CPU iPhone OS 17_4 like Mac OS X) AppleWebKit/605.1.15 (KHTML, like Gecko) Mobile/15E148";
const FIREFOX: &str = "Mozilla/5.0 (X11; Linux x86_64; rv:125.0) Gecko/20100101 Firefox/125.0";

#[test]
fn iphone_with_safari_is_the_mobile_case() {
    assert!(is_mobile_safari(Some(IPHONE_SAFARI)));
}

#[test]
fn ipad_with_safari_is_the_mobile_case() {
    assert!(is_mobile_safari(Some(IPAD_SAFARI)));
}

#[test]
fn ipod_with_safari_is_the_mobile_case() {
    assert!(is_mobile_safari(Some(IPOD_SAFARI)));
}

#[test]
fn the_two_tokens_alone_are_enough() {
    assert!(is_mobile_safari(Some("iPhone Safari")));
    assert!(is_mobile_safari(Some("SafariiPad")));
    assert!(is_mobile_safari(Some("iPodSafari")));
}

#[test]
fn safari_without_a_mobile_device_is_no_match() {
    assert!(!is_mobile_safari(Some(MAC_SAFARI)));
    assert!(!is_mobile_safari(Some(ANDROID_CHROME)));
    assert!(!is_mobile_safari(Some("Safari")));
}

#[test]
fn a_mobile_device_without_safari_is_no_match() {
    assert!(!is_mobile_safari(Some(IPHONE_WEBVIEW)));
    assert!(!is_mobile_safari(Some("iPhone")));
    assert!(!is_mobile_safari(Some("iPad")));
    assert!(!is_mobile_safari(Some("iPod")));
}

#[test]
fn neither_token_is_no_match() {
    assert!(!is_mobile_safari(Some(FIREFOX)));
    assert!(!is_mobile_safari(Some("")));
}

#[test]
fn an_unreadable_string_is_no_match() {
    assert!(!is_mobile_safari(None));
}

#[test]
fn the_tokens_are_matched_letter_for_letter() {
    assert!(!is_mobile_safari(Some("iphone safari")));
    assert!(!is_mobile_safari(Some("IPHONE SAFARI")));
    assert!(!is_mobile_safari(Some("iPhone Safar i")));
    assert!(!is_mobile_safari(Some("iP hone Safari")));
}

#[test]
fn a_token_is_found_wherever_it_stands() {
    assert!(contains_token("Safari", "Safari"));
    assert!(contains_token("Safari/604.1", "Safari"));
    assert!(contains_token("Mobile Safari", "Safari"));
    assert!(contains_token("a Safari b", "Safari"));
    assert!(contains_token("SaSafari", "Safari"));
    assert!(contains_token("SafarSafari", "Safari"));
}

#[test]
fn a_token_that_is_not_there_is_not_found() {
    assert!(!contains_token("", "Safari"));
    assert!(!contains_token("Safar", "Safari"));
    assert!(!contains_token("afari", "Safari"));
    assert!(!contains_token("S a f a r i", "Safari"));
    assert!(!contains_token("safari", "Safari"));
}

#[test]
fn the_empty_token_is_found_everywhere() {
    assert!(contains_token("", ""));
    assert!(contains_token("abc", ""));
}

#[test]
fn tokens_are_compared_by_characters() {
    assert!(contains_token("麻婆豆腐", "婆豆"));
    assert!(contains_token("麻婆豆腐", "腐"));
    assert!(!contains_token("麻婆豆腐", "豆婆"));
    assert!(contains_token("naïve Safari", "ïve S"));
}

#[test]
fn contains_token_agrees_with_the_standard_search() {
    let texts = ["", "a", "ab", "aab", "abab", "iPhone", "iPhon", "xiPhonex", "Safari iPad", "ééé"];
    let tokens = ["", "a", "b", "ab", "ba", "iPhone", "iPad", "Safari", "é", "éé"];
    for text in texts {
        for token in tokens {
            assert_eq!(contains_token(text, token), text.contains(token), "{:?} in {:?}", token, text);
        }
    }
}
