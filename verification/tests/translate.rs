use kon::translate::{
    api_url, authorization, endpoint_url, lookup_language, nothing_to_translate,
    nothing_translated, parsing_error, plan, prettify_lang, prettify_nums, quota_line, refusal,
    service_error, translation_reply, wanted_text, Endpoint, Language, Plan, Usage,
};

fn language(code: &str, name: &str) -> Language {
    Language { language: code.to_string(), name: name.to_string() }
}

#[test]
fn prettify_nums_groups_by_thousands() {
    assert_eq!(prettify_nums(0), "0");
    assert_eq!(prettify_nums(7), "7");
    assert_eq!(prettify_nums(999), "999");
    assert_eq!(prettify_nums(1000), "1,000");
    assert_eq!(prettify_nums(1001), "1,001");
    assert_eq!(prettify_nums(12345), "12,345");
    assert_eq!(prettify_nums(500000), "500,000");
    assert_eq!(prettify_nums(1234567), "1,234,567");
    assert_eq!(prettify_nums(1000000000), "1,000,000,000");
    assert_eq!(prettify_nums(u64::MAX), "18,446,744,073,709,551,615");
}

#[test]
fn prettify_nums_changes_nothing_but_the_commas() {
    for n in [0u64, 12, 123, 1234, 100200, 99999999, u64::MAX] {
        assert_eq!(prettify_nums(n).replace(',', ""), n.to_string());
    }
}

#[test]
fn known_languages_are_named() {
    assert_eq!(lookup_language("EN"), Some("English"));
    assert_eq!(lookup_language("AR"), Some("Arabic"));
    assert_eq!(lookup_language("ZH"), Some("Chinese"));
    assert_eq!(lookup_language("NB"), Some("Norwegian Bokm\u{e5}l"));
    assert_eq!(lookup_language("en"), None);
    assert_eq!(lookup_language("XX"), None);
    assert_eq!(lookup_language(""), None);
}

#[test]
fn prettify_lang_prefers_the_service_s_list() {
    let cache = vec![language("EN", "English (service)"), language("TLH", "Klingon")];
    assert_eq!(prettify_lang(&cache, "EN"), "English (service)");
    assert_eq!(prettify_lang(&cache, "TLH"), "Klingon");
    assert_eq!(prettify_lang(&cache, "DE"), "German");
    assert_eq!(prettify_lang(&cache, "XX"), "XX");
    assert_eq!(prettify_lang(&Vec::new(), "JA"), "Japanese");
    assert_eq!(prettify_lang(&Vec::new(), "??"), "??");
}

#[test]
fn prettify_lang_takes_the_last_entry_for_a_code() {
    let cache = vec![language("EN", "first"), language("DE", "Deutsch"), language("EN", "second")];
    assert_eq!(prettify_lang(&cache, "EN"), "second");
    assert_eq!(prettify_lang(&cache, "DE"), "Deutsch");
}

#[test]
fn free_keys_have_their_own_host() {
    assert_eq!(api_url("abc:fx"), "https://api-free.deepl.com");
    assert_eq!(api_url("abc"), "https://api.deepl.com");
    assert_eq!(api_url("abc:fxx"), "https://api.deepl.com");
    assert_eq!(api_url(""), "https://api.deepl.com");
    assert_eq!(endpoint_url("k:fx", Endpoint::Translate), "https://api-free.deepl.com/v2/translate");
    assert_eq!(endpoint_url("k", Endpoint::Languages), "https://api.deepl.com/v2/languages");
    assert_eq!(endpoint_url("k", Endpoint::Usage), "https://api.deepl.com/v2/usage");
    assert_eq!(authorization("k:fx"), "DeepL-Auth-Key k:fx");
}

#[test]
fn every_status_has_its_answer() {
    assert_eq!(refusal(200), None);
    assert_eq!(refusal(403), Some("Not authenticated to DeepL API".to_string()));
    assert_eq!(refusal(429), Some("DeepL requests ratelimited, slow down!".to_string()));
    assert_eq!(
        refusal(456),
        Some("Quota exceeded, used up all of 500k characters for this month!\nConsider upgrading to **Pro** if still relying on DeepL!".to_string())
    );
    assert_eq!(
        refusal(500),
        Some("DeepL service gave an internal server error, try again later!".to_string())
    );
    assert_eq!(
        refusal(404),
        Some("Unknown status code, DeepL returned with HTTP 404".to_string())
    );
    assert_eq!(refusal(201), Some("Unknown status code, DeepL returned with HTTP 201".to_string()));
    assert_eq!(refusal(0), Some("Unknown status code, DeepL returned with HTTP 0".to_string()));
}

#[test]
fn errors_name_their_cause() {
    assert_eq!(service_error("timed out"), "**(DeepL) Service error:** timed out");
    assert_eq!(parsing_error("expected value"), "**(Kon) Parsing error:** expected value");
    assert_eq!(nothing_translated(), "DeepL didn't send translated text back!");
}

#[test]
fn quota_line_shows_used_and_allowed() {
    assert_eq!(
        quota_line(Some(Usage { character_count: 12345, character_limit: 500000 })),
        "-# **Quota: 12,345/500,000**"
    );
    assert_eq!(
        quota_line(Some(Usage { character_count: 0, character_limit: 0 })),
        "-# **Quota: 0/0**"
    );
    assert_eq!(quota_line(None), "-# *Failed to check the quota!*");
}

#[test]
fn translation_reply_has_three_parts() {
    let cache = vec![language("JA", "Japanese")];
    assert_eq!(
        translation_reply(
            &cache,
            "JA",
            Some(Usage { character_count: 1500, character_limit: 500000 }),
            "Good morning"
        ),
        format!(
            "**Translated {} Japanese**\n-# **Quota: 1,500/500,000**\n```\nGood morning\n```",
            "from"
        )
    );
    assert_eq!(
        translation_reply(&Vec::new(), "XX", None, ""),
        format!("**Translated {} XX**\n-# *Failed to check the quota!*\n```\n\n```", "from")
    );
}

#[test]
fn wanted_text_is_the_message_without_blanks_around_it() {
    assert_eq!(wanted_text("  hello world \n"), Some("hello world"));
    assert_eq!(wanted_text("hello"), Some("hello"));
    assert_eq!(wanted_text(""), None);
    assert_eq!(wanted_text(" \t\r\n\u{a0}\u{3000}"), None);
    assert_eq!(nothing_to_translate(), "Nothing to translate!");
}

#[test]
fn plan_declines_without_a_key() {
    assert!(matches!(
        plan("", 3),
        Plan::Decline(text) if text == "Can't translate this message, see console for more info!"
    ));
    assert!(matches!(
        plan("", 0),
        Plan::Decline(text) if text == "Can't translate this message, see console for more info!"
    ));
}

#[test]
fn plan_asks_and_refreshes_an_empty_list() {
    assert!(matches!(plan("key", 0), Plan::Ask { refresh_languages: true }));
    assert!(matches!(plan("key", 30), Plan::Ask { refresh_languages: false }));
}
