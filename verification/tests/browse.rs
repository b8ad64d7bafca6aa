use gemma4_assistant::browse::{
    detect_browse_intent, extract_search_results, extract_text_from_html, fetched_page_text, search_outcome,
    search_url, truncate_to_limit, urlencoding, BrowseIntent,
};

#[test]
fn detects_a_url_first() {
    match detect_browse_intent("これ見て https://example.com/a?b=1 を検索して") {
        BrowseIntent::Url(u) => assert_eq!(u, "https://example.com/a?b=1"),
        _ => panic!("expected url"),
    }
}

#[test]
fn detects_search_requests() {
    match detect_browse_intent("「Rust 言語」を検索して") {
        BrowseIntent::Search(q) => assert_eq!(q, "Rust 言語"),
        _ => panic!("expected search"),
    }
    match detect_browse_intent("明日の天気について調べて") {
        BrowseIntent::Search(q) => assert_eq!(q, "明日の天気"),
        _ => panic!("expected search"),
    }
    match detect_browse_intent("検索して: 東京 ") {
        BrowseIntent::Search(q) => assert_eq!(q, "東京"),
        _ => panic!("expected search"),
    }
    match detect_browse_intent("猫をググって") {
        BrowseIntent::Search(q) => assert_eq!(q, "猫"),
        _ => panic!("expected search"),
    }
}

#[test]
fn plain_talk_asks_for_nothing() {
    assert!(matches!(detect_browse_intent("こんにちは"), BrowseIntent::Nothing));
    assert!(matches!(detect_browse_intent("http:/broken"), BrowseIntent::Nothing));
}

#[test]
fn percent_encodes_queries() {
    assert_eq!(urlencoding("a b/あ"), "a%20b%2F%E3%81%82");
    assert_eq!(urlencoding("Az09-_.~"), "Az09-_.~");
    assert_eq!(urlencoding(""), "");
    assert_eq!(search_url("rust lang"), "https://html.duckduckgo.com/html/?q=rust%20lang");
}

#[test]
fn truncates_at_sentence_boundaries() {
    assert_eq!(truncate_to_limit("hello", 10), "hello");
    assert_eq!(truncate_to_limit("abcdef.ghij", 8), "abcdef.");
    assert_eq!(truncate_to_limit("ab\ncdefghij", 8), "ab\ncdefg");
    assert_eq!(truncate_to_limit("abcde\nfg.hij", 9), "abcde\n");
    assert_eq!(truncate_to_limit("abcdefg.hij", 9), "abcdefg.");
    assert_eq!(truncate_to_limit("abcdefghij", 4), "abcd");
    assert_eq!(truncate_to_limit("あいうえお\nかきくけこ", 8), "あいうえお\n");
}

#[test]
fn truncation_cuts_after_a_wide_boundary() {
    assert_eq!(truncate_to_limit("あいうえお。かきくけこ", 8), "あいうえお。");
    assert_eq!(truncate_to_limit("あいうえ。おかきくけ", 6), "あいうえ。");
    assert_eq!(truncate_to_limit("あいうえ、おかきくけ", 6), "あいうえ、");
    assert_eq!(truncate_to_limit("あ。いうえおかきくけこ", 8), "あ。いうえおかき");
    assert_eq!(truncate_to_limit("short", 8), "short");
    assert_eq!(truncate_to_limit("あ.あああ", 4), "あ.");
    assert_eq!(truncate_to_limit("a.bcdefg", 4), "a.bc");
}

#[test]
fn fetched_page_without_text_is_an_error() {
    assert_eq!(fetched_page_text("<html><body><div>x</div></body></html>"), Some(Err("ページからテキストを抽出できませんでした".to_string())));
    assert_eq!(fetched_page_text("<p>hello there</p>"), Some(Ok("hello there".to_string())));
}

#[test]
fn extracts_search_results() {
    let html = "<div class=\"result\"><h2 class=\"result__title\"><a href=\"x\">First <b>hit</b></a></h2><a class=\"result__snippet\">snip one</a></div>\
                <div class=\"result\"><a class=\"result__snippet\">no title</a></div>\
                <div class=\"result\"><a class=\"result__a\"> Third </a></div>";
    assert_eq!(extract_search_results(html), "1. First hit\n   snip one\n\n3. Third\n   ");
    assert_eq!(search_outcome("<p>nothing</p>"), Some(Err("検索結果が見つかりませんでした".to_string())));
}

#[test]
fn only_eight_results_are_read() {
    let mut html = String::new();
    for i in 0..10 {
        html.push_str(&format!("<div class=\"result\"><a class=\"result__a\">t{}</a></div>", i));
    }
    let out = extract_search_results(&html);
    assert!(out.starts_with("1. t0\n   "));
    assert!(out.contains("8. t7"));
    assert!(!out.contains("9. t8"));
}
