use browser_use::tools::get_page_as_markdown::{
    default_page, default_page_size, default_wait, markdown_tool_result, paginates, GetPageAsMarkdownParams,
    GetPageAsMarkdownTool,
};

fn params(page: usize, page_size: usize) -> GetPageAsMarkdownParams {
    GetPageAsMarkdownParams { url: "https://example.com".to_string(), wait_for_load: true, page, page_size }
}

#[test]
fn params_defaults() {
    let p = GetPageAsMarkdownParams::default();
    assert_eq!(p.url, "");
    assert!(p.wait_for_load);
    assert_eq!(p.page, 1);
    assert_eq!(p.page_size, 100_000);
    assert!(default_wait());
    assert_eq!(default_page(), 1);
    assert_eq!(default_page_size(), 100_000);
    assert_eq!(GetPageAsMarkdownTool.name(), "get_page_as_markdown");
}

#[test]
fn single_page_gets_title_heading() {
    let r = markdown_tool_result("Hello world", "Title", "https://u", "by", "ex", "site", &params(1, 100));
    assert_eq!(r.markdown, "# Title\n\nHello world");
    assert_eq!(r.current_page, 1);
    assert_eq!(r.total_pages, 1);
    assert!(!r.has_more_pages);
    assert_eq!(r.length, r.markdown.len());
    assert_eq!(r.title, "Title");
    assert_eq!(r.url, "https://u");
    assert_eq!(r.byline, "by");
    assert_eq!(r.excerpt, "ex");
    assert_eq!(r.site_name, "site");
}

#[test]
fn existing_heading_is_kept() {
    let r = markdown_tool_result("# Already\nbody", "Title", "", "", "", "", &params(1, 100));
    assert_eq!(r.markdown, "# Already\nbody");
}

#[test]
fn empty_title_adds_no_heading() {
    let r = markdown_tool_result("body", "", "", "", "", "", &params(1, 100));
    assert_eq!(r.markdown, "body");
}

#[test]
fn empty_document_has_one_page() {
    let r = markdown_tool_result("", "T", "", "", "", "", &params(3, 10));
    assert_eq!(r.total_pages, 1);
    assert_eq!(r.current_page, 1);
    assert_eq!(r.markdown, "# T\n\n");
    assert!(!r.has_more_pages);
    // a zero page size is harmless on an empty document
    let r = markdown_tool_result("", "", "", "", "", "", &params(1, 0));
    assert_eq!(r.total_pages, 1);
    assert_eq!(r.markdown, "");
}

#[test]
fn multi_page_first_middle_last() {
    let doc = "abcdefghij"; // 10 characters, pages of 4: "abcd" "efgh" "ij"
    let first = markdown_tool_result(doc, "", "", "", "", "", &params(1, 4));
    assert_eq!(first.total_pages, 3);
    assert_eq!(first.current_page, 1);
    assert!(first.has_more_pages);
    assert_eq!(
        first.markdown,
        "abcd\n\n---\n\n*Page 1 of 3. There are 2 more page(s) with additional content.*\n"
    );
    let middle = markdown_tool_result(doc, "T", "", "", "", "", &params(2, 4));
    assert_eq!(
        middle.markdown,
        "efgh\n\n---\n\n*Page 2 of 3. There are 1 more page(s) with additional content.*\n"
    );
    let last = markdown_tool_result(doc, "", "", "", "", "", &params(3, 4));
    assert!(!last.has_more_pages);
    assert_eq!(last.markdown, "ij\n\n---\n\n*Page 3 of 3. This is the last page.*\n");
    assert_eq!(last.length, last.markdown.len());
}

#[test]
fn page_number_is_clamped() {
    let doc = "abcdefghij";
    let past_end = markdown_tool_result(doc, "", "", "", "", "", &params(99, 4));
    assert_eq!(past_end.current_page, 3);
    assert!(past_end.markdown.starts_with("ij"));
    let zero = markdown_tool_result(doc, "", "", "", "", "", &params(0, 4));
    assert_eq!(zero.current_page, 1);
    assert!(zero.markdown.starts_with("abcd"));
}

#[test]
fn pages_tile_the_document() {
    let doc = "The quick brown fox jumps over the lazy dog";
    let size = 7;
    let first = markdown_tool_result(doc, "", "", "", "", "", &params(1, size));
    let mut joined = String::new();
    for p in 1..=first.total_pages {
        let r = markdown_tool_result(doc, "", "", "", "", "", &params(p, size));
        let body = r.markdown.split("\n\n---\n\n").next().unwrap().to_string();
        joined.push_str(&body);
    }
    assert_eq!(joined, doc);
    assert_eq!(first.total_pages, 7);
}

#[test]
fn pages_count_characters() {
    // "héllo" is 5 characters (6 bytes); pages of 1 character
    let r = markdown_tool_result("héllo", "", "u", "", "", "", &params(2, 1));
    assert_eq!(r.total_pages, 5);
    assert_eq!(r.current_page, 2);
    assert_eq!(r.markdown, "é\n\n---\n\n*Page 2 of 5. There are 3 more page(s) with additional content.*\n");
    assert_eq!(r.length, r.markdown.len());
    // "éé" is 2 characters: pages of 2 hold it whole
    let r = markdown_tool_result("éé", "", "", "", "", "", &params(1, 2));
    assert_eq!(r.total_pages, 1);
    assert_eq!(r.markdown, "éé");
    assert_eq!(r.length, 4);
}

#[test]
fn multibyte_pages_join_to_the_document() {
    let doc = "naïve café — 日本語テキスト";
    let size = 3;
    let first = markdown_tool_result(doc, "", "", "", "", "", &params(1, size));
    assert_eq!(first.total_pages, (doc.chars().count() + size - 1) / size);
    let mut joined = String::new();
    for p in 1..=first.total_pages {
        let r = markdown_tool_result(doc, "", "", "", "", "", &params(p, size));
        joined.push_str(r.markdown.split("\n\n---\n\n").next().unwrap());
    }
    assert_eq!(joined, doc);
}

#[test]
fn paginates_needs_a_page_size() {
    assert!(paginates("", 0));
    assert!(paginates("abc", 1));
    assert!(!paginates("abc", 0));
    assert!(!paginates("é", 0));
}

#[test]
fn large_page_number_formatting() {
    let doc = "x".repeat(12);
    let r = markdown_tool_result(&doc, "", "", "", "", "", &params(11, 1));
    assert_eq!(r.markdown, "x\n\n---\n\n*Page 11 of 12. There are 1 more page(s) with additional content.*\n");
}

#[test]
fn titled_pages_join_to_the_document() {
    let doc = "abcdefghij";
    let mut joined = String::new();
    for p in 1..=3 {
        let r = markdown_tool_result(doc, "T", "", "", "", "", &params(p, 4));
        let body = r.markdown.split("\n\n---\n\n").next().unwrap();
        let body = if p == 1 { body.strip_prefix("# T\n\n").unwrap() } else { body };
        joined.push_str(body);
    }
    assert_eq!(joined, doc);
}
