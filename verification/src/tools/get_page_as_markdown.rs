//! Parameters of the page tool and the pagination of the Markdown it returns.

use vstd::prelude::*;
use vstd::utf8::*;
use crate::text::{chars_of, decimal, push_decimal, starts_with, str_starts_with, string_from_chars};

verus! {

/// Default for `wait_for_load`: wait for navigation to finish.
pub fn default_wait() -> (res: bool)
    ensures
        res == true,
{
    true
}

/// Default page number (pages are counted from 1).
pub fn default_page() -> (res: usize)
    ensures
        res == 1,
{
    1
}

/// Default number of Markdown characters per page.
pub fn default_page_size() -> (res: usize)
    ensures
        res == 100_000,
{
    100_000
}

/// Parameters for getting a page as Markdown.
pub struct GetPageAsMarkdownParams {
    /// URL to navigate to.
    pub url: String,
    /// Wait for navigation to complete (default: true).
    pub wait_for_load: bool,
    /// Page number to extract (1-based, default: 1).
    pub page: usize,
    /// Maximum characters of Markdown per page (default: 100000).
    pub page_size: usize,
}

impl Default for GetPageAsMarkdownParams {
    fn default() -> (res: Self)
        ensures
            res.url@ == Seq::<char>::empty(),
            res.wait_for_load == true,
            res.page == 1,
            res.page_size == 100_000,
    {
        GetPageAsMarkdownParams {
            url: String::new(),
            wait_for_load: default_wait(),
            page: default_page(),
            page_size: default_page_size(),
        }
    }
}

/// The tool that navigates to a URL and returns the page as Markdown.
pub struct GetPageAsMarkdownTool;

impl GetPageAsMarkdownTool {
    /// The tool's registered name.
    pub fn name(&self) -> (res: &'static str)
        ensures
            res@ == "get_page_as_markdown"@,
    {
        "get_page_as_markdown"
    }
}

/// One page of a document converted to Markdown, with the document's metadata.
pub struct MarkdownPage {
    pub markdown: String,
    pub title: String,
    pub url: String,
    pub current_page: usize,
    pub total_pages: usize,
    pub has_more_pages: bool,
    /// Length of `markdown` in UTF-8 bytes.
    pub length: usize,
    pub byline: String,
    pub excerpt: String,
    pub site_name: String,
}

/// Number of pages of `size` characters needed for a document of `len` characters; an
/// empty document still has one (empty) page.
pub open spec fn total_pages(len: nat, size: nat) -> nat {
    if len == 0 {
        1
    } else {
        ((len + size - 1) / size as int) as nat
    }
}

/// The requested page, clamped into `1..=max(total, 1)`.
pub open spec fn clamp_page(page: nat, total: nat) -> nat {
    let hi = if total < 1 { 1 } else { total };
    if page < 1 {
        1
    } else if page > hi {
        hi
    } else {
        page
    }
}

/// The page that is served for a request of `page` on a document of `len` characters.
pub open spec fn served_page(len: nat, page: nat, size: nat) -> nat {
    clamp_page(page, total_pages(len, size))
}

/// Index of the first character of the served page.
pub open spec fn page_start(len: nat, page: nat, size: nat) -> nat {
    ((served_page(len, page, size) - 1) * size) as nat
}

/// One past the index of the last character of the served page.
pub open spec fn page_end(len: nat, page: nat, size: nat) -> nat {
    let e = page_start(len, page, size) + size;
    if e < len {
        e
    } else {
        len
    }
}

/// The inputs on which the pagination does not divide by zero: a non-empty document
/// needs a positive page size.
pub open spec fn pagination_defined(markdown: Seq<char>, size: nat) -> bool {
    markdown.len() > 0 ==> size > 0
}

/// The characters of the served page's slice of the document.
pub open spec fn page_body(markdown: Seq<char>, page: nat, size: nat) -> Seq<char> {
    let len = markdown.len();
    let start = page_start(len, page, size);
    if start < len {
        markdown.subrange(start as int, page_end(len, page, size) as int)
    } else {
        Seq::empty()
    }
}

/// The first page gets the title as a level-one heading, unless the title is empty or
/// the page already starts with one.
pub open spec fn with_title(body: Seq<char>, title: Seq<char>, current: nat) -> Seq<char> {
    if current == 1 && title.len() > 0 && !starts_with(body, "# "@) {
        "# "@ + title + "\n\n"@ + body
    } else {
        body
    }
}

/// The note appended to every page of a document that has more than one page.
pub open spec fn pagination_note(current: nat, total: nat) -> Seq<char> {
    if current < total {
        "\n\n---\n\n*Page "@ + decimal(current) + " of "@ + decimal(total) + ". There are "@
            + decimal((total - current) as nat) + " more page(s) with additional content.*\n"@
    } else {
        "\n\n---\n\n*Page "@ + decimal(current) + " of "@ + decimal(total)
            + ". This is the last page.*\n"@
    }
}

/// The Markdown text of the served page.
pub open spec fn page_markdown(markdown: Seq<char>, title: Seq<char>, page: nat, size: nat) -> Seq<
    char,
> {
    let len = markdown.len();
    let total = total_pages(len, size);
    let current = served_page(len, page, size);
    let titled = with_title(page_body(markdown, page, size), title, current);
    if total > 1 {
        titled + pagination_note(current, total)
    } else {
        titled
    }
}

/// The bodies of pages `1..=n`, one after the other.
pub open spec fn joined_pages(markdown: Seq<char>, size: nat, n: nat) -> Seq<char>
    decreases n,
{
    if n == 0 {
        Seq::empty()
    } else {
        joined_pages(markdown, size, (n - 1) as nat) + page_body(markdown, n, size)
    }
}

proof fn lemma_page_bounds(len: nat, page: nat, size: nat)
    requires
        len > 0,
        size > 0,
    ensures
        total_pages(len, size) >= 1,
        1 <= served_page(len, page, size) <= total_pages(len, size),
        page_start(len, page, size) < len,
        page_start(len, page, size) == (served_page(len, page, size) - 1) * size,
        total_pages(len, size) * size <= len + size - 1,
{
    let t = total_pages(len, size);
    let x = (len + size - 1) as int;
    assert(t == x / (size as int));
    assert(t >= 1) by (nonlinear_arith)
        requires
            t == x / (size as int),
            x >= size as int,
            size > 0,
    ;
    assert(t * size <= x) by (nonlinear_arith)
        requires
            t == x / (size as int),
            x >= 0,
            size > 0,
    ;
    let c = served_page(len, page, size);
    assert((c - 1) * size <= (t - 1) * size) by (nonlinear_arith)
        requires
            1 <= c <= t,
            size > 0,
    ;
    assert((t - 1) * size == t * size - size) by (nonlinear_arith);
    assert((c - 1) * size >= 0) by (nonlinear_arith)
        requires
            1 <= c,
    ;
}

/// The number of pages is the least that covers the document: `total` pages of `size`
/// characters hold all `len` characters, and `total - 1` pages would not.
pub proof fn lemma_total_pages_cover(len: nat, size: nat)
    requires
        len > 0,
        size > 0,
    ensures
        total_pages(len, size) * size >= len,
        (total_pages(len, size) - 1) * size < len,
{
    let t = total_pages(len, size);
    let x = (len + size - 1) as int;
    let d = size as int;
    vstd::arithmetic::div_mod::lemma_fundamental_div_mod(x, d);
    assert(x % d < d) by (nonlinear_arith)
        requires
            d > 0,
    ;
    assert(t * size == d * (x / d)) by (nonlinear_arith)
        requires
            t == x / d,
            d == size,
    ;
    lemma_page_bounds(len, 1, size);
    assert((t - 1) * size == t * size - size) by (nonlinear_arith);
}

/// The served page is the requested one when it exists; a request for page 0 is served
/// page 1, and a request past the end is served the last page.
pub proof fn lemma_served_page(len: nat, page: nat, size: nat)
    requires
        len > 0 ==> size > 0,
    ensures
        1 <= page <= total_pages(len, size) ==> served_page(len, page, size) == page,
        page == 0 ==> served_page(len, page, size) == 1,
        page > total_pages(len, size) ==> served_page(len, page, size) == total_pages(len, size),
{
    if len > 0 && size > 0 {
        lemma_page_bounds(len, page, size);
    }
}

/// Consecutive pages tile the document: page 1 starts at its first character, each
/// page ends where the next one starts, and the last page ends at its last character.
pub proof fn lemma_pages_tile(len: nat, size: nat)
    requires
        len > 0,
        size > 0,
    ensures
        page_start(len, 1, size) == 0,
        page_end(len, total_pages(len, size), size) == len,
        forall|p: nat|
            1 <= p < total_pages(len, size) ==> #[trigger] page_end(len, p, size) == page_start(
                len,
                p + 1,
                size,
            ),
{
    let t = total_pages(len, size);
    lemma_total_pages_cover(len, size);
    lemma_served_page(len, 1, size);
    assert((1 - 1) * (size as int) == 0) by (nonlinear_arith);
    lemma_served_page(len, t, size);
    lemma_page_bounds(len, t, size);
    assert((t - 1) * size + size == t * size) by (nonlinear_arith);
    assert forall|p: nat| 1 <= p < t implies #[trigger] page_end(len, p, size) == page_start(
        len,
        p + 1,
        size,
    ) by {
        lemma_served_page(len, p, size);
        lemma_served_page(len, p + 1, size);
        lemma_page_bounds(len, p, size);
        lemma_page_bounds(len, p + 1, size);
        assert((p - 1) * size + size == p * size) by (nonlinear_arith);
        assert(p * size <= (t - 1) * size) by (nonlinear_arith)
            requires
                p <= t - 1,
        ;
        assert(((p + 1) - 1) * size == p * size);
    }
}

/// Pages `1..=n` joined are the document's first `page_end` characters of page `n`.
proof fn lemma_joined_prefix(markdown: Seq<char>, size: nat, n: nat)
    requires
        markdown.len() > 0,
        size > 0,
        1 <= n <= total_pages(markdown.len(), size),
    ensures
        joined_pages(markdown, size, n) == markdown.subrange(
            0,
            page_end(markdown.len(), n, size) as int,
        ),
    decreases n,
{
    let len = markdown.len();
    lemma_pages_tile(len, size);
    lemma_page_bounds(len, n, size);
    let a = page_start(len, n, size);
    let b = page_end(len, n, size);
    if n == 1 {
        assert(joined_pages(markdown, size, 0) =~= Seq::<char>::empty());
        assert(joined_pages(markdown, size, 1) =~= markdown.subrange(0, b as int));
    } else {
        lemma_joined_prefix(markdown, size, (n - 1) as nat);
        assert(page_end(len, (n - 1) as nat, size) == a);
        assert(joined_pages(markdown, size, n) =~= markdown.subrange(0, b as int));
    }
}

/// The pages of a document, joined in order, give back the whole document, and page `p`
/// holds characters `(p - 1) * size .. min(p * size, len)`. A page's Markdown is its
/// body (under the title heading on the first page, where `with_title` puts one),
/// followed by the page note when there are several pages; with an empty title it is
/// the body alone, followed by that note.
pub proof fn lemma_pages_join(markdown: Seq<char>, title: Seq<char>, size: nat)
    requires
        pagination_defined(markdown, size),
    ensures
        joined_pages(markdown, size, total_pages(markdown.len(), size)) == markdown,
        forall|p: nat|
            1 <= p <= total_pages(markdown.len(), size) ==> #[trigger] page_body(markdown, p, size)
                == markdown.subrange(
                (p - 1) * size,
                if p * size < markdown.len() {
                    (p * size) as int
                } else {
                    markdown.len() as int
                },
            ),
        forall|p: nat|
            1 <= p <= total_pages(markdown.len(), size) ==> #[trigger] page_markdown(
                markdown,
                title,
                p,
                size,
            ) == with_title(page_body(markdown, p, size), title, p) + if total_pages(
                markdown.len(),
                size,
            ) > 1 {
                pagination_note(p, total_pages(markdown.len(), size))
            } else {
                Seq::<char>::empty()
            },
        forall|p: nat|
            2 <= p <= total_pages(markdown.len(), size) ==> with_title(
                page_body(markdown, p, size),
                title,
                p,
            ) == page_body(markdown, p, size),
        forall|p: nat|
            1 <= p <= total_pages(markdown.len(), size) ==> with_title(
                page_body(markdown, p, size),
                Seq::empty(),
                p,
            ) == page_body(markdown, p, size),
{
    let len = markdown.len();
    let t = total_pages(len, size);
    if len == 0 {
        assert(joined_pages(markdown, size, 0) =~= Seq::<char>::empty());
        assert(served_page(0, 1, size) == 1);
        assert(page_start(0, 1, size) == 0) by {
            assert((1 - 1) * (size as int) == 0) by (nonlinear_arith);
        }
        assert(joined_pages(markdown, size, 1) =~= markdown);
        assert forall|p: nat| 1 <= p <= t implies #[trigger] page_body(markdown, p, size)
            == markdown.subrange(
            (p - 1) * size,
            if p * size < len {
                (p * size) as int
            } else {
                len as int
            },
        ) by {
            assert(p == 1);
            assert((1 - 1) * (size as int) == 0) by (nonlinear_arith);
            assert(markdown.subrange(0, 0) =~= Seq::<char>::empty());
        }
    } else {
        lemma_pages_tile(len, size);
        lemma_page_bounds(len, 1, size);
        lemma_joined_prefix(markdown, size, t);
        assert(markdown.subrange(0, len as int) =~= markdown);
        assert forall|p: nat| 1 <= p <= t implies #[trigger] page_body(markdown, p, size)
            == markdown.subrange(
            (p - 1) * size,
            if p * size < len {
                (p * size) as int
            } else {
                len as int
            },
        ) by {
            lemma_served_page(len, p, size);
            lemma_page_bounds(len, p, size);
            assert((p - 1) * size + size == p * size) by (nonlinear_arith);
        }
    }
    assert forall|p: nat| 1 <= p <= t implies #[trigger] page_markdown(markdown, title, p, size)
        == with_title(page_body(markdown, p, size), title, p) + if t > 1 {
        pagination_note(p, t)
    } else {
        Seq::<char>::empty()
    } by {
        lemma_served_page(len, p, size);
        if t <= 1 {
            assert(page_markdown(markdown, title, p, size) =~= with_title(
                page_body(markdown, p, size),
                title,
                p,
            ) + Seq::<char>::empty());
        }
    }
}

/// The title heading of the first page: with a non-empty title, page 1's Markdown is
/// `"# " + title + "\n\n"` followed by what the page would be without a title, exactly
/// when the page's text (the document's first `size` characters) does not itself start
/// with `"# "`, whatever else that text holds; otherwise the title changes nothing.
/// Without a title, page 1 starts with that text.
pub proof fn lemma_first_page_title(markdown: Seq<char>, title: Seq<char>, size: nat)
    requires
        markdown.len() > 0 ==> size > 0,
        title.len() > 0,
    ensures
        ({
            let len = markdown.len();
            let text = markdown.subrange(0, if size < len { size as int } else { len as int });
            let plain = page_markdown(markdown, Seq::empty(), 1, size);
            let titled = page_markdown(markdown, title, 1, size);
            let heading_first = text.len() >= 2 && text[0] == '#' && text[1] == ' ';
            &&& text.len() <= plain.len() && plain.subrange(0, text.len() as int) == text
            &&& !heading_first ==> titled == seq!['#', ' '] + title + seq!['\n', '\n'] + plain
            &&& heading_first ==> titled == plain
        }),
{
    let len = markdown.len();
    let t = total_pages(len, size);
    if len > 0 {
        lemma_page_bounds(len, 1, size);
    }
    lemma_pages_join(markdown, title, size);
    lemma_pages_join(markdown, Seq::empty(), size);
    assert(1 <= t);
    assert((1 * size) as int == size as int);
    assert(((1 - 1) * size) as int == 0) by (nonlinear_arith);
    let body = page_body(markdown, 1, size);
    let text = markdown.subrange(0, if size < len { size as int } else { len as int });
    assert(body == text);
    let note = if t > 1 { pagination_note(1, t) } else { Seq::<char>::empty() };
    let plain = page_markdown(markdown, Seq::empty(), 1, size);
    assert(plain == body + note);
    assert(plain.subrange(0, text.len() as int) =~= text);
    reveal_strlit("# ");
    reveal_strlit("\n\n");
    assert("# "@ =~= seq!['#', ' ']);
    assert("\n\n"@ =~= seq!['\n', '\n']);
    let heading_first = text.len() >= 2 && text[0] == '#' && text[1] == ' ';
    if heading_first {
        assert(text.subrange(0, 2) =~= "# "@);
        assert(starts_with(body, "# "@));
    } else {
        if starts_with(body, "# "@) {
            assert(body[0] == body.subrange(0, 2)[0]);
            assert(body[1] == body.subrange(0, 2)[1]);
        }
        assert(!starts_with(body, "# "@));
        assert(page_markdown(markdown, title, 1, size) =~= seq!['#', ' '] + title + seq!['\n', '\n']
            + plain);
    }
}

/// A document that fits in one page is served whole, with no page note: its Markdown
/// is the document, preceded by the title heading where that applies.
pub proof fn lemma_single_page(markdown: Seq<char>, title: Seq<char>, page: nat, size: nat)
    requires
        markdown.len() <= size,
        size > 0,
    ensures
        total_pages(markdown.len(), size) == 1,
        served_page(markdown.len(), page, size) == 1,
        page_markdown(markdown, title, page, size) == with_title(markdown, title, 1),
{
    let len = markdown.len();
    if len > 0 {
        let x = (len + size - 1) as int;
        assert(x / (size as int) == 1) by (nonlinear_arith)
            requires
                size as int <= x < 2 * (size as int),
        ;
        lemma_page_bounds(len, page, size);
        assert((1 - 1) * (size as int) == 0) by (nonlinear_arith);
        assert(markdown.subrange(0, len as int) =~= markdown);
        assert(page_body(markdown, page, size) == markdown);
    } else {
        assert(markdown =~= Seq::<char>::empty());
        assert(page_body(markdown, page, size) =~= markdown);
    }
}

/// Whether `markdown_tool_result` is defined for a document and a page size (see
/// `pagination_defined`).
pub fn paginates(full_markdown: &str, page_size: usize) -> (res: bool)
    ensures
        res == pagination_defined(full_markdown@, page_size as nat),
{
    page_size > 0 || full_markdown.is_empty()
}

/// Puts the title heading in front of the first page (see `with_title`).
fn add_title(content: String, title: &str, current: usize) -> (res: String)
    ensures
        res@ == with_title(content@, title@, current as nat),
{
    if current == 1 && !title.is_empty() && !str_starts_with(content.as_str(), "# ") {
        let mut titled = "# ".to_owned();
        titled.append(title);
        titled.append("\n\n");
        titled.append(content.as_str());
        titled
    } else {
        content
    }
}

/// Appends the page note (see `pagination_note`).
fn append_pagination_note(s: &mut String, current: usize, total: usize)
    requires
        current <= total,
    ensures
        final(s)@ == old(s)@ + pagination_note(current as nat, total as nat),
{
    s.append("\n\n---\n\n*Page ");
    push_decimal(s, current);
    s.append(" of ");
    push_decimal(s, total);
    if current < total {
        s.append(". There are ");
        push_decimal(s, total - current);
        s.append(" more page(s) with additional content.*\n");
    } else {
        s.append(". This is the last page.*\n");
    }
}

/// Cuts the served page (pages of `params.page_size` characters) out of the Markdown,
/// adds the title heading on the first page and the page note on a document of several
/// pages, and collects the metadata; `length` is the page's length in UTF-8 bytes.
pub fn markdown_tool_result(
    full_markdown: &str,
    title: &str,
    url: &str,
    byline: &str,
    excerpt: &str,
    site_name: &str,
    params: &GetPageAsMarkdownParams,
) -> (res: MarkdownPage)
    requires
        pagination_defined(full_markdown@, params.page_size as nat),
    ensures
        ({
            let len = full_markdown@.len();
            let size = params.page_size as nat;
            let total = total_pages(len, size);
            let current = served_page(len, params.page as nat, size);
            &&& res.markdown@ == page_markdown(full_markdown@, title@, params.page as nat, size)
            &&& res.total_pages == total
            &&& res.current_page == current
            &&& res.has_more_pages == (current < total)
            &&& res.length == encode_utf8(res.markdown@).len() as usize
            &&& res.title@ == title@
            &&& res.url@ == url@
            &&& res.byline@ == byline@
            &&& res.excerpt@ == excerpt@
            &&& res.site_name@ == site_name@
        }),
{
    let cs = chars_of(full_markdown);
    let len = cs.len();
    let size = params.page_size;
    let ghost g_page = params.page as nat;
    let total: usize = if len == 0 {
        1
    } else {
        (len - 1) / size + 1
    };
    proof {
        if len > 0 {
            let x = (len - 1) as int;
            let d = size as int;
            assert((x + d) / d == x / d + 1) by (nonlinear_arith)
                requires
                    x >= 0,
                    d > 0,
            ;
            lemma_page_bounds(len as nat, g_page, size as nat);
        }
    }
    assert(total == total_pages(len as nat, size as nat));
    let hi: usize = if total < 1 { 1 } else { total };
    let current: usize = if params.page < 1 {
        1
    } else if params.page > hi {
        hi
    } else {
        params.page
    };
    assert(current == served_page(len as nat, g_page, size as nat));
    let start: usize = if len == 0 { 0 } else { (current - 1) * size };
    assert(start == page_start(len as nat, g_page, size as nat)) by {
        if len == 0 {
            assert(served_page(0, g_page, size as nat) == 1);
            assert((1 - 1) * (size as int) == 0) by (nonlinear_arith);
        }
    }
    let body: String = if start < len {
        let end: usize = if size < len - start { start + size } else { len };
        assert(end == page_end(len as nat, g_page, size as nat));
        string_from_chars(&cs, start, end)
    } else {
        String::new()
    };
    assert(body@ == page_body(full_markdown@, g_page, size as nat));
    let mut content = add_title(body, title, current);
    if total > 1 {
        append_pagination_note(&mut content, current, total);
    }
    assert(content@ == page_markdown(full_markdown@, title@, g_page, size as nat));
    let length = content.as_str().len();
    MarkdownPage {
        markdown: content,
        title: title.to_owned(),
        url: url.to_owned(),
        current_page: current,
        total_pages: total,
        has_more_pages: current < total,
        length,
        byline: byline.to_owned(),
        excerpt: excerpt.to_owned(),
        site_name: site_name.to_owned(),
    }
}

} // verus!
