use vstd::prelude::*;
use vstd::string::*;
use crate::html::{SelectedElement, tags_view, select_elements, select_first_within, html_selected, html_first_within, firsts_view};
use crate::pattern::{regex_captures, regex_captures_of, group, get_group, group_view, groups_view};
use crate::text::{trim, trim_string, owned, chars_of, string_of, push_char, byte_offset, byte_offset_exec, join, join_strings, views, str_eq, byte_len, decimal, push_decimal};

verus! {

/// What a message asks the assistant to look up.
#[derive(Debug, Clone)]
pub enum BrowseIntent {
    Nothing,
    Url(String),
    Search(String),
}

pub enum IntentView {
    Nothing,
    Url(Seq<char>),
    Search(Seq<char>),
}

impl View for BrowseIntent {
    type V = IntentView;

    open spec fn view(&self) -> IntentView {
        match self {
            BrowseIntent::Nothing => IntentView::Nothing,
            BrowseIntent::Url(u) => IntentView::Url(u@),
            BrowseIntent::Search(q) => IntentView::Search(q@),
        }
    }
}

// ---------------------------------------------------------------------------
// Detecting what to look up
// ---------------------------------------------------------------------------

pub const URL_PATTERN: &'static str = r"https?://[^\s]+";

pub const SEARCH_QUOTED: &'static str = r"「(.+?)」を(?:検索|けんさく)して";

pub const SEARCH_QUOTED_ABOUT: &'static str = r"「(.+?)」について調べて";

pub const SEARCH_QUOTED_GOOGLE: &'static str = r"「(.+?)」をググって";

pub const SEARCH_PLAIN: &'static str = r"(.+?)を(?:検索|けんさく)して";

pub const SEARCH_PLAIN_ABOUT: &'static str = r"(.+?)について調べて";

pub const SEARCH_PLAIN_GOOGLE: &'static str = r"(.+?)をググって";

pub const SEARCH_COLON: &'static str = r"(?:検索|けんさく)して[：:]\s*(.+)";

/// The search patterns, in the order they are tried.
pub open spec fn search_patterns() -> Seq<Seq<char>> {
    seq![
        SEARCH_QUOTED@,
        SEARCH_QUOTED_ABOUT@,
        SEARCH_QUOTED_GOOGLE@,
        SEARCH_PLAIN@,
        SEARCH_PLAIN_ABOUT@,
        SEARCH_PLAIN_GOOGLE@,
        SEARCH_COLON@,
    ]
}

/// The query in the captures of a search pattern: its first group, trimmed,
/// where that is not empty.
pub open spec fn query_from(caps: Option<Seq<Option<Seq<char>>>>) -> Option<Seq<char>> {
    match caps {
        Some(g) => match group(g, 1) {
            Some(q) => if trim(q).len() > 0 {
                Some(trim(q))
            } else {
                None
            },
            None => None,
        },
        None => None,
    }
}

/// The query that `pattern` finds in `message`.
pub open spec fn search_query(pattern: Seq<char>, message: Seq<char>) -> Option<Seq<char>> {
    query_from(regex_captures_of(pattern, message))
}

/// The first query that the patterns `ps` find in `message`.
pub open spec fn first_query(ps: Seq<Seq<char>>, message: Seq<char>) -> Option<Seq<char>>
    decreases ps.len(),
{
    if ps.len() == 0 {
        None
    } else if search_query(ps[0], message) is Some {
        search_query(ps[0], message)
    } else {
        first_query(ps.drop_first(), message)
    }
}

/// What `message` asks to look up: the first URL in it; else the first
/// search query that a search pattern finds; else nothing.
pub open spec fn spec_detect_browse_intent(message: Seq<char>) -> IntentView {
    match regex_captures_of(URL_PATTERN@, message) {
        Some(g) => IntentView::Url(group(g, 0)->0),
        None => match first_query(search_patterns(), message) {
            Some(q) => IntentView::Search(q),
            None => IntentView::Nothing,
        },
    }
}

/// The quoted search phrases are tried before the plain ones: in a message
/// without a URL, a query that a quoted phrase finds (with no earlier quoted
/// phrase finding one) is the search, whatever the plain phrases would find.
pub proof fn lemma_quoted_phrases_come_first(message: Seq<char>)
    requires
        regex_captures_of(URL_PATTERN@, message) is None,
    ensures
        search_query(SEARCH_QUOTED@, message) matches Some(q) ==> spec_detect_browse_intent(message)
            == IntentView::Search(q),
        search_query(SEARCH_QUOTED@, message) is None ==> (search_query(
            SEARCH_QUOTED_ABOUT@,
            message,
        ) matches Some(q) ==> spec_detect_browse_intent(message) == IntentView::Search(q)),
        search_query(SEARCH_QUOTED@, message) is None && search_query(
            SEARCH_QUOTED_ABOUT@,
            message,
        ) is None ==> (search_query(SEARCH_QUOTED_GOOGLE@, message) matches Some(q)
            ==> spec_detect_browse_intent(message) == IntentView::Search(q)),
{
    let ps = search_patterns();
    assert(ps[0] == SEARCH_QUOTED@);
    assert(ps.drop_first()[0] == SEARCH_QUOTED_ABOUT@);
    assert(ps.drop_first().drop_first()[0] == SEARCH_QUOTED_GOOGLE@);
    reveal_with_fuel(first_query, 4);
}

/// The query in the captures of a search pattern.
pub fn query_of(caps: &Option<Vec<Option<String>>>) -> (res: Option<String>)
    ensures
        group_view(res) == query_from(groups_view(*caps)),
{
    match caps {
        Some(g) => match get_group(g, 1) {
            Some(q) => {
                let t = trim_string(q.as_str());
                if t.as_str().is_empty() {
                    None
                } else {
                    Some(t)
                }
            },
            None => None,
        },
        None => None,
    }
}

/// The query that `pattern` finds in `message`.
pub fn search_query_exec(pattern: &str, message: &str) -> (res: Option<String>)
    ensures
        group_view(res) == search_query(pattern@, message@),
{
    let caps = regex_captures(pattern, message);
    query_of(&caps)
}

/// Detects what a message asks the assistant to look up.
pub fn detect_browse_intent(message: &str) -> (res: BrowseIntent)
    ensures
        res@ == spec_detect_browse_intent(message@),
{
    match regex_captures(URL_PATTERN, message) {
        Some(g) => {
            let url = match get_group(&g, 0) {
                Some(u) => u.clone(),
                None => String::new(),
            };
            return BrowseIntent::Url(url);
        },
        None => {},
    }
    let patterns: [&str; 7] = [
        SEARCH_QUOTED,
        SEARCH_QUOTED_ABOUT,
        SEARCH_QUOTED_GOOGLE,
        SEARCH_PLAIN,
        SEARCH_PLAIN_ABOUT,
        SEARCH_PLAIN_GOOGLE,
        SEARCH_COLON,
    ];
    let ghost ps = search_patterns();
    let mut i: usize = 0;
    assert(ps.skip(0) =~= ps);
    while i < 7
        invariant
            i <= 7,
            regex_captures_of(URL_PATTERN@, message@) is None,
            ps == search_patterns(),
            forall|k: int| 0 <= k < 7 ==> (#[trigger] patterns@[k])@ == ps[k],
            first_query(ps, message@) == first_query(ps.skip(i as int), message@),
        decreases 7 - i,
    {
        assert(ps.skip(i as int)[0] == ps[i as int]);
        assert(ps.skip(i as int).drop_first() =~= ps.skip(i + 1));
        match search_query_exec(patterns[i], message) {
            Some(q) => {
                return BrowseIntent::Search(q);
            },
            None => {},
        }
        i = i + 1;
    }
    assert(ps.skip(7) =~= Seq::<Seq<char>>::empty());
    BrowseIntent::Nothing
}

// ---------------------------------------------------------------------------
// Percent-encoding a query
// ---------------------------------------------------------------------------

/// A byte that stays as it is: an ASCII letter or digit, `-`, `_`, `.`, `~`.
pub open spec fn is_unreserved(b: u8) -> bool {
    ||| 0x41 <= b <= 0x5A
    ||| 0x61 <= b <= 0x7A
    ||| 0x30 <= b <= 0x39
    ||| b == 0x2D
    ||| b == 0x5F
    ||| b == 0x2E
    ||| b == 0x7E
}

/// The upper-case hexadecimal digit for `d < 16`.
pub open spec fn hex_digit(d: nat) -> char {
    if d < 10 {
        ((('0' as u32) + d) as char)
    } else {
        ((('A' as u32) + d - 10) as char)
    }
}

/// One byte, percent-encoded: itself where unreserved, else `%XX`.
pub open spec fn encode_byte(b: u8) -> Seq<char> {
    if is_unreserved(b) {
        seq![b as char]
    } else {
        seq!['%', hex_digit((b / 16) as nat), hex_digit((b % 16) as nat)]
    }
}

/// The bytes `bs`, percent-encoded one by one.
pub open spec fn url_encode_bytes(bs: Seq<u8>) -> Seq<char>
    decreases bs.len(),
{
    if bs.len() == 0 {
        Seq::empty()
    } else {
        url_encode_bytes(bs.drop_last()) + encode_byte(bs.last())
    }
}

pub proof fn lemma_url_encode_concat(a: Seq<u8>, b: Seq<u8>)
    ensures
        url_encode_bytes(a + b) == url_encode_bytes(a) + url_encode_bytes(b),
    decreases b.len(),
{
    if b.len() == 0 {
        assert(a + b =~= a);
        assert(url_encode_bytes(a) + Seq::<char>::empty() =~= url_encode_bytes(a));
    } else {
        lemma_url_encode_concat(a, b.drop_last());
        assert((a + b).drop_last() =~= a + b.drop_last());
        assert((a + b).last() == b.last());
        assert(url_encode_bytes(a) + url_encode_bytes(b.drop_last()) + encode_byte(b.last())
            =~= url_encode_bytes(a) + (url_encode_bytes(b.drop_last()) + encode_byte(b.last())));
    }
}

fn hex_digit_exec(d: u8) -> (c: char)
    requires
        d < 16,
    ensures
        c == hex_digit(d as nat),
{
    let c: char = if d < 10 {
        ((48u8 + d) as char)
    } else {
        ((55u8 + d) as char)
    };
    c
}

/// Appends one byte, percent-encoded.
pub fn push_encoded_byte(out: &mut String, b: u8)
    ensures
        final(out)@ == old(out)@ + encode_byte(b),
{
    if (0x41 <= b && b <= 0x5A) || (0x61 <= b && b <= 0x7A) || (0x30 <= b && b <= 0x39) || b
        == 0x2D || b == 0x5F || b == 0x2E || b == 0x7E {
        push_char(out, b as char);
        assert(old(out)@.push(b as char) =~= old(out)@ + seq![b as char]);
    } else {
        push_char(out, '%');
        push_char(out, hex_digit_exec(b / 16));
        push_char(out, hex_digit_exec(b % 16));
        assert(final(out)@ =~= old(out)@ + seq!['%', hex_digit((b / 16) as nat), hex_digit((b % 16) as nat)]);
    }
}

/// Percent-encodes the UTF-8 bytes of `s`.
pub fn urlencoding(s: &str) -> (res: String)
    ensures
        res@ == url_encode_bytes(vstd::utf8::encode_utf8(s@)),
{
    let bytes = s.as_bytes();
    let mut res = String::new();
    let mut i: usize = 0;
    while i < bytes.len()
        invariant
            i <= bytes.len(),
            bytes@ == vstd::utf8::encode_utf8(s@),
            res@ == url_encode_bytes(bytes@.take(i as int)),
        decreases bytes.len() - i,
    {
        assert(bytes@.take(i + 1).drop_last() =~= bytes@.take(i as int));
        push_encoded_byte(&mut res, bytes[i]);
        i = i + 1;
    }
    assert(bytes@.take(bytes.len() as int) =~= bytes@);
    res
}

/// The address that searches DuckDuckGo's HTML page for `query`.
pub open spec fn spec_search_url(query: Seq<char>) -> Seq<char> {
    "https://html.duckduckgo.com/html/?q="@ + url_encode_bytes(vstd::utf8::encode_utf8(query))
}

pub fn search_url(query: &str) -> (res: String)
    ensures
        res@ == spec_search_url(query@),
{
    let mut res = owned("https://html.duckduckgo.com/html/?q=");
    let enc = urlencoding(query);
    res.append(enc.as_str());
    res
}

// ---------------------------------------------------------------------------
// Cutting a text down to a limit
// ---------------------------------------------------------------------------

/// The position of the last `c` in `t`, or -1.
pub open spec fn last_index_of(t: Seq<char>, c: char) -> int
    decreases t.len(),
{
    if t.len() == 0 {
        -1
    } else if t.last() == c {
        t.len() - 1
    } else {
        last_index_of(t.drop_last(), c)
    }
}

proof fn lemma_last_index_of(t: Seq<char>, c: char)
    ensures
        -1 <= last_index_of(t, c) < t.len(),
        last_index_of(t, c) >= 0 ==> t[last_index_of(t, c)] == c,
    decreases t.len(),
{
    if t.len() > 0 && t.last() != c {
        lemma_last_index_of(t.drop_last(), c);
    }
}

/// `c` occurs in `t`, and its last occurrence starts beyond byte `half`.
pub open spec fn cuts_after(t: Seq<char>, c: char, half: nat) -> bool {
    last_index_of(t, c) >= 0 && byte_offset(t, last_index_of(t, c)) > half
}

/// `t` up to and including its last `c`.
pub open spec fn cut_at(t: Seq<char>, c: char) -> Seq<char> {
    t.take(last_index_of(t, c) + 1)
}

/// The text cut down to `max_chars` characters, at a sentence boundary where
/// one lies beyond half the limit.
///
/// The boundaries are tried in the order `。`, newline, `.`, `、`; a boundary
/// counts where the byte offset of its last occurrence among the first
/// `max_chars` characters exceeds `max_chars / 2`, and the cut keeps the
/// whole boundary character.
pub open spec fn truncation(text: Seq<char>, max_chars: nat) -> Seq<char> {
    if text.len() <= max_chars {
        text
    } else {
        let t = text.take(max_chars as int);
        let half = max_chars / 2;
        if cuts_after(t, '。', half) {
            cut_at(t, '。')
        } else if cuts_after(t, '\n', half) {
            cut_at(t, '\n')
        } else if cuts_after(t, '.', half) {
            cut_at(t, '.')
        } else if cuts_after(t, '、', half) {
            cut_at(t, '、')
        } else {
            t
        }
    }
}

/// A cut text is a beginning of the text, at most `max_chars` characters
/// long; a text within the limit is kept whole.
pub proof fn lemma_truncation_is_prefix(text: Seq<char>, max_chars: nat)
    ensures
        truncation(text, max_chars).len() <= max_chars || truncation(text, max_chars) == text,
        text.len() <= max_chars ==> truncation(text, max_chars) == text,
        truncation(text, max_chars).len() <= text.len(),
        truncation(text, max_chars) == text.take(truncation(text, max_chars).len() as int),
{
    if text.len() > max_chars {
        let t = text.take(max_chars as int);
        lemma_last_index_of(t, '。');
        lemma_last_index_of(t, '\n');
        lemma_last_index_of(t, '.');
        lemma_last_index_of(t, '、');
        assert(cut_at(t, '。') =~= text.take(last_index_of(t, '。') + 1));
        assert(cut_at(t, '\n') =~= text.take(last_index_of(t, '\n') + 1));
        assert(cut_at(t, '.') =~= text.take(last_index_of(t, '.') + 1));
        assert(cut_at(t, '、') =~= text.take(last_index_of(t, '、') + 1));
    } else {
        assert(text.take(text.len() as int) =~= text);
    }
}

fn last_index_exec(chars: &Vec<char>, n: usize, c: char) -> (res: Option<usize>)
    requires
        n <= chars.len(),
    ensures
        match res {
            Some(k) => last_index_of(chars@.take(n as int), c) == k as int,
            None => last_index_of(chars@.take(n as int), c) == -1,
        },
{
    let mut j: usize = n;
    while j > 0
        invariant
            j <= n <= chars.len(),
            last_index_of(chars@.take(n as int), c) == last_index_of(chars@.take(j as int), c),
        decreases j,
    {
        assert(chars@.take(j as int).drop_last() =~= chars@.take(j - 1));
        if chars[j - 1] == c {
            return Some(j - 1);
        }
        j = j - 1;
    }
    None
}

/// Where to cut after the last `c` among the first `n` characters, where
/// that `c` starts beyond byte `half`.
fn cut_point(text: &str, chars: &Vec<char>, n: usize, c: char, half: usize) -> (res: Option<usize>)
    requires
        chars@ == text@,
        n <= chars.len(),
    ensures
        match res {
            Some(k) => cuts_after(chars@.take(n as int), c, half as nat) && k as int
                == last_index_of(chars@.take(n as int), c) && k < n,
            None => !cuts_after(chars@.take(n as int), c, half as nat),
        },
{
    proof {
        lemma_last_index_of(chars@.take(n as int), c);
    }
    match last_index_exec(chars, n, c) {
        None => None,
        Some(k) => {
            let b = byte_offset_exec(text, chars, k);
            assert(chars@.take(n as int).take(k as int) =~= chars@.take(k as int));
            if b > half {
                Some(k)
            } else {
                None
            }
        },
    }
}

/// Cuts `text` down to `max_chars` characters, at a sentence boundary beyond
/// half the limit where there is one.
pub fn truncate_to_limit(text: &str, max_chars: usize) -> (res: String)
    ensures
        res@ == truncation(text@, max_chars as nat),
{
    let chars = chars_of(text);
    if chars.len() <= max_chars {
        return owned(text);
    }
    let half = max_chars / 2;
    let ghost t = chars@.take(max_chars as int);
    match cut_point(text, &chars, max_chars, '。', half) {
        Some(k) => {
            let r = string_of(&chars, 0, k + 1);
            assert(r@ =~= cut_at(t, '。'));
            return r;
        },
        None => {},
    }
    match cut_point(text, &chars, max_chars, '\n', half) {
        Some(k) => {
            let r = string_of(&chars, 0, k + 1);
            assert(r@ =~= cut_at(t, '\n'));
            return r;
        },
        None => {},
    }
    match cut_point(text, &chars, max_chars, '.', half) {
        Some(k) => {
            let r = string_of(&chars, 0, k + 1);
            assert(r@ =~= cut_at(t, '.'));
            return r;
        },
        None => {},
    }
    match cut_point(text, &chars, max_chars, '、', half) {
        Some(k) => {
            let r = string_of(&chars, 0, k + 1);
            assert(r@ =~= cut_at(t, '、'));
            return r;
        },
        None => {},
    }
    let r = string_of(&chars, 0, max_chars);
    assert(r@ =~= t);
    r
}

// ---------------------------------------------------------------------------
// Reading the text of a page
// ---------------------------------------------------------------------------

/// The elements whose text makes up the content of a page.
pub const CONTENT_SELECTOR: &'static str = "p, h1, h2, h3, h4, h5, h6, li, td, th, blockquote";

/// Elements whose content is left out.
pub open spec fn is_skipped_tag(name: Seq<char>) -> bool {
    ||| name == "script"@
    ||| name == "style"@
    ||| name == "nav"@
    ||| name == "footer"@
    ||| name == "header"@
    ||| name == "noscript"@
}

/// An enclosing node that is an element with a skipped tag.
pub open spec fn is_skipped_node(node: Option<Seq<char>>) -> bool {
    match node {
        Some(name) => is_skipped_tag(name),
        None => false,
    }
}

/// The text that a selected element contributes: none where it lies inside a
/// skipped element; else its text nodes joined by spaces and trimmed, where
/// that is more than one byte long.
pub open spec fn element_text(e: (Seq<Option<Seq<char>>>, Seq<Seq<char>>)) -> Option<Seq<char>> {
    if exists|k: int| 0 <= k < e.0.len() && is_skipped_node(#[trigger] e.0[k]) {
        None
    } else {
        let t = trim(join(e.1, " "@));
        if t.len() > 0 && vstd::utf8::encode_utf8(t).len() > 1 {
            Some(t)
        } else {
            None
        }
    }
}

/// The texts that the elements contribute, in order.
pub open spec fn element_texts(es: Seq<(Seq<Option<Seq<char>>>, Seq<Seq<char>>)>) -> Seq<Seq<char>>
    decreases es.len(),
{
    if es.len() == 0 {
        Seq::empty()
    } else {
        element_texts(es.drop_last()) + match element_text(es.last()) {
            Some(t) => seq![t],
            None => Seq::empty(),
        }
    }
}

/// The texts of two runs of elements are the texts of the first run
/// followed by those of the second: every element contributes, in order.
pub proof fn lemma_element_texts_concat(
    es1: Seq<(Seq<Option<Seq<char>>>, Seq<Seq<char>>)>,
    es2: Seq<(Seq<Option<Seq<char>>>, Seq<Seq<char>>)>,
)
    ensures
        element_texts(es1 + es2) == element_texts(es1) + element_texts(es2),
    decreases es2.len(),
{
    if es2.len() == 0 {
        assert(es1 + es2 =~= es1);
        assert(element_texts(es1) + element_texts(es2) =~= element_texts(es1));
    } else {
        assert((es1 + es2).drop_last() =~= es1 + es2.drop_last());
        assert((es1 + es2).last() == es2.last());
        lemma_element_texts_concat(es1, es2.drop_last());
        assert(element_texts(es1 + es2) =~= element_texts(es1) + element_texts(es2));
    }
}

/// One element contributes its text where it has one, and nothing else.
pub proof fn lemma_element_texts_single(e: (Seq<Option<Seq<char>>>, Seq<Seq<char>>))
    ensures
        element_texts(seq![e]) == match element_text(e) {
            Some(t) => seq![t],
            None => Seq::<Seq<char>>::empty(),
        },
{
    assert(seq![e].drop_last() =~= Seq::<(Seq<Option<Seq<char>>>, Seq<Seq<char>>)>::empty());
    assert(element_texts(Seq::<(Seq<Option<Seq<char>>>, Seq<Seq<char>>)>::empty()) =~= Seq::<Seq<char>>::empty());
    assert(element_texts(seq![e]) =~= match element_text(e) {
        Some(t) => seq![t],
        None => Seq::<Seq<char>>::empty(),
    });
}

/// The text made of the selected elements: their texts, one per line.
pub open spec fn elements_text(es: Seq<(Seq<Option<Seq<char>>>, Seq<Seq<char>>)>) -> Seq<char> {
    join(element_texts(es), "\n"@)
}

/// The main text of a page: the texts of its content elements, one per line.
pub open spec fn page_text(html: Seq<char>) -> Seq<char> {
    elements_text(html_selected(html, CONTENT_SELECTOR@)->0)
}

fn is_skipped_tag_exec(name: &str) -> (r: bool)
    ensures
        r == is_skipped_tag(name@),
{
    str_eq(name, "script") || str_eq(name, "style") || str_eq(name, "nav") || str_eq(name, "footer")
        || str_eq(name, "header") || str_eq(name, "noscript")
}

/// The text that one selected element contributes.
pub fn element_text_exec(e: &SelectedElement) -> (res: Option<String>)
    ensures
        group_view(res) == element_text(e@),
{
    let mut k: usize = 0;
    while k < e.ancestors.len()
        invariant
            k <= e.ancestors.len(),
            forall|j: int| 0 <= j < k ==> !is_skipped_node(#[trigger] tags_view(e.ancestors@)[j]),
        decreases e.ancestors.len() - k,
    {
        match &e.ancestors[k] {
            Some(name) => {
                if is_skipped_tag_exec(name.as_str()) {
                    assert(e@.0 == tags_view(e.ancestors@));
                    assert(e@.0[k as int] == Some(name@));
                    return None;
                }
            },
            None => {},
        }
        k = k + 1;
    }
    assert(e@.0 == tags_view(e.ancestors@));
    let joined = join_strings(&e.texts, " ");
    let t = trim_string(joined.as_str());
    if !t.as_str().is_empty() && byte_len(t.as_str()) > 1 {
        Some(t)
    } else {
        None
    }
}

/// The text made of the selected elements `es`.
pub fn page_text_of(es: &Vec<SelectedElement>) -> (res: String)
    ensures
        res@ == elements_text(es@.map_values(|e: SelectedElement| e@)),
{
    let ghost ev = es@.map_values(|e: SelectedElement| e@);
    let mut texts: Vec<String> = Vec::new();
    let mut i: usize = 0;
    while i < es.len()
        invariant
            i <= es.len(),
            ev == es@.map_values(|e: SelectedElement| e@),
            views(texts@) == element_texts(ev.take(i as int)),
        decreases es.len() - i,
    {
        assert(ev.take(i + 1).drop_last() =~= ev.take(i as int));
        assert(ev.take(i + 1).last() == es@[i as int]@);
        match element_text_exec(&es[i]) {
            Some(t) => {
                texts.push(t);
                assert(views(texts@) =~= element_texts(ev.take(i + 1)));
            },
            None => {
                assert(element_texts(ev.take(i + 1)) =~= element_texts(ev.take(i as int)));
            },
        }
        i = i + 1;
    }
    assert(ev.take(es.len() as int) =~= ev);
    join_strings(&texts, "\n")
}

/// The main text of a page; requires that the content selector parses.
pub fn extract_text_from_html(html: &str) -> (res: String)
    requires
        html_selected(html@, CONTENT_SELECTOR@) is Some,
    ensures
        res@ == page_text(html@),
{
    match select_elements(html, CONTENT_SELECTOR) {
        Some(es) => page_text_of(&es),
        None => String::new(),
    }
}

/// What fetching gives from a text: an error where it is empty, else the
/// text cut down to 4000 characters.
pub open spec fn text_outcome(text: Seq<char>, empty: Seq<char>) -> Result<Seq<char>, Seq<char>> {
    if text.len() == 0 {
        Err(empty)
    } else {
        Ok(truncation(text, 4000))
    }
}

pub open spec fn no_page_text() -> Seq<char> {
    "ページからテキストを抽出できませんでした"@
}

pub open spec fn outcome_view(r: Result<String, String>) -> Result<Seq<char>, Seq<char>> {
    match r {
        Ok(s) => Ok(s@),
        Err(e) => Err(e@),
    }
}

/// What fetching a page gives from its main text `text`.
pub fn page_outcome(text: &str) -> (res: Result<String, String>)
    ensures
        outcome_view(res) == text_outcome(text@, no_page_text()),
{
    if text.is_empty() {
        Err(owned("ページからテキストを抽出できませんでした"))
    } else {
        Ok(truncate_to_limit(text, 4000))
    }
}

/// The result of fetching a page, from its HTML: its main text cut down to
/// 4000 characters, or an error where it has none; `None` where the content
/// selector does not parse.
pub open spec fn spec_fetched_page_text(html: Seq<char>) -> Option<Result<Seq<char>, Seq<char>>> {
    if html_selected(html, CONTENT_SELECTOR@) is None {
        None
    } else {
        Some(text_outcome(page_text(html), no_page_text()))
    }
}

pub open spec fn result_view(r: Option<Result<String, String>>) -> Option<Result<Seq<char>, Seq<char>>> {
    match r {
        Some(o) => Some(outcome_view(o)),
        None => None,
    }
}

/// What fetching a page gives, from the page's HTML.
pub fn fetched_page_text(html: &str) -> (res: Option<Result<String, String>>)
    ensures
        result_view(res) == spec_fetched_page_text(html@),
{
    if select_elements(html, CONTENT_SELECTOR).is_none() {
        return None;
    }
    let text = extract_text_from_html(html);
    Some(page_outcome(text.as_str()))
}

// ---------------------------------------------------------------------------
// Reading search results
// ---------------------------------------------------------------------------

pub const RESULT_SELECTOR: &'static str = ".result";

pub const TITLE_SELECTOR: &'static str = ".result__title a, .result__a";

pub const SNIPPET_SELECTOR: &'static str = ".result__snippet";

/// The text nodes of an element joined and trimmed; empty where there is no element.
pub open spec fn joined_text(t: Option<Seq<Seq<char>>>) -> Seq<char> {
    match t {
        Some(ts) => trim(join(ts, ""@)),
        None => Seq::empty(),
    }
}

/// The text of entry `i` of `ts`, empty where there is none.
pub open spec fn entry_text(ts: Seq<Option<Seq<Seq<char>>>>, i: int) -> Seq<char> {
    if 0 <= i < ts.len() {
        joined_text(ts[i])
    } else {
        Seq::empty()
    }
}

/// The line for result number `i` (from 0): `"{i+1}. {title}\n   {snippet}"`,
/// where it has a title.
pub open spec fn result_line(i: nat, title: Seq<char>, snippet: Seq<char>) -> Option<Seq<char>> {
    if title.len() > 0 {
        Some(decimal(i + 1) + ". "@ + title + "\n   "@ + snippet)
    } else {
        None
    }
}

/// The lines for the first `n` results.
pub open spec fn result_lines(
    titles: Seq<Option<Seq<Seq<char>>>>,
    snippets: Seq<Option<Seq<Seq<char>>>>,
    n: nat,
) -> Seq<Seq<char>>
    decreases n,
{
    if n == 0 {
        Seq::empty()
    } else {
        result_lines(titles, snippets, (n - 1) as nat) + match result_line(
            (n - 1) as nat,
            entry_text(titles, n - 1),
            entry_text(snippets, n - 1),
        ) {
            Some(l) => seq![l],
            None => Seq::empty(),
        }
    }
}

/// The result titles on a result page, in order.
pub open spec fn result_titles(html: Seq<char>) -> Option<Seq<Option<Seq<Seq<char>>>>> {
    html_first_within(html, RESULT_SELECTOR@, TITLE_SELECTOR@)
}

/// The result snippets on a result page, in order.
pub open spec fn result_snippets(html: Seq<char>) -> Option<Seq<Option<Seq<Seq<char>>>>> {
    html_first_within(html, RESULT_SELECTOR@, SNIPPET_SELECTOR@)
}

/// The search results on a result page: the first eight, those with a
/// title, separated by blank lines.
pub open spec fn search_results_text(html: Seq<char>) -> Seq<char> {
    results_text(result_titles(html)->0, result_snippets(html)->0)
}

fn entry_text_exec(ts: &Vec<Option<Vec<String>>>, i: usize) -> (res: String)
    ensures
        res@ == entry_text(firsts_view(Some(*ts))->0, i as int),
{
    if i < ts.len() {
        match &ts[i] {
            Some(parts) => {
                let j = join_strings(parts, "");
                trim_string(j.as_str())
            },
            None => String::new(),
        }
    } else {
        String::new()
    }
}

/// The number of results read: at most eight.
pub open spec fn results_read(n: nat) -> nat {
    if n < 8 {
        n
    } else {
        8
    }
}

/// The search results made of each result's title and snippet: the first
/// eight, those with a title, separated by blank lines.
pub open spec fn results_text(
    titles: Seq<Option<Seq<Seq<char>>>>,
    snippets: Seq<Option<Seq<Seq<char>>>>,
) -> Seq<char> {
    join(result_lines(titles, snippets, results_read(titles.len())), "\n\n"@)
}

/// The search results made of the titles and snippets found under each
/// result.
pub fn search_results_of(titles: &Vec<Option<Vec<String>>>, snippets: &Vec<Option<Vec<String>>>) -> (res: String)
    ensures
        res@ == results_text(firsts_view(Some(*titles))->0, firsts_view(Some(*snippets))->0),
{
    let ghost tv = firsts_view(Some(*titles))->0;
    let ghost sv = firsts_view(Some(*snippets))->0;
    let n: usize = if titles.len() < 8 {
        titles.len()
    } else {
        8
    };
    let mut lines: Vec<String> = Vec::new();
    let mut i: usize = 0;
    while i < n
        invariant
            i <= n <= titles.len(),
            n <= 8,
            n == results_read(tv.len()),
            tv == firsts_view(Some(*titles))->0,
            sv == firsts_view(Some(*snippets))->0,
            views(lines@) == result_lines(tv, sv, i as nat),
        decreases n - i,
    {
        let title = entry_text_exec(titles, i);
        let snippet = entry_text_exec(snippets, i);
        if !title.as_str().is_empty() {
            let mut line = String::new();
            push_decimal(&mut line, (i + 1) as u64);
            line.append(". ");
            line.append(title.as_str());
            line.append("\n   ");
            line.append(snippet.as_str());
            lines.push(line);
            assert(views(lines@) =~= result_lines(tv, sv, (i + 1) as nat));
        } else {
            assert(result_lines(tv, sv, (i + 1) as nat) =~= result_lines(tv, sv, i as nat));
        }
        i = i + 1;
    }
    join_strings(&lines, "\n\n")
}

/// The search results on a result page; requires that the selectors parse.
pub fn extract_search_results(html: &str) -> (res: String)
    requires
        result_titles(html@) is Some,
        result_snippets(html@) is Some,
    ensures
        res@ == search_results_text(html@),
{
    let titles = match select_first_within(html, RESULT_SELECTOR, TITLE_SELECTOR) {
        Some(t) => t,
        None => Vec::new(),
    };
    let snippets = match select_first_within(html, RESULT_SELECTOR, SNIPPET_SELECTOR) {
        Some(s) => s,
        None => Vec::new(),
    };
    search_results_of(&titles, &snippets)
}

pub open spec fn no_results() -> Seq<char> {
    "検索結果が見つかりませんでした"@
}

/// What a search gives from the text of its results.
pub fn results_outcome(text: &str) -> (res: Result<String, String>)
    ensures
        outcome_view(res) == text_outcome(text@, no_results()),
{
    if text.is_empty() {
        Err(owned("検索結果が見つかりませんでした"))
    } else {
        Ok(truncate_to_limit(text, 4000))
    }
}

/// What a search gives, from the result page's HTML: the results cut down
/// to 4000 characters, or an error where there are none; `None` where a
/// selector does not parse.
pub open spec fn spec_search_outcome(html: Seq<char>) -> Option<Result<Seq<char>, Seq<char>>> {
    if result_titles(html) is None || result_snippets(html) is None {
        None
    } else {
        Some(text_outcome(search_results_text(html), no_results()))
    }
}

/// What a search gives, from the result page's HTML.
pub fn search_outcome(html: &str) -> (res: Option<Result<String, String>>)
    ensures
        result_view(res) == spec_search_outcome(html@),
{
    if select_first_within(html, RESULT_SELECTOR, TITLE_SELECTOR).is_none() {
        return None;
    }
    if select_first_within(html, RESULT_SELECTOR, SNIPPET_SELECTOR).is_none() {
        return None;
    }
    let text = extract_search_results(html);
    Some(results_outcome(text.as_str()))
}

} // verus!
