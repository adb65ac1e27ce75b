use vstd::prelude::*;

use crate::domain::info::Info;

verus! {

/// The body of a page-information request.
#[derive(Debug, Clone, PartialEq, Eq)]
pub struct UrlParams {
    pub url: String,
}

// ---------------------------------------------------------------------------
// Whitespace and trimming.
// ---------------------------------------------------------------------------

/// A character with the Unicode `White_Space` property.
pub open spec fn is_white_space(c: char) -> bool {
    ||| ('\u{9}' <= c && c <= '\u{d}')
    ||| c == ' '
    ||| c == '\u{85}'
    ||| c == '\u{a0}'
    ||| c == '\u{1680}'
    ||| ('\u{2000}' <= c && c <= '\u{200a}')
    ||| c == '\u{2028}'
    ||| c == '\u{2029}'
    ||| c == '\u{202f}'
    ||| c == '\u{205f}'
    ||| c == '\u{3000}'
}

/// `s` without its leading whitespace.
pub open spec fn trim_start(s: Seq<char>) -> Seq<char>
    decreases s.len(),
{
    if s.len() > 0 && is_white_space(s[0]) {
        trim_start(s.drop_first())
    } else {
        s
    }
}

/// `s` without its trailing whitespace.
pub open spec fn trim_end(s: Seq<char>) -> Seq<char>
    decreases s.len(),
{
    if s.len() > 0 && is_white_space(s.last()) {
        trim_end(s.drop_last())
    } else {
        s
    }
}

/// `s` without leading and trailing whitespace.
pub open spec fn trimmed(s: Seq<char>) -> Seq<char> {
    trim_end(trim_start(s))
}

/// Neither end of `s` is whitespace.
pub open spec fn has_no_outer_white_space(s: Seq<char>) -> bool {
    s.len() > 0 ==> !is_white_space(s[0]) && !is_white_space(s.last())
}

/// The parts of `parts`, one after the other.
pub open spec fn concat_all(parts: Seq<Seq<char>>) -> Seq<char>
    decreases parts.len(),
{
    if parts.len() == 0 {
        Seq::empty()
    } else {
        concat_all(parts.drop_last()) + parts.last()
    }
}

// ---------------------------------------------------------------------------
// Calls into `scraper` and std.
// ---------------------------------------------------------------------------

/// The text nodes of the first element that `selector` selects in the HTML
/// document `document`, as `scraper` parses both; `None` where nothing is
/// selected or the selector does not parse.
pub uninterp spec fn html_first_text(document: Seq<char>, selector: Seq<char>) -> Option<
    Seq<Seq<char>>,
>;

/// The value of the attribute `attr` of the first element that `selector`
/// selects in the HTML document `document`, as `scraper` parses both; `None`
/// where nothing is selected, the element has no such attribute, or the
/// selector does not parse.
pub uninterp spec fn html_first_attr(
    document: Seq<char>,
    selector: Seq<char>,
    attr: Seq<char>,
) -> Option<Seq<char>>;

/// Calls `scraper::Selector::parse`, `scraper::Html::parse_document`,
/// `Html::select` and `ElementRef::text`: the text nodes of the first match.
/// The result depends on the document and the selector alone, and is named
/// `html_first_text`; what HTML parsing yields is not stated here.
#[verifier::external_body]
fn select_first_text(document: &str, selector: &str) -> (r: Option<Vec<String>>)
    ensures
        r is Some <==> html_first_text(document@, selector@) is Some,
        r matches Some(parts) ==> parts@.map_values(|p: String| p@) == html_first_text(
            document@,
            selector@,
        )->0,
{
    let selector = match scraper::Selector::parse(selector) {
        Ok(s) => s,
        Err(_) => return None,
    };
    let html = scraper::Html::parse_document(document);
    match html.select(&selector).next() {
        Some(element) => Some(element.text().map(String::from).collect()),
        None => None,
    }
}

/// Calls `scraper::Selector::parse`, `scraper::Html::parse_document`,
/// `Html::select` and `ElementRef::attr`: the attribute of the first match.
/// The result depends on its arguments alone, and is named
/// `html_first_attr`; what HTML parsing yields is not stated here.
#[verifier::external_body]
fn select_first_attr(document: &str, selector: &str, attr: &str) -> (r: Option<String>)
    ensures
        r is Some <==> html_first_attr(document@, selector@, attr@) is Some,
        r matches Some(v) ==> v@ == html_first_attr(document@, selector@, attr@)->0,
{
    let selector = match scraper::Selector::parse(selector) {
        Ok(s) => s,
        Err(_) => return None,
    };
    let html = scraper::Html::parse_document(document);
    match html.select(&selector).next() {
        Some(element) => element.attr(attr).map(String::from),
        None => None,
    }
}

/// Calls `str::trim`, which removes leading and trailing characters with the
/// Unicode `White_Space` property, and copies the result.
#[verifier::external_body]
fn trim_str(s: &str) -> (r: String)
    ensures
        r@ == trimmed(s@),
{
    s.trim().to_string()
}

// ---------------------------------------------------------------------------
// Page information.
// ---------------------------------------------------------------------------

/// The selector of the page title.
pub open spec fn title_selector() -> Seq<char> {
    "html > head > title"@
}

/// The selector of the preview image.
pub open spec fn thumbnail_selector() -> Seq<char> {
    "html > head > meta[property=\"og:image\"]"@
}

/// The attribute that holds the preview image.
pub open spec fn thumbnail_attr() -> Seq<char> {
    "content"@
}

/// The title of a document: the text of its first title element, trimmed;
/// empty where there is none.
pub open spec fn page_title(document: Seq<char>) -> Seq<char> {
    match html_first_text(document, title_selector()) {
        Some(parts) => trimmed(concat_all(parts)),
        None => Seq::empty(),
    }
}

/// The preview image of a document: the content of its first `og:image`
/// meta element, trimmed; empty where there is none.
pub open spec fn page_thumbnail(document: Seq<char>) -> Seq<char> {
    match html_first_attr(document, thumbnail_selector(), thumbnail_attr()) {
        Some(v) => trimmed(v),
        None => Seq::empty(),
    }
}

/// The parts, one after the other.
pub fn concat_parts(parts: &Vec<String>) -> (r: String)
    ensures
        r@ == concat_all(parts@.map_values(|p: String| p@)),
{
    let ghost views = parts@.map_values(|p: String| p@);
    let mut r = String::new();
    let mut i: usize = 0;
    while i < parts.len()
        invariant
            i <= parts.len(),
            views == parts@.map_values(|p: String| p@),
            r@ == concat_all(views.take(i as int)),
        decreases parts.len() - i,
    {
        r.append(parts[i].as_str());
        proof {
            assert(views.take(i + 1).drop_last() =~= views.take(i as int));
        }
        i = i + 1;
    }
    proof {
        assert(views.take(parts.len() as int) =~= views);
    }
    r
}

/// The title and the preview image of an HTML document.
pub fn extract_info(document: &str) -> (r: Info)
    ensures
        r.title@ == page_title(document@),
        r.thumbnail@ == page_thumbnail(document@),
        has_no_outer_white_space(r.title@),
        has_no_outer_white_space(r.thumbnail@),
        html_first_text(document@, "html > head > title"@) matches Some(parts) ==> (
        has_no_outer_white_space(concat_all(parts)) ==> r.title@ == concat_all(parts)),
        html_first_text(document@, "html > head > title"@) is None ==> r.title@.len() == 0,
        html_first_attr(document@, "html > head > meta[property=\"og:image\"]"@, "content"@) matches Some(v)
            ==> (has_no_outer_white_space(v) ==> r.thumbnail@ == v),
        html_first_attr(document@, "html > head > meta[property=\"og:image\"]"@, "content"@) is None
            ==> r.thumbnail@.len() == 0,
{
    let title = match select_first_text(document, "html > head > title") {
        Some(parts) => {
            let joined = concat_parts(&parts);
            trim_str(joined.as_str())
        },
        None => String::new(),
    };
    let thumbnail = match select_first_attr(
        document,
        "html > head > meta[property=\"og:image\"]",
        "content",
    ) {
        Some(v) => trim_str(v.as_str()),
        None => String::new(),
    };
    proof {
        lemma_page_info_has_no_outer_white_space(document@);
        lemma_title_is_whole_trimmed_text(document@);
        lemma_thumbnail_is_whole_trimmed_content(document@);
    }
    Info { title, thumbnail }
}

// ---------------------------------------------------------------------------
// Laws of trimming.
// ---------------------------------------------------------------------------

proof fn lemma_trim_start_front(s: Seq<char>)
    ensures
        trim_start(s).len() > 0 ==> !is_white_space(trim_start(s)[0]),
    decreases s.len(),
{
    if s.len() > 0 && is_white_space(s[0]) {
        lemma_trim_start_front(s.drop_first());
    }
}

proof fn lemma_trim_end_prefix(s: Seq<char>)
    ensures
        trim_end(s).len() <= s.len(),
        trim_end(s) =~= s.subrange(0, trim_end(s).len() as int),
        trim_end(s).len() > 0 ==> !is_white_space(trim_end(s).last()),
    decreases s.len(),
{
    if s.len() > 0 && is_white_space(s.last()) {
        lemma_trim_end_prefix(s.drop_last());
    }
}

proof fn lemma_no_outer_white_space_fixed(s: Seq<char>)
    requires
        has_no_outer_white_space(s),
    ensures
        trimmed(s) == s,
{
}

/// Trimming leaves neither end as whitespace.
pub proof fn lemma_trimmed_has_no_outer_white_space(s: Seq<char>)
    ensures
        has_no_outer_white_space(trimmed(s)),
{
    let u = trim_start(s);
    lemma_trim_start_front(s);
    lemma_trim_end_prefix(u);
    let t = trim_end(u);
    if t.len() > 0 {
        assert(t[0] == u[0]);
    }
}

/// The title and the preview image of any document carry no surrounding
/// whitespace.
pub proof fn lemma_page_info_has_no_outer_white_space(document: Seq<char>)
    ensures
        has_no_outer_white_space(page_title(document)),
        has_no_outer_white_space(page_thumbnail(document)),
{
    if let Some(parts) = html_first_text(document, title_selector()) {
        lemma_trimmed_has_no_outer_white_space(concat_all(parts));
    }
    if let Some(v) = html_first_attr(document, thumbnail_selector(), thumbnail_attr()) {
        lemma_trimmed_has_no_outer_white_space(v);
    }
}

/// Trimming twice is trimming once.
pub proof fn lemma_trimmed_idempotent(s: Seq<char>)
    ensures
        trimmed(trimmed(s)) == trimmed(s),
{
    lemma_trimmed_has_no_outer_white_space(s);
    lemma_no_outer_white_space_fixed(trimmed(s));
}

proof fn lemma_trim_start_split(s: Seq<char>) -> (i: int)
    ensures
        0 <= i <= s.len(),
        trim_start(s) == s.subrange(i, s.len() as int),
        forall|k: int| 0 <= k < i ==> is_white_space(#[trigger] s[k]),
    decreases s.len(),
{
    if s.len() > 0 && is_white_space(s[0]) {
        let i0 = lemma_trim_start_split(s.drop_first());
        assert(s.drop_first().subrange(i0, s.drop_first().len() as int) =~= s.subrange(
            i0 + 1,
            s.len() as int,
        ));
        assert forall|k: int| 0 <= k < i0 + 1 implies is_white_space(#[trigger] s[k]) by {
            if k > 0 {
                assert(s[k] == s.drop_first()[k - 1]);
            }
        }
        i0 + 1
    } else {
        assert(s.subrange(0, s.len() as int) =~= s);
        0
    }
}

proof fn lemma_trim_end_split(s: Seq<char>) -> (j: int)
    ensures
        0 <= j <= s.len(),
        trim_end(s) == s.subrange(0, j),
        forall|k: int| j <= k < s.len() ==> is_white_space(#[trigger] s[k]),
    decreases s.len(),
{
    if s.len() > 0 && is_white_space(s.last()) {
        let j0 = lemma_trim_end_split(s.drop_last());
        assert(s.drop_last().subrange(0, j0) =~= s.subrange(0, j0));
        assert forall|k: int| j0 <= k < s.len() implies is_white_space(#[trigger] s[k]) by {
            if k < s.len() - 1 {
                assert(s[k] == s.drop_last()[k]);
            }
        }
        j0
    } else {
        assert(s.subrange(0, s.len() as int) =~= s);
        s.len() as int
    }
}

/// Trimming keeps a whole stretch of the text: it removes only whitespace,
/// and only at the two ends, and a text without outer whitespace is kept
/// whole.
pub proof fn lemma_trimmed_is_whole_inner_text(t: Seq<char>)
    ensures
        exists|i: int, j: int|
            0 <= i <= j <= t.len() && trimmed(t) == t.subrange(i, j) && (forall|k: int|
                0 <= k < i ==> is_white_space(#[trigger] t[k])) && (forall|k: int|
                j <= k < t.len() ==> is_white_space(#[trigger] t[k])),
        has_no_outer_white_space(t) ==> trimmed(t) == t,
{
    let i = lemma_trim_start_split(t);
    let u = t.subrange(i, t.len() as int);
    let j = lemma_trim_end_split(u);
    assert(u.subrange(0, j) =~= t.subrange(i, i + j));
    assert forall|k: int| i + j <= k < t.len() implies is_white_space(#[trigger] t[k]) by {
        assert(t[k] == u[k - i]);
    }
    assert(trimmed(t) == t.subrange(i, i + j));
    if has_no_outer_white_space(t) {
        lemma_no_outer_white_space_fixed(t);
    }
}

/// The title of a document is the whole text of its first title element
/// (the text nodes joined in order) with only its outer whitespace removed:
/// a text without outer whitespace is the title as it stands, of any length.
/// A document without a title element has an empty title.
pub proof fn lemma_title_is_whole_trimmed_text(document: Seq<char>)
    ensures
        match html_first_text(document, "html > head > title"@) {
            Some(parts) => {
                let t = concat_all(parts);
                &&& exists|i: int, j: int|
                    0 <= i <= j <= t.len() && page_title(document) == t.subrange(i, j) && (forall|
                        k: int,
                    | 0 <= k < i ==> is_white_space(#[trigger] t[k])) && (forall|k: int|
                        j <= k < t.len() ==> is_white_space(#[trigger] t[k]))
                &&& has_no_outer_white_space(t) ==> page_title(document) == t
            },
            None => page_title(document).len() == 0,
        },
{
    if let Some(parts) = html_first_text(document, "html > head > title"@) {
        lemma_trimmed_is_whole_inner_text(concat_all(parts));
    }
}

/// The preview image of a document is the whole content of its first
/// `og:image` meta element with only its outer whitespace removed; a
/// document without one has an empty preview image.
pub proof fn lemma_thumbnail_is_whole_trimmed_content(document: Seq<char>)
    ensures
        match html_first_attr(document, "html > head > meta[property=\"og:image\"]"@, "content"@) {
            Some(v) => {
                &&& exists|i: int, j: int|
                    0 <= i <= j <= v.len() && page_thumbnail(document) == v.subrange(i, j) && (forall|
                        k: int,
                    | 0 <= k < i ==> is_white_space(#[trigger] v[k])) && (forall|k: int|
                        j <= k < v.len() ==> is_white_space(#[trigger] v[k]))
                &&& has_no_outer_white_space(v) ==> page_thumbnail(document) == v
            },
            None => page_thumbnail(document).len() == 0,
        },
{
    if let Some(v) = html_first_attr(document, "html > head > meta[property=\"og:image\"]"@, "content"@) {
        lemma_trimmed_is_whole_inner_text(v);
    }
}

} // verus!
