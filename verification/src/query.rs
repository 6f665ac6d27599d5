//! Search filters and the request URL built from them.

use vstd::prelude::*;
use vstd::utf8::encode_utf8;
use crate::text::{
    append_decimal, append_percent_encoded, decimal, is_component_char,
    lemma_percent_encode_chars, percent_encode, push_char,
};

verus! {

/// The smallest page cap a filter can hold.
pub const MIN_PAGES: u32 = 1;

/// The largest page cap a filter can hold.
pub const MAX_PAGES: u32 = 50;

/// The page cap of a fresh filter.
pub const DEFAULT_PAGES: u32 = 5;

/// `requested` brought into the range of page caps.
pub open spec fn clamp_pages(requested: int) -> int {
    if requested < MIN_PAGES {
        MIN_PAGES as int
    } else if requested > MAX_PAGES {
        MAX_PAGES as int
    } else {
        requested
    }
}

/// Clamping lands in the range of page caps and changes nothing that is
/// already inside it.
pub proof fn lemma_clamp_pages(requested: int)
    ensures
        MIN_PAGES <= clamp_pages(requested) <= MAX_PAGES,
        MIN_PAGES <= requested <= MAX_PAGES ==> clamp_pages(requested) == requested,
        requested < MIN_PAGES ==> clamp_pages(requested) == MIN_PAGES,
        requested > MAX_PAGES ==> clamp_pages(requested) == MAX_PAGES,
{
}

/// `'1'` for a set flag, `'0'` for a cleared one.
pub open spec fn bit_char(flag: bool) -> char {
    if flag {
        '1'
    } else {
        '0'
    }
}

/// Which content categories a search covers.
#[derive(Clone, Copy, Debug, PartialEq, Eq, Structural)]
pub struct CategoryMask {
    pub general: bool,
    pub anime: bool,
    pub people: bool,
}

/// Which purity levels a search covers.
#[derive(Clone, Copy, Debug, PartialEq, Eq, Structural)]
pub struct PurityMask {
    pub safe: bool,
    pub sketchy: bool,
    pub explicit: bool,
}

/// The aspect ratio a search is restricted to, if any.
#[derive(Clone, Copy, Debug, PartialEq, Eq, Structural)]
pub enum AspectRatio {
    Any,
    Wide16x9,
    Ultra21x9,
}

/// How many result pages one search may request: always within
/// `MIN_PAGES..=MAX_PAGES`.
#[derive(Clone, Copy, Debug)]
pub struct PageCap {
    pages: u32,
}

/// What the user has chosen to search for.
#[derive(Debug)]
pub struct SearchFilter {
    pub query: String,
    pub categories: CategoryMask,
    pub purity: PurityMask,
    pub aspect_ratio: AspectRatio,
    pub max_pages: PageCap,
}

impl CategoryMask {
    /// The three flags as a bit string: general, anime, people.
    pub open spec fn bits(self) -> Seq<char> {
        seq![bit_char(self.general), bit_char(self.anime), bit_char(self.people)]
    }

    /// Every category.
    pub fn all() -> (m: CategoryMask)
        ensures
            m == (CategoryMask { general: true, anime: true, people: true }),
    {
        CategoryMask { general: true, anime: true, people: true }
    }
}

impl PurityMask {
    /// The three flags as a bit string: safe, sketchy, explicit.
    pub open spec fn bits(self) -> Seq<char> {
        seq![bit_char(self.safe), bit_char(self.sketchy), bit_char(self.explicit)]
    }

    /// Safe content only.
    pub fn safe_only() -> (m: PurityMask)
        ensures
            m == (PurityMask { safe: true, sketchy: false, explicit: false }),
    {
        PurityMask { safe: true, sketchy: false, explicit: false }
    }
}

impl AspectRatio {
    /// The value sent for this ratio; `Any` sends none.
    pub open spec fn value(self) -> Seq<char> {
        match self {
            AspectRatio::Any => Seq::empty(),
            AspectRatio::Wide16x9 => seq!['1', '6', 'x', '9'],
            AspectRatio::Ultra21x9 => seq!['2', '1', 'x', '9'],
        }
    }
}

impl PageCap {
    #[verifier::type_invariant]
    spec fn in_range(self) -> bool {
        MIN_PAGES <= self.pages <= MAX_PAGES
    }

    /// The number of pages.
    pub closed spec fn value(self) -> nat {
        self.pages as nat
    }

    /// The cap nearest to `requested`.
    pub fn new(requested: u32) -> (cap: PageCap)
        ensures
            cap.value() == clamp_pages(requested as int),
            MIN_PAGES <= cap.value() <= MAX_PAGES,
    {
        let pages: u32 = if requested < MIN_PAGES {
            MIN_PAGES
        } else if requested > MAX_PAGES {
            MAX_PAGES
        } else {
            requested
        };
        PageCap { pages }
    }

    /// The number of pages.
    pub fn get(&self) -> (pages: u32)
        ensures
            pages == self.value(),
            MIN_PAGES <= pages <= MAX_PAGES,
    {
        proof {
            use_type_invariant(self);
        }
        self.pages
    }

}

impl SearchFilter {
    /// The filter a session starts with: no query text, every category,
    /// safe content, any ratio, five pages.
    pub fn new() -> (f: SearchFilter)
        ensures
            f.query@ == Seq::<char>::empty(),
            f.categories == (CategoryMask { general: true, anime: true, people: true }),
            f.purity == (PurityMask { safe: true, sketchy: false, explicit: false }),
            f.aspect_ratio == AspectRatio::Any,
            f.max_pages.value() == DEFAULT_PAGES,
    {
        SearchFilter {
            query: String::new(),
            categories: CategoryMask::all(),
            purity: PurityMask::safe_only(),
            aspect_ratio: AspectRatio::Any,
            max_pages: PageCap::new(DEFAULT_PAGES),
        }
    }

    /// Stores a new page cap, clamped into the range; nothing else changes.
    pub fn set_max_pages(&mut self, requested: u32)
        ensures
            final(self).max_pages.value() == clamp_pages(requested as int),
            final(self).query == old(self).query,
            final(self).categories == old(self).categories,
            final(self).purity == old(self).purity,
            final(self).aspect_ratio == old(self).aspect_ratio,
    {
        self.max_pages = PageCap::new(requested);
    }

    /// The URL that `build_search_url` gives for this filter and `page`.
    pub open spec fn url(&self, page: nat) -> Seq<char> {
        search_url(page, self.query@, self.categories, self.purity, self.aspect_ratio)
    }
}

/// Where a search request starts, up to and including `q=`.
pub open spec fn endpoint() -> Seq<char> {
    "https://wallhaven.cc/api/v1/search?q="@
}

/// The request up to the page number: everything but the ratio.
pub open spec fn url_base(
    page: nat,
    query: Seq<char>,
    categories: CategoryMask,
    purity: PurityMask,
) -> Seq<char> {
    endpoint() + percent_encode(encode_utf8(query)) + "&categories="@ + categories.bits()
        + "&purity="@ + purity.bits() + "&sorting=relevance&page="@ + decimal(page)
}

/// The ratio parameter: absent for `Any`, else `&ratios=` and the value.
pub open spec fn ratio_suffix(ratio: AspectRatio) -> Seq<char> {
    match ratio {
        AspectRatio::Any => Seq::empty(),
        _ => "&ratios="@ + ratio.value(),
    }
}

/// The whole search request.
pub open spec fn search_url(
    page: nat,
    query: Seq<char>,
    categories: CategoryMask,
    purity: PurityMask,
    ratio: AspectRatio,
) -> Seq<char> {
    url_base(page, query, categories, purity) + ratio_suffix(ratio)
}

fn bit(flag: bool) -> (c: char)
    ensures
        c == bit_char(flag),
{
    if flag {
        '1'
    } else {
        '0'
    }
}

fn append_bits(out: &mut String, a: bool, b: bool, c: bool)
    ensures
        final(out)@ == old(out)@ + seq![bit_char(a), bit_char(b), bit_char(c)],
{
    push_char(out, bit(a));
    push_char(out, bit(b));
    push_char(out, bit(c));
    assert(out@ =~= old(out)@ + seq![bit_char(a), bit_char(b), bit_char(c)]);
}

fn append_ratio(out: &mut String, ratio: AspectRatio)
    ensures
        final(out)@ == old(out)@ + ratio_suffix(ratio),
{
    match ratio {
        AspectRatio::Any => {
            assert(out@ =~= old(out)@ + ratio_suffix(ratio));
        },
        AspectRatio::Wide16x9 => {
            out.append("&ratios=");
            push_char(out, '1');
            push_char(out, '6');
            push_char(out, 'x');
            push_char(out, '9');
            assert(out@ =~= old(out)@ + ratio_suffix(ratio));
        },
        AspectRatio::Ultra21x9 => {
            out.append("&ratios=");
            push_char(out, '2');
            push_char(out, '1');
            push_char(out, 'x');
            push_char(out, '9');
            assert(out@ =~= old(out)@ + ratio_suffix(ratio));
        },
    }
}

/// Builds the request for one page of results. The query text is
/// percent-encoded, the masks are sent as bit strings, and the ratio
/// parameter is left out altogether for `AspectRatio::Any`.
pub fn build_search_url(page: u32, filter: &SearchFilter) -> (url: String)
    ensures
        url@ == filter.url(page as nat),
{
    let mut url = String::from_str("https://wallhaven.cc/api/v1/search?q=");
    append_percent_encoded(&mut url, filter.query.as_str());
    url.append("&categories=");
    append_bits(&mut url, filter.categories.general, filter.categories.anime, filter.categories.people);
    url.append("&purity=");
    append_bits(&mut url, filter.purity.safe, filter.purity.sketchy, filter.purity.explicit);
    url.append("&sorting=relevance&page=");
    append_decimal(&mut url, page as u64);
    append_ratio(&mut url, filter.aspect_ratio);
    url
}

/// Whether `needle` stands in `text` at position `at`.
pub open spec fn occurs_at(text: Seq<char>, needle: Seq<char>, at: int) -> bool {
    0 <= at && at + needle.len() <= text.len() && text.subrange(at, at + needle.len()) == needle
}

/// No `&` in `text` is followed by `r`, and none ends it.
spec fn amp_safe(text: Seq<char>) -> bool {
    forall|i: int|
        0 <= i < text.len() && #[trigger] text[i] == '&' ==> i + 1 < text.len() && text[i + 1]
            != 'r'
}

/// `text` holds no `&`.
spec fn amp_free(text: Seq<char>) -> bool {
    forall|i: int| 0 <= i < text.len() ==> #[trigger] text[i] != '&'
}

proof fn lemma_amp_safe_concat(a: Seq<char>, b: Seq<char>)
    requires
        amp_safe(a),
        amp_safe(b) || amp_free(b),
    ensures
        amp_safe(a + b),
{
    let ab = a + b;
    assert forall|i: int| 0 <= i < ab.len() && #[trigger] ab[i] == '&' implies i + 1 < ab.len()
        && ab[i + 1] != 'r' by {
        if i < a.len() {
            assert(a[i] == '&');
            assert(ab[i + 1] == a[i + 1]);
        } else {
            let k = i - a.len();
            assert(b[k] == '&');
            assert(ab[i + 1] == b[k + 1]);
        }
    }
}

proof fn lemma_percent_encode_amp_free(bytes: Seq<u8>)
    ensures
        amp_free(percent_encode(bytes)),
{
    lemma_percent_encode_chars(bytes);
    assert forall|i: int| 0 <= i < percent_encode(bytes).len() implies #[trigger] percent_encode(
        bytes,
    )[i] != '&' by {
        assert(is_component_char(percent_encode(bytes)[i]));
    }
}

proof fn lemma_decimal_amp_free(n: nat)
    ensures
        amp_free(decimal(n)),
    decreases n,
{
    if n >= 10 {
        lemma_decimal_amp_free(n / 10);
        let front = decimal(n / 10);
        assert forall|i: int| 0 <= i < decimal(n).len() implies #[trigger] decimal(n)[i]
            != '&' by {
            if i < front.len() {
                assert(front[i] != '&');
            }
        }
    }
}

proof fn lemma_url_base_amp_safe(
    page: nat,
    query: Seq<char>,
    categories: CategoryMask,
    purity: PurityMask,
)
    ensures
        amp_safe(url_base(page, query, categories, purity)),
{
    reveal_strlit("https://wallhaven.cc/api/v1/search?q=");
    reveal_strlit("&categories=");
    reveal_strlit("&purity=");
    reveal_strlit("&sorting=relevance&page=");
    let a = endpoint();
    assert(amp_safe(a));
    lemma_percent_encode_amp_free(encode_utf8(query));
    let b = a + percent_encode(encode_utf8(query));
    lemma_amp_safe_concat(a, percent_encode(encode_utf8(query)));
    assert(amp_safe("&categories="@));
    lemma_amp_safe_concat(b, "&categories="@);
    let c = b + "&categories="@;
    assert(amp_free(categories.bits()));
    lemma_amp_safe_concat(c, categories.bits());
    let d = c + categories.bits();
    assert(amp_safe("&purity="@));
    lemma_amp_safe_concat(d, "&purity="@);
    let e = d + "&purity="@;
    assert(amp_free(purity.bits()));
    lemma_amp_safe_concat(e, purity.bits());
    let f = e + purity.bits();
    assert(amp_safe("&sorting=relevance&page="@));
    lemma_amp_safe_concat(f, "&sorting=relevance&page="@);
    let g = f + "&sorting=relevance&page="@;
    lemma_decimal_amp_free(page);
    lemma_amp_safe_concat(g, decimal(page));
}

/// The ratio parameter is absent from the request exactly for
/// `AspectRatio::Any`. For every other ratio `&ratios=` stands in the
/// request once, right behind the page number, and the ratio's value is
/// all that follows it.
pub proof fn lemma_ratio_parameter(
    page: nat,
    query: Seq<char>,
    categories: CategoryMask,
    purity: PurityMask,
    ratio: AspectRatio,
)
    ensures
        ratio == AspectRatio::Any ==> forall|at: int|
            !occurs_at(search_url(page, query, categories, purity, ratio), "&ratios="@, at),
        ratio != AspectRatio::Any ==> forall|at: int|
            occurs_at(search_url(page, query, categories, purity, ratio), "&ratios="@, at) <==> at
                == url_base(page, query, categories, purity).len(),
        ratio != AspectRatio::Any ==> search_url(page, query, categories, purity, ratio)
            == url_base(page, query, categories, purity) + "&ratios="@ + ratio.value(),
{
    reveal_strlit("&ratios=");
    let base = url_base(page, query, categories, purity);
    let suffix = ratio_suffix(ratio);
    let url = search_url(page, query, categories, purity, ratio);
    let needle = "&ratios="@;
    lemma_url_base_amp_safe(page, query, categories, purity);
    assert forall|at: int| occurs_at(url, needle, at) implies ratio != AspectRatio::Any && at
        == base.len() by {
        let found = url.subrange(at, at + needle.len());
        assert(found[0] == '&' && found[1] == 'r');
        assert(url[at] == '&' && url[at + 1] == 'r');
        if at < base.len() {
            assert(base[at] == '&');
            assert(base[at + 1] != 'r');
            assert(url[at + 1] == base[at + 1]);
        } else {
            let k = at - base.len();
            assert(suffix[k] == '&');
            assert(ratio != AspectRatio::Any);
            assert(k == 0);
        }
    }
    if ratio != AspectRatio::Any {
        assert(url =~= base + needle + ratio.value());
        assert(url.subrange(base.len() as int, (base.len() + needle.len()) as int) =~= needle);
        assert(occurs_at(url, needle, base.len() as int));
    }
}

} // verus!
