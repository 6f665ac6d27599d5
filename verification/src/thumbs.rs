//! The thumbnail cache: decoded previews, found again by their URL.

use vstd::prelude::*;
use crate::raster::{decoded, raster_option_view, Raster, RasterView};
use crate::text::same_text;

verus! {

#[derive(Debug)]
struct CacheEntry {
    url: String,
    image: Raster,
}

/// Decoded thumbnails by URL. An entry is made the first time a
/// thumbnail arrives and stays until the whole cache is cleared.
#[derive(Debug)]
pub struct ThumbnailCache {
    entries: Vec<CacheEntry>,
}

/// The cache after a fetch for `url` came back: a new entry where the
/// bytes arrived and decode, else the cache as it was.
pub open spec fn filled(
    cache: Map<Seq<char>, RasterView>,
    url: Seq<char>,
    fetched: Option<Seq<u8>>,
) -> Map<Seq<char>, RasterView> {
    match fetched {
        Some(bytes) => stored(cache, url, decoded(bytes)),
        None => cache,
    }
}

/// The cache after a decode for `url` came back.
pub open spec fn stored(
    cache: Map<Seq<char>, RasterView>,
    url: Seq<char>,
    image: Option<RasterView>,
) -> Map<Seq<char>, RasterView> {
    match image {
        Some(r) => cache.insert(url, r),
        None => cache,
    }
}

/// Fetched bytes as a plain value.
pub open spec fn bytes_view(fetched: Option<&[u8]>) -> Option<Seq<u8>> {
    match fetched {
        Some(bytes) => Some(bytes@),
        None => None,
    }
}

spec fn holds_at(entries: Seq<CacheEntry>, url: Seq<char>, i: int) -> bool {
    0 <= i < entries.len() && entries[i].url@ == url
}

spec fn model(entries: Seq<CacheEntry>) -> Map<Seq<char>, RasterView> {
    Map::new(
        |url: Seq<char>| exists|i: int| holds_at(entries, url, i),
        |url: Seq<char>| entries[choose|i: int| holds_at(entries, url, i)].image@,
    )
}

spec fn sound(entries: Seq<CacheEntry>) -> bool {
    forall|i: int| 0 <= i < entries.len() ==> (#[trigger] entries[i]).image@.wf()
}

spec fn distinct(entries: Seq<CacheEntry>) -> bool {
    forall|i: int, j: int|
        0 <= i < entries.len() && 0 <= j < entries.len() && entries[i].url@ == entries[j].url@
            ==> i == j
}

impl View for ThumbnailCache {
    type V = Map<Seq<char>, RasterView>;

    closed spec fn view(&self) -> Map<Seq<char>, RasterView> {
        model(self.entries@)
    }
}

impl ThumbnailCache {
    /// No URL is held twice, and every image held has the pixels that
    /// its dimensions announce.
    pub closed spec fn wf(&self) -> bool {
        distinct(self.entries@) && sound(self.entries@)
    }

    /// An empty cache.
    pub fn new() -> (cache: ThumbnailCache)
        ensures
            cache.wf(),
            cache@ == Map::<Seq<char>, RasterView>::empty(),
    {
        let cache = ThumbnailCache { entries: Vec::new() };
        assert(cache@ =~= Map::<Seq<char>, RasterView>::empty());
        cache
    }

    fn position(&self, url: &str) -> (at: Option<usize>)
        ensures
            match at {
                Some(i) => holds_at(self.entries@, url@, i as int),
                None => forall|i: int| !holds_at(self.entries@, url@, i),
            },
    {
        let mut i: usize = 0;
        while i < self.entries.len()
            invariant
                i <= self.entries.len(),
                forall|k: int| 0 <= k < i ==> !holds_at(self.entries@, url@, k),
            decreases self.entries.len() - i,
        {
            if same_text(self.entries[i].url.as_str(), url) {
                return Some(i);
            }
            i = i + 1;
        }
        None
    }

    /// The thumbnail held for `url`, or `None` where none is held yet and
    /// a fetch is due.
    pub fn lookup(&self, url: &str) -> (found: Option<&Raster>)
        requires
            self.wf(),
        ensures
            found is Some <==> self@.contains_key(url@),
            found is Some ==> found.unwrap()@ == self@[url@],
            found is Some ==> found.unwrap()@.wf(),
    {
        match self.position(url) {
            Some(i) => {
                assert(holds_at(self.entries@, url@, i as int));
                Some(&self.entries[i].image)
            },
            None => None,
        }
    }

    /// How many thumbnails are held.
    pub fn len(&self) -> (n: usize)
        requires
            self.wf(),
        ensures
            n == self@.dom().len(),
            self@.dom().finite(),
    {
        proof {
            lemma_model_size(self.entries@);
        }
        self.entries.len()
    }

    /// Takes in the answer of a decode for `url`: a decoded image becomes
    /// the entry for `url`; a failed decode leaves no trace, so that a
    /// later request fetches again.
    pub fn store(&mut self, url: &str, image: Option<Raster>)
        requires
            old(self).wf(),
            image is Some ==> image.unwrap()@.wf(),
        ensures
            final(self).wf(),
            final(self)@ == stored(old(self)@, url@, raster_option_view(image)),
    {
        match image {
            None => {},
            Some(img) => {
                let ghost before = self.entries@;
                let entry = CacheEntry { url: String::from_str(url), image: img };
                match self.position(url) {
                    Some(i) => {
                        proof {
                            lemma_replaced(before, i as int, entry);
                        }
                        self.entries.set(i, entry);
                    },
                    None => {
                        proof {
                            lemma_pushed(before, entry);
                        }
                        self.entries.push(entry);
                    },
                }
            },
        }
    }

    /// Takes in what a fetch for `url` brought: bytes that decode become
    /// the entry for `url`; a failed fetch or decode leaves the cache as
    /// it was. Says whether a thumbnail for `url` is now held.
    pub fn fill(&mut self, url: &str, fetched: Option<&[u8]>) -> (ready: bool)
        requires
            old(self).wf(),
        ensures
            final(self).wf(),
            final(self)@ == filled(old(self)@, url@, bytes_view(fetched)),
            ready == final(self)@.contains_key(url@),
    {
        match fetched {
            Some(bytes) => {
                let image = Raster::decode(bytes);
                self.store(url, image);
            },
            None => {},
        }
        self.lookup(url).is_some()
    }

    /// Drops every entry.
    pub fn clear(&mut self)
        requires
            old(self).wf(),
        ensures
            final(self).wf(),
            final(self)@ == Map::<Seq<char>, RasterView>::empty(),
    {
        self.entries.clear();
        assert(self@ =~= Map::<Seq<char>, RasterView>::empty());
    }
}

proof fn lemma_replaced(before: Seq<CacheEntry>, at: int, entry: CacheEntry)
    requires
        distinct(before),
        sound(before),
        holds_at(before, entry.url@, at),
        entry.image@.wf(),
    ensures
        distinct(before.update(at, entry)),
        sound(before.update(at, entry)),
        model(before.update(at, entry)) == model(before).insert(entry.url@, entry.image@),
{
    let after = before.update(at, entry);
    let url = entry.url@;
    assert forall|k: Seq<char>, j: int| holds_at(after, k, j) == holds_at(before, k, j) by {}
    assert forall|j: int| 0 <= j < after.len() implies (#[trigger] after[j]).image@.wf() by {
        if j != at {
            assert(before[j].image@.wf());
        }
    }
    assert forall|k: Seq<char>| #[trigger]
        model(after).contains_key(k) == model(before).insert(url, entry.image@).contains_key(
            k,
        ) by {
        if k == url {
            assert(holds_at(after, k, at));
        }
    }
    assert forall|k: Seq<char>| model(after).contains_key(k) implies model(after)[k] == model(
        before,
    ).insert(url, entry.image@)[k] by {
        let a = choose|j: int| holds_at(after, k, j);
        let b = choose|j: int| holds_at(before, k, j);
        assert(holds_at(before, k, a));
        assert(a == b);
    }
    assert(model(after) =~= model(before).insert(url, entry.image@));
}

proof fn lemma_pushed(before: Seq<CacheEntry>, entry: CacheEntry)
    requires
        distinct(before),
        sound(before),
        forall|i: int| !holds_at(before, entry.url@, i),
        entry.image@.wf(),
    ensures
        distinct(before.push(entry)),
        sound(before.push(entry)),
        model(before.push(entry)) == model(before).insert(entry.url@, entry.image@),
{
    let after = before.push(entry);
    let url = entry.url@;
    let n = before.len() as int;
    assert(holds_at(after, url, n));
    assert forall|k: Seq<char>, j: int| holds_at(before, k, j) implies holds_at(after, k, j) by {}
    assert forall|i: int, j: int|
        0 <= i < after.len() && 0 <= j < after.len() && after[i].url@ == after[j].url@ implies i
        == j by {
        if i == n && j < n {
            assert(holds_at(before, url, j));
        }
        if j == n && i < n {
            assert(holds_at(before, url, i));
        }
        if i < n && j < n {
            assert(before[i].url@ == before[j].url@);
        }
    }
    assert forall|j: int| 0 <= j < after.len() implies (#[trigger] after[j]).image@.wf() by {
        if j < n {
            assert(before[j].image@.wf());
        }
    }
    assert forall|k: Seq<char>| #[trigger]
        model(after).contains_key(k) == model(before).insert(url, entry.image@).contains_key(
            k,
        ) by {
        if model(after).contains_key(k) && k != url {
            let a = choose|j: int| holds_at(after, k, j);
            assert(holds_at(before, k, a));
        }
        if model(before).contains_key(k) {
            let b = choose|j: int| holds_at(before, k, j);
            assert(holds_at(after, k, b));
        }
    }
    assert forall|k: Seq<char>| model(after).contains_key(k) implies model(after)[k] == model(
        before,
    ).insert(url, entry.image@)[k] by {
        let a = choose|j: int| holds_at(after, k, j);
        if k == url {
            assert(a == n);
        } else {
            let b = choose|j: int| holds_at(before, k, j);
            assert(holds_at(before, k, a));
            assert(holds_at(after, k, b));
            assert(a == b);
        }
    }
    assert(model(after) =~= model(before).insert(url, entry.image@));
}

proof fn lemma_model_size(entries: Seq<CacheEntry>)
    requires
        distinct(entries),
    ensures
        model(entries).dom().finite(),
        model(entries).dom().len() == entries.len(),
    decreases entries.len(),
{
    if entries.len() == 0 {
        assert(model(entries).dom() =~= Set::<Seq<char>>::empty());
    } else {
        let front = entries.drop_last();
        let last = entries.last();
        lemma_model_size(front);
        assert forall|k: Seq<char>| model(front).dom().insert(last.url@).contains(k) == model(
            entries,
        ).dom().contains(k) by {
            if model(front).dom().contains(k) {
                let i = choose|i: int| holds_at(front, k, i);
                assert(holds_at(entries, k, i));
            }
            if k == last.url@ {
                assert(holds_at(entries, k, entries.len() - 1));
            }
            if model(entries).dom().contains(k) && k != last.url@ {
                let i = choose|i: int| holds_at(entries, k, i);
                assert(holds_at(front, k, i));
            }
        }
        assert(model(entries).dom() =~= model(front).dom().insert(last.url@));
        if model(front).dom().contains(last.url@) {
            let i = choose|i: int| holds_at(front, last.url@, i);
            assert(holds_at(entries, last.url@, i));
            assert(entries[i].url@ == entries[entries.len() - 1].url@);
        }
    }
}

/// A thumbnail that arrived and decoded is held from then on, whatever
/// is fetched for this or another URL afterwards: no second fetch falls
/// due before the cache is cleared.
pub proof fn lemma_held_until_cleared(
    cache: Map<Seq<char>, RasterView>,
    url: Seq<char>,
    bytes: Seq<u8>,
    other: Seq<char>,
    fetched: Option<Seq<u8>>,
)
    requires
        decoded(bytes) is Some,
    ensures
        filled(cache, url, Some(bytes)).contains_key(url),
        filled(cache, url, Some(bytes))[url] == decoded(bytes).unwrap(),
        filled(filled(cache, url, Some(bytes)), other, fetched).contains_key(url),
        other != url ==> filled(filled(cache, url, Some(bytes)), other, fetched)[url] == decoded(
            bytes,
        ).unwrap(),
{
}

/// A fetch that failed, or whose bytes are no image, leaves the cache
/// as it was: no entry records the failure.
pub proof fn lemma_failure_leaves_no_entry(
    cache: Map<Seq<char>, RasterView>,
    url: Seq<char>,
    fetched: Option<Seq<u8>>,
)
    requires
        fetched is None || decoded(fetched.unwrap()) is None,
    ensures
        filled(cache, url, fetched) == cache,
{
}

} // verus!
