//! The state that the display renders: the current results, their
//! thumbnails and the latest status line.

use vstd::prelude::*;
use crate::aggregate::{
    failure_message, failure_text, hits, summary_text, FetchError, Hit, ImageResult,
    SearchOutcome,
};
use crate::download::{download_status, download_status_text, saved_view, DownloadError};
use crate::raster::{Raster, RasterView};
use crate::thumbs::{bytes_view, filled, ThumbnailCache};

verus! {

/// Results, thumbnails and status of one session.
#[derive(Debug)]
pub struct Gallery {
    /// The hits of the latest search, in the order they arrived.
    pub results: Vec<ImageResult>,
    /// The thumbnails decoded for the current results.
    pub thumbnails: ThumbnailCache,
    /// The latest status line.
    pub status: String,
}

/// The results that a finished search leaves: its hits, or none where
/// it failed.
pub open spec fn installed_results(finished: Result<SearchOutcome, FetchError>) -> Seq<Hit> {
    match finished {
        Ok(outcome) => outcome@.results,
        Err(_) => Seq::empty(),
    }
}

/// The status line that a finished search leaves.
pub open spec fn installed_status(finished: Result<SearchOutcome, FetchError>) -> Seq<char> {
    match finished {
        Ok(outcome) => summary_text(
            outcome@.results.len(),
            outcome.pages_loaded as nat,
            outcome.pages_available as nat,
            outcome.per_page as nat,
        ),
        Err(e) => failure_text(e),
    }
}

impl Gallery {
    /// The thumbnail cache is well formed.
    pub open spec fn wf(&self) -> bool {
        self.thumbnails.wf()
    }

    /// A session that has searched for nothing yet.
    pub fn new() -> (gallery: Gallery)
        ensures
            gallery.wf(),
            hits(gallery.results@) == Seq::<Hit>::empty(),
            gallery.thumbnails@ == Map::<Seq<char>, RasterView>::empty(),
            gallery.status@ == Seq::<char>::empty(),
    {
        Gallery { results: Vec::new(), thumbnails: ThumbnailCache::new(), status: String::new() }
    }

    /// Installs what a search ended with. The old results are replaced
    /// as a whole and every thumbnail is dropped, whatever the search
    /// found.
    pub fn install_search(&mut self, finished: Result<SearchOutcome, FetchError>)
        requires
            old(self).wf(),
        ensures
            final(self).wf(),
            hits(final(self).results@) == installed_results(finished),
            final(self).thumbnails@ == Map::<Seq<char>, RasterView>::empty(),
            final(self).status@ == installed_status(finished),
    {
        match finished {
            Ok(outcome) => {
                self.status = outcome.summary();
                self.results = outcome.results;
            },
            Err(e) => {
                self.status = failure_message(e);
                self.results = Vec::new();
            },
        }
        self.thumbnails.clear();
    }

    /// The thumbnail held for `url`, or `None` where a fetch is due.
    pub fn thumbnail(&self, url: &str) -> (found: Option<&Raster>)
        requires
            self.wf(),
        ensures
            found is Some <==> self.thumbnails@.contains_key(url@),
            found is Some ==> found.unwrap()@ == self.thumbnails@[url@],
            found is Some ==> found.unwrap()@.wf(),
    {
        self.thumbnails.lookup(url)
    }

    /// Takes in what a thumbnail fetch brought; results and status stay.
    pub fn thumbnail_fetched(&mut self, url: &str, fetched: Option<&[u8]>) -> (ready: bool)
        requires
            old(self).wf(),
        ensures
            final(self).wf(),
            final(self).thumbnails@ == filled(old(self).thumbnails@, url@, bytes_view(fetched)),
            ready == final(self).thumbnails@.contains_key(url@),
            final(self).results == old(self).results,
            final(self).status == old(self).status,
    {
        self.thumbnails.fill(url, fetched)
    }

    /// Records how a download ended: the status line is replaced, and
    /// nothing else changes.
    pub fn download_finished(&mut self, saved: Result<&str, DownloadError>)
        ensures
            final(self).status@ == download_status_text(saved_view(saved)),
            final(self).results == old(self).results,
            final(self).thumbnails == old(self).thumbnails,
    {
        self.status = download_status(saved);
    }
}

} // verus!
