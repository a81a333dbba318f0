use vstd::prelude::*;

use crate::backend::{DictionaryBackend, DictionarySummary, ImportError, InitError, SettingsError, Warning};
use crate::lock::{new_lock, with_read, with_write};
use crate::state::{
    configure_new, import_into, import_post, list_in, listed_count, search_in, search_post,
    set_language_in, set_language_post, status_of, status_spec, warnings_spec, SearchOutcome, Status,
};

verus! {

/// The single shared place that holds at most one backend, behind a
/// read/write lock: queries take the shared side, changes the exclusive side.
///
/// Each operation takes the lock once and releases it before returning, so no
/// operation ever holds one side of the lock while asking for the other. A
/// caller that wants to change and then observe makes two calls in turn.
#[verifier::reject_recursive_types(B)]
pub struct BackendSlot<B> {
    storage: String,
    lock: parking_lot::RwLock<Option<B>>,
}

impl<B: DictionaryBackend> BackendSlot<B> {
    /// The storage directory that backends are constructed over.
    pub closed spec fn storage_path(&self) -> Seq<char> {
        self.storage@
    }

    /// A slot with no backend yet; the first import constructs one over `storage`.
    pub fn empty(storage: String) -> (r: Self)
        ensures
            r.storage_path() == storage@,
    {
        BackendSlot { storage, lock: new_lock(None) }
    }

    /// A slot that tries at once to construct a backend over `storage`, with the
    /// default configuration. On failure the slot starts empty and the reason is
    /// returned beside it; a later import tries again.
    pub fn open(storage: String) -> (r: (Self, Result<Vec<Warning>, InitError>))
        ensures
            r.0.storage_path() == storage@,
            r.1 is Ok ==> exists|language_failed: bool, options_failed: bool|
                #[trigger] warnings_spec(language_failed, options_failed) == r.1->Ok_0@,
    {
        let (content, outcome) = match configure_new::<B>(storage.as_str()) {
            Ok(c) => (Some(c.backend), Ok(c.warnings)),
            Err(e) => (None, Err(e)),
        };
        (BackendSlot { storage, lock: new_lock(content) }, outcome)
    }

    /// The storage directory as a string.
    pub fn storage(&self) -> (r: &str)
        ensures
            r@ == self.storage_path(),
    {
        self.storage.as_str()
    }

    /// Searches under the shared lock; `Unavailable` when no backend is present.
    pub fn search_text(&self, text: &str) -> (r: SearchOutcome)
        ensures
            exists|s: Option<B>| #[trigger] search_post(s, text@, r),
    {
        with_read(
            &self.lock,
            (|s: &Option<B>| -> (r: SearchOutcome)
                ensures
                    search_post(*s, text@, r),
                { search_in(s, text) }),
        )
    }

    /// Whether a backend is present and how many dictionaries it holds, under the shared lock.
    pub fn get_status(&self) -> (r: Status)
        ensures
            exists|s: Option<B>| r == #[trigger] status_spec(s),
    {
        with_read(
            &self.lock,
            (|s: &Option<B>| -> (r: Status)
                ensures
                    r == status_spec(*s),
                { status_of(s) }),
        )
    }

    /// Summaries of the loaded dictionaries under the shared lock; none when no backend is present.
    pub fn list_dictionaries(&self) -> (r: Vec<DictionarySummary>)
        ensures
            exists|s: Option<B>| r@.len() == #[trigger] listed_count(s),
    {
        with_read(
            &self.lock,
            (|s: &Option<B>| -> (r: Vec<DictionarySummary>)
                ensures
                    r@.len() == listed_count(*s),
                { list_in(s) }),
        )
    }

    /// Imports the source at `path` under the exclusive lock, constructing and
    /// configuring a backend first when none is present. The backend's result
    /// comes back beside the warnings of a construction made here.
    pub fn import_path(&self, path: String) -> (r: (Result<usize, ImportError>, Vec<Warning>))
        ensures
            exists|before: Option<B>, after: Option<B>| #[trigger]
                import_post(before, after, self.storage_path(), path@, r.0, r.1@),
    {
        let storage = self.storage.as_str();
        let ghost path_view = path@;
        let r = with_write(
            &self.lock,
            (move |s: &mut Option<B>| -> (r: (Result<usize, ImportError>, Vec<Warning>))
                ensures
                    import_post(*old(s), *final(s), storage@, path_view, r.0, r.1@),
                { import_into(s, storage, path) }),
        );
        proof {
            assert(storage@ == self.storage_path());
        }
        r
    }

    /// Changes the language under the exclusive lock; nothing happens when no
    /// backend is present.
    pub fn set_language(&self, code: &str) -> (r: Result<(), SettingsError>)
        ensures
            exists|before: Option<B>, after: Option<B>| #[trigger] set_language_post(
                before,
                after,
                code@,
                r,
            ),
    {
        with_write(
            &self.lock,
            (|s: &mut Option<B>| -> (r: Result<(), SettingsError>)
                ensures
                    set_language_post(*old(s), *final(s), code@, r),
                { set_language_in(s, code) }),
        )
    }
}

} // verus!
