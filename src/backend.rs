use vstd::prelude::*;

verus! {

/// One dictionary that a backend has loaded, as shown to the user.
#[derive(Clone, Debug)]
pub struct DictionarySummary {
    pub title: String,
    pub revision: String,
}

/// Why a backend could not be constructed.
#[derive(Clone, Copy, Debug, PartialEq, Eq, Structural)]
pub enum InitError {
    /// The storage directory lacks the files the engine needs (the usual case on a first run).
    MissingFiles,
    /// Any other failure inside the engine.
    Internal,
}

/// Why an import did not complete.
#[derive(Clone, Copy, Debug, PartialEq, Eq, Structural)]
pub enum ImportError {
    /// The path does not name an importable source.
    BadPath,
    /// The source was found but could not be parsed.
    ParseFailure,
    /// No backend is present and constructing one failed.
    BackendUnavailable,
}

/// A failed call on a backend (setting the language, recomputing its options).
#[derive(Clone, Copy, Debug, PartialEq, Eq, Structural)]
pub struct BackendError;

/// Why a language change was not fully applied.
#[derive(Clone, Copy, Debug, PartialEq, Eq, Structural)]
pub enum SettingsError {
    /// The backend refused the language; nothing changed.
    ApplyFailed,
    /// The language was set, but recomputing the options failed afterwards.
    RecomputeFailed,
}

/// A non-fatal problem met while applying the default configuration to a new backend.
#[derive(Clone, Copy, Debug, PartialEq, Eq, Structural)]
pub enum Warning {
    LanguageNotApplied,
    OptionsNotRecomputed,
}

/// The capability surface of a dictionary engine bound to a storage directory.
///
/// The engine itself lives outside this library; implementors provide it.
/// The spec functions model the parts of an engine's state that the slot's
/// operations speak of: the storage directory it was built over, the sources it
/// imported, how many dictionaries it holds, the language that is set, and what
/// a lookup finds.
///
/// The spec functions have default bodies only so that an implementation that
/// Verus does not check can leave them out; code generic over the trait never
/// sees those bodies. Everything the library proves about counts, languages,
/// storage, imports and lookups holds of an implementation only where it defines
/// these spec functions and meets the contracts below with them.
pub trait DictionaryBackend: Sized {
    /// Number of dictionaries the engine currently holds.
    open spec fn dictionary_count(&self) -> nat {
        0
    }

    /// The language code currently set on the engine.
    open spec fn language(&self) -> Seq<char> {
        Seq::empty()
    }

    /// The storage directory the engine was built over.
    open spec fn storage(&self) -> Seq<char> {
        Seq::empty()
    }

    /// The sources the engine has imported, in order.
    open spec fn imported(&self) -> Seq<Seq<char>> {
        Seq::empty()
    }

    /// The rendered entries that a lookup of `query` finds.
    open spec fn lookup(&self, query: Seq<char>) -> Seq<Seq<char>> {
        Seq::empty()
    }

    /// Builds an engine over the given storage directory.
    fn construct(storage: &str) -> (r: Result<Self, InitError>)
        ensures
            r is Ok ==> r->Ok_0.storage() == storage@,
    ;

    /// Looks up `query`; each entry is one rendered match.
    fn search(&self, query: &str) -> (r: Vec<String>)
        ensures
            r@.map_values(|e: String| e@) == self.lookup(query@),
    ;

    /// Imports the dictionaries found at `paths`; `Ok(n)` reports `n` newly loaded ones.
    fn import_dictionaries(&mut self, paths: &Vec<String>) -> (r: Result<usize, ImportError>)
        ensures
            final(self).storage() == old(self).storage(),
            final(self).language() == old(self).language(),
            r is Ok ==> final(self).dictionary_count() == old(self).dictionary_count() + r->Ok_0,
            r is Ok ==> final(self).imported() == old(self).imported() + paths@.map_values(
                |p: String| p@,
            ),
            r != Err::<usize, ImportError>(ImportError::BackendUnavailable),
    ;

    /// Sets the language; on success the engine's language is `code`, on
    /// failure it is unchanged.
    fn set_language(&mut self, code: &str) -> (r: Result<(), BackendError>)
        ensures
            final(self).dictionary_count() == old(self).dictionary_count(),
            final(self).storage() == old(self).storage(),
            final(self).imported() == old(self).imported(),
            r is Ok ==> final(self).language() == code@,
            r is Err ==> final(self).language() == old(self).language(),
    ;

    /// Recomputes the engine's options from its current settings.
    fn update_options(&mut self) -> (r: Result<(), BackendError>)
        ensures
            final(self).dictionary_count() == old(self).dictionary_count(),
            final(self).language() == old(self).language(),
            final(self).storage() == old(self).storage(),
            final(self).imported() == old(self).imported(),
    ;

    /// Summaries of every dictionary the engine holds.
    fn list_dictionaries(&self) -> (r: Vec<DictionarySummary>)
        ensures
            r.len() == self.dictionary_count(),
    ;
}

} // verus!
