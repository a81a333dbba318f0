use vstd::prelude::*;

use crate::backend::{
    BackendError, DictionaryBackend, DictionarySummary, ImportError, InitError, SettingsError,
    Warning,
};

verus! {

/// The language applied to every newly constructed backend.
pub const DEFAULT_LANGUAGE: &'static str = "es";

/// What a search hands back to the caller.
#[derive(Debug)]
pub enum SearchOutcome {
    /// The backend ran the query and found these entries (never empty).
    Results(Vec<String>),
    /// The backend ran the query and nothing matched.
    Empty,
    /// No backend is present.
    Unavailable,
}

/// What the status surface shows.
#[derive(Clone, Copy, Debug, PartialEq, Eq, Structural)]
pub struct Status {
    pub active: bool,
    pub dictionary_count: usize,
}

/// A freshly constructed backend with the default configuration applied,
/// and the problems met while applying it.
pub struct Configured<B> {
    pub backend: B,
    pub warnings: Vec<Warning>,
}

/// How many dictionaries a slot lists: none when it is empty.
pub open spec fn listed_count<B: DictionaryBackend>(slot: Option<B>) -> nat {
    match slot {
        Some(b) => b.dictionary_count(),
        None => 0,
    }
}

/// The warnings that the two steps of the default configuration give.
pub open spec fn warnings_spec(language_failed: bool, options_failed: bool) -> Seq<Warning> {
    let first = if language_failed { seq![Warning::LanguageNotApplied] } else { seq![] };
    if options_failed { first.push(Warning::OptionsNotRecomputed) } else { first }
}

/// The rendered form of a list of entries.
pub open spec fn rendered(entries: Seq<String>) -> Seq<Seq<char>> {
    entries.map_values(|e: String| e@)
}

/// What a search of `text` on `slot` returns: `Unavailable` exactly when the
/// slot is empty; otherwise the backend's entries for `text`, as `Results`
/// when there are some and `Empty` when there are none.
pub open spec fn search_post<B: DictionaryBackend>(
    slot: Option<B>,
    text: Seq<char>,
    r: SearchOutcome,
) -> bool {
    match slot {
        None => r is Unavailable,
        Some(b) => {
            &&& (r is Empty <==> b.lookup(text).len() == 0)
            &&& (r is Results ==> r->Results_0@.len() > 0 && rendered(r->Results_0@) == b.lookup(
                text,
            ))
            &&& !(r is Unavailable)
        },
    }
}

/// `h` is a backend freshly constructed over `storage`, with the default
/// configuration applied and `warnings` reporting what of it failed: unless
/// the language step is reported, the language is the default one.
pub open spec fn configured_from<B: DictionaryBackend>(
    h: B,
    storage: Seq<char>,
    warnings: Seq<Warning>,
) -> bool {
    &&& h.storage() == storage
    &&& exists|language_failed: bool, options_failed: bool| #[trigger]
        warnings_spec(language_failed, options_failed) == warnings
    &&& (!warnings.contains(Warning::LanguageNotApplied) ==> h.language() == DEFAULT_LANGUAGE@)
}

/// The backend `h` that an import on `before` runs on: the one present, or,
/// on an empty slot, one freshly constructed over `storage` and configured,
/// with `warnings` from that configuration.
pub open spec fn import_ran_on<B: DictionaryBackend>(
    before: Option<B>,
    h: B,
    storage: Seq<char>,
    warnings: Seq<Warning>,
) -> bool {
    match before {
        Some(b) => h == b && warnings.len() == 0,
        None => configured_from(h, storage, warnings),
    }
}

/// `after` is what the backend's import of `[path]` made of `h`, returning `r`:
/// storage and language kept, and on `Ok(n)` the path imported and `n` more
/// dictionaries held.
pub open spec fn import_result<B: DictionaryBackend>(
    h: B,
    after: B,
    path: Seq<char>,
    r: Result<usize, ImportError>,
) -> bool {
    &&& after.storage() == h.storage()
    &&& after.language() == h.language()
    &&& r != Err::<usize, ImportError>(ImportError::BackendUnavailable)
    &&& (r is Ok ==> after.imported() == h.imported().push(path))
    &&& (r is Ok ==> after.dictionary_count() == h.dictionary_count() + r->Ok_0)
}

/// What an import of `path` on `before` may leave behind and return.
///
/// The slot ends up empty exactly when the import reports `BackendUnavailable`,
/// which only happens on an empty slot whose construction failed. Otherwise the
/// backend's import ran on the present backend, or on a freshly constructed and
/// configured one, and its result is returned as it came.
pub open spec fn import_post<B: DictionaryBackend>(
    before: Option<B>,
    after: Option<B>,
    storage: Seq<char>,
    path: Seq<char>,
    r: Result<usize, ImportError>,
    warnings: Seq<Warning>,
) -> bool {
    &&& (before is Some ==> after is Some)
    &&& ((after is None) == (r == Err::<usize, ImportError>(ImportError::BackendUnavailable)))
    &&& (after is None ==> warnings.len() == 0)
    &&& (after is Some ==> exists|h: B| #[trigger]
        import_ran_on(before, h, storage, warnings) && import_result(
            h,
            after->Some_0,
            path,
            r,
        ))
}

/// The result of a language change from the results of its two backend calls;
/// `options` is `None` when the recompute was skipped.
pub open spec fn settings_spec(
    language: Result<(), BackendError>,
    options: Option<Result<(), BackendError>>,
) -> Result<(), SettingsError> {
    if language is Err {
        Err(SettingsError::ApplyFailed)
    } else if options matches Some(Err(_)) {
        Err(SettingsError::RecomputeFailed)
    } else {
        Ok(())
    }
}

/// What a language change to `code` on `before` may leave behind and return.
///
/// On an empty slot it succeeds and changes nothing. On a present backend the
/// backend stays with its storage, imports and dictionaries; the language is
/// `code` unless the backend refused it (`ApplyFailed`), in which case it is
/// unchanged.
pub open spec fn set_language_post<B: DictionaryBackend>(
    before: Option<B>,
    after: Option<B>,
    code: Seq<char>,
    r: Result<(), SettingsError>,
) -> bool {
    match before {
        None => r is Ok && after is None,
        Some(b) => {
            &&& after is Some
            &&& after->Some_0.storage() == b.storage()
            &&& after->Some_0.imported() == b.imported()
            &&& after->Some_0.dictionary_count() == b.dictionary_count()
            &&& (r == Err::<(), SettingsError>(SettingsError::ApplyFailed) ==> after->Some_0.language()
                == b.language())
            &&& (r != Err::<(), SettingsError>(SettingsError::ApplyFailed) ==> after->Some_0.language()
                == code)
        },
    }
}

/// The status that `slot` shows.
pub open spec fn status_spec<B: DictionaryBackend>(slot: Option<B>) -> Status {
    Status { active: slot is Some, dictionary_count: listed_count(slot) as usize }
}

/// Turns a backend's entries into an outcome: `Empty` when there are none.
pub fn outcome_of(entries: Vec<String>) -> (r: SearchOutcome)
    ensures
        entries@.len() == 0 ==> r is Empty,
        entries@.len() > 0 ==> r == SearchOutcome::Results(entries),
{
    if entries.len() == 0 {
        SearchOutcome::Empty
    } else {
        SearchOutcome::Results(entries)
    }
}

/// The warnings for the two steps of the default configuration, from their results.
pub fn default_warnings(
    language: &Result<(), BackendError>,
    options: &Result<(), BackendError>,
) -> (r: Vec<Warning>)
    ensures
        r@ == warnings_spec(language is Err, options is Err),
{
    let mut warnings: Vec<Warning> = Vec::new();
    if language.is_err() {
        warnings.push(Warning::LanguageNotApplied);
    }
    if options.is_err() {
        warnings.push(Warning::OptionsNotRecomputed);
    }
    warnings
}

/// The result of a language change from the results of its two backend calls;
/// `options` is `None` when the recompute was skipped.
pub fn settings_outcome(
    language: &Result<(), BackendError>,
    options: &Option<Result<(), BackendError>>,
) -> (r: Result<(), SettingsError>)
    ensures
        r == settings_spec(*language, *options),
{
    if language.is_err() {
        return Err(SettingsError::ApplyFailed);
    }
    match options {
        Some(Err(_)) => Err(SettingsError::RecomputeFailed),
        _ => Ok(()),
    }
}

/// Constructs a backend over `storage` and applies the default configuration:
/// the default language, then an options recompute. Both steps are attempted;
/// their failures come back as warnings, and do not fail the construction.
pub fn configure_new<B: DictionaryBackend>(storage: &str) -> (r: Result<Configured<B>, InitError>)
    ensures
        r is Ok ==> configured_from(r->Ok_0.backend, storage@, r->Ok_0.warnings@),
{
    match B::construct(storage) {
        Err(e) => Err(e),
        Ok(b) => {
            let mut backend = b;
            let language = backend.set_language(DEFAULT_LANGUAGE);
            let options = backend.update_options();
            let warnings = default_warnings(&language, &options);
            proof {
                assert(warnings_spec(language is Err, options is Err) == warnings@);
                if language is Err {
                    assert(warnings@[0] == Warning::LanguageNotApplied);
                }
            }
            Ok(Configured { backend, warnings })
        },
    }
}

/// Searches the slot's backend. An empty slot gives `Unavailable`, and no
/// construction is attempted.
pub fn search_in<B: DictionaryBackend>(slot: &Option<B>, text: &str) -> (r: SearchOutcome)
    ensures
        search_post(*slot, text@, r),
{
    match slot {
        Some(b) => {
            let entries = b.search(text);
            proof {
                assert(rendered(entries@).len() == entries@.len());
            }
            outcome_of(entries)
        },
        None => SearchOutcome::Unavailable,
    }
}

/// Imports the source at `path`. An empty slot first gets a backend constructed
/// over `storage` and configured, once; if that fails the slot stays empty and
/// the import reports `BackendUnavailable`. The backend's own result is
/// returned unchanged, beside the warnings of a construction made here.
pub fn import_into<B: DictionaryBackend>(
    slot: &mut Option<B>,
    storage: &str,
    path: String,
) -> (r: (Result<usize, ImportError>, Vec<Warning>))
    ensures
        import_post(*old(slot), *final(slot), storage@, path@, r.0, r.1@),
{
    let mut warnings: Vec<Warning> = Vec::new();
    if slot.is_none() {
        match configure_new::<B>(storage) {
            Ok(c) => {
                *slot = Some(c.backend);
                warnings = c.warnings;
            },
            Err(_) => {
                return (Err(ImportError::BackendUnavailable), warnings);
            },
        }
    }
    let ghost h = (*slot)->Some_0;
    let ghost path_view = path@;
    let paths = vec![path];
    let result = match slot {
        Some(b) => b.import_dictionaries(&paths),
        None => Err(ImportError::BackendUnavailable),
    };
    proof {
        assert(paths@.map_values(|p: String| p@) =~= seq![path_view]);
        assert(import_ran_on(*old(slot), h, storage@, warnings@));
        assert(result is Ok ==> (*slot)->Some_0.imported() =~= h.imported().push(path_view));
        assert(import_result(h, (*slot)->Some_0, path_view, result));
    }
    (result, warnings)
}

/// Sets the language and then recomputes the options. If setting the language
/// fails the recompute is skipped. An empty slot is left alone and the call succeeds.
pub fn set_language_in<B: DictionaryBackend>(slot: &mut Option<B>, code: &str) -> (r: Result<
    (),
    SettingsError,
>)
    ensures
        set_language_post(*old(slot), *final(slot), code@, r),
{
    match slot {
        Some(b) => {
            let language = b.set_language(code);
            let options = if language.is_ok() {
                Some(b.update_options())
            } else {
                None
            };
            settings_outcome(&language, &options)
        },
        None => Ok(()),
    }
}

/// Summaries of the dictionaries in the slot; none when it is empty.
pub fn list_in<B: DictionaryBackend>(slot: &Option<B>) -> (r: Vec<DictionarySummary>)
    ensures
        r@.len() == listed_count(*slot),
{
    match slot {
        Some(b) => b.list_dictionaries(),
        None => Vec::new(),
    }
}

/// Whether a backend is present, and how many dictionaries it holds.
pub fn status_of<B: DictionaryBackend>(slot: &Option<B>) -> (r: Status)
    ensures
        r == status_spec(*slot),
{
    let count = list_in(slot).len();
    Status { active: slot.is_some(), dictionary_count: count }
}

} // verus!
