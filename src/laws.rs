use vstd::prelude::*;

use crate::backend::{DictionaryBackend, ImportError, SettingsError, Warning};
use crate::state::{import_post, import_ran_on, listed_count, set_language_post};

verus! {

/// A successful import of `n` sources grows the listing of the backend it ran
/// on by exactly `n`: the backend that was present, or the one constructed for
/// it. The listing never shrinks, and the path is the last source imported.
pub proof fn lemma_import_grows_listing<B: DictionaryBackend>(
    before: Option<B>,
    after: Option<B>,
    storage: Seq<char>,
    path: Seq<char>,
    n: usize,
    warnings: Seq<Warning>,
)
    requires
        import_post(before, after, storage, path, Ok(n), warnings),
    ensures
        after is Some,
        exists|h: B| #[trigger]
            import_ran_on(before, h, storage, warnings) && listed_count(after)
                == h.dictionary_count() + n,
        listed_count(after) >= listed_count(before) + n,
        before is Some ==> listed_count(after) == listed_count(before) + n,
        after->Some_0.imported().last() == path,
{
    let h = choose|h: B| #[trigger]
        import_ran_on(before, h, storage, warnings) && crate::state::import_result(
            h,
            after->Some_0,
            path,
            Ok(n),
        );
    assert(import_ran_on(before, h, storage, warnings) && listed_count(after) == h.dictionary_count()
        + n);
}

/// Two successful imports in a row, of `n1` and then `n2` sources, each grow
/// the listing: by exactly `n2` for the second, whose backend was present, and
/// by at least `n1` for the first. The listing never shrinks across them.
pub proof fn lemma_repeated_imports_grow_listing<B: DictionaryBackend>(
    s0: Option<B>,
    s1: Option<B>,
    s2: Option<B>,
    storage: Seq<char>,
    p1: Seq<char>,
    p2: Seq<char>,
    n1: usize,
    n2: usize,
    w1: Seq<Warning>,
    w2: Seq<Warning>,
)
    requires
        import_post(s0, s1, storage, p1, Ok(n1), w1),
        import_post(s1, s2, storage, p2, Ok(n2), w2),
    ensures
        listed_count(s1) >= listed_count(s0) + n1,
        listed_count(s2) == listed_count(s1) + n2,
        listed_count(s2) >= listed_count(s0) + n1 + n2,
{
    lemma_import_grows_listing(s0, s1, storage, p1, n1, w1);
    lemma_import_grows_listing(s1, s2, storage, p2, n2, w2);
}

/// A slot only ever goes from present to present: neither an import nor a
/// language change empties a slot that holds a backend. The slot is empty
/// after an import only when it was empty before and construction failed,
/// which the import reports as `BackendUnavailable`.
pub proof fn lemma_slot_never_emptied<B: DictionaryBackend>(
    before: Option<B>,
    after_import: Option<B>,
    storage: Seq<char>,
    path: Seq<char>,
    import_result: Result<usize, ImportError>,
    warnings: Seq<Warning>,
    after_setting: Option<B>,
    code: Seq<char>,
    setting_result: Result<(), SettingsError>,
)
    requires
        import_post(before, after_import, storage, path, import_result, warnings),
        set_language_post(before, after_setting, code, setting_result),
    ensures
        before is Some ==> after_import is Some && after_setting is Some,
        after_import is None ==> before is None && import_result == Err::<usize, ImportError>(
            ImportError::BackendUnavailable,
        ),
        after_setting is None ==> before is None,
{
}

/// One operation on the slot's content: an import, a language change, or a
/// query (search, listing, status), which only reads and leaves it as it was.
pub open spec fn step_post<B: DictionaryBackend>(before: Option<B>, after: Option<B>) -> bool {
    ||| exists|
        storage: Seq<char>,
        path: Seq<char>,
        r: Result<usize, ImportError>,
        warnings: Seq<Warning>,
    | #[trigger] import_post(before, after, storage, path, r, warnings)
    ||| exists|code: Seq<char>, r: Result<(), SettingsError>| #[trigger] set_language_post(
        before,
        after,
        code,
        r,
    )
    ||| before == after
}
/// Over any run of operations, a slot that once holds a backend holds one from
/// then on: every state of the run after a present one is present.
pub proof fn lemma_present_stays_present_over_runs<B: DictionaryBackend>(
    states: Seq<Option<B>>,
    i: int,
    j: int,
)
    requires
        forall|k: int| 0 <= k < states.len() - 1 ==> #[trigger] step_post(states[k], states[k + 1]),
        0 <= i <= j < states.len(),
        states[i] is Some,
    ensures
        states[j] is Some,
    decreases j - i,
{
    if i < j {
        lemma_present_stays_present_over_runs(states, i, j - 1);
        let k = j - 1;
        assert(step_post(states[k], states[k + 1]));
    }
}

/// A language change on an empty slot succeeds and leaves the slot empty.
pub proof fn lemma_set_language_on_empty_is_noop<B: DictionaryBackend>(
    after: Option<B>,
    code: Seq<char>,
    r: Result<(), SettingsError>,
)
    requires
        set_language_post(None, after, code, r),
    ensures
        r is Ok,
        after is None,
{
}

} // verus!
