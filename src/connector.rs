use vstd::prelude::*;

use crate::codec::CacheValue;
use crate::error::CacheError;

verus! {

/// Handles to the primary store and, if one is configured, the cache.
///
/// The library never touches the handles; it decides, step by step, what a
/// read-through does with them (see [`ReadStep`]).
#[derive(Clone, Debug)]
pub struct Connector<P, C> {
    pub primary: P,
    pub cache: Option<C>,
}

/// What a read-through asks for next.
///
/// A read starts with [`Connector::cached`]. On `ReadCache` the caller reads the
/// key from the cache and passes what came back to
/// [`Connector::on_cache_answer`]; on `QueryPrimary` it runs the fallback
/// against the primary store and passes its result to
/// [`Connector::on_primary_answer`]. On `Finish` it stores `write_back`, if
/// any, under the key (ignoring any failure to do so) and returns `result`.
#[derive(Debug)]
pub enum ReadStep<T, E> {
    ReadCache,
    QueryPrimary,
    Finish { result: Result<T, E>, write_back: Option<Vec<u8>> },
}

/// The blob that the cache answered, if it answered one.
pub open spec fn answered_blob(answer: Result<Vec<u8>, CacheError>) -> Option<Seq<u8>> {
    match answer {
        Ok(b) => Some(b@),
        Err(_) => None,
    }
}

/// The value that a cache answer stands for, if it is a hit.
pub open spec fn hit_value<T: CacheValue>(blob: Option<Seq<u8>>) -> Option<T::V> {
    match blob {
        Some(b) => T::blob_value(b),
        None => None,
    }
}

/// The first step of a read-through.
pub open spec fn is_first_step<T, E>(has_cache: bool, step: ReadStep<T, E>) -> bool {
    if has_cache {
        step is ReadCache
    } else {
        step is QueryPrimary
    }
}

/// The step after the cache answered `blob` (`None`: it answered nothing usable).
pub open spec fn is_step_after_cache<T: CacheValue, E>(blob: Option<Seq<u8>>, step: ReadStep<T, E>) -> bool {
    match hit_value::<T>(blob) {
        Some(v) => step matches ReadStep::Finish { result: Ok(t), write_back: None } && t@ == v,
        None => step is QueryPrimary,
    }
}

/// The step after the primary store answered `answer`.
pub open spec fn is_step_after_primary<T: CacheValue, E>(
    has_cache: bool,
    answer: Result<T, E>,
    step: ReadStep<T, E>,
) -> bool {
    &&& step matches ReadStep::Finish { result, write_back } && result == answer
    &&& match answer {
        Ok(v) => if has_cache {
            step->write_back matches Some(b) && T::blob_value(b@) == Some(v@)
        } else {
            step->write_back is None
        },
        Err(_) => step->write_back is None,
    }
}

impl<P, C> Connector<P, C> {
    /// Whether a cache is configured.
    pub fn has_cache(&self) -> (r: bool)
        ensures
            r == self.cache is Some,
    {
        self.cache.is_some()
    }

    /// The cache handle, or `Disabled`.
    pub fn get_cache_conn(&self) -> (r: Result<&C, CacheError>)
        ensures
            match r {
                Ok(c) => self.cache == Some(*c),
                Err(e) => self.cache is None && e is Disabled,
            },
    {
        match &self.cache {
            Some(c) => Ok(c),
            None => Err(CacheError::Disabled),
        }
    }

    /// Reads a value out of what the cache answered for its key: the cache's
    /// own error, `Codec` for a blob that is no valid entry, or the value.
    pub fn get_cached<T: CacheValue>(&self, answer: Result<Vec<u8>, CacheError>) -> (r: Result<T, CacheError>)
        ensures
            match answer {
                Ok(b) => match r {
                    Ok(v) => T::blob_value(b@) == Some(v@),
                    Err(e) => T::blob_value(b@) is None && e is Codec,
                },
                Err(e) => r == Err::<T, CacheError>(e),
            },
    {
        match answer {
            Ok(b) => T::from_blob(b.as_slice()),
            Err(e) => Err(e),
        }
    }

    /// The blob to store for `value`, or `Disabled` when no cache is configured.
    pub fn set_cache<T: CacheValue>(&self, value: &T) -> (r: Result<Vec<u8>, CacheError>)
        ensures
            match r {
                Ok(b) => self.cache is Some && T::blob_value(b@) == Some(value@),
                Err(e) => self.cache is None && e is Disabled,
            },
    {
        if self.has_cache() {
            Ok(value.to_blob())
        } else {
            Err(CacheError::Disabled)
        }
    }

    /// Starts a read-through: ask the cache first if there is one, else go
    /// straight to the primary store.
    pub fn cached<T, E>(&self) -> (r: ReadStep<T, E>)
        ensures
            is_first_step(self.cache is Some, r),
    {
        if self.has_cache() {
            ReadStep::ReadCache
        } else {
            ReadStep::QueryPrimary
        }
    }

    /// Goes on after the cache answered: a blob that decodes is a hit and
    /// finishes the read; anything else (a cache error, a corrupt blob) is a
    /// miss and goes to the primary store.
    pub fn on_cache_answer<T: CacheValue, E>(&self, answer: Result<Vec<u8>, CacheError>) -> (r: ReadStep<T, E>)
        ensures
            is_step_after_cache(answered_blob(answer), r),
    {
        match self.get_cached::<T>(answer) {
            Ok(v) => ReadStep::Finish { result: Ok(v), write_back: None },
            Err(_) => ReadStep::QueryPrimary,
        }
    }

    /// Finishes the read after the primary store answered: its answer is the
    /// result, and a value it found is written back when a cache is configured.
    pub fn on_primary_answer<T: CacheValue, E>(&self, answer: Result<T, E>) -> (r: ReadStep<T, E>)
        ensures
            is_step_after_primary(self.cache is Some, answer, r),
    {
        match answer {
            Ok(v) => {
                let write_back = match self.set_cache(&v) {
                    Ok(b) => Some(b),
                    Err(_) => None,
                };
                ReadStep::Finish { result: Ok(v), write_back }
            },
            Err(e) => ReadStep::Finish { result: Err(e), write_back: None },
        }
    }
}

/// A cache's contents: `None` when no cache is configured.
pub type CacheModel = Option<Map<Seq<char>, Seq<u8>>>;

/// What the cache answers for `key`: its blob, or nothing when no cache is
/// configured or the key is absent.
pub open spec fn cache_answer(cache: CacheModel, key: Seq<char>) -> Option<Seq<u8>> {
    match cache {
        Some(m) => if m.contains_key(key) {
            Some(m[key])
        } else {
            None
        },
        None => None,
    }
}

/// `next` is a step that may follow `step` when reading `key` through `cache`
/// from a primary store whose fallback answers `primary`.
pub open spec fn follows<T: CacheValue, E>(
    cache: CacheModel,
    key: Seq<char>,
    primary: Result<T, E>,
    step: ReadStep<T, E>,
    next: ReadStep<T, E>,
) -> bool {
    match step {
        ReadStep::ReadCache => is_step_after_cache(cache_answer(cache, key), next),
        ReadStep::QueryPrimary => is_step_after_primary(cache is Some, primary, next),
        ReadStep::Finish { .. } => false,
    }
}

/// `run` is the whole sequence of steps of a read-through of `key`, against
/// `cache` and a primary store whose fallback answers `primary`.
pub open spec fn is_read_run<T: CacheValue, E>(
    cache: CacheModel,
    key: Seq<char>,
    primary: Result<T, E>,
    run: Seq<ReadStep<T, E>>,
) -> bool {
    &&& run.len() > 0
    &&& is_first_step(cache is Some, run[0])
    &&& run.last() is Finish
    &&& forall|i: int| 0 <= i < run.len() - 1 ==> follows(cache, key, primary, #[trigger] run[i], run[i + 1])
}

/// What a finished run returns to its caller.
pub open spec fn run_result<T, E>(run: Seq<ReadStep<T, E>>) -> Result<T, E> {
    run.last()->result
}

/// Whether a run ran the fallback against the primary store.
pub open spec fn queries_primary<T, E>(run: Seq<ReadStep<T, E>>) -> bool {
    exists|i: int| 0 <= i < run.len() && #[trigger] run[i] is QueryPrimary
}

/// The cache's contents after a run, once its write-back is stored.
pub open spec fn cache_after<T, E>(cache: CacheModel, key: Seq<char>, run: Seq<ReadStep<T, E>>) -> CacheModel {
    match cache {
        Some(m) => match run.last()->write_back {
            Some(b) => Some(m.insert(key, b@)),
            None => Some(m),
        },
        None => None,
    }
}

/// Without a cache, a read-through returns exactly what the fallback returns.
pub proof fn lemma_no_cache_is_fallback<T: CacheValue, E>(
    key: Seq<char>,
    primary: Result<T, E>,
    run: Seq<ReadStep<T, E>>,
)
    requires
        is_read_run(None, key, primary, run),
    ensures
        run_result(run) == primary,
        queries_primary(run),
        cache_after(None, key, run) is None,
{
    assert(run.len() > 1);
    assert(follows(None, key, primary, run[0], run[1]));
    if run.len() > 2 {
        assert(follows(None, key, primary, run[1], run[2]));
    }
    assert(run[0] is QueryPrimary);
}

/// A cached entry that decodes is returned as it is, and the fallback is
/// never run.
pub proof fn lemma_hit_skips_primary<T: CacheValue, E>(
    m: Map<Seq<char>, Seq<u8>>,
    key: Seq<char>,
    primary: Result<T, E>,
    run: Seq<ReadStep<T, E>>,
)
    requires
        m.contains_key(key),
        T::blob_value(m[key]) is Some,
        is_read_run(Some(m), key, primary, run),
    ensures
        run_result(run) matches Ok(t) && T::blob_value(m[key]) == Some(t@),
        !queries_primary(run),
        cache_after(Some(m), key, run) == Some(m),
{
    assert(run.len() > 1);
    assert(follows(Some(m), key, primary, run[0], run[1]));
    if run.len() > 2 {
        assert(follows(Some(m), key, primary, run[1], run[2]));
    }
    assert(run.len() == 2);
    assert forall|i: int| 0 <= i < run.len() implies !(#[trigger] run[i] is QueryPrimary) by {
        if i == 1 {
            assert(run[1] is Finish);
        }
    }
}

/// On a miss the fallback runs, its result is returned, and the entry it
/// leaves behind makes the next read of the key a hit with the same value.
pub proof fn lemma_miss_fills_cache<T: CacheValue, E>(
    m: Map<Seq<char>, Seq<u8>>,
    key: Seq<char>,
    v: T,
    run: Seq<ReadStep<T, E>>,
    next_primary: Result<T, E>,
    next_run: Seq<ReadStep<T, E>>,
)
    requires
        !m.contains_key(key),
        is_read_run(Some(m), key, Ok(v), run),
        is_read_run(cache_after(Some(m), key, run), key, next_primary, next_run),
    ensures
        run_result(run) == Ok::<T, E>(v),
        queries_primary(run),
        run_result(next_run) matches Ok(t) && t@ == v@,
        !queries_primary(next_run),
{
    lemma_miss_runs_fallback(Some(m), key, Ok(v), run);
    let m2 = m.insert(key, run.last()->write_back->0@);
    assert(cache_after(Some(m), key, run) == Some(m2));
    lemma_hit_skips_primary(m2, key, next_primary, next_run);
}

/// An entry that does not decode is a miss: the fallback's result is returned
/// and, where it found a value, overwrites the entry with one that decodes.
pub proof fn lemma_corrupt_entry_is_miss<T: CacheValue, E>(
    m: Map<Seq<char>, Seq<u8>>,
    key: Seq<char>,
    junk: Seq<u8>,
    primary: Result<T, E>,
    run: Seq<ReadStep<T, E>>,
)
    requires
        T::blob_value(junk) is None,
        is_read_run(Some(m.insert(key, junk)), key, primary, run),
    ensures
        run_result(run) == primary,
        queries_primary(run),
        primary matches Ok(v) ==> cache_after(Some(m.insert(key, junk)), key, run) matches Some(m2)
            && m2.contains_key(key) && T::blob_value(m2[key]) == Some(v@),
{
    lemma_miss_runs_fallback(Some(m.insert(key, junk)), key, primary, run);
}

/// A read-through asks for the fallback at most once.
pub proof fn lemma_fallback_at_most_once<T: CacheValue, E>(
    cache: CacheModel,
    key: Seq<char>,
    primary: Result<T, E>,
    run: Seq<ReadStep<T, E>>,
    i: int,
    j: int,
)
    requires
        is_read_run(cache, key, primary, run),
        0 <= i < run.len(),
        0 <= j < run.len(),
        run[i] is QueryPrimary,
        run[j] is QueryPrimary,
    ensures
        i == j,
{
    assert(run.len() > 1);
    assert(follows(cache, key, primary, run[0], run[1]));
    if run.len() > 2 {
        assert(follows(cache, key, primary, run[1], run[2]));
    }
    if run.len() > 3 {
        assert(follows(cache, key, primary, run[2], run[3]));
    }
}

/// With a cache that holds no valid entry for the key, a run reads the cache,
/// runs the fallback and finishes with its answer.
proof fn lemma_miss_runs_fallback<T: CacheValue, E>(
    cache: CacheModel,
    key: Seq<char>,
    primary: Result<T, E>,
    run: Seq<ReadStep<T, E>>,
)
    requires
        cache is Some,
        hit_value::<T>(cache_answer(cache, key)) is None,
        is_read_run(cache, key, primary, run),
    ensures
        run.len() == 3,
        run[1] is QueryPrimary,
        is_step_after_primary(true, primary, run.last()),
        run_result(run) == primary,
        queries_primary(run),
{
    assert(run.len() > 1);
    assert(follows(cache, key, primary, run[0], run[1]));
    assert(run.len() > 2);
    assert(follows(cache, key, primary, run[1], run[2]));
    if run.len() > 3 {
        assert(follows(cache, key, primary, run[2], run[3]));
    }
    assert(run[1] is QueryPrimary);
}

} // verus!
