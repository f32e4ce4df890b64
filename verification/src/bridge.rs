//! The boundary operations: compile a pattern, intern a text buffer, run a
//! match, release a handle. Each reports through `BridgeError`; none ever
//! panics, so nothing here can unwind back across the boundary.

use vstd::prelude::*;
use vstd::utf8::{decode_utf8, valid_utf8};

use crate::engine::{
    engine_accepts, engine_search, engine_search_raw, span_seq_view, CompiledPattern,
    InternedText,
};
use crate::errors::BridgeError;
use crate::store::HandleStore;

verus! {

/// The host's flat offset array for one span table: one `(start, end)` pair
/// of byte offsets per capture group in group order, `(-1, -1)` in place of
/// a group that did not take part in the match.
pub open spec fn flatten_model(spans: Seq<Option<(int, int)>>) -> Seq<int> {
    Seq::new(
        2 * spans.len(),
        |k: int|
            match spans[k / 2] {
                Some(p) => if k % 2 == 0 {
                    p.0
                } else {
                    p.1
                },
                None => -1,
            },
    )
}

/// `flatten_model` lifted over "no match".
pub open spec fn flatten_opt(m: Option<Seq<Option<(int, int)>>>) -> Option<Seq<int>> {
    match m {
        Some(spans) => Some(flatten_model(spans)),
        None => None,
    }
}

/// The mathematical value of a match result as handed to the host.
pub open spec fn match_result_view(r: Option<Vec<i32>>) -> Option<Seq<int>> {
    match r {
        Some(v) => Some(v@.map_values(|x: i32| x as int)),
        None => None,
    }
}

/// Flattens one span table into the host's offset array.
pub fn flatten_offsets(spans: &Vec<Option<(usize, usize)>>) -> (r: Vec<i32>)
    requires
        forall|i: int|
            0 <= i < spans@.len() ==> match #[trigger] spans@[i] {
                Some(p) => p.0 <= 0x7fff_ffff && p.1 <= 0x7fff_ffff,
                None => true,
            },
    ensures
        r@.map_values(|x: i32| x as int) == flatten_model(span_seq_view(spans@)),
{
    let mut r: Vec<i32> = Vec::new();
    let mut i: usize = 0;
    while i < spans.len()
        invariant
            i <= spans@.len(),
            r@.len() == 2 * i,
            forall|j: int|
                0 <= j < spans@.len() ==> match #[trigger] spans@[j] {
                    Some(p) => p.0 <= 0x7fff_ffff && p.1 <= 0x7fff_ffff,
                    None => true,
                },
            forall|k: int|
                0 <= k < r@.len() ==> r@[k] as int == flatten_model(span_seq_view(spans@))[k],
        decreases spans@.len() - i,
    {
        let span: Option<(usize, usize)> = spans[i];
        match span {
            Some(p) => {
                r.push(p.0 as i32);
                r.push(p.1 as i32);
            },
            None => {
                r.push(-1);
                r.push(-1);
            },
        }
        i = i + 1;
    }
    proof {
        assert(r@.map_values(|x: i32| x as int) =~= flatten_model(span_seq_view(spans@)));
    }
    r
}

/// Compiles a pattern buffer and hands back the handle owning it.
///
/// A missing buffer is benign and yields the null handle `0`. Otherwise the
/// bytes are decoded as UTF-8 (refused with `Decode`), compiled by the
/// engine (refused with `Compile`), and on success the store takes the
/// compiled pattern and every other handle is left as it was.
pub fn create_regex(patterns: &mut HandleStore<CompiledPattern>, pattern: Option<Vec<u8>>) -> (r:
    Result<u64, BridgeError>)
    ensures
        pattern is None ==> r == Ok::<u64, BridgeError>(0u64) && *final(patterns) == *old(patterns),
        pattern matches Some(b) ==> {
            &&& !valid_utf8(b@) ==> (r matches Err(e) && e matches BridgeError::Decode(_)
                && *final(patterns) == *old(patterns))
            &&& (valid_utf8(b@) && !engine_accepts(decode_utf8(b@))) ==> (r matches Err(e)
                && e matches BridgeError::Compile(_) && *final(patterns) == *old(patterns))
            &&& (valid_utf8(b@) && engine_accepts(decode_utf8(b@))) ==> (r matches Ok(h)
                && h != 0 && !old(patterns).live(h) && final(patterns).live(h)
                && final(patterns).item(h).source_chars() == decode_utf8(b@)
                && (forall|h2: u64| h2 != h ==> final(patterns).live(h2) == old(patterns).live(h2))
                && (forall|h2: u64| h2 != h && old(patterns).live(h2)
                    ==> final(patterns).item(h2) == old(patterns).item(h2)))
        },
{
    match pattern {
        None => Ok(0),
        Some(bytes) => match crate::engine::string_from_utf8(bytes) {
            Err(m) => Err(BridgeError::Decode(m)),
            Ok(source) => match CompiledPattern::compile(source) {
                Err(m) => Err(BridgeError::Compile(m)),
                Ok(p) => Ok(patterns.create(p)),
            },
        },
    }
}

/// Interns a text buffer and hands back the handle owning the copy.
///
/// A missing buffer is benign and yields the null handle `0`. Otherwise the
/// bytes are copied out of host-managed memory and decoded as UTF-8
/// (refused with `Decode`); on success the store takes the interned text,
/// holding exactly the given bytes, and every other handle is left as it
/// was. The buffer must be short enough for 32-bit byte offsets.
pub fn create_string(texts: &mut HandleStore<InternedText>, utf8: Option<Vec<u8>>) -> (r: Result<
    u64,
    BridgeError,
>)
    requires
        utf8 matches Some(b) ==> b@.len() <= 0x7fff_ffff,
    ensures
        utf8 is None ==> r == Ok::<u64, BridgeError>(0u64) && *final(texts) == *old(texts),
        utf8 matches Some(b) ==> {
            &&& !valid_utf8(b@) ==> (r matches Err(e) && e matches BridgeError::Decode(_)
                && *final(texts) == *old(texts))
            &&& valid_utf8(b@) ==> (r matches Ok(h) && h != 0 && !old(texts).live(h)
                && final(texts).live(h) && final(texts).item(h).bytes() == b@
                && (forall|h2: u64| h2 != h ==> final(texts).live(h2) == old(texts).live(h2))
                && (forall|h2: u64| h2 != h && old(texts).live(h2)
                    ==> final(texts).item(h2) == old(texts).item(h2)))
        },
{
    match utf8 {
        None => Ok(0),
        Some(bytes) => match InternedText::intern(bytes) {
            Err(m) => Err(BridgeError::Decode(m)),
            Ok(t) => Ok(texts.create(t)),
        },
    }
}

/// Runs one engine search and flattens what it found.
///
/// Both handles must name live objects — `0` in particular never does — or
/// the call fails with `NullPatternOrString` and nothing else is promised.
/// The caller guarantees that `byte_offset` stays within the text. On
/// success the result is exactly the engine's answer for the pattern
/// source, the text, the offset and the two anchor flags: "no match", or
/// the flat offset array of the spans it reported. An intercepted engine
/// fault surfaces as `Panic`.
pub fn match_pattern(
    patterns: &HandleStore<CompiledPattern>,
    texts: &HandleStore<InternedText>,
    regex_handle: u64,
    string_handle: u64,
    byte_offset: usize,
    match_begin_position: bool,
    match_begin_string: bool,
) -> (r: Result<Option<Vec<i32>>, BridgeError>)
    requires
        (patterns.live(regex_handle) && texts.live(string_handle)) ==> byte_offset <= texts.item(
            string_handle,
        ).bytes().len(),
    ensures
        (regex_handle == 0 || string_handle == 0) ==> r == Err::<Option<Vec<i32>>, BridgeError>(
            BridgeError::NullPatternOrString,
        ),
        !(patterns.live(regex_handle) && texts.live(string_handle)) <==> r == Err::<
            Option<Vec<i32>>,
            BridgeError,
        >(BridgeError::NullPatternOrString),
        (patterns.live(regex_handle) && texts.live(string_handle)) ==> match r {
            Ok(res) => match_result_view(res) == flatten_opt(
                engine_search(
                    patterns.item(regex_handle).source_chars(),
                    texts.item(string_handle).chars(),
                    byte_offset as int,
                    match_begin_position,
                    match_begin_string,
                ),
            ),
            Err(e) => e matches BridgeError::Panic(_),
        },
{
    proof {
        patterns.lemma_null_never_live();
        texts.lemma_null_never_live();
    }
    let p = match patterns.get(regex_handle) {
        Some(p) => p,
        None => {
            return Err(BridgeError::NullPatternOrString);
        },
    };
    let t = match texts.get(string_handle) {
        Some(t) => t,
        None => {
            return Err(BridgeError::NullPatternOrString);
        },
    };
    proof {
        use_type_invariant(&*t);
    }
    match engine_search_raw(p, t, byte_offset, match_begin_position, match_begin_string) {
        Err(m) => Err(BridgeError::Panic(m)),
        Ok(None) => Ok(None),
        Ok(Some(spans)) => Ok(Some(flatten_offsets(&spans))),
    }
}

/// Destroys the object a handle owns; the handle is dead afterwards.
///
/// Releasing `0`, a handle already released, or any other dead handle fails
/// with `NullPointer` and touches nothing: release is exactly-once, and a
/// second release of the same handle is always refused, never a crash.
pub fn free<T>(store: &mut HandleStore<T>, handle: u64) -> (r: Result<(), BridgeError>)
    ensures
        handle == 0 ==> r == Err::<(), BridgeError>(BridgeError::NullPointer),
        old(store).live(handle) ==> r == Ok::<(), BridgeError>(()),
        !old(store).live(handle) ==> r == Err::<(), BridgeError>(BridgeError::NullPointer)
            && *final(store) == *old(store),
        !final(store).live(handle),
        forall|h2: u64| h2 != handle ==> final(store).live(h2) == old(store).live(h2),
        forall|h2: u64|
            h2 != handle && old(store).live(h2) ==> final(store).item(h2) == old(store).item(h2),
{
    proof {
        old(store).lemma_null_never_live();
    }
    if store.release(handle) {
        Ok(())
    } else {
        Err(BridgeError::NullPointer)
    }
}

/// A match outcome is a function of the pattern's source, the text and the
/// search arguments alone — never of which store slots or handles carry
/// them — so independent searches that share a pattern, as concurrent
/// callers do, each see exactly the answer they would see alone.
pub proof fn lemma_match_is_a_function_of_values(
    p1: CompiledPattern,
    p2: CompiledPattern,
    t1: InternedText,
    t2: InternedText,
    from: int,
    begin_position: bool,
    begin_string: bool,
)
    requires
        p1.source_chars() == p2.source_chars(),
        t1.chars() == t2.chars(),
    ensures
        flatten_opt(
            engine_search(p1.source_chars(), t1.chars(), from, begin_position, begin_string),
        ) == flatten_opt(
            engine_search(p2.source_chars(), t2.chars(), from, begin_position, begin_string),
        ),
{
}

} // verus!

