//! The two boundary-stable objects — compiled patterns and interned text —
//! and the trusted calls into the Oniguruma engine that work on them.
//!
//! The engine itself is outside this crate: what it accepts and what a
//! search finds are named by `engine_accepts` and `engine_search`, and the
//! wrappers below are the only places that call it.

use vstd::prelude::*;
use vstd::utf8::{decode_utf8, encode_utf8, valid_utf8};

verus! {

#[verifier::external_type_specification]
#[verifier::external_body]
pub struct ExRegex(onig::Regex);

/// Whether the engine's default syntax, with capture groups enabled,
/// accepts `pattern`. Acceptance is a function of the pattern text alone.
pub uninterp spec fn engine_accepts(pattern: Seq<char>) -> bool;

/// What one engine search finds: `None` for "no match", otherwise one byte
/// span per capture group in group order, `None` in place of a group that
/// did not take part. The search runs over the text's UTF-8 bytes from byte
/// `from`, with position anchoring and string anchoring each allowed or
/// suppressed by a flag; its outcome is a function of these values alone.
pub uninterp spec fn engine_search(
    pattern: Seq<char>,
    text: Seq<char>,
    from: int,
    begin_position: bool,
    begin_string: bool,
) -> Option<Seq<Option<(int, int)>>>;

/// A pattern compiled by the engine, with the source it was compiled from.
/// Immutable after creation; safe to read from concurrent searches.
pub struct CompiledPattern {
    regex: onig::Regex,
    source: String,
}

impl CompiledPattern {
    /// The pattern source, as the engine saw it.
    pub closed spec fn source_chars(self) -> Seq<char> {
        self.source@
    }

    /// Compiles `source` with capture groups enabled under the engine's
    /// default syntax; on failure the engine's message is handed back.
    pub fn compile(source: String) -> (r: Result<CompiledPattern, String>)
        ensures
            r is Ok <==> engine_accepts(source@),
            r matches Ok(p) ==> p.source_chars() == source@,
    {
        match engine_compile(source.as_str()) {
            Ok(regex) => Ok(CompiledPattern { regex, source }),
            Err(m) => Err(m),
        }
    }
}

/// An owned copy of a host text buffer, decoupled from host-managed memory.
/// Immutable after creation; safe to read from concurrent searches.
pub struct InternedText {
    text: String,
}

impl InternedText {
    /// The interned characters.
    pub closed spec fn chars(self) -> Seq<char> {
        self.text@
    }

    /// The interned UTF-8 bytes: the copy of the buffer the host handed in.
    pub open spec fn bytes(self) -> Seq<u8> {
        encode_utf8(self.chars())
    }

    /// Interned text is always short enough that every byte offset into it
    /// fits the host's 32-bit offset values.
    #[verifier::type_invariant]
    pub open spec fn inv(self) -> bool {
        self.bytes().len() <= 0x7fff_ffff
    }

    /// Copies `bytes` into an owned text object. The buffer must be short
    /// enough for 32-bit byte offsets; it is kept exactly as handed in, and
    /// refused with the decoder's message when it is not valid UTF-8.
    pub fn intern(bytes: Vec<u8>) -> (r: Result<InternedText, String>)
        requires
            bytes@.len() <= 0x7fff_ffff,
        ensures
            r is Ok <==> valid_utf8(bytes@),
            r matches Ok(t) ==> t.bytes() == bytes@ && t.chars() == decode_utf8(bytes@),
    {
        match string_from_utf8(bytes) {
            Ok(text) => Ok(InternedText { text }),
            Err(m) => Err(m),
        }
    }

    /// The interned buffer's byte length.
    pub fn byte_len(&self) -> (n: usize)
        ensures
            n == self.bytes().len(),
    {
        proof {
            use_type_invariant(&*self);
        }
        self.text.as_str().len()
    }
}

/// Relies on std's `String::from_utf8`: it succeeds exactly on valid UTF-8,
/// the returned string holds exactly the given bytes, and the error renders
/// a message describing the defect.
#[verifier::external_body]
pub(crate) fn string_from_utf8(bytes: Vec<u8>) -> (r: Result<String, String>)
    ensures
        r is Ok <==> valid_utf8(bytes@),
        r matches Ok(s) ==> encode_utf8(s@) == bytes@ && s@ == decode_utf8(bytes@),
{
    String::from_utf8(bytes).map_err(|e| e.to_string())
}

/// Relies on `onig::Regex::with_options` with `REGEX_OPTION_CAPTURE_GROUP`
/// and the default syntax: compilation is deterministic in the pattern
/// text, and a refusal carries the engine's description.
#[verifier::external_body]
fn engine_compile(source: &str) -> (r: Result<onig::Regex, String>)
    ensures
        r is Ok <==> engine_accepts(source@),
{
    onig::Regex::with_options(
        source,
        onig::RegexOptions::REGEX_OPTION_CAPTURE_GROUP,
        onig::Syntax::default(),
    )
    .map_err(|e| e.description().to_owned())
}

/// The mathematical value of a span table as the engine reports it.
pub open spec fn span_seq_view(spans: Seq<Option<(usize, usize)>>) -> Seq<Option<(int, int)>> {
    spans.map_values(
        |o: Option<(usize, usize)>|
            match o {
                Some(p) => Some((p.0 as int, p.1 as int)),
                None => None,
            },
    )
}

/// The mathematical value of a whole search outcome.
pub open spec fn raw_search_view(m: Option<Vec<Option<(usize, usize)>>>) -> Option<
    Seq<Option<(int, int)>>,
> {
    match m {
        Some(v) => Some(span_seq_view(v@)),
        None => None,
    }
}

/// Relies on `onig::Regex::search_with_param` and `onig::Region::pos`: one
/// search over the text's bytes in `[from, len)`, recording one byte span
/// per capture group in group order, `None` for a group that did not take
/// part; the engine's `NOT_BEGIN_POSITION` and `NOT_BEGIN_STRING` options
/// are set when the matching flag is off. The backtracking search reads the
/// given values alone, and only this module builds a `CompiledPattern` or an
/// `InternedText` — always from exactly the source and text their views
/// report — so the outcome is a function of those views and the options;
/// every reported offset is a byte index into the text. Of an engine fault
/// (`Err`) nothing is claimed beyond its message.
#[verifier::external_body]
pub(crate) fn engine_search_raw(
    pattern: &CompiledPattern,
    text: &InternedText,
    from: usize,
    begin_position: bool,
    begin_string: bool,
) -> (r: Result<Option<Vec<Option<(usize, usize)>>>, String>)
    requires
        from <= text.bytes().len(),
    ensures
        r matches Ok(m) ==> raw_search_view(m) == engine_search(
            pattern.source_chars(),
            text.chars(),
            from as int,
            begin_position,
            begin_string,
        ),
        r matches Ok(m) ==> (m matches Some(v) ==> forall|i: int|
            0 <= i < v@.len() ==> match #[trigger] v@[i] {
                Some(p) => p.0 <= text.bytes().len() && p.1 <= text.bytes().len(),
                None => true,
            }),
{
    let mut bits: u32 = 0;
    if !begin_position { bits |= onig_sys::ONIG_OPTION_NOT_BEGIN_POSITION; }
    if !begin_string { bits |= onig_sys::ONIG_OPTION_NOT_BEGIN_STRING; }
    let mut region = onig::Region::new();
    let subject = text.text.as_str();
    match pattern.regex.search_with_param(subject, from, subject.len(),
        onig::SearchOptions::from_bits_retain(bits), Some(&mut region), onig::MatchParam::default())
    {
        Ok(Some(_)) => Ok(Some((0..region.len()).map(|i| region.pos(i)).collect())),
        Ok(None) => Ok(None),
        Err(e) => Err(e.description().to_owned()),
    }
}

} // verus!
