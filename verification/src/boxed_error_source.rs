//! A boxed error record for smaller error type sizes.
//!
//! Whatever error it was made from, a [`BoxedErrorSource`] is one pointer to
//! one record on the heap: the error's display text, the display texts of its
//! chain of causes, nearest first, and the backtrace that was captured when
//! the record was built, if any.
//!
//! The two wire forms differ in what they keep, on purpose. The structured
//! form may carry the whole record. The fixed-layout form carries the display
//! text alone, as a length-prefixed UTF-8 string: no byte-for-byte check can
//! vouch for an arbitrary chain of causes, so what is decoded from it is a
//! text-only record without cause and without backtrace.

use vstd::bytes::*;
use vstd::prelude::*;
use vstd::slice::*;
use vstd::utf8::*;

use crate::error::ArchiveError;

verus! {

/// What a [`BoxedErrorSource`] points to.
#[derive(Debug, Clone, PartialEq, Eq)]
struct ErrorRecord {
    message: String,
    causes: Vec<String>,
    backtrace: Option<String>,
}

/// A boxed error record for smaller error type sizes.
///
/// The record lives in a `Box`, which keeps error types that contain this one
/// small: it takes one pointer, however large the error was that it came
/// from.
#[derive(Debug, Clone, PartialEq, Eq)]
pub struct BoxedErrorSource {
    inner: Box<ErrorRecord>,
}

/// What a record holds, as mathematical values.
pub struct ErrorView {
    /// The display text of the error.
    pub display: Seq<char>,
    /// The display texts of the chain of causes, the immediate cause first.
    pub causes: Seq<Seq<char>>,
    /// The text of the backtrace captured with the record, if one was.
    pub backtrace: Option<Seq<char>>,
}

impl ErrorView {
    /// The immediate cause as a record of its own: it displays as the first
    /// text of the chain and has the rest of the chain as its causes. A
    /// backtrace belongs to the record it was captured with, so the cause has
    /// none.
    pub open spec fn source(self) -> Option<ErrorView> {
        if self.causes.len() == 0 {
            None
        } else {
            Some(
                ErrorView {
                    display: self.causes[0],
                    causes: self.causes.subrange(1, self.causes.len() as int),
                    backtrace: None,
                },
            )
        }
    }

    /// The view of a record with a display text and nothing else.
    pub open spec fn text_only(display: Seq<char>) -> ErrorView {
        ErrorView { display, causes: Seq::empty(), backtrace: None }
    }

    /// The chain of causes of an error whose immediate cause is `source`.
    pub open spec fn chain(source: Option<ErrorView>) -> Seq<Seq<char>> {
        match source {
            Some(cause) => seq![cause.display] + cause.causes,
            None => Seq::empty(),
        }
    }
}

/// The text a backtrace option holds.
pub open spec fn backtrace_view(backtrace: Option<String>) -> Option<Seq<char>> {
    match backtrace {
        Some(text) => Some(text@),
        None => None,
    }
}

/// The texts that a vector of strings holds.
pub open spec fn texts_view(texts: Seq<String>) -> Seq<Seq<char>> {
    Seq::new(texts.len(), |i: int| texts[i]@)
}

/// Width in bytes of the length that precedes the text in the fixed layout.
pub const LENGTH_PREFIX: usize = 8;

/// The fixed-layout form of a display text: the length in bytes of its UTF-8
/// form, as eight little-endian bytes, and then that UTF-8 form.
pub open spec fn spec_archive(text: Seq<char>) -> Seq<u8> {
    spec_u64_to_le_bytes(encode_utf8(text).len() as u64) + encode_utf8(text)
}

/// What decoding a buffer as a fixed-layout text yields.
///
/// A buffer too short to hold the length is truncated. A length that is not
/// the number of bytes that follow it is a malformed length field, and bytes
/// that are not UTF-8 are a malformed text field.
pub open spec fn spec_from_archive(buf: Seq<u8>) -> Result<Seq<char>, ArchiveError> {
    if buf.len() < 8 {
        Err(ArchiveError::TruncatedBuffer { expected: 8, found: buf.len() as usize })
    } else if spec_u64_from_le_bytes(buf.subrange(0, 8)) != buf.len() - 8 {
        Err(ArchiveError::MalformedBuffer { offset: 0, len: 8 })
    } else if !valid_utf8(buf.subrange(8, buf.len() as int)) {
        Err(ArchiveError::MalformedBuffer { offset: 8, len: (buf.len() - 8) as usize })
    } else {
        Ok(decode_utf8(buf.subrange(8, buf.len() as int)))
    }
}

/// Calls `anyerror::backtrace_str`.
///
/// Nothing is claimed of what it returns: whether a backtrace is captured
/// depends on how `anyerror` was built, and its text on the call stack.
#[verifier::external_body]
fn capture_backtrace() -> (backtrace: Option<String>) {
    anyerror::backtrace_str()
}

/// Calls `String::from_utf8`.
///
/// Claimed of it: it succeeds exactly on well-formed UTF-8, and the string it
/// gives then has the given bytes as its UTF-8 form.
#[verifier::external_body]
fn string_from_utf8(bytes: Vec<u8>) -> (text: Option<String>)
    ensures
        text is Some <==> valid_utf8(bytes@),
        text matches Some(s) ==> encode_utf8(s@) == bytes@,
{
    match String::from_utf8(bytes) {
        Ok(s) => Some(s),
        Err(_) => None,
    }
}

impl View for BoxedErrorSource {
    type V = ErrorView;

    closed spec fn view(&self) -> ErrorView {
        ErrorView {
            display: self.inner.message@,
            causes: texts_view(self.inner.causes@),
            backtrace: backtrace_view(self.inner.backtrace),
        }
    }
}

impl BoxedErrorSource {
    /// Builds a record from all of its parts: the display text, the display
    /// texts of the chain of causes, the immediate cause first, and the text
    /// of a backtrace.
    pub fn from_parts(message: String, causes: Vec<String>, backtrace: Option<String>) -> (boxed:
        Self)
        ensures
            boxed@ == (ErrorView {
                display: message@,
                causes: texts_view(causes@),
                backtrace: backtrace_view(backtrace),
            }),
    {
        Self { inner: Box::new(ErrorRecord { message, causes, backtrace }) }
    }

    /// Takes a record apart into what [`BoxedErrorSource::from_parts`] builds
    /// it from.
    pub fn into_parts(self) -> (parts: (String, Vec<String>, Option<String>))
        ensures
            self@ == (ErrorView {
                display: parts.0@,
                causes: texts_view(parts.1@),
                backtrace: backtrace_view(parts.2),
            }),
    {
        let record: ErrorRecord = *self.inner;
        (record.message, record.causes, record.backtrace)
    }

    /// Builds a record for an error with the given display text and
    /// immediate cause.
    ///
    /// A backtrace is captured where the process captures them; the record
    /// keeps it, or the lack of it, from then on.
    pub fn from_error(message: &str, source: Option<BoxedErrorSource>) -> (boxed: Self)
        ensures
            boxed@.display == message@,
            boxed@.causes == ErrorView::chain(
                match source {
                    Some(cause) => Some(cause@),
                    None => None,
                },
            ),
    {
        let backtrace: Option<String> = capture_backtrace();
        Self::with_source(message, source, backtrace)
    }

    /// Builds a record as [`BoxedErrorSource::from_error`] does, with the
    /// backtrace given instead of captured.
    pub fn with_source(
        message: &str,
        source: Option<BoxedErrorSource>,
        backtrace: Option<String>,
    ) -> (boxed: Self)
        ensures
            boxed@ == (ErrorView {
                display: message@,
                causes: ErrorView::chain(
                    match source {
                        Some(cause) => Some(cause@),
                        None => None,
                    },
                ),
                backtrace: backtrace_view(backtrace),
            }),
    {
        let mut causes: Vec<String> = Vec::new();
        if let Some(cause) = source {
            let record: ErrorRecord = *cause.inner;
            let ghost rest = record.causes@;
            causes.push(record.message);
            let mut tail: Vec<String> = record.causes;
            causes.append(&mut tail);
            assert(texts_view(causes@) =~= seq![record.message@] + texts_view(rest));
        } else {
            assert(texts_view(causes@) =~= Seq::<Seq<char>>::empty());
        }
        Self::from_parts(message.to_owned(), causes, backtrace)
    }

    /// Builds a record for an ad-hoc error that has a text and no cause.
    ///
    /// A backtrace is captured where the process captures them; the record
    /// keeps it, or the lack of it, from then on.
    pub fn from_string(msg: &str) -> (boxed: Self)
        ensures
            boxed@.display == msg@,
            boxed@.causes == Seq::<Seq<char>>::empty(),
    {
        let backtrace: Option<String> = capture_backtrace();
        Self::with_source(msg, None, backtrace)
    }

    /// The display text of the error.
    pub fn display(&self) -> (text: String)
        ensures
            text@ == self@.display,
    {
        self.inner.message.clone()
    }

    /// The immediate cause of the error, as a record of its own, or `None`
    /// where the error has no cause.
    pub fn source(&self) -> (cause: Option<BoxedErrorSource>)
        ensures
            (match cause {
                Some(c) => Some(c@),
                None => None,
            }) == self@.source(),
    {
        let n: usize = self.inner.causes.len();
        if n == 0 {
            return None;
        }
        let message: String = self.inner.causes[0].clone();
        let mut rest: Vec<String> = Vec::new();
        let mut i: usize = 1;
        while i < n
            invariant
                1 <= i <= n,
                n == self.inner.causes@.len(),
                rest@.len() == i - 1,
                forall|k: int| 0 <= k < rest@.len() ==> rest@[k]@ == self.inner.causes@[k + 1]@,
            decreases n - i,
        {
            rest.push(self.inner.causes[i].clone());
            i = i + 1;
        }
        assert(texts_view(rest@) =~= texts_view(self.inner.causes@).subrange(1, n as int));
        Some(Self::from_parts(message, rest, None))
    }

    /// Whether a backtrace was captured when the record was built.
    pub fn has_backtrace(&self) -> (b: bool)
        ensures
            b == self@.backtrace is Some,
    {
        self.inner.backtrace.is_some()
    }

    /// The text of the backtrace that was captured when the record was
    /// built, or the empty text where none was.
    pub fn fmt_backtrace(&self) -> (text: String)
        ensures
            text@ == (match self@.backtrace {
                Some(bt) => bt,
                None => Seq::<char>::empty(),
            }),
    {
        if let Some(bt) = &self.inner.backtrace {
            bt.clone()
        } else {
            String::new()
        }
    }

    /// Encodes the record in the fixed layout. Only the display text is
    /// kept: the cause and the backtrace are left behind.
    ///
    /// What comes out decodes again, to the display text.
    pub fn archive(&self) -> (bytes: Vec<u8>)
        ensures
            bytes@ == spec_archive(self@.display),
            spec_from_archive(bytes@) == Ok::<Seq<char>, ArchiveError>(self@.display),
    {
        let payload: &[u8] = self.inner.message.as_str().as_bytes();
        let mut bytes: Vec<u8> = u64_to_le_bytes(payload.len() as u64);
        bytes.extend_from_slice(payload);
        assert(bytes@ =~= spec_archive(self@.display));
        proof {
            lemma_archive_round_trip(self@.display);
        }
        bytes
    }

    /// Checks a buffer against the fixed layout without building a record.
    ///
    /// The length of the buffer is checked before the length field is read,
    /// and the length field before any byte of the text.
    pub fn check_bytes(buf: &[u8]) -> (r: Result<(), ArchiveError>)
        ensures
            r == (match spec_from_archive(buf@) {
                Ok(_) => Ok::<(), ArchiveError>(()),
                Err(e) => Err(e),
            }),
    {
        match Self::from_archive(buf) {
            Ok(_) => Ok(()),
            Err(e) => Err(e),
        }
    }

    /// Decodes a fixed-layout text into a record. The record is text-only:
    /// it has the decoded display text, no cause and no backtrace.
    pub fn from_archive(buf: &[u8]) -> (r: Result<BoxedErrorSource, ArchiveError>)
        ensures
            match spec_from_archive(buf@) {
                Ok(text) => r matches Ok(boxed) && boxed@ == ErrorView::text_only(text),
                Err(e) => r == Err::<BoxedErrorSource, ArchiveError>(e),
            },
    {
        let found: usize = buf.len();
        if found < LENGTH_PREFIX {
            return Err(ArchiveError::TruncatedBuffer { expected: LENGTH_PREFIX, found });
        }
        let declared: u64 = u64_from_le_bytes(slice_subrange(buf, 0, LENGTH_PREFIX));
        let payload_len: usize = found - LENGTH_PREFIX;
        if declared != payload_len as u64 {
            return Err(ArchiveError::MalformedBuffer { offset: 0, len: LENGTH_PREFIX });
        }
        let payload: Vec<u8> = slice_to_vec(slice_subrange(buf, LENGTH_PREFIX, found));
        match string_from_utf8(payload) {
            None => Err(ArchiveError::MalformedBuffer { offset: LENGTH_PREFIX, len: payload_len }),
            Some(message) => {
                proof {
                    encode_utf8_decode_utf8(message@);
                }
                let causes: Vec<String> = Vec::new();
                assert(texts_view(causes@) =~= Seq::<Seq<char>>::empty());
                Ok(Self::from_parts(message, causes, None))
            },
        }
    }
}

/// Encoding a display text in the fixed layout and decoding the bytes gives
/// the text back, for every text whose UTF-8 form has a length that fits the
/// length field.
pub proof fn lemma_archive_round_trip(text: Seq<char>)
    requires
        encode_utf8(text).len() <= u64::MAX,
    ensures
        spec_from_archive(spec_archive(text)) == Ok::<Seq<char>, ArchiveError>(text),
{
    let payload = encode_utf8(text);
    let prefix = spec_u64_to_le_bytes(payload.len() as u64);
    let buf = spec_archive(text);
    lemma_auto_spec_u64_to_from_le_bytes();
    assert(buf.subrange(0, 8) =~= prefix);
    assert(buf.subrange(8, buf.len() as int) =~= payload);
    encode_utf8_valid_utf8(text);
    encode_utf8_decode_utf8(text);
}

/// A record that went through the fixed layout comes back with its display
/// text and with nothing else: whatever causes and backtrace the encoded
/// record had, the decoded one has no cause and no backtrace.
pub proof fn lemma_archive_keeps_display_only(encoded: ErrorView)
    requires
        encode_utf8(encoded.display).len() <= u64::MAX,
    ensures
        spec_from_archive(spec_archive(encoded.display)) matches Ok(text) && {
            let decoded = ErrorView::text_only(text);
            &&& decoded.display == encoded.display
            &&& decoded.source() is None
            &&& decoded.backtrace is None
        },
{
    lemma_archive_round_trip(encoded.display);
}

/// The immediate cause of a record built by
/// [`BoxedErrorSource::from_error`] displays as the cause it was given and
/// has that cause's chain of causes.
pub proof fn lemma_source_of_chain(display: Seq<char>, cause: ErrorView)
    ensures
        (ErrorView {
            display,
            causes: ErrorView::chain(Some(cause)),
            backtrace: None,
        }).source() == Some(
            ErrorView { display: cause.display, causes: cause.causes, backtrace: None },
        ),
{
    let causes = ErrorView::chain(Some(cause));
    assert(causes.subrange(1, causes.len() as int) =~= cause.causes);
}

} // verus!
