//! The error channel: every status descriptor the foreign codec reports is
//! normalized into a success/failure result carrying the error
//! classification and, when the codec supplied one, a human-readable detail
//! string decoded from its bounded text buffer.

use vstd::prelude::*;

verus! {

/// Classification a codec status descriptor carries. `Success` is the sole
/// success value; every other variant is a failure classification.
#[derive(Clone, Copy, Debug, PartialEq, Eq, Structural)]
pub enum CodecStatusCode {
    /// The operation succeeded.
    Success,
    /// A generic failure.
    Error,
    /// A failure the codec could not classify.
    UnknownError,
    /// An argument was rejected as invalid.
    InvalidParam,
    /// The codec could not allocate memory.
    MemError,
    /// The operation is not valid in the codec's current state.
    InvalidOperation,
    /// The requested configuration is not supported.
    UnsupportedFeature,
}

/// A status descriptor as the foreign codec reports it, carried as plain
/// values: the classification, a flag saying whether the bounded detail
/// buffer holds a message, and the bytes of that buffer. The buffer is
/// meaningful only up to its first terminating zero byte, and only when the
/// flag is set.
pub struct StatusInfo {
    /// The reported classification.
    pub error_code: CodecStatusCode,
    /// Whether the detail buffer holds a message.
    pub has_detail: bool,
    /// The bytes of the bounded detail buffer.
    pub detail: Vec<u8>,
}

/// A failure reported by the foreign codec: its classification and the
/// decoded detail message, when one was supplied.
pub struct UhdrError {
    /// The reported failure classification; never `Success`.
    pub error_code: CodecStatusCode,
    /// The decoded detail message, without its terminator, when the codec
    /// supplied one.
    pub detail: Option<Vec<u8>>,
}

/// The mathematical content of a [`UhdrError`].
#[verifier::ext_equal]
pub ghost struct UhdrErrorModel {
    pub error_code: CodecStatusCode,
    pub detail: Option<Seq<u8>>,
}

impl View for UhdrError {
    type V = UhdrErrorModel;

    open spec fn view(&self) -> UhdrErrorModel {
        UhdrErrorModel {
            error_code: self.error_code,
            detail: match self.detail {
                Some(d) => Some(d@),
                None => None,
            },
        }
    }
}

/// The message a bounded text buffer holds: its bytes up to, and not
/// including, the first zero byte, or the whole buffer when no zero byte
/// occurs.
pub open spec fn spec_text_prefix(s: Seq<u8>) -> Seq<u8>
    decreases s.len(),
{
    if s.len() == 0 {
        s
    } else if s[0] == 0 {
        Seq::empty()
    } else {
        seq![s[0]] + spec_text_prefix(s.drop_first())
    }
}

/// The error a status descriptor normalizes to, when it reports a failure.
pub open spec fn spec_error_of(code: CodecStatusCode, has_detail: bool, detail: Seq<u8>) -> UhdrErrorModel {
    UhdrErrorModel {
        error_code: code,
        detail: if has_detail {
            Some(spec_text_prefix(detail))
        } else {
            None
        },
    }
}

/// A buffer whose first `k` bytes are nonzero and whose byte `k`, if any,
/// is zero holds exactly its first `k` bytes as its message.
proof fn lemma_text_prefix_take(s: Seq<u8>, k: int)
    requires
        0 <= k <= s.len(),
        forall|j: int| 0 <= j < k ==> s[j] != 0,
        k < s.len() ==> s[k] == 0,
    ensures
        spec_text_prefix(s) =~= s.take(k),
    decreases s.len(),
{
    if s.len() == 0 {
    } else if k == 0 {
    } else {
        lemma_text_prefix_take(s.drop_first(), k - 1);
        assert(s.drop_first().take(k - 1) =~= s.take(k).drop_first());
    }
}

/// Decodes the message of a bounded text buffer: the bytes before the first
/// zero byte.
fn decode_text(buf: &[u8]) -> (r: Vec<u8>)
    ensures
        r@ == spec_text_prefix(buf@),
{
    let n = buf.len();
    let mut out: Vec<u8> = Vec::new();
    let mut i: usize = 0;
    while i < n && buf[i] != 0
        invariant
            i <= n,
            n == buf@.len(),
            out@ =~= buf@.take(i as int),
            forall|j: int| 0 <= j < i ==> buf@[j] != 0,
        decreases n - i,
    {
        out.push(buf[i]);
        i = i + 1;
        proof {
            assert(out@ =~= buf@.take(i as int));
        }
    }
    proof {
        lemma_text_prefix_take(buf@, i as int);
    }
    out
}

impl UhdrError {
    /// Normalizes a foreign status descriptor: a `Success` classification
    /// yields success, and every other classification yields an error
    /// carrying that classification together with the detail message
    /// decoded from the buffer exactly when the descriptor's flag says one
    /// is present.
    pub fn check(raw: StatusInfo) -> (r: Result<(), UhdrError>)
        ensures
            r is Ok <==> raw.error_code is Success,
            r matches Err(e) ==> e@ == spec_error_of(raw.error_code, raw.has_detail, raw.detail@),
    {
        if matches!(raw.error_code, CodecStatusCode::Success) {
            return Ok(());
        }
        let detail = if raw.has_detail {
            Some(decode_text(raw.detail.as_slice()))
        } else {
            None
        };
        let e = UhdrError { error_code: raw.error_code, detail };
        proof {
            assert(e@ =~~= spec_error_of(raw.error_code, raw.has_detail, raw.detail@));
        }
        Err(e)
    }
}

} // verus!
