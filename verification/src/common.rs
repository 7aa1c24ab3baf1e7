//! Status codes of the native codec and what the sessions have in common.

use vstd::prelude::*;

verus! {

/// The status that the native codec reports for success.
pub const STATUS_OK: u32 = 0;

/// A failure reported by the native codec, one variant for each status that
/// it documents and one that carries any other status unchanged.
#[derive(Clone, Copy, Debug, PartialEq, Eq, Structural)]
pub enum ErrorCode {
    /// Unspecified error.
    Error,
    /// Memory operation failed.
    MemError,
    /// The codec was built against another interface version.
    AbiMismatch,
    /// The codec lacks the requested capability.
    Incapable,
    /// The bitstream is not of a kind that the codec can parse.
    UnsupBitstream,
    /// The bitstream uses a feature that the codec does not support.
    UnsupFeature,
    /// The coded data of the frame is corrupt or incomplete.
    CorruptFrame,
    /// A parameter was not valid.
    InvalidParam,
    /// An iterator reached the end of its list.
    ListEnd,
    /// A status above those that the codec documents.
    Other(u32),
}

impl ErrorCode {
    /// The native status that this error stands for.
    pub open spec fn status(self) -> int {
        match self {
            ErrorCode::Error => 1,
            ErrorCode::MemError => 2,
            ErrorCode::AbiMismatch => 3,
            ErrorCode::Incapable => 4,
            ErrorCode::UnsupBitstream => 5,
            ErrorCode::UnsupFeature => 6,
            ErrorCode::CorruptFrame => 7,
            ErrorCode::InvalidParam => 8,
            ErrorCode::ListEnd => 9,
            ErrorCode::Other(s) => s as int,
        }
    }

    /// An error is well formed when `Other` holds no status that has a
    /// variant of its own.
    pub open spec fn wf(self) -> bool {
        match self {
            ErrorCode::Other(s) => s > 9,
            _ => true,
        }
    }

    /// The error that stands for a native status, if the status is a failure.
    pub open spec fn of_status(status: u32) -> Option<ErrorCode> {
        if status == 0 {
            None
        } else if status == 1 {
            Some(ErrorCode::Error)
        } else if status == 2 {
            Some(ErrorCode::MemError)
        } else if status == 3 {
            Some(ErrorCode::AbiMismatch)
        } else if status == 4 {
            Some(ErrorCode::Incapable)
        } else if status == 5 {
            Some(ErrorCode::UnsupBitstream)
        } else if status == 6 {
            Some(ErrorCode::UnsupFeature)
        } else if status == 7 {
            Some(ErrorCode::CorruptFrame)
        } else if status == 8 {
            Some(ErrorCode::InvalidParam)
        } else if status == 9 {
            Some(ErrorCode::ListEnd)
        } else {
            Some(ErrorCode::Other(status))
        }
    }

    /// Classifies a native status: `None` for success, the error otherwise.
    pub fn from_status(status: u32) -> (r: Option<ErrorCode>)
        ensures
            r == Self::of_status(status),
            r is None <==> status == STATUS_OK,
            r matches Some(e) ==> e.wf() && e.status() == status,
    {
        match status {
            0 => None,
            1 => Some(ErrorCode::Error),
            2 => Some(ErrorCode::MemError),
            3 => Some(ErrorCode::AbiMismatch),
            4 => Some(ErrorCode::Incapable),
            5 => Some(ErrorCode::UnsupBitstream),
            6 => Some(ErrorCode::UnsupFeature),
            7 => Some(ErrorCode::CorruptFrame),
            8 => Some(ErrorCode::InvalidParam),
            9 => Some(ErrorCode::ListEnd),
            _ => Some(ErrorCode::Other(status)),
        }
    }

    /// The native status that this error stands for.
    pub fn code(&self) -> (r: u32)
        ensures
            r as int == self.status(),
            self.wf() ==> r != STATUS_OK,
    {
        match self {
            ErrorCode::Error => 1,
            ErrorCode::MemError => 2,
            ErrorCode::AbiMismatch => 3,
            ErrorCode::Incapable => 4,
            ErrorCode::UnsupBitstream => 5,
            ErrorCode::UnsupFeature => 6,
            ErrorCode::CorruptFrame => 7,
            ErrorCode::InvalidParam => 8,
            ErrorCode::ListEnd => 9,
            ErrorCode::Other(s) => *s,
        }
    }
}

/// What a call that reported `status` gives its caller.
pub open spec fn outcome(status: u32) -> Result<(), ErrorCode> {
    match ErrorCode::of_status(status) {
        None => Ok(()),
        Some(e) => Err(e),
    }
}

/// Turns the status of a native call into the result of that call: success
/// for the one status that means it, and the matching error for every other.
pub fn check_status(status: u32) -> (r: Result<(), ErrorCode>)
    ensures
        r == outcome(status),
        r is Ok <==> status == STATUS_OK,
        r matches Err(e) ==> e.wf() && e.status() == status,
{
    match ErrorCode::from_status(status) {
        None => Ok(()),
        Some(e) => Err(e),
    }
}

/// Every failure keeps its status: classifying the status of an error gives
/// that error back, and two different statuses never give the same error.
pub proof fn lemma_status_one_to_one(a: u32, b: u32)
    ensures
        ErrorCode::of_status(a) == ErrorCode::of_status(b) <==> a == b,
        ErrorCode::of_status(a) matches Some(e) ==> e.status() == a,
{
}

/// Classifying the status of a well-formed error gives that error back.
pub proof fn lemma_error_round_trip(e: ErrorCode)
    requires
        e.wf(),
    ensures
        0 < e.status() <= u32::MAX,
        ErrorCode::of_status(e.status() as u32) == Some(e),
{
}

/// The text that `String::from_utf8_lossy` makes of the given bytes.
pub uninterp spec fn lossy_text(bytes: Seq<u8>) -> Seq<char>;

/// Calls `String::from_utf8_lossy` of std and takes the text as a `String`.
/// The contract gives that text a name, and says what the documentation
/// says of input without bytes: the text is empty.
#[verifier::external_body]
fn text_from_bytes(bytes: &[u8]) -> (s: String)
    ensures
        s@ == lossy_text(bytes@),
        bytes@.len() == 0 ==> s@.len() == 0,
{
    String::from_utf8_lossy(bytes).into_owned()
}

/// What the two kinds of session have in common.
pub trait VPXCodec {
    /// Returns a human-readable representation of the last error, given
    /// the bytes of the message that the native codec holds for it. Bytes
    /// that are no text are replaced, so there always is a result; it is
    /// empty where the message is.
    fn error_to_str(&self, message: &[u8]) -> (s: String)
        ensures
            s@ == lossy_text(message@),
            message@.len() == 0 ==> s@.len() == 0,
    ;
}

/// The text of a message of the native codec.
pub fn error_text(message: &[u8]) -> (s: String)
    ensures
        s@ == lossy_text(message@),
        message@.len() == 0 ==> s@.len() == 0,
{
    text_from_bytes(message)
}

} // verus!
