use vstd::prelude::*;
use vstd::string::StrSliceExecFns;
use crate::state::MAX_TRANSACTION_ID_LEN;

verus! {

/// Every failure the registry can report. A failed operation always
/// carries one specific kind, never a generic failure.
#[derive(Clone, Copy, Debug, PartialEq, Eq, Structural)]
pub enum HelixError {
    /// The content identifier exceeds its maximum length.
    TransactionIdTooLong,
    /// The encrypted name exceeds its maximum length.
    EncryptedNameTooLong,
    /// The MIME type exceeds its maximum length.
    MimeTypeTooLong,
    /// The encrypted key exceeds its maximum length.
    EncryptedKeyTooLong,
    /// The file size must be strictly positive.
    InvalidFileSize,
    /// The content identifier is not 43 characters of the base64url alphabet.
    InvalidTransactionId,
    /// The caller is not the owner of the record.
    UnauthorizedOwner,
    /// The caller is not the registry authority.
    UnauthorizedAuthority,
    /// The file already carries the tombstone flag.
    FileAlreadyDeleted,
    /// No file record exists under the given content identifier.
    FileNotFound,
    /// The share link has expired.
    ShareExpired,
    /// The share link has reached its download cap.
    MaxDownloadsReached,
    /// The share link has been revoked.
    ShareRevoked,
    /// The share link does not permit access from this wallet.
    ShareAccessDenied,
    /// The share link is not valid.
    InvalidShareLink,
    /// The expiration timestamp is not in the future.
    ExpirationInPast,
    /// The download cap must be strictly positive.
    InvalidMaxDownloads,
    /// The registry is paused; new registrations are not allowed.
    RegistryPaused,
    /// A file with this content identifier already exists.
    DuplicateTransactionId,
    /// A growth counter would overflow its representable range.
    ArithmeticOverflow,
    /// A share link with these parameters already exists.
    DuplicateShareLink,
    /// A deleted file cannot be shared.
    CannotShareDeletedFile,
    /// The MIME type is not of the form `type/subtype`.
    InvalidMimeType,
}

/// Characters admitted in a content identifier: the base64url alphabet.
pub open spec fn is_id_char(c: char) -> bool {
    ||| 'a' <= c && c <= 'z'
    ||| 'A' <= c && c <= 'Z'
    ||| '0' <= c && c <= '9'
    ||| c == '-'
    ||| c == '_'
}

/// A well-formed content identifier: exactly 43 characters, all from
/// the base64url alphabet.
pub open spec fn valid_transaction_id(s: Seq<char>) -> bool {
    &&& s.len() == MAX_TRANSACTION_ID_LEN
    &&& forall|i: int| 0 <= i < s.len() ==> is_id_char(#[trigger] s[i])
}

/// The single `/` of a well-formed MIME type sits at `i`, strictly
/// inside the string, and no other `/` occurs anywhere.
pub open spec fn mime_slash_at(s: Seq<char>, i: int) -> bool {
    &&& 0 < i
    &&& i + 1 < s.len()
    &&& s[i] == '/'
    &&& forall|j: int| 0 <= j < s.len() && #[trigger] s[j] == '/' ==> j == i
}

/// A well-formed MIME type: exactly one `/`, separating two non-empty
/// segments.
pub open spec fn valid_mime_type(s: Seq<char>) -> bool {
    exists|i: int| mime_slash_at(s, i)
}

/// Whether one character may appear in a content identifier.
fn id_char(c: char) -> (r: bool)
    ensures
        r == is_id_char(c),
{
    ('a' <= c && c <= 'z') || ('A' <= c && c <= 'Z') || ('0' <= c && c <= '9') || c == '-' || c
        == '_'
}

/// Check a content identifier: exactly 43 characters, all from the
/// base64url alphabet. Anything else is rejected.
pub fn validate_transaction_id(tx_id: &str) -> (r: Result<(), HelixError>)
    ensures
        r is Ok <==> valid_transaction_id(tx_id@),
        r is Err ==> r->Err_0 == HelixError::InvalidTransactionId,
{
    let n = tx_id.unicode_len();
    if n != MAX_TRANSACTION_ID_LEN {
        return Err(HelixError::InvalidTransactionId);
    }
    let mut i: usize = 0;
    while i < n
        invariant
            i <= n,
            n == tx_id@.len(),
            forall|j: int| 0 <= j < i ==> is_id_char(#[trigger] tx_id@[j]),
        decreases n - i,
    {
        let c = tx_id.get_char(i);
        if !id_char(c) {
            return Err(HelixError::InvalidTransactionId);
        }
        i += 1;
    }
    Ok(())
}

/// Check a MIME type: exactly one `/`, separating two non-empty
/// segments.
pub fn validate_mime_type(mime: &str) -> (r: Result<(), HelixError>)
    ensures
        r is Ok <==> valid_mime_type(mime@),
        r is Err ==> r->Err_0 == HelixError::InvalidMimeType,
{
    let n = mime.unicode_len();
    let mut i: usize = 0;
    while i < n && mime.get_char(i) != '/'
        invariant
            i <= n,
            n == mime@.len(),
            forall|j: int| 0 <= j < i ==> mime@[j] != '/',
        decreases n - i,
    {
        i += 1;
    }
    if i == n {
        // No separator at all.
        proof {
            assert forall|p: int| !mime_slash_at(mime@, p) by {
                if 0 <= p < mime@.len() {
                    assert(mime@[p] != '/');
                }
            }
        }
        return Err(HelixError::InvalidMimeType);
    }
    if i == 0 || i + 1 == n {
        // The separator touches an end: one segment is empty.
        proof {
            assert forall|p: int| !mime_slash_at(mime@, p) by {
                if mime_slash_at(mime@, p) {
                    assert(mime@[i as int] == '/');
                }
            }
        }
        return Err(HelixError::InvalidMimeType);
    }
    let mut j: usize = i + 1;
    while j < n && mime.get_char(j) != '/'
        invariant
            i < j <= n,
            n == mime@.len(),
            forall|k: int| i < k < j ==> mime@[k] != '/',
        decreases n - j,
    {
        j += 1;
    }
    if j < n {
        // A second separator.
        proof {
            assert forall|p: int| !mime_slash_at(mime@, p) by {
                if mime_slash_at(mime@, p) {
                    assert(mime@[i as int] == '/');
                    assert(mime@[j as int] == '/');
                }
            }
        }
        return Err(HelixError::InvalidMimeType);
    }
    proof {
        assert(mime_slash_at(mime@, i as int));
    }
    Ok(())
}

/// Check a string against a maximum length in characters; report the
/// given error when it is exceeded.
pub fn validate_string_length(s: &str, max_len: usize, error: HelixError) -> (r: Result<
    (),
    HelixError,
>)
    ensures
        r is Ok <==> s@.len() <= max_len,
        r is Err ==> r->Err_0 == error,
{
    if s.unicode_len() > max_len {
        return Err(error);
    }
    Ok(())
}

/// Check an optional string against a maximum length in characters;
/// absence always passes.
pub fn validate_optional_string_length(s: &Option<String>, max_len: usize, error: HelixError) -> (r:
    Result<(), HelixError>)
    ensures
        r is Ok <==> (s matches Some(v) ==> v@.len() <= max_len),
        r is Err ==> r->Err_0 == error,
{
    if let Some(val) = s {
        return validate_string_length(val.as_str(), max_len, error);
    }
    Ok(())
}

} // verus!
