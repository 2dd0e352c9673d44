//! Request settings, raw buffer decoding and the current card.
use vstd::prelude::*;
use crate::configuration::GeneralConfiguration;
use crate::takure::{reads_as, CardRegistry};
use crate::text::{decode_utf16, until_nul, utf8_lossy, utf8_lossy_text};
use vstd::utf8::{decode_utf8, valid_utf8};
use widestring::U16CString;

verus! {

/// Error of reading a string from the system.
#[derive(Debug, Clone, Copy, PartialEq, Eq, Structural)]
pub enum ReadStringFnError {
    /// The text is not valid UTF-16.
    InvalidData,
    /// The system reported error `errno`.
    Other { errno: u32 },
}

/// Windows' `ERROR_INSUFFICIENT_BUFFER`.
pub const ERROR_INSUFFICIENT_BUFFER: u32 = 122;

/// Longest request timeout, in milliseconds.
pub const MAX_TIMEOUT_MS: u64 = 10000;

/// `widestring::U16CString`, a wide C string, held opaquely.
#[verifier::external_type_specification]
#[verifier::external_body]
pub struct ExU16CString(U16CString);

/// The units that a `widestring::U16CString` holds (its `as_slice`), without
/// the terminating NUL.
pub uninterp spec fn u16cstring_units(s: U16CString) -> Seq<u16>;

/// Calls `widestring::U16CString::from_vec_truncate`; claims that the string
/// holds the units of `units` before the first NUL (all of them when there is
/// none), as the crate's source truncates there.
#[verifier::external_body]
fn u16cstring_from_vec_truncate(units: Vec<u16>) -> (res: U16CString)
    ensures
        u16cstring_units(res) == until_nul(units@),
{
    U16CString::from_vec_truncate(units)
}

/// Calls `widestring::U16CStr::to_string` (through `U16CString`'s deref);
/// claims that it succeeds exactly when the units decode as UTF-16
/// (`decode_utf16`, which fails on an unpaired surrogate, as the crate's
/// `DecodeUtf16` iterator does) and gives the decoded text.
#[verifier::external_body]
fn u16cstring_to_string(s: &U16CString) -> (res: Option<String>)
    ensures
        decode_utf16(u16cstring_units(*s)) is Some <==> res is Some,
        res matches Some(t) ==> decode_utf16(u16cstring_units(*s)) == Some(t@),
{
    s.to_string().ok()
}

/// Timeout of requests to Tachi: the configured one, at most ten seconds.
pub fn request_timeout(general: &GeneralConfiguration) -> (res: u64)
    ensures
        res <= 10000,
        general.timeout <= 10000 ==> res == general.timeout,
        general.timeout > 10000 ==> res == 10000,
        res == if general.timeout > MAX_TIMEOUT_MS { MAX_TIMEOUT_MS } else { general.timeout },
{
    let timeout = general.timeout;
    if timeout > MAX_TIMEOUT_MS {
        MAX_TIMEOUT_MS
    } else {
        timeout
    }
}

/// Value of the `Authorization` header sent to Tachi.
pub fn authorization_header(api_key: &str) -> (res: String)
    ensures
        res@ == "Bearer "@ + api_key@,
{
    let mut header = String::from_str("Bearer ");
    header.append(api_key);
    header
}

/// The text that a property read left in `buffer`: nothing when the read
/// failed (`result < 0`), else the first `length` bytes, decoded leniently.
pub fn node_str(result: i32, buffer: &[u8], length: usize) -> (res: Option<String>)
    requires
        result >= 0 ==> length <= buffer@.len(),
    ensures
        result < 0 ==> res is None,
        result >= 0 ==> (res matches Some(s) && s@ == utf8_lossy_text(buffer@.take(length as int))),
        result >= 0 && valid_utf8(buffer@.take(length as int)) ==> (res matches Some(s) && s@
            == decode_utf8(buffer@.take(length as int))),
{
    if result < 0 {
        return None;
    }
    let mut head: Vec<u8> = Vec::new();
    let mut i: usize = 0;
    while i < length
        invariant
            length <= buffer@.len(),
            i <= length,
            head@ == buffer@.take(i as int),
        decreases length - i,
    {
        head.push(buffer[i]);
        assert(buffer@.take(i + 1) =~= buffer@.take(i as int).push(buffer@[i as int]));
        i = i + 1;
    }
    Some(utf8_lossy(head.as_slice()))
}

/// The text a module name buffer holds: its first `length` units up to the
/// first NUL, decoded as UTF-16; `InvalidData` when that is not UTF-16.
pub fn wide_text(buffer: &[u16], length: usize) -> (res: core::result::Result<String, ReadStringFnError>)
    requires
        length <= buffer@.len(),
    ensures
        match decode_utf16(until_nul(buffer@.take(length as int))) {
            Some(t) => res matches Ok(s) && s@ == t,
            None => res == Err::<String, ReadStringFnError>(ReadStringFnError::InvalidData),
        },
{
    let mut units: Vec<u16> = Vec::new();
    let mut i: usize = 0;
    while i < length
        invariant
            length <= buffer@.len(),
            i <= length,
            units@ == buffer@.take(i as int),
        decreases length - i,
    {
        units.push(buffer[i]);
        assert(buffer@.take(i + 1) =~= buffer@.take(i as int).push(buffer@[i as int]));
        i = i + 1;
    }
    let text = u16cstring_from_vec_truncate(units);
    match u16cstring_to_string(&text) {
        Some(s) => Ok(s),
        None => Err(ReadStringFnError::InvalidData),
    }
}

/// Next move of the module file name loop after one call of
/// `GetModuleFileNameW`.
#[derive(Debug)]
pub enum ModuleNameStep {
    /// The loop ends with this name or error.
    Done(core::result::Result<String, ReadStringFnError>),
    /// The buffer was too small: call again with a buffer of this length.
    Retry(usize),
}

/// Decides what a call of `GetModuleFileNameW` that returned `result` and left
/// `errno` as the last error means for a name read into `buffer`.
pub fn module_file_name_step(result: i32, errno: u32, buffer: &[u16]) -> (res: ModuleNameStep)
    requires
        result != 0 && errno != ERROR_INSUFFICIENT_BUFFER ==> 0 < result <= buffer@.len(),
        errno == ERROR_INSUFFICIENT_BUFFER ==> buffer@.len() * 2 <= usize::MAX,
    ensures
        result != 0 && errno != ERROR_INSUFFICIENT_BUFFER ==> match decode_utf16(
            until_nul(buffer@.take(result as int)),
        ) {
            Some(t) => res matches ModuleNameStep::Done(Ok(s)) && s@ == t,
            None => res matches ModuleNameStep::Done(Err(ReadStringFnError::InvalidData)),
        },
        result == 0 && errno != ERROR_INSUFFICIENT_BUFFER ==> (res matches ModuleNameStep::Done(
            Err(ReadStringFnError::Other { errno: e }),
        ) && e == errno),
        errno == ERROR_INSUFFICIENT_BUFFER ==> (res matches ModuleNameStep::Retry(n) && n
            == buffer@.len() * 2),
{
    if result != 0 && errno != ERROR_INSUFFICIENT_BUFFER {
        return ModuleNameStep::Done(wide_text(buffer, result as usize));
    }
    if errno != ERROR_INSUFFICIENT_BUFFER {
        return ModuleNameStep::Done(Err(ReadStringFnError::Other { errno }));
    }
    ModuleNameStep::Retry(buffer.len() * 2)
}

/// The card inserted last, if any.
pub fn get_current_card_id(registry: &CardRegistry) -> (res: Option<String>)
    ensures
        reads_as(res, registry@),
{
    registry.current()
}

} // verus!
