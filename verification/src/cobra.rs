//! The binding's decision core.
//!
//! The unverified driver performs the native calls (loading the library,
//! resolving symbols, calling the C functions) and hands every outcome —
//! status codes, raw version bytes, cached scalars — to the functions of
//! this module, which make all decisions: whether caller input may reach
//! the native layer at all, which typed error a native outcome becomes,
//! and whether the values the native library returned honour its
//! declared contract.

use crate::error::{CobraError, CobraErrorStatus};
use crate::status::{pv_status_from_code, spec_status_code, PvStatus};
use crate::text::{dec_rep, dec_string};
use vstd::prelude::*;
use vstd::utf8::{
    codepoint_width_2, codepoint_width_3, codepoint_width_4, decode_utf8, length_of_first_scalar,
    pop_first_scalar, valid_first_scalar, valid_utf8,
};

verus! {

/// Whether a character sequence holds an embedded null character.
pub open spec fn has_nul(s: Seq<char>) -> bool {
    exists|i: int| 0 <= i < s.len() && s[i] == '\0'
}

/// Whether a string holds an embedded null character.
fn str_has_nul(s: &str) -> (b: bool)
    ensures
        b == has_nul(s@),
{
    let n = s.unicode_len();
    let mut i: usize = 0;
    while i < n
        invariant
            n == s@.len(),
            i <= n,
            forall|j: int| 0 <= j < i ==> s@[j] != '\0',
        decreases n - i,
    {
        if s.get_char(i) == '\0' {
            assert(s@[i as int] == '\0');
            return true;
        }
        i = i + 1;
    }
    false
}

/// Whether an access key may be handed to the native construct call.
///
/// An empty key, or one with an embedded null byte (which could not be
/// turned into a C string), is rejected as an argument error before any
/// native call.
pub fn validate_access_key(access_key: &str) -> (r: Result<(), CobraError>)
    ensures
        r is Ok <==> (access_key@.len() > 0 && !has_nul(access_key@)),
        r matches Err(e) ==> e.status is ArgumentError && e.message_stack@.len() == 0,
        access_key@.len() == 0 ==> (r matches Err(e) && e.message@
            == "AccessKey is required for Cobra initialization"@),
        access_key@.len() > 0 && has_nul(access_key@) ==> (r matches Err(e) && e.message@
            == "AccessKey is not a valid C string"@),
{
    if access_key.is_empty() {
        Err(CobraError::new(
            CobraErrorStatus::ArgumentError,
            "AccessKey is required for Cobra initialization",
        ))
    } else if str_has_nul(access_key) {
        Err(CobraError::new(CobraErrorStatus::ArgumentError, "AccessKey is not a valid C string"))
    } else {
        Ok(())
    }
}

/// Whether construction may proceed on a library path the driver has
/// checked for on the filesystem.
///
/// A missing file is an argument error — a packaging problem — and is kept
/// distinct from a failure to open a file that is present.
pub fn check_library_exists(library_path: &str, found: bool) -> (r: Result<(), CobraError>)
    ensures
        r is Ok <==> found,
        !found ==> (r matches Err(e) && e.status is ArgumentError && e.message@
            == "Couldn't find Cobra's dynamic library at "@ + library_path@
            && e.message_stack@.len() == 0),
{
    if found {
        Ok(())
    } else {
        let msg = String::from_str("Couldn't find Cobra's dynamic library at ").concat(
            library_path,
        );
        Err(CobraError::new(CobraErrorStatus::ArgumentError, msg.as_str()))
    }
}

/// The error reported when a present library file could not be opened;
/// `detail` is the OS loader's own message.
pub fn library_load_error(detail: &str) -> (e: CobraError)
    ensures
        e.status is LibraryLoadError,
        e.message@ == "Failed to load cobra dynamic library: "@ + detail@,
        e.message_stack@.len() == 0,
{
    let msg = String::from_str("Failed to load cobra dynamic library: ").concat(detail);
    CobraError::new(CobraErrorStatus::LibraryLoadError, msg.as_str())
}

/// The error reported when a required symbol could not be resolved;
/// `detail` is the OS loader's own message naming the symbol.
pub fn symbol_load_error(detail: &str) -> (e: CobraError)
    ensures
        e.status is LibraryLoadError,
        e.message@ == "Failed to load function symbol from cobra library: "@ + detail@,
        e.message_stack@.len() == 0,
{
    let msg = String::from_str("Failed to load function symbol from cobra library: ").concat(
        detail,
    );
    CobraError::new(CobraErrorStatus::LibraryLoadError, msg.as_str())
}

/// The status a native call reported, read from the raw C integer it
/// returned.
///
/// A code outside the enumeration means the native library broke its
/// declared protocol; that is a library load error, not a status of its
/// own.
pub fn interpret_status_code(code: i32) -> (r: Result<PvStatus, CobraError>)
    ensures
        r is Ok <==> 0 <= code <= 11,
        r matches Ok(s) ==> spec_status_code(s) == code,
        r matches Err(e) ==> e.status is LibraryLoadError && e.message@
            == "Cobra returned an unknown status code"@ && e.message_stack@.len() == 0,
{
    match pv_status_from_code(code) {
        Some(s) => Ok(s),
        None => Err(
            CobraError::new(
                CobraErrorStatus::LibraryLoadError,
                "Cobra returned an unknown status code",
            ),
        ),
    }
}

/// The one place a native status turns into the binding's result.
///
/// A success status passes; any other status becomes a library error that
/// carries the status, names the failed native function, and keeps the
/// diagnostic stack the driver drained from the native layer — unchanged
/// and in order.
pub fn check_fn_call_status(status: PvStatus, function_name: &str, message_stack: Vec<String>) -> (r:
    Result<(), CobraError>)
    ensures
        r is Ok <==> status is SUCCESS,
        !(status is SUCCESS) ==> (r matches Err(e) && e.status == CobraErrorStatus::LibraryError(
            status,
        ) && e.message@ == "'"@ + function_name@ + "' failed"@ && e.message_stack == message_stack),
{
    match status {
        PvStatus::SUCCESS => Ok(()),
        _ => {
            let msg = String::from_str("'").concat(function_name).concat("' failed");
            assert(msg@ == "'"@ + function_name@ + "' failed"@);
            Err(CobraError::new_with_stack(
                CobraErrorStatus::LibraryError(status),
                msg.as_str(),
                message_stack,
            ))
        },
    }
}

/// Law: the binding adds no nondeterminism to a native failure.  Two
/// errors built as [`check_fn_call_status`] builds them, for the same
/// non-success status, the same function name, and drained stacks of the
/// same content, agree in reason, message, and diagnostic stack — so
/// repeated failures that the native layer reports identically are
/// reported identically to the caller.
pub proof fn lemma_failed_call_error_reproducible(
    status: PvStatus,
    function_name: Seq<char>,
    stack1: Vec<String>,
    stack2: Vec<String>,
    e1: CobraError,
    e2: CobraError,
)
    requires
        !(status is SUCCESS),
        stack1.deep_view() == stack2.deep_view(),
        e1.status == CobraErrorStatus::LibraryError(status),
        e1.message@ == "'"@ + function_name + "' failed"@,
        e1.message_stack == stack1,
        e2.status == CobraErrorStatus::LibraryError(status),
        e2.message@ == "'"@ + function_name + "' failed"@,
        e2.message_stack == stack2,
    ensures
        e1.status == e2.status,
        e1.message@ == e2.message@,
        e1.message_stack.deep_view() == e2.message_stack.deep_view(),
{
}

/// The length of the well-formed scalar encoding at position `i` of
/// `bytes`, or `None` when no well-formed encoding starts there.
fn check_first_scalar(bytes: &[u8], i: usize) -> (r: Option<usize>)
    requires
        i < bytes@.len(),
    ensures
        ({
            let suffix = bytes@.subrange(i as int, bytes@.len() as int);
            match r {
                Some(len) => valid_first_scalar(suffix) && length_of_first_scalar(suffix)
                    == len && 1 <= len <= 4 && i + len <= bytes@.len(),
                None => !valid_first_scalar(suffix),
            }
        }),
{
    let ghost suffix = bytes@.subrange(i as int, bytes@.len() as int);
    let n = bytes.len();
    let b0 = bytes[i];
    assert(suffix[0] == b0);
    if b0 <= 0x7f {
        proof {
            assert(b0 & 0x7f <= 0x7f) by (bit_vector);
        }
        Some(1)
    } else if 0xc0 <= b0 && b0 <= 0xdf {
        if i + 1 >= n {
            return None;
        }
        let b1 = bytes[i + 1];
        assert(suffix[1] == b1);
        if !(0x80 <= b1 && b1 <= 0xbf) {
            return None;
        }
        let cp: u32 = (((b0 & 0x1f) as u32) << 6) | ((b1 & 0x3f) as u32);
        assert(cp == codepoint_width_2(b0, b1));
        proof {
            assert((((b0 & 0x1f) as u32) << 6) | ((b1 & 0x3f) as u32) <= 0x7ff) by (bit_vector);
        }
        if cp >= 0x80 {
            Some(2)
        } else {
            None
        }
    } else if 0xe0 <= b0 && b0 <= 0xef {
        if n - i < 3 {
            return None;
        }
        let b1 = bytes[i + 1];
        let b2 = bytes[i + 2];
        assert(suffix[1] == b1 && suffix[2] == b2);
        if !(0x80 <= b1 && b1 <= 0xbf) || !(0x80 <= b2 && b2 <= 0xbf) {
            return None;
        }
        let cp: u32 = (((b0 & 0x0f) as u32) << 12) | (((b1 & 0x3f) as u32) << 6) | ((b2
            & 0x3f) as u32);
        assert(cp == codepoint_width_3(b0, b1, b2));
        if cp >= 0x800 && !(0xd800 <= cp && cp <= 0xdfff) {
            Some(3)
        } else {
            None
        }
    } else if 0xf0 <= b0 && b0 <= 0xf7 {
        if n - i < 4 {
            return None;
        }
        let b1 = bytes[i + 1];
        let b2 = bytes[i + 2];
        let b3 = bytes[i + 3];
        assert(suffix[1] == b1 && suffix[2] == b2 && suffix[3] == b3);
        if !(0x80 <= b1 && b1 <= 0xbf) || !(0x80 <= b2 && b2 <= 0xbf) || !(0x80 <= b3 && b3
            <= 0xbf) {
            return None;
        }
        let cp: u32 = (((b0 & 0x07) as u32) << 18) | (((b1 & 0x3f) as u32) << 12) | (((b2
            & 0x3f) as u32) << 6) | ((b3 & 0x3f) as u32);
        assert(cp == codepoint_width_4(b0, b1, b2, b3));
        if 0x10000 <= cp && cp <= 0x10ffff {
            Some(4)
        } else {
            None
        }
    } else {
        None
    }
}

/// Whether the bytes form a valid UTF-8 encoding.
pub fn validate_utf8(bytes: &[u8]) -> (b: bool)
    ensures
        b == valid_utf8(bytes@),
{
    let n = bytes.len();
    assert(bytes@.subrange(0, n as int) =~= bytes@);
    let mut i: usize = 0;
    while i < n
        invariant
            n == bytes@.len(),
            i <= n,
            valid_utf8(bytes@) == valid_utf8(bytes@.subrange(i as int, n as int)),
        decreases n - i,
    {
        let ghost suffix = bytes@.subrange(i as int, n as int);
        match check_first_scalar(bytes, i) {
            None => {
                assert(!valid_utf8(suffix));
                return false;
            },
            Some(len) => {
                proof {
                    assert(pop_first_scalar(suffix) =~= bytes@.subrange(
                        i as int + len as int,
                        n as int,
                    ));
                }
                i = i + len;
            },
        }
    }
    assert(bytes@.subrange(i as int, n as int).len() == 0);
    true
}

/// Relies on str::from_utf8: bytes that are valid UTF-8 decode to the
/// string whose characters are their scalars.
#[verifier::external_body]
fn string_from_valid_utf8(bytes: &[u8]) -> (s: String)
    requires
        valid_utf8(bytes@),
    ensures
        s@ == decode_utf8(bytes@),
{
    core::str::from_utf8(bytes).map(|s| s.to_owned()).unwrap_or_default()
}

/// The version string of the native library, decoded from the bytes its
/// version call returned.
///
/// The native contract promises UTF-8; bytes that are not are a library
/// load error, not a lossy substitution.
pub fn decode_version(version_bytes: &[u8]) -> (r: Result<String, CobraError>)
    ensures
        match r {
            Ok(v) => valid_utf8(version_bytes@) && v@ == decode_utf8(version_bytes@),
            Err(e) => !valid_utf8(version_bytes@) && e.status is LibraryLoadError && e.message@
                == "Cobra version string is not valid UTF-8"@ && e.message_stack@.len() == 0,
        },
{
    if validate_utf8(version_bytes) {
        Ok(string_from_valid_utf8(version_bytes))
    } else {
        Err(
            CobraError::new(
                CobraErrorStatus::LibraryLoadError,
                "Cobra version string is not valid UTF-8",
            ),
        )
    }
}

/// The immutable scalar properties of a constructed engine, fetched from
/// the native library exactly once and cached for the handle's lifetime.
#[derive(Debug)]
pub struct EngineProperties {
    sample_rate: i32,
    frame_length: i32,
    version: String,
}

impl EngineProperties {
    /// The cached properties are well formed: positive scalars, a
    /// non-empty version.
    pub closed spec fn wf(&self) -> bool {
        self.sample_rate > 0 && self.frame_length > 0 && self.version@.len() > 0
    }

    pub closed spec fn spec_sample_rate(&self) -> i32 {
        self.sample_rate
    }

    pub closed spec fn spec_frame_length(&self) -> i32 {
        self.frame_length
    }

    pub closed spec fn spec_version(&self) -> Seq<char> {
        self.version@
    }

    /// The properties the native library reported, checked against its
    /// declared contract: positive sample rate, positive frame length, a
    /// non-empty version.  A violation is a library load error and no
    /// handle is produced.
    pub fn try_new(sample_rate: i32, frame_length: i32, version: String) -> (r: Result<
        EngineProperties,
        CobraError,
    >)
        ensures
            r is Ok <==> (sample_rate > 0 && frame_length > 0 && version@.len() > 0),
            r matches Ok(p) ==> p.wf() && p.spec_sample_rate() == sample_rate
                && p.spec_frame_length() == frame_length && p.spec_version() == version@,
            r matches Err(e) ==> e.status is LibraryLoadError && e.message_stack@.len() == 0,
            sample_rate <= 0 ==> (r matches Err(e) && e.message@
                == "Cobra returned an invalid sample rate"@),
            sample_rate > 0 && frame_length <= 0 ==> (r matches Err(e) && e.message@
                == "Cobra returned an invalid frame length"@),
            sample_rate > 0 && frame_length > 0 && version@.len() == 0 ==> (r matches Err(e)
                && e.message@ == "Cobra returned an empty version string"@),
    {
        if sample_rate <= 0 {
            Err(
                CobraError::new(
                    CobraErrorStatus::LibraryLoadError,
                    "Cobra returned an invalid sample rate",
                ),
            )
        } else if frame_length <= 0 {
            Err(
                CobraError::new(
                    CobraErrorStatus::LibraryLoadError,
                    "Cobra returned an invalid frame length",
                ),
            )
        } else if version.as_str().is_empty() {
            Err(
                CobraError::new(
                    CobraErrorStatus::LibraryLoadError,
                    "Cobra returned an empty version string",
                ),
            )
        } else {
            Ok(EngineProperties { sample_rate, frame_length, version })
        }
    }

    /// Audio sample rate the engine expects, in hertz.
    pub fn sample_rate(&self) -> (r: i32)
        ensures
            r == self.spec_sample_rate(),
            self.wf() ==> r > 0,
    {
        self.sample_rate
    }

    /// Number of samples the engine expects per frame.
    pub fn frame_length(&self) -> (r: i32)
        ensures
            r == self.spec_frame_length(),
            self.wf() ==> r > 0,
    {
        self.frame_length
    }

    /// Version string of the native library.
    pub fn version(&self) -> (r: String)
        ensures
            r@ == self.spec_version(),
            self.wf() ==> r@.len() > 0,
    {
        self.version.clone()
    }

    /// Whether a frame may be handed to the native process call.
    ///
    /// A frame of any length other than the cached frame length is a frame
    /// length error, reported with both the observed and the expected
    /// length, and the driver makes no native call for it.
    pub fn check_frame(&self, pcm: &[i16]) -> (r: Result<(), CobraError>)
        requires
            self.wf(),
        ensures
            r is Ok <==> pcm@.len() == self.spec_frame_length(),
            r matches Err(e) ==> e.status is FrameLengthError && e.message@
                == "Found a frame length of "@ + dec_rep(pcm@.len()) + " Expected "@ + dec_rep(
                self.spec_frame_length() as nat,
            ) && e.message_stack@.len() == 0,
    {
        let expected = self.frame_length;
        if pcm.len() == expected as usize {
            Ok(())
        } else {
            let found_str = dec_string(pcm.len() as u64);
            let expected_str = dec_string(expected as u64);
            let msg = String::from_str("Found a frame length of ").concat(
                found_str.as_str(),
            ).concat(" Expected ").concat(expected_str.as_str());
            assert(msg@ == "Found a frame length of "@ + dec_rep(pcm@.len()) + " Expected "@
                + dec_rep(self.spec_frame_length() as nat));
            Err(CobraError::new(CobraErrorStatus::FrameLengthError, msg.as_str()))
        }
    }
}

/// Law: the cached properties of any well-formed engine handle are
/// non-zero and its version is non-empty, for the handle's whole lifetime.
pub proof fn lemma_engine_properties_nonzero(p: &EngineProperties)
    requires
        p.wf(),
    ensures
        p.spec_sample_rate() > 0,
        p.spec_frame_length() > 0,
        p.spec_version().len() > 0,
{
}

} // verus!
