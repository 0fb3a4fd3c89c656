//! The platform resolver.
//!
//! Maps (operating system, CPU architecture, and — for the ARM family — a
//! CPU identifier read from the system) to the relative path of the native
//! library artifact to load.  The reading of the CPU information and of any
//! environment is the driver's business; everything here works on the text
//! it was handed.

use crate::error::{CobraError, CobraErrorStatus};
use crate::text::{lower_char, lower_seq};
use vstd::prelude::*;

verus! {

/// Whether `pat` occurs in `s` starting at position `i`.
pub open spec fn is_match_at(s: Seq<char>, pat: Seq<char>, i: int) -> bool {
    0 <= i && i + pat.len() <= s.len() && s.subrange(i, i + pat.len()) == pat
}

/// The position of the first occurrence of `pat` in `s` at or after `i`.
pub open spec fn first_match_from(s: Seq<char>, pat: Seq<char>, i: int) -> Option<int>
    decreases s.len() + 1 - i,
{
    if i + pat.len() > s.len() {
        None
    } else if is_match_at(s, pat, i) {
        Some(i)
    } else {
        first_match_from(s, pat, i + 1)
    }
}

/// A found occurrence is a match, and no earlier position at or after the
/// search start matches.
proof fn lemma_first_match_found(s: Seq<char>, pat: Seq<char>, i0: int, i: int)
    requires
        first_match_from(s, pat, i0) == Some(i),
    ensures
        i0 <= i,
        is_match_at(s, pat, i),
        forall|j: int| i0 <= j < i ==> !is_match_at(s, pat, j),
    decreases s.len() + 1 - i0,
{
    if i0 + pat.len() > s.len() {
    } else if is_match_at(s, pat, i0) {
    } else {
        lemma_first_match_found(s, pat, i0 + 1, i);
    }
}

/// Whether `pat` occurs in `s` at position `i`, checked character by
/// character.
fn match_at(s: &str, pat: &str, i: usize) -> (b: bool)
    requires
        i + pat@.len() <= s@.len(),
    ensures
        b == is_match_at(s@, pat@, i as int),
{
    let n = s.unicode_len();
    let m = pat.unicode_len();
    let mut k: usize = 0;
    while k < m
        invariant
            n == s@.len(),
            m == pat@.len(),
            i + m <= n,
            k <= m,
            forall|j: int| 0 <= j < k ==> s@[i as int + j] == pat@[j],
        decreases m - k,
    {
        if s.get_char(i + k) != pat.get_char(k) {
            proof {
                assert(s@[i as int + k as int] != pat@[k as int]);
                if is_match_at(s@, pat@, i as int) {
                    assert(s@.subrange(i as int, i as int + m as int)[k as int] == pat@[
                        k as int
                    ]);
                }
            }
            return false;
        }
        k = k + 1;
    }
    proof {
        assert(s@.subrange(i as int, i as int + m as int) =~= pat@);
    }
    true
}

/// The position of the first occurrence of `pat` in `s`, if any.
pub fn find_first(s: &str, pat: &str) -> (r: Option<usize>)
    ensures
        match r {
            Some(i) => first_match_from(s@, pat@, 0) == Some(i as int),
            None => first_match_from(s@, pat@, 0) is None,
        },
{
    let n = s.unicode_len();
    let m = pat.unicode_len();
    if m > n {
        assert(first_match_from(s@, pat@, 0) is None);
        return None;
    }
    if m == 0 {
        assert(s@.subrange(0, 0) =~= pat@);
        assert(first_match_from(s@, pat@, 0) == Some(0int));
        return Some(0);
    }
    let mut i: usize = 0;
    while i <= n - m
        invariant
            n == s@.len(),
            m == pat@.len(),
            1 <= m <= n,
            i <= n - m + 1,
            first_match_from(s@, pat@, 0) == first_match_from(s@, pat@, i as int),
        decreases n - m + 1 - i,
    {
        if match_at(s, pat, i) {
            assert(first_match_from(s@, pat@, i as int) == Some(i as int));
            return Some(i);
        }
        assert(first_match_from(s@, pat@, i as int) == first_match_from(s@, pat@, i as int + 1));
        i = i + 1;
    }
    assert(i as int + pat@.len() > s@.len());
    assert(first_match_from(s@, pat@, i as int) is None);
    None
}

/// The start of the line of `s` that position `i` lies on: the position
/// right after the previous newline, or the start of `s`.
pub open spec fn line_start_of(s: Seq<char>, i: int) -> int
    decreases i,
{
    if i <= 0 {
        0
    } else if s[i - 1] == '\n' {
        i
    } else {
        line_start_of(s, i - 1)
    }
}

/// The end of the line of `s` that position `i` lies on: the position of
/// the next newline, or the end of `s`.
pub open spec fn line_end_of(s: Seq<char>, i: int) -> int
    decreases s.len() - i,
{
    if i >= s.len() {
        s.len() as int
    } else if s[i] == '\n' {
        i
    } else {
        line_end_of(s, i + 1)
    }
}

/// The start of the line that position `i` lies on.
fn line_start(s: &str, i: usize) -> (lo: usize)
    requires
        i <= s@.len(),
    ensures
        lo == line_start_of(s@, i as int),
        lo <= i,
{
    let mut j = i;
    while j > 0
        invariant
            j <= i <= s@.len(),
            line_start_of(s@, i as int) == line_start_of(s@, j as int),
        decreases j,
    {
        if s.get_char(j - 1) == '\n' {
            return j;
        }
        j = j - 1;
    }
    0
}

/// The end of the line that position `i` lies on.
fn line_end(s: &str, i: usize) -> (hi: usize)
    requires
        i <= s@.len(),
    ensures
        hi == line_end_of(s@, i as int),
        i <= hi <= s@.len(),
{
    let n = s.unicode_len();
    let mut j = i;
    while j < n
        invariant
            i <= j <= n,
            n == s@.len(),
            line_end_of(s@, i as int) == line_end_of(s@, j as int),
        decreases n - j,
    {
        if s.get_char(j) == '\n' {
            return j;
        }
        j = j + 1;
    }
    n
}

/// Where the last space-separated token of `line` starts: right after the
/// last space, or at the start when there is no space.
pub open spec fn last_token_start(line: Seq<char>) -> int
    decreases line.len(),
{
    if line.len() == 0 {
        0
    } else if line[line.len() - 1] == ' ' {
        line.len() as int
    } else {
        last_token_start(line.subrange(0, line.len() - 1))
    }
}

proof fn lemma_last_token_start_space(line: Seq<char>, k: int)
    requires
        0 <= k < line.len(),
        line[k] == ' ',
        forall|j: int| k < j < line.len() ==> line[j] != ' ',
    ensures
        last_token_start(line) == k + 1,
    decreases line.len(),
{
    if k == line.len() - 1 {
    } else {
        let prefix = line.subrange(0, line.len() - 1);
        lemma_last_token_start_space(prefix, k);
    }
}

proof fn lemma_last_token_start_nospace(line: Seq<char>)
    requires
        forall|j: int| 0 <= j < line.len() ==> line[j] != ' ',
    ensures
        last_token_start(line) == 0,
    decreases line.len(),
{
    if line.len() > 0 {
        let prefix = line.subrange(0, line.len() - 1);
        lemma_last_token_start_nospace(prefix);
    }
}

/// Where, within `s`, the last space-separated token of the region
/// `[lo, hi)` starts.
fn token_start_in(s: &str, lo: usize, hi: usize) -> (ts: usize)
    requires
        lo <= hi <= s@.len(),
    ensures
        lo <= ts <= hi,
        ts - lo == last_token_start(s@.subrange(lo as int, hi as int)),
{
    let ghost line = s@.subrange(lo as int, hi as int);
    let mut j = hi;
    while j > lo
        invariant
            lo <= j <= hi <= s@.len(),
            line == s@.subrange(lo as int, hi as int),
            forall|k: int| j <= k < hi ==> s@[k] != ' ',
        decreases j,
    {
        if s.get_char(j - 1) == ' ' {
            proof {
                assert(line[j - 1 - lo] == ' ');
                assert(forall|p: int| j - lo <= p < line.len() ==> line[p] == s@[lo + p] && s@[
                    lo + p
                ] != ' ');
                lemma_last_token_start_space(line, j - 1 - lo);
            }
            return j;
        }
        j = j - 1;
    }
    proof {
        assert(forall|p: int| 0 <= p < line.len() ==> line[p] == s@[lo + p] && s@[lo + p] != ' ');
        lemma_last_token_start_nospace(line);
    }
    lo
}

/// Whether the region `[lo, hi)` of `s`, lowercased, equals `pat`.
fn eq_lowered(s: &str, lo: usize, hi: usize, pat: &str) -> (b: bool)
    requires
        lo <= hi <= s@.len(),
    ensures
        b == (lower_seq(s@.subrange(lo as int, hi as int)) == pat@),
{
    let ghost line = s@.subrange(lo as int, hi as int);
    let m = pat.unicode_len();
    if hi - lo != m {
        assert(lower_seq(line).len() != pat@.len());
        return false;
    }
    let mut k: usize = 0;
    while k < m
        invariant
            m == pat@.len(),
            lo <= hi <= s@.len(),
            hi - lo == m,
            line == s@.subrange(lo as int, hi as int),
            k <= m,
            forall|j: int| 0 <= j < k ==> lower_char(line[j]) == pat@[j],
        decreases m - k,
    {
        let c = crate::text::lower_char_exec(s.get_char(lo + k));
        if c != pat.get_char(k) {
            assert(lower_seq(line)[k as int] != pat@[k as int]);
            return false;
        }
        k = k + 1;
    }
    assert(lower_seq(line) =~= pat@);
    true
}

/// The machine type the resolver recognizes in the CPU information text:
/// the last space-separated token of the first line holding `CPU part`,
/// lowercased and looked up in the table of known Raspberry Pi parts.
/// Text without any `CPU part` line identifies no machine at all.
pub open spec fn spec_machine_type(cpu_info: Seq<char>) -> Option<Seq<char>> {
    match first_match_from(cpu_info, "CPU part"@, 0) {
        None => None,
        Some(i) => {
            let lo = line_start_of(cpu_info, i);
            let hi = line_end_of(cpu_info, i);
            let line = cpu_info.subrange(lo, hi);
            let part = line.subrange(last_token_start(line), line.len() as int);
            Some(spec_machine_of_part(part))
        },
    }
}

/// The machine name for one CPU part identifier.
pub open spec fn spec_machine_of_part(part: Seq<char>) -> Seq<char> {
    if lower_seq(part) == "0xb76"@ {
        "arm11"@
    } else if lower_seq(part) == "0xd03"@ {
        "cortex-a53"@
    } else if lower_seq(part) == "0xd08"@ {
        "cortex-a72"@
    } else {
        "unsupported"@
    }
}

/// The machine type named by the given CPU information text (the contents
/// of the system's CPU description, read by the caller).  `None` means no
/// CPU identifier was found at all; resolution cannot proceed then.
pub fn find_machine_type(cpu_info: &str) -> (r: Option<String>)
    ensures
        match r {
            Some(m) => spec_machine_type(cpu_info@) == Some(m@),
            None => spec_machine_type(cpu_info@) is None,
        },
{
    let i = match find_first(cpu_info, "CPU part") {
        None => {
            return None;
        },
        Some(i) => i,
    };
    proof {
        lemma_first_match_found(cpu_info@, "CPU part"@, 0, i as int);
    }
    let lo = line_start(cpu_info, i);
    let hi = line_end(cpu_info, i);
    let ts = token_start_in(cpu_info, lo, hi);
    let ghost line = cpu_info@.subrange(lo as int, hi as int);
    let ghost part = line.subrange(last_token_start(line), line.len() as int);
    proof {
        assert(part =~= cpu_info@.subrange(ts as int, hi as int));
    }
    let machine: &str = if eq_lowered(cpu_info, ts, hi, "0xb76") {
        "arm11"
    } else if eq_lowered(cpu_info, ts, hi, "0xd03") {
        "cortex-a53"
    } else if eq_lowered(cpu_info, ts, hi, "0xd08") {
        "cortex-a72"
    } else {
        "unsupported"
    };
    assert(machine@ == spec_machine_of_part(part));
    Some(String::from_str(machine))
}

/// The operating system the process runs on.
#[derive(Clone, Copy, Debug, PartialEq, Eq)]
pub enum TargetOs {
    MacOs,
    Linux,
    Windows,
}

/// The CPU architecture the process runs on.
#[derive(Clone, Copy, Debug, PartialEq, Eq)]
#[allow(non_camel_case_types)]
pub enum TargetArch {
    X86_64,
    Aarch64,
    Arm,
}

/// A resolved library location, and whether the resolver fell back to the
/// least capable ARM variant because the machine was not recognized (the
/// caller may warn about that; resolution itself does not fail for it).
#[derive(Debug)]
pub struct ResolvedPath {
    pub relative_path: String,
    pub fallback_warning: bool,
}

/// The artifact path for a recognized Raspberry Pi machine.
pub open spec fn spec_rpi_path(machine: Seq<char>, aarch64: bool) -> Seq<char> {
    "raspberry-pi/"@ + machine + (if aarch64 {
        "-aarch64"@
    } else {
        Seq::<char>::empty()
    }) + "/libpv_cobra.so"@
}

/// What the resolver yields for a platform: the relative artifact path and
/// the fallback flag, or the message of the argument error it reports.
pub open spec fn spec_base_path(os: TargetOs, arch: TargetArch, cpu_info: Seq<char>) -> Result<
    (Seq<char>, bool),
    Seq<char>,
> {
    match (os, arch) {
        (TargetOs::MacOs, TargetArch::X86_64) => Ok(("mac/x86_64/libpv_cobra.dylib"@, false)),
        (TargetOs::MacOs, TargetArch::Aarch64) => Ok(("mac/arm64/libpv_cobra.dylib"@, false)),
        (TargetOs::MacOs, TargetArch::Arm) => Err("Unsupported platform"@),
        (TargetOs::Windows, _) => Ok(("windows/amd64/libpv_cobra.dll"@, false)),
        (TargetOs::Linux, TargetArch::X86_64) => Ok(("linux/x86_64/libpv_cobra.so"@, false)),
        (TargetOs::Linux, _) => match spec_machine_type(cpu_info) {
            None => Err("Unsupported CPU"@),
            Some(m) => if m == "unsupported"@ {
                Ok(("raspberry-pi/arm11/libpv_cobra.so"@, true))
            } else {
                Ok((spec_rpi_path(m, arch is Aarch64), false))
            },
        },
    }
}

/// Whether two strings are equal, character by character.
fn str_eq(a: &str, b: &str) -> (r: bool)
    ensures
        r == (a@ == b@),
{
    let n = a.unicode_len();
    let m = b.unicode_len();
    if n != m {
        return false;
    }
    let mut k: usize = 0;
    while k < n
        invariant
            n == a@.len(),
            n == b@.len(),
            k <= n,
            forall|j: int| 0 <= j < k ==> a@[j] == b@[j],
        decreases n - k,
    {
        if a.get_char(k) != b.get_char(k) {
            return false;
        }
        k = k + 1;
    }
    assert(a@ =~= b@);
    true
}

/// The relative path of the library artifact for the given platform.
///
/// Common (OS, architecture) pairs are a direct table lookup.  The ARM
/// family needs the CPU information text: a recognized machine selects its
/// variant (split further by the 64-bit check), an unrecognized one falls
/// back to the least capable variant with the fallback flag raised, and
/// text naming no CPU at all is a fatal argument error.
pub fn base_library_path(os: TargetOs, arch: TargetArch, cpu_info: &str) -> (r: Result<
    ResolvedPath,
    CobraError,
>)
    ensures
        match spec_base_path(os, arch, cpu_info@) {
            Ok((path, warn)) => r matches Ok(p) && p.relative_path@ == path
                && p.fallback_warning == warn,
            Err(msg) => r matches Err(e) && e.status is ArgumentError && e.message@ == msg
                && e.message_stack@.len() == 0,
        },
{
    match (os, arch) {
        (TargetOs::MacOs, TargetArch::X86_64) => Ok(
            ResolvedPath {
                relative_path: String::from_str("mac/x86_64/libpv_cobra.dylib"),
                fallback_warning: false,
            },
        ),
        (TargetOs::MacOs, TargetArch::Aarch64) => Ok(
            ResolvedPath {
                relative_path: String::from_str("mac/arm64/libpv_cobra.dylib"),
                fallback_warning: false,
            },
        ),
        (TargetOs::MacOs, TargetArch::Arm) => Err(
            CobraError::new(CobraErrorStatus::ArgumentError, "Unsupported platform"),
        ),
        (TargetOs::Windows, _) => Ok(
            ResolvedPath {
                relative_path: String::from_str("windows/amd64/libpv_cobra.dll"),
                fallback_warning: false,
            },
        ),
        (TargetOs::Linux, TargetArch::X86_64) => Ok(
            ResolvedPath {
                relative_path: String::from_str("linux/x86_64/libpv_cobra.so"),
                fallback_warning: false,
            },
        ),
        (TargetOs::Linux, _) => match find_machine_type(cpu_info) {
            None => Err(CobraError::new(CobraErrorStatus::ArgumentError, "Unsupported CPU")),
            Some(machine) => {
                if str_eq(machine.as_str(), "unsupported") {
                    Ok(
                        ResolvedPath {
                            relative_path: String::from_str("raspberry-pi/arm11/libpv_cobra.so"),
                            fallback_warning: true,
                        },
                    )
                } else {
                    let mut path = String::from_str("raspberry-pi/").concat(machine.as_str());
                    if matches!(arch, TargetArch::Aarch64) {
                        path = path.concat("-aarch64");
                    }
                    let path = path.concat("/libpv_cobra.so");
                    assert(path@ =~= spec_rpi_path(machine@, arch is Aarch64));
                    Ok(ResolvedPath { relative_path: path, fallback_warning: false })
                }
            },
        },
    }
}

/// `rel` appended to `base` with exactly one path separator between them
/// (none when `base` is empty or already ends with one).
pub open spec fn spec_join(base: Seq<char>, rel: Seq<char>) -> Seq<char> {
    if base.len() == 0 {
        rel
    } else if base[base.len() - 1] == '/' {
        base + rel
    } else {
        base + "/"@ + rel
    }
}

/// `rel` appended to `base` as a path component.
fn join_path(base: &str, rel: &str) -> (r: String)
    ensures
        r@ == spec_join(base@, rel@),
{
    let n = base.unicode_len();
    if n == 0 {
        String::from_str(rel)
    } else if base.get_char(n - 1) == '/' {
        String::from_str(base).concat(rel)
    } else {
        let r = String::from_str(base).concat("/").concat(rel);
        assert(r@ =~= spec_join(base@, rel@));
        r
    }
}

/// The full path of the library artifact to load: the caller's base
/// directory, the `lib/` directory below it, and the platform's relative
/// artifact path.
pub fn pv_library_path(base_dir: &str, os: TargetOs, arch: TargetArch, cpu_info: &str) -> (r:
    Result<ResolvedPath, CobraError>)
    ensures
        match spec_base_path(os, arch, cpu_info@) {
            Ok((path, warn)) => r matches Ok(p) && p.relative_path@ == spec_join(
                base_dir@,
                "lib/"@ + path,
            ) && p.fallback_warning == warn,
            Err(msg) => r matches Err(e) && e.status is ArgumentError && e.message@ == msg
                && e.message_stack@.len() == 0,
        },
{
    match base_library_path(os, arch, cpu_info) {
        Err(e) => Err(e),
        Ok(p) => {
            let prefix = join_path(base_dir, "lib/");
            let full = prefix.concat(p.relative_path.as_str());
            assert(full@ =~= spec_join(base_dir@, "lib/"@ + p.relative_path@));
            Ok(ResolvedPath { relative_path: full, fallback_warning: p.fallback_warning })
        },
    }
}

} // verus!
