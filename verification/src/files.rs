//! SD card naming rules: which files the viewer and player handle, which
//! names may be opened, and how new recordings are named.

use vstd::prelude::*;

use crate::dashboard::FileKind;
use crate::text::{
    decimal, digits_value, lemma_decimal_fits, lemma_decimal_len, lemma_decimal_value,
    lemma_zeros_value, pad_left, pow10, push_decimal_zero_padded, push_str,
};

verus! {

/// The directory the SD card is mounted at.
pub const SD_ROOT: &'static str = "/sdcard";

/// ASCII lower case (other characters unchanged).
pub open spec fn lower(c: char) -> char {
    if 'A' <= c && c <= 'Z' {
        ((c as int) + 32) as char
    } else {
        c
    }
}

/// `name` ends with the lower-case `suffix`, ignoring ASCII case.
pub open spec fn ends_with_ci(name: Seq<char>, suffix: Seq<char>) -> bool {
    name.len() >= suffix.len() && forall|i: int|
        0 <= i < suffix.len() ==> #[trigger] lower(name[name.len() - suffix.len() + i])
            == suffix[i]
}

fn lower_char(c: char) -> (l: char)
    ensures
        l == lower(c),
{
    if 'A' <= c && c <= 'Z' {
        ((c as u32 + 32) as u8) as char
    } else {
        c
    }
}

/// Whether `name` ends with `suffix` (given in lower case), ignoring ASCII
/// case.
pub fn ends_with_ignore_case(name: &str, suffix: &str) -> (r: bool)
    ensures
        r == ends_with_ci(name@, suffix@),
{
    let n = name.unicode_len();
    let k = suffix.unicode_len();
    if n < k {
        return false;
    }
    let mut i: usize = 0;
    while i < k
        invariant
            n == name@.len(),
            k == suffix@.len(),
            n >= k,
            i <= k,
            forall|j: int| 0 <= j < i ==> #[trigger] lower(name@[n - k + j]) == suffix@[j],
        decreases k - i,
    {
        if lower_char(name.get_char(n - k + i)) != suffix.get_char(i) {
            return false;
        }
        i = i + 1;
    }
    true
}

/// Players open `.wav`; the text viewer takes `.txt`, `.log`, `.json`,
/// `.ndj`, `.csv` and `.md`; anything else is shown as hexadecimal.
pub open spec fn spec_file_kind(name: Seq<char>) -> FileKind {
    if ends_with_ci(name, ".wav"@) {
        FileKind::Wav
    } else if ends_with_ci(name, ".txt"@) || ends_with_ci(name, ".log"@) || ends_with_ci(
        name,
        ".json"@,
    ) || ends_with_ci(name, ".ndj"@) || ends_with_ci(name, ".csv"@) || ends_with_ci(
        name,
        ".md"@,
    ) {
        FileKind::Text
    } else {
        FileKind::Other
    }
}

pub fn file_kind(name: &str) -> (k: FileKind)
    ensures
        k == spec_file_kind(name@),
{
    if ends_with_ignore_case(name, ".wav") {
        FileKind::Wav
    } else if ends_with_ignore_case(name, ".txt") || ends_with_ignore_case(name, ".log")
        || ends_with_ignore_case(name, ".json") || ends_with_ignore_case(name, ".ndj")
        || ends_with_ignore_case(name, ".csv") || ends_with_ignore_case(name, ".md") {
        FileKind::Text
    } else {
        FileKind::Other
    }
}

/// Why a name may not be opened on the card.
#[derive(Clone, Copy, Debug, PartialEq, Eq, Structural)]
pub enum SdPathError {
    /// Empty, or only `.`.
    Empty,
    /// The recorder's temporary file.
    Protected,
    /// Starts at the file-system root.
    Absolute,
    /// Climbs out with a `..` component.
    ParentDir,
}

/// What the touch board reports for a refused SD path; the reflective board
/// reports every refusal as `unsafe SD path` (`touch349` false).
pub open spec fn sd_path_message(e: SdPathError, touch349: bool) -> Seq<char> {
    match e {
        SdPathError::Empty => if touch349 {
            "empty SD path is not allowed"@
        } else {
            "unsafe SD path"@
        },
        SdPathError::Protected => if touch349 {
            "recorder temporary file is protected"@
        } else {
            "unsafe SD path"@
        },
        SdPathError::Absolute => if touch349 {
            "absolute SD path is not allowed"@
        } else {
            "unsafe SD path"@
        },
        SdPathError::ParentDir => if touch349 {
            "parent SD path is not allowed"@
        } else {
            "unsafe SD path"@
        },
    }
}

impl SdPathError {
    /// The text reported for this error.
    pub fn message(self, touch349: bool) -> (m: &'static str)
        ensures
            m@ == sd_path_message(self, touch349),
    {
        match self {
            SdPathError::Empty => if touch349 {
                "empty SD path is not allowed"
            } else {
                "unsafe SD path"
            },
            SdPathError::Protected => if touch349 {
                "recorder temporary file is protected"
            } else {
                "unsafe SD path"
            },
            SdPathError::Absolute => if touch349 {
                "absolute SD path is not allowed"
            } else {
                "unsafe SD path"
            },
            SdPathError::ParentDir => if touch349 {
                "parent SD path is not allowed"
            } else {
                "unsafe SD path"
            },
        }
    }
}

/// Some `/`-separated component of `name` is `..`.
pub open spec fn has_parent_component(name: Seq<char>) -> bool {
    exists|i: int|
        0 <= i && i + 2 <= name.len() && #[trigger] name[i] == '.' && name[i + 1] == '.' && (i
            == 0 || name[i - 1] == '/') && (i + 2 == name.len() || name[i + 2] == '/')
}

pub open spec fn is_absolute(name: Seq<char>) -> bool {
    name.len() > 0 && name[0] == '/'
}

fn parent_component(name: &str) -> (r: bool)
    ensures
        r == has_parent_component(name@),
{
    let n = name.unicode_len();
    let mut i: usize = 0;
    while i < n && n - i >= 2
        invariant
            n == name@.len(),
            i <= n,
            forall|j: int|
                0 <= j < i && j + 2 <= n ==> !(#[trigger] name@[j] == '.' && name@[j + 1] == '.'
                    && (j == 0 || name@[j - 1] == '/') && (j + 2 == n || name@[j + 2] == '/')),
        decreases n - i,
    {
        if name.get_char(i) == '.' && name.get_char(i + 1) == '.' && (i == 0 || name.get_char(
            i - 1,
        ) == '/') && (i + 2 == n || name.get_char(i + 2) == '/') {
            return true;
        }
        i = i + 1;
    }
    proof {
        if has_parent_component(name@) {
            let j = choose|j: int|
                0 <= j && j + 2 <= name@.len() && #[trigger] name@[j] == '.' && name@[j + 1]
                    == '.' && (j == 0 || name@[j - 1] == '/') && (j + 2 == name@.len() || name@[j
                    + 2] == '/');
            assert(j < i);
        }
    }
    false
}

/// The RLCD firmware's rule: a relative name without `..` components,
/// opened below the card's mount point.
pub open spec fn spec_safe_sd_path(name: Seq<char>) -> Result<Seq<char>, SdPathError> {
    if is_absolute(name) {
        Err(SdPathError::Absolute)
    } else if has_parent_component(name) {
        Err(SdPathError::ParentDir)
    } else {
        Ok("/sdcard/"@ + name)
    }
}

pub fn safe_sd_path(name: &str) -> (r: Result<String, SdPathError>)
    ensures
        match (r, spec_safe_sd_path(name@)) {
            (Ok(p), Ok(q)) => p@ == q,
            (Err(e), Err(f)) => e == f,
            _ => false,
        },
{
    if name.unicode_len() > 0 && name.get_char(0) == '/' {
        return Err(SdPathError::Absolute);
    }
    if parent_component(name) {
        return Err(SdPathError::ParentDir);
    }
    let mut path = String::from_str("/sdcard/");
    push_str(&mut path, name);
    Ok(path)
}

/// The Touch349 firmware's stricter rule: additionally not empty, not `.`,
/// and never the recorder's temporary file `REC.TMP`.
pub open spec fn spec_safe_sd_path_touch349(name: Seq<char>) -> Result<Seq<char>, SdPathError> {
    if name.len() == 0 || name == "."@ {
        Err(SdPathError::Empty)
    } else if name == "REC.TMP"@ {
        Err(SdPathError::Protected)
    } else {
        spec_safe_sd_path(name)
    }
}

pub fn safe_sd_path_touch349(name: &str) -> (r: Result<String, SdPathError>)
    ensures
        match (r, spec_safe_sd_path_touch349(name@)) {
            (Ok(p), Ok(q)) => p@ == q,
            (Err(e), Err(f)) => e == f,
            _ => false,
        },
{
    let n = name.unicode_len();
    proof {
        reveal_strlit(".");
        reveal_strlit("REC.TMP");
    }
    if n == 0 || (n == 1 && name.get_char(0) == '.') {
        proof {
            if n == 1 {
                assert(name@ =~= "."@);
            }
        }
        return Err(SdPathError::Empty);
    }
    assert(name@ != "."@) by {
        if name@ == "."@ {
            assert(name@[0] == '.');
        }
    }
    if n == 7 && name.get_char(0) == 'R' && name.get_char(1) == 'E' && name.get_char(2) == 'C'
        && name.get_char(3) == '.' && name.get_char(4) == 'T' && name.get_char(5) == 'M'
        && name.get_char(6) == 'P' {
        assert(name@ =~= "REC.TMP"@);
        return Err(SdPathError::Protected);
    }
    assert(name@ != "REC.TMP"@) by {
        if name@ == "REC.TMP"@ {
            assert(name@[0] == 'R' && name@[1] == 'E' && name@[2] == 'C' && name@[3] == '.'
                && name@[4] == 'T' && name@[5] == 'M' && name@[6] == 'P');
        }
    }
    safe_sd_path(name)
}

/// `R` plus six digits plus `.WAV`: an 8.3 name.
pub open spec fn spec_recording_name(index: u32) -> Seq<char> {
    "R"@ + pad_left(decimal(index as nat), 6, '0') + ".WAV"@
}

/// Six digits with leading zeros spell the number they were made from.
proof fn padded_value(n: u32)
    requires
        n < 1_000_000,
    ensures
        pad_left(decimal(n as nat), 6, '0').len() == 6,
        digits_value(pad_left(decimal(n as nat), 6, '0')) == n,
{
    reveal_with_fuel(pow10, 7);
    lemma_decimal_fits(n as nat, 6);
    lemma_decimal_len(n as nat);
    lemma_decimal_value(n as nat);
    let d = decimal(n as nat);
    if d.len() < 6 {
        lemma_zeros_value((6 - d.len()) as nat, d);
    }
}

/// Recordings get 8.3 names, `R`, six digits and `.WAV`, and distinct
/// numbers below a million name distinct files.
pub proof fn recording_names_are_distinct(a: u32, b: u32)
    requires
        a < 1_000_000,
        b < 1_000_000,
        a != b,
    ensures
        spec_recording_name(a).len() == 11,
        spec_recording_name(a) != spec_recording_name(b),
{
    reveal_strlit("R");
    reveal_strlit(".WAV");
    padded_value(a);
    padded_value(b);
    let pa = pad_left(decimal(a as nat), 6, '0');
    let pb = pad_left(decimal(b as nat), 6, '0');
    if spec_recording_name(a) == spec_recording_name(b) {
        assert(spec_recording_name(a).subrange(1, 7) =~= pa);
        assert(spec_recording_name(b).subrange(1, 7) =~= pb);
    }
}

pub fn recording_name(index: u32) -> (s: String)
    ensures
        s@ == spec_recording_name(index),
{
    let mut s = String::from_str("R");
    push_decimal_zero_padded(&mut s, index as u64, 6);
    push_str(&mut s, ".WAV");
    s
}

/// The Touch349 recorder's `attempt`-th candidate number for a recording
/// started at `now_ms`: counting on from the seconds since boot, wrapped to
/// six digits.
pub open spec fn spec_recording_candidate(now_ms: u64, attempt: u32) -> int {
    (((now_ms / 1000) % 0x1_0000_0000) % 1_000_000 + attempt) % 1_000_000
}

pub fn recording_candidate(now_ms: u64, attempt: u32) -> (n: u32)
    requires
        attempt < 100,
    ensures
        n as int == spec_recording_candidate(now_ms, attempt),
        n < 1_000_000,
{
    let seconds = (now_ms / 1000) % 0x1_0000_0000;
    let seed: u32 = (seconds as u32) % 1_000_000;
    (seed + attempt) % 1_000_000
}

/// Name used when none of the hundred candidates is free.
pub const FALLBACK_RECORDING_NAME: &'static str = "RECFAIL.WAV";

/// The Touch349 recorder's name for its `attempt`-th try: one of a hundred
/// consecutive 8.3 names from the seconds since boot, then none (the
/// caller falls back to `RECFAIL.WAV`).
pub fn candidate_name(now_ms: u64, attempt: u32) -> (r: Option<String>)
    ensures
        attempt >= 100 ==> r is None,
        attempt < 100 ==> (r matches Some(s) && s@ == spec_recording_name(
            spec_recording_candidate(now_ms, attempt) as u32,
        )),
{
    if attempt >= 100 {
        return None;
    }
    Some(recording_name(recording_candidate(now_ms, attempt)))
}

} // verus!
