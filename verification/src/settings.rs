//! What the user has set: the display name and the download directory, and
//! what stands in for them while they are not set.

use vstd::prelude::*;
use vstd::string::{StrSliceExecFns, StringExecFns, StringSliceAdditionalSpecFns};
use vstd::utf8::encode_utf8;

verus! {

/// Most bytes a display name may have in UTF-8.
pub const MAX_DISPLAY_NAME_LEN: usize = 50;

/// The characters with the Unicode property `White_Space`.
pub open spec fn is_whitespace(c: char) -> bool {
    ||| '\u{9}' <= c <= '\u{d}'
    ||| c == ' '
    ||| c == '\u{85}'
    ||| c == '\u{a0}'
    ||| c == '\u{1680}'
    ||| '\u{2000}' <= c <= '\u{200a}'
    ||| c == '\u{2028}'
    ||| c == '\u{2029}'
    ||| c == '\u{202f}'
    ||| c == '\u{205f}'
    ||| c == '\u{3000}'
}

/// `s` without the whitespace it starts with.
pub open spec fn trim_start_spec(s: Seq<char>) -> Seq<char>
    decreases s.len(),
{
    if s.len() > 0 && is_whitespace(s[0]) {
        trim_start_spec(s.drop_first())
    } else {
        s
    }
}

/// `s` without the whitespace it ends with.
pub open spec fn trim_end_spec(s: Seq<char>) -> Seq<char>
    decreases s.len(),
{
    if s.len() > 0 && is_whitespace(s.last()) {
        trim_end_spec(s.drop_last())
    } else {
        s
    }
}

/// `s` without the whitespace around it.
pub open spec fn trim_spec(s: Seq<char>) -> Seq<char> {
    trim_end_spec(trim_start_spec(s))
}

/// Why a display name is refused.
#[derive(Debug, Clone, Copy, PartialEq, Eq, Structural)]
pub enum DisplayNameError {
    /// Nothing is left once the whitespace around the name is taken off.
    Empty,
    /// The name is longer than `MAX_DISPLAY_NAME_LEN` bytes.
    TooLong,
}

/// The display name that is stored for what the user typed: the text
/// without the whitespace around it, if it is not empty and not too long.
pub open spec fn normalize_spec(name: Seq<char>) -> Result<Seq<char>, DisplayNameError> {
    let trimmed = trim_spec(name);
    if trimmed.len() == 0 {
        Err(DisplayNameError::Empty)
    } else if encode_utf8(trimmed).len() > MAX_DISPLAY_NAME_LEN {
        Err(DisplayNameError::TooLong)
    } else {
        Ok(trimmed)
    }
}

/// The directory that is used where neither the user nor the system names
/// one.
pub open spec fn fallback_download_dir() -> Seq<char> {
    "/storage/emulated/0/Download/"@
}

/// Trimming at the start drops exactly the leading run of whitespace.
pub proof fn lemma_trim_start(s: Seq<char>, k: int)
    requires
        0 <= k <= s.len(),
        forall|j: int| 0 <= j < k ==> is_whitespace(#[trigger] s[j]),
        k == s.len() || !is_whitespace(s[k]),
    ensures
        trim_start_spec(s) == s.skip(k),
    decreases k,
{
    if k == 0 {
        assert(s.skip(0) =~= s);
    } else {
        let rest = s.drop_first();
        assert(is_whitespace(s[0]));
        assert forall|j: int| 0 <= j < k - 1 implies is_whitespace(#[trigger] rest[j]) by {
            assert(rest[j] == s[j + 1]);
        }
        lemma_trim_start(rest, k - 1);
        assert(rest.skip(k - 1) =~= s.skip(k));
    }
}

/// Trimming at the end drops exactly the trailing run of whitespace.
pub proof fn lemma_trim_end(s: Seq<char>, m: int)
    requires
        0 <= m <= s.len(),
        forall|j: int| m <= j < s.len() ==> is_whitespace(#[trigger] s[j]),
        m == 0 || !is_whitespace(s[m - 1]),
    ensures
        trim_end_spec(s) == s.take(m),
    decreases s.len() - m,
{
    if m == s.len() {
        assert(s.take(m) =~= s);
    } else {
        let init = s.drop_last();
        assert(is_whitespace(s[s.len() - 1]));
        assert forall|j: int| m <= j < init.len() implies is_whitespace(#[trigger] init[j]) by {
            assert(init[j] == s[j]);
        }
        lemma_trim_end(init, m);
        assert(init.take(m) =~= s.take(m));
    }
}

/// Whether `c` is whitespace.
fn is_whitespace_char(c: char) -> (b: bool)
    ensures
        b == is_whitespace(c),
{
    (c >= '\u{9}' && c <= '\u{d}') || c == ' ' || c == '\u{85}' || c == '\u{a0}' || c
        == '\u{1680}' || (c >= '\u{2000}' && c <= '\u{200a}') || c == '\u{2028}' || c
        == '\u{2029}' || c == '\u{202f}' || c == '\u{205f}' || c == '\u{3000}'
}

/// `s` without the whitespace around it.
pub fn trim(s: &str) -> (r: &str)
    ensures
        r@ == trim_spec(s@),
{
    let n = s.unicode_len();
    let mut start: usize = 0;
    let mut end: usize = 0;
    let mut seen: bool = false;
    let mut i: usize = 0;
    for c in it: s.chars()
        invariant
            it.seq() == s@,
            i == it.index(),
            n == s@.len(),
            !seen ==> forall|j: int| 0 <= j < i ==> is_whitespace(#[trigger] s@[j]),
            !seen ==> start == 0 && end == 0,
            seen ==> start < end <= i,
            seen ==> forall|j: int| 0 <= j < start ==> is_whitespace(#[trigger] s@[j]),
            seen ==> !is_whitespace(s@[start as int]),
            seen ==> !is_whitespace(s@[end - 1]),
            seen ==> forall|j: int| end <= j < i ==> is_whitespace(#[trigger] s@[j]),
    {
        if !is_whitespace_char(c) {
            if !seen {
                start = i;
                seen = true;
            }
            end = i + 1;
        }
        i = i + 1;
    }
    if !seen {
        proof {
            lemma_trim_start(s@, n as int);
            assert(s@.skip(n as int) =~= Seq::<char>::empty());
            assert(s@.subrange(n as int, n as int) =~= Seq::<char>::empty());
        }
        s.substring_char(n, n)
    } else {
        proof {
            let tail = s@.skip(start as int);
            lemma_trim_start(s@, start as int);
            assert forall|j: int| end - start <= j < tail.len() implies is_whitespace(
                #[trigger] tail[j],
            ) by {
                assert(tail[j] == s@[j + start]);
            }
            assert(tail[end - start - 1] == s@[end - 1]);
            lemma_trim_end(tail, end - start);
            assert(tail.take(end - start) =~= s@.subrange(start as int, end as int));
        }
        s.substring_char(start, end)
    }
}

/// Checks a display name as the user typed it, and returns what is stored.
/// The result is exactly that of `normalize_spec`.
pub fn normalize_display_name(name: &str) -> (r: Result<String, DisplayNameError>)
    ensures
        match r {
            Ok(stored) => normalize_spec(name@) == Ok::<Seq<char>, DisplayNameError>(stored@),
            Err(e) => normalize_spec(name@) == Err::<Seq<char>, DisplayNameError>(e),
        },
{
    let trimmed = trim(name);
    if trimmed.is_empty() {
        Err(DisplayNameError::Empty)
    } else if trimmed.as_bytes().len() > MAX_DISPLAY_NAME_LEN {
        Err(DisplayNameError::TooLong)
    } else {
        Ok(String::from_str(trimmed))
    }
}

/// The name shown to peers: the one the user set, else the system's.
pub open spec fn display_name_spec(custom: Option<Seq<char>>, system: Seq<char>) -> Seq<char> {
    match custom {
        Some(name) => name,
        None => system,
    }
}

/// The directory that received files go to: the one the user set, else the
/// system's download directory, else the fallback.
pub open spec fn download_dir_spec(
    custom: Option<Seq<char>>,
    system: Option<Seq<char>>,
) -> Seq<char> {
    match (custom, system) {
        (Some(dir), _) => dir,
        (None, Some(dir)) => dir,
        (None, None) => fallback_download_dir(),
    }
}

/// What a string option holds, as characters.
pub open spec fn text_of(s: Option<String>) -> Option<Seq<char>> {
    match s {
        Some(text) => Some(text@),
        None => None,
    }
}

/// The name shown to peers, given the system's user name.
pub fn display_name_or(custom: Option<String>, system: String) -> (name: String)
    ensures
        name@ == display_name_spec(text_of(custom), system@),
{
    match custom {
        Some(n) => n,
        None => system,
    }
}

/// The directory that received files go to, given the system's download
/// directory. The caller asks the system for it: the file system is not
/// read here.
pub fn download_dir_or(custom: Option<String>, system: Option<String>) -> (dir: String)
    ensures
        dir@ == download_dir_spec(text_of(custom), text_of(system)),
{
    match custom {
        Some(c) => c,
        None => match system {
            Some(s) => s,
            None => String::from_str("/storage/emulated/0/Download/"),
        },
    }
}

/// `whoami::username`: the name of the user who runs the process, as the
/// operating system gives it, or the stand-in that the crate returns where
/// the system gives none. It depends on the machine, so nothing is promised
/// of it.
#[verifier::external_body]
fn system_username() -> (name: String) {
    whoami::username()
}

/// The name shown to peers: the one the user set; only where none is set,
/// the system is asked for the user's name.
pub fn display_name(custom: Option<String>) -> (name: String)
    ensures
        exists|system: Seq<char>| name@ == display_name_spec(text_of(custom), system),
        custom matches Some(set) ==> name@ == set@,
{
    match custom {
        Some(n) => {
            assert(n@ == display_name_spec(text_of(custom), Seq::empty()));
            n
        },
        None => {
            let system = system_username();
            assert(system@ == display_name_spec(text_of(custom), system@));
            system
        },
    }
}

/// Why a path cannot be the download directory.
pub open spec fn directory_error(path: Seq<char>, exists: bool, is_dir: bool) -> Option<Seq<char>> {
    if !exists {
        Some("Directory does not exist: "@ + path)
    } else if !is_dir {
        Some("Path is not a directory: "@ + path)
    } else {
        None
    }
}

/// Checks a path that the user chose as download directory, given what the
/// file system says of it. The error is the message for the user.
pub fn check_download_dir(path: &str, exists: bool, is_dir: bool) -> (r: Result<(), String>)
    ensures
        match r {
            Ok(_) => directory_error(path@, exists, is_dir) is None,
            Err(message) => directory_error(path@, exists, is_dir) == Some(message@),
        },
{
    if !exists {
        Err(String::from_str("Directory does not exist: ").concat(path))
    } else if !is_dir {
        Err(String::from_str("Path is not a directory: ").concat(path))
    } else {
        Ok(())
    }
}

impl DisplayNameError {
    /// The message of this error.
    pub open spec fn message(self) -> Seq<char> {
        match self {
            DisplayNameError::Empty => "Display name cannot be empty"@,
            DisplayNameError::TooLong => "Display name cannot exceed 50 characters"@,
        }
    }

    /// Renders the error as text.
    pub fn to_string(&self) -> (s: String)
        ensures
            s@ == self.message(),
    {
        match self {
            DisplayNameError::Empty => String::from_str("Display name cannot be empty"),
            DisplayNameError::TooLong => String::from_str(
                "Display name cannot exceed 50 characters",
            ),
        }
    }
}

} // verus!
