//! The input resolver: classifies raw arguments as remote locators or local
//! paths and validates local files against the supported media extensions.
use vstd::prelude::*;

use crate::errors::LaunchError;
use crate::text::contains_sub;
use crate::text::has_sub;
use crate::text::join_strings;
use crate::text::join_with;
use crate::text::lemma_join_contains;
use crate::text::lower_seq;
use crate::text::str_eq_ignore_ascii_case;

verus! {

/// The media and playlist extensions the playback engine accepts, lowercase.
pub open spec fn supported_exts() -> Seq<Seq<char>> {
    seq![
        "mp3"@,
        "wav"@,
        "flac"@,
        "ogg"@,
        "m4a"@,
        "aac"@,
        "m4b"@,
        "m4p"@,
        "alac"@,
        "wma"@,
        "opus"@,
        "m3u"@,
        "m3u8"@,
    ]
}

/// The supported extensions as a vector of strings, in their fixed order.
pub fn supported_extensions() -> (v: Vec<String>)
    ensures
        v.deep_view() == supported_exts(),
{
    let mut v: Vec<String> = Vec::new();
    v.push(String::from_str("mp3"));
    v.push(String::from_str("wav"));
    v.push(String::from_str("flac"));
    v.push(String::from_str("ogg"));
    v.push(String::from_str("m4a"));
    v.push(String::from_str("aac"));
    v.push(String::from_str("m4b"));
    v.push(String::from_str("m4p"));
    v.push(String::from_str("alac"));
    v.push(String::from_str("wma"));
    v.push(String::from_str("opus"));
    v.push(String::from_str("m3u"));
    v.push(String::from_str("m3u8"));
    proof {
        assert(v.deep_view() =~= supported_exts());
    }
    v
}

/// The supported extensions joined for the error message.
pub open spec fn supported_list() -> Seq<char> {
    join_with(supported_exts(), ", "@)
}

/// Joined rendering of the supported extensions, executably.
pub fn supported_list_string() -> (r: String)
    ensures
        r@ == supported_list(),
{
    let v = supported_extensions();
    join_strings(&v, ", ")
}

/// Every supported extension is already lowercase.
proof fn lemma_supported_exts_lowercase()
    ensures
        forall|k: int|
            0 <= k < supported_exts().len() ==> lower_seq(#[trigger] supported_exts()[k])
                == supported_exts()[k],
{
    reveal_strlit("mp3");
    reveal_strlit("wav");
    reveal_strlit("flac");
    reveal_strlit("ogg");
    reveal_strlit("m4a");
    reveal_strlit("aac");
    reveal_strlit("m4b");
    reveal_strlit("m4p");
    reveal_strlit("alac");
    reveal_strlit("wma");
    reveal_strlit("opus");
    reveal_strlit("m3u");
    reveal_strlit("m3u8");
    assert(lower_seq("mp3"@) =~= "mp3"@);
    assert(lower_seq("wav"@) =~= "wav"@);
    assert(lower_seq("flac"@) =~= "flac"@);
    assert(lower_seq("ogg"@) =~= "ogg"@);
    assert(lower_seq("m4a"@) =~= "m4a"@);
    assert(lower_seq("aac"@) =~= "aac"@);
    assert(lower_seq("m4b"@) =~= "m4b"@);
    assert(lower_seq("m4p"@) =~= "m4p"@);
    assert(lower_seq("alac"@) =~= "alac"@);
    assert(lower_seq("wma"@) =~= "wma"@);
    assert(lower_seq("opus"@) =~= "opus"@);
    assert(lower_seq("m3u"@) =~= "m3u"@);
    assert(lower_seq("m3u8"@) =~= "m3u8"@);
}

/// An extension is accepted when its lowercase form is a supported one.
pub open spec fn ext_supported(e: Seq<char>) -> bool {
    exists|k: int| 0 <= k < supported_exts().len() && lower_seq(e) == #[trigger] supported_exts()[k]
}

/// Case-insensitive membership of `ext` in the supported set.
pub fn is_supported_extension(ext: &str) -> (r: bool)
    ensures
        r == ext_supported(ext@),
{
    proof {
        lemma_supported_exts_lowercase();
    }
    let r = str_eq_ignore_ascii_case(ext, "mp3") || str_eq_ignore_ascii_case(ext, "wav")
        || str_eq_ignore_ascii_case(ext, "flac") || str_eq_ignore_ascii_case(ext, "ogg")
        || str_eq_ignore_ascii_case(ext, "m4a") || str_eq_ignore_ascii_case(ext, "aac")
        || str_eq_ignore_ascii_case(ext, "m4b") || str_eq_ignore_ascii_case(ext, "m4p")
        || str_eq_ignore_ascii_case(ext, "alac") || str_eq_ignore_ascii_case(ext, "wma")
        || str_eq_ignore_ascii_case(ext, "opus") || str_eq_ignore_ascii_case(ext, "m3u")
        || str_eq_ignore_ascii_case(ext, "m3u8");
    proof {
        if r {
            assert(ext_supported(ext@));
        } else {
            assert(forall|k: int|
                0 <= k < supported_exts().len() ==> lower_seq(ext@)
                    != #[trigger] supported_exts()[k]);
        }
    }
    r
}

/// The supported-extension list occurs in full inside the joined message text.
pub proof fn lemma_message_lists_supported(k: int)
    requires
        0 <= k < supported_exts().len(),
    ensures
        has_sub(supported_list(), supported_exts()[k]),
{
    lemma_join_contains(supported_exts(), ", "@, k);
}

/// Index of the last occurrence of `c` in `s`, or -1 when absent.
pub open spec fn last_idx(s: Seq<char>, c: char) -> int
    decreases s.len(),
{
    if s.len() == 0 {
        -1
    } else if s.last() == c {
        s.len() - 1
    } else {
        last_idx(s.drop_last(), c)
    }
}

/// `last_idx` is the largest index holding `c`, or -1 when `c` is absent.
pub proof fn lemma_last_idx(s: Seq<char>, c: char)
    ensures
        -1 <= last_idx(s, c) < s.len(),
        last_idx(s, c) >= 0 ==> s[last_idx(s, c)] == c,
        forall|j: int| last_idx(s, c) < j < s.len() ==> s[j] != c,
    decreases s.len(),
{
    if s.len() > 0 && s.last() != c {
        lemma_last_idx(s.drop_last(), c);
        assert(forall|j: int| 0 <= j < s.len() - 1 ==> s[j] == s.drop_last()[j]);
    }
}

/// Index of the last occurrence of `c`, executably.
pub fn last_index_of(s: &str, c: char) -> (r: Option<usize>)
    ensures
        r matches Some(i) ==> last_idx(s@, c) == i,
        r is None ==> last_idx(s@, c) == -1,
{
    proof {
        lemma_last_idx(s@, c);
    }
    let n = s.unicode_len();
    let mut i = n;
    while i > 0
        invariant
            0 <= i <= n,
            forall|j: int| i <= j < n ==> s@[j] != c,
        decreases i,
    {
        i = i - 1;
        if s.get_char(i) == c {
            proof {
                let l = last_idx(s@, c);
                assert(l >= i);
                assert(l <= i);
            }
            return Some(i);
        }
    }
    proof {
        assert(last_idx(s@, c) == -1) by {
            if last_idx(s@, c) >= 0 {
                assert(s@[last_idx(s@, c)] == c);
            }
        }
    }
    None
}

/// The file name of a path: everything after its last separator.
pub open spec fn file_name_of(path: Seq<char>) -> Seq<char> {
    path.subrange(last_idx(path, '/') + 1, path.len() as int)
}

/// The extension of a path: the part of the last path component after its
/// last dot, or nothing when that component has no dot past its first
/// character. On the canonical file paths the resolver validates this agrees
/// with the platform's file-name rules.
pub open spec fn path_ext(path: Seq<char>) -> Option<Seq<char>> {
    let name = file_name_of(path);
    let d = last_idx(name, '.');
    if d <= 0 {
        None
    } else {
        Some(name.subrange(d + 1, name.len() as int))
    }
}

/// The extension of `path`, executably.
pub fn file_extension(path: &str) -> (r: Option<String>)
    ensures
        r matches Some(e) ==> path_ext(path@) == Some(e@),
        r is None ==> path_ext(path@) is None,
{
    proof {
        lemma_last_idx(path@, '/');
    }
    let n = path.unicode_len();
    let name_start = match last_index_of(path, '/') {
        Some(i) => i + 1,
        None => 0,
    };
    let name = path.substring_char(name_start, n);
    proof {
        assert(name@ == file_name_of(path@));
    }
    let name_len = name.unicode_len();
    proof {
        lemma_last_idx(name@, '.');
    }
    match last_index_of(name, '.') {
        None => None,
        Some(d) => {
            if d == 0 {
                None
            } else {
                assert(d < name@.len());
                Some(String::from_str(name.substring_char(d + 1, name_len)))
            }
        },
    }
}

/// A regular file is accepted exactly when its extension is supported; the
/// error carries the path and, when one exists, the extension.
pub fn validate_local_file_type(path: &str) -> (r: Result<(), LaunchError>)
    ensures
        r is Ok <==> (path_ext(path@) matches Some(e) && ext_supported(e)),
        r matches Err(e) ==> (e matches LaunchError::UnsupportedFileType { path: p, ext } && p@
            == path@ && ext.deep_view() == path_ext(path@)),
{
    match file_extension(path) {
        None => Err(
            LaunchError::UnsupportedFileType { path: String::from_str(path), ext: None },
        ),
        Some(ext) => {
            if is_supported_extension(ext.as_str()) {
                Ok(())
            } else {
                Err(
                    LaunchError::UnsupportedFileType {
                        path: String::from_str(path),
                        ext: Some(ext),
                    },
                )
            }
        },
    }
}

/// A token is a remote locator exactly when it contains "://".
pub fn looks_like_url(input: &str) -> (r: bool)
    ensures
        r == has_sub(input@, "://"@),
{
    contains_sub(input, "://")
}

/// What the filesystem said about a canonicalized local input.
pub enum FsEntry {
    /// Canonicalization failed: no such entry.
    Missing,
    /// A regular file at its canonical path.
    File { canonical: String },
    /// A directory at its canonical path.
    Dir { canonical: String },
    /// Some other entry kind at its canonical path.
    Other { canonical: String },
}

/// The resolution of one raw token given the filesystem's answer: the value
/// the token contributes to the Resolved Input List, or `None` when the
/// launcher rejects it. A remote locator passes through unchanged whatever
/// the filesystem said.
pub open spec fn token_resolution(token: Seq<char>, entry: FsEntry) -> Option<Seq<char>> {
    if has_sub(token, "://"@) {
        Some(token)
    } else {
        match entry {
            FsEntry::Missing => None,
            FsEntry::File { canonical } => {
                if path_ext(canonical@) matches Some(e) && ext_supported(e) {
                    Some(canonical@)
                } else {
                    None
                }
            },
            FsEntry::Dir { canonical } => Some(canonical@),
            FsEntry::Other { canonical } => None,
        }
    }
}

/// The error a failing token yields, by the filesystem's answer: a missing
/// entry names the raw token, a file with an unaccepted extension names its
/// canonical path and extension, and any other entry kind names its
/// canonical path. A directory or a remote locator never fails.
pub open spec fn token_error_spec(token: Seq<char>, entry: FsEntry, e: LaunchError) -> bool {
    match entry {
        FsEntry::Missing => e matches LaunchError::PathNotFound { path } && path@ == token,
        FsEntry::File { canonical } => e matches LaunchError::UnsupportedFileType { path, ext }
            && path@ == canonical@ && ext.deep_view() == path_ext(canonical@),
        FsEntry::Dir { canonical } => false,
        FsEntry::Other { canonical } => e matches LaunchError::UnsupportedPathType { path }
            && path@ == canonical@,
    }
}

/// Resolves one raw token. Remote locators (containing "://") pass through
/// without any use of `entry`; other tokens follow the filesystem's answer.
pub fn resolve_token(token: &str, entry: &FsEntry) -> (r: Result<String, LaunchError>)
    ensures
        has_sub(token@, "://"@) ==> (r matches Ok(t) && t@ == token@),
        !has_sub(token@, "://"@) ==> match *entry {
            FsEntry::Missing => r matches Err(LaunchError::PathNotFound { path }) && path@
                == token@,
            FsEntry::File { canonical } => {
                &&& (r is Ok <==> (path_ext(canonical@) matches Some(e) && ext_supported(e)))
                &&& (r matches Ok(t) ==> t@ == canonical@)
                &&& (r matches Err(e) ==> (e matches LaunchError::UnsupportedFileType {
                    path: p,
                    ext,
                } && p@ == canonical@ && ext.deep_view() == path_ext(canonical@)))
            },
            FsEntry::Dir { canonical } => r matches Ok(t) && t@ == canonical@,
            FsEntry::Other { canonical } => r matches Err(LaunchError::UnsupportedPathType {
                path,
            }) && path@ == canonical@,
        },
{
    if looks_like_url(token) {
        return Ok(String::from_str(token));
    }
    match entry {
        FsEntry::Missing => Err(LaunchError::PathNotFound { path: String::from_str(token) }),
        FsEntry::File { canonical } => {
            match validate_local_file_type(canonical.as_str()) {
                Ok(()) => Ok(canonical.clone()),
                Err(e) => Err(e),
            }
        },
        FsEntry::Dir { canonical } => Ok(canonical.clone()),
        FsEntry::Other { canonical } => Err(
            LaunchError::UnsupportedPathType { path: canonical.clone() },
        ),
    }
}

/// Resolves a whole argument list against the filesystem's answers, stopping
/// at the first failure as the launcher does.
pub fn resolve_tokens(tokens: &Vec<String>, entries: &Vec<FsEntry>) -> (r: Result<
    Vec<String>,
    LaunchError,
>)
    requires
        tokens@.len() == entries@.len(),
    ensures
        r is Ok <==> (forall|i: int|
            0 <= i < tokens@.len() ==> #[trigger] token_resolution(tokens@[i]@, entries@[i])
                is Some),
        r matches Ok(list) ==> {
            &&& list@.len() == tokens@.len()
            &&& forall|i: int|
                0 <= i < tokens@.len() ==> #[trigger] token_resolution(tokens@[i]@, entries@[i])
                    == Some(list@[i]@)
        },
        r matches Err(e) ==> (exists|i: int|
            {
                &&& 0 <= i < tokens@.len()
                &&& token_resolution(tokens@[i]@, entries@[i]) is None
                &&& token_error_spec(tokens@[i]@, entries@[i], e)
                &&& forall|j: int|
                    0 <= j < i ==> #[trigger] token_resolution(tokens@[j]@, entries@[j]) is Some
            }),
{
    let mut out: Vec<String> = Vec::new();
    let mut i: usize = 0;
    while i < tokens.len()
        invariant
            0 <= i <= tokens@.len(),
            out@.len() == i,
            forall|j: int|
                0 <= j < i ==> #[trigger] token_resolution(tokens@[j]@, entries@[j]) == Some(
                    out@[j]@,
                ),
        decreases tokens@.len() - i,
    {
        match resolve_token(tokens[i].as_str(), &entries[i]) {
            Ok(t) => {
                out.push(t);
            },
            Err(e) => {
                proof {
                    assert(token_resolution(tokens@[i as int]@, entries@[i as int]) is None);
                }
                return Err(e);
            },
        }
        i = i + 1;
    }
    Ok(out)
}

} // verus!
