//! File extensions and the kind of media that each stands for.

use vstd::prelude::*;
use vstd::string::StrSliceExecFns;
use crate::payload::texts;
use crate::policy::{Policy, PolicyView};
use crate::text::chars_of;

verus! {

/// The kind of media that a file's extension announces.
#[derive(Clone, Copy, Debug, PartialEq, Eq, Structural)]
pub enum MediaKind {
    /// A sound file, which can be transcribed as it is.
    Audio,
    /// A film, whose sound track has to be taken out first.
    Video,
    /// Anything else.
    Unsupported,
}

/// Whether the character parts the directories of a path.
pub open spec fn is_separator(c: char) -> bool {
    c == '/' || c == '\\'
}

/// Where the file name of `path` begins: behind its last separator.
pub open spec fn name_start(path: Seq<char>) -> int
    decreases path.len(),
{
    if path.len() == 0 {
        0
    } else if is_separator(path.last()) {
        path.len() as int
    } else {
        name_start(path.drop_last())
    }
}

/// Where the file name of `path` ends: behind its last character that is no
/// separator.
pub open spec fn name_end(path: Seq<char>) -> int
    decreases path.len(),
{
    if path.len() == 0 {
        0
    } else if is_separator(path.last()) {
        name_end(path.drop_last())
    } else {
        path.len() as int
    }
}

/// The file name of `path`: with the separators at the end of the path left
/// aside, what follows the last separator. A component `.` at the end is a
/// file name like any other.
pub open spec fn file_name(path: Seq<char>) -> Seq<char> {
    let stem = path.take(name_end(path));
    stem.subrange(name_start(stem), stem.len() as int)
}

/// The position of the last dot in `name`, or -1 where it has none.
pub open spec fn last_dot(name: Seq<char>) -> int
    decreases name.len(),
{
    if name.len() == 0 {
        -1
    } else if name.last() == '.' {
        name.len() - 1
    } else {
        last_dot(name.drop_last())
    }
}

/// The extension of `path`: what follows the last dot of its file name. A
/// file name without a dot, or whose only dot is its first character, has
/// the empty extension.
pub open spec fn extension(path: Seq<char>) -> Seq<char> {
    let name = file_name(path);
    if last_dot(name) <= 0 {
        Seq::empty()
    } else {
        name.subrange(last_dot(name) + 1, name.len() as int)
    }
}

/// The character as extensions are compared: a capital letter of ASCII stands
/// for its small letter and the Kelvin sign for `k`, which is what lowering the
/// case does to the characters that can match a letter of ASCII.
pub open spec fn folded_char(c: char) -> char {
    if 'A' <= c && c <= 'Z' {
        ((c as u8 + 32) as u8) as char
    } else if c == '\u{212A}' {
        'k'
    } else {
        c
    }
}

/// The text with each character folded.
pub open spec fn folded(s: Seq<char>) -> Seq<char> {
    Seq::new(s.len(), |i: int| folded_char(s[i]))
}

/// The kind of media of an extension under a policy, compared without regard
/// to case: the sound files are looked up first.
pub open spec fn kind_of_extension(policy: PolicyView, ext: Seq<char>) -> MediaKind {
    if policy.audio_extensions.contains(folded(ext)) {
        MediaKind::Audio
    } else if policy.video_extensions.contains(folded(ext)) {
        MediaKind::Video
    } else {
        MediaKind::Unsupported
    }
}

/// The kind of media of the file at `path`.
pub open spec fn kind_of_path(policy: PolicyView, path: Seq<char>) -> MediaKind {
    kind_of_extension(policy, extension(path))
}

/// Whether the file at `path` is in the one format that needs no conversion
/// before it is transcribed.
pub open spec fn is_canonical_audio(path: Seq<char>) -> bool {
    folded(extension(path)) == "mp3"@
}

proof fn lemma_last_dot_at(name: Seq<char>, d: int)
    requires
        0 <= d < name.len(),
        name[d] == '.',
        forall|i: int| d < i < name.len() ==> #[trigger] name[i] != '.',
    ensures
        last_dot(name) == d,
    decreases name.len(),
{
    if name.last() != '.' {
        let t = name.drop_last();
        assert forall|i: int| d < i < t.len() implies #[trigger] t[i] != '.' by {
            assert(t[i] == name[i]);
        }
        lemma_last_dot_at(t, d);
    }
}

proof fn lemma_no_dot(name: Seq<char>)
    requires
        forall|i: int| 0 <= i < name.len() ==> #[trigger] name[i] != '.',
    ensures
        last_dot(name) == -1,
    decreases name.len(),
{
    if name.len() > 0 {
        let t = name.drop_last();
        assert forall|i: int| 0 <= i < t.len() implies #[trigger] t[i] != '.' by {
            assert(t[i] == name[i]);
        }
        lemma_no_dot(t);
    }
}

proof fn lemma_name_end_at(path: Seq<char>, e: int)
    requires
        0 <= e <= path.len(),
        e > 0 ==> !is_separator(path[e - 1]),
        forall|i: int| e <= i < path.len() ==> is_separator(#[trigger] path[i]),
    ensures
        name_end(path) == e,
    decreases path.len(),
{
    if path.len() > 0 && is_separator(path.last()) {
        let t = path.drop_last();
        assert forall|i: int| e <= i < t.len() implies is_separator(#[trigger] t[i]) by {
            assert(t[i] == path[i]);
        }
        lemma_name_end_at(t, e);
    }
}

proof fn lemma_name_start_at(path: Seq<char>, k: int)
    requires
        0 <= k <= path.len(),
        k > 0 ==> is_separator(path[k - 1]),
        forall|i: int| k <= i < path.len() ==> !is_separator(#[trigger] path[i]),
    ensures
        name_start(path) == k,
    decreases path.len(),
{
    if path.len() > 0 && !is_separator(path.last()) {
        let t = path.drop_last();
        assert forall|i: int| k <= i < t.len() implies !is_separator(#[trigger] t[i]) by {
            assert(t[i] == path[i]);
        }
        lemma_name_start_at(t, k);
    }
}

/// The extension of the file at `path`, in the letters that the path has.
pub fn extension_of(path: &str) -> (ext: &str)
    ensures
        ext@ == extension(path@),
{
    let v = chars_of(path);
    let mut n: usize = v.len();
    while n > 0 && (v[n - 1] == '/' || v[n - 1] == '\\')
        invariant
            n <= v@.len(),
            forall|i: int| n <= i < v@.len() ==> is_separator(#[trigger] v@[i]),
        decreases n,
    {
        n = n - 1;
    }
    let mut k: usize = n;
    let mut dot: Option<usize> = None;
    while k > 0 && !(v[k - 1] == '/' || v[k - 1] == '\\')
        invariant
            k <= n <= v@.len(),
            forall|i: int| k <= i < n ==> !is_separator(#[trigger] v@[i]),
            match dot {
                Some(d) => k <= d < n && v@[d as int] == '.' && forall|i: int|
                    d < i < n ==> #[trigger] v@[i] != '.',
                None => forall|i: int| k <= i < n ==> #[trigger] v@[i] != '.',
            },
        decreases k,
    {
        if dot.is_none() && v[k - 1] == '.' {
            dot = Some(k - 1);
        }
        k = k - 1;
    }
    proof {
        lemma_name_end_at(path@, n as int);
        let stem = path@.take(n as int);
        assert forall|i: int| k <= i < stem.len() implies !is_separator(#[trigger] stem[i]) by {
            assert(stem[i] == v@[i]);
        }
        lemma_name_start_at(stem, k as int);
        let name = file_name(path@);
        assert(name =~= path@.subrange(k as int, n as int));
        match dot {
            Some(d) => {
                assert forall|i: int| d - k < i < name.len() implies #[trigger] name[i] != '.' by {
                    assert(name[i] == v@[i + k]);
                }
                lemma_last_dot_at(name, d - k);
                if d > k {
                    assert(name.subrange(d - k + 1, name.len() as int) =~= path@.subrange(
                        d + 1,
                        n as int,
                    ));
                }
            },
            None => {
                assert forall|i: int| 0 <= i < name.len() implies #[trigger] name[i] != '.' by {
                    assert(name[i] == v@[i + k]);
                }
                lemma_no_dot(name);
            },
        }
    }
    match dot {
        Some(d) => {
            if d > k {
                path.substring_char(d + 1, n)
            } else {
                path.substring_char(n, n)
            }
        },
        None => path.substring_char(n, n),
    }
}

/// The character as extensions are compared.
pub fn fold_char(c: char) -> (r: char)
    ensures
        r == folded_char(c),
{
    if 'A' <= c && c <= 'Z' {
        ((c as u8 + 32) as u8) as char
    } else if c == '\u{212A}' {
        'k'
    } else {
        c
    }
}

/// Whether `ext`, folded, is `word`.
pub fn folds_to(ext: &str, word: &str) -> (r: bool)
    ensures
        r == (folded(ext@) == word@),
{
    let e = chars_of(ext);
    let w = chars_of(word);
    if e.len() != w.len() {
        return false;
    }
    let n: usize = e.len();
    let mut i: usize = 0;
    while i < n
        invariant
            i <= n,
            n == e@.len(),
            n == w@.len(),
            e@ == ext@,
            w@ == word@,
            forall|j: int| 0 <= j < i ==> folded_char(#[trigger] e@[j]) == w@[j],
        decreases n - i,
    {
        if fold_char(e[i]) != w[i] {
            assert(folded(ext@)[i as int] != word@[i as int]);
            return false;
        }
        i = i + 1;
    }
    assert(folded(ext@) =~= word@);
    true
}

/// Whether `ext`, folded, is in the list.
pub fn is_listed(list: &Vec<String>, ext: &str) -> (r: bool)
    ensures
        r == texts(list@).contains(folded(ext@)),
{
    let n: usize = list.len();
    let mut i: usize = 0;
    while i < n
        invariant
            i <= n,
            n == list@.len(),
            forall|j: int| 0 <= j < i ==> texts(list@)[j] != folded(ext@),
        decreases n - i,
    {
        if folds_to(ext, list[i].as_str()) {
            assert(texts(list@)[i as int] == folded(ext@));
            return true;
        }
        i = i + 1;
    }
    false
}

/// The kind of media that the extension `ext` announces under the policy.
pub fn classify_extension(policy: &Policy, ext: &str) -> (kind: MediaKind)
    ensures
        kind == kind_of_extension(policy@, ext@),
{
    if is_listed(&policy.audio_extensions, ext) {
        MediaKind::Audio
    } else if is_listed(&policy.video_extensions, ext) {
        MediaKind::Video
    } else {
        MediaKind::Unsupported
    }
}

/// The kind of media of the file at `path` under the policy.
pub fn classify_path(policy: &Policy, path: &str) -> (kind: MediaKind)
    ensures
        kind == kind_of_path(policy@, path@),
{
    classify_extension(policy, extension_of(path))
}

/// Whether the file at `path` needs no conversion before it is transcribed.
pub fn needs_no_conversion(path: &str) -> (r: bool)
    ensures
        r == is_canonical_audio(path@),
{
    folds_to(extension_of(path), "mp3")
}

} // verus!
