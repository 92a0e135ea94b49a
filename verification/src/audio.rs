use vstd::prelude::*;
use vstd::string::StrSliceExecFns;

verus! {

/// `c` is the letter `l`, in either case; other characters match only
/// themselves.
pub open spec fn same_letter(c: char, l: char) -> bool {
    c == l || ('a' <= l <= 'z' && c as int + 32 == l as int)
}

/// The path `s` ends in the extension `ext`: a dot and then `ext`, in either
/// case, after a file name that does not start with that dot.
pub open spec fn has_extension(s: Seq<char>, ext: Seq<char>) -> bool {
    let n = s.len();
    let m = ext.len();
    &&& n >= m + 2
    &&& s[n - m - 1] == '.'
    &&& s[n - m - 2] != '/'
    &&& forall|k: int| 0 <= k < m ==> same_letter(s[n - m + k], ext[k])
}

/// The path names an audio file by its extension: mp3, flac, ogg, wav, m4a,
/// opus or aac.
pub open spec fn is_audio(s: Seq<char>) -> bool {
    ||| has_extension(s, seq!['m', 'p', '3'])
    ||| has_extension(s, seq!['f', 'l', 'a', 'c'])
    ||| has_extension(s, seq!['o', 'g', 'g'])
    ||| has_extension(s, seq!['w', 'a', 'v'])
    ||| has_extension(s, seq!['m', '4', 'a'])
    ||| has_extension(s, seq!['o', 'p', 'u', 's'])
    ||| has_extension(s, seq!['a', 'a', 'c'])
}

/// The paths of `paths` that name audio files, in order.
pub open spec fn audio_only(paths: Seq<String>) -> Seq<String>
    decreases paths.len(),
{
    if paths.len() == 0 {
        Seq::empty()
    } else {
        let rest = audio_only(paths.drop_last());
        if is_audio(paths.last()@) {
            rest.push(paths.last())
        } else {
            rest
        }
    }
}

fn same_letter_exec(c: char, l: char) -> (r: bool)
    ensures
        r == same_letter(c, l),
{
    c == l || ('a' <= l && l <= 'z' && (c as u32) + 32 == (l as u32))
}

fn ends_with_extension(s: &str, n: usize, ext: &[char]) -> (r: bool)
    requires
        n == s@.len(),
    ensures
        r == has_extension(s@, ext@),
{
    let m = ext.len();
    if n < 2 || n - 2 < m {
        return false;
    }
    if s.get_char(n - m - 1) != '.' {
        return false;
    }
    if s.get_char(n - m - 2) == '/' {
        return false;
    }
    for k in 0..m
        invariant
            n == s@.len(),
            m == ext@.len(),
            n >= m + 2,
            forall|j: int| 0 <= j < k ==> same_letter(s@[n - m + j], ext@[j]),
    {
        if !same_letter_exec(s.get_char(n - m + k), ext[k]) {
            return false;
        }
    }
    true
}

/// Whether `path` names an audio file by its extension.
pub fn is_audio_path(path: &String) -> (r: bool)
    ensures
        r == is_audio(path@),
{
    let s = path.as_str();
    let n = s.unicode_len();
    ends_with_extension(s, n, &['m', 'p', '3'])
        || ends_with_extension(s, n, &['f', 'l', 'a', 'c'])
        || ends_with_extension(s, n, &['o', 'g', 'g'])
        || ends_with_extension(s, n, &['w', 'a', 'v'])
        || ends_with_extension(s, n, &['m', '4', 'a'])
        || ends_with_extension(s, n, &['o', 'p', 'u', 's'])
        || ends_with_extension(s, n, &['a', 'a', 'c'])
}

/// The paths of audio files among `paths`, in order.
pub fn filter_paths_for_audio_files(paths: Vec<String>) -> (r: Vec<String>)
    ensures
        r@ == audio_only(paths@),
{
    let mut r: Vec<String> = Vec::new();
    let n = paths.len();
    for k in 0..n
        invariant
            n == paths@.len(),
            r@ == audio_only(paths@.take(k as int)),
    {
        assert(paths@.take(k + 1).drop_last() == paths@.take(k as int));
        if is_audio_path(&paths[k]) {
            r.push(paths[k].clone());
        }
    }
    assert(paths@.take(n as int) == paths@);
    r
}

} // verus!
