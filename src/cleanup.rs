//! The files a job may leave behind: its output, the intermediate file of a re-encoding
//! job, and the downloader's in-progress variants of both.
use vstd::prelude::*;
use crate::text::texts;

verus! {

pub open spec fn is_separator(c: char) -> bool {
    c == '/' || c == '\\'
}

/// Length of what follows the last `.` of `s`, when no path separator follows that dot.
pub open spec fn tail_after_dot(s: Seq<char>) -> Option<nat>
    decreases s.len(),
{
    if s.len() == 0 {
        None
    } else if s.last() == '.' {
        Some(0)
    } else if is_separator(s.last()) {
        None
    } else {
        match tail_after_dot(s.drop_last()) {
            Some(k) => Some(k + 1),
            None => None,
        }
    }
}

/// Length of the extension of the file that `path` names: non-empty, after a dot that
/// does not start the file name.
pub open spec fn extension_len(path: Seq<char>) -> Option<nat> {
    match tail_after_dot(path) {
        Some(k) => if k > 0 && path.len() >= k + 2 && !is_separator(path[path.len() - k - 2]) {
            Some(k)
        } else {
            None
        },
        None => None,
    }
}

/// `path` with `.temp` placed before its extension (`a.mp4` to `a.temp.mp4`), or
/// appended where it has none.
pub open spec fn temp_path(path: Seq<char>) -> Seq<char> {
    match extension_len(path) {
        Some(k) => path.take(path.len() - k - 1) + ".temp"@ + path.skip(path.len() - k - 1),
        None => path + ".temp"@,
    }
}

/// The downloader's name for a file it is still writing.
pub open spec fn partial(path: Seq<char>) -> Seq<char> {
    path + ".part"@
}

/// Every file a job writing `output` may leave: the output and its in-progress variant,
/// and for a re-encoding job the intermediate file and its in-progress variant. The
/// variant that puts the in-progress suffix after the extension is `partial(output)`.
pub open spec fn artifacts(output: Seq<char>, reencode: bool) -> Seq<Seq<char>> {
    seq![output, partial(output)] + if reencode {
        seq![temp_path(output), partial(temp_path(output))]
    } else {
        Seq::empty()
    }
}

proof fn lemma_tail_after_dot(s: Seq<char>)
    ensures
        tail_after_dot(s) matches Some(k) ==> k < s.len() && s[s.len() - k - 1] == '.',
    decreases s.len(),
{
    if s.len() > 0 && s.last() != '.' && !is_separator(s.last()) {
        lemma_tail_after_dot(s.drop_last());
    }
}

/// The length of the extension of `path`, if it has one.
pub fn extension_length(path: &str) -> (r: Option<usize>)
    ensures
        r matches Some(k) ==> extension_len(path@) == Some(k as nat),
        r is None ==> extension_len(path@) is None,
        r matches Some(k) ==> k + 2 <= path@.len(),
{
    let n = path.unicode_len();
    let mut i: usize = n;
    assert(path@.take(n as int) =~= path@);
    while i > 0 && path.get_char(i - 1) != '.' && path.get_char(i - 1) != '/' && path.get_char(
        i - 1,
    ) != '\\'
        invariant
            n == path@.len(),
            i <= n,
            tail_after_dot(path@.take(i as int)) matches Some(k) ==> tail_after_dot(path@)
                == Some((k + n - i) as nat),
            tail_after_dot(path@.take(i as int)) is None ==> tail_after_dot(path@) is None,
        decreases i,
    {
        assert(path@.take(i as int).drop_last() =~= path@.take(i - 1));
        i = i - 1;
    }
    if i == 0 {
        assert(path@.take(0) =~= Seq::<char>::empty());
        return None;
    }
    assert(path@.take(i as int).last() == path@[i - 1]);
    if path.get_char(i - 1) != '.' {
        return None;
    }
    let k = n - i;
    proof {
        lemma_tail_after_dot(path@);
    }
    if k == 0 || i < 2 {
        return None;
    }
    let c = path.get_char(n - k - 2);
    if c == '/' || c == '\\' {
        return None;
    }
    Some(k)
}

/// The intermediate file of a re-encoding job that writes `output`.
pub fn temp_path_for(output: &str) -> (r: String)
    ensures
        r@ == temp_path(output@),
{
    let n = output.unicode_len();
    match extension_length(output) {
        Some(k) => {
            let mut r = output.substring_char(0, n - k - 1).to_owned();
            r.append(".temp");
            r.append(output.substring_char(n - k - 1, n));
            r
        },
        None => {
            let mut r = output.to_owned();
            r.append(".temp");
            r
        },
    }
}

/// The in-progress variant of `path`.
pub fn partial_path(path: &str) -> (r: String)
    ensures
        r@ == partial(path@),
{
    let mut r = path.to_owned();
    r.append(".part");
    r
}

/// Every file that cancelling a job writing `output` removes.
pub fn artifact_paths(output: &str, reencode: bool) -> (r: Vec<String>)
    ensures
        texts(r@) == artifacts(output@, reencode),
{
    let mut r: Vec<String> = Vec::new();
    r.push(output.to_owned());
    r.push(partial_path(output));
    if reencode {
        let temp = temp_path_for(output);
        let temp_partial = partial_path(temp.as_str());
        r.push(temp);
        r.push(temp_partial);
    }
    assert(texts(r@) =~= artifacts(output@, reencode));
    r
}

} // verus!
