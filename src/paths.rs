use vstd::prelude::*;
use vstd::string::StrSliceExecFns;
use vstd::string::StringExecFns;
use crate::args::{owned, push_str_arg, views};

verus! {

/// The position of the last `c` in `s`, if any.
pub open spec fn last_index_of(s: Seq<char>, c: char) -> Option<nat>
    decreases s.len(),
{
    if s.len() == 0 {
        None
    } else if s.last() == c {
        Some((s.len() - 1) as nat)
    } else {
        last_index_of(s.drop_last(), c)
    }
}

proof fn lemma_last_index_of(s: Seq<char>, c: char)
    ensures
        last_index_of(s, c) matches Some(k) ==> k < s.len() && s[k as int] == c
            && forall|j: int| k < j < s.len() ==> s[j] != c,
        last_index_of(s, c) is None ==> forall|j: int| 0 <= j < s.len() ==> s[j] != c,
    decreases s.len(),
{
    if s.len() > 0 && s.last() != c {
        lemma_last_index_of(s.drop_last(), c);
        assert forall|j: int| 0 <= j < s.len() - 1 implies s.drop_last()[j] == s[j] by {}
    }
}

/// Where the file name of `p` starts: after its last slash.
pub open spec fn name_start(p: Seq<char>) -> nat {
    match last_index_of(p, '/') {
        Some(k) => k + 1,
        None => 0,
    }
}

/// Where the extension's dot of `p` stands: the last dot of the file name, not
/// its first character.
pub open spec fn ext_dot(p: Seq<char>) -> Option<nat> {
    match last_index_of(p, '.') {
        Some(d) => if d > name_start(p) { Some(d) } else { None },
        None => None,
    }
}

/// The file name without its extension; a name that is empty or ".." has none.
pub open spec fn file_stem(p: Seq<char>) -> Option<Seq<char>> {
    let name = p.skip(name_start(p) as int);
    if name.len() == 0 || name == seq!['.', '.'] {
        None
    } else {
        match ext_dot(p) {
            Some(d) => Some(p.subrange(name_start(p) as int, d as int)),
            None => Some(name),
        }
    }
}

/// Whether `p` names a file in the container that in-app playback cannot read:
/// its extension is "mov" in any case.
pub open spec fn is_incompatible(p: Seq<char>) -> bool {
    match ext_dot(p) {
        Some(d) => {
            let e = p.skip(d as int + 1);
            &&& e.len() == 3
            &&& (e[0] == 'm' || e[0] == 'M')
            &&& (e[1] == 'o' || e[1] == 'O')
            &&& (e[2] == 'v' || e[2] == 'V')
        },
        None => false,
    }
}

/// Where the normalized copy of `input` is kept: its stem (or "converted") with
/// the compatible container's extension, inside `dir`. Files of one stem share it.
pub open spec fn normalized_path(dir: Seq<char>, input: Seq<char>) -> Seq<char> {
    let stem = match file_stem(input) {
        Some(s) => s,
        None => "converted"@,
    };
    dir + "/"@ + stem + ".mp4"@
}

/// The engine arguments that re-encode `input` into `output` with a
/// streaming-friendly layout.
pub open spec fn convert_args(input: Seq<char>, output: Seq<char>) -> Seq<Seq<char>> {
    seq![
        "-y"@, "-i"@, input, "-c:v"@, "libx264"@, "-crf"@, "23"@, "-preset"@, "veryfast"@,
        "-c:a"@, "aac"@, "-movflags"@, "+faststart"@, output,
    ]
}

/// The position of the last `c` in `s`.
pub fn rfind_char(s: &str, c: char) -> (r: Option<usize>)
    ensures
        r matches Some(k) ==> last_index_of(s@, c) == Some(k as nat),
        r is None ==> last_index_of(s@, c) is None,
        r matches Some(k) ==> k < s@.len() <= usize::MAX,
{
    proof { lemma_last_index_of(s@, c); }
    let n = s.unicode_len();
    let mut i: usize = n;
    while i > 0
        invariant
            i <= n == s@.len(),
            forall|j: int| i <= j < n ==> s@[j] != c,
        decreases i,
    {
        if s.get_char(i - 1) == c {
            proof {
                lemma_last_index_of(s@, c);
                match last_index_of(s@, c) {
                    Some(k) => {
                        assert(s@[k as int] == c);
                        assert(s@[i - 1] == c);
                    },
                    None => {},
                }
            }
            return Some(i - 1);
        }
        i = i - 1;
    }
    proof {
        lemma_last_index_of(s@, c);
        if let Some(k) = last_index_of(s@, c) {
            assert(s@[k as int] == c);
        }
    }
    None
}

fn name_start_of(p: &str) -> (r: usize)
    ensures
        r as nat == name_start(p@),
        r <= p@.len(),
{
    proof { lemma_last_index_of(p@, '/'); }
    match rfind_char(p, '/') {
        Some(k) => k + 1,
        None => 0,
    }
}

fn ext_dot_of(p: &str) -> (r: Option<usize>)
    ensures
        r matches Some(d) ==> ext_dot(p@) == Some(d as nat) && d < p@.len(),
        r is None ==> ext_dot(p@) is None,
{
    proof { lemma_last_index_of(p@, '.'); }
    let start = name_start_of(p);
    match rfind_char(p, '.') {
        Some(d) => if d > start { Some(d) } else { None },
        None => None,
    }
}

/// Whether `path` must be normalized before it can be played in the app.
pub fn needs_normalizing(path: &str) -> (r: bool)
    ensures
        r == is_incompatible(path@),
{
    match ext_dot_of(path) {
        Some(d) => {
            let n = path.unicode_len();
            if n - d - 1 != 3 {
                return false;
            }
            let a = path.get_char(d + 1);
            let b = path.get_char(d + 2);
            let c = path.get_char(d + 3);
            (a == 'm' || a == 'M') && (b == 'o' || b == 'O') && (c == 'v' || c == 'V')
        },
        None => false,
    }
}

/// The path of the normalized copy of `input` inside `dir`.
pub fn normalized_file(dir: &str, input: &str) -> (r: String)
    ensures
        r@ == normalized_path(dir@, input@),
{
    let n = input.unicode_len();
    let start = name_start_of(input);
    let name = input.substring_char(start, n);
    let is_dotdot = name.unicode_len() == 2 && name.get_char(0) == '.' && name.get_char(1) == '.';
    let mut s = owned(dir);
    s.append("/");
    if name.unicode_len() == 0 || is_dotdot {
        s.append("converted");
    } else {
        match ext_dot_of(input) {
            Some(d) => s.append(input.substring_char(start, d)),
            None => s.append(name),
        }
    }
    s.append(".mp4");
    proof {
        assert(name@ =~= input@.skip(start as int));
        if name@.len() == 2 {
            assert(is_dotdot <==> name@ =~= seq!['.', '.']);
        }
    }
    s
}

/// The arguments that re-encode `input` into `output`.
pub fn convert_command(input: &str, output: &str) -> (r: Vec<String>)
    ensures
        views(r@) == convert_args(input@, output@),
{
    let mut v: Vec<String> = Vec::new();
    push_str_arg(&mut v, "-y");
    push_str_arg(&mut v, "-i");
    push_str_arg(&mut v, input);
    push_str_arg(&mut v, "-c:v");
    push_str_arg(&mut v, "libx264");
    push_str_arg(&mut v, "-crf");
    push_str_arg(&mut v, "23");
    push_str_arg(&mut v, "-preset");
    push_str_arg(&mut v, "veryfast");
    push_str_arg(&mut v, "-c:a");
    push_str_arg(&mut v, "aac");
    push_str_arg(&mut v, "-movflags");
    push_str_arg(&mut v, "+faststart");
    push_str_arg(&mut v, output);
    assert(views(v@) =~= convert_args(input@, output@));
    v
}

/// A file in the incompatible container is never its own normalized copy: the
/// path a probe reports for it differs from the path it was given.
pub proof fn lemma_normalized_differs(dir: Seq<char>, input: Seq<char>)
    requires
        is_incompatible(input),
    ensures
        normalized_path(dir, input) != input,
{
    reveal_strlit(".mp4");
    let d = ext_dot(input).unwrap();
    lemma_last_index_of(input, '.');
    let e = input.skip(d as int + 1);
    assert(input.last() == e[2]);
    let out = normalized_path(dir, input);
    assert(out.last() == '4');
}

} // verus!
