//! Paths as `/`-separated text: joining, file names and extensions.
use vstd::prelude::*;
use vstd::string::*;

verus! {

/// Index of the last occurrence of `c` in `s`, or -1.
pub open spec fn last_index_of(s: Seq<char>, c: char) -> int
    decreases s.len(),
{
    if s.len() == 0 {
        -1
    } else if s.last() == c {
        s.len() - 1
    } else {
        last_index_of(s.drop_last(), c)
    }
}

proof fn lemma_last_index_of(s: Seq<char>, c: char)
    ensures
        -1 <= last_index_of(s, c) < s.len(),
        last_index_of(s, c) >= 0 ==> s[last_index_of(s, c)] == c,
        forall|k: int| last_index_of(s, c) < k < s.len() ==> s[k] != c,
    decreases s.len(),
{
    if s.len() > 0 && s.last() != c {
        lemma_last_index_of(s.drop_last(), c);
        assert forall|k: int| last_index_of(s, c) < k < s.len() implies s[k] != c by {
            if k < s.len() - 1 {
                assert(s[k] == s.drop_last()[k]);
            }
        }
    }
}

/// The last component of `p`: what follows its last `/`.
pub open spec fn file_name(p: Seq<char>) -> Seq<char> {
    p.subrange(last_index_of(p, '/') + 1, p.len() as int)
}

/// The extension of `p`: what follows the last `.` of its file name, where
/// that dot is not the name's first character.
pub open spec fn extension(p: Seq<char>) -> Option<Seq<char>> {
    let name = file_name(p);
    let d = last_index_of(name, '.');
    if d > 0 {
        Some(name.subrange(d + 1, name.len() as int))
    } else {
        None
    }
}

/// Whether `p` names a WebAssembly module: its extension is `wasm`.
pub open spec fn is_wasm_path(p: Seq<char>) -> bool {
    extension(p) == Some(seq!['w', 'a', 's', 'm'])
}

/// `p` with its `wasm` extension replaced by `ext`.
pub open spec fn replace_wasm_extension(p: Seq<char>, ext: Seq<char>) -> Seq<char> {
    p.subrange(0, p.len() - 4) + ext
}

/// `name` placed under the directory `base`.
pub open spec fn join_path(base: Seq<char>, name: Seq<char>) -> Seq<char> {
    if base.len() == 0 {
        name
    } else if base.last() == '/' {
        base + name
    } else {
        base + seq!['/'] + name
    }
}

/// Returns the index of the last `c` in `s`, if any.
fn find_last(s: &str, c: char) -> (r: Option<usize>)
    ensures
        r.is_some() <==> last_index_of(s@, c) >= 0,
        r.is_some() ==> r.unwrap() == last_index_of(s@, c),
{
    let n = s.unicode_len();
    let mut i = n;
    assert(s@.subrange(0, n as int) == s@);
    while i > 0
        invariant
            i <= n,
            n == s@.len(),
            last_index_of(s@, c) == last_index_of(s@.subrange(0, i as int), c),
        decreases i,
    {
        let ch = s.get_char(i - 1);
        assert(s@.subrange(0, i - 1) == s@.subrange(0, i as int).drop_last());
        if ch == c {
            return Some(i - 1);
        }
        i = i - 1;
    }
    None
}

/// The last component of `p`.
pub fn file_name_str(p: &str) -> (r: &str)
    ensures
        r@ == file_name(p@),
{
    let n = p.unicode_len();
    proof {
        lemma_last_index_of(p@, '/');
    }
    let start = match find_last(p, '/') {
        Some(k) => k + 1,
        None => 0,
    };
    p.substring_char(start, n)
}

/// Whether the path `p` has the extension `wasm`.
pub fn is_wasm(p: &str) -> (r: bool)
    ensures
        r == is_wasm_path(p@),
{
    let n = p.unicode_len();
    proof {
        lemma_last_index_of(p@, '/');
    }
    let start = match find_last(p, '/') {
        Some(k) => k + 1,
        None => 0,
    };
    let name = p.substring_char(start, n);
    assert(name@ == file_name(p@));
    let m = name.unicode_len();
    proof {
        lemma_last_index_of(name@, '.');
    }
    match find_last(name, '.') {
        Some(d) => {
            if d == 0 {
                return false;
            }
            let ext = name.substring_char(d + 1, m);
            let wasm = "wasm";
            proof {
                reveal_strlit("wasm");
            }
            let r = crate::text::same_text(ext, wasm);
            assert(wasm@ == seq!['w', 'a', 's', 'm']);
            r
        },
        None => false,
    }
}

/// `p` with its `wasm` extension replaced by `ext`, as in `foo.wasm` to
/// `foo.rustc.wasm`.
pub fn with_wasm_extension(p: &str, ext: &str) -> (r: String)
    requires
        is_wasm_path(p@),
    ensures
        r@ == replace_wasm_extension(p@, ext@),
{
    proof {
        lemma_last_index_of(p@, '/');
        lemma_last_index_of(file_name(p@), '.');
        let name = file_name(p@);
        let d = last_index_of(name, '.');
        assert(name.subrange(d + 1, name.len() as int).len() == 4);
    }
    let n = p.unicode_len();
    let stem = p.substring_char(0, n - 4);
    let mut r = stem.to_owned();
    r.append(ext);
    r
}

/// `name` placed under the directory `base`.
pub fn join(base: &str, name: &str) -> (r: String)
    ensures
        r@ == join_path(base@, name@),
{
    let n = base.unicode_len();
    if n == 0 {
        return name.to_owned();
    }
    let mut r = base.to_owned();
    if base.get_char(n - 1) != '/' {
        let sep = "/";
        proof {
            reveal_strlit("/");
        }
        r.append(sep);
    }
    r.append(name);
    r
}

} // verus!
