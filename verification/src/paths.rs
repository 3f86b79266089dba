//! Text of declared upload filenames: the final path component and the
//! extension, taken from untrusted client input without touching the disk.

use vstd::prelude::*;
use vstd::string::StrSliceExecFns;

verus! {

/// Index of the last occurrence of `needle` in `s`, or -1 when absent.
pub open spec fn spec_last_index(s: Seq<char>, needle: char) -> int
    decreases s.len(),
{
    if s.len() == 0 {
        -1
    } else if s.last() == needle {
        s.len() - 1
    } else {
        spec_last_index(s.drop_last(), needle)
    }
}

pub proof fn lemma_last_index(s: Seq<char>, needle: char)
    ensures
        spec_last_index(s, needle) == -1 ==> (forall|j: int|
            0 <= j < s.len() ==> s[j] != needle),
        spec_last_index(s, needle) != -1 ==> {
            let d = spec_last_index(s, needle);
            &&& 0 <= d < s.len()
            &&& s[d] == needle
            &&& forall|j: int| d < j < s.len() ==> s[j] != needle
        },
    decreases s.len(),
{
    if s.len() > 0 && s.last() != needle {
        lemma_last_index(s.drop_last(), needle);
        assert(forall|j: int| 0 <= j < s.len() - 1 ==> s[j] == s.drop_last()[j]);
    }
}

/// The extension of a filename: what follows the last dot, when that dot is
/// neither the first character (a leading dot marks a hidden file, not an
/// extension) nor absent. `photo.jpeg` gives `jpeg`, `archive.tar.gz` gives
/// `gz`, `.bashrc` and `README` give the empty sequence, `note.` gives it too.
pub open spec fn spec_ext_of(s: Seq<char>) -> Seq<char> {
    let d = spec_last_index(s, '.');
    if d > 0 {
        s.subrange(d + 1, s.len() as int)
    } else {
        Seq::empty()
    }
}

/// The final path component: what follows the last `/`, the whole text when
/// no separator occurs. A trailing `..` component is replaced by the empty
/// sequence, so a traversal-shaped name never reaches key construction.
pub open spec fn spec_file_name_of(s: Seq<char>) -> Seq<char> {
    let d = spec_last_index(s, '/');
    let tail = if d >= 0 {
        s.subrange(d + 1, s.len() as int)
    } else {
        s
    };
    if tail =~= seq!['.', '.'] {
        Seq::<char>::empty()
    } else {
        tail
    }
}

/// Finds the last occurrence of `needle`, scanning from the end.
fn find_last(s: &str, needle: char) -> (r: Option<usize>)
    ensures
        match r {
            Some(i) => i < s@.len() && spec_last_index(s@, needle) == i,
            None => spec_last_index(s@, needle) == -1,
        },
{
    proof {
        lemma_last_index(s@, needle);
    }
    let n = s.unicode_len();
    let mut i: usize = n;
    while i > 0
        invariant
            n == s@.len(),
            i <= n,
            forall|j: int| i <= j < s@.len() ==> s@[j] != needle,
        decreases i,
    {
        i = i - 1;
        if s.get_char(i) == needle {
            proof {
                lemma_last_index(s@, needle);
                let d = spec_last_index(s@, needle);
                if d == -1 {
                    assert(s@[i as int] != needle);
                } else if d > i as int {
                    assert(s@[d] != needle);
                } else if d < i as int {
                    assert(s@[i as int] != needle);
                }
            }
            return Some(i);
        }
    }
    None
}

/// Returns the extension of the declared filename, in the sense of
/// [`spec_ext_of`].
pub fn extension_of(name: &str) -> (r: String)
    ensures
        r@ == spec_ext_of(name@),
{
    proof {
        lemma_last_index(name@, '.');
    }
    match find_last(name, '.') {
        Some(d) if d > 0 => {
            let n = name.unicode_len();
            let r = name.substring_char(d + 1, n).to_owned();
            proof {
                assert(r@ =~= spec_ext_of(name@));
            }
            r
        },
        _ => {
            let r = String::new();
            proof {
                assert(r@ =~= spec_ext_of(name@));
            }
            r
        },
    }
}

/// Returns the final path component of the declared filename, in the sense
/// of [`spec_file_name_of`].
pub fn file_name_of(path: &str) -> (r: String)
    ensures
        r@ == spec_file_name_of(path@),
{
    proof {
        lemma_last_index(path@, '/');
    }
    let n = path.unicode_len();
    let tail = match find_last(path, '/') {
        Some(d) => path.substring_char(d + 1, n),
        None => path.substring_char(0, n),
    };
    proof {
        assert(path@.subrange(0, n as int) =~= path@);
    }
    let is_dotdot = tail.unicode_len() == 2 && tail.get_char(0) == '.' && tail.get_char(1) == '.';
    if is_dotdot {
        proof {
            assert(tail@ =~= seq!['.', '.']);
        }
        let r = String::new();
        proof {
            assert(r@ =~= spec_file_name_of(path@));
        }
        r
    } else {
        let r = tail.to_owned();
        proof {
            assert(!(tail@ =~= seq!['.', '.']));
            assert(r@ =~= spec_file_name_of(path@));
        }
        r
    }
}

} // verus!
