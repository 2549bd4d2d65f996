//! The extension of a file name, as telemetry records it.
use vstd::prelude::*;

verus! {

/// Index of the last `.` in `s`, or -1 where it has none.
pub open spec fn last_dot(s: Seq<char>) -> int
    decreases s.len(),
{
    if s.len() == 0 {
        -1
    } else if s.last() == '.' {
        s.len() - 1
    } else {
        last_dot(s.drop_last())
    }
}

/// The extension of a file name: what follows its last dot, where that dot is
/// not the first character; the name `..` has none.
pub open spec fn extension_of(name: Seq<char>) -> Option<Seq<char>> {
    if name == ".."@ || last_dot(name) <= 0 {
        None
    } else {
        Some(name.subrange(last_dot(name) + 1, name.len() as int))
    }
}

proof fn lemma_last_dot(s: Seq<char>, k: int)
    requires
        -1 <= k < s.len(),
        k >= 0 ==> s[k] == '.',
        forall|j: int| k < j < s.len() ==> s[j] != '.',
    ensures
        last_dot(s) == k,
    decreases s.len(),
{
    if s.len() > 0 && s.len() - 1 != k {
        lemma_last_dot(s.drop_last(), k);
    }
}

/// The extension of `file_name`, as `Path::extension` gives it for a name
/// without separators.
pub fn file_extension(file_name: &str) -> (r: Option<String>)
    ensures
        r matches Some(e) ==> extension_of(file_name@) == Some(e@),
        r is None ==> extension_of(file_name@) is None,
{
    proof {
        reveal_strlit("..");
    }
    let len = file_name.unicode_len();
    if len == 2 && file_name.get_char(0) == '.' && file_name.get_char(1) == '.' {
        assert(file_name@ =~= ".."@);
        return None;
    }
    let mut i: usize = len;
    while i > 0
        invariant
            i <= len,
            len == file_name@.len(),
            forall|j: int| i <= j < len ==> file_name@[j] != '.',
        ensures
            i == 0 || file_name@[i - 1] == '.',
        decreases i,
    {
        if file_name.get_char(i - 1) == '.' {
            break;
        }
        i = i - 1;
    }
    proof {
        lemma_last_dot(file_name@, i - 1);
        if len == 2 {
            assert(file_name@ != ".."@ || file_name@[0] != '.' || file_name@[1] != '.');
        }
    }
    if i <= 1 {
        None
    } else {
        Some(String::from_str(file_name.substring_char(i, len)))
    }
}

} // verus!
