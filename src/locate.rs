//! Which directory entries are candidates, and the stem each one is known by.

use vstd::prelude::*;
use crate::extract::opt_view;

verus! {

/// The index of the last `.` among the first `j` characters of `name`, or -1.
pub open spec fn last_dot_before(name: Seq<char>, j: int) -> int
    decreases j,
{
    if j <= 0 {
        -1
    } else if name[j - 1] == '.' {
        j - 1
    } else {
        last_dot_before(name, j - 1)
    }
}

/// The stem of a file name whose extension is `py`, as `std::path` splits a
/// name: at its last dot, unless that dot is the first character.
pub open spec fn py_stem_of(name: Seq<char>) -> Option<Seq<char>> {
    let i = last_dot_before(name, name.len() as int);
    if i > 0 && name.subrange(i + 1, name.len() as int) == seq!['p', 'y'] {
        Some(name.take(i))
    } else {
        None
    }
}

/// The stem of a directory entry that is a regular file with extension `py`;
/// `None` for every other entry.
pub fn candidate_stem(file_name: &str, is_file: bool) -> (r: Option<String>)
    ensures
        opt_view(r) == (if is_file { py_stem_of(file_name@) } else { None }),
{
    if !is_file {
        return None;
    }
    let n = file_name.unicode_len();
    let mut j: usize = n;
    while j > 0 && file_name.get_char(j - 1) != '.'
        invariant
            n == file_name@.len(),
            j <= n,
            last_dot_before(file_name@, j as int) == last_dot_before(file_name@, n as int),
        decreases j,
    {
        j = j - 1;
    }
    proof {
        if j > 0 {
            assert(last_dot_before(file_name@, j as int) == j - 1);
        }
    }
    if j < 2 || n - j != 2 {
        proof {
            if j >= 2 {
                assert(file_name@.subrange(j as int, n as int).len() != 2);
            }
        }
        return None;
    }
    if file_name.get_char(j) != 'p' || file_name.get_char(j + 1) != 'y' {
        return None;
    }
    let stem = file_name.substring_char(0, j - 1);
    proof {
        assert(file_name@.subrange(j as int, n as int) =~= seq![
            file_name@[j as int],
            file_name@[j + 1],
        ]);
    }
    Some(String::from_str(stem))
}

} // verus!
