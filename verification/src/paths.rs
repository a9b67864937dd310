//! Paths as text: the final component of a path, and its extension.
//!
//! A path is split at `/`. Its final component is what follows the last
//! `/`; the extension of that component is what follows its last `.`,
//! unless that `.` is its first character or the component is `..`.

use vstd::prelude::*;
use crate::text::same_text;

verus! {

/// Where the final component of `path` starts.
pub open spec fn name_start(path: Seq<char>) -> int
    decreases path.len(),
{
    if path.len() == 0 || path.last() == '/' {
        path.len() as int
    } else {
        name_start(path.drop_last())
    }
}

/// The final component of `path`.
pub open spec fn file_name_of(path: Seq<char>) -> Seq<char> {
    path.skip(name_start(path))
}

/// The index of the last `.` in `name`, or -1 where it has none.
pub open spec fn last_dot(name: Seq<char>) -> int
    decreases name.len(),
{
    if name.len() == 0 {
        -1
    } else if name.last() == '.' {
        name.len() - 1
    } else {
        last_dot(name.drop_last())
    }
}

/// The extension of the final component of `path`, without its dot.
pub open spec fn extension_of(path: Seq<char>) -> Option<Seq<char>> {
    let name = file_name_of(path);
    let dot = last_dot(name);
    if dot > 0 && name != seq!['.', '.'] {
        Some(name.skip(dot + 1))
    } else {
        None
    }
}

/// `path` without the extension of its final component and the dot before it.
pub open spec fn without_extension(path: Seq<char>) -> Seq<char> {
    match extension_of(path) {
        Some(ext) => path.take(path.len() - ext.len() - 1),
        None => path,
    }
}

/// The final component starts at `i` where no `/` follows `i` and either
/// `i` is 0 or a `/` stands just before it.
pub proof fn lemma_name_start(path: Seq<char>, i: int)
    requires
        0 <= i <= path.len(),
        i == 0 || path[i - 1] == '/',
        forall|j: int| i <= j < path.len() ==> #[trigger] path[j] != '/',
    ensures
        name_start(path) == i,
    decreases path.len(),
{
    if i < path.len() {
        let rest = path.drop_last();
        assert(path.last() == path[path.len() - 1]);
        assert forall|j: int| i <= j < rest.len() implies #[trigger] rest[j] != '/' by {
            assert(rest[j] == path[j]);
        }
        lemma_name_start(rest, i);
    }
}

/// The final component holds no `/`, and a `/` stands before it unless it
/// starts the path.
pub proof fn lemma_file_name(path: Seq<char>)
    ensures
        0 <= name_start(path) <= path.len(),
        name_start(path) == 0 || path[name_start(path) - 1] == '/',
        forall|j: int| 0 <= j < file_name_of(path).len() ==> #[trigger] file_name_of(path)[j] != '/',
    decreases path.len(),
{
    if path.len() > 0 && path.last() != '/' {
        let rest = path.drop_last();
        lemma_file_name(rest);
        assert forall|j: int| 0 <= j < file_name_of(path).len() implies #[trigger] file_name_of(
            path,
        )[j] != '/' by {
            if j < file_name_of(rest).len() {
                assert(file_name_of(path)[j] == file_name_of(rest)[j]);
            }
        }
    }
}

/// The last dot is at `d` where a `.` stands at `d` and none follows; there
/// is none (`d` is -1) where `name` holds no `.`.
pub proof fn lemma_last_dot(name: Seq<char>, d: int)
    requires
        -1 <= d < name.len(),
        d >= 0 ==> name[d] == '.',
        forall|j: int| d < j < name.len() ==> #[trigger] name[j] != '.',
    ensures
        last_dot(name) == d,
    decreases name.len(),
{
    if name.len() > 0 && d < name.len() - 1 {
        let rest = name.drop_last();
        assert(name.last() == name[name.len() - 1]);
        assert forall|j: int| d < j < rest.len() implies #[trigger] rest[j] != '.' by {
            assert(rest[j] == name[j]);
        }
        lemma_last_dot(rest, d);
    }
}

/// The last dot, where there is one, is a `.` inside `name`.
pub proof fn lemma_last_dot_bound(name: Seq<char>)
    ensures
        -1 <= last_dot(name) < name.len(),
        last_dot(name) >= 0 ==> name[last_dot(name)] == '.',
    decreases name.len(),
{
    if name.len() > 0 && name.last() != '.' {
        lemma_last_dot_bound(name.drop_last());
    }
}

/// The final component of `path`.
pub fn file_name(path: &str) -> (name: &str)
    ensures
        name@ == file_name_of(path@),
{
    let n: usize = path.unicode_len();
    let mut i: usize = n;
    while i > 0 && path.get_char(i - 1) != '/'
        invariant
            n == path@.len(),
            i <= n,
            forall|j: int| i <= j < n ==> #[trigger] path@[j] != '/',
        decreases i,
    {
        i = i - 1;
    }
    proof {
        lemma_name_start(path@, i as int);
        assert(path@.skip(i as int) =~= path@.subrange(i as int, n as int));
    }
    path.substring_char(i, n)
}

/// The extension of the final component of `path`, if it has one.
pub fn extension(path: &str) -> (ext: Option<&str>)
    ensures
        match ext {
            Some(e) => extension_of(path@) == Some(e@),
            None => extension_of(path@) is None,
        },
{
    let name = file_name(path);
    let n: usize = name.unicode_len();
    let mut i: usize = n;
    while i > 0 && name.get_char(i - 1) != '.'
        invariant
            n == name@.len(),
            i <= n,
            forall|j: int| i <= j < n ==> #[trigger] name@[j] != '.',
        decreases i,
    {
        i = i - 1;
    }
    proof {
        lemma_last_dot(name@, i as int - 1);
        reveal_strlit("..");
        assert(".."@ =~= seq!['.', '.']);
    }
    if i > 1 && !same_text(name, "..") {
        proof {
            assert(name@.skip(i as int) =~= name@.subrange(i as int, n as int));
        }
        Some(name.substring_char(i, n))
    } else {
        None
    }
}

/// `path` without the extension of its final component.
pub fn strip_extension(path: &str) -> (stem: &str)
    ensures
        stem@ == without_extension(path@),
{
    let n: usize = path.unicode_len();
    match extension(path) {
        Some(e) => {
            let k: usize = e.unicode_len();
            proof {
                lemma_file_name(path@);
                lemma_last_dot_bound(file_name_of(path@));
                assert(path@.take(n - k - 1) =~= path@.subrange(0, n - k - 1));
            }
            path.substring_char(0, n - k - 1)
        },
        None => path,
    }
}

} // verus!
