//! Unix paths, as the bytes that they are.

use vstd::prelude::*;
use vstd::string::*;
use vstd::utf8::*;

verus! {

/// The separator between the components of a path.
pub const SEPARATOR: u8 = 0x2f;

/// The byte of which the components `.` and `..` are made.
pub const DOT: u8 = 0x2e;

/// A path without what follows its last component: separators, and components `.` that are not
/// the first.
pub open spec fn without_trailing(path: Seq<u8>) -> Seq<u8>
    decreases path.len(),
{
    if path.len() >= 2 && (path.last() == SEPARATOR || path.last() == DOT && path[path.len() - 2]
        == SEPARATOR) {
        without_trailing(path.drop_last())
    } else {
        path
    }
}

/// Where the bytes after the last separator begin.
pub open spec fn component_start(path: Seq<u8>) -> nat
    decreases path.len(),
{
    if path.len() == 0 || path.last() == SEPARATOR {
        path.len()
    } else {
        component_start(path.drop_last())
    }
}

/// The last component of a path, if it names something by itself.
pub open spec fn file_name_of(path: Seq<u8>) -> Option<Seq<u8>> {
    let kept = without_trailing(path);
    let name = kept.skip(component_start(kept) as int);
    if name.len() == 0 || name == seq![DOT] || name == seq![DOT, DOT] {
        None
    } else {
        Some(name)
    }
}

/// A path without its last component, if it has one.
pub open spec fn parent_of(path: Seq<u8>) -> Option<Seq<u8>> {
    let kept = without_trailing(path);
    if kept.len() == 0 || kept == seq![SEPARATOR] {
        None
    } else {
        Some(without_trailing(kept.take(component_start(kept) as int)))
    }
}

/// The directory that holds a file: the working directory, where the path names none.
pub open spec fn directory_of(path: Seq<u8>) -> Seq<u8> {
    match parent_of(path) {
        Some(parent) if parent.len() > 0 => parent,
        _ => seq![DOT],
    }
}

/// The path of the file beside `path` whose name is longer by `suffix`.
pub open spec fn beside(path: Seq<u8>, suffix: Seq<char>) -> Seq<u8> {
    path + encode_utf8(suffix)
}

/// Copies the bytes of a range.
pub fn copy_range(bytes: &[u8], from: usize, to: usize) -> (copy: Vec<u8>)
    requires
        from <= to <= bytes@.len(),
    ensures
        copy@ == bytes@.subrange(from as int, to as int),
{
    let mut copy: Vec<u8> = Vec::new();
    let mut i: usize = from;
    while i < to
        invariant
            from <= i <= to <= bytes@.len(),
            copy@ == bytes@.subrange(from as int, i as int),
        decreases to - i,
    {
        copy.push(bytes[i]);
        assert(copy@ =~= bytes@.subrange(from as int, i + 1));
        i = i + 1;
    }
    copy
}

/// How many bytes of `path[..end]` are left without what follows the last component.
fn kept_length(path: &[u8], end: usize) -> (kept: usize)
    requires
        end <= path@.len(),
    ensures
        kept <= end,
        path@.take(kept as int) == without_trailing(path@.take(end as int)),
{
    let mut kept: usize = end;
    while kept >= 2 && (path[kept - 1] == SEPARATOR || path[kept - 1] == DOT && path[kept - 2]
        == SEPARATOR)
        invariant
            kept <= end <= path@.len(),
            without_trailing(path@.take(kept as int)) == without_trailing(path@.take(end as int)),
        decreases kept,
    {
        assert(path@.take(kept as int).drop_last() =~= path@.take(kept - 1));
        kept = kept - 1;
    }
    kept
}

/// Where the bytes after the last separator of `path[..end]` begin.
fn start_of_component(path: &[u8], end: usize) -> (start: usize)
    requires
        end <= path@.len(),
    ensures
        start <= end,
        start == component_start(path@.take(end as int)),
{
    let mut start: usize = end;
    while start > 0 && path[start - 1] != SEPARATOR
        invariant
            start <= end <= path@.len(),
            component_start(path@.take(start as int)) == component_start(path@.take(end as int)),
        decreases start,
    {
        assert(path@.take(start as int).drop_last() =~= path@.take(start - 1));
        start = start - 1;
    }
    start
}

/// What a found component or directory holds.
pub open spec fn bytes_view(bytes: Option<Vec<u8>>) -> Option<Seq<u8>> {
    match bytes {
        Some(bytes) => Some(bytes@),
        None => None,
    }
}

/// Finds the last component of a path, if it names something by itself.
pub fn file_name(path: &[u8]) -> (name: Option<Vec<u8>>)
    ensures
        bytes_view(name) == file_name_of(path@),
{
    let kept = kept_length(path, path.len());
    let start = start_of_component(path, kept);
    assert(path@.take(path@.len() as int) =~= path@);
    let name = copy_range(path, start, kept);
    assert(name@ =~= path@.take(kept as int).skip(start as int));
    let length: usize = kept - start;
    if length == 0 {
        return None;
    }
    if length == 1 && name[0] == DOT {
        assert(name@ =~= seq![DOT]);
        return None;
    }
    if length == 2 && name[0] == DOT && name[1] == DOT {
        assert(name@ =~= seq![DOT, DOT]);
        return None;
    }
    Some(name)
}

/// Finds a path without its last component.
pub fn parent(path: &[u8]) -> (result: Option<Vec<u8>>)
    ensures
        bytes_view(result) == parent_of(path@),
{
    let kept = kept_length(path, path.len());
    assert(path@.take(path@.len() as int) =~= path@);
    if kept == 0 {
        return None;
    }
    if kept == 1 && path[0] == SEPARATOR {
        assert(path@.take(kept as int) =~= seq![SEPARATOR]);
        return None;
    }
    let start = start_of_component(path, kept);
    let end = kept_length(path, start);
    assert(path@.take(kept as int).take(start as int) =~= path@.take(start as int));
    let result = copy_range(path, 0, end);
    assert(result@ =~= path@.take(end as int));
    Some(result)
}

/// Finds the directory that holds a file.
pub fn directory(path: &[u8]) -> (directory: Vec<u8>)
    ensures
        directory@ == directory_of(path@),
{
    if let Some(parent) = parent(path) {
        if parent.len() > 0 {
            return parent;
        }
    }
    let mut here: Vec<u8> = Vec::new();
    here.push(DOT);
    assert(here@ =~= seq![DOT]);
    here
}

/// Makes the path of the file beside `path` whose name is longer by `suffix`.
pub fn sibling(path: &[u8], suffix: &str) -> (result: Vec<u8>)
    ensures
        result@ == beside(path@, suffix@),
{
    let mut result = copy_range(path, 0, path.len());
    assert(result@ =~= path@);
    let tail = suffix.as_bytes();
    let mut i: usize = 0;
    while i < tail.len()
        invariant
            i <= tail@.len(),
            result@ == path@ + tail@.take(i as int),
        decreases tail@.len() - i,
    {
        result.push(tail[i]);
        i = i + 1;
        assert(result@ =~= path@ + tail@.take(i as int));
    }
    assert(tail@.take(i as int) =~= tail@);
    result
}

/// The path ends in a component, and not in separators or a component `.` behind one.
pub open spec fn ends_in_component(path: Seq<u8>) -> bool {
    &&& path.len() > 0
    &&& path.last() != SEPARATOR
    &&& !(path.len() >= 2 && path.last() == DOT && path[path.len() - 2] == SEPARATOR)
}

proof fn lemma_component_start_ignores_suffix(path: Seq<u8>, suffix: Seq<u8>)
    requires
        forall|i: int| 0 <= i < suffix.len() ==> #[trigger] suffix[i] != SEPARATOR,
    ensures
        component_start(path + suffix) == component_start(path),
    decreases suffix.len(),
{
    if suffix.len() == 0 {
        assert(path + suffix =~= path);
    } else {
        assert((path + suffix).last() == suffix[suffix.len() - 1]);
        assert((path + suffix).drop_last() =~= path + suffix.drop_last());
        assert forall|i: int| 0 <= i < suffix.drop_last().len() implies #[trigger] suffix.drop_last()[i]
            != SEPARATOR by {
            assert(suffix.drop_last()[i] == suffix[i]);
        }
        lemma_component_start_ignores_suffix(path, suffix.drop_last());
    }
}

proof fn lemma_component_start_bound(path: Seq<u8>)
    ensures
        component_start(path) <= path.len(),
    decreases path.len(),
{
    if path.len() > 0 && path.last() != SEPARATOR {
        lemma_component_start_bound(path.drop_last());
    }
}

/// A file whose name is longer by a suffix without separators lies in the same directory, and
/// its name is the longer one.
pub proof fn siblings_share_their_directory(path: Seq<u8>, suffix: Seq<u8>)
    requires
        ends_in_component(path),
        suffix.len() >= 3,
        forall|i: int| 0 <= i < suffix.len() ==> #[trigger] suffix[i] != SEPARATOR,
    ensures
        parent_of(path + suffix) == parent_of(path),
        directory_of(path + suffix) == directory_of(path),
        file_name_of(path + suffix) == Some(path.skip(component_start(path) as int) + suffix),
{
    lemma_component_start_ignores_suffix(path, suffix);
    lemma_component_start_bound(path);
    let longer = path + suffix;
    let start = component_start(path) as int;
    assert(longer.last() == suffix[suffix.len() - 1]);
    assert(longer[longer.len() - 2] == suffix[suffix.len() - 2]);
    assert(without_trailing(longer) == longer);
    assert(without_trailing(path) == path);
    assert(longer.take(start) =~= path.take(start));
    assert(longer.skip(start) =~= path.skip(start) + suffix);
}

/// A file in a directory has the name that it was given there, and that directory as its parent,
/// whatever the directory is called.
pub proof fn a_file_in_a_directory_keeps_its_name(parent: Seq<u8>, name: Seq<u8>)
    requires
        name.len() > 0,
        forall|i: int| 0 <= i < name.len() ==> #[trigger] name[i] != SEPARATOR,
        name != seq![DOT],
        name != seq![DOT, DOT],
    ensures
        file_name_of(parent + seq![SEPARATOR] + name) == Some(name),
        ends_in_component(parent) ==> {
            &&& parent_of(parent + seq![SEPARATOR] + name) == Some(parent)
            &&& directory_of(parent + seq![SEPARATOR] + name) == parent
        },
        file_name_of(name) == Some(name),
        directory_of(name) == seq![DOT],
{
    let opened = parent + seq![SEPARATOR];
    let path = opened + name;
    let n = path.len() as int;
    assert(path.last() == name.last() && name.last() == name[name.len() - 1]);
    if name.len() == 1 {
        assert(name =~= seq![name[0]]);
    } else {
        assert(path[n - 2] == name[name.len() - 2]);
    }
    assert(without_trailing(path) == path);
    lemma_component_start_ignores_suffix(opened, name);
    assert(opened.last() == SEPARATOR);
    assert(path.skip(opened.len() as int) =~= name);
    assert(path.take(opened.len() as int) =~= opened);
    if ends_in_component(parent) {
        assert(opened.drop_last() =~= parent);
        assert(without_trailing(parent) == parent);
        assert(without_trailing(opened) == parent);
        assert(path.len() > 1);
    }
    let nothing = Seq::<u8>::empty();
    lemma_component_start_ignores_suffix(nothing, name);
    assert(nothing + name =~= name);
    assert(without_trailing(name) == name);
    assert(name.skip(0) =~= name);
    assert(name.take(0) =~= nothing);
    assert(name[0] != SEPARATOR);
    assert(name != seq![SEPARATOR]);
}

} // verus!
