//! Paths as text, with `/` between components.
//!
//! A path is a sequence of characters. Its components are what stands between
//! separators; empty components and `.` components do not count, and `..` is
//! never a file name. The functions here never look at a file system, and
//! they read a path the same way on every host: `/` is the one separator, also
//! where the host would take `\` for one.
use vstd::prelude::*;
use crate::text::{append_chars, chars_of, slice_of, string_of};

verus! {

/// The separator between the components of a path.
pub open spec fn separator() -> char {
    '/'
}

/// What follows the last separator of `path`: the whole of it where it holds
/// none, nothing where it ends in one.
pub open spec fn last_segment(path: Seq<char>) -> Seq<char>
    decreases path.len(),
{
    if path.len() == 0 || path.last() == separator() {
        Seq::empty()
    } else {
        last_segment(path.drop_last()).push(path.last())
    }
}

/// The component that stands for the directory itself.
pub open spec fn is_dot(segment: Seq<char>) -> bool {
    segment =~= seq!['.']
}

/// The component that stands for the directory above.
pub open spec fn is_dot_dot(segment: Seq<char>) -> bool {
    segment =~= seq!['.', '.']
}

/// Where the last component of `path` ends: trailing separators and trailing
/// `.` components are passed over.
pub open spec fn name_end(path: Seq<char>) -> nat
    decreases path.len(),
{
    if path.len() == 0 {
        0
    } else if path.last() == separator() {
        name_end(path.drop_last())
    } else if is_dot(last_segment(path)) && path.len() > 1 {
        name_end(path.drop_last())
    } else {
        path.len()
    }
}

/// The last component of `path`, as far as it is a name: a path made of
/// separators and `.` only has none, and neither has one that ends in `..`.
pub open spec fn file_name(path: Seq<char>) -> Option<Seq<char>> {
    let segment = last_segment(path.subrange(0, name_end(path) as int));
    if name_end(path) == 0 || is_dot(segment) || is_dot_dot(segment) {
        None
    } else {
        Some(segment)
    }
}

/// Where the file name of `path` begins, for a path that has one.
pub open spec fn name_start(path: Seq<char>) -> int {
    name_end(path) - last_segment(path.subrange(0, name_end(path) as int)).len()
}

/// The index of the last `c` in `s`, or -1 where `s` holds none.
pub open spec fn last_index_of(s: Seq<char>, c: char) -> int
    decreases s.len(),
{
    if s.len() == 0 {
        -1
    } else if s.last() == c {
        s.len() - 1
    } else {
        last_index_of(s.drop_last(), c)
    }
}

/// What follows the last `.` of a file name. A name without `.`, or whose only
/// `.` is its first character, has no extension.
pub open spec fn name_extension(name: Seq<char>) -> Option<Seq<char>> {
    let dot = last_index_of(name, '.');
    if dot <= 0 {
        None
    } else {
        Some(name.subrange(dot + 1, name.len() as int))
    }
}

/// The file name without its extension and the `.` before it.
pub open spec fn name_stem(name: Seq<char>) -> Seq<char> {
    let dot = last_index_of(name, '.');
    if dot <= 0 {
        name
    } else {
        name.subrange(0, dot)
    }
}

/// The extension of the file name of `path`.
pub open spec fn extension(path: Seq<char>) -> Option<Seq<char>> {
    match file_name(path) {
        Some(name) => name_extension(name),
        None => None,
    }
}

/// `name` below `base`: an absolute `name` stands alone, and a separator is put
/// between the two where `base` does not end in one.
pub open spec fn joined(base: Seq<char>, name: Seq<char>) -> Seq<char> {
    if name.len() > 0 && name[0] == separator() {
        name
    } else if base.len() == 0 || base.last() == separator() {
        base + name
    } else {
        base.push(separator()) + name
    }
}

/// `path` with its file name replaced by `name`; a path without a file name gets
/// `name` below it.
pub open spec fn with_file_name(path: Seq<char>, name: Seq<char>) -> Seq<char> {
    if file_name(path) is Some {
        joined(path.subrange(0, name_start(path)), name)
    } else {
        joined(path, name)
    }
}

/// `path` cut after the stem of its file name, and `.` with `extension` put
/// there unless `extension` is empty. A path without a file name stays as it is.
pub open spec fn with_extension(path: Seq<char>, extension: Seq<char>) -> Seq<char> {
    match file_name(path) {
        Some(name) => {
            let stem = path.subrange(0, name_start(path) + name_stem(name).len());
            if extension.len() == 0 {
                stem
            } else {
                stem.push('.') + extension
            }
        },
        None => path,
    }
}

/// `s` without the separators at its end; a text of separators only keeps one.
pub open spec fn without_trailing_separators(s: Seq<char>) -> Seq<char>
    decreases s.len(),
{
    if s.len() > 1 && s.last() == separator() {
        without_trailing_separators(s.drop_last())
    } else {
        s
    }
}

/// The directory that holds the file name of `path`, for a path that has one.
pub open spec fn parent(path: Seq<char>) -> Option<Seq<char>> {
    if file_name(path) is Some {
        Some(without_trailing_separators(path.subrange(0, name_start(path))))
    } else {
        None
    }
}

/// A segment is a single `.` exactly when the path ends in `.` and that `.`
/// stands alone or behind a separator.
pub proof fn lemma_dot_segment(path: Seq<char>)
    requires
        path.len() > 0,
        path.last() != separator(),
    ensures
        is_dot(last_segment(path)) <==> (path.last() == '.' && (path.len() == 1 || path[path.len()
            - 2] == separator())),
        last_segment(path).len() > 0,
{
    let rest = path.drop_last();
    let segment = last_segment(path);
    assert(segment == last_segment(rest).push(path.last()));
    if rest.len() > 0 && rest.last() != separator() {
        assert(last_segment(rest) == last_segment(rest.drop_last()).push(rest.last()));
        assert(rest.last() == path[path.len() - 2]);
        assert(segment.len() >= 2);
    } else {
        assert(last_segment(rest) =~= Seq::<char>::empty());
        assert(segment =~= seq![path.last()]);
        assert(segment[0] == path.last());
        if rest.len() > 0 {
            assert(rest.last() == path[path.len() - 2]);
        }
    }
}

/// A stretch without separators that starts the path, or follows a separator,
/// and runs to its end is its last segment.
pub proof fn lemma_last_segment(path: Seq<char>, start: int)
    requires
        0 <= start <= path.len(),
        forall|i: int| start <= i < path.len() ==> path[i] != separator(),
        start == 0 || path[start - 1] == separator(),
    ensures
        last_segment(path) == path.subrange(start, path.len() as int),
    decreases path.len() - start,
{
    if start == path.len() {
        assert(path.subrange(start, path.len() as int) =~= Seq::<char>::empty());
    } else {
        let rest = path.drop_last();
        lemma_last_segment(rest, start);
        assert(rest.subrange(start, rest.len() as int).push(path.last()) =~= path.subrange(
            start,
            path.len() as int,
        ));
    }
}

/// The last segment of a path is its end, and holds no separator.
pub proof fn lemma_last_segment_is_suffix(path: Seq<char>)
    ensures
        last_segment(path).len() <= path.len(),
        last_segment(path) == path.subrange(
            path.len() - last_segment(path).len(),
            path.len() as int,
        ),
        forall|i: int| 0 <= i < last_segment(path).len() ==> last_segment(path)[i] != separator(),
        path.len() == last_segment(path).len() || path[path.len() - last_segment(path).len() - 1]
            == separator(),
    decreases path.len(),
{
    if path.len() == 0 || path.last() == separator() {
        assert(path.subrange(path.len() as int, path.len() as int) =~= Seq::<char>::empty());
    } else {
        let rest = path.drop_last();
        lemma_last_segment_is_suffix(rest);
        let k = last_segment(rest).len();
        assert(rest.subrange(rest.len() - k, rest.len() as int).push(path.last())
            =~= path.subrange(path.len() - k - 1, path.len() as int));
    }
}

/// The end of the name of a prefix that keeps the name is the end of the name.
pub proof fn lemma_name_end_bounds(path: Seq<char>)
    ensures
        name_end(path) <= path.len(),
        name_end(path) > 0 ==> path[name_end(path) - 1] != separator(),
        name_end(path.subrange(0, name_end(path) as int)) == name_end(path),
    decreases path.len(),
{
    if path.len() == 0 {
        assert(path.subrange(0, 0) =~= path);
    } else if path.last() == separator() || (is_dot(last_segment(path)) && path.len() > 1) {
        let rest = path.drop_last();
        lemma_name_end_bounds(rest);
        assert(rest.subrange(0, name_end(rest) as int) =~= path.subrange(0, name_end(rest) as int));
    } else {
        assert(path.subrange(0, path.len() as int) =~= path);
    }
}

/// A file name is a name: it is not empty, holds no separator, and is neither
/// `.` nor `..`.
pub proof fn lemma_file_name_is_a_name(path: Seq<char>)
    ensures
        file_name(path) matches Some(name) ==> {
            &&& name.len() > 0
            &&& forall|i: int| 0 <= i < name.len() ==> name[i] != separator()
            &&& !is_dot(name)
            &&& !is_dot_dot(name)
        },
{
    if file_name(path) is Some {
        let prefix = path.subrange(0, name_end(path) as int);
        lemma_name_end_bounds(path);
        lemma_last_segment_is_suffix(prefix);
        assert(prefix.last() == path[name_end(path) - 1]);
        lemma_dot_segment(prefix);
    }
}

/// A name put behind a separator is the file name of the whole, whatever
/// stands before the separator.
pub proof fn lemma_file_name_of_joined(head: Seq<char>, name: Seq<char>)
    requires
        name.len() > 0,
        forall|i: int| 0 <= i < name.len() ==> name[i] != separator(),
        !is_dot(name),
        !is_dot_dot(name),
    ensures
        file_name(head.push(separator()) + name) == Some(name),
        name_start(head.push(separator()) + name) == head.len() + 1,
{
    let path = head.push(separator()) + name;
    let start = head.len() + 1;
    assert(path[start - 1] == separator());
    assert forall|i: int| start <= i < path.len() implies path[i] != separator() by {
        assert(path[i] == name[i - start]);
    }
    lemma_last_segment(path, start as int);
    assert(path.subrange(start as int, path.len() as int) =~= name);
    assert(path.last() == name.last());
    assert(name_end(path) == path.len());
    assert(path.subrange(0, path.len() as int) =~= path);
}

/// The range of the file name in `chars`, where it has one.
fn locate_name(chars: &Vec<char>) -> (range: Option<(usize, usize)>)
    ensures
        range is None <==> file_name(chars@) is None,
        range matches Some((start, end)) ==> {
            &&& start < end <= chars.len()
            &&& end == name_end(chars@)
            &&& start == name_start(chars@)
            &&& chars@.subrange(start as int, end as int) == file_name(chars@)->0
        },
{
    let mut end: usize = chars.len();
    proof {
        assert(chars@.subrange(0, end as int) =~= chars@);
    }
    while end > 0 && (chars[end - 1] == '/' || (chars[end - 1] == '.' && end > 1 && chars[end - 2]
        == '/'))
        invariant
            end <= chars.len(),
            name_end(chars@.subrange(0, end as int)) == name_end(chars@),
        decreases end,
    {
        proof {
            let p = chars@.subrange(0, end as int);
            if p.last() != separator() {
                lemma_dot_segment(p);
            }
            assert(p.drop_last() =~= chars@.subrange(0, end - 1));
        }
        end = end - 1;
    }
    let ghost prefix = chars@.subrange(0, end as int);
    proof {
        if end > 0 {
            lemma_dot_segment(prefix);
        }
        lemma_name_end_bounds(chars@);
    }
    if end == 0 {
        return None;
    }
    assert(name_end(chars@) == end);
    let mut start: usize = end;
    while start > 0 && chars[start - 1] != '/'
        invariant
            start <= end <= chars.len(),
            forall|i: int| start <= i < end ==> chars@[i] != separator(),
        decreases start,
    {
        start = start - 1;
    }
    proof {
        lemma_last_segment(prefix, start as int);
        assert(prefix.subrange(start as int, end as int) =~= chars@.subrange(
            start as int,
            end as int,
        ));
    }
    let ghost segment = chars@.subrange(start as int, end as int);
    assert(segment == last_segment(prefix));
    if end - start == 1 && chars[start] == '.' {
        assert(segment =~= seq!['.']);
        return None;
    }
    if end - start == 2 && chars[start] == '.' && chars[start + 1] == '.' {
        assert(segment =~= seq!['.', '.']);
        return None;
    }
    proof {
        if is_dot(segment) {
            assert(segment.len() == 1 && segment[0] == '.');
        }
        if is_dot_dot(segment) {
            assert(segment.len() == 2 && segment[0] == '.' && segment[1] == '.');
        }
    }
    Some((start, end))
}

/// The index of the last `c` in `chars`.
fn find_last(chars: &Vec<char>, c: char) -> (index: Option<usize>)
    ensures
        match index {
            Some(i) => i < chars.len() && i == last_index_of(chars@, c),
            None => last_index_of(chars@, c) == -1,
        },
{
    let mut end: usize = chars.len();
    proof {
        assert(chars@.subrange(0, end as int) =~= chars@);
    }
    while end > 0 && chars[end - 1] != c
        invariant
            end <= chars.len(),
            last_index_of(chars@.subrange(0, end as int), c) == last_index_of(chars@, c),
        decreases end,
    {
        proof {
            assert(chars@.subrange(0, end as int).drop_last() =~= chars@.subrange(0, end - 1));
        }
        end = end - 1;
    }
    if end == 0 {
        None
    } else {
        Some(end - 1)
    }
}

/// `name` below `base`.
pub fn join(base: &str, name: &str) -> (path: String)
    ensures
        path@ == joined(base@, name@),
{
    let b = chars_of(base);
    let n = chars_of(name);
    if n.len() > 0 && n[0] == '/' {
        return string_of(&n);
    }
    let mut out = b;
    if out.len() > 0 && out[out.len() - 1] != '/' {
        out.push('/');
    }
    append_chars(&mut out, &n);
    string_of(&out)
}

/// The file name of `path`: its last component, unless that is `..` or the path
/// holds no name at all.
pub fn file_name_of(path: &str) -> (name: Option<String>)
    ensures
        name is Some <==> file_name(path@) is Some,
        name matches Some(n) ==> n@ == file_name(path@)->0,
{
    let chars = chars_of(path);
    match locate_name(&chars) {
        Some((start, end)) => Some(string_of(&slice_of(&chars, start, end))),
        None => None,
    }
}

/// The extension of the file name of `path`.
pub fn extension_of(path: &str) -> (ext: Option<String>)
    ensures
        ext is Some <==> extension(path@) is Some,
        ext matches Some(e) ==> e@ == extension(path@)->0,
{
    let chars = chars_of(path);
    match locate_name(&chars) {
        Some((start, end)) => {
            let name = slice_of(&chars, start, end);
            match find_last(&name, '.') {
                Some(dot) => {
                    if dot == 0 {
                        None
                    } else {
                        Some(string_of(&slice_of(&name, dot + 1, name.len())))
                    }
                },
                None => None,
            }
        },
        None => None,
    }
}

/// Whether the extension of `path` is exactly `wanted`.
pub fn has_extension(path: &str, wanted: &str) -> (yes: bool)
    ensures
        yes == (extension(path@) == Some(wanted@)),
{
    match extension_of(path) {
        Some(ext) => crate::text::str_eq(ext.as_str(), wanted),
        None => false,
    }
}

/// `path` with `name` in place of its file name.
pub fn replace_file_name(path: &str, name: &str) -> (replaced: String)
    ensures
        replaced@ == with_file_name(path@, name@),
{
    let chars = chars_of(path);
    match locate_name(&chars) {
        Some((start, _end)) => {
            let head = string_of(&slice_of(&chars, 0, start));
            join(head.as_str(), name)
        },
        None => join(path, name),
    }
}

/// `path` with `extension` in place of the extension of its file name.
pub fn replace_extension(path: &str, extension: &str) -> (replaced: String)
    ensures
        replaced@ == with_extension(path@, extension@),
{
    let chars = chars_of(path);
    match locate_name(&chars) {
        Some((start, end)) => {
            let name = slice_of(&chars, start, end);
            let stem_len: usize = match find_last(&name, '.') {
                Some(dot) => if dot == 0 {
                    name.len()
                } else {
                    dot
                },
                None => name.len(),
            };
            let mut out = slice_of(&chars, 0, start + stem_len);
            let ext = chars_of(extension);
            if ext.len() > 0 {
                out.push('.');
                append_chars(&mut out, &ext);
            }
            string_of(&out)
        },
        None => string_of(&chars),
    }
}

/// The directory that holds the file name of `path`.
pub fn parent_of(path: &str) -> (dir: Option<String>)
    ensures
        dir is Some <==> parent(path@) is Some,
        dir matches Some(d) ==> d@ == parent(path@)->0,
{
    let chars = chars_of(path);
    match locate_name(&chars) {
        Some((start, _end)) => {
            let mut end: usize = start;
            proof {
                assert(chars@.subrange(0, start as int) =~= chars@.subrange(0, start as int));
            }
            while end > 1 && chars[end - 1] == '/'
                invariant
                    end <= start <= chars.len(),
                    without_trailing_separators(chars@.subrange(0, end as int))
                        == without_trailing_separators(chars@.subrange(0, start as int)),
                decreases end,
            {
                proof {
                    assert(chars@.subrange(0, end as int).drop_last() =~= chars@.subrange(
                        0,
                        end - 1,
                    ));
                }
                end = end - 1;
            }
            Some(string_of(&slice_of(&chars, 0, end)))
        },
        None => None,
    }
}

} // verus!
