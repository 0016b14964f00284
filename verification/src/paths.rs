//! Paths of files, as the bytes the system knows them by.

use vstd::prelude::*;

use crate::text::to_decimal;

verus! {

/// What separates the names in a path, and what an absolute path begins with.
pub const ROOT: u8 = 47;

/// The name of the directory itself.
pub const DOT: u8 = 46;

/// The pieces of `bytes`: the runs between separators, empty ones too.
pub open spec fn pieces(bytes: Seq<u8>, separator: u8) -> Seq<Seq<u8>>
    decreases bytes.len(),
{
    if bytes.len() == 0 {
        seq![Seq::empty()]
    } else {
        let before = pieces(bytes.drop_last(), separator);
        if bytes.last() == separator {
            before.push(Seq::empty())
        } else {
            before.drop_last().push(before.last().push(bytes.last()))
        }
    }
}

/// The views of a list of paths.
pub open spec fn path_views(paths: Seq<Vec<u8>>) -> Seq<Seq<u8>> {
    paths.map_values(|path: Vec<u8>| path@)
}

/// Whether a path begins at the root.
pub open spec fn absolute(path: Seq<u8>) -> bool {
    path.len() > 0 && path[0] == ROOT
}

/// The first `count` pieces without those that name nothing: empty ones, and
/// dots that are not at the beginning of the path.
pub open spec fn names(parts: Seq<Seq<u8>>, count: nat) -> Seq<Seq<u8>>
    decreases count,
{
    if count == 0 {
        Seq::empty()
    } else {
        let before = names(parts, (count - 1) as nat);
        let part = parts[count - 1];
        if part.len() == 0 || (part == seq![DOT] && count > 1) {
            before
        } else {
            before.push(part)
        }
    }
}

/// The components of a path: repeated and trailing separators and dots past the
/// beginning do not count.
pub open spec fn components(path: Seq<u8>) -> Seq<Seq<u8>> {
    names(pieces(path, ROOT), pieces(path, ROOT).len())
}

/// Two ways to write the same path.
pub open spec fn equal_paths(a: Seq<u8>, b: Seq<u8>) -> bool {
    absolute(a) == absolute(b) && components(a) == components(b)
}

/// Whether a path begins at the root.
pub fn is_absolute(path: &Vec<u8>) -> (res: bool)
    ensures
        res == absolute(path@),
{
    path.len() > 0 && path[0] == ROOT
}

pub(crate) fn copy(bytes: &Vec<u8>) -> (res: Vec<u8>)
    ensures
        res@ == bytes@,
{
    let res = bytes.clone();
    assert(res@ == bytes@);
    res
}

/// The pieces of `bytes` between separators.
pub fn split(bytes: &Vec<u8>, separator: u8) -> (res: Vec<Vec<u8>>)
    ensures
        path_views(res@) == pieces(bytes@, separator),
{
    let mut res: Vec<Vec<u8>> = Vec::new();
    let mut piece: Vec<u8> = Vec::new();
    assert(bytes@.take(0) == Seq::<u8>::empty());
    for i in 0..bytes.len()
        invariant
            path_views(res@).push(piece@) == pieces(bytes@.take(i as int), separator),
    {
        let byte: u8 = bytes[i];
        let ghost before = pieces(bytes@.take(i as int), separator);
        let ghost done = path_views(res@);
        assert(bytes@.take(i + 1).drop_last() == bytes@.take(i as int));
        assert(bytes@.take(i + 1).last() == byte);
        if byte == separator {
            res.push(piece);
            assert(path_views(res@) == done.push(piece@));
            piece = Vec::new();
        } else {
            assert(before.drop_last() == done);
            piece.push(byte);
        }
    }
    assert(bytes@.take(bytes@.len() as int) == bytes@);
    let ghost done = path_views(res@);
    res.push(piece);
    assert(path_views(res@) == done.push(piece@));
    res
}

fn same_bytes(a: &Vec<u8>, b: &Vec<u8>) -> (res: bool)
    ensures
        res == (a@ == b@),
{
    if a.len() != b.len() {
        return false;
    }
    for i in 0..a.len()
        invariant
            a@.len() == b@.len(),
            forall|j: int| 0 <= j < i ==> a@[j] == b@[j],
    {
        if a[i] != b[i] {
            return false;
        }
    }
    assert(a@ == b@);
    true
}

fn path_names(path: &Vec<u8>) -> (res: Vec<Vec<u8>>)
    ensures
        path_views(res@) == components(path@),
{
    let parts = split(path, ROOT);
    let ghost all = path_views(parts@);
    let mut res: Vec<Vec<u8>> = Vec::new();
    assert(path_views(res@) == Seq::<Seq<u8>>::empty());
    for i in 0..parts.len()
        invariant
            all == path_views(parts@),
            path_views(res@) == names(all, i as nat),
    {
        let part = &parts[i];
        assert(all[i as int] == part@);
        let dot = part.len() == 1 && part[0] == DOT;
        assert(dot == (part@ =~= seq![DOT]));
        if part.len() != 0 && !(dot && i > 0) {
            let ghost done = path_views(res@);
            let name = copy(part);
            res.push(name);
            assert(path_views(res@) == done.push(name@));
        }
    }
    res
}

/// Whether `a` and `b` are two ways to write the same path.
pub fn same_path(a: &Vec<u8>, b: &Vec<u8>) -> (res: bool)
    ensures
        res == equal_paths(a@, b@),
{
    if is_absolute(a) != is_absolute(b) {
        return false;
    }
    let left = path_names(a);
    let right = path_names(b);
    let ghost lefts = path_views(left@);
    let ghost rights = path_views(right@);
    assert(left@.len() == lefts.len() && right@.len() == rights.len());
    if left.len() != right.len() {
        return false;
    }
    for i in 0..left.len()
        invariant
            left@.len() == right@.len(),
            lefts == path_views(left@),
            rights == path_views(right@),
            lefts == components(a@),
            rights == components(b@),
            forall|j: int| 0 <= j < i ==> lefts[j] == rights[j],
    {
        assert(lefts[i as int] == left@[i as int]@);
        assert(rights[i as int] == right@[i as int]@);
        if !same_bytes(&left[i], &right[i]) {
            return false;
        }
    }
    assert(lefts == rights);
    true
}

/// The path of the executable of process `pid`.
pub open spec fn executable_path(pid: nat) -> Seq<char> {
    "/proc/"@ + crate::text::decimal(pid) + "/exe"@
}

/// The path of the executable of process `pid`.
pub fn process_executable(pid: u32) -> (res: String)
    ensures
        res@ == executable_path(pid as nat),
{
    let digits = to_decimal(pid as u64);
    let mut path = "/proc/".to_owned();
    path.append(digits.as_str());
    path.append("/exe");
    path
}

/// The pieces put together again, with separators between them.
pub open spec fn joined(parts: Seq<Seq<u8>>, separator: u8) -> Seq<u8>
    decreases parts.len(),
{
    if parts.len() == 0 {
        Seq::empty()
    } else if parts.len() == 1 {
        parts[0]
    } else {
        joined(parts.drop_last(), separator).push(separator) + parts.last()
    }
}

/// Splitting loses nothing: the pieces hold no separator, and joining them gives
/// back what was split.
pub proof fn splitting_loses_nothing(bytes: Seq<u8>, separator: u8)
    ensures
        pieces(bytes, separator).len() > 0,
        joined(pieces(bytes, separator), separator) == bytes,
        forall|i: int|
            0 <= i < pieces(bytes, separator).len() ==> !(#[trigger] pieces(
                bytes,
                separator,
            )[i]).contains(separator),
    decreases bytes.len(),
{
    if bytes.len() > 0 {
        let rest = bytes.drop_last();
        let before = pieces(rest, separator);
        let after = pieces(bytes, separator);
        splitting_loses_nothing(rest, separator);
        assert(bytes == rest.push(bytes.last()));
        if bytes.last() == separator {
            assert(after.drop_last() == before);
            assert(joined(after, separator) == bytes);
        } else {
            assert(after.drop_last() == before.drop_last());
            assert(after.last() == before.last().push(bytes.last()));
            if before.len() == 1 {
                assert(joined(before, separator) == before[0]);
                assert(joined(after, separator) == after[0]);
            } else {
                assert(joined(after, separator) == joined(before.drop_last(), separator).push(
                    separator,
                ) + before.last().push(bytes.last()));
            }
            assert(joined(after, separator) == bytes);
            assert forall|i: int| 0 <= i < after.len() implies !(#[trigger] after[i]).contains(
                separator,
            ) by {
                if i < before.len() - 1 {
                    assert(after[i] == before[i]);
                } else {
                    let piece = before[before.len() - 1];
                    assert(after[i] == piece.push(bytes.last()));
                    if after[i].contains(separator) {
                        let k = after[i].index_of(separator);
                        assert(piece[k] == separator);
                    }
                }
            }
        }
    }
}

/// Different processes have different executable paths.
pub proof fn executable_paths_are_distinct(a: nat, b: nat)
    requires
        executable_path(a) == executable_path(b),
    ensures
        a == b,
{
    let prefix = "/proc/"@;
    let suffix = "/exe"@;
    let da = crate::text::decimal(a);
    let db = crate::text::decimal(b);
    let path = executable_path(a);
    assert(path.len() == prefix.len() + da.len() + suffix.len());
    assert(executable_path(b).len() == prefix.len() + db.len() + suffix.len());
    assert(da == path.subrange(prefix.len() as int, (prefix.len() + da.len()) as int));
    assert(db == path.subrange(prefix.len() as int, (prefix.len() + db.len()) as int));
    crate::text::decimal_is_injective(a, b);
}

/// A path is absolute exactly when its first byte is a slash.
pub proof fn absolute_paths_begin_with_a_slash(path: Seq<u8>)
    ensures
        absolute(path) <==> path.len() > 0 && path[0] == 47,
{
}

proof fn names_of_a_prefix(parts: Seq<Seq<u8>>, more: Seq<u8>, count: nat)
    requires
        count <= parts.len(),
    ensures
        names(parts.push(more), count) == names(parts, count),
    decreases count,
{
    if count > 0 {
        names_of_a_prefix(parts, more, (count - 1) as nat);
        assert(parts.push(more)[count - 1] == parts[count - 1]);
    }
}

/// Separators at the end of a path, and dots after one, do not count: such a path
/// is another way to write the same one.
pub proof fn trailing_separators_and_dots_do_not_count(path: Seq<u8>)
    requires
        path.len() > 0,
    ensures
        equal_paths(path.push(47), path),
        equal_paths(path.push(47).push(46), path),
{
    let slashed = path.push(47);
    let dotted = slashed.push(46);
    let parts = pieces(path, ROOT);
    let none = Seq::<u8>::empty();
    splitting_loses_nothing(path, ROOT);
    assert(slashed.drop_last() == path);
    assert(pieces(slashed, ROOT) == parts.push(none));
    assert(dotted.drop_last() == slashed);
    assert(pieces(dotted, ROOT) == parts.push(none).drop_last().push(none.push(46)));
    assert(parts.push(none).drop_last() == parts);
    assert(pieces(dotted, ROOT) == parts.push(seq![46u8])) by {
        assert(none.push(46) == seq![46u8]);
    }
    names_of_a_prefix(parts, none, parts.len());
    names_of_a_prefix(parts, seq![46u8], parts.len());
    assert(parts.push(none)[parts.len() as int] == none);
    assert(parts.push(seq![46u8])[parts.len() as int] == seq![46u8]);
    assert(components(slashed) == components(path));
    assert(components(dotted) == components(path));
    assert(slashed[0] == path[0] && dotted[0] == path[0]);
}

/// A name after a separator is one more component, which is that name: paths that
/// differ in their last name differ.
pub proof fn names_are_components(path: Seq<u8>, name: Seq<u8>)
    requires
        path.len() > 0,
        name.len() > 0,
        !name.contains(47),
        name != seq![46u8],
    ensures
        components(path.push(47) + name) == components(path).push(name),
        absolute(path.push(47) + name) == absolute(path),
{
    let parts = pieces(path, ROOT);
    let slashed = path.push(47);
    splitting_loses_nothing(path, ROOT);
    assert(slashed.drop_last() == path);
    appended_bytes_extend_the_last_piece(slashed, name);
    let none = Seq::<u8>::empty();
    assert(pieces(slashed, ROOT) == parts.push(none));
    assert(parts.push(none).drop_last() == parts);
    assert(none + name == name);
    assert(pieces(slashed + name, ROOT) == parts.push(name));
    names_of_a_prefix(parts, name, parts.len());
    assert(parts.push(name)[parts.len() as int] == name);
    assert((slashed + name)[0] == path[0]);
}

proof fn appended_bytes_extend_the_last_piece(bytes: Seq<u8>, more: Seq<u8>)
    requires
        !more.contains(47),
    ensures
        pieces(bytes + more, ROOT) == pieces(bytes, ROOT).drop_last().push(
            pieces(bytes, ROOT).last() + more,
        ),
    decreases more.len(),
{
    splitting_loses_nothing(bytes, ROOT);
    let before = pieces(bytes, ROOT);
    if more.len() == 0 {
        assert(bytes + more == bytes);
        assert(before.last() + more == before.last());
        assert(before.drop_last().push(before.last()) == before);
    } else {
        let rest = more.drop_last();
        assert forall|i: int| 0 <= i < rest.len() implies #[trigger] rest[i] != 47 by {
            assert(more[i] == rest[i]);
            assert(more.contains(more[i]));
        }
        assert(!rest.contains(47));
        appended_bytes_extend_the_last_piece(bytes, rest);
        assert((bytes + more).drop_last() == bytes + rest);
        assert((bytes + more).last() == more.last());
        assert(more[more.len() - 1] == more.last());
        assert(more.contains(more.last()));
        let middle = before.drop_last().push(before.last() + rest);
        assert(middle.drop_last() == before.drop_last());
        assert((before.last() + rest).push(more.last()) == before.last() + more);
    }
}

/// The root has no components, and paths are equal exactly when both or neither
/// are absolute and their components are the same.
pub proof fn equal_paths_have_the_same_components(a: Seq<u8>, b: Seq<u8>)
    ensures
        equal_paths(a, b) <==> (a.len() > 0 && a[0] == 47 <==> b.len() > 0 && b[0] == 47)
            && components(a) == components(b),
        equal_paths(a, b) <==> equal_paths(b, a),
        equal_paths(a, a),
        components(seq![47u8]).len() == 0,
        components(Seq::empty()).len() == 0,
{
    reveal_with_fuel(pieces, 3);
    reveal_with_fuel(names, 3);
    let root = seq![47u8];
    assert(root.drop_last() == Seq::<u8>::empty());
    assert(pieces(root, ROOT) == seq![Seq::<u8>::empty(), Seq::<u8>::empty()]);
}

/// The executable of a process is the link that the system keeps under the
/// process's number.
pub proof fn executables_are_under_their_process(pid: nat)
    ensures
        ({
            let path = executable_path(pid);
            let prefix = "/proc/"@;
            let suffix = "/exe"@;
            &&& path.take(prefix.len() as int) == prefix
            &&& path.skip(path.len() - suffix.len()) == suffix
            &&& crate::text::numeral(
                path.subrange(prefix.len() as int, path.len() - suffix.len()),
            ) == pid
        }),
{
    let path = executable_path(pid);
    let prefix = "/proc/"@;
    let suffix = "/exe"@;
    let digits = crate::text::decimal(pid);
    crate::text::decimals_read_back(pid);
    assert(path.take(prefix.len() as int) == prefix);
    assert(path.skip(path.len() - suffix.len()) == suffix);
    assert(path.subrange(prefix.len() as int, path.len() - suffix.len()) == digits);
}

} // verus!
