//! Host paths as bytes, compared and nested by their components.

use vstd::prelude::*;

use crate::text::{bytes_equal, push_bytes};

verus! {

/// The parts of `bytes` between occurrences of `separator`; there is always
/// one more part than there are separators.
pub open spec fn split_on(bytes: Seq<u8>, separator: u8) -> Seq<Seq<u8>>
    decreases bytes.len(),
{
    if bytes.len() == 0 {
        seq![Seq::empty()]
    } else {
        let parts = split_on(bytes.drop_last(), separator);
        if bytes.last() == separator {
            parts.push(Seq::empty())
        } else {
            parts.drop_last().push(parts.last().push(bytes.last()))
        }
    }
}

/// Whether a part of a path is a component: neither empty nor a single stop.
pub open spec fn is_component(part: Seq<u8>) -> bool {
    part.len() > 0 && part != seq![0x2eu8]
}

/// The components among the parts of a path.
pub open spec fn named_components(parts: Seq<Seq<u8>>) -> Seq<Seq<u8>>
    decreases parts.len(),
{
    if parts.len() == 0 {
        Seq::empty()
    } else {
        let front = named_components(parts.drop_last());
        if is_component(parts.last()) {
            front.push(parts.last())
        } else {
            front
        }
    }
}

/// Whether a path begins at the root.
pub open spec fn is_absolute(path: Seq<u8>) -> bool {
    path.len() > 0 && path[0] == 0x2f
}

/// What a path begins with: the root, the current directory, or nothing.
pub open spec fn path_head(path: Seq<u8>) -> Seq<Seq<u8>> {
    if is_absolute(path) {
        seq![seq![0x2fu8]]
    } else if split_on(path, 0x2f)[0] == seq![0x2eu8] {
        seq![seq![0x2eu8]]
    } else {
        Seq::empty()
    }
}

/// The components of a path. Repeated and trailing separators and inner single
/// stops do not count.
pub open spec fn components(path: Seq<u8>) -> Seq<Seq<u8>> {
    path_head(path) + named_components(split_on(path, 0x2f))
}

/// What a list of byte vectors holds.
pub open spec fn byte_views(parts: Seq<Vec<u8>>) -> Seq<Seq<u8>> {
    parts.map_values(|part: Vec<u8>| part@)
}

proof fn lemma_split_nonempty(bytes: Seq<u8>, separator: u8)
    ensures
        split_on(bytes, separator).len() > 0,
    decreases bytes.len(),
{
    if bytes.len() > 0 {
        lemma_split_nonempty(bytes.drop_last(), separator);
    }
}

/// Splits `bytes` at every `separator`.
pub fn split_bytes(bytes: &[u8], separator: u8) -> (parts: Vec<Vec<u8>>)
    ensures
        byte_views(parts@) == split_on(bytes@, separator),
{
    let mut parts: Vec<Vec<u8>> = Vec::new();
    let mut current: Vec<u8> = Vec::new();
    let mut index: usize = 0;
    assert(bytes@.take(0).len() == 0);
    assert(byte_views(parts@).push(current@) =~= seq![Seq::<u8>::empty()]);
    while index < bytes.len()
        invariant
            index <= bytes.len(),
            byte_views(parts@).push(current@) == split_on(bytes@.take(index as int), separator),
        decreases bytes.len() - index,
    {
        let byte: u8 = bytes[index];
        let ghost before = byte_views(parts@).push(current@);
        proof {
            let taken = bytes@.take(index as int + 1);
            assert(taken.drop_last() =~= bytes@.take(index as int));
            assert(taken.last() == byte);
            assert(before.drop_last() =~= byte_views(parts@));
            assert(before.last() == current@);
        }
        if byte == separator {
            let ghost old_parts = parts@;
            let finished = current;
            parts.push(finished);
            current = Vec::new();
            assert(byte_views(parts@) =~= before);
            assert(byte_views(parts@).push(current@) =~= before.push(Seq::empty()));
        } else {
            current.push(byte);
            assert(byte_views(parts@).push(current@) =~= before.drop_last().push(
                before.last().push(byte),
            ));
        }
        index += 1;
    }
    assert(bytes@.take(index as int) =~= bytes@);
    let ghost whole = byte_views(parts@).push(current@);
    parts.push(current);
    assert(byte_views(parts@) =~= whole);
    parts
}

fn clone_bytes(bytes: &[u8]) -> (copy: Vec<u8>)
    ensures
        copy@ == bytes@,
{
    let mut copy: Vec<u8> = Vec::new();
    push_bytes(&mut copy, bytes);
    assert(copy@ =~= bytes@);
    copy
}

fn is_single_stop(part: &[u8]) -> (single: bool)
    ensures
        single == (part@ == seq![0x2eu8]),
{
    let single = part.len() == 1 && part[0] == 0x2e;
    proof {
        if single {
            assert(part@ =~= seq![0x2eu8]);
        }
    }
    single
}

/// The components of a path.
pub fn path_components(path: &[u8]) -> (result: Vec<Vec<u8>>)
    ensures
        byte_views(result@) == components(path@),
{
    let parts = split_bytes(path, 0x2f);
    proof {
        lemma_split_nonempty(path@, 0x2f);
        assert(byte_views(parts@).len() == parts@.len());
        assert(byte_views(parts@)[0] == parts@[0]@);
    }
    let mut result: Vec<Vec<u8>> = Vec::new();
    if path.len() > 0 && path[0] == 0x2f {
        let mut root: Vec<u8> = Vec::new();
        root.push(0x2f);
        assert(root@ =~= seq![0x2fu8]);
        result.push(root);
        assert(byte_views(result@) =~= path_head(path@));
    } else if is_single_stop(parts[0].as_slice()) {
        let mut stop: Vec<u8> = Vec::new();
        stop.push(0x2e);
        assert(stop@ =~= seq![0x2eu8]);
        result.push(stop);
        assert(byte_views(result@) =~= path_head(path@));
    } else {
        assert(byte_views(result@) =~= path_head(path@));
    }
    let ghost split = split_on(path@, 0x2f);
    let mut index: usize = 0;
    assert(split.take(0).len() == 0);
    assert(byte_views(result@) =~= path_head(path@) + named_components(split.take(0)));
    while index < parts.len()
        invariant
            index <= parts.len(),
            byte_views(parts@) == split,
            split == split_on(path@, 0x2f),
            byte_views(result@) == path_head(path@) + named_components(split.take(index as int)),
        decreases parts.len() - index,
    {
        let part = parts[index].as_slice();
        proof {
            let taken = split.take(index as int + 1);
            assert(split.len() == parts@.len());
            assert(split[index as int] == parts@[index as int]@);
            assert(taken.drop_last() =~= split.take(index as int));
            assert(taken.last() == part@);
        }
        let ghost before = byte_views(result@);
        if part.len() > 0 && !is_single_stop(part) {
            result.push(clone_bytes(part));
            assert(byte_views(result@) =~= before.push(part@));
            assert(byte_views(result@) =~= path_head(path@) + named_components(
                split.take(index as int + 1),
            ));
        }
        index += 1;
    }
    assert(split.len() == parts@.len());
    assert(split.take(index as int) =~= split);
    result
}

/// Whether a path begins at the root.
pub fn path_is_absolute(path: &[u8]) -> (absolute: bool)
    ensures
        absolute == is_absolute(path@),
{
    path.len() > 0 && path[0] == 0x2f
}

fn parts_equal(left: &Vec<Vec<u8>>, right: &Vec<Vec<u8>>) -> (equal: bool)
    ensures
        equal == (byte_views(left@) == byte_views(right@)),
{
    if left.len() != right.len() {
        assert(byte_views(left@).len() != byte_views(right@).len());
        return false;
    }
    let mut index: usize = 0;
    while index < left.len()
        invariant
            index <= left.len(),
            left.len() == right.len(),
            forall|i: int| 0 <= i < index ==> (#[trigger] left@[i])@ == right@[i]@,
        decreases left.len() - index,
    {
        if !bytes_equal(left[index].as_slice(), right[index].as_slice()) {
            assert(byte_views(left@)[index as int] != byte_views(right@)[index as int]);
            return false;
        }
        index += 1;
    }
    assert(byte_views(left@) =~= byte_views(right@));
    true
}

/// Whether two paths have the same components.
pub fn paths_equal(left: &[u8], right: &[u8]) -> (equal: bool)
    ensures
        equal == (components(left@) == components(right@)),
{
    parts_equal(&path_components(left), &path_components(right))
}

/// The components of `path` below `base`, where `base` is a prefix of it.
pub open spec fn relative_components(path: Seq<u8>, base: Seq<u8>) -> Option<Seq<Seq<u8>>> {
    let whole = components(path);
    let prefix = components(base);
    if prefix.len() <= whole.len() && whole.take(prefix.len() as int) == prefix {
        Some(whole.skip(prefix.len() as int))
    } else {
        None
    }
}

/// The components of `path` below `base`.
pub fn strip_prefix(path: &[u8], base: &[u8]) -> (rest: Option<Vec<Vec<u8>>>)
    ensures
        match rest {
            Some(rest) => relative_components(path@, base@) == Some(byte_views(rest@)),
            None => relative_components(path@, base@) is None,
        },
{
    let whole = path_components(path);
    let prefix = path_components(base);
    let ghost w = components(path@);
    let ghost p = components(base@);
    assert(w.len() == whole@.len());
    assert(p.len() == prefix@.len());
    if prefix.len() > whole.len() {
        return None;
    }
    let mut index: usize = 0;
    while index < prefix.len()
        invariant
            index <= prefix.len() <= whole.len(),
            byte_views(whole@) == w,
            byte_views(prefix@) == p,
            w == components(path@),
            p == components(base@),
            forall|i: int| 0 <= i < index ==> (#[trigger] whole@[i])@ == prefix@[i]@,
        decreases prefix.len() - index,
    {
        if !bytes_equal(whole[index].as_slice(), prefix[index].as_slice()) {
            proof {
                assert(w[index as int] == whole@[index as int]@);
                assert(p[index as int] == prefix@[index as int]@);
                assert(w.take(p.len() as int)[index as int] != p[index as int]);
            }
            return None;
        }
        index += 1;
    }
    assert(w.take(p.len() as int) =~= p) by {
        assert forall|i: int| 0 <= i < p.len() implies w.take(p.len() as int)[i] == p[i] by {
            assert(whole@[i]@ == prefix@[i]@);
            assert(w[i] == whole@[i]@);
            assert(p[i] == prefix@[i]@);
        }
    }
    let mut rest: Vec<Vec<u8>> = Vec::new();
    let start: usize = prefix.len();
    let mut at: usize = start;
    while at < whole.len()
        invariant
            start <= at <= whole.len(),
            byte_views(whole@) == w,
            w.len() == whole@.len(),
            byte_views(rest@) == w.subrange(start as int, at as int),
        decreases whole.len() - at,
    {
        assert(w[at as int] == whole@[at as int]@);
        let ghost before = byte_views(rest@);
        rest.push(clone_bytes(whole[at].as_slice()));
        assert(byte_views(rest@) =~= before.push(w[at as int]));
        assert(byte_views(rest@) =~= w.subrange(start as int, at as int + 1));
        at += 1;
    }
    assert(byte_views(rest@) =~= w.skip(start as int));
    Some(rest)
}

/// Whether `path` is exactly the entry `name` directly below `base`.
pub open spec fn is_entry_of(path: Seq<u8>, base: Seq<u8>, name: Seq<u8>) -> bool {
    relative_components(path, base) == Some(seq![name])
}

/// Whether `path` is exactly the entry `name` directly below `base`.
pub fn entry_of(path: &[u8], base: &[u8], name: &[u8]) -> (entry: bool)
    ensures
        entry == is_entry_of(path@, base@, name@),
{
    match strip_prefix(path, base) {
        None => false,
        Some(rest) => {
            let ghost views = byte_views(rest@);
            assert(views.len() == rest@.len());
            if rest.len() != 1 {
                return false;
            }
            assert(views[0] == rest@[0]@);
            let equal = bytes_equal(rest[0].as_slice(), name);
            proof {
                if equal {
                    assert(views =~= seq![name@]);
                } else {
                    assert(seq![name@][0] == name@);
                }
            }
            equal
        },
    }
}

/// Bytes split at every separator and nowhere else: without one they are a
/// single part, and the parts around one are the parts of each side.
pub proof fn law_split_is_at_separators(before: Seq<u8>, separator: u8, after: Seq<u8>)
    ensures
        !before.contains(separator) ==> split_on(before, separator) == seq![before],
        split_on(before + seq![separator] + after, separator) == split_on(before, separator)
            + split_on(after, separator),
{
    lemma_unseparated_is_one_part(before, separator);
    lemma_parts_join(before, separator, after);
}

proof fn lemma_unseparated_is_one_part(bytes: Seq<u8>, separator: u8)
    ensures
        !bytes.contains(separator) ==> split_on(bytes, separator) == seq![bytes],
    decreases bytes.len(),
{
    if bytes.len() == 0 {
        assert(bytes =~= Seq::empty());
    } else if !bytes.contains(separator) {
        let front = bytes.drop_last();
        assert(!front.contains(separator)) by {
            if front.contains(separator) {
                let at = choose|at: int| 0 <= at < front.len() && front[at] == separator;
                assert(bytes[at] == separator);
            }
        }
        lemma_unseparated_is_one_part(front, separator);
        assert(bytes[bytes.len() - 1] != separator);
        assert(front.push(bytes.last()) =~= bytes);
        assert(split_on(bytes, separator) =~= seq![bytes]);
    }
}

proof fn lemma_parts_join(before: Seq<u8>, separator: u8, after: Seq<u8>)
    ensures
        split_on(before + seq![separator] + after, separator) == split_on(before, separator)
            + split_on(after, separator),
    decreases after.len(),
{
    let whole = before + seq![separator] + after;
    let head = split_on(before, separator);
    if after.len() == 0 {
        assert(whole.drop_last() =~= before);
        assert(split_on(whole, separator) =~= head + split_on(after, separator));
    } else {
        let rest = after.drop_last();
        lemma_parts_join(before, separator, rest);
        lemma_split_nonempty(rest, separator);
        let tail = split_on(rest, separator);
        assert(whole.drop_last() =~= before + seq![separator] + rest);
        let joined = head + tail;
        assert(joined.last() == tail.last());
        assert(joined.drop_last() =~= head + tail.drop_last());
        assert(split_on(whole, separator) =~= head + split_on(after, separator));
    }
}

/// A further part adds itself to the components of a path, unless it is empty or
/// a single full stop; the parts before it stay as they are.
pub proof fn law_components_are_the_named_parts(parts: Seq<Seq<u8>>, part: Seq<u8>)
    ensures
        named_components(Seq::empty()).len() == 0,
        part.len() == 0 || part == seq![46u8] ==> named_components(parts.push(part))
            == named_components(parts),
        part.len() > 0 && part != seq![46u8] ==> named_components(parts.push(part))
            == named_components(parts).push(part),
{
    assert(parts.push(part).drop_last() =~= parts);
}

/// An absolute path begins with a slash and its components with the root; a
/// relative one begins with its first named part, or with a leading full stop.
pub proof fn law_path_begins_as_it_is_anchored(path: Seq<u8>)
    ensures
        is_absolute(path) <==> path.len() > 0 && path[0] == 47,
        path.len() > 0 && path[0] == 47 ==> components(path) == seq![seq![47u8]]
            + named_components(split_on(path, 47)),
        !(path.len() > 0 && path[0] == 47) && split_on(path, 47)[0] == seq![46u8] ==> components(
            path,
        ) == seq![seq![46u8]] + named_components(split_on(path, 47)),
        !(path.len() > 0 && path[0] == 47) && split_on(path, 47)[0] != seq![46u8] ==> components(
            path,
        ) == named_components(split_on(path, 47)),
{
    assert(Seq::<Seq<u8>>::empty() + named_components(split_on(path, 47)) =~= named_components(
        split_on(path, 47),
    ));
}

/// A path lies below a base exactly when its components are the base's and some
/// more; it is an entry of the base exactly when that is one, the entry's name.
pub proof fn law_relative_path_completes_its_base(
    path: Seq<u8>,
    base: Seq<u8>,
    rest: Seq<Seq<u8>>,
    name: Seq<u8>,
)
    ensures
        relative_components(path, base) == Some(rest) <==> components(path) == components(base)
            + rest,
        is_entry_of(path, base, name) <==> components(path) == components(base).push(name),
{
    let whole = components(path);
    let prefix = components(base);
    assert(prefix.push(name) =~= prefix + seq![name]);
    assert forall|tail: Seq<Seq<u8>>| whole == prefix + tail implies relative_components(path, base)
        == Some(tail) by {
        assert(whole.take(prefix.len() as int) =~= prefix);
        assert(whole.skip(prefix.len() as int) =~= tail);
    }
    if relative_components(path, base) is Some {
        assert(whole =~= prefix + whole.skip(prefix.len() as int));
    }
}

} // verus!
