//! Paths: which directory entries a path names, one after the other.
//!
//! How paths are written is up to the host, which splits a path into its parts. On Unix, `/`
//! separates the names in a path.
use vstd::prelude::*;

verus! {

/// The pieces of `path` between its slashes.
pub open spec fn split_path(path: Seq<char>) -> Seq<Seq<char>>
    decreases path.len(),
{
    if path.len() == 0 {
        seq![Seq::empty()]
    } else {
        let pieces = split_path(path.drop_last());
        if path.last() == '/' {
            pieces.push(Seq::empty())
        } else {
            pieces.drop_last().push(pieces.last().push(path.last()))
        }
    }
}

/// Whether a piece of a path is the name of a directory entry: not empty, and neither the
/// directory itself nor its parent.
pub open spec fn is_name(piece: Seq<char>) -> bool {
    piece.len() != 0 && piece != seq!['.'] && piece != seq!['.', '.']
}

/// The names in `path`, written as on Unix, in order.
pub open spec fn path_names(path: Seq<char>) -> Seq<Seq<char>> {
    split_path(path).filter(|piece: Seq<char>| is_name(piece))
}

/// What the strings in `names` say.
pub open spec fn texts(names: Seq<String>) -> Seq<Seq<char>> {
    names.map_values(|name: String| name@)
}

/// A part of a path, as the host splits it.
#[derive(Debug, PartialEq, Eq)]
pub enum PathPart {
    /// What stands before the root, such as a drive.
    Prefix,
    /// The root itself.
    RootDir,
    /// The directory that the path has got to.
    CurDir,
    /// The parent of the directory that the path has got to.
    ParentDir,
    /// A directory entry.
    Normal(String),
}

/// The names in a path that the host has split into `parts`, in order.
pub open spec fn part_names(parts: Seq<PathPart>) -> Seq<Seq<char>>
    decreases parts.len(),
{
    if parts.len() == 0 {
        Seq::empty()
    } else {
        let names = part_names(parts.drop_last());
        match parts.last() {
            PathPart::Normal(name) => names.push(name@),
            _ => names,
        }
    }
}

/// Picks the names from a path that the host has split into `parts`.
pub fn names_in_parts(parts: Vec<PathPart>) -> (names: Vec<String>)
    ensures
        texts(names@) == part_names(parts@),
{
    let ghost all = parts@;
    let mut names: Vec<String> = Vec::new();
    assert(texts(names@) =~= part_names(all.take(0)));
    for part in it: parts
        invariant
            it.seq() == all,
            texts(names@) == part_names(all.take(it.index())),
    {
        let ghost before = names@;
        assert(all.take(it.index() + 1).drop_last() =~= all.take(it.index()));
        if let PathPart::Normal(name) = part {
            names.push(name);
            assert(texts(names@) =~= texts(before).push(name@));
        }
    }
    assert(all.take(all.len() as int) =~= all);
    names
}

fn chars_of(text: &str) -> (chars: Vec<char>)
    ensures
        chars@ == text@,
{
    let mut chars: Vec<char> = Vec::new();
    for c in it: text.chars()
        invariant
            it.seq() == text@,
            chars@ == text@.take(it.index()),
    {
        chars.push(c);
    }
    assert(chars@ =~= text@);
    chars
}

/// Whether the piece of `chars` from `from` to `to` is a name.
fn piece_is_name(chars: &Vec<char>, from: usize, to: usize) -> (name: bool)
    requires
        from <= to <= chars@.len(),
    ensures
        name == is_name(chars@.subrange(from as int, to as int)),
{
    let ghost piece = chars@.subrange(from as int, to as int);
    let len: usize = to - from;
    if len == 0 {
        false
    } else if len == 1 {
        proof {
            if piece[0] == '.' {
                assert(piece =~= seq!['.']);
            }
            assert(seq!['.', '.'].len() == 2);
        }
        chars[from] != '.'
    } else if len == 2 {
        proof {
            if piece[0] == '.' && piece[1] == '.' {
                assert(piece =~= seq!['.', '.']);
            }
            assert(seq!['.'].len() == 1);
        }
        chars[from] != '.' || chars[from + 1] != '.'
    } else {
        assert(seq!['.'].len() == 1);
        assert(seq!['.', '.'].len() == 2);
        true
    }
}

/// Splits `path`, written as on Unix, into the names in it.
pub fn names_in_path(path: &str) -> (names: Vec<String>)
    ensures
        texts(names@) == path_names(path@),
{
    let chars = chars_of(path);
    let mut names: Vec<String> = Vec::new();
    let ghost keep = |piece: Seq<char>| is_name(piece);
    let ghost mut done: Seq<Seq<char>> = Seq::empty();
    let mut start: usize = 0;
    let mut i: usize = 0;
    assert(path@.subrange(0, 0) =~= Seq::empty());
    assert(split_path(path@.take(0)) =~= done.push(path@.subrange(0, 0)));
    assert(texts(names@) =~= done.filter(keep)) by {
        reveal(Seq::filter);
    }
    loop
        invariant_except_break
            chars@ == path@,
            start <= i <= chars@.len(),
            keep == (|piece: Seq<char>| is_name(piece)),
            split_path(path@.take(i as int)) == done.push(path@.subrange(start as int, i as int)),
            texts(names@) == done.filter(keep),
        ensures
            texts(names@) == path_names(path@),
        decreases chars@.len() - i,
    {
        if i == chars.len() || chars[i] == '/' {
            let ghost piece = path@.subrange(start as int, i as int);
            let ghost names_before = names@;
            proof {
                done.lemma_filter_push(piece, keep);
            }
            if piece_is_name(&chars, start, i) {
                names.push(path.substring_char(start, i).to_owned());
                assert(texts(names@) =~= texts(names_before).push(piece));
            }
            proof {
                done = done.push(piece);
            }
            if i == chars.len() {
                assert(path@.take(i as int) =~= path@);
                break;
            }
            start = i + 1;
        }
        proof {
            let next = path@.take(i + 1);
            assert(next.drop_last() =~= path@.take(i as int));
            if start == i + 1 {
                assert(path@.subrange(start as int, i + 1) =~= Seq::empty());
            } else {
                let pieces = split_path(next.drop_last());
                assert(pieces.drop_last() =~= done);
                assert(path@.subrange(start as int, i + 1) =~= path@.subrange(
                    start as int,
                    i as int,
                ).push(path@[i as int]));
            }
        }
        i = i + 1;
    }
    names
}

proof fn lemma_split_nonempty(path: Seq<char>)
    ensures
        split_path(path).len() > 0,
    decreases path.len(),
{
    if path.len() > 0 {
        lemma_split_nonempty(path.drop_last());
    }
}

proof fn lemma_split_join(left: Seq<char>, right: Seq<char>)
    ensures
        split_path(left.push('/') + right) == split_path(left) + split_path(right),
    decreases right.len(),
{
    let whole = left.push('/') + right;
    if right.len() == 0 {
        assert(whole =~= left.push('/'));
        assert(whole.drop_last() =~= left);
        assert(split_path(whole) =~= split_path(left) + split_path(right));
    } else {
        lemma_split_join(left, right.drop_last());
        lemma_split_nonempty(right.drop_last());
        assert(whole.drop_last() =~= left.push('/') + right.drop_last());
        assert(whole.last() == right.last());
        assert(split_path(whole) =~= split_path(left) + split_path(right));
    }
}

proof fn lemma_split_no_slash(path: Seq<char>)
    ensures
        forall|i: int|
            0 <= i < split_path(path).len() ==> !(#[trigger] split_path(path)[i]).contains('/'),
        !path.contains('/') ==> split_path(path) == seq![path],
    decreases path.len(),
{
    if path.len() == 0 {
        assert(path =~= Seq::empty());
        assert(split_path(path) =~= seq![path]);
    } else {
        let front = path.drop_last();
        let pieces = split_path(front);
        lemma_split_no_slash(front);
        lemma_split_nonempty(front);
        assert forall|i: int| 0 <= i < split_path(path).len() implies !(
        #[trigger] split_path(path)[i]).contains('/') by {
            if path.last() != '/' && i == pieces.len() - 1 {
                vstd::seq_lib::lemma_seq_contains_after_push(pieces.last(), path.last(), '/');
                assert(!pieces[i].contains('/'));
            } else if i < pieces.len() {
                assert(!pieces[i].contains('/'));
            }
        }
        if !path.contains('/') {
            assert(path[path.len() - 1] == path.last());
            assert forall|i: int| 0 <= i < front.len() implies front[i] != '/' by {
                assert(path[i] == front[i]);
            }
            assert(!front.contains('/'));
            assert(front.push(path.last()) =~= path);
            assert(split_path(path) =~= seq![path]);
        }
    }
}

/// The names in two paths joined by a slash are the names in the one and then those in the
/// other.
pub proof fn lemma_names_of_joined_paths(left: Seq<char>, right: Seq<char>)
    ensures
        path_names(left.push('/') + right) == path_names(left) + path_names(right),
{
    lemma_split_join(left, right);
    Seq::filter_distributes_over_add(
        split_path(left),
        split_path(right),
        |piece: Seq<char>| is_name(piece),
    );
}

/// A path names nothing but directory entries: no name in it is empty, is the directory itself
/// or its parent, or holds a slash.
pub proof fn lemma_names_are_entries(path: Seq<char>, i: int)
    requires
        0 <= i < path_names(path).len(),
    ensures
        is_name(path_names(path)[i]),
        !path_names(path)[i].contains('/'),
{
    let keep = |piece: Seq<char>| is_name(piece);
    split_path(path).lemma_filter_pred(keep, i);
    let piece = path_names(path)[i];
    assert(path_names(path).contains(piece));
    let j = choose|j: int| 0 <= j < split_path(path).len() && split_path(path)[j] == piece;
    assert(split_path(path).contains(piece)) by {
        split_path(path).lemma_filter_contains_rev(keep, piece);
    }
    lemma_split_no_slash(path);
    assert(!split_path(path)[j].contains('/'));
}

/// The name of a directory entry, taken as a path, names that entry.
pub proof fn lemma_name_is_path(name: Seq<char>)
    requires
        is_name(name),
        !name.contains('/'),
    ensures
        path_names(name) == seq![name],
{
    let keep = |piece: Seq<char>| is_name(piece);
    lemma_split_no_slash(name);
    assert(seq![name] =~= Seq::empty().push(name));
    Seq::<Seq<char>>::empty().lemma_filter_push(name, keep);
    assert(Seq::<Seq<char>>::empty().filter(keep) =~= Seq::empty()) by {
        reveal(Seq::filter);
    }
    assert(path_names(name) =~= seq![name]);
}

/// A path without a slash has itself as its only name, unless it is empty, the directory itself
/// or its parent: then it has none.
pub proof fn lemma_names_without_slash(path: Seq<char>)
    requires
        !path.contains('/'),
    ensures
        path.len() == 0 || path == seq!['.'] || path == seq!['.', '.'] ==> path_names(path)
            == Seq::<Seq<char>>::empty(),
        path.len() != 0 && path != seq!['.'] && path != seq!['.', '.'] ==> path_names(path)
            == seq![path],
{
    if path.len() == 0 || path == seq!['.'] || path == seq!['.', '.'] {
        let keep = |piece: Seq<char>| is_name(piece);
        lemma_split_no_slash(path);
        assert(seq![path] =~= Seq::empty().push(path));
        Seq::<Seq<char>>::empty().lemma_filter_push(path, keep);
        assert(Seq::<Seq<char>>::empty().filter(keep) =~= Seq::empty()) by {
            reveal(Seq::filter);
        }
        assert(path_names(path) =~= Seq::<Seq<char>>::empty());
    } else {
        lemma_name_is_path(path);
    }
}

} // verus!
