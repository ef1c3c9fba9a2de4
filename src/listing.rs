//! Listing a folder: unreadable children are skipped, the rest are sorted by
//! name.
use vstd::prelude::*;
use vstd::multiset::Multiset;
use vstd::utf8::encode_utf8;

use crate::entry::FileOperation;
use crate::errors::FileError;

verus! {

/// Byte-wise lexicographic order: `a` comes before `b` or equals it.
pub open spec fn bytes_le(a: Seq<u8>, b: Seq<u8>) -> bool
    decreases a.len(),
{
    if a.len() == 0 {
        true
    } else if b.len() == 0 {
        false
    } else if a[0] != b[0] {
        a[0] < b[0]
    } else {
        bytes_le(a.drop_first(), b.drop_first())
    }
}

/// The sort key of an entry: the UTF-8 bytes of its name, which is how
/// strings compare.
pub open spec fn name_key(e: FileOperation) -> Seq<u8> {
    encode_utf8(e.name@)
}

/// Entry `i` never comes after entry `j` by name.
pub open spec fn in_name_order(s: Seq<FileOperation>, i: int, j: int) -> bool {
    bytes_le(name_key(s[i]), name_key(s[j]))
}

/// The entries are in non-decreasing order of name.
pub open spec fn sorted_by_name(s: Seq<FileOperation>) -> bool {
    forall|i: int, j: int| 0 <= i < j < s.len() ==> #[trigger] in_name_order(s, i, j)
}

/// The children whose metadata could be read, in the order they were seen.
pub open spec fn readable_entries(raw: Seq<Option<FileOperation>>) -> Seq<FileOperation>
    decreases raw.len(),
{
    if raw.len() == 0 {
        Seq::empty()
    } else {
        let rest = readable_entries(raw.drop_last());
        match raw.last() {
            Some(e) => rest.push(e),
            None => rest,
        }
    }
}

/// Every child could be read.
pub open spec fn all_readable(raw: Seq<Option<FileOperation>>) -> bool {
    forall|i: int| 0 <= i < raw.len() ==> (#[trigger] raw[i]) is Some
}

pub proof fn lemma_bytes_le_total(a: Seq<u8>, b: Seq<u8>)
    ensures
        bytes_le(a, b) || bytes_le(b, a),
    decreases a.len(),
{
    if a.len() > 0 && b.len() > 0 && a[0] == b[0] {
        lemma_bytes_le_total(a.drop_first(), b.drop_first());
    }
}

pub proof fn lemma_bytes_le_transitive(a: Seq<u8>, b: Seq<u8>, c: Seq<u8>)
    requires
        bytes_le(a, b),
        bytes_le(b, c),
    ensures
        bytes_le(a, c),
    decreases a.len(),
{
    if a.len() > 0 && b.len() > 0 && c.len() > 0 && a[0] == b[0] && b[0] == c[0] {
        lemma_bytes_le_transitive(a.drop_first(), b.drop_first(), c.drop_first());
    }
}

/// Compares two names the way strings compare.
pub fn name_le(a: &String, b: &String) -> (r: bool)
    ensures
        r == bytes_le(encode_utf8(a@), encode_utf8(b@)),
{
    let x = a.as_str().as_bytes();
    let y = b.as_str().as_bytes();
    let ghost xs = encode_utf8(a@);
    let ghost ys = encode_utf8(b@);
    let mut i: usize = 0;
    assert(xs.skip(0) =~= xs);
    assert(ys.skip(0) =~= ys);
    while i < x.len() && i < y.len() && x[i] == y[i]
        invariant
            x@ == xs,
            y@ == ys,
            i <= xs.len(),
            i <= ys.len(),
            bytes_le(xs, ys) == bytes_le(xs.skip(i as int), ys.skip(i as int)),
        decreases xs.len() - i,
    {
        assert(xs.skip(i as int).drop_first() =~= xs.skip(i + 1));
        assert(ys.skip(i as int).drop_first() =~= ys.skip(i + 1));
        i = i + 1;
    }
    if i == x.len() {
        true
    } else if i == y.len() {
        false
    } else {
        x[i] < y[i]
    }
}

/// Inserts `e` after every entry whose name does not come after its own.
fn insert_by_name(sorted: &mut Vec<FileOperation>, e: FileOperation)
    requires
        sorted_by_name(old(sorted)@),
    ensures
        sorted_by_name(final(sorted)@),
        final(sorted)@.to_multiset() =~= old(sorted)@.to_multiset().insert(e),
{
    let ghost s = sorted@;
    let mut p: usize = 0;
    while p < sorted.len() && name_le(&sorted[p].name, &e.name)
        invariant
            sorted@ == s,
            sorted_by_name(s),
            p <= s.len(),
            forall|i: int| 0 <= i < p ==> bytes_le(#[trigger] name_key(s[i]), name_key(e)),
        decreases s.len() - p,
    {
        p = p + 1;
    }
    proof {
        if p < s.len() {
            lemma_bytes_le_total(name_key(s[p as int]), name_key(e));
            assert forall|j: int| p <= j < s.len() implies bytes_le(
                name_key(e),
                #[trigger] name_key(s[j]),
            ) by {
                if j > p {
                    assert(in_name_order(s, p as int, j));
                    lemma_bytes_le_transitive(name_key(e), name_key(s[p as int]), name_key(s[j]));
                }
            }
        }
    }
    sorted.insert(p, e);
    proof {
        let t = sorted@;
        assert(t == s.insert(p as int, e));
        assert forall|i: int, j: int| 0 <= i < j < t.len() implies #[trigger] in_name_order(
            t,
            i,
            j,
        ) by {
            if j < p {
                assert(in_name_order(s, i, j));
            } else if j == p {
                assert(bytes_le(name_key(s[i]), name_key(e)));
            } else if i == p {
                assert(bytes_le(name_key(e), name_key(s[j - 1])));
            } else if i < p {
                assert(in_name_order(s, i, j - 1));
            } else {
                assert(in_name_order(s, i - 1, j - 1));
            }
        }
        broadcast use vstd::seq_lib::group_to_multiset_ensures;
        assert(t.remove(p as int) =~= s);
        assert(t[p as int] == e);
        assert(t.to_multiset().count(e) > 0);
        assert(t.to_multiset() =~= s.to_multiset().insert(e));
    }
}

/// Sorts the readable children by name; the unreadable ones (`None`) are
/// left out.
pub fn sort_listing(raw: Vec<Option<FileOperation>>) -> (r: Vec<FileOperation>)
    ensures
        sorted_by_name(r@),
        r@.to_multiset() =~= readable_entries(raw@).to_multiset(),
{
    let ghost orig = raw@;
    let mut raw = raw;
    let mut result: Vec<FileOperation> = Vec::new();
    proof {
        broadcast use vstd::seq_lib::group_to_multiset_ensures;
        assert(result@.to_multiset() =~= Multiset::empty());
    }
    while raw.len() > 0
        invariant
            sorted_by_name(result@),
            readable_entries(raw@).to_multiset().add(result@.to_multiset())
                =~= readable_entries(orig).to_multiset(),
        decreases raw.len(),
    {
        let ghost before = raw@;
        let ghost placed = result@;
        let item = raw.pop();
        proof {
            assert(raw@ == before.drop_last());
            broadcast use vstd::seq_lib::group_to_multiset_ensures;
        }
        match item {
            Some(Some(e)) => {
                insert_by_name(&mut result, e);
                proof {
                    broadcast use vstd::seq_lib::group_to_multiset_ensures;
                    assert(readable_entries(before) == readable_entries(raw@).push(e));
                    assert(readable_entries(raw@).to_multiset().add(result@.to_multiset())
                        =~= readable_entries(before).to_multiset().add(placed.to_multiset()));
                }
            },
            _ => {
                assert(readable_entries(before) == readable_entries(raw@));
            },
        }
    }
    proof {
        assert(readable_entries(raw@) =~= Seq::<FileOperation>::empty());
        broadcast use vstd::seq_lib::group_to_multiset_ensures;
        assert(readable_entries(raw@).to_multiset() =~= Multiset::empty());
    }
    result
}

/// The listing of a folder from what the operating system reported: the
/// error with which the folder could not be opened, or each child in turn,
/// `None` where its metadata could not be read. The readable children come
/// back sorted by name; unreadable ones are skipped and do not fail the call.
pub fn list_files(listing: Result<Vec<Option<FileOperation>>, String>) -> (r: Result<
    Vec<FileOperation>,
    FileError,
>)
    ensures
        match listing {
            Ok(raw) => r matches Ok(v) && sorted_by_name(v@) && v@.to_multiset()
                =~= readable_entries(raw@).to_multiset(),
            Err(d) => r == Err::<Vec<FileOperation>, FileError>(FileError::DirectoryRead(d)),
        },
{
    match listing {
        Ok(raw) => Ok(sort_listing(raw)),
        Err(d) => Err(FileError::DirectoryRead(d)),
    }
}

/// The names of a sequence of entries, in order.
pub open spec fn names_of(s: Seq<FileOperation>) -> Seq<Seq<char>> {
    s.map_values(|e: FileOperation| e.name@)
}

proof fn lemma_same_entries_same_names(a: Seq<FileOperation>, b: Seq<FileOperation>)
    requires
        a.to_multiset() =~= b.to_multiset(),
    ensures
        names_of(a).to_multiset() =~= names_of(b).to_multiset(),
    decreases a.len(),
{
    broadcast use vstd::seq_lib::group_to_multiset_ensures;

    if a.len() == 0 {
        assert(b.len() == b.to_multiset().len());
        assert(a.len() == a.to_multiset().len());
        assert(b.len() == 0);
        assert(names_of(a) =~= names_of(b));
    } else {
        let x = a.last();
        let rest = a.drop_last();
        assert(a =~= rest.push(x));
        assert(a.to_multiset().count(x) > 0);
        assert(b.contains(x));
        let j = choose|j: int| 0 <= j < b.len() && b[j] == x;
        assert(b.remove(j).to_multiset() =~= b.to_multiset().remove(x));
        assert(rest.to_multiset() =~= a.to_multiset().remove(x));
        lemma_same_entries_same_names(rest, b.remove(j));
        assert(names_of(a) =~= names_of(rest).push(x.name@));
        assert(names_of(b.remove(j)) =~= names_of(b).remove(j));
        assert(names_of(b)[j] == x.name@);
        assert(names_of(b).to_multiset().count(x.name@) > 0);
        assert(names_of(b).to_multiset() =~= names_of(b).remove(j).to_multiset().insert(x.name@));
    }
}

/// When every child of a folder is readable, the listing holds as many
/// entries as the folder has children, and each child's name exactly as
/// often as it occurs among them: none is dropped and none is invented.
pub proof fn lemma_listing_complete(raw: Seq<Option<FileOperation>>, listed: Seq<FileOperation>)
    requires
        all_readable(raw),
        listed.to_multiset() =~= readable_entries(raw).to_multiset(),
    ensures
        listed.len() == raw.len(),
        names_of(listed).to_multiset() =~= names_of(readable_entries(raw)).to_multiset(),
{
    broadcast use vstd::seq_lib::group_to_multiset_ensures;

    lemma_same_entries_same_names(listed, readable_entries(raw));
    lemma_all_readable_len(raw);
    assert(listed.len() == listed.to_multiset().len());
    assert(readable_entries(raw).len() == readable_entries(raw).to_multiset().len());
}

proof fn lemma_all_readable_len(raw: Seq<Option<FileOperation>>)
    requires
        all_readable(raw),
    ensures
        readable_entries(raw).len() == raw.len(),
    decreases raw.len(),
{
    if raw.len() > 0 {
        assert(raw[raw.len() - 1] is Some);
        lemma_all_readable_len(raw.drop_last());
    }
}

/// Adding one unreadable child anywhere in a folder leaves the readable
/// children that the listing returns unchanged: the listing does not fail
/// and still holds every readable child, sorted.
pub proof fn lemma_unreadable_child_skipped(raw: Seq<Option<FileOperation>>, k: int)
    requires
        0 <= k <= raw.len(),
    ensures
        readable_entries(raw.insert(k, None)) == readable_entries(raw),
    decreases raw.len(),
{
    let with = raw.insert(k, None);
    if k == raw.len() {
        assert(with.drop_last() =~= raw);
    } else {
        assert(with.drop_last() =~= raw.drop_last().insert(k, None));
        assert(with.last() == raw.last());
        lemma_unreadable_child_skipped(raw.drop_last(), k);
    }
}

} // verus!
