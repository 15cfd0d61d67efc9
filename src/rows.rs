//! Properties of an ordered sequence of rows: identifiers handed out per table
//! in creation order, and every reference pointing at an earlier row.
use vstd::prelude::*;
use crate::keys::{KeyAllocator, Table};
use crate::records::Record;

verus! {

/// How many rows of table `t` the sequence holds.
pub open spec fn count_rows(rs: Seq<Record>, t: Table) -> nat
    decreases rs.len(),
{
    if rs.len() == 0 {
        0
    } else {
        count_rows(rs.drop_last(), t) + if rs.last().table() == t {
            1nat
        } else {
            0nat
        }
    }
}

/// Starting from counters `k0`, the rows `rs` took their identifiers one after
/// another per table, leaving the counters at `k`: a row's identifier is the
/// starting counter of its table plus the number of earlier rows of that table.
pub open spec fn well_keyed(k0: KeyAllocator, rs: Seq<Record>, k: KeyAllocator) -> bool {
    &&& forall|t: Table| #[trigger] k.next(t) == k0.next(t) + count_rows(rs, t)
    &&& forall|j: int|
        0 <= j < rs.len() ==> #[trigger] rs[j].id() == k0.next(rs[j].table()) + count_rows(
            rs.take(j),
            rs[j].table(),
        )
}

/// Every row that refers to another row comes after a row with that key.
pub open spec fn parents_ok(rs: Seq<Record>) -> bool {
    forall|j: int|
        0 <= j < rs.len() && (#[trigger] rs[j].parent()) is Some ==> exists|i: int|
            0 <= i < j && #[trigger] rs[i].key() == rs[j].parent()->0
}

/// Whether some row of `rs` has key `key`.
pub open spec fn has_key(rs: Seq<Record>, key: (Table, i64)) -> bool {
    exists|i: int| 0 <= i < rs.len() && #[trigger] rs[i].key() == key
}

/// Rows produced from one file in `directory`: no directory rows, and every
/// file-level row names that directory.
pub open spec fn in_directory(rs: Seq<Record>, directory: Seq<char>) -> bool {
    forall|j: int|
        0 <= j < rs.len() ==> (#[trigger] rs[j]) !is Directory && (rs[j].directory() is Some
            ==> rs[j].directory() == Some(directory))
}

/// The three properties above together: what each step of the fan-out keeps.
pub open spec fn chunk_ok(
    k0: KeyAllocator,
    rs: Seq<Record>,
    k: KeyAllocator,
    directory: Seq<char>,
) -> bool {
    &&& well_keyed(k0, rs, k)
    &&& parents_ok(rs)
    &&& in_directory(rs, directory)
}

pub proof fn lemma_bumped(k: KeyAllocator, t: Table)
    requires
        k.has_room(t),
    ensures
        forall|u: Table|
            #[trigger] k.bumped(t).next(u) as int == if u == t {
                k.next(t) + 1
            } else {
                k.next(u) as int
            },
{
}

proof fn lemma_count_push(rs: Seq<Record>, r: Record, t: Table)
    ensures
        count_rows(rs.push(r), t) == count_rows(rs, t) + if r.table() == t {
            1nat
        } else {
            0nat
        },
{
    assert(rs.push(r).drop_last() =~= rs);
}

proof fn lemma_count_append(a: Seq<Record>, b: Seq<Record>, t: Table)
    ensures
        count_rows(a + b, t) == count_rows(a, t) + count_rows(b, t),
    decreases b.len(),
{
    if b.len() == 0 {
        assert(a + b =~= a);
    } else {
        lemma_count_append(a, b.drop_last(), t);
        assert((a + b).drop_last() =~= a + b.drop_last());
    }
}

proof fn lemma_count_monotone(rs: Seq<Record>, i: int, j: int, t: Table)
    requires
        0 <= i <= j <= rs.len(),
    ensures
        count_rows(rs.take(i), t) <= count_rows(rs.take(j), t),
    decreases j - i,
{
    if i < j {
        lemma_count_monotone(rs, i, j - 1, t);
        assert(rs.take(j).drop_last() =~= rs.take(j - 1));
    }
}

/// Appending a row that takes the next identifier of its table keeps `well_keyed`.
pub proof fn lemma_keyed_push(k0: KeyAllocator, rs: Seq<Record>, k: KeyAllocator, r: Record)
    requires
        well_keyed(k0, rs, k),
        k.has_room(r.table()),
        r.id() == k.next(r.table()),
    ensures
        well_keyed(k0, rs.push(r), k.bumped(r.table())),
{
    lemma_bumped(k, r.table());
    let s = rs.push(r);
    assert forall|t: Table| #[trigger] k.bumped(r.table()).next(t) == k0.next(t) + count_rows(s, t) by {
        lemma_count_push(rs, r, t);
    }
    assert forall|j: int| 0 <= j < s.len() implies #[trigger] s[j].id() == k0.next(s[j].table())
        + count_rows(s.take(j), s[j].table()) by {
        if j < rs.len() {
            assert(s.take(j) =~= rs.take(j));
        } else {
            assert(s.take(j) =~= rs);
        }
    }
}

/// Two runs of key allocation, one after the other, form one.
pub proof fn lemma_keyed_append(
    k0: KeyAllocator,
    a: Seq<Record>,
    k1: KeyAllocator,
    b: Seq<Record>,
    k2: KeyAllocator,
)
    requires
        well_keyed(k0, a, k1),
        well_keyed(k1, b, k2),
    ensures
        well_keyed(k0, a + b, k2),
{
    let s = a + b;
    assert forall|t: Table| #[trigger] k2.next(t) == k0.next(t) + count_rows(s, t) by {
        lemma_count_append(a, b, t);
    }
    assert forall|j: int| 0 <= j < s.len() implies #[trigger] s[j].id() == k0.next(s[j].table())
        + count_rows(s.take(j), s[j].table()) by {
        if j < a.len() {
            assert(s.take(j) =~= a.take(j));
        } else {
            let jb = j - a.len();
            assert(s[j] == b[jb]);
            assert(s.take(j) =~= a + b.take(jb));
            lemma_count_append(a, b.take(jb), s[j].table());
        }
    }
}

/// Appending a row whose referenced row is already present keeps `parents_ok`.
pub proof fn lemma_parents_push(rs: Seq<Record>, r: Record)
    requires
        parents_ok(rs),
        r.parent() is Some ==> has_key(rs, r.parent()->0),
    ensures
        parents_ok(rs.push(r)),
{
    let s = rs.push(r);
    assert forall|j: int| 0 <= j < s.len() && (#[trigger] s[j].parent()) is Some implies exists|i: int|
        0 <= i < j && #[trigger] s[i].key() == s[j].parent()->0 by {
        if j < rs.len() {
            assert(s[j] == rs[j]);
            let i = choose|i: int| 0 <= i < j && #[trigger] rs[i].key() == rs[j].parent()->0;
            assert(s[i] == rs[i]);
        } else {
            let i = choose|i: int| 0 <= i < rs.len() && #[trigger] rs[i].key() == r.parent()->0;
            assert(s[i] == rs[i]);
        }
    }
}

/// Rows that each resolve their references within themselves keep doing so
/// when concatenated.
pub proof fn lemma_parents_append(a: Seq<Record>, b: Seq<Record>)
    requires
        parents_ok(a),
        parents_ok(b),
    ensures
        parents_ok(a + b),
{
    let s = a + b;
    assert forall|j: int| 0 <= j < s.len() && (#[trigger] s[j].parent()) is Some implies exists|i: int|
        0 <= i < j && #[trigger] s[i].key() == s[j].parent()->0 by {
        if j < a.len() {
            assert(s[j] == a[j]);
            let i = choose|i: int| 0 <= i < j && #[trigger] a[i].key() == a[j].parent()->0;
            assert(s[i] == a[i]);
        } else {
            let jb = j - a.len();
            assert(s[j] == b[jb]);
            let i = choose|i: int| 0 <= i < jb && #[trigger] b[i].key() == b[jb].parent()->0;
            assert(s[i + a.len()] == b[i]);
        }
    }
}

/// Appending one row keeps `chunk_ok` when it takes the next identifier of its
/// table, refers to a row already present, and belongs to the directory.
pub proof fn lemma_chunk_push(
    k0: KeyAllocator,
    rs: Seq<Record>,
    k: KeyAllocator,
    directory: Seq<char>,
    r: Record,
)
    requires
        chunk_ok(k0, rs, k, directory),
        k.has_room(r.table()),
        r.id() == k.next(r.table()),
        r.parent() is Some ==> has_key(rs, r.parent()->0),
        r !is Directory,
        r.directory() is Some ==> r.directory() == Some(directory),
    ensures
        chunk_ok(k0, rs.push(r), k.bumped(r.table()), directory),
        forall|key: (Table, i64)| has_key(rs, key) ==> has_key(rs.push(r), key),
        has_key(rs.push(r), r.key()),
{
    lemma_keyed_push(k0, rs, k, r);
    lemma_parents_push(rs, r);
    let s = rs.push(r);
    assert forall|j: int| 0 <= j < s.len() implies (#[trigger] s[j]) !is Directory && (
    s[j].directory() is Some ==> s[j].directory() == Some(directory)) by {
        if j < rs.len() {
            assert(s[j] == rs[j]);
        }
    }
    assert forall|key: (Table, i64)| has_key(rs, key) implies has_key(s, key) by {
        let i = choose|i: int| 0 <= i < rs.len() && #[trigger] rs[i].key() == key;
        assert(s[i] == rs[i]);
    }
    assert(s[rs.len() as int] == r);
}

/// Identifiers of one table strictly increase in row order, so no two rows of
/// a table share one.
pub proof fn lemma_ids_increase(k0: KeyAllocator, rs: Seq<Record>, k: KeyAllocator)
    requires
        well_keyed(k0, rs, k),
    ensures
        forall|i: int, j: int|
            0 <= i < j < rs.len() && rs[i].table() == rs[j].table() ==> #[trigger] rs[i].id()
                < #[trigger] rs[j].id(),
{
    assert forall|i: int, j: int|
        0 <= i < j < rs.len() && rs[i].table() == rs[j].table() implies #[trigger] rs[i].id()
        < #[trigger] rs[j].id() by {
        let t = rs[i].table();
        lemma_count_monotone(rs, i + 1, j, t);
        assert(rs.take(i + 1).drop_last() =~= rs.take(i));
    }
}

} // verus!
