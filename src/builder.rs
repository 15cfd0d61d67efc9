//! A run over many files: one shared set of key counters, one directory row
//! per distinct directory, and all rows in insertion order.
use vstd::prelude::*;
use crate::document::SourceFile;
use crate::fanout::{document_rows, Rows};
use crate::keys::{KeyAllocator, Table};
use crate::records::{DirectoryRecord, Record};
use crate::rows::{
    count_rows, in_directory, lemma_ids_increase, lemma_keyed_append, lemma_keyed_push,
    lemma_parents_append, lemma_parents_push, parents_ok, well_keyed,
};
use crate::expand::process_document;

verus! {

/// The path of a directory row; empty for any other row.
pub open spec fn directory_path(r: Record) -> Seq<char> {
    match r {
        Record::Directory(d) => d.path@,
        _ => Seq::empty(),
    }
}

/// Whether `r` is the directory row of `path`.
pub open spec fn is_directory_row(r: Record, path: Seq<char>) -> bool {
    r is Directory && directory_path(r) == path
}

/// Whether `rs` holds the directory row of `path`.
pub open spec fn has_directory_row(rs: Seq<Record>, path: Seq<char>) -> bool {
    exists|i: int| 0 <= i < rs.len() && is_directory_row(#[trigger] rs[i], path)
}

/// Whether `path` is among `dirs`.
pub open spec fn listed(dirs: Seq<String>, path: Seq<char>) -> bool {
    exists|i: int| 0 <= i < dirs.len() && #[trigger] dirs[i]@ == path
}

/// No two directory rows name the same path.
pub open spec fn directories_distinct(rs: Seq<Record>) -> bool {
    forall|i: int, j: int|
        0 <= i < j < rs.len() && (#[trigger] rs[i]) is Directory && (#[trigger] rs[j]) is Directory
            ==> directory_path(rs[i]) != directory_path(rs[j])
}

/// Every file-level row comes after the directory row of its directory.
pub open spec fn files_have_directories(rs: Seq<Record>) -> bool {
    forall|j: int|
        0 <= j < rs.len() && (#[trigger] rs[j].directory()) is Some ==> exists|i: int|
            0 <= i < j && is_directory_row(#[trigger] rs[i], rs[j].directory()->0)
}

/// The rows one file adds to a run that holds `rs` with counters `k`: a new
/// directory row first if its directory has none yet, then the document's
/// rows. `None` where the file adds nothing: it was not parsed, its document
/// yields no rows, or a table has run out of identifiers.
pub open spec fn file_rows(rs: Seq<Record>, k: KeyAllocator, file: SourceFile) -> Rows {
    match file.document {
        None => None,
        Some(doc) => if has_directory_row(rs, file.directory@) {
            match document_rows(doc, file.directory, file.file_name, k) {
                Some((new, k2)) => if new.len() > 0 {
                    Some((new, k2))
                } else {
                    None
                },
                None => None,
            }
        } else if k.has_room(Table::Directory) {
            let d = Record::Directory(
                DirectoryRecord { id: k.next(Table::Directory), path: file.directory },
            );
            match document_rows(doc, file.directory, file.file_name, k.bumped(Table::Directory)) {
                Some((new, k2)) => if new.len() > 0 {
                    Some((seq![d] + new, k2))
                } else {
                    None
                },
                None => None,
            }
        } else {
            None
        },
    }
}

/// The rows and counters of a run after `file`, starting from `rs` and `k`.
pub open spec fn after_file(rs: Seq<Record>, k: KeyAllocator, file: SourceFile) -> (
    Seq<Record>,
    KeyAllocator,
) {
    match file_rows(rs, k, file) {
        Some((new, k2)) => (rs + new, k2),
        None => (rs, k),
    }
}

/// The rows and counters of a run over `files`, in order, from fresh counters.
pub open spec fn run_rows(files: Seq<SourceFile>) -> (Seq<Record>, KeyAllocator)
    decreases files.len(),
{
    if files.len() == 0 {
        (Seq::empty(), KeyAllocator::zero())
    } else {
        let (rs, k) = run_rows(files.drop_last());
        after_file(rs, k, files.last())
    }
}

/// The state of a run: key counters, the directories seen so far, and every
/// row created so far.
pub struct RecordBuilder {
    keys: KeyAllocator,
    directories: Vec<String>,
    records: Vec<Record>,
}

impl RecordBuilder {
    /// The rows created so far, in insertion order.
    pub closed spec fn rows(self) -> Seq<Record> {
        self.records@
    }

    /// The counters after the rows created so far.
    pub closed spec fn counters(self) -> KeyAllocator {
        self.keys
    }

    /// The invariant of a run.
    pub closed spec fn wf(self) -> bool {
        &&& well_keyed(KeyAllocator::zero(), self.records@, self.keys)
        &&& parents_ok(self.records@)
        &&& directories_distinct(self.records@)
        &&& files_have_directories(self.records@)
        &&& forall|p: Seq<char>| #[trigger]
            listed(self.directories@, p) == has_directory_row(self.records@, p)
    }

    /// An empty run with fresh counters.
    pub fn new() -> (b: RecordBuilder)
        ensures
            b.wf(),
            b.rows() == Seq::<Record>::empty(),
            b.counters() == KeyAllocator::zero(),
    {
        let b = RecordBuilder {
            keys: KeyAllocator::new(),
            directories: Vec::new(),
            records: Vec::new(),
        };
        b
    }

    /// Adds the rows of one file, in discovery order.
    pub fn add_file(&mut self, file: &SourceFile)
        requires
            old(self).wf(),
        ensures
            final(self).wf(),
            (final(self).rows(), final(self).counters()) == after_file(
                old(self).rows(),
                old(self).counters(),
                *file,
            ),
            file.document is None ==> final(self).rows() == old(self).rows(),
    {
        let doc = match &file.document {
            Some(d) => d,
            None => {
                return;
            },
        };
        let seen = find_directory(&self.directories, &file.directory);
        let ghost rs = self.records@;
        let ghost k0 = self.keys;
        let ghost path = file.directory@;
        assert(listed(self.directories@, path) == has_directory_row(rs, path));
        let mut k = self.keys;
        let mut added: Vec<Record> = Vec::new();
        let ghost mut d = Record::Directory(DirectoryRecord { id: 0, path: file.directory });
        if !seen {
            if k.peek(Table::Directory) == i64::MAX {
                return;
            }
            let (_, rec) = DirectoryRecord::create_record(&mut k, file.directory.clone());
            proof {
                d = Record::Directory(rec);
                assert(well_keyed(k0, added@, k0));
                lemma_keyed_push(k0, added@, k0, d);
                lemma_parents_push(added@, d);
            }
            added.push(Record::Directory(rec));
        }
        proof {
            if seen {
                assert(well_keyed(k0, added@, k0));
            }
        }
        let ghost kd = k;
        let ghost a0 = added@;
        let rows = process_document(&mut k, doc, file.directory.clone(), file.file_name.clone());
        let mut v = match rows {
            Some(v) => v,
            None => {
                return;
            },
        };
        if v.len() == 0 {
            return;
        }
        let ghost vs = v@;
        proof {
            lemma_keyed_append(k0, a0, kd, vs, k);
            lemma_parents_append(a0, vs);
        }
        added.append(&mut v);
        let ghost new = added@;
        proof {
            assert(new == a0 + vs);
            if !seen {
                assert(a0 =~= seq![d]);
            } else {
                assert(a0 =~= Seq::<Record>::empty());
                assert(new =~= vs);
            }
            lemma_keyed_append(KeyAllocator::zero(), rs, k0, new, k);
            lemma_parents_append(rs, new);
            let nd = if seen {
                self.directories@
            } else {
                self.directories@.push(file.directory)
            };
            lemma_directories_extend(rs, self.directories@, new, vs, file.directory, seen, d, nd);
        }
        self.records.append(&mut added);
        if !seen {
            self.directories.push(file.directory.clone());
        }
        self.keys = k;
        proof {
            if !seen {
                assert(self.directories@ == old(self).directories@.push(file.directory));
            }
        }
    }

    /// The rows created so far, in insertion order.
    pub fn into_records(self) -> (r: Vec<Record>)
        ensures
            r@ == self.rows(),
    {
        self.records
    }
}

/// Whether `path` is among `dirs`.
fn find_directory(dirs: &Vec<String>, path: &String) -> (found: bool)
    ensures
        found == listed(dirs@, path@),
{
    let mut i: usize = 0;
    while i < dirs.len()
        invariant
            i <= dirs.len(),
            forall|j: int| 0 <= j < i ==> dirs@[j]@ != path@,
        decreases dirs.len() - i,
    {
        if dirs[i] == *path {
            return true;
        }
        i = i + 1;
    }
    false
}

/// The directory bookkeeping of a run is kept when a file adds `new`: its own
/// directory row `d` first if its directory `path` had none (`seen` false),
/// then rows `v` of that directory that hold no directory row.
proof fn lemma_directories_extend(
    rs: Seq<Record>,
    dirs: Seq<String>,
    new: Seq<Record>,
    v: Seq<Record>,
    path: String,
    seen: bool,
    d: Record,
    nd: Seq<String>,
)
    requires
        nd == if seen {
            dirs
        } else {
            dirs.push(path)
        },
        directories_distinct(rs),
        files_have_directories(rs),
        forall|p: Seq<char>| #[trigger] listed(dirs, p) == has_directory_row(rs, p),
        in_directory(v, path@),
        seen == has_directory_row(rs, path@),
        seen ==> new == v,
        !seen ==> new == seq![d] + v && is_directory_row(d, path@) && d.directory() is None,
    ensures
        directories_distinct(rs + new),
        files_have_directories(rs + new),
        forall|p: Seq<char>| #[trigger] listed(nd, p) == has_directory_row(rs + new, p),
{
    let s = rs + new;
    let off: int = if seen { 0 } else { 1 };
    assert forall|j: int| 0 <= j < new.len() && j >= off implies (#[trigger] new[j]) == v[j - off]
        && new[j] !is Directory by {
        assert(v[j - off] !is Directory);
    }
    assert forall|i: int, j: int|
        0 <= i < j < s.len() && (#[trigger] s[i]) is Directory && (#[trigger] s[j]) is Directory
            implies directory_path(s[i]) != directory_path(s[j]) by {
        if j >= rs.len() {
            assert(s[j] == new[j - rs.len()]);
            assert(!seen && j == rs.len());
            assert(s[i] == rs[i]);
            assert(!is_directory_row(rs[i], path@));
        } else {
            assert(s[i] == rs[i] && s[j] == rs[j]);
        }
    }
    assert forall|j: int| 0 <= j < s.len() && (#[trigger] s[j].directory()) is Some implies exists|i: int|
        0 <= i < j && is_directory_row(#[trigger] s[i], s[j].directory()->0) by {
        if j < rs.len() {
            assert(s[j] == rs[j]);
            let i = choose|i: int| 0 <= i < j && is_directory_row(#[trigger] rs[i], rs[j].directory()->0);
            assert(s[i] == rs[i]);
        } else {
            let jn = j - rs.len();
            assert(s[j] == new[jn]);
            if seen {
                assert(new[jn] == v[jn]);
                assert(v[jn].directory() == Some(path@));
                let i = choose|i: int| 0 <= i < rs.len() && is_directory_row(#[trigger] rs[i], path@);
                assert(s[i] == rs[i]);
            } else {
                assert(jn >= 1);
                assert(new[jn] == v[jn - 1]);
                assert(v[jn - 1].directory() == Some(path@));
                assert(s[rs.len() as int] == d);
            }
        }
    }
    assert forall|p: Seq<char>| #[trigger] listed(nd, p) == has_directory_row(s, p) by {
        if has_directory_row(s, p) {
            let i = choose|i: int| 0 <= i < s.len() && is_directory_row(#[trigger] s[i], p);
            if i < rs.len() {
                assert(s[i] == rs[i]);
                assert(has_directory_row(rs, p));
                assert(listed(dirs, p));
                let x = choose|x: int| 0 <= x < dirs.len() && #[trigger] dirs[x]@ == p;
                assert(nd[x] == dirs[x]);
            } else {
                assert(s[i] == new[i - rs.len()]);
                assert(!seen && i == rs.len());
                assert(nd[dirs.len() as int] == path);
            }
        }
        if listed(nd, p) {
            let x = choose|x: int| 0 <= x < nd.len() && #[trigger] nd[x]@ == p;
            if x < dirs.len() {
                assert(nd[x] == dirs[x]);
                assert(listed(dirs, p));
                let i = choose|i: int| 0 <= i < rs.len() && is_directory_row(#[trigger] rs[i], p);
                assert(s[i] == rs[i]);
            } else {
                assert(!seen && p == path@);
                assert(s[rs.len() as int] == d);
            }
        }
    }
}

/// The rows of a run over `files`, in discovery order, from fresh counters.
pub fn build_records(files: &Vec<SourceFile>) -> (r: Vec<Record>)
    ensures
        r@ == run_rows(files@).0,
        well_keyed(KeyAllocator::zero(), r@, run_rows(files@).1),
        parents_ok(r@),
        directories_distinct(r@),
        files_have_directories(r@),
{
    let mut b = RecordBuilder::new();
    let mut i: usize = 0;
    while i < files.len()
        invariant
            i <= files.len(),
            b.wf(),
            (b.rows(), b.counters()) == run_rows(files@.take(i as int)),
        decreases files.len() - i,
    {
        proof {
            assert(files@.take(i + 1).drop_last() =~= files@.take(i as int));
        }
        b.add_file(&files[i]);
        i = i + 1;
    }
    proof {
        assert(files@.take(i as int) =~= files@);
    }
    let ghost k = b.keys;
    let r = b.into_records();
    assert(k == run_rows(files@).1);
    r
}

/// A file that could not be parsed adds no row to a run and leaves its
/// counters as they were.
pub proof fn lemma_unparsed_file_adds_nothing(files: Seq<SourceFile>, file: SourceFile)
    requires
        file.document is None,
    ensures
        run_rows(files.push(file)) == run_rows(files),
{
    assert(files.push(file).drop_last() =~= files);
}

/// Within one table no two rows of a run share an identifier: identifiers
/// strictly increase in creation order.
pub proof fn lemma_ids_unique(b: RecordBuilder)
    requires
        b.wf(),
    ensures
        forall|i: int, j: int|
            0 <= i < j < b.rows().len() && b.rows()[i].table() == b.rows()[j].table()
                ==> #[trigger] b.rows()[i].id() < #[trigger] b.rows()[j].id(),
{
    lemma_ids_increase(KeyAllocator::zero(), b.records@, b.keys);
}

/// Each row's identifier is the number of earlier rows of its table: keys
/// start at zero and are neither reused nor skipped.
pub proof fn lemma_ids_consecutive(b: RecordBuilder)
    requires
        b.wf(),
    ensures
        forall|j: int|
            0 <= j < b.rows().len() ==> #[trigger] b.rows()[j].id() == count_rows(
                b.rows().take(j),
                b.rows()[j].table(),
            ),
        forall|t: Table| #[trigger] b.counters().next(t) == count_rows(b.rows(), t),
{
}

/// All file-level rows of one directory name it, and the run holds exactly one
/// directory row for it, placed before them.
pub proof fn lemma_one_directory_row(b: RecordBuilder)
    requires
        b.wf(),
    ensures
        forall|j: int|
            0 <= j < b.rows().len() && (#[trigger] b.rows()[j].directory()) is Some ==> exists|i: int|
                0 <= i < j && is_directory_row(#[trigger] b.rows()[i], b.rows()[j].directory()->0),
        forall|i1: int, i2: int, p: Seq<char>|
            0 <= i1 < b.rows().len() && 0 <= i2 < b.rows().len() && #[trigger] is_directory_row(
                b.rows()[i1],
                p,
            ) && #[trigger] is_directory_row(b.rows()[i2], p) ==> i1 == i2,
{
    let rs = b.records@;
    assert forall|i1: int, i2: int, p: Seq<char>|
        0 <= i1 < rs.len() && 0 <= i2 < rs.len() && #[trigger] is_directory_row(rs[i1], p)
            && #[trigger] is_directory_row(rs[i2], p) implies i1 == i2 by {
        if i1 < i2 {
            assert(directory_path(rs[i1]) != directory_path(rs[i2]));
        } else if i2 < i1 {
            assert(directory_path(rs[i2]) != directory_path(rs[i1]));
        }
    }
}

/// Every material attribute row refers to a material row created before it.
pub proof fn lemma_attribute_after_material(b: RecordBuilder)
    requires
        b.wf(),
    ensures
        forall|j: int|
            0 <= j < b.rows().len() && (#[trigger] b.rows()[j]).is_material_attribute() ==> exists|i: int|
                0 <= i < j && (#[trigger] b.rows()[i]) is Material && b.rows()[i].id()
                    == (b.rows()[j].parent()->0).1,
{
    let rs = b.records@;
    assert forall|j: int| 0 <= j < rs.len() && (#[trigger] rs[j]).is_material_attribute() implies exists|i: int|
        0 <= i < j && (#[trigger] rs[i]) is Material && rs[i].id() == (rs[j].parent()->0).1 by {
        assert(rs[j].parent() is Some);
        let i = choose|i: int| 0 <= i < j && #[trigger] rs[i].key() == rs[j].parent()->0;
        assert(rs[i].table() == Table::Material);
        assert(rs[i] is Material);
    }
}

} // verus!
