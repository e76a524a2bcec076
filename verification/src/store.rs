use crate::model::{InsertOutcome, Row, Url};
use vstd::prelude::*;

verus! {

/// Pairwise distinctness of the identifiers of a row sequence: the
/// datastore's uniqueness constraint on the primary key.
pub open spec fn distinct_ids(rows: Seq<Url>) -> bool {
    forall|k1: int, k2: int|
        0 <= k1 < rows.len() && 0 <= k2 < rows.len() && k1 != k2
            ==> (#[trigger] rows[k1].id@) != (#[trigger] rows[k2].id@)
}

/// The abstract content of a row sequence: the finite map from each
/// short identifier to its row.
pub open spec fn map_of(rows: Seq<Url>) -> Map<Seq<char>, Row>
    decreases rows.len(),
{
    if rows.len() == 0 {
        Map::empty()
    } else {
        map_of(rows.drop_last()).insert(rows.last().id@, rows.last()@)
    }
}

/// In-memory model of the persistence gateway's datastore: the single
/// table of short-link rows, keyed by the short identifier.  The
/// hosting program may put a relational engine in its place; this
/// store is the authority the library's proofs and tests run against.
pub struct Store {
    rows: Vec<Url>,
}

impl View for Store {
    type V = Map<Seq<char>, Row>;

    closed spec fn view(&self) -> Map<Seq<char>, Row> {
        map_of(self.rows@)
    }
}

proof fn lemma_map_dom(rows: Seq<Url>, id: Seq<char>)
    ensures
        map_of(rows).dom().contains(id) <==> exists|k: int|
            0 <= k < rows.len() && (#[trigger] rows[k].id@) == id,
    decreases rows.len(),
{
    if rows.len() > 0 {
        let sub = rows.drop_last();
        lemma_map_dom(sub, id);
        if map_of(rows).dom().contains(id) {
            if rows.last().id@ == id {
                assert(rows[rows.len() - 1].id@ == id);
            } else {
                let k = choose|k: int| 0 <= k < sub.len() && (#[trigger] sub[k].id@) == id;
                assert(rows[k].id@ == id);
            }
        }
        if exists|k: int| 0 <= k < rows.len() && (#[trigger] rows[k].id@) == id {
            let k = choose|k: int| 0 <= k < rows.len() && (#[trigger] rows[k].id@) == id;
            if k < rows.len() - 1 {
                assert(sub[k].id@ == id);
            }
        }
    }
}

proof fn lemma_map_at(rows: Seq<Url>, k: int)
    requires
        distinct_ids(rows),
        0 <= k < rows.len(),
    ensures
        map_of(rows).dom().contains(rows[k].id@),
        map_of(rows)[rows[k].id@] == rows[k]@,
    decreases rows.len(),
{
    if k < rows.len() - 1 {
        let sub = rows.drop_last();
        assert(distinct_ids(sub));
        lemma_map_at(sub, k);
        assert(rows.last().id@ != rows[k].id@);
    }
}

impl Store {
    /// The store's invariant: no two rows share an identifier.
    pub closed spec fn inv(self) -> bool {
        distinct_ids(self.rows@)
    }

    /// An empty datastore.
    pub fn new() -> (s: Store)
        ensures
            s.inv(),
            s@ == Map::<Seq<char>, Row>::empty(),
    {
        Store { rows: Vec::new() }
    }

    /// Looks a row up by its identifier: the row if one exists, and
    /// `None` exactly when the identifier was never inserted.
    pub fn lookup(&self, id: &String) -> (r: Option<Url>)
        requires
            self.inv(),
        ensures
            match r {
                Some(u) => self@.dom().contains(id@) && u@ == self@[id@],
                None => !self@.dom().contains(id@),
            },
    {
        let n: usize = self.rows.len();
        let mut i: usize = 0;
        while i < n
            invariant
                n == self.rows@.len(),
                i <= n,
                self.inv(),
                forall|k: int| 0 <= k < i ==> (#[trigger] self.rows@[k].id@) != id@,
            decreases n - i,
        {
            if self.rows[i].id == *id {
                let u = Url {
                    id: self.rows[i].id.clone(),
                    long_url: self.rows[i].long_url.clone(),
                    created_at: self.rows[i].created_at,
                };
                proof {
                    lemma_map_at(self.rows@, i as int);
                }
                return Some(u);
            }
            i = i + 1;
        }
        proof {
            lemma_map_dom(self.rows@, id@);
        }
        None
    }

    /// Attempts to create a row with the given identifier, long URL
    /// and timestamp.  Returns the fully populated row on success, and
    /// `Conflict` exactly when the identifier already exists, leaving
    /// the store unchanged.  The in-memory store has no infrastructure
    /// to fail: it never returns `Failure`.
    pub fn insert(&mut self, id: String, long_url: String, now: i64) -> (r: InsertOutcome)
        requires
            old(self).inv(),
        ensures
            final(self).inv(),
            match r {
                InsertOutcome::Conflict => old(self)@.dom().contains(id@) && final(self)@
                    == old(self)@,
                InsertOutcome::Inserted(u) => !old(self)@.dom().contains(id@) && u@.id == id@
                    && u@.long_url == long_url@ && u@.created_at == now as int && final(self)@
                    == old(self)@.insert(id@, u@),
                InsertOutcome::Failure => false,
            },
    {
        match self.lookup(&id) {
            Some(_) => InsertOutcome::Conflict,
            None => {
                let u = Url {
                    id: id.clone(),
                    long_url: long_url.clone(),
                    created_at: now,
                };
                let keep = Url { id, long_url, created_at: now };
                let ghost old_rows = self.rows@;
                proof {
                    lemma_map_dom(old_rows, keep.id@);
                }
                self.rows.push(keep);
                proof {
                    assert(self.rows@.drop_last() =~= old_rows);
                    assert(self.rows@.last() == keep);
                    assert forall|k1: int, k2: int|
                        0 <= k1 < self.rows@.len() && 0 <= k2 < self.rows@.len() && k1 != k2
                            implies (#[trigger] self.rows@[k1].id@) != (#[trigger] self
                        .rows@[k2].id@) by {
                        if k1 == old_rows.len() {
                            assert(self.rows@[k2].id@ == old_rows[k2].id@);
                        } else if k2 == old_rows.len() {
                            assert(self.rows@[k1].id@ == old_rows[k1].id@);
                        } else {
                            assert(self.rows@[k1] == old_rows[k1]);
                            assert(self.rows@[k2] == old_rows[k2]);
                        }
                    }
                }
                InsertOutcome::Inserted(u)
            },
        }
    }
}

} // verus!
