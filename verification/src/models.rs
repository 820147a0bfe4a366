//! The entity model, the failure taxonomy, and the repository interface
//! every backend satisfies, together with the laws that hold of any
//! repository whose catalog is known.

use vstd::prelude::*;

verus! {

/// One catalog entry: a service exposed by the system.
#[derive(Debug, PartialEq, Eq)]
pub struct Service {
    pub id: u32,
    pub name: String,
    pub description: String,
    pub versions: u32,
}

impl Clone for Service {
    /// Cloning a record preserves it exactly.
    fn clone(&self) -> (res: Self)
        ensures
            res == *self,
    {
        Service {
            id: self.id,
            name: self.name.clone(),
            description: self.description.clone(),
            versions: self.versions,
        }
    }
}

/// The closed set of failures a repository may report.
#[derive(Clone, Copy, Debug, PartialEq, Eq, Structural)]
pub enum RepoError {
    /// The backend could not complete the operation.
    ServerError,
    /// The requested identifier matches no record.
    Missing,
}

/// True when no two records of the catalog share an id.
pub open spec fn distinct_ids(c: Seq<Service>) -> bool {
    forall|i: int, j: int| 0 <= i < j < c.len() ==> c[i].id != c[j].id
}

/// True when some record of the catalog carries the given id.
pub open spec fn has_id(c: Seq<Service>, id: u32) -> bool {
    exists|i: int| 0 <= i < c.len() && c[i].id == id
}

/// What a lookup over a known catalog returns: the first record carrying
/// the given id, or `Missing` when no record does.
pub open spec fn spec_service(c: Seq<Service>, id: u32) -> Result<Service, RepoError>
    decreases c.len(),
{
    if c.len() == 0 {
        Err(RepoError::Missing)
    } else if c[0].id == id {
        Ok(c[0])
    } else {
        spec_service(c.drop_first(), id)
    }
}

/// The catalog with every record dropped whose id already appeared
/// earlier: the first record of each id survives, in its original place.
pub open spec fn dedup_by_id(c: Seq<Service>) -> Seq<Service>
    decreases c.len(),
{
    if c.len() == 0 {
        Seq::empty()
    } else {
        let d = dedup_by_id(c.drop_last());
        if has_id(d, c.last().id) {
            d
        } else {
            d.push(c.last())
        }
    }
}

/// Deduplication leaves no two records sharing an id.
pub proof fn lemma_dedup_distinct(c: Seq<Service>)
    ensures
        distinct_ids(dedup_by_id(c)),
    decreases c.len(),
{
    if c.len() > 0 {
        lemma_dedup_distinct(c.drop_last());
        let d = dedup_by_id(c.drop_last());
        let x = c.last();
        if !has_id(d, x.id) {
            assert forall|i: int, j: int|
                0 <= i < j < d.push(x).len() implies d.push(x)[i].id != d.push(x)[j].id by {
                if j == d.len() {
                    assert(d.push(x)[i] == d[i]);
                    assert(!(0 <= i < d.len() && d[i].id == x.id));
                }
            }
        }
    }
}

/// Over a catalog already free of duplicate ids, deduplication is the
/// identity.
pub proof fn lemma_dedup_identity(c: Seq<Service>)
    requires
        distinct_ids(c),
    ensures
        dedup_by_id(c) == c,
    decreases c.len(),
{
    if c.len() > 0 {
        let p = c.drop_last();
        assert forall|i: int, j: int| 0 <= i < j < p.len() implies p[i].id != p[j].id by {
            assert(p[i] == c[i] && p[j] == c[j]);
        }
        lemma_dedup_identity(p);
        assert(!has_id(p, c.last().id)) by {
            if has_id(p, c.last().id) {
                let i = choose|i: int| 0 <= i < p.len() && p[i].id == c.last().id;
                assert(c[i].id == c[c.len() - 1].id);
            }
        }
        assert(p.push(c.last()) =~= c);
    }
}

/// The capability set every backend offers: list the whole catalog, or
/// fetch one record by id. Failures stay within the closed `RepoError`
/// taxonomy; backends whose catalog is statically known are pinned to it.
pub trait Repository {
    /// Whether this repository's whole catalog is statically known, as it
    /// is for the in-memory backend. A backend whose records live in an
    /// external store reports `false`.
    spec fn transparent(&self) -> bool;

    /// The known catalog; meaningful only when `transparent()` holds.
    spec fn catalog(&self) -> Seq<Service>;

    /// Lists every record of the catalog. Listing never reports `Missing`:
    /// an empty catalog is success with an empty sequence.
    fn services(&self) -> (r: Result<Vec<Service>, RepoError>)
        ensures
            (r matches Ok(v) ==> distinct_ids(v@)),
            (r matches Err(e) ==> e == RepoError::ServerError),
            self.transparent() ==> (r matches Ok(v) && v@ == self.catalog()),
    ;

    /// Fetches the record carrying `id`; `Missing` when there is none.
    fn service(&self, id: u32) -> (r: Result<Service, RepoError>)
        ensures
            (r matches Ok(s) ==> s.id == id),
            self.transparent() ==> r == spec_service(self.catalog(), id),
    ;
}

impl<T: Repository> Repository for &T {
    open spec fn transparent(&self) -> bool {
        (**self).transparent()
    }

    open spec fn catalog(&self) -> Seq<Service> {
        (**self).catalog()
    }

    fn services(&self) -> (r: Result<Vec<Service>, RepoError>) {
        (**self).services()
    }

    fn service(&self, id: u32) -> (r: Result<Service, RepoError>) {
        (**self).service(id)
    }
}

impl<T: Repository> Repository for &mut T {
    open spec fn transparent(&self) -> bool {
        (**self).transparent()
    }

    open spec fn catalog(&self) -> Seq<Service> {
        (**self).catalog()
    }

    fn services(&self) -> (r: Result<Vec<Service>, RepoError>) {
        (**self).services()
    }

    fn service(&self, id: u32) -> (r: Result<Service, RepoError>) {
        (**self).service(id)
    }
}

/// A lookup over a known catalog succeeds exactly when some record
/// carries the requested id, and then returns a record of the catalog
/// with that id; otherwise it fails with `Missing`. Over a catalog free
/// of duplicate ids, every record carrying the id is the result.
pub proof fn lemma_lookup_characterization(c: Seq<Service>, id: u32)
    ensures
        has_id(c, id) <==> spec_service(c, id) is Ok,
        !has_id(c, id) ==> spec_service(c, id) == Err::<Service, RepoError>(RepoError::Missing),
        spec_service(c, id) matches Ok(s) ==> s.id == id && c.contains(s),
        distinct_ids(c) ==> forall|i: int|
            0 <= i < c.len() && c[i].id == id ==> spec_service(c, id) == Ok::<
                Service,
                RepoError,
            >(c[i]),
    decreases c.len(),
{
    if c.len() == 0 {
    } else if c[0].id == id {
        assert(has_id(c, id));
        assert(c.contains(c[0]));
        if distinct_ids(c) {
            assert forall|i: int|
                0 <= i < c.len() && c[i].id == id implies spec_service(c, id) == Ok::<
                Service,
                RepoError,
            >(c[i]) by {
                if i != 0 {
                    assert(c[0].id != c[i].id);
                }
            }
        }
    } else {
        let d = c.drop_first();
        lemma_lookup_characterization(d, id);
        assert(has_id(c, id) <==> has_id(d, id)) by {
            if has_id(c, id) {
                let i = choose|i: int| 0 <= i < c.len() && c[i].id == id;
                assert(d[i - 1].id == id);
            }
            if has_id(d, id) {
                let i = choose|i: int| 0 <= i < d.len() && d[i].id == id;
                assert(c[i + 1].id == id);
            }
        }
        if spec_service(d, id) is Ok {
            let s = spec_service(d, id)->Ok_0;
            let i = choose|i: int| 0 <= i < d.len() && d[i] == s;
            assert(c[i + 1] == s);
            assert(c.contains(s));
        }
        if distinct_ids(c) {
            assert forall|i: int, j: int| 0 <= i < j < d.len() implies d[i].id != d[j].id by {
                assert(d[i] == c[i + 1] && d[j] == c[j + 1]);
            }
            assert forall|i: int|
                0 <= i < c.len() && c[i].id == id implies spec_service(c, id) == Ok::<
                Service,
                RepoError,
            >(c[i]) by {
                assert(i != 0);
                assert(d[i - 1] == c[i]);
            }
        }
    }
}

/// Over an empty catalog every lookup fails with `Missing`.
pub proof fn lemma_lookup_empty(id: u32)
    ensures
        spec_service(Seq::<Service>::empty(), id) == Err::<Service, RepoError>(RepoError::Missing),
{
}

/// A known catalog determines each lookup completely. Read one way: two
/// lookups of the same id with no mutation in between return equal
/// results. Read the other: a lookup through an ownership-forwarding
/// wrapper returns exactly what the direct lookup returns.
pub proof fn lemma_lookup_deterministic(
    c: Seq<Service>,
    id: u32,
    first: Result<Service, RepoError>,
    second: Result<Service, RepoError>,
)
    requires
        first == spec_service(c, id),
        second == spec_service(c, id),
    ensures
        first == second,
{
}

/// A known catalog determines each listing completely, up to the identity
/// of the returned vector: repeated listings, or listings through any
/// ownership-forwarding wrapper, hold exactly the same records.
pub proof fn lemma_listing_deterministic(
    c: Seq<Service>,
    first: Result<Vec<Service>, RepoError>,
    second: Result<Vec<Service>, RepoError>,
)
    requires
        (first matches Ok(v) && v@ == c),
        (second matches Ok(v) && v@ == c),
    ensures
        first matches Ok(a) && second matches Ok(b) && a@ == b@,
{
}

/// A shared-reference wrapper presents exactly the model of the backend
/// it forwards to, so the repository contract through the wrapper
/// coincides with the backend's own.
pub proof fn lemma_ref_wrapper_transparent<T: Repository>(r: &T)
    ensures
        <&T as Repository>::transparent(&r) == r.transparent(),
        <&T as Repository>::catalog(&r) == r.catalog(),
{
}

/// A boxed wrapper presents exactly the model of the backend it holds,
/// so the repository contract through the box coincides with the
/// backend's own.
pub proof fn lemma_box_wrapper_transparent<T: Repository>(b: &Box<T>)
    ensures
        <Box<T> as Repository>::transparent(b) == (**b).transparent(),
        <Box<T> as Repository>::catalog(b) == (**b).catalog(),
{
}

impl<T: Repository> Repository for Box<T> {
    open spec fn transparent(&self) -> bool {
        (**self).transparent()
    }

    open spec fn catalog(&self) -> Seq<Service> {
        (**self).catalog()
    }

    fn services(&self) -> (r: Result<Vec<Service>, RepoError>) {
        (**self).services()
    }

    fn service(&self, id: u32) -> (r: Result<Service, RepoError>) {
        (**self).service(id)
    }
}

} // verus!
