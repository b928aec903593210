//! The handler registry: a hash-keyed table from stable native identifiers
//! to handlers, built once from the identifier remap by consulting an
//! external registration source, and queried on every dispatch.

use fnv::FnvHasher;
use std::collections::HashMap;
use std::hash::BuildHasherDefault;
use vstd::prelude::*;

verus! {

/// fnv's hasher type, `fnv::FnvHasher`. Declared so that the registry can
/// hold a map keyed with it; the hasher itself stays opaque.
#[verifier::external_type_specification]
#[verifier::external_body]
pub struct ExFnvHasher(FnvHasher);

/// `std::hash::BuildHasherDefault`, the std adapter that builds a default
/// hasher; with `FnvHasher` it is fnv's `FnvBuildHasher`.
#[verifier::external_type_specification]
#[verifier::external_body]
#[verifier::reject_recursive_types(H)]
pub struct ExBuildHasherDefault<H>(BuildHasherDefault<H>);

/// The view of a registry with nothing registered.
pub open spec fn empty_registry_view<H>() -> Map<u64, H> {
    Map::empty()
}

/// The registry's table type: a std `HashMap` hashed by fnv.
pub type FnvTable<H> = HashMap<u64, H, BuildHasherDefault<FnvHasher>>;

/// Relies on `HashMap::default` (with fnv's build hasher): a fresh map is
/// empty.
#[verifier::external_body]
fn fnv_map_new<H>() -> (m: FnvTable<H>)
    ensures
        m@ == empty_registry_view::<H>(),
{
    fnv::FnvHashMap::default()
}

/// Relies on `HashMap::insert`: the mapping for `k` becomes `v` and every
/// other mapping is kept. `u64` keys hash consistently under fnv's
/// deterministic `FnvHasher`, so the map behaves as documented.
#[verifier::external_body]
fn fnv_map_insert<H>(m: &mut FnvTable<H>, k: u64, v: H)
    ensures
        final(m)@ == old(m)@.insert(k, v),
{
    m.insert(k, v);
}

/// Relies on `HashMap::get`: returns a reference to the value stored for
/// `k` exactly when the map contains `k`.
#[verifier::external_body]
fn fnv_map_get<'a, H>(m: &'a FnvTable<H>, k: u64) -> (r: Option<&'a H>)
    ensures
        match r {
            Some(h) => m@.contains_key(k) && *h == m@[k],
            None => !m@.contains_key(k),
        },
{
    m.get(&k)
}

/// Relies on `HashMap::len`: the number of stored mappings.
#[verifier::external_body]
fn fnv_map_len<H>(m: &FnvTable<H>) -> (n: usize)
    ensures
        n == m@.len(),
{
    m.len()
}

/// The external runtime's registration table, as this core sees it: asked
/// once per remap entry, during registry construction, to resolve a
/// version-specific runtime identifier to a handler.
pub trait RegistrationSource<H> {
    /// Which handler, if any, this source resolves a runtime identifier to.
    spec fn resolves(&self, runtime_identifier: u64) -> Option<H>;

    /// Resolves a runtime identifier to its handler, or to nothing when the
    /// runtime version does not expose that native.
    fn get_native_handler(&self, runtime_identifier: u64) -> (r: Option<H>)
        ensures
            r == self.resolves(runtime_identifier),
    ;
}

/// The handler of the first row whose runtime identifier matches, or
/// nothing when no row matches.
pub open spec fn first_resolution<H>(rows: Seq<(u64, H)>, runtime_identifier: u64) -> Option<H>
    decreases rows.len(),
{
    if rows.len() == 0 {
        None
    } else if rows[0].0 == runtime_identifier {
        Some(rows[0].1)
    } else {
        first_resolution(rows.skip(1), runtime_identifier)
    }
}

/// A prefix of rows none of which matches does not change what resolves:
/// the first match in the whole table is the first match past the prefix.
proof fn lemma_first_resolution_unmatched_prefix<H>(
    rows: Seq<(u64, H)>,
    runtime_identifier: u64,
    i: int,
)
    requires
        0 <= i <= rows.len(),
        forall|k: int| 0 <= k < i ==> rows[k].0 != runtime_identifier,
    ensures
        first_resolution(rows.skip(i), runtime_identifier) == first_resolution(
            rows,
            runtime_identifier,
        ),
    decreases i,
{
    if i > 0 {
        assert forall|k: int| 0 <= k < i - 1 implies rows.skip(1)[k].0 != runtime_identifier by {
            assert(rows.skip(1)[k] == rows[k + 1]);
        }
        lemma_first_resolution_unmatched_prefix(rows.skip(1), runtime_identifier, i - 1);
        assert(rows.skip(1).skip(i - 1) =~= rows.skip(i));
    } else {
        assert(rows.skip(0) =~= rows);
    }
}

/// A registration source backed by a plain table of rows, each a runtime
/// identifier with its handler; a runtime identifier resolves to the handler
/// of its first matching row.
pub struct RegistrationTable<H> {
    pub rows: Vec<(u64, H)>,
}

impl<H: Copy> RegistrationSource<H> for RegistrationTable<H> {
    open spec fn resolves(&self, runtime_identifier: u64) -> Option<H> {
        first_resolution(self.rows@, runtime_identifier)
    }

    fn get_native_handler(&self, runtime_identifier: u64) -> (r: Option<H>) {
        let mut i: usize = 0;
        while i < self.rows.len()
            invariant
                i <= self.rows@.len(),
                forall|k: int| 0 <= k < i ==> self.rows@[k].0 != runtime_identifier,
            decreases self.rows@.len() - i,
        {
            let (id, handler) = self.rows[i];
            if id == runtime_identifier {
                proof {
                    lemma_first_resolution_unmatched_prefix(
                        self.rows@,
                        runtime_identifier,
                        i as int,
                    );
                    assert(self.rows@.skip(i as int)[0] == self.rows@[i as int]);
                }
                return Some(handler);
            }
            i = i + 1;
        }
        proof {
            lemma_first_resolution_unmatched_prefix(
                self.rows@,
                runtime_identifier,
                self.rows@.len() as int,
            );
            assert(self.rows@.skip(self.rows@.len() as int).len() == 0);
        }
        None
    }
}

/// The registry holds exactly the remap entries whose runtime identifier the
/// source resolves, each stable identifier mapped to its resolved handler.
pub open spec fn built_from<H, R: RegistrationSource<H>>(
    remap: Seq<(u64, u64)>,
    source: R,
    m: Map<u64, H>,
) -> bool {
    &&& forall|s: u64|
        m.contains_key(s) <==> exists|i: int|
            0 <= i < remap.len() && (#[trigger] remap[i]).0 == s && source.resolves(
                remap[i].1,
            ) is Some
    &&& forall|i: int|
        0 <= i < remap.len() && source.resolves((#[trigger] remap[i]).1) is Some ==> m.contains_key(
            remap[i].0,
        ) && m[remap[i].0] == source.resolves(remap[i].1)->0
}

/// The handler registry: stable native identifier to handler, backed by a
/// hash map keyed on the identifier's raw bits with fnv's low-collision
/// hasher, so a lookup is a constant-time hash probe on average.
pub struct NativeRegistry<H> {
    table: FnvTable<H>,
}

impl<H> View for NativeRegistry<H> {
    type V = Map<u64, H>;

    closed spec fn view(&self) -> Map<u64, H> {
        self.table@
    }
}

impl<H> NativeRegistry<H> {
    /// An empty registry.
    pub fn new() -> (r: Self)
        ensures
            r@ == empty_registry_view::<H>(),
    {
        NativeRegistry { table: fnv_map_new() }
    }

    /// Looks up the handler registered for a stable identifier. A miss is a
    /// normal, reportable condition, not an error.
    pub fn get_native_handler(&self, hash: u64) -> (r: Option<&H>)
        ensures
            match r {
                Some(h) => self@.contains_key(hash) && *h == self@[hash],
                None => !self@.contains_key(hash),
            },
    {
        fnv_map_get(&self.table, hash)
    }

    /// Inserts or overwrites the handler for one stable identifier; the last
    /// write wins.
    pub fn set_native_handler(&mut self, hash: u64, handler: H)
        ensures
            final(self)@ == old(self)@.insert(hash, handler),
    {
        fnv_map_insert(&mut self.table, hash, handler);
    }

    /// The number of registered handlers.
    pub fn len(&self) -> (n: usize)
        ensures
            n == self@.len(),
    {
        fnv_map_len(&self.table)
    }

    /// Builds the registry from the identifier remap: for every
    /// (stable, runtime) pair, the registration source is asked to resolve
    /// the runtime identifier; on success `stable -> handler` is registered.
    /// Entries that fail to resolve are skipped — the runtime version may
    /// not expose that native, which is expected, not an error. The remap
    /// has no duplicate stable keys.
    pub fn build_from_remap<R: RegistrationSource<H>>(remap: &[(u64, u64)], source: &R) -> (r: Self)
        requires
            forall|i: int, j: int| 0 <= i < j < remap@.len() ==> remap@[i].0 != remap@[j].0,
        ensures
            built_from(remap@, *source, r@),
    {
        let mut r = Self::new();
        let mut i: usize = 0;
        while i < remap.len()
            invariant
                i <= remap@.len(),
                forall|a: int, b: int| 0 <= a < b < remap@.len() ==> remap@[a].0 != remap@[b].0,
                forall|s: u64|
                    r@.contains_key(s) <==> exists|k: int|
                        0 <= k < i && (#[trigger] remap@[k]).0 == s && source.resolves(
                            remap@[k].1,
                        ) is Some,
                forall|k: int|
                    0 <= k < i && source.resolves((#[trigger] remap@[k]).1) is Some
                        ==> r@.contains_key(remap@[k].0) && r@[remap@[k].0] == source.resolves(
                        remap@[k].1,
                    )->0,
            decreases remap@.len() - i,
        {
            let (stable, runtime) = remap[i];
            match source.get_native_handler(runtime) {
                Some(handler) => {
                    r.set_native_handler(stable, handler);
                },
                None => {},
            }
            i = i + 1;
        }
        r
    }
}

/// Law: after a registry build, every remap entry whose runtime identifier
/// the registration source resolves is registered under its stable
/// identifier, with the resolved handler.
pub proof fn lemma_resolved_remap_entry_registered<H, R: RegistrationSource<H>>(
    remap: Seq<(u64, u64)>,
    source: R,
    m: Map<u64, H>,
    i: int,
)
    requires
        built_from(remap, source, m),
        0 <= i < remap.len(),
        source.resolves(remap[i].1) is Some,
    ensures
        m.contains_key(remap[i].0),
        m[remap[i].0] == source.resolves(remap[i].1)->0,
{
}

/// Law: after a registry build, a stable identifier that the remap does not
/// mention is not registered, so a lookup of it returns nothing.
pub proof fn lemma_unmapped_identifier_not_registered<H, R: RegistrationSource<H>>(
    remap: Seq<(u64, u64)>,
    source: R,
    m: Map<u64, H>,
    s: u64,
)
    requires
        built_from(remap, source, m),
        forall|i: int| 0 <= i < remap.len() ==> (#[trigger] remap[i]).0 != s,
    ensures
        !m.contains_key(s),
{
}

} // verus!
