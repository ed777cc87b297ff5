//! The asset registry: allocation of non-native asset ids and the per-asset
//! metadata they carry.

use vstd::prelude::*;

use crate::config::AssetId;
use crate::config::Balance;
use crate::errors::RegistryError;

verus! {

/// Per-asset metadata, owned by the registry and changed only through its
/// administrative operations, never by transfer logic.
#[derive(Clone, Debug)]
pub struct AssetMetadata {
    pub name: Vec<u8>,
    pub symbol: Vec<u8>,
    pub decimals: u8,
    /// The least balance an account of this asset may hold and still exist.
    pub min_balance: Balance,
    /// A frozen asset accepts no deposits, withdrawals or transfers.
    pub is_frozen: bool,
    /// Whether holding the asset alone suffices for the account to exist.
    pub is_sufficient: bool,
}

/// One registry record: an asset id bound to its metadata at some point of
/// the registry's history. The latest record of an id is authoritative.
#[derive(Clone, Debug)]
pub struct RegistryRecord {
    pub id: AssetId,
    pub metadata: AssetMetadata,
}

/// The latest metadata recorded for `id`, or `None` while no record of
/// `id` stands in the journal.
pub open spec fn journal_lookup(s: Seq<RegistryRecord>, id: AssetId) -> Option<AssetMetadata>
    decreases s.len(),
{
    if s.len() == 0 {
        None
    } else if s.last().id == id {
        Some(s.last().metadata)
    } else {
        journal_lookup(s.drop_last(), id)
    }
}

/// An id the journal answers for has a record in the journal.
proof fn lemma_journal_lookup_some_implies_present(s: Seq<RegistryRecord>, id: AssetId)
    requires
        journal_lookup(s, id) is Some,
    ensures
        exists|k: int| 0 <= k < s.len() && #[trigger] s[k].id == id,
    decreases s.len(),
{
    if s.last().id == id {
        assert(s[s.len() - 1].id == id);
    } else {
        lemma_journal_lookup_some_implies_present(s.drop_last(), id);
        let k = choose|k: int| 0 <= k < s.drop_last().len() && #[trigger] s.drop_last()[k].id == id;
        assert(s[k].id == id);
    }
}

/// Allocates non-native asset ids and keeps each registered asset's
/// metadata. Registration always allocates a fresh id at or above the
/// configured start of the non-native range; metadata of a registered
/// asset can be replaced, and the latest record wins.
pub struct MantaAssetRegistrar {
    /// The least id this registry may allocate.
    start: AssetId,
    /// The id the next registration receives.
    next: AssetId,
    /// Append-only journal of registrations and metadata updates.
    records: Vec<RegistryRecord>,
}

impl MantaAssetRegistrar {
    /// Every recorded id was allocated: it lies in `[start, next)`.
    pub open spec fn wf(self) -> bool {
        &&& self.start_spec() <= self.next_spec()
        &&& forall|k: int|
            0 <= k < self.records_spec().len() ==> self.start_spec()
                <= #[trigger] self.records_spec()[k].id < self.next_spec()
    }

    pub closed spec fn start_spec(self) -> AssetId {
        self.start
    }

    pub closed spec fn next_spec(self) -> AssetId {
        self.next
    }

    pub closed spec fn records_spec(self) -> Seq<RegistryRecord> {
        self.records@
    }

    /// The metadata the registry currently holds for `id`.
    pub open spec fn metadata_spec(self, id: AssetId) -> Option<AssetMetadata> {
        journal_lookup(self.records_spec(), id)
    }

    /// Whether `id` has been registered.
    pub open spec fn registered(self, id: AssetId) -> bool {
        self.metadata_spec(id) is Some
    }

    pub fn new(start: AssetId) -> (r: Self)
        ensures
            r.wf(),
            r.start_spec() == start,
            r.next_spec() == start,
            forall|id: AssetId| !r.registered(id),
    {
        MantaAssetRegistrar { start, next: start, records: Vec::new() }
    }

    /// The id the next registration will receive.
    pub fn next_asset_id(&self) -> (r: AssetId)
        ensures
            r == self.next_spec(),
    {
        self.next
    }

    /// Registers a new asset under the next free id. An administrative
    /// operation: the host gates it to its privileged origin. Every call
    /// allocates a fresh id: re-registration of the same logical asset is
    /// a caller error, not a protected condition.
    pub fn register(&mut self, metadata: AssetMetadata) -> (id: AssetId)
        requires
            old(self).wf(),
            old(self).next_spec() < AssetId::MAX,
        ensures
            final(self).wf(),
            id == old(self).next_spec(),
            final(self).start_spec() == old(self).start_spec(),
            final(self).next_spec() == old(self).next_spec() + 1,
            final(self).registered(id),
            final(self).metadata_spec(id) == Some(metadata),
            forall|other: AssetId|
                other != id ==> #[trigger] final(self).metadata_spec(other) == old(
                    self,
                ).metadata_spec(other),
    {
        let id = self.next;
        self.records.push(RegistryRecord { id, metadata });
        self.next = self.next + 1;
        proof {
            assert(self.records@.drop_last() =~= old(self).records@);
            assert forall|other: AssetId| other != id implies #[trigger] self.metadata_spec(other)
                == old(self).metadata_spec(other) by {
                assert(journal_lookup(self.records@, other) == journal_lookup(
                    self.records@.drop_last(),
                    other,
                ));
            }
        }
        id
    }

    /// Replaces the metadata of an already-registered asset. An
    /// administrative operation, like registration; transfer logic never
    /// changes metadata. Fails, and changes nothing, when `id` is not
    /// registered.
    pub fn update_asset_metadata(&mut self, id: AssetId, metadata: AssetMetadata) -> (r: Result<
        (),
        RegistryError,
    >)
        requires
            old(self).wf(),
        ensures
            final(self).wf(),
            r is Ok <==> old(self).registered(id),
            final(self).start_spec() == old(self).start_spec(),
            final(self).next_spec() == old(self).next_spec(),
            r is Ok ==> final(self).metadata_spec(id) == Some(metadata),
            r is Err ==> *final(self) == *old(self),
            forall|other: AssetId|
                other != id ==> #[trigger] final(self).metadata_spec(other) == old(
                    self,
                ).metadata_spec(other),
    {
        if self.is_registered(id) {
            self.records.push(RegistryRecord { id, metadata });
            proof {
                lemma_journal_lookup_some_implies_present(old(self).records@, id);
                assert(self.records@.drop_last() =~= old(self).records@);
                assert forall|other: AssetId| other != id implies #[trigger] self.metadata_spec(
                    other,
                ) == old(self).metadata_spec(other) by {
                    assert(journal_lookup(self.records@, other) == journal_lookup(
                        self.records@.drop_last(),
                        other,
                    ));
                }
            }
            Ok(())
        } else {
            Err(RegistryError::UnknownAssetId)
        }
    }

    /// Whether `id` has been registered.
    pub fn is_registered(&self, id: AssetId) -> (r: bool)
        ensures
            r == self.registered(id),
    {
        self.metadata_of(id).is_some()
    }

    /// The metadata currently held for `id`.
    pub fn metadata_of(&self, id: AssetId) -> (r: Option<&AssetMetadata>)
        ensures
            match r {
                Some(m) => self.metadata_spec(id) == Some(*m),
                None => self.metadata_spec(id) is None,
            },
    {
        let n = self.records.len();
        let mut k = n;
        proof {
            assert(self.records@.take(n as int) =~= self.records@);
        }
        while k > 0
            invariant
                k <= n,
                n == self.records@.len(),
                journal_lookup(self.records@, id) == journal_lookup(
                    self.records@.take(k as int),
                    id,
                ),
            decreases k,
        {
            k = k - 1;
            let t = Ghost(self.records@.take(k as int + 1));
            proof {
                assert(t@.last() == self.records@[k as int]);
            }
            if self.records[k].id == id {
                proof {
                    assert(journal_lookup(t@, id) == Some(t@.last().metadata));
                }
                return Some(&self.records[k].metadata);
            }
            proof {
                assert(t@.drop_last() =~= self.records@.take(k as int));
                assert(journal_lookup(t@, id) == journal_lookup(t@.drop_last(), id));
            }
        }
        proof {
            assert(self.records@.take(0) =~= Seq::<RegistryRecord>::empty());
        }
        None
    }
}

} // verus!
