//! The blobs that the client program was given, in the order it will ask for them.
use vstd::prelude::*;

use crate::bytes::{cut, same_hash};
use crate::outside::{
    blob_proofs_hold, contents, kzg_to_versioned_hash, points, verify_blob_kzg_proof_batch,
    versioned_hash_of, BYTES_PER_BLOB,
};
use crate::request::B256;

verus! {

/// Blobs with their commitments and the proofs that the two belong together.
#[derive(Debug, Clone, PartialEq, Eq)]
pub struct BlobData {
    pub blobs: Vec<Vec<u8>>,
    pub commitments: Vec<[u8; 48]>,
    pub proofs: Vec<[u8; 48]>,
}

impl BlobData {
    /// Every blob has the size of a blob.
    pub open spec fn wf(&self) -> bool {
        forall|i: int|
            0 <= i < self.blobs@.len() ==> (#[trigger] self.blobs@[i])@.len() == BYTES_PER_BLOB
    }

    /// What is known about whether the proofs show that the commitments are those of the blobs.
    pub open spec fn proofs_hold(&self) -> Option<bool> {
        blob_proofs_hold(contents(self.blobs@), points(self.commitments@), points(self.proofs@))
    }
}

/// Why blobs were not taken in.
#[derive(Debug, Clone, Copy, PartialEq, Eq, Structural)]
pub enum BlobDataError {
    /// A blob does not have the size of a blob.
    InvalidBlobLength,
    /// The proofs are well-formed, but do not show that the commitments are those of the blobs.
    InvalidProofs,
    /// The proofs could not be checked.
    Unverifiable,
}

/// Why blobs were not handed out.
#[derive(Debug, Clone, Copy, PartialEq, Eq)]
pub enum BlobProviderError {
    /// There are fewer blobs than were asked for.
    Insufficient { requested: usize, available: usize },
    /// The next blob is not the one that was asked for.
    HashMismatch { index: usize, expected: B256, got: B256 },
}

/// A blob and its versioned hash.
pub struct BlobView {
    pub hash: Seq<u8>,
    pub blob: Seq<u8>,
}

/// The blobs that were not handed out yet. The last one is handed out next.
#[derive(Debug, PartialEq, Eq)]
pub struct BlobStore {
    versioned_blobs: Vec<(B256, Vec<u8>)>,
}

impl View for BlobStore {
    type V = Seq<BlobView>;

    /// The blobs in the order they are handed out in.
    closed spec fn view(&self) -> Seq<BlobView> {
        let n = self.versioned_blobs@.len();
        Seq::new(
            n,
            |i: int|
                BlobView {
                    hash: self.versioned_blobs@[n - 1 - i].0@,
                    blob: self.versioned_blobs@[n - 1 - i].1@,
                },
        )
    }
}

/// The blobs of some data with the versioned hashes of their commitments, in their order.
pub open spec fn versioned_blobs(data: BlobData) -> Seq<BlobView> {
    Seq::new(
        data.blobs@.len(),
        |i: int|
            BlobView { hash: versioned_hash_of(data.commitments@[i]@), blob: data.blobs@[i]@ },
    )
}

/// The requested hashes up to `n` are those of the next blobs.
pub open spec fn matches_up_to(store: Seq<BlobView>, hashes: Seq<B256>, n: int) -> bool {
    forall|i: int| 0 <= i < n ==> (#[trigger] hashes[i])@ == store[i].hash
}

/// A store answers a request in this way.
///
/// All blobs are handed out in order, if their hashes are the requested ones. Otherwise the first
/// request that cannot be met is named. A blob that was looked at is gone in any case.
pub open spec fn answers(
    before: Seq<BlobView>,
    hashes: Seq<B256>,
    result: Result<Seq<Seq<u8>>, BlobProviderError>,
    after: Seq<BlobView>,
) -> bool {
    match result {
        Ok(blobs) => {
            &&& hashes.len() <= before.len()
            &&& matches_up_to(before, hashes, hashes.len() as int)
            &&& blobs == Seq::new(hashes.len(), |i: int| before[i].blob)
            &&& after == before.skip(hashes.len() as int)
        },
        Err(BlobProviderError::Insufficient { requested, available }) => {
            &&& requested == hashes.len()
            &&& available == before.len()
            &&& before.len() < hashes.len()
            &&& matches_up_to(before, hashes, before.len() as int)
            &&& after.len() == 0
        },
        Err(BlobProviderError::HashMismatch { index, expected, got }) => {
            &&& index < hashes.len()
            &&& index < before.len()
            &&& matches_up_to(before, hashes, index as int)
            &&& hashes[index as int]@ != before[index as int].hash
            &&& expected == hashes[index as int]
            &&& got@ == before[index as int].hash
            &&& after == before.skip(index + 1)
        },
    }
}

/// The contents of handed out blobs.
pub open spec fn handed_out(result: Result<Vec<Vec<u8>>, BlobProviderError>) -> Result<
    Seq<Seq<u8>>,
    BlobProviderError,
> {
    match result {
        Ok(blobs) => Ok(contents(blobs@)),
        Err(e) => Err(e),
    }
}

impl Default for BlobStore {
    /// A store without blobs.
    fn default() -> (store: BlobStore)
        ensures
            store@ == Seq::<BlobView>::empty(),
    {
        let store = BlobStore { versioned_blobs: Vec::new() };
        assert(store@ =~= Seq::<BlobView>::empty());
        store
    }
}

impl BlobStore {
    /// Takes blobs in whose proofs hold. They will be handed out in their order, under the versioned
    /// hashes of their commitments.
    ///
    /// A proof that is well-formed but invalid is refused like one that cannot be checked.
    pub fn from_blob_data(data: BlobData) -> (store: Result<BlobStore, BlobDataError>)
        ensures
            !data.wf() <==> store == Err::<BlobStore, _>(BlobDataError::InvalidBlobLength),
            data.wf() ==> match data.proofs_hold() {
                Some(true) => store is Ok && store->Ok_0@ == versioned_blobs(data),
                Some(false) => store == Err::<BlobStore, _>(BlobDataError::InvalidProofs),
                None => store == Err::<BlobStore, _>(BlobDataError::Unverifiable),
            },
    {
        let mut i: usize = 0;
        while i < data.blobs.len()
            invariant
                i <= data.blobs@.len(),
                forall|j: int|
                    0 <= j < i ==> (#[trigger] data.blobs@[j])@.len() == BYTES_PER_BLOB,
            decreases data.blobs@.len() - i,
        {
            if data.blobs[i].len() != BYTES_PER_BLOB {
                assert(data.blobs@[i as int]@.len() != BYTES_PER_BLOB);
                return Err(BlobDataError::InvalidBlobLength);
            }
            i += 1;
        }
        match verify_blob_kzg_proof_batch(
            data.blobs.as_slice(),
            data.commitments.as_slice(),
            data.proofs.as_slice(),
        ) {
            Some(true) => {
                let versioned_blobs: Vec<(B256, Vec<u8>)> = reversed(&data);
                let store = BlobStore { versioned_blobs };
                assert(store@ =~= crate::client::blobs::versioned_blobs(data));
                Ok(store)
            },
            Some(false) => Err(BlobDataError::InvalidProofs),
            None => Err(BlobDataError::Unverifiable),
        }
    }

    /// Hands out the next blobs, if they are the ones with these hashes.
    pub fn get_and_validate_blobs(&mut self, blob_hashes: &[B256]) -> (result: Result<
        Vec<Vec<u8>>,
        BlobProviderError,
    >)
        ensures
            answers(old(self)@, blob_hashes@, handed_out(result), final(self)@),
    {
        let ghost before = self@;
        let mut result: Vec<Vec<u8>> = Vec::new();
        let mut idx: usize = 0;
        assert(self@ =~= before.skip(0));
        while idx < blob_hashes.len()
            invariant
                before == old(self)@,
                idx <= blob_hashes@.len(),
                idx <= before.len(),
                self@ == before.skip(idx as int),
                matches_up_to(before, blob_hashes@, idx as int),
                result@.len() == idx,
                forall|j: int| 0 <= j < idx ==> (#[trigger] result@[j])@ == before[j].blob,
            decreases blob_hashes@.len() - idx,
        {
            let ghost rest = self.versioned_blobs@;
            assert(self@.len() == rest.len());
            let (hash, blob) = match self.versioned_blobs.pop() {
                Some(next) => next,
                None => {
                    assert(self@.len() == 0);
                    return Err(
                        BlobProviderError::Insufficient {
                            requested: blob_hashes.len(),
                            available: idx,
                        },
                    );
                },
            };
            proof {
                let n = rest.len() as int;
                assert(before.skip(idx as int)[0] == before[idx as int]);
                assert(hash@ == before[idx as int].hash && blob@ == before[idx as int].blob) by {
                    assert(rest[n - 1] == (hash, blob));
                }
                assert(self@ =~= before.skip(idx as int).skip(1));
                assert(self@ =~= before.skip(idx + 1));
            }
            if !same_hash(&blob_hashes[idx], &hash) {
                return Err(
                    BlobProviderError::HashMismatch {
                        index: idx,
                        expected: blob_hashes[idx],
                        got: hash,
                    },
                );
            }
            result.push(blob);
            idx += 1;
        }
        assert(contents(result@) =~= Seq::new(blob_hashes@.len(), |i: int| before[i].blob));
        Ok(result)
    }
}

/// The blobs of some data with their versioned hashes, the last one first.
fn reversed(data: &BlobData) -> (blobs: Vec<(B256, Vec<u8>)>)
    requires
        data.commitments@.len() == data.blobs@.len(),
    ensures
        blobs@.len() == data.blobs@.len(),
        forall|i: int|
            0 <= i < blobs@.len() ==> {
                &&& (#[trigger] blobs@[i]).0@ == versioned_hash_of(
                    data.commitments@[blobs@.len() - 1 - i]@,
                )
                &&& blobs@[i].1@ == data.blobs@[blobs@.len() - 1 - i]@
            },
{
    let n: usize = data.blobs.len();
    let mut blobs: Vec<(B256, Vec<u8>)> = Vec::new();
    let mut i: usize = 0;
    while i < n
        invariant
            i <= n,
            n == data.blobs@.len(),
            data.commitments@.len() == n,
            blobs@.len() == i,
            forall|j: int|
                0 <= j < i ==> {
                    &&& (#[trigger] blobs@[j]).0@ == versioned_hash_of(data.commitments@[n - 1 - j]@)
                    &&& blobs@[j].1@ == data.blobs@[n - 1 - j]@
                },
        decreases n - i,
    {
        let at: usize = n - 1 - i;
        let hash: B256 = kzg_to_versioned_hash(&data.commitments[at]);
        let blob: Vec<u8> = cut(data.blobs[at].as_slice(), 0, data.blobs[at].len());
        assert(blob@ =~= data.blobs@[at as int]@);
        blobs.push((hash, blob));
        i += 1;
    }
    blobs
}

/// A store hands its blobs out once and in order, however the requests for them are cut: after a
/// first request was met, a second one is met exactly if a request for both would have been, and
/// hands out the rest of what that would have.
pub proof fn law_requests_can_be_cut_anywhere(
    store: Seq<BlobView>,
    first: Seq<B256>,
    second: Seq<B256>,
    between: Seq<BlobView>,
    after: Seq<BlobView>,
    a: Seq<Seq<u8>>,
    b: Seq<Seq<u8>>,
)
    requires
        answers(store, first, Ok(a), between),
    ensures
        answers(between, second, Ok(b), after) <==> answers(store, first + second, Ok(a + b), after),
{
    if answers(between, second, Ok(b), after) {
        lemma_two_requests_make_one(store, first, second, between, after, a, b);
    }
    if answers(store, first + second, Ok(a + b), after) {
        law_a_request_can_be_cut(store, first, second, after, a + b);
        law_the_answer_is_determined(
            store,
            first,
            Ok(a),
            between,
            Ok((a + b).take(first.len() as int)),
            store.skip(first.len() as int),
        );
        assert((a + b).skip(first.len() as int) =~= b);
    }
}

/// Where a request for both is met, the first one alone is met, and the second one is met with what
/// is left.
pub proof fn law_a_request_can_be_cut(
    store: Seq<BlobView>,
    first: Seq<B256>,
    second: Seq<B256>,
    after: Seq<BlobView>,
    blobs: Seq<Seq<u8>>,
)
    requires
        answers(store, first + second, Ok(blobs), after),
    ensures
        answers(
            store,
            first,
            Ok(blobs.take(first.len() as int)),
            store.skip(first.len() as int),
        ),
        answers(
            store.skip(first.len() as int),
            second,
            Ok(blobs.skip(first.len() as int)),
            after,
        ),
{
    let both = first + second;
    let between = store.skip(first.len() as int);
    assert forall|i: int| 0 <= i < first.len() implies (#[trigger] first[i])@ == store[i].hash by {
        assert(both[i] == first[i]);
    }
    assert forall|i: int| 0 <= i < second.len() implies (#[trigger] second[i])@
        == between[i].hash by {
        assert(both[first.len() + i] == second[i]);
        assert(between[i] == store[first.len() + i]);
    }
    assert(blobs.take(first.len() as int) =~= Seq::new(first.len(), |i: int| store[i].blob));
    assert(blobs.skip(first.len() as int) =~= Seq::new(second.len(), |i: int| between[i].blob));
    assert(after =~= between.skip(second.len() as int));
}

/// A request that follows another is answered like the rest of a request for both.
proof fn lemma_two_requests_make_one(
    store: Seq<BlobView>,
    first: Seq<B256>,
    second: Seq<B256>,
    between: Seq<BlobView>,
    after: Seq<BlobView>,
    a: Seq<Seq<u8>>,
    b: Seq<Seq<u8>>,
)
    requires
        answers(store, first, Ok(a), between),
        answers(between, second, Ok(b), after),
    ensures
        answers(store, first + second, Ok(a + b), after),
{
    let both = first + second;
    assert(between =~= store.skip(first.len() as int));
    assert forall|i: int| 0 <= i < both.len() implies (#[trigger] both[i])@ == store[i].hash by {
        if i < first.len() {
            assert(both[i] == first[i]);
        } else {
            assert(both[i] == second[i - first.len()]);
            assert(between[i - first.len()] == store[i]);
        }
    }
    assert(a + b =~= Seq::new(both.len(), |i: int| store[i].blob)) by {
        assert forall|i: int| 0 <= i < both.len() implies (a + b)[i] == store[i].blob by {
            if i >= first.len() {
                assert(between[i - first.len()] == store[i]);
            }
        }
    }
    assert(after =~= store.skip(both.len() as int));
}

/// A request is answered in exactly one way.
pub proof fn law_the_answer_is_determined(
    store: Seq<BlobView>,
    hashes: Seq<B256>,
    a: Result<Seq<Seq<u8>>, BlobProviderError>,
    after_a: Seq<BlobView>,
    b: Result<Seq<Seq<u8>>, BlobProviderError>,
    after_b: Seq<BlobView>,
)
    requires
        answers(store, hashes, a, after_a),
        answers(store, hashes, b, after_b),
    ensures
        a == b,
        after_a == after_b,
{
    assert forall|i: int, j: int|
        #![trigger hashes[i], hashes[j]]
        0 <= i < j && matches_up_to(store, hashes, j) implies hashes[i]@ == store[i].hash by {}
    if let (
        Err(BlobProviderError::HashMismatch { index: i, expected: e, got: g }),
        Err(BlobProviderError::HashMismatch { index: j, expected: f, got: h }),
    ) = (a, b) {
        if i < j {
            assert(hashes[i as int]@ == store[i as int].hash);
        } else if j < i {
            assert(hashes[j as int]@ == store[j as int].hash);
        }
        assert(i == j);
        assert(g =~= h);
    }
    if let Err(BlobProviderError::HashMismatch { index: i, .. }) = a {
        assert(hashes[i as int]@ != store[i as int].hash);
        assert(b is Err);
    }
    if let Err(BlobProviderError::HashMismatch { index: i, .. }) = b {
        assert(hashes[i as int]@ != store[i as int].hash);
        assert(a is Err);
    }
    assert(after_a =~= after_b);
}

/// Blobs are handed out exactly if there are as many as were asked for and each has the hash that
/// was asked for in its place. They are then the next ones, in their order, and are gone from the
/// store; the others stay.
pub proof fn law_blobs_are_handed_out_under_their_hashes(
    store: &mut BlobStore,
    blob_hashes: &[B256],
    result: Result<Vec<Vec<u8>>, BlobProviderError>,
    i: int,
)
    requires
        call_ensures(BlobStore::get_and_validate_blobs, (store, blob_hashes), result),
    ensures
        result is Ok <==> blob_hashes@.len() <= old(store)@.len() && forall|k: int|
            0 <= k < blob_hashes@.len() ==> (#[trigger] blob_hashes@[k])@ == old(store)@[k].hash,
        result matches Ok(blobs) ==> {
            &&& blobs@.len() == blob_hashes@.len()
            &&& 0 <= i < blobs@.len() ==> blobs@[i]@ == old(store)@[i].blob
            &&& final(store)@.len() == old(store)@.len() - blob_hashes@.len()
            &&& 0 <= i < final(store)@.len() ==> final(store)@[i] == old(store)@[blob_hashes@.len()
                + i]
        },
{
    if let Ok(blobs) = result {
        assert(contents(blobs@).len() == blobs@.len());
        if 0 <= i < blobs@.len() {
            assert(contents(blobs@)[i] == blobs@[i]@);
        }
    }
}

/// Blobs that are not handed out are refused for the first of them that is not there, or has
/// another hash; that hash and the one that was asked for are named. Everything that was looked at
/// is gone from the store.
pub proof fn law_the_first_blob_that_does_not_match_is_named(
    store: &mut BlobStore,
    blob_hashes: &[B256],
    result: Result<Vec<Vec<u8>>, BlobProviderError>,
    i: int,
)
    requires
        call_ensures(BlobStore::get_and_validate_blobs, (store, blob_hashes), result),
    ensures
        result matches Err(BlobProviderError::Insufficient { requested, available }) ==> {
            &&& requested == blob_hashes@.len()
            &&& available == old(store)@.len()
            &&& available < requested
            &&& 0 <= i < available ==> blob_hashes@[i]@ == old(store)@[i].hash
            &&& final(store)@.len() == 0
        },
        result matches Err(BlobProviderError::HashMismatch { index, expected, got }) ==> {
            &&& index < blob_hashes@.len() && index < old(store)@.len()
            &&& 0 <= i < index ==> blob_hashes@[i]@ == old(store)@[i].hash
            &&& expected@ == blob_hashes@[index as int]@
            &&& got@ == old(store)@[index as int].hash
            &&& expected@ != got@
            &&& final(store)@.len() == old(store)@.len() - index - 1
            &&& 0 <= i < final(store)@.len() ==> final(store)@[i] == old(store)@[index + 1 + i]
        },
{
}

/// A store takes in blobs of 131072 bytes each whose proofs hold, and no others; each error says
/// which of the two fails. It then holds every blob under the versioned hash of its own commitment,
/// in the order they came in. A store that was not given any holds none.
pub proof fn law_a_store_holds_the_blobs_that_it_took_in(
    data: BlobData,
    store: Result<BlobStore, BlobDataError>,
    i: int,
    empty: BlobStore,
)
    requires
        call_ensures(BlobStore::from_blob_data, (data,), store),
        call_ensures(BlobStore::default, (), empty),
    ensures
        empty@.len() == 0,
        ({
            let sized = forall|k: int|
                0 <= k < data.blobs@.len() ==> (#[trigger] data.blobs@[k])@.len() == 131072;
            let holds = blob_proofs_hold(
                contents(data.blobs@),
                points(data.commitments@),
                points(data.proofs@),
            );
            &&& store == Err::<BlobStore, _>(BlobDataError::InvalidBlobLength) <==> !sized
            &&& store is Ok <==> sized && holds == Some(true)
            &&& store == Err::<BlobStore, _>(BlobDataError::InvalidProofs) <==> sized && holds == Some(
                false,
            )
            &&& store == Err::<BlobStore, _>(BlobDataError::Unverifiable) <==> sized && holds is None
        }),
        store matches Ok(s) ==> {
            &&& s@.len() == data.blobs@.len()
            &&& 0 <= i < s@.len() ==> s@[i].blob == data.blobs@[i]@
            &&& 0 <= i < s@.len() ==> s@[i].hash == versioned_hash_of(data.commitments@[i]@)
        },
{
}

} // verus!
