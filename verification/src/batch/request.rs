//! The requests of a batch, and how they fall into segments.

use vstd::prelude::*;

verus! {

/// An algorithm that an HSM encrypts and decrypts with.
#[derive(Debug, Clone, Copy, PartialEq, Eq, Structural)]
pub enum CryptoAlgorithm {
    AesCbc,
    AesGcm,
    RsaPkcsV15,
    RsaOaepSha256,
    RsaOaepSha1,
}

impl CryptoAlgorithm {
    /// Whether the keys are RSA keys.
    pub open spec fn rsa(self) -> bool {
        self is RsaPkcsV15 || self is RsaOaepSha256 || self is RsaOaepSha1
    }
}

/// Tells whether requests with this algorithm can be handled in parallel: those of RSA can.
pub fn is_rsa_batch_algorithm(algorithm: &CryptoAlgorithm) -> (rsa: bool)
    ensures
        rsa == algorithm.rsa(),
{
    matches!(
        algorithm,
        CryptoAlgorithm::RsaPkcsV15 | CryptoAlgorithm::RsaOaepSha256 | CryptoAlgorithm::RsaOaepSha1
    )
}

/// A request to encrypt or decrypt data with a key of a slot.
#[derive(Debug)]
pub struct HsmBatchRequest {
    pub slot_id: usize,
    pub key_id: Vec<u8>,
    pub algorithm: CryptoAlgorithm,
    pub data: Vec<u8>,
    pub authenticated_encryption_additional_data: Vec<u8>,
}

/// A request to encrypt.
pub type HsmEncryptBatchRequest = HsmBatchRequest;

/// A request to decrypt.
pub type HsmDecryptBatchRequest = HsmBatchRequest;

/// What an encryption gives.
#[derive(Debug)]
pub struct EncryptedContent {
    pub iv: Option<Vec<u8>>,
    pub ciphertext: Vec<u8>,
    pub tag: Option<Vec<u8>>,
}

impl HsmBatchRequest {
    /// Whether two requests are for one slot, key and algorithm.
    pub open spec fn same_target(self, other: HsmBatchRequest) -> bool {
        &&& self.slot_id == other.slot_id
        &&& self.key_id@ == other.key_id@
        &&& self.algorithm == other.algorithm
    }
}

/// The first position from `from` on whose request is not for the target of the request at `start`.
pub open spec fn target_end(requests: Seq<HsmBatchRequest>, start: int, from: int) -> int
    decreases requests.len() - from,
{
    if from < requests.len() && requests[from].same_target(requests[start]) {
        target_end(requests, start, from + 1)
    } else {
        from
    }
}

/// Where the segment that begins at `start` ends: the requests up to there are for one target.
pub open spec fn end_of_segment(requests: Seq<HsmBatchRequest>, start: int) -> int {
    target_end(requests, start, start + 1)
}

/// A segment is not empty, holds requests for one target, and is as long as that allows.
pub proof fn law_segment(requests: Seq<HsmBatchRequest>, start: int)
    requires
        0 <= start < requests.len(),
    ensures
        start < end_of_segment(requests, start) <= requests.len(),
        forall|i: int|
            start <= i < end_of_segment(requests, start) ==> (#[trigger] requests[i]).same_target(
                requests[start],
            ),
        end_of_segment(requests, start) < requests.len() ==> !requests[end_of_segment(
            requests,
            start,
        )].same_target(requests[start]),
{
    lemma_target_end(requests, start, start + 1);
}

proof fn lemma_target_end(requests: Seq<HsmBatchRequest>, start: int, from: int)
    requires
        0 <= start < from <= requests.len(),
    ensures
        from <= target_end(requests, start, from) <= requests.len(),
        forall|i: int|
            from <= i < target_end(requests, start, from) ==> (#[trigger] requests[i]).same_target(
                requests[start],
            ),
        target_end(requests, start, from) < requests.len() ==> !requests[target_end(
            requests,
            start,
            from,
        )].same_target(requests[start]),
    decreases requests.len() - from,
{
    if from < requests.len() && requests[from].same_target(requests[start]) {
        lemma_target_end(requests, start, from + 1);
    }
}

fn same_bytes(a: &Vec<u8>, b: &Vec<u8>) -> (same: bool)
    ensures
        same == (a@ == b@),
{
    if a.len() != b.len() {
        return false;
    }
    let mut i: usize = 0;
    while i < a.len()
        invariant
            i <= a@.len(),
            a@.len() == b@.len(),
            forall|j: int| 0 <= j < i ==> a@[j] == b@[j],
        decreases a@.len() - i,
    {
        if a[i] != b[i] {
            return false;
        }
        i += 1;
    }
    assert(a@ =~= b@);
    true
}

/// Finds where the segment that begins at `start` ends.
pub fn segment_end(requests: &[HsmBatchRequest], start: usize) -> (end: usize)
    requires
        start < requests@.len(),
    ensures
        end == end_of_segment(requests@, start as int),
        start < end <= requests@.len(),
{
    let first = &requests[start];
    let mut end: usize = start + 1;
    while end < requests.len() && requests[end].slot_id == first.slot_id && same_bytes(
        &requests[end].key_id,
        &first.key_id,
    ) && requests[end].algorithm == first.algorithm
        invariant
            first == requests@[start as int],
            start < end <= requests@.len(),
            target_end(requests@, start as int, end as int) == end_of_segment(
                requests@,
                start as int,
            ),
        decreases requests@.len() - end,
    {
        end += 1;
    }
    end
}

/// The requests of a segment have one slot, one key and one algorithm, and the segment goes on as
/// long as they do: the request behind it differs from it in one of the three.
pub proof fn law_segment_fields(requests: Seq<HsmBatchRequest>, start: int)
    requires
        0 <= start < requests.len(),
    ensures
        ({
            let end = end_of_segment(requests, start);
            let first = requests[start];
            &&& start < end <= requests.len()
            &&& forall|i: int|
                start <= i < end ==> {
                    &&& (#[trigger] requests[i]).slot_id == first.slot_id
                    &&& requests[i].key_id@ == first.key_id@
                    &&& requests[i].algorithm == first.algorithm
                }
            &&& end < requests.len() ==> {
                ||| requests[end].slot_id != first.slot_id
                ||| requests[end].key_id@ != first.key_id@
                ||| requests[end].algorithm != first.algorithm
            }
        }),
{
    law_segment(requests, start);
}

/// Three algorithms are those of RSA keys, and the other two are those of AES keys.
pub proof fn law_rsa_algorithms(algorithm: CryptoAlgorithm)
    ensures
        match algorithm {
            CryptoAlgorithm::RsaPkcsV15 => algorithm.rsa(),
            CryptoAlgorithm::RsaOaepSha256 => algorithm.rsa(),
            CryptoAlgorithm::RsaOaepSha1 => algorithm.rsa(),
            CryptoAlgorithm::AesCbc => !algorithm.rsa(),
            CryptoAlgorithm::AesGcm => !algorithm.rsa(),
        },
{
}

} // verus!
