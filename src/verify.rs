//! The integrity verifier: source and destination are read again in lockstep, one
//! chunk at a time, each side fed to its own SHA-256 digest, and the two digests are
//! compared at the end.
use vstd::prelude::*;

use crate::transfer::{chunk_len, CHUNK_SIZE};

verus! {

/// The SHA-256 digest of a byte sequence.
pub uninterp spec fn sha256_of(data: Seq<u8>) -> Seq<u8>;

/// The bytes a hasher has absorbed so far, in order.
pub uninterp spec fn absorbed(h: Hasher) -> Seq<u8>;

/// An incremental SHA-256 computation.
#[verifier::external_body]
pub struct Hasher {
    inner: sha2::Sha256,
}

impl Hasher {
    /// Relies on sha2's `Digest::new` for `Sha256`: a hasher that has absorbed nothing.
    #[verifier::external_body]
    pub(crate) fn new() -> (r: Hasher)
        ensures
            absorbed(r) == Seq::<u8>::empty(),
    {
        Hasher { inner: <sha2::Sha256 as sha2::Digest>::new() }
    }

    /// Relies on sha2's `Digest::update` for `Sha256`: `data` is appended to what the
    /// hasher has absorbed.
    #[verifier::external_body]
    pub(crate) fn update(&mut self, data: &[u8])
        ensures
            absorbed(*final(self)) == absorbed(*old(self)) + data@,
    {
        sha2::Digest::update(&mut self.inner, data)
    }

    /// Relies on sha2's `Digest::finalize` for `Sha256`: the digest of everything the
    /// hasher absorbed.
    #[verifier::external_body]
    pub(crate) fn finalize(self) -> (r: Vec<u8>)
        ensures
            r@ == sha256_of(absorbed(self)),
    {
        sha2::Digest::finalize(self.inner).to_vec()
    }
}

/// The verdict on two byte sequences: their digests are equal.
pub open spec fn digests_agree(source: Seq<u8>, dest: Seq<u8>) -> bool {
    sha256_of(source) == sha256_of(dest)
}

/// Whether two digests are the same.
pub fn digests_match(a: &Vec<u8>, b: &Vec<u8>) -> (r: bool)
    ensures
        r == (a@ == b@),
{
    if a.len() != b.len() {
        return false;
    }
    let mut i: usize = 0;
    while i < a.len()
        invariant
            a@.len() == b@.len(),
            i <= a@.len(),
            forall|k: int| 0 <= k < i ==> a@[k] == b@[k],
        decreases a@.len() - i,
    {
        if a[i] != b[i] {
            return false;
        }
        i = i + 1;
    }
    assert(a@ =~= b@);
    true
}

/// Verifying the first `length` bytes of a destination against its source.
pub struct VerifyJob {
    /// Bytes to compare.
    pub length: u64,
    /// Bytes not yet read.
    pub remaining: u64,
    /// The source's digest so far.
    pub source: Hasher,
    /// The destination's digest so far.
    pub dest: Hasher,
}

impl VerifyJob {
    /// Both sides have absorbed the same number of bytes: those read so far.
    pub open spec fn wf(&self) -> bool {
        &&& self.remaining <= self.length
        &&& absorbed(self.source).len() == self.length - self.remaining
        &&& absorbed(self.dest).len() == self.length - self.remaining
    }

    /// The verdict of a finished job.
    pub open spec fn verdict(&self) -> bool {
        digests_agree(absorbed(self.source), absorbed(self.dest))
    }

    /// A job over `length` bytes, nothing read yet.
    pub fn new(length: u64) -> (r: VerifyJob)
        ensures
            r.wf(),
            r.length == length,
            r.remaining == length,
    {
        VerifyJob { length, remaining: length, source: Hasher::new(), dest: Hasher::new() }
    }

    /// The length of the next chunk to read from each side; zero once all is read.
    pub fn next_chunk(&self) -> (r: usize)
        requires
            self.wf(),
        ensures
            self.remaining == 0 ==> r == 0,
            self.remaining > 0 ==> r == chunk_len(self.length as int, (self.length - self.remaining) as int),
    {
        if self.remaining < CHUNK_SIZE as u64 {
            self.remaining as usize
        } else {
            CHUNK_SIZE
        }
    }

    /// Feeds one chunk of each side to its digest.
    pub fn absorb(&mut self, source_chunk: &[u8], dest_chunk: &[u8])
        requires
            old(self).wf(),
            old(self).remaining > 0,
            source_chunk@.len() == chunk_len(
                old(self).length as int,
                (old(self).length - old(self).remaining) as int,
            ),
            dest_chunk@.len() == source_chunk@.len(),
        ensures
            final(self).wf(),
            final(self).length == old(self).length,
            final(self).remaining == old(self).remaining - source_chunk@.len(),
            absorbed(final(self).source) == absorbed(old(self).source) + source_chunk@,
            absorbed(final(self).dest) == absorbed(old(self).dest) + dest_chunk@,
    {
        self.source.update(source_chunk);
        self.dest.update(dest_chunk);
        self.remaining = self.remaining - source_chunk.len() as u64;
    }

    /// The verdict once every chunk is read: whether the two digests are equal.
    pub fn finish(self) -> (r: bool)
        requires
            self.wf(),
            self.remaining == 0,
        ensures
            r == self.verdict(),
    {
        let a = self.source.finalize();
        let b = self.dest.finalize();
        digests_match(&a, &b)
    }
}

/// Verifying twice against an unchanged destination gives the same verdict both
/// times: a finished job's verdict depends on the bytes it read alone.
pub proof fn lemma_verification_idempotent(first: VerifyJob, second: VerifyJob, source: Seq<u8>, dest: Seq<u8>)
    requires
        first.wf(),
        second.wf(),
        first.remaining == 0,
        second.remaining == 0,
        first.length == second.length,
        first.length <= source.len(),
        first.length <= dest.len(),
        absorbed(first.source) == source.subrange(0, first.length as int),
        absorbed(first.dest) == dest.subrange(0, first.length as int),
        absorbed(second.source) == source.subrange(0, second.length as int),
        absorbed(second.dest) == dest.subrange(0, second.length as int),
    ensures
        first.verdict() == second.verdict(),
{
}

/// Identical contents always verify.
pub proof fn lemma_identical_contents_verify(job: VerifyJob)
    requires
        job.wf(),
        job.remaining == 0,
        absorbed(job.source) == absorbed(job.dest),
    ensures
        job.verdict(),
{
}

} // verus!
