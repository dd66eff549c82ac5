//! Aligned block transfer between an image and a block device.
//!
//! The copy itself runs outside the library: each job here decides, once per chunk,
//! whether to move another chunk, stop because the transfer was cancelled, or finish;
//! and it prepares the bytes that go out. A job keeps, as ghost state, the exact byte
//! stream it has handed out, so its contract says what reaches the destination.
use vstd::prelude::*;
use vstd::slice::slice_subrange;

verus! {

/// Bytes moved per iteration: 1 MiB.
pub const CHUNK_SIZE: usize = 1048576;

/// Logical block size of a raw device opened for unbuffered I/O.
pub const BLOCK_SIZE: usize = 512;

/// `n` rounded up to a whole number of blocks.
pub open spec fn round_up_to_block(n: int) -> int {
    if n % 512 == 0 {
        n
    } else {
        n + (512 - n % 512)
    }
}

/// `n` zero bytes.
pub open spec fn zeros(n: int) -> Seq<u8> {
    Seq::new(n as nat, |i: int| 0u8)
}

/// The length of the chunk that starts at `done` in a transfer of `total` bytes.
pub open spec fn chunk_len(total: int, done: int) -> int {
    if total - done < CHUNK_SIZE {
        total - done
    } else {
        CHUNK_SIZE as int
    }
}

/// What a complete write sends to the device: the image, then zeros up to the next
/// block boundary.
pub open spec fn device_stream(image: Seq<u8>) -> Seq<u8> {
    image + zeros(round_up_to_block(image.len() as int) - image.len())
}

/// What the transfer loop does next.
#[derive(Debug, Clone, Copy, PartialEq, Eq, Structural)]
pub enum Step {
    /// Move one more chunk of this many bytes.
    Transfer(usize),
    /// Every byte has been moved.
    Complete,
    /// The transfer was cancelled and stops here. Where `discard_output` is set the
    /// partly written output file must be removed.
    Cancelled { discard_output: bool },
}

/// Why a transfer could not start.
#[derive(Debug, Clone, Copy, PartialEq, Eq, Structural)]
pub enum TransferError {
    /// The device reported a size of zero.
    DeviceSizeUnknown,
}

/// A chunk length rounded up to whole blocks, as unbuffered writes require.
pub fn padded_size(len: usize) -> (r: usize)
    requires
        len <= CHUNK_SIZE,
    ensures
        r == round_up_to_block(len as int),
        r % 512 == 0,
        len <= r < len + 512,
        r <= CHUNK_SIZE,
{
    if len % BLOCK_SIZE != 0 {
        len + (BLOCK_SIZE - len % BLOCK_SIZE)
    } else {
        len
    }
}

/// A device of contents `dev` after `stream` is written onto it from its first byte.
pub open spec fn device_after(dev: Seq<u8>, stream: Seq<u8>) -> Seq<u8> {
    stream + dev.subrange(stream.len() as int, dev.len() as int)
}

/// What a read of `size` bytes from `dev`, in chunks from offset `done` on, captures.
pub open spec fn chunked_read(dev: Seq<u8>, size: int, done: int) -> Seq<u8>
    decreases size - done,
{
    if done < 0 || done >= size {
        Seq::empty()
    } else {
        dev.subrange(done, done + chunk_len(size, done)) + chunked_read(dev, size, done + chunk_len(size, done))
    }
}

/// A chunked read captures exactly the bytes it covers, with nothing added.
pub proof fn lemma_chunked_read(dev: Seq<u8>, size: int, done: int)
    requires
        0 <= done <= size <= dev.len(),
    ensures
        chunked_read(dev, size, done) == dev.subrange(done, size),
    decreases size - done,
{
    if done < size {
        let n = chunk_len(size, done);
        lemma_chunked_read(dev, size, done + n);
        assert(dev.subrange(done, done + n) + dev.subrange(done + n, size) =~= dev.subrange(done, size));
    } else {
        assert(dev.subrange(done, size) =~= Seq::<u8>::empty());
    }
}

/// Writing an image to a device and then reading back as many bytes as the image
/// holds gives the image again, whether or not its length is a whole number of
/// blocks: the padding never reaches what is read back.
pub proof fn lemma_write_then_read_round_trip(image: Seq<u8>, dev: Seq<u8>)
    requires
        round_up_to_block(image.len() as int) <= dev.len(),
    ensures
        chunked_read(device_after(dev, device_stream(image)), image.len() as int, 0) == image,
{
    let after = device_after(dev, device_stream(image));
    lemma_chunked_read(after, image.len() as int, 0);
    assert(after.subrange(0, image.len() as int) =~= image);
}

/// Writing an image onto a device.
pub struct WriteJob {
    /// Length of the image.
    pub total: u64,
    /// Image bytes sent so far.
    pub written: u64,
    /// The image bytes staged so far.
    pub image: Ghost<Seq<u8>>,
    /// The bytes handed out for the device so far, padding included, in order.
    pub stream: Ghost<Seq<u8>>,
}

impl WriteJob {
    /// The job's state is consistent: the stream is the image staged so far, and gets
    /// its padding only with the last chunk.
    pub open spec fn wf(&self) -> bool {
        &&& self.written <= self.total
        &&& self.image@.len() == self.written
        &&& (self.written < self.total ==> self.written as int % CHUNK_SIZE as int == 0)
        &&& if self.written == self.total {
            self.stream@ == device_stream(self.image@)
        } else {
            self.stream@ == self.image@
        }
    }

    /// A job for an image of `total` bytes, nothing sent yet.
    pub fn new(total: u64) -> (r: WriteJob)
        ensures
            r.wf(),
            r.total == total,
            r.written == 0,
            r.image@ == Seq::<u8>::empty(),
    {
        let r = WriteJob { total, written: 0, image: Ghost(Seq::empty()), stream: Ghost(Seq::empty()) };
        assert(r.written == r.total ==> r.stream@ =~= device_stream(r.image@));
        r
    }

    /// Whether every image byte has been sent.
    pub fn is_complete(&self) -> (r: bool)
        ensures
            r == (self.written == self.total),
    {
        self.written == self.total
    }

    /// What to do before the next chunk. A cancelled job stops where it is: what was
    /// sent stays on the device, and there is no output file to remove.
    pub fn next_step(&self, cancelled: bool) -> (r: Step)
        requires
            self.wf(),
        ensures
            self.written == self.total ==> r == Step::Complete,
            self.written < self.total && cancelled ==> r == (Step::Cancelled { discard_output: false }),
            self.written < self.total && !cancelled ==> r == Step::Transfer(
                chunk_len(self.total as int, self.written as int) as usize,
            ),
    {
        if self.written == self.total {
            Step::Complete
        } else if cancelled {
            Step::Cancelled { discard_output: false }
        } else {
            let left = self.total - self.written;
            if left < CHUNK_SIZE as u64 {
                Step::Transfer(left as usize)
            } else {
                Step::Transfer(CHUNK_SIZE)
            }
        }
    }

    /// Takes the next `len` image bytes, which the caller has read into
    /// `buffer[start..start + len]`, and pads them with zeros to a whole number of
    /// blocks. Returns the length to write from `start`: the padded length.
    pub fn stage_block(&mut self, buffer: &mut Vec<u8>, start: usize, len: usize) -> (r: usize)
        requires
            old(self).wf(),
            old(self).written < old(self).total,
            len == chunk_len(old(self).total as int, old(self).written as int),
            start + CHUNK_SIZE <= old(buffer)@.len(),
        ensures
            final(self).wf(),
            r == round_up_to_block(len as int),
            final(buffer)@.len() == old(buffer)@.len(),
            final(buffer)@.subrange(start as int, start + len) == old(buffer)@.subrange(start as int, start + len),
            final(buffer)@.subrange(start + len, start + r) == zeros(r - len),
            forall|k: int|
                0 <= k < old(buffer)@.len() && !(start <= k < start + r) ==> #[trigger] final(buffer)@[k]
                    == old(buffer)@[k],
            final(self).total == old(self).total,
            final(self).written == old(self).written + len,
            final(self).image@ == old(self).image@ + old(buffer)@.subrange(start as int, start + len),
            final(self).stream@ == old(self).stream@ + final(buffer)@.subrange(start as int, start + r),
    {
        let buffer_len = buffer.len();
        assert(start + len <= buffer_len);
        let padded = padded_size(len);
        let ghost before = buffer@;
        let end = start + padded;
        let mut j: usize = start + len;
        while j < end
            invariant
                end == start + padded,
                start + len <= j <= start + padded,
                start + padded <= buffer@.len(),
                buffer@.len() == before.len(),
                forall|k: int| start + len <= k < j ==> #[trigger] buffer@[k] == 0u8,
                forall|k: int| 0 <= k < before.len() && !(start + len <= k < j) ==> #[trigger] buffer@[k] == before[k],
            decreases start + padded - j,
        {
            buffer.set(j, 0u8);
            j = j + 1;
        }
        let ghost chunk = before.subrange(start as int, start + len);
        assert(buffer@.subrange(start as int, start + len) =~= chunk);
        assert(buffer@.subrange(start + len, start + padded) =~= zeros(padded - len));
        let ghost block = buffer@.subrange(start as int, start + padded);
        assert(block =~= chunk + zeros(padded - len));
        let ghost old_image = self.image@;
        self.written = self.written + len as u64;
        self.image = Ghost(old_image + chunk);
        self.stream = Ghost(self.stream@ + block);
        proof {
            if self.written == self.total {
                assert(old_image.len() % 512 == 0) by {
                    assert(old_image.len() as int % CHUNK_SIZE as int == 0);
                }
                assert(round_up_to_block(self.image@.len() as int) - self.image@.len() == padded - len);
                assert(self.stream@ =~= device_stream(self.image@));
            } else {
                assert(padded == len);
                assert(self.stream@ =~= self.image@);
            }
        }
        padded
    }
}

/// Reading a device into an image file.
pub struct ReadJob {
    /// Bytes to capture: the device's size.
    pub size: u64,
    /// Bytes captured so far.
    pub done: u64,
    /// The bytes handed out for the image file so far, in order.
    pub image: Ghost<Seq<u8>>,
}

impl ReadJob {
    /// The job's state is consistent.
    pub open spec fn wf(&self) -> bool {
        &&& self.done <= self.size
        &&& self.image@.len() == self.done
    }

    /// A job capturing `size` bytes; a device of size zero cannot be read.
    pub fn new(size: u64) -> (r: Result<ReadJob, TransferError>)
        ensures
            size == 0 <==> r is Err,
            match r {
                Ok(job) => job.wf() && job.size == size && job.done == 0,
                Err(e) => e == TransferError::DeviceSizeUnknown,
            },
    {
        if size == 0 {
            Err(TransferError::DeviceSizeUnknown)
        } else {
            Ok(ReadJob { size, done: 0, image: Ghost(Seq::empty()) })
        }
    }

    /// Whether every byte has been captured.
    pub fn is_complete(&self) -> (r: bool)
        ensures
            r == (self.done == self.size),
    {
        self.done == self.size
    }

    /// What to do before the next chunk. A cancelled read leaves a partial image, which
    /// must be removed.
    pub fn next_step(&self, cancelled: bool) -> (r: Step)
        requires
            self.wf(),
        ensures
            self.done == self.size ==> r == Step::Complete,
            self.done < self.size && cancelled ==> r == (Step::Cancelled { discard_output: true }),
            self.done < self.size && !cancelled ==> r == Step::Transfer(
                chunk_len(self.size as int, self.done as int) as usize,
            ),
    {
        if self.done == self.size {
            Step::Complete
        } else if cancelled {
            Step::Cancelled { discard_output: true }
        } else {
            let left = self.size - self.done;
            if left < CHUNK_SIZE as u64 {
                Step::Transfer(left as usize)
            } else {
                Step::Transfer(CHUNK_SIZE)
            }
        }
    }

    /// Takes the `len` device bytes that the caller has read into
    /// `buffer[start..start + len]` and returns exactly those bytes for the image file:
    /// whatever else the buffer holds never reaches the image.
    pub fn capture<'a>(&mut self, buffer: &'a Vec<u8>, start: usize, len: usize) -> (r: &'a [u8])
        requires
            old(self).wf(),
            old(self).done < old(self).size,
            len == chunk_len(old(self).size as int, old(self).done as int),
            start + len <= buffer@.len(),
        ensures
            final(self).wf(),
            r@ == buffer@.subrange(start as int, start + len),
            final(self).size == old(self).size,
            final(self).done == old(self).done + len,
            final(self).image@ == old(self).image@ + r@,
    {
        let buffer_len = buffer.len();
        assert(start + len <= buffer_len);
        let out = slice_subrange(buffer.as_slice(), start, start + len);
        self.done = self.done + len as u64;
        self.image = Ghost(self.image@ + out@);
        out
    }
}

} // verus!
