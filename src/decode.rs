//! The decompression front-end's decoders: compressed bytes are fed in chunks, and
//! the decoded bytes come back as they become available.
use vstd::prelude::*;

use crate::image::ImageFormat;

verus! {

/// The content of the single gzip member that `input` holds.
pub uninterp spec fn gunzip_of(input: Seq<u8>) -> Seq<u8>;

/// The content of the single xz stream that `input` holds.
pub uninterp spec fn unxz_of(input: Seq<u8>) -> Seq<u8>;

/// The content of the zstd frames that `input` holds.
pub uninterp spec fn unzstd_of(input: Seq<u8>) -> Seq<u8>;

/// A gzip decoder fed `input` from its start accepts every byte of it: `input` is a
/// prefix of a gzip member, possibly the whole member.
pub uninterp spec fn gzip_accepts(input: Seq<u8>) -> bool;

/// A gzip decoder fed exactly `input` can be finished: `input` is one whole gzip
/// member, whose CRC and length match its content.
pub uninterp spec fn gzip_complete(input: Seq<u8>) -> bool;

/// An xz decoder fed `input` from its start accepts every byte of it.
pub uninterp spec fn xz_accepts(input: Seq<u8>) -> bool;

/// An xz decoder fed exactly `input` can be finished: `input` is one whole xz stream.
pub uninterp spec fn xz_complete(input: Seq<u8>) -> bool;

/// A zstd decoder fed `input` from its start accepts every byte of it.
pub uninterp spec fn zstd_accepts(input: Seq<u8>) -> bool;

/// A zstd decoder fed exactly `input` can be finished: `input` is one or more whole
/// zstd frames.
pub uninterp spec fn zstd_complete(input: Seq<u8>) -> bool;

/// The compressed bytes a gzip stream has accepted, in order.
pub uninterp spec fn gzip_fed(d: GzipStream) -> Seq<u8>;

/// The decoded bytes a gzip stream has handed out, in order.
pub uninterp spec fn gzip_emitted(d: GzipStream) -> Seq<u8>;

/// The compressed bytes an xz stream has accepted, in order.
pub uninterp spec fn xz_fed(d: XzStream) -> Seq<u8>;

/// The decoded bytes an xz stream has handed out, in order.
pub uninterp spec fn xz_emitted(d: XzStream) -> Seq<u8>;

/// The compressed bytes a zstd stream has accepted, in order.
pub uninterp spec fn zstd_fed(d: ZstdStream) -> Seq<u8>;

/// The decoded bytes a zstd stream has handed out, in order.
pub uninterp spec fn zstd_emitted(d: ZstdStream) -> Seq<u8>;

/// Why decoding failed.
#[derive(Debug, Clone, Copy, PartialEq, Eq, Structural)]
pub enum DecodeError {
    /// The decoder could not be set up.
    Setup,
    /// The decoder rejected the compressed input.
    Malformed,
}

/// A gzip decoder writing into memory.
#[verifier::external_body]
pub struct GzipStream {
    inner: flate2::write::GzDecoder<Vec<u8>>,
}

impl GzipStream {
    /// Relies on flate2's `write::GzDecoder::new`: a decoder that has seen nothing.
    #[verifier::external_body]
    pub(crate) fn new() -> (r: GzipStream)
        ensures
            gzip_fed(r) == Seq::<u8>::empty(),
            gzip_emitted(r) == Seq::<u8>::empty(),
            gzip_accepts(gzip_fed(r)),
    {
        GzipStream { inner: flate2::write::GzDecoder::new(Vec::new()) }
    }

    /// Relies on `write_all` of flate2's `write::GzDecoder`, then takes the output it
    /// wrote so far out of its writer (`get_mut`).
    #[verifier::external_body]
    pub(crate) fn feed(&mut self, chunk: &[u8]) -> (r: Result<Vec<u8>, DecodeError>)
        requires
            gzip_accepts(gzip_fed(*old(self))),
        ensures
            r is Ok <==> gzip_accepts(gzip_fed(*old(self)) + chunk@),
            r is Ok ==> gzip_fed(*final(self)) == gzip_fed(*old(self)) + chunk@,
            match r {
                Ok(out) => gzip_emitted(*final(self)) == gzip_emitted(*old(self)) + out@,
                Err(e) => e == DecodeError::Malformed,
            },
    {
        match std::io::Write::write_all(&mut self.inner, chunk) {
            Ok(()) => Ok(std::mem::take(self.inner.get_mut())),
            Err(_) => Err(DecodeError::Malformed),
        }
    }

    /// Relies on flate2's `write::GzDecoder::finish`, which checks the member's CRC and
    /// length and returns the output not yet taken.
    #[verifier::external_body]
    pub(crate) fn finish(self) -> (r: Result<Vec<u8>, DecodeError>)
        requires
            gzip_accepts(gzip_fed(self)),
        ensures
            r is Ok <==> gzip_complete(gzip_fed(self)),
            match r {
                Ok(rest) => gunzip_of(gzip_fed(self)) == gzip_emitted(self) + rest@,
                Err(e) => e == DecodeError::Malformed,
            },
    {
        match self.inner.finish() {
            Ok(rest) => Ok(rest),
            Err(_) => Err(DecodeError::Malformed),
        }
    }
}

/// An xz decoder writing into memory.
#[verifier::external_body]
pub struct XzStream {
    inner: xz2::write::XzDecoder<Vec<u8>>,
}

impl XzStream {
    /// Relies on xz2's `write::XzDecoder::new`: a decoder that has seen nothing.
    #[verifier::external_body]
    pub(crate) fn new() -> (r: XzStream)
        ensures
            xz_fed(r) == Seq::<u8>::empty(),
            xz_emitted(r) == Seq::<u8>::empty(),
            xz_accepts(xz_fed(r)),
    {
        XzStream { inner: xz2::write::XzDecoder::new(Vec::new()) }
    }

    /// Relies on `write_all` of xz2's `write::XzDecoder`, then takes the output it
    /// wrote so far out of its writer (`get_mut`).
    #[verifier::external_body]
    pub(crate) fn feed(&mut self, chunk: &[u8]) -> (r: Result<Vec<u8>, DecodeError>)
        requires
            xz_accepts(xz_fed(*old(self))),
        ensures
            r is Ok <==> xz_accepts(xz_fed(*old(self)) + chunk@),
            r is Ok ==> xz_fed(*final(self)) == xz_fed(*old(self)) + chunk@,
            match r {
                Ok(out) => xz_emitted(*final(self)) == xz_emitted(*old(self)) + out@,
                Err(e) => e == DecodeError::Malformed,
            },
    {
        match std::io::Write::write_all(&mut self.inner, chunk) {
            Ok(()) => Ok(std::mem::take(self.inner.get_mut())),
            Err(_) => Err(DecodeError::Malformed),
        }
    }

    /// Relies on xz2's `write::XzDecoder::finish`, which fails on a truncated stream
    /// and returns the output not yet taken.
    #[verifier::external_body]
    pub(crate) fn finish(self) -> (r: Result<Vec<u8>, DecodeError>)
        requires
            xz_accepts(xz_fed(self)),
        ensures
            r is Ok <==> xz_complete(xz_fed(self)),
            match r {
                Ok(rest) => unxz_of(xz_fed(self)) == xz_emitted(self) + rest@,
                Err(e) => e == DecodeError::Malformed,
            },
    {
        let mut inner = self.inner;
        match inner.finish() {
            Ok(rest) => Ok(rest),
            Err(_) => Err(DecodeError::Malformed),
        }
    }
}

/// A zstd decoder writing into memory.
#[verifier::external_body]
pub struct ZstdStream {
    inner: zstd::stream::zio::Writer<Vec<u8>, zstd::stream::raw::Decoder<'static>>,
}

impl ZstdStream {
    /// Relies on zstd's `raw::Decoder::new`, which fails only where no decoding context
    /// can be made, and on `zio::Writer::new`: a decoder that has seen nothing.
    #[verifier::external_body]
    pub(crate) fn new() -> (r: Result<ZstdStream, DecodeError>)
        ensures
            match r {
                Ok(d) => zstd_fed(d) == Seq::<u8>::empty() && zstd_emitted(d) == Seq::<u8>::empty()
                    && zstd_accepts(zstd_fed(d)),
                Err(e) => e == DecodeError::Setup,
            },
    {
        match zstd::stream::raw::Decoder::new() {
            Ok(op) => Ok(ZstdStream { inner: zstd::stream::zio::Writer::new(Vec::new(), op) }),
            Err(_) => Err(DecodeError::Setup),
        }
    }

    /// Relies on `write_all` of zstd's `zio::Writer` over a `raw::Decoder`, then takes
    /// the output it wrote so far out of its writer (`writer_mut`).
    #[verifier::external_body]
    pub(crate) fn feed(&mut self, chunk: &[u8]) -> (r: Result<Vec<u8>, DecodeError>)
        requires
            zstd_accepts(zstd_fed(*old(self))),
        ensures
            r is Ok <==> zstd_accepts(zstd_fed(*old(self)) + chunk@),
            r is Ok ==> zstd_fed(*final(self)) == zstd_fed(*old(self)) + chunk@,
            match r {
                Ok(out) => zstd_emitted(*final(self)) == zstd_emitted(*old(self)) + out@,
                Err(e) => e == DecodeError::Malformed,
            },
    {
        match std::io::Write::write_all(&mut self.inner, chunk) {
            Ok(()) => Ok(std::mem::take(self.inner.writer_mut())),
            Err(_) => Err(DecodeError::Malformed),
        }
    }

    /// Relies on `finish` of zstd's `zio::Writer` over a `raw::Decoder`, which fails
    /// on an incomplete frame, and on `into_inner` for the output not yet taken.
    #[verifier::external_body]
    pub(crate) fn finish(self) -> (r: Result<Vec<u8>, DecodeError>)
        requires
            zstd_accepts(zstd_fed(self)),
        ensures
            r is Ok <==> zstd_complete(zstd_fed(self)),
            match r {
                Ok(rest) => unzstd_of(zstd_fed(self)) == zstd_emitted(self) + rest@,
                Err(e) => e == DecodeError::Malformed,
            },
    {
        let mut inner = self.inner;
        match inner.finish() {
            Ok(()) => Ok(inner.into_inner().0),
            Err(_) => Err(DecodeError::Malformed),
        }
    }
}

/// What decoding `input` in `format` gives; a plain image is its own content.
pub open spec fn decoded_of(format: ImageFormat, input: Seq<u8>) -> Seq<u8> {
    match format {
        ImageFormat::Plain => input,
        ImageFormat::Gzip => gunzip_of(input),
        ImageFormat::Xz => unxz_of(input),
        ImageFormat::Zstd => unzstd_of(input),
    }
}

/// A decoder for `format` accepts every byte of `input`.
pub open spec fn accepts_of(format: ImageFormat, input: Seq<u8>) -> bool {
    match format {
        ImageFormat::Plain => true,
        ImageFormat::Gzip => gzip_accepts(input),
        ImageFormat::Xz => xz_accepts(input),
        ImageFormat::Zstd => zstd_accepts(input),
    }
}

/// `input` is a whole compressed image in `format`.
pub open spec fn complete_of(format: ImageFormat, input: Seq<u8>) -> bool {
    match format {
        ImageFormat::Plain => true,
        ImageFormat::Gzip => gzip_complete(input),
        ImageFormat::Xz => xz_complete(input),
        ImageFormat::Zstd => zstd_complete(input),
    }
}

/// The decoder of one compressed format.
pub enum Decoder {
    Gzip(GzipStream),
    Xz(XzStream),
    Zstd(ZstdStream),
}

/// Decoding one compressed image, chunk by chunk.
pub struct DecodeJob {
    pub decoder: Decoder,
    /// The compressed bytes fed so far.
    pub input: Ghost<Seq<u8>>,
    /// The decoded bytes handed out so far.
    pub output: Ghost<Seq<u8>>,
}

impl DecodeJob {
    /// The format this job decodes.
    pub open spec fn format(&self) -> ImageFormat {
        match self.decoder {
            Decoder::Gzip(_) => ImageFormat::Gzip,
            Decoder::Xz(_) => ImageFormat::Xz,
            Decoder::Zstd(_) => ImageFormat::Zstd,
        }
    }

    /// The decoder has accepted exactly `input` and handed out exactly `output`.
    pub open spec fn wf(&self) -> bool {
        &&& accepts_of(self.format(), self.input@)
        &&& match self.decoder {
            Decoder::Gzip(d) => gzip_fed(d) == self.input@ && gzip_emitted(d) == self.output@,
            Decoder::Xz(d) => xz_fed(d) == self.input@ && xz_emitted(d) == self.output@,
            Decoder::Zstd(d) => zstd_fed(d) == self.input@ && zstd_emitted(d) == self.output@,
        }
    }

    /// A job for an image in `format`; a plain image needs none.
    pub fn new(format: ImageFormat) -> (r: Result<Option<DecodeJob>, DecodeError>)
        ensures
            format == ImageFormat::Plain <==> r matches Ok(None),
            r is Err ==> format == ImageFormat::Zstd && r == Err::<Option<DecodeJob>, DecodeError>(DecodeError::Setup),
            match r {
                Ok(Some(job)) => job.wf() && job.format() == format && job.input@ == Seq::<u8>::empty()
                    && job.output@ == Seq::<u8>::empty(),
                _ => true,
            },
    {
        let decoder = match format {
            ImageFormat::Plain => {
                return Ok(None);
            },
            ImageFormat::Gzip => Decoder::Gzip(GzipStream::new()),
            ImageFormat::Xz => Decoder::Xz(XzStream::new()),
            ImageFormat::Zstd => match ZstdStream::new() {
                Ok(d) => Decoder::Zstd(d),
                Err(e) => {
                    return Err(e);
                },
            },
        };
        Ok(Some(DecodeJob { decoder, input: Ghost(Seq::empty()), output: Ghost(Seq::empty()) }))
    }

    /// Feeds the next chunk of compressed bytes; returns the bytes decoded from it
    /// that are ready. It fails exactly where the input so far is no longer the start
    /// of a compressed image; after that the job is spent.
    pub fn feed(&mut self, chunk: &[u8]) -> (r: Result<Vec<u8>, DecodeError>)
        requires
            old(self).wf(),
        ensures
            final(self).format() == old(self).format(),
            r is Ok <==> accepts_of(old(self).format(), old(self).input@ + chunk@),
            match r {
                Ok(out) => final(self).wf() && final(self).input@ == old(self).input@ + chunk@
                    && final(self).output@ == old(self).output@ + out@,
                Err(e) => e == DecodeError::Malformed,
            },
    {
        let r = match &mut self.decoder {
            Decoder::Gzip(d) => d.feed(chunk),
            Decoder::Xz(d) => d.feed(chunk),
            Decoder::Zstd(d) => d.feed(chunk),
        };
        if let Ok(out) = &r {
            self.input = Ghost(self.input@ + chunk@);
            self.output = Ghost(self.output@ + out@);
        }
        r
    }

    /// Ends the input; returns the decoded bytes not yet handed out. It succeeds
    /// exactly where everything fed is a whole compressed image, and then everything
    /// handed out, in order, is its decoding.
    pub fn finish(self) -> (r: Result<Vec<u8>, DecodeError>)
        requires
            self.wf(),
        ensures
            r is Ok <==> complete_of(self.format(), self.input@),
            match r {
                Ok(rest) => decoded_of(self.format(), self.input@) == self.output@ + rest@,
                Err(e) => e == DecodeError::Malformed,
            },
    {
        match self.decoder {
            Decoder::Gzip(d) => d.finish(),
            Decoder::Xz(d) => d.finish(),
            Decoder::Zstd(d) => d.finish(),
        }
    }
}

} // verus!
