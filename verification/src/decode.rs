//! The frame decoder: reads an animated GIF container from a byte buffer and
//! produces the ordered sequence of fully decoded RGBA frames.
//!
//! The container parsing itself is done by the `gif` crate; this module owns
//! the decode loop and the per-frame size check, both verified against the
//! names `gif_frames` and `gif_clean` for what the parser yields.

use vstd::prelude::*;

use crate::frame::Frame;

verus! {

/// A decode failure. Parser errors are not classified further: any failure of
/// the underlying container parser is surfaced as `Container`.
#[derive(Clone, Copy, Debug, PartialEq, Eq, Structural)]
pub enum DecodeError {
    /// The container stream is empty, truncated or otherwise malformed.
    Container,
    /// A frame's pixel byte count does not match `width * height * 4`.
    FrameSize,
}

/// The frames that the GIF parser yields for this byte stream, in order, as
/// `(width, height, RGBA bytes)` triples, when asked for full RGBA output.
/// The parser is deterministic, so this is a function of the bytes alone.
pub uninterp spec fn gif_frames(data: Seq<u8>) -> Seq<(u16, u16, Seq<u8>)>;

/// Whether the GIF parser, after yielding all of `gif_frames(data)`, reaches
/// a clean end of the container rather than a parse error.
pub uninterp spec fn gif_clean(data: Seq<u8>) -> bool;

/// The `gif` crate's decoder over an in-memory byte buffer, opaque to the
/// verifier: the decoder type cannot be declared here because its type
/// parameter is bound by `std::io::Read`.
#[verifier::external_body]
struct GifStream {
    inner: gif::Decoder<std::io::Cursor<Vec<u8>>>,
}

/// An open container stream, together with how far into `gif_frames(bytes@)`
/// the underlying parser has read.
struct GifDecoder {
    stream: GifStream,
    /// The bytes the decoder was opened over.
    bytes: Ghost<Seq<u8>>,
    /// How many frames have been read so far.
    read: Ghost<nat>,
    /// Whether the stream has ended (cleanly or with an error).
    done: Ghost<bool>,
}

/// Relies on `gif::DecodeOptions::read_info` with `ColorOutput::RGBA`: it
/// reads the container header and fails on an empty or malformed stream, in
/// which case the parser yields no frames at all.
#[verifier::external_body]
fn open_decoder(data: Vec<u8>) -> (r: Result<GifStream, DecodeError>)
    ensures
        match r {
            Ok(_) => data@.len() > 0,
            Err(e) => {
                &&& !gif_clean(data@)
                &&& gif_frames(data@).len() == 0
                &&& e == DecodeError::Container
            },
        },
{
    let mut opts = gif::DecodeOptions::new();
    opts.set_color_output(gif::ColorOutput::RGBA);
    match opts.read_info(std::io::Cursor::new(data)) {
        Ok(d) => Ok(GifStream { inner: d }),
        Err(_) => Err(DecodeError::Container),
    }
}

/// Relies on `gif::Decoder::read_next_frame`: called in sequence it yields
/// exactly the parser's frames, then `Ok(None)` on a clean end of the
/// container or an error on a truncated or corrupt one.
#[verifier::external_body]
fn next_frame(d: &mut GifDecoder) -> (r: Result<Option<(u16, u16, Vec<u8>)>, DecodeError>)
    requires
        !old(d).done@,
    ensures
        final(d).bytes@ == old(d).bytes@,
        match r {
            Ok(Some(f)) => {
                &&& old(d).read@ < gif_frames(old(d).bytes@).len()
                &&& gif_frames(old(d).bytes@)[old(d).read@ as int] == (f.0, f.1, f.2@)
                &&& final(d).read@ == old(d).read@ + 1
                &&& !final(d).done@
            },
            Ok(None) => {
                &&& old(d).read@ == gif_frames(old(d).bytes@).len()
                &&& gif_clean(old(d).bytes@)
                &&& final(d).read@ == old(d).read@
                &&& final(d).done@
            },
            Err(e) => {
                &&& old(d).read@ == gif_frames(old(d).bytes@).len()
                &&& !gif_clean(old(d).bytes@)
                &&& e == DecodeError::Container
                &&& final(d).read@ == old(d).read@
                &&& final(d).done@
            },
        },
{
    match d.stream.inner.read_next_frame() {
        Ok(Some(frame)) => Ok(Some((frame.width, frame.height, frame.buffer.to_vec()))),
        Ok(None) => Ok(None),
        Err(_) => Err(DecodeError::Container),
    }
}

/// Whether frame `i` of the parsed container carries exactly four bytes per
/// pixel.
pub open spec fn frame_sized(data: Seq<u8>, i: int) -> bool {
    gif_frames(data)[i].2.len() == gif_frames(data)[i].0 * gif_frames(data)[i].1 * 4
}

/// Decodes a whole animated GIF container into its frame sequence.
///
/// Succeeds exactly when the parser reaches a clean end of the container and
/// every frame carries exactly `width * height * 4` pixel bytes; the result
/// then holds one well-formed `Frame` per container frame, in order.
pub fn decode_gif(data: Vec<u8>) -> (r: Result<Vec<Frame>, DecodeError>)
    ensures
        r is Ok <==> gif_clean(data@) && (forall|i: int|
            0 <= i < gif_frames(data@).len() ==> frame_sized(data@, i)),
        match r {
            Ok(frames) => {
                &&& frames@.len() == gif_frames(data@).len()
                &&& forall|i: int|
                    0 <= i < frames@.len() ==> {
                        &&& #[trigger] frames@[i].wf()
                        &&& frames@[i].width == gif_frames(data@)[i].0
                        &&& frames@[i].height == gif_frames(data@)[i].1
                        &&& frames@[i].pixels@ == gif_frames(data@)[i].2
                    }
            },
            Err(e) => {
                &&& e == DecodeError::Container ==> !gif_clean(data@)
                &&& e == DecodeError::FrameSize ==> exists|i: int|
                    0 <= i < gif_frames(data@).len() && !frame_sized(data@, i)
            },
        },
        data@.len() == 0 ==> r is Err,
{
    let ghost bytes = data@;
    let mut d = match open_decoder(data) {
        Ok(stream) => GifDecoder {
            stream,
            bytes: Ghost(bytes),
            read: Ghost(0nat),
            done: Ghost(false),
        },
        Err(e) => {
            return Err(e);
        },
    };
    let mut frames: Vec<Frame> = Vec::new();
    loop
        invariant
            bytes == data@,
            data@.len() > 0,
            d.bytes@ == bytes,
            !d.done@,
            d.read@ == frames@.len(),
            d.read@ <= gif_frames(bytes).len(),
            forall|i: int|
                0 <= i < frames@.len() ==> {
                    &&& #[trigger] frames@[i].wf()
                    &&& frames@[i].width == gif_frames(bytes)[i].0
                    &&& frames@[i].height == gif_frames(bytes)[i].1
                    &&& frames@[i].pixels@ == gif_frames(bytes)[i].2
                },
        decreases gif_frames(bytes).len() - d.read@,
    {
        match next_frame(&mut d) {
            Ok(Some(raw)) => {
                let (w, h, buf) = raw;
                let ghost at = frames@.len() as int;
                match Frame::new(w, h, buf) {
                    Some(f) => {
                        frames.push(f);
                    },
                    None => {
                        assert(!frame_sized(data@, at));
                        return Err(DecodeError::FrameSize);
                    },
                }
            },
            Ok(None) => {
                assert forall|i: int|
                    0 <= i < gif_frames(data@).len() implies frame_sized(data@, i) by {
                    assert(frames@[i].wf());
                }
                return Ok(frames);
            },
            Err(e) => {
                return Err(e);
            },
        }
    }
}

} // verus!
