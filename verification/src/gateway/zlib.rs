//! Reassembly and inflation of a zlib-compressed gateway stream.
//!
//! The gateway sends one zlib stream over the whole connection; each
//! message of it ends with a sync flush, whose last four bytes are the
//! marker `00 00 ff ff`. Frames are gathered until that marker arrives,
//! and then inflated in one go.
use vstd::prelude::*;

use flate2::{Decompress, DecompressError, FlushDecompress};

verus! {

#[verifier::external_type_specification]
#[verifier::external_body]
pub struct ExDecompress(Decompress);

#[verifier::external_type_specification]
#[verifier::external_body]
pub struct ExDecompressError(DecompressError);

/// The flush mode handed to the inflater.
#[derive(Clone, Copy, Debug, PartialEq, Eq, Structural)]
pub enum Flush {
    NoFlush,
    Sync,
    Finish,
}

/// Creates an inflater, `flate2::Decompress::new`. With `zlib_header` set
/// it expects the stream to start with a zlib header. Nothing is claimed of
/// the inflater's internal state.
#[verifier::external_body]
fn new_decompress(zlib_header: bool) -> Decompress {
    Decompress::new(zlib_header)
}

/// The number of input bytes that the inflater has consumed so far,
/// `flate2::Decompress::total_in`. It depends on every earlier call on the
/// inflater, which Verus does not see, so nothing is claimed of it.
#[verifier::external_body]
fn decompress_total_in(d: &Decompress) -> u64 {
    d.total_in()
}

/// Inflates `input` into the spare capacity of `output`,
/// `flate2::Decompress::decompress_vec`. The crate's source only ever
/// raises the length of `output` by the number of bytes written into the
/// capacity that it already had, so the old contents stay in front. How
/// many bytes are written, and which, depends on the inflater's state:
/// that is left unsaid.
#[verifier::external_body]
fn decompress_vec(d: &mut Decompress, input: &[u8], output: &mut Vec<u8>, flush: Flush) -> (r: Result<(), DecompressError>)
    ensures
        old(output)@.len() <= final(output)@.len(),
        final(output)@.subrange(0, old(output)@.len() as int) == old(output)@,
{
    let mode = match flush {
        Flush::NoFlush => FlushDecompress::None,
        Flush::Sync => FlushDecompress::Sync,
        Flush::Finish => FlushDecompress::Finish,
    };
    match d.decompress_vec(input, output, mode) {
        Ok(_) => Ok(()),
        Err(e) => Err(e),
    }
}

/// The marker that ends every message of the stream.
pub open spec fn zlib_suffix() -> Seq<u8> {
    seq![0x00u8, 0x00u8, 0xffu8, 0xffu8]
}

/// Whether `s` ends with the stream's message marker.
pub open spec fn ends_with_zlib_suffix(s: Seq<u8>) -> bool {
    s.len() >= 4 && s.subrange(s.len() - 4, s.len() as int) == zlib_suffix()
}

/// The capacity reserved for each of the three buffers.
pub const BUFFER_SIZE: usize = 16384;

/// The most calls of the inflater that one `consume` makes. Each call
/// either consumes input or writes output, so far fewer are ever needed.
pub const MAX_INFLATE_CALLS: usize = usize::MAX;

/// One call of the inflater during a `consume`: where in the gathered data
/// its input starts, the input handed to it, the inflater's count of
/// consumed input after the call, the bytes it wrote, and the inflater
/// before and after the call.
pub struct Feed {
    pub start: int,
    pub input: Seq<u8>,
    pub total_in: u64,
    pub output: Seq<u8>,
    pub before: Decompress,
    pub after: Decompress,
}

/// The record of the last `consume` of a complete message: the gathered
/// data, the inflater's count of consumed input before the first call, the
/// calls in order, and whether the last call failed.
pub struct FeedLog {
    pub message: Seq<u8>,
    pub begin: u64,
    pub feeds: Seq<Feed>,
    pub failed: bool,
}

/// How much of the gathered data the inflater has consumed, given its
/// count before and after: the difference, or 0 where the difference does
/// not fit in a `usize` (or the count went back).
pub open spec fn consumed_since(begin: u64, total_in: u64) -> int {
    let d: int = if begin <= total_in {
        total_in - begin
    } else {
        0
    };
    if d <= usize::MAX {
        d
    } else {
        0
    }
}

/// Where the next call of the inflater starts, after a call that started
/// at `offset` and wrote `wrote` bytes: where the inflater stopped, while
/// input remains; `None` once all `len` bytes are consumed, or when the
/// call neither consumed input nor wrote output.
pub open spec fn next_offset_spec(begin: u64, total_in: u64, offset: int, len: int, wrote: int) -> Option<int> {
    let c = consumed_since(begin, total_in);
    if c >= len {
        None
    } else if c == offset && wrote == 0 {
        None
    } else {
        Some(c)
    }
}

/// Where the next call of the inflater starts, as [`next_offset_spec`]
/// says.
pub fn next_offset(begin: u64, total_in: u64, offset: usize, len: usize, wrote: usize) -> (r: Option<usize>)
    ensures
        r is None <==> next_offset_spec(begin, total_in, offset as int, len as int, wrote as int) is None,
        r matches Some(n) ==> next_offset_spec(begin, total_in, offset as int, len as int, wrote as int) == Some(n as int),
{
    let d: u64 = total_in.saturating_sub(begin);
    let c: usize = if d <= usize::MAX as u64 {
        d as usize
    } else {
        0
    };
    if c >= len {
        None
    } else if c == offset && wrote == 0 {
        None
    } else {
        Some(c)
    }
}

/// The calls of a log follow one another over its message: the first
/// starts at the beginning, each is handed the message from its start to
/// the end, and each after the first starts where [`next_offset_spec`]
/// says after the one before.
pub open spec fn feeds_follow(log: FeedLog) -> bool {
    let n = log.message.len() as int;
    &&& log.feeds.len() >= 1
    &&& log.feeds[0].start == 0
    &&& forall|k: int|
        0 <= k < log.feeds.len() ==> 0 <= #[trigger] log.feeds[k].start < n && log.feeds[k].input == log.message.subrange(
            log.feeds[k].start,
            n,
        )
    &&& forall|k: int|
        0 <= k < log.feeds.len() - 1 ==> next_offset_spec(
            log.begin,
            #[trigger] log.feeds[k].total_in,
            log.feeds[k].start,
            n,
            log.feeds[k].output.len() as int,
        ) == Some(log.feeds[k + 1].start)
}

/// The calls were made, one after the other, on one inflater: the first on
/// `start`, each later one on the inflater that the call before left, and
/// the last left `end`.
pub open spec fn inflater_chain(feeds: Seq<Feed>, start: Decompress, end: Decompress) -> bool {
    &&& feeds.len() >= 1
    &&& feeds[0].before == start
    &&& forall|k: int| 0 <= k < feeds.len() - 1 ==> #[trigger] feeds[k + 1].before == feeds[k].after
    &&& feeds.last().after == end
}

/// The calls of a log ended as they should: the last one did not fail, and
/// after it there is nothing more to do (or the call limit was reached).
pub open spec fn feeds_finished(log: FeedLog) -> bool {
    let last = log.feeds.last();
    &&& !log.failed
    &&& (next_offset_spec(log.begin, last.total_in, last.start, log.message.len() as int, last.output.len() as int) is None
        || log.feeds.len() == MAX_INFLATE_CALLS)
}

/// The bytes that a sequence of calls wrote, in order.
pub open spec fn outputs(feeds: Seq<Feed>) -> Seq<u8>
    decreases feeds.len(),
{
    if feeds.len() == 0 {
        Seq::empty()
    } else {
        outputs(feeds.drop_last()) + feeds.last().output
    }
}

/// The bytes of a log that were added to the inflated data: those of every
/// call that succeeded.
pub open spec fn produced(log: FeedLog) -> Seq<u8> {
    if log.failed {
        outputs(log.feeds.drop_last())
    } else {
        outputs(log.feeds)
    }
}

/// A buffer that gathers compressed frames and inflates them once a
/// complete message has arrived.
pub struct ZlibBuffer {
    /// Compressed data not yet inflated.
    buffer: Vec<u8>,
    /// Scratch space for each chunk that the inflater produces.
    decode_buffer: Vec<u8>,
    /// Inflated data.
    output_buffer: Vec<u8>,
    /// The inflater, which keeps its state over the whole stream.
    decompressor: Decompress,
    /// What the last `consume` of a complete message handed the inflater.
    log: Ghost<FeedLog>,
}

impl ZlibBuffer {
    /// The compressed bytes gathered and not yet cleared.
    pub closed spec fn pending(&self) -> Seq<u8> {
        self.buffer@
    }

    /// The inflated bytes gathered and not yet cleared.
    pub closed spec fn inflated(&self) -> Seq<u8> {
        self.output_buffer@
    }

    /// The scratch space that each call of the inflater writes into.
    pub closed spec fn scratch(&self) -> Seq<u8> {
        self.decode_buffer@
    }

    /// The inflater.
    pub closed spec fn decompressor(&self) -> Decompress {
        self.decompressor
    }

    /// The record of the last `consume` of a complete message.
    pub closed spec fn feed_log(&self) -> FeedLog {
        self.log@
    }

    /// An empty buffer with a fresh inflater that expects a zlib header.
    pub fn new() -> (z: ZlibBuffer)
        ensures
            z.pending() == Seq::<u8>::empty(),
            z.inflated() == Seq::<u8>::empty(),
            z.scratch() == Seq::<u8>::empty(),
            z.feed_log().feeds == Seq::<Feed>::empty(),
    {
        ZlibBuffer {
            buffer: Vec::with_capacity(BUFFER_SIZE),
            decode_buffer: Vec::with_capacity(BUFFER_SIZE),
            output_buffer: Vec::with_capacity(BUFFER_SIZE),
            decompressor: new_decompress(true),
            log: Ghost(FeedLog { message: Seq::empty(), begin: 0, feeds: Seq::empty(), failed: false }),
        }
    }

    /// Appends a frame of compressed data.
    pub fn extend(&mut self, slice: &[u8])
        ensures
            final(self).pending() == old(self).pending() + slice@,
            final(self).inflated() == old(self).inflated(),
            final(self).decompressor() == old(self).decompressor(),
            final(self).feed_log() == old(self).feed_log(),
    {
        self.buffer.extend_from_slice(slice);
        assert(self.buffer@ =~= old(self).buffer@ + slice@);
    }

    /// Whether the gathered data ends with the message marker.
    pub fn has_complete_message(&self) -> (r: bool)
        ensures
            r == ends_with_zlib_suffix(self.pending()),
    {
        let len = self.buffer.len();
        if len < 4 {
            return false;
        }
        let r = self.buffer[len - 4] == 0x00 && self.buffer[len - 3] == 0x00
            && self.buffer[len - 2] == 0xff && self.buffer[len - 1] == 0xff;
        assert(r == (self.buffer@.subrange(len - 4, len as int) =~= zlib_suffix()));
        r
    }

    /// When the gathered data ends with the message marker, inflates all of
    /// it and returns everything inflated since the last clear; otherwise
    /// returns `None` and changes nothing, the inflater included.
    ///
    /// The gathered data is handed to the inflater from its start, with a
    /// sync flush; each further call is handed the data from where the
    /// inflater stopped, until all of it is consumed or a call neither
    /// consumes nor writes anything. Each call's output is appended to the
    /// inflated data; an error of the inflater ends the calls and is
    /// returned. Every call is made on the buffer's own inflater, which
    /// carries the stream's state from one message to the next. The calls
    /// are recorded in [`ZlibBuffer::feed_log`]. The compressed data is kept
    /// until [`ZlibBuffer::clear`].
    pub fn consume(&mut self) -> (r: Result<Option<&[u8]>, DecompressError>)
        ensures
            final(self).pending() == old(self).pending(),
            !ends_with_zlib_suffix(old(self).pending()) ==> r is Ok && r->Ok_0 is None && *final(self) == *old(self),
            ends_with_zlib_suffix(old(self).pending()) ==> {
                &&& final(self).feed_log().message == old(self).pending()
                &&& feeds_follow(final(self).feed_log())
                &&& inflater_chain(final(self).feed_log().feeds, old(self).decompressor(), final(self).decompressor())
                &&& final(self).inflated() == old(self).inflated() + produced(final(self).feed_log())
                &&& match r {
                    Ok(Some(out)) => feeds_finished(final(self).feed_log()) && out@ == final(self).inflated(),
                    Ok(None) => false,
                    Err(_) => final(self).feed_log().failed,
                }
            },
    {
        if !self.has_complete_message() {
            return Ok(None);
        }
        let len = self.buffer.len();
        let begin = decompress_total_in(&self.decompressor);
        self.log = Ghost(FeedLog { message: self.buffer@, begin, feeds: Seq::empty(), failed: false });
        let mut offset: usize = 0;
        let mut calls: usize = 0;
        let mut done = false;
        while !done
            invariant
                len == self.buffer@.len(),
                self.buffer@ == old(self).buffer@,
                ends_with_zlib_suffix(self.buffer@),
                self.log@.message == self.buffer@,
                self.log@.begin == begin,
                !self.log@.failed,
                calls == self.log@.feeds.len(),
                self.output_buffer@ == old(self).output_buffer@ + outputs(self.log@.feeds),
                calls == 0 ==> !done && offset == 0,
                calls > 0 ==> feeds_follow(self.log@),
                calls > 0 ==> inflater_chain(self.log@.feeds, old(self).decompressor, self.decompressor),
                calls == 0 ==> self.decompressor == old(self).decompressor,
                !done ==> offset < len && calls < MAX_INFLATE_CALLS,
                !done && calls > 0 ==> next_offset_spec(
                    begin,
                    self.log@.feeds.last().total_in,
                    self.log@.feeds.last().start,
                    len as int,
                    self.log@.feeds.last().output.len() as int,
                ) == Some(offset as int),
                done ==> feeds_finished(self.log@),
            decreases MAX_INFLATE_CALLS - calls, if done { 0int } else { 1int },
        {
            self.decode_buffer.clear();
            let input = self.buffer.as_slice();
            let slice = &input[offset..len];
            let ghost inflater_before = self.decompressor;
            let r = decompress_vec(&mut self.decompressor, slice, &mut self.decode_buffer, Flush::Sync);
            let ghost prev = self.log@;
            if let Err(e) = r {
                let ghost feed = Feed {
                    start: offset as int,
                    input: slice@,
                    total_in: 0,
                    output: Seq::empty(),
                    before: inflater_before,
                    after: self.decompressor,
                };
                self.log = Ghost(FeedLog { feeds: prev.feeds.push(feed), failed: true, ..prev });
                proof {
                    assert(self.log@.feeds.drop_last() =~= prev.feeds);
                }
                return Err(e);
            }
            let total = decompress_total_in(&self.decompressor);
            let wrote = self.decode_buffer.len();
            let ghost feed = Feed {
                start: offset as int,
                input: slice@,
                total_in: total,
                output: self.decode_buffer@,
                before: inflater_before,
                after: self.decompressor,
            };
            self.log = Ghost(FeedLog { feeds: prev.feeds.push(feed), ..prev });
            let ghost before = self.output_buffer@;
            self.output_buffer.extend_from_slice(self.decode_buffer.as_slice());
            proof {
                assert(self.log@.feeds.drop_last() =~= prev.feeds);
                assert(self.output_buffer@ =~= old(self).output_buffer@ + outputs(self.log@.feeds));
            }
            calls = calls + 1;
            match next_offset(begin, total, offset, len, wrote) {
                Some(n) => {
                    offset = n;
                    if calls == MAX_INFLATE_CALLS {
                        done = true;
                    }
                },
                None => {
                    done = true;
                },
            }
        }
        Ok(Some(self.output_buffer.as_slice()))
    }

    /// Drops all gathered compressed and inflated data; the inflater keeps
    /// its state, as the stream goes on.
    pub fn clear(&mut self)
        ensures
            final(self).pending() == Seq::<u8>::empty(),
            final(self).inflated() == Seq::<u8>::empty(),
            final(self).scratch() == Seq::<u8>::empty(),
            final(self).decompressor() == old(self).decompressor(),
            final(self).feed_log() == old(self).feed_log(),
    {
        self.buffer.clear();
        self.decode_buffer.clear();
        self.output_buffer.clear();
    }
}

} // verus!
