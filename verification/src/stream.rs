//! The stream capability and its native in-memory realization.
//!
//! The engine consumes byte streams through the capability set
//! {read, seek, write, flush}.  A foreign caller realizes it with four
//! callbacks over an opaque context; that realization lives outside the
//! verified library, which only supplies the decision logic for it: the
//! seek-mode encoding and the negative-sentinel tests.  The library's own
//! realization is [`MemoryStream`], an in-memory buffer with exact
//! contracts, which the boundary entry points operate on.

use vstd::prelude::*;

verus! {

use vstd::math::min;

/// An opaque token for the state a foreign caller threads through its
/// stream callbacks.  The library never looks inside one.
#[derive(Debug)]
pub struct StreamContext {
    _priv: (),
}

/// Where a seek request is anchored.
#[derive(Debug, Clone, Copy, PartialEq, Eq, Structural)]
pub enum SeekMode {
    /// From the start of the stream.
    Start,
    /// From the current position.
    Current,
    /// From the end of the stream.
    End,
}

/// The integer code a seek callback receives for each anchor:
/// 0 from the start, 1 from the current position, 2 from the end.
pub fn seek_mode_code(mode: SeekMode) -> (c: i32)
    ensures
        mode is Start ==> c == 0,
        mode is Current ==> c == 1,
        mode is End ==> c == 2,
{
    match mode {
        SeekMode::Start => 0,
        SeekMode::Current => 1,
        SeekMode::End => 2,
    }
}

/// Interprets the signed count a read or write callback returned: a
/// negative value is the failure sentinel, any other value is a count.
pub fn callback_count(ret: isize) -> (r: Option<usize>)
    ensures
        ret >= 0 <==> r == Some(ret as usize),
        ret < 0 <==> r is None,
{
    if ret >= 0 {
        Some(ret as usize)
    } else {
        None
    }
}

/// The capability set the engine needs of a byte stream.
///
/// One realization is foreign-callback indirection, kept outside the
/// verified library; [`MemoryStream`] realizes it natively.
pub trait Stream {
    /// Reads at most `max_len` bytes from the current position.
    fn read(&mut self, max_len: usize) -> (r: Vec<u8>)
        ensures
            r@.len() <= max_len,
    ;

    /// Moves the current position; returns the new absolute position, or
    /// reports failure for a position that does not exist.
    fn seek(&mut self, mode: SeekMode, offset: i64) -> (r: Option<usize>);

    /// Writes all of `buf` at the current position; reports how many bytes
    /// were accepted, or failure.
    fn write(&mut self, buf: &[u8]) -> (r: Option<usize>);

    /// Forces any buffered bytes out; reports failure if they cannot go.
    fn flush(&mut self) -> (r: bool);
}

/// A sequence of `n` zero bytes.
pub open spec fn zeros(n: nat) -> Seq<u8> {
    Seq::new(n, |i: int| 0u8)
}

/// The buffer as it stands once the position is backed by storage: a
/// position past the end extends the buffer with zeros up to it.
pub open spec fn padded_to(data: Seq<u8>, pos: nat) -> Seq<u8> {
    if pos <= data.len() {
        data
    } else {
        data + zeros((pos - data.len()) as nat)
    }
}

/// The buffer after `buf` is written over `base` at `pos`: bytes before
/// `pos` stay, `buf` replaces what it overlaps, and anything of `base`
/// past the written range stays.
pub open spec fn spliced(base: Seq<u8>, pos: nat, buf: Seq<u8>) -> Seq<u8>
    recommends
        pos <= base.len(),
{
    if pos + buf.len() <= base.len() {
        base.take(pos as int) + buf + base.skip((pos + buf.len()) as int)
    } else {
        base.take(pos as int) + buf
    }
}

/// How far a read from `pos` with budget `max_len` reaches in a buffer of
/// length `len`.
pub open spec fn read_end(len: nat, pos: nat, max_len: nat) -> nat {
    if pos >= len {
        pos
    } else if pos + max_len <= len {
        pos + max_len
    } else {
        len
    }
}

/// An in-memory byte stream: a growable buffer and a position.
///
/// It mirrors the behaviour of a file opened for reading and writing:
/// reads stop at the end, writes overwrite and extend, seeking past the
/// end is allowed and a later write zero-fills the gap.
pub struct MemoryStream {
    data: Vec<u8>,
    pos: usize,
}

impl MemoryStream {
    /// The bytes the stream holds.
    pub closed spec fn data_spec(&self) -> Seq<u8> {
        self.data@
    }

    /// The current position.
    pub closed spec fn pos_spec(&self) -> nat {
        self.pos as nat
    }

    /// An empty stream positioned at the start.
    pub fn new() -> (r: MemoryStream)
        ensures
            r.data_spec() == Seq::<u8>::empty(),
            r.pos_spec() == 0,
    {
        MemoryStream { data: Vec::new(), pos: 0 }
    }

    /// A stream over `data`, positioned at the start.
    pub fn from_bytes(data: Vec<u8>) -> (r: MemoryStream)
        ensures
            r.data_spec() == data@,
            r.pos_spec() == 0,
    {
        MemoryStream { data, pos: 0 }
    }

    /// Gives up the stream and hands its buffer back.
    pub fn into_bytes(self) -> (r: Vec<u8>)
        ensures
            r@ == self.data_spec(),
    {
        self.data
    }

    /// The number of bytes the stream holds.
    pub fn len(&self) -> (r: usize)
        ensures
            r == self.data_spec().len(),
    {
        self.data.len()
    }

    /// The current position.
    pub fn pos(&self) -> (r: usize)
        ensures
            r == self.pos_spec(),
    {
        self.pos
    }

    /// An owned copy of all the bytes the stream holds, wherever the
    /// position stands.
    pub fn contents(&self) -> (r: Vec<u8>)
        ensures
            r@ == self.data_spec(),
    {
        crate::marshal::copy_bytes(self.data.as_slice())
    }

    /// Reads at most `max_len` bytes from the current position, advancing
    /// it past what was read.  At or past the end, nothing is read.
    pub fn read(&mut self, max_len: usize) -> (r: Vec<u8>)
        ensures
            final(self).data_spec() == old(self).data_spec(),
            final(self).pos_spec() == read_end(
                old(self).data_spec().len(),
                old(self).pos_spec(),
                max_len as nat,
            ),
            r@ == old(self).data_spec().subrange(
                min(old(self).pos_spec() as int, old(self).data_spec().len() as int),
                min(
                    read_end(old(self).data_spec().len(), old(self).pos_spec(), max_len as nat) as int,
                    old(self).data_spec().len() as int,
                ),
            ),
    {
        let mut out: Vec<u8> = Vec::new();
        let ghost p0 = self.pos as int;
        while out.len() < max_len && self.pos < self.data.len()
            invariant
                self.data@ == old(self).data@,
                p0 == old(self).pos as int,
                p0 <= self.pos as int <= self.data@.len() || self.pos as int == p0,
                out@.len() <= max_len,
                self.pos as int == p0 + out@.len() || (p0 > self.data@.len() && out@.len() == 0
                    && self.pos as int == p0),
                p0 <= self.data@.len() ==> out@ == self.data@.subrange(p0, self.pos as int),
            decreases self.data@.len() - self.pos as int,
        {
            out.push(self.data[self.pos]);
            self.pos = self.pos + 1;
        }
        proof {
            assert(out@ =~= old(self).data_spec().subrange(
                min(p0, self.data@.len() as int),
                min(self.pos as int, self.data@.len() as int),
            ));
        }
        out
    }

    /// Moves the position to an absolute offset computed from the anchor;
    /// fails on a negative target or one beyond what a position can hold,
    /// leaving the stream unchanged.
    pub fn seek(&mut self, mode: SeekMode, offset: i64) -> (r: Option<usize>)
        ensures
            ({
                let base: int = match mode {
                    SeekMode::Start => 0,
                    SeekMode::Current => old(self).pos_spec() as int,
                    SeekMode::End => old(self).data_spec().len() as int,
                };
                let target = base + offset;
                if 0 <= target <= usize::MAX {
                    r == Some(target as usize) && final(self).pos_spec() == target
                        && final(self).data_spec() == old(self).data_spec()
                } else {
                    r is None && *final(self) == *old(self)
                }
            }),
    {
        let base: usize = match mode {
            SeekMode::Start => 0,
            SeekMode::Current => self.pos,
            SeekMode::End => self.data.len(),
        };
        let target: i128 = base as i128 + offset as i128;
        if target < 0 || target > usize::MAX as i128 {
            None
        } else {
            self.pos = target as usize;
            Some(self.pos)
        }
    }

    /// Writes all of `buf` at the current position, overwriting what it
    /// overlaps and extending the buffer as needed; a gap left by an
    /// earlier seek past the end is filled with zeros.  The position ends
    /// just past the written bytes.
    pub fn write(&mut self, buf: &[u8]) -> (r: usize)
        requires
            old(self).pos_spec() + buf@.len() <= usize::MAX,
        ensures
            r == buf@.len(),
            final(self).pos_spec() == old(self).pos_spec() + buf@.len(),
            final(self).data_spec() == spliced(
                padded_to(old(self).data_spec(), old(self).pos_spec()),
                old(self).pos_spec(),
                buf@,
            ),
    {
        while self.data.len() < self.pos
            invariant
                self.pos == old(self).pos,
                old(self).data@.len() <= self.data@.len() <= self.pos as int || self.data@
                    == old(self).data@,
                self.data@ == padded_to(old(self).data@, self.data@.len() as nat).take(
                    self.data@.len() as int,
                ),
                self.data@.take(old(self).data@.len() as int) == old(self).data@ || self.data@
                    == old(self).data@,
            decreases self.pos as int - self.data@.len(),
        {
            self.data.push(0);
        }
        proof {
            assert(self.data@ =~= padded_to(old(self).data@, old(self).pos as nat));
        }
        let ghost b0 = self.data@;
        let ghost p0 = self.pos as int;
        let mut i: usize = 0;
        while i < buf.len()
            invariant
                b0 == padded_to(old(self).data@, old(self).pos as nat),
                p0 == old(self).pos as int,
                p0 <= b0.len(),
                p0 + buf@.len() <= usize::MAX,
                i <= buf@.len(),
                self.pos as int == p0 + i,
                self.pos as int <= self.data@.len(),
                self.data@ == spliced(b0, p0 as nat, buf@.take(i as int)),
            decreases buf@.len() - i,
        {
            let b = buf[i];
            let ghost before = self.data@;
            if self.pos < self.data.len() {
                self.data[self.pos] = b;
                proof {
                    assert(self.data@ =~= spliced(b0, p0 as nat, buf@.take(i as int + 1)));
                }
            } else {
                self.data.push(b);
                proof {
                    assert(self.data@ =~= spliced(b0, p0 as nat, buf@.take(i as int + 1)));
                }
            }
            self.pos = self.pos + 1;
            i = i + 1;
        }
        proof {
            assert(buf@.take(buf@.len() as int) =~= buf@);
        }
        buf.len()
    }

    /// Nothing is buffered, so there is nothing to force out.
    pub fn flush(&mut self) -> (r: bool)
        ensures
            r,
            *final(self) == *old(self),
    {
        true
    }
}

impl Stream for MemoryStream {
    fn read(&mut self, max_len: usize) -> (r: Vec<u8>) {
        let r = MemoryStream::read(self, max_len);
        proof {
            assert(r@.len() <= max_len);
        }
        r
    }

    fn seek(&mut self, mode: SeekMode, offset: i64) -> (r: Option<usize>) {
        MemoryStream::seek(self, mode, offset)
    }

    fn write(&mut self, buf: &[u8]) -> (r: Option<usize>) {
        if self.pos <= usize::MAX - buf.len() {
            Some(MemoryStream::write(self, buf))
        } else {
            None
        }
    }

    fn flush(&mut self) -> (r: bool) {
        MemoryStream::flush(self)
    }
}

/// The relation `write` leaves between a stream's old and new state when
/// it writes the bytes `b`.
pub open spec fn written_at(pre: MemoryStream, post: MemoryStream, b: Seq<u8>) -> bool {
    &&& post.data_spec() == spliced(padded_to(pre.data_spec(), pre.pos_spec()), pre.pos_spec(), b)
    &&& post.pos_spec() == pre.pos_spec() + b.len()
}

/// Writing a buffer and reading the same range back yields the buffer:
/// the written bytes stand in the stream exactly where they were put.
pub proof fn lemma_write_read_round_trip(data: Seq<u8>, pos: nat, buf: Seq<u8>)
    ensures
        ({
            let written = spliced(padded_to(data, pos), pos, buf);
            &&& written.len() >= pos + buf.len()
            &&& written.subrange(pos as int, (pos + buf.len()) as int) == buf
        }),
{
    let base = padded_to(data, pos);
    let written = spliced(base, pos, buf);
    assert(written.subrange(pos as int, (pos + buf.len()) as int) =~= buf);
}

} // verus!
