//! The bytes of a terminal's answer, gathered over several reads.

use vstd::prelude::*;
use crate::marker::{contains_marker, has_marker};

verus! {

/// Size of the buffer that reads fill.
pub const BUFFER_CAPACITY: usize = 256;

/// Most bytes that are ever gathered: the last place of the buffer stays
/// free.
pub const BUFFER_LIMIT: usize = 255;

/// The first of `chunk` that fits where `room` bytes are free.
pub open spec fn fitting(chunk: Seq<u8>, room: int) -> Seq<u8> {
    if chunk.len() <= room {
        chunk
    } else {
        chunk.subrange(0, room)
    }
}

/// Bytes received so far, at most [`BUFFER_LIMIT`] of them, in the order in
/// which they came.  It only ever grows.
#[derive(Debug)]
pub struct ProbeBuffer {
    bytes: Vec<u8>,
}

impl View for ProbeBuffer {
    type V = Seq<u8>;

    closed spec fn view(&self) -> Seq<u8> {
        self.bytes@
    }
}

impl ProbeBuffer {
    /// What holds of every buffer that this module made: it is within its
    /// limit.
    pub open spec fn wf(&self) -> bool {
        self@.len() <= BUFFER_LIMIT
    }

    /// A buffer that holds nothing yet.
    pub fn new() -> (buffer: ProbeBuffer)
        ensures
            buffer@ == Seq::<u8>::empty(),
            buffer.wf(),
    {
        ProbeBuffer { bytes: Vec::new() }
    }

    /// How many bytes were gathered.
    pub fn len(&self) -> (count: usize)
        ensures
            count == self@.len(),
    {
        self.bytes.len()
    }

    /// How many more bytes fit.
    pub fn room(&self) -> (free: usize)
        requires
            self.wf(),
        ensures
            free == BUFFER_LIMIT - self@.len(),
    {
        BUFFER_LIMIT - self.bytes.len()
    }

    /// Whether no further byte fits.
    pub fn is_full(&self) -> (full: bool)
        requires
            self.wf(),
        ensures
            full == (self@.len() == BUFFER_LIMIT),
    {
        self.bytes.len() >= BUFFER_LIMIT
    }

    /// The bytes gathered so far.
    pub fn as_slice(&self) -> (bytes: &[u8])
        ensures
            bytes@ == self@,
    {
        self.bytes.as_slice()
    }

    /// Whether the marker stands in what was gathered, searched from the
    /// first byte to the last.
    pub fn holds_marker(&self) -> (found: bool)
        ensures
            found == has_marker(self@),
    {
        contains_marker(self.bytes.as_slice())
    }

    /// Appends `chunk`, or as much of its beginning as still fits, and says
    /// how many bytes were taken.
    pub fn fill(&mut self, chunk: &[u8]) -> (taken: usize)
        requires
            old(self).wf(),
        ensures
            final(self).wf(),
            final(self)@ == old(self)@ + fitting(chunk@, BUFFER_LIMIT - old(self)@.len()),
            taken == fitting(chunk@, BUFFER_LIMIT - old(self)@.len()).len(),
    {
        let free: usize = BUFFER_LIMIT - self.bytes.len();
        let taken: usize = if chunk.len() <= free {
            chunk.len()
        } else {
            free
        };
        let ghost before = self.bytes@;
        let mut at: usize = 0;
        while at < taken
            invariant
                at <= taken,
                taken <= chunk@.len(),
                before.len() + taken <= BUFFER_LIMIT,
                self.bytes@ == before + chunk@.subrange(0, at as int),
            decreases taken - at,
        {
            self.bytes.push(chunk[at]);
            at += 1;
            assert(self.bytes@ =~= before + chunk@.subrange(0, at as int));
        }
        assert(chunk@.subrange(0, chunk@.len() as int) =~= chunk@);
        taken
    }
}

} // verus!
