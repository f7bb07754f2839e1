//! One direction of a duplex relay: bytes read from one connection are handed
//! on, unchanged and in order, to be written to the other, and, where a mirror
//! is attached, a copy of each chunk goes to the mirror as well.
use vstd::prelude::*;

verus! {

/// All the chunks of `chunks`, one after another.
pub open spec fn flatten(chunks: Seq<Seq<u8>>) -> Seq<u8>
    decreases chunks.len(),
{
    if chunks.len() == 0 {
        Seq::empty()
    } else {
        flatten(chunks.drop_last()) + chunks.last()
    }
}

/// How one direction of a relay ended.
#[derive(Debug, Clone, Copy, PartialEq, Eq, Structural)]
pub enum CopyOutcome {
    /// Its read side reached end of stream.
    Drained,
    /// Reading from its source failed.
    ReadFailed,
    /// Writing to its destination failed.
    WriteFailed,
}

/// What the driver of one direction does next.
#[derive(Debug, Clone, PartialEq, Eq)]
pub enum CopyStep {
    /// Write `data` to the destination, then hand `mirror`, if any, to the
    /// mirror; a mirror that refuses it does not stop the relay.
    Forward { data: Vec<u8>, mirror: Option<Vec<u8>> },
    /// The direction is over.
    Finished(CopyOutcome),
}

/// The state of one direction of a relay.
pub struct DirectionCopy {
    mirror: bool,
    outcome: Option<CopyOutcome>,
    /// Every chunk read so far, in order.
    chunks: Ghost<Seq<Seq<u8>>>,
    /// Every byte handed on to be written, in order.
    forwarded: Ghost<Seq<u8>>,
    /// Every chunk handed to the mirror, in order.
    mirrored: Ghost<Seq<Seq<u8>>>,
}

/// The model of one direction of a relay.
pub ghost struct CopyView {
    pub mirror: bool,
    pub outcome: Option<CopyOutcome>,
    pub chunks: Seq<Seq<u8>>,
    pub forwarded: Seq<u8>,
    pub mirrored: Seq<Seq<u8>>,
}

impl View for DirectionCopy {
    type V = CopyView;

    closed spec fn view(&self) -> CopyView {
        CopyView {
            mirror: self.mirror,
            outcome: self.outcome,
            chunks: self.chunks@,
            forwarded: self.forwarded@,
            mirrored: self.mirrored@,
        }
    }
}

/// A fresh copy of `b`.
fn copy_bytes(b: &Vec<u8>) -> (r: Vec<u8>)
    ensures
        r@ == b@,
{
    let mut r: Vec<u8> = Vec::with_capacity(b.len());
    let mut i: usize = 0;
    while i < b.len()
        invariant
            i <= b@.len(),
            r@ == b@.subrange(0, i as int),
        decreases b@.len() - i,
    {
        r.push(b[i]);
        i += 1;
        assert(r@ =~= b@.subrange(0, i as int));
    }
    assert(r@ =~= b@);
    r
}

impl DirectionCopy {
    /// The direction's invariant: what was handed on is exactly what was read,
    /// and the mirror got each chunk read, or nothing where there is no mirror.
    pub open spec fn wf(&self) -> bool {
        &&& self@.forwarded == flatten(self@.chunks)
        &&& self@.mirrored == (if self@.mirror { self@.chunks } else { Seq::empty() })
    }

    /// A direction that has read nothing yet, with or without a mirror.
    pub fn new(mirror: bool) -> (r: DirectionCopy)
        ensures
            r.wf(),
            r@.mirror == mirror,
            r@.outcome is None,
            r@.chunks == Seq::<Seq<u8>>::empty(),
    {
        DirectionCopy {
            mirror,
            outcome: None,
            chunks: Ghost(Seq::empty()),
            forwarded: Ghost(Seq::empty()),
            mirrored: Ghost(Seq::empty()),
        }
    }

    /// Whether the direction is over.
    pub fn is_finished(&self) -> (r: bool)
        ensures
            r == self@.outcome is Some,
    {
        self.outcome.is_some()
    }

    /// A read returned `chunk`; an empty chunk is the end of the stream. A
    /// finished direction stays as it was and says how it ended.
    pub fn on_read(&mut self, chunk: Vec<u8>) -> (r: CopyStep)
        requires
            old(self).wf(),
        ensures
            final(self).wf(),
            final(self)@.mirror == old(self)@.mirror,
            old(self)@.outcome matches Some(o) ==> r == CopyStep::Finished(o) && final(self)@
                == old(self)@,
            old(self)@.outcome is None && chunk@.len() == 0 ==> r == CopyStep::Finished(
                CopyOutcome::Drained,
            ) && final(self)@ == (CopyView {
                outcome: Some(CopyOutcome::Drained),
                ..old(self)@
            }),
            old(self)@.outcome is None && chunk@.len() > 0 ==> {
                &&& r matches CopyStep::Forward { data, mirror } && data@ == chunk@ && (if old(
                    self,
                )@.mirror {
                    mirror matches Some(m) && m@ == chunk@
                } else {
                    mirror is None
                })
                &&& final(self)@.outcome is None
                &&& final(self)@.chunks == old(self)@.chunks.push(chunk@)
                &&& final(self)@.forwarded == old(self)@.forwarded + chunk@
            },
    {
        if let Some(o) = self.outcome {
            return CopyStep::Finished(o);
        }
        if chunk.len() == 0 {
            self.outcome = Some(CopyOutcome::Drained);
            return CopyStep::Finished(CopyOutcome::Drained);
        }
        let ghost chunks = self.chunks@.push(chunk@);
        assert(chunks.drop_last() =~= self.chunks@);
        self.chunks = Ghost(chunks);
        self.forwarded = Ghost(self.forwarded@ + chunk@);
        if self.mirror {
            self.mirrored = Ghost(self.mirrored@.push(chunk@));
            let m = copy_bytes(&chunk);
            CopyStep::Forward { data: chunk, mirror: Some(m) }
        } else {
            CopyStep::Forward { data: chunk, mirror: None }
        }
    }

    /// Reading (`reading` true) or writing failed: the direction is over. A
    /// finished direction stays as it was.
    pub fn on_failure(&mut self, reading: bool) -> (r: CopyOutcome)
        requires
            old(self).wf(),
        ensures
            final(self).wf(),
            old(self)@.outcome matches Some(o) ==> r == o && final(self)@ == old(self)@,
            old(self)@.outcome is None ==> r == (if reading {
                CopyOutcome::ReadFailed
            } else {
                CopyOutcome::WriteFailed
            }) && final(self)@ == (CopyView { outcome: Some(r), ..old(self)@ }),
    {
        if let Some(o) = self.outcome {
            return o;
        }
        let o = if reading {
            CopyOutcome::ReadFailed
        } else {
            CopyOutcome::WriteFailed
        };
        self.outcome = Some(o);
        o
    }
}

/// Whatever chunks were read and however they were cut, the bytes handed on to
/// the destination are exactly the bytes read, in order, with none lost or
/// repeated; one more chunk read adds exactly its bytes to what was handed on.
pub proof fn lemma_byte_fidelity(c: DirectionCopy, next: DirectionCopy, chunk: Seq<u8>)
    requires
        c.wf(),
        next.wf(),
        next@.chunks == c@.chunks.push(chunk),
    ensures
        c@.forwarded == flatten(c@.chunks),
        next@.forwarded == c@.forwarded + chunk,
{
    assert(next@.chunks.drop_last() =~= c@.chunks);
}

/// With a mirror attached, the mirror receives each chunk read exactly once and
/// in order, and what is handed on to the destination is the same as without
/// a mirror.
pub proof fn lemma_mirror_fidelity(with_mirror: DirectionCopy, without: DirectionCopy)
    requires
        with_mirror.wf(),
        without.wf(),
        with_mirror@.mirror,
        !without@.mirror,
        with_mirror@.chunks == without@.chunks,
    ensures
        with_mirror@.mirrored == with_mirror@.chunks,
        without@.mirrored.len() == 0,
        with_mirror@.forwarded == without@.forwarded,
{
}

} // verus!
