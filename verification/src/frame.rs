//! The shared frame buffer: one mutable RGBA image written by the producer
//! and copied out by the consumer. The surrounding application serializes
//! access with a lock; every operation here is a complete, verified critical
//! section body.

use vstd::prelude::*;

verus! {

/// One decoded video frame: its dimensions plus packed row-major RGBA bytes,
/// four bytes per pixel, no padding.
#[derive(Debug)]
pub struct Frame {
    pub width: u32,
    pub height: u32,
    pub data: Vec<u8>,
}

/// How many bytes a `width` by `height` RGBA frame occupies.
pub open spec fn frame_bytes(width: u32, height: u32) -> int {
    width * height * 4
}

/// A frame is well formed when its byte store covers all of its pixels.
pub open spec fn frame_wf(f: Frame) -> bool {
    f.data@.len() >= frame_bytes(f.width, f.height)
}

impl Frame {
    /// The empty frame: no pixels and no bytes.
    pub fn empty() -> (f: Frame)
        ensures
            f.width == 0,
            f.height == 0,
            f.data@.len() == 0,
    {
        Frame { width: 0, height: 0, data: Vec::new() }
    }
}

impl Default for Frame {
    fn default() -> (f: Frame)
        ensures
            f.width == 0,
            f.height == 0,
            f.data@.len() == 0,
    {
        Frame::empty()
    }
}

/// Ghost image of a frame, used to state how the buffer operations rewrite
/// the stored bytes.
pub ghost struct FrameModel {
    pub width: int,
    pub height: int,
    pub data: Seq<u8>,
}

/// The ghost image of a concrete frame.
pub open spec fn frame_model(f: Frame) -> FrameModel {
    FrameModel { width: f.width as int, height: f.height as int, data: f.data@ }
}

/// Well-formedness of a ghost frame: the store covers all pixels.
pub open spec fn model_wf(m: FrameModel) -> bool {
    &&& 0 <= m.width
    &&& 0 <= m.height
    &&& m.data.len() >= m.width * m.height * 4
}

/// How a write rewrites the stored frame: the dimensions are replaced and the
/// payload fills the front of the store. The store only grows within a
/// session: bytes beyond the new payload are kept, never freed.
pub open spec fn write_model(m: FrameModel, width: u32, height: u32, bytes: Seq<u8>) -> FrameModel {
    FrameModel {
        width: width as int,
        height: height as int,
        data: if bytes.len() <= m.data.len() {
            bytes + m.data.skip(bytes.len() as int)
        } else {
            bytes
        },
    }
}

/// The bytes of the frame a reader is shown: the pixel payload, without the
/// kept tail of a previously larger frame.
pub open spec fn visible_bytes(m: FrameModel) -> Seq<u8> {
    m.data.subrange(0, m.width * m.height * 4)
}

/// The single mutable image buffer shared between exactly one producer and
/// one consumer. The producer overwrites it on every decoded sample; the
/// consumer copies the current contents out. Its store never holds fewer
/// bytes than its dimensions require.
pub struct FrameBuffer {
    frame: Frame,
}

impl View for FrameBuffer {
    type V = FrameModel;

    closed spec fn view(&self) -> FrameModel {
        frame_model(self.frame)
    }
}

impl FrameBuffer {
    #[verifier::type_invariant]
    spec fn inv(self) -> bool {
        model_wf(self@)
    }

    /// A fresh buffer holding the empty frame.
    pub fn new() -> (b: FrameBuffer)
        ensures
            b@.width == 0,
            b@.height == 0,
            b@.data.len() == 0,
    {
        FrameBuffer { frame: Frame::empty() }
    }

    /// Producer side: store a decoded sample. The store is resized only when
    /// it is too small for the payload (grow-only, to avoid reallocation on a
    /// fixed-resolution stream) and the payload is copied to its front.
    pub fn write(&mut self, width: u32, height: u32, bytes: &Vec<u8>)
        requires
            bytes@.len() == frame_bytes(width, height),
        ensures
            final(self)@ == write_model(old(self)@, width, height, bytes@),
    {
        proof {
            use_type_invariant(&*self);
        }
        let needed = bytes.len();
        let mut nd: Vec<u8> = Vec::new();
        let mut i: usize = 0;
        while i < needed
            invariant
                i <= needed,
                needed == bytes@.len(),
                nd@ =~= bytes@.subrange(0, i as int),
            decreases needed - i,
        {
            nd.push(bytes[i]);
            i += 1;
        }
        proof {
            assert(nd@ =~= bytes@);
        }
        let old_len = self.frame.data.len();
        let mut j: usize = needed;
        while j < old_len
            invariant
                old_len == self.frame.data@.len(),
                needed == bytes@.len(),
                *self == *old(self),
                old_len < needed ==> j == needed && nd@ =~= bytes@,
                needed <= old_len ==> needed <= j <= old_len && nd@ =~= bytes@
                    + self.frame.data@.subrange(needed as int, j as int),
            decreases old_len - j,
        {
            nd.push(self.frame.data[j]);
            j += 1;
        }
        proof {
            if needed <= old_len {
                assert(nd@ =~= bytes@ + self.frame.data@.skip(needed as int));
            }
        }
        self.frame = Frame { width, height, data: nd };
    }

    /// Consumer side: copy the current frame out into `target`, or leave
    /// `target` untouched when no frame has been stored yet (zero
    /// dimensions). The copy never observes a store smaller than the frame's
    /// pixel payload.
    pub fn read_into(&self, target: &mut Frame)
        ensures
            self@.width != 0 && self@.height != 0 ==> {
                &&& final(target).width as int == self@.width
                &&& final(target).height as int == self@.height
                &&& final(target).data@ == visible_bytes(self@)
                &&& frame_wf(*final(target))
            },
            self@.width == 0 || self@.height == 0 ==> *final(target) == *old(target),
    {
        proof {
            use_type_invariant(&*self);
        }
        if self.frame.width == 0 || self.frame.height == 0 {
            return;
        }
        let w = self.frame.width as usize;
        let h = self.frame.height as usize;
        let store_len = self.frame.data.len();
        assert(0 <= w * h && w * h <= w * h * 4) by (nonlinear_arith)
            requires
                0 <= w && 0 <= h,
        ;
        proof {
            assert(w * h * 4 == self@.width * self@.height * 4);
            assert(w * h * 4 <= store_len);
        }
        let needed: usize = w * h * 4;
        let mut nd: Vec<u8> = Vec::new();
        let mut i: usize = 0;
        while i < needed
            invariant
                i <= needed,
                needed <= self.frame.data@.len(),
                nd@ =~= self.frame.data@.subrange(0, i as int),
            decreases needed - i,
        {
            nd.push(self.frame.data[i]);
            i += 1;
        }
        target.width = self.frame.width;
        target.height = self.frame.height;
        target.data = nd;
        proof {
            assert(final(target).data@ =~= visible_bytes(self@));
        }
    }

    /// Explicit reset: the one operation allowed to shrink the store.
    pub fn reset(&mut self)
        ensures
            final(self)@.width == 0,
            final(self)@.height == 0,
            final(self)@.data.len() == 0,
    {
        self.frame = Frame::empty();
    }
}

/// Law: a write always leaves the buffer well formed, and the store never
/// shrinks. Together with `read_into` leaving the buffer untouched, this
/// means that under any interleaving of (lock-serialized) writes and reads,
/// a read never observes a store smaller than the current frame's
/// `width * height * 4` bytes.
pub proof fn lemma_write_preserves_wf(m: FrameModel, width: u32, height: u32, bytes: Seq<u8>)
    requires
        model_wf(m),
        bytes.len() == frame_bytes(width, height),
    ensures
        model_wf(write_model(m, width, height, bytes)),
        write_model(m, width, height, bytes).data.len() >= m.data.len(),
{
}

/// Law: a write followed by a read yields exactly the written payload; the
/// kept tail of the grow-only store is never shown to the reader.
pub proof fn lemma_read_after_write(m: FrameModel, width: u32, height: u32, bytes: Seq<u8>)
    requires
        model_wf(m),
        bytes.len() == frame_bytes(width, height),
    ensures
        visible_bytes(write_model(m, width, height, bytes)) == bytes,
{
    assert(visible_bytes(write_model(m, width, height, bytes)) =~= bytes);
}

/// One producer operation on the frame buffer, for stating trace laws.
pub ghost enum FrameOp {
    Write { width: u32, height: u32, bytes: Seq<u8> },
}

/// An operation is valid when its payload matches its dimensions, as the
/// decode pipeline guarantees of every delivered sample.
pub open spec fn op_ok(op: FrameOp) -> bool {
    match op {
        FrameOp::Write { width, height, bytes } => bytes.len() == frame_bytes(width, height),
    }
}

/// The buffer contents after a trace of producer operations.
pub open spec fn apply_ops(m: FrameModel, ops: Seq<FrameOp>) -> FrameModel
    decreases ops.len(),
{
    if ops.len() == 0 {
        m
    } else {
        match ops[0] {
            FrameOp::Write { width, height, bytes } => apply_ops(
                write_model(m, width, height, bytes),
                ops.skip(1),
            ),
        }
    }
}

/// Law: starting from a well-formed buffer, any trace of valid writes leaves
/// the buffer well formed. Reads do not change the buffer, so however reads
/// are interleaved with the writes, every read observes a well-formed buffer:
/// never one with fewer than `width * height * 4` stored bytes.
pub proof fn lemma_trace_never_undersized(m: FrameModel, ops: Seq<FrameOp>)
    requires
        model_wf(m),
        forall|i: int| 0 <= i < ops.len() ==> op_ok(#[trigger] ops[i]),
    ensures
        model_wf(apply_ops(m, ops)),
    decreases ops.len(),
{
    if ops.len() > 0 {
        match ops[0] {
            FrameOp::Write { width, height, bytes } => {
                lemma_write_preserves_wf(m, width, height, bytes);
                assert(forall|i: int|
                    0 <= i < ops.skip(1).len() ==> op_ok(#[trigger] ops.skip(1)[i]));
                lemma_trace_never_undersized(write_model(m, width, height, bytes), ops.skip(1));
            },
        }
    }
}

} // verus!
