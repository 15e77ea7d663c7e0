//! The uniform block shared with the shaders: a flat run of 32-bit float
//! words, held here as their bit patterns so that packing is pure data
//! movement.
//!
//! Layout, in words: projection `[0, 16)`, inverse projection `[16, 32)`,
//! view `[32, 48)`, eye position `[48, 51)`, the flag `1.0` at `51`, then
//! optionally a model matrix `[52, 68)`.

use vstd::prelude::*;

verus! {

/// Bit pattern of the float `1.0`.
pub const ONE_BITS: u32 = 0x3F80_0000;

/// Words of the camera part of the block (matrices, eye and flag).
pub const CAMERA_WORDS: usize = 52;

/// Words of the camera part followed by a model matrix.
pub const CAMERA_AND_MODEL_WORDS: usize = 68;

/// One uniform block; each matrix is sixteen words in column-major order.
#[derive(Clone, Copy, Debug)]
pub struct UniformBlock {
    pub projection: [u32; 16],
    pub inverse_projection: [u32; 16],
    pub view: [u32; 16],
    pub eye: [u32; 3],
    pub model: Option<[u32; 16]>,
}

/// The contents of a [`UniformBlock`] as sequences.
pub struct UniformBlockView {
    pub projection: Seq<u32>,
    pub inverse_projection: Seq<u32>,
    pub view: Seq<u32>,
    pub eye: Seq<u32>,
    pub model: Option<Seq<u32>>,
}

impl View for UniformBlock {
    type V = UniformBlockView;

    open spec fn view(&self) -> UniformBlockView {
        UniformBlockView {
            projection: self.projection@,
            inverse_projection: self.inverse_projection@,
            view: self.view@,
            eye: self.eye@,
            model: match self.model {
                Some(m) => Some(m@),
                None => None,
            },
        }
    }
}

/// The words of a block in the layout the shaders expect.
pub open spec fn block_words(b: UniformBlockView) -> Seq<u32> {
    let camera = b.projection + b.inverse_projection + b.view + b.eye + seq![ONE_BITS];
    match b.model {
        Some(m) => camera + m,
        None => camera,
    }
}

/// What unpacking `w` yields: a block exactly when `w` has the length of one
/// and carries the flag, and then the block whose words are `w`.
pub open spec fn unpacks_to(w: Seq<u32>, r: Option<UniformBlock>) -> bool {
    match r {
        Some(b) => block_words(b@) == w,
        None => !((w.len() == CAMERA_WORDS || w.len() == CAMERA_AND_MODEL_WORDS) && w[51]
            == ONE_BITS),
    }
}

fn push_words(out: &mut Vec<u32>, src: &[u32])
    ensures
        final(out)@ == old(out)@ + src@,
{
    let mut i: usize = 0;
    while i < src.len()
        invariant
            i <= src@.len(),
            out@ == old(out)@ + src@.take(i as int),
        decreases src.len() - i,
    {
        out.push(src[i]);
        assert(src@.take(i + 1) =~= src@.take(i as int).push(src@[i as int]));
        i = i + 1;
    }
    assert(src@.take(src@.len() as int) =~= src@);
}

fn take_words<const N: usize>(w: &[u32], start: usize) -> (a: [u32; N])
    requires
        start + N <= w@.len(),
    ensures
        a@ == w@.subrange(start as int, start + N),
{
    let mut a: [u32; N] = [0u32; N];
    let _len = w.len();
    let mut i: usize = 0;
    while i < N
        invariant
            start + N <= w@.len(),
            w@.len() <= usize::MAX,
            a@.len() == N,
            i <= N,
            forall|k: int| 0 <= k < i ==> #[trigger] a@[k] == w@[start + k],
        decreases N - i,
    {
        a[i] = w[start + i];
        i = i + 1;
    }
    assert(a@ =~= w@.subrange(start as int, start + N));
    a
}

impl UniformBlock {
    /// The block's words, ready to upload.
    pub fn to_words(&self) -> (w: Vec<u32>)
        ensures
            w@ == block_words(self@),
    {
        let mut w: Vec<u32> = Vec::with_capacity(CAMERA_AND_MODEL_WORDS);
        push_words(&mut w, self.projection.as_slice());
        push_words(&mut w, self.inverse_projection.as_slice());
        push_words(&mut w, self.view.as_slice());
        push_words(&mut w, self.eye.as_slice());
        w.push(ONE_BITS);
        match &self.model {
            Some(m) => push_words(&mut w, m.as_slice()),
            None => {},
        }
        assert(w@ =~= block_words(self@));
        w
    }

    /// Reads a block back from its words.
    pub fn from_words(w: &[u32]) -> (r: Option<UniformBlock>)
        ensures
            unpacks_to(w@, r),
    {
        let n = w.len();
        if !(n == CAMERA_WORDS || n == CAMERA_AND_MODEL_WORDS) || w[51] != ONE_BITS {
            return None;
        }
        let projection: [u32; 16] = take_words(w, 0);
        let inverse_projection: [u32; 16] = take_words(w, 16);
        let view: [u32; 16] = take_words(w, 32);
        let eye: [u32; 3] = take_words(w, 48);
        let model: Option<[u32; 16]> = if n == CAMERA_AND_MODEL_WORDS {
            Some(take_words(w, 52))
        } else {
            None
        };
        let b = UniformBlock { projection, inverse_projection, view, eye, model };
        assert(block_words(b@) =~= w@);
        Some(b)
    }
}

/// Packing a block into words and unpacking those words gives back the same
/// block: every matrix, the eye position and the model matrix, bit for bit.
pub proof fn lemma_uniform_round_trip(b: UniformBlock, r: Option<UniformBlock>)
    requires
        unpacks_to(block_words(b@), r),
    ensures
        r matches Some(c) && c@ == b@,
{
    let w = block_words(b@);
    assert(w[51] == ONE_BITS);
    let c = r->Some_0;
    let v = block_words(c@);
    assert(v == w);
    assert(b@.projection =~= w.subrange(0, 16));
    assert(c@.projection =~= v.subrange(0, 16));
    assert(b@.inverse_projection =~= w.subrange(16, 32));
    assert(c@.inverse_projection =~= v.subrange(16, 32));
    assert(b@.view =~= w.subrange(32, 48));
    assert(c@.view =~= v.subrange(32, 48));
    assert(b@.eye =~= w.subrange(48, 51));
    assert(c@.eye =~= v.subrange(48, 51));
    match (b.model, c.model) {
        (Some(m), Some(n)) => {
            assert(m@ =~= w.subrange(52, 68));
            assert(n@ =~= v.subrange(52, 68));
        },
        _ => {},
    }
}

} // verus!
