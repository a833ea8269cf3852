use vstd::prelude::*;

verus! {

/// The pixels that the QOI decoder produces from `data`, or `None` where it
/// rejects `data`.
pub uninterp spec fn qoi_decoded(data: Seq<u8>) -> Option<Seq<u8>>;

/// Relies on qoi::decode_to_vec: it decodes the image in `data` into a fresh
/// pixel buffer, or fails, and what it yields depends on `data` alone.
#[verifier::external_body]
fn decode_qoi(data: &[u8]) -> (r: Option<Vec<u8>>)
    ensures
        match r {
            Some(p) => qoi_decoded(data@) == Some(p@),
            None => qoi_decoded(data@) is None,
        },
{
    match qoi::decode_to_vec(data) {
        Ok((_, pixels)) => Some(pixels),
        Err(_) => None,
    }
}

/// Why a set of frame assets could not become a frame store.
#[derive(Debug, Clone, Copy, PartialEq, Eq, Structural)]
pub enum FrameError {
    /// No assets were given.
    NoFrames,
    /// The asset at this index is not a decodable image.
    Undecodable(usize),
    /// The asset at this index decodes to a size other than the display's.
    WrongSize(usize),
}

/// What a decode outcome means for the frame at `index`.
pub open spec fn frame_check(index: usize, decoded: Option<Seq<u8>>, frame_len: nat) -> Result<
    Seq<u8>,
    FrameError,
> {
    match decoded {
        None => Err(FrameError::Undecodable(index)),
        Some(p) => if p.len() == frame_len {
            Ok(p)
        } else {
            Err(FrameError::WrongSize(index))
        },
    }
}

/// The asset decodes to exactly one display's worth of pixels.
pub open spec fn frame_ok(asset: Seq<u8>, frame_len: nat) -> bool {
    frame_check(0, qoi_decoded(asset), frame_len) is Ok
}

/// The pixels an accepted asset decodes to.
pub open spec fn decoded_pixels(asset: Seq<u8>) -> Seq<u8> {
    match qoi_decoded(asset) {
        Some(p) => p,
        None => Seq::empty(),
    }
}

/// `index` is the first asset that does not give a frame.
pub open spec fn first_bad_frame(assets: Seq<Vec<u8>>, frame_len: nat, index: int) -> bool {
    0 <= index < assets.len() && !frame_ok(assets[index]@, frame_len) && forall|j: int|
        0 <= j < index ==> frame_ok(#[trigger] assets[j]@, frame_len)
}

/// Turns one decode outcome into a frame of `frame_len` bytes, or the error
/// for the frame at `index`.
pub fn check_frame(index: usize, decoded: Option<Vec<u8>>, frame_len: usize) -> (r: Result<
    Vec<u8>,
    FrameError,
>)
    ensures
        match r {
            Ok(p) => frame_check(index, decoded_view(decoded), frame_len as nat) == Ok::<
                Seq<u8>,
                FrameError,
            >(p@),
            Err(e) => frame_check(index, decoded_view(decoded), frame_len as nat) == Err::<
                Seq<u8>,
                FrameError,
            >(e),
        },
{
    match decoded {
        None => Err(FrameError::Undecodable(index)),
        Some(p) => if p.len() == frame_len {
            Ok(p)
        } else {
            Err(FrameError::WrongSize(index))
        },
    }
}

/// The contents of an optional pixel buffer.
pub open spec fn decoded_view(d: Option<Vec<u8>>) -> Option<Seq<u8>> {
    match d {
        Some(p) => Some(p@),
        None => None,
    }
}

/// The full, immutable set of decoded frames, shown in cyclic order.
pub struct FrameStore {
    frames: Vec<Vec<u8>>,
    frame_len: usize,
}

impl FrameStore {
    /// The pixels of each frame, in order.
    pub closed spec fn frames(&self) -> Seq<Seq<u8>> {
        self.frames@.map_values(|f: Vec<u8>| f@)
    }

    /// The byte length shared by every frame.
    pub closed spec fn frame_size(&self) -> nat {
        self.frame_len as nat
    }

    /// At least one frame, all of the same length.
    pub open spec fn wf(&self) -> bool {
        self.frames().len() >= 1 && forall|i: int|
            0 <= i < self.frames().len() ==> (#[trigger] self.frames()[i]).len() == self.frame_size()
    }

    /// Decodes every asset, in order, into a frame of `frame_len` bytes. Fails on
    /// an empty list, and otherwise at the first asset that is not a decodable
    /// image of exactly that size.
    pub fn load(assets: &Vec<Vec<u8>>, frame_len: usize) -> (r: Result<FrameStore, FrameError>)
        ensures
            match r {
                Ok(s) => {
                    &&& assets@.len() >= 1
                    &&& forall|i: int| 0 <= i < assets@.len() ==> frame_ok(#[trigger] assets@[i]@, frame_len as nat)
                    &&& s.wf()
                    &&& s.frame_size() == frame_len
                    &&& s.frames().len() == assets@.len()
                    &&& forall|i: int| 0 <= i < assets@.len() ==> s.frames()[i] == decoded_pixels(#[trigger] assets@[i]@)
                },
                Err(e) => {
                    ||| assets@.len() == 0 && e == FrameError::NoFrames
                    ||| exists|i: int| #[trigger] first_bad_frame(assets@, frame_len as nat, i)
                        && frame_check(i as usize, qoi_decoded(assets@[i]@), frame_len as nat) == Err::<Seq<u8>, FrameError>(e)
                },
            },
    {
        if assets.len() == 0 {
            return Err(FrameError::NoFrames);
        }
        let mut frames: Vec<Vec<u8>> = Vec::new();
        let mut i: usize = 0;
        while i < assets.len()
            invariant
                i <= assets@.len(),
                frames@.len() == i,
                forall|j: int| 0 <= j < i ==> frame_ok(#[trigger] assets@[j]@, frame_len as nat),
                forall|j: int| 0 <= j < i ==> (#[trigger] frames@[j])@ == decoded_pixels(assets@[j]@),
            decreases assets@.len() - i,
        {
            let decoded = decode_qoi(assets[i].as_slice());
            match check_frame(i, decoded, frame_len) {
                Ok(p) => {
                    frames.push(p);
                },
                Err(e) => {
                    assert(first_bad_frame(assets@, frame_len as nat, i as int));
                    return Err(e);
                },
            }
            i = i + 1;
        }
        let s = FrameStore { frames, frame_len };
        assert(s.wf());
        Ok(s)
    }

    /// Writes the frame at `index` into the display's back-buffer, byte for
    /// byte; the target has exactly one frame's length.
    pub fn copy_frame_into(&self, index: usize, target: &mut [u8])
        requires
            self.wf(),
            index < self.frames().len(),
            old(target)@.len() == self.frame_size(),
        ensures
            final(target)@ == self.frames()[index as int],
    {
        let frame = &self.frames[index];
        assert(frame@ == self.frames()[index as int]);
        let n = target.len();
        let mut i: usize = 0;
        while i < n
            invariant
                n == target@.len(),
                n == frame@.len(),
                i <= n,
                forall|k: int| 0 <= k < i ==> target@[k] == frame@[k],
            decreases n - i,
        {
            target[i] = frame[i];
            i = i + 1;
        }
        assert(target@ =~= frame@);
    }

    /// The number of frames.
    pub fn len(&self) -> (r: usize)
        ensures
            r == self.frames().len(),
    {
        self.frames.len()
    }

    /// The byte length of one frame.
    pub fn frame_len(&self) -> (r: usize)
        ensures
            r == self.frame_size(),
    {
        self.frame_len
    }
}

} // verus!
