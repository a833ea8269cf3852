use vstd::arithmetic::div_mod::{lemma_add_mod_noop, lemma_mod_bound, lemma_mod_self_0, lemma_small_mod};
use vstd::prelude::*;

verus! {

/// The byte that a cyclic read starting at `pos` yields at offset `i`.
pub open spec fn cyclic_byte(data: Seq<u8>, pos: int, i: int) -> u8
    recommends
        data.len() > 0,
{
    data[(pos + i) % (data.len() as int)]
}

/// The `count` bytes read from `data` starting at `pos`, wrapping to the start
/// whenever the end of the asset is reached.
pub open spec fn cyclic_read(data: Seq<u8>, pos: int, count: nat) -> Seq<u8>
    recommends
        data.len() > 0,
{
    Seq::new(count, |i: int| cyclic_byte(data, pos, i))
}

/// A restartable byte stream over a fixed, non-empty audio asset.
pub struct SampleSource {
    data: Vec<u8>,
    pos: usize,
}

impl SampleSource {
    /// The asset's bytes.
    pub closed spec fn data(&self) -> Seq<u8> {
        self.data@
    }

    /// The offset of the next byte to be read.
    pub closed spec fn position(&self) -> nat {
        self.pos as nat
    }

    /// A non-empty asset, with the read offset inside it.
    pub closed spec fn wf(&self) -> bool {
        self.data@.len() > 0 && self.pos < self.data@.len()
    }

    /// A source positioned at the start of `data`; `None` when `data` is empty,
    /// since an empty asset cannot fill a buffer.
    pub fn new(data: Vec<u8>) -> (r: Option<SampleSource>)
        ensures
            data@.len() == 0 <==> r is None,
            r matches Some(s) ==> s.wf() && s.data() == data@ && s.position() == 0,
    {
        if data.len() == 0 {
            None
        } else {
            Some(SampleSource { data, pos: 0 })
        }
    }

    /// The offset of the next byte to be read.
    pub fn offset(&self) -> (r: usize)
        ensures
            r == self.position(),
    {
        self.pos
    }

    /// The asset's length in bytes.
    pub fn len(&self) -> (r: usize)
        ensures
            r == self.data().len(),
    {
        self.data.len()
    }

    /// Fills all of `buf` with the next bytes of the asset. Where fewer bytes
    /// remain than `buf` holds, the source restarts from its beginning and goes
    /// on reading, so the asset loops without a gap.
    pub fn fill(&mut self, buf: &mut [u8])
        requires
            old(self).wf(),
        ensures
            final(self).wf(),
            final(self).data() == old(self).data(),
            final(buf)@ == cyclic_read(old(self).data(), old(self).position() as int, old(buf)@.len()),
            final(self).position() == (old(self).position() + old(buf)@.len()) % old(self).data().len(),
    {
        let n = self.data.len();
        let start = self.pos;
        let count = buf.len();
        let mut i: usize = 0;
        proof {
            lemma_small_mod(start as nat, n as nat);
        }
        while i < count
            invariant
                self.wf(),
                self.data@ == old(self).data@,
                start == old(self).pos,
                n == self.data@.len(),
                count == buf@.len(),
                count == old(buf)@.len(),
                i <= count,
                self.pos as int == (start as int + i as int) % (n as int),
                forall|k: int| 0 <= k < i ==> buf@[k] == cyclic_byte(self.data@, start as int, k),
            decreases count - i,
        {
            buf[i] = self.data[self.pos];
            proof {
                assert(self.pos as int == (start as int + i as int) % (n as int));
            }
            if self.pos + 1 == n {
                self.pos = 0;
            } else {
                self.pos = self.pos + 1;
            }
            proof {
                lemma_mod_step(start as int + i as int, n as int);
            }
            i = i + 1;
        }
        assert(buf@ =~= cyclic_read(self.data@, start as int, count as nat));
    }
}

/// A read that runs past the end of the asset yields the remaining tail and
/// then continues from the asset's first byte: exactly `count` bytes, with
/// nothing skipped or repeated at the wrap point. When `count` is no larger
/// than the asset, the part after the tail is a plain prefix of it.
pub proof fn lemma_read_wraps_seamlessly(data: Seq<u8>, pos: int, count: nat)
    requires
        0 <= pos < data.len(),
        data.len() - pos < count,
    ensures
        cyclic_read(data, pos, count).len() == count,
        cyclic_read(data, pos, count) == data.subrange(pos, data.len() as int) + cyclic_read(
            data,
            0,
            (count - (data.len() - pos)) as nat,
        ),
        count <= data.len() ==> cyclic_read(data, pos, count) == data.subrange(pos, data.len() as int)
            + data.subrange(0, count - (data.len() - pos)),
{
    let n = data.len() as int;
    let tail = n - pos;
    let lhs = cyclic_read(data, pos, count);
    let rhs = data.subrange(pos, n) + cyclic_read(data, 0, (count - tail) as nat);
    assert forall|i: int| 0 <= i < count implies lhs[i] == rhs[i] by {
        if i < tail {
            lemma_small_mod((pos + i) as nat, n as nat);
        } else {
            lemma_mod_after_wrap(pos + i, n);
            assert(pos + i - n == 0 + (i - tail));
        }
    }
    assert(lhs =~= rhs);
    if count <= n {
        assert forall|j: int| 0 <= j < count - tail implies cyclic_read(data, 0, (count - tail) as nat)[j]
            == data[j] by {
            lemma_small_mod(j as nat, n as nat);
        }
        assert(cyclic_read(data, 0, (count - tail) as nat) =~= data.subrange(0, count - tail));
    }
}

/// Reducing an index one period past the start.
proof fn lemma_mod_after_wrap(x: int, n: int)
    requires
        n > 0,
        x >= n,
    ensures
        x % n == (x - n) % n,
{
    vstd::arithmetic::div_mod::lemma_mod_sub_multiples_vanish(x, n);
}

/// Stepping one place forward in a cyclic index.
proof fn lemma_mod_step(x: int, n: int)
    requires
        n > 0,
        x >= 0,
    ensures
        (x + 1) % n == if x % n + 1 == n { 0 } else { x % n + 1 },
{
    lemma_mod_bound(x, n);
    if n == 1 {
        lemma_mod_self_0(1);
        lemma_small_mod(0, 1);
        lemma_add_mod_noop(x, 1, n);
    } else {
        lemma_small_mod(1, n as nat);
        lemma_add_mod_noop(x, 1, n);
        if x % n + 1 == n {
            lemma_mod_self_0(n);
        } else {
            lemma_small_mod((x % n + 1) as nat, n as nat);
        }
    }
}

} // verus!
