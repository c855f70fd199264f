//! The per-frame settings uniform buffer: every view's extracted settings
//! record is written once per frame at a dynamic offset, and the draw that
//! binds the buffer at that offset reads back exactly the record that was
//! written. Offsets are in 32-bit words; records are padded to the host's
//! dynamic-offset alignment of 64 words (256 bytes).

use vstd::prelude::*;
use core::marker::PhantomData;
use crate::simple_post_process::SimplePostProcess;

verus! {

/// One effect type's per-frame dynamic uniform buffer.
pub struct SettingsUniforms<T: SimplePostProcess> {
    buffer_id: u64,
    words: Vec<u32>,
    count: usize,
    _marker: PhantomData<T>,
}

impl<T: SimplePostProcess> SettingsUniforms<T> {
    /// The words one record occupies including alignment padding.
    pub open spec fn stride() -> nat {
        ((T::size_words() + 63) / 64) * 64
    }

    /// The host's identifier for the underlying GPU buffer.
    pub closed spec fn spec_buffer_id(self) -> u64 {
        self.buffer_id
    }

    /// How many records were written this frame.
    pub closed spec fn spec_count(self) -> nat {
        self.count as nat
    }

    /// The buffer contents, as words.
    pub closed spec fn spec_words(self) -> Seq<u32> {
        self.words@
    }

    /// The word span of the record at index `j`.
    pub open spec fn entry_words(self, j: int) -> Seq<u32> {
        self.spec_words().subrange(
            j * Self::stride(),
            j * Self::stride() + T::size_words(),
        )
    }

    /// The record at index `j`, as a draw at that offset reads it back.
    pub open spec fn entry(self, j: int) -> Option<T> {
        T::decode_spec(self.entry_words(j))
    }

    /// The buffer holds exactly `count` aligned records, each decodable.
    pub open spec fn wf(self) -> bool {
        &&& self.spec_words().len() == self.spec_count() * Self::stride()
        &&& self.spec_count() <= 0x10000
        &&& forall|j: int| 0 <= j < self.spec_count() ==> (#[trigger] self.entry(j)) is Some
    }

    /// A fresh, empty per-frame buffer.
    pub fn new(buffer_id: u64) -> (r: Self)
        ensures
            r.wf(),
            r.spec_count() == 0,
            r.spec_buffer_id() == buffer_id,
    {
        let r = SettingsUniforms { buffer_id, words: Vec::new(), count: 0, _marker: PhantomData };
        proof {
            assert(r.spec_words().len() == 0);
            assert(r.spec_count() == 0);
            assert(0 * Self::stride() == 0) by (nonlinear_arith);
        }
        r
    }

    /// The stride, as a runtime value.
    pub fn stride_len() -> (r: usize)
        ensures
            r as nat == Self::stride(),
            0 < r <= 1088,
    {
        proof {
            T::lemma_size_bounds();
        }
        let n = T::word_count();
        (n + 63) / 64 * 64
    }

    /// The host's identifier for the underlying GPU buffer.
    pub fn buffer(&self) -> (r: u64)
        ensures
            r == self.spec_buffer_id(),
    {
        self.buffer_id
    }

    /// How many records were written this frame.
    pub fn len(&self) -> (r: usize)
        ensures
            r == self.spec_count(),
    {
        self.count
    }

    /// Writes one extracted settings record and returns its index; the
    /// record's dynamic word offset is the index times the stride. The write
    /// appends: every record written earlier this frame reads back unchanged.
    pub fn push(&mut self, s: &T) -> (ix: usize)
        requires
            old(self).wf(),
            old(self).spec_count() < 0x10000,
        ensures
            final(self).wf(),
            ix == old(self).spec_count(),
            final(self).spec_count() == old(self).spec_count() + 1,
            final(self).spec_buffer_id() == old(self).spec_buffer_id(),
            final(self).entry(ix as int) == Some(*s),
            forall|j: int|
                0 <= j < old(self).spec_count() ==> final(self).entry(j) == old(self).entry(j),
    {
        proof {
            T::lemma_size_bounds();
            s.lemma_words();
        }
        let ghost pre = *old(self);
        let ghost stride = Self::stride();
        let w = s.to_words();
        let n = w.len();
        let stride_len = Self::stride_len();
        proof {
            assert(n <= stride_len) by (nonlinear_arith)
                requires
                    n == T::size_words(),
                    stride_len == ((T::size_words() + 63) / 64) * 64,
            ;
            assert(pre.spec_count() * stride <= 0x10000 * 1088) by (nonlinear_arith)
                requires
                    pre.spec_count() <= 0x10000,
                    0 <= stride <= 1088,
            ;
        }
        let ix = self.count;
        let mut k: usize = 0;
        while k < n
            invariant
                k <= n,
                n == w@.len(),
                self.words@ == pre.spec_words() + w@.take(k as int),
                self.count == pre.spec_count(),
                self.buffer_id == pre.buffer_id,
            decreases n - k,
        {
            self.words.push(w[k]);
            proof {
                assert(self.words@ =~= pre.spec_words() + w@.take(k as int + 1));
            }
            k = k + 1;
        }
        proof {
            assert(w@.take(n as int) =~= w@);
        }
        let pad = stride_len - n;
        let mut k2: usize = 0;
        while k2 < pad
            invariant
                k2 <= pad,
                self.words@ == pre.spec_words() + w@ + Seq::new(k2 as nat, |q: int| 0u32),
                self.count == pre.spec_count(),
                self.buffer_id == pre.buffer_id,
            decreases pad - k2,
        {
            self.words.push(0);
            proof {
                assert(self.words@ =~= pre.spec_words() + w@ + Seq::new(
                    k2 as nat + 1,
                    |q: int| 0u32,
                ));
            }
            k2 = k2 + 1;
        }
        proof {
            assert(self.words@ =~= pre.spec_words() + w@ + Seq::new(pad as nat, |q: int| 0u32));
        }
        self.count = self.count + 1;
        proof {
            let post = *self;
            let c = pre.spec_count() as int;
            assert((c + 1) * stride == c * stride + stride) by (nonlinear_arith);
            assert(post.spec_words().len() == post.spec_count() * Self::stride());
            assert(post.entry_words(c) =~= w@);
            assert(post.entry(c) == Some(*s));
            assert forall|j: int| 0 <= j < c implies post.entry(j) == pre.entry(j) by {
                assert((j + 1) * stride <= c * stride) by (nonlinear_arith)
                    requires
                        j + 1 <= c,
                        stride >= 0,
                ;
                assert((j + 1) * stride == j * stride + stride) by (nonlinear_arith);
                assert(post.entry_words(j) =~= pre.entry_words(j));
            }
        }
        ix
    }

    /// Reads the record at index `ix` back from the buffer words — the model
    /// of what the draw's uniform binding at that dynamic offset sees.
    pub fn read(&self, ix: usize) -> (r: Option<T>)
        requires
            self.wf(),
            ix < self.spec_count(),
        ensures
            r == self.entry(ix as int),
            r is Some,
    {
        proof {
            T::lemma_size_bounds();
        }
        let stride_len = Self::stride_len();
        let n = T::word_count();
        let ghost stride = Self::stride();
        proof {
            assert(n <= stride_len) by (nonlinear_arith)
                requires
                    n == T::size_words(),
                    stride_len == ((T::size_words() + 63) / 64) * 64,
            ;
            assert((ix + 1) * stride <= self.spec_count() * stride) by (nonlinear_arith)
                requires
                    ix + 1 <= self.spec_count(),
                    stride >= 0,
            ;
            assert((ix + 1) * stride == ix * stride + stride) by (nonlinear_arith);
            assert(ix * stride <= 0x10000 * 1088) by (nonlinear_arith)
                requires
                    0 <= ix <= 0x10000,
                    0 <= stride <= 1088,
            ;
        }
        let base = ix * stride_len;
        let total = self.words.len();
        let mut sub: Vec<u32> = Vec::new();
        let mut t: usize = 0;
        while t < n
            invariant
                t <= n,
                n == T::size_words(),
                base == ix * Self::stride(),
                total == self.spec_words().len(),
                base + n <= total,
                sub@ == self.spec_words().subrange(base as int, base as int + t as int),
                self.wf(),
            decreases n - t,
        {
            let word = self.words[base + t];
            sub.push(word);
            proof {
                assert(sub@ =~= self.spec_words().subrange(base as int, base as int + t as int + 1));
            }
            t = t + 1;
        }
        proof {
            assert(sub@ =~= self.entry_words(ix as int));
        }
        T::from_words(&sub)
    }
}

/// The extraction boundary: the main world's settings component is copied by
/// value into the render world once per frame; the render world's copy is
/// exactly the main world's record.
pub fn extract_settings<T: SimplePostProcess>(main_world_settings: &T) -> (r: T)
    ensures
        r == *main_world_settings,
{
    *main_world_settings
}

/// Round trip: the uniform words a settings record writes decode back to
/// exactly that record, so what a draw reads at its offset is what the
/// main-world component held that frame.
pub proof fn lemma_settings_uniform_roundtrip<T: SimplePostProcess>(s: T)
    ensures
        T::decode_spec(s.words()) == Some(s),
{
    s.lemma_words();
}

} // verus!
