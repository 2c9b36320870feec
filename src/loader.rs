//! Program images: memory laid out from loadable segments, plus an entry point.

use vstd::prelude::*;

use crate::memory::{aligned_up, Memory, PAGE_SIZE};

verus! {

/// A loadable segment of a program, as a binary loader found it.
#[derive(Debug)]
pub struct Segment {
    pub virtual_address: usize,
    pub physical_address: usize,
    pub memory_size: usize,
    pub data: Vec<u8>,
}

impl Segment {
    /// Is placed at its physical address and carries all of its bytes.
    pub open spec fn consistent(self) -> bool {
        &&& self.virtual_address == self.physical_address
        &&& self.data@.len() == self.memory_size
    }

    /// One past the last address the segment occupies.
    pub open spec fn end(self) -> nat {
        (self.virtual_address + self.memory_size) as nat
    }
}

/// Why a set of segments cannot be laid out.
#[derive(Clone, Copy, Debug, PartialEq, Eq, Structural)]
pub enum LoadError {
    /// The segment's virtual and physical addresses differ.
    AddressMismatch { index: usize },
    /// The segment's data is not as long as its size in memory.
    SizeMismatch { index: usize },
    /// The memory the segments need cannot be addressed.
    TooLarge,
}

/// The memory size the segments need: the largest segment end.
pub open spec fn required_memory(segs: Seq<Segment>) -> nat
    decreases segs.len(),
{
    if segs.len() == 0 {
        0
    } else {
        let rest = required_memory(segs.drop_last());
        if segs.last().end() > rest {
            segs.last().end()
        } else {
            rest
        }
    }
}

/// `m` with `data` copied in at `address`.
pub open spec fn splice(m: Seq<u8>, address: nat, data: Seq<u8>) -> Seq<u8> {
    m.subrange(0, address as int) + data + m.subrange((address + data.len()) as int, m.len() as int)
}

/// `m` with every segment's data copied in, in order.
pub open spec fn written(m: Seq<u8>, segs: Seq<Segment>) -> Seq<u8>
    decreases segs.len(),
{
    if segs.len() == 0 {
        m
    } else {
        splice(written(m, segs.drop_last()), segs.last().virtual_address as nat, segs.last().data@)
    }
}

/// The memory laid out from `segs`: zeroed whole pages covering every
/// segment, with the segments' data copied in.
pub open spec fn image_of(segs: Seq<Segment>) -> Seq<u8> {
    written(Seq::new(aligned_up(required_memory(segs), PAGE_SIZE as nat), |i: int| 0u8), segs)
}

/// The index of the first inconsistent segment, if there is one.
pub open spec fn first_inconsistent(segs: Seq<Segment>) -> Option<nat>
    decreases segs.len(),
{
    if segs.len() == 0 {
        None
    } else {
        match first_inconsistent(segs.drop_last()) {
            Some(i) => Some(i),
            None => if segs.last().consistent() {
                None
            } else {
                Some((segs.len() - 1) as nat)
            },
        }
    }
}

proof fn lemma_required_memory_bounds(segs: Seq<Segment>, i: int)
    requires
        0 <= i < segs.len(),
    ensures
        segs[i].end() <= required_memory(segs),
        required_memory(segs.take(i)) <= required_memory(segs),
    decreases segs.len(),
{
    if i < segs.len() - 1 {
        lemma_required_memory_bounds(segs.drop_last(), i);
        assert(segs.drop_last().take(i) =~= segs.take(i));
    } else {
        assert(segs.drop_last() =~= segs.take(i));
    }
}

proof fn lemma_first_inconsistent_prefix(segs: Seq<Segment>, i: int)
    requires
        0 <= i <= segs.len(),
        forall|j: int| 0 <= j < i ==> #[trigger] segs[j].consistent(),
    ensures
        first_inconsistent(segs.take(i)).is_none(),
        i < segs.len() && !segs[i].consistent() ==> first_inconsistent(segs) == Some(i as nat),
        i < segs.len() && !segs[i].consistent() ==> first_inconsistent(segs.take(i + 1)) == Some(
            i as nat,
        ),
    decreases i,
{
    if i > 0 {
        lemma_first_inconsistent_prefix(segs.take(i), i - 1);
        assert(segs.take(i).take(i - 1) =~= segs.take(i - 1));
        assert(segs.take(i).drop_last() =~= segs.take(i - 1));
    } else {
        assert(segs.take(0) =~= Seq::<Segment>::empty());
    }
    if i < segs.len() && !segs[i].consistent() {
        assert(segs.take(i + 1).drop_last() =~= segs.take(i));
        lemma_first_inconsistent_extend(segs, i + 1);
    }
}

proof fn lemma_first_inconsistent_extend(segs: Seq<Segment>, k: int)
    requires
        0 <= k <= segs.len(),
        first_inconsistent(segs.take(k)).is_some(),
    ensures
        first_inconsistent(segs) == first_inconsistent(segs.take(k)),
    decreases segs.len() - k,
{
    if k < segs.len() {
        assert(segs.take(k + 1).drop_last() =~= segs.take(k));
        lemma_first_inconsistent_extend(segs, k + 1);
    } else {
        assert(segs.take(k) =~= segs);
    }
}

/// A memory image ready to run, with its entry address.
#[derive(Debug)]
pub struct ProgramImage {
    entry: usize,
    memory: Memory,
}

impl ProgramImage {
    /// The entry address.
    pub closed spec fn entry_spec(self) -> usize {
        self.entry
    }

    /// The memory contents.
    pub closed spec fn memory_spec(self) -> Seq<u8> {
        self.memory@
    }

    pub fn new(entry: usize, memory: Memory) -> (r: ProgramImage)
        ensures
            r.entry_spec() == entry,
            r.memory_spec() == memory@,
    {
        ProgramImage { entry, memory }
    }

    pub fn entry(&self) -> (r: usize)
        ensures
            r == self.entry_spec(),
    {
        self.entry
    }

    pub fn into_raw_image(self) -> (r: Memory)
        ensures
            r@ == self.memory_spec(),
    {
        self.memory
    }

    /// Lays out the segments in zeroed memory just large enough, in whole
    /// pages, to hold them all, copying each segment's data in order.
    ///
    /// Fails when the needed memory cannot be addressed, or else at the first
    /// segment whose addresses differ (checked first) or whose data is not
    /// as long as its size in memory.
    pub fn from_segments(entry: usize, segments: &Vec<Segment>) -> (r: Result<
        ProgramImage,
        LoadError,
    >)
        ensures
            required_memory(segments@) + PAGE_SIZE > usize::MAX ==> r == Err::<ProgramImage, LoadError>(
                LoadError::TooLarge,
            ),
            required_memory(segments@) + PAGE_SIZE <= usize::MAX ==> match first_inconsistent(
                segments@,
            ) {
                None => r.is_ok(),
                Some(i) => if segments@[i as int].virtual_address
                    != segments@[i as int].physical_address {
                    r == Err::<ProgramImage, LoadError>(LoadError::AddressMismatch { index: i as usize })
                } else {
                    r == Err::<ProgramImage, LoadError>(LoadError::SizeMismatch { index: i as usize })
                },
            },
            r matches Ok(img) ==> img.entry_spec() == entry && img.memory_spec() == image_of(
                segments@,
            ),
    {
        let ghost segs = segments@;
        let mut required: usize = 0;
        let mut i: usize = 0;
        proof {
            assert(segs.take(0) =~= Seq::<Segment>::empty());
        }
        while i < segments.len()
            invariant
                segs == segments@,
                i <= segs.len(),
                required == required_memory(segs.take(i as int)),
                required + PAGE_SIZE <= usize::MAX,
            decreases segs.len() - i,
        {
            let seg = &segments[i];
            proof {
                lemma_required_memory_bounds(segs, i as int);
            }
            if seg.virtual_address > usize::MAX - PAGE_SIZE || seg.memory_size > usize::MAX
                - PAGE_SIZE - seg.virtual_address {
                return Err(LoadError::TooLarge);
            }
            let end = seg.virtual_address + seg.memory_size;
            proof {
                assert(segs.take(i + 1).drop_last() =~= segs.take(i as int));
            }
            if end > required {
                required = end;
            }
            i = i + 1;
        }
        proof {
            assert(segs.take(i as int) =~= segs);
        }
        let mut mem = Memory::allocate(required);
        proof {
            let n = required as int;
            let a = PAGE_SIZE as int;
            assert(((n + a - 1) / a) * a >= n) by (nonlinear_arith)
                requires
                    a > 0,
                    n >= 0,
            ;
        }
        let ghost zero = mem@;
        let mut k: usize = 0;
        proof {
            assert(segs.take(0) =~= Seq::<Segment>::empty());
        }
        while k < segments.len()
            invariant
                segs == segments@,
                k <= segs.len(),
                required == required_memory(segs),
                required + PAGE_SIZE <= usize::MAX,
                mem@.len() == zero.len(),
                zero.len() >= required,
                zero == Seq::new(aligned_up(required_memory(segs), PAGE_SIZE as nat), |i: int| 0u8),
                forall|j: int| 0 <= j < k ==> #[trigger] segs[j].consistent(),
                mem@ == written(zero, segs.take(k as int)),
            decreases segs.len() - k,
        {
            let seg = &segments[k];
            proof {
                lemma_required_memory_bounds(segs, k as int);
            }
            if seg.virtual_address != seg.physical_address {
                proof {
                    lemma_first_inconsistent_prefix(segs, k as int);
                }
                return Err(LoadError::AddressMismatch { index: k });
            }
            if seg.data.len() != seg.memory_size {
                proof {
                    lemma_first_inconsistent_prefix(segs, k as int);
                }
                return Err(LoadError::SizeMismatch { index: k });
            }
            mem.write_bytes(seg.virtual_address, seg.data.as_slice());
            proof {
                assert(segs.take(k + 1).drop_last() =~= segs.take(k as int));
            }
            k = k + 1;
        }
        proof {
            assert(segs.take(k as int) =~= segs);
            lemma_first_inconsistent_prefix(segs, k as int);
        }
        Ok(ProgramImage { entry, memory: mem })
    }
}

} // verus!
