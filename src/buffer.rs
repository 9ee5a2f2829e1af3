//! The bookkeeping of an executable code buffer: how large a region a byte
//! sequence needs, and the lifecycle of that region from mapping to release.
//! The mapping itself, the copy into it and the call into it are made by the
//! caller with the values handed out here.
use vstd::prelude::*;

verus! {

/// The page granularity of executable allocations, in bytes.
pub const PAGE_SIZE: usize = 4096;

/// The number of pages needed to hold `len` bytes: `ceil(len / PAGE_SIZE)`.
pub open spec fn pages_for(len: nat) -> nat {
    ((len + PAGE_SIZE - 1) as nat) / (PAGE_SIZE as nat)
}

/// `len` rounded up to a whole number of pages.
pub open spec fn rounded_size(len: nat) -> nat {
    pages_for(len) * (PAGE_SIZE as nat)
}

/// A non-empty byte sequence of length `len` fits in `rounded_size(len)`
/// bytes, a whole number of at least one page, with less than a page to
/// spare.
pub proof fn lemma_rounded_size(len: nat)
    requires
        len > 0,
    ensures
        rounded_size(len) >= len,
        rounded_size(len) % (PAGE_SIZE as nat) == 0,
        rounded_size(len) >= PAGE_SIZE,
        rounded_size(len) < len + PAGE_SIZE,
{
    let p = pages_for(len);
    assert(p * 4096 >= len && p * 4096 < len + 4096 && p >= 1) by (nonlinear_arith)
        requires
            len > 0,
            p == ((len + 4095) as nat) / 4096,
    ;
    assert((p * 4096) % 4096 == 0) by (nonlinear_arith);
}

/// The smallest multiple of `PAGE_SIZE` that is at least `len`, found as the
/// allocation loop finds it: one page at a time.
fn round_to_pages(len: usize) -> (size: usize)
    requires
        len + PAGE_SIZE <= usize::MAX,
    ensures
        size == rounded_size(len as nat),
{
    let mut size: usize = 0;
    let ghost mut pages: nat = 0;
    while size < len
        invariant
            len + PAGE_SIZE <= usize::MAX,
            size == pages * (PAGE_SIZE as nat),
            size < len + PAGE_SIZE,
            pages == 0 || (pages - 1) * (PAGE_SIZE as nat) < len,
        decreases len + PAGE_SIZE - size,
    {
        size = size + PAGE_SIZE;
        proof {
            pages = pages + 1;
        }
    }
    assert(pages == pages_for(len as nat)) by (nonlinear_arith)
        requires
            size == pages * 4096,
            size >= len,
            pages == 0 || (pages - 1) * 4096 < len,
            pages_for(len as nat) == ((len + 4095) as nat) / 4096,
    ;
    size
}

/// Where a buffer's memory region stands in its lifecycle.
#[derive(Clone, Copy, Debug, PartialEq, Eq, Structural)]
pub enum Region {
    /// No region has been obtained yet.
    Unmapped,
    /// A region of the buffer's size is mapped at `base`.
    Mapped { base: usize },
    /// The region has been handed back; it is never touched again.
    Released,
}

/// What a buffer is, mathematically.
pub ghost struct JitterView {
    /// The machine code, placed at the start of the region.
    pub code: Seq<u8>,
    /// The size of the region in bytes: a whole number of pages.
    pub size: usize,
    pub region: Region,
}

/// An executable code buffer: a byte sequence, the page-rounded size of the
/// region that holds it, and where that region stands. It hands out the
/// address to map the code at and the one release of that region.
pub struct Jitter {
    code: Vec<u8>,
    size: usize,
    region: Region,
}

impl View for Jitter {
    type V = JitterView;

    closed spec fn view(&self) -> JitterView {
        JitterView { code: self.code@, size: self.size, region: self.region }
    }
}

/// The view after `release`: whatever it was, the region is released.
pub open spec fn released(v: JitterView) -> JitterView {
    JitterView { region: Region::Released, ..v }
}

/// What `release` hands back for a buffer in state `v`: the base and size
/// to unmap when a region is mapped, and nothing otherwise.
pub open spec fn handle_to_release(v: JitterView) -> Option<(usize, usize)> {
    match v.region {
        Region::Mapped { base } => Some((base, v.size)),
        _ => None,
    }
}

/// Whether a region of `v.size` bytes at `base` can be attached to `v`: none
/// is attached or released yet, the region holds at least a page, and it
/// does not run past the end of the address space.
pub open spec fn can_attach(v: JitterView, base: usize) -> bool {
    v.region == Region::Unmapped && v.size > 0 && base + v.size <= usize::MAX
}

/// A mapped region is released exactly once: the first release hands back
/// its base and size, and after it no release hands back anything and no
/// region can be attached again.
pub proof fn lemma_release_once(v: JitterView, base: usize)
    requires
        v.region is Mapped,
    ensures
        handle_to_release(v) == Some((v.region->base, v.size)),
        handle_to_release(released(v)) is None,
        handle_to_release(released(released(v))) is None,
        released(released(v)) == released(v),
        !can_attach(released(v), base),
{
}

impl Jitter {
    /// The buffer's size is the code's length rounded up to whole pages, and
    /// a mapped region lies within the address space.
    pub open spec fn wf(&self) -> bool {
        &&& self@.size == rounded_size(self@.code.len())
        &&& match self@.region {
            Region::Mapped { base } => base + self@.size <= usize::MAX,
            _ => true,
        }
    }

    /// A buffer for `bytes`, with no region yet; its size is the length of
    /// `bytes` rounded up to whole pages.
    pub fn new(bytes: &[u8]) -> (r: Jitter)
        requires
            bytes@.len() + PAGE_SIZE <= usize::MAX,
        ensures
            r.wf(),
            r@.code == bytes@,
            r@.size == rounded_size(bytes@.len()),
            r@.size >= bytes@.len(),
            r@.region == Region::Unmapped,
    {
        if bytes.len() > 0 {
            proof {
                lemma_rounded_size(bytes@.len());
            }
        }
        let size = round_to_pages(bytes.len());
        let mut code: Vec<u8> = Vec::with_capacity(bytes.len());
        let mut i: usize = 0;
        while i < bytes.len()
            invariant
                i <= bytes@.len(),
                code@ == bytes@.subrange(0, i as int),
            decreases bytes@.len() - i,
        {
            code.push(bytes[i]);
            i = i + 1;
            assert(code@ =~= bytes@.subrange(0, i as int));
        }
        assert(code@ =~= bytes@);
        Jitter { code, size, region: Region::Unmapped }
    }

    /// The size in bytes of the region that holds the code.
    pub fn region_size(&self) -> (r: usize)
        ensures
            r == self@.size,
    {
        self.size
    }

    /// The code to be placed at the start of the region.
    pub fn code(&self) -> (r: &[u8])
        ensures
            r@ == self@.code,
    {
        self.code.as_slice()
    }

    /// Records that the region for this buffer was mapped at `base`, and
    /// says whether it was taken. A buffer takes one region in its lifetime,
    /// of at least one page, and never after a release.
    pub fn attach(&mut self, base: usize) -> (r: bool)
        requires
            old(self).wf(),
        ensures
            final(self).wf(),
            r == can_attach(old(self)@, base),
            r ==> final(self)@ == (JitterView { region: Region::Mapped { base }, ..old(self)@ }),
            !r ==> final(self)@ == old(self)@,
    {
        if self.region == Region::Unmapped && self.size > 0 && base <= usize::MAX - self.size {
            self.region = Region::Mapped { base };
            true
        } else {
            false
        }
    }

    /// The address to call the code at: the base of the mapped region, and
    /// nothing when no region is mapped.
    pub fn entry(&self) -> (r: Option<usize>)
        ensures
            r == (match self@.region {
                Region::Mapped { base } => Some(base),
                _ => None,
            }),
    {
        match self.region {
            Region::Mapped { base } => Some(base),
            _ => None,
        }
    }

    /// Marks the region released and hands back the base and size to unmap,
    /// the first time a mapped region is released; nothing otherwise.
    pub fn release(&mut self) -> (r: Option<(usize, usize)>)
        requires
            old(self).wf(),
        ensures
            final(self).wf(),
            final(self)@ == released(old(self)@),
            r == handle_to_release(old(self)@),
    {
        let r = match self.region {
            Region::Mapped { base } => Some((base, self.size)),
            _ => None,
        };
        self.region = Region::Released;
        r
    }
}

} // verus!
