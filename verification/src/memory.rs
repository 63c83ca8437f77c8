//! Linear memory instances.
//!
//! A defined memory owns its byte storage, whose length is always a whole
//! number of 65536-byte pages; growing past the declared or absolute
//! maximum fails without touching the contents.

use vstd::prelude::*;

verus! {

/// Bytes per WebAssembly page.
pub const PAGE_SIZE: usize = 65536;

/// The hard ceiling on page count: a 32-bit address space.
pub const MAX_PAGES: u32 = 65536;

/// A defined linear memory: its bytes, and its declared bounds in pages.
pub struct DefinedMemoryInstance {
    data: Vec<u8>,
    initial: u32,
    max: Option<u32>,
}

impl DefinedMemoryInstance {
    /// Every memory value satisfies `wf` at all times.
    #[verifier::type_invariant]
    pub open spec fn type_inv(self) -> bool {
        self.wf()
    }

    /// The bytes held, as a specification-level sequence.
    pub closed spec fn view(&self) -> Seq<u8> {
        self.data@
    }



    /// The declared maximum in pages, if one was declared.
    pub closed spec fn spec_max(&self) -> Option<u32> {
        self.max
    }

    /// The size is a whole number of pages, within the 32-bit ceiling and
    /// any declared maximum.
    pub open spec fn wf(&self) -> bool {
        &&& self.view().len() % (PAGE_SIZE as nat) == 0
        &&& self.view().len() <= (MAX_PAGES as nat) * (PAGE_SIZE as nat)
        &&& match self.spec_max() {
            Some(m) => m <= MAX_PAGES && self.view().len() <= (m as nat) * (PAGE_SIZE as nat),
            None => true,
        }
    }

    /// The current size in pages.
    pub open spec fn spec_page_count(&self) -> nat {
        self.view().len() / (PAGE_SIZE as nat)
    }

    /// Creates a zero-filled memory of `initial` pages.
    pub fn new(initial: u32, max: Option<u32>) -> (m: Self)
        requires
            initial <= MAX_PAGES,
            initial as nat * PAGE_SIZE as nat <= usize::MAX as nat,
            match max {
                Some(mx) => initial <= mx && mx <= MAX_PAGES,
                None => true,
            },
        ensures
            m.wf(),
            m.view().len() == initial as nat * PAGE_SIZE as nat,
            forall|i: int| 0 <= i < m.view().len() ==> m.view()[i] == 0,
            m.spec_max() == max,
    {
        let n: usize = (initial as usize) * PAGE_SIZE;
        let data: Vec<u8> = vec![0u8; n];
        proof {
            assert forall|i: int| 0 <= i < data@.len() implies data@[i] == 0 by {
                assert(cloned(0u8, data@[i]));
            }
            assert(n as nat % (PAGE_SIZE as nat) == 0) by (nonlinear_arith)
                requires
                    n == initial as nat * PAGE_SIZE as nat,
            ;
            if max is Some {
                assert(initial as nat * PAGE_SIZE as nat <= max->Some_0 as nat
                    * PAGE_SIZE as nat) by (nonlinear_arith)
                    requires
                        initial <= max->Some_0,
                ;
            }
            assert(initial as nat * PAGE_SIZE as nat <= MAX_PAGES as nat * PAGE_SIZE as nat)
                by (nonlinear_arith)
                requires
                    initial <= MAX_PAGES,
            ;
        }
        DefinedMemoryInstance { data, initial, max }
    }

    /// The current size in pages.
    pub fn page_count(&self) -> (r: u32)
        ensures
            r as nat == self.spec_page_count(),
    {
        proof {
            use_type_invariant(self);
            assert(self.view().len() / PAGE_SIZE as nat <= MAX_PAGES as nat) by (nonlinear_arith)
                requires
                    self.view().len() <= MAX_PAGES as nat * PAGE_SIZE as nat,
            ;
        }
        (self.data.len() / PAGE_SIZE) as u32
    }

    /// The declared maximum in pages, if one was declared.
    pub fn max_pages(&self) -> (r: Option<u32>)
        ensures
            r == self.spec_max(),
    {
        self.max
    }

    /// The current size in bytes.
    pub fn byte_len(&self) -> (r: usize)
        ensures
            r == self.view().len(),
    {
        self.data.len()
    }

    /// Grows the memory by `delta` zero-filled pages. On success the old
    /// page count comes back; when the declared or absolute maximum would
    /// be passed, -1 comes back and the memory is unchanged.
    pub fn grow(&mut self, delta: u32) -> (r: i32)
        ensures
            final(self).wf(),
            final(self).spec_max() == old(self).spec_max(),
            ({
                let limit = match old(self).spec_max() {
                    Some(m) => m as nat,
                    None => MAX_PAGES as nat,
                };
                if old(self).spec_page_count() + delta as nat <= limit && (old(
                    self,
                ).spec_page_count() + delta as nat) * PAGE_SIZE as nat <= usize::MAX as nat {
                    &&& r as nat == old(self).spec_page_count()
                    &&& final(self).spec_page_count() == old(self).spec_page_count()
                        + delta as nat
                    &&& final(self).view().subrange(0, old(self).view().len() as int) == old(
                        self,
                    ).view()
                    &&& forall|i: int|
                        old(self).view().len() <= i < final(self).view().len()
                            ==> #[trigger] final(self).view()[i] == 0
                } else {
                    r == -1i32 && final(self).view() == old(self).view()
                }
            }),
    {
        proof {
            use_type_invariant(&*self);
        }
        let pages = self.page_count();
        let limit: u32 = match self.max {
            Some(m) => m,
            None => MAX_PAGES,
        };
        proof {
            assert(self.spec_page_count() * PAGE_SIZE as nat == self.view().len())
                by (nonlinear_arith)
                requires
                    self.view().len() % (PAGE_SIZE as nat) == 0,
                    self.spec_page_count() == self.view().len() / (PAGE_SIZE as nat),
            ;
        }
        let cap: u64 = (usize::MAX / PAGE_SIZE) as u64;
        if (pages as u64) + (delta as u64) > limit as u64 || (pages as u64) + (delta as u64)
            > cap {
            proof {
                if self.spec_max() is None && self.spec_page_count() + delta as nat
                    <= MAX_PAGES as nat {
                    assert((self.spec_page_count() + delta as nat) * PAGE_SIZE as nat
                        > usize::MAX as nat) by (nonlinear_arith)
                        requires
                            self.spec_page_count() + delta as nat > (usize::MAX as nat) / (
                            PAGE_SIZE as nat),
                    ;
                }
                if self.spec_max() is Some && self.spec_page_count() + delta as nat
                    <= self.spec_max()->Some_0 as nat {
                    assert((self.spec_page_count() + delta as nat) * PAGE_SIZE as nat
                        > usize::MAX as nat) by (nonlinear_arith)
                        requires
                            self.spec_page_count() + delta as nat > (usize::MAX as nat) / (
                            PAGE_SIZE as nat),
                    ;
                }
            }
            return -1;
        }
        proof {
            assert((pages as nat + delta as nat) * PAGE_SIZE as nat <= usize::MAX as nat)
                by (nonlinear_arith)
                requires
                    pages as nat + delta as nat <= (usize::MAX as nat) / (PAGE_SIZE as nat),
            ;
            assert(delta as nat * PAGE_SIZE as nat + pages as nat * PAGE_SIZE as nat == (
            pages as nat + delta as nat) * PAGE_SIZE as nat) by (nonlinear_arith);
        }
        let ghost pre = self.data@;
        let mut buf: Vec<u8> = Vec::new();
        core::mem::swap(&mut self.data, &mut buf);
        let mut added: usize = 0;
        let target: usize = (delta as usize) * PAGE_SIZE;
        while added < target
            invariant
                added <= target,
                buf@.len() == pre.len() + added,
                buf@.subrange(0, pre.len() as int) == pre,
                forall|i: int| pre.len() <= i < buf@.len() ==> buf@[i] == 0,
                pre.len() + target <= usize::MAX,
            decreases target - added,
        {
            buf.push(0);
            proof {
                assert(buf@.subrange(0, pre.len() as int) =~= pre);
            }
            added = added + 1;
        }
        proof {
            assert(buf@.len() % (PAGE_SIZE as nat) == 0 && buf@.len() / (PAGE_SIZE as nat)
                == pages as nat + delta as nat) by (nonlinear_arith)
                requires
                    buf@.len() == (pages as nat + delta as nat) * (PAGE_SIZE as nat),
            ;
            assert(buf@.len() <= limit as nat * PAGE_SIZE as nat) by (nonlinear_arith)
                requires
                    buf@.len() == (pages as nat + delta as nat) * (PAGE_SIZE as nat),
                    pages as nat + delta as nat <= limit as nat,
            ;
            assert(limit as nat * PAGE_SIZE as nat <= MAX_PAGES as nat * PAGE_SIZE as nat)
                by (nonlinear_arith)
                requires
                    limit <= MAX_PAGES,
            ;
            if self.spec_max() is Some {
                assert(buf@.len() <= self.spec_max()->Some_0 as nat * PAGE_SIZE as nat)
                    by (nonlinear_arith)
                    requires
                        buf@.len() == (pages as nat + delta as nat) * (PAGE_SIZE as nat),
                        pages as nat + delta as nat <= self.spec_max()->Some_0 as nat,
                ;
            }
        }
        core::mem::swap(&mut self.data, &mut buf);
        proof {
            assert(pre.len() + delta as nat * PAGE_SIZE as nat == (pages as nat + delta as nat)
                * PAGE_SIZE as nat) by (nonlinear_arith)
                requires
                    pre.len() == pages as nat * PAGE_SIZE as nat,
            ;
            assert(self.data@.len() % (PAGE_SIZE as nat) == 0 && self.data@.len() / (
            PAGE_SIZE as nat) == pages as nat + delta as nat) by (nonlinear_arith)
                requires
                    self.data@.len() == (pages as nat + delta as nat) * (PAGE_SIZE as nat),
            ;
            assert(self.data@.len() <= limit as nat * PAGE_SIZE as nat) by (nonlinear_arith)
                requires
                    self.data@.len() == (pages as nat + delta as nat) * (PAGE_SIZE as nat),
                    pages as nat + delta as nat <= limit as nat,
            ;
            assert(limit as nat * PAGE_SIZE as nat <= MAX_PAGES as nat * PAGE_SIZE as nat)
                by (nonlinear_arith)
                requires
                    limit <= MAX_PAGES,
            ;
        }
        pages as i32
    }

    /// Reads `n` bytes starting at `addr`; fails exactly when the range
    /// runs past the end of memory.
    pub fn load_bytes(&self, addr: usize, n: usize) -> (r: Option<Vec<u8>>)
        ensures
            match r {
                Some(bytes) => addr + n <= self.view().len() && bytes@ == self.view().subrange(
                    addr as int,
                    addr + n,
                ),
                None => addr + n > self.view().len(),
            },
    {
        if n > self.data.len() || addr > self.data.len() - n {
            return None;
        }
        let mut out: Vec<u8> = Vec::new();
        let mut i: usize = 0;
        while i < n
            invariant
                i <= n,
                addr + n <= self.data@.len(),
                addr + n <= usize::MAX,
                out@ == self.data@.subrange(addr as int, addr + i),
            decreases n - i,
        {
            let ghost pre = out@;
            out.push(self.data[addr + i]);
            proof {
                assert(out@ =~= self.data@.subrange(addr as int, addr + i + 1));
            }
            i = i + 1;
        }
        Some(out)
    }

    /// Writes `bytes` starting at `addr`; fails exactly when the range
    /// runs past the end of memory, leaving the contents unchanged.
    pub fn store_bytes(&mut self, addr: usize, bytes: &[u8]) -> (r: Result<(), ()>)
        ensures
            final(self).wf(),
            final(self).spec_max() == old(self).spec_max(),
            final(self).view().len() == old(self).view().len(),
            match r {
                Ok(()) => addr + bytes@.len() <= old(self).view().len() && final(self).view()
                    == old(self).view().subrange(0, addr as int) + bytes@ + old(
                    self,
                ).view().subrange(addr + bytes@.len(), old(self).view().len() as int),
                Err(()) => addr + bytes@.len() > old(self).view().len() && final(self).view()
                    == old(self).view(),
            },
    {
        proof {
            use_type_invariant(&*self);
            vstd::slice::axiom_spec_len(bytes);
        }
        let n = bytes.len();
        if n > self.data.len() || addr > self.data.len() - n {
            return Err(());
        }
        let mut i: usize = 0;
        while i < n
            invariant
                i <= n,
                self.wf(),
                addr + n <= self.data@.len(),
                addr + n <= usize::MAX,
                self.max == old(self).spec_max(),
                n == bytes@.len(),
                self.data@.len() == old(self).view().len(),
                self.data@ == old(self).view().subrange(0, addr as int) + bytes@.subrange(
                    0,
                    i as int,
                ) + old(self).view().subrange(addr + i, old(self).view().len() as int),
            decreases n - i,
        {
            proof {
                vstd::slice::axiom_spec_len(bytes);
            }
            let ghost pre = self.data@;
            self.data[addr + i] = bytes[i];
            proof {
                assert(self.data@ =~= old(self).view().subrange(0, addr as int) + bytes@.subrange(
                    0,
                    i + 1,
                ) + old(self).view().subrange(addr + i + 1, old(self).view().len() as int));
            }
            i = i + 1;
        }
        proof {
            assert(self.data@ =~= old(self).view().subrange(0, addr as int) + bytes@ + old(
                self,
            ).view().subrange(addr + bytes@.len(), old(self).view().len() as int));
            assert(self.data@.len() == old(self).view().len());
        }
        Ok(())
    }

    /// Hands the whole contents out as a fresh vector.
    pub fn snapshot(&self) -> (r: Vec<u8>)
        ensures
            r@ == self.view(),
    {
        let mut out: Vec<u8> = Vec::new();
        let mut i: usize = 0;
        while i < self.data.len()
            invariant
                i <= self.data@.len(),
                out@ == self.data@.subrange(0, i as int),
            decreases self.data@.len() - i,
        {
            out.push(self.data[i]);
            proof {
                assert(out@ =~= self.data@.subrange(0, i + 1));
            }
            i = i + 1;
        }
        proof {
            assert(out@ =~= self.data@);
        }
        out
    }

    /// Swaps the byte storage with `other`, so that an embedder-facing
    /// caller can lend the contents out without copying them.
    pub fn swap_data(&mut self, other: &mut Vec<u8>)
        requires
            old(other)@.len() % (PAGE_SIZE as nat) == 0,
            old(other)@.len() <= (MAX_PAGES as nat) * (PAGE_SIZE as nat),
            match old(self).spec_max() {
                Some(mx) => old(other)@.len() <= (mx as nat) * (PAGE_SIZE as nat),
                None => true,
            },
        ensures
            final(self).view() == old(other)@,
            final(other)@ == old(self).view(),
            final(self).spec_max() == old(self).spec_max(),
        no_unwind
    {
        proof {
            use_type_invariant(&*self);
        }
        core::mem::swap(&mut self.data, other);
    }
}

} // verus!
