use vstd::prelude::*;

verus! {

/// The store's view of its flash partition: pages of `page_size` bytes laid
/// out from byte `start` of the device, which `flash` reaches.
pub struct DbFlash<T> {
    pub start: usize,
    pub page_size: usize,
    pub page_count: usize,
    pub flash: T,
}

impl<T> DbFlash<T> {
    /// The device address of byte `offset` of page `page`.
    pub open spec fn spec_address(&self, page: nat, offset: nat) -> int {
        self.start + page * self.page_size + offset
    }

    /// Number of pages the store may use.
    pub fn page_count(&self) -> (r: usize)
        ensures
            r == self.page_count,
    {
        self.page_count
    }

    /// The device address of byte `offset` of page `page`, when it fits the
    /// device's 32-bit address space.
    pub fn address(&self, page: usize, offset: usize) -> (r: Option<u32>)
        ensures
            r is Some <==> self.spec_address(page as nat, offset as nat) <= u32::MAX,
            r is Some ==> r->0 == self.spec_address(page as nat, offset as nat),
    {
        if self.start as u64 > u32::MAX as u64 || offset as u64 > u32::MAX as u64 {
            return None;
        }
        let span: u64 = if page == 0 || self.page_size == 0 {
            proof {
                assert(page * self.page_size == 0) by (nonlinear_arith)
                    requires
                        page == 0 || self.page_size == 0,
                ;
            }
            0
        } else if page as u64 > u32::MAX as u64 || self.page_size as u64 > u32::MAX as u64 {
            proof {
                assert(page * self.page_size > u32::MAX) by (nonlinear_arith)
                    requires
                        page > u32::MAX || self.page_size > u32::MAX,
                        page >= 1,
                        self.page_size >= 1,
                ;
            }
            return None;
        } else {
            proof {
                assert(page * self.page_size <= u32::MAX * u32::MAX) by (nonlinear_arith)
                    requires
                        page <= u32::MAX,
                        self.page_size <= u32::MAX,
                ;
            }
            page as u64 * self.page_size as u64
        };
        if span > u32::MAX as u64 {
            return None;
        }
        let total: u64 = self.start as u64 + span + offset as u64;
        if total > u32::MAX as u64 {
            return None;
        }
        Some(total as u32)
    }

    /// The device range that erasing page `page` clears: from its first byte
    /// up to, not including, the first byte of the next page.
    pub fn erase_range(&self, page: usize) -> (r: Option<(u32, u32)>)
        ensures
            r is Some <==> self.spec_address(page as nat + 1, 0) <= u32::MAX,
            r matches Some((from, to)) ==> from == self.spec_address(page as nat, 0) && to
                == self.spec_address(page as nat + 1, 0),
    {
        proof {
            assert((page as nat + 1) * self.page_size == page * self.page_size + self.page_size)
                by (nonlinear_arith);
        }
        let from = match self.address(page, 0) {
            Some(a) => a,
            None => return None,
        };
        if self.page_size as u64 > u32::MAX as u64 {
            return None;
        }
        let to: u64 = from as u64 + self.page_size as u64;
        if to > u32::MAX as u64 {
            return None;
        }
        Some((from, to as u32))
    }

    /// Stages `data` for a write: a page-sized buffer holding `data` first
    /// and zeroes after it. The device is handed its first `data.len()` bytes.
    pub fn stage_write(&self, data: &[u8]) -> (r: Vec<u8>)
        requires
            data@.len() <= self.page_size,
        ensures
            r@.len() == self.page_size,
            r@.subrange(0, data@.len() as int) == data@,
            forall|i: int| data@.len() <= i < r@.len() ==> r@[i] == 0,
    {
        let mut buf: Vec<u8> = Vec::with_capacity(self.page_size);
        let mut i: usize = 0;
        while i < self.page_size
            invariant
                data@.len() <= self.page_size,
                i <= self.page_size,
                buf@.len() == i,
                forall|j: int| 0 <= j < i && j < data@.len() ==> buf@[j] == data@[j],
                forall|j: int| data@.len() <= j < i ==> buf@[j] == 0,
            decreases self.page_size - i,
        {
            if i < data.len() {
                buf.push(data[i]);
            } else {
                buf.push(0u8);
            }
            i = i + 1;
        }
        assert(buf@.subrange(0, data@.len() as int) =~= data@);
        buf
    }

    /// Finishes a staged read: the caller gets exactly the `len` bytes it
    /// asked for, taken from the front of the page buffer.
    pub fn finish_read(&self, staged: &[u8], len: usize) -> (r: Vec<u8>)
        requires
            len <= staged@.len(),
        ensures
            r@ == staged@.subrange(0, len as int),
    {
        let mut out: Vec<u8> = Vec::with_capacity(len);
        let mut i: usize = 0;
        while i < len
            invariant
                len <= staged@.len(),
                i <= len,
                out@ == staged@.subrange(0, i as int),
            decreases len - i,
        {
            out.push(staged[i]);
            i = i + 1;
        }
        out
    }
}

} // verus!
