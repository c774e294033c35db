//! Resource service: operation labels.

use vstd::prelude::*;

verus! {

pub const SBRK: usize = 1;
pub const ALLOC: usize = 2;
pub const DMA_ALLOC: usize = 3;
pub const FREE: usize = 4;
pub const GET_CAP: usize = 5;
pub const REGISTER_CAP: usize = 6;
pub const GET_CONFIG: usize = 7;
pub const GET_STATUS: usize = 8;

/// Kind of kernel object to allocate.
#[derive(Debug, Clone, Copy, PartialEq, Eq, Structural)]
pub enum CapType {
    CNode,
    PageTable,
    Page,
}

impl CapType {
    /// The wire code of the kind.
    pub fn code(self) -> (c: usize)
        ensures
            c == spec_cap_type_code(self),
    {
        match self {
            CapType::CNode => 1,
            CapType::PageTable => 2,
            CapType::Page => 3,
        }
    }

    /// The level of the smallest page that holds `pages` base pages, or
    /// `None` when there is no such page.
    pub fn page_pages_to_level(pages: usize) -> (l: Option<usize>)
        ensures
            l == spec_page_level(pages as int),
    {
        if pages == 0 {
            None
        } else if pages <= 1 {
            Some(0)
        } else if pages <= PAGE_TABLE_ENTRIES {
            Some(1)
        } else if pages <= PAGE_TABLE_ENTRIES * PAGE_TABLE_ENTRIES {
            Some(2)
        } else {
            None
        }
    }
}

/// Entries of one page table: a page of one level spans this many pages of
/// the level below.
pub const PAGE_TABLE_ENTRIES: usize = 512;

/// Base pages spanned by a page of `level`.
pub open spec fn spec_level_pages(level: int) -> int {
    if level == 0 {
        1
    } else if level == 1 {
        PAGE_TABLE_ENTRIES as int
    } else {
        (PAGE_TABLE_ENTRIES * PAGE_TABLE_ENTRIES) as int
    }
}

/// The smallest level, of the three a page may have, whose page spans at
/// least `pages` base pages; none for zero pages or more than the largest
/// page spans.
pub open spec fn spec_page_level(pages: int) -> Option<usize> {
    if pages <= 0 || pages > spec_level_pages(2) {
        None
    } else if pages <= spec_level_pages(0) {
        Some(0)
    } else if pages <= spec_level_pages(1) {
        Some(1)
    } else {
        Some(2)
    }
}

/// The wire code of an object kind.
pub open spec fn spec_cap_type_code(t: CapType) -> usize {
    match t {
        CapType::CNode => 1,
        CapType::PageTable => 2,
        CapType::Page => 3,
    }
}

/// Kind of resource a capability is registered or looked up under, by its
/// wire code.
#[derive(Debug, Clone, Copy, PartialEq, Eq, Structural)]
pub struct ResourceType(pub usize);

/// Memory figures reported by the resource server.
#[derive(Debug, Clone, Copy, PartialEq, Eq, Structural)]
pub struct MemoryStatus {
    pub available_bytes: usize,
    pub total_bytes: usize,
}

/// Status reported by the resource server.
#[derive(Debug, Clone, Copy, PartialEq, Eq, Structural)]
pub struct WarrenStatus {
    pub memory: MemoryStatus,
}

} // verus!
