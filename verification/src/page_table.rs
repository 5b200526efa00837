//! Page tables of a RISC-V machine, from the bits of one entry up to a
//! memory management unit with its translation cache.

pub mod pte_flags;
pub mod page_table_walk;
pub mod tlb_sim;
pub mod multi_level_pt;
