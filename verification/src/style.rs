//! The escape sequences and symbols that colour the dashboard.

use vstd::prelude::*;

verus! {

pub const GREEN: &'static str = "\x1b[32m";
pub const RED: &'static str = "\x1b[31m";
pub const YELLOW: &'static str = "\x1b[33m";
pub const BLUE: &'static str = "\x1b[34m";
pub const CYAN: &'static str = "\x1b[36m";
pub const BOLD: &'static str = "\x1b[1m";
pub const DIM: &'static str = "\x1b[2m";
pub const RESET: &'static str = "\x1b[0m";

/// One filled segment of the progress bar.
pub const BAR_FULL: char = '█';
/// One empty segment of the progress bar.
pub const BAR_EMPTY: char = '░';

} // verus!
