//! From the constants of a C header to the source text of a table of named
//! constants: reading `#define` and `enum` lines, ordering the constants by
//! number, and writing the items of the table.

pub mod args;
pub mod entry;
pub mod number;
pub mod output;
pub mod scan;
pub mod sort;

pub use self::args::{Args, Switches};
pub use self::entry::{CEnum, CEnumView};
pub use self::output::FormatOutput;
pub use self::scan::{get_num, parse_buff};
