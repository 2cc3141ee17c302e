//! Recursive search and in-place replace over text files: path selection,
//! content sniffing, matching, highlighting, replacement and the output
//! sequencing that groups printed lines under file headers.
pub mod path_filter;
pub mod sniff;
pub mod matcher;
pub mod highlight;
pub mod replace;
pub mod output;
pub mod search;
pub mod roots;
