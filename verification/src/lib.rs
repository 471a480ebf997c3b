//! Client-side model of the Lospec palette catalog: the color codec, the
//! palette model, the search query, the listing of search results and the
//! export of a palette to disk formats. Everything here computes on plain
//! values; fetching and writing are left to the caller.
pub mod cli;
pub mod cmd;
pub mod palette;
pub mod text;
