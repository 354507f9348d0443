//! The decisions of the command-line tools built on the library: the
//! `l2cat` and `rfcat` connection tools, the `blumon` device monitor and
//! the `bluadv` advertiser.
pub mod io_loop;
pub mod l2cat;
pub mod rfcat;
pub mod blumon;
pub mod bluadv;
