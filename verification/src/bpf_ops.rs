//! Kernel-side operator templates and the query compiler.

pub mod agg;
pub mod compiler;
pub mod hist;
pub mod window;

use vstd::prelude::*;

verus! {

/// Memory budget for one in-kernel window buffer, in bytes.
pub const MAX_MEM_BYTES: u64 = 2 << 21;

/// Conventional directory of the template assets.
pub const BPF_HEADERS_DIR: &'static str = "./bpf/";

/// A template instantiation: the template family, the conventional path of
/// its asset file, and the rendering context as JSON text.
#[derive(Debug)]
pub struct HeaderTemplate {
    pub name: String,
    pub tmpl_path: String,
    pub ctx: String,
}

} // verus!
