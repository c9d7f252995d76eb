//! The plan the request-handling stack is built from: the bundled asset
//! tree with a single-page fallback, compression above a size floor, and
//! permissive CORS. The plan fixes every choice as a plain value; wiring
//! the actual middleware around a listener is the caller's concern.

use vstd::prelude::*;
use vstd::string::*;

verus! {

/// Every choice the request-handling stack is built from.
pub struct RouterPlan {
    /// The directory the asset tree is served from.
    pub assets_dir: String,
    /// The file served for any path the asset tree does not match — the
    /// single-page application's entry point.
    pub fallback_file: String,
    /// Responses at or under this many bytes are not compressed.
    pub min_compress_size: u64,
    /// The compression encodings offered.
    pub gzip: bool,
    pub deflate: bool,
    pub br: bool,
    pub zstd: bool,
    /// How long, in seconds, a preflight answer may be cached; CORS itself
    /// is permissive: any origin, method and header.
    pub cors_max_age_secs: u64,
}

impl RouterPlan {
    /// The plan this service serves. The configuration carries no routing
    /// choices yet, so the plan is the same for every configuration.
    pub fn new() -> (r: RouterPlan)
        ensures
            r.assets_dir@ == "assets"@,
            r.fallback_file@ == "assets/index.html"@,
            r.min_compress_size == 256,
            r.gzip,
            r.deflate,
            r.br,
            r.zstd,
            r.cors_max_age_secs == 3600,
    {
        RouterPlan {
            assets_dir: String::from_str("assets"),
            fallback_file: String::from_str("assets/index.html"),
            min_compress_size: 256,
            gzip: true,
            deflate: true,
            br: true,
            zstd: true,
            cors_max_age_secs: 3600,
        }
    }
}

} // verus!
