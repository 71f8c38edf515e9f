//! Build-time configuration: the folder to scan, the ordered include and
//! exclude glob patterns, the compression toggles, and the delivery mode.

use vstd::prelude::*;
use crate::filter::{
    all_patterns_valid, is_path_included, patterns_valid, spec_path_included, views_of,
};

verus! {

/// How the table serves its files: a static table fixes all data and
/// metadata when it is built; a dynamic table re-reads the file on every
/// request and never precomputes compression.
#[derive(Clone, Copy, PartialEq, Eq, Structural, Debug)]
pub enum Mode {
    Static,
    Dynamic,
}

/// Picks the delivery mode from the hosting build profile: an optimized
/// build bakes the table in; a rapid-iteration build reads from disk per
/// request, unless the override forces static delivery there too.
pub fn select_mode(optimized_build: bool, force_static: bool) -> (r: Mode)
    ensures
        r == Mode::Static <==> optimized_build || force_static,
{
    if optimized_build || force_static {
        Mode::Static
    } else {
        Mode::Dynamic
    }
}

/// The already-parsed configuration a table is built from.
pub struct Config {
    /// Root path to scan.
    pub folder: String,
    /// Ordered include glob patterns; empty means accept all.
    pub includes: Vec<String>,
    /// Ordered exclude glob patterns; empty means exclude none.
    pub excludes: Vec<String>,
    /// Whether include/exclude filtering is switched on at all; switched
    /// off, the filter passes every path through.
    pub filter_enabled: bool,
    /// Whether this build carries the zstd encoder at all.
    pub zstd_supported: bool,
    /// Whether this table asks for zstd variants (on by default).
    pub zstd: bool,
    /// The delivery mode.
    pub mode: Mode,
}

impl Config {
    /// The views of the include patterns.
    pub open spec fn includes_view(&self) -> Seq<Seq<char>> {
        self.includes@.map_values(|s: String| s@)
    }

    /// The views of the exclude patterns.
    pub open spec fn excludes_view(&self) -> Seq<Seq<char>> {
        self.excludes@.map_values(|s: String| s@)
    }

    /// Every configured pattern is a well-formed glob — vacuously so with
    /// filtering switched off, where no pattern is ever compiled.
    pub open spec fn patterns_ok(&self) -> bool {
        self.filter_enabled ==> all_patterns_valid(self.includes_view()) && all_patterns_valid(
            self.excludes_view(),
        )
    }

    /// Whether zstd variants are computed: the build must carry the encoder
    /// and the table must ask for it.
    pub open spec fn use_zstd(&self) -> bool {
        self.zstd_supported && self.zstd
    }

    /// Whether a path is part of the file set: everything passes with
    /// filtering switched off; otherwise excludes dominate, and an empty
    /// include list accepts every remaining path.
    pub open spec fn spec_included(&self, path: Seq<char>) -> bool {
        !self.filter_enabled || spec_path_included(
            path,
            self.includes_view(),
            self.excludes_view(),
        )
    }

    /// A configuration with the given folder and every default: no patterns,
    /// filtering on, zstd on, static delivery.
    pub fn new(folder: String) -> (r: Config)
        ensures
            r.folder@ == folder@,
            r.includes@.len() == 0,
            r.excludes@.len() == 0,
            r.filter_enabled,
            r.zstd_supported,
            r.zstd,
            r.mode == Mode::Static,
    {
        Config {
            folder,
            includes: Vec::new(),
            excludes: Vec::new(),
            filter_enabled: true,
            zstd_supported: true,
            zstd: true,
            mode: Mode::Static,
        }
    }

    /// Adds one include pattern at the end of the ordered list.
    pub fn add_include(&mut self, pattern: String)
        ensures
            final(self).includes@ == old(self).includes@.push(pattern),
            final(self).excludes@ == old(self).excludes@,
            final(self).folder == old(self).folder,
            final(self).filter_enabled == old(self).filter_enabled,
            final(self).zstd_supported == old(self).zstd_supported,
            final(self).zstd == old(self).zstd,
            final(self).mode == old(self).mode,
    {
        self.includes.push(pattern);
    }

    /// Adds one exclude pattern at the end of the ordered list.
    pub fn add_exclude(&mut self, pattern: String)
        ensures
            final(self).excludes@ == old(self).excludes@.push(pattern),
            final(self).includes@ == old(self).includes@,
            final(self).folder == old(self).folder,
            final(self).filter_enabled == old(self).filter_enabled,
            final(self).zstd_supported == old(self).zstd_supported,
            final(self).zstd == old(self).zstd,
            final(self).mode == old(self).mode,
    {
        self.excludes.push(pattern);
    }

    /// Checks every configured pattern up front: an invalid pattern is a
    /// configuration error that fails the whole build, not a per-file one.
    pub fn validate_patterns(&self) -> (r: bool)
        ensures
            r == self.patterns_ok(),
    {
        if !self.filter_enabled {
            return true;
        }
        let includes = str_refs(&self.includes);
        let excludes = str_refs(&self.excludes);
        proof {
            assert(views_of(includes@) =~= self.includes_view());
            assert(views_of(excludes@) =~= self.excludes_view());
        }
        patterns_valid(includes.as_slice()) && patterns_valid(excludes.as_slice())
    }

    /// Decides whether `rel_path` is part of the file set, once the patterns
    /// have been checked.
    pub fn included_of_valid(&self, rel_path: &str) -> (r: bool)
        requires
            self.patterns_ok(),
        ensures
            r == self.spec_included(rel_path@),
    {
        if !self.filter_enabled {
            return true;
        }
        let includes = str_refs(&self.includes);
        let excludes = str_refs(&self.excludes);
        proof {
            assert(views_of(includes@) =~= self.includes_view());
            assert(views_of(excludes@) =~= self.excludes_view());
        }
        is_path_included(rel_path, includes.as_slice(), excludes.as_slice())
    }

    /// Decides whether `rel_path` is part of this configuration's file set,
    /// reporting an invalid pattern as `None`: a configuration error, not a
    /// per-file one.
    pub fn should_include(&self, rel_path: &str) -> (r: Option<bool>)
        ensures
            r is Some <==> self.patterns_ok(),
            r matches Some(m) ==> m == self.spec_included(rel_path@),
    {
        if !self.filter_enabled {
            return Some(true);
        }
        let includes = str_refs(&self.includes);
        let excludes = str_refs(&self.excludes);
        proof {
            assert(views_of(includes@) =~= self.includes_view());
            assert(views_of(excludes@) =~= self.excludes_view());
        }
        if patterns_valid(includes.as_slice()) && patterns_valid(excludes.as_slice()) {
            Some(is_path_included(rel_path, includes.as_slice(), excludes.as_slice()))
        } else {
            None
        }
    }
}

/// Borrows each owned pattern as a plain string slice.
fn str_refs(patterns: &Vec<String>) -> (r: Vec<&str>)
    ensures
        r@.len() == patterns@.len(),
        forall|i: int| 0 <= i < r@.len() ==> #[trigger] r@[i]@ == patterns@[i]@,
{
    let mut out: Vec<&str> = Vec::new();
    let mut i: usize = 0;
    while i < patterns.len()
        invariant
            0 <= i <= patterns@.len(),
            out@.len() == i,
            forall|j: int| 0 <= j < i ==> #[trigger] out@[j]@ == patterns@[j]@,
        decreases patterns@.len() - i,
    {
        out.push(patterns[i].as_str());
        i += 1;
    }
    out
}

} // verus!
