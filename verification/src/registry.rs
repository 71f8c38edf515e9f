//! The registry: an immutable table from relative path to static file
//! record, built once from the scanned files and a configuration. Keys use
//! forward slashes, insertion follows scan order, and lookup is an exact,
//! case-sensitive string match.

use vstd::prelude::*;
use crate::compress::{brotli_variant, gzip_variant, zstd_variant};
use crate::config::Config;
use crate::file::{EmbeddedFile, EmbeddedFileV};
use crate::filter::matches_any;
use crate::metadata::{
    etag_chars, hash_chars, mime_guess_of, spec_last_modified, spec_timestamp, ModTime,
};
use crate::paths::{normalize_seps, normalize_separators, str_eq};
use vstd::slice::slice_to_vec;

verus! {

/// One scanned file, as the directory scanner hands it over: the path
/// relative to the scanned root (separators as the host wrote them), the
/// file's bytes, and the modification time the stat reported, if any.
pub struct SourceFile {
    pub rel_path: String,
    pub data: Vec<u8>,
    pub modified: Option<ModTime>,
}

/// Building a registry fails only on a configuration error.
#[derive(Clone, Copy, PartialEq, Eq, Structural, Debug)]
pub enum BuildError {
    /// An include or exclude pattern is not a well-formed glob.
    InvalidPattern,
}

/// The table key a scanned file gets: its relative path with separators
/// normalized to forward slashes.
pub open spec fn source_key(f: SourceFile) -> Seq<char> {
    normalize_seps(f.rel_path@)
}

/// Whether a scanned file belongs to the file set under this configuration.
pub open spec fn source_included(f: SourceFile, cfg: Config) -> bool {
    cfg.spec_included(source_key(f))
}

/// The record a scanned file is turned into: its bytes as read; each
/// compressed variant exactly when it saves enough (zstd only when enabled);
/// hash, ETag, MIME guess and modification times from extraction.
pub open spec fn file_model(f: SourceFile, cfg: Config) -> EmbeddedFileV {
    EmbeddedFileV {
        data: f.data@,
        data_gzip: gzip_variant(f.data@),
        data_br: brotli_variant(f.data@),
        data_zstd: if cfg.use_zstd() {
            zstd_variant(f.data@)
        } else {
            Option::<Seq<u8>>::None
        },
        hash: hash_chars(f.data@),
        etag: etag_chars(hash_chars(f.data@)),
        last_modified: spec_last_modified(spec_timestamp(f.modified)),
        last_modified_timestamp: spec_timestamp(f.modified),
        mime_type: mime_guess_of(source_key(f)),
    }
}

/// The table entry a scanned file is turned into.
pub open spec fn model_entry(f: SourceFile, cfg: Config) -> (Seq<char>, EmbeddedFileV) {
    (source_key(f), file_model(f, cfg))
}

/// What building a registry produces: the scanned files that pass the
/// filter, in scan order, each under its normalized key and turned into its
/// record.
pub open spec fn build_model(files: Seq<SourceFile>, cfg: Config) -> Seq<
    (Seq<char>, EmbeddedFileV),
> {
    files.filter(|f: SourceFile| source_included(f, cfg)).map_values(
        |f: SourceFile| model_entry(f, cfg),
    )
}

/// Exact-match lookup over the entries, first match first: no glob, prefix
/// or case matching happens at lookup time.
pub open spec fn spec_lookup(entries: Seq<(Seq<char>, EmbeddedFileV)>, path: Seq<char>) -> Option<
    EmbeddedFileV,
>
    decreases entries.len(),
{
    if entries.len() == 0 {
        Option::None
    } else if entries[0].0 == path {
        Option::Some(entries[0].1)
    } else {
        spec_lookup(entries.drop_first(), path)
    }
}

/// The view of one stored entry.
pub open spec fn entry_view(p: (String, EmbeddedFile)) -> (Seq<char>, EmbeddedFileV) {
    (p.0@, p.1@)
}

/// The immutable path-to-record table. It is built once, read many times,
/// and never changed after it is exposed.
pub struct Registry {
    entries: Vec<(String, EmbeddedFile)>,
}

impl View for Registry {
    type V = Seq<(Seq<char>, EmbeddedFileV)>;

    closed spec fn view(&self) -> Seq<(Seq<char>, EmbeddedFileV)> {
        self.entries@.map_values(|p: (String, EmbeddedFile)| entry_view(p))
    }
}

impl Registry {
    /// Builds the table: every scanned file whose normalized path passes the
    /// filter is read into a static record and inserted in scan order. An
    /// invalid glob pattern fails the build as a whole.
    pub fn build(files: &Vec<SourceFile>, config: &Config) -> (r: Result<Registry, BuildError>)
        ensures
            r is Ok <==> config.patterns_ok(),
            r matches Ok(reg) ==> reg@ == build_model(files@, *config),
    {
        if !config.validate_patterns() {
            return Err(BuildError::InvalidPattern);
        }
        let use_zstd = config.zstd_supported && config.zstd;
        let mut entries: Vec<(String, EmbeddedFile)> = Vec::new();
        let mut i: usize = 0;
        while i < files.len()
            invariant
                0 <= i <= files@.len(),
                config.patterns_ok(),
                use_zstd == config.use_zstd(),
                entries@.map_values(|p: (String, EmbeddedFile)| entry_view(p)) == build_model(
                    files@.take(i as int),
                    *config,
                ),
            decreases files@.len() - i,
        {
            let ghost pre = files@.take(i as int);
            let ghost post = files@.take(i + 1int);
            let f = &files[i];
            let key = normalize_separators(f.rel_path.as_str());
            if config.included_of_valid(key.as_str()) {
                let ghost old_entries = entries@;
                let data = slice_to_vec(f.data.as_slice());
                let record = EmbeddedFile::from_content(key.as_str(), data, f.modified, use_zstd);
                proof {
                    assert(record@ == file_model(files@[i as int], *config));
                }
                entries.push((key, record));
                proof {
                    assert(entries@.map_values(|p: (String, EmbeddedFile)| entry_view(p))
                        =~= old_entries.map_values(|p: (String, EmbeddedFile)| entry_view(p)).push(
                        model_entry(files@[i as int], *config),
                    ));
                }
            }
            proof {
                reveal(Seq::filter);
                assert(post.drop_last() =~= pre);
                assert(post.last() == files@[i as int]);
                let pred = |f: SourceFile| source_included(f, *config);
                assert(post.filter(pred) == if pred(files@[i as int]) {
                    pre.filter(pred).push(files@[i as int])
                } else {
                    pre.filter(pred)
                });
                assert(entries@.map_values(|p: (String, EmbeddedFile)| entry_view(p))
                    =~= build_model(post, *config));
            }
            i += 1;
        }
        proof {
            assert(files@.take(files@.len() as int) =~= files@);
        }
        Ok(Registry { entries })
    }

    /// How many files the table holds.
    pub fn len(&self) -> (r: usize)
        ensures
            r == self@.len(),
    {
        self.entries.len()
    }

    /// Looks `path` up by exact, case-sensitive string match; forward
    /// slashes are the only separators a built table knows. An unmatched
    /// path is absent — there is no fuzzy or prefix fallback.
    pub fn get(&self, path: &str) -> (r: Option<&EmbeddedFile>)
        ensures
            match r {
                Option::Some(f) => spec_lookup(self@, path@) == Option::Some(f@),
                Option::None => spec_lookup(self@, path@) is None,
            },
    {
        let ghost whole = self@;
        proof {
            assert(self@.skip(0) =~= self@);
        }
        let mut i: usize = 0;
        while i < self.entries.len()
            invariant
                0 <= i <= self.entries@.len(),
                whole == self@,
                self@.len() == self.entries@.len(),
                spec_lookup(whole, path@) == spec_lookup(self@.skip(i as int), path@),
                forall|k: int| 0 <= k < self@.len() ==> #[trigger] self@[k] == entry_view(
                    self.entries@[k],
                ),
            decreases self.entries@.len() - i,
        {
            let entry = &self.entries[i];
            if str_eq(entry.0.as_str(), path) {
                proof {
                    assert(self@.skip(i as int)[0] == entry_view(self.entries@[i as int]));
                }
                return Some(&entry.1);
            }
            proof {
                assert(self@.skip(i as int).drop_first() =~= self@.skip(i + 1int));
            }
            i += 1;
        }
        proof {
            assert(self@.skip(self@.len() as int) =~= Seq::<(Seq<char>, EmbeddedFileV)>::empty());
        }
        None
    }
}

/// A lookup that answers holds an entry of the table: the answered record
/// stands in the entries under the looked-up path.
pub proof fn lemma_lookup_finds_entry(
    entries: Seq<(Seq<char>, EmbeddedFileV)>,
    path: Seq<char>,
)
    requires
        spec_lookup(entries, path) is Some,
    ensures
        exists|k: int|
            0 <= k < entries.len() && #[trigger] entries[k] == (
                path,
                spec_lookup(entries, path)->Some_0,
            ),
    decreases entries.len(),
{
    if entries.len() == 0 {
    } else if entries[0].0 == path {
        assert(entries[0] == (path, spec_lookup(entries, path)->Some_0));
    } else {
        lemma_lookup_finds_entry(entries.drop_first(), path);
        let k = choose|k: int|
            0 <= k < entries.drop_first().len() && #[trigger] entries.drop_first()[k] == (
                path,
                spec_lookup(entries.drop_first(), path)->Some_0,
            );
        assert(entries[k + 1] == (path, spec_lookup(entries, path)->Some_0));
    }
}

/// A path some entry of the table carries is found by lookup.
pub proof fn lemma_key_found(entries: Seq<(Seq<char>, EmbeddedFileV)>, path: Seq<char>, k: int)
    requires
        0 <= k < entries.len(),
        entries[k].0 == path,
    ensures
        spec_lookup(entries, path) is Some,
    decreases entries.len(),
{
    if entries[0].0 == path {
    } else {
        lemma_key_found(entries.drop_first(), path, k - 1);
    }
}

/// Every element a filter keeps comes from the filtered sequence.
proof fn lemma_filter_element_from<A>(s: Seq<A>, pred: spec_fn(A) -> bool, k: int)
    requires
        0 <= k < s.filter(pred).len(),
    ensures
        exists|j: int| 0 <= j < s.len() && #[trigger] s[j] == s.filter(pred)[k],
    decreases s.len(),
{
    reveal(Seq::filter);
    if s.len() == 0 {
    } else {
        let sub = s.drop_last().filter(pred);
        if pred(s.last()) && k == sub.len() {
            assert(s[s.len() - 1] == s.filter(pred)[k]);
        } else {
            lemma_filter_element_from(s.drop_last(), pred, k);
            let j = choose|j: int|
                0 <= j < s.drop_last().len() && #[trigger] s.drop_last()[j] == s.drop_last().filter(
                    pred,
                )[k];
            assert(s[j] == s.filter(pred)[k]);
        }
    }
}

/// Law: a record a built table serves was built from one of the scanned
/// files — one that passed the filter and carries the looked-up path as its
/// normalized relative path.
pub proof fn lemma_lookup_is_built(files: Seq<SourceFile>, cfg: Config, path: Seq<char>)
    requires
        spec_lookup(build_model(files, cfg), path) is Some,
    ensures
        exists|j: int|
            0 <= j < files.len() && source_included(#[trigger] files[j], cfg) && source_key(
                files[j],
            ) == path && spec_lookup(build_model(files, cfg), path) == Option::Some(
                file_model(files[j], cfg),
            ),
{
    let model = build_model(files, cfg);
    let pred = |f: SourceFile| source_included(f, cfg);
    let kept = files.filter(pred);
    lemma_lookup_finds_entry(model, path);
    let k = choose|k: int|
        0 <= k < model.len() && #[trigger] model[k] == (path, spec_lookup(model, path)->Some_0);
    assert(model[k] == model_entry(kept[k], cfg));
    broadcast use vstd::seq_lib::group_filter_ensures;

    assert(pred(kept[k]));
    lemma_filter_element_from(files, pred, k);
    let j = choose|j: int| 0 <= j < files.len() && #[trigger] files[j] == kept[k];
    assert(source_included(files[j], cfg));
    assert(source_key(files[j]) == path);
    assert(spec_lookup(model, path) == Option::Some(file_model(files[j], cfg)));
}

/// Law: a path matching an exclude pattern is absent from a built table,
/// even where an include pattern matches it too — excludes dominate.
pub proof fn lemma_excluded_path_absent(files: Seq<SourceFile>, cfg: Config, path: Seq<char>)
    requires
        cfg.filter_enabled,
        matches_any(cfg.excludes_view(), path),
    ensures
        spec_lookup(build_model(files, cfg), path) is None,
{
    if spec_lookup(build_model(files, cfg), path) is Some {
        lemma_lookup_is_built(files, cfg, path);
        let j = choose|j: int|
            0 <= j < files.len() && source_included(#[trigger] files[j], cfg) && source_key(
                files[j],
            ) == path;
        assert(!cfg.spec_included(path));
        assert(false);
    }
}

/// Law: with no include patterns configured, a scanned file whose normalized
/// path no exclude pattern matches is present in the built table.
pub proof fn lemma_unexcluded_path_present(
    files: Seq<SourceFile>,
    cfg: Config,
    path: Seq<char>,
    j: int,
)
    requires
        0 <= j < files.len(),
        source_key(files[j]) == path,
        cfg.filter_enabled ==> cfg.includes_view().len() == 0,
        cfg.filter_enabled ==> !matches_any(cfg.excludes_view(), path),
    ensures
        spec_lookup(build_model(files, cfg), path) is Some,
{
    let model = build_model(files, cfg);
    let pred = |f: SourceFile| source_included(f, cfg);
    let kept = files.filter(pred);
    assert(pred(files[j]));
    broadcast use vstd::seq_lib::group_filter_ensures;

    assert(kept.contains(files[j]));
    let k = choose|k: int| 0 <= k < kept.len() && kept[k] == files[j];
    assert(model[k] == model_entry(kept[k], cfg));
    assert(model[k].0 == path);
    lemma_key_found(model, path, k);
}

/// Law: every key of a built table uses forward slashes, whatever separator
/// the host filesystem reported during the scan.
pub proof fn lemma_keys_use_forward_slashes(
    files: Seq<SourceFile>,
    cfg: Config,
    k: int,
    i: int,
)
    requires
        0 <= k < build_model(files, cfg).len(),
        0 <= i < build_model(files, cfg)[k].0.len(),
    ensures
        build_model(files, cfg)[k].0[i] != '\\',
{
    let pred = |f: SourceFile| source_included(f, cfg);
    let kept = files.filter(pred);
    assert(build_model(files, cfg)[k] == model_entry(kept[k], cfg));
}

} // verus!
