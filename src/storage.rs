use vstd::prelude::*;

use crate::digest::{digest_hex, sha256_hex};
use crate::text::{chars_of, push_str, sanitize_filename, sanitized, string_from_chars};

verus! {

/// A directory that holds uploaded and derived files.
pub struct FileStore {
    pub root: String,
}

/// Why a stored file could not be reached.
#[derive(Debug, Clone, Copy, PartialEq, Eq, Structural)]
pub enum StoreError {
    /// The requested file does not exist.
    NotFound,
    /// The requested path resolves outside the store's root.
    OutsideRoot,
}

/// What `Path::file_stem` gives for a path.
pub uninterp spec fn file_stem_of(path: Seq<char>) -> Option<Seq<char>>;

/// Relies on `Path::file_stem`: the stem of the final component of a path,
/// or none; it depends on the characters alone.
#[verifier::external_body]
fn file_stem(path: &str) -> (r: Option<String>)
    ensures
        match r {
            Some(s) => file_stem_of(path@) == Some(s@),
            None => file_stem_of(path@) is None,
        },
{
    std::path::Path::new(path).file_stem().and_then(|s| s.to_str()).map(|s| s.to_string())
}

/// What `Path::join` gives for a base and a name.
pub uninterp spec fn path_joined(base: Seq<char>, name: Seq<char>) -> Seq<char>;

/// Relies on `Path::join`: the path of `name` under `base`; it depends on
/// the characters alone.
#[verifier::external_body]
fn join_path(base: &str, name: &str) -> (r: String)
    ensures
        r@ == path_joined(base@, name@),
{
    std::path::Path::new(base).join(name).to_string_lossy().into_owned()
}

/// What `Path::starts_with` answers for a path and a base.
pub uninterp spec fn path_within(path: Seq<char>, base: Seq<char>) -> bool;

/// Relies on `Path::starts_with`: whether the components of `base` begin
/// those of `path`; it depends on the characters alone.
#[verifier::external_body]
fn starts_with_path(path: &str, base: &str) -> (r: bool)
    ensures
        r == path_within(path@, base@),
{
    std::path::Path::new(path).starts_with(base)
}

/// Stem used for a stored or derived file: the sanitized stem of the given
/// name, or `dicom` when that is absent or empty.
pub open spec fn stem_or_default(name: Option<Seq<char>>) -> Seq<char> {
    match name {
        Some(n) => match file_stem_of(n) {
            Some(s) => if sanitized(s).len() > 0 {
                sanitized(s)
            } else {
                "dicom"@
            },
            None => "dicom"@,
        },
        None => "dicom"@,
    }
}

fn stem_for(name: Option<&str>) -> (r: String)
    ensures
        r@ == stem_or_default(
            match name {
                Some(n) => Some(n@),
                None => None,
            },
        ),
{
    match name {
        Some(n) => match file_stem(n) {
            Some(s) => {
                let clean = sanitize_filename(s.as_str());
                if clean.unicode_len() > 0 {
                    clean
                } else {
                    String::from_str("dicom")
                }
            },
            None => String::from_str("dicom"),
        },
        None => String::from_str("dicom"),
    }
}

/// Name under which uploaded bytes are stored: the stem of the original
/// name, a dash, the first twelve hexadecimal digits of the content's
/// SHA-256 digest, and `.dcm`.
pub fn stored_file_name(original_name: Option<&str>, bytes: &[u8]) -> (r: String)
    ensures
        r@ == stem_or_default(
            match original_name {
                Some(n) => Some(n@),
                None => None,
            },
        ) + "-"@ + digest_hex(bytes@).take(12) + ".dcm"@,
{
    let stem = stem_for(original_name);
    let hex = sha256_hex(bytes);
    let mut out: Vec<char> = chars_of(stem.as_str());
    push_str(&mut out, "-");
    let ghost mid = out@;
    let mut i: usize = 0;
    while i < 12
        invariant
            hex@.len() == 64,
            i <= 12,
            out@ == mid + hex@.take(i as int),
        decreases 12 - i,
    {
        out.push(hex[i]);
        i = i + 1;
        assert(out@ =~= mid + hex@.take(i as int));
    }
    push_str(&mut out, ".dcm");
    let r = string_from_chars(&out);
    assert(r@ =~= stem@ + "-"@ + hex@.take(12) + ".dcm"@);
    r
}

impl FileStore {
    /// A store rooted at `root`.
    pub fn new(root: String) -> (r: FileStore)
        ensures
            r.root@ == root@,
    {
        FileStore { root }
    }

    /// Path of a stored file, given its canonical form and that of the root
    /// (the root as given stands in when it has none). A missing file is
    /// `NotFound`; a path whose components do not begin with the root's is
    /// `OutsideRoot`.
    pub fn resolve(&self, canonical_root: Option<String>, canonical: Option<String>) -> (r: Result<
        String,
        StoreError,
    >)
        ensures
            canonical is None ==> r == Err::<String, StoreError>(StoreError::NotFound),
            canonical is Some ==> {
                let base = match canonical_root {
                    Some(b) => b@,
                    None => self.root@,
                };
                &&& path_within(canonical->0@, base) ==> r is Ok && r->Ok_0@ == canonical->0@
                &&& !path_within(canonical->0@, base) ==> r == Err::<String, StoreError>(
                    StoreError::OutsideRoot,
                )
            },
    {
        let path = match canonical {
            Some(p) => p,
            None => {
                return Err(StoreError::NotFound);
            },
        };
        let inside = match &canonical_root {
            Some(b) => starts_with_path(path.as_str(), b.as_str()),
            None => starts_with_path(path.as_str(), self.root.as_str()),
        };
        if inside {
            Ok(path)
        } else {
            Err(StoreError::OutsideRoot)
        }
    }

    /// Name and path of a file derived from `source_name`:
    /// `<stem>-<suffix>.<extension>` under the root.
    pub fn derived_path(&self, source_name: &str, suffix: &str, extension: &str) -> (r: (
        String,
        String,
    ))
        ensures
            r.0@ == stem_or_default(Some(source_name@)) + "-"@ + suffix@ + "."@ + extension@,
            r.1@ == path_joined(self.root@, r.0@),
    {
        let base = stem_for(Some(source_name));
        let mut out: Vec<char> = chars_of(base.as_str());
        push_str(&mut out, "-");
        push_str(&mut out, suffix);
        push_str(&mut out, ".");
        push_str(&mut out, extension);
        let filename = string_from_chars(&out);
        assert(filename@ =~= base@ + "-"@ + suffix@ + "."@ + extension@);
        let path = join_path(self.root.as_str(), filename.as_str());
        (filename, path)
    }
}

} // verus!
