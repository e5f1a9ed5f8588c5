//! Directory scan and image selection: filters a directory listing down to
//! the entries that carry an accepted image extension and picks a random
//! candidate from the resulting catalog.

use vstd::prelude::*;

verus! {

/// The error taxonomy of the cycler. Setup-phase errors (directory, catalog,
/// binary, event source) are fatal to the process; per-cycle errors abort one
/// cycle only.
#[derive(Debug, Clone, PartialEq, Eq)]
pub enum CyclerError {
    DirectoryNotFound,
    NoFilesFound,
    NoValidImageFiles,
    EmptyCatalog,
    BinaryNotFound { which: String },
    EngineInvocationFailed { which: String },
    PathEncodingError,
    EventSourceStartFailed,
}

impl CyclerError {
    /// A human-readable description of the error, for diagnostics.
    pub fn message(&self) -> (r: String)
        ensures
            self matches CyclerError::DirectoryNotFound ==> r@ == "Directory not found"@,
            self matches CyclerError::NoFilesFound ==> r@
                == "No files found in the backgrounds directory"@,
            self matches CyclerError::NoValidImageFiles ==> r@ == "No valid image files"@,
            self matches CyclerError::EmptyCatalog ==> r@
                == "Can't choose an image from an empty catalog"@,
            self matches CyclerError::BinaryNotFound { .. } ==> r@
                == "Backend binary not found on PATH"@,
            self matches CyclerError::EngineInvocationFailed { .. } ==> r@
                == "Failed to issue the backend command"@,
            self matches CyclerError::PathEncodingError ==> r@
                == "Can't convert the image path to text"@,
            self matches CyclerError::EventSourceStartFailed ==> r@
                == "Failed to start the event listener"@,
    {
        match self {
            CyclerError::DirectoryNotFound => "Directory not found".to_owned(),
            CyclerError::NoFilesFound => "No files found in the backgrounds directory".to_owned(),
            CyclerError::NoValidImageFiles => "No valid image files".to_owned(),
            CyclerError::EmptyCatalog => "Can't choose an image from an empty catalog".to_owned(),
            CyclerError::BinaryNotFound { .. } => "Backend binary not found on PATH".to_owned(),
            CyclerError::EngineInvocationFailed { .. } => "Failed to issue the backend command".to_owned(),
            CyclerError::PathEncodingError => "Can't convert the image path to text".to_owned(),
            CyclerError::EventSourceStartFailed => "Failed to start the event listener".to_owned(),
        }
    }
}

/// Whether `c` equals the lower-case ASCII letter `l`, ignoring ASCII case:
/// either it is `l` itself, or it is the upper-case counterpart of `l`.
pub open spec fn matches_lower(c: char, l: char) -> bool {
    c == l || ('A' <= c && c <= 'Z' && 'a' <= l && l <= 'z' && c as int + 32 == l as int)
}

/// Whether `s` equals the lower-case word `t` once `s` is lower-cased.
pub open spec fn matches_lower_seq(s: Seq<char>, t: Seq<char>) -> bool {
    s.len() == t.len() && forall|i: int| 0 <= i < s.len() ==> matches_lower(s[i], #[trigger] t[i])
}

/// The accepted image extensions: `webp`, `jpg` and `jpeg`, compared against
/// the lower-cased extension.
pub open spec fn accepted_extension(e: Seq<char>) -> bool {
    matches_lower_seq(e, "webp"@) || matches_lower_seq(e, "jpg"@) || matches_lower_seq(e, "jpeg"@)
}

/// The extension of a path: the characters of the final path component after
/// its last dot. A name without a dot, a dot in its first position (a hidden
/// file), or a path ending in a separator has none.
pub open spec fn extension_of(s: Seq<char>) -> Option<Seq<char>>
    decreases s.len(),
{
    if s.len() == 0 {
        None
    } else if s.last() == '.' {
        if s.len() >= 2 && s[s.len() - 2] != '/' {
            Some(Seq::empty())
        } else {
            None
        }
    } else if s.last() == '/' {
        None
    } else {
        match extension_of(s.drop_last()) {
            Some(e) => Some(e.push(s.last())),
            None => None,
        }
    }
}

/// A valid image path is one whose extension is in the accepted set.
pub open spec fn is_valid_image_path(s: Seq<char>) -> bool {
    match extension_of(s) {
        Some(e) => accepted_extension(e),
        None => false,
    }
}

/// A suffix free of dots and separators passes through `extension_of`
/// unchanged: the decision is made by the prefix, and the suffix's characters
/// are appended to whatever extension the prefix yields.
proof fn lemma_extension_through_suffix(s: Seq<char>, i: int)
    requires
        0 <= i <= s.len(),
        forall|j: int| i <= j < s.len() ==> s[j] != '.' && s[j] != '/',
    ensures
        extension_of(s) == match extension_of(s.take(i)) {
            Some(e) => Some(e + s.skip(i)),
            None => None::<Seq<char>>,
        },
    decreases s.len() - i,
{
    if i == s.len() {
        assert(s.take(i) =~= s);
        match extension_of(s) {
            Some(e) => {
                assert(e + s.skip(i) =~= e);
            },
            None => {},
        }
    } else {
        let t = s.drop_last();
        assert(s[s.len() - 1] != '.' && s[s.len() - 1] != '/');
        lemma_extension_through_suffix(t, i);
        assert(t.take(i) =~= s.take(i));
        match extension_of(s.take(i)) {
            Some(e) => {
                assert(extension_of(t) == Some(e + t.skip(i)));
                assert((e + t.skip(i)).push(s.last()) =~= e + s.skip(i));
            },
            None => {},
        }
    }
}

/// Finds the start of the path's extension, if the path has one: the returned
/// index points just past the last dot of the final path component.
fn find_extension_start(s: &str) -> (r: Option<usize>)
    ensures
        match r {
            Some(j) => j <= s@.len() && extension_of(s@) == Some(s@.skip(j as int)),
            None => extension_of(s@) is None,
        },
{
    let n = s.unicode_len();
    let mut i: usize = n;
    while i > 0
        invariant
            i <= n,
            n == s@.len(),
            forall|j: int| i <= j < n ==> s@[j] != '.' && s@[j] != '/',
        decreases i,
    {
        let c = s.get_char(i - 1);
        if c == '.' {
            if i >= 2 {
                let p = s.get_char(i - 2);
                proof {
                    lemma_extension_through_suffix(s@, i as int);
                    assert(s@.take(i as int).last() == s@[i - 1]);
                    assert(s@.take(i as int)[i - 2] == s@[i - 2]);
                }
                if p != '/' {
                    proof {
                        assert(Seq::<char>::empty() + s@.skip(i as int) =~= s@.skip(i as int));
                    }
                    return Some(i);
                } else {
                    return None;
                }
            } else {
                proof {
                    lemma_extension_through_suffix(s@, 1);
                    assert(s@.take(1).last() == s@[0]);
                }
                return None;
            }
        }
        if c == '/' {
            proof {
                lemma_extension_through_suffix(s@, i as int);
                assert(s@.take(i as int).last() == s@[i - 1]);
            }
            return None;
        }
        i = i - 1;
    }
    proof {
        lemma_extension_through_suffix(s@, 0);
        assert(s@.take(0) =~= Seq::<char>::empty());
    }
    None
}

/// Whether `c` matches the lower-case letter `lo` ignoring ASCII case, with
/// `up` its upper-case counterpart handed in by the caller.
fn char_matches_lower(c: char, lo: char, up: char) -> (r: bool)
    requires
        'a' <= lo && lo <= 'z',
        up as int == lo as int - 32,
    ensures
        r == matches_lower(c, lo),
{
    c == lo || c == up
}

/// Whether the extension starting at `j` is one of the accepted image
/// extensions, ignoring ASCII case.
fn extension_is_accepted(s: &str, j: usize) -> (r: bool)
    requires
        j <= s@.len(),
    ensures
        r == accepted_extension(s@.skip(j as int)),
{
    let ghost e = s@.skip(j as int);
    proof {
        reveal_strlit("webp");
        reveal_strlit("jpg");
        reveal_strlit("jpeg");
    }
    let n = s.unicode_len();
    let len = n - j;
    if len == 3 {
        proof {
            assert(e[0] == s@[j as int]);
            assert(e[1] == s@[j + 1]);
            assert(e[2] == s@[j + 2]);
        }
        let m0 = char_matches_lower(s.get_char(j), 'j', 'J');
        let m1 = char_matches_lower(s.get_char(j + 1), 'p', 'P');
        let m2 = char_matches_lower(s.get_char(j + 2), 'g', 'G');
        let r = m0 && m1 && m2;
        proof {
            if r {
                assert(matches_lower_seq(e, "jpg"@));
            } else {
                assert(!matches_lower_seq(e, "jpg"@)) by {
                    if matches_lower_seq(e, "jpg"@) {
                        assert(matches_lower(e[0], "jpg"@[0]));
                        assert(matches_lower(e[1], "jpg"@[1]));
                        assert(matches_lower(e[2], "jpg"@[2]));
                    }
                }
            }
        }
        r
    } else if len == 4 {
        proof {
            assert(e[0] == s@[j as int]);
            assert(e[1] == s@[j + 1]);
            assert(e[2] == s@[j + 2]);
            assert(e[3] == s@[j + 3]);
        }
        let w0 = char_matches_lower(s.get_char(j), 'w', 'W');
        let w1 = char_matches_lower(s.get_char(j + 1), 'e', 'E');
        let w2 = char_matches_lower(s.get_char(j + 2), 'b', 'B');
        let w3 = char_matches_lower(s.get_char(j + 3), 'p', 'P');
        let q0 = char_matches_lower(s.get_char(j), 'j', 'J');
        let q1 = char_matches_lower(s.get_char(j + 1), 'p', 'P');
        let q2 = char_matches_lower(s.get_char(j + 2), 'e', 'E');
        let q3 = char_matches_lower(s.get_char(j + 3), 'g', 'G');
        let w = w0 && w1 && w2 && w3;
        let q = q0 && q1 && q2 && q3;
        proof {
            if w {
                assert(matches_lower_seq(e, "webp"@));
            } else {
                assert(!matches_lower_seq(e, "webp"@)) by {
                    if matches_lower_seq(e, "webp"@) {
                        assert(matches_lower(e[0], "webp"@[0]));
                        assert(matches_lower(e[1], "webp"@[1]));
                        assert(matches_lower(e[2], "webp"@[2]));
                        assert(matches_lower(e[3], "webp"@[3]));
                    }
                }
            }
            if q {
                assert(matches_lower_seq(e, "jpeg"@));
            } else {
                assert(!matches_lower_seq(e, "jpeg"@)) by {
                    if matches_lower_seq(e, "jpeg"@) {
                        assert(matches_lower(e[0], "jpeg"@[0]));
                        assert(matches_lower(e[1], "jpeg"@[1]));
                        assert(matches_lower(e[2], "jpeg"@[2]));
                        assert(matches_lower(e[3], "jpeg"@[3]));
                    }
                }
            }
        }
        w || q
    } else {
        false
    }
}

/// Decides whether the file path carries an accepted image extension. The
/// comparison inspects the path text only — no file content is read.
pub fn selected_file_is_valid_img(selected_file: &String) -> (r: bool)
    ensures
        r == is_valid_image_path(selected_file@),
{
    match find_extension_start(selected_file.as_str()) {
        Some(j) => extension_is_accepted(selected_file.as_str(), j),
        None => false,
    }
}

/// The views of a listing's paths.
pub open spec fn string_views(entries: Seq<String>) -> Seq<Seq<char>> {
    entries.map_values(|p: String| p@)
}

/// The views of the listing's paths that are valid image paths, in the order
/// of the listing.
pub open spec fn valid_image_views(entries: Seq<String>) -> Seq<Seq<char>> {
    string_views(entries).filter(|s: Seq<char>| is_valid_image_path(s))
}

/// Extending the listing by one entry extends its valid views by that entry's
/// view exactly when the entry is a valid image path.
proof fn lemma_valid_views_step(entries: Seq<String>, i: int)
    requires
        0 <= i < entries.len(),
    ensures
        valid_image_views(entries.take(i + 1)) == if is_valid_image_path(entries[i]@) {
            valid_image_views(entries.take(i)).push(entries[i]@)
        } else {
            valid_image_views(entries.take(i))
        },
{
    reveal(Seq::filter);
    let vs1 = string_views(entries.take(i + 1));
    let vs0 = string_views(entries.take(i));
    assert(vs1.drop_last() =~= vs0);
    assert(vs1.last() == entries[i]@);
}

/// An immutable, ordered, non-empty collection of image paths, built once
/// from a directory listing and never mutated afterward.
pub struct ImageCatalog {
    paths: Vec<String>,
}

impl View for ImageCatalog {
    type V = Seq<Seq<char>>;

    closed spec fn view(&self) -> Seq<Seq<char>> {
        string_views(self.paths@)
    }
}

impl ImageCatalog {
    /// The catalog's invariant: non-empty, and every entry is a valid image
    /// path.
    pub open spec fn wf(&self) -> bool {
        &&& self@.len() > 0
        &&& forall|k: int| 0 <= k < self@.len() ==> is_valid_image_path(#[trigger] self@[k])
    }

    /// Builds the catalog from a directory listing: keeps exactly the entries
    /// with an accepted image extension, in order. An empty listing and a
    /// listing without a single valid image are distinguished failures.
    pub fn build(entries: &Vec<String>) -> (r: Result<ImageCatalog, CyclerError>)
        ensures
            r == Err::<ImageCatalog, CyclerError>(CyclerError::NoFilesFound) <==> entries@.len()
                == 0,
            r == Err::<ImageCatalog, CyclerError>(CyclerError::NoValidImageFiles) <==> (entries@.len()
                > 0 && forall|k: int|
                0 <= k < entries@.len() ==> !is_valid_image_path(#[trigger] entries@[k]@)),
            r matches Err(e) ==> (e == CyclerError::NoFilesFound || e
                == CyclerError::NoValidImageFiles),
            r matches Ok(c) ==> c@ == valid_image_views(entries@) && c.wf(),
    {
        if entries.len() == 0 {
            return Err(CyclerError::NoFilesFound);
        }
        let mut valid: Vec<String> = Vec::new();
        let mut i: usize = 0;
        while i < entries.len()
            invariant
                i <= entries@.len(),
                valid@.map_values(|p: String| p@) == valid_image_views(entries@.take(i as int)),
                (exists|k: int| 0 <= k < i && is_valid_image_path(#[trigger] entries@[k]@))
                    <==> valid@.len() > 0,
            decreases entries@.len() - i,
        {
            proof {
                lemma_valid_views_step(entries@, i as int);
            }
            if selected_file_is_valid_img(&entries[i]) {
                let ghost prev = valid@;
                valid.push(entries[i].clone());
                proof {
                    assert(valid@.map_values(|p: String| p@) =~= prev.map_values(|p: String| p@)
                        .push(entries@[i as int]@));
                }
            }
            i = i + 1;
        }
        proof {
            assert(entries@.take(entries@.len() as int) =~= entries@);
        }
        if valid.len() == 0 {
            return Err(CyclerError::NoValidImageFiles);
        }
        let c = ImageCatalog { paths: valid };
        proof {
            broadcast use vstd::seq_lib::group_filter_ensures;

            assert(c@ == valid_image_views(entries@));
            assert forall|k: int| 0 <= k < c@.len() implies is_valid_image_path(
                #[trigger] c@[k],
            ) by {
                assert(c@[k] == valid_image_views(entries@)[k]);
            }
        }
        Ok(c)
    }

    pub fn len(&self) -> (r: usize)
        ensures
            r == self@.len(),
    {
        self.paths.len()
    }

    pub fn get(&self, i: usize) -> (r: &String)
        requires
            i < self@.len(),
        ensures
            r@ == self@[i as int],
    {
        &self.paths[i]
    }

    /// Picks a uniformly random path from the catalog. Every returned path is
    /// one of the catalog's own entries; the empty catalog is rejected
    /// defensively, though a well-formed catalog is never empty.
    pub fn pick_random(&self) -> (r: Result<String, CyclerError>)
        ensures
            r == Err::<String, CyclerError>(CyclerError::EmptyCatalog) <==> self@.len() == 0,
            r matches Err(e) ==> e == CyclerError::EmptyCatalog,
            r matches Ok(p) ==> self@.contains(p@),
    {
        if self.paths.len() == 0 {
            return Err(CyclerError::EmptyCatalog);
        }
        let i = random_below(self.paths.len());
        let p = self.paths[i].clone();
        proof {
            assert(self@[i as int] == p@);
        }
        Ok(p)
    }
}

/// Law: selection is valid by construction — any path a well-formed catalog
/// holds, and hence any path `pick_random` can return, is a valid image path.
pub proof fn lemma_picked_path_is_valid(catalog: ImageCatalog, p: Seq<char>)
    requires
        catalog.wf(),
        catalog@.contains(p),
    ensures
        is_valid_image_path(p),
{
    let k = choose|k: int| 0 <= k < catalog@.len() && catalog@[k] == p;
    assert(is_valid_image_path(catalog@[k]));
}

/// Relies on rand's `thread_rng` and `Rng::gen_range`: a uniformly random
/// value drawn from `0..n`, hence below `n`. `gen_range` panics on an empty
/// range, which the precondition rules out.
#[verifier::external_body]
fn random_below(n: usize) -> (r: usize)
    requires
        0 < n,
    ensures
        r < n,
{
    rand::Rng::gen_range(&mut rand::thread_rng(), 0..n)
}

/// Relies on `std::path::Path::is_dir`: whether the path names an existing
/// directory on disk.
#[verifier::external_body]
fn path_is_dir(path: &String) -> (r: bool) {
    std::path::Path::new(path.as_str()).is_dir()
}

/// Declares glob's `PatternError` — the error for a malformed scan pattern —
/// so that the scan wrapper can hand it back as it is.
#[verifier::external_type_specification]
#[verifier::external_body]
pub struct ExPatternError(glob::PatternError);

/// Relies on `glob::glob`: yields, in alphabetical order, the paths matching
/// the pattern `<dir>/*` — the direct children of the directory. Entries the
/// scan could not read are skipped, and each path is carried over as text,
/// lossily where it is not valid unicode. A malformed pattern is handed back
/// as glob's own error.
#[verifier::external_body]
fn glob_direct_children(backgrounds_path: &String) -> (r: Result<Vec<String>, glob::PatternError>) {
    match glob::glob(&format!("{}/*", backgrounds_path)) {
        Ok(paths) => Ok(
            paths.filter_map(|entry| entry.ok()).map(
                |p| p.to_string_lossy().into_owned(),
            ).collect(),
        ),
        Err(e) => Err(e),
    }
}

/// Scans the backgrounds directory and builds the catalog of its entries that
/// carry an accepted image extension. A path that does not name a directory —
/// or cannot be used as a scan pattern at all — is rejected up front; beyond
/// that, the outcome follows `ImageCatalog::build` on whatever listing the
/// scan produced.
pub fn get_valid_image_paths_from_provided_dir(backgrounds_path: &String) -> (r: Result<
    ImageCatalog,
    CyclerError,
>)
    ensures
        r matches Ok(c) ==> c.wf(),
        r matches Err(e) ==> (e == CyclerError::DirectoryNotFound || e
            == CyclerError::NoFilesFound || e == CyclerError::NoValidImageFiles),
{
    if !path_is_dir(backgrounds_path) {
        return Err(CyclerError::DirectoryNotFound);
    }
    match glob_direct_children(backgrounds_path) {
        Ok(entries) => ImageCatalog::build(&entries),
        Err(_) => Err(CyclerError::DirectoryNotFound),
    }
}

} // verus!
