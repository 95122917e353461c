use crate::error::LifecycleError;
use crate::text::{
    chars_of, concat, contains, spec_contains, spec_starts_with, starts_with, string_of_range,
};
use vstd::prelude::*;

verus! {

/// `zip::ZipArchive`: an opened zip archive.
#[verifier::external_type_specification]
#[verifier::external_body]
#[verifier::reject_recursive_types(R)]
pub struct ExZipArchive<R>(zip::ZipArchive<R>);

/// `zip::result::ZipError`: why a zip archive could not be read.
#[verifier::external_type_specification]
#[verifier::external_body]
pub struct ExZipError(zip::result::ZipError);

/// `std::io::Cursor`: a reader over bytes in memory.
#[verifier::external_type_specification]
#[verifier::external_body]
#[verifier::reject_recursive_types(T)]
pub struct ExCursor<T>(std::io::Cursor<T>);

/// What an opened archive holds, in the order of its central directory: for
/// each entry its name, whether it is a directory, and the bytes that come
/// of reading it to its end, or `None` where it cannot be read.
pub uninterp spec fn zip_contents(archive: zip::ZipArchive<std::io::Cursor<Vec<u8>>>) -> Seq<
    (Seq<char>, bool, Option<Seq<u8>>),
>;

/// What the archive holds that the bytes make up, where they make up one
/// that can be opened.
pub uninterp spec fn zip_directory(bytes: Seq<u8>) -> Option<
    Seq<(Seq<char>, bool, Option<Seq<u8>>)>,
>;

/// The name of each entry, and whether it is a directory.
pub open spec fn headers_in(contents: Seq<(Seq<char>, bool, Option<Seq<u8>>)>) -> Seq<
    (Seq<char>, bool),
> {
    contents.map_values(|e: (Seq<char>, bool, Option<Seq<u8>>)| (e.0, e.1))
}

/// `zip::ZipArchive::new` over a `std::io::Cursor`: opens the archive that
/// the bytes hold by reading its central directory. What it holds is a matter
/// of the bytes alone.
#[verifier::external_body]
fn zip_open(bytes: Vec<u8>) -> (opened: Result<
    zip::ZipArchive<std::io::Cursor<Vec<u8>>>,
    zip::result::ZipError,
>)
    ensures
        match opened {
            Ok(archive) => zip_directory(bytes@) == Some(zip_contents(archive)),
            Err(_) => zip_directory(bytes@) is None,
        },
{
    zip::ZipArchive::new(std::io::Cursor::new(bytes))
}

/// `zip::ZipArchive::len`: how many entries the archive lists.
#[verifier::external_body]
fn zip_len(archive: &zip::ZipArchive<std::io::Cursor<Vec<u8>>>) -> (n: usize)
    ensures
        n == zip_contents(*archive).len(),
{
    archive.len()
}

/// `zip::ZipArchive::by_index_data`, with `name` and `is_dir` of the entry:
/// the name of the entry at `index` and whether it is a directory. The only
/// error is that there is no entry at `index`: a name is read as UTF-8, and
/// one that is not UTF-8 is read byte by byte as code page 437, which gives
/// a character for every byte.
#[verifier::external_body]
fn zip_header(archive: &zip::ZipArchive<std::io::Cursor<Vec<u8>>>, index: usize) -> (header: Result<
    (String, bool),
    zip::result::ZipError,
>)
    ensures
        match header {
            Ok((name, is_dir)) => index < zip_contents(*archive).len() && zip_contents(
                *archive,
            )[index as int].0 == name@ && zip_contents(*archive)[index as int].1 == is_dir,
            Err(_) => index >= zip_contents(*archive).len(),
        },
{
    let entry = archive.by_index_data(index)?;
    let name = entry.name()?.into_owned();
    Ok((name, entry.is_dir()))
}

/// `zip::ZipArchive::by_index`, read to its end: the bytes of the entry at
/// `index`, decompressed, or an error where the entry cannot be read. The
/// archive holds afterwards what it held before.
#[verifier::external_body]
fn zip_content(archive: &mut zip::ZipArchive<std::io::Cursor<Vec<u8>>>, index: usize) -> (content:
    Result<Vec<u8>, zip::result::ZipError>)
    ensures
        zip_contents(*final(archive)) == zip_contents(*old(archive)),
        index < zip_contents(*old(archive)).len() ==> (match content {
            Ok(bytes) => zip_contents(*old(archive))[index as int].2 == Some(bytes@),
            Err(_) => zip_contents(*old(archive))[index as int].2 is None,
        }),
{
    let mut file = archive.by_index(index)?;
    let mut content = Vec::new();
    std::io::Read::read_to_end(&mut file, &mut content)?;
    Ok(content)
}

/// The text of a `zip::result::ZipError`, as its `Display` writes it.
/// Nothing is promised of it.
#[verifier::external_body]
fn zip_error_text(error: &zip::result::ZipError) -> (text: String) {
    format!("{}", error)
}

/// Whether an entry is left out whatever else holds: the bookkeeping that
/// macOS adds to archives.
pub open spec fn spec_ignored(name: Seq<char>) -> bool {
    spec_starts_with(name, "__MACOSX"@) || spec_contains(name, ".DS_Store"@)
}

/// Whether an entry is left out whatever else holds.
pub fn ignored(name: &str) -> (left_out: bool)
    ensures
        left_out == spec_ignored(name@),
{
    starts_with(name, "__MACOSX") || contains(name, ".DS_Store")
}

/// The position of the first `/` of `name` at or after `i`, or its length
/// where there is none.
pub open spec fn first_slash_from(name: Seq<char>, i: int) -> int
    decreases name.len() - i,
{
    if i < 0 || i >= name.len() {
        name.len() as int
    } else if name[i] == '/' {
        i
    } else {
        first_slash_from(name, i + 1)
    }
}

/// The first component of a name: what stands before its first `/`. An empty
/// name has none.
pub open spec fn spec_first_component(name: Seq<char>) -> Option<Seq<char>> {
    if name.len() == 0 {
        None
    } else {
        Some(name.subrange(0, first_slash_from(name, 0)))
    }
}

/// The first component of a name: what stands before its first `/`.
pub fn first_component(name: &str) -> (component: Option<String>)
    ensures
        crate::text::opt_text(component) == spec_first_component(name@),
{
    let v = chars_of(name);
    if v.len() == 0 {
        return None;
    }
    let mut i: usize = 0;
    while i < v.len() && v[i] != '/'
        invariant
            i <= v.len(),
            first_slash_from(v@, 0) == first_slash_from(v@, i as int),
        decreases v.len() - i,
    {
        i += 1;
    }
    Some(string_of_range(&v, 0, i))
}

/// Whether the entry at `i` counts when the common root is looked for.
pub open spec fn counted(headers: Seq<(Seq<char>, bool)>, i: int) -> bool {
    0 <= i < headers.len() && !spec_ignored(headers[i].0)
}

/// The directory under which everything in the archive lies: the first
/// component that all entries share, those aside that are left out anyway.
/// There is none where the entries do not share one, or where there are none.
pub open spec fn spec_common_root(headers: Seq<(Seq<char>, bool)>) -> Option<Seq<char>> {
    if exists|i: int| counted(headers, i) {
        let first = choose|i: int| counted(headers, i);
        let root = spec_first_component(headers[first].0);
        if forall|j: int| counted(headers, j) ==> spec_first_component(#[trigger] headers[j].0)
            == root {
            root
        } else {
            None
        }
    } else {
        None
    }
}

/// The characters of the names of a list of entries, with what each is.
pub open spec fn headers_of(v: Seq<(String, bool)>) -> Seq<(Seq<char>, bool)> {
    v.map_values(|h: (String, bool)| (h.0@, h.1))
}

/// The directory under which everything in the archive lies.
pub fn common_root(headers: &Vec<(String, bool)>) -> (root: Option<String>)
    ensures
        crate::text::opt_text(root) == spec_common_root(headers_of(headers@)),
{
    let ghost hs = headers_of(headers@);
    let n = headers.len();
    let mut root: Option<String> = None;
    let mut seen = false;
    let mut i: usize = 0;
    while i < n
        invariant
            i <= n,
            n == headers.len(),
            hs == headers_of(headers@),
            seen == (exists|j: int| 0 <= j < i && counted(hs, j)),
            seen ==> forall|j: int|
                0 <= j < i && counted(hs, j) ==> spec_first_component(#[trigger] hs[j].0)
                    == crate::text::opt_text(root),
            !seen ==> root is None,
        decreases n - i,
    {
        assert(hs[i as int].0 == headers[i as int].0@);
        if !ignored(headers[i].0.as_str()) {
            let component = first_component(headers[i].0.as_str());
            if !seen {
                root = component;
                seen = true;
                assert(counted(hs, i as int));
            } else {
                let same = match (&root, &component) {
                    (Some(a), Some(b)) => *a == *b,
                    (None, None) => true,
                    _ => false,
                };
                if !same {
                    proof {
                        let w = choose|j: int| 0 <= j < i && counted(hs, j);
                        assert(counted(hs, w));
                        assert(counted(hs, i as int));
                        assert(spec_first_component(hs[w].0) != spec_first_component(
                            hs[i as int].0,
                        ));
                        let first = choose|j: int| counted(hs, j);
                        if spec_first_component(hs[w].0) == spec_first_component(hs[first].0) {
                        }
                    }
                    return None;
                }
                assert(counted(hs, i as int));
            }
        }
        i += 1;
    }
    proof {
        if seen {
            let w = choose|j: int| 0 <= j < i && counted(hs, j);
            assert(counted(hs, w));
            let first = choose|j: int| counted(hs, j);
            assert(counted(hs, first));
            assert(spec_first_component(hs[first].0) == crate::text::opt_text(root));
        } else {
            assert(!exists|j: int| counted(hs, j));
        }
    }
    root
}

/// Whether the common root is itself an entry of the archive, as a
/// directory: only then is it cut off.
pub open spec fn root_is_listed(headers: Seq<(Seq<char>, bool)>, root: Seq<char>) -> bool {
    exists|i: int|
        0 <= i < headers.len() && ((#[trigger] headers[i]).0 == root + "/"@ || (headers[i].0 == root
            && headers[i].1))
}

/// Whether the common root is itself an entry of the archive, as a directory.
pub fn root_listed(headers: &Vec<(String, bool)>, root: &str) -> (found: bool)
    ensures
        found == root_is_listed(headers_of(headers@), root@),
{
    let ghost hs = headers_of(headers@);
    let with_slash = concat(root, "/");
    let mut i: usize = 0;
    while i < headers.len()
        invariant
            i <= headers.len(),
            hs == headers_of(headers@),
            with_slash@ == root@ + "/"@,
            forall|j: int|
                0 <= j < i ==> !((#[trigger] hs[j]).0 == root@ + "/"@ || (hs[j].0 == root@
                    && hs[j].1)),
        decreases headers.len() - i,
    {
        assert(hs[i as int] == (headers[i as int].0@, headers[i as int].1));
        let name = headers[i].0.as_str();
        if *name == *with_slash.as_str() || (*name == *root && headers[i].1) {
            return true;
        }
        i += 1;
    }
    false
}

/// A name without the root it lies under: what follows the root and a `/`,
/// or the name itself where it does not begin so.
pub open spec fn spec_without_root(name: Seq<char>, root: Seq<char>) -> Seq<char> {
    if spec_starts_with(name, root + "/"@) {
        name.subrange(root.len() as int + 1, name.len() as int)
    } else {
        name
    }
}

/// A name without the root it lies under.
pub fn without_root(name: &str, root: &str) -> (rest: String)
    ensures
        rest@ == spec_without_root(name@, root@),
{
    let with_slash = concat(root, "/");
    if starts_with(name, with_slash.as_str()) {
        let v = chars_of(name);
        let r = chars_of(root);
        proof {
            reveal_strlit("/");
            assert((root@ + "/"@).len() == root@.len() + 1);
            assert(with_slash@ == root@ + "/"@);
            assert(crate::text::occurs_at(name@, with_slash@, 0));
            assert(r@.len() + 1 <= v@.len());
        }
        let total = v.len();
        string_of_range(&v, r.len() + 1, total)
    } else {
        name.to_owned()
    }
}

/// Where an entry goes, below the directory into which the archive is
/// unpacked, or `None` for an entry that is left out. `root` is the
/// directory that is cut off, if one is.
pub open spec fn spec_destination(name: Seq<char>, root: Option<Seq<char>>) -> Option<Seq<char>> {
    if spec_ignored(name) {
        None
    } else {
        let path = match root {
            Some(r) => if name == r || name == r + "/"@ {
                Seq::empty()
            } else {
                spec_without_root(name, r)
            },
            None => name,
        };
        if path.len() == 0 {
            None
        } else {
            Some(path)
        }
    }
}

/// Where an entry goes, or `None` for an entry that is left out.
pub fn destination(name: &str, root: Option<&str>) -> (path: Option<String>)
    ensures
        crate::text::opt_text(path) == spec_destination(name@, crate::provision::opt_slice(root)),
{
    if ignored(name) {
        return None;
    }
    let path = match root {
        Some(r) => {
            let with_slash = concat(r, "/");
            if *name == *r || *name == *with_slash.as_str() {
                String::new()
            } else {
                without_root(name, r)
            }
        },
        None => name.to_owned(),
    };
    if path.as_str().unicode_len() == 0 {
        None
    } else {
        Some(path)
    }
}

/// The directory that is cut off the names of an archive: the common root,
/// where it is itself listed as a directory.
pub open spec fn spec_stripped_root(headers: Seq<(Seq<char>, bool)>) -> Option<Seq<char>> {
    match spec_common_root(headers) {
        Some(root) => if root_is_listed(headers, root) {
            Some(root)
        } else {
            None
        },
        None => None,
    }
}

/// Where each entry of an archive goes.
pub open spec fn spec_destinations(headers: Seq<(Seq<char>, bool)>) -> Seq<Option<Seq<char>>> {
    Seq::new(
        headers.len(),
        |i: int| spec_destination(headers[i].0, spec_stripped_root(headers)),
    )
}

/// The characters of each optional string of a sequence.
pub open spec fn opt_texts(v: Seq<Option<String>>) -> Seq<Option<Seq<char>>> {
    v.map_values(|o: Option<String>| crate::text::opt_text(o))
}

/// Where each entry of an archive goes, below the directory into which it
/// is unpacked; `None` for an entry that is left out. Where everything lies
/// under one directory that the archive lists, that directory is cut off.
pub fn plan_extraction(headers: &Vec<(String, bool)>) -> (paths: Vec<Option<String>>)
    ensures
        opt_texts(paths@) == spec_destinations(headers_of(headers@)),
        paths.len() == headers.len(),
{
    let ghost hs = headers_of(headers@);
    let root: Option<String> = match common_root(headers) {
        Some(r) => if root_listed(headers, r.as_str()) {
            Some(r)
        } else {
            None
        },
        None => None,
    };
    assert(crate::text::opt_text(root) == spec_stripped_root(hs));
    let mut paths: Vec<Option<String>> = Vec::new();
    let mut i: usize = 0;
    while i < headers.len()
        invariant
            i <= headers.len(),
            hs == headers_of(headers@),
            crate::text::opt_text(root) == spec_stripped_root(hs),
            paths.len() == i,
            forall|j: int|
                0 <= j < i ==> crate::text::opt_text(#[trigger] paths[j]) == spec_destination(
                    hs[j].0,
                    spec_stripped_root(hs),
                ),
        decreases headers.len() - i,
    {
        assert(hs[i as int].0 == headers[i as int].0@);
        let path = match &root {
            Some(r) => destination(headers[i].0.as_str(), Some(r.as_str())),
            None => destination(headers[i].0.as_str(), None),
        };
        paths.push(path);
        i += 1;
    }
    assert(opt_texts(paths@) =~= spec_destinations(hs));
    paths
}

/// One entry of an archive that is to be written out.
#[derive(Debug)]
pub struct Unpacked {
    /// Where it goes, below the directory into which the archive is unpacked.
    pub path: String,
    pub is_dir: bool,
    /// What the file holds; nothing for a directory.
    pub content: Vec<u8>,
}

/// Whether the entry at `i` is written out as a file: it is not left out
/// and is no directory.
pub open spec fn written_file(contents: Seq<(Seq<char>, bool, Option<Seq<u8>>)>, i: int) -> bool {
    0 <= i < contents.len() && spec_destinations(headers_in(contents))[i] is Some
        && !contents[i].1
}

/// Whether every entry that is written out as a file can be read.
pub open spec fn readable(contents: Seq<(Seq<char>, bool, Option<Seq<u8>>)>) -> bool {
    forall|i: int| written_file(contents, i) ==> (#[trigger] contents[i]).2 is Some
}

/// Whether `files` are those of the first `n` entries of an archive that
/// are not left out, in their order: each at the path at which it goes, a
/// file with the bytes that it holds, a directory with none.
pub open spec fn unpacked_as(
    files: Seq<Unpacked>,
    contents: Seq<(Seq<char>, bool, Option<Seq<u8>>)>,
    n: int,
) -> bool
    decreases n,
{
    if n <= 0 || n > contents.len() {
        files.len() == 0
    } else {
        match spec_destinations(headers_in(contents))[n - 1] {
            Some(path) => {
                &&& files.len() > 0
                &&& files.last().path@ == path
                &&& files.last().is_dir == contents[n - 1].1
                &&& files.last().content@ == (if contents[n - 1].1 {
                    Seq::<u8>::empty()
                } else {
                    contents[n - 1].2->0
                })
                &&& unpacked_as(files.drop_last(), contents, n - 1)
            },
            None => unpacked_as(files, contents, n - 1),
        }
    }
}

/// Whether `outcome` is an error of the provisioning kind.
pub open spec fn provisioning_error<T>(outcome: Result<T, LifecycleError>) -> bool {
    outcome matches Err(error) && error is Provisioning
}

/// Reads a zip archive from its bytes and tells what is to be written out:
/// every entry that is not left out, with the path at which it goes and, for
/// a file, what it holds. Bytes that hold no archive are an error, and so
/// is an archive with a file that is to be written out and cannot be read.
pub fn unpack_zip(bytes: Vec<u8>) -> (outcome: Result<Vec<Unpacked>, LifecycleError>)
    ensures
        match zip_directory(bytes@) {
            Some(contents) => if readable(contents) {
                outcome matches Ok(files) && unpacked_as(files@, contents, contents.len() as int)
            } else {
                provisioning_error(outcome)
            },
            None => provisioning_error(outcome),
        },
{
    let mut archive = match zip_open(bytes) {
        Ok(archive) => archive,
        Err(error) => {
            return Err(
                LifecycleError::Provisioning(
                    concat("Failed to open zip archive: ", zip_error_text(&error).as_str()),
                ),
            );
        },
    };
    let ghost contents = zip_contents(archive);
    let ghost listed_headers = headers_in(contents);
    let n = zip_len(&archive);
    let mut headers: Vec<(String, bool)> = Vec::new();
    let mut i: usize = 0;
    while i < n
        invariant
            i <= n,
            n == contents.len(),
            zip_directory(bytes@) == Some(contents),
            zip_contents(archive) == contents,
            listed_headers == headers_in(contents),
            headers.len() == i,
            headers_of(headers@) == listed_headers.subrange(0, i as int),
        decreases n - i,
    {
        match zip_header(&archive, i) {
            Ok(header) => {
                let ghost before = headers_of(headers@);
                headers.push(header);
                assert(headers_of(headers@) =~= before.push((header.0@, header.1)));
                assert(headers_of(headers@) =~= listed_headers.subrange(0, i + 1));
            },
            Err(error) => {
                return Err(
                    LifecycleError::Provisioning(
                        concat("Failed to get file from zip: ", zip_error_text(&error).as_str()),
                    ),
                );
            },
        }
        i += 1;
    }
    assert(headers_of(headers@) =~= listed_headers);
    let paths = plan_extraction(&headers);
    let mut files: Vec<Unpacked> = Vec::new();
    let mut k: usize = 0;
    while k < n
        invariant
            k <= n,
            n == contents.len(),
            n == headers.len(),
            n == paths.len(),
            zip_directory(bytes@) == Some(contents),
            zip_contents(archive) == contents,
            listed_headers == headers_in(contents),
            headers_of(headers@) == listed_headers,
            opt_texts(paths@) == spec_destinations(listed_headers),
            unpacked_as(files@, contents, k as int),
            forall|j: int| 0 <= j < k && written_file(contents, j) ==> (#[trigger] contents[j]).2 is Some,
        decreases n - k,
    {
        assert(opt_texts(paths@)[k as int] == crate::text::opt_text(paths[k as int]));
        assert(headers_of(headers@)[k as int] == (headers[k as int].0@, headers[k as int].1));
        assert(listed_headers[k as int] == (contents[k as int].0, contents[k as int].1));
        match &paths[k] {
            Some(path) => {
                let is_dir = headers[k].1;
                let content = if is_dir {
                    Vec::new()
                } else {
                    match zip_content(&mut archive, k) {
                        Ok(content) => content,
                        Err(error) => {
                            proof {
                                assert(written_file(contents, k as int));
                                assert(contents[k as int].2 is None);
                                assert(!readable(contents));
                            }
                            return Err(
                                LifecycleError::Provisioning(
                                    concat(
                                        "Failed to read file from zip: ",
                                        zip_error_text(&error).as_str(),
                                    ),
                                ),
                            );
                        },
                    }
                };
                let ghost before = files@;
                files.push(Unpacked { path: path.clone(), is_dir, content });
                assert(files@.drop_last() =~= before);
            },
            None => {},
        }
        k += 1;
    }
    assert(readable(contents));
    Ok(files)
}

/// What the entries of a gzipped tar archive are, in their order, where the
/// bytes can be read as one to their end: the path of each, with bytes that
/// are no UTF-8 replaced, and what it holds.
pub uninterp spec fn tar_gz_listing(bytes: Seq<u8>) -> Option<Seq<(Seq<char>, Seq<u8>)>>;

/// The path of each entry, and what it holds, as plain values.
pub open spec fn entries_of(entries: Seq<(String, Vec<u8>)>) -> Seq<(Seq<char>, Seq<u8>)> {
    entries.map_values(|e: (String, Vec<u8>)| (e.0@, e.1@))
}

/// The paths of a listing.
pub open spec fn listed_paths(listing: Seq<(Seq<char>, Seq<u8>)>) -> Seq<Seq<char>> {
    listing.map_values(|e: (Seq<char>, Seq<u8>)| e.0)
}

/// `tar::Archive::entries` over a `flate2::read::GzDecoder`: the entries of
/// a gzipped tar archive in their order, each with its path as
/// `tar::Entry::path_bytes` gives it, read as UTF-8 with replacements, and
/// with what it holds. The text of the first error comes back where the
/// bytes cannot be read to their end. What comes back is a matter of the
/// bytes alone.
#[verifier::external_body]
fn tar_gz_entries(bytes: &Vec<u8>) -> (entries: Result<Vec<(String, Vec<u8>)>, String>)
    ensures
        match entries {
            Ok(list) => tar_gz_listing(bytes@) == Some(entries_of(list@)),
            Err(_) => tar_gz_listing(bytes@) is None,
        },
{
    let gz = flate2::read::GzDecoder::new(std::io::Cursor::new(bytes));
    let mut archive = tar::Archive::new(gz);
    let mut out = Vec::new();
    for entry in archive.entries().map_err(|e| e.to_string())? {
        let mut entry = entry.map_err(|e| e.to_string())?;
        let path = String::from_utf8_lossy(&entry.path_bytes()).into_owned();
        let mut content = Vec::new();
        std::io::Read::read_to_end(&mut entry, &mut content).map_err(|e| e.to_string())?;
        out.push((path, content));
    }
    Ok(out)
}

/// The position after the last `/` of `path`, or 0 where it holds none.
pub open spec fn name_start(path: Seq<char>) -> int
    decreases path.len(),
{
    if path.len() == 0 {
        0
    } else if path.last() == '/' {
        path.len() as int
    } else {
        name_start(path.drop_last())
    }
}

/// The file name of a path: what follows its last `/`.
pub open spec fn spec_file_name(path: Seq<char>) -> Seq<char> {
    path.subrange(name_start(path), path.len() as int)
}

/// The file name of a path: what follows its last `/`.
pub fn file_name(path: &str) -> (name: String)
    ensures
        name@ == spec_file_name(path@),
{
    let v = chars_of(path);
    let n = v.len();
    let mut i: usize = n;
    assert(v@.subrange(0, i as int) == v@);
    while i > 0 && v[i - 1] != '/'
        invariant
            i <= n,
            n == v.len(),
            name_start(v@) == name_start(v@.subrange(0, i as int)),
        decreases i,
    {
        assert(v@.subrange(0, i as int).drop_last() == v@.subrange(0, i - 1));
        i -= 1;
    }
    proof {
        if i > 0 {
            assert(v@.subrange(0, i as int).last() == '/');
        }
    }
    string_of_range(&v, i, n)
}

/// The paths of a list of entries.
pub open spec fn paths_of(entries: Seq<(String, Vec<u8>)>) -> Seq<Seq<char>> {
    entries.map_values(|e: (String, Vec<u8>)| e.0@)
}

/// The position of the first of `paths`, from `i` on, whose file name is
/// `name`.
pub open spec fn first_named_from(paths: Seq<Seq<char>>, name: Seq<char>, i: int) -> Option<int>
    decreases paths.len() - i,
{
    if i < 0 || i >= paths.len() {
        None
    } else if spec_file_name(paths[i]) == name {
        Some(i)
    } else {
        first_named_from(paths, name, i + 1)
    }
}

/// The position of the first entry whose file name is `name`.
pub fn select_entry(entries: &Vec<(String, Vec<u8>)>, name: &str) -> (found: Option<usize>)
    ensures
        match found {
            Some(i) => first_named_from(paths_of(entries@), name@, 0) == Some(i as int) && i
                < entries.len(),
            None => first_named_from(paths_of(entries@), name@, 0) is None,
        },
{
    let mut i: usize = 0;
    while i < entries.len()
        invariant
            i <= entries.len(),
            first_named_from(paths_of(entries@), name@, 0) == first_named_from(
                paths_of(entries@),
                name@,
                i as int,
            ),
        decreases entries.len() - i,
    {
        assert(paths_of(entries@)[i as int] == entries[i as int].0@);
        let candidate = file_name(entries[i].0.as_str());
        if *candidate.as_str() == *name {
            return Some(i);
        }
        i += 1;
    }
    None
}

/// What is made of the entries of an archive when the file called `name` is
/// wanted: what the first entry of that name holds, or a word that there is
/// none.
pub fn take_entry(entries: Vec<(String, Vec<u8>)>, name: &str, missing: &str) -> (outcome: Result<
    Vec<u8>,
    LifecycleError,
>)
    ensures
        match first_named_from(paths_of(entries@), name@, 0) {
            Some(i) => outcome matches Ok(content) && content@ == entries[i].1@,
            None => outcome matches Err(LifecycleError::Provisioning(said)) && said@ == missing@,
        },
{
    match select_entry(&entries, name) {
        Some(i) => Ok(entries[i].1.clone()),
        None => Err(LifecycleError::Provisioning(missing.to_owned())),
    }
}

/// What is handed out of a listing when the file called `name` is wanted:
/// what the first entry of that name holds, if there is one.
pub open spec fn spec_wanted(listing: Seq<(Seq<char>, Seq<u8>)>, name: Seq<char>) -> Option<
    Seq<u8>,
> {
    match first_named_from(listed_paths(listing), name, 0) {
        Some(i) => Some(listing[i].1),
        None => None,
    }
}

/// Reads a gzipped tar archive from its bytes and hands out what its first
/// entry with the file name `name` holds. An archive without such an entry
/// is an error that says `missing`; bytes that cannot be read as such an
/// archive are an error that begins with a word of that.
pub fn unpack_tar_gz_entry(bytes: &Vec<u8>, name: &str, missing: &str) -> (outcome: Result<
    Vec<u8>,
    LifecycleError,
>)
    ensures
        match tar_gz_listing(bytes@) {
            Some(listing) => match spec_wanted(listing, name@) {
                Some(wanted) => outcome matches Ok(content) && content@ == wanted,
                None => outcome matches Err(LifecycleError::Provisioning(said)) && said@
                    == missing@,
            },
            None => outcome matches Err(LifecycleError::Provisioning(said)) && spec_starts_with(
                said@,
                "Failed to read tar entries: "@,
            ),
        },
{
    match tar_gz_entries(bytes) {
        Ok(entries) => {
            proof {
                assert(listed_paths(entries_of(entries@)) =~= paths_of(entries@));
                let found = first_named_from(paths_of(entries@), name@, 0);
                if found is Some {
                    lemma_first_named_bounds(paths_of(entries@), name@, 0);
                    assert(entries_of(entries@)[found->0] == (
                        entries[found->0].0@,
                        entries[found->0].1@,
                    ));
                }
            }
            take_entry(entries, name, missing)
        },
        Err(text) => {
            let said = concat("Failed to read tar entries: ", text.as_str());
            assert(said@.subrange(0, "Failed to read tar entries: "@.len() as int)
                =~= "Failed to read tar entries: "@);
            Err(LifecycleError::Provisioning(said))
        },
    }
}

/// The first entry of a name stands at a position of the listing.
proof fn lemma_first_named_bounds(paths: Seq<Seq<char>>, name: Seq<char>, i: int)
    requires
        0 <= i,
        first_named_from(paths, name, i) is Some,
    ensures
        i <= first_named_from(paths, name, i)->0 < paths.len(),
    decreases paths.len() - i,
{
    if i < paths.len() && spec_file_name(paths[i]) != name {
        lemma_first_named_bounds(paths, name, i + 1);
    }
}

} // verus!
