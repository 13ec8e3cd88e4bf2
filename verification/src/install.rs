//! Getting hold of a `cloudflared` binary: the search along `PATH`, the sources
//! of a download, and the archive that a download may be.

use vstd::prelude::*;
use vstd::string::*;

use crate::binary;
use crate::binary::{binary_name, candidate_urls, download_asset_name, platform_name};
use crate::error::{Error, InstallError};
use crate::text;

verus! {

/// A place where the binary may be: a file name in one of the directories of
/// `PATH`.
#[derive(Debug, PartialEq, Eq)]
pub struct Candidate {
    /// Which directory of `PATH`.
    pub dir: usize,
    /// The file name.
    pub name: String,
}

/// A candidate as a pair.
pub open spec fn place(candidate: Candidate) -> (nat, Seq<char>) {
    (candidate.dir as nat, candidate.name@)
}

/// What a list of candidates holds.
pub open spec fn places(candidates: Seq<Candidate>) -> Seq<(nat, Seq<char>)> {
    candidates.map_values(|c: Candidate| place(c))
}

/// One file name in each of the directories, in order.
pub open spec fn in_each_dir(dirs: nat, name: Seq<char>) -> Seq<(nat, Seq<char>)> {
    Seq::new(dirs, |i: int| (i as nat, name))
}

/// The binary with each of the file extensions, in each of the directories.
/// Empty extensions are skipped.
pub open spec fn with_extensions(dirs: nat, exts: Seq<String>) -> Seq<(nat, Seq<char>)>
    decreases exts.len(),
{
    if exts.len() == 0 {
        seq![]
    } else {
        let before = with_extensions(dirs, exts.drop_last());
        if exts.last()@.len() == 0 {
            before
        } else {
            before + in_each_dir(dirs, "cloudflared"@ + exts.last()@)
        }
    }
}

/// All places to look at, in order.
pub open spec fn search_path(dirs: nat, exts: Seq<String>, windows: bool) -> Seq<
    (nat, Seq<char>),
> {
    if windows {
        in_each_dir(dirs, binary::file_name(true)) + with_extensions(dirs, exts)
    } else {
        in_each_dir(dirs, binary::file_name(false))
    }
}

fn push_each_dir(list: &mut Vec<Candidate>, dirs: usize, name: &str)
    ensures
        places(final(list)@) == places(old(list)@) + in_each_dir(dirs as nat, name@),
{
    let mut i: usize = 0;
    assert(places(list@) =~= places(old(list)@) + in_each_dir(0, name@));
    while i < dirs
        invariant
            i <= dirs,
            places(list@) == places(old(list)@) + in_each_dir(i as nat, name@),
        decreases dirs - i,
    {
        let ghost before = list@;
        list.push(Candidate { dir: i, name: name.to_owned() });
        i = i + 1;
        assert(places(list@) =~= places(before).push(((i - 1) as nat, name@)));
        assert(places(list@) =~= places(old(list)@) + in_each_dir(i as nat, name@));
    }
}

/// The places to look for an existing `cloudflared`, given the number of
/// directories in `PATH` and, on Windows, the extensions in `PATHEXT`.
pub fn path_candidates(dirs: usize, exts: &Vec<String>, windows: bool) -> (r: Vec<Candidate>)
    ensures
        places(r@) == search_path(dirs as nat, exts@, windows),
{
    let mut list: Vec<Candidate> = Vec::new();
    push_each_dir(&mut list, dirs, binary_name(windows));
    let ghost first = in_each_dir(dirs as nat, binary::file_name(windows));
    assert(places(list@) =~= first);
    if !windows {
        return list;
    }
    let mut i: usize = 0;
    assert(with_extensions(dirs as nat, exts@.take(0)) =~= seq![]);
    assert(places(list@) =~= first + with_extensions(dirs as nat, exts@.take(0)));
    while i < exts.len()
        invariant
            i <= exts@.len(),
            places(list@) == first + with_extensions(dirs as nat, exts@.take(i as int)),
        decreases exts@.len() - i,
    {
        assert(exts@.take(i + 1).drop_last() =~= exts@.take(i as int));
        if !exts[i].as_str().is_empty() {
            let mut name = "cloudflared".to_owned();
            name.append(exts[i].as_str());
            push_each_dir(&mut list, dirs, name.as_str());
        }
        assert(places(list@) =~= first + with_extensions(dirs as nat, exts@.take(i + 1)));
        i = i + 1;
    }
    assert(exts@.take(i as int) =~= exts@);
    list
}

/// What is found at a place.
#[derive(Debug, Clone, Copy, PartialEq, Eq, Structural)]
pub struct FoundFile {
    /// There is a file.
    pub is_file: bool,
    /// It can be executed.
    pub executable: bool,
}

/// The first place at or after `at` with a file; the number of places when
/// there is none.
pub open spec fn first_file(found: Seq<FoundFile>, at: nat) -> nat
    decreases found.len() - at,
{
    if at >= found.len() {
        found.len()
    } else if found[at as int].is_file {
        at
    } else {
        first_file(found, at + 1)
    }
}

/// Picks the binary: the first file along the way, if it can be executed. A
/// file that cannot be executed hides those that come after it.
pub fn find_in_path(found: &Vec<FoundFile>) -> (r: Option<usize>)
    ensures
        ({
            let first = first_file(found@, 0);
            match r {
                Some(at) => at == first && first < found@.len() && found@[first as int].executable,
                None => first == found@.len() || !found@[first as int].executable,
            }
        }),
{
    let mut at: usize = 0;
    while at < found.len()
        invariant
            at <= found@.len(),
            first_file(found@, 0) == first_file(found@, at as nat),
        decreases found@.len() - at,
    {
        if found[at].is_file {
            if found[at].executable {
                return Some(at);
            }
            return None;
        }
        at = at + 1;
    }
    None
}

/// What to do about a missing binary.
#[derive(Debug, PartialEq, Eq)]
pub struct Download {
    /// The sources, in order.
    pub urls: Vec<String>,
    /// The source to try next.
    pub at: usize,
    /// What went wrong with the one before.
    pub last_error: Option<String>,
    /// Whether a source gives an archive.
    pub is_tgz: bool,
}

/// Where the binary comes from.
#[derive(Debug, PartialEq, Eq)]
pub enum Located {
    /// It is on `PATH`, at the given place.
    InPath(usize),
    /// It has been installed before.
    Installed,
    /// It has to be downloaded.
    Missing(Download),
}

/// What the outcome of one download leads to.
#[derive(Debug, PartialEq, Eq)]
pub enum Fetch {
    /// The binary is there.
    Installed,
    /// There is another source.
    Retry {
        /// The remaining work.
        rest: Download,
        /// What to tell the user.
        notice: String,
    },
    /// There is no other source.
    Failed {
        /// The failure of the last one.
        error: Error,
        /// What to tell the user, when there was more than one source.
        notice: Option<String>,
    },
}

/// Decides where the binary comes from: `PATH` first, then what was installed
/// before, then a download. `os` is the operating system, by its own name.
pub fn ensure_installed(
    in_path: Option<usize>,
    installed: bool,
    os: &str,
    arch: &str,
    github_proxy: Option<&str>,
    env: Option<&str>,
) -> (r: Result<Located, Error>)
    ensures
        in_path matches Some(at) ==> r == Ok::<Located, Error>(Located::InPath(at)),
        in_path is None && installed ==> r == Ok::<Located, Error>(Located::Installed),
        in_path is None && !installed ==> match binary::asset_for(
            binary::platform(os@),
            arch@,
        ) {
            None => r matches Err(
                Error::Cloudflared(InstallError::UnsupportedPlatform { platform: p, arch: a }),
            ) && p@ == os@ && a@ == arch@,
            Some(asset) => {
                &&& r matches Ok(Located::Missing(download))
                &&& download.at == 0
                &&& download.last_error is None
                &&& download.is_tgz == ".tgz"@.is_suffix_of(asset)
                &&& binary::texts(download.urls@) == binary::sources(
                    asset,
                    match github_proxy {
                        Some(prefix) => binary::mirror(prefix@),
                        None => binary::env_mirror(
                            match env {
                                Some(prefix) => Some(prefix@),
                                None => None,
                            },
                        ),
                    },
                )
            },
        },
{
    if let Some(at) = in_path {
        return Ok(Located::InPath(at));
    }
    if installed {
        return Ok(Located::Installed);
    }
    match download_asset_name(platform_name(os).as_str(), arch) {
        Err(_) => Err(
            Error::Cloudflared(
                InstallError::UnsupportedPlatform { platform: os.to_owned(), arch: arch.to_owned() },
            ),
        ),
        Ok(asset) => {
            let is_tgz = text::ends_with(asset, ".tgz");
            let urls = candidate_urls(asset, github_proxy, env);
            Ok(Located::Missing(Download { urls, at: 0, last_error: None, is_tgz }))
        },
    }
}

/// Why a download failed.
#[derive(Debug, PartialEq, Eq)]
pub enum FetchError {
    /// A step failed for a reason of its own.
    Step {
        /// The step.
        text: String,
        /// The step, with the reasons behind it.
        chain: String,
    },
    /// Anything else.
    Plain(Error),
}

impl FetchError {
    /// What is left of the failure once every source has been tried: the step
    /// alone.
    pub open spec fn cause(self) -> Seq<char> {
        match self {
            FetchError::Step { text, .. } => text@,
            FetchError::Plain(error) => error.described(),
        }
    }

    /// The failure with the reasons behind it.
    pub open spec fn in_full(self) -> Seq<char> {
        match self {
            FetchError::Step { chain, .. } => chain@,
            FetchError::Plain(error) => error.described(),
        }
    }
}

/// What the user is told of a failed download.
pub open spec fn download_notice(url: Seq<char>, error: FetchError) -> Seq<char> {
    "Download failed ("@ + url + "): "@ + error.in_full() + "; trying next source"@
}

impl Download {
    /// There is a source to try.
    pub open spec fn well_formed(self) -> bool {
        self.at < self.urls@.len()
    }

    /// The source to try now.
    pub fn url(&self) -> (r: String)
        requires
            self.well_formed(),
        ensures
            r == self.urls@[self.at as int],
    {
        self.urls[self.at].clone()
    }

    fn notice(&self, error: &FetchError) -> (r: String)
        requires
            self.well_formed(),
        ensures
            r@ == download_notice(self.urls@[self.at as int]@, *error),
    {
        let mut r = "Download failed (".to_owned();
        r.append(self.urls[self.at].as_str());
        r.append("): ");
        match error {
            FetchError::Step { chain, .. } => {
                r.append(chain.as_str());
            },
            FetchError::Plain(error) => {
                r.append(error.message().as_str());
            },
        }
        r.append("; trying next source");
        r
    }

    /// Takes the outcome of downloading from the current source. The failure of
    /// the last source is the failure of the whole.
    pub fn fetched(self, outcome: Result<(), FetchError>) -> (r: Fetch)
        requires
            self.well_formed(),
        ensures
            match outcome {
                Ok(()) => r is Installed,
                Err(error) => {
                    let notice = download_notice(self.urls@[self.at as int]@, error);
                    if self.at + 1 < self.urls@.len() {
                        &&& r matches Fetch::Retry { rest, notice: n }
                        &&& rest.well_formed()
                        &&& rest.urls == self.urls
                        &&& rest.at == self.at + 1
                        &&& rest.is_tgz == self.is_tgz
                        &&& rest.last_error is Some && rest.last_error->0@ == error.cause()
                        &&& n@ == notice
                    } else {
                        &&& r matches Fetch::Failed { error: e, notice: n }
                        &&& e matches Error::Cloudflared(InstallError::Download(message))
                        &&& message@ == error.cause()
                        &&& n is Some <==> self.urls@.len() > 1
                        &&& n is Some ==> n->0@ == notice
                    }
                },
            },
    {
        match outcome {
            Ok(()) => Fetch::Installed,
            Err(error) => {
                let notice = self.notice(&error);
                let n: usize = self.urls.len();
                let message = match error {
                    FetchError::Step { text, .. } => text,
                    FetchError::Plain(error) => error.message(),
                };
                if self.at + 1 < n {
                    let rest = Download {
                        urls: self.urls,
                        at: self.at + 1,
                        last_error: Some(message),
                        is_tgz: self.is_tgz,
                    };
                    Fetch::Retry { rest, notice }
                } else {
                    let notice = if n > 1 {
                        Some(notice)
                    } else {
                        None
                    };
                    Fetch::Failed {
                        error: Error::Cloudflared(InstallError::Download(message)),
                        notice,
                    }
                }
            },
        }
    }
}

/// The bytes that a gzip stream unpacks to, up to its end or to the first of
/// them that cannot be had.
pub uninterp spec fn unpacked(archive: Seq<u8>) -> Seq<u8>;

/// `flate2::read::GzDecoder`, read byte by byte, gives what the stream unpacks
/// to, up to its end or to the first failure. All of it is a function of the
/// bytes.
#[verifier::external_body]
fn gunzip(archive: &Vec<u8>) -> (r: Vec<u8>)
    ensures
        r@ == unpacked(archive@),
{
    let decoder = flate2::read::GzDecoder::new(archive.as_slice());
    std::io::Read::bytes(decoder).map_while(|byte| byte.ok()).collect()
}

/// One step of the walk over a tar archive.
#[derive(Debug, PartialEq, Eq)]
pub enum Listed {
    /// An entry.
    Entry {
        /// Its path.
        path: Vec<u8>,
        /// Where its header starts.
        position: u64,
        /// How much its header, or the attributes before it, say that it holds.
        size: u64,
    },
    /// The walk cannot go on, and why.
    Fault(String),
}

/// What one step of the walk over a tar archive shows.
pub enum Seen {
    /// An entry.
    Entry {
        /// Its path.
        path: Seq<u8>,
        /// Where its header starts.
        position: u64,
        /// Its size.
        size: u64,
    },
    /// The walk cannot go on.
    Fault(Seq<char>),
}

impl Listed {
    /// What this step shows.
    pub open spec fn seen(self) -> Seen {
        match self {
            Listed::Entry { path, position, size } => Seen::Entry { path: path@, position, size },
            Listed::Fault(cause) => Seen::Fault(cause@),
        }
    }
}

/// What the walk over a tar archive shows.
pub enum Walk {
    /// Its steps, in order.
    Steps(Seq<Seen>),
    /// It cannot begin.
    Fault(Seq<char>),
}

/// What a list of steps shows.
pub open spec fn all_seen(steps: Seq<Listed>) -> Seq<Seen> {
    steps.map_values(|step: Listed| step.seen())
}

/// What a walk shows.
pub open spec fn walk_of(walk: Result<Vec<Listed>, String>) -> Walk {
    match walk {
        Ok(steps) => Walk::Steps(all_seen(steps@)),
        Err(cause) => Walk::Fault(cause@),
    }
}

/// The walk over a tar archive.
pub uninterp spec fn tar_walk(data: Seq<u8>) -> Walk;

/// The walk over a gzipped tar archive.
pub uninterp spec fn archive_walk(archive: Seq<u8>) -> Walk;

/// A block of a tar archive starts here.
pub open spec fn block_at(data: Seq<u8>, at: int) -> bool {
    0 <= at && at % 512 == 0 && at + 512 <= data.len()
}

/// The mark of a GNU header: `ustar`, two spaces and a zero.
pub open spec fn gnu_mark() -> Seq<u8> {
    seq![117u8, 115, 116, 97, 114, 32, 32, 0]
}

/// This block reads as the GNU header of a sparse file whose map goes on in
/// further blocks.
pub open spec fn is_sparse_block(data: Seq<u8>, at: int) -> bool {
    &&& block_at(data, at)
    &&& data[at + 156] == 83
    &&& data.subrange(at + 257, at + 265) == gnu_mark()
    &&& data[at + 482] == 1
}

/// The byte of a plain file's header that stands for that of a sparse file; for
/// the sake of the sum, the field of the sum itself is blank.
pub open spec fn plain_byte(data: Seq<u8>, at: int, i: int) -> int {
    if 148 <= i < 156 {
        32
    } else if i == 156 {
        48
    } else {
        data[at + i] as int
    }
}

/// The sum of the first bytes of such a header.
pub open spec fn plain_sum(data: Seq<u8>, at: int, n: int) -> int
    decreases n,
{
    if n <= 0 {
        0
    } else {
        plain_sum(data, at, n - 1) + plain_byte(data, at, n - 1)
    }
}

/// What a place of an octal number of six digits is worth.
pub open spec fn octal_place(k: int) -> int {
    if k == 0 {
        32768
    } else if k == 1 {
        4096
    } else if k == 2 {
        512
    } else if k == 3 {
        64
    } else if k == 4 {
        8
    } else {
        1
    }
}

/// The archive up to and with this header, made that of a plain file: its type
/// is changed, and its sum with it. The walk that comes to the header shows how
/// much it says that it holds.
pub open spec fn probe(data: Seq<u8>, at: int) -> Seq<u8> {
    Seq::new(
        (at + 512) as nat,
        |i: int|
            if at + 148 <= i < at + 154 {
                (48 + (plain_sum(data, at, 512) / octal_place(i - at - 148)) % 8) as u8
            } else if i == at + 154 {
                0u8
            } else if i == at + 155 {
                32u8
            } else if i == at + 156 {
                48u8
            } else {
                data[i]
            },
    )
}

/// One of these steps is an entry with its header here, and this is its size.
pub open spec fn shows_size(steps: Seq<Seen>, at: int, size: u64) -> bool {
    exists|i: int|
        0 <= i < steps.len() && (#[trigger] steps[i] matches Seen::Entry {
            position,
            size: s,
            ..
        } && position == at && s == size)
}

/// The walk comes to this header of a sparse file, and takes its size to be
/// this.
pub open spec fn claims(data: Seq<u8>, at: int, size: u64) -> bool {
    &&& is_sparse_block(data, at)
    &&& tar_walk(probe(data, at)) matches Walk::Steps(steps) && shows_size(steps, at, size)
}

/// A size in whole blocks.
pub open spec fn rounded(size: u64) -> int {
    (size + 511) / 512 * 512
}

/// The walk can count its place in 64 bits all along: a sparse file that it
/// comes to leaves room for the blocks that its map may take up.
pub open spec fn is_walkable(data: Seq<u8>) -> bool {
    forall|at: int, size: u64| #[trigger]
        claims(data, at, size) && at + 1024 <= data.len() ==> rounded(size) + data.len() / 512 * 512
            <= u64::MAX
}

/// So much of an archive can be walked: all of it, or as many blocks as leave
/// the walk room to count.
pub open spec fn is_cut(data: Seq<u8>, n: int) -> bool {
    &&& 0 <= n <= data.len()
    &&& is_walkable(data.take(n))
    &&& n < data.len() ==> n % 512 == 0 && n + 512 <= data.len() && !is_walkable(
        data.take(n + 512),
    )
}

/// `tar::Archive::entries` walks the entries, `tar::Entry::path_bytes` gives the
/// path of each, `raw_header_position` the place of its header, and `size` its
/// size. The walk ends with the first entry that cannot be read. All of it is a
/// function of the bytes. The walk counts its place in 64 bits, and adds the
/// blocks of a sparse file's map unchecked.
#[verifier::external_body]
fn list_tar(data: &Vec<u8>) -> (r: Result<Vec<Listed>, String>)
    requires
        is_walkable(data@),
    ensures
        walk_of(r) == tar_walk(data@),
{
    let mut tar = tar::Archive::new(data.as_slice());
    let entries = tar.entries().map_err(|e| e.to_string())?;
    Ok(entries.map(|entry| match entry {
        Ok(e) => Listed::Entry {
            path: e.path_bytes().into_owned(),
            position: e.raw_header_position(),
            size: e.size(),
        },
        Err(e) => Listed::Fault(e.to_string()),
    }).collect())
}

/// The walk of `list_tar`, over what `flate2::read::GzDecoder` unpacks. A
/// failure to unpack ends it at the entry that it comes up in. All of it is a
/// function of the bytes.
#[verifier::external_body]
fn list_archive(archive: &Vec<u8>) -> (r: Result<Vec<Listed>, String>)
    requires
        is_walkable(unpacked(archive@)),
    ensures
        walk_of(r) == archive_walk(archive@),
{
    let mut tar = tar::Archive::new(flate2::read::GzDecoder::new(archive.as_slice()));
    let entries = tar.entries().map_err(|e| e.to_string())?;
    Ok(entries.map(|entry| match entry {
        Ok(e) => Listed::Entry {
            path: e.path_bytes().into_owned(),
            position: e.raw_header_position(),
            size: e.size(),
        },
        Err(e) => Listed::Fault(e.to_string()),
    }).collect())
}

/// What an entry holds.
pub enum Content {
    /// These bytes.
    Bytes(Seq<u8>),
    /// It cannot be read.
    Fault(Seq<char>),
}

/// What an entry holds.
pub open spec fn content_of(content: Result<Vec<u8>, String>) -> Content {
    match content {
        Ok(bytes) => Content::Bytes(bytes@),
        Err(cause) => Content::Fault(cause@),
    }
}

/// What one entry of a gzipped tar archive holds.
pub uninterp spec fn archive_content(archive: Seq<u8>, index: nat) -> Content;

/// The walk can come to this entry: the archive can be walked, or so much of it
/// as has this entry.
pub open spec fn is_in_reach(archive: Seq<u8>, index: int) -> bool {
    let data = unpacked(archive);
    is_walkable(data) || exists|n: int|
        0 <= n <= data.len() && #[trigger] is_walkable(data.take(n)) && (tar_walk(
            data.take(n),
        ) matches Walk::Steps(steps) && 0 <= index < steps.len() && steps[index] is Entry)
}

/// `std::io::Read::read_to_end` on an entry that `tar::Archive::entries` hands
/// out gives the content of the entry, or fails. An archive that is cut short
/// inside a gzip stream that is whole gives what there is, without a failure.
/// All of it is a function of the bytes and of the entry's place. The way to the
/// entry is that of `list_archive`, and goes no further.
#[verifier::external_body]
fn read_entry(archive: &Vec<u8>, index: usize) -> (r: Result<Vec<u8>, String>)
    requires
        is_in_reach(archive@, index as int),
    ensures
        content_of(r) == archive_content(archive@, index as nat),
{
    let mut tar = tar::Archive::new(flate2::read::GzDecoder::new(archive.as_slice()));
    let mut entries = tar.entries().map_err(|e| e.to_string())?;
    let entry = entries.nth(index).ok_or("no such entry")?;
    let mut content = Vec::new();
    let read = std::io::Read::read_to_end(&mut entry.map_err(|e| e.to_string())?, &mut content);
    read.map_err(|e| e.to_string())?;
    Ok(content)
}

fn has_gnu_mark(data: &Vec<u8>, at: usize) -> (r: bool)
    requires
        block_at(data@, at as int),
    ensures
        r == (data@.subrange(at + 257, at + 265) == gnu_mark()),
{
    let mark: [u8; 8] = [117, 115, 116, 97, 114, 32, 32, 0];
    assert(mark@ =~= gnu_mark());
    let start: usize = at + 257;
    let mut i: usize = 0;
    while i < 8
        invariant
            i <= 8,
            start == at + 257,
            at + 512 <= data@.len(),
            mark@ == gnu_mark(),
            forall|j: int| 0 <= j < i ==> data@[start + j] == gnu_mark()[j],
        decreases 8 - i,
    {
        assert(data.len() == data@.len());
        if data[start + i] != mark[i] {
            assert(data@.subrange(at + 257, at + 265)[i as int] != gnu_mark()[i as int]);
            return false;
        }
        i = i + 1;
    }
    assert(data@.subrange(at + 257, at + 265) =~= gnu_mark());
    true
}

fn sum_plain(data: &Vec<u8>, at: usize) -> (r: u32)
    requires
        block_at(data@, at as int),
    ensures
        r == plain_sum(data@, at as int, 512),
{
    let mut sum: u32 = 0;
    let mut i: usize = 0;
    while i < 512
        invariant
            i <= 512,
            at + 512 <= data@.len(),
            sum == plain_sum(data@, at as int, i as int),
            sum <= 255 * i,
        decreases 512 - i,
    {
        assert(data.len() == data@.len());
        let byte: u32 = if 148 <= i && i < 156 {
            32
        } else if i == 156 {
            48
        } else {
            data[at + i] as u32
        };
        sum = sum + byte;
        i = i + 1;
    }
    sum
}

fn make_probe(data: &Vec<u8>, at: usize) -> (r: Vec<u8>)
    requires
        block_at(data@, at as int),
    ensures
        r@ == probe(data@, at as int),
{
    let sum: u32 = sum_plain(data, at);
    let mut r: Vec<u8> = Vec::new();
    let mut i: usize = 0;
    assert(data.len() == data@.len());
    let end: usize = at + 512;
    while i < end
        invariant
            i <= end,
            end == at + 512,
            end <= data@.len(),
            sum == plain_sum(data@, at as int, 512),
            r@ == probe(data@, at as int).take(i as int),
        decreases end - i,
    {
        let byte: u8 = if i < at + 148 || i > at + 156 {
            data[i]
        } else if i == at + 148 {
            48 + ((sum / 32768) % 8) as u8
        } else if i == at + 149 {
            48 + ((sum / 4096) % 8) as u8
        } else if i == at + 150 {
            48 + ((sum / 512) % 8) as u8
        } else if i == at + 151 {
            48 + ((sum / 64) % 8) as u8
        } else if i == at + 152 {
            48 + ((sum / 8) % 8) as u8
        } else if i == at + 153 {
            48 + (sum % 8) as u8
        } else if i == at + 154 {
            0
        } else if i == at + 155 {
            32
        } else {
            48
        };
        assert(byte == probe(data@, at as int)[i as int]);
        r.push(byte);
        assert(probe(data@, at as int).take(i + 1) =~= probe(data@, at as int).take(i as int).push(
            byte,
        ));
        i = i + 1;
    }
    assert(probe(data@, at as int).take(i as int) =~= probe(data@, at as int));
    r
}

proof fn sums_are_local(a: Seq<u8>, b: Seq<u8>, at: int, n: int)
    requires
        0 <= at,
        0 <= n <= 512,
        at + 512 <= a.len(),
        at + 512 <= b.len(),
        a.subrange(at, at + 512) == b.subrange(at, at + 512),
    ensures
        plain_sum(a, at, n) == plain_sum(b, at, n),
    decreases n,
{
    if n > 0 {
        sums_are_local(a, b, at, n - 1);
        assert(a.subrange(at, at + 512)[n - 1] == a[at + n - 1]);
        assert(b.subrange(at, at + 512)[n - 1] == b[at + n - 1]);
    }
}

/// What a header claims does not depend on what comes after it.
proof fn claims_are_local(a: Seq<u8>, b: Seq<u8>, at: int, size: u64)
    requires
        block_at(a, at),
        block_at(b, at),
        a.take(at + 512) == b.take(at + 512),
    ensures
        claims(a, at, size) == claims(b, at, size),
{
    assert forall|i: int| 0 <= i < at + 512 implies a[i] == b[i] by {
        assert(a.take(at + 512)[i] == a[i]);
        assert(b.take(at + 512)[i] == b[i]);
    }
    assert(a.subrange(at, at + 512) =~= b.subrange(at, at + 512));
    sums_are_local(a, b, at, 512);
    assert(probe(a, at) =~= probe(b, at));
    assert(a.subrange(at + 257, at + 265) =~= b.subrange(at + 257, at + 265));
}

/// What can be walked can be walked in part.
proof fn parts_are_walkable(data: Seq<u8>, n: int)
    requires
        is_walkable(data),
        0 <= n <= data.len(),
    ensures
        is_walkable(data.take(n)),
{
    let part = data.take(n);
    assert forall|at: int, size: u64| #[trigger]
        claims(part, at, size) && at + 1024 <= part.len() implies rounded(size) + part.len() / 512
        * 512 <= u64::MAX by {
        assert(part.take(at + 512) =~= data.take(at + 512));
        claims_are_local(part, data, at, size);
        assert(claims(data, at, size));
    }
}

/// There is one way to cut an archive.
pub proof fn cuts_are_unique(data: Seq<u8>, a: int, b: int)
    requires
        is_cut(data, a),
        is_cut(data, b),
    ensures
        a == b,
{
    if a < b {
        parts_are_walkable(data.take(b), a + 512);
        assert(data.take(b).take(a + 512) =~= data.take(a + 512));
    } else if b < a {
        parts_are_walkable(data.take(a), b + 512);
        assert(data.take(a).take(b + 512) =~= data.take(b + 512));
    }
}

/// An archive without a header of a sparse file whose map goes on in further
/// blocks is walked whole.
pub proof fn ordinary_archives_are_walked_whole(data: Seq<u8>, n: int)
    requires
        forall|at: int| !#[trigger] is_sparse_block(data, at),
        is_cut(data, n),
    ensures
        n == data.len(),
{
    assert(data.take(data.len() as int) =~= data);
    assert(is_walkable(data));
    cuts_are_unique(data, n, data.len() as int);
}

/// What is left of an archive whose walk is to keep room for the map of this
/// sparse file.
fn shorten(n: usize, at: usize, size: u64) -> (r: usize)
    requires
        at % 512 == 0,
        at + 1024 <= n,
    ensures
        rounded(size) + n as int / 512 * 512 <= u64::MAX ==> r == n,
        rounded(size) + n as int / 512 * 512 > u64::MAX ==> {
            &&& r % 512 == 0
            &&& at + 512 <= r
            &&& r + 512 <= n
            &&& at + 1024 <= r ==> rounded(size) + r <= u64::MAX
            &&& rounded(size) + r + 512 > u64::MAX
        },
{
    let blocks: u128 = (size as u128 + 511) / 512 * 512;
    let whole: u128 = n as u128 / 512 * 512;
    let most: u128 = u64::MAX as u128;
    assert(blocks == rounded(size));
    if blocks + whole <= most {
        return n;
    }
    let mut r: usize = n / 512 * 512;
    while r > at + 512 && blocks + r as u128 > most
        invariant
            r % 512 == 0,
            at % 512 == 0,
            at + 512 <= r <= n,
            blocks == rounded(size),
            blocks <= 0x1_0000_0000_0000_0000,
            most == u64::MAX,
            r + 512 <= n || r == n / 512 * 512,
            r < n / 512 * 512 ==> blocks + r + 512 > most,
            whole == n / 512 * 512,
            blocks + whole > most,
        decreases r,
    {
        r = r - 512;
    }
    r
}

/// How much of a tar archive can be walked.
pub fn walkable_part(data: &Vec<u8>) -> (r: usize)
    ensures
        is_cut(data@, r as int),
{
    let mut n: usize = data.len();
    let mut at: usize = 0;
    assert(data@.take(n as int) =~= data@);
    while n >= 1024 && at <= n - 1024
        invariant
            n <= data@.len(),
            data@.len() <= usize::MAX,
            at % 512 == 0,
            n < data@.len() ==> n % 512 == 0 && n + 512 <= data@.len() && !is_walkable(
                data@.take(n + 512),
            ),
            forall|h: int, size: u64| #[trigger]
                claims(data@, h, size) && h < at && h + 1024 <= n ==> rounded(size) + n as int / 512
                    * 512 <= u64::MAX,
        decreases n - at,
    {
        assert(data.len() == data@.len());
        assert(block_at(data@, at as int));
        let ghost before = n;
        if data[at + 156] == 83 && data[at + 482] == 1 && has_gnu_mark(data, at) {
            let ahead = make_probe(data, at);
            proof {
                assert forall|h: int, size: u64| #[trigger]
                    claims(ahead@, h, size) && h + 1024 <= ahead@.len() implies rounded(size)
                    + ahead@.len() / 512 * 512 <= u64::MAX by {
                    assert(h + 512 <= at);
                    assert(ahead@.take(h + 512) =~= data@.take(h + 512));
                    claims_are_local(ahead@, data@, h, size);
                    assert(ahead@.len() == at + 512);
                }
            }
            let walk = list_tar(&ahead);
            if let Ok(steps) = &walk {
                let mut i: usize = 0;
                while i < steps.len()
                    invariant
                        i <= steps@.len(),
                        walk == Ok::<Vec<Listed>, String>(*steps),
                        walk_of(walk) == tar_walk(probe(data@, at as int)),
                        is_sparse_block(data@, at as int),
                        n <= before <= data@.len(),
                        data@.len() <= usize::MAX,
                        at % 512 == 0,
                        at + 512 <= n,
                        n < data@.len() ==> n % 512 == 0 && n + 512 <= data@.len() && !is_walkable(
                            data@.take(n + 512),
                        ),
                        forall|j: int|
                            0 <= j < i ==> ((#[trigger] steps@[j]) matches Listed::Entry {
                                position,
                                size,
                                ..
                            } ==> (position == at && at + 1024 <= n ==> rounded(size) + n as int
                                / 512 * 512 <= u64::MAX)),
                    decreases steps@.len() - i,
                {
                    let ghost wide = n;
                    if let Listed::Entry { position, size, .. } = &steps[i] {
                        if *position == at as u64 && n - at >= 1024 {
                            n = shorten(n, at, *size);
                            proof {
                                let seen = all_seen(steps@);
                                assert(seen[i as int] == steps@[i as int].seen());
                                assert(shows_size(seen, at as int, *size));
                                assert(claims(data@, at as int, *size));
                                if n < wide {
                                    let longer = data@.take(n + 512);
                                    assert(longer.take(at + 512) =~= data@.take(at + 512));
                                    claims_are_local(longer, data@, at as int, *size);
                                    assert(claims(longer, at as int, *size));
                                    assert(!is_walkable(longer));
                                }
                            }
                        }
                    }
                    i = i + 1;
                }
            }
            proof {
                assert forall|size: u64| #[trigger]
                    claims(data@, at as int, size) && at + 1024 <= n implies rounded(size)
                    + n as int / 512 * 512 <= u64::MAX by {
                    if let Ok(steps) = walk {
                        let seen = all_seen(steps@);
                        assert(shows_size(seen, at as int, size));
                        let i = choose|i: int|
                            0 <= i < seen.len() && (#[trigger] seen[i] matches Seen::Entry {
                                position,
                                size: s,
                                ..
                            } && position == at && s == size);
                        assert(seen[i] == steps@[i].seen());
                    }
                }
            }
        }
        proof {
            assert forall|h: int, size: u64| #[trigger]
                claims(data@, h, size) && h < at + 512 && h + 1024 <= n implies rounded(size)
                + n as int / 512 * 512 <= u64::MAX by {
                assert(h < at || h == at);
            }
        }
        at = at + 512;
    }
    proof {
        let part = data@.take(n as int);
        assert forall|h: int, size: u64| #[trigger]
            claims(part, h, size) && h + 1024 <= part.len() implies rounded(size) + part.len() / 512
            * 512 <= u64::MAX by {
            assert(part.take(h + 512) =~= data@.take(h + 512));
            claims_are_local(part, data@, h, size);
        }
    }
    n
}

/// The last component of a path. Empty components and single dots do not
/// count.
pub open spec fn last_component(path: Seq<u8>) -> Seq<u8>
    decreases path.len(),
{
    if path.len() == 0 {
        path
    } else if path.last() == 47 {
        last_component(path.drop_last())
    } else if path.last() == 46 && (path.len() == 1 || path[path.len() - 2] == 47) {
        last_component(path.drop_last())
    } else {
        path.skip(slash_before(path) as int)
    }
}

/// How much of a path comes before its last component: everything up to the
/// last slash.
pub open spec fn slash_before(path: Seq<u8>) -> nat
    decreases path.len(),
{
    if path.len() == 0 || path.last() == 47 {
        path.len()
    } else {
        slash_before(path.drop_last())
    }
}

/// The bytes of `cloudflared`.
pub open spec fn binary_bytes() -> Seq<u8> {
    seq![99u8, 108, 111, 117, 100, 102, 108, 97, 114, 101, 100]
}

/// This path names the binary.
pub open spec fn names_binary(path: Seq<u8>) -> bool {
    last_component(path) == binary_bytes()
}

fn is_binary_path(path: &Vec<u8>) -> (r: bool)
    ensures
        r == names_binary(path@),
{
    let mut end: usize = path.len();
    assert(path@.take(end as int) =~= path@);
    while end > 0 && (path[end - 1] == 47 || (path[end - 1] == 46 && (end == 1 || path[end - 2]
        == 47)))
        invariant
            end <= path@.len(),
            last_component(path@) == last_component(path@.take(end as int)),
        decreases end,
    {
        assert(path@.take(end as int).drop_last() =~= path@.take(end - 1));
        end = end - 1;
    }
    let mut start: usize = end;
    while start > 0 && path[start - 1] != 47
        invariant
            start <= end <= path@.len(),
            slash_before(path@.take(end as int)) == slash_before(path@.take(start as int)),
        decreases start,
    {
        assert(path@.take(start as int).drop_last() =~= path@.take(start - 1));
        start = start - 1;
    }
    assert(last_component(path@) =~= path@.subrange(start as int, end as int));
    let name: [u8; 11] = [99, 108, 111, 117, 100, 102, 108, 97, 114, 101, 100];
    assert(name@ =~= binary_bytes());
    if end - start != 11 {
        return false;
    }
    let mut i: usize = 0;
    while i < 11
        invariant
            i <= 11,
            end <= path@.len(),
            start + 11 == end,
            last_component(path@) == path@.subrange(start as int, end as int),
            name@ == binary_bytes(),
            forall|j: int| 0 <= j < i ==> path@[start + j] == binary_bytes()[j],
        decreases 11 - i,
    {
        if path[start + i] != name[i] {
            assert(last_component(path@)[i as int] != binary_bytes()[i as int]);
            return false;
        }
        i = i + 1;
    }
    assert(last_component(path@) =~= binary_bytes());
    true
}

/// The first step, at or after `at`, that is an entry that names the binary or
/// that cannot be taken; the number of steps when there is none.
pub open spec fn step_of_interest(steps: Seq<Seen>, at: nat) -> nat
    decreases steps.len() - at,
{
    if at >= steps.len() {
        steps.len()
    } else {
        match steps[at as int] {
            Seen::Fault(_) => at,
            Seen::Entry { path, .. } => if names_binary(path) {
                at
            } else {
                step_of_interest(steps, at + 1)
            },
        }
    }
}

/// This step failed, for this reason.
pub open spec fn failed_at(e: FetchError, step: Seq<char>, reason: Seq<char>) -> bool {
    e matches FetchError::Step { text, chain } && text@ == step && chain@ == step + ": "@ + reason
}

fn failure(step: &str, reason: &str) -> (r: FetchError)
    ensures
        failed_at(r, step@, reason@),
{
    let mut chain = step.to_owned();
    chain.append(": ");
    chain.append(reason);
    FetchError::Step { text: step.to_owned(), chain }
}

/// Finds the binary among the entries of an archive: the first entry that
/// names it. An entry that cannot be read ends the search.
pub fn find_binary(walk: &Result<Vec<Listed>, String>) -> (r: Result<usize, FetchError>)
    ensures
        match walk_of(*walk) {
            Walk::Fault(cause) => r is Err && failed_at(r->Err_0, "reading tar archive"@, cause),
            Walk::Steps(seen) => {
                let at = step_of_interest(seen, 0);
                if at == seen.len() {
                    r == Err::<usize, FetchError>(
                        FetchError::Plain(Error::Cloudflared(InstallError::MissingBinary)),
                    )
                } else {
                    match seen[at as int] {
                        Seen::Fault(cause) => r is Err && failed_at(
                            r->Err_0,
                            "reading tar entry"@,
                            cause,
                        ),
                        Seen::Entry { .. } => r is Ok && r->Ok_0 == at && at < seen.len(),
                    }
                }
            },
        },
{
    match walk {
        Err(cause) => Err(failure("reading tar archive", cause.as_str())),
        Ok(steps) => {
            let ghost seen = all_seen(steps@);
            let mut at: usize = 0;
            while at < steps.len()
                invariant
                    at <= steps@.len(),
                    *walk == Ok::<Vec<Listed>, String>(*steps),
                    seen == all_seen(steps@),
                    step_of_interest(seen, 0) == step_of_interest(seen, at as nat),
                decreases steps@.len() - at,
            {
                assert(seen[at as int] == steps@[at as int].seen());
                match &steps[at] {
                    Listed::Fault(cause) => {
                        return Err(failure("reading tar entry", cause.as_str()));
                    },
                    Listed::Entry { path, .. } => {
                        if is_binary_path(path) {
                            return Ok(at);
                        }
                    },
                }
                at = at + 1;
            }
            Err(FetchError::Plain(Error::Cloudflared(InstallError::MissingBinary)))
        },
    }
}

/// What comes of looking for the binary in an archive, given the walk over it.
pub open spec fn found(archive: Seq<u8>, walk: Walk, r: Result<Vec<u8>, FetchError>) -> bool {
    match walk {
        Walk::Fault(cause) => r is Err && failed_at(r->Err_0, "reading tar archive"@, cause),
        Walk::Steps(steps) => {
            let at = step_of_interest(steps, 0);
            if at == steps.len() {
                r == Err::<Vec<u8>, FetchError>(
                    FetchError::Plain(Error::Cloudflared(InstallError::MissingBinary)),
                )
            } else {
                match steps[at as int] {
                    Seen::Fault(cause) => r is Err && failed_at(
                        r->Err_0,
                        "reading tar entry"@,
                        cause,
                    ),
                    Seen::Entry { .. } => match archive_content(archive, at) {
                        Content::Bytes(content) => r is Ok && r->Ok_0@ == content,
                        Content::Fault(cause) => r is Err && failed_at(
                            r->Err_0,
                            "extracting cloudflared"@,
                            cause,
                        ),
                    },
                }
            }
        },
    }
}

/// The walk over so much of an archive as can be walked.
pub open spec fn walk_within(archive: Seq<u8>, n: int) -> Walk {
    if n == unpacked(archive).len() {
        archive_walk(archive)
    } else {
        tar_walk(unpacked(archive).take(n))
    }
}

/// What comes of looking for the binary in an archive.
pub open spec fn extracted(archive: Seq<u8>, r: Result<Vec<u8>, FetchError>) -> bool {
    exists|n: int| #[trigger]
        is_cut(unpacked(archive), n) && found(archive, walk_within(archive, n), r)
}

/// The content of the binary that an archive holds.
pub fn extract_tgz(archive: &Vec<u8>) -> (r: Result<Vec<u8>, FetchError>)
    ensures
        extracted(archive@, r),
{
    let mut data = gunzip(archive);
    let n: usize = walkable_part(&data);
    assert(data.len() == data@.len());
    assert(data@.take(data@.len() as int) =~= data@);
    let walk = if n == data.len() {
        list_archive(archive)
    } else {
        data.truncate(n);
        assert(data@ =~= unpacked(archive@).take(n as int));
        list_tar(&data)
    };
    assert(walk_of(walk) == walk_within(archive@, n as int));
    match find_binary(&walk) {
        Err(e) => Err(e),
        Ok(index) => {
            proof {
                let whole = unpacked(archive@);
                assert(whole.take(whole.len() as int) =~= whole);
                assert(is_walkable(whole.take(n as int)));
            }
            match read_entry(archive, index) {
                Ok(content) => Ok(content),
                Err(cause) => Err(failure("extracting cloudflared", cause.as_str())),
            }
        },
    }
}

/// The bytes to install, given what was downloaded.
pub fn unpack(download: Vec<u8>, is_tgz: bool) -> (r: Result<Vec<u8>, FetchError>)
    ensures
        if is_tgz {
            extracted(download@, r)
        } else {
            r == Ok::<Vec<u8>, FetchError>(download)
        },
{
    if is_tgz {
        extract_tgz(&download)
    } else {
        Ok(download)
    }
}

/// The variables that are set for `cloudflared`, with their values: it must not
/// update itself.
pub open spec fn process_env() -> Seq<(Seq<char>, Seq<char>)> {
    seq![("NO_AUTOUPDATE"@, "true"@)]
}

/// The variables that are set for `cloudflared`, with their values.
pub fn spawn_env() -> (r: Vec<(&'static str, &'static str)>)
    ensures
        r@.len() == process_env().len(),
        forall|i: int| 0 <= i < r@.len() ==> (#[trigger] r@[i].0@, r@[i].1@) == process_env()[i],
{
    let mut r: Vec<(&'static str, &'static str)> = Vec::new();
    r.push(("NO_AUTOUPDATE", "true"));
    r
}

/// The arguments that `cloudflared` is run with.
pub fn spawn_args(tunnel_token: &str) -> (r: Vec<String>)
    ensures
        binary::texts(r@) == seq!["tunnel"@, "run"@, "--token"@, tunnel_token@],
{
    let mut r: Vec<String> = Vec::new();
    r.push("tunnel".to_owned());
    r.push("run".to_owned());
    r.push("--token".to_owned());
    r.push(tunnel_token.to_owned());
    assert(binary::texts(r@) =~= seq!["tunnel"@, "run"@, "--token"@, tunnel_token@]);
    r
}

/// The plain name is looked for first, in each directory, in the order of the
/// directories. On Windows it has its extension.
pub proof fn the_plain_name_goes_first(dirs: nat, exts: Seq<String>, windows: bool, i: int)
    requires
        0 <= i < dirs,
    ensures
        ({
            let path = search_path(dirs, exts, windows);
            &&& path.len() >= dirs
            &&& path[i].0 == i
            &&& windows ==> path[i].1 == "cloudflared.exe"@
            &&& !windows ==> path[i].1 == "cloudflared"@ && path.len() == dirs
        }),
{
}

/// With each further extension the same directories are gone through again,
/// after all places with the extensions before it; an empty extension adds
/// nothing.
pub proof fn extensions_are_gone_through_in_order(dirs: nat, exts: Seq<String>, ext: String, i: int)
    requires
        0 <= i < dirs,
    ensures
        ({
            let before = search_path(dirs, exts, true);
            let after = search_path(dirs, exts.push(ext), true);
            &&& before.is_prefix_of(after)
            &&& ext@.len() == 0 ==> after == before
            &&& ext@.len() > 0 ==> after.len() == before.len() + dirs && after[before.len() + i] == (
                i as nat,
                "cloudflared"@ + ext@,
            )
        }),
{
    let before = search_path(dirs, exts, true);
    let after = search_path(dirs, exts.push(ext), true);
    assert(exts.push(ext).drop_last() =~= exts);
    assert(before =~= after.subrange(0, before.len() as int));
}

/// The first file along the way is one that has no file before it.
pub proof fn the_first_file_counts(found: Seq<FoundFile>, at: nat)
    requires
        at <= found.len(),
    ensures
        at <= first_file(found, at) <= found.len(),
        first_file(found, at) < found.len() ==> found[first_file(found, at) as int].is_file,
        forall|i: int| at <= i < first_file(found, at) ==> !(#[trigger] found[i]).is_file,
    decreases found.len() - at,
{
    if at < found.len() && !found[at as int].is_file {
        the_first_file_counts(found, at + 1);
    }
}

/// The user is told the source that failed, all that is known of the failure,
/// and that it goes on. What is kept of the failure of a step is the step alone,
/// with which all that is known of it begins.
pub proof fn failed_downloads_are_told(
    url: Seq<char>,
    e: FetchError,
    step: Seq<char>,
    why: Seq<char>,
)
    requires
        failed_at(e, step, why),
    ensures
        download_notice(url, e) == "Download failed ("@ + url + "): "@ + (step + ": "@ + why)
            + "; trying next source"@,
        e.cause() == step,
        e.in_full() == step + ": "@ + why,
{
}

/// A failure without a step is told in its own words.
pub proof fn plain_failures_are_told(url: Seq<char>, error: Error)
    ensures
        FetchError::Plain(error).cause() == error.described(),
        download_notice(url, FetchError::Plain(error)) == "Download failed ("@ + url + "): "@
            + error.described() + "; trying next source"@,
{
}

/// The last component of a path without slashes is the path itself, unless that
/// is a single dot; slashes at the end, single dots at the end, and whatever
/// comes before the last slash do not count.
pub proof fn last_components_are_found(dir: Seq<u8>, name: Seq<u8>)
    requires
        name.len() > 0,
        !name.contains(47),
        name != seq![46u8],
    ensures
        last_component(name) == name,
        last_component(dir.push(47) + name) == name,
        last_component((dir.push(47) + name).push(47)) == name,
        last_component((dir.push(47) + name).push(47).push(46)) == name,
{
    let whole = dir.push(47) + name;
    no_slash_before(seq![], name);
    no_slash_before(dir.push(47), name);
    assert(seq![] + name =~= name);
    assert forall|i: int| 0 <= i < name.len() implies name[i] != 47 by {
        assert(name.contains(name[i]));
    }
    assert(name.last() != 47 && whole.last() == name.last());
    if name.last() == 46 && name.len() == 1 {
        assert(name =~= seq![46u8]);
    }
    assert(name.skip(0) =~= name);
    assert(whole.skip(dir.len() as int + 1) =~= name);
    let once = whole.push(47);
    let twice = once.push(46);
    assert(once.drop_last() =~= whole);
    assert(twice.drop_last() =~= once);
    assert(last_component(whole) == name);
    assert(last_component(once) == name);
}

proof fn no_slash_before(dir: Seq<u8>, name: Seq<u8>)
    requires
        dir.len() == 0 || dir.last() == 47,
        !name.contains(47),
    ensures
        slash_before(dir + name) == dir.len(),
    decreases name.len(),
{
    let whole = dir + name;
    if name.len() > 0 {
        let rest = name.drop_last();
        assert(whole.last() == name.last());
        assert(name.contains(name.last()));
        assert forall|i: int| 0 <= i < rest.len() implies rest[i] != 47 by {
            assert(name.contains(name[i]));
        }
        assert(whole.drop_last() =~= dir + rest);
        no_slash_before(dir, rest);
    } else {
        assert(whole =~= dir);
    }
}

/// The binary is named by these eleven letters, and by nothing longer or
/// shorter.
pub proof fn the_binary_has_one_name(path: Seq<u8>)
    ensures
        names_binary(path) <==> last_component(path) == seq![
            99u8,
            108,
            111,
            117,
            100,
            102,
            108,
            97,
            114,
            101,
            100,
        ],
{
}

/// The step that decides is the first that cannot be taken or that names the
/// binary: none before it does, and it is one itself.
pub proof fn the_first_step_of_interest_decides(steps: Seq<Seen>, at: nat)
    requires
        at <= steps.len(),
    ensures
        at <= step_of_interest(steps, at) <= steps.len(),
        forall|i: int|
            at <= i < step_of_interest(steps, at) ==> (#[trigger] steps[i]) is Entry
                && !names_binary(steps[i]->Entry_path),
        ({
            let i = step_of_interest(steps, at) as int;
            i < steps.len() ==> steps[i] is Fault || names_binary(steps[i]->Entry_path)
        }),
    decreases steps.len() - at,
{
    if at < steps.len() {
        the_first_step_of_interest_decides(steps, at + 1);
    }
}

/// What comes out of an archive is the content of its first entry that names the
/// binary, if no entry before it is broken.
pub proof fn the_first_binary_is_taken(
    archive: Seq<u8>,
    steps: Seq<Seen>,
    i: int,
    r: Result<Vec<u8>, FetchError>,
)
    requires
        0 <= i < steps.len(),
        forall|j: int|
            0 <= j < i ==> (#[trigger] steps[j]) is Entry && !names_binary(steps[j]->Entry_path),
        steps[i] is Entry,
        names_binary(steps[i]->Entry_path),
        found(archive, Walk::Steps(steps), r),
    ensures
        archive_content(archive, i as nat) matches Content::Bytes(content) ==> r is Ok
            && r->Ok_0@ == content,
        archive_content(archive, i as nat) matches Content::Fault(cause) ==> r is Err && failed_at(
            r->Err_0,
            "extracting cloudflared"@,
            cause,
        ),
{
    the_first_step_of_interest_decides(steps, 0);
}

/// An archive that has been gone through without the binary, or whose walk
/// breaks before it comes to it, gives an error that says which.
pub proof fn archives_without_the_binary_are_refused(
    archive: Seq<u8>,
    steps: Seq<Seen>,
    i: int,
    cause: Seq<char>,
    r: Result<Vec<u8>, FetchError>,
)
    requires
        0 <= i <= steps.len(),
        forall|j: int|
            0 <= j < i ==> (#[trigger] steps[j]) is Entry && !names_binary(steps[j]->Entry_path),
    ensures
        i == steps.len() && found(archive, Walk::Steps(steps), r) ==> r == Err::<
            Vec<u8>,
            FetchError,
        >(FetchError::Plain(Error::Cloudflared(InstallError::MissingBinary))),
        i < steps.len() && steps[i] == Seen::Fault(cause) && found(archive, Walk::Steps(steps), r)
            ==> r is Err && failed_at(r->Err_0, "reading tar entry"@, cause),
        found(archive, Walk::Fault(cause), r) ==> r is Err && failed_at(
            r->Err_0,
            "reading tar archive"@,
            cause,
        ),
{
    the_first_step_of_interest_decides(steps, 0);
}

/// A binary that updates itself would change under the feet of whoever runs it:
/// it is told not to.
pub proof fn the_process_does_not_update_itself()
    ensures
        process_env().contains(("NO_AUTOUPDATE"@, "true"@)),
        process_env().len() == 1,
{
    assert(process_env()[0] == ("NO_AUTOUPDATE"@, "true"@));
}

/// A binary that is on the path is used, wherever it is; failing that one that was
/// installed before. Only when there is neither is one downloaded, from GitHub at
/// the last.
pub proof fn what_is_there_is_used(
    in_path: Option<usize>,
    installed: bool,
    os: &str,
    arch: &str,
    proxy: Option<&str>,
    env: Option<&str>,
    r: Result<Located, Error>,
)
    requires
        call_ensures(ensure_installed, (in_path, installed, os, arch, proxy, env), r),
    ensures
        in_path matches Some(at) ==> r == Ok::<Located, Error>(Located::InPath(at)),
        in_path is None && installed ==> r == Ok::<Located, Error>(Located::Installed),
        in_path is None && !installed && r is Ok ==> r->Ok_0 is Missing && r->Ok_0->Missing_0.at == 0
            && r->Ok_0->Missing_0.urls@.len() >= 1
            && "https://github.com/cloudflare/cloudflared/releases/latest/download"@.is_prefix_of(
            r->Ok_0->Missing_0.urls@.last()@,
        ),
        r is Err ==> in_path is None && !installed && (r->Err_0 matches Error::Cloudflared(
            InstallError::UnsupportedPlatform { platform, arch: a },
        ) && platform@ == os@ && a@ == arch@),
{
    if in_path is None && !installed && r is Ok {
        let urls = r->Ok_0->Missing_0.urls@;
        let asset = binary::asset_for(binary::platform(os@), arch@)->0;
        assert(binary::texts(urls).len() == urls.len());
        assert(binary::texts(urls).last() == urls.last()@);
        assert(binary::texts(urls).last() == binary::direct_url(asset));
        let base = binary::github_base();
        assert(base =~= binary::direct_url(asset).subrange(0, base.len() as int));
    }
}

/// A source that fails is followed by the next, until there is none; the failure
/// of the last is the failure of the whole. No source is tried twice, and none is
/// passed over.
pub proof fn every_source_is_tried(download: Download, outcome: Result<(), FetchError>, r: Fetch)
    requires
        download.well_formed(),
        call_ensures(Download::fetched, (download, outcome), r),
    ensures
        outcome is Ok <==> r is Installed,
        r is Retry <==> outcome is Err && download.at < download.urls@.len() - 1,
        r is Failed <==> outcome is Err && download.at == download.urls@.len() - 1,
        r is Retry ==> r->rest.at == download.at + 1 && r->rest.urls == download.urls
            && r->rest.is_tgz == download.is_tgz && r->rest.last_error is Some
            && r->rest.last_error->0@ == outcome->Err_0.cause(),
        r is Failed ==> (r->error matches Error::Cloudflared(InstallError::Download(message))
            && message@ == outcome->Err_0.cause()),
        r matches Fetch::Retry { notice, .. } ==> notice@ == "Download failed ("@
            + download.urls@[download.at as int]@ + "): "@ + outcome->Err_0.in_full()
            + "; trying next source"@,
        r matches Fetch::Failed { notice, .. } ==> {
            &&& notice is Some <==> download.urls@.len() > 1
            &&& notice is Some ==> notice->0@ == "Download failed ("@
                + download.urls@[download.at as int]@ + "): "@ + outcome->Err_0.in_full()
                + "; trying next source"@
        },
{
}

/// The binary on the path is the first file there is, if it can be executed; a
/// file that cannot be hides what comes after it.
pub proof fn the_first_file_on_the_path_decides(found: Vec<FoundFile>, i: int, r: Option<usize>)
    requires
        call_ensures(find_in_path, (&found,), r),
        0 <= i < found@.len(),
        found@[i].is_file,
        forall|j: int| 0 <= j < i ==> !(#[trigger] found@[j]).is_file,
    ensures
        r is Some <==> found@[i].executable,
        r is Some ==> r->0 == i,
{
    the_first_file_counts(found@, 0);
}

/// A path without files has no binary.
pub proof fn no_file_is_no_binary(found: Vec<FoundFile>, r: Option<usize>)
    requires
        call_ensures(find_in_path, (&found,), r),
        forall|j: int| 0 <= j < found@.len() ==> !(#[trigger] found@[j]).is_file,
    ensures
        r is None,
{
    the_first_file_counts(found@, 0);
}

/// The process is run with the secret of its tunnel as the last argument.
pub proof fn processes_get_their_secret(secret: &str, r: Vec<String>)
    requires
        call_ensures(spawn_args, (secret,), r),
    ensures
        r@.len() == 4,
        r@[0]@ == "tunnel"@,
        r@[1]@ == "run"@,
        r@[2]@ == "--token"@,
        r@[3]@ == secret@,
{
    let all = binary::texts(r@);
    assert(all.len() == r@.len());
    assert(all[0] == r@[0]@);
    assert(all[1] == r@[1]@);
    assert(all[2] == r@[2]@);
    assert(all[3] == r@[3]@);
}

/// What is downloaded is installed as it is unless it is an archive.
pub proof fn plain_downloads_are_installed_as_they_are(
    download: Vec<u8>,
    r: Result<Vec<u8>, FetchError>,
)
    requires
        call_ensures(unpack, (download, false), r),
    ensures
        r == Ok::<Vec<u8>, FetchError>(download),
{
}

/// What is found in an archive is the place of the first entry that names the
/// binary, if no entry before it is broken.
pub proof fn the_first_binary_is_found(
    steps: Vec<Listed>,
    i: int,
    r: Result<usize, FetchError>,
)
    requires
        call_ensures(find_binary, (&Ok::<Vec<Listed>, String>(steps),), r),
        0 <= i < steps@.len(),
        steps@[i] is Entry && names_binary(steps@[i]->Entry_path@),
        forall|j: int|
            0 <= j < i ==> (#[trigger] steps@[j]) is Entry && !names_binary(
                steps@[j]->Entry_path@,
            ),
    ensures
        r is Ok,
        r->Ok_0 == i,
{
    let seen = all_seen(steps@);
    the_first_step_of_interest_decides(seen, 0);
    let at = step_of_interest(seen, 0) as int;
    assert(seen.len() == steps@.len());
    assert forall|j: int| 0 <= j < seen.len() implies #[trigger] seen[j] == steps@[j].seen() by {}
    if at < i {
        assert(seen[at] == steps@[at].seen());
        assert(steps@[at] is Entry);
    } else if at > i {
        assert(seen[i] == steps@[i].seen());
        assert(seen[i] is Entry);
    }
}

/// A size is rounded up to whole blocks of 512 bytes, by less than one block.
pub proof fn sizes_are_rounded_up(size: u64)
    ensures
        rounded(size) % 512 == 0,
        size <= rounded(size) < size + 512,
{
}

/// A block is that of a sparse file whose map goes on exactly if it is whole, its
/// type is `S`, it has the mark of GNU, and it says that its map goes on.
pub proof fn sparse_blocks_have_their_marks(data: Seq<u8>, at: int)
    ensures
        is_sparse_block(data, at) <==> 0 <= at && at % 512 == 0 && at + 512 <= data.len() && data[at
            + 156] == 83 && data[at + 257] == 117 && data[at + 258] == 115 && data[at + 259] == 116
            && data[at + 260] == 97 && data[at + 261] == 114 && data[at + 262] == 32 && data[at
            + 263] == 32 && data[at + 264] == 0 && data[at + 482] == 1,
{
    if block_at(data, at) {
        let mark = data.subrange(at + 257, at + 265);
        assert(mark[0] == data[at + 257]);
        assert(mark[1] == data[at + 258]);
        assert(mark[2] == data[at + 259]);
        assert(mark[3] == data[at + 260]);
        assert(mark[4] == data[at + 261]);
        assert(mark[5] == data[at + 262]);
        assert(mark[6] == data[at + 263]);
        assert(mark[7] == data[at + 264]);
        if data[at + 257] == 117 && data[at + 258] == 115 && data[at + 259] == 116 && data[at + 260]
            == 97 && data[at + 261] == 114 && data[at + 262] == 32 && data[at + 263] == 32 && data[at
            + 264] == 0 {
            assert(mark =~= gnu_mark());
        }
    }
}

proof fn sums_are_bounded(data: Seq<u8>, at: int, n: int)
    requires
        0 <= n <= 512,
    ensures
        0 <= plain_sum(data, at, n) <= 255 * n,
    decreases n,
{
    if n > 0 {
        sums_are_bounded(data, at, n - 1);
    }
}

proof fn sums_agree(a: Seq<u8>, b: Seq<u8>, at: int, n: int)
    requires
        0 <= n <= 512,
        forall|i: int|
            0 <= i < 512 && !(148 <= i <= 156) ==> (#[trigger] plain_byte(a, at, i)) == plain_byte(
                b,
                at,
                i,
            ),
    ensures
        plain_sum(a, at, n) == plain_sum(b, at, n),
    decreases n,
{
    if n > 0 {
        sums_agree(a, b, at, n - 1);
        assert(plain_byte(a, at, n - 1) == plain_byte(b, at, n - 1));
    }
}

proof fn octal_digits_make_up_the_number(n: int)
    requires
        0 <= n < 262144,
    ensures
        (n / 32768) % 8 * 32768 + (n / 4096) % 8 * 4096 + (n / 512) % 8 * 512 + (n / 64) % 8 * 64 + (n
            / 8) % 8 * 8 + n % 8 == n,
{
    let a = n / 8;
    let b = a / 8;
    let c = b / 8;
    let d = c / 8;
    let e = d / 8;
    assert(n / 64 == b && n / 512 == c && n / 4096 == d && n / 32768 == e);
    assert(n == 8 * a + n % 8);
    assert(a == 8 * b + a % 8);
    assert(b == 8 * c + b % 8);
    assert(c == 8 * d + c % 8);
    assert(d == 8 * e + d % 8);
    assert(e % 8 == e);
}

/// The header that stands in for that of a sparse file differs from it in nothing
/// but its type, which is that of a plain file, and its sum. The sum is that of
/// the header it stands in, in six octal digits with a zero and a blank behind
/// them; nothing comes after it.
pub proof fn probes_are_headers_of_plain_files(data: Seq<u8>, at: int)
    requires
        block_at(data, at),
    ensures
        ({
            let p = probe(data, at);
            &&& p.len() == at + 512
            &&& forall|i: int|
                0 <= i < at + 512 && !(at + 148 <= i <= at + 156) ==> #[trigger] p[i] == data[i]
            &&& p[at + 156] == 48
            &&& p[at + 154] == 0
            &&& p[at + 155] == 32
            &&& 48 <= p[at + 148] <= 55 && 48 <= p[at + 149] <= 55 && 48 <= p[at + 150] <= 55 && 48
                <= p[at + 151] <= 55 && 48 <= p[at + 152] <= 55 && 48 <= p[at + 153] <= 55
            &&& (p[at + 148] - 48) * 32768 + (p[at + 149] - 48) * 4096 + (p[at + 150] - 48) * 512 + (
            p[at + 151] - 48) * 64 + (p[at + 152] - 48) * 8 + (p[at + 153] - 48) == plain_sum(
                p,
                at,
                512,
            )
        }),
{
    let p = probe(data, at);
    sums_are_bounded(data, at, 512);
    assert forall|i: int| 0 <= i < 512 && !(148 <= i <= 156) implies (#[trigger] plain_byte(
        p,
        at,
        i,
    )) == plain_byte(data, at, i) by {
        assert(p[at + i] == data[at + i]);
    }
    sums_agree(p, data, at, 512);
    let sum = plain_sum(data, at, 512);
    octal_digits_make_up_the_number(sum);
    assert(sum / 1 == sum);
}

/// A sum adds up the bytes of a header one by one, with blanks for the field of
/// the sum and the type of a plain file.
pub proof fn sums_add_up_byte_by_byte(data: Seq<u8>, at: int, n: int)
    requires
        0 <= n < 512,
    ensures
        plain_sum(data, at, 0) == 0,
        plain_sum(data, at, n + 1) == plain_sum(data, at, n) + (if 148 <= n && n <= 155 {
            32int
        } else if n == 156 {
            48int
        } else {
            data[at + n] as int
        }),
{
}

/// An archive is walked as it is downloaded unless the walk would run out of
/// numbers; then it is cut, and what is left of it is walked.
pub proof fn archives_are_walked_as_far_as_can_be(archive: Seq<u8>, n: int)
    ensures
        n == unpacked(archive).len() ==> walk_within(archive, n) == archive_walk(archive),
        n != unpacked(archive).len() ==> walk_within(archive, n) == tar_walk(
            unpacked(archive).take(n),
        ),
{
}

/// An archive with no sparse file is looked through as a whole: what comes out is
/// what the walk over all of it finds.
pub proof fn ordinary_archives_are_looked_through(
    archive: Vec<u8>,
    r: Result<Vec<u8>, FetchError>,
)
    requires
        call_ensures(unpack, (archive, true), r),
        forall|at: int| !#[trigger] is_sparse_block(unpacked(archive@), at),
    ensures
        found(archive@, archive_walk(archive@), r),
{
    let n = choose|n: int| #[trigger]
        is_cut(unpacked(archive@), n) && found(archive@, walk_within(archive@, n), r);
    ordinary_archives_are_walked_whole(unpacked(archive@), n);
}

/// What is downloaded is the build for the platform: an archive on macOS and
/// nowhere else, from the mirror that is given, or else from that of the
/// environment, and then from GitHub.
pub proof fn the_build_for_the_platform_is_downloaded(
    os: &str,
    arch: &str,
    proxy: &str,
    env: Option<&str>,
    given: Result<Located, Error>,
    by_env: Result<Located, Error>,
)
    requires
        call_ensures(
            ensure_installed,
            (None::<usize>, false, os, arch, Some(proxy), env),
            given,
        ),
        call_ensures(
            ensure_installed,
            (None::<usize>, false, os, arch, None::<&str>, env),
            by_env,
        ),
    ensures
        ({
            let asset = binary::asset_for(binary::platform(os@), arch@);
            let urls = given->Ok_0->Missing_0.urls@;
            let others = by_env->Ok_0->Missing_0.urls@;
            let direct = "https://github.com/cloudflare/cloudflared/releases/latest/download"@
                + "/"@ + asset->0;
            let prefix = binary::mirror(proxy@);
            let env_prefix = binary::env_mirror(
                if env is Some {
                    Some(env->0@)
                } else {
                    None
                },
            );
            &&& given is Ok <==> asset is Some
            &&& by_env is Ok <==> asset is Some
            &&& given is Ok ==> {
                &&& urls.last()@ == direct
                &&& urls.len() == (if prefix.len() > 0 {
                    2int
                } else {
                    1int
                })
                &&& prefix.len() > 0 ==> urls[0]@ == prefix + "/"@ + direct
                &&& others.last()@ == direct
                &&& others.len() == (if env_prefix.len() > 0 {
                    2int
                } else {
                    1int
                })
                &&& env_prefix.len() > 0 ==> others[0]@ == env_prefix + "/"@ + direct
                &&& given->Ok_0->Missing_0.is_tgz <==> binary::platform(os@) == "darwin"@
                &&& given->Ok_0->Missing_0.last_error is None
            }
        }),
{
    if let Some(asset) = binary::asset_for(binary::platform(os@), arch@) {
        binary::only_darwin_assets_are_archives(binary::platform(os@), arch@);
        let urls = given->Ok_0->Missing_0.urls@;
        let others = by_env->Ok_0->Missing_0.urls@;
        let a = binary::texts(urls);
        let b = binary::texts(others);
        assert(a.len() == urls.len() && b.len() == others.len());
        assert(a[0] == urls[0]@ && a.last() == urls.last()@);
        assert(b[0] == others[0]@ && b.last() == others.last()@);
    }
}

/// Without extensions to add, the binary is looked for once in each directory, in
/// order, under its plain name.
pub proof fn each_directory_is_looked_into(
    dirs: usize,
    exts: Vec<String>,
    r: Vec<Candidate>,
    i: int,
)
    requires
        call_ensures(path_candidates, (dirs, &exts, false), r),
        0 <= i < dirs,
    ensures
        r@.len() == dirs,
        r@[i].dir == i,
        r@[i].name@ == "cloudflared"@,
{
    assert(places(r@).len() == r@.len());
    assert(places(r@)[i] == place(r@[i]));
}

} // verus!
