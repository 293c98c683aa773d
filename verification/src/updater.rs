//! Self-update: which release file fits this machine, whether a release is
//! newer, where to download it, what to call the download and whether its
//! SHA-256 matches. Fetching, writing and relaunching happen outside.
use crate::text::{
    after_last, eq_ignore_ascii_case, eq_ignore_ascii_case_spec, first_index, lemma_after_last_bounds,
    owned, replace, replace_from, same_text,
};
use sha2::Digest;
use vstd::prelude::*;

verus! {

/// The description of a release, as `latest.json` gives it.
pub struct LatestRelease {
    pub current_version: Option<String>,
    pub version: String,
    pub tag: Option<String>,
    pub download_url_template: String,
    pub files: Vec<FileEntry>,
}

/// One downloadable file of a release.
pub struct FileEntry {
    pub name: String,
    pub os: String,
    pub arch: String,
    pub size: u64,
    pub sha256: String,
}

/// Where the description of the latest release is published.
pub fn latest_json_url() -> (r: &'static str)
    ensures
        r@ == "https://github.com/mewisme/mewbot-rust/releases/latest/download/latest.json"@,
{
    "https://github.com/mewisme/mewbot-rust/releases/latest/download/latest.json"
}

// ---------------------------------------------------------------------------
// The file for this machine
// ---------------------------------------------------------------------------

/// How release files name an operating system: as the platform does.
pub fn current_os(os: &str) -> (r: &str)
    ensures
        r@ == os@,
{
    os
}

/// How release files name an architecture: `arm64` is called `aarch64`,
/// anything else as the platform does.
pub open spec fn arch_name(arch: Seq<char>) -> Seq<char> {
    if arch == "arm64"@ {
        "aarch64"@
    } else {
        arch
    }
}

/// The architecture as release files name it.
pub fn current_arch(arch: &str) -> (r: &str)
    ensures
        r@ == arch_name(arch@),
{
    if same_text(arch, "arm64") {
        "aarch64"
    } else {
        arch
    }
}

/// Whether file `f` is built for `os` and `arch`, ignoring ASCII case.
pub open spec fn fits(f: FileEntry, os: Seq<char>, arch: Seq<char>) -> bool {
    eq_ignore_ascii_case_spec(f.os@, os) && eq_ignore_ascii_case_spec(f.arch@, arch)
}

/// The position of the first file at or after `i` built for `os` and
/// `arch`.
pub open spec fn first_fit_from(files: Seq<FileEntry>, os: Seq<char>, arch: Seq<char>, i: int) -> Option<int>
    decreases files.len() - i,
{
    if i < 0 || i >= files.len() {
        None
    } else if fits(files[i], os, arch) {
        Some(i)
    } else {
        first_fit_from(files, os, arch, i + 1)
    }
}

/// The first file built for this machine, whose operating system and
/// architecture the platform names `os` and `arch`.
pub fn find_asset_for_current_platform<'a>(files: &'a [FileEntry], os_name: &str, arch_name_given: &str) -> (r: Option<
    &'a FileEntry,
>)
    ensures
        match first_fit_from(files@, os_name@, arch_name(arch_name_given@), 0) {
            Some(i) => r matches Some(f) && *f == files@[i],
            None => r is None,
        },
{
    let os = current_os(os_name);
    let arch = current_arch(arch_name_given);
    let mut i: usize = 0;
    while i < files.len()
        invariant
            i <= files@.len(),
            os@ == os_name@,
            arch@ == arch_name(arch_name_given@),
            first_fit_from(files@, os@, arch@, i as int) == first_fit_from(files@, os@, arch@, 0),
        decreases files@.len() - i,
    {
        if eq_ignore_ascii_case(files[i].os.as_str(), os) && eq_ignore_ascii_case(
            files[i].arch.as_str(),
            arch,
        ) {
            assert(fits(files@[i as int], os@, arch@));
            assert(first_fit_from(files@, os@, arch@, i as int) == Some(i as int));
            let f = &files[i];
            assert(*f == files@[i as int]);

            return Some(f);
        }
        i = i + 1;
    }
    None
}

// ---------------------------------------------------------------------------
// Versions (the semver crate)
// ---------------------------------------------------------------------------

/// Whether `semver::Version::parse` accepts `text`.
pub uninterp spec fn semver_valid(text: Seq<char>) -> bool;

/// Whether the version that `a` parses to is greater than the one `b`
/// parses to, in semver's order.
pub uninterp spec fn semver_greater(a: Seq<char>, b: Seq<char>) -> bool;

/// Calls `semver::Version::parse` and tells whether it succeeded; the
/// answer is named `semver_valid`.
#[verifier::external_body]
fn parses_as_semver(text: &str) -> (r: bool)
    ensures
        r == semver_valid(text@),
{
    semver::Version::parse(text).is_ok()
}

/// Parses both texts with `semver::Version::parse` and compares them with
/// the `>` of `semver::Version`. The answer is named `semver_greater`; the
/// one fact claimed is that a version is not greater than itself (the order
/// is derived over the parsed parts, and equal texts parse to equal parts).
#[verifier::external_body]
fn semver_gt(a: &str, b: &str) -> (r: bool)
    requires
        semver_valid(a@),
        semver_valid(b@),
    ensures
        r == semver_greater(a@, b@),
        a@ == b@ ==> !r,
{
    match (semver::Version::parse(a), semver::Version::parse(b)) {
        (Ok(x), Ok(y)) => x > y,
        _ => false,
    }
}

/// Whether `remote` is a strictly newer version than `current`: both must
/// be valid semver versions.
pub open spec fn is_newer_spec(current: Seq<char>, remote: Seq<char>) -> bool {
    semver_valid(current) && semver_valid(remote) && semver_greater(remote, current)
}

/// Whether `remote` is a strictly newer semver version than `current`;
/// false when either is not a valid version.
pub fn is_newer(current: &str, remote: &str) -> (r: bool)
    ensures
        r == is_newer_spec(current@, remote@),
        current@ == remote@ ==> !r,
{
    if !parses_as_semver(current) || !parses_as_semver(remote) {
        return false;
    }
    semver_gt(remote, current)
}

/// What a release means for the running program.
pub enum UpdateCheck<'a> {
    /// No file of the release is built for this machine: nothing to say.
    NoFile,
    /// A file fits, but the release is not newer than the running version.
    UpToDate,
    /// The release is newer, and this is its file for this machine.
    Install(&'a FileEntry),
}

/// Decides about `release` for a machine whose platform names are `os` and
/// `arch`, running version `current`: first the file that fits, then
/// whether the release's version is newer.
pub fn update_check<'a>(release: &'a LatestRelease, os: &str, arch: &str, current: &str) -> (r:
    UpdateCheck<'a>)
    ensures
        match first_fit_from(release.files@, os@, arch_name(arch@), 0) {
            None => r is NoFile,
            Some(i) => if is_newer_spec(current@, release.version@) {
                r matches UpdateCheck::Install(f) && *f == release.files@[i]
            } else {
                r is UpToDate
            },
        },
{
    match find_asset_for_current_platform(release.files.as_slice(), os, arch) {
        None => UpdateCheck::NoFile,
        Some(asset) => if is_newer(current, release.version.as_str()) {
            UpdateCheck::Install(asset)
        } else {
            UpdateCheck::UpToDate
        },
    }
}

// ---------------------------------------------------------------------------
// Downloading
// ---------------------------------------------------------------------------

/// The download address of `filename`: the template with every
/// `{filename}` replaced by it.
pub fn download_url(template: &str, filename: &str) -> (r: String)
    ensures
        r@ == replace_from(template@, "{filename}"@, filename@, 0),
{
    proof {
        reveal_strlit("{filename}");
    }
    replace(template, "{filename}", filename)
}

/// The name a download is saved under: the last `/`-separated part of the
/// address, up to its first `?`.
pub open spec fn temp_file_name_spec(url: Seq<char>) -> Seq<char> {
    let last = url.skip(after_last(url, '/'));
    last.take(first_index(last, '?'))
}

/// The name a download from `url` is saved under.
pub fn temp_file_name(url: &str) -> (r: String)
    ensures
        r@ == temp_file_name_spec(url@),
{
    let cs = crate::text::chars_of(url);
    let mut start: usize = cs.len();
    assert(cs@.take(cs@.len() as int) =~= cs@);
    while start > 0 && cs[start - 1] != '/'
        invariant
            start <= cs@.len(),
            after_last(cs@.take(start as int), '/') == after_last(cs@, '/'),
        decreases start,
    {
        assert(cs@.take(start as int).drop_last() =~= cs@.take(start - 1));
        start = start - 1;
    }
    proof {
        if start > 0 {
            assert(cs@.take(start as int).last() == '/');
        }
        assert(cs@.take(cs@.len() as int) =~= cs@);
    }
    let ghost last = cs@.skip(start as int);
    let mut end: usize = start;
    while end < cs.len() && cs[end] != '?'
        invariant
            start <= end <= cs@.len(),
            last == cs@.skip(start as int),
            first_index(last, '?') == (end - start) + first_index(cs@.skip(end as int), '?'),
        decreases cs@.len() - end,
    {
        assert(cs@.skip(end as int).drop_first() =~= cs@.skip(end + 1));
        end = end + 1;
    }
    proof {
        lemma_after_last_bounds(cs@, '/');
        assert(first_index(cs@.skip(end as int), '?') == 0);
    }
    let mut r = String::new();
    crate::text::push_range(&mut r, cs.as_slice(), start, end);
    assert(r@ =~= temp_file_name_spec(url@));
    r
}

// ---------------------------------------------------------------------------
// Checking a download (the sha2 crate)
// ---------------------------------------------------------------------------

/// The SHA-256 digest of `data`, as the sha2 crate computes it.
pub uninterp spec fn sha256_digest(data: Seq<u8>) -> Seq<u8>;

/// Calls `sha2::Sha256::digest`; the result is named `sha256_digest`, and
/// it is 32 bytes long, as the type of sha2's output fixes.
#[verifier::external_body]
fn sha256(data: &[u8]) -> (r: Vec<u8>)
    ensures
        r@ == sha256_digest(data@),
        r@.len() == 32,
{
    sha2::Sha256::digest(data).to_vec()
}

/// The lowercase hexadecimal digit of a value below 16.
pub open spec fn hex_digit(d: int) -> char {
    if d < 10 {
        ((d + 48) as u32) as char
    } else {
        ((d + 87) as u32) as char
    }
}

/// The lowercase hexadecimal text of some bytes: two digits per byte, as
/// `{:x}` writes a digest.
pub open spec fn hex_spec(bytes: Seq<u8>) -> Seq<char>
    decreases bytes.len(),
{
    if bytes.len() == 0 {
        seq![]
    } else {
        hex_spec(bytes.drop_last()) + seq![
            hex_digit((bytes.last() / 16) as int),
            hex_digit((bytes.last() % 16) as int),
        ]
    }
}

fn hex_char(d: u8) -> (c: char)
    requires
        d < 16,
    ensures
        c == hex_digit(d as int),
{
    if d < 10 {
        (d + 48) as char
    } else {
        (d + 87) as char
    }
}

/// The lowercase hexadecimal text of `bytes`.
pub fn lower_hex(bytes: &[u8]) -> (r: String)
    ensures
        r@ == hex_spec(bytes@),
{
    let mut r = String::new();
    let mut i: usize = 0;
    while i < bytes.len()
        invariant
            i <= bytes@.len(),
            r@ == hex_spec(bytes@.take(i as int)),
        decreases bytes@.len() - i,
    {
        assert(bytes@.take(i + 1).drop_last() =~= bytes@.take(i as int));
        let b = bytes[i];
        r.push(hex_char(b / 16));
        r.push(hex_char(b % 16));
        i = i + 1;
        assert(r@ =~= hex_spec(bytes@.take(i as int)));
    }
    assert(bytes@.take(bytes@.len() as int) =~= bytes@);
    r
}

/// The error of a download whose digest does not match.
pub open spec fn mismatch_text(expected: Seq<char>, got: Seq<char>) -> Seq<char> {
    "sha256 mismatch: expected "@ + expected + ", got "@ + got
}

/// Checks that `data` has the SHA-256 digest written in hexadecimal as
/// `expected_hex` (in either case).
pub fn verify_sha256(data: &[u8], expected_hex: &str) -> (r: Result<(), String>)
    ensures
        r is Ok <==> eq_ignore_ascii_case_spec(hex_spec(sha256_digest(data@)), expected_hex@),
        r matches Err(e) ==> e@ == mismatch_text(expected_hex@, hex_spec(sha256_digest(data@))),
{
    let digest = sha256(data);
    let hex = lower_hex(digest.as_slice());
    if eq_ignore_ascii_case(hex.as_str(), expected_hex) {
        Ok(())
    } else {
        let mut e = owned("sha256 mismatch: expected ");
        e.append(expected_hex);
        e.append(", got ");
        e.append(hex.as_str());
        Err(e)
    }
}

} // verus!
