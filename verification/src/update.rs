//! Self-update: naming the release archive built for a platform, checking
//! an archive against the release's `SHA256SUMS`, and pulling the binary out
//! of a `.tar.gz` or `.zip` archive.
use vstd::prelude::*;

use sha2::Digest;

use crate::client::{json_string_member, opt_str, string_member};
use crate::text::{
    chars_of, concat, contains, starts_with, decimal, owned, str_contains, str_eq, string_of, trim_end_char,
    trim_end_matches, trim_start_char, trim_start_matches, u64_to_string, is_whitespace,
};

verus! {

/// GitHub account that publishes the releases.
pub open spec fn owner() -> Seq<char> {
    "andersou"@
}

/// GitHub repository that publishes the releases.
pub open spec fn repo() -> Seq<char> {
    "taiga-cli-rs"@
}

/// Binary name inside the release archives.
pub open spec fn bin_name() -> Seq<char> {
    "taiga-cli"@
}

/// Why an update failed.
#[derive(Debug)]
pub enum UpdateError {
    /// The releases API could not be reached.
    Http(String),
    /// The releases API answered with an error status.
    Api { status: u16, message: String },
    /// The release could not be read.
    Parse(String),
    /// The release has no archive for the target.
    NoAsset { tag: String, target: String },
    /// The release has no `SHA256SUMS` asset.
    NoChecksums { tag: String },
    /// `SHA256SUMS` has no entry for the archive.
    MissingChecksum(String),
    /// The archive does not have the digest that `SHA256SUMS` gives.
    ChecksumMismatch { name: String, expected: String, actual: String },
    /// The archive does not contain the binary.
    MissingBinary(String),
    /// The archive could not be read.
    Archive(String),
    /// The executable could not be replaced.
    Replace(String),
}

/// The model of an [`UpdateError`].
pub enum UpdateErrorView {
    Http(Seq<char>),
    Api(u16, Seq<char>),
    Parse(Seq<char>),
    NoAsset(Seq<char>, Seq<char>),
    NoChecksums(Seq<char>),
    MissingChecksum(Seq<char>),
    ChecksumMismatch(Seq<char>, Seq<char>, Seq<char>),
    MissingBinary(Seq<char>),
    Archive(Seq<char>),
    Replace(Seq<char>),
}

impl View for UpdateError {
    type V = UpdateErrorView;

    open spec fn view(&self) -> UpdateErrorView {
        match self {
            UpdateError::Http(m) => UpdateErrorView::Http(m@),
            UpdateError::Api { status, message } => UpdateErrorView::Api(*status, message@),
            UpdateError::Parse(m) => UpdateErrorView::Parse(m@),
            UpdateError::NoAsset { tag, target } => UpdateErrorView::NoAsset(tag@, target@),
            UpdateError::NoChecksums { tag } => UpdateErrorView::NoChecksums(tag@),
            UpdateError::MissingChecksum(n) => UpdateErrorView::MissingChecksum(n@),
            UpdateError::ChecksumMismatch { name, expected, actual } =>
                UpdateErrorView::ChecksumMismatch(name@, expected@, actual@),
            UpdateError::MissingBinary(n) => UpdateErrorView::MissingBinary(n@),
            UpdateError::Archive(m) => UpdateErrorView::Archive(m@),
            UpdateError::Replace(m) => UpdateErrorView::Replace(m@),
        }
    }
}

/// The text of an update error, as it is reported.
pub open spec fn update_error_text(e: UpdateErrorView) -> Seq<char> {
    match e {
        UpdateErrorView::Http(m) => "unable to reach the releases API: "@ + m,
        UpdateErrorView::Api(status, m) => "releases API answered "@ + decimal(status as nat) + ": "@ + m,
        UpdateErrorView::Parse(m) => "unable to parse the release: "@ + m,
        UpdateErrorView::NoAsset(tag, target) => "release "@ + tag + " has no archive for "@ + target,
        UpdateErrorView::NoChecksums(tag) => "release "@ + tag + " has no SHA256SUMS asset"@,
        UpdateErrorView::MissingChecksum(n) => "SHA256SUMS has no entry for "@ + n,
        UpdateErrorView::ChecksumMismatch(n, expected, actual) =>
            "checksum mismatch for "@ + n + ": expected "@ + expected + ", got "@ + actual,
        UpdateErrorView::MissingBinary(n) => "archive does not contain "@ + n,
        UpdateErrorView::Archive(m) => "unable to read the archive: "@ + m,
        UpdateErrorView::Replace(m) => "unable to replace the executable: "@ + m,
    }
}

impl UpdateError {
    /// The text of the error, as it is reported.
    pub fn message(&self) -> (s: String)
        ensures
            s@ == update_error_text(self@),
    {
        match self {
            UpdateError::Http(m) => concat("unable to reach the releases API: ", m.as_str()),
            UpdateError::Api { status, message } => {
                let head = concat("releases API answered ", u64_to_string(*status as u64).as_str());
                let head = concat(head.as_str(), ": ");
                concat(head.as_str(), message.as_str())
            },
            UpdateError::Parse(m) => concat("unable to parse the release: ", m.as_str()),
            UpdateError::NoAsset { tag, target } => {
                let head = concat("release ", tag.as_str());
                let head = concat(head.as_str(), " has no archive for ");
                concat(head.as_str(), target.as_str())
            },
            UpdateError::NoChecksums { tag } => {
                let head = concat("release ", tag.as_str());
                concat(head.as_str(), " has no SHA256SUMS asset")
            },
            UpdateError::MissingChecksum(n) => concat("SHA256SUMS has no entry for ", n.as_str()),
            UpdateError::ChecksumMismatch { name, expected, actual } => {
                let head = concat("checksum mismatch for ", name.as_str());
                let head = concat(head.as_str(), ": expected ");
                let head = concat(head.as_str(), expected.as_str());
                let head = concat(head.as_str(), ", got ");
                concat(head.as_str(), actual.as_str())
            },
            UpdateError::MissingBinary(n) => concat("archive does not contain ", n.as_str()),
            UpdateError::Archive(m) => concat("unable to read the archive: ", m.as_str()),
            UpdateError::Replace(m) => concat("unable to replace the executable: ", m.as_str()),
        }
    }
}

/// The model of the outcome of a function that fails with an [`UpdateError`].
pub open spec fn update_outcome<T>(r: Result<T, UpdateError>) -> Result<T, UpdateErrorView> {
    match r {
        Ok(v) => Ok(v),
        Err(e) => Err(e@),
    }
}

/// One downloadable file of a release.
#[derive(Clone, Debug)]
pub struct Asset {
    pub name: String,
    pub browser_download_url: String,
}

/// A GitHub release.
#[derive(Clone, Debug)]
pub struct Release {
    pub tag_name: String,
    pub html_url: String,
    pub assets: Vec<Asset>,
}

/// A semantic version: `major.minor.patch`, an optional pre-release and
/// optional build metadata (empty when absent).
#[derive(Clone, Debug, PartialEq, Eq)]
pub struct Version {
    pub major: u64,
    pub minor: u64,
    pub patch: u64,
    pub pre: String,
    pub build: String,
}

/// The model of a [`Version`].
pub type VersionView = (u64, u64, u64, Seq<char>, Seq<char>);

impl View for Version {
    type V = VersionView;

    open spec fn view(&self) -> VersionView {
        (self.major, self.minor, self.patch, self.pre@, self.build@)
    }
}

impl Version {
    /// The version `major.minor.patch`, without pre-release or build.
    pub fn new(major: u64, minor: u64, patch: u64) -> (v: Version)
        ensures
            v@ == (major, minor, patch, Seq::<char>::empty(), Seq::<char>::empty()),
    {
        Version { major, minor, patch, pre: String::new(), build: String::new() }
    }
}

/// The version that the semver crate reads from a text, or `None` when the
/// text is no semantic version (see [`parse_version`]).
pub uninterp spec fn semver_parse(text: Seq<char>) -> Option<VersionView>;

/// Parses a semantic version with `semver::Version::parse` and copies its
/// five parts. The contract names the result, a function of the text; the
/// message of a failure (the semver error's text) is not stated.
#[verifier::external_body]
fn parse_version(text: &str) -> (r: Result<Version, String>)
    ensures
        match r {
            Ok(v) => semver_parse(text@) == Some(v@),
            Err(_) => semver_parse(text@) is None,
        },
{
    semver::Version::parse(text)
        .map(|v| Version {
            major: v.major,
            minor: v.minor,
            patch: v.patch,
            pre: v.pre.as_str().to_owned(),
            build: v.build.as_str().to_owned(),
        })
        .map_err(|e| e.to_string())
}

impl Release {
    /// The version of the release: its tag without leading `v`s, read as a
    /// semantic version.
    pub fn version(&self) -> (r: Result<Version, UpdateError>)
        ensures
            match r {
                Ok(v) => semver_parse(trim_start_char(self.tag_name@, 'v')) == Some(v@),
                Err(e) => semver_parse(trim_start_char(self.tag_name@, 'v')) is None
                    && (e matches UpdateError::Parse(m)
                    && starts_with(m@, "tag "@ + self.tag_name@ + ": "@)),
            },
    {
        let text = trim_start_matches(self.tag_name.as_str(), 'v');
        match parse_version(text.as_str()) {
            Ok(v) => Ok(v),
            Err(message) => {
                let head = concat("tag ", self.tag_name.as_str());
                let head = concat(head.as_str(), ": ");
                let m = concat(head.as_str(), message.as_str());
                proof {
                    reveal_strlit("tag ");
                    reveal_strlit(": ");
                    assert(m@.take(("tag "@ + self.tag_name@ + ": "@).len() as int) =~= "tag "@ + self.tag_name@ + ": "@);
                }
                Err(UpdateError::Parse(m))
            },
        }
    }

    /// The first asset of the release with this name.
    pub fn asset(&self, name: &str) -> (r: Option<&Asset>)
        ensures
            match r {
                Some(a) => exists|i: int| 0 <= i < self.assets@.len() && self.assets@[i] == *a
                    && a.name@ == name@
                    && forall|j: int| 0 <= j < i ==> (#[trigger] self.assets@[j]).name@ != name@,
                None => forall|j: int| 0 <= j < self.assets@.len() ==> (#[trigger] self.assets@[j]).name@ != name@,
            },
    {
        let mut i: usize = 0;
        while i < self.assets.len()
            invariant
                i <= self.assets@.len(),
                forall|j: int| 0 <= j < i ==> (#[trigger] self.assets@[j]).name@ != name@,
            decreases self.assets@.len() - i,
        {
            if str_eq(self.assets[i].name.as_str(), name) {
                return Some(&self.assets[i]);
            }
            i = i + 1;
        }
        None
    }
}

/// The text of a version as semver displays it:
/// `major.minor.patch`, then `-pre` and `+build` where they are not empty.
pub open spec fn version_text(v: VersionView) -> Seq<char> {
    decimal(v.0 as nat) + "."@ + decimal(v.1 as nat) + "."@ + decimal(v.2 as nat)
        + (if v.3.len() > 0 { "-"@ + v.3 } else { Seq::empty() })
        + (if v.4.len() > 0 { "+"@ + v.4 } else { Seq::empty() })
}

/// Whether a target triple is a Windows one.
pub open spec fn is_windows(target: Seq<char>) -> bool {
    contains(target, "windows"@)
}

/// The extension of the release archive for a target: `zip` on Windows,
/// `tar.gz` elsewhere.
pub open spec fn archive_ext(target: Seq<char>) -> Seq<char> {
    if is_windows(target) { "zip"@ } else { "tar.gz"@ }
}

/// The file name of the release archive of a version for a target.
pub open spec fn archive_name_spec(v: VersionView, target: Seq<char>) -> Seq<char> {
    bin_name() + "-"@ + version_text(v) + "-"@ + target + "."@ + archive_ext(target)
}

/// The text of a version (semver's `Display`).
pub fn version_string(v: &Version) -> (s: String)
    ensures
        s@ == version_text(v@),
{
    let s = u64_to_string(v.major);
    let s = concat(s.as_str(), ".");
    let s = concat(s.as_str(), u64_to_string(v.minor).as_str());
    let s = concat(s.as_str(), ".");
    let s = concat(s.as_str(), u64_to_string(v.patch).as_str());
    let ghost base = s@;
    let s = if !v.pre.as_str().is_empty() {
        let t = concat(s.as_str(), "-");
        concat(t.as_str(), v.pre.as_str())
    } else {
        s
    };
    let s = if !v.build.as_str().is_empty() {
        let t = concat(s.as_str(), "+");
        concat(t.as_str(), v.build.as_str())
    } else {
        s
    };
    proof {
        assert(v.pre@.len() == 0 ==> base + Seq::<char>::empty() =~= base);
        assert(v.build@.len() == 0 ==> s@ + Seq::<char>::empty() =~= s@);
    }
    s
}

/// Archive file name and extension produced by the CI packaging step.
pub fn archive_name(version: &Version, target: &str) -> (r: (String, &'static str))
    ensures
        r.0@ == archive_name_spec(version@, target@),
        r.1@ == archive_ext(target@),
{
    let ext: &'static str = if str_contains(target, "windows") { "zip" } else { "tar.gz" };
    let name = concat("taiga-cli-", version_string(version).as_str());
    let name = concat(name.as_str(), "-");
    let name = concat(name.as_str(), target);
    let name = concat(name.as_str(), ".");
    let name = concat(name.as_str(), ext);
    proof {
        reveal_strlit("taiga-cli-");
        reveal_strlit("taiga-cli");
        reveal_strlit("-");
        assert("taiga-cli-"@ =~= bin_name() + "-"@);
    }
    (name, ext)
}

/// The name of the binary inside the archive for a target.
pub open spec fn binary_file_name_spec(target: Seq<char>) -> Seq<char> {
    if is_windows(target) { bin_name() + ".exe"@ } else { bin_name() }
}

/// The name of the binary inside the archive for a target: `taiga-cli.exe`
/// on Windows, `taiga-cli` elsewhere.
pub fn binary_file_name(target: &str) -> (r: String)
    ensures
        r@ == binary_file_name_spec(target@),
{
    if str_contains(target, "windows") {
        proof {
            reveal_strlit("taiga-cli.exe");
            reveal_strlit("taiga-cli");
            reveal_strlit(".exe");
            assert("taiga-cli.exe"@ =~= bin_name() + ".exe"@);
        }
        owned("taiga-cli.exe")
    } else {
        owned("taiga-cli")
    }
}

/// The lowercase hexadecimal digit of `d < 16`.
pub open spec fn hex_digit(d: nat) -> char {
    if d < 10 {
        (('0' as int) + d) as char
    } else {
        (('a' as int) + d - 10) as char
    }
}

/// Lowercase hexadecimal text of bytes, two digits per byte.
pub open spec fn hex_text(bytes: Seq<u8>) -> Seq<char>
    decreases bytes.len(),
{
    if bytes.len() == 0 {
        Seq::empty()
    } else {
        hex_text(bytes.drop_last()) + seq![hex_digit(bytes.last() as nat / 16), hex_digit(bytes.last() as nat % 16)]
    }
}

fn hex_digit_char(d: u8) -> (c: char)
    requires
        d < 16,
    ensures
        c == hex_digit(d as nat),
{
    if d < 10 {
        ((d + 48) as char)
    } else {
        ((d + 87) as char)
    }
}

/// Lowercase hexadecimal text of bytes (`{:02x}` for each byte).
pub fn hex(bytes: &[u8]) -> (s: String)
    ensures
        s@ == hex_text(bytes@),
{
    let mut out: Vec<char> = Vec::new();
    let mut i: usize = 0;
    while i < bytes.len()
        invariant
            i <= bytes@.len(),
            out@ == hex_text(bytes@.take(i as int)),
        decreases bytes@.len() - i,
    {
        let b = bytes[i];
        out.push(hex_digit_char(b / 16));
        out.push(hex_digit_char(b % 16));
        proof {
            assert(bytes@.take(i + 1).drop_last() =~= bytes@.take(i as int));
        }
        i = i + 1;
    }
    proof {
        assert(bytes@.take(i as int) =~= bytes@);
    }
    string_of(&out)
}

/// The SHA-256 digest of a byte sequence (see [`sha256`]).
pub uninterp spec fn sha256_digest(bytes: Seq<u8>) -> Seq<u8>;

/// The SHA-256 digest of `bytes`, computed with `sha2::Sha256::digest`:
/// named as a function of the bytes, and 32 bytes long as the digest size
/// of SHA-256 is.
#[verifier::external_body]
fn sha256(bytes: &[u8]) -> (d: Vec<u8>)
    ensures
        d@ == sha256_digest(bytes@),
        d@.len() == 32,
{
    sha2::Sha256::digest(bytes).to_vec()
}

/// The pieces of a text between its line feeds, in order: a text with `n`
/// line feeds has `n + 1` pieces. (std's `lines` also drops a `\r` before
/// each line feed and the empty piece after a final line feed; neither
/// changes the words of the lines, which are all that is read of them.)
pub open spec fn pieces(s: Seq<char>) -> Seq<Seq<char>>
    decreases s.len(),
{
    if s.len() == 0 {
        seq![Seq::empty()]
    } else {
        let prev = pieces(s.drop_last());
        if s.last() == '\n' {
            prev.push(Seq::empty())
        } else {
            prev.update(prev.len() - 1, prev.last().push(s.last()))
        }
    }
}

/// The words completed so far in a text and the word still being read.
pub open spec fn words_state(s: Seq<char>) -> (Seq<Seq<char>>, Seq<char>)
    decreases s.len(),
{
    if s.len() == 0 {
        (Seq::empty(), Seq::empty())
    } else {
        let (done, cur) = words_state(s.drop_last());
        if is_whitespace(s.last()) {
            if cur.len() > 0 { (done.push(cur), Seq::empty()) } else { (done, cur) }
        } else {
            (done, cur.push(s.last()))
        }
    }
}

/// The words of a text: its maximal runs of characters that are not white
/// space (std's `split_whitespace`).
pub open spec fn words(s: Seq<char>) -> Seq<Seq<char>> {
    let (done, cur) = words_state(s);
    if cur.len() > 0 { done.push(cur) } else { done }
}

/// A character in lowercase, for the ASCII letters (std's
/// `to_ascii_lowercase`).
pub open spec fn ascii_lower_char(c: char) -> char {
    if 'A' <= c && c <= 'Z' { ((c as int) + 32) as char } else { c }
}

/// A text with its ASCII letters in lowercase.
pub open spec fn ascii_lower(s: Seq<char>) -> Seq<char> {
    s.map_values(|c: char| ascii_lower_char(c))
}

/// The digest that one line of a `SHA256SUMS` file gives for `name`: the
/// first word, in lowercase, when the second word, without leading `*`, is
/// `name`.
pub open spec fn line_digest(line: Seq<char>, name: Seq<char>) -> Option<Seq<char>> {
    let w = words(line);
    if w.len() >= 2 && trim_start_char(w[1], '*') == name {
        Some(ascii_lower(w[0]))
    } else {
        None
    }
}

/// The digest of the first line that names `name`.
pub open spec fn expected_digest(lines: Seq<Seq<char>>, name: Seq<char>) -> Option<Seq<char>>
    decreases lines.len(),
{
    if lines.len() == 0 {
        None
    } else {
        match line_digest(lines[0], name) {
            Some(d) => Some(d),
            None => expected_digest(lines.drop_first(), name),
        }
    }
}

/// What checking `bytes` against the entry for `name` in `sums` gives.
pub open spec fn checksum_spec(sums: Seq<char>, name: Seq<char>, bytes: Seq<u8>) -> Result<(), UpdateErrorView> {
    match expected_digest(pieces(sums), name) {
        None => Err(UpdateErrorView::MissingChecksum(name)),
        Some(expected) => {
            let actual = hex_text(sha256_digest(bytes));
            if actual == expected {
                Ok(())
            } else {
                Err(UpdateErrorView::ChecksumMismatch(name, expected, actual))
            }
        },
    }
}

proof fn lemma_pieces_nonempty(s: Seq<char>)
    ensures
        pieces(s).len() >= 1,
    decreases s.len(),
{
    if s.len() > 0 {
        lemma_pieces_nonempty(s.drop_last());
    }
}

/// Splits a text at its line feeds.
fn split_lines(s: &Vec<char>) -> (lines: Vec<Vec<char>>)
    ensures
        lines@.len() == pieces(s@).len(),
        forall|k: int| 0 <= k < lines@.len() ==> (#[trigger] lines@[k])@ == pieces(s@)[k],
{
    let mut lines: Vec<Vec<char>> = Vec::new();
    let mut cur: Vec<char> = Vec::new();
    let mut i: usize = 0;
    while i < s.len()
        invariant
            i <= s@.len(),
            lines@.len() + 1 == pieces(s@.take(i as int)).len(),
            forall|k: int| 0 <= k < lines@.len() ==> (#[trigger] lines@[k])@ == pieces(s@.take(i as int))[k],
            cur@ == pieces(s@.take(i as int)).last(),
        decreases s@.len() - i,
    {
        proof {
            lemma_pieces_nonempty(s@.take(i as int));
            assert(s@.take(i + 1).drop_last() =~= s@.take(i as int));
        }
        if s[i] == '\n' {
            let done = cur;
            lines.push(done);
            cur = Vec::new();
        } else {
            cur.push(s[i]);
        }
        i = i + 1;
    }
    proof {
        lemma_pieces_nonempty(s@.take(i as int));
        assert(s@.take(i as int) =~= s@);
    }
    lines.push(cur);
    lines
}

/// Splits a text into its words.
fn split_words(s: &Vec<char>) -> (ws: Vec<Vec<char>>)
    ensures
        ws@.len() == words(s@).len(),
        forall|k: int| 0 <= k < ws@.len() ==> (#[trigger] ws@[k])@ == words(s@)[k],
{
    let mut done: Vec<Vec<char>> = Vec::new();
    let mut cur: Vec<char> = Vec::new();
    let mut i: usize = 0;
    while i < s.len()
        invariant
            i <= s@.len(),
            done@.len() == words_state(s@.take(i as int)).0.len(),
            forall|k: int| 0 <= k < done@.len() ==> (#[trigger] done@[k])@ == words_state(s@.take(i as int)).0[k],
            cur@ == words_state(s@.take(i as int)).1,
        decreases s@.len() - i,
    {
        proof {
            assert(s@.take(i + 1).drop_last() =~= s@.take(i as int));
        }
        if crate::text::char_is_whitespace(s[i]) {
            if cur.len() > 0 {
                let w = cur;
                done.push(w);
                cur = Vec::new();
            }
        } else {
            cur.push(s[i]);
        }
        i = i + 1;
    }
    proof {
        assert(s@.take(i as int) =~= s@);
    }
    if cur.len() > 0 {
        done.push(cur);
    }
    done
}

/// A text with its ASCII letters in lowercase (std's `to_ascii_lowercase`).
fn lowercase_ascii(s: &Vec<char>) -> (r: Vec<char>)
    ensures
        r@ == ascii_lower(s@),
{
    let mut r: Vec<char> = Vec::new();
    let mut i: usize = 0;
    while i < s.len()
        invariant
            i <= s@.len(),
            r@ == ascii_lower(s@.take(i as int)),
        decreases s@.len() - i,
    {
        let c = s[i];
        let l = if 'A' <= c && c <= 'Z' { ((c as u32) + 32) as u8 as char } else { c };
        r.push(l);
        proof {
            assert(ascii_lower(s@.take(i + 1)) =~= ascii_lower(s@.take(i as int)).push(ascii_lower_char(c)));
        }
        i = i + 1;
    }
    proof {
        assert(s@.take(i as int) =~= s@);
    }
    r
}

/// `s` without its leading `*` characters.
fn trim_stars(s: &Vec<char>) -> (r: Vec<char>)
    ensures
        r@ == trim_start_char(s@, '*'),
{
    let text = string_of(s);
    let t = trim_start_matches(text.as_str(), '*');
    chars_of(t.as_str())
}

fn chars_eq(a: &Vec<char>, b: &Vec<char>) -> (eq: bool)
    ensures
        eq == (a@ == b@),
{
    let x = string_of(a);
    let y = string_of(b);
    str_eq(x.as_str(), y.as_str())
}

/// The digest that one line gives for `name`.
fn digest_of_line(line: &Vec<char>, name: &Vec<char>) -> (d: Option<Vec<char>>)
    ensures
        match d {
            Some(v) => line_digest(line@, name@) == Some(v@),
            None => line_digest(line@, name@) is None,
        },
{
    let ws = split_words(line);
    if ws.len() >= 2 {
        let file = trim_stars(&ws[1]);
        if chars_eq(&file, name) {
            return Some(lowercase_ascii(&ws[0]));
        }
    }
    None
}

/// The digest that a `SHA256SUMS` text gives for `name`, in lowercase.
pub fn checksum_entry(sums: &str, name: &str) -> (d: Option<String>)
    ensures
        opt_str(d) == expected_digest(pieces(sums@), name@),
{
    let text = chars_of(sums);
    let lines = split_lines(&text);
    let name_chars = chars_of(name);
    let ghost all = pieces(sums@);
    proof {
        assert(all.skip(0) =~= all);
    }
    let mut i: usize = 0;
    while i < lines.len()
        invariant
            text@ == sums@,
            name_chars@ == name@,
            all == pieces(sums@),
            lines@.len() == all.len(),
            forall|k: int| 0 <= k < lines@.len() ==> (#[trigger] lines@[k])@ == all[k],
            i <= lines@.len(),
            expected_digest(all, name@) == expected_digest(all.skip(i as int), name@),
        decreases lines@.len() - i,
    {
        proof {
            assert(all.skip(i as int)[0] == all[i as int]);
            assert(all.skip(i as int).drop_first() =~= all.skip(i + 1));
        }
        match digest_of_line(&lines[i], &name_chars) {
            Some(d) => {
                return Some(string_of(&d));
            },
            None => {},
        }
        i = i + 1;
    }
    None
}

/// An archive passes the check exactly when the first line of
/// `SHA256SUMS` that names it lists the SHA-256 digest of its bytes (in
/// hexadecimal, in either letter case).
pub proof fn lemma_checksum_accepts_listed_digest(sums: Seq<char>, name: Seq<char>, bytes: Seq<u8>)
    ensures
        checksum_spec(sums, name, bytes) is Ok
            <==> expected_digest(pieces(sums), name) == Some(hex_text(sha256_digest(bytes))),
{
}

/// Checks `bytes` against the `<hex>  <name>` line of a SHA256SUMS file.
pub fn verify_checksum(sums: &str, name: &str, bytes: &[u8]) -> (r: Result<(), UpdateError>)
    ensures
        update_outcome(r) == checksum_spec(sums@, name@, bytes@),
{
    let expected = match checksum_entry(sums, name) {
        Some(d) => d,
        None => {
            return Err(UpdateError::MissingChecksum(owned(name)));
        },
    };
    let actual = hex(sha256(bytes).as_slice());
    if !str_eq(actual.as_str(), expected.as_str()) {
        return Err(UpdateError::ChecksumMismatch { name: owned(name), expected, actual });
    }
    Ok(())
}


/// The part of an archive path that names the file: without its leading
/// `./` pieces, and after its last `/` or `\`.
pub open spec fn strip_dot_slash(s: Seq<char>) -> Seq<char>
    decreases s.len(),
{
    if s.len() >= 2 && s[0] == '.' && s[1] == '/' {
        strip_dot_slash(s.skip(2))
    } else {
        s
    }
}

/// What follows the last `/` or `\` of a path (the whole path when it has
/// neither).
pub open spec fn last_component(s: Seq<char>) -> Seq<char>
    decreases s.len(),
{
    if s.len() == 0 {
        s
    } else if s.last() == '/' || s.last() == '\\' {
        Seq::empty()
    } else {
        last_component(s.drop_last()).push(s.last())
    }
}

/// Whether an archive path names the file `file_name`.
pub open spec fn path_matches_spec(path: Seq<char>, file_name: Seq<char>) -> bool {
    last_component(strip_dot_slash(path)) == file_name
}

/// Whether an archive path names the file `file_name`: its last component,
/// once leading `./` pieces are removed, is `file_name`.
pub fn path_matches(path: &str, file_name: &str) -> (r: bool)
    ensures
        r == path_matches_spec(path@, file_name@),
{
    let v = chars_of(path);
    let mut i: usize = 0;
    proof {
        assert(v@.skip(0) =~= v@);
    }
    while v.len() - i >= 2 && v[i] == '.' && v[i + 1] == '/'
        invariant
            v@ == path@,
            i <= v@.len(),
            strip_dot_slash(v@) == strip_dot_slash(v@.skip(i as int)),
        decreases v@.len() - i,
    {
        proof {
            assert(v@.skip(i as int).skip(2) =~= v@.skip(i + 2));
        }
        i = i + 2;
    }
    let ghost rest = v@.skip(i as int);
    proof {
        assert(strip_dot_slash(rest) == rest);
    }
    let mut cur: Vec<char> = Vec::new();
    let mut j: usize = i;
    while j < v.len()
        invariant
            v@ == path@,
            i <= j <= v@.len(),
            rest == v@.skip(i as int),
            cur@ == last_component(rest.take(j - i)),
        decreases v@.len() - j,
    {
        proof {
            assert(rest.take(j - i + 1).drop_last() =~= rest.take(j - i));
            assert(rest.take(j - i + 1).last() == v@[j as int]);
        }
        if v[j] == '/' || v[j] == '\\' {
            cur = Vec::new();
            proof {
                assert(cur@ =~= Seq::<char>::empty());
            }
        } else {
            cur.push(v[j]);
        }
        j = j + 1;
    }
    proof {
        assert(rest.take(j - i) =~= rest);
    }
    let name = chars_of(file_name);
    chars_eq(&cur, &name)
}

/// What follows the last `/` or `\` of a path (the whole path when it has
/// neither).
pub fn file_name_of(path: &str) -> (r: String)
    ensures
        r@ == last_component(path@),
{
    let v = chars_of(path);
    let mut cur: Vec<char> = Vec::new();
    let mut j: usize = 0;
    while j < v.len()
        invariant
            v@ == path@,
            j <= v@.len(),
            cur@ == last_component(v@.take(j as int)),
        decreases v@.len() - j,
    {
        proof {
            assert(v@.take(j + 1).drop_last() =~= v@.take(j as int));
        }
        if v[j] == '/' || v[j] == '\\' {
            cur = Vec::new();
            proof {
                assert(cur@ =~= Seq::<char>::empty());
            }
        } else {
            cur.push(v[j]);
        }
        j = j + 1;
    }
    proof {
        assert(v@.take(j as int) =~= v@);
    }
    string_of(&cur)
}

/// What looking for the binary in an archive comes to: its bytes, an
/// archive that cannot be read, or no matching file.
pub enum ExtractOutcome {
    Found(Seq<u8>),
    Unreadable,
    Missing,
}

/// The model of one zip entry, as opened by index: its name and whether it
/// is a regular file (`None` when the entry cannot be opened or its name
/// cannot be read), and its content (`None` when it cannot be read).
pub type ZipEntryView = (Option<(Seq<char>, bool)>, Option<Seq<u8>>);

/// The model of one tar entry: its path (`None` when it cannot be read),
/// whether it is a regular file, and its content (`None` when it cannot be
/// read).
pub type TarEntryView = (Option<Seq<char>>, bool, Option<Seq<u8>>);

/// The first regular file of a zip archive that the name matches, entry by
/// entry: an entry that cannot be opened stops the search.
pub open spec fn zip_pick(entries: Seq<ZipEntryView>, file_name: Seq<char>) -> ExtractOutcome
    decreases entries.len(),
{
    if entries.len() == 0 {
        ExtractOutcome::Missing
    } else {
        match entries[0].0 {
            None => ExtractOutcome::Unreadable,
            Some((name, is_file)) => if is_file && path_matches_spec(name, file_name) {
                match entries[0].1 {
                    Some(bytes) => ExtractOutcome::Found(bytes),
                    None => ExtractOutcome::Unreadable,
                }
            } else {
                zip_pick(entries.drop_first(), file_name)
            },
        }
    }
}

/// The first regular file of a tar stream that the name matches, entry by
/// entry: a stream error (`None`) or an unreadable path stops the search.
pub open spec fn tar_pick(items: Seq<Option<TarEntryView>>, file_name: Seq<char>) -> ExtractOutcome
    decreases items.len(),
{
    if items.len() == 0 {
        ExtractOutcome::Missing
    } else {
        match items[0] {
            None => ExtractOutcome::Unreadable,
            Some((path, is_file, data)) => match path {
                None => ExtractOutcome::Unreadable,
                Some(p) => if is_file && path_matches_spec(p, file_name) {
                    match data {
                        Some(bytes) => ExtractOutcome::Found(bytes),
                        None => ExtractOutcome::Unreadable,
                    }
                } else {
                    tar_pick(items.drop_first(), file_name)
                },
            },
        }
    }
}

#[verifier::external_type_specification]
#[verifier::external_body]
#[verifier::reject_recursive_types(T)]
pub struct ExCursor<T>(std::io::Cursor<T>);

#[verifier::external_type_specification]
#[verifier::external_body]
#[verifier::reject_recursive_types(R)]
pub struct ExZipArchive<R>(zip::ZipArchive<R>);

/// A zip archive read from bytes held in memory.
pub type ZipReader = zip::ZipArchive<std::io::Cursor<Vec<u8>>>;

/// The entries of a zip archive, by index (what the collection holds).
pub uninterp spec fn zip_entries(archive: ZipReader) -> Seq<ZipEntryView>;

/// The entries that `zip::ZipArchive::new` finds in bytes, or `None` when
/// they are no zip archive (see [`zip_open`]).
pub uninterp spec fn zip_listing(bytes: Seq<u8>) -> Option<Seq<ZipEntryView>>;

/// Opens a zip archive over a copy of the bytes with `zip::ZipArchive::new`,
/// which reads its central directory. The entries found are named as a
/// function of the bytes; the message of a failure is not stated.
#[verifier::external_body]
fn zip_open(archive: &[u8]) -> (r: Result<ZipReader, String>)
    ensures
        match r {
            Ok(z) => zip_listing(archive@) == Some(zip_entries(z)),
            Err(_) => zip_listing(archive@) is None,
        },
{
    zip::ZipArchive::new(std::io::Cursor::new(archive.to_vec())).map_err(|e| e.to_string())
}

/// The number of entries of a zip archive (`ZipArchive::len`).
#[verifier::external_body]
fn zip_len(archive: &ZipReader) -> (n: usize)
    ensures
        n == zip_entries(*archive).len(),
{
    archive.len()
}

/// Opens entry `index` with `ZipArchive::by_index` and reads its name
/// (`ZipFile::name`) and whether it is a regular file (`ZipFile::is_file`).
/// Reading moves the archive's reader only: the entries stay the same.
#[verifier::external_body]
fn zip_entry_info(archive: &mut ZipReader, index: usize) -> (r: Result<(String, bool), String>)
    requires
        index < zip_entries(*old(archive)).len(),
    ensures
        zip_entries(*final(archive)) == zip_entries(*old(archive)),
        match r {
            Ok((name, is_file)) => zip_entries(*old(archive))[index as int].0 == Some((name@, is_file)),
            Err(_) => zip_entries(*old(archive))[index as int].0 is None,
        },
{
    let entry = archive.by_index(index).map_err(|e| e.to_string())?;
    let name = entry.name().map_err(|e| e.to_string())?.into_owned();
    Ok((name, entry.is_file()))
}

/// Opens entry `index` with `ZipArchive::by_index` and reads its content to
/// the end (`Read::read_to_end`, which decompresses it and checks its CRC).
/// Reading moves the archive's reader only: the entries stay the same.
#[verifier::external_body]
fn zip_entry_data(archive: &mut ZipReader, index: usize) -> (r: Result<Vec<u8>, String>)
    requires
        index < zip_entries(*old(archive)).len(),
    ensures
        zip_entries(*final(archive)) == zip_entries(*old(archive)),
        match r {
            Ok(bytes) => zip_entries(*old(archive))[index as int].1 == Some(bytes@),
            Err(_) => zip_entries(*old(archive))[index as int].1 is None,
        },
{
    let mut entry = archive.by_index(index).map_err(|e| e.to_string())?;
    let mut bytes = Vec::new();
    std::io::Read::read_to_end(&mut entry, &mut bytes).map_err(|e| e.to_string())?;
    Ok(bytes)
}

/// A tar archive (`tar::Archive`) read from gzip-compressed bytes held in
/// memory. The archive is held in a field of this type because the type
/// parameter of `tar::Archive` is bounded by `std::io::Read`.
#[verifier::external_body]
pub struct TarArchive {
    inner: tar::Archive<flate2::read::GzDecoder<std::io::Cursor<Vec<u8>>>>,
}

/// The entries of a [`TarArchive`] that are still to come (a `tar::Entries`,
/// held here for the same reason).
#[verifier::external_body]
pub struct TarEntries<'a> {
    inner: tar::Entries<'a, flate2::read::GzDecoder<std::io::Cursor<Vec<u8>>>>,
}

/// One entry of a [`TarArchive`], positioned at its content (a `tar::Entry`,
/// held here for the same reason). Its content is read from the archive's
/// shared stream, so it can be read only until the iteration moves on.
#[verifier::external_body]
pub struct TarEntry<'a> {
    inner: tar::Entry<'a, flate2::read::GzDecoder<std::io::Cursor<Vec<u8>>>>,
}

/// The compressed bytes that a tar archive reads, while it has not been
/// read yet (what the collection holds).
pub uninterp spec fn tar_source(archive: TarArchive) -> Option<Seq<u8>>;

/// The items that an entries iterator still yields: an entry, or `None` for
/// the error that ends the iteration (what the collection holds).
pub uninterp spec fn tar_remaining(entries: TarEntries<'_>) -> Seq<Option<TarEntryView>>;

/// The model of an entry (what the collection holds): its path, whether it
/// is a regular file, and what reading it to the end gives while it is the
/// entry the iteration yielded last.
pub uninterp spec fn tar_entry(entry: TarEntry<'_>) -> TarEntryView;

/// How many items an entries iterator has yielded so far (what the
/// collection holds).
pub uninterp spec fn tar_yielded(entries: TarEntries<'_>) -> nat;

/// The position at which the iteration yielded an entry: 1 for the first
/// (what the collection holds).
pub uninterp spec fn tar_entry_index(entry: TarEntry<'_>) -> nat;

/// The items that iterating over the entries of the gzip-compressed tar
/// archive in `bytes` yields, or `None` when the iteration cannot start
/// (see [`tar_entries`]).
pub uninterp spec fn tar_listing(bytes: Seq<u8>) -> Option<Seq<Option<TarEntryView>>>;

/// Wraps a copy of the bytes in `flate2::read::GzDecoder::new` and
/// `tar::Archive::new`; nothing is read yet.
#[verifier::external_body]
fn tar_open(archive: &[u8]) -> (a: TarArchive)
    ensures
        tar_source(a) == Some(archive@),
{
    let decoder = flate2::read::GzDecoder::new(std::io::Cursor::new(archive.to_vec()));
    TarArchive { inner: tar::Archive::new(decoder) }
}

/// Starts iterating over the entries of an unread archive
/// (`Archive::entries`). What the iteration yields is named as a function of
/// the compressed bytes; the message of a failure is not stated.
#[verifier::external_body]
fn tar_entries<'a>(archive: &'a mut TarArchive) -> (r: Result<TarEntries<'a>, String>)
    requires
        tar_source(*old(archive)) is Some,
    ensures
        match r {
            Ok(entries) => tar_listing(tar_source(*old(archive))->0) == Some(tar_remaining(entries))
                && tar_yielded(entries) == 0,
            Err(_) => tar_listing(tar_source(*old(archive))->0) is None,
        },
{
    archive.inner.entries().map(|inner| TarEntries { inner }).map_err(|e| e.to_string())
}

/// The next item of the iteration (`Iterator::next` of `tar::Entries`): the
/// first remaining item, which is then no longer remaining; `None` once none
/// remains. An entry handed out carries the count of items yielded so far.
#[verifier::external_body]
fn tar_next<'a>(entries: &mut TarEntries<'a>) -> (r: Option<Result<TarEntry<'a>, String>>)
    ensures
        tar_remaining(*old(entries)).len() > 0
            ==> tar_remaining(*final(entries)) == tar_remaining(*old(entries)).drop_first(),
        r is Some ==> tar_yielded(*final(entries)) == tar_yielded(*old(entries)) + 1,
        r matches Some(Ok(entry)) ==> tar_entry_index(entry) == tar_yielded(*final(entries)),
        match r {
            None => tar_remaining(*old(entries)).len() == 0,
            Some(Ok(entry)) => tar_remaining(*old(entries)).len() > 0
                && tar_remaining(*old(entries))[0] == Some(tar_entry(entry)),
            Some(Err(_)) => tar_remaining(*old(entries)).len() > 0
                && tar_remaining(*old(entries))[0] is None,
        },
{
    entries.inner.next().map(|item| item.map(|inner| TarEntry { inner }).map_err(|e| e.to_string()))
}

/// The path of an entry (`Entry::path`), converted to text with
/// `to_string_lossy`.
#[verifier::external_body]
fn tar_entry_path(entry: &TarEntry<'_>) -> (r: Result<String, String>)
    ensures
        match r {
            Ok(p) => tar_entry(*entry).0 == Some(p@),
            Err(_) => tar_entry(*entry).0 is None,
        },
{
    entry.inner.path().map(|p| p.to_string_lossy().into_owned()).map_err(|e| e.to_string())
}

/// Whether an entry is a regular file (`EntryType::is_file` of its header's
/// entry type).
#[verifier::external_body]
fn tar_entry_is_file(entry: &TarEntry<'_>) -> (r: bool)
    ensures
        r == tar_entry(*entry).1,
{
    entry.inner.header().entry_type().is_file()
}

/// Reads the content of an entry to the end (`Read::read_to_end`); the entry
/// is used up. It must be the entry that `entries` yielded last: the content
/// is read from the stream that the iteration shares.
#[verifier::external_body]
fn tar_entry_read<'a>(entries: &TarEntries<'a>, entry: TarEntry<'a>) -> (r: Result<Vec<u8>, String>)
    requires
        tar_entry_index(entry) == tar_yielded(*entries),
    ensures
        match r {
            Ok(bytes) => tar_entry(entry).2 == Some(bytes@),
            Err(_) => tar_entry(entry).2 is None,
        },
{
    let mut inner = entry.inner;
    let mut bytes = Vec::new();
    std::io::Read::read_to_end(&mut inner, &mut bytes).map_err(|e| e.to_string())?;
    Ok(bytes)
}

/// What extracting `file_name` from an archive with extension `ext` comes to.
pub open spec fn extract_spec(archive: Seq<u8>, ext: Seq<char>, file_name: Seq<char>) -> ExtractOutcome {
    if ext == "zip"@ {
        match zip_listing(archive) {
            None => ExtractOutcome::Unreadable,
            Some(entries) => zip_pick(entries, file_name),
        }
    } else {
        match tar_listing(archive) {
            None => ExtractOutcome::Unreadable,
            Some(items) => tar_pick(items, file_name),
        }
    }
}

/// Whether the result of an extraction is the one an outcome describes: the
/// bytes found, an `Archive` error, or `MissingBinary(file_name)`.
pub open spec fn extract_result(r: Result<Vec<u8>, UpdateError>, outcome: ExtractOutcome, file_name: Seq<char>) -> bool {
    match outcome {
        ExtractOutcome::Found(bytes) => r matches Ok(b) && b@ == bytes,
        ExtractOutcome::Unreadable => r matches Err(UpdateError::Archive(_)),
        ExtractOutcome::Missing => r matches Err(UpdateError::MissingBinary(n)) && n@ == file_name,
    }
}

/// Pulls the binary out of a zip archive.
fn extract_from_zip(archive: &[u8], file_name: &str) -> (r: Result<Vec<u8>, UpdateError>)
    ensures
        extract_result(r, match zip_listing(archive@) {
            None => ExtractOutcome::Unreadable,
            Some(entries) => zip_pick(entries, file_name@),
        }, file_name@),
{
    let mut zip = match zip_open(archive) {
        Ok(z) => z,
        Err(m) => {
            return Err(UpdateError::Archive(m));
        },
    };
    let ghost all = zip_entries(zip);
    let n = zip_len(&zip);
    let mut index: usize = 0;
    proof {
        assert(all.skip(0) =~= all);
    }
    while index < n
        invariant
            zip_listing(archive@) == Some(all),
            zip_entries(zip) == all,
            n == all.len(),
            index <= n,
            zip_pick(all, file_name@) == zip_pick(all.skip(index as int), file_name@),
        decreases n - index,
    {
        proof {
            assert(all.skip(index as int)[0] == all[index as int]);
            assert(all.skip(index as int).drop_first() =~= all.skip(index + 1));
        }
        let (name, is_file) = match zip_entry_info(&mut zip, index) {
            Ok(info) => info,
            Err(m) => {
                return Err(UpdateError::Archive(m));
            },
        };
        if is_file && path_matches(name.as_str(), file_name) {
            return match zip_entry_data(&mut zip, index) {
                Ok(bytes) => Ok(bytes),
                Err(m) => Err(UpdateError::Archive(m)),
            };
        }
        index = index + 1;
    }
    Err(UpdateError::MissingBinary(owned(file_name)))
}

/// Pulls the binary out of a gzip-compressed tar archive.
fn extract_from_tar(archive: &[u8], file_name: &str) -> (r: Result<Vec<u8>, UpdateError>)
    ensures
        extract_result(r, match tar_listing(archive@) {
            None => ExtractOutcome::Unreadable,
            Some(items) => tar_pick(items, file_name@),
        }, file_name@),
{
    let mut tar = tar_open(archive);
    let mut entries = match tar_entries(&mut tar) {
        Ok(e) => e,
        Err(m) => {
            return Err(UpdateError::Archive(m));
        },
    };
    let ghost all = tar_remaining(entries);
    loop
        invariant
            tar_listing(archive@) == Some(all),
            tar_pick(all, file_name@) == tar_pick(tar_remaining(entries), file_name@),
        decreases tar_remaining(entries).len(),
    {
        let ghost before = tar_remaining(entries);
        let item = tar_next(&mut entries);
        match item {
            None => {
                return Err(UpdateError::MissingBinary(owned(file_name)));
            },
            Some(Err(m)) => {
                return Err(UpdateError::Archive(m));
            },
            Some(Ok(entry)) => {
                let path = match tar_entry_path(&entry) {
                    Ok(p) => p,
                    Err(m) => {
                        return Err(UpdateError::Archive(m));
                    },
                };
                if tar_entry_is_file(&entry) && path_matches(path.as_str(), file_name) {
                    return match tar_entry_read(&entries, entry) {
                        Ok(bytes) => Ok(bytes),
                        Err(m) => Err(UpdateError::Archive(m)),
                    };
                }
                proof {
                    assert(tar_remaining(entries) == before.drop_first());
                }
            },
        }
    }
}

/// Pulls the binary out of a `.tar.gz` or `.zip` release archive: the
/// first regular file whose last path component (after any leading `./`)
/// is `file_name`. An archive that cannot be read gives `Archive`, one
/// without such a file `MissingBinary`.
pub fn extract_binary(archive: &[u8], ext: &str, file_name: &str) -> (r: Result<Vec<u8>, UpdateError>)
    ensures
        extract_result(r, extract_spec(archive@, ext@, file_name@), file_name@),
{
    if str_eq(ext, "zip") {
        extract_from_zip(archive, file_name)
    } else {
        extract_from_tar(archive, file_name)
    }
}

/// The URL of the latest release, under the releases API at `api`.
pub open spec fn latest_release_url_spec(api: Seq<char>) -> Seq<char> {
    trim_end_char(api, '/') + "/repos/"@ + owner() + "/"@ + repo() + "/releases/latest"@
}

/// The URL of the latest release, under the releases API at `api` (its
/// trailing slashes removed).
pub fn latest_release_url(api: &str) -> (u: String)
    ensures
        u@ == latest_release_url_spec(api@),
{
    let base = trim_end_matches(api, '/');
    proof {
        reveal_strlit("/repos/andersou/taiga-cli-rs/releases/latest");
        reveal_strlit("/repos/");
        reveal_strlit("andersou");
        reveal_strlit("/");
        reveal_strlit("taiga-cli-rs");
        reveal_strlit("/releases/latest");
        assert("/repos/andersou/taiga-cli-rs/releases/latest"@
            =~= "/repos/"@ + owner() + "/"@ + repo() + "/releases/latest"@);
    }
    let u = concat(base.as_str(), "/repos/andersou/taiga-cli-rs/releases/latest");
    proof {
        assert(u@ =~= latest_release_url_spec(api@));
    }
    u
}

/// The bearer token sent to the releases API: `GITHUB_TOKEN` when it is set
/// and not empty (it only raises the rate limit; it is never required).
pub fn github_bearer(token: Option<String>) -> (r: Option<String>)
    ensures
        r == (match token {
            Some(t) => if t@.len() > 0 { Some(t) } else { None },
            None => None,
        }),
{
    match token {
        Some(t) => if !t.as_str().is_empty() { Some(t) } else { None },
        None => None,
    }
}

/// Whether an HTTP status is a success (2xx).
pub open spec fn status_ok(status: u16) -> bool {
    200 <= status < 300
}

/// The message of an unsuccessful answer of the releases API: its `message`
/// member when the body is a JSON object with a string `message`, otherwise
/// the whole body.
pub open spec fn api_message_spec(text: Seq<char>) -> Seq<char> {
    match json_string_member(text, "message"@) {
        Some(m) => m,
        None => text,
    }
}

/// Checks the status of an answer of the releases API: a successful answer
/// is read as the release by the caller; any other fails with its status
/// and message.
pub fn release_response(status: u16, text: &str) -> (r: Result<(), UpdateError>)
    ensures
        status_ok(status) ==> r is Ok,
        !status_ok(status) ==> update_outcome(r) == Err::<(), _>(UpdateErrorView::Api(status, api_message_spec(text@))),
{
    if 200 <= status && status < 300 {
        return Ok(());
    }
    let message = match string_member(text, "message") {
        Some(m) => m,
        None => owned(text),
    };
    Err(UpdateError::Api { status, message })
}

/// Checks the status of the answer to the download of `url`.
pub fn download_response(status: u16, url: &str) -> (r: Result<(), UpdateError>)
    ensures
        status_ok(status) ==> r is Ok,
        !status_ok(status) ==> update_outcome(r) == Err::<(), _>(UpdateErrorView::Api(status, "downloading "@ + url@)),
{
    if 200 <= status && status < 300 {
        Ok(())
    } else {
        Err(UpdateError::Api { status, message: concat("downloading ", url) })
    }
}

} // verus!
