//! Self-update: reading the release manifest, comparing versions, checking the download and its
//! signature, and choosing how the installer is started.
use vstd::prelude::*;

use crate::text::{
    blank, contains_char, contains_seq, contains_text, is_blank, lower_seq, owned, same_text,
    to_lower, trim, trimmed,
};

verus! {

/// A release that is newer than the running program.
#[derive(Debug, Clone)]
pub struct UpdateInfo {
    pub version: String,
    pub url: String,
    pub signature: String,
}

/// Why an update could not be checked or installed.
#[derive(Debug, Clone, Copy, PartialEq, Eq, Structural)]
pub enum UpdateError {
    Network,
    Manifest,
    NoWindowsAsset,
    SignatureConfig,
    SignatureInvalid,
    Package,
    Install,
}

impl UpdateError {
    /// The category under which the error is logged.
    pub fn code(self) -> (res: &'static str)
        ensures
            res@ == match self {
                UpdateError::Network => "network"@,
                UpdateError::Manifest => "manifest"@,
                UpdateError::NoWindowsAsset => "no_windows_asset"@,
                UpdateError::SignatureConfig => "signature_config"@,
                UpdateError::SignatureInvalid => "signature_invalid"@,
                UpdateError::Package => "package"@,
                UpdateError::Install => "install"@,
            },
    {
        match self {
            UpdateError::Network => "network",
            UpdateError::Manifest => "manifest",
            UpdateError::NoWindowsAsset => "no_windows_asset",
            UpdateError::SignatureConfig => "signature_config",
            UpdateError::SignatureInvalid => "signature_invalid",
            UpdateError::Package => "package",
            UpdateError::Install => "install",
        }
    }
}

#[verifier::external_type_specification]
#[verifier::external_body]
pub struct ExVersion(semver::Version);

/// Whether `semver::Version::parse` accepts a text.
pub uninterp spec fn semver_accepts(text: Seq<char>) -> bool;

/// Whether the version that `semver::Version::parse` reads from `a` is at most the one it reads
/// from `b` (`Version`'s derived order).
pub uninterp spec fn semver_at_most(a: Seq<char>, b: Seq<char>) -> bool;

/// A parsed version with the text it was read from.
pub struct ReleaseVersion {
    version: semver::Version,
    text: Ghost<Seq<char>>,
}

impl View for ReleaseVersion {
    type V = Seq<char>;

    closed spec fn view(&self) -> Seq<char> {
        self.text@
    }
}

impl ReleaseVersion {
    /// The version held.
    pub closed spec fn held(&self) -> semver::Version {
        self.version
    }

    /// The parsed version.
    pub fn version(&self) -> (res: &semver::Version)
        ensures
            *res == self.held(),
    {
        &self.version
    }
}

/// `semver::Version::parse`: a version exactly when the text is accepted.
#[verifier::external_body]
fn parse_semver(text: &str) -> (res: Option<ReleaseVersion>)
    ensures
        res.is_some() == semver_accepts(text@),
        res matches Some(v) ==> v@ == text@,
{
    match semver::Version::parse(text) {
        Ok(version) => Some(ReleaseVersion { version, text: Ghost(text@) }),
        Err(_) => None,
    }
}

/// `a <= b` on two parsed versions.
#[verifier::external_body]
fn version_at_most(a: &ReleaseVersion, b: &ReleaseVersion) -> (res: bool)
    ensures
        res == semver_at_most(a@, b@),
{
    a.version <= b.version
}

/// `s.trim_start_matches('v')`: every leading `v` removed.
pub open spec fn without_leading_v(s: Seq<char>) -> Seq<char>
    decreases s.len(),
{
    if s.len() > 0 && s[0] == 'v' {
        without_leading_v(s.drop_first())
    } else {
        s
    }
}

/// Removes every leading `v` (see `without_leading_v`).
pub fn strip_leading_v(s: &str) -> (res: String)
    ensures
        res@ == without_leading_v(s@),
{
    let n = s.unicode_len();
    let mut i: usize = 0;
    assert(s@.subrange(0, n as int) =~= s@);
    while i < n && s.get_char(i) == 'v'
        invariant
            n == s@.len(),
            i <= n,
            without_leading_v(s@) == without_leading_v(s@.subrange(i as int, n as int)),
        decreases n - i,
    {
        assert(s@.subrange(i as int, n as int).drop_first() =~= s@.subrange(i + 1, n as int));
        i = i + 1;
    }
    let rest = s.substring_char(i, n);
    assert(rest@ =~= s@.subrange(i as int, n as int));
    owned(rest)
}

/// Reads a release version, allowing a `v` before it (`Version::parse` of the text without its
/// leading `v`s); an unreadable version is a manifest error.
pub fn parse_version(value: &str) -> (res: Result<ReleaseVersion, UpdateError>)
    ensures
        match res {
            Ok(v) => semver_accepts(without_leading_v(value@)) && v@ == without_leading_v(value@),
            Err(e) => !semver_accepts(without_leading_v(value@)) && e == UpdateError::Manifest,
        },
{
    let text = strip_leading_v(value);
    match parse_semver(text.as_str()) {
        Some(v) => Ok(v),
        None => Err(UpdateError::Manifest),
    }
}

/// One downloadable build in the manifest.
#[derive(Debug, Clone)]
pub struct PlatformAsset {
    pub signature: String,
    pub url: String,
}

/// The release manifest: the version and the build of each platform. The manifest names its
/// platforms as the keys of a JSON object, so each name stands once in `platforms`; a list with
/// a name twice is looked up by its first entry (see `asset_from`).
#[derive(Debug, Clone)]
pub struct Manifest {
    pub version: String,
    pub platforms: Vec<(String, PlatformAsset)>,
}

/// What came back from the manifest request.
pub enum ManifestReply {
    /// The request could not be sent or no answer arrived.
    Unreachable,
    /// An answer with its status code, and its body when it read as a manifest.
    Answered { status: u16, manifest: Option<Manifest> },
}

/// The build listed for `platform`, the first one when the name occurs more than once.
pub open spec fn asset_from(platforms: Seq<(String, PlatformAsset)>, platform: Seq<char>, i: int) -> Option<
    PlatformAsset,
>
    decreases platforms.len() - i,
{
    if i < 0 || i >= platforms.len() {
        None
    } else if platforms[i].0@ == platform {
        Some(platforms[i].1)
    } else {
        asset_from(platforms, platform, i + 1)
    }
}

/// The platform name of the builds that this program installs.
pub open spec fn windows_platform() -> Seq<char> {
    "windows-x86_64"@
}

/// How the manifest reply decides the update: a failed request is a network error, a body that
/// is not a manifest or a version that does not parse is a manifest error; a release that is not
/// newer than `current` means no update; a newer one must list a Windows build.
pub open spec fn check_outcome(reply: ManifestReply, current: Seq<char>) -> Result<
    Option<(Seq<char>, Seq<char>, Seq<char>)>,
    UpdateError,
> {
    match reply {
        ManifestReply::Unreachable => Err(UpdateError::Network),
        ManifestReply::Answered { status, manifest } => if !(200 <= status <= 299) {
            Err(UpdateError::Network)
        } else {
            match manifest {
                None => Err(UpdateError::Manifest),
                Some(m) => {
                    let remote = without_leading_v(m.version@);
                    let local = without_leading_v(current);
                    if !semver_accepts(remote) || !semver_accepts(local) {
                        Err(UpdateError::Manifest)
                    } else if semver_at_most(remote, local) {
                        Ok(None)
                    } else {
                        match asset_from(m.platforms@, windows_platform(), 0) {
                            None => Err(UpdateError::NoWindowsAsset),
                            Some(a) => Ok(Some((m.version@, a.url@, a.signature@))),
                        }
                    }
                },
            }
        },
    }
}

/// The model of an update check result.
pub open spec fn update_result(r: Result<Option<UpdateInfo>, UpdateError>) -> Result<
    Option<(Seq<char>, Seq<char>, Seq<char>)>,
    UpdateError,
> {
    match r {
        Ok(Some(i)) => Ok(Some((i.version@, i.url@, i.signature@))),
        Ok(None) => Ok(None),
        Err(e) => Err(e),
    }
}

/// Decides whether the manifest offers an update for the running version `current` (see
/// `check_outcome`).
pub fn check(reply: &ManifestReply, current: &str) -> (res: Result<Option<UpdateInfo>, UpdateError>)
    ensures
        update_result(res) == check_outcome(*reply, current@),
{
    let manifest = match reply {
        ManifestReply::Unreachable => {
            return Err(UpdateError::Network);
        },
        ManifestReply::Answered { status, manifest } => {
            if !(200 <= *status && *status <= 299) {
                return Err(UpdateError::Network);
            }
            match manifest {
                Some(m) => m,
                None => {
                    return Err(UpdateError::Manifest);
                },
            }
        },
    };
    let remote = parse_version(manifest.version.as_str())?;
    let local = parse_version(current)?;
    if version_at_most(&remote, &local) {
        return Ok(None);
    }
    let n = manifest.platforms.len();
    let mut i: usize = 0;
    assert(check_outcome(*reply, current@) == match asset_from(
        manifest.platforms@,
        windows_platform(),
        0,
    ) {
        None => Err(UpdateError::NoWindowsAsset),
        Some(a) => Ok(Some((manifest.version@, a.url@, a.signature@))),
    });
    while i < n
        invariant
            n == manifest.platforms@.len(),
            i <= n,
            check_outcome(*reply, current@) == match asset_from(
                manifest.platforms@,
                windows_platform(),
                0,
            ) {
                None => Err(UpdateError::NoWindowsAsset),
                Some(a) => Ok(Some((manifest.version@, a.url@, a.signature@))),
            },
            asset_from(manifest.platforms@, windows_platform(), 0) == asset_from(
                manifest.platforms@,
                windows_platform(),
                i as int,
            ),
        decreases n - i,
    {
        proof {
            reveal_strlit("windows-x86_64");
        }
        if same_text(manifest.platforms[i].0.as_str(), "windows-x86_64") {
            let asset = &manifest.platforms[i].1;
            return Ok(
                Some(
                    UpdateInfo {
                        version: owned(manifest.version.as_str()),
                        url: owned(asset.url.as_str()),
                        signature: owned(asset.signature.as_str()),
                    },
                ),
            );
        }
        i = i + 1;
    }
    Err(UpdateError::NoWindowsAsset)
}

/// The largest package that is downloaded: 256 MiB.
pub const MAX_PACKAGE_BYTES: u64 = 268_435_456;

/// What came back from the package download.
pub enum PackageReply {
    /// The request could not be sent or no answer arrived.
    Unreachable,
    /// An answer with its status code, its announced length, and its body when it was read.
    Answered { status: u16, content_length: Option<u64>, body: Option<Vec<u8>> },
}

/// Whether an answer's status and announced length allow reading the package: an unsuccessful
/// status is a network error, an announced length above the limit a package error.
pub open spec fn download_head_outcome(status: u16, content_length: Option<u64>) -> Result<
    (),
    UpdateError,
> {
    if !(200 <= status <= 299) {
        Err(UpdateError::Network)
    } else if content_length matches Some(n) && n > MAX_PACKAGE_BYTES {
        Err(UpdateError::Package)
    } else {
        Ok(())
    }
}

/// Checks an answer's status and announced length before the package is read.
pub fn download_head(status: u16, content_length: Option<u64>) -> (res: Result<(), UpdateError>)
    ensures
        res == download_head_outcome(status, content_length),
{
    if !(200 <= status && status <= 299) {
        return Err(UpdateError::Network);
    }
    match content_length {
        Some(n) if n > MAX_PACKAGE_BYTES => Err(UpdateError::Package),
        _ => Ok(()),
    }
}

/// How a download ends: the head must pass, the body must have been read, and it must be
/// neither empty nor above the limit.
pub open spec fn download_outcome(reply: PackageReply) -> Result<Seq<u8>, UpdateError> {
    match reply {
        PackageReply::Unreachable => Err(UpdateError::Network),
        PackageReply::Answered { status, content_length, body } => match download_head_outcome(
            status,
            content_length,
        ) {
            Err(e) => Err(e),
            Ok(_) => match body {
                None => Err(UpdateError::Network),
                Some(b) => if b@.len() == 0 || b@.len() > MAX_PACKAGE_BYTES {
                    Err(UpdateError::Package)
                } else {
                    Ok(b@)
                },
            },
        },
    }
}

/// Checks a download and hands out the package (see `download_outcome`).
pub fn download(reply: &PackageReply) -> (res: Result<&Vec<u8>, UpdateError>)
    ensures
        match download_outcome(*reply) {
            Ok(b) => res matches Ok(v) && v@ == b,
            Err(e) => res matches Err(r) && r == e,
        },
{
    match reply {
        PackageReply::Unreachable => Err(UpdateError::Network),
        PackageReply::Answered { status, content_length, body } => {
            download_head(*status, *content_length)?;
            match body {
                None => Err(UpdateError::Network),
                Some(b) => {
                    if b.len() == 0 || b.len() as u64 > MAX_PACKAGE_BYTES {
                        Err(UpdateError::Package)
                    } else {
                        Ok(b)
                    }
                },
            }
        },
    }
}

#[verifier::external_type_specification]
#[verifier::external_body]
pub struct ExPublicKey(minisign_verify::PublicKey);

#[verifier::external_type_specification]
#[verifier::external_body]
pub struct ExSignature(minisign_verify::Signature);

/// Whether `PublicKey::decode` reads a key file text (a comment line, then the key line).
pub uninterp spec fn minisign_key_file_accepts(text: Seq<char>) -> bool;

/// Whether `PublicKey::from_base64` reads a key.
pub uninterp spec fn minisign_key_base64_accepts(text: Seq<char>) -> bool;

/// Whether `Signature::decode` reads a signature text.
pub uninterp spec fn minisign_signature_accepts(text: Seq<char>) -> bool;

/// Whether `PublicKey::verify` (legacy signatures refused) accepts the signature read from
/// `signature` for `package`, with the key read from `key.1` (a key file when `key.0`, a bare
/// key otherwise).
pub uninterp spec fn minisign_verifies(
    key: (bool, Seq<char>),
    package: Seq<u8>,
    signature: Seq<char>,
) -> bool;

/// A public key with the text it was read from, and whether that text was a key file.
pub struct SigningKey {
    key: minisign_verify::PublicKey,
    source: Ghost<(bool, Seq<char>)>,
}

impl View for SigningKey {
    type V = (bool, Seq<char>);

    closed spec fn view(&self) -> (bool, Seq<char>) {
        self.source@
    }
}

/// A signature with the text it was read from.
pub struct PackageSignature {
    signature: minisign_verify::Signature,
    source: Ghost<Seq<char>>,
}

impl View for PackageSignature {
    type V = Seq<char>;

    closed spec fn view(&self) -> Seq<char> {
        self.source@
    }
}

/// `PublicKey::decode`: a key exactly when the key file text is accepted.
#[verifier::external_body]
fn decode_key_file(text: &str) -> (res: Option<SigningKey>)
    ensures
        res.is_some() == minisign_key_file_accepts(text@),
        res matches Some(k) ==> k@ == (true, text@),
{
    match minisign_verify::PublicKey::decode(text) {
        Ok(key) => Some(SigningKey { key, source: Ghost((true, text@)) }),
        Err(_) => None,
    }
}

/// `PublicKey::from_base64`: a key exactly when the text is accepted.
#[verifier::external_body]
fn decode_key_base64(text: &str) -> (res: Option<SigningKey>)
    ensures
        res.is_some() == minisign_key_base64_accepts(text@),
        res matches Some(k) ==> k@ == (false, text@),
{
    match minisign_verify::PublicKey::from_base64(text) {
        Ok(key) => Some(SigningKey { key, source: Ghost((false, text@)) }),
        Err(_) => None,
    }
}

/// `Signature::decode`: a signature exactly when the text is accepted.
#[verifier::external_body]
fn decode_signature(text: &str) -> (res: Option<PackageSignature>)
    ensures
        res.is_some() == minisign_signature_accepts(text@),
        res matches Some(s) ==> s@ == text@,
{
    match minisign_verify::Signature::decode(text) {
        Ok(signature) => Some(PackageSignature { signature, source: Ghost(text@) }),
        Err(_) => None,
    }
}

/// `key.verify(package, signature, false)`: whether the signature is good.
#[verifier::external_body]
fn signature_matches(key: &SigningKey, package: &[u8], signature: &PackageSignature) -> (res: bool)
    ensures
        res == minisign_verifies(key@, package@, signature@),
{
    key.key.verify(package, &signature.signature, false).is_ok()
}

/// How a package is checked against its signature: a blank key or one still holding the
/// placeholder `TODO_` is a configuration error, as is a key that does not read (a key file when
/// the text has several lines, else the trimmed text as a bare key); a signature that does not
/// read or does not match is invalid.
pub open spec fn verify_outcome(package: Seq<u8>, signature: Seq<char>, public_key: Seq<char>) -> Result<
    (),
    UpdateError,
> {
    if is_blank(public_key) || contains_seq(public_key, "TODO_"@) {
        Err(UpdateError::SignatureConfig)
    } else {
        let key: (bool, Seq<char>) = if public_key.contains('\n') {
            (true, public_key)
        } else {
            (false, trimmed(public_key))
        };
        let key_ok = if key.0 {
            minisign_key_file_accepts(key.1)
        } else {
            minisign_key_base64_accepts(key.1)
        };
        if !key_ok {
            Err(UpdateError::SignatureConfig)
        } else if !minisign_signature_accepts(signature) || !minisign_verifies(
            key,
            package,
            signature,
        ) {
            Err(UpdateError::SignatureInvalid)
        } else {
            Ok(())
        }
    }
}

/// A package passes only when its signature decodes and verifies against the configured key,
/// and a key that is blank or a placeholder never passes.
pub proof fn lemma_verified_means_signed(package: Seq<u8>, signature: Seq<char>, public_key: Seq<char>)
    ensures
        verify_outcome(package, signature, public_key) == Ok::<(), UpdateError>(()) ==> {
            let key: (bool, Seq<char>) = if public_key.contains('\n') {
                (true, public_key)
            } else {
                (false, trimmed(public_key))
            };
            &&& !is_blank(public_key)
            &&& !contains_seq(public_key, "TODO_"@)
            &&& minisign_signature_accepts(signature)
            &&& minisign_verifies(key, package, signature)
        },
{
}

/// Checks a package against its signature with the configured public key (see
/// `verify_outcome`).
pub fn verify(package: &[u8], signature: &str, public_key: &str) -> (res: Result<(), UpdateError>)
    ensures
        res == verify_outcome(package@, signature@, public_key@),
{
    proof {
        reveal_strlit("TODO_");
    }
    if blank(public_key) || contains_text(public_key, "TODO_") {
        return Err(UpdateError::SignatureConfig);
    }
    let key = if contains_char(public_key, '\n') {
        decode_key_file(public_key)
    } else {
        let trimmed_key = trim(public_key);
        decode_key_base64(trimmed_key.as_str())
    };
    let key = match key {
        Some(k) => k,
        None => {
            return Err(UpdateError::SignatureConfig);
        },
    };
    let sig = match decode_signature(signature) {
        Some(s) => s,
        None => {
            return Err(UpdateError::SignatureInvalid);
        },
    };
    if !signature_matches(&key, package, &sig) {
        return Err(UpdateError::SignatureInvalid);
    }
    Ok(())
}

/// `s` ends with `suffix`.
pub open spec fn ends_with(s: Seq<char>, suffix: Seq<char>) -> bool {
    suffix.len() <= s.len() && s.subrange(s.len() - suffix.len(), s.len() as int) == suffix
}

/// Whether `s` ends with `suffix`.
pub fn ends_with_text(s: &str, suffix: &str) -> (res: bool)
    ensures
        res == ends_with(s@, suffix@),
{
    let n = s.unicode_len();
    let m = suffix.unicode_len();
    if m > n {
        return false;
    }
    let tail = s.substring_char(n - m, n);
    same_text(tail, suffix)
}

/// What kind of file the package is.
#[derive(Debug, Clone, Copy, PartialEq, Eq, Structural)]
pub enum PackageKind {
    /// An archive that holds the installer.
    Zip,
    /// A Windows Installer package.
    Msi,
    /// An installer program.
    Exe,
}

/// The kind of package a download address names, by its ending in any case.
pub open spec fn package_kind_model(url: Seq<char>) -> PackageKind {
    if ends_with(lower_seq(url), ".zip"@) {
        PackageKind::Zip
    } else if ends_with(lower_seq(url), ".msi"@) {
        PackageKind::Msi
    } else {
        PackageKind::Exe
    }
}

/// The kind of package a download address names (see `package_kind_model`).
pub fn package_kind(url: &str) -> (res: PackageKind)
    ensures
        res == package_kind_model(url@),
{
    let lower = to_lower(url);
    if ends_with_text(lower.as_str(), ".zip") {
        PackageKind::Zip
    } else if ends_with_text(lower.as_str(), ".msi") {
        PackageKind::Msi
    } else {
        PackageKind::Exe
    }
}

/// Whether a download address names the portable build, which replaces the running program.
pub fn is_portable(url: &str) -> (res: bool)
    ensures
        res == contains_seq(lower_seq(url@), ".portable.exe"@),
{
    let lower = to_lower(url);
    contains_text(lower.as_str(), ".portable.exe")
}

/// The extension of a file name as `Path::extension` gives it: what follows the last `.`,
/// unless the name has no `.` or only one, at its start.
pub open spec fn extension_model(name: Seq<char>) -> Option<Seq<char>> {
    if exists|i: int| 0 < i < name.len() && name[i] == '.' {
        let i = choose|i: int|
            0 < i < name.len() && name[i] == '.' && forall|j: int|
                i < j < name.len() ==> name[j] != '.';
        Some(name.subrange(i + 1, name.len() as int))
    } else {
        None
    }
}

/// The extension of a file name (see `extension_model`).
pub fn file_extension(name: &str) -> (res: Option<String>)
    ensures
        match extension_model(name@) {
            Some(e) => res matches Some(r) && r@ == e,
            None => res.is_none(),
        },
{
    let n = name.unicode_len();
    let mut i: usize = n;
    while i > 0
        invariant
            n == name@.len(),
            i <= n,
            forall|j: int| i <= j < n ==> name@[j] != '.',
        decreases i,
    {
        if name.get_char(i - 1) == '.' {
            let k = i - 1;
            if k == 0 {
                proof {
                    assert(!exists|j: int| 0 < j < name@.len() && name@[j] == '.');
                }
                return None;
            }
            proof {
                let w = choose|j: int|
                    0 < j < name@.len() && name@[j] == '.' && forall|t: int|
                        j < t < name@.len() ==> name@[t] != '.';
                assert(0 < k < name@.len() && name@[k as int] == '.' && forall|t: int|
                    k < t < name@.len() ==> name@[t] != '.');
                assert(w == k) by {
                    if w < k {
                        assert(name@[k as int] != '.');
                    }
                    if w > k {
                        assert(name@[w] != '.');
                    }
                }
            }
            let ext = name.substring_char(k + 1, n);
            return Some(owned(ext));
        }
        i = i - 1;
    }
    None
}

/// Whether an installer extension, in any case, is one the updater runs.
pub open spec fn installer_extension(ext: Seq<char>) -> bool {
    lower_seq(ext) == "exe"@ || lower_seq(ext) == "msi"@
}

/// The number of entries of a zip archive (`ZipArchive::new` on the bytes, then `len`); `None`
/// when the bytes do not open as an archive.
pub uninterp spec fn zip_entry_count(package: Seq<u8>) -> Option<int>;

/// What entry `index` of a zip archive is called (`ZipArchive::new`, `by_index`, then the file
/// name of `enclosed_name`, read as text with `to_string_lossy`): `None` when the archive does not
/// open or the entry cannot be read, `Some(None)` when the entry has no name that is safe to
/// extract. `enclosed_name` and `file_name` follow the path rules of the system the library was
/// built for, so a name such as `C:x.exe` or `a\b.exe` reads differently in a Windows build and
/// in a Unix one; within one build the name depends on the bytes and the index alone.
pub uninterp spec fn zip_entry_name(package: Seq<u8>, index: int) -> Option<Option<Seq<char>>>;

/// The unpacked contents of entry `index` of a zip archive (`ZipArchive::new`, `by_index`, then
/// `read_to_end`); `None` when the archive does not open or the entry cannot be read or unpacked.
pub uninterp spec fn zip_entry_bytes(package: Seq<u8>, index: int) -> Option<Seq<u8>>;

/// The number of entries of a zip archive (see `zip_entry_count`).
#[verifier::external_body]
fn archive_entry_count(package: &[u8]) -> (res: Option<usize>)
    ensures
        match res {
            Some(n) => zip_entry_count(package@) == Some(n as int),
            None => zip_entry_count(package@) is None,
        },
{
    zip::ZipArchive::new(std::io::Cursor::new(package)).ok().map(|archive| archive.len())
}

/// The name of entry `index` of a zip archive (see `zip_entry_name`).
#[verifier::external_body]
fn archive_entry_name(package: &[u8], index: usize) -> (res: Option<Option<String>>)
    ensures
        match res {
            Some(Some(n)) => zip_entry_name(package@, index as int) == Some(Some(n@)),
            Some(None) => zip_entry_name(package@, index as int) == Some(None::<Seq<char>>),
            None => zip_entry_name(package@, index as int) is None,
        },
{
    let mut archive = zip::ZipArchive::new(std::io::Cursor::new(package)).ok()?;
    let entry = archive.by_index(index).ok()?;
    Some(
        entry.enclosed_name().and_then(
            |path| path.file_name().map(|name| name.to_string_lossy().to_string()),
        ),
    )
}

/// The unpacked contents of entry `index` of a zip archive (see `zip_entry_bytes`).
#[verifier::external_body]
fn archive_entry_bytes(package: &[u8], index: usize) -> (res: Option<Vec<u8>>)
    ensures
        match res {
            Some(b) => zip_entry_bytes(package@, index as int) == Some(b@),
            None => zip_entry_bytes(package@, index as int) is None,
        },
{
    let mut archive = zip::ZipArchive::new(std::io::Cursor::new(package)).ok()?;
    let mut entry = archive.by_index(index).ok()?;
    let mut bytes = Vec::new();
    std::io::Read::read_to_end(&mut entry, &mut bytes).ok()?;
    Some(bytes)
}

/// The entry of a `count`-entry archive that holds the installer, looked for from entry `i` on,
/// in order: an entry that cannot be read ends the search with nothing; an entry without a safe
/// name, or whose extension is not `exe` or `msi` in any case, is passed over; the first other
/// one is taken, with its extension in lower case.
pub open spec fn installer_entry_from(package: Seq<u8>, count: int, i: int) -> Option<(int, Seq<char>)>
    decreases count - i,
{
    if i < 0 || i >= count {
        None
    } else {
        match zip_entry_name(package, i) {
            None => None,
            Some(None) => installer_entry_from(package, count, i + 1),
            Some(Some(n)) => match extension_model(n) {
                Some(e) => if installer_extension(e) {
                    Some((i, lower_seq(e)))
                } else {
                    installer_entry_from(package, count, i + 1)
                },
                None => installer_entry_from(package, count, i + 1),
            },
        }
    }
}

/// What unpacking an archived installer gives: the installer's lower-case extension and its
/// bytes, or a package error when the archive does not open, no readable installer entry comes
/// before an unreadable one or the end, or the installer's bytes cannot be unpacked.
pub open spec fn installer_outcome(package: Seq<u8>) -> Result<(Seq<char>, Seq<u8>), UpdateError> {
    match zip_entry_count(package) {
        None => Err(UpdateError::Package),
        Some(count) => match installer_entry_from(package, count, 0) {
            None => Err(UpdateError::Package),
            Some((i, e)) => match zip_entry_bytes(package, i) {
                Some(b) => Ok((e, b)),
                None => Err(UpdateError::Package),
            },
        },
    }
}

/// Unpacks the installer from a downloaded archive (see `installer_outcome`); the caller saves
/// the bytes as `update.` and the extension.
pub fn installer_from_package(package: &[u8]) -> (res: Result<(String, Vec<u8>), UpdateError>)
    ensures
        match installer_outcome(package@) {
            Ok((e, b)) => res matches Ok((r, v)) && r@ == e && v@ == b,
            Err(x) => res matches Err(y) && y == x,
        },
{
    let count = match archive_entry_count(package) {
        Some(n) => n,
        None => {
            return Err(UpdateError::Package);
        },
    };
    let mut i: usize = 0;
    while i < count
        invariant
            zip_entry_count(package@) == Some(count as int),
            i <= count,
            installer_entry_from(package@, count as int, 0) == installer_entry_from(
                package@,
                count as int,
                i as int,
            ),
        decreases count - i,
    {
        match archive_entry_name(package, i) {
            None => {
                return Err(UpdateError::Package);
            },
            Some(None) => {},
            Some(Some(name)) => {
                if let Some(ext) = file_extension(name.as_str()) {
                    let lower = to_lower(ext.as_str());
                    proof {
                        reveal_strlit("exe");
                        reveal_strlit("msi");
                    }
                    if same_text(lower.as_str(), "exe") || same_text(lower.as_str(), "msi") {
                        return match archive_entry_bytes(package, i) {
                            Some(bytes) => Ok((lower, bytes)),
                            None => Err(UpdateError::Package),
                        };
                    }
                }
            },
        }
        i = i + 1;
    }
    Err(UpdateError::Package)
}

/// How the installer is started: its program and arguments.
pub open spec fn install_command_model(path: Seq<char>) -> (Seq<char>, Seq<Seq<char>>) {
    let is_msi = match extension_model(path) {
        Some(e) => lower_seq(e) == "msi"@,
        None => false,
    };
    if is_msi {
        ("msiexec.exe"@, seq!["/i"@, path, "/passive"@, "/norestart"@])
    } else {
        (path, seq!["/S"@])
    }
}

/// The command that runs the installer at `path` without asking: a Windows Installer package
/// through `msiexec`, another installer with `/S`.
pub fn install_command(path: &str) -> (res: (String, Vec<String>))
    ensures
        (res.0@, res.1@.map_values(|a: String| a@)) == install_command_model(path@),
{
    let is_msi = match file_extension(path) {
        Some(e) => {
            let lower = to_lower(e.as_str());
            same_text(lower.as_str(), "msi")
        },
        None => false,
    };
    proof {
        reveal_strlit("msi");
    }
    let mut args: Vec<String> = Vec::new();
    if is_msi {
        args.push(owned("/i"));
        args.push(owned(path));
        args.push(owned("/passive"));
        args.push(owned("/norestart"));
        assert(args@.map_values(|a: String| a@) =~= seq!["/i"@, path@, "/passive"@, "/norestart"@]);
        (owned("msiexec.exe"), args)
    } else {
        args.push(owned("/S"));
        assert(args@.map_values(|a: String| a@) =~= seq!["/S"@]);
        (owned(path), args)
    }
}

/// The name under which a downloaded installer is saved: `update.` and its kind; an archive is
/// unpacked instead (see `installer_from_package`).
pub fn installer_file_name(kind: PackageKind) -> (res: Option<String>)
    ensures
        match kind {
            PackageKind::Zip => res.is_none(),
            PackageKind::Msi => res matches Some(n) && n@ == "update.msi"@,
            PackageKind::Exe => res matches Some(n) && n@ == "update.exe"@,
        },
{
    match kind {
        PackageKind::Zip => None,
        PackageKind::Msi => Some(owned("update.msi")),
        PackageKind::Exe => Some(owned("update.exe")),
    }
}

/// What the program's arguments ask of it at start.
#[derive(Debug)]
pub enum ReplaceRequest {
    /// A normal start.
    NotHelper,
    /// Started to replace a program, but no target was given.
    MissingTarget,
    /// Started to copy itself over the program at this path.
    Target(String),
}

/// Reads the program's arguments: `--replace` as the first argument makes it a replacement
/// helper for the program named by the second.
pub fn replacement_request(args: &Vec<String>) -> (res: ReplaceRequest)
    ensures
        args@.len() < 2 || args@[1]@ != "--replace"@ ==> res is NotHelper,
        args@.len() == 2 && args@[1]@ == "--replace"@ ==> res is MissingTarget,
        args@.len() > 2 && args@[1]@ == "--replace"@ ==> (res matches ReplaceRequest::Target(t)
            && t@ == args@[2]@),
{
    if args.len() < 2 || !same_text(args[1].as_str(), "--replace") {
        return ReplaceRequest::NotHelper;
    }
    if args.len() == 2 {
        return ReplaceRequest::MissingTarget;
    }
    ReplaceRequest::Target(owned(args[2].as_str()))
}

} // verus!
