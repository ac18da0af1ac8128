//! Deciding which release to install and which of its assets to download.
//!
//! The network calls are the caller's; what their answers mean is decided
//! here.

use vstd::prelude::*;
use vstd::slice::slice_subrange;
use crate::archive::ArchiveKind;
use crate::platform::{platform_token, Platform};
use crate::text::{
    byte_chars, bytes_segment_start, chars_contain, chars_end_with, chars_leading_run, chars_of,
    contains, first_true, last_segment, lemma_first_true, lemma_first_true_is, lemma_leading_run,
    lemma_segment_start, lemma_segment_start_unique, segment_start, text_of_bytes, trim_leading,
};

verus! {

/// Why no version could be determined.
#[derive(Clone, Copy, Debug, PartialEq, Eq, Structural)]
pub enum ResolutionError {
    /// The request got no answer.
    Unreachable,
    /// The answer carries a status outside the success range.
    BadStatus,
    /// The body of the answer is not a list of releases.
    UnparsableBody,
    /// No release of the list passes the prerelease filter.
    NoEligibleRelease,
    /// The answer carries no `Location` header.
    MissingLocation,
    /// The `Location` header is not visible ASCII text.
    InvalidLocation,
}

/// Whether an HTTP status reports success: from 200 up to 299.
pub open spec fn is_success(status: u16) -> bool {
    200 <= status < 300
}

/// Whether an HTTP status reports success.
pub fn status_is_success(status: u16) -> (ok: bool)
    ensures
        ok == is_success(status),
{
    200 <= status && status < 300
}

/// The byte of the slash, `/`, that parts the segments of a path.
pub const SLASH: u8 = 47;

/// Whether a header byte is visible ASCII: a printable character or a tab.
pub open spec fn is_visible_ascii(b: u8) -> bool {
    (32 <= b < 127) || b == 9
}

/// The text of a header value, where all of it is visible ASCII.
pub open spec fn header_text(value: Seq<u8>) -> Option<Seq<char>> {
    if forall|i: int| 0 <= i < value.len() ==> is_visible_ascii(#[trigger] value[i]) {
        Some(byte_chars(value))
    } else {
        None
    }
}

/// The version that the `Location` header `value` of a redirect to a
/// release page names: its last path segment. A value that is not visible
/// ASCII text names none.
pub open spec fn location_version(value: Seq<u8>) -> Result<Seq<char>, ResolutionError> {
    match header_text(value) {
        None => Err(ResolutionError::InvalidLocation),
        Some(text) => Ok(last_segment(text, '/')),
    }
}

/// The answer to a request for the latest release, made without following
/// redirects.
#[derive(Debug)]
pub enum RedirectReply {
    /// The request got no answer.
    Unreachable,
    /// The request was answered; `location` is the raw value of the
    /// `Location` header, or `None` where the answer has no such header.
    Answered { location: Option<Vec<u8>> },
}

/// The version that the answer to a request for the latest release names.
pub open spec fn redirect_version(reply: RedirectReply) -> Result<Seq<char>, ResolutionError> {
    match reply {
        RedirectReply::Unreachable => Err(ResolutionError::Unreachable),
        RedirectReply::Answered { location: None } => Err(ResolutionError::MissingLocation),
        RedirectReply::Answered { location: Some(value) } => location_version(value@),
    }
}

/// Whether `result` is the version `expected`, or fails as `expected` does.
pub open spec fn is_version(
    result: Result<String, ResolutionError>,
    expected: Result<Seq<char>, ResolutionError>,
) -> bool {
    match result {
        Ok(tag) => expected == Ok::<Seq<char>, ResolutionError>(tag@),
        Err(e) => expected == Err::<Seq<char>, ResolutionError>(e),
    }
}

/// The last segment of a text of bytes begins where the last segment of the
/// bytes begins.
proof fn lemma_segment_start_of_text(value: Seq<u8>)
    ensures
        segment_start(byte_chars(value), '/') == segment_start(value, SLASH),
{
    let k = segment_start(value, SLASH);
    lemma_segment_start(value, SLASH);
    let text = byte_chars(value);
    assert forall|j: int| k <= j < text.len() implies text[j] != '/' by {
        assert(value[j] != SLASH);
    }
    lemma_segment_start_unique(text, '/', k);
}

/// Reads the version out of the raw value of the `Location` header of a
/// redirect to a release page.
pub fn version_from_location(value: &[u8]) -> (version: Result<String, ResolutionError>)
    ensures
        is_version(version, location_version(value@)),
{
    let mut i: usize = 0;
    while i < value.len()
        invariant
            i <= value.len(),
            forall|j: int| 0 <= j < i ==> is_visible_ascii(#[trigger] value@[j]),
        decreases value.len() - i,
    {
        let b = value[i];
        if !((32 <= b && b < 127) || b == 9) {
            assert(!is_visible_ascii(value@[i as int]));
            return Err(ResolutionError::InvalidLocation);
        }
        i += 1;
    }
    let start = bytes_segment_start(value, SLASH);
    proof {
        lemma_segment_start(value@, SLASH);
        lemma_segment_start_of_text(value@);
    }
    let tail = slice_subrange(value, start, value.len());
    let tag = text_of_bytes(tail);
    assert(tag@ =~= last_segment(byte_chars(value@), '/'));
    Ok(tag)
}

/// Reads the version out of the answer to a request for the latest release,
/// made without following redirects.
///
/// It fails where the request got no answer, the answer has no `Location`
/// header, or the header is not visible ASCII text.
pub fn resolve_redirect(reply: &RedirectReply) -> (version: Result<String, ResolutionError>)
    ensures
        is_version(version, redirect_version(*reply)),
{
    match reply {
        RedirectReply::Unreachable => Err(ResolutionError::Unreachable),
        RedirectReply::Answered { location: None } => Err(ResolutionError::MissingLocation),
        RedirectReply::Answered { location: Some(value) } => version_from_location(value.as_slice()),
    }
}

/// A downloadable file of a release.
#[derive(Debug)]
pub struct Asset {
    /// Its file name.
    pub name: String,
    /// Where to download it.
    pub url: String,
}

/// A published version with its downloadable files.
#[derive(Debug)]
pub struct ReleaseDescriptor {
    /// The version tag, such as `v1.12.12`.
    pub tag: String,
    /// Whether the version is a prerelease.
    pub prerelease: bool,
    /// The downloadable files, in the order upstream lists them.
    pub assets: Vec<Asset>,
}

/// Whether a release passes the prerelease filter: stable releases always
/// do, prereleases only where they are included.
pub open spec fn eligible(prerelease: bool, include_prerelease: bool) -> bool {
    include_prerelease || !prerelease
}

/// For each release of `releases`, whether it passes the prerelease filter.
pub open spec fn passing(releases: Seq<ReleaseDescriptor>, include_prerelease: bool) -> Seq<bool> {
    Seq::new(releases.len(), |i: int| eligible(releases[i].prerelease, include_prerelease))
}

/// The position of the first release of a newest-first list that passes the
/// prerelease filter.
pub open spec fn first_eligible(releases: Seq<ReleaseDescriptor>, include_prerelease: bool) -> Option<
    int,
> {
    first_true(passing(releases, include_prerelease))
}

/// The release chosen is the newest that passes the filter: it passes, and
/// no release before it does. None is chosen exactly where none passes.
/// Where prereleases are included, that is the first release of the list.
pub proof fn lemma_first_eligible(releases: Seq<ReleaseDescriptor>, include_prerelease: bool)
    ensures
        match first_eligible(releases, include_prerelease) {
            Some(i) => {
                &&& 0 <= i < releases.len()
                &&& eligible(releases[i].prerelease, include_prerelease)
                &&& forall|j: int|
                    0 <= j < i ==> !eligible(#[trigger] releases[j].prerelease, include_prerelease)
            },
            None => forall|j: int|
                0 <= j < releases.len() ==> !eligible(
                    #[trigger] releases[j].prerelease,
                    include_prerelease,
                ),
        },
        include_prerelease && releases.len() > 0 ==> first_eligible(releases, include_prerelease)
            == Some(0int),
{
    let flags = passing(releases, include_prerelease);
    lemma_first_true(flags);
    match first_true(flags) {
        Some(i) => {
            assert forall|j: int| 0 <= j < i implies !eligible(
                #[trigger] releases[j].prerelease,
                include_prerelease,
            ) by {
                assert(!flags[j]);
            }
        },
        None => {
            assert forall|j: int| 0 <= j < releases.len() implies !eligible(
                #[trigger] releases[j].prerelease,
                include_prerelease,
            ) by {
                assert(!flags[j]);
            }
        },
    }
}

/// The first release of a newest-first list that passes the prerelease
/// filter, by position.
pub fn select_release(releases: &Vec<ReleaseDescriptor>, include_prerelease: bool) -> (chosen: Option<
    usize,
>)
    ensures
        match chosen {
            Some(i) => first_eligible(releases@, include_prerelease) == Some(i as int),
            None => first_eligible(releases@, include_prerelease) is None,
        },
{
    let ghost flags = passing(releases@, include_prerelease);
    let mut i: usize = 0;
    while i < releases.len()
        invariant
            i <= releases.len(),
            flags == passing(releases@, include_prerelease),
            forall|j: int| 0 <= j < i ==> !flags[j],
        decreases releases.len() - i,
    {
        if include_prerelease || !releases[i].prerelease {
            proof {
                lemma_first_true_is(flags, i as int);
            }
            return Some(i);
        }
        i += 1;
    }
    proof {
        lemma_first_true(flags);
    }
    None
}

/// The answer to a request for the list of releases.
#[derive(Debug)]
pub enum ListingReply {
    /// The request got no answer.
    Unreachable,
    /// The request was answered with `status`; `releases` is the list that
    /// the body holds, newest first, or `None` where the body is no such
    /// list.
    Answered { status: u16, releases: Option<Vec<ReleaseDescriptor>> },
}

/// The position of the release to install in the answer to a request for
/// the list of releases: the first that passes the prerelease filter.
///
/// There is none where the request got no answer, the status is no success,
/// the body is no list, or no release passes the filter, in this order of
/// precedence.
pub open spec fn listing_resolution(reply: ListingReply, include_prerelease: bool) -> Result<
    int,
    ResolutionError,
> {
    match reply {
        ListingReply::Unreachable => Err(ResolutionError::Unreachable),
        ListingReply::Answered { status, releases } => if !is_success(status) {
            Err(ResolutionError::BadStatus)
        } else {
            match releases {
                None => Err(ResolutionError::UnparsableBody),
                Some(list) => match first_eligible(list@, include_prerelease) {
                    Some(i) => Ok(i),
                    None => Err(ResolutionError::NoEligibleRelease),
                },
            }
        },
    }
}

/// Picks the release to install out of the answer to a request for the list
/// of releases, by position.
pub fn resolve_listing(reply: &ListingReply, include_prerelease: bool) -> (resolved: Result<
    usize,
    ResolutionError,
>)
    ensures
        match resolved {
            Ok(i) => listing_resolution(*reply, include_prerelease) == Ok::<int, ResolutionError>(
                i as int,
            ),
            Err(e) => listing_resolution(*reply, include_prerelease) == Err::<int, ResolutionError>(
                e,
            ),
        },
        resolved matches Ok(i) ==> reply matches ListingReply::Answered { releases: Some(list), .. }
            && i < list.len(),
{
    match reply {
        ListingReply::Unreachable => Err(ResolutionError::Unreachable),
        ListingReply::Answered { status, releases } => {
            if !status_is_success(*status) {
                Err(ResolutionError::BadStatus)
            } else {
                match releases {
                    None => Err(ResolutionError::UnparsableBody),
                    Some(list) => match select_release(list, include_prerelease) {
                        Some(i) => {
                            proof {
                                lemma_first_true(passing(list@, include_prerelease));
                            }
                            Ok(i)
                        },
                        None => Err(ResolutionError::NoEligibleRelease),
                    },
                }
            }
        },
    }
}

/// The container that the file name of an asset announces: `.tar.gz`,
/// `.zip`, or, where single compressed files are accepted, `.gz`.
pub open spec fn announced_kind(name: Seq<char>, accept_gz: bool) -> Option<ArchiveKind> {
    if ".tar.gz"@.is_suffix_of(name) {
        Some(ArchiveKind::TarGz)
    } else if ".zip"@.is_suffix_of(name) {
        Some(ArchiveKind::Zip)
    } else if accept_gz && ".gz"@.is_suffix_of(name) {
        Some(ArchiveKind::Gz)
    } else {
        None
    }
}

/// Whether an asset called `name` is a build for the platform `os`-`arch`:
/// its name holds the platform token and ends in a recognized archive
/// extension.
pub open spec fn asset_matches(name: Seq<char>, os: Seq<char>, arch: Seq<char>, accept_gz: bool) -> bool {
    contains(name, platform_token(os, arch)) && announced_kind(name, accept_gz) is Some
}

/// The asset chosen for a platform.
#[derive(Clone, Copy, Debug, PartialEq, Eq, Structural)]
pub struct AssetMatch {
    /// Its position among the assets of the release.
    pub index: usize,
    /// The container it comes in.
    pub kind: ArchiveKind,
}

/// The container that the file name `name` announces.
pub fn kind_of_name(name: &[char], accept_gz: bool) -> (kind: Option<ArchiveKind>)
    ensures
        kind == announced_kind(name@, accept_gz),
{
    let tar_gz = chars_of(".tar.gz");
    let zip = chars_of(".zip");
    let gz = chars_of(".gz");
    if chars_end_with(name, tar_gz.as_slice()) {
        Some(ArchiveKind::TarGz)
    } else if chars_end_with(name, zip.as_slice()) {
        Some(ArchiveKind::Zip)
    } else if accept_gz && chars_end_with(name, gz.as_slice()) {
        Some(ArchiveKind::Gz)
    } else {
        None
    }
}

/// For each asset of `assets`, whether it is a build for the platform
/// `os`-`arch`.
pub open spec fn matching(assets: Seq<Asset>, os: Seq<char>, arch: Seq<char>, accept_gz: bool) -> Seq<
    bool,
> {
    Seq::new(assets.len(), |i: int| asset_matches(assets[i].name@, os, arch, accept_gz))
}

/// The position of the asset to download for the platform `os`-`arch`: the
/// first, in list order, that is a build for it.
pub open spec fn chosen_asset(assets: Seq<Asset>, os: Seq<char>, arch: Seq<char>, accept_gz: bool) -> Option<
    int,
> {
    first_true(matching(assets, os, arch, accept_gz))
}

/// The first matching asset wins, however many match: the asset chosen
/// matches, and no asset before it does. None is chosen exactly where no
/// asset matches.
pub proof fn lemma_chosen_asset(assets: Seq<Asset>, os: Seq<char>, arch: Seq<char>, accept_gz: bool)
    ensures
        match chosen_asset(assets, os, arch, accept_gz) {
            Some(i) => {
                &&& 0 <= i < assets.len()
                &&& asset_matches(assets[i].name@, os, arch, accept_gz)
                &&& forall|j: int|
                    0 <= j < i ==> !asset_matches(#[trigger] assets[j].name@, os, arch, accept_gz)
            },
            None => forall|j: int|
                0 <= j < assets.len() ==> !asset_matches(
                    #[trigger] assets[j].name@,
                    os,
                    arch,
                    accept_gz,
                ),
        },
{
    let flags = matching(assets, os, arch, accept_gz);
    lemma_first_true(flags);
    match first_true(flags) {
        Some(i) => {
            assert forall|j: int| 0 <= j < i implies !asset_matches(
                #[trigger] assets[j].name@,
                os,
                arch,
                accept_gz,
            ) by {
                assert(!flags[j]);
            }
        },
        None => {
            assert forall|j: int| 0 <= j < assets.len() implies !asset_matches(
                #[trigger] assets[j].name@,
                os,
                arch,
                accept_gz,
            ) by {
                assert(!flags[j]);
            }
        },
    }
}

/// Picks the asset of `release` to download for `platform`: the first, in
/// list order, whose name holds the platform token and ends in a recognized
/// archive extension. `None` says that the release has no build for the
/// platform.
pub fn select_asset(release: &ReleaseDescriptor, platform: &Platform, accept_gz: bool) -> (chosen: Option<
    AssetMatch,
>)
    ensures
        match chosen {
            Some(m) => {
                &&& chosen_asset(release.assets@, platform.os@, platform.arch@, accept_gz) == Some(
                    m.index as int,
                )
                &&& m.index < release.assets.len()
                &&& Some(m.kind) == announced_kind(release.assets[m.index as int].name@, accept_gz)
            },
            None => chosen_asset(release.assets@, platform.os@, platform.arch@, accept_gz) is None,
        },
{
    let token = platform.token();
    let token_chars = chars_of(token.as_str());
    let ghost flags = matching(release.assets@, platform.os@, platform.arch@, accept_gz);
    let mut i: usize = 0;
    while i < release.assets.len()
        invariant
            i <= release.assets.len(),
            token_chars@ == platform_token(platform.os@, platform.arch@),
            flags == matching(release.assets@, platform.os@, platform.arch@, accept_gz),
            forall|j: int| 0 <= j < i ==> !flags[j],
        decreases release.assets.len() - i,
    {
        let name = chars_of(release.assets[i].name.as_str());
        if chars_contain(name.as_slice(), token_chars.as_slice()) {
            match kind_of_name(name.as_slice(), accept_gz) {
                Some(kind) => {
                    proof {
                        lemma_first_true_is(flags, i as int);
                    }
                    return Some(AssetMatch { index: i, kind });
                },
                None => {},
            }
        }
        i += 1;
    }
    proof {
        lemma_first_true(flags);
    }
    None
}

/// The address of the archive of the version `version` of the executable
/// `name` for a platform, below the address `base`: the directory of the
/// version, then a file name made of the executable's name, the version
/// without its leading `v`s, and the tokens of the platform.
pub open spec fn versioned_archive_url(
    base: Seq<char>,
    name: Seq<char>,
    version: Seq<char>,
    os: Seq<char>,
    arch: Seq<char>,
) -> Seq<char> {
    base + version + "/"@ + name + "-"@ + trim_leading(version, 'v') + "-"@ + os + "-"@ + arch
        + ".tar.gz"@
}

/// The address of the archive of the version `version` of the executable
/// `name` for `platform`, below the address `base`.
pub fn archive_url(base: &str, name: &str, version: &str, platform: &Platform) -> (url: String)
    ensures
        url@ == versioned_archive_url(base@, name@, version@, platform.os@, platform.arch@),
{
    let chars = chars_of(version);
    let skipped = chars_leading_run(chars.as_slice(), 'v');
    proof {
        lemma_leading_run(version@, 'v');
    }
    let bare = version.substring_char(skipped, chars.len());
    let mut url = base.to_owned();
    url.append(version);
    url.append("/");
    url.append(name);
    url.append("-");
    url.append(bare);
    url.append("-");
    url.append(platform.os.as_str());
    url.append("-");
    url.append(platform.arch.as_str());
    url.append(".tar.gz");
    url
}

} // verus!
