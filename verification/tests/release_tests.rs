use singbox_manager::archive::ArchiveKind;
use singbox_manager::platform::Platform;
use singbox_manager::release::{
    kind_of_name, resolve_listing, resolve_redirect, select_asset, select_release,
    status_is_success, version_from_location, Asset, AssetMatch, ListingReply, RedirectReply,
    ReleaseDescriptor, ResolutionError,
};
use singbox_manager::text::chars_of;

fn release(tag: &str, prerelease: bool, names: &[&str]) -> ReleaseDescriptor {
    ReleaseDescriptor {
        tag: tag.to_string(),
        prerelease,
        assets: names
            .iter()
            .map(|n| Asset { name: n.to_string(), url: format!("https://example.com/{}", n) })
            .collect(),
    }
}

fn linux_amd64() -> Platform {
    Platform::identify("linux", "x86_64")
}

#[test]
fn redirect_location_yields_the_last_segment() {
    let location = b"https://github.com/SagerNet/sing-box/releases/tag/v1.12.12";
    assert_eq!(version_from_location(location), Ok("v1.12.12".to_string()));
    let reply = RedirectReply::Answered { location: Some(location.to_vec()) };
    assert_eq!(resolve_redirect(&reply), Ok("v1.12.12".to_string()));
}

#[test]
fn relative_redirect_location_yields_the_last_segment() {
    let location = b"/SagerNet/sing-box/releases/tag/v1.12.12";
    assert_eq!(version_from_location(location), Ok("v1.12.12".to_string()));
}

#[test]
fn redirect_location_without_a_slash_is_the_version() {
    assert_eq!(version_from_location(b"v2.0.0"), Ok("v2.0.0".to_string()));
}

#[test]
fn redirect_location_ending_in_a_slash_gives_an_empty_version() {
    assert_eq!(version_from_location(b"https://example.com/releases/"), Ok(String::new()));
    assert_eq!(version_from_location(b""), Ok(String::new()));
}

#[test]
fn missing_location_header_fails() {
    let reply = RedirectReply::Answered { location: None };
    assert_eq!(resolve_redirect(&reply), Err(ResolutionError::MissingLocation));
}

#[test]
fn unanswered_redirect_request_fails() {
    assert_eq!(resolve_redirect(&RedirectReply::Unreachable), Err(ResolutionError::Unreachable));
}

#[test]
fn location_header_that_is_not_visible_ascii_fails() {
    assert_eq!(version_from_location(b"/releases/tag/v1\xff"), Err(ResolutionError::InvalidLocation));
    assert_eq!(version_from_location(b"/releases/\x01tag/v1"), Err(ResolutionError::InvalidLocation));
    assert_eq!(version_from_location(b"/releases/tag/v1\x7f"), Err(ResolutionError::InvalidLocation));
    assert_eq!(version_from_location(b"/releases/tag/v1\n"), Err(ResolutionError::InvalidLocation));
    let reply = RedirectReply::Answered { location: Some(vec![0x80]) };
    assert_eq!(resolve_redirect(&reply), Err(ResolutionError::InvalidLocation));
}

#[test]
fn location_header_may_hold_tabs_and_spaces() {
    assert_eq!(version_from_location(b"/releases/tag/v1\t "), Ok("v1\t ".to_string()));
    assert_eq!(version_from_location(b"/releases/tag/~"), Ok("~".to_string()));
}

#[test]
fn prerelease_is_passed_over_unless_included() {
    let releases = vec![release("v2", true, &[]), release("v1", false, &[])];
    let stable = select_release(&releases, false).unwrap();
    assert_eq!(releases[stable].tag, "v1");
    let any = select_release(&releases, true).unwrap();
    assert_eq!(releases[any].tag, "v2");
}

#[test]
fn first_stable_release_wins() {
    let releases = vec![
        release("v4-rc", true, &[]),
        release("v3", false, &[]),
        release("v2", false, &[]),
    ];
    assert_eq!(select_release(&releases, false), Some(1));
    assert_eq!(select_release(&releases, true), Some(0));
}

#[test]
fn no_release_passes_the_filter() {
    let releases = vec![release("v2-beta", true, &[]), release("v1-beta", true, &[])];
    assert_eq!(select_release(&releases, false), None);
    assert_eq!(select_release(&releases, true), Some(0));
    assert_eq!(select_release(&Vec::new(), true), None);
    assert_eq!(select_release(&Vec::new(), false), None);
}

#[test]
fn listing_answers_with_the_first_eligible_release() {
    let reply = ListingReply::Answered {
        status: 200,
        releases: Some(vec![release("v2", true, &[]), release("v1", false, &[])]),
    };
    assert_eq!(resolve_listing(&reply, false), Ok(1));
    assert_eq!(resolve_listing(&reply, true), Ok(0));
}

#[test]
fn listing_fails_when_unreachable() {
    assert_eq!(resolve_listing(&ListingReply::Unreachable, true), Err(ResolutionError::Unreachable));
}

#[test]
fn listing_fails_on_a_status_that_is_no_success() {
    for status in [199u16, 300, 301, 403, 404, 500] {
        let reply = ListingReply::Answered {
            status,
            releases: Some(vec![release("v1", false, &[])]),
        };
        assert_eq!(resolve_listing(&reply, true), Err(ResolutionError::BadStatus));
    }
    let no_body = ListingReply::Answered { status: 404, releases: None };
    assert_eq!(resolve_listing(&no_body, true), Err(ResolutionError::BadStatus));
}

#[test]
fn listing_fails_on_an_unparsable_body() {
    let reply = ListingReply::Answered { status: 200, releases: None };
    assert_eq!(resolve_listing(&reply, false), Err(ResolutionError::UnparsableBody));
}

#[test]
fn listing_fails_when_nothing_is_eligible() {
    let reply = ListingReply::Answered { status: 299, releases: Some(vec![release("rc", true, &[])]) };
    assert_eq!(resolve_listing(&reply, false), Err(ResolutionError::NoEligibleRelease));
    let empty = ListingReply::Answered { status: 200, releases: Some(Vec::new()) };
    assert_eq!(resolve_listing(&empty, true), Err(ResolutionError::NoEligibleRelease));
}

#[test]
fn success_statuses_are_200_to_299() {
    assert!(!status_is_success(199));
    assert!(status_is_success(200));
    assert!(status_is_success(204));
    assert!(status_is_success(299));
    assert!(!status_is_success(300));
    assert!(!status_is_success(0));
    assert!(!status_is_success(u16::MAX));
}

#[test]
fn first_of_several_matching_assets_wins() {
    let r = release(
        "v1",
        false,
        &["tool-linux-amd64.tar.gz", "tool-linux-amd64.zip", "tool-darwin-arm64.tar.gz"],
    );
    assert_eq!(
        select_asset(&r, &linux_amd64(), false),
        Some(AssetMatch { index: 0, kind: ArchiveKind::TarGz })
    );
}

#[test]
fn selection_follows_list_order_not_extension() {
    let r = release("v1", false, &["tool-linux-amd64.zip", "tool-linux-amd64.tar.gz"]);
    assert_eq!(
        select_asset(&r, &linux_amd64(), false),
        Some(AssetMatch { index: 0, kind: ArchiveKind::Zip })
    );
}

#[test]
fn assets_of_other_platforms_are_passed_over() {
    let r = release(
        "v1",
        false,
        &["tool-darwin-amd64.tar.gz", "tool-linux-arm64.tar.gz", "tool-linux-amd64.tar.gz"],
    );
    assert_eq!(
        select_asset(&r, &linux_amd64(), false),
        Some(AssetMatch { index: 2, kind: ArchiveKind::TarGz })
    );
}

#[test]
fn no_asset_for_the_platform_is_not_found() {
    let r = release("v1", false, &["tool-darwin-amd64.tar.gz", "tool-windows-amd64.zip"]);
    assert_eq!(select_asset(&r, &linux_amd64(), false), None);
    assert_eq!(select_asset(&release("v1", false, &[]), &linux_amd64(), true), None);
}

#[test]
fn asset_needs_a_recognized_extension() {
    let r = release(
        "v1",
        false,
        &["tool-linux-amd64.deb", "tool-linux-amd64.tar.gz.sha256", "tool-linux-amd64"],
    );
    assert_eq!(select_asset(&r, &linux_amd64(), true), None);
}

#[test]
fn single_gz_asset_counts_only_where_accepted() {
    let r = release("v1", false, &["mihomo-linux-amd64-v1.19.gz", "mihomo-linux-amd64-v1.19.zip"]);
    assert_eq!(
        select_asset(&r, &linux_amd64(), true),
        Some(AssetMatch { index: 0, kind: ArchiveKind::Gz })
    );
    assert_eq!(
        select_asset(&r, &linux_amd64(), false),
        Some(AssetMatch { index: 1, kind: ArchiveKind::Zip })
    );
}

#[test]
fn unknown_platform_names_match_literally() {
    let r = release("v1", false, &["tool-plan9-mips.tar.gz"]);
    assert_eq!(
        select_asset(&r, &Platform::identify("plan9", "mips"), false),
        Some(AssetMatch { index: 0, kind: ArchiveKind::TarGz })
    );
}

#[test]
fn announced_kinds() {
    assert_eq!(kind_of_name(&chars_of("a.tar.gz"), false), Some(ArchiveKind::TarGz));
    assert_eq!(kind_of_name(&chars_of("a.tar.gz"), true), Some(ArchiveKind::TarGz));
    assert_eq!(kind_of_name(&chars_of("a.zip"), false), Some(ArchiveKind::Zip));
    assert_eq!(kind_of_name(&chars_of("a.gz"), true), Some(ArchiveKind::Gz));
    assert_eq!(kind_of_name(&chars_of("a.gz"), false), None);
    assert_eq!(kind_of_name(&chars_of("a.tgz"), true), None);
    assert_eq!(kind_of_name(&chars_of(""), true), None);
}
