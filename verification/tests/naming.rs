use rzup::distribution::github::{GithubRelease, PlatformForm};
use rzup::{Platform, Version};

fn linux() -> Platform {
    Platform::new("x86_64-unknown-linux-gnu", "x86_64-linux")
}

fn mac() -> Platform {
    Platform::new("aarch64-apple-darwin", "aarch64-macos")
}

#[test]
fn repo_name_is_the_same_for_every_component() {
    let github = GithubRelease;
    assert_eq!(github.repo_name("cargo-risczero"), "risc0");
    assert_eq!(github.repo_name("rust"), "risc0");
    assert_eq!(github.repo_name("r0vm"), "risc0");
    assert_eq!(github.repo_name(""), "risc0");
    assert_eq!(github.repo_name("Rust"), "risc0");
}

#[test]
fn asset_name_of_rust_embeds_the_target_triple() {
    let github = GithubRelease;
    let (asset, extension) = github.asset_name("rust", &linux());
    assert_eq!(asset, "rust-toolchain-x86_64-unknown-linux-gnu");
    assert_eq!(extension, "tar.gz");
    let (asset, extension) = github.asset_name("rust", &mac());
    assert_eq!(asset, "rust-toolchain-aarch64-apple-darwin");
    assert_eq!(extension, "tar.gz");
}

#[test]
fn asset_name_of_cargo_risczero_embeds_the_display_name() {
    let github = GithubRelease;
    let (asset, extension) = github.asset_name("cargo-risczero", &linux());
    assert_eq!(asset, "cargo-risczero-x86_64-linux");
    assert_eq!(extension, "tgz");
}

#[test]
fn asset_name_of_an_unknown_component_starts_with_its_id() {
    let github = GithubRelease;
    let (asset, extension) = github.asset_name("r0vm", &mac());
    assert_eq!(asset, "r0vm-aarch64-macos");
    assert_eq!(extension, "tgz");
    let (asset, extension) = github.asset_name("", &mac());
    assert_eq!(asset, "-aarch64-macos");
    assert_eq!(extension, "tgz");
}

#[test]
fn component_ids_are_matched_exactly() {
    let github = GithubRelease;
    for id in ["Rust", "rust ", "rus", "rustc", "cargo_risczero"] {
        let (asset, extension) = github.asset_name(id, &linux());
        assert_eq!(asset, format!("{}-x86_64-linux", id));
        assert_eq!(extension, "tgz");
        assert_eq!(github.scheme(id).tag_prefix, "v");
    }
}

#[test]
fn scheme_table_entries() {
    let github = GithubRelease;
    let rust = github.scheme("rust");
    assert_eq!(rust.repo, "risc0");
    assert_eq!(rust.asset_stem, "rust-toolchain");
    assert_eq!(rust.platform_form, PlatformForm::TargetTriple);
    assert_eq!(rust.tag_prefix, "r0.");
    assert_eq!(rust.extension, "tar.gz");

    let cargo = github.scheme("cargo-risczero");
    assert_eq!(cargo.repo, "risc0");
    assert_eq!(cargo.asset_stem, "cargo-risczero");
    assert_eq!(cargo.platform_form, PlatformForm::Name);
    assert_eq!(cargo.tag_prefix, "v");
    assert_eq!(cargo.extension, "tgz");

    let other = github.scheme("r0vm");
    assert_eq!(other.repo, "risc0");
    assert_eq!(other.asset_stem, "r0vm");
    assert_eq!(other.platform_form, PlatformForm::Name);
    assert_eq!(other.tag_prefix, "v");
    assert_eq!(other.extension, "tgz");
}

#[test]
fn version_tag_of_rust_has_the_r0_prefix() {
    let github = GithubRelease;
    assert_eq!(github.get_version_str("rust", &Version::new(2, 1, 0)), "r0.2.1.0");
    assert_eq!(github.get_version_str("rust", &Version::new(0, 0, 0)), "r0.0.0.0");
    assert_eq!(github.get_version_str("rust", &Version::new(1, 85, 0)), "r0.1.85.0");
}

#[test]
fn version_tag_of_other_components_has_the_v_prefix() {
    let github = GithubRelease;
    assert_eq!(github.get_version_str("cargo-risczero", &Version::new(1, 2, 3)), "v1.2.3");
    assert_eq!(github.get_version_str("r0vm", &Version::new(0, 0, 0)), "v0.0.0");
    assert_eq!(github.get_version_str("", &Version::new(10, 20, 30)), "v10.20.30");
}

#[test]
fn version_tag_of_the_largest_version() {
    let github = GithubRelease;
    let v = Version::new(u64::MAX, u64::MAX, u64::MAX);
    assert_eq!(
        github.get_version_str("cargo-risczero", &v),
        "v18446744073709551615.18446744073709551615.18446744073709551615"
    );
    assert_eq!(
        github.get_version_str("rust", &v),
        "r0.18446744073709551615.18446744073709551615.18446744073709551615"
    );
}

#[test]
fn archive_name_joins_asset_and_extension() {
    let github = GithubRelease;
    assert_eq!(
        github.get_archive_name("rust", None, &linux()),
        "rust-toolchain-x86_64-unknown-linux-gnu.tar.gz"
    );
    assert_eq!(
        github.get_archive_name("cargo-risczero", None, &linux()),
        "cargo-risczero-x86_64-linux.tgz"
    );
    assert_eq!(github.get_archive_name("r0vm", None, &mac()), "r0vm-aarch64-macos.tgz");
}

#[test]
fn archive_name_does_not_depend_on_the_version() {
    let github = GithubRelease;
    let without = github.get_archive_name("rust", None, &linux());
    let with = github.get_archive_name("rust", Some(&Version::new(1, 2, 3)), &linux());
    let other = github.get_archive_name("rust", Some(&Version::new(9, 9, 9)), &linux());
    assert_eq!(without, with);
    assert_eq!(without, other);
    assert!(!without.contains('/'));
}

#[test]
fn platform_renders_the_same_at_every_call() {
    let platform = linux();
    assert_eq!(platform.target_triple(), "x86_64-unknown-linux-gnu");
    assert_eq!(platform.target_triple(), platform.target_triple());
    assert_eq!(platform.to_string(), "x86_64-linux");
    assert_eq!(platform.to_string(), platform.to_string());
    assert_eq!(platform, platform.clone());
}
