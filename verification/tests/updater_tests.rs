use std::io::Write;

use codex_gauge::updater::{
    check, download, download_head, file_extension, install_command, installer_from_package,
    installer_file_name, is_portable, package_kind, parse_version, replacement_request,
    strip_leading_v, verify, Manifest, ManifestReply, PackageKind, PackageReply, PlatformAsset,
    ReplaceRequest, UpdateError, MAX_PACKAGE_BYTES,
};

#[test]
fn compares_prefixed_versions() {
    assert_eq!(
        *parse_version("v1.2.3").ok().unwrap().version(),
        semver::Version::new(1, 2, 3)
    );
}

#[test]
fn rejects_missing_signing_key() {
    let error = verify(b"package", "invalid", "").unwrap_err();
    assert!(matches!(error, UpdateError::SignatureConfig));
}

#[test]
fn placeholder_key_and_bad_signature_are_refused() {
    assert_eq!(verify(b"p", "x", "TODO_KEY").unwrap_err(), UpdateError::SignatureConfig);
    assert_eq!(verify(b"p", "x", "not base64!").unwrap_err(), UpdateError::SignatureConfig);
    let key = "RWQf6LRCGA9i53mlYecO4IzT51TGPpvWucNSCh1CBM0QTaLn73Y7GFO3";
    assert_eq!(verify(b"p", "garbage", key).unwrap_err(), UpdateError::SignatureInvalid);
}

#[test]
fn leading_v_is_stripped() {
    assert_eq!(strip_leading_v("vv2.0.0"), "2.0.0");
    assert_eq!(strip_leading_v("1.0.0"), "1.0.0");
    assert_eq!(parse_version("version").err(), Some(UpdateError::Manifest));
}

fn manifest(version: &str, platforms: &[&str]) -> ManifestReply {
    ManifestReply::Answered {
        status: 200,
        manifest: Some(Manifest {
            version: version.to_string(),
            platforms: platforms
                .iter()
                .map(|p| {
                    (
                        p.to_string(),
                        PlatformAsset { signature: format!("sig-{p}"), url: format!("https://x/{p}.exe") },
                    )
                })
                .collect(),
        }),
    }
}

#[test]
fn newer_release_with_windows_build_is_offered() {
    let info = check(&manifest("v1.3.0", &["darwin-aarch64", "windows-x86_64"]), "1.2.9")
        .ok()
        .unwrap()
        .unwrap();
    assert_eq!(info.version, "v1.3.0");
    assert_eq!(info.url, "https://x/windows-x86_64.exe");
    assert_eq!(info.signature, "sig-windows-x86_64");
    assert!(check(&manifest("1.2.9", &["windows-x86_64"]), "1.2.9").ok().unwrap().is_none());
    assert!(check(&manifest("1.0.0", &[]), "1.2.9").ok().unwrap().is_none());
    assert_eq!(
        check(&manifest("2.0.0", &["linux"]), "1.2.9").err(),
        Some(UpdateError::NoWindowsAsset)
    );
    assert_eq!(check(&manifest("two", &[]), "1.2.9").err(), Some(UpdateError::Manifest));
    assert_eq!(check(&ManifestReply::Unreachable, "1.0.0").err(), Some(UpdateError::Network));
    assert_eq!(
        check(&ManifestReply::Answered { status: 404, manifest: None }, "1.0.0").err(),
        Some(UpdateError::Network)
    );
    assert_eq!(
        check(&ManifestReply::Answered { status: 200, manifest: None }, "1.0.0").err(),
        Some(UpdateError::Manifest)
    );
}

#[test]
fn downloads_are_bounded() {
    assert_eq!(download_head(500, None), Err(UpdateError::Network));
    assert_eq!(download_head(200, Some(MAX_PACKAGE_BYTES + 1)), Err(UpdateError::Package));
    assert_eq!(download_head(200, Some(MAX_PACKAGE_BYTES)), Ok(()));
    let empty = PackageReply::Answered { status: 200, content_length: None, body: Some(Vec::new()) };
    assert_eq!(download(&empty).err(), Some(UpdateError::Package));
    let unread = PackageReply::Answered { status: 200, content_length: None, body: None };
    assert_eq!(download(&unread).err(), Some(UpdateError::Network));
    let good = PackageReply::Answered { status: 200, content_length: Some(3), body: Some(vec![1, 2, 3]) };
    assert_eq!(download(&good).ok().unwrap(), &vec![1, 2, 3]);
}

#[test]
fn installer_is_chosen_by_name() {
    assert_eq!(package_kind("https://x/App.ZIP"), PackageKind::Zip);
    assert_eq!(package_kind("https://x/app.msi"), PackageKind::Msi);
    assert_eq!(package_kind("https://x/app.exe"), PackageKind::Exe);
    assert!(is_portable("https://x/App.Portable.EXE"));
    assert!(!is_portable("https://x/setup.exe"));
    assert_eq!(installer_file_name(PackageKind::Msi).unwrap(), "update.msi");
    assert!(installer_file_name(PackageKind::Zip).is_none());
    assert_eq!(file_extension("a.tar.gz").unwrap(), "gz");
    assert!(file_extension(".exe").is_none());
    assert!(file_extension("readme").is_none());
}

fn archive(entries: &[(&str, &[u8])]) -> Vec<u8> {
    let mut writer = zip::ZipWriter::new(std::io::Cursor::new(Vec::new()));
    let options = zip::write::SimpleFileOptions::default()
        .compression_method(zip::CompressionMethod::Stored);
    for (name, bytes) in entries {
        writer.start_file(*name, options).unwrap();
        writer.write_all(bytes).unwrap();
    }
    writer.finish().unwrap().into_inner()
}

#[test]
fn installer_is_unpacked_from_the_archive() {
    let package = archive(&[
        ("README.txt", b"read me"),
        ("../evil.exe", b"outside"),
        ("bin/.msi", b"hidden"),
        ("bin/Setup.EXE", b"MZ installer"),
        ("other.msi", b"second"),
    ]);
    let (extension, bytes) = installer_from_package(&package).unwrap();
    assert_eq!(extension, "exe");
    assert_eq!(bytes, b"MZ installer".to_vec());

    let msi = archive(&[("pkg/CodexGauge.Msi", b"msi bytes")]);
    assert_eq!(installer_from_package(&msi).unwrap(), ("msi".to_string(), b"msi bytes".to_vec()));

    let none = archive(&[("notes.txt", b"x")]);
    assert_eq!(installer_from_package(&none), Err(UpdateError::Package));
    assert_eq!(installer_from_package(b"not a zip"), Err(UpdateError::Package));
}

#[test]
fn installer_commands_are_silent() {
    let (program, args) = install_command("C:/t/update.MSI");
    assert_eq!(program, "msiexec.exe");
    assert_eq!(args, vec!["/i", "C:/t/update.MSI", "/passive", "/norestart"]);
    let (program, args) = install_command("C:/t/update.exe");
    assert_eq!(program, "C:/t/update.exe");
    assert_eq!(args, vec!["/S"]);
}

#[test]
fn replacement_helper_reads_its_arguments() {
    let args = |a: &[&str]| a.iter().map(|s| s.to_string()).collect::<Vec<_>>();
    assert!(matches!(replacement_request(&args(&["app"])), ReplaceRequest::NotHelper));
    assert!(matches!(
        replacement_request(&args(&["app", "--replace"])),
        ReplaceRequest::MissingTarget
    ));
    match replacement_request(&args(&["app", "--replace", "C:/a.exe"])) {
        ReplaceRequest::Target(t) => assert_eq!(t, "C:/a.exe"),
        _ => panic!("expected a target"),
    }
}

const KEY: &str = "RWQf6LRCGA9i53mlYecO4IzT51TGPpvWucNSCh1CBM0QTaLn73Y7GFO3";
const SIGNATURE: &str = "untrusted comment: signature from minisign secret key
RUQf6LRCGA9i559r3g7V1qNyJDApGip8MfqcadIgT9CuhV3EMhHoN1mGTkUidF/z7SrlQgXdy8ofjb7bNJJylDOocrCo8KLzZwo=
trusted comment: timestamp:1556193335\tfile:test
y/rUw2y8/hOUYjZU71eHp/Wo1KZ40fGy2VJEDl34XMJM+TX48Ss/17u3IvIfbVR1FkZZSNCisQbuQY+bHwhEBg==";

#[test]
fn signed_package_verifies_and_tampered_one_does_not() {
    assert_eq!(verify(b"test", SIGNATURE, KEY), Ok(()));
    assert_eq!(verify(b"test", SIGNATURE, &format!("  {KEY} \n")), Err(UpdateError::SignatureConfig));
    assert_eq!(verify(b"test", SIGNATURE, &format!("  {KEY}  ")), Ok(()));
    let key_file = format!("untrusted comment: minisign public key\n{KEY}");
    assert_eq!(verify(b"test", SIGNATURE, &key_file), Ok(()));
    assert_eq!(verify(b"Test", SIGNATURE, KEY), Err(UpdateError::SignatureInvalid));
}
