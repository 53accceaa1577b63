use guardian_agent_linux::updater::{
    checksum_from_decoded, decode_checksum, extract_agent_binary, plan_update, select_binary_member, ArchiveMember,
    UpdateOffer, DEFAULT_GITHUB_REPO,
};

fn offer(version: Option<&str>, download: Option<&str>, checksum: Option<&str>) -> UpdateOffer {
    UpdateOffer {
        target_version: version.map(|s| s.to_string()),
        download_url: download.map(|s| s.to_string()),
        checksum_url: checksum.map(|s| s.to_string()),
    }
}

#[test]
fn plan_uses_default_repository() {
    let urls = plan_update(&offer(Some("v1.2.3"), None, None), true, "x86_64", true).unwrap();
    assert_eq!(
        urls.download_url,
        "https://github.com/Guardian-Parental-Controls/agent-linux/releases/download/v1.2.3/guardian-agent-x86_64-unknown-linux-gnu.tar.gz"
    );
    assert_eq!(urls.checksum_url, format!("{}.sha256", urls.download_url));
    let urls = plan_update(&offer(Some("v2"), Some("https://a"), None), true, "aarch64", true).unwrap();
    assert!(urls.download_url.contains(DEFAULT_GITHUB_REPO));
    assert!(urls.download_url.ends_with("/v2/guardian-agent-aarch64-unknown-linux-gnu.tar.gz"));
}

#[test]
fn plan_uses_offered_addresses() {
    let urls = plan_update(&offer(Some("v1"), Some("https://d"), Some("https://c")), true, "riscv64", false)
        .unwrap();
    assert_eq!(urls.download_url, "https://d");
    assert_eq!(urls.checksum_url, "https://c");
}

#[test]
fn plan_refusals() {
    assert_eq!(
        plan_update(&offer(None, Some("a"), Some("b")), true, "x86_64", true).err().unwrap(),
        "Missing target version"
    );
    assert_eq!(
        plan_update(&offer(Some("../x"), None, None), false, "x86_64", true).err().unwrap(),
        "Refusing auto-update: invalid release version '../x'"
    );
    assert_eq!(
        plan_update(&offer(Some("v1"), None, None), true, "riscv64", true).err().unwrap(),
        "Unsupported architecture for auto-update: riscv64"
    );
    assert_eq!(
        plan_update(&offer(Some("v1"), None, None), true, "x86_64", false).err().unwrap(),
        "Refusing auto-update: invalid default GitHub repository"
    );
}

fn archive(members: &[(&str, &[u8])]) -> Vec<u8> {
    let encoder = flate2::write::GzEncoder::new(Vec::new(), flate2::Compression::default());
    let mut builder = tar::Builder::new(encoder);
    for (path, data) in members {
        let mut header = tar::Header::new_gnu();
        header.set_size(data.len() as u64);
        header.set_mode(0o755);
        header.set_cksum();
        builder.append_data(&mut header, path, *data).unwrap();
    }
    builder.into_inner().unwrap().finish().unwrap()
}

#[test]
fn extracts_the_agent_binary() {
    let bytes = archive(&[
        ("README.md", b"readme"),
        ("dist/guardian-agent", b"\x7fELF-new-agent"),
        ("other/guardian-agent", b"second"),
    ]);
    assert_eq!(extract_agent_binary(&bytes).unwrap(), b"\x7fELF-new-agent".to_vec());
}

#[test]
fn archive_without_agent_binary() {
    let bytes = archive(&[("guardian-agent.txt", b"no"), ("bin/agent", b"no")]);
    assert_eq!(
        extract_agent_binary(&bytes).unwrap_err(),
        "Archive did not contain 'guardian-agent' binary"
    );
}

#[test]
fn corrupt_archive_is_refused() {
    let err = extract_agent_binary(&b"not a gzip stream".to_vec()).unwrap_err();
    assert!(err.starts_with("Failed to parse archive entry: "), "{err}");
}

#[test]
fn member_selection() {
    let members = vec![
        ArchiveMember::Named(None),
        ArchiveMember::Named(Some("guardian".to_string())),
        ArchiveMember::Named(Some("guardian-agent".to_string())),
        ArchiveMember::BadEntry("late".to_string()),
    ];
    assert_eq!(select_binary_member(&members).unwrap(), Some(2));
    let members = vec![ArchiveMember::BadPath("bad".to_string()), ArchiveMember::Named(Some("guardian-agent".to_string()))];
    assert_eq!(select_binary_member(&members).unwrap_err(), "Failed to get entry path: bad");
    let members = vec![ArchiveMember::BadEntry("eof".to_string())];
    assert_eq!(select_binary_member(&members).unwrap_err(), "Failed to parse archive entry: eof");
    assert_eq!(select_binary_member(&Vec::new()).unwrap(), None);
}

#[test]
fn checksum_text() {
    assert_eq!(decode_checksum(b"abc  file\n".to_vec()).unwrap(), "abc  file\n");
    let err = decode_checksum(vec![0x61, 0xff, 0x62]).unwrap_err();
    assert!(err.starts_with("Release checksum is not valid UTF-8: "));
    assert!(err.len() > "Release checksum is not valid UTF-8: ".len());
    let reason = String::from_utf8(vec![0x61, 0xff, 0x62]).unwrap_err().to_string();
    assert_eq!(err, format!("Release checksum is not valid UTF-8: {}", reason));
}

#[test]
fn checksum_message_wraps_the_decoder_error() {
    assert_eq!(checksum_from_decoded(Ok("abc".to_string())).unwrap(), "abc");
    assert_eq!(
        checksum_from_decoded(Err("invalid utf-8 sequence of 1 bytes from index 1".to_string()))
            .unwrap_err(),
        "Release checksum is not valid UTF-8: invalid utf-8 sequence of 1 bytes from index 1"
    );
}
