use hetzner_backup_pull::config::Cli;
use hetzner_backup_pull::digest::hex_encode;
use hetzner_backup_pull::digest::sha256_hex;
use hetzner_backup_pull::sync::build_stages;
use hetzner_backup_pull::sync::compress_round_trip;
use hetzner_backup_pull::sync::transform_all;
use hetzner_backup_pull::sync::Stage;
use hetzner_backup_pull::sync::StreamCopier;
use hetzner_backup_pull::sync::SyncOptions;
use hetzner_backup_pull::xz::xz_decompress;

fn pseudo_random_bytes(n: usize) -> Vec<u8> {
    let mut state: u64 = 0x243F_6A88_85A3_08D3;
    let mut out = Vec::with_capacity(n);
    for _ in 0..n {
        state = state
            .wrapping_mul(6364136223846793005)
            .wrapping_add(1442695040888963407);
        out.push((state >> 33) as u8);
    }
    out
}

#[test]
fn chain_order_matches_the_option_table() {
    let plain = build_stages(&SyncOptions { compress: false, encrypt_pass: None });
    assert_eq!(plain, vec![Stage::FileSink]);

    let compressed = build_stages(&SyncOptions { compress: true, encrypt_pass: None });
    assert_eq!(compressed, vec![Stage::Compress, Stage::FileSink]);

    let encrypted =
        build_stages(&SyncOptions { compress: false, encrypt_pass: Some("pw".to_string()) });
    assert_eq!(encrypted, vec![Stage::Encrypt, Stage::FileSink]);

    let both = build_stages(&SyncOptions { compress: true, encrypt_pass: Some("pw".to_string()) });
    assert_eq!(both, vec![Stage::Compress, Stage::Encrypt, Stage::FileSink]);
}

#[test]
fn cli_options_carry_over() {
    let cli = Cli {
        server_id: 1,
        backup_dir: "/tmp/backups".to_string(),
        compress: true,
        encrypt: Some("secret".to_string()),
        rsync_target: None,
    };
    let opts = cli.sync_options();
    assert!(opts.compress);
    assert_eq!(opts.encrypt_pass.as_deref(), Some("secret"));
}

#[test]
fn known_sha256_vectors() {
    assert_eq!(
        sha256_hex(b""),
        "e3b0c44298fc1c149afbf4c8996fb92427ae41e4649b934ca495991b7852b855"
    );
    assert_eq!(
        sha256_hex(b"abc"),
        "ba7816bf8f01cfea414140de5dae2223b00361a396177a9cb410ff61f20015ad"
    );
}

#[test]
fn chunking_is_digest_invariant() {
    let source = pseudo_random_bytes(100_000);
    let one_pass = sha256_hex(&source);
    for chunk_size in [1usize, 7, 1024, 32 * 1024, 1 << 20] {
        let (_, digest) = transform_all(&source, chunk_size, false);
        assert_eq!(hex_encode(&digest), one_pass);
    }
}

#[test]
fn digest_is_independent_of_compression() {
    let source = pseudo_random_bytes(50_000);
    let (plain_artifact, plain_digest) = transform_all(&source, 4096, false);
    let (xz_artifact, xz_digest) = transform_all(&source, 4096, true);
    assert_eq!(plain_digest, xz_digest);
    assert_eq!(plain_artifact, source);
    assert_ne!(xz_artifact, source);
}

#[test]
fn compressed_artifact_round_trips() {
    let source = pseudo_random_bytes(64 * 1024);
    let restored = compress_round_trip(&source, 1024).expect("round trip");
    assert_eq!(restored, source);

    let (artifact, _) = transform_all(&source, 7, true);
    let decoded = xz_decompress(&artifact).expect("decode");
    assert_eq!(decoded, source);
}

#[test]
fn hex_encoding_is_two_lowercase_digits_per_byte() {
    assert_eq!(hex_encode(&[]), "");
    assert_eq!(hex_encode(&[0x00, 0x0f, 0xa5, 0xff]), "000fa5ff");
}

#[test]
fn empty_source_still_produces_digest_and_artifact() {
    let (artifact, digest) = transform_all(&[], 1024, false);
    assert!(artifact.is_empty());
    assert_eq!(
        hex_encode(&digest),
        "e3b0c44298fc1c149afbf4c8996fb92427ae41e4649b934ca495991b7852b855"
    );
    let restored = compress_round_trip(&[], 1).expect("round trip");
    assert!(restored.is_empty());
}

#[test]
fn chunk_size_larger_than_source_is_fine() {
    let source = pseudo_random_bytes(100);
    let (artifact, digest) = transform_all(&source, 1 << 20, false);
    assert_eq!(artifact, source);
    assert_eq!(hex_encode(&digest), sha256_hex(&source));
}

#[test]
fn copier_reports_bytes_transferred() {
    let mut copier = StreamCopier::new(false);
    let mut written: Vec<u8> = Vec::new();
    let source = pseudo_random_bytes(10_000);
    for chunk in source.chunks(3000) {
        let piece = copier.push(chunk);
        written.extend_from_slice(&piece);
    }
    assert_eq!(copier.bytes_transferred(), 10_000);
    let (tail, digest) = copier.finish();
    assert!(tail.is_empty());
    written.extend_from_slice(&tail);
    assert_eq!(written, source);
    assert_eq!(hex_encode(&digest), sha256_hex(&source));
}

#[test]
fn end_to_end_ten_mebibytes_compressed() {
    let source = pseudo_random_bytes(10 * 1024 * 1024);
    let one_pass = sha256_hex(&source);
    let (artifact, digest) = transform_all(&source, 32 * 1024, true);
    assert_eq!(hex_encode(&digest), one_pass);
    let restored = xz_decompress(&artifact).expect("valid compressed data");
    assert_eq!(restored, source);
}
