use ed25519_dalek::{Signer, SigningKey};
use std::cmp::Ordering;

use reseam_patcher::bundle::{
    check_jar, pack_manifest, sign_bundle_manifest,
    check_engine, check_payload, check_universal_jar, engine_compatibility, is_payload, payload_hashes,
    verify_manifest, ArchiveEntry, BundleInfo, BundleManifest, ENGINE_VERSION,
};

#[test]
fn same_line_is_compatible() {
    assert_eq!(engine_compatibility("0.3.1", "0.3.0"), Ok(Ordering::Equal));
    assert_eq!(engine_compatibility("1.2.0", "1.9.3"), Ok(Ordering::Equal));
}

#[test]
fn minor_breaks_before_one_major_after() {
    assert_eq!(engine_compatibility("0.4.0", "0.3.0"), Ok(Ordering::Greater));
    assert_eq!(engine_compatibility("0.2.0", "0.3.0"), Ok(Ordering::Less));
    assert_eq!(engine_compatibility("2.0.0", "1.9.0"), Ok(Ordering::Greater));
    assert_eq!(engine_compatibility("1.0.0", "2.0.0"), Ok(Ordering::Less));
}

#[test]
fn garbage_is_an_error() {
    assert!(engine_compatibility("three", "0.3.0").is_err());
}

#[test]
fn invalid_versions_name_themselves() {
    assert_eq!(engine_compatibility("1", "0.3.0"), Err("invalid engine version `1`".to_owned()));
    assert_eq!(engine_compatibility("0.1.0", "x.1"), Err("invalid engine version `x.1`".to_owned()));
    assert_eq!(engine_compatibility("+1.-2", "1.0"), Err("invalid engine version `+1.-2`".to_owned()));
    assert_eq!(engine_compatibility("+1.2", "1.0"), Ok(Ordering::Equal));
    assert_eq!(engine_compatibility("4294967296.0", "1.0"), Err("invalid engine version `4294967296.0`".to_owned()));
}

fn info(engine: &str, format_version: u32) -> BundleInfo {
    BundleInfo {
        name: "demo".to_owned(),
        author: String::new(),
        description: String::new(),
        format_version,
        engine: engine.to_owned(),
    }
}

#[test]
fn engine_checks_explain_which_side_is_behind() {
    assert!(check_engine(&info(ENGINE_VERSION, 1)).is_ok());
    assert_eq!(
        check_engine(&info("", 1)).unwrap_err().message(),
        format!("bundle error: bundle demo was packed before engines were versioned; ask its author for a build with Reseam {ENGINE_VERSION} or newer")
    );
    assert_eq!(
        check_engine(&info("0.9.0", 1)).unwrap_err().message(),
        format!("bundle error: bundle demo needs Reseam engine 0.9.0 or newer; this is {ENGINE_VERSION}. Update Reseam")
    );
    assert_eq!(
        check_engine(&info("0.0.1", 1)).unwrap_err().message(),
        format!("bundle error: bundle demo was built for Reseam engine 0.0.1, which this engine ({ENGINE_VERSION}) no longer loads; ask its author for a rebuild")
    );
}

#[test]
fn payload_is_jars_and_dex() {
    assert!(is_payload("patches.jar"));
    assert!(is_payload("ext.dex"));
    assert!(!is_payload("manifest.toml"));
    assert!(!is_payload("jar"));
}

#[test]
fn control_entries_are_checked_first() {
    let err = verify_manifest(b"text/plain", b"", &[0u8; 32], &[0u8; 64]).unwrap_err().message();
    assert_eq!(err, "bundle error: invalid mimetype marker (expected application/vnd.reseam.bundle)");
    let err = verify_manifest(b"application/vnd.reseam.bundle", b"", &[0u8; 31], &[0u8; 64])
        .unwrap_err()
        .message();
    assert_eq!(err, "bundle error: manifest.pubkey must be 32 bytes");
    let err = verify_manifest(b"application/vnd.reseam.bundle", b"", &[0u8; 32], &[0u8; 63])
        .unwrap_err()
        .message();
    assert_eq!(err, "bundle error: invalid Ed25519 signature: signature error");
}

#[test]
fn a_key_off_the_curve_is_refused() {
    let mut refused = 0;
    for first in 2u8..40 {
        let mut key = [0u8; 32];
        key[0] = first;
        let err = match verify_manifest(b"application/vnd.reseam.bundle", b"", &key, &[0u8; 64]) {
            Ok(_) => panic!("an all-zero signature must not verify"),
            Err(e) => e.message(),
        };
        if err.starts_with("bundle error: invalid Ed25519 public key") {
            assert_eq!(
                err,
                "bundle error: invalid Ed25519 public key: signature error: Cannot decompress Edwards point"
            );
            refused += 1;
        } else {
            assert_eq!(err, "bundle error: manifest signature verification failed");
        }
    }
    assert!(refused > 0);
}

#[test]
fn signed_manifests_verify_and_tampered_ones_do_not() {
    let key = SigningKey::from_bytes(&[7u8; 32]);
    let public = key.verifying_key().to_bytes();
    let manifest = b"[bundle]\nname = \"demo\"\n";
    let signature = key.sign(manifest).to_bytes();
    let mimetype = b"application/vnd.reseam.bundle";
    assert_eq!(verify_manifest(mimetype, manifest, &public, &signature).unwrap(), public);
    let err = verify_manifest(mimetype, b"[bundle]\nname = \"evil\"\n", &public, &signature)
        .unwrap_err()
        .message();
    assert_eq!(err, "bundle error: manifest signature verification failed");
}

const EMPTY_SHA256: &str = "e3b0c44298fc1c149afbf4c8996fb92427ae41e4649b934ca495991b7852b855";

fn entry(name: &str, contents: &[u8]) -> ArchiveEntry {
    ArchiveEntry { name: name.to_owned(), is_dir: false, contents: contents.to_vec() }
}

fn manifest(files: &[(&str, &str)]) -> BundleManifest {
    BundleManifest {
        bundle: info(ENGINE_VERSION, 1),
        files: files.iter().map(|(n, h)| ((*n).to_owned(), (*h).to_owned())).collect(),
    }
}

#[test]
fn payload_hashes_are_lowercase_hex_sha256() {
    let hashes = payload_hashes(&vec![("a.jar".to_owned(), Vec::new())]);
    assert_eq!(hashes, vec![("a.jar".to_owned(), EMPTY_SHA256.to_owned())]);
}

#[test]
fn payload_is_checked_against_the_manifest() {
    let m = manifest(&[("b.jar", EMPTY_SHA256), ("a.jar", EMPTY_SHA256), ("x.dex", EMPTY_SHA256)]);
    let entries = vec![
        entry("mimetype", b"application/vnd.reseam.bundle"),
        entry("b.jar", b""),
        entry("x.dex", b""),
        entry("a.jar", b""),
    ];
    let payload = check_payload(&m, &entries).unwrap();
    assert_eq!(payload.jars, vec!["a.jar".to_owned(), "b.jar".to_owned()]);
    assert_eq!(payload.extension_dex, vec!["x.dex".to_owned()]);

    let err = check_payload(&m, &vec![entry("c.jar", b"")]).unwrap_err().message();
    assert_eq!(err, "bundle error: file c.jar is not declared in manifest [files]");
    let err = check_payload(&m, &vec![entry("a.jar", b"x")]).unwrap_err().message();
    assert_eq!(err, "bundle error: hash mismatch for a.jar");
    let err = check_payload(&m, &vec![entry("a.jar", b"")]).unwrap_err().message();
    assert_eq!(err, "bundle error: manifest declares files missing from the archive");
}

#[test]
fn jars_must_be_universal() {
    let ok = vec!["com/x/A.class".to_owned(), "classes.dex".to_owned()];
    assert!(check_universal_jar("p.jar", &ok).is_ok());
    let no_class = vec!["META-INF/x.class".to_owned(), "classes.dex".to_owned()];
    assert_eq!(
        check_universal_jar("p.jar", &no_class).unwrap_err().message(),
        "bundle error: p.jar is missing JVM .class files"
    );
    let no_dex = vec!["A.class".to_owned()];
    assert_eq!(
        check_universal_jar("p.jar", &no_dex).unwrap_err().message(),
        "bundle error: p.jar is missing classes.dex; build patch jars as universal JVM/Android jars"
    );
}

fn jar_with(entries: &[&str]) -> Vec<u8> {
    let mut out = std::io::Cursor::new(Vec::new());
    {
        let mut zip = zip::ZipWriter::new(&mut out);
        for name in entries {
            zip.start_file(*name, zip::write::SimpleFileOptions::default()).unwrap();
            std::io::Write::write_all(&mut zip, b"x").unwrap();
        }
        zip.finish().unwrap();
    }
    out.into_inner()
}

#[test]
fn jars_are_read_from_their_bytes() {
    assert!(check_jar("p.jar", &jar_with(&["a/B.class", "classes.dex"])).is_ok());
    assert_eq!(
        check_jar("p.jar", &jar_with(&["META-INF/x.class", "classes.dex"])).unwrap_err().message(),
        "bundle error: p.jar is missing JVM .class files"
    );
    assert_eq!(
        check_jar("p.jar", &jar_with(&["a/B.class"])).unwrap_err().message(),
        "bundle error: p.jar is missing classes.dex; build patch jars as universal JVM/Android jars"
    );
    let err = check_jar("p.jar", b"not a zip").unwrap_err().message();
    assert!(err.starts_with("bundle error: p.jar is not a valid jar: "), "{err}");
}

#[test]
fn packing_fills_in_the_engine_and_hashes() {
    let manifest = match pack_manifest(&info("0.0.1", 1), "dir", &vec![("a.dex".to_owned(), Vec::new())]) {
        Ok(m) => m,
        Err(e) => panic!("{}", e.message()),
    };
    assert_eq!(manifest.bundle.engine, ENGINE_VERSION);
    assert_eq!(manifest.files, vec![("a.dex".to_owned(), EMPTY_SHA256.to_owned())]);
    let err = match pack_manifest(&info("0.0.1", 1), "dir", &Vec::new()) {
        Ok(_) => panic!("an empty payload must be refused"),
        Err(e) => e.message(),
    };
    assert_eq!(err, "bundle error: no .jar or .dex files in dir");
}

#[test]
fn a_signed_manifest_passes_the_checks() {
    let secret = [9u8; 32];
    let manifest = b"[bundle]\nname = \"signed\"\n";
    let (public, signature) = sign_bundle_manifest(&secret, manifest);
    assert_eq!(public, SigningKey::from_bytes(&secret).verifying_key().to_bytes());
    assert_eq!(verify_manifest(b"application/vnd.reseam.bundle", manifest, &public, &signature).unwrap(), public);
}
