//! `.reseam` bundles: a zip whose `manifest.toml` lists every payload file
//! with its SHA-256 and is signed with Ed25519. Whether to trust the signing
//! key is the host's decision; the checks here establish that a bundle is
//! intact, signed by the key it carries, and made for this engine.

use vstd::prelude::*;
use std::cmp::Ordering;
use crate::error::{push_lit, push_str, PatcherError};
use crate::order::{lex_le_fn, sort_texts};
use crate::text::{chars_eq, chars_of, ends_with, extend, has_suffix, has_prefix, starts_with, string_of, views};
use crate::digest::{hex_encode, hex_lower, sha256, sha256_digest};
use crate::signing::{
    decode_public_key, ed25519_key_decodes, ed25519_public_key, ed25519_signature, ed25519_verifies, parse_signature,
    public_key_of, sign_message, verify_signature,
};
use crate::text::decimal_chars;
use crate::text::decimal;

verus! {

/// The marker a bundle's `mimetype` entry holds.
pub const BUNDLE_MIMETYPE: &'static str = "application/vnd.reseam.bundle";

/// The bundle format this engine reads.
pub const BUNDLE_FORMAT_VERSION: u32 = 1;

/// Version of this engine; bundles record the one that packed them.
pub const ENGINE_VERSION: &'static str = "0.1.0";

/// What a bundle's manifest says about the bundle itself.
pub struct BundleInfo {
    pub name: String,
    pub author: String,
    pub description: String,
    pub format_version: u32,
    /// Engine version the bundle was packed with. Bundles work with engines
    /// of the same major version (the same minor while the major is 0).
    pub engine: String,
}

/// A bundle's identity as reported without loading it.
pub struct BundleInspection {
    pub name: String,
    pub author: String,
    pub description: String,
    pub public_key: [u8; 32],
}

/// A signed manifest: the bundle's description and, for every payload
/// file, its hex SHA-256, by file name.
pub struct BundleManifest {
    pub bundle: BundleInfo,
    pub files: Vec<(String, String)>,
}

/// `c` is an ASCII digit.
pub open spec fn is_digit(c: char) -> bool {
    '0' <= c && c <= '9'
}

/// The number the digits of `s` spell.
pub open spec fn digits_value(s: Seq<char>) -> int
    decreases s.len(),
{
    if s.len() == 0 {
        0
    } else {
        digits_value(s.drop_last()) * 10 + ((s.last() as int) - ('0' as int))
    }
}

/// `s` without a leading `+`.
pub open spec fn number_body(s: Seq<char>) -> Seq<char> {
    if s.len() > 0 && s[0] == '+' {
        s.drop_first()
    } else {
        s
    }
}

/// Every character of `s` is a digit.
pub open spec fn all_digits(s: Seq<char>) -> bool {
    forall|i: int| 0 <= i < s.len() ==> is_digit(#[trigger] s[i])
}

/// What `str::parse::<u32>` makes of `s`: an optional `+`, then one or more
/// digits whose value fits.
pub open spec fn parse_u32(s: Seq<char>) -> Option<u32> {
    let body = number_body(s);
    if body.len() > 0 && all_digits(body) && digits_value(body) <= u32::MAX {
        Some(digits_value(body) as u32)
    } else {
        None
    }
}

/// The characters of `s` before the first `c`.
pub open spec fn before_char(s: Seq<char>, c: char) -> Seq<char>
    decreases s.len(),
{
    if s.len() == 0 || s[0] == c {
        Seq::empty()
    } else {
        seq![s[0]] + before_char(s.drop_first(), c)
    }
}

/// The characters of `s` after the first `c`, if `s` holds one.
pub open spec fn after_char(s: Seq<char>, c: char) -> Option<Seq<char>>
    decreases s.len(),
{
    if s.len() == 0 {
        None
    } else if s[0] == c {
        Some(s.drop_first())
    } else {
        after_char(s.drop_first(), c)
    }
}

/// The compatibility line of engine version `v`: `(0, minor)` while the
/// major is 0, `(major, 0)` after. `None` when the first two dot-separated
/// parts are not both numbers.
pub open spec fn engine_line(v: Seq<char>) -> Option<(u32, u32)> {
    let first = parse_u32(before_char(v, '.'));
    match after_char(v, '.') {
        None => None,
        Some(rest) => {
            let second = parse_u32(before_char(rest, '.'));
            if first is Some && second is Some {
                if first->0 == 0 {
                    Some((0u32, second->0))
                } else {
                    Some((first->0, 0u32))
                }
            } else {
                None
            }
        },
    }
}

/// How line `a` compares to line `b`, major first.
pub open spec fn line_order(a: (u32, u32), b: (u32, u32)) -> Ordering {
    if a.0 < b.0 || (a.0 == b.0 && a.1 < b.1) {
        Ordering::Less
    } else if a == b {
        Ordering::Equal
    } else {
        Ordering::Greater
    }
}

/// The message for an engine version that does not parse.
pub open spec fn invalid_engine_text(v: Seq<char>) -> Seq<char> {
    "invalid engine version `"@ + v + "`"@
}

/// Whether a bundle packed by engine `built` loads on engine `running`, and
/// which side is behind when it does not.
pub open spec fn engine_relation(built: Seq<char>, running: Seq<char>) -> Result<Ordering, Seq<char>> {
    match engine_line(built) {
        None => Err(invalid_engine_text(built)),
        Some(a) => match engine_line(running) {
            None => Err(invalid_engine_text(running)),
            Some(b) => Ok(line_order(a, b)),
        },
    }
}

/// An engine version that parses is on its own line, and when two
/// versions are on different lines, each sees the other as ahead or behind
/// the opposite way.
pub proof fn lemma_engine_relation_symmetric(a: Seq<char>, b: Seq<char>)
    ensures
        engine_line(a) is Some ==> engine_relation(a, a) == Ok::<Ordering, Seq<char>>(Ordering::Equal),
        engine_relation(a, b) == Ok::<Ordering, Seq<char>>(Ordering::Less) <==> engine_relation(b, a) == Ok::<
            Ordering,
            Seq<char>,
        >(Ordering::Greater),
        engine_relation(a, b) == Ok::<Ordering, Seq<char>>(Ordering::Equal) <==> engine_relation(b, a) == Ok::<
            Ordering,
            Seq<char>,
        >(Ordering::Equal),
{
}

fn digit_value(c: char) -> (r: u32)
    requires
        is_digit(c),
    ensures
        r == (c as int) - ('0' as int),
{
    (c as u32) - ('0' as u32)
}

/// `str::parse::<u32>`.
pub fn parse_number(s: &[char]) -> (r: Option<u32>)
    ensures
        r == parse_u32(s@),
{
    let start: usize = if s.len() > 0 && s[0] == '+' { 1 } else { 0 };
    let ghost body = number_body(s@);
    assert(body =~= s@.skip(start as int));
    if start >= s.len() {
        return None;
    }
    let mut value: u64 = 0;
    let mut i: usize = start;
    while i < s.len()
        invariant
            start <= i <= s@.len(),
            start < s@.len(),
            body == s@.skip(start as int),
            body == number_body(s@),
            forall|k: int| 0 <= k < i - start ==> is_digit(#[trigger] body[k]),
            value == digits_value(body.take(i - start)),
            value <= u32::MAX,
        decreases s@.len() - i,
    {
        let c = s[i];
        if !('0' <= c && c <= '9') {
            assert(!is_digit(body[i - start]));
            assert(!all_digits(body));
            return None;
        }
        let d = digit_value(c);
        assert(body.take(i + 1 - start).drop_last() =~= body.take(i - start));
        assert(body[i - start] == c);
        if value > (u32::MAX as u64 - d as u64) / 10 {
            proof {
                assert(digits_value(body.take(i + 1 - start)) > u32::MAX) by (nonlinear_arith)
                    requires
                        digits_value(body.take(i + 1 - start)) == value * 10 + d,
                        value > (u32::MAX - d) / 10,
                        d <= 9,
                ;
                if all_digits(body) {
                    lemma_digits_grow(body, (i + 1 - start) as int);
                }
            }
            return None;
        }
        value = value * 10 + d as u64;
        i = i + 1;
    }
    assert(body.take(s@.len() - start) =~= body);
    Some(value as u32)
}

/// Digits only ever make a number larger as more of them follow.
proof fn lemma_digits_grow(s: Seq<char>, k: int)
    requires
        0 <= k <= s.len(),
        forall|i: int| 0 <= i < s.len() ==> is_digit(#[trigger] s[i]),
    ensures
        digits_value(s.take(k)) <= digits_value(s),
        digits_value(s.take(k)) >= 0,
    decreases s.len() - k,
{
    if k < s.len() {
        lemma_digits_grow(s.drop_last(), k);
        assert(s.drop_last().take(k) =~= s.take(k));
        lemma_digits_nonneg(s.drop_last());
        assert(digits_value(s) == digits_value(s.drop_last()) * 10 + ((s.last() as int) - ('0' as int)));
        assert(is_digit(s[s.len() - 1]));
        assert(digits_value(s.drop_last()) <= digits_value(s)) by (nonlinear_arith)
            requires
                digits_value(s) == digits_value(s.drop_last()) * 10 + ((s.last() as int) - ('0' as int)),
                digits_value(s.drop_last()) >= 0,
                (s.last() as int) - ('0' as int) >= 0,
        ;
    } else {
        assert(s.take(k) =~= s);
        lemma_digits_nonneg(s);
    }
}

proof fn lemma_digits_nonneg(s: Seq<char>)
    requires
        forall|i: int| 0 <= i < s.len() ==> is_digit(#[trigger] s[i]),
    ensures
        digits_value(s) >= 0,
    decreases s.len(),
{
    if s.len() > 0 {
        lemma_digits_nonneg(s.drop_last());
        assert(is_digit(s[s.len() - 1]));
    }
}

/// The parts of `s` before and after its first `c`.
pub fn split_once(s: &[char], c: char) -> (r: (Vec<char>, Option<Vec<char>>))
    ensures
        r.0@ == before_char(s@, c),
        match r.1 {
            Some(rest) => after_char(s@, c) == Some(rest@),
            None => after_char(s@, c) is None,
        },
{
    let mut head: Vec<char> = Vec::new();
    let n = s.len();
    let mut i: usize = 0;
    assert(s@.skip(0) =~= s@);
    while i < n
        invariant
            n == s@.len(),
            i <= n,
            before_char(s@, c) == head@ + before_char(s@.skip(i as int), c),
            after_char(s@, c) == after_char(s@.skip(i as int), c),
        decreases n - i,
    {
        if s[i] == c {
            let mut tail: Vec<char> = Vec::new();
            let mut j: usize = i + 1;
            while j < n
                invariant
                    n == s@.len(),
                    i < j <= n,
                    tail@ == s@.subrange(i + 1, j as int),
                decreases n - j,
            {
                tail.push(s[j]);
                assert(s@.subrange(i + 1, j + 1) =~= s@.subrange(i + 1, j as int).push(s@[j as int]));
                j = j + 1;
            }
            assert(s@.skip(i as int).drop_first() =~= s@.subrange(i + 1, n as int));
            assert(head@ + Seq::<char>::empty() =~= head@);
            return (head, Some(tail));
        }
        assert(s@.skip(i as int).drop_first() =~= s@.skip(i + 1));
        assert(head@.push(s@[i as int]) + before_char(s@.skip(i + 1), c) =~= head@ + (seq![s@[i as int]] + before_char(s@.skip(i + 1), c)));
        head.push(s[i]);
        i = i + 1;
    }
    assert(s@.skip(n as int) =~= Seq::<char>::empty());
    assert(head@ + Seq::<char>::empty() =~= head@);
    (head, None)
}

fn engine_line_of(v: &[char]) -> (r: Option<(u32, u32)>)
    ensures
        r == engine_line(v@),
{
    let (first, rest) = split_once(v, '.');
    match rest {
        None => None,
        Some(rest) => {
            let (second, _) = split_once(&rest, '.');
            let a = parse_number(&first);
            let b = parse_number(&second);
            match (a, b) {
                (Some(0), Some(minor)) => Some((0, minor)),
                (Some(major), Some(_)) => Some((major, 0)),
                _ => None,
            }
        },
    }
}

fn invalid_engine(v: &str) -> (r: String)
    ensures
        r@ == invalid_engine_text(v@),
{
    let mut m: Vec<char> = Vec::new();
    push_lit(&mut m, "invalid engine version `");
    let c = chars_of(v);
    extend(&mut m, &c);
    push_lit(&mut m, "`");
    string_of(&m)
}

/// Whether a bundle packed by engine `built` loads on engine `running`.
/// The ordering says which side is behind when it does not.
pub fn engine_compatibility(built: &str, running: &str) -> (r: Result<Ordering, String>)
    ensures
        match r {
            Ok(o) => engine_relation(built@, running@) == Ok::<Ordering, Seq<char>>(o),
            Err(m) => engine_relation(built@, running@) == Err::<Ordering, Seq<char>>(m@),
        },
{
    let bc = chars_of(built);
    let a = match engine_line_of(&bc) {
        Some(a) => a,
        None => return Err(invalid_engine(built)),
    };
    let rc = chars_of(running);
    let b = match engine_line_of(&rc) {
        Some(b) => b,
        None => return Err(invalid_engine(running)),
    };
    if a.0 < b.0 || (a.0 == b.0 && a.1 < b.1) {
        Ok(Ordering::Less)
    } else if a.0 == b.0 && a.1 == b.1 {
        Ok(Ordering::Equal)
    } else {
        Ok(Ordering::Greater)
    }
}

/// Why a bundle described by `info` does not load on engine `running`.
pub open spec fn engine_refusal(info: BundleInfo, running: Seq<char>) -> Option<Seq<char>> {
    if info.engine@.len() == 0 {
        Some(
            "bundle "@ + info.name@
                + " was packed before engines were versioned; ask its author for a build with Reseam "@
                + running + " or newer"@,
        )
    } else {
        match engine_relation(info.engine@, running) {
            Err(m) => Some(m),
            Ok(Ordering::Equal) => None,
            Ok(Ordering::Greater) => Some(
                "bundle "@ + info.name@ + " needs Reseam engine "@ + info.engine@ + " or newer; this is "@
                    + running + ". Update Reseam"@,
            ),
            Ok(Ordering::Less) => Some(
                "bundle "@ + info.name@ + " was built for Reseam engine "@ + info.engine@
                    + ", which this engine ("@ + running
                    + ") no longer loads; ask its author for a rebuild"@,
            ),
        }
    }
}

/// Refuses a bundle made for an engine this one cannot run.
pub fn check_engine(info: &BundleInfo) -> (r: Result<(), PatcherError>)
    ensures
        match engine_refusal(*info, ENGINE_VERSION@) {
            None => r is Ok,
            Some(m) => r matches Err(PatcherError::Bundle(t)) && t@ == m,
        },
{
    let running = chars_of(ENGINE_VERSION);
    let mut m: Vec<char> = Vec::new();
    let engine = chars_of(info.engine.as_str());
    if engine.len() == 0 {
        push_lit(&mut m, "bundle ");
        push_str(&mut m, &info.name);
        push_lit(&mut m, " was packed before engines were versioned; ask its author for a build with Reseam ");
        extend(&mut m, &running);
        push_lit(&mut m, " or newer");
        return Err(PatcherError::Bundle(string_of(&m)));
    }
    match engine_compatibility(info.engine.as_str(), ENGINE_VERSION) {
        Err(reason) => Err(PatcherError::Bundle(reason)),
        Ok(Ordering::Equal) => Ok(()),
        Ok(Ordering::Greater) => {
            push_lit(&mut m, "bundle ");
            push_str(&mut m, &info.name);
            push_lit(&mut m, " needs Reseam engine ");
            push_str(&mut m, &info.engine);
            push_lit(&mut m, " or newer; this is ");
            extend(&mut m, &running);
            push_lit(&mut m, ". Update Reseam");
            Err(PatcherError::Bundle(string_of(&m)))
        },
        Ok(Ordering::Less) => {
            push_lit(&mut m, "bundle ");
            push_str(&mut m, &info.name);
            push_lit(&mut m, " was built for Reseam engine ");
            push_str(&mut m, &info.engine);
            push_lit(&mut m, ", which this engine (");
            extend(&mut m, &running);
            push_lit(&mut m, ") no longer loads; ask its author for a rebuild");
            Err(PatcherError::Bundle(string_of(&m)))
        },
    }
}


/// The bytes of an ASCII text.
pub open spec fn ascii_bytes(s: Seq<char>) -> Seq<u8> {
    s.map_values(|c: char| c as u8)
}

/// A bundle's control entries pass: the mimetype marker is right, and the
/// manifest carries a well-formed public key and a signature of itself
/// under that key.
pub open spec fn manifest_accepted(mimetype: Seq<u8>, manifest: Seq<u8>, pubkey: Seq<u8>, signature: Seq<u8>) -> bool {
    &&& mimetype == ascii_bytes(BUNDLE_MIMETYPE@)
    &&& pubkey.len() == 32
    &&& signature.len() == 64
    &&& ed25519_key_decodes(pubkey)
    &&& ed25519_verifies(pubkey, manifest, signature)
}

/// The error for control entries that do not pass: that of the first check
/// failing, in the order listed by `manifest_accepted`.
pub open spec fn manifest_refusal(e: PatcherError, mimetype: Seq<u8>, manifest: Seq<u8>, pubkey: Seq<u8>, signature: Seq<u8>) -> bool {
    if mimetype != ascii_bytes(BUNDLE_MIMETYPE@) {
        e matches PatcherError::Bundle(m) && m@ == "invalid mimetype marker (expected "@ + BUNDLE_MIMETYPE@ + ")"@
    } else if pubkey.len() != 32 {
        e matches PatcherError::Bundle(m) && m@ == "manifest.pubkey must be 32 bytes"@
    } else if signature.len() != 64 {
        e matches PatcherError::Bundle(m) && m@ == "invalid Ed25519 signature: "@ + "signature error"@
    } else if !ed25519_key_decodes(pubkey) {
        e matches PatcherError::Bundle(m) && m@ == "invalid Ed25519 public key: "@
            + "signature error: Cannot decompress Edwards point"@
    } else {
        e matches PatcherError::Bundle(m) && m@ == "manifest signature verification failed"@
    }
}

fn bytes_spell(bytes: &[u8], text: &[char]) -> (r: bool)
    ensures
        r == (bytes@ == ascii_bytes(text@)),
{
    if bytes.len() != text.len() {
        return false;
    }
    let n = bytes.len();
    for i in 0..n
        invariant
            n == bytes@.len(),
            n == text@.len(),
            forall|k: int| 0 <= k < i ==> bytes@[k] == (text@[k] as u8),
    {
        if bytes[i] != text[i] as u8 {
            assert(ascii_bytes(text@)[i as int] == text@[i as int] as u8);
            return false;
        }
    }
    assert(bytes@ =~= ascii_bytes(text@));
    true
}

fn bundle_message(prefix: &str, detail: &String) -> (r: PatcherError)
    ensures
        r matches PatcherError::Bundle(m) && m@ == prefix@ + detail@ && has_prefix(m@, prefix@),
{
    let mut m: Vec<char> = Vec::new();
    push_lit(&mut m, prefix);
    push_str(&mut m, detail);
    assert((prefix@ + detail@).subrange(0, prefix@.len() as int) =~= prefix@);
    PatcherError::Bundle(string_of(&m))
}

/// Checks a bundle's control entries: the `mimetype` marker, and the
/// Ed25519 signature of `manifest.toml` under the key in `manifest.pubkey`.
/// Returns that key.
pub fn verify_manifest(mimetype: &[u8], manifest: &[u8], pubkey: &[u8], signature: &[u8]) -> (r: Result<[u8; 32], PatcherError>)
    ensures
        match r {
            Ok(key) => manifest_accepted(mimetype@, manifest@, pubkey@, signature@) && key@ == pubkey@,
            Err(e) => !manifest_accepted(mimetype@, manifest@, pubkey@, signature@) && manifest_refusal(
                e,
                mimetype@,
                manifest@,
                pubkey@,
                signature@,
            ),
        },
{
    let marker = chars_of(BUNDLE_MIMETYPE);
    if !bytes_spell(mimetype, &marker) {
        let mut m: Vec<char> = Vec::new();
        push_lit(&mut m, "invalid mimetype marker (expected ");
        extend(&mut m, &marker);
        push_lit(&mut m, ")");
        return Err(PatcherError::Bundle(string_of(&m)));
    }
    if pubkey.len() != 32 {
        return Err(PatcherError::Bundle(String::from_str("manifest.pubkey must be 32 bytes")));
    }
    let mut key: [u8; 32] = [0u8; 32];
    for i in 0..32
        invariant
            pubkey@.len() == 32,
            forall|k: int| 0 <= k < i ==> key@[k] == pubkey@[k],
    {
        key[i] = pubkey[i];
    }
    assert(key@ =~= pubkey@);
    let sig = match parse_signature(signature) {
        Ok(sig) => sig,
        Err(detail) => return Err(bundle_message("invalid Ed25519 signature: ", &detail)),
    };
    let public = match decode_public_key(&key) {
        Ok(k) => k,
        Err(detail) => return Err(bundle_message("invalid Ed25519 public key: ", &detail)),
    };
    if !verify_signature(&public, manifest, &sig) {
        return Err(PatcherError::Bundle(String::from_str("manifest signature verification failed")));
    }
    Ok(key)
}

/// Refuses a manifest in another format, or made for an engine this one
/// cannot run.
pub fn check_manifest(info: &BundleInfo) -> (r: Result<(), PatcherError>)
    ensures
        info.format_version != BUNDLE_FORMAT_VERSION ==> (r matches Err(PatcherError::Bundle(m)) && m@
            == "unsupported bundle format_version: "@ + decimal(info.format_version as nat)
            + " (patcher supports "@ + decimal(BUNDLE_FORMAT_VERSION as nat) + ")"@),
        info.format_version == BUNDLE_FORMAT_VERSION ==> match engine_refusal(*info, ENGINE_VERSION@) {
            None => r is Ok,
            Some(m) => r matches Err(PatcherError::Bundle(t)) && t@ == m,
        },
{
    if info.format_version != BUNDLE_FORMAT_VERSION {
        let mut m: Vec<char> = Vec::new();
        push_lit(&mut m, "unsupported bundle format_version: ");
        let v = decimal_chars(info.format_version as u64);
        extend(&mut m, &v);
        push_lit(&mut m, " (patcher supports ");
        let w = decimal_chars(BUNDLE_FORMAT_VERSION as u64);
        extend(&mut m, &w);
        push_lit(&mut m, ")");
        return Err(PatcherError::Bundle(string_of(&m)));
    }
    check_engine(info)
}

/// The names of a bundle's control entries.
pub open spec fn is_control(name: Seq<char>) -> bool {
    name == "mimetype"@ || name == "manifest.toml"@ || name == "manifest.pubkey"@ || name == "manifest.sig"@
}

/// Whether `name` is one of a bundle's control entries.
pub fn is_control_entry(name: &str) -> (r: bool)
    ensures
        r == is_control(name@),
{
    crate::text::str_eq(name, "mimetype") || crate::text::str_eq(name, "manifest.toml")
        || crate::text::str_eq(name, "manifest.pubkey") || crate::text::str_eq(name, "manifest.sig")
}

/// The entry is one of the four control entries every bundle carries:
/// `mimetype`, `manifest.toml`, `manifest.pubkey` or `manifest.sig`.
pub open spec fn named_as_control(e: ArchiveEntryView) -> bool {
    ||| e.name == "mimetype"@
    ||| e.name == "manifest.toml"@
    ||| e.name == "manifest.pubkey"@
    ||| e.name == "manifest.sig"@
}

proof fn lemma_prefix_counts(controls: Seq<ArchiveEntryView>, entries: Seq<ArchiveEntryView>, suffix: Seq<char>)
    requires
        forall|k: int| 0 <= k < controls.len() ==> named_as_control(#[trigger] controls[k]),
    ensures
        considered_count(controls + entries) == considered_count(entries),
        payload_names(controls + entries, suffix) == payload_names(entries, suffix),
    decreases controls.len() + entries.len(),
{
    if entries.len() > 0 {
        lemma_prefix_counts(controls, entries.drop_last(), suffix);
        assert((controls + entries).drop_last() =~= controls + entries.drop_last());
        assert((controls + entries).last() == entries.last());
    } else if controls.len() > 0 {
        let init = controls.drop_last();
        assert forall|k: int| 0 <= k < init.len() implies named_as_control(#[trigger] init[k]) by {
            assert(init[k] == controls[k]);
        }
        lemma_prefix_counts(init, entries, suffix);
        assert(controls + entries =~= controls);
        assert(init + entries =~= init);
        assert(named_as_control(controls[controls.len() - 1]));
        assert(!considered(controls.last()));
    } else {
        assert(controls + entries =~= entries);
    }
}

/// The control entries are never payload: an archive that starts with
/// entries named `mimetype`, `manifest.toml`, `manifest.pubkey` or
/// `manifest.sig` checks out against a file table exactly when the rest
/// does, and yields the same jars and extension DEX files.
pub proof fn lemma_control_entries_not_payload(
    files: Seq<(Seq<char>, Seq<char>)>,
    controls: Seq<ArchiveEntryView>,
    entries: Seq<ArchiveEntryView>,
)
    requires
        forall|k: int| 0 <= k < controls.len() ==> named_as_control(#[trigger] controls[k]),
    ensures
        payload_accepted(files, controls + entries) == payload_accepted(files, entries),
        payload_names(controls + entries, ".jar"@) == payload_names(entries, ".jar"@),
        payload_names(controls + entries, ".dex"@) == payload_names(entries, ".dex"@),
{
    lemma_prefix_counts(controls, entries, ".jar"@);
    lemma_prefix_counts(controls, entries, ".dex"@);
    let all = controls + entries;
    assert forall|k: int| 0 <= k < controls.len() implies #[trigger] entry_ok(files, all[k]) by {
        assert(all[k] == controls[k]);
        assert(named_as_control(controls[k]));
    }
    if forall|k: int| 0 <= k < entries.len() ==> #[trigger] entry_ok(files, entries[k]) {
        assert forall|k: int| 0 <= k < all.len() implies #[trigger] entry_ok(files, all[k]) by {
            if k >= controls.len() {
                assert(all[k] == entries[k - controls.len()]);
            }
        }
    }
    if forall|k: int| 0 <= k < all.len() ==> #[trigger] entry_ok(files, all[k]) {
        assert forall|k: int| 0 <= k < entries.len() implies #[trigger] entry_ok(files, entries[k]) by {
            assert(all[k + controls.len()] == entries[k]);
        }
    }
}

/// Payload files are patch jars and extension DEX files.
pub open spec fn is_payload_name(name: Seq<char>) -> bool {
    has_suffix(name, ".jar"@) || has_suffix(name, ".dex"@)
}

/// Whether `name` is a payload file.
pub fn is_payload(name: &str) -> (r: bool)
    ensures
        r == is_payload_name(name@),
{
    let c = chars_of(name);
    let jar = chars_of(".jar");
    let dex = chars_of(".dex");
    ends_with(&c, &jar) || ends_with(&c, &dex)
}

/// One entry of a bundle's zip, as read from it.
pub struct ArchiveEntry {
    pub name: String,
    pub is_dir: bool,
    pub contents: Vec<u8>,
}

/// What an archive entry holds.
pub struct ArchiveEntryView {
    pub name: Seq<char>,
    pub is_dir: bool,
    pub contents: Seq<u8>,
}

impl View for ArchiveEntry {
    type V = ArchiveEntryView;

    open spec fn view(&self) -> ArchiveEntryView {
        ArchiveEntryView { name: self.name@, is_dir: self.is_dir, contents: self.contents@ }
    }
}

/// The views of archive entries.
pub open spec fn archive_views(entries: Seq<ArchiveEntry>) -> Seq<ArchiveEntryView> {
    entries.map_values(|e: ArchiveEntry| e@)
}

/// The views of a manifest's file table.
pub open spec fn file_views(files: Seq<(String, String)>) -> Seq<(Seq<char>, Seq<char>)> {
    files.map_values(|f: (String, String)| (f.0@, f.1@))
}

/// The hash a file table declares for `name`.
pub open spec fn declared_hash(files: Seq<(Seq<char>, Seq<char>)>, name: Seq<char>) -> Option<Seq<char>>
    decreases files.len(),
{
    if files.len() == 0 {
        None
    } else if files[0].0 == name {
        Some(files[0].1)
    } else {
        declared_hash(files.drop_first(), name)
    }
}

/// The entry is payload the manifest must vouch for: a file, not a control entry.
pub open spec fn considered(e: ArchiveEntryView) -> bool {
    !e.is_dir && !is_control(e.name)
}

/// The entry passes: it is not payload, or the manifest declares it with
/// the hash of its contents.
pub open spec fn entry_ok(files: Seq<(Seq<char>, Seq<char>)>, e: ArchiveEntryView) -> bool {
    !considered(e) || declared_hash(files, e.name) == Some(hex_lower(sha256(e.contents)))
}

/// Why a payload entry does not pass.
pub open spec fn entry_failure_text(files: Seq<(Seq<char>, Seq<char>)>, e: ArchiveEntryView) -> Seq<char> {
    if declared_hash(files, e.name) is None {
        "file "@ + e.name + " is not declared in manifest [files]"@
    } else {
        "hash mismatch for "@ + e.name
    }
}

/// How many entries are payload.
pub open spec fn considered_count(entries: Seq<ArchiveEntryView>) -> nat
    decreases entries.len(),
{
    if entries.len() == 0 {
        0
    } else {
        considered_count(entries.drop_last()) + if considered(entries.last()) { 1nat } else { 0nat }
    }
}

/// The names of the payload entries ending in `suffix`, in archive order.
pub open spec fn payload_names(entries: Seq<ArchiveEntryView>, suffix: Seq<char>) -> Seq<Seq<char>>
    decreases entries.len(),
{
    if entries.len() == 0 {
        Seq::empty()
    } else if considered(entries.last()) && has_suffix(entries.last().name, suffix) {
        payload_names(entries.drop_last(), suffix).push(entries.last().name)
    } else {
        payload_names(entries.drop_last(), suffix)
    }
}

/// The payload a checked bundle extracts: patch jars and extension DEX
/// files, each list sorted.
#[derive(Debug)]
pub struct Payload {
    pub jars: Vec<String>,
    pub extension_dex: Vec<String>,
}

/// The payload entries check out: each is declared with the hash of its
/// contents, and every declared file is present.
pub open spec fn payload_accepted(files: Seq<(Seq<char>, Seq<char>)>, entries: Seq<ArchiveEntryView>) -> bool {
    (forall|k: int| 0 <= k < entries.len() ==> #[trigger] entry_ok(files, entries[k])) && considered_count(entries)
        == files.len()
}

/// The error for payload entries that do not check out: the first entry
/// failing, else the count of declared files not matching.
pub open spec fn payload_refusal(e: PatcherError, files: Seq<(Seq<char>, Seq<char>)>, entries: Seq<ArchiveEntryView>) -> bool {
    ||| exists|k: int|
        0 <= k < entries.len() && (forall|j: int| 0 <= j < k ==> #[trigger] entry_ok(files, entries[j])) && !entry_ok(
            files,
            entries[k],
        ) && (e matches PatcherError::Bundle(m) && m@ == entry_failure_text(files, entries[k]))
    ||| (forall|k: int| 0 <= k < entries.len() ==> #[trigger] entry_ok(files, entries[k])) && considered_count(entries)
        != files.len() && (e matches PatcherError::Bundle(m) && m@ == "manifest declares files missing from the archive"@)
}

fn declared_hash_of(files: &Vec<(String, String)>, name: &[char]) -> (r: Option<Vec<char>>)
    ensures
        match r {
            Some(h) => declared_hash(file_views(files@), name@) == Some(h@),
            None => declared_hash(file_views(files@), name@) is None,
        },
{
    let ghost fv = file_views(files@);
    let n = files.len();
    assert(fv.skip(0) =~= fv);
    for i in 0..n
        invariant
            n == files@.len(),
            fv == file_views(files@),
            declared_hash(fv, name@) == declared_hash(fv.skip(i as int), name@),
    {
        assert(fv.skip(i as int).drop_first() =~= fv.skip(i + 1));
        assert(fv.skip(i as int)[0] == fv[i as int]);
        let k = chars_of(files[i].0.as_str());
        if chars_eq(&k, name) {
            return Some(chars_of(files[i].1.as_str()));
        }
    }
    assert(fv.skip(n as int) =~= Seq::<(Seq<char>, Seq<char>)>::empty());
    None
}

/// Checks every payload entry of a bundle against its signed manifest and
/// names the files to extract.
pub fn check_payload(manifest: &BundleManifest, entries: &Vec<ArchiveEntry>) -> (r: Result<Payload, PatcherError>)
    ensures
        match r {
            Ok(p) => payload_accepted(file_views(manifest.files@), archive_views(entries@)) && crate::patch::string_views(
                p.jars@,
            ) == payload_names(archive_views(entries@), ".jar"@).sort_by(lex_le_fn()) && crate::patch::string_views(
                p.extension_dex@,
            ) == payload_names(archive_views(entries@), ".dex"@).sort_by(lex_le_fn()),
            Err(e) => payload_refusal(e, file_views(manifest.files@), archive_views(entries@)),
        },
{
    let ghost fv = file_views(manifest.files@);
    let ghost ev = archive_views(entries@);
    let mut jars: Vec<Vec<char>> = Vec::new();
    let mut dex: Vec<Vec<char>> = Vec::new();
    let mut seen: usize = 0;
    let n = entries.len();
    let jar_suffix = chars_of(".jar");
    let dex_suffix = chars_of(".dex");
    for k in 0..n
        invariant
            n == entries@.len(),
            fv == file_views(manifest.files@),
            ev == archive_views(entries@),
            jar_suffix@ == ".jar"@,
            dex_suffix@ == ".dex"@,
            forall|j: int| 0 <= j < k ==> #[trigger] entry_ok(fv, ev[j]),
            seen == considered_count(ev.take(k as int)),
            seen <= k,
            views(jars@) == payload_names(ev.take(k as int), ".jar"@),
            views(dex@) == payload_names(ev.take(k as int), ".dex"@),
    {
        let entry = &entries[k];
        assert(ev[k as int] == entry@);
        assert(ev.take(k + 1).drop_last() =~= ev.take(k as int));
        assert(ev.take(k + 1).last() == ev[k as int]);
        if !entry.is_dir && !is_control_entry(entry.name.as_str()) {
            let name = chars_of(entry.name.as_str());
            let expected = match declared_hash_of(&manifest.files, &name) {
                Some(h) => h,
                None => {
                    let mut m: Vec<char> = Vec::new();
                    push_lit(&mut m, "file ");
                    extend(&mut m, &name);
                    push_lit(&mut m, " is not declared in manifest [files]");
                    assert(!entry_ok(fv, ev[k as int]));
                    assert(m@ =~= entry_failure_text(fv, ev[k as int]));
                    return Err(PatcherError::Bundle(string_of(&m)));
                },
            };
            let digest = sha256_digest(entry.contents.as_slice());
            let actual = hex_encode(digest.as_slice());
            let ac = chars_of(actual.as_str());
            if !chars_eq(&ac, &expected) {
                let mut m: Vec<char> = Vec::new();
                push_lit(&mut m, "hash mismatch for ");
                extend(&mut m, &name);
                assert(!entry_ok(fv, ev[k as int]));
                assert(m@ =~= entry_failure_text(fv, ev[k as int]));
                return Err(PatcherError::Bundle(string_of(&m)));
            }
            seen = seen + 1;
            if ends_with(&name, &jar_suffix) {
                jars.push(name);
            } else if ends_with(&name, &dex_suffix) {
                dex.push(name);
            }
            proof {
                assert(!(has_suffix(name@, ".jar"@) && has_suffix(name@, ".dex"@))) by {
                    reveal_strlit(".jar");
                    reveal_strlit(".dex");
                    if has_suffix(name@, ".jar"@) && has_suffix(name@, ".dex"@) {
                        let t = name@.subrange(name@.len() - 4, name@.len() as int);
                        assert(t == ".jar"@);
                        assert(t == ".dex"@);
                        assert(t[1] == 'j');
                        assert(t[1] == 'd');
                    }
                }
            }
        }
    }
    assert(ev.take(n as int) =~= ev);
    if seen != manifest.files.len() {
        return Err(PatcherError::Bundle(String::from_str("manifest declares files missing from the archive")));
    }
    let sorted_jars = sort_texts(jars);
    let sorted_dex = sort_texts(dex);
    let mut jar_names: Vec<String> = Vec::new();
    let mut dex_names: Vec<String> = Vec::new();
    let nj = sorted_jars.len();
    for i in 0..nj
        invariant
            nj == sorted_jars@.len(),
            jar_names@.len() == i,
            forall|q: int| 0 <= q < i ==> #[trigger] jar_names@[q]@ == sorted_jars@[q]@,
    {
        jar_names.push(string_of(&sorted_jars[i]));
    }
    let nd = sorted_dex.len();
    for i in 0..nd
        invariant
            nd == sorted_dex@.len(),
            dex_names@.len() == i,
            forall|q: int| 0 <= q < i ==> #[trigger] dex_names@[q]@ == sorted_dex@[q]@,
    {
        dex_names.push(string_of(&sorted_dex[i]));
    }
    assert(crate::patch::string_views(jar_names@) =~= views(sorted_jars@));
    assert(crate::patch::string_views(dex_names@) =~= views(sorted_dex@));
    Ok(Payload { jars: jar_names, extension_dex: dex_names })
}


impl BundleInspection {
    /// What inspecting a bundle with this manifest and key reports.
    pub fn new(info: BundleInfo, public_key: [u8; 32]) -> (r: Self)
        ensures
            r.name@ == info.name@,
            r.author@ == info.author@,
            r.description@ == info.description@,
            r.public_key@ == public_key@,
    {
        BundleInspection { name: info.name, author: info.author, description: info.description, public_key }
    }
}

/// The manifest file table for a payload: each file with the hex SHA-256 of
/// its contents.
pub fn payload_hashes(payload: &Vec<(String, Vec<u8>)>) -> (r: Vec<(String, String)>)
    ensures
        r@.len() == payload@.len(),
        forall|i: int| 0 <= i < r@.len() ==> (#[trigger] r@[i]).0@ == payload@[i].0@ && r@[i].1@ == hex_lower(sha256(payload@[i].1@)),
{
    let mut out: Vec<(String, String)> = Vec::new();
    let n = payload.len();
    for i in 0..n
        invariant
            n == payload@.len(),
            out@.len() == i,
            forall|k: int| 0 <= k < i ==> (#[trigger] out@[k]).0@ == payload@[k].0@ && out@[k].1@ == hex_lower(sha256(payload@[k].1@)),
    {
        let digest = sha256_digest(payload[i].1.as_slice());
        let hex = hex_encode(digest.as_slice());
        out.push((payload[i].0.clone(), hex));
    }
    out
}

/// Refuses to pack a manifest in another format than this build writes.
pub fn check_pack_format(info: &BundleInfo) -> (r: Result<(), PatcherError>)
    ensures
        info.format_version == BUNDLE_FORMAT_VERSION ==> r is Ok,
        info.format_version != BUNDLE_FORMAT_VERSION ==> (r matches Err(PatcherError::Bundle(m)) && m@
            == "unsupported format_version "@ + decimal(info.format_version as nat) + " (this build packs "@
            + decimal(BUNDLE_FORMAT_VERSION as nat) + ")"@),
{
    if info.format_version == BUNDLE_FORMAT_VERSION {
        return Ok(());
    }
    let mut m: Vec<char> = Vec::new();
    push_lit(&mut m, "unsupported format_version ");
    let v = decimal_chars(info.format_version as u64);
    extend(&mut m, &v);
    push_lit(&mut m, " (this build packs ");
    let w = decimal_chars(BUNDLE_FORMAT_VERSION as u64);
    extend(&mut m, &w);
    push_lit(&mut m, ")");
    Err(PatcherError::Bundle(string_of(&m)))
}

/// A jar entry holding JVM bytecode: a class file outside `META-INF/`.
pub open spec fn is_class_entry(name: Seq<char>) -> bool {
    has_suffix(name, ".class"@) && !has_prefix(name, "META-INF/"@)
}

/// A jar entry holding Android bytecode: `classes*.dex`.
pub open spec fn is_dex_entry(name: Seq<char>) -> bool {
    has_prefix(name, "classes"@) && has_suffix(name, ".dex"@)
}

/// Refuses a patch jar that does not carry both JVM classes and
/// `classes.dex`, so that one bundle runs on the desktop JVM and on ART.
pub fn check_universal_jar(name: &str, entries: &Vec<String>) -> (r: Result<(), PatcherError>)
    ensures
        match universal_jar_refusal(name@, crate::patch::string_views(entries@)) {
            Some(m) => r matches Err(PatcherError::Bundle(t)) && t@ == m,
            None => r is Ok,
        },
{
    let ghost names = crate::patch::string_views(entries@);
    let class_suffix = chars_of(".class");
    let meta = chars_of("META-INF/");
    let classes = chars_of("classes");
    let dex_suffix = chars_of(".dex");
    let mut has_class = false;
    let mut has_dex = false;
    let n = entries.len();
    for k in 0..n
        invariant
            n == entries@.len(),
            names == crate::patch::string_views(entries@),
            class_suffix@ == ".class"@,
            meta@ == "META-INF/"@,
            classes@ == "classes"@,
            dex_suffix@ == ".dex"@,
            has_class == exists|j: int| 0 <= j < k && is_class_entry(#[trigger] names[j]),
            has_dex == exists|j: int| 0 <= j < k && is_dex_entry(#[trigger] names[j]),
    {
        let e = chars_of(entries[k].as_str());
        assert(e@ == names[k as int]);
        let class = ends_with(&e, &class_suffix) && !starts_with(&e, &meta);
        let dex = starts_with(&e, &classes) && ends_with(&e, &dex_suffix);
        assert(class == is_class_entry(names[k as int]));
        assert(dex == is_dex_entry(names[k as int]));
        has_class = has_class || class;
        has_dex = has_dex || dex;
    }
    let mut m: Vec<char> = Vec::new();
    push_lit(&mut m, name);
    if !has_class {
        push_lit(&mut m, " is missing JVM .class files");
        return Err(PatcherError::Bundle(string_of(&m)));
    }
    if !has_dex {
        push_lit(&mut m, " is missing classes.dex; build patch jars as universal JVM/Android jars");
        return Err(PatcherError::Bundle(string_of(&m)));
    }
    Ok(())
}

/// Why `check_universal_jar` refuses a jar named `name` whose entries are
/// `names`: no JVM class, else no `classes*.dex`.
pub open spec fn universal_jar_refusal(name: Seq<char>, names: Seq<Seq<char>>) -> Option<Seq<char>> {
    if !(exists|k: int| 0 <= k < names.len() && is_class_entry(#[trigger] names[k])) {
        Some(name + " is missing JVM .class files"@)
    } else if !(exists|k: int| 0 <= k < names.len() && is_dex_entry(#[trigger] names[k])) {
        Some(name + " is missing classes.dex; build patch jars as universal JVM/Android jars"@)
    } else {
        None
    }
}

#[verifier::external_type_specification]
#[verifier::external_body]
#[verifier::reject_recursive_types(T)]
pub struct ExCursor<T>(std::io::Cursor<T>);

#[verifier::external_type_specification]
#[verifier::external_body]
#[verifier::reject_recursive_types(R)]
pub struct ExZipArchive<R>(zip::ZipArchive<R>);

/// Whether `jar` is a zip archive: its central directory reads.
pub uninterp spec fn zip_opens(jar: Seq<u8>) -> bool;

/// The names of the entries the zip archive `jar` holds, in the order of
/// its central directory.
pub uninterp spec fn zip_entry_names(jar: Seq<u8>) -> Seq<Seq<char>>;

/// Whether entry `index` of the zip archive `jar` opens for reading.
pub uninterp spec fn zip_entry_opens(jar: Seq<u8>, index: int) -> bool;

/// The bytes an archive reads from.
pub uninterp spec fn archive_bytes(archive: zip::ZipArchive<std::io::Cursor<Vec<u8>>>) -> Seq<u8>;

/// `ZipArchive::new` (zip) over a copy of the bytes: succeeds exactly when
/// they are a zip archive. The error is rendered as text; what it says is
/// not stated.
#[verifier::external_body]
fn open_zip(jar: &[u8]) -> (r: Result<zip::ZipArchive<std::io::Cursor<Vec<u8>>>, String>)
    ensures
        r is Ok == zip_opens(jar@),
        r matches Ok(a) ==> archive_bytes(a) == jar@,
{
    match zip::ZipArchive::new(std::io::Cursor::new(jar.to_vec())) {
        Ok(archive) => Ok(archive),
        Err(error) => Err(error.to_string()),
    }
}

/// `ZipArchive::len` (zip): how many entries the central directory lists.
#[verifier::external_body]
fn zip_len(archive: &zip::ZipArchive<std::io::Cursor<Vec<u8>>>) -> (r: usize)
    ensures
        r == zip_entry_names(archive_bytes(*archive)).len(),
{
    archive.len()
}

/// `ZipArchive::by_index` then `ZipFile::name` (zip): opens entry `index`
/// and gives its name. Reading moves the archive's cursor only, not the
/// bytes it reads. The error is rendered as text; what it says is not
/// stated.
#[verifier::external_body]
fn zip_entry_name(archive: &mut zip::ZipArchive<std::io::Cursor<Vec<u8>>>, index: usize) -> (r: Result<String, String>)
    requires
        index < zip_entry_names(archive_bytes(*old(archive))).len(),
    ensures
        archive_bytes(*final(archive)) == archive_bytes(*old(archive)),
        r is Ok == zip_entry_opens(archive_bytes(*old(archive)), index as int),
        r matches Ok(n) ==> n@ == zip_entry_names(archive_bytes(*old(archive)))[index as int],
{
    match archive.by_index(index) {
        Ok(entry) => Ok(entry.name().to_string()),
        Err(error) => Err(error.to_string()),
    }
}

/// Every one of the first `k` entries of `jar` opens.
pub open spec fn entries_open_upto(jar: Seq<u8>, k: int) -> bool {
    forall|j: int| 0 <= j < k ==> zip_entry_opens(jar, j)
}

/// Refuses a patch jar, given by its name and bytes, that is not a zip
/// archive, has an entry that does not open, or does not carry both JVM
/// classes and `classes.dex`.
pub fn check_jar(name: &str, jar: &[u8]) -> (r: Result<(), PatcherError>)
    ensures
        !zip_opens(jar@) ==> (r matches Err(PatcherError::Bundle(m)) && has_prefix(m@, name@ + " is not a valid jar: "@)),
        zip_opens(jar@) && !entries_open_upto(jar@, zip_entry_names(jar@).len() as int) ==> exists|k: int|
            0 <= k < zip_entry_names(jar@).len() && entries_open_upto(jar@, k) && !zip_entry_opens(jar@, k) && (r matches Err(
                PatcherError::Bundle(m),
            ) && has_prefix(m@, "zip entry "@ + decimal(k as nat) + ": "@)),
        zip_opens(jar@) && entries_open_upto(jar@, zip_entry_names(jar@).len() as int) ==> match universal_jar_refusal(
            name@,
            zip_entry_names(jar@),
        ) {
            Some(m) => r matches Err(PatcherError::Bundle(t)) && t@ == m,
            None => r is Ok,
        },
{
    let mut archive = match open_zip(jar) {
        Ok(a) => a,
        Err(detail) => {
            let mut m: Vec<char> = Vec::new();
            push_lit(&mut m, name);
            push_lit(&mut m, " is not a valid jar: ");
            push_str(&mut m, &detail);
            assert((name@ + " is not a valid jar: "@ + detail@).subrange(0, (name@ + " is not a valid jar: "@).len() as int)
                =~= name@ + " is not a valid jar: "@);
            return Err(PatcherError::Bundle(string_of(&m)));
        },
    };
    let ghost names = zip_entry_names(jar@);
    let n = zip_len(&archive);
    let mut entries: Vec<String> = Vec::new();
    for index in 0..n
        invariant
            n == names.len(),
            archive_bytes(archive) == jar@,
            zip_opens(jar@),
            names == zip_entry_names(jar@),
            entries@.len() == index,
            forall|q: int| 0 <= q < index ==> #[trigger] entries@[q]@ == names[q],
            entries_open_upto(jar@, index as int),
    {
        match zip_entry_name(&mut archive, index) {
            Ok(entry) => {
                entries.push(entry);
            },
            Err(detail) => {
                let mut m: Vec<char> = Vec::new();
                push_lit(&mut m, "zip entry ");
                let d = decimal_chars(index as u64);
                extend(&mut m, &d);
                push_lit(&mut m, ": ");
                push_str(&mut m, &detail);
                let ghost p = "zip entry "@ + decimal(index as nat) + ": "@;
                assert((p + detail@).subrange(0, p.len() as int) =~= p);
                assert(m@ =~= p + detail@);
                assert(!entries_open_upto(jar@, names.len() as int));
                let text = string_of(&m);
                assert(has_prefix(text@, p));
                assert(0 <= index < names.len() && entries_open_upto(jar@, index as int) && !zip_entry_opens(jar@, index as int));
                return Err(PatcherError::Bundle(text));
            },
        }
    }
    assert(crate::patch::string_views(entries@) =~= names);
    check_universal_jar(name, &entries)
}

/// The manifest a bundle is packed with: the bundle's description with the
/// engine set to this one, and the file table of the payload read from
/// `dir`. A payload with no file is refused.
pub fn pack_manifest(info: &BundleInfo, dir: &str, payload: &Vec<(String, Vec<u8>)>) -> (r: Result<BundleManifest, PatcherError>)
    ensures
        match r {
            Ok(m) => {
                &&& payload@.len() > 0
                &&& m.bundle.name@ == info.name@
                &&& m.bundle.author@ == info.author@
                &&& m.bundle.description@ == info.description@
                &&& m.bundle.format_version == info.format_version
                &&& m.bundle.engine@ == ENGINE_VERSION@
                &&& m.files@.len() == payload@.len()
                &&& forall|i: int|
                    0 <= i < payload@.len() ==> (#[trigger] m.files@[i]).0@ == payload@[i].0@ && m.files@[i].1@
                        == hex_lower(sha256(payload@[i].1@))
            },
            Err(e) => payload@.len() == 0 && (e matches PatcherError::Bundle(t) && t@ == "no .jar or .dex files in "@
                + dir@),
        },
{
    if payload.len() == 0 {
        let mut m: Vec<char> = Vec::new();
        push_lit(&mut m, "no .jar or .dex files in ");
        push_lit(&mut m, dir);
        return Err(PatcherError::Bundle(string_of(&m)));
    }
    let files = payload_hashes(payload);
    let bundle = BundleInfo {
        name: info.name.clone(),
        author: info.author.clone(),
        description: info.description.clone(),
        format_version: info.format_version,
        engine: String::from_str(ENGINE_VERSION),
    };
    Ok(BundleManifest { bundle, files })
}

/// Signs a bundle's manifest with a secret key: the key's public key and
/// the signature, as `manifest.pubkey` and `manifest.sig` carry them. A
/// bundle packed with them passes `verify_manifest`.
pub fn sign_bundle_manifest(secret: &[u8; 32], manifest: &[u8]) -> (r: ([u8; 32], [u8; 64]))
    ensures
        r.0@ == ed25519_public_key(secret@),
        r.1@ == ed25519_signature(secret@, manifest@),
        manifest_accepted(ascii_bytes(BUNDLE_MIMETYPE@), manifest@, r.0@, r.1@),
{
    let public = public_key_of(secret);
    let signature = sign_message(secret, manifest);
    (public, signature)
}

} // verus!
