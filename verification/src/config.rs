//! What the tool decides about Cursor's configuration: fresh identifiers,
//! where the file lives, when its text stands for an empty configuration,
//! and how a backup copy is named.

use rand::Rng;
use vstd::prelude::*;

use crate::models::{ConfigFile, StorageConfig};
use crate::text::{ascii_uppercase, joined, hex_id, hex_lower, is_blank, is_white_space, nibble_char, upper_ascii};

verus! {

/// The operating systems whose conventions the tool follows.
pub enum TargetOs {
    Windows,
    MacOs,
    /// Linux and the other Unix-like systems.
    Other,
}

/// Where `storage.json` lies below the user's home directory.
pub open spec fn config_path_spec(os: TargetOs) -> Seq<Seq<char>> {
    match os {
        TargetOs::Windows => seq![
            "AppData"@,
            "Roaming"@,
            "Cursor"@,
            "User"@,
            "globalStorage"@,
            "storage.json"@,
        ],
        TargetOs::MacOs => seq!["Library"@, "Application Support"@, "Cursor"@, "storage.json"@],
        TargetOs::Other => seq![".config"@, "Cursor"@, "storage.json"@],
    }
}

/// The path components, below the home directory, of Cursor's
/// `storage.json` on the given system.
pub fn config_path_components(os: TargetOs) -> (res: Vec<String>)
    ensures
        res@.map_values(|c: String| c@) == config_path_spec(os),
{
    let mut res: Vec<String> = Vec::new();
    match os {
        TargetOs::Windows => {
            res.push(String::from_str("AppData"));
            res.push(String::from_str("Roaming"));
            res.push(String::from_str("Cursor"));
            res.push(String::from_str("User"));
            res.push(String::from_str("globalStorage"));
            res.push(String::from_str("storage.json"));
        },
        TargetOs::MacOs => {
            res.push(String::from_str("Library"));
            res.push(String::from_str("Application Support"));
            res.push(String::from_str("Cursor"));
            res.push(String::from_str("storage.json"));
        },
        TargetOs::Other => {
            res.push(String::from_str(".config"));
            res.push(String::from_str("Cursor"));
            res.push(String::from_str("storage.json"));
        },
    }
    assert(res@.map_values(|c: String| c@) =~= config_path_spec(os));
    res
}

/// Text made of white space alone (nothing left after trimming).
pub open spec fn is_blank_text(t: Seq<char>) -> bool {
    forall|i: int| 0 <= i < t.len() ==> is_white_space(#[trigger] t[i])
}

/// What the text of the configuration file stands for before any JSON is
/// read: a blank file is the empty configuration (`Some`); any other text
/// is to be parsed (`None`).
pub fn read_config_contents(contents: &str) -> (res: Option<ConfigFile>)
    ensures
        res is Some <==> is_blank_text(contents@),
        res matches Some(c) ==> c.is_empty_config(),
{
    if is_blank(contents) {
        Some(ConfigFile::empty())
    } else {
        None
    }
}

/// The extension given to the backup copy of the configuration file,
/// `json.` followed by the time stamp, so that `storage.json` is copied to
/// `storage.json.<stamp>`.
pub fn backup_extension(stamp: &str) -> (res: String)
    ensures
        res@ == "json."@ + stamp@,
{
    joined("json.", stamp)
}

/// Thirty-two bytes drawn from the thread-local generator of `rand`
/// (`rand::thread_rng` and `Rng::fill`). The bytes are random: nothing is
/// promised of them but their number. The call panics only where the
/// operating system's generator fails.
#[verifier::external_body]
fn random_bytes_32() -> (res: Vec<u8>)
    ensures
        res@.len() == 32,
{
    let mut bytes = [0u8; 32];
    rand::thread_rng().fill(&mut bytes);
    bytes.to_vec()
}

/// A random UUID (`uuid::Uuid::new_v4`), as its sixteen bytes. Of every
/// outcome the crate's source shows that the version nibble (the high half
/// of byte 6) is 4 and that the two top bits of byte 8 are `10`; the rest is
/// random.
#[verifier::external_body]
fn new_v4_bytes() -> (res: Vec<u8>)
    ensures
        is_random_uuid(res@),
{
    uuid::Uuid::new_v4().as_bytes().to_vec()
}

/// The text form of a UUID (`uuid::Uuid::from_slice`, then `to_string`):
/// the crate writes the sixteen bytes as lowercase hexadecimal in groups of
/// 4, 2, 2, 2 and 6 bytes joined by hyphens.
#[verifier::external_body]
fn uuid_hyphenated(bytes: &[u8]) -> (res: String)
    requires
        bytes@.len() == 16,
    ensures
        res@ == uuid_text(bytes@),
{
    uuid::Uuid::from_slice(bytes).unwrap().to_string()
}

/// Sixteen bytes with the version and variant bits of a random (version 4)
/// UUID.
pub open spec fn is_random_uuid(b: Seq<u8>) -> bool {
    &&& b.len() == 16
    &&& b[6] / 16 == 4
    &&& b[8] / 64 == 2
}

/// The hyphenated lowercase text of a UUID given by its sixteen bytes.
pub open spec fn uuid_text(b: Seq<u8>) -> Seq<char> {
    hex_lower(b.subrange(0, 4)) + seq!['-'] + hex_lower(b.subrange(4, 6)) + seq!['-']
        + hex_lower(b.subrange(6, 8)) + seq!['-'] + hex_lower(b.subrange(8, 10)) + seq!['-']
        + hex_lower(b.subrange(10, 16))
}

/// The SQM identifier made from a UUID: its text in uppercase, in braces.
pub open spec fn sqm_text(b: Seq<u8>) -> Seq<char> {
    seq!['{'] + uuid_text(b).map_values(|c: char| upper_ascii(c)) + seq!['}']
}

/// A machine identifier: the lowercase hexadecimal text of 32 bytes.
pub open spec fn is_machine_id(t: Seq<char>) -> bool {
    exists|b: Seq<u8>| b.len() == 32 && #[trigger] hex_lower(b) == t
}

/// A device identifier: the text of a random UUID.
pub open spec fn is_device_id(t: Seq<char>) -> bool {
    exists|b: Seq<u8>| is_random_uuid(b) && #[trigger] uuid_text(b) == t
}

/// An SQM identifier: the uppercase text of a random UUID, in braces.
pub open spec fn is_sqm_id(t: Seq<char>) -> bool {
    exists|b: Seq<u8>| is_random_uuid(b) && #[trigger] sqm_text(b) == t
}

/// The old configuration holds an SQM identifier worth keeping.
pub open spec fn keeps_sqm_id(old: Option<ConfigFile>) -> bool {
    match old {
        Some(o) => o.telemetry_sqm_id@.len() > 0,
        None => false,
    }
}

/// Identifiers as `generate_new_config` makes them from the old
/// configuration: two machine identifiers, a device identifier, and the old
/// SQM identifier where it is not empty, a fresh one otherwise.
pub open spec fn is_fresh_config(old: Option<ConfigFile>, ids: (Seq<char>, Seq<char>, Seq<char>, Seq<char>)) -> bool {
    &&& is_machine_id(ids.0)
    &&& is_machine_id(ids.1)
    &&& is_device_id(ids.2)
    &&& keeps_sqm_id(old) ==> ids.3 == old->Some_0.telemetry_sqm_id@
    &&& !keeps_sqm_id(old) ==> is_sqm_id(ids.3)
}

/// The SQM identifier of the old configuration, where it is not empty.
pub fn retained_sqm_id(old: &Option<ConfigFile>) -> (res: Option<String>)
    ensures
        res is Some <==> keeps_sqm_id(*old),
        res matches Some(s) ==> s@ == old->Some_0.telemetry_sqm_id@,
{
    match old {
        Some(o) => {
            if o.telemetry_sqm_id.as_str().is_empty() {
                None
            } else {
                Some(o.telemetry_sqm_id.clone())
            }
        },
        None => None,
    }
}

/// The SQM identifier made from the sixteen bytes of a UUID.
pub fn sqm_id_from_uuid(bytes: &[u8]) -> (res: String)
    requires
        bytes@.len() == 16,
    ensures
        res@ == sqm_text(bytes@),
{
    let text = uuid_hyphenated(bytes);
    let upper = ascii_uppercase(text.as_str());
    let braced = joined("{", upper.as_str());
    let res = joined(braced.as_str(), "}");
    proof {
        reveal_strlit("{");
        reveal_strlit("}");
    }
    res
}

/// The identifiers made from given random material: the hexadecimal text of
/// the two byte strings, the text of the device UUID, and the SQM
/// identifier as given.
pub fn config_from_random(machine_bytes: &[u8], mac_bytes: &[u8], device_uuid: &[u8], sqm_id: String) -> (res: StorageConfig)
    requires
        device_uuid@.len() == 16,
    ensures
        res@ == (hex_lower(machine_bytes@), hex_lower(mac_bytes@), uuid_text(device_uuid@), sqm_id@),
{
    StorageConfig {
        telemetry_machine_id: hex_id(machine_bytes),
        telemetry_mac_machine_id: hex_id(mac_bytes),
        telemetry_dev_device_id: uuid_hyphenated(device_uuid),
        telemetry_sqm_id: sqm_id,
    }
}

/// Fresh identifiers for Cursor: two machine identifiers of 64 random
/// lowercase hexadecimal digits, a random device UUID, and an SQM identifier
/// that is kept from the old configuration where it is not empty and is
/// otherwise a fresh random UUID in uppercase and in braces.
pub fn generate_new_config(old_config: Option<ConfigFile>) -> (res: StorageConfig)
    ensures
        is_fresh_config(old_config, res@),
        res.telemetry_machine_id@.len() == 64,
        res.telemetry_mac_machine_id@.len() == 64,
        forall|i: int| 0 <= i < 64 ==> is_lower_hex_digit(#[trigger] res.telemetry_machine_id@[i]),
        forall|i: int| 0 <= i < 64 ==> is_lower_hex_digit(#[trigger] res.telemetry_mac_machine_id@[i]),
        res.telemetry_dev_device_id@.len() == 36,
        res.telemetry_dev_device_id@[14] == '4',
        old_config is Some && old_config->Some_0.telemetry_sqm_id@.len() > 0 ==> res.telemetry_sqm_id@
            == old_config->Some_0.telemetry_sqm_id@,
        !(old_config is Some && old_config->Some_0.telemetry_sqm_id@.len() > 0) ==> res.telemetry_sqm_id@.len() == 38
            && res.telemetry_sqm_id@[0] == '{' && res.telemetry_sqm_id@[37] == '}' && res.telemetry_sqm_id@[15] == '4',
{
    let machine_bytes = random_bytes_32();
    let mac_bytes = random_bytes_32();
    let device_bytes = new_v4_bytes();
    let telemetry_sqm_id = match retained_sqm_id(&old_config) {
        Some(kept) => kept,
        None => {
            let sqm_bytes = new_v4_bytes();
            let fresh = sqm_id_from_uuid(sqm_bytes.as_slice());
            assert(sqm_text(sqm_bytes@) == fresh@);
            fresh
        },
    };
    let res = config_from_random(machine_bytes.as_slice(), mac_bytes.as_slice(), device_bytes.as_slice(), telemetry_sqm_id);
    assert(hex_lower(machine_bytes@) == res.telemetry_machine_id@);
    assert(hex_lower(mac_bytes@) == res.telemetry_mac_machine_id@);
    assert(uuid_text(device_bytes@) == res.telemetry_dev_device_id@);
    proof {
        lemma_machine_id_shape(res.telemetry_machine_id@);
        lemma_machine_id_shape(res.telemetry_mac_machine_id@);
        lemma_device_id_shape(res.telemetry_dev_device_id@);
        if !keeps_sqm_id(old_config) {
            lemma_sqm_id_shape(res.telemetry_sqm_id@);
        }
    }
    res
}

/// A lowercase hexadecimal digit.
pub open spec fn is_lower_hex_digit(c: char) -> bool {
    ('0' <= c && c <= '9') || ('a' <= c && c <= 'f')
}

/// An uppercase hexadecimal digit.
pub open spec fn is_upper_hex_digit(c: char) -> bool {
    ('0' <= c && c <= '9') || ('A' <= c && c <= 'F')
}

proof fn lemma_nibble_char_is_hex(n: int)
    requires
        0 <= n < 16,
    ensures
        is_lower_hex_digit(nibble_char(n)),
        is_upper_hex_digit(upper_ascii(nibble_char(n))),
{
}

proof fn lemma_hex_lower_digits(b: Seq<u8>)
    ensures
        hex_lower(b).len() == 2 * b.len(),
        forall|i: int| 0 <= i < 2 * b.len() ==> is_lower_hex_digit(#[trigger] hex_lower(b)[i]),
        forall|i: int| 0 <= i < 2 * b.len() ==> is_upper_hex_digit(upper_ascii(#[trigger] hex_lower(b)[i])),
{
    assert forall|i: int| 0 <= i < 2 * b.len() implies is_lower_hex_digit(#[trigger] hex_lower(b)[i])
        && is_upper_hex_digit(upper_ascii(hex_lower(b)[i])) by {
        if i % 2 == 0 {
            lemma_nibble_char_is_hex((b[i / 2] / 16) as int);
        } else {
            lemma_nibble_char_is_hex((b[i / 2] % 16) as int);
        }
    }
}

/// Every machine identifier is 64 lowercase hexadecimal digits (32 bytes,
/// two digits each).
pub proof fn lemma_machine_id_shape(t: Seq<char>)
    requires
        is_machine_id(t),
    ensures
        t.len() == 64,
        forall|i: int| 0 <= i < 64 ==> is_lower_hex_digit(#[trigger] t[i]),
{
    let b = choose|b: Seq<u8>| b.len() == 32 && #[trigger] hex_lower(b) == t;
    lemma_hex_lower_digits(b);
}

/// The positions of the four hyphens in the text of a UUID.
pub open spec fn is_uuid_hyphen_position(i: int) -> bool {
    i == 8 || i == 13 || i == 18 || i == 23
}

/// Every device identifier is a UUID of version 4 in hyphenated lowercase
/// form: 36 characters, hyphens at positions 8, 13, 18 and 23, lowercase
/// hexadecimal digits elsewhere, the version digit `4` at position 14 and a
/// variant digit among `8`, `9`, `a`, `b` at position 19.
pub proof fn lemma_device_id_shape(t: Seq<char>)
    requires
        is_device_id(t),
    ensures
        t.len() == 36,
        forall|i: int| 0 <= i < 36 && is_uuid_hyphen_position(i) ==> #[trigger] t[i] == '-',
        forall|i: int| 0 <= i < 36 && !is_uuid_hyphen_position(i) ==> is_lower_hex_digit(#[trigger] t[i]),
        t[14] == '4',
        t[19] == '8' || t[19] == '9' || t[19] == 'a' || t[19] == 'b',
{
    let b = choose|b: Seq<u8>| is_random_uuid(b) && #[trigger] uuid_text(b) == t;
    lemma_uuid_text_shape(b);
}

proof fn lemma_uuid_text_shape(b: Seq<u8>)
    requires
        is_random_uuid(b),
    ensures
        uuid_text(b).len() == 36,
        forall|i: int| 0 <= i < 36 && is_uuid_hyphen_position(i) ==> #[trigger] uuid_text(b)[i] == '-',
        forall|i: int| 0 <= i < 36 && !is_uuid_hyphen_position(i) ==> is_lower_hex_digit(#[trigger] uuid_text(b)[i]),
        forall|i: int| 0 <= i < 36 && !is_uuid_hyphen_position(i) ==> is_upper_hex_digit(upper_ascii(#[trigger] uuid_text(b)[i])),
        uuid_text(b)[14] == '4',
        uuid_text(b)[19] == '8' || uuid_text(b)[19] == '9' || uuid_text(b)[19] == 'a' || uuid_text(b)[19] == 'b',
{
    let g0 = b.subrange(0, 4);
    let g1 = b.subrange(4, 6);
    let g2 = b.subrange(6, 8);
    let g3 = b.subrange(8, 10);
    let g4 = b.subrange(10, 16);
    lemma_hex_lower_digits(g0);
    lemma_hex_lower_digits(g1);
    lemma_hex_lower_digits(g2);
    lemma_hex_lower_digits(g3);
    lemma_hex_lower_digits(g4);
    let t = uuid_text(b);
    assert forall|i: int| 0 <= i < 36 implies (is_uuid_hyphen_position(i) ==> #[trigger] t[i] == '-')
        && (!is_uuid_hyphen_position(i) ==> is_lower_hex_digit(t[i]) && is_upper_hex_digit(upper_ascii(t[i]))) by {
        if i < 8 {
            assert(t[i] == hex_lower(g0)[i]);
        } else if i == 8 {
        } else if i < 13 {
            assert(t[i] == hex_lower(g1)[i - 9]);
        } else if i == 13 {
        } else if i < 18 {
            assert(t[i] == hex_lower(g2)[i - 14]);
        } else if i == 18 {
        } else if i < 23 {
            assert(t[i] == hex_lower(g3)[i - 19]);
        } else if i == 23 {
        } else {
            assert(t[i] == hex_lower(g4)[i - 24]);
        }
    }
    assert(t[14] == hex_lower(g2)[0]);
    assert(t[19] == hex_lower(g3)[0]);
    assert(g3[0] == b[8]);
    assert(b[8] / 16 == 8 || b[8] / 16 == 9 || b[8] / 16 == 10 || b[8] / 16 == 11);
}

/// Every SQM identifier is an uppercase version-4 UUID in braces: 38
/// characters, `{` first and `}` last, hyphens at positions 9, 14, 19 and
/// 24, uppercase hexadecimal digits elsewhere, the version digit `4` at
/// position 15 and a variant digit among `8`, `9`, `A`, `B` at position 20.
pub proof fn lemma_sqm_id_shape(t: Seq<char>)
    requires
        is_sqm_id(t),
    ensures
        t.len() == 38,
        t[0] == '{',
        t[37] == '}',
        forall|i: int| 1 <= i < 37 && is_uuid_hyphen_position(i - 1) ==> #[trigger] t[i] == '-',
        forall|i: int| 1 <= i < 37 && !is_uuid_hyphen_position(i - 1) ==> is_upper_hex_digit(#[trigger] t[i]),
        t[15] == '4',
        t[20] == '8' || t[20] == '9' || t[20] == 'A' || t[20] == 'B',
{
    let b = choose|b: Seq<u8>| is_random_uuid(b) && #[trigger] sqm_text(b) == t;
    lemma_uuid_text_shape(b);
    let u = uuid_text(b);
    assert forall|i: int| 1 <= i < 37 implies #[trigger] t[i] == upper_ascii(u[i - 1]) by {}
    assert(t[15] == upper_ascii(u[14]));
    assert(t[20] == upper_ascii(u[19]));
}

proof fn lemma_nibble_char_injective(m: int, n: int)
    requires
        0 <= m < 16,
        0 <= n < 16,
        nibble_char(m) == nibble_char(n),
    ensures
        m == n,
{
    assert((nibble_char(m) as int) == (if m < 10 { m + 48 } else { m + 87 }));
    assert((nibble_char(n) as int) == (if n < 10 { n + 48 } else { n + 87 }));
}

/// Hexadecimal text loses nothing: different byte strings have different
/// texts, so each identifier made by `hex_id` tells exactly which bytes were
/// drawn for it.
pub proof fn lemma_hex_lower_injective(a: Seq<u8>, b: Seq<u8>)
    requires
        hex_lower(a) == hex_lower(b),
    ensures
        a == b,
{
    assert(hex_lower(a).len() == 2 * a.len());
    assert(hex_lower(b).len() == 2 * b.len());
    assert(a.len() == b.len());
    assert forall|i: int| 0 <= i < a.len() implies a[i] == b[i] by {
        assert((2 * i) % 2 == 0 && (2 * i) / 2 == i);
        assert((2 * i + 1) % 2 == 1 && (2 * i + 1) / 2 == i);
        assert(hex_lower(a)[2 * i] == nibble_char((a[i] / 16) as int));
        assert(hex_lower(b)[2 * i] == nibble_char((b[i] / 16) as int));
        assert(hex_lower(a)[2 * i + 1] == nibble_char((a[i] % 16) as int));
        assert(hex_lower(b)[2 * i + 1] == nibble_char((b[i] % 16) as int));
        lemma_nibble_char_injective((a[i] / 16) as int, (b[i] / 16) as int);
        lemma_nibble_char_injective((a[i] % 16) as int, (b[i] % 16) as int);
    }
    assert(a =~= b);
}

/// The text of a UUID loses nothing: different UUIDs have different texts.
pub proof fn lemma_uuid_text_injective(a: Seq<u8>, b: Seq<u8>)
    requires
        a.len() == 16,
        b.len() == 16,
        uuid_text(a) == uuid_text(b),
    ensures
        a == b,
{
    let (ta, tb) = (uuid_text(a), uuid_text(b));
    assert(hex_lower(a.subrange(0, 4)) =~= ta.subrange(0, 8));
    assert(hex_lower(b.subrange(0, 4)) =~= tb.subrange(0, 8));
    assert(hex_lower(a.subrange(4, 6)) =~= ta.subrange(9, 13));
    assert(hex_lower(b.subrange(4, 6)) =~= tb.subrange(9, 13));
    assert(hex_lower(a.subrange(6, 8)) =~= ta.subrange(14, 18));
    assert(hex_lower(b.subrange(6, 8)) =~= tb.subrange(14, 18));
    assert(hex_lower(a.subrange(8, 10)) =~= ta.subrange(19, 23));
    assert(hex_lower(b.subrange(8, 10)) =~= tb.subrange(19, 23));
    assert(hex_lower(a.subrange(10, 16)) =~= ta.subrange(24, 36));
    assert(hex_lower(b.subrange(10, 16)) =~= tb.subrange(24, 36));
    lemma_hex_lower_injective(a.subrange(0, 4), b.subrange(0, 4));
    lemma_hex_lower_injective(a.subrange(4, 6), b.subrange(4, 6));
    lemma_hex_lower_injective(a.subrange(6, 8), b.subrange(6, 8));
    lemma_hex_lower_injective(a.subrange(8, 10), b.subrange(8, 10));
    lemma_hex_lower_injective(a.subrange(10, 16), b.subrange(10, 16));
    assert forall|i: int| 0 <= i < 16 implies a[i] == b[i] by {
        if i < 4 {
            assert(a.subrange(0, 4)[i] == b.subrange(0, 4)[i]);
        } else if i < 6 {
            assert(a.subrange(4, 6)[i - 4] == b.subrange(4, 6)[i - 4]);
        } else if i < 8 {
            assert(a.subrange(6, 8)[i - 6] == b.subrange(6, 8)[i - 6]);
        } else if i < 10 {
            assert(a.subrange(8, 10)[i - 8] == b.subrange(8, 10)[i - 8]);
        } else {
            assert(a.subrange(10, 16)[i - 10] == b.subrange(10, 16)[i - 10]);
        }
    }
    assert(a =~= b);
}

/// Identifiers made from random material tell the material apart: two
/// configurations made by `config_from_random` have the same machine
/// identifier only if the same machine bytes were drawn, the same MAC
/// machine identifier only if the same MAC bytes were drawn, and the same
/// device identifier only if the same UUID was drawn. So identifiers change
/// whenever the draws do.
pub proof fn lemma_config_from_random_reflects_draws(
    machine1: Seq<u8>,
    mac1: Seq<u8>,
    uuid1: Seq<u8>,
    machine2: Seq<u8>,
    mac2: Seq<u8>,
    uuid2: Seq<u8>,
)
    requires
        uuid1.len() == 16,
        uuid2.len() == 16,
    ensures
        hex_lower(machine1) == hex_lower(machine2) ==> machine1 == machine2,
        hex_lower(mac1) == hex_lower(mac2) ==> mac1 == mac2,
        uuid_text(uuid1) == uuid_text(uuid2) ==> uuid1 == uuid2,
{
    if hex_lower(machine1) == hex_lower(machine2) {
        lemma_hex_lower_injective(machine1, machine2);
    }
    if hex_lower(mac1) == hex_lower(mac2) {
        lemma_hex_lower_injective(mac1, mac2);
    }
    if uuid_text(uuid1) == uuid_text(uuid2) {
        lemma_uuid_text_injective(uuid1, uuid2);
    }
}

} // verus!
