use vstd::prelude::*;

use vstd::string::{StringExecFns, StrSliceExecFns};
use vstd::utf8::{decode_utf8, valid_utf8};

use crate::error::VaultError;
use crate::textenc::{str_eq, string_from_utf8};

verus! {

/// How the vault file's page store is reached: directly from the file, or
/// through a read-only memory mapping of a container file.
#[derive(Debug, Clone, Copy)]
pub enum VaultOpenMode {
    Direct,
    Mmapped,
}

/// Side-channel configuration of a vault, taken from its descriptor.
#[derive(Debug)]
pub struct VaultMetadata {
    pub encryption_algo: String,
    pub have_keyfile: bool,
    pub kdf_algo: String,
    pub kdf_iter: u32,
    pub vault_uuid: String,
    pub version: usize,
}

/// The optional fields of a vault descriptor, each absent when the descriptor
/// does not carry it as a value of the right kind.
#[derive(Debug)]
pub struct DescriptorFields {
    pub encryption_algo: Option<String>,
    pub have_keyfile: Option<isize>,
    pub kdf_algo: Option<String>,
    pub kdf_iter: Option<u32>,
    pub vault_uuid: Option<String>,
    pub version: Option<usize>,
}

/// The fields a well-formed JSON descriptor text carries, or `None` when the
/// text is not JSON at all.
pub uninterp spec fn parsed_descriptor(text: Seq<char>) -> Option<DescriptorFields>;

/// Relies on `json::parse` and the `JsonValue` accessors `take_string`,
/// `as_isize`, `as_u32` and `as_usize`: parsing is a function of the text
/// alone, and each accessor yields the member's value exactly when it has
/// the right kind.
#[verifier::external_body]
fn read_descriptor(text: &str) -> (r: Option<DescriptorFields>)
    ensures
        r == parsed_descriptor(text@),
{
    match json::parse(text) {
        Ok(mut v) => Some(DescriptorFields {
            encryption_algo: v["encryption_algo"].take_string(),
            have_keyfile: v["have_keyfile"].as_isize(),
            kdf_algo: v["kdf_algo"].take_string(),
            kdf_iter: v["kdf_iter"].as_u32(),
            vault_uuid: v["vault_uuid"].take_string(),
            version: v["version"].as_usize(),
        }),
        Err(_) => None,
    }
}

/// The metadata record used when no descriptor is available.
pub open spec fn is_default_metadata(m: &VaultMetadata) -> bool {
    &&& m.encryption_algo@ == "pbkdf2"@
    &&& m.have_keyfile == false
    &&& m.kdf_algo@ == "pbkdf2"@
    &&& m.kdf_iter == 100000u32
    &&& m.vault_uuid@ == "primary"@
    &&& m.version == 6usize
}

/// The metadata record that descriptor fields `d` give: each present field is
/// taken over, each absent one falls back to its default, field by field.
pub open spec fn metadata_matches(m: &VaultMetadata, d: Option<DescriptorFields>) -> bool {
    match d {
        None => is_default_metadata(m),
        Some(f) => {
            &&& (match f.encryption_algo {
                Some(s) => m.encryption_algo@ == s@,
                None => m.encryption_algo@ == "pbkdf2"@,
            })
            &&& (match f.have_keyfile {
                Some(x) => m.have_keyfile == (x != 0),
                None => m.have_keyfile == false,
            })
            &&& (match f.kdf_algo {
                Some(s) => m.kdf_algo@ == s@,
                None => m.kdf_algo@ == "pbkdf2"@,
            })
            &&& (match f.kdf_iter {
                Some(x) => m.kdf_iter == x,
                None => m.kdf_iter == 100000u32,
            })
            &&& (match f.vault_uuid {
                Some(s) => m.vault_uuid@ == s@,
                None => m.vault_uuid@ == "primary"@,
            })
            &&& (match f.version {
                Some(x) => m.version == x,
                None => m.version == 6usize,
            })
        },
    }
}

impl Default for VaultMetadata {
    /// The fixed fallback record: `kdf_algo="pbkdf2"`, `kdf_iter=100000`,
    /// `version=6`, no keyfile, primary vault.
    fn default() -> (r: Self)
        ensures
            is_default_metadata(&r),
    {
        VaultMetadata {
            encryption_algo: String::from_str("pbkdf2"),
            have_keyfile: false,
            kdf_algo: String::from_str("pbkdf2"),
            kdf_iter: 100000,
            vault_uuid: String::from_str("primary"),
            version: 6,
        }
    }
}

/// Parses a descriptor text into metadata. Never fails: every absent or
/// mistyped field falls back to its default, and a text that is not JSON
/// yields the all-default record.
pub fn parse_metadata(json_text: &str) -> (r: VaultMetadata)
    ensures
        metadata_matches(&r, parsed_descriptor(json_text@)),
{
    match read_descriptor(json_text) {
        None => VaultMetadata::default(),
        Some(f) => VaultMetadata {
            encryption_algo: match f.encryption_algo {
                Some(s) => s,
                None => String::from_str("pbkdf2"),
            },
            have_keyfile: match f.have_keyfile {
                Some(x) => x != 0,
                None => false,
            },
            kdf_algo: match f.kdf_algo {
                Some(s) => s,
                None => String::from_str("pbkdf2"),
            },
            kdf_iter: match f.kdf_iter {
                Some(x) => x,
                None => 100000,
            },
            vault_uuid: match f.vault_uuid {
                Some(s) => s,
                None => String::from_str("primary"),
            },
            version: match f.version {
                Some(x) => x,
                None => 6,
            },
        },
    }
}

/// Index of the first zero byte of `s`, or its length when none occurs.
pub open spec fn first_nul(s: Seq<u8>) -> int
    decreases s.len(),
{
    if s.len() == 0 {
        0
    } else if s[0] == 0 {
        0
    } else {
        1 + first_nul(s.drop_first())
    }
}

proof fn lemma_first_nul_at(s: Seq<u8>, i: int)
    requires
        0 <= i <= s.len(),
        forall|j: int| 0 <= j < i ==> s[j] != 0,
        i < s.len() ==> s[i] == 0,
    ensures
        first_nul(s) == i,
    decreases i,
{
    if s.len() == 0 {
    } else if i == 0 {
    } else {
        let t = s.drop_first();
        assert(forall|j: int| 0 <= j < i - 1 ==> t[j] != 0);
        lemma_first_nul_at(t, i - 1);
    }
}

/// The metadata that a raw descriptor prefix yields: the bytes before the
/// first zero byte are read as UTF-8 and parsed; unreadable text yields the
/// all-default record.
pub open spec fn descriptor_metadata_matches(m: &VaultMetadata, buf: Seq<u8>) -> bool {
    let text = buf.take(first_nul(buf));
    if valid_utf8(text) {
        metadata_matches(m, parsed_descriptor(decode_utf8(text)))
    } else {
        is_default_metadata(m)
    }
}

/// Reads a raw descriptor prefix, as read from the head of a vault or
/// descriptor file: the text runs to the first zero byte.
pub fn descriptor_metadata(buf: &[u8]) -> (r: VaultMetadata)
    ensures
        descriptor_metadata_matches(&r, buf@),
{
    let n = buf.len();
    let mut i: usize = 0;
    let mut text: Vec<u8> = Vec::new();
    while i < n && buf[i] != 0
        invariant
            n == buf@.len(),
            i <= n,
            text@ == buf@.take(i as int),
            forall|j: int| 0 <= j < i as int ==> buf@[j] != 0,
        decreases n - i,
    {
        text.push(buf[i]);
        i = i + 1;
    }
    proof {
        lemma_first_nul_at(buf@, i as int);
    }
    match string_from_utf8(text) {
        Ok(s) => parse_metadata(s.as_str()),
        Err(_) => VaultMetadata::default(),
    }
}

/// Index just past the last '/' of the path, 0 when there is none.
pub open spec fn file_name_start(p: Seq<char>) -> int
    decreases p.len(),
{
    if p.len() == 0 {
        0
    } else if p[p.len() - 1] == '/' {
        p.len() as int
    } else {
        file_name_start(p.drop_last())
    }
}

/// Index of the last '.' of `s`, or -1 when none occurs.
pub open spec fn last_dot(s: Seq<char>) -> int
    decreases s.len(),
{
    if s.len() == 0 {
        -1
    } else if s[s.len() - 1] == '.' {
        s.len() - 1
    } else {
        last_dot(s.drop_last())
    }
}

/// The path's extension: the text after the last '.' of its file name,
/// absent when the name holds no '.' past its first character.
pub open spec fn path_extension(p: Seq<char>) -> Option<Seq<char>> {
    let name = p.skip(file_name_start(p));
    let d = last_dot(name);
    if d <= 0 {
        None
    } else {
        Some(name.skip(d + 1))
    }
}

/// The path with its extension and the '.' before it replaced by
/// `ext_with_dot`; meaningful only when the path has an extension.
pub open spec fn with_extension(p: Seq<char>, ext_with_dot: Seq<char>) -> Seq<char> {
    let start = file_name_start(p);
    let d = last_dot(p.skip(start));
    p.take(start + d) + ext_with_dot
}

/// Where the descriptor of a vault is read from: a file whose text must be
/// readable, a sibling file that may be missing, or nowhere at all.
#[derive(Debug)]
pub enum DescriptorSource {
    Required(String),
    Optional(String),
    Defaults,
}

/// The on-disk layout a vault path resolves to: the file holding the page
/// store, how to open it, and where its descriptor is found.
#[derive(Debug)]
pub struct LocatePlan {
    pub target_path: String,
    pub open_method: VaultOpenMode,
    pub descriptor: DescriptorSource,
}

/// The resolution policy of `locate`, by the path's extension.
pub open spec fn locate_plan_matches(r: &LocatePlan, p: Seq<char>) -> bool {
    let ext = path_extension(p);
    if ext == Some("json"@) {
        &&& r.target_path@ == with_extension(p, ".enpassdb"@)
        &&& r.open_method is Direct
        &&& (r.descriptor matches DescriptorSource::Required(d) && d@ == p)
    } else if ext == Some("enpassdbsync"@) {
        &&& r.target_path@ == p
        &&& r.open_method is Mmapped
        &&& (r.descriptor matches DescriptorSource::Required(d) && d@ == p)
    } else if ext == Some("enpassdb"@) {
        &&& r.target_path@ == p
        &&& r.open_method is Direct
        &&& (r.descriptor matches DescriptorSource::Optional(d) && d@ == with_extension(
            p,
            ".json"@,
        ))
    } else {
        &&& r.target_path@ == p
        &&& r.open_method is Direct
        &&& r.descriptor is Defaults
    }
}

/// Resolves a vault path to its layout: a `.json` descriptor names a sibling
/// vault file opened directly, a container-sync file is opened through a
/// memory mapping with its descriptor at its own head, a native vault file is
/// opened directly with an optional sibling descriptor, and anything else is
/// opened directly with defaults.
pub fn locate(path: &str) -> (r: LocatePlan)
    ensures
        locate_plan_matches(&r, path@),
{
    let n = path.unicode_len();
    let mut start: usize = 0;
    let mut i: usize = 0;
    while i < n
        invariant
            n == path@.len(),
            i <= n,
            start as int == file_name_start(path@.take(i as int)),
            start <= i,
        decreases n - i,
    {
        proof {
            assert(path@.take(i as int + 1).drop_last() =~= path@.take(i as int));
        }
        if path.get_char(i) == '/' {
            start = i + 1;
        }
        i = i + 1;
    }
    proof {
        assert(path@.take(n as int) =~= path@);
    }
    let mut has_dot: bool = false;
    let mut dot: usize = 0;
    let mut j: usize = start;
    while j < n
        invariant
            n == path@.len(),
            start <= j <= n,
            start as int == file_name_start(path@),
            has_dot ==> start <= dot < j,
            ({
                let d = last_dot(path@.subrange(start as int, j as int));
                if has_dot {
                    d == dot - start
                } else {
                    d == -1
                }
            }),
        decreases n - j,
    {
        proof {
            assert(path@.subrange(start as int, j as int + 1).drop_last() =~= path@.subrange(
                start as int,
                j as int,
            ));
        }
        if path.get_char(j) == '.' {
            has_dot = true;
            dot = j;
        }
        j = j + 1;
    }
    proof {
        assert(path@.subrange(start as int, n as int) =~= path@.skip(file_name_start(path@)));
    }
    if !has_dot || dot == start {
        return LocatePlan {
            target_path: String::from_str(path),
            open_method: VaultOpenMode::Direct,
            descriptor: DescriptorSource::Defaults,
        };
    }
    let ext = path.substring_char(dot + 1, n);
    proof {
        let name = path@.skip(file_name_start(path@));
        assert(name.skip(last_dot(name) + 1) =~= path@.subrange(dot as int + 1, n as int));
    }
    if str_eq(ext, "json") {
        let stem = path.substring_char(0, dot);
        proof {
            assert(path@.subrange(0, dot as int) =~= path@.take(dot as int));
        }
        LocatePlan {
            target_path: String::from_str(stem).concat(".enpassdb"),
            open_method: VaultOpenMode::Direct,
            descriptor: DescriptorSource::Required(String::from_str(path)),
        }
    } else if str_eq(ext, "enpassdbsync") {
        LocatePlan {
            target_path: String::from_str(path),
            open_method: VaultOpenMode::Mmapped,
            descriptor: DescriptorSource::Required(String::from_str(path)),
        }
    } else if str_eq(ext, "enpassdb") {
        let stem = path.substring_char(0, dot);
        proof {
            assert(path@.subrange(0, dot as int) =~= path@.take(dot as int));
        }
        LocatePlan {
            target_path: String::from_str(path),
            open_method: VaultOpenMode::Direct,
            descriptor: DescriptorSource::Optional(String::from_str(stem).concat(".json")),
        }
    } else {
        LocatePlan {
            target_path: String::from_str(path),
            open_method: VaultOpenMode::Direct,
            descriptor: DescriptorSource::Defaults,
        }
    }
}

/// Where a vault file keeps its 16-byte key-derivation salt: at the head of
/// a directly opened file, past the container header of a mapped one.
pub fn salt_offset(mode: &VaultOpenMode) -> (r: u64)
    ensures
        mode is Direct ==> r == 0,
        mode is Mmapped ==> r == 0x400,
{
    match mode {
        VaultOpenMode::Direct => 0,
        VaultOpenMode::Mmapped => 0x400,
    }
}

/// A located vault: the file holding its page store, how to open it, and its
/// parsed metadata.
#[derive(Debug)]
pub struct VaultInfo {
    pub path: String,
    pub open_method: VaultOpenMode,
    pub metadata: VaultMetadata,
}

} // verus!
