//! Utilities used during the initial setup: configuration data, the paths
//! derived from the configuration directory, and the keyed digest guarding
//! the single operator password. Prompting, file reading and directory
//! discovery stay in the program around the library, which hands plain
//! strings in.

use vstd::prelude::*;

verus! {

/// Application configuration.
pub struct Config {
    /// Port to listen on
    pub port: u16,
    /// Database connection url
    pub database_url: String,
    /// Database connection pool size
    pub pool_size: u32,
    /// Directory where to store static files
    pub files_dir: String,
    /// Highlighting configuration
    pub highlight: HighlightConfig,
}

/// Code-highlighting configuration.
pub struct HighlightConfig {
    /// Path to the theme to use
    pub themepath: String,
    /// Theme to use
    pub theme: String,
    /// Additional languages to include
    pub languages: Vec<String>,
}

impl Default for HighlightConfig {
    /// No theme path, the `github` theme, and one extra language.
    fn default() -> (r: Self)
        ensures
            r.themepath@ == ""@,
            r.theme@ == "github"@,
            r.languages@.len() == 1,
            r.languages@[0]@ == "rust"@,
    {
        let mut languages: Vec<String> = Vec::new();
        languages.push("rust".to_owned());
        HighlightConfig { themepath: "".to_owned(), theme: "github".to_owned(), languages }
    }
}

/// The configuration file's place under the configuration directory.
pub fn get_config_path(config_dir: &str) -> (r: String)
    ensures
        r@ == config_dir@ + "/config.toml"@,
{
    let mut s = config_dir.to_owned();
    s.append("/config.toml");
    s
}

/// The password digest's place under the configuration directory.
pub fn get_password_path(config_dir: &str) -> (r: String)
    ensures
        r@ == config_dir@ + "/passwd"@,
{
    let mut s = config_dir.to_owned();
    s.append("/passwd");
    s
}

/// The keyed BLAKE3 digest of an input: a function of the key and input
/// alone, thirty-two bytes long.
pub uninterp spec fn blake3_keyed(key: Seq<u8>, input: Seq<u8>) -> Seq<u8>;

/// Returns the keyed BLAKE3 digest of the input. Relies on blake3's
/// `keyed_hash`: the digest depends on the key and input alone and is
/// thirty-two bytes long.
#[verifier::external_body]
pub fn hash(key: &[u8; 32], input: &[u8]) -> (r: Vec<u8>)
    ensures
        r@ == blake3_keyed(key@, input@),
        r@.len() == 32,
{
    blake3::keyed_hash(key, input).as_bytes().to_vec()
}

/// Byte-for-byte equality of two slices.
fn bytes_eq(a: &[u8], b: &[u8]) -> (r: bool)
    ensures
        r == (a@ == b@),
{
    let n = a.len();
    if n != b.len() {
        return false;
    }
    let mut i: usize = 0;
    while i < n
        invariant
            n == a@.len(),
            n == b@.len(),
            i <= n,
            forall|j: int| 0 <= j < i ==> a@[j] == b@[j],
        decreases n - i,
    {
        if a[i] != b[i] {
            return false;
        }
        i += 1;
    }
    proof {
        assert(a@ =~= b@);
    }
    true
}

/// Whether a presented password's keyed digest matches the stored one.
pub fn password_matches(key: &[u8; 32], password: &[u8], stored_hash: &Vec<u8>) -> (r: bool)
    ensures
        r == (blake3_keyed(key@, password@) == stored_hash@),
{
    let digest = hash(key, password);
    bytes_eq(digest.as_slice(), stored_hash.as_slice())
}

} // verus!
