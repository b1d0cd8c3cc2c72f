//! The temporary executable of one invocation: its name, its place, its mode
//! and its contents. Writing it to disk is left to the caller.

use crate::platform::Platform;
use vstd::prelude::*;

verus! {

/// The version of this crate: the version of the embedded `wasm-pack`, a
/// hyphen, and the version of the wrapper around it.
pub const CRATE_VERSION: &'static str = "0.12.1-0.1.0";

/// The directory that receives the temporary executable, under the working
/// directory.
pub const TARGET_DIRECTORY: &'static str = "target";

/// The mode of the temporary executable where files have one: read, write
/// and execute for the owner, read and execute for everybody else.
pub const EXECUTABLE_MODE: u32 = 0o755;

/// Whether `c` is one of `0` to `9` or `a` to `f`.
pub open spec fn is_lower_hex_digit(c: char) -> bool {
    ('0' <= c && c <= '9') || ('a' <= c && c <= 'f')
}

/// The shape of a random token: a version 4 UUID in its hyphenated lower-case
/// form, `xxxxxxxx-xxxx-4xxx-yxxx-xxxxxxxxxxxx` with `y` one of `8`, `9`, `a`
/// and `b`.
pub open spec fn is_random_token(token: Seq<char>) -> bool {
    &&& token.len() == 36
    &&& forall|i: int|
        0 <= i < 36 ==> if i == 8 || i == 13 || i == 18 || i == 23 {
            token[i] == '-'
        } else {
            is_lower_hex_digit(#[trigger] token[i])
        }
    &&& token[14] == '4'
    &&& (token[19] == '8' || token[19] == '9' || token[19] == 'a' || token[19] == 'b')
}

/// The name of the temporary executable:
/// `wasm-pack-<platform>-v<version>-<token>`, with the version of this crate.
pub open spec fn file_name_of(platform: Platform, token: Seq<char>) -> Seq<char> {
    "wasm-pack-"@ + platform.triple() + "-v"@ + CRATE_VERSION@ + "-"@ + token
}

/// The mode to give the temporary executable, on the platforms where files
/// have one.
pub open spec fn mode_of(platform: Platform) -> Option<u32> {
    if platform.has_posix_permissions() {
        Some(EXECUTABLE_MODE)
    } else {
        None
    }
}

/// What a temporary executable is, as plain values.
pub struct ExecutablePlan {
    /// The directory that receives the file, relative to the working directory.
    pub directory: Seq<char>,
    /// The name of the file in that directory.
    pub file_name: Seq<char>,
    /// The bytes of the file.
    pub contents: Seq<u8>,
    /// The permission bits to set, if the platform has any.
    pub mode: Option<u32>,
}

/// The temporary executable of an invocation on `platform` that drew `token`.
pub open spec fn planned_executable(
    platform: Platform,
    contents: Seq<u8>,
    token: Seq<char>,
) -> ExecutablePlan {
    ExecutablePlan {
        directory: TARGET_DIRECTORY@,
        file_name: file_name_of(platform, token),
        contents,
        mode: mode_of(platform),
    }
}

/// A file to be written, run once and deleted.
#[derive(Debug)]
pub struct TemporaryExecutable {
    file_name: String,
    contents: &'static [u8],
    mode: Option<u32>,
}

impl View for TemporaryExecutable {
    type V = ExecutablePlan;

    closed spec fn view(&self) -> ExecutablePlan {
        ExecutablePlan {
            directory: TARGET_DIRECTORY@,
            file_name: self.file_name@,
            contents: self.contents@,
            mode: self.mode,
        }
    }
}

impl TemporaryExecutable {
    /// The temporary executable that holds `contents`, for an invocation on
    /// `platform` that drew `token`.
    pub fn new(platform: &Platform, contents: &'static [u8], token: &str) -> (executable:
        TemporaryExecutable)
        ensures
            executable@ == planned_executable(*platform, contents@, token@),
    {
        let mode = match platform {
            Platform::Windows => None,
            _ => Some(EXECUTABLE_MODE),
        };
        TemporaryExecutable { file_name: temp_file_name(platform, token), contents, mode }
    }

    /// The directory that receives the file, relative to the working
    /// directory.
    pub fn directory(&self) -> (directory: &'static str)
        ensures
            directory@ == self@.directory,
    {
        TARGET_DIRECTORY
    }

    /// The name of the file in its directory.
    pub fn file_name(&self) -> (file_name: &str)
        ensures
            file_name@ == self@.file_name,
    {
        self.file_name.as_str()
    }

    /// The bytes to write to the file.
    pub fn contents(&self) -> (contents: &'static [u8])
        ensures
            contents@ == self@.contents,
    {
        self.contents
    }

    /// The permission bits to give the file, if the platform has any.
    pub fn mode(&self) -> (mode: Option<u32>)
        ensures
            mode == self@.mode,
    {
        self.mode
    }
}

/// Draws a random version 4 UUID with `uuid::Uuid::new_v4` and writes it out
/// with its `Display`, which gives the hyphenated lower-case form. Trusted:
/// the length of the text, the places of its hyphens, its hexadecimal digits
/// and the digits that the version and the variant fix. The draw fails with a
/// panic where the operating system hands out no random bytes.
#[verifier::external_body]
fn random_token() -> (token: String)
    ensures
        is_random_token(token@),
{
    uuid::Uuid::new_v4().to_string()
}

/// Builds the name of the temporary executable.
pub fn temp_file_name(platform: &Platform, token: &str) -> (name: String)
    ensures
        name@ == file_name_of(*platform, token@),
{
    let mut name = String::from_str("wasm-pack-");
    name.append(platform.name());
    name.append("-v");
    name.append(CRATE_VERSION);
    name.append("-");
    name.append(token);
    name
}

/// Invocations on one platform that drew different tokens write to different
/// files.
pub proof fn lemma_distinct_tokens_give_distinct_names(
    platform: Platform,
    first: Seq<char>,
    second: Seq<char>,
)
    requires
        first != second,
    ensures
        file_name_of(platform, first) != file_name_of(platform, second),
{
    let stem = "wasm-pack-"@ + platform.triple() + "-v"@ + CRATE_VERSION@ + "-"@;
    let a = file_name_of(platform, first);
    let b = file_name_of(platform, second);
    assert(a.subrange(stem.len() as int, a.len() as int) =~= first);
    assert(b.subrange(stem.len() as int, b.len() as int) =~= second);
}

/// Plans the temporary executable of a new invocation: the binary of the
/// platform under a name that holds a freshly drawn random token, so that
/// invocations running side by side do not share a file.
pub fn get_cli_executable_file(platform: &Platform, cli_executable_bytes: &'static [u8]) -> (executable:
    TemporaryExecutable)
    ensures
        exists|token: Seq<char>|
            is_random_token(token) && executable@ == #[trigger] planned_executable(
                *platform,
                cli_executable_bytes@,
                token,
            ),
{
    let token = random_token();
    TemporaryExecutable::new(platform, cli_executable_bytes, token.as_str())
}

} // verus!
