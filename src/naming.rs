//! The name and permission bits of the temporary file an executable is
//! written to.
use vstd::prelude::*;
use vstd::string::*;

use crate::platform::Platform;

verus! {

/// The version of this library, which is named in temporary files.
pub const CRATE_VERSION: &'static str = "3.4.1-0";

/// The fixed start of every temporary file name.
pub const TEMP_FILE_PREFIX: &'static str = "tailwindcss";

/// The permission bits the executable is given where the file system has
/// them: read, write and execute for the owner, read and execute for the rest.
pub const EXECUTABLE_MODE: u32 = 0o755;

/// Whether `c` is a lower-case hexadecimal digit.
pub open spec fn is_lower_hex(c: char) -> bool {
    ('0' <= c && c <= '9') || ('a' <= c && c <= 'f')
}

/// Whether `t` is a random UUID in hyphenated lower-case form,
/// `xxxxxxxx-xxxx-4xxx-xxxx-xxxxxxxxxxxx`.
pub open spec fn is_uuid_v4_text(t: Seq<char>) -> bool {
    &&& t.len() == 36
    &&& forall|i: int|
        0 <= i < 36 ==> if i == 8 || i == 13 || i == 18 || i == 23 {
            t[i] == '-'
        } else {
            is_lower_hex(#[trigger] t[i])
        }
    &&& t[14] == '4'
}

/// Relies on `uuid::Uuid::new_v4` and its `Display`: a fresh random UUID,
/// written as 32 lower-case hexadecimal digits in groups of 8, 4, 4, 4 and 12
/// joined by hyphens, with the version digit 4. It panics only where the
/// operating system gives no random bytes, which no argument can rule out.
#[verifier::external_body]
fn random_token() -> (r: String)
    ensures
        is_uuid_v4_text(r@),
{
    uuid::Uuid::new_v4().to_string()
}

/// The file name for an executable of `platform`, library version `version`
/// and token `token`: `tailwindcss-<platform>-v<version>-<token>`.
pub open spec fn spec_temp_file_name(
    platform: Platform,
    version: Seq<char>,
    token: Seq<char>,
) -> Seq<char> {
    TEMP_FILE_PREFIX@ + "-"@ + platform.spec_name() + "-v"@ + version + "-"@ + token
}

/// The temporary file name for an executable of `platform`, made unique by
/// `token`.
pub fn temp_file_name(platform: &Platform, version: &str, token: &str) -> (r: String)
    ensures
        r@ == spec_temp_file_name(*platform, version@, token@),
{
    let mut name = String::from_str(TEMP_FILE_PREFIX);
    name.append("-");
    name.append(platform.name());
    name.append("-v");
    name.append(version);
    name.append("-");
    name.append(token);
    name
}

/// A fresh temporary file name for an executable of `platform` and this
/// library's version, ending in a new random UUID.
pub fn fresh_temp_file_name(platform: &Platform) -> (r: String)
    ensures
        exists|token: Seq<char>|
            is_uuid_v4_text(token) && r@ == spec_temp_file_name(
                *platform,
                CRATE_VERSION@,
                token,
            ),
{
    let token = random_token();
    temp_file_name(platform, CRATE_VERSION, token.as_str())
}

/// Names made for the same platform and version with different tokens differ,
/// so invocations that run at the same time never share a file.
pub proof fn lemma_distinct_tokens_give_distinct_names(
    platform: Platform,
    version: Seq<char>,
    token1: Seq<char>,
    token2: Seq<char>,
)
    requires
        token1 != token2,
    ensures
        spec_temp_file_name(platform, version, token1) != spec_temp_file_name(
            platform,
            version,
            token2,
        ),
{
    let head = TEMP_FILE_PREFIX@ + "-"@ + platform.spec_name() + "-v"@ + version + "-"@;
    let n1 = spec_temp_file_name(platform, version, token1);
    let n2 = spec_temp_file_name(platform, version, token2);
    assert(n1 == head + token1);
    assert(n2 == head + token2);
    if n1 == n2 {
        assert(n1.subrange(head.len() as int, n1.len() as int) =~= token1);
        assert(n2.subrange(head.len() as int, n2.len() as int) =~= token2);
    }
}

/// The executable's permission bits let its owner read, write and execute it,
/// and everyone else read and execute it.
pub proof fn lemma_executable_mode_grants_execute()
    ensures
        EXECUTABLE_MODE & 0o700 == 0o700,
        EXECUTABLE_MODE & 0o055 == 0o055,
        EXECUTABLE_MODE & 0o022 == 0,
        EXECUTABLE_MODE & 0o111 == 0o111,
{
    assert(0o755u32 & 0o700 == 0o700) by (bit_vector);
    assert(0o755u32 & 0o055 == 0o055) by (bit_vector);
    assert(0o755u32 & 0o022 == 0) by (bit_vector);
    assert(0o755u32 & 0o111 == 0o111) by (bit_vector);
}

} // verus!
