//! Naming the files that a build writes.

use vstd::prelude::*;
use vstd::string::*;

use crate::error::{ErrorView, FabelaError};
use crate::text::owned;

verus! {

/// The file name of the executable built from a script with file stem
/// `stem` (".exe" is added on Windows); a script path without a file name is
/// refused with a message quoting `input_display`.
pub fn output_file_name(input_display: &str, stem: Option<String>, windows: bool) -> (res: Result<String, FabelaError>)
    ensures
        stem is None ==> (res matches Err(e) && e@ == ErrorView::Compile(
            "File '"@ + input_display@ + "' has no valid name"@,
        )),
        stem matches Some(s) ==> (res matches Ok(name) && name@ == (if windows {
            s@ + ".exe"@
        } else {
            s@
        })),
{
    match stem {
        None => {
            let mut msg = owned("File '");
            msg.append(input_display);
            msg.append("' has no valid name");
            Err(FabelaError::Compile(msg))
        },
        Some(s) => {
            if windows {
                let mut name = s;
                name.append(".exe");
                Ok(name)
            } else {
                Ok(s)
            }
        },
    }
}

/// Where a build writes its executable.
#[derive(Debug)]
pub enum OutputPath<P> {
    /// The path given on the command line.
    Given(P),
    /// The file of this name in the working directory.
    InWorkingDir(String),
}

/// Where a build writes: the output path given on the command line when
/// there is one; otherwise a file in the working directory named after the
/// script (see [`output_file_name`]).
pub fn resolve_output_path<P>(
    given: Option<P>,
    input_display: &str,
    stem: Option<String>,
    windows: bool,
) -> (res: Result<OutputPath<P>, FabelaError>)
    ensures
        given matches Some(p) ==> (res matches Ok(OutputPath::Given(q)) && q == p),
        given is None && stem is None ==> (res matches Err(e) && e@ == ErrorView::Compile(
            "File '"@ + input_display@ + "' has no valid name"@,
        )),
        given is None && stem is Some ==> (res matches Ok(OutputPath::InWorkingDir(name))
            && name@ == (if windows {
            stem->0@ + ".exe"@
        } else {
            stem->0@
        })),
{
    match given {
        Some(p) => Ok(OutputPath::Given(p)),
        None => match output_file_name(input_display, stem, windows) {
            Ok(name) => Ok(OutputPath::InWorkingDir(name)),
            Err(e) => Err(e),
        },
    }
}

/// The lowercase hexadecimal digit of `d` (`0 <= d < 16`).
pub open spec fn hex_digit(d: int) -> char {
    if d < 10 {
        (48 + d) as char
    } else {
        (87 + d) as char
    }
}

/// Bytes in lowercase hexadecimal, two digits each, high nibble first.
pub open spec fn lower_hex(bytes: Seq<u8>) -> Seq<char>
    decreases bytes.len(),
{
    if bytes.len() == 0 {
        Seq::empty()
    } else {
        seq![hex_digit((bytes[0] / 16) as int), hex_digit((bytes[0] % 16) as int)] + lower_hex(bytes.drop_first())
    }
}

/// `faster_hex::Error`, which the encoder reports when its output buffer is
/// too small.
#[verifier::external_type_specification]
#[verifier::external_body]
pub struct ExHexError(faster_hex::Error);

/// `faster_hex::hex_encode` into a 16-byte buffer: eight bytes as sixteen
/// lowercase hex digits. The buffer holds exactly the `2 * 8` bytes the
/// encoder needs, so it reports no error.
#[verifier::external_body]
fn hex_encode(src: &[u8; 8]) -> (res: Result<String, faster_hex::Error>)
    ensures
        res is Ok,
        res matches Ok(s) ==> s@ == lower_hex(src@),
{
    let mut dst = [0u8; 16];
    faster_hex::hex_encode(src, &mut dst).map(|s| s.to_owned())
}

/// The name of the temporary file a build first writes: the script's file
/// name, `.tmp-`, and the random bytes in lowercase hexadecimal.
pub fn get_temp_path(file_name: &str, random: &[u8; 8]) -> (res: String)
    ensures
        res@ == file_name@ + ".tmp-"@ + lower_hex(random@),
{
    let mut name = owned(file_name);
    name.append(".tmp-");
    match hex_encode(random) {
        Ok(hex) => {
            name.append(hex.as_str());
            name
        },
        Err(_) => {
            assert(false);
            name
        },
    }
}

} // verus!

verus! {

/// Hexadecimal writes each byte as two lowercase digits, the high nibble
/// first: digits `0`-`9` for values below ten and `a`-`f` above.
pub proof fn lemma_lower_hex(bytes: Seq<u8>)
    ensures
        lower_hex(bytes).len() == 2 * bytes.len(),
        forall|i: int| 0 <= i < bytes.len() ==> {
            &&& #[trigger] lower_hex(bytes)[2 * i] == hex_digit((bytes[i] / 16) as int)
            &&& lower_hex(bytes)[2 * i + 1] == hex_digit((bytes[i] % 16) as int)
        },
    decreases bytes.len(),
{
    if bytes.len() > 0 {
        let rest = bytes.drop_first();
        lemma_lower_hex(rest);
        assert forall|i: int| 0 <= i < bytes.len() implies {
            &&& #[trigger] lower_hex(bytes)[2 * i] == hex_digit((bytes[i] / 16) as int)
            &&& lower_hex(bytes)[2 * i + 1] == hex_digit((bytes[i] % 16) as int)
        } by {
            if i > 0 {
                assert(bytes[i] == rest[i - 1]);
                assert(lower_hex(bytes)[2 * i] == lower_hex(rest)[2 * (i - 1)]);
                assert(lower_hex(bytes)[2 * i + 1] == lower_hex(rest)[2 * (i - 1) + 1]);
            }
        }
    }
}

/// The hexadecimal digits are `0123456789abcdef`.
pub proof fn lemma_hex_digits(d: int)
    requires
        0 <= d < 16,
    ensures
        d < 10 ==> hex_digit(d) as int == '0' as int + d,
        d >= 10 ==> hex_digit(d) as int == 'a' as int + (d - 10),
{
}

} // verus!
