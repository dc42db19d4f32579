use vstd::prelude::*;
use vstd::string::StringExecFns;

pub mod error;
pub mod format;
pub mod convert;
pub mod device;
pub mod encoder;
pub mod session;
pub mod accounting;
pub mod openai;
pub mod chat;

verus! {

/// Name of the file that every recording is written to.
pub const FILE_NAME: &'static str = "recorded.wav";

/// Upper bound on the tokens requested from the completion service.
pub const OPENAI_PROMPT_TOKENS_COUNT: u32 = 100;

/// Completion model that is asked.
pub const OPENAI_MODEL: &'static str = "text-davinci-003";

/// Sampling temperature sent with every completion request.
pub const OPENAI_TEMPERATURE: u32 = 0;

/// The recording's path as a sequence of characters: the directory, a slash,
/// and the fixed file name.
pub open spec fn file_path_of(dir: Seq<char>) -> Seq<char> {
    dir + "/"@ + FILE_NAME@
}

/// Path of the recording inside the directory `dir`.
pub fn get_file_path(dir: &str) -> (path: String)
    ensures
        path@ == file_path_of(dir@),
{
    let base = String::from_str(dir);
    let with_slash = base.concat("/");
    with_slash.concat(FILE_NAME)
}

} // verus!
