use vstd::prelude::*;
use vstd::string::StringExecFns;

use crate::error::ComicError;

verus! {

/// Seconds to wait for the metadata response when none is given.
pub const DEFAULT_TIMEOUT_SECS: u64 = 30;

/// How the comic is written to standard output.
#[derive(Debug, Clone, Copy, PartialEq, Eq, Structural)]
pub enum OutFormat {
    /// A five-line, human-readable block.
    Text,
    /// One JSON object on one line.
    Json,
}

impl OutFormat {
    /// The format named `name` on the command line: `text` or `json`.
    pub fn from_name(name: &str) -> (r: Result<OutFormat, ComicError>)
        ensures
            name@ == "text"@ ==> r == Ok::<OutFormat, ComicError>(OutFormat::Text),
            name@ == "json"@ ==> r == Ok::<OutFormat, ComicError>(OutFormat::Json),
            name@ != "text"@ && name@ != "json"@ ==> r == Err::<OutFormat, ComicError>(
                ComicError::Usage,
            ),
    {
        proof {
            reveal_strlit("text");
            reveal_strlit("json");
            assert("text"@[0] != "json"@[0]);
        }
        let given = String::from_str(name);
        if given == String::from_str("text") {
            Ok(OutFormat::Text)
        } else if given == String::from_str("json") {
            Ok(OutFormat::Json)
        } else {
            Err(ComicError::Usage)
        }
    }
}

/// The configuration of one run.
#[derive(Debug, Clone, Copy, PartialEq, Eq, Structural)]
pub struct Args {
    /// The comic to fetch; the latest one where absent.
    pub num: Option<usize>,
    /// Seconds to wait for the metadata response.
    pub timeout: u64,
    /// Whether to download the comic's image into the working directory.
    pub save: bool,
    /// How to present the comic.
    pub output: OutFormat,
}

impl Args {
    /// Whether a configuration holds positive numbers only.
    pub open spec fn valid(self) -> bool {
        self.timeout > 0 && self.num != Some(0usize)
    }

    /// A configuration from the parsed command line: the comic number, where
    /// given, and the timeout must be positive.
    pub fn new(num: Option<usize>, timeout: u64, save: bool, output: OutFormat) -> (r: Result<
        Args,
        ComicError,
    >)
        ensures
            r == (if timeout > 0 && num != Some(0usize) {
                Ok::<Args, ComicError>(Args { num, timeout, save, output })
            } else {
                Err::<Args, ComicError>(ComicError::Usage)
            }),
            r matches Ok(a) ==> a.valid(),
    {
        let zero_num = match num {
            Some(n) => n == 0,
            None => false,
        };
        if timeout == 0 || zero_num {
            Err(ComicError::Usage)
        } else {
            Ok(Args { num, timeout, save, output })
        }
    }
}

} // verus!
