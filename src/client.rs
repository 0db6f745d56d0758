use vstd::prelude::*;
use vstd::string::StringExecFns;

use crate::comic::{comic_of, decoded, rendered, Comic, ComicResponse, ComicView};
use crate::config::Args;
use crate::decimal::{decimal, push_decimal};
use crate::error::ComicError;
use crate::url_name::{file_name_of, image_file_name};

verus! {

/// The root of the comic API.
pub const BASE_URL: &'static str = "https://xkcd.com";

/// The metadata URL of comic `num`, or of the latest comic.
pub open spec fn metadata_url_of(num: Option<usize>) -> Seq<char> {
    match num {
        Some(n) => BASE_URL@ + "/"@ + decimal(n as nat) + "/info.0.json"@,
        None => BASE_URL@ + "/info.0.json"@,
    }
}

/// An image to download, and the file name to write it under.
#[derive(Debug, Clone, PartialEq, Eq)]
pub struct SaveJob {
    pub image_url: String,
    pub file_name: String,
}

/// What remains of a run once the metadata is in: the comic, the image to
/// save first where saving was asked for, and the text for standard output.
#[derive(Debug, Clone, PartialEq, Eq)]
pub struct Plan {
    pub comic: Comic,
    pub save: Option<SaveJob>,
    pub output: String,
}

/// The model of a [`Plan`]; a save job is its image URL and file name.
pub struct PlanView {
    pub comic: ComicView,
    pub save: Option<(Seq<char>, Seq<char>)>,
    pub output: Seq<char>,
}

impl View for Plan {
    type V = PlanView;

    open spec fn view(&self) -> PlanView {
        PlanView {
            comic: self.comic@,
            save: match self.save {
                Some(j) => Some((j.image_url@, j.file_name@)),
                None => None,
            },
            output: self.output@,
        }
    }
}

/// The plan for a metadata body under a configuration: the body must decode,
/// and where the image is to be saved, its URL must yield a file name.
pub open spec fn plan_of(args: Args, body: Seq<char>) -> Result<PlanView, ComicError> {
    match decoded(body) {
        None => Err(ComicError::Decode),
        Some(resp) => {
            let c = comic_of(resp);
            let output = rendered(c, args.output);
            if args.save {
                match file_name_of(c.image_url) {
                    None => Err(ComicError::InvalidUrl),
                    Some(name) => Ok(PlanView { comic: c, save: Some((c.image_url, name)), output }),
                }
            } else {
                Ok(PlanView { comic: c, save: None, output })
            }
        },
    }
}

/// The model of a planning result.
pub open spec fn plan_result_view(r: Result<Plan, ComicError>) -> Result<PlanView, ComicError> {
    match r {
        Ok(p) => Ok(p@),
        Err(e) => Err(e),
    }
}

/// The outcome of a metadata response with HTTP status `status`: its body on
/// a success status (200 to 299), else `Http` with the status.
pub fn response_outcome(status: u16, body: String) -> (r: Result<String, ComicError>)
    ensures
        200 <= status <= 299 ==> r == Ok::<String, ComicError>(body),
        !(200 <= status <= 299) ==> r == Err::<String, ComicError>(ComicError::Http(status)),
{
    if 200 <= status && status <= 299 {
        Ok(body)
    } else {
        Err(ComicError::Http(status))
    }
}

/// One run of the program under a configuration.
#[derive(Debug, Clone, Copy, PartialEq, Eq)]
pub struct XkcdClient {
    pub args: Args,
}

impl XkcdClient {
    /// A client for the configuration `args`.
    pub fn new(args: Args) -> (r: XkcdClient)
        ensures
            r.args == args,
    {
        XkcdClient { args }
    }

    /// The URL to fetch the metadata from: `<base>/<num>/info.0.json` for a
    /// given comic, `<base>/info.0.json` for the latest.
    pub fn metadata_url(&self) -> (r: String)
        ensures
            r@ == metadata_url_of(self.args.num),
    {
        let mut url = String::from_str(BASE_URL);
        match self.args.num {
            Some(n) => {
                url.append("/");
                push_decimal(&mut url, n);
                url.append("/info.0.json");
            },
            None => {
                url.append("/info.0.json");
            },
        }
        proof {
            assert(url@ =~= metadata_url_of(self.args.num));
        }
        url
    }

    /// Seconds to wait for the metadata response.
    pub fn timeout_secs(&self) -> (r: u64)
        ensures
            r == self.args.timeout,
    {
        self.args.timeout
    }

    /// Decides the rest of a run from the outcome of the metadata fetch. A
    /// failed fetch ends the run with its own error, before anything is saved
    /// or written; a body ends it with `Decode` where it does not decode, and
    /// with `InvalidUrl` where an image is to be saved and its URL yields no
    /// file name.
    pub fn plan(&self, fetched: Result<String, ComicError>) -> (r: Result<Plan, ComicError>)
        ensures
            fetched matches Err(e) ==> r == Err::<Plan, ComicError>(e),
            fetched matches Ok(body) ==> plan_result_view(r) == plan_of(self.args, body@),
    {
        let body = match fetched {
            Ok(body) => body,
            Err(e) => return Err(e),
        };
        let comic = match ComicResponse::try_from(body) {
            Ok(resp) => Comic::from(resp),
            Err(e) => return Err(e),
        };
        let output = comic.render(self.args.output);
        let save = if self.args.save {
            match image_file_name(&comic.image_url) {
                Ok(file_name) => Some(SaveJob { image_url: comic.image_url.clone(), file_name }),
                Err(e) => return Err(e),
            }
        } else {
            None
        };
        Ok(Plan { comic, save, output })
    }
}

} // verus!
