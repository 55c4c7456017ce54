//! `POST /move-to-nsfw` within the process-backed sink: the transfer tool
//! moves the video from the bucket of the general partition to that of the
//! restricted one.

use vstd::prelude::*;
use crate::consts::Config;
use crate::http::{message_response, Response, INTERNAL_SERVER_ERROR, OK};
use crate::keys::{video_key, video_key_text};
use crate::move2nsfw::Args;
use crate::process::{Command, CommandModel};
use crate::uplink::{failure, failure_text, move_model, move_object, object_url,
    object_url_text};

verus! {

/// Why a request of this route failed.
#[derive(Debug)]
pub enum Error {
    /// The transfer tool could not be run.
    Io(String),
    /// The transfer tool exited with a failure. It carries what the tool
    /// complained about.
    Uplink(String),
}

impl Error {
    /// The message with which the service answers this error. It names the
    /// kind of failure and none of its detail.
    pub open spec fn message(self) -> Seq<char> {
        match self {
            Error::Io(_) => "Internal server error. Check server logs."@,
            Error::Uplink(_) => "uplink exitted with an error. Check server logs."@,
        }
    }

    /// The response that the service gives for this error: status 500 and
    /// the message.
    pub fn into_response(self) -> (response: Response)
        ensures
            response@ == message_response(INTERNAL_SERVER_ERROR, self.message()),
    {
        match self {
            Error::Io(_) => Response::message(
                INTERNAL_SERVER_ERROR,
                "Internal server error. Check server logs.",
            ),
            Error::Uplink(_) => Response::message(
                INTERNAL_SERVER_ERROR,
                "uplink exitted with an error. Check server logs.",
            ),
        }
    }
}

/// The process that moves a request's video. It works with the access
/// grant of the general partition.
pub open spec fn move_command_model(config: Config, request: Args) -> CommandModel {
    let key = video_key_text(request.publisher_user_id@, request.video_id@);
    move_model(
        config.access_grant_sfw@,
        object_url_text(config.yral_videos@, key),
        object_url_text(config.yral_nsfw_videos@, key),
    )
}

/// Builds the process that moves a request's video.
pub fn handler(config: &Config, request: &Args) -> (command: Command)
    ensures
        command@ == move_command_model(*config, *request),
{
    let key = video_key(request.publisher_user_id.as_str(), request.video_id.as_str());
    let source = object_url(config.yral_videos.as_str(), key.as_str());
    let dest = object_url(config.yral_nsfw_videos.as_str(), key.as_str());
    move_object(config.access_grant_sfw.as_str(), source.as_str(), dest.as_str())
}

/// What the end of the process means for the move: success where the
/// tool exited with success, a failure that carries what the tool complained
/// about where it exited with a failure, and an error where it could not be
/// run.
pub fn move_result(exit: Result<bool, String>, stderr: String) -> (result: Result<(), Error>)
    ensures
        match exit {
            Ok(succeeded) => if succeeded {
                result is Ok
            } else {
                result == Err::<(), Error>(Error::Uplink(stderr))
            },
            Err(report) => result == Err::<(), Error>(Error::Io(report)),
        },
{
    match exit {
        Ok(succeeded) => {
            if succeeded {
                Ok(())
            } else {
                Err(Error::Uplink(stderr))
            }
        },
        Err(report) => Err(Error::Io(report)),
    }
}

/// The answer to a request whose move has ended: `moved` where it
/// succeeded, and else the answer to its error.
pub fn respond(moved: Result<(), Error>) -> (response: Response)
    ensures
        match moved {
            Ok(_) => response@ == message_response(OK, "moved"@),
            Err(error) => response@ == message_response(INTERNAL_SERVER_ERROR, error.message()),
        },
{
    match moved {
        Ok(_) => Response::message(OK, "moved"),
        Err(error) => error.into_response(),
    }
}

impl Error {
    /// What the error reads in a report, with its detail.
    pub open spec fn text(self) -> Seq<char> {
        match self {
            Error::Io(report) => report@,
            Error::Uplink(diagnostic) => failure_text(diagnostic@),
        }
    }

    /// Renders the error, with its detail, for a report.
    pub fn describe(&self) -> (text: String)
        ensures
            text@ == self.text(),
    {
        match self {
            Error::Io(report) => report.clone(),
            Error::Uplink(diagnostic) => failure(diagnostic.as_str()),
        }
    }
}

} // verus!
