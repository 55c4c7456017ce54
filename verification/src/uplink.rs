//! Command lines of `uplink`, the transfer tool of the process-backed sink.

use vstd::prelude::*;
use crate::metadata::Metadata;
use crate::process::{Command, CommandModel, Pipe};
use crate::sink::{ObjectKind, SinkDescriptor, SinkModel, SinkRequest, SinkRequestModel, SinkWrite,
    WriteModel};
use crate::text::{optional_text, push_text, texts, concat2};

verus! {

/// What a transfer is asked to do besides moving the bytes.
#[derive(Clone, Copy, Debug)]
pub struct TransferOptions<'a> {
    /// Whether an object already at the destination may be replaced.
    pub overwrite: bool,
    /// The JSON text of the metadata to store with the object.
    pub metadata_json: Option<&'a str>,
    /// After what time the object may be dropped, such as `+1h`.
    pub expires: Option<&'a str>,
}

/// The options as contracts see them.
pub struct TransferOptionsModel {
    pub overwrite: bool,
    pub metadata_json: Option<Seq<char>>,
    pub expires: Option<Seq<char>>,
}

impl<'a> View for TransferOptions<'a> {
    type V = TransferOptionsModel;

    open spec fn view(&self) -> TransferOptionsModel {
        TransferOptionsModel {
            overwrite: self.overwrite,
            metadata_json: optional_text(self.metadata_json),
            expires: optional_text(self.expires),
        }
    }
}

/// The address of an object in a bucket.
pub open spec fn object_url_text(bucket: Seq<char>, key: Seq<char>) -> Seq<char> {
    "sj://"@ + bucket + "/"@ + key
}

/// The arguments that every transfer starts with: the verb, and the flags
/// that keep the tool from asking and reporting.
pub open spec fn leading_args(verb: Seq<char>) -> Seq<Seq<char>> {
    seq![verb, "--interactive=false"@, "--analytics=false"@, "--progress=false"@]
}

/// The arguments that the options add.
pub open spec fn option_args(options: TransferOptionsModel) -> Seq<Seq<char>> {
    (if options.overwrite {
        seq!["--immutable=false"@]
    } else {
        Seq::<Seq<char>>::empty()
    }) + (match options.metadata_json {
        Some(json) => seq!["--metadata="@ + json],
        None => Seq::<Seq<char>>::empty(),
    }) + (match options.expires {
        Some(after) => seq!["--expires"@, after],
        None => Seq::<Seq<char>>::empty(),
    })
}

/// The full argument list of one transfer.
pub open spec fn transfer_args(
    verb: Seq<char>,
    options: TransferOptionsModel,
    grant: Seq<char>,
    from: Seq<char>,
    to: Seq<char>,
) -> Seq<Seq<char>> {
    leading_args(verb) + option_args(options) + seq!["--access"@, grant, from, to]
}

/// Builds the address of an object in a bucket.
pub fn object_url(bucket: &str, key: &str) -> (url: String)
    ensures
        url@ == object_url_text(bucket@, key@),
{
    let mut url = String::from_str("sj://");
    url.append(bucket);
    url.append("/");
    url.append(key);
    url
}

/// Builds the argument list of one transfer, from `from` to `to`, either of
/// which may be `-` for the tool's own input or output.
pub fn transfer(
    verb: &str,
    options: TransferOptions<'_>,
    grant: &str,
    from: &str,
    to: &str,
) -> (args: Vec<String>)
    ensures
        texts(args@) == transfer_args(verb@, options@, grant@, from@, to@),
{
    let mut args: Vec<String> = Vec::new();
    assert(texts(args@) =~= Seq::<Seq<char>>::empty());
    push_text(&mut args, verb);
    push_text(&mut args, "--interactive=false");
    push_text(&mut args, "--analytics=false");
    push_text(&mut args, "--progress=false");
    assert(texts(args@) =~= leading_args(verb@));
    if options.overwrite {
        push_text(&mut args, "--immutable=false");
    }
    match options.metadata_json {
        Some(json) => {
            let flag = concat2("--metadata=", json);
            push_text(&mut args, flag.as_str());
        },
        None => {},
    }
    match options.expires {
        Some(after) => {
            push_text(&mut args, "--expires");
            push_text(&mut args, after);
        },
        None => {},
    }
    assert(texts(args@) =~= leading_args(verb@) + option_args(options@));
    push_text(&mut args, "--access");
    push_text(&mut args, grant);
    push_text(&mut args, from);
    push_text(&mut args, to);
    assert(texts(args@) =~= transfer_args(verb@, options@, grant@, from@, to@));
    args
}

/// The process that copies what it reads on its input to `to`. What the
/// tool complains about goes to the caller, which hands it on with the
/// failure.
pub open spec fn copy_in_model(
    options: TransferOptionsModel,
    grant: Seq<char>,
    to: Seq<char>,
) -> CommandModel {
    CommandModel {
        program: "uplink"@,
        args: transfer_args("cp"@, options, grant, "-"@, to),
        stdin: Pipe::Piped,
        stdout: Pipe::Null,
        stderr: Pipe::Piped,
    }
}

/// The process that copies the object at `from` into the local file `to`.
pub open spec fn copy_out_model(grant: Seq<char>, from: Seq<char>, to: Seq<char>) -> CommandModel {
    CommandModel {
        program: "uplink"@,
        args: transfer_args(
            "cp"@,
            TransferOptionsModel { overwrite: false, metadata_json: None, expires: None },
            grant,
            from,
            to,
        ),
        stdin: Pipe::Inherit,
        stdout: Pipe::Null,
        stderr: Pipe::Piped,
    }
}

/// The process that moves the object at `from` to `to`.
pub open spec fn move_model(grant: Seq<char>, from: Seq<char>, to: Seq<char>) -> CommandModel {
    CommandModel {
        program: "uplink"@,
        args: transfer_args(
            "mv"@,
            TransferOptionsModel { overwrite: false, metadata_json: None, expires: None },
            grant,
            from,
            to,
        ),
        stdin: Pipe::Null,
        stdout: Pipe::Inherit,
        stderr: Pipe::Piped,
    }
}

/// Builds the process that stores what it is fed on its input at `to`, and
/// lets the caller collect what the tool complains about.
pub fn copy_in(options: TransferOptions<'_>, grant: &str, to: &str) -> (command: Command)
    ensures
        command@ == copy_in_model(options@, grant@, to@),
{
    Command {
        program: String::from_str("uplink"),
        args: transfer("cp", options, grant, "-", to),
        stdin: Pipe::Piped,
        stdout: Pipe::Null,
        stderr: Pipe::Piped,
    }
}

/// Builds the process that fetches the object at `from` into the local file
/// `to`, and lets the caller collect what the tool complains about.
pub fn copy_out(grant: &str, from: &str, to: &str) -> (command: Command)
    ensures
        command@ == copy_out_model(grant@, from@, to@),
{
    let options = TransferOptions { overwrite: false, metadata_json: None, expires: None };
    Command {
        program: String::from_str("uplink"),
        args: transfer("cp", options, grant, from, to),
        stdin: Pipe::Inherit,
        stdout: Pipe::Null,
        stderr: Pipe::Piped,
    }
}

/// Builds the process that moves the object at `from` to `to` within the
/// store, and lets the caller collect what the tool complains about.
pub fn move_object(grant: &str, from: &str, to: &str) -> (command: Command)
    ensures
        command@ == move_model(grant@, from@, to@),
{
    let options = TransferOptions { overwrite: false, metadata_json: None, expires: None };
    Command {
        program: String::from_str("uplink"),
        args: transfer("mv", options, grant, from, to),
        stdin: Pipe::Null,
        stdout: Pipe::Inherit,
        stderr: Pipe::Piped,
    }
}

/// The metadata of an optional pair of a mapping and its JSON text.
pub open spec fn metadata_of(encoded: Option<(Metadata, &str)>) -> Option<Map<Seq<char>, Seq<char>>> {
    match encoded {
        Some(pair) => Some(pair.0@),
        None => None,
    }
}

/// The JSON text of an optional pair of a mapping and its JSON text.
pub open spec fn json_of(encoded: Option<(Metadata, &str)>) -> Option<Seq<char>> {
    match encoded {
        Some(pair) => Some(pair.1@),
        None => None,
    }
}

/// The write that stores an object under `key` in a process-backed sink: the
/// tool is fed the object on its input and files it below the sink's root,
/// with the sink's credential as its access grant.
pub open spec fn write_model(
    sink: SinkModel,
    key: Seq<char>,
    object: ObjectKind,
    metadata: Option<Map<Seq<char>, Seq<char>>>,
    options: TransferOptionsModel,
) -> WriteModel {
    WriteModel {
        sink,
        key,
        object,
        metadata,
        expires: options.expires,
        request: SinkRequestModel::Run(
            copy_in_model(
                options,
                sink.credential,
                object_url_text(sink.destination_root, key),
            ),
        ),
    }
}

/// Builds the write that stores an object under `key` in a process-backed
/// sink. `encoded` holds the metadata together with its JSON text, where the
/// object carries any.
pub fn write(
    sink: SinkDescriptor,
    key: String,
    object: ObjectKind,
    encoded: Option<(Metadata, &str)>,
    expires: Option<&str>,
    overwrite: bool,
) -> (planned: SinkWrite)
    ensures
        planned@ == write_model(
            sink@,
            key@,
            object,
            metadata_of(encoded),
            TransferOptionsModel {
                overwrite,
                metadata_json: json_of(encoded),
                expires: optional_text(expires),
            },
        ),
{
    let to = object_url(sink.destination_root.as_str(), key.as_str());
    let (metadata, metadata_json) = match encoded {
        Some(pair) => (Some(pair.0), Some(pair.1)),
        None => (None, None),
    };
    let options = TransferOptions { overwrite, metadata_json, expires };
    let command = copy_in(options, sink.credential.as_str(), to.as_str());
    let kept = match expires {
        Some(after) => Some(String::from_str(after)),
        None => None,
    };
    SinkWrite { sink, key, object, metadata, expires: kept, request: SinkRequest::Run(command) }
}

/// What is reported when the tool exits with a failure: what the tool
/// complained about, behind a fixed opening.
pub open spec fn failure_text(stderr: Seq<char>) -> Seq<char> {
    "uplink command failed: "@ + stderr
}

/// Builds the report of a failed transfer from what the tool wrote to its
/// error stream.
pub fn failure(stderr: &str) -> (report: String)
    ensures
        report@ == failure_text(stderr@),
{
    concat2("uplink command failed: ", stderr)
}

} // verus!
