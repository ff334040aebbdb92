//! What the dashboard works out around its calls to the control plane.

use crate::canonical::{text_at, view_opt};
use crate::container::{texts, Container, ContainerView, Image, ImageView};
use crate::json::{json_of_text, Json, JsonValue};
use crate::manifest_parser::{container_template, lemma_template_container, template_container};
use vstd::prelude::*;
use vstd::string::StringExecFns;

verus! {

/// The words of a command as a POSIX shell splits it, `None` where the
/// command ends inside a quotation or behind a backslash.
pub uninterp spec fn shell_words(command: Seq<char>) -> Option<Seq<Seq<char>>>;

/// `shlex::split`: the words of the command, where it can be split.
#[verifier::external_body]
fn split_words(command: &str) -> (words: Option<Vec<String>>)
    ensures
        words.is_some() == shell_words(command@).is_some(),
        words matches Some(list) ==> shell_words(command@) == Some(texts(list@)),
{
    shlex::split(command)
}

/// The program and the arguments of the command that deploys all manifests
/// again, `None` where the command cannot be split into words.
pub fn redeploy_containers(redeploy_command: &str) -> (words: Option<Vec<String>>)
    ensures
        words.is_some() == shell_words(redeploy_command@).is_some(),
        words matches Some(list) ==> shell_words(redeploy_command@) == Some(texts(list@)),
{
    split_words(redeploy_command)
}

/// A line of a container's log.
#[derive(Debug, PartialEq, Eq)]
pub struct KantoLogLine {
    pub stream: String,
    pub log: String,
    pub time: String,
}

pub struct KantoLogLineView {
    pub stream: Seq<char>,
    pub log: Seq<char>,
    pub time: Seq<char>,
}

impl View for KantoLogLine {
    type V = KantoLogLineView;

    open spec fn view(&self) -> KantoLogLineView {
        KantoLogLineView { stream: self.stream@, log: self.log@, time: self.time@ }
    }
}

/// The log line that a document holds.
pub open spec fn decode_log_line(value: JsonValue) -> Option<KantoLogLineView> {
    match (text_at(value, "stream"@), text_at(value, "log"@), text_at(value, "time"@)) {
        (Some(stream), Some(log), Some(time)) => Some(KantoLogLineView { stream, log, time }),
        _ => None,
    }
}

impl KantoLogLine {
    /// Reads a log line from a document.
    pub fn from_json(json: &Json) -> (line: Option<KantoLogLine>)
        ensures
            view_opt(line) == decode_log_line(json@),
    {
        let stream = match json.get("stream") {
            Some(Json::Text(text)) => text.clone(),
            _ => {
                return None;
            },
        };
        let log = match json.get("log") {
            Some(Json::Text(text)) => text.clone(),
            _ => {
                return None;
            },
        };
        let time = match json.get("time") {
            Some(Json::Text(text)) => text.clone(),
            _ => {
                return None;
            },
        };
        Some(KantoLogLine { stream, log, time })
    }
}

/// The bytes of a text without the escape sequences that steer a terminal,
/// `None` where they cannot be written out.
pub uninterp spec fn without_escapes(text: Seq<char>) -> Option<Seq<u8>>;

/// `strip_ansi_escapes::strip`: the bytes of the text with the escape
/// sequences taken out.
#[verifier::external_body]
fn strip_escapes(text: &str) -> (bytes: Option<Vec<u8>>)
    ensures
        view_opt(bytes) == without_escapes(text@),
{
    strip_ansi_escapes::strip(text).ok()
}

/// The text that bytes hold, with the replacement character in place of what
/// is not UTF-8.
pub uninterp spec fn lossy_text(bytes: Seq<u8>) -> Seq<char>;

/// `String::from_utf8_lossy`: the text of the bytes.
#[verifier::external_body]
fn text_of_bytes(bytes: &[u8]) -> (text: String)
    ensures
        text@ == lossy_text(bytes@),
{
    String::from_utf8_lossy(bytes).into_owned()
}

/// What a log line adds to the log shown: its text without escape sequences,
/// and nothing where those cannot be taken out.
pub open spec fn shown_text(log: Seq<char>) -> Seq<char> {
    match without_escapes(log) {
        Some(bytes) => lossy_text(bytes),
        None => Seq::empty(),
    }
}

/// Adds a log line to the log shown, without the escape sequences in it.
pub fn strip_and_push(line: &KantoLogLine, log: &mut String)
    ensures
        final(log)@ == old(log)@ + shown_text(line.log@),
{
    match strip_escapes(line.log.as_str()) {
        Some(stripped) => {
            let text = text_of_bytes(stripped.as_slice());
            log.append(text.as_str());
        },
        None => {},
    }
}

/// Why a message of the log stream was not added to the log shown.
#[derive(Debug, PartialEq, Eq, Clone, Copy, Structural)]
pub enum LogError {
    /// The message is no JSON.
    InvalidJson,
    /// The message is no log line.
    NotALogLine,
}

/// What a message of the log stream adds to the log shown.
pub open spec fn shown_message(message: Seq<char>) -> Result<Seq<char>, LogError> {
    match json_of_text(message) {
        None => Err(LogError::InvalidJson),
        Some(value) => match decode_log_line(value) {
            None => Err(LogError::NotALogLine),
            Some(line) => Ok(shown_text(line.log)),
        },
    }
}

/// Adds a message of the log stream to the log shown. A message that is no
/// log line leaves the log as it is.
pub fn get_logs(message: &str, log: &mut String) -> (added: Result<(), LogError>)
    ensures
        match shown_message(message@) {
            Ok(text) => added is Ok && final(log)@ == old(log)@ + text,
            Err(e) => added == Err::<(), LogError>(e) && final(log)@ == old(log)@,
        },
{
    let value = match Json::parse(message) {
        Some(value) => value,
        None => {
            return Err(LogError::InvalidJson);
        },
    };
    match KantoLogLine::from_json(&value) {
        Some(parsed_line) => {
            strip_and_push(&parsed_line, log);
            Ok(())
        },
        None => Err(LogError::NotALogLine),
    }
}

/// The description of a new container with this name, made from this image:
/// the defaults of the template for everything else.
pub open spec fn described(name: Seq<char>, registry: Seq<char>) -> ContainerView {
    ContainerView {
        name,
        image: Some(ImageView { name: registry }),
        ..template_container()
    }
}

/// Describes a new container with this name, made from this image.
pub fn create_container(name: &str, registry: &str) -> (container: Container)
    ensures
        container@ == described(name@, registry@),
{
    let members = container_template();
    proof {
        Json::lemma_object_view(members);
        lemma_template_container();
    }
    let document = Json::Object(members);
    let mut template = Container::from_json(&document).unwrap();
    template.name = name.to_owned();
    template.image = Some(Image { name: registry.to_owned() });
    template
}

} // verus!
