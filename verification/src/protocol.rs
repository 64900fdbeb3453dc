//! The line protocol spoken with the inference process: one command line
//! goes out, and the answer is the first line of the output that bears the
//! response marker.

use vstd::prelude::*;
use vstd::string::StringExecFns;
use crate::checksum::push_range;
use crate::error::DiffusionError;
use crate::json::{parse_document, parsed_string_members, string_member, string_members};

verus! {

/// The line feed, which ends a line.
pub const LINE_FEED: u8 = 0x0A;

/// The carriage return, which may stand before a line feed.
pub const CARRIAGE_RETURN: u8 = 0x0D;

/// What a command line starts with: `b2py t2im` and a space.
pub open spec fn command_prefix() -> Seq<u8> {
    seq![0x62u8, 0x32, 0x70, 0x79, 0x20, 0x74, 0x32, 0x69, 0x6D, 0x20]
}

/// What precedes the payload of a response: `sdbk nwim` and a space.
pub open spec fn response_marker() -> Seq<u8> {
    seq![0x73u8, 0x64, 0x62, 0x6B, 0x20, 0x6E, 0x77, 0x69, 0x6D, 0x20]
}

/// The command line that carries a payload: the prefix, the payload, and
/// one line feed.
pub open spec fn command_line(payload: Seq<u8>) -> Seq<u8> {
    command_prefix() + payload + seq![LINE_FEED]
}

/// Frames a payload as the command line that is written to the process.
pub fn frame_command(payload: &[u8]) -> (line: Vec<u8>)
    ensures
        line@ == command_line(payload@),
{
    let mut line: Vec<u8> = vec![0x62u8, 0x32, 0x70, 0x79, 0x20, 0x74, 0x32, 0x69, 0x6D, 0x20];
    assert(line@ =~= command_prefix());
    push_range(&mut line, payload, 0, payload.len());
    assert(payload@.subrange(0, payload@.len() as int) =~= payload@);
    line.push(LINE_FEED);
    line
}

/// A payload without a line feed is framed as a single line: the only line
/// feed of the command line is its last byte.
pub proof fn lemma_command_is_one_line(payload: Seq<u8>)
    requires
        forall|i: int| 0 <= i < payload.len() ==> payload[i] != LINE_FEED,
    ensures
        command_line(payload).len() == payload.len() + 11,
        command_line(payload).last() == LINE_FEED,
        forall|i: int|
            0 <= i < command_line(payload).len() - 1 ==> command_line(payload)[i] != LINE_FEED,
{
    let line = command_line(payload);
    assert forall|i: int| 0 <= i < line.len() - 1 implies line[i] != LINE_FEED by {
        if i >= 10 {
            assert(line[i] == payload[i - 10]);
        }
    }
}

/// Index of the first line feed of a text, or the length of the text where
/// it has none.
pub open spec fn line_end(text: Seq<u8>) -> int
    decreases text.len(),
{
    if text.len() == 0 || text[0] == LINE_FEED {
        0
    } else {
        1 + line_end(text.skip(1))
    }
}

/// No line feed stands before `line_end`, and one stands there unless the
/// text ends there.
pub proof fn lemma_line_end(text: Seq<u8>)
    ensures
        0 <= line_end(text) <= text.len(),
        forall|i: int| 0 <= i < line_end(text) ==> text[i] != LINE_FEED,
        line_end(text) < text.len() ==> text[line_end(text)] == LINE_FEED,
    decreases text.len(),
{
    if !(text.len() == 0 || text[0] == LINE_FEED) {
        let rest = text.skip(1);
        lemma_line_end(rest);
        assert forall|i: int| 0 <= i < line_end(text) implies text[i] != LINE_FEED by {
            if i > 0 {
                assert(text[i] == rest[i - 1]);
            }
        }
    }
}

/// An index that no line feed stands before, and that holds a line feed or
/// is the end of the text, is `line_end`.
pub proof fn lemma_line_end_is(text: Seq<u8>, end: int)
    requires
        0 <= end <= text.len(),
        forall|i: int| 0 <= i < end ==> text[i] != LINE_FEED,
        end < text.len() ==> text[end] == LINE_FEED,
    ensures
        line_end(text) == end,
{
    lemma_line_end(text);
}

/// The first line of a text that is not empty: what stands before the first
/// line feed, without the carriage return that may precede the line feed.
/// A last line that no line feed ends keeps a carriage return at its end.
pub open spec fn first_line(text: Seq<u8>) -> Seq<u8> {
    let end = line_end(text);
    if end < text.len() && end > 0 && text[end - 1] == CARRIAGE_RETURN {
        text.take(end - 1)
    } else {
        text.take(end)
    }
}

/// What follows the first line and the line feed that ends it.
pub open spec fn after_first_line(text: Seq<u8>) -> Seq<u8> {
    let end = line_end(text);
    if end < text.len() {
        text.skip(end + 1)
    } else {
        Seq::empty()
    }
}

/// Whether the response marker stands at index `at` of a line.
pub open spec fn marker_at(line: Seq<u8>, at: int) -> bool {
    &&& 0 <= at
    &&& at + response_marker().len() <= line.len()
    &&& line.subrange(at, at + response_marker().len()) == response_marker()
}

/// Index of the first place at or after `from` where the marker stands.
pub open spec fn marker_from(line: Seq<u8>, from: int) -> Option<int>
    decreases line.len() - from,
{
    if from < 0 || from + response_marker().len() > line.len() {
        None
    } else if marker_at(line, from) {
        Some(from)
    } else {
        marker_from(line, from + 1)
    }
}

/// Index of the first place of a line where the marker stands. A line bears
/// the marker when there is such a place.
pub open spec fn marker_position(line: Seq<u8>) -> Option<int> {
    marker_from(line, 0)
}

/// `marker_from` finds a place where the marker stands, before which from
/// `from` on it stands nowhere, or finds none where it stands nowhere from
/// `from` on.
pub proof fn lemma_marker_from(line: Seq<u8>, from: int)
    requires
        0 <= from,
    ensures
        match marker_from(line, from) {
            Some(at) => from <= at && marker_at(line, at) && forall|i: int|
                from <= i < at ==> !marker_at(line, i),
            None => forall|i: int| from <= i ==> !marker_at(line, i),
        },
    decreases line.len() - from,
{
    if from + response_marker().len() <= line.len() && !marker_at(line, from) {
        lemma_marker_from(line, from + 1);
    }
}

/// The payload of a line: what follows the first marker on it, if the line
/// bears the marker.
pub open spec fn line_payload(line: Seq<u8>) -> Option<Seq<u8>> {
    match marker_position(line) {
        Some(at) => Some(line.skip(at + response_marker().len())),
        None => None,
    }
}

/// The payload of the first line of a text that bears the marker.
pub open spec fn first_payload(text: Seq<u8>) -> Option<Seq<u8>>
    decreases text.len(),
{
    if text.len() == 0 {
        None
    } else {
        match line_payload(first_line(text)) {
            Some(payload) => Some(payload),
            None => {
                proof {
                    lemma_line_end(text);
                }
                first_payload(after_first_line(text))
            },
        }
    }
}

/// Cuts the first line off the text that starts at index `from`. Returns
/// the line and the index at which the rest starts.
pub fn take_line(text: &[u8], from: usize) -> (cut: (Vec<u8>, usize))
    requires
        from < text.len(),
    ensures
        cut.0@ == first_line(text@.skip(from as int)),
        from < cut.1 <= text.len(),
        text@.skip(cut.1 as int) == after_first_line(text@.skip(from as int)),
{
    let ghost rest = text@.skip(from as int);
    let mut end: usize = from;
    while end < text.len() && text[end] != LINE_FEED
        invariant
            from <= end <= text.len(),
            forall|i: int| from <= i < end ==> text@[i] != LINE_FEED,
        decreases text.len() - end,
    {
        end += 1;
    }
    proof {
        assert forall|i: int| 0 <= i < end - from implies rest[i] != LINE_FEED by {
            assert(rest[i] == text@[from + i]);
        }
        lemma_line_end_is(rest, end - from);
    }
    let terminated: bool = end < text.len();
    let stop: usize = if terminated && end > from && text[end - 1] == CARRIAGE_RETURN {
        end - 1
    } else {
        end
    };
    let mut line: Vec<u8> = Vec::new();
    push_range(&mut line, text, from, stop);
    let next: usize = if terminated {
        end + 1
    } else {
        end
    };
    proof {
        assert(line@ =~= rest.take(stop - from));
        if terminated {
            assert(text@.skip(next as int) =~= rest.skip(end - from + 1));
        } else {
            assert(text@.skip(next as int) =~= Seq::<u8>::empty());
        }
    }
    (line, next)
}

/// Whether the marker stands at index `at` of a line.
pub fn has_marker_at(line: &[u8], at: usize) -> (found: bool)
    requires
        at + 10 <= line.len(),
    ensures
        found == marker_at(line@, at as int),
{
    let found = line[at] == 0x73 && line[at + 1] == 0x64 && line[at + 2] == 0x62 && line[at + 3]
        == 0x6B && line[at + 4] == 0x20 && line[at + 5] == 0x6E && line[at + 6] == 0x77
        && line[at + 7] == 0x69 && line[at + 8] == 0x6D && line[at + 9] == 0x20;
    proof {
        let window = line@.subrange(at as int, at + 10);
        if found {
            assert(window =~= response_marker());
        } else {
            if window == response_marker() {
                assert(window[0] == 0x73 && window[1] == 0x64 && window[2] == 0x62 && window[3]
                    == 0x6B && window[4] == 0x20 && window[5] == 0x6E && window[6] == 0x77
                    && window[7] == 0x69 && window[8] == 0x6D && window[9] == 0x20);
            }
        }
    }
    found
}

/// Finds the first place of a line where the marker stands.
pub fn find_marker(line: &[u8]) -> (found: Option<usize>)
    ensures
        match found {
            Some(at) => marker_position(line@) == Some(at as int) && at + 10 <= line.len(),
            None => marker_position(line@) is None,
        },
{
    if line.len() < 10 {
        return None;
    }
    let last: usize = line.len() - 10;
    let mut at: usize = 0;
    while at <= last
        invariant
            last == line.len() - 10,
            at <= last + 1,
            marker_from(line@, at as int) == marker_position(line@),
        decreases last + 1 - at,
    {
        if has_marker_at(line, at) {
            return Some(at);
        }
        at += 1;
    }
    None
}

/// Cuts the payload out of a line that bears the marker.
pub fn payload_of_line(line: &[u8]) -> (payload: Option<Vec<u8>>)
    ensures
        match payload {
            Some(bytes) => line_payload(line@) == Some(bytes@),
            None => line_payload(line@) is None,
        },
{
    match find_marker(line) {
        Some(at) => {
            proof {
                lemma_marker_from(line@, 0);
            }
            let mut payload: Vec<u8> = Vec::new();
            push_range(&mut payload, line, at + 10, line.len());
            assert(payload@ =~= line@.skip(at + 10));
            Some(payload)
        },
        None => None,
    }
}

/// Scans the output of the process line by line and cuts the payload out
/// of the first line that bears the marker.
pub fn find_response_payload(output: &[u8]) -> (payload: Option<Vec<u8>>)
    ensures
        match payload {
            Some(bytes) => first_payload(output@) == Some(bytes@),
            None => first_payload(output@) is None,
        },
{
    let mut from: usize = 0;
    assert(output@.skip(0) =~= output@);
    while from < output.len()
        invariant
            from <= output.len(),
            first_payload(output@.skip(from as int)) == first_payload(output@),
        decreases output.len() - from,
    {
        let (line, next) = take_line(output, from);
        match payload_of_line(line.as_slice()) {
            Some(bytes) => {
                return Some(bytes);
            },
            None => {},
        }
        from = next;
    }
    None
}

/// What the inference process answered.
#[derive(Debug)]
pub struct ImageGenerationResponse {
    /// Path of the image that was generated.
    pub generated_img_path: String,
    /// Path of an auxiliary image, where the process wrote one.
    pub aux_output_image_path: Option<String>,
}

/// A response as the contracts see it.
pub struct ResponseView {
    pub generated_img_path: Seq<char>,
    pub aux_output_image_path: Option<Seq<char>>,
}

impl View for ImageGenerationResponse {
    type V = ResponseView;

    open spec fn view(&self) -> ResponseView {
        ResponseView {
            generated_img_path: self.generated_img_path@,
            aux_output_image_path: match self.aux_output_image_path {
                Some(path) => Some(path@),
                None => None,
            },
        }
    }
}

/// The response that the string members of a document spell: the member
/// `generated_img_path` is required, `aux_output_image_path` is not.
pub open spec fn response_of_members(members: Map<Seq<char>, Seq<char>>) -> Option<ResponseView> {
    if members.contains_key("generated_img_path"@) {
        Some(
            ResponseView {
                generated_img_path: members["generated_img_path"@],
                aux_output_image_path: if members.contains_key("aux_output_image_path"@) {
                    Some(members["aux_output_image_path"@])
                } else {
                    None
                },
            },
        )
    } else {
        None
    }
}

/// Reads a response out of a parsed document.
pub fn response_from_document(document: &serde_json::Value) -> (response: Option<
    ImageGenerationResponse,
>)
    ensures
        match response {
            Some(r) => response_of_members(string_members(*document)) == Some(r@),
            None => response_of_members(string_members(*document)) is None,
        },
{
    match string_member(document, "generated_img_path") {
        Some(generated_img_path) => {
            let aux_output_image_path = string_member(document, "aux_output_image_path");
            Some(ImageGenerationResponse { generated_img_path, aux_output_image_path })
        },
        None => None,
    }
}

/// How an exchange with the process ended.
pub enum Reply {
    /// The process ended in failure.
    ExitFailure,
    /// No line of the output bears the marker.
    NoResponse,
    /// The payload is not a well-formed document, or lacks the required
    /// member.
    BadPayload,
    /// The payload spells a response.
    Response(ResponseView),
}

/// How an exchange ended, given whether the process ended in success and
/// what it wrote to its output. The first line that bears the marker
/// decides; no later line is looked at.
pub open spec fn reply_of(success: bool, output: Seq<u8>) -> Reply {
    if !success {
        Reply::ExitFailure
    } else {
        match first_payload(output) {
            None => Reply::NoResponse,
            Some(payload) => match parsed_string_members(payload) {
                None => Reply::BadPayload,
                Some(members) => match response_of_members(members) {
                    None => Reply::BadPayload,
                    Some(response) => Reply::Response(response),
                },
            },
        }
    }
}

/// The text that an exchange without a usable response is reported with.
pub open spec fn no_response_text() -> Seq<char> {
    "No valid response received from Python backend"@
}

/// The text that a process that ended in failure is reported with.
pub open spec fn exit_failure_text(status: Seq<char>) -> Seq<char> {
    "Python backend failed with status: "@ + status
}

/// Reads the response out of a finished exchange. `success` says whether
/// the process ended in success, `status` describes how it ended, and
/// `output` is all that it wrote to its output stream.
pub fn parse_backend_output(success: bool, status: &str, output: &[u8]) -> (outcome: Result<
    ImageGenerationResponse,
    DiffusionError,
>)
    ensures
        match reply_of(success, output@) {
            Reply::ExitFailure => outcome matches Err(DiffusionError::ProcessError(text))
                && text@ == exit_failure_text(status@),
            Reply::NoResponse => outcome matches Err(DiffusionError::PythonBackend(text))
                && text@ == no_response_text(),
            Reply::BadPayload => outcome matches Err(DiffusionError::JsonError(text)) && text@
                == no_response_text(),
            Reply::Response(response) => outcome matches Ok(r) && r@ == response,
        },
{
    if !success {
        return Err(
            DiffusionError::ProcessError(
                String::from_str("Python backend failed with status: ").concat(status),
            ),
        );
    }
    let payload = match find_response_payload(output) {
        Some(payload) => payload,
        None => {
            return Err(
                DiffusionError::PythonBackend(
                    String::from_str("No valid response received from Python backend"),
                ),
            );
        },
    };
    let document = match parse_document(payload.as_slice()) {
        Ok(document) => document,
        Err(_) => {
            return Err(
                DiffusionError::JsonError(
                    String::from_str("No valid response received from Python backend"),
                ),
            );
        },
    };
    match response_from_document(&document) {
        Some(response) => Ok(response),
        None => Err(
            DiffusionError::JsonError(
                String::from_str("No valid response received from Python backend"),
            ),
        ),
    }
}

} // verus!
