//! The typed message layer: messages travel as JSON text, one message in one
//! frame.

use vstd::prelude::*;
use vstd::utf8::{
    decode_utf8, encode_utf8, encode_utf8_decode_utf8, encode_utf8_valid_utf8, valid_utf8,
};
use vstd::string::StringSliceAdditionalSpecFns;
use crate::net::{
    after_first_frame, cut_error, first_payload, frame_of, lemma_frame_round_trip,
    receive_buffer, send_buffer, starts_with_frame, FrameError, MemoryStream,
};
use crate::outside::text_from_utf8;
pub use crate::status::HttpCode;

verus! {

/// Why a message could not be sent.
#[derive(Debug)]
pub enum SendError {
    /// The message could not be written as JSON.
    Serde(serde_json::Error),
    /// The stream refused a write.
    IO(std::io::Error),
}

impl From<serde_json::Error> for SendError {
    fn from(value: serde_json::Error) -> (error: Self) {
        SendError::Serde(value)
    }
}

impl vstd::std_specs::convert::FromSpecImpl<serde_json::Error> for SendError {
    open spec fn obeys_from_spec() -> bool {
        true
    }

    open spec fn from_spec(value: serde_json::Error) -> Self {
        SendError::Serde(value)
    }
}

impl From<std::io::Error> for SendError {
    fn from(value: std::io::Error) -> (error: Self) {
        SendError::IO(value)
    }
}

impl vstd::std_specs::convert::FromSpecImpl<std::io::Error> for SendError {
    open spec fn obeys_from_spec() -> bool {
        true
    }

    open spec fn from_spec(value: std::io::Error) -> Self {
        SendError::IO(value)
    }
}

impl SendError {
    /// What the error reports: the text that the error it holds displays.
    pub fn to_string(&self) -> (text: String)
        ensures
            match self {
                SendError::Serde(error) => vstd::string::to_string_from_display_ensures::<
                    serde_json::Error,
                >(error, text),
                SendError::IO(error) => vstd::string::to_string_from_display_ensures::<
                    std::io::Error,
                >(error, text),
            },
    {
        match self {
            SendError::Serde(error) => error.to_string(),
            SendError::IO(error) => error.to_string(),
        }
    }
}

/// Why a message could not be received.
#[derive(Debug)]
pub enum DecodeError {
    /// The text is not JSON, or not the JSON of the message that was asked for.
    Serde(serde_json::Error),
    /// The stream failed a read.
    IO(std::io::Error),
    /// The payload is not valid UTF-8.
    UTF(std::string::FromUtf8Error),
    /// The stream ended before the frame was whole.
    Frame(FrameError),
}

impl From<serde_json::Error> for DecodeError {
    fn from(value: serde_json::Error) -> (error: Self) {
        DecodeError::Serde(value)
    }
}

impl vstd::std_specs::convert::FromSpecImpl<serde_json::Error> for DecodeError {
    open spec fn obeys_from_spec() -> bool {
        true
    }

    open spec fn from_spec(value: serde_json::Error) -> Self {
        DecodeError::Serde(value)
    }
}

impl From<std::io::Error> for DecodeError {
    fn from(value: std::io::Error) -> (error: Self) {
        DecodeError::IO(value)
    }
}

impl vstd::std_specs::convert::FromSpecImpl<std::io::Error> for DecodeError {
    open spec fn obeys_from_spec() -> bool {
        true
    }

    open spec fn from_spec(value: std::io::Error) -> Self {
        DecodeError::IO(value)
    }
}

impl From<std::string::FromUtf8Error> for DecodeError {
    fn from(value: std::string::FromUtf8Error) -> (error: Self) {
        DecodeError::UTF(value)
    }
}

impl vstd::std_specs::convert::FromSpecImpl<std::string::FromUtf8Error> for DecodeError {
    open spec fn obeys_from_spec() -> bool {
        true
    }

    open spec fn from_spec(value: std::string::FromUtf8Error) -> Self {
        DecodeError::UTF(value)
    }
}

impl From<FrameError> for DecodeError {
    fn from(value: FrameError) -> (error: Self) {
        DecodeError::Frame(value)
    }
}

impl vstd::std_specs::convert::FromSpecImpl<FrameError> for DecodeError {
    open spec fn obeys_from_spec() -> bool {
        true
    }

    open spec fn from_spec(value: FrameError) -> Self {
        DecodeError::Frame(value)
    }
}

impl DecodeError {
    /// What the error reports: for a framing error how far the stream came,
    /// else the text that the error it holds displays.
    pub fn to_string(&self) -> (text: String)
        ensures
            match self {
                DecodeError::Serde(error) => vstd::string::to_string_from_display_ensures::<
                    serde_json::Error,
                >(error, text),
                DecodeError::IO(error) => vstd::string::to_string_from_display_ensures::<
                    std::io::Error,
                >(error, text),
                DecodeError::UTF(error) => vstd::string::to_string_from_display_ensures::<
                    std::string::FromUtf8Error,
                >(error, text),
                DecodeError::Frame(error) => text@ == error.report(),
            },
    {
        match self {
            DecodeError::Serde(error) => error.to_string(),
            DecodeError::IO(error) => error.to_string(),
            DecodeError::UTF(error) => error.to_string(),
            DecodeError::Frame(error) => error.to_string(),
        }
    }
}

/// What a type offers to travel as a message: its JSON text, and the way
/// back from a JSON text.
pub trait MessageBasis: Sized + PartialEq + Clone + core::fmt::Debug {
    /// The JSON text of this message, or why it has none.
    fn to_json(&self) -> Result<String, serde_json::Error>;

    /// The message that `text` is the JSON of, or why it is none.
    fn from_json(text: &str) -> Result<Self, serde_json::Error>;
}

/// A marker that this message is for requests.
pub trait RequestMessage: MessageBasis {

}

/// A marker that this message is for responses.
pub trait ResponseMessage: MessageBasis {

}

/// A general purpose answer to some activity: a status code, and a text
/// where there is something to say.
#[derive(Clone, Debug)]
pub struct Acknoledgement {
    code: HttpCode,
    message: Option<String>,
}

impl Acknoledgement {
    /// The status code of this acknowledgement.
    pub closed spec fn status(&self) -> HttpCode {
        self.code
    }

    /// The text of this acknowledgement, if it has one.
    pub closed spec fn text(&self) -> Option<Seq<char>> {
        match self.message {
            Some(message) => Some(message@),
            None => None,
        }
    }

    pub fn new(code: HttpCode, message: Option<String>) -> (ack: Self)
        ensures
            ack.status() == code,
            ack.text() == match message {
                Some(text) => Some(text@),
                None => None,
            },
    {
        Acknoledgement { code, message }
    }

    pub fn code(&self) -> (code: HttpCode)
        ensures
            code == self.status(),
    {
        self.code
    }

    /// Whether the status is the one that stands for success.
    pub fn is_ok(&self) -> (ok: bool)
        ensures
            ok == (self.status() == HttpCode::OK),
    {
        self.code == HttpCode::OK
    }

    pub fn message(&self) -> (message: Option<&str>)
        ensures
            message is Some == self.text() is Some,
            message is Some ==> message->0@ == self.text()->0,
    {
        match &self.message {
            Some(text) => Some(text.as_str()),
            None => None,
        }
    }
}

impl PartialEq for Acknoledgement {
    fn eq(&self, other: &Self) -> (same: bool) {
        let same_text = match (&self.message, &other.message) {
            (Some(a), Some(b)) => *a == *b,
            (None, None) => true,
            _ => false,
        };
        self.code == other.code && same_text
    }
}

impl vstd::std_specs::cmp::PartialEqSpecImpl for Acknoledgement {
    open spec fn obeys_eq_spec() -> bool {
        true
    }

    open spec fn eq_spec(&self, other: &Self) -> bool {
        self.status() == other.status() && self.text() == other.text()
    }
}

/// The payload as text: the text that the bytes encode, where they are valid
/// UTF-8, and an error where they are not.
pub fn payload_text(payload: Vec<u8>) -> (result: Result<String, DecodeError>)
    ensures
        valid_utf8(payload@) ==> result is Ok && result->Ok_0@ == decode_utf8(payload@),
        !valid_utf8(payload@) ==> result is Err && result->Err_0 is UTF,
{
    match text_from_utf8(payload) {
        Ok(text) => Ok(text),
        Err(error) => Err(DecodeError::UTF(error)),
    }
}

/// Sends what writing a message as JSON gave: the text in one frame, or the
/// error, with nothing written.
pub fn send_serialized(
    serialized: Result<String, serde_json::Error>,
    sok: &mut MemoryStream,
) -> (result: Result<(), SendError>)
    requires
        old(sok).well_formed(),
    ensures
        final(sok).well_formed(),
        final(sok).chunk() == old(sok).chunk(),
        final(sok).consumed() == old(sok).consumed(),
        match serialized {
            Ok(text) => {
                &&& result is Ok
                &&& final(sok).unread() == old(sok).unread() + frame_of(encode_utf8(text@))
            },
            Err(error) => {
                &&& result == Err::<(), SendError>(SendError::Serde(error))
                &&& final(sok).unread() == old(sok).unread()
            },
        },
{
    match serialized {
        Ok(text) => {
            send_buffer(text.as_str().as_bytes(), sok);
            Ok(())
        },
        Err(error) => Err(SendError::Serde(error)),
    }
}

/// Sends `message`: its JSON text in one frame. Where the message has no
/// JSON text, nothing is written.
pub fn send_message<T: MessageBasis>(message: T, sok: &mut MemoryStream) -> (result: Result<(), SendError>)
    requires
        old(sok).well_formed(),
    ensures
        final(sok).well_formed(),
        final(sok).chunk() == old(sok).chunk(),
        final(sok).consumed() == old(sok).consumed(),
        result is Ok ==> exists|text: Seq<char>|
            final(sok).unread() == old(sok).unread() + #[trigger] frame_of(encode_utf8(text)),
        result is Err ==> result->Err_0 is Serde && final(sok).unread() == old(sok).unread(),
{
    let serialized = message.to_json();
    send_serialized(serialized, sok)
}

/// Sends a request: `send_message` for a message that may be a request.
pub fn send_request<T: RequestMessage>(message: T, sok: &mut MemoryStream) -> (result: Result<(), SendError>)
    requires
        old(sok).well_formed(),
    ensures
        final(sok).well_formed(),
        final(sok).chunk() == old(sok).chunk(),
        final(sok).consumed() == old(sok).consumed(),
        result is Ok ==> exists|text: Seq<char>|
            final(sok).unread() == old(sok).unread() + #[trigger] frame_of(encode_utf8(text)),
        result is Err ==> result->Err_0 is Serde && final(sok).unread() == old(sok).unread(),
{
    send_message(message, sok)
}

/// Sends a response: `send_message` for a message that may be a response.
pub fn send_response<T: ResponseMessage>(message: T, soc: &mut MemoryStream) -> (result: Result<(), SendError>)
    requires
        old(soc).well_formed(),
    ensures
        final(soc).well_formed(),
        final(soc).chunk() == old(soc).chunk(),
        final(soc).consumed() == old(soc).consumed(),
        result is Ok ==> exists|text: Seq<char>|
            final(soc).unread() == old(soc).unread() + #[trigger] frame_of(encode_utf8(text)),
        result is Err ==> result->Err_0 is Serde && final(soc).unread() == old(soc).unread(),
{
    send_message(message, soc)
}

/// Whether reading a text from a stream that holds `unread` fails on the
/// frame: the stream ends before its first frame is whole.
pub open spec fn frame_fails(unread: Seq<u8>) -> bool {
    !starts_with_frame(unread)
}

/// Whether reading a text from a stream that holds `unread` fails on the
/// encoding: the first frame is whole and its payload is not valid UTF-8.
pub open spec fn encoding_fails(unread: Seq<u8>) -> bool {
    starts_with_frame(unread) && !valid_utf8(first_payload(unread))
}

/// The text in the first frame of `unread`.
pub open spec fn first_text(unread: Seq<u8>) -> Seq<char>
    recommends
        starts_with_frame(unread),
        valid_utf8(first_payload(unread)),
{
    decode_utf8(first_payload(unread))
}

/// What a stream that held `unread` holds after one text was read from it:
/// nothing after a framing error, else what follows the first frame.
pub open spec fn unread_after(unread: Seq<u8>) -> Seq<u8> {
    if starts_with_frame(unread) {
        after_first_frame(unread)
    } else {
        Seq::<u8>::empty()
    }
}

/// Reads one frame from `soc` and gives its payload as text. A stream that
/// ends inside the frame gives a framing error; a payload that is not valid
/// UTF-8 gives an encoding error, with the frame taken from the stream.
pub fn receive_text(soc: &mut MemoryStream) -> (result: Result<String, DecodeError>)
    requires
        old(soc).well_formed(),
    ensures
        final(soc).well_formed(),
        final(soc).chunk() == old(soc).chunk(),
        final(soc).unread() == unread_after(old(soc).unread()),
        frame_fails(old(soc).unread()) ==> result is Err && result->Err_0 == DecodeError::Frame(
            cut_error(old(soc).unread()),
        ),
        encoding_fails(old(soc).unread()) ==> result is Err && result->Err_0 is UTF,
        !frame_fails(old(soc).unread()) && !encoding_fails(old(soc).unread()) ==> result is Ok
            && result->Ok_0@ == first_text(old(soc).unread()),
{
    let mut contents: Vec<u8> = Vec::new();
    match receive_buffer(&mut contents, soc) {
        Ok(()) => payload_text(contents),
        Err(error) => Err(DecodeError::Frame(error)),
    }
}

/// Takes `payload` as text and the text as the JSON of a `T`. A payload
/// that is not valid UTF-8 gives an encoding error; whether the text is the
/// JSON of a `T` is for `T` to say.
pub fn decode_payload<T: MessageBasis>(payload: Vec<u8>) -> (result: Result<T, DecodeError>)
    ensures
        !valid_utf8(payload@) ==> result is Err && result->Err_0 is UTF,
        valid_utf8(payload@) ==> result is Ok || result->Err_0 is Serde,
{
    decode_text(payload_text(payload))
}

/// Takes the text that was received as the JSON of a `T`; an error of
/// receiving stays as it is.
pub fn decode_text<T: MessageBasis>(
    text: Result<String, DecodeError>,
) -> (result: Result<T, DecodeError>)
    ensures
        text is Err ==> result is Err && result->Err_0 == text->Err_0,
        text is Ok ==> result is Ok || result->Err_0 is Serde,
{
    match text {
        Ok(text) => match T::from_json(text.as_str()) {
            Ok(message) => Ok(message),
            Err(error) => Err(DecodeError::Serde(error)),
        },
        Err(error) => Err(error),
    }
}

/// Receives a message: reads one frame, takes its payload as text and the
/// text as the JSON of a `T`. Whether the text is such a JSON is for `T` to
/// say; the stream and the other errors do not depend on it.
pub fn decode_message<T: MessageBasis>(soc: &mut MemoryStream) -> (result: Result<T, DecodeError>)
    requires
        old(soc).well_formed(),
    ensures
        final(soc).well_formed(),
        final(soc).chunk() == old(soc).chunk(),
        final(soc).unread() == unread_after(old(soc).unread()),
        frame_fails(old(soc).unread()) ==> result is Err && result->Err_0 == DecodeError::Frame(
            cut_error(old(soc).unread()),
        ),
        encoding_fails(old(soc).unread()) ==> result is Err && result->Err_0 is UTF,
        !frame_fails(old(soc).unread()) && !encoding_fails(old(soc).unread()) ==> result is Ok
            || result->Err_0 is Serde,
{
    decode_text(receive_text(soc))
}

/// Receives a request: `decode_message` for a message that may be a request.
pub fn decode_request<T: RequestMessage>(soc: &mut MemoryStream) -> (result: Result<T, DecodeError>)
    requires
        old(soc).well_formed(),
    ensures
        final(soc).well_formed(),
        final(soc).chunk() == old(soc).chunk(),
        final(soc).unread() == unread_after(old(soc).unread()),
        frame_fails(old(soc).unread()) ==> result is Err && result->Err_0 == DecodeError::Frame(
            cut_error(old(soc).unread()),
        ),
        encoding_fails(old(soc).unread()) ==> result is Err && result->Err_0 is UTF,
        !frame_fails(old(soc).unread()) && !encoding_fails(old(soc).unread()) ==> result is Ok
            || result->Err_0 is Serde,
{
    decode_message(soc)
}

/// Receives a response: `decode_message` for a message that may be a
/// response.
pub fn decode_response<T: ResponseMessage>(soc: &mut MemoryStream) -> (result: Result<T, DecodeError>)
    requires
        old(soc).well_formed(),
    ensures
        final(soc).well_formed(),
        final(soc).chunk() == old(soc).chunk(),
        final(soc).unread() == unread_after(old(soc).unread()),
        frame_fails(old(soc).unread()) ==> result is Err && result->Err_0 == DecodeError::Frame(
            cut_error(old(soc).unread()),
        ),
        encoding_fails(old(soc).unread()) ==> result is Err && result->Err_0 is UTF,
        !frame_fails(old(soc).unread()) && !encoding_fails(old(soc).unread()) ==> result is Ok
            || result->Err_0 is Serde,
{
    decode_message(soc)
}

/// Round trip. A text whose UTF-8 form fits the length prefix is read back
/// from its frame as it was, whatever follows the frame, and what follows
/// is left in the stream.
pub proof fn lemma_text_round_trip(text: Seq<char>, rest: Seq<u8>)
    requires
        encode_utf8(text).len() <= u32::MAX,
    ensures
        !frame_fails(frame_of(encode_utf8(text)) + rest),
        !encoding_fails(frame_of(encode_utf8(text)) + rest),
        first_text(frame_of(encode_utf8(text)) + rest) == text,
        unread_after(frame_of(encode_utf8(text)) + rest) == rest,
{
    lemma_frame_round_trip(encode_utf8(text), rest);
    encode_utf8_valid_utf8(text);
    encode_utf8_decode_utf8(text);
}

} // verus!
