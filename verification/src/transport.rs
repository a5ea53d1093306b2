//! Response correlation: one frame in, one typed result out.
//!
//! The protocol has no request identifiers; correlation is by strict
//! ordering, one response read right after one request is written, never
//! more than one request in flight.  The caller owns the socket and hands
//! each inbound frame to [`classify_frame`]; each request's reply then goes
//! through the matching `expect_` function, which turns the one right
//! response shape into a typed value, a well-formed `Error` reply into a
//! driver error, and anything else into an unexpected-response error.

use vstd::prelude::*;

use crate::codec::decode_output;
use crate::codec::spec_decode_output;
use crate::error::Error;
use crate::geom::BoundingRectangle;
use crate::geom::Point;
use crate::screen::Screen;
use crate::strutil::bytes_to_string;
use crate::strutil::str_to_chars;
use crate::wire::ImageBuffer;
use crate::wire::OutputMessage;
use crate::wire::OutputMessageV;

verus! {

/// One inbound websocket frame, as plain data.
#[derive(Debug)]
pub enum Frame {
    /// A text frame holding a JSON document.
    Text(String),
    /// A binary frame carrying the same JSON as UTF-8 bytes.
    Binary(Vec<u8>),
    /// The driver closed the socket, with or without a code and reason.
    Close(Option<(u16, String)>),
    /// A frame outside the protocol: ping, pong, or anything else.
    Other,
    /// The stream ended without a frame.
    Ended,
}

/// The spec-level value of a [`Frame`].
pub enum FrameV {
    Text(Seq<char>),
    Binary(Seq<u8>),
    Close(Option<(u16, Seq<char>)>),
    Other,
    Ended,
}

impl View for Frame {
    type V = FrameV;

    open spec fn view(&self) -> FrameV {
        match self {
            Frame::Text(t) => FrameV::Text(t@),
            Frame::Binary(b) => FrameV::Binary(b@),
            Frame::Close(Some((code, reason))) => FrameV::Close(Some((*code, reason@))),
            Frame::Close(None) => FrameV::Close(None),
            Frame::Other => FrameV::Other,
            Frame::Ended => FrameV::Ended,
        }
    }
}

/// What classifying a frame must yield, over the frame's value.
pub open spec fn spec_classify(f: FrameV, r: Result<OutputMessage, Error>) -> bool {
    match f {
        FrameV::Text(t) => match spec_decode_output(t) {
            Some(m) => r matches Ok(o) && o@ == m,
            None => r matches Err(Error::Protocol { .. }),
        },
        FrameV::Binary(b) => {
            if vstd::utf8::valid_utf8(b) {
                match spec_decode_output(vstd::utf8::decode_utf8(b)) {
                    Some(m) => r matches Ok(o) && o@ == m,
                    None => r matches Err(Error::Protocol { .. }),
                }
            } else {
                r matches Err(Error::Protocol { .. })
            }
        },
        FrameV::Close(Some((code, reason))) => r matches Err(
            Error::ConnectionClosed { code: c, reason: rs },
        ) && c == code && rs@ == reason,
        FrameV::Close(None) => r matches Err(Error::ConnectionClosedWithoutReason),
        FrameV::Other => r matches Err(Error::Protocol { .. }),
        FrameV::Ended => r matches Err(Error::Transport { .. }),
    }
}

/// Turns one inbound frame into a response or a typed error: text and
/// binary frames are decoded as JSON, a close frame is terminal, and
/// anything else is outside the protocol.
pub fn classify_frame(f: Frame) -> (r: Result<OutputMessage, Error>)
    ensures
        spec_classify(f@, r),
        r matches Ok(m) ==> crate::codec::wf_output(m@),
{
    match f {
        Frame::Text(t) => {
            let chars = str_to_chars(t.as_str());
            match decode_output(chars.as_slice()) {
                Some(m) => Ok(m),
                None => Err(
                    Error::Protocol {
                        msg: <String as vstd::string::StringExecFns>::from_str(
                            "the text frame is not the expected JSON schema",
                        ),
                    },
                ),
            }
        },
        Frame::Binary(b) => {
            match bytes_to_string(b) {
                Some(t) => {
                    let chars = str_to_chars(t.as_str());
                    match decode_output(chars.as_slice()) {
                        Some(m) => Ok(m),
                        None => Err(
                            Error::Protocol {
                                msg: <String as vstd::string::StringExecFns>::from_str(
                                    "the binary frame is not the expected JSON schema",
                                ),
                            },
                        ),
                    }
                },
                None => Err(
                    Error::Protocol {
                        msg: <String as vstd::string::StringExecFns>::from_str(
                            "the binary frame is not valid UTF-8",
                        ),
                    },
                ),
            }
        },
        Frame::Close(Some((code, reason))) => Err(Error::ConnectionClosed { code, reason }),
        Frame::Close(None) => Err(Error::ConnectionClosedWithoutReason),
        Frame::Other => Err(
            Error::Protocol {
                msg: <String as vstd::string::StringExecFns>::from_str(
                    "received a frame outside text, binary and close",
                ),
            },
        ),
        Frame::Ended => Err(
            Error::Transport {
                msg: <String as vstd::string::StringExecFns>::from_str("the stream ended without a response"),
            },
        ),
    }
}

/// Checks the endpoint a caller wants to connect to: a URL without a host
/// or a port names no driver.
pub fn require_host_and_port(has_host: bool, has_port: bool) -> (r: Result<(), Error>)
    ensures
        has_host && has_port <==> r is Ok,
        !has_host ==> (r matches Err(Error::Transport { msg }) && msg@
            == "the URI is missing the host"@),
        has_host && !has_port ==> (r matches Err(Error::Transport { msg }) && msg@
            == "the URI is missing the port"@),
{
    if !has_host {
        Err(
            Error::Transport {
                msg: <String as vstd::string::StringExecFns>::from_str("the URI is missing the host"),
            },
        )
    } else if !has_port {
        Err(
            Error::Transport {
                msg: <String as vstd::string::StringExecFns>::from_str("the URI is missing the port"),
            },
        )
    } else {
        Ok(())
    }
}

/// The screens a `GetScreens` reply carries; a `Error` reply is the
/// driver's own failure, and any other shape is unexpected.
pub fn expect_got_screens(m: OutputMessage) -> (r: Result<Vec<Screen>, Error>)
    ensures
        m@ matches OutputMessageV::GotScreens(ss) ==> (r matches Ok(v) && Seq::new(
            v@.len(),
            |i: int| v@[i]@,
        ) == ss),
        m@ matches OutputMessageV::Error(e) ==> (r matches Err(Error::Driver { msg }) && msg@ == e),
        !(m@ matches OutputMessageV::GotScreens(_)) && !(m@ matches OutputMessageV::Error(_))
            ==> (r matches Err(Error::UnexpectedResponse { response }) && response@ == m@),
        crate::codec::wf_output(m@) && r is Ok ==> (r matches Ok(v) && forall|i: int|
            0 <= i < v@.len() ==> (#[trigger] v@[i])@.wf()),
{
    let ghost mv = m@;
    match m {
        OutputMessage::GotScreens(s) => {
            proof {
                if crate::codec::wf_output(mv) {
                    assert forall|i: int| 0 <= i < s@.len() implies (#[trigger] s@[i])@.wf() by {
                        assert(mv matches OutputMessageV::GotScreens(ss) && ss == Seq::new(
                            s@.len(),
                            |q: int| s@[q]@,
                        ));
                        assert(Seq::new(s@.len(), |q: int| s@[q]@)[i] == s@[i]@);
                    }
                }
            }
            Ok(s)
        },
        OutputMessage::Error(e) => Err(Error::Driver { msg: e }),
        other => Err(Error::UnexpectedResponse { response: other }),
    }
}

/// The screen a `GetMainScreen` reply carries.
pub fn expect_got_main_screen(m: OutputMessage) -> (r: Result<Screen, Error>)
    ensures
        m@ matches OutputMessageV::GotMainScreen(s) ==> (r matches Ok(v) && v@ == s),
        m@ matches OutputMessageV::Error(e) ==> (r matches Err(Error::Driver { msg }) && msg@ == e),
        !(m@ matches OutputMessageV::GotMainScreen(_)) && !(m@ matches OutputMessageV::Error(_))
            ==> (r matches Err(Error::UnexpectedResponse { response }) && response@ == m@),
        crate::codec::wf_output(m@) && r is Ok ==> (r matches Ok(v) && v@.wf()),
{
    match m {
        OutputMessage::GotMainScreen(s) => Ok(s),
        OutputMessage::Error(e) => Err(Error::Driver { msg: e }),
        other => Err(Error::UnexpectedResponse { response: other }),
    }
}

/// The image a `CaptureScreen` reply carries.
pub fn expect_captured_screen(m: OutputMessage) -> (r: Result<ImageBuffer, Error>)
    ensures
        m@ matches OutputMessageV::CapturedScreen { image_buffer } ==> (r matches Ok(v) && v@
            == image_buffer),
        m@ matches OutputMessageV::Error(e) ==> (r matches Err(Error::Driver { msg }) && msg@ == e),
        !(m@ matches OutputMessageV::CapturedScreen { .. }) && !(m@ matches OutputMessageV::Error(
            _,
        )) ==> (r matches Err(Error::UnexpectedResponse { response }) && response@ == m@),
        crate::codec::wf_output(m@) && r is Ok ==> (r matches Ok(v) && v@.wf()),
{
    match m {
        OutputMessage::CapturedScreen { image_buffer } => Ok(image_buffer),
        OutputMessage::Error(e) => Err(Error::Driver { msg: e }),
        other => Err(Error::UnexpectedResponse { response: other }),
    }
}

/// The point a `GetMouseLocation` reply carries.
pub fn expect_got_mouse_location(m: OutputMessage) -> (r: Result<Point, Error>)
    ensures
        m@ matches OutputMessageV::GotMouseLocation(p) ==> (r matches Ok(v) && v == p),
        m@ matches OutputMessageV::Error(e) ==> (r matches Err(Error::Driver { msg }) && msg@ == e),
        !(m@ matches OutputMessageV::GotMouseLocation(_)) && !(m@ matches OutputMessageV::Error(_))
            ==> (r matches Err(Error::UnexpectedResponse { response }) && response@ == m@),
{
    match m {
        OutputMessage::GotMouseLocation(p) => Ok(p),
        OutputMessage::Error(e) => Err(Error::Driver { msg: e }),
        other => Err(Error::UnexpectedResponse { response: other }),
    }
}

/// The acknowledgement a `DoInput` reply is.
pub fn expect_did_input(m: OutputMessage) -> (r: Result<(), Error>)
    ensures
        m@ matches OutputMessageV::DidInput ==> r is Ok,
        m@ matches OutputMessageV::Error(e) ==> (r matches Err(Error::Driver { msg }) && msg@ == e),
        !(m@ matches OutputMessageV::DidInput) && !(m@ matches OutputMessageV::Error(_))
            ==> (r matches Err(Error::UnexpectedResponse { response }) && response@ == m@),
{
    match m {
        OutputMessage::DidInput => Ok(()),
        OutputMessage::Error(e) => Err(Error::Driver { msg: e }),
        other => Err(Error::UnexpectedResponse { response: other }),
    }
}

/// The acknowledgement a `DoTypeText` reply is.
pub fn expect_did_type_text(m: OutputMessage) -> (r: Result<(), Error>)
    ensures
        m@ matches OutputMessageV::DidTypeText ==> r is Ok,
        m@ matches OutputMessageV::Error(e) ==> (r matches Err(Error::Driver { msg }) && msg@ == e),
        !(m@ matches OutputMessageV::DidTypeText) && !(m@ matches OutputMessageV::Error(_))
            ==> (r matches Err(Error::UnexpectedResponse { response }) && response@ == m@),
{
    match m {
        OutputMessage::DidTypeText => Ok(()),
        OutputMessage::Error(e) => Err(Error::Driver { msg: e }),
        other => Err(Error::UnexpectedResponse { response: other }),
    }
}

/// The match rectangles a `FindText` reply carries.
pub fn expect_found_text(m: OutputMessage) -> (r: Result<Vec<BoundingRectangle>, Error>)
    ensures
        m@ matches OutputMessageV::FoundText { locations } ==> (r matches Ok(v) && v@ == locations),
        m@ matches OutputMessageV::Error(e) ==> (r matches Err(Error::Driver { msg }) && msg@ == e),
        !(m@ matches OutputMessageV::FoundText { .. }) && !(m@ matches OutputMessageV::Error(_))
            ==> (r matches Err(Error::UnexpectedResponse { response }) && response@ == m@),
        crate::codec::wf_output(m@) && r is Ok ==> (r matches Ok(v) && forall|i: int|
            0 <= i < v@.len() ==> (#[trigger] v@[i]).wf()),
{
    let ghost mv = m@;
    match m {
        OutputMessage::FoundText { locations } => {
            proof {
                assert(mv == OutputMessageV::FoundText { locations: locations@ });
                if crate::codec::wf_output(mv) {
                    assert forall|i: int|
                        0 <= i < locations@.len() implies (#[trigger] locations@[i]).wf() by {
                        match mv {
                            OutputMessageV::FoundText { locations: ls } => {
                                assert(ls == locations@);
                                assert(ls[i].wf());
                            },
                            _ => {},
                        }
                    }
                }
            }
            Ok(locations)
        },
        OutputMessage::Error(e) => Err(Error::Driver { msg: e }),
        other => Err(Error::UnexpectedResponse { response: other }),
    }
}

/// The match rectangles a `FindImage` reply carries.
pub fn expect_found_image(m: OutputMessage) -> (r: Result<Vec<BoundingRectangle>, Error>)
    ensures
        m@ matches OutputMessageV::FoundImage { locations } ==> (r matches Ok(v) && v@ == locations),
        m@ matches OutputMessageV::Error(e) ==> (r matches Err(Error::Driver { msg }) && msg@ == e),
        !(m@ matches OutputMessageV::FoundImage { .. }) && !(m@ matches OutputMessageV::Error(_))
            ==> (r matches Err(Error::UnexpectedResponse { response }) && response@ == m@),
        crate::codec::wf_output(m@) && r is Ok ==> (r matches Ok(v) && forall|i: int|
            0 <= i < v@.len() ==> (#[trigger] v@[i]).wf()),
{
    let ghost mv = m@;
    match m {
        OutputMessage::FoundImage { locations } => {
            proof {
                assert(mv == OutputMessageV::FoundImage { locations: locations@ });
                if crate::codec::wf_output(mv) {
                    assert forall|i: int|
                        0 <= i < locations@.len() implies (#[trigger] locations@[i]).wf() by {
                        match mv {
                            OutputMessageV::FoundImage { locations: ls } => {
                                assert(ls == locations@);
                                assert(ls[i].wf());
                            },
                            _ => {},
                        }
                    }
                }
            }
            Ok(locations)
        },
        OutputMessage::Error(e) => Err(Error::Driver { msg: e }),
        other => Err(Error::UnexpectedResponse { response: other }),
    }
}

/// The text a `GetClipboardText` reply carries.
pub fn expect_got_clipboard_text(m: OutputMessage) -> (r: Result<String, Error>)
    ensures
        m@ matches OutputMessageV::GotClipboardText(t) ==> (r matches Ok(v) && v@ == t),
        m@ matches OutputMessageV::Error(e) ==> (r matches Err(Error::Driver { msg }) && msg@ == e),
        !(m@ matches OutputMessageV::GotClipboardText(_)) && !(m@ matches OutputMessageV::Error(_))
            ==> (r matches Err(Error::UnexpectedResponse { response }) && response@ == m@),
{
    match m {
        OutputMessage::GotClipboardText(t) => Ok(t),
        OutputMessage::Error(e) => Err(Error::Driver { msg: e }),
        other => Err(Error::UnexpectedResponse { response: other }),
    }
}

/// The acknowledgement a `SetClipboardText` reply is.
pub fn expect_did_set_clipboard_text(m: OutputMessage) -> (r: Result<(), Error>)
    ensures
        m@ matches OutputMessageV::DidSetClipboardText ==> r is Ok,
        m@ matches OutputMessageV::Error(e) ==> (r matches Err(Error::Driver { msg }) && msg@ == e),
        !(m@ matches OutputMessageV::DidSetClipboardText) && !(m@ matches OutputMessageV::Error(_))
            ==> (r matches Err(Error::UnexpectedResponse { response }) && response@ == m@),
{
    match m {
        OutputMessage::DidSetClipboardText => Ok(()),
        OutputMessage::Error(e) => Err(Error::Driver { msg: e }),
        other => Err(Error::UnexpectedResponse { response: other }),
    }
}

/// Spells a request as the text of one outbound frame.
pub fn encode_request(m: &crate::wire::InputMessage) -> (r: String)
    ensures
        r@ == crate::codec::spec_enc_input(m@),
{
    let chars = crate::codec::encode_input(m);
    crate::strutil::chars_to_string(&chars)
}

} // verus!
