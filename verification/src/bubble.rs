//! The bubble attachment state machine: whether a speech-bubble window is
//! currently attached to the primary window, and with what message.
//!
//! The state is process-local and never persisted.  `show` attaches a new
//! message (the caller closes any existing bubble window and creates a new
//! one placed by the calculator), `close` detaches, and `reposition`
//! recomputes the placement from the stored message and the primary
//! window's current metrics — calling it while detached is a caller
//! sequencing bug and is reported as an error, not ignored.

use vstd::prelude::*;
use crate::geometry::BubbleProps;
use crate::geometry::spec_placement;
use crate::geometry::compute_secondary_placement;
use crate::text::push_bytes;

verus! {

/// Whether the bubble window is attached, and the message it shows.
pub enum AttachmentState {
    Detached,
    Attached { current_message: Vec<u8> },
}

/// Failures of the bubble subsystem.
#[derive(Clone, Copy, Debug, PartialEq, Eq, Structural)]
pub enum BubbleError {
    /// `reposition` was called while no bubble is attached.
    NoActiveBubble,
}

impl BubbleError {
    /// A short description for user-facing reporting.
    pub fn message(&self) -> (r: &'static str)
        ensures
            r@ == "no active bubble to reposition"@,
    {
        match self {
            BubbleError::NoActiveBubble => "no active bubble to reposition",
        }
    }
}

/// A byte is left as itself by percent-encoding: ASCII alphanumerics and
/// `-`, `.`, `_`, `~`.
pub open spec fn spec_url_unreserved(b: u8) -> bool {
    ||| 48 <= b <= 57
    ||| 65 <= b <= 90
    ||| 97 <= b <= 122
    ||| b == 45
    ||| b == 46
    ||| b == 95
    ||| b == 126
}

/// Uppercase hexadecimal digit for a value below 16.
pub open spec fn spec_hex_digit(d: u8) -> u8
    recommends
        d < 16,
{
    if d < 10 {
        (48 + d) as u8
    } else {
        (55 + d) as u8
    }
}

/// Percent-encoding of one byte: unreserved bytes stand for themselves,
/// every other byte becomes `%` and two uppercase hex digits.
pub open spec fn spec_url_encode_byte(b: u8) -> Seq<u8> {
    if spec_url_unreserved(b) {
        seq![b]
    } else {
        seq![37u8, spec_hex_digit(b / 16), spec_hex_digit(b % 16)]
    }
}

/// Percent-encoding of a byte string.
pub open spec fn spec_url_encoded(s: Seq<u8>) -> Seq<u8>
    decreases s.len(),
{
    if s.len() == 0 {
        Seq::empty()
    } else {
        spec_url_encode_byte(s[0]) + spec_url_encoded(s.drop_first())
    }
}

/// Relies on urlencoding::encode_binary: it percent-encodes every byte
/// except ASCII alphanumerics and `-`, `.`, `_`, `~`, using `%` and two
/// uppercase hexadecimal digits, and depends on the input bytes alone.
#[verifier::external_body]
fn url_encode(message: &Vec<u8>) -> (r: Vec<u8>)
    ensures
        r@ == spec_url_encoded(message@),
{
    urlencoding::encode_binary(message.as_slice()).into_owned().into_bytes()
}

/// Bytes of the bubble route and query prefix, `/#/chat-bubble?message=`.
pub open spec fn spec_url_prefix() -> Seq<u8> {
    seq![47u8, 35u8, 47u8, 99u8, 104u8, 97u8, 116u8, 45u8, 98u8, 117u8, 98u8, 98u8, 108u8, 101u8,
        63u8, 109u8, 101u8, 115u8, 115u8, 97u8, 103u8, 101u8, 61u8]
}

/// Bytes of the fixed auto-hide query, `&autoHide=true&autoHideDelay=3000`.
pub open spec fn spec_url_suffix() -> Seq<u8> {
    seq![38u8, 97u8, 117u8, 116u8, 111u8, 72u8, 105u8, 100u8, 101u8, 61u8, 116u8, 114u8, 117u8,
        101u8, 38u8, 97u8, 117u8, 116u8, 111u8, 72u8, 105u8, 100u8, 101u8, 68u8, 101u8, 108u8,
        97u8, 121u8, 61u8, 51u8, 48u8, 48u8, 48u8]
}

/// The URL the bubble window is created with: the fixed route, then the
/// percent-encoded message, then the fixed auto-hide query.
pub open spec fn spec_bubble_url(message: Seq<u8>) -> Seq<u8> {
    spec_url_prefix() + spec_url_encoded(message) + spec_url_suffix()
}

/// Builds the bubble window's URL for a message.
pub fn bubble_url(message: &Vec<u8>) -> (r: Vec<u8>)
    ensures
        r@ == spec_bubble_url(message@),
{
    let prefix: [u8; 23] = [47, 35, 47, 99, 104, 97, 116, 45, 98, 117, 98, 98, 108, 101, 63, 109,
        101, 115, 115, 97, 103, 101, 61];
    let suffix: [u8; 33] = [38, 97, 117, 116, 111, 72, 105, 100, 101, 61, 116, 114, 117, 101, 38,
        97, 117, 116, 111, 72, 105, 100, 101, 68, 101, 108, 97, 121, 61, 51, 48, 48, 48];
    let mut out: Vec<u8> = Vec::new();
    push_bytes(&mut out, prefix.as_slice());
    let encoded = url_encode(message);
    push_bytes(&mut out, encoded.as_slice());
    push_bytes(&mut out, suffix.as_slice());
    proof {
        assert(prefix@ =~= spec_url_prefix());
        assert(suffix@ =~= spec_url_suffix());
        assert(Seq::<u8>::empty() + prefix@ =~= prefix@);
        assert(out@ =~= spec_bubble_url(message@));
    }
    out
}

impl AttachmentState {
    /// The stored message, when attached.
    pub open spec fn spec_message(&self) -> Option<Seq<u8>> {
        match self {
            AttachmentState::Attached { current_message } => Some(current_message@),
            AttachmentState::Detached => None,
        }
    }

    /// A fresh, detached state.
    pub fn new() -> (s: AttachmentState)
        ensures
            s is Detached,
    {
        AttachmentState::Detached
    }

    /// Attaches a new message, from any state.  The caller closes any
    /// existing bubble window and creates a new one placed by the
    /// calculator.
    pub fn show(&mut self, message: Vec<u8>)
        ensures
            (*final(self)) is Attached,
            (*final(self)).spec_message() == Some(message@),
    {
        *self = AttachmentState::Attached { current_message: message };
    }

    /// Detaches, from any state.  The caller destroys the bubble window if
    /// one exists.
    pub fn close(&mut self)
        ensures
            (*final(self)) is Detached,
    {
        *self = AttachmentState::Detached;
    }

    /// Recomputes the bubble placement from the stored message and the
    /// primary window's current metrics.  Succeeds exactly when a bubble is
    /// attached; while detached it fails with `NoActiveBubble`.
    pub fn reposition(
        &self,
        primary_x: i32,
        primary_y: i32,
        primary_width: u32,
        primary_height: u32,
        scale_milli: i64,
    ) -> (r: Result<BubbleProps, BubbleError>)
        requires
            1 <= scale_milli,
        ensures
            r is Ok <==> self is Attached,
            match r {
                Ok(props) => self.spec_message() matches Some(m) && props == spec_placement(
                    primary_x as int,
                    primary_y as int,
                    primary_width as int,
                    scale_milli as int,
                    m,
                ),
                Err(e) => e == BubbleError::NoActiveBubble,
            },
    {
        match self {
            AttachmentState::Detached => Err(BubbleError::NoActiveBubble),
            AttachmentState::Attached { current_message } => Ok(
                compute_secondary_placement(
                    primary_x,
                    primary_y,
                    primary_width,
                    primary_height,
                    scale_milli,
                    current_message,
                ),
            ),
        }
    }
}

} // verus!
