//! What one benchmark of a lossless codec reports.

use crate::clock::Span;
use crate::text::decode_line;
use crate::text::decode_line_text;
use crate::text::encode_line;
use crate::text::encode_line_text;
use vstd::prelude::*;

verus! {

/// The line that closes the report.
pub const GREETING: &'static str = "Hello, world!";

/// The measurements of one encode followed by one decode of what was encoded.
#[derive(Clone, Copy, Debug, PartialEq, Eq, Structural)]
pub struct RoundTrip {
    /// Clock readings around the encoding.
    pub encode: Span,
    /// Length of the encoded image in bytes.
    pub encoded_size: usize,
    /// Clock readings around the decoding.
    pub decode: Span,
    /// Length of the decoded image in bytes, or `None` where decoding failed
    /// and the failure was let pass.
    pub decoded_size: Option<usize>,
}

impl RoundTrip {
    /// The four readings were taken one after the other: each span closes no
    /// earlier than it opens, and the decoding opens no earlier than the
    /// encoding closes.
    pub open spec fn in_order(self) -> bool {
        &&& self.encode.ordered()
        &&& self.encode.end <= self.decode.begin
        &&& self.decode.ordered()
    }

    /// The two lines of the report, under one label: first the encoding with
    /// its time and size, then the decoding with its time.
    pub fn lines(&self, label: &str) -> (lines: Vec<String>)
        ensures
            lines@.len() == 2,
            lines@[0]@ == encode_line_text(
                label@,
                self.encode.millis(),
                self.encoded_size as nat,
            ),
            lines@[1]@ == decode_line_text(label@, self.decode.millis()),
    {
        let mut lines: Vec<String> = Vec::new();
        lines.push(encode_line(label, self.encode.elapsed_millis(), self.encoded_size));
        lines.push(decode_line(label, self.decode.elapsed_millis()));
        lines
    }
}

} // verus!
