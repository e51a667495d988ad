//! The captured output of one backend: a buffer that a reader fills byte by
//! byte and that a periodic drain empties.

use vstd::prelude::*;
use vstd::utf8::{decode_utf8, valid_utf8};

verus! {

/// What the reader does after one read of its stream.
#[derive(Debug, Clone, PartialEq, Eq)]
pub enum CaptureAction {
    /// One byte came: it goes to the buffer and the reader reads on.
    Append { byte: u8 },
    /// The stream is at its end: the reader stops.
    StopAtEnd,
    /// The read failed: the reader stops.
    StopOnError { error: String },
    /// A read into one byte claims to have read more: the reader stops.
    StopOnCount { count: usize },
}

/// Decides what follows a read into a buffer of one byte, which holds `byte`
/// afterwards. `read` is the number of bytes read, or the failure's message.
pub fn capture_action(read: Result<usize, String>, byte: u8) -> (action: CaptureAction)
    ensures
        match read {
            Ok(count) => if count == 0 {
                action == CaptureAction::StopAtEnd
            } else if count == 1 {
                action == (CaptureAction::Append { byte })
            } else {
                action == (CaptureAction::StopOnCount { count })
            },
            Err(e) => action == (CaptureAction::StopOnError { error: e }),
        },
{
    match read {
        Err(error) => CaptureAction::StopOnError { error },
        Ok(count) => if count == 0 {
            CaptureAction::StopAtEnd
        } else if count == 1 {
            CaptureAction::Append { byte }
        } else {
            CaptureAction::StopOnCount { count }
        },
    }
}

/// The bytes captured since the last drain.
#[derive(Debug, Clone, Default)]
pub struct OutputBuffer {
    bytes: Vec<u8>,
}

impl View for OutputBuffer {
    type V = Seq<u8>;

    closed spec fn view(&self) -> Seq<u8> {
        self.bytes@
    }
}

/// `String::from_utf8`: the text that the bytes encode, if they are valid
/// UTF-8, and nothing otherwise.
#[verifier::external_body]
fn utf8_text(bytes: Vec<u8>) -> (r: Option<String>)
    ensures
        r is Some <==> valid_utf8(bytes@),
        r matches Some(text) ==> text@ == decode_utf8(bytes@),
{
    String::from_utf8(bytes).ok()
}

impl OutputBuffer {
    /// An empty buffer.
    pub fn new() -> (b: OutputBuffer)
        ensures
            b@ == Seq::<u8>::empty(),
    {
        OutputBuffer { bytes: Vec::new() }
    }

    /// The number of bytes waiting.
    pub fn len(&self) -> (n: usize)
        ensures
            n == self@.len(),
    {
        self.bytes.len()
    }

    /// Adds one byte at the end.
    pub fn append(&mut self, byte: u8)
        ensures
            final(self)@ == old(self)@.push(byte),
    {
        self.bytes.push(byte);
    }

    /// Carries out a reader's action on the buffer and says whether the reader
    /// goes on: only `Append` changes the buffer, and only after it does the
    /// reader read again.
    pub fn apply(&mut self, action: &CaptureAction) -> (goes_on: bool)
        ensures
            goes_on == (action is Append),
            final(self)@ == (match action {
                CaptureAction::Append { byte } => old(self)@.push(*byte),
                _ => old(self)@,
            }),
    {
        match action {
            CaptureAction::Append { byte } => {
                self.bytes.push(*byte);
                true
            },
            _ => false,
        }
    }

    /// Takes the waiting bytes out as one text and leaves the buffer empty.
    /// That happens when there are bytes and they are valid UTF-8; otherwise
    /// nothing is handed out and the buffer stays as it is.
    pub fn drain(&mut self) -> (r: Option<String>)
        ensures
            r is Some <==> (old(self)@.len() > 0 && valid_utf8(old(self)@)),
            r matches Some(text) ==> text@ == decode_utf8(old(self)@) && final(self)@
                == Seq::<u8>::empty(),
            r is None ==> final(self)@ == old(self)@,
    {
        if self.bytes.len() == 0 {
            return None;
        }
        let copy = self.bytes.clone();
        assert(copy@ =~= self.bytes@);
        match utf8_text(copy) {
            Some(text) => {
                self.bytes.clear();
                Some(text)
            },
            None => None,
        }
    }
}

} // verus!
