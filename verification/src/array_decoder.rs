//! Decoding of array dumps: one JSON value per line, wrapped in `[` and `]`.

use vstd::prelude::*;

use crate::array_decoder::line::{payload, payload_span};
use crate::array_decoder::parallel::decodes;

pub mod collector;
pub mod file;
pub mod line;
pub mod parallel;

verus! {

/// Why a dump could not be decoded to its end.
#[derive(Debug)]
pub enum DecodeError {
    /// The input could not be read; the text says why.
    Io(String),
    /// A line is no record of the type asked for.
    Line {
        /// The place of the line among the records of its block, from zero.
        position: usize,
        /// The line as it was handed to the record decoder.
        line: Vec<u8>,
        /// What the record decoder said of it.
        reason: String,
    },
    /// Blocks were left waiting for one that never came.
    Gap {
        /// The index of the block that was awaited.
        expected: usize,
    },
}

/// A sink for the number of input bytes consumed so far.
pub trait Progress {
    /// Reports that `delta` more bytes were consumed.
    fn inc(&mut self, delta: usize);
}

/// A progress sink that ignores every report.
pub struct NopProgress;

impl Progress for NopProgress {
    fn inc(&mut self, delta: usize) {
    }
}

/// Decodes a dump line by line, in one thread: its caller reads the lines
/// and hands them over one at a time.
pub struct ArrayDecoder {
    position: usize,
}

impl ArrayDecoder {
    /// The number of records decoded so far, as far as the machine counts.
    pub closed spec fn position(&self) -> nat {
        self.position as nat
    }

    /// A decoder that has decoded nothing.
    pub fn new() -> (r: ArrayDecoder)
        ensures
            r.position() == 0,
    {
        ArrayDecoder { position: 0 }
    }

    /// Decodes one line of the dump. A line without payload, such as a blank
    /// one or a bracket, gives no record. The payload of any other line goes
    /// to `decode`: its record is handed back and counted, its refusal
    /// becomes an error that names the place of the line among the records
    /// and holds the payload and the reason.
    pub fn read_entry<D, F: Fn(&[u8]) -> Result<D, String>>(&mut self, line: &[u8], decode: &F) -> (r:
        Result<Option<D>, DecodeError>)
        requires
            forall|b: &[u8]| call_requires(decode, (b,)),
        ensures
            match payload(line@) {
                None => r == Ok::<Option<D>, DecodeError>(None) && final(self).position() == old(
                    self).position(),
                Some(p) => match r {
                    Ok(Some(v)) => decodes(decode, p, Ok::<D, String>(v)) && final(
                        self).position() == if old(self).position() < usize::MAX {
                        old(self).position() + 1
                    } else {
                        old(self).position()
                    },
                    Err(DecodeError::Line { position, line: text, reason }) => {
                        &&& position == old(self).position()
                        &&& text@ == p
                        &&& decodes(decode, p, Err::<D, String>(reason))
                        &&& final(self).position() == old(self).position()
                    },
                    _ => false,
                },
            },
    {
        match payload_span(line, 0, line.len()) {
            None => {
                proof {
                    assert(line@.subrange(0, line@.len() as int) =~= line@);
                }
                Ok(None)
            },
            Some(span) => {
                proof {
                    assert(line@.subrange(0, line@.len() as int) =~= line@);
                }
                let piece = &line[span.0..span.1];
                match decode(piece) {
                    Ok(v) => {
                        if self.position < usize::MAX {
                            self.position = self.position + 1;
                        }
                        Ok(Some(v))
                    },
                    Err(reason) => {
                        let text = vstd::slice::slice_to_vec(piece);
                        Err(DecodeError::Line { position: self.position, line: text, reason })
                    },
                }
            },
        }
    }
}

} // verus!
