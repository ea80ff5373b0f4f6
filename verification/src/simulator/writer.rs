//! The byte sinks that the display device forwards to: an interactive
//! terminal and an in-memory file image that the caller persists after the
//! run.

use vstd::prelude::*;
use std::io::Write;

verus! {

/// Where the program's output goes: the interactive terminal, or an
/// in-memory buffer standing for an output file.
pub enum Writer {
    Terminal,
    OutFile(Vec<u8>),
}

/// Relies on std::io::Stdout::write_all: forwards the bytes to the
/// terminal and reports whether the write succeeded.
#[verifier::external_body]
fn terminal_write(buf: &[u8]) -> (r: bool) {
    std::io::stdout().write_all(buf).is_ok()
}

/// How one write changes a writer. A file-backed writer always succeeds
/// and appends the bytes to its buffer; the terminal keeps no state here
/// and may report failure.
pub open spec fn write_rel(pre: Writer, post: Writer, buf: Seq<u8>, r: Result<usize, ()>) -> bool {
    match pre {
        Writer::OutFile(out) => {
            &&& r == Result::<usize, ()>::Ok(buf.len() as usize)
            &&& post matches Writer::OutFile(o2) && o2@ == out@ + buf
        },
        Writer::Terminal => post == pre && (r == Result::<usize, ()>::Ok(buf.len() as usize) || r
            == Result::<usize, ()>::Err(())),
    }
}

impl Writer {
    /// A writer that collects everything written into an in-memory buffer.
    pub fn to_buffer() -> (r: Writer)
        ensures
            r matches Writer::OutFile(o) && o@ == Seq::<u8>::empty(),
    {
        Writer::OutFile(Vec::new())
    }

    /// Write the given bytes, returning how many were written, or a
    /// failure that the device layer records without aborting execution.
    pub fn write(&mut self, buf: &[u8]) -> (r: Result<usize, ()>)
        ensures
            write_rel(*old(self), *final(self), buf@, r),
    {
        match self {
            Writer::Terminal => {
                if terminal_write(buf) {
                    Ok(buf.len())
                } else {
                    Err(())
                }
            },
            Writer::OutFile(out) => {
                let mut i: usize = 0;
                while i < buf.len()
                    invariant
                        i <= buf@.len(),
                        out@ == old(self)->OutFile_0@ + buf@.subrange(0, i as int),
                    decreases buf@.len() - i,
                {
                    out.push(buf[i]);
                    i = i + 1;
                }
                proof {
                    assert(buf@.subrange(0, buf@.len() as int) =~= buf@);
                }
                Ok(buf.len())
            },
        }
    }
}

} // verus!
