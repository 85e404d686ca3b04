//! Launch requests, launch results and the bare client-status body.

use vstd::prelude::*;
use crate::error::{DecodeError, EncodeError};
use crate::utf16::{lemma_utf16_field_len_bound, read_utf16_field, to_utf16_bytes, utf16_field, utf16_field_len, utf16_le_bytes};
use crate::wire::{le_u16, le_u32, read_u16, read_u32, u16_bytes, u32_bytes, write_bytes, write_u16, write_u32};

verus! {

/// A request to launch a remote application.
#[derive(Debug)]
pub struct RailExecOrder {
    pub flags: u16,
    pub remote_application_program: String,
    pub remote_application_working_dir: String,
    pub remote_application_arguments: String,
}

pub ghost struct ExecOrderView {
    pub flags: u16,
    pub program: Seq<char>,
    pub working_dir: Seq<char>,
    pub arguments: Seq<char>,
}

impl View for RailExecOrder {
    type V = ExecOrderView;

    open spec fn view(&self) -> ExecOrderView {
        ExecOrderView {
            flags: self.flags,
            program: self.remote_application_program@,
            working_dir: self.remote_application_working_dir@,
            arguments: self.remote_application_arguments@,
        }
    }
}

/// Whether the program name fits its 16-bit byte-length field.
pub open spec fn exec_order_fits(v: ExecOrderView) -> bool {
    utf16_le_bytes(v.program).len() <= 0xFFFF
}

/// The encoding of a launch request: flags, the byte length of the program name, two
/// zero lengths for working directory and arguments, then the program name in UTF-16LE.
/// Working directory and arguments are framed as empty whatever they hold.
pub open spec fn exec_order_bytes(v: ExecOrderView) -> Seq<u8> {
    let program = utf16_le_bytes(v.program);
    u16_bytes(v.flags) + u16_bytes(program.len() as u16) + u16_bytes(0) + u16_bytes(0) + program
}

pub open spec fn exec_order_size(v: ExecOrderView) -> nat {
    8 + utf16_le_bytes(v.program).len()
}

impl RailExecOrder {
    /// Appends the encoding; fails, writing nothing, when the program name is longer
    /// than its length field can declare.
    pub fn encode(&self, dst: &mut Vec<u8>) -> (r: Result<(), EncodeError>)
        ensures
            r is Ok <==> exec_order_fits(self@),
            r is Ok ==> final(dst)@ == old(dst)@ + exec_order_bytes(self@),
            r is Err ==> final(dst)@ == old(dst)@ && r == Err::<(), EncodeError>(
                EncodeError::TooLong,
            ),
    {
        let program = to_utf16_bytes(self.remote_application_program.as_str());
        if program.len() > 0xFFFF {
            return Err(EncodeError::TooLong);
        }
        write_u16(dst, self.flags);
        write_u16(dst, program.len() as u16);
        write_u16(dst, 0);
        write_u16(dst, 0);
        write_bytes(dst, program.as_slice());
        assert(final(dst)@ =~= old(dst)@ + exec_order_bytes(self@));
        Ok(())
    }

    /// Encoded size: eight bytes of fixed fields plus the program name in UTF-16LE.
    pub fn size(&self) -> (r: usize)
        requires
            exec_order_size(self@) <= usize::MAX,
        ensures
            r == exec_order_size(self@),
    {
        let program = to_utf16_bytes(self.remote_application_program.as_str());
        8 + program.len()
    }
}

/// The result of a launch request, as the server reports it. `result` and `raw` are
/// passed through uninterpreted.
#[derive(Debug)]
pub struct RailExecResult {
    pub flags: u16,
    pub result: u16,
    pub raw: u32,
    pub reserved: u16,
    pub file_length: u16,
    pub file: String,
}

pub ghost struct ExecResultView {
    pub flags: u16,
    pub result: u16,
    pub raw: u32,
    pub reserved: u16,
    pub file_length: u16,
    pub file: Seq<char>,
}

impl View for RailExecResult {
    type V = ExecResultView;

    open spec fn view(&self) -> ExecResultView {
        ExecResultView {
            flags: self.flags,
            result: self.result,
            raw: self.raw,
            reserved: self.reserved,
            file_length: self.file_length,
            file: self.file@,
        }
    }
}

/// Decoding of a launch result at the start of `b`: twelve bytes of fixed fields, then a
/// NUL-terminated UTF-16 file name.
pub open spec fn exec_result_decode(b: Seq<u8>) -> Result<(ExecResultView, nat), DecodeError> {
    if b.len() < 12 {
        Err(DecodeError::NotEnoughBytes)
    } else {
        let rest = b.skip(12);
        match utf16_field(rest) {
            Some(file) => Ok(
                (
                    ExecResultView {
                        flags: le_u16(b, 0),
                        result: le_u16(b, 2),
                        raw: le_u32(b, 4),
                        reserved: le_u16(b, 8),
                        file_length: le_u16(b, 10),
                        file,
                    },
                    12 + utf16_field_len(rest),
                ),
            ),
            None => Err(DecodeError::InvalidString),
        }
    }
}

impl RailExecResult {
    /// Reads a launch result from the start of `src` and says how many bytes it took.
    pub fn decode(src: &[u8]) -> (r: Result<(RailExecResult, usize), DecodeError>)
        ensures
            match r {
                Ok((o, n)) => exec_result_decode(src@) == Ok::<(ExecResultView, nat), DecodeError>(
                    (o@, n as nat),
                ),
                Err(e) => exec_result_decode(src@) == Err::<(ExecResultView, nat), DecodeError>(
                    e,
                ),
            },
            r matches Ok((_, n)) ==> n <= src@.len(),
    {
        if src.len() < 12 {
            return Err(DecodeError::NotEnoughBytes);
        }
        let flags = read_u16(src, 0);
        let result = read_u16(src, 2);
        let raw = read_u32(src, 4);
        let reserved = read_u16(src, 8);
        let file_length = read_u16(src, 10);
        let rest = vstd::slice::slice_subrange(src, 12, src.len());
        assert(rest@ =~= src@.skip(12));
        match read_utf16_field(rest) {
            Some((file, n)) => {
                proof {
                    lemma_utf16_field_len_bound(rest@);
                }
                Ok((RailExecResult { flags, result, raw, reserved, file_length, file }, 12 + n))
            },
            None => Err(DecodeError::InvalidString),
        }
    }
}

/// A client-status body on its own: the capability flags.
#[derive(Debug, Clone, Copy, PartialEq, Eq, Structural)]
pub struct RailStatusPdu(pub u32);

impl RailStatusPdu {
    pub fn encode(&self, dst: &mut Vec<u8>)
        ensures
            final(dst)@ == old(dst)@ + u32_bytes(self.0),
    {
        write_u32(dst, self.0);
    }

    pub fn size(&self) -> (r: usize)
        ensures
            r == 4,
    {
        4
    }
}

} // verus!
