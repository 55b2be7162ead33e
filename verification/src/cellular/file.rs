//! Files in the modem's flash (UFS): certificate uploads, block reads and
//! writes, and what their replies mean.

use vstd::prelude::*;
use vstd::slice::SliceAdditionalExecFns;
use crate::quectel_atat::responses::FileListEntry;
use crate::quectel_atat::types::utf8_len;
use crate::quectel_atat::urc::Urc;
use crate::quectel_atat::FileUploadToInternalFlash;
use crate::ModemError;

verus! {

/// Most bytes one `AT+QFREAD` asks for while reading a file.
pub const FILE_READ_BLOCK: usize = 128;

/// Seconds the modem waits for upload data.
pub const FILE_UPLOAD_TIMEOUT_S: u16 = 3;

/// What a file listing says of one file: its name and size, or
/// `FileUploadFailed` when nothing matched.
pub fn file_meta_result(files: &[FileListEntry]) -> (r: Result<(String, u32), ModemError>)
    ensures
        files@.len() == 0 ==> r == Err::<(String, u32), ModemError>(ModemError::FileUploadFailed),
        files@.len() > 0 ==> (r matches Ok((name, size)) && name == files@[0].filename && size
            == files@[0].file_size),
{
    if files.len() == 0 {
        return Err(ModemError::FileUploadFailed);
    }
    let entry = &files[0];
    Ok((entry.filename.clone(), entry.file_size))
}

/// A download of `size` bytes into a buffer of `buf_len` bytes: refused
/// when it does not fit.
pub fn download_size_check(size: u32, buf_len: usize) -> (r: Result<usize, ModemError>)
    ensures
        size > buf_len ==> r == Err::<usize, ModemError>(ModemError::FileUploadFailed),
        size <= buf_len ==> r == Ok::<usize, ModemError>(size as usize),
{
    if size as usize > buf_len {
        Err(ModemError::FileUploadFailed)
    } else {
        Ok(size as usize)
    }
}

/// Bytes the next read asks for once `total` of `buf_len` are read.
pub open spec fn file_block_request(total: nat, buf_len: nat) -> nat {
    if buf_len - total < FILE_READ_BLOCK {
        (buf_len - total) as nat
    } else {
        FILE_READ_BLOCK as nat
    }
}

/// The length of the next `AT+QFREAD`.
pub fn file_read_request(total: usize, buf_len: usize) -> (n: u32)
    requires
        total < buf_len,
    ensures
        n == file_block_request(total as nat, buf_len as nat),
        0 < n <= FILE_READ_BLOCK,
{
    let remaining = buf_len - total;
    if remaining < FILE_READ_BLOCK {
        remaining as u32
    } else {
        FILE_READ_BLOCK as u32
    }
}

/// Bytes one read reply adds: no more than it reported, than it holds,
/// and than the buffer has room for.
pub open spec fn file_block_copy(read_length: u32, data_len: nat, room: nat) -> nat {
    let a = if (read_length as nat) < data_len {
        read_length as nat
    } else {
        data_len
    };
    if a < room {
        a
    } else {
        room
    }
}

/// Take one `AT+QFREAD` reply (`read_length` reported, `data` received)
/// into `buf` after the `total` bytes already read; returns the new total
/// and whether to read on. A reply of 0 bytes, or of fewer than
/// `requested`, ends the file; a full buffer ends the read.
pub fn file_read_step(
    buf: &mut [u8],
    total: usize,
    requested: u32,
    read_length: u32,
    data: &[u8],
) -> (r: (usize, bool))
    requires
        total <= old(buf)@.len(),
    ensures
        final(buf)@.len() == old(buf)@.len(),
        read_length == 0 ==> r == (total, false) && final(buf)@ == old(buf)@,
        read_length > 0 ==> {
            let n = file_block_copy(read_length, data@.len(), (old(buf)@.len() - total) as nat);
            &&& r.0 == total + n
            &&& r.1 == (read_length >= requested && r.0 < old(buf)@.len())
            &&& final(buf)@.subrange(total as int, r.0 as int) == data@.subrange(0, n as int)
            &&& final(buf)@.subrange(0, total as int) == old(buf)@.subrange(0, total as int)
            &&& final(buf)@.subrange(r.0 as int, final(buf)@.len() as int) == old(buf)@.subrange(
                r.0 as int,
                old(buf)@.len() as int,
            )
        },
{
    if read_length == 0 {
        return (total, false);
    }
    let buf_len = buf.len();
    let room = buf_len - total;
    let mut n: usize = if (read_length as usize) < data.len() {
        read_length as usize
    } else {
        data.len()
    };
    if room < n {
        n = room;
    }
    let mut i: usize = 0;
    while i < n
        invariant
            i <= n,
            n <= data@.len(),
            total + n <= buf@.len(),
            buf_len == buf@.len(),
            buf@.len() == old(buf)@.len(),
            forall|k: int| 0 <= k < i ==> buf@[total + k] == data@[k],
            forall|k: int| 0 <= k < total ==> buf@[k] == old(buf)@[k],
            forall|k: int| total + i <= k < buf@.len() ==> buf@[k] == old(buf)@[k],
        decreases n - i,
    {
        buf.set(total + i, data[i]);
        i = i + 1;
    }
    let new_total = total + n;
    assert(buf@.subrange(total as int, new_total as int) =~= data@.subrange(0, n as int));
    assert(buf@.subrange(0, total as int) =~= old(buf)@.subrange(0, total as int));
    assert(buf@.subrange(new_total as int, buf@.len() as int) =~= old(buf)@.subrange(
        new_total as int,
        old(buf)@.len() as int,
    ));
    (new_total, read_length >= requested && new_total < buf.len())
}

/// `AT+QFUPL` for `len` bytes into `filename` (the size is sent as a
/// 32-bit number), with the upload timeout and no acknowledgement mode.
pub fn file_upload_command(filename: &str, len: usize) -> (c: FileUploadToInternalFlash)
    requires
        utf8_len(filename@) <= 80,
    ensures
        c.file_path@ == filename@,
        c.file_size == len as u32,
        c.timeout == Some(FILE_UPLOAD_TIMEOUT_S),
        c.ack_mode is None,
{
    FileUploadToInternalFlash {
        file_path: filename.to_owned(),
        file_size: #[verifier::truncate]
        (len as u32),
        timeout: Some(FILE_UPLOAD_TIMEOUT_S),
        ack_mode: None,
    }
}

/// How an upload of `len` bytes takes `urc`: a `+QFUPL` with another size
/// fails it; anything else leaves the wait going on.
pub open spec fn upload_outcome(urc: Urc, len: u32) -> Option<ModemError> {
    match urc {
        Urc::FileUploadDone(r) => if r.upload_size != len {
            Some(ModemError::FileUploadFailed)
        } else {
            None
        },
        _ => None,
    }
}

/// The failure `urc` brings to an upload of `len` bytes, if any.
pub fn upload_urc_verdict(urc: &Urc, len: u32) -> (r: Option<ModemError>)
    ensures
        r == upload_outcome(*urc, len),
{
    match urc {
        Urc::FileUploadDone(res) => if res.upload_size != len {
            Some(ModemError::FileUploadFailed)
        } else {
            None
        },
        _ => None,
    }
}

/// How a write of `len` bytes takes `urc`: a `+QFWRITE` ends the wait,
/// successfully when all bytes were written.
pub open spec fn write_outcome(urc: Urc, len: u32) -> Option<Result<(), ModemError>> {
    match urc {
        Urc::FileWriteDone(r) => Some(
            if r.written_length == len {
                Ok(())
            } else {
                Err(ModemError::FileUploadFailed)
            },
        ),
        _ => None,
    }
}

/// The end of the wait for `+QFWRITE` on `urc`; `None` to keep waiting.
pub fn write_urc_verdict(urc: &Urc, len: u32) -> (r: Option<Result<(), ModemError>>)
    ensures
        r == write_outcome(*urc, len),
{
    match urc {
        Urc::FileWriteDone(res) => Some(
            if res.written_length == len {
                Ok(())
            } else {
                Err(ModemError::FileUploadFailed)
            },
        ),
        _ => None,
    }
}

/// The result of a file operation once `AT+QFCLOSE` was sent at its end,
/// where `pending` is what the operation came to before the close and
/// `closed` whether the close was answered `OK`: an earlier error stands
/// whatever the close gave, and a refused close turns success into
/// `FileUploadFailed`.
pub open spec fn close_outcome<T>(pending: Result<T, ModemError>, closed: bool) -> Result<T, ModemError> {
    match pending {
        Err(e) => Err(e),
        Ok(v) => if closed {
            Ok(v)
        } else {
            Err(ModemError::FileUploadFailed)
        },
    }
}

/// The result of a file read or write after its closing `AT+QFCLOSE`.
pub fn file_close_result<T>(pending: Result<T, ModemError>, closed: bool) -> (r: Result<T, ModemError>)
    ensures
        r == close_outcome(pending, closed),
{
    match pending {
        Err(e) => Err(e),
        Ok(v) => if closed {
            Ok(v)
        } else {
            Err(ModemError::FileUploadFailed)
        },
    }
}

/// Where a file write stands.
#[derive(Clone, Copy, Debug, PartialEq, Eq)]
pub enum FileWriteStage {
    /// `AT+QFOPEN` (create or overwrite) was sent.
    Opening,
    /// `AT+QFWRITE` and the data chunks were sent.
    Uploading,
    /// Waiting (10 s) for `+QFWRITE`.
    AwaitingDone,
    /// `AT+QFCLOSE` was sent; the write comes to `pending` unless the close
    /// is refused.
    Closing(Result<(), ModemError>),
}

/// What happened in a file write stage.
#[derive(Clone, Debug)]
pub enum FileWriteEvent {
    /// The stage's commands went through (`true`) or one was refused.
    Done(bool),
    /// An unsolicited result code arrived.
    Received(Urc),
    /// The stage's wait ran out.
    TimedOut,
}

/// What the driver does next in a file write.
#[derive(Clone, Copy, Debug, PartialEq, Eq)]
pub enum FileWriteAction {
    /// Send `AT+QFWRITE` (its reply does not matter), pause, send the data
    /// in chunks, then report `Done` with whether every chunk went through.
    Upload,
    /// Keep waiting for `+QFWRITE`.
    Wait,
    /// Send `AT+QFCLOSE` and report `Done` with whether it was answered; the
    /// write comes to the given result unless the close is refused.
    Close(Result<(), ModemError>),
    /// The write is over with this result.
    Finish(Result<(), ModemError>),
}

/// The file write step for `len` bytes: a refused open ends the write
/// (there is nothing to close); once the file is open, a refused chunk, a
/// short `+QFWRITE`, a full one and no reply in time all lead to the close,
/// and the close ends the write.
pub open spec fn file_write_next(stage: FileWriteStage, event: FileWriteEvent, len: u32) -> FileWriteAction {
    match stage {
        FileWriteStage::Opening => match event {
            FileWriteEvent::Done(true) => FileWriteAction::Upload,
            FileWriteEvent::Received(_) => FileWriteAction::Wait,
            _ => FileWriteAction::Finish(Err(ModemError::FileUploadFailed)),
        },
        FileWriteStage::Uploading => match event {
            FileWriteEvent::Done(true) => FileWriteAction::Wait,
            FileWriteEvent::Received(_) => FileWriteAction::Wait,
            _ => FileWriteAction::Close(Err(ModemError::FileUploadFailed)),
        },
        FileWriteStage::AwaitingDone => match event {
            FileWriteEvent::Received(u) => match write_outcome(u, len) {
                Some(r) => FileWriteAction::Close(r),
                None => FileWriteAction::Wait,
            },
            FileWriteEvent::TimedOut => FileWriteAction::Close(Ok(())),
            FileWriteEvent::Done(_) => FileWriteAction::Wait,
        },
        FileWriteStage::Closing(pending) => match event {
            FileWriteEvent::Done(closed) => FileWriteAction::Finish(close_outcome(pending, closed)),
            FileWriteEvent::Received(_) => FileWriteAction::Wait,
            FileWriteEvent::TimedOut => FileWriteAction::Finish(close_outcome(pending, false)),
        },
    }
}

/// The stage a write is in after `action` was taken in `stage`.
pub open spec fn file_write_stage_after(stage: FileWriteStage, action: FileWriteAction) -> FileWriteStage {
    match action {
        FileWriteAction::Upload => FileWriteStage::Uploading,
        FileWriteAction::Wait => if stage is Uploading {
            FileWriteStage::AwaitingDone
        } else {
            stage
        },
        FileWriteAction::Close(r) => FileWriteStage::Closing(r),
        FileWriteAction::Finish(_) => stage,
    }
}

/// One step of a file write of `len` bytes: the action, and the stage the
/// write is in once it is taken.
pub fn file_write_step(stage: FileWriteStage, event: &FileWriteEvent, len: u32) -> (r: (
    FileWriteAction,
    FileWriteStage,
))
    ensures
        r.0 == file_write_next(stage, *event, len),
        r.1 == file_write_stage_after(stage, r.0),
{
    let action = match stage {
        FileWriteStage::Opening => match event {
            FileWriteEvent::Done(true) => FileWriteAction::Upload,
            FileWriteEvent::Received(_) => FileWriteAction::Wait,
            _ => FileWriteAction::Finish(Err(ModemError::FileUploadFailed)),
        },
        FileWriteStage::Uploading => match event {
            FileWriteEvent::Done(true) => FileWriteAction::Wait,
            FileWriteEvent::Received(_) => FileWriteAction::Wait,
            _ => FileWriteAction::Close(Err(ModemError::FileUploadFailed)),
        },
        FileWriteStage::AwaitingDone => match event {
            FileWriteEvent::Received(u) => match write_urc_verdict(u, len) {
                Some(r) => FileWriteAction::Close(r),
                None => FileWriteAction::Wait,
            },
            FileWriteEvent::TimedOut => FileWriteAction::Close(Ok(())),
            FileWriteEvent::Done(_) => FileWriteAction::Wait,
        },
        FileWriteStage::Closing(pending) => match event {
            FileWriteEvent::Done(closed) => FileWriteAction::Finish(file_close_result(pending, *closed)),
            FileWriteEvent::Received(_) => FileWriteAction::Wait,
            FileWriteEvent::TimedOut => FileWriteAction::Finish(file_close_result(pending, false)),
        },
    };
    let next = match action {
        FileWriteAction::Upload => FileWriteStage::Uploading,
        FileWriteAction::Wait => match stage {
            FileWriteStage::Uploading => FileWriteStage::AwaitingDone,
            _ => stage,
        },
        FileWriteAction::Close(r) => FileWriteStage::Closing(r),
        FileWriteAction::Finish(_) => stage,
    };
    (action, next)
}

/// A file write closes what it opened: only a refused open, or the close
/// itself, ends a write; once the file is open no step ends the write before
/// `AT+QFCLOSE` is sent, and a write that fails before the close still fails
/// after it.
pub proof fn law_file_write_closes(stage: FileWriteStage, event: FileWriteEvent, len: u32)
    ensures
        file_write_next(stage, event, len) matches FileWriteAction::Finish(r) ==> (stage is Opening
            && r == Err::<(), ModemError>(ModemError::FileUploadFailed)) || stage is Closing,
        stage matches FileWriteStage::Closing(Err(e)) ==> (file_write_next(stage, event, len)
            matches FileWriteAction::Finish(r) ==> r == Err::<(), ModemError>(e)),
{
}

/// Uploading and writing files: an upload fails (with `FileUploadFailed`)
/// exactly on a `+QFUPL` that reports another size than was sent, and no
/// other code decides it; a write ends exactly on `+QFWRITE`, successfully
/// exactly when all bytes were written, and otherwise with
/// `FileUploadFailed`.
pub proof fn law_file_transfer_results(
    up: crate::quectel_atat::responses::FileUploadDoneResponse,
    wr: crate::quectel_atat::responses::FileWriteResponse,
    len: u32,
    urc: Urc,
)
    ensures
        upload_outcome(Urc::FileUploadDone(up), len) is Some <==> up.upload_size != len,
        up.upload_size != len ==> upload_outcome(Urc::FileUploadDone(up), len) == Some(
            ModemError::FileUploadFailed,
        ),
        !(urc is FileUploadDone) ==> upload_outcome(urc, len) is None,
        write_outcome(Urc::FileWriteDone(wr), len) == Some(Ok::<(), ModemError>(())) <==> wr.written_length
            == len,
        wr.written_length != len ==> write_outcome(Urc::FileWriteDone(wr), len) == Some(
            Err::<(), ModemError>(ModemError::FileUploadFailed),
        ),
        write_outcome(urc, len) is Some <==> urc is FileWriteDone,
{
}

/// Reading a file block by block: each read asks for the bytes still
/// missing, but never more than one block of 128, and never nothing while
/// bytes are missing; a reply adds no more than it reported, than it holds
/// and than the buffer has room for, and exactly the least of the three.
pub proof fn law_file_blocks(total: nat, buf_len: nat, read_length: u32, data_len: nat, room: nat)
    ensures
        total < buf_len ==> 0 < file_block_request(total, buf_len) <= FILE_READ_BLOCK,
        total < buf_len ==> file_block_request(total, buf_len) <= buf_len - total,
        total < buf_len ==> (file_block_request(total, buf_len) == FILE_READ_BLOCK
            || file_block_request(total, buf_len) == buf_len - total),
        file_block_copy(read_length, data_len, room) <= read_length,
        file_block_copy(read_length, data_len, room) <= data_len,
        file_block_copy(read_length, data_len, room) <= room,
        file_block_copy(read_length, data_len, room) == read_length
            || file_block_copy(read_length, data_len, room) == data_len
            || file_block_copy(read_length, data_len, room) == room,
{
}

} // verus!
