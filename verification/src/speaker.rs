//! The speaker's ring buffer: sounds and streamed audio are pushed into a
//! pipe that the I2S task drains, with silence whenever it runs dry.

use vstd::prelude::*;
use embassy_sync::blocking_mutex::raw::CriticalSectionRawMutex;
use embassy_sync::pipe::{Pipe, TryReadError, TryWriteError};

verus! {

pub const RING_BUFFER_SIZE: usize = 16384;
/// Largest number of bytes moved from the pipe to the I2S DMA per step.
pub const PIPE_READ_CHUNK: usize = 1024;

#[verifier::external_type_specification]
#[verifier::external_body]
pub struct ExTryWriteError(TryWriteError);

#[verifier::external_type_specification]
#[verifier::external_body]
pub struct ExTryReadError(TryReadError);

/// The speaker's pipe: a byte ring buffer of `RING_BUFFER_SIZE` bytes,
/// shared between the writers (sounds, the audio stream) and the I2S task.
#[verifier::external_body]
pub struct SpeakerPipe {
    pipe: Pipe<CriticalSectionRawMutex, RING_BUFFER_SIZE>,
}

impl SpeakerPipe {
    /// `Pipe::new`: an empty pipe.
    #[verifier::external_body]
    pub fn new() -> Self {
        SpeakerPipe { pipe: Pipe::new() }
    }

    /// `Pipe::try_write`: copies as many leading bytes of `buf` as the pipe
    /// has room for and returns that count, which is at least one for a
    /// non-empty `buf`; fails with `Full` when the pipe has no room. How
    /// much room there is depends on the reader, so the count is not stated.
    #[verifier::external_body]
    fn try_write(&self, buf: &[u8]) -> (r: Result<usize, TryWriteError>)
        ensures
            r matches Ok(n) ==> n <= buf@.len() && (buf@.len() > 0 ==> n > 0),
    {
        self.pipe.try_write(buf)
    }

    /// `Pipe::try_read` into the first `len` bytes of `buf`: moves as many
    /// buffered bytes as fit there and returns that count, at least one for
    /// `len > 0`; fails with `Empty` when nothing is buffered. Bytes past the
    /// count are left alone. What was buffered depends on the writers, so
    /// the bytes read are not stated.
    #[verifier::external_body]
    fn try_read(&self, buf: &mut [u8], len: usize) -> (r: Result<usize, TryReadError>)
        requires
            len <= old(buf)@.len(),
        ensures
            final(buf)@.len() == old(buf)@.len(),
            r matches Ok(n) ==> n <= len && (len > 0 ==> n > 0),
            r matches Ok(n) ==> forall|i: int| n <= i < old(buf)@.len() ==> final(buf)@[i] == old(buf)@[i],
            r is Err ==> final(buf)@ == old(buf)@,
    {
        self.pipe.try_read(&mut buf[..len])
    }
}

/// The number of bytes that a write into the pipe took: the count of a
/// successful write, 0 when the pipe was full.
pub fn bytes_taken(result: Result<usize, TryWriteError>) -> (r: usize)
    ensures
        match result {
            Ok(n) => r == n,
            Err(_) => r == 0,
        },
{
    match result {
        Ok(n) => n,
        Err(_) => 0,
    }
}

/// Pushes as much of `data` into the speaker's pipe as fits and returns how
/// many bytes were taken: at most all of them, none of an empty `data`, and
/// 0 when the pipe is full. How much room the pipe has depends on the I2S
/// task that drains it, so the count itself is `bytes_taken` of whatever
/// the pipe's write answered.
pub fn play(pipe: &SpeakerPipe, data: &[u8]) -> (r: usize)
    ensures
        r <= data@.len(),
        data@.len() == 0 ==> r == 0,
{
    bytes_taken(pipe.try_write(data))
}

/// What the I2S task sends next.
#[derive(PartialEq, Eq, Structural, Debug)]
pub enum SpeakerOutput {
    /// The first `n` bytes of the buffer, just read from the pipe.
    Audio(usize),
    /// This many bytes of silence, to keep the clocks running.
    Silence(usize),
}

/// How many bytes the I2S task asks of the pipe when the DMA buffer has
/// `free` bytes of room: at most one chunk.
pub open spec fn read_len(free: int) -> int {
    if free < PIPE_READ_CHUNK { free } else { PIPE_READ_CHUNK as int }
}

/// The number of bytes to ask of the pipe when the DMA buffer has `free`
/// bytes of room: `free`, but at most one chunk.
pub fn read_request(free: usize) -> (r: usize)
    ensures
        r == read_len(free as int),
{
    if free < PIPE_READ_CHUNK {
        free
    } else {
        PIPE_READ_CHUNK
    }
}

/// What the I2S task sends for the pipe's answer to a read: the bytes read
/// when there were any, else `free` bytes of silence.
pub fn output_for(answer: Result<usize, TryReadError>, free: usize) -> (r: SpeakerOutput)
    ensures
        match answer {
            Ok(n) => if n > 0 { r == SpeakerOutput::Audio(n) } else { r == SpeakerOutput::Silence(free) },
            Err(_) => r == SpeakerOutput::Silence(free),
        },
{
    match answer {
        Ok(n) => {
            if n > 0 {
                SpeakerOutput::Audio(n)
            } else {
                SpeakerOutput::Silence(free)
            }
        },
        Err(_) => SpeakerOutput::Silence(free),
    }
}

/// With `free` bytes of room in the DMA buffer: asks the pipe for
/// `read_request(free)` bytes into the front of `buf` and sends
/// them; when the pipe is empty, fills the room with silence instead. What
/// the pipe holds depends on its writers, so which of the two comes out is
/// `output_for` of the pipe's answer.
pub fn next_output(pipe: &SpeakerPipe, free: usize, buf: &mut [u8]) -> (r: SpeakerOutput)
    requires
        free > 0,
        old(buf)@.len() == PIPE_READ_CHUNK,
    ensures
        final(buf)@.len() == PIPE_READ_CHUNK,
        match r {
            SpeakerOutput::Audio(n) => 0 < n <= read_len(free as int) && forall|i: int|
                n <= i < PIPE_READ_CHUNK ==> final(buf)@[i] == old(buf)@[i],
            SpeakerOutput::Silence(m) => m == free && final(buf)@ == old(buf)@,
        },
{
    let answer = pipe.try_read(buf, read_request(free));
    output_for(answer, free)
}

} // verus!
