//! Microphone capture and the voice-assistant stream: stereo blocks are
//! mixed down to mono and gathered into fixed-size chunks, which are framed
//! for the backend; the backend answers with one byte per event.

use vstd::prelude::*;

verus! {

/// Samples per chunk that the wake-word model takes.
pub const OWW_MODEL_CHUNK_SIZE: usize = 1280;
pub const STEREO_SAMPLES_PER_READ: usize = 256;
pub const MONO_SAMPLES_PER_READ: usize = 128;
/// Bytes of one stereo block read from the microphone.
pub const STEREO_BLOCK_BYTES: usize = 512;
/// Largest number of samples that a playback chunk may announce.
pub const MAX_PLAYBACK_SAMPLES: usize = 4096;

/// Byte `b` (0 = least significant) of `n` in little-endian order.
pub open spec fn le_byte(n: int, b: int) -> u8 {
    let p: int = if b == 0 {
        1
    } else if b == 1 {
        256
    } else if b == 2 {
        65536
    } else {
        16777216
    };
    ((n / p) % 256) as u8
}

/// The four little-endian bytes of a 32-bit value.
pub open spec fn le_u32(n: int) -> Seq<u8> {
    seq![le_byte(n, 0), le_byte(n, 1), le_byte(n, 2), le_byte(n, 3)]
}

fn le_bytes(n: u32) -> (r: [u8; 4])
    ensures
        r@ == le_u32(n as int),
{
    let b0 = (n % 256) as u8;
    let b1 = (n / 256 % 256) as u8;
    let b2 = (n / 65536 % 256) as u8;
    let b3 = (n / 16777216 % 256) as u8;
    let r = [b0, b1, b2, b3];
    assert(r@ =~= le_u32(n as int));
    r
}

// ASSISTANT PHASES
#[allow(non_camel_case_types)]
#[derive(Clone, Copy, PartialEq, Eq, Structural, Debug)]
pub enum ASSISTANT_PHASE {
    Disabled,
    Listening,
    Detected,
    Thinking,
    Executed,
    Failed,
}

impl ASSISTANT_PHASE {
    /// The number under which the phase is published.
    pub open spec fn spec_code(self) -> u8 {
        match self {
            ASSISTANT_PHASE::Disabled => 0,
            ASSISTANT_PHASE::Listening => 1,
            ASSISTANT_PHASE::Detected => 2,
            ASSISTANT_PHASE::Thinking => 3,
            ASSISTANT_PHASE::Executed => 4,
            ASSISTANT_PHASE::Failed => 5,
        }
    }

    pub fn code(self) -> (r: u8)
        ensures
            r == self.spec_code(),
    {
        match self {
            ASSISTANT_PHASE::Disabled => 0,
            ASSISTANT_PHASE::Listening => 1,
            ASSISTANT_PHASE::Detected => 2,
            ASSISTANT_PHASE::Thinking => 3,
            ASSISTANT_PHASE::Executed => 4,
            ASSISTANT_PHASE::Failed => 5,
        }
    }

    /// The phase published under `code`, if any.
    pub fn from_code(code: u8) -> (r: Option<ASSISTANT_PHASE>)
        ensures
            code <= 5 ==> (r matches Some(p) && p.spec_code() == code),
            code > 5 ==> r is None,
    {
        match code {
            0 => Some(ASSISTANT_PHASE::Disabled),
            1 => Some(ASSISTANT_PHASE::Listening),
            2 => Some(ASSISTANT_PHASE::Detected),
            3 => Some(ASSISTANT_PHASE::Thinking),
            4 => Some(ASSISTANT_PHASE::Executed),
            5 => Some(ASSISTANT_PHASE::Failed),
            _ => None,
        }
    }
}

/// Reading a published code back gives the phase that was published.
pub proof fn lemma_phase_code_roundtrip(p: ASSISTANT_PHASE)
    ensures
        p.spec_code() <= 5,
        forall|q: ASSISTANT_PHASE| q.spec_code() == p.spec_code() ==> q == p,
{
}

/// The sound that answers a backend event.
#[derive(Clone, Copy, PartialEq, Eq, Structural, Debug)]
pub enum AssistantSound {
    Ding,
    Done,
    Fail,
}

/// What the device does on one event byte from the backend: publish
/// `phase`, play `sound`, set the display brightness to each value of
/// `brightness` in turn (50 ms apart), and publish `Listening` again
/// afterwards when `then_listening` is set.
pub struct ReplyPlan {
    pub phase: ASSISTANT_PHASE,
    pub sound: Option<AssistantSound>,
    pub brightness: Vec<u8>,
    pub then_listening: bool,
}

/// The reaction to event byte `byte`: 0x01 wake word detected, 0x02
/// transcription started, 0x03 command executed, 0x04 command failed;
/// any other byte changes nothing.
pub fn reply_plan(byte: u8) -> (r: Option<ReplyPlan>)
    ensures
        byte == 1 ==> (r matches Some(p) && p.phase == ASSISTANT_PHASE::Detected && p.sound
            == Some(AssistantSound::Ding) && p.brightness@ == seq![70u8] && !p.then_listening),
        byte == 2 ==> (r matches Some(p) && p.phase == ASSISTANT_PHASE::Thinking && p.sound is None
            && p.brightness@ == seq![0u8, 80u8, 0u8, 70u8] && !p.then_listening),
        byte == 3 ==> (r matches Some(p) && p.phase == ASSISTANT_PHASE::Executed && p.sound
            == Some(AssistantSound::Done) && p.brightness@ == seq![0u8] && p.then_listening),
        byte == 4 ==> (r matches Some(p) && p.phase == ASSISTANT_PHASE::Failed && p.sound == Some(
            AssistantSound::Fail,
        ) && p.brightness@ == seq![0u8] && p.then_listening),
        (byte == 0 || byte > 4) ==> r is None,
{
    match byte {
        0x01 => Some(
            ReplyPlan {
                phase: ASSISTANT_PHASE::Detected,
                sound: Some(AssistantSound::Ding),
                brightness: vec![70u8],
                then_listening: false,
            },
        ),
        0x02 => Some(
            ReplyPlan {
                phase: ASSISTANT_PHASE::Thinking,
                sound: None,
                brightness: vec![0u8, 80u8, 0u8, 70u8],
                then_listening: false,
            },
        ),
        0x03 => Some(
            ReplyPlan {
                phase: ASSISTANT_PHASE::Executed,
                sound: Some(AssistantSound::Done),
                brightness: vec![0u8],
                then_listening: true,
            },
        ),
        0x04 => Some(
            ReplyPlan {
                phase: ASSISTANT_PHASE::Failed,
                sound: Some(AssistantSound::Fail),
                brightness: vec![0u8],
                then_listening: true,
            },
        ),
        _ => None,
    }
}

/// The handshake that opens a stream: the room name's length as a
/// little-endian `u32` (taken modulo 2^32), then the name itself.
pub fn handshake_bytes(room: &[u8]) -> (r: Vec<u8>)
    ensures
        r@ == le_u32((room@.len() % 0x1_0000_0000) as int) + room@,
{
    let n: u64 = room.len() as u64;
    let len_bytes = le_bytes((n % 0x1_0000_0000) as u32);
    let mut out: Vec<u8> = Vec::new();
    let mut i: usize = 0;
    while i < 4
        invariant
            i <= 4,
            out@ == len_bytes@.take(i as int),
        decreases 4 - i,
    {
        out.push(len_bytes[i]);
        i = i + 1;
        assert(out@ =~= len_bytes@.take(i as int));
    }
    let mut j: usize = 0;
    while j < room.len()
        invariant
            j <= room@.len(),
            out@ == len_bytes@ + room@.take(j as int),
        decreases room@.len() - j,
    {
        out.push(room[j]);
        j = j + 1;
        assert(out@ =~= len_bytes@ + room@.take(j as int));
    }
    assert(room@.take(room@.len() as int) =~= room@);
    out
}

/// A framed audio chunk: the chunk size `OWW_MODEL_CHUNK_SIZE` as a
/// little-endian `u32`, then four little-endian bytes per sample (taken by
/// their bit pattern), zero-filled up to the full chunk.
pub open spec fn frame_bytes(bits: Seq<u32>) -> Seq<u8> {
    Seq::new(
        (4 + OWW_MODEL_CHUNK_SIZE * 4) as nat,
        |j: int|
            if j < 4 {
                le_byte(OWW_MODEL_CHUNK_SIZE as int, j)
            } else if (j - 4) / 4 < bits.len() {
                le_byte(bits[(j - 4) / 4] as int, (j - 4) % 4)
            } else {
                0u8
            },
    )
}

/// Frames one chunk of samples for the backend.
pub fn audio_frame(sample_bits: &[u32]) -> (r: Vec<u8>)
    requires
        sample_bits@.len() <= OWW_MODEL_CHUNK_SIZE,
    ensures
        r@ == frame_bytes(sample_bits@),
{
    let total = 4 + OWW_MODEL_CHUNK_SIZE * 4;
    let mut out: Vec<u8> = vec![0u8; total];
    let header = le_bytes(OWW_MODEL_CHUNK_SIZE as u32);
    out.set(0, header[0]);
    out.set(1, header[1]);
    out.set(2, header[2]);
    out.set(3, header[3]);
    let mut i: usize = 0;
    while i < sample_bits.len()
        invariant
            sample_bits@.len() <= OWW_MODEL_CHUNK_SIZE,
            total == 4 + OWW_MODEL_CHUNK_SIZE * 4,
            out@.len() == total,
            i <= sample_bits@.len(),
            forall|j: int|
                0 <= j < total ==> #[trigger] out@[j] == if j < 4 {
                    le_byte(OWW_MODEL_CHUNK_SIZE as int, j)
                } else if (j - 4) / 4 < i {
                    le_byte(sample_bits@[(j - 4) / 4] as int, (j - 4) % 4)
                } else {
                    0u8
                },
        decreases sample_bits@.len() - i,
    {
        let b = le_bytes(sample_bits[i]);
        let off = 4 + i * 4;
        out.set(off, b[0]);
        out.set(off + 1, b[1]);
        out.set(off + 2, b[2]);
        out.set(off + 3, b[3]);
        i = i + 1;
    }
    assert(out@ =~= frame_bytes(sample_bits@));
    out
}

/// The signed 16-bit sample stored little-endian at bytes `2k`, `2k + 1`.
pub open spec fn sample_at(bytes: Seq<u8>, k: int) -> int {
    let u = bytes[2 * k] as int + 256 * (bytes[2 * k + 1] as int);
    if u >= 32768 {
        u - 65536
    } else {
        u
    }
}

/// Mono samples of a block of interleaved stereo samples: each pair of
/// left and right samples averaged, rounded toward zero.
pub open spec fn mono_of(block: Seq<u8>) -> Seq<i16> {
    Seq::new(
        block.len() / 4,
        |i: int| crate::time::trunc_div(sample_at(block, 2 * i) + sample_at(block, 2 * i + 1), 2) as i16,
    )
}

fn read_sample(block: &[u8], k: usize) -> (r: i32)
    requires
        2 * k + 1 < block@.len(),
    ensures
        r == sample_at(block@, k as int),
        -32768 <= r <= 32767,
{
    let _len = block.len();
    let u: i32 = block[2 * k] as i32 + 256 * (block[2 * k + 1] as i32);
    if u >= 32768 {
        u - 65536
    } else {
        u
    }
}

/// Gathers mono samples until a whole chunk is available; remembers
/// whether the last chunk was all zeros (a silent microphone).
pub struct MicAccumulator {
    pub accum: Vec<i16>,
    pub silent: bool,
}

impl MicAccumulator {
    pub fn new() -> (r: Self)
        ensures
            r.accum@.len() == 0,
            !r.silent,
    {
        MicAccumulator { accum: Vec::new(), silent: false }
    }

    /// Whether another stereo block must be read before a chunk is ready.
    pub fn needs_more(&self) -> (r: bool)
        ensures
            r == (self.accum@.len() < OWW_MODEL_CHUNK_SIZE),
    {
        self.accum.len() < OWW_MODEL_CHUNK_SIZE
    }

    /// Mixes one stereo block down to mono and appends it.
    pub fn push_stereo_block(&mut self, block: &[u8])
        requires
            block@.len() == STEREO_BLOCK_BYTES,
        ensures
            final(self).accum@ == old(self).accum@ + mono_of(block@),
            final(self).silent == old(self).silent,
    {
        let mut i: usize = 0;
        while i < MONO_SAMPLES_PER_READ
            invariant
                block@.len() == STEREO_BLOCK_BYTES,
                i <= MONO_SAMPLES_PER_READ,
                self.silent == old(self).silent,
                self.accum@ == old(self).accum@ + mono_of(block@).take(i as int),
            decreases MONO_SAMPLES_PER_READ - i,
        {
            let l = read_sample(block, 2 * i);
            let r = read_sample(block, 2 * i + 1);
            let m = ((l + r) / 2) as i16;
            self.accum.push(m);
            i = i + 1;
            assert(self.accum@ =~= old(self).accum@ + mono_of(block@).take(i as int));
        }
        assert(mono_of(block@).take(MONO_SAMPLES_PER_READ as int) =~= mono_of(block@));
    }

    /// Takes the oldest chunk; the silence flag becomes whether it is all
    /// zeros, which is also returned.
    pub fn take_chunk(&mut self) -> (r: (Vec<i16>, bool))
        requires
            old(self).accum@.len() >= OWW_MODEL_CHUNK_SIZE,
        ensures
            r.0@ == old(self).accum@.take(OWW_MODEL_CHUNK_SIZE as int),
            final(self).accum@ == old(self).accum@.skip(OWW_MODEL_CHUNK_SIZE as int),
            r.1 == (forall|k: int| 0 <= k < r.0@.len() ==> r.0@[k] == 0),
            final(self).silent == r.1,
    {
        let mut chunk: Vec<i16> = Vec::new();
        let mut rest: Vec<i16> = Vec::new();
        let n = self.accum.len();
        let mut all_zero = true;
        let mut i: usize = 0;
        while i < n
            invariant
                n == self.accum@.len(),
                self.accum@ == old(self).accum@,
                n >= OWW_MODEL_CHUNK_SIZE,
                i <= n,
                i <= OWW_MODEL_CHUNK_SIZE ==> chunk@ == self.accum@.take(i as int),
                i > OWW_MODEL_CHUNK_SIZE ==> chunk@ == self.accum@.take(OWW_MODEL_CHUNK_SIZE as int),
                i <= OWW_MODEL_CHUNK_SIZE ==> rest@.len() == 0,
                i > OWW_MODEL_CHUNK_SIZE ==> rest@ == self.accum@.subrange(OWW_MODEL_CHUNK_SIZE as int, i as int),
                all_zero == (forall|k: int| 0 <= k < chunk@.len() ==> chunk@[k] == 0),
            decreases n - i,
        {
            let v = self.accum[i];
            if i < OWW_MODEL_CHUNK_SIZE {
                let ghost before = chunk@;
                chunk.push(v);
                if v != 0 {
                    all_zero = false;
                    assert(chunk@[chunk@.len() - 1] != 0);
                } else {
                    assert forall|k: int| 0 <= k < chunk@.len() && all_zero implies chunk@[k] == 0 by {
                        if k < before.len() {
                            assert(chunk@[k] == before[k]);
                        }
                    }
                    proof {
                        if !all_zero {
                            let w = choose|k: int| 0 <= k < before.len() && before[k] != 0;
                            assert(chunk@[w] == before[w]);
                        }
                    }
                }
                assert(chunk@ =~= self.accum@.take(i + 1));
            } else {
                rest.push(v);
                assert(rest@ =~= self.accum@.subrange(OWW_MODEL_CHUNK_SIZE as int, i + 1));
            }
            i = i + 1;
        }
        assert(rest@ =~= old(self).accum@.skip(OWW_MODEL_CHUNK_SIZE as int));
        self.accum = rest;
        self.silent = all_zero;
        let r = (chunk, all_zero);
        proof {
            if all_zero {
                assert forall|k: int| 0 <= k < r.0@.len() implies r.0@[k] == 0 by {
                    assert(chunk@[k] == 0);
                }
            } else {
                let w = choose|k: int| 0 <= k < chunk@.len() && chunk@[k] != 0;
                assert(r.0@[w] != 0);
            }
        }
        r
    }
}

/// Every sample gathered comes out exactly once and in order: the chunk
/// that `take_chunk` hands out followed by what it keeps is what was
/// gathered.
pub proof fn lemma_chunk_conserves_samples(gathered: Seq<i16>)
    requires
        gathered.len() >= OWW_MODEL_CHUNK_SIZE,
    ensures
        gathered.take(OWW_MODEL_CHUNK_SIZE as int) + gathered.skip(OWW_MODEL_CHUNK_SIZE as int) == gathered,
        gathered.take(OWW_MODEL_CHUNK_SIZE as int).len() == OWW_MODEL_CHUNK_SIZE,
{
    assert(gathered.take(OWW_MODEL_CHUNK_SIZE as int) + gathered.skip(OWW_MODEL_CHUNK_SIZE as int) =~= gathered);
}

/// Number of samples that a playback chunk announces in its 4-byte
/// little-endian header; `None` when it is 0 or above
/// `MAX_PLAYBACK_SAMPLES`, which ends the stream.
pub fn chunk_sample_count(header: [u8; 4]) -> (r: Option<usize>)
    ensures
        ({
            let n = header[0] as int + 256 * header[1] as int + 65536 * header[2] as int + 16777216
                * header[3] as int;
            if 0 < n <= MAX_PLAYBACK_SAMPLES {
                r == Some(n as usize)
            } else {
                r is None
            }
        }),
{
    let n: u64 = header[0] as u64 + 256 * (header[1] as u64) + 65536 * (header[2] as u64)
        + 16777216 * (header[3] as u64);
    if n == 0 || n > MAX_PLAYBACK_SAMPLES as u64 {
        None
    } else {
        Some(n as usize)
    }
}

/// The bytes of 16-bit PCM samples as the speaker takes them: each sample
/// little-endian.
pub open spec fn pcm_bytes_of(samples: Seq<i16>) -> Seq<u8> {
    Seq::new(
        2 * samples.len(),
        |j: int|
            {
                let s = samples[j / 2] as int;
                let u = if s < 0 {
                    s + 65536
                } else {
                    s
                };
                le_byte(u, j % 2)
            },
    )
}

pub fn pcm_bytes(samples: &[i16]) -> (r: Vec<u8>)
    requires
        2 * samples@.len() <= usize::MAX,
    ensures
        r@ == pcm_bytes_of(samples@),
{
    let mut out: Vec<u8> = Vec::new();
    let mut i: usize = 0;
    while i < samples.len()
        invariant
            i <= samples@.len(),
            2 * samples@.len() <= usize::MAX,
            out@.len() == 2 * i,
            forall|j: int| 0 <= j < 2 * i ==> #[trigger] out@[j] == pcm_bytes_of(samples@)[j],
        decreases samples@.len() - i,
    {
        let s = samples[i];
        let u: u32 = if s < 0 {
            (s as i32 + 65536) as u32
        } else {
            s as u32
        };
        out.push((u % 256) as u8);
        out.push((u / 256 % 256) as u8);
        i = i + 1;
    }
    assert(out@ =~= pcm_bytes_of(samples@));
    out
}

} // verus!
