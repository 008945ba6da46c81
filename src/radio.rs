//! Receiver frames of a FlySky iBUS link: checksum validation and decoding of
//! the six stick channels into a pilot command.
//!
//! Stick values are kept in per-mille: `1000` stands for full deflection.
use vstd::prelude::*;

verus! {

/// Payload bytes in one frame; the header byte that precedes it is not counted.
pub const FRAME_LEN: usize = 31;

/// The byte that announces a frame on the serial line.
pub const FRAME_HEADER: u8 = 0x20;

/// The checksum covers the payload bytes before this index.
pub const CHECKSUM_SPAN: usize = 29;

/// The value from which the covered bytes are subtracted.
pub const CHECKSUM_SEED: u16 = 0xFFDF;

/// Raw channel value at or below which a channel reads as zero.
pub const CHANNEL_LOW: u16 = 1000;

/// Raw channel value at or above which a channel reads as full.
pub const CHANNEL_HIGH: u16 = 2000;

/// Full scale of a normalized value (per-mille).
pub const UNIT: i32 = 1000;

/// A throttle reading above this snaps to full throttle.
pub const THROTTLE_DETENT: i32 = 950;

/// Sum of the first `n` bytes of `s`.
pub open spec fn byte_sum(s: Seq<u8>, n: int) -> int
    decreases n,
{
    if n <= 0 {
        0
    } else {
        byte_sum(s, n - 1) + s[n - 1]
    }
}

/// The checksum that the covered bytes of `frame` call for.
pub open spec fn expected_checksum(frame: Seq<u8>) -> int {
    CHECKSUM_SEED - byte_sum(frame, CHECKSUM_SPAN as int)
}

/// The checksum carried in the last two bytes of `frame`, high byte last.
pub open spec fn carried_checksum(frame: Seq<u8>) -> int {
    frame[30] * 256 + frame[29]
}

pub open spec fn frame_valid(frame: Seq<u8>) -> bool {
    expected_checksum(frame) == carried_checksum(frame)
}

/// Raw value of channel `k` (0..6): two bytes after the command byte, high byte last.
pub open spec fn channel_raw(frame: Seq<u8>, k: int) -> int {
    frame[2 * k + 2] * 256 + frame[2 * k + 1]
}

/// A raw channel value clamped to `[1000, 2000]` and moved to `[0, 1000]`.
pub open spec fn normalized(raw: int) -> int {
    if raw < CHANNEL_LOW {
        0
    } else if raw > CHANNEL_HIGH {
        UNIT as int
    } else {
        raw - CHANNEL_LOW
    }
}

pub open spec fn channel(frame: Seq<u8>, k: int) -> int {
    normalized(channel_raw(frame, k))
}

/// A value of `[0, 1000]` spread over `[-1000, 1000]`: `2v - 1`.
pub open spec fn centered(v: int) -> int {
    2 * v - UNIT
}

/// Throttle with its full-throttle detent.
pub open spec fn detent(v: int) -> int {
    if v > THROTTLE_DETENT {
        UNIT as int
    } else {
        v
    }
}

/// The mode selector: twice the channel value, truncated to a whole number.
pub open spec fn selector(v: int) -> int {
    (2 * v) / (UNIT as int)
}

/// The pilot command that a frame holds.
pub open spec fn command_of(frame: Seq<u8>) -> RadioCommand {
    RadioCommand {
        z_throttle: detent(channel(frame, 2)) as i32,
        y_throttle: centered(channel(frame, 1)) as i32,
        x_throttle: centered(channel(frame, 0)) as i32,
        twist_throttle: centered(channel(frame, 3)) as i32,
        mode_select: selector(channel(frame, 4)) as u8,
        aux: channel(frame, 5) as i32,
    }
}

/// Why no new command came from the receiver.
#[derive(Clone, Copy, Debug, PartialEq, Eq)]
pub enum RadioError {
    /// A frame arrived whose checksum does not match its contents.
    ChecksumError,
    /// The serial line reported a fault, if it said which.
    ReadError(Option<ReadErrorType>),
    /// Nothing new has arrived.
    NoNewData,
}

/// The faults a serial line reports.
#[derive(Clone, Copy, Debug, PartialEq, Eq)]
pub enum ReadErrorType {
    Overrun,
    Break,
    Parity,
    Framing,
}

/// A decoded pilot command, in per-mille.
///
/// `z_throttle` and `aux` lie in `[0, 1000]`; the other sticks in
/// `[-1000, 1000]`; `mode_select` is 0, 1 or 2.
#[derive(Clone, Copy, Debug, PartialEq, Eq)]
pub struct RadioCommand {
    pub z_throttle: i32,
    pub y_throttle: i32,
    pub x_throttle: i32,
    pub twist_throttle: i32,
    pub mode_select: u8,
    pub aux: i32,
}

impl RadioCommand {
    pub open spec fn wf(self) -> bool {
        &&& 0 <= self.z_throttle <= UNIT
        &&& -UNIT <= self.y_throttle <= UNIT
        &&& -UNIT <= self.x_throttle <= UNIT
        &&& -UNIT <= self.twist_throttle <= UNIT
        &&& self.mode_select <= 2
        &&& 0 <= self.aux <= UNIT
    }
}

/// Clamps a raw channel value to `[1000, 2000]` and moves it to `[0, 1000]`.
pub fn normalize_channel(raw: u16) -> (r: i32)
    ensures
        r == normalized(raw as int),
        0 <= r <= UNIT,
{
    if raw < CHANNEL_LOW {
        0
    } else if raw > CHANNEL_HIGH {
        UNIT
    } else {
        (raw - CHANNEL_LOW) as i32
    }
}

/// Whether the checksum carried by `frame` matches its first 29 bytes.
pub fn checksum_matches(frame: &[u8; 31]) -> (r: bool)
    ensures
        r == frame_valid(frame@),
{
    let mut checksum: u16 = CHECKSUM_SEED;
    let mut i: usize = 0;
    while i < CHECKSUM_SPAN
        invariant
            i <= CHECKSUM_SPAN,
            0 <= byte_sum(frame@, i as int) <= 255 * i,
            checksum == CHECKSUM_SEED - byte_sum(frame@, i as int),
        decreases CHECKSUM_SPAN - i,
    {
        checksum = checksum - frame[i] as u16;
        i = i + 1;
    }
    let carried: u16 = frame[30] as u16 * 256 + frame[29] as u16;
    checksum == carried
}

/// The receiver's side of the link: the last frame that passed its checksum.
pub struct Radio {
    pub buf: [u8; 31],
}

impl Radio {
    /// A receiver that has seen no frame yet: every byte is zero.
    pub fn new() -> (r: Radio)
        ensures
            r.buf@ == Seq::new(31, |i: int| 0u8),
    {
        let r = Radio { buf: [0u8; 31] };
        assert(r.buf@ =~= Seq::new(31, |i: int| 0u8));
        r
    }

    /// Takes in one frame as it came after the header byte. It is kept if its
    /// checksum matches; otherwise the last good frame stays.
    pub fn read(&mut self, frame: &[u8; 31]) -> (r: Result<(), RadioError>)
        ensures
            r is Ok <==> frame_valid(frame@),
            r is Ok ==> final(self).buf@ == frame@,
            r is Err ==> r == Err::<(), RadioError>(RadioError::ChecksumError)
                && final(self).buf@ == old(self).buf@,
    {
        if !checksum_matches(frame) {
            return Err(RadioError::ChecksumError);
        }
        self.buf = *frame;
        Ok(())
    }

    /// Decodes the kept frame into a pilot command.
    pub fn get_command(&self) -> (r: RadioCommand)
        ensures
            r == command_of(self.buf@),
            r.wf(),
    {
        let mut channels: [i32; 6] = [0i32; 6];
        let mut i: usize = 0;
        while i < 6
            invariant
                i <= 6,
                forall|k: int| 0 <= k < i ==> channels[k] == channel(self.buf@, k),
                forall|k: int| 0 <= k < 6 ==> 0 <= #[trigger] channels[k] <= UNIT,
            decreases 6 - i,
        {
            let raw: u16 = self.buf[2 * i + 2] as u16 * 256 + self.buf[2 * i + 1] as u16;
            channels[i] = normalize_channel(raw);
            i = i + 1;
        }
        if channels[2] > THROTTLE_DETENT {
            channels[2] = UNIT;
        }
        RadioCommand {
            z_throttle: channels[2],
            y_throttle: channels[1] * 2 - UNIT,
            x_throttle: channels[0] * 2 - UNIT,
            twist_throttle: channels[3] * 2 - UNIT,
            mode_select: (channels[4] * 2 / UNIT) as u8,
            aux: channels[5],
        }
    }
}

/// Changing byte `i` of `s` to `v` moves the sum of the first `n` bytes by
/// `v - s[i]` when `i < n`.
pub proof fn lemma_byte_sum_update(s: Seq<u8>, i: int, v: u8, n: int)
    requires
        0 <= i < s.len(),
        n <= s.len(),
    ensures
        byte_sum(s.update(i, v), n) == byte_sum(s, n) + (if i < n { v - s[i] } else { 0 }),
    decreases n,
{
    if n > 0 {
        lemma_byte_sum_update(s, i, v, n - 1);
    }
}

/// A frame that passes its checksum fails it once any single bit of the 29
/// covered bytes is flipped.
pub proof fn lemma_bit_flip_rejected(frame: Seq<u8>, i: int, bit: u8)
    requires
        frame.len() == FRAME_LEN,
        frame_valid(frame),
        0 <= i < CHECKSUM_SPAN,
        bit < 8,
    ensures
        !frame_valid(frame.update(i, frame[i] ^ (1u8 << bit))),
{
    let b = frame[i];
    let v = b ^ (1u8 << bit);
    assert(v != b) by (bit_vector)
        requires
            v == b ^ (1u8 << bit),
            bit < 8,
    ;
    lemma_byte_sum_update(frame, i, v, CHECKSUM_SPAN as int);
    let flipped = frame.update(i, v);
    assert(carried_checksum(flipped) == carried_checksum(frame));
}

} // verus!
