//! The segment container: a 44-byte little-endian RIFF/WAVE header followed
//! by interleaved 16-bit samples.
//!
//! A header is written with both size fields at zero when a segment is
//! created and patched once the segment is complete.

use vstd::prelude::*;
use crate::error::RecorderError;

verus! {

/// Length of the container header in bytes.
pub const HEADER_LEN: usize = 44;

/// Offset of the chunk size field.
pub const CHUNK_SIZE_OFFSET: usize = 4;

/// Offset of the data size field.
pub const DATA_SIZE_OFFSET: usize = 40;

/// The two bytes of `x`, least significant first. Meant for `0 <= x < 65536`.
pub open spec fn le16(x: int) -> Seq<u8> {
    seq![(x % 256) as u8, ((x / 256) % 256) as u8]
}

/// The four bytes of `x`, least significant first. Meant for `0 <= x < 2^32`.
pub open spec fn le32(x: int) -> Seq<u8> {
    seq![
        (x % 256) as u8,
        ((x / 256) % 256) as u8,
        ((x / 65_536) % 256) as u8,
        ((x / 16_777_216) % 256) as u8,
    ]
}

/// The number that four little-endian bytes stand for.
pub open spec fn from_le32(s: Seq<u8>) -> int
    recommends
        s.len() == 4,
{
    s[0] + 256 * s[1] + 65_536 * s[2] + 16_777_216 * s[3]
}

/// A sample as the unsigned 16-bit word that stores it (two's complement).
pub open spec fn sample_word(x: i16) -> int {
    if x < 0 {
        x + 65_536
    } else {
        x as int
    }
}

/// The ASCII tag that opens the file.
pub open spec fn tag_riff() -> Seq<u8> {
    seq![0x52u8, 0x49u8, 0x46u8, 0x46u8]
}

/// The ASCII tag that names the format.
pub open spec fn tag_wave() -> Seq<u8> {
    seq![0x57u8, 0x41u8, 0x56u8, 0x45u8]
}

/// The ASCII tag of the format sub-chunk; its last byte is a space.
pub open spec fn tag_fmt() -> Seq<u8> {
    seq![0x66u8, 0x6du8, 0x74u8, 0x20u8]
}

/// The ASCII tag of the data sub-chunk.
pub open spec fn tag_data() -> Seq<u8> {
    seq![0x64u8, 0x61u8, 0x74u8, 0x61u8]
}

/// Bytes per second of audio: rate times channels times bytes per sample.
pub open spec fn spec_byte_rate(num_channels: u16, sample_rate: u32, bits_per_sample: u16) -> int {
    (sample_rate * num_channels * bits_per_sample) / 8
}

/// Bytes per sample over all channels.
pub open spec fn spec_block_align(num_channels: u16, bits_per_sample: u16) -> int {
    (num_channels * bits_per_sample) / 8
}

/// Whether the derived header fields fit: the byte rate in 32 bits and the
/// block alignment in 16.
pub open spec fn format_fits(num_channels: u16, sample_rate: u32, bits_per_sample: u16) -> bool {
    &&& spec_byte_rate(num_channels, sample_rate, bits_per_sample) <= u32::MAX
    &&& spec_block_align(num_channels, bits_per_sample) <= u16::MAX
}

/// The 32 bytes of a header between the chunk size and the data size: the
/// format tag, the format sub-chunk and the tag of the data sub-chunk.
pub open spec fn spec_format_fields(
    num_channels: u16,
    sample_rate: u32,
    bits_per_sample: u16,
) -> Seq<u8> {
    tag_wave() + tag_fmt() + le32(16) + le16(1) + le16(num_channels as int) + le32(
        sample_rate as int,
    ) + le32(spec_byte_rate(num_channels, sample_rate, bits_per_sample)) + le16(
        spec_block_align(num_channels, bits_per_sample),
    ) + le16(bits_per_sample as int) + tag_data()
}

/// The 44 bytes of a header that announces `data_size` bytes of samples.
#[verifier::opaque]
pub open spec fn spec_wav_header(
    num_channels: u16,
    sample_rate: u32,
    bits_per_sample: u16,
    data_size: int,
) -> Seq<u8> {
    tag_riff() + le32(36 + data_size) + spec_format_fields(
        num_channels,
        sample_rate,
        bits_per_sample,
    ) + le32(data_size)
}

/// The chunk size that the header bytes of `file` announce.
pub open spec fn chunk_size_field(file: Seq<u8>) -> int
    recommends
        file.len() >= 44,
{
    from_le32(file.subrange(4, 8))
}

/// The data size that the header bytes of `file` announce.
pub open spec fn data_size_field(file: Seq<u8>) -> int
    recommends
        file.len() >= 44,
{
    from_le32(file.subrange(40, 44))
}

/// `file` with both size fields rewritten from its own length: the chunk
/// size is the length less 8, the data size the length less 44.
#[verifier::opaque]
pub open spec fn spec_finalized(file: Seq<u8>) -> Seq<u8>
    recommends
        44 <= file.len() <= u32::MAX,
{
    file.subrange(0, 4) + le32(file.len() - 8) + file.subrange(8, 40) + le32(file.len() - 44)
        + file.subrange(44, file.len() as int)
}

/// Two frames woven into one byte stream: for each index below the shorter
/// length the sample of channel A, then that of channel B, each as two
/// little-endian bytes.
#[verifier::opaque]
pub open spec fn spec_interleave(a: Seq<i16>, b: Seq<i16>) -> Seq<u8> {
    let pairs = if a.len() <= b.len() {
        a.len()
    } else {
        b.len()
    };
    Seq::new(
        4 * pairs,
        |i: int|
            {
                let sample = if i % 4 < 2 {
                    a[i / 4]
                } else {
                    b[i / 4]
                };
                if i % 2 == 0 {
                    (sample_word(sample) % 256) as u8
                } else {
                    (sample_word(sample) / 256) as u8
                }
            },
    )
}

/// The sample pairs that a run of frame pairs contributes to a segment:
/// for each pair of frames the length of the shorter one.
pub open spec fn spec_pair_count(frames: Seq<(Seq<i16>, Seq<i16>)>) -> nat
    decreases frames.len(),
{
    if frames.len() == 0 {
        0
    } else {
        let (a, b) = frames.first();
        let pairs = if a.len() <= b.len() {
            a.len()
        } else {
            b.len()
        };
        pairs + spec_pair_count(frames.drop_first())
    }
}

/// The sample bytes of a segment that received `frames` in this order.
pub open spec fn spec_payload(frames: Seq<(Seq<i16>, Seq<i16>)>) -> Seq<u8>
    decreases frames.len(),
{
    if frames.len() == 0 {
        Seq::empty()
    } else {
        let (a, b) = frames.first();
        spec_interleave(a, b) + spec_payload(frames.drop_first())
    }
}

/// Two frames give four bytes for every index that both of them have.
pub proof fn lemma_interleave_len(a: Seq<i16>, b: Seq<i16>)
    ensures
        spec_interleave(a, b).len() == 4 * if a.len() <= b.len() {
            a.len()
        } else {
            b.len()
        },
{
    reveal(spec_interleave);
}

/// A header is 44 bytes long, whatever it announces.
pub proof fn lemma_header_len(
    num_channels: u16,
    sample_rate: u32,
    bits_per_sample: u16,
    data_size: int,
)
    ensures
        spec_wav_header(num_channels, sample_rate, bits_per_sample, data_size).len() == 44,
{
    reveal(spec_wav_header);
}

/// Every sample pair takes four bytes of payload.
pub proof fn lemma_payload_len(frames: Seq<(Seq<i16>, Seq<i16>)>)
    ensures
        spec_payload(frames).len() == 4 * spec_pair_count(frames),
    decreases frames.len(),
{
    if frames.len() > 0 {
        let (a, b) = frames.first();
        lemma_interleave_len(a, b);
        lemma_payload_len(frames.drop_first());
    }
}

/// Finalizing rewrites the two size fields and nothing else: the chunk
/// size becomes the length less 8, the data size the length less 44.
pub proof fn lemma_finalized_fields(file: Seq<u8>)
    requires
        44 <= file.len() <= u32::MAX,
    ensures
        spec_finalized(file).len() == file.len(),
        chunk_size_field(spec_finalized(file)) == file.len() - 8,
        data_size_field(spec_finalized(file)) == file.len() - 44,
        forall|i: int|
            0 <= i < file.len() && !(4 <= i < 8) && !(40 <= i < 44) ==> spec_finalized(file)[i]
                == file[i],
{
    reveal(spec_finalized);
    let done = spec_finalized(file);
    lemma_le32_round_trip(file.len() - 8);
    lemma_le32_round_trip(file.len() - 44);
    assert(done.subrange(4, 8) =~= le32(file.len() - 8));
    assert(done.subrange(40, 44) =~= le32(file.len() - 44));
}

/// Finalizing a file made of a tag, a size field, 32 further header bytes,
/// a second size field and data sets the first field to 36 plus the length
/// of the data and the second to that length.
pub proof fn lemma_finalized_shape(
    tag: Seq<u8>,
    chunk: Seq<u8>,
    fields: Seq<u8>,
    size: Seq<u8>,
    data: Seq<u8>,
)
    requires
        tag.len() == 4,
        chunk.len() == 4,
        fields.len() == 32,
        size.len() == 4,
        44 + data.len() <= u32::MAX,
    ensures
        spec_finalized(tag + chunk + fields + size + data) == tag + le32(36 + data.len() as int)
            + fields + le32(data.len() as int) + data,
{
    reveal(spec_finalized);
    let written = tag + chunk + fields + size + data;
    assert(written.subrange(0, 4) =~= tag);
    assert(written.subrange(8, 40) =~= fields);
    assert(written.subrange(44, written.len() as int) =~= data);
}

/// Container round trip: a placeholder header followed by the bytes of
/// frame pairs that hold N sample pairs in all, once finalized, is the
/// header that announces 4N bytes of data followed by the same bytes; its
/// chunk size field reads 36 + 4N and its data size field 4N.
pub proof fn lemma_container_round_trip(
    num_channels: u16,
    sample_rate: u32,
    bits_per_sample: u16,
    frames: Seq<(Seq<i16>, Seq<i16>)>,
)
    requires
        44 + 4 * spec_pair_count(frames) <= u32::MAX,
    ensures
        ({
            let n = spec_pair_count(frames) as int;
            let written = spec_wav_header(num_channels, sample_rate, bits_per_sample, 0)
                + spec_payload(frames);
            let done = spec_finalized(written);
            &&& done == spec_wav_header(num_channels, sample_rate, bits_per_sample, 4 * n)
                + spec_payload(frames)
            &&& chunk_size_field(done) == 36 + 4 * n
            &&& data_size_field(done) == 4 * n
        }),
{
    let written = spec_wav_header(num_channels, sample_rate, bits_per_sample, 0) + spec_payload(
        frames,
    );
    reveal(spec_wav_header);
    lemma_payload_len(frames);
    lemma_finalized_shape(
        tag_riff(),
        le32(36),
        spec_format_fields(num_channels, sample_rate, bits_per_sample),
        le32(0),
        spec_payload(frames),
    );
    lemma_finalized_fields(written);
}

/// Decoding undoes encoding for every 32-bit value.
pub proof fn lemma_le32_round_trip(x: int)
    requires
        0 <= x <= u32::MAX,
    ensures
        le32(x).len() == 4,
        from_le32(le32(x)) == x,
{
}

fn push_le16(out: &mut Vec<u8>, x: u16)
    ensures
        final(out)@ == old(out)@ + le16(x as int),
{
    out.push((x % 256) as u8);
    out.push((x / 256) as u8);
    assert(out@ =~= old(out)@ + le16(x as int));
}

fn push_le32(out: &mut Vec<u8>, x: u32)
    ensures
        final(out)@ == old(out)@ + le32(x as int),
{
    out.push((x % 256) as u8);
    out.push(((x / 256) % 256) as u8);
    out.push(((x / 65_536) % 256) as u8);
    out.push((x / 16_777_216) as u8);
    assert(out@ =~= old(out)@ + le32(x as int));
}

fn push_tag(out: &mut Vec<u8>, b0: u8, b1: u8, b2: u8, b3: u8)
    ensures
        final(out)@ == old(out)@ + seq![b0, b1, b2, b3],
{
    out.push(b0);
    out.push(b1);
    out.push(b2);
    out.push(b3);
    assert(out@ =~= old(out)@ + seq![b0, b1, b2, b3]);
}

/// Appends the placeholder header of a new segment to `file`: every field
/// is final except the two sizes, which announce no data yet.
///
/// Fails with `ContainerSize`, leaving `file` as it was, when the byte rate
/// or the block alignment of the format does not fit its field.
pub fn write_wav_header(
    file: &mut Vec<u8>,
    num_channels: u16,
    sample_rate: u32,
    bits_per_sample: u16,
) -> (r: Result<(), RecorderError>)
    ensures
        format_fits(num_channels, sample_rate, bits_per_sample) ==> r.is_ok() && final(file)@
            == old(file)@ + spec_wav_header(num_channels, sample_rate, bits_per_sample, 0),
        !format_fits(num_channels, sample_rate, bits_per_sample) ==> r == Err::<
            (),
            RecorderError,
        >(RecorderError::ContainerSize) && final(file)@ == old(file)@,
        spec_wav_header(num_channels, sample_rate, bits_per_sample, 0).len() == 44,
{
    proof {
        reveal(spec_wav_header);
    }
    assert(0 <= sample_rate * num_channels <= 0xffff_ffff * 0xffff && 0 <= sample_rate
        * num_channels * bits_per_sample <= 0xffff_ffff * 0xffff * 0xffff && num_channels
        * bits_per_sample <= 0xffff * 0xffff) by (nonlinear_arith);
    let per_second: u64 = sample_rate as u64 * num_channels as u64 * bits_per_sample as u64;
    let byte_rate: u64 = per_second / 8;
    let block_align: u32 = (num_channels as u32 * bits_per_sample as u32) / 8;
    if byte_rate > 0xffff_ffff || block_align > 0xffff {
        return Err(RecorderError::ContainerSize);
    }
    push_tag(file, 0x52, 0x49, 0x46, 0x46);
    push_le32(file, 36);
    push_tag(file, 0x57, 0x41, 0x56, 0x45);
    push_tag(file, 0x66, 0x6d, 0x74, 0x20);
    push_le32(file, 16);
    push_le16(file, 1);
    push_le16(file, num_channels);
    push_le32(file, sample_rate);
    push_le32(file, byte_rate as u32);
    push_le16(file, block_align as u16);
    push_le16(file, bits_per_sample);
    push_tag(file, 0x64, 0x61, 0x74, 0x61);
    push_le32(file, 0);
    assert(file@ =~= old(file)@ + spec_wav_header(
        num_channels,
        sample_rate,
        bits_per_sample,
        0,
    ));
    Ok(())
}

/// The chunk size and the data size of a finished file of `file_len`
/// bytes, or `ContainerSize` when the file is shorter than a header or too
/// long for 32-bit size fields.
pub fn finalized_sizes(file_len: u64) -> (r: Result<(u32, u32), RecorderError>)
    ensures
        44 <= file_len <= u32::MAX ==> r == Ok::<(u32, u32), RecorderError>(
            ((file_len - 8) as u32, (file_len - 44) as u32),
        ),
        !(44 <= file_len <= u32::MAX) ==> r == Err::<(u32, u32), RecorderError>(
            RecorderError::ContainerSize,
        ),
{
    if file_len < 44 || file_len > 0xffff_ffff {
        Err(RecorderError::ContainerSize)
    } else {
        Ok(((file_len - 8) as u32, (file_len - 44) as u32))
    }
}

/// The four bytes that store `x` in a size field.
pub fn size_field_bytes(x: u32) -> (r: [u8; 4])
    ensures
        r@ == le32(x as int),
{
    let r = [
        (x % 256) as u8,
        ((x / 256) % 256) as u8,
        ((x / 65_536) % 256) as u8,
        (x / 16_777_216) as u8,
    ];
    assert(r@ =~= le32(x as int));
    r
}

/// Finalizes a complete in-memory segment: recomputes both size fields from
/// the length of `file` and patches them in place.
///
/// Fails with `ContainerSize`, leaving `file` as it was, when `file` is
/// shorter than a header or too long for 32-bit size fields.
pub fn update_wav_header(file: &mut Vec<u8>) -> (r: Result<(), RecorderError>)
    ensures
        44 <= old(file)@.len() <= u32::MAX ==> r.is_ok() && final(file)@ == spec_finalized(
            old(file)@,
        ),
        !(44 <= old(file)@.len() <= u32::MAX) ==> r == Err::<(), RecorderError>(
            RecorderError::ContainerSize,
        ) && final(file)@ == old(file)@,
{
    proof {
        reveal(spec_finalized);
    }
    let len = file.len();
    if len < 44 || len > 0xffff_ffff {
        return Err(RecorderError::ContainerSize);
    }
    let chunk = size_field_bytes((len - 8) as u32);
    let data = size_field_bytes((len - 44) as u32);
    file.set(4, chunk[0]);
    file.set(5, chunk[1]);
    file.set(6, chunk[2]);
    file.set(7, chunk[3]);
    file.set(40, data[0]);
    file.set(41, data[1]);
    file.set(42, data[2]);
    file.set(43, data[3]);
    assert(file@ =~= spec_finalized(old(file)@));
    Ok(())
}

/// Weaves two frames into the bytes that are appended to the segment:
/// sample of channel A, sample of channel B, repeating, each little-endian.
/// Samples beyond the length of the shorter frame are left out.
pub fn interleave(a: &Vec<i16>, b: &Vec<i16>) -> (bytes: Vec<u8>)
    ensures
        bytes@ == spec_interleave(a@, b@),
{
    proof {
        reveal(spec_interleave);
    }
    let pairs = if a.len() <= b.len() {
        a.len()
    } else {
        b.len()
    };
    let mut bytes: Vec<u8> = Vec::new();
    let mut i: usize = 0;
    while i < pairs
        invariant
            i <= pairs,
            pairs <= a.len(),
            pairs <= b.len(),
            bytes@.len() == 4 * i,
            forall|k: int| 0 <= k < 4 * i ==> bytes@[k] == spec_interleave(a@, b@)[k],
        decreases pairs - i,
    {
        proof {
            reveal(spec_interleave);
        }
        let wa = sample_as_word(a[i]);
        let wb = sample_as_word(b[i]);
        bytes.push((wa % 256) as u8);
        bytes.push((wa / 256) as u8);
        bytes.push((wb % 256) as u8);
        bytes.push((wb / 256) as u8);
        i = i + 1;
    }
    assert(bytes@ =~= spec_interleave(a@, b@));
    bytes
}

fn sample_as_word(x: i16) -> (w: u16)
    ensures
        w == sample_word(x),
{
    if x < 0 {
        (x as i32 + 65_536) as u16
    } else {
        x as u16
    }
}

} // verus!
