use vstd::prelude::*;

verus! {

/// Samples per second of the generated sound effects.
pub const SAMPLE_RATE: u32 = 44100;

/// Length of the RIFF/WAVE header that precedes the samples.
pub const WAV_HEADER_LEN: usize = 44;

/// `x` as two little-endian bytes.
pub open spec fn le16(x: int) -> Seq<u8> {
    seq![(x % 256) as u8, ((x / 256) % 256) as u8]
}

/// `x` as four little-endian bytes.
pub open spec fn le32(x: int) -> Seq<u8> {
    seq![
        (x % 256) as u8,
        ((x / 256) % 256) as u8,
        ((x / 65536) % 256) as u8,
        ((x / 16777216) % 256) as u8,
    ]
}

/// The header of a 16-bit mono PCM WAVE file at 44100 Hz holding
/// `num_samples` samples: the RIFF chunk, the "fmt " chunk, then the head
/// of the "data" chunk.
pub open spec fn wav_header_spec(num_samples: int) -> Seq<u8> {
    let data_size = 2 * num_samples;
    // "RIFF", chunk size, "WAVE"
    seq![82u8, 73, 70, 70] + le32(36 + data_size) + seq![87u8, 65, 86, 69]
    // "fmt ", chunk size, PCM, mono, sample rate, byte rate, block align, bits
    + seq![102u8, 109, 116, 32] + le32(16) + le16(1) + le16(1) + le32(SAMPLE_RATE as int) + le32(
        2 * SAMPLE_RATE as int,
    ) + le16(2) + le16(16)
    // "data", chunk size
    + seq![100u8, 97, 116, 97] + le32(data_size)
}

/// Samples as consecutive little-endian two's complement 16-bit words.
pub open spec fn pcm16_spec(samples: Seq<i16>) -> Seq<u8>
    decreases samples.len(),
{
    if samples.len() == 0 {
        Seq::empty()
    } else {
        pcm16_spec(samples.drop_last()) + le16(samples.last() as u16 as int)
    }
}

/// A complete WAVE file holding `samples`.
pub open spec fn wav_spec(samples: Seq<i16>) -> Seq<u8> {
    wav_header_spec(samples.len() as int) + pcm16_spec(samples)
}

fn push_le16(out: &mut Vec<u8>, x: u16)
    ensures
        final(out)@ == old(out)@ + le16(x as int),
{
    out.push((x % 256) as u8);
    out.push((x / 256) as u8);
    assert(final(out)@ =~= old(out)@ + le16(x as int));
}

fn push_le32(out: &mut Vec<u8>, x: u32)
    ensures
        final(out)@ == old(out)@ + le32(x as int),
{
    out.push((x % 256) as u8);
    out.push(((x / 256) % 256) as u8);
    out.push(((x / 65536) % 256) as u8);
    out.push((x / 16777216) as u8);
    assert(final(out)@ =~= old(out)@ + le32(x as int));
}

fn push_tag(out: &mut Vec<u8>, a: u8, b: u8, c: u8, d: u8)
    ensures
        final(out)@ == old(out)@ + seq![a, b, c, d],
{
    out.push(a);
    out.push(b);
    out.push(c);
    out.push(d);
    assert(final(out)@ =~= old(out)@ + seq![a, b, c, d]);
}

/// The 44-byte header of a 16-bit mono PCM WAVE file at 44100 Hz holding
/// `num_samples` samples.
pub fn wav_header(num_samples: u32) -> (h: Vec<u8>)
    requires
        36 + 2 * num_samples <= u32::MAX,
    ensures
        h@ == wav_header_spec(num_samples as int),
        h@.len() == WAV_HEADER_LEN,
{
    let data_size = num_samples * 2;
    let mut h: Vec<u8> = Vec::new();
    push_tag(&mut h, 82, 73, 70, 70);
    push_le32(&mut h, 36 + data_size);
    push_tag(&mut h, 87, 65, 86, 69);
    push_tag(&mut h, 102, 109, 116, 32);
    push_le32(&mut h, 16);
    push_le16(&mut h, 1);
    push_le16(&mut h, 1);
    push_le32(&mut h, SAMPLE_RATE);
    push_le32(&mut h, SAMPLE_RATE * 2);
    push_le16(&mut h, 2);
    push_le16(&mut h, 16);
    push_tag(&mut h, 100, 97, 116, 97);
    push_le32(&mut h, data_size);
    assert(h@ =~= wav_header_spec(num_samples as int));
    h
}

/// A complete 16-bit mono PCM WAVE file at 44100 Hz: the header, then each
/// sample in little-endian order.
pub fn encode_wav(samples: &[i16]) -> (bytes: Vec<u8>)
    requires
        36 + 2 * samples@.len() <= u32::MAX,
    ensures
        bytes@ == wav_spec(samples@),
{
    let n = samples.len();
    let mut bytes = wav_header(n as u32);
    let mut i: usize = 0;
    while i < n
        invariant
            n == samples@.len(),
            i <= n,
            bytes@ == wav_header_spec(n as int) + pcm16_spec(samples@.take(i as int)),
        decreases n - i,
    {
        assert(samples@.take(i + 1).drop_last() =~= samples@.take(i as int));
        push_le16(&mut bytes, samples[i] as u16);
        assert(bytes@ =~= wav_header_spec(n as int) + pcm16_spec(samples@.take(i + 1)));
        i = i + 1;
    }
    assert(samples@.take(n as int) =~= samples@);
    bytes
}


/// The unsigned little-endian 16-bit word at `at`.
pub open spec fn read_le16(b: Seq<u8>, at: int) -> int {
    b[at] as int + 256 * b[at + 1] as int
}

/// The unsigned little-endian 32-bit word at `at`.
pub open spec fn read_le32(b: Seq<u8>, at: int) -> int {
    read_le16(b, at) + 65536 * read_le16(b, at + 2)
}

proof fn lemma_le16_reads_back(x: int)
    requires
        0 <= x < 65536,
    ensures
        read_le16(le16(x), 0) == x,
{
}

proof fn lemma_le32_reads_back(x: int)
    requires
        0 <= x < 0x1_0000_0000,
    ensures
        read_le32(le32(x), 0) == x,
{
}

proof fn lemma_pcm16_layout(samples: Seq<i16>)
    ensures
        pcm16_spec(samples).len() == 2 * samples.len(),
        forall|i: int|
            0 <= i < samples.len() ==> pcm16_spec(samples).subrange(2 * i, 2 * i + 2) == le16(
                #[trigger] samples[i] as u16 as int,
            ),
    decreases samples.len(),
{
    if samples.len() > 0 {
        let init = samples.drop_last();
        lemma_pcm16_layout(init);
        let p = pcm16_spec(init);
        let last = le16(samples.last() as u16 as int);
        assert forall|i: int| 0 <= i < samples.len() implies pcm16_spec(samples).subrange(
            2 * i,
            2 * i + 2,
        ) == le16(#[trigger] samples[i] as u16 as int) by {
            if i < init.len() {
                assert(init[i] == samples[i]);
                assert(pcm16_spec(samples).subrange(2 * i, 2 * i + 2) =~= p.subrange(
                    2 * i,
                    2 * i + 2,
                ));
            } else {
                assert(pcm16_spec(samples).subrange(2 * i, 2 * i + 2) =~= last);
            }
        }
    }
}

/// A reader of the file finds what the header promises: the RIFF size is
/// the file length less eight, the format is mono 16-bit PCM at 44100 Hz,
/// the data chunk holds two bytes per sample, and each sample reads back
/// as the one that was written.
pub proof fn lemma_wav_reads_back(samples: Seq<i16>)
    requires
        36 + 2 * samples.len() <= u32::MAX,
    ensures
        wav_spec(samples).len() == WAV_HEADER_LEN + 2 * samples.len(),
        read_le32(wav_spec(samples), 4) == wav_spec(samples).len() - 8,
        read_le16(wav_spec(samples), 20) == 1,
        read_le16(wav_spec(samples), 22) == 1,
        read_le32(wav_spec(samples), 24) == SAMPLE_RATE,
        read_le32(wav_spec(samples), 24) == 44100,
        read_le32(wav_spec(samples), 28) == 88200,
        read_le32(wav_spec(samples), 28) == 2 * read_le32(wav_spec(samples), 24),
        read_le16(wav_spec(samples), 32) == 2,
        read_le16(wav_spec(samples), 34) == 16,
        read_le32(wav_spec(samples), 16) == 16,
        wav_spec(samples).subrange(0, 4) == seq![82u8, 73, 70, 70],
        wav_spec(samples).subrange(8, 12) == seq![87u8, 65, 86, 69],
        wav_spec(samples).subrange(12, 16) == seq![102u8, 109, 116, 32],
        wav_spec(samples).subrange(36, 40) == seq![100u8, 97, 116, 97],
        read_le32(wav_spec(samples), 40) == 2 * samples.len(),
        forall|i: int|
            0 <= i < samples.len() ==> (read_le16(wav_spec(samples), 44 + 2 * i) as u16) as i16
                == #[trigger] samples[i],
{
    let w = wav_spec(samples);
    let n = samples.len() as int;
    let h = wav_header_spec(n);
    lemma_pcm16_layout(samples);
    assert(h.len() == 44);
    lemma_le32_reads_back(36 + 2 * n);
    lemma_le32_reads_back(2 * n);
    lemma_le32_reads_back(SAMPLE_RATE as int);
    lemma_le16_reads_back(1);
    lemma_le16_reads_back(16);
    lemma_le16_reads_back(2);
    lemma_le32_reads_back(16);
    lemma_le32_reads_back(88200);
    assert(w.subrange(28, 32) =~= le32(88200));
    assert(w.subrange(32, 34) =~= le16(2));
    assert(w.subrange(16, 20) =~= le32(16));
    assert(read_le32(w, 28) == read_le32(w.subrange(28, 32), 0));
    assert(read_le16(w, 32) == read_le16(w.subrange(32, 34), 0));
    assert(read_le32(w, 16) == read_le32(w.subrange(16, 20), 0));
    assert(w.subrange(0, 4) =~= seq![82u8, 73, 70, 70]);
    assert(w.subrange(8, 12) =~= seq![87u8, 65, 86, 69]);
    assert(w.subrange(12, 16) =~= seq![102u8, 109, 116, 32]);
    assert(w.subrange(36, 40) =~= seq![100u8, 97, 116, 97]);
    assert(w.subrange(4, 8) =~= le32(36 + 2 * n));
    assert(w.subrange(40, 44) =~= le32(2 * n));
    assert(w.subrange(24, 28) =~= le32(SAMPLE_RATE as int));
    assert(w.subrange(20, 22) =~= le16(1));
    assert(w.subrange(22, 24) =~= le16(1));
    assert(w.subrange(34, 36) =~= le16(16));
    assert(read_le32(w, 4) == read_le32(w.subrange(4, 8), 0));
    assert(read_le32(w, 40) == read_le32(w.subrange(40, 44), 0));
    assert(read_le32(w, 24) == read_le32(w.subrange(24, 28), 0));
    assert(read_le16(w, 20) == read_le16(w.subrange(20, 22), 0));
    assert(read_le16(w, 22) == read_le16(w.subrange(22, 24), 0));
    assert(read_le16(w, 34) == read_le16(w.subrange(34, 36), 0));
    assert forall|i: int| 0 <= i < samples.len() implies (read_le16(w, 44 + 2 * i) as u16) as i16
        == #[trigger] samples[i] by {
        let x = samples[i];
        let u = x as u16;
        assert(w.subrange(44 + 2 * i, 46 + 2 * i) =~= pcm16_spec(samples).subrange(
            2 * i,
            2 * i + 2,
        ));
        lemma_le16_reads_back(u as int);
        assert(read_le16(w, 44 + 2 * i) == read_le16(w.subrange(44 + 2 * i, 46 + 2 * i), 0));
        assert((u as i16) == x) by (bit_vector)
            requires
                u == x as u16,
        ;
    }
}

} // verus!
