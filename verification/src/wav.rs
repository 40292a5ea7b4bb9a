use vstd::prelude::*;

verus! {

// A recording is persisted as a standard uncompressed WAV file: the
// canonical 44-byte RIFF header for mono 16-bit PCM, followed by the
// samples in little-endian order.

/// Little-endian bytes of a 16-bit value.
pub open spec fn le16(v: u16) -> Seq<u8> {
    seq![(v & 0xff) as u8, ((v >> 8) & 0xff) as u8]
}

/// Little-endian bytes of a 32-bit value.
pub open spec fn le32(v: u32) -> Seq<u8> {
    seq![
        (v & 0xff) as u8,
        ((v >> 8) & 0xff) as u8,
        ((v >> 16) & 0xff) as u8,
        ((v >> 24) & 0xff) as u8,
    ]
}

/// The sample data: each 16-bit sample in little-endian order.
pub open spec fn pcm_bytes(s: Seq<i16>) -> Seq<u8>
    decreases s.len(),
{
    if s.len() == 0 {
        Seq::empty()
    } else {
        pcm_bytes(s.drop_last()) + le16(s.last() as u16)
    }
}

/// The canonical header for `len` mono 16-bit samples at `sample_rate`:
/// RIFF/WAVE, a 16-byte PCM format chunk (1 channel, 16 bits, byte rate
/// twice the sample rate), and the data chunk's length.
pub open spec fn wav_header(len: nat, sample_rate: u32) -> Seq<u8> {
    seq![0x52u8, 0x49u8, 0x46u8, 0x46u8]  // "RIFF"
     + le32(
        (36 + 2 * len) as u32,
    ) + seq![0x57u8, 0x41u8, 0x56u8, 0x45u8]  // "WAVE"
     + seq![0x66u8, 0x6du8, 0x74u8, 0x20u8]  // "fmt "
     + le32(16) + le16(1)  // PCM, uncompressed
     + le16(1)  // mono
     + le32(sample_rate) + le32((2 * (sample_rate as int)) as u32)  // byte rate
     + le16(2)  // bytes per frame
     + le16(16)  // bits per sample
     + seq![0x64u8, 0x61u8, 0x74u8, 0x61u8]  // "data"
     + le32((2 * len) as u32)
}

/// A whole WAV file: header, then samples.
pub open spec fn wav_spec(s: Seq<i16>, sample_rate: u32) -> Seq<u8> {
    wav_header(s.len(), sample_rate) + pcm_bytes(s)
}

fn push_le16(out: &mut Vec<u8>, v: u16)
    ensures
        final(out)@ == old(out)@ + le16(v),
{
    out.push((v & 0xff) as u8);
    out.push(((v >> 8) & 0xff) as u8);
    proof {
        assert(out@ =~= old(out)@ + le16(v));
    }
}

fn push_le32(out: &mut Vec<u8>, v: u32)
    ensures
        final(out)@ == old(out)@ + le32(v),
{
    out.push((v & 0xff) as u8);
    out.push(((v >> 8) & 0xff) as u8);
    out.push(((v >> 16) & 0xff) as u8);
    out.push(((v >> 24) & 0xff) as u8);
    proof {
        assert(out@ =~= old(out)@ + le32(v));
    }
}

/// Frame a mono 16-bit PCM buffer at `sample_rate` as a WAV file. An empty
/// buffer still yields a valid, silent file of 44 header bytes.
pub fn wav_bytes(samples: &Vec<i16>, sample_rate: u32) -> (out: Vec<u8>)
    requires
        2 * samples@.len() + 36 <= u32::MAX as nat,
        2 * (sample_rate as nat) <= u32::MAX as nat,
    ensures
        out@ == wav_spec(samples@, sample_rate),
        out@.len() == 44 + 2 * samples@.len(),
{
    let len = samples.len();
    let data_len: u32 = 2 * (len as u32);
    let mut out: Vec<u8> = Vec::new();
    out.push(0x52);
    out.push(0x49);
    out.push(0x46);
    out.push(0x46);
    push_le32(&mut out, 36 + data_len);
    out.push(0x57);
    out.push(0x41);
    out.push(0x56);
    out.push(0x45);
    out.push(0x66);
    out.push(0x6d);
    out.push(0x74);
    out.push(0x20);
    push_le32(&mut out, 16);
    push_le16(&mut out, 1);
    push_le16(&mut out, 1);
    push_le32(&mut out, sample_rate);
    push_le32(&mut out, 2 * sample_rate);
    push_le16(&mut out, 2);
    push_le16(&mut out, 16);
    out.push(0x64);
    out.push(0x61);
    out.push(0x74);
    out.push(0x61);
    push_le32(&mut out, data_len);
    proof {
        assert(out@ =~= wav_header(samples@.len(), sample_rate));
    }
    let mut i: usize = 0;
    while i < len
        invariant
            i <= len,
            len == samples@.len(),
            out@ == wav_header(samples@.len(), sample_rate) + pcm_bytes(samples@.take(i as int)),
        decreases len - i,
    {
        push_le16(&mut out, samples[i] as u16);
        proof {
            let w = samples@.take(i + 1);
            assert(w.drop_last() =~= samples@.take(i as int));
            assert(out@ =~= wav_header(samples@.len(), sample_rate) + pcm_bytes(w));
        }
        i = i + 1;
    }
    proof {
        assert(samples@.take(len as int) =~= samples@);
        assert(out@.len() == 44 + 2 * samples@.len()) by {
            lemma_pcm_bytes_len(samples@);
        }
    }
    out
}

/// Each sample contributes exactly two bytes.
pub proof fn lemma_pcm_bytes_len(s: Seq<i16>)
    ensures
        pcm_bytes(s).len() == 2 * s.len(),
    decreases s.len(),
{
    if s.len() > 0 {
        lemma_pcm_bytes_len(s.drop_last());
    }
}

} // verus!
