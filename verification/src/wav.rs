//! The boundary to the output container writer. The single trusted function
//! here hands the collected samples to the writer in bulk and returns the
//! finalized container bytes. The writer owns the output buffer from its
//! creation until it is finalized and offers no way to hand the buffer
//! back in between, so the whole writer session stands in this one
//! function.

use vstd::prelude::*;

verus! {

/// The complete output container that the writer produces for the given
/// declared signal parameters and interleaved samples, each sample the raw
/// bit pattern of a 32-bit floating-point value. The writer is
/// deterministic: the same parameters and samples give the same bytes on
/// every machine, which is all the library assumes about this function.
pub uninterp spec fn wav_bytes(
    channels: u16,
    rate: u32,
    bits_per_sample: u16,
    float_format: bool,
    samples: Seq<u32>,
) -> Seq<u8>;

/// Relies on `hound::WavWriter` (`new`, `write_sample`, `finalize`): writes
/// every sample in order into a fresh in-memory container declared with the
/// given parameters, finalizes it, and returns its bytes, which always hold
/// at least the container's header. Each 32-bit sample is written as its
/// raw bit pattern; the writer emits the same little-endian bytes for it as
/// for the floating-point value with those bits, and never consults the
/// declared sample format when writing. The writer rejects parameters it
/// cannot express instead of panicking, except for five conditions that the
/// preconditions rule out: a zero rate and a zero channel count (the writer
/// divides by both), a floating-point declaration at a width other than
/// 32 bits, a byte rate (rate times bytes per sample times channels) beyond
/// the header's 32-bit field, and more sample bytes than the container's
/// 32-bit size fields can count. At a width of 32 bits, writing into memory
/// fails in exactly one way: a sample count that is not a whole number of
/// frames for the declared channel count, reported at finalization.
#[verifier::external_body]
pub(crate) fn write_container(
    channels: u16,
    rate: u32,
    bits_per_sample: u16,
    float_format: bool,
    samples: &Vec<u32>,
) -> (r: Result<Vec<u8>, ()>)
    requires
        rate != 0,
        channels != 0,
        float_format ==> bits_per_sample == 32,
        (rate as int) * (((bits_per_sample as int) + 7) / 8) * (channels as int) < 0x1_0000_0000,
        4 * samples@.len() + 68 < 0x1_0000_0000,
    ensures
        r matches Ok(bytes) ==> bytes@ == wav_bytes(
            channels,
            rate,
            bits_per_sample,
            float_format,
            samples@,
        ),
        r matches Ok(bytes) ==> bytes@.len() > 0,
        bits_per_sample == 32 ==> (r is Ok <==> samples@.len() as int % (channels as int) == 0),
{
    let mut out: Vec<u8> = Vec::new();
    let format = if float_format { hound::SampleFormat::Float } else { hound::SampleFormat::Int };
    let spec = hound::WavSpec { channels, sample_rate: rate, bits_per_sample, sample_format: format };
    let mut writer = hound::WavWriter::new(std::io::Cursor::new(&mut out), spec).map_err(|_| ())?;
    for s in samples.iter() {
        writer.write_sample(*s as i32).map_err(|_| ())?;
    }
    writer.finalize().map_err(|_| ())?;
    Ok(out)
}

} // verus!
