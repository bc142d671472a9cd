//! The integer side of microphone capture: when a capture buffer holds
//! enough samples for a level reading, and which of them it covers; and the
//! recording flag shared by the start and stop commands.
use vstd::prelude::*;
use vstd::string::StringExecFns;

verus! {

/// Level readings are taken over windows of a tenth of a second.
pub const WINDOWS_PER_SECOND: u32 = 10;

pub open spec fn already_recording_text() -> Seq<char> {
    "Already recording"@
}

/// The number of samples in one level window at `sample_rate` samples per
/// second.
pub fn samples_per_100ms(sample_rate: u32) -> (r: usize)
    ensures
        r == sample_rate / WINDOWS_PER_SECOND,
{
    (sample_rate / WINDOWS_PER_SECOND) as usize
}

/// Where the level window of a capture buffer of `len` samples starts: the
/// most recent window's worth of samples, when the buffer holds at least
/// that many and a window holds any.
pub fn level_window_start(len: usize, sample_rate: u32) -> (r: Option<usize>)
    ensures
        ({
            let w = sample_rate / WINDOWS_PER_SECOND;
            if w > 0 && len >= w {
                r == Some((len - w) as usize)
            } else {
                r is None
            }
        }),
{
    let w = samples_per_100ms(sample_rate);
    if w > 0 && len >= w {
        Some(len - w)
    } else {
        None
    }
}

/// Marks the start of a recording; refused while one is running.
pub fn start_recording(recording: &mut bool) -> (r: Result<(), String>)
    ensures
        *final(recording),
        *old(recording) ==> (r matches Err(e) && e@ == already_recording_text()),
        !*old(recording) ==> r is Ok,
{
    if *recording {
        Err(String::from_str("Already recording"))
    } else {
        *recording = true;
        Ok(())
    }
}

/// Marks the end of a recording; stopping when none runs does nothing and
/// succeeds.
pub fn stop_recording(recording: &mut bool) -> (r: Result<(), String>)
    ensures
        !*final(recording),
        r is Ok,
{
    *recording = false;
    Ok(())
}

} // verus!
