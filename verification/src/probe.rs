//! The capability probe: which performance modes can be set on this unit.
//!
//! The probe runs on a link of its own, apart from the scheduler's. It tries
//! every mode but the current one by setting it, and puts the current mode
//! back in the end. The custom mode is never left: a device that reports it
//! is not written to at all.

use crate::device::{all_perf_modes, perf_mode_universe, PerfMode};
use crate::link::{Exchange, Link, Op, Standing, Wire};
use vstd::prelude::*;

verus! {

/// The link and the modes found after the first `n` modes of `list` were
/// tried: the current mode counts without a write, any other mode counts if
/// setting it succeeds.
pub open spec fn tried(w: Wire, current: PerfMode, list: Seq<PerfMode>, n: nat) -> (
    Wire,
    Seq<PerfMode>,
)
    decreases n,
{
    if n == 0 {
        (w, Seq::empty())
    } else {
        let before = tried(w, current, list, (n - 1) as nat);
        let mode = list[n - 1];
        if mode == current {
            (before.0, before.1.push(mode))
        } else {
            (
                before.0.after(Op::SetPerfMode(mode)),
                if before.0.done(Op::SetPerfMode(mode)).is_ok() {
                    before.1.push(mode)
                } else {
                    before.1
                },
            )
        }
    }
}

/// What the probe does. If the device cannot be opened, or its mode cannot
/// be read, nothing is found. A device in custom mode yields that mode alone
/// and is not written to. Otherwise every mode is tried in turn, and the
/// mode found at the start is written back, whether or not that succeeds.
pub open spec fn probed(w: Wire) -> (Wire, Seq<PerfMode>) {
    let w1 = w.after(Op::Detect);
    if w.device().is_err() {
        (w1, Seq::empty())
    } else {
        let w2 = w1.after(Op::GetPerfMode);
        match w1.modes() {
            Err(_) => (w2, Seq::empty()),
            Ok(modes) => if modes.0 == PerfMode::Custom {
                (w2, seq![PerfMode::Custom])
            } else {
                let found = tried(w2, modes.0, perf_mode_universe(), perf_mode_universe().len());
                (found.0.after(Op::SetPerfMode(modes.0)), found.1)
            },
        }
    }
}

/// Finds the performance modes that can be set, and leaves the device in the
/// mode in which it was found.
pub fn probe_supported_modes(link: &mut Link) -> (modes: Vec<PerfMode>)
    ensures
        (final(link)@, modes@) == probed(old(link)@),
{
    let mut modes: Vec<PerfMode> = Vec::new();
    if let Ok(_) = link.detect() {
        if let Ok((current_mode, _)) = link.get_perf_mode() {
            if current_mode == PerfMode::Custom {
                modes.push(PerfMode::Custom);
                assert(modes@ =~= seq![PerfMode::Custom]);
            } else {
                let candidates = all_perf_modes();
                let ghost start = link@;
                let mut i: usize = 0;
                while i < candidates.len()
                    invariant
                        0 <= i <= candidates.len(),
                        candidates@ == perf_mode_universe(),
                        (link@, modes@) == tried(start, current_mode, candidates@, i as nat),
                    decreases candidates.len() - i,
                {
                    let mode = candidates[i];
                    if mode == current_mode {
                        modes.push(mode);
                    } else if let Ok(_) = link.set_perf_mode(mode) {
                        modes.push(mode);
                    }
                    i = i + 1;
                }
                let _ = link.set_perf_mode(current_mode);
            }
        }
    }
    modes
}

/// A probe that finds the device in custom mode asks for no write: it opens
/// the device, reads the mode, and reports the custom mode alone.
pub proof fn custom_mode_is_not_probed(w: Wire)
    requires
        w.device().is_ok(),
        w.after(Op::Detect).modes() matches Ok(modes) && modes.0 == PerfMode::Custom,
    ensures
        probed(w).1 == seq![PerfMode::Custom],
        probed(w).0.asked == w.asked + seq![Op::Detect, Op::GetPerfMode],
        forall|i: int|
            w.asked.len() <= i < probed(w).0.asked.len() ==> !(#[trigger] probed(w).0.asked[i]).writes(),
{
    assert(probed(w).0.asked =~= w.asked + seq![Op::Detect, Op::GetPerfMode]);
}

/// The mode in which the device was found is always among the modes that a
/// probe of the modes in `list` reports, if it is in `list`.
pub proof fn current_mode_is_found(w: Wire, current: PerfMode, list: Seq<PerfMode>, n: nat)
    requires
        n <= list.len(),
        list.take(n as int).contains(current),
    ensures
        tried(w, current, list, n).1.contains(current),
    decreases n,
{
    if n > 0 {
        let before = tried(w, current, list, (n - 1) as nat);
        if list[n - 1] == current {
            assert(before.1.push(current).last() == current);
        } else {
            let i = choose|i: int| 0 <= i < n && list.take(n as int)[i] == current;
            assert(list.take((n - 1) as int)[i] == current);
            current_mode_is_found(w, current, list, (n - 1) as nat);
            let j = choose|j: int| 0 <= j < before.1.len() && before.1[j] == current;
            assert(tried(w, current, list, n).1[j] == current);
        }
    }
}

/// How a probe over a transcript ended.
#[derive(Debug)]
pub enum ProbeProgress {
    /// The probe is complete; these are the modes it found.
    Finished(Vec<PerfMode>),
    /// The host has to carry out this operation and run the probe again.
    Ask(Op),
    /// The transcript is not one of this probe.
    Diverged,
}

/// Runs the probe over the exchanges carried out so far.
pub fn run_probe(transcript: &Vec<Exchange>) -> (progress: ProbeProgress)
    ensures
        match progress {
            ProbeProgress::Finished(modes) => {
                &&& probed(Wire::fresh(transcript@)).0.standing() == Standing::Settled
                &&& modes@ == probed(Wire::fresh(transcript@)).1
            },
            ProbeProgress::Ask(op) => probed(Wire::fresh(transcript@)).0.standing()
                == Standing::Waiting(op),
            ProbeProgress::Diverged => probed(Wire::fresh(transcript@)).0.standing()
                == Standing::Diverged,
        },
{
    let mut link = Link::new(transcript);
    let modes = probe_supported_modes(&mut link);
    match link.standing() {
        Standing::Settled => ProbeProgress::Finished(modes),
        Standing::Waiting(op) => ProbeProgress::Ask(op),
        Standing::Diverged => ProbeProgress::Diverged,
    }
}

} // verus!
