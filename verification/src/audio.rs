//! The audio side of the preview: the shape of the sample stream, and the
//! choice of the audio host that is listened to.

use crate::text::{ascii_folded, opt_text, same_text_ignoring_ascii_case};
use vstd::prelude::*;

verus! {

/// The shape of an interleaved sample stream.
#[derive(Debug, Clone, Copy, PartialEq, Eq, Structural)]
pub struct AudioProcessor {
    pub sample_rate: u32,
    pub channels: u16,
}

impl AudioProcessor {
    /// The shape of a stream of the given sample rate and channel count.
    pub fn new(sample_rate: u32, channels: u16) -> (processor: AudioProcessor)
        ensures
            processor == (AudioProcessor { sample_rate, channels }),
    {
        AudioProcessor { sample_rate, channels }
    }

    /// How many mono samples a stream of `samples` interleaved samples mixes
    /// down to: one for each frame, a last incomplete frame included. A
    /// stream of one channel is kept as it is; a stream without channels
    /// cannot be mixed.
    pub fn mono_len(&self, samples: usize) -> (n: Option<usize>)
        ensures
            self.channels == 0 ==> n is None,
            self.channels > 0 ==> n == Some(
                ((samples + self.channels - 1) / (self.channels as int)) as usize,
            ),
    {
        if self.channels == 0 {
            return None;
        }
        let c = self.channels as usize;
        let whole = samples / c;
        let rest = samples % c;
        assert((samples + c - 1) / (c as int) == if rest == 0 {
            whole as int
        } else {
            whole + 1
        }) by (nonlinear_arith)
            requires
                c > 0,
                whole == samples / c,
                rest == samples % c,
        ;
        if rest == 0 {
            Some(whole)
        } else {
            assert(whole < samples) by (nonlinear_arith)
                requires
                    c > 0,
                    whole == samples / c,
                    rest == samples % c,
                    rest > 0,
            ;
            Some(whole + 1)
        }
    }
}

/// An audio host of the machine, in the order in which the hosts are listed.
#[derive(Debug, Clone, Copy, PartialEq, Eq, Structural)]
pub struct AudioHost {
    /// Whether this is the ALSA host.
    pub is_alsa: bool,
    /// Whether the host can be opened.
    pub usable: bool,
    /// Whether the host has at least one input device.
    pub has_input: bool,
}

/// The audio host to listen to.
#[derive(Debug, Clone, Copy, PartialEq, Eq, Structural)]
pub enum HostChoice {
    /// The listed host of this position.
    Listed(usize),
    /// The default host of the machine.
    Default,
}

/// Whether a host can be taken: it is, or is not, the ALSA host as asked, it
/// can be opened, and it has an input where one is needed.
pub open spec fn host_fits(host: AudioHost, alsa: bool, needs_input: bool) -> bool {
    host.is_alsa == alsa && host.usable && (needs_input ==> host.has_input)
}

/// The first host, from `from` on, that can be taken.
pub open spec fn first_host(hosts: Seq<AudioHost>, alsa: bool, needs_input: bool, from: nat) -> Option<
    nat,
>
    decreases hosts.len() - from,
{
    if from >= hosts.len() {
        None
    } else if host_fits(hosts[from as int], alsa, needs_input) {
        Some(from)
    } else {
        first_host(hosts, alsa, needs_input, from + 1)
    }
}

/// Whether the host override asks for ALSA.
pub open spec fn forces_alsa(force: Option<Seq<char>>) -> bool {
    match force {
        Some(name) => ascii_folded(name) == ascii_folded("alsa"@),
        None => false,
    }
}

/// The host that is listened to. An override for ALSA takes the ALSA host
/// where it can be opened. Otherwise, and where it cannot, the first host
/// with an input is taken, ALSA before the others; the default host where no
/// host has an input.
pub open spec fn picked_host(force: Option<Seq<char>>, hosts: Seq<AudioHost>) -> Option<nat> {
    if forces_alsa(force) && first_host(hosts, true, false, 0) is Some {
        first_host(hosts, true, false, 0)
    } else if first_host(hosts, true, true, 0) is Some {
        first_host(hosts, true, true, 0)
    } else {
        first_host(hosts, false, true, 0)
    }
}

fn find_host(hosts: &Vec<AudioHost>, alsa: bool, needs_input: bool) -> (r: Option<usize>)
    ensures
        match r {
            Some(i) => first_host(hosts@, alsa, needs_input, 0) == Some(i as nat) && i
                < hosts.len(),
            None => first_host(hosts@, alsa, needs_input, 0) is None,
        },
{
    let mut i: usize = 0;
    while i < hosts.len()
        invariant
            i <= hosts.len(),
            first_host(hosts@, alsa, needs_input, 0) == first_host(
                hosts@,
                alsa,
                needs_input,
                i as nat,
            ),
        decreases hosts.len() - i,
    {
        let host = hosts[i];
        if host.is_alsa == alsa && host.usable && (!needs_input || host.has_input) {
            return Some(i);
        }
        i += 1;
    }
    None
}

/// Picks the audio host to listen to, given the host override of the
/// environment and the hosts of the machine.
pub fn pick_best_input_host(force: &Option<String>, hosts: &Vec<AudioHost>) -> (choice: HostChoice)
    ensures
        match choice {
            HostChoice::Listed(i) => picked_host(opt_text(*force), hosts@) == Some(i as nat) && i
                < hosts.len(),
            HostChoice::Default => picked_host(opt_text(*force), hosts@) is None,
        },
{
    let forced = match force {
        Some(name) => same_text_ignoring_ascii_case(name.as_str(), "alsa"),
        None => false,
    };
    if forced {
        if let Some(i) = find_host(hosts, true, false) {
            return HostChoice::Listed(i);
        }
    }
    if let Some(i) = find_host(hosts, true, true) {
        return HostChoice::Listed(i);
    }
    match find_host(hosts, false, true) {
        Some(i) => HostChoice::Listed(i),
        None => HostChoice::Default,
    }
}

} // verus!
