//! Settings of a measurement, shared by both ends and by the harness that starts
//! them.

use vstd::prelude::*;
use vstd::string::*;

use crate::text::{append_words, decimal, decimal_chars, join, labelled, texts, words};
use crate::transit::connection::Config;
use crate::transit::probe::Role;
use crate::transit::window::Sizing;

verus! {

/// Whether the transit window runs at all.
#[derive(Clone, Copy, Debug, PartialEq, Eq, Structural)]
pub enum Mode {
    /// Straight through the socket, no protocol.
    ///
    /// The floor for latency-without-a-window and the ceiling for throughput.
    /// Every windowed result is a trade against it.
    Raw,
    /// Through a transit window.
    Transit,
}

impl Mode {
    /// The mode as it is given on a command line.
    pub open spec fn flag(self) -> Seq<char> {
        match self {
            Mode::Raw => "raw"@,
            Mode::Transit => "transit"@,
        }
    }

    /// The mode as it is named in a log.
    pub open spec fn name(self) -> Seq<char> {
        match self {
            Mode::Raw => "Raw"@,
            Mode::Transit => "Transit"@,
        }
    }
}

/// How long to measure for, and how much of that to throw away.
#[derive(Clone, Copy, Debug, PartialEq, Eq, Structural)]
pub struct MeasurementArgs {
    /// How long the client runs, in seconds.
    pub duration: u64,
    /// Leading seconds left out of the goodput and the latency percentiles.
    ///
    /// A connection's own ramp is not what the window is being judged on, and it
    /// is slow enough to dominate a short run.
    pub ramp: u64,
}

impl MeasurementArgs {
    /// These settings as a command line.
    pub open spec fn argv(self) -> Seq<Seq<char>> {
        seq![
            "--duration"@,
            decimal_chars(self.duration as nat),
            "--ramp"@,
            decimal_chars(self.ramp as nat),
        ]
    }

    /// These settings as a command line, for the harness to hand to the processes
    /// it starts.
    pub fn to_argv(self) -> (r: Vec<String>)
        ensures
            texts(r@) == self.argv(),
    {
        let duration = decimal(self.duration);
        let ramp = decimal(self.ramp);
        let r = words(&["--duration", duration.as_str(), "--ramp", ramp.as_str()]);
        assert(texts(r@) =~= self.argv());
        r
    }
}

/// Settings both ends need to agree on to be comparable.
///
/// The knobs of the delay rule are fractions, and are kept as they were written.
#[derive(Debug)]
pub struct ProtocolArgs {
    /// Whether to run the transit window at all.
    pub mode: Mode,
    /// Window granted before anything is measured, in bytes.
    pub window: u32,
    /// Growth limit, in bytes.
    pub max_window: u32,
    /// Freed credit that triggers a re-grant, in bytes.
    pub re_grant: u32,
    /// How many re-grants to fit into a round trip, or 0 for a flat threshold on
    /// every link.
    pub re_grants_per_rtt: u32,
    /// One-way queuing delay the delay rule holds, in milliseconds.
    pub target_queue_ms: String,
    /// The same target as a fraction of the clean round trip, which takes
    /// precedence when non-zero.
    pub target_queue_rtts: String,
    /// Fraction of the window a full-scale delay error moves it by, per round
    /// trip.
    pub ledbat_gain: String,
    /// How many control intervals the delay signal's median is taken over.
    pub delay_filter: usize,
    /// How many of the last probe's durations to wait before the next one.
    pub probe_spacing: String,
    /// Pin the send buffer to this many bytes, turning the kernel's autotuning
    /// off.
    pub send_buffer: Option<usize>,
}

/// An optional number as it is named in a log.
pub open spec fn optional_chars(n: Option<usize>) -> Seq<char> {
    match n {
        Some(n) => "Some("@ + decimal_chars(n as nat) + ")"@,
        None => "None"@,
    }
}

impl ProtocolArgs {
    /// The bounds that these settings size a window within: the limit is no less
    /// than the initial window, a re-grant is never empty, and a median is taken
    /// over something.
    pub open spec fn sizing(self) -> Sizing {
        Sizing {
            initial: self.window,
            max: if self.max_window < self.window {
                self.window
            } else {
                self.max_window
            },
            re_grant: if self.re_grant < 1 {
                1
            } else {
                self.re_grant
            },
            re_grants_per_rtt: self.re_grants_per_rtt,
            delay_filter: if self.delay_filter < 1 {
                1
            } else {
                self.delay_filter
            },
        }
    }

    /// These settings as a command line.
    pub open spec fn argv(self) -> Seq<Seq<char>> {
        seq![
            "--mode"@,
            self.mode.flag(),
            "--window"@,
            decimal_chars(self.window as nat),
            "--max-window"@,
            decimal_chars(self.max_window as nat),
            "--re-grant"@,
            decimal_chars(self.re_grant as nat),
            "--re-grants-per-rtt"@,
            decimal_chars(self.re_grants_per_rtt as nat),
            "--target-queue-ms"@,
            self.target_queue_ms@,
            "--target-queue-rtts"@,
            self.target_queue_rtts@,
            "--ledbat-gain"@,
            self.ledbat_gain@,
            "--delay-filter"@,
            decimal_chars(self.delay_filter as nat),
            "--probe-spacing"@,
            self.probe_spacing@,
        ] + match self.send_buffer {
            Some(bytes) => seq!["--send-buffer"@, decimal_chars(bytes as nat)],
            None => seq![],
        }
    }

    /// The connection these settings ask for.
    pub fn config(&self, role: Role) -> (r: Config)
        ensures
            r == (Config { sizing: self.sizing(), role }),
    {
        Config {
            sizing: Sizing {
                initial: self.window,
                max: if self.max_window < self.window {
                    self.window
                } else {
                    self.max_window
                },
                re_grant: if self.re_grant < 1 {
                    1
                } else {
                    self.re_grant
                },
                re_grants_per_rtt: self.re_grants_per_rtt,
                delay_filter: if self.delay_filter < 1 {
                    1
                } else {
                    self.delay_filter
                },
            },
            role,
        }
    }

    /// One line naming every knob, so a log says what produced it.
    pub fn describe(&self) -> (r: String)
        ensures
            r@ == "mode="@ + self.mode.name() + " window="@ + decimal_chars(self.window as nat)
                + " max_window="@ + decimal_chars(self.max_window as nat) + " re_grant="@
                + decimal_chars(self.re_grant as nat) + " re_grants_per_rtt="@ + decimal_chars(
                self.re_grants_per_rtt as nat,
            ) + " target_queue_ms="@ + self.target_queue_ms@ + " target_queue_rtts="@
                + self.target_queue_rtts@ + " ledbat_gain="@ + self.ledbat_gain@
                + " delay_filter="@ + decimal_chars(self.delay_filter as nat) + " probe_spacing="@
                + self.probe_spacing@ + " send_buffer="@ + optional_chars(self.send_buffer),
    {
        let mut line = join(
            "mode=",
            match self.mode {
                Mode::Raw => "Raw",
                Mode::Transit => "Transit",
            },
        );
        line.append(" window=");
        line.append(decimal(self.window as u64).as_str());
        line.append(" max_window=");
        line.append(decimal(self.max_window as u64).as_str());
        line.append(" re_grant=");
        line.append(decimal(self.re_grant as u64).as_str());
        line.append(" re_grants_per_rtt=");
        line.append(decimal(self.re_grants_per_rtt as u64).as_str());
        line.append(" target_queue_ms=");
        line.append(self.target_queue_ms.as_str());
        line.append(" target_queue_rtts=");
        line.append(self.target_queue_rtts.as_str());
        line.append(" ledbat_gain=");
        line.append(self.ledbat_gain.as_str());
        line.append(" delay_filter=");
        line.append(decimal(self.delay_filter as u64).as_str());
        line.append(" probe_spacing=");
        line.append(self.probe_spacing.as_str());
        line.append(" send_buffer=");
        match self.send_buffer {
            Some(bytes) => {
                let mut number = labelled("Some(", bytes as u64);
                number.append(")");
                line.append(number.as_str());
            },
            None => {
                line.append("None");
            },
        }
        line
    }

    /// The same settings as a command line, for the harness to hand to the client
    /// and the server it starts.
    pub fn to_argv(&self) -> (r: Vec<String>)
        ensures
            texts(r@) == self.argv(),
    {
        let mode = match self.mode {
            Mode::Raw => "raw",
            Mode::Transit => "transit",
        };
        let window = decimal(self.window as u64);
        let max_window = decimal(self.max_window as u64);
        let re_grant = decimal(self.re_grant as u64);
        let re_grants_per_rtt = decimal(self.re_grants_per_rtt as u64);
        let delay_filter = decimal(self.delay_filter as u64);
        let mut argv = words(
            &[
                "--mode",
                mode,
                "--window",
                window.as_str(),
                "--max-window",
                max_window.as_str(),
                "--re-grant",
                re_grant.as_str(),
                "--re-grants-per-rtt",
                re_grants_per_rtt.as_str(),
                "--target-queue-ms",
                self.target_queue_ms.as_str(),
                "--target-queue-rtts",
                self.target_queue_rtts.as_str(),
                "--ledbat-gain",
                self.ledbat_gain.as_str(),
                "--delay-filter",
                delay_filter.as_str(),
                "--probe-spacing",
                self.probe_spacing.as_str(),
            ],
        );
        match self.send_buffer {
            Some(bytes) => {
                let bytes = decimal(bytes as u64);
                append_words(&mut argv, words(&["--send-buffer", bytes.as_str()]));
            },
            None => {},
        }
        assert(texts(argv@) =~= self.argv());
        argv
    }
}

} // verus!
