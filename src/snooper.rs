//! The operational state machine: configuration, and the start, stop,
//! resume, end and abort of an analysis.

use vstd::prelude::*;
use crate::report_generator::ReportFormat;
use crate::utility::{decimal, push_decimal, push_str};

verus! {

/// Error of the state machine, with a message.
#[derive(Debug, PartialEq, Eq)]
pub struct PSError {
    pub message: String,
}

impl PSError {
    /// An error with the message `msg`.
    pub fn new(msg: &str) -> (r: PSError)
        ensures
            r.message@ == msg@,
    {
        PSError { message: msg.to_owned() }
    }
}

/// The configuration of an analysis.
#[derive(Debug, Clone)]
pub struct ConfigOptions {
    /// The name of the interface to capture from.
    pub current_interface: String,
    /// Seconds between reports.
    pub time_interval: u64,
    /// Where reports are written.
    pub file_path: String,
    pub report_format: ReportFormat,
    /// Whitespace-separated tokens that a flow key must all hold.
    pub packet_filter: String,
}

impl ConfigOptions {
    /// A configuration with these values.
    pub fn new(
        current_interface: &str,
        time_interval: u64,
        file_path: &str,
        report_format: ReportFormat,
        packet_filter: &str,
    ) -> (r: ConfigOptions)
        ensures
            r.current_interface@ == current_interface@,
            r.time_interval == time_interval,
            r.file_path@ == file_path@,
            r.report_format == report_format,
            r.packet_filter@ == packet_filter@,
    {
        ConfigOptions {
            current_interface: current_interface.to_owned(),
            time_interval,
            file_path: file_path.to_owned(),
            report_format,
            packet_filter: packet_filter.to_owned(),
        }
    }
}

/// The stages of configuration and analysis.
#[derive(Debug, Clone, Copy, PartialEq, Eq, Structural)]
pub enum State {
    /// Choosing the interface to capture from.
    ConfigDevice,
    /// Choosing the seconds between reports.
    ConfigTimeInterval,
    /// Choosing the report file.
    ConfigFile,
    /// Choosing the report format.
    ReportFormat,
    /// Choosing the packet filter.
    PacketFilter,
    /// Configured; analysis can start.
    Ready,
    /// Capturing and reporting.
    Working,
    /// Analysis is paused.
    Stopped,
}

/// The operations of the state machine.
#[derive(Debug, Clone, Copy, PartialEq, Eq, Structural)]
pub enum Operation {
    SetDevice,
    SetTimeInterval,
    SetFilePath,
    SetReportFormat,
    SetPacketFilter,
    Start,
    Stop,
    Resume,
    End,
    Abort,
}

/// The state that operation `op` leads to from state `s`, or `None` where
/// `op` is not allowed in `s`.
pub open spec fn next_state(s: State, op: Operation) -> Option<State> {
    match op {
        Operation::SetDevice => if s == State::ConfigDevice {
            Some(State::ConfigTimeInterval)
        } else {
            None
        },
        Operation::SetTimeInterval => if s == State::ConfigTimeInterval {
            Some(State::ConfigFile)
        } else {
            None
        },
        Operation::SetFilePath => if s == State::ConfigFile {
            Some(State::ReportFormat)
        } else {
            None
        },
        Operation::SetReportFormat => if s == State::ReportFormat {
            Some(State::PacketFilter)
        } else {
            None
        },
        Operation::SetPacketFilter => if s == State::PacketFilter {
            Some(State::Ready)
        } else {
            None
        },
        Operation::Start => if s == State::Ready {
            Some(State::Working)
        } else {
            None
        },
        Operation::Stop => if s == State::Working {
            Some(State::Stopped)
        } else {
            None
        },
        Operation::Resume => if s == State::Stopped {
            Some(State::Working)
        } else {
            None
        },
        Operation::End => if s == State::Working || s == State::Stopped {
            Some(State::Ready)
        } else {
            None
        },
        Operation::Abort => Some(State::ConfigDevice),
    }
}

/// The row of the transition table for `(s, op)`, listed one by one: the
/// state it leads to.
pub open spec fn table_row(s: State, op: Operation, to: State) -> bool {
    ||| (s, op, to) == (State::ConfigDevice, Operation::SetDevice, State::ConfigTimeInterval)
    ||| (s, op, to) == (State::ConfigTimeInterval, Operation::SetTimeInterval, State::ConfigFile)
    ||| (s, op, to) == (State::ConfigFile, Operation::SetFilePath, State::ReportFormat)
    ||| (s, op, to) == (State::ReportFormat, Operation::SetReportFormat, State::PacketFilter)
    ||| (s, op, to) == (State::PacketFilter, Operation::SetPacketFilter, State::Ready)
    ||| (s, op, to) == (State::Ready, Operation::Start, State::Working)
    ||| (s, op, to) == (State::Working, Operation::Stop, State::Stopped)
    ||| (s, op, to) == (State::Stopped, Operation::Resume, State::Working)
    ||| (s, op, to) == (State::Working, Operation::End, State::Ready)
    ||| (s, op, to) == (State::Stopped, Operation::End, State::Ready)
    ||| (op, to) == (Operation::Abort, State::ConfigDevice)
}

/// An operation is allowed in a state exactly when the transition table has
/// a row for the pair, and it then leads to the state of that row.
pub proof fn lemma_transition_table(s: State, op: Operation)
    ensures
        next_state(s, op) is Some <==> exists|to: State| table_row(s, op, to),
        next_state(s, op) matches Some(to) ==> table_row(s, op, to),
        forall|to: State| table_row(s, op, to) ==> next_state(s, op) == Some(to),
{
    if next_state(s, op) is Some {
        assert(table_row(s, op, next_state(s, op)->0));
    }
}

/// The flags that the capture, consumer and timer threads watch.
#[derive(Debug, Clone, Copy, PartialEq, Eq, Structural)]
pub struct ControlBlock {
    /// Analysis is paused.
    pub pause: bool,
    /// Analysis is ending; workers exit.
    pub terminate: bool,
}

/// Which worker threads have been started and not yet joined.
#[derive(Debug, Clone, Copy, PartialEq, Eq, Structural)]
pub struct Workers {
    pub capture: bool,
    pub consumer: bool,
    pub timer: bool,
}

/// Whether a text can name a report file: it is not empty and holds no NUL.
pub open spec fn valid_path(p: Seq<char>) -> bool {
    p.len() > 0 && forall|i: int| 0 <= i < p.len() ==> p[i] != '\0'
}

/// The report format that a name selects.
pub open spec fn format_named(name: Seq<char>) -> Option<ReportFormat> {
    if name == "raw"@ {
        Some(ReportFormat::Raw)
    } else if name == "verbose"@ {
        Some(ReportFormat::Verbose)
    } else if name == "report"@ {
        Some(ReportFormat::Report)
    } else {
        None
    }
}

/// Whether `name` is one of `devices`.
pub open spec fn lists_device(devices: Seq<String>, name: Seq<char>) -> bool {
    exists|i: int| 0 <= i < devices.len() && devices[i]@ == name
}

/// Drives an analysis: the configuration, the stage it is in, the flags
/// shared with the worker threads, and which workers run.
pub struct PacketSnooper {
    pub state: State,
    pub config_options: ConfigOptions,
    pub control: ControlBlock,
    pub workers: Workers,
}

/// No worker runs.
pub open spec fn no_workers() -> Workers {
    Workers { capture: false, consumer: false, timer: false }
}

/// All three workers run.
pub open spec fn all_workers() -> Workers {
    Workers { capture: true, consumer: true, timer: true }
}

impl PacketSnooper {
    /// The flags and workers agree with the stage: while working or stopped
    /// the three workers run, terminate is clear and pause is set exactly
    /// when stopped; in every other stage no worker runs and pause is clear.
    pub open spec fn wf(&self) -> bool {
        if self.state == State::Working || self.state == State::Stopped {
            &&& !self.control.terminate
            &&& self.workers == all_workers()
            &&& self.control.pause == (self.state == State::Stopped)
        } else {
            &&& self.workers == no_workers()
            &&& !self.control.pause
        }
    }

    /// A state machine at its first stage, with interface `default_interface`,
    /// reports every 60 seconds to `output.txt` in the flow format, no filter.
    pub fn new(default_interface: &str) -> (r: PacketSnooper)
        ensures
            r.state == State::ConfigDevice,
            r.config_options.current_interface@ == default_interface@,
            r.config_options.time_interval == 60,
            r.config_options.file_path@ == "output.txt"@,
            r.config_options.report_format == ReportFormat::Report,
            r.config_options.packet_filter@.len() == 0,
            r.control == (ControlBlock { pause: false, terminate: false }),
            r.workers == no_workers(),
            r.wf(),
    {
        PacketSnooper {
            state: State::ConfigDevice,
            config_options: ConfigOptions {
                current_interface: default_interface.to_owned(),
                time_interval: 60,
                file_path: "output.txt".to_owned(),
                report_format: ReportFormat::Report,
                packet_filter: String::new(),
            },
            control: ControlBlock { pause: false, terminate: false },
            workers: Workers { capture: false, consumer: false, timer: false },
        }
    }

    /// Selects the interface `interface_name`, which must be one of the
    /// interfaces the system lists (`devices`).
    pub fn set_device(&mut self, interface_name: &str, devices: &Vec<String>) -> (r: Result<
        (),
        PSError,
    >)
        ensures
            old(self).wf() ==> final(self).wf(),
            r is Ok <==> next_state(old(self).state, Operation::SetDevice) is Some && lists_device(
                devices@,
                interface_name@,
            ),
            r is Ok ==> {
                &&& final(self).state == State::ConfigTimeInterval
                &&& final(self).config_options.current_interface@ == interface_name@
                &&& final(self).config_options.time_interval == old(self).config_options.time_interval
                &&& final(self).config_options.file_path == old(self).config_options.file_path
                &&& final(self).config_options.report_format == old(
                    self,
                ).config_options.report_format
                &&& final(self).config_options.packet_filter == old(
                    self,
                ).config_options.packet_filter
                &&& final(self).control == old(self).control
                &&& final(self).workers == old(self).workers
            },
            r matches Err(e) ==> {
                &&& *final(self) == *old(self)
                &&& e.message@ == if old(self).state != State::ConfigDevice {
                    "Invalid call on set_device when in an illegal state."@
                } else {
                    "unable to find device with the specified interface name "@
                }
            },
    {
        if self.state != State::ConfigDevice {
            return Err(PSError::new("Invalid call on set_device when in an illegal state."));
        }
        let wanted = interface_name.to_owned();
        let n = devices.len();
        let mut i: usize = 0;
        while i < n
            invariant
                n == devices@.len(),
                i <= n,
                wanted@ == interface_name@,
                *self == *old(self),
                self.state == State::ConfigDevice,
                forall|m: int| 0 <= m < i ==> devices@[m]@ != interface_name@,
            decreases n - i,
        {
            if devices[i] == wanted {
                self.config_options.current_interface = wanted;
                self.state = State::ConfigTimeInterval;
                return Ok(());
            }
            i = i + 1;
        }
        Err(PSError::new("unable to find device with the specified interface name "))
    }

    /// Sets the seconds between reports; zero is refused.
    pub fn set_time_interval(&mut self, time_interval: u64) -> (r: Result<(), PSError>)
        ensures
            old(self).wf() ==> final(self).wf(),
            r is Ok <==> next_state(old(self).state, Operation::SetTimeInterval) is Some
                && time_interval > 0,
            r is Ok ==> *final(self) == (PacketSnooper {
                state: State::ConfigFile,
                config_options: ConfigOptions { time_interval, ..old(self).config_options },
                ..*old(self)
            }),
            r matches Err(e) ==> {
                &&& *final(self) == *old(self)
                &&& e.message@ == if old(self).state != State::ConfigTimeInterval {
                    "Invalid call on set_time_interval when in an illegal state."@
                } else {
                    "Invalid time interval given as a parameter."@
                }
            },
    {
        if self.state != State::ConfigTimeInterval {
            return Err(PSError::new("Invalid call on set_time_interval when in an illegal state."));
        }
        if time_interval == 0 {
            return Err(PSError::new("Invalid time interval given as a parameter."));
        }
        self.config_options.time_interval = time_interval;
        self.state = State::ConfigFile;
        Ok(())
    }

    /// Whether a text can name a report file.
    pub fn check_valid_path(&self, file_path: &str) -> (r: bool)
        ensures
            r == valid_path(file_path@),
    {
        let n = file_path.unicode_len();
        if n == 0 {
            return false;
        }
        let mut i: usize = 0;
        while i < n
            invariant
                n == file_path@.len(),
                i <= n,
                forall|m: int| 0 <= m < i ==> file_path@[m] != '\0',
            decreases n - i,
        {
            if file_path.get_char(i) == '\0' {
                return false;
            }
            i = i + 1;
        }
        true
    }

    /// Sets the report file.
    pub fn set_file_path(&mut self, file_path: &str) -> (r: Result<(), PSError>)
        ensures
            old(self).wf() ==> final(self).wf(),
            r is Ok <==> next_state(old(self).state, Operation::SetFilePath) is Some && valid_path(
                file_path@,
            ),
            r is Ok ==> {
                &&& final(self).state == State::ReportFormat
                &&& final(self).config_options.file_path@ == file_path@
                &&& final(self).config_options.current_interface == old(
                    self,
                ).config_options.current_interface
                &&& final(self).config_options.time_interval == old(self).config_options.time_interval
                &&& final(self).config_options.report_format == old(
                    self,
                ).config_options.report_format
                &&& final(self).config_options.packet_filter == old(
                    self,
                ).config_options.packet_filter
                &&& final(self).control == old(self).control
                &&& final(self).workers == old(self).workers
            },
            r matches Err(e) ==> {
                &&& *final(self) == *old(self)
                &&& e.message@ == if old(self).state != State::ConfigFile {
                    "Invalid call on set_file_path when in an illegal state."@
                } else {
                    "Invalid file path given as a parameter."@
                }
            },
    {
        if self.state != State::ConfigFile {
            return Err(PSError::new("Invalid call on set_file_path when in an illegal state."));
        }
        if !self.check_valid_path(file_path) {
            return Err(PSError::new("Invalid file path given as a parameter."));
        }
        self.config_options.file_path = file_path.to_owned();
        self.state = State::ReportFormat;
        Ok(())
    }

    /// Sets the report format by name: `raw`, `verbose` or `report`.
    pub fn set_report_format(&mut self, report_format: &str) -> (r: Result<(), PSError>)
        ensures
            old(self).wf() ==> final(self).wf(),
            r is Ok <==> next_state(old(self).state, Operation::SetReportFormat) is Some
                && format_named(report_format@) is Some,
            r is Ok ==> *final(self) == (PacketSnooper {
                state: State::PacketFilter,
                config_options: ConfigOptions {
                    report_format: format_named(report_format@)->0,
                    ..old(self).config_options
                },
                ..*old(self)
            }),
            r matches Err(e) ==> {
                &&& *final(self) == *old(self)
                &&& e.message@ == if old(self).state != State::ReportFormat {
                    "Invalid call on set_report_format when in an illegal state."@
                } else {
                    "Invalid format name given as a parameter"@
                }
            },
    {
        if self.state != State::ReportFormat {
            return Err(PSError::new("Invalid call on set_report_format when in an illegal state."));
        }
        let name = report_format.to_owned();
        let format = if name == "raw".to_owned() {
            ReportFormat::Raw
        } else if name == "verbose".to_owned() {
            ReportFormat::Verbose
        } else if name == "report".to_owned() {
            ReportFormat::Report
        } else {
            return Err(PSError::new("Invalid format name given as a parameter"));
        };
        self.config_options.report_format = format;
        self.state = State::PacketFilter;
        Ok(())
    }

    /// Sets the packet filter: whitespace-separated ASCII tokens, possibly none.
    pub fn set_packet_filter(&mut self, packet_filter: &str) -> (r: Result<(), PSError>)
        ensures
            old(self).wf() ==> final(self).wf(),
            r is Ok <==> next_state(old(self).state, Operation::SetPacketFilter) is Some
                && packet_filter.is_ascii(),
            r is Ok ==> {
                &&& final(self).state == State::Ready
                &&& final(self).config_options.packet_filter@ == packet_filter@
                &&& final(self).config_options.current_interface == old(
                    self,
                ).config_options.current_interface
                &&& final(self).config_options.time_interval == old(self).config_options.time_interval
                &&& final(self).config_options.file_path == old(self).config_options.file_path
                &&& final(self).config_options.report_format == old(
                    self,
                ).config_options.report_format
                &&& final(self).control == old(self).control
                &&& final(self).workers == old(self).workers
            },
            r matches Err(e) ==> {
                &&& *final(self) == *old(self)
                &&& e.message@ == if old(self).state != State::PacketFilter {
                    "Invalid call on set_packet_filter when in an illegal state."@
                } else {
                    "Invalid format given as a parameter."@
                }
            },
    {
        if self.state != State::PacketFilter {
            return Err(PSError::new("Invalid call on set_packet_filter when in an illegal state."));
        }
        if !packet_filter.is_ascii() {
            return Err(PSError::new("Invalid format given as a parameter."));
        }
        self.config_options.packet_filter = packet_filter.to_owned();
        self.state = State::Ready;
        Ok(())
    }

    /// Starts analysis from `Ready`: both flags are cleared and the three
    /// workers are started. `capture_opened` tells whether the capture on the
    /// configured interface could be opened; when it could not, nothing
    /// changes and no worker starts.
    pub fn start(&mut self, capture_opened: bool) -> (r: Result<(), PSError>)
        ensures
            old(self).wf() ==> final(self).wf(),
            r is Ok <==> next_state(old(self).state, Operation::Start) is Some && capture_opened,
            r is Ok ==> *final(self) == (PacketSnooper {
                state: State::Working,
                control: ControlBlock { pause: false, terminate: false },
                workers: Workers { capture: true, consumer: true, timer: true },
                ..*old(self)
            }),
            r matches Err(e) ==> {
                &&& *final(self) == *old(self)
                &&& e.message@ == if old(self).state != State::Ready {
                    "Invalid call on start when in an illegal state."@
                } else {
                    "unable to open a capture on the selected interface"@
                }
            },
    {
        if self.state != State::Ready {
            return Err(PSError::new("Invalid call on start when in an illegal state."));
        }
        if !capture_opened {
            return Err(PSError::new("unable to open a capture on the selected interface"));
        }
        self.control = ControlBlock { pause: false, terminate: false };
        self.workers = Workers { capture: true, consumer: true, timer: true };
        self.state = State::Working;
        Ok(())
    }

    /// Pauses analysis: sets the pause flag; the workers keep running.
    pub fn stop(&mut self) -> (r: Result<(), PSError>)
        ensures
            old(self).wf() ==> final(self).wf(),
            r is Ok <==> next_state(old(self).state, Operation::Stop) is Some,
            r is Ok ==> *final(self) == (PacketSnooper {
                state: State::Stopped,
                control: ControlBlock { pause: true, ..old(self).control },
                ..*old(self)
            }),
            r is Ok && old(self).wf() ==> {
                &&& final(self).control == (ControlBlock { pause: true, terminate: false })
                &&& final(self).workers == all_workers()
            },
            r matches Err(e) ==> *final(self) == *old(self) && e.message@
                == "Invalid call on stop when in an illegal state."@,
    {
        if self.state != State::Working {
            return Err(PSError::new("Invalid call on stop when in an illegal state."));
        }
        self.control.pause = true;
        self.state = State::Stopped;
        Ok(())
    }

    /// Resumes analysis: clears the pause flag.
    pub fn resume(&mut self) -> (r: Result<(), PSError>)
        ensures
            old(self).wf() ==> final(self).wf(),
            r is Ok <==> next_state(old(self).state, Operation::Resume) is Some,
            r is Ok ==> *final(self) == (PacketSnooper {
                state: State::Working,
                control: ControlBlock { pause: false, ..old(self).control },
                ..*old(self)
            }),
            r is Ok && old(self).wf() ==> {
                &&& final(self).control == (ControlBlock { pause: false, terminate: false })
                &&& final(self).workers == all_workers()
            },
            r matches Err(e) ==> *final(self) == *old(self) && e.message@
                == "Invalid call on resume when in an illegal state."@,
    {
        if self.state != State::Stopped {
            return Err(PSError::new("Invalid call on resume when in an illegal state."));
        }
        self.control.pause = false;
        self.state = State::Working;
        Ok(())
    }

    /// Ends analysis and keeps the configuration: sets the terminate flag,
    /// clears the pause flag so that a paused worker sees it, and marks the
    /// workers joined.
    pub fn end(&mut self) -> (r: Result<(), PSError>)
        ensures
            old(self).wf() ==> final(self).wf(),
            r is Ok <==> next_state(old(self).state, Operation::End) is Some,
            r is Ok ==> *final(self) == (PacketSnooper {
                state: State::Ready,
                control: ControlBlock { pause: false, terminate: true },
                workers: no_workers(),
                ..*old(self)
            }),
            r is Ok ==> final(self).workers == no_workers() && final(self).control.terminate,
            r matches Err(e) ==> *final(self) == *old(self) && e.message@
                == "Invalid call on end when in an illegal state."@,
    {
        if self.state != State::Working && self.state != State::Stopped {
            return Err(PSError::new("Invalid call on end when in an illegal state."));
        }
        self.control = ControlBlock { pause: false, terminate: true };
        self.workers = Workers { capture: false, consumer: false, timer: false };
        self.state = State::Ready;
        Ok(())
    }

    /// Aborts from any state back to the first stage of configuration: sets
    /// the terminate flag, clears the pause flag, marks any workers joined,
    /// and drops the configuration back to the defaults of `new` (the
    /// interface name stays, as the default for the next configuration).
    pub fn abort(&mut self) -> (r: Result<(), PSError>)
        ensures
            old(self).wf() ==> final(self).wf(),
            r is Ok,
            next_state(old(self).state, Operation::Abort) == Some(State::ConfigDevice),
            final(self).state == State::ConfigDevice,
            final(self).control == (ControlBlock { pause: false, terminate: true }),
            final(self).workers == no_workers(),
            final(self).config_options.current_interface == old(self).config_options.current_interface,
            final(self).config_options.time_interval == 60,
            final(self).config_options.file_path@ == "output.txt"@,
            final(self).config_options.report_format == ReportFormat::Report,
            final(self).config_options.packet_filter@.len() == 0,
    {
        self.config_options.time_interval = 60;
        self.config_options.file_path = "output.txt".to_owned();
        self.config_options.report_format = ReportFormat::Report;
        self.config_options.packet_filter = String::new();
        self.control = ControlBlock { pause: false, terminate: true };
        self.workers = Workers { capture: false, consumer: false, timer: false };
        self.state = State::ConfigDevice;
        Ok(())
    }

    /// Runs the whole configuration in one go, from the first stage to
    /// `Ready`, stopping at the first step that fails.
    pub fn with_details(
        self,
        interface_name: &str,
        devices: &Vec<String>,
        time_interval: u64,
        file_path: &str,
        report_format: &str,
        packet_filter: &str,
    ) -> (r: Result<PacketSnooper, PSError>)
        ensures
            r is Ok <==> self.state == State::ConfigDevice && lists_device(
                devices@,
                interface_name@,
            ) && time_interval > 0 && valid_path(file_path@) && format_named(report_format@) is Some
                && packet_filter.is_ascii(),
            r matches Ok(p) ==> {
                &&& p.state == State::Ready
                &&& p.config_options.current_interface@ == interface_name@
                &&& p.config_options.time_interval == time_interval
                &&& p.config_options.file_path@ == file_path@
                &&& p.config_options.report_format == format_named(report_format@)->0
                &&& p.config_options.packet_filter@ == packet_filter@
                &&& p.control == self.control
                &&& p.workers == self.workers
                &&& self.wf() ==> p.wf()
            },
    {
        let mut p = self;
        p.set_device(interface_name, devices)?;
        p.set_time_interval(time_interval)?;
        p.set_file_path(file_path)?;
        p.set_report_format(report_format)?;
        p.set_packet_filter(packet_filter)?;
        Ok(p)
    }

    /// The summary of the snooper: interface and its address, stage, report
    /// period and report file.
    pub open spec fn description(&self, address: Seq<char>) -> Seq<char> {
        "Packet-Snooper: [interface: "@ + self.config_options.current_interface@ + " / "@ + address
            + "\nInternal State: "@ + state_name(self.state)
            + "\nTime interval before report generation : "@ + decimal(
            self.config_options.time_interval as nat,
        ) + "s\nFile path Target for report generation: \""@ + self.config_options.file_path@
            + "\""@
    }

    /// Writes the summary of the snooper, with `address` the text of the
    /// interface's first address.
    pub fn describe(&self, address: &str) -> (r: String)
        ensures
            r@ == self.description(address@),
    {
        let mut s = String::new();
        push_str(&mut s, "Packet-Snooper: [interface: ");
        push_str(&mut s, self.config_options.current_interface.as_str());
        push_str(&mut s, " / ");
        push_str(&mut s, address);
        push_str(&mut s, "\nInternal State: ");
        push_str(&mut s, state_str(self.state));
        push_str(&mut s, "\nTime interval before report generation : ");
        push_decimal(&mut s, self.config_options.time_interval);
        push_str(&mut s, "s\nFile path Target for report generation: \"");
        push_str(&mut s, self.config_options.file_path.as_str());
        push_str(&mut s, "\"");
        s
    }
}

/// The name of a stage.
pub open spec fn state_name(s: State) -> Seq<char> {
    match s {
        State::ConfigDevice => "ConfigDevice"@,
        State::ConfigTimeInterval => "ConfigTimeInterval"@,
        State::ConfigFile => "ConfigFile"@,
        State::ReportFormat => "ReportFormat"@,
        State::PacketFilter => "PacketFilter"@,
        State::Ready => "Ready"@,
        State::Working => "Working"@,
        State::Stopped => "Stopped"@,
    }
}

fn state_str(s: State) -> (r: &'static str)
    ensures
        r@ == state_name(s),
{
    match s {
        State::ConfigDevice => "ConfigDevice",
        State::ConfigTimeInterval => "ConfigTimeInterval",
        State::ConfigFile => "ConfigFile",
        State::ReportFormat => "ReportFormat",
        State::PacketFilter => "PacketFilter",
        State::Ready => "Ready",
        State::Working => "Working",
        State::Stopped => "Stopped",
    }
}

} // verus!