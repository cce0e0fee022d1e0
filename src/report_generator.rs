//! Flow aggregation and report generation.

use vstd::prelude::*;
use crate::ethernet_packet::{frame_text, EthernetPacket, FlowKey};
use crate::timestamp::{is_stamp_text, timestamp_text};
use crate::utility::{decimal, fields, padded, push_decimal, push_padded, push_str, split_fields, texts};
use crate::snooper::ConfigOptions;

verus! {

/// How captured traffic is reported.
#[derive(Debug, Clone, Copy, PartialEq, Eq, Structural)]
pub enum ReportFormat {
    /// One line per frame naming its protocols.
    Raw,
    /// A detailed dump of each frame.
    Verbose,
    /// One row per flow with its byte count and first and last timestamps.
    Report,
}

/// The flow data of one frame.
#[derive(Debug, Clone)]
pub struct ReportDataInfo {
    pub ip_src: String,
    pub ip_dst: String,
    pub port_src: u16,
    pub port_dst: u16,
    pub l4_protocol: String,
    pub upper_service: String,
    pub num_bytes: usize,
    /// Capture time, in milliseconds since the Unix epoch (UTC).
    pub timestamp_recv: i64,
}

impl ReportDataInfo {
    /// The six key fields.
    pub open spec fn key(self) -> FlowKey {
        FlowKey {
            ip_src: self.ip_src@,
            ip_dst: self.ip_dst@,
            port_src: self.port_src,
            port_dst: self.port_dst,
            l4_protocol: self.l4_protocol@,
            upper_service: self.upper_service@,
        }
    }
}

/// Report generator error, with a message.
#[derive(Debug, PartialEq, Eq)]
pub struct RGError {
    pub message: String,
}

impl RGError {
    /// An error with the message `msg`.
    pub fn new(msg: &str) -> (r: RGError)
        ensures
            r.message@ == msg@,
    {
        RGError { message: msg.to_owned() }
    }
}

/// The text of a flow key: its six fields separated by single spaces.
pub open spec fn key_text(k: FlowKey) -> Seq<char> {
    k.ip_src + seq![' '] + k.ip_dst + seq![' '] + decimal(k.port_src as nat) + seq![' '] + decimal(
        k.port_dst as nat,
    ) + seq![' '] + k.l4_protocol + seq![' '] + k.upper_service
}

/// Whether a key passes a filter: each filter token is one of the
/// whitespace-separated fields of the key. No tokens pass every key.
pub open spec fn accepts(filter: Seq<Seq<char>>, key: Seq<char>) -> bool {
    forall|i: int| 0 <= i < filter.len() ==> fields(key).contains(#[trigger] filter[i])
}

/// What the aggregator holds for one flow.
pub struct FlowRecord {
    pub key: FlowKey,
    pub num_bytes: nat,
    pub first_seen: i64,
    pub last_seen: i64,
}

/// A byte count that stops growing at the largest `usize`.
pub open spec fn saturated(n: nat) -> nat {
    if n > usize::MAX {
        usize::MAX as nat
    } else {
        n
    }
}

/// Whether no two records share a key.
pub open spec fn keys_unique(r: Seq<FlowRecord>) -> bool {
    forall|i: int, j: int|
        0 <= i < r.len() && 0 <= j < r.len() && i != j ==> r[i].key != r[j].key
}

/// The records after a frame of `bytes` bytes captured at `ts` with key
/// `key` is counted: the record of that key, if there is one, grows by the
/// bytes and takes `ts` as last seen; otherwise a new record starts with the
/// bytes and `ts` as first and last seen.
pub open spec fn upsert(recs: Seq<FlowRecord>, key: FlowKey, bytes: nat, ts: i64) -> Seq<
    FlowRecord,
> {
    if exists|i: int| 0 <= i < recs.len() && recs[i].key == key {
        let i = choose|i: int| 0 <= i < recs.len() && recs[i].key == key;
        recs.update(
            i,
            FlowRecord {
                key: recs[i].key,
                num_bytes: saturated(recs[i].num_bytes + bytes),
                first_seen: recs[i].first_seen,
                last_seen: ts,
            },
        )
    } else {
        recs.push(FlowRecord { key, num_bytes: bytes, first_seen: ts, last_seen: ts })
    }
}

/// One row of the flow report.
#[derive(Debug, Clone)]
pub struct ReportEntry {
    pub ip_src: String,
    pub ip_dst: String,
    pub port_src: u16,
    pub port_dst: u16,
    pub l4_protocol: String,
    pub upper_service: String,
    pub num_bytes: usize,
    /// When the first frame of the flow was captured (milliseconds since the epoch).
    pub timestamp_init: i64,
    /// When the last frame of the flow was captured (milliseconds since the epoch).
    pub timestamp_final: i64,
}

impl View for ReportEntry {
    type V = FlowRecord;

    open spec fn view(&self) -> FlowRecord {
        FlowRecord {
            key: FlowKey {
                ip_src: self.ip_src@,
                ip_dst: self.ip_dst@,
                port_src: self.port_src,
                port_dst: self.port_dst,
                l4_protocol: self.l4_protocol@,
                upper_service: self.upper_service@,
            },
            num_bytes: self.num_bytes as nat,
            first_seen: self.timestamp_init,
            last_seen: self.timestamp_final,
        }
    }
}

/// The records that a list of report entries holds.
pub open spec fn records_of(v: Seq<ReportEntry>) -> Seq<FlowRecord> {
    v.map_values(|e: ReportEntry| e@)
}

/// The header line of the flow report.
pub open spec fn header_text() -> Seq<char> {
    padded("IP src"@, 15) + " | "@ + padded("IP dst"@, 15) + " | "@ + padded("Port src"@, 9)
        + " | "@ + padded("Port dst"@, 9) + " | "@ + padded("L4 Protocol"@, 15) + " | "@ + padded(
        "Upper Service"@,
        15,
    ) + " | "@ + padded("Num. Bytes"@, 15) + " | "@ + padded("Initial Timestamp"@, 35) + " | "@
        + padded("Final Timestamp"@, 35) + "\n"@
}

/// The row of the flow report for record `r`, whose first and last
/// capture times read `init` and `fin`.
pub open spec fn row_text(r: FlowRecord, init: Seq<char>, fin: Seq<char>) -> Seq<char> {
    padded(r.key.ip_src, 15) + " | "@ + padded(r.key.ip_dst, 15) + " | "@ + padded(
        decimal(r.key.port_src as nat),
        9,
    ) + " | "@ + padded(decimal(r.key.port_dst as nat), 9) + " | "@ + padded(r.key.l4_protocol, 15)
        + " | "@ + padded(r.key.upper_service, 15) + " | "@ + padded(decimal(r.num_bytes), 15)
        + " | "@ + padded(init, 35) + " | "@ + padded(fin, 35)
}

/// The flow report: the header line, then one line per record, where
/// `stamps[i]` is the text of the first and last capture times of record `i`.
pub open spec fn table_text(recs: Seq<FlowRecord>, stamps: Seq<(Seq<char>, Seq<char>)>) -> Seq<
    char,
>
    decreases recs.len(),
{
    if recs.len() == 0 {
        header_text()
    } else {
        table_text(recs.drop_last(), stamps.drop_last()) + row_text(
            recs.last(),
            stamps.last().0,
            stamps.last().1,
        ) + "\n"@
    }
}

fn push_header(s: &mut String)
    ensures
        final(s)@ == old(s)@ + header_text(),
{
    push_padded(s, "IP src", 15);
    push_str(s, " | ");
    push_padded(s, "IP dst", 15);
    push_str(s, " | ");
    push_padded(s, "Port src", 9);
    push_str(s, " | ");
    push_padded(s, "Port dst", 9);
    push_str(s, " | ");
    push_padded(s, "L4 Protocol", 15);
    push_str(s, " | ");
    push_padded(s, "Upper Service", 15);
    push_str(s, " | ");
    push_padded(s, "Num. Bytes", 15);
    push_str(s, " | ");
    push_padded(s, "Initial Timestamp", 35);
    push_str(s, " | ");
    push_padded(s, "Final Timestamp", 35);
    push_str(s, "\n");
}

/// Writes the text of the key of a frame's flow data.
pub fn key_string(re_info: &ReportDataInfo) -> (r: String)
    ensures
        r@ == key_text(re_info.key()),
{
    let mut s = String::new();
    push_str(&mut s, re_info.ip_src.as_str());
    s.push(' ');
    push_str(&mut s, re_info.ip_dst.as_str());
    s.push(' ');
    push_decimal(&mut s, re_info.port_src as u64);
    s.push(' ');
    push_decimal(&mut s, re_info.port_dst as u64);
    s.push(' ');
    push_str(&mut s, re_info.l4_protocol.as_str());
    s.push(' ');
    push_str(&mut s, re_info.upper_service.as_str());
    proof {
        assert(s@ =~= key_text(re_info.key()));
    }
    s
}

impl ReportEntry {
    /// The row of the flow report for this entry, given the text of its
    /// first and last capture times.
    pub fn to_row(&self, init_text: &str, final_text: &str) -> (r: String)
        ensures
            r@ == row_text(self@, init_text@, final_text@),
    {
        let mut s = String::new();
        push_padded(&mut s, self.ip_src.as_str(), 15);
        push_str(&mut s, " | ");
        push_padded(&mut s, self.ip_dst.as_str(), 15);
        push_str(&mut s, " | ");
        let mut port_src = String::new();
        push_decimal(&mut port_src, self.port_src as u64);
        push_padded(&mut s, port_src.as_str(), 9);
        push_str(&mut s, " | ");
        let mut port_dst = String::new();
        push_decimal(&mut port_dst, self.port_dst as u64);
        push_padded(&mut s, port_dst.as_str(), 9);
        push_str(&mut s, " | ");
        push_padded(&mut s, self.l4_protocol.as_str(), 15);
        push_str(&mut s, " | ");
        push_padded(&mut s, self.upper_service.as_str(), 15);
        push_str(&mut s, " | ");
        let mut bytes = String::new();
        push_decimal(&mut bytes, self.num_bytes as u64);
        push_padded(&mut s, bytes.as_str(), 15);
        push_str(&mut s, " | ");
        push_padded(&mut s, init_text, 35);
        push_str(&mut s, " | ");
        push_padded(&mut s, final_text, 35);
        proof {
            assert(port_src@ =~= decimal(self.port_src as nat));
            assert(port_dst@ =~= decimal(self.port_dst as nat));
            assert(bytes@ =~= decimal(self.num_bytes as nat));
        }
        s
    }
}

/// What an aggregator had gathered, taken out of it for a report.
pub struct Gathered {
    pub data: String,
    pub data_format: Vec<ReportEntry>,
}

/// Aggregates frames for one report period: flow records for the flow
/// report, rendered frames for the raw and verbose reports.
pub struct InnerReportGenerator {
    /// Where the report is written.
    pub file_path: String,
    /// Seconds between reports.
    pub time_interval: u64,
    pub report_format: ReportFormat,
    /// The filter as configured.
    pub packet_filter: String,
    /// The whitespace-separated tokens of the filter.
    pub filter_tokens: Vec<String>,
    /// Rendered frames, for the raw and verbose reports.
    pub data: String,
    /// Flow records, for the flow report.
    pub data_format: Vec<ReportEntry>,
}

impl InnerReportGenerator {
    /// The flow records held.
    pub open spec fn records(&self) -> Seq<FlowRecord> {
        records_of(self.data_format@)
    }

    /// The filter tokens, as character sequences.
    pub open spec fn filter(&self) -> Seq<Seq<char>> {
        texts(self.filter_tokens@)
    }

    /// The filter tokens are those of the configured filter, and no two
    /// records share a key.
    pub open spec fn wf(&self) -> bool {
        &&& self.filter() == fields(self.packet_filter@)
        &&& keys_unique(self.records())
    }

    /// An empty aggregator for the given configuration.
    pub fn new(config_options: ConfigOptions) -> (r: Result<InnerReportGenerator, RGError>)
        ensures
            r matches Ok(g) && {
                &&& g.wf()
                &&& g.file_path@ == config_options.file_path@
                &&& g.time_interval == config_options.time_interval
                &&& g.report_format == config_options.report_format
                &&& g.packet_filter@ == config_options.packet_filter@
                &&& g.data@.len() == 0
                &&& g.data_format@.len() == 0
            },
    {
        let filter_tokens = split_fields(config_options.packet_filter.as_str());
        let g = InnerReportGenerator {
            file_path: config_options.file_path,
            time_interval: config_options.time_interval,
            report_format: config_options.report_format,
            packet_filter: config_options.packet_filter,
            filter_tokens,
            data: String::new(),
            data_format: Vec::new(),
        };
        proof {
            assert(g.records() =~= Seq::<FlowRecord>::empty());
        }
        Ok(g)
    }

    /// The text of the key of a frame's flow data.
    pub fn key_gen(&self, re_info: ReportDataInfo) -> (r: String)
        ensures
            r@ == key_text(re_info.key()),
    {
        key_string(&re_info)
    }


    /// Whether the configured filter accepts a key.
    pub fn apply_filter(&self, key: &str) -> (r: bool)
        requires
            self.wf(),
        ensures
            r == accepts(self.filter(), key@),
            self.packet_filter@.len() == 0 ==> r,
    {
        let key_fields = split_fields(key);
        let nf = self.filter_tokens.len();
        let nk = key_fields.len();
        proof {
            if self.packet_filter@.len() == 0 {
                assert(self.packet_filter@ =~= Seq::<char>::empty());
                assert(fields(self.packet_filter@).len() == 0);
            }
        }
        let mut i: usize = 0;
        while i < nf
            invariant
                nf == self.filter_tokens@.len(),
                nf == self.filter().len(),
                self.filter() == fields(self.packet_filter@),
                self.packet_filter@.len() == 0 ==> nf == 0,
                nk == key_fields@.len(),
                texts(key_fields@) == fields(key@),
                i <= nf,
                forall|m: int| 0 <= m < i ==> fields(key@).contains(#[trigger] self.filter()[m]),
            decreases nf - i,
        {
            let mut found = false;
            let mut j: usize = 0;
            while j < nk
                invariant
                    nf == self.filter_tokens@.len(),
                    nk == key_fields@.len(),
                    texts(key_fields@) == fields(key@),
                    i < nf,
                    j <= nk,
                    found <==> exists|m: int|
                        0 <= m < j && texts(key_fields@)[m] == self.filter()[i as int],
                decreases nk - j,
            {
                proof {
                    assert(texts(key_fields@)[j as int] == key_fields@[j as int]@);
                    assert(self.filter()[i as int] == self.filter_tokens@[i as int]@);
                }
                if self.filter_tokens[i] == key_fields[j] {
                    found = true;
                }
                j = j + 1;
            }
            if !found {
                proof {
                    if fields(key@).contains(self.filter()[i as int]) {
                        let m = choose|m: int|
                            0 <= m < fields(key@).len() && fields(key@)[m] == self.filter()[i as int];
                        assert(texts(key_fields@)[m] == self.filter()[i as int]);
                    }
                }
                return false;
            }
            proof {
                let m = choose|m: int|
                    0 <= m < nk && texts(key_fields@)[m] == self.filter()[i as int];
                assert(fields(key@)[m] == self.filter()[i as int]);
            }
            i = i + 1;
        }
        true
    }

    /// The position of the record with the key of `info`, if there is one.
    fn find(&self, info: &ReportDataInfo) -> (r: Option<usize>)
        ensures
            r matches Some(i) ==> i < self.data_format@.len() && self.records()[i as int].key
                == info.key(),
            r is None ==> forall|i: int|
                0 <= i < self.records().len() ==> self.records()[i].key != info.key(),
    {
        let n = self.data_format.len();
        let mut i: usize = 0;
        while i < n
            invariant
                n == self.data_format@.len(),
                i <= n,
                forall|m: int| 0 <= m < i ==> self.records()[m].key != info.key(),
            decreases n - i,
        {
            let e = &self.data_format[i];
            if e.ip_src == info.ip_src && e.ip_dst == info.ip_dst && e.port_src == info.port_src
                && e.port_dst == info.port_dst && e.l4_protocol == info.l4_protocol
                && e.upper_service == info.upper_service {
                return Some(i);
            }
            i = i + 1;
        }
        None
    }

    /// Counts a frame's flow data in the record of its key.
    fn upsert_info(&mut self, info: ReportDataInfo)
        requires
            old(self).wf(),
        ensures
            final(self).wf(),
            final(self).records() == upsert(
                old(self).records(),
                info.key(),
                info.num_bytes as nat,
                info.timestamp_recv,
            ),
            final(self).file_path == old(self).file_path,
            final(self).time_interval == old(self).time_interval,
            final(self).report_format == old(self).report_format,
            final(self).packet_filter == old(self).packet_filter,
            final(self).filter_tokens == old(self).filter_tokens,
            final(self).data == old(self).data,
    {
        let ghost recs = self.records();
        match self.find(&info) {
            Some(i) => {
                let total = self.data_format[i].num_bytes.saturating_add(info.num_bytes);
                self.data_format[i].num_bytes = total;
                self.data_format[i].timestamp_final = info.timestamp_recv;
                proof {
                    let j = choose|j: int| 0 <= j < recs.len() && recs[j].key == info.key();
                    assert(j == i);
                    assert(self.records() =~= upsert(
                        recs,
                        info.key(),
                        info.num_bytes as nat,
                        info.timestamp_recv,
                    ));
                }
            },
            None => {
                let ghost key = info.key();
                let entry = ReportEntry {
                    ip_src: info.ip_src,
                    ip_dst: info.ip_dst,
                    port_src: info.port_src,
                    port_dst: info.port_dst,
                    l4_protocol: info.l4_protocol,
                    upper_service: info.upper_service,
                    num_bytes: info.num_bytes,
                    timestamp_init: info.timestamp_recv,
                    timestamp_final: info.timestamp_recv,
                };
                self.data_format.push(entry);
                proof {
                    assert(self.records() =~= recs.push(entry@));
                    assert(entry@.key == key);
                }
            },
        }
    }

    /// Takes in one captured frame. For the flow report, a frame with a
    /// flow key that the filter accepts is counted in the record of its key;
    /// other frames change nothing. For the raw and verbose reports, the
    /// frame is rendered and appended after a separator line.
    pub fn push(&mut self, packet: &EthernetPacket)
        requires
            old(self).wf(),
        ensures
            final(self).wf(),
            final(self).file_path == old(self).file_path,
            final(self).time_interval == old(self).time_interval,
            final(self).report_format == old(self).report_format,
            final(self).packet_filter == old(self).packet_filter,
            final(self).filter_tokens == old(self).filter_tokens,
            old(self).report_format == ReportFormat::Report ==> {
                &&& final(self).data == old(self).data
                &&& final(self).records() == count_frame(old(self).records(), old(self).filter(), *packet)
            },
            old(self).report_format != ReportFormat::Report ==> {
                &&& final(self).data_format == old(self).data_format
                &&& final(self).data@ == old(self).data@ + "----------------\n"@ + frame_text(
                    *packet,
                    old(self).report_format,
                )
            },
    {
        match self.report_format {
            ReportFormat::Report => {
                match packet.report_data() {
                    Some(rg_info) => {
                        let key = key_string(&rg_info);
                        if self.apply_filter(key.as_str()) {
                            self.upsert_info(rg_info);
                        }
                    },
                    None => {},
                }
            },
            _ => {
                let dump = packet.render(self.report_format);
                push_str(&mut self.data, "----------------\n");
                push_str(&mut self.data, dump.as_str());
            },
        }
    }

    /// Takes in captured frames, one after another, as `push` does.
    pub fn push_all(&mut self, packets: &Vec<EthernetPacket>)
        requires
            old(self).wf(),
        ensures
            final(self).wf(),
            final(self).file_path == old(self).file_path,
            final(self).time_interval == old(self).time_interval,
            final(self).report_format == old(self).report_format,
            final(self).packet_filter == old(self).packet_filter,
            final(self).filter_tokens == old(self).filter_tokens,
            old(self).report_format == ReportFormat::Report ==> final(self).records()
                == count_frames(old(self).records(), old(self).filter(), packets@),
    {
        let n = packets.len();
        let mut i: usize = 0;
        while i < n
            invariant
                n == packets@.len(),
                i <= n,
                self.wf(),
                self.file_path == old(self).file_path,
                self.time_interval == old(self).time_interval,
                self.report_format == old(self).report_format,
                self.packet_filter == old(self).packet_filter,
                self.filter_tokens == old(self).filter_tokens,
                old(self).report_format == ReportFormat::Report ==> self.records() == count_frames(
                    old(self).records(),
                    old(self).filter(),
                    packets@.subrange(0, i as int),
                ),
            decreases n - i,
        {
            self.push(&packets[i]);
            proof {
                assert(packets@.subrange(0, i + 1).drop_last() =~= packets@.subrange(0, i as int));
            }
            i = i + 1;
        }
        proof {
            assert(packets@.subrange(0, n as int) =~= packets@);
        }
    }

    /// Moves all flow records out; the aggregator is left with none.
    pub fn snapshot_and_clear(&mut self) -> (r: Vec<ReportEntry>)
        requires
            old(self).wf(),
        ensures
            final(self).wf(),
            records_of(r@) == old(self).records(),
            final(self).records().len() == 0,
            final(self).data == old(self).data,
            final(self).file_path == old(self).file_path,
            final(self).time_interval == old(self).time_interval,
            final(self).report_format == old(self).report_format,
            final(self).packet_filter == old(self).packet_filter,
            final(self).filter_tokens == old(self).filter_tokens,
    {
        let mut r: Vec<ReportEntry> = Vec::new();
        core::mem::swap(&mut r, &mut self.data_format);
        proof {
            assert(self.records() =~= Seq::<FlowRecord>::empty());
        }
        r
    }

    /// The contents of the report file for what was gathered: for the flow
    /// report, the header line and one row per record, with each capture
    /// time written by chrono (or as milliseconds where chrono cannot
    /// represent it); for the raw and verbose reports, the rendered frames.
    pub fn generate_report(&self) -> (r: String)
        ensures
            self.report_format == ReportFormat::Report ==> exists|
                stamps: Seq<(Seq<char>, Seq<char>)>,
            |
                {
                    &&& stamps.len() == self.records().len()
                    &&& forall|i: int|
                        0 <= i < stamps.len() ==> is_stamp_text(
                            #[trigger] stamps[i].0,
                            self.records()[i].first_seen as int,
                        ) && is_stamp_text(stamps[i].1, self.records()[i].last_seen as int)
                    &&& r@ == table_text(self.records(), stamps)
                },
            self.report_format != ReportFormat::Report ==> r@ == self.data@,
    {
        match self.report_format {
            ReportFormat::Report => {
                let mut s = String::new();
                push_header(&mut s);
                let n = self.data_format.len();
                let ghost mut stamps: Seq<(Seq<char>, Seq<char>)> = Seq::empty();
                let mut i: usize = 0;
                while i < n
                    invariant
                        n == self.data_format@.len(),
                        i <= n,
                        stamps.len() == i,
                        forall|m: int|
                            0 <= m < i ==> is_stamp_text(
                                #[trigger] stamps[m].0,
                                self.records()[m].first_seen as int,
                            ) && is_stamp_text(stamps[m].1, self.records()[m].last_seen as int),
                        s@ == table_text(self.records().subrange(0, i as int), stamps),
                    decreases n - i,
                {
                    let e = &self.data_format[i];
                    let init = timestamp_text(e.timestamp_init);
                    let fin = timestamp_text(e.timestamp_final);
                    let row = e.to_row(init.as_str(), fin.as_str());
                    push_str(&mut s, row.as_str());
                    push_str(&mut s, "\n");
                    proof {
                        let old_stamps = stamps;
                        stamps = stamps.push((init@, fin@));
                        let p = self.records().subrange(0, i + 1);
                        assert(p.drop_last() =~= self.records().subrange(0, i as int));
                        assert(stamps.drop_last() =~= old_stamps);
                        assert(p.last() == e@);
                    }
                    i = i + 1;
                }
                proof {
                    assert(self.records().subrange(0, n as int) =~= self.records());
                }
                s
            },
            _ => self.data.clone(),
        }
    }

    /// Takes out everything gathered, leaving the aggregator empty.
    pub fn take_gathered(&mut self) -> (r: Gathered)
        requires
            old(self).wf(),
        ensures
            final(self).wf(),
            r.data == old(self).data,
            records_of(r.data_format@) == old(self).records(),
            final(self).data@.len() == 0,
            final(self).records().len() == 0,
            final(self).file_path == old(self).file_path,
            final(self).time_interval == old(self).time_interval,
            final(self).report_format == old(self).report_format,
            final(self).packet_filter == old(self).packet_filter,
            final(self).filter_tokens == old(self).filter_tokens,
    {
        let mut data = String::new();
        core::mem::swap(&mut data, &mut self.data);
        let data_format = self.snapshot_and_clear();
        Gathered { data, data_format }
    }

    /// Merges one record into those held.
    fn merge_entry(&mut self, e: ReportEntry)
        requires
            old(self).wf(),
        ensures
            final(self).wf(),
            final(self).records() == merge_record(old(self).records(), e@),
            final(self).file_path == old(self).file_path,
            final(self).time_interval == old(self).time_interval,
            final(self).report_format == old(self).report_format,
            final(self).packet_filter == old(self).packet_filter,
            final(self).filter_tokens == old(self).filter_tokens,
            final(self).data == old(self).data,
    {
        let ghost recs = self.records();
        let n = self.data_format.len();
        let mut i: usize = 0;
        while i < n
            invariant
                n == self.data_format@.len(),
                i <= n,
                self.records() == recs,
                *self == *old(self),
                self.wf(),
                keys_unique(recs),
                forall|m: int| 0 <= m < i ==> recs[m].key != e@.key,
            decreases n - i,
        {
            let c = &self.data_format[i];
            if c.ip_src == e.ip_src && c.ip_dst == e.ip_dst && c.port_src == e.port_src
                && c.port_dst == e.port_dst && c.l4_protocol == e.l4_protocol && c.upper_service
                == e.upper_service {
                proof {
                    assert(recs[i as int] == self.data_format@[i as int]@);
                    assert(recs[i as int].key == e@.key);
                }
                let total = self.data_format[i].num_bytes.saturating_add(e.num_bytes);
                self.data_format[i].num_bytes = total;
                self.data_format[i].timestamp_final = e.timestamp_final;
                proof {
                    let j = choose|j: int| 0 <= j < recs.len() && recs[j].key == e@.key;
                    assert(j == i);
                    assert(self.records() =~= merge_record(recs, e@));
                }
                return;
            }
            i = i + 1;
        }
        let ghost r = e@;
        self.data_format.push(e);
        proof {
            assert(self.records() =~= recs.push(r));
        }
    }

    /// Merges each of `entries`, in order, into the records held.
    fn merge_entries(&mut self, entries: Vec<ReportEntry>)
        requires
            old(self).wf(),
        ensures
            final(self).wf(),
            final(self).records() == merge_all(old(self).records(), records_of(entries@)),
            final(self).file_path == old(self).file_path,
            final(self).time_interval == old(self).time_interval,
            final(self).report_format == old(self).report_format,
            final(self).packet_filter == old(self).packet_filter,
            final(self).filter_tokens == old(self).filter_tokens,
            final(self).data == old(self).data,
    {
        let ghost all = records_of(entries@);
        let n = entries.len();
        let mut rest = entries;
        let mut k: usize = 0;
        while k < n
            invariant
                n == all.len(),
                k <= n,
                rest@.len() == n - k,
                forall|m: int| 0 <= m < n - k ==> #[trigger] rest@[m]@ == all[k + m],
                self.wf(),
                self.records() == merge_all(old(self).records(), all.subrange(0, k as int)),
                self.file_path == old(self).file_path,
                self.time_interval == old(self).time_interval,
                self.report_format == old(self).report_format,
                self.packet_filter == old(self).packet_filter,
                self.filter_tokens == old(self).filter_tokens,
                self.data == old(self).data,
            decreases n - k,
        {
            let ghost before = rest@;
            let e = rest.remove(0);
            proof {
                assert(e@ == all[k as int]);
                assert(all.subrange(0, k + 1).drop_last() =~= all.subrange(0, k as int));
                assert forall|m: int| 0 <= m < n - k - 1 implies #[trigger] rest@[m]@ == all[k + 1
                    + m] by {
                    assert(rest@[m] == before[m + 1]);
                }
            }
            self.merge_entry(e);
            k = k + 1;
        }
        proof {
            assert(all.subrange(0, n as int) =~= all);
        }
    }

    /// Puts back what a failed report had taken out (`earlier`), ahead of
    /// what was gathered since: the earlier records come first and the later
    /// ones merge into them; the earlier rendered frames come first.
    pub fn restore_unwritten(&mut self, earlier: Gathered)
        requires
            old(self).wf(),
        ensures
            final(self).wf(),
            final(self).records() == merge_all(
                merge_all(Seq::empty(), records_of(earlier.data_format@)),
                old(self).records(),
            ),
            final(self).data@ == earlier.data@ + old(self).data@,
            keys_unique(records_of(earlier.data_format@)) && old(self).records().len() == 0
                ==> final(self).records() == records_of(earlier.data_format@),
            final(self).file_path == old(self).file_path,
            final(self).time_interval == old(self).time_interval,
            final(self).report_format == old(self).report_format,
            final(self).packet_filter == old(self).packet_filter,
            final(self).filter_tokens == old(self).filter_tokens,
    {
        let later = self.snapshot_and_clear();
        proof {
            assert(self.records() =~= Seq::<FlowRecord>::empty());
        }
        let mut data = earlier.data;
        push_str(&mut data, self.data.as_str());
        self.data = data;
        let ghost earlier_recs = records_of(earlier.data_format@);
        self.merge_entries(earlier.data_format);
        self.merge_entries(later);
        proof {
            if keys_unique(earlier_recs) && old(self).records().len() == 0 {
                lemma_merge_distinct(earlier_recs);
                assert(records_of(later@) =~= Seq::<FlowRecord>::empty());
            }
        }
    }

    /// After the report file was written (`written`), what was gathered is
    /// dropped; after a failed write it is kept for the next report.
    pub fn clear_after_write(&mut self, written: bool)
        requires
            old(self).wf(),
        ensures
            final(self).wf(),
            written ==> final(self).records().len() == 0 && final(self).data@.len() == 0,
            !written ==> final(self).data == old(self).data && final(self).data_format == old(
                self,
            ).data_format,
            final(self).file_path == old(self).file_path,
            final(self).time_interval == old(self).time_interval,
            final(self).report_format == old(self).report_format,
            final(self).packet_filter == old(self).packet_filter,
            final(self).filter_tokens == old(self).filter_tokens,
    {
        if written {
            self.data = String::new();
            self.data_format = Vec::new();
            proof {
                assert(self.records() =~= Seq::<FlowRecord>::empty());
            }
        }
    }
}

/// The records after record `r`, gathered earlier or later than them, is
/// merged in: the record of the same key, if there is one, grows by its
/// bytes and takes its last seen; otherwise `r` is added.
pub open spec fn merge_record(recs: Seq<FlowRecord>, r: FlowRecord) -> Seq<FlowRecord> {
    if exists|i: int| 0 <= i < recs.len() && recs[i].key == r.key {
        let i = choose|i: int| 0 <= i < recs.len() && recs[i].key == r.key;
        recs.update(
            i,
            FlowRecord {
                key: recs[i].key,
                num_bytes: saturated(recs[i].num_bytes + r.num_bytes),
                first_seen: recs[i].first_seen,
                last_seen: r.last_seen,
            },
        )
    } else {
        recs.push(r)
    }
}

/// The records after merging in each of `more`, in order.
pub open spec fn merge_all(recs: Seq<FlowRecord>, more: Seq<FlowRecord>) -> Seq<FlowRecord>
    decreases more.len(),
{
    if more.len() == 0 {
        recs
    } else {
        merge_record(merge_all(recs, more.drop_last()), more.last())
    }
}

/// The records after the flow report takes in frame `f` under filter
/// `filter`: a frame with a flow key that the filter accepts is counted in
/// the record of its key; any other frame changes nothing.
pub open spec fn count_frame(recs: Seq<FlowRecord>, filter: Seq<Seq<char>>, f: EthernetPacket) -> Seq<
    FlowRecord,
> {
    match f.flow_key() {
        Some(k) => if accepts(filter, key_text(k)) {
            upsert(recs, k, f.size as nat, f.timestamp_recv)
        } else {
            recs
        },
        None => recs,
    }
}

/// The records after the flow report takes in `frames`, in order.
pub open spec fn count_frames(recs: Seq<FlowRecord>, filter: Seq<Seq<char>>, frames: Seq<
    EthernetPacket,
>) -> Seq<FlowRecord>
    decreases frames.len(),
{
    if frames.len() == 0 {
        recs
    } else {
        count_frame(count_frames(recs, filter, frames.drop_last()), filter, frames.last())
    }
}

/// Whether frame `f` is counted under filter `filter`: it has a flow key
/// and the filter accepts the key.
pub open spec fn contributes(filter: Seq<Seq<char>>, f: EthernetPacket) -> bool {
    f.flow_key() is Some && accepts(filter, key_text(f.flow_key()->0))
}

/// What a counted frame contributes: its key, its size and its capture time.
pub open spec fn contribution(f: EthernetPacket) -> (FlowKey, nat, i64) {
    (f.flow_key()->0, f.size as nat, f.timestamp_recv)
}

/// The contributions of some frames, in order.
pub open spec fn contributions(frames: Seq<EthernetPacket>) -> Seq<(FlowKey, nat, i64)> {
    frames.map_values(|f: EthernetPacket| contribution(f))
}

/// Merging records with distinct keys into none gives them back unchanged.
pub proof fn lemma_merge_distinct(recs: Seq<FlowRecord>)
    requires
        keys_unique(recs),
    ensures
        merge_all(Seq::empty(), recs) == recs,
    decreases recs.len(),
{
    if recs.len() > 0 {
        let prefix = recs.drop_last();
        assert(keys_unique(prefix));
        lemma_merge_distinct(prefix);
        assert(!exists|i: int| 0 <= i < prefix.len() && prefix[i].key == recs.last().key) by {
            if exists|i: int| 0 <= i < prefix.len() && prefix[i].key == recs.last().key {
                let i = choose|i: int| 0 <= i < prefix.len() && prefix[i].key == recs.last().key;
                assert(recs[i].key == recs[recs.len() - 1].key);
            }
        }
        assert(prefix.push(recs.last()) =~= recs);
    }
}

/// The records after counting, in order, frames that each contribute a key,
/// a byte count and a capture time, starting from `recs`.
pub open spec fn count_all(recs: Seq<FlowRecord>, frames: Seq<(FlowKey, nat, i64)>) -> Seq<
    FlowRecord,
>
    decreases frames.len(),
{
    if frames.len() == 0 {
        recs
    } else {
        upsert(
            count_all(recs, frames.drop_last()),
            frames.last().0,
            frames.last().1,
            frames.last().2,
        )
    }
}

/// The sum of the byte counts of some frames.
pub open spec fn total_bytes(frames: Seq<(FlowKey, nat, i64)>) -> nat
    decreases frames.len(),
{
    if frames.len() == 0 {
        0
    } else {
        total_bytes(frames.drop_last()) + frames.last().1
    }
}

/// The record that a single frame starts.
pub open spec fn fresh_record(f: (FlowKey, nat, i64)) -> FlowRecord {
    FlowRecord { key: f.0, num_bytes: f.1, first_seen: f.2, last_seen: f.2 }
}

/// Frames with distinct keys give one record each, in the order they came,
/// each with the frame's byte count and the frame's capture time as both
/// first and last seen.
pub proof fn lemma_distinct_keys(frames: Seq<(FlowKey, nat, i64)>)
    requires
        forall|i: int, j: int|
            0 <= i < frames.len() && 0 <= j < frames.len() && i != j ==> frames[i].0
                != frames[j].0,
    ensures
        count_all(Seq::empty(), frames).len() == frames.len(),
        forall|i: int|
            0 <= i < frames.len() ==> #[trigger] count_all(Seq::empty(), frames)[i]
                == fresh_record(frames[i]),
    decreases frames.len(),
{
    if frames.len() > 0 {
        let prefix = frames.drop_last();
        lemma_distinct_keys(prefix);
        let recs = count_all(Seq::empty(), prefix);
        assert(recs =~= prefix.map_values(|f: (FlowKey, nat, i64)| fresh_record(f)));
        assert(!exists|i: int| 0 <= i < recs.len() && recs[i].key == frames.last().0) by {
            if exists|i: int| 0 <= i < recs.len() && recs[i].key == frames.last().0 {
                let i = choose|i: int| 0 <= i < recs.len() && recs[i].key == frames.last().0;
                assert(frames[i].0 == frames[frames.len() - 1].0);
            }
        }
    }
}

/// Frames that all share one key, captured in order, give a single record
/// whose byte count is the sum of theirs (while it fits a `usize`), whose
/// first seen is the earliest capture time and whose last seen is the latest.
pub proof fn lemma_same_key(key: FlowKey, frames: Seq<(FlowKey, nat, i64)>)
    requires
        frames.len() >= 1,
        forall|i: int| 0 <= i < frames.len() ==> (#[trigger] frames[i]).0 == key,
        forall|i: int, j: int|
            0 <= i <= j < frames.len() ==> frames[i].2 <= frames[j].2,
        total_bytes(frames) <= usize::MAX,
    ensures
        count_all(Seq::empty(), frames) == seq![
            FlowRecord {
                key,
                num_bytes: total_bytes(frames),
                first_seen: frames[0].2,
                last_seen: frames.last().2,
            },
        ],
        forall|i: int|
            0 <= i < frames.len() ==> frames[0].2 <= (#[trigger] frames[i]).2 <= frames.last().2,
    decreases frames.len(),
{
    let last = frames.last();
    if frames.len() == 1 {
        assert(count_all(Seq::empty(), frames.drop_last()) =~= Seq::<FlowRecord>::empty());
        assert(total_bytes(frames.drop_last()) == 0);
        assert(count_all(Seq::empty(), frames) =~= seq![fresh_record(last)]);
    } else {
        let prefix = frames.drop_last();
        assert(prefix[0] == frames[0]);
        assert(forall|i: int| 0 <= i < prefix.len() ==> prefix[i] == frames[i]);
        lemma_same_key(key, prefix);
        let recs = count_all(Seq::empty(), prefix);
        assert(recs[0].key == last.0);
        let i = choose|i: int| 0 <= i < recs.len() && recs[i].key == last.0;
        assert(i == 0);
        assert(count_all(Seq::empty(), frames) =~= seq![
            FlowRecord {
                key,
                num_bytes: total_bytes(frames),
                first_seen: frames[0].2,
                last_seen: last.2,
            },
        ]);
    }
}

proof fn lemma_count_frames(recs: Seq<FlowRecord>, filter: Seq<Seq<char>>, frames: Seq<EthernetPacket>)
    requires
        forall|i: int| 0 <= i < frames.len() ==> contributes(filter, #[trigger] frames[i]),
    ensures
        count_frames(recs, filter, frames) == count_all(recs, contributions(frames)),
    decreases frames.len(),
{
    if frames.len() > 0 {
        let prefix = frames.drop_last();
        assert forall|i: int| 0 <= i < prefix.len() implies contributes(filter, #[trigger] prefix[i]) by {
            assert(prefix[i] == frames[i]);
        }
        lemma_count_frames(recs, filter, prefix);
        assert(contributions(frames).drop_last() =~= contributions(prefix));
        assert(frames.last() == frames[frames.len() - 1]);
    }
}

/// Pushing frames whose keys the filter accepts and that are pairwise
/// distinct gives one record per frame, in order, each with the frame's
/// size and the frame's capture time as first and last seen.
pub proof fn lemma_push_distinct_keys(filter: Seq<Seq<char>>, frames: Seq<EthernetPacket>)
    requires
        forall|i: int| 0 <= i < frames.len() ==> contributes(filter, #[trigger] frames[i]),
        forall|i: int, j: int|
            0 <= i < frames.len() && 0 <= j < frames.len() && i != j ==> frames[i].flow_key()
                != frames[j].flow_key(),
    ensures
        count_frames(Seq::empty(), filter, frames).len() == frames.len(),
        forall|i: int|
            0 <= i < frames.len() ==> #[trigger] count_frames(Seq::empty(), filter, frames)[i]
                == (FlowRecord {
                key: frames[i].flow_key()->0,
                num_bytes: frames[i].size as nat,
                first_seen: frames[i].timestamp_recv,
                last_seen: frames[i].timestamp_recv,
            }),
{
    lemma_count_frames(Seq::empty(), filter, frames);
    let c = contributions(frames);
    assert forall|i: int, j: int| 0 <= i < c.len() && 0 <= j < c.len() && i != j implies c[i].0
        != c[j].0 by {
        assert(frames[i].flow_key() is Some && frames[j].flow_key() is Some);
    }
    lemma_distinct_keys(c);
}

/// Pushing frames that all have key `key`, which the filter accepts, in
/// capture order, gives a single record: its byte count is the sum of their
/// sizes (while it fits a `usize`), its first seen the earliest capture time
/// and its last seen the latest.
pub proof fn lemma_push_same_key(filter: Seq<Seq<char>>, key: FlowKey, frames: Seq<EthernetPacket>)
    requires
        frames.len() >= 1,
        forall|i: int|
            0 <= i < frames.len() ==> (#[trigger] frames[i]).flow_key() == Some(key),
        accepts(filter, key_text(key)),
        forall|i: int, j: int|
            0 <= i <= j < frames.len() ==> frames[i].timestamp_recv <= frames[j].timestamp_recv,
        total_bytes(contributions(frames)) <= usize::MAX,
    ensures
        count_frames(Seq::empty(), filter, frames) == seq![
            FlowRecord {
                key,
                num_bytes: total_bytes(contributions(frames)),
                first_seen: frames[0].timestamp_recv,
                last_seen: frames.last().timestamp_recv,
            },
        ],
{
    assert forall|i: int| 0 <= i < frames.len() implies contributes(filter, #[trigger] frames[i]) by {
        assert(frames[i].flow_key() == Some(key));
    }
    lemma_count_frames(Seq::empty(), filter, frames);
    let c = contributions(frames);
    assert forall|i: int| 0 <= i < c.len() implies (#[trigger] c[i]).0 == key by {
        assert(frames[i].flow_key() == Some(key));
    }
    assert forall|i: int, j: int| 0 <= i <= j < c.len() implies c[i].2 <= c[j].2 by {
        assert(c[i].2 == frames[i].timestamp_recv);
        assert(c[j].2 == frames[j].timestamp_recv);
    }
    lemma_same_key(key, c);
    assert(c[0].2 == frames[0].timestamp_recv);
    assert(c.last().2 == frames.last().timestamp_recv);
}

/// An empty filter accepts every key.
pub proof fn lemma_empty_filter_accepts_all(key: Seq<char>)
    ensures
        accepts(fields(Seq::empty()), key),
{
    assert(fields(Seq::<char>::empty()).len() == 0);
}

} // verus!
