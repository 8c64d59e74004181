//! Monitoring of a remote machine: the samples kept between two readings,
//! and the reading of a process table.

use vstd::prelude::*;
use std::collections::HashMap;
use crate::text::{chars_of, parse_u32, parse_u64, parsed_u32, parsed_u64, string_of};

verus! {

/// The last samples of each session: processor ticks, disk counters and
/// network counters, each under the session's identifier.
pub struct MonitorCache<Cpu, Disk, Net> {
    pub history: HashMap<String, Cpu>,
    pub disk_io: HashMap<String, Disk>,
    pub network_io: HashMap<String, Net>,
}

impl<Cpu, Disk, Net> MonitorCache<Cpu, Disk, Net> {
    /// A cache that holds no sample.
    pub fn new() -> (cache: Self)
        ensures
            cache.history@ == Map::<String, Cpu>::empty(),
            cache.disk_io@ == Map::<String, Disk>::empty(),
            cache.network_io@ == Map::<String, Net>::empty(),
    {
        MonitorCache { history: HashMap::new(), disk_io: HashMap::new(), network_io: HashMap::new() }
    }
}

/// One row of a process table.
#[derive(Clone, Debug)]
pub struct ProcessSample {
    pub pid: u32,
    pub name: String,
    /// The share of the processor, in percent, as the table writes it.
    pub cpu_usage: String,
    /// The resident memory in bytes.
    pub mem_usage: u64,
}

/// The mathematical value of a `ProcessSample`.
pub struct SampleView {
    pub pid: u32,
    pub name: Seq<char>,
    pub cpu_usage: Seq<char>,
    pub mem_usage: u64,
}

impl View for ProcessSample {
    type V = SampleView;

    open spec fn view(&self) -> SampleView {
        SampleView {
            pid: self.pid,
            name: self.name@,
            cpu_usage: self.cpu_usage@,
            mem_usage: self.mem_usage,
        }
    }
}

/// The values of the given samples.
pub open spec fn sample_views(samples: Seq<ProcessSample>) -> Seq<SampleView> {
    samples.map_values(|s: ProcessSample| s@)
}

/// `c` is white space: one of the characters with the Unicode property
/// `White_Space`.
pub open spec fn is_space(c: char) -> bool {
    ('\u{9}' <= c <= '\u{d}') || c == ' ' || c == '\u{85}' || c == '\u{a0}' || c == '\u{1680}' || (
    '\u{2000}' <= c <= '\u{200a}') || c == '\u{2028}' || c == '\u{2029}' || c == '\u{202f}' || c
        == '\u{205f}' || c == '\u{3000}'
}

/// The fields of a line: its runs of characters that are no white space.
pub open spec fn fields(line: Seq<char>) -> Seq<Seq<char>>
    decreases line.len(),
{
    if line.len() == 0 {
        Seq::empty()
    } else if is_space(line.last()) {
        fields(line.drop_last())
    } else if line.len() >= 2 && !is_space(line[line.len() - 2]) {
        let before = fields(line.drop_last());
        before.drop_last().push(before.last().push(line.last()))
    } else {
        fields(line.drop_last()).push(seq![line.last()])
    }
}

/// The lines of a text: what stands between its line feeds.
pub open spec fn lines(text: Seq<char>) -> Seq<Seq<char>>
    decreases text.len(),
{
    if text.len() == 0 {
        seq![Seq::empty()]
    } else if text.last() == '\n' {
        lines(text.drop_last()).push(Seq::empty())
    } else {
        let before = lines(text.drop_last());
        before.drop_last().push(before.last().push(text.last()))
    }
}

/// A count of kilobytes in bytes, as 64 bits hold it.
pub open spec fn kilobytes(kb: u64) -> u64 {
    ((kb * 1024) % 0x1_0000_0000_0000_0000) as u64
}

/// The sample that a line of four or more fields gives: the process
/// identifier, the name, the share of the processor and the resident
/// memory in kilobytes; a number that cannot be read counts as 0. `None`
/// for a line of fewer fields.
pub open spec fn sample_of(line: Seq<char>) -> Option<SampleView> {
    let f = fields(line);
    if f.len() < 4 {
        None
    } else {
        Some(
            SampleView {
                pid: match parsed_u32(f[0]) {
                    Some(pid) => pid,
                    None => 0,
                },
                name: f[1],
                cpu_usage: f[2],
                mem_usage: kilobytes(
                    match parsed_u64(f[3]) {
                        Some(kb) => kb,
                        None => 0,
                    },
                ),
            },
        )
    }
}

/// The samples that the given lines give, in their order.
pub open spec fn samples_of(rows: Seq<Seq<char>>) -> Seq<SampleView>
    decreases rows.len(),
{
    if rows.len() == 0 {
        Seq::empty()
    } else {
        match sample_of(rows.last()) {
            Some(sample) => samples_of(rows.drop_last()).push(sample),
            None => samples_of(rows.drop_last()),
        }
    }
}

/// The samples of a process table: those of its lines behind the first,
/// which is the heading.
pub open spec fn process_list(output: Seq<char>) -> Seq<SampleView> {
    samples_of(lines(output).skip(1))
}

/// Whether `c` is white space.
pub fn is_white_space(c: char) -> (space: bool)
    ensures
        space == is_space(c),
{
    (c >= '\u{9}' && c <= '\u{d}') || c == ' ' || c == '\u{85}' || c == '\u{a0}' || c == '\u{1680}'
        || (c >= '\u{2000}' && c <= '\u{200a}') || c == '\u{2028}' || c == '\u{2029}' || c
        == '\u{202f}' || c == '\u{205f}' || c == '\u{3000}'
}

/// The fields that are complete once `line` has been read, and the field
/// under way at its end.
spec fn fields_so_far(line: Seq<char>) -> (Seq<Seq<char>>, Seq<char>) {
    if line.len() > 0 && !is_space(line.last()) {
        (fields(line).drop_last(), fields(line).last())
    } else {
        (fields(line), Seq::empty())
    }
}

proof fn fields_end_in_a_field(line: Seq<char>)
    requires
        line.len() > 0,
        !is_space(line.last()),
    ensures
        fields(line).len() > 0,
        fields(line).last().len() > 0,
    decreases line.len(),
{
    if line.len() >= 2 && !is_space(line[line.len() - 2]) {
        assert(line.drop_last().last() == line[line.len() - 2]);
        fields_end_in_a_field(line.drop_last());
    }
}

/// The fields of a line.
pub fn split_fields(line: &Vec<char>) -> (out: Vec<Vec<char>>)
    ensures
        out@.map_values(|f: Vec<char>| f@) == fields(line@),
{
    let mut out: Vec<Vec<char>> = Vec::new();
    let mut current: Vec<char> = Vec::new();
    let mut i: usize = 0;
    assert(line@.take(0) =~= Seq::<char>::empty());
    assert(out@.map_values(|f: Vec<char>| f@) =~= Seq::<Seq<char>>::empty());
    while i < line.len()
        invariant
            i <= line.len(),
            out@.map_values(|f: Vec<char>| f@) == fields_so_far(line@.take(i as int)).0,
            current@ == fields_so_far(line@.take(i as int)).1,
            current@.len() > 0 <==> (i > 0 && !is_space(line@[i - 1])),
        decreases line.len() - i,
    {
        let c: char = line[i];
        let ghost before = line@.take(i as int);
        let ghost now = line@.take(i + 1);
        proof {
            assert(now.drop_last() =~= before);
            assert(now.last() == c);
            if i > 0 {
                assert(before.last() == line@[i - 1]);
                assert(now[now.len() - 2] == line@[i - 1]);
                if !is_space(line@[i - 1]) {
                    fields_end_in_a_field(before);
                }
            }
            if !is_space(c) {
                fields_end_in_a_field(now);
            }
        }
        if is_white_space(c) {
            if current.len() > 0 {
                proof {
                    assert(out@.push(current).map_values(|f: Vec<char>| f@) =~= out@.map_values(
                        |f: Vec<char>| f@,
                    ).push(current@));
                    assert(fields(before).drop_last().push(fields(before).last()) =~= fields(
                        before,
                    ));
                }
                out.push(current);
                current = Vec::new();
            }
        } else {
            current.push(c);
            proof {
                if i > 0 && !is_space(line@[i - 1]) {
                    let f = fields(before);
                    assert(fields(now) == f.drop_last().push(f.last().push(c)));
                    assert(fields(now).drop_last() =~= f.drop_last());
                } else {
                    assert(fields(now) == fields(before).push(seq![c]));
                    assert(fields(now).drop_last() =~= fields(before));
                    assert(current@ =~= seq![c]);
                }
            }
        }
        i += 1;
    }
    proof {
        assert(line@.take(line@.len() as int) =~= line@);
    }
    if current.len() > 0 {
        proof {
            assert(out@.push(current).map_values(|f: Vec<char>| f@) =~= out@.map_values(
                |f: Vec<char>| f@,
            ).push(current@));
            assert(fields(line@).drop_last().push(fields(line@).last()) =~= fields(line@));
        }
        out.push(current);
    }
    out
}

/// The sample that a line gives.
pub fn parse_process_line(line: &Vec<char>) -> (r: Option<ProcessSample>)
    ensures
        match sample_of(line@) {
            Some(sample) => r matches Some(s) && s@ == sample,
            None => r is None,
        },
{
    let f = split_fields(line);
    if f.len() < 4 {
        return None;
    }
    proof {
        let views = f@.map_values(|f: Vec<char>| f@);
        assert(views[0] == f@[0]@ && views[1] == f@[1]@ && views[2] == f@[2]@ && views[3]
            == f@[3]@);
    }
    let pid: u32 = match parse_u32(&f[0]) {
        Some(pid) => pid,
        None => 0,
    };
    let kb: u64 = match parse_u64(&f[3]) {
        Some(kb) => kb,
        None => 0,
    };
    let wide: u128 = (kb as u128) * 1024;
    let mem_usage: u64 = (wide % 0x1_0000_0000_0000_0000) as u64;
    Some(ProcessSample { pid, name: string_of(&f[1]), cpu_usage: string_of(&f[2]), mem_usage })
}

/// The lines between the heading and the last line.
spec fn complete_rows(all: Seq<Seq<char>>) -> Seq<Seq<char>> {
    if all.len() >= 2 {
        all.subrange(1, all.len() - 1)
    } else {
        Seq::empty()
    }
}

/// The samples of a process table: of each line behind the heading that
/// holds four fields or more, the process identifier, the name, the share
/// of the processor as written, and the resident memory in bytes.
pub fn parse_process_list(output: &str) -> (samples: Vec<ProcessSample>)
    ensures
        sample_views(samples@) == process_list(output@),
{
    let text = chars_of(output);
    let mut samples: Vec<ProcessSample> = Vec::new();
    let mut line: Vec<char> = Vec::new();
    let mut row: usize = 0;
    let mut i: usize = 0;
    assert(text@.take(0) =~= Seq::<char>::empty());
    assert(lines(text@.take(0)) =~= seq![Seq::<char>::empty()]);
    assert(sample_views(samples@) =~= Seq::<SampleView>::empty());
    while i < text.len()
        invariant
            i <= text.len(),
            text@ == output@,
            row + 1 == lines(text@.take(i as int)).len(),
            row <= i,
            line@ == lines(text@.take(i as int)).last(),
            sample_views(samples@) == samples_of(complete_rows(lines(text@.take(i as int)))),
        decreases text.len() - i,
    {
        let c: char = text[i];
        let ghost before = lines(text@.take(i as int));
        let ghost now = lines(text@.take(i + 1));
        proof {
            assert(text@.take(i + 1).drop_last() =~= text@.take(i as int));
            assert(text@.take(i + 1).last() == c);
        }
        if c == '\n' {
            proof {
                assert(now == before.push(Seq::<char>::empty()));
                assert(complete_rows(now) =~= before.skip(1));
                if row >= 1 {
                    assert(before.skip(1).drop_last() =~= complete_rows(before));
                    assert(before.skip(1).last() == before.last());
                } else {
                    assert(before.skip(1) =~= Seq::<Seq<char>>::empty());
                }
            }
            if row >= 1 {
                match parse_process_line(&line) {
                    Some(sample) => {
                        proof {
                            assert(sample_views(samples@.push(sample)) =~= sample_views(
                                samples@,
                            ).push(sample@));
                        }
                        samples.push(sample);
                    },
                    None => {},
                }
            }
            line = Vec::new();
            row += 1;
        } else {
            proof {
                assert(now == before.drop_last().push(before.last().push(c)));
                assert(complete_rows(now) =~= complete_rows(before));
            }
            line.push(c);
        }
        i += 1;
    }
    proof {
        assert(text@.take(text@.len() as int) =~= text@);
        let all = lines(text@);
        if row >= 1 {
            assert(all.skip(1).drop_last() =~= complete_rows(all));
            assert(all.skip(1).last() == all.last());
        } else {
            assert(all.skip(1) =~= Seq::<Seq<char>>::empty());
        }
    }
    if row >= 1 {
        match parse_process_line(&line) {
            Some(sample) => {
                proof {
                    assert(sample_views(samples@.push(sample)) =~= sample_views(samples@).push(
                        sample@,
                    ));
                }
                samples.push(sample);
            },
            None => {},
        }
    }
    samples
}

} // verus!
