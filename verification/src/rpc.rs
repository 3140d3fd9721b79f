//! The remote-control protocol (one JSON request per line, one reply per
//! request) and the hardware figures that it reports.

use vstd::prelude::*;
use crate::paths::str_equal;
use crate::text::{
    digits_of, is_digit, is_white_space, lemma_digits_of, lemma_parse_decimal, parse_unsigned, parse_unsigned_spec, trim, trim_spec,
    trim_end_spec, trim_start_spec,
};

verus! {

/// What a reply carries on success.
#[derive(Debug, Clone, Copy, PartialEq, Eq, Structural)]
pub enum RpcResult {
    /// The current hardware figures.
    Stats,
    /// The acknowledgement "OK".
    Acknowledged,
}

/// A reply to one request line: a result or an error, and the request's id.
#[derive(Debug, PartialEq, Eq)]
pub struct RpcReply {
    pub result: Option<RpcResult>,
    pub error: Option<String>,
    pub id: Option<u64>,
}

/// The outcome of a request: the reply, and the zoom factor to apply, if the
/// request set one.
#[derive(Debug, PartialEq, Eq)]
pub struct RpcOutcome<P> {
    pub reply: RpcReply,
    pub set_zoom: Option<P>,
}

/// The view of an optional string.
pub open spec fn opt_chars(o: Option<String>) -> Option<Seq<char>> {
    match o {
        Some(s) => Some(s@),
        None => None,
    }
}

/// Handle a request with method `method`, numeric parameter `param` (if the
/// request had one) and id `id`.
///
/// "get_stats" is answered with the hardware figures; "set_zoom" with a
/// numeric parameter sets the zoom to it and is answered "OK", and without
/// one is answered with the error "Missing numeric param"; any other method
/// is answered with the error "Unknown method". Every reply carries the
/// request's id.
pub fn handle_request<P>(method: &str, param: Option<P>, id: Option<u64>) -> (out: RpcOutcome<P>)
    ensures
        out.reply.id == id,
        method@ == "get_stats"@ ==> out.reply.result == Some(RpcResult::Stats) && out.reply.error is None
            && out.set_zoom is None,
        method@ == "set_zoom"@ && param is Some ==> out.reply.result == Some(RpcResult::Acknowledged)
            && out.reply.error is None && out.set_zoom == param,
        method@ == "set_zoom"@ && param is None ==> out.reply.result is None
            && opt_chars(out.reply.error) == Some("Missing numeric param"@) && out.set_zoom is None,
        method@ != "get_stats"@ && method@ != "set_zoom"@ ==> out.reply.result is None
            && opt_chars(out.reply.error) == Some("Unknown method"@) && out.set_zoom is None,
{
    proof {
        reveal_strlit("get_stats");
        reveal_strlit("set_zoom");
        assert("set_zoom"@[0] != "get_stats"@[0]);
        assert("set_zoom"@ != "get_stats"@);
    }
    if str_equal(method, "get_stats") {
        RpcOutcome { reply: RpcReply { result: Some(RpcResult::Stats), error: None, id }, set_zoom: None }
    } else if str_equal(method, "set_zoom") {
        match param {
            Some(value) => RpcOutcome {
                reply: RpcReply { result: Some(RpcResult::Acknowledged), error: None, id },
                set_zoom: Some(value),
            },
            None => {
                let mut e = String::new();
                e.append("Missing numeric param");
                RpcOutcome { reply: RpcReply { result: None, error: Some(e), id }, set_zoom: None }
            },
        }
    } else {
        let mut e = String::new();
        e.append("Unknown method");
        RpcOutcome { reply: RpcReply { result: None, error: Some(e), id }, set_zoom: None }
    }
}

/// The reply to a line that is not a valid request: the error "Invalid JSON: "
/// followed by what the JSON reader reported, and no id.
pub fn invalid_json_reply(detail: &str) -> (reply: RpcReply)
    ensures
        reply.result is None,
        opt_chars(reply.error) == Some("Invalid JSON: "@ + detail@),
        reply.id is None,
{
    let mut e = String::new();
    e.append("Invalid JSON: ");
    e.append(detail);
    RpcReply { result: None, error: Some(e), id: None }
}

/// The text before the first comma of `s` and the text after it, when `s`
/// has a comma.
pub open spec fn split_at_comma(s: Seq<char>) -> Option<(Seq<char>, Seq<char>)>
    decreases s.len(),
{
    if s.len() == 0 {
        None
    } else if s[0] == ',' {
        Some((Seq::empty(), s.drop_first()))
    } else {
        match split_at_comma(s.drop_first()) {
            Some((a, b)) => Some((seq![s[0]] + a, b)),
            None => None,
        }
    }
}

/// The text of `s` up to its first comma, or all of it.
pub open spec fn first_field(s: Seq<char>) -> Seq<char> {
    match split_at_comma(s) {
        Some((a, _)) => a,
        None => s,
    }
}

/// The GPU load in percent and the video memory in MiB that a line of
/// `nvidia-smi --query-gpu=utilization.gpu,memory.used --format=csv,noheader,nounits`
/// output reports: the first two comma-separated fields, trimmed and read as
/// numbers, each 0 when it is not one; both 0 when there is no second field.
pub open spec fn gpu_query_spec(output: Seq<char>) -> (int, int) {
    match split_at_comma(output) {
        Some((f0, rest)) => (
            match parse_unsigned_spec(trim_spec(f0), u32::MAX as int) {
                Some(v) => v,
                None => 0,
            },
            match parse_unsigned_spec(trim_spec(first_field(rest)), u64::MAX as int) {
                Some(v) => v,
                None => 0,
            },
        ),
        None => (0, 0),
    }
}

proof fn lemma_split_at_comma(s: Seq<char>, i: int)
    requires
        0 <= i <= s.len(),
        forall|k: int| 0 <= k < i ==> s[k] != ',',
        i < s.len() ==> s[i] == ',',
    ensures
        i < s.len() ==> split_at_comma(s) == Some((s.subrange(0, i), s.subrange(i + 1, s.len() as int))),
        i == s.len() ==> split_at_comma(s) is None,
    decreases i,
{
    if i > 0 {
        let t = s.drop_first();
        assert forall|k: int| 0 <= k < i - 1 implies t[k] != ',' by {
            assert(t[k] == s[k + 1]);
        }
        lemma_split_at_comma(t, i - 1);
        assert(seq![s[0]] + t.subrange(0, i - 1) =~= s.subrange(0, i));
        if i < s.len() {
            assert(t.subrange(i, t.len() as int) =~= s.subrange(i + 1, s.len() as int));
        }
    } else if s.len() > 0 {
        assert(s.subrange(0, 0) =~= Seq::<char>::empty());
        assert(s.drop_first() =~= s.subrange(1, s.len() as int));
    }
}

/// The index of the first comma of `s`, or its length.
fn comma_index(s: &str) -> (i: usize)
    ensures
        i <= s@.len(),
        forall|k: int| 0 <= k < i ==> s@[k] != ',',
        i < s@.len() ==> s@[i as int] == ',',
{
    let n = s.unicode_len();
    let mut i: usize = 0;
    while i < n && s.get_char(i) != ','
        invariant
            n == s@.len(),
            i <= n,
            forall|k: int| 0 <= k < i ==> s@[k] != ',',
        decreases n - i,
    {
        i = i + 1;
    }
    i
}

/// Read the GPU load and the video memory from `nvidia-smi` output.
pub fn parse_gpu_query(output: &str) -> (r: (u32, u64))
    ensures
        r.0 as int == gpu_query_spec(output@).0,
        r.1 as int == gpu_query_spec(output@).1,
{
    let n = output.unicode_len();
    let i = comma_index(output);
    proof {
        lemma_split_at_comma(output@, i as int);
    }
    if i >= n {
        return (0, 0);
    }
    let first = output.substring_char(0, i);
    let rest = output.substring_char(i + 1, n);
    let j = comma_index(rest);
    proof {
        lemma_split_at_comma(rest@, j as int);
        if j < rest@.len() {
            assert(first_field(rest@) == rest@.subrange(0, j as int));
        } else {
            assert(rest@.subrange(0, j as int) =~= rest@);
        }
    }
    let second = rest.substring_char(0, j);
    let gpu: u32 = match parse_unsigned(trim(first), 0xffff_ffff) {
        Some(v) => v as u32,
        None => 0,
    };
    let vram: u64 = match parse_unsigned(trim(second), 0xffff_ffff_ffff_ffff) {
        Some(v) => v,
        None => 0,
    };
    (gpu, vram)
}

/// The memory a process uses in MiB, from its size in bytes (rounded down).
pub fn memory_mb(bytes: u64) -> (mb: u64)
    ensures
        mb == bytes / 1048576,
{
    bytes / 1024 / 1024
}

/// How many samples apart the GPU is queried: every fifth sample, starting
/// with the first.
pub const GPU_POLL_PERIOD: u64 = 5;

/// The GPU figures of the hardware monitor, sampled once a second, with
/// `nvidia-smi` queried only on every fifth sample.
pub struct GpuMonitor {
    samples: u64,
    gpu_usage: u32,
    vram_mb: u64,
}

/// The figures a sample leaves: on a polling sample, those read from the
/// query's output, or zero when the query could not be run; on any other
/// sample, the figures of the previous one.
pub open spec fn next_figures(samples: int, figures: (int, int), output: Option<Seq<char>>) -> (int, int) {
    if samples % (GPU_POLL_PERIOD as int) == 0 {
        match output {
            Some(o) => gpu_query_spec(o),
            None => (0, 0),
        }
    } else {
        figures
    }
}

impl GpuMonitor {
    /// The number of samples taken.
    pub closed spec fn sample_count(self) -> int {
        self.samples as int
    }

    /// The GPU load in percent and the video memory in MiB.
    pub closed spec fn figures(self) -> (int, int) {
        (self.gpu_usage as int, self.vram_mb as int)
    }

    /// A monitor that has taken no sample yet.
    pub fn new() -> (m: GpuMonitor)
        ensures
            m.sample_count() == 0,
            m.figures() == (0int, 0int),
    {
        GpuMonitor { samples: 0, gpu_usage: 0, vram_mb: 0 }
    }

    /// Whether the next sample queries the GPU.
    pub fn polls_now(&self) -> (r: bool)
        ensures
            r == (self.sample_count() % (GPU_POLL_PERIOD as int) == 0),
    {
        self.samples % GPU_POLL_PERIOD == 0
    }

    /// Take a sample: `output` is what the GPU query printed, or none when it
    /// could not be run; it is only read on a polling sample. Returns the GPU
    /// load and video memory the sample leaves.
    pub fn record(&mut self, output: Option<&str>) -> (r: (u32, u64))
        requires
            old(self).sample_count() < u64::MAX,
        ensures
            final(self).sample_count() == old(self).sample_count() + 1,
            final(self).figures() == next_figures(
                old(self).sample_count(),
                old(self).figures(),
                match output {
                    Some(o) => Some(o@),
                    None => None,
                },
            ),
            (r.0 as int, r.1 as int) == final(self).figures(),
    {
        if self.samples % GPU_POLL_PERIOD == 0 {
            let (gpu, vram) = match output {
                Some(o) => parse_gpu_query(o),
                None => (0, 0),
            };
            self.gpu_usage = gpu;
            self.vram_mb = vram;
        }
        self.samples = self.samples + 1;
        (self.gpu_usage, self.vram_mb)
    }

    /// The number of samples taken.
    pub fn samples(&self) -> (n: u64)
        ensures
            n == self.sample_count(),
    {
        self.samples
    }
}

/// The GPU is queried once in every run of five consecutive samples, and the
/// figures of a sample that does not query it are those of the sample before.
pub proof fn lemma_gpu_poll_cadence(n: int, figures: (int, int), output: Option<Seq<char>>)
    requires
        n >= 0,
    ensures
        exists|k: int| n <= k < n + 5 && #[trigger] (k % (GPU_POLL_PERIOD as int)) == 0,
        n % (GPU_POLL_PERIOD as int) != 0 ==> next_figures(n, figures, output) == figures,
{
    let k = n + (5 - n % 5) % 5;
    assert(k % 5 == 0);
}

proof fn lemma_trim_padded_digits(d: Seq<char>, lead: Seq<char>, tail: Seq<char>)
    requires
        d.len() > 0,
        forall|i: int| 0 <= i < d.len() ==> is_digit(#[trigger] d[i]),
        lead == Seq::<char>::empty() || lead == seq![' '],
        tail == Seq::<char>::empty() || tail == seq!['\n'],
    ensures
        trim_spec(lead + d + tail) == d,
{
    let s = lead + d + tail;
    let dt = d + tail;
    assert(is_digit(d[0]) && is_digit(d.last()));
    assert(!is_white_space(d[0]));
    assert(!is_white_space(d.last()));
    assert(dt[0] == d[0]);
    assert(trim_start_spec(dt) == dt);
    if lead.len() > 0 {
        assert(s.drop_first() =~= dt);
        assert(s[0] == ' ');
        assert(is_white_space(' '));
        assert(trim_start_spec(s) == trim_start_spec(s.drop_first()));
    } else {
        assert(s =~= dt);
    }
    assert(trim_start_spec(s) == dt);
    assert(trim_end_spec(d) == d);
    if tail.len() > 0 {
        assert(dt.drop_last() =~= d);
        assert(dt.last() == '\n');
        assert(is_white_space('\n'));
        assert(trim_end_spec(dt) == trim_end_spec(dt.drop_last()));
    } else {
        assert(dt =~= d);
    }
    assert(trim_end_spec(dt) == d);
}

/// A query output line of the form "<gpu>,<vram>", with or without a space
/// after the comma and a line end, reports exactly the two numbers written
/// in it, and each figure depends on its own field only.
pub proof fn lemma_gpu_query_reads_fields(gpu: u32, vram: u64, space: Seq<char>, tail: Seq<char>)
    requires
        space == Seq::<char>::empty() || space == seq![' '],
        tail == Seq::<char>::empty() || tail == seq!['\n'],
    ensures
        gpu_query_spec(digits_of(gpu as nat) + seq![','] + space + digits_of(vram as nat) + tail)
            == (gpu as int, vram as int),
{
    let a = digits_of(gpu as nat);
    let b = digits_of(vram as nat);
    lemma_digits_of(gpu as nat);
    lemma_digits_of(vram as nat);
    let rest = space + b + tail;
    let s = a + seq![','] + rest;
    assert(s =~= a + seq![','] + space + b + tail);
    assert forall|k: int| 0 <= k < a.len() implies s[k] != ',' by {
        assert(s[k] == a[k]);
        assert(is_digit(a[k]));
    }
    assert(s[a.len() as int] == ',');
    lemma_split_at_comma(s, a.len() as int);
    assert(s.subrange(0, a.len() as int) =~= a);
    assert(s.subrange(a.len() + 1int, s.len() as int) =~= rest);
    assert forall|k: int| 0 <= k < rest.len() implies rest[k] != ',' by {
        if k < space.len() {
            assert(rest[k] == ' ');
        } else if k < space.len() + b.len() {
            assert(rest[k] == b[k - space.len()]);
            assert(is_digit(b[k - space.len()]));
        } else {
            assert(rest[k] == '\n');
        }
    }
    lemma_split_at_comma(rest, rest.len() as int);
    assert(first_field(rest) == rest);
    lemma_trim_padded_digits(a, Seq::<char>::empty(), Seq::<char>::empty());
    assert(Seq::<char>::empty() + a + Seq::<char>::empty() =~= a);
    lemma_trim_padded_digits(b, space, tail);
    lemma_parse_decimal(gpu as nat, u32::MAX as int);
    lemma_parse_decimal(vram as nat, u64::MAX as int);
}

/// An output with no comma, such as an error message or an empty line,
/// reports no load and no memory.
pub proof fn lemma_gpu_query_without_comma(output: Seq<char>)
    requires
        forall|k: int| 0 <= k < output.len() ==> output[k] != ',',
    ensures
        gpu_query_spec(output) == (0int, 0int),
{
    lemma_split_at_comma(output, output.len() as int);
}

/// A polling sample with query output leaves exactly the figures read from
/// that output, whatever the figures before were; a polling sample whose
/// query could not be run leaves zeros; any other sample keeps the figures
/// before. Samples 0, 5, 10, ... poll.
pub proof fn lemma_sample_figures(n: int, before: (int, int), other: (int, int), o: Seq<char>, out: Option<Seq<char>>)
    requires
        n >= 0,
    ensures
        n % 5 == 0 ==> next_figures(n, before, Some(o)) == gpu_query_spec(o),
        n % 5 == 0 ==> next_figures(n, before, Some(o)) == next_figures(n, other, Some(o)),
        n % 5 == 0 ==> next_figures(n, before, None) == (0int, 0int),
        n % 5 != 0 ==> next_figures(n, before, out) == before,
        GPU_POLL_PERIOD == 5,
{
}

} // verus!
