//! Pushing of metrics to a Prometheus Pushgateway.

use vstd::prelude::*;
use vstd::string::*;
use vstd::utf8::encode_utf8;

use crate::clock::Duration;
use crate::metrics::registry::lists;
use crate::metrics::registry::Registry;
use crate::metrics::reporter::named;
use crate::metrics::task::TaskControl;
use crate::metrics::task::PUSH_SHUTDOWN_SECS;
use crate::text::ascii_lower;
use crate::text::chars_of;
use crate::text::decimal_int;
use crate::text::drop_trailing;
use crate::text::only;
use crate::text::push_decimal_i64;
use crate::text::to_lower;
use crate::text::trim_end_char;

verus! {

/// Tells whether a byte may stand in a path segment as it is.
pub open spec fn is_unreserved(b: u8) -> bool {
    ||| 65 <= b <= 90
    ||| 97 <= b <= 122
    ||| 48 <= b <= 57
    ||| b == 45
    ||| b == 95
    ||| b == 46
    ||| b == 126
}

/// The upper-case hexadecimal digit of `n`.
pub open spec fn hex_digit(n: u8) -> char {
    if n < 10 {
        (48 + n) as char
    } else {
        (55 + n) as char
    }
}

/// How a byte stands in a path segment: as it is, or as a percent sign with two
/// hexadecimal digits.
pub open spec fn encoded_byte(b: u8) -> Seq<char> {
    if is_unreserved(b) {
        seq![b as char]
    } else {
        seq!['%', hex_digit(b / 16), hex_digit(b % 16)]
    }
}

/// How bytes stand in a path segment.
pub open spec fn encoded_bytes(bytes: Seq<u8>) -> Seq<char>
    decreases bytes.len(),
{
    if bytes.len() == 0 {
        Seq::empty()
    } else {
        encoded_bytes(bytes.drop_last()) + encoded_byte(bytes.last())
    }
}

/// How a text stands in a path segment: its bytes in UTF-8, each encoded.
pub open spec fn url_encoded(s: Seq<char>) -> Seq<char> {
    encoded_bytes(encode_utf8(s))
}

/// The upper-case hexadecimal digit of `n`.
fn hex(n: u8) -> (r: char)
    requires
        n < 16,
    ensures
        r == hex_digit(n),
{
    if n < 10 {
        (48 + n) as char
    } else {
        (55 + n) as char
    }
}

/// Encodes a text for use as a path segment.
pub fn url_encode(s: &str) -> (r: String)
    ensures
        r@ == url_encoded(s@),
{
    let bytes = s.as_bytes();
    let n: usize = bytes.len();
    let mut out = String::new();
    let mut i: usize = 0;
    while i < n
        invariant
            i <= n,
            n == bytes@.len(),
            out@ == encoded_bytes(bytes@.take(i as int)),
        decreases n - i,
    {
        let b: u8 = bytes[i];
        let ghost before = out@;
        if (b >= 65 && b <= 90) || (b >= 97 && b <= 122) || (b >= 48 && b <= 57) || b == 45 || b
            == 95 || b == 46 || b == 126 {
            out.push(b as char);
        } else {
            out.push('%');
            out.push(hex(b / 16));
            out.push(hex(b % 16));
        }
        i += 1;
        proof {
            assert(out@ =~= before + encoded_byte(b));
            assert(bytes@.take(i as int).drop_last() =~= bytes@.take(i - 1));
        }
    }
    proof {
        assert(bytes@.take(n as int) =~= bytes@);
    }
    out
}

/// Tells whether a character may stand in a path segment as it is.
pub open spec fn is_unreserved_char(c: char) -> bool {
    'A' <= c <= 'Z' || 'a' <= c <= 'z' || '0' <= c <= '9' || c == '-' || c == '_' || c == '.' || c
        == '~'
}

/// Tells whether a character of an encoded text is one that a path segment may hold.
pub open spec fn is_segment_char(c: char) -> bool {
    c == '%' || is_unreserved_char(c)
}

/// An encoded text holds no character that ends, or breaks, a path segment.
pub proof fn law_encoded_text_is_one_segment(s: Seq<char>)
    ensures
        forall|i: int| 0 <= i < url_encoded(s).len() ==> is_segment_char(#[trigger] url_encoded(s)[i]),
{
    lemma_encoded_bytes_are_safe(encode_utf8(s));
}

proof fn lemma_encoded_bytes_are_safe(bytes: Seq<u8>)
    ensures
        forall|i: int|
            0 <= i < encoded_bytes(bytes).len() ==> is_segment_char(
                #[trigger] encoded_bytes(bytes)[i],
            ),
    decreases bytes.len(),
{
    if bytes.len() > 0 {
        lemma_encoded_bytes_are_safe(bytes.drop_last());
        let front = encoded_bytes(bytes.drop_last());
        let b = bytes.last();
        assert forall|i: int| 0 <= i < encoded_bytes(bytes).len() implies is_segment_char(
            #[trigger] encoded_bytes(bytes)[i],
        ) by {
            if i < front.len() {
                assert(encoded_bytes(bytes)[i] == front[i]);
            } else {
                assert(encoded_bytes(bytes)[i] == encoded_byte(b)[i - front.len()]);
            }
        }
    }
}

/// A text of letters, digits, and the marks `-`, `_`, `.` and `~` is encoded as itself.
pub proof fn law_unreserved_text_is_kept(s: Seq<char>)
    requires
        forall|i: int| 0 <= i < s.len() ==> is_unreserved_char(#[trigger] s[i]),
    ensures
        url_encoded(s) == s,
{
    assert(vstd::utf8::is_ascii_chars(s));
    vstd::utf8::is_ascii_chars_encode_utf8(s);
    lemma_unreserved_bytes(encode_utf8(s), s);
}

proof fn lemma_unreserved_bytes(bytes: Seq<u8>, s: Seq<char>)
    requires
        bytes.len() == s.len(),
        forall|i: int|
            0 <= i < s.len() ==> is_unreserved_char(#[trigger] s[i]) && bytes[i] == s[i] as u8,
    ensures
        encoded_bytes(bytes) == s,
    decreases s.len(),
{
    if s.len() > 0 {
        lemma_unreserved_bytes(bytes.drop_last(), s.drop_last());
        assert(bytes.last() as char == s.last());
        assert(encoded_bytes(bytes) =~= s);
    } else {
        assert(s =~= Seq::<char>::empty());
    }
}

/// Where, and how often, metrics are pushed.
#[derive(Debug, Clone)]
pub struct PushgatewayConfig {
    /// Address of the gateway.
    pub endpoint: String,
    /// Job under which the metrics are pushed.
    pub job: String,
    /// Instance under which the metrics are pushed.
    pub instance: Option<String>,
    /// Time between two pushes.
    pub push_interval: Duration,
    /// Further labels, with their values.
    pub extra_labels: Vec<(String, String)>,
}

impl Default for PushgatewayConfig {
    fn default() -> (r: Self)
        ensures
            r.endpoint@ == "http://127.0.0.1:9091"@,
            r.job@ == "goosefs_client"@,
            r.instance is None,
            r.push_interval == Duration::secs(10),
            r.extra_labels@.len() == 0,
    {
        PushgatewayConfig {
            endpoint: "http://127.0.0.1:9091".to_owned(),
            job: "goosefs_client".to_owned(),
            instance: None,
            push_interval: Duration::from_secs(10),
            extra_labels: Vec::new(),
        }
    }
}

/// The part of the address that gives the labels from the first on.
pub open spec fn labels_path(labels: Seq<(String, String)>) -> Seq<char>
    decreases labels.len(),
{
    if labels.len() == 0 {
        Seq::empty()
    } else {
        labels_path(labels.drop_last()) + seq!['/'] + url_encoded(labels.last().0@) + seq!['/']
            + url_encoded(labels.last().1@)
    }
}

impl PushgatewayConfig {
    /// A configuration for the given gateway and job.
    pub fn new(endpoint: &str, job: &str) -> (r: Self)
        ensures
            r.endpoint@ == endpoint@,
            r.job@ == job@,
            r.instance is None,
            r.push_interval == Duration::secs(10),
            r.extra_labels@.len() == 0,
    {
        let mut r = PushgatewayConfig::default();
        r.endpoint = endpoint.to_owned();
        r.job = job.to_owned();
        r
    }

    /// The configuration with the instance set.
    pub fn with_instance(self, instance: &str) -> (r: Self)
        ensures
            r.instance matches Some(s) && s@ == instance@,
            r == (PushgatewayConfig { instance: r.instance, ..self }),
    {
        let mut r = self;
        r.instance = Some(instance.to_owned());
        r
    }

    /// The configuration with the time between pushes set.
    pub fn with_push_interval(self, interval: Duration) -> (r: Self)
        ensures
            r == (PushgatewayConfig { push_interval: interval, ..self }),
    {
        let mut r = self;
        r.push_interval = interval;
        r
    }

    /// The configuration with one more label.
    pub fn with_label(self, key: &str, value: &str) -> (r: Self)
        ensures
            r.extra_labels@.len() == self.extra_labels@.len() + 1,
            r.extra_labels@.drop_last() == self.extra_labels@,
            r.extra_labels@.last().0@ == key@,
            r.extra_labels@.last().1@ == value@,
            r == (PushgatewayConfig { extra_labels: r.extra_labels, ..self }),
    {
        let mut r = self;
        r.extra_labels.push((key.to_owned(), value.to_owned()));
        assert(r.extra_labels@.drop_last() =~= self.extra_labels@);
        r
    }

    /// The address that metrics are pushed to.
    pub open spec fn url(&self) -> Seq<char> {
        drop_trailing(self.endpoint@, only('/')) + "/metrics/job/"@ + url_encoded(self.job@) + (
        match self.instance {
            Some(i) => "/instance/"@ + url_encoded(i@),
            None => Seq::empty(),
        }) + labels_path(self.extra_labels@)
    }

    /// The address that metrics are pushed to: the gateway, the job, the instance if
    /// there is one, and each label with its value.
    pub fn push_url(&self) -> (r: String)
        ensures
            r@ == self.url(),
    {
        let mut out = trim_end_char(&self.endpoint, '/').to_owned();
        out.append("/metrics/job/");
        out.append(&url_encode(&self.job));
        let ghost job_end = out@;
        match &self.instance {
            Some(instance) => {
                out.append("/instance/");
                out.append(&url_encode(instance));
            },
            None => {},
        }
        proof {
            assert(out@ =~= job_end + (match self.instance {
                Some(i) => "/instance/"@ + url_encoded(i@),
                None => Seq::empty(),
            }));
        }
        let ghost start = out@;
        let n: usize = self.extra_labels.len();
        let mut i: usize = 0;
        proof {
            assert(start + labels_path(self.extra_labels@.take(0)) =~= start);
        }
        while i < n
            invariant
                i <= n,
                n == self.extra_labels@.len(),
                out@ == start + labels_path(self.extra_labels@.take(i as int)),
            decreases n - i,
        {
            let ghost before = out@;
            out.push('/');
            out.append(&url_encode(&self.extra_labels[i].0));
            out.push('/');
            out.append(&url_encode(&self.extra_labels[i].1));
            i += 1;
            proof {
                let labels = self.extra_labels@.take(i as int);
                assert(labels.drop_last() =~= self.extra_labels@.take(i - 1));
                assert(out@ =~= start + labels_path(labels));
            }
        }
        proof {
            assert(self.extra_labels@.take(n as int) =~= self.extra_labels@);
        }
        out
    }
}

/// Tells whether the character is an upper-case letter.
pub open spec fn is_upper(c: char) -> bool {
    'A' <= c <= 'Z'
}

/// Tells whether the character may stand in a metric's name as it is.
pub open spec fn is_plain(c: char) -> bool {
    'a' <= c <= 'z' || '0' <= c <= '9' || c == '_' || c == ':'
}

/// What the character at `i` of a name turns into: an upper-case letter into a
/// lower-case one, after an underscore where a word starts within a part of the
/// name, and any character that no name may hold into an underscore.
pub open spec fn sanitized_at(name: Seq<char>, i: int) -> Seq<char> {
    let c = name[i];
    if is_upper(c) {
        if i > 0 && !is_upper(name[i - 1]) && name[i - 1] != '.' {
            seq!['_', ascii_lower(c)]
        } else {
            seq![ascii_lower(c)]
        }
    } else if is_plain(c) {
        seq![c]
    } else {
        seq!['_']
    }
}

/// What the first `n` characters of a name turn into.
pub open spec fn sanitized_upto(name: Seq<char>, n: int) -> Seq<char>
    decreases n,
{
    if n <= 0 {
        Seq::empty()
    } else {
        sanitized_upto(name, n - 1) + sanitized_at(name, n - 1)
    }
}

/// The Prometheus name of a metric.
pub open spec fn prometheus_name(name: Seq<char>) -> Seq<char> {
    "goosefs_"@ + sanitized_upto(name, name.len() as int)
}

/// The Prometheus name of a metric: the words of the name in lower case, with
/// underscores between them, after `goosefs_`.
pub fn sanitize_metric_name(name: &str) -> (r: String)
    ensures
        r@ == prometheus_name(name@),
{
    let chars = chars_of(name);
    let n: usize = chars.len();
    let mut out = "goosefs_".to_owned();
    let mut i: usize = 0;
    proof {
        assert("goosefs_"@ + sanitized_upto(name@, 0) =~= "goosefs_"@);
    }
    while i < n
        invariant
            i <= n,
            n == chars.len(),
            chars@ == name@,
            out@ == "goosefs_"@ + sanitized_upto(name@, i as int),
        decreases n - i,
    {
        let c: char = chars[i];
        let ghost before = out@;
        if 'A' <= c && c <= 'Z' {
            if i > 0 {
                let p: char = chars[i - 1];
                if !('A' <= p && p <= 'Z') && p != '.' {
                    out.push('_');
                }
            }
            out.push(to_lower(c));
        } else if ('a' <= c && c <= 'z') || ('0' <= c && c <= '9') || c == '_' || c == ':' {
            out.push(c);
        } else {
            out.push('_');
        }
        i += 1;
        proof {
            assert(out@ =~= before + sanitized_at(name@, i - 1));
            assert(out@ =~= "goosefs_"@ + sanitized_upto(name@, i as int));
        }
    }
    out
}

/// Tells whether a Prometheus name may hold the character.
pub open spec fn is_name_char(c: char) -> bool {
    'a' <= c <= 'z' || 'A' <= c <= 'Z' || '0' <= c <= '9' || c == '_' || c == ':'
}

/// Whatever the name of a metric, its Prometheus name is valid: it starts with a
/// letter, and holds letters, digits, underscores and colons alone.
pub proof fn law_prometheus_name_is_valid(name: Seq<char>)
    ensures
        prometheus_name(name).len() > 0,
        prometheus_name(name)[0] == 'g',
        forall|i: int|
            0 <= i < prometheus_name(name).len() ==> is_name_char(#[trigger] prometheus_name(name)[i]),
{
    reveal_strlit("goosefs_");
    lemma_sanitized_is_valid(name, name.len() as int);
    let rest = sanitized_upto(name, name.len() as int);
    assert forall|i: int| 0 <= i < prometheus_name(name).len() implies is_name_char(
        #[trigger] prometheus_name(name)[i],
    ) by {
        if i >= 8 {
            assert(prometheus_name(name)[i] == rest[i - 8]);
        }
    }
}

proof fn lemma_sanitized_is_valid(name: Seq<char>, n: int)
    requires
        n <= name.len(),
    ensures
        forall|i: int|
            0 <= i < sanitized_upto(name, n).len() ==> is_name_char(
                #[trigger] sanitized_upto(name, n)[i],
            ),
    decreases n,
{
    if n > 0 {
        lemma_sanitized_is_valid(name, n - 1);
        let front = sanitized_upto(name, n - 1);
        let piece = sanitized_at(name, n - 1);
        assert forall|i: int| 0 <= i < sanitized_upto(name, n).len() implies is_name_char(
            #[trigger] sanitized_upto(name, n)[i],
        ) by {
            if i < front.len() {
                assert(sanitized_upto(name, n)[i] == front[i]);
            } else {
                assert(sanitized_upto(name, n)[i] == piece[i - front.len()]);
            }
        }
    }
}

/// What is said of one metric: a line of help, a line with its type, and a line
/// with its value.
pub open spec fn metric_text(name: Seq<char>, value: i64, kind: Seq<char>) -> Seq<char> {
    "# HELP "@ + prometheus_name(name) + " GooseFS client "@ + kind + ": "@ + name + "\n# TYPE "@
        + prometheus_name(name) + " "@ + kind + "\n"@ + prometheus_name(name) + " "@ + decimal_int(
        value as int,
    ) + "\n"@
}

/// What is said of each metric of a list, in order.
pub open spec fn metrics_text(list: Seq<(Seq<char>, i64)>, kind: Seq<char>) -> Seq<char>
    decreases list.len(),
{
    if list.len() == 0 {
        Seq::empty()
    } else {
        metrics_text(list.drop_last(), kind) + metric_text(list.last().0, list.last().1, kind)
    }
}

/// The text of a list of counters and a list of gauges.
pub open spec fn exposition(
    counters: Seq<(Seq<char>, i64)>,
    gauges: Seq<(Seq<char>, i64)>,
) -> Seq<char> {
    metrics_text(counters, "counter"@) + metrics_text(gauges, "gauge"@)
}

/// Tells whether `text` is what is said when the counters and the gauges are walked
/// in some order.
pub open spec fn is_exposition(
    text: Seq<char>,
    counters: Map<Seq<char>, i64>,
    gauges: Map<Seq<char>, i64>,
) -> bool {
    exists|cs: Seq<(String, i64)>, gs: Seq<(String, i64)>| #[trigger]
        walk_says(cs, gs, text, counters, gauges)
}

/// Tells whether a walk in the order of `cs` and `gs` gives `text`.
pub open spec fn walk_says(
    cs: Seq<(String, i64)>,
    gs: Seq<(String, i64)>,
    text: Seq<char>,
    counters: Map<Seq<char>, i64>,
    gauges: Map<Seq<char>, i64>,
) -> bool {
    &&& lists(cs, counters)
    &&& lists(gs, gauges)
    &&& text == exposition(named(cs), named(gs))
}

/// Appends what is said of one metric.
fn push_metric(out: &mut String, name: &String, value: i64, kind: &str)
    ensures
        final(out)@ == old(out)@ + metric_text(name@, value, kind@),
{
    let ghost before = out@;
    let prom = sanitize_metric_name(name);
    out.append("# HELP ");
    out.append(&prom);
    out.append(" GooseFS client ");
    out.append(kind);
    out.append(": ");
    out.append(name);
    out.append("\n# TYPE ");
    out.append(&prom);
    out.append(" ");
    out.append(kind);
    out.append("\n");
    out.append(&prom);
    out.append(" ");
    push_decimal_i64(out, value);
    out.append("\n");
    assert(out@ =~= before + metric_text(name@, value, kind@));
}

/// Appends what is said of each metric of a list.
fn push_metrics(out: &mut String, list: &Vec<(String, i64)>, kind: &str)
    ensures
        final(out)@ == old(out)@ + metrics_text(named(list@), kind@),
{
    let ghost before = out@;
    let n: usize = list.len();
    let mut i: usize = 0;
    proof {
        assert(before + metrics_text(named(list@.take(0)), kind@) =~= before);
    }
    while i < n
        invariant
            i <= n,
            n == list@.len(),
            out@ == before + metrics_text(named(list@.take(i as int)), kind@),
        decreases n - i,
    {
        push_metric(out, &list[i].0, list[i].1, kind);
        i += 1;
        proof {
            let part = named(list@.take(i as int));
            assert(part.drop_last() =~= named(list@.take(i - 1)));
            assert(part.last() == (list@[i - 1].0@, list@[i - 1].1));
            assert(out@ =~= before + metrics_text(part, kind@));
        }
    }
    proof {
        assert(list@.take(n as int) =~= list@);
    }
}

/// The text of a list of counters, each at its sum so far, and a list of gauges.
pub fn text_of_metrics(counters: &Vec<(String, i64)>, gauges: &Vec<(String, i64)>) -> (r: String)
    ensures
        r@ == exposition(named(counters@), named(gauges@)),
{
    let mut out = String::new();
    push_metrics(&mut out, counters, "counter");
    push_metrics(&mut out, gauges, "gauge");
    assert(out@ =~= exposition(named(counters@), named(gauges@)));
    out
}

/// The text of every counter and gauge of the registry, in the format that the
/// gateway reads.
pub fn collect_metrics_text(registry: &Registry) -> (r: String)
    requires
        registry.wf(),
    ensures
        is_exposition(r@, registry.counters(), registry.gauges()),
{
    let counters = registry.counter_values();
    let gauges = registry.gauge_values();
    let r = text_of_metrics(&counters, &gauges);
    assert(walk_says(counters@, gauges@, r@, registry.counters(), registry.gauges()));
    r
}

/// There is text to push exactly if there is a counter or a gauge, and the text then
/// ends with a newline.
pub proof fn law_text_ends_with_newline(
    text: Seq<char>,
    counters: Map<Seq<char>, i64>,
    gauges: Map<Seq<char>, i64>,
)
    requires
        is_exposition(text, counters, gauges),
    ensures
        text.len() == 0 <==> counters.dom().is_empty() && gauges.dom().is_empty(),
        text.len() > 0 ==> text.last() == '\n',
{
    let (cs, gs) = choose|cs: Seq<(String, i64)>, gs: Seq<(String, i64)>| #[trigger]
        walk_says(cs, gs, text, counters, gauges);
    lemma_list_text(named(cs), "counter"@);
    lemma_list_text(named(gs), "gauge"@);
    lemma_list_len(cs, counters);
    lemma_list_len(gs, gauges);
    if gs.len() > 0 {
        assert(text.last() == metrics_text(named(gs), "gauge"@).last());
    } else {
        assert(text =~= metrics_text(named(cs), "counter"@));
    }
}

proof fn lemma_list_len(list: Seq<(String, i64)>, entries: Map<Seq<char>, i64>)
    requires
        lists(list, entries),
    ensures
        list.len() == 0 <==> entries.dom().is_empty(),
{
    if list.len() > 0 {
        assert(entries.dom().contains(list[0].0@));
    } else {
        assert forall|name: Seq<char>| !entries.dom().contains(name) by {
            if entries.dom().contains(name) {
                let i = choose|i: int| 0 <= i < list.len() && (#[trigger] list[i]).0@ == name;
            }
        }
        assert(entries.dom() =~= Set::empty());
    }
}

proof fn lemma_list_text(list: Seq<(Seq<char>, i64)>, kind: Seq<char>)
    ensures
        metrics_text(list, kind).len() == 0 <==> list.len() == 0,
        list.len() > 0 ==> metrics_text(list, kind).last() == '\n',
{
    if list.len() > 0 {
        reveal_strlit("\n");
        let piece = metric_text(list.last().0, list.last().1, kind);
        assert(piece.len() > 0);
        assert(piece.last() == '\n');
        assert(metrics_text(list, kind).last() == piece.last());
    }
}

/// What is posted to the gateway.
#[derive(Debug)]
pub struct PushRequest {
    /// Address.
    pub url: String,
    /// Format of the body.
    pub content_type: &'static str,
    /// The metrics as text.
    pub body: String,
}

/// The format of the text that is pushed.
pub const TEXT_FORMAT: &'static str = "text/plain; version=0.0.4";

/// What is posted when the text of the metrics is `body`: nothing, if it is empty.
pub fn push_request(url: &str, body: String) -> (r: Option<PushRequest>)
    ensures
        body@.len() == 0 <==> r is None,
        r matches Some(p) ==> p.url@ == url@ && p.content_type@ == TEXT_FORMAT@ && p.body@
            == body@,
{
    if body.as_str().is_empty() {
        None
    } else {
        Some(PushRequest { url: url.to_owned(), content_type: TEXT_FORMAT, body })
    }
}

/// How a push has ended.
#[derive(Debug, Clone, Copy, PartialEq, Eq, Structural)]
pub enum PushOutcome {
    /// The gateway has taken the metrics.
    Pushed,
    /// The gateway has refused them.
    Refused,
    /// The gateway could not be reached.
    Failed,
}

/// How a push has ended, given the status of the answer, if there was one.
pub fn push_outcome(status: Option<u16>) -> (r: PushOutcome)
    ensures
        r == (match status {
            None => PushOutcome::Failed,
            Some(s) => if 200 <= s < 300 {
                PushOutcome::Pushed
            } else {
                PushOutcome::Refused
            },
        }),
{
    match status {
        None => PushOutcome::Failed,
        Some(s) => if 200 <= s && s < 300 {
            PushOutcome::Pushed
        } else {
            PushOutcome::Refused
        },
    }
}

/// The task that pushes metrics.
#[derive(Debug)]
pub struct PushgatewayTask {
    /// The address that metrics are pushed to.
    pub push_url: String,
    /// Time between two pushes.
    pub interval: Duration,
    /// What the owner knows of the task.
    pub control: TaskControl,
}

impl PushgatewayTask {
    /// A task with the given configuration.
    pub fn new(config: &PushgatewayConfig) -> (r: Self)
        ensures
            r.push_url@ == config.url(),
            r.interval == config.push_interval,
            r.control == (TaskControl {
                closed: false,
                joinable: true,
                shutdown_secs: PUSH_SHUTDOWN_SECS,
            }),
    {
        PushgatewayTask {
            push_url: config.push_url(),
            interval: config.push_interval,
            control: TaskControl::new(PUSH_SHUTDOWN_SECS),
        }
    }

    /// What is posted next: every metric of the registry, or nothing if it has none.
    pub fn next_push(&self, registry: &Registry) -> (r: Option<PushRequest>)
        requires
            registry.wf(),
        ensures
            r is None <==> registry.counters().dom().is_empty()
                && registry.gauges().dom().is_empty(),
            r matches Some(p) ==> p.url@ == self.push_url@ && p.content_type@ == TEXT_FORMAT@
                && is_exposition(p.body@, registry.counters(), registry.gauges()),
    {
        let body = collect_metrics_text(registry);
        proof {
            law_text_ends_with_newline(body@, registry.counters(), registry.gauges());
        }
        push_request(&self.push_url, body)
    }

    /// Closes the task; see [`TaskControl::shutdown`].
    pub fn shutdown(&mut self) -> (r: Option<Duration>)
        ensures
            final(self).control.closed,
            !final(self).control.joinable,
            r == (if old(self).control.joinable {
                Some(Duration::secs(old(self).control.shutdown_secs as int))
            } else {
                None
            }),
            *final(self) == (PushgatewayTask { control: final(self).control, ..*old(self) }),
            final(self).control.shutdown_secs == old(self).control.shutdown_secs,
    {
        self.control.shutdown()
    }
}

} // verus!
