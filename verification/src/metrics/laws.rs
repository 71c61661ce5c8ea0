//! What is counted, reported and pushed: laws on the calls and their results.
//!
//! `call_ensures(f, args, r)` says that `r` is a result of the call of `f` with `args`.

use vstd::prelude::*;

use crate::clock::Duration;
use crate::metrics::batch::{
    batch_goes_out, joined, lemma_place_of, place_of, HeartbeatQueue,
};
use crate::metrics::heartbeat::{app_id_from, generated_app_id, given_name, HeartbeatTask};
use crate::metrics::pushgateway::{
    encoded_bytes, is_unreserved_char, labels_path, push_outcome, push_request,
    sanitize_metric_name, sanitized_upto, text_of_metrics, url_encode, PushOutcome, PushRequest,
    PushgatewayConfig, PushgatewayTask,
};
use crate::metrics::registry::{counter, gauge, Counter, Gauge, Registry};
use crate::metrics::reporter::{
    is_snapshot, law_snapshot_reports_every_move, named, strip_instance_prefix,
};
use crate::metrics::task::{ReportLoop, TaskControl, TaskPhase};
use crate::proto::{metric_views, text_view, ClientMetrics, Metric, MetricView};
use crate::text::{decimal_int, drop_trailing, only};

verus! {

/// A counter adds up what it is told, and a gauge shows what it was told last.
pub proof fn law_counters_add_up_and_gauges_show(
    c: &mut Counter,
    g: &mut Gauge,
    n: i64,
    before: i64,
    after: i64,
    shown: i64,
)
    requires
        call_ensures(Counter::get, (old(c),), before),
        call_ensures(Counter::inc, (c, n), ()),
        call_ensures(Counter::get, (final(c),), after),
        call_ensures(Gauge::set, (g, n), ()),
        call_ensures(Gauge::get, (final(g),), shown),
    ensures
        i64::MIN <= before + n <= i64::MAX ==> after == before + n,
        shown == n,
{
}

/// A counter is kept under its name: it starts at nothing, what is done to it stays, and
/// no other counter or gauge changes; the same holds of gauges.
pub proof fn law_metrics_are_kept_by_name(
    registry: &mut Registry,
    other: &mut Registry,
    name: &str,
    c: &mut Counter,
    g: &mut Gauge,
)
    requires
        call_ensures(counter, (registry, name), c),
        call_ensures(gauge, (other, name), g),
    ensures
        !old(registry).counters().contains_key(name@) ==> old(c)@ == 0,
        old(registry).counters().contains_key(name@) ==> old(c)@ == old(registry).counters()[name@],
        final(registry).counters().contains_key(name@) && final(registry).counters()[name@]
            == final(c)@,
        forall|k: Seq<char>|
            k != name@ ==> (#[trigger] final(registry).counters().contains_key(k)) == old(registry).counters().contains_key(k) && final(registry).counters()[k] == old(registry).counters()[k],
        final(registry).gauges() == old(registry).gauges(),
        !old(other).gauges().contains_key(name@) ==> old(g)@ == 0,
        old(other).gauges().contains_key(name@) ==> old(g)@ == old(other).gauges()[name@],
        final(other).gauges().contains_key(name@) && final(other).gauges()[name@] == final(g)@,
        final(other).counters() == old(other).counters(),
{
}

/// Every counter and every gauge is listed once, with its value.
pub proof fn law_listings_are_complete(
    registry: Registry,
    cs: Vec<(String, i64)>,
    gs: Vec<(String, i64)>,
    name: Seq<char>,
)
    requires
        call_ensures(Registry::counter_values, (&registry,), cs),
        call_ensures(Registry::gauge_values, (&registry,), gs),
    ensures
        registry.counters().contains_key(name) ==> exists|i: int|
            0 <= i < cs@.len() && (#[trigger] cs@[i]).0@ == name && cs@[i].1
                == registry.counters()[name],
        registry.gauges().contains_key(name) ==> exists|i: int|
            0 <= i < gs@.len() && (#[trigger] gs@[i]).0@ == name && gs@[i].1
                == registry.gauges()[name],
        forall|i: int, j: int|
            0 <= i < j < cs@.len() ==> (#[trigger] cs@[i]).0@ != (#[trigger] cs@[j]).0@,
        forall|i: int, j: int|
            0 <= i < j < gs@.len() ==> (#[trigger] gs@[i]).0@ != (#[trigger] gs@[j]).0@,
        forall|i: int|
            0 <= i < cs@.len() ==> registry.counters().contains_key((#[trigger] cs@[i]).0@),
{
    if registry.counters().contains_key(name) {
        let i = choose|i: int| 0 <= i < cs@.len() && (#[trigger] cs@[i]).0@ == name;
        assert(cs@[i].1 == registry.counters()[cs@[i].0@]);
    }
    if registry.gauges().contains_key(name) {
        let i = choose|i: int| 0 <= i < gs@.len() && (#[trigger] gs@[i]).0@ == name;
        assert(gs@[i].1 == registry.gauges()[gs@[i].0@]);
    }
}

/// The name of a metric is what follows the first dot, or all of it if there is none.
pub proof fn law_instance_is_stripped(full: &str, a: Seq<char>, b: Seq<char>, r: String)
    requires
        call_ensures(strip_instance_prefix, (full,), r),
        forall|i: int| 0 <= i < a.len() ==> a[i] != '.',
    ensures
        full@ == a.push('.') + b ==> r@ == b,
        full@ == a ==> r@ == a,
{
    crate::text_laws::lemma_first_behind(a, '.', b);
    crate::text::lemma_first_from(a, '.', 0);
}

/// With nothing waiting, a beat carries all that is new, in its order and in the name of
/// the client, up to the limit; the rest waits.
pub proof fn law_beat_carries_what_is_new(
    queue: &mut HeartbeatQueue,
    fresh: Vec<Metric>,
    app_id: &str,
    limit: usize,
    r: Option<ClientMetrics>,
    i: int,
)
    requires
        call_ensures(HeartbeatQueue::next_payload, (queue, fresh, app_id, limit), r),
        old(queue)@.len() == 0,
        fresh@.len() <= limit,
        0 <= i < fresh@.len() || fresh@.len() == 0,
    ensures
        final(queue)@.len() == 0,
        (r is None) == (fresh@.len() == 0),
        r matches Some(p) ==> text_view(p.source) == Some(app_id@) && p.metrics@.len()
            == fresh@.len() && text_view(p.metrics@[i].name) == text_view(fresh@[i].name)
            && p.metrics@[i].value == fresh@[i].value && p.metrics@[i].metric_type
            == fresh@[i].metric_type && (fresh@[i].source is None ==> text_view(
            p.metrics@[i].source,
        ) == Some(app_id@)) && (fresh@[i].source is Some ==> text_view(p.metrics@[i].source)
            == text_view(fresh@[i].source)),
{
    let f = metric_views(fresh@);
    assert(f.len() == fresh@.len());
    assert(old(queue)@ =~= Seq::<MetricView>::empty());
    crate::metrics::batch::law_small_snapshot_goes_out_whole(f, limit);
    assert(f.take(f.len() as int) =~= f);
    if let Some(p) = r {
        let out = metric_views(p.metrics@);
        assert(out.len() == p.metrics@.len());
        assert(out[i] == p.metrics@[i]@);
        assert(f[i] == fresh@[i]@);
    }
}

/// No beat carries more than the limit, and what it does not carry waits for the next.
pub proof fn law_beat_keeps_to_its_limit(
    queue: &mut HeartbeatQueue,
    fresh: Vec<Metric>,
    app_id: &str,
    limit: usize,
    r: Option<ClientMetrics>,
)
    requires
        call_ensures(HeartbeatQueue::next_payload, (queue, fresh, app_id, limit), r),
    ensures
        r matches Some(p) ==> 0 < p.metrics@.len() <= limit && text_view(p.source) == Some(app_id@),
        r matches Some(p) ==> p.metrics@.len() < limit ==> final(queue)@.len() == 0,
        r is None ==> limit == 0 || final(queue)@.len() == 0,
{
    if let Some(p) = r {
        assert(metric_views(p.metrics@).len() == p.metrics@.len());
    }
}

/// A new move of a counter that still waits is added to it; a new value of a gauge takes
/// the place of the waiting one; anything else waits behind.
pub proof fn law_waiting_moves_are_added_up(
    queue: &mut HeartbeatQueue,
    fresh: Vec<Metric>,
    w: MetricView,
    x: i64,
    y: i64,
)
    requires
        call_ensures(HeartbeatQueue::take_in, (queue, fresh), ()),
        old(queue)@ == seq![w],
        fresh@.len() == 1,
        w.value == Some(x),
        fresh@[0].value == Some(y),
        i64::MIN <= x + y <= i64::MAX,
    ensures
        w.name == text_view(fresh@[0].name) && w.metric_type == 1 && fresh@[0].metric_type == 1
            ==> final(queue)@.len() == 1 && final(queue)@[0].value == Some((x + y) as i64)
            && final(queue)@[0].name == w.name,
        w.name == text_view(fresh@[0].name) && w.metric_type == 0 && fresh@[0].metric_type == 0
            ==> final(queue)@.len() == 1 && final(queue)@[0].value == Some(y) && final(queue)@[0].name == w.name,
        w.name != text_view(fresh@[0].name) ==> final(queue)@.len() == 2 && final(queue)@[0] == w
            && final(queue)@[1] == fresh@[0]@,
{
    let f = metric_views(fresh@);
    assert(f.len() == 1 && f[0] == fresh@[0]@);
    assert(f.drop_last() =~= Seq::<MetricView>::empty());
    assert(f.last() == f[0]);
    reveal_with_fuel(joined, 2);
    reveal_with_fuel(place_of, 2);
}

/// The value of a hexadecimal digit.
pub open spec fn hex_value(c: char) -> int {
    if '0' <= c <= '9' {
        c as int - 48
    } else if 'A' <= c <= 'F' {
        c as int - 55
    } else {
        -1
    }
}

proof fn lemma_encoded_of_both(a: Seq<u8>, b: Seq<u8>)
    ensures
        encoded_bytes(a + b) == encoded_bytes(a) + encoded_bytes(b),
    decreases b.len(),
{
    if b.len() == 0 {
        assert(a + b =~= a);
        assert(encoded_bytes(a) + encoded_bytes(b) =~= encoded_bytes(a));
    } else {
        lemma_encoded_of_both(a, b.drop_last());
        assert((a + b).drop_last() =~= a + b.drop_last());
        assert(encoded_bytes(a + b) =~= encoded_bytes(a) + encoded_bytes(b));
    }
}

proof fn lemma_utf8_of_both(a: Seq<char>, b: Seq<char>)
    ensures
        vstd::utf8::encode_utf8(a + b) == vstd::utf8::encode_utf8(a) + vstd::utf8::encode_utf8(b),
    decreases a.len(),
{
    if a.len() == 0 {
        assert(a + b =~= b);
        assert(vstd::utf8::encode_utf8(a) + vstd::utf8::encode_utf8(b)
            =~= vstd::utf8::encode_utf8(b));
    } else {
        lemma_utf8_of_both(a.drop_first(), b);
        assert((a + b).drop_first() =~= a.drop_first() + b);
        assert((a + b)[0] == a[0]);
        assert(vstd::utf8::encode_utf8(a + b) =~= vstd::utf8::encode_utf8(a)
            + vstd::utf8::encode_utf8(b));
    }
}

/// A text is encoded character by character: letters, digits and `-_.~` stay, any other
/// ASCII character becomes a percent sign and its two hexadecimal digits.
pub proof fn law_text_is_encoded_for_a_path(
    a: &str,
    b: &str,
    ab: &str,
    c: char,
    ra: String,
    rb: String,
    rab: String,
)
    requires
        call_ensures(url_encode, (a,), ra),
        call_ensures(url_encode, (b,), rb),
        call_ensures(url_encode, (ab,), rab),
        ab@ == a@ + b@,
        (c as u32) < 128,
    ensures
        rab@ == ra@ + rb@,
        a@.len() == 0 ==> ra@.len() == 0,
        a@ == seq![c] && is_unreserved_char(c) ==> ra@ == seq![c],
        a@ == seq![c] && !is_unreserved_char(c) ==> ra@.len() == 3 && ra@[0] == '%' && hex_value(
            ra@[1],
        ) >= 0 && hex_value(ra@[2]) >= 0 && hex_value(ra@[1]) * 16 + hex_value(ra@[2]) == c as u32,
{
    lemma_utf8_of_both(a@, b@);
    lemma_encoded_of_both(vstd::utf8::encode_utf8(a@), vstd::utf8::encode_utf8(b@));
    if a@ == seq![c] {
        assert(vstd::utf8::is_ascii_chars(a@));
        vstd::utf8::is_ascii_chars_encode_utf8(a@);
        let bytes = vstd::utf8::encode_utf8(a@);
        assert(bytes.len() == 1 && bytes[0] == c as u8);
        assert(bytes.drop_last() =~= Seq::<u8>::empty());
        reveal_with_fuel(encoded_bytes, 2);
        assert(ra@ =~= crate::metrics::pushgateway::encoded_byte(c as u8));
        assert(c as u8 as char == c);
    }
}

/// Metrics are pushed to the job's place at the gateway, and to that of the instance if
/// one is named; a label adds its name and its value to the path.
pub proof fn law_push_path(
    c: PushgatewayConfig,
    at: PushgatewayConfig,
    labelled: PushgatewayConfig,
    instance: &str,
    key: &str,
    value: &str,
    plain: String,
    own: String,
    more: String,
    job: String,
    i: String,
    k: String,
    v: String,
)
    requires
        call_ensures(PushgatewayConfig::push_url, (&c,), plain),
        call_ensures(PushgatewayConfig::with_instance, (c, instance), at),
        call_ensures(PushgatewayConfig::push_url, (&at,), own),
        call_ensures(PushgatewayConfig::with_label, (at, key, value), labelled),
        call_ensures(PushgatewayConfig::push_url, (&labelled,), more),
        c.instance is None,
        c.extra_labels@.len() == 0,
        c.endpoint@.len() > 0 ==> c.endpoint@.last() != '/',
        call_ensures(url_encode, (instance,), i),
        call_ensures(url_encode, (key,), k),
        call_ensures(url_encode, (value,), v),
        job@ == crate::metrics::pushgateway::url_encoded(c.job@),
    ensures
        plain@ == c.endpoint@ + "/metrics/job/"@ + job@,
        own@ == plain@ + "/instance/"@ + i@,
        more@ == own@ + seq!['/'] + k@ + seq!['/'] + v@,
{
    assert(drop_trailing(c.endpoint@, only('/')) == c.endpoint@);
    assert(plain@ =~= c.endpoint@ + "/metrics/job/"@ + job@);
    assert(own@ =~= plain@ + "/instance/"@ + i@);
    assert(labelled.extra_labels@.drop_last() =~= at.extra_labels@);
    assert(at.extra_labels@ =~= c.extra_labels@);
    reveal_with_fuel(labels_path, 2);
    assert(more@ =~= own@ + seq!['/'] + k@ + seq!['/'] + v@);
}

/// The settings of a push are those that are given.
pub proof fn law_push_settings_are_kept(
    endpoint: &str,
    job: &str,
    interval: Duration,
    plain: PushgatewayConfig,
    timed: PushgatewayConfig,
    url: String,
    task: PushgatewayTask,
)
    requires
        call_ensures(PushgatewayConfig::new, (endpoint, job), plain),
        call_ensures(PushgatewayConfig::with_push_interval, (plain, interval), timed),
        call_ensures(PushgatewayConfig::push_url, (&timed,), url),
        call_ensures(PushgatewayTask::new, (&timed,), task),
    ensures
        plain.endpoint@ == endpoint@ && plain.job@ == job@ && plain.instance is None,
        plain.push_interval.nanos == 10_000_000_000,
        plain.extra_labels@.len() == 0,
        timed.push_interval == interval && timed.endpoint == plain.endpoint && timed.job
            == plain.job && timed.instance == plain.instance,
        task.push_url@ == url@ && task.interval == interval && !task.control.closed
            && task.control.joinable,
{
}

/// The name of a metric is turned character by character: small letters, digits, `_` and
/// `:` stay, a capital letter becomes a small one and starts a new word behind anything
/// but a capital or a dot, and all else becomes an underscore.
pub proof fn law_metric_names_are_turned(
    a: &str,
    b: &str,
    c: char,
    ra: String,
    rb: String,
)
    requires
        call_ensures(sanitize_metric_name, (a,), ra),
        call_ensures(sanitize_metric_name, (b,), rb),
        b@ == a@.push(c),
    ensures
        a@.len() == 0 ==> ra@ == "goosefs_"@,
        'a' <= c <= 'z' || '0' <= c <= '9' || c == '_' || c == ':' ==> rb@ == ra@.push(c),
        'A' <= c <= 'Z' && (a@.len() == 0 || ('A' <= a@.last() <= 'Z') || a@.last() == '.')
            ==> rb@.len() == ra@.len() + 1 && rb@.take(ra@.len() as int) == ra@ && rb@.last() as u32
            == c as u32 + 32,
        'A' <= c <= 'Z' && a@.len() > 0 && !('A' <= a@.last() <= 'Z') && a@.last() != '.'
            ==> rb@.len() == ra@.len() + 2 && rb@.take(ra@.len() as int + 1) == ra@.push('_')
            && rb@.last() as u32 == c as u32 + 32,
        c == '.' || c == '-' || c == '/' || c == ' ' ==> rb@ == ra@.push('_'),
{
    lemma_same_beginning(a@, b@, a@.len() as int);
    let front = sanitized_upto(a@, a@.len() as int);
    let piece = crate::metrics::pushgateway::sanitized_at(b@, a@.len() as int);
    assert(rb@ =~= ra@ + piece);
    if a@.len() > 0 {
        assert(b@[a@.len() - 1] == a@.last());
    }
    assert(rb@.take(ra@.len() as int) =~= ra@);
    if piece.len() == 2 {
        assert(rb@.take(ra@.len() as int + 1) =~= ra@.push(piece[0]));
    } else {
        assert(rb@ =~= ra@.push(piece[0]));
    }
    if a@.len() == 0 {
        assert(ra@ =~= "goosefs_"@);
    }
}

proof fn lemma_same_beginning(a: Seq<char>, b: Seq<char>, n: int)
    requires
        n <= a.len(),
        n <= b.len(),
        forall|i: int| 0 <= i < n ==> a[i] == b[i],
    ensures
        sanitized_upto(a, n) == sanitized_upto(b, n),
    decreases n,
{
    if n > 0 {
        lemma_same_beginning(a, b, n - 1);
    }
}

/// What is said of one metric.
pub open spec fn lines_of(
    prometheus: Seq<char>,
    kind: Seq<char>,
    name: Seq<char>,
    value: int,
) -> Seq<char> {
    "# HELP "@ + prometheus + " GooseFS client "@ + kind + ": "@ + name + "\n# TYPE "@ + prometheus
        + " "@ + kind + "\n"@ + prometheus + " "@ + decimal_int(value) + "\n"@
}

/// The text of the metrics names each with its kind and its value, the counters first:
/// one more gauge, or one more counter where there are no gauges, adds its lines at the
/// end.
pub proof fn law_every_metric_is_written_out(
    cs: Vec<(String, i64)>,
    gs: Vec<(String, i64)>,
    none: Vec<(String, i64)>,
    more: Vec<(String, i64)>,
    more_cs: Vec<(String, i64)>,
    last: (String, i64),
    name: &str,
    prom: String,
    text: String,
    longer: String,
    counted: String,
    counted_more: String,
)
    requires
        none@.len() == 0,
        more@ == gs@.push(last),
        more_cs@ == cs@.push(last),
        name@ == last.0@,
        call_ensures(sanitize_metric_name, (name,), prom),
        call_ensures(text_of_metrics, (&cs, &gs), text),
        call_ensures(text_of_metrics, (&cs, &more), longer),
        call_ensures(text_of_metrics, (&cs, &none), counted),
        call_ensures(text_of_metrics, (&more_cs, &none), counted_more),
    ensures
        longer@ == text@ + lines_of(prom@, "gauge"@, name@, last.1 as int),
        counted_more@ == counted@ + lines_of(prom@, "counter"@, name@, last.1 as int),
        cs@.len() == 0 ==> counted@.len() == 0,
{
    assert(named(more@).drop_last() =~= named(gs@));
    assert(named(more@).last() == (last.0@, last.1));
    assert(named(more_cs@).drop_last() =~= named(cs@));
    assert(named(more_cs@).last() == (last.0@, last.1));
    assert(named(none@) =~= Seq::<(Seq<char>, i64)>::empty());
    assert(longer@ =~= text@ + lines_of(prom@, "gauge"@, name@, last.1 as int));
    assert(counted_more@ =~= counted@ + lines_of(prom@, "counter"@, name@, last.1 as int));
}

/// What there is to say is pushed, as text, to the place that is given; an answer counts
/// as success only if it says so.
pub proof fn law_push_is_made_and_judged(
    url: &str,
    body: String,
    r: Option<PushRequest>,
    status: Option<u16>,
    o: PushOutcome,
)
    requires
        call_ensures(push_request, (url, body), r),
        call_ensures(push_outcome, (status,), o),
    ensures
        (r is None) == (body@.len() == 0),
        r matches Some(p) ==> p.url@ == url@ && p.body@ == body@ && p.content_type@
            == "text/plain; version=0.0.4"@,
        (o is Failed) == (status is None),
        (o is Pushed) == (status matches Some(s) && 200 <= s < 300),
{
}

/// A task waits and reports in turn, and ends after the report that follows its closing.
pub proof fn law_task_reports_in_turn(l: &mut ReportLoop, closed: bool, r: TaskPhase)
    requires
        call_ensures(ReportLoop::step, (l, closed), r),
    ensures
        final(l).phase == r,
        old(l).phase is Starting ==> r is Waiting,
        old(l).phase is Waiting ==> r is Reporting,
        old(l).phase is Reporting && !closed ==> r is Waiting,
        old(l).phase is Reporting && closed ==> r is Ended,
        old(l).phase is Ended ==> r is Ended,
{
}

/// A task is shut down once: the first time its end is waited for, but not for ever.
pub proof fn law_task_is_shut_down_once(
    fresh: TaskControl,
    c: &mut TaskControl,
    d: &mut TaskControl,
    secs: u64,
    first: Option<Duration>,
    second: Option<Duration>,
)
    requires
        call_ensures(TaskControl::new, (secs,), fresh),
        *old(c) == fresh,
        call_ensures(TaskControl::shutdown, (c,), first),
        *old(d) == *final(c),
        call_ensures(TaskControl::shutdown, (d,), second),
    ensures
        !fresh.closed,
        final(c).closed,
        first matches Some(t) && t.nanos == secs * 1_000_000_000,
        second is None,
{
}

/// A client goes by its configured name, else by that of the machine, else by a prefix
/// and the first eight characters of an identifier; an empty name is none.
pub proof fn law_client_goes_by_the_nearest_name(
    configured: Option<String>,
    machine: Option<String>,
    id: &str,
    r: String,
    given: Option<String>,
    made: String,
)
    requires
        call_ensures(app_id_from, (configured, machine, id), r),
        call_ensures(given_name, (configured,), given),
        call_ensures(generated_app_id, (id,), made),
        id@.len() >= 8,
    ensures
        configured matches Some(s) ==> s@.len() > 0 ==> r@ == s@ && given == configured,
        configured is None ==> given is None,
        configured matches Some(s) ==> s@.len() == 0 ==> given is None,
        given is None ==> (machine matches Some(s) ==> s@.len() > 0 ==> r@ == s@),
        given is None && machine is None ==> r@ == made@,
        made@.len() >= 8 && made@.skip(made@.len() - 8) == id@.take(8),
{
    assert(made@.skip(made@.len() - 8) =~= id@.take(8));
}

/// A push carries every counter and every gauge, and there is none without metrics.
pub proof fn law_push_carries_the_registry(
    task: PushgatewayTask,
    registry: Registry,
    r: Option<PushRequest>,
)
    requires
        call_ensures(PushgatewayTask::next_push, (&task, &registry), r),
    ensures
        (r is None) == (registry.counters().dom().is_empty() && registry.gauges().dom().is_empty()),
        r matches Some(p) ==> p.url@ == task.push_url@ && p.content_type@
            == "text/plain; version=0.0.4"@ && p.body@.len() > 0 && p.body@.last() == '\n',
{
    if let Some(p) = r {
        crate::metrics::pushgateway::law_text_ends_with_newline(
            p.body@,
            registry.counters(),
            registry.gauges(),
        );
    }
}

/// A task starts with nothing waiting and nothing reported, in the name of its client.
pub proof fn law_heartbeat_starts_afresh(app_id: &str, limit: usize, r: HeartbeatTask)
    requires
        call_ensures(HeartbeatTask::new, (app_id, limit), r),
    ensures
        r.app_id@ == app_id@ && r.max_batch_size == limit,
        r.queue@.len() == 0,
        forall|name: Seq<char>| !(#[trigger] r.reporter@.contains_key(name)),
        r.warnings.last() < 0 && r.warnings.window() == 30_000,
        !r.control.closed,
{
}

/// A beat reports in the name of the client, and is made whenever a counter has moved or
/// there is a gauge; what it gives out counts as reported.
pub proof fn law_beat_is_made_for_every_move(
    task: &mut HeartbeatTask,
    registry: Registry,
    r: Option<ClientMetrics>,
    name: Seq<char>,
)
    requires
        call_ensures(HeartbeatTask::do_heartbeat, (task, &registry), r),
        old(task).max_batch_size > 0,
    ensures
        r matches Some(p) ==> text_view(p.source) == Some(old(task).app_id@) && 0 < p.metrics@.len()
            <= old(task).max_batch_size,
        registry.gauges().contains_key(name) ==> r is Some,
        registry.counters().contains_key(name) && registry.counters()[name] != 0 && !old(task).reporter@.contains_key(name) ==> r is Some,
        registry.counters().contains_key(name) && old(task).reporter@.contains_key(name) && old(task).reporter@[name] != registry.counters()[name] ==> r is Some,
        registry.counters().contains_key(name) ==> final(task).reporter@.contains_key(name)
            && final(task).reporter@[name] == registry.counters()[name],
{
    let fresh = choose|fresh: Seq<MetricView>|
        #[trigger] is_snapshot(
            fresh,
            old(task).reporter@,
            registry.counters(),
            registry.gauges(),
        ) && batch_goes_out(
            old(task).queue@,
            fresh,
            old(task).app_id@,
            old(task).max_batch_size,
            final(task).queue@,
            r,
        );
    law_snapshot_reports_every_move(
        fresh,
        old(task).reporter@,
        registry.counters(),
        registry.gauges(),
    );
    if let Some(p) = r {
        assert(metric_views(p.metrics@).len() == p.metrics@.len());
    }
    if fresh.len() > 0 {
        lemma_joined_is_no_shorter(old(task).queue@, fresh);
    }
}

proof fn lemma_joined_is_no_shorter(waiting: Seq<MetricView>, fresh: Seq<MetricView>)
    ensures
        joined(waiting, fresh).len() >= waiting.len(),
        fresh.len() > 0 ==> joined(waiting, fresh).len() > 0,
    decreases fresh.len(),
{
    if fresh.len() > 0 {
        lemma_joined_is_no_shorter(waiting, fresh.drop_last());
        lemma_place_of(waiting, fresh.last(), 0);
    }
}

} // verus!
