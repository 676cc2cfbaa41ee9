//! The requests that are sent to the daemon.
//!
//! A pattern's request carries the trace id `watch-<pattern name>-<unix ms>`, the one sent when
//! the command has finished `watch-on-exit-<unix ms>`.

use vstd::prelude::*;
use vstd::string::*;

use crate::config::Pattern;
use crate::text::decimal;
use crate::time::unix_ms_now;

verus! {

/// What the daemon is asked to play.
#[derive(Debug, Clone)]
pub enum Sensation {
    /// A sensation that is registered on the backend, by its name.
    SensationName(String),
}

/// A request to the daemon.
#[derive(Debug, Clone)]
pub struct TriggerRequest {
    pub backend_id: String,
    pub zone_ids: Vec<String>,
    pub intensity_scale: Option<u32>,
    pub priority: i32,
    pub client_trace_id: String,
    pub sensation: Option<Sensation>,
}

/// A [`TriggerRequest`] with its strings as character sequences.
pub struct RequestView {
    pub backend_id: Seq<char>,
    pub zone_ids: Seq<String>,
    pub intensity_scale: Option<u32>,
    pub priority: i32,
    pub client_trace_id: Seq<char>,
    pub sensation: Option<Seq<char>>,
}

impl View for TriggerRequest {
    type V = RequestView;

    open spec fn view(&self) -> RequestView {
        RequestView {
            backend_id: self.backend_id@,
            zone_ids: self.zone_ids@,
            intensity_scale: self.intensity_scale,
            priority: self.priority,
            client_trace_id: self.client_trace_id@,
            sensation: match self.sensation {
                Some(Sensation::SensationName(name)) => Some(name@),
                None => None,
            },
        }
    }
}

/// The trace id of a request for the pattern `name`.
pub open spec fn pattern_trace_id(name: Seq<char>, unix_ms: u128) -> Seq<char> {
    "watch-"@ + name + "-"@ + crate::text::digits(unix_ms as nat)
}

/// The trace id of the request that is sent when the command has finished.
pub open spec fn exit_trace_id(unix_ms: u128) -> Seq<char> {
    "watch-on-exit-"@ + crate::text::digits(unix_ms as nat)
}

/// The request for a match of `p` at `unix_ms`.
pub open spec fn pattern_request(
    p: Pattern,
    default_backend_id: Seq<char>,
    unix_ms: u128,
) -> RequestView {
    RequestView {
        backend_id: match p.backend_id {
            Some(id) => id@,
            None => default_backend_id,
        },
        zone_ids: Seq::empty(),
        intensity_scale: p.intensity_scale,
        priority: match p.priority {
            Some(priority) => priority,
            None => 0,
        },
        client_trace_id: pattern_trace_id(p.name@, unix_ms),
        sensation: Some(p.sensation@),
    }
}

/// The request for `sensation` when the command has finished, at `unix_ms`.
pub open spec fn exit_request(
    sensation: Seq<char>,
    backend_id: Seq<char>,
    unix_ms: u128,
) -> RequestView {
    RequestView {
        backend_id,
        zone_ids: Seq::empty(),
        intensity_scale: None,
        priority: 0,
        client_trace_id: exit_trace_id(unix_ms),
        sensation: Some(sensation),
    }
}

/// The request for a match of `pattern` at `unix_ms`.
///
/// It goes to the pattern's backend, or to `default_backend_id` where the pattern names none.
pub fn build_pattern_trigger_at(pattern: &Pattern, default_backend_id: &str, unix_ms: u128) -> (r:
    TriggerRequest)
    ensures
        r@ == pattern_request(*pattern, default_backend_id@, unix_ms),
        r.backend_id@ == (match pattern.backend_id {
            Some(id) => id@,
            None => default_backend_id@,
        }),
        r.sensation matches Some(Sensation::SensationName(name)) && name@ == pattern.sensation@,
        r.intensity_scale == pattern.intensity_scale,
        r.priority == (match pattern.priority {
            Some(priority) => priority,
            None => 0,
        }),
        r.zone_ids@.len() == 0,
{
    let backend_id = match &pattern.backend_id {
        Some(id) => id.clone(),
        None => default_backend_id.to_owned(),
    };
    let mut trace = "watch-".to_owned();
    trace.append(pattern.name.as_str());
    trace.append("-");
    trace.append(decimal(unix_ms).as_str());
    let priority: i32 = match pattern.priority {
        Some(priority) => priority,
        None => 0,
    };
    TriggerRequest {
        backend_id,
        zone_ids: Vec::new(),
        intensity_scale: pattern.intensity_scale,
        priority,
        client_trace_id: trace,
        sensation: Some(Sensation::SensationName(pattern.sensation.clone())),
    }
}

/// The request for a match of `pattern` now. The wall clock says when that is.
pub fn build_pattern_trigger(pattern: &Pattern, default_backend_id: &str) -> (r: TriggerRequest)
    ensures
        exists|unix_ms: u128|
            crate::time::wall_clock_shows(unix_ms) && r@ == #[trigger] pattern_request(
                *pattern,
                default_backend_id@,
                unix_ms,
            ),
{
    build_pattern_trigger_at(pattern, default_backend_id, unix_ms_now())
}

/// The request for `sensation` when the command has finished, at `unix_ms`.
pub fn build_exit_trigger_at(sensation: &str, backend_id: &str, unix_ms: u128) -> (r:
    TriggerRequest)
    ensures
        r@ == exit_request(sensation@, backend_id@, unix_ms),
        r.backend_id@ == backend_id@,
        r.sensation matches Some(Sensation::SensationName(name)) && name@ == sensation@,
        r.intensity_scale is None,
        r.priority == 0,
        r.zone_ids@.len() == 0,
{
    let mut trace = "watch-on-exit-".to_owned();
    trace.append(decimal(unix_ms).as_str());
    TriggerRequest {
        backend_id: backend_id.to_owned(),
        zone_ids: Vec::new(),
        intensity_scale: None,
        priority: 0,
        client_trace_id: trace,
        sensation: Some(Sensation::SensationName(sensation.to_owned())),
    }
}

/// The request for `sensation` when the command has finished, now. The wall clock says when that
/// is.
pub fn build_exit_trigger(sensation: &str, backend_id: &str) -> (r: TriggerRequest)
    ensures
        exists|unix_ms: u128|
            crate::time::wall_clock_shows(unix_ms) && r@ == #[trigger] exit_request(
                sensation@,
                backend_id@,
                unix_ms,
            ),
{
    build_exit_trigger_at(sensation, backend_id, unix_ms_now())
}

/// A numeral holds digits only, and at least one.
proof fn lemma_digits(n: nat)
    ensures
        crate::text::is_digits(crate::text::digits(n)),
        crate::text::digits_value(crate::text::digits(n)) == n,
{
    crate::text::law_numerals_read_back(n);
}

/// Behind the last `-` of a trace id stand only digits, so that its parts can be told apart.
proof fn lemma_split_at_last_dash(a: Seq<char>, m: nat, b: Seq<char>, n: nat)
    requires
        a + seq!['-'] + crate::text::digits(m) == b + seq!['-'] + crate::text::digits(n),
    ensures
        a == b,
        m == n,
{
    let dm = crate::text::digits(m);
    let dn = crate::text::digits(n);
    let whole = a + seq!['-'] + dm;
    let other = b + seq!['-'] + dn;
    assert(whole == other);
    assert(whole.len() == a.len() + 1 + dm.len());
    assert(other.len() == b.len() + 1 + dn.len());
    lemma_digits(m);
    lemma_digits(n);
    if dm.len() < dn.len() {
        assert(whole[a.len() as int] == '-');
        assert(other[a.len() as int] == dn[a.len() - b.len() - 1]);
        assert(crate::text::is_digit(dn[a.len() - b.len() - 1]));
    }
    if dm.len() > dn.len() {
        assert(other[b.len() as int] == '-');
        assert(whole[b.len() as int] == dm[b.len() - a.len() - 1]);
        assert(crate::text::is_digit(dm[b.len() - a.len() - 1]));
    }
    assert(whole.subrange(0, a.len() as int) =~= a);
    assert(whole.subrange(0, a.len() as int) =~= b);
    assert(whole.skip(a.len() as int + 1) =~= dm);
    assert(whole.skip(a.len() as int + 1) =~= dn);
}

/// A pattern's trace id says which pattern it was and when: two that are equal are of the same
/// name and time.
pub proof fn law_trace_id_names_the_pattern(a: Seq<char>, m: u128, b: Seq<char>, n: u128)
    requires
        pattern_trace_id(a, m) == pattern_trace_id(b, n),
    ensures
        a == b,
        m == n,
{
    reveal_strlit("watch-");
    reveal_strlit("-");
    assert("-"@ =~= seq!['-']);
    let left = pattern_trace_id(a, m).skip(6);
    let right = pattern_trace_id(b, n).skip(6);
    assert(left =~= a + seq!['-'] + crate::text::digits(m as nat));
    assert(right =~= b + seq!['-'] + crate::text::digits(n as nat));
    lemma_split_at_last_dash(a, m as nat, b, n as nat);
}

/// The trace id of the exit request is no pattern's, unless the pattern is named `on-exit`.
pub proof fn law_exit_trace_id_is_no_patterns(name: Seq<char>, m: u128, n: u128)
    requires
        name != "on-exit"@,
    ensures
        pattern_trace_id(name, m) != exit_trace_id(n),
{
    reveal_strlit("watch-");
    reveal_strlit("-");
    reveal_strlit("on-exit");
    reveal_strlit("watch-on-exit-");
    if pattern_trace_id(name, m) == exit_trace_id(n) {
        assert(exit_trace_id(n) =~= pattern_trace_id("on-exit"@, n));
        law_trace_id_names_the_pattern(name, m, "on-exit"@, n);
    }
}

/// What is known of a request is what it carries, field by field.
pub proof fn law_a_request_is_seen_whole(r: TriggerRequest)
    ensures
        r@.backend_id == r.backend_id@,
        r@.zone_ids == r.zone_ids@,
        r@.intensity_scale == r.intensity_scale,
        r@.priority == r.priority,
        r@.client_trace_id == r.client_trace_id@,
        r.sensation matches Some(Sensation::SensationName(name)) ==> r@.sensation == Some(name@),
        r.sensation is None ==> r@.sensation is None,
{
}

/// A request goes to the backend that its pattern names, whatever else the pattern says, and to
/// the default one exactly where it names none.
pub proof fn law_a_request_goes_to_its_patterns_backend(
    p: Pattern,
    default_backend_id: Seq<char>,
    unix_ms: u128,
)
    ensures
        p.backend_id matches Some(id) ==> pattern_request(
            p,
            default_backend_id,
            unix_ms,
        ).backend_id == id@,
        p.backend_id is None ==> pattern_request(p, default_backend_id, unix_ms).backend_id
            == default_backend_id,
{
}

/// A request plays its pattern's sensation on all zones, with the pattern's intensity where it has
/// one, and with its priority or zero.
pub proof fn law_a_request_plays_its_patterns_sensation(
    p: Pattern,
    default_backend_id: Seq<char>,
    unix_ms: u128,
)
    ensures
        ({
            let r = pattern_request(p, default_backend_id, unix_ms);
            &&& r.sensation == Some(p.sensation@)
            &&& r.zone_ids.len() == 0
            &&& r.intensity_scale == p.intensity_scale
            &&& p.priority matches Some(priority) ==> r.priority == priority
            &&& p.priority is None ==> r.priority == 0
            &&& r.client_trace_id == pattern_trace_id(p.name@, unix_ms)
        }),
{
}

/// The request of an exit is that of a pattern named `on-exit` that says nothing but its sensation.
pub proof fn law_an_exit_request_is_a_plain_one(
    p: Pattern,
    sensation: Seq<char>,
    backend_id: Seq<char>,
    unix_ms: u128,
)
    requires
        p.name@ == "on-exit"@,
        p.sensation@ == sensation,
        p.backend_id is None,
        p.intensity_scale is None,
        p.priority is None,
    ensures
        exit_request(sensation, backend_id, unix_ms) == pattern_request(p, backend_id, unix_ms),
{
    reveal_strlit("watch-");
    reveal_strlit("-");
    reveal_strlit("on-exit");
    reveal_strlit("watch-on-exit-");
    assert(exit_trace_id(unix_ms) =~= pattern_trace_id("on-exit"@, unix_ms));
}

/// A trace id is made of `watch-`, the pattern's name, a dash and the decimal numeral of the time,
/// in this order and with nothing between.
pub proof fn law_trace_id_parts(name: Seq<char>, unix_ms: u128)
    ensures
        ({
            let id = pattern_trace_id(name, unix_ms);
            let dash = 6 + name.len() as int;
            &&& id.len() > dash + 1
            &&& id.take(6) == seq!['w', 'a', 't', 'c', 'h', '-']
            &&& id.subrange(6, dash) == name
            &&& id[dash] == '-'
            &&& crate::text::is_digits(id.skip(dash + 1))
            &&& crate::text::digits_value(id.skip(dash + 1)) == unix_ms
            &&& id.skip(dash + 1) == crate::text::digits(unix_ms as nat)
        }),
{
    reveal_strlit("watch-");
    reveal_strlit("-");
    let id = pattern_trace_id(name, unix_ms);
    let dash = 6 + name.len() as int;
    crate::text::law_numerals_read_back(unix_ms as nat);
    assert(id.take(6) =~= seq!['w', 'a', 't', 'c', 'h', '-']);
    assert(id.subrange(6, dash) =~= name);
    assert(id.skip(dash + 1) =~= crate::text::digits(unix_ms as nat));
}

} // verus!
