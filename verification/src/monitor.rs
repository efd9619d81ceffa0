//! The monitoring engine's data model: monitored targets, the per-target
//! status record with its bounded latency history, the classification of one
//! probe's outcome into a status message and a latency sample, and the status
//! store that a polling worker writes and the view reads.
use vstd::prelude::*;

use crate::text::decimal_digits;
use crate::text::u64_to_string;

verus! {

/// Capacity of each target's latency-history ring.
pub const HISTORY_CAP: usize = 50;

/// One monitored endpoint, fixed at load time.
pub struct Target {
    pub name: String,
    pub url: String,
}

/// The live record kept for one target: its identity, the text of the most
/// recent probe outcome, and the bounded ring of recent latency samples
/// (milliseconds), ordered oldest first.
#[derive(Debug, Clone)]
pub struct Website {
    pub url: String,
    pub name: String,
    pub last_status: String,
    pub history: Vec<u64>,
}

/// Mathematical model of a `Website`.
pub struct WebsiteModel {
    pub url: Seq<char>,
    pub name: Seq<char>,
    pub last_status: Seq<char>,
    pub history: Seq<u64>,
}

impl View for Website {
    type V = WebsiteModel;

    open spec fn view(&self) -> WebsiteModel {
        WebsiteModel {
            url: self.url@,
            name: self.name@,
            last_status: self.last_status@,
            history: self.history@,
        }
    }
}

/// A history ring is within its fixed capacity.
pub open spec fn history_bounded(m: WebsiteModel) -> bool {
    m.history.len() <= HISTORY_CAP
}

/// The history ring after appending `sample`: a plain append while under
/// capacity, and once at capacity the oldest sample is evicted to make room.
pub open spec fn push_evict(h: Seq<u64>, sample: u64) -> Seq<u64> {
    if h.len() < HISTORY_CAP {
        h.push(sample)
    } else {
        h.push(sample).subrange(1, h.len() + 1 as int)
    }
}

/// Appending never grows a history ring beyond its capacity.
pub proof fn lemma_history_bounded(h: Seq<u64>, sample: u64)
    requires
        h.len() <= HISTORY_CAP,
    ensures
        push_evict(h, sample).len() <= HISTORY_CAP,
{
}

/// Eviction is strict FIFO: appending to a full ring removes exactly the
/// oldest sample, keeps the relative order of the rest, and puts the new
/// sample last.
pub proof fn lemma_history_fifo(h: Seq<u64>, sample: u64)
    requires
        h.len() == HISTORY_CAP,
    ensures
        push_evict(h, sample).len() == HISTORY_CAP,
        forall|i: int| 0 <= i < HISTORY_CAP - 1 ==> push_evict(h, sample)[i] == h[i + 1],
        push_evict(h, sample)[HISTORY_CAP - 1] == sample,
{
}

impl Website {
    /// Append one latency sample to the history ring, evicting the oldest
    /// sample when the ring is full; everything else is left as it was.
    pub fn push_sample(&mut self, sample: u64)
        requires
            old(self)@.history.len() <= HISTORY_CAP,
        ensures
            final(self)@.url == old(self)@.url,
            final(self)@.name == old(self)@.name,
            final(self)@.last_status == old(self)@.last_status,
            final(self)@.history == push_evict(old(self)@.history, sample),
    {
        self.history.push(sample);
        if self.history.len() > HISTORY_CAP {
            self.history.remove(0);
        }
        proof {
            assert(self@.history =~= push_evict(old(self)@.history, sample));
        }
    }
}

/// The sentinel status every target starts in, before its first probe.
pub open spec fn pending_status_spec() -> Seq<char> {
    "pending..."@
}

/// The sentinel status as a value.
pub fn pending_status() -> (s: String)
    ensures
        s@ == pending_status_spec(),
{
    String::from_str("pending...")
}

/// HTTP status codes counted as success.
pub open spec fn is_success_code(code: u16) -> bool {
    200 <= code < 300
}

/// Status text for a reachable target that answered with a success code.
pub open spec fn success_message_spec(code: u16, elapsed_ms: u64) -> Seq<char> {
    "SUCCESS : "@ + decimal_digits(code as nat) + " ("@ + decimal_digits(elapsed_ms as nat)
        + " ms)"@
}

/// Status text for a reachable target that answered with a non-success code.
pub open spec fn warning_message_spec(code: u16) -> Seq<char> {
    "WARNING : code "@ + decimal_digits(code as nat)
}

/// Status text for a target the probe could not reach at all.
pub open spec fn error_message_spec(detail: Seq<char>) -> Seq<char> {
    "ERROR : "@ + detail
}

/// What one probe reported back: either an HTTP response (status code plus
/// the request's elapsed time) or a transport-level failure with its
/// description.
pub enum ProbeOutcome {
    Response { code: u16, elapsed_ms: u64 },
    TransportError { detail: String },
}

/// The status message recorded for a probe outcome.
pub open spec fn outcome_message_spec(o: ProbeOutcome) -> Seq<char> {
    match o {
        ProbeOutcome::Response { code, elapsed_ms } => if is_success_code(code) {
            success_message_spec(code, elapsed_ms)
        } else {
            warning_message_spec(code)
        },
        ProbeOutcome::TransportError { detail } => error_message_spec(detail@),
    }
}

/// The latency sample recorded for a probe outcome: the request's elapsed
/// time on success, and `0` for both non-success responses and transport
/// failures (failures are deliberately graphed as zero-latency so the series
/// stays aligned with poll cycles).
pub open spec fn outcome_latency_spec(o: ProbeOutcome) -> u64 {
    match o {
        ProbeOutcome::Response { code, elapsed_ms } => if is_success_code(code) {
            elapsed_ms
        } else {
            0
        },
        ProbeOutcome::TransportError { detail } => 0,
    }
}

fn success_message(code: u16, elapsed_ms: u64) -> (s: String)
    ensures
        s@ == success_message_spec(code, elapsed_ms),
{
    let mut s = String::from_str("SUCCESS : ");
    let code_text = u64_to_string(code as u64);
    s.append(code_text.as_str());
    s.append(" (");
    let ms_text = u64_to_string(elapsed_ms);
    s.append(ms_text.as_str());
    s.append(" ms)");
    proof {
        assert(s@ =~= success_message_spec(code, elapsed_ms));
    }
    s
}

fn warning_message(code: u16) -> (s: String)
    ensures
        s@ == warning_message_spec(code),
{
    let mut s = String::from_str("WARNING : code ");
    let code_text = u64_to_string(code as u64);
    s.append(code_text.as_str());
    proof {
        assert(s@ =~= warning_message_spec(code));
    }
    s
}

fn error_message(detail: &str) -> (s: String)
    ensures
        s@ == error_message_spec(detail@),
{
    let mut s = String::from_str("ERROR : ");
    s.append(detail);
    proof {
        assert(s@ =~= error_message_spec(detail@));
    }
    s
}

/// Fold one probe outcome into the pair that is written back to the store:
/// the status message and the latency sample. A success records its true
/// elapsed time; a non-success response or a transport failure records `0`.
pub fn classify_probe(outcome: &ProbeOutcome) -> (r: (String, u64))
    ensures
        r.0@ == outcome_message_spec(*outcome),
        r.1 == outcome_latency_spec(*outcome),
{
    match outcome {
        ProbeOutcome::Response { code, elapsed_ms } => {
            if *code >= 200 && *code < 300 {
                (success_message(*code, *elapsed_ms), *elapsed_ms)
            } else {
                (warning_message(*code), 0)
            }
        },
        ProbeOutcome::TransportError { detail } => (error_message(detail.as_str()), 0),
    }
}

/// The shared table of per-target status records, in registry order. All
/// mutation goes through its methods; concurrent callers serialize every
/// access through one exclusion primitive around the whole store.
pub struct StatusStore {
    sites: Vec<Website>,
}

impl View for StatusStore {
    type V = Seq<WebsiteModel>;

    closed spec fn view(&self) -> Seq<WebsiteModel> {
        Seq::new(self.sites@.len(), |i: int| self.sites@[i]@)
    }
}

impl StatusStore {
    /// Every target's history ring is within capacity. This holds of every
    /// store at every time: constructors establish it and mutation preserves
    /// it.
    #[verifier::type_invariant]
    pub open spec fn wf(self) -> bool {
        forall|i: int| 0 <= i < self@.len() ==> history_bounded(#[trigger] self@[i])
    }

    /// Build the store from the loaded registry: one record per target, in
    /// registry order, each starting in the pending state with an empty
    /// history.
    pub fn new(targets: &Vec<Target>) -> (store: StatusStore)
        ensures
            store.wf(),
            store@.len() == targets@.len(),
            forall|i: int|
                0 <= i < targets@.len() ==> {
                    &&& (#[trigger] store@[i]).name == targets@[i].name@
                    &&& store@[i].url == targets@[i].url@
                    &&& store@[i].last_status == pending_status_spec()
                    &&& store@[i].history == Seq::<u64>::empty()
                },
    {
        let mut sites: Vec<Website> = Vec::new();
        let mut i: usize = 0;
        while i < targets.len()
            invariant
                i <= targets@.len(),
                sites@.len() == i,
                forall|j: int|
                    0 <= j < i ==> {
                        &&& (#[trigger] sites@[j])@.name == targets@[j].name@
                        &&& sites@[j]@.url == targets@[j].url@
                        &&& sites@[j]@.last_status == pending_status_spec()
                        &&& sites@[j]@.history == Seq::<u64>::empty()
                    },
            decreases targets@.len() - i,
        {
            let t = &targets[i];
            let site = Website {
                url: t.url.clone(),
                name: t.name.clone(),
                last_status: pending_status(),
                history: Vec::new(),
            };
            sites.push(site);
            i = i + 1;
        }
        proof {
            assert forall|j: int| 0 <= j < sites@.len() implies history_bounded(
                #[trigger] sites@[j]@,
            ) by {
                assert(sites@[j]@.history == Seq::<u64>::empty());
            }
        }
        StatusStore { sites }
    }

    /// Number of targets; fixed after load.
    pub fn len(&self) -> (n: usize)
        ensures
            n == self@.len(),
    {
        self.sites.len()
    }

    /// The brief serialized read at the head of a poll cycle: the `(index,
    /// url)` list to probe, captured so the store need not stay locked while
    /// the network calls run.
    pub fn url_list(&self) -> (urls: Vec<(usize, String)>)
        ensures
            urls@.len() == self@.len(),
            forall|i: int|
                0 <= i < urls@.len() ==> (#[trigger] urls@[i]).0 == i && urls@[i].1@
                    == self@[i].url,
    {
        let mut urls: Vec<(usize, String)> = Vec::new();
        let mut i: usize = 0;
        while i < self.sites.len()
            invariant
                i <= self@.len(),
                urls@.len() == i,
                forall|j: int|
                    0 <= j < i ==> (#[trigger] urls@[j]).0 == j && urls@[j].1@ == self@[j].url,
            decreases self@.len() - i,
        {
            let url = self.sites[i].url.clone();
            urls.push((i, url));
            i = i + 1;
        }
        urls
    }

    /// Write one completed probe back: replace the target's status text and
    /// append the latency sample to its ring. A stale index (out of the
    /// store's bounds) is dropped silently and changes nothing.
    pub fn update_status(&mut self, index: usize, message: String, sample: u64)
        ensures
            final(self).wf(),
            final(self)@.len() == old(self)@.len(),
            index >= old(self)@.len() ==> final(self)@ == old(self)@,
            index < old(self)@.len() ==> {
                &&& forall|j: int|
                    0 <= j < old(self)@.len() && j != index ==> final(self)@[j] == old(
                        self,
                    )@[j]
                &&& final(self)@[index as int].url == old(self)@[index as int].url
                &&& final(self)@[index as int].name == old(self)@[index as int].name
                &&& final(self)@[index as int].last_status == message@
                &&& final(self)@[index as int].history == push_evict(
                    old(self)@[index as int].history,
                    sample,
                )
            },
    {
        proof {
            use_type_invariant(&*self);
        }
        let mut sites: Vec<Website> = Vec::new();
        std::mem::swap(&mut sites, &mut self.sites);
        if index < sites.len() {
            proof {
                assert(history_bounded(old(self)@[index as int]));
            }
            let site = &mut sites[index];
            site.last_status = message;
            site.push_sample(sample);
        }
        proof {
            assert forall|j: int| 0 <= j < sites@.len() implies history_bounded(
                #[trigger] sites@[j]@,
            ) by {
                if j == index {
                    lemma_history_bounded(old(self)@[index as int].history, sample);
                } else {
                    assert(history_bounded(old(self)@[j]));
                }
            }
        }
        self.sites = sites;
    }

    /// Fold one probe outcome into the store at `index`: classification and
    /// write-back in one step.
    pub fn record_probe(&mut self, index: usize, outcome: &ProbeOutcome)
        ensures
            final(self).wf(),
            final(self)@.len() == old(self)@.len(),
            index >= old(self)@.len() ==> final(self)@ == old(self)@,
            index < old(self)@.len() ==> {
                &&& forall|j: int|
                    0 <= j < old(self)@.len() && j != index ==> final(self)@[j] == old(
                        self,
                    )@[j]
                &&& final(self)@[index as int].url == old(self)@[index as int].url
                &&& final(self)@[index as int].name == old(self)@[index as int].name
                &&& final(self)@[index as int].last_status == outcome_message_spec(*outcome)
                &&& final(self)@[index as int].history == push_evict(
                    old(self)@[index as int].history,
                    outcome_latency_spec(*outcome),
                )
            },
    {
        let (message, sample) = classify_probe(outcome);
        self.update_status(index, message, sample);
    }

    /// A point-in-time copy of the whole store for the presentation feed:
    /// same records, same order.
    pub fn snapshot(&self) -> (v: Vec<Website>)
        ensures
            v@.len() == self@.len(),
            forall|i: int| 0 <= i < v@.len() ==> (#[trigger] v@[i])@ == self@[i],
    {
        let mut v: Vec<Website> = Vec::new();
        let mut i: usize = 0;
        while i < self.sites.len()
            invariant
                i <= self@.len(),
                v@.len() == i,
                forall|j: int| 0 <= j < i ==> (#[trigger] v@[j])@ == self@[j],
            decreases self@.len() - i,
        {
            let site = &self.sites[i];
            let copy = Website {
                url: site.url.clone(),
                name: site.name.clone(),
                last_status: site.last_status.clone(),
                history: copy_history(&site.history),
            };
            v.push(copy);
            i = i + 1;
        }
        v
    }
}

/// An element-for-element copy of a latency series.
pub fn copy_history(h: &Vec<u64>) -> (r: Vec<u64>)
    ensures
        r@ == h@,
{
    let mut r: Vec<u64> = Vec::new();
    let mut i: usize = 0;
    while i < h.len()
        invariant
            i <= h@.len(),
            r@ == h@.subrange(0, i as int),
        decreases h@.len() - i,
    {
        r.push(h[i]);
        i = i + 1;
    }
    proof {
        assert(r@ =~= h@);
    }
    r
}

} // verus!
