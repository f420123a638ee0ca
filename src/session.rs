//! The per-frame coordinator of a monitoring session: it ingests received
//! lines into the log and the graph, keeps the status line, and decides when
//! the one-shot sync command is due.
use vstd::prelude::*;
use crate::graph::{GraphModel, GraphState};
use crate::telemetry::{classify, parse_log, EventSpec, GraphEvent};

verus! {

/// Milliseconds after a successful launch at which the sync command is due.
pub const SYNC_DELAY_MS: u64 = 1000;

/// The graph after one classified line.
pub open spec fn apply_event(g: GraphModel, e: Option<EventSpec>) -> GraphModel {
    match e {
        Some(EventSpec::NodeAdded { id, node_type, .. }) => g.with_node(id, node_type),
        Some(EventSpec::EdgeAdded { source, target, .. }) => g.with_edge(source, target),
        _ => g,
    }
}

/// The graph after the lines `lines`, in order.
pub open spec fn apply_lines(g: GraphModel, lines: Seq<String>) -> GraphModel
    decreases lines.len(),
{
    if lines.len() == 0 {
        g
    } else {
        apply_event(apply_lines(g, lines.drop_last()), classify(lines.last()@))
    }
}

/// Lines taken over two frames change the graph as the same lines taken in
/// one frame, in the same order.
pub proof fn law_lines_in_batches(g: GraphModel, a: Seq<String>, b: Seq<String>)
    ensures
        apply_lines(apply_lines(g, a), b) == apply_lines(g, a + b),
    decreases b.len(),
{
    if b.len() == 0 {
        assert(a + b =~= a);
    } else {
        law_lines_in_batches(g, a, b.drop_last());
        assert((a + b).drop_last() =~= a + b.drop_last());
    }
}

pub struct CommandCenter {
    /// The status line.
    pub label: String,
    /// Every line received, and every command entered, in order.
    pub logs: Vec<String>,
    pub graph: GraphState,
    /// When the pending sync was armed, in milliseconds on the caller's clock.
    pub sync_armed_at: Option<u64>,
}

impl CommandCenter {
    pub open spec fn wf(&self) -> bool {
        self.graph.wf()
    }

    /// Whether the pending sync is due at time `now_ms`.
    pub open spec fn sync_due(&self, now_ms: u64) -> bool {
        match self.sync_armed_at {
            Some(t) => t <= now_ms && now_ms - t >= SYNC_DELAY_MS,
            None => false,
        }
    }

    pub fn new() -> (r: CommandCenter)
        ensures
            r.wf(),
            r.label@ == "Ready"@,
            r.logs@.len() == 0,
            r.graph@ == GraphModel::empty(),
            r.sync_armed_at is None,
    {
        CommandCenter {
            label: String::from_str("Ready"),
            logs: Vec::new(),
            graph: GraphState::new(),
            sync_armed_at: None,
        }
    }

    /// Records the outcome of a launch at time `now_ms`: on success the status
    /// is `ONLINE` and the sync is armed; on failure the status carries the error.
    pub fn launched(&mut self, outcome: Result<(), String>, now_ms: u64)
        ensures
            final(self).logs == old(self).logs,
            final(self).graph == old(self).graph,
            match outcome {
                Ok(_) => final(self).label@ == "ONLINE"@ && final(self).sync_armed_at == Some(now_ms),
                Err(e) => final(self).label@ == "ERROR: "@ + e@ && final(self).sync_armed_at
                    == old(self).sync_armed_at,
            },
    {
        match outcome {
            Ok(_) => {
                self.label = String::from_str("ONLINE");
                self.sync_armed_at = Some(now_ms);
            },
            Err(e) => {
                self.label = String::from_str("ERROR: ").concat(e.as_str());
            },
        }
    }

    /// At time `now_ms`, returns the sync command if it is due, and disarms it:
    /// it is sent at most once per launch.
    pub fn poll_sync(&mut self, now_ms: u64) -> (r: Option<String>)
        ensures
            final(self).label == old(self).label,
            final(self).logs == old(self).logs,
            final(self).graph == old(self).graph,
            r is Some == old(self).sync_due(now_ms),
            r matches Some(c) ==> c@ == "/sync"@ && final(self).sync_armed_at is None,
            r is None ==> final(self).sync_armed_at == old(self).sync_armed_at,
    {
        match self.sync_armed_at {
            Some(t) => {
                if t <= now_ms && now_ms - t >= SYNC_DELAY_MS {
                    self.sync_armed_at = None;
                    Some(String::from_str("/sync"))
                } else {
                    None
                }
            },
            None => None,
        }
    }

    /// Takes one received line: applies its event to the graph, then keeps
    /// the line in the log.
    pub fn receive_line(&mut self, line: String)
        requires
            old(self).wf(),
        ensures
            final(self).wf(),
            final(self).label == old(self).label,
            final(self).sync_armed_at == old(self).sync_armed_at,
            final(self).logs@ == old(self).logs@.push(line),
            final(self).graph@ == apply_event(old(self).graph@, classify(line@)),
    {
        match parse_log(line.as_str()) {
            Some(GraphEvent::NodeAdded { id, node_type, .. }) => self.graph.add_node(id, node_type),
            Some(GraphEvent::EdgeAdded { source, target, .. }) => self.graph.add_edge(
                source,
                target,
            ),
            _ => {},
        }
        self.logs.push(line);
    }

    /// Takes the lines received since the last frame, in the order given.
    pub fn receive_lines(&mut self, lines: Vec<String>)
        requires
            old(self).wf(),
        ensures
            final(self).wf(),
            final(self).label == old(self).label,
            final(self).sync_armed_at == old(self).sync_armed_at,
            final(self).logs@ == old(self).logs@ + lines@,
            final(self).graph@ == apply_lines(old(self).graph@, lines@),
    {
        let ghost start = *self;
        let mut i: usize = 0;
        while i < lines.len()
            invariant
                i <= lines@.len(),
                self.wf(),
                self.label == start.label,
                self.sync_armed_at == start.sync_armed_at,
                self.logs@ == start.logs@ + lines@.subrange(0, i as int),
                self.graph@ == apply_lines(start.graph@, lines@.subrange(0, i as int)),
            decreases lines@.len() - i,
        {
            assert(lines@.subrange(0, i + 1).drop_last() =~= lines@.subrange(0, i as int));
            self.receive_line(lines[i].clone());
            i = i + 1;
            assert(self.logs@ =~= start.logs@ + lines@.subrange(0, i as int));
        }
        assert(lines@.subrange(0, lines@.len() as int) =~= lines@);
    }

    /// Takes a command entered by the user: an empty one is ignored; any
    /// other is logged as `USER > <text>`, and `true` says it is to be sent.
    pub fn submit(&mut self, text: &str) -> (r: bool)
        ensures
            final(self).label == old(self).label,
            final(self).graph == old(self).graph,
            final(self).sync_armed_at == old(self).sync_armed_at,
            r == (text@.len() > 0),
            r ==> final(self).logs@.len() == old(self).logs@.len() + 1 && final(self).logs@.drop_last()
                == old(self).logs@ && final(self).logs@.last()@ == "USER > "@ + text@,
            !r ==> final(self).logs@ == old(self).logs@,
    {
        if text.is_empty() {
            return false;
        }
        self.logs.push(String::from_str("USER > ").concat(text));
        true
    }
}

/// The line as forwarded from the child's error stream: tagged `[STDERR] `.
pub fn tag_stderr(line: &str) -> (r: String)
    ensures
        r@ == "[STDERR] "@ + line@,
{
    String::from_str("[STDERR] ").concat(line)
}

} // verus!
