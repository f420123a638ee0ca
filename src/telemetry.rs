//! Classification of telemetry lines into graph events.
use vstd::prelude::*;
use crate::text::{
    chars_of, contains, enclosed_field, field_enclosed, field_first, field_second, first_field,
    find_exec, second_field, string_of, trim, trim_exec, unbracket, unbracket_exec,
};

verus! {

/// Activation level, in thousandths: 1000 is full activation.
pub const FULL_ACTIVATION: u32 = 1000;

/// A structured graph mutation extracted from one telemetry line.
#[derive(Debug, Clone)]
pub enum GraphEvent {
    NodeAdded { id: String, label: String, node_type: String },
    EdgeAdded { source: String, target: String, relation: String },
    /// `level_permille` is the activation level in thousandths.
    Activation { id: String, level_permille: u32 },
}

/// The mathematical content of a `GraphEvent`.
pub enum EventSpec {
    NodeAdded { id: Seq<char>, label: Seq<char>, node_type: Seq<char> },
    EdgeAdded { source: Seq<char>, target: Seq<char>, relation: Seq<char> },
    Activation { id: Seq<char>, level_permille: u32 },
}

impl View for GraphEvent {
    type V = EventSpec;

    open spec fn view(&self) -> EventSpec {
        match self {
            GraphEvent::NodeAdded { id, label, node_type } => EventSpec::NodeAdded {
                id: id@,
                label: label@,
                node_type: node_type@,
            },
            GraphEvent::EdgeAdded { source, target, relation } => EventSpec::EdgeAdded {
                source: source@,
                target: target@,
                relation: relation@,
            },
            GraphEvent::Activation { id, level_permille } => EventSpec::Activation {
                id: id@,
                level_permille: *level_permille,
            },
        }
    }
}

/// `[Perception] Node: <id> | Type: <type>`: the id is the trimmed text after
/// `Node:` in the part before the first `|`, or `?`; the type is the trimmed
/// text after `Type:` in the part after it, or `CONCEPT`.
pub open spec fn node_record(line: Seq<char>) -> EventSpec {
    let id = match field_second(field_first(line, seq!['|']), "Node:"@) {
        Some(f) => trim(f),
        None => "?"@,
    };
    let node_type = match field_second(line, seq!['|']) {
        Some(seg) => match field_second(seg, "Type:"@) {
            Some(f) => trim(f),
            None => "CONCEPT"@,
        },
        None => "CONCEPT"@,
    };
    EventSpec::NodeAdded { id, label: id, node_type }
}

/// `[Perception] Active Concept: <id>`.
pub open spec fn active_concept(line: Seq<char>) -> EventSpec
    recommends
        field_second(line, "Active Concept:"@) is Some,
{
    let id = trim(field_second(line, "Active Concept:"@)->0);
    EventSpec::NodeAdded { id, label: id, node_type: "CONCEPT"@ }
}

/// `[Teaching] Learned: "<source>" -> [<target>]`: the source is the text
/// between the first two `"` left of `->`, or `?` where there are not two;
/// the target is the text right of `->`, without its enclosing `[` `]`, trimmed.
pub open spec fn learned_edge(line: Seq<char>) -> EventSpec
    recommends
        field_second(line, "->"@) is Some,
{
    let source = match field_enclosed(field_first(line, "->"@), seq!['"']) {
        Some(f) => f,
        None => "?"@,
    };
    let target = trim(unbracket(trim(field_second(line, "->"@)->0)));
    EventSpec::EdgeAdded { source, target, relation: "TRIGGERS"@ }
}

/// `[Curiosity] Suggests: ... on <id> (...)`: the id is the text after ` on `,
/// cut at the first `(`, trimmed.
pub open spec fn suggestion(line: Seq<char>) -> EventSpec
    recommends
        field_second(line, " on "@) is Some,
{
    let id = trim(field_first(field_second(line, " on "@)->0, seq!['(']));
    EventSpec::Activation { id, level_permille: FULL_ACTIVATION }
}

/// The event that a telemetry line denotes: the first convention that matches
/// wins, and a line that matches none denotes no event.
pub open spec fn classify(line: Seq<char>) -> Option<EventSpec> {
    if contains(line, "[Perception] Node:"@) {
        Some(node_record(line))
    } else if contains(line, "[Perception] Active Concept:"@) && field_second(
        line,
        "Active Concept:"@,
    ) is Some {
        Some(active_concept(line))
    } else if contains(line, "[Teaching] Learned:"@) && field_second(line, "->"@) is Some {
        Some(learned_edge(line))
    } else if contains(line, "[Curiosity] Suggests:"@) && field_second(line, " on "@) is Some {
        Some(suggestion(line))
    } else {
        None
    }
}

fn has(s: &Vec<char>, marker: &str) -> (r: bool)
    ensures
        r == contains(s@, marker@),
{
    let p = chars_of(marker);
    find_exec(s, &p, 0).is_some()
}

fn parse_node_record(line: &Vec<char>) -> (r: GraphEvent)
    ensures
        r@ == node_record(line@),
{
    let bar = chars_of("|");
    let node_key = chars_of("Node:");
    let type_key = chars_of("Type:");
    proof {
        reveal_strlit("|");
    }
    assert(bar@ =~= seq!['|']);
    let head = first_field(line, &bar);
    let id = match second_field(&head, &node_key) {
        Some(f) => trim_exec(&f),
        None => chars_of("?"),
    };
    let node_type = match second_field(line, &bar) {
        Some(seg) => match second_field(&seg, &type_key) {
            Some(f) => trim_exec(&f),
            None => chars_of("CONCEPT"),
        },
        None => chars_of("CONCEPT"),
    };
    GraphEvent::NodeAdded { id: string_of(&id), label: string_of(&id), node_type: string_of(&node_type) }
}

/// Classifies one telemetry line; never fails, and yields at most one event.
pub fn parse_log(line: &str) -> (r: Option<GraphEvent>)
    ensures
        r matches Some(e) ==> classify(line@) == Some(e@),
        r is None ==> classify(line@) is None,
{
    let s = chars_of(line);
    if has(&s, "[Perception] Node:") {
        return Some(parse_node_record(&s));
    }
    if has(&s, "[Perception] Active Concept:") {
        let key = chars_of("Active Concept:");
        if let Some(f) = second_field(&s, &key) {
            let id = trim_exec(&f);
            let concept = chars_of("CONCEPT");
            return Some(
                GraphEvent::NodeAdded {
                    id: string_of(&id),
                    label: string_of(&id),
                    node_type: string_of(&concept),
                },
            );
        }
    }
    if has(&s, "[Teaching] Learned:") {
        let arrow = chars_of("->");
        if let Some(right) = second_field(&s, &arrow) {
            let quote = chars_of("\"");
            proof {
                reveal_strlit("\"");
            }
            assert(quote@ =~= seq!['"']);
            let left = first_field(&s, &arrow);
            let source = match enclosed_field(&left, &quote) {
                Some(f) => f,
                None => chars_of("?"),
            };
            let target = trim_exec(&unbracket_exec(&trim_exec(&right)));
            let relation = chars_of("TRIGGERS");
            return Some(
                GraphEvent::EdgeAdded {
                    source: string_of(&source),
                    target: string_of(&target),
                    relation: string_of(&relation),
                },
            );
        }
    }
    if has(&s, "[Curiosity] Suggests:") {
        let on = chars_of(" on ");
        if let Some(rest) = second_field(&s, &on) {
            let paren = chars_of("(");
            proof {
                reveal_strlit("(");
            }
            assert(paren@ =~= seq!['(']);
            let id = trim_exec(&first_field(&rest, &paren));
            return Some(GraphEvent::Activation { id: string_of(&id), level_permille: FULL_ACTIVATION });
        }
    }
    None
}

} // verus!
