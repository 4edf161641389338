//! Broker routing: tool queues, the procedure-to-routing-key table, and the
//! topology the controller declares at startup.
//!
//! One durable direct exchange carries all traffic. Each tool has a durable
//! queue bound under its routing key; the `results` queue is bound under the
//! configured results routing key. A request is published under the routing
//! key of its procedure; a procedure without one is refused.

use vstd::prelude::*;
use vstd::string::StrSliceExecFns;
use vstd::string::StringExecFns;

verus! {

/// One tool queue: its name and the routing key it is bound under.
#[derive(Debug)]
pub struct ToolQueue {
    /// The queue's (and tool's) name.
    pub name: String,
    /// The routing key the queue is bound under.
    pub routing_key: String,
}

/// The mathematical form of a tool queue.
pub struct ToolQueueV {
    pub name: Seq<char>,
    pub routing_key: Seq<char>,
}

impl View for ToolQueue {
    type V = ToolQueueV;

    open spec fn view(&self) -> ToolQueueV {
        ToolQueueV { name: self.name@, routing_key: self.routing_key@ }
    }
}

/// A failure of the broker controller.
#[derive(Debug)]
pub enum RabbitMqControllerError {
    /// A payload could not be serialized or deserialized.
    SerdeJson(String),
    /// The broker refused an operation; the broker's message.
    LapinError(String),
    /// The delivery stream ended.
    EmptyIterator,
    /// A request named a procedure with no configured routing key.
    UnknownToolProcedure(String),
}

/// The index of the first `sep` in `s`, if any.
pub open spec fn first_index_of(s: Seq<char>, sep: char) -> Option<int>
    decreases s.len(),
{
    if s.len() == 0 {
        None
    } else if s[0] == sep {
        Some(0)
    } else {
        match first_index_of(s.subrange(1, s.len() as int), sep) {
            Some(i) => Some(i + 1),
            None => None,
        }
    }
}

/// Reads one `name:routing_key` pair; without a colon, the whole text is
/// both the name and the routing key.
pub fn parse_tool_queue(src: &str) -> (r: ToolQueue)
    ensures
        match first_index_of(src@, ':') {
            Some(i) => r@.name == src@.subrange(0, i) && r@.routing_key == src@.subrange(
                i + 1,
                src@.len() as int,
            ),
            None => r@.name == src@ && r@.routing_key == src@,
        },
{
    let cs = crate::text::str_to_chars(src);
    let mut i: usize = 0;
    while i < cs.len()
        invariant
            cs@ == src@,
            i <= cs@.len(),
            forall|j: int| 0 <= j < i ==> cs@[j] != ':',
        decreases cs@.len() - i,
    {
        if cs[i] == ':' {
            proof {
                lemma_first_index_found(src@, ':', i as int);
            }
            let mut name: Vec<char> = Vec::new();
            crate::json::append_range(&mut name, &cs, 0, i);
            let mut key: Vec<char> = Vec::new();
            crate::json::append_range(&mut key, &cs, i + 1, cs.len());
            proof {
                assert(name@ =~= src@.subrange(0, i as int));
                assert(key@ =~= src@.subrange(i + 1, src@.len() as int));
            }
            return ToolQueue {
                name: crate::text::chars_to_string(&name),
                routing_key: crate::text::chars_to_string(&key),
            };
        }
        i = i + 1;
    }
    proof {
        lemma_first_index_none(src@, ':');
    }
    ToolQueue { name: String::from_str(src), routing_key: String::from_str(src) }
}

/// With `s[i]` the first occurrence of `sep`, `first_index_of` finds `i`.
proof fn lemma_first_index_found(s: Seq<char>, sep: char, i: int)
    requires
        0 <= i < s.len(),
        s[i] == sep,
        forall|j: int| 0 <= j < i ==> s[j] != sep,
    ensures
        first_index_of(s, sep) == Some(i),
    decreases s.len(),
{
    if i > 0 {
        lemma_first_index_found(s.subrange(1, s.len() as int), sep, i - 1);
    }
}

/// With no occurrence of `sep`, `first_index_of` finds nothing.
proof fn lemma_first_index_none(s: Seq<char>, sep: char)
    requires
        forall|j: int| 0 <= j < s.len() ==> s[j] != sep,
    ensures
        first_index_of(s, sep) is None,
    decreases s.len(),
{
    if s.len() > 0 {
        lemma_first_index_none(s.subrange(1, s.len() as int), sep);
    }
}

/// The routing key under which a procedure is published: the key of the
/// first configured tool queue bearing that name.
pub open spec fn routing_key_of(queues: Seq<ToolQueueV>, procedure: Seq<char>) -> Option<
    Seq<char>,
>
    decreases queues.len(),
{
    if queues.len() == 0 {
        None
    } else if queues[0].name == procedure {
        Some(queues[0].routing_key)
    } else {
        routing_key_of(queues.subrange(1, queues.len() as int), procedure)
    }
}

/// The publish-side map from procedure name to routing key, built from the
/// configured tool queues at startup.
#[derive(Debug)]
pub struct RoutingTable {
    queues: Vec<ToolQueue>,
}

impl View for RoutingTable {
    type V = Seq<ToolQueueV>;

    closed spec fn view(&self) -> Seq<ToolQueueV> {
        self.queues@.map_values(|q: ToolQueue| q@)
    }
}

impl RoutingTable {
    /// A table of the given queues, in order.
    pub fn new(queues: Vec<ToolQueue>) -> (r: RoutingTable)
        ensures
            r@ == queues@.map_values(|q: ToolQueue| q@),
    {
        RoutingTable { queues }
    }

    /// The routing key for `procedure`: `Ok` exactly when some configured
    /// queue bears that name, else the unknown-procedure error naming it.
    pub fn routing_key_for(&self, procedure: &String) -> (r: Result<
        String,
        RabbitMqControllerError,
    >)
        ensures
            match r {
                Ok(key) => routing_key_of(self@, procedure@) == Some(key@),
                Err(e) => routing_key_of(self@, procedure@) is None && (e matches
                RabbitMqControllerError::UnknownToolProcedure(p) && p@ == procedure@),
            },
    {
        let mut i: usize = 0;
        proof {
            assert(self@.subrange(0, self@.len() as int) =~= self@);
        }
        while i < self.queues.len()
            invariant
                i <= self.queues@.len(),
                forall|j: int| 0 <= j < i ==> (#[trigger] self.queues@[j])@.name != procedure@,
                routing_key_of(self@, procedure@) == routing_key_of(
                    self@.subrange(i as int, self@.len() as int),
                    procedure@,
                ),
                self@ == self.queues@.map_values(|q: ToolQueue| q@),
            decreases self.queues@.len() - i,
        {
            if self.queues[i].name.eq(procedure) {
                proof {
                    let rest = self@.subrange(i as int, self@.len() as int);
                    assert(rest[0] == self@[i as int]);
                }
                return Ok(self.queues[i].routing_key.clone());
            }
            proof {
                let rest = self@.subrange(i as int, self@.len() as int);
                assert(rest[0] == self@[i as int]);
                assert(rest.subrange(1, rest.len() as int) =~= self@.subrange(
                    i + 1,
                    self@.len() as int,
                ));
            }
            i = i + 1;
        }
        proof {
            assert(self@.subrange(self@.len() as int, self@.len() as int).len() == 0);
        }
        Err(RabbitMqControllerError::UnknownToolProcedure(procedure.clone()))
    }
}

/// One step of the topology the controller declares at startup.
#[derive(Debug)]
pub enum TopologyStep {
    /// Declare the shared exchange, durable and direct.
    DeclareExchange { exchange: String },
    /// Declare a durable queue.
    DeclareQueue { queue: String },
    /// Bind a queue to the exchange under a routing key.
    BindQueue { queue: String, exchange: String, routing_key: String },
}

/// The mathematical form of a topology step.
pub enum TopologyStepV {
    DeclareExchange { exchange: Seq<char> },
    DeclareQueue { queue: Seq<char> },
    BindQueue { queue: Seq<char>, exchange: Seq<char>, routing_key: Seq<char> },
}

impl View for TopologyStep {
    type V = TopologyStepV;

    open spec fn view(&self) -> TopologyStepV {
        match self {
            TopologyStep::DeclareExchange { exchange } => TopologyStepV::DeclareExchange {
                exchange: exchange@,
            },
            TopologyStep::DeclareQueue { queue } => TopologyStepV::DeclareQueue { queue: queue@ },
            TopologyStep::BindQueue { queue, exchange, routing_key } => TopologyStepV::BindQueue {
                queue: queue@,
                exchange: exchange@,
                routing_key: routing_key@,
            },
        }
    }
}

/// The declarations for one tool queue: declare it durable, bind it.
pub open spec fn queue_steps(exchange: Seq<char>, q: ToolQueueV) -> Seq<TopologyStepV> {
    seq![
        TopologyStepV::DeclareQueue { queue: q.name },
        TopologyStepV::BindQueue { queue: q.name, exchange, routing_key: q.routing_key },
    ]
}

/// The whole startup topology: the exchange, each tool queue with its
/// binding, in configuration order.
pub open spec fn topology_steps(exchange: Seq<char>, queues: Seq<ToolQueueV>, k: int) -> Seq<
    TopologyStepV,
>
    decreases k,
{
    if k <= 0 || k > queues.len() {
        seq![TopologyStepV::DeclareExchange { exchange }]
    } else {
        topology_steps(exchange, queues, k - 1) + queue_steps(exchange, queues[k - 1])
    }
}

/// The ordered declarations the broker controller performs at startup:
/// the durable direct exchange first, then, for each configured tool, its
/// durable queue and its binding.
pub fn setup_exchange_and_queues(exchange: &String, queues: &Vec<ToolQueue>) -> (r: Vec<
    TopologyStep,
>)
    ensures
        r@.map_values(|s: TopologyStep| s@) == topology_steps(
            exchange@,
            queues@.map_values(|q: ToolQueue| q@),
            queues@.len() as int,
        ),
{
    let mut r: Vec<TopologyStep> = Vec::new();
    r.push(TopologyStep::DeclareExchange { exchange: exchange.clone() });
    let mut k: usize = 0;
    while k < queues.len()
        invariant
            k <= queues@.len(),
            r@.map_values(|s: TopologyStep| s@) == topology_steps(
                exchange@,
                queues@.map_values(|q: ToolQueue| q@),
                k as int,
            ),
        decreases queues@.len() - k,
    {
        r.push(TopologyStep::DeclareQueue { queue: queues[k].name.clone() });
        r.push(
            TopologyStep::BindQueue {
                queue: queues[k].name.clone(),
                exchange: exchange.clone(),
                routing_key: queues[k].routing_key.clone(),
            },
        );
        k = k + 1;
        proof {
            assert(r@.map_values(|s: TopologyStep| s@) =~= topology_steps(
                exchange@,
                queues@.map_values(|q: ToolQueue| q@),
                k as int,
            ));
        }
    }
    proof {
        assert(r@.map_values(|s: TopologyStep| s@) =~= topology_steps(
            exchange@,
            queues@.map_values(|q: ToolQueue| q@),
            queues@.len() as int,
        ));
    }
    r
}

} // verus!
