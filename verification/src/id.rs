//! Identifiers of tasks and nodes, and how they are written out.

use vstd::prelude::*;

verus! {

/// The decimal digit `d`.
pub open spec fn digit_char(d: nat) -> char {
    (('0' as u32) + d) as char
}

/// `n` in decimal, without leading zeros.
pub open spec fn decimal(n: nat) -> Seq<char>
    decreases n,
{
    if n < 10 {
        seq![digit_char(n)]
    } else {
        decimal(n / 10).push(digit_char(n % 10))
    }
}

fn digit(d: u64) -> (s: &'static str)
    requires
        d < 10,
    ensures
        s@ == seq![digit_char(d as nat)],
{
    proof {
        reveal_strlit("0");
        reveal_strlit("1");
        reveal_strlit("2");
        reveal_strlit("3");
        reveal_strlit("4");
        reveal_strlit("5");
        reveal_strlit("6");
        reveal_strlit("7");
        reveal_strlit("8");
        reveal_strlit("9");
    }
    match d {
        0 => "0",
        1 => "1",
        2 => "2",
        3 => "3",
        4 => "4",
        5 => "5",
        6 => "6",
        7 => "7",
        8 => "8",
        _ => "9",
    }
}

fn append_decimal(s: &mut String, n: u64)
    ensures
        final(s)@ == old(s)@ + decimal(n as nat),
    decreases n,
{
    if n < 10 {
        s.append(digit(n));
    } else {
        append_decimal(s, n / 10);
        s.append(digit(n % 10));
    }
}

/// The text before a number, the number, and the text after it.
pub(crate) fn labelled(before: &str, n: u64, after: &str) -> (s: String)
    ensures
        s@ == before@ + decimal(n as nat) + after@,
{
    let mut s = before.to_owned();
    append_decimal(&mut s, n);
    s.append(after);
    s
}

/// A unique identifier for a task.
#[derive(Debug, PartialEq, Eq, PartialOrd, Ord, Hash, Clone, Copy, Structural)]
pub struct TaskId(pub u64);

impl TaskId {
    /// The identifier as text: `Task(7)`.
    pub fn to_string(&self) -> (s: String)
        ensures
            s@ == "Task("@ + decimal(self.0 as nat) + ")"@,
    {
        labelled("Task(", self.0, ")")
    }
}

/// A unique identifier for a node.
#[derive(Debug, PartialEq, Eq, PartialOrd, Ord, Hash, Clone, Copy, Structural)]
pub struct NodeId(pub u64);

impl NodeId {
    /// The identifier of the node that the main task runs on.
    pub fn zero() -> (id: NodeId)
        ensures
            id == NodeId(0),
    {
        NodeId(0)
    }

    /// The identifier as text: `Node(7)`.
    pub fn to_string(&self) -> (s: String)
        ensures
            s@ == "Node("@ + decimal(self.0 as nat) + ")"@,
    {
        labelled("Node(", self.0, ")")
    }
}

} // verus!
