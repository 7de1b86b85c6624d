//! The kind of change a store delta records, with its canonical names.

use vstd::prelude::*;

verus! {

/// The operation of a store delta.
#[derive(Clone, Copy, Debug, PartialEq, Eq, Structural, Hash, PartialOrd, Ord)]
pub enum Operation {
    Unset,
    Create,
    Update,
    Delete,
}

/// The canonical name of an operation.
pub open spec fn operation_name(op: Operation) -> Seq<char> {
    match op {
        Operation::Unset => seq!['U', 'N', 'S', 'E', 'T'],
        Operation::Create => seq!['C', 'R', 'E', 'A', 'T', 'E'],
        Operation::Update => seq!['U', 'P', 'D', 'A', 'T', 'E'],
        Operation::Delete => seq!['D', 'E', 'L', 'E', 'T', 'E'],
    }
}

/// The operation whose canonical name is `name`, if any.
pub open spec fn operation_named(name: Seq<char>) -> Option<Operation> {
    if name == operation_name(Operation::Unset) {
        Some(Operation::Unset)
    } else if name == operation_name(Operation::Create) {
        Some(Operation::Create)
    } else if name == operation_name(Operation::Update) {
        Some(Operation::Update)
    } else if name == operation_name(Operation::Delete) {
        Some(Operation::Delete)
    } else {
        None
    }
}

fn str_equals(a: &str, b: &str) -> (r: bool)
    ensures
        r == (a@ == b@),
{
    let n = a.unicode_len();
    if n != b.unicode_len() {
        return false;
    }
    let mut i: usize = 0;
    while i < n
        invariant
            n == a@.len(),
            n == b@.len(),
            i <= n,
            forall|j: int| 0 <= j < i ==> a@[j] == b@[j],
        decreases n - i,
    {
        if a.get_char(i) != b.get_char(i) {
            return false;
        }
        i += 1;
    }
    proof {
        assert(a@ =~= b@);
    }
    true
}

impl Operation {
    /// The canonical name of the operation.
    pub fn as_str_name(&self) -> (r: &'static str)
        ensures
            r@ == operation_name(*self),
    {
        proof {
            reveal_strlit("UNSET");
            reveal_strlit("CREATE");
            reveal_strlit("UPDATE");
            reveal_strlit("DELETE");
        }
        match self {
            Operation::Unset => "UNSET",
            Operation::Create => "CREATE",
            Operation::Update => "UPDATE",
            Operation::Delete => "DELETE",
        }
    }

    /// The operation with the canonical name `value`; `None` for any other text.
    pub fn from_str_name(value: &str) -> (r: Option<Operation>)
        ensures
            r == operation_named(value@),
    {
        proof {
            reveal_strlit("UNSET");
            reveal_strlit("CREATE");
            reveal_strlit("UPDATE");
            reveal_strlit("DELETE");
            assert("UNSET"@ =~= operation_name(Operation::Unset));
            assert("CREATE"@ =~= operation_name(Operation::Create));
            assert("UPDATE"@ =~= operation_name(Operation::Update));
            assert("DELETE"@ =~= operation_name(Operation::Delete));
        }
        if str_equals(value, "UNSET") {
            Some(Operation::Unset)
        } else if str_equals(value, "CREATE") {
            Some(Operation::Create)
        } else if str_equals(value, "UPDATE") {
            Some(Operation::Update)
        } else if str_equals(value, "DELETE") {
            Some(Operation::Delete)
        } else {
            None
        }
    }
}

} // verus!
