//! Generic Attribute Profile (GATT): the requests that remote devices make
//! of local services and that the library makes of remote ones.
use vstd::prelude::*;
use crate::text::{owned, str_eq};

pub mod local;
pub mod remote;

verus! {

/// Write operation type.
#[derive(Clone, Copy, Debug, PartialEq, Eq, Structural)]
pub enum WriteOp {
    /// Write without response.
    Command,
    /// Write with response.
    Request,
    /// Reliable write.
    Reliable,
}

/// Text of a write operation type.
pub open spec fn write_op_text(op: WriteOp) -> Seq<char> {
    match op {
        WriteOp::Command => "command"@,
        WriteOp::Request => "request"@,
        WriteOp::Reliable => "reliable"@,
    }
}

impl WriteOp {
    /// The text of the operation type (its `Display` form).
    pub fn to_string(&self) -> (r: String)
        ensures
            r@ == write_op_text(*self),
    {
        match self {
            WriteOp::Command => owned("command"),
            WriteOp::Request => owned("request"),
            WriteOp::Reliable => owned("reliable"),
        }
    }

    /// The operation type with the given text (its `FromStr` form).
    pub fn from_str(s: &str) -> (r: Option<WriteOp>)
        ensures
            r matches Some(op) ==> write_op_text(op) == s@,
            r is None ==> forall|op: WriteOp| write_op_text(op) != s@,
    {
        if str_eq(s, "command") {
            Some(WriteOp::Command)
        } else if str_eq(s, "request") {
            Some(WriteOp::Request)
        } else if str_eq(s, "reliable") {
            Some(WriteOp::Reliable)
        } else {
            proof {
                assert forall|op: WriteOp| write_op_text(op) != s@ by {
                    match op {
                        WriteOp::Command => {},
                        WriteOp::Request => {},
                        WriteOp::Reliable => {},
                    }
                }
            }
            None
        }
    }

    /// The default operation type: write with response.
    pub fn default() -> (r: WriteOp)
        ensures
            r == WriteOp::Request,
    {
        WriteOp::Request
    }
}

/// The texts of distinct operation types differ, so a type read back from
/// its text is the same type.
pub proof fn lemma_write_op_text_injective(a: WriteOp, b: WriteOp)
    requires
        write_op_text(a) == write_op_text(b),
    ensures
        a == b,
{
    reveal_strlit("command");
    reveal_strlit("request");
    reveal_strlit("reliable");
    assert("command"@.len() == 7 && "request"@.len() == 7 && "reliable"@.len() == 8);
    assert("command"@[0] == 'c' && "request"@[0] == 'r');
}

} // verus!
