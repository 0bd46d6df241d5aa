use vstd::prelude::*;
use vstd::string::StringExecFns;

verus! {

/// One serialized message to write on a link.
#[derive(Debug, Clone, PartialEq, Eq)]
pub struct SendAll {
    pub data: String,
}

impl SendAll {
    /// The frame written on the wire: the message and a closing newline.
    pub fn into_line(self) -> (r: String)
        ensures
            r@ == self.data@.push('\n'),
    {
        let mut line = self.data;
        line.append("\n");
        proof {
            reveal_strlit("\n");
            assert(line@ =~= self.data@.push('\n'));
        }
        line
    }
}

/// One line read from a link, without its newline.
#[derive(Debug, Clone, PartialEq, Eq)]
pub struct RecvAll {
    pub data: String,
}

} // verus!
