//! The `NOOP` command: an arbitrary argument string, echoed back on the
//! wire and ignored by the server.

use vstd::prelude::*;

use crate::parse_helpers::{
    copy_range, eat_spaces, find_crlf, find_crlf_at, spaces_end, append_bytes, CR, LF, SP,
};

verus! {

/// `N`
pub const CH_N: u8 = 78;

/// `O`
pub const CH_O: u8 = 79;

/// `P`
pub const CH_P: u8 = 80;

pub struct NoopCommand {
    pub string: Vec<u8>,
}

/// The wire image of a `NOOP` command with this argument string.
pub open spec fn noop_wire(string: Seq<u8>) -> Seq<u8> {
    seq![CH_N, CH_O, CH_O, CH_P, SP] + string + seq![CR, LF]
}

/// Where a `NOOP` argument line parses: leading spaces are skipped, the
/// argument runs to the first CRLF (kept verbatim, inner spaces included),
/// and the CRLF is consumed.
pub open spec fn noop_args_spec(s: Seq<u8>) -> Option<(Seq<u8>, int)> {
    let i0 = spaces_end(s, 0);
    let j = find_crlf(s, i0);
    if j < s.len() {
        Some((s.subrange(i0, j), j + 2))
    } else {
        None
    }
}

impl NoopCommand {
    pub fn new(string: Vec<u8>) -> (r: NoopCommand)
        ensures
            r.string == string,
    {
        NoopCommand { string }
    }

    pub fn string(&self) -> (r: &Vec<u8>)
        ensures
            r == &self.string,
    {
        &self.string
    }

    /// Append the command's wire image to `w`.
    pub fn send_to(&self, w: &mut Vec<u8>)
        ensures
            final(w)@ == old(w)@ + noop_wire(self.string@),
    {
        w.push(CH_N);
        w.push(CH_O);
        w.push(CH_O);
        w.push(CH_P);
        w.push(SP);
        append_bytes(w, self.string.as_slice());
        w.push(CR);
        w.push(LF);
        proof {
            assert(w@ =~= old(w)@ + noop_wire(self.string@));
        }
    }

    /// Take the command out of whatever borrowed context produced it.
    pub fn take_ownership(self) -> (r: NoopCommand)
        ensures
            r == self,
    {
        self
    }
}

/// Parse the arguments of a `NOOP` command: the argument string and the
/// position just after the CRLF.
pub fn command_noop_args(s: &[u8]) -> (r: Option<(NoopCommand, usize)>)
    ensures
        match r {
            Some(p) => noop_args_spec(s@) matches Some(q) && p.0.string@ == q.0 && p.1 == q.1,
            None => noop_args_spec(s@) is None,
        },
{
    let i0 = eat_spaces(s, 0);
    let j = find_crlf_at(s, i0);
    if j < s.len() {
        proof {
            crate::parse_helpers::lemma_find_crlf_found(s@, i0 as int);
        }
        let string = copy_range(s, i0, j);
        Some((NoopCommand { string }, j + 2))
    } else {
        None
    }
}

} // verus!
