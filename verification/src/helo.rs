//! The `HELO` command: the client names its domain.

use vstd::prelude::*;

use crate::parse_helpers::{
    copy_range, eat_spaces, hostname, hostname_end, spaces_end, append_bytes, CR, LF, SP,
};

verus! {

/// `H`
pub const CH_H: u8 = 72;

/// `E`
pub const CH_E: u8 = 69;

/// `L`
pub const CH_L: u8 = 76;

/// `O`
pub const CH_O: u8 = 79;

pub struct HeloCommand {
    pub domain: Vec<u8>,
}

/// The wire image of a `HELO` command with this domain.
pub open spec fn helo_wire(domain: Seq<u8>) -> Seq<u8> {
    seq![CH_H, CH_E, CH_L, CH_O, SP] + domain + seq![CR, LF]
}

/// Where a `HELO` argument line parses: spaces, a hostname, spaces, CRLF.
pub open spec fn helo_args_spec(s: Seq<u8>) -> Option<(Seq<u8>, int)> {
    let i0 = spaces_end(s, 0);
    let d = hostname_end(s, i0);
    let i1 = spaces_end(s, d);
    if i1 + 1 < s.len() && s[i1] == CR && s[i1 + 1] == LF {
        Some((s.subrange(i0, d), i1 + 2))
    } else {
        None
    }
}

impl HeloCommand {
    pub fn new(domain: Vec<u8>) -> (r: HeloCommand)
        ensures
            r.domain == domain,
    {
        HeloCommand { domain }
    }

    pub fn domain(&self) -> (r: &Vec<u8>)
        ensures
            r == &self.domain,
    {
        &self.domain
    }

    /// Append the command's wire image to `w`.
    pub fn send_to(&self, w: &mut Vec<u8>)
        ensures
            final(w)@ == old(w)@ + helo_wire(self.domain@),
    {
        w.push(CH_H);
        w.push(CH_E);
        w.push(CH_L);
        w.push(CH_O);
        w.push(SP);
        append_bytes(w, self.domain.as_slice());
        w.push(CR);
        w.push(LF);
        proof {
            assert(w@ =~= old(w)@ + helo_wire(self.domain@));
        }
    }
}

/// Parse the arguments of a `HELO` command: the domain and the position
/// just after the CRLF.
pub fn command_helo_args(s: &[u8]) -> (r: Option<(HeloCommand, usize)>)
    ensures
        match r {
            Some(p) => helo_args_spec(s@) matches Some(q) && p.0.domain@ == q.0 && p.1 == q.1,
            None => helo_args_spec(s@) is None,
        },
{
    let i0 = eat_spaces(s, 0);
    let d = hostname(s, i0);
    let i1 = eat_spaces(s, d);
    if i1 < s.len() && i1 + 1 < s.len() && s[i1] == CR && s[i1 + 1] == LF {
        let domain = copy_range(s, i0, d);
        Some((HeloCommand { domain }, i1 + 2))
    } else {
        None
    }
}

} // verus!
