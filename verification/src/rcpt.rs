//! The `RCPT` command: one recipient of the mail being transacted. The
//! `@ONE,@TWO:` source-route prefix of the path is stripped before storage.

use vstd::prelude::*;

use crate::parse_helpers::{
    address_in_maybe_bracketed_path, copy_range, eat_spaces, local_run_end,
    maybe_bracketed_path_spec, scan_local, spaces_end, append_bytes, AT, COLON, CR, GT, LF, LT, SP,
};
use crate::queue::Email;

verus! {

/// `R`
pub const CH_R: u8 = 82;

/// `C`
pub const CH_C: u8 = 67;

/// `P`
pub const CH_P: u8 = 80;

/// `T`
pub const CH_T: u8 = 84;

/// `O`
pub const CH_O: u8 = 79;

/// `t`
pub const CH_LT_T: u8 = 116;

/// `o`
pub const CH_LO_O: u8 = 111;

pub struct RcptCommand {
    /// The recipient, source route already removed.
    pub to: Email,
}

/// The wire image of an `RCPT` command for this recipient.
pub open spec fn rcpt_wire(to: <Email as View>::V) -> Seq<u8> {
    seq![CH_R, CH_C, CH_P, CH_T, SP, CH_T, CH_O, COLON, LT] + to.0 + (match to.1 {
        Some(h) => seq![AT] + h,
        None => Seq::<u8>::empty(),
    }) + seq![GT, CR, LF]
}

/// The recipient address a matched span decomposes into: the local part,
/// and the hostname after the `@` if there is one.
pub open spec fn email_parts(s: Seq<u8>, a: int, e: int) -> (Seq<u8>, Option<Seq<u8>>) {
    let l = local_run_end(s, a);
    if l < e {
        (s.subrange(a, l), Some(s.subrange(l + 1, e)))
    } else {
        (s.subrange(a, e), None)
    }
}

/// Where an `RCPT` argument line parses: spaces, `TO:` in any case, spaces,
/// a path with optional brackets and source route, spaces, CRLF. The result
/// is the recipient (route stripped) and the position after the CRLF.
pub open spec fn rcpt_args_spec(s: Seq<u8>) -> Option<((Seq<u8>, Option<Seq<u8>>), int)> {
    let i0 = spaces_end(s, 0);
    if i0 + 2 < s.len() && (s[i0] == CH_T || s[i0] == CH_LT_T) && (s[i0 + 1] == CH_O || s[i0 + 1]
        == CH_LO_O) && s[i0 + 2] == COLON {
        let i1 = spaces_end(s, i0 + 3);
        match maybe_bracketed_path_spec(s, i1) {
            Some((a, e, t)) => {
                let i2 = spaces_end(s, t);
                if i2 + 1 < s.len() && s[i2] == CR && s[i2 + 1] == LF {
                    Some((email_parts(s, a, e), i2 + 2))
                } else {
                    None
                }
            },
            None => None,
        }
    } else {
        None
    }
}

impl RcptCommand {
    pub fn new(to: Email) -> (r: RcptCommand)
        ensures
            r.to == to,
    {
        RcptCommand { to }
    }

    pub fn to(&self) -> (r: &Email)
        ensures
            r == &self.to,
    {
        &self.to
    }

    /// Append the command's wire image to `w`.
    pub fn send_to(&self, w: &mut Vec<u8>)
        ensures
            final(w)@ == old(w)@ + rcpt_wire(self.to@),
    {
        w.push(CH_R);
        w.push(CH_C);
        w.push(CH_P);
        w.push(CH_T);
        w.push(SP);
        w.push(CH_T);
        w.push(CH_O);
        w.push(COLON);
        w.push(LT);
        append_bytes(w, self.to.localpart.as_slice());
        match &self.to.hostname {
            Some(h) => {
                w.push(AT);
                append_bytes(w, h.as_slice());
            },
            None => {},
        }
        w.push(GT);
        w.push(CR);
        w.push(LF);
        proof {
            assert(w@ =~= old(w)@ + rcpt_wire(self.to@));
        }
    }
}

/// Parse the arguments of an `RCPT` command: the recipient (source route
/// stripped) and the position just after the CRLF.
pub fn command_rcpt_args(s: &[u8]) -> (r: Option<(RcptCommand, usize)>)
    ensures
        match r {
            Some(p) => rcpt_args_spec(s@) matches Some(q) && p.0.to@ == q.0 && p.1 == q.1,
            None => rcpt_args_spec(s@) is None,
        },
{
    let i0 = eat_spaces(s, 0);
    if i0 < s.len() && i0 + 1 < s.len() && i0 + 2 < s.len() && (s[i0] == CH_T || s[i0] == CH_LT_T)
        && (s[i0 + 1] == CH_O || s[i0 + 1] == CH_LO_O) && s[i0 + 2] == COLON {
        let i1 = eat_spaces(s, i0 + 3);
        match address_in_maybe_bracketed_path(s, i1) {
            Some((a, e, t)) => {
                let i2 = eat_spaces(s, t);
                let crlf_here = i2 < s.len() && i2 + 1 < s.len() && s[i2] == CR && s[i2 + 1] == LF;
                if crlf_here {
                    let l = scan_local(s, a);
                    let to = if l < e {
                        Email {
                            localpart: copy_range(s, a, l),
                            hostname: Some(copy_range(s, l + 1, e)),
                        }
                    } else {
                        Email { localpart: copy_range(s, a, e), hostname: None }
                    };
                    Some((RcptCommand { to }, i2 + 2))
                } else {
                    None
                }
            },
            None => None,
        }
    } else {
        None
    }
}

} // verus!
