//! Mathematical model of the monitor-line grammar.
//!
//! A line is read token-wise and order-insensitively: an optional deletion
//! marker, address clauses (`inet <ipv4>/<len>` or `inet6 <ipv6>/<len>`)
//! and scope clauses (`scope global` or `scope link`); every other token
//! is ignored, and of repeated clauses the last one counts. A clause
//! keyword that is not followed by a well-formed argument token makes the
//! whole line unrecognizable. A line yields an event only when exactly
//! one address family and a scope are present.

use vstd::prelude::*;
use crate::address_change::{AddressModel, AddressScope, ChangeModel};

verus! {

/// Whitespace for the purpose of splitting a line into tokens.
pub open spec fn is_ws(c: char) -> bool {
    c == ' ' || c == '\t' || c == '\n' || c == '\r'
}

/// The label the monitor prefixes to address lines.
pub open spec fn addr_label() -> Seq<char> {
    seq!['[', 'A', 'D', 'D', 'R', ']']
}

/// The line with every leading monitor label removed.
pub open spec fn strip_labels(s: Seq<char>) -> Seq<char>
    decreases s.len(),
{
    if s.len() >= 6 && s.take(6) == addr_label() {
        strip_labels(s.skip(6))
    } else {
        s
    }
}

/// Length of the token at the head of `s`: the longest prefix free of
/// whitespace.
pub open spec fn token_len(s: Seq<char>) -> nat
    decreases s.len(),
{
    if s.len() == 0 || is_ws(s[0]) {
        0
    } else {
        1 + token_len(s.skip(1))
    }
}

pub proof fn lemma_token_len_bounds(s: Seq<char>)
    ensures
        token_len(s) <= s.len(),
        s.len() > 0 && !is_ws(s[0]) ==> 1 <= token_len(s),
    decreases s.len(),
{
    if s.len() > 0 && !is_ws(s[0]) {
        lemma_token_len_bounds(s.skip(1));
    }
}

/// The head token runs exactly up to the first whitespace character.
pub proof fn lemma_token_len_window(s: Seq<char>, m: int)
    requires
        0 <= m <= s.len(),
        forall|k: int| 0 <= k < m ==> !is_ws(s[k]),
        m == s.len() || is_ws(s[m]),
    ensures
        token_len(s) == m,
    decreases m,
{
    if m == 0 {
    } else {
        lemma_token_len_window(s.skip(1), m - 1);
    }
}

/// The whitespace-separated tokens of `s`, in order.
pub open spec fn tokens_of(s: Seq<char>) -> Seq<Seq<char>>
    decreases s.len(),
    via tokens_of_dec
{
    if s.len() == 0 {
        seq![]
    } else if is_ws(s[0]) {
        tokens_of(s.skip(1))
    } else {
        seq![s.take(token_len(s) as int)] + tokens_of(s.skip(token_len(s) as int))
    }
}

#[via_fn]
proof fn tokens_of_dec(s: Seq<char>) {
    lemma_token_len_bounds(s);
}

pub open spec fn is_digit(c: char) -> bool {
    '0' as u32 <= c as u32 && c as u32 <= '9' as u32
}

pub open spec fn is_hex_digit(c: char) -> bool {
    ||| is_digit(c)
    ||| 'a' as u32 <= c as u32 && c as u32 <= 'f' as u32
    ||| 'A' as u32 <= c as u32 && c as u32 <= 'F' as u32
}

pub open spec fn all_digits(s: Seq<char>) -> bool {
    forall|i: int| 0 <= i < s.len() ==> is_digit(#[trigger] s[i])
}

/// Number of `.` characters in `s`.
pub open spec fn dot_count(s: Seq<char>) -> nat
    decreases s.len(),
{
    if s.len() == 0 {
        0
    } else {
        dot_count(s.drop_last()) + if s.last() == '.' { 1nat } else { 0nat }
    }
}

/// An IPv4 literal: four nonempty groups of decimal digits separated by
/// single dots.
pub open spec fn is_ipv4_literal(s: Seq<char>) -> bool {
    &&& s.len() > 0
    &&& forall|i: int| 0 <= i < s.len() ==> is_digit(#[trigger] s[i]) || s[i] == '.'
    &&& dot_count(s) == 3
    &&& s[0] != '.'
    &&& s[s.len() - 1] != '.'
    &&& forall|i: int| 0 <= i < s.len() - 1 ==> !(#[trigger] s[i] == '.' && s[i + 1] == '.')
}

/// An IPv6 literal: hexadecimal digits and colons, with at least one
/// colon. The address is not validated beyond this.
pub open spec fn is_ipv6_literal(s: Seq<char>) -> bool {
    &&& s.len() > 0
    &&& forall|i: int| 0 <= i < s.len() ==> is_hex_digit(#[trigger] s[i]) || s[i] == ':'
    &&& exists|i: int| 0 <= i < s.len() && s[i] == ':'
}

pub open spec fn has_slash(s: Seq<char>) -> bool {
    exists|i: int| 0 <= i < s.len() && s[i] == '/'
}

/// Index of the first `/` in `s`, or `s.len()` if there is none.
pub open spec fn slash_idx(s: Seq<char>) -> int
    decreases s.len(),
{
    if s.len() == 0 {
        0
    } else if s[0] == '/' {
        0
    } else {
        1 + slash_idx(s.skip(1))
    }
}

pub proof fn lemma_slash_idx(s: Seq<char>)
    ensures
        0 <= slash_idx(s) <= s.len(),
        has_slash(s) ==> slash_idx(s) < s.len() && s[slash_idx(s)] == '/',
        !has_slash(s) ==> slash_idx(s) == s.len(),
        forall|j: int| 0 <= j < slash_idx(s) ==> s[j] != '/',
    decreases s.len(),
{
    if s.len() == 0 {
    } else if s[0] == '/' {
    } else {
        lemma_slash_idx(s.skip(1));
        if has_slash(s) {
            let i = choose|i: int| 0 <= i < s.len() && s[i] == '/';
            assert(s.skip(1)[i - 1] == '/');
        }
        if has_slash(s.skip(1)) {
            let i = choose|i: int| 0 <= i < s.skip(1).len() && s.skip(1)[i] == '/';
            assert(s[i + 1] == '/');
        }
        assert forall|j: int| 0 <= j < slash_idx(s) implies s[j] != '/' by {
            if j >= 1 {
                assert(s.skip(1)[j - 1] != '/');
            }
        }
    }
}

/// An address token of an address clause: `<literal>/<prefix-length>`.
pub open spec fn is_addr_plen_token(s: Seq<char>, v6: bool) -> bool {
    &&& has_slash(s)
    &&& (if v6 {
        is_ipv6_literal(s.take(slash_idx(s)))
    } else {
        is_ipv4_literal(s.take(slash_idx(s)))
    })
    &&& slash_idx(s) + 1 < s.len()
    &&& all_digits(s.skip(slash_idx(s) + 1))
}

/// The address part of an address token: everything before the first `/`.
pub open spec fn addr_part(s: Seq<char>) -> Seq<char> {
    s.take(slash_idx(s))
}

pub open spec fn deleted_tok() -> Seq<char> {
    seq!['D', 'e', 'l', 'e', 't', 'e', 'd']
}

pub open spec fn inet_tok() -> Seq<char> {
    seq!['i', 'n', 'e', 't']
}

pub open spec fn inet6_tok() -> Seq<char> {
    seq!['i', 'n', 'e', 't', '6']
}

pub open spec fn scope_tok() -> Seq<char> {
    seq!['s', 'c', 'o', 'p', 'e']
}

pub open spec fn global_tok() -> Seq<char> {
    seq!['g', 'l', 'o', 'b', 'a', 'l']
}

pub open spec fn link_tok() -> Seq<char> {
    seq!['l', 'i', 'n', 'k']
}

/// What a token scan has gathered so far.
pub struct ScanModel {
    pub deletion: bool,
    pub ipv4: Option<Seq<char>>,
    pub ipv6: Option<Seq<char>>,
    pub scope: Option<AddressScope>,
}

pub open spec fn init_scan() -> ScanModel {
    ScanModel { deletion: false, ipv4: None, ipv6: None, scope: None }
}

/// Token-wise scan of a line. `None` means the line is unrecognizable:
/// a clause keyword stands without a well-formed argument token.
pub open spec fn scan(toks: Seq<Seq<char>>, st: ScanModel) -> Option<ScanModel>
    decreases toks.len(),
{
    if toks.len() == 0 {
        Some(st)
    } else {
        let t = toks[0];
        if t == deleted_tok() {
            scan(toks.skip(1), ScanModel { deletion: true, ..st })
        } else if t == inet_tok() {
            if toks.len() >= 2 && is_addr_plen_token(toks[1], false) {
                scan(toks.skip(2), ScanModel { ipv4: Some(addr_part(toks[1])), ..st })
            } else {
                None
            }
        } else if t == inet6_tok() {
            if toks.len() >= 2 && is_addr_plen_token(toks[1], true) {
                scan(toks.skip(2), ScanModel { ipv6: Some(addr_part(toks[1])), ..st })
            } else {
                None
            }
        } else if t == scope_tok() {
            if toks.len() >= 2 && (toks[1] == global_tok() || toks[1] == link_tok()) {
                let sc = if toks[1] == global_tok() {
                    AddressScope::Global
                } else {
                    AddressScope::Link
                };
                scan(toks.skip(2), ScanModel { scope: Some(sc), ..st })
            } else {
                None
            }
        } else {
            scan(toks.skip(1), st)
        }
    }
}

/// Construction rule: a scanned line yields an event only when exactly one
/// address and a scope are present; any other combination is no event.
pub open spec fn build_change(st: ScanModel) -> Option<ChangeModel> {
    match (st.deletion, st.ipv6, st.ipv4, st.scope) {
        (false, Some(a), None, Some(sc)) => Some(
            ChangeModel::AdditionV6(AddressModel { address: a, scope: sc }),
        ),
        (true, Some(a), None, Some(sc)) => Some(
            ChangeModel::DeletionV6(AddressModel { address: a, scope: sc }),
        ),
        (false, None, Some(a), Some(sc)) => Some(
            ChangeModel::AdditionV4(AddressModel { address: a, scope: sc }),
        ),
        (true, None, Some(a), Some(sc)) => Some(
            ChangeModel::DeletionV4(AddressModel { address: a, scope: sc }),
        ),
        _ => None,
    }
}

/// What parsing one monitor line yields.
pub enum ParseOutcome {
    /// The line cannot be matched by the grammar at all.
    Unrecognized,
    /// The line is recognized but carries no complete address change.
    NoEvent,
    /// The line carries exactly this address change.
    Event(ChangeModel),
}

/// The meaning of one monitor line.
pub open spec fn parse_outcome(s: Seq<char>) -> ParseOutcome {
    match scan(tokens_of(strip_labels(s)), init_scan()) {
        None => ParseOutcome::Unrecognized,
        Some(st) => match build_change(st) {
            None => ParseOutcome::NoEvent,
            Some(c) => ParseOutcome::Event(c),
        },
    }
}

} // verus!
