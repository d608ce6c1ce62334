//! Grammar-based conversion of one monitor output line into an optional
//! structured address-change event.
//!
//! A line that the grammar cannot match at all is a recoverable
//! [`ParseError`], never a crash: the caller logs it, skips the line and
//! goes on with the next one. A recognizable line without a complete
//! address clause and scope clause is no event rather than a failure.

use vstd::prelude::*;
use vstd::string::{StrSliceExecFns, StringExecFns};
use crate::address_change::{AddressChange, AddressScope, IpV4Address, IpV6Address};
use crate::grammar::{
    addr_label, addr_part, all_digits, build_change, deleted_tok, dot_count, global_tok,
    has_slash, inet6_tok, inet_tok, init_scan, is_addr_plen_token, is_digit, is_hex_digit,
    is_ipv4_literal, is_ipv6_literal, is_ws, lemma_slash_idx, lemma_token_len_window, link_tok,
    parse_outcome, scan, scope_tok, slash_idx, strip_labels, tokens_of, ParseOutcome, ScanModel,
};

verus! {

/// A monitor line that the grammar cannot match at all. Recoverable: the
/// line is skipped and parsing continues with the next line.
#[derive(Clone, Copy, Debug, PartialEq, Eq, Structural)]
pub struct ParseError;

fn char_is_ws(c: char) -> (r: bool)
    ensures
        r == is_ws(c),
{
    c == ' ' || c == '\t' || c == '\n' || c == '\r'
}

fn char_is_digit(c: char) -> (r: bool)
    ensures
        r == is_digit(c),
{
    let u = c as u32;
    48 <= u && u <= 57
}

fn char_is_hex_digit(c: char) -> (r: bool)
    ensures
        r == is_hex_digit(c),
{
    let u = c as u32;
    (48 <= u && u <= 57) || (97 <= u && u <= 102) || (65 <= u && u <= 70)
}

/// The characters of `line` between the character positions `from`
/// (inclusive) and `to` (exclusive).
fn chars_of_range(line: &str, from: usize, to: usize) -> (v: Vec<char>)
    requires
        from <= to <= line@.len(),
    ensures
        v@ == line@.subrange(from as int, to as int),
{
    let mut v: Vec<char> = Vec::new();
    let mut i = from;
    while i < to
        invariant
            from <= i <= to <= line@.len(),
            v@ == line@.subrange(from as int, i as int),
        decreases to - i,
    {
        let c = line.get_char(i);
        v.push(c);
        proof {
            assert(v@ =~= line@.subrange(from as int, i + 1 as int));
        }
        i += 1;
    }
    proof {
        assert(v@ =~= line@.subrange(from as int, to as int));
    }
    v
}

/// The line parser: converts one line of monitor text into at most one
/// structured address-change event.
pub struct IpMonitorParser;

impl IpMonitorParser {
    /// Position right after the leading monitor labels of `line`.
    pub fn skip_labels(line: &str, n: usize) -> (start: usize)
        requires
            n == line@.len(),
        ensures
            start <= n,
            line@.skip(start as int) == strip_labels(line@),
    {
        let mut start: usize = 0;
        proof {
            assert(line@.skip(0) =~= line@);
        }
        loop
            invariant
                start <= n,
                n == line@.len(),
                strip_labels(line@.skip(start as int)) == strip_labels(line@),
            decreases n - start,
        {
            let ghost s = line@.skip(start as int);
            if n - start >= 6 {
                let m = line.get_char(start) == '[' && line.get_char(start + 1) == 'A'
                    && line.get_char(start + 2) == 'D' && line.get_char(start + 3) == 'D'
                    && line.get_char(start + 4) == 'R' && line.get_char(start + 5) == ']';
                if m {
                    proof {
                        assert(s.take(6) =~= addr_label());
                        assert(s.skip(6) =~= line@.skip(start as int + 6));
                    }
                    start += 6;
                } else {
                    proof {
                        if s.len() >= 6 && s.take(6) == addr_label() {
                            assert(s.take(6)[0] == '[' && s.take(6)[1] == 'A' && s.take(6)[2]
                                == 'D' && s.take(6)[3] == 'D' && s.take(6)[4] == 'R' && s.take(
                                6,
                            )[5] == ']');
                            assert(s[0] == line@[start as int]);
                            assert(false);
                        }
                        assert(strip_labels(s) == s);
                    }
                    return start;
                }
            } else {
                proof {
                    assert(s.len() < 6);
                    assert(strip_labels(s) == s);
                }
                return start;
            }
        }
    }

    /// The whitespace-separated tokens of `line` from position `start`
    /// on, as character ranges.
    pub fn tokenize(line: &str, n: usize, start: usize) -> (spans: Vec<(usize, usize)>)
        requires
            n == line@.len(),
            start <= n,
        ensures
            forall|k: int|
                0 <= k < spans@.len() ==> start <= (#[trigger] spans@[k]).0 && spans@[k].0
                    < spans@[k].1 <= n,
            span_toks(line@, spans@) == tokens_of(line@.skip(start as int)),
    {
        let mut spans: Vec<(usize, usize)> = Vec::new();
        let mut i = start;
        loop
            invariant
                start <= i <= n,
                n == line@.len(),
                forall|k: int|
                    0 <= k < spans@.len() ==> start <= (#[trigger] spans@[k]).0 && spans@[k].0
                        < spans@[k].1 <= n,
                tokens_of(line@.skip(start as int)) == span_toks(line@, spans@) + tokens_of(
                    line@.skip(i as int),
                ),
            decreases n - i,
        {
            if i == n {
                proof {
                    assert(line@.skip(i as int) =~= Seq::<char>::empty());
                    assert(span_toks(line@, spans@) + tokens_of(line@.skip(i as int)) =~= span_toks(
                        line@,
                        spans@,
                    ));
                }
                return spans;
            }
            let c = line.get_char(i);
            let ghost s = line@.skip(i as int);
            if char_is_ws(c) {
                proof {
                    assert(s[0] == line@[i as int]);
                    assert(s.skip(1) =~= line@.skip(i as int + 1));
                }
                i += 1;
            } else {
                let mut j = i + 1;
                loop
                    invariant
                        i < j <= n,
                        n == line@.len(),
                        forall|k: int| i <= k < j ==> !is_ws(#[trigger] line@[k]),
                    ensures
                        i < j <= n,
                        forall|k: int| i <= k < j ==> !is_ws(#[trigger] line@[k]),
                        j == n || is_ws(line@[j as int]),
                    decreases n - j,
                {
                    if j == n {
                        break;
                    }
                    if char_is_ws(line.get_char(j)) {
                        break;
                    }
                    j += 1;
                }
                proof {
                    assert(s[0] == line@[i as int]);
                    assert forall|k: int| 0 <= k < j - i implies !is_ws(s[k]) by {
                        assert(s[k] == line@[i + k]);
                    }
                    if j < n {
                        assert(s[j - i] == line@[j as int]);
                    }
                    lemma_token_len_window(s, j - i);
                    assert(s.take(j - i) =~= line@.subrange(i as int, j as int));
                    assert(s.skip(j - i) =~= line@.skip(j as int));
                    assert(span_toks(line@, spans@.push((i, j))) =~= span_toks(
                        line@,
                        spans@,
                    ).push(line@.subrange(i as int, j as int)));
                    assert(span_toks(line@, spans@) + tokens_of(s) =~= span_toks(
                        line@,
                        spans@.push((i, j)),
                    ) + tokens_of(line@.skip(j as int)));
                }
                spans.push((i, j));
                i = j;
            }
        }
    }
}

/// The token contents that a sequence of character ranges stands for.
pub open spec fn span_toks(s: Seq<char>, spans: Seq<(usize, usize)>) -> Seq<Seq<char>> {
    spans.map_values(|p: (usize, usize)| s.subrange(p.0 as int, p.1 as int))
}

fn sub_chars(v: &Vec<char>, from: usize, to: usize) -> (r: Vec<char>)
    requires
        from <= to <= v@.len(),
    ensures
        r@ == v@.subrange(from as int, to as int),
{
    let mut r: Vec<char> = Vec::new();
    let mut i = from;
    while i < to
        invariant
            from <= i <= to <= v@.len(),
            r@ == v@.subrange(from as int, i as int),
        decreases to - i,
    {
        r.push(v[i]);
        proof {
            assert(r@ =~= v@.subrange(from as int, i + 1 as int));
        }
        i += 1;
    }
    proof {
        assert(r@ =~= v@.subrange(from as int, to as int));
    }
    r
}

fn tok_is_deleted(v: &Vec<char>) -> (r: bool)
    ensures
        r == (v@ == deleted_tok()),
{
    let r = v.len() == 7 && v[0] == 'D' && v[1] == 'e' && v[2] == 'l' && v[3] == 'e' && v[4] == 't'
        && v[5] == 'e' && v[6] == 'd';
    proof {
        if r {
            assert(v@ =~= deleted_tok());
        }
    }
    r
}

fn tok_is_inet(v: &Vec<char>) -> (r: bool)
    ensures
        r == (v@ == inet_tok()),
{
    let r = v.len() == 4 && v[0] == 'i' && v[1] == 'n' && v[2] == 'e' && v[3] == 't';
    proof {
        if r {
            assert(v@ =~= inet_tok());
        }
    }
    r
}

fn tok_is_inet6(v: &Vec<char>) -> (r: bool)
    ensures
        r == (v@ == inet6_tok()),
{
    let r = v.len() == 5 && v[0] == 'i' && v[1] == 'n' && v[2] == 'e' && v[3] == 't' && v[4] == '6';
    proof {
        if r {
            assert(v@ =~= inet6_tok());
        }
    }
    r
}

fn tok_is_scope(v: &Vec<char>) -> (r: bool)
    ensures
        r == (v@ == scope_tok()),
{
    let r = v.len() == 5 && v[0] == 's' && v[1] == 'c' && v[2] == 'o' && v[3] == 'p' && v[4] == 'e';
    proof {
        if r {
            assert(v@ =~= scope_tok());
        }
    }
    r
}

fn tok_is_global(v: &Vec<char>) -> (r: bool)
    ensures
        r == (v@ == global_tok()),
{
    let r = v.len() == 6 && v[0] == 'g' && v[1] == 'l' && v[2] == 'o' && v[3] == 'b' && v[4] == 'a'
        && v[5] == 'l';
    proof {
        if r {
            assert(v@ =~= global_tok());
        }
    }
    r
}

fn tok_is_link(v: &Vec<char>) -> (r: bool)
    ensures
        r == (v@ == link_tok()),
{
    let r = v.len() == 4 && v[0] == 'l' && v[1] == 'i' && v[2] == 'n' && v[3] == 'k';
    proof {
        if r {
            assert(v@ =~= link_tok());
        }
    }
    r
}

fn all_digits_vec(v: &Vec<char>) -> (r: bool)
    ensures
        r == all_digits(v@),
{
    let n = v.len();
    let mut i: usize = 0;
    while i < n
        invariant
            i <= n,
            n == v@.len(),
            forall|k: int| 0 <= k < i ==> is_digit(#[trigger] v@[k]),
        decreases n - i,
    {
        if !char_is_digit(v[i]) {
            return false;
        }
        i += 1;
    }
    true
}

fn is_ipv4_lit(v: &Vec<char>) -> (r: bool)
    ensures
        r == is_ipv4_literal(v@),
{
    let n = v.len();
    if n == 0 {
        return false;
    }
    if v[0] == '.' {
        return false;
    }
    if v[n - 1] == '.' {
        return false;
    }
    let mut i: usize = 0;
    let mut dots: usize = 0;
    while i < n
        invariant
            i <= n,
            n == v@.len(),
            dots == dot_count(v@.take(i as int)),
            dots <= i,
            forall|k: int| 0 <= k < i ==> is_digit(#[trigger] v@[k]) || v@[k] == '.',
            forall|k: int| 0 <= k < i - 1 ==> !(#[trigger] v@[k] == '.' && v@[k + 1] == '.'),
        decreases n - i,
    {
        let c = v[i];
        if !(char_is_digit(c) || c == '.') {
            return false;
        }
        if c == '.' {
            if i > 0 && v[i - 1] == '.' {
                return false;
            }
            dots += 1;
        }
        proof {
            assert(v@.take(i + 1 as int).drop_last() =~= v@.take(i as int));
            assert(v@.take(i + 1 as int).last() == v@[i as int]);
        }
        i += 1;
    }
    proof {
        assert(v@.take(n as int) =~= v@);
    }
    dots == 3
}

fn is_ipv6_lit(v: &Vec<char>) -> (r: bool)
    ensures
        r == is_ipv6_literal(v@),
{
    let n = v.len();
    if n == 0 {
        return false;
    }
    let mut i: usize = 0;
    let mut has_colon = false;
    while i < n
        invariant
            i <= n,
            n == v@.len(),
            has_colon == exists|k: int| 0 <= k < i && #[trigger] v@[k] == ':',
            forall|k: int| 0 <= k < i ==> is_hex_digit(#[trigger] v@[k]) || v@[k] == ':',
        decreases n - i,
    {
        let c = v[i];
        if !(char_is_hex_digit(c) || c == ':') {
            return false;
        }
        proof {
            if has_colon {
                let k = choose|k: int| 0 <= k < i && #[trigger] v@[k] == ':';
                assert(0 <= k < i + 1 && v@[k] == ':');
            }
        }
        if c == ':' {
            has_colon = true;
        }
        i += 1;
    }
    has_colon
}

/// Where an address token splits into literal and prefix length: the
/// position of its `/`, or nothing where the token is not a well-formed
/// address clause argument.
fn addr_plen_split(v: &Vec<char>, v6: bool) -> (r: Option<usize>)
    ensures
        r is Some <==> is_addr_plen_token(v@, v6),
        r matches Some(k) ==> k as int == slash_idx(v@),
{
    proof {
        lemma_slash_idx(v@);
    }
    let n = v.len();
    let mut i: usize = 0;
    let mut slash: Option<usize> = None;
    while i < n
        invariant
            i <= n,
            n == v@.len(),
            match slash {
                Some(k) => k < i && v@[k as int] == '/' && forall|j: int|
                    0 <= j < k ==> v@[j] != '/',
                None => forall|j: int| 0 <= j < i ==> v@[j] != '/',
            },
        decreases n - i,
    {
        if slash.is_none() && v[i] == '/' {
            slash = Some(i);
        }
        i += 1;
    }
    let k: usize = match slash {
        None => {
            proof {
                assert(!has_slash(v@));
            }
            return None;
        },
        Some(k) => k,
    };
    proof {
        assert(has_slash(v@));
        assert(slash_idx(v@) == k as int);
    }
    if n - k < 2 {
        return None;
    }
    let addr = sub_chars(v, 0, k);
    proof {
        assert(addr@ =~= v@.take(k as int));
    }
    let lit_ok = if v6 {
        is_ipv6_lit(&addr)
    } else {
        is_ipv4_lit(&addr)
    };
    if !lit_ok {
        return None;
    }
    let plen = sub_chars(v, k + 1, n);
    proof {
        assert(plen@ =~= v@.skip(k as int + 1));
    }
    if all_digits_vec(&plen) {
        Some(k)
    } else {
        None
    }
}

/// What a token scan has gathered so far.
struct ScanState {
    deletion: bool,
    ipv4: Option<String>,
    ipv6: Option<String>,
    scope: Option<AddressScope>,
}

spec fn scan_view(st: &ScanState) -> ScanModel {
    ScanModel {
        deletion: st.deletion,
        ipv4: match st.ipv4 {
            Some(s) => Some(s@),
            None => None,
        },
        ipv6: match st.ipv6 {
            Some(s) => Some(s@),
            None => None,
        },
        scope: st.scope,
    }
}

/// The event a completed scan stands for, under the construction rule:
/// an event needs exactly one address and a scope; anything else is none.
fn build_event(st: ScanState) -> (r: Option<AddressChange>)
    ensures
        match build_change(scan_view(&st)) {
            None => r is None,
            Some(cm) => r matches Some(c) && c@ == cm,
        },
{
    match (st.deletion, st.ipv6, st.ipv4, st.scope) {
        (false, Some(address), None, Some(scope)) => Some(
            AddressChange::AdditionV6(IpV6Address { address, scope }),
        ),
        (true, Some(address), None, Some(scope)) => Some(
            AddressChange::DeletionV6(IpV6Address { address, scope }),
        ),
        (false, None, Some(address), Some(scope)) => Some(
            AddressChange::AdditionV4(IpV4Address { address, scope }),
        ),
        (true, None, Some(address), Some(scope)) => Some(
            AddressChange::DeletionV4(IpV4Address { address, scope }),
        ),
        _ => None,
    }
}

/// Converts one line of monitor text into at most one structured
/// address-change event.
///
/// Returns `Ok(Some(change))` for a recognized address add/delete line,
/// `Ok(None)` for a recognized line that carries no complete address
/// change (status and lifetime lines among them), and `Err(ParseError)`
/// for a line the grammar cannot match at all.
pub fn parse_line(line: &str) -> (r: Result<Option<AddressChange>, ParseError>)
    ensures
        match r {
            Err(_) => parse_outcome(line@) is Unrecognized,
            Ok(None) => parse_outcome(line@) is NoEvent,
            Ok(Some(c)) => parse_outcome(line@) matches ParseOutcome::Event(m) && c@ == m,
        },
{
    let n = line.unicode_len();
    let start = IpMonitorParser::skip_labels(line, n);
    let spans = IpMonitorParser::tokenize(line, n, start);
    let ghost toks = tokens_of(strip_labels(line@));
    let mut st = ScanState { deletion: false, ipv4: None, ipv6: None, scope: None };
    proof {
        assert(scan_view(&st) == init_scan());
    }
    let mut idx: usize = 0;
    let m = spans.len();
    proof {
        assert(toks.skip(0) =~= toks);
    }
    while idx < m
        invariant
            idx <= m,
            m == spans@.len(),
            n == line@.len(),
            toks == span_toks(line@, spans@),
            toks == tokens_of(strip_labels(line@)),
            forall|k: int|
                0 <= k < spans@.len() ==> start <= (#[trigger] spans@[k]).0 && spans@[k].0
                    < spans@[k].1 <= n,
            scan(toks, init_scan()) == scan(toks.skip(idx as int), scan_view(&st)),
        decreases m - idx,
    {
        let (a, b) = spans[idx];
        let tok = chars_of_range(line, a, b);
        proof {
            assert(toks[idx as int] == line@.subrange(
                spans@[idx as int].0 as int,
                spans@[idx as int].1 as int,
            ));
            assert(toks.skip(idx as int)[0] == toks[idx as int]);
        }
        if tok_is_deleted(&tok) {
            st.deletion = true;
            proof {
                assert(toks.skip(idx as int).skip(1) =~= toks.skip(idx as int + 1));
            }
            idx += 1;
        } else if tok_is_inet(&tok) {
            if idx + 1 < m {
                let (a2, b2) = spans[idx + 1];
                let tok2 = chars_of_range(line, a2, b2);
                proof {
                    assert(toks[idx as int + 1] == line@.subrange(
                        spans@[idx as int + 1].0 as int,
                        spans@[idx as int + 1].1 as int,
                    ));
                    assert(toks.skip(idx as int)[1] == toks[idx as int + 1]);
                }
                match addr_plen_split(&tok2, false) {
                    Some(k) => {
                        let sub = line.substring_char(a2, a2 + k);
                        let addr = String::from_str(sub);
                        proof {
                            assert(addr@ =~= addr_part(toks[idx as int + 1]));
                            assert(toks.skip(idx as int).skip(2) =~= toks.skip(idx as int + 2));
                        }
                        st.ipv4 = Some(addr);
                        idx += 2;
                    },
                    None => {
                        return Err(ParseError);
                    },
                }
            } else {
                proof {
                    assert(toks.skip(idx as int).len() == 1);
                }
                return Err(ParseError);
            }
        } else if tok_is_inet6(&tok) {
            if idx + 1 < m {
                let (a2, b2) = spans[idx + 1];
                let tok2 = chars_of_range(line, a2, b2);
                proof {
                    assert(toks[idx as int + 1] == line@.subrange(
                        spans@[idx as int + 1].0 as int,
                        spans@[idx as int + 1].1 as int,
                    ));
                    assert(toks.skip(idx as int)[1] == toks[idx as int + 1]);
                }
                match addr_plen_split(&tok2, true) {
                    Some(k) => {
                        let sub = line.substring_char(a2, a2 + k);
                        let addr = String::from_str(sub);
                        proof {
                            assert(addr@ =~= addr_part(toks[idx as int + 1]));
                            assert(toks.skip(idx as int).skip(2) =~= toks.skip(idx as int + 2));
                        }
                        st.ipv6 = Some(addr);
                        idx += 2;
                    },
                    None => {
                        return Err(ParseError);
                    },
                }
            } else {
                proof {
                    assert(toks.skip(idx as int).len() == 1);
                }
                return Err(ParseError);
            }
        } else if tok_is_scope(&tok) {
            if idx + 1 < m {
                let (a2, b2) = spans[idx + 1];
                let tok2 = chars_of_range(line, a2, b2);
                proof {
                    assert(toks[idx as int + 1] == line@.subrange(
                        spans@[idx as int + 1].0 as int,
                        spans@[idx as int + 1].1 as int,
                    ));
                    assert(toks.skip(idx as int)[1] == toks[idx as int + 1]);
                }
                let g = tok_is_global(&tok2);
                let l = tok_is_link(&tok2);
                if g || l {
                    st.scope = Some(
                        if g {
                            AddressScope::Global
                        } else {
                            AddressScope::Link
                        },
                    );
                    proof {
                        assert(toks.skip(idx as int).skip(2) =~= toks.skip(idx as int + 2));
                    }
                    idx += 2;
                } else {
                    return Err(ParseError);
                }
            } else {
                proof {
                    assert(toks.skip(idx as int).len() == 1);
                }
                return Err(ParseError);
            }
        } else {
            proof {
                assert(toks.skip(idx as int).skip(1) =~= toks.skip(idx as int + 1));
            }
            idx += 1;
        }
    }
    proof {
        assert(toks.skip(idx as int) =~= Seq::<Seq<char>>::empty());
    }
    Ok(build_event(st))
}

} // verus!
