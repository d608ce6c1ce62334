//! The relevance filter: which address-change events trigger downstream
//! action.

use vstd::prelude::*;
use vstd::string::StrSliceExecFns;
use crate::address_change::{AddressChange, AddressScope, ChangeModel};

verus! {

/// The address begins with the literal characters `fd`.
pub open spec fn starts_fd(s: Seq<char>) -> bool {
    s.len() >= 2 && s[0] == 'f' && s[1] == 'd'
}

/// The address begins with the literal characters `fec`.
pub open spec fn starts_fec(s: Seq<char>) -> bool {
    s.len() >= 3 && s[0] == 'f' && s[1] == 'e' && s[2] == 'c'
}

/// Only a newly added global IPv6 address is worth publishing, and
/// unique-local addresses are excluded even though the monitor reports
/// them as global. The exclusion is deliberately this literal prefix
/// test, not a CIDR match: it mirrors the established policy, which does
/// not cover the whole unique-local block.
pub open spec fn is_relevant_model(c: ChangeModel) -> bool {
    match c {
        ChangeModel::AdditionV6(a) => a.scope is Global && !starts_fd(a.address) && !starts_fec(
            a.address,
        ),
        _ => false,
    }
}

/// Law: every variant other than a global IPv6 addition whose address
/// does not begin with `fd` or `fec` is irrelevant; exactly that one
/// variant is relevant.
pub proof fn lemma_relevance_policy(c: ChangeModel)
    ensures
        is_relevant_model(c) <==> (c matches ChangeModel::AdditionV6(a) && a.scope is Global
            && !starts_fd(a.address) && !starts_fec(a.address)),
{
}

/// Whether an event should trigger the downstream update actions.
pub fn is_relevant(change: &AddressChange) -> (r: bool)
    ensures
        r == is_relevant_model(change@),
{
    match change {
        AddressChange::AdditionV4(_) => false,
        AddressChange::AdditionV6(v6) => match v6.scope {
            AddressScope::Link => false,
            AddressScope::Global => {
                let a = v6.address.as_str();
                let n = a.unicode_len();
                let fd = n >= 2 && a.get_char(0) == 'f' && a.get_char(1) == 'd';
                let fec = n >= 3 && a.get_char(0) == 'f' && a.get_char(1) == 'e' && a.get_char(2)
                    == 'c';
                !fd && !fec
            },
        },
        AddressChange::DeletionV4(_) => false,
        AddressChange::DeletionV6(_) => false,
    }
}

} // verus!
