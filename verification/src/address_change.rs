//! Structured address-change events derived from monitor output lines.

use vstd::prelude::*;

verus! {

/// Reachability classification of an address: `Link` addresses are not
/// externally routable, `Global` addresses may be (subject to the
/// relevance filter's exclusions).
#[derive(Clone, Copy, Debug, PartialEq, Eq, Structural)]
pub enum AddressScope {
    Link,
    Global,
}

/// Mathematical model of an address value: the raw character sequence the
/// monitor emitted, together with its scope.
pub struct AddressModel {
    pub address: Seq<char>,
    pub scope: AddressScope,
}

/// An IPv4 address exactly as emitted by the monitor, with its scope.
#[derive(Clone, Debug)]
pub struct IpV4Address {
    pub address: String,
    pub scope: AddressScope,
}

/// An IPv6 address exactly as emitted by the monitor, with its scope.
#[derive(Clone, Debug)]
pub struct IpV6Address {
    pub address: String,
    pub scope: AddressScope,
}

impl View for IpV4Address {
    type V = AddressModel;

    open spec fn view(&self) -> AddressModel {
        AddressModel { address: self.address@, scope: self.scope }
    }
}

impl View for IpV6Address {
    type V = AddressModel;

    open spec fn view(&self) -> AddressModel {
        AddressModel { address: self.address@, scope: self.scope }
    }
}

/// Mathematical model of an address-change event.
pub enum ChangeModel {
    AdditionV4(AddressModel),
    AdditionV6(AddressModel),
    DeletionV4(AddressModel),
    DeletionV6(AddressModel),
}

/// One structured address-change event, derived from one monitor line.
/// Every variant carries a complete address value: the parser never emits
/// a partially populated event.
#[derive(Clone, Debug)]
pub enum AddressChange {
    AdditionV4(IpV4Address),
    AdditionV6(IpV6Address),
    DeletionV4(IpV4Address),
    DeletionV6(IpV6Address),
}

impl View for AddressChange {
    type V = ChangeModel;

    open spec fn view(&self) -> ChangeModel {
        match self {
            AddressChange::AdditionV4(a) => ChangeModel::AdditionV4(a@),
            AddressChange::AdditionV6(a) => ChangeModel::AdditionV6(a@),
            AddressChange::DeletionV4(a) => ChangeModel::DeletionV4(a@),
            AddressChange::DeletionV6(a) => ChangeModel::DeletionV6(a@),
        }
    }
}

} // verus!
