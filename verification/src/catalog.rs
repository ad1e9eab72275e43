//! The closed catalog of operations and their positional signatures.

use vstd::prelude::*;
use crate::value::PrimitiveKind;

verus! {

/// The name under which a parameter appears in diagnostics.
#[derive(Clone, Copy, Debug, PartialEq, Eq, Structural)]
pub enum ParamName {
    Filter,
    DataCenterId,
    PlanId,
    SnapshotId,
    Hostname,
    Label,
    Tag,
    ServerId,
    TargetPlanId,
}

impl ParamName {
    /// The name in words.
    pub open spec fn spec_text(self) -> Seq<char> {
        match self {
            ParamName::Filter => "filter"@,
            ParamName::DataCenterId => "data-center id"@,
            ParamName::PlanId => "plan id"@,
            ParamName::SnapshotId => "snapshot id"@,
            ParamName::Hostname => "hostname"@,
            ParamName::Label => "label"@,
            ParamName::Tag => "tag"@,
            ParamName::ServerId => "server id"@,
            ParamName::TargetPlanId => "target plan id"@,
        }
    }

    /// The name in words, as shown to the caller.
    pub fn text(self) -> (r: &'static str)
        ensures
            r@ == self.spec_text(),
    {
        match self {
            ParamName::Filter => "filter",
            ParamName::DataCenterId => "data-center id",
            ParamName::PlanId => "plan id",
            ParamName::SnapshotId => "snapshot id",
            ParamName::Hostname => "hostname",
            ParamName::Label => "label",
            ParamName::Tag => "tag",
            ParamName::ServerId => "server id",
            ParamName::TargetPlanId => "target plan id",
        }
    }
}

/// One positional parameter of an operation.
#[derive(Clone, Copy, Debug, PartialEq, Eq, Structural)]
pub struct Param {
    pub name: ParamName,
    pub kind: PrimitiveKind,
    pub required: bool,
}

/// A required parameter that takes a text.
pub open spec fn required_text(name: ParamName) -> Param {
    Param { name, kind: PrimitiveKind::Text, required: true }
}

/// An optional parameter that takes a text.
pub open spec fn optional_text(name: ParamName) -> Param {
    Param { name, kind: PrimitiveKind::Text, required: false }
}

/// The operations that the bridge offers. The catalog is closed.
#[derive(Clone, Copy, Debug, PartialEq, Eq, Structural)]
pub enum Operation {
    ListServers,
    CreateServer,
    DestroyServer,
    SetLabel,
    RebootServer,
    StartServer,
    UpgradePlan,
    ListUpgradeOptions,
    ListOperatingSystems,
    ListSnapshots,
    ListRegions,
    ListPlans,
}

impl Operation {
    /// The ordered parameters of the operation.
    pub open spec fn spec_signature(self) -> Seq<Param> {
        match self {
            Operation::ListServers => seq![optional_text(ParamName::Filter)],
            Operation::CreateServer => seq![
                required_text(ParamName::DataCenterId),
                required_text(ParamName::PlanId),
                required_text(ParamName::SnapshotId),
                required_text(ParamName::Hostname),
                required_text(ParamName::Label),
                required_text(ParamName::Tag),
            ],
            Operation::DestroyServer => seq![required_text(ParamName::ServerId)],
            Operation::SetLabel => seq![
                required_text(ParamName::ServerId),
                required_text(ParamName::Label),
            ],
            Operation::RebootServer => seq![required_text(ParamName::ServerId)],
            Operation::StartServer => seq![required_text(ParamName::ServerId)],
            Operation::UpgradePlan => seq![
                required_text(ParamName::ServerId),
                required_text(ParamName::TargetPlanId),
            ],
            Operation::ListUpgradeOptions => seq![required_text(ParamName::ServerId)],
            Operation::ListOperatingSystems => Seq::empty(),
            Operation::ListSnapshots => Seq::empty(),
            Operation::ListRegions => Seq::empty(),
            Operation::ListPlans => Seq::empty(),
        }
    }

    /// The ordered parameters of the operation.
    pub fn signature(self) -> (r: Vec<Param>)
        ensures
            r@ == self.spec_signature(),
    {
        let mut r: Vec<Param> = Vec::new();
        match self {
            Operation::ListServers => {
                r.push(Param { name: ParamName::Filter, kind: PrimitiveKind::Text, required: false });
            },
            Operation::CreateServer => {
                r.push(text_param(ParamName::DataCenterId));
                r.push(text_param(ParamName::PlanId));
                r.push(text_param(ParamName::SnapshotId));
                r.push(text_param(ParamName::Hostname));
                r.push(text_param(ParamName::Label));
                r.push(text_param(ParamName::Tag));
            },
            Operation::DestroyServer
            | Operation::RebootServer
            | Operation::StartServer
            | Operation::ListUpgradeOptions => {
                r.push(text_param(ParamName::ServerId));
            },
            Operation::SetLabel => {
                r.push(text_param(ParamName::ServerId));
                r.push(text_param(ParamName::Label));
            },
            Operation::UpgradePlan => {
                r.push(text_param(ParamName::ServerId));
                r.push(text_param(ParamName::TargetPlanId));
            },
            Operation::ListOperatingSystems
            | Operation::ListSnapshots
            | Operation::ListRegions
            | Operation::ListPlans => {},
        }
        assert(r@ =~= self.spec_signature());
        r
    }
}

/// A required parameter that takes a text.
pub fn text_param(name: ParamName) -> (r: Param)
    ensures
        r == required_text(name),
{
    Param { name, kind: PrimitiveKind::Text, required: true }
}

} // verus!
