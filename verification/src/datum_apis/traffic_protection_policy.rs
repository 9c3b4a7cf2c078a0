//! The TrafficProtectionPolicy resource.
use vstd::prelude::*;

use crate::datum_apis::meta::{ObjectMeta, ObjectMetaModel};

verus! {

/// What a policy applies to.
#[derive(Debug, Clone, PartialEq, Eq)]
pub struct LocalPolicyTargetReferenceWithSectionName {
    pub group: String,
    pub kind: String,
    pub name: String,
    pub section_name: Option<String>,
}

/// The model of a [`LocalPolicyTargetReferenceWithSectionName`].
#[verifier::ext_equal]
pub struct LocalPolicyTargetReferenceWithSectionNameModel {
    pub group: Seq<char>,
    pub kind: Seq<char>,
    pub name: Seq<char>,
    pub section_name: Option<Seq<char>>,
}

impl DeepView for LocalPolicyTargetReferenceWithSectionName {
    type V = LocalPolicyTargetReferenceWithSectionNameModel;

    open spec fn deep_view(&self) -> LocalPolicyTargetReferenceWithSectionNameModel {
        LocalPolicyTargetReferenceWithSectionNameModel {
            group: self.group.deep_view(),
            kind: self.kind.deep_view(),
            name: self.name.deep_view(),
            section_name: self.section_name.deep_view(),
        }
    }
}

/// Whether a policy blocks or only reports.
#[derive(Debug, Clone, Copy, PartialEq, Eq, Structural)]
pub enum TrafficProtectionPolicyMode {
    Observe,
    Enforce,
    Disabled,
}

impl DeepView for TrafficProtectionPolicyMode {
    type V = TrafficProtectionPolicyMode;

    open spec fn deep_view(&self) -> TrafficProtectionPolicyMode {
        *self
    }
}

/// Where the rules of a policy come from.
#[derive(Debug, Clone, Copy, PartialEq, Eq, Structural)]
pub enum TrafficProtectionPolicyRuleSetType {
    OWASPCoreRuleSet,
}

impl DeepView for TrafficProtectionPolicyRuleSetType {
    type V = TrafficProtectionPolicyRuleSetType;

    open spec fn deep_view(&self) -> TrafficProtectionPolicyRuleSetType {
        *self
    }
}

/// How strict the core rule set is.
#[derive(Debug, Clone, PartialEq, Eq)]
pub struct ParanoiaLevels {
    pub blocking: Option<i32>,
    pub detection: Option<i32>,
}

/// The model of a [`ParanoiaLevels`].
#[verifier::ext_equal]
pub struct ParanoiaLevelsModel {
    pub blocking: Option<i32>,
    pub detection: Option<i32>,
}

impl DeepView for ParanoiaLevels {
    type V = ParanoiaLevelsModel;

    open spec fn deep_view(&self) -> ParanoiaLevelsModel {
        ParanoiaLevelsModel {
            blocking: self.blocking.deep_view(),
            detection: self.detection.deep_view(),
        }
    }
}

/// The settings of the OWASP core rule set.
#[derive(Debug, Clone, PartialEq, Eq)]
pub struct OWASPCRS {
    pub paranoia_levels: Option<ParanoiaLevels>,
}

/// The model of a [`OWASPCRS`].
#[verifier::ext_equal]
pub struct OWASPCRSModel {
    pub paranoia_levels: Option<ParanoiaLevelsModel>,
}

impl DeepView for OWASPCRS {
    type V = OWASPCRSModel;

    open spec fn deep_view(&self) -> OWASPCRSModel {
        OWASPCRSModel {
            paranoia_levels: self.paranoia_levels.deep_view(),
        }
    }
}

/// One rule set of a policy.
#[derive(Debug, Clone, PartialEq, Eq)]
pub struct TrafficProtectionPolicyRuleSet {
    pub rule_set_type: TrafficProtectionPolicyRuleSetType,
    pub owasp_core_rule_set: Option<OWASPCRS>,
}

/// The model of a [`TrafficProtectionPolicyRuleSet`].
#[verifier::ext_equal]
pub struct TrafficProtectionPolicyRuleSetModel {
    pub rule_set_type: TrafficProtectionPolicyRuleSetType,
    pub owasp_core_rule_set: Option<OWASPCRSModel>,
}

impl DeepView for TrafficProtectionPolicyRuleSet {
    type V = TrafficProtectionPolicyRuleSetModel;

    open spec fn deep_view(&self) -> TrafficProtectionPolicyRuleSetModel {
        TrafficProtectionPolicyRuleSetModel {
            rule_set_type: self.rule_set_type.deep_view(),
            owasp_core_rule_set: self.owasp_core_rule_set.deep_view(),
        }
    }
}

/// The desired state of a policy.
#[derive(Debug, Clone, PartialEq, Eq)]
pub struct TrafficProtectionPolicySpec {
    pub target_refs: Vec<LocalPolicyTargetReferenceWithSectionName>,
    pub mode: Option<TrafficProtectionPolicyMode>,
    pub sampling_percentage: Option<i32>,
    pub rule_sets: Option<Vec<TrafficProtectionPolicyRuleSet>>,
}

/// The model of a [`TrafficProtectionPolicySpec`].
#[verifier::ext_equal]
pub struct TrafficProtectionPolicySpecModel {
    pub target_refs: Seq<LocalPolicyTargetReferenceWithSectionNameModel>,
    pub mode: Option<TrafficProtectionPolicyMode>,
    pub sampling_percentage: Option<i32>,
    pub rule_sets: Option<Seq<TrafficProtectionPolicyRuleSetModel>>,
}

impl DeepView for TrafficProtectionPolicySpec {
    type V = TrafficProtectionPolicySpecModel;

    open spec fn deep_view(&self) -> TrafficProtectionPolicySpecModel {
        TrafficProtectionPolicySpecModel {
            target_refs: self.target_refs.deep_view(),
            mode: self.mode.deep_view(),
            sampling_percentage: self.sampling_percentage.deep_view(),
            rule_sets: self.rule_sets.deep_view(),
        }
    }
}

/// The web application firewall of a tunnel.
#[derive(Debug, Clone, PartialEq, Eq)]
pub struct TrafficProtectionPolicy {
    pub metadata: ObjectMeta,
    pub spec: TrafficProtectionPolicySpec,
}

/// The model of a [`TrafficProtectionPolicy`].
#[verifier::ext_equal]
pub struct TrafficProtectionPolicyModel {
    pub metadata: ObjectMetaModel,
    pub spec: TrafficProtectionPolicySpecModel,
}

impl DeepView for TrafficProtectionPolicy {
    type V = TrafficProtectionPolicyModel;

    open spec fn deep_view(&self) -> TrafficProtectionPolicyModel {
        TrafficProtectionPolicyModel {
            metadata: self.metadata.deep_view(),
            spec: self.spec.deep_view(),
        }
    }
}

} // verus!
