//! The acceptance policy: which attested environments a peer may run in.
//!
//! A policy is a list of rules. A rule constrains any of the four dimensions
//! of a measurement by a set of acceptable values. A measurement is accepted
//! when at least one rule matches it, and a rule matches when it constrains
//! at least one dimension and the measurement satisfies every constraint.

use vstd::prelude::*;

use crate::error::VerifyError;
use crate::measurement::{Measurement, SGXMeasurement, VerifiedMeasurement};

verus! {

/// The model of an [`InstanceMeasurement`]: for each dimension either no
/// constraint or the set of acceptable values.
pub struct MeasurementRule {
    pub signers: Option<Set<Seq<u8>>>,
    pub code_measurements: Option<Set<Seq<u8>>>,
    pub product_ids: Option<Set<u16>>,
    pub versions: Option<Set<u16>>,
}

impl MeasurementRule {
    /// The rule that constrains nothing.
    pub open spec fn unconstrained() -> MeasurementRule {
        MeasurementRule { signers: None, code_measurements: None, product_ids: None, versions: None }
    }

    /// Whether the rule constrains at least one dimension.
    pub open spec fn constrains(self) -> bool {
        ||| self.signers is Some
        ||| self.code_measurements is Some
        ||| self.product_ids is Some
        ||| self.versions is Some
    }

    /// Whether the measurement satisfies every constraint of the rule.
    pub open spec fn satisfied_by(self, m: Measurement) -> bool {
        &&& self.signers matches Some(allowed) ==> allowed.contains(m.signer)
        &&& self.code_measurements matches Some(allowed) ==> allowed.contains(m.code_measurement)
        &&& self.product_ids matches Some(allowed) ==> allowed.contains(m.product_id)
        &&& self.versions matches Some(allowed) ==> allowed.contains(m.version)
    }

    /// Whether the rule matches the measurement. A rule without constraints
    /// matches nothing.
    pub open spec fn matches(self, m: Measurement) -> bool {
        self.constrains() && self.satisfied_by(m)
    }
}

/// The model of a [`RaTlsConfig`]: its rules in the order they were added.
pub struct AttestationPolicy {
    pub rules: Seq<MeasurementRule>,
}

impl AttestationPolicy {
    /// Whether at least one rule of the policy matches the measurement.
    pub open spec fn accepts(self, m: Measurement) -> bool {
        exists|i: int| 0 <= i < self.rules.len() && #[trigger] self.rules[i].matches(m)
    }
}

/// The values that a list of measurements holds.
pub open spec fn measurement_set(list: Seq<SGXMeasurement>) -> Set<Seq<u8>> {
    Set::new(|value: Seq<u8>| exists|i: int| 0 <= i < list.len() && #[trigger] list[i]@ == value)
}

/// The model of an optional list of measurements.
pub open spec fn optional_measurement_set(list: Option<Vec<SGXMeasurement>>) -> Option<
    Set<Seq<u8>>,
> {
    match list {
        Some(values) => Some(measurement_set(values@)),
        None => None,
    }
}

/// The model of an optional list of numbers.
pub open spec fn optional_number_set(list: Option<Vec<u16>>) -> Option<Set<u16>> {
    match list {
        Some(values) => Some(values@.to_set()),
        None => None,
    }
}

/// Whether `value` occurs in `list`.
fn contains_measurement(list: &Vec<SGXMeasurement>, value: &SGXMeasurement) -> (found: bool)
    ensures
        found == measurement_set(list@).contains(value@),
{
    let mut i: usize = 0;
    while i < list.len()
        invariant
            i <= list.len(),
            forall|j: int| 0 <= j < i ==> list@[j]@ != value@,
        decreases list.len() - i,
    {
        if list[i] == *value {
            return true;
        }
        i = i + 1;
    }
    false
}

/// Whether `value` occurs in `list`.
fn contains_number(list: &Vec<u16>, value: u16) -> (found: bool)
    ensures
        found == list@.to_set().contains(value),
{
    let mut i: usize = 0;
    while i < list.len()
        invariant
            i <= list.len(),
            forall|j: int| 0 <= j < i ==> list@[j] != value,
        decreases list.len() - i,
    {
        if list[i] == value {
            return true;
        }
        i = i + 1;
    }
    false
}

/// A copy of an optional list of measurements.
fn clone_measurements(list: &Option<Vec<SGXMeasurement>>) -> (copy: Option<Vec<SGXMeasurement>>)
    ensures
        optional_measurement_set(copy) == optional_measurement_set(*list),
{
    match list {
        None => None,
        Some(values) => {
            let mut copied: Vec<SGXMeasurement> = Vec::new();
            let mut i: usize = 0;
            while i < values.len()
                invariant
                    i <= values.len(),
                    copied@ == values@.subrange(0, i as int),
                decreases values.len() - i,
            {
                copied.push(values[i]);
                assert(copied@ =~= values@.subrange(0, i as int + 1));
                i = i + 1;
            }
            assert(copied@ =~= values@);
            Some(copied)
        },
    }
}

/// A copy of an optional list of numbers.
fn clone_numbers(list: &Option<Vec<u16>>) -> (copy: Option<Vec<u16>>)
    ensures
        optional_number_set(copy) == optional_number_set(*list),
{
    match list {
        None => None,
        Some(values) => Some(values.clone()),
    }
}

/// One acceptable attestation profile.
pub struct InstanceMeasurement {
    pub(crate) mrsigners: Option<Vec<SGXMeasurement>>,
    pub(crate) mrenclaves: Option<Vec<SGXMeasurement>>,
    pub(crate) product_ids: Option<Vec<u16>>,
    pub(crate) versions: Option<Vec<u16>>,
}

impl View for InstanceMeasurement {
    type V = MeasurementRule;

    open(crate) spec fn view(&self) -> MeasurementRule {
        MeasurementRule {
            signers: optional_measurement_set(self.mrsigners),
            code_measurements: optional_measurement_set(self.mrenclaves),
            product_ids: optional_number_set(self.product_ids),
            versions: optional_number_set(self.versions),
        }
    }
}

impl Clone for InstanceMeasurement {
    fn clone(&self) -> (copy: Self)
        ensures
            copy@ == self@,
    {
        InstanceMeasurement {
            mrsigners: clone_measurements(&self.mrsigners),
            mrenclaves: clone_measurements(&self.mrenclaves),
            product_ids: clone_numbers(&self.product_ids),
            versions: clone_numbers(&self.versions),
        }
    }
}

impl Default for InstanceMeasurement {
    fn default() -> (rule: Self)
        ensures
            rule@ == MeasurementRule::unconstrained(),
    {
        InstanceMeasurement { mrsigners: None, mrenclaves: None, product_ids: None, versions: None }
    }
}

impl InstanceMeasurement {
    /// A rule without constraints. It matches nothing until one is added.
    pub fn new() -> (rule: Self)
        ensures
            rule@ == MeasurementRule::unconstrained(),
    {
        InstanceMeasurement { mrsigners: None, mrenclaves: None, product_ids: None, versions: None }
    }

    /// Constrains the signer measurement to the given values, replacing an
    /// earlier constraint on it.
    pub fn with_mrsigners(self, mrsigners: Vec<SGXMeasurement>) -> (rule: Self)
        ensures
            rule@ == (MeasurementRule { signers: Some(measurement_set(mrsigners@)), ..self@ }),
    {
        InstanceMeasurement {
            mrsigners: Some(mrsigners),
            mrenclaves: self.mrenclaves,
            product_ids: self.product_ids,
            versions: self.versions,
        }
    }

    /// Constrains the code measurement to the given values, replacing an
    /// earlier constraint on it.
    pub fn with_mrenclaves(self, mrenclaves: Vec<SGXMeasurement>) -> (rule: Self)
        ensures
            rule@ == (MeasurementRule {
                code_measurements: Some(measurement_set(mrenclaves@)),
                ..self@
            }),
    {
        InstanceMeasurement {
            mrsigners: self.mrsigners,
            mrenclaves: Some(mrenclaves),
            product_ids: self.product_ids,
            versions: self.versions,
        }
    }

    /// Constrains the product id to the given values, replacing an earlier
    /// constraint on it.
    pub fn with_product_ids(self, product_ids: Vec<u16>) -> (rule: Self)
        ensures
            rule@ == (MeasurementRule { product_ids: Some(product_ids@.to_set()), ..self@ }),
    {
        InstanceMeasurement {
            mrsigners: self.mrsigners,
            mrenclaves: self.mrenclaves,
            product_ids: Some(product_ids),
            versions: self.versions,
        }
    }

    /// Constrains the version to the given values, replacing an earlier
    /// constraint on it.
    pub fn with_versions(self, versions: Vec<u16>) -> (rule: Self)
        ensures
            rule@ == (MeasurementRule { versions: Some(versions@.to_set()), ..self@ }),
    {
        InstanceMeasurement {
            mrsigners: self.mrsigners,
            mrenclaves: self.mrenclaves,
            product_ids: self.product_ids,
            versions: Some(versions),
        }
    }

    /// Whether this rule matches the measurement.
    pub fn check_quote_measurements(&self, quote: &VerifiedMeasurement) -> (matched: bool)
        ensures
            matched == self@.matches(quote@),
    {
        let mut result = false;
        if let Some(mrsigners) = &self.mrsigners {
            result = true;
            if !contains_measurement(mrsigners, &quote.signer) {
                return false;
            }
        }
        if let Some(mrenclaves) = &self.mrenclaves {
            result = true;
            if !contains_measurement(mrenclaves, &quote.code_measurement) {
                return false;
            }
        }
        if let Some(product_ids) = &self.product_ids {
            result = true;
            if !contains_number(product_ids, quote.product_id) {
                return false;
            }
        }
        if let Some(versions) = &self.versions {
            result = true;
            if !contains_number(versions, quote.version) {
                return false;
            }
        }
        result
    }
}

/// The acceptance policy of one endpoint.
pub struct RaTlsConfig {
    pub(crate) allowed_instances: Vec<InstanceMeasurement>,
}

impl View for RaTlsConfig {
    type V = AttestationPolicy;

    open(crate) spec fn view(&self) -> AttestationPolicy {
        AttestationPolicy {
            rules: Seq::new(
                self.allowed_instances@.len(),
                |i: int| self.allowed_instances@[i]@,
            ),
        }
    }
}

impl Default for RaTlsConfig {
    fn default() -> (config: Self)
        ensures
            config@.rules == Seq::<MeasurementRule>::empty(),
    {
        RaTlsConfig { allowed_instances: Vec::new() }
    }
}

impl RaTlsConfig {
    /// A policy without rules. It accepts nothing until a rule is added.
    pub fn new() -> (config: Self)
        ensures
            config@.rules == Seq::<MeasurementRule>::empty(),
    {
        RaTlsConfig { allowed_instances: Vec::new() }
    }

    /// Adds a rule after those already present.
    pub fn allow_instance_measurement(self, instance_measurement: InstanceMeasurement) -> (config:
        Self)
        ensures
            config@.rules == self@.rules.push(instance_measurement@),
    {
        let mut allowed_instances = self.allowed_instances;
        allowed_instances.push(instance_measurement);
        RaTlsConfig { allowed_instances }
    }

    /// Whether the policy accepts the measurement.
    pub fn is_allowed(&self, quote: &VerifiedMeasurement) -> (allowed: bool)
        ensures
            allowed == self@.accepts(quote@),
    {
        let mut i: usize = 0;
        while i < self.allowed_instances.len()
            invariant
                i <= self.allowed_instances.len(),
                forall|j: int| 0 <= j < i ==> !(#[trigger] self@.rules[j]).matches(quote@),
            decreases self.allowed_instances.len() - i,
        {
            if self.allowed_instances[i].check_quote_measurements(quote) {
                assert(self@.rules[i as int].matches(quote@));
                return true;
            }
            i = i + 1;
        }
        false
    }

    /// Accepts the measurement or rejects it as outside the policy.
    pub fn is_allowed_quote(&self, quote: &VerifiedMeasurement) -> (verdict: Result<
        (),
        VerifyError,
    >)
        ensures
            verdict == if self@.accepts(quote@) {
                Ok::<(), VerifyError>(())
            } else {
                Err::<(), VerifyError>(VerifyError::PolicyRejected)
            },
    {
        if self.is_allowed(quote) {
            Ok(())
        } else {
            Err(VerifyError::PolicyRejected)
        }
    }
}

/// A rule without constraints rejects every measurement.
pub proof fn lemma_unconstrained_rule_matches_nothing(m: Measurement)
    ensures
        !MeasurementRule::unconstrained().matches(m),
{
}

/// A policy without rules rejects every measurement.
pub proof fn lemma_empty_policy_accepts_nothing(m: Measurement)
    ensures
        !(AttestationPolicy { rules: Seq::empty() }).accepts(m),
{
}

/// Rules are alternatives: a policy extended by one rule accepts exactly what
/// the policy accepted before and what the new rule matches.
pub proof fn lemma_added_rule_is_an_alternative(
    policy: AttestationPolicy,
    rule: MeasurementRule,
    m: Measurement,
)
    ensures
        (AttestationPolicy { rules: policy.rules.push(rule) }).accepts(m) <==> policy.accepts(m)
            || rule.matches(m),
{
    let extended = AttestationPolicy { rules: policy.rules.push(rule) };
    if policy.accepts(m) {
        let i = choose|i: int| 0 <= i < policy.rules.len() && #[trigger] policy.rules[i].matches(m);
        assert(extended.rules[i].matches(m));
    }
    if rule.matches(m) {
        assert(extended.rules[policy.rules.len() as int].matches(m));
    }
    if extended.accepts(m) {
        let i = choose|i: int|
            0 <= i < extended.rules.len() && #[trigger] extended.rules[i].matches(m);
        if i < policy.rules.len() {
            assert(policy.rules[i].matches(m));
        }
    }
}

/// Constraints within a rule are cumulative: a measurement that violates one
/// constrained dimension is not matched, whatever its other dimensions hold.
pub proof fn lemma_rule_requires_every_constraint(rule: MeasurementRule, m: Measurement)
    ensures
        rule.signers matches Some(allowed) && !allowed.contains(m.signer) ==> !rule.matches(m),
        rule.code_measurements matches Some(allowed) && !allowed.contains(m.code_measurement)
            ==> !rule.matches(m),
        rule.product_ids matches Some(allowed) && !allowed.contains(m.product_id) ==> !rule.matches(
            m,
        ),
        rule.versions matches Some(allowed) && !allowed.contains(m.version) ==> !rule.matches(m),
{
}

/// A constraint that lists a single value demands exactly that value, so a
/// rule of single-valued constraints is a conjunction of equalities.
pub proof fn lemma_single_value_is_exact(
    value: SGXMeasurement,
    number: u16,
    measured_value: Seq<u8>,
    measured_number: u16,
)
    ensures
        measurement_set(seq![value]).contains(measured_value) <==> measured_value == value@,
        seq![number].to_set().contains(measured_number) <==> measured_number == number,
{
    let values = seq![value];
    if measured_value == value@ {
        assert(values[0]@ == measured_value);
    }
    let numbers = seq![number];
    if measured_number == number {
        assert(numbers[0] == measured_number);
    }
}

} // verus!
