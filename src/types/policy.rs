//! Usage policies in the ODRL vocabulary, and policy definitions.
use vstd::prelude::*;

use crate::types::properties::{
    ConversionError, FromValue, Properties, PropertyValue, ToValue, reads_as, store,
};

verus! {

/// A policy stored on the connector under an identifier.
#[derive(Debug, Clone)]
pub struct PolicyDefinition {
    pub private_properties: Properties,
    pub id: String,
    pub policy: Policy,
}

/// Builds a `PolicyDefinition`.
pub struct PolicyDefinitionBuilder {
    pub private_properties: Properties,
    pub id: String,
    pub policy: Policy,
}

impl PolicyDefinition {
    /// A builder for a definition with identifier `id` and policy `policy`,
    /// and no private properties yet.
    pub fn builder(id: &str, policy: Policy) -> (r: PolicyDefinitionBuilder)
        ensures
            r.id@ == id@,
            r.policy == policy,
            r.private_properties.model().len() == 0,
    {
        PolicyDefinitionBuilder { private_properties: Properties::new(), id: id.to_owned(), policy }
    }

    pub fn policy(&self) -> (r: &Policy)
        ensures
            *r == self.policy,
    {
        &self.policy
    }

    /// The private property `property`, read as a `T`.
    pub fn private_property<T: FromValue>(&self, property: &str) -> (r: Result<
        Option<T>,
        ConversionError,
    >)
        ensures
            reads_as(self.private_properties.model(), property@, r),
    {
        self.private_properties.get(property)
    }

    pub fn id(&self) -> (r: &str)
        ensures
            r@ == self.id@,
    {
        self.id.as_str()
    }
}

impl PolicyDefinitionBuilder {
    /// Stores `value` as the private property `property`.
    pub fn private_property<T: ToValue>(self, property: &str, value: T) -> (r: Self)
        ensures
            r.private_properties.model() == store(
                self.private_properties.model(),
                property@,
                T::to_json(value.deep_view()),
            ),
            r.id == self.id,
            r.policy == self.policy,
    {
        let mut b = self;
        b.private_properties.set(property, value);
        b
    }

    pub fn build(self) -> (r: PolicyDefinition)
        ensures
            r.private_properties == self.private_properties,
            r.id == self.id,
            r.policy == self.policy,
    {
        PolicyDefinition { private_properties: self.private_properties, id: self.id, policy: self.policy }
    }
}

/// A policy to be stored on the connector; the connector picks the
/// identifier where none is given.
#[derive(Debug)]
pub struct NewPolicyDefinition {
    pub private_properties: Properties,
    pub id: Option<String>,
    pub policy: Policy,
}

/// Builds a `NewPolicyDefinition`.
pub struct NewPolicyDefinitionBuilder {
    pub private_properties: Properties,
    pub id: Option<String>,
    pub policy: Policy,
}

impl NewPolicyDefinition {
    /// A builder for a definition of `policy`, with no identifier and no
    /// private properties yet.
    pub fn builder(policy: Policy) -> (r: NewPolicyDefinitionBuilder)
        ensures
            r.id is None,
            r.policy == policy,
            r.private_properties.model().len() == 0,
    {
        NewPolicyDefinitionBuilder { private_properties: Properties::new(), id: None, policy }
    }
}

impl NewPolicyDefinitionBuilder {
    pub fn id(self, id: &str) -> (r: Self)
        ensures
            r.id is Some && r.id->Some_0@ == id@,
            r.policy == self.policy,
            r.private_properties == self.private_properties,
    {
        NewPolicyDefinitionBuilder { private_properties: self.private_properties, id: Some(id.to_owned()), policy: self.policy }
    }

    /// Stores `value` as the private property `property`.
    pub fn private_property<T: ToValue>(self, property: &str, value: T) -> (r: Self)
        ensures
            r.private_properties.model() == store(
                self.private_properties.model(),
                property@,
                T::to_json(value.deep_view()),
            ),
            r.id == self.id,
            r.policy == self.policy,
    {
        let mut b = self;
        b.private_properties.set(property, value);
        b
    }

    pub fn build(self) -> (r: NewPolicyDefinition)
        ensures
            r.private_properties == self.private_properties,
            r.id == self.id,
            r.policy == self.policy,
    {
        NewPolicyDefinition { private_properties: self.private_properties, id: self.id, policy: self.policy }
    }
}

impl Default for PolicyDefinition {
    /// An empty identifier and an empty set policy.
    fn default() -> (r: Self)
        ensures
            r.id@.len() == 0,
            r.private_properties.model().len() == 0,
            r.policy.permissions@.len() == 0,
            r.policy.obligations@.len() == 0,
            r.policy.prohibitions@.len() == 0,
            r.policy.kind == PolicyKind::PolicySet,
            r.policy.id is None,
    {
        PolicyDefinition {
            id: String::new(),
            policy: Policy::builder().build(),
            private_properties: Properties::new(),
        }
    }
}

impl Default for NewPolicyDefinition {
    /// No identifier and an empty set policy.
    fn default() -> (r: Self)
        ensures
            r.id is None,
            r.private_properties.model().len() == 0,
            r.policy.permissions@.len() == 0,
            r.policy.obligations@.len() == 0,
            r.policy.prohibitions@.len() == 0,
            r.policy.kind == PolicyKind::PolicySet,
            r.policy.id is None,
    {
        NewPolicyDefinition { id: None, policy: Policy::builder().build(), private_properties: Properties::new() }
    }
}

/// A usage policy: what is permitted, obliged and prohibited, and between whom.
#[derive(Debug, PartialEq)]
pub struct Policy {
    pub permissions: Vec<Permission>,
    pub obligations: Vec<Obligation>,
    pub prohibitions: Vec<Prohibition>,
    pub id: Option<String>,
    pub kind: PolicyKind,
    pub assignee: Option<String>,
    pub assigner: Option<String>,
    pub target: Option<Target>,
}

/// Builds a `Policy`.
pub struct PolicyBuilder {
    pub permissions: Vec<Permission>,
    pub obligations: Vec<Obligation>,
    pub prohibitions: Vec<Prohibition>,
    pub id: Option<String>,
    pub kind: PolicyKind,
    pub assignee: Option<String>,
    pub assigner: Option<String>,
    pub target: Option<Target>,
}

impl Policy {
    /// A builder for a set policy with no rules, identifier, parties or target.
    pub fn builder() -> (r: PolicyBuilder)
        ensures
            r.permissions@.len() == 0,
            r.obligations@.len() == 0,
            r.prohibitions@.len() == 0,
            r.id is None,
            r.kind == PolicyKind::PolicySet,
            r.assignee is None,
            r.assigner is None,
            r.target is None,
    {
        PolicyBuilder {
            permissions: Vec::new(),
            obligations: Vec::new(),
            prohibitions: Vec::new(),
            id: None,
            kind: PolicyKind::PolicySet,
            assignee: None,
            assigner: None,
            target: None,
        }
    }

    pub fn kind(&self) -> (r: &PolicyKind)
        ensures
            *r == self.kind,
    {
        &self.kind
    }

    pub fn id(&self) -> (r: Option<&String>)
        ensures
            r == match self.id {
                Some(s) => Some(&s),
                None => None::<&String>,
            },
    {
        self.id.as_ref()
    }

    pub fn assignee(&self) -> (r: Option<&String>)
        ensures
            r == match self.assignee {
                Some(s) => Some(&s),
                None => None::<&String>,
            },
    {
        self.assignee.as_ref()
    }

    pub fn assigner(&self) -> (r: Option<&String>)
        ensures
            r == match self.assigner {
                Some(s) => Some(&s),
                None => None::<&String>,
            },
    {
        self.assigner.as_ref()
    }

    pub fn target(&self) -> (r: Option<&Target>)
        ensures
            r == match self.target {
                Some(t) => Some(&t),
                None => None::<&Target>,
            },
    {
        self.target.as_ref()
    }

    pub fn permissions(&self) -> (r: &[Permission])
        ensures
            r@ == self.permissions@,
    {
        self.permissions.as_slice()
    }

    pub fn obligations(&self) -> (r: &[Obligation])
        ensures
            r@ == self.obligations@,
    {
        self.obligations.as_slice()
    }

    pub fn prohibitions(&self) -> (r: &[Prohibition])
        ensures
            r@ == self.prohibitions@,
    {
        self.prohibitions.as_slice()
    }
}


impl PolicyBuilder {
    /// `self` and `other` agree on all but the rule lists.
    pub open spec fn same_header(&self, other: &PolicyBuilder) -> bool {
        &&& self.id == other.id
        &&& self.kind == other.kind
        &&& self.assignee == other.assignee
        &&& self.assigner == other.assigner
        &&& self.target == other.target
    }

    pub fn id(self, id: &str) -> (r: Self)
        ensures
            r.id is Some && r.id->Some_0@ == id@,
            r.permissions == self.permissions && r.obligations == self.obligations
                && r.prohibitions == self.prohibitions && r.kind == self.kind
                && r.assignee == self.assignee && r.assigner == self.assigner
                && r.target == self.target,
    {
        let mut b = self;
        b.id = Some(id.to_owned());
        b
    }

    pub fn kind(self, kind: PolicyKind) -> (r: Self)
        ensures
            r.kind == kind,
            r.permissions == self.permissions && r.obligations == self.obligations
                && r.prohibitions == self.prohibitions && r.id == self.id
                && r.assignee == self.assignee && r.assigner == self.assigner
                && r.target == self.target,
    {
        let mut b = self;
        b.kind = kind;
        b
    }

    pub fn assignee(self, assignee: &str) -> (r: Self)
        ensures
            r.assignee is Some && r.assignee->Some_0@ == assignee@,
            r.permissions == self.permissions && r.obligations == self.obligations
                && r.prohibitions == self.prohibitions && r.id == self.id && r.kind == self.kind
                && r.assigner == self.assigner && r.target == self.target,
    {
        let mut b = self;
        b.assignee = Some(assignee.to_owned());
        b
    }

    pub fn assigner(self, assigner: &str) -> (r: Self)
        ensures
            r.assigner is Some && r.assigner->Some_0@ == assigner@,
            r.permissions == self.permissions && r.obligations == self.obligations
                && r.prohibitions == self.prohibitions && r.id == self.id && r.kind == self.kind
                && r.assignee == self.assignee && r.target == self.target,
    {
        let mut b = self;
        b.assigner = Some(assigner.to_owned());
        b
    }

    pub fn target(self, target: Target) -> (r: Self)
        ensures
            r.target == Some(target),
            r.permissions == self.permissions && r.obligations == self.obligations
                && r.prohibitions == self.prohibitions && r.id == self.id && r.kind == self.kind
                && r.assignee == self.assignee && r.assigner == self.assigner,
    {
        let mut b = self;
        b.target = Some(target);
        b
    }

    /// Replaces the permissions.
    pub fn permissions(self, permissions: Vec<Permission>) -> (r: Self)
        ensures
            r.permissions == permissions,
            r.obligations == self.obligations && r.prohibitions == self.prohibitions,
            r.same_header(&self),
    {
        let mut b = self;
        b.permissions = permissions;
        b
    }

    /// Appends a permission.
    pub fn permission(self, permission: Permission) -> (r: Self)
        ensures
            r.permissions@ == self.permissions@.push(permission),
            r.obligations == self.obligations && r.prohibitions == self.prohibitions,
            r.same_header(&self),
    {
        let mut b = self;
        b.permissions.push(permission);
        b
    }

    /// Replaces the prohibitions.
    pub fn prohibitions(self, prohibitions: Vec<Prohibition>) -> (r: Self)
        ensures
            r.prohibitions == prohibitions,
            r.permissions == self.permissions && r.obligations == self.obligations,
            r.same_header(&self),
    {
        let mut b = self;
        b.prohibitions = prohibitions;
        b
    }

    /// Appends a prohibition.
    pub fn prohibition(self, prohibition: Prohibition) -> (r: Self)
        ensures
            r.prohibitions@ == self.prohibitions@.push(prohibition),
            r.permissions == self.permissions && r.obligations == self.obligations,
            r.same_header(&self),
    {
        let mut b = self;
        b.prohibitions.push(prohibition);
        b
    }

    /// Replaces the obligations.
    pub fn obligations(self, obligations: Vec<Obligation>) -> (r: Self)
        ensures
            r.obligations == obligations,
            r.permissions == self.permissions && r.prohibitions == self.prohibitions,
            r.same_header(&self),
    {
        let mut b = self;
        b.obligations = obligations;
        b
    }

    /// Appends an obligation.
    pub fn obligation(self, obligation: Obligation) -> (r: Self)
        ensures
            r.obligations@ == self.obligations@.push(obligation),
            r.permissions == self.permissions && r.prohibitions == self.prohibitions,
            r.same_header(&self),
    {
        let mut b = self;
        b.obligations.push(obligation);
        b
    }

    pub fn build(self) -> (r: Policy)
        ensures
            r.permissions == self.permissions && r.obligations == self.obligations
                && r.prohibitions == self.prohibitions && r.id == self.id && r.kind == self.kind
                && r.assignee == self.assignee && r.assigner == self.assigner
                && r.target == self.target,
    {
        Policy {
            permissions: self.permissions,
            obligations: self.obligations,
            prohibitions: self.prohibitions,
            id: self.id,
            kind: self.kind,
            assignee: self.assignee,
            assigner: self.assigner,
            target: self.target,
        }
    }
}

/// The kind of a policy.
#[derive(Debug, PartialEq, Eq, Structural, Clone, Copy)]
pub enum PolicyKind {
    PolicySet,
    Offer,
    Agreement,
}

impl Default for PolicyKind {
    fn default() -> (r: Self)
        ensures
            r == PolicyKind::PolicySet,
    {
        PolicyKind::PolicySet
    }
}

/// A rule that permits an action, under constraints.
#[derive(Debug, PartialEq)]
pub struct Permission {
    pub constraints: Vec<Constraint>,
    pub action: Action,
}

/// Builds a `Permission`.
pub struct PermissionBuilder {
    pub constraints: Vec<Constraint>,
    pub action: Action,
}

impl Permission {
    /// A builder for a permission of the default action, with no constraints.
    pub fn builder() -> (r: PermissionBuilder)
        ensures
            r.constraints@.len() == 0,
            r.action.is_use(),
    {
        PermissionBuilder { constraints: Vec::new(), action: Action::default() }
    }

    pub fn action(&self) -> (r: &Action)
        ensures
            *r == self.action,
    {
        &self.action
    }

    pub fn constraints(&self) -> (r: &[Constraint])
        ensures
            r@ == self.constraints@,
    {
        self.constraints.as_slice()
    }
}

impl PermissionBuilder {
    pub fn action(self, action: Action) -> (r: Self)
        ensures
            r.action == action,
            r.constraints == self.constraints,
    {
        PermissionBuilder { constraints: self.constraints, action }
    }

    /// Replaces the constraints.
    pub fn constraints(self, constraints: Vec<Constraint>) -> (r: Self)
        ensures
            r.constraints == constraints,
            r.action == self.action,
    {
        PermissionBuilder { constraints, action: self.action }
    }

    /// Appends a constraint.
    pub fn constraint(self, constraint: Constraint) -> (r: Self)
        ensures
            r.constraints@ == self.constraints@.push(constraint),
            r.action == self.action,
    {
        let mut b = self;
        b.constraints.push(constraint);
        b
    }

    pub fn build(self) -> (r: Permission)
        ensures
            r.constraints == self.constraints,
            r.action == self.action,
    {
        Permission { constraints: self.constraints, action: self.action }
    }
}

/// A rule that obliges an action, under constraints.
#[derive(Debug, PartialEq)]
pub struct Obligation {
    pub constraints: Vec<Constraint>,
    pub action: Action,
}

/// Builds an `Obligation`.
pub struct ObligationBuilder {
    pub constraints: Vec<Constraint>,
    pub action: Action,
}

impl Obligation {
    /// A builder for an obligation of `action`, with no constraints.
    pub fn builder(action: Action) -> (r: ObligationBuilder)
        ensures
            r.constraints@.len() == 0,
            r.action == action,
    {
        ObligationBuilder { constraints: Vec::new(), action }
    }

    pub fn action(&self) -> (r: &Action)
        ensures
            *r == self.action,
    {
        &self.action
    }

    pub fn constraints(&self) -> (r: &[Constraint])
        ensures
            r@ == self.constraints@,
    {
        self.constraints.as_slice()
    }
}

impl ObligationBuilder {
    /// Replaces the constraints.
    pub fn constraints(self, constraints: Vec<Constraint>) -> (r: Self)
        ensures
            r.constraints == constraints,
            r.action == self.action,
    {
        ObligationBuilder { constraints, action: self.action }
    }

    /// Appends a constraint.
    pub fn constraint(self, constraint: Constraint) -> (r: Self)
        ensures
            r.constraints@ == self.constraints@.push(constraint),
            r.action == self.action,
    {
        let mut b = self;
        b.constraints.push(constraint);
        b
    }

    pub fn build(self) -> (r: Obligation)
        ensures
            r.constraints == self.constraints,
            r.action == self.action,
    {
        Obligation { constraints: self.constraints, action: self.action }
    }
}

/// A rule that prohibits an action, under constraints.
#[derive(Debug, PartialEq)]
pub struct Prohibition {
    pub constraints: Vec<Constraint>,
    pub action: Action,
}

/// Builds a `Prohibition`.
pub struct ProhibitionBuilder {
    pub constraints: Vec<Constraint>,
    pub action: Action,
}

impl Prohibition {
    /// A builder for a prohibition of `action`, with no constraints.
    pub fn builder(action: Action) -> (r: ProhibitionBuilder)
        ensures
            r.constraints@.len() == 0,
            r.action == action,
    {
        ProhibitionBuilder { constraints: Vec::new(), action }
    }

    pub fn action(&self) -> (r: &Action)
        ensures
            *r == self.action,
    {
        &self.action
    }

    pub fn constraints(&self) -> (r: &[Constraint])
        ensures
            r@ == self.constraints@,
    {
        self.constraints.as_slice()
    }
}

impl ProhibitionBuilder {
    /// Replaces the constraints.
    pub fn constraints(self, constraints: Vec<Constraint>) -> (r: Self)
        ensures
            r.constraints == constraints,
            r.action == self.action,
    {
        ProhibitionBuilder { constraints, action: self.action }
    }

    /// Appends a constraint.
    pub fn constraint(self, constraint: Constraint) -> (r: Self)
        ensures
            r.constraints@ == self.constraints@.push(constraint),
            r.action == self.action,
    {
        let mut b = self;
        b.constraints.push(constraint);
        b
    }

    pub fn build(self) -> (r: Prohibition)
        ensures
            r.constraints == self.constraints,
            r.action == self.action,
    {
        Prohibition { constraints: self.constraints, action: self.action }
    }
}

/// The action a rule is about: a bare name or a node reference.
#[derive(Debug, PartialEq)]
pub enum Action {
    Simple(String),
    Id { id: String },
}

/// The target asset of a policy: a bare name or a node reference.
#[derive(Debug, PartialEq)]
pub enum Target {
    Simple(String),
    Id { id: String },
}

impl Target {
    pub fn simple(target: &str) -> (r: Target)
        ensures
            r is Simple && r->Simple_0@ == target@,
    {
        Target::Simple(target.to_owned())
    }

    pub fn id(target: &str) -> (r: Target)
        ensures
            r is Id && r->Id_id@ == target@,
    {
        Target::Id { id: target.to_owned() }
    }

    /// The name or the referenced identifier.
    pub fn get_id(&self) -> (r: &str)
        ensures
            r@ == match self {
                Target::Simple(t) => t@,
                Target::Id { id } => id@,
            },
    {
        match self {
            Target::Simple(target) => target.as_str(),
            Target::Id { id } => id.as_str(),
        }
    }
}

/// The identifier of the action "use" in the ODRL vocabulary.
pub const ODRL_USE: &'static str = "http://www.w3.org/ns/odrl/2/use";

impl Action {
    /// This action is a reference to the ODRL "use" action.
    pub open spec fn is_use(&self) -> bool {
        self is Id && self->Id_id@ == ODRL_USE@
    }

    /// The name or the referenced identifier.
    pub fn id(&self) -> (r: &String)
        ensures
            r@ == match self {
                Action::Simple(id) => id@,
                Action::Id { id } => id@,
            },
    {
        match self {
            Action::Simple(id) => id,
            Action::Id { id } => id,
        }
    }

    /// A reference to the action `kind`.
    pub fn new(kind: String) -> (r: Self)
        ensures
            r == (Action::Id { id: kind }),
    {
        Action::Id { id: kind }
    }
}

impl Default for Action {
    fn default() -> (r: Self)
        ensures
            r.is_use(),
    {
        Action::new(ODRL_USE.to_owned())
    }
}

/// A constraint on a rule: a single comparison, or a combination of constraints.
#[derive(Debug, PartialEq)]
pub enum Constraint {
    Atomic(AtomicConstraint),
    MultiplicityConstraint(MultiplicityConstraint),
}

impl Constraint {
    pub fn atomic(atomic: AtomicConstraint) -> (r: Self)
        ensures
            r == Constraint::Atomic(atomic),
    {
        Constraint::Atomic(atomic)
    }

    /// Holds when at least one of `constraints` holds.
    pub fn or(constraints: Vec<Constraint>) -> (r: Self)
        ensures
            r == Constraint::MultiplicityConstraint(MultiplicityConstraint::Or(constraints)),
    {
        Constraint::MultiplicityConstraint(MultiplicityConstraint::Or(constraints))
    }

    /// Holds when all of `constraints` hold.
    pub fn and(constraints: Vec<Constraint>) -> (r: Self)
        ensures
            r == Constraint::MultiplicityConstraint(MultiplicityConstraint::And(constraints)),
    {
        Constraint::MultiplicityConstraint(MultiplicityConstraint::And(constraints))
    }

    /// Holds when exactly one of `constraints` holds.
    pub fn xone(constraints: Vec<Constraint>) -> (r: Self)
        ensures
            r == Constraint::MultiplicityConstraint(MultiplicityConstraint::Xone(constraints)),
    {
        Constraint::MultiplicityConstraint(MultiplicityConstraint::Xone(constraints))
    }
}

impl Constraint {
    /// `self` and `other` are the same constraint, part for part.
    pub open spec fn same_as(&self, other: &Constraint) -> bool
        decreases self, 1nat,
    {
        match (*self, *other) {
            (Constraint::Atomic(a), Constraint::Atomic(b)) => a.same_as(&b),
            (Constraint::MultiplicityConstraint(m), Constraint::MultiplicityConstraint(n)) => m.same_as(
                &n,
            ),
            _ => false,
        }
    }
}

impl MultiplicityConstraint {
    /// `self` and `other` combine the same constraints in the same way.
    pub open spec fn same_as(&self, other: &MultiplicityConstraint) -> bool
        decreases self, 1nat,
    {
        match (*self, *other) {
            (MultiplicityConstraint::Or(a), MultiplicityConstraint::Or(b)) => constraints_same(a@, b@),
            (MultiplicityConstraint::And(a), MultiplicityConstraint::And(b)) => constraints_same(
                a@,
                b@,
            ),
            (MultiplicityConstraint::Xone(a), MultiplicityConstraint::Xone(b)) => constraints_same(
                a@,
                b@,
            ),
            _ => false,
        }
    }
}

/// `s` and `t` hold the same constraints, in the same order.
pub open spec fn constraints_same(s: Seq<Constraint>, t: Seq<Constraint>) -> bool
    decreases s, 0nat,
{
    if s.len() == 0 {
        t.len() == 0
    } else {
        &&& t.len() == s.len()
        &&& constraints_same(s.subrange(0, s.len() - 1), t.subrange(0, t.len() - 1))
        &&& s[s.len() - 1].same_as(&t[t.len() - 1])
    }
}

proof fn lemma_constraints_same_push(s: Seq<Constraint>, t: Seq<Constraint>, x: Constraint, y: Constraint)
    requires
        constraints_same(s, t),
        x.same_as(&y),
    ensures
        constraints_same(s.push(x), t.push(y)),
{
    if s.len() == 0 {
        assert(t.len() == 0);
    }
    assert(s.push(x).subrange(0, s.len() as int) =~= s);
    assert(t.push(y).subrange(0, t.len() as int) =~= t);
}

fn copy_constraint(c: &Constraint) -> (r: Constraint)
    ensures
        r.same_as(c),
    decreases c, 1nat,
{
    match c {
        Constraint::Atomic(a) => Constraint::Atomic(a.clone()),
        Constraint::MultiplicityConstraint(m) => {
            proof {
                assert(decreases_to!(*c => c->MultiplicityConstraint_0));
            }
            Constraint::MultiplicityConstraint(copy_multiplicity(m))
        },
    }
}

fn copy_multiplicity(m: &MultiplicityConstraint) -> (r: MultiplicityConstraint)
    ensures
        r.same_as(m),
    decreases m, 0nat,
{
    match m {
        MultiplicityConstraint::Or(cs) => {
            proof {
                assert(decreases_to!(*m => m->Or_0));
            }
            MultiplicityConstraint::Or(copy_constraints(cs))
        },
        MultiplicityConstraint::And(cs) => {
            proof {
                assert(decreases_to!(*m => m->And_0));
            }
            MultiplicityConstraint::And(copy_constraints(cs))
        },
        MultiplicityConstraint::Xone(cs) => {
            proof {
                assert(decreases_to!(*m => m->Xone_0));
            }
            MultiplicityConstraint::Xone(copy_constraints(cs))
        },
    }
}

fn copy_constraints(cs: &Vec<Constraint>) -> (r: Vec<Constraint>)
    ensures
        constraints_same(r@, cs@),
    decreases cs, 2nat,
{
    let mut out: Vec<Constraint> = Vec::new();
    let mut i: usize = 0;
    proof {
        assert(cs@.subrange(0, 0) =~= Seq::<Constraint>::empty());
    }
    while i < cs.len()
        invariant
            i <= cs@.len(),
            constraints_same(out@, cs@.subrange(0, i as int)),
        decreases cs@.len() - i,
    {
        proof {
            vstd::std_specs::vec::axiom_vec_index_decreases(*cs, i as int);
        }
        let c = copy_constraint(&cs[i]);
        let ghost before = out@;
        out.push(c);
        proof {
            lemma_constraints_same_push(before, cs@.subrange(0, i as int), c, cs@[i as int]);
            assert(cs@.subrange(0, i as int).push(cs@[i as int]) =~= cs@.subrange(0, i + 1));
        }
        i = i + 1;
    }
    proof {
        assert(cs@.subrange(0, i as int) =~= cs@);
    }
    out
}

impl Clone for Constraint {
    fn clone(&self) -> (r: Self)
        ensures
            r.same_as(self),
    {
        copy_constraint(self)
    }
}

impl Clone for MultiplicityConstraint {
    fn clone(&self) -> (r: Self)
        ensures
            r.same_as(self),
    {
        copy_multiplicity(self)
    }
}

impl Clone for AtomicConstraint {
    fn clone(&self) -> (r: Self)
        ensures
            r.same_as(self),
    {
        AtomicConstraint {
            left_operand: self.left_operand.clone(),
            operator: self.operator.clone(),
            right_operand: self.right_operand.clone(),
        }
    }
}

impl AtomicConstraint {
    /// `self` and `other` compare the same operands by the same operator.
    pub open spec fn same_as(&self, other: &AtomicConstraint) -> bool {
        &&& self.left_operand == other.left_operand
        &&& self.operator == other.operator
        &&& self.right_operand.model() == other.right_operand.model()
    }
}

impl Clone for LeftOperand {
    fn clone(&self) -> (r: Self)
        ensures
            r == *self,
    {
        match self {
            LeftOperand::Simple(s) => LeftOperand::Simple(s.clone()),
            LeftOperand::Id { id } => LeftOperand::Id { id: id.clone() },
        }
    }
}

impl Clone for Operator {
    fn clone(&self) -> (r: Self)
        ensures
            r == *self,
    {
        match self {
            Operator::Simple(s) => Operator::Simple(s.clone()),
            Operator::Id { id } => Operator::Id { id: id.clone() },
        }
    }
}

impl Clone for Action {
    fn clone(&self) -> (r: Self)
        ensures
            r == *self,
    {
        match self {
            Action::Simple(s) => Action::Simple(s.clone()),
            Action::Id { id } => Action::Id { id: id.clone() },
        }
    }
}

impl Clone for Target {
    fn clone(&self) -> (r: Self)
        ensures
            r == *self,
    {
        match self {
            Target::Simple(s) => Target::Simple(s.clone()),
            Target::Id { id } => Target::Id { id: id.clone() },
        }
    }
}

impl Permission {
    /// `self` and `other` permit the same action under the same constraints.
    pub open spec fn same_as(&self, other: &Permission) -> bool {
        constraints_same(self.constraints@, other.constraints@) && self.action == other.action
    }
}

impl Clone for Permission {
    fn clone(&self) -> (r: Self)
        ensures
            r.same_as(self),
    {
        Permission { constraints: copy_constraints(&self.constraints), action: self.action.clone() }
    }
}

impl Obligation {
    /// `self` and `other` oblige the same action under the same constraints.
    pub open spec fn same_as(&self, other: &Obligation) -> bool {
        constraints_same(self.constraints@, other.constraints@) && self.action == other.action
    }
}

impl Clone for Obligation {
    fn clone(&self) -> (r: Self)
        ensures
            r.same_as(self),
    {
        Obligation { constraints: copy_constraints(&self.constraints), action: self.action.clone() }
    }
}

impl Prohibition {
    /// `self` and `other` prohibit the same action under the same constraints.
    pub open spec fn same_as(&self, other: &Prohibition) -> bool {
        constraints_same(self.constraints@, other.constraints@) && self.action == other.action
    }
}

impl Clone for Prohibition {
    fn clone(&self) -> (r: Self)
        ensures
            r.same_as(self),
    {
        Prohibition { constraints: copy_constraints(&self.constraints), action: self.action.clone() }
    }
}

pub(crate) fn copy_opt_string(s: &Option<String>) -> (r: Option<String>)
    ensures
        r == *s,
{
    match s {
        Some(x) => Some(x.clone()),
        None => None,
    }
}

fn copy_permissions(v: &Vec<Permission>) -> (r: Vec<Permission>)
    ensures
        r@.len() == v@.len(),
        forall|i: int| 0 <= i < v@.len() ==> #[trigger] r@[i].same_as(&v@[i]),
{
    let mut out: Vec<Permission> = Vec::new();
    let mut i: usize = 0;
    while i < v.len()
        invariant
            i <= v@.len(),
            out@.len() == i,
            forall|k: int| 0 <= k < i ==> #[trigger] out@[k].same_as(&v@[k]),
        decreases v@.len() - i,
    {
        out.push(v[i].clone());
        i = i + 1;
    }
    out
}

fn copy_obligations(v: &Vec<Obligation>) -> (r: Vec<Obligation>)
    ensures
        r@.len() == v@.len(),
        forall|i: int| 0 <= i < v@.len() ==> #[trigger] r@[i].same_as(&v@[i]),
{
    let mut out: Vec<Obligation> = Vec::new();
    let mut i: usize = 0;
    while i < v.len()
        invariant
            i <= v@.len(),
            out@.len() == i,
            forall|k: int| 0 <= k < i ==> #[trigger] out@[k].same_as(&v@[k]),
        decreases v@.len() - i,
    {
        out.push(v[i].clone());
        i = i + 1;
    }
    out
}

fn copy_prohibitions(v: &Vec<Prohibition>) -> (r: Vec<Prohibition>)
    ensures
        r@.len() == v@.len(),
        forall|i: int| 0 <= i < v@.len() ==> #[trigger] r@[i].same_as(&v@[i]),
{
    let mut out: Vec<Prohibition> = Vec::new();
    let mut i: usize = 0;
    while i < v.len()
        invariant
            i <= v@.len(),
            out@.len() == i,
            forall|k: int| 0 <= k < i ==> #[trigger] out@[k].same_as(&v@[k]),
        decreases v@.len() - i,
    {
        out.push(v[i].clone());
        i = i + 1;
    }
    out
}

impl Policy {
    /// `self` and `other` are the same policy, rule for rule.
    pub open spec fn same_as(&self, other: &Policy) -> bool {
        &&& self.permissions@.len() == other.permissions@.len()
        &&& forall|i: int|
            0 <= i < self.permissions@.len() ==> #[trigger] self.permissions@[i].same_as(
                &other.permissions@[i],
            )
        &&& self.obligations@.len() == other.obligations@.len()
        &&& forall|i: int|
            0 <= i < self.obligations@.len() ==> #[trigger] self.obligations@[i].same_as(
                &other.obligations@[i],
            )
        &&& self.prohibitions@.len() == other.prohibitions@.len()
        &&& forall|i: int|
            0 <= i < self.prohibitions@.len() ==> #[trigger] self.prohibitions@[i].same_as(
                &other.prohibitions@[i],
            )
        &&& self.id == other.id
        &&& self.kind == other.kind
        &&& self.assignee == other.assignee
        &&& self.assigner == other.assigner
        &&& self.target == other.target
    }
}

impl Clone for Policy {
    fn clone(&self) -> (r: Self)
        ensures
            r.same_as(self),
    {
        let target = match &self.target {
            Some(t) => Some(t.clone()),
            None => None,
        };
        Policy {
            permissions: copy_permissions(&self.permissions),
            obligations: copy_obligations(&self.obligations),
            prohibitions: copy_prohibitions(&self.prohibitions),
            id: copy_opt_string(&self.id),
            kind: self.kind,
            assignee: copy_opt_string(&self.assignee),
            assigner: copy_opt_string(&self.assigner),
            target,
        }
    }
}

/// The left operand of a comparison: a bare name or a node reference.
#[derive(Debug, PartialEq)]
pub enum LeftOperand {
    Simple(String),
    Id { id: String },
}

impl LeftOperand {
    pub fn simple(op: &str) -> (r: LeftOperand)
        ensures
            r is Simple && r->Simple_0@ == op@,
    {
        LeftOperand::Simple(op.to_owned())
    }

    pub fn id(op: &str) -> (r: LeftOperand)
        ensures
            r is Id && r->Id_id@ == op@,
    {
        LeftOperand::Id { id: op.to_owned() }
    }
}

impl From<&str> for LeftOperand {
    /// A reference to the operand `value`.
    fn from(value: &str) -> (r: LeftOperand)
        ensures
            r is Id && r->Id_id@ == value@,
    {
        LeftOperand::Id { id: value.to_owned() }
    }
}

impl vstd::std_specs::convert::FromSpecImpl<&str> for LeftOperand {
    open spec fn obeys_from_spec() -> bool {
        false
    }

    open spec fn from_spec(v: &str) -> LeftOperand {
        arbitrary()
    }
}

/// A single comparison: left operand, operator, right operand.
#[derive(Debug, PartialEq)]
pub struct AtomicConstraint {
    pub left_operand: LeftOperand,
    pub operator: Operator,
    pub right_operand: PropertyValue,
}

/// A combination of constraints.
#[derive(Debug, PartialEq)]
pub enum MultiplicityConstraint {
    Or(Vec<Constraint>),
    And(Vec<Constraint>),
    Xone(Vec<Constraint>),
}

/// The operator of a comparison: a bare name or a node reference.
#[derive(Debug, PartialEq)]
pub enum Operator {
    Simple(String),
    Id { id: String },
}

impl Operator {
    pub fn simple(op: &str) -> (r: Operator)
        ensures
            r is Simple && r->Simple_0@ == op@,
    {
        Operator::Simple(op.to_owned())
    }

    pub fn id(op: &str) -> (r: Operator)
        ensures
            r is Id && r->Id_id@ == op@,
    {
        Operator::Id { id: op.to_owned() }
    }
}

impl AtomicConstraint {
    /// A comparison of the named operand `left_operand` by the named operator
    /// `operator` against `right_operand`.
    pub fn new<T: ToValue>(left_operand: &str, operator: &str, right_operand: T) -> (r: Self)
        ensures
            r.left_operand is Simple && r.left_operand->Simple_0@ == left_operand@,
            r.operator is Simple && r.operator->Simple_0@ == operator@,
            r.right_operand.model() == T::to_json(right_operand.deep_view()),
    {
        AtomicConstraint::new_with_operator(
            LeftOperand::Simple(left_operand.to_owned()),
            Operator::Simple(operator.to_owned()),
            right_operand,
        )
    }

    /// A comparison of `left_operand` by `operator` against `right_operand`.
    pub fn new_with_operator<T: ToValue>(
        left_operand: LeftOperand,
        operator: Operator,
        right_operand: T,
    ) -> (r: Self)
        ensures
            r.left_operand == left_operand,
            r.operator == operator,
            r.right_operand.model() == T::to_json(right_operand.deep_view()),
    {
        AtomicConstraint { left_operand, operator, right_operand: right_operand.into_value() }
    }

    pub fn left_operand(&self) -> (r: &LeftOperand)
        ensures
            *r == self.left_operand,
    {
        &self.left_operand
    }

    pub fn operator(&self) -> (r: &Operator)
        ensures
            *r == self.operator,
    {
        &self.operator
    }

    pub fn right_operand(&self) -> (r: &PropertyValue)
        ensures
            *r == self.right_operand,
    {
        &self.right_operand
    }
}

} // verus!
