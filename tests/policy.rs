use edc_connector_client::types::policy::{
    Action, AtomicConstraint, Constraint, LeftOperand, MultiplicityConstraint, NewPolicyDefinition,
    Obligation, Operator, Permission, Policy, PolicyDefinition, PolicyKind, Prohibition, Target,
    ODRL_USE,
};
use edc_connector_client::types::properties::{Number, PropertyValue};

#[test]
fn default_action_is_odrl_use() {
    let a = Action::default();
    assert_eq!(a, Action::Id { id: ODRL_USE.to_string() });
    assert_eq!(a.id(), ODRL_USE);
    assert_eq!(Action::Simple("read".to_string()).id(), "read");
    assert_eq!(Action::new("x".to_string()), Action::Id { id: "x".to_string() });
}

#[test]
fn policy_builder_collects_rules() {
    let c = Constraint::atomic(AtomicConstraint::new("purpose", "eq", "research".to_string()));
    let permission = Permission::builder().constraint(c.clone()).build();
    assert_eq!(permission.action(), &Action::default());
    assert_eq!(permission.constraints(), &[c.clone()]);
    let obligation = Obligation::builder(Action::new("notify".to_string())).constraints(vec![c.clone()]).build();
    let prohibition = Prohibition::builder(Action::new("share".to_string())).build();
    let policy = Policy::builder()
        .id("p1")
        .kind(PolicyKind::Offer)
        .assignee("consumer")
        .assigner("provider")
        .target(Target::id("asset-1"))
        .permission(permission.clone())
        .obligation(obligation.clone())
        .prohibition(prohibition.clone())
        .build();
    assert_eq!(policy.id().map(|s| s.as_str()), Some("p1"));
    assert_eq!(policy.kind(), &PolicyKind::Offer);
    assert_eq!(policy.assignee().map(|s| s.as_str()), Some("consumer"));
    assert_eq!(policy.assigner().map(|s| s.as_str()), Some("provider"));
    assert_eq!(policy.target().map(|t| t.get_id()), Some("asset-1"));
    assert_eq!(policy.permissions(), &[permission]);
    assert_eq!(policy.obligations(), &[obligation.clone()]);
    assert_eq!(policy.prohibitions(), &[prohibition]);
    assert_eq!(obligation.action().id(), "notify");
    assert_eq!(obligation.constraints().len(), 1);
}

#[test]
fn policy_builder_replaces_rule_lists() {
    let p = Permission::builder().action(Action::new("a".to_string())).constraints(vec![]).build();
    let policy = Policy::builder()
        .permission(p.clone())
        .permissions(vec![])
        .obligations(vec![])
        .prohibitions(vec![Prohibition::builder(Action::default()).constraints(vec![]).build()])
        .build();
    assert!(policy.permissions().is_empty());
    assert!(policy.obligations().is_empty());
    assert_eq!(policy.prohibitions().len(), 1);
    assert_eq!(policy.kind(), &PolicyKind::PolicySet);
    assert_eq!(PolicyKind::default(), PolicyKind::PolicySet);
    assert_eq!(p.action().id(), "a");
}

#[test]
fn constraints_combine() {
    let a = Constraint::atomic(AtomicConstraint::new("x", "lt", 5i64));
    let b = Constraint::atomic(AtomicConstraint::new_with_operator(
        LeftOperand::id("y"),
        Operator::id("odrl:eq"),
        true,
    ));
    let or = Constraint::or(vec![a.clone(), b.clone()]);
    assert_eq!(or, Constraint::MultiplicityConstraint(MultiplicityConstraint::Or(vec![a.clone(), b.clone()])));
    let and = Constraint::and(vec![or.clone()]);
    assert!(matches!(&and, Constraint::MultiplicityConstraint(MultiplicityConstraint::And(v)) if v.len() == 1));
    let xone = Constraint::xone(vec![]);
    assert_eq!(xone.clone(), xone);
    assert_eq!(and.clone(), and);
    if let Constraint::Atomic(atomic) = &a {
        assert_eq!(atomic.left_operand(), &LeftOperand::Simple("x".to_string()));
        assert_eq!(atomic.operator(), &Operator::Simple("lt".to_string()));
        assert_eq!(atomic.right_operand(), &PropertyValue::Number(Number::PosInt(5)));
    } else {
        panic!("expected an atomic constraint");
    }
    assert_eq!(LeftOperand::from("z"), LeftOperand::Id { id: "z".to_string() });
    assert_eq!(LeftOperand::simple("s"), LeftOperand::Simple("s".to_string()));
    assert_eq!(Operator::simple("eq"), Operator::Simple("eq".to_string()));
    assert_eq!(Target::simple("t").get_id(), "t");
}

#[test]
fn policy_definitions() {
    let d = PolicyDefinition::builder("def-1", Policy::builder().build())
        .private_property("k", "v".to_string())
        .build();
    assert_eq!(d.id(), "def-1");
    assert_eq!(d.private_property::<String>("k"), Ok(Some("v".to_string())));
    assert_eq!(d.policy(), &Policy::builder().build());
    let default = PolicyDefinition::default();
    assert_eq!(default.id(), "");
    assert_eq!(default.policy().kind(), &PolicyKind::PolicySet);
    let n = NewPolicyDefinition::builder(Policy::builder().build()).id("n").private_property("a", 1i64).build();
    assert_eq!(n.id.as_deref(), Some("n"));
    assert!(NewPolicyDefinition::default().id.is_none());
}

#[test]
fn policy_clone_keeps_every_part() {
    let c = Constraint::and(vec![
        Constraint::atomic(AtomicConstraint::new("x", "lt", 5i64)),
        Constraint::xone(vec![Constraint::atomic(AtomicConstraint::new("y", "eq", "z".to_string()))]),
    ]);
    let policy = Policy::builder()
        .id("p")
        .target(Target::simple("t"))
        .permission(Permission::builder().constraint(c.clone()).build())
        .obligation(Obligation::builder(Action::new("o".to_string())).constraint(c.clone()).build())
        .prohibition(Prohibition::builder(Action::Simple("s".to_string())).build())
        .build();
    let copy = policy.clone();
    assert_eq!(copy, policy);
    assert_eq!(copy.permissions()[0].constraints()[0], c);
}
