use event_rules::classify::{classify, BlockKind};
use event_rules::event_rules;
use event_rules::extract::{
    append_event_rules, append_unconditional_rules, event_rule_of, extract_rules,
    guarded_rule_of, leading_chain_of,
};
use event_rules::chain::Convention;
use event_rules::rule::{ConditionalScheduling, EventRoutine, EventRule};
use event_rules::syntax::{Expr, IfExpr, ImplBlock, Member, MethodCall, Procedure, Stmt};

fn text(s: &str) -> String {
    s.to_string()
}

fn method(name: &str) -> Expr {
    Expr::MethodCall(MethodCall { method: text(name) })
}

fn fallible(name: &str) -> Stmt {
    Stmt::Semi(Expr::Try(Box::new(method(name))))
}

fn direct(name: &str) -> Stmt {
    Stmt::Expr(method(name))
}

fn link(condition: &str, body: Vec<Stmt>, else_branch: Option<Expr>) -> IfExpr {
    IfExpr { condition: text(condition), then_branch: body, else_branch: else_branch.map(Box::new) }
}

fn procedure(name: &str, body_text: &str, body: Vec<Stmt>) -> Member {
    Member::Procedure(Procedure { name: text(name), body_text: text(body_text), body })
}

fn block(interface: Option<&[&str]>, members: Vec<Member>) -> ImplBlock {
    ImplBlock {
        self_type: text("Machine"),
        interface: interface.map(|path| path.iter().map(|segment| text(segment)).collect()),
        members,
    }
}

fn pair(event: &str, condition: &str) -> ConditionalScheduling {
    ConditionalScheduling { follow_up_event: text(event), condition: text(condition) }
}

fn conditional(name: &str, pairs: Vec<ConditionalScheduling>) -> EventRule {
    EventRule::new_conditional_scheduling(text(name), pairs)
}

fn unconditional(name: &str, body_text: &str) -> EventRule {
    EventRule::new_unconditional_state_transition(text(name), text(body_text))
}

/// `if cond1 { foo()?; } else if cond2 { bar()?; } else { return Err(..); }`
fn ext_chain() -> Stmt {
    Stmt::Expr(Expr::If(link(
        "cond1",
        vec![fallible("foo")],
        Some(Expr::If(link("cond2", vec![fallible("bar")], Some(Expr::Other)))),
    )))
}

/// `if cond1 { foo() } else { bar() }`
fn int_chain() -> Stmt {
    Stmt::Expr(Expr::If(link("cond1", vec![direct("foo")], Some(method("bar")))))
}

fn model_block() -> ImplBlock {
    block(
        Some(&["AsModel"]),
        vec![
            procedure("status", "{ self . status ( ) }", vec![direct("status")]),
            procedure("events_int", "{ int }", vec![int_chain()]),
            Member::Other,
            procedure("events_ext", "{ ext }", vec![ext_chain(), Stmt::Other]),
        ],
    )
}

fn free_block() -> ImplBlock {
    block(
        None,
        vec![
            procedure("arrive", "{ self . queue += 1 ; }", vec![Stmt::Semi(Expr::Other)]),
            procedure("events_ext", "{ if cond1 { self . foo ( ) ? ; } }", vec![ext_chain()]),
            procedure("depart", "{ }", Vec::new()),
        ],
    )
}

fn foreign_block() -> ImplBlock {
    block(
        Some(&["Display"]),
        vec![
            procedure("events_ext", "{ ext }", vec![ext_chain()]),
            procedure("events_int", "{ int }", vec![int_chain()]),
            procedure("fmt", "{ }", Vec::new()),
        ],
    )
}

#[test]
fn free_standing_block_gives_one_rule_per_procedure_in_order() {
    let analysis = event_rules(free_block());
    assert_eq!(
        analysis.rules,
        vec![
            unconditional("arrive", "{ self . queue += 1 ; }"),
            unconditional("events_ext", "{ if cond1 { self . foo ( ) ? ; } }"),
            unconditional("depart", "{ }"),
        ]
    );
}

#[test]
fn free_standing_block_without_procedures_gives_no_rule() {
    assert_eq!(event_rules(block(None, Vec::new())).rules, Vec::new());
    assert_eq!(event_rules(block(None, vec![Member::Other, Member::Other])).rules, Vec::new());
}

#[test]
fn free_standing_block_keeps_repeated_procedures() {
    let analysis = event_rules(block(
        None,
        vec![
            procedure("step", "{ a }", Vec::new()),
            procedure("step", "{ a }", Vec::new()),
            procedure("step", "{ b }", Vec::new()),
        ],
    ));
    assert_eq!(
        analysis.rules,
        vec![
            unconditional("step", "{ a }"),
            unconditional("step", "{ a }"),
            unconditional("step", "{ b }"),
        ]
    );
}

#[test]
fn free_standing_block_passes_over_members_that_are_no_procedures() {
    let analysis = event_rules(block(
        None,
        vec![
            Member::Other,
            procedure("first", "{ 1 }", Vec::new()),
            Member::Other,
            Member::Other,
            procedure("second", "{ 2 }", Vec::new()),
            Member::Other,
        ],
    ));
    assert_eq!(
        analysis.rules,
        vec![unconditional("first", "{ 1 }"), unconditional("second", "{ 2 }")]
    );
}

#[test]
fn free_standing_rule_count_is_the_procedure_count() {
    for count in 0..6usize {
        let members = (0..count)
            .map(|index| procedure(&format!("p{}", index), &format!("{{ {} }}", index), Vec::new()))
            .collect();
        let rules = event_rules(block(None, members)).rules;
        assert_eq!(rules.len(), count);
        for (index, rule) in rules.iter().enumerate() {
            assert_eq!(rule, &unconditional(&format!("p{}", index), &format!("{{ {} }}", index)));
        }
    }
}

#[test]
fn model_block_reads_the_external_chain() {
    let analysis = event_rules(block(
        Some(&["AsModel"]),
        vec![procedure("events_ext", "{ ext }", vec![ext_chain()])],
    ));
    assert_eq!(
        analysis.rules,
        vec![conditional("events_ext", vec![pair("foo", "cond1"), pair("bar", "cond2")])]
    );
}

#[test]
fn model_block_reads_the_internal_chain() {
    let analysis = event_rules(block(
        Some(&["AsModel"]),
        vec![procedure("events_int", "{ int }", vec![int_chain()])],
    ));
    assert_eq!(analysis.rules, vec![conditional("events_int", vec![pair("foo", "cond1")])]);
}

#[test]
fn model_block_gives_its_rules_in_declaration_order() {
    // `events_int` is declared first, so its rule comes first
    let analysis = event_rules(model_block());
    assert_eq!(
        analysis.rules,
        vec![
            conditional("events_int", vec![pair("foo", "cond1")]),
            conditional("events_ext", vec![pair("foo", "cond1"), pair("bar", "cond2")]),
        ]
    );
}

#[test]
fn internal_procedure_declared_first_gives_the_first_rule() {
    // fn events_int(&mut self) { if a { self.foo() } else { self.bar() } }
    // fn events_ext(&mut self) { if b { self.baz()?; } else { return Err(e); } }
    let internal = Stmt::Expr(Expr::If(link("a", vec![direct("foo")], Some(method("bar")))));
    let external = Stmt::Expr(Expr::If(link("b", vec![fallible("baz")], Some(Expr::Other))));
    let analysis = event_rules(block(
        Some(&["AsModel"]),
        vec![
            procedure("events_int", "{ int }", vec![internal]),
            procedure("events_ext", "{ ext }", vec![external]),
        ],
    ));
    assert_eq!(analysis.rules.len(), 2);
    assert_eq!(analysis.rules[0], conditional("events_int", vec![pair("foo", "a")]));
    assert_eq!(analysis.rules[1], conditional("events_ext", vec![pair("baz", "b")]));
}

#[test]
fn external_procedure_declared_first_gives_the_first_rule() {
    let analysis = event_rules(block(
        Some(&["AsModel"]),
        vec![
            procedure("events_ext", "{ ext }", vec![ext_chain()]),
            Member::Other,
            procedure("helper", "{ }", vec![int_chain()]),
            procedure("events_int", "{ int }", vec![int_chain()]),
        ],
    ));
    assert_eq!(
        analysis.rules,
        vec![
            conditional("events_ext", vec![pair("foo", "cond1"), pair("bar", "cond2")]),
            conditional("events_int", vec![pair("foo", "cond1")]),
        ]
    );
}

#[test]
fn each_convention_reads_its_own_procedure_by_its_own_shape() {
    // the chains are swapped: neither procedure holds a call of its own convention
    let analysis = event_rules(block(
        Some(&["AsModel"]),
        vec![
            procedure("events_ext", "{ }", vec![int_chain()]),
            procedure("events_int", "{ }", vec![ext_chain()]),
        ],
    ));
    assert_eq!(
        analysis.rules,
        vec![conditional("events_ext", Vec::new()), conditional("events_int", Vec::new())]
    );
}

#[test]
fn model_block_without_event_procedures_gives_no_rule() {
    let analysis = event_rules(block(
        Some(&["AsModel"]),
        vec![
            procedure("status", "{ }", vec![ext_chain()]),
            Member::Other,
            procedure("events", "{ }", vec![int_chain()]),
            procedure("events_ext_", "{ }", vec![ext_chain()]),
            procedure("Events_int", "{ }", vec![int_chain()]),
        ],
    ));
    assert_eq!(analysis.rules, Vec::new());
    assert_eq!(event_rules(block(Some(&["AsModel"]), Vec::new())).rules, Vec::new());
}

#[test]
fn event_procedure_that_does_not_open_with_a_conditional_is_skipped() {
    let bodies: Vec<Vec<Stmt>> = vec![
        Vec::new(),
        vec![Stmt::Other, ext_chain()],
        vec![direct("foo"), ext_chain()],
        vec![Stmt::Expr(Expr::Other)],
        // a conditional followed by a semicolon is a different statement
        vec![Stmt::Semi(Expr::If(link("cond1", vec![fallible("foo")], None)))],
        // a conditional behind a fallible call
        vec![Stmt::Expr(Expr::Try(Box::new(Expr::If(link("cond1", vec![fallible("foo")], None)))))],
    ];
    for body in bodies {
        let analysis =
            event_rules(block(Some(&["AsModel"]), vec![procedure("events_ext", "{ }", body)]));
        assert_eq!(analysis.rules, Vec::new());
    }
}

#[test]
fn skipped_event_procedure_does_not_stop_the_other() {
    let analysis = event_rules(block(
        Some(&["AsModel"]),
        vec![
            procedure("events_ext", "{ }", vec![Stmt::Other]),
            procedure("events_int", "{ }", vec![int_chain()]),
        ],
    ));
    assert_eq!(analysis.rules, vec![conditional("events_int", vec![pair("foo", "cond1")])]);
}

#[test]
fn chain_without_any_matching_branch_still_gives_its_rule() {
    let chain = Stmt::Expr(Expr::If(link(
        "a",
        vec![Stmt::Other],
        Some(Expr::If(link("b", Vec::new(), Some(Expr::Other)))),
    )));
    let analysis =
        event_rules(block(Some(&["AsModel"]), vec![procedure("events_ext", "{ }", vec![chain])]));
    assert_eq!(analysis.rules, vec![conditional("events_ext", Vec::new())]);
}

#[test]
fn unmatched_branch_is_left_out_of_the_rule() {
    let chain = Stmt::Expr(Expr::If(link(
        "a",
        vec![fallible("one")],
        Some(Expr::If(link(
            "b",
            vec![direct("two")],
            Some(Expr::If(link("c", vec![fallible("three")], Some(Expr::Other)))),
        ))),
    )));
    let analysis =
        event_rules(block(Some(&["AsModel"]), vec![procedure("events_ext", "{ }", vec![chain])]));
    assert_eq!(
        analysis.rules,
        vec![conditional("events_ext", vec![pair("one", "a"), pair("three", "c")])]
    );
}

#[test]
fn every_procedure_of_the_name_is_read() {
    let analysis = event_rules(block(
        Some(&["AsModel"]),
        vec![
            procedure("events_ext", "{ }", vec![ext_chain()]),
            procedure("events_int", "{ }", vec![int_chain()]),
            procedure(
                "events_ext",
                "{ }",
                vec![Stmt::Expr(Expr::If(link("late", vec![fallible("again")], None)))],
            ),
        ],
    ));
    assert_eq!(
        analysis.rules,
        vec![
            conditional("events_ext", vec![pair("foo", "cond1"), pair("bar", "cond2")]),
            conditional("events_int", vec![pair("foo", "cond1")]),
            conditional("events_ext", vec![pair("again", "late")]),
        ]
    );
}

#[test]
fn unrecognized_interface_gives_no_rule_and_the_block_unchanged() {
    let analysis = event_rules(foreign_block());
    assert_eq!(analysis.rules, Vec::new());
    assert_eq!(analysis.block, foreign_block());
}

#[test]
fn interface_is_recognised_by_its_first_segment() {
    assert_eq!(classify(&block(None, Vec::new())), BlockKind::FreeStanding);
    assert_eq!(classify(&block(Some(&["AsModel"]), Vec::new())), BlockKind::ModelInterface);
    assert_eq!(
        classify(&block(Some(&["AsModel", "Inner"]), Vec::new())),
        BlockKind::ModelInterface
    );
    assert_eq!(classify(&block(Some(&["sim", "AsModel"]), Vec::new())), BlockKind::Unrecognized);
    assert_eq!(classify(&block(Some(&["crate", "AsModel"]), Vec::new())), BlockKind::Unrecognized);
    assert_eq!(classify(&block(Some(&["asModel"]), Vec::new())), BlockKind::Unrecognized);
    assert_eq!(classify(&block(Some(&["AsModelExt"]), Vec::new())), BlockKind::Unrecognized);
    assert_eq!(classify(&block(Some(&["Clone"]), Vec::new())), BlockKind::Unrecognized);
    assert_eq!(classify(&block(Some(&[]), Vec::new())), BlockKind::Unrecognized);
}

#[test]
fn qualified_model_interface_is_not_recognised() {
    let members = || vec![procedure("events_ext", "{ }", vec![ext_chain()])];
    assert_eq!(event_rules(block(Some(&["sim", "AsModel"]), members())).rules, Vec::new());
    assert_eq!(event_rules(block(Some(&[]), members())).rules, Vec::new());
    assert_eq!(event_rules(block(Some(&["AsModel", "Inner"]), members())).rules.len(), 1);
}

#[test]
fn analysis_hands_the_block_back_as_it_was_given() {
    assert_eq!(event_rules(free_block()).block, free_block());
    assert_eq!(event_rules(model_block()).block, model_block());
    assert_eq!(event_rules(foreign_block()).block, foreign_block());
    assert_eq!(event_rules(block(None, Vec::new())).block, block(None, Vec::new()));
}

#[test]
fn analysing_the_same_block_again_gives_the_same_rules() {
    for build in [free_block, model_block, foreign_block] {
        let first = event_rules(build());
        let second = event_rules(first.block);
        assert_eq!(second.rules, first.rules);
        assert_eq!(second.block, build());
        let third = event_rules(build());
        assert_eq!(third.rules, first.rules);
    }
}

#[test]
fn extract_rules_gives_the_rules_of_the_analysis() {
    for build in [free_block, model_block, foreign_block] {
        assert_eq!(extract_rules(&build()), event_rules(build()).rules);
    }
}

#[test]
fn type_name_plays_no_part() {
    let mut renamed = model_block();
    renamed.self_type = text("Other < T >");
    assert_eq!(event_rules(renamed).rules, event_rules(model_block()).rules);
}

#[test]
fn unconditional_rules_are_appended_after_the_rules_already_there() {
    let mut rules = vec![unconditional("kept", "{ k }")];
    append_unconditional_rules(&mut rules, &free_block().members);
    assert_eq!(
        rules,
        vec![
            unconditional("kept", "{ k }"),
            unconditional("arrive", "{ self . queue += 1 ; }"),
            unconditional("events_ext", "{ if cond1 { self . foo ( ) ? ; } }"),
            unconditional("depart", "{ }"),
        ]
    );
}

#[test]
fn event_rules_are_appended_after_the_rules_already_there() {
    let mut rules = vec![unconditional("kept", "{ k }")];
    append_event_rules(&mut rules, &model_block().members);
    assert_eq!(
        rules,
        vec![
            unconditional("kept", "{ k }"),
            conditional("events_int", vec![pair("foo", "cond1")]),
            conditional("events_ext", vec![pair("foo", "cond1"), pair("bar", "cond2")]),
        ]
    );
    append_event_rules(&mut rules, &free_block().members);
    assert_eq!(rules.len(), 4);
    assert_eq!(
        rules[3],
        conditional("events_ext", vec![pair("foo", "cond1"), pair("bar", "cond2")])
    );
}

#[test]
fn a_member_declared_last_gives_the_last_rule() {
    let mut members = model_block().members;
    let before = extract_rules(&block(Some(&["AsModel"]), model_block().members));
    members.push(procedure(
        "events_int",
        "{ }",
        vec![Stmt::Expr(Expr::If(link("late", vec![direct("again")], None)))],
    ));
    let after = extract_rules(&block(Some(&["AsModel"]), members));
    assert_eq!(after.len(), before.len() + 1);
    assert_eq!(after[..before.len()], before[..]);
    assert_eq!(after[before.len()], conditional("events_int", vec![pair("again", "late")]));
}

#[test]
fn event_rule_is_that_of_the_convention_whose_name_the_procedure_bears() {
    let external =
        Procedure { name: text("events_ext"), body_text: text("{ }"), body: vec![ext_chain()] };
    assert_eq!(
        event_rule_of(&external),
        Some(conditional("events_ext", vec![pair("foo", "cond1"), pair("bar", "cond2")]))
    );
    let internal =
        Procedure { name: text("events_int"), body_text: text("{ }"), body: vec![int_chain()] };
    assert_eq!(
        event_rule_of(&internal),
        Some(conditional("events_int", vec![pair("foo", "cond1")]))
    );
    // an internal procedure is not read by the external shape
    let mixed =
        Procedure { name: text("events_int"), body_text: text("{ }"), body: vec![ext_chain()] };
    assert_eq!(event_rule_of(&mixed), Some(conditional("events_int", Vec::new())));
    let other = Procedure { name: text("status"), body_text: text("{ }"), body: vec![ext_chain()] };
    assert_eq!(event_rule_of(&other), None);
    let no_chain =
        Procedure { name: text("events_ext"), body_text: text("{ }"), body: vec![Stmt::Other] };
    assert_eq!(event_rule_of(&no_chain), None);
}

#[test]
fn guarded_rule_wants_the_name_and_a_leading_chain() {
    let named =
        Procedure { name: text("events_ext"), body_text: text("{ }"), body: vec![ext_chain()] };
    assert_eq!(
        guarded_rule_of(Convention::External, &named),
        Some(conditional("events_ext", vec![pair("foo", "cond1"), pair("bar", "cond2")]))
    );
    assert_eq!(guarded_rule_of(Convention::Internal, &named), None);
    let other =
        Procedure { name: text("advance"), body_text: text("{ }"), body: vec![ext_chain()] };
    assert_eq!(guarded_rule_of(Convention::External, &other), None);
    let no_chain =
        Procedure { name: text("events_int"), body_text: text("{ }"), body: vec![direct("go")] };
    assert_eq!(guarded_rule_of(Convention::Internal, &no_chain), None);
}

#[test]
fn leading_chain_is_the_first_statement_when_it_is_a_bare_conditional() {
    let body = vec![int_chain(), ext_chain()];
    match leading_chain_of(&body) {
        Some(found) => assert_eq!(found, &link("cond1", vec![direct("foo")], Some(method("bar")))),
        None => panic!("the body opens with a conditional"),
    }
    assert_eq!(leading_chain_of(&vec![Stmt::Other, int_chain()]), None);
    assert_eq!(leading_chain_of(&Vec::new()), None);
}

#[test]
fn routine_of_each_kind_of_block() {
    for rule in event_rules(free_block()).rules {
        assert!(matches!(rule.event_routine(), EventRoutine::UnconditionalStateTransition(_)));
    }
    for rule in event_rules(model_block()).rules {
        assert!(matches!(rule.event_routine(), EventRoutine::ConditionalScheduling(_)));
    }
}
