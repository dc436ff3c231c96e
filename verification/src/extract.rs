//! From a block to its rules.
//!
//! A free-standing block gives one unconditional rule for each procedure. A
//! block that implements the model interface gives one conditional rule for
//! each event procedure whose body opens with a conditional chain. A block
//! that declares any other interface gives nothing. Whatever the block, its
//! rules come in the order in which its procedures are declared.

use crate::chain::{chain_pairs, extract_ext_cases, extract_int_cases, Convention};
use crate::classify::{block_kind, classify, text_is, BlockKind};
use crate::filtering::{filter_map_of_pushed, optional};
use crate::rule::{
    rule_views, scheduling_views, ConditionalScheduling, EventRule, RoutineView, RuleView,
};
use crate::syntax::{
    member_views, stmt_views, BlockView, Expr, ExprView, IfExpr, IfView, ImplBlock, Member,
    MemberView, Procedure, ProcedureView, Stmt, StmtView,
};
use vstd::prelude::*;

verus! {

/// The procedure that a member is, if it is one.
pub open spec fn as_procedure(member: MemberView) -> Option<ProcedureView> {
    match member {
        MemberView::Procedure(procedure) => Some(procedure),
        MemberView::Other => None,
    }
}

/// The procedures among `members`, in declaration order.
pub open spec fn procedures(members: Seq<MemberView>) -> Seq<ProcedureView> {
    members.filter_map(|member: MemberView| as_procedure(member))
}

/// The rule that a procedure of a free-standing block gives: its name, and
/// its whole body as one opaque action.
pub open spec fn unconditional_rule(procedure: ProcedureView) -> RuleView {
    RuleView {
        event_expression: procedure.name,
        event_routine: RoutineView::UnconditionalStateTransition(procedure.body_text),
    }
}

/// The rules of a free-standing block: one for each procedure, in declaration order.
pub open spec fn unconditional_rules(members: Seq<MemberView>) -> Seq<RuleView> {
    procedures(members).map_values(|procedure: ProcedureView| unconditional_rule(procedure))
}

/// The chain that a procedure body opens with: there is one when the first
/// statement is a conditional written without a semicolon.
pub open spec fn leading_chain(body: Seq<StmtView>) -> Option<IfView> {
    if body.len() == 0 {
        None
    } else {
        match body[0] {
            StmtView::Expr(ExprView::If(link)) => Some(link),
            _ => None,
        }
    }
}

/// The rule that a procedure gives under `convention`: there is one when the
/// procedure bears the convention's name and its body opens with a chain.
pub open spec fn guarded_rule(convention: Convention, procedure: ProcedureView) -> Option<
    RuleView,
> {
    if procedure.name == convention.procedure_name() {
        match leading_chain(procedure.body) {
            Some(link) => Some(
                RuleView {
                    event_expression: convention.procedure_name(),
                    event_routine: RoutineView::ConditionalScheduling(
                        chain_pairs(convention, link),
                    ),
                },
            ),
            None => None,
        }
    } else {
        None
    }
}

/// The rule that a procedure of a block that implements the model interface
/// gives: that of the convention whose name the procedure bears.
pub open spec fn event_rule(procedure: ProcedureView) -> Option<RuleView> {
    match guarded_rule(Convention::External, procedure) {
        Some(rule) => Some(rule),
        None => guarded_rule(Convention::Internal, procedure),
    }
}

/// The rules of a block that implements the model interface: one for each
/// event procedure that has one, in declaration order.
pub open spec fn model_rules(members: Seq<MemberView>) -> Seq<RuleView> {
    procedures(members).filter_map(|procedure: ProcedureView| event_rule(procedure))
}

/// The rules of a block.
pub open spec fn block_rules(block: BlockView) -> Seq<RuleView> {
    match block_kind(block.interface) {
        BlockKind::FreeStanding => unconditional_rules(block.members),
        BlockKind::ModelInterface => model_rules(block.members),
        BlockKind::Unrecognized => Seq::empty(),
    }
}

/// The procedures among the first `count + 1` members are those among the
/// first `count`, followed by the member at `count` if it is a procedure.
pub proof fn procedures_of_one_more(members: Seq<MemberView>, count: int)
    requires
        0 <= count < members.len(),
    ensures
        procedures(members.take(count + 1)) == procedures(members.take(count)) + optional(
            as_procedure(members[count]),
        ),
{
    assert(members.take(count + 1) =~= members.take(count).push(members[count]));
    filter_map_of_pushed(
        members.take(count),
        members[count],
        |member: MemberView| as_procedure(member),
    );
}

/// Appends to `rules` the unconditional rule of each procedure among `members`.
pub fn append_unconditional_rules(rules: &mut Vec<EventRule>, members: &Vec<Member>)
    ensures
        rule_views(final(rules)@) == rule_views(old(rules)@) + unconditional_rules(
            member_views(members@),
        ),
{
    let ghost before = rule_views(rules@);
    let ghost all = member_views(members@);
    let mut index: usize = 0;
    while index < members.len()
        invariant
            index <= members.len(),
            all == member_views(members@),
            rule_views(rules@) == before + unconditional_rules(all.take(index as int)),
        decreases members.len() - index,
    {
        let ghost sofar = rule_views(rules@);
        proof {
            procedures_of_one_more(all, index as int);
        }
        match &members[index] {
            Member::Procedure(procedure) => {
                let rule = EventRule::new_unconditional_state_transition(
                    procedure.name.clone(),
                    procedure.body_text.clone(),
                );
                rules.push(rule);
                assert(rule_views(rules@) =~= sofar.push(rule@));
            },
            Member::Other => {},
        }
        index += 1;
    }
    assert(all.take(index as int) =~= all);
}

/// Gives the chain that a procedure body opens with, if it opens with one.
pub fn leading_chain_of<'a>(body: &'a Vec<Stmt>) -> (chain: Option<&'a IfExpr>)
    ensures
        leading_chain(stmt_views(body@)) == match chain {
            Some(link) => Some(link@),
            None => None,
        },
{
    if body.len() == 0 {
        return None;
    }
    match &body[0] {
        Stmt::Expr(Expr::If(link)) => Some(link),
        _ => None,
    }
}

/// Gives the rule of `procedure` under `convention`, if it has one.
pub fn guarded_rule_of(convention: Convention, procedure: &Procedure) -> (rule: Option<EventRule>)
    ensures
        guarded_rule(convention, procedure@) == match rule {
            Some(found) => Some(found@),
            None => None,
        },
{
    if !text_is(&procedure.name, convention.name()) {
        return None;
    }
    match leading_chain_of(&procedure.body) {
        Some(link) => {
            let mut cases: Vec<ConditionalScheduling> = Vec::new();
            match convention {
                Convention::External => extract_ext_cases(&mut cases, link),
                Convention::Internal => extract_int_cases(&mut cases, link),
            }
            Some(EventRule::new_conditional_scheduling(convention.name().to_owned(), cases))
        },
        None => None,
    }
}

/// Gives the rule of `procedure` as a procedure of a block that implements
/// the model interface, if it has one.
pub fn event_rule_of(procedure: &Procedure) -> (rule: Option<EventRule>)
    ensures
        event_rule(procedure@) == match rule {
            Some(found) => Some(found@),
            None => None,
        },
{
    match guarded_rule_of(Convention::External, procedure) {
        Some(rule) => Some(rule),
        None => guarded_rule_of(Convention::Internal, procedure),
    }
}

/// Appends to `rules` the rule of each event procedure among `members` that
/// has one, in declaration order.
pub fn append_event_rules(rules: &mut Vec<EventRule>, members: &Vec<Member>)
    ensures
        rule_views(final(rules)@) == rule_views(old(rules)@) + model_rules(member_views(members@)),
{
    let ghost before = rule_views(rules@);
    let ghost all = member_views(members@);
    let ghost pick = |procedure: ProcedureView| event_rule(procedure);
    let mut index: usize = 0;
    while index < members.len()
        invariant
            index <= members.len(),
            all == member_views(members@),
            pick == |procedure: ProcedureView| event_rule(procedure),
            rule_views(rules@) == before + model_rules(all.take(index as int)),
        decreases members.len() - index,
    {
        let ghost sofar = rule_views(rules@);
        proof {
            procedures_of_one_more(all, index as int);
        }
        match &members[index] {
            Member::Procedure(procedure) => {
                proof {
                    filter_map_of_pushed(
                        procedures(all.take(index as int)),
                        procedure@,
                        pick,
                    );
                    assert(procedures(all.take(index as int + 1)) =~= procedures(
                        all.take(index as int),
                    ).push(procedure@));
                }
                if let Some(rule) = event_rule_of(procedure) {
                    rules.push(rule);
                    assert(rule_views(rules@) =~= sofar.push(rule@));
                }
            },
            Member::Other => {},
        }
        index += 1;
    }
    assert(all.take(index as int) =~= all);
}

/// Extracts the rules of `block`.
pub fn extract_rules(block: &ImplBlock) -> (rules: Vec<EventRule>)
    ensures
        rule_views(rules@) == block_rules(block@),
{
    let mut rules: Vec<EventRule> = Vec::new();
    match classify(block) {
        BlockKind::FreeStanding => {
            append_unconditional_rules(&mut rules, &block.members);
        },
        BlockKind::ModelInterface => {
            append_event_rules(&mut rules, &block.members);
        },
        BlockKind::Unrecognized => {},
    }
    rules
}

} // verus!
