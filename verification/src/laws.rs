//! What holds of every analysis.

use crate::chain::{
    call_target, chain_links, chain_pairs, chain_pairs_unfold, link_pair, next_link, Convention,
};
use crate::classify::{block_kind, names_model_interface, BlockKind};
use crate::extract::{
    as_procedure, block_rules, event_rule, leading_chain, model_rules, procedures,
    unconditional_rule, unconditional_rules,
};
use crate::filtering::{
    filter_map_of_accepted, filter_map_of_pushed, filter_map_of_rejected, optional,
};
use crate::rule::{rule_views, RoutineView, RuleView, SchedulingView};
use crate::syntax::{
    block_well_formed, expr_well_formed, link_well_formed, procedure_well_formed,
    stmt_well_formed, stmts_well_formed, BlockView, ExprView, IfView, ImplBlock, MemberView,
    ProcedureView, StmtView,
};
use crate::Analysis;
use vstd::prelude::*;

verus! {

/// Analysing a block again changes nothing: the second analysis hands back
/// the block that was first given, and finds the rules that the first found.
pub proof fn analysis_is_repeatable(block: ImplBlock, first: Analysis, second: Analysis)
    requires
        first.is_analysis_of(block),
        second.is_analysis_of(first.block),
    ensures
        second.block == block,
        rule_views(second.rules@) == rule_views(first.rules@),
{
}

/// Analyses of blocks that read the same find the same rules.
pub proof fn analyses_of_blocks_that_read_the_same_agree(
    one: ImplBlock,
    other: ImplBlock,
    first: Analysis,
    second: Analysis,
)
    requires
        first.is_analysis_of(one),
        second.is_analysis_of(other),
        one@ == other@,
    ensures
        rule_views(first.rules@) == rule_views(second.rules@),
{
}

/// Where every member is a procedure, the procedures are the members, one for one.
pub proof fn procedures_of_procedures_only(members: Seq<MemberView>)
    requires
        forall|i: int| 0 <= i < members.len() ==> #[trigger] members[i] is Procedure,
    ensures
        procedures(members).len() == members.len(),
        forall|i: int|
            0 <= i < members.len() ==> members[i] == MemberView::Procedure(
                #[trigger] procedures(members)[i],
            ),
{
    filter_map_of_accepted(members, |member: MemberView| as_procedure(member));
}

/// A block that declares no interface gives one rule for each of its
/// procedures, in declaration order: the rule bears the procedure's name and
/// carries the procedure's body text as it stands.
pub proof fn free_standing_block_gives_one_rule_per_procedure(block: BlockView)
    requires
        block.interface is None,
    ensures
        block_rules(block).len() == procedures(block.members).len(),
        forall|i: int|
            0 <= i < procedures(block.members).len() ==> #[trigger] block_rules(block)[i]
                == (RuleView {
                event_expression: procedures(block.members)[i].name,
                event_routine: RoutineView::UnconditionalStateTransition(
                    procedures(block.members)[i].body_text,
                ),
            }),
{
}

/// A link whose body does not open with a call of the expected shape gives
/// no pair, and the links after it are read as if it were not there.
pub proof fn unmatched_link_is_skipped(convention: Convention, link: IfView)
    requires
        call_target(convention, link.then_branch) is None,
    ensures
        link_pair(convention, link) is None,
        chain_pairs(convention, link) == match next_link(link) {
            Some(following) => chain_pairs(convention, following),
            None => Seq::empty(),
        },
{
    chain_pairs_unfold(convention, link);
}

/// A link whose body opens with a call of the expected shape gives the first
/// pair of its chain: its own guard, and the method called.
pub proof fn matched_link_comes_first(convention: Convention, link: IfView, method: Seq<char>)
    requires
        call_target(convention, link.then_branch) == Some(method),
    ensures
        chain_pairs(convention, link) == seq![
            SchedulingView { follow_up_event: method, condition: link.condition },
        ] + match next_link(link) {
            Some(following) => chain_pairs(convention, following),
            None => Seq::empty(),
        },
{
    chain_pairs_unfold(convention, link);
}

/// The links of a chain hang together: the chain starts at the link it is
/// asked for, each link but the last is followed by the next, and what
/// follows the last link is no conditional.
pub proof fn chain_links_follow_one_another(link: IfView)
    ensures
        chain_links(link).len() >= 1,
        chain_links(link)[0] == link,
        forall|i: int|
            0 <= i < chain_links(link).len() - 1 ==> next_link(#[trigger] chain_links(link)[i])
                == Some(chain_links(link)[i + 1]),
        next_link(chain_links(link).last()) is None,
    decreases link,
{
    if let Some(following) = next_link(link) {
        chain_links_follow_one_another(following);
        let rest = chain_links(following);
        let links = chain_links(link);
        assert forall|i: int| 0 <= i < links.len() - 1 implies next_link(#[trigger] links[i])
            == Some(links[i + 1]) by {
            if i > 0 {
                assert(links[i] == rest[i - 1]);
            }
        }
    }
}

/// A chain all of whose links have the expected shape gives one pair for
/// each link, in the order of the links: the link's guard, and the method
/// its body calls.
pub proof fn fully_matched_chain_gives_one_pair_per_link(convention: Convention, link: IfView)
    requires
        forall|i: int|
            0 <= i < chain_links(link).len() ==> call_target(
                convention,
                (#[trigger] chain_links(link)[i]).then_branch,
            ) is Some,
    ensures
        chain_pairs(convention, link).len() == chain_links(link).len(),
        forall|i: int|
            0 <= i < chain_links(link).len() ==> #[trigger] chain_pairs(convention, link)[i]
                == (SchedulingView {
                follow_up_event: call_target(convention, chain_links(link)[i].then_branch)->Some_0,
                condition: chain_links(link)[i].condition,
            }),
{
    let links = chain_links(link);
    let pick = |each: IfView| link_pair(convention, each);
    assert forall|i: int| 0 <= i < links.len() implies pick(#[trigger] links[i]) is Some by {
        assert(call_target(convention, links[i].then_branch) is Some);
    }
    filter_map_of_accepted(links, pick);
}

/// Every pair of a chain comes from a link of the chain that has the
/// expected shape: a link of any other shape is not represented at all.
pub proof fn every_pair_comes_from_a_matched_link(
    convention: Convention,
    link: IfView,
    pair: SchedulingView,
)
    requires
        chain_pairs(convention, link).contains(pair),
    ensures
        exists|each: IfView| #[trigger]
            chain_links(link).contains(each) && call_target(convention, each.then_branch) == Some(
                pair.follow_up_event,
            ) && each.condition == pair.condition,
{
    chain_links(link).lemma_filter_map_contains(|each: IfView| link_pair(convention, each), pair);
}

/// The rule of an event procedure bears the procedure's name, which is that
/// of one of the two conventions, and carries guard/target pairs.
pub proof fn event_rule_bears_the_procedure_name(procedure: ProcedureView, rule: RuleView)
    requires
        event_rule(procedure) == Some(rule),
    ensures
        rule.event_expression == procedure.name,
        procedure.name == Convention::External.procedure_name() || procedure.name
            == Convention::Internal.procedure_name(),
        rule.event_routine is ConditionalScheduling,
{
}

/// The rules of a block follow the order in which its members are declared:
/// a member declared after all others gives the rule after all others, if it
/// gives one, and leaves the rules before it as they were.
pub proof fn rules_follow_declaration_order(members: Seq<MemberView>, last: MemberView)
    ensures
        unconditional_rules(members.push(last)) == unconditional_rules(members) + match last {
            MemberView::Procedure(procedure) => seq![unconditional_rule(procedure)],
            MemberView::Other => Seq::empty(),
        },
        model_rules(members.push(last)) == model_rules(members) + match last {
            MemberView::Procedure(procedure) => optional(event_rule(procedure)),
            MemberView::Other => Seq::empty(),
        },
{
    filter_map_of_pushed(members, last, |member: MemberView| as_procedure(member));
    match last {
        MemberView::Procedure(procedure) => {
            assert(procedures(members.push(last)) =~= procedures(members).push(procedure));
            filter_map_of_pushed(
                procedures(members),
                procedure,
                |procedure: ProcedureView| event_rule(procedure),
            );
            assert(unconditional_rules(members.push(last)) =~= unconditional_rules(members)
                + seq![unconditional_rule(procedure)]);
        },
        MemberView::Other => {
            assert(procedures(members.push(last)) =~= procedures(members));
        },
    }
}

/// The kind of a block decides the kind of its rules: a free-standing block
/// gives unconditional transitions only, a block that implements the model
/// interface gives conditional schedulings only, each under the name of one
/// of the two event procedures, and any other block gives no rule at all.
pub proof fn routine_follows_block_kind(block: BlockView, i: int)
    requires
        0 <= i < block_rules(block).len(),
    ensures
        match block_kind(block.interface) {
            BlockKind::FreeStanding => block_rules(block)[i].event_routine
                is UnconditionalStateTransition,
            BlockKind::ModelInterface => {
                &&& block_rules(block)[i].event_routine is ConditionalScheduling
                &&& block_rules(block)[i].event_expression == Convention::External.procedure_name()
                    || block_rules(block)[i].event_expression
                    == Convention::Internal.procedure_name()
            },
            BlockKind::Unrecognized => false,
        },
{
    if block_kind(block.interface) == BlockKind::ModelInterface {
        let rules = model_rules(block.members);
        assert(rules.contains(rules[i]));
        procedures(block.members).lemma_filter_map_contains(
            |procedure: ProcedureView| event_rule(procedure),
            rules[i],
        );
    }
}

/// A block that declares an interface other than the model interface gives no rules.
pub proof fn unrecognized_interface_gives_no_rules(block: BlockView, path: Seq<Seq<char>>)
    requires
        block.interface == Some(path),
        !names_model_interface(path),
    ensures
        block_rules(block) == Seq::<RuleView>::empty(),
{
}

/// A block that implements the model interface and has neither of the two
/// event procedures gives no rules.
pub proof fn model_block_without_event_procedures_gives_no_rules(block: BlockView)
    requires
        block_kind(block.interface) == BlockKind::ModelInterface,
        forall|i: int|
            0 <= i < block.members.len() ==> (#[trigger] block.members[i]
                matches MemberView::Procedure(procedure) ==> procedure.name
                != Convention::External.procedure_name() && procedure.name
                != Convention::Internal.procedure_name()),
    ensures
        block_rules(block) == Seq::<RuleView>::empty(),
{
    let members = block.members;
    let found = procedures(members);
    let pick = |procedure: ProcedureView| event_rule(procedure);
    assert forall|i: int| 0 <= i < found.len() implies pick(#[trigger] found[i]) is None by {
        // what is found among the members is one of the members
        assert(found.contains(found[i]));
        members.lemma_filter_map_contains(|member: MemberView| as_procedure(member), found[i]);
        assert(members.contains(MemberView::Procedure(found[i])));
    }
    filter_map_of_rejected(found, pick);
}

/// A well-formed body schedules no method without a name.
pub proof fn scheduled_method_is_named(convention: Convention, body: Seq<StmtView>)
    requires
        stmts_well_formed(body),
        call_target(convention, body) is Some,
    ensures
        call_target(convention, body)->Some_0.len() > 0,
{
    assert(stmt_well_formed(body[0]));
    match body[0] {
        StmtView::Semi(ExprView::Try(inner)) => {
            assert(expr_well_formed(ExprView::Try(inner)));
            assert(expr_well_formed(*inner));
        },
        StmtView::Expr(called) => {
            assert(expr_well_formed(called));
        },
        _ => {},
    }
}

/// Every link of a well-formed chain is well-formed.
pub proof fn links_of_a_well_formed_chain_are_well_formed(link: IfView)
    requires
        link_well_formed(link),
    ensures
        forall|i: int|
            0 <= i < chain_links(link).len() ==> link_well_formed(#[trigger] chain_links(link)[i]),
    decreases link,
{
    if let Some(following) = next_link(link) {
        assert(expr_well_formed(ExprView::If(following)));
        links_of_a_well_formed_chain_are_well_formed(following);
        let rest = chain_links(following);
        let links = chain_links(link);
        assert forall|i: int| 0 <= i < links.len() implies link_well_formed(
            #[trigger] links[i],
        ) by {
            if i > 0 {
                assert(links[i] == rest[i - 1]);
            }
        }
    }
}

/// Every pair of a well-formed chain names the event it schedules.
pub proof fn recorded_events_are_named(convention: Convention, link: IfView, i: int)
    requires
        link_well_formed(link),
        0 <= i < chain_pairs(convention, link).len(),
    ensures
        chain_pairs(convention, link)[i].follow_up_event.len() > 0,
{
    let pairs = chain_pairs(convention, link);
    assert(pairs.contains(pairs[i]));
    every_pair_comes_from_a_matched_link(convention, link, pairs[i]);
    let source = choose|each: IfView| #[trigger]
        chain_links(link).contains(each) && call_target(convention, each.then_branch) == Some(
            pairs[i].follow_up_event,
        ) && each.condition == pairs[i].condition;
    links_of_a_well_formed_chain_are_well_formed(link);
    let at = choose|at: int| 0 <= at < chain_links(link).len() && chain_links(link)[at] == source;
    assert(link_well_formed(chain_links(link)[at]));
    scheduled_method_is_named(convention, source.then_branch);
}

/// Every rule of a well-formed block bears a name, and every pair that such
/// a rule carries names the event it schedules.
pub proof fn rules_of_a_well_formed_block_are_named(block: BlockView, i: int)
    requires
        block_well_formed(block),
        0 <= i < block_rules(block).len(),
    ensures
        block_rules(block)[i].event_expression.len() > 0,
        block_rules(block)[i].event_routine matches RoutineView::ConditionalScheduling(pairs)
            ==> forall|j: int|
            0 <= j < pairs.len() ==> (#[trigger] pairs[j]).follow_up_event.len() > 0,
{
    let found = procedures(block.members);
    let rule = block_rules(block)[i];
    // every procedure found among the members is one of the members
    assert forall|k: int| 0 <= k < found.len() implies procedure_well_formed(
        #[trigger] found[k],
    ) by {
        assert(found.contains(found[k]));
        block.members.lemma_filter_map_contains(
            |member: MemberView| as_procedure(member),
            found[k],
        );
        assert(block.members.contains(MemberView::Procedure(found[k])));
    }
    match block_kind(block.interface) {
        BlockKind::FreeStanding => {
            assert(rule == unconditional_rule(found[i]));
        },
        BlockKind::ModelInterface => {
            assert(model_rules(block.members).contains(rule));
            found.lemma_filter_map_contains(
                |procedure: ProcedureView| event_rule(procedure),
                rule,
            );
            let source = choose|procedure: ProcedureView| #[trigger]
                found.contains(procedure) && event_rule(procedure) == Some(rule);
            let at = choose|at: int| 0 <= at < found.len() && found[at] == source;
            assert(procedure_well_formed(found[at]));
            let chain = leading_chain(source.body)->Some_0;
            assert(stmt_well_formed(source.body[0]));
            assert(expr_well_formed(ExprView::If(chain)));
            let convention = if source.name == Convention::External.procedure_name() {
                Convention::External
            } else {
                Convention::Internal
            };
            assert(rule.event_routine == RoutineView::ConditionalScheduling(
                chain_pairs(convention, chain),
            ));
            let pairs = chain_pairs(convention, chain);
            assert forall|j: int| 0 <= j < pairs.len() implies (
            #[trigger] pairs[j]).follow_up_event.len() > 0 by {
                recorded_events_are_named(convention, chain, j);
            }
        },
        BlockKind::Unrecognized => {},
    }
}

} // verus!
