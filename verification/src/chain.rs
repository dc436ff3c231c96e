//! Walking a guarded chain: from nested conditionals to ordered guard/target pairs.
//!
//! A chain is an `if` followed by any number of `else if` links. Each link
//! whose body opens with a call of the expected shape gives one pair: the
//! link's guard and the name of the method called. A link of any other shape
//! gives nothing, and the walk goes on. Whatever follows the last `else` is
//! not a link and is never looked at.

use crate::filtering::{filter_map_of_prepended, optional};
use crate::rule::{scheduling_views, ConditionalScheduling, SchedulingView};
use crate::syntax::{stmt_views, Expr, ExprView, IfExpr, IfView, Stmt, StmtView};
use vstd::prelude::*;

verus! {

/// The two call conventions a chain can be read under.
#[derive(Debug, Clone, Copy, PartialEq, Eq)]
pub enum Convention {
    /// Events seen from outside: a branch schedules by a fallible method call
    /// whose failure is handed on, written as a statement.
    External,
    /// Events kept inside: a branch schedules by a bare method call.
    Internal,
}

impl Convention {
    /// The name of the procedure that holds the chain of this convention.
    pub open spec fn procedure_name(self) -> Seq<char> {
        match self {
            Convention::External => "events_ext"@,
            Convention::Internal => "events_int"@,
        }
    }

    /// The name of the procedure that holds the chain of this convention.
    pub fn name(self) -> (name: &'static str)
        ensures
            name@ == self.procedure_name(),
    {
        match self {
            Convention::External => "events_ext",
            Convention::Internal => "events_int",
        }
    }
}

/// The method that a branch body schedules under `convention`: decided by the
/// body's first statement alone, and `None` for a body of any other shape.
pub open spec fn call_target(convention: Convention, body: Seq<StmtView>) -> Option<Seq<char>> {
    if body.len() == 0 {
        None
    } else {
        match (convention, body[0]) {
            (Convention::External, StmtView::Semi(ExprView::Try(inner))) => match *inner {
                ExprView::MethodCall(method) => Some(method),
                _ => None,
            },
            (Convention::Internal, StmtView::Expr(ExprView::MethodCall(method))) => Some(method),
            _ => None,
        }
    }
}

/// The pair that one link gives, if its body has the expected shape.
pub open spec fn link_pair(convention: Convention, link: IfView) -> Option<SchedulingView> {
    match call_target(convention, link.then_branch) {
        Some(method) => Some(SchedulingView { follow_up_event: method, condition: link.condition }),
        None => None,
    }
}

/// The link that follows `link`: there is one when `else` is followed by another conditional.
pub open spec fn next_link(link: IfView) -> Option<IfView> {
    match link.else_branch {
        Some(next) => match *next {
            ExprView::If(following) => Some(following),
            _ => None,
        },
        None => None,
    }
}

/// The links of the chain that starts at `link`, in source order.
pub open spec fn chain_links(link: IfView) -> Seq<IfView>
    decreases link,
{
    match next_link(link) {
        Some(following) => seq![link] + chain_links(following),
        None => seq![link],
    }
}

/// The pairs of the chain that starts at `link`: one for each link of the
/// expected shape, in the order of the links.
pub open spec fn chain_pairs(convention: Convention, link: IfView) -> Seq<SchedulingView> {
    chain_links(link).filter_map(|each: IfView| link_pair(convention, each))
}

/// The pairs of a chain are those of its first link followed by those of the
/// chain that starts at the next link.
pub proof fn chain_pairs_unfold(convention: Convention, link: IfView)
    ensures
        chain_pairs(convention, link) == optional(link_pair(convention, link)) + match next_link(
            link,
        ) {
            Some(following) => chain_pairs(convention, following),
            None => Seq::empty(),
        },
{
    let rest = match next_link(link) {
        Some(following) => chain_links(following),
        None => Seq::empty(),
    };
    filter_map_of_prepended(link, rest, |each: IfView| link_pair(convention, each));
}

/// Reads the first statement of a branch body under `convention` and gives
/// the name of the method it schedules, if it has the expected shape.
pub fn scheduled_method<'a>(convention: Convention, body: &'a Vec<Stmt>) -> (target: Option<
    &'a String,
>)
    ensures
        call_target(convention, stmt_views(body@)) == match target {
            Some(method) => Some(method@),
            None => None,
        },
{
    if body.len() == 0 {
        return None;
    }
    match convention {
        Convention::External => match &body[0] {
            Stmt::Semi(Expr::Try(inner)) => match &**inner {
                Expr::MethodCall(call) => Some(&call.method),
                _ => None,
            },
            _ => None,
        },
        Convention::Internal => match &body[0] {
            Stmt::Expr(Expr::MethodCall(call)) => Some(&call.method),
            _ => None,
        },
    }
}

/// Walks the chain that starts at `link` and appends its pairs to `cases`.
pub fn extract_cases(convention: Convention, cases: &mut Vec<ConditionalScheduling>, link: &IfExpr)
    ensures
        scheduling_views(final(cases)@) == scheduling_views(old(cases)@) + chain_pairs(
            convention,
            link@,
        ),
    decreases link,
{
    proof {
        chain_pairs_unfold(convention, link@);
    }
    if let Some(method) = scheduled_method(convention, &link.then_branch) {
        cases.push(
            ConditionalScheduling {
                follow_up_event: method.clone(),
                condition: link.condition.clone(),
            },
        );
    }
    if let Some(next) = &link.else_branch {
        if let Expr::If(following) = &**next {
            extract_cases(convention, cases, following);
        }
    }
}

/// Walks a chain under the external convention: a branch schedules by a
/// fallible method call written as a statement.
pub fn extract_ext_cases(cases: &mut Vec<ConditionalScheduling>, expr_if: &IfExpr)
    ensures
        scheduling_views(final(cases)@) == scheduling_views(old(cases)@) + chain_pairs(
            Convention::External,
            expr_if@,
        ),
{
    extract_cases(Convention::External, cases, expr_if)
}

/// Walks a chain under the internal convention: a branch schedules by a bare
/// method call.
pub fn extract_int_cases(cases: &mut Vec<ConditionalScheduling>, expr_if: &IfExpr)
    ensures
        scheduling_views(final(cases)@) == scheduling_views(old(cases)@) + chain_pairs(
            Convention::Internal,
            expr_if@,
        ),
{
    extract_cases(Convention::Internal, cases, expr_if)
}

} // verus!
