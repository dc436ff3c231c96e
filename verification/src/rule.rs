//! The rule model: what one analysis of an implementation block produces.
//!
//! An [`EventRule`] names the procedure or event that triggers it and carries
//! exactly one [`EventRoutine`]. Rules are built through the two constructors
//! and read through the accessors; nothing here changes a rule once it exists.

use vstd::prelude::*;

verus! {

/// One branch of a guarded chain: the guard and the event scheduled when it holds.
#[derive(Debug, PartialEq, Eq)]
pub struct ConditionalScheduling {
    /// Name of the method invoked when the guard holds.
    pub follow_up_event: String,
    /// The guard expression, as source text.
    pub condition: String,
}

/// What a [`ConditionalScheduling`] reads as.
pub ghost struct SchedulingView {
    pub follow_up_event: Seq<char>,
    pub condition: Seq<char>,
}

impl View for ConditionalScheduling {
    type V = SchedulingView;

    open spec fn view(&self) -> SchedulingView {
        SchedulingView { follow_up_event: self.follow_up_event@, condition: self.condition@ }
    }
}

/// The payload of a rule.
#[derive(Debug, PartialEq, Eq)]
pub enum EventRoutine {
    /// Guard/target pairs in the order of the branches they came from.
    ConditionalScheduling(Vec<ConditionalScheduling>),
    /// The full source text of a procedure body, kept as an opaque action.
    UnconditionalStateTransition(String),
}

/// What an [`EventRoutine`] reads as.
pub ghost enum RoutineView {
    ConditionalScheduling(Seq<SchedulingView>),
    UnconditionalStateTransition(Seq<char>),
}

/// The views of a sequence of schedulings, element by element.
pub open spec fn scheduling_views(cases: Seq<ConditionalScheduling>) -> Seq<SchedulingView> {
    cases.map_values(|case: ConditionalScheduling| case@)
}

impl View for EventRoutine {
    type V = RoutineView;

    open spec fn view(&self) -> RoutineView {
        match self {
            EventRoutine::ConditionalScheduling(cases) => RoutineView::ConditionalScheduling(
                scheduling_views(cases@),
            ),
            EventRoutine::UnconditionalStateTransition(body) => {
                RoutineView::UnconditionalStateTransition(body@)
            },
        }
    }
}

/// One discovered rule.
#[derive(Debug, PartialEq, Eq)]
pub struct EventRule {
    event_expression: String,
    event_routine: EventRoutine,
}

/// What an [`EventRule`] reads as.
pub ghost struct RuleView {
    pub event_expression: Seq<char>,
    pub event_routine: RoutineView,
}

/// The views of a sequence of rules, element by element.
pub open spec fn rule_views(rules: Seq<EventRule>) -> Seq<RuleView> {
    rules.map_values(|rule: EventRule| rule@)
}

impl View for EventRule {
    type V = RuleView;

    closed spec fn view(&self) -> RuleView {
        RuleView { event_expression: self.event_expression@, event_routine: self.event_routine@ }
    }
}

impl EventRule {
    /// A rule whose routine is a list of guard/target pairs.
    pub fn new_conditional_scheduling(
        event_expression: String,
        conditional_schedulings: Vec<ConditionalScheduling>,
    ) -> (rule: Self)
        ensures
            rule@.event_expression == event_expression@,
            rule@.event_routine == RoutineView::ConditionalScheduling(
                scheduling_views(conditional_schedulings@),
            ),
    {
        Self {
            event_expression,
            event_routine: EventRoutine::ConditionalScheduling(conditional_schedulings),
        }
    }

    /// A rule whose routine is one opaque transition action.
    pub fn new_unconditional_state_transition(
        event_expression: String,
        event_routine: String,
    ) -> (rule: Self)
        ensures
            rule@.event_expression == event_expression@,
            rule@.event_routine == RoutineView::UnconditionalStateTransition(event_routine@),
    {
        Self {
            event_expression,
            event_routine: EventRoutine::UnconditionalStateTransition(event_routine),
        }
    }

    /// The procedure or event that triggers the rule.
    pub fn event_expression(&self) -> (name: &String)
        ensures
            name@ == self@.event_expression,
    {
        &self.event_expression
    }

    /// The rule's payload.
    pub fn event_routine(&self) -> (routine: &EventRoutine)
        ensures
            routine@ == self@.event_routine,
    {
        &self.event_routine
    }

    /// Takes the rule apart: what triggers it, and its payload.
    pub fn into_parts(self) -> (parts: (String, EventRoutine))
        ensures
            parts.0@ == self@.event_expression,
            parts.1@ == self@.event_routine,
    {
        (self.event_expression, self.event_routine)
    }
}

} // verus!
