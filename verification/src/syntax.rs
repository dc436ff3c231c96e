//! The implementation block under analysis, as a closed tree.
//!
//! The tree keeps what extraction reads: which interface a block declares,
//! its members in declaration order, the statements of each body, and the
//! shapes of expression that the two call conventions are told apart by.
//! Every other shape is an `Other` node. Source text (a guard, a procedure
//! body) is carried as text and never interpreted.
//!
//! A tree that was read from source names whatever it mentions: no method,
//! procedure or path segment has an empty name. [`block_well_formed`] says
//! so. Extraction asks it of no tree; what it promises of a well-formed one
//! is stated with the laws.

use vstd::prelude::*;

verus! {

/// A method invocation; only the method's name is kept.
#[derive(Debug, PartialEq, Eq)]
pub struct MethodCall {
    pub method: String,
}

/// An expression.
#[derive(Debug, PartialEq, Eq)]
pub enum Expr {
    /// A conditional, possibly the head of an `if` / `else if` chain.
    If(IfExpr),
    /// A fallible call whose failure is handed on to the caller.
    Try(Box<Expr>),
    /// A method invocation.
    MethodCall(MethodCall),
    /// Any other expression.
    Other,
}

/// One link of a conditional chain.
#[derive(Debug, PartialEq, Eq)]
pub struct IfExpr {
    /// The guard, as source text.
    pub condition: String,
    /// The statements run when the guard holds.
    pub then_branch: Vec<Stmt>,
    /// What follows `else`, if anything does.
    pub else_branch: Option<Box<Expr>>,
}

/// A statement.
#[derive(Debug, PartialEq, Eq)]
pub enum Stmt {
    /// An expression without a trailing semicolon.
    Expr(Expr),
    /// An expression followed by a semicolon.
    Semi(Expr),
    /// Any other statement.
    Other,
}

/// A member procedure: its name and its body.
#[derive(Debug, PartialEq, Eq)]
pub struct Procedure {
    pub name: String,
    /// The whole body, as source text.
    pub body_text: String,
    /// The statements of the body.
    pub body: Vec<Stmt>,
}

/// A member of an implementation block.
#[derive(Debug, PartialEq, Eq)]
pub enum Member {
    Procedure(Procedure),
    /// A member that is no procedure.
    Other,
}

/// One implementation block.
#[derive(Debug, PartialEq, Eq)]
pub struct ImplBlock {
    /// The type the block belongs to, as source text.
    pub self_type: String,
    /// The path segments of the interface the block declares, if it declares one.
    pub interface: Option<Vec<String>>,
    /// The members, in declaration order.
    pub members: Vec<Member>,
}

/// What an [`Expr`] reads as.
pub ghost enum ExprView {
    If(IfView),
    Try(Box<ExprView>),
    MethodCall(Seq<char>),
    Other,
}

/// What an [`IfExpr`] reads as.
pub ghost struct IfView {
    pub condition: Seq<char>,
    pub then_branch: Seq<StmtView>,
    pub else_branch: Option<Box<ExprView>>,
}

/// What a [`Stmt`] reads as.
pub ghost enum StmtView {
    Expr(ExprView),
    Semi(ExprView),
    Other,
}

/// What a [`Procedure`] reads as.
pub ghost struct ProcedureView {
    pub name: Seq<char>,
    pub body_text: Seq<char>,
    pub body: Seq<StmtView>,
}

/// What a [`Member`] reads as.
pub ghost enum MemberView {
    Procedure(ProcedureView),
    Other,
}

/// What an [`ImplBlock`] reads as.
pub ghost struct BlockView {
    pub self_type: Seq<char>,
    pub interface: Option<Seq<Seq<char>>>,
    pub members: Seq<MemberView>,
}

/// The view of an expression.
pub open spec fn expr_view(expr: Expr) -> ExprView
    decreases expr,
{
    match expr {
        Expr::If(link) => ExprView::If(if_view(link)),
        Expr::Try(inner) => ExprView::Try(Box::new(expr_view(*inner))),
        Expr::MethodCall(call) => ExprView::MethodCall(call.method@),
        Expr::Other => ExprView::Other,
    }
}

/// The view of one link of a conditional chain.
pub open spec fn if_view(link: IfExpr) -> IfView
    decreases link,
{
    IfView {
        condition: link.condition@,
        then_branch: stmt_views(link.then_branch@),
        else_branch: match link.else_branch {
            Some(next) => Some(Box::new(expr_view(*next))),
            None => None,
        },
    }
}

/// The view of a statement.
pub open spec fn stmt_view(stmt: Stmt) -> StmtView
    decreases stmt,
{
    match stmt {
        Stmt::Expr(expr) => StmtView::Expr(expr_view(expr)),
        Stmt::Semi(expr) => StmtView::Semi(expr_view(expr)),
        Stmt::Other => StmtView::Other,
    }
}

/// The views of a sequence of statements, element by element.
pub open spec fn stmt_views(stmts: Seq<Stmt>) -> Seq<StmtView>
    decreases stmts,
{
    Seq::new(
        stmts.len(),
        |i: int|
            if 0 <= i < stmts.len() {
                stmt_view(stmts[i])
            } else {
                StmtView::Other
            },
    )
}

impl View for Expr {
    type V = ExprView;

    open spec fn view(&self) -> ExprView {
        expr_view(*self)
    }
}

impl View for IfExpr {
    type V = IfView;

    open spec fn view(&self) -> IfView {
        if_view(*self)
    }
}

impl View for Stmt {
    type V = StmtView;

    open spec fn view(&self) -> StmtView {
        stmt_view(*self)
    }
}

impl View for Procedure {
    type V = ProcedureView;

    open spec fn view(&self) -> ProcedureView {
        ProcedureView {
            name: self.name@,
            body_text: self.body_text@,
            body: stmt_views(self.body@),
        }
    }
}

impl View for Member {
    type V = MemberView;

    open spec fn view(&self) -> MemberView {
        match self {
            Member::Procedure(procedure) => MemberView::Procedure(procedure@),
            Member::Other => MemberView::Other,
        }
    }
}

/// The views of a sequence of members, element by element.
pub open spec fn member_views(members: Seq<Member>) -> Seq<MemberView> {
    members.map_values(|member: Member| member@)
}

/// The views of the segments of an interface path, element by element.
pub open spec fn path_view(path: Seq<String>) -> Seq<Seq<char>> {
    path.map_values(|segment: String| segment@)
}

impl View for ImplBlock {
    type V = BlockView;

    open spec fn view(&self) -> BlockView {
        BlockView {
            self_type: self.self_type@,
            interface: match self.interface {
                Some(path) => Some(path_view(path@)),
                None => None,
            },
            members: member_views(self.members@),
        }
    }
}

/// Whether an expression names every method it calls.
pub open spec fn expr_well_formed(expr: ExprView) -> bool
    decreases expr,
{
    match expr {
        ExprView::If(link) => link_well_formed(link),
        ExprView::Try(inner) => expr_well_formed(*inner),
        ExprView::MethodCall(method) => method.len() > 0,
        ExprView::Other => true,
    }
}

/// Whether one link of a chain, with all that hangs from it, names every
/// method it calls.
pub open spec fn link_well_formed(link: IfView) -> bool
    decreases link,
{
    &&& stmts_well_formed(link.then_branch)
    &&& match link.else_branch {
        Some(next) => expr_well_formed(*next),
        None => true,
    }
}

/// Whether a statement names every method it calls.
pub open spec fn stmt_well_formed(stmt: StmtView) -> bool
    decreases stmt,
{
    match stmt {
        StmtView::Expr(expr) => expr_well_formed(expr),
        StmtView::Semi(expr) => expr_well_formed(expr),
        StmtView::Other => true,
    }
}

/// Whether each of the statements names every method it calls.
pub open spec fn stmts_well_formed(stmts: Seq<StmtView>) -> bool
    decreases stmts,
{
    forall|i: int| 0 <= i < stmts.len() ==> stmt_well_formed(#[trigger] stmts[i])
}

/// Whether a procedure has a name and names every method it calls.
pub open spec fn procedure_well_formed(procedure: ProcedureView) -> bool {
    procedure.name.len() > 0 && stmts_well_formed(procedure.body)
}

/// Whether a member, if it is a procedure, is a well-formed one.
pub open spec fn member_well_formed(member: MemberView) -> bool {
    match member {
        MemberView::Procedure(procedure) => procedure_well_formed(procedure),
        MemberView::Other => true,
    }
}

/// Whether a block names whatever it mentions: an interface path has at
/// least one segment and no empty one, every procedure has a name, and every
/// method call names its method.
pub open spec fn block_well_formed(block: BlockView) -> bool {
    &&& match block.interface {
        Some(path) => path.len() > 0 && forall|i: int|
            0 <= i < path.len() ==> (#[trigger] path[i]).len() > 0,
        None => true,
    }
    &&& forall|i: int|
        0 <= i < block.members.len() ==> member_well_formed(#[trigger] block.members[i])
}

/// Decides whether an expression names every method it calls.
pub fn expr_is_well_formed(expr: &Expr) -> (well_formed: bool)
    ensures
        well_formed == expr_well_formed(expr@),
    decreases expr,
{
    match expr {
        Expr::If(link) => link_is_well_formed(link),
        Expr::Try(inner) => expr_is_well_formed(&**inner),
        Expr::MethodCall(call) => !call.method.as_str().is_empty(),
        Expr::Other => true,
    }
}

/// Decides whether one link of a chain, with all that hangs from it, names
/// every method it calls.
pub fn link_is_well_formed(link: &IfExpr) -> (well_formed: bool)
    ensures
        well_formed == link_well_formed(link@),
    decreases link,
{
    if !stmts_are_well_formed(&link.then_branch) {
        return false;
    }
    match &link.else_branch {
        Some(next) => expr_is_well_formed(&**next),
        None => true,
    }
}

/// Decides whether a statement names every method it calls.
pub fn stmt_is_well_formed(stmt: &Stmt) -> (well_formed: bool)
    ensures
        well_formed == stmt_well_formed(stmt@),
    decreases stmt,
{
    match stmt {
        Stmt::Expr(expr) => expr_is_well_formed(expr),
        Stmt::Semi(expr) => expr_is_well_formed(expr),
        Stmt::Other => true,
    }
}

/// Decides whether each of the statements names every method it calls.
pub fn stmts_are_well_formed(stmts: &Vec<Stmt>) -> (well_formed: bool)
    ensures
        well_formed == stmts_well_formed(stmt_views(stmts@)),
    decreases stmts,
{
    let mut index: usize = 0;
    while index < stmts.len()
        invariant
            index <= stmts.len(),
            forall|i: int| 0 <= i < index ==> stmt_well_formed(#[trigger] stmt_views(stmts@)[i]),
        decreases stmts.len() - index,
    {
        if !stmt_is_well_formed(&stmts[index]) {
            assert(!stmt_well_formed(stmt_views(stmts@)[index as int]));
            return false;
        }
        index += 1;
    }
    true
}

/// Decides whether an interface path has a segment and no empty one.
pub fn path_is_well_formed(path: &Vec<String>) -> (well_formed: bool)
    ensures
        well_formed == (path.len() > 0 && forall|i: int|
            0 <= i < path.len() ==> (#[trigger] path_view(path@)[i]).len() > 0),
{
    if path.len() == 0 {
        return false;
    }
    let mut index: usize = 0;
    while index < path.len()
        invariant
            index <= path.len(),
            forall|i: int| 0 <= i < index ==> (#[trigger] path_view(path@)[i]).len() > 0,
        decreases path.len() - index,
    {
        if path[index].as_str().is_empty() {
            assert(path_view(path@)[index as int].len() == 0);
            return false;
        }
        index += 1;
    }
    true
}

/// Decides whether every procedure among the members has a name and names
/// every method it calls.
pub fn members_are_well_formed(members: &Vec<Member>) -> (well_formed: bool)
    ensures
        well_formed == (forall|i: int|
            0 <= i < members.len() ==> member_well_formed(#[trigger] member_views(members@)[i])),
{
    let mut index: usize = 0;
    while index < members.len()
        invariant
            index <= members.len(),
            forall|i: int|
                0 <= i < index ==> member_well_formed(#[trigger] member_views(members@)[i]),
        decreases members.len() - index,
    {
        let well_formed = match &members[index] {
            Member::Procedure(procedure) => !procedure.name.as_str().is_empty()
                && stmts_are_well_formed(&procedure.body),
            Member::Other => true,
        };
        if !well_formed {
            assert(!member_well_formed(member_views(members@)[index as int]));
            return false;
        }
        index += 1;
    }
    true
}

impl ImplBlock {
    /// Decides whether the block names whatever it mentions.
    pub fn is_well_formed(&self) -> (well_formed: bool)
        ensures
            well_formed == block_well_formed(self@),
    {
        let interface_named = match &self.interface {
            Some(path) => path_is_well_formed(path),
            None => true,
        };
        let members_named = members_are_well_formed(&self.members);
        assert(self@.members.len() == self.members.len());
        interface_named && members_named
    }
}

} // verus!
