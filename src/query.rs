use vstd::prelude::*;

verus! {

/// The kind of statement a query tree describes.
#[derive(Clone, Copy, Debug, PartialEq, Eq, Structural)]
pub enum CommandKind {
    Select,
    Insert,
    Update,
    Delete,
    Utility,
}

impl CommandKind {
    /// Whether statements of this kind change rows and so must be filtered.
    pub open spec fn spec_is_mutating(self) -> bool {
        self is Update || self is Delete
    }

    pub fn is_mutating(&self) -> (r: bool)
        ensures
            r == self.spec_is_mutating(),
    {
        match self {
            CommandKind::Update | CommandKind::Delete => true,
            _ => false,
        }
    }
}

/// What a statement's join/filter tree looks like.
#[derive(Clone, Copy, Debug, PartialEq, Eq, Structural)]
pub enum JoinTree {
    /// The statement carries no join/filter tree at all.
    Absent,
    /// A join/filter tree without a qualifying condition.
    Unqualified,
    /// A join/filter tree with a qualifying condition.
    Qualified,
}

/// A read-only view of one analyzed statement.
///
/// `ctes` lists the statement's common table expressions in declaration
/// order; an entry is `None` when the host left its query out.
pub struct QueryTree {
    pub command_kind: CommandKind,
    pub join_tree: JoinTree,
    pub has_modifying_cte: bool,
    pub ctes: Vec<Option<QueryTree>>,
}

impl QueryTree {
    /// Whether the statement carries a filter predicate.
    pub open spec fn spec_has_filter_predicate(&self) -> bool {
        self.join_tree is Qualified
    }

    /// A statement with no common table expressions.
    pub fn new(command_kind: CommandKind, join_tree: JoinTree) -> (r: QueryTree)
        ensures
            r.command_kind == command_kind,
            r.join_tree == join_tree,
            !r.has_modifying_cte,
            r.ctes@.len() == 0,
    {
        QueryTree { command_kind, join_tree, has_modifying_cte: false, ctes: Vec::new() }
    }

    pub fn command_kind(&self) -> (r: CommandKind)
        ensures
            r == self.command_kind,
    {
        self.command_kind
    }

    pub fn has_filter_predicate(&self) -> (r: bool)
        ensures
            r == self.spec_has_filter_predicate(),
    {
        match self.join_tree {
            JoinTree::Qualified => true,
            _ => false,
        }
    }

    /// Appends a common table expression; `modifying` says whether it
    /// changes rows itself, which marks the statement as having a
    /// modifying common table expression.
    pub fn push_cte(&mut self, query: Option<QueryTree>, modifying: bool)
        ensures
            final(self).command_kind == old(self).command_kind,
            final(self).join_tree == old(self).join_tree,
            final(self).has_modifying_cte == (old(self).has_modifying_cte || modifying),
            final(self).ctes@ == old(self).ctes@.push(query),
    {
        self.ctes.push(query);
        self.has_modifying_cte = self.has_modifying_cte || modifying;
    }
}

} // verus!
