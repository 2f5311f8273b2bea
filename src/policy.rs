use vstd::prelude::*;

use crate::query::{CommandKind, JoinTree, QueryTree};

verus! {

/// Why a statement was refused.
#[derive(Clone, Copy, Debug, PartialEq, Eq, Structural)]
pub enum GuardError {
    /// An UPDATE or DELETE without a filter predicate: a cardinality
    /// violation.
    Unfiltered(CommandKind),
    /// An UPDATE or DELETE whose join/filter tree is missing altogether.
    /// The host always supplies one for real statements, so this is an
    /// internal error rather than a policy outcome; it is refused all the
    /// same, as such a statement carries no predicate.
    MissingJoinTree(CommandKind),
}

impl GuardError {
    /// The statement kind that the error names.
    pub open spec fn spec_command_kind(self) -> CommandKind {
        match self {
            GuardError::Unfiltered(k) => k,
            GuardError::MissingJoinTree(k) => k,
        }
    }

    pub open spec fn spec_message(self) -> Seq<char> {
        match self {
            GuardError::Unfiltered(CommandKind::Delete) => "DELETE requires a WHERE clause"@,
            GuardError::Unfiltered(_) => "UPDATE requires a WHERE clause"@,
            GuardError::MissingJoinTree(CommandKind::Delete) => "DELETE has no join tree"@,
            GuardError::MissingJoinTree(_) => "UPDATE has no join tree"@,
        }
    }

    pub fn command_kind(&self) -> (r: CommandKind)
        ensures
            r == self.spec_command_kind(),
    {
        match self {
            GuardError::Unfiltered(k) => *k,
            GuardError::MissingJoinTree(k) => *k,
        }
    }

    /// Whether the error is a policy violation, reported with the
    /// cardinality-violation class; the other errors are internal.
    pub fn is_cardinality_violation(&self) -> (r: bool)
        ensures
            r == (*self is Unfiltered),
    {
        match self {
            GuardError::Unfiltered(_) => true,
            GuardError::MissingJoinTree(_) => false,
        }
    }

    /// A human-readable message naming the refused statement kind.
    pub fn message(&self) -> (r: &'static str)
        ensures
            r@ == self.spec_message(),
    {
        match self {
            GuardError::Unfiltered(CommandKind::Delete) => "DELETE requires a WHERE clause",
            GuardError::Unfiltered(_) => "UPDATE requires a WHERE clause",
            GuardError::MissingJoinTree(CommandKind::Delete) => "DELETE has no join tree",
            GuardError::MissingJoinTree(_) => "UPDATE has no join tree",
        }
    }
}

/// The error that a statement earns on its own account, ignoring its
/// common table expressions: only UPDATE and DELETE must be filtered.
pub open spec fn primary_error(q: QueryTree) -> Option<GuardError> {
    if q.command_kind.spec_is_mutating() {
        match q.join_tree {
            JoinTree::Absent => Some(GuardError::MissingJoinTree(q.command_kind)),
            JoinTree::Unqualified => Some(GuardError::Unfiltered(q.command_kind)),
            JoinTree::Qualified => None,
        }
    } else {
        None
    }
}

/// The first error among the entries `ctes[i..]`, in declaration order;
/// absent entries are skipped.
pub open spec fn first_error_from(ctes: Seq<Option<QueryTree>>, i: int) -> Option<GuardError>
    decreases ctes, ctes.len() - i,
{
    if i < 0 || i >= ctes.len() {
        None
    } else {
        let here = match ctes[i] {
            Some(c) => first_error(c),
            None => None,
        };
        if here is Some {
            here
        } else {
            first_error_from(ctes, i + 1)
        }
    }
}

/// The error that a statement's common table expressions raise. They are
/// looked at only when the host marked one of them as modifying.
pub open spec fn cte_error(q: QueryTree) -> Option<GuardError> {
    if q.has_modifying_cte {
        first_error_from(q.ctes@, 0)
    } else {
        None
    }
}

/// The error that evaluating a statement raises, if any: the common table
/// expressions are checked first, then the statement itself.
pub open spec fn first_error(q: QueryTree) -> Option<GuardError>
    decreases q, 0int,
{
    let nested = if q.has_modifying_cte {
        first_error_from(q.ctes@, 0)
    } else {
        None
    };
    if nested is Some {
        nested
    } else {
        primary_error(q)
    }
}

/// Checks a statement on its own account, ignoring its common table
/// expressions.
pub fn check_primary(q: &QueryTree) -> (r: Result<(), GuardError>)
    ensures
        r is Ok <==> primary_error(*q) is None,
        r is Err ==> primary_error(*q) == Some(r->Err_0),
{
    if !q.command_kind.is_mutating() {
        return Ok(());
    }
    match q.join_tree {
        JoinTree::Absent => Err(GuardError::MissingJoinTree(q.command_kind)),
        JoinTree::Unqualified => Err(GuardError::Unfiltered(q.command_kind)),
        JoinTree::Qualified => Ok(()),
    }
}

/// Evaluates a statement against the policy that UPDATE and DELETE must
/// carry a filter predicate.
///
/// When the statement has a modifying common table expression, each
/// present nested query is evaluated first, in declaration order, and the
/// first error stops the evaluation; then the statement itself is checked.
pub fn evaluate(q: &QueryTree) -> (r: Result<(), GuardError>)
    ensures
        r is Ok <==> first_error(*q) is None,
        r is Err ==> first_error(*q) == Some(r->Err_0),
    decreases q,
{
    if q.has_modifying_cte {
        let n: usize = q.ctes.len();
        let mut i: usize = 0;
        while i < n
            invariant
                0 <= i <= n,
                n == q.ctes@.len(),
                q.has_modifying_cte,
                first_error_from(q.ctes@, 0) == first_error_from(q.ctes@, i as int),
            decreases n - i,
        {
            match &q.ctes[i] {
                Some(c) => {
                    let checked = evaluate(c);
                    if let Err(e) = checked {
                        return Err(e);
                    }
                },
                None => {},
            }
            i += 1;
        }
    }
    check_primary(q)
}

/// A SELECT, INSERT or utility statement is never refused on its own
/// account, whether or not it carries a filter predicate: whatever error
/// it earns comes from its common table expressions.
pub proof fn lemma_non_mutating_never_refused(q: QueryTree)
    requires
        !q.command_kind.spec_is_mutating(),
    ensures
        primary_error(q) is None,
        first_error(q) == cte_error(q),
        cte_error(q) is None ==> first_error(q) is None,
{
}

/// An UPDATE or DELETE whose common table expressions pass is refused
/// exactly when it carries no filter predicate, and the error names its
/// kind.
pub proof fn lemma_mutating_refused_iff_unfiltered(q: QueryTree)
    requires
        q.command_kind.spec_is_mutating(),
        cte_error(q) is None,
    ensures
        first_error(q) is Some <==> !q.spec_has_filter_predicate(),
        first_error(q) is Some ==> first_error(q)->0.spec_command_kind() == q.command_kind,
{
}

proof fn lemma_first_error_from_reaches(ctes: Seq<Option<QueryTree>>, j: int, i: int)
    requires
        0 <= j <= i < ctes.len(),
        ctes[i] is Some,
        first_error(ctes[i]->0) is Some,
    ensures
        first_error_from(ctes, j) is Some,
    decreases i - j,
{
    if j < i {
        lemma_first_error_from_reaches(ctes, j + 1, i);
    }
}

/// A statement is refused when one of its common table expressions is,
/// provided the host marked it as having a modifying one; the error then
/// comes from the common table expressions, before the statement itself is
/// looked at, so this holds of a harmless SELECT too.
pub proof fn lemma_refused_cte_refuses_statement(q: QueryTree, i: int)
    requires
        q.has_modifying_cte,
        0 <= i < q.ctes@.len(),
        q.ctes@[i] is Some,
        first_error(q.ctes@[i]->0) is Some,
    ensures
        cte_error(q) is Some,
        first_error(q) == cte_error(q),
{
    lemma_first_error_from_reaches(q.ctes@, 0, i);
}

} // verus!
