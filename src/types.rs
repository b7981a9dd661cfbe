//! Resolution of type aliases to the types they finally stand for.
use vstd::prelude::*;
use crate::ast::{eq_lit, Span, lemma_lookup_bounds, lookup_type, top_name, FieldType, SchemaAst, Top, TypeAlias};
use crate::diagnostics::{strings_view, DatamodelError, Diagnostics, ErrorView};

verus! {

/// The type of a field, with type aliases erased.
#[derive(Clone, Copy, Debug, PartialEq, Eq, Structural)]
pub enum ResolvedType {
    /// The enum declared at this handle.
    Enum(usize),
    Scalar,
    Unsupported,
    /// Resolution failed; a diagnostic says why.
    Unknown,
}

pub open spec fn is_builtin_scalar(name: Seq<char>) -> bool {
    name == "Int"@ || name == "BigInt"@ || name == "Float"@ || name == "Boolean"@ || name
        == "String"@ || name == "DateTime"@ || name == "Json"@ || name == "Bytes"@ || name
        == "Decimal"@
}

pub fn is_builtin_scalar_name(name: &String) -> (r: bool)
    ensures
        r == is_builtin_scalar(name@),
{
    eq_lit(name, "Int") || eq_lit(name, "BigInt") || eq_lit(name, "Float") || eq_lit(name, "Boolean")
        || eq_lit(name, "String") || eq_lit(name, "DateTime") || eq_lit(name, "Json") || eq_lit(
        name,
        "Bytes",
    ) || eq_lit(name, "Decimal")
}

pub open spec fn is_alias(tops: Seq<Top>, i: usize) -> bool {
    i < tops.len() && tops[i as int] is Type
}

pub open spec fn alias_at(tops: Seq<Top>, i: usize) -> TypeAlias {
    match tops[i as int] {
        Top::Type(a) => a,
        _ => arbitrary(),
    }
}

/// The names on a cycle: the root alias, the aliases followed from it, and
/// the name that led back onto the chain.
pub open spec fn cycle_path(tops: Seq<Top>, root: usize, path: Seq<usize>, closing: Seq<char>) -> Seq<
    Seq<char>,
> {
    seq![top_name(tops[root as int])] + path.map_values(|j: usize| top_name(tops[j as int])) + seq![
        closing,
    ]
}

/// Follows the chain that starts at alias `root`. `cur` is the alias whose
/// right-hand side is examined; `path` holds the aliases followed so far.
/// Gives the resolved type and the diagnostics found on the way.
pub open spec fn resolve_from(tops: Seq<Top>, root: usize, cur: usize, path: Seq<usize>) -> (
    ResolvedType,
    Seq<ErrorView>,
)
    decreases tops.len() - path.len(),
{
    match alias_at(tops, cur).field_type {
        FieldType::Unsupported(_, _) => (ResolvedType::Unsupported, Seq::empty()),
        FieldType::Supported(name, span) => if is_builtin_scalar(name@) {
            (ResolvedType::Scalar, Seq::empty())
        } else {
            match lookup_type(tops, name@) {
                None => (ResolvedType::Unknown, seq![ErrorView::TypeNotFound { name: name@, span }]),
                Some(j) => match tops[j] {
                    Top::Type(target) => if j == root || path.contains(j as usize) {
                        (
                            ResolvedType::Unknown,
                            seq![
                                ErrorView::RecursiveType {
                                    path: cycle_path(tops, root, path, target.name@),
                                    span: alias_at(tops, root).span,
                                },
                            ],
                        )
                    } else if path.len() < tops.len() {
                        resolve_from(tops, root, j as usize, path.push(j as usize))
                    } else {
                        (ResolvedType::Unknown, Seq::empty())
                    },
                    Top::Enum(_) => (ResolvedType::Enum(j as usize), Seq::empty()),
                    _ => (ResolvedType::Unknown, seq![ErrorView::OnlyScalarTypes { span }]),
                },
            }
        },
    }
}

/// What the alias at `root` resolves to, with the diagnostics it causes.
pub open spec fn resolve_alias_spec(tops: Seq<Top>, root: usize) -> (ResolvedType, Seq<ErrorView>) {
    resolve_from(tops, root, root, Seq::empty())
}

/// The table that `resolve_aliases` builds: an entry for each alias handle.
pub open spec fn alias_table(tops: Seq<Top>) -> Seq<Option<ResolvedType>> {
    Seq::new(
        tops.len(),
        |i: int|
            if tops[i] is Type {
                Some(resolve_alias_spec(tops, i as usize).0)
            } else {
                None
            },
    )
}

/// The diagnostics of resolving the aliases among the first `k` declarations.
pub open spec fn alias_errors(tops: Seq<Top>, k: nat) -> Seq<ErrorView>
    decreases k,
{
    if k == 0 {
        Seq::empty()
    } else {
        alias_errors(tops, (k - 1) as nat) + if tops[k - 1] is Type {
            resolve_alias_spec(tops, (k - 1) as usize).1
        } else {
            Seq::empty()
        }
    }
}

/// A sequence of distinct handles below `n` has at most `n` elements.
pub proof fn lemma_distinct_len_bound(s: Seq<usize>, n: nat)
    requires
        s.no_duplicates(),
        forall|k: int| 0 <= k < s.len() ==> s[k] < n,
    ensures
        s.len() <= n,
    decreases n,
{
    if n == 0 {
        if s.len() > 0 {
            assert(s[0] < n);
        }
    } else if s.contains((n - 1) as usize) {
        let idx = s.index_of((n - 1) as usize);
        let t = s.remove(idx);
        assert forall|k: int| 0 <= k < t.len() implies t[k] < n - 1 by {
            if k < idx {
                assert(t[k] == s[k]);
            } else {
                assert(t[k] == s[k + 1]);
            }
        }
        assert forall|a: int, b: int| 0 <= a < t.len() && 0 <= b < t.len() && a != b implies t[a]
            != t[b] by {
            let ia = if a < idx { a } else { a + 1 };
            let ib = if b < idx { b } else { b + 1 };
            assert(t[a] == s[ia]);
            assert(t[b] == s[ib]);
        }
        lemma_distinct_len_bound(t, (n - 1) as nat);
    } else {
        assert forall|k: int| 0 <= k < s.len() implies s[k] < n - 1 by {
            if s[k] == n - 1 {
                assert(s.contains(s[k]));
            }
        }
        lemma_distinct_len_bound(s, (n - 1) as nat);
    }
}

fn alias_of(ast: &SchemaAst, i: usize) -> (r: &TypeAlias)
    requires
        is_alias(ast.tops@, i),
    ensures
        *r == alias_at(ast.tops@, i),
{
    match &ast.tops[i] {
        Top::Type(a) => a,
        _ => {
            proof {
                assert(false);
            }
            vstd::pervasive::unreached()
        },
    }
}

fn contains_handle(v: &Vec<usize>, x: usize) -> (r: bool)
    ensures
        r == v@.contains(x),
{
    let mut i: usize = 0;
    while i < v.len()
        invariant
            0 <= i <= v@.len(),
            forall|k: int| 0 <= k < i ==> v@[k] != x,
        decreases v@.len() - i,
    {
        if v[i] == x {
            return true;
        }
        i = i + 1;
    }
    false
}

/// Resolves the alias declared at `root`. Follows the chain of aliases,
/// keeping the aliases already followed to detect a cycle; every failure is
/// reported to `diagnostics` and yields `Unknown`.
pub fn resolve_alias(ast: &SchemaAst, root: usize, diagnostics: &mut Diagnostics) -> (r: ResolvedType)
    requires
        is_alias(ast.tops@, root),
    ensures
        r == resolve_alias_spec(ast.tops@, root).0,
        final(diagnostics)@ == old(diagnostics)@ + resolve_alias_spec(ast.tops@, root).1,
{
    let ghost tops = ast.tops@;
    let n = ast.tops.len();
    let root_alias = alias_of(ast, root);
    let mut cur: usize = root;
    let mut path: Vec<usize> = Vec::new();
    let mut names: Vec<String> = Vec::new();
    names.push(root_alias.name.clone());
    assert(path@.map_values(|j: usize| top_name(tops[j as int])) =~= Seq::empty());
    assert(strings_view(names@) =~= seq![top_name(tops[root as int])] + path@.map_values(
        |j: usize| top_name(tops[j as int]),
    ));
    loop
        invariant
            tops == ast.tops@,
            n == tops.len(),
            is_alias(tops, root),
            is_alias(tops, cur),
            *root_alias == alias_at(tops, root),
            path@.no_duplicates(),
            !path@.contains(root),
            forall|k: int| 0 <= k < path@.len() ==> is_alias(tops, #[trigger] path@[k]),
            strings_view(names@) == seq![top_name(tops[root as int])] + path@.map_values(
                |j: usize| top_name(tops[j as int]),
            ),
            resolve_alias_spec(tops, root) == resolve_from(tops, root, cur, path@),
            diagnostics@ == old(diagnostics)@,
        decreases n - path@.len(),
    {
        let alias = alias_of(ast, cur);
        match &alias.field_type {
            FieldType::Unsupported(_, _) => {
                assert(diagnostics@ =~= old(diagnostics)@ + Seq::<ErrorView>::empty());
                return ResolvedType::Unsupported;
            },
            FieldType::Supported(name, span) => {
                if is_builtin_scalar_name(name) {
                    assert(diagnostics@ =~= old(diagnostics)@ + Seq::<ErrorView>::empty());
                    return ResolvedType::Scalar;
                }
                proof {
                    lemma_lookup_bounds(tops, name@);
                }
                match ast.find_type(name) {
                    None => {
                        diagnostics.push_error(
                            DatamodelError::TypeNotFound { name: name.clone(), span: *span },
                        );
                        return ResolvedType::Unknown;
                    },
                    Some(j) => {
                        match &ast.tops[j] {
                            Top::Type(target) => {
                                if j == root || contains_handle(&path, j) {
                                    names.push(target.name.clone());
                                    assert(strings_view(names@) =~= cycle_path(
                                        tops,
                                        root,
                                        path@,
                                        target.name@,
                                    ));
                                    diagnostics.push_error(
                                        DatamodelError::RecursiveType {
                                            path: names,
                                            span: root_alias.span,
                                        },
                                    );
                                    return ResolvedType::Unknown;
                                }
                                proof {
                                    lemma_distinct_len_bound(path@.push(root), n as nat);
                                }
                                let ghost old_path = path@;
                                let ghost old_names = names@;
                                path.push(j);
                                names.push(target.name.clone());
                                assert(path@ =~= old_path.push(j));
                                assert(top_name(tops[j as int]) == target.name@);
                                assert(strings_view(names@) =~= strings_view(old_names).push(
                                    target.name@,
                                ));
                                assert(path@.map_values(|j: usize| top_name(tops[j as int]))
                                    =~= old_path.map_values(|j: usize| top_name(tops[j as int])).push(
                                    target.name@,
                                ));
                                assert(strings_view(names@) =~= seq![top_name(tops[root as int])]
                                    + path@.map_values(|j: usize| top_name(tops[j as int])));
                                cur = j;
                            },
                            Top::Enum(_) => {
                                assert(diagnostics@ =~= old(diagnostics)@ + Seq::<ErrorView>::empty());
                                return ResolvedType::Enum(j);
                            },
                            _ => {
                                diagnostics.push_error(DatamodelError::OnlyScalarTypes { span: *span });
                                return ResolvedType::Unknown;
                            },
                        }
                    },
                }
            },
        }
    }
}

/// Resolves every type alias of the schema, in source order. The entry at
/// an alias's handle holds what it resolves to; other entries are `None`.
pub fn resolve_aliases(ast: &SchemaAst, diagnostics: &mut Diagnostics) -> (r: Vec<
    Option<ResolvedType>,
>)
    ensures
        r@ == alias_table(ast.tops@),
        final(diagnostics)@ == old(diagnostics)@ + alias_errors(ast.tops@, ast.tops@.len()),
{
    let n = ast.tops.len();
    let mut r: Vec<Option<ResolvedType>> = Vec::new();
    let mut i: usize = 0;
    while i < n
        invariant
            n == ast.tops@.len(),
            0 <= i <= n,
            r@ == alias_table(ast.tops@).take(i as int),
            diagnostics@ == old(diagnostics)@ + alias_errors(ast.tops@, i as nat),
        decreases n - i,
    {
        let ghost before = diagnostics@;
        if let Top::Type(_) = &ast.tops[i] {
            let t = resolve_alias(ast, i, diagnostics);
            r.push(Some(t));
        } else {
            r.push(None);
            assert(diagnostics@ =~= before + Seq::<ErrorView>::empty());
        }
        assert(r@ =~= alias_table(ast.tops@).take(i + 1));
        assert(diagnostics@ =~= old(diagnostics)@ + alias_errors(ast.tops@, (i + 1) as nat));
        i = i + 1;
    }
    assert(alias_table(ast.tops@).take(n as int) =~= alias_table(ast.tops@));
    r
}

/// Alias `a` refers by name to the alias at `b`.
pub open spec fn links_to(tops: Seq<Top>, a: usize, b: usize) -> bool {
    is_alias(tops, a) && is_alias(tops, b) && match alias_at(tops, a).field_type {
        FieldType::Supported(name, _) => !is_builtin_scalar(name@) && lookup_type(tops, name@) == Some(
            b as int,
        ),
        _ => false,
    }
}

/// `chain` is a sequence of distinct aliases, each referring to the next.
pub open spec fn is_alias_chain(tops: Seq<Top>, chain: Seq<usize>) -> bool {
    &&& chain.len() >= 1
    &&& chain.no_duplicates()
    &&& is_alias(tops, chain.last())
    &&& forall|k: int| 0 <= k < chain.len() - 1 ==> #[trigger] links_to(tops, chain[k], chain[k + 1])
}

proof fn lemma_chain_steps(tops: Seq<Top>, chain: Seq<usize>, k: int)
    requires
        is_alias_chain(tops, chain),
        0 <= k < chain.len(),
    ensures
        resolve_from(tops, chain[0], chain[k], chain.subrange(1, k + 1)) == resolve_from(
            tops,
            chain[0],
            chain.last(),
            chain.subrange(1, chain.len() as int),
        ),
    decreases chain.len() - k,
{
    if k < chain.len() - 1 {
        assert forall|m: int| 0 <= m < chain.len() implies #[trigger] chain[m] < tops.len() by {
            if m < chain.len() - 1 {
                assert(links_to(tops, chain[m], chain[m + 1]));
            }
        }
        lemma_distinct_len_bound(chain, tops.len());
        let path = chain.subrange(1, k + 1);
        let j = chain[k + 1];
        assert(links_to(tops, chain[k], chain[k + 1]));
        assert(j != chain[0]);
        assert(!path.contains(j)) by {
            if path.contains(j) {
                let m = path.index_of(j);
                assert(chain[m + 1] == j);
            }
        }
        assert(path.push(j) =~= chain.subrange(1, k + 2));
        lemma_chain_steps(tops, chain, k + 1);
    } else {
        assert(chain.subrange(1, k + 1) =~= chain.subrange(1, chain.len() as int));
    }
}

/// An alias chain whose last alias names a builtin scalar resolves to
/// `Scalar`, with no diagnostic.
pub proof fn law_chain_to_scalar(tops: Seq<Top>, chain: Seq<usize>)
    requires
        is_alias_chain(tops, chain),
        alias_at(tops, chain.last()).field_type matches FieldType::Supported(name, _)
            && is_builtin_scalar(name@),
    ensures
        resolve_alias_spec(tops, chain[0]) == (ResolvedType::Scalar, Seq::<ErrorView>::empty()),
{
    assert(chain.subrange(1, 1) =~= Seq::<usize>::empty());
    lemma_chain_steps(tops, chain, 0);
}

/// An alias chain whose last alias names an enum resolves to that enum,
/// with no diagnostic.
pub proof fn law_chain_to_enum(tops: Seq<Top>, chain: Seq<usize>, e: usize)
    requires
        is_alias_chain(tops, chain),
        alias_at(tops, chain.last()).field_type matches FieldType::Supported(name, _)
            && !is_builtin_scalar(name@) && lookup_type(tops, name@) == Some(e as int),
        e < tops.len(),
        tops[e as int] is Enum,
    ensures
        resolve_alias_spec(tops, chain[0]) == (ResolvedType::Enum(e), Seq::<ErrorView>::empty()),
{
    assert(chain.subrange(1, 1) =~= Seq::<usize>::empty());
    lemma_chain_steps(tops, chain, 0);
}

/// An alias that refers to itself resolves to `Unknown`, with one cycle
/// diagnostic whose path is the alias's name twice.
pub proof fn law_self_reference(tops: Seq<Top>, a: usize)
    requires
        links_to(tops, a, a),
    ensures
        resolve_alias_spec(tops, a) == (
            ResolvedType::Unknown,
            seq![
                ErrorView::RecursiveType {
                    path: seq![top_name(tops[a as int]), top_name(tops[a as int])],
                    span: alias_at(tops, a).span,
                },
            ],
        ),
{
    assert(cycle_path(tops, a, Seq::empty(), top_name(tops[a as int])) =~= seq![
        top_name(tops[a as int]),
        top_name(tops[a as int]),
    ]);
}

/// An alias that names no declared type resolves to `Unknown`, with one
/// "type not found" diagnostic at the reference.
pub proof fn law_type_not_found(tops: Seq<Top>, a: usize, name: String, span: Span)
    requires
        is_alias(tops, a),
        alias_at(tops, a).field_type == FieldType::Supported(name, span),
        !is_builtin_scalar(name@),
        lookup_type(tops, name@) is None,
    ensures
        resolve_alias_spec(tops, a) == (
            ResolvedType::Unknown,
            seq![ErrorView::TypeNotFound { name: name@, span }],
        ),
{
}

} // verus!
