//! The parsed schema that the analysis passes read.
use vstd::prelude::*;

verus! {

/// A byte range in the schema source.
#[derive(Clone, Copy, Debug, PartialEq, Eq, Structural)]
pub struct Span {
    pub start: usize,
    pub end: usize,
}

/// A value on the right-hand side of an argument.
#[derive(Debug)]
pub enum Expression {
    StringValue(String, Span),
    NumericValue(String, Span),
    BooleanValue(bool, Span),
    ConstantValue(String, Span),
    /// `env("NAME")`: the value of an environment variable.
    EnvFunction(String, Span),
    Array(Vec<Expression>, Span),
}

pub open spec fn expr_span(e: Expression) -> Span {
    match e {
        Expression::StringValue(_, s) => s,
        Expression::NumericValue(_, s) => s,
        Expression::BooleanValue(_, s) => s,
        Expression::ConstantValue(_, s) => s,
        Expression::EnvFunction(_, s) => s,
        Expression::Array(_, s) => s,
    }
}

impl Expression {
    pub fn span(&self) -> (r: Span)
        ensures
            r == expr_span(*self),
    {
        match self {
            Expression::StringValue(_, s) => *s,
            Expression::NumericValue(_, s) => *s,
            Expression::BooleanValue(_, s) => *s,
            Expression::ConstantValue(_, s) => *s,
            Expression::EnvFunction(_, s) => *s,
            Expression::Array(_, s) => *s,
        }
    }
}

/// `name = value` inside a block.
#[derive(Debug)]
pub struct Argument {
    pub name: String,
    pub value: Expression,
    pub span: Span,
}

/// A `datasource` block.
#[derive(Debug)]
pub struct SourceConfig {
    pub name: String,
    pub properties: Vec<Argument>,
    pub documentation: Option<String>,
    pub span: Span,
}

/// The type written on the right of a type alias.
#[derive(Clone, Debug)]
pub enum FieldType {
    /// A reference to a type by name, with the reference's span.
    Supported(String, Span),
    /// `Unsupported("...")`: a type the author marked as opaque.
    Unsupported(String, Span),
}

/// `type Name = FieldType`.
#[derive(Clone, Debug)]
pub struct TypeAlias {
    pub name: String,
    pub field_type: FieldType,
    pub span: Span,
}

/// A model, enum or generator, of which only the name matters here.
#[derive(Clone, Debug)]
pub struct Declaration {
    pub name: String,
    pub span: Span,
}

/// A top-level declaration.
#[derive(Debug)]
pub enum Top {
    Model(Declaration),
    Enum(Declaration),
    Type(TypeAlias),
    Source(SourceConfig),
    Generator(Declaration),
}

/// The whole schema. A declaration's handle is its index in `tops`.
#[derive(Debug)]
pub struct SchemaAst {
    pub tops: Vec<Top>,
}

pub open spec fn top_name(t: Top) -> Seq<char> {
    match t {
        Top::Model(d) => d.name@,
        Top::Enum(d) => d.name@,
        Top::Type(a) => a.name@,
        Top::Source(s) => s.name@,
        Top::Generator(d) => d.name@,
    }
}

/// Declarations that a type reference may name.
pub open spec fn is_type_target(t: Top) -> bool {
    t is Model || t is Enum || t is Type
}

/// The handle that a type reference `name` stands for: the first model,
/// enum or alias declared under that name.
pub open spec fn lookup_type(tops: Seq<Top>, name: Seq<char>) -> Option<int>
    decreases tops.len(),
{
    if tops.len() == 0 {
        None
    } else {
        match lookup_type(tops.drop_last(), name) {
            Some(i) => Some(i),
            None => if is_type_target(tops.last()) && top_name(tops.last()) == name {
                Some(tops.len() - 1)
            } else {
                None
            },
        }
    }
}

/// The datasource blocks of a schema, in source order.
pub open spec fn sources_of(tops: Seq<Top>) -> Seq<SourceConfig>
    decreases tops.len(),
{
    if tops.len() == 0 {
        Seq::empty()
    } else {
        match tops.last() {
            Top::Source(s) => sources_of(tops.drop_last()).push(s),
            _ => sources_of(tops.drop_last()),
        }
    }
}

pub proof fn lemma_lookup_bounds(tops: Seq<Top>, name: Seq<char>)
    ensures
        lookup_type(tops, name) matches Some(i) ==> 0 <= i < tops.len() && is_type_target(tops[i])
            && top_name(tops[i]) == name,
    decreases tops.len(),
{
    if tops.len() > 0 {
        lemma_lookup_bounds(tops.drop_last(), name);
    }
}

proof fn lemma_lookup_prefix(tops: Seq<Top>, k: int, name: Seq<char>)
    requires
        0 <= k <= tops.len(),
        lookup_type(tops.take(k), name) is Some,
    ensures
        lookup_type(tops, name) == lookup_type(tops.take(k), name),
    decreases tops.len() - k,
{
    if k < tops.len() {
        assert(tops.drop_last().take(k) == tops.take(k));
        lemma_lookup_prefix(tops.drop_last(), k, name);
    } else {
        assert(tops.take(k) == tops);
    }
}

/// Whether `s` equals the literal `lit`.
pub fn eq_lit(s: &String, lit: &str) -> (r: bool)
    ensures
        r == (s@ == lit@),
{
    let l = lit.to_owned();
    s.eq(&l)
}

impl SchemaAst {
    /// The handle of the model, enum or alias that `name` refers to.
    pub fn find_type(&self, name: &String) -> (r: Option<usize>)
        ensures
            r matches Some(i) ==> lookup_type(self.tops@, name@) == Some(i as int),
            r is None ==> lookup_type(self.tops@, name@) is None,
    {
        let n = self.tops.len();
        let mut i: usize = 0;
        while i < n
            invariant
                n == self.tops@.len(),
                0 <= i <= n,
                lookup_type(self.tops@.take(i as int), name@) is None,
            decreases n - i,
        {
            let t = &self.tops[i];
            let hit = match t {
                Top::Model(d) => d.name.eq(name),
                Top::Enum(d) => d.name.eq(name),
                Top::Type(a) => a.name.eq(name),
                _ => false,
            };
            assert(self.tops@.take(i + 1).drop_last() == self.tops@.take(i as int));
            assert(self.tops@.take(i + 1).last() == self.tops@[i as int]);
            if hit {
                assert(self.tops@.take(i + 1).last() == self.tops@[i as int]);
                assert(lookup_type(self.tops@.take(i + 1), name@) == Some(i as int));
                proof {
                    lemma_lookup_prefix(self.tops@, i + 1, name@);
                }
                return Some(i);
            }
            i = i + 1;
        }
        assert(self.tops@.take(n as int) == self.tops@);
        None
    }

    /// The datasource blocks, in source order.
    pub fn sources(&self) -> (r: Vec<&SourceConfig>)
        ensures
            r@.len() == sources_of(self.tops@).len(),
            forall|k: int| 0 <= k < r@.len() ==> *r@[k] == sources_of(self.tops@)[k],
    {
        let n = self.tops.len();
        let mut r: Vec<&SourceConfig> = Vec::new();
        let mut i: usize = 0;
        while i < n
            invariant
                n == self.tops@.len(),
                0 <= i <= n,
                r@.len() == sources_of(self.tops@.take(i as int)).len(),
                forall|k: int| 0 <= k < r@.len() ==> *r@[k] == sources_of(self.tops@.take(i as int))[k],
            decreases n - i,
        {
            assert(self.tops@.take(i + 1).drop_last() == self.tops@.take(i as int));
            if let Top::Source(s) = &self.tops[i] {
                r.push(s);
            }
            i = i + 1;
        }
        assert(self.tops@.take(n as int) == self.tops@);
        r
    }
}

} // verus!
