//! The analysed schema: the AST with its type aliases resolved.
use vstd::prelude::*;
use crate::ast::{lemma_lookup_bounds, lookup_type, Declaration, SchemaAst, Top};
use crate::diagnostics::Diagnostics;
use crate::types::{alias_errors, alias_table, resolve_aliases, ResolvedType};

verus! {

/// The handles of the enums of a schema, in source order.
pub open spec fn enum_handles(tops: Seq<Top>) -> Seq<usize>
    decreases tops.len(),
{
    if tops.len() == 0 {
        Seq::empty()
    } else if tops.last() is Enum {
        enum_handles(tops.drop_last()).push((tops.len() - 1) as usize)
    } else {
        enum_handles(tops.drop_last())
    }
}

pub struct ParserDatabase<'ast> {
    pub schema: &'ast SchemaAst,
    /// At each alias's handle, what it resolves to; `None` elsewhere.
    pub type_aliases: Vec<Option<ResolvedType>>,
}

impl<'ast> ParserDatabase<'ast> {
    pub open spec fn wf(&self) -> bool {
        self.type_aliases@ == alias_table(self.schema.tops@)
    }

    /// Resolves the type aliases of `schema`, reporting failures to
    /// `diagnostics`.
    pub fn new(schema: &'ast SchemaAst, diagnostics: &mut Diagnostics) -> (r: ParserDatabase<'ast>)
        ensures
            r.wf(),
            r.schema == schema,
            final(diagnostics)@ == old(diagnostics)@ + alias_errors(schema.tops@, schema.tops@.len()),
    {
        let type_aliases = resolve_aliases(schema, diagnostics);
        ParserDatabase { schema, type_aliases }
    }

    pub fn ast(&self) -> (r: &'ast SchemaAst)
        ensures
            r == self.schema,
    {
        self.schema
    }

    /// What the alias at `id` resolves to; `None` where `id` is no alias.
    pub fn alias_type(&self, id: usize) -> (r: Option<ResolvedType>)
        requires
            self.wf(),
            id < self.schema.tops@.len(),
        ensures
            r == alias_table(self.schema.tops@)[id as int],
    {
        self.type_aliases[id]
    }

    /// The enum that `name` refers to, if it refers to one.
    pub fn get_enum(&self, name: &String) -> (r: Option<&'ast Declaration>)
        ensures
            r matches Some(d) ==> lookup_type(self.schema.tops@, name@) matches Some(i) && self.schema.tops@[i]
                == Top::Enum(*d),
            r is None ==> !(lookup_type(self.schema.tops@, name@) matches Some(i) && self.schema.tops@[i] is Enum),
    {
        proof {
            lemma_lookup_bounds(self.schema.tops@, name@);
        }
        match self.schema.find_type(name) {
            Some(i) => match &self.schema.tops[i] {
                Top::Enum(d) => Some(d),
                _ => None,
            },
            None => None,
        }
    }

    /// The enums of the schema with their handles, in source order.
    pub fn iter_enums(&self) -> (r: Vec<(usize, &'ast Declaration)>)
        ensures
            r@.map_values(|p: (usize, &'ast Declaration)| p.0) == enum_handles(self.schema.tops@),
            forall|k: int| 0 <= k < r@.len() ==> self.schema.tops@[r@[k].0 as int] == Top::Enum(*r@[k].1),
    {
        let tops = &self.schema.tops;
        let mut r: Vec<(usize, &'ast Declaration)> = Vec::new();
        let mut i: usize = 0;
        while i < tops.len()
            invariant
                tops == &self.schema.tops,
                0 <= i <= tops@.len(),
                r@.map_values(|p: (usize, &'ast Declaration)| p.0) == enum_handles(tops@.take(i as int)),
                forall|k: int| 0 <= k < r@.len() ==> r@[k].0 < tops@.len() && tops@[r@[k].0 as int] == Top::Enum(*r@[k].1),
            decreases tops@.len() - i,
        {
            assert(tops@.take(i + 1).drop_last() =~= tops@.take(i as int));
            assert(tops@.take(i + 1).last() == tops@[i as int]);
            let ghost before = r@;
            if let Top::Enum(d) = &tops[i] {
                r.push((i, d));
                assert(r@.map_values(|p: (usize, &'ast Declaration)| p.0) =~= before.map_values(
                    |p: (usize, &'ast Declaration)| p.0,
                ).push(i));
            }
            i = i + 1;
        }
        assert(tops@.take(tops@.len() as int) =~= tops@);
        r
    }
}

} // verus!
