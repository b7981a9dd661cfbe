//! The fixed registry of database backends a datasource may name.
use vstd::prelude::*;
use crate::ast::eq_lit;

verus! {

/// A backend that a datasource's `provider` may select. The value is also
/// the handle to the backend's connector.
#[derive(Clone, Copy, Debug, PartialEq, Eq, Structural)]
pub enum Provider {
    MySql,
    Postgres,
    Sqlite,
    MsSql,
    MongoDb,
}

pub open spec fn canonical_name_spec(p: Provider) -> Seq<char> {
    match p {
        Provider::MySql => "mysql"@,
        Provider::Postgres => "postgresql"@,
        Provider::Sqlite => "sqlite"@,
        Provider::MsSql => "sqlserver"@,
        Provider::MongoDb => "mongodb"@,
    }
}

/// Whether `s` names the backend `p`: its canonical name, or `postgres`
/// for PostgreSQL.
pub open spec fn accepts(p: Provider, s: Seq<char>) -> bool {
    s == canonical_name_spec(p) || (p == Provider::Postgres && s == "postgres"@)
}

pub open spec fn builtin_providers() -> Seq<Provider> {
    seq![Provider::MySql, Provider::Postgres, Provider::Sqlite, Provider::MsSql, Provider::MongoDb]
}

/// The first backend of `list` that accepts `s`.
pub open spec fn find_provider(list: Seq<Provider>, s: Seq<char>) -> Option<Provider>
    decreases list.len(),
{
    if list.len() == 0 {
        None
    } else if accepts(list[0], s) {
        Some(list[0])
    } else {
        find_provider(list.drop_first(), s)
    }
}

impl Provider {
    pub fn is_provider(&self, s: &String) -> (r: bool)
        ensures
            r == accepts(*self, s@),
    {
        match self {
            Provider::MySql => eq_lit(s, "mysql"),
            Provider::Postgres => eq_lit(s, "postgresql") || eq_lit(s, "postgres"),
            Provider::Sqlite => eq_lit(s, "sqlite"),
            Provider::MsSql => eq_lit(s, "sqlserver"),
            Provider::MongoDb => eq_lit(s, "mongodb"),
        }
    }

    pub fn canonical_name(&self) -> (r: String)
        ensures
            r@ == canonical_name_spec(*self),
    {
        match self {
            Provider::MySql => "mysql".to_owned(),
            Provider::Postgres => "postgresql".to_owned(),
            Provider::Sqlite => "sqlite".to_owned(),
            Provider::MsSql => "sqlserver".to_owned(),
            Provider::MongoDb => "mongodb".to_owned(),
        }
    }
}

pub fn get_builtin_datasource_providers() -> (r: Vec<Provider>)
    ensures
        r@ == builtin_providers(),
{
    let r = vec![Provider::MySql, Provider::Postgres, Provider::Sqlite, Provider::MsSql, Provider::MongoDb];
    assert(r@ =~= builtin_providers());
    r
}

/// The backend of `list` that `s` names, searching in order.
pub fn find_in(list: &Vec<Provider>, s: &String) -> (r: Option<Provider>)
    ensures
        r == find_provider(list@, s@),
{
    let mut i: usize = 0;
    assert(list@.subrange(0, list@.len() as int) =~= list@);
    while i < list.len()
        invariant
            0 <= i <= list@.len(),
            find_provider(list@, s@) == find_provider(list@.subrange(i as int, list@.len() as int), s@),
        decreases list@.len() - i,
    {
        let ghost rest = list@.subrange(i as int, list@.len() as int);
        assert(rest.drop_first() =~= list@.subrange(i + 1, list@.len() as int));
        if list[i].is_provider(s) {
            return Some(list[i]);
        }
        i = i + 1;
    }
    None
}

} // verus!
