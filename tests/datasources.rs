use datamodel::ast::{Argument, Expression, SchemaAst, SourceConfig, Span, Top};
use datamodel::datasource_loader::{get_planet_scale_mode_arg, preview_features_guardrail, EnvVars, PreviewFeature};
use datamodel::diagnostics::{DatamodelError, Diagnostics, SourceArgument, ValueType};
use datamodel::providers::{get_builtin_datasource_providers, Provider};
use datamodel::DatasourceLoader;

fn sp(start: usize, end: usize) -> Span {
    Span { start, end }
}

fn s(v: &str, at: usize) -> Expression {
    Expression::StringValue(v.to_string(), sp(at, at + v.len() + 2))
}

fn env_fn(var: &str, at: usize) -> Expression {
    Expression::EnvFunction(var.to_string(), sp(at, at + 10))
}

fn arg(name: &str, value: Expression) -> Argument {
    Argument { name: name.to_string(), value, span: sp(0, 0) }
}

fn block(name: &str, props: Vec<Argument>, at: usize) -> Top {
    Top::Source(SourceConfig {
        name: name.to_string(),
        properties: props,
        documentation: None,
        span: sp(at, at + 100),
    })
}

fn no_env() -> EnvVars {
    EnvVars { vars: vec![] }
}

fn load(tops: Vec<Top>, features: Vec<PreviewFeature>, env: &EnvVars) -> (Vec<datamodel::datasource_loader::Datasource>, Diagnostics) {
    let ast = SchemaAst { tops };
    let mut d = Diagnostics::new();
    let r = DatasourceLoader::new().load_datasources_from_ast(&ast, &features, env, &mut d);
    (r, d)
}

fn pg(at: usize) -> Vec<Argument> {
    vec![arg("provider", s("postgresql", at)), arg("url", s("postgresql://localhost/db", at + 20))]
}

#[test]
fn valid_datasource_is_loaded() {
    let (r, d) = load(vec![block("db", pg(10), 0)], vec![], &no_env());
    assert!(d.errors.is_empty());
    assert_eq!(r.len(), 1);
    let ds = &r[0];
    assert_eq!(ds.name, "db");
    assert_eq!(ds.provider, "postgresql");
    assert_eq!(ds.active_provider, "postgresql");
    assert_eq!(ds.active_connector, Provider::Postgres);
    assert_eq!(ds.url.value, "postgresql://localhost/db");
    assert!(ds.url.from_env_var.is_none());
    assert_eq!(ds.url_span, sp(30, 57));
    assert!(ds.shadow_database_url.is_none());
    assert!(!ds.planet_scale_mode);
    assert!(ds.documentation.is_none());
}

#[test]
fn provider_alias_selects_the_canonical_backend() {
    let props = vec![arg("provider", s("postgres", 0)), arg("url", s("x", 20))];
    let (r, d) = load(vec![block("db", props, 0)], vec![], &no_env());
    assert!(d.errors.is_empty());
    assert_eq!(r[0].provider, "postgres");
    assert_eq!(r[0].active_provider, "postgresql");
    for (p, canonical, c) in [
        ("mysql", "mysql", Provider::MySql),
        ("sqlite", "sqlite", Provider::Sqlite),
        ("sqlserver", "sqlserver", Provider::MsSql),
        ("mongodb", "mongodb", Provider::MongoDb),
    ] {
        let props = vec![arg("provider", s(p, 0)), arg("url", s("x", 20))];
        let (r, _) = load(vec![block("db", props, 0)], vec![], &no_env());
        assert_eq!(r[0].active_provider, canonical);
        assert_eq!(r[0].active_connector, c);
    }
    assert_eq!(get_builtin_datasource_providers().len(), 5);
}

#[test]
fn documentation_is_carried_over() {
    let ast = SchemaAst {
        tops: vec![Top::Source(SourceConfig {
            name: "db".to_string(),
            properties: pg(0),
            documentation: Some("main database".to_string()),
            span: sp(0, 50),
        })],
    };
    let mut d = Diagnostics::new();
    let r = DatasourceLoader::new().load_datasources_from_ast(&ast, &vec![], &no_env(), &mut d);
    assert_eq!(r[0].documentation.as_deref(), Some("main database"));
}

#[test]
fn missing_provider_gives_one_diagnostic() {
    let (r, d) = load(vec![block("db", vec![arg("url", s("x", 0))], 5)], vec![], &no_env());
    assert!(r.is_empty());
    assert_eq!(d.errors.len(), 1);
    assert!(matches!(&d.errors[0], DatamodelError::SourceArgumentNotFound { argument: SourceArgument::Provider, source_name, span } if source_name == "db" && *span == sp(5, 105)));
}

#[test]
fn provider_from_env_is_rejected() {
    let props = vec![arg("provider", env_fn("P", 0)), arg("url", s("x", 20))];
    let env = EnvVars { vars: vec![("P".to_string(), "mysql".to_string())] };
    let (r, d) = load(vec![block("db", props, 0)], vec![], &env);
    assert!(r.is_empty());
    assert_eq!(d.errors.len(), 1);
    assert!(matches!(d.errors[0], DatamodelError::EnvInProvider { span } if span == sp(0, 100)));
}

#[test]
fn empty_provider_is_rejected() {
    let props = vec![arg("provider", s("", 7)), arg("url", s("x", 20))];
    let (r, d) = load(vec![block("db", props, 0)], vec![], &no_env());
    assert!(r.is_empty());
    assert!(matches!(&d.errors[0], DatamodelError::EmptyProvider { source_name, span } if source_name == "db" && *span == sp(7, 9)));
}

#[test]
fn provider_that_is_not_a_string_is_rejected() {
    let props = vec![arg("provider", Expression::ConstantValue("mysql".to_string(), sp(3, 8))), arg("url", s("x", 20))];
    let (r, d) = load(vec![block("db", props, 0)], vec![], &no_env());
    assert!(r.is_empty());
    assert_eq!(d.errors.len(), 1);
    assert!(matches!(d.errors[0], DatamodelError::ProviderNotStringLiteral { span, .. } if span == sp(3, 8)));
}

#[test]
fn missing_url_is_an_error() {
    let (r, d) = load(vec![block("db", vec![arg("provider", s("mysql", 0))], 0)], vec![], &no_env());
    assert!(r.is_empty());
    assert_eq!(d.errors.len(), 1);
    assert!(matches!(d.errors[0], DatamodelError::SourceArgumentNotFound { argument: SourceArgument::Url, .. }));
}

#[test]
fn url_from_unset_env_is_an_error() {
    let props = vec![arg("provider", s("mysql", 0)), arg("url", env_fn("DATABASE_URL", 20))];
    let (r, d) = load(vec![block("db", props, 0)], vec![], &no_env());
    assert!(r.is_empty());
    assert_eq!(d.errors.len(), 1);
    assert!(matches!(&d.errors[0], DatamodelError::EnvironmentVariableNotFound { var_name, span } if var_name == "DATABASE_URL" && *span == sp(20, 30)));
}

#[test]
fn url_from_set_env_is_read() {
    let props = vec![arg("provider", s("mysql", 0)), arg("url", env_fn("DATABASE_URL", 20))];
    let env = EnvVars {
        vars: vec![
            ("DATABASE_URL".to_string(), "mysql://first".to_string()),
            ("DATABASE_URL".to_string(), "mysql://second".to_string()),
        ],
    };
    let (r, d) = load(vec![block("db", props, 0)], vec![], &env);
    assert!(d.errors.is_empty());
    assert_eq!(r[0].url.value, "mysql://first");
    assert_eq!(r[0].url.from_env_var.as_deref(), Some("DATABASE_URL"));
}

#[test]
fn url_of_the_wrong_type_is_an_error() {
    let props = vec![arg("provider", s("mysql", 0)), arg("url", Expression::NumericValue("5".to_string(), sp(20, 21)))];
    let (r, d) = load(vec![block("db", props, 0)], vec![], &no_env());
    assert!(r.is_empty());
    assert!(matches!(d.errors[0], DatamodelError::TypeMismatch { expected: ValueType::String, span } if span == sp(20, 21)));
}

#[test]
fn two_valid_blocks_are_both_returned_and_both_diagnosed() {
    let (r, d) = load(vec![block("one", pg(0), 0), block("two", pg(200), 200)], vec![], &no_env());
    assert_eq!(r.len(), 2);
    assert_eq!(r[0].name, "one");
    assert_eq!(r[1].name, "two");
    assert_eq!(d.errors.len(), 2);
    assert!(matches!(&d.errors[0], DatamodelError::MultipleDatasources { source_name, span } if source_name == "one" && *span == sp(0, 100)));
    assert!(matches!(&d.errors[1], DatamodelError::MultipleDatasources { source_name, span } if source_name == "two" && *span == sp(200, 300)));
}

#[test]
fn one_valid_block_among_two_is_not_a_multiple() {
    let (r, d) = load(vec![block("one", pg(0), 0), block("two", vec![], 200)], vec![], &no_env());
    assert_eq!(r.len(), 1);
    assert_eq!(d.errors.len(), 1);
    assert!(matches!(d.errors[0], DatamodelError::SourceArgumentNotFound { argument: SourceArgument::Provider, .. }));
}

#[test]
fn shadow_url_from_unset_env_is_absent_without_diagnostic() {
    let mut props = pg(0);
    props.push(arg("shadowDatabaseUrl", env_fn("SHADOW_URL", 60)));
    let (r, d) = load(vec![block("db", props, 0)], vec![], &no_env());
    assert!(d.errors.is_empty());
    assert_eq!(r.len(), 1);
    assert!(r[0].shadow_database_url.is_none());
}

#[test]
fn shadow_url_is_read() {
    let mut props = pg(0);
    props.push(arg("shadowDatabaseUrl", env_fn("SHADOW_URL", 60)));
    let env = EnvVars { vars: vec![("SHADOW_URL".to_string(), "postgresql://shadow".to_string())] };
    let (r, d) = load(vec![block("db", props, 0)], vec![], &env);
    assert!(d.errors.is_empty());
    let (u, span) = r[0].shadow_database_url.clone().unwrap();
    assert_eq!(u.value, "postgresql://shadow");
    assert_eq!(span, sp(60, 70));
}

#[test]
fn empty_literal_shadow_url_is_absent() {
    let mut props = pg(0);
    props.push(arg("shadowDatabaseUrl", s("", 60)));
    let (r, d) = load(vec![block("db", props, 0)], vec![], &no_env());
    assert!(d.errors.is_empty());
    assert!(r[0].shadow_database_url.is_none());
}

#[test]
fn shadow_url_of_the_wrong_type_is_reported_but_kept_going() {
    let mut props = pg(0);
    props.push(arg("shadowDatabaseUrl", Expression::BooleanValue(true, sp(60, 64))));
    let (r, d) = load(vec![block("db", props, 0)], vec![], &no_env());
    assert_eq!(r.len(), 1);
    assert!(r[0].shadow_database_url.is_none());
    assert_eq!(d.errors.len(), 1);
    assert!(matches!(d.errors[0], DatamodelError::TypeMismatch { expected: ValueType::String, span } if span == sp(60, 64)));
}

#[test]
fn preview_features_on_a_datasource_are_rejected() {
    for list in [vec![s("planetScaleMode", 70)], vec![s("anything", 70), s("else", 80)]] {
        let mut props = pg(0);
        props.push(arg("previewFeatures", Expression::Array(list, sp(65, 95))));
        let (r, d) = load(vec![block("db", props, 0)], vec![PreviewFeature::PlanetScaleMode], &no_env());
        assert_eq!(r.len(), 1);
        assert_eq!(d.errors.len(), 1);
        assert!(matches!(d.errors[0], DatamodelError::PreviewFeaturesInDatasource { span } if span == sp(65, 95)));
    }
}

#[test]
fn empty_preview_features_are_accepted() {
    let mut props = pg(0);
    props.push(arg("previewFeatures", Expression::Array(vec![], sp(65, 67))));
    let (_, d) = load(vec![block("db", props, 0)], vec![], &no_env());
    assert!(d.errors.is_empty());
}

#[test]
fn preview_features_holding_a_non_string_are_a_type_error() {
    let mut props = pg(0);
    props.push(arg(
        "previewFeatures",
        Expression::Array(vec![s("a", 70), Expression::NumericValue("1".to_string(), sp(80, 81))], sp(65, 90)),
    ));
    let (_, d) = load(vec![block("db", props, 0)], vec![], &no_env());
    assert_eq!(d.errors.len(), 1);
    assert!(matches!(d.errors[0], DatamodelError::TypeMismatch { expected: ValueType::String, span } if span == sp(80, 81)));
}

#[test]
fn planet_scale_mode_needs_the_preview_feature() {
    let mut props = pg(0);
    props.push(arg("planetScaleMode", Expression::BooleanValue(true, sp(60, 64))));
    let (r, d) = load(vec![block("db", props, 0)], vec![PreviewFeature::FullTextSearch], &no_env());
    assert_eq!(r.len(), 1);
    assert!(!r[0].planet_scale_mode);
    assert_eq!(d.errors.len(), 1);
    assert!(matches!(&d.errors[0], DatamodelError::PlanetScaleModeNotEnabled { source_name, span } if source_name == "db" && *span == sp(60, 64)));
}

#[test]
fn planet_scale_mode_with_the_preview_feature() {
    let mut props = pg(0);
    props.push(arg("planetScaleMode", Expression::BooleanValue(true, sp(60, 64))));
    let (r, d) = load(vec![block("db", props, 0)], vec![PreviewFeature::PlanetScaleMode], &no_env());
    assert!(d.errors.is_empty());
    assert!(r[0].planet_scale_mode);
}

#[test]
fn planet_scale_mode_that_is_not_a_boolean_is_false() {
    let mut props = pg(0);
    props.push(arg("planetScaleMode", s("yes", 60)));
    let (r, d) = load(vec![block("db", props, 0)], vec![PreviewFeature::PlanetScaleMode], &no_env());
    assert!(!r[0].planet_scale_mode);
    assert!(matches!(d.errors[0], DatamodelError::TypeMismatch { expected: ValueType::Boolean, span } if span == sp(60, 65)));
}

#[test]
fn unknown_provider_is_named() {
    let props = vec![arg("provider", s("oracle", 4)), arg("url", s("x", 20))];
    let (r, d) = load(vec![block("db", props, 0)], vec![], &no_env());
    assert!(r.is_empty());
    assert_eq!(d.errors.len(), 1);
    assert!(matches!(&d.errors[0], DatamodelError::ProviderNotKnown { provider, span } if provider == "oracle" && *span == sp(4, 12)));
}

#[test]
fn last_of_repeated_arguments_counts() {
    let props = vec![arg("provider", s("oracle", 0)), arg("url", s("x", 20)), arg("provider", s("sqlite", 40))];
    let (r, d) = load(vec![block("db", props, 0)], vec![], &no_env());
    assert!(d.errors.is_empty());
    assert_eq!(r[0].active_connector, Provider::Sqlite);
}

#[test]
fn failures_of_several_blocks_are_all_reported() {
    let bad_provider = vec![arg("provider", s("oracle", 0)), arg("url", s("x", 20))];
    let (r, d) = load(vec![block("a", vec![], 0), block("b", bad_provider, 100), block("c", pg(200), 200)], vec![], &no_env());
    assert_eq!(r.len(), 1);
    assert_eq!(r[0].name, "c");
    assert_eq!(d.errors.len(), 2);
}

#[test]
fn unknown_provider_does_not_hide_the_planet_scale_error() {
    let props = vec![
        arg("provider", s("foo", 4)),
        arg("url", s("foo://a/b", 20)),
        arg("planetScaleMode", Expression::BooleanValue(true, sp(40, 44))),
    ];
    let (r, d) = load(vec![block("db", props, 0)], vec![], &no_env());
    assert!(r.is_empty());
    assert_eq!(d.errors.len(), 2);
    assert!(matches!(&d.errors[0], DatamodelError::PlanetScaleModeNotEnabled { source_name, span } if source_name == "db" && *span == sp(40, 44)));
    assert!(matches!(&d.errors[1], DatamodelError::ProviderNotKnown { provider, span } if provider == "foo" && *span == sp(4, 9)));
}

#[test]
fn planet_scale_helper_forces_false_without_the_feature() {
    let props = vec![arg("planetScaleMode", Expression::BooleanValue(true, sp(40, 44)))];
    let src = SourceConfig { name: "db".to_string(), properties: vec![], documentation: None, span: sp(0, 50) };
    let mut d = Diagnostics::new();
    assert!(!get_planet_scale_mode_arg(&props, &vec![], &src, &mut d));
    assert_eq!(d.errors.len(), 1);
    assert!(matches!(d.errors[0], DatamodelError::PlanetScaleModeNotEnabled { span, .. } if span == sp(40, 44)));
    let mut d2 = Diagnostics::new();
    assert!(get_planet_scale_mode_arg(&props, &vec![PreviewFeature::PlanetScaleMode], &src, &mut d2));
    assert!(d2.errors.is_empty());
}

#[test]
fn preview_guardrail_rejects_any_feature_names() {
    for names in [vec!["a"], vec!["planetScaleMode", "fullTextSearch"]] {
        let items: Vec<Expression> = names.iter().map(|n| s(n, 10)).collect();
        let props = vec![arg("previewFeatures", Expression::Array(items, sp(5, 30)))];
        let mut d = Diagnostics::new();
        preview_features_guardrail(&props, &mut d);
        assert_eq!(d.errors.len(), 1);
        assert!(matches!(d.errors[0], DatamodelError::PreviewFeaturesInDatasource { span } if span == sp(5, 30)));
    }
    let props = vec![arg("previewFeatures", s("single", 5))];
    let mut d = Diagnostics::new();
    preview_features_guardrail(&props, &mut d);
    assert_eq!(d.errors.len(), 1);
}
