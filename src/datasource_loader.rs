//! Validation of datasource blocks into typed `Datasource` values.
use vstd::prelude::*;
use crate::ast::{eq_lit, expr_span, sources_of, Argument, Expression, SchemaAst, SourceConfig, Span, Top};
use crate::diagnostics::{DatamodelError, Diagnostics, ErrorView, SourceArgument, ValueType};
use crate::providers::{
    builtin_providers, canonical_name_spec, find_in, find_provider, get_builtin_datasource_providers,
    Provider,
};

verus! {

/// Opt-in features that a generator block may enable.
#[derive(Clone, Copy, Debug, PartialEq, Eq, Structural)]
pub enum PreviewFeature {
    PlanetScaleMode,
    FullTextSearch,
    NamedConstraints,
    ReferentialActions,
    MongoDb,
}

/// The environment variables visible to a validation run, as name and value.
/// Where a name occurs twice, the first occurrence counts.
#[derive(Clone, Debug)]
pub struct EnvVars {
    pub vars: Vec<(String, String)>,
}

pub open spec fn env_lookup(vars: Seq<(String, String)>, name: Seq<char>) -> Option<Seq<char>>
    decreases vars.len(),
{
    if vars.len() == 0 {
        None
    } else if vars[0].0@ == name {
        Some(vars[0].1@)
    } else {
        env_lookup(vars.drop_first(), name)
    }
}

impl EnvVars {
    /// The value of the variable `name`, if it is set.
    pub fn get(&self, name: &String) -> (r: Option<String>)
        ensures
            r matches Some(v) ==> env_lookup(self.vars@, name@) == Some(v@),
            r is None ==> env_lookup(self.vars@, name@) is None,
    {
        let mut i: usize = 0;
        assert(self.vars@.subrange(0, self.vars@.len() as int) =~= self.vars@);
        while i < self.vars.len()
            invariant
                0 <= i <= self.vars@.len(),
                env_lookup(self.vars@, name@) == env_lookup(
                    self.vars@.subrange(i as int, self.vars@.len() as int),
                    name@,
                ),
            decreases self.vars@.len() - i,
        {
            let ghost rest = self.vars@.subrange(i as int, self.vars@.len() as int);
            assert(rest.drop_first() =~= self.vars@.subrange(i + 1, self.vars@.len() as int));
            if self.vars[i].0.eq(name) {
                return Some(self.vars[i].1.clone());
            }
            i = i + 1;
        }
        None
    }
}

/// A string given literally, or read from the environment variable
/// `from_env_var`.
#[derive(Clone, Debug)]
pub struct StringFromEnvVar {
    pub from_env_var: Option<String>,
    pub value: String,
}

pub ghost struct EnvStringView {
    pub from_env_var: Option<Seq<char>>,
    pub value: Seq<char>,
}

pub open spec fn opt_view(o: Option<String>) -> Option<Seq<char>> {
    match o {
        Some(s) => Some(s@),
        None => None,
    }
}

impl View for StringFromEnvVar {
    type V = EnvStringView;

    open spec fn view(&self) -> EnvStringView {
        EnvStringView { from_env_var: opt_view(self.from_env_var), value: self.value@ }
    }
}

/// A validated datasource.
#[derive(Clone, Debug)]
pub struct Datasource {
    pub name: String,
    /// The provider string as written.
    pub provider: String,
    /// The canonical name of the selected backend.
    pub active_provider: String,
    pub url: StringFromEnvVar,
    pub url_span: Span,
    pub documentation: Option<String>,
    pub active_connector: Provider,
    pub shadow_database_url: Option<(StringFromEnvVar, Span)>,
    pub planet_scale_mode: bool,
}

pub ghost struct DatasourceView {
    pub name: Seq<char>,
    pub provider: Seq<char>,
    pub active_provider: Seq<char>,
    pub url: EnvStringView,
    pub url_span: Span,
    pub documentation: Option<Seq<char>>,
    pub active_connector: Provider,
    pub shadow_database_url: Option<(EnvStringView, Span)>,
    pub planet_scale_mode: bool,
}

impl View for Datasource {
    type V = DatasourceView;

    open spec fn view(&self) -> DatasourceView {
        DatasourceView {
            name: self.name@,
            provider: self.provider@,
            active_provider: self.active_provider@,
            url: self.url@,
            url_span: self.url_span,
            documentation: opt_view(self.documentation),
            active_connector: self.active_connector,
            shadow_database_url: match self.shadow_database_url {
                Some((u, s)) => Some((u@, s)),
                None => None,
            },
            planet_scale_mode: self.planet_scale_mode,
        }
    }
}

/// The value of the argument `key`; where it is given twice, the last one.
pub open spec fn arg_value(props: Seq<Argument>, key: Seq<char>) -> Option<Expression>
    decreases props.len(),
{
    if props.len() == 0 {
        None
    } else if props.last().name@ == key {
        Some(props.last().value)
    } else {
        arg_value(props.drop_last(), key)
    }
}

pub fn find_arg<'a>(props: &'a Vec<Argument>, key: &str) -> (r: Option<&'a Expression>)
    ensures
        r matches Some(e) ==> arg_value(props@, key@) == Some(*e),
        r is None ==> arg_value(props@, key@) is None,
{
    let mut i: usize = props.len();
    assert(props@.take(i as int) =~= props@);
    while i > 0
        invariant
            0 <= i <= props@.len(),
            arg_value(props@, key@) == arg_value(props@.take(i as int), key@),
        decreases i,
    {
        assert(props@.take(i as int).drop_last() =~= props@.take(i - 1));
        assert(props@.take(i as int).last() == props@[i - 1]);
        if eq_lit(&props[i - 1].name, key) {
            return Some(&props[i - 1].value);
        }
        i = i - 1;
    }
    None
}

/// A string argument, given literally or through `env(..)`.
pub open spec fn str_from_env_spec(e: Expression, env: Seq<(String, String)>) -> Result<
    EnvStringView,
    ErrorView,
> {
    match e {
        Expression::StringValue(s, _) => Ok(EnvStringView { from_env_var: None, value: s@ }),
        Expression::EnvFunction(var, span) => match env_lookup(env, var@) {
            Some(v) => Ok(EnvStringView { from_env_var: Some(var@), value: v }),
            None => Err(ErrorView::EnvironmentVariableNotFound { var_name: var@, span }),
        },
        _ => Err(ErrorView::TypeMismatch { expected: ValueType::String, span: expr_span(e) }),
    }
}

pub fn as_str_from_env(e: &Expression, env: &EnvVars) -> (r: Result<StringFromEnvVar, DatamodelError>)
    ensures
        (match r {
            Ok(v) => Ok(v@),
            Err(x) => Err(x@),
        }) == str_from_env_spec(*e, env.vars@),
{
    match e {
        Expression::StringValue(s, _) => Ok(StringFromEnvVar { from_env_var: None, value: s.clone() }),
        Expression::EnvFunction(var, span) => match env.get(var) {
            Some(v) => Ok(StringFromEnvVar { from_env_var: Some(var.clone()), value: v }),
            None => Err(DatamodelError::EnvironmentVariableNotFound { var_name: var.clone(), span: *span }),
        },
        _ => Err(DatamodelError::TypeMismatch { expected: ValueType::String, span: e.span() }),
    }
}

pub open spec fn bool_spec(e: Expression) -> Result<bool, ErrorView> {
    match e {
        Expression::BooleanValue(b, _) => Ok(b),
        _ => Err(ErrorView::TypeMismatch { expected: ValueType::Boolean, span: expr_span(e) }),
    }
}

pub fn as_bool(e: &Expression) -> (r: Result<bool, DatamodelError>)
    ensures
        (match r {
            Ok(b) => Ok(b),
            Err(x) => Err(x@),
        }) == bool_spec(*e),
{
    match e {
        Expression::BooleanValue(b, _) => Ok(*b),
        _ => Err(DatamodelError::TypeMismatch { expected: ValueType::Boolean, span: e.span() }),
    }
}

/// The shadow database URL and the diagnostics it causes. An unset
/// environment variable, or an empty literal, leaves the URL absent
/// without a diagnostic.
pub open spec fn shadow_spec(arg: Option<Expression>, env: Seq<(String, String)>) -> (
    Option<(EnvStringView, Span)>,
    Seq<ErrorView>,
) {
    match arg {
        None => (None, Seq::empty()),
        Some(e) => match str_from_env_spec(e, env) {
            Ok(u) => if u.from_env_var is None && u.value.len() == 0 {
                (None, Seq::empty())
            } else {
                (Some((u, expr_span(e))), Seq::empty())
            },
            Err(ErrorView::EnvironmentVariableNotFound { .. }) => (None, Seq::empty()),
            Err(x) => (None, seq![x]),
        },
    }
}

pub fn shadow_database_url(
    props: &Vec<Argument>,
    env: &EnvVars,
    diagnostics: &mut Diagnostics,
) -> (r: Option<(StringFromEnvVar, Span)>)
    ensures
        (match r {
            Some((u, s)) => Some((u@, s)),
            None => None,
        }) == shadow_spec(arg_value(props@, "shadowDatabaseUrl"@), env.vars@).0,
        final(diagnostics)@ == old(diagnostics)@ + shadow_spec(
            arg_value(props@, "shadowDatabaseUrl"@),
            env.vars@,
        ).1,
{
    match find_arg(props, "shadowDatabaseUrl") {
        None => {
            assert(diagnostics@ =~= old(diagnostics)@ + Seq::<ErrorView>::empty());
            None
        },
        Some(e) => match as_str_from_env(e, env) {
            Ok(u) => {
                assert(diagnostics@ =~= old(diagnostics)@ + Seq::<ErrorView>::empty());
                if u.from_env_var.is_none() && u.value.as_str().is_empty() {
                    None
                } else {
                    Some((u, e.span()))
                }
            },
            Err(DatamodelError::EnvironmentVariableNotFound { .. }) => {
                assert(diagnostics@ =~= old(diagnostics)@ + Seq::<ErrorView>::empty());
                None
            },
            Err(x) => {
                diagnostics.push_error(x);
                None
            },
        },
    }
}

/// The items of a list argument; a single value counts as a list of one.
pub open spec fn array_elems(e: Expression) -> Seq<Expression> {
    match e {
        Expression::Array(v, _) => v@,
        _ => seq![e],
    }
}

/// The index of the first item at or after `i` that is not a string.
pub open spec fn first_non_string(s: Seq<Expression>, i: int) -> Option<int>
    decreases s.len() - i,
{
    if i < 0 || i >= s.len() {
        None
    } else if !(s[i] is StringValue) {
        Some(i)
    } else {
        first_non_string(s, i + 1)
    }
}

/// A datasource may not list preview features: any non-empty list of
/// strings is an error, and so is a list holding something else.
pub open spec fn preview_errors(arg: Option<Expression>) -> Seq<ErrorView> {
    match arg {
        None => Seq::empty(),
        Some(e) => match first_non_string(array_elems(e), 0) {
            Some(k) => seq![
                ErrorView::TypeMismatch {
                    expected: ValueType::String,
                    span: expr_span(array_elems(e)[k]),
                },
            ],
            None => if array_elems(e).len() == 0 {
                Seq::empty()
            } else {
                seq![ErrorView::PreviewFeaturesInDatasource { span: expr_span(e) }]
            },
        },
    }
}

pub fn preview_features_guardrail(props: &Vec<Argument>, diagnostics: &mut Diagnostics)
    ensures
        final(diagnostics)@ == old(diagnostics)@ + preview_errors(arg_value(props@, "previewFeatures"@)),
{
    match find_arg(props, "previewFeatures") {
        None => {
            assert(diagnostics@ =~= old(diagnostics)@ + Seq::<ErrorView>::empty());
        },
        Some(e) => match e {
            Expression::Array(items, _) => {
                assert(items@ == array_elems(*e));
                let mut i: usize = 0;
                while i < items.len()
                    invariant
                        0 <= i <= items@.len(),
                        items@ == array_elems(*e),
                        arg_value(props@, "previewFeatures"@) == Some(*e),
                        first_non_string(items@, 0) == first_non_string(items@, i as int),
                        diagnostics@ == old(diagnostics)@,
                    decreases items@.len() - i,
                {
                    if let Expression::StringValue(_, _) = &items[i] {
                    } else {
                        assert(first_non_string(items@, i as int) == Some(i as int));
                        diagnostics.push_error(
                            DatamodelError::TypeMismatch {
                                expected: ValueType::String,
                                span: items[i].span(),
                            },
                        );
                        assert(diagnostics@ =~= old(diagnostics)@ + preview_errors(
                            arg_value(props@, "previewFeatures"@),
                        ));
                        return;
                    }
                    i = i + 1;
                }
                if items.len() == 0 {
                    assert(diagnostics@ =~= old(diagnostics)@ + Seq::<ErrorView>::empty());
                } else {
                    diagnostics.push_error(DatamodelError::PreviewFeaturesInDatasource { span: e.span() });
                }
            },
            _ => {
                proof {
                    reveal_with_fuel(first_non_string, 2);
                }
                if let Expression::StringValue(_, _) = e {
                    diagnostics.push_error(DatamodelError::PreviewFeaturesInDatasource { span: e.span() });
                } else {
                    diagnostics.push_error(
                        DatamodelError::TypeMismatch { expected: ValueType::String, span: e.span() },
                    );
                }
            },
        },
    }
}

/// The `planetScaleMode` flag and the diagnostics it causes. A value that
/// is not a boolean counts as false; true without the preview feature is
/// forced to false.
pub open spec fn planet_scale_spec(
    arg: Option<Expression>,
    features: Seq<PreviewFeature>,
    source_name: Seq<char>,
) -> (bool, Seq<ErrorView>) {
    match arg {
        None => (false, Seq::empty()),
        Some(e) => match bool_spec(e) {
            Err(x) => (false, seq![x]),
            Ok(b) => if b && !features.contains(PreviewFeature::PlanetScaleMode) {
                (
                    false,
                    seq![ErrorView::PlanetScaleModeNotEnabled { source_name, span: expr_span(e) }],
                )
            } else {
                (b, Seq::empty())
            },
        },
    }
}

fn has_feature(features: &Vec<PreviewFeature>, f: PreviewFeature) -> (r: bool)
    ensures
        r == features@.contains(f),
{
    let mut i: usize = 0;
    while i < features.len()
        invariant
            0 <= i <= features@.len(),
            forall|k: int| 0 <= k < i ==> features@[k] != f,
        decreases features@.len() - i,
    {
        if features[i] == f {
            assert(features@[i as int] == f);
            return true;
        }
        i = i + 1;
    }
    false
}

pub fn get_planet_scale_mode_arg(
    props: &Vec<Argument>,
    preview_features: &Vec<PreviewFeature>,
    source: &SourceConfig,
    diagnostics: &mut Diagnostics,
) -> (r: bool)
    ensures
        r == planet_scale_spec(arg_value(props@, "planetScaleMode"@), preview_features@, source.name@).0,
        final(diagnostics)@ == old(diagnostics)@ + planet_scale_spec(
            arg_value(props@, "planetScaleMode"@),
            preview_features@,
            source.name@,
        ).1,
{
    match find_arg(props, "planetScaleMode") {
        None => {
            assert(diagnostics@ =~= old(diagnostics)@ + Seq::<ErrorView>::empty());
            false
        },
        Some(value) => {
            let mode_enabled = match as_bool(value) {
                Ok(b) => b,
                Err(x) => {
                    diagnostics.push_error(x);
                    return false;
                },
            };
            if mode_enabled && !has_feature(preview_features, PreviewFeature::PlanetScaleMode) {
                diagnostics.push_error(
                    DatamodelError::PlanetScaleModeNotEnabled {
                        source_name: source.name.clone(),
                        span: value.span(),
                    },
                );
                return false;
            }
            assert(diagnostics@ =~= old(diagnostics)@ + Seq::<ErrorView>::empty());
            mode_enabled
        },
    }
}

/// What validating one datasource block gives: the datasource, if the block
/// is valid, and the diagnostics, in the order they are found.
pub open spec fn lift_spec(
    src: SourceConfig,
    features: Seq<PreviewFeature>,
    env: Seq<(String, String)>,
) -> (Option<DatasourceView>, Seq<ErrorView>) {
    let props = src.properties@;
    match arg_value(props, "provider"@) {
        None => (
            None,
            seq![
                ErrorView::SourceArgumentNotFound {
                    argument: SourceArgument::Provider,
                    source_name: src.name@,
                    span: src.span,
                },
            ],
        ),
        Some(p) => match p {
            Expression::EnvFunction(_, _) => (None, seq![ErrorView::EnvInProvider { span: src.span }]),
            Expression::StringValue(pname, pspan) => if pname@.len() == 0 {
                (None, seq![ErrorView::EmptyProvider { source_name: src.name@, span: pspan }])
            } else {
                match arg_value(props, "url"@) {
                    None => (
                        None,
                        seq![
                            ErrorView::SourceArgumentNotFound {
                                argument: SourceArgument::Url,
                                source_name: src.name@,
                                span: src.span,
                            },
                        ],
                    ),
                    Some(u) => match str_from_env_spec(u, env) {
                        Err(x) => (None, seq![x]),
                        Ok(url) => {
                            let shadow = shadow_spec(arg_value(props, "shadowDatabaseUrl"@), env);
                            let preview = preview_errors(arg_value(props, "previewFeatures"@));
                            let planet = planet_scale_spec(
                                arg_value(props, "planetScaleMode"@),
                                features,
                                src.name@,
                            );
                            match find_provider(builtin_providers(), pname@) {
                                None => (
                                    None,
                                    shadow.1 + preview + planet.1 + seq![
                                        ErrorView::ProviderNotKnown { provider: pname@, span: pspan },
                                    ],
                                ),
                                Some(prov) => {
                                    (
                                        Some(
                                            DatasourceView {
                                                name: src.name@,
                                                provider: pname@,
                                                active_provider: canonical_name_spec(prov),
                                                url,
                                                url_span: expr_span(u),
                                                documentation: opt_view(src.documentation),
                                                active_connector: prov,
                                                shadow_database_url: shadow.0,
                                                planet_scale_mode: planet.0,
                                            },
                                        ),
                                        shadow.1 + preview + planet.1,
                                    )
                                },
                            }
                        },
                    },
                }
            },
            _ => (
                None,
                seq![ErrorView::ProviderNotStringLiteral { source_name: src.name@, span: expr_span(p) }],
            ),
        },
    }
}

/// Validating the blocks in order: the datasources of the valid ones and
/// all diagnostics.
pub open spec fn lift_all(
    srcs: Seq<SourceConfig>,
    features: Seq<PreviewFeature>,
    env: Seq<(String, String)>,
) -> (Seq<DatasourceView>, Seq<ErrorView>)
    decreases srcs.len(),
{
    if srcs.len() == 0 {
        (Seq::empty(), Seq::empty())
    } else {
        let prev = lift_all(srcs.drop_last(), features, env);
        let cur = lift_spec(srcs.last(), features, env);
        (
            match cur.0 {
                Some(d) => prev.0.push(d),
                None => prev.0,
            },
            prev.1 + cur.1,
        )
    }
}

/// One "more than one datasource" diagnostic per block.
pub open spec fn multiple_datasource_errors(srcs: Seq<SourceConfig>) -> Seq<ErrorView> {
    srcs.map_values(
        |s: SourceConfig| ErrorView::MultipleDatasources { source_name: s.name@, span: s.span },
    )
}

/// What loading the datasources of a schema gives: every valid block's
/// datasource, and the diagnostics, followed by one per block where more
/// than one datasource was valid.
pub open spec fn load_spec(
    tops: Seq<Top>,
    features: Seq<PreviewFeature>,
    env: Seq<(String, String)>,
) -> (Seq<DatasourceView>, Seq<ErrorView>) {
    let all = lift_all(sources_of(tops), features, env);
    (
        all.0,
        if all.0.len() > 1 {
            all.1 + multiple_datasource_errors(sources_of(tops))
        } else {
            all.1
        },
    )
}

pub open spec fn datasources_view(v: Seq<Datasource>) -> Seq<DatasourceView> {
    v.map_values(|d: Datasource| d@)
}

/// Loads and validates the datasources defined in a schema.
pub struct DatasourceLoader {
    source_definitions: Vec<Provider>,
}

impl DatasourceLoader {
    #[verifier::type_invariant]
    spec fn registry_is_builtin(self) -> bool {
        self.source_definitions@ == builtin_providers()
    }

    pub fn new() -> (r: DatasourceLoader) {
        DatasourceLoader { source_definitions: get_builtin_datasource_providers() }
    }

    fn get_datasource_provider(&self, provider: &String) -> (r: Option<Provider>)
        ensures
            r == find_provider(builtin_providers(), provider@),
    {
        proof {
            use_type_invariant(self);
        }
        find_in(&self.source_definitions, provider)
    }

    fn lift_datasource(
        &self,
        ast_source: &SourceConfig,
        preview_features: &Vec<PreviewFeature>,
        env: &EnvVars,
        diagnostics: &mut Diagnostics,
    ) -> (r: Option<Datasource>)
        ensures
            (match r {
                Some(d) => Some(d@),
                None => None,
            }) == lift_spec(*ast_source, preview_features@, env.vars@).0,
            final(diagnostics)@ == old(diagnostics)@ + lift_spec(
                *ast_source,
                preview_features@,
                env.vars@,
            ).1,
    {
        let props = &ast_source.properties;
        let provider_arg = match find_arg(props, "provider") {
            Some(p) => p,
            None => {
                diagnostics.push_error(
                    DatamodelError::SourceArgumentNotFound {
                        argument: SourceArgument::Provider,
                        source_name: ast_source.name.clone(),
                        span: ast_source.span,
                    },
                );
                return None;
            },
        };
        let provider = match provider_arg {
            Expression::EnvFunction(_, _) => {
                diagnostics.push_error(DatamodelError::EnvInProvider { span: ast_source.span });
                return None;
            },
            Expression::StringValue(p, pspan) => {
                if p.as_str().is_empty() {
                    diagnostics.push_error(
                        DatamodelError::EmptyProvider {
                            source_name: ast_source.name.clone(),
                            span: *pspan,
                        },
                    );
                    return None;
                }
                p
            },
            _ => {
                diagnostics.push_error(
                    DatamodelError::ProviderNotStringLiteral {
                        source_name: ast_source.name.clone(),
                        span: provider_arg.span(),
                    },
                );
                return None;
            },
        };
        let url_arg = match find_arg(props, "url") {
            Some(u) => u,
            None => {
                diagnostics.push_error(
                    DatamodelError::SourceArgumentNotFound {
                        argument: SourceArgument::Url,
                        source_name: ast_source.name.clone(),
                        span: ast_source.span,
                    },
                );
                return None;
            },
        };
        let url = match as_str_from_env(url_arg, env) {
            Ok(u) => u,
            Err(x) => {
                diagnostics.push_error(x);
                return None;
            },
        };
        let ghost d0 = diagnostics@;
        let shadow = shadow_database_url(props, env, diagnostics);
        let ghost d1 = diagnostics@;
        preview_features_guardrail(props, diagnostics);
        let ghost d2 = diagnostics@;
        let documentation = match &ast_source.documentation {
            Some(text) => Some(text.clone()),
            None => None,
        };
        let planet_scale_mode = get_planet_scale_mode_arg(props, preview_features, ast_source, diagnostics);
        let datasource_provider = match self.get_datasource_provider(provider) {
            Some(p) => p,
            None => {
                diagnostics.push_error(
                    DatamodelError::ProviderNotKnown { provider: provider.clone(), span: provider_arg.span() },
                );
                assert(diagnostics@ =~= old(diagnostics)@ + lift_spec(
                    *ast_source,
                    preview_features@,
                    env.vars@,
                ).1);
                return None;
            },
        };
        assert(diagnostics@ =~= old(diagnostics)@ + lift_spec(
            *ast_source,
            preview_features@,
            env.vars@,
        ).1);
        Some(
            Datasource {
                name: ast_source.name.clone(),
                provider: provider.clone(),
                active_provider: datasource_provider.canonical_name(),
                url,
                url_span: url_arg.span(),
                documentation,
                active_connector: datasource_provider,
                shadow_database_url: shadow,
                planet_scale_mode,
            },
        )
    }

    /// Validates every datasource block of `ast_schema`, in source order,
    /// reading `env(..)` values from `env`. Returns the datasources of the
    /// valid blocks; each failure is added to `diagnostics`. Where more than
    /// one block is valid, each block also gets a diagnostic, and all the
    /// datasources are still returned.
    pub fn load_datasources_from_ast(
        &self,
        ast_schema: &SchemaAst,
        preview_features: &Vec<PreviewFeature>,
        env: &EnvVars,
        diagnostics: &mut Diagnostics,
    ) -> (r: Vec<Datasource>)
        ensures
            datasources_view(r@) == load_spec(ast_schema.tops@, preview_features@, env.vars@).0,
            final(diagnostics)@ == old(diagnostics)@ + load_spec(
                ast_schema.tops@,
                preview_features@,
                env.vars@,
            ).1,
    {
        let srcs = ast_schema.sources();
        let ghost all = sources_of(ast_schema.tops@);
        let mut sources: Vec<Datasource> = Vec::new();
        let mut i: usize = 0;
        assert(srcs@.map_values(|s: &SourceConfig| *s) =~= all);
        while i < srcs.len()
            invariant
                0 <= i <= srcs@.len(),
                srcs@.len() == all.len(),
                forall|k: int| 0 <= k < srcs@.len() ==> *srcs@[k] == all[k],
                datasources_view(sources@) == lift_all(all.take(i as int), preview_features@, env.vars@).0,
                diagnostics@ == old(diagnostics)@ + lift_all(
                    all.take(i as int),
                    preview_features@,
                    env.vars@,
                ).1,
            decreases srcs@.len() - i,
        {
            assert(all.take(i + 1).drop_last() =~= all.take(i as int));
            assert(all.take(i + 1).last() == all[i as int]);
            let ghost before = sources@;
            if let Some(source) = self.lift_datasource(srcs[i], preview_features, env, diagnostics) {
                sources.push(source);
                assert(datasources_view(sources@) =~= datasources_view(before).push(source@));
            }
            assert(diagnostics@ =~= old(diagnostics)@ + lift_all(
                all.take(i + 1),
                preview_features@,
                env.vars@,
            ).1);
            i = i + 1;
        }
        assert(all.take(srcs@.len() as int) =~= all);
        let ghost after_lift = diagnostics@;
        if sources.len() > 1 {
            let mut k: usize = 0;
            while k < srcs.len()
                invariant
                    0 <= k <= srcs@.len(),
                    srcs@.len() == all.len(),
                    forall|m: int| 0 <= m < srcs@.len() ==> *srcs@[m] == all[m],
                    diagnostics@ == after_lift + multiple_datasource_errors(all).take(k as int),
                decreases srcs@.len() - k,
            {
                let src = srcs[k];
                diagnostics.push_error(
                    DatamodelError::MultipleDatasources { source_name: src.name.clone(), span: src.span },
                );
                assert(multiple_datasource_errors(all).take(k + 1) =~= multiple_datasource_errors(
                    all,
                ).take(k as int).push(multiple_datasource_errors(all)[k as int]));
                assert(diagnostics@ =~= after_lift + multiple_datasource_errors(all).take(k + 1));
                k = k + 1;
            }
            assert(multiple_datasource_errors(all).take(srcs@.len() as int) =~= multiple_datasource_errors(
                all,
            ));
        }
        sources
    }
}

/// A block without `provider` gives no datasource and exactly one
/// diagnostic: the argument is missing.
pub proof fn law_missing_provider(
    src: SourceConfig,
    features: Seq<PreviewFeature>,
    env: Seq<(String, String)>,
)
    requires
        arg_value(src.properties@, "provider"@) is None,
    ensures
        lift_spec(src, features, env) == (
            Option::<DatasourceView>::None,
            seq![
                ErrorView::SourceArgumentNotFound {
                    argument: SourceArgument::Provider,
                    source_name: src.name@,
                    span: src.span,
                },
            ],
        ),
{
}

/// A shadow database URL read from an unset environment variable is
/// absent from the datasource, and causes no diagnostic.
pub proof fn law_unset_shadow_env(
    src: SourceConfig,
    features: Seq<PreviewFeature>,
    env: Seq<(String, String)>,
    var: String,
    span: Span,
)
    requires
        arg_value(src.properties@, "shadowDatabaseUrl"@) == Some(Expression::EnvFunction(var, span)),
        env_lookup(env, var@) is None,
    ensures
        shadow_spec(arg_value(src.properties@, "shadowDatabaseUrl"@), env) == (
            Option::<(EnvStringView, Span)>::None,
            Seq::<ErrorView>::empty(),
        ),
        lift_spec(src, features, env).0 matches Some(d) ==> d.shadow_database_url is None,
{
}

proof fn lemma_all_strings(s: Seq<Expression>, i: int)
    requires
        0 <= i,
        forall|k: int| 0 <= k < s.len() ==> s[k] is StringValue,
    ensures
        first_non_string(s, i) is None,
    decreases s.len() - i,
{
    if i < s.len() {
        lemma_all_strings(s, i + 1);
    }
}

/// A `previewFeatures` argument on a datasource that lists one or more
/// strings always gives the diagnostic that sends it to the generator
/// block, whatever the strings are.
pub proof fn law_preview_features_rejected(e: Expression)
    requires
        array_elems(e).len() > 0,
        forall|k: int| 0 <= k < array_elems(e).len() ==> array_elems(e)[k] is StringValue,
    ensures
        preview_errors(Some(e)) == seq![ErrorView::PreviewFeaturesInDatasource { span: expr_span(e) }],
{
    lemma_all_strings(array_elems(e), 0);
}

/// `planetScaleMode = true` without the preview feature gives the flag
/// false and one diagnostic.
pub proof fn law_planet_scale_needs_feature(
    src: SourceConfig,
    features: Seq<PreviewFeature>,
    env: Seq<(String, String)>,
    span: Span,
)
    requires
        arg_value(src.properties@, "planetScaleMode"@) == Some(Expression::BooleanValue(true, span)),
        !features.contains(PreviewFeature::PlanetScaleMode),
    ensures
        planet_scale_spec(arg_value(src.properties@, "planetScaleMode"@), features, src.name@) == (
            false,
            seq![ErrorView::PlanetScaleModeNotEnabled { source_name: src.name@, span }],
        ),
        lift_spec(src, features, env).0 matches Some(d) ==> !d.planet_scale_mode,
{
}

/// A provider that no backend accepts gives no datasource, and the last
/// diagnostic of the block names it.
pub proof fn law_unknown_provider(
    src: SourceConfig,
    features: Seq<PreviewFeature>,
    env: Seq<(String, String)>,
    provider: String,
    span: Span,
)
    requires
        arg_value(src.properties@, "provider"@) == Some(Expression::StringValue(provider, span)),
        provider@.len() > 0,
        find_provider(builtin_providers(), provider@) is None,
        arg_value(src.properties@, "url"@) matches Some(u) && str_from_env_spec(u, env) is Ok,
    ensures
        lift_spec(src, features, env).0 is None,
        lift_spec(src, features, env).1.len() > 0,
        lift_spec(src, features, env).1.last() == (ErrorView::ProviderNotKnown { provider: provider@, span }),
{
}

/// An unknown provider does not hide the other failures of its block:
/// `planetScaleMode = true` without the preview feature is still reported,
/// before the unknown provider.
pub proof fn law_unknown_provider_keeps_planet_scale_error(
    src: SourceConfig,
    features: Seq<PreviewFeature>,
    env: Seq<(String, String)>,
    provider: String,
    pspan: Span,
    url: String,
    uspan: Span,
    span: Span,
)
    requires
        arg_value(src.properties@, "provider"@) == Some(Expression::StringValue(provider, pspan)),
        provider@.len() > 0,
        find_provider(builtin_providers(), provider@) is None,
        arg_value(src.properties@, "url"@) == Some(Expression::StringValue(url, uspan)),
        arg_value(src.properties@, "shadowDatabaseUrl"@) is None,
        arg_value(src.properties@, "previewFeatures"@) is None,
        arg_value(src.properties@, "planetScaleMode"@) == Some(Expression::BooleanValue(true, span)),
        !features.contains(PreviewFeature::PlanetScaleMode),
    ensures
        lift_spec(src, features, env) == (
            Option::<DatasourceView>::None,
            seq![
                ErrorView::PlanetScaleModeNotEnabled { source_name: src.name@, span },
                ErrorView::ProviderNotKnown { provider: provider@, span: pspan },
            ],
        ),
{
    assert(lift_spec(src, features, env).1 =~= seq![
        ErrorView::PlanetScaleModeNotEnabled { source_name: src.name@, span },
        ErrorView::ProviderNotKnown { provider: provider@, span: pspan },
    ]);
}

} // verus!
