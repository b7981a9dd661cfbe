//! The append-only collection of errors found during a pass.
use vstd::prelude::*;
use vstd::string::StringExecFns;
use crate::ast::Span;

verus! {

/// The argument of a datasource block that was required and absent.
#[derive(Clone, Copy, Debug, PartialEq, Eq, Structural)]
pub enum SourceArgument {
    Provider,
    Url,
}

/// The kind of value an argument was expected to hold.
#[derive(Clone, Copy, Debug, PartialEq, Eq, Structural)]
pub enum ValueType {
    String,
    Boolean,
}

/// One error, with the span it is reported at.
#[derive(Clone, Debug)]
pub enum DatamodelError {
    /// An alias chain came back to a name already on it; `path` lists the
    /// chain from the root alias to the name that closed the cycle.
    RecursiveType { path: Vec<String>, span: Span },
    /// Only scalar types can be used for defining custom types.
    OnlyScalarTypes { span: Span },
    TypeNotFound { name: String, span: Span },
    SourceArgumentNotFound { argument: SourceArgument, source_name: String, span: Span },
    /// A datasource must not use the env() function in the provider argument.
    EnvInProvider { span: Span },
    EmptyProvider { source_name: String, span: Span },
    ProviderNotStringLiteral { source_name: String, span: Span },
    /// `env(var_name)` named a variable that is not set.
    EnvironmentVariableNotFound { var_name: String, span: Span },
    TypeMismatch { expected: ValueType, span: Span },
    /// Preview features belong in the generator block.
    PreviewFeaturesInDatasource { span: Span },
    /// `planetScaleMode` needs the preview feature of that name.
    PlanetScaleModeNotEnabled { source_name: String, span: Span },
    ProviderNotKnown { provider: String, span: Span },
    /// More than one datasource was defined; reported once per block.
    MultipleDatasources { source_name: String, span: Span },
}

/// A `DatamodelError` with its text as sequences of characters.
pub ghost enum ErrorView {
    RecursiveType { path: Seq<Seq<char>>, span: Span },
    OnlyScalarTypes { span: Span },
    TypeNotFound { name: Seq<char>, span: Span },
    SourceArgumentNotFound { argument: SourceArgument, source_name: Seq<char>, span: Span },
    EnvInProvider { span: Span },
    EmptyProvider { source_name: Seq<char>, span: Span },
    ProviderNotStringLiteral { source_name: Seq<char>, span: Span },
    EnvironmentVariableNotFound { var_name: Seq<char>, span: Span },
    TypeMismatch { expected: ValueType, span: Span },
    PreviewFeaturesInDatasource { span: Span },
    PlanetScaleModeNotEnabled { source_name: Seq<char>, span: Span },
    ProviderNotKnown { provider: Seq<char>, span: Span },
    MultipleDatasources { source_name: Seq<char>, span: Span },
}

pub open spec fn strings_view(v: Seq<String>) -> Seq<Seq<char>> {
    v.map_values(|s: String| s@)
}

impl View for DatamodelError {
    type V = ErrorView;

    open spec fn view(&self) -> ErrorView {
        match *self {
            DatamodelError::RecursiveType { path, span } => ErrorView::RecursiveType {
                path: strings_view(path@),
                span,
            },
            DatamodelError::OnlyScalarTypes { span } => ErrorView::OnlyScalarTypes { span },
            DatamodelError::TypeNotFound { name, span } => ErrorView::TypeNotFound { name: name@, span },
            DatamodelError::SourceArgumentNotFound { argument, source_name, span } =>
                ErrorView::SourceArgumentNotFound { argument, source_name: source_name@, span },
            DatamodelError::EnvInProvider { span } => ErrorView::EnvInProvider { span },
            DatamodelError::EmptyProvider { source_name, span } => ErrorView::EmptyProvider {
                source_name: source_name@,
                span,
            },
            DatamodelError::ProviderNotStringLiteral { source_name, span } =>
                ErrorView::ProviderNotStringLiteral { source_name: source_name@, span },
            DatamodelError::EnvironmentVariableNotFound { var_name, span } =>
                ErrorView::EnvironmentVariableNotFound { var_name: var_name@, span },
            DatamodelError::TypeMismatch { expected, span } => ErrorView::TypeMismatch { expected, span },
            DatamodelError::PreviewFeaturesInDatasource { span } =>
                ErrorView::PreviewFeaturesInDatasource { span },
            DatamodelError::PlanetScaleModeNotEnabled { source_name, span } =>
                ErrorView::PlanetScaleModeNotEnabled { source_name: source_name@, span },
            DatamodelError::ProviderNotKnown { provider, span } => ErrorView::ProviderNotKnown {
                provider: provider@,
                span,
            },
            DatamodelError::MultipleDatasources { source_name, span } =>
                ErrorView::MultipleDatasources { source_name: source_name@, span },
        }
    }
}

/// The errors of one pass, in the order they were found.
#[derive(Clone, Debug)]
pub struct Diagnostics {
    pub errors: Vec<DatamodelError>,
}

impl View for Diagnostics {
    type V = Seq<ErrorView>;

    open spec fn view(&self) -> Seq<ErrorView> {
        self.errors@.map_values(|e: DatamodelError| e@)
    }
}

impl Diagnostics {
    pub fn new() -> (r: Diagnostics)
        ensures
            r@ == Seq::<ErrorView>::empty(),
    {
        let r = Diagnostics { errors: Vec::new() };
        assert(r@ =~= Seq::<ErrorView>::empty());
        r
    }

    pub fn push_error(&mut self, e: DatamodelError)
        ensures
            final(self)@ == old(self)@.push(e@),
    {
        self.errors.push(e);
        assert(final(self)@ =~= old(self)@.push(e@));
    }

    pub fn has_errors(&self) -> (r: bool)
        ensures
            r == (self@.len() > 0),
    {
        self.errors.len() > 0
    }
}

/// The names of a path joined by ` -> `.
pub open spec fn join_path(path: Seq<Seq<char>>) -> Seq<char>
    decreases path.len(),
{
    if path.len() == 0 {
        Seq::empty()
    } else if path.len() == 1 {
        path[0]
    } else {
        join_path(path.drop_last()) + " -> "@ + path.last()
    }
}

pub open spec fn source_error_text(source_name: Seq<char>, text: Seq<char>) -> Seq<char> {
    "Error validating datasource `"@ + source_name + "`: "@ + text
}

/// The text that a diagnostic is reported with.
pub open spec fn message_spec(e: ErrorView) -> Seq<char> {
    match e {
        ErrorView::RecursiveType { path, .. } => "Recursive type definitions are not allowed. Recursive path was: "@
            + join_path(path) + "."@,
        ErrorView::OnlyScalarTypes { .. } => "Only scalar types can be used for defining custom types."@,
        ErrorView::TypeNotFound { name, .. } => "Type \""@ + name
            + "\" is neither a built-in type, nor refers to another model, custom type, or enum."@,
        ErrorView::SourceArgumentNotFound { argument, source_name, .. } => "Argument \""@ + (
        match argument {
            SourceArgument::Provider => "provider"@,
            SourceArgument::Url => "url"@,
        }) + "\" is missing in data source block \""@ + source_name + "\"."@,
        ErrorView::EnvInProvider { .. } => "A datasource must not use the env() function in the provider argument."@,
        ErrorView::EmptyProvider { source_name, .. } => source_error_text(
            source_name,
            "The provider argument in a datasource must not be empty"@,
        ),
        ErrorView::ProviderNotStringLiteral { source_name, .. } => source_error_text(
            source_name,
            "The provider argument in a datasource must be a string literal"@,
        ),
        ErrorView::EnvironmentVariableNotFound { var_name, .. } => "Environment variable not found: "@
            + var_name + "."@,
        ErrorView::TypeMismatch { expected, .. } => match expected {
            ValueType::String => "Expected a String value."@,
            ValueType::Boolean => "Expected a Boolean value."@,
        },
        ErrorView::PreviewFeaturesInDatasource { .. } =>
            "Preview features are only supported in the generator block. Please move this field to the generator block."@,
        ErrorView::PlanetScaleModeNotEnabled { source_name, .. } => source_error_text(
            source_name,
            "\nThe `planetScaleMode` option can only be set if the preview feature is enabled in a generator block.\n\nExample:\n\ngenerator client {\n    provider = \"prisma-client-js\"\n    previewFeatures = [\"planetScaleMode\"]\n}\n"@,
        ),
        ErrorView::ProviderNotKnown { provider, .. } => "Datasource provider not known: \""@ + provider
            + "\"."@,
        ErrorView::MultipleDatasources { source_name, .. } => source_error_text(
            source_name,
            "You defined more than one datasource. This is not allowed yet because support for multiple databases has not been implemented yet."@,
        ),
    }
}

fn join_names(path: &Vec<String>) -> (r: String)
    ensures
        r@ == join_path(strings_view(path@)),
{
    let mut r = String::new();
    let mut i: usize = 0;
    while i < path.len()
        invariant
            0 <= i <= path@.len(),
            r@ == join_path(strings_view(path@.take(i as int))),
        decreases path@.len() - i,
    {
        assert(strings_view(path@.take(i + 1)).drop_last() =~= strings_view(path@.take(i as int)));
        if i > 0 {
            r.append(" -> ");
        } else {
            assert(r@ =~= Seq::<char>::empty());
        }
        r.append(path[i].as_str());
        proof {
            if i == 0 {
                assert(r@ =~= strings_view(path@.take(1))[0]);
            }
        }
        i = i + 1;
    }
    assert(path@.take(path@.len() as int) =~= path@);
    r
}

fn source_error(source_name: &String, text: &str) -> (r: String)
    ensures
        r@ == source_error_text(source_name@, text@),
{
    let mut r = "Error validating datasource `".to_owned();
    r.append(source_name.as_str());
    r.append("`: ");
    r.append(text);
    r
}

impl DatamodelError {
    /// The text this diagnostic is reported with.
    pub fn message(&self) -> (r: String)
        ensures
            r@ == message_spec(self@),
    {
        match self {
            DatamodelError::RecursiveType { path, .. } => {
                let mut r = "Recursive type definitions are not allowed. Recursive path was: ".to_owned();
                r.append(join_names(path).as_str());
                r.append(".");
                r
            },
            DatamodelError::OnlyScalarTypes { .. } => "Only scalar types can be used for defining custom types.".to_owned(),
            DatamodelError::TypeNotFound { name, .. } => {
                let mut r = "Type \"".to_owned();
                r.append(name.as_str());
                r.append("\" is neither a built-in type, nor refers to another model, custom type, or enum.");
                r
            },
            DatamodelError::SourceArgumentNotFound { argument, source_name, .. } => {
                let mut r = "Argument \"".to_owned();
                match argument {
                    SourceArgument::Provider => r.append("provider"),
                    SourceArgument::Url => r.append("url"),
                }
                r.append("\" is missing in data source block \"");
                r.append(source_name.as_str());
                r.append("\".");
                r
            },
            DatamodelError::EnvInProvider { .. } =>
                "A datasource must not use the env() function in the provider argument.".to_owned(),
            DatamodelError::EmptyProvider { source_name, .. } => source_error(
                source_name,
                "The provider argument in a datasource must not be empty",
            ),
            DatamodelError::ProviderNotStringLiteral { source_name, .. } => source_error(
                source_name,
                "The provider argument in a datasource must be a string literal",
            ),
            DatamodelError::EnvironmentVariableNotFound { var_name, .. } => {
                let mut r = "Environment variable not found: ".to_owned();
                r.append(var_name.as_str());
                r.append(".");
                r
            },
            DatamodelError::TypeMismatch { expected, .. } => match expected {
                ValueType::String => "Expected a String value.".to_owned(),
                ValueType::Boolean => "Expected a Boolean value.".to_owned(),
            },
            DatamodelError::PreviewFeaturesInDatasource { .. } =>
                "Preview features are only supported in the generator block. Please move this field to the generator block.".to_owned(),
            DatamodelError::PlanetScaleModeNotEnabled { source_name, .. } => source_error(
                source_name,
                "\nThe `planetScaleMode` option can only be set if the preview feature is enabled in a generator block.\n\nExample:\n\ngenerator client {\n    provider = \"prisma-client-js\"\n    previewFeatures = [\"planetScaleMode\"]\n}\n",
            ),
            DatamodelError::ProviderNotKnown { provider, .. } => {
                let mut r = "Datasource provider not known: \"".to_owned();
                r.append(provider.as_str());
                r.append("\".");
                r
            },
            DatamodelError::MultipleDatasources { source_name, .. } => source_error(
                source_name,
                "You defined more than one datasource. This is not allowed yet because support for multiple databases has not been implemented yet.",
            ),
        }
    }

    /// The span this diagnostic is reported at.
    pub fn span(&self) -> (r: Span)
        ensures
            r == error_span(self@),
    {
        match self {
            DatamodelError::RecursiveType { span, .. } => *span,
            DatamodelError::OnlyScalarTypes { span } => *span,
            DatamodelError::TypeNotFound { span, .. } => *span,
            DatamodelError::SourceArgumentNotFound { span, .. } => *span,
            DatamodelError::EnvInProvider { span } => *span,
            DatamodelError::EmptyProvider { span, .. } => *span,
            DatamodelError::ProviderNotStringLiteral { span, .. } => *span,
            DatamodelError::EnvironmentVariableNotFound { span, .. } => *span,
            DatamodelError::TypeMismatch { span, .. } => *span,
            DatamodelError::PreviewFeaturesInDatasource { span } => *span,
            DatamodelError::PlanetScaleModeNotEnabled { span, .. } => *span,
            DatamodelError::ProviderNotKnown { span, .. } => *span,
            DatamodelError::MultipleDatasources { span, .. } => *span,
        }
    }
}

pub open spec fn error_span(e: ErrorView) -> Span {
    match e {
        ErrorView::RecursiveType { span, .. } => span,
        ErrorView::OnlyScalarTypes { span } => span,
        ErrorView::TypeNotFound { span, .. } => span,
        ErrorView::SourceArgumentNotFound { span, .. } => span,
        ErrorView::EnvInProvider { span } => span,
        ErrorView::EmptyProvider { span, .. } => span,
        ErrorView::ProviderNotStringLiteral { span, .. } => span,
        ErrorView::EnvironmentVariableNotFound { span, .. } => span,
        ErrorView::TypeMismatch { span, .. } => span,
        ErrorView::PreviewFeaturesInDatasource { span } => span,
        ErrorView::PlanetScaleModeNotEnabled { span, .. } => span,
        ErrorView::ProviderNotKnown { span, .. } => span,
        ErrorView::MultipleDatasources { span, .. } => span,
    }
}

} // verus!
