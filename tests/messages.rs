use datamodel::ast::Span;
use datamodel::diagnostics::{DatamodelError, SourceArgument, ValueType};

fn sp() -> Span {
    Span { start: 1, end: 2 }
}

#[test]
fn cycle_message_shows_the_path() {
    let e = DatamodelError::RecursiveType { path: vec!["A".to_string(), "B".to_string(), "A".to_string()], span: sp() };
    assert_eq!(e.message(), "Recursive type definitions are not allowed. Recursive path was: A -> B -> A.");
    assert_eq!(e.span(), sp());
}

#[test]
fn not_found_and_provider_messages() {
    let e = DatamodelError::TypeNotFound { name: "Foo".to_string(), span: sp() };
    assert_eq!(e.message(), "Type \"Foo\" is neither a built-in type, nor refers to another model, custom type, or enum.");
    let e = DatamodelError::SourceArgumentNotFound { argument: SourceArgument::Provider, source_name: "db".to_string(), span: sp() };
    assert_eq!(e.message(), "Argument \"provider\" is missing in data source block \"db\".");
    let e = DatamodelError::ProviderNotKnown { provider: "oracle".to_string(), span: sp() };
    assert_eq!(e.message(), "Datasource provider not known: \"oracle\".");
    let e = DatamodelError::EnvironmentVariableNotFound { var_name: "URL".to_string(), span: sp() };
    assert_eq!(e.message(), "Environment variable not found: URL.");
}

#[test]
fn datasource_validation_messages_name_the_block() {
    let e = DatamodelError::MultipleDatasources { source_name: "one".to_string(), span: sp() };
    assert!(e.message().starts_with("Error validating datasource `one`: You defined more than one datasource."));
    let e = DatamodelError::EmptyProvider { source_name: "db".to_string(), span: sp() };
    assert_eq!(e.message(), "Error validating datasource `db`: The provider argument in a datasource must not be empty");
    let e = DatamodelError::PlanetScaleModeNotEnabled { source_name: "db".to_string(), span: sp() };
    assert!(e.message().contains("preview feature"));
    assert!(e.message().contains("generator client {"));
    assert!(e.message().contains("previewFeatures = [\"planetScaleMode\"]"));
    let e = DatamodelError::PreviewFeaturesInDatasource { span: sp() };
    assert!(e.message().contains("generator block"));
    let e = DatamodelError::TypeMismatch { expected: ValueType::Boolean, span: sp() };
    assert_eq!(e.message(), "Expected a Boolean value.");
}
