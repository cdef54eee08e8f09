use angular_extension::labels::{
    highlight_name, label_for_completion, CodeLabel, Completion, CompletionKind,
};

fn completion(kind: CompletionKind, label: &str, detail: Option<&str>) -> Completion {
    Completion {
        kind: Some(kind),
        label: label.to_string(),
        detail: detail.map(|d| d.to_string()),
    }
}

fn rendered(kind: CompletionKind, label: &str, detail: Option<&str>) -> CodeLabel {
    label_for_completion(completion(kind, label, detail)).expect("a label should be produced")
}

#[test]
fn function_with_detail_renders_three_spans() {
    // A function completion named foo with a signature detail renders the
    // tagged name, an untagged space, and the untagged detail; the filter
    // range covers the name alone.
    let label = rendered(CompletionKind::Function, "foo", Some("(x: number): void"));
    assert_eq!(label.spans.len(), 3);
    assert_eq!(label.spans[0].text, "foo");
    assert_eq!(label.spans[0].highlight, Some("function".to_string()));
    assert_eq!(label.spans[1].text, " ");
    assert_eq!(label.spans[1].highlight, None);
    assert_eq!(label.spans[2].text, "(x: number): void");
    assert_eq!(label.spans[2].highlight, None);
    assert_eq!(label.filter_range_start, 0);
    assert_eq!(label.filter_range_end, 3);
    assert_eq!(label.code, "");
}

#[test]
fn label_without_detail_renders_single_span() {
    let label = rendered(CompletionKind::Class, "AppComponent", None);
    assert_eq!(label.spans.len(), 1);
    assert_eq!(label.spans[0].text, "AppComponent");
    assert_eq!(label.spans[0].highlight, Some("type".to_string()));
    assert_eq!(label.filter_range_start, 0);
    assert_eq!(label.filter_range_end, "AppComponent".len());
}

#[test]
fn filter_range_ignores_detail() {
    let with_detail = rendered(CompletionKind::Method, "ngOnInit", Some("(): void"));
    let without_detail = rendered(CompletionKind::Method, "ngOnInit", None);
    assert_eq!(with_detail.filter_range_start, 0);
    assert_eq!(without_detail.filter_range_start, 0);
    assert_eq!(with_detail.filter_range_end, "ngOnInit".len());
    assert_eq!(with_detail.filter_range_end, without_detail.filter_range_end);
}

#[test]
fn filter_range_counts_bytes_not_characters() {
    let label = rendered(CompletionKind::Variable, "héllo", Some("string"));
    assert_eq!("héllo".len(), 6);
    assert_eq!(label.filter_range_end, 6);
}

#[test]
fn snippet_kind_yields_no_label() {
    let result = label_for_completion(completion(CompletionKind::Snippet, "for-loop", None));
    assert!(result.is_none());
}

#[test]
fn kinds_outside_the_table_yield_no_label() {
    for kind in [
        CompletionKind::Text,
        CompletionKind::Module,
        CompletionKind::Unit,
        CompletionKind::Enum,
        CompletionKind::Snippet,
        CompletionKind::Color,
        CompletionKind::File,
        CompletionKind::Reference,
        CompletionKind::Folder,
        CompletionKind::EnumMember,
        CompletionKind::Struct,
        CompletionKind::Event,
        CompletionKind::Operator,
        CompletionKind::TypeParameter,
        CompletionKind::Other,
    ] {
        assert!(label_for_completion(completion(kind, "x", None)).is_none());
        assert!(highlight_name(kind).is_none());
    }
}

#[test]
fn missing_kind_yields_no_label() {
    let result = label_for_completion(Completion {
        kind: None,
        label: "x".to_string(),
        detail: None,
    });
    assert!(result.is_none());
}

#[test]
fn property_field_and_value_map_to_tag() {
    for kind in [
        CompletionKind::Property,
        CompletionKind::Field,
        CompletionKind::Value,
    ] {
        assert_eq!(highlight_name(kind), Some("tag".to_string()));
    }
}

#[test]
fn constructor_maps_to_type_not_a_constructor_category() {
    assert_eq!(
        highlight_name(CompletionKind::Constructor),
        Some("type".to_string())
    );
}

#[test]
fn remaining_table_kinds_map_to_their_categories() {
    for kind in [
        CompletionKind::Class,
        CompletionKind::Interface,
        CompletionKind::Variable,
    ] {
        assert_eq!(highlight_name(kind), Some("type".to_string()));
    }
    for kind in [CompletionKind::Function, CompletionKind::Method] {
        assert_eq!(highlight_name(kind), Some("function".to_string()));
    }
    assert_eq!(
        highlight_name(CompletionKind::Constant),
        Some("constant".to_string())
    );
    assert_eq!(
        highlight_name(CompletionKind::Keyword),
        Some("keyword".to_string())
    );
}
