//! Completion-label rendering: maps a completion item's kind to a highlight
//! category and lays the label and detail text out as display spans.

use vstd::prelude::*;
use vstd::string::StringExecFns;
use vstd::utf8::encode_utf8;

verus! {

/// The kind of a completion item, as the language-server protocol defines
/// it. `Other` stands for any kind outside the named list.
#[derive(Clone, Copy, Debug, PartialEq, Eq, Structural)]
pub enum CompletionKind {
    Text,
    Method,
    Function,
    Constructor,
    Field,
    Variable,
    Class,
    Interface,
    Module,
    Property,
    Unit,
    Value,
    Enum,
    Keyword,
    Snippet,
    Color,
    File,
    Reference,
    Folder,
    EnumMember,
    Constant,
    Struct,
    Event,
    Operator,
    TypeParameter,
    Other,
}

/// The fixed kind-to-category table: kinds outside it get no category, and
/// the completion item is then rendered without an enhanced label.
pub open spec fn highlight_for_kind(kind: CompletionKind) -> Option<Seq<char>> {
    match kind {
        CompletionKind::Class => Some("type"@),
        CompletionKind::Interface => Some("type"@),
        CompletionKind::Constructor => Some("type"@),
        CompletionKind::Variable => Some("type"@),
        CompletionKind::Constant => Some("constant"@),
        CompletionKind::Function => Some("function"@),
        CompletionKind::Method => Some("function"@),
        CompletionKind::Property => Some("tag"@),
        CompletionKind::Field => Some("tag"@),
        CompletionKind::Value => Some("tag"@),
        CompletionKind::Keyword => Some("keyword"@),
        _ => None,
    }
}

/// The highlight category for a completion kind, as an owned string.
pub fn highlight_name(kind: CompletionKind) -> (r: Option<String>)
    ensures
        r.deep_view() == highlight_for_kind(kind),
{
    match kind {
        CompletionKind::Class => Some(String::from_str("type")),
        CompletionKind::Interface => Some(String::from_str("type")),
        CompletionKind::Constructor => Some(String::from_str("type")),
        CompletionKind::Variable => Some(String::from_str("type")),
        CompletionKind::Constant => Some(String::from_str("constant")),
        CompletionKind::Function => Some(String::from_str("function")),
        CompletionKind::Method => Some(String::from_str("function")),
        CompletionKind::Property => Some(String::from_str("tag")),
        CompletionKind::Field => Some(String::from_str("tag")),
        CompletionKind::Value => Some(String::from_str("tag")),
        CompletionKind::Keyword => Some(String::from_str("keyword")),
        _ => None,
    }
}

/// A completion item as the host hands it over: an optional kind, the
/// display label, and an optional detail string. It is consumed, never
/// mutated.
#[derive(Debug, PartialEq, Eq)]
pub struct Completion {
    pub kind: Option<CompletionKind>,
    pub label: String,
    pub detail: Option<String>,
}

/// Mathematical model of a completion item.
pub struct CompletionModel {
    pub kind: Option<CompletionKind>,
    pub label: Seq<char>,
    pub detail: Option<Seq<char>>,
}

impl View for Completion {
    type V = CompletionModel;

    open spec fn view(&self) -> CompletionModel {
        CompletionModel {
            kind: self.kind,
            label: self.label@,
            detail: match self.detail {
                Some(detail) => Some(detail@),
                None => None,
            },
        }
    }
}

/// One display span of a rendered label: literal text with an optional
/// highlight category.
#[derive(Debug, PartialEq, Eq)]
pub struct CodeLabelSpan {
    pub text: String,
    pub highlight: Option<String>,
}

/// Mathematical model of a display span.
pub struct SpanModel {
    pub text: Seq<char>,
    pub highlight: Option<Seq<char>>,
}

impl View for CodeLabelSpan {
    type V = SpanModel;

    open spec fn view(&self) -> SpanModel {
        SpanModel {
            text: self.text@,
            highlight: match self.highlight {
                Some(name) => Some(name@),
                None => None,
            },
        }
    }
}

/// A rendered completion label: an ordered span sequence plus the byte range
/// of the concatenated span text that fuzzy matching applies to.
#[derive(Debug, PartialEq, Eq)]
pub struct CodeLabel {
    pub code: String,
    pub spans: Vec<CodeLabelSpan>,
    pub filter_range_start: usize,
    pub filter_range_end: usize,
}

/// Mathematical model of a rendered label.
pub struct LabelModel {
    pub code: Seq<char>,
    pub spans: Seq<SpanModel>,
    pub filter_range_start: nat,
    pub filter_range_end: nat,
}

impl View for CodeLabel {
    type V = LabelModel;

    open spec fn view(&self) -> LabelModel {
        LabelModel {
            code: self.code@,
            spans: Seq::new(self.spans@.len(), |i: int| self.spans@[i]@),
            filter_range_start: self.filter_range_start as nat,
            filter_range_end: self.filter_range_end as nat,
        }
    }
}

/// The byte length of a label text, as the machine word holds it.
pub open spec fn label_byte_len(label: Seq<char>) -> nat {
    encode_utf8(label).len() as usize as nat
}

/// The label rendered for a completion item: nothing for a kind outside the
/// category table; otherwise the label text tagged with its category,
/// followed — when a detail is present — by an untagged single-space
/// separator and the untagged detail text. The filter range covers exactly
/// the label text.
pub open spec fn spec_label_for(c: CompletionModel) -> Option<LabelModel> {
    match c.kind {
        None => None,
        Some(kind) => match highlight_for_kind(kind) {
            None => None,
            Some(category) => Some(
                LabelModel {
                    code: Seq::empty(),
                    spans: match c.detail {
                        Some(detail) => seq![
                            SpanModel { text: c.label, highlight: Some(category) },
                            SpanModel { text: " "@, highlight: None },
                            SpanModel { text: detail, highlight: None },
                        ],
                        None => seq![SpanModel { text: c.label, highlight: Some(category) }],
                    },
                    filter_range_start: 0,
                    filter_range_end: label_byte_len(c.label),
                },
            ),
        },
    }
}

/// Renders the display label for a completion item.
pub fn label_for_completion(completion: Completion) -> (r: Option<CodeLabel>)
    ensures
        r is Some <==> spec_label_for(completion@) is Some,
        r matches Some(label) ==> Some(label@) == spec_label_for(completion@),
{
    let kind = match completion.kind {
        Some(kind) => kind,
        None => {
            return None;
        },
    };
    let highlight = match highlight_name(kind) {
        Some(name) => name,
        None => {
            return None;
        },
    };
    let filter_end = completion.label.as_str().len();
    let name_span = CodeLabelSpan { text: completion.label, highlight: Some(highlight) };
    let mut spans: Vec<CodeLabelSpan> = Vec::new();
    spans.push(name_span);
    match completion.detail {
        Some(detail) => {
            spans.push(CodeLabelSpan { text: String::from_str(" "), highlight: None });
            spans.push(CodeLabelSpan { text: detail, highlight: None });
        },
        None => {},
    }
    let result = CodeLabel {
        code: String::new(),
        spans,
        filter_range_start: 0,
        filter_range_end: filter_end,
    };
    proof {
        let expected = spec_label_for(completion@).unwrap();
        assert(result@.spans =~= expected.spans);
        assert(result@.code =~= expected.code);
    }
    Some(result)
}

/// Law: the filter range of a rendered label always runs from the start of
/// the label text to its byte length — the appended detail, present or not,
/// never widens it.
pub proof fn lemma_filter_range_covers_label(c: CompletionModel)
    requires
        spec_label_for(c) is Some,
    ensures
        spec_label_for(c).unwrap().filter_range_start == 0,
        spec_label_for(c).unwrap().filter_range_end == label_byte_len(c.label),
{
}

} // verus!
