use biome_plugin_loader::diagnostic::{Category, Diagnostic, Severity, TextRange};
use biome_plugin_loader::registrar::{
    register_diagnostic, Binding, RegisterDiagnosticArgs, ResolvedPattern, ARITY_MESSAGE,
    NO_MESSAGE,
};
use grit_pattern_matcher::constant::Constant;

const ARITY_TEXT: &str = "register_diagnostic() takes 2 or 5 arguments: span and message, and optional fixer_description, category and applicability";

fn text(value: &str) -> Option<ResolvedPattern> {
    Some(ResolvedPattern::Constant(Constant::String(value.to_string())))
}

fn node(start: u32, end: u32) -> Option<ResolvedPattern> {
    Some(ResolvedPattern::Other(Some(Binding {
        node_range: Some(TextRange { start, end }),
        text: Some("node".to_string()),
    })))
}

fn slots(present: [bool; 5]) -> Vec<Option<ResolvedPattern>> {
    present.iter().map(|present| if *present { text("x") } else { None }).collect()
}

fn assert_arity_error(args: &[Option<ResolvedPattern>]) {
    let mut diagnostics = vec![Diagnostic::new(None, "kept")];
    match register_diagnostic(args, &mut diagnostics) {
        Ok(_) => panic!("the call must fail"),
        Err(error) => assert_eq!(error.to_string(), ARITY_TEXT),
    }
    assert_eq!(diagnostics, vec![Diagnostic::new(None, "kept")]);
}

fn registered(span: Option<ResolvedPattern>, message: Option<ResolvedPattern>) -> Diagnostic {
    let args = vec![span, message, None, None, None];
    let mut diagnostics = Vec::new();
    assert!(register_diagnostic(&args, &mut diagnostics).is_ok());
    assert_eq!(diagnostics.len(), 1);
    diagnostics.remove(0)
}

fn message_of(message: ResolvedPattern) -> String {
    registered(Some(ResolvedPattern::Other(None)), Some(message)).message_text()
}

#[test]
fn arity_message_is_spelled_out() {
    assert_eq!(ARITY_MESSAGE, ARITY_TEXT);
    assert_eq!(NO_MESSAGE, "(no message)");
}

#[test]
fn one_argument_is_an_arity_error() {
    assert_arity_error(&slots([true, false, false, false, false]));
    assert_arity_error(&slots([false, true, false, false, false]));
    assert_arity_error(&slots([false, false, false, false, true]));
}

#[test]
fn three_arguments_are_an_arity_error() {
    assert_arity_error(&slots([true, true, true, false, false]));
    assert_arity_error(&slots([true, true, false, true, false]));
    assert_arity_error(&slots([true, true, false, false, true]));
    assert_arity_error(&slots([false, false, true, true, true]));
}

#[test]
fn four_arguments_are_an_arity_error() {
    assert_arity_error(&slots([true, true, true, true, false]));
    assert_arity_error(&slots([true, true, true, false, true]));
    assert_arity_error(&slots([true, true, false, true, true]));
    assert_arity_error(&slots([false, true, true, true, true]));
    assert_arity_error(&slots([true, false, true, true, true]));
}

#[test]
fn no_argument_is_an_arity_error() {
    assert_arity_error(&slots([false, false, false, false, false]));
}

#[test]
fn two_arguments_in_other_slots_are_an_arity_error() {
    assert_arity_error(&slots([true, false, true, false, false]));
    assert_arity_error(&slots([false, true, false, true, false]));
    assert_arity_error(&slots([false, false, false, true, true]));
}

#[test]
fn other_numbers_of_slots_are_an_arity_error() {
    assert_arity_error(&[]);
    assert_arity_error(&[text("span"), text("message")]);
    assert_arity_error(&[text("a"), text("b"), None, None]);
    assert_arity_error(&[text("a"), text("b"), None, None, None, None]);
    assert_arity_error(&[text("a"), text("b"), text("c"), text("d"), text("e"), text("f")]);
}

#[test]
fn two_arguments_register_a_diagnostic() {
    let args = vec![node(10, 15), text("abc"), None, None, None];
    let mut diagnostics = vec![Diagnostic::new(None, "earlier")];
    let returned = register_diagnostic(&args, &mut diagnostics).expect("the shape is valid");
    assert!(std::ptr::eq(returned, args[0].as_ref().expect("the span is present")));
    assert_eq!(
        diagnostics,
        vec![
            Diagnostic::new(None, "earlier"),
            Diagnostic::new(Some(TextRange { start: 10, end: 15 }), "abc"),
        ]
    );
}

#[test]
fn five_arguments_register_the_same_diagnostic() {
    let args =
        vec![node(10, 15), text("abc"), text("use bar"), text("lint/custom"), text("always")];
    let mut diagnostics = Vec::new();
    let returned = register_diagnostic(&args, &mut diagnostics).expect("the shape is valid");
    assert!(std::ptr::eq(returned, args[0].as_ref().expect("the span is present")));
    assert_eq!(diagnostics, vec![Diagnostic::new(Some(TextRange { start: 10, end: 15 }), "abc")]);
    assert_eq!(diagnostics[0].category, Category::Plugin);
    assert_eq!(diagnostics[0].severity, Severity::Error);
}

#[test]
fn each_call_appends_one_diagnostic() {
    let mut diagnostics = Vec::new();
    for message in ["one", "two", "three"] {
        let args = vec![node(1, 2), text(message), None, None, None];
        assert!(register_diagnostic(&args, &mut diagnostics).is_ok());
    }
    let messages: Vec<String> =
        diagnostics.iter().map(|diagnostic| diagnostic.message_text()).collect();
    assert_eq!(messages, vec!["one", "two", "three"]);
}

#[test]
fn accepted_arguments_are_the_slots() {
    let args = vec![Some(1u8), Some(2u8), Some(3u8), Some(4u8), Some(5u8)];
    let accepted = RegisterDiagnosticArgs::from_slots(&args).expect("the shape is valid");
    assert_eq!(*accepted.span, 1);
    assert_eq!(*accepted.message, 2);
    assert_eq!(accepted.fixer_description, Some(&3));
    assert_eq!(accepted.category, Some(&4));
    assert_eq!(accepted.applicability, Some(&5));

    let args = vec![Some(1u8), Some(2u8), None, None, None];
    let accepted = RegisterDiagnosticArgs::from_slots(&args).expect("the shape is valid");
    assert_eq!(*accepted.span, 1);
    assert_eq!(*accepted.message, 2);
    assert_eq!(accepted.fixer_description, None);
    assert_eq!(accepted.category, None);
    assert_eq!(accepted.applicability, None);

    let args = vec![Some(1u8), None, None, None, None];
    match RegisterDiagnosticArgs::from_slots(&args) {
        Ok(_) => panic!("the shape is not valid"),
        Err(error) => assert_eq!(error.to_string(), ARITY_TEXT),
    }
}

#[test]
fn constant_message_is_its_string_form() {
    assert_eq!(message_of(ResolvedPattern::Constant(Constant::String("abc".to_string()))), "abc");
    assert_eq!(message_of(ResolvedPattern::Constant(Constant::String(String::new()))), "");
    assert_eq!(message_of(ResolvedPattern::Constant(Constant::Integer(-42))), "-42");
    assert_eq!(message_of(ResolvedPattern::Constant(Constant::Boolean(true))), "true");
    assert_eq!(message_of(ResolvedPattern::Constant(Constant::Float(1.5))), "1.5");
    assert_eq!(message_of(ResolvedPattern::Constant(Constant::Undefined)), "");
}

#[test]
fn empty_snippet_list_is_the_empty_message() {
    assert_eq!(message_of(ResolvedPattern::Snippets(Vec::new())), "");
}

#[test]
fn snippets_are_joined_in_order() {
    let snippets =
        vec![Some("foo".to_string()), Some(String::new()), Some("(bar)".to_string())];
    assert_eq!(message_of(ResolvedPattern::Snippets(snippets)), "foo(bar)");
    assert_eq!(message_of(ResolvedPattern::Snippets(vec![Some("only".to_string())])), "only");
}

#[test]
fn snippets_with_an_unknown_text_give_no_message() {
    let snippets = vec![Some("foo".to_string()), None, Some("bar".to_string())];
    assert_eq!(message_of(ResolvedPattern::Snippets(snippets)), "(no message)");
    assert_eq!(message_of(ResolvedPattern::Snippets(vec![None])), "(no message)");
}

#[test]
fn other_value_gives_the_text_of_its_last_binding() {
    let bound = Binding { node_range: None, text: Some("console.log".to_string()) };
    assert_eq!(message_of(ResolvedPattern::Other(Some(bound))), "console.log");
    let empty = Binding { node_range: Some(TextRange { start: 0, end: 0 }), text: Some(String::new()) };
    assert_eq!(message_of(ResolvedPattern::Other(Some(empty))), "");
}

#[test]
fn value_without_text_gives_no_message() {
    assert_eq!(message_of(ResolvedPattern::Other(None)), "(no message)");
    let unresolved = Binding { node_range: Some(TextRange { start: 1, end: 2 }), text: None };
    assert_eq!(message_of(ResolvedPattern::Other(Some(unresolved))), "(no message)");
}

#[test]
fn message_tiers_answer_only_for_their_kind() {
    let constant = ResolvedPattern::Constant(Constant::Integer(7));
    assert_eq!(constant.constant_message(), Some("7".to_string()));
    assert_eq!(constant.snippets_message(), None);
    assert_eq!(constant.binding_message(), None);

    let snippets = ResolvedPattern::Snippets(vec![Some("a".to_string()), Some("b".to_string())]);
    assert_eq!(snippets.constant_message(), None);
    assert_eq!(snippets.snippets_message(), Some("ab".to_string()));
    assert_eq!(snippets.binding_message(), None);

    let failing = ResolvedPattern::Snippets(vec![Some("a".to_string()), None]);
    assert_eq!(failing.snippets_message(), None);

    let bound = ResolvedPattern::Other(Some(Binding { node_range: None, text: Some("t".to_string()) }));
    assert_eq!(bound.constant_message(), None);
    assert_eq!(bound.snippets_message(), None);
    assert_eq!(bound.binding_message(), Some("t".to_string()));
    assert_eq!(bound.message(), "t");
}

#[test]
fn span_is_the_range_of_the_bound_node() {
    let diagnostic = registered(node(10, 15), text("m"));
    assert_eq!(diagnostic.span, Some(TextRange { start: 10, end: 15 }));
    let diagnostic = registered(node(0, u32::MAX), text("m"));
    assert_eq!(diagnostic.span, Some(TextRange { start: 0, end: u32::MAX }));
}

#[test]
fn span_without_a_node_gives_no_position() {
    let no_binding = registered(Some(ResolvedPattern::Other(None)), text("m"));
    assert_eq!(no_binding.span, None);
    assert_eq!(no_binding.message_text(), "m");

    let not_a_node = Binding { node_range: None, text: Some("text".to_string()) };
    assert_eq!(registered(Some(ResolvedPattern::Other(Some(not_a_node))), text("m")).span, None);
    assert_eq!(registered(text("span"), text("m")).span, None);
    assert_eq!(registered(Some(ResolvedPattern::Snippets(Vec::new())), text("m")).span, None);
    assert_eq!(ResolvedPattern::Snippets(vec![Some("s".to_string())]).span(), None);
}
