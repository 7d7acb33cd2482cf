use topk_cli::commands::ask::{Answer, AskResult, Fact};
use topk_cli::commands::search::{Content, SearchResult};

fn plain() {
    colored::control::set_override(false);
}

fn fact(text: &str, refs: &[&str]) -> Fact {
    Fact { fact: text.to_string(), ref_ids: refs.iter().map(|r| r.to_string()).collect() }
}

fn hit(doc_id: &str) -> SearchResult {
    SearchResult {
        doc_id: doc_id.to_string(),
        doc_type: "md".to_string(),
        dataset: "ds".to_string(),
        content_id: "c".to_string(),
        doc_name: "n".to_string(),
        content: Some(Content::Chunk { text: "cited".to_string(), doc_pages: vec![] }),
    }
}

#[test]
fn no_facts_reads_no_answer_found() {
    let a = AskResult { facts: vec![], refs: vec![], show_refs: true };
    assert_eq!(a.render(), "No answer found.");
}

#[test]
fn facts_are_joined_with_spaces_without_citations() {
    let a = AskResult { facts: vec![fact("One.", &["1"]), fact("Two.", &[])], refs: vec![], show_refs: false };
    assert_eq!(a.render(), "One. Two.");
}

#[test]
fn facts_carry_their_ref_tags_when_citations_are_shown() {
    plain();
    let a = AskResult {
        facts: vec![fact("One.", &["1", "2"]), fact("Two.", &[])],
        refs: vec![],
        show_refs: true,
    };
    assert_eq!(a.render(), "One. [1] [2] Two.");
}

#[test]
fn references_are_hidden_unless_shown() {
    let a = AskResult { facts: vec![], refs: vec![("1".to_string(), hit("d"))], show_refs: false };
    assert!(a.render_refs(&vec![], None).is_none());
}

#[test]
fn references_are_absent_without_refs() {
    let a = AskResult { facts: vec![], refs: vec![], show_refs: true };
    assert!(a.render_refs(&vec![], None).is_none());
}

#[test]
fn references_block_lists_each_cited_hit() {
    plain();
    let a = AskResult {
        facts: vec![],
        refs: vec![("1".to_string(), hit("d1")), ("2".to_string(), hit("d2"))],
        show_refs: true,
    };
    assert_eq!(
        a.render_refs(&vec![], None).unwrap(),
        "\nReferences:\n[1] dataset=ds id=d1 type=md\ncited\n\n[2] dataset=ds id=d2 type=md\ncited"
    );
}

#[test]
fn from_answer_keeps_facts_and_refs() {
    let a = AskResult::from_answer(
        Answer { facts: vec![fact("F.", &[])], refs: vec![("1".to_string(), hit("d"))] },
        true,
    );
    assert_eq!(a.facts.len(), 1);
    assert_eq!(a.refs.len(), 1);
    assert!(a.show_refs);
}

use topk_cli::commands::ask::{ask_step, finish_ask, AskError, AskMessage};

#[test]
fn stream_messages_print_progress_and_keep_the_last_answer() {
    let (answer, lines) = ask_step(None, AskMessage::Reason { thought: "hmm".to_string() }).ok().unwrap();
    assert!(answer.is_none());
    assert_eq!(lines, vec!["[thinking] hmm"]);
    let (_, lines) = ask_step(
        None,
        AskMessage::Search { objective: "find x".to_string(), facts: vec![fact("x is 1", &[])] },
    )
    .ok()
    .unwrap();
    assert_eq!(lines, vec!["[searching] find x", " - x is 1"]);
    let (answer, lines) = ask_step(None, AskMessage::Answer(Answer { facts: vec![fact("A.", &[])], refs: vec![] }))
        .ok()
        .unwrap();
    assert!(lines.is_empty());
    let result = finish_ask(answer, false).ok().unwrap();
    assert_eq!(result.render(), "A.");
}

#[test]
fn empty_messages_and_missing_answers_are_errors() {
    assert_eq!(ask_step(None, AskMessage::Empty).err(), Some(AskError::InvalidProto));
    assert_eq!(finish_ask(None, true).err(), Some(AskError::NoAnswer));
}
