//! `topk ask`: an answer made of facts, with the search hits it cites.

use vstd::prelude::*;
use crate::commands::search::{SearchResult, opt_str, path_for, ref_tag, render_search_result, renders_result, find_path};
use crate::paint::{blue, bold, blue_code, bold_code, shows};
use crate::paths::shown_path;
use crate::text::{join, join_seqs, views};

verus! {

/// How the service should go about answering.
#[derive(Clone, Copy, PartialEq, Eq, Debug)]
pub enum Mode {
    Auto,
    Summarize,
    Research,
}

/// One statement of an answer and the hits it rests on.
pub struct Fact {
    pub fact: String,
    pub ref_ids: Vec<String>,
}

/// The final answer as the service sends it.
pub struct Answer {
    pub facts: Vec<Fact>,
    pub refs: Vec<(String, SearchResult)>,
}

/// An answer, the hits it cites (by ref id), and whether to show citations.
pub struct AskResult {
    pub facts: Vec<Fact>,
    pub refs: Vec<(String, SearchResult)>,
    pub show_refs: bool,
}

/// The arguments of `topk ask`.
pub struct AskArgs {
    /// Question to ask (read from stdin when absent)
    pub query: Option<String>,
    /// Datasets to search
    pub datasets: Vec<String>,
    /// Query mode
    pub mode: Option<Mode>,
    /// Metadata fields to include in results
    pub fields: Option<Vec<String>>,
    /// Show citations in the answer
    pub show_refs: bool,
    /// Directory to save result content to
    pub output_dir: Option<String>,
}

/// The ref tags of a fact, `"[a] [b]"`.
pub open spec fn tags_text(ref_ids: Seq<String>) -> Seq<char> {
    join_seqs(ref_ids.map_values(|id: String| ref_tag(id@)), " "@)
}

/// `out` is `fact` as shown: with its ref tags (in blue) when citations are
/// shown and it has any, else the bare statement.
pub open spec fn renders_fact(fact: Fact, show_refs: bool, out: Seq<char>) -> bool {
    if show_refs && fact.ref_ids@.len() > 0 {
        exists|b: Seq<char>|
            shows(blue_code(), tags_text(fact.ref_ids@), b)
            && #[trigger] (fact.fact@ + " "@ + b) == out
    } else {
        out == fact.fact@
    }
}

/// `out` is the answer as shown: `No answer found.` without facts, else the
/// facts, each as shown, separated by spaces.
pub open spec fn renders_answer(facts: Seq<Fact>, show_refs: bool, out: Seq<char>) -> bool {
    if facts.len() == 0 {
        out == "No answer found."@
    } else {
        exists|parts: Seq<Seq<char>>| parts.len() == facts.len()
            && (forall|i: int| 0 <= i < facts.len() ==> renders_fact(facts[i], show_refs, #[trigger] parts[i]))
            && #[trigger] join_seqs(parts, " "@) == out
    }
}

/// `out` is each cited hit rendered under its ref id, in order, separated by
/// blank lines; a hit's saved file is looked up in `paths` by its ref id.
pub open spec fn renders_refs(refs: Seq<(String, SearchResult)>, paths: Seq<(String, String)>, cwd: Option<Seq<char>>, out: Seq<char>) -> bool {
    exists|parts: Seq<Seq<char>>| parts.len() == refs.len()
        && (forall|i: int| 0 <= i < refs.len() ==> renders_result(refs[i].0@, refs[i].1,
            match path_for(paths, refs[i].0@) {
                Some(p) => Some(shown_path(p, cwd)),
                None => None,
            }, #[trigger] parts[i]))
        && #[trigger] join_seqs(parts, "\n\n"@) == out
}

/// The references block: nothing when citations are hidden, there are no
/// refs or they render to nothing; else a blank line, a bold `References:`
/// heading and the rendered refs.
pub open spec fn refs_block(a: AskResult, paths: Seq<(String, String)>, cwd: Option<Seq<char>>, r: Option<Seq<char>>) -> bool {
    if !a.show_refs || a.refs@.len() == 0 {
        r is None
    } else {
        exists|text: Seq<char>, b: Seq<char>|
            #[trigger] renders_refs(a.refs@, paths, cwd, text)
            && #[trigger] shows(bold_code(), "References:"@, b)
            && r == (if text.len() == 0 { None } else { Some("\n"@ + b + "\n"@ + text) })
    }
}

/// The ref tags of a fact, `"[a] [b]"`.
fn fact_tags(ref_ids: &Vec<String>) -> (r: String)
    ensures
        r@ == tags_text(ref_ids@),
{
    let mut tags: Vec<String> = Vec::new();
    let mut i: usize = 0;
    while i < ref_ids.len()
        invariant
            i <= ref_ids@.len(),
            views(tags@) =~= ref_ids@.take(i as int).map_values(|id: String| ref_tag(id@)),
        decreases ref_ids.len() - i,
    {
        let ghost before = tags@;
        let mut tag = "[".to_owned();
        tag.append(ref_ids[i].as_str());
        tag.append("]");
        tags.push(tag);
        assert(ref_ids@.take(i + 1) =~= ref_ids@.take(i as int).push(ref_ids@[i as int]));
        assert(views(tags@) =~= views(before).push(ref_tag(ref_ids@[i as int]@)));
        i = i + 1;
    }
    assert(ref_ids@.take(ref_ids@.len() as int) =~= ref_ids@);
    join(&tags, " ")
}

impl AskResult {
    /// Keeps the facts and cited hits of `answer`.
    pub fn from_answer(answer: Answer, show_refs: bool) -> (r: AskResult)
        ensures
            r.facts@ == answer.facts@,
            r.refs@ == answer.refs@,
            r.show_refs == show_refs,
    {
        AskResult { facts: answer.facts, refs: answer.refs, show_refs }
    }

    /// The answer as shown: `No answer found.` without facts, else the facts
    /// separated by spaces, each followed by its ref tags in blue when
    /// citations are shown.
    pub fn render(&self) -> (r: String)
        ensures
            renders_answer(self.facts@, self.show_refs, r@),
    {
        if self.facts.len() == 0 {
            return "No answer found.".to_owned();
        }
        let mut parts: Vec<String> = Vec::new();
        let n = self.facts.len();
        let mut i: usize = 0;
        while i < n
            invariant
                n == self.facts@.len(),
                i <= n,
                parts@.len() == i,
                forall|j: int| 0 <= j < i ==> renders_fact(self.facts@[j], self.show_refs, #[trigger] parts@[j]@),
            decreases n - i,
        {
            let fact = &self.facts[i];
            if self.show_refs && fact.ref_ids.len() > 0 {
                let tags = fact_tags(&fact.ref_ids);
                let b = blue(tags.as_str());
                let mut s = fact.fact.clone();
                s.append(" ");
                s.append(b.as_str());
                assert(fact.fact@ + " "@ + b@ == s@);
                parts.push(s);
            } else {
                parts.push(fact.fact.clone());
            }
            i = i + 1;
        }
        let r = join(&parts, " ");
        assert(views(parts@).len() == n);
        assert forall|j: int| 0 <= j < self.facts@.len() implies renders_fact(self.facts@[j], self.show_refs, #[trigger] views(parts@)[j]) by {
            assert(views(parts@)[j] == parts@[j]@);
        }
        r
    }

    /// The references block: `None` when citations are hidden or nothing is
    /// cited, else a bold `References:` heading over the cited hits.
    pub fn render_refs(&self, paths: &Vec<(String, String)>, cwd: Option<&str>) -> (r: Option<String>)
        ensures
            refs_block(*self, paths@, opt_str(cwd), match r {
                Some(s) => Some(s@),
                None => None,
            }),
    {
        if !self.show_refs || self.refs.len() == 0 {
            return None;
        }
        let mut parts: Vec<String> = Vec::new();
        let n = self.refs.len();
        let mut i: usize = 0;
        while i < n
            invariant
                n == self.refs@.len(),
                i <= n,
                parts@.len() == i,
                forall|j: int| 0 <= j < i ==> renders_result(self.refs@[j].0@, self.refs@[j].1,
                    match path_for(paths@, self.refs@[j].0@) {
                        Some(p) => Some(shown_path(p, opt_str(cwd))),
                        None => None,
                    }, #[trigger] parts@[j]@),
            decreases n - i,
        {
            let ref_id = self.refs[i].0.as_str();
            let path = find_path(paths, ref_id);
            let part = render_search_result(ref_id, &self.refs[i].1, path, cwd);
            parts.push(part);
            i = i + 1;
        }
        let text = join(&parts, "\n\n");
        assert(views(parts@).len() == n);
        assert forall|j: int| 0 <= j < self.refs@.len() implies renders_result(self.refs@[j].0@, self.refs@[j].1,
            match path_for(paths@, self.refs@[j].0@) {
                Some(p) => Some(shown_path(p, opt_str(cwd))),
                None => None,
            }, #[trigger] views(parts@)[j]) by {
            assert(views(parts@)[j] == parts@[j]@);
        }
        assert(renders_refs(self.refs@, paths@, opt_str(cwd), text@));
        let b = bold("References:");
        assert(shows(bold_code(), "References:"@, b@));
        if text.unicode_len() == 0 {
            None
        } else {
            let mut s = "\n".to_owned();
            s.append(b.as_str());
            s.append("\n");
            s.append(text.as_str());
            Some(s)
        }
    }
}


/// A message of the answer stream.
pub enum AskMessage {
    /// The service's reasoning.
    Reason { thought: String },
    /// A search the service ran, with the facts it found.
    Search { objective: String, facts: Vec<Fact> },
    /// The final answer.
    Answer(Answer),
    /// A message without content.
    Empty,
}

/// Why an answer could not be had.
#[derive(PartialEq, Eq, Debug)]
pub enum AskError {
    /// The stream held a message without content.
    InvalidProto,
    /// The stream ended without an answer.
    NoAnswer,
}

/// The lines printed for a message while the answer is worked out.
pub open spec fn progress_text(m: AskMessage) -> Seq<Seq<char>> {
    match m {
        AskMessage::Reason { thought } => seq!["[thinking] "@ + thought@],
        AskMessage::Search { objective, facts } => seq!["[searching] "@ + objective@]
            + facts@.map_values(|f: Fact| " - "@ + f.fact@),
        _ => Seq::empty(),
    }
}

/// Takes one message of the stream: the lines to print, and the answer so
/// far (a later answer replaces an earlier one); a message without content
/// ends the stream with an error.
pub fn ask_step(answer: Option<Answer>, message: AskMessage) -> (r: Result<(Option<Answer>, Vec<String>), AskError>)
    ensures
        message is Empty ==> r == Err::<(Option<Answer>, Vec<String>), AskError>(AskError::InvalidProto),
        message matches AskMessage::Answer(a) ==> (r matches Ok((next, lines)) && next == Some(a) && lines@.len() == 0),
        (message is Reason || message is Search) ==> (r matches Ok((next, lines)) && next == answer
            && views(lines@) == progress_text(message)),
{
    let ghost shown = progress_text(message);
    match message {
        AskMessage::Reason { thought } => {
            let mut line = "[thinking] ".to_owned();
            line.append(thought.as_str());
            let mut lines: Vec<String> = Vec::new();
            lines.push(line);
            assert(views(lines@) =~= shown);
            Ok((answer, lines))
        },
        AskMessage::Search { objective, facts } => {
            let mut line = "[searching] ".to_owned();
            line.append(objective.as_str());
            let mut lines: Vec<String> = Vec::new();
            lines.push(line);
            let mut i: usize = 0;
            while i < facts.len()
                invariant
                    i <= facts@.len(),
                    views(lines@) =~= seq!["[searching] "@ + objective@]
                        + facts@.take(i as int).map_values(|f: Fact| " - "@ + f.fact@),
                decreases facts.len() - i,
            {
                let ghost before = lines@;
                let mut l = " - ".to_owned();
                l.append(facts[i].fact.as_str());
                lines.push(l);
                assert(facts@.take(i + 1) =~= facts@.take(i as int).push(facts@[i as int]));
                assert(views(lines@) =~= views(before).push(" - "@ + facts@[i as int].fact@));
                i = i + 1;
            }
            assert(facts@.take(facts@.len() as int) =~= facts@);
            Ok((answer, lines))
        },
        AskMessage::Answer(a) => Ok((Some(a), Vec::new())),
        AskMessage::Empty => Err(AskError::InvalidProto),
    }
}

/// The result once the stream has ended: the last answer, or an error when
/// none came.
pub fn finish_ask(answer: Option<Answer>, show_refs: bool) -> (r: Result<AskResult, AskError>)
    ensures
        answer is None ==> r == Err::<AskResult, AskError>(AskError::NoAnswer),
        answer matches Some(a) ==> (r matches Ok(res) && res.facts@ == a.facts@ && res.refs@ == a.refs@
            && res.show_refs == show_refs),
{
    match answer {
        Some(a) => Ok(AskResult::from_answer(a, show_refs)),
        None => Err(AskError::NoAnswer),
    }
}

} // verus!
