//! The documentation of one function, read from its doc comment.

use crate::docs::dictionary::Dictionary;
use crate::docs::markdown::{markdown_events, parse_markdown, DocEvent, DocEventView};
use crate::text::{lowercased, remove_char, same_text, to_lowercase, trim, trimmed};
use vstd::prelude::*;
use vstd::string::*;

verus! {

/// Function documentation.
#[derive(Debug, Clone, PartialEq, Eq)]
pub struct Function {
    /// What the function does.
    pub description: String,
    /// What each argument is, by the argument's name.
    pub arguments_descriptions: Dictionary<String>,
    /// What the function returns, if the comment says so.
    pub return_description: Option<String>,
}

/// The mathematical value of a [`Function`].
pub struct FunctionView {
    pub description: Seq<char>,
    pub arguments_descriptions: Map<Seq<char>, Seq<char>>,
    pub return_description: Option<Seq<char>>,
}

impl DeepView for Function {
    type V = FunctionView;

    open spec fn deep_view(&self) -> FunctionView {
        FunctionView {
            description: self.description@,
            arguments_descriptions: self.arguments_descriptions.deep_view(),
            return_description: match self.return_description {
                Some(r) => Some(r@),
                None => None,
            },
        }
    }
}

/// The part of a doc comment that is being read. Each heading of the first
/// level ends a part and starts the next; the last part has no end. A
/// heading of another level ends nothing.
#[derive(Debug, Clone, Copy, PartialEq, Eq, Structural)]
pub enum ParseStage {
    Description,
    Arguments,
    ReturnDescription,
}

/// The part that follows `stage` at a heading.
pub open spec fn next_stage(stage: ParseStage) -> ParseStage {
    match stage {
        ParseStage::Description => ParseStage::Arguments,
        ParseStage::Arguments => ParseStage::ReturnDescription,
        ParseStage::ReturnDescription => ParseStage::ReturnDescription,
    }
}

/// What has been read of a doc comment.
pub struct Gathered {
    /// The part that is being read.
    pub stage: ParseStage,
    /// The text runs of the description, each with a line feed after it.
    pub description: Seq<char>,
    /// The inline code spans, which name the arguments.
    pub names: Seq<Seq<char>>,
    /// The text runs of the arguments part, but for its title.
    pub values: Seq<Seq<char>>,
    /// The text runs of the last part, but for its title, each with a line
    /// feed after it.
    pub returned: Seq<char>,
}

/// Nothing read yet.
pub open spec fn nothing_gathered() -> Gathered {
    Gathered {
        stage: ParseStage::Description,
        description: Seq::empty(),
        names: Seq::empty(),
        values: Seq::empty(),
        returned: Seq::empty(),
    }
}

/// What has been read after one more run of text, `t`, whose lower-case
/// form is `lowered`. In the description every run is kept. In the two
/// parts under a heading the run that is the title of the part, whatever
/// its case, is passed over, and every other run is kept.
pub open spec fn gather_text(g: Gathered, t: Seq<char>, lowered: Seq<char>) -> Gathered {
    match g.stage {
        ParseStage::Description => Gathered { description: g.description + t + seq!['\n'], ..g },
        ParseStage::Arguments => if lowered == "arguments"@ {
            g
        } else {
            Gathered { values: g.values.push(t), ..g }
        },
        ParseStage::ReturnDescription => if lowered == "returns"@ {
            g
        } else {
            Gathered { returned: g.returned + t + seq!['\n'], ..g }
        },
    }
}

/// What has been read after one more event.
pub open spec fn gather(g: Gathered, event: DocEventView) -> Gathered {
    match event {
        DocEventView::Heading(level) => if level == 1 {
            Gathered { stage: next_stage(g.stage), ..g }
        } else {
            g
        },
        DocEventView::Text(t) => gather_text(g, t, lowercased(t)),
        DocEventView::Code(c) => Gathered { names: g.names.push(c), ..g },
        DocEventView::Other => g,
    }
}

/// What has been read after all of `events`.
pub open spec fn gathered(events: Seq<DocEventView>) -> Gathered
    decreases events.len(),
{
    if events.len() == 0 {
        nothing_gathered()
    } else {
        gather(gathered(events.drop_last()), events.last())
    }
}

/// The description of an argument as it is kept: without hyphens, and
/// without white space around it.
pub open spec fn cleaned(value: Seq<char>) -> Seq<char> {
    trimmed(value.filter(|x: char| x != '-'))
}

/// The first `n` names, each with the cleaned value at the same place. A
/// name that comes again takes the later value.
pub open spec fn paired(names: Seq<Seq<char>>, values: Seq<Seq<char>>, n: nat) -> Map<
    Seq<char>,
    Seq<char>,
>
    decreases n,
{
    if n == 0 {
        Map::empty()
    } else {
        paired(names, values, (n - 1) as nat).insert(names[n - 1], cleaned(values[n - 1]))
    }
}

/// The smaller of two lengths.
pub open spec fn shorter(a: nat, b: nat) -> nat {
    if a < b {
        a
    } else {
        b
    }
}

/// The documentation that the doc comment `s` with the events `events`
/// gives. A comment with neither arguments nor a return part is its own
/// description, word for word.
pub open spec fn function_of(s: Seq<char>, events: Seq<DocEventView>) -> FunctionView {
    let g = gathered(events);
    let arguments = paired(g.names, g.values, shorter(g.names.len(), g.values.len()));
    let returned = if g.returned.len() == 0 {
        None
    } else {
        Some(g.returned)
    };
    FunctionView {
        description: if arguments == Map::<Seq<char>, Seq<char>>::empty() && returned is None {
            s
        } else {
            g.description
        },
        arguments_descriptions: arguments,
        return_description: returned,
    }
}

/// What has been read of a doc comment so far.
#[derive(Debug, Clone, PartialEq, Eq)]
pub struct Gathering {
    /// The part that is being read.
    pub stage: ParseStage,
    /// The text runs of the description, each with a line feed after it.
    pub description: String,
    /// The inline code spans, which name the arguments.
    pub names: Vec<String>,
    /// The text runs of the arguments part, but for its title.
    pub values: Vec<String>,
    /// The text runs of the last part, but for its title, each with a line
    /// feed after it.
    pub returned: String,
}

impl DeepView for Gathering {
    type V = Gathered;

    open spec fn deep_view(&self) -> Gathered {
        Gathered {
            stage: self.stage,
            description: self.description@,
            names: self.names.deep_view(),
            values: self.values.deep_view(),
            returned: self.returned@,
        }
    }
}

impl Gathering {
    /// Nothing read yet.
    pub fn new() -> (r: Gathering)
        ensures
            r.deep_view() == nothing_gathered(),
    {
        let r = Gathering {
            stage: ParseStage::Description,
            description: String::new(),
            names: Vec::new(),
            values: Vec::new(),
            returned: String::new(),
        };
        assert(r.names.deep_view() == Seq::<Seq<char>>::empty());
        assert(r.values.deep_view() == Seq::<Seq<char>>::empty());
        r
    }

    /// Takes one more run of text, of which `lowered` is the lower-case
    /// form.
    pub fn take_text(&mut self, text: &str, lowered: &str)
        ensures
            final(self).deep_view() == gather_text(old(self).deep_view(), text@, lowered@),
    {
        proof {
            reveal_strlit("\n");
            assert("\n"@ == seq!['\n']);
        }
        match self.stage {
            ParseStage::Description => {
                self.description.append(text);
                self.description.append("\n");
                assert(self.description@ == old(self).description@ + text@ + seq!['\n']);
            },
            ParseStage::Arguments => {
                if !same_text(lowered, "arguments") {
                    let ghost before = self.values.deep_view();
                    self.values.push(text.to_owned());
                    assert(self.values.deep_view() == before.push(text@));
                }
            },
            ParseStage::ReturnDescription => {
                if !same_text(lowered, "returns") {
                    self.returned.append(text);
                    self.returned.append("\n");
                    assert(self.returned@ == old(self).returned@ + text@ + seq!['\n']);
                }
            },
        }
    }

    /// Takes one more event.
    pub fn take(&mut self, event: &DocEvent)
        ensures
            final(self).deep_view() == gather(old(self).deep_view(), event.deep_view()),
    {
        match event {
            DocEvent::Heading(level) => {
                if *level == 1 {
                    self.stage = match self.stage {
                        ParseStage::Description => ParseStage::Arguments,
                        ParseStage::Arguments => ParseStage::ReturnDescription,
                        ParseStage::ReturnDescription => ParseStage::ReturnDescription,
                    };
                }
            },
            DocEvent::Text(t) => match self.stage {
                // The description has no title to tell from its text.
                ParseStage::Description => self.take_text(t.as_str(), t.as_str()),
                _ => {
                    let lowered = to_lowercase(t.as_str());
                    self.take_text(t.as_str(), lowered.as_str());
                },
            },
            DocEvent::Code(c) => {
                let ghost before = self.names.deep_view();
                self.names.push(c.clone());
                assert(self.names.deep_view() == before.push(c@));
            },
            DocEvent::Other => {},
        }
    }
}

impl Function {
    /// Reads the documentation of a function from its doc comment `s`, of
    /// which `events` are the Markdown events.
    pub fn from_events(s: &str, events: &Vec<DocEvent>) -> (r: Function)
        ensures
            r.deep_view() == function_of(s@, events.deep_view()),
    {
        let mut gathering = Gathering::new();
        let ghost seen = events.deep_view();
        let mut i: usize = 0;
        while i < events.len()
            invariant
                i <= events@.len(),
                seen == events.deep_view(),
                gathering.deep_view() == gathered(seen.take(i as int)),
            decreases events@.len() - i,
        {
            proof {
                assert(seen.take(i + 1).drop_last() == seen.take(i as int));
            }
            gathering.take(&events[i]);
            i += 1;
        }
        assert(seen.take(i as int) == seen);
        let ghost g = gathered(seen);
        let Gathering { stage: _, description, names, values, returned } = gathering;

        let mut arguments_descriptions: Dictionary<String> = Dictionary::new();
        let count = if names.len() < values.len() {
            names.len()
        } else {
            values.len()
        };
        let mut k: usize = 0;
        while k < count
            invariant
                k <= count,
                count == shorter(names@.len(), values@.len()),
                g.names == names.deep_view(),
                g.values == values.deep_view(),
                arguments_descriptions.deep_view() == paired(g.names, g.values, k as nat),
            decreases count - k,
        {
            let without_hyphens = remove_char(values[k].as_str(), '-');
            let value = trim(without_hyphens.as_str()).to_owned();
            arguments_descriptions.insert(names[k].clone(), value);
            k += 1;
        }
        let no_arguments = arguments_descriptions.is_empty();
        let return_description = if returned.as_str().is_empty() {
            None
        } else {
            Some(returned)
        };
        if no_arguments && return_description.is_none() {
            return Function { description: s.to_owned(), arguments_descriptions, return_description };
        }
        Function { description, arguments_descriptions, return_description }
    }

    /// Reads the documentation of a function from its doc comment: the
    /// description up to the first heading, the arguments under that
    /// heading, and what is returned under the next.
    pub fn from_str(s: &str) -> (r: Function)
        ensures
            r.deep_view() == function_of(s@, markdown_events(s@)),
    {
        let events = parse_markdown(s);
        Function::from_events(s, &events)
    }
}

} // verus!
