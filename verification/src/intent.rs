//! Modes and intents: what one invocation asks the service to do, and what
//! follows from the chosen mode alone.

use crate::request::XSearchConfig;
use crate::request::XSearchConfigView;
use crate::text::decimal;
use crate::text::decimal_text;
use vstd::prelude::*;

verus! {

/// The model that answers without extended reasoning.
pub const MODEL: &'static str = "grok-4-1-fast-non-reasoning";

/// The model that reasons before it answers.
pub const REASONING_MODEL: &'static str = "grok-4-1-fast";

/// The number of results asked for where the caller names none.
pub const DEFAULT_MAX_RESULTS: u32 = 10;

/// What precedes the result limit in the instruction of a web search.
pub const SEARCH_INSTRUCTION_HEAD: &'static str =
    "Search for the query and return results in this exact format:\n\n---\nTITLE: [page title]\nURL: [full url]\nSNIPPET: [2-3 sentence excerpt]\n---\n\nReturn up to ";

/// What precedes the result limit in the instruction of a search on X.
pub const X_SEARCH_INSTRUCTION_HEAD: &'static str =
    "Search X for the query and return results in this exact format:\n\n---\nAUTHOR: @[handle]\nPOST: [post content]\nURL: [full x.com url]\n---\n\nReturn up to ";

/// What follows the result limit in the instruction of either search.
pub const SEARCH_INSTRUCTION_TAIL: &'static str =
    " results. No additional commentary or analysis.";

/// The instruction of a grounded answer.
pub const ASK_INSTRUCTION: &'static str =
    "Be concise and factual. Cite sources when using web information.";

/// The instruction of a deep-reasoning answer.
pub const THINK_INSTRUCTION: &'static str = "Think step by step. Be thorough and cite sources.";

/// The instruction of an answer grounded in posts on X.
pub const X_ASK_INSTRUCTION: &'static str =
    "Be concise and factual. Cite X posts when referencing discussions or opinions.";

/// What the user wants done with the query.
#[derive(Debug, Clone, Copy, PartialEq, Eq, Structural)]
pub enum Mode {
    /// A quick web search that lists results.
    Search,
    /// An answer grounded in web search.
    Ask,
    /// An answer grounded in web search, with extended reasoning.
    Think,
    /// A plain conversation, without any search.
    Chat,
    /// A search on X that lists posts.
    XSearch,
    /// An answer grounded in posts on X.
    XAsk,
}

/// The most tokens the service may write in its answer.
pub open spec fn token_budget(mode: Mode) -> u32 {
    match mode {
        Mode::Search => 4096,
        Mode::Ask => 8192,
        Mode::Think => 16384,
        Mode::Chat => 8192,
        Mode::XSearch => 4096,
        Mode::XAsk => 8192,
    }
}

/// Whether the mode searches the web.
pub open spec fn web_search_in(mode: Mode) -> bool {
    mode == Mode::Search || mode == Mode::Ask || mode == Mode::Think
}

/// Whether the mode searches X.
pub open spec fn x_search_in(mode: Mode) -> bool {
    mode == Mode::XSearch || mode == Mode::XAsk
}

/// Whether the mode asks for extended reasoning.
pub open spec fn reasoning_in(mode: Mode) -> bool {
    mode == Mode::Think
}

/// The model that serves a request, given whether it asks for extended
/// reasoning.
pub open spec fn model_for(reasoning: bool) -> Seq<char> {
    if reasoning {
        REASONING_MODEL@
    } else {
        MODEL@
    }
}

/// The model that serves the mode.
pub open spec fn model_of(mode: Mode) -> Seq<char> {
    model_for(reasoning_in(mode))
}

/// The system instruction of the mode, where it has one. The two search
/// modes name the number of results they want.
pub open spec fn instruction_of(mode: Mode, max_results: u32) -> Option<Seq<char>> {
    match mode {
        Mode::Search => Some(
            SEARCH_INSTRUCTION_HEAD@ + decimal(max_results as nat) + SEARCH_INSTRUCTION_TAIL@,
        ),
        Mode::Ask => Some(ASK_INSTRUCTION@),
        Mode::Think => Some(THINK_INSTRUCTION@),
        Mode::Chat => None,
        Mode::XSearch => Some(
            X_SEARCH_INSTRUCTION_HEAD@ + decimal(max_results as nat) + SEARCH_INSTRUCTION_TAIL@,
        ),
        Mode::XAsk => Some(X_ASK_INSTRUCTION@),
    }
}

impl Mode {
    /// The most tokens the service may write in its answer.
    pub fn max_output_tokens(self) -> (n: u32)
        ensures
            n == token_budget(self),
    {
        match self {
            Mode::Search => 4096,
            Mode::Ask => 8192,
            Mode::Think => 16384,
            Mode::Chat => 8192,
            Mode::XSearch => 4096,
            Mode::XAsk => 8192,
        }
    }

    /// Whether this mode searches the web.
    pub fn uses_web_search(self) -> (b: bool)
        ensures
            b == web_search_in(self),
    {
        match self {
            Mode::Search => true,
            Mode::Ask => true,
            Mode::Think => true,
            _ => false,
        }
    }

    /// Whether this mode searches X.
    pub fn uses_x_search(self) -> (b: bool)
        ensures
            b == x_search_in(self),
    {
        match self {
            Mode::XSearch => true,
            Mode::XAsk => true,
            _ => false,
        }
    }

    /// Whether this mode asks for extended reasoning.
    pub fn uses_reasoning(self) -> (b: bool)
        ensures
            b == reasoning_in(self),
    {
        match self {
            Mode::Think => true,
            _ => false,
        }
    }

    /// The name of the model that serves this mode.
    pub fn model(self) -> (name: &'static str)
        ensures
            name@ == model_of(self),
    {
        if self.uses_reasoning() {
            REASONING_MODEL
        } else {
            MODEL
        }
    }

    /// The system instruction of this mode for the given result limit,
    /// where the mode has one.
    pub fn system_instruction(self, max_results: u32) -> (instruction: Option<String>)
        ensures
            instruction.deep_view() == instruction_of(self, max_results),
    {
        match self {
            Mode::Search => {
                let mut s = String::from_str(SEARCH_INSTRUCTION_HEAD);
                let limit = decimal_text(max_results as u64);
                s.append(limit.as_str());
                s.append(SEARCH_INSTRUCTION_TAIL);
                Some(s)
            },
            Mode::Ask => Some(String::from_str(ASK_INSTRUCTION)),
            Mode::Think => Some(String::from_str(THINK_INSTRUCTION)),
            Mode::Chat => None,
            Mode::XSearch => {
                let mut s = String::from_str(X_SEARCH_INSTRUCTION_HEAD);
                let limit = decimal_text(max_results as u64);
                s.append(limit.as_str());
                s.append(SEARCH_INSTRUCTION_TAIL);
                Some(s)
            },
            Mode::XAsk => Some(String::from_str(X_ASK_INSTRUCTION)),
        }
    }
}

/// What one invocation asks the service to do.
#[derive(Debug, Clone)]
pub struct Intent {
    pub mode: Mode,
    /// The user's query, passed on as it is.
    pub query: String,
    /// The id of the response that this query follows up on.
    pub previous_response_id: Option<String>,
    /// The filters of a search on X.
    pub x_search: Option<XSearchConfig>,
    /// The number of results a search mode asks for.
    pub max_results: u32,
}

/// What an [`Intent`] holds.
pub ghost struct IntentView {
    pub mode: Mode,
    pub query: Seq<char>,
    pub previous_response_id: Option<Seq<char>>,
    pub x_search: Option<XSearchConfigView>,
    pub max_results: u32,
}

impl View for Intent {
    type V = IntentView;

    open spec fn view(&self) -> IntentView {
        IntentView {
            mode: self.mode,
            query: self.query@,
            previous_response_id: self.previous_response_id.deep_view(),
            x_search: self.x_search.deep_view(),
            max_results: self.max_results,
        }
    }
}

} // verus!
