//! Mode resolution: from what the command line supplied to the one intent
//! of an invocation.
//!
//! A mode is chosen by one of six shorthand flags or by a subcommand.
//! Exactly one of the seven must be given: none is an error, and so is more
//! than one.

use crate::format::OutputFormat;
use crate::intent::x_search_in;
use crate::intent::Intent;
use crate::intent::IntentView;
use crate::intent::Mode;
use crate::intent::DEFAULT_MAX_RESULTS;
use crate::request::clone_handles;
use crate::request::XSearchConfig;
use crate::request::XSearchConfigView;
use vstd::prelude::*;

verus! {

/// Why an invocation cannot be carried out as it was configured.
#[derive(Debug, Clone, Copy, PartialEq, Eq, Structural)]
pub enum ConfigError {
    /// No mode was chosen.
    NoMode,
    /// More than one mode was chosen.
    AmbiguousMode,
    /// No API key was supplied.
    MissingApiKey,
}

/// What is said where no mode was chosen.
pub const NO_MODE_MESSAGE: &'static str = "No command or query provided. Use --help for usage.";

/// What is said where more than one mode was chosen.
pub const AMBIGUOUS_MODE_MESSAGE: &'static str =
    "More than one mode selected. Give exactly one command or query flag.";

/// What is said where no API key was supplied.
pub const MISSING_API_KEY_MESSAGE: &'static str =
    "XAI_API_KEY environment variable not set. Get your key from https://console.x.ai/";

/// The words for an error of configuration.
pub open spec fn config_message(e: ConfigError) -> Seq<char> {
    match e {
        ConfigError::NoMode => NO_MODE_MESSAGE@,
        ConfigError::AmbiguousMode => AMBIGUOUS_MODE_MESSAGE@,
        ConfigError::MissingApiKey => MISSING_API_KEY_MESSAGE@,
    }
}

impl ConfigError {
    /// The words for this error.
    pub fn message(&self) -> (text: String)
        ensures
            text@ == config_message(*self),
    {
        match self {
            ConfigError::NoMode => String::from_str(NO_MODE_MESSAGE),
            ConfigError::AmbiguousMode => String::from_str(AMBIGUOUS_MODE_MESSAGE),
            ConfigError::MissingApiKey => String::from_str(MISSING_API_KEY_MESSAGE),
        }
    }
}

/// A mode chosen by subcommand, with the subcommand's own options.
#[derive(Debug, Clone)]
pub enum Commands {
    Search { query: String, max_results: u32 },
    Ask { query: String, response_id: Option<String> },
    Think { query: String, response_id: Option<String> },
    Chat { query: String, response_id: Option<String> },
    XSearch { query: String, max_results: u32, filter: XSearchConfig },
    XAsk { query: String, response_id: Option<String>, filter: XSearchConfig },
}

/// What a [`Commands`] holds.
pub ghost enum CommandsView {
    Search { query: Seq<char>, max_results: u32 },
    Ask { query: Seq<char>, response_id: Option<Seq<char>> },
    Think { query: Seq<char>, response_id: Option<Seq<char>> },
    Chat { query: Seq<char>, response_id: Option<Seq<char>> },
    XSearch { query: Seq<char>, max_results: u32, filter: XSearchConfigView },
    XAsk { query: Seq<char>, response_id: Option<Seq<char>>, filter: XSearchConfigView },
}

impl View for Commands {
    type V = CommandsView;

    open spec fn view(&self) -> CommandsView {
        match self {
            Commands::Search { query, max_results } => CommandsView::Search {
                query: query@,
                max_results: *max_results,
            },
            Commands::Ask { query, response_id } => CommandsView::Ask {
                query: query@,
                response_id: response_id.deep_view(),
            },
            Commands::Think { query, response_id } => CommandsView::Think {
                query: query@,
                response_id: response_id.deep_view(),
            },
            Commands::Chat { query, response_id } => CommandsView::Chat {
                query: query@,
                response_id: response_id.deep_view(),
            },
            Commands::XSearch { query, max_results, filter } => CommandsView::XSearch {
                query: query@,
                max_results: *max_results,
                filter: filter@,
            },
            Commands::XAsk { query, response_id, filter } => CommandsView::XAsk {
                query: query@,
                response_id: response_id.deep_view(),
                filter: filter@,
            },
        }
    }
}

impl DeepView for Commands {
    type V = CommandsView;

    open spec fn deep_view(&self) -> CommandsView {
        self@
    }
}

/// What the command line supplied.
#[derive(Debug, Clone)]
pub struct Cli {
    /// The subcommand, if one was given.
    pub command: Option<Commands>,
    /// The query of the shorthand flag for a web search.
    pub search: Option<String>,
    /// The query of the shorthand flag for a grounded answer.
    pub ask: Option<String>,
    /// The query of the shorthand flag for a deep-reasoning answer.
    pub think: Option<String>,
    /// The query of the shorthand flag for a plain conversation.
    pub chat: Option<String>,
    /// The query of the shorthand flag for a search on X.
    pub x_search: Option<String>,
    /// The query of the shorthand flag for an answer grounded in X.
    pub x_ask: Option<String>,
    /// The id of the response to follow up on, for a shorthand flag.
    pub response_id: Option<String>,
    /// The filters of a search on X, for a shorthand flag.
    pub filter: XSearchConfig,
    /// How the reply is printed.
    pub output: OutputFormat,
}

/// What a [`Cli`] holds.
pub ghost struct CliView {
    pub command: Option<CommandsView>,
    pub search: Option<Seq<char>>,
    pub ask: Option<Seq<char>>,
    pub think: Option<Seq<char>>,
    pub chat: Option<Seq<char>>,
    pub x_search: Option<Seq<char>>,
    pub x_ask: Option<Seq<char>>,
    pub response_id: Option<Seq<char>>,
    pub filter: XSearchConfigView,
    pub output: OutputFormat,
}

impl View for Cli {
    type V = CliView;

    open spec fn view(&self) -> CliView {
        CliView {
            command: self.command.deep_view(),
            search: self.search.deep_view(),
            ask: self.ask.deep_view(),
            think: self.think.deep_view(),
            chat: self.chat.deep_view(),
            x_search: self.x_search.deep_view(),
            x_ask: self.x_ask.deep_view(),
            response_id: self.response_id.deep_view(),
            filter: self.filter@,
            output: self.output,
        }
    }
}

/// One where the flag was given, zero where it was not.
pub open spec fn given(flag: Option<Seq<char>>) -> nat {
    if flag is Some {
        1
    } else {
        0
    }
}

/// The number of modes that the command line chose.
pub open spec fn modes_chosen(cli: CliView) -> nat {
    given(cli.search) + given(cli.ask) + given(cli.think) + given(cli.chat) + given(cli.x_search)
        + given(cli.x_ask) + if cli.command is Some {
        1nat
    } else {
        0nat
    }
}

/// The intent of a shorthand flag: the top-level response id, the
/// top-level filters where the mode searches X, and the default number of
/// results.
pub open spec fn shorthand_intent(mode: Mode, query: Seq<char>, cli: CliView) -> IntentView {
    IntentView {
        mode,
        query,
        previous_response_id: cli.response_id,
        x_search: if x_search_in(mode) {
            Some(cli.filter)
        } else {
            None
        },
        max_results: DEFAULT_MAX_RESULTS,
    }
}

/// The intent of a subcommand: its own options and nothing of the top
/// level. The two search subcommands start a new conversation.
pub open spec fn command_intent(command: CommandsView) -> IntentView {
    match command {
        CommandsView::Search { query, max_results } => IntentView {
            mode: Mode::Search,
            query,
            previous_response_id: None,
            x_search: None,
            max_results,
        },
        CommandsView::Ask { query, response_id } => IntentView {
            mode: Mode::Ask,
            query,
            previous_response_id: response_id,
            x_search: None,
            max_results: DEFAULT_MAX_RESULTS,
        },
        CommandsView::Think { query, response_id } => IntentView {
            mode: Mode::Think,
            query,
            previous_response_id: response_id,
            x_search: None,
            max_results: DEFAULT_MAX_RESULTS,
        },
        CommandsView::Chat { query, response_id } => IntentView {
            mode: Mode::Chat,
            query,
            previous_response_id: response_id,
            x_search: None,
            max_results: DEFAULT_MAX_RESULTS,
        },
        CommandsView::XSearch { query, max_results, filter } => IntentView {
            mode: Mode::XSearch,
            query,
            previous_response_id: None,
            x_search: Some(filter),
            max_results,
        },
        CommandsView::XAsk { query, response_id, filter } => IntentView {
            mode: Mode::XAsk,
            query,
            previous_response_id: response_id,
            x_search: Some(filter),
            max_results: DEFAULT_MAX_RESULTS,
        },
    }
}

/// The intent of the one mode that was chosen, whichever it is.
pub open spec fn chosen_intent(cli: CliView) -> IntentView {
    if cli.search is Some {
        shorthand_intent(Mode::Search, cli.search->0, cli)
    } else if cli.ask is Some {
        shorthand_intent(Mode::Ask, cli.ask->0, cli)
    } else if cli.think is Some {
        shorthand_intent(Mode::Think, cli.think->0, cli)
    } else if cli.chat is Some {
        shorthand_intent(Mode::Chat, cli.chat->0, cli)
    } else if cli.x_search is Some {
        shorthand_intent(Mode::XSearch, cli.x_search->0, cli)
    } else if cli.x_ask is Some {
        shorthand_intent(Mode::XAsk, cli.x_ask->0, cli)
    } else {
        command_intent(cli.command->0)
    }
}

/// The intent of a command line, or why it has none.
pub open spec fn resolved(cli: CliView) -> Result<IntentView, ConfigError> {
    if modes_chosen(cli) == 0 {
        Err(ConfigError::NoMode)
    } else if modes_chosen(cli) > 1 {
        Err(ConfigError::AmbiguousMode)
    } else {
        Ok(chosen_intent(cli))
    }
}

/// What a resolution gave, with the intent taken by its view.
pub open spec fn resolution_view(r: Result<Intent, ConfigError>) -> Result<
    IntentView,
    ConfigError,
> {
    match r {
        Ok(intent) => Ok(intent@),
        Err(e) => Err(e),
    }
}

/// A copy of one of the filters.
fn copy_filter(filter: &XSearchConfig) -> (copy: XSearchConfig)
    ensures
        copy@ == filter@,
{
    XSearchConfig {
        allowed_handles: clone_handles(&filter.allowed_handles),
        excluded_handles: clone_handles(&filter.excluded_handles),
        from_date: filter.from_date.clone(),
        to_date: filter.to_date.clone(),
        enable_images: filter.enable_images,
        enable_video: filter.enable_video,
    }
}

/// One where the flag was given, zero where it was not.
fn count_flag(flag: &Option<String>) -> (n: u8)
    ensures
        n == given(flag.deep_view()),
{
    match flag {
        Some(_) => 1,
        None => 0,
    }
}

/// The intent of a shorthand flag.
fn intent_of_flag(mode: Mode, query: &String, cli: &Cli) -> (intent: Intent)
    ensures
        intent@ == shorthand_intent(mode, query@, cli@),
{
    Intent {
        mode,
        query: query.clone(),
        previous_response_id: cli.response_id.clone(),
        x_search: if mode.uses_x_search() {
            Some(copy_filter(&cli.filter))
        } else {
            None
        },
        max_results: DEFAULT_MAX_RESULTS,
    }
}

/// The intent of a subcommand.
fn intent_of_command(command: &Commands) -> (intent: Intent)
    ensures
        intent@ == command_intent(command@),
{
    match command {
        Commands::Search { query, max_results } => Intent {
            mode: Mode::Search,
            query: query.clone(),
            previous_response_id: None,
            x_search: None,
            max_results: *max_results,
        },
        Commands::Ask { query, response_id } => Intent {
            mode: Mode::Ask,
            query: query.clone(),
            previous_response_id: response_id.clone(),
            x_search: None,
            max_results: DEFAULT_MAX_RESULTS,
        },
        Commands::Think { query, response_id } => Intent {
            mode: Mode::Think,
            query: query.clone(),
            previous_response_id: response_id.clone(),
            x_search: None,
            max_results: DEFAULT_MAX_RESULTS,
        },
        Commands::Chat { query, response_id } => Intent {
            mode: Mode::Chat,
            query: query.clone(),
            previous_response_id: response_id.clone(),
            x_search: None,
            max_results: DEFAULT_MAX_RESULTS,
        },
        Commands::XSearch { query, max_results, filter } => Intent {
            mode: Mode::XSearch,
            query: query.clone(),
            previous_response_id: None,
            x_search: Some(copy_filter(filter)),
            max_results: *max_results,
        },
        Commands::XAsk { query, response_id, filter } => Intent {
            mode: Mode::XAsk,
            query: query.clone(),
            previous_response_id: response_id.clone(),
            x_search: Some(copy_filter(filter)),
            max_results: DEFAULT_MAX_RESULTS,
        },
    }
}

/// Resolves what the command line supplied into the intent of the
/// invocation. Fails where no mode or more than one mode was chosen.
pub fn resolve(cli: &Cli) -> (r: Result<Intent, ConfigError>)
    ensures
        resolution_view(r) == resolved(cli@),
{
    let flags: u8 = count_flag(&cli.search) + count_flag(&cli.ask) + count_flag(&cli.think)
        + count_flag(&cli.chat) + count_flag(&cli.x_search) + count_flag(&cli.x_ask);
    let chosen: u8 = match &cli.command {
        Some(_) => flags + 1,
        None => flags,
    };
    if chosen == 0 {
        return Err(ConfigError::NoMode);
    }
    if chosen > 1 {
        return Err(ConfigError::AmbiguousMode);
    }
    if let Some(query) = &cli.search {
        Ok(intent_of_flag(Mode::Search, query, cli))
    } else if let Some(query) = &cli.ask {
        Ok(intent_of_flag(Mode::Ask, query, cli))
    } else if let Some(query) = &cli.think {
        Ok(intent_of_flag(Mode::Think, query, cli))
    } else if let Some(query) = &cli.chat {
        Ok(intent_of_flag(Mode::Chat, query, cli))
    } else if let Some(query) = &cli.x_search {
        Ok(intent_of_flag(Mode::XSearch, query, cli))
    } else if let Some(query) = &cli.x_ask {
        Ok(intent_of_flag(Mode::XAsk, query, cli))
    } else {
        match &cli.command {
            Some(command) => Ok(intent_of_command(command)),
            None => Err(ConfigError::NoMode),
        }
    }
}

/// The API key to use, given what the environment supplied: the key where
/// there is one, and otherwise the error that says it is missing.
pub fn require_api_key(key: Option<String>) -> (r: Result<String, ConfigError>)
    ensures
        r == match key {
            Some(k) => Ok::<String, ConfigError>(k),
            None => Err::<String, ConfigError>(ConfigError::MissingApiKey),
        },
{
    match key {
        Some(k) => Ok(k),
        None => Err(ConfigError::MissingApiKey),
    }
}

} // verus!
