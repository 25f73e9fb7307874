//! The wire request: messages, search-tool descriptors, and the form in
//! which they are sent.
//!
//! A field that is unset is left out of the wire form altogether; it is
//! never sent as `null`, and an empty tool list is not sent at all.

use crate::intent::instruction_of;
use crate::intent::model_of;
use crate::intent::token_budget;
use crate::intent::web_search_in;
use crate::intent::x_search_in;
use crate::intent::Intent;
use crate::intent::IntentView;
use crate::json::bool_value;
use crate::json::compact_text;
use crate::json::items_data;
use crate::json::json_data;
use crate::json::list_value;
use crate::json::no_entries;
use crate::json::number_value;
use crate::json::put_entry;
use crate::json::record_value;
use crate::json::text_value;
use crate::json::to_compact_text;
use crate::json::JsonData;
use vstd::prelude::*;

verus! {

/// The `type` tag of a web-search descriptor.
pub const WEB_SEARCH: &'static str = "web_search";

/// The `type` tag of an x-search descriptor.
pub const X_SEARCH: &'static str = "x_search";

/// The role of the message that carries the system instruction.
pub const SYSTEM_ROLE: &'static str = "system";

/// The role of the message that carries the query.
pub const USER_ROLE: &'static str = "user";

/// One message of a request.
#[derive(Debug, Clone)]
pub struct Message {
    pub role: String,
    pub content: String,
}

/// What a [`Message`] holds.
pub ghost struct MessageView {
    pub role: Seq<char>,
    pub content: Seq<char>,
}

impl View for Message {
    type V = MessageView;

    open spec fn view(&self) -> MessageView {
        MessageView { role: self.role@, content: self.content@ }
    }
}

impl DeepView for Message {
    type V = MessageView;

    open spec fn deep_view(&self) -> MessageView {
        self@
    }
}

/// The descriptor that enables web search.
#[derive(Debug, Clone)]
pub struct WebSearchTool {
    pub kind: String,
    pub enable_image_understanding: Option<bool>,
}

/// What a [`WebSearchTool`] holds.
pub ghost struct WebSearchToolView {
    pub kind: Seq<char>,
    pub enable_image_understanding: Option<bool>,
}

impl View for WebSearchTool {
    type V = WebSearchToolView;

    open spec fn view(&self) -> WebSearchToolView {
        WebSearchToolView {
            kind: self.kind@,
            enable_image_understanding: self.enable_image_understanding,
        }
    }
}

/// The descriptor that enables search on X, with its filters.
#[derive(Debug, Clone)]
pub struct XSearchTool {
    pub kind: String,
    pub allowed_x_handles: Option<Vec<String>>,
    pub excluded_x_handles: Option<Vec<String>>,
    pub from_date: Option<String>,
    pub to_date: Option<String>,
    pub enable_image_understanding: Option<bool>,
    pub enable_video_understanding: Option<bool>,
}

/// What an [`XSearchTool`] holds.
pub ghost struct XSearchToolView {
    pub kind: Seq<char>,
    pub allowed_x_handles: Option<Seq<Seq<char>>>,
    pub excluded_x_handles: Option<Seq<Seq<char>>>,
    pub from_date: Option<Seq<char>>,
    pub to_date: Option<Seq<char>>,
    pub enable_image_understanding: Option<bool>,
    pub enable_video_understanding: Option<bool>,
}

impl View for XSearchTool {
    type V = XSearchToolView;

    open spec fn view(&self) -> XSearchToolView {
        XSearchToolView {
            kind: self.kind@,
            allowed_x_handles: self.allowed_x_handles.deep_view(),
            excluded_x_handles: self.excluded_x_handles.deep_view(),
            from_date: self.from_date.deep_view(),
            to_date: self.to_date.deep_view(),
            enable_image_understanding: self.enable_image_understanding,
            enable_video_understanding: self.enable_video_understanding,
        }
    }
}

/// A search-tool descriptor. That it stands in a request's tool list is
/// what enables the tool.
#[derive(Debug, Clone)]
pub enum Tool {
    WebSearch(WebSearchTool),
    XSearch(XSearchTool),
}

/// What a [`Tool`] holds.
pub ghost enum ToolView {
    WebSearch(WebSearchToolView),
    XSearch(XSearchToolView),
}

impl View for Tool {
    type V = ToolView;

    open spec fn view(&self) -> ToolView {
        match self {
            Tool::WebSearch(t) => ToolView::WebSearch(t@),
            Tool::XSearch(t) => ToolView::XSearch(t@),
        }
    }
}

impl DeepView for Tool {
    type V = ToolView;

    open spec fn deep_view(&self) -> ToolView {
        self@
    }
}

/// A complete request as it goes over the wire.
#[derive(Debug, Clone)]
pub struct GrokRequest {
    pub model: String,
    pub input: Vec<Message>,
    pub store: bool,
    pub max_output_tokens: Option<u32>,
    pub previous_response_id: Option<String>,
    pub tools: Vec<Tool>,
}

/// What a [`GrokRequest`] holds.
pub ghost struct GrokRequestView {
    pub model: Seq<char>,
    pub input: Seq<MessageView>,
    pub store: bool,
    pub max_output_tokens: Option<u32>,
    pub previous_response_id: Option<Seq<char>>,
    pub tools: Seq<ToolView>,
}

impl View for GrokRequest {
    type V = GrokRequestView;

    open spec fn view(&self) -> GrokRequestView {
        GrokRequestView {
            model: self.model@,
            input: self.input.deep_view(),
            store: self.store,
            max_output_tokens: self.max_output_tokens,
            previous_response_id: self.previous_response_id.deep_view(),
            tools: self.tools.deep_view(),
        }
    }
}

/// The filters of a search on X, as the user gave them.
#[derive(Debug, Clone)]
pub struct XSearchConfig {
    /// Only posts from these handles are searched.
    pub allowed_handles: Option<Vec<String>>,
    /// Posts from these handles are left out.
    pub excluded_handles: Option<Vec<String>>,
    /// The first day of the search, as the user wrote it.
    pub from_date: Option<String>,
    /// The last day of the search, as the user wrote it.
    pub to_date: Option<String>,
    /// Whether images in posts are looked at.
    pub enable_images: bool,
    /// Whether videos in posts are looked at.
    pub enable_video: bool,
}

/// What an [`XSearchConfig`] holds.
pub ghost struct XSearchConfigView {
    pub allowed_handles: Option<Seq<Seq<char>>>,
    pub excluded_handles: Option<Seq<Seq<char>>>,
    pub from_date: Option<Seq<char>>,
    pub to_date: Option<Seq<char>>,
    pub enable_images: bool,
    pub enable_video: bool,
}

impl View for XSearchConfig {
    type V = XSearchConfigView;

    open spec fn view(&self) -> XSearchConfigView {
        XSearchConfigView {
            allowed_handles: self.allowed_handles.deep_view(),
            excluded_handles: self.excluded_handles.deep_view(),
            from_date: self.from_date.deep_view(),
            to_date: self.to_date.deep_view(),
            enable_images: self.enable_images,
            enable_video: self.enable_video,
        }
    }
}

impl DeepView for XSearchConfig {
    type V = XSearchConfigView;

    open spec fn deep_view(&self) -> XSearchConfigView {
        self@
    }
}

/// The filters that filter nothing.
pub open spec fn no_filter() -> XSearchConfigView {
    XSearchConfigView {
        allowed_handles: None,
        excluded_handles: None,
        from_date: None,
        to_date: None,
        enable_images: false,
        enable_video: false,
    }
}

impl Default for XSearchConfig {
    fn default() -> (config: XSearchConfig)
        ensures
            config@ == no_filter(),
    {
        XSearchConfig {
            allowed_handles: None,
            excluded_handles: None,
            from_date: None,
            to_date: None,
            enable_images: false,
            enable_video: false,
        }
    }
}

/// The flag of a descriptor for a switch of the user: present and true
/// where the switch is on, absent where it is off.
pub open spec fn switch_flag(on: bool) -> Option<bool> {
    if on {
        Some(true)
    } else {
        None
    }
}

/// The web-search descriptor. Its image flag is never set.
pub open spec fn web_search_tool() -> WebSearchToolView {
    WebSearchToolView { kind: WEB_SEARCH@, enable_image_understanding: None }
}

/// The x-search descriptor for the given filters.
pub open spec fn x_search_tool(c: XSearchConfigView) -> XSearchToolView {
    XSearchToolView {
        kind: X_SEARCH@,
        allowed_x_handles: c.allowed_handles,
        excluded_x_handles: c.excluded_handles,
        from_date: c.from_date,
        to_date: c.to_date,
        enable_image_understanding: switch_flag(c.enable_images),
        enable_video_understanding: switch_flag(c.enable_video),
    }
}

/// The filters to apply where the caller may have given none.
pub open spec fn filter_or_none(filter: Option<XSearchConfigView>) -> XSearchConfigView {
    match filter {
        Some(c) => c,
        None => no_filter(),
    }
}

/// The tool list for the given capabilities: the web-search descriptor
/// first if web search is on, then the x-search descriptor if search on X
/// is on.
pub open spec fn composed_tools(
    uses_web_search: bool,
    uses_x_search: bool,
    filter: Option<XSearchConfigView>,
) -> Seq<ToolView> {
    let web = if uses_web_search {
        seq![ToolView::WebSearch(web_search_tool())]
    } else {
        Seq::empty()
    };
    let x = if uses_x_search {
        seq![ToolView::XSearch(x_search_tool(filter_or_none(filter)))]
    } else {
        Seq::empty()
    };
    web + x
}

/// The messages of a request: the system instruction, where there is one,
/// and then the query.
pub open spec fn messages_of(instruction: Option<Seq<char>>, query: Seq<char>) -> Seq<
    MessageView,
> {
    let user = MessageView { role: USER_ROLE@, content: query };
    match instruction {
        Some(text) => seq![MessageView { role: SYSTEM_ROLE@, content: text }, user],
        None => seq![user],
    }
}

/// The request that carries an intent with the given tools.
pub open spec fn built_request(intent: IntentView, tools: Seq<ToolView>) -> GrokRequestView {
    GrokRequestView {
        model: model_of(intent.mode),
        input: messages_of(instruction_of(intent.mode, intent.max_results), intent.query),
        store: true,
        max_output_tokens: Some(token_budget(intent.mode)),
        previous_response_id: intent.previous_response_id,
        tools,
    }
}

/// The request that carries an intent, with the tools of its mode.
pub open spec fn created_request(intent: IntentView) -> GrokRequestView {
    built_request(
        intent,
        composed_tools(web_search_in(intent.mode), x_search_in(intent.mode), intent.x_search),
    )
}

/// Builds the tool list for the given capabilities and filters.
pub fn compose_tools(
    uses_web_search: bool,
    uses_x_search: bool,
    filter: Option<XSearchConfig>,
) -> (tools: Vec<Tool>)
    ensures
        tools.deep_view() == composed_tools(uses_web_search, uses_x_search, filter.deep_view()),
{
    let mut tools: Vec<Tool> = Vec::new();
    if uses_web_search {
        tools.push(
            Tool::WebSearch(
                WebSearchTool {
                    kind: String::from_str(WEB_SEARCH),
                    enable_image_understanding: None,
                },
            ),
        );
    }
    if uses_x_search {
        let config = match filter {
            Some(c) => c,
            None => XSearchConfig::default(),
        };
        tools.push(
            Tool::XSearch(
                XSearchTool {
                    kind: String::from_str(X_SEARCH),
                    allowed_x_handles: config.allowed_handles,
                    excluded_x_handles: config.excluded_handles,
                    from_date: config.from_date,
                    to_date: config.to_date,
                    enable_image_understanding: if config.enable_images {
                        Some(true)
                    } else {
                        None
                    },
                    enable_video_understanding: if config.enable_video {
                        Some(true)
                    } else {
                        None
                    },
                },
            ),
        );
    }
    proof {
        assert(tools.deep_view() =~= composed_tools(
            uses_web_search,
            uses_x_search,
            filter.deep_view(),
        ));
    }
    tools
}

/// Builds the request that carries `intent` with the given tools: the
/// system message where the mode has an instruction, then the query; the
/// mode's model and token budget; the previous response id as it came.
pub fn build_request(intent: &Intent, tools: Vec<Tool>) -> (request: GrokRequest)
    ensures
        request@ == built_request(intent@, tools.deep_view()),
{
    let mut input: Vec<Message> = Vec::new();
    if let Some(instruction) = intent.mode.system_instruction(intent.max_results) {
        input.push(Message { role: String::from_str(SYSTEM_ROLE), content: instruction });
    }
    input.push(Message { role: String::from_str(USER_ROLE), content: intent.query.clone() });
    let request = GrokRequest {
        model: String::from_str(intent.mode.model()),
        input,
        store: true,
        max_output_tokens: Some(intent.mode.max_output_tokens()),
        previous_response_id: intent.previous_response_id.clone(),
        tools,
    };
    proof {
        assert(request@.input =~= built_request(intent@, tools.deep_view()).input);
    }
    request
}

/// Builds the request that carries `intent`, with the tools of its mode.
pub fn create_request(intent: &Intent) -> (request: GrokRequest)
    ensures
        request@ == created_request(intent@),
{
    let filter = clone_filter(&intent.x_search);
    let tools = compose_tools(intent.mode.uses_web_search(), intent.mode.uses_x_search(), filter);
    build_request(intent, tools)
}

/// A copy of a list of texts.
pub(crate) fn clone_texts(texts: &Vec<String>) -> (copy: Vec<String>)
    ensures
        copy.deep_view() == texts.deep_view(),
{
    let copy = texts.clone();
    proof {
        assert(copy.deep_view() =~= texts.deep_view());
    }
    copy
}

/// A copy of an optional list of texts.
pub(crate) fn clone_handles(handles: &Option<Vec<String>>) -> (copy: Option<Vec<String>>)
    ensures
        copy.deep_view() == handles.deep_view(),
{
    match handles {
        Some(h) => Some(clone_texts(h)),
        None => None,
    }
}

/// A copy of optional filters.
pub(crate) fn clone_filter(filter: &Option<XSearchConfig>) -> (copy: Option<XSearchConfig>)
    ensures
        copy.deep_view() == filter.deep_view(),
{
    match filter {
        Some(c) => Some(
            XSearchConfig {
                allowed_handles: clone_handles(&c.allowed_handles),
                excluded_handles: clone_handles(&c.excluded_handles),
                from_date: c.from_date.clone(),
                to_date: c.to_date.clone(),
                enable_images: c.enable_images,
                enable_video: c.enable_video,
            },
        ),
        None => None,
    }
}

/// The wire form of an optional flag.
pub open spec fn flag_wire(flag: Option<bool>) -> Option<JsonData> {
    match flag {
        Some(b) => Some(JsonData::Bool(b)),
        None => None,
    }
}

/// The wire form of an optional text.
pub open spec fn text_wire(text: Option<Seq<char>>) -> Option<JsonData> {
    match text {
        Some(t) => Some(JsonData::Text(t)),
        None => None,
    }
}

/// The wire form of a list of texts: an array of strings.
pub open spec fn texts_wire(texts: Seq<Seq<char>>) -> JsonData {
    JsonData::List(texts.map_values(|t: Seq<char>| JsonData::Text(t)))
}

/// The wire form of an optional list of texts.
pub open spec fn handles_wire(handles: Option<Seq<Seq<char>>>) -> Option<JsonData> {
    match handles {
        Some(h) => Some(texts_wire(h)),
        None => None,
    }
}

/// The wire form of an optional token budget.
pub open spec fn budget_wire(budget: Option<u32>) -> Option<JsonData> {
    match budget {
        Some(n) => Some(JsonData::Natural(n as nat)),
        None => None,
    }
}

/// The wire form of a message.
pub open spec fn message_wire(m: MessageView) -> JsonData {
    JsonData::record().with("role"@, JsonData::Text(m.role)).with(
        "content"@,
        JsonData::Text(m.content),
    )
}

/// The wire form of a web-search descriptor.
pub open spec fn web_search_wire(t: WebSearchToolView) -> JsonData {
    JsonData::record().with("type"@, JsonData::Text(t.kind)).with_some(
        "enable_image_understanding"@,
        flag_wire(t.enable_image_understanding),
    )
}

/// The wire form of an x-search descriptor: each filter is present only
/// where it is set.
pub open spec fn x_search_wire(t: XSearchToolView) -> JsonData {
    JsonData::record().with("type"@, JsonData::Text(t.kind)).with_some(
        "allowed_x_handles"@,
        handles_wire(t.allowed_x_handles),
    ).with_some("excluded_x_handles"@, handles_wire(t.excluded_x_handles)).with_some(
        "from_date"@,
        text_wire(t.from_date),
    ).with_some("to_date"@, text_wire(t.to_date)).with_some(
        "enable_image_understanding"@,
        flag_wire(t.enable_image_understanding),
    ).with_some("enable_video_understanding"@, flag_wire(t.enable_video_understanding))
}

/// The wire form of a descriptor: that of its variant, with nothing added.
pub open spec fn tool_wire(t: ToolView) -> JsonData {
    match t {
        ToolView::WebSearch(w) => web_search_wire(w),
        ToolView::XSearch(x) => x_search_wire(x),
    }
}

/// The wire form of a tool list, where it is sent: an array of
/// descriptors. An empty list is not sent.
pub open spec fn tools_wire(tools: Seq<ToolView>) -> Option<JsonData> {
    if tools.len() == 0 {
        None
    } else {
        Some(JsonData::List(tools.map_values(|t: ToolView| tool_wire(t))))
    }
}

/// The wire form of a request.
pub open spec fn request_wire(r: GrokRequestView) -> JsonData {
    JsonData::record().with("model"@, JsonData::Text(r.model)).with(
        "input"@,
        JsonData::List(r.input.map_values(|m: MessageView| message_wire(m))),
    ).with("store"@, JsonData::Bool(r.store)).with_some(
        "max_output_tokens"@,
        budget_wire(r.max_output_tokens),
    ).with_some("previous_response_id"@, text_wire(r.previous_response_id)).with_some(
        "tools"@,
        tools_wire(r.tools),
    )
}

/// The array of strings that holds `texts`.
fn texts_value(texts: &Vec<String>) -> (v: serde_json::Value)
    ensures
        json_data(v) == texts_wire(texts.deep_view()),
{
    let mut items: Vec<serde_json::Value> = Vec::new();
    let mut i: usize = 0;
    while i < texts.len()
        invariant
            i <= texts.len(),
            items.len() == i,
            forall|j: int| 0 <= j < i ==> json_data(#[trigger] items[j]) == JsonData::Text(texts[j]@),
        decreases texts.len() - i,
    {
        items.push(text_value(texts[i].clone()));
        i += 1;
    }
    proof {
        assert(items_data(items@) =~= texts.deep_view().map_values(
            |t: Seq<char>| JsonData::Text(t),
        ));
    }
    list_value(items)
}

impl Message {
    /// The JSON value of this message.
    pub fn to_json(&self) -> (v: serde_json::Value)
        ensures
            json_data(v) == message_wire(self@),
    {
        let mut entries = no_entries();
        put_entry(&mut entries, "role", text_value(self.role.clone()));
        put_entry(&mut entries, "content", text_value(self.content.clone()));
        record_value(entries)
    }
}

impl WebSearchTool {
    /// The JSON value of this descriptor.
    pub fn to_json(&self) -> (v: serde_json::Value)
        ensures
            json_data(v) == web_search_wire(self@),
    {
        let mut entries = no_entries();
        put_entry(&mut entries, "type", text_value(self.kind.clone()));
        if let Some(flag) = self.enable_image_understanding {
            put_entry(&mut entries, "enable_image_understanding", bool_value(flag));
        }
        record_value(entries)
    }
}

impl XSearchTool {
    /// The JSON value of this descriptor.
    pub fn to_json(&self) -> (v: serde_json::Value)
        ensures
            json_data(v) == x_search_wire(self@),
    {
        let mut entries = no_entries();
        put_entry(&mut entries, "type", text_value(self.kind.clone()));
        if let Some(handles) = &self.allowed_x_handles {
            put_entry(&mut entries, "allowed_x_handles", texts_value(handles));
        }
        if let Some(handles) = &self.excluded_x_handles {
            put_entry(&mut entries, "excluded_x_handles", texts_value(handles));
        }
        if let Some(date) = &self.from_date {
            put_entry(&mut entries, "from_date", text_value(date.clone()));
        }
        if let Some(date) = &self.to_date {
            put_entry(&mut entries, "to_date", text_value(date.clone()));
        }
        if let Some(flag) = self.enable_image_understanding {
            put_entry(&mut entries, "enable_image_understanding", bool_value(flag));
        }
        if let Some(flag) = self.enable_video_understanding {
            put_entry(&mut entries, "enable_video_understanding", bool_value(flag));
        }
        record_value(entries)
    }
}

impl Tool {
    /// The JSON value of this descriptor.
    pub fn to_json(&self) -> (v: serde_json::Value)
        ensures
            json_data(v) == tool_wire(self@),
    {
        match self {
            Tool::WebSearch(t) => t.to_json(),
            Tool::XSearch(t) => t.to_json(),
        }
    }

    /// This descriptor as JSON text on one line.
    pub fn to_json_text(&self) -> (text: String)
        ensures
            text@ == compact_text(tool_wire(self@)),
    {
        to_compact_text(&self.to_json())
    }
}

impl GrokRequest {
    /// The JSON value of this request.
    pub fn to_json(&self) -> (v: serde_json::Value)
        ensures
            json_data(v) == request_wire(self@),
    {
        let mut entries = no_entries();
        put_entry(&mut entries, "model", text_value(self.model.clone()));
        let mut messages: Vec<serde_json::Value> = Vec::new();
        let mut i: usize = 0;
        while i < self.input.len()
            invariant
                i <= self.input.len(),
                messages.len() == i,
                forall|j: int|
                    0 <= j < i ==> json_data(#[trigger] messages[j]) == message_wire(
                        self.input[j]@,
                    ),
            decreases self.input.len() - i,
        {
            messages.push(self.input[i].to_json());
            i += 1;
        }
        proof {
            assert(items_data(messages@) =~= self.input.deep_view().map_values(
                |m: MessageView| message_wire(m),
            ));
        }
        put_entry(&mut entries, "input", list_value(messages));
        put_entry(&mut entries, "store", bool_value(self.store));
        if let Some(budget) = self.max_output_tokens {
            put_entry(&mut entries, "max_output_tokens", number_value(budget));
        }
        if let Some(id) = &self.previous_response_id {
            put_entry(&mut entries, "previous_response_id", text_value(id.clone()));
        }
        if self.tools.len() > 0 {
            let mut tools: Vec<serde_json::Value> = Vec::new();
            let mut k: usize = 0;
            while k < self.tools.len()
                invariant
                    k <= self.tools.len(),
                    tools.len() == k,
                    forall|j: int|
                        0 <= j < k ==> json_data(#[trigger] tools[j]) == tool_wire(
                            self.tools[j]@,
                        ),
                decreases self.tools.len() - k,
            {
                tools.push(self.tools[k].to_json());
                k += 1;
            }
            proof {
                assert(items_data(tools@) =~= self.tools.deep_view().map_values(
                    |t: ToolView| tool_wire(t),
                ));
            }
            put_entry(&mut entries, "tools", list_value(tools));
        }
        record_value(entries)
    }

    /// This request as JSON text on one line: the body that is sent.
    pub fn to_json_text(&self) -> (text: String)
        ensures
            text@ == compact_text(request_wire(self@)),
    {
        to_compact_text(&self.to_json())
    }
}

} // verus!
