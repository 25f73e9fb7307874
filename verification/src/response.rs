//! The wire response: the reply of the service as it is read from JSON and
//! written back as JSON.
//!
//! A reply is a JSON object. A member that this library does not know is
//! passed over; a known member that is absent or `null` is an unset field.
//! Written back, every known member is present, an unset one as `null`.

use crate::json::as_list;
use crate::json::as_natural;
use crate::json::as_text;
use crate::json::is_null;
use crate::json::is_record;
use crate::json::items_data;
use crate::json::json_data;
use crate::json::list_value;
use crate::json::member;
use crate::json::no_entries;
use crate::json::null_value;
use crate::json::number_value;
use crate::json::parse_text;
use crate::json::parsed_text;
use crate::json::pretty_text;
use crate::json::put_entry;
use crate::json::record_value;
use crate::json::text_value;
use crate::json::to_pretty_text;
use crate::json::JsonData;
use crate::request::budget_wire;
use crate::request::text_wire;
use vstd::prelude::*;

verus! {

/// Why a text is no reply of the service.
#[derive(Debug, Clone, Copy, PartialEq, Eq, Structural)]
pub enum ParseError {
    /// The text is not a JSON document.
    Syntax,
    /// The document does not have the shape of a reply.
    Schema,
}

/// A citation attached to a piece of text.
#[derive(Debug, Clone)]
pub struct Annotation {
    pub url: Option<String>,
    pub title: Option<String>,
}

/// What an [`Annotation`] holds.
pub ghost struct AnnotationView {
    pub url: Option<Seq<char>>,
    pub title: Option<Seq<char>>,
}

impl View for Annotation {
    type V = AnnotationView;

    open spec fn view(&self) -> AnnotationView {
        AnnotationView { url: self.url.deep_view(), title: self.title.deep_view() }
    }
}

impl DeepView for Annotation {
    type V = AnnotationView;

    open spec fn deep_view(&self) -> AnnotationView {
        self@
    }
}

/// One result of a search, on the web or on X.
#[derive(Debug, Clone)]
pub struct WebSearchResult {
    pub url: Option<String>,
    pub title: Option<String>,
}

/// What a [`WebSearchResult`] holds.
pub ghost struct WebSearchResultView {
    pub url: Option<Seq<char>>,
    pub title: Option<Seq<char>>,
}

impl View for WebSearchResult {
    type V = WebSearchResultView;

    open spec fn view(&self) -> WebSearchResultView {
        WebSearchResultView { url: self.url.deep_view(), title: self.title.deep_view() }
    }
}

impl DeepView for WebSearchResult {
    type V = WebSearchResultView;

    open spec fn deep_view(&self) -> WebSearchResultView {
        self@
    }
}

/// One element of a message's content.
#[derive(Debug, Clone)]
pub struct Content {
    pub kind: String,
    pub text: Option<String>,
    pub annotations: Option<Vec<Annotation>>,
}

/// What a [`Content`] holds.
pub ghost struct ContentView {
    pub kind: Seq<char>,
    pub text: Option<Seq<char>>,
    pub annotations: Option<Seq<AnnotationView>>,
}

impl View for Content {
    type V = ContentView;

    open spec fn view(&self) -> ContentView {
        ContentView {
            kind: self.kind@,
            text: self.text.deep_view(),
            annotations: self.annotations.deep_view(),
        }
    }
}

impl DeepView for Content {
    type V = ContentView;

    open spec fn deep_view(&self) -> ContentView {
        self@
    }
}

/// One item of a reply's output: a message, or the results of a search.
#[derive(Debug, Clone)]
pub struct Output {
    pub kind: String,
    pub content: Option<Vec<Content>>,
    pub results: Option<Vec<WebSearchResult>>,
}

/// What an [`Output`] holds.
pub ghost struct OutputView {
    pub kind: Seq<char>,
    pub content: Option<Seq<ContentView>>,
    pub results: Option<Seq<WebSearchResultView>>,
}

impl View for Output {
    type V = OutputView;

    open spec fn view(&self) -> OutputView {
        OutputView {
            kind: self.kind@,
            content: self.content.deep_view(),
            results: self.results.deep_view(),
        }
    }
}

impl DeepView for Output {
    type V = OutputView;

    open spec fn deep_view(&self) -> OutputView {
        self@
    }
}

/// The token counts of a reply.
#[derive(Debug, Clone)]
pub struct Usage {
    pub input_tokens: Option<u32>,
    pub output_tokens: Option<u32>,
}

/// What a [`Usage`] holds.
pub ghost struct UsageView {
    pub input_tokens: Option<u32>,
    pub output_tokens: Option<u32>,
}

impl View for Usage {
    type V = UsageView;

    open spec fn view(&self) -> UsageView {
        UsageView { input_tokens: self.input_tokens, output_tokens: self.output_tokens }
    }
}

impl DeepView for Usage {
    type V = UsageView;

    open spec fn deep_view(&self) -> UsageView {
        self@
    }
}

/// The error that the service reports in place of an answer.
#[derive(Debug, Clone)]
pub struct ApiError {
    pub message: Option<String>,
    pub code: Option<String>,
}

/// What an [`ApiError`] holds.
pub ghost struct ApiErrorView {
    pub message: Option<Seq<char>>,
    pub code: Option<Seq<char>>,
}

impl View for ApiError {
    type V = ApiErrorView;

    open spec fn view(&self) -> ApiErrorView {
        ApiErrorView { message: self.message.deep_view(), code: self.code.deep_view() }
    }
}

impl DeepView for ApiError {
    type V = ApiErrorView;

    open spec fn deep_view(&self) -> ApiErrorView {
        self@
    }
}

/// A reply of the service.
#[derive(Debug, Clone)]
pub struct GrokResponse {
    pub id: Option<String>,
    pub status: Option<String>,
    pub output: Option<Vec<Output>>,
    pub usage: Option<Usage>,
    pub error: Option<ApiError>,
}

/// What a [`GrokResponse`] holds.
pub ghost struct GrokResponseView {
    pub id: Option<Seq<char>>,
    pub status: Option<Seq<char>>,
    pub output: Option<Seq<OutputView>>,
    pub usage: Option<UsageView>,
    pub error: Option<ApiErrorView>,
}

impl View for GrokResponse {
    type V = GrokResponseView;

    open spec fn view(&self) -> GrokResponseView {
        GrokResponseView {
            id: self.id.deep_view(),
            status: self.status.deep_view(),
            output: self.output.deep_view(),
            usage: self.usage.deep_view(),
            error: self.error.deep_view(),
        }
    }
}

impl DeepView for GrokResponse {
    type V = GrokResponseView;

    open spec fn deep_view(&self) -> GrokResponseView {
        self@
    }
}

/// What a reading gave, with the value that was read taken by its view.
pub open spec fn read_view<T: DeepView>(r: Result<T, ParseError>) -> Result<T::V, ParseError> {
    match r {
        Ok(t) => Ok(t.deep_view()),
        Err(e) => Err(e),
    }
}

/// What a member holds, where the object has it.
pub open spec fn field_data(field: Option<&serde_json::Value>) -> Option<JsonData> {
    match field {
        Some(v) => Some(json_data(*v)),
        None => None,
    }
}

/// An optional text field: unset where the member is absent or `null`, the
/// string where it is one, and otherwise not of the shape.
pub open spec fn optional_text(field: Option<JsonData>) -> Result<Option<Seq<char>>, ParseError> {
    match field {
        None => Ok(None),
        Some(JsonData::Null) => Ok(None),
        Some(JsonData::Text(t)) => Ok(Some(t)),
        Some(_) => Err(ParseError::Schema),
    }
}

/// A text field that must be there: the string where the member is one,
/// and otherwise not of the shape.
pub open spec fn required_text(field: Option<JsonData>) -> Result<Seq<char>, ParseError> {
    match field {
        Some(JsonData::Text(t)) => Ok(t),
        _ => Err(ParseError::Schema),
    }
}

/// An optional count: unset where the member is absent or `null`, the
/// number where it is a non-negative integer that fits 32 bits, and
/// otherwise not of the shape.
pub open spec fn optional_count(field: Option<JsonData>) -> Result<Option<u32>, ParseError> {
    match field {
        None => Ok(None),
        Some(JsonData::Null) => Ok(None),
        Some(JsonData::Natural(n)) => if n <= u32::MAX {
            Ok(Some(n as u32))
        } else {
            Err(ParseError::Schema)
        },
        Some(_) => Err(ParseError::Schema),
    }
}

/// The annotation that a document holds.
pub open spec fn annotation_of(d: JsonData) -> Result<AnnotationView, ParseError> {
    if d is Record {
        match (optional_text(d.member("url"@)), optional_text(d.member("title"@))) {
            (Ok(url), Ok(title)) => Ok(AnnotationView { url, title }),
            _ => Err(ParseError::Schema),
        }
    } else {
        Err(ParseError::Schema)
    }
}

/// The annotations that an array holds: all of them, or none if one is not
/// of the shape.
pub open spec fn annotations_of(items: Seq<JsonData>) -> Result<Seq<AnnotationView>, ParseError> {
    if forall|i: int| 0 <= i < items.len() ==> (#[trigger] annotation_of(items[i])) is Ok {
        Ok(Seq::new(items.len(), |i: int| annotation_of(items[i])->Ok_0))
    } else {
        Err(ParseError::Schema)
    }
}

/// An optional list of annotations.
pub open spec fn optional_annotations(field: Option<JsonData>) -> Result<
    Option<Seq<AnnotationView>>,
    ParseError,
> {
    match field {
        None => Ok(None),
        Some(JsonData::Null) => Ok(None),
        Some(JsonData::List(items)) => match annotations_of(items) {
            Ok(list) => Ok(Some(list)),
            Err(e) => Err(e),
        },
        Some(_) => Err(ParseError::Schema),
    }
}

/// The search result that a document holds.
pub open spec fn result_of(d: JsonData) -> Result<WebSearchResultView, ParseError> {
    if d is Record {
        match (optional_text(d.member("url"@)), optional_text(d.member("title"@))) {
            (Ok(url), Ok(title)) => Ok(WebSearchResultView { url, title }),
            _ => Err(ParseError::Schema),
        }
    } else {
        Err(ParseError::Schema)
    }
}

/// The search results that an array holds.
pub open spec fn results_of(items: Seq<JsonData>) -> Result<Seq<WebSearchResultView>, ParseError> {
    if forall|i: int| 0 <= i < items.len() ==> (#[trigger] result_of(items[i])) is Ok {
        Ok(Seq::new(items.len(), |i: int| result_of(items[i])->Ok_0))
    } else {
        Err(ParseError::Schema)
    }
}

/// An optional list of search results.
pub open spec fn optional_results(field: Option<JsonData>) -> Result<
    Option<Seq<WebSearchResultView>>,
    ParseError,
> {
    match field {
        None => Ok(None),
        Some(JsonData::Null) => Ok(None),
        Some(JsonData::List(items)) => match results_of(items) {
            Ok(list) => Ok(Some(list)),
            Err(e) => Err(e),
        },
        Some(_) => Err(ParseError::Schema),
    }
}

/// The content element that a document holds. Its `type` must be there.
pub open spec fn content_of(d: JsonData) -> Result<ContentView, ParseError> {
    if d is Record {
        match (
            required_text(d.member("type"@)),
            optional_text(d.member("text"@)),
            optional_annotations(d.member("annotations"@)),
        ) {
            (Ok(kind), Ok(text), Ok(annotations)) => Ok(ContentView { kind, text, annotations }),
            _ => Err(ParseError::Schema),
        }
    } else {
        Err(ParseError::Schema)
    }
}

/// The content elements that an array holds.
pub open spec fn contents_of(items: Seq<JsonData>) -> Result<Seq<ContentView>, ParseError> {
    if forall|i: int| 0 <= i < items.len() ==> (#[trigger] content_of(items[i])) is Ok {
        Ok(Seq::new(items.len(), |i: int| content_of(items[i])->Ok_0))
    } else {
        Err(ParseError::Schema)
    }
}

/// An optional list of content elements.
pub open spec fn optional_contents(field: Option<JsonData>) -> Result<
    Option<Seq<ContentView>>,
    ParseError,
> {
    match field {
        None => Ok(None),
        Some(JsonData::Null) => Ok(None),
        Some(JsonData::List(items)) => match contents_of(items) {
            Ok(list) => Ok(Some(list)),
            Err(e) => Err(e),
        },
        Some(_) => Err(ParseError::Schema),
    }
}

/// The output item that a document holds. Its `type` must be there.
pub open spec fn output_of(d: JsonData) -> Result<OutputView, ParseError> {
    if d is Record {
        match (
            required_text(d.member("type"@)),
            optional_contents(d.member("content"@)),
            optional_results(d.member("results"@)),
        ) {
            (Ok(kind), Ok(content), Ok(results)) => Ok(OutputView { kind, content, results }),
            _ => Err(ParseError::Schema),
        }
    } else {
        Err(ParseError::Schema)
    }
}

/// The output items that an array holds.
pub open spec fn outputs_of(items: Seq<JsonData>) -> Result<Seq<OutputView>, ParseError> {
    if forall|i: int| 0 <= i < items.len() ==> (#[trigger] output_of(items[i])) is Ok {
        Ok(Seq::new(items.len(), |i: int| output_of(items[i])->Ok_0))
    } else {
        Err(ParseError::Schema)
    }
}

/// An optional list of output items.
pub open spec fn optional_outputs(field: Option<JsonData>) -> Result<
    Option<Seq<OutputView>>,
    ParseError,
> {
    match field {
        None => Ok(None),
        Some(JsonData::Null) => Ok(None),
        Some(JsonData::List(items)) => match outputs_of(items) {
            Ok(list) => Ok(Some(list)),
            Err(e) => Err(e),
        },
        Some(_) => Err(ParseError::Schema),
    }
}

/// The token counts that a document holds.
pub open spec fn usage_of(d: JsonData) -> Result<UsageView, ParseError> {
    if d is Record {
        match (
            optional_count(d.member("input_tokens"@)),
            optional_count(d.member("output_tokens"@)),
        ) {
            (Ok(input_tokens), Ok(output_tokens)) => Ok(UsageView { input_tokens, output_tokens }),
            _ => Err(ParseError::Schema),
        }
    } else {
        Err(ParseError::Schema)
    }
}

/// Optional token counts.
pub open spec fn optional_usage(field: Option<JsonData>) -> Result<Option<UsageView>, ParseError> {
    match field {
        None => Ok(None),
        Some(JsonData::Null) => Ok(None),
        Some(d) => match usage_of(d) {
            Ok(usage) => Ok(Some(usage)),
            Err(e) => Err(e),
        },
    }
}

/// The reported error that a document holds.
pub open spec fn api_error_of(d: JsonData) -> Result<ApiErrorView, ParseError> {
    if d is Record {
        match (optional_text(d.member("message"@)), optional_text(d.member("code"@))) {
            (Ok(message), Ok(code)) => Ok(ApiErrorView { message, code }),
            _ => Err(ParseError::Schema),
        }
    } else {
        Err(ParseError::Schema)
    }
}

/// An optional reported error.
pub open spec fn optional_api_error(field: Option<JsonData>) -> Result<
    Option<ApiErrorView>,
    ParseError,
> {
    match field {
        None => Ok(None),
        Some(JsonData::Null) => Ok(None),
        Some(d) => match api_error_of(d) {
            Ok(error) => Ok(Some(error)),
            Err(e) => Err(e),
        },
    }
}

/// The reply that a document holds, or `Schema` where the document does
/// not have the shape of a reply.
pub open spec fn response_of(d: JsonData) -> Result<GrokResponseView, ParseError> {
    if d is Record {
        match (
            optional_text(d.member("id"@)),
            optional_text(d.member("status"@)),
            optional_outputs(d.member("output"@)),
            optional_usage(d.member("usage"@)),
            optional_api_error(d.member("error"@)),
        ) {
            (Ok(id), Ok(status), Ok(output), Ok(usage), Ok(error)) => Ok(
                GrokResponseView { id, status, output, usage, error },
            ),
            _ => Err(ParseError::Schema),
        }
    } else {
        Err(ParseError::Schema)
    }
}

/// The reply that a text holds: `Syntax` where the text is no JSON
/// document, and otherwise what the document holds.
pub open spec fn response_in(text: Seq<char>) -> Result<GrokResponseView, ParseError> {
    match parsed_text(text) {
        Some(d) => response_of(d),
        None => Err(ParseError::Syntax),
    }
}

fn read_optional_text(field: Option<&serde_json::Value>) -> (r: Result<Option<String>, ParseError>)
    ensures
        read_view(r) == optional_text(field_data(field)),
{
    match field {
        None => Ok(None),
        Some(v) => {
            if is_null(v) {
                Ok(None)
            } else {
                match as_text(v) {
                    Some(s) => Ok(Some(String::from_str(s))),
                    None => Err(ParseError::Schema),
                }
            }
        },
    }
}

fn read_required_text(field: Option<&serde_json::Value>) -> (r: Result<String, ParseError>)
    ensures
        read_view(r) == required_text(field_data(field)),
{
    match field {
        None => Err(ParseError::Schema),
        Some(v) => match as_text(v) {
            Some(s) => Ok(String::from_str(s)),
            None => Err(ParseError::Schema),
        },
    }
}

fn read_optional_count(field: Option<&serde_json::Value>) -> (r: Result<Option<u32>, ParseError>)
    ensures
        read_view(r) == optional_count(field_data(field)),
{
    match field {
        None => Ok(None),
        Some(v) => {
            if is_null(v) {
                Ok(None)
            } else {
                match as_natural(v) {
                    Some(n) => if n <= 0xffff_ffff {
                        Ok(Some(n as u32))
                    } else {
                        Err(ParseError::Schema)
                    },
                    None => Err(ParseError::Schema),
                }
            }
        },
    }
}

fn read_annotation(v: &serde_json::Value) -> (r: Result<Annotation, ParseError>)
    ensures
        read_view(r) == annotation_of(json_data(*v)),
{
    if !is_record(v) {
        return Err(ParseError::Schema);
    }
    let url = read_optional_text(member(v, "url"))?;
    let title = read_optional_text(member(v, "title"))?;
    Ok(Annotation { url, title })
}

fn read_annotations(items: &Vec<serde_json::Value>) -> (r: Result<Vec<Annotation>, ParseError>)
    ensures
        read_view(r) == annotations_of(items_data(items@)),
{
    let mut list: Vec<Annotation> = Vec::new();
    let mut i: usize = 0;
    while i < items.len()
        invariant
            i <= items.len(),
            list.len() == i,
            forall|j: int|
                0 <= j < i ==> (#[trigger] annotation_of(items_data(items@)[j])) == Ok::<
                    AnnotationView,
                    ParseError,
                >(list[j]@),
        decreases items.len() - i,
    {
        match read_annotation(&items[i]) {
            Ok(a) => list.push(a),
            Err(e) => {
                assert(annotation_of(items_data(items@)[i as int]) is Err);
                return Err(ParseError::Schema);
            },
        }
        i += 1;
    }
    proof {
        assert(list.deep_view() =~= annotations_of(items_data(items@))->Ok_0);
    }
    Ok(list)
}

fn read_optional_annotations(field: Option<&serde_json::Value>) -> (r: Result<
    Option<Vec<Annotation>>,
    ParseError,
>)
    ensures
        read_view(r) == optional_annotations(field_data(field)),
{
    match field {
        None => Ok(None),
        Some(v) => {
            if is_null(v) {
                Ok(None)
            } else {
                match as_list(v) {
                    Some(items) => match read_annotations(items) {
                        Ok(list) => Ok(Some(list)),
                        Err(e) => Err(e),
                    },
                    None => Err(ParseError::Schema),
                }
            }
        },
    }
}

fn read_result(v: &serde_json::Value) -> (r: Result<WebSearchResult, ParseError>)
    ensures
        read_view(r) == result_of(json_data(*v)),
{
    if !is_record(v) {
        return Err(ParseError::Schema);
    }
    let url = read_optional_text(member(v, "url"))?;
    let title = read_optional_text(member(v, "title"))?;
    Ok(WebSearchResult { url, title })
}

fn read_results(items: &Vec<serde_json::Value>) -> (r: Result<Vec<WebSearchResult>, ParseError>)
    ensures
        read_view(r) == results_of(items_data(items@)),
{
    let mut list: Vec<WebSearchResult> = Vec::new();
    let mut i: usize = 0;
    while i < items.len()
        invariant
            i <= items.len(),
            list.len() == i,
            forall|j: int|
                0 <= j < i ==> (#[trigger] result_of(items_data(items@)[j])) == Ok::<
                    WebSearchResultView,
                    ParseError,
                >(list[j]@),
        decreases items.len() - i,
    {
        match read_result(&items[i]) {
            Ok(a) => list.push(a),
            Err(e) => {
                assert(result_of(items_data(items@)[i as int]) is Err);
                return Err(ParseError::Schema);
            },
        }
        i += 1;
    }
    proof {
        assert(list.deep_view() =~= results_of(items_data(items@))->Ok_0);
    }
    Ok(list)
}

fn read_optional_results(field: Option<&serde_json::Value>) -> (r: Result<
    Option<Vec<WebSearchResult>>,
    ParseError,
>)
    ensures
        read_view(r) == optional_results(field_data(field)),
{
    match field {
        None => Ok(None),
        Some(v) => {
            if is_null(v) {
                Ok(None)
            } else {
                match as_list(v) {
                    Some(items) => match read_results(items) {
                        Ok(list) => Ok(Some(list)),
                        Err(e) => Err(e),
                    },
                    None => Err(ParseError::Schema),
                }
            }
        },
    }
}

fn read_content(v: &serde_json::Value) -> (r: Result<Content, ParseError>)
    ensures
        read_view(r) == content_of(json_data(*v)),
{
    if !is_record(v) {
        return Err(ParseError::Schema);
    }
    let kind = read_required_text(member(v, "type"))?;
    let text = read_optional_text(member(v, "text"))?;
    let annotations = read_optional_annotations(member(v, "annotations"))?;
    Ok(Content { kind, text, annotations })
}

fn read_contents(items: &Vec<serde_json::Value>) -> (r: Result<Vec<Content>, ParseError>)
    ensures
        read_view(r) == contents_of(items_data(items@)),
{
    let mut list: Vec<Content> = Vec::new();
    let mut i: usize = 0;
    while i < items.len()
        invariant
            i <= items.len(),
            list.len() == i,
            forall|j: int|
                0 <= j < i ==> (#[trigger] content_of(items_data(items@)[j])) == Ok::<
                    ContentView,
                    ParseError,
                >(list[j]@),
        decreases items.len() - i,
    {
        match read_content(&items[i]) {
            Ok(a) => list.push(a),
            Err(e) => {
                assert(content_of(items_data(items@)[i as int]) is Err);
                return Err(ParseError::Schema);
            },
        }
        i += 1;
    }
    proof {
        assert(list.deep_view() =~= contents_of(items_data(items@))->Ok_0);
    }
    Ok(list)
}

fn read_optional_contents(field: Option<&serde_json::Value>) -> (r: Result<
    Option<Vec<Content>>,
    ParseError,
>)
    ensures
        read_view(r) == optional_contents(field_data(field)),
{
    match field {
        None => Ok(None),
        Some(v) => {
            if is_null(v) {
                Ok(None)
            } else {
                match as_list(v) {
                    Some(items) => match read_contents(items) {
                        Ok(list) => Ok(Some(list)),
                        Err(e) => Err(e),
                    },
                    None => Err(ParseError::Schema),
                }
            }
        },
    }
}

fn read_output(v: &serde_json::Value) -> (r: Result<Output, ParseError>)
    ensures
        read_view(r) == output_of(json_data(*v)),
{
    if !is_record(v) {
        return Err(ParseError::Schema);
    }
    let kind = read_required_text(member(v, "type"))?;
    let content = read_optional_contents(member(v, "content"))?;
    let results = read_optional_results(member(v, "results"))?;
    Ok(Output { kind, content, results })
}

fn read_outputs(items: &Vec<serde_json::Value>) -> (r: Result<Vec<Output>, ParseError>)
    ensures
        read_view(r) == outputs_of(items_data(items@)),
{
    let mut list: Vec<Output> = Vec::new();
    let mut i: usize = 0;
    while i < items.len()
        invariant
            i <= items.len(),
            list.len() == i,
            forall|j: int|
                0 <= j < i ==> (#[trigger] output_of(items_data(items@)[j])) == Ok::<
                    OutputView,
                    ParseError,
                >(list[j]@),
        decreases items.len() - i,
    {
        match read_output(&items[i]) {
            Ok(a) => list.push(a),
            Err(e) => {
                assert(output_of(items_data(items@)[i as int]) is Err);
                return Err(ParseError::Schema);
            },
        }
        i += 1;
    }
    proof {
        assert(list.deep_view() =~= outputs_of(items_data(items@))->Ok_0);
    }
    Ok(list)
}

fn read_optional_outputs(field: Option<&serde_json::Value>) -> (r: Result<
    Option<Vec<Output>>,
    ParseError,
>)
    ensures
        read_view(r) == optional_outputs(field_data(field)),
{
    match field {
        None => Ok(None),
        Some(v) => {
            if is_null(v) {
                Ok(None)
            } else {
                match as_list(v) {
                    Some(items) => match read_outputs(items) {
                        Ok(list) => Ok(Some(list)),
                        Err(e) => Err(e),
                    },
                    None => Err(ParseError::Schema),
                }
            }
        },
    }
}

fn read_usage(v: &serde_json::Value) -> (r: Result<Usage, ParseError>)
    ensures
        read_view(r) == usage_of(json_data(*v)),
{
    if !is_record(v) {
        return Err(ParseError::Schema);
    }
    let input_tokens = read_optional_count(member(v, "input_tokens"))?;
    let output_tokens = read_optional_count(member(v, "output_tokens"))?;
    Ok(Usage { input_tokens, output_tokens })
}

fn read_optional_usage(field: Option<&serde_json::Value>) -> (r: Result<Option<Usage>, ParseError>)
    ensures
        read_view(r) == optional_usage(field_data(field)),
{
    match field {
        None => Ok(None),
        Some(v) => {
            if is_null(v) {
                Ok(None)
            } else {
                match read_usage(v) {
                    Ok(usage) => Ok(Some(usage)),
                    Err(e) => Err(e),
                }
            }
        },
    }
}

fn read_api_error(v: &serde_json::Value) -> (r: Result<ApiError, ParseError>)
    ensures
        read_view(r) == api_error_of(json_data(*v)),
{
    if !is_record(v) {
        return Err(ParseError::Schema);
    }
    let message = read_optional_text(member(v, "message"))?;
    let code = read_optional_text(member(v, "code"))?;
    Ok(ApiError { message, code })
}

fn read_optional_api_error(field: Option<&serde_json::Value>) -> (r: Result<
    Option<ApiError>,
    ParseError,
>)
    ensures
        read_view(r) == optional_api_error(field_data(field)),
{
    match field {
        None => Ok(None),
        Some(v) => {
            if is_null(v) {
                Ok(None)
            } else {
                match read_api_error(v) {
                    Ok(error) => Ok(Some(error)),
                    Err(e) => Err(e),
                }
            }
        },
    }
}

impl GrokResponse {
    /// Reads a reply from a JSON value.
    pub fn from_json(v: &serde_json::Value) -> (r: Result<GrokResponse, ParseError>)
        ensures
            read_view(r) == response_of(json_data(*v)),
    {
        if !is_record(v) {
            return Err(ParseError::Schema);
        }
        let id = read_optional_text(member(v, "id"))?;
        let status = read_optional_text(member(v, "status"))?;
        let output = read_optional_outputs(member(v, "output"))?;
        let usage = read_optional_usage(member(v, "usage"))?;
        let error = read_optional_api_error(member(v, "error"))?;
        Ok(GrokResponse { id, status, output, usage, error })
    }
}

/// The wire form of a field that is always sent: `null` where it is unset.
pub open spec fn or_null(field: Option<JsonData>) -> JsonData {
    match field {
        Some(d) => d,
        None => JsonData::Null,
    }
}

/// The wire form of an annotation.
pub open spec fn annotation_wire(a: AnnotationView) -> JsonData {
    JsonData::record().with("url"@, or_null(text_wire(a.url))).with(
        "title"@,
        or_null(text_wire(a.title)),
    )
}

/// The wire form of an optional list of annotations.
pub open spec fn annotations_wire(list: Option<Seq<AnnotationView>>) -> JsonData {
    match list {
        Some(l) => JsonData::List(l.map_values(|a: AnnotationView| annotation_wire(a))),
        None => JsonData::Null,
    }
}

/// The wire form of a search result.
pub open spec fn result_wire(r: WebSearchResultView) -> JsonData {
    JsonData::record().with("url"@, or_null(text_wire(r.url))).with(
        "title"@,
        or_null(text_wire(r.title)),
    )
}

/// The wire form of an optional list of search results.
pub open spec fn results_wire(list: Option<Seq<WebSearchResultView>>) -> JsonData {
    match list {
        Some(l) => JsonData::List(l.map_values(|r: WebSearchResultView| result_wire(r))),
        None => JsonData::Null,
    }
}

/// The wire form of a content element.
pub open spec fn content_wire(c: ContentView) -> JsonData {
    JsonData::record().with("type"@, JsonData::Text(c.kind)).with(
        "text"@,
        or_null(text_wire(c.text)),
    ).with("annotations"@, annotations_wire(c.annotations))
}

/// The wire form of an optional list of content elements.
pub open spec fn contents_wire(list: Option<Seq<ContentView>>) -> JsonData {
    match list {
        Some(l) => JsonData::List(l.map_values(|c: ContentView| content_wire(c))),
        None => JsonData::Null,
    }
}

/// The wire form of an output item.
pub open spec fn output_wire(o: OutputView) -> JsonData {
    JsonData::record().with("type"@, JsonData::Text(o.kind)).with(
        "content"@,
        contents_wire(o.content),
    ).with("results"@, results_wire(o.results))
}

/// The wire form of an optional list of output items.
pub open spec fn outputs_wire(list: Option<Seq<OutputView>>) -> JsonData {
    match list {
        Some(l) => JsonData::List(l.map_values(|o: OutputView| output_wire(o))),
        None => JsonData::Null,
    }
}

/// The wire form of optional token counts.
pub open spec fn usage_wire(usage: Option<UsageView>) -> JsonData {
    match usage {
        Some(u) => JsonData::record().with(
            "input_tokens"@,
            or_null(budget_wire(u.input_tokens)),
        ).with("output_tokens"@, or_null(budget_wire(u.output_tokens))),
        None => JsonData::Null,
    }
}

/// The wire form of an optional reported error.
pub open spec fn api_error_wire(error: Option<ApiErrorView>) -> JsonData {
    match error {
        Some(e) => JsonData::record().with("message"@, or_null(text_wire(e.message))).with(
            "code"@,
            or_null(text_wire(e.code)),
        ),
        None => JsonData::Null,
    }
}

/// The wire form of a reply: every field is present, an unset one as
/// `null`.
pub open spec fn response_wire(r: GrokResponseView) -> JsonData {
    JsonData::record().with("id"@, or_null(text_wire(r.id))).with(
        "status"@,
        or_null(text_wire(r.status)),
    ).with("output"@, outputs_wire(r.output)).with("usage"@, usage_wire(r.usage)).with(
        "error"@,
        api_error_wire(r.error),
    )
}

fn optional_text_value(text: &Option<String>) -> (v: serde_json::Value)
    ensures
        json_data(v) == or_null(text_wire(text.deep_view())),
{
    match text {
        Some(t) => text_value(t.clone()),
        None => null_value(),
    }
}

fn optional_count_value(count: Option<u32>) -> (v: serde_json::Value)
    ensures
        json_data(v) == or_null(budget_wire(count)),
{
    match count {
        Some(n) => number_value(n),
        None => null_value(),
    }
}

fn annotation_value(a: &Annotation) -> (v: serde_json::Value)
    ensures
        json_data(v) == annotation_wire(a@),
{
    let mut entries = no_entries();
    put_entry(&mut entries, "url", optional_text_value(&a.url));
    put_entry(&mut entries, "title", optional_text_value(&a.title));
    record_value(entries)
}

fn annotations_value(list: &Option<Vec<Annotation>>) -> (v: serde_json::Value)
    ensures
        json_data(v) == annotations_wire(list.deep_view()),
{
    match list {
        None => null_value(),
        Some(l) => {
            let mut items: Vec<serde_json::Value> = Vec::new();
            let mut i: usize = 0;
            while i < l.len()
                invariant
                    i <= l.len(),
                    items.len() == i,
                    forall|j: int|
                        0 <= j < i ==> json_data(#[trigger] items[j]) == annotation_wire(l[j]@),
                decreases l.len() - i,
            {
                items.push(annotation_value(&l[i]));
                i += 1;
            }
            proof {
                assert(items_data(items@) =~= l.deep_view().map_values(
                    |a: AnnotationView| annotation_wire(a),
                ));
            }
            list_value(items)
        },
    }
}

fn result_value(r: &WebSearchResult) -> (v: serde_json::Value)
    ensures
        json_data(v) == result_wire(r@),
{
    let mut entries = no_entries();
    put_entry(&mut entries, "url", optional_text_value(&r.url));
    put_entry(&mut entries, "title", optional_text_value(&r.title));
    record_value(entries)
}

fn results_value(list: &Option<Vec<WebSearchResult>>) -> (v: serde_json::Value)
    ensures
        json_data(v) == results_wire(list.deep_view()),
{
    match list {
        None => null_value(),
        Some(l) => {
            let mut items: Vec<serde_json::Value> = Vec::new();
            let mut i: usize = 0;
            while i < l.len()
                invariant
                    i <= l.len(),
                    items.len() == i,
                    forall|j: int|
                        0 <= j < i ==> json_data(#[trigger] items[j]) == result_wire(l[j]@),
                decreases l.len() - i,
            {
                items.push(result_value(&l[i]));
                i += 1;
            }
            proof {
                assert(items_data(items@) =~= l.deep_view().map_values(
                    |r: WebSearchResultView| result_wire(r),
                ));
            }
            list_value(items)
        },
    }
}

fn content_value(c: &Content) -> (v: serde_json::Value)
    ensures
        json_data(v) == content_wire(c@),
{
    let mut entries = no_entries();
    put_entry(&mut entries, "type", text_value(c.kind.clone()));
    put_entry(&mut entries, "text", optional_text_value(&c.text));
    put_entry(&mut entries, "annotations", annotations_value(&c.annotations));
    record_value(entries)
}

fn contents_value(list: &Option<Vec<Content>>) -> (v: serde_json::Value)
    ensures
        json_data(v) == contents_wire(list.deep_view()),
{
    match list {
        None => null_value(),
        Some(l) => {
            let mut items: Vec<serde_json::Value> = Vec::new();
            let mut i: usize = 0;
            while i < l.len()
                invariant
                    i <= l.len(),
                    items.len() == i,
                    forall|j: int|
                        0 <= j < i ==> json_data(#[trigger] items[j]) == content_wire(l[j]@),
                decreases l.len() - i,
            {
                items.push(content_value(&l[i]));
                i += 1;
            }
            proof {
                assert(items_data(items@) =~= l.deep_view().map_values(
                    |c: ContentView| content_wire(c),
                ));
            }
            list_value(items)
        },
    }
}

fn output_value(o: &Output) -> (v: serde_json::Value)
    ensures
        json_data(v) == output_wire(o@),
{
    let mut entries = no_entries();
    put_entry(&mut entries, "type", text_value(o.kind.clone()));
    put_entry(&mut entries, "content", contents_value(&o.content));
    put_entry(&mut entries, "results", results_value(&o.results));
    record_value(entries)
}

fn outputs_value(list: &Option<Vec<Output>>) -> (v: serde_json::Value)
    ensures
        json_data(v) == outputs_wire(list.deep_view()),
{
    match list {
        None => null_value(),
        Some(l) => {
            let mut items: Vec<serde_json::Value> = Vec::new();
            let mut i: usize = 0;
            while i < l.len()
                invariant
                    i <= l.len(),
                    items.len() == i,
                    forall|j: int|
                        0 <= j < i ==> json_data(#[trigger] items[j]) == output_wire(l[j]@),
                decreases l.len() - i,
            {
                items.push(output_value(&l[i]));
                i += 1;
            }
            proof {
                assert(items_data(items@) =~= l.deep_view().map_values(
                    |o: OutputView| output_wire(o),
                ));
            }
            list_value(items)
        },
    }
}

fn usage_value(usage: &Option<Usage>) -> (v: serde_json::Value)
    ensures
        json_data(v) == usage_wire(usage.deep_view()),
{
    match usage {
        None => null_value(),
        Some(u) => {
            let mut entries = no_entries();
            put_entry(&mut entries, "input_tokens", optional_count_value(u.input_tokens));
            put_entry(&mut entries, "output_tokens", optional_count_value(u.output_tokens));
            record_value(entries)
        },
    }
}

fn api_error_value(error: &Option<ApiError>) -> (v: serde_json::Value)
    ensures
        json_data(v) == api_error_wire(error.deep_view()),
{
    match error {
        None => null_value(),
        Some(e) => {
            let mut entries = no_entries();
            put_entry(&mut entries, "message", optional_text_value(&e.message));
            put_entry(&mut entries, "code", optional_text_value(&e.code));
            record_value(entries)
        },
    }
}

impl GrokResponse {
    /// The JSON value of this reply.
    pub fn to_json(&self) -> (v: serde_json::Value)
        ensures
            json_data(v) == response_wire(self@),
    {
        let mut entries = no_entries();
        put_entry(&mut entries, "id", optional_text_value(&self.id));
        put_entry(&mut entries, "status", optional_text_value(&self.status));
        put_entry(&mut entries, "output", outputs_value(&self.output));
        put_entry(&mut entries, "usage", usage_value(&self.usage));
        put_entry(&mut entries, "error", api_error_value(&self.error));
        record_value(entries)
    }

    /// This reply as indented JSON text.
    pub fn to_json_pretty(&self) -> (text: String)
        ensures
            text@ == pretty_text(response_wire(self@)),
    {
        to_pretty_text(&self.to_json())
    }
}

/// Reads a reply from the JSON text of a response body.
pub fn parse_response(text: &str) -> (r: Result<GrokResponse, ParseError>)
    ensures
        read_view(r) == response_in(text@),
{
    match parse_text(text) {
        Ok(v) => GrokResponse::from_json(&v),
        Err(_) => Err(ParseError::Syntax),
    }
}

} // verus!
