//! What holds of the library as a whole, proved from the definitions that
//! its contracts are stated in.

use crate::format::text_output;
use crate::format::ERROR_HEAD;
use crate::intent::model_of;
use crate::intent::IntentView;
use crate::intent::Mode;
use crate::intent::MODEL;
use crate::intent::REASONING_MODEL;
use crate::json::lemma_member_with;
use crate::json::lemma_member_with_some;
use crate::json::JsonData;
use crate::normalize::candidates;
use crate::normalize::error_message;
use crate::normalize::knows;
use crate::normalize::normalized;
use crate::normalize::register;
use crate::normalize::register_all;
use crate::normalize::SourceView;
use crate::request::budget_wire;
use crate::request::created_request;
use crate::request::filter_or_none;
use crate::request::flag_wire;
use crate::request::handles_wire;
use crate::request::message_wire;
use crate::request::request_wire;
use crate::request::MessageView;
use crate::request::text_wire;
use crate::request::tools_wire;
use crate::request::web_search_tool;
use crate::request::x_search_tool;
use crate::request::x_search_wire;
use crate::request::GrokRequestView;
use crate::request::ToolView;
use crate::request::XSearchToolView;
use crate::response::annotation_of;
use crate::response::annotation_wire;
use crate::response::annotations_of;
use crate::response::annotations_wire;
use crate::response::api_error_wire;
use crate::response::content_of;
use crate::response::content_wire;
use crate::response::contents_of;
use crate::response::contents_wire;
use crate::response::optional_annotations;
use crate::response::optional_api_error;
use crate::response::optional_contents;
use crate::response::optional_count;
use crate::response::optional_outputs;
use crate::response::optional_results;
use crate::response::optional_text;
use crate::response::optional_usage;
use crate::response::or_null;
use crate::response::output_of;
use crate::response::output_wire;
use crate::response::outputs_of;
use crate::response::outputs_wire;
use crate::response::response_of;
use crate::response::response_wire;
use crate::response::result_of;
use crate::response::result_wire;
use crate::response::results_of;
use crate::response::results_wire;
use crate::response::usage_wire;
use crate::response::AnnotationView;
use crate::response::ApiErrorView;
use crate::response::ContentView;
use crate::response::GrokResponseView;
use crate::response::OutputView;
use crate::response::ParseError;
use crate::response::UsageView;
use crate::response::WebSearchResultView;
use vstd::prelude::*;

verus! {

/// Whether `k` is the place of the first of `list` that has the url `url`.
pub open spec fn is_first_with(list: Seq<SourceView>, k: int, url: Seq<char>) -> bool {
    &&& 0 <= k < list.len()
    &&& list[k].url == url
    &&& forall|m: int| 0 <= m < k ==> (#[trigger] list[m]).url != url
}

/// Whether no two of `sources` have the same url.
pub open spec fn distinct_urls(sources: Seq<SourceView>) -> bool {
    forall|a: int, b: int|
        0 <= a < b < sources.len() ==> (#[trigger] sources[a]).url != (#[trigger] sources[b]).url
}

/// Whether each of `sources` is the first of `list` that has its url.
pub open spec fn firsts_of(sources: Seq<SourceView>, list: Seq<SourceView>) -> bool {
    forall|k: int|
        0 <= k < sources.len() ==> exists|first: int|
            is_first_with(list, first, (#[trigger] sources[k]).url) && list[first] == sources[k]
}

/// Whether the url of each of `list` is the url of one of `sources`.
pub open spec fn covers(sources: Seq<SourceView>, list: Seq<SourceView>) -> bool {
    forall|c: int| 0 <= c < list.len() ==> knows(sources, (#[trigger] list[c]).url)
}

/// Putting a list of sources forward, starting from none, leaves one
/// source for each url of the list, and that source is the first of the
/// list with that url.
pub proof fn lemma_register_all_firsts(list: Seq<SourceView>)
    ensures
        distinct_urls(register_all(Seq::empty(), list)),
        firsts_of(register_all(Seq::empty(), list), list),
        covers(register_all(Seq::empty(), list), list),
    decreases list.len(),
{
    let sources = register_all(Seq::empty(), list);
    if list.len() == 0 {
    } else {
        let earlier = list.drop_last();
        let last = list.last();
        let before = register_all(Seq::empty(), earlier);
        lemma_register_all_firsts(earlier);
        assert(sources == register(before, last));
        assert forall|k: int| 0 <= k < before.len() implies exists|first: int|
            is_first_with(list, first, (#[trigger] before[k]).url) && list[first] == before[k] by {
            let first = choose|first: int|
                is_first_with(earlier, first, before[k].url) && earlier[first] == before[k];
            assert(forall|m: int| 0 <= m < first ==> earlier[m] == list[m]);
            assert(is_first_with(list, first, before[k].url) && list[first] == before[k]);
        }
        if knows(before, last.url) {
            assert forall|c: int| 0 <= c < list.len() implies knows(
                sources,
                (#[trigger] list[c]).url,
            ) by {
                if c < earlier.len() {
                    assert(earlier[c] == list[c]);
                }
            }
        } else {
            let at = before.len() as int;
            assert(sources[at] == last);
            assert forall|m: int| 0 <= m < earlier.len() implies (#[trigger] list[m]).url
                != last.url by {
                assert(earlier[m] == list[m]);
                assert(knows(before, earlier[m].url));
            }
            assert(is_first_with(list, list.len() - 1, last.url));
            assert forall|k: int| 0 <= k < sources.len() implies exists|first: int|
                is_first_with(list, first, (#[trigger] sources[k]).url) && list[first]
                    == sources[k] by {
                if k < before.len() {
                    assert(sources[k] == before[k]);
                } else {
                    assert(is_first_with(list, list.len() - 1, sources[k].url) && list[list.len()
                        - 1] == sources[k]);
                }
            }
            assert forall|a: int, b: int| 0 <= a < b < sources.len() implies (
            #[trigger] sources[a]).url != (#[trigger] sources[b]).url by {
                if b < before.len() {
                    assert(sources[a] == before[a] && sources[b] == before[b]);
                } else {
                    assert(sources[a] == before[a]);
                }
            }
            assert forall|c: int| 0 <= c < list.len() implies knows(
                sources,
                (#[trigger] list[c]).url,
            ) by {
                if c < earlier.len() {
                    assert(earlier[c] == list[c]);
                    let w = choose|i: int|
                        0 <= i < before.len() && (#[trigger] before[i]).url == earlier[c].url;
                    assert(sources[w] == before[w]);
                } else {
                    assert(sources[at].url == list[c].url);
                }
            }
        }
    }
}

/// In the canonical result of a reply that reports no error, no url
/// occurs twice among the sources; every url that an annotation or a
/// search result of the reply carries occurs among them; and each source
/// is, title and all, the first entry of the reply with its url.
pub proof fn law_one_source_per_url(r: GrokResponseView)
    requires
        r.error is None,
    ensures
        distinct_urls(normalized(r).sources),
        covers(normalized(r).sources, candidates(r)),
        firsts_of(normalized(r).sources, candidates(r)),
{
    lemma_register_all_firsts(candidates(r));
}

/// Where two entries of a reply share a url, exactly one source of the
/// canonical result has that url, and its title is that of the first
/// entry of the reply with the url.
pub proof fn law_shared_url_first_title(r: GrokResponseView, i: int, j: int) -> (k: int)
    requires
        r.error is None,
        0 <= i < j < candidates(r).len(),
        candidates(r)[i].url == candidates(r)[j].url,
    ensures
        0 <= k < normalized(r).sources.len(),
        normalized(r).sources[k].url == candidates(r)[i].url,
        forall|other: int|
            0 <= other < normalized(r).sources.len() && other != k ==> (
            #[trigger] normalized(r).sources[other]).url != candidates(r)[i].url,
        exists|first: int|
            is_first_with(candidates(r), first, candidates(r)[i].url) && first <= i
                && normalized(r).sources[k].title == candidates(r)[first].title,
{
    let list = candidates(r);
    let sources = normalized(r).sources;
    lemma_register_all_firsts(list);
    assert(knows(sources, list[i].url));
    let k = choose|k: int| 0 <= k < sources.len() && (#[trigger] sources[k]).url == list[i].url;
    let first = choose|first: int|
        is_first_with(list, first, sources[k].url) && list[first] == sources[k];
    if first > i {
        assert(list[i].url != sources[k].url);
    }
    assert(is_first_with(list, first, list[i].url) && first <= i && sources[k].title
        == list[first].title);
    assert forall|other: int| 0 <= other < sources.len() && other != k implies (
    #[trigger] sources[other]).url != list[i].url by {
        if other < k {
            assert(sources[other].url != sources[k].url);
        } else {
            assert(sources[k].url != sources[other].url);
        }
    }
    k
}

/// The two models have different names.
pub proof fn lemma_models_differ()
    ensures
        MODEL@ != REASONING_MODEL@,
{
    reveal_strlit("grok-4-1-fast-non-reasoning");
    reveal_strlit("grok-4-1-fast");
    assert(MODEL@.len() != REASONING_MODEL@.len());
}

/// The reasoning model serves the mode `Think` and no other; every other
/// mode is served by the default model.
pub proof fn law_model_by_mode(mode: Mode)
    ensures
        model_of(mode) == REASONING_MODEL@ <==> mode == Mode::Think,
        mode != Mode::Think ==> model_of(mode) == MODEL@,
{
    lemma_models_differ();
}

/// The request of an intent has no tool for `Chat`, exactly the web-search
/// descriptor for `Search`, `Ask` and `Think`, and exactly the x-search
/// descriptor, with the intent's filters, for `XSearch` and `XAsk`.
pub proof fn law_tools_by_mode(intent: IntentView)
    ensures
        intent.mode == Mode::Chat ==> created_request(intent).tools == Seq::<ToolView>::empty(),
        intent.mode == Mode::Search || intent.mode == Mode::Ask || intent.mode == Mode::Think
            ==> created_request(intent).tools == seq![ToolView::WebSearch(web_search_tool())],
        intent.mode == Mode::XSearch || intent.mode == Mode::XAsk ==> created_request(
            intent,
        ).tools == seq![ToolView::XSearch(x_search_tool(filter_or_none(intent.x_search)))],
{
    let tools = created_request(intent).tools;
    match intent.mode {
        Mode::Chat => {
            assert(tools =~= Seq::<ToolView>::empty());
        },
        Mode::Search | Mode::Ask | Mode::Think => {
            assert(tools =~= seq![ToolView::WebSearch(web_search_tool())]);
        },
        Mode::XSearch | Mode::XAsk => {
            assert(tools =~= seq![
                ToolView::XSearch(x_search_tool(filter_or_none(intent.x_search))),
            ]);
        },
    }
}

/// The text printed for a reply that reports an error is the one line of
/// that error, whatever else the reply holds.
pub proof fn law_error_is_all_the_text(r: GrokResponseView)
    requires
        r.error is Some,
    ensures
        text_output(r) == ERROR_HEAD@ + error_message(r.error->0.message) + "\n"@,
{
}

/// Two replies that report the same error print the same text, whatever
/// their output items are.
pub proof fn law_error_ignores_output(first: GrokResponseView, second: GrokResponseView)
    requires
        first.error is Some,
        first.error == second.error,
    ensures
        text_output(first) == text_output(second),
{
}

/// What the wire form of a request holds under any key: the member that
/// was set last under it.
proof fn lemma_request_member(r: GrokRequestView, key: Seq<char>)
    ensures
        request_wire(r).member(key) == if key == "tools"@ && r.tools.len() > 0 {
            tools_wire(r.tools)
        } else if key == "previous_response_id"@ && r.previous_response_id is Some {
            text_wire(r.previous_response_id)
        } else if key == "max_output_tokens"@ && r.max_output_tokens is Some {
            budget_wire(r.max_output_tokens)
        } else if key == "store"@ {
            Some(JsonData::Bool(r.store))
        } else if key == "input"@ {
            Some(JsonData::List(r.input.map_values(|m: MessageView| message_wire(m))))
        } else if key == "model"@ {
            Some(JsonData::Text(r.model))
        } else {
            None
        },
{
    let d0 = JsonData::record();
    let d1 = d0.with("model"@, JsonData::Text(r.model));
    let input = JsonData::List(r.input.map_values(|m: MessageView| message_wire(m)));
    let d2 = d1.with("input"@, input);
    let d3 = d2.with("store"@, JsonData::Bool(r.store));
    let d4 = d3.with_some("max_output_tokens"@, budget_wire(r.max_output_tokens));
    let d5 = d4.with_some("previous_response_id"@, text_wire(r.previous_response_id));
    lemma_member_with(d0, "model"@, JsonData::Text(r.model), key);
    lemma_member_with(d1, "input"@, input, key);
    lemma_member_with(d2, "store"@, JsonData::Bool(r.store), key);
    lemma_member_with_some(d3, "max_output_tokens"@, budget_wire(r.max_output_tokens), key);
    lemma_member_with_some(d4, "previous_response_id"@, text_wire(r.previous_response_id), key);
    lemma_member_with_some(d5, "tools"@, tools_wire(r.tools), key);
}

/// The six keys of a request differ from one another.
proof fn lemma_request_keys_differ()
    ensures
        "model"@ != "input"@,
        "model"@ != "store"@,
        "model"@ != "tools"@,
        "input"@ != "store"@,
        "input"@ != "tools"@,
        "store"@ != "tools"@,
        "max_output_tokens"@.len() == 17,
        "previous_response_id"@.len() == 20,
        "model"@.len() == 5,
        "input"@.len() == 5,
        "store"@.len() == 5,
        "tools"@.len() == 5,
{
    reveal_strlit("model");
    reveal_strlit("input");
    reveal_strlit("store");
    reveal_strlit("max_output_tokens");
    reveal_strlit("previous_response_id");
    reveal_strlit("tools");
    assert("model"@[0] == 'm');
    assert("input"@[0] == 'i');
    assert("store"@[0] == 's');
    assert("tools"@[0] == 't');
}

/// The wire form of a request has the three members that are always sent,
/// and each of the three that may be unset exactly where it is set: a
/// request without token budget has no `max_output_tokens`, one without
/// previous response id has no `previous_response_id`, and one without
/// tools has no `tools`.
pub proof fn law_unset_fields_are_omitted(r: GrokRequestView)
    ensures
        request_wire(r).member("model"@) == Some(JsonData::Text(r.model)),
        request_wire(r).member("store"@) == Some(JsonData::Bool(r.store)),
        request_wire(r).has_key("input"@),
        request_wire(r).member("max_output_tokens"@) == budget_wire(r.max_output_tokens),
        request_wire(r).member("previous_response_id"@) == text_wire(r.previous_response_id),
        request_wire(r).member("tools"@) == tools_wire(r.tools),
        request_wire(r).has_key("max_output_tokens"@) <==> r.max_output_tokens is Some,
        request_wire(r).has_key("previous_response_id"@) <==> r.previous_response_id is Some,
        request_wire(r).has_key("tools"@) <==> r.tools.len() > 0,
{
    lemma_request_keys_differ();
    lemma_request_member(r, "model"@);
    lemma_request_member(r, "input"@);
    lemma_request_member(r, "store"@);
    lemma_request_member(r, "max_output_tokens"@);
    lemma_request_member(r, "previous_response_id"@);
    lemma_request_member(r, "tools"@);
}

/// What the wire form of an x-search descriptor holds under any key: the
/// member that was set last under it.
proof fn lemma_x_search_member(t: XSearchToolView, key: Seq<char>)
    ensures
        x_search_wire(t).member(key) == if key == "enable_video_understanding"@
            && t.enable_video_understanding is Some {
            flag_wire(t.enable_video_understanding)
        } else if key == "enable_image_understanding"@ && t.enable_image_understanding is Some {
            flag_wire(t.enable_image_understanding)
        } else if key == "to_date"@ && t.to_date is Some {
            text_wire(t.to_date)
        } else if key == "from_date"@ && t.from_date is Some {
            text_wire(t.from_date)
        } else if key == "excluded_x_handles"@ && t.excluded_x_handles is Some {
            handles_wire(t.excluded_x_handles)
        } else if key == "allowed_x_handles"@ && t.allowed_x_handles is Some {
            handles_wire(t.allowed_x_handles)
        } else if key == "type"@ {
            Some(JsonData::Text(t.kind))
        } else {
            None
        },
{
    let d0 = JsonData::record();
    let d1 = d0.with("type"@, JsonData::Text(t.kind));
    let d2 = d1.with_some("allowed_x_handles"@, handles_wire(t.allowed_x_handles));
    let d3 = d2.with_some("excluded_x_handles"@, handles_wire(t.excluded_x_handles));
    let d4 = d3.with_some("from_date"@, text_wire(t.from_date));
    let d5 = d4.with_some("to_date"@, text_wire(t.to_date));
    let d6 = d5.with_some("enable_image_understanding"@, flag_wire(t.enable_image_understanding));
    lemma_member_with(d0, "type"@, JsonData::Text(t.kind), key);
    lemma_member_with_some(d1, "allowed_x_handles"@, handles_wire(t.allowed_x_handles), key);
    lemma_member_with_some(d2, "excluded_x_handles"@, handles_wire(t.excluded_x_handles), key);
    lemma_member_with_some(d3, "from_date"@, text_wire(t.from_date), key);
    lemma_member_with_some(d4, "to_date"@, text_wire(t.to_date), key);
    lemma_member_with_some(
        d5,
        "enable_image_understanding"@,
        flag_wire(t.enable_image_understanding),
        key,
    );
    lemma_member_with_some(
        d6,
        "enable_video_understanding"@,
        flag_wire(t.enable_video_understanding),
        key,
    );
}

/// The seven keys of an x-search descriptor differ from one another.
proof fn lemma_x_search_keys_differ()
    ensures
        "type"@.len() == 4,
        "allowed_x_handles"@.len() == 17,
        "excluded_x_handles"@.len() == 18,
        "from_date"@.len() == 9,
        "to_date"@.len() == 7,
        "enable_image_understanding"@.len() == 26,
        "enable_video_understanding"@.len() == 26,
        "enable_image_understanding"@ != "enable_video_understanding"@,
{
    reveal_strlit("type");
    reveal_strlit("allowed_x_handles");
    reveal_strlit("excluded_x_handles");
    reveal_strlit("from_date");
    reveal_strlit("to_date");
    reveal_strlit("enable_image_understanding");
    reveal_strlit("enable_video_understanding");
    assert("enable_image_understanding"@[7] == 'i');
    assert("enable_video_understanding"@[7] == 'v');
}

/// The wire form of an x-search descriptor has its `type`, and each filter
/// exactly where it is set: a filter that is unset is not sent.
pub proof fn law_unset_filters_are_omitted(t: XSearchToolView)
    ensures
        x_search_wire(t).member("type"@) == Some(JsonData::Text(t.kind)),
        x_search_wire(t).member("allowed_x_handles"@) == handles_wire(t.allowed_x_handles),
        x_search_wire(t).member("excluded_x_handles"@) == handles_wire(t.excluded_x_handles),
        x_search_wire(t).member("from_date"@) == text_wire(t.from_date),
        x_search_wire(t).member("to_date"@) == text_wire(t.to_date),
        x_search_wire(t).member("enable_image_understanding"@) == flag_wire(
            t.enable_image_understanding,
        ),
        x_search_wire(t).member("enable_video_understanding"@) == flag_wire(
            t.enable_video_understanding,
        ),
{
    lemma_x_search_keys_differ();
    lemma_x_search_member(t, "type"@);
    lemma_x_search_member(t, "allowed_x_handles"@);
    lemma_x_search_member(t, "excluded_x_handles"@);
    lemma_x_search_member(t, "from_date"@);
    lemma_x_search_member(t, "to_date"@);
    lemma_x_search_member(t, "enable_image_understanding"@);
    lemma_x_search_member(t, "enable_video_understanding"@);
}

/// What an object of two members holds under any key.
proof fn lemma_members_of_two(
    k1: Seq<char>,
    v1: JsonData,
    k2: Seq<char>,
    v2: JsonData,
    key: Seq<char>,
)
    ensures
        JsonData::record().with(k1, v1).with(k2, v2) is Record,
        JsonData::record().with(k1, v1).with(k2, v2).member(key) == if key == k2 {
            Some(v2)
        } else if key == k1 {
            Some(v1)
        } else {
            None
        },
{
    let d0 = JsonData::record();
    let d1 = d0.with(k1, v1);
    lemma_member_with(d0, k1, v1, key);
    lemma_member_with(d1, k2, v2, key);
}

/// What an object of three members holds under any key.
proof fn lemma_members_of_three(
    k1: Seq<char>,
    v1: JsonData,
    k2: Seq<char>,
    v2: JsonData,
    k3: Seq<char>,
    v3: JsonData,
    key: Seq<char>,
)
    ensures
        JsonData::record().with(k1, v1).with(k2, v2).with(k3, v3) is Record,
        JsonData::record().with(k1, v1).with(k2, v2).with(k3, v3).member(key) == if key == k3 {
            Some(v3)
        } else if key == k2 {
            Some(v2)
        } else if key == k1 {
            Some(v1)
        } else {
            None
        },
{
    let d2 = JsonData::record().with(k1, v1).with(k2, v2);
    lemma_members_of_two(k1, v1, k2, v2, key);
    lemma_member_with(d2, k3, v3, key);
}

/// An optional text that was written is read back as it was.
proof fn lemma_text_reads_back(text: Option<Seq<char>>)
    ensures
        optional_text(Some(or_null(text_wire(text)))) == Ok::<Option<Seq<char>>, ParseError>(text),
{
}

/// An optional count that was written is read back as it was.
proof fn lemma_count_reads_back(count: Option<u32>)
    ensures
        optional_count(Some(or_null(budget_wire(count)))) == Ok::<Option<u32>, ParseError>(count),
{
}

/// An annotation that was written is read back as it was.
proof fn lemma_annotation_reads_back(a: AnnotationView)
    ensures
        annotation_of(annotation_wire(a)) == Ok::<AnnotationView, ParseError>(a),
{
    reveal_strlit("url");
    reveal_strlit("title");
    assert("url"@.len() == 3 && "title"@.len() == 5);
    let url = or_null(text_wire(a.url));
    let title = or_null(text_wire(a.title));
    lemma_members_of_two("url"@, url, "title"@, title, "url"@);
    lemma_members_of_two("url"@, url, "title"@, title, "title"@);
    lemma_text_reads_back(a.url);
    lemma_text_reads_back(a.title);
}

/// A search result that was written is read back as it was.
proof fn lemma_result_reads_back(r: WebSearchResultView)
    ensures
        result_of(result_wire(r)) == Ok::<WebSearchResultView, ParseError>(r),
{
    reveal_strlit("url");
    reveal_strlit("title");
    assert("url"@.len() == 3 && "title"@.len() == 5);
    let url = or_null(text_wire(r.url));
    let title = or_null(text_wire(r.title));
    lemma_members_of_two("url"@, url, "title"@, title, "url"@);
    lemma_members_of_two("url"@, url, "title"@, title, "title"@);
    lemma_text_reads_back(r.url);
    lemma_text_reads_back(r.title);
}

/// An optional list of annotations that was written is read back as it
/// was.
proof fn lemma_annotations_read_back(list: Option<Seq<AnnotationView>>)
    ensures
        optional_annotations(Some(annotations_wire(list))) == Ok::<
            Option<Seq<AnnotationView>>,
            ParseError,
        >(list),
{
    if let Some(l) = list {
        let items = l.map_values(|a: AnnotationView| annotation_wire(a));
        assert forall|i: int| 0 <= i < items.len() implies (#[trigger] annotation_of(items[i]))
            == Ok::<AnnotationView, ParseError>(l[i]) by {
            lemma_annotation_reads_back(l[i]);
        }
        assert(annotations_of(items)->Ok_0 =~= l);
    }
}

/// An optional list of search results that was written is read back as it
/// was.
proof fn lemma_results_read_back(list: Option<Seq<WebSearchResultView>>)
    ensures
        optional_results(Some(results_wire(list))) == Ok::<
            Option<Seq<WebSearchResultView>>,
            ParseError,
        >(list),
{
    if let Some(l) = list {
        let items = l.map_values(|r: WebSearchResultView| result_wire(r));
        assert forall|i: int| 0 <= i < items.len() implies (#[trigger] result_of(items[i]))
            == Ok::<WebSearchResultView, ParseError>(l[i]) by {
            lemma_result_reads_back(l[i]);
        }
        assert(results_of(items)->Ok_0 =~= l);
    }
}

/// A content element that was written is read back as it was.
proof fn lemma_content_reads_back(c: ContentView)
    ensures
        content_of(content_wire(c)) == Ok::<ContentView, ParseError>(c),
{
    reveal_strlit("type");
    reveal_strlit("text");
    reveal_strlit("annotations");
    assert("type"@[1] == 'y');
    assert("text"@[1] == 'e');
    let kind = JsonData::Text(c.kind);
    let text = or_null(text_wire(c.text));
    let annotations = annotations_wire(c.annotations);
    lemma_members_of_three("type"@, kind, "text"@, text, "annotations"@, annotations, "type"@);
    lemma_members_of_three("type"@, kind, "text"@, text, "annotations"@, annotations, "text"@);
    lemma_members_of_three(
        "type"@,
        kind,
        "text"@,
        text,
        "annotations"@,
        annotations,
        "annotations"@,
    );
    lemma_text_reads_back(c.text);
    lemma_annotations_read_back(c.annotations);
}

/// An optional list of content elements that was written is read back as
/// it was.
proof fn lemma_contents_read_back(list: Option<Seq<ContentView>>)
    ensures
        optional_contents(Some(contents_wire(list))) == Ok::<Option<Seq<ContentView>>, ParseError>(
            list,
        ),
{
    if let Some(l) = list {
        let items = l.map_values(|c: ContentView| content_wire(c));
        assert forall|i: int| 0 <= i < items.len() implies (#[trigger] content_of(items[i]))
            == Ok::<ContentView, ParseError>(l[i]) by {
            lemma_content_reads_back(l[i]);
        }
        assert(contents_of(items)->Ok_0 =~= l);
    }
}

/// An output item that was written is read back as it was.
proof fn lemma_output_reads_back(o: OutputView)
    ensures
        output_of(output_wire(o)) == Ok::<OutputView, ParseError>(o),
{
    reveal_strlit("type");
    reveal_strlit("content");
    reveal_strlit("results");
    assert("content"@[0] == 'c');
    assert("results"@[0] == 'r');
    let kind = JsonData::Text(o.kind);
    let content = contents_wire(o.content);
    let results = results_wire(o.results);
    lemma_members_of_three("type"@, kind, "content"@, content, "results"@, results, "type"@);
    lemma_members_of_three("type"@, kind, "content"@, content, "results"@, results, "content"@);
    lemma_members_of_three("type"@, kind, "content"@, content, "results"@, results, "results"@);
    lemma_contents_read_back(o.content);
    lemma_results_read_back(o.results);
}

/// An optional list of output items that was written is read back as it
/// was.
proof fn lemma_outputs_read_back(list: Option<Seq<OutputView>>)
    ensures
        optional_outputs(Some(outputs_wire(list))) == Ok::<Option<Seq<OutputView>>, ParseError>(
            list,
        ),
{
    if let Some(l) = list {
        let items = l.map_values(|o: OutputView| output_wire(o));
        assert forall|i: int| 0 <= i < items.len() implies (#[trigger] output_of(items[i]))
            == Ok::<OutputView, ParseError>(l[i]) by {
            lemma_output_reads_back(l[i]);
        }
        assert(outputs_of(items)->Ok_0 =~= l);
    }
}

/// Optional token counts that were written are read back as they were.
proof fn lemma_usage_reads_back(usage: Option<UsageView>)
    ensures
        optional_usage(Some(usage_wire(usage))) == Ok::<Option<UsageView>, ParseError>(usage),
{
    if let Some(u) = usage {
        reveal_strlit("input_tokens");
        reveal_strlit("output_tokens");
        assert("input_tokens"@.len() == 12 && "output_tokens"@.len() == 13);
        let input = or_null(budget_wire(u.input_tokens));
        let output = or_null(budget_wire(u.output_tokens));
        lemma_members_of_two("input_tokens"@, input, "output_tokens"@, output, "input_tokens"@);
        lemma_members_of_two("input_tokens"@, input, "output_tokens"@, output, "output_tokens"@);
        lemma_count_reads_back(u.input_tokens);
        lemma_count_reads_back(u.output_tokens);
    }
}

/// An optional reported error that was written is read back as it was.
proof fn lemma_api_error_reads_back(error: Option<ApiErrorView>)
    ensures
        optional_api_error(Some(api_error_wire(error))) == Ok::<Option<ApiErrorView>, ParseError>(
            error,
        ),
{
    if let Some(e) = error {
        reveal_strlit("message");
        reveal_strlit("code");
        assert("message"@.len() == 7 && "code"@.len() == 4);
        let message = or_null(text_wire(e.message));
        let code = or_null(text_wire(e.code));
        lemma_members_of_two("message"@, message, "code"@, code, "message"@);
        lemma_members_of_two("message"@, message, "code"@, code, "code"@);
        lemma_text_reads_back(e.message);
        lemma_text_reads_back(e.code);
    }
}

/// What the wire form of a reply holds under any key.
proof fn lemma_response_member(r: GrokResponseView, key: Seq<char>)
    ensures
        response_wire(r) is Record,
        response_wire(r).member(key) == if key == "error"@ {
            Some(api_error_wire(r.error))
        } else if key == "usage"@ {
            Some(usage_wire(r.usage))
        } else if key == "output"@ {
            Some(outputs_wire(r.output))
        } else if key == "status"@ {
            Some(or_null(text_wire(r.status)))
        } else if key == "id"@ {
            Some(or_null(text_wire(r.id)))
        } else {
            None
        },
{
    let d3 = JsonData::record().with("id"@, or_null(text_wire(r.id))).with(
        "status"@,
        or_null(text_wire(r.status)),
    ).with("output"@, outputs_wire(r.output));
    lemma_members_of_three(
        "id"@,
        or_null(text_wire(r.id)),
        "status"@,
        or_null(text_wire(r.status)),
        "output"@,
        outputs_wire(r.output),
        key,
    );
    let d4 = d3.with("usage"@, usage_wire(r.usage));
    lemma_member_with(d3, "usage"@, usage_wire(r.usage), key);
    lemma_member_with(d4, "error"@, api_error_wire(r.error), key);
}

/// A reply that is written as JSON and read again is the reply that was
/// written: nothing that the library knows of a reply is lost or changed
/// on the way through its wire form.
pub proof fn law_reply_reads_back(r: GrokResponseView)
    ensures
        response_of(response_wire(r)) == Ok::<GrokResponseView, ParseError>(r),
{
    reveal_strlit("id");
    reveal_strlit("status");
    reveal_strlit("output");
    reveal_strlit("usage");
    reveal_strlit("error");
    assert("status"@[0] == 's');
    assert("output"@[0] == 'o');
    assert("usage"@[0] == 'u');
    assert("error"@[0] == 'e');
    lemma_response_member(r, "id"@);
    lemma_response_member(r, "status"@);
    lemma_response_member(r, "output"@);
    lemma_response_member(r, "usage"@);
    lemma_response_member(r, "error"@);
    lemma_text_reads_back(r.id);
    lemma_text_reads_back(r.status);
    lemma_outputs_read_back(r.output);
    lemma_usage_reads_back(r.usage);
    lemma_api_error_reads_back(r.error);
}

} // verus!
