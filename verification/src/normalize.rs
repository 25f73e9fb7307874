//! From a reply to its canonical result: one body of text and a list of
//! sources in which no url occurs twice.
//!
//! The output items of a reply are walked in their order. A message gives
//! its texts to the body and its annotations to the sources; the results
//! of a search give their entries to the sources. A source is registered
//! only if no source registered before it has the same url, so the first
//! title seen for a url is the one that stays.

use crate::response::Annotation;
use crate::response::AnnotationView;
use crate::response::Content;
use crate::response::ContentView;
use crate::response::GrokResponse;
use crate::response::GrokResponseView;
use crate::response::Output;
use crate::response::OutputView;
use crate::response::WebSearchResult;
use crate::response::WebSearchResultView;
use crate::text::same_text;
use vstd::prelude::*;

verus! {

/// The kind of an output item that is a message.
pub const MESSAGE_KIND: &'static str = "message";

/// The kind of an output item that holds the results of a web search.
pub const WEB_RESULTS_KIND: &'static str = "web_search_result";

/// The kind of an output item that holds the results of a search on X.
pub const X_RESULTS_KIND: &'static str = "x_search_result";

/// One of the two kinds of a content element that holds text.
pub const OUTPUT_TEXT_KIND: &'static str = "output_text";

/// The other kind of a content element that holds text.
pub const TEXT_KIND: &'static str = "text";

/// The title of an annotation that has none.
pub const ANNOTATION_TITLE: &'static str = "Source";

/// The title of a web result that has none.
pub const WEB_RESULT_TITLE: &'static str = "Web Result";

/// The title of a result from X that has none.
pub const X_RESULT_TITLE: &'static str = "X Post";

/// The message of a reported error that has none.
pub const UNKNOWN_ERROR: &'static str = "Unknown error";

/// A page or post that the answer draws on.
#[derive(Debug, Clone)]
pub struct Source {
    pub title: String,
    pub url: String,
}

/// What a [`Source`] holds.
pub ghost struct SourceView {
    pub title: Seq<char>,
    pub url: Seq<char>,
}

impl View for Source {
    type V = SourceView;

    open spec fn view(&self) -> SourceView {
        SourceView { title: self.title@, url: self.url@ }
    }
}

impl DeepView for Source {
    type V = SourceView;

    open spec fn deep_view(&self) -> SourceView {
        self@
    }
}

/// A reply in canonical form.
#[derive(Debug, Clone)]
pub struct CanonicalResult {
    /// The texts of all messages, one after the other with nothing between
    /// them.
    pub body: String,
    /// The sources in the order in which they were first seen.
    pub sources: Vec<Source>,
    /// The id under which the conversation can be continued.
    pub response_id: Option<String>,
    /// The message of the error that the service reported, if it did.
    pub error: Option<String>,
}

/// What a [`CanonicalResult`] holds.
pub ghost struct CanonicalResultView {
    pub body: Seq<char>,
    pub sources: Seq<SourceView>,
    pub response_id: Option<Seq<char>>,
    pub error: Option<Seq<char>>,
}

impl View for CanonicalResult {
    type V = CanonicalResultView;

    open spec fn view(&self) -> CanonicalResultView {
        CanonicalResultView {
            body: self.body@,
            sources: self.sources.deep_view(),
            response_id: self.response_id.deep_view(),
            error: self.error.deep_view(),
        }
    }
}

/// Whether a content element of this kind holds text.
pub open spec fn is_text_kind(kind: Seq<char>) -> bool {
    kind == OUTPUT_TEXT_KIND@ || kind == TEXT_KIND@
}

/// The source that an entry with this url and title puts forward: none
/// without a url, and with the default title where it has no title.
pub open spec fn candidate(
    url: Option<Seq<char>>,
    title: Option<Seq<char>>,
    default_title: Seq<char>,
) -> Seq<SourceView> {
    match url {
        Some(u) => seq![
            SourceView {
                title: match title {
                    Some(t) => t,
                    None => default_title,
                },
                url: u,
            },
        ],
        None => Seq::empty(),
    }
}

/// The sources that a list of annotations puts forward, in order.
pub open spec fn annotation_candidates(list: Seq<AnnotationView>) -> Seq<SourceView>
    decreases list.len(),
{
    if list.len() == 0 {
        Seq::empty()
    } else {
        annotation_candidates(list.drop_last()) + candidate(
            list.last().url,
            list.last().title,
            ANNOTATION_TITLE@,
        )
    }
}

/// The sources that a list of search results puts forward, in order.
pub open spec fn result_candidates(
    list: Seq<WebSearchResultView>,
    default_title: Seq<char>,
) -> Seq<SourceView>
    decreases list.len(),
{
    if list.len() == 0 {
        Seq::empty()
    } else {
        result_candidates(list.drop_last(), default_title) + candidate(
            list.last().url,
            list.last().title,
            default_title,
        )
    }
}

/// The sources that a content element puts forward: its annotations, where
/// it is an element that holds text.
pub open spec fn content_candidates(c: ContentView) -> Seq<SourceView> {
    if is_text_kind(c.kind) {
        match c.annotations {
            Some(list) => annotation_candidates(list),
            None => Seq::empty(),
        }
    } else {
        Seq::empty()
    }
}

/// The text that a content element gives to the body.
pub open spec fn content_text(c: ContentView) -> Seq<char> {
    if is_text_kind(c.kind) {
        match c.text {
            Some(t) => t,
            None => Seq::empty(),
        }
    } else {
        Seq::empty()
    }
}

/// The sources that a list of content elements puts forward, in order.
pub open spec fn contents_candidates(list: Seq<ContentView>) -> Seq<SourceView>
    decreases list.len(),
{
    if list.len() == 0 {
        Seq::empty()
    } else {
        contents_candidates(list.drop_last()) + content_candidates(list.last())
    }
}

/// The text that a list of content elements gives to the body.
pub open spec fn contents_text(list: Seq<ContentView>) -> Seq<char>
    decreases list.len(),
{
    if list.len() == 0 {
        Seq::empty()
    } else {
        contents_text(list.drop_last()) + content_text(list.last())
    }
}

/// The sources that an output item puts forward. An item of a kind that
/// is not known puts forward none.
pub open spec fn output_candidates(o: OutputView) -> Seq<SourceView> {
    if o.kind == MESSAGE_KIND@ {
        match o.content {
            Some(list) => contents_candidates(list),
            None => Seq::empty(),
        }
    } else if o.kind == WEB_RESULTS_KIND@ {
        match o.results {
            Some(list) => result_candidates(list, WEB_RESULT_TITLE@),
            None => Seq::empty(),
        }
    } else if o.kind == X_RESULTS_KIND@ {
        match o.results {
            Some(list) => result_candidates(list, X_RESULT_TITLE@),
            None => Seq::empty(),
        }
    } else {
        Seq::empty()
    }
}

/// The text that an output item gives to the body: that of its content,
/// where it is a message.
pub open spec fn output_text(o: OutputView) -> Seq<char> {
    if o.kind == MESSAGE_KIND@ {
        match o.content {
            Some(list) => contents_text(list),
            None => Seq::empty(),
        }
    } else {
        Seq::empty()
    }
}

/// The sources that a list of output items puts forward, in order.
pub open spec fn outputs_candidates(list: Seq<OutputView>) -> Seq<SourceView>
    decreases list.len(),
{
    if list.len() == 0 {
        Seq::empty()
    } else {
        outputs_candidates(list.drop_last()) + output_candidates(list.last())
    }
}

/// The text that a list of output items gives to the body.
pub open spec fn outputs_text(list: Seq<OutputView>) -> Seq<char>
    decreases list.len(),
{
    if list.len() == 0 {
        Seq::empty()
    } else {
        outputs_text(list.drop_last()) + output_text(list.last())
    }
}

/// All sources that a reply puts forward, in the order of the document,
/// each url as often as it occurs.
pub open spec fn candidates(r: GrokResponseView) -> Seq<SourceView> {
    match r.output {
        Some(list) => outputs_candidates(list),
        None => Seq::empty(),
    }
}

/// The body of a reply.
pub open spec fn body_of(r: GrokResponseView) -> Seq<char> {
    match r.output {
        Some(list) => outputs_text(list),
        None => Seq::empty(),
    }
}

/// Whether one of `sources` has the url `url`.
pub open spec fn knows(sources: Seq<SourceView>, url: Seq<char>) -> bool {
    exists|i: int| 0 <= i < sources.len() && (#[trigger] sources[i]).url == url
}

/// `sources` after `s` has been put forward: `s` is added at the end
/// unless its url is known already.
pub open spec fn register(sources: Seq<SourceView>, s: SourceView) -> Seq<SourceView> {
    if knows(sources, s.url) {
        sources
    } else {
        sources.push(s)
    }
}

/// `sources` after each of `list` has been put forward, in order.
pub open spec fn register_all(sources: Seq<SourceView>, list: Seq<SourceView>) -> Seq<SourceView>
    decreases list.len(),
{
    if list.len() == 0 {
        sources
    } else {
        register(register_all(sources, list.drop_last()), list.last())
    }
}

/// The message of a reported error.
pub open spec fn error_message(message: Option<Seq<char>>) -> Seq<char> {
    match message {
        Some(m) => m,
        None => UNKNOWN_ERROR@,
    }
}

/// The canonical result of a reply. Where the reply reports an error, the
/// result is that error and nothing of the output.
pub open spec fn normalized(r: GrokResponseView) -> CanonicalResultView {
    match r.error {
        Some(e) => CanonicalResultView {
            body: Seq::empty(),
            sources: Seq::empty(),
            response_id: r.id,
            error: Some(error_message(e.message)),
        },
        None => CanonicalResultView {
            body: body_of(r),
            sources: register_all(Seq::empty(), candidates(r)),
            response_id: r.id,
            error: None,
        },
    }
}

/// Putting forward two lists one after the other is putting forward their
/// concatenation.
pub proof fn lemma_register_all_concat(
    sources: Seq<SourceView>,
    first: Seq<SourceView>,
    second: Seq<SourceView>,
)
    ensures
        register_all(sources, first + second) == register_all(
            register_all(sources, first),
            second,
        ),
    decreases second.len(),
{
    if second.len() == 0 {
        assert(first + second =~= first);
    } else {
        lemma_register_all_concat(sources, first, second.drop_last());
        assert((first + second).drop_last() =~= first + second.drop_last());
        assert((first + second).last() == second.last());
    }
}

/// Puts forward the source with this title and url.
fn register_source(sources: &mut Vec<Source>, title: String, url: String)
    ensures
        final(sources).deep_view() == register(
            old(sources).deep_view(),
            SourceView { title: title@, url: url@ },
        ),
{
    let mut i: usize = 0;
    while i < sources.len()
        invariant
            i <= sources.len(),
            *sources == *old(sources),
            forall|j: int| 0 <= j < i ==> (#[trigger] sources.deep_view()[j]).url != url@,
        decreases sources.len() - i,
    {
        if sources[i].url == url {
            proof {
                assert(sources.deep_view()[i as int].url == url@);
            }
            return ;
        }
        i += 1;
    }
    let ghost before = sources.deep_view();
    sources.push(Source { title, url });
    proof {
        assert(!knows(before, url@));
        assert(sources.deep_view() =~= before.push(SourceView { title: title@, url: url@ }));
    }
}

/// Puts forward what an entry with this url and title gives.
fn register_entry(
    sources: &mut Vec<Source>,
    url: &Option<String>,
    title: &Option<String>,
    default_title: &str,
)
    ensures
        final(sources).deep_view() == register_all(
            old(sources).deep_view(),
            candidate(url.deep_view(), title.deep_view(), default_title@),
        ),
{
    let ghost list = candidate(url.deep_view(), title.deep_view(), default_title@);
    match url {
        Some(u) => {
            let title = match title {
                Some(t) => t.clone(),
                None => String::from_str(default_title),
            };
            proof {
                assert(list.drop_last() =~= Seq::empty());
                assert(register_all(old(sources).deep_view(), list.drop_last()) == old(
                    sources,
                ).deep_view());
            }
            register_source(sources, title, u.clone());
        },
        None => {},
    }
}

/// Puts forward the sources of a list of annotations.
fn register_annotations(sources: &mut Vec<Source>, list: &Vec<Annotation>)
    ensures
        final(sources).deep_view() == register_all(
            old(sources).deep_view(),
            annotation_candidates(list.deep_view()),
        ),
{
    let mut i: usize = 0;
    while i < list.len()
        invariant
            i <= list.len(),
            sources.deep_view() == register_all(
                old(sources).deep_view(),
                annotation_candidates(list.deep_view().take(i as int)),
            ),
        decreases list.len() - i,
    {
        proof {
            let next = list.deep_view().take(i + 1);
            assert(next.drop_last() =~= list.deep_view().take(i as int));
            assert(next.last() == list[i as int]@);
            lemma_register_all_concat(
                old(sources).deep_view(),
                annotation_candidates(list.deep_view().take(i as int)),
                candidate(list[i as int]@.url, list[i as int]@.title, ANNOTATION_TITLE@),
            );
        }
        register_entry(sources, &list[i].url, &list[i].title, ANNOTATION_TITLE);
        i += 1;
    }
    proof {
        assert(list.deep_view().take(list.len() as int) =~= list.deep_view());
    }
}

/// Puts forward the sources of a list of search results.
fn register_results(sources: &mut Vec<Source>, list: &Vec<WebSearchResult>, default_title: &str)
    ensures
        final(sources).deep_view() == register_all(
            old(sources).deep_view(),
            result_candidates(list.deep_view(), default_title@),
        ),
{
    let mut i: usize = 0;
    while i < list.len()
        invariant
            i <= list.len(),
            sources.deep_view() == register_all(
                old(sources).deep_view(),
                result_candidates(list.deep_view().take(i as int), default_title@),
            ),
        decreases list.len() - i,
    {
        proof {
            let next = list.deep_view().take(i + 1);
            assert(next.drop_last() =~= list.deep_view().take(i as int));
            assert(next.last() == list[i as int]@);
            lemma_register_all_concat(
                old(sources).deep_view(),
                result_candidates(list.deep_view().take(i as int), default_title@),
                candidate(list[i as int]@.url, list[i as int]@.title, default_title@),
            );
        }
        register_entry(sources, &list[i].url, &list[i].title, default_title);
        i += 1;
    }
    proof {
        assert(list.deep_view().take(list.len() as int) =~= list.deep_view());
    }
}

/// Takes in one content element: its text and its annotations.
fn absorb_content(body: &mut String, sources: &mut Vec<Source>, content: &Content)
    ensures
        final(body)@ == old(body)@ + content_text(content@),
        final(sources).deep_view() == register_all(
            old(sources).deep_view(),
            content_candidates(content@),
        ),
{
    if same_text(content.kind.as_str(), OUTPUT_TEXT_KIND) || same_text(
        content.kind.as_str(),
        TEXT_KIND,
    ) {
        if let Some(text) = &content.text {
            body.append(text.as_str());
        }
        if let Some(annotations) = &content.annotations {
            register_annotations(sources, annotations);
        }
    }
    proof {
        assert(body@ =~= old(body)@ + content_text(content@));
    }
}

/// Takes in the content elements of a message.
fn absorb_contents(body: &mut String, sources: &mut Vec<Source>, list: &Vec<Content>)
    ensures
        final(body)@ == old(body)@ + contents_text(list.deep_view()),
        final(sources).deep_view() == register_all(
            old(sources).deep_view(),
            contents_candidates(list.deep_view()),
        ),
{
    let mut i: usize = 0;
    proof {
        assert(body@ =~= old(body)@ + contents_text(list.deep_view().take(0)));
    }
    while i < list.len()
        invariant
            i <= list.len(),
            body@ == old(body)@ + contents_text(list.deep_view().take(i as int)),
            sources.deep_view() == register_all(
                old(sources).deep_view(),
                contents_candidates(list.deep_view().take(i as int)),
            ),
        decreases list.len() - i,
    {
        let ghost body_before = body@;
        proof {
            let next = list.deep_view().take(i + 1);
            assert(next.drop_last() =~= list.deep_view().take(i as int));
            assert(next.last() == list[i as int]@);
            lemma_register_all_concat(
                old(sources).deep_view(),
                contents_candidates(list.deep_view().take(i as int)),
                content_candidates(list[i as int]@),
            );
        }
        absorb_content(body, sources, &list[i]);
        proof {
            assert(body@ =~= old(body)@ + contents_text(list.deep_view().take(i + 1)));
        }
        i += 1;
    }
    proof {
        assert(list.deep_view().take(list.len() as int) =~= list.deep_view());
    }
}

/// Takes in one output item.
fn absorb_output(body: &mut String, sources: &mut Vec<Source>, output: &Output)
    ensures
        final(body)@ == old(body)@ + output_text(output@),
        final(sources).deep_view() == register_all(
            old(sources).deep_view(),
            output_candidates(output@),
        ),
{
    if same_text(output.kind.as_str(), MESSAGE_KIND) {
        if let Some(contents) = &output.content {
            absorb_contents(body, sources, contents);
        }
    } else if same_text(output.kind.as_str(), WEB_RESULTS_KIND) {
        if let Some(results) = &output.results {
            register_results(sources, results, WEB_RESULT_TITLE);
        }
    } else if same_text(output.kind.as_str(), X_RESULTS_KIND) {
        if let Some(results) = &output.results {
            register_results(sources, results, X_RESULT_TITLE);
        }
    }
    proof {
        assert(body@ =~= old(body)@ + output_text(output@));
    }
}

/// Brings a reply into canonical form.
pub fn normalize(response: &GrokResponse) -> (result: CanonicalResult)
    ensures
        result@ == normalized(response@),
{
    if let Some(error) = &response.error {
        let message = match &error.message {
            Some(m) => m.clone(),
            None => String::from_str(UNKNOWN_ERROR),
        };
        let result = CanonicalResult {
            body: String::new(),
            sources: Vec::new(),
            response_id: response.id.clone(),
            error: Some(message),
        };
        proof {
            assert(result@.sources =~= Seq::empty());
        }
        return result;
    }
    let mut body = String::new();
    let mut sources: Vec<Source> = Vec::new();
    if let Some(outputs) = &response.output {
        let mut i: usize = 0;
        proof {
            assert(sources.deep_view() =~= Seq::empty());
            assert(body@ =~= outputs_text(outputs.deep_view().take(0)));
        }
        while i < outputs.len()
            invariant
                i <= outputs.len(),
                body@ == outputs_text(outputs.deep_view().take(i as int)),
                sources.deep_view() == register_all(
                    Seq::empty(),
                    outputs_candidates(outputs.deep_view().take(i as int)),
                ),
            decreases outputs.len() - i,
        {
            proof {
                let next = outputs.deep_view().take(i + 1);
                assert(next.drop_last() =~= outputs.deep_view().take(i as int));
                assert(next.last() == outputs[i as int]@);
                lemma_register_all_concat(
                    Seq::empty(),
                    outputs_candidates(outputs.deep_view().take(i as int)),
                    output_candidates(outputs[i as int]@),
                );
            }
            absorb_output(&mut body, &mut sources, &outputs[i]);
            i += 1;
        }
        proof {
            assert(outputs.deep_view().take(outputs.len() as int) =~= outputs.deep_view());
        }
    } else {
        proof {
            assert(sources.deep_view() =~= Seq::empty());
        }
    }
    CanonicalResult { body, sources, response_id: response.id.clone(), error: None }
}

} // verus!
