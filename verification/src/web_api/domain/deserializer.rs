//! The graph-connection envelope, unwrapped: lists of `{node: T}` wrappers become
//! plain lists, a list that stands for one optional value becomes that value,
//! and `{count: N}` becomes `N`.

use vstd::prelude::*;
use crate::web_api::decode::{
    first_failing, keyed, lemma_first_failing, outcome, within, Decode, DecodeError, Fault,
    PathStepView,
};
use crate::web_api::domain::{Media, MediaComment};
use crate::web_api::json::{Json, JsonView};

verus! {

/// One `{node: T}` wrapper of a graph connection. Its value is that of the `T` inside.
#[derive(Debug, PartialEq)]
pub struct Edge<T> {
    pub node: T,
}

impl<T: DeepView> DeepView for Edge<T> {
    type V = T::V;

    open spec fn deep_view(&self) -> T::V {
        self.node.deep_view()
    }
}

impl<T: Decode> Decode for Edge<T> {
    open spec fn parse(j: JsonView) -> Result<T::V, Fault> {
        j.required::<T>("node"@)
    }

    fn decode(j: &Json) -> (r: Result<Edge<T>, DecodeError>) {
        match j.required::<T>("node") {
            Ok(node) => Ok(Edge { node }),
            Err(e) => Err(e),
        }
    }
}

/// The text of a caption, as `{text: S}` carries it. Its value is the text.
#[derive(Debug, PartialEq)]
pub struct CaptionText {
    pub text: String,
}

impl DeepView for CaptionText {
    type V = Seq<char>;

    open spec fn deep_view(&self) -> Seq<char> {
        self.text@
    }
}

impl Decode for CaptionText {
    open spec fn parse(j: JsonView) -> Result<Seq<char>, Fault> {
        j.required::<String>("text"@)
    }

    fn decode(j: &Json) -> (r: Result<CaptionText, DecodeError>) {
        match j.required::<String>("text") {
            Ok(text) => Ok(CaptionText { text }),
            Err(e) => Err(e),
        }
    }
}

/// The nodes of a list of wrappers, in the order of the list.
pub open spec fn nodes_of<T: Decode>(j: JsonView) -> Result<Seq<T::V>, Fault> {
    Vec::<Edge<T>>::parse(j)
}

/// The caption that `{edges: [{node: {text: S}}, ..]}` stands for: the text of
/// the last edge, and none where there is no edge.
pub open spec fn caption_of(j: JsonView) -> Result<Option<Seq<char>>, Fault> {
    match j.required::<Vec<Edge<CaptionText>>>("edges"@) {
        Ok(texts) => Ok(
            if texts.len() == 0 {
                None
            } else {
                Some(texts.last())
            },
        ),
        Err(e) => Err(e),
    }
}

/// The number that `{count: N}` carries.
pub open spec fn count_of(j: JsonView) -> Result<i32, Fault> {
    j.required::<i32>("count"@)
}

/// The nodes of the list of wrappers that is the member `key` of `j`.
pub open spec fn nodes_at<T: Decode>(j: JsonView, key: Seq<char>) -> Result<Seq<T::V>, Fault> {
    match j.at(key) {
        Ok(list) => within(nodes_of::<T>(list), PathStepView::Key(key)),
        Err(e) => Err(e),
    }
}

/// The caption that the member `key` of `j` stands for.
pub open spec fn caption_at(j: JsonView, key: Seq<char>) -> Result<Option<Seq<char>>, Fault> {
    match j.at(key) {
        Ok(connection) => within(caption_of(connection), PathStepView::Key(key)),
        Err(e) => Err(e),
    }
}

/// The number that the member `key` of `j` carries as `{count: N}`.
pub open spec fn count_at(j: JsonView, key: Seq<char>) -> Result<i32, Fault> {
    match j.at(key) {
        Ok(counter) => within(count_of(counter), PathStepView::Key(key)),
        Err(e) => Err(e),
    }
}

/// A list of wrappers unwraps to as many nodes, in the order of the list: the node
/// at each index is what the wrapper at that index holds. It fails where a
/// wrapper does.
pub proof fn lemma_nodes_keep_order<T: Decode>(items: Seq<JsonView>)
    ensures
        match nodes_of::<T>(JsonView::Array(items)) {
            Ok(nodes) => nodes.len() == items.len() && forall|i: int|
                0 <= i < items.len() ==> #[trigger] items[i].required::<T>("node"@) == Ok::<
                    T::V,
                    Fault,
                >(nodes[i]),
            Err(_) => exists|i: int|
                0 <= i < items.len() && #[trigger] items[i].required::<T>("node"@) is Err,
        },
{
    lemma_first_failing::<Edge<T>>(items, 0);
    if first_failing::<Edge<T>>(items, 0) is Some {
        let at = first_failing::<Edge<T>>(items, 0)->Some_0;
        assert(items[at].required::<T>("node"@) is Err);
    }
}

/// The caption of a connection without edges is absent; with edges, it is the
/// text that the node of the last edge holds. It fails where an edge is malformed.
pub proof fn lemma_caption_is_last_edge(j: JsonView, edges: Seq<JsonView>)
    requires
        j.at("edges"@) == Ok::<JsonView, Fault>(JsonView::Array(edges)),
    ensures
        edges.len() == 0 ==> caption_of(j) == Ok::<Option<Seq<char>>, Fault>(None),
        edges.len() > 0 ==> match caption_of(j) {
            Ok(caption) => caption matches Some(text) && Ok::<Seq<char>, Fault>(text)
                == Edge::<CaptionText>::parse(edges.last()),
            Err(_) => exists|i: int|
                0 <= i < edges.len() && #[trigger] Edge::<CaptionText>::parse(edges[i]) is Err,
        },
{
    lemma_first_failing::<Edge<CaptionText>>(edges, 0);
}

/// Unwraps a list of `{node: T}` wrappers into the list of the nodes, in order.
/// A wrapper without `node`, or with one that is no `T`, fails the whole list.
pub fn unwrap_nodes<T: Decode>(j: &Json) -> (r: Result<Vec<T>, DecodeError>)
    ensures
        outcome(r) == nodes_of::<T>(j@),
{
    match Vec::<Edge<T>>::decode(j) {
        Ok(edges) => {
            let ghost wrapped = edges.deep_view();
            let mut nodes: Vec<T> = Vec::new();
            for edge in it: edges
                invariant
                    it.seq() == edges@,
                    nodes@.len() == it.index(),
                    forall|k: int|
                        0 <= k < it.index() ==> (#[trigger] nodes@[k]).deep_view()
                            == edges@[k].deep_view(),
            {
                nodes.push(edge.node);
            }
            assert(nodes.deep_view() =~= wrapped);
            Ok(nodes)
        },
        Err(e) => Err(e),
    }
}

/// The medias of a feed, from the list of their wrappers.
pub fn nested_media(j: &Json) -> (r: Result<Vec<Media>, DecodeError>)
    ensures
        outcome(r) == nodes_of::<Media>(j@),
{
    unwrap_nodes::<Media>(j)
}

/// The comments of a media, from the list of their wrappers.
pub fn nested_media_comment(j: &Json) -> (r: Result<Vec<MediaComment>, DecodeError>)
    ensures
        outcome(r) == nodes_of::<MediaComment>(j@),
{
    unwrap_nodes::<MediaComment>(j)
}

/// The caption of a media: the text of the last edge of
/// `{edges: [{node: {text: S}}, ..]}`, and none where the list is empty.
pub fn nested_media_caption(j: &Json) -> (r: Result<Option<String>, DecodeError>)
    ensures
        outcome(r) == caption_of(j@),
{
    match j.required::<Vec<Edge<CaptionText>>>("edges") {
        Ok(edges) => {
            let mut edges = edges;
            let ghost texts = edges.deep_view();
            match edges.pop() {
                Some(last) => {
                    assert(last.node.text@ == texts.last());
                    Ok(Some(last.node.text))
                },
                None => Ok(None),
            }
        },
        Err(e) => Err(e),
    }
}

/// The number of likes of a media, from `{count: N}`.
pub fn nested_media_likes(j: &Json) -> (r: Result<i32, DecodeError>)
    ensures
        outcome(r) == count_of(j@),
{
    j.required::<i32>("count")
}

/// The caption that the member `key` of `j` stands for.
pub fn read_caption(j: &Json, key: &str) -> (r: Result<Option<String>, DecodeError>)
    ensures
        outcome(r) == caption_at(j@, key@),
{
    match j.at(key) {
        Ok(connection) => keyed(nested_media_caption(connection), key),
        Err(e) => Err(e),
    }
}

/// The number that the member `key` of `j` carries as `{count: N}`.
pub fn read_count(j: &Json, key: &str) -> (r: Result<i32, DecodeError>)
    ensures
        outcome(r) == count_at(j@, key@),
{
    match j.at(key) {
        Ok(counter) => keyed(nested_media_likes(counter), key),
        Err(e) => Err(e),
    }
}

} // verus!
