//! The video site: reading its search results page, and where the audio of
//! a video is fetched from and to.
//!
//! The page is a long text with one JSON document in it. The document stands
//! behind the last opening marker and ends before the first closing marker
//! that follows it; its member `contents` lists the results, of which those
//! with a member `videoRenderer` are videos.

use vstd::prelude::*;
use vstd::slice::slice_subrange;
use vstd::string::StringSliceAdditionalSpecFns;
use serde_json::Value;
use crate::error::Error;
use crate::json::{
    elements, json_parsed, json_text, json_tree, json_trees, member, parse, render, JsonView,
};

verus! {

/// One video of a search result.
#[derive(Debug)]
pub struct YoutubeResult {
    pub title: String,
    pub href: String,
}

/// The mathematical value of a [`YoutubeResult`].
pub struct YoutubeResultView {
    pub title: Seq<char>,
    pub href: Seq<char>,
}

impl View for YoutubeResult {
    type V = YoutubeResultView;

    open spec fn view(&self) -> YoutubeResultView {
        YoutubeResultView { title: self.title@, href: self.href@ }
    }
}

/// The views of a sequence of results, in order.
pub open spec fn result_views(results: Seq<YoutubeResult>) -> Seq<YoutubeResultView> {
    results.map_values(|r: YoutubeResult| r@)
}

/// Why a page could not be read.
pub enum Fault {
    /// The text between the markers is no JSON document.
    Json,
    /// The document lacks something; the message says what.
    Message(Seq<char>),
}

/// Whether what a function returned is the error that reports `fault`.
pub open spec fn tells<T>(returned: Result<T, Error>, fault: Fault) -> bool {
    match fault {
        Fault::Json => returned matches Err(Error::SerdeJson(_)),
        Fault::Message(message) => returned matches Err(Error::Other(text)) && text@ == message,
    }
}

/// Whether what a function returned is what `expected` says: the same
/// results in the same order, or the error that reports the same fault.
pub open spec fn agrees(
    returned: Result<Vec<YoutubeResult>, Error>,
    expected: Result<Seq<YoutubeResultView>, Fault>,
) -> bool {
    match expected {
        Ok(list) => returned matches Ok(results) && result_views(results@) == list,
        Err(fault) => tells(returned, fault),
    }
}

/// Whether `pattern` stands in `text` at position `at`.
pub open spec fn occurs_at(text: Seq<u8>, pattern: Seq<u8>, at: int) -> bool {
    &&& 0 <= at
    &&& at + pattern.len() <= text.len()
    &&& text.subrange(at, at + pattern.len()) == pattern
}

/// Whether `at` is the first position at which `pattern` stands in `text`.
pub open spec fn is_first_occurrence(text: Seq<u8>, pattern: Seq<u8>, at: int) -> bool {
    &&& occurs_at(text, pattern, at)
    &&& forall|other: int| occurs_at(text, pattern, other) ==> at <= other
}

/// Whether `at` is the last position at which `pattern` stands in `text`.
pub open spec fn is_last_occurrence(text: Seq<u8>, pattern: Seq<u8>, at: int) -> bool {
    &&& occurs_at(text, pattern, at)
    &&& forall|other: int| occurs_at(text, pattern, other) ==> other <= at
}

/// What follows the last occurrence of `pattern` in `text`; all of `text`
/// where there is none.
pub open spec fn after_last(text: Seq<u8>, pattern: Seq<u8>) -> Seq<u8> {
    if exists|at: int| occurs_at(text, pattern, at) {
        let at = choose|at: int| is_last_occurrence(text, pattern, at);
        text.skip(at + pattern.len())
    } else {
        text
    }
}

/// What precedes the first occurrence of `pattern` in `text`; all of `text`
/// where there is none.
pub open spec fn before_first(text: Seq<u8>, pattern: Seq<u8>) -> Seq<u8> {
    if exists|at: int| occurs_at(text, pattern, at) {
        let at = choose|at: int| is_first_occurrence(text, pattern, at);
        text.take(at)
    } else {
        text
    }
}

/// The marker behind which the document starts.
pub open spec fn opening_marker() -> Seq<u8> {
    "{\"itemSectionRenderer\":".spec_bytes()
}

/// The marker before which the document ends.
pub open spec fn closing_marker() -> Seq<u8> {
    "},{\"continuationItemRenderer\":{".spec_bytes()
}

/// The part of a page that holds the JSON document.
pub open spec fn document_text(page: Seq<u8>) -> Seq<u8> {
    before_first(after_last(page, opening_marker()), closing_marker())
}

/// `text` without its double quotes.
pub open spec fn unquoted(text: Seq<char>) -> Seq<char> {
    text.filter(|c: char| c != '"')
}

/// The member of `value` under `key`, or the fault that `complaint` names.
pub open spec fn member_or(value: JsonView, key: Seq<char>, complaint: Seq<char>) -> Result<
    JsonView,
    Fault,
> {
    match value.member(key) {
        Some(inner) => Ok(inner),
        None => Err(Fault::Message(complaint)),
    }
}

/// The elements of `value`, or the fault of a value that is no array.
pub open spec fn elements_or(value: JsonView) -> Result<Seq<JsonView>, Fault> {
    match value.elements() {
        Some(list) => Ok(list),
        None => Err(Fault::Message("Parsing Error: Not an array."@)),
    }
}

/// The title of a video: the text of the first run of its title, as JSON
/// writes it, without the double quotes.
pub open spec fn video_title(renderer: JsonView) -> Result<Seq<char>, Fault> {
    match member_or(renderer, "title"@, "Parsing Error: Can't find 'title'."@) {
        Err(fault) => Err(fault),
        Ok(title) => match member_or(title, "runs"@, "Parsing Error: Can't find 'runs'."@) {
            Err(fault) => Err(fault),
            Ok(runs) => match elements_or(runs) {
                Err(fault) => Err(fault),
                Ok(list) => if list.len() == 0 {
                    Err(Fault::Message("Parsing Error: 'runs' is empty."@))
                } else {
                    match member_or(list[0], "text"@, "Parsing Error: Can't find 'text'."@) {
                        Err(fault) => Err(fault),
                        Ok(text) => Ok(unquoted(json_text(text))),
                    }
                },
            },
        },
    }
}

/// The identifier of a video, as JSON writes it, without the double quotes.
pub open spec fn video_href(renderer: JsonView) -> Result<Seq<char>, Fault> {
    match member_or(renderer, "videoId"@, "Parsing Error: Can't find 'videoId'."@) {
        Err(fault) => Err(fault),
        Ok(id) => Ok(unquoted(json_text(id))),
    }
}

/// The result that a video renderer describes. A fault in the title is
/// reported before one in the identifier.
pub open spec fn video_result(renderer: JsonView) -> Result<YoutubeResultView, Fault> {
    match video_title(renderer) {
        Err(fault) => Err(fault),
        Ok(title) => match video_href(renderer) {
            Err(fault) => Err(fault),
            Ok(href) => Ok(YoutubeResultView { title, href }),
        },
    }
}

/// The results among `entries`, in their order: each entry with a member
/// `videoRenderer` gives one, the others are passed over. The first fault
/// in that order is the outcome.
pub open spec fn collected(entries: Seq<JsonView>) -> Result<Seq<YoutubeResultView>, Fault>
    decreases entries.len(),
{
    if entries.len() == 0 {
        Ok(Seq::empty())
    } else {
        match collected(entries.drop_last()) {
            Err(fault) => Err(fault),
            Ok(found) => match entries.last().member("videoRenderer"@) {
                None => Ok(found),
                Some(renderer) => match video_result(renderer) {
                    Err(fault) => Err(fault),
                    Ok(result) => Ok(found.push(result)),
                },
            },
        }
    }
}

/// The results that a document lists under `contents`.
pub open spec fn document_results(document: JsonView) -> Result<Seq<YoutubeResultView>, Fault> {
    match member_or(document, "contents"@, "Parsing Error: Can't find 'contents'."@) {
        Err(fault) => Err(fault),
        Ok(contents) => match elements_or(contents) {
            Err(fault) => Err(fault),
            Ok(entries) => collected(entries),
        },
    }
}

/// The results that a page holds.
pub open spec fn page_results(page: Seq<u8>) -> Result<Seq<YoutubeResultView>, Fault> {
    match json_parsed(document_text(page)) {
        None => Err(Fault::Json),
        Some(document) => document_results(document),
    }
}

/// Calls `str::replace` to take every double quote out of `text`: the
/// result holds the other characters of `text`, in their order.
#[verifier::external_body]
fn without_quotes(text: &str) -> (bare: String)
    ensures
        bare@ == unquoted(text@),
{
    text.replace('"', "")
}

/// Whether `pattern` stands in `text` at `at`.
fn occurs(text: &[u8], pattern: &[u8], at: usize) -> (found: bool)
    requires
        at + pattern@.len() <= text@.len(),
    ensures
        found == occurs_at(text@, pattern@, at as int),
{
    let length: usize = text.len();
    let mut k: usize = 0;
    while k < pattern.len()
        invariant
            k <= pattern@.len(),
            at + pattern@.len() <= text@.len(),
            text@.len() == length,
            forall|j: int| 0 <= j < k ==> text@[at + j] == pattern@[j],
        decreases pattern@.len() - k,
    {
        if text[at + k] != pattern[k] {
            assert(text@.subrange(at as int, at + pattern@.len())[k as int] == text@[at + k]);
            return false;
        }
        k += 1;
    }
    assert(text@.subrange(at as int, at + pattern@.len()) =~= pattern@);
    true
}

/// The first position at which `pattern` stands in `text`.
pub fn find_first(text: &[u8], pattern: &[u8]) -> (found: Option<usize>)
    ensures
        found matches Some(at) ==> is_first_occurrence(text@, pattern@, at as int),
        found is None ==> forall|at: int| !occurs_at(text@, pattern@, at),
{
    if pattern.len() > text.len() {
        return None;
    }
    let last: usize = text.len() - pattern.len();
    let mut at: usize = 0;
    loop
        invariant
            at <= last,
            last == text@.len() - pattern@.len(),
            forall|before: int| 0 <= before < at ==> !occurs_at(text@, pattern@, before),
        decreases last - at,
    {
        if occurs(text, pattern, at) {
            return Some(at);
        }
        if at == last {
            return None;
        }
        at += 1;
    }
}

/// The last position at which `pattern` stands in `text`.
pub fn find_last(text: &[u8], pattern: &[u8]) -> (found: Option<usize>)
    ensures
        found matches Some(at) ==> is_last_occurrence(text@, pattern@, at as int),
        found is None ==> forall|at: int| !occurs_at(text@, pattern@, at),
{
    if pattern.len() > text.len() {
        return None;
    }
    let last: usize = text.len() - pattern.len();
    let mut at: usize = last;
    loop
        invariant
            at <= last,
            last == text@.len() - pattern@.len(),
            forall|after: int| at < after ==> !occurs_at(text@, pattern@, after),
        decreases at,
    {
        if occurs(text, pattern, at) {
            return Some(at);
        }
        if at == 0 {
            return None;
        }
        at -= 1;
    }
}

/// What follows the last occurrence of `pattern` in `text`.
pub fn tail_after_last<'a>(text: &'a [u8], pattern: &[u8]) -> (tail: &'a [u8])
    ensures
        tail@ == after_last(text@, pattern@),
{
    match find_last(text, pattern) {
        None => text,
        Some(at) => {
            proof {
                let chosen = choose|c: int| is_last_occurrence(text@, pattern@, c);
                assert(is_last_occurrence(text@, pattern@, at as int));
                assert(chosen == at);
            }
            let length: usize = text.len();
            slice_subrange(text, at + pattern.len(), length)
        },
    }
}

/// What precedes the first occurrence of `pattern` in `text`.
pub fn head_before_first<'a>(text: &'a [u8], pattern: &[u8]) -> (head: &'a [u8])
    ensures
        head@ == before_first(text@, pattern@),
{
    match find_first(text, pattern) {
        None => text,
        Some(at) => {
            proof {
                let chosen = choose|c: int| is_first_occurrence(text@, pattern@, c);
                assert(is_first_occurrence(text@, pattern@, at as int));
                assert(chosen == at);
            }
            slice_subrange(text, 0, at)
        },
    }
}

/// The error that reports a missing part of the document.
fn complain(complaint: &str) -> (error: Error)
    ensures
        error matches Error::Other(text) && text@ == complaint@,
{
    Error::Other(String::from_str(complaint))
}

/// The title of the video that `renderer` describes.
fn title_of(renderer: &Value) -> (title: Result<String, Error>)
    ensures
        match video_title(json_tree(*renderer)) {
            Ok(expected) => title matches Ok(text) && text@ == expected,
            Err(fault) => tells(title, fault),
        },
{
    let title = match member(renderer, "title") {
        Some(title) => title,
        None => return Err(complain("Parsing Error: Can't find 'title'.")),
    };
    let runs = match member(title, "runs") {
        Some(runs) => runs,
        None => return Err(complain("Parsing Error: Can't find 'runs'.")),
    };
    let list = match elements(runs) {
        Some(list) => list,
        None => return Err(complain("Parsing Error: Not an array.")),
    };
    if list.len() == 0 {
        return Err(complain("Parsing Error: 'runs' is empty."));
    }
    let text = match member(&list[0], "text") {
        Some(text) => text,
        None => return Err(complain("Parsing Error: Can't find 'text'.")),
    };
    let written = render(text);
    Ok(without_quotes(written.as_str()))
}

/// The identifier of the video that `renderer` describes.
fn href_of(renderer: &Value) -> (href: Result<String, Error>)
    ensures
        match video_href(json_tree(*renderer)) {
            Ok(expected) => href matches Ok(text) && text@ == expected,
            Err(fault) => tells(href, fault),
        },
{
    let id = match member(renderer, "videoId") {
        Some(id) => id,
        None => return Err(complain("Parsing Error: Can't find 'videoId'.")),
    };
    let written = render(id);
    Ok(without_quotes(written.as_str()))
}

/// The result that `renderer` describes.
fn result_of(renderer: &Value) -> (result: Result<YoutubeResult, Error>)
    ensures
        match video_result(json_tree(*renderer)) {
            Ok(expected) => result matches Ok(found) && found@ == expected,
            Err(fault) => tells(result, fault),
        },
{
    let title = match title_of(renderer) {
        Ok(title) => title,
        Err(error) => return Err(error),
    };
    let href = match href_of(renderer) {
        Ok(href) => href,
        Err(error) => return Err(error),
    };
    Ok(YoutubeResult { title, href })
}

/// A fault among the first entries is the outcome for all of them.
proof fn fault_stays(entries: Seq<JsonView>, seen: int, all: int)
    requires
        0 <= seen <= all <= entries.len(),
        collected(entries.take(seen)) is Err,
    ensures
        collected(entries.take(all)) == collected(entries.take(seen)),
    decreases all - seen,
{
    if seen < all {
        fault_stays(entries, seen, all - 1);
        assert(entries.take(all).drop_last() =~= entries.take(all - 1));
    }
}

/// The videos that a parsed document lists, in its order. The document must
/// have a member `contents` that is an array; each of its entries with a
/// member `videoRenderer` must give a title and an identifier.
pub fn results_in(document: &Value) -> (results: Result<Vec<YoutubeResult>, Error>)
    ensures
        agrees(results, document_results(json_tree(*document))),
{
    let contents = match member(document, "contents") {
        Some(contents) => contents,
        None => return Err(complain("Parsing Error: Can't find 'contents'.")),
    };
    let entries = match elements(contents) {
        Some(entries) => entries,
        None => return Err(complain("Parsing Error: Not an array.")),
    };
    let mut found: Vec<YoutubeResult> = Vec::new();
    let mut i: usize = 0;
    let ghost trees = json_trees(entries@);
    assert(trees.take(0) =~= Seq::<JsonView>::empty());
    assert(result_views(found@) =~= Seq::<YoutubeResultView>::empty());
    while i < entries.len()
        invariant
            i <= entries@.len(),
            trees == json_trees(entries@),
            document_results(json_tree(*document)) == collected(trees),
            collected(trees.take(i as int)) == Ok::<Seq<YoutubeResultView>, Fault>(
                result_views(found@),
            ),
        decreases entries@.len() - i,
    {
        let ghost before = result_views(found@);
        assert(trees.take(i + 1).drop_last() =~= trees.take(i as int));
        assert(trees.take(i + 1).last() == json_tree(entries@[i as int]));
        if let Some(renderer) = member(&entries[i], "videoRenderer") {
            match result_of(renderer) {
                Ok(result) => {
                    found.push(result);
                    assert(result_views(found@) =~= before.push(result@));
                },
                Err(error) => {
                    proof {
                        assert(collected(trees.take(i + 1)) is Err);
                        fault_stays(trees, i + 1, trees.len() as int);
                        assert(trees.take(trees.len() as int) =~= trees);
                    }
                    return Err(error);
                },
            }
        }
        i += 1;
    }
    assert(trees.take(i as int) =~= trees);
    Ok(found)
}

/// Where the search results page for `query` is asked for.
pub fn search_url(query: &str) -> (url: String)
    ensures
        url@ == "https://www.youtube.com/results?search_query="@ + query@,
{
    let mut url = String::from_str("https://www.youtube.com/results?search_query=");
    url.append(query);
    url
}

/// What fetching the audio of a video takes: where it is fetched from, and
/// where the audio file is put.
#[derive(Debug)]
pub struct Download {
    /// The page of the video.
    pub url: String,
    /// The directory that the audio file is written to.
    pub directory: String,
    /// The name of the audio file as the downloader takes it, with its
    /// placeholder for the extension.
    pub output: String,
    /// The format of the audio file.
    pub audio_format: String,
    /// The audio file, once it is fetched.
    pub file: String,
}

/// The mathematical value of a [`Download`].
pub struct DownloadView {
    pub url: Seq<char>,
    pub directory: Seq<char>,
    pub output: Seq<char>,
    pub audio_format: Seq<char>,
    pub file: Seq<char>,
}

impl View for Download {
    type V = DownloadView;

    open spec fn view(&self) -> DownloadView {
        DownloadView {
            url: self.url@,
            directory: self.directory@,
            output: self.output@,
            audio_format: self.audio_format@,
            file: self.file@,
        }
    }
}

/// What fetching the audio of the video `id` takes.
pub open spec fn download_of(id: Seq<char>) -> DownloadView {
    DownloadView {
        url: "https://www.youtube.com/watch?v="@ + id,
        directory: "./audio"@,
        output: id + ".%(ext)s"@,
        audio_format: "mp3"@,
        file: "./audio/"@ + id + ".mp3"@,
    }
}

/// What fetching the audio of the video `video_id` takes. The local
/// backend fetches as told and then plays the file.
pub fn download_plan(video_id: &str) -> (plan: Download)
    ensures
        plan@ == download_of(video_id@),
{
    let mut url = String::from_str("https://www.youtube.com/watch?v=");
    url.append(video_id);
    let mut output = String::from_str(video_id);
    output.append(".%(ext)s");
    let mut file = String::from_str("./audio/");
    file.append(video_id);
    file.append(".mp3");
    Download {
        url,
        directory: String::from_str("./audio"),
        output,
        audio_format: String::from_str("mp3"),
        file,
    }
}

/// The videos that a search results page lists, in its order.
///
/// The JSON document of the page is read by `serde_json`; a text that is no
/// JSON gives `Error::SerdeJson`, a document that lacks a part gives
/// `Error::Other` with the message that names the part.
pub fn parse_search(page: &str) -> (results: Result<Vec<YoutubeResult>, Error>)
    ensures
        agrees(results, page_results(page.spec_bytes())),
{
    let bytes = page.as_bytes();
    let tail = tail_after_last(bytes, "{\"itemSectionRenderer\":".as_bytes());
    let text = head_before_first(tail, "},{\"continuationItemRenderer\":{".as_bytes());
    match parse(text) {
        Err(error) => Err(Error::SerdeJson(error)),
        Ok(document) => results_in(&document),
    }
}

} // verus!
