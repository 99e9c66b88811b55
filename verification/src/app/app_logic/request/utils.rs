//! Reaching the request that is open.

use crate::app::app::App;
use crate::app::ui::result_tabs::RequestResultTabs;
use crate::request::collection::RequestHandle;
use crate::request::request::Request;
use crate::request::response::{
    clone_bytes,
    pairs_view,
    RequestResponse,
    RequestResponseView,
    ResponseContent,
    ResponseContentView,
};
use crate::utils::shared::read_with;
use crate::utils::text::{clone_optional_text, optional_text};
use vstd::prelude::*;
use vstd::string::*;

verus! {

/// What is put on the clipboard.
#[derive(Debug, PartialEq, Eq)]
pub enum ClipboardContent {
    Text(String),
    /// A picture: its size in pixels, and four bytes for each pixel.
    Image { width: usize, height: usize, bytes: Vec<u8> },
}

/// What a [`ClipboardContent`] holds.
pub enum ClipboardContentView {
    Text(Seq<char>),
    Image { width: usize, height: usize, bytes: Seq<u8> },
}

impl View for ClipboardContent {
    type V = ClipboardContentView;

    open spec fn view(&self) -> ClipboardContentView {
        match self {
            ClipboardContent::Text(text) => ClipboardContentView::Text(text@),
            ClipboardContent::Image { width, height, bytes } => ClipboardContentView::Image {
                width: *width,
                height: *height,
                bytes: bytes@,
            },
        }
    }
}

/// What an optional [`ClipboardContent`] holds.
pub open spec fn optional_content(content: Option<ClipboardContent>) -> Option<
    ClipboardContentView,
> {
    match content {
        Some(content) => Some(content@),
        None => None,
    }
}

/// The headers as text: for each, its name, a colon and a space, its value,
/// and a line feed.
pub open spec fn headers_text(headers: Seq<(Seq<char>, Seq<char>)>) -> Seq<char>
    decreases headers.len(),
{
    if headers.len() == 0 {
        Seq::empty()
    } else {
        headers_text(headers.drop_last()) + headers.last().0 + ": "@ + headers.last().1 + "\n"@
    }
}

/// What the tab in front gives to copy: the body of the response, as text or
/// as a decoded picture; its cookies; its headers as text; or the output of
/// the scripts. Nothing where the tab shows nothing, but for the headers,
/// which give a text even where there is none of them.
pub open spec fn clipboard_content(
    tab: RequestResultTabs,
    response: RequestResponseView,
    console_output: Option<Seq<char>>,
) -> Option<ClipboardContentView> {
    match tab {
        RequestResultTabs::Body => match response.content {
            None => None,
            Some(ResponseContentView::Body(body)) => Some(ClipboardContentView::Text(body)),
            Some(ResponseContentView::Image { data, image }) => match image {
                None => None,
                Some(image) => Some(
                    ClipboardContentView::Image {
                        width: image.width as usize,
                        height: image.height as usize,
                        bytes: image.rgba,
                    },
                ),
            },
        },
        RequestResultTabs::Cookies => match response.cookies {
            None => None,
            Some(cookies) => Some(ClipboardContentView::Text(cookies)),
        },
        RequestResultTabs::Headers => Some(
            ClipboardContentView::Text(headers_text(response.headers)),
        ),
        RequestResultTabs::Console => match console_output {
            None => None,
            Some(output) => Some(ClipboardContentView::Text(output)),
        },
    }
}

/// What `tab` gives to copy of `response` and `console_output`.
pub fn content_to_copy(
    tab: RequestResultTabs,
    response: &RequestResponse,
    console_output: &Option<String>,
) -> (content: Option<ClipboardContent>)
    ensures
        optional_content(content) == clipboard_content(
            tab,
            response@,
            optional_text(*console_output),
        ),
{
    match tab {
        RequestResultTabs::Body => match &response.content {
            None => None,
            Some(content) => match content {
                ResponseContent::Body(body) => Some(ClipboardContent::Text(body.clone())),
                ResponseContent::Image(image_response) => match &image_response.image {
                    None => None,
                    Some(image) => Some(
                        ClipboardContent::Image {
                            width: image.width as usize,
                            height: image.height as usize,
                            bytes: clone_bytes(&image.rgba),
                        },
                    ),
                },
            },
        },
        RequestResultTabs::Cookies => match &response.cookies {
            None => None,
            Some(cookies) => Some(ClipboardContent::Text(cookies.clone())),
        },
        RequestResultTabs::Headers => {
            let mut headers_string = String::new();
            for index in 0..response.headers.len()
                invariant
                    headers_string@ == headers_text(
                        pairs_view(response.headers@).take(index as int),
                    ),
            {
                proof {
                    let pairs = pairs_view(response.headers@);
                    assert(pairs.take(index + 1).drop_last() =~= pairs.take(index as int));
                }
                headers_string.append(response.headers[index].0.as_str());
                headers_string.append(": ");
                headers_string.append(response.headers[index].1.as_str());
                headers_string.append("\n");
            }
            proof {
                let pairs = pairs_view(response.headers@);
                assert(pairs.take(response.headers@.len() as int) =~= pairs);
            }
            Some(ClipboardContent::Text(headers_string))
        },
        RequestResultTabs::Console => match console_output {
            None => None,
            Some(console_output) => Some(ClipboardContent::Text(console_output.clone())),
        },
    }
}

impl App {
    /// What is to be put on the clipboard: what the tab in front shows of the
    /// response of the open request, or of the output of the scripts, as they
    /// are at this moment. Nothing where the tab shows nothing.
    pub fn copy_response_body_content_to_clipboard(&self) -> (content: Option<ClipboardContent>)
        requires
            self@.request_is_open(),
        ensures
            exists|response: RequestResponseView, console_output: Option<Seq<char>>|
                optional_content(content) == clipboard_content(
                    self@.request_result_tab,
                    response,
                    console_output,
                ),
    {
        let local_selected_request = self.get_selected_request_as_local();
        let response_of = |selected_request: &Request| -> (response: RequestResponse)
            ensures response@ == selected_request@.response
        { selected_request.response.clone() };
        let response = read_with(&local_selected_request, response_of);

        let console_output = match self.request_result_tab {
            RequestResultTabs::Console => {
                let output_of = |output: &Option<String>| -> (copy: Option<String>)
                    ensures optional_text(copy) == optional_text(*output)
                { clone_optional_text(output) };
                read_with(&self.script_console.console_output, output_of)
            },
            _ => None,
        };
        content_to_copy(self.request_result_tab, &response, &console_output)
    }

    /// The request that is open, as the shared value that its collection holds.
    pub fn get_selected_request_as_local(&self) -> (handle: RequestHandle)
        requires
            self@.request_is_open(),
        ensures
            self@.collections_tree.selected matches Some((collection, request)) && handle
                == self@.collections[collection as int].requests[request as int],
    {
        let indexes = self.collections_tree.selected.unwrap();
        self.get_request_as_local_from_indexes(&indexes)
    }

    /// The request at the given indexes, as the shared value that its
    /// collection holds: the index of the collection, then the index of the
    /// request in it.
    pub fn get_request_as_local_from_indexes(
        &self,
        selected_request_index: &(usize, usize),
    ) -> (handle: RequestHandle)
        requires
            self@.has_request(selected_request_index.0, selected_request_index.1),
        ensures
            handle == self@.request_at(selected_request_index.0, selected_request_index.1),
    {
        self.collections[selected_request_index.0].requests[selected_request_index.1].clone()
    }

    /// A copy of what the request behind `handle` holds at this moment.
    pub fn snapshot_of(handle: &RequestHandle) -> (snapshot: Request) {
        let copy_of = |request: &Request| -> (copy: Request)
            ensures copy@ == request@
        { request.clone() };
        read_with(handle, copy_of)
    }
}

} // verus!
