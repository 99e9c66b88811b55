//! What came back from the last execution of a request. None of it is saved.

use crate::utils::text::{clone_optional_text, optional_text};
use vstd::prelude::*;

verus! {

/// A picture, decoded into rows of RGBA pixels.
#[derive(Debug, PartialEq, Eq)]
pub struct DecodedImage {
    pub width: u32,
    pub height: u32,
    /// Four bytes for each pixel.
    pub rgba: Vec<u8>,
}

/// A response body that is a picture.
#[derive(Debug, PartialEq, Eq)]
pub struct ImageResponse {
    /// The bytes as they were received.
    pub data: Vec<u8>,
    /// The picture, where the bytes could be decoded.
    pub image: Option<DecodedImage>,
}

#[derive(Debug, PartialEq, Eq)]
pub enum ResponseContent {
    Body(String),
    Image(ImageResponse),
}

#[derive(Debug, PartialEq, Eq)]
pub struct RequestResponse {
    pub duration: Option<String>,
    pub status_code: Option<String>,
    pub content: Option<ResponseContent>,
    pub cookies: Option<String>,
    /// Name and value of each header, in the order received.
    pub headers: Vec<(String, String)>,
}

/// What a [`DecodedImage`] holds.
pub struct DecodedImageView {
    pub width: u32,
    pub height: u32,
    pub rgba: Seq<u8>,
}

/// What a [`ResponseContent`] holds.
pub enum ResponseContentView {
    Body(Seq<char>),
    Image { data: Seq<u8>, image: Option<DecodedImageView> },
}

/// What a [`RequestResponse`] holds.
pub struct RequestResponseView {
    pub duration: Option<Seq<char>>,
    pub status_code: Option<Seq<char>>,
    pub content: Option<ResponseContentView>,
    pub cookies: Option<Seq<char>>,
    pub headers: Seq<(Seq<char>, Seq<char>)>,
}

impl View for DecodedImage {
    type V = DecodedImageView;

    open spec fn view(&self) -> DecodedImageView {
        DecodedImageView { width: self.width, height: self.height, rgba: self.rgba@ }
    }
}

impl View for ResponseContent {
    type V = ResponseContentView;

    open spec fn view(&self) -> ResponseContentView {
        match self {
            ResponseContent::Body(text) => ResponseContentView::Body(text@),
            ResponseContent::Image(picture) => ResponseContentView::Image {
                data: picture.data@,
                image: match picture.image {
                    Some(image) => Some(image@),
                    None => None,
                },
            },
        }
    }
}

/// What a sequence of received headers holds, pair by pair.
pub open spec fn pairs_view(pairs: Seq<(String, String)>) -> Seq<(Seq<char>, Seq<char>)> {
    Seq::new(pairs.len(), |i: int| (pairs[i].0@, pairs[i].1@))
}

impl View for RequestResponse {
    type V = RequestResponseView;

    open spec fn view(&self) -> RequestResponseView {
        RequestResponseView {
            duration: optional_text(self.duration),
            status_code: optional_text(self.status_code),
            content: match self.content {
                Some(content) => Some(content@),
                None => None,
            },
            cookies: optional_text(self.cookies),
            headers: pairs_view(self.headers@),
        }
    }
}

impl RequestResponseView {
    /// The response of a request that has not been executed.
    pub open spec fn empty() -> RequestResponseView {
        RequestResponseView {
            duration: None,
            status_code: None,
            content: None,
            cookies: None,
            headers: Seq::empty(),
        }
    }
}

impl Default for RequestResponse {
    fn default() -> (response: RequestResponse)
        ensures
            response@ == RequestResponseView::empty(),
    {
        let response = RequestResponse {
            duration: None,
            status_code: None,
            content: None,
            cookies: None,
            headers: Vec::new(),
        };
        assert(response@.headers =~= Seq::empty());
        response
    }
}

/// A copy of `bytes`.
pub fn clone_bytes(bytes: &Vec<u8>) -> (copy: Vec<u8>)
    ensures
        copy@ == bytes@,
{
    let mut copy: Vec<u8> = Vec::new();
    for i in 0..bytes.len()
        invariant
            copy@ == bytes@.take(i as int),
    {
        copy.push(bytes[i]);
    }
    copy
}

impl Clone for DecodedImage {
    fn clone(&self) -> (copy: DecodedImage)
        ensures
            copy@ == self@,
    {
        DecodedImage { width: self.width, height: self.height, rgba: clone_bytes(&self.rgba) }
    }
}

impl Clone for ResponseContent {
    fn clone(&self) -> (copy: ResponseContent)
        ensures
            copy@ == self@,
    {
        match self {
            ResponseContent::Body(text) => ResponseContent::Body(text.clone()),
            ResponseContent::Image(picture) => ResponseContent::Image(
                ImageResponse {
                    data: clone_bytes(&picture.data),
                    image: match &picture.image {
                        Some(image) => Some(image.clone()),
                        None => None,
                    },
                },
            ),
        }
    }
}

impl Clone for RequestResponse {
    fn clone(&self) -> (copy: RequestResponse)
        ensures
            copy@ == self@,
    {
        let mut headers: Vec<(String, String)> = Vec::new();
        for i in 0..self.headers.len()
            invariant
                headers@.len() == i,
                forall|j: int|
                    0 <= j < i ==> headers@[j].0@ == self.headers@[j].0@ && headers@[j].1@
                        == self.headers@[j].1@,
        {
            headers.push((self.headers[i].0.clone(), self.headers[i].1.clone()));
        }
        assert(pairs_view(headers@) =~= pairs_view(self.headers@));
        RequestResponse {
            duration: clone_optional_text(&self.duration),
            status_code: clone_optional_text(&self.status_code),
            content: match &self.content {
                Some(content) => Some(content.clone()),
                None => None,
            },
            cookies: clone_optional_text(&self.cookies),
            headers,
        }
    }
}

} // verus!
