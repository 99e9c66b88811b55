//! The settings of the configuration file. Every one of them may be absent.

use crate::request::collection::CollectionFileFormat;
use crate::utils::text::optional_text;
use vstd::prelude::*;

verus! {

#[derive(Debug, PartialEq, Eq)]
pub struct Config {
    pub disable_syntax_highlighting: Option<bool>,
    pub disable_cors: Option<bool>,
    pub disable_images_preview: Option<bool>,
    pub preferred_collection_file_format: Option<CollectionFileFormat>,
    pub proxy: Option<Proxy>,
}

#[derive(Debug, PartialEq, Eq)]
pub struct Proxy {
    pub http_proxy: Option<String>,
    pub https_proxy: Option<String>,
}

/// What a [`Proxy`] holds, as plain text.
pub struct ProxyView {
    pub http_proxy: Option<Seq<char>>,
    pub https_proxy: Option<Seq<char>>,
}

/// What a [`Config`] holds, as plain values.
pub struct ConfigView {
    pub disable_syntax_highlighting: Option<bool>,
    pub disable_cors: Option<bool>,
    pub disable_images_preview: Option<bool>,
    pub preferred_collection_file_format: Option<CollectionFileFormat>,
    pub proxy: Option<ProxyView>,
}

impl View for Proxy {
    type V = ProxyView;

    open spec fn view(&self) -> ProxyView {
        ProxyView {
            http_proxy: optional_text(self.http_proxy),
            https_proxy: optional_text(self.https_proxy),
        }
    }
}

impl View for Config {
    type V = ConfigView;

    open spec fn view(&self) -> ConfigView {
        ConfigView {
            disable_syntax_highlighting: self.disable_syntax_highlighting,
            disable_cors: self.disable_cors,
            disable_images_preview: self.disable_images_preview,
            preferred_collection_file_format: self.preferred_collection_file_format,
            proxy: match self.proxy {
                Some(proxy) => Some(proxy@),
                None => None,
            },
        }
    }
}

impl ConfigView {
    /// The configuration that sets nothing.
    pub open spec fn empty() -> ConfigView {
        ConfigView {
            disable_syntax_highlighting: None,
            disable_cors: None,
            disable_images_preview: None,
            preferred_collection_file_format: None,
            proxy: None,
        }
    }

    /// The format in which new collections are saved: the one that the
    /// configuration names, or JSON where it names none.
    pub open spec fn preferred_format(self) -> CollectionFileFormat {
        match self.preferred_collection_file_format {
            Some(format) => format,
            None => CollectionFileFormat::Json,
        }
    }
}

impl Default for Proxy {
    fn default() -> (proxy: Proxy)
        ensures
            proxy@ == (ProxyView { http_proxy: None, https_proxy: None }),
    {
        Proxy { http_proxy: None, https_proxy: None }
    }
}

impl Default for Config {
    fn default() -> (config: Config)
        ensures
            config@ == ConfigView::empty(),
    {
        Config {
            disable_syntax_highlighting: None,
            disable_cors: None,
            disable_images_preview: None,
            preferred_collection_file_format: None,
            proxy: None,
        }
    }
}

impl Config {
    /// Whether syntax highlighting is switched off. It is on unless the
    /// configuration says otherwise.
    pub fn is_syntax_highlighting_disabled(&self) -> (disabled: bool)
        ensures
            disabled == (self.disable_syntax_highlighting == Some(true)),
    {
        self.disable_syntax_highlighting.unwrap_or(false)
    }

    /// Whether CORS is switched off. It is on unless the configuration says otherwise.
    pub fn is_cors_disabled(&self) -> (disabled: bool)
        ensures
            disabled == (self.disable_cors == Some(true)),
    {
        self.disable_cors.unwrap_or(false)
    }

    /// Whether the preview of pictures is switched off. It is on unless the
    /// configuration says otherwise.
    pub fn is_image_preview_disabled(&self) -> (disabled: bool)
        ensures
            disabled == (self.disable_images_preview == Some(true)),
    {
        self.disable_images_preview.unwrap_or(false)
    }

    /// The format in which new collections are saved.
    pub fn get_preferred_collection_file_format(&self) -> (format: CollectionFileFormat)
        ensures
            format == self@.preferred_format(),
    {
        match &self.preferred_collection_file_format {
            None => CollectionFileFormat::default(),
            Some(file_format) => *file_format,
        }
    }
}

} // verus!
