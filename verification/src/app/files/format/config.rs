//! How the settings stand in the configuration file. Every one of them may
//! be missing.

use crate::app::app::{App, AppView};
use crate::app::files::config::{Config, ConfigView, Proxy, ProxyView};
use crate::app::files::document::{field, fields_view, find_field, Document, DocumentView};
use crate::app::files::format::request::result_view;
use crate::app::files::format::{
    optional_bool_field,
    optional_text_field,
    plain_result,
    read_optional_bool,
    read_optional_text,
    FormatError,
    FormatErrorView,
};
use crate::request::collection::CollectionFileFormat;
use crate::utils::text::same_text;
use vstd::prelude::*;

verus! {

/// The format that is written under `name`: `json` or `yaml`, in small
/// letters, in capitals, or with a capital at the start.
pub open spec fn format_named(name: Seq<char>) -> Option<CollectionFileFormat> {
    if name == "json"@ || name == "JSON"@ || name == "Json"@ {
        Some(CollectionFileFormat::Json)
    } else if name == "yaml"@ || name == "YAML"@ || name == "Yaml"@ {
        Some(CollectionFileFormat::Yaml)
    } else {
        None
    }
}

/// The format of the field called `name`, which may be missing or null.
pub open spec fn optional_format_field(
    fields: Seq<(Seq<char>, DocumentView)>,
    name: Seq<char>,
) -> Result<Option<CollectionFileFormat>, FormatErrorView> {
    match field(fields, name) {
        None => Ok(None),
        Some(DocumentView::Null) => Ok(None),
        Some(DocumentView::Text(text)) => match format_named(text) {
            Some(format) => Ok(Some(format)),
            None => Err(FormatErrorView::UnknownVariant(text)),
        },
        Some(_) => Err(FormatErrorView::Unexpected(name)),
    }
}

/// The proxies that `document` stands for.
pub open spec fn proxy_of(document: DocumentView) -> Result<ProxyView, FormatErrorView> {
    match document {
        DocumentView::Record(fields) => match optional_text_field(fields, "http_proxy"@) {
            Ok(http_proxy) => match optional_text_field(fields, "https_proxy"@) {
                Ok(https_proxy) => Ok(
                    ProxyView { http_proxy: http_proxy, https_proxy: https_proxy },
                ),
                Err(error) => Err(error),
            },
            Err(error) => Err(error),
        },
        _ => Err(FormatErrorView::Unexpected("proxy"@)),
    }
}

/// The proxies of the field called `proxy`, which may be missing or null.
pub open spec fn optional_proxy_field(fields: Seq<(Seq<char>, DocumentView)>) -> Result<
    Option<ProxyView>,
    FormatErrorView,
> {
    match field(fields, "proxy"@) {
        None => Ok(None),
        Some(DocumentView::Null) => Ok(None),
        Some(proxy) => match proxy_of(proxy) {
            Ok(proxy) => Ok(Some(proxy)),
            Err(error) => Err(error),
        },
    }
}

/// The settings that `document` stands for. The fields are read in the order
/// below; the first that fails decides the error.
pub open spec fn config_of(document: DocumentView) -> Result<ConfigView, FormatErrorView> {
    match document {
        DocumentView::Record(fields) => {
            let disable_syntax_highlighting = optional_bool_field(
                fields,
                "disable_syntax_highlighting"@,
            );
            let disable_cors = optional_bool_field(fields, "disable_cors"@);
            let disable_images_preview = optional_bool_field(fields, "disable_images_preview"@);
            let preferred_collection_file_format = optional_format_field(
                fields,
                "preferred_collection_file_format"@,
            );
            let proxy = optional_proxy_field(fields);
            if disable_syntax_highlighting is Err {
                Err(disable_syntax_highlighting->Err_0)
            } else if disable_cors is Err {
                Err(disable_cors->Err_0)
            } else if disable_images_preview is Err {
                Err(disable_images_preview->Err_0)
            } else if preferred_collection_file_format is Err {
                Err(preferred_collection_file_format->Err_0)
            } else if proxy is Err {
                Err(proxy->Err_0)
            } else {
                Ok(
                    ConfigView {
                        disable_syntax_highlighting: disable_syntax_highlighting->Ok_0,
                        disable_cors: disable_cors->Ok_0,
                        disable_images_preview: disable_images_preview->Ok_0,
                        preferred_collection_file_format: preferred_collection_file_format->Ok_0,
                        proxy: proxy->Ok_0,
                    },
                )
            }
        },
        _ => Err(FormatErrorView::Unexpected("config"@)),
    }
}

impl Proxy {
    /// The proxies that `document` stands for.
    pub fn from_document(document: &Document) -> (proxy: Result<Proxy, FormatError>)
        ensures
            result_view(proxy) == proxy_of(document@),
    {
        let fields = match document.as_record() {
            Some(fields) => fields,
            None => {
                return Err(FormatError::Unexpected("proxy".to_string()));
            },
        };
        let http_proxy = read_optional_text(fields, "http_proxy")?;
        let https_proxy = read_optional_text(fields, "https_proxy")?;
        Ok(Proxy { http_proxy, https_proxy })
    }
}

/// The format of the field called `name`, which may be missing or null.
fn read_optional_format(fields: &Vec<(String, Document)>, name: &str) -> (format: Result<
    Option<CollectionFileFormat>,
    FormatError,
>)
    ensures
        plain_result(format) == optional_format_field(
            fields_view(fields@),
            name@,
        ),
{
    match find_field(fields, name) {
        None => Ok(None),
        Some(Document::Null) => Ok(None),
        Some(Document::Text(text)) => {
            let text = text.as_str();
            if same_text(text, "json") || same_text(text, "JSON") || same_text(text, "Json") {
                Ok(Some(CollectionFileFormat::Json))
            } else if same_text(text, "yaml") || same_text(text, "YAML") || same_text(
                text,
                "Yaml",
            ) {
                Ok(Some(CollectionFileFormat::Yaml))
            } else {
                Err(FormatError::UnknownVariant(text.to_string()))
            }
        },
        Some(_) => Err(FormatError::Unexpected(name.to_string())),
    }
}

impl Config {
    /// The settings that `document` stands for.
    pub fn from_document(document: &Document) -> (config: Result<Config, FormatError>)
        ensures
            result_view(config) == config_of(document@),
    {
        let fields = match document.as_record() {
            Some(fields) => fields,
            None => {
                return Err(FormatError::Unexpected("config".to_string()));
            },
        };
        let disable_syntax_highlighting = read_optional_bool(
            fields,
            "disable_syntax_highlighting",
        )?;
        let disable_cors = read_optional_bool(fields, "disable_cors")?;
        let disable_images_preview = read_optional_bool(fields, "disable_images_preview")?;
        let preferred_collection_file_format = read_optional_format(
            fields,
            "preferred_collection_file_format",
        )?;
        let proxy = match find_field(fields, "proxy") {
            None => None,
            Some(Document::Null) => None,
            Some(proxy) => Some(Proxy::from_document(proxy)?),
        };
        Ok(
            Config {
                disable_syntax_highlighting,
                disable_cors,
                disable_images_preview,
                preferred_collection_file_format,
                proxy,
            },
        )
    }
}

impl App {
    /// Takes over the settings that `document`, the configuration file,
    /// stands for. Changes nothing where it stands for none.
    pub fn parse_config_file(&mut self, document: &Document) -> (parsed: Result<(), FormatError>)
        ensures
            match config_of(document@) {
                Ok(config) => parsed is Ok && final(self)@ == (AppView {
                    config: config,
                    ..old(self)@
                }),
                Err(error) => parsed matches Err(found) && found@ == error && final(self)@ == old(
                    self,
                )@,
            },
    {
        let config = Config::from_document(document)?;
        self.config = config;
        Ok(())
    }
}

} // verus!
