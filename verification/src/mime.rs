//! Content-type inference for static assets, keyed by file-name extension.

use vstd::prelude::*;

verus! {

/// The content types the static resolver distinguishes. Anything it does not
/// recognize is served as an opaque octet stream.
#[derive(Clone, Copy, Debug, PartialEq, Eq, Structural)]
pub enum ContentType {
    Html,
    Css,
    JavaScript,
    Json,
    Png,
    Jpeg,
    Gif,
    Svg,
    Icon,
    Text,
    Wasm,
    OctetStream,
}

/// The content type inferred from a file-name extension.
pub open spec fn content_type_for_extension(ext: Seq<char>) -> ContentType {
    if ext == "html"@ || ext == "htm"@ {
        ContentType::Html
    } else if ext == "css"@ {
        ContentType::Css
    } else if ext == "js"@ || ext == "mjs"@ {
        ContentType::JavaScript
    } else if ext == "json"@ {
        ContentType::Json
    } else if ext == "png"@ {
        ContentType::Png
    } else if ext == "jpg"@ || ext == "jpeg"@ {
        ContentType::Jpeg
    } else if ext == "gif"@ {
        ContentType::Gif
    } else if ext == "svg"@ {
        ContentType::Svg
    } else if ext == "ico"@ {
        ContentType::Icon
    } else if ext == "txt"@ {
        ContentType::Text
    } else if ext == "wasm"@ {
        ContentType::Wasm
    } else {
        ContentType::OctetStream
    }
}

/// The content type of the file a name denotes, going by its extension.
pub open spec fn content_type_for_name_spec(name: Seq<char>) -> ContentType {
    content_type_for_extension(crate::paths::extension_of(name))
}

impl ContentType {
    /// The MIME string transmitted in a `Content-Type` header for this type.
    pub open spec fn mime_spec(self) -> Seq<char> {
        match self {
            ContentType::Html => "text/html; charset=utf-8"@,
            ContentType::Css => "text/css"@,
            ContentType::JavaScript => "application/javascript"@,
            ContentType::Json => "application/json"@,
            ContentType::Png => "image/png"@,
            ContentType::Jpeg => "image/jpeg"@,
            ContentType::Gif => "image/gif"@,
            ContentType::Svg => "image/svg+xml"@,
            ContentType::Icon => "image/x-icon"@,
            ContentType::Text => "text/plain; charset=utf-8"@,
            ContentType::Wasm => "application/wasm"@,
            ContentType::OctetStream => "application/octet-stream"@,
        }
    }

    /// The MIME string for this content type.
    pub fn mime(&self) -> (r: &'static str)
        ensures
            r@ == self.mime_spec(),
    {
        match self {
            ContentType::Html => "text/html; charset=utf-8",
            ContentType::Css => "text/css",
            ContentType::JavaScript => "application/javascript",
            ContentType::Json => "application/json",
            ContentType::Png => "image/png",
            ContentType::Jpeg => "image/jpeg",
            ContentType::Gif => "image/gif",
            ContentType::Svg => "image/svg+xml",
            ContentType::Icon => "image/x-icon",
            ContentType::Text => "text/plain; charset=utf-8",
            ContentType::Wasm => "application/wasm",
            ContentType::OctetStream => "application/octet-stream",
        }
    }
}

/// Infers the content type for a file name, realizing
/// [`content_type_for_name_spec`].
pub fn content_type_for_name(name: &str) -> (r: ContentType)
    ensures
        r == content_type_for_name_spec(name@),
{
    proof {
        crate::paths::lemma_last_dot_in_range(name@);
    }
    let n = name.unicode_len();
    let ext: &str = match crate::paths::find_last_dot(name) {
        Some(i) => if i > 0 {
            name.substring_char(i + 1, n)
        } else {
            ""
        },
        None => "",
    };
    proof {
        reveal_strlit("");
        assert(""@ =~= Seq::<char>::empty());
    }
    content_type_for_extension_exec(ext)
}

/// Decides [`content_type_for_extension`] on an extension string.
fn content_type_for_extension_exec(ext: &str) -> (r: ContentType)
    ensures
        r == content_type_for_extension(ext@),
{
    if crate::paths::str_eq(ext, "html") || crate::paths::str_eq(ext, "htm") {
        ContentType::Html
    } else if crate::paths::str_eq(ext, "css") {
        ContentType::Css
    } else if crate::paths::str_eq(ext, "js") || crate::paths::str_eq(ext, "mjs") {
        ContentType::JavaScript
    } else if crate::paths::str_eq(ext, "json") {
        ContentType::Json
    } else if crate::paths::str_eq(ext, "png") {
        ContentType::Png
    } else if crate::paths::str_eq(ext, "jpg") || crate::paths::str_eq(ext, "jpeg") {
        ContentType::Jpeg
    } else if crate::paths::str_eq(ext, "gif") {
        ContentType::Gif
    } else if crate::paths::str_eq(ext, "svg") {
        ContentType::Svg
    } else if crate::paths::str_eq(ext, "ico") {
        ContentType::Icon
    } else if crate::paths::str_eq(ext, "txt") {
        ContentType::Text
    } else if crate::paths::str_eq(ext, "wasm") {
        ContentType::Wasm
    } else {
        ContentType::OctetStream
    }
}

} // verus!
