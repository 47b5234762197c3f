//! Media types for the HTTP `Content-Type` header: one enum per top-level
//! class, each with its registered subtypes, and a root [`ContentType`].
use vstd::prelude::*;

verus! {

/// Sub-type portion of a `text/*` media type.
#[derive(Clone, Debug)]
pub enum TextSubType {
    /// `text/plain`
    Plain,
    /// `text/html`
    Html,
    /// `text/css`
    Css,
    /// `text/javascript`
    Javascript,
    /// `text/csv`
    Csv,
    /// `text/xml`
    Xml,
    /// `text/markdown`
    Markdown,
    /// Anything else; stored verbatim.
    Other(String),
}

impl TextSubType {
    /// The subtype string this value serializes to.
    pub open spec fn spec_str(self) -> Seq<char> {
        match self {
            TextSubType::Plain => "plain"@,
            TextSubType::Html => "html"@,
            TextSubType::Css => "css"@,
            TextSubType::Javascript => "javascript"@,
            TextSubType::Csv => "csv"@,
            TextSubType::Xml => "xml"@,
            TextSubType::Markdown => "markdown"@,
            TextSubType::Other(s) => s@,
        }
    }

    /// The canonical subtype string that parsing the given subtype yields:
    /// recognized spellings map to the canonical one, anything else stays.
    pub open spec fn canon(s: Seq<char>) -> Seq<char> {
        if s == "plain"@ {
            "plain"@
        } else if s == "html"@ {
            "html"@
        } else if s == "css"@ {
            "css"@
        } else if s == "javascript"@ {
            "javascript"@
        } else if s == "js"@ {
            "javascript"@
        } else if s == "csv"@ {
            "csv"@
        } else if s == "xml"@ {
            "xml"@
        } else if s == "markdown"@ {
            "markdown"@
        } else {
            s
        }
    }

    /// The subtype as a string, as it appears after `text/`.
    pub fn as_str(&self) -> (r: String)
        ensures
            r@ == self.spec_str(),
    {
        match self {
            TextSubType::Plain => String::from_str("plain"),
            TextSubType::Html => String::from_str("html"),
            TextSubType::Css => String::from_str("css"),
            TextSubType::Javascript => String::from_str("javascript"),
            TextSubType::Csv => String::from_str("csv"),
            TextSubType::Xml => String::from_str("xml"),
            TextSubType::Markdown => String::from_str("markdown"),
            TextSubType::Other(s) => s.clone(),
        }
    }

    /// Recognizes a subtype string; anything unlisted is kept verbatim.
    pub fn from_str(sub: &str) -> (r: Self)
        ensures
            r.spec_str() == Self::canon(sub@),
    {
        if crate::text::str_eq(sub, "plain") {
            TextSubType::Plain
        } else if crate::text::str_eq(sub, "html") {
            TextSubType::Html
        } else if crate::text::str_eq(sub, "css") {
            TextSubType::Css
        } else if crate::text::str_eq(sub, "javascript") {
            TextSubType::Javascript
        } else if crate::text::str_eq(sub, "js") {
            TextSubType::Javascript
        } else if crate::text::str_eq(sub, "csv") {
            TextSubType::Csv
        } else if crate::text::str_eq(sub, "xml") {
            TextSubType::Xml
        } else if crate::text::str_eq(sub, "markdown") {
            TextSubType::Markdown
        } else {
            TextSubType::Other(String::from_str(sub))
        }
    }
}

/// Sub-type portion of a `application/*` media type.
#[derive(Clone, Debug)]
pub enum ApplicationSubType {
    /// `application/json`
    Json,
    /// `application/xml`
    Xml,
    /// `application/octetstream`
    OctetStream,
    /// `application/pdf`
    Pdf,
    /// `application/zip`
    Zip,
    /// `application/gzip`
    Gzip,
    /// `application/xwwwformurlencoded`
    XWwwFormUrlEncoded,
    /// `application/wasm`
    Wasm,
    /// `application/javascript`
    Javascript,
    /// Anything else; stored verbatim.
    Other(String),
}

impl ApplicationSubType {
    /// The subtype string this value serializes to.
    pub open spec fn spec_str(self) -> Seq<char> {
        match self {
            ApplicationSubType::Json => "json"@,
            ApplicationSubType::Xml => "xml"@,
            ApplicationSubType::OctetStream => "octetstream"@,
            ApplicationSubType::Pdf => "pdf"@,
            ApplicationSubType::Zip => "zip"@,
            ApplicationSubType::Gzip => "gzip"@,
            ApplicationSubType::XWwwFormUrlEncoded => "xwwwformurlencoded"@,
            ApplicationSubType::Wasm => "wasm"@,
            ApplicationSubType::Javascript => "javascript"@,
            ApplicationSubType::Other(s) => s@,
        }
    }

    /// The canonical subtype string that parsing the given subtype yields:
    /// recognized spellings map to the canonical one, anything else stays.
    pub open spec fn canon(s: Seq<char>) -> Seq<char> {
        if s == "json"@ {
            "json"@
        } else if s == "xml"@ {
            "xml"@
        } else if s == "octet-stream"@ {
            "octetstream"@
        } else if s == "pdf"@ {
            "pdf"@
        } else if s == "zip"@ {
            "zip"@
        } else if s == "gzip"@ {
            "gzip"@
        } else if s == "x-www-form-urlencoded"@ {
            "xwwwformurlencoded"@
        } else if s == "wasm"@ {
            "wasm"@
        } else if s == "javascript"@ {
            "javascript"@
        } else if s == "js"@ {
            "javascript"@
        } else {
            s
        }
    }

    /// The subtype as a string, as it appears after `application/`.
    pub fn as_str(&self) -> (r: String)
        ensures
            r@ == self.spec_str(),
    {
        match self {
            ApplicationSubType::Json => String::from_str("json"),
            ApplicationSubType::Xml => String::from_str("xml"),
            ApplicationSubType::OctetStream => String::from_str("octetstream"),
            ApplicationSubType::Pdf => String::from_str("pdf"),
            ApplicationSubType::Zip => String::from_str("zip"),
            ApplicationSubType::Gzip => String::from_str("gzip"),
            ApplicationSubType::XWwwFormUrlEncoded => String::from_str("xwwwformurlencoded"),
            ApplicationSubType::Wasm => String::from_str("wasm"),
            ApplicationSubType::Javascript => String::from_str("javascript"),
            ApplicationSubType::Other(s) => s.clone(),
        }
    }

    /// Recognizes a subtype string; anything unlisted is kept verbatim.
    pub fn from_str(sub: &str) -> (r: Self)
        ensures
            r.spec_str() == Self::canon(sub@),
    {
        if crate::text::str_eq(sub, "json") {
            ApplicationSubType::Json
        } else if crate::text::str_eq(sub, "xml") {
            ApplicationSubType::Xml
        } else if crate::text::str_eq(sub, "octet-stream") {
            ApplicationSubType::OctetStream
        } else if crate::text::str_eq(sub, "pdf") {
            ApplicationSubType::Pdf
        } else if crate::text::str_eq(sub, "zip") {
            ApplicationSubType::Zip
        } else if crate::text::str_eq(sub, "gzip") {
            ApplicationSubType::Gzip
        } else if crate::text::str_eq(sub, "x-www-form-urlencoded") {
            ApplicationSubType::XWwwFormUrlEncoded
        } else if crate::text::str_eq(sub, "wasm") {
            ApplicationSubType::Wasm
        } else if crate::text::str_eq(sub, "javascript") {
            ApplicationSubType::Javascript
        } else if crate::text::str_eq(sub, "js") {
            ApplicationSubType::Javascript
        } else {
            ApplicationSubType::Other(String::from_str(sub))
        }
    }
}

/// Sub-type portion of a `image/*` media type.
#[derive(Clone, Debug)]
pub enum ImageSubType {
    /// `image/png`
    Png,
    /// `image/jpeg`
    Jpeg,
    /// `image/gif`
    Gif,
    /// `image/webp`
    Webp,
    /// `image/svgxml`
    SvgXml,
    /// `image/avif`
    Avif,
    /// `image/bmp`
    Bmp,
    /// Anything else; stored verbatim.
    Other(String),
}

impl ImageSubType {
    /// The subtype string this value serializes to.
    pub open spec fn spec_str(self) -> Seq<char> {
        match self {
            ImageSubType::Png => "png"@,
            ImageSubType::Jpeg => "jpeg"@,
            ImageSubType::Gif => "gif"@,
            ImageSubType::Webp => "webp"@,
            ImageSubType::SvgXml => "svgxml"@,
            ImageSubType::Avif => "avif"@,
            ImageSubType::Bmp => "bmp"@,
            ImageSubType::Other(s) => s@,
        }
    }

    /// The canonical subtype string that parsing the given subtype yields:
    /// recognized spellings map to the canonical one, anything else stays.
    pub open spec fn canon(s: Seq<char>) -> Seq<char> {
        if s == "png"@ {
            "png"@
        } else if s == "jpeg"@ {
            "jpeg"@
        } else if s == "jpg"@ {
            "jpeg"@
        } else if s == "gif"@ {
            "gif"@
        } else if s == "webp"@ {
            "webp"@
        } else if s == "svg+xml"@ {
            "svgxml"@
        } else if s == "avif"@ {
            "avif"@
        } else if s == "bmp"@ {
            "bmp"@
        } else {
            s
        }
    }

    /// The subtype as a string, as it appears after `image/`.
    pub fn as_str(&self) -> (r: String)
        ensures
            r@ == self.spec_str(),
    {
        match self {
            ImageSubType::Png => String::from_str("png"),
            ImageSubType::Jpeg => String::from_str("jpeg"),
            ImageSubType::Gif => String::from_str("gif"),
            ImageSubType::Webp => String::from_str("webp"),
            ImageSubType::SvgXml => String::from_str("svgxml"),
            ImageSubType::Avif => String::from_str("avif"),
            ImageSubType::Bmp => String::from_str("bmp"),
            ImageSubType::Other(s) => s.clone(),
        }
    }

    /// Recognizes a subtype string; anything unlisted is kept verbatim.
    pub fn from_str(sub: &str) -> (r: Self)
        ensures
            r.spec_str() == Self::canon(sub@),
    {
        if crate::text::str_eq(sub, "png") {
            ImageSubType::Png
        } else if crate::text::str_eq(sub, "jpeg") {
            ImageSubType::Jpeg
        } else if crate::text::str_eq(sub, "jpg") {
            ImageSubType::Jpeg
        } else if crate::text::str_eq(sub, "gif") {
            ImageSubType::Gif
        } else if crate::text::str_eq(sub, "webp") {
            ImageSubType::Webp
        } else if crate::text::str_eq(sub, "svg+xml") {
            ImageSubType::SvgXml
        } else if crate::text::str_eq(sub, "avif") {
            ImageSubType::Avif
        } else if crate::text::str_eq(sub, "bmp") {
            ImageSubType::Bmp
        } else {
            ImageSubType::Other(String::from_str(sub))
        }
    }
}

/// Sub-type portion of a `audio/*` media type.
#[derive(Clone, Debug)]
pub enum AudioSubType {
    /// `audio/mpeg`
    Mpeg,
    /// `audio/mp4`
    Mp4,
    /// `audio/ogg`
    Ogg,
    /// `audio/webm`
    Webm,
    /// `audio/aac`
    Aac,
    /// `audio/wav`
    Wav,
    /// `audio/flac`
    Flac,
    /// Anything else; stored verbatim.
    Other(String),
}

impl AudioSubType {
    /// The subtype string this value serializes to.
    pub open spec fn spec_str(self) -> Seq<char> {
        match self {
            AudioSubType::Mpeg => "mpeg"@,
            AudioSubType::Mp4 => "mp4"@,
            AudioSubType::Ogg => "ogg"@,
            AudioSubType::Webm => "webm"@,
            AudioSubType::Aac => "aac"@,
            AudioSubType::Wav => "wav"@,
            AudioSubType::Flac => "flac"@,
            AudioSubType::Other(s) => s@,
        }
    }

    /// The canonical subtype string that parsing the given subtype yields:
    /// recognized spellings map to the canonical one, anything else stays.
    pub open spec fn canon(s: Seq<char>) -> Seq<char> {
        if s == "mpeg"@ {
            "mpeg"@
        } else if s == "mp3"@ {
            "mpeg"@
        } else if s == "mp4"@ {
            "mp4"@
        } else if s == "ogg"@ {
            "ogg"@
        } else if s == "webm"@ {
            "webm"@
        } else if s == "aac"@ {
            "aac"@
        } else if s == "wav"@ {
            "wav"@
        } else if s == "flac"@ {
            "flac"@
        } else {
            s
        }
    }

    /// The subtype as a string, as it appears after `audio/`.
    pub fn as_str(&self) -> (r: String)
        ensures
            r@ == self.spec_str(),
    {
        match self {
            AudioSubType::Mpeg => String::from_str("mpeg"),
            AudioSubType::Mp4 => String::from_str("mp4"),
            AudioSubType::Ogg => String::from_str("ogg"),
            AudioSubType::Webm => String::from_str("webm"),
            AudioSubType::Aac => String::from_str("aac"),
            AudioSubType::Wav => String::from_str("wav"),
            AudioSubType::Flac => String::from_str("flac"),
            AudioSubType::Other(s) => s.clone(),
        }
    }

    /// Recognizes a subtype string; anything unlisted is kept verbatim.
    pub fn from_str(sub: &str) -> (r: Self)
        ensures
            r.spec_str() == Self::canon(sub@),
    {
        if crate::text::str_eq(sub, "mpeg") {
            AudioSubType::Mpeg
        } else if crate::text::str_eq(sub, "mp3") {
            AudioSubType::Mpeg
        } else if crate::text::str_eq(sub, "mp4") {
            AudioSubType::Mp4
        } else if crate::text::str_eq(sub, "ogg") {
            AudioSubType::Ogg
        } else if crate::text::str_eq(sub, "webm") {
            AudioSubType::Webm
        } else if crate::text::str_eq(sub, "aac") {
            AudioSubType::Aac
        } else if crate::text::str_eq(sub, "wav") {
            AudioSubType::Wav
        } else if crate::text::str_eq(sub, "flac") {
            AudioSubType::Flac
        } else {
            AudioSubType::Other(String::from_str(sub))
        }
    }
}

/// Sub-type portion of a `video/*` media type.
#[derive(Clone, Debug)]
pub enum VideoSubType {
    /// `video/mp4`
    Mp4,
    /// `video/mpeg`
    Mpeg,
    /// `video/webm`
    Webm,
    /// `video/ogg`
    Ogg,
    /// `video/h264`
    H264,
    /// `video/h265`
    H265,
    /// Anything else; stored verbatim.
    Other(String),
}

impl VideoSubType {
    /// The subtype string this value serializes to.
    pub open spec fn spec_str(self) -> Seq<char> {
        match self {
            VideoSubType::Mp4 => "mp4"@,
            VideoSubType::Mpeg => "mpeg"@,
            VideoSubType::Webm => "webm"@,
            VideoSubType::Ogg => "ogg"@,
            VideoSubType::H264 => "h264"@,
            VideoSubType::H265 => "h265"@,
            VideoSubType::Other(s) => s@,
        }
    }

    /// The canonical subtype string that parsing the given subtype yields:
    /// recognized spellings map to the canonical one, anything else stays.
    pub open spec fn canon(s: Seq<char>) -> Seq<char> {
        if s == "mp4"@ {
            "mp4"@
        } else if s == "mpeg"@ {
            "mpeg"@
        } else if s == "webm"@ {
            "webm"@
        } else if s == "ogg"@ {
            "ogg"@
        } else if s == "h264"@ {
            "h264"@
        } else if s == "h265"@ {
            "h265"@
        } else {
            s
        }
    }

    /// The subtype as a string, as it appears after `video/`.
    pub fn as_str(&self) -> (r: String)
        ensures
            r@ == self.spec_str(),
    {
        match self {
            VideoSubType::Mp4 => String::from_str("mp4"),
            VideoSubType::Mpeg => String::from_str("mpeg"),
            VideoSubType::Webm => String::from_str("webm"),
            VideoSubType::Ogg => String::from_str("ogg"),
            VideoSubType::H264 => String::from_str("h264"),
            VideoSubType::H265 => String::from_str("h265"),
            VideoSubType::Other(s) => s.clone(),
        }
    }

    /// Recognizes a subtype string; anything unlisted is kept verbatim.
    pub fn from_str(sub: &str) -> (r: Self)
        ensures
            r.spec_str() == Self::canon(sub@),
    {
        if crate::text::str_eq(sub, "mp4") {
            VideoSubType::Mp4
        } else if crate::text::str_eq(sub, "mpeg") {
            VideoSubType::Mpeg
        } else if crate::text::str_eq(sub, "webm") {
            VideoSubType::Webm
        } else if crate::text::str_eq(sub, "ogg") {
            VideoSubType::Ogg
        } else if crate::text::str_eq(sub, "h264") {
            VideoSubType::H264
        } else if crate::text::str_eq(sub, "h265") {
            VideoSubType::H265
        } else {
            VideoSubType::Other(String::from_str(sub))
        }
    }
}

/// Sub-type portion of a `font/*` media type.
#[derive(Clone, Debug)]
pub enum FontSubType {
    /// `font/woff`
    Woff,
    /// `font/woff2`
    Woff2,
    /// `font/otf`
    Otf,
    /// `font/ttf`
    Ttf,
    /// Anything else; stored verbatim.
    Other(String),
}

impl FontSubType {
    /// The subtype string this value serializes to.
    pub open spec fn spec_str(self) -> Seq<char> {
        match self {
            FontSubType::Woff => "woff"@,
            FontSubType::Woff2 => "woff2"@,
            FontSubType::Otf => "otf"@,
            FontSubType::Ttf => "ttf"@,
            FontSubType::Other(s) => s@,
        }
    }

    /// The canonical subtype string that parsing the given subtype yields:
    /// recognized spellings map to the canonical one, anything else stays.
    pub open spec fn canon(s: Seq<char>) -> Seq<char> {
        if s == "woff"@ {
            "woff"@
        } else if s == "woff2"@ {
            "woff2"@
        } else if s == "otf"@ {
            "otf"@
        } else if s == "ttf"@ {
            "ttf"@
        } else {
            s
        }
    }

    /// The subtype as a string, as it appears after `font/`.
    pub fn as_str(&self) -> (r: String)
        ensures
            r@ == self.spec_str(),
    {
        match self {
            FontSubType::Woff => String::from_str("woff"),
            FontSubType::Woff2 => String::from_str("woff2"),
            FontSubType::Otf => String::from_str("otf"),
            FontSubType::Ttf => String::from_str("ttf"),
            FontSubType::Other(s) => s.clone(),
        }
    }

    /// Recognizes a subtype string; anything unlisted is kept verbatim.
    pub fn from_str(sub: &str) -> (r: Self)
        ensures
            r.spec_str() == Self::canon(sub@),
    {
        if crate::text::str_eq(sub, "woff") {
            FontSubType::Woff
        } else if crate::text::str_eq(sub, "woff2") {
            FontSubType::Woff2
        } else if crate::text::str_eq(sub, "otf") {
            FontSubType::Otf
        } else if crate::text::str_eq(sub, "ttf") {
            FontSubType::Ttf
        } else {
            FontSubType::Other(String::from_str(sub))
        }
    }
}

/// Sub-type portion of a `multipart/*` media type.
#[derive(Clone, Debug)]
pub enum MultipartSubType {
    /// `multipart/formdata`
    FormData,
    /// `multipart/mixed`
    Mixed,
    /// `multipart/alternative`
    Alternative,
    /// `multipart/related`
    Related,
    /// Anything else; stored verbatim.
    Other(String),
}

impl MultipartSubType {
    /// The subtype string this value serializes to.
    pub open spec fn spec_str(self) -> Seq<char> {
        match self {
            MultipartSubType::FormData => "formdata"@,
            MultipartSubType::Mixed => "mixed"@,
            MultipartSubType::Alternative => "alternative"@,
            MultipartSubType::Related => "related"@,
            MultipartSubType::Other(s) => s@,
        }
    }

    /// The canonical subtype string that parsing the given subtype yields:
    /// recognized spellings map to the canonical one, anything else stays.
    pub open spec fn canon(s: Seq<char>) -> Seq<char> {
        if s == "form-data"@ {
            "formdata"@
        } else if s == "mixed"@ {
            "mixed"@
        } else if s == "alternative"@ {
            "alternative"@
        } else if s == "related"@ {
            "related"@
        } else {
            s
        }
    }

    /// The subtype as a string, as it appears after `multipart/`.
    pub fn as_str(&self) -> (r: String)
        ensures
            r@ == self.spec_str(),
    {
        match self {
            MultipartSubType::FormData => String::from_str("formdata"),
            MultipartSubType::Mixed => String::from_str("mixed"),
            MultipartSubType::Alternative => String::from_str("alternative"),
            MultipartSubType::Related => String::from_str("related"),
            MultipartSubType::Other(s) => s.clone(),
        }
    }

    /// Recognizes a subtype string; anything unlisted is kept verbatim.
    pub fn from_str(sub: &str) -> (r: Self)
        ensures
            r.spec_str() == Self::canon(sub@),
    {
        if crate::text::str_eq(sub, "form-data") {
            MultipartSubType::FormData
        } else if crate::text::str_eq(sub, "mixed") {
            MultipartSubType::Mixed
        } else if crate::text::str_eq(sub, "alternative") {
            MultipartSubType::Alternative
        } else if crate::text::str_eq(sub, "related") {
            MultipartSubType::Related
        } else {
            MultipartSubType::Other(String::from_str(sub))
        }
    }
}

/// A typed HTTP media type (`type/subtype`).
#[derive(Clone, Debug)]
pub enum ContentType {
    /// `text/*`
    Text(TextSubType),
    /// `application/*`
    Application(ApplicationSubType),
    /// `image/*`
    Image(ImageSubType),
    /// `audio/*`
    Audio(AudioSubType),
    /// `video/*`
    Video(VideoSubType),
    /// `font/*`
    Font(FontSubType),
    /// `multipart/*`
    Multipart(MultipartSubType),
    /// Fallback for any `type/subtype` combination not listed above.
    Unknown(String, String),
}

/// The canonical `type/subtype` string that parsing the given string yields.
pub open spec fn content_type_canon(s: Seq<char>) -> Seq<char> {
    match crate::text::split_first(s, '/') {
        None => "unknown/unknown"@,
        Some((m, sub)) => {
                if m == "text"@ {
                    "text/"@ + TextSubType::canon(sub)
                } else                 if m == "application"@ {
                    "application/"@ + ApplicationSubType::canon(sub)
                } else                 if m == "image"@ {
                    "image/"@ + ImageSubType::canon(sub)
                } else                 if m == "audio"@ {
                    "audio/"@ + AudioSubType::canon(sub)
                } else                 if m == "video"@ {
                    "video/"@ + VideoSubType::canon(sub)
                } else                 if m == "font"@ {
                    "font/"@ + FontSubType::canon(sub)
                } else                 if m == "multipart"@ {
                    "multipart/"@ + MultipartSubType::canon(sub)
                } else {
                    m + "/"@ + sub
                }
        },
    }
}

impl ContentType {
    /// The `type/subtype` string this value serializes to.
    pub open spec fn spec_str(self) -> Seq<char> {
        match self {
            ContentType::Text(s) => "text/"@ + s.spec_str(),
            ContentType::Application(s) => "application/"@ + s.spec_str(),
            ContentType::Image(s) => "image/"@ + s.spec_str(),
            ContentType::Audio(s) => "audio/"@ + s.spec_str(),
            ContentType::Video(s) => "video/"@ + s.spec_str(),
            ContentType::Font(s) => "font/"@ + s.spec_str(),
            ContentType::Multipart(s) => "multipart/"@ + s.spec_str(),
            ContentType::Unknown(m, s) => m@ + "/"@ + s@,
        }
    }

    /// The media type as the `type/subtype` string of an HTTP header.
    pub fn as_str(&self) -> (r: String)
        ensures
            r@ == self.spec_str(),
    {
        match self {
            ContentType::Text(s) => {
                let mut r = String::from_str("text/");
                let sub = s.as_str();
                r.append(sub.as_str());
                r
            },
            ContentType::Application(s) => {
                let mut r = String::from_str("application/");
                let sub = s.as_str();
                r.append(sub.as_str());
                r
            },
            ContentType::Image(s) => {
                let mut r = String::from_str("image/");
                let sub = s.as_str();
                r.append(sub.as_str());
                r
            },
            ContentType::Audio(s) => {
                let mut r = String::from_str("audio/");
                let sub = s.as_str();
                r.append(sub.as_str());
                r
            },
            ContentType::Video(s) => {
                let mut r = String::from_str("video/");
                let sub = s.as_str();
                r.append(sub.as_str());
                r
            },
            ContentType::Font(s) => {
                let mut r = String::from_str("font/");
                let sub = s.as_str();
                r.append(sub.as_str());
                r
            },
            ContentType::Multipart(s) => {
                let mut r = String::from_str("multipart/");
                let sub = s.as_str();
                r.append(sub.as_str());
                r
            },
            ContentType::Unknown(m, s) => {
                let mut r = m.clone();
                r.append("/");
                r.append(s.as_str());
                r
            },
        }
    }

    /// Parses a `type/subtype` string.  A missing slash falls back to
    /// `unknown/unknown`; an unrecognized top-level type is kept verbatim.
    pub fn from_str(s: &str) -> (r: ContentType)
        ensures
            r.spec_str() == content_type_canon(s@),
    {
        match crate::text::split_once(s, '/') {
            None => {
                let r = ContentType::Unknown(
                    String::from_str("unknown"),
                    String::from_str("unknown"),
                );
                proof {
                    reveal_strlit("unknown");
                    reveal_strlit("/");
                    reveal_strlit("unknown/unknown");
                    assert(r.spec_str() =~= "unknown/unknown"@);
                }
                r
            },
            Some((main, sub)) => {
            if crate::text::str_eq(main.as_str(), "text") {
                ContentType::Text(TextSubType::from_str(sub.as_str()))
            } else if crate::text::str_eq(main.as_str(), "application") {
                ContentType::Application(ApplicationSubType::from_str(sub.as_str()))
            } else if crate::text::str_eq(main.as_str(), "image") {
                ContentType::Image(ImageSubType::from_str(sub.as_str()))
            } else if crate::text::str_eq(main.as_str(), "audio") {
                ContentType::Audio(AudioSubType::from_str(sub.as_str()))
            } else if crate::text::str_eq(main.as_str(), "video") {
                ContentType::Video(VideoSubType::from_str(sub.as_str()))
            } else if crate::text::str_eq(main.as_str(), "font") {
                ContentType::Font(FontSubType::from_str(sub.as_str()))
            } else if crate::text::str_eq(main.as_str(), "multipart") {
                ContentType::Multipart(MultipartSubType::from_str(sub.as_str()))
            } else {
                ContentType::Unknown(main, sub)
            }
            },
        }
    }
}

} // verus!
