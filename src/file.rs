//! File download and inline-content responses.

use vstd::prelude::*;
use crate::headers::{Headers, inserted};
use vstd::slice::slice_to_vec;

verus! {

/// How the content is presented to the user.
#[derive(Debug, Clone, Copy, PartialEq, Eq, Structural)]
pub enum ContentDisposition {
    /// Displayed directly in the browser.
    Inline,
    /// Treated as a downloadable file.
    Attachment,
}

impl ContentDisposition {
    /// The disposition's token in a `Content-Disposition` header.
    pub open spec fn token(self) -> Seq<char> {
        match self {
            ContentDisposition::Inline => "inline"@,
            ContentDisposition::Attachment => "attachment"@,
        }
    }

    /// The disposition's token in a `Content-Disposition` header.
    pub fn as_str(&self) -> (r: &'static str)
        ensures
            r@ == self.token(),
    {
        match self {
            ContentDisposition::Inline => "inline",
            ContentDisposition::Attachment => "attachment",
        }
    }
}

/// The `Content-Disposition` header value for a disposition and file name.
pub open spec fn disposition_header(d: ContentDisposition, filename: Seq<char>) -> Seq<char> {
    d.token() + "; filename=\""@ + filename + "\""@
}

/// The file name used when none is set.
pub open spec fn default_filename() -> Seq<char> {
    "file"@
}

/// What a file response holds.
pub struct FileView {
    pub bytes: Seq<u8>,
    pub content_type: Seq<char>,
    pub filename: Option<Seq<char>>,
    pub disposition: ContentDisposition,
    pub headers: Seq<(Seq<char>, Seq<char>)>,
}

/// A builder for file download and inline-content responses.
#[derive(Debug)]
pub struct File {
    bytes: Vec<u8>,
    content_type: String,
    filename: Option<String>,
    disposition: ContentDisposition,
    headers: Headers,
}

impl View for File {
    type V = FileView;

    closed spec fn view(&self) -> FileView {
        FileView {
            bytes: self.bytes@,
            content_type: self.content_type@,
            filename: crate::json::opt_view(self.filename),
            disposition: self.disposition,
            headers: self.headers@,
        }
    }
}

impl File {
    #[verifier::type_invariant]
    closed spec fn inv(&self) -> bool {
        self.headers.wf()
    }

    /// An empty attachment of type `application/octet-stream` without a
    /// file name.
    pub fn new() -> (r: File)
        ensures
            r@ == (FileView {
                bytes: Seq::empty(),
                content_type: "application/octet-stream"@,
                filename: None,
                disposition: ContentDisposition::Attachment,
                headers: Seq::empty(),
            }),
    {
        File {
            bytes: Vec::new(),
            content_type: String::from_str("application/octet-stream"),
            filename: None,
            disposition: ContentDisposition::Attachment,
            headers: Headers::new(),
        }
    }

    /// Sets the content.
    pub fn bytes(self, bytes: &[u8]) -> (r: File)
        ensures
            r@ == (FileView { bytes: bytes@, ..self@ }),
    {
        proof {
            use_type_invariant(&self);
        }
        let mut r = self;
        r.bytes = slice_to_vec(bytes);
        r
    }

    /// Sets the content type.
    pub fn content_type(self, content_type: &str) -> (r: File)
        ensures
            r@ == (FileView { content_type: content_type@, ..self@ }),
    {
        proof {
            use_type_invariant(&self);
        }
        let mut r = self;
        r.content_type = content_type.to_string();
        r
    }

    /// Sets the file name.
    pub fn filename(self, filename: &str) -> (r: File)
        ensures
            r@ == (FileView { filename: Some(filename@), ..self@ }),
    {
        proof {
            use_type_invariant(&self);
        }
        let mut r = self;
        r.filename = Some(filename.to_string());
        r
    }

    /// Sets the disposition.
    pub fn disposition(self, disposition: ContentDisposition) -> (r: File)
        ensures
            r@ == (FileView { disposition, ..self@ }),
    {
        proof {
            use_type_invariant(&self);
        }
        let mut r = self;
        r.disposition = disposition;
        r
    }

    /// Presents the content as a download.
    pub fn attachment(self) -> (r: File)
        ensures
            r@ == (FileView { disposition: ContentDisposition::Attachment, ..self@ }),
    {
        self.disposition(ContentDisposition::Attachment)
    }

    /// Presents the content inline.
    pub fn inline(self) -> (r: File)
        ensures
            r@ == (FileView { disposition: ContentDisposition::Inline, ..self@ }),
    {
        self.disposition(ContentDisposition::Inline)
    }

    /// Adds a header; a name or value that the `http` crate rejects is
    /// ignored.
    pub fn header(self, key: &str, value: &str) -> (r: File)
        ensures
            r@ == (FileView { headers: inserted(self@.headers, key@, value@), ..self@ }),
    {
        proof {
            use_type_invariant(&self);
        }
        let File { bytes, content_type, filename, disposition, headers } = self;
        let mut headers = headers;
        headers.insert(key, value);
        File { bytes, content_type, filename, disposition, headers }
    }

    /// The content.
    pub fn content(&self) -> (r: &Vec<u8>)
        ensures
            r@ == self@.bytes,
    {
        &self.bytes
    }

    /// The content type.
    pub fn content_type_value(&self) -> (r: &String)
        ensures
            r@ == self@.content_type,
    {
        &self.content_type
    }

    /// The extra headers, in insertion order.
    pub fn headers(&self) -> (r: &Vec<(String, String)>)
        ensures
            r@.map_values(|e: (String, String)| (e.0@, e.1@)) == self@.headers,
    {
        self.headers.entries()
    }

    /// The `Content-Disposition` header value: the disposition, then the
    /// file name in quotes ("file" when none is set).
    pub fn content_disposition(&self) -> (r: String)
        ensures
            r@ == disposition_header(
                self@.disposition,
                match self@.filename {
                    Some(f) => f,
                    None => default_filename(),
                },
            ),
    {
        let mut r = String::from_str(self.disposition.as_str());
        r.append("; filename=\"");
        match &self.filename {
            Some(f) => r.append(f.as_str()),
            None => r.append("file"),
        }
        r.append("\"");
        r
    }
}

} // verus!
