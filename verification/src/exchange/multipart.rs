//! Bodies of the form `multipart/form-data`.

use vstd::prelude::*;
use vstd::utf8::encode_utf8;

use crate::text::{concat2, concat3};

verus! {

/// A file that stands in a part of its own.
pub struct File<'a> {
    pub filename: &'a str,
    pub content_type: &'a str,
    pub bytes: &'a [u8],
}

/// A body that is being built.
pub struct MultipartBuilder {
    boundary: String,
    body: Vec<u8>,
}

/// The value of a [`MultipartBuilder`].
pub struct MultipartView {
    pub boundary: Seq<char>,
    pub body: Seq<u8>,
}

impl View for MultipartBuilder {
    type V = MultipartView;

    closed spec fn view(&self) -> MultipartView {
        MultipartView { boundary: self.boundary@, body: self.body@ }
    }
}

/// The line before each part.
pub open spec fn delimiter(boundary: Seq<char>) -> Seq<u8> {
    encode_utf8("--"@ + boundary + "\r\n"@)
}

/// The line after the last part.
pub open spec fn closing(boundary: Seq<char>) -> Seq<u8> {
    encode_utf8("--"@ + boundary + "--\r\n"@)
}

/// A part that holds a text.
pub open spec fn text_part(boundary: Seq<char>, name: Seq<char>, value: Seq<char>) -> Seq<u8> {
    delimiter(boundary) + encode_utf8(
        "Content-Disposition: form-data; name=\""@ + name + "\"\r\n\r\n"@,
    ) + encode_utf8(value) + encode_utf8("\r\n"@)
}

/// A part that holds a file.
pub open spec fn file_part(
    boundary: Seq<char>,
    name: Seq<char>,
    filename: Seq<char>,
    content_type: Seq<char>,
    bytes: Seq<u8>,
) -> Seq<u8> {
    delimiter(boundary) + encode_utf8(
        "Content-Disposition: form-data; name=\""@ + name + "\"; filename=\""@ + filename
            + "\"\r\n"@,
    ) + encode_utf8("Content-Type: "@ + content_type + "\r\n\r\n"@) + bytes + encode_utf8("\r\n"@)
}

/// The content type of a body.
pub open spec fn form_content_type(boundary: Seq<char>) -> Seq<char> {
    "multipart/form-data; boundary="@ + boundary
}

impl MultipartBuilder {
    /// A body without parts.
    pub fn new(boundary: String) -> (r: MultipartBuilder)
        ensures
            r@ == (MultipartView { boundary: boundary@, body: Seq::empty() }),
    {
        let r = MultipartBuilder { boundary, body: Vec::new() };
        assert(r@.body =~= Seq::empty());
        r
    }

    fn write(&mut self, s: &str)
        ensures
            final(self)@ == (MultipartView {
                boundary: old(self)@.boundary,
                body: old(self)@.body + encode_utf8(s@),
            }),
    {
        let ghost before = self.body@;
        self.body.extend_from_slice(s.as_bytes());
        assert(self.body@ =~= before + encode_utf8(s@));
    }

    fn write_boundary(&mut self)
        ensures
            final(self)@ == (MultipartView {
                boundary: old(self)@.boundary,
                body: old(self)@.body + delimiter(old(self)@.boundary),
            }),
    {
        let line: String = concat3("--", self.boundary.as_str(), "\r\n");
        self.write(line.as_str());
    }

    /// Adds a part that holds a text.
    pub fn add_text(&mut self, name: &str, value: &str)
        ensures
            final(self)@ == (MultipartView {
                boundary: old(self)@.boundary,
                body: old(self)@.body + text_part(old(self)@.boundary, name@, value@),
            }),
    {
        let ghost before = self@;
        self.write_boundary();
        self.write(
            concat3("Content-Disposition: form-data; name=\"", name, "\"\r\n\r\n").as_str(),
        );
        self.write(value);
        self.write("\r\n");
        assert(self@.body =~= before.body + text_part(before.boundary, name@, value@));
    }

    /// Adds a part that holds a file.
    pub fn add_file(&mut self, name: &str, file: File<'_>)
        ensures
            final(self)@ == (MultipartView {
                boundary: old(self)@.boundary,
                body: old(self)@.body + file_part(
                    old(self)@.boundary,
                    name@,
                    file.filename@,
                    file.content_type@,
                    file.bytes@,
                ),
            }),
    {
        let ghost before = self@;
        self.write_boundary();
        let head: String = concat3("Content-Disposition: form-data; name=\"", name, "\"; filename=\"");
        self.write(concat3(head.as_str(), file.filename, "\"\r\n").as_str());
        self.write(concat3("Content-Type: ", file.content_type, "\r\n\r\n").as_str());
        let ghost so_far = self.body@;
        self.body.extend_from_slice(file.bytes);
        assert(self.body@ =~= so_far + file.bytes@);
        self.write("\r\n");
        assert(self@.body =~= before.body + file_part(
            before.boundary,
            name@,
            file.filename@,
            file.content_type@,
            file.bytes@,
        ));
    }

    /// Closes the body, and gives its content type and its bytes.
    pub fn finish(self) -> (r: (String, Vec<u8>))
        ensures
            r.0@ == form_content_type(self@.boundary),
            r.1@ == self@.body + closing(self@.boundary),
    {
        let line: String = concat3("--", self.boundary.as_str(), "--\r\n");
        let content_type: String = concat2(
            "multipart/form-data; boundary=",
            self.boundary.as_str(),
        );
        let mut body: Vec<u8> = self.body;
        body.extend_from_slice(line.as_str().as_bytes());
        assert(body@ =~= self@.body + closing(self@.boundary));
        (content_type, body)
    }
}

/// Every part begins with the line that the boundary gives.
pub proof fn parts_begin_with_the_delimiter(
    boundary: Seq<char>,
    name: Seq<char>,
    value: Seq<char>,
    filename: Seq<char>,
    content_type: Seq<char>,
    bytes: Seq<u8>,
)
    ensures
        text_part(boundary, name, value).take(delimiter(boundary).len() as int) == delimiter(
            boundary,
        ),
        file_part(boundary, name, filename, content_type, bytes).take(
            delimiter(boundary).len() as int,
        ) == delimiter(boundary),
{
    let d = delimiter(boundary);
    assert(text_part(boundary, name, value).take(d.len() as int) =~= d);
    assert(file_part(boundary, name, filename, content_type, bytes).take(d.len() as int) =~= d);
}

/// The bytes of a file stand in its part unchanged.
pub proof fn file_stands_unchanged(
    boundary: Seq<char>,
    name: Seq<char>,
    filename: Seq<char>,
    content_type: Seq<char>,
    bytes: Seq<u8>,
)
    ensures
        ({
            let part = file_part(boundary, name, filename, content_type, bytes);
            let tail = encode_utf8("\r\n"@);
            part.subrange(part.len() - tail.len() - bytes.len(), part.len() - tail.len()) == bytes
        }),
{
    let part = file_part(boundary, name, filename, content_type, bytes);
    let tail = encode_utf8("\r\n"@);
    assert(part.subrange(part.len() - tail.len() - bytes.len(), part.len() - tail.len())
        =~= bytes);
}

} // verus!
