//! The web interface's pure pieces: file names, content types, request
//! classification, and response assembly.

use vstd::prelude::*;
use vstd::string::StringSliceAdditionalSpecFns;

use crate::bms::Bms;
use crate::decimal::{spec_udec, u32_dec};
use crate::errors::StmError;

verus! {

/// Which stored page a request names.
#[derive(Clone, Copy, Debug, PartialEq, Eq, Structural)]
pub enum FileName {
    Index,
    Settings,
}

impl FileName {
    /// The stored page's file name.
    pub fn as_bytes(&self) -> (r: &'static [u8])
        ensures
            self == FileName::Index ==> r@ == "index.html".spec_bytes(),
            self == FileName::Settings ==> r@ == "settings.html".spec_bytes(),
    {
        match self {
            FileName::Index => "index.html".as_bytes(),
            FileName::Settings => "settings.html".as_bytes(),
        }
    }

    /// Recognize a stored page's file name; anything else is an
    /// invalid-file-name error.
    pub fn from_bytes(filename: &[u8]) -> (r: Result<FileName, StmError>)
        ensures
            r == Ok::<FileName, StmError>(FileName::Index) ==> filename@ =~= "index.html".spec_bytes(),
            r == Ok::<FileName, StmError>(FileName::Settings) ==> filename@
                =~= "settings.html".spec_bytes(),
            r is Err ==> !(filename@ =~= "index.html".spec_bytes()) && !(filename@
                =~= "settings.html".spec_bytes()) && r == Err::<FileName, StmError>(
                StmError::InvalidFileName,
            ),
    {
        if eq_bytes(filename, "index.html".as_bytes()) {
            Ok(FileName::Index)
        } else if eq_bytes(filename, "settings.html".as_bytes()) {
            Ok(FileName::Settings)
        } else {
            Err(StmError::InvalidFileName)
        }
    }
}

/// Byte-for-byte slice equality.
fn eq_bytes(a: &[u8], b: &[u8]) -> (r: bool)
    ensures
        r == (a@ =~= b@),
{
    if a.len() != b.len() {
        return false;
    }
    let mut i: usize = 0;
    let mut same = true;
    while i < a.len()
        invariant
            i <= a@.len(),
            a@.len() == b@.len(),
            same == (forall|j: int| 0 <= j < i ==> a@[j] == b@[j]),
        decreases a@.len() - i,
    {
        if a[i] != b[i] {
            same = false;
        }
        i = i + 1;
    }
    same
}

/// The content type of a response body.
#[derive(Clone, Copy, Debug, PartialEq, Eq, Structural)]
pub enum HttpType {
    Json,
    Html,
    Plain,
}

impl HttpType {
    /// The media-type header value.
    pub fn as_str(&self) -> (r: &'static str)
        ensures
            self == HttpType::Json ==> r@ == "application/json"@,
            self == HttpType::Html ==> r@ == "text/html"@,
            self == HttpType::Plain ==> r@ == "text/plain"@,
    {
        match self {
            HttpType::Json => "application/json",
            HttpType::Html => "text/html",
            HttpType::Plain => "text/plain",
        }
    }
}

/// Why a response could not be assembled.
#[derive(Clone, Copy, Debug, PartialEq, Eq, Structural)]
pub enum HttpError {
    Error,
}

/// A request's method, as far as the gateway distinguishes.
#[derive(Clone, Copy, Debug, PartialEq, Eq, Structural)]
pub enum HttpRequestType {
    Get,
    Post,
    Invalid,
}

impl HttpRequestType {
    /// Classify a parsed request's method; a request without one is an
    /// error.
    pub fn decode(method: Option<&str>) -> (r: Result<HttpRequestType, StmError>)
        ensures
            method is None <==> r == Err::<HttpRequestType, StmError>(
                StmError::InvalidHttpRequest,
            ),
    {
        match method {
            None => Err(StmError::InvalidHttpRequest),
            Some(m) => Ok(HttpRequestType::from_str(m)),
        }
    }

    /// Classify a method name; anything but GET and POST is `Invalid`.
    pub fn from_str(slice: &str) -> (r: HttpRequestType)
        ensures
            r == HttpRequestType::Get ==> slice.spec_bytes() =~= "GET".spec_bytes(),
            r == HttpRequestType::Post ==> slice.spec_bytes() =~= "POST".spec_bytes(),
            r == HttpRequestType::Invalid ==> !(slice.spec_bytes() =~= "GET".spec_bytes()) && !(
            slice.spec_bytes() =~= "POST".spec_bytes()),
    {
        if eq_bytes(slice.as_bytes(), "GET".as_bytes()) {
            HttpRequestType::Get
        } else if eq_bytes(slice.as_bytes(), "POST".as_bytes()) {
            HttpRequestType::Post
        } else {
            HttpRequestType::Invalid
        }
    }
}

/// The status line and headers for a successful response carrying
/// `body_len` bytes of type `h`, followed by the body itself.
pub open spec fn spec_response(h: HttpType, body: Seq<char>) -> Seq<char> {
    "HTTP/1.1 200 OK\r\nContent-Type: "@ + (match h {
        HttpType::Json => "application/json"@,
        HttpType::Html => "text/html"@,
        HttpType::Plain => "text/plain"@,
    }) + "\r\nContent-Length: "@ + spec_udec(body.len() as int) + "\r\n\r\n"@ + body
}

/// Assemble a complete success response around a body.
pub fn construct_response(body: &str, h: HttpType, response: &mut String) -> (r: Result<
    (),
    HttpError,
>)
    requires
        body@.len() < 0x1_0000_0000,
    ensures
        r is Ok,
        final(response)@ == old(response)@ + spec_response(h, body@),
{
    proof {
        reveal_strlit("HTTP/1.1 200 OK\r\nContent-Type: ");
        reveal_strlit("\r\nContent-Length: ");
        reveal_strlit("\r\n\r\n");
        reveal_strlit("application/json");
        reveal_strlit("text/html");
        reveal_strlit("text/plain");
    }
    response.append("HTTP/1.1 200 OK\r\nContent-Type: ");
    response.append(h.as_str());
    response.append("\r\nContent-Length: ");
    let len32: u32 = body_len_u32(body);
    let len_text = u32_dec(len32);
    response.append(len_text.as_str());
    response.append("\r\n\r\n");
    response.append(body);
    proof {
        assert(response@ =~= old(response)@ + spec_response(h, body@));
    }
    Ok(())
}

/// The body's character length as a 32-bit value.
fn body_len_u32(body: &str) -> (r: u32)
    requires
        body@.len() < 0x1_0000_0000,
    ensures
        r == body@.len(),
{
    let n = str_char_len(body);
    n as u32
}

/// The number of characters in a string.
fn str_char_len(s: &str) -> (r: usize)
    ensures
        r == s@.len(),
{
    s.unicode_len()
}

/// The `millivolts,balancing,` pairs of the first `n` cells, joined.
pub open spec fn spec_cell_stats(cells: Seq<u16>, bal: Seq<bool>, n: int) -> Seq<char>
    decreases n,
{
    if n <= 0 {
        Seq::empty()
    } else {
        spec_cell_stats(cells, bal, n - 1) + spec_udec(cells[n - 1] as int) + ","@ + (if bal[n - 1] {
            "1"@
        } else {
            "0"@
        }) + ","@
    }
}

/// Render every cell's voltage and balancing flag as comma-joined
/// text, one `millivolts,flag,` pair per cell.
pub fn cell_stats(bms: &Bms) -> (r: String)
    ensures
        r@ == spec_cell_stats(bms.cell_mv@, bms.bal_cells@, 96),
{
    proof {
        reveal_strlit(",");
        reveal_strlit("1");
        reveal_strlit("0");
    }
    let mut out = String::new();
    let mut i: usize = 0;
    while i < 96
        invariant
            i <= 96,
            bms.cell_mv@.len() == 96,
            bms.bal_cells@.len() == 96,
            out@ == spec_cell_stats(bms.cell_mv@, bms.bal_cells@, i as int),
        decreases 96 - i,
    {
        let v = u32_dec(bms.cell_mv[i] as u32);
        out.append(v.as_str());
        out.append(",");
        if bms.bal_cells[i] {
            out.append("1");
        } else {
            out.append("0");
        }
        out.append(",");
        proof {
            assert(out@ =~= spec_cell_stats(bms.cell_mv@, bms.bal_cells@, i + 1));
        }
        i = i + 1;
    }
    out
}

} // verus!
