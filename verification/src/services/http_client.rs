use crate::abstractions::utility::IUtility;
use crate::dtos::response::services::sensing_client::SensingClientServiceResponseDTO;
use crate::enums::error::SensingError;
use crate::identity::{check_identity, identity_ok};
use crate::values::digits::{decimal, push_decimal};
use crate::values::text::{chars_of, text_of};
use crate::wire::report::report_text;
use vstd::prelude::*;
use vstd::string::*;
use vstd::utf8::{decode_utf8, encode_utf8, encode_utf8_decode_utf8, valid_utf8};

verus! {

/// The client that carries reports to the server: it words the requests and
/// reads the answers; sending them is left to the caller.
pub struct HttpClientService {
    pub urn: String,
    pub device_urn: String,
    pub location_urn: String,
    pub server_ip: String,
}

/// Why an answer could not be read.
#[derive(Clone, Copy, Debug, PartialEq, Eq, Structural)]
pub enum HttpError {
    /// The answer is not text in UTF-8.
    InvalidUtf8,
}

/// The end of a line in a request or an answer.
pub open spec fn crlf() -> Seq<char> {
    seq!['\r', '\n']
}

/// A GET request for `endpoint` to the server `host`.
pub open spec fn get_request_text(endpoint: Seq<char>, host: Seq<char>) -> Seq<char> {
    "GET "@ + endpoint + " HTTP/1.1"@ + crlf() + "Host: "@ + host + crlf() + "Connection: close"@
        + crlf() + crlf()
}

/// A POST request to `endpoint` on the server `host` that carries `body`,
/// whose length is `length` bytes.
pub open spec fn post_request_text(
    endpoint: Seq<char>,
    host: Seq<char>,
    length: nat,
    body: Seq<char>,
) -> Seq<char> {
    "POST "@ + endpoint + " HTTP/1.1"@ + crlf() + "Host: "@ + host + crlf()
        + "Content-Type: application/json"@ + crlf() + "Content-Length: "@ + decimal(length)
        + crlf() + "Connection: close"@ + crlf() + crlf() + body
}

/// Whether the empty line that ends the head of an answer starts at `i`.
pub open spec fn blank_line_at(s: Seq<char>, i: int) -> bool {
    0 <= i && i + 4 <= s.len() && s[i] == '\r' && s[i + 1] == '\n' && s[i + 2] == '\r' && s[i + 3]
        == '\n'
}

/// The first position at or after `from` at which an empty line starts.
pub open spec fn head_end(s: Seq<char>, from: int) -> Option<int>
    decreases s.len() - from,
{
    if from < 0 || from + 4 > s.len() {
        None
    } else if blank_line_at(s, from) {
        Some(from)
    } else {
        head_end(s, from + 1)
    }
}

/// The body of an answer: what follows the first empty line, or the whole
/// answer where it has no empty line.
pub open spec fn body_of(s: Seq<char>) -> Seq<char> {
    match head_end(s, 0) {
        Some(i) => s.skip(i + 4),
        None => s,
    }
}

/// The text that bytes hold.
///
/// Trusted: stands for `core::str::from_utf8` of the standard library, which
/// gives the bytes as a text exactly where they are valid UTF-8, without
/// changing them.
#[verifier::external_body]
fn utf8_text(bytes: &[u8]) -> (r: Option<&str>)
    ensures
        r is Some <==> valid_utf8(bytes@),
        r matches Some(s) ==> s.spec_bytes() == bytes@,
{
    match core::str::from_utf8(bytes) {
        Ok(s) => Some(s),
        Err(_) => None,
    }
}

fn push_crlf(out: &mut String)
    ensures
        final(out)@ == old(out)@ + crlf(),
{
    out.append("\r\n");
    proof {
        reveal_strlit("\r\n");
        assert("\r\n"@ =~= crlf());
    }
}

impl HttpClientService {
    /// The client named `urn` on the given device and location, for the
    /// server at `server_ip`. The three names must not be empty.
    pub fn new(urn: String, device_urn: String, location_urn: String, server_ip: String) -> (r:
        Result<Self, SensingError>)
        ensures
            match r {
                Ok(s) => identity_ok(urn@, device_urn@, location_urn@) && s.urn == urn
                    && s.device_urn == device_urn && s.location_urn == location_urn && s.server_ip
                    == server_ip,
                Err(e) => e == SensingError::EmptyUrn && !identity_ok(
                    urn@,
                    device_urn@,
                    location_urn@,
                ),
            },
    {
        if check_identity(urn.as_str(), device_urn.as_str(), location_urn.as_str()) {
            Ok(HttpClientService { urn, device_urn, location_urn, server_ip })
        } else {
            Err(SensingError::EmptyUrn)
        }
    }

    /// The GET request for `endpoint`.
    pub fn create_get_request(&self, endpoint: &str) -> (r: String)
        ensures
            r@ == get_request_text(endpoint@, self.server_ip@),
    {
        let mut r = String::new();
        r.append("GET ");
        r.append(endpoint);
        r.append(" HTTP/1.1");
        push_crlf(&mut r);
        r.append("Host: ");
        r.append(self.server_ip.as_str());
        push_crlf(&mut r);
        r.append("Connection: close");
        push_crlf(&mut r);
        push_crlf(&mut r);
        assert(r@ =~= get_request_text(endpoint@, self.server_ip@));
        r
    }

    /// The POST request that carries `json_data` to `endpoint`. The length
    /// it states is that of the data in bytes.
    pub fn create_post_request(&self, endpoint: &str, json_data: &str) -> (r: String)
        ensures
            r@ == post_request_text(
                endpoint@,
                self.server_ip@,
                json_data.spec_bytes().len(),
                json_data@,
            ),
    {
        let mut r = String::new();
        r.append("POST ");
        r.append(endpoint);
        r.append(" HTTP/1.1");
        push_crlf(&mut r);
        r.append("Host: ");
        r.append(self.server_ip.as_str());
        push_crlf(&mut r);
        r.append("Content-Type: application/json");
        push_crlf(&mut r);
        r.append("Content-Length: ");
        push_decimal(&mut r, json_data.as_bytes().len() as u64);
        push_crlf(&mut r);
        r.append("Connection: close");
        push_crlf(&mut r);
        push_crlf(&mut r);
        r.append(json_data);
        assert(r@ =~= post_request_text(
            endpoint@,
            self.server_ip@,
            json_data.spec_bytes().len(),
            json_data@,
        ));
        r
    }

    /// The POST request that carries a report to the server's `/sensors`.
    pub fn create_report_request(&self, report: &SensingClientServiceResponseDTO) -> (r: String)
        ensures
            r@ == post_request_text(
                "/sensors"@,
                self.server_ip@,
                encode_utf8(report_text(report@)).len(),
                report_text(report@),
            ),
    {
        let wire = report.serialize();
        self.create_post_request("/sensors", wire.as_str())
    }

    /// The body of an answer: what follows the first empty line, or the
    /// whole answer where it has none. An answer that is not text in UTF-8
    /// is refused.
    pub fn parse_http_response(&self, response: &[u8]) -> (r: Result<String, HttpError>)
        ensures
            match r {
                Ok(body) => valid_utf8(response@) && body@ == body_of(decode_utf8(response@)),
                Err(e) => e == HttpError::InvalidUtf8 && !valid_utf8(response@),
            },
    {
        let text = match utf8_text(response) {
            Some(text) => text,
            None => {
                return Err(HttpError::InvalidUtf8);
            },
        };
        proof {
            encode_utf8_decode_utf8(text@);
        }
        let chars = chars_of(text);
        let n = chars.len();
        let mut i: usize = 0;
        while n >= 4 && i <= n - 4
            invariant
                n == chars@.len(),
                i <= n,
                valid_utf8(response@),
                chars@ == decode_utf8(response@),
                head_end(chars@, 0) == head_end(chars@, i as int),
            decreases n - i,
        {
            if chars[i] == '\r' && chars[i + 1] == '\n' && chars[i + 2] == '\r' && chars[i + 3]
                == '\n' {
                let body = text_of(&chars, i + 4, n);
                assert(chars@.subrange(i + 4, n as int) =~= chars@.skip(i + 4));
                return Ok(body);
            }
            i = i + 1;
        }
        let body = text_of(&chars, 0, n);
        assert(chars@.subrange(0, n as int) =~= chars@);
        Ok(body)
    }
}

impl IUtility for HttpClientService {
    open spec fn urn_text(&self) -> Seq<char> {
        self.urn@
    }

    open spec fn device_urn_text(&self) -> Seq<char> {
        self.device_urn@
    }

    open spec fn location_urn_text(&self) -> Seq<char> {
        self.location_urn@
    }

    fn urn(&self) -> (r: String) {
        self.urn.clone()
    }

    fn device_urn(&self) -> (r: String) {
        self.device_urn.clone()
    }

    fn location_urn(&self) -> (r: String) {
        self.location_urn.clone()
    }
}

} // verus!
