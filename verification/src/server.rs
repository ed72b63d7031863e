use vstd::prelude::*;

verus! {

/// An inbound request's method, as far as routing reads it.
#[derive(Clone, Copy, Debug, PartialEq, Eq, Structural)]
pub enum Method {
    Get,
    Post,
    /// Any method other than GET or POST.
    Other,
}

/// A response body: either text the dispatcher itself wrote, or the bytes a
/// handler produced.
#[derive(Debug)]
pub enum ResponseBody {
    Text(String),
    Data(Vec<u8>),
}

/// A wire-independent response: a status code and a body.
#[derive(Debug)]
pub struct HttpResponse {
    pub status: u16,
    pub body: ResponseBody,
}

pub const STATUS_OK: u16 = 200;

pub const STATUS_NOT_FOUND: u16 = 404;

pub const STATUS_ERROR: u16 = 500;

/// The static usage hint that `GET /` always answers with.
pub open spec fn help_text() -> Seq<char> {
    "Try POSTing data to /image\n"@
}

/// The pluggable request-to-response transformation behind `POST /image`:
/// maps one fully buffered request body to response bytes, or to an error
/// message. `handle` takes `&self`, so one handler may serve any number of
/// concurrent requests; nothing is promised of its result, and the
/// dispatcher is verified against every value an implementation could
/// return.
pub trait Handler {
    fn handle(&self, body: Vec<u8>) -> Result<Vec<u8>, String>;
}

/// The request dispatcher: routes one buffered request to the handler and
/// shapes the response. It holds no mutable state, so no request can
/// influence a later one, and requests against one shared dispatcher are
/// independent.
pub struct Server<T: Handler> {
    pub cb: T,
}

impl<T: Handler> Server<T> {
    pub fn new(cb: T) -> (r: Server<T>)
        ensures
            r.cb == cb,
    {
        Server { cb }
    }

    /// Routes one fully buffered request.
    ///
    /// - `GET /` is answered `200` with the static usage hint, whatever came
    ///   before.
    /// - `POST /image` hands the body to the handler: its bytes are answered
    ///   `200`; its failure message is answered `500`, as the response text.
    ///   A handler failure never leaves this call, so one bad request cannot
    ///   take the dispatcher down.
    /// - Any other (method, path) is answered `404` with the usage hint.
    pub fn handle_request(&self, method: Method, path: &String, body: Vec<u8>) -> (r:
        HttpResponse)
        ensures
            method == Method::Get && path@ == "/"@ ==> r.status == STATUS_OK && (r.body matches
                ResponseBody::Text(t) && t@ == help_text()),
            method == Method::Post && path@ == "/image"@ ==> (r.status == STATUS_OK
                && r.body is Data) || (r.status == STATUS_ERROR && r.body is Text),
            !(method == Method::Get && path@ == "/"@) && !(method == Method::Post && path@
                == "/image"@) ==> r.status == STATUS_NOT_FOUND && (r.body matches
                ResponseBody::Text(t) && t@ == help_text()),
    {
        match method {
            Method::Get => {
                if *path == "/".to_owned() {
                    HttpResponse {
                        status: STATUS_OK,
                        body: ResponseBody::Text("Try POSTing data to /image\n".to_owned()),
                    }
                } else {
                    Self::not_found()
                }
            },
            Method::Post => {
                if *path == "/image".to_owned() {
                    match self.cb.handle(body) {
                        Ok(data) => HttpResponse {
                            status: STATUS_OK,
                            body: ResponseBody::Data(data),
                        },
                        Err(m) => HttpResponse {
                            status: STATUS_ERROR,
                            body: ResponseBody::Text(m),
                        },
                    }
                } else {
                    Self::not_found()
                }
            },
            Method::Other => Self::not_found(),
        }
    }

    /// The 404-equivalent static response for every unrecognized route.
    fn not_found() -> (r: HttpResponse)
        ensures
            r.status == STATUS_NOT_FOUND,
            (r.body matches ResponseBody::Text(t) && t@ == help_text()),
    {
        HttpResponse {
            status: STATUS_NOT_FOUND,
            body: ResponseBody::Text("Try POSTing data to /image\n".to_owned()),
        }
    }
}

} // verus!
