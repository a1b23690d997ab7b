use vstd::prelude::*;
use vstd::string::*;
use crate::address::{basket_url, pantry_url, parse_url, url_accepts};
use crate::error::PantryError;
use crate::json::Json;
use crate::reply::{is_success, json_outcome};
use crate::pantry::{is_update_body, UpdatePantryRequest};

verus! {

/// Root of the public pantry service, used when no other root is given.
pub const BASE_URL: &'static str = "https://getpantry.cloud/apiv1";

/// The HTTP method of a request.
#[derive(Clone, Copy, Debug, PartialEq, Eq, Structural)]
pub enum Method {
    Get,
    Post,
    Put,
    Delete,
}

/// The `Content-Type` sent with every request.
pub const CONTENT_TYPE: &'static str = "application/json";

/// One request to the service: its method, the URL as text and as parsed, and
/// the JSON body, if any. It is sent with a `Content-Type` of [`CONTENT_TYPE`].
#[derive(Debug)]
pub struct Request {
    pub method: Method,
    pub url_text: String,
    pub url: url::Url,
    pub body: Option<Json>,
}

/// `r` is the request with `method`, URL `text` and `body` when `text` parses
/// as a URL, and a [`PantryError::Request`] otherwise.
pub open spec fn describes(
    r: Result<Request, PantryError>,
    method: Method,
    text: Seq<char>,
    body: Option<Json>,
) -> bool {
    &&& r is Ok <==> url_accepts(text)
    &&& match r {
        Ok(q) => q.method == method && q.url_text@ == text && q.body == body,
        Err(e) => e is Request,
    }
}

/// Parses `text` and makes it a request.
pub fn make_request(method: Method, text: String, body: Option<Json>) -> (r: Result<
    Request,
    PantryError,
>)
    ensures
        describes(r, method, text@, body),
{
    match parse_url(text.as_str()) {
        Ok(url) => Ok(Request { method, url_text: text, url, body }),
        Err(e) => Err(PantryError::Request(e)),
    }
}

/// What a client holds, as mathematical strings.
pub struct ClientView {
    pub base_url: Seq<char>,
    pub pantry_id: Seq<char>,
}

/// A client bound to one pantry of one service. Both fields are fixed when the
/// client is made and never change.
pub struct PantryClient {
    base_url: String,
    pantry_id: String,
}

impl View for PantryClient {
    type V = ClientView;

    closed spec fn view(&self) -> ClientView {
        ClientView { base_url: self.base_url@, pantry_id: self.pantry_id@ }
    }
}

impl PantryClient {
    /// A client for `pantry_id` on the service rooted at `base_url`.
    pub fn with_base_url(base_url: &str, pantry_id: &str) -> (r: PantryClient)
        ensures
            r@.base_url == base_url@,
            r@.pantry_id == pantry_id@,
    {
        PantryClient { base_url: String::from_str(base_url), pantry_id: String::from_str(pantry_id) }
    }

    /// The root URL of the service.
    pub fn get_url(&self) -> (r: &str)
        ensures
            r@ == self@.base_url,
    {
        self.base_url.as_str()
    }

    /// The URL of the pantry, `{base_url}/pantry/{pantry_id}`.
    pub fn pantry_url_text(&self) -> (r: String)
        ensures
            r@ == pantry_url(self@.base_url, self@.pantry_id),
    {
        let mut text = self.base_url.clone();
        text.append("/pantry/");
        text.append(self.pantry_id.as_str());
        text
    }

    /// The URL of basket `basket_name`,
    /// `{base_url}/pantry/{pantry_id}/basket/{basket_name}`.
    pub fn basket_url_text(&self, basket_name: &str) -> (r: String)
        ensures
            r@ == basket_url(self@.base_url, self@.pantry_id, basket_name@),
    {
        let mut text = self.pantry_url_text();
        text.append("/basket/");
        text.append(basket_name);
        text
    }

    /// The request that reads the pantry's details: `GET` on the pantry's URL.
    pub fn get_pantry_request(&self) -> (r: Result<Request, PantryError>)
        ensures
            describes(r, Method::Get, pantry_url(self@.base_url, self@.pantry_id), None),
    {
        make_request(Method::Get, self.pantry_url_text(), None)
    }

    /// The request that changes the pantry's name and description: `PUT` on the
    /// pantry's URL, with `{"name": .., "description": ..}` as its body.
    pub fn update_pantry_request(&self, req: &UpdatePantryRequest) -> (r: Result<
        Request,
        PantryError,
    >)
        ensures
            r is Ok <==> url_accepts(pantry_url(self@.base_url, self@.pantry_id)),
            match r {
                Ok(q) => {
                    &&& q.method == Method::Put
                    &&& q.url_text@ == pantry_url(self@.base_url, self@.pantry_id)
                    &&& q.body matches Some(b) && is_update_body(b, req.name@, req.description@)
                },
                Err(e) => e is Request,
            },
    {
        make_request(Method::Put, self.pantry_url_text(), Some(req.to_json()))
    }

    /// The request that creates basket `basket_name` or merges `data` into it:
    /// `POST` on the basket's URL, with `data` as its body.
    pub fn upsert_basket_request(&self, basket_name: &str, data: Json) -> (r: Result<
        Request,
        PantryError,
    >)
        ensures
            describes(
                r,
                Method::Post,
                basket_url(self@.base_url, self@.pantry_id, basket_name@),
                Some(data),
            ),
    {
        make_request(Method::Post, self.basket_url_text(basket_name), Some(data))
    }

    /// The request that reads basket `basket_name`: `GET` on the basket's URL.
    pub fn get_basket_request(&self, basket_name: &str) -> (r: Result<Request, PantryError>)
        ensures
            describes(r, Method::Get, basket_url(self@.base_url, self@.pantry_id, basket_name@), None),
    {
        make_request(Method::Get, self.basket_url_text(basket_name), None)
    }

    /// The request that replaces the content of basket `basket_name` with
    /// `data`: `PUT` on the basket's URL, with `data` as its body.
    pub fn update_basket_request(&self, basket_name: &str, data: Json) -> (r: Result<
        Request,
        PantryError,
    >)
        ensures
            describes(
                r,
                Method::Put,
                basket_url(self@.base_url, self@.pantry_id, basket_name@),
                Some(data),
            ),
    {
        make_request(Method::Put, self.basket_url_text(basket_name), Some(data))
    }

    /// The request that deletes basket `basket_name`: `DELETE` on the basket's URL.
    pub fn delete_basket_request(&self, basket_name: &str) -> (r: Result<Request, PantryError>)
        ensures
            describes(
                r,
                Method::Delete,
                basket_url(self@.base_url, self@.pantry_id, basket_name@),
                None,
            ),
    {
        make_request(Method::Delete, self.basket_url_text(basket_name), None)
    }

    /// The identifier of the pantry.
    pub fn get_pantry_id(&self) -> (r: &str)
        ensures
            r@ == self@.pantry_id,
    {
        self.pantry_id.as_str()
    }
}

/// A client for `pantry_id` on the public service at [`BASE_URL`].
pub fn new_client(pantry_id: &str) -> (r: PantryClient)
    ensures
        r@.base_url == BASE_URL@,
        r@.pantry_id == pantry_id@,
{
    PantryClient::with_base_url(BASE_URL, pantry_id)
}

} // verus!

verus! {

/// Content written to a basket reads back unchanged: the request that
/// replaces a basket's content carries `data` as its body, the request that
/// reads the basket addresses the same URL, and a successful reply that holds
/// the stored body reads as `data`.
pub proof fn written_content_reads_back(
    client: ClientView,
    basket_name: Seq<char>,
    data: Json,
    r: Result<Request, PantryError>,
    g: Result<Request, PantryError>,
    status: u16,
    text: String,
)
    requires
        describes(r, Method::Put, basket_url(client.base_url, client.pantry_id, basket_name), Some(data)),
        describes(g, Method::Get, basket_url(client.base_url, client.pantry_id, basket_name), None),
        r is Ok,
        is_success(status),
    ensures
        g is Ok,
        g->Ok_0.url_text@ == r->Ok_0.url_text@,
        r->Ok_0.body == Some(data),
        json_outcome(status, text, Ok(r->Ok_0.body->Some_0)) == Ok::<Json, PantryError>(data),
{
}

} // verus!
