//! The four operations of the device's management interface: which request
//! each one is, and what its reply means.
//!
//! Nothing here touches the network. A caller sends a [`Request`] as it
//! stands and hands back the [`Response`] it got.

use crate::config::Config;
use crate::error::DeviceError;
use crate::json::{member, parse, parsed_text_members, text_member, text_view};
use vstd::prelude::*;
use vstd::string::*;

verus! {

/// The HTTP method of a request.
#[derive(Clone, Copy, Debug, PartialEq, Eq, Structural)]
pub enum Method {
    Get,
    Post,
}

/// The path of the version query, below the base URL.
pub open spec fn version_path() -> Seq<char> {
    "/api/device/version"@
}

/// The path of the firmware upload, below the base URL.
pub open spec fn upload_path() -> Seq<char> {
    "/api/device/upload"@
}

/// The path that starts the upgrade, below the base URL.
pub open spec fn upgrade_path() -> Seq<char> {
    "/api/device/upgrade"@
}

/// The path of the progress query, below the base URL.
pub open spec fn status_path() -> Seq<char> {
    "/api/device/upgrade/status"@
}

/// The version reported where the device's reply names none.
pub open spec fn unknown_version() -> Seq<char> {
    "unknown"@
}

/// The one progress report that means the upgrade is over.
pub open spec fn completed_status() -> Seq<char> {
    "completed"@
}

/// A request, as mathematics.
pub struct RequestView {
    pub method: Method,
    pub url: Seq<char>,
    pub token: Seq<char>,
    pub body: Option<Seq<u8>>,
}

/// One request to the device: the method, the full URL, the credential to
/// send as bearer token, and the raw body where there is one.
#[derive(Debug, PartialEq, Eq)]
pub struct Request {
    pub method: Method,
    pub url: String,
    pub token: String,
    pub body: Option<Vec<u8>>,
}

impl View for Request {
    type V = RequestView;

    open spec fn view(&self) -> RequestView {
        RequestView {
            method: self.method,
            url: self.url@,
            token: self.token@,
            body: match self.body {
                Some(bytes) => Some(bytes@),
                None => None,
            },
        }
    }
}

/// What came back for a request: the HTTP status and the raw body.
#[derive(Debug, PartialEq, Eq)]
pub struct Response {
    pub status: u16,
    pub body: Vec<u8>,
}

impl Clone for Request {
    /// The same request once more.
    fn clone(&self) -> (copy: Request)
        ensures
            copy@ == self@,
    {
        let body = match &self.body {
            Some(bytes) => {
                let copied = bytes.clone();
                assert(copied@ =~= bytes@);
                Some(copied)
            },
            None => None,
        };
        Request { method: self.method, url: self.url.clone(), token: self.token.clone(), body }
    }
}

impl Clone for Response {
    /// The same response once more.
    fn clone(&self) -> (copy: Response)
        ensures
            copy.status == self.status,
            copy.body@ == self.body@,
    {
        let body = self.body.clone();
        assert(body@ =~= self.body@);
        Response { status: self.status, body }
    }
}

/// The pair that a [`DeviceClient`] is bound to.
pub struct BindingView {
    pub base_url: Seq<char>,
    pub token: Seq<char>,
}

impl BindingView {
    /// The request that `method` on `path` is under this binding.
    pub open spec fn request(
        self,
        method: Method,
        path: Seq<char>,
        body: Option<Seq<u8>>,
    ) -> RequestView {
        RequestView { method, url: self.base_url + path, token: self.token, body }
    }

    /// The request of the version query.
    pub open spec fn version_request(self) -> RequestView {
        self.request(Method::Get, version_path(), None)
    }

    /// The request that uploads `image`.
    pub open spec fn upload_request(self, image: Seq<u8>) -> RequestView {
        self.request(Method::Post, upload_path(), Some(image))
    }

    /// The request that starts the upgrade.
    pub open spec fn trigger_request(self) -> RequestView {
        self.request(Method::Post, upgrade_path(), None)
    }

    /// The request of the progress query.
    pub open spec fn status_request(self) -> RequestView {
        self.request(Method::Get, status_path(), None)
    }
}

/// The binding that a client takes from a configuration.
pub open spec fn binding_of(config: crate::config::ConfigView) -> BindingView {
    BindingView { base_url: config.base_url, token: config.token }
}

/// The device as seen from one configuration snapshot: the base URL and the
/// token, taken once. A later change of the configuration does not reach a
/// client that exists already.
#[derive(Debug, PartialEq, Eq)]
pub struct DeviceClient {
    base_url: String,
    token: String,
}

impl View for DeviceClient {
    type V = BindingView;

    closed spec fn view(&self) -> BindingView {
        BindingView { base_url: self.base_url@, token: self.token@ }
    }
}

impl Clone for DeviceClient {
    /// A client with the same binding.
    fn clone(&self) -> (copy: DeviceClient)
        ensures
            copy@ == self@,
    {
        DeviceClient { base_url: self.base_url.clone(), token: self.token.clone() }
    }
}

impl DeviceClient {
    /// Binds a client to the base URL and the token of `config`.
    pub fn bind(config: &Config) -> (client: DeviceClient)
        ensures
            client@ == binding_of(config@),
    {
        DeviceClient { base_url: config.base_url().to_owned(), token: config.token().to_owned() }
    }

    /// The base URL that this client was bound to.
    pub fn base_url(&self) -> (text: &str)
        ensures
            text@ == self@.base_url,
    {
        self.base_url.as_str()
    }

    /// The token that this client was bound to.
    pub fn token(&self) -> (text: &str)
        ensures
            text@ == self@.token,
    {
        self.token.as_str()
    }

    /// The request that all four operations share the shape of.
    fn request(&self, method: Method, path: &str, body: Option<Vec<u8>>) -> (request: Request)
        ensures
            request@ == self@.request(
                method,
                path@,
                match body {
                    Some(bytes) => Some(bytes@),
                    None => None,
                },
            ),
    {
        Request { method, url: self.base_url.clone().concat(path), token: self.token.clone(), body }
    }

    /// The request that asks the device for the version it runs.
    pub fn version_request(&self) -> (request: Request)
        ensures
            request@ == self@.version_request(),
    {
        self.request(Method::Get, "/api/device/version", None)
    }

    /// The request that uploads the firmware image `image`, whole, as the raw
    /// body.
    pub fn upload_request(&self, image: Vec<u8>) -> (request: Request)
        ensures
            request@ == self@.upload_request(image@),
    {
        self.request(Method::Post, "/api/device/upload", Some(image))
    }

    /// The request that makes the device start the upgrade.
    pub fn trigger_request(&self) -> (request: Request)
        ensures
            request@ == self@.trigger_request(),
    {
        self.request(Method::Post, "/api/device/upgrade", None)
    }

    /// The request that asks the device how far the upgrade is.
    pub fn status_request(&self) -> (request: Request)
        ensures
            request@ == self@.status_request(),
    {
        self.request(Method::Get, "/api/device/upgrade/status", None)
    }
}

/// The version that a reply names: the text of its `version` member, or
/// `"unknown"` where it has none.
pub open spec fn version_or_unknown(member: Option<Seq<char>>) -> Seq<char> {
    match member {
        Some(text) => text,
        None => unknown_version(),
    }
}

/// Whether a reply reports the upgrade as over: its `status` member is there
/// and is exactly `"completed"`.
pub open spec fn reports_completion(member: Option<Seq<char>>) -> bool {
    member == Some(completed_status())
}

/// The key of the member that names the version.
pub open spec fn version_key() -> Seq<char> {
    "version"@
}

/// The key of the member that reports the progress.
pub open spec fn status_key() -> Seq<char> {
    "status"@
}

/// What the body of a reply to the version query means: a decode error where
/// it is not JSON, and otherwise the version that the document names.
pub open spec fn version_in(body: Seq<u8>) -> Result<Seq<char>, DeviceError> {
    match parsed_text_members(body) {
        Some(texts) => Ok(version_or_unknown(member(texts, version_key()))),
        None => Err(DeviceError::Decode),
    }
}

/// What the body of a reply to the progress query means: a decode error where
/// it is not JSON, and otherwise whether the document reports completion.
pub open spec fn completion_in(body: Seq<u8>) -> Result<bool, DeviceError> {
    match parsed_text_members(body) {
        Some(texts) => Ok(reports_completion(member(texts, status_key()))),
        None => Err(DeviceError::Decode),
    }
}

/// The outcome of a version query, as mathematics.
pub open spec fn version_view(outcome: Result<String, DeviceError>) -> Result<
    Seq<char>,
    DeviceError,
> {
    match outcome {
        Ok(version) => Ok(version@),
        Err(e) => Err(e),
    }
}

/// What a version query ends in, given what the transport handed back.
pub open spec fn version_outcome(reply: Result<Response, DeviceError>) -> Result<Seq<char>, DeviceError> {
    match reply {
        Ok(response) => version_in(response.body@),
        Err(e) => Err(e),
    }
}

/// What a progress query ends in, given what the transport handed back.
pub open spec fn status_outcome(reply: Result<Response, DeviceError>) -> Result<bool, DeviceError> {
    match reply {
        Ok(response) => completion_in(response.body@),
        Err(e) => Err(e),
    }
}

/// What an upload, or the request that starts the upgrade, ends in: success
/// as soon as any response came back, whatever its status; the transport's
/// error otherwise.
pub open spec fn delivery_outcome(reply: Result<Response, DeviceError>) -> Result<(), DeviceError> {
    match reply {
        Ok(_) => Ok(()),
        Err(e) => Err(e),
    }
}

/// Names the version, given the `version` member of a reply if it had one.
pub fn version_from_member(member: Option<String>) -> (version: String)
    ensures
        version@ == version_or_unknown(text_view(member)),
{
    match member {
        Some(text) => text,
        None => "unknown".to_owned(),
    }
}

/// Tells whether the upgrade is over, given the `status` member of a reply if
/// it had one.
pub fn status_from_member(member: Option<String>) -> (completed: bool)
    ensures
        completed == reports_completion(text_view(member)),
{
    match member {
        Some(text) => text == "completed".to_owned(),
        None => false,
    }
}

/// Reads the version out of the body of a reply.
pub fn read_version(body: &[u8]) -> (outcome: Result<String, DeviceError>)
    ensures
        version_view(outcome) == version_in(body@),
{
    match parse(body) {
        Ok(document) => Ok(version_from_member(text_member(&document, "version"))),
        Err(_) => Err(DeviceError::Decode),
    }
}

/// Reads out of the body of a reply whether the upgrade is over.
pub fn read_status(body: &[u8]) -> (outcome: Result<bool, DeviceError>)
    ensures
        outcome == completion_in(body@),
{
    match parse(body) {
        Ok(document) => Ok(status_from_member(text_member(&document, "status"))),
        Err(_) => Err(DeviceError::Decode),
    }
}

/// Ends the operation that asks for the running version. The status of the
/// response is not looked at: the body decides.
pub fn get_current_version(reply: Result<Response, DeviceError>) -> (outcome: Result<
    String,
    DeviceError,
>)
    ensures
        version_view(outcome) == version_outcome(reply),
{
    match reply {
        Ok(response) => read_version(response.body.as_slice()),
        Err(e) => Err(e),
    }
}

/// Ends the operation that uploads the firmware image. The status of the
/// response is not looked at: a response of any status counts as success.
pub fn upload_os_file(reply: Result<Response, DeviceError>) -> (outcome: Result<(), DeviceError>)
    ensures
        outcome == delivery_outcome(reply),
{
    match reply {
        Ok(_) => Ok(()),
        Err(e) => Err(e),
    }
}

/// Ends the operation that starts the upgrade. The status of the response is
/// not looked at: a response of any status counts as success.
pub fn trigger_upgrade(reply: Result<Response, DeviceError>) -> (outcome: Result<(), DeviceError>)
    ensures
        outcome == delivery_outcome(reply),
{
    match reply {
        Ok(_) => Ok(()),
        Err(e) => Err(e),
    }
}

/// Ends the operation that asks whether the upgrade is over. The status of
/// the response is not looked at: the body decides.
pub fn check_upgrade_status(reply: Result<Response, DeviceError>) -> (outcome: Result<bool, DeviceError>)
    ensures
        outcome == status_outcome(reply),
{
    match reply {
        Ok(response) => read_status(response.body.as_slice()),
        Err(e) => Err(e),
    }
}

/// Whether `request` is one of the four that a client bound to `binding`
/// sends.
pub open spec fn sent_under(binding: BindingView, request: RequestView) -> bool {
    ||| request == binding.version_request()
    ||| request == binding.trigger_request()
    ||| request == binding.status_request()
    ||| exists|image: Seq<u8>| request == binding.upload_request(image)
}

/// All four operations are authenticated the same way and go to the same
/// device: each request carries the token of the binding, and its URL is the
/// base URL of the binding followed by the operation's path.
pub proof fn lemma_requests_share_the_binding(binding: BindingView, request: RequestView)
    requires
        sent_under(binding, request),
    ensures
        request.token == binding.token,
        request.url.len() >= binding.base_url.len(),
        request.url.subrange(0, binding.base_url.len() as int) == binding.base_url,
{
    assert((binding.base_url + version_path()).subrange(0, binding.base_url.len() as int)
        =~= binding.base_url);
    assert((binding.base_url + upload_path()).subrange(0, binding.base_url.len() as int)
        =~= binding.base_url);
    assert((binding.base_url + upgrade_path()).subrange(0, binding.base_url.len() as int)
        =~= binding.base_url);
    assert((binding.base_url + status_path()).subrange(0, binding.base_url.len() as int)
        =~= binding.base_url);
}

/// A version query is repeatable: two queries that the device answers with
/// the same body end the same way, whatever else differs between the two
/// responses. The first query leaves nothing behind that the second could
/// see.
pub proof fn lemma_version_query_is_repeatable(
    first_reply: Response,
    second_reply: Response,
    first: Result<String, DeviceError>,
    second: Result<String, DeviceError>,
)
    requires
        first_reply.body@ == second_reply.body@,
        version_view(first) == version_outcome(Ok(first_reply)),
        version_view(second) == version_outcome(Ok(second_reply)),
    ensures
        version_view(first) == version_view(second),
{
}

/// A progress query is repeatable in the same way.
pub proof fn lemma_status_query_is_repeatable(first_reply: Response, second_reply: Response)
    requires
        first_reply.body@ == second_reply.body@,
    ensures
        status_outcome(Ok(first_reply)) == status_outcome(Ok(second_reply)),
{
}

/// A progress query ends in `Ok(true)` if and only if a response came back,
/// its body is JSON, and the document has a text member `status` that is
/// exactly `"completed"`. Any other body that is JSON gives `Ok(false)`,
/// never an error.
pub proof fn lemma_completion_needs_the_exact_word(reply: Result<Response, DeviceError>)
    ensures
        status_outcome(reply) == Ok::<bool, DeviceError>(true) <==> (reply matches Ok(response)
            && parsed_text_members(response.body@) matches Some(texts) && texts.contains_key(
            status_key(),
        ) && texts[status_key()] == completed_status()),
        reply matches Ok(response) && parsed_text_members(response.body@) is Some ==> status_outcome(
            reply,
        ) is Ok,
{
}

/// A version query ends in the text of the member `version` where the
/// document has one, and in `"unknown"` where the body is JSON without one;
/// only a body that is not JSON is an error.
pub proof fn lemma_version_is_member_or_unknown(reply: Result<Response, DeviceError>)
    ensures
        reply matches Ok(response) ==> (match parsed_text_members(response.body@) {
            Some(texts) => version_outcome(reply) == Ok::<Seq<char>, DeviceError>(
                if texts.contains_key(version_key()) {
                    texts[version_key()]
                } else {
                    unknown_version()
                },
            ),
            None => version_outcome(reply) == Err::<Seq<char>, DeviceError>(DeviceError::Decode),
        }),
        reply matches Err(e) ==> version_outcome(reply) == Err::<Seq<char>, DeviceError>(e),
{
}

} // verus!
