//! JSON endpoints: greeting a posted name, answering malformed JSON, errors
//! that are answered as JSON, and validating posted data.
use vstd::prelude::*;

verus! {

/// The posted greeting request.
#[derive(Debug)]
pub struct Info {
    pub name: String,
}

/// The greeting of a posted name.
pub fn greet(info: &Info) -> (r: String)
    ensures
        r@ == "Hello "@ + info.name@ + "!"@,
{
    let mut s = "Hello ".to_owned();
    s.append(info.name.as_str());
    s.append("!");
    s
}

/// How a JSON body failed to be read.
#[derive(Debug, Clone, Copy, PartialEq, Eq, Structural)]
pub enum JsonPayloadKind {
    /// The request did not declare a JSON content type.
    ContentType,
    /// The body was JSON of the wrong shape or with wrong values.
    DeserializeData,
    /// Anything else: bad syntax, a cut-off body, a body over the limit.
    Other,
}

/// The status a malformed JSON body is answered with: 415 (Unsupported Media
/// Type) for a wrong content type, 422 (Unprocessable Entity) for JSON with
/// the wrong data, 400 (Bad Request) otherwise.
pub fn json_error_status(kind: JsonPayloadKind) -> (r: u16)
    ensures
        kind == JsonPayloadKind::ContentType ==> r == 415,
        kind == JsonPayloadKind::DeserializeData ==> r == 422,
        kind == JsonPayloadKind::Other ==> r == 400,
{
    match kind {
        JsonPayloadKind::ContentType => 415,
        JsonPayloadKind::DeserializeData => 422,
        JsonPayloadKind::Other => 400,
    }
}

/// The first version of the handler answers every malformed body with 422.
pub fn json_decode_error_status() -> (r: u16)
    ensures
        r == 422,
{
    422
}

/// An error that is answered as a JSON object `{"error": msg}` with the
/// given status.
#[derive(Debug)]
pub struct JsonError {
    pub msg: String,
    pub status: u16,
}

/// Statuses an HTTP answer can carry: three digits.
pub open spec fn is_valid_status(status: u16) -> bool {
    100 <= status <= 999
}

impl JsonError {
    /// The status of the answer; building it from a status outside
    /// `100..=999` would panic, which `requires` rules out.
    pub fn status_code(&self) -> (r: u16)
        requires
            is_valid_status(self.status),
        ensures
            r == self.status,
    {
        self.status
    }

    /// The message put under `error` in the answer.
    pub fn message(&self) -> (r: &str)
        ensures
            r@ == self.msg@,
    {
        self.msg.as_str()
    }
}

/// The example handler always fails with a 400 error.
pub fn index() -> (r: Result<(), JsonError>)
    ensures
        r matches Err(e) && e.msg@ == "an example error message"@ && e.status == 400,
{
    Err(JsonError { msg: "an example error message".to_owned(), status: 400 })
}

/// Posted data, each field with a length limit.
#[derive(Debug)]
pub struct SomeData {
    pub id: String,
    pub name: String,
}

/// Which fields of posted data broke their limits.
#[derive(Debug)]
pub struct ValidationErrors {
    pub id: bool,
    pub name: bool,
}

/// Whether a text holds between `min` and `max` characters.
pub open spec fn length_within(s: Seq<char>, min: int, max: int) -> bool {
    min <= s.len() <= max
}

impl SomeData {
    /// Checks the limits: `id` must hold 1 to 1000000 characters, `name` 1
    /// to 100. On failure every field that broke its limit is named.
    pub fn validate(&self) -> (r: Result<(), ValidationErrors>)
        ensures
            r is Ok <==> length_within(self.id@, 1, 1000000) && length_within(self.name@, 1, 100),
            r matches Err(e) ==> e.id == !length_within(self.id@, 1, 1000000) && e.name == !length_within(self.name@, 1, 100),
    {
        let id_len = self.id.as_str().unicode_len();
        let name_len = self.name.as_str().unicode_len();
        let id_bad = id_len < 1 || id_len > 1000000;
        let name_bad = name_len < 1 || name_len > 100;
        if id_bad || name_bad {
            Err(ValidationErrors { id: id_bad, name: name_bad })
        } else {
            Ok(())
        }
    }
}

} // verus!
