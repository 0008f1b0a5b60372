//! The fixed answers of the simplest services.
use vstd::prelude::*;

verus! {

/// The hello-world answer.
pub fn index() -> (r: &'static str)
    ensures
        r@ == "Hello world!"@,
{
    "Hello world!"
}

/// The answer of the second route of the container sample.
pub fn again() -> (r: &'static str)
    ensures
        r@ == "Hello world again!"@,
{
    "Hello world again!"
}

/// The answer of the HTTPS sample.
pub fn https_index() -> (r: &'static str)
    ensures
        r@ == "Hello HTTPS World!"@,
{
    "Hello HTTPS World!"
}

/// The page of the TLS samples.
pub fn tls_homepage() -> (r: &'static str)
    ensures
        r@ == "<!DOCTYPE html><html><body><p>Welcome to your TLS-secured homepage!</p></body></html>"@,
{
    "<!DOCTYPE html><html><body><p>Welcome to your TLS-secured homepage!</p></body></html>"
}

/// The answer of the error sample when no error was drawn.
pub fn nothing_happened() -> (r: &'static str)
    ensures
        r@ == "Nothing interesting happened.  Try again."@,
{
    "Nothing interesting happened.  Try again."
}

/// The status the image proxy answers with: the image's 200 when the image
/// server succeeded (a status in `200..300`), 500 otherwise.
pub fn image_status(upstream: u16) -> (r: u16)
    ensures
        200 <= upstream < 300 ==> r == 200,
        !(200 <= upstream < 300) ==> r == 500,
{
    if 200 <= upstream && upstream < 300 {
        200
    } else {
        500
    }
}

/// The largest image, in bytes, the image proxy reads: 20 MB.
pub const IMAGE_LIMIT: usize = 20_000_000;

/// What the file processor does with a packet of the given size: stop at the
/// empty packet that marks the end of the file, report any other.
#[derive(Debug, Clone, Copy, PartialEq, Eq, Structural)]
pub enum PacketAction {
    Stop,
    Report(usize),
}

/// Handles one packet of the file reader.
pub fn handle_packet(size: usize) -> (r: PacketAction)
    ensures
        size == 0 ==> r == PacketAction::Stop,
        size != 0 ==> r == PacketAction::Report(size),
{
    if size == 0 {
        PacketAction::Stop
    } else {
        PacketAction::Report(size)
    }
}

/// The size of the buffer the file reader reads into.
pub const READ_BUFFER: usize = 16;

} // verus!
