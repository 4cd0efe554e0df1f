//! The serial handshake with the external verifier.
//!
//! A test stage that wants its on-screen output confirmed sends the request
//! line `SCREENSHOT: <name>\n` over the second enumerated serial-capable
//! device and then blocks for a reply of exactly three bytes, which must be
//! the literal `OK\n`. Any other reply is fatal. The first serial device
//! carries the log stream and must never be taken over exclusively, which is
//! why the second one is required; fewer than two devices is fatal as well.
//!
//! The serial I/O itself happens outside this crate; the functions here fix
//! the device choice, the request bytes and the reply check.

use vstd::prelude::*;

verus! {

/// Timeout configured on the serial device before the handshake, in
/// microseconds. Large, to tolerate slow external verifiers.
pub const SERIAL_TIMEOUT: u64 = 10_000_000;

/// Fixed delay of the interactive fallback, in microseconds: with no external
/// verifier configured, the run pauses this long for visual inspection
/// instead of performing the handshake.
pub const OBSERVATION_DELAY: u64 = 3_000_000;

/// Why a handshake failed. Every variant aborts the whole run.
#[derive(Clone, Copy, Debug, PartialEq, Eq, Structural)]
pub enum HandshakeError {
    /// Fewer than two serial-capable devices were enumerated.
    MissingSecondDevice,
    /// A request write completed only partially.
    ShortWrite,
    /// The three reply bytes were not exactly `OK\n`.
    ReplyMismatch,
}

/// Picks the handshake device from the enumerated serial-capable devices:
/// always the second one, never a fallback to the first.
///
/// Returns the second enumerated device exactly when two or more exist, and
/// fails otherwise, so the log transport on the first device is never taken
/// over.
pub fn select_serial_device(handles: &Vec<u64>) -> (r: Result<u64, HandshakeError>)
    ensures
        handles@.len() >= 2 ==> r == Ok::<u64, HandshakeError>(handles@[1]),
        handles@.len() < 2 ==> r == Err::<u64, HandshakeError>(HandshakeError::MissingSecondDevice),
{
    if handles.len() >= 2 {
        Ok(handles[1])
    } else {
        Err(HandshakeError::MissingSecondDevice)
    }
}

/// The literal request prefix `SCREENSHOT: `.
pub open spec fn request_prefix() -> Seq<u8> {
    seq![83u8, 67u8, 82u8, 69u8, 69u8, 78u8, 83u8, 72u8, 79u8, 84u8, 58u8, 32u8]
}

/// The full request line for a verification-point name: the prefix, the name,
/// and a single terminating newline.
pub open spec fn request_bytes(name: Seq<u8>) -> Seq<u8> {
    request_prefix() + name + seq![10u8]
}

/// The three chunks of the request line, in the order they are written:
/// prefix, name, newline. Their concatenation is the full request line; each
/// write must complete without truncation.
pub fn request_chunks(name: &Vec<u8>) -> (chunks: (Vec<u8>, Vec<u8>, Vec<u8>))
    ensures
        chunks.0@ == request_prefix(),
        chunks.1@ == name@,
        chunks.2@ == seq![10u8],
        chunks.0@ + chunks.1@ + chunks.2@ == request_bytes(name@),
{
    let mut prefix: Vec<u8> = Vec::new();
    prefix.push(83);
    prefix.push(67);
    prefix.push(82);
    prefix.push(69);
    prefix.push(69);
    prefix.push(78);
    prefix.push(83);
    prefix.push(72);
    prefix.push(79);
    prefix.push(84);
    prefix.push(58);
    prefix.push(32);
    let mut middle: Vec<u8> = Vec::new();
    let mut i: usize = 0;
    while i < name.len()
        invariant
            i <= name.len(),
            middle@ == name@.take(i as int),
        decreases name.len() - i,
    {
        middle.push(name[i]);
        i = i + 1;
    }
    let mut terminator: Vec<u8> = Vec::new();
    terminator.push(10);
    proof {
        assert(prefix@ =~= request_prefix());
        assert(middle@ =~= name@);
        assert(terminator@ =~= seq![10u8]);
    }
    (prefix, middle, terminator)
}

/// The only acceptable reply: the three bytes `OK\n`.
pub open spec fn expected_reply() -> Seq<u8> {
    seq![79u8, 75u8, 10u8]
}

/// Checks the three reply bytes against the expected literal.
///
/// The handshake succeeds exactly when the reply is byte-for-byte `OK\n`; a
/// reply that differs anywhere, including in case or in the terminator, must
/// abort the run.
pub fn check_reply(reply: &[u8; 3]) -> (ok: bool)
    ensures
        ok == (reply@ == expected_reply()),
{
    let ok = reply[0] == 79 && reply[1] == 75 && reply[2] == 10;
    proof {
        if ok {
            assert(reply@ =~= expected_reply());
        } else {
            assert(reply@ != expected_reply());
        }
    }
    ok
}

/// Judges a completed exchange: the reply bytes decide between success and a
/// fatal mismatch.
pub fn reply_outcome(reply: &[u8; 3]) -> (r: Result<(), HandshakeError>)
    ensures
        reply@ == expected_reply() ==> r == Ok::<(), HandshakeError>(()),
        reply@ != expected_reply() ==> r == Err::<(), HandshakeError>(HandshakeError::ReplyMismatch),
{
    if check_reply(reply) {
        Ok(())
    } else {
        Err(HandshakeError::ReplyMismatch)
    }
}

} // verus!
