//! Still screenshots through the system `screencapture` utility: the
//! command lines, the checks on what it produced, and the Base64 payload.

use vstd::prelude::*;
use crate::text::{join_message, message, utf8_lossy, lossy_utf8, utf8_str};
use vstd::utf8::{encode_utf8, is_ascii_chars, is_ascii_chars_encode_utf8, encode_utf8_valid_utf8, encode_utf8_decode_utf8};
use base64::Engine;

verus! {

/// The character of the standard Base64 alphabet for a six-bit value.
pub open spec fn base64_symbol(v: int) -> char {
    if v < 26 {
        (65 + v) as char
    } else if v < 52 {
        (97 + v - 26) as char
    } else if v < 62 {
        (48 + v - 52) as char
    } else if v == 62 {
        '+'
    } else {
        '/'
    }
}

/// Standard Base64 (RFC 4648 alphabet, `=` padding) of `b`.
pub open spec fn base64_standard(b: Seq<u8>) -> Seq<char>
    decreases b.len(),
{
    if b.len() == 0 {
        Seq::<char>::empty()
    } else {
        let x: int = b[0] as int;
        let y: int = if b.len() > 1 { b[1] as int } else { 0 };
        let z: int = if b.len() > 2 { b[2] as int } else { 0 };
        let first = base64_symbol(x / 4);
        let second = base64_symbol((x % 4) * 16 + y / 16);
        let third = base64_symbol((y % 16) * 4 + z / 64);
        let fourth = base64_symbol(z % 64);
        if b.len() == 1 {
            seq![first, second, '=', '=']
        } else if b.len() == 2 {
            seq![first, second, third, '=']
        } else {
            seq![first, second, third, fourth] + base64_standard(b.skip(3))
        }
    }
}

/// Standard Base64 output has four characters for every started group of
/// three bytes.
pub proof fn lemma_base64_length(b: Seq<u8>)
    ensures
        base64_standard(b).len() == (b.len() + 2) / 3 * 4,
    decreases b.len(),
{
    if b.len() > 2 {
        lemma_base64_length(b.skip(3));
    }
}

/// Calls `base64::engine::general_purpose::STANDARD.encode`. Trusted: the
/// standard engine encodes with the RFC 4648 alphabet and `=` padding; it
/// panics only when the encoded length overflows `usize`, which `requires`
/// rules out.
#[verifier::external_body]
fn base64_encode(bytes: &[u8]) -> (encoded: String)
    requires
        bytes@.len() / 3 * 4 + 4 <= usize::MAX,
    ensures
        encoded@ == base64_standard(bytes@),
{
    base64::engine::general_purpose::STANDARD.encode(bytes)
}

/// The decimal digits of `n`.
pub open spec fn decimal_digits(n: nat) -> Seq<char>
    decreases n,
{
    if n < 10 {
        seq![(48 + n) as char]
    } else {
        decimal_digits(n / 10).push((48 + n % 10) as char)
    }
}

/// The decimal digits of `n` are ASCII.
proof fn lemma_decimal_digits_ascii(n: nat)
    ensures
        is_ascii_chars(decimal_digits(n)),
        forall|i: int| 0 <= i < decimal_digits(n).len() ==> 48 <= #[trigger] (decimal_digits(n)[i] as u32) <= 57,
    decreases n,
{
    if n >= 10 {
        lemma_decimal_digits_ascii(n / 10);
    }
}

/// The number a text of decimal digits reads as, most significant first.
pub open spec fn decimal_value(s: Seq<char>) -> int
    decreases s.len(),
{
    if s.len() == 0 {
        0
    } else {
        decimal_value(s.drop_last()) * 10 + (s.last() as int - 48)
    }
}

/// The decimal text of `n` is a non-empty string of the digits `0`..`9`
/// that reads back as `n`, with no leading zero unless `n` is zero.
pub proof fn lemma_decimal_digits_read_back(n: nat)
    ensures
        decimal_digits(n).len() > 0,
        forall|i: int| 0 <= i < decimal_digits(n).len() ==> '0' <= #[trigger] decimal_digits(n)[i] <= '9',
        decimal_value(decimal_digits(n)) == n,
        n > 0 ==> decimal_digits(n)[0] != '0',
    decreases n,
{
    let d = decimal_digits(n);
    if n < 10 {
        assert(d.drop_last() =~= Seq::<char>::empty());
        assert(decimal_value(d.drop_last()) == 0);
        assert(d[0] as int == 48 + n);
        assert(decimal_value(d) == decimal_value(d.drop_last()) * 10 + (d.last() as int - 48));
    } else {
        lemma_decimal_digits_read_back(n / 10);
        let p = decimal_digits(n / 10);
        assert(d == p.push((48 + n % 10) as char));
        assert(d.drop_last() =~= p);
        assert(d.last() as int == 48 + n % 10);
        assert((n / 10) * 10 + n % 10 == n);
        assert(decimal_value(d) == decimal_value(p) * 10 + (d.last() as int - 48));
        assert(d[0] == p[0]);
        assert forall|i: int| 0 <= i < d.len() implies '0' <= #[trigger] d[i] <= '9' by {
            if i < p.len() {
                assert(d[i] == p[i]);
            }
        }
    }
}

/// Appends the ASCII bytes of the decimal digits of `n` to `out`.
fn push_decimal(n: u32, out: &mut Vec<u8>)
    ensures
        final(out)@ == old(out)@ + decimal_digits(n as nat).map_values(|c: char| c as u8),
    decreases n,
{
    if n >= 10 {
        push_decimal(n / 10, out);
    }
    let digit: u8 = (48 + n % 10) as u8;
    out.push(digit);
    proof {
        let d = decimal_digits(n as nat);
        if n >= 10 {
            let p = decimal_digits((n / 10) as nat);
            assert(d == p.push((48 + n % 10) as char));
            assert(d.map_values(|c: char| c as u8) =~= p.map_values(|c: char| c as u8).push(digit));
        } else {
            assert(d.map_values(|c: char| c as u8) =~= seq![digit]);
        }
    }
}

/// The decimal text of `n`: its digits, with no sign, padding or separators.
fn u32_decimal(n: u32) -> (text: String)
    ensures
        text@ == decimal_digits(n as nat),
        text@.len() > 0,
        decimal_value(text@) == n,
        forall|i: int| 0 <= i < text@.len() ==> '0' <= #[trigger] text@[i] <= '9',
        n > 0 ==> text@[0] != '0',
{
    proof {
        lemma_decimal_digits_read_back(n as nat);
    }
    let mut bytes: Vec<u8> = Vec::new();
    push_decimal(n, &mut bytes);
    let ghost chars = decimal_digits(n as nat);
    proof {
        lemma_decimal_digits_ascii(n as nat);
        is_ascii_chars_encode_utf8(chars);
        assert(bytes@ =~= encode_utf8(chars));
        encode_utf8_valid_utf8(chars);
        encode_utf8_decode_utf8(chars);
    }
    match utf8_str(bytes.as_slice()) {
        Ok(text) => text.to_owned(),
        Err(_) => {
            assert(false);
            String::new()
        },
    }
}

/// The name of the private directory that holds one capture: the process id
/// and a unique token keep concurrent captures apart.
pub fn capture_directory_name(pid: u32, unique: &str) -> (name: String)
    ensures
        name@ == "cua-driver-rs-capture-"@ + decimal_digits(pid as nat) + "-"@ + unique@,
{
    let digits = u32_decimal(pid);
    let name = join_message("cua-driver-rs-capture-", digits.as_str());
    let name = join_message(name.as_str(), "-");
    join_message(name.as_str(), unique)
}

/// The `screencapture` arguments that capture one window, silently and
/// without its shadow, into `path`.
pub fn window_capture_arguments(window_id: u32, path: String) -> (args: Vec<String>)
    ensures
        args@.len() == 5,
        args@[0]@ == "-l"@,
        args@[1]@ == decimal_digits(window_id as nat),
        args@[2]@ == "-x"@,
        args@[3]@ == "-o"@,
        args@[4]@ == path@,
{
    let mut args: Vec<String> = Vec::new();
    args.push(message("-l"));
    args.push(u32_decimal(window_id));
    args.push(message("-x"));
    args.push(message("-o"));
    args.push(path);
    args
}

/// The `screencapture` arguments that capture the whole display, silently,
/// into `path`.
pub fn display_capture_arguments(path: String) -> (args: Vec<String>)
    ensures
        args@.len() == 2,
        args@[0]@ == "-x"@,
        args@[1]@ == path@,
{
    let mut args: Vec<String> = Vec::new();
    args.push(message("-x"));
    args.push(path);
    args
}

/// The error reported when `screencapture` exits unsuccessfully: it names
/// the window (when one was captured) and carries the utility's own error
/// output.
pub open spec fn capture_failure_message(window_id: Option<u32>, stderr: Seq<u8>) -> Seq<char> {
    match window_id {
        Some(id) => "screencapture failed for window "@ + decimal_digits(id as nat) + ": "@ + lossy_utf8(stderr),
        None => "screencapture failed: "@ + lossy_utf8(stderr),
    }
}

/// Checks how `screencapture` exited.
pub fn check_capture_status(window_id: Option<u32>, success: bool, stderr: &[u8]) -> (res: Result<(), String>)
    ensures
        success ==> res is Ok,
        !success ==> (res matches Err(m) && m@ == capture_failure_message(window_id, stderr@)),
        (!success && window_id is None) ==> (res is Err && res->Err_0@ == "screencapture failed: "@ + lossy_utf8(stderr@)),
        (!success && window_id is Some) ==> (res is Err && res->Err_0@ == "screencapture failed for window "@
            + decimal_digits(window_id->Some_0 as nat) + ": "@ + lossy_utf8(stderr@)),
{
    if success {
        return Ok(());
    }
    let detail = utf8_lossy(stderr);
    match window_id {
        Some(id) => {
            let digits = u32_decimal(id);
            let text = join_message("screencapture failed for window ", digits.as_str());
            let text = join_message(text.as_str(), ": ");
            Err(join_message(text.as_str(), detail.as_str()))
        },
        None => Err(join_message("screencapture failed: ", detail.as_str())),
    }
}

/// Checks the file `screencapture` wrote: it must not be empty.
pub fn check_capture_bytes(bytes: Vec<u8>) -> (res: Result<Vec<u8>, String>)
    ensures
        bytes@.len() == 0 ==> (res matches Err(m) && m@ == "screencapture produced empty output"@),
        bytes@.len() != 0 ==> (res matches Ok(b) && b@ == bytes@),
{
    if bytes.len() == 0 {
        Err(message("screencapture produced empty output"))
    } else {
        Ok(bytes)
    }
}

/// A capture as handed to clients: the PNG bytes in standard Base64 and the
/// image's width and height.
pub fn encode_capture(png: &[u8], width: u32, height: u32) -> (capture: (String, u32, u32))
    requires
        png@.len() / 3 * 4 + 4 <= usize::MAX,
    ensures
        capture.0@ == base64_standard(png@),
        capture.1 == width,
        capture.2 == height,
{
    (base64_encode(png), width, height)
}

} // verus!
