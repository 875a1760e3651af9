//! The injection script builder: once the effective port is known, the
//! client-side reload script is rendered exactly once from the host and the
//! port, and every HTML response thereafter shares that one text.

use vstd::prelude::*;
use vstd::string::*;

verus! {

/// The decimal digit character for `d`.
pub open spec fn dec_digit(d: nat) -> char {
    if d == 0 {
        '0'
    } else if d == 1 {
        '1'
    } else if d == 2 {
        '2'
    } else if d == 3 {
        '3'
    } else if d == 4 {
        '4'
    } else if d == 5 {
        '5'
    } else if d == 6 {
        '6'
    } else if d == 7 {
        '7'
    } else if d == 8 {
        '8'
    } else {
        '9'
    }
}

/// The decimal rendering of `n`, without leading zeros (a single zero for 0).
pub open spec fn dec_str(n: nat) -> Seq<char>
    decreases n,
{
    if n < 10 {
        seq![dec_digit(n)]
    } else {
        dec_str(n / 10).push(dec_digit(n % 10))
    }
}

/// The websocket endpoint a browser connects back to.
pub open spec fn ws_url_text(host: Seq<char>, port: u16) -> Seq<char> {
    "ws://"@ + host + ":"@ + dec_str(port as nat) + "/live-server-ws"@
}

/// The full reload script: open the websocket, log connect and disconnect
/// to the browser console, and reload the page on any incoming message.
pub open spec fn reload_script_text(host: Seq<char>, port: u16) -> Seq<char> {
    "\nconst ws = new WebSocket(\""@ + ws_url_text(host, port)
        + "\");\nws.onopen = () => console.log(\"[Live Server] Connection Established\");\nws.onmessage = () => location.reload();\nws.onclose = () => console.log(\"[Live Server] Connection Closed\");\n"@
}

/// The decimal digit character for `d`, as a one-character string.
fn digit_literal(d: u16) -> (r: &'static str)
    requires
        d < 10,
    ensures
        r@ == seq![dec_digit(d as nat)],
{
    proof {
        reveal_strlit("0");
        reveal_strlit("1");
        reveal_strlit("2");
        reveal_strlit("3");
        reveal_strlit("4");
        reveal_strlit("5");
        reveal_strlit("6");
        reveal_strlit("7");
        reveal_strlit("8");
        reveal_strlit("9");
    }
    if d == 0 {
        "0"
    } else if d == 1 {
        "1"
    } else if d == 2 {
        "2"
    } else if d == 3 {
        "3"
    } else if d == 4 {
        "4"
    } else if d == 5 {
        "5"
    } else if d == 6 {
        "6"
    } else if d == 7 {
        "7"
    } else if d == 8 {
        "8"
    } else {
        "9"
    }
}

/// Render `n` in decimal.
pub fn u16_to_decimal(n: u16) -> (r: String)
    ensures
        r@ == dec_str(n as nat),
    decreases n,
{
    if n < 10 {
        String::from_str(digit_literal(n))
    } else {
        let mut s = u16_to_decimal(n / 10);
        s.append(digit_literal(n % 10));
        proof {
            assert(s@ =~= dec_str((n / 10) as nat).push(dec_digit((n % 10) as nat)));
        }
        s
    }
}

/// Build the reload script for the effective host and port. Called once,
/// after the listener is acquired; the result is immutable thereafter.
pub fn build_reload_script(host: &str, port: u16) -> (r: String)
    ensures
        r@ == reload_script_text(host@, port),
{
    let mut s = String::from_str("\nconst ws = new WebSocket(\"");
    s.append("ws://");
    s.append(host);
    s.append(":");
    let port_text = u16_to_decimal(port);
    s.append(port_text.as_str());
    s.append("/live-server-ws");
    s.append(
        "\");\nws.onopen = () => console.log(\"[Live Server] Connection Established\");\nws.onmessage = () => location.reload();\nws.onclose = () => console.log(\"[Live Server] Connection Closed\");\n",
    );
    proof {
        assert(s@ =~= reload_script_text(host@, port));
    }
    s
}

} // verus!
