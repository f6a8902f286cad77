//! Construction of the alert notification payload: a JSON object with a
//! single human-readable text field naming the failure count and the target
//! URL.

use vstd::prelude::*;
use vstd::string::StringExecFns;

verus! {

/// Transient description of a failure event that crossed the threshold:
/// how many consecutive failures were seen, and which target was probed.
pub struct AlertMessage {
    pub failures: u32,
    pub target_url: String,
}

/// The decimal digit character for `d` (`d < 10`).
pub open spec fn dec_digit(d: nat) -> char {
    if d == 0 {
        '0'
    } else if d == 1 {
        '1'
    } else if d == 2 {
        '2'
    } else if d == 3 {
        '3'
    } else if d == 4 {
        '4'
    } else if d == 5 {
        '5'
    } else if d == 6 {
        '6'
    } else if d == 7 {
        '7'
    } else if d == 8 {
        '8'
    } else {
        '9'
    }
}

/// The decimal digit characters of `n`, most significant first, with no
/// leading zero except for `n == 0` itself.
pub open spec fn dec_digits(n: nat) -> Seq<char>
    decreases n,
{
    if n < 10 {
        seq![dec_digit(n)]
    } else {
        dec_digits(n / 10) + seq![dec_digit(n % 10)]
    }
}

/// The text of an alert for `failures` consecutive failures against `target`.
pub open spec fn alert_text(failures: nat, target: Seq<char>) -> Seq<char> {
    "Health check failed "@ + dec_digits(failures) + " times in a row for URL "@ + target
}

/// What `serde_json` returns for a string: the JSON string literal encoding
/// its characters, quotes and escapes included.
pub uninterp spec fn json_encoded(s: Seq<char>) -> Seq<char>;

/// The full notification body: a JSON object whose single `content` field
/// holds the alert text.
pub open spec fn alert_body(failures: nat, target: Seq<char>) -> Seq<char> {
    "{\"content\":"@ + json_encoded(alert_text(failures, target)) + "}"@
}

/// Relies on serde_json::to_string::<str>: the result is the JSON string
/// literal encoding the characters of `s`. The serializer writes into a
/// `Vec<u8>`, which cannot fail, so a string always serializes.
#[verifier::external_body]
fn json_quote(s: &str) -> (r: Option<String>)
    ensures
        r is Some,
        r matches Some(q) ==> q@ == json_encoded(s@),
{
    serde_json::to_string(s).ok()
}

/// The one-character string for the decimal digit `d`.
fn digit_str(d: u32) -> (r: &'static str)
    requires
        d < 10,
    ensures
        r@ == seq![dec_digit(d as nat)],
{
    proof {
        reveal_strlit("0");
        reveal_strlit("1");
        reveal_strlit("2");
        reveal_strlit("3");
        reveal_strlit("4");
        reveal_strlit("5");
        reveal_strlit("6");
        reveal_strlit("7");
        reveal_strlit("8");
        reveal_strlit("9");
        assert(("0")@ =~= seq![dec_digit(0)]);
        assert(("1")@ =~= seq![dec_digit(1)]);
        assert(("2")@ =~= seq![dec_digit(2)]);
        assert(("3")@ =~= seq![dec_digit(3)]);
        assert(("4")@ =~= seq![dec_digit(4)]);
        assert(("5")@ =~= seq![dec_digit(5)]);
        assert(("6")@ =~= seq![dec_digit(6)]);
        assert(("7")@ =~= seq![dec_digit(7)]);
        assert(("8")@ =~= seq![dec_digit(8)]);
        assert(("9")@ =~= seq![dec_digit(9)]);
    }
    if d == 0 {
        "0"
    } else if d == 1 {
        "1"
    } else if d == 2 {
        "2"
    } else if d == 3 {
        "3"
    } else if d == 4 {
        "4"
    } else if d == 5 {
        "5"
    } else if d == 6 {
        "6"
    } else if d == 7 {
        "7"
    } else if d == 8 {
        "8"
    } else {
        "9"
    }
}

/// Appends the decimal rendering of `n` to `out`.
fn push_decimal(out: &mut String, n: u32)
    ensures
        final(out)@ == old(out)@ + dec_digits(n as nat),
    decreases n,
{
    if n < 10 {
        out.append(digit_str(n));
    } else {
        push_decimal(out, n / 10);
        out.append(digit_str(n % 10));
        proof {
            assert(final(out)@ =~= old(out)@ + dec_digits(n as nat));
        }
    }
}

/// Renders the alert text for `failures` consecutive failures against
/// `target`.
pub fn render_alert_text(failures: u32, target: &str) -> (r: String)
    ensures
        r@ == alert_text(failures as nat, target@),
{
    let mut out = String::from_str("Health check failed ");
    push_decimal(&mut out, failures);
    out.append(" times in a row for URL ");
    out.append(target);
    out
}

impl AlertMessage {
    /// Serializes this alert as the notification body to POST to the
    /// webhook.
    pub fn payload(&self) -> (r: String)
        ensures
            r@ == alert_body(self.failures as nat, self.target_url@),
    {
        let text = render_alert_text(self.failures, self.target_url.as_str());
        let quoted = json_quote(text.as_str()).unwrap();
        let mut out = String::from_str("{\"content\":");
        out.append(quoted.as_str());
        out.append("}");
        out
    }
}

} // verus!
