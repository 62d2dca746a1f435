//! Per-request decisions of the relay: what to send, how to classify the
//! push service's answer, and which HTTP reply to give; plus the small
//! startup helpers around them.

use vstd::prelude::*;
use crate::format::{construct_gotify_payload, recognized, spec_message, spec_priority, spec_title};
use crate::model::{Config, DeliveryError, GotifyPayload, InboundReport};

verus! {

/// The relay's own HTTP reply: a status code and a plain-text body.
#[derive(Debug)]
pub struct HttpReply {
    pub status: u16,
    pub body: String,
}

/// What the handler does with an inbound report: reply at once without
/// contacting the push service, or send the given payload.
#[derive(Debug)]
pub enum HandlerStep {
    Reject(HttpReply),
    Send(GotifyPayload),
}

/// Decides the first step for an inbound report: a payload to send when
/// the report's result is recognized, and otherwise a server-error reply
/// with no outbound call.
pub fn handle_report(r: &InboundReport, c: &Config) -> (step: HandlerStep)
    ensures
        step is Send <==> recognized(r.parsed_result@),
        step matches HandlerStep::Send(p) ==> p.title@ == spec_title(*r, *c) && p.message@
            == spec_message(*r, *c) && p.priority as int == spec_priority(*c),
        step matches HandlerStep::Reject(rep) ==> rep.status == 500 && rep.body@
            == "Failed to construct Gotify payload"@,
{
    match construct_gotify_payload(r, c) {
        Ok(p) => HandlerStep::Send(p),
        Err(_) => HandlerStep::Reject(
            HttpReply {
                status: 500,
                body: String::from_str("Failed to construct Gotify payload"),
            },
        ),
    }
}

/// Classifies the push service's answer by its status code: delivered
/// exactly when the status is in the success class.
pub fn classify_status(code: u16) -> (res: Result<(), DeliveryError>)
    ensures
        res is Ok <==> 200 <= code < 300,
        res matches Err(e) ==> e == DeliveryError::HttpStatus(code),
{
    if 200 <= code && code < 300 {
        Ok(())
    } else {
        Err(DeliveryError::HttpStatus(code))
    }
}

/// Decides the relay's final reply from the delivery outcome: 200 with a
/// confirmation when the notification was delivered, and otherwise 500
/// with a fixed diagnostic body.
pub fn finish_report(outcome: &Result<(), DeliveryError>) -> (rep: HttpReply)
    ensures
        outcome is Ok ==> rep.status == 200 && rep.body@ == "Notification sent successfully"@,
        outcome is Err ==> rep.status == 500 && rep.body@
            == "Failed to send Gotify notification"@,
{
    match outcome {
        Ok(_) => HttpReply { status: 200, body: String::from_str("Notification sent successfully") },
        Err(_) => HttpReply {
            status: 500,
            body: String::from_str("Failed to send Gotify notification"),
        },
    }
}

/// The push service's message endpoint for a base URL and a token.
pub fn build_message_url(server_url: &str, token: &str) -> (u: String)
    ensures
        u@ == server_url@ + "/message?token="@ + token@,
{
    let mut u = String::from_str(server_url);
    u.append("/message?token=");
    u.append(token);
    proof {
        assert(u@ =~= server_url@ + "/message?token="@ + token@);
    }
    u
}

/// How `v` appears in diagnostic output: every character replaced by an
/// asterisk; or, when the last characters may be revealed, all but the
/// last four replaced (a value of at most four characters then stands
/// unmasked).
pub open spec fn spec_redacted(v: Seq<char>, reveal_suffix: bool) -> Seq<char> {
    if reveal_suffix {
        if v.len() > 4 {
            Seq::new((v.len() - 4) as nat, |i: int| '*') + v.skip(v.len() - 4)
        } else {
            v
        }
    } else {
        Seq::new(v.len(), |i: int| '*')
    }
}

/// Masks a sensitive value for diagnostic output, as `spec_redacted`
/// describes it.
pub fn redact_value(v: &str, reveal_suffix: bool) -> (r: String)
    ensures
        r@ == spec_redacted(v@, reveal_suffix),
{
    let n = v.unicode_len();
    let keep: usize = if reveal_suffix {
        if n > 4 {
            n - 4
        } else {
            0
        }
    } else {
        n
    };
    let mut r = String::new();
    let mut i: usize = 0;
    while i < keep
        invariant
            i <= keep,
            r@ =~= Seq::new(i as nat, |j: int| '*'),
        decreases keep - i,
    {
        r.append("*");
        proof {
            reveal_strlit("*");
            assert(r@ =~= Seq::new((i + 1) as nat, |j: int| '*'));
        }
        i = i + 1;
    }
    if reveal_suffix {
        let suffix = v.substring_char(keep, n);
        r.append(suffix);
    }
    proof {
        assert(r@ =~= spec_redacted(v@, reveal_suffix));
    }
    r
}

/// Whether a configured flag value means "true": exactly the four-letter
/// word in any mix of letter case; an unset flag means "false".
pub open spec fn spec_flag_is_true(v: Option<String>) -> bool {
    match v {
        Some(s) => s@.len() == 4 && (s@[0] == 't' || s@[0] == 'T') && (s@[1] == 'r' || s@[1]
            == 'R') && (s@[2] == 'u' || s@[2] == 'U') && (s@[3] == 'e' || s@[3] == 'E'),
        None => false,
    }
}

/// Whether verbose diagnostic logging is on for this configuration.
pub fn is_debug_mode(c: &Config) -> (r: bool)
    ensures
        r == spec_flag_is_true(c.debug_mode),
{
    match &c.debug_mode {
        None => false,
        Some(s) => {
            let st = s.as_str();
            if st.unicode_len() != 4 {
                return false;
            }
            let c0 = st.get_char(0);
            let c1 = st.get_char(1);
            let c2 = st.get_char(2);
            let c3 = st.get_char(3);
            (c0 == 't' || c0 == 'T') && (c1 == 'r' || c1 == 'R') && (c2 == 'u' || c2 == 'U') && (
            c3 == 'e' || c3 == 'E')
        },
    }
}

} // verus!
