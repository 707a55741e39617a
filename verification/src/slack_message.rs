//! Posting a plain chat message: the payload the endpoint takes, and the
//! verdict on what it answered.  The surrounding binary performs the HTTP
//! call and hands back the status and decoded body fields.

use vstd::prelude::*;

use crate::numbers::spec_decimal;
use crate::numbers::u64_to_string;
use crate::slack_upload::error_text_or_unknown;

verus! {

/// The body of a chat-message call: the destination channel and the text.
pub struct MessagePayload {
    pub channel: String,
    pub text: String,
}

/// A success HTTP status.
pub open spec fn http_success(status: u16) -> bool {
    200 <= status < 300
}

/// Evaluates what the message endpoint answered: a success status with a
/// confirming body succeeds; a success status with a refusing body carries
/// the remote's error text (or the generic placeholder); any other status is
/// reported with its code.
pub fn handle_message_response(http_status: u16, ok: Option<bool>, error: Option<String>) -> (r:
    Result<(), String>)
    ensures
        (http_success(http_status) && ok == Some(true)) ==> r is Ok,
        (http_success(http_status) && ok != Some(true)) ==> (r matches Err(m) && m@
            == "failed to send message: "@ + error_text_or_unknown(error)),
        !http_success(http_status) ==> (r matches Err(m) && m@
            == "Slack API request failed with status "@ + spec_decimal(http_status as nat)),
{
    if 200 <= http_status && http_status < 300 {
        let confirmed = match ok {
            Some(b) => b,
            None => false,
        };
        if confirmed {
            Ok(())
        } else {
            let mut msg = "failed to send message: ".to_owned();
            match error {
                Some(t) => msg.append(t.as_str()),
                None => msg.append("Unknown error"),
            }
            Err(msg)
        }
    } else {
        let mut msg = "Slack API request failed with status ".to_owned();
        let num = u64_to_string(http_status as u64);
        msg.append(num.as_str());
        Err(msg)
    }
}

} // verus!
