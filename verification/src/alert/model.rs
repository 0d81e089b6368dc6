use vstd::prelude::*;

use crate::alert::discord::DiscordAlert;
use crate::alert::error::DeliveryError;
use crate::alert::http::HttpAlert;

verus! {

/// The closed set of notification kinds: a webhook-chat message or a generic
/// HTTP webhook call. Adding a kind is a local extension, not a core rewrite.
#[derive(Debug, Clone)]
pub enum AlertType {
    Discord(DiscordAlert),
    Http(HttpAlert),
}

/// One configured outbound notification channel.
#[derive(Debug, Clone)]
pub struct Alert {
    pub alert_type: AlertType,
}

impl Alert {
    pub fn new(alert_type: AlertType) -> (r: Self)
        ensures
            r.alert_type == alert_type,
    {
        Self { alert_type }
    }
}

/// Classify a completed notification call from the response status it
/// observed: any status in the 2xx success range is a successful delivery,
/// any other is a failure with a distinguishable "bad status" reason
/// carrying the observed code.
pub fn classify_delivery(status_code: u16) -> (r: Result<(), DeliveryError>)
    ensures
        r == (if 200 <= status_code < 300 {
            Result::<(), DeliveryError>::Ok(())
        } else {
            Result::<(), DeliveryError>::Err(DeliveryError::BadStatus(status_code))
        }),
{
    if 200 <= status_code && status_code < 300 {
        Ok(())
    } else {
        Err(DeliveryError::BadStatus(status_code))
    }
}

} // verus!
