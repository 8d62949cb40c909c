use vstd::prelude::*;
use vstd::string::*;
use crate::desktop::{DesktopNotifier, desktop_summary};
use crate::webhook::{
    WebhookNotifier,
    bearer,
    json_content_type,
    text_body,
    json_string_of,
    is_success_status,
};

verus! {

/// One notification channel: something that sends a text message and
/// reports whether its transport accepted it.
pub enum Notifier {
    Desktop(DesktopNotifier),
    Webhook(WebhookNotifier),
}

/// Why a channel failed to send.
pub enum ChannelError {
    /// The remote endpoint answered with a status outside the success range.
    Rejected { status: u16 },
    /// The transport failed (OS call rejected, network unreachable, TLS failure).
    Failed { cause: String },
}

/// What a channel hands to its transport for one message.
pub enum Delivery {
    /// A local notification with a title and a body.
    Popup { summary: String, body: String },
    /// An HTTP POST.
    Post { url: String, authorization: String, content_type: String, body: String },
}

pub enum DeliveryView {
    Popup { summary: Seq<char>, body: Seq<char> },
    Post {
        url: Seq<char>,
        authorization: Seq<char>,
        content_type: Seq<char>,
        body: Seq<char>,
    },
}

impl View for Delivery {
    type V = DeliveryView;

    open spec fn view(&self) -> DeliveryView {
        match self {
            Delivery::Popup { summary, body } => DeliveryView::Popup {
                summary: summary@,
                body: body@,
            },
            Delivery::Post { url, authorization, content_type, body } => DeliveryView::Post {
                url: url@,
                authorization: authorization@,
                content_type: content_type@,
                body: body@,
            },
        }
    }
}

impl Notifier {
    /// What this channel sends for a message.
    pub open spec fn planned(self, message: Seq<char>) -> DeliveryView {
        match self {
            Notifier::Desktop(_) => DeliveryView::Popup { summary: desktop_summary(), body: message },
            Notifier::Webhook(w) => DeliveryView::Post {
                url: w.spec_url(),
                authorization: bearer(w.spec_secret()),
                content_type: json_content_type(),
                body: text_body(json_string_of(message)),
            },
        }
    }

    /// The delivery of one message through this channel.
    pub fn delivery(&self, message: &str) -> (r: Delivery)
        ensures
            r@ == self.planned(message@),
    {
        match self {
            Notifier::Desktop(_) => Delivery::Popup {
                summary: String::from_str("Command Completed"),
                body: String::from_str(message),
            },
            Notifier::Webhook(w) => Delivery::Post {
                url: String::from_str(w.url()),
                authorization: w.authorization(),
                content_type: String::from_str("application/json"),
                body: WebhookNotifier::body(message),
            },
        }
    }
}

/// The outcome of a POST from the status it was answered with: success
/// exactly on a 2xx status.
pub fn response_outcome(status: u16) -> (r: Result<(), ChannelError>)
    ensures
        is_success_status(status) <==> r is Ok,
        !is_success_status(status) ==> r == Err::<(), ChannelError>(
            ChannelError::Rejected { status },
        ),
{
    if 200 <= status && status <= 299 {
        Ok(())
    } else {
        Err(ChannelError::Rejected { status })
    }
}

/// The decimal digit for a value below ten.
pub open spec fn digit_char(d: nat) -> char {
    if d == 0 { '0' }
    else if d == 1 { '1' }
    else if d == 2 { '2' }
    else if d == 3 { '3' }
    else if d == 4 { '4' }
    else if d == 5 { '5' }
    else if d == 6 { '6' }
    else if d == 7 { '7' }
    else if d == 8 { '8' }
    else { '9' }
}

/// The decimal rendering of a number, without leading zeros.
pub open spec fn decimal(n: nat) -> Seq<char>
    decreases n,
{
    if n < 10 {
        seq![digit_char(n)]
    } else {
        decimal(n / 10) + seq![digit_char(n % 10)]
    }
}

fn digit_text(d: u16) -> (r: &'static str)
    requires
        d < 10,
    ensures
        r@ == seq![digit_char(d as nat)],
{
    proof {
        reveal_strlit("0");
        reveal_strlit("1");
        reveal_strlit("2");
        reveal_strlit("3");
        reveal_strlit("4");
        reveal_strlit("5");
        reveal_strlit("6");
        reveal_strlit("7");
        reveal_strlit("8");
        reveal_strlit("9");
    }
    if d == 0 { "0" }
    else if d == 1 { "1" }
    else if d == 2 { "2" }
    else if d == 3 { "3" }
    else if d == 4 { "4" }
    else if d == 5 { "5" }
    else if d == 6 { "6" }
    else if d == 7 { "7" }
    else if d == 8 { "8" }
    else { "9" }
}

fn append_decimal(s: &mut String, n: u16)
    ensures
        final(s)@ == old(s)@ + decimal(n as nat),
    decreases n,
{
    if n >= 10 {
        append_decimal(s, n / 10);
    }
    s.append(digit_text(n % 10));
    proof {
        if n < 10 {
            assert(n as nat % 10 == n as nat);
        }
    }
}

/// The text of a webhook rejection.
pub open spec fn rejected_text(status: u16) -> Seq<char> {
    "Failed to send webhook notification: "@ + decimal(status as nat)
}

impl ChannelError {
    /// A human-readable cause.
    pub fn describe(&self) -> (r: String)
        ensures
            *self matches ChannelError::Rejected { status } ==> r@ == rejected_text(status),
            *self matches ChannelError::Failed { cause } ==> r@ == cause@,
    {
        match self {
            ChannelError::Rejected { status } => {
                let mut r = String::from_str("Failed to send webhook notification: ");
                append_decimal(&mut r, *status);
                r
            },
            ChannelError::Failed { cause } => cause.clone(),
        }
    }
}

} // verus!
