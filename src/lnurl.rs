//! The LNURL-pay endpoints: the pay-request metadata document and the
//! callback that turns a requested amount into an invoice.

use vstd::prelude::*;
use vstd::string::StringExecFns;
use crate::cli_arguments::Cli;
use crate::phoenixd_client::PhoenixInvoice;
use crate::text::{parse_decimal_u64, parse_u64};

verus! {

/// What the pay-request documents say.
pub struct LnurlSubOpts {
    /// Name shown to the payer.
    pub lnurl_payment_identify: String,
    /// Description shown to the payer.
    pub lnurl_payment_description: String,
    /// Longest comment the payer may add.
    pub lnurl_allow_note: u8,
    /// Message shown once the payment is done.
    pub lnurl_greeting: Option<String>,
    /// Smallest amount accepted, in millisatoshi.
    pub lnurl_minimum_sendable_milisats: u64,
    /// Largest amount accepted, in millisatoshi.
    pub lnurl_maximum_sendable_milisats: u64,
}

/// The pay-request metadata document.
pub struct LnurlpTemplate {
    pub status: String,
    pub name: String,
    pub min_sendable: u64,
    pub max_sendable: u64,
    pub description: String,
    pub comment_length: u8,
    pub callback_host: String,
    pub callback_proto: String,
    pub error_message: String,
}

/// The callback's answer to the paying wallet.
pub struct LnurlpCallbackTemplate {
    pub status: String,
    pub ln_data: String,
    pub success_message: String,
    pub error_message: String,
}

/// The invoice that the callback asks the node for.
pub struct InvoiceOrder {
    pub amount_sat: u64,
    pub description: String,
    pub external_id: String,
}

/// What the callback does next: answer at once, or mint an invoice and then
/// answer with `lnurl_callback_response`.
pub enum CallbackStep {
    Respond(LnurlpCallbackTemplate),
    CreateInvoice(InvoiceOrder),
}

/// The tag that invoices minted by this service carry.
pub open spec fn external_id() -> Seq<char> {
    "lnurl-pay"@
}

pub open spec fn names_view(v: Seq<String>) -> Seq<Seq<char>> {
    v.map_values(|s: String| s@)
}

/// `username` may receive payments: it is listed, or `*` is.
pub open spec fn authorized(accepted: Seq<Seq<char>>, username: Seq<char>) -> bool {
    accepted.contains(username) || accepted.contains("*"@)
}

/// The user names that `cli` accepts.
pub open spec fn accepted(cli: Cli) -> Seq<Seq<char>> {
    names_view(cli.accepted_username->0@)
}

/// The host named in callback URLs: the configured domain, else the
/// request's host.
pub open spec fn callback_host(cli: Cli, request_host: Seq<char>) -> Seq<char> {
    match cli.domain_name {
        Some(d) => d@,
        None => request_host,
    }
}

/// The scheme named in callback URLs: the forwarded protocol, else `http`.
pub open spec fn callback_proto(forwarded_proto: Option<&str>) -> Seq<char> {
    match forwarded_proto {
        Some(p) => p@,
        None => "http"@,
    }
}

/// The amount in millisatoshi that the callback's `amount` parameter asks for.
pub open spec fn requested_msat(amount: Option<&str>) -> Option<u64> {
    match amount {
        Some(s) => parse_u64(s@),
        None => None,
    }
}

/// `step` answers at once with status `error` and `message`.
pub open spec fn answers_error(step: CallbackStep, message: Seq<char>) -> bool {
    match step {
        CallbackStep::Respond(t) => {
            &&& t.status@ == "error"@
            &&& t.ln_data@ == ""@
            &&& t.success_message@ == ""@
            &&& t.error_message@ == message
        },
        CallbackStep::CreateInvoice(_) => false,
    }
}

/// `step` orders an invoice of `amount_sat` satoshi described by
/// `description`.
pub open spec fn orders_invoice(step: CallbackStep, amount_sat: u64, description: Seq<char>) -> bool {
    match step {
        CallbackStep::CreateInvoice(o) => {
            &&& o.amount_sat == amount_sat
            &&& o.description@ == description
            &&& o.external_id@ == external_id()
        },
        CallbackStep::Respond(_) => false,
    }
}

/// Whether `username` is one of `accepted`, or `accepted` holds `*`.
pub fn is_authorized(accepted: &Vec<String>, username: &str) -> (r: bool)
    ensures
        r == authorized(names_view(accepted@), username@),
{
    let wanted = String::from_str(username);
    let star = String::from_str("*");
    let mut i: usize = 0;
    while i < accepted.len()
        invariant
            i <= accepted.len(),
            wanted@ == username@,
            star@ == "*"@,
            forall|j: int|
                0 <= j < i ==> (#[trigger] accepted@[j])@ != username@ && accepted@[j]@ != "*"@,
        decreases accepted.len() - i,
    {
        if accepted[i] == wanted || accepted[i] == star {
            assert(names_view(accepted@)[i as int] == accepted@[i as int]@);
            return true;
        }
        i = i + 1;
    }
    proof {
        assert forall|j: int| 0 <= j < names_view(accepted@).len() implies #[trigger] names_view(
            accepted@,
        )[j] != username@ && names_view(accepted@)[j] != "*"@ by {
            assert(names_view(accepted@)[j] == accepted@[j]@);
        }
    }
    false
}

/// The metadata document for `username`. When the name is accepted it
/// carries the configured name, description, limits and comment length, and
/// the callback's host and scheme; otherwise it has status `error`, empty or
/// zero fields, and the message `User not found`.
pub fn handle_lnurlp(
    cli: &Cli,
    username: &str,
    auto_callback_host: &str,
    forwarded_proto: Option<&str>,
) -> (r: LnurlpTemplate)
    requires
        cli.accepted_username is Some,
    ensures
        authorized(accepted(*cli), username@) ==> {
            &&& r.status@ == "ok"@
            &&& r.name@ == cli.lnurl_opts.lnurl_payment_identify@
            &&& r.min_sendable == cli.lnurl_opts.lnurl_minimum_sendable_milisats
            &&& r.max_sendable == cli.lnurl_opts.lnurl_maximum_sendable_milisats
            &&& r.description@ == cli.lnurl_opts.lnurl_payment_description@
            &&& r.comment_length == cli.lnurl_opts.lnurl_allow_note
            &&& r.callback_host@ == callback_host(*cli, auto_callback_host@)
            &&& r.callback_proto@ == callback_proto(forwarded_proto)
            &&& r.error_message@ == ""@
        },
        !authorized(accepted(*cli), username@) ==> {
            &&& r.status@ == "error"@
            &&& r.name@ == ""@
            &&& r.min_sendable == 0
            &&& r.max_sendable == 0
            &&& r.description@ == ""@
            &&& r.comment_length == 0
            &&& r.callback_host@ == ""@
            &&& r.callback_proto@ == ""@
            &&& r.error_message@ == "User not found"@
        },
{
    let names = match &cli.accepted_username {
        Some(n) => n,
        None => {
            return LnurlpTemplate {
                status: String::new(),
                name: String::new(),
                min_sendable: 0,
                max_sendable: 0,
                description: String::new(),
                comment_length: 0,
                callback_host: String::new(),
                callback_proto: String::new(),
                error_message: String::new(),
            };
        },
    };
    if is_authorized(names, username) {
        let host = match &cli.domain_name {
            Some(d) => d.clone(),
            None => String::from_str(auto_callback_host),
        };
        let proto = match forwarded_proto {
            Some(p) => String::from_str(p),
            None => String::from_str("http"),
        };
        LnurlpTemplate {
            status: String::from_str("ok"),
            name: cli.lnurl_opts.lnurl_payment_identify.clone(),
            min_sendable: cli.lnurl_opts.lnurl_minimum_sendable_milisats,
            max_sendable: cli.lnurl_opts.lnurl_maximum_sendable_milisats,
            description: cli.lnurl_opts.lnurl_payment_description.clone(),
            comment_length: cli.lnurl_opts.lnurl_allow_note,
            callback_host: host,
            callback_proto: proto,
            error_message: String::from_str(""),
        }
    } else {
        LnurlpTemplate {
            status: String::from_str("error"),
            name: String::from_str(""),
            min_sendable: 0,
            max_sendable: 0,
            description: String::from_str(""),
            comment_length: 0,
            callback_host: String::from_str(""),
            callback_proto: String::from_str(""),
            error_message: String::from_str("User not found"),
        }
    }
}

fn callback_error(message: &str) -> (r: LnurlpCallbackTemplate)
    ensures
        r.status@ == "error"@,
        r.ln_data@ == ""@,
        r.success_message@ == ""@,
        r.error_message@ == message@,
{
    LnurlpCallbackTemplate {
        status: String::from_str("error"),
        ln_data: String::from_str(""),
        success_message: String::from_str(""),
        error_message: String::from_str(message),
    }
}

/// Decides what the callback for `username` does, given its `amount` and
/// `comment` query parameters. A name that is not accepted gets status
/// `error` with `User not found`, before any invoice is minted; a missing or
/// malformed amount gets status `error` with `Invalid amount`. Otherwise an
/// invoice is ordered for the amount in whole satoshi (millisatoshi divided
/// by 1000, rounded down), described by the comment or the empty string.
/// The amount is not held to the advertised limits: wallets enforce those.
pub fn lnurl_callback_handler(
    cli: &Cli,
    username: &str,
    amount: Option<&str>,
    comment: Option<&str>,
) -> (r: CallbackStep)
    requires
        cli.accepted_username is Some,
    ensures
        !authorized(accepted(*cli), username@) ==> answers_error(r, "User not found"@),
        authorized(accepted(*cli), username@) && requested_msat(amount) is None ==> answers_error(
            r,
            "Invalid amount"@,
        ),
        authorized(accepted(*cli), username@) && requested_msat(amount) is Some ==> orders_invoice(
            r,
            requested_msat(amount)->0 / 1000,
            match comment {
                Some(c) => c@,
                None => ""@,
            },
        ),
{
    let names = match &cli.accepted_username {
        Some(n) => n,
        None => {
            return CallbackStep::Respond(callback_error(""));
        },
    };
    if !is_authorized(names, username) {
        return CallbackStep::Respond(callback_error("User not found"));
    }
    let msat = match amount {
        Some(s) => parse_decimal_u64(s),
        None => None,
    };
    match msat {
        None => CallbackStep::Respond(callback_error("Invalid amount")),
        Some(v) => {
            let description = match comment {
                Some(c) => String::from_str(c),
                None => String::from_str(""),
            };
            CallbackStep::CreateInvoice(
                InvoiceOrder {
                    amount_sat: v / 1000,
                    description,
                    external_id: String::from_str("lnurl-pay"),
                },
            )
        },
    }
}

/// The answer once `invoice` was minted: status `ok`, the serialized
/// invoice, and the configured greeting (empty when there is none).
pub fn lnurl_callback_response(cli: &Cli, invoice: &PhoenixInvoice) -> (r: LnurlpCallbackTemplate)
    ensures
        r.status@ == "ok"@,
        r.ln_data@ == invoice.serialized@,
        r.success_message@ == match cli.lnurl_opts.lnurl_greeting {
            Some(g) => g@,
            None => ""@,
        },
        r.error_message@ == ""@,
{
    let greeting = match &cli.lnurl_opts.lnurl_greeting {
        Some(g) => g.clone(),
        None => String::from_str(""),
    };
    LnurlpCallbackTemplate {
        status: String::from_str("ok"),
        ln_data: invoice.serialized.clone(),
        success_message: greeting,
        error_message: String::from_str(""),
    }
}

} // verus!
