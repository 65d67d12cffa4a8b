//! Routing of an authenticated interaction to its response.
//!
//! A ping is answered with a pong at once. An application command whose name
//! begins with `activities` asks for a channel invite: the dispatcher hands
//! back the activity and channel identifiers, the caller performs the REST
//! call, and `invite_reply` turns the call's answer into the final response.
//! Every other interaction falls through to a plain pong, the platform's
//! permissive default. A command without the required payload or options is
//! a client error, never a failure.

use crate::discord::ChannelInviteRequest;
use crate::discord::ChannelInviteResponse;
use crate::discord::Interaction;
use crate::discord::InteractionData;
use crate::discord::InteractionResponse;
use crate::discord::InteractionResponseData;
use crate::discord::InteractionResponseType;
use crate::discord::InteractionType;
use crate::verify::verify;
use crate::verify::verify_spec;
use vstd::prelude::*;
use vstd::string::StrSliceExecFns;
use vstd::string::StringExecFns;

verus! {

/// The identifiers an invite-creating command carries: which activity to
/// open, and in which channel.
pub struct InviteCall {
    pub activity_id: String,
    pub channel_id: String,
}

/// What the dispatcher asks its caller to do with one interaction.
pub enum DispatchOutcome {
    /// Answer with this response at once.
    Reply(InteractionResponse),
    /// Create a channel invite upstream, then answer via `invite_reply`.
    CreateInvite(InviteCall),
    /// Reject the request as a client error.
    BadRequest,
}

/// The default acknowledgment: a pong with no data.
pub open spec fn pong_reply() -> InteractionResponse {
    InteractionResponse { interaction_type: InteractionResponseType::Pong, data: None }
}

/// `p` is a prefix of `s`.
pub open spec fn has_prefix(s: Seq<char>, p: Seq<char>) -> bool {
    p.len() <= s.len() && s.subrange(0, p.len() as int) == p
}

/// Decides whether `p` is a prefix of `s`.
fn has_prefix_exec(s: &str, p: &str) -> (r: bool)
    ensures
        r == has_prefix(s@, p@),
{
    let n = p.unicode_len();
    let m = s.unicode_len();
    if n > m {
        return false;
    }
    let mut i: usize = 0;
    while i < n
        invariant
            i <= n,
            n == p@.len(),
            m == s@.len(),
            n <= m,
            forall|j: int| 0 <= j < i ==> s@[j] == p@[j],
        decreases n - i,
    {
        if s.get_char(i) != p.get_char(i) {
            assert(!has_prefix(s@, p@)) by {
                if has_prefix(s@, p@) {
                    assert(s@.subrange(0, p@.len() as int)[i as int] == s@[i as int]);
                }
            }
            return false;
        }
        i += 1;
    }
    assert(s@.subrange(0, p@.len() as int) =~= p@);
    true
}

/// An interaction whose command name begins with the `activities` prefix.
pub open spec fn is_activities_command(d: InteractionData) -> bool {
    has_prefix(d.name@, "activities"@)
}

/// The command carries both required arguments: option 0 (the activity) and
/// option 1 (the channel), each with a value.
pub open spec fn invite_args_ok(d: InteractionData) -> bool {
    &&& d.options is Some
    &&& d.options->Some_0@.len() >= 2
    &&& d.options->Some_0@[0].value is Some
    &&& d.options->Some_0@[1].value is Some
}

/// The invite call an `activities` command asks for.
pub open spec fn invite_call_of(d: InteractionData) -> InviteCall {
    InviteCall {
        activity_id: d.options->Some_0@[0].value->Some_0,
        channel_id: d.options->Some_0@[1].value->Some_0,
    }
}

/// Routes one parsed interaction. A ping is answered with a pong; an
/// `activities` command becomes an invite call; a command without its
/// payload or its two option values is a client error; everything else
/// falls through to the default pong.
pub fn dispatch(interaction: Interaction) -> (d: DispatchOutcome)
    ensures
        interaction.interaction_type == InteractionType::Ping ==> d
            == DispatchOutcome::Reply(pong_reply()),
        interaction.interaction_type == InteractionType::ApplicationCommand ==> {
            if interaction.data is None {
                d == DispatchOutcome::BadRequest
            } else if !is_activities_command(interaction.data->Some_0) {
                d == DispatchOutcome::Reply(pong_reply())
            } else if invite_args_ok(interaction.data->Some_0) {
                d == DispatchOutcome::CreateInvite(invite_call_of(interaction.data->Some_0))
            } else {
                d == DispatchOutcome::BadRequest
            }
        },
        interaction.interaction_type != InteractionType::Ping
            && interaction.interaction_type != InteractionType::ApplicationCommand ==> d
            == DispatchOutcome::Reply(pong_reply()),
        d matches DispatchOutcome::Reply(r) ==> r.wf(),
{
    match interaction.interaction_type {
        InteractionType::Ping => DispatchOutcome::Reply(
            InteractionResponse { interaction_type: InteractionResponseType::Pong, data: None },
        ),
        InteractionType::ApplicationCommand => {
            let data = match interaction.data {
                Some(data) => data,
                None => {
                    return DispatchOutcome::BadRequest;
                },
            };
            if !has_prefix_exec(data.name.as_str(), "activities") {
                return DispatchOutcome::Reply(
                    InteractionResponse {
                        interaction_type: InteractionResponseType::Pong,
                        data: None,
                    },
                );
            }
            let mut options = match data.options {
                Some(options) => options,
                None => {
                    return DispatchOutcome::BadRequest;
                },
            };
            if options.len() < 2 {
                return DispatchOutcome::BadRequest;
            }
            let first = options.remove(0);
            let second = options.remove(0);
            let activity_id = match first.value {
                Some(v) => v,
                None => {
                    return DispatchOutcome::BadRequest;
                },
            };
            let channel_id = match second.value {
                Some(v) => v,
                None => {
                    return DispatchOutcome::BadRequest;
                },
            };
            DispatchOutcome::CreateInvite(InviteCall { activity_id, channel_id })
        },
        _ => DispatchOutcome::Reply(
            InteractionResponse { interaction_type: InteractionResponseType::Pong, data: None },
        ),
    }
}

/// The value of the first header named `name`, if any.
pub open spec fn spec_header_value(headers: Seq<(String, String)>, name: Seq<char>) -> Option<
    Seq<char>,
>
    decreases headers.len(),
{
    if headers.len() == 0 {
        None
    } else if headers[0].0@ == name {
        Some(headers[0].1@)
    } else {
        spec_header_value(headers.drop_first(), name)
    }
}

/// Looks up the first header named `name`.
pub fn header_value(headers: &Vec<(String, String)>, name: &String) -> (r: Option<String>)
    ensures
        r is Some <==> spec_header_value(headers@, name@) is Some,
        r matches Some(v) ==> spec_header_value(headers@, name@) == Some(v@),
{
    let mut i: usize = 0;
    assert(headers@.skip(0) =~= headers@);
    while i < headers.len()
        invariant
            i <= headers@.len(),
            spec_header_value(headers@, name@) == spec_header_value(
                headers@.skip(i as int),
                name@,
            ),
        decreases headers@.len() - i,
    {
        assert(headers@.skip(i as int)[0] == headers@[i as int]);
        if headers[i].0 == *name {
            return Some(headers[i].1.clone());
        }
        assert(headers@.skip(i as int).drop_first() =~= headers@.skip(i as int + 1));
        i += 1;
    }
    None
}

/// Picks the signature and timestamp headers, `X-Signature-Ed25519` and
/// `X-Signature-Timestamp`, out of a request's header list.
pub fn signature_headers(headers: &Vec<(String, String)>) -> (r: (Option<String>, Option<String>))
    ensures
        r.0 is Some <==> spec_header_value(headers@, "X-Signature-Ed25519"@) is Some,
        r.0 matches Some(v) ==> spec_header_value(headers@, "X-Signature-Ed25519"@) == Some(v@),
        r.1 is Some <==> spec_header_value(headers@, "X-Signature-Timestamp"@) is Some,
        r.1 matches Some(v) ==> spec_header_value(headers@, "X-Signature-Timestamp"@) == Some(v@),
{
    let ed_name = String::from_str("X-Signature-Ed25519");
    let ts_name = String::from_str("X-Signature-Timestamp");
    (header_value(headers, &ed_name), header_value(headers, &ts_name))
}

/// Authenticates one request from its two signature headers, its raw body
/// and the configured public key. A missing header is an immediate
/// rejection, before any cryptographic work; otherwise the body is returned
/// exactly when the signature checks out.
pub fn validate_request(
    x_sig_ed: Option<String>,
    x_sig_time: Option<String>,
    body: String,
    public_key: String,
) -> (r: Option<String>)
    ensures
        x_sig_ed is None || x_sig_time is None ==> r is None,
        r is Some <==> (x_sig_ed is Some && x_sig_time is Some && verify_spec(
            x_sig_ed->Some_0@,
            x_sig_time->Some_0@,
            body@,
            public_key@,
        )),
        r matches Some(b) ==> b@ == body@,
{
    let sig = match x_sig_ed {
        Some(sig) => sig,
        None => {
            return None;
        },
    };
    let ts = match x_sig_time {
        Some(ts) => ts,
        None => {
            return None;
        },
    };
    if verify(&sig, &ts, &body, public_key) {
        Some(body)
    } else {
        None
    }
}

/// The body of the invite-creation call for one activity: a non-expiring,
/// unlimited-use, non-temporary invite targeted at that embedded application.
pub fn invite_request_for(activity_id: String) -> (r: ChannelInviteRequest)
    ensures
        r.max_age == 0,
        r.max_uses == 0,
        !r.temporary,
        !r.unique,
        r.target_type == 2,
        r.target_application_id == activity_id,
{
    ChannelInviteRequest {
        max_age: 0,
        max_uses: 0,
        temporary: false,
        unique: false,
        target_type: 2,
        target_application_id: activity_id,
    }
}

/// The invite-creation endpoint for one channel.
pub open spec fn invite_url_spec(channel_id: Seq<char>) -> Seq<char> {
    "https://discord.com/api/v10/channels/"@ + channel_id + "/invites"@
}

/// Builds the URL of the invite-creation endpoint for `channel_id`.
pub fn invite_url_for(channel_id: &String) -> (r: String)
    ensures
        r@ == invite_url_spec(channel_id@),
{
    let mut url = String::from_str("https://discord.com/api/v10/channels/");
    url.append(channel_id.as_str());
    url.append("/invites");
    url
}

/// The markdown message shown for a created invite: a link that opens the
/// named application in the channel.
pub open spec fn invite_content_spec(
    app_name: Seq<char>,
    channel_id: Seq<char>,
    code: Seq<char>,
) -> Seq<char> {
    "[Click to open **"@ + app_name + "** in <#"@ + channel_id + ">](https://discord.gg/"@ + code
        + ")"@
}

/// Turns the answer of the invite-creation call into the final response: a
/// message with the formatted invite link.
pub fn invite_reply(channel_id: &String, invite: ChannelInviteResponse) -> (r: InteractionResponse)
    ensures
        r.interaction_type == InteractionResponseType::ChannelMessageWithSource,
        r.data is Some,
        r.data matches Some(d) ==> d.content@ == invite_content_spec(
            invite.target_application.name@,
            channel_id@,
            invite.code@,
        ),
        r.wf(),
{
    let mut content = String::from_str("[Click to open **");
    content.append(invite.target_application.name.as_str());
    content.append("** in <#");
    content.append(channel_id.as_str());
    content.append(">](https://discord.gg/");
    content.append(invite.code.as_str());
    content.append(")");
    InteractionResponse {
        interaction_type: InteractionResponseType::ChannelMessageWithSource,
        data: Some(InteractionResponseData { content }),
    }
}

} // verus!
