//! The OpenAI Responses provider: what a turn streams.
use vstd::prelude::*;

use crate::model::{Message, MessageRole, ProviderEvent};
use crate::providers::provider::ProviderTurnRequest;
use crate::text::{chars_of, concat2, owned, split_words, string_of, string_views, words};

verus! {

#[derive(Debug, Clone)]
pub struct OpenAiResponsesProvider {
    base_url: String,
}

/// The text of the most recent user message, if any.
pub open spec fn latest_user_message(messages: Seq<Message>) -> Option<Seq<char>>
    decreases messages.len(),
{
    if messages.len() == 0 {
        None
    } else if messages.last().role == MessageRole::User {
        Some(messages.last().content@)
    } else {
        latest_user_message(messages.drop_last())
    }
}

/// The echoed prompt is the most recent user message: a conversation that
/// ends with a user message echoes that message, a message of another role
/// added at the end changes nothing, and a conversation without user
/// messages has no prompt.
pub proof fn law_latest_user_message_is_the_last_prompt(messages: Seq<Message>, m: Message)
    ensures
        m.role == MessageRole::User ==> latest_user_message(messages.push(m)) == Some(m.content@),
        m.role != MessageRole::User ==> latest_user_message(messages.push(m))
            == latest_user_message(messages),
        (forall|i: int| 0 <= i < messages.len() ==> #[trigger] messages[i].role != MessageRole::User)
            ==> latest_user_message(messages) is None,
        latest_user_message(messages) matches Some(c) ==> exists|i: int|
            0 <= i < messages.len() && #[trigger] messages[i].role == MessageRole::User
                && messages[i].content@ == c && forall|j: int|
                i < j < messages.len() ==> #[trigger] messages[j].role != MessageRole::User,
    decreases messages.len(),
{
    assert(messages.push(m).drop_last() =~= messages);
    if messages.len() > 0 {
        law_latest_user_message_is_the_last_prompt(messages.drop_last(), messages.last());
        assert(messages.drop_last().push(messages.last()) =~= messages);
        if forall|i: int| 0 <= i < messages.len() ==> #[trigger] messages[i].role != MessageRole::User {
            assert(messages[messages.len() - 1].role != MessageRole::User);
            assert forall|i: int| 0 <= i < messages.drop_last().len() implies #[trigger] messages.drop_last()[i].role
                != MessageRole::User by {
                assert(messages.drop_last()[i] == messages[i]);
            }
        }
        if latest_user_message(messages) is Some {
            if messages.last().role == MessageRole::User {
                assert(messages[messages.len() - 1].role == MessageRole::User);
            } else {
                let d = messages.drop_last();
                let i = choose|i: int|
                    0 <= i < d.len() && #[trigger] d[i].role == MessageRole::User
                        && d[i].content@ == latest_user_message(d)->0 && forall|j: int|
                        i < j < d.len() ==> #[trigger] d[j].role != MessageRole::User;
                assert(messages[i] == d[i]);
                assert forall|j: int| i < j < messages.len() implies #[trigger] messages[j].role
                    != MessageRole::User by {
                    if j < d.len() {
                        assert(messages[j] == d[j]);
                    }
                }
            }
        }
    }
}

/// The text a turn answers with.
pub open spec fn spec_response_text(
    base_url: Seq<char>,
    model: Seq<char>,
    variant: Seq<char>,
    messages: Seq<Message>,
) -> Seq<char> {
    "OpenAI streaming provider active via "@ + base_url + ". model="@ + model + " variant="@
        + variant + ". Echo: "@ + match latest_user_message(messages) {
        Some(m) => m,
        None => "No user prompt was provided."@,
    }
}

/// The deltas a turn streams: each word of the response followed by a space.
pub open spec fn spec_deltas(text: Seq<char>) -> Seq<Seq<char>> {
    words(text).map_values(|w: Seq<char>| w + seq![' '])
}

/// How a turn proceeds.
#[derive(Debug, Clone, PartialEq, Eq)]
pub enum TurnPlan {
    /// The turn emits this one event and its stream then closes.
    Immediate(ProviderEvent),
    /// The turn streams these deltas, checking for cancellation before each.
    Stream(Vec<String>),
}

/// The message of the event sent when a request carries no access token.
pub open spec fn spec_missing_token_message(request: ProviderTurnRequest) -> Seq<char> {
    "missing access token for provider request (source="@ + request.auth.source@ + ", status="@
        + request.auth.status@ + ", provider="@ + request.auth.provider_id@
        + "). Run /login to sign in."@
}

/// The credential source of an OAuth session, as requests carry it.
pub open spec fn is_oauth_source(source: Seq<char>) -> bool {
    source == "oauth-session"@
}

/// The message of the event sent when a request carries a credential that
/// is not an OAuth session.
pub open spec fn spec_non_oauth_message(request: ProviderTurnRequest) -> Seq<char> {
    "an OAuth session is required for provider requests (source="@ + request.auth.source@
        + "). Run /login to sign in with ChatGPT."@
}

fn latest_user_index(messages: &Vec<Message>) -> (r: Option<usize>)
    ensures
        r matches Some(k) ==> k < messages@.len() && latest_user_message(messages@) == Some(
            messages@[k as int].content@,
        ),
        r is None ==> latest_user_message(messages@) is None,
{
    let mut i: usize = messages.len();
    assert(messages@.take(i as int) =~= messages@);
    while i > 0
        invariant
            i <= messages@.len(),
            latest_user_message(messages@) == latest_user_message(messages@.take(i as int)),
        decreases i,
    {
        proof {
            assert(messages@.take(i as int).drop_last() =~= messages@.take(i - 1));
            assert(messages@.take(i as int).last() == messages@[i - 1]);
        }
        if messages[i - 1].role == MessageRole::User {
            return Some(i - 1);
        }
        i = i - 1;
    }
    assert(messages@.take(0) =~= Seq::<Message>::empty());
    None
}

impl OpenAiResponsesProvider {
    pub closed spec fn spec_base_url(&self) -> Seq<char> {
        self.base_url@
    }

    pub fn new(base_url: String) -> (r: Self)
        ensures
            r.spec_base_url() == base_url@,
    {
        OpenAiResponsesProvider { base_url }
    }

    pub fn id(&self) -> (r: &'static str)
        ensures
            r@ == "openai-responses"@,
    {
        "openai-responses"
    }

    /// The response text for a request.
    pub fn chunked_response_text(&self, request: &ProviderTurnRequest) -> (r: String)
        ensures
            r@ == spec_response_text(
                self.spec_base_url(),
                request.model@,
                request.variant@,
                request.messages@,
            ),
    {
        let latest = latest_user_index(&request.messages);
        let echo: &str = match latest {
            Some(k) => request.messages[k].content.as_str(),
            None => "No user prompt was provided.",
        };
        let mut r = concat2("OpenAI streaming provider active via ", self.base_url.as_str());
        r.append(". model=");
        r.append(request.model.as_str());
        r.append(" variant=");
        r.append(request.variant.as_str());
        r.append(". Echo: ");
        r.append(echo);
        r
    }

    /// Decides how a turn runs: a request without messages is refused; one
    /// without an access token, or whose credential is not an OAuth session,
    /// gets a single error event that tells the user to run `/login`; any
    /// other streams the response word by word.
    pub fn plan_turn(&self, request: &ProviderTurnRequest) -> (r: Result<TurnPlan, String>)
        ensures
            request.messages@.len() == 0 <==> r is Err,
            r matches Err(e) ==> e@ == "provider request must include at least one message"@,
            request.messages@.len() > 0 && request.auth.access_token is None ==> (r matches Ok(
                TurnPlan::Immediate(ProviderEvent::Error(m)),
            ) && m@ == spec_missing_token_message(*request)),
            request.messages@.len() > 0 && request.auth.access_token is Some
                && !is_oauth_source(request.auth.source@) ==> (r matches Ok(
                TurnPlan::Immediate(ProviderEvent::Error(m)),
            ) && m@ == spec_non_oauth_message(*request)),
            r matches Ok(TurnPlan::Stream(d)) ==> request.auth.access_token is Some
                && is_oauth_source(request.auth.source@)
                && string_views(d@) == spec_deltas(spec_response_text(
                    self.spec_base_url(),
                    request.model@,
                    request.variant@,
                    request.messages@,
                )),
            request.messages@.len() > 0 ==> (r matches Ok(TurnPlan::Immediate(_))
                <==> request.auth.access_token is None || !is_oauth_source(request.auth.source@)),
    {
        if request.messages.len() == 0 {
            return Err(owned("provider request must include at least one message"));
        }
        if request.auth.access_token.is_none() {
            let mut m = concat2(
                "missing access token for provider request (source=",
                request.auth.source.as_str(),
            );
            m.append(", status=");
            m.append(request.auth.status.as_str());
            m.append(", provider=");
            m.append(request.auth.provider_id.as_str());
            m.append("). Run /login to sign in.");
            return Ok(TurnPlan::Immediate(ProviderEvent::Error(m)));
        }
        if !crate::text::str_eq(request.auth.source.as_str(), "oauth-session") {
            let mut m = concat2(
                "an OAuth session is required for provider requests (source=",
                request.auth.source.as_str(),
            );
            m.append("). Run /login to sign in with ChatGPT.");
            return Ok(TurnPlan::Immediate(ProviderEvent::Error(m)));
        }
        let text = self.chunked_response_text(request);
        let parts = split_words(&chars_of(text.as_str()));
        let mut deltas: Vec<String> = Vec::new();
        let mut i: usize = 0;
        while i < parts.len()
            invariant
                i <= parts@.len(),
                parts@.len() == words(text@).len(),
                forall|k: int| 0 <= k < parts@.len() ==> (#[trigger] parts@[k])@ == words(text@)[k],
                deltas@.len() == i,
                string_views(deltas@) == spec_deltas(text@).take(i as int),
            decreases parts@.len() - i,
        {
            let mut w = string_of(&parts[i]);
            w.append(" ");
            deltas.push(w);
            proof {
                reveal_strlit(" ");
                assert(deltas@[i as int]@ == words(text@)[i as int] + seq![' ']);
                assert(spec_deltas(text@)[i as int] == words(text@)[i as int] + seq![' ']);
                assert(string_views(deltas@) =~= spec_deltas(text@).take(i + 1));
            }
            i = i + 1;
        }
        assert(spec_deltas(text@).take(i as int) =~= spec_deltas(text@));
        Ok(TurnPlan::Stream(deltas))
    }
}

/// The next event of a streamed turn, and whether the stream ends with it:
/// `Cancelled` once the cancellation flag is seen, the next delta while any
/// remain, `Completed` after the last one.
impl Default for OpenAiResponsesProvider {
    fn default() -> (r: Self)
        ensures
            r.spec_base_url() == "https://api.openai.com/v1"@,
    {
        OpenAiResponsesProvider::new(owned("https://api.openai.com/v1"))
    }
}

pub fn next_stream_event(deltas: &Vec<String>, sent: usize, cancelled: bool) -> (r: (
    ProviderEvent,
    bool,
))
    ensures
        cancelled ==> r.0 == ProviderEvent::Cancelled && r.1,
        !cancelled && sent < deltas@.len() ==> r.0 == ProviderEvent::TextDelta(deltas@[sent as int])
            && !r.1,
        !cancelled && sent >= deltas@.len() ==> r.0 == ProviderEvent::Completed && r.1,
{
    if cancelled {
        (ProviderEvent::Cancelled, true)
    } else if sent < deltas.len() {
        (ProviderEvent::TextDelta(deltas[sent].clone()), false)
    } else {
        (ProviderEvent::Completed, true)
    }
}

} // verus!
