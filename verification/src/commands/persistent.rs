//! Creating, changing and consuming persistent subscriptions.
use crate::commands::event::{
    check_persistent_event, convert_persistent_proto_read_event, is_persistent_event, is_uuid_text,
    persistent_event_is_readable, stream_identifier, to_proto_uuid,
};
use crate::commands::ps_settings::{
    convert_settings_create, convert_settings_update, is_create_settings, strategy_code,
    update_settings, PsSettings,
};
use crate::ids::Uuid;
use crate::options::{
    DeletePersistentSubscriptionOptions, Options, SubscribeToPersistentSubscriptionOptions,
};
use crate::request::{
    can_be_sent, command_metadata, is_visible_ascii, metadata_entries, metadata_get, new_request,
    Request,
};
use crate::settings::ClientSettings;
use crate::text::{law_utf8_reads_back, same_text};
use crate::types::{Error, Features, NakAction, PersistentSubscriptionEvent, ResolvedEvent};
use crate::wire::persistent;
use crate::wire::shared;
use crate::wire::streams::UuidOption;
use tonic::metadata::MetadataMap;
use vstd::prelude::*;
use vstd::utf8::encode_utf8;

verus! {

/// Whether a persistent subscription can be set up so: released servers know its strategy, and
/// this one knows about subscriptions to `$all`, if it is one.
pub open spec fn is_supported<Opts: PsSettings>(options: Opts, features: Features) -> bool {
    &&& strategy_code(options.subscription_settings().consumer_strategy_name) is Some
    &&& options.is_to_all() ==> features.persistent_subscription_to_all
}

/// Tells whether a persistent subscription can be set up so.
pub fn check_supported<Opts: PsSettings>(options: &Opts, features: Features) -> (r: bool)
    ensures
        r == is_supported(*options, features),
{
    let is_known = convert_settings_update(options.settings()).is_ok();
    let is_to_all = match options.to_update_options(stream_identifier("")) {
        persistent::UpdateStreamOption::All(_) => true,
        persistent::UpdateStreamOption::Stream(_) => false,
    };
    is_known && (!is_to_all || features.persistent_subscription_to_all)
}

/// Whether an identifier names the stream.
pub open spec fn names_stream(
    identifier: Option<shared::StreamIdentifier>,
    stream: Seq<char>,
) -> bool {
    identifier matches Some(identifier) && identifier.stream_name@ == encode_utf8(stream)
}

/// Creates a persistent subscription.
pub fn create_persistent_subscription<Opts: PsSettings>(
    settings: &ClientSettings,
    features: Features,
    stream: &str,
    group: &str,
    options: &Opts,
) -> (r: Result<Request<persistent::CreateReq>, Error>)
    requires
        is_supported(*options, features) ==> can_be_sent(*settings, *options),
    ensures
        !is_supported(*options, features) ==> r == Err::<Request<persistent::CreateReq>, Error>(
            Error::UnsupportedFeature,
        ),
        is_supported(*options, features) ==> (r matches Ok(request) && {
            &&& metadata_entries(request.metadata) == command_metadata(
                *settings,
                options.common(),
                options.operation_kind(),
            )
            &&& request.message.options matches Some(sent) && {
                &&& sent.stream_option matches Some(option) && options.is_create_option(
                    option,
                    encode_utf8(stream@),
                )
                &&& names_stream(sent.stream_identifier, stream@)
                &&& sent.group_name@ == group@
                &&& sent.settings matches Some(created) && is_create_settings(
                    created,
                    update_settings(options.subscription_settings()),
                    options.subscription_settings().consumer_strategy_name,
                )
            }
        }),
{
    let subscription_settings = match convert_settings_create(options.settings()) {
        Ok(subscription_settings) => subscription_settings,
        Err(error) => return Err(error),
    };
    let stream_option = options.to_create_options(stream_identifier(stream));
    let is_to_all = match &stream_option {
        persistent::CreateStreamOption::All(_) => true,
        persistent::CreateStreamOption::Stream(_) => false,
    };
    if is_to_all && !features.persistent_subscription_to_all {
        return Err(Error::UnsupportedFeature);
    }
    let req_options = persistent::CreateOptions {
        stream_option: Some(stream_option),
        stream_identifier: Some(stream_identifier(stream)),
        group_name: group.to_owned(),
        settings: Some(subscription_settings),
    };
    Ok(new_request(settings, options, persistent::CreateReq { options: Some(req_options) }))
}

/// Changes a persistent subscription.
pub fn update_persistent_subscription<Opts: PsSettings>(
    settings: &ClientSettings,
    features: Features,
    stream: &str,
    group: &str,
    options: &Opts,
) -> (r: Result<Request<persistent::UpdateReq>, Error>)
    requires
        is_supported(*options, features) ==> can_be_sent(*settings, *options),
    ensures
        !is_supported(*options, features) ==> r == Err::<Request<persistent::UpdateReq>, Error>(
            Error::UnsupportedFeature,
        ),
        is_supported(*options, features) ==> (r matches Ok(request) && {
            &&& metadata_entries(request.metadata) == command_metadata(
                *settings,
                options.common(),
                options.operation_kind(),
            )
            &&& request.message.options matches Some(sent) && {
                &&& sent.stream_option matches Some(option) && options.is_update_option(
                    option,
                    encode_utf8(stream@),
                )
                &&& names_stream(sent.stream_identifier, stream@)
                &&& sent.group_name@ == group@
                &&& sent.settings == Some(update_settings(options.subscription_settings()))
            }
        }),
{
    let subscription_settings = match convert_settings_update(options.settings()) {
        Ok(subscription_settings) => subscription_settings,
        Err(error) => return Err(error),
    };
    let stream_option = options.to_update_options(stream_identifier(stream));
    let is_to_all = match &stream_option {
        persistent::UpdateStreamOption::All(_) => true,
        persistent::UpdateStreamOption::Stream(_) => false,
    };
    if is_to_all && !features.persistent_subscription_to_all {
        return Err(Error::UnsupportedFeature);
    }
    let req_options = persistent::UpdateOptions {
        group_name: group.to_owned(),
        stream_option: Some(stream_option),
        stream_identifier: Some(stream_identifier(stream)),
        settings: Some(subscription_settings),
    };
    Ok(new_request(settings, options, persistent::UpdateReq { options: Some(req_options) }))
}

/// Whether an option is `$all`, or else the stream.
pub open spec fn is_stream_option(
    option: Option<persistent::StreamOption>,
    to_all: bool,
    stream: Seq<char>,
) -> bool {
    if to_all {
        option == Some(persistent::StreamOption::All)
    } else {
        option matches Some(persistent::StreamOption::StreamIdentifier(identifier))
            && identifier.stream_name@ == encode_utf8(stream)
    }
}

/// Names `$all`, or else the stream.
pub(crate) fn to_stream_option(to_all: bool, stream: &str) -> (r: persistent::StreamOption)
    ensures
        is_stream_option(Some(r), to_all, stream@),
{
    if to_all {
        persistent::StreamOption::All
    } else {
        persistent::StreamOption::StreamIdentifier(stream_identifier(stream))
    }
}

/// Whether the server knows about subscriptions to `$all`, where the subscription is one.
pub open spec fn knows_stream(to_all: bool, features: Features) -> bool {
    to_all ==> features.persistent_subscription_to_all
}

/// Deletes a persistent subscription.
pub fn delete_persistent_subscription(
    settings: &ClientSettings,
    features: Features,
    stream_id: &str,
    group_name: &str,
    options: &DeletePersistentSubscriptionOptions,
    to_all: bool,
) -> (r: Result<Request<persistent::DeleteReq>, Error>)
    requires
        knows_stream(to_all, features) ==> can_be_sent(*settings, *options),
    ensures
        !knows_stream(to_all, features) ==> r == Err::<Request<persistent::DeleteReq>, Error>(
            Error::UnsupportedFeature,
        ),
        knows_stream(to_all, features) ==> (r matches Ok(request) && {
            &&& metadata_entries(request.metadata) == command_metadata(
                *settings,
                options.common(),
                options.operation_kind(),
            )
            &&& request.message.options matches Some(sent) && {
                &&& is_stream_option(sent.stream_option, to_all, stream_id@)
                &&& sent.group_name@ == group_name@
            }
        }),
{
    if to_all && !features.persistent_subscription_to_all {
        return Err(Error::UnsupportedFeature);
    }
    let req_options = persistent::DeleteOptions {
        stream_option: Some(to_stream_option(to_all, stream_id)),
        group_name: group_name.to_owned(),
    };
    Ok(new_request(settings, options, persistent::DeleteReq { options: Some(req_options) }))
}

/// Asks to consume a persistent subscription. The message is the first of those that go to the
/// server.
pub fn subscribe_to_persistent_subscription(
    settings: &ClientSettings,
    features: Features,
    stream_id: &str,
    group_name: &str,
    options: &SubscribeToPersistentSubscriptionOptions,
    to_all: bool,
) -> (r: Result<Request<persistent::ReadReq>, Error>)
    requires
        knows_stream(to_all, features) ==> can_be_sent(*settings, *options),
    ensures
        !knows_stream(to_all, features) ==> r == Err::<Request<persistent::ReadReq>, Error>(
            Error::UnsupportedFeature,
        ),
        knows_stream(to_all, features) ==> (r matches Ok(request) && {
            &&& metadata_entries(request.metadata) == command_metadata(
                *settings,
                options.common(),
                options.operation_kind(),
            )
            &&& request.message.content matches Some(persistent::ReadReqContent::Options(sent)) && {
                &&& is_stream_option(sent.stream_option, to_all, stream_id@)
                &&& sent.group_name@ == group_name@
                &&& sent.buffer_size == options.buffer_size as i32
                &&& sent.uuid_option == Some(UuidOption::String)
            }
        }),
{
    if to_all && !features.persistent_subscription_to_all {
        return Err(Error::UnsupportedFeature);
    }
    let req_options = persistent::ReadOptions {
        stream_option: Some(to_stream_option(to_all, stream_id)),
        group_name: group_name.to_owned(),
        buffer_size: #[verifier::truncate]
        (options.buffer_size as i32),
        uuid_option: Some(UuidOption::String),
    };
    Ok(
        new_request(
            settings,
            options,
            persistent::ReadReq { content: Some(persistent::ReadReqContent::Options(req_options)) },
        ),
    )
}

/// A persistent subscription that is being consumed, over a channel.
#[derive(Debug)]
pub struct PersistentSubscription {
    pub channel_id: Uuid,
    pub stream_id: String,
    pub group_name: String,
}

/// What comes over the channel of a persistent subscription.
pub enum PersistentInput {
    /// A message, or the end of the answer.
    Received(Option<persistent::ReadResp>),
    /// The call failed, with metadata of its own.
    Failed { metadata: MetadataMap, error: Error },
}

/// What a persistent subscription does next.
#[derive(Debug)]
pub enum PersistentStep {
    /// Give this to the caller.
    Return(Result<PersistentSubscriptionEvent, Error>),
    /// Report that the channel failed, and give the error to the caller.
    Report { channel_id: Uuid, error: Error },
    /// The message is none that a server sends: it lacks a part that is always there.
    Malformed,
}

/// Whether a failure means that the server dropped the subscription.
pub open spec fn is_dropped(metadata: Map<Seq<char>, Seq<Seq<u8>>>) -> bool {
    &&& metadata.contains_key("exception"@)
    &&& metadata["exception"@].len() > 0
    &&& metadata["exception"@][0] == encode_utf8("persistent-subscription-dropped"@)
}

/// What is said of a subscription that the server dropped.
pub open spec fn dropped_error(stream_id: Seq<char>, group_name: Seq<char>) -> Seq<char> {
    "Persistent subscription on '"@ + stream_id + "' and group '"@ + group_name
        + "' has dropped"@
}

/// What is said where the server no longer listens.
pub open spec fn ignored_error() -> Seq<char> {
    "Ack was ignored as the transaction no longer exists"@
}

/// Whether identifiers are the texts of those given.
pub open spec fn are_uuid_texts(sent: Seq<shared::Uuid>, ids: Seq<Uuid>) -> bool {
    &&& sent.len() == ids.len()
    &&& forall|i: int| 0 <= i < ids.len() ==> is_uuid_text(#[trigger] sent[i], ids[i]@)
}

/// Whether a message says that the events have been processed.
pub open spec fn acknowledges(sent: persistent::ReadReq, ids: Seq<Uuid>) -> bool {
    sent.content matches Some(persistent::ReadReqContent::Ack(ack)) && {
        &&& ack.id@.len() == 0
        &&& are_uuid_texts(ack.ids@, ids)
    }
}

/// The number of what is to become of an event.
pub open spec fn action_code(action: NakAction) -> i32 {
    match action {
        NakAction::Unknown => 0,
        NakAction::Park => 1,
        NakAction::Retry => 2,
        NakAction::Skip => 3,
        NakAction::Stop => 4,
    }
}

/// Whether a message says that the events could not be processed, what is to become of them,
/// and why.
pub open spec fn refuses(
    sent: persistent::ReadReq,
    ids: Seq<Uuid>,
    action: NakAction,
    reason: Seq<char>,
) -> bool {
    sent.content matches Some(persistent::ReadReqContent::Nack(nack)) && {
        &&& nack.id@.len() == 0
        &&& are_uuid_texts(nack.ids@, ids)
        &&& nack.action == action_code(action)
        &&& nack.reason@ == reason
    }
}

/// Writes identifiers.
fn to_proto_uuids(ids: Vec<Uuid>) -> (r: Vec<shared::Uuid>)
    ensures
        are_uuid_texts(r@, ids@),
{
    let mut r: Vec<shared::Uuid> = Vec::new();
    let mut i: usize = 0;
    while i < ids.len()
        invariant
            i <= ids@.len(),
            r@.len() == i,
            forall|j: int| 0 <= j < i ==> is_uuid_text(#[trigger] r@[j], ids@[j]@),
        decreases ids@.len() - i,
    {
        r.push(to_proto_uuid(ids[i]));
        i = i + 1;
    }
    r
}

proof fn lemma_dropped_text(text: Seq<char>)
    ensures
        is_visible_ascii(encode_utf8("persistent-subscription-dropped"@)),
        encode_utf8(text) == encode_utf8("persistent-subscription-dropped"@) ==> text
            == "persistent-subscription-dropped"@,
{
    let wanted = "persistent-subscription-dropped"@;
    law_utf8_reads_back(text);
    law_utf8_reads_back(wanted);
    reveal_strlit("persistent-subscription-dropped");
    assert(vstd::utf8::is_ascii_chars(wanted));
    vstd::utf8::is_ascii_chars_encode_utf8(wanted);
    let bytes = encode_utf8(wanted);
    assert forall|i: int| 0 <= i < bytes.len() implies (32 <= #[trigger] bytes[i] < 127 || bytes[i]
        == 9) by {
        assert(bytes[i] == wanted[i] as u8);
        assert('-' <= wanted[i] && wanted[i] <= 'z');
    }
}

impl PersistentSubscription {
    /// What the subscription does with what came over the channel.
    pub fn next_subscription_event(&self, input: PersistentInput) -> (r: PersistentStep)
        ensures
            match input {
                PersistentInput::Failed { metadata, error } => if is_dropped(
                    metadata_entries(metadata),
                ) {
                    r matches PersistentStep::Return(Err(Error::IllegalStateError(message)))
                        && message@ == dropped_error(self.stream_id@, self.group_name@)
                } else {
                    r == (PersistentStep::Report { channel_id: self.channel_id, error })
                },
                PersistentInput::Received(None) => r is Malformed,
                PersistentInput::Received(Some(resp)) => match resp.content {
                    None => r is Malformed,
                    Some(
                        persistent::ReadRespContent::Event(event),
                    ) => if persistent_event_is_readable(event) {
                        r matches PersistentStep::Return(Ok(appeared)) && is_persistent_event(
                            appeared,
                            event,
                        )
                    } else {
                        r is Malformed
                    },
                    Some(
                        persistent::ReadRespContent::SubscriptionConfirmation { subscription_id },
                    ) => r == PersistentStep::Return(
                        Ok(PersistentSubscriptionEvent::Confirmed(subscription_id)),
                    ),
                },
            },
    {
        match input {
            PersistentInput::Failed { metadata, error } => {
                let dropped = match metadata_get(&metadata, "exception") {
                    Some(exception) => {
                        proof {
                            lemma_dropped_text(exception@);
                        }
                        same_text(exception.as_str(), "persistent-subscription-dropped")
                    },
                    None => {
                        proof {
                            lemma_dropped_text(Seq::empty());
                        }
                        false
                    },
                };
                if dropped {
                    let message = "Persistent subscription on '".to_owned().concat(
                        self.stream_id.as_str(),
                    ).concat("' and group '").concat(self.group_name.as_str()).concat(
                        "' has dropped",
                    );
                    return PersistentStep::Return(Err(Error::IllegalStateError(message)));
                }
                PersistentStep::Report { channel_id: self.channel_id, error }
            },
            PersistentInput::Received(None) => PersistentStep::Malformed,
            PersistentInput::Received(Some(resp)) => match resp.content {
                None => PersistentStep::Malformed,
                Some(persistent::ReadRespContent::Event(event)) => {
                    if !check_persistent_event(&event) {
                        return PersistentStep::Malformed;
                    }
                    PersistentStep::Return(Ok(convert_persistent_proto_read_event(event)))
                },
                Some(
                    persistent::ReadRespContent::SubscriptionConfirmation { subscription_id },
                ) => PersistentStep::Return(
                    Ok(PersistentSubscriptionEvent::Confirmed(subscription_id)),
                ),
            },
        }
    }

    /// The caller of a subscription to events alone gets those, and nothing else.
    pub fn next(&self, event: PersistentSubscriptionEvent) -> (r: Option<ResolvedEvent>)
        ensures
            r == match event {
                PersistentSubscriptionEvent::EventAppeared { event, .. } => Some(event),
                PersistentSubscriptionEvent::Confirmed(_) => None,
            },
    {
        match event {
            PersistentSubscriptionEvent::EventAppeared { event, .. } => Some(event),
            PersistentSubscriptionEvent::Confirmed(_) => None,
        }
    }

    /// Says that an event has been processed.
    pub fn ack(&self, event: ResolvedEvent) -> (r: persistent::ReadReq)
        requires
            event.has_original(),
        ensures
            acknowledges(r, seq![event.original().id]),
    {
        let id = event.get_original_event().id;
        let ids: Vec<Uuid> = vec![id];
        assert(ids@ =~= seq![event.original().id]);
        self.ack_ids(ids)
    }

    /// Says that events have been processed.
    pub fn ack_ids(&self, event_ids: Vec<Uuid>) -> (r: persistent::ReadReq)
        ensures
            acknowledges(r, event_ids@),
    {
        let ack = persistent::Ack { id: Vec::new(), ids: to_proto_uuids(event_ids) };
        persistent::ReadReq { content: Some(persistent::ReadReqContent::Ack(ack)) }
    }

    /// Says that an event could not be processed, what is to become of it, and why.
    pub fn nack(&self, event: ResolvedEvent, action: NakAction, reason: &str) -> (r:
        persistent::ReadReq)
        requires
            event.has_original(),
        ensures
            refuses(r, seq![event.original().id], action, reason@),
    {
        let id = event.get_original_event().id;
        let ids: Vec<Uuid> = vec![id];
        assert(ids@ =~= seq![event.original().id]);
        self.nack_ids(ids, action, reason)
    }

    /// Says that events could not be processed, what is to become of them, and why.
    pub fn nack_ids(&self, event_ids: Vec<Uuid>, action: NakAction, reason: &str) -> (r:
        persistent::ReadReq)
        ensures
            refuses(r, event_ids@, action, reason@),
    {
        let action: i32 = match action {
            NakAction::Unknown => 0,
            NakAction::Park => 1,
            NakAction::Retry => 2,
            NakAction::Skip => 3,
            NakAction::Stop => 4,
        };
        let nack = persistent::Nack {
            id: Vec::new(),
            ids: to_proto_uuids(event_ids),
            action,
            reason: reason.to_owned(),
        };
        persistent::ReadReq { content: Some(persistent::ReadReqContent::Nack(nack)) }
    }

    /// What the caller is told of a message that could be sent, or not.
    pub fn ack_result(&self, sent: bool) -> (r: Result<(), Error>)
        ensures
            sent ==> r == Ok::<(), Error>(()),
            !sent ==> (r matches Err(Error::IllegalStateError(message)) && message@
                == ignored_error()),
    {
        if sent {
            Ok(())
        } else {
            Err(
                Error::IllegalStateError(
                    "Ack was ignored as the transaction no longer exists".to_owned(),
                ),
            )
        }
    }
}

/// What is to become of an event can be told from its number.
pub proof fn law_action_codes_differ(action: NakAction, other: NakAction)
    requires
        action_code(action) == action_code(other),
    ensures
        action == other,
{
}

} // verus!
