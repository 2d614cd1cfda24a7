//! What options are for.
use crate::options::{
    AppendToStreamOptions, BatchAppendOptions, CommonOperationOptions,
    DeletePersistentSubscriptionOptions, DeleteStreamOptions,
    GetPersistentSubscriptionInfoOptions, ListPersistentSubscriptionsOptions, OperationKind,
    Options, PersistentSubscriptionOptions, PersistentSubscriptionToAllOptions, ReadAllOptions,
    ReadStreamOptions, ReplayParkedMessagesOptions, RestartPersistentSubscriptionSubsystem,
    SubscribeToAllOptions, SubscribeToPersistentSubscriptionOptions, SubscribeToStreamOptions,
    TombstoneStreamOptions,
};
use crate::settings::Credentials;
use crate::time::Duration;
use vstd::prelude::*;

verus! {

/// A command is asked for nobody in particular, of the leader, and with no deadline, unless it says
/// otherwise.
pub proof fn law_commands_ask_for_the_leader(r: CommonOperationOptions)
    requires
        call_ensures(CommonOperationOptions::default, (), r),
    ensures
        r.credentials is None,
        r.requires_leader,
        r.deadline is None,
{
}

/// Whether options differ in nothing but the user.
pub open spec fn sets_the_user(
    after: CommonOperationOptions,
    before: CommonOperationOptions,
    credentials: Credentials,
) -> bool {
    &&& after.credentials == Some(credentials)
    &&& after.requires_leader == before.requires_leader
    &&& after.deadline == before.deadline
}

/// Whether options differ in nothing but whether the leader is asked for.
pub open spec fn sets_the_leader(
    after: CommonOperationOptions,
    before: CommonOperationOptions,
    requires_leader: bool,
) -> bool {
    &&& after.requires_leader == requires_leader
    &&& after.credentials == before.credentials
    &&& after.deadline == before.deadline
}

/// Whether options differ in nothing but the deadline.
pub open spec fn sets_the_deadline(
    after: CommonOperationOptions,
    before: CommonOperationOptions,
    deadline: Duration,
) -> bool {
    &&& after.deadline == Some(deadline)
    &&& after.credentials == before.credentials
    &&& after.requires_leader == before.requires_leader
}

/// `AppendToStreamOptions` have their own common options,
/// are of a command that ends with its answer, and
/// can be given a user, a word on the leader, and a deadline, each of which changes nothing else.
pub proof fn law_append_to_stream_options(
    options: AppendToStreamOptions,
    credentials: Credentials,
    as_user: AppendToStreamOptions,
    requires_leader: bool,
    of_leader: AppendToStreamOptions,
    deadline: Duration,
    in_time: AppendToStreamOptions,
    common: &CommonOperationOptions,
    kind: OperationKind,
)
    requires
        call_ensures(AppendToStreamOptions::authenticated, (options, credentials), as_user),
        call_ensures(AppendToStreamOptions::requires_leader, (options, requires_leader), of_leader),
        call_ensures(AppendToStreamOptions::deadline, (options, deadline), in_time),
        call_ensures(AppendToStreamOptions::common_operation_options, (&options,), common),
        call_ensures(AppendToStreamOptions::kind, (&options,), kind),
    ensures
        *common == options.common_operation_options,
        options.common() == options.common_operation_options,
        kind == OperationKind::Regular,
        options.operation_kind() == OperationKind::Regular,
        sets_the_user(
            as_user.common_operation_options,
            options.common_operation_options,
            credentials,
        ),
        sets_the_leader(
            of_leader.common_operation_options,
            options.common_operation_options,
            requires_leader,
        ),
        sets_the_deadline(
            in_time.common_operation_options,
            options.common_operation_options,
            deadline,
        ),
        as_user.version == options.version,
        of_leader.version == options.version,
        in_time.version == options.version,
{
}

/// `BatchAppendOptions` have their own common options,
/// are of a command that goes on until it is done with, and
/// can be given a user, a word on the leader, and a deadline, each of which changes nothing else.
pub proof fn law_batch_append_options(
    options: BatchAppendOptions,
    credentials: Credentials,
    as_user: BatchAppendOptions,
    requires_leader: bool,
    of_leader: BatchAppendOptions,
    deadline: Duration,
    in_time: BatchAppendOptions,
    common: &CommonOperationOptions,
    kind: OperationKind,
)
    requires
        call_ensures(BatchAppendOptions::authenticated, (options, credentials), as_user),
        call_ensures(BatchAppendOptions::requires_leader, (options, requires_leader), of_leader),
        call_ensures(BatchAppendOptions::deadline, (options, deadline), in_time),
        call_ensures(BatchAppendOptions::common_operation_options, (&options,), common),
        call_ensures(BatchAppendOptions::kind, (&options,), kind),
    ensures
        *common == options.common_operation_options,
        options.common() == options.common_operation_options,
        kind == OperationKind::Streaming,
        options.operation_kind() == OperationKind::Streaming,
        sets_the_user(
            as_user.common_operation_options,
            options.common_operation_options,
            credentials,
        ),
        sets_the_leader(
            of_leader.common_operation_options,
            options.common_operation_options,
            requires_leader,
        ),
        sets_the_deadline(
            in_time.common_operation_options,
            options.common_operation_options,
            deadline,
        ),
{
}

/// `ReadStreamOptions` have their own common options,
/// are of a command that goes on until it is done with, and
/// can be given a user, a word on the leader, and a deadline, each of which changes nothing else.
pub proof fn law_read_stream_options(
    options: ReadStreamOptions,
    credentials: Credentials,
    as_user: ReadStreamOptions,
    requires_leader: bool,
    of_leader: ReadStreamOptions,
    deadline: Duration,
    in_time: ReadStreamOptions,
    common: &CommonOperationOptions,
    kind: OperationKind,
)
    requires
        call_ensures(ReadStreamOptions::authenticated, (options, credentials), as_user),
        call_ensures(ReadStreamOptions::requires_leader, (options, requires_leader), of_leader),
        call_ensures(ReadStreamOptions::deadline, (options, deadline), in_time),
        call_ensures(ReadStreamOptions::common_operation_options, (&options,), common),
        call_ensures(ReadStreamOptions::kind, (&options,), kind),
    ensures
        *common == options.common_operation_options,
        options.common() == options.common_operation_options,
        kind == OperationKind::Streaming,
        options.operation_kind() == OperationKind::Streaming,
        sets_the_user(
            as_user.common_operation_options,
            options.common_operation_options,
            credentials,
        ),
        sets_the_leader(
            of_leader.common_operation_options,
            options.common_operation_options,
            requires_leader,
        ),
        sets_the_deadline(
            in_time.common_operation_options,
            options.common_operation_options,
            deadline,
        ),
        as_user.direction == options.direction,
        as_user.position == options.position,
        as_user.resolve_link_tos == options.resolve_link_tos,
        of_leader.direction == options.direction,
        of_leader.position == options.position,
        of_leader.resolve_link_tos == options.resolve_link_tos,
        in_time.direction == options.direction,
        in_time.position == options.position,
        in_time.resolve_link_tos == options.resolve_link_tos,
{
}

/// `ReadAllOptions` have their own common options,
/// are of a command that goes on until it is done with, and
/// can be given a user, a word on the leader, and a deadline, each of which changes nothing else.
pub proof fn law_read_all_options(
    options: ReadAllOptions,
    credentials: Credentials,
    as_user: ReadAllOptions,
    requires_leader: bool,
    of_leader: ReadAllOptions,
    deadline: Duration,
    in_time: ReadAllOptions,
    common: &CommonOperationOptions,
    kind: OperationKind,
)
    requires
        call_ensures(ReadAllOptions::authenticated, (options, credentials), as_user),
        call_ensures(ReadAllOptions::requires_leader, (options, requires_leader), of_leader),
        call_ensures(ReadAllOptions::deadline, (options, deadline), in_time),
        call_ensures(ReadAllOptions::common_operation_options, (&options,), common),
        call_ensures(ReadAllOptions::kind, (&options,), kind),
    ensures
        *common == options.common_operation_options,
        options.common() == options.common_operation_options,
        kind == OperationKind::Streaming,
        options.operation_kind() == OperationKind::Streaming,
        sets_the_user(
            as_user.common_operation_options,
            options.common_operation_options,
            credentials,
        ),
        sets_the_leader(
            of_leader.common_operation_options,
            options.common_operation_options,
            requires_leader,
        ),
        sets_the_deadline(
            in_time.common_operation_options,
            options.common_operation_options,
            deadline,
        ),
        as_user.direction == options.direction,
        as_user.position == options.position,
        as_user.resolve_link_tos == options.resolve_link_tos,
        of_leader.direction == options.direction,
        of_leader.position == options.position,
        of_leader.resolve_link_tos == options.resolve_link_tos,
        in_time.direction == options.direction,
        in_time.position == options.position,
        in_time.resolve_link_tos == options.resolve_link_tos,
{
}

/// `DeleteStreamOptions` have their own common options,
/// are of a command that ends with its answer, and
/// can be given a user, a word on the leader, and a deadline, each of which changes nothing else.
pub proof fn law_delete_stream_options(
    options: DeleteStreamOptions,
    credentials: Credentials,
    as_user: DeleteStreamOptions,
    requires_leader: bool,
    of_leader: DeleteStreamOptions,
    deadline: Duration,
    in_time: DeleteStreamOptions,
    common: &CommonOperationOptions,
    kind: OperationKind,
)
    requires
        call_ensures(DeleteStreamOptions::authenticated, (options, credentials), as_user),
        call_ensures(DeleteStreamOptions::requires_leader, (options, requires_leader), of_leader),
        call_ensures(DeleteStreamOptions::deadline, (options, deadline), in_time),
        call_ensures(DeleteStreamOptions::common_operation_options, (&options,), common),
        call_ensures(DeleteStreamOptions::kind, (&options,), kind),
    ensures
        *common == options.common_operation_options,
        options.common() == options.common_operation_options,
        kind == OperationKind::Regular,
        options.operation_kind() == OperationKind::Regular,
        sets_the_user(
            as_user.common_operation_options,
            options.common_operation_options,
            credentials,
        ),
        sets_the_leader(
            of_leader.common_operation_options,
            options.common_operation_options,
            requires_leader,
        ),
        sets_the_deadline(
            in_time.common_operation_options,
            options.common_operation_options,
            deadline,
        ),
        as_user.version == options.version,
        of_leader.version == options.version,
        in_time.version == options.version,
{
}

/// `TombstoneStreamOptions` have their own common options,
/// are of a command that ends with its answer, and
/// can be given a user, a word on the leader, and a deadline, each of which changes nothing else.
pub proof fn law_tombstone_stream_options(
    options: TombstoneStreamOptions,
    credentials: Credentials,
    as_user: TombstoneStreamOptions,
    requires_leader: bool,
    of_leader: TombstoneStreamOptions,
    deadline: Duration,
    in_time: TombstoneStreamOptions,
    common: &CommonOperationOptions,
    kind: OperationKind,
)
    requires
        call_ensures(TombstoneStreamOptions::authenticated, (options, credentials), as_user),
        call_ensures(
            TombstoneStreamOptions::requires_leader,
            (options, requires_leader),
            of_leader,
        ),
        call_ensures(TombstoneStreamOptions::deadline, (options, deadline), in_time),
        call_ensures(TombstoneStreamOptions::common_operation_options, (&options,), common),
        call_ensures(TombstoneStreamOptions::kind, (&options,), kind),
    ensures
        *common == options.common_operation_options,
        options.common() == options.common_operation_options,
        kind == OperationKind::Regular,
        options.operation_kind() == OperationKind::Regular,
        sets_the_user(
            as_user.common_operation_options,
            options.common_operation_options,
            credentials,
        ),
        sets_the_leader(
            of_leader.common_operation_options,
            options.common_operation_options,
            requires_leader,
        ),
        sets_the_deadline(
            in_time.common_operation_options,
            options.common_operation_options,
            deadline,
        ),
        as_user.version == options.version,
        of_leader.version == options.version,
        in_time.version == options.version,
{
}

/// `SubscribeToStreamOptions` have their own common options,
/// are of a command that goes on until it is done with, and
/// can be given a user, a word on the leader, and a deadline, each of which changes nothing else.
pub proof fn law_subscribe_to_stream_options(
    options: SubscribeToStreamOptions,
    credentials: Credentials,
    as_user: SubscribeToStreamOptions,
    requires_leader: bool,
    of_leader: SubscribeToStreamOptions,
    deadline: Duration,
    in_time: SubscribeToStreamOptions,
    common: &CommonOperationOptions,
    kind: OperationKind,
)
    requires
        call_ensures(SubscribeToStreamOptions::authenticated, (options, credentials), as_user),
        call_ensures(
            SubscribeToStreamOptions::requires_leader,
            (options, requires_leader),
            of_leader,
        ),
        call_ensures(SubscribeToStreamOptions::deadline, (options, deadline), in_time),
        call_ensures(SubscribeToStreamOptions::common_operation_options, (&options,), common),
        call_ensures(SubscribeToStreamOptions::kind, (&options,), kind),
    ensures
        *common == options.common_operation_options,
        options.common() == options.common_operation_options,
        kind == OperationKind::Streaming,
        options.operation_kind() == OperationKind::Streaming,
        sets_the_user(
            as_user.common_operation_options,
            options.common_operation_options,
            credentials,
        ),
        sets_the_leader(
            of_leader.common_operation_options,
            options.common_operation_options,
            requires_leader,
        ),
        sets_the_deadline(
            in_time.common_operation_options,
            options.common_operation_options,
            deadline,
        ),
        as_user.position == options.position,
        as_user.resolve_link_tos == options.resolve_link_tos,
        as_user.retry == options.retry,
        of_leader.position == options.position,
        of_leader.resolve_link_tos == options.resolve_link_tos,
        of_leader.retry == options.retry,
        in_time.position == options.position,
        in_time.resolve_link_tos == options.resolve_link_tos,
        in_time.retry == options.retry,
{
}

/// `SubscribeToAllOptions` have their own common options,
/// are of a command that goes on until it is done with, and
/// can be given a user, a word on the leader, and a deadline, each of which changes nothing else.
pub proof fn law_subscribe_to_all_options(
    options: SubscribeToAllOptions,
    credentials: Credentials,
    as_user: SubscribeToAllOptions,
    requires_leader: bool,
    of_leader: SubscribeToAllOptions,
    deadline: Duration,
    in_time: SubscribeToAllOptions,
    common: &CommonOperationOptions,
    kind: OperationKind,
)
    requires
        call_ensures(SubscribeToAllOptions::authenticated, (options, credentials), as_user),
        call_ensures(SubscribeToAllOptions::requires_leader, (options, requires_leader), of_leader),
        call_ensures(SubscribeToAllOptions::deadline, (options, deadline), in_time),
        call_ensures(SubscribeToAllOptions::common_operation_options, (&options,), common),
        call_ensures(SubscribeToAllOptions::kind, (&options,), kind),
    ensures
        *common == options.common_operation_options,
        options.common() == options.common_operation_options,
        kind == OperationKind::Streaming,
        options.operation_kind() == OperationKind::Streaming,
        sets_the_user(
            as_user.common_operation_options,
            options.common_operation_options,
            credentials,
        ),
        sets_the_leader(
            of_leader.common_operation_options,
            options.common_operation_options,
            requires_leader,
        ),
        sets_the_deadline(
            in_time.common_operation_options,
            options.common_operation_options,
            deadline,
        ),
        as_user.position == options.position,
        as_user.resolve_link_tos == options.resolve_link_tos,
        as_user.filter == options.filter,
        as_user.retry == options.retry,
        of_leader.position == options.position,
        of_leader.resolve_link_tos == options.resolve_link_tos,
        of_leader.filter == options.filter,
        of_leader.retry == options.retry,
        in_time.position == options.position,
        in_time.resolve_link_tos == options.resolve_link_tos,
        in_time.filter == options.filter,
        in_time.retry == options.retry,
{
}

/// `PersistentSubscriptionOptions` have their own common options,
/// are of a command that ends with its answer, and
/// can be given a user, a word on the leader, and a deadline, each of which changes nothing else.
pub proof fn law_persistent_subscription_options(
    options: PersistentSubscriptionOptions,
    credentials: Credentials,
    as_user: PersistentSubscriptionOptions,
    requires_leader: bool,
    of_leader: PersistentSubscriptionOptions,
    deadline: Duration,
    in_time: PersistentSubscriptionOptions,
    common: &CommonOperationOptions,
    kind: OperationKind,
)
    requires
        call_ensures(PersistentSubscriptionOptions::authenticated, (options, credentials), as_user),
        call_ensures(
            PersistentSubscriptionOptions::requires_leader,
            (options, requires_leader),
            of_leader,
        ),
        call_ensures(PersistentSubscriptionOptions::deadline, (options, deadline), in_time),
        call_ensures(PersistentSubscriptionOptions::common_operation_options, (&options,), common),
        call_ensures(PersistentSubscriptionOptions::kind, (&options,), kind),
    ensures
        *common == options.common_operation_options,
        options.common() == options.common_operation_options,
        kind == OperationKind::Regular,
        options.operation_kind() == OperationKind::Regular,
        sets_the_user(
            as_user.common_operation_options,
            options.common_operation_options,
            credentials,
        ),
        sets_the_leader(
            of_leader.common_operation_options,
            options.common_operation_options,
            requires_leader,
        ),
        sets_the_deadline(
            in_time.common_operation_options,
            options.common_operation_options,
            deadline,
        ),
        as_user.setts == options.setts,
        of_leader.setts == options.setts,
        in_time.setts == options.setts,
{
}

/// `PersistentSubscriptionToAllOptions` have their own common options,
/// are of a command that ends with its answer, and
/// can be given a user, a word on the leader, and a deadline, each of which changes nothing else.
pub proof fn law_persistent_subscription_to_all_options(
    options: PersistentSubscriptionToAllOptions,
    credentials: Credentials,
    as_user: PersistentSubscriptionToAllOptions,
    requires_leader: bool,
    of_leader: PersistentSubscriptionToAllOptions,
    deadline: Duration,
    in_time: PersistentSubscriptionToAllOptions,
    common: &CommonOperationOptions,
    kind: OperationKind,
)
    requires
        call_ensures(
            PersistentSubscriptionToAllOptions::authenticated,
            (options, credentials),
            as_user,
        ),
        call_ensures(
            PersistentSubscriptionToAllOptions::requires_leader,
            (options, requires_leader),
            of_leader,
        ),
        call_ensures(PersistentSubscriptionToAllOptions::deadline, (options, deadline), in_time),
        call_ensures(
            PersistentSubscriptionToAllOptions::common_operation_options,
            (&options,),
            common,
        ),
        call_ensures(PersistentSubscriptionToAllOptions::kind, (&options,), kind),
    ensures
        *common == options.common_operation_options,
        options.common() == options.common_operation_options,
        kind == OperationKind::Regular,
        options.operation_kind() == OperationKind::Regular,
        sets_the_user(
            as_user.common_operation_options,
            options.common_operation_options,
            credentials,
        ),
        sets_the_leader(
            of_leader.common_operation_options,
            options.common_operation_options,
            requires_leader,
        ),
        sets_the_deadline(
            in_time.common_operation_options,
            options.common_operation_options,
            deadline,
        ),
        as_user.setts == options.setts,
        as_user.filter == options.filter,
        of_leader.setts == options.setts,
        of_leader.filter == options.filter,
        in_time.setts == options.setts,
        in_time.filter == options.filter,
{
}

/// `DeletePersistentSubscriptionOptions` have their own common options,
/// are of a command that ends with its answer, and
/// can be given a user, a word on the leader, and a deadline, each of which changes nothing else.
pub proof fn law_delete_persistent_subscription_options(
    options: DeletePersistentSubscriptionOptions,
    credentials: Credentials,
    as_user: DeletePersistentSubscriptionOptions,
    requires_leader: bool,
    of_leader: DeletePersistentSubscriptionOptions,
    deadline: Duration,
    in_time: DeletePersistentSubscriptionOptions,
    common: &CommonOperationOptions,
    kind: OperationKind,
)
    requires
        call_ensures(
            DeletePersistentSubscriptionOptions::authenticated,
            (options, credentials),
            as_user,
        ),
        call_ensures(
            DeletePersistentSubscriptionOptions::requires_leader,
            (options, requires_leader),
            of_leader,
        ),
        call_ensures(DeletePersistentSubscriptionOptions::deadline, (options, deadline), in_time),
        call_ensures(
            DeletePersistentSubscriptionOptions::common_operation_options,
            (&options,),
            common,
        ),
        call_ensures(DeletePersistentSubscriptionOptions::kind, (&options,), kind),
    ensures
        *common == options.common_operation_options,
        options.common() == options.common_operation_options,
        kind == OperationKind::Regular,
        options.operation_kind() == OperationKind::Regular,
        sets_the_user(
            as_user.common_operation_options,
            options.common_operation_options,
            credentials,
        ),
        sets_the_leader(
            of_leader.common_operation_options,
            options.common_operation_options,
            requires_leader,
        ),
        sets_the_deadline(
            in_time.common_operation_options,
            options.common_operation_options,
            deadline,
        ),
{
}

/// `SubscribeToPersistentSubscriptionOptions` have their own common options,
/// are of a command that goes on until it is done with, and
/// can be given a user, a word on the leader, and a deadline, each of which changes nothing else.
pub proof fn law_subscribe_to_persistent_subscription_options(
    options: SubscribeToPersistentSubscriptionOptions,
    credentials: Credentials,
    as_user: SubscribeToPersistentSubscriptionOptions,
    requires_leader: bool,
    of_leader: SubscribeToPersistentSubscriptionOptions,
    deadline: Duration,
    in_time: SubscribeToPersistentSubscriptionOptions,
    common: &CommonOperationOptions,
    kind: OperationKind,
)
    requires
        call_ensures(
            SubscribeToPersistentSubscriptionOptions::authenticated,
            (options, credentials),
            as_user,
        ),
        call_ensures(
            SubscribeToPersistentSubscriptionOptions::requires_leader,
            (options, requires_leader),
            of_leader,
        ),
        call_ensures(
            SubscribeToPersistentSubscriptionOptions::deadline,
            (options, deadline),
            in_time,
        ),
        call_ensures(
            SubscribeToPersistentSubscriptionOptions::common_operation_options,
            (&options,),
            common,
        ),
        call_ensures(SubscribeToPersistentSubscriptionOptions::kind, (&options,), kind),
    ensures
        *common == options.common_operation_options,
        options.common() == options.common_operation_options,
        kind == OperationKind::Streaming,
        options.operation_kind() == OperationKind::Streaming,
        sets_the_user(
            as_user.common_operation_options,
            options.common_operation_options,
            credentials,
        ),
        sets_the_leader(
            of_leader.common_operation_options,
            options.common_operation_options,
            requires_leader,
        ),
        sets_the_deadline(
            in_time.common_operation_options,
            options.common_operation_options,
            deadline,
        ),
        as_user.buffer_size == options.buffer_size,
        of_leader.buffer_size == options.buffer_size,
        in_time.buffer_size == options.buffer_size,
{
}

/// `ListPersistentSubscriptionsOptions` have their own common options,
/// are of a command that ends with its answer, and
/// can be given a user, a word on the leader, and a deadline, each of which changes nothing else.
pub proof fn law_list_persistent_subscriptions_options(
    options: ListPersistentSubscriptionsOptions,
    credentials: Credentials,
    as_user: ListPersistentSubscriptionsOptions,
    requires_leader: bool,
    of_leader: ListPersistentSubscriptionsOptions,
    deadline: Duration,
    in_time: ListPersistentSubscriptionsOptions,
    common: &CommonOperationOptions,
    kind: OperationKind,
)
    requires
        call_ensures(
            ListPersistentSubscriptionsOptions::authenticated,
            (options, credentials),
            as_user,
        ),
        call_ensures(
            ListPersistentSubscriptionsOptions::requires_leader,
            (options, requires_leader),
            of_leader,
        ),
        call_ensures(ListPersistentSubscriptionsOptions::deadline, (options, deadline), in_time),
        call_ensures(
            ListPersistentSubscriptionsOptions::common_operation_options,
            (&options,),
            common,
        ),
        call_ensures(ListPersistentSubscriptionsOptions::kind, (&options,), kind),
    ensures
        *common == options.common_operation_options,
        options.common() == options.common_operation_options,
        kind == OperationKind::Regular,
        options.operation_kind() == OperationKind::Regular,
        sets_the_user(
            as_user.common_operation_options,
            options.common_operation_options,
            credentials,
        ),
        sets_the_leader(
            of_leader.common_operation_options,
            options.common_operation_options,
            requires_leader,
        ),
        sets_the_deadline(
            in_time.common_operation_options,
            options.common_operation_options,
            deadline,
        ),
{
}

/// `GetPersistentSubscriptionInfoOptions` have their own common options,
/// are of a command that ends with its answer, and
/// can be given a user, a word on the leader, and a deadline, each of which changes nothing else.
pub proof fn law_get_persistent_subscription_info_options(
    options: GetPersistentSubscriptionInfoOptions,
    credentials: Credentials,
    as_user: GetPersistentSubscriptionInfoOptions,
    requires_leader: bool,
    of_leader: GetPersistentSubscriptionInfoOptions,
    deadline: Duration,
    in_time: GetPersistentSubscriptionInfoOptions,
    common: &CommonOperationOptions,
    kind: OperationKind,
)
    requires
        call_ensures(
            GetPersistentSubscriptionInfoOptions::authenticated,
            (options, credentials),
            as_user,
        ),
        call_ensures(
            GetPersistentSubscriptionInfoOptions::requires_leader,
            (options, requires_leader),
            of_leader,
        ),
        call_ensures(GetPersistentSubscriptionInfoOptions::deadline, (options, deadline), in_time),
        call_ensures(
            GetPersistentSubscriptionInfoOptions::common_operation_options,
            (&options,),
            common,
        ),
        call_ensures(GetPersistentSubscriptionInfoOptions::kind, (&options,), kind),
    ensures
        *common == options.common_operation_options,
        options.common() == options.common_operation_options,
        kind == OperationKind::Regular,
        options.operation_kind() == OperationKind::Regular,
        sets_the_user(
            as_user.common_operation_options,
            options.common_operation_options,
            credentials,
        ),
        sets_the_leader(
            of_leader.common_operation_options,
            options.common_operation_options,
            requires_leader,
        ),
        sets_the_deadline(
            in_time.common_operation_options,
            options.common_operation_options,
            deadline,
        ),
{
}

/// `ReplayParkedMessagesOptions` have their own common options,
/// are of a command that ends with its answer, and
/// can be given a user, a word on the leader, and a deadline, each of which changes nothing else.
pub proof fn law_replay_parked_messages_options(
    options: ReplayParkedMessagesOptions,
    credentials: Credentials,
    as_user: ReplayParkedMessagesOptions,
    requires_leader: bool,
    of_leader: ReplayParkedMessagesOptions,
    deadline: Duration,
    in_time: ReplayParkedMessagesOptions,
    common: &CommonOperationOptions,
    kind: OperationKind,
)
    requires
        call_ensures(ReplayParkedMessagesOptions::authenticated, (options, credentials), as_user),
        call_ensures(
            ReplayParkedMessagesOptions::requires_leader,
            (options, requires_leader),
            of_leader,
        ),
        call_ensures(ReplayParkedMessagesOptions::deadline, (options, deadline), in_time),
        call_ensures(ReplayParkedMessagesOptions::common_operation_options, (&options,), common),
        call_ensures(ReplayParkedMessagesOptions::kind, (&options,), kind),
    ensures
        *common == options.common_operation_options,
        options.common() == options.common_operation_options,
        kind == OperationKind::Regular,
        options.operation_kind() == OperationKind::Regular,
        sets_the_user(
            as_user.common_operation_options,
            options.common_operation_options,
            credentials,
        ),
        sets_the_leader(
            of_leader.common_operation_options,
            options.common_operation_options,
            requires_leader,
        ),
        sets_the_deadline(
            in_time.common_operation_options,
            options.common_operation_options,
            deadline,
        ),
        as_user.stop_at == options.stop_at,
        of_leader.stop_at == options.stop_at,
        in_time.stop_at == options.stop_at,
{
}

/// `RestartPersistentSubscriptionSubsystem` have their own common options,
/// are of a command that ends with its answer, and
/// can be given a user, a word on the leader, and a deadline, each of which changes nothing else.
pub proof fn law_restart_persistent_subscription_subsystem(
    options: RestartPersistentSubscriptionSubsystem,
    credentials: Credentials,
    as_user: RestartPersistentSubscriptionSubsystem,
    requires_leader: bool,
    of_leader: RestartPersistentSubscriptionSubsystem,
    deadline: Duration,
    in_time: RestartPersistentSubscriptionSubsystem,
    common: &CommonOperationOptions,
    kind: OperationKind,
)
    requires
        call_ensures(
            RestartPersistentSubscriptionSubsystem::authenticated,
            (options, credentials),
            as_user,
        ),
        call_ensures(
            RestartPersistentSubscriptionSubsystem::requires_leader,
            (options, requires_leader),
            of_leader,
        ),
        call_ensures(
            RestartPersistentSubscriptionSubsystem::deadline,
            (options, deadline),
            in_time,
        ),
        call_ensures(
            RestartPersistentSubscriptionSubsystem::common_operation_options,
            (&options,),
            common,
        ),
        call_ensures(RestartPersistentSubscriptionSubsystem::kind, (&options,), kind),
    ensures
        *common == options.common_operation_options,
        options.common() == options.common_operation_options,
        kind == OperationKind::Regular,
        options.operation_kind() == OperationKind::Regular,
        sets_the_user(
            as_user.common_operation_options,
            options.common_operation_options,
            credentials,
        ),
        sets_the_leader(
            of_leader.common_operation_options,
            options.common_operation_options,
            requires_leader,
        ),
        sets_the_deadline(
            in_time.common_operation_options,
            options.common_operation_options,
            deadline,
        ),
{
}

} // verus!
