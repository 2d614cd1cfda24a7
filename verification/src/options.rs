//! Options that commands take.
use crate::settings::Credentials;
use crate::time::Duration;
use crate::types::{
    ExpectedRevision, PersistentSubscriptionSettings, Position, ReadDirection, RetryOptions,
    StreamPosition, SubscriptionFilter,
};
use crate::wire::streams::ExpectedStreamRevision;
use vstd::prelude::*;

verus! {

/// What every command can be asked for.
pub struct CommonOperationOptions {
    pub credentials: Option<Credentials>,
    pub requires_leader: bool,
    pub deadline: Option<Duration>,
}

impl Default for CommonOperationOptions {
    fn default() -> (r: Self)
        ensures
            r == (CommonOperationOptions {
                credentials: None,
                requires_leader: true,
                deadline: None,
            }),
    {
        CommonOperationOptions { credentials: None, requires_leader: true, deadline: None }
    }
}

/// Whether a command is over with its answer, or goes on for as long as it is wanted.
#[derive(Clone, Copy, Debug, PartialEq, Eq, Structural)]
pub enum OperationKind {
    Regular,
    Streaming,
}

/// The options of one command.
pub trait Options {
    /// The options that every command has.
    spec fn common(&self) -> CommonOperationOptions;

    /// The kind of the command.
    spec fn operation_kind(&self) -> OperationKind;

    fn common_operation_options(&self) -> (r: &CommonOperationOptions)
        ensures
            *r == self.common(),
    ;

    fn kind(&self) -> (r: OperationKind)
        ensures
            r == self.operation_kind(),
    ;
}

/// Options of an append.
pub struct AppendToStreamOptions {
    pub version: ExpectedStreamRevision,
    pub common_operation_options: CommonOperationOptions,
}

impl Options for AppendToStreamOptions {
    open spec fn common(&self) -> CommonOperationOptions {
        self.common_operation_options
    }

    open spec fn operation_kind(&self) -> OperationKind {
        OperationKind::Regular
    }

    fn common_operation_options(&self) -> (r: &CommonOperationOptions) {
        &self.common_operation_options
    }

    fn kind(&self) -> (r: OperationKind) {
        OperationKind::Regular
    }
}

impl AppendToStreamOptions {
    /// Performs the command with the given credentials.
    pub fn authenticated(self, credentials: Credentials) -> (r: Self)
        ensures
            r == (AppendToStreamOptions {
                common_operation_options: CommonOperationOptions {
                    credentials: Some(credentials),
                    ..self.common_operation_options
                },
                ..self
            }),
    {
        let mut options = self;
        options.common_operation_options.credentials = Some(credentials);
        options
    }

    /// Says whether only the leader of the cluster may perform the command.
    pub fn requires_leader(self, requires_leader: bool) -> (r: Self)
        ensures
            r == (AppendToStreamOptions {
                common_operation_options: CommonOperationOptions {
                    requires_leader,
                    ..self.common_operation_options
                },
                ..self
            }),
    {
        let mut options = self;
        options.common_operation_options.requires_leader = requires_leader;
        options
    }

    /// Limits how long the command may take.
    pub fn deadline(self, deadline: Duration) -> (r: Self)
        ensures
            r == (AppendToStreamOptions {
                common_operation_options: CommonOperationOptions {
                    deadline: Some(deadline),
                    ..self.common_operation_options
                },
                ..self
            }),
    {
        let mut options = self;
        options.common_operation_options.deadline = Some(deadline);
        options
    }
}

/// Options of appending in batches.
pub struct BatchAppendOptions {
    pub common_operation_options: CommonOperationOptions,
}

impl Options for BatchAppendOptions {
    open spec fn common(&self) -> CommonOperationOptions {
        self.common_operation_options
    }

    open spec fn operation_kind(&self) -> OperationKind {
        OperationKind::Streaming
    }

    fn common_operation_options(&self) -> (r: &CommonOperationOptions) {
        &self.common_operation_options
    }

    fn kind(&self) -> (r: OperationKind) {
        OperationKind::Streaming
    }
}

impl BatchAppendOptions {
    /// Performs the command with the given credentials.
    pub fn authenticated(self, credentials: Credentials) -> (r: Self)
        ensures
            r == (BatchAppendOptions {
                common_operation_options: CommonOperationOptions {
                    credentials: Some(credentials),
                    ..self.common_operation_options
                },
                ..self
            }),
    {
        let mut options = self;
        options.common_operation_options.credentials = Some(credentials);
        options
    }

    /// Says whether only the leader of the cluster may perform the command.
    pub fn requires_leader(self, requires_leader: bool) -> (r: Self)
        ensures
            r == (BatchAppendOptions {
                common_operation_options: CommonOperationOptions {
                    requires_leader,
                    ..self.common_operation_options
                },
                ..self
            }),
    {
        let mut options = self;
        options.common_operation_options.requires_leader = requires_leader;
        options
    }

    /// Limits how long the command may take.
    pub fn deadline(self, deadline: Duration) -> (r: Self)
        ensures
            r == (BatchAppendOptions {
                common_operation_options: CommonOperationOptions {
                    deadline: Some(deadline),
                    ..self.common_operation_options
                },
                ..self
            }),
    {
        let mut options = self;
        options.common_operation_options.deadline = Some(deadline);
        options
    }
}

/// Options of reading a stream.
pub struct ReadStreamOptions {
    pub direction: ReadDirection,
    pub position: StreamPosition<u64>,
    pub resolve_link_tos: bool,
    pub common_operation_options: CommonOperationOptions,
}

impl Options for ReadStreamOptions {
    open spec fn common(&self) -> CommonOperationOptions {
        self.common_operation_options
    }

    open spec fn operation_kind(&self) -> OperationKind {
        OperationKind::Streaming
    }

    fn common_operation_options(&self) -> (r: &CommonOperationOptions) {
        &self.common_operation_options
    }

    fn kind(&self) -> (r: OperationKind) {
        OperationKind::Streaming
    }
}

impl ReadStreamOptions {
    /// Performs the command with the given credentials.
    pub fn authenticated(self, credentials: Credentials) -> (r: Self)
        ensures
            r == (ReadStreamOptions {
                common_operation_options: CommonOperationOptions {
                    credentials: Some(credentials),
                    ..self.common_operation_options
                },
                ..self
            }),
    {
        let mut options = self;
        options.common_operation_options.credentials = Some(credentials);
        options
    }

    /// Says whether only the leader of the cluster may perform the command.
    pub fn requires_leader(self, requires_leader: bool) -> (r: Self)
        ensures
            r == (ReadStreamOptions {
                common_operation_options: CommonOperationOptions {
                    requires_leader,
                    ..self.common_operation_options
                },
                ..self
            }),
    {
        let mut options = self;
        options.common_operation_options.requires_leader = requires_leader;
        options
    }

    /// Limits how long the command may take.
    pub fn deadline(self, deadline: Duration) -> (r: Self)
        ensures
            r == (ReadStreamOptions {
                common_operation_options: CommonOperationOptions {
                    deadline: Some(deadline),
                    ..self.common_operation_options
                },
                ..self
            }),
    {
        let mut options = self;
        options.common_operation_options.deadline = Some(deadline);
        options
    }
}

/// Options of reading `$all`.
pub struct ReadAllOptions {
    pub direction: ReadDirection,
    pub position: StreamPosition<Position>,
    pub resolve_link_tos: bool,
    pub common_operation_options: CommonOperationOptions,
}

impl Options for ReadAllOptions {
    open spec fn common(&self) -> CommonOperationOptions {
        self.common_operation_options
    }

    open spec fn operation_kind(&self) -> OperationKind {
        OperationKind::Streaming
    }

    fn common_operation_options(&self) -> (r: &CommonOperationOptions) {
        &self.common_operation_options
    }

    fn kind(&self) -> (r: OperationKind) {
        OperationKind::Streaming
    }
}

impl ReadAllOptions {
    /// Performs the command with the given credentials.
    pub fn authenticated(self, credentials: Credentials) -> (r: Self)
        ensures
            r == (ReadAllOptions {
                common_operation_options: CommonOperationOptions {
                    credentials: Some(credentials),
                    ..self.common_operation_options
                },
                ..self
            }),
    {
        let mut options = self;
        options.common_operation_options.credentials = Some(credentials);
        options
    }

    /// Says whether only the leader of the cluster may perform the command.
    pub fn requires_leader(self, requires_leader: bool) -> (r: Self)
        ensures
            r == (ReadAllOptions {
                common_operation_options: CommonOperationOptions {
                    requires_leader,
                    ..self.common_operation_options
                },
                ..self
            }),
    {
        let mut options = self;
        options.common_operation_options.requires_leader = requires_leader;
        options
    }

    /// Limits how long the command may take.
    pub fn deadline(self, deadline: Duration) -> (r: Self)
        ensures
            r == (ReadAllOptions {
                common_operation_options: CommonOperationOptions {
                    deadline: Some(deadline),
                    ..self.common_operation_options
                },
                ..self
            }),
    {
        let mut options = self;
        options.common_operation_options.deadline = Some(deadline);
        options
    }
}

/// Options of deleting a stream.
pub struct DeleteStreamOptions {
    pub version: ExpectedRevision,
    pub common_operation_options: CommonOperationOptions,
}

impl Options for DeleteStreamOptions {
    open spec fn common(&self) -> CommonOperationOptions {
        self.common_operation_options
    }

    open spec fn operation_kind(&self) -> OperationKind {
        OperationKind::Regular
    }

    fn common_operation_options(&self) -> (r: &CommonOperationOptions) {
        &self.common_operation_options
    }

    fn kind(&self) -> (r: OperationKind) {
        OperationKind::Regular
    }
}

impl DeleteStreamOptions {
    /// Performs the command with the given credentials.
    pub fn authenticated(self, credentials: Credentials) -> (r: Self)
        ensures
            r == (DeleteStreamOptions {
                common_operation_options: CommonOperationOptions {
                    credentials: Some(credentials),
                    ..self.common_operation_options
                },
                ..self
            }),
    {
        let mut options = self;
        options.common_operation_options.credentials = Some(credentials);
        options
    }

    /// Says whether only the leader of the cluster may perform the command.
    pub fn requires_leader(self, requires_leader: bool) -> (r: Self)
        ensures
            r == (DeleteStreamOptions {
                common_operation_options: CommonOperationOptions {
                    requires_leader,
                    ..self.common_operation_options
                },
                ..self
            }),
    {
        let mut options = self;
        options.common_operation_options.requires_leader = requires_leader;
        options
    }

    /// Limits how long the command may take.
    pub fn deadline(self, deadline: Duration) -> (r: Self)
        ensures
            r == (DeleteStreamOptions {
                common_operation_options: CommonOperationOptions {
                    deadline: Some(deadline),
                    ..self.common_operation_options
                },
                ..self
            }),
    {
        let mut options = self;
        options.common_operation_options.deadline = Some(deadline);
        options
    }
}

/// Options of deleting a stream for good.
pub struct TombstoneStreamOptions {
    pub version: ExpectedRevision,
    pub common_operation_options: CommonOperationOptions,
}

impl Options for TombstoneStreamOptions {
    open spec fn common(&self) -> CommonOperationOptions {
        self.common_operation_options
    }

    open spec fn operation_kind(&self) -> OperationKind {
        OperationKind::Regular
    }

    fn common_operation_options(&self) -> (r: &CommonOperationOptions) {
        &self.common_operation_options
    }

    fn kind(&self) -> (r: OperationKind) {
        OperationKind::Regular
    }
}

impl TombstoneStreamOptions {
    /// Performs the command with the given credentials.
    pub fn authenticated(self, credentials: Credentials) -> (r: Self)
        ensures
            r == (TombstoneStreamOptions {
                common_operation_options: CommonOperationOptions {
                    credentials: Some(credentials),
                    ..self.common_operation_options
                },
                ..self
            }),
    {
        let mut options = self;
        options.common_operation_options.credentials = Some(credentials);
        options
    }

    /// Says whether only the leader of the cluster may perform the command.
    pub fn requires_leader(self, requires_leader: bool) -> (r: Self)
        ensures
            r == (TombstoneStreamOptions {
                common_operation_options: CommonOperationOptions {
                    requires_leader,
                    ..self.common_operation_options
                },
                ..self
            }),
    {
        let mut options = self;
        options.common_operation_options.requires_leader = requires_leader;
        options
    }

    /// Limits how long the command may take.
    pub fn deadline(self, deadline: Duration) -> (r: Self)
        ensures
            r == (TombstoneStreamOptions {
                common_operation_options: CommonOperationOptions {
                    deadline: Some(deadline),
                    ..self.common_operation_options
                },
                ..self
            }),
    {
        let mut options = self;
        options.common_operation_options.deadline = Some(deadline);
        options
    }
}

/// Options of a subscription to a stream.
pub struct SubscribeToStreamOptions {
    pub position: StreamPosition<u64>,
    pub resolve_link_tos: bool,
    pub retry: Option<RetryOptions>,
    pub common_operation_options: CommonOperationOptions,
}

impl Options for SubscribeToStreamOptions {
    open spec fn common(&self) -> CommonOperationOptions {
        self.common_operation_options
    }

    open spec fn operation_kind(&self) -> OperationKind {
        OperationKind::Streaming
    }

    fn common_operation_options(&self) -> (r: &CommonOperationOptions) {
        &self.common_operation_options
    }

    fn kind(&self) -> (r: OperationKind) {
        OperationKind::Streaming
    }
}

impl SubscribeToStreamOptions {
    /// Performs the command with the given credentials.
    pub fn authenticated(self, credentials: Credentials) -> (r: Self)
        ensures
            r == (SubscribeToStreamOptions {
                common_operation_options: CommonOperationOptions {
                    credentials: Some(credentials),
                    ..self.common_operation_options
                },
                ..self
            }),
    {
        let mut options = self;
        options.common_operation_options.credentials = Some(credentials);
        options
    }

    /// Says whether only the leader of the cluster may perform the command.
    pub fn requires_leader(self, requires_leader: bool) -> (r: Self)
        ensures
            r == (SubscribeToStreamOptions {
                common_operation_options: CommonOperationOptions {
                    requires_leader,
                    ..self.common_operation_options
                },
                ..self
            }),
    {
        let mut options = self;
        options.common_operation_options.requires_leader = requires_leader;
        options
    }

    /// Limits how long the command may take.
    pub fn deadline(self, deadline: Duration) -> (r: Self)
        ensures
            r == (SubscribeToStreamOptions {
                common_operation_options: CommonOperationOptions {
                    deadline: Some(deadline),
                    ..self.common_operation_options
                },
                ..self
            }),
    {
        let mut options = self;
        options.common_operation_options.deadline = Some(deadline);
        options
    }
}

/// Options of a subscription to `$all`.
pub struct SubscribeToAllOptions {
    pub position: StreamPosition<Position>,
    pub resolve_link_tos: bool,
    pub filter: Option<SubscriptionFilter>,
    pub retry: Option<RetryOptions>,
    pub common_operation_options: CommonOperationOptions,
}

impl Options for SubscribeToAllOptions {
    open spec fn common(&self) -> CommonOperationOptions {
        self.common_operation_options
    }

    open spec fn operation_kind(&self) -> OperationKind {
        OperationKind::Streaming
    }

    fn common_operation_options(&self) -> (r: &CommonOperationOptions) {
        &self.common_operation_options
    }

    fn kind(&self) -> (r: OperationKind) {
        OperationKind::Streaming
    }
}

impl SubscribeToAllOptions {
    /// Performs the command with the given credentials.
    pub fn authenticated(self, credentials: Credentials) -> (r: Self)
        ensures
            r == (SubscribeToAllOptions {
                common_operation_options: CommonOperationOptions {
                    credentials: Some(credentials),
                    ..self.common_operation_options
                },
                ..self
            }),
    {
        let mut options = self;
        options.common_operation_options.credentials = Some(credentials);
        options
    }

    /// Says whether only the leader of the cluster may perform the command.
    pub fn requires_leader(self, requires_leader: bool) -> (r: Self)
        ensures
            r == (SubscribeToAllOptions {
                common_operation_options: CommonOperationOptions {
                    requires_leader,
                    ..self.common_operation_options
                },
                ..self
            }),
    {
        let mut options = self;
        options.common_operation_options.requires_leader = requires_leader;
        options
    }

    /// Limits how long the command may take.
    pub fn deadline(self, deadline: Duration) -> (r: Self)
        ensures
            r == (SubscribeToAllOptions {
                common_operation_options: CommonOperationOptions {
                    deadline: Some(deadline),
                    ..self.common_operation_options
                },
                ..self
            }),
    {
        let mut options = self;
        options.common_operation_options.deadline = Some(deadline);
        options
    }
}

/// Options of a persistent subscription to a stream.
pub struct PersistentSubscriptionOptions {
    pub setts: PersistentSubscriptionSettings<u64>,
    pub common_operation_options: CommonOperationOptions,
}

impl Options for PersistentSubscriptionOptions {
    open spec fn common(&self) -> CommonOperationOptions {
        self.common_operation_options
    }

    open spec fn operation_kind(&self) -> OperationKind {
        OperationKind::Regular
    }

    fn common_operation_options(&self) -> (r: &CommonOperationOptions) {
        &self.common_operation_options
    }

    fn kind(&self) -> (r: OperationKind) {
        OperationKind::Regular
    }
}

impl PersistentSubscriptionOptions {
    /// Performs the command with the given credentials.
    pub fn authenticated(self, credentials: Credentials) -> (r: Self)
        ensures
            r == (PersistentSubscriptionOptions {
                common_operation_options: CommonOperationOptions {
                    credentials: Some(credentials),
                    ..self.common_operation_options
                },
                ..self
            }),
    {
        let mut options = self;
        options.common_operation_options.credentials = Some(credentials);
        options
    }

    /// Says whether only the leader of the cluster may perform the command.
    pub fn requires_leader(self, requires_leader: bool) -> (r: Self)
        ensures
            r == (PersistentSubscriptionOptions {
                common_operation_options: CommonOperationOptions {
                    requires_leader,
                    ..self.common_operation_options
                },
                ..self
            }),
    {
        let mut options = self;
        options.common_operation_options.requires_leader = requires_leader;
        options
    }

    /// Limits how long the command may take.
    pub fn deadline(self, deadline: Duration) -> (r: Self)
        ensures
            r == (PersistentSubscriptionOptions {
                common_operation_options: CommonOperationOptions {
                    deadline: Some(deadline),
                    ..self.common_operation_options
                },
                ..self
            }),
    {
        let mut options = self;
        options.common_operation_options.deadline = Some(deadline);
        options
    }
}

/// Options of a persistent subscription to `$all`.
pub struct PersistentSubscriptionToAllOptions {
    pub setts: PersistentSubscriptionSettings<Position>,
    pub filter: Option<SubscriptionFilter>,
    pub common_operation_options: CommonOperationOptions,
}

impl Options for PersistentSubscriptionToAllOptions {
    open spec fn common(&self) -> CommonOperationOptions {
        self.common_operation_options
    }

    open spec fn operation_kind(&self) -> OperationKind {
        OperationKind::Regular
    }

    fn common_operation_options(&self) -> (r: &CommonOperationOptions) {
        &self.common_operation_options
    }

    fn kind(&self) -> (r: OperationKind) {
        OperationKind::Regular
    }
}

impl PersistentSubscriptionToAllOptions {
    /// Performs the command with the given credentials.
    pub fn authenticated(self, credentials: Credentials) -> (r: Self)
        ensures
            r == (PersistentSubscriptionToAllOptions {
                common_operation_options: CommonOperationOptions {
                    credentials: Some(credentials),
                    ..self.common_operation_options
                },
                ..self
            }),
    {
        let mut options = self;
        options.common_operation_options.credentials = Some(credentials);
        options
    }

    /// Says whether only the leader of the cluster may perform the command.
    pub fn requires_leader(self, requires_leader: bool) -> (r: Self)
        ensures
            r == (PersistentSubscriptionToAllOptions {
                common_operation_options: CommonOperationOptions {
                    requires_leader,
                    ..self.common_operation_options
                },
                ..self
            }),
    {
        let mut options = self;
        options.common_operation_options.requires_leader = requires_leader;
        options
    }

    /// Limits how long the command may take.
    pub fn deadline(self, deadline: Duration) -> (r: Self)
        ensures
            r == (PersistentSubscriptionToAllOptions {
                common_operation_options: CommonOperationOptions {
                    deadline: Some(deadline),
                    ..self.common_operation_options
                },
                ..self
            }),
    {
        let mut options = self;
        options.common_operation_options.deadline = Some(deadline);
        options
    }
}

/// Options of deleting a persistent subscription.
pub struct DeletePersistentSubscriptionOptions {
    pub common_operation_options: CommonOperationOptions,
}

impl Options for DeletePersistentSubscriptionOptions {
    open spec fn common(&self) -> CommonOperationOptions {
        self.common_operation_options
    }

    open spec fn operation_kind(&self) -> OperationKind {
        OperationKind::Regular
    }

    fn common_operation_options(&self) -> (r: &CommonOperationOptions) {
        &self.common_operation_options
    }

    fn kind(&self) -> (r: OperationKind) {
        OperationKind::Regular
    }
}

impl DeletePersistentSubscriptionOptions {
    /// Performs the command with the given credentials.
    pub fn authenticated(self, credentials: Credentials) -> (r: Self)
        ensures
            r == (DeletePersistentSubscriptionOptions {
                common_operation_options: CommonOperationOptions {
                    credentials: Some(credentials),
                    ..self.common_operation_options
                },
                ..self
            }),
    {
        let mut options = self;
        options.common_operation_options.credentials = Some(credentials);
        options
    }

    /// Says whether only the leader of the cluster may perform the command.
    pub fn requires_leader(self, requires_leader: bool) -> (r: Self)
        ensures
            r == (DeletePersistentSubscriptionOptions {
                common_operation_options: CommonOperationOptions {
                    requires_leader,
                    ..self.common_operation_options
                },
                ..self
            }),
    {
        let mut options = self;
        options.common_operation_options.requires_leader = requires_leader;
        options
    }

    /// Limits how long the command may take.
    pub fn deadline(self, deadline: Duration) -> (r: Self)
        ensures
            r == (DeletePersistentSubscriptionOptions {
                common_operation_options: CommonOperationOptions {
                    deadline: Some(deadline),
                    ..self.common_operation_options
                },
                ..self
            }),
    {
        let mut options = self;
        options.common_operation_options.deadline = Some(deadline);
        options
    }
}

/// Options of consuming a persistent subscription.
pub struct SubscribeToPersistentSubscriptionOptions {
    pub buffer_size: usize,
    pub common_operation_options: CommonOperationOptions,
}

impl Options for SubscribeToPersistentSubscriptionOptions {
    open spec fn common(&self) -> CommonOperationOptions {
        self.common_operation_options
    }

    open spec fn operation_kind(&self) -> OperationKind {
        OperationKind::Streaming
    }

    fn common_operation_options(&self) -> (r: &CommonOperationOptions) {
        &self.common_operation_options
    }

    fn kind(&self) -> (r: OperationKind) {
        OperationKind::Streaming
    }
}

impl SubscribeToPersistentSubscriptionOptions {
    /// Performs the command with the given credentials.
    pub fn authenticated(self, credentials: Credentials) -> (r: Self)
        ensures
            r == (SubscribeToPersistentSubscriptionOptions {
                common_operation_options: CommonOperationOptions {
                    credentials: Some(credentials),
                    ..self.common_operation_options
                },
                ..self
            }),
    {
        let mut options = self;
        options.common_operation_options.credentials = Some(credentials);
        options
    }

    /// Says whether only the leader of the cluster may perform the command.
    pub fn requires_leader(self, requires_leader: bool) -> (r: Self)
        ensures
            r == (SubscribeToPersistentSubscriptionOptions {
                common_operation_options: CommonOperationOptions {
                    requires_leader,
                    ..self.common_operation_options
                },
                ..self
            }),
    {
        let mut options = self;
        options.common_operation_options.requires_leader = requires_leader;
        options
    }

    /// Limits how long the command may take.
    pub fn deadline(self, deadline: Duration) -> (r: Self)
        ensures
            r == (SubscribeToPersistentSubscriptionOptions {
                common_operation_options: CommonOperationOptions {
                    deadline: Some(deadline),
                    ..self.common_operation_options
                },
                ..self
            }),
    {
        let mut options = self;
        options.common_operation_options.deadline = Some(deadline);
        options
    }
}

/// Options of listing persistent subscriptions.
pub struct ListPersistentSubscriptionsOptions {
    pub common_operation_options: CommonOperationOptions,
}

impl Options for ListPersistentSubscriptionsOptions {
    open spec fn common(&self) -> CommonOperationOptions {
        self.common_operation_options
    }

    open spec fn operation_kind(&self) -> OperationKind {
        OperationKind::Regular
    }

    fn common_operation_options(&self) -> (r: &CommonOperationOptions) {
        &self.common_operation_options
    }

    fn kind(&self) -> (r: OperationKind) {
        OperationKind::Regular
    }
}

impl ListPersistentSubscriptionsOptions {
    /// Performs the command with the given credentials.
    pub fn authenticated(self, credentials: Credentials) -> (r: Self)
        ensures
            r == (ListPersistentSubscriptionsOptions {
                common_operation_options: CommonOperationOptions {
                    credentials: Some(credentials),
                    ..self.common_operation_options
                },
                ..self
            }),
    {
        let mut options = self;
        options.common_operation_options.credentials = Some(credentials);
        options
    }

    /// Says whether only the leader of the cluster may perform the command.
    pub fn requires_leader(self, requires_leader: bool) -> (r: Self)
        ensures
            r == (ListPersistentSubscriptionsOptions {
                common_operation_options: CommonOperationOptions {
                    requires_leader,
                    ..self.common_operation_options
                },
                ..self
            }),
    {
        let mut options = self;
        options.common_operation_options.requires_leader = requires_leader;
        options
    }

    /// Limits how long the command may take.
    pub fn deadline(self, deadline: Duration) -> (r: Self)
        ensures
            r == (ListPersistentSubscriptionsOptions {
                common_operation_options: CommonOperationOptions {
                    deadline: Some(deadline),
                    ..self.common_operation_options
                },
                ..self
            }),
    {
        let mut options = self;
        options.common_operation_options.deadline = Some(deadline);
        options
    }
}

/// Options of describing a persistent subscription.
pub struct GetPersistentSubscriptionInfoOptions {
    pub common_operation_options: CommonOperationOptions,
}

impl Options for GetPersistentSubscriptionInfoOptions {
    open spec fn common(&self) -> CommonOperationOptions {
        self.common_operation_options
    }

    open spec fn operation_kind(&self) -> OperationKind {
        OperationKind::Regular
    }

    fn common_operation_options(&self) -> (r: &CommonOperationOptions) {
        &self.common_operation_options
    }

    fn kind(&self) -> (r: OperationKind) {
        OperationKind::Regular
    }
}

impl GetPersistentSubscriptionInfoOptions {
    /// Performs the command with the given credentials.
    pub fn authenticated(self, credentials: Credentials) -> (r: Self)
        ensures
            r == (GetPersistentSubscriptionInfoOptions {
                common_operation_options: CommonOperationOptions {
                    credentials: Some(credentials),
                    ..self.common_operation_options
                },
                ..self
            }),
    {
        let mut options = self;
        options.common_operation_options.credentials = Some(credentials);
        options
    }

    /// Says whether only the leader of the cluster may perform the command.
    pub fn requires_leader(self, requires_leader: bool) -> (r: Self)
        ensures
            r == (GetPersistentSubscriptionInfoOptions {
                common_operation_options: CommonOperationOptions {
                    requires_leader,
                    ..self.common_operation_options
                },
                ..self
            }),
    {
        let mut options = self;
        options.common_operation_options.requires_leader = requires_leader;
        options
    }

    /// Limits how long the command may take.
    pub fn deadline(self, deadline: Duration) -> (r: Self)
        ensures
            r == (GetPersistentSubscriptionInfoOptions {
                common_operation_options: CommonOperationOptions {
                    deadline: Some(deadline),
                    ..self.common_operation_options
                },
                ..self
            }),
    {
        let mut options = self;
        options.common_operation_options.deadline = Some(deadline);
        options
    }
}

/// Options of replaying parked messages.
pub struct ReplayParkedMessagesOptions {
    pub stop_at: Option<usize>,
    pub common_operation_options: CommonOperationOptions,
}

impl Options for ReplayParkedMessagesOptions {
    open spec fn common(&self) -> CommonOperationOptions {
        self.common_operation_options
    }

    open spec fn operation_kind(&self) -> OperationKind {
        OperationKind::Regular
    }

    fn common_operation_options(&self) -> (r: &CommonOperationOptions) {
        &self.common_operation_options
    }

    fn kind(&self) -> (r: OperationKind) {
        OperationKind::Regular
    }
}

impl ReplayParkedMessagesOptions {
    /// Performs the command with the given credentials.
    pub fn authenticated(self, credentials: Credentials) -> (r: Self)
        ensures
            r == (ReplayParkedMessagesOptions {
                common_operation_options: CommonOperationOptions {
                    credentials: Some(credentials),
                    ..self.common_operation_options
                },
                ..self
            }),
    {
        let mut options = self;
        options.common_operation_options.credentials = Some(credentials);
        options
    }

    /// Says whether only the leader of the cluster may perform the command.
    pub fn requires_leader(self, requires_leader: bool) -> (r: Self)
        ensures
            r == (ReplayParkedMessagesOptions {
                common_operation_options: CommonOperationOptions {
                    requires_leader,
                    ..self.common_operation_options
                },
                ..self
            }),
    {
        let mut options = self;
        options.common_operation_options.requires_leader = requires_leader;
        options
    }

    /// Limits how long the command may take.
    pub fn deadline(self, deadline: Duration) -> (r: Self)
        ensures
            r == (ReplayParkedMessagesOptions {
                common_operation_options: CommonOperationOptions {
                    deadline: Some(deadline),
                    ..self.common_operation_options
                },
                ..self
            }),
    {
        let mut options = self;
        options.common_operation_options.deadline = Some(deadline);
        options
    }
}

/// Options of restarting the persistent subscriptions.
pub struct RestartPersistentSubscriptionSubsystem {
    pub common_operation_options: CommonOperationOptions,
}

impl Options for RestartPersistentSubscriptionSubsystem {
    open spec fn common(&self) -> CommonOperationOptions {
        self.common_operation_options
    }

    open spec fn operation_kind(&self) -> OperationKind {
        OperationKind::Regular
    }

    fn common_operation_options(&self) -> (r: &CommonOperationOptions) {
        &self.common_operation_options
    }

    fn kind(&self) -> (r: OperationKind) {
        OperationKind::Regular
    }
}

impl RestartPersistentSubscriptionSubsystem {
    /// Performs the command with the given credentials.
    pub fn authenticated(self, credentials: Credentials) -> (r: Self)
        ensures
            r == (RestartPersistentSubscriptionSubsystem {
                common_operation_options: CommonOperationOptions {
                    credentials: Some(credentials),
                    ..self.common_operation_options
                },
                ..self
            }),
    {
        let mut options = self;
        options.common_operation_options.credentials = Some(credentials);
        options
    }

    /// Says whether only the leader of the cluster may perform the command.
    pub fn requires_leader(self, requires_leader: bool) -> (r: Self)
        ensures
            r == (RestartPersistentSubscriptionSubsystem {
                common_operation_options: CommonOperationOptions {
                    requires_leader,
                    ..self.common_operation_options
                },
                ..self
            }),
    {
        let mut options = self;
        options.common_operation_options.requires_leader = requires_leader;
        options
    }

    /// Limits how long the command may take.
    pub fn deadline(self, deadline: Duration) -> (r: Self)
        ensures
            r == (RestartPersistentSubscriptionSubsystem {
                common_operation_options: CommonOperationOptions {
                    deadline: Some(deadline),
                    ..self.common_operation_options
                },
                ..self
            }),
    {
        let mut options = self;
        options.common_operation_options.deadline = Some(deadline);
        options
    }
}

} // verus!
