//! What requests carry, and what for.
use crate::options::{CommonOperationOptions, OperationKind, Options};
use crate::request::{
    base64_text, build_request_metadata, check_command, check_settings, command_deadline,
    law_metadata_keys, lossy_text, metadata_entries, new_request, timeout_text, Request,
};
use crate::settings::ClientSettings;
use crate::text::decimal;
use crate::time::Duration;
use tonic::metadata::MetadataMap;
use vstd::prelude::*;
use vstd::utf8::{decode_utf8, encode_utf8, valid_utf8};

verus! {

/// The text of a login or a password.
pub open spec fn shown(bytes: Seq<u8>) -> Seq<char> {
    if valid_utf8(bytes) {
        decode_utf8(bytes)
    } else {
        lossy_text(bytes)
    }
}

/// A command runs as the user that its options name or, failing that, as the one that the settings
/// name, with the login and the password of that user. It asks for the leader just where its options
/// do, and carries the name of the connection just where there is one. It carries nothing else.
pub proof fn law_command_carries_its_user(
    settings: &ClientSettings,
    options: &CommonOperationOptions,
    r: MetadataMap,
)
    requires
        call_ensures(build_request_metadata, (settings, options), r),
    ensures
        ({
            let sent = metadata_entries(r);
            let user = if options.credentials is Some {
                options.credentials
            } else {
                settings.default_user_credentials
            };
            &&& sent.contains_key("authorization"@) == user is Some
            &&& user matches Some(user) ==> sent["authorization"@] == seq![
                encode_utf8(
                    "Basic "@ + base64_text(
                        encode_utf8(shown(user.login@) + ":"@ + shown(user.password@)),
                    ),
                ),
            ]
            &&& sent.contains_key("requires-leader"@) == options.requires_leader
            &&& options.requires_leader ==> sent["requires-leader"@] == seq![encode_utf8("true"@)]
            &&& sent.contains_key("connection-name"@) == settings.connection_name is Some
            &&& settings.connection_name matches Some(name) ==> sent["connection-name"@] == seq![
                encode_utf8(name@),
            ]
            &&& !sent.contains_key("grpc-timeout"@)
            &&& forall|key: Seq<char>| #[trigger]
                sent.contains_key(key) ==> key == "authorization"@ || key == "requires-leader"@
                    || key == "connection-name"@
        }),
{
    law_metadata_keys(*settings, *options, OperationKind::Streaming);
    reveal_strlit("authorization");
    reveal_strlit("requires-leader");
    reveal_strlit("connection-name");
    reveal_strlit("grpc-timeout");
    assert("authorization"@.len() == 13);
    assert("requires-leader"@.len() == 15);
    assert("connection-name"@.len() == 15);
    assert("grpc-timeout"@.len() == 12);
    assert("requires-leader"@[0] == 'r');
    assert("connection-name"@[0] == 'c');
}

/// A command may take as long as its options say. Failing that, one that goes on may take as long as
/// it likes, and any other as long as the settings say or, failing that too, ten seconds.
pub proof fn law_command_ends_in_time<Opts: Options>(
    settings: &ClientSettings,
    options: &Opts,
    r: Option<Duration>,
)
    requires
        call_ensures(command_deadline::<Opts>, (settings, options), r),
    ensures
        options.common().deadline is Some ==> r == options.common().deadline,
        options.common().deadline is None && options.operation_kind() == OperationKind::Streaming
            ==> r is None,
        options.common().deadline is None && options.operation_kind() == OperationKind::Regular
            && settings.default_deadline is Some ==> r == settings.default_deadline,
        options.common().deadline is None && options.operation_kind() == OperationKind::Regular
            && settings.default_deadline is None ==> (r matches Some(deadline) && deadline.secs == 10
            && deadline.nanos == 0),
{
}

/// A request carries its message as it is, the metadata of its command, and its timeout just where the
/// command has to end in time.
pub proof fn law_request_carries_its_message<Message, Opts: Options>(
    settings: &ClientSettings,
    options: &Opts,
    message: Message,
    r: Request<Message>,
    common: CommonOperationOptions,
    metadata: MetadataMap,
    deadline: Option<Duration>,
)
    requires
        call_ensures(new_request::<Message, Opts>, (settings, options, message), r),
        common == options.common(),
        call_ensures(build_request_metadata, (settings, &common), metadata),
        call_ensures(command_deadline::<Opts>, (settings, options), deadline),
    ensures
        r.message == message,
        ({
            let sent = metadata_entries(r.metadata);
            &&& sent.contains_key("grpc-timeout"@) == deadline is Some
            &&& deadline matches Some(deadline) ==> sent["grpc-timeout"@] == seq![
                encode_utf8(timeout_text(deadline)),
            ]
            &&& forall|key: Seq<char>|
                key != "grpc-timeout"@ ==> {
                    &&& (#[trigger] sent.contains_key(key)) == metadata_entries(
                        metadata,
                    ).contains_key(key)
                    &&& sent.contains_key(key) ==> sent[key] == metadata_entries(metadata)[key]
                }
        }),
{
    law_command_carries_its_user(settings, &common, metadata);
}

/// A timeout is told as a number of at most eight digits and the letter of a unit, and falls short of
/// the span by less than one unit. A finer unit would take more digits.
pub proof fn law_timeout_tells_the_span(timeout: Duration, n: nat, unit: nat, letter: char)
    requires
        timeout.nanos < 1_000_000_000,
        timeout.secs / 3600 <= 99_999_999,
        timeout_unit(timeout) == (unit, letter),
        n == (timeout.secs * 1_000_000_000 + timeout.nanos) / unit as int,
    ensures
        timeout_text(timeout) == decimal(n).push(letter),
        n <= 99_999_999,
        n * unit <= timeout.secs * 1_000_000_000 + timeout.nanos < (n + 1) * unit,
        unit > 1 ==> (timeout.secs * 1_000_000_000 + timeout.nanos) / finer(unit) as int > 99_999_999,
{
    let total = timeout.secs * 1_000_000_000 + timeout.nanos;
    assert(total / 1_000_000_000 == timeout.secs);
    assert(total / 60_000_000_000 == timeout.secs / 60);
    assert(total / 3_600_000_000_000 == timeout.secs / 60 / 60);
    assert(unit > 0);
    assert(n * unit <= total < (n + 1) * unit) by (nonlinear_arith)
        requires
            unit > 0,
            total >= 0,
            n == total / unit as int,
    ;
}

/// The nanoseconds of the next finer unit.
pub open spec fn finer(unit: nat) -> nat {
    if unit == 1_000 {
        1
    } else if unit == 1_000_000 {
        1_000
    } else if unit == 1_000_000_000 {
        1_000_000
    } else if unit == 60_000_000_000 {
        1_000_000_000
    } else {
        60_000_000_000
    }
}

/// The finest unit of which a span has at most eight digits, in nanoseconds, and its letter.
pub open spec fn timeout_unit(timeout: Duration) -> (nat, char) {
    let total = timeout.secs * 1_000_000_000 + timeout.nanos;
    if total <= 99_999_999 {
        (1, 'n')
    } else if total / 1_000 <= 99_999_999 {
        (1_000, 'u')
    } else if total / 1_000_000 <= 99_999_999 {
        (1_000_000, 'm')
    } else if total / 1_000_000_000 <= 99_999_999 {
        (1_000_000_000, 'S')
    } else if total / 60_000_000_000 <= 99_999_999 {
        (60_000_000_000, 'M')
    } else {
        (3_600_000_000_000, 'H')
    }
}

/// A command can be sent just where the name of its connection holds no control character but a tab,
/// and its deadline is no more than eight digits of hours.
pub proof fn law_commands_that_can_be_sent<Opts: Options>(
    settings: &ClientSettings,
    options: &Opts,
    name_fits: bool,
    r: bool,
    deadline: Option<Duration>,
)
    requires
        call_ensures(check_settings, (settings,), name_fits),
        call_ensures(check_command::<Opts>, (settings, options), r),
        call_ensures(command_deadline::<Opts>, (settings, options), deadline),
    ensures
        settings.connection_name is None ==> name_fits,
        settings.connection_name matches Some(name) ==> (name_fits <==> forall|i: int|
            0 <= i < name@.len() ==> (#[trigger] name@[i] as u32 >= 32 && name@[i] as u32 != 127)
                || name@[i] as u32 == 9),
        r <==> name_fits && (deadline is Some ==> deadline->0.nanos < 1_000_000_000
            && deadline->0.secs / 60 / 60 <= 99_999_999),
{
    if let Some(name) = settings.connection_name {
        assert(forall|i: int|
            0 <= i < name@.len() ==> crate::request::is_metadata_char(#[trigger] name@[i]) == ((
            name@[i] as u32 >= 32 && name@[i] as u32 != 127) || name@[i] as u32 == 9));
    }
}

} // verus!
