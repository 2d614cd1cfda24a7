//! Requests, and the metadata that they carry.
use crate::options::{CommonOperationOptions, OperationKind, Options};
use crate::settings::{ClientSettings, Credentials};
use crate::text::{chars_of, decimal};
use crate::time::Duration;
use tonic::metadata::MetadataMap;
use vstd::prelude::*;
use vstd::utf8::{decode_utf8, encode_utf8, valid_utf8};

verus! {

/// `tonic::metadata::MetadataMap`, the metadata of a request or an answer.
#[verifier::external_type_specification]
#[verifier::external_body]
pub struct ExMetadataMap(MetadataMap);

/// What metadata holds: for each key, the bytes of all of its values, in turn.
pub uninterp spec fn metadata_entries(map: MetadataMap) -> Map<Seq<char>, Seq<Seq<u8>>>;

/// The text that a byte sequence is shown as, whatever the bytes are.
pub uninterp spec fn lossy_text(bytes: Seq<u8>) -> Seq<char>;

/// What empty metadata holds.
pub open spec fn no_entries() -> Map<Seq<char>, Seq<Seq<u8>>> {
    Map::empty()
}

/// The values of a key that has a text for its value, and no other value.
pub open spec fn one_value(text: Seq<char>) -> Seq<Seq<u8>> {
    seq![encode_utf8(text)]
}

/// The keys that the commands use.
pub open spec fn is_metadata_key(key: Seq<char>) -> bool {
    ||| key == "authorization"@
    ||| key == "requires-leader"@
    ||| key == "connection-name"@
    ||| key == "exception"@
}

/// Whether a character can stand in a metadata value: a tab, or anything but an ASCII control
/// character.
pub open spec fn is_metadata_char(c: char) -> bool {
    c as u32 >= 32 && c as u32 != 127 || c as u32 == 9
}

/// Whether a text can be a metadata value.
pub open spec fn is_metadata_text(text: Seq<char>) -> bool {
    forall|i: int| 0 <= i < text.len() ==> is_metadata_char(#[trigger] text[i])
}

/// Whether bytes are all visible ASCII characters or tabs.
pub open spec fn is_visible_ascii(bytes: Seq<u8>) -> bool {
    forall|i: int|
        0 <= i < bytes.len() ==> (32 <= #[trigger] bytes[i] < 127 || bytes[i] == 9)
}

/// Whether the first value of a key is all visible ASCII.
pub open spec fn has_visible_value(
    entries: Map<Seq<char>, Seq<Seq<u8>>>,
    key: Seq<char>,
) -> bool {
    entries.contains_key(key) && entries[key].len() > 0 && is_visible_ascii(entries[key][0])
}

/// The base64 character for a number below sixty-four.
pub open spec fn base64_char(n: int) -> char {
    if n < 26 {
        ('A' as int + n) as char
    } else if n < 52 {
        ('a' as int + n - 26) as char
    } else if n < 62 {
        ('0' as int + n - 52) as char
    } else if n == 62 {
        '+'
    } else {
        '/'
    }
}

/// The byte at a place, or zero behind the last.
pub open spec fn byte_or_zero(bytes: Seq<u8>, i: int) -> int {
    if i < bytes.len() {
        bytes[i] as int
    } else {
        0
    }
}

/// The standard base64 text of a byte sequence. Each three bytes, taken as one number, give four
/// characters of six bits each, the most significant first. Where the last bytes are fewer than
/// three, zeroes make up for those that lack, and characters that would stand for nothing else are
/// padding.
pub open spec fn base64_text(bytes: Seq<u8>) -> Seq<char> {
    Seq::new(
        4 * ((bytes.len() + 2) / 3),
        |i: int|
            {
                let start = 3 * (i / 4);
                let number = 65536 * byte_or_zero(bytes, start) + 256 * byte_or_zero(
                    bytes,
                    start + 1,
                ) + byte_or_zero(bytes, start + 2);
                if start + i % 4 > bytes.len() {
                    '='
                } else if i % 4 == 0 {
                    base64_char(number / 262144)
                } else if i % 4 == 1 {
                    base64_char(number / 4096 % 64)
                } else if i % 4 == 2 {
                    base64_char(number / 64 % 64)
                } else {
                    base64_char(number % 64)
                }
            },
    )
}

/// Metadata with few enough keys that one more fits.
pub open spec fn has_room(map: MetadataMap) -> bool {
    metadata_entries(map).dom().finite() && metadata_entries(map).dom().len() < 1000
}

/// Calls `tonic::metadata::MetadataMap::new`: empty.
#[verifier::external_body]
fn metadata_new() -> (r: MetadataMap)
    ensures
        metadata_entries(r) == no_entries(),
{
    MetadataMap::new()
}

/// Calls `tonic::metadata::MetadataMap::insert` with a value that
/// `tonic::metadata::MetadataValue::from_str` makes: the key has that value and no other, and
/// all other keys stay as they are.
#[verifier::external_body]
fn metadata_insert(map: &mut MetadataMap, key: &'static str, value: &str)
    requires
        is_metadata_key(key@),
        is_metadata_text(value@),
        has_room(*old(map)),
    ensures
        metadata_entries(*final(map)) == metadata_entries(*old(map)).insert(key@, one_value(value@)),
{
    let value = tonic::metadata::MetadataValue::from_str(value).expect("a metadata value");
    map.insert(key, value);
}

/// Calls `tonic::metadata::MetadataMap::get`, then `tonic::metadata::MetadataValue::to_str`:
/// the first value of the key as text, if the key is there and all of that value is visible
/// ASCII.
#[verifier::external_body]
pub(crate) fn metadata_get(map: &MetadataMap, key: &'static str) -> (r: Option<String>)
    requires
        is_metadata_key(key@),
    ensures
        r is Some == has_visible_value(metadata_entries(*map), key@),
        r matches Some(text) ==> encode_utf8(text@) == metadata_entries(*map)[key@][0],
{
    map.get(key).and_then(|value| value.to_str().ok()).map(|text| text.to_owned())
}

/// Calls `tonic::Request::set_timeout`: gives the `grpc-timeout` key the span for its one value, in
/// the finest unit in which it has at most eight digits, and leaves all other keys as they are.
#[verifier::external_body]
fn metadata_set_timeout(map: MetadataMap, timeout: Duration) -> (r: MetadataMap)
    requires
        is_timeout(timeout),
        has_room(map),
    ensures
        metadata_entries(r) == metadata_entries(map).insert(
            "grpc-timeout"@,
            one_value(timeout_text(timeout)),
        ),
{
    let mut request = tonic::Request::new(());
    *request.metadata_mut() = map;
    request.set_timeout(std::time::Duration::new(timeout.secs, timeout.nanos));
    std::mem::take(request.metadata_mut())
}

/// Calls `String::from_utf8_lossy`: bytes that are UTF-8 are taken as such. What stands for
/// other bytes is left to that function, and named `lossy_text`.
#[verifier::external_body]
fn text_lossy(bytes: &[u8]) -> (r: String)
    ensures
        r@ == lossy_text(bytes@),
        valid_utf8(bytes@) ==> r@ == decode_utf8(bytes@),
{
    String::from_utf8_lossy(bytes).into_owned()
}

/// Calls `base64::encode`: the text over the standard alphabet, with padding.
#[verifier::external_body]
fn base64_encode(bytes: &[u8]) -> (r: String)
    ensures
        r@ == base64_text(bytes@),
{
    base64::encode(bytes)
}

/// The largest number of a unit that a timeout can have: eight digits.
pub open spec fn max_timeout_units() -> nat {
    99_999_999
}

/// Whether a span can be a timeout: it is no more than eight digits of hours.
pub open spec fn is_timeout(timeout: Duration) -> bool {
    timeout.well_formed() && timeout.secs as nat / 60 / 60 <= max_timeout_units()
}

/// The text of a timeout: the number of the finest unit of which there are no more than
/// eight digits, rounded down, then the letter of the unit.
pub open spec fn timeout_text(timeout: Duration) -> Seq<char> {
    let nanos = timeout.total_nanos();
    let secs = timeout.secs as nat;
    let max = max_timeout_units();
    if nanos <= max {
        decimal(nanos).push('n')
    } else if nanos / 1_000 <= max {
        decimal(nanos / 1_000).push('u')
    } else if nanos / 1_000_000 <= max {
        decimal(nanos / 1_000_000).push('m')
    } else if secs <= max {
        decimal(secs).push('S')
    } else if secs / 60 <= max {
        decimal(secs / 60).push('M')
    } else {
        decimal(secs / 60 / 60).push('H')
    }
}

/// Who a command runs as: the user that its options name, or else that of the settings.
pub open spec fn effective_credentials(
    settings: ClientSettings,
    options: CommonOperationOptions,
) -> Option<Credentials> {
    if options.credentials is Some {
        options.credentials
    } else {
        settings.default_user_credentials
    }
}

/// The text of a login or a password: what its UTF-8 says or, where it is none, what it is shown
/// as.
pub open spec fn credential_text(bytes: Seq<u8>) -> Seq<char> {
    if valid_utf8(bytes) {
        decode_utf8(bytes)
    } else {
        lossy_text(bytes)
    }
}

/// The value of the `authorization` key.
pub open spec fn basic_authorization(credentials: Credentials) -> Seq<char> {
    "Basic "@ + base64_text(
        encode_utf8(
            credential_text(credentials.login@) + ":"@ + credential_text(credentials.password@),
        ),
    )
}

/// The metadata of a command, but for its timeout.
pub open spec fn request_metadata(
    settings: ClientSettings,
    options: CommonOperationOptions,
) -> Map<Seq<char>, Seq<Seq<u8>>> {
    let none = no_entries();
    let authorized = match effective_credentials(settings, options) {
        Some(credentials) => none.insert(
            "authorization"@,
            one_value(basic_authorization(credentials)),
        ),
        None => none,
    };
    let led = if options.requires_leader {
        authorized.insert("requires-leader"@, one_value("true"@))
    } else {
        authorized
    };
    match settings.connection_name {
        Some(name) => led.insert("connection-name"@, one_value(name@)),
        None => led,
    }
}

/// Settings whose connection name, if they have one, can be sent.
pub open spec fn settings_can_be_sent(settings: ClientSettings) -> bool {
    settings.connection_name matches Some(name) ==> is_metadata_text(name@)
}

/// Tells whether the connection name, if there is one, can be sent.
pub fn check_settings(settings: &ClientSettings) -> (r: bool)
    ensures
        r == settings_can_be_sent(*settings),
{
    match &settings.connection_name {
        Some(name) => {
            let chars = chars_of(name.as_str());
            let mut i: usize = 0;
            while i < chars.len()
                invariant
                    i <= chars@.len(),
                    settings.connection_name matches Some(sent) && sent@ == chars@,
                    forall|j: int| 0 <= j < i ==> is_metadata_char(#[trigger] chars@[j]),
                decreases chars@.len() - i,
            {
                let code: u32 = chars[i] as u32;
                if (code < 32 || code == 127) && code != 9 {
                    assert(!is_metadata_char(chars@[i as int]));
                    return false;
                }
                i = i + 1;
            }
            true
        },
        None => true,
    }
}

proof fn lemma_base64_text(bytes: Seq<u8>)
    ensures
        is_metadata_text(base64_text(bytes)),
{
    assert forall|i: int| 0 <= i < base64_text(bytes).len() implies is_metadata_char(
        #[trigger] base64_text(bytes)[i],
    ) by {
        let start = 3 * (i / 4);
        let number = 65536 * byte_or_zero(bytes, start) + 256 * byte_or_zero(bytes, start + 1)
            + byte_or_zero(bytes, start + 2);
        assert(0 <= number / 262144 < 64);
        assert(0 <= number / 4096 % 64 < 64);
        assert(0 <= number / 64 % 64 < 64);
    }
}

/// Builds the metadata of a command.
pub fn build_request_metadata(
    settings: &ClientSettings,
    options: &CommonOperationOptions,
) -> (r: MetadataMap)
    requires
        settings_can_be_sent(*settings),
    ensures
        metadata_entries(r) == request_metadata(*settings, *options),
        metadata_entries(r).dom().finite(),
        metadata_entries(r).dom().len() <= 3,
{
    let mut metadata = metadata_new();
    let credentials: Option<&Credentials> = match &options.credentials {
        Some(credentials) => Some(credentials),
        None => settings.default_authenticated_user().as_ref(),
    };

    if let Some(credentials) = credentials {
        let login = text_lossy(credentials.login.as_slice());
        let password = text_lossy(credentials.password.as_slice());
        let pair = login.concat(":").concat(password.as_str());
        let encoded = base64_encode(pair.as_str().as_bytes());
        let authorization = "Basic ".to_owned().concat(encoded.as_str());
        proof {
            reveal_strlit("Basic ");
            lemma_base64_text(encode_utf8(pair@));
        }
        metadata_insert(&mut metadata, "authorization", authorization.as_str());
    }
    if options.requires_leader {
        proof {
            reveal_strlit("true");
        }
        metadata_insert(&mut metadata, "requires-leader", "true");
    }
    if let Some(name) = &settings.connection_name {
        metadata_insert(&mut metadata, "connection-name", name.as_str());
    }
    metadata
}

/// A message, with the metadata that goes with it.
pub struct Request<Message> {
    pub metadata: MetadataMap,
    pub message: Message,
}

/// How long a command may take, if there is a limit: what its options say. Failing that, what
/// the settings say, but not for a command that goes on. Failing that, ten seconds for a
/// regular command.
pub open spec fn effective_deadline(
    settings: ClientSettings,
    options: CommonOperationOptions,
    kind: OperationKind,
) -> Option<Duration> {
    if options.deadline is Some {
        options.deadline
    } else if settings.default_deadline is Some {
        if kind == OperationKind::Streaming {
            None
        } else {
            settings.default_deadline
        }
    } else if kind == OperationKind::Regular {
        Some(Duration { secs: 10, nanos: 0 })
    } else {
        None
    }
}

/// The metadata of a command.
pub open spec fn command_metadata(
    settings: ClientSettings,
    options: CommonOperationOptions,
    kind: OperationKind,
) -> Map<Seq<char>, Seq<Seq<u8>>> {
    match effective_deadline(settings, options, kind) {
        Some(deadline) => request_metadata(settings, options).insert(
            "grpc-timeout"@,
            one_value(timeout_text(deadline)),
        ),
        None => request_metadata(settings, options),
    }
}

/// Whether a command can be sent: its connection name and its deadline fit in metadata.
pub open spec fn can_be_sent<Opts: Options>(settings: ClientSettings, options: Opts) -> bool {
    &&& settings_can_be_sent(settings)
    &&& effective_deadline(settings, options.common(), options.operation_kind()) matches Some(
        deadline,
    ) ==> is_timeout(deadline)
}

/// The limit on how long a command may take, if there is one.
pub fn command_deadline<Opts: Options>(settings: &ClientSettings, options: &Opts) -> (r: Option<
    Duration,
>)
    ensures
        r == effective_deadline(*settings, options.common(), options.operation_kind()),
{
    let kind = options.kind();
    if let Some(deadline) = options.common_operation_options().deadline {
        Some(deadline)
    } else if let Some(deadline) = settings.default_deadline {
        if kind != OperationKind::Streaming {
            Some(deadline)
        } else {
            None
        }
    } else if kind == OperationKind::Regular {
        Some(Duration::from_secs(10))
    } else {
        None
    }
}

/// Tells whether a command can be sent.
pub fn check_command<Opts: Options>(settings: &ClientSettings, options: &Opts) -> (r: bool)
    ensures
        r == can_be_sent(*settings, *options),
{
    let deadline_fits = match command_deadline(settings, options) {
        Some(deadline) => deadline.nanos < 1_000_000_000 && deadline.secs / 60 / 60 <= 99_999_999,
        None => true,
    };
    check_settings(settings) && deadline_fits
}

/// Wraps the message of a command.
pub fn new_request<Message, Opts: Options>(
    settings: &ClientSettings,
    options: &Opts,
    message: Message,
) -> (r: Request<Message>)
    requires
        can_be_sent(*settings, *options),
    ensures
        r.message == message,
        metadata_entries(r.metadata) == command_metadata(
            *settings,
            options.common(),
            options.operation_kind(),
        ),
{
    let metadata = build_request_metadata(settings, options.common_operation_options());
    let metadata = match command_deadline(settings, options) {
        Some(deadline) => metadata_set_timeout(metadata, deadline),
        None => metadata,
    };
    Request { metadata, message }
}

/// The keys of the metadata of a command are these and no others, each with one value: who runs it,
/// if anybody; that the leader must, if so; the name of the connection, if it has one; and the
/// timeout, if there is one.
pub proof fn law_metadata_keys(
    settings: ClientSettings,
    options: CommonOperationOptions,
    kind: OperationKind,
)
    ensures
        ({
            let metadata = command_metadata(settings, options, kind);
            let credentials = effective_credentials(settings, options);
            let deadline = effective_deadline(settings, options, kind);
            &&& metadata.contains_key("authorization"@) == (credentials is Some)
            &&& credentials is Some ==> metadata["authorization"@] == one_value(
                basic_authorization(credentials->0),
            )
            &&& metadata.contains_key("requires-leader"@) == options.requires_leader
            &&& options.requires_leader ==> metadata["requires-leader"@] == one_value("true"@)
            &&& metadata.contains_key("connection-name"@) == (settings.connection_name is Some)
            &&& settings.connection_name is Some ==> metadata["connection-name"@] == one_value(
                settings.connection_name->0@,
            )
            &&& metadata.contains_key("grpc-timeout"@) == (deadline is Some)
            &&& deadline is Some ==> metadata["grpc-timeout"@] == one_value(
                timeout_text(deadline->0),
            )
            &&& forall|key: Seq<char>| #[trigger]
                metadata.contains_key(key) ==> {
                    ||| key == "authorization"@
                    ||| key == "requires-leader"@
                    ||| key == "connection-name"@
                    ||| key == "grpc-timeout"@
                }
        }),
{
    reveal_strlit("authorization");
    reveal_strlit("requires-leader");
    reveal_strlit("connection-name");
    reveal_strlit("grpc-timeout");
    assert("authorization"@.len() == 13);
    assert("requires-leader"@.len() == 15);
    assert("connection-name"@.len() == 15);
    assert("grpc-timeout"@.len() == 12);
    assert("requires-leader"@[0] == 'r');
    assert("connection-name"@[0] == 'c');
}

/// The options of a command come before the settings of the client: its user, and its deadline.
pub proof fn law_options_come_first(
    settings: ClientSettings,
    options: CommonOperationOptions,
    kind: OperationKind,
)
    ensures
        options.credentials is Some ==> effective_credentials(settings, options)
            == options.credentials,
        options.deadline is Some ==> effective_deadline(settings, options, kind)
            == options.deadline,
{
}

/// A regular command always has a deadline. One that goes on has none, unless its own options
/// give it one.
pub proof fn law_regular_commands_end(settings: ClientSettings, options: CommonOperationOptions)
    ensures
        effective_deadline(settings, options, OperationKind::Regular) is Some,
        effective_deadline(settings, options, OperationKind::Streaming) == options.deadline,
{
}

} // verus!
