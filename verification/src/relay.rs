//! The relay between processes: what is published on which channel, how a
//! failed publication is repeated, and what becomes of a frame that the
//! transport pushes.
//!
//! The relay here decides and builds; it holds no connection. Whoever holds
//! the connections publishes the payloads, reports how that went, and hands
//! in the frames that arrive.

use crate::ambient::{now_utc, Timestamp};
use crate::error::{labelled, AppError};
use crate::events::Event;
use crate::json::{
    json_document, json_object_text, json_text_members, member_views, parse_json, render_object,
    show_uuid, text_member, uuid_text, JsonMember, JsonScalar, ScalarView,
};
use crate::models::{ConnectionStatus, TrackedWallet, WalletStateChange, WalletStateChangeType};
use crate::text::{contains_text, occurs_in, same_text, window};
use vstd::prelude::*;
use vstd::string::StringExecFns;

verus! {

/// How often a failed publication is repeated.
pub const MAX_RETRIES: u32 = 5;

/// The milliseconds between a failed publication and its repetition.
pub const RECONNECT_DELAY_MS: u64 = 1_000;

/// The milliseconds between two probes that keep a subscription alive.
pub const KEEP_ALIVE_INTERVAL_MS: u64 = 30_000;

/// The seconds that must pass before a failing subscription is reported
/// again.
pub const ERROR_LOG_INTERVAL_SECS: u64 = 60;

/// The topics of the relay.
#[derive(Debug, Clone, Copy, PartialEq, Eq, Structural)]
pub enum RelayTopic {
    Settings,
    TrackedWallets,
    PriceUpdates,
    SolPriceUpdates,
}

impl RelayTopic {
    /// The name of the channel that carries the topic.
    pub open spec fn channel(self) -> Seq<char> {
        match self {
            RelayTopic::Settings => "settings"@,
            RelayTopic::TrackedWallets => "tracked_wallets"@,
            RelayTopic::PriceUpdates => "price_updates"@,
            RelayTopic::SolPriceUpdates => "sol_price_updates"@,
        }
    }

    /// The name of the channel that carries the topic.
    pub fn channel_name(self) -> (name: String)
        ensures
            name@ == self.channel(),
    {
        match self {
            RelayTopic::Settings => String::from_str("settings"),
            RelayTopic::TrackedWallets => String::from_str("tracked_wallets"),
            RelayTopic::PriceUpdates => String::from_str("price_updates"),
            RelayTopic::SolPriceUpdates => String::from_str("sol_price_updates"),
        }
    }
}

/// The topic that a channel of the given name carries, looked up in the
/// order settings, tracked wallets, price updates, SOL price updates.
pub open spec fn topic_named(channel: Seq<char>) -> Option<RelayTopic> {
    if channel == RelayTopic::Settings.channel() {
        Some(RelayTopic::Settings)
    } else if channel == RelayTopic::TrackedWallets.channel() {
        Some(RelayTopic::TrackedWallets)
    } else if channel == RelayTopic::PriceUpdates.channel() {
        Some(RelayTopic::PriceUpdates)
    } else if channel == RelayTopic::SolPriceUpdates.channel() {
        Some(RelayTopic::SolPriceUpdates)
    } else {
        None
    }
}

/// The topic that a channel of the given name carries, if it carries one.
pub fn topic_of(channel: &str) -> (topic: Option<RelayTopic>)
    ensures
        topic == topic_named(channel@),
{
    if same_text(channel, "settings") {
        Some(RelayTopic::Settings)
    } else if same_text(channel, "tracked_wallets") {
        Some(RelayTopic::TrackedWallets)
    } else if same_text(channel, "price_updates") {
        Some(RelayTopic::PriceUpdates)
    } else if same_text(channel, "sol_price_updates") {
        Some(RelayTopic::SolPriceUpdates)
    } else {
        None
    }
}

/// The topics that the subscription to updates covers, in the order in which
/// they are subscribed.
pub fn update_topics() -> (topics: Vec<RelayTopic>)
    ensures
        topics@ == seq![RelayTopic::Settings, RelayTopic::TrackedWallets, RelayTopic::PriceUpdates],
{
    let mut topics: Vec<RelayTopic> = Vec::new();
    topics.push(RelayTopic::Settings);
    topics.push(RelayTopic::TrackedWallets);
    topics.push(RelayTopic::PriceUpdates);
    topics
}

/// The address under which the transport pushes frames: `url` itself where
/// it asks for protocol 3 already, else `url` with that request added to its
/// query, or as its query where it has none.
pub open spec fn resp3_address(url: Seq<char>) -> Seq<char> {
    if occurs_in("protocol=resp3"@, url) {
        url
    } else if url.contains('?') {
        url + "&protocol=resp3"@
    } else {
        url + "?protocol=resp3"@
    }
}

/// A text of one character occurs where the character does.
proof fn lemma_one_character_occurs(one: Seq<char>, c: char, text: Seq<char>)
    requires
        one.len() == 1,
        one[0] == c,
    ensures
        occurs_in(one, text) == text.contains(c),
{
    if occurs_in(one, text) {
        let start = choose|start: int|
            0 <= start && start + one.len() <= text.len() && #[trigger] window(
                text,
                start,
                one.len(),
            ) == one;
        assert(window(text, start, one.len())[0] == c);
        assert(text[start] == c);
    }
    if text.contains(c) {
        let at = choose|at: int| 0 <= at < text.len() && text[at] == c;
        assert(window(text, at, one.len()) =~= one);
    }
}

/// The address under which the transport pushes frames.
pub fn resp3_url(redis_url: &str) -> (url: String)
    ensures
        url@ == resp3_address(redis_url@),
{
    if contains_text(redis_url, "protocol=resp3") {
        String::from_str(redis_url)
    } else {
        proof {
            reveal_strlit("?");
            lemma_one_character_occurs("?"@, '?', redis_url@);
        }
        if contains_text(redis_url, "?") {
            String::from_str(redis_url).concat("&protocol=resp3")
        } else {
            String::from_str(redis_url).concat("?protocol=resp3")
        }
    }
}

/// What is published.
#[derive(Debug, Clone, Copy, PartialEq, Eq, Structural)]
pub enum PublishKind {
    TrackedWalletUpdate,
    SettingsUpdate,
    WalletAddressUpdate,
    SettingsDelete,
    PriceUpdate,
    SolPriceUpdate,
}

impl PublishKind {
    /// The topic on which the kind is published.
    pub open spec fn topic_of(self) -> RelayTopic {
        match self {
            PublishKind::TrackedWalletUpdate => RelayTopic::TrackedWallets,
            PublishKind::SettingsUpdate => RelayTopic::Settings,
            PublishKind::WalletAddressUpdate => RelayTopic::TrackedWallets,
            PublishKind::SettingsDelete => RelayTopic::Settings,
            PublishKind::PriceUpdate => RelayTopic::PriceUpdates,
            PublishKind::SolPriceUpdate => RelayTopic::SolPriceUpdates,
        }
    }

    /// The words that introduce the cause when the publication is given up.
    pub open spec fn failure_label(self) -> Seq<char> {
        match self {
            PublishKind::TrackedWalletUpdate => "Failed to publish wallet update after 5 retries: "@,
            PublishKind::SettingsUpdate => "Failed to publish settings after 5 retries: "@,
            PublishKind::WalletAddressUpdate => "Failed to publish wallet update after 5 retries: "@,
            PublishKind::SettingsDelete => "Failed to publish settings delete after 5 retries: "@,
            PublishKind::PriceUpdate => "Failed to publish price update after 5 retries: "@,
            PublishKind::SolPriceUpdate => "Failed to publish SOL price update after 5 retries: "@,
        }
    }

    /// Whether the failure is an error of the relay itself; the others are
    /// reported without category.
    pub open spec fn fails_as_relay_error(self) -> bool {
        self == PublishKind::PriceUpdate || self == PublishKind::SolPriceUpdate
    }

    /// The words under which the failure is reported as the condition of the
    /// link, for the kinds that report it.
    pub open spec fn status_label(self) -> Option<Seq<char>> {
        match self {
            PublishKind::SettingsUpdate => Some("Failed to publish after 5 retries: "@),
            PublishKind::PriceUpdate => Some("Failed to publish price update after 5 retries: "@),
            _ => None,
        }
    }

    /// The topic on which the kind is published.
    pub fn topic(self) -> (topic: RelayTopic)
        ensures
            topic == self.topic_of(),
    {
        match self {
            PublishKind::TrackedWalletUpdate => RelayTopic::TrackedWallets,
            PublishKind::SettingsUpdate => RelayTopic::Settings,
            PublishKind::WalletAddressUpdate => RelayTopic::TrackedWallets,
            PublishKind::SettingsDelete => RelayTopic::Settings,
            PublishKind::PriceUpdate => RelayTopic::PriceUpdates,
            PublishKind::SolPriceUpdate => RelayTopic::SolPriceUpdates,
        }
    }

    /// The error with which the publication is given up for `cause`.
    pub fn failure(self, cause: &String) -> (error: AppError)
        ensures
            error.detail() == self.failure_label() + cause@,
            self.fails_as_relay_error() ==> error is RedisError,
            !self.fails_as_relay_error() ==> error is Generic,
    {
        match self {
            PublishKind::TrackedWalletUpdate => AppError::Generic(
                labelled("Failed to publish wallet update after 5 retries: ", cause),
            ),
            PublishKind::SettingsUpdate => AppError::Generic(
                labelled("Failed to publish settings after 5 retries: ", cause),
            ),
            PublishKind::WalletAddressUpdate => AppError::Generic(
                labelled("Failed to publish wallet update after 5 retries: ", cause),
            ),
            PublishKind::SettingsDelete => AppError::Generic(
                labelled("Failed to publish settings delete after 5 retries: ", cause),
            ),
            PublishKind::PriceUpdate => AppError::RedisError(
                labelled("Failed to publish price update after 5 retries: ", cause),
            ),
            PublishKind::SolPriceUpdate => AppError::RedisError(
                labelled("Failed to publish SOL price update after 5 retries: ", cause),
            ),
        }
    }

    /// The words under which the failure is reported as the condition of the
    /// link, for the kinds that report it.
    pub fn status_details(self, cause: &String) -> (details: Option<String>)
        ensures
            self.status_label() matches Some(label) ==> (details matches Some(text) && text@
                == label + cause@),
            self.status_label() is None ==> details is None,
    {
        match self {
            PublishKind::SettingsUpdate => Some(
                labelled("Failed to publish after 5 retries: ", cause),
            ),
            PublishKind::PriceUpdate => Some(
                labelled("Failed to publish price update after 5 retries: ", cause),
            ),
            _ => None,
        }
    }
}

/// What to do once an attempt to publish has ended.
#[derive(Debug)]
pub enum PublishStep {
    /// The payload is out.
    Done,
    /// Wait, then publish the same payload again.
    RetryAfter { delay_ms: u64 },
    /// Report `error` to the caller and, where there are `status_details`,
    /// the link as failed under them.
    GiveUp { error: AppError, status_details: Option<String> },
}

/// Whether `step` gives a publication of kind `kind` up for `cause`: with an
/// error of the kind's category that names the cause, and with the words for
/// the condition of the link where the kind reports it.
pub open spec fn gives_up_with(step: PublishStep, kind: PublishKind, cause: Seq<char>) -> bool {
    &&& step matches PublishStep::GiveUp { error, status_details }
    &&& error.detail() == kind.failure_label() + cause
    &&& kind.fails_as_relay_error() ==> error is RedisError
    &&& !kind.fails_as_relay_error() ==> error is Generic
    &&& kind.status_label() matches Some(label) ==> (status_details matches Some(text) && text@
        == label + cause)
    &&& kind.status_label() is None ==> status_details is None
}

/// What follows the failure of an attempt that `retries` repetitions went
/// before: the count of repetitions afterwards, and whether the publication
/// is given up.
pub open spec fn after_failed_attempt(retries: nat) -> (nat, bool) {
    if retries >= MAX_RETRIES {
        (retries, true)
    } else {
        (retries + 1, false)
    }
}

/// The count of repetitions after `failures` attempts in a row have failed,
/// counted from the first attempt, and whether the publication was given up.
pub open spec fn after_failures(failures: nat) -> (nat, bool)
    decreases failures,
{
    if failures == 0 {
        (0, false)
    } else {
        let before = after_failures((failures - 1) as nat);
        if before.1 {
            before
        } else {
            after_failed_attempt(before.0)
        }
    }
}

/// A publication whose every attempt fails is repeated exactly
/// `MAX_RETRIES` times: each of the first `MAX_RETRIES` failures is followed
/// by a repetition, and the failure after that by none.
pub proof fn lemma_failing_publication_is_repeated_five_times()
    ensures
        forall|failures: nat|
            failures <= MAX_RETRIES ==> #[trigger] after_failures(failures) == (failures, false),
        after_failures((MAX_RETRIES + 1) as nat) == (MAX_RETRIES as nat, true),
{
    assert forall|failures: nat| failures <= MAX_RETRIES implies #[trigger] after_failures(failures)
        == (failures, false) by {
        lemma_failures_are_counted(failures);
    }
    lemma_failures_are_counted(MAX_RETRIES as nat);
}

proof fn lemma_failures_are_counted(failures: nat)
    requires
        failures <= MAX_RETRIES,
    ensures
        after_failures(failures) == (failures, false),
    decreases failures,
{
    if failures > 0 {
        lemma_failures_are_counted((failures - 1) as nat);
    }
}

/// One publication under way: what is published, and how often it has been
/// repeated.
#[derive(Debug)]
pub struct Publication {
    pub kind: PublishKind,
    pub retries: u32,
}

impl Publication {
    /// A publication before its first attempt.
    pub fn new(kind: PublishKind) -> (publication: Self)
        ensures
            publication.kind == kind,
            publication.retries == 0,
    {
        Publication { kind, retries: 0 }
    }

    /// Takes the outcome of an attempt, `Ok` or the cause of its failure,
    /// and says what to do next. A success ends the publication. A failure
    /// is followed by a repetition one second later, until `MAX_RETRIES`
    /// repetitions have failed too; then the publication is given up.
    pub fn attempt_finished(&mut self, outcome: Result<(), String>) -> (step: PublishStep)
        ensures
            final(self).kind == old(self).kind,
            outcome is Ok ==> step is Done && final(self).retries == old(self).retries,
            outcome is Err ==> (final(self).retries as nat, step is GiveUp) == after_failed_attempt(
                old(self).retries as nat,
            ),
            outcome is Err && old(self).retries < MAX_RETRIES ==> step == (PublishStep::RetryAfter {
                delay_ms: RECONNECT_DELAY_MS,
            }),
            outcome matches Err(cause) ==> (old(self).retries >= MAX_RETRIES ==> gives_up_with(
                step,
                old(self).kind,
                cause@,
            )),
    {
        match outcome {
            Ok(()) => PublishStep::Done,
            Err(cause) => {
                if self.retries >= MAX_RETRIES {
                    PublishStep::GiveUp {
                        error: self.kind.failure(&cause),
                        status_details: self.kind.status_details(&cause),
                    }
                } else {
                    self.retries = self.retries + 1;
                    PublishStep::RetryAfter { delay_ms: RECONNECT_DELAY_MS }
                }
            },
        }
    }
}

/// A member of a payload whose value is text.
fn text_entry(key: &str, value: &str) -> (member: JsonMember)
    ensures
        member@ == (key@, ScalarView::Text(value@)),
{
    JsonMember { key: String::from_str(key), value: JsonScalar::Text(String::from_str(value)) }
}

/// The members of the payload that tells of a change to a tracked wallet.
pub open spec fn tracked_wallet_update_members(
    wallet_address: Seq<char>,
    action: Seq<char>,
    is_active: bool,
    id: Option<u128>,
) -> Seq<(Seq<char>, ScalarView)> {
    seq![
        ("wallet_address"@, ScalarView::Text(wallet_address)),
        ("action"@, ScalarView::Text(action)),
        ("is_active"@, ScalarView::Bool(is_active)),
        (
            "id"@,
            match id {
                Some(id) => ScalarView::Text(uuid_text(id)),
                None => ScalarView::Null,
            },
        ),
    ]
}

/// The payload that tells of a change to a tracked wallet: its address, what
/// was done to it, whether it is active, and its identifier if it has one.
pub fn tracked_wallet_update_payload(wallet: &TrackedWallet, action: &str) -> (payload: String)
    ensures
        payload@ == json_object_text(
            tracked_wallet_update_members(
                wallet.wallet_address@,
                action@,
                wallet.is_active,
                wallet.id,
            ),
        ),
{
    let mut members: Vec<JsonMember> = Vec::new();
    members.push(text_entry("wallet_address", wallet.wallet_address.as_str()));
    members.push(text_entry("action", action));
    members.push(
        JsonMember { key: String::from_str("is_active"), value: JsonScalar::Bool(wallet.is_active) },
    );
    let id = match wallet.id {
        Some(id) => JsonScalar::Text(show_uuid(id)),
        None => JsonScalar::Null,
    };
    members.push(JsonMember { key: String::from_str("id"), value: id });
    assert(member_views(members@) =~= tracked_wallet_update_members(
        wallet.wallet_address@,
        action@,
        wallet.is_active,
        wallet.id,
    ));
    render_object(&members)
}

/// The payload that tells of a change to a wallet known by its address only.
pub fn wallet_address_update_payload(wallet_address: &str, action: &str) -> (payload: String)
    ensures
        payload@ == json_object_text(
            seq![
                ("wallet_address"@, ScalarView::Text(wallet_address@)),
                ("action"@, ScalarView::Text(action@)),
            ],
        ),
{
    let mut members: Vec<JsonMember> = Vec::new();
    members.push(text_entry("wallet_address", wallet_address));
    members.push(text_entry("action", action));
    assert(member_views(members@) =~= seq![
        ("wallet_address"@, ScalarView::Text(wallet_address@)),
        ("action"@, ScalarView::Text(action@)),
    ]);
    render_object(&members)
}

/// The payload that tells that copy-trade rules were deleted.
pub fn settings_delete_payload(settings_id: &str) -> (payload: String)
    ensures
        payload@ == json_object_text(seq![("settings_id"@, ScalarView::Text(settings_id@))]),
{
    let mut members: Vec<JsonMember> = Vec::new();
    members.push(text_entry("settings_id", settings_id));
    assert(member_views(members@) =~= seq![("settings_id"@, ScalarView::Text(settings_id@))]);
    render_object(&members)
}

/// A value inside a frame that the transport pushes. The library carries it
/// and reads it through [`frame_text`]; it never looks inside.
#[verifier::external_type_specification]
#[verifier::external_body]
pub struct ExFrameValue(redis::Value);

/// The text that a value of a frame holds, as `redis` converts it: the text
/// of a string of valid UTF-8, of a status or of a number; none for the rest.
pub uninterp spec fn frame_text_of(value: redis::Value) -> Option<Seq<char>>;

/// Reads a value of a frame as text with `redis::from_redis_value_ref`; a
/// value that is no text gives `None`.
#[verifier::external_body]
pub(crate) fn frame_text(value: &redis::Value) -> (text: Option<String>)
    ensures
        text is Some <==> frame_text_of(*value) is Some,
        text matches Some(read) ==> frame_text_of(*value) == Some(read@),
{
    redis::from_redis_value_ref::<String>(value).ok()
}

/// The kinds of frame that the relay tells apart: a message on a channel,
/// the confirmation of a subscription, and the rest.
#[derive(Debug, Clone, Copy, PartialEq, Eq, Structural)]
pub enum PushKind {
    Message,
    Subscribe,
    Other,
}

/// Why a frame leads to nothing.
#[derive(Debug, Clone, Copy, PartialEq, Eq, Structural)]
pub enum DropReason {
    /// The frame is no message, or has fewer than two values.
    NotAMessage,
    /// The payload is no text.
    UnreadablePayload,
    /// The name of the channel is no text.
    UnreadableChannel,
    /// The channel is none that the subscription covers.
    UnknownChannel,
    /// The payload of a wallet update is no JSON.
    MalformedUpdate,
    /// The wallet update names no action.
    MissingAction,
    /// The wallet update names an action that is none of add, archive,
    /// unarchive and delete.
    UnknownAction,
}

/// What to do with a frame.
#[derive(Debug)]
pub enum PushAction {
    /// A subscription was confirmed: go on.
    Acknowledged,
    /// Note the reason and go on.
    Dropped(DropReason),
    /// Decode the payload as copy-trade rules and send the event that they
    /// arrived.
    DecodeSettings { payload: String },
    /// Decode the payload as a price update and send the event that it
    /// arrived.
    DecodePriceUpdate { payload: String },
    /// Send the event.
    Emit(Event),
}

/// What a frame says, in terms of the texts it holds.
pub enum PushReading {
    Acknowledged,
    Dropped(DropReason),
    Settings { payload: Seq<char> },
    PriceUpdate { payload: Seq<char> },
    WalletChange { wallet_address: Seq<char>, change_type: WalletStateChangeType, document: serde_json::Value },
}

/// The change that an action of a wallet update names.
pub open spec fn change_type_named(action: Seq<char>) -> Option<WalletStateChangeType> {
    if action == "add"@ {
        Some(WalletStateChangeType::Added)
    } else if action == "archive"@ {
        Some(WalletStateChangeType::Archived)
    } else if action == "unarchive"@ {
        Some(WalletStateChangeType::Unarchived)
    } else if action == "delete"@ {
        Some(WalletStateChangeType::Deleted)
    } else {
        None
    }
}

/// The change that an action of a wallet update names, if it names one.
pub fn change_type_for(action: &str) -> (change_type: Option<WalletStateChangeType>)
    ensures
        change_type == change_type_named(action@),
{
    if same_text(action, "add") {
        Some(WalletStateChangeType::Added)
    } else if same_text(action, "archive") {
        Some(WalletStateChangeType::Archived)
    } else if same_text(action, "unarchive") {
        Some(WalletStateChangeType::Unarchived)
    } else if same_text(action, "delete") {
        Some(WalletStateChangeType::Deleted)
    } else {
        None
    }
}

/// What the payload of a wallet update says: the change that its action
/// names to the wallet whose address it gives, or to the wallet without
/// address where it gives none, with the whole document as details.
pub open spec fn wallet_update_reading(payload: Seq<char>) -> PushReading {
    match json_document(payload) {
        None => PushReading::Dropped(DropReason::MalformedUpdate),
        Some(document) => {
            let members = json_text_members(document);
            if !members.contains_key("action"@) {
                PushReading::Dropped(DropReason::MissingAction)
            } else {
                match change_type_named(members["action"@]) {
                    None => PushReading::Dropped(DropReason::UnknownAction),
                    Some(change_type) => PushReading::WalletChange {
                        wallet_address: if members.contains_key("wallet_address"@) {
                            members["wallet_address"@]
                        } else {
                            Seq::empty()
                        },
                        change_type,
                        document,
                    },
                }
            }
        },
    }
}

/// What a message says whose channel and payload read as given.
pub open spec fn message_reading(channel: Option<Seq<char>>, payload: Option<Seq<char>>) -> PushReading {
    match payload {
        None => PushReading::Dropped(DropReason::UnreadablePayload),
        Some(payload) => match channel {
            None => PushReading::Dropped(DropReason::UnreadableChannel),
            Some(channel) => match topic_named(channel) {
                Some(RelayTopic::Settings) => PushReading::Settings { payload },
                Some(RelayTopic::TrackedWallets) => wallet_update_reading(payload),
                Some(RelayTopic::PriceUpdates) => PushReading::PriceUpdate { payload },
                _ => PushReading::Dropped(DropReason::UnknownChannel),
            },
        },
    }
}

/// What a frame says: a message with at least two values says what its
/// first value, the channel, and its second, the payload, say.
pub open spec fn push_reading(kind: PushKind, data: Seq<redis::Value>) -> PushReading {
    match kind {
        PushKind::Message => if data.len() >= 2 {
            message_reading(frame_text_of(data[0]), frame_text_of(data[1]))
        } else {
            PushReading::Dropped(DropReason::NotAMessage)
        },
        PushKind::Subscribe => PushReading::Acknowledged,
        PushKind::Other => PushReading::Dropped(DropReason::NotAMessage),
    }
}

/// Whether `action` does what `reading` says, with `now` as the moment of a
/// change that it reports.
pub open spec fn carries_out(action: PushAction, reading: PushReading, now: Timestamp) -> bool {
    match reading {
        PushReading::Acknowledged => action is Acknowledged,
        PushReading::Dropped(reason) => action == PushAction::Dropped(reason),
        PushReading::Settings { payload } => action matches PushAction::DecodeSettings {
            payload: given,
        } && given@ == payload,
        PushReading::PriceUpdate { payload } => action matches PushAction::DecodePriceUpdate {
            payload: given,
        } && given@ == payload,
        PushReading::WalletChange { wallet_address, change_type, document } => {
            &&& action matches PushAction::Emit(Event::WalletStateChange(notification))
            &&& notification.type_@ == "wallet_state_change"@
            &&& notification.data.wallet_address@ == wallet_address
            &&& notification.data.change_type == change_type
            &&& notification.data.timestamp == now
            &&& notification.data.details == Some(document)
        },
    }
}

/// The text of a text that may be missing.
pub open spec fn text_of(text: Option<String>) -> Option<Seq<char>> {
    match text {
        Some(text) => Some(text@),
        None => None,
    }
}

/// Turns the payload of a wallet update into the event that it reports,
/// noted at `now`.
pub fn read_wallet_update(payload: &str, now: Timestamp) -> (action: PushAction)
    ensures
        carries_out(action, wallet_update_reading(payload@), now),
{
    let document = match parse_json(payload) {
        Some(document) => document,
        None => {
            return PushAction::Dropped(DropReason::MalformedUpdate);
        },
    };
    let action = match text_member(&document, "action") {
        Some(action) => action,
        None => {
            return PushAction::Dropped(DropReason::MissingAction);
        },
    };
    let change_type = match change_type_for(action.as_str()) {
        Some(change_type) => change_type,
        None => {
            return PushAction::Dropped(DropReason::UnknownAction);
        },
    };
    let wallet_address = match text_member(&document, "wallet_address") {
        Some(wallet_address) => wallet_address,
        None => String::new(),
    };
    let change = WalletStateChange::at(wallet_address, change_type, now).with_details(document);
    PushAction::Emit(Event::wallet_state_changed(change))
}

/// Says what to do with a message whose channel and payload read as given.
pub fn route_message(channel: Option<String>, payload: Option<String>, now: Timestamp) -> (action:
    PushAction)
    ensures
        carries_out(action, message_reading(text_of(channel), text_of(payload)), now),
{
    let payload = match payload {
        Some(payload) => payload,
        None => {
            return PushAction::Dropped(DropReason::UnreadablePayload);
        },
    };
    let channel = match channel {
        Some(channel) => channel,
        None => {
            return PushAction::Dropped(DropReason::UnreadableChannel);
        },
    };
    match topic_of(channel.as_str()) {
        Some(RelayTopic::Settings) => PushAction::DecodeSettings { payload },
        Some(RelayTopic::TrackedWallets) => read_wallet_update(payload.as_str(), now),
        Some(RelayTopic::PriceUpdates) => PushAction::DecodePriceUpdate { payload },
        _ => PushAction::Dropped(DropReason::UnknownChannel),
    }
}

/// Says what to do with a frame of the subscription to updates, with `now`
/// as the moment of a change that it reports.
pub fn dispatch_push_at(kind: PushKind, data: &Vec<redis::Value>, now: Timestamp) -> (action:
    PushAction)
    ensures
        carries_out(action, push_reading(kind, data@), now),
{
    match kind {
        PushKind::Message => {
            if data.len() >= 2 {
                let payload = frame_text(&data[1]);
                let channel = frame_text(&data[0]);
                route_message(channel, payload, now)
            } else {
                PushAction::Dropped(DropReason::NotAMessage)
            }
        },
        PushKind::Subscribe => PushAction::Acknowledged,
        PushKind::Other => PushAction::Dropped(DropReason::NotAMessage),
    }
}

/// Says what to do with a frame of the subscription to updates. A change
/// that it reports is noted at the moment of the call.
pub fn dispatch_push(kind: PushKind, data: &Vec<redis::Value>) -> (action: PushAction)
    ensures
        exists|now: Timestamp| carries_out(action, push_reading(kind, data@), now),
{
    let now = now_utc();
    let action = dispatch_push_at(kind, data, now);
    assert(carries_out(action, push_reading(kind, data@), now));
    action
}

/// The payload of a frame of the subscription to the price of SOL: the
/// second value of a message with at least two values, where it is text.
pub open spec fn sol_price_reading(kind: PushKind, data: Seq<redis::Value>) -> Option<Seq<char>> {
    if kind == PushKind::Message && data.len() >= 2 {
        frame_text_of(data[1])
    } else {
        None
    }
}

/// The payload to decode as a price of SOL, if the frame carries one.
pub fn sol_price_payload(kind: PushKind, data: &Vec<redis::Value>) -> (payload: Option<String>)
    ensures
        text_of(payload) == sol_price_reading(kind, data@),
{
    match kind {
        PushKind::Message => {
            if data.len() >= 2 {
                frame_text(&data[1])
            } else {
                None
            }
        },
        _ => None,
    }
}

/// The steps of setting a connection of the relay up.
#[derive(Debug, Clone, Copy, PartialEq, Eq, Structural)]
pub enum SetupStage {
    CreateClient,
    Connect,
    OpenSubscription,
    Subscribe,
}

impl SetupStage {
    /// The words that introduce the cause when the step fails.
    pub open spec fn failure_label(self) -> Seq<char> {
        match self {
            SetupStage::CreateClient => "Failed to create Redis client: "@,
            SetupStage::Connect => "Failed to create Redis connection: "@,
            SetupStage::OpenSubscription => "Failed to create connection: "@,
            SetupStage::Subscribe => "Failed to subscribe: "@,
        }
    }

    /// The error with which setting up fails at this step for `cause`. A
    /// forwarder of prices reports it as an error of the relay, the others
    /// without category.
    pub fn failure(self, forwarding: bool, cause: &String) -> (error: AppError)
        ensures
            error.detail() == self.failure_label() + cause@,
            forwarding ==> error is RedisError,
            !forwarding ==> error is Generic,
    {
        let why = match self {
            SetupStage::CreateClient => labelled("Failed to create Redis client: ", cause),
            SetupStage::Connect => labelled("Failed to create Redis connection: ", cause),
            SetupStage::OpenSubscription => labelled("Failed to create connection: ", cause),
            SetupStage::Subscribe => labelled("Failed to subscribe: ", cause),
        };
        if forwarding {
            AppError::RedisError(why)
        } else {
            AppError::Generic(why)
        }
    }
}

/// What the attempt to connect the publishing side comes to: the condition
/// of the link to report, with details where it failed, and the result for
/// the caller.
#[derive(Debug)]
pub struct ConnectionReport {
    pub status: ConnectionStatus,
    pub details: Option<String>,
    pub result: Result<(), AppError>,
}

/// Turns the outcome of connecting the publishing side, `Ok` or the cause of
/// the failure, into what is reported.
pub fn connection_opened(outcome: Result<(), String>) -> (report: ConnectionReport)
    ensures
        outcome is Ok ==> report.status == ConnectionStatus::Connected && report.details is None
            && report.result is Ok,
        outcome matches Err(cause) ==> (report.status == ConnectionStatus::Error
            && report.details == Some(cause) && (report.result matches Err(AppError::Generic(why))
            && why@ == "Failed to create Redis connection: "@ + cause@)),
{
    match outcome {
        Ok(()) => ConnectionReport { status: ConnectionStatus::Connected, details: None, result: Ok(()) },
        Err(cause) => {
            let error = SetupStage::Connect.failure(false, &cause);
            ConnectionReport {
                status: ConnectionStatus::Error,
                details: Some(cause),
                result: Err(error),
            }
        },
    }
}

/// What a probe of the link comes to: the answer for the caller, and the
/// details under which the link is reported as failed where the probe did
/// not get through.
#[derive(Debug)]
pub struct HealthReport {
    pub healthy: Result<bool, AppError>,
    pub status_details: Option<String>,
}

/// Turns the reply to a probe, or the cause of its failure, into what is
/// reported. The link is healthy where the reply is `PONG`.
pub fn health_from_reply(reply: Result<String, String>) -> (report: HealthReport)
    ensures
        reply matches Ok(answer) ==> (report.healthy matches Ok(healthy) && healthy == (answer@
            == "PONG"@)) && report.status_details is None,
        reply matches Err(cause) ==> (report.healthy matches Err(AppError::Generic(why)) && why@
            == "Redis health check failed: "@ + cause@) && (report.status_details matches Some(
            details,
        ) && details@ == "Redis health check failed: "@ + cause@),
{
    match reply {
        Ok(answer) => HealthReport {
            healthy: Ok(same_text(answer.as_str(), "PONG")),
            status_details: None,
        },
        Err(cause) => HealthReport {
            healthy: Err(AppError::Generic(labelled("Redis health check failed: ", &cause))),
            status_details: Some(labelled("Redis health check failed: ", &cause)),
        },
    }
}

/// What the task that keeps a subscription alive does after a probe.
#[derive(Debug, Clone, Copy, PartialEq, Eq, Structural)]
pub enum KeepAliveStep {
    /// Probe again after the delay.
    ProbeAfter { delay_ms: u64 },
    /// End the task. The subscription is left as it is.
    Stop,
}

/// Says what follows a probe: the next one after the interval where it got
/// through, the end of the task where it did not.
pub fn keep_alive_step(probe_got_through: bool) -> (step: KeepAliveStep)
    ensures
        probe_got_through ==> step == (KeepAliveStep::ProbeAfter { delay_ms: KEEP_ALIVE_INTERVAL_MS }),
        !probe_got_through ==> step == KeepAliveStep::Stop,
{
    if probe_got_through {
        KeepAliveStep::ProbeAfter { delay_ms: KEEP_ALIVE_INTERVAL_MS }
    } else {
        KeepAliveStep::Stop
    }
}

/// Whether a failure at second `now` is reported when the last report was at
/// `last_report`: always the first time, then only after more than
/// `ERROR_LOG_INTERVAL_SECS` seconds.
pub open spec fn is_report_due(last_report: Option<u64>, now: u64) -> bool {
    match last_report {
        None => true,
        Some(last) => now - last > ERROR_LOG_INTERVAL_SECS,
    }
}

/// What a forwarder of prices does when a run of its subscription has ended.
#[derive(Debug, Clone, Copy, PartialEq, Eq, Structural)]
pub enum ForwardStep {
    /// The run ended without failure: the forwarder ends too.
    Finish,
    /// The run failed: subscribe again after the delay, and report the
    /// failure if `report` says so.
    RetryAfter { delay_ms: u64, report: bool },
}

/// Says what follows a run of the subscription that ended at second `now`,
/// and when the last failure was reported after it.
pub fn forwarding_step(run_failed: bool, last_report: Option<u64>, now: u64) -> (next: (
    ForwardStep,
    Option<u64>,
))
    ensures
        !run_failed ==> next == (ForwardStep::Finish, last_report),
        run_failed ==> next.0 == (ForwardStep::RetryAfter {
            delay_ms: RECONNECT_DELAY_MS,
            report: is_report_due(last_report, now),
        }),
        run_failed && is_report_due(last_report, now) ==> next.1 == Some(now),
        run_failed && !is_report_due(last_report, now) ==> next.1 == last_report,
{
    if !run_failed {
        return (ForwardStep::Finish, last_report);
    }
    let report = match last_report {
        None => true,
        Some(last) => now > last && now - last > ERROR_LOG_INTERVAL_SECS,
    };
    if report {
        (ForwardStep::RetryAfter { delay_ms: RECONNECT_DELAY_MS, report: true }, Some(now))
    } else {
        (ForwardStep::RetryAfter { delay_ms: RECONNECT_DELAY_MS, report: false }, last_report)
    }
}

} // verus!
