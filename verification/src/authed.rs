//! What each request of an authenticated group comes to.
//!
//! A request is served in steps. The store and the channel are outside this
//! library: each function here looks at the request and at what is known so
//! far, the [`Progress`], and says what is to be done next, the [`Step`]. Whoever
//! drives it does that, records what came of it as an [`Event`], and asks again,
//! until the step is a reply.

use crate::collection_log::CollectionLogInfo;
use crate::discord_webhook::{
    is_acceptable_webhook_url, optional_delivery, optional_text, send_item_request_webhook,
    send_item_request_webhook_at, validate_webhook_url, webhook_step, DiscordWebhookPayload,
    EmbedView, ItemRequestData, ItemRequestDataView, MemberQuantities, WebhookDelivery,
    WebhookDeliveryView, WebhookStep, WebhookStepView,
};
use crate::error::{
    ApiError, ApiErrorView, AuthorizationError, ConfigurationError, ConfigurationErrorView,
};
use crate::models::{
    is_reserved_name, is_shared_member, is_valid_name, valid_name, GroupMember, MemberField,
    RenameGroupMember,
};
use crate::validators::{
    collection_log_known, every_part_fits, lemma_member_check, lemma_misfit_is_named,
    length_fault, member_check, validate_group_member,
};
use vstd::prelude::*;

verus! {

/// The span of time over which skill history is asked for.
#[derive(Debug, Clone, Copy, PartialEq, Eq, Structural)]
pub enum SkillDataPeriod {
    Day,
    Week,
    Month,
    Year,
}

/// The grain at which the store keeps skill history.
#[derive(Debug, Clone, Copy, PartialEq, Eq, Structural)]
pub enum AggregatePeriod {
    Day,
    Month,
    Year,
}

/// A request for the group's skill history.
#[derive(Debug, Clone, Copy, PartialEq, Eq, Structural)]
pub struct GetSkillDataQuery {
    pub period: SkillDataPeriod,
}

/// A request for one member's collection log.
#[derive(Debug, Clone, PartialEq, Eq)]
pub struct CollectionLogQuery {
    pub member_name: String,
}

/// A member's request for an item that others may hold.
#[derive(Debug, Clone, PartialEq, Eq)]
pub struct ItemRequest {
    pub item_id: i32,
    pub item_name: String,
    pub quantity: i32,
    pub note: Option<String>,
    pub member_quantities: MemberQuantities,
    pub requester_name: String,
}

impl ItemRequest {
    /// What is asked for, without the name of who asks.
    pub open spec fn data_view(&self) -> ItemRequestDataView {
        ItemRequestDataView {
            item_id: self.item_id as int,
            item_name: self.item_name@,
            quantity: self.quantity as int,
            note: optional_text(self.note),
            member_quantities: self.member_quantities@,
        }
    }

    /// What is asked for, without the name of who asks.
    pub fn data(&self) -> (d: ItemRequestData)
        ensures
            d@ == self.data_view(),
    {
        ItemRequestData {
            item_id: self.item_id,
            item_name: self.item_name.clone(),
            quantity: self.quantity,
            note: match &self.note {
                Some(n) => Some(n.clone()),
                None => None,
            },
            member_quantities: self.member_quantities.copy(),
        }
    }
}

/// A group's notification settings: where item requests are sent, and whether they are sent.
#[derive(Debug, Clone, PartialEq, Eq)]
pub struct WebhookSettings {
    pub discord_webhook_url: Option<String>,
    pub item_requests_enabled: bool,
}

/// The notification settings that a group is to have from now on.
#[derive(Debug, Clone, PartialEq, Eq)]
pub struct UpdateWebhookSettings {
    pub discord_webhook_url: Option<String>,
    pub item_requests_enabled: bool,
}

/// What notification settings hold, as plain values.
pub struct WebhookSettingsView {
    pub discord_webhook_url: Option<Seq<char>>,
    pub item_requests_enabled: bool,
}

impl View for WebhookSettings {
    type V = WebhookSettingsView;

    open spec fn view(&self) -> WebhookSettingsView {
        WebhookSettingsView {
            discord_webhook_url: optional_text(self.discord_webhook_url),
            item_requests_enabled: self.item_requests_enabled,
        }
    }
}

impl WebhookSettings {
    /// The same settings once more.
    pub fn copy(&self) -> (r: WebhookSettings)
        ensures
            r@ == self@,
    {
        WebhookSettings {
            discord_webhook_url: match &self.discord_webhook_url {
                Some(url) => Some(url.clone()),
                None => None,
            },
            item_requests_enabled: self.item_requests_enabled,
        }
    }
}

impl View for UpdateWebhookSettings {
    type V = WebhookSettingsView;

    open spec fn view(&self) -> WebhookSettingsView {
        WebhookSettingsView {
            discord_webhook_url: optional_text(self.discord_webhook_url),
            item_requests_enabled: self.item_requests_enabled,
        }
    }
}

/// What has come back so far from the store and from the channel while one
/// request is served. A request starts with [`Progress::new`].
#[derive(Debug, Clone, PartialEq, Eq)]
pub struct Progress {
    /// The store could not be reached, or it refused an operation.
    pub failed: bool,
    /// Whether the name that the request is about belongs to the group, once the store has said.
    pub in_group: Option<bool>,
    /// The group's notification settings, once the store has handed them over.
    pub settings: Option<WebhookSettings>,
    /// Whether the store has applied the request's change.
    pub stored: bool,
    /// What came of posting the message, once it was tried.
    pub delivery: Option<WebhookDelivery>,
}

/// What a [`Progress`] holds, as plain values.
pub struct ProgressView {
    pub failed: bool,
    pub in_group: Option<bool>,
    pub settings: Option<WebhookSettingsView>,
    pub stored: bool,
    pub delivery: Option<WebhookDeliveryView>,
}

impl View for Progress {
    type V = ProgressView;

    open spec fn view(&self) -> ProgressView {
        ProgressView {
            failed: self.failed,
            in_group: self.in_group,
            settings: match self.settings {
                Some(s) => Some(s@),
                None => None,
            },
            stored: self.stored,
            delivery: optional_delivery(self.delivery),
        }
    }
}

impl Progress {
    /// Nothing is known yet.
    pub fn new() -> (p: Progress)
        ensures
            p@ == (ProgressView {
                failed: false,
                in_group: None,
                settings: None,
                stored: false,
                delivery: None,
            }),
    {
        Progress { failed: false, in_group: None, settings: None, stored: false, delivery: None }
    }
}

/// What came of the step that was last asked for.
#[derive(Debug, Clone, PartialEq, Eq)]
pub enum Event {
    /// The store could not be reached, or it refused the operation.
    Failed,
    /// The store has said whether the name is a member of the group.
    Membership(bool),
    /// The store has handed over the group's notification settings.
    Settings(WebhookSettings),
    /// The store has applied the request's change.
    Stored,
    /// The message was posted, with this outcome.
    Delivered(WebhookDelivery),
}

/// What an [`Event`] holds, as plain values.
pub enum EventView {
    Failed,
    Membership(bool),
    Settings(WebhookSettingsView),
    Stored,
    Delivered(WebhookDeliveryView),
}

impl View for Event {
    type V = EventView;

    open spec fn view(&self) -> EventView {
        match *self {
            Event::Failed => EventView::Failed,
            Event::Membership(in_group) => EventView::Membership(in_group),
            Event::Settings(settings) => EventView::Settings(settings@),
            Event::Stored => EventView::Stored,
            Event::Delivered(delivery) => EventView::Delivered(delivery@),
        }
    }
}

/// What is known once `event` has come in after `progress`: the event's part is
/// recorded, and everything else stays as it was.
pub open spec fn recorded(progress: ProgressView, event: EventView) -> ProgressView {
    match event {
        EventView::Failed => ProgressView { failed: true, ..progress },
        EventView::Membership(in_group) => ProgressView { in_group: Some(in_group), ..progress },
        EventView::Settings(settings) => ProgressView { settings: Some(settings), ..progress },
        EventView::Stored => ProgressView { stored: true, ..progress },
        EventView::Delivered(delivery) => ProgressView { delivery: Some(delivery), ..progress },
    }
}

impl Progress {
    /// Records what came of the step that was last asked for.
    pub fn record(&mut self, event: Event)
        ensures
            final(self)@ == recorded(old(self)@, event@),
    {
        match event {
            Event::Failed => {
                self.failed = true;
            },
            Event::Membership(in_group) => {
                self.in_group = Some(in_group);
            },
            Event::Settings(settings) => {
                self.settings = Some(settings);
            },
            Event::Stored => {
                self.stored = true;
            },
            Event::Delivered(delivery) => {
                self.delivery = Some(delivery);
            },
        }
    }
}

/// What the caller is told when an item request has reached the channel.
pub const ITEM_REQUEST_SENT: &'static str = "Item request sent successfully";

/// How a request ends when nothing went wrong.
#[derive(Debug, Clone, PartialEq, Eq)]
pub enum Success {
    /// A member was added.
    Created,
    /// The request was carried out; there is nothing to hand back.
    Done,
    /// The item request reached the channel.
    ItemRequestSent,
    /// The group's settings were written, and these are what they are now.
    Settings(WebhookSettings),
}

/// What a [`Success`] holds, as plain values.
pub enum SuccessView {
    Created,
    Done,
    ItemRequestSent,
    Settings(WebhookSettingsView),
}

impl View for Success {
    type V = SuccessView;

    open spec fn view(&self) -> SuccessView {
        match *self {
            Success::Created => SuccessView::Created,
            Success::Done => SuccessView::Done,
            Success::ItemRequestSent => SuccessView::ItemRequestSent,
            Success::Settings(s) => SuccessView::Settings(s@),
        }
    }
}

impl Success {
    /// The HTTP status under which the request is answered: 201 where a member was
    /// added, else 200.
    pub fn status_code(&self) -> (code: u16)
        ensures
            code == if self@ is Created {
                201int
            } else {
                200int
            },
    {
        match self {
            Success::Created => 201,
            _ => 200,
        }
    }
}

/// What is to be done next for a request.
#[derive(Debug, PartialEq, Eq)]
pub enum Step {
    /// Ask the store whether `name` is a member of the group; the answer is an
    /// [`Event::Membership`].
    CheckMembership { name: String },
    /// Ask the store for the group's notification settings; they are an [`Event::Settings`].
    ReadSettings,
    /// Have the store apply the request's change, whole or not at all; once it has,
    /// that is an [`Event::Stored`].
    Store,
    /// Post `payload` to `url`, once; what comes of it is an [`Event::Delivered`].
    Post { url: String, payload: DiscordWebhookPayload },
    /// Answer the caller. Nothing more is to be done.
    Reply(Result<Success, ApiError>),
}

/// What a [`Step`] holds, as plain values.
pub enum StepView {
    CheckMembership { name: Seq<char> },
    ReadSettings,
    Store,
    Post { url: Seq<char>, payload: Seq<EmbedView> },
    Reply(Result<SuccessView, ApiErrorView>),
}

impl View for Step {
    type V = StepView;

    open spec fn view(&self) -> StepView {
        match *self {
            Step::CheckMembership { name } => StepView::CheckMembership { name: name@ },
            Step::ReadSettings => StepView::ReadSettings,
            Step::Store => StepView::Store,
            Step::Post { url, payload } => StepView::Post { url: url@, payload: payload@ },
            Step::Reply(r) => StepView::Reply(
                match r {
                    Ok(s) => Ok(s@),
                    Err(e) => Err(e@),
                },
            ),
        }
    }
}

/// The reply that refuses a request with a configuration error.
pub open spec fn refuse(e: ConfigurationErrorView) -> StepView {
    StepView::Reply(Err(ApiErrorView::Configuration(e)))
}

/// The reply that turns a name away because it is no member of the group.
pub open spec fn turn_away(e: AuthorizationError) -> StepView {
    StepView::Reply(Err(ApiErrorView::Authorization(e)))
}

/// The reply that tells of a failure of the store, and of nothing more.
pub open spec fn store_failed() -> StepView {
    StepView::Reply(Err(ApiErrorView::Persistence))
}

/// The reply that ends a request well.
pub open spec fn succeed(s: SuccessView) -> StepView {
    StepView::Reply(Ok(s))
}

/// The step for a change that is cleared to go to the store: the change itself
/// until it is applied, then the reply.
pub open spec fn store_then(progress: ProgressView, success: SuccessView) -> StepView {
    if progress.stored {
        succeed(success)
    } else {
        StepView::Store
    }
}

/// The step while membership guards a request: a failure of the store is
/// reported; the store is asked where nothing is known; a name that is no member
/// is turned away; and only a member goes on, to `then`.
pub open spec fn guarded(
    name: Seq<char>,
    progress: ProgressView,
    denial: AuthorizationError,
    then: StepView,
) -> StepView {
    if progress.failed {
        store_failed()
    } else {
        match progress.in_group {
            None => StepView::CheckMembership { name },
            Some(false) => turn_away(denial),
            Some(true) => then,
        }
    }
}

/// The steps of adding a member.
pub open spec fn add_group_member_step(name: Seq<char>, progress: ProgressView) -> StepView {
    if is_reserved_name(name) {
        refuse(ConfigurationErrorView::ReservedName)
    } else if !is_valid_name(name) {
        refuse(ConfigurationErrorView::InvalidName { name })
    } else if progress.failed {
        store_failed()
    } else {
        match progress.in_group {
            None => StepView::CheckMembership { name },
            Some(true) => refuse(ConfigurationErrorView::NameTaken { name }),
            Some(false) => store_then(progress, SuccessView::Created),
        }
    }
}

/// The steps of removing a member.
pub open spec fn delete_group_member_step(name: Seq<char>, progress: ProgressView) -> StepView {
    if is_reserved_name(name) {
        refuse(ConfigurationErrorView::ReservedName)
    } else {
        guarded(
            name,
            progress,
            AuthorizationError::PlayerNotInGroup,
            store_then(progress, SuccessView::Done),
        )
    }
}

/// The steps of giving a member another name.
pub open spec fn rename_group_member_step(
    original_name: Seq<char>,
    new_name: Seq<char>,
    progress: ProgressView,
) -> StepView {
    if is_reserved_name(original_name) || is_reserved_name(new_name) {
        refuse(ConfigurationErrorView::ReservedName)
    } else if !is_valid_name(new_name) {
        refuse(ConfigurationErrorView::InvalidName { name: new_name })
    } else {
        guarded(
            original_name,
            progress,
            AuthorizationError::PlayerNotInGroup,
            store_then(progress, SuccessView::Done),
        )
    }
}

/// The steps of asking whether a name belongs to the group.
pub open spec fn am_i_in_group_step(name: Seq<char>, progress: ProgressView) -> StepView {
    guarded(
        name,
        progress,
        AuthorizationError::PlayerNotInGroup,
        succeed(SuccessView::Done),
    )
}

/// The steps of writing a group's notification settings.
pub open spec fn update_webhook_settings_step(
    settings: WebhookSettingsView,
    progress: ProgressView,
) -> StepView {
    if settings.discord_webhook_url matches Some(url) && !is_acceptable_webhook_url(url) {
        refuse(ConfigurationErrorView::InvalidWebhookUrl)
    } else if progress.failed {
        store_failed()
    } else {
        store_then(progress, SuccessView::Settings(settings))
    }
}

/// The steps of reading a group's notification settings.
pub open spec fn get_webhook_settings_step(progress: ProgressView) -> StepView {
    if progress.failed {
        store_failed()
    } else {
        match progress.settings {
            None => StepView::ReadSettings,
            Some(settings) => succeed(SuccessView::Settings(settings)),
        }
    }
}

fn refusal(e: ConfigurationError) -> (step: Step)
    ensures
        step@ == refuse(e@),
{
    Step::Reply(Err(ApiError::Configuration(e)))
}

fn reply(s: Success) -> (step: Step)
    ensures
        step@ == succeed(s@),
{
    Step::Reply(Ok(s))
}

fn store_or_reply(progress: &Progress, success: Success) -> (step: Step)
    ensures
        step@ == store_then(progress@, success@),
{
    if progress.stored {
        reply(success)
    } else {
        Step::Store
    }
}

/// The step that the membership guard decides by itself, or `None` where
/// `name` is known to be a member and the request may go on.
fn guard(name: &str, progress: &Progress, denial: AuthorizationError) -> (r: Option<Step>)
    ensures
        r is None <==> !progress.failed && progress.in_group == Some(true),
        forall|then: StepView|
            r matches Some(step) ==> step@ == #[trigger] guarded(name@, progress@, denial, then),
{
    if progress.failed {
        Some(Step::Reply(Err(ApiError::Persistence)))
    } else {
        match progress.in_group {
            None => Some(Step::CheckMembership { name: name.to_owned() }),
            Some(false) => Some(Step::Reply(Err(ApiError::Authorization(denial)))),
            Some(true) => None,
        }
    }
}

/// Adds a member under `name`: never under the reserved name, never under a name
/// that is not valid, and never under a name that the group has already.
pub fn add_group_member(name: &str, progress: &Progress) -> (step: Step)
    ensures
        step@ == add_group_member_step(name@, progress@),
{
    if is_shared_member(name) {
        return refusal(ConfigurationError::ReservedName);
    }
    if !valid_name(name) {
        return refusal(ConfigurationError::InvalidName { name: name.to_owned() });
    }
    if progress.failed {
        return Step::Reply(Err(ApiError::Persistence));
    }
    match progress.in_group {
        None => Step::CheckMembership { name: name.to_owned() },
        Some(true) => refusal(ConfigurationError::NameTaken { name: name.to_owned() }),
        Some(false) => store_or_reply(progress, Success::Created),
    }
}

/// Removes the member `name`: never the shared pool, and only a member of the group.
pub fn delete_group_member(name: &str, progress: &Progress) -> (step: Step)
    ensures
        step@ == delete_group_member_step(name@, progress@),
{
    if is_shared_member(name) {
        return refusal(ConfigurationError::ReservedName);
    }
    match guard(name, progress, AuthorizationError::PlayerNotInGroup) {
        Some(step) => step,
        None => store_or_reply(progress, Success::Done),
    }
}

/// Gives a member another name: neither name may be the reserved one, the new
/// name must be valid, and the old one must belong to the group.
pub fn rename_group_member(rename_member: &RenameGroupMember, progress: &Progress) -> (step: Step)
    ensures
        step@ == rename_group_member_step(
            rename_member.original_name@,
            rename_member.new_name@,
            progress@,
        ),
{
    let original_name = rename_member.original_name.as_str();
    let new_name = rename_member.new_name.as_str();
    if is_shared_member(original_name) || is_shared_member(new_name) {
        return refusal(ConfigurationError::ReservedName);
    }
    if !valid_name(new_name) {
        return refusal(ConfigurationError::InvalidName { name: new_name.to_owned() });
    }
    match guard(original_name, progress, AuthorizationError::PlayerNotInGroup) {
        Some(step) => step,
        None => store_or_reply(progress, Success::Done),
    }
}

/// Answers whether `name` belongs to the group.
pub fn am_i_in_group(name: &str, progress: &Progress) -> (step: Step)
    ensures
        step@ == am_i_in_group_step(name@, progress@),
{
    match guard(name, progress, AuthorizationError::PlayerNotInGroup) {
        Some(step) => step,
        None => reply(Success::Done),
    }
}

/// Hands back a group's notification settings as the store has them.
pub fn get_webhook_settings(progress: &Progress) -> (step: Step)
    ensures
        step@ == get_webhook_settings_step(progress@),
{
    if progress.failed {
        return Step::Reply(Err(ApiError::Persistence));
    }
    match &progress.settings {
        None => Step::ReadSettings,
        Some(settings) => reply(Success::Settings(settings.copy())),
    }
}

/// Writes a group's notification settings. An address that is neither empty nor
/// a Discord webhook's is refused before anything is written.
pub fn update_webhook_settings(settings: &UpdateWebhookSettings, progress: &Progress) -> (step:
    Step)
    ensures
        step@ == update_webhook_settings_step(settings@, progress@),
{
    if let Some(url) = &settings.discord_webhook_url {
        if validate_webhook_url(url.as_str()).is_err() {
            return refusal(ConfigurationError::InvalidWebhookUrl);
        }
    }
    if progress.failed {
        return Step::Reply(Err(ApiError::Persistence));
    }
    let written = WebhookSettings {
        discord_webhook_url: match &settings.discord_webhook_url {
            Some(url) => Some(url.clone()),
            None => None,
        },
        item_requests_enabled: settings.item_requests_enabled,
    };
    store_or_reply(progress, Success::Settings(written))
}

/// The steps of replacing a member's whole state.
pub open spec fn update_group_member_step(
    member: &GroupMember,
    info: &CollectionLogInfo,
    progress: ProgressView,
) -> StepView {
    if is_reserved_name(member.name@) {
        refuse(ConfigurationErrorView::ReservedName)
    } else {
        guarded(
            member.name@,
            progress,
            AuthorizationError::PlayerNotInGroup,
            match member_check(member, info) {
                Err(e) => StepView::Reply(Err(ApiErrorView::Validation(e))),
                Ok(()) => store_then(progress, SuccessView::Done),
            },
        )
    }
}

/// Replaces the whole of a member's tracked state. The name must not be the
/// reserved one and must belong to the group, and the state must pass every
/// structural rule: only then is anything handed to the store, and then all of it.
pub fn update_group_member(
    group_member: &GroupMember,
    collection_log_info: &CollectionLogInfo,
    progress: &Progress,
) -> (step: Step)
    ensures
        step@ == update_group_member_step(group_member, collection_log_info, progress@),
{
    let name = group_member.name.as_str();
    if is_shared_member(name) {
        return refusal(ConfigurationError::ReservedName);
    }
    match guard(name, progress, AuthorizationError::PlayerNotInGroup) {
        Some(step) => step,
        None => match validate_group_member(group_member, collection_log_info) {
            Err(e) => Step::Reply(Err(ApiError::Validation(e))),
            Ok(()) => store_or_reply(progress, Success::Done),
        },
    }
}

/// What the channel's part of an item request comes to: the message to post, or
/// the reply that its delivery leads to.
pub open spec fn notify_step(step: WebhookStepView) -> StepView {
    match step {
        WebhookStepView::Post { url, payload } => StepView::Post { url, payload },
        WebhookStepView::Done(Ok(())) => succeed(SuccessView::ItemRequestSent),
        WebhookStepView::Done(Err(e)) => StepView::Reply(Err(ApiErrorView::Dispatch(e))),
    }
}

/// The address to which a group with these settings has item requests sent, or
/// the reason why it has none sent. An empty address counts as none.
pub open spec fn notification_address(settings: WebhookSettingsView) -> Result<
    Seq<char>,
    ConfigurationErrorView,
> {
    if !settings.item_requests_enabled {
        Err(ConfigurationErrorView::ItemRequestsDisabled)
    } else {
        match settings.discord_webhook_url {
            None => Err(ConfigurationErrorView::WebhookNotConfigured),
            Some(url) => if url.len() == 0 {
                Err(ConfigurationErrorView::WebhookNotConfigured)
            } else {
                Ok(url)
            },
        }
    }
}

/// The steps of an item request made at `timestamp`.
pub open spec fn request_item_step(
    request: &ItemRequest,
    progress: ProgressView,
    timestamp: Seq<char>,
) -> StepView {
    if is_reserved_name(request.requester_name@) {
        refuse(ConfigurationErrorView::ReservedName)
    } else {
        guarded(
            request.requester_name@,
            progress,
            AuthorizationError::RequesterNotInGroup,
            match progress.settings {
                None => StepView::ReadSettings,
                Some(settings) => match notification_address(settings) {
                    Err(e) => refuse(e),
                    Ok(url) => notify_step(
                        webhook_step(
                            url,
                            request.requester_name@,
                            request.data_view(),
                            timestamp,
                            progress.delivery,
                        ),
                    ),
                },
            },
        )
    }
}

/// Where a group with these settings has item requests sent, if it has.
pub fn notification_url(settings: &WebhookSettings) -> (r: Result<&str, ConfigurationError>)
    ensures
        match r {
            Ok(url) => notification_address(settings@) == Ok::<Seq<char>, ConfigurationErrorView>(
                url@,
            ),
            Err(e) => notification_address(settings@) == Err::<Seq<char>, ConfigurationErrorView>(
                e@,
            ),
        },
{
    if !settings.item_requests_enabled {
        return Err(ConfigurationError::ItemRequestsDisabled);
    }
    match &settings.discord_webhook_url {
        None => Err(ConfigurationError::WebhookNotConfigured),
        Some(url) => {
            if url.as_str().is_empty() {
                Err(ConfigurationError::WebhookNotConfigured)
            } else {
                Ok(url.as_str())
            }
        },
    }
}

/// Whether an item request has passed every check and is down to its
/// notification, and then the address that the notification goes to.
pub open spec fn cleared_for_notification(request: &ItemRequest, progress: ProgressView) -> Option<
    Seq<char>,
> {
    if is_reserved_name(request.requester_name@) || progress.failed || progress.in_group != Some(
        true,
    ) {
        None
    } else {
        match progress.settings {
            None => None,
            Some(settings) => match notification_address(settings) {
                Ok(url) => Some(url),
                Err(_) => None,
            },
        }
    }
}

/// The step of an item request that is decided before the channel comes into
/// it, or the address to notify where every check has passed.
fn screen_item_request<'a>(request: &ItemRequest, progress: &'a Progress) -> (r: Result<
    &'a str,
    Step,
>)
    ensures
        match r {
            Ok(url) => cleared_for_notification(request, progress@) == Some(url@),
            Err(step) => cleared_for_notification(request, progress@) is None && forall|
                timestamp: Seq<char>,
            |
                step@ == #[trigger] request_item_step(request, progress@, timestamp),
        },
{
    let requester = request.requester_name.as_str();
    if is_shared_member(requester) {
        return Err(refusal(ConfigurationError::ReservedName));
    }
    match guard(requester, progress, AuthorizationError::RequesterNotInGroup) {
        Some(step) => Err(step),
        None => match &progress.settings {
            None => Err(Step::ReadSettings),
            Some(settings) => match notification_url(settings) {
                Err(e) => Err(refusal(e)),
                Ok(url) => Ok(url),
            },
        },
    }
}

fn notify(step: WebhookStep) -> (r: Step)
    ensures
        r@ == notify_step(step@),
{
    match step {
        WebhookStep::Post { url, payload } => Step::Post { url, payload },
        WebhookStep::Done(Ok(())) => reply(Success::ItemRequestSent),
        WebhookStep::Done(Err(e)) => Step::Reply(Err(ApiError::Dispatch(e))),
    }
}

/// Serves an item request with `timestamp` as its moment. The requester must
/// not bear the reserved name and must belong to the group; the group must have
/// item requests switched on and an address to send them to. Only then is a
/// message posted, once; a delivery that fails is reported, never passed over.
pub fn request_item_at(request: &ItemRequest, progress: &Progress, timestamp: String) -> (step:
    Step)
    ensures
        step@ == request_item_step(request, progress@, timestamp@),
{
    match screen_item_request(request, progress) {
        Err(step) => step,
        Ok(url) => {
            let request_data = request.data();
            notify(
                send_item_request_webhook_at(
                    url,
                    request.requester_name.as_str(),
                    &request_data,
                    timestamp,
                    &progress.delivery,
                ),
            )
        },
    }
}

/// Serves an item request. The message's timestamp is the moment of this call;
/// everything else is as [`request_item_at`] says.
pub fn request_item(request: &ItemRequest, progress: &Progress) -> (step: Step)
    ensures
        exists|timestamp: Seq<char>|
            step@ == #[trigger] request_item_step(request, progress@, timestamp),
{
    match screen_item_request(request, progress) {
        Err(step) => {
            assert(step@ == request_item_step(request, progress@, Seq::empty()));
            step
        },
        Ok(url) => {
            let request_data = request.data();
            let sent = send_item_request_webhook(
                url,
                request.requester_name.as_str(),
                &request_data,
                &progress.delivery,
            );
            proof {
                let timestamp = choose|timestamp: Seq<char>|
                    sent@ == #[trigger] webhook_step(
                        url@,
                        request.requester_name@,
                        request_data@,
                        timestamp,
                        optional_delivery(progress.delivery),
                    );
                assert(notify_step(sent@) == request_item_step(request, progress@, timestamp));
            }
            notify(sent)
        },
    }
}

/// The grain at which the history for `period` is read. A week is read at the
/// grain of a month, as a month is.
pub open spec fn aggregate_period(period: SkillDataPeriod) -> AggregatePeriod {
    match period {
        SkillDataPeriod::Day => AggregatePeriod::Day,
        SkillDataPeriod::Week => AggregatePeriod::Month,
        SkillDataPeriod::Month => AggregatePeriod::Month,
        SkillDataPeriod::Year => AggregatePeriod::Year,
    }
}

/// Picks the grain at which the store is asked for the group's skill history.
pub fn get_skill_data(query: &GetSkillDataQuery) -> (period: AggregatePeriod)
    ensures
        period == aggregate_period(query.period),
{
    match query.period {
        SkillDataPeriod::Day => AggregatePeriod::Day,
        SkillDataPeriod::Week => AggregatePeriod::Month,
        SkillDataPeriod::Month => AggregatePeriod::Month,
        SkillDataPeriod::Year => AggregatePeriod::Year,
    }
}

/// A request that is about the reserved name is refused whatever else holds of
/// it: whatever the store has said, whatever state was submitted. So it is
/// refused before anything is checked, stored or sent.
pub proof fn lemma_reserved_name_is_refused(
    name: Seq<char>,
    other_name: Seq<char>,
    member: &GroupMember,
    info: &CollectionLogInfo,
    request: &ItemRequest,
    progress: ProgressView,
    timestamp: Seq<char>,
)
    requires
        is_reserved_name(name),
    ensures
        add_group_member_step(name, progress) == refuse(ConfigurationErrorView::ReservedName),
        delete_group_member_step(name, progress) == refuse(ConfigurationErrorView::ReservedName),
        rename_group_member_step(name, other_name, progress) == refuse(
            ConfigurationErrorView::ReservedName,
        ),
        rename_group_member_step(other_name, name, progress) == refuse(
            ConfigurationErrorView::ReservedName,
        ),
        member.name@ == name ==> update_group_member_step(member, info, progress) == refuse(
            ConfigurationErrorView::ReservedName,
        ),
        request.requester_name@ == name ==> request_item_step(request, progress, timestamp)
            == refuse(ConfigurationErrorView::ReservedName),
{
}

/// Whether a step hands anything to the store or to the channel, or tells the
/// caller that the request was carried out.
pub open spec fn takes_effect(step: StepView) -> bool {
    step is Store || step is Post || step matches StepView::Reply(Ok(_))
}

/// A change to a member goes to the store only for a name that the store has
/// said is a member, and a member is added only under a name that the store has
/// said is free. Until then nothing is stored or sent, and no request succeeds.
pub proof fn lemma_membership_guards_mutation(
    name: Seq<char>,
    new_name: Seq<char>,
    member: &GroupMember,
    info: &CollectionLogInfo,
    request: &ItemRequest,
    progress: ProgressView,
    timestamp: Seq<char>,
)
    ensures
        progress.in_group != Some(true) ==> {
            &&& !takes_effect(delete_group_member_step(name, progress))
            &&& !takes_effect(rename_group_member_step(name, new_name, progress))
            &&& !takes_effect(update_group_member_step(member, info, progress))
            &&& !takes_effect(request_item_step(request, progress, timestamp))
            &&& !takes_effect(am_i_in_group_step(name, progress))
        },
        progress.in_group != Some(false) ==> !takes_effect(add_group_member_step(name, progress)),
{
}

/// Whether a request about `name` has passed the checks on the name itself and
/// on membership: the name is not the reserved one, the store has not failed,
/// and the store has said that the name is a member.
pub open spec fn admitted(name: Seq<char>, progress: ProgressView) -> bool {
    !is_reserved_name(name) && !progress.failed && progress.in_group == Some(true)
}

/// An update for a name that is no member of the group is turned away as
/// unauthorized, whatever state it carries. The reserved name is refused as
/// such, and a failure of the store is reported as such, before membership counts.
pub proof fn lemma_update_for_non_member_is_turned_away(
    member: &GroupMember,
    info: &CollectionLogInfo,
    progress: ProgressView,
)
    requires
        !is_reserved_name(member.name@),
        !progress.failed,
        progress.in_group == Some(false),
    ensures
        update_group_member_step(member, info, progress) == turn_away(
            AuthorizationError::PlayerNotInGroup,
        ),
{
}

/// An update goes to the store only with a state that passes every rule, and
/// an update whose state passes every rule, for a member of the group, goes to
/// the store and then succeeds.
pub proof fn lemma_update_stores_valid_state_only(
    member: &GroupMember,
    info: &CollectionLogInfo,
    progress: ProgressView,
)
    ensures
        takes_effect(update_group_member_step(member, info, progress)) ==> {
            &&& admitted(member.name@, progress)
            &&& every_part_fits(member)
            &&& collection_log_known(info, member.collection_log@)
        },
        admitted(member.name@, progress) && every_part_fits(member) && collection_log_known(
            info,
            member.collection_log@,
        ) ==> update_group_member_step(member, info, progress) == store_then(
            progress,
            SuccessView::Done,
        ),
{
    lemma_member_check(member, info);
}

/// An update for a member of the group in which one part has a length outside
/// its bounds, while every other part fits, fails with the error that names that part.
pub proof fn lemma_update_names_misfit(
    member: &GroupMember,
    info: &CollectionLogInfo,
    progress: ProgressView,
    field: MemberField,
)
    requires
        admitted(member.name@, progress),
        !member.fits(field),
        forall|other: MemberField| other != field ==> #[trigger] member.fits(other),
    ensures
        update_group_member_step(member, info, progress) == StepView::Reply(
            Err(ApiErrorView::Validation(length_fault(member, field))),
        ),
{
    lemma_misfit_is_named(member, info, field);
}

/// An update for a member of the group whose collection log has a key that the
/// schema does not list fails with a validation error.
pub proof fn lemma_update_refuses_unknown_key(
    member: &GroupMember,
    info: &CollectionLogInfo,
    progress: ProgressView,
)
    requires
        admitted(member.name@, progress),
        !collection_log_known(info, member.collection_log@),
    ensures
        update_group_member_step(member, info, progress) matches StepView::Reply(
            Err(ApiErrorView::Validation(_)),
        ),
{
}

/// Settings with an address that is neither empty nor a Discord webhook's are
/// refused and never reach the store, so what the group had stays as it was.
/// Settings with no address, an empty one or a Discord webhook's are written as
/// they are and handed back.
pub proof fn lemma_settings_written_only_with_acceptable_address(
    settings: WebhookSettingsView,
    progress: ProgressView,
)
    ensures
        (settings.discord_webhook_url matches Some(url) && !is_acceptable_webhook_url(url))
            ==> update_webhook_settings_step(settings, progress) == refuse(
            ConfigurationErrorView::InvalidWebhookUrl,
        ),
        (settings.discord_webhook_url matches Some(url) ==> is_acceptable_webhook_url(url))
            && !progress.failed ==> update_webhook_settings_step(settings, progress) == store_then(
            progress,
            SuccessView::Settings(settings),
        ),
{
}

/// A message is posted only for a requester that is a member of the group, with
/// item requests switched on and an address that is not empty, and only while no
/// delivery has been tried. With item requests switched off, or without an
/// address, the request is refused instead, whatever is known of a delivery.
pub proof fn lemma_post_needs_enabled_and_address(
    request: &ItemRequest,
    progress: ProgressView,
    timestamp: Seq<char>,
)
    ensures
        request_item_step(request, progress, timestamp) matches StepView::Post { url, payload } ==> {
            &&& admitted(request.requester_name@, progress)
            &&& progress.delivery is None
            &&& progress.settings matches Some(settings)
            &&& settings.item_requests_enabled
            &&& settings.discord_webhook_url == Some(url)
            &&& url.len() > 0
        },
        admitted(request.requester_name@, progress) ==> (progress.settings matches Some(settings)
            ==> (notification_address(settings) matches Err(e) ==> request_item_step(
            request,
            progress,
            timestamp,
        ) == refuse(e))),
{
}

/// A request asks the store for one change at most: once the store has applied
/// it, no step asks the store to apply anything again. So a member's state goes
/// to the store as a whole, in one step, never part by part.
pub proof fn lemma_one_change_for_each_request(
    name: Seq<char>,
    new_name: Seq<char>,
    member: &GroupMember,
    info: &CollectionLogInfo,
    settings: WebhookSettingsView,
    progress: ProgressView,
)
    requires
        progress.stored,
    ensures
        !(add_group_member_step(name, progress) is Store),
        !(delete_group_member_step(name, progress) is Store),
        !(rename_group_member_step(name, new_name, progress) is Store),
        !(update_group_member_step(member, info, progress) is Store),
        !(update_webhook_settings_step(settings, progress) is Store),
{
}

/// A delivery that fails is reported: once a delivery is known, an item request
/// succeeds only if the answer's status was from 200 to 299.
pub proof fn lemma_failed_delivery_is_reported(
    request: &ItemRequest,
    progress: ProgressView,
    timestamp: Seq<char>,
)
    ensures
        request_item_step(request, progress, timestamp) == succeed(SuccessView::ItemRequestSent)
            ==> (progress.delivery matches Some(WebhookDeliveryView::Answered { status, body })
            && 200 <= status <= 299),
{
}

} // verus!
