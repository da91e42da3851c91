//! Item requests as notifications to a group's Discord channel: what is sent,
//! where it may be sent, and what the answer means.

use crate::error::ConfigurationError;
use crate::models::{is_reserved_name, is_shared_member};
use crate::text::{append_integer, decimal, has_prefix, same_text};
use vstd::prelude::*;

verus! {

/// The status of an answer over HTTP: a number from 100 to 999.
#[derive(Debug, Clone, Copy, PartialEq, Eq)]
pub struct HttpStatus {
    code: u16,
}

impl View for HttpStatus {
    type V = int;

    closed spec fn view(&self) -> int {
        self.code as int
    }
}

impl HttpStatus {
    #[verifier::type_invariant]
    spec fn in_range(&self) -> bool {
        100 <= self.code <= 999
    }

    /// The status with the number `code`, where there is one.
    pub fn new(code: u16) -> (r: Option<HttpStatus>)
        ensures
            r is Some <==> 100 <= code <= 999,
            r matches Some(s) ==> s@ == code,
    {
        if 100 <= code && code <= 999 {
            Some(HttpStatus { code })
        } else {
            None
        }
    }

    /// The status's number.
    pub fn code(&self) -> (r: u16)
        ensures
            r == self@,
            100 <= r <= 999,
    {
        proof {
            use_type_invariant(self);
        }
        self.code
    }

    /// Whether the status says that the request succeeded: a number from 200 to 299.
    pub fn is_success(&self) -> (r: bool)
        ensures
            r == (200 <= self@ <= 299),
    {
        200 <= self.code && self.code <= 299
    }
}

/// What a status is called in text: its number and the reason phrase that goes with it.
pub uninterp spec fn status_display(code: u16) -> Seq<char>;

/// Renders a status as `reqwest::StatusCode`'s `Display` does, for a number that
/// `StatusCode::from_u16` accepts (100 to 999). Nothing is proved of the text: it
/// is taken to depend on the number alone.
#[verifier::external_body]
fn status_text(code: u16) -> (text: String)
    requires
        100 <= code <= 999,
    ensures
        text@ == status_display(code),
{
    match reqwest::StatusCode::from_u16(code) {
        Ok(status) => status.to_string(),
        Err(_) => String::new(),
    }
}

/// Reads the clock with `std::time::SystemTime::now`, turns the moment into a
/// `chrono::DateTime<Utc>` through chrono's `From<SystemTime>`, which takes a
/// moment before 1970 as well as one after, and renders it with
/// `DateTime::to_rfc3339`. Nothing is claimed of the text: it differs from call to call.
#[verifier::external_body]
fn current_timestamp() -> (timestamp: String) {
    chrono::DateTime::<chrono::Utc>::from(std::time::SystemTime::now()).to_rfc3339()
}

/// How many of the requested item one member holds.
#[derive(Debug, Clone, PartialEq, Eq)]
pub struct MemberQuantity {
    pub member: String,
    pub quantity: i32,
}

impl View for MemberQuantity {
    type V = (Seq<char>, int);

    open spec fn view(&self) -> (Seq<char>, int) {
        (self.member@, self.quantity as int)
    }
}

/// The quantity of the requested item that each member holds, by member name.
/// A name occurs at most once; the entries keep the order in which their names came in.
#[derive(Debug, Clone, PartialEq, Eq)]
pub struct MemberQuantities {
    entries: Vec<MemberQuantity>,
}

/// Whether no name occurs twice among `entries`.
pub open spec fn names_distinct(entries: Seq<(Seq<char>, int)>) -> bool {
    forall|i: int, j: int|
        0 <= i < j < entries.len() ==> (#[trigger] entries[i]).0 != (#[trigger] entries[j]).0
}

/// Whether `entries` holds an entry for `name`.
pub open spec fn has_name(entries: Seq<(Seq<char>, int)>, name: Seq<char>) -> bool {
    exists|i: int| 0 <= i < entries.len() && (#[trigger] entries[i]).0 == name
}

/// Whether the entry at `i` is the first of `entries` under `name`.
pub open spec fn is_first_entry(entries: Seq<(Seq<char>, int)>, name: Seq<char>, i: int) -> bool {
    &&& 0 <= i < entries.len()
    &&& entries[i].0 == name
    &&& forall|j: int| 0 <= j < i ==> (#[trigger] entries[j]).0 != name
}

impl View for MemberQuantities {
    type V = Seq<(Seq<char>, int)>;

    closed spec fn view(&self) -> Seq<(Seq<char>, int)> {
        self.entries@.map_values(|e: MemberQuantity| e@)
    }
}

impl MemberQuantities {
    /// Whether no name occurs twice. Every value that `new` and `insert` produce is such.
    pub open spec fn wf(&self) -> bool {
        names_distinct(self@)
    }

    /// No quantities at all.
    pub fn new() -> (r: Self)
        ensures
            r@ == Seq::<(Seq<char>, int)>::empty(),
            r.wf(),
    {
        let r = MemberQuantities { entries: Vec::new() };
        assert(r@ =~= Seq::<(Seq<char>, int)>::empty());
        r
    }

    /// The number of members with an entry.
    pub fn len(&self) -> (n: usize)
        ensures
            n == self@.len(),
    {
        self.entries.len()
    }

    /// The `i`-th entry.
    pub fn entry(&self, i: usize) -> (e: &MemberQuantity)
        requires
            i < self@.len(),
        ensures
            e@ == self@[i as int],
    {
        &self.entries[i]
    }

    /// The same entries once more.
    pub fn copy(&self) -> (r: Self)
        ensures
            r@ == self@,
    {
        let mut entries: Vec<MemberQuantity> = Vec::new();
        let mut i: usize = 0;
        while i < self.entries.len()
            invariant
                i <= self.entries@.len(),
                entries@.len() == i,
                forall|j: int| 0 <= j < i ==> (#[trigger] entries@[j])@ == self.entries@[j]@,
            decreases self.entries@.len() - i,
        {
            let e = &self.entries[i];
            entries.push(MemberQuantity { member: e.member.clone(), quantity: e.quantity });
            i += 1;
        }
        let r = MemberQuantities { entries };
        assert(r@ =~= self@);
        r
    }

    /// The place of the first entry for `member`, if there is one.
    pub fn position(&self, member: &str) -> (r: Option<usize>)
        ensures
            r matches Some(i) ==> is_first_entry(self@, member@, i as int),
            r is None ==> !has_name(self@, member@),
    {
        let mut i: usize = 0;
        while i < self.entries.len()
            invariant
                i <= self.entries@.len(),
                self@.len() == self.entries@.len(),
                forall|j: int| 0 <= j < i ==> (#[trigger] self@[j]).0 != member@,
            decreases self.entries@.len() - i,
        {
            if same_text(self.entries[i].member.as_str(), member) {
                return Some(i);
            }
            i += 1;
        }
        None
    }

    /// The quantity held by `member`, if it has an entry.
    pub fn get(&self, member: &str) -> (r: Option<i32>)
        ensures
            r matches Some(q) ==> exists|i: int| #[trigger]
                is_first_entry(self@, member@, i) && self@[i].1 == q,
            r is None ==> !has_name(self@, member@),
    {
        match self.position(member) {
            Some(i) => {
                assert(is_first_entry(self@, member@, i as int));
                Some(self.entries[i].quantity)
            },
            None => None,
        }
    }

    /// Sets the quantity held by `member`: an entry for that name is overwritten
    /// where it stands, a new name is entered after the others.
    pub fn insert(&mut self, member: String, quantity: i32)
        requires
            old(self).wf(),
        ensures
            final(self).wf(),
            has_name(old(self)@, member@) ==> exists|i: int|
                0 <= i < old(self)@.len() && (#[trigger] old(self)@[i]).0 == member@
                    && final(self)@ == old(self)@.update(i, (member@, quantity as int)),
            !has_name(old(self)@, member@) ==> final(self)@ == old(self)@.push(
                (member@, quantity as int),
            ),
    {
        let ghost before = self@;
        match self.position(member.as_str()) {
            Some(i) => {
                self.entries.set(i, MemberQuantity { member, quantity });
                assert(self@ =~= before.update(i as int, (member@, quantity as int)));
            },
            None => {
                self.entries.push(MemberQuantity { member, quantity });
                assert(self@ =~= before.push((member@, quantity as int)));
            },
        }
    }
}

/// An entry counts as a holder when its quantity is positive and its name is not
/// that of the shared pool.
pub open spec fn is_holder(entry: (Seq<char>, int)) -> bool {
    entry.1 > 0 && !is_reserved_name(entry.0)
}

/// The line that stands for one holder: its name, a colon, a space, its quantity.
pub open spec fn holder_line(entry: (Seq<char>, int)) -> Seq<char> {
    entry.0 + ": "@ + decimal(entry.1)
}

/// The holders among `entries`, in their order.
pub open spec fn holders(entries: Seq<(Seq<char>, int)>) -> Seq<(Seq<char>, int)> {
    entries.filter(|e: (Seq<char>, int)| is_holder(e))
}

/// One line for each holder among `entries`, in their order.
pub open spec fn holder_lines(entries: Seq<(Seq<char>, int)>) -> Seq<Seq<char>> {
    holders(entries).map_values(|e: (Seq<char>, int)| holder_line(e))
}

/// `lines` with a line feed between each two of them.
pub open spec fn join_lines(lines: Seq<Seq<char>>) -> Seq<char>
    decreases lines.len(),
{
    if lines.len() == 0 {
        Seq::empty()
    } else if lines.len() == 1 {
        lines[0]
    } else {
        join_lines(lines.drop_last()) + "\n"@ + lines.last()
    }
}

/// What is shown for who holds the item: one line for each holder, or a fixed
/// sentence when there is none.
pub open spec fn holders_text(entries: Seq<(Seq<char>, int)>) -> Seq<char> {
    if holders(entries).len() == 0 {
        "No one has this item"@
    } else {
        join_lines(holder_lines(entries))
    }
}

/// Taking one more entry in adds it to the holders where it is one, and nothing else.
proof fn lemma_holders_step(entries: Seq<(Seq<char>, int)>, i: int)
    requires
        0 <= i < entries.len(),
    ensures
        holders(entries.take(i + 1)) == if is_holder(entries[i]) {
            holders(entries.take(i)).push(entries[i])
        } else {
            holders(entries.take(i))
        },
{
    reveal(Seq::filter);
    assert(entries.take(i + 1).drop_last() =~= entries.take(i));
}

/// Renders who holds the requested item.
pub fn render_holders(quantities: &MemberQuantities) -> (text: String)
    ensures
        text@ == holders_text(quantities@),
{
    let mut text = String::new();
    let mut any = false;
    let mut i: usize = 0;
    proof {
        reveal(Seq::filter);
        assert(quantities@.take(0) =~= Seq::empty());
    }
    while i < quantities.len()
        invariant
            i <= quantities@.len(),
            any == (holders(quantities@.take(i as int)).len() > 0),
            text@ == join_lines(holder_lines(quantities@.take(i as int))),
        decreases quantities@.len() - i,
    {
        let entry = quantities.entry(i);
        proof {
            lemma_holders_step(quantities@, i as int);
        }
        if entry.quantity > 0 && !is_shared_member(entry.member.as_str()) {
            let ghost before = holder_lines(quantities@.take(i as int));
            let ghost after = holder_lines(quantities@.take(i + 1));
            let ghost joined = text@;
            assert(after =~= before.push(holder_line(entry@)));
            assert(after.drop_last() =~= before);
            if any {
                text.append("\n");
            }
            text.append(entry.member.as_str());
            text.append(": ");
            append_integer(&mut text, entry.quantity as i64);
            assert(text@ =~= join_lines(after)) by {
                if any {
                    assert(text@ =~= joined + "\n"@ + holder_line(entry@));
                } else {
                    assert(joined =~= Seq::<char>::empty());
                    assert(text@ =~= holder_line(entry@));
                }
            }
            any = true;
        }
        i += 1;
    }
    assert(quantities@.take(i as int) =~= quantities@);
    if any {
        text
    } else {
        "No one has this item".to_owned()
    }
}

/// What a member asks for: an item, how many of it, an optional note, and how
/// many of it each member holds at the moment.
#[derive(Debug, Clone, PartialEq, Eq)]
pub struct ItemRequestData {
    pub item_id: i32,
    pub item_name: String,
    pub quantity: i32,
    pub note: Option<String>,
    pub member_quantities: MemberQuantities,
}

/// What an [`ItemRequestData`] holds, as plain values.
pub struct ItemRequestDataView {
    pub item_id: int,
    pub item_name: Seq<char>,
    pub quantity: int,
    pub note: Option<Seq<char>>,
    pub member_quantities: Seq<(Seq<char>, int)>,
}

/// The text of an optional string.
pub open spec fn optional_text(text: Option<String>) -> Option<Seq<char>> {
    match text {
        Some(t) => Some(t@),
        None => None,
    }
}

impl View for ItemRequestData {
    type V = ItemRequestDataView;

    open spec fn view(&self) -> ItemRequestDataView {
        ItemRequestDataView {
            item_id: self.item_id as int,
            item_name: self.item_name@,
            quantity: self.quantity as int,
            note: optional_text(self.note),
            member_quantities: self.member_quantities@,
        }
    }
}

/// One named value of an embed.
#[derive(Debug, Clone, PartialEq, Eq)]
pub struct DiscordEmbedField {
    pub name: String,
    pub value: String,
    pub inline: bool,
}

/// What a [`DiscordEmbedField`] holds, as plain values.
pub struct EmbedFieldView {
    pub name: Seq<char>,
    pub value: Seq<char>,
    pub inline: bool,
}

impl View for DiscordEmbedField {
    type V = EmbedFieldView;

    open spec fn view(&self) -> EmbedFieldView {
        EmbedFieldView { name: self.name@, value: self.value@, inline: self.inline }
    }
}

/// The small picture of an embed.
#[derive(Debug, Clone, PartialEq, Eq)]
pub struct DiscordThumbnail {
    pub url: String,
}

/// One embed of a message.
#[derive(Debug, Clone, PartialEq, Eq)]
pub struct DiscordEmbed {
    pub title: String,
    pub color: u32,
    pub fields: Vec<DiscordEmbedField>,
    pub thumbnail: Option<DiscordThumbnail>,
    pub timestamp: String,
}

/// What a [`DiscordEmbed`] holds, as plain values.
pub struct EmbedView {
    pub title: Seq<char>,
    pub color: int,
    pub fields: Seq<EmbedFieldView>,
    pub thumbnail: Option<Seq<char>>,
    pub timestamp: Seq<char>,
}

impl View for DiscordEmbed {
    type V = EmbedView;

    open spec fn view(&self) -> EmbedView {
        EmbedView {
            title: self.title@,
            color: self.color as int,
            fields: self.fields@.map_values(|f: DiscordEmbedField| f@),
            thumbnail: match self.thumbnail {
                Some(t) => Some(t.url@),
                None => None,
            },
            timestamp: self.timestamp@,
        }
    }
}

/// The body of the message that is posted to the channel.
#[derive(Debug, Clone, PartialEq, Eq)]
pub struct DiscordWebhookPayload {
    pub embeds: Vec<DiscordEmbed>,
}

impl View for DiscordWebhookPayload {
    type V = Seq<EmbedView>;

    open spec fn view(&self) -> Seq<EmbedView> {
        self.embeds@.map_values(|e: DiscordEmbed| e@)
    }
}

/// The colour of an item request's embed: orange.
pub const ITEM_REQUEST_COLOR: u32 = 0xFF7900;

/// Where the picture of the item with the number `item_id` is found.
pub open spec fn item_image_url(item_id: int) -> Seq<char> {
    "https://secure.runescape.com/m=itemdb_oldschool/obj_sprite.gif?id="@ + decimal(item_id)
}

/// The item and how many of it are asked for.
pub open spec fn item_text(item_name: Seq<char>, quantity: int) -> Seq<char> {
    item_name + " x"@ + decimal(quantity)
}

/// The fields of an item request's embed: who asks, for what, who holds it, and
/// the note where there is one that is not empty.
pub open spec fn item_request_fields(
    requester_name: Seq<char>,
    data: ItemRequestDataView,
) -> Seq<EmbedFieldView> {
    let fixed = seq![
        EmbedFieldView { name: "Requester"@, value: requester_name, inline: true },
        EmbedFieldView {
            name: "Item"@,
            value: item_text(data.item_name, data.quantity),
            inline: true,
        },
        EmbedFieldView {
            name: "Current Holders"@,
            value: holders_text(data.member_quantities),
            inline: false,
        },
    ];
    match data.note {
        Some(note) => if note.len() > 0 {
            fixed.push(EmbedFieldView { name: "Note"@, value: note, inline: false })
        } else {
            fixed
        },
        None => fixed,
    }
}

/// The embed of an item request made at `timestamp`.
pub open spec fn item_request_embed(
    requester_name: Seq<char>,
    data: ItemRequestDataView,
    timestamp: Seq<char>,
) -> EmbedView {
    EmbedView {
        title: "Item Request"@,
        color: ITEM_REQUEST_COLOR as int,
        fields: item_request_fields(requester_name, data),
        thumbnail: Some(item_image_url(data.item_id)),
        timestamp,
    }
}

/// The message of an item request made at `timestamp`: one embed.
pub open spec fn item_request_message(
    requester_name: Seq<char>,
    data: ItemRequestDataView,
    timestamp: Seq<char>,
) -> Seq<EmbedView> {
    seq![item_request_embed(requester_name, data, timestamp)]
}

fn embed_field(name: &str, value: String, inline: bool) -> (f: DiscordEmbedField)
    ensures
        f@ == (EmbedFieldView { name: name@, value: value@, inline }),
{
    DiscordEmbedField { name: name.to_owned(), value, inline }
}

/// Builds the fields of an item request's embed.
pub fn build_item_request_fields(requester_name: &str, request_data: &ItemRequestData) -> (fields:
    Vec<DiscordEmbedField>)
    ensures
        fields@.map_values(|f: DiscordEmbedField| f@) == item_request_fields(
            requester_name@,
            request_data@,
        ),
{
    let mut item = request_data.item_name.clone();
    item.append(" x");
    append_integer(&mut item, request_data.quantity as i64);
    let mut fields: Vec<DiscordEmbedField> = Vec::new();
    fields.push(embed_field("Requester", requester_name.to_owned(), true));
    fields.push(embed_field("Item", item, true));
    fields.push(
        embed_field("Current Holders", render_holders(&request_data.member_quantities), false),
    );
    if let Some(note) = &request_data.note {
        if !note.as_str().is_empty() {
            fields.push(embed_field("Note", note.clone(), false));
        }
    }
    assert(fields@.map_values(|f: DiscordEmbedField| f@) =~= item_request_fields(
        requester_name@,
        request_data@,
    ));
    fields
}

/// Builds the message that tells the channel of an item request made at `timestamp`.
pub fn build_item_request_payload(
    requester_name: &str,
    request_data: &ItemRequestData,
    timestamp: String,
) -> (payload: DiscordWebhookPayload)
    ensures
        payload@ == item_request_message(requester_name@, request_data@, timestamp@),
{
    let mut url = "https://secure.runescape.com/m=itemdb_oldschool/obj_sprite.gif?id=".to_owned();
    append_integer(&mut url, request_data.item_id as i64);
    let embed = DiscordEmbed {
        title: "Item Request".to_owned(),
        color: ITEM_REQUEST_COLOR,
        fields: build_item_request_fields(requester_name, request_data),
        thumbnail: Some(DiscordThumbnail { url }),
        timestamp,
    };
    let mut embeds: Vec<DiscordEmbed> = Vec::new();
    embeds.push(embed);
    let payload = DiscordWebhookPayload { embeds };
    assert(payload@ =~= item_request_message(requester_name@, request_data@, timestamp@));
    payload
}

/// How every address of a Discord webhook begins.
pub const DISCORD_WEBHOOK_PREFIX: &'static str = "https://discord.com/api/webhooks/";

/// How an address of a Discord webhook begins under Discord's older host name.
pub const DISCORDAPP_WEBHOOK_PREFIX: &'static str = "https://discordapp.com/api/webhooks/";

/// Whether `url` begins as the address of a Discord webhook does.
pub open spec fn is_discord_webhook_url(url: Seq<char>) -> bool {
    DISCORD_WEBHOOK_PREFIX@.is_prefix_of(url) || DISCORDAPP_WEBHOOK_PREFIX@.is_prefix_of(url)
}

/// Whether `url` begins as the address of a Discord webhook does.
pub fn validate_discord_webhook_url(url: &str) -> (r: bool)
    ensures
        r == is_discord_webhook_url(url@),
{
    has_prefix(url, DISCORD_WEBHOOK_PREFIX) || has_prefix(url, DISCORDAPP_WEBHOOK_PREFIX)
}

/// Whether a group's settings may hold `url`: it is empty, which stands for no
/// address at all, or it is the address of a Discord webhook.
pub open spec fn is_acceptable_webhook_url(url: Seq<char>) -> bool {
    url.len() == 0 || is_discord_webhook_url(url)
}

/// Checks an address before it is written to a group's settings.
pub fn validate_webhook_url(url: &str) -> (r: Result<(), ConfigurationError>)
    ensures
        r is Ok <==> is_acceptable_webhook_url(url@),
        r matches Err(e) ==> e == ConfigurationError::InvalidWebhookUrl,
{
    if url.is_empty() || validate_discord_webhook_url(url) {
        Ok(())
    } else {
        Err(ConfigurationError::InvalidWebhookUrl)
    }
}

/// An item request did not reach the channel.
#[derive(Debug, Clone, PartialEq, Eq)]
pub enum DispatchError {
    /// The message could not be sent at all.
    Transport { reason: String },
    /// The message was sent and answered with a status that is no success.
    Rejected { status: HttpStatus, body: String },
}

/// What a [`DispatchError`] holds, as plain values.
pub enum DispatchErrorView {
    Transport { reason: Seq<char> },
    Rejected { status: int, body: Seq<char> },
}

impl View for DispatchError {
    type V = DispatchErrorView;

    open spec fn view(&self) -> DispatchErrorView {
        match *self {
            DispatchError::Transport { reason } => DispatchErrorView::Transport {
                reason: reason@,
            },
            DispatchError::Rejected { status, body } => DispatchErrorView::Rejected {
                status: status@,
                body: body@,
            },
        }
    }
}

impl DispatchErrorView {
    /// The error in words.
    pub open spec fn message(self) -> Seq<char> {
        match self {
            DispatchErrorView::Transport { reason } => "Failed to send webhook: "@ + reason,
            DispatchErrorView::Rejected { status, body } => "Discord webhook failed with status "@
                + status_display(status as u16) + ": "@ + body,
        }
    }
}

impl DispatchError {
    /// The error in words: why nothing was sent, or the status and the text of the answer.
    pub fn message(&self) -> (text: String)
        ensures
            text@ == self@.message(),
    {
        match self {
            DispatchError::Transport { reason } => {
                let mut text = "Failed to send webhook: ".to_owned();
                text.append(reason.as_str());
                text
            },
            DispatchError::Rejected { status, body } => {
                let mut text = "Discord webhook failed with status ".to_owned();
                let shown = status_text(status.code());
                text.append(shown.as_str());
                text.append(": ");
                text.append(body.as_str());
                assert(text@ =~= self@.message());
                text
            },
        }
    }
}

/// What came of the one attempt to post a message.
#[derive(Debug, Clone, PartialEq, Eq)]
pub enum WebhookDelivery {
    /// No answer came: the message could not be sent, for the reason given.
    Failed { reason: String },
    /// An answer came, with this status. `body` is the answer's text where it was
    /// read; it is looked at only when the status is no success.
    Answered { status: HttpStatus, body: Option<String> },
}

/// What a [`WebhookDelivery`] holds, as plain values.
pub enum WebhookDeliveryView {
    Failed { reason: Seq<char> },
    Answered { status: int, body: Option<Seq<char>> },
}

impl View for WebhookDelivery {
    type V = WebhookDeliveryView;

    open spec fn view(&self) -> WebhookDeliveryView {
        match *self {
            WebhookDelivery::Failed { reason } => WebhookDeliveryView::Failed { reason: reason@ },
            WebhookDelivery::Answered { status, body } => WebhookDeliveryView::Answered {
                status: status@,
                body: optional_text(body),
            },
        }
    }
}

/// What a delivery means for the request: sent, or the error to report.
pub open spec fn delivery_result(delivery: WebhookDeliveryView) -> Result<(), DispatchErrorView> {
    match delivery {
        WebhookDeliveryView::Failed { reason } => Err(DispatchErrorView::Transport { reason }),
        WebhookDeliveryView::Answered { status, body } => if 200 <= status <= 299 {
            Ok(())
        } else {
            Err(
                DispatchErrorView::Rejected {
                    status,
                    body: match body {
                        Some(text) => text,
                        None => "Unknown error"@,
                    },
                },
            )
        },
    }
}

/// The result of a `Result` whose error has a view, as plain values.
pub open spec fn dispatch_result_view(r: Result<(), DispatchError>) -> Result<
    (),
    DispatchErrorView,
> {
    match r {
        Ok(()) => Ok(()),
        Err(e) => Err(e@),
    }
}

/// Judges the one attempt to post a message: a status from 200 to 299 means that
/// the request was sent; any other status, and a failure to send, is an error.
/// Nothing is tried again.
pub fn webhook_result(delivery: &WebhookDelivery) -> (r: Result<(), DispatchError>)
    ensures
        dispatch_result_view(r) == delivery_result(delivery@),
{
    match delivery {
        WebhookDelivery::Failed { reason } => Err(
            DispatchError::Transport { reason: reason.clone() },
        ),
        WebhookDelivery::Answered { status, body } => {
            if status.is_success() {
                Ok(())
            } else {
                let body = match body {
                    Some(text) => text.clone(),
                    None => "Unknown error".to_owned(),
                };
                Err(DispatchError::Rejected { status: *status, body })
            }
        },
    }
}

/// What is to be done next for an item request's notification.
#[derive(Debug, PartialEq, Eq)]
pub enum WebhookStep {
    /// Post `payload` to `url`, once, and come back with what came of it.
    Post { url: String, payload: DiscordWebhookPayload },
    /// Nothing more is to be done: the request was sent, or it failed.
    Done(Result<(), DispatchError>),
}

/// What a [`WebhookStep`] holds, as plain values.
pub enum WebhookStepView {
    Post { url: Seq<char>, payload: Seq<EmbedView> },
    Done(Result<(), DispatchErrorView>),
}

impl View for WebhookStep {
    type V = WebhookStepView;

    open spec fn view(&self) -> WebhookStepView {
        match *self {
            WebhookStep::Post { url, payload } => WebhookStepView::Post {
                url: url@,
                payload: payload@,
            },
            WebhookStep::Done(r) => WebhookStepView::Done(dispatch_result_view(r)),
        }
    }
}

/// What a delivery that may not have been tried yet holds, as plain values.
pub open spec fn optional_delivery(delivery: Option<WebhookDelivery>) -> Option<
    WebhookDeliveryView,
> {
    match delivery {
        Some(d) => Some(d@),
        None => None,
    }
}

/// The next step for an item request's notification: while nothing has been
/// tried, the message is to be posted; once an attempt was made, its result stands.
pub open spec fn webhook_step(
    webhook_url: Seq<char>,
    requester_name: Seq<char>,
    data: ItemRequestDataView,
    timestamp: Seq<char>,
    delivery: Option<WebhookDeliveryView>,
) -> WebhookStepView {
    match delivery {
        None => WebhookStepView::Post {
            url: webhook_url,
            payload: item_request_message(requester_name, data, timestamp),
        },
        Some(d) => WebhookStepView::Done(delivery_result(d)),
    }
}

/// Decides the next step for an item request's notification, with `timestamp`
/// as the moment of the request.
pub fn send_item_request_webhook_at(
    webhook_url: &str,
    requester_name: &str,
    request_data: &ItemRequestData,
    timestamp: String,
    delivery: &Option<WebhookDelivery>,
) -> (step: WebhookStep)
    ensures
        step@ == webhook_step(
            webhook_url@,
            requester_name@,
            request_data@,
            timestamp@,
            optional_delivery(*delivery),
        ),
{
    match delivery {
        None => WebhookStep::Post {
            url: webhook_url.to_owned(),
            payload: build_item_request_payload(requester_name, request_data, timestamp),
        },
        Some(d) => WebhookStep::Done(webhook_result(d)),
    }
}

/// Decides the next step for an item request's notification. While nothing has
/// been tried, the message is built, with the moment of this call as its
/// timestamp and everything else fixed by the arguments. Once an attempt was made
/// its result stands, and the clock is not read. The message is posted once:
/// whatever comes of it is the result.
pub fn send_item_request_webhook(
    webhook_url: &str,
    requester_name: &str,
    request_data: &ItemRequestData,
    delivery: &Option<WebhookDelivery>,
) -> (step: WebhookStep)
    ensures
        exists|timestamp: Seq<char>|
            step@ == #[trigger] webhook_step(
                webhook_url@,
                requester_name@,
                request_data@,
                timestamp,
                optional_delivery(*delivery),
            ),
        delivery is Some ==> forall|timestamp: Seq<char>|
            step@ == #[trigger] webhook_step(
                webhook_url@,
                requester_name@,
                request_data@,
                timestamp,
                optional_delivery(*delivery),
            ),
{
    let timestamp = match delivery {
        None => current_timestamp(),
        Some(_) => String::new(),
    };
    send_item_request_webhook_at(webhook_url, requester_name, request_data, timestamp, delivery)
}

} // verus!
