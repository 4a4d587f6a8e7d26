//! The plain data that travels over the bus and through the handlers.

use vstd::prelude::*;
use vstd::string::*;

verus! {

/// Identifier of a chat user in the persistence layer.
pub type UserID = i64;

/// Per-user role flags. Being an admin is not one of them: the admin
/// identities are configured on the command router.
#[derive(Debug, PartialEq, Eq, Structural, Copy)]
pub struct UserRoles {
    pub is_github_sponsor: bool,
    pub is_twitch_mod: bool,
    pub is_twitch_vip: bool,
    pub is_twitch_founder: bool,
    pub is_twitch_sub: bool,
}

impl Clone for UserRoles {
    fn clone(&self) -> (r: Self)
        ensures
            r == *self,
    {
        *self
    }
}

impl Default for UserRoles {
    fn default() -> (r: Self)
        ensures
            r == UserRoles::none(),
    {
        UserRoles {
            is_github_sponsor: false,
            is_twitch_mod: false,
            is_twitch_vip: false,
            is_twitch_founder: false,
            is_twitch_sub: false,
        }
    }
}

impl UserRoles {
    /// The role set with every flag off.
    pub open spec fn none() -> UserRoles {
        UserRoles {
            is_github_sponsor: false,
            is_twitch_mod: false,
            is_twitch_vip: false,
            is_twitch_founder: false,
            is_twitch_sub: false,
        }
    }

    pub fn is_twitch_mod(&self) -> (r: bool)
        ensures
            r == self.is_twitch_mod,
    {
        self.is_twitch_mod
    }
}

/// A chat line, already attributed to its author.
#[derive(Debug)]
pub struct UserMessage {
    pub user_name: String,
    pub contents: String,
    pub roles: UserRoles,
}

/// Mathematical value of a `UserMessage`.
pub struct UserMessageView {
    pub user_name: Seq<char>,
    pub contents: Seq<char>,
    pub roles: UserRoles,
}

impl View for UserMessage {
    type V = UserMessageView;

    open spec fn view(&self) -> UserMessageView {
        UserMessageView {
            user_name: self.user_name@,
            contents: self.contents@,
            roles: self.roles,
        }
    }
}

impl Clone for UserMessage {
    fn clone(&self) -> (r: Self)
        ensures
            r@ == self@,
    {
        UserMessage {
            user_name: self.user_name.clone(),
            contents: self.contents.clone(),
            roles: self.roles,
        }
    }
}

impl Default for UserMessage {
    fn default() -> (r: Self)
        ensures
            r@.user_name == Seq::<char>::empty(),
            r@.contents == Seq::<char>::empty(),
            r@.roles == UserRoles::none(),
    {
        UserMessage {
            user_name: String::new(),
            contents: String::new(),
            roles: UserRoles::default(),
        }
    }
}

/// A request to play a user's theme song.
#[derive(Debug)]
pub struct ThemesongPlay {
    pub user_id: UserID,
    pub display_name: String,
}

/// Mathematical value of a `ThemesongPlay`.
pub struct ThemesongPlayView {
    pub user_id: int,
    pub display_name: Seq<char>,
}

impl View for ThemesongPlay {
    type V = ThemesongPlayView;

    open spec fn view(&self) -> ThemesongPlayView {
        ThemesongPlayView { user_id: self.user_id as int, display_name: self.display_name@ }
    }
}

impl Clone for ThemesongPlay {
    fn clone(&self) -> (r: Self)
        ensures
            r@ == self@,
    {
        ThemesongPlay { user_id: self.user_id, display_name: self.display_name.clone() }
    }
}

/// A GitHub account, as the sponsorship feed reports it.
#[derive(Debug)]
pub struct GithubUser {
    pub id: String,
    pub login: String,
    pub name: String,
}

/// Mathematical value of a `GithubUser`.
pub struct GithubUserView {
    pub id: Seq<char>,
    pub login: Seq<char>,
    pub name: Seq<char>,
}

impl View for GithubUser {
    type V = GithubUserView;

    open spec fn view(&self) -> GithubUserView {
        GithubUserView { id: self.id@, login: self.login@, name: self.name@ }
    }
}

impl Clone for GithubUser {
    fn clone(&self) -> (r: Self)
        ensures
            r@ == self@,
    {
        GithubUser { id: self.id.clone(), login: self.login.clone(), name: self.name.clone() }
    }
}

/// What is sent to the song generator for one prompt.
#[derive(Debug)]
pub struct AudioGenerationData {
    pub prompt: String,
    pub make_instrumental: bool,
    pub wait_audio: bool,
}

impl Default for AudioGenerationData {
    fn default() -> (r: Self)
        ensures
            r.prompt@ == Seq::<char>::empty(),
            !r.make_instrumental,
            !r.wait_audio,
    {
        AudioGenerationData { prompt: String::new(), make_instrumental: false, wait_audio: false }
    }
}

/// A raw chat line, before it is attributed and given roles.
#[derive(Debug)]
pub struct ChatLine {
    pub sender_login: String,
    pub message_text: String,
}

/// Mathematical value of a `ChatLine`.
pub struct ChatLineView {
    pub sender_login: Seq<char>,
    pub message_text: Seq<char>,
}

impl View for ChatLine {
    type V = ChatLineView;

    open spec fn view(&self) -> ChatLineView {
        ChatLineView { sender_login: self.sender_login@, message_text: self.message_text@ }
    }
}

impl Clone for ChatLine {
    fn clone(&self) -> (r: Self)
        ensures
            r@ == self@,
    {
        ChatLine {
            sender_login: self.sender_login.clone(),
            message_text: self.message_text.clone(),
        }
    }
}

/// The stages of fetching a user's theme song.
#[derive(Debug)]
pub enum ThemesongDownload {
    Request { msg: ChatLine },
    Start { display_name: String },
    Finish { display_name: String, success: bool },
    Format { sender: String },
}

/// Mathematical value of a `ThemesongDownload`.
pub enum ThemesongDownloadView {
    Request { msg: ChatLineView },
    Start { display_name: Seq<char> },
    Finish { display_name: Seq<char>, success: bool },
    Format { sender: Seq<char> },
}

impl View for ThemesongDownload {
    type V = ThemesongDownloadView;

    open spec fn view(&self) -> ThemesongDownloadView {
        match self {
            ThemesongDownload::Request { msg } => ThemesongDownloadView::Request { msg: msg@ },
            ThemesongDownload::Start { display_name } => ThemesongDownloadView::Start {
                display_name: display_name@,
            },
            ThemesongDownload::Finish { display_name, success } => ThemesongDownloadView::Finish {
                display_name: display_name@,
                success: *success,
            },
            ThemesongDownload::Format { sender } => ThemesongDownloadView::Format {
                sender: sender@,
            },
        }
    }
}

impl Clone for ThemesongDownload {
    fn clone(&self) -> (r: Self)
        ensures
            r@ == self@,
    {
        match self {
            ThemesongDownload::Request { msg } => ThemesongDownload::Request { msg: msg.clone() },
            ThemesongDownload::Start { display_name } => ThemesongDownload::Start {
                display_name: display_name.clone(),
            },
            ThemesongDownload::Finish { display_name, success } => ThemesongDownload::Finish {
                display_name: display_name.clone(),
                success: *success,
            },
            ThemesongDownload::Format { sender } => ThemesongDownload::Format {
                sender: sender.clone(),
            },
        }
    }
}

/// The kinds of subscription that are announced.
#[derive(Debug, PartialEq, Eq, Structural, Clone, Copy)]
pub enum SubscriptionKind {
    Sub,
    ReSub,
    SubGift,
    ResubGift,
    ExtendSub,
}

/// A subscription to a channel.
#[derive(Debug)]
pub struct TwitchSubscriptionEvent {
    pub kind: SubscriptionKind,
    pub user_name: String,
    pub display_name: String,
    pub channel_name: String,
    pub channel_id: String,
    pub sub_plan: String,
    pub cumulative_months: i64,
    pub is_gift: bool,
    pub message: String,
}

/// Mathematical value of a `TwitchSubscriptionEvent`.
pub struct TwitchSubscriptionView {
    pub kind: SubscriptionKind,
    pub user_name: Seq<char>,
    pub display_name: Seq<char>,
    pub channel_name: Seq<char>,
    pub channel_id: Seq<char>,
    pub sub_plan: Seq<char>,
    pub cumulative_months: int,
    pub is_gift: bool,
    pub message: Seq<char>,
}

impl View for TwitchSubscriptionEvent {
    type V = TwitchSubscriptionView;

    open spec fn view(&self) -> TwitchSubscriptionView {
        TwitchSubscriptionView {
            kind: self.kind,
            user_name: self.user_name@,
            display_name: self.display_name@,
            channel_name: self.channel_name@,
            channel_id: self.channel_id@,
            sub_plan: self.sub_plan@,
            cumulative_months: self.cumulative_months as int,
            is_gift: self.is_gift,
            message: self.message@,
        }
    }
}

impl Clone for TwitchSubscriptionEvent {
    fn clone(&self) -> (r: Self)
        ensures
            r@ == self@,
    {
        TwitchSubscriptionEvent {
            kind: self.kind,
            user_name: self.user_name.clone(),
            display_name: self.display_name.clone(),
            channel_name: self.channel_name.clone(),
            channel_id: self.channel_id.clone(),
            sub_plan: self.sub_plan.clone(),
            cumulative_months: self.cumulative_months,
            is_gift: self.is_gift,
            message: self.message.clone(),
        }
    }
}

impl TwitchSubscriptionEvent {
    /// The name under which the subscriber is shown.
    pub fn display_name(&self) -> (r: String)
        ensures
            r@ == self@.display_name,
    {
        self.display_name.clone()
    }
}

/// The first subscription of a user to a channel, for trying things out.
pub open spec fn sample_sub(
    user_name: Seq<char>,
    display_name: Seq<char>,
    channel_name: Seq<char>,
    channel_id: Seq<char>,
) -> TwitchSubscriptionView {
    TwitchSubscriptionView {
        kind: SubscriptionKind::Sub,
        user_name,
        display_name,
        channel_name,
        channel_id,
        sub_plan: "1000"@,
        cumulative_months: 1,
        is_gift: false,
        message: "You are my favorite streamer"@,
    }
}

fn make_sample_sub(user_name: &str, display_name: &str, channel_name: &str, channel_id: &str) -> (r:
    TwitchSubscriptionEvent)
    ensures
        r@ == sample_sub(user_name@, display_name@, channel_name@, channel_id@),
{
    TwitchSubscriptionEvent {
        kind: SubscriptionKind::Sub,
        user_name: String::from_str(user_name),
        display_name: String::from_str(display_name),
        channel_name: String::from_str(channel_name),
        channel_id: String::from_str(channel_id),
        sub_plan: String::from_str("1000"),
        cumulative_months: 1,
        is_gift: false,
        message: String::from_str("You are my favorite streamer"),
    }
}

/// A sample subscription of NyxKrage to beginbot.
pub fn get_nyx_sub_for_begin() -> (r: TwitchSubscriptionEvent)
    ensures
        r@ == sample_sub("nyxkrage"@, "NyxKrage"@, "beginbot"@, "424038378"@),
{
    make_sample_sub("nyxkrage", "NyxKrage", "beginbot", "424038378")
}

/// A sample subscription of NyxKrage to teej_dv.
pub fn get_nyx_sub() -> (r: TwitchSubscriptionEvent)
    ensures
        r@ == sample_sub("nyxkrage"@, "NyxKrage"@, "teej_dv"@, "27620241"@),
{
    make_sample_sub("nyxkrage", "NyxKrage", "teej_dv", "27620241")
}

/// A sample subscription of ThePrimeagen to teej_dv.
pub fn get_prime_sub() -> (r: TwitchSubscriptionEvent)
    ensures
        r@ == sample_sub("theprimeagen"@, "ThePrimeagen"@, "teej_dv"@, "27620241"@),
{
    make_sample_sub("theprimeagen", "ThePrimeagen", "teej_dv", "27620241")
}

/// Text for the voice synthesiser to speak.
#[derive(Debug)]
pub struct ElevenLabsRequest {
    pub source: Option<String>,
    pub voice_text: String,
    pub message: String,
    pub username: String,
    pub voice: String,
}

/// Mathematical value of an `ElevenLabsRequest`.
pub struct ElevenLabsRequestView {
    pub source: Option<Seq<char>>,
    pub voice_text: Seq<char>,
    pub message: Seq<char>,
    pub username: Seq<char>,
    pub voice: Seq<char>,
}

impl View for ElevenLabsRequest {
    type V = ElevenLabsRequestView;

    open spec fn view(&self) -> ElevenLabsRequestView {
        ElevenLabsRequestView {
            source: match self.source {
                Some(s) => Some(s@),
                None => None,
            },
            voice_text: self.voice_text@,
            message: self.message@,
            username: self.username@,
            voice: self.voice@,
        }
    }
}

impl Clone for ElevenLabsRequest {
    fn clone(&self) -> (r: Self)
        ensures
            r@ == self@,
    {
        ElevenLabsRequest {
            source: match &self.source {
                Some(s) => Some(s.clone()),
                None => None,
            },
            voice_text: self.voice_text.clone(),
            message: self.message.clone(),
            username: self.username.clone(),
            voice: self.voice.clone(),
        }
    }
}

/// A fact published once on the bus and seen by every live subscription.
#[derive(Debug)]
pub enum Event {
    /// A chat line.
    UserMessage(UserMessage),
    /// A raw chat line.
    TwitchChatMessage(ChatLine),
    /// The current number of subscribers.
    TwitchSubscriptionCount(usize),
    /// A new subscription.
    TwitchSubscription(TwitchSubscriptionEvent),
    /// A new sponsorship.
    GithubSponsorshipEvent,
    /// A theme song is being fetched.
    ThemesongDownload(ThemesongDownload),
    /// A theme song is due.
    ThemesongPlay(ThemesongPlay),
    /// Something is to be spoken.
    ElevenLabsRequest(ElevenLabsRequest),
    /// Somebody asks for the subscriber count.
    RequestTwitchSubCount,
    /// Every handler ends its loop when it sees this.
    Shutdown,
}

/// Mathematical value of an `Event`.
pub enum EventView {
    UserMessage(UserMessageView),
    TwitchChatMessage(ChatLineView),
    TwitchSubscriptionCount(nat),
    TwitchSubscription(TwitchSubscriptionView),
    GithubSponsorshipEvent,
    ThemesongDownload(ThemesongDownloadView),
    ThemesongPlay(ThemesongPlayView),
    ElevenLabsRequest(ElevenLabsRequestView),
    RequestTwitchSubCount,
    Shutdown,
}

impl View for Event {
    type V = EventView;

    open spec fn view(&self) -> EventView {
        match self {
            Event::UserMessage(m) => EventView::UserMessage(m@),
            Event::TwitchChatMessage(l) => EventView::TwitchChatMessage(l@),
            Event::TwitchSubscriptionCount(n) => EventView::TwitchSubscriptionCount(*n as nat),
            Event::TwitchSubscription(e) => EventView::TwitchSubscription(e@),
            Event::GithubSponsorshipEvent => EventView::GithubSponsorshipEvent,
            Event::ThemesongDownload(d) => EventView::ThemesongDownload(d@),
            Event::ThemesongPlay(t) => EventView::ThemesongPlay(t@),
            Event::ElevenLabsRequest(r) => EventView::ElevenLabsRequest(r@),
            Event::RequestTwitchSubCount => EventView::RequestTwitchSubCount,
            Event::Shutdown => EventView::Shutdown,
        }
    }
}

impl Clone for Event {
    fn clone(&self) -> (r: Self)
        ensures
            r@ == self@,
    {
        match self {
            Event::UserMessage(m) => Event::UserMessage(m.clone()),
            Event::TwitchChatMessage(l) => Event::TwitchChatMessage(l.clone()),
            Event::TwitchSubscriptionCount(n) => Event::TwitchSubscriptionCount(*n),
            Event::TwitchSubscription(e) => Event::TwitchSubscription(e.clone()),
            Event::GithubSponsorshipEvent => Event::GithubSponsorshipEvent,
            Event::ThemesongDownload(d) => Event::ThemesongDownload(d.clone()),
            Event::ThemesongPlay(t) => Event::ThemesongPlay(t.clone()),
            Event::ElevenLabsRequest(r) => Event::ElevenLabsRequest(r.clone()),
            Event::RequestTwitchSubCount => Event::RequestTwitchSubCount,
            Event::Shutdown => Event::Shutdown,
        }
    }
}

} // verus!
